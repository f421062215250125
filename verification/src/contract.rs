//! The backend capability contract.
//!
//! A backend is a value offering the operation set below; conforming
//! variants include a local disk-backed index, a remote network-backed
//! index, and the in-memory test fixture of this crate.  Callers hold one
//! backend and never branch on which variant it is: every operation's
//! meaning is fixed here as a function of the backend's [`IndexSnapshot`],
//! the mathematical image of the immutable index data the backend serves.
//!
//! Limit policy: the `limit`/`match_limit` arguments of the search
//! operations are hard caps.  A limit of `0` yields an empty result; an
//! effectively unbounded search passes `usize::MAX`.

use vstd::prelude::*;
use crate::errors::{ErrorLayer, ServerError, sticky_at};
use crate::ident::identifier_matches;
use crate::json::{json_decodes, json_value_of};
use crate::regexp::{regex_leftmost, regex_matched, regex_ok};
use crate::results::{
    FileMatchV, FileMatches, TextBoundsV, TextMatchInFileV, TextMatchesByFileV, TextMatches,
    TreeInfo,
};

verus! {

/// Selects which rendered-HTML sub-area `fetch_html` reads from.
#[derive(Clone, Copy, Debug, PartialEq, Eq, Structural)]
pub enum HtmlFileRoot {
    /// The per-file rendered documents.
    FormattedFile,
    /// The per-directory index documents.
    FormattedDir,
    /// The templates area; local indices only.
    FormattedTemplate,
}

/// Selects which on-disk sub-area `translate_path` resolves a tree-local
/// path against; meaningful only for local-capable backends.
#[derive(Clone, Copy, Debug, PartialEq, Eq, Structural)]
pub enum SearchfoxIndexRoot {
    /// Already-gzipped analysis files; `fetch_raw_analysis` should be
    /// preferred for reading their contents.
    CompressedAnalysis,
    /// The root of the config repo.
    ConfigRepo,
    /// The templates dir under the index root.
    IndexTemplates,
    /// The pages dir under the index root, exposed to the web whole.
    IndexPages,
    /// Directory listings.
    UncompressedDirectoryListing,
}

/// On-disk anchor paths of a local-capable backend.
pub struct LocalPathsV {
    pub index_path: Seq<char>,
    pub config_repo_path: Seq<char>,
}

/// Image of one file-listing entry.
pub struct FileEntryV {
    pub path: Seq<char>,
    pub is_dir: bool,
    pub concise: Seq<(Seq<char>, Seq<char>)>,
}

/// Image of one rendered file: its per-line HTML and its symbol-info
/// JSON text.
pub struct FormattedV {
    pub lines: Seq<Seq<char>>,
    pub sym_json: Seq<char>,
}

/// Image of one file of the text-search corpus.
pub struct TextFileV {
    pub file: Seq<char>,
    pub path_kind: Seq<char>,
    pub lines: Seq<Seq<char>>,
}

/// The mathematical image of the index data a backend serves.  Two
/// backends pointed at equivalent underlying data have equal snapshots,
/// whatever their storage or transport.
pub struct IndexSnapshot {
    pub tree_name: Seq<char>,
    /// `Some` for local-capable variants; `None` for pure-remote ones,
    /// whose `translate_path` is `Unsupported`.
    pub local: Option<LocalPathsV>,
    /// Repository-tracked file listing.
    pub repo_files: Seq<FileEntryV>,
    /// Build/output-directory file listing.
    pub objdir_files: Seq<FileEntryV>,
    /// `(identifier, symbol)` pairs.
    pub identifiers: Seq<(Seq<char>, Seq<char>)>,
    /// Symbol to crossref JSON text.
    pub crossref: Seq<(Seq<char>, Seq<char>)>,
    /// Symbol to crossref JSON text carrying the additional, more
    /// expensive derived data that `extra_processing` requests.
    pub crossref_extra: Seq<(Seq<char>, Seq<char>)>,
    /// Symbol to jumpref JSON text.
    pub jumpref: Seq<(Seq<char>, Seq<char>)>,
    /// Tree-local path to raw source text.
    pub sources: Seq<(Seq<char>, Seq<char>)>,
    /// Tree-local path to rendered lines and symbol-info JSON.
    pub formatted: Seq<(Seq<char>, FormattedV)>,
    /// Tree-local path to rendered HTML, per HTML root.
    pub html_files: Seq<(Seq<char>, Seq<char>)>,
    pub html_dirs: Seq<(Seq<char>, Seq<char>)>,
    pub html_templates: Seq<(Seq<char>, Seq<char>)>,
    /// The corpus the text-search engine serves.
    pub text_corpus: Seq<TextFileV>,
    /// Query string to result JSON text, for the query escape hatch.
    pub queries: Seq<(Seq<char>, Seq<char>)>,
    /// Tree-local path to the records of its analysis file.
    pub analysis: Seq<(Seq<char>, Seq<Seq<char>>)>,
}

/// First value keyed `key` in an association list, in listing order.
pub open spec fn pair_lookup<T>(entries: Seq<(Seq<char>, T)>, key: Seq<char>) -> Option<T>
    decreases entries.len(),
{
    if entries.len() == 0 {
        None
    } else if entries[0].0 == key {
        Some(entries[0].1)
    } else {
        pair_lookup(entries.drop_first(), key)
    }
}

/// Directory prefix a root resolves under, post-compression conventions.
pub open spec fn root_prefix(lp: LocalPathsV, root: SearchfoxIndexRoot) -> Seq<char> {
    match root {
        SearchfoxIndexRoot::CompressedAnalysis => lp.index_path + "/analysis/"@,
        SearchfoxIndexRoot::ConfigRepo => lp.config_repo_path + "/"@,
        SearchfoxIndexRoot::IndexTemplates => lp.index_path + "/templates/"@,
        SearchfoxIndexRoot::IndexPages => lp.index_path + "/pages/"@,
        SearchfoxIndexRoot::UncompressedDirectoryListing => lp.index_path + "/dir/"@,
    }
}

/// Suffix a root appends, post-compression conventions: analysis files
/// are stored gzipped.
pub open spec fn root_suffix(root: SearchfoxIndexRoot) -> Seq<char> {
    match root {
        SearchfoxIndexRoot::CompressedAnalysis => ".gz"@,
        SearchfoxIndexRoot::ConfigRepo => Seq::<char>::empty(),
        SearchfoxIndexRoot::IndexTemplates => Seq::<char>::empty(),
        SearchfoxIndexRoot::IndexPages => Seq::<char>::empty(),
        SearchfoxIndexRoot::UncompressedDirectoryListing => Seq::<char>::empty(),
    }
}

/// The absolute on-disk path a tree-local path translates to: a pure
/// function of the backend's anchors, the root and the path.
pub open spec fn translated_path(
    lp: LocalPathsV,
    root: SearchfoxIndexRoot,
    sf_path: Seq<char>,
) -> Seq<char> {
    root_prefix(lp, root) + sf_path + root_suffix(root)
}

/// Whether a listing entry is returned for a `search_files` call.
pub open spec fn file_selected(e: FileEntryV, pattern: Seq<char>, include_dirs: bool) -> bool {
    &&& include_dirs || !e.is_dir
    &&& regex_matched(pattern, e.path)
}

/// The file matches of `search_files`, in listing order, capped at
/// `limit`.
pub open spec fn files_search(
    entries: Seq<FileEntryV>,
    pattern: Seq<char>,
    include_dirs: bool,
    limit: nat,
) -> Seq<FileMatchV>
    decreases entries.len(),
{
    if entries.len() == 0 || limit == 0 {
        Seq::<FileMatchV>::empty()
    } else if file_selected(entries[0], pattern, include_dirs) {
        seq![FileMatchV { path: entries[0].path, concise: entries[0].concise }] + files_search(
            entries.drop_first(),
            pattern,
            include_dirs,
            (limit - 1) as nat,
        )
    } else {
        files_search(entries.drop_first(), pattern, include_dirs, limit)
    }
}

/// The identifier matches of `search_identifiers`, in listing order,
/// capped at `limit`.
pub open spec fn idents_search(
    entries: Seq<(Seq<char>, Seq<char>)>,
    needle: Seq<char>,
    exact_match: bool,
    ignore_case: bool,
    limit: nat,
) -> Seq<(Seq<char>, Seq<char>)>
    decreases entries.len(),
{
    if entries.len() == 0 || limit == 0 {
        Seq::<(Seq<char>, Seq<char>)>::empty()
    } else if identifier_matches(needle, entries[0].0, exact_match, ignore_case) {
        seq![entries[0]] + idents_search(
            entries.drop_first(),
            needle,
            exact_match,
            ignore_case,
            (limit - 1) as nat,
        )
    } else {
        idents_search(entries.drop_first(), needle, exact_match, ignore_case, limit)
    }
}

/// Whether every record of an analysis file decodes as JSON.
pub open spec fn all_records_decode(records: Seq<Seq<char>>) -> bool {
    forall|i: int| 0 <= i < records.len() ==> json_decodes(#[trigger] records[i])
}

/// Whether `vs` is the record-by-record decoding of `records`: same
/// order, none skipped, none duplicated.
pub open spec fn decoded_records(records: Seq<Seq<char>>, vs: Seq<serde_json::Value>) -> bool {
    &&& vs.len() == records.len()
    &&& forall|i: int| 0 <= i < records.len() ==> #[trigger] vs[i] == json_value_of(records[i])
}

/// The effective text-search pattern: case folding turns the pattern
/// case-insensitive by prefixing the corresponding inline flag.
pub open spec fn effective_pattern(pattern: Seq<char>, fold_case: bool) -> Seq<char> {
    if fold_case {
        "(?i)"@ + pattern
    } else {
        pattern
    }
}

/// The hits of one corpus file, in file order: each matching line yields
/// one hit carrying the leftmost match span, 1-based line numbers, capped
/// at `limit`.
pub open spec fn text_file_matches(
    lines: Seq<Seq<char>>,
    pattern: Seq<char>,
    line0: int,
    limit: nat,
) -> Seq<TextMatchInFileV>
    decreases lines.len(),
{
    if lines.len() == 0 || limit == 0 {
        Seq::<TextMatchInFileV>::empty()
    } else if regex_matched(pattern, lines[0]) {
        seq![
            TextMatchInFileV {
                line_num: line0,
                bounds: TextBoundsV {
                    start: regex_leftmost(pattern, lines[0]).0,
                    end_exclusive: regex_leftmost(pattern, lines[0]).1,
                },
                line_str: lines[0],
            },
        ] + text_file_matches(lines.drop_first(), pattern, line0 + 1, (limit - 1) as nat)
    } else {
        text_file_matches(lines.drop_first(), pattern, line0 + 1, limit)
    }
}

/// The `search_text` result: files in corpus order, only those passing
/// the path filter and holding at least one hit, with at most `limit`
/// hits over all files together.
pub open spec fn text_search(
    files: Seq<TextFileV>,
    pattern: Seq<char>,
    path_filter: Seq<char>,
    limit: nat,
) -> Seq<TextMatchesByFileV>
    decreases files.len(),
{
    if files.len() == 0 || limit == 0 {
        Seq::<TextMatchesByFileV>::empty()
    } else if regex_matched(path_filter, files[0].file) && text_file_matches(
        files[0].lines,
        pattern,
        1,
        limit,
    ).len() > 0 {
        let ms = text_file_matches(files[0].lines, pattern, 1, limit);
        seq![TextMatchesByFileV { file: files[0].file, path_kind: files[0].path_kind, matches: ms }]
            + text_search(files.drop_first(), pattern, path_filter, (limit - ms.len()) as nat)
    } else {
        text_search(files.drop_first(), pattern, path_filter, limit)
    }
}

/// Total number of hits across all files of a `search_text` result.
pub open spec fn total_text_matches(r: Seq<TextMatchesByFileV>) -> int
    decreases r.len(),
{
    if r.len() == 0 {
        0
    } else {
        r[0].matches.len() + total_text_matches(r.drop_first())
    }
}

/// Machine bounds a served corpus file observes: line numbers fit `u32`
/// and column spans within a line fit `i32`.
pub open spec fn corpus_entry_wf(f: TextFileV) -> bool {
    &&& f.lines.len() < 0xffff_ffff
    &&& forall|k: int| 0 <= k < f.lines.len() ==> (#[trigger] f.lines[k]).len() <= 0x7fff_ffff
}

/// Machine bounds a served snapshot observes.
pub open spec fn snapshot_wf(snap: IndexSnapshot) -> bool {
    forall|j: int| 0 <= j < snap.text_corpus.len() ==> corpus_entry_wf(#[trigger] snap.text_corpus[j])
}

/// The operation set every backend exposes.
///
/// Every fallible operation returns the shared classified error, never an
/// uncontrolled abort, and a search miss is never an error: it is an
/// empty or absent value inside a normal success payload, reserving
/// errors for cases where no hit-or-miss answer can be produced at all.
pub trait AbstractServer: Sized {
    /// The image of the immutable index data this backend serves.
    spec fn snapshot(&self) -> IndexSnapshot;

    /// Duplicate this backend so a concurrently scheduled unit of work
    /// can hold its own handle.  The duplicate is independently usable
    /// and serves the same snapshot; whether it shares immutable data or
    /// was freshly initialized is a backend-private choice callers never
    /// learn.
    fn clonify(&self) -> (r: Self)
        ensures
            r.snapshot() == self.snapshot(),
    ;

    /// Info about this tree, for templating purposes; static
    /// configuration only, no index access.
    fn tree_info(&self) -> (r: Result<TreeInfo, ServerError>)
        ensures
            r matches Ok(t) && t.name@ == self.snapshot().tree_name,
    ;

    /// Translate a tree-local path into an absolute on-disk path under
    /// the requested root, applying post-compression path conventions
    /// uniformly.  Defined for local-capable variants; pure-remote ones
    /// answer `Unsupported`.
    fn translate_path(&self, root: SearchfoxIndexRoot, sf_path: &str) -> (r: Result<
        String,
        ServerError,
    >)
        ensures
            match self.snapshot().local {
                Some(lp) => r matches Ok(p) && p@ == translated_path(lp, root, sf_path@),
                None => r matches Err(e) && e is Unsupported,
            },
    ;

    /// The records of the analysis file for a tree-local path, in file
    /// order, none skipped and none duplicated, decompressed
    /// transparently.  A missing analysis file, like a record that does
    /// not decode, is a sticky data-layer error.
    fn fetch_raw_analysis(&self, sf_path: &str) -> (r: Result<Vec<serde_json::Value>, ServerError>)
        ensures
            match pair_lookup(self.snapshot().analysis, sf_path@) {
                Some(records) => {
                    if all_records_decode(records) {
                        r matches Ok(vs) && decoded_records(records, vs@)
                    } else {
                        r matches Err(e) && sticky_at(e, ErrorLayer::DataLayer)
                    }
                },
                None => r matches Err(e) && sticky_at(e, ErrorLayer::DataLayer),
            },
    ;

    /// The raw (not HTML-rendered) source text of a tree-local path, as
    /// it stands at the indexed revision.
    fn fetch_raw_source(&self, sf_path: &str) -> (r: Result<String, ServerError>)
        ensures
            match pair_lookup(self.snapshot().sources, sf_path@) {
                Some(contents) => r matches Ok(s) && s@ == contents,
                None => r matches Err(e) && sticky_at(e, ErrorLayer::DataLayer),
            },
    ;

    /// The rendered-HTML lines of a tree-local path (0-th item for line
    /// 1) and its symbol-information JSON text.
    fn fetch_formatted_lines(&self, sf_path: &str) -> (r: Result<(Vec<String>, String), ServerError>)
        ensures
            match pair_lookup(self.snapshot().formatted, sf_path@) {
                Some(f) => {
                    &&& r matches Ok(p)
                    &&& p.0.deep_view() == f.lines
                    &&& p.1@ == f.sym_json
                },
                None => r matches Err(e) && sticky_at(e, ErrorLayer::DataLayer),
            },
    ;

    /// The rendered HTML document of a tree-local path, decompressed
    /// transparently; the root selects file, directory-index or template
    /// semantics.
    fn fetch_html(&self, root: HtmlFileRoot, sf_path: &str) -> (r: Result<String, ServerError>)
        ensures
            match pair_lookup(
                match root {
                    HtmlFileRoot::FormattedFile => self.snapshot().html_files,
                    HtmlFileRoot::FormattedDir => self.snapshot().html_dirs,
                    HtmlFileRoot::FormattedTemplate => self.snapshot().html_templates,
                },
                sf_path@,
            ) {
                Some(contents) => r matches Ok(s) && s@ == contents,
                None => r matches Err(e) && sticky_at(e, ErrorLayer::DataLayer),
            },
    ;

    /// The crossref data for a symbol.  A symbol with no indexed data is
    /// a normal miss: a success payload holding the JSON `null` value,
    /// whatever the flag.  `extra_processing` selects the dataset carrying
    /// the additional, more expensive derived data; it must only be
    /// passed by callers that specifically need it.
    fn crossref_lookup(&self, symbol: &str, extra_processing: bool) -> (r: Result<
        serde_json::Value,
        ServerError,
    >)
        ensures
            match pair_lookup(
                if extra_processing {
                    self.snapshot().crossref_extra
                } else {
                    self.snapshot().crossref
                },
                symbol@,
            ) {
                Some(blob) => {
                    if json_decodes(blob) {
                        r matches Ok(v) && v == json_value_of(blob)
                    } else {
                        r matches Err(e) && sticky_at(e, ErrorLayer::DataLayer)
                    }
                },
                None => r matches Ok(v) && v == json_value_of("null"@),
            },
    ;

    /// The jump-to-definition data for a symbol; a symbol with no indexed
    /// data is a normal miss answered with the JSON `null` value.
    fn jumpref_lookup(&self, symbol: &str) -> (r: Result<serde_json::Value, ServerError>)
        ensures
            match pair_lookup(self.snapshot().jumpref, symbol@) {
                Some(blob) => {
                    if json_decodes(blob) {
                        r matches Ok(v) && v == json_value_of(blob)
                    } else {
                        r matches Err(e) && sticky_at(e, ErrorLayer::DataLayer)
                    }
                },
                None => r matches Ok(v) && v == json_value_of("null"@),
            },
    ;

    /// Search the union of the repository-tracked and build/output
    /// file listings with a (possibly empty) pattern; the empty pattern
    /// matches everything subject to `limit`.  A pattern that does not
    /// compile is the caller's fault: sticky, bad input.
    fn search_files(&self, pathre: &str, include_dirs: bool, limit: usize) -> (r: Result<
        FileMatches,
        ServerError,
    >)
        ensures
            if regex_ok(pathre@) {
                r matches Ok(fm) && fm@ == files_search(
                    self.snapshot().repo_files + self.snapshot().objdir_files,
                    pathre@,
                    include_dirs,
                    limit as nat,
                )
            } else {
                r matches Err(e) && sticky_at(e, ErrorLayer::BadInput)
            },
    ;

    /// The `(identifier, symbol)` pairs whose identifier matches the
    /// needle, in listing order, capped at `match_limit`.  A needle that
    /// matches nothing is a normal miss: an empty payload.
    fn search_identifiers(
        &self,
        needle: &str,
        exact_match: bool,
        ignore_case: bool,
        match_limit: usize,
    ) -> (r: Result<Vec<(String, String)>, ServerError>)
        ensures
            r matches Ok(v) && v.deep_view() == idents_search(
                self.snapshot().identifiers,
                needle@,
                exact_match,
                ignore_case,
                match_limit as nat,
            ),
    ;

    /// Run a text search against the corpus the (externally managed)
    /// text-search engine serves: hits clustered by file, at most `limit`
    /// hits over all files, files filtered by the path pattern.  Either
    /// pattern failing to compile is the caller's fault: sticky, bad
    /// input.
    fn search_text(&self, pattern: &str, fold_case: bool, path: &str, limit: usize) -> (r: Result<
        TextMatches,
        ServerError,
    >)
        requires
            snapshot_wf(self.snapshot()),
        ensures
            if regex_ok(effective_pattern(pattern@, fold_case)) && regex_ok(path@) {
                r matches Ok(tm) && tm@ == text_search(
                    self.snapshot().text_corpus,
                    effective_pattern(pattern@, fold_case),
                    path@,
                    limit as nat,
                )
            } else {
                r matches Err(e) && sticky_at(e, ErrorLayer::BadInput)
            },
    ;

    /// Escape hatch for the higher-level query language; the payload
    /// shape is opaque to this contract.  A query string the backend does
    /// not recognize cannot be answered hit-or-miss: sticky, bad input.
    fn perform_query(&self, q: &str) -> (r: Result<serde_json::Value, ServerError>)
        ensures
            match pair_lookup(self.snapshot().queries, q@) {
                Some(blob) => {
                    if json_decodes(blob) {
                        r matches Ok(v) && v == json_value_of(blob)
                    } else {
                        r matches Err(e) && sticky_at(e, ErrorLayer::DataLayer)
                    }
                },
                None => r matches Err(e) && sticky_at(e, ErrorLayer::BadInput),
            },
    ;
}

} // verus!
