//! The in-memory test-fixture backend.
//!
//! A conforming [`AbstractServer`] variant that serves index data held
//! directly in plain values.  It exists so that callers, and the test
//! suite in particular, can exercise the contract against a backend whose
//! snapshot is transparent; the local disk-backed and remote
//! network-backed variants live with their storage and transport, outside
//! this crate, and conform to the same contract.

use vstd::prelude::*;
use vstd::string::*;
use crate::contract::{
    AbstractServer, FileEntryV, FormattedV, HtmlFileRoot, IndexSnapshot, LocalPathsV,
    SearchfoxIndexRoot, TextFileV, corpus_entry_wf, effective_pattern, files_search, idents_search,
    pair_lookup, text_file_matches, text_search,
};
use crate::errors::{ErrorDetails, ErrorLayer, ServerError, decode_json, sticky_at};
use crate::ident::identifier_match;
use crate::json::{json_decodes, json_null, json_value_of};
use crate::laws::{
    lemma_files_search_concat, lemma_files_search_len, lemma_pair_lookup_at,
    lemma_pair_lookup_none, lemma_text_file_matches_len,
};
use crate::regexp::{regex_compile_check, regex_find_span, regex_is_match, regex_ok};
use crate::results::{
    FileMatch, FileMatches, TextBounds, TextMatchInFile, TextMatches, TextMatchesByFile, TreeInfo,
};

verus! {

/// On-disk anchor paths of a local-capable fixture.
pub struct LocalIndexPaths {
    pub index_path: String,
    pub config_repo_path: String,
}

impl View for LocalIndexPaths {
    type V = LocalPathsV;

    open spec fn view(&self) -> LocalPathsV {
        LocalPathsV { index_path: self.index_path@, config_repo_path: self.config_repo_path@ }
    }
}

/// One file-listing entry served by the fixture.
pub struct FileEntry {
    pub path: String,
    pub is_dir: bool,
    pub concise: Vec<(String, String)>,
}

impl View for FileEntry {
    type V = FileEntryV;

    open spec fn view(&self) -> FileEntryV {
        FileEntryV { path: self.path@, is_dir: self.is_dir, concise: self.concise.deep_view() }
    }
}

/// Rendered lines and symbol-info JSON of one formatted file.
pub struct FormattedFileData {
    pub lines: Vec<String>,
    pub sym_json: String,
}

impl View for FormattedFileData {
    type V = FormattedV;

    open spec fn view(&self) -> FormattedV {
        FormattedV { lines: self.lines.deep_view(), sym_json: self.sym_json@ }
    }
}

impl DeepView for FormattedFileData {
    type V = FormattedV;

    open spec fn deep_view(&self) -> FormattedV {
        self.view()
    }
}

/// One file of the text-search corpus served by the fixture.
pub struct TextCorpusEntry {
    pub file: String,
    pub path_kind: String,
    pub lines: Vec<String>,
}

impl View for TextCorpusEntry {
    type V = TextFileV;

    open spec fn view(&self) -> TextFileV {
        TextFileV { file: self.file@, path_kind: self.path_kind@, lines: self.lines.deep_view() }
    }
}

/// Image of a file listing.
pub open spec fn file_entries_view(s: Seq<FileEntry>) -> Seq<FileEntryV> {
    s.map_values(|e: FileEntry| e@)
}

/// Image of a text-search corpus.
pub open spec fn corpus_view(s: Seq<TextCorpusEntry>) -> Seq<TextFileV> {
    s.map_values(|e: TextCorpusEntry| e@)
}

/// An in-memory backend: every sub-store of the index as plain values.
pub struct TestFixtureBackend {
    pub tree_name: String,
    /// `Some` makes the fixture local-capable for `translate_path`.
    pub local_paths: Option<LocalIndexPaths>,
    pub repo_files: Vec<FileEntry>,
    pub objdir_files: Vec<FileEntry>,
    pub identifiers: Vec<(String, String)>,
    pub crossref: Vec<(String, String)>,
    /// Crossref data with the extra derived payloads, served when a
    /// caller passes `extra_processing`.
    pub crossref_extra: Vec<(String, String)>,
    pub jumpref: Vec<(String, String)>,
    pub sources: Vec<(String, String)>,
    pub formatted: Vec<(String, FormattedFileData)>,
    pub html_files: Vec<(String, String)>,
    pub html_dirs: Vec<(String, String)>,
    pub html_templates: Vec<(String, String)>,
    pub text_corpus: Vec<TextCorpusEntry>,
    pub queries: Vec<(String, String)>,
    pub analysis: Vec<(String, Vec<String>)>,
}

/// Character-wise string equality.
fn str_eq(a: &str, b: &str) -> (r: bool)
    ensures
        r == (a@ == b@),
{
    let alen: usize = a.unicode_len();
    let blen: usize = b.unicode_len();
    if alen != blen {
        return false;
    }
    let mut i: usize = 0;
    while i < alen
        invariant
            i <= alen,
            alen == a@.len(),
            blen == b@.len(),
            alen == blen,
            forall|k: int| 0 <= k < i ==> a@[k] == b@[k],
        decreases alen - i,
    {
        if a.get_char(i) != b.get_char(i) {
            assert(a@[i as int] != b@[i as int]);
            return false;
        }
        i = i + 1;
    }
    proof {
        assert(a@ =~= b@);
    }
    true
}

/// Index of the first entry keyed `key`, if any, with everything before
/// it keyed otherwise.
fn find_key<T>(entries: &Vec<(String, T)>, key: &str) -> (r: Option<usize>)
    ensures
        match r {
            Some(i) => {
                &&& i < entries@.len()
                &&& entries@[i as int].0@ == key@
                &&& forall|k: int| 0 <= k < i ==> (#[trigger] entries@[k]).0@ != key@
            },
            None => forall|k: int| 0 <= k < entries@.len() ==> (#[trigger] entries@[k]).0@ != key@,
        },
{
    let mut i: usize = 0;
    while i < entries.len()
        invariant
            i <= entries@.len(),
            forall|k: int| 0 <= k < i ==> (#[trigger] entries@[k]).0@ != key@,
        decreases entries@.len() - i,
    {
        if str_eq(entries[i].0.as_str(), key) {
            return Some(i);
        }
        i = i + 1;
    }
    None
}

/// Lifts a found index to a `pair_lookup` hit on the deep view.
proof fn lemma_find_hit<T: DeepView>(entries: Vec<(String, T)>, key: Seq<char>, i: int)
    requires
        0 <= i < entries@.len(),
        entries@[i].0@ == key,
        forall|k: int| 0 <= k < i ==> (#[trigger] entries@[k]).0@ != key,
    ensures
        pair_lookup(entries.deep_view(), key) == Some(entries@[i].1.deep_view()),
{
    assert forall|k: int| 0 <= k < i implies (#[trigger] entries.deep_view()[k]).0 != key by {
        assert(entries.deep_view()[k] == entries@[k].deep_view());
    }
    assert(entries.deep_view()[i] == entries@[i].deep_view());
    lemma_pair_lookup_at(entries.deep_view(), key, i);
}

/// Lifts an absent key to a `pair_lookup` miss on the deep view.
proof fn lemma_find_miss<T: DeepView>(entries: Vec<(String, T)>, key: Seq<char>)
    requires
        forall|k: int| 0 <= k < entries@.len() ==> (#[trigger] entries@[k]).0@ != key,
    ensures
        pair_lookup(entries.deep_view(), key) is None,
{
    assert forall|k: int| 0 <= k < entries.deep_view().len() implies (#[trigger] entries.deep_view()[k]).0
        != key by {
        assert(entries.deep_view()[k] == entries@[k].deep_view());
    }
    lemma_pair_lookup_none(entries.deep_view(), key);
}

/// The sticky data-layer error a lookup of unindexed data answers with.
fn missing_data_error() -> (r: ServerError)
    ensures
        sticky_at(r, ErrorLayer::DataLayer),
{
    ServerError::StickyProblem(
        ErrorDetails {
            layer: ErrorLayer::DataLayer,
            message: "requested data is not present in this index".to_owned(),
        },
    )
}

fn clone_string_vec(v: &Vec<String>) -> (r: Vec<String>)
    ensures
        r@ == v@,
{
    let mut r: Vec<String> = Vec::new();
    let mut i: usize = 0;
    while i < v.len()
        invariant
            i <= v@.len(),
            r@.len() == i,
            forall|k: int| 0 <= k < i ==> r@[k] == v@[k],
        decreases v@.len() - i,
    {
        r.push(v[i].clone());
        i = i + 1;
    }
    proof {
        assert(r@ =~= v@);
    }
    r
}

fn clone_pairs(v: &Vec<(String, String)>) -> (r: Vec<(String, String)>)
    ensures
        r@ == v@,
{
    let mut r: Vec<(String, String)> = Vec::new();
    let mut i: usize = 0;
    while i < v.len()
        invariant
            i <= v@.len(),
            r@.len() == i,
            forall|k: int| 0 <= k < i ==> r@[k] == v@[k],
        decreases v@.len() - i,
    {
        r.push((v[i].0.clone(), v[i].1.clone()));
        i = i + 1;
    }
    proof {
        assert(r@ =~= v@);
    }
    r
}

fn clone_file_entries(v: &Vec<FileEntry>) -> (r: Vec<FileEntry>)
    ensures
        file_entries_view(r@) == file_entries_view(v@),
{
    let mut r: Vec<FileEntry> = Vec::new();
    let mut i: usize = 0;
    while i < v.len()
        invariant
            i <= v@.len(),
            r@.len() == i,
            forall|k: int| 0 <= k < i ==> (#[trigger] r@[k])@ == v@[k]@,
        decreases v@.len() - i,
    {
        let e = FileEntry {
            path: v[i].path.clone(),
            is_dir: v[i].is_dir,
            concise: clone_pairs(&v[i].concise),
        };
        r.push(e);
        i = i + 1;
    }
    proof {
        assert(file_entries_view(r@) =~= file_entries_view(v@));
    }
    r
}

fn clone_formatted(v: &Vec<(String, FormattedFileData)>) -> (r: Vec<(String, FormattedFileData)>)
    ensures
        r.deep_view() == v.deep_view(),
{
    let mut r: Vec<(String, FormattedFileData)> = Vec::new();
    let mut i: usize = 0;
    while i < v.len()
        invariant
            i <= v@.len(),
            r@.len() == i,
            forall|k: int| 0 <= k < i ==> (#[trigger] r@[k]).0@ == v@[k].0@ && r@[k].1.deep_view()
                == v@[k].1.deep_view(),
        decreases v@.len() - i,
    {
        let d = FormattedFileData {
            lines: clone_string_vec(&v[i].1.lines),
            sym_json: v[i].1.sym_json.clone(),
        };
        r.push((v[i].0.clone(), d));
        i = i + 1;
    }
    proof {
        assert(r.deep_view() =~= v.deep_view());
    }
    r
}

fn clone_corpus(v: &Vec<TextCorpusEntry>) -> (r: Vec<TextCorpusEntry>)
    ensures
        corpus_view(r@) == corpus_view(v@),
{
    let mut r: Vec<TextCorpusEntry> = Vec::new();
    let mut i: usize = 0;
    while i < v.len()
        invariant
            i <= v@.len(),
            r@.len() == i,
            forall|k: int| 0 <= k < i ==> (#[trigger] r@[k])@ == v@[k]@,
        decreases v@.len() - i,
    {
        let e = TextCorpusEntry {
            file: v[i].file.clone(),
            path_kind: v[i].path_kind.clone(),
            lines: clone_string_vec(&v[i].lines),
        };
        r.push(e);
        i = i + 1;
    }
    proof {
        assert(corpus_view(r@) =~= corpus_view(v@));
    }
    r
}

fn clone_analysis(v: &Vec<(String, Vec<String>)>) -> (r: Vec<(String, Vec<String>)>)
    ensures
        r.deep_view() == v.deep_view(),
{
    let mut r: Vec<(String, Vec<String>)> = Vec::new();
    let mut i: usize = 0;
    while i < v.len()
        invariant
            i <= v@.len(),
            r@.len() == i,
            forall|k: int| 0 <= k < i ==> (#[trigger] r@[k]).0@ == v@[k].0@ && r@[k].1.deep_view()
                == v@[k].1.deep_view(),
        decreases v@.len() - i,
    {
        r.push((v[i].0.clone(), clone_string_vec(&v[i].1)));
        i = i + 1;
    }
    proof {
        assert(r.deep_view() =~= v.deep_view());
    }
    r
}

fn clone_local(v: &Option<LocalIndexPaths>) -> (r: Option<LocalIndexPaths>)
    ensures
        r is Some <==> v is Some,
        r matches Some(lp) ==> v matches Some(o) && lp@ == o@,
{
    match v {
        Some(lp) => Some(
            LocalIndexPaths {
                index_path: lp.index_path.clone(),
                config_repo_path: lp.config_repo_path.clone(),
            },
        ),
        None => None,
    }
}

/// Appends `rest` to `prefix`.
fn join2(prefix: &str, rest: &str) -> (r: String)
    ensures
        r@ == prefix@ + rest@,
{
    let mut out = prefix.to_owned();
    out.append(rest);
    out
}

/// Appends `mid` and `sf_path` to `prefix`.
fn join3(prefix: &String, mid: &str, sf_path: &str) -> (r: String)
    ensures
        r@ == prefix@ + mid@ + sf_path@,
{
    let mut out = prefix.clone();
    out.append(mid);
    out.append(sf_path);
    proof {
        assert(out@ =~= prefix@ + mid@ + sf_path@);
    }
    out
}

/// Appends `mid`, `sf_path` and `suffix` to `prefix`.
fn join4(prefix: &String, mid: &str, sf_path: &str, suffix: &str) -> (r: String)
    ensures
        r@ == prefix@ + mid@ + sf_path@ + suffix@,
{
    let mut out = prefix.clone();
    out.append(mid);
    out.append(sf_path);
    out.append(suffix);
    proof {
        assert(out@ =~= prefix@ + mid@ + sf_path@ + suffix@);
    }
    out
}

/// Decodes every analysis record of a file, surfacing the first
/// malformed one as the classified data-layer error.
fn decode_records(records: &Vec<String>) -> (r: Result<Vec<serde_json::Value>, ServerError>)
    ensures
        ({
            let rs = records.deep_view();
            if crate::contract::all_records_decode(rs) {
                r matches Ok(vs) && crate::contract::decoded_records(rs, vs@)
            } else {
                r matches Err(e) && sticky_at(e, ErrorLayer::DataLayer)
            }
        }),
{
    let mut vs: Vec<serde_json::Value> = Vec::new();
    let mut i: usize = 0;
    while i < records.len()
        invariant
            i <= records@.len(),
            vs@.len() == i,
            forall|k: int| 0 <= k < i ==> json_decodes(#[trigger] records.deep_view()[k]),
            forall|k: int| 0 <= k < i ==> #[trigger] vs@[k] == json_value_of(
                records.deep_view()[k],
            ),
        decreases records@.len() - i,
    {
        match decode_json(records[i].as_str()) {
            Ok(v) => {
                vs.push(v);
            },
            Err(e) => {
                assert(!json_decodes(records.deep_view()[i as int]));
                assert(!crate::contract::all_records_decode(records.deep_view()));
                return Err(e);
            },
        }
        i = i + 1;
    }
    assert(crate::contract::decoded_records(records.deep_view(), vs@));
    Ok(vs)
}

/// Looks up a path's analysis records and decodes them.
fn analysis_of(entries: &Vec<(String, Vec<String>)>, sf_path: &str) -> (r: Result<
    Vec<serde_json::Value>,
    ServerError,
>)
    ensures
        match pair_lookup(entries.deep_view(), sf_path@) {
            Some(records) => {
                if crate::contract::all_records_decode(records) {
                    r matches Ok(vs) && crate::contract::decoded_records(records, vs@)
                } else {
                    r matches Err(e) && sticky_at(e, ErrorLayer::DataLayer)
                }
            },
            None => r matches Err(e) && sticky_at(e, ErrorLayer::DataLayer),
        },
{
    match find_key(entries, sf_path) {
        Some(i) => {
            proof {
                lemma_find_hit(*entries, sf_path@, i as int);
            }
            decode_records(&entries[i].1)
        },
        None => {
            proof {
                lemma_find_miss(*entries, sf_path@);
            }
            Err(missing_data_error())
        },
    }
}

/// Recursion step of `search_files` over one listing.
fn files_search_rec(
    entries: &Vec<FileEntry>,
    pattern: &str,
    include_dirs: bool,
    i: usize,
    limit: usize,
) -> (r: Vec<FileMatch>)
    requires
        regex_ok(pattern@),
        i <= entries@.len(),
    ensures
        r@.map_values(|m: FileMatch| m@) == files_search(
            file_entries_view(entries@).skip(i as int),
            pattern@,
            include_dirs,
            limit as nat,
        ),
    decreases entries@.len() - i,
{
    let ghost all = file_entries_view(entries@);
    if i == entries.len() || limit == 0 {
        let r: Vec<FileMatch> = Vec::new();
        proof {
            assert(r@.map_values(|m: FileMatch| m@) =~= files_search(
                all.skip(i as int),
                pattern@,
                include_dirs,
                limit as nat,
            ));
        }
        return r;
    }
    proof {
        assert(all.skip(i as int)[0] == all[i as int]);
        assert(all.skip(i as int).drop_first() =~= all.skip(i as int + 1));
    }
    let selected = (include_dirs || !entries[i].is_dir) && regex_is_match(
        pattern,
        entries[i].path.as_str(),
    );
    if selected {
        let rest = files_search_rec(entries, pattern, include_dirs, i + 1, limit - 1);
        let fm = FileMatch {
            path: entries[i].path.clone(),
            concise: clone_pairs(&entries[i].concise),
        };
        proof {
            assert(all[i as int] == entries@[i as int]@);
            assert(crate::contract::file_selected(all[i as int], pattern@, include_dirs));
            assert(fm@ == (crate::results::FileMatchV {
                path: all[i as int].path,
                concise: all[i as int].concise,
            }));
        }
        let mut out: Vec<FileMatch> = Vec::new();
        out.push(fm);
        let mut rest2 = rest;
        out.append(&mut rest2);
        proof {
            assert(out@.map_values(|m: FileMatch| m@) =~= files_search(
                all.skip(i as int),
                pattern@,
                include_dirs,
                limit as nat,
            ));
        }
        out
    } else {
        files_search_rec(entries, pattern, include_dirs, i + 1, limit)
    }
}

/// Recursion step of `search_identifiers` over the identifier listing.
fn idents_search_rec(
    entries: &Vec<(String, String)>,
    needle: &str,
    exact_match: bool,
    ignore_case: bool,
    i: usize,
    limit: usize,
) -> (r: Vec<(String, String)>)
    requires
        i <= entries@.len(),
    ensures
        r.deep_view() == idents_search(
            entries.deep_view().skip(i as int),
            needle@,
            exact_match,
            ignore_case,
            limit as nat,
        ),
    decreases entries@.len() - i,
{
    let ghost all = entries.deep_view();
    if i == entries.len() || limit == 0 {
        let r: Vec<(String, String)> = Vec::new();
        proof {
            assert(r.deep_view() =~= idents_search(
                all.skip(i as int),
                needle@,
                exact_match,
                ignore_case,
                limit as nat,
            ));
        }
        return r;
    }
    proof {
        assert(all[i as int] == entries@[i as int].deep_view());
        assert(all.skip(i as int)[0] == all[i as int]);
        assert(all.skip(i as int).drop_first() =~= all.skip(i as int + 1));
    }
    let matched = identifier_match(needle, entries[i].0.as_str(), exact_match, ignore_case);
    if matched {
        let rest = idents_search_rec(entries, needle, exact_match, ignore_case, i + 1, limit - 1);
        let mut out: Vec<(String, String)> = Vec::new();
        out.push((entries[i].0.clone(), entries[i].1.clone()));
        let mut rest2 = rest;
        out.append(&mut rest2);
        proof {
            assert(out.deep_view() =~= idents_search(
                all.skip(i as int),
                needle@,
                exact_match,
                ignore_case,
                limit as nat,
            ));
        }
        out
    } else {
        idents_search_rec(entries, needle, exact_match, ignore_case, i + 1, limit)
    }
}

/// Recursion step of `search_text` over the lines of one corpus file.
fn text_lines_rec(lines: &Vec<String>, pattern: &str, i: usize, limit: usize) -> (r: Vec<
    TextMatchInFile,
>)
    requires
        regex_ok(pattern@),
        i <= lines@.len(),
        lines@.len() < 0xffff_ffff,
        forall|k: int| 0 <= k < lines@.len() ==> (#[trigger] lines.deep_view()[k]).len()
            <= 0x7fff_ffff,
    ensures
        r@.map_values(|m: TextMatchInFile| m@) == text_file_matches(
            lines.deep_view().skip(i as int),
            pattern@,
            i as int + 1,
            limit as nat,
        ),
    decreases lines@.len() - i,
{
    let ghost all = lines.deep_view();
    if i == lines.len() || limit == 0 {
        let r: Vec<TextMatchInFile> = Vec::new();
        proof {
            assert(r@.map_values(|m: TextMatchInFile| m@) =~= text_file_matches(
                all.skip(i as int),
                pattern@,
                i as int + 1,
                limit as nat,
            ));
        }
        return r;
    }
    proof {
        assert(all[i as int] == lines@[i as int]@);
        assert(all.skip(i as int)[0] == all[i as int]);
        assert(all.skip(i as int).drop_first() =~= all.skip(i as int + 1));
    }
    match regex_find_span(pattern, lines[i].as_str()) {
        Some(sp) => {
            let rest = text_lines_rec(lines, pattern, i + 1, limit - 1);
            proof {
                assert(all[i as int].len() <= 0x7fff_ffff);
            }
            let m = TextMatchInFile {
                line_num: (i + 1) as u32,
                bounds: TextBounds { start: sp.0 as i32, end_exclusive: sp.1 as i32 },
                line_str: lines[i].clone(),
            };
            proof {
                assert(m@ == (crate::results::TextMatchInFileV {
                    line_num: i as int + 1,
                    bounds: crate::results::TextBoundsV {
                        start: crate::regexp::regex_leftmost(pattern@, all[i as int]).0,
                        end_exclusive: crate::regexp::regex_leftmost(pattern@, all[i as int]).1,
                    },
                    line_str: all[i as int],
                }));
            }
            let mut out: Vec<TextMatchInFile> = Vec::new();
            out.push(m);
            let mut rest2 = rest;
            out.append(&mut rest2);
            proof {
                assert(out@.map_values(|m: TextMatchInFile| m@) =~= text_file_matches(
                    all.skip(i as int),
                    pattern@,
                    i as int + 1,
                    limit as nat,
                ));
            }
            out
        },
        None => text_lines_rec(lines, pattern, i + 1, limit),
    }
}

/// Recursion step of `search_text` over the corpus files.
fn text_search_rec(
    corpus: &Vec<TextCorpusEntry>,
    pattern: &str,
    path_filter: &str,
    i: usize,
    limit: usize,
) -> (r: Vec<TextMatchesByFile>)
    requires
        regex_ok(pattern@),
        regex_ok(path_filter@),
        i <= corpus@.len(),
        forall|j: int| 0 <= j < corpus@.len() ==> corpus_entry_wf((#[trigger] corpus@[j])@),
    ensures
        r@.map_values(|f: TextMatchesByFile| f@) == text_search(
            corpus_view(corpus@).skip(i as int),
            pattern@,
            path_filter@,
            limit as nat,
        ),
    decreases corpus@.len() - i,
{
    let ghost all = corpus_view(corpus@);
    if i == corpus.len() || limit == 0 {
        let r: Vec<TextMatchesByFile> = Vec::new();
        proof {
            assert(r@.map_values(|f: TextMatchesByFile| f@) =~= text_search(
                all.skip(i as int),
                pattern@,
                path_filter@,
                limit as nat,
            ));
        }
        return r;
    }
    proof {
        assert(all[i as int] == corpus@[i as int]@);
        assert(all.skip(i as int)[0] == all[i as int]);
        assert(all.skip(i as int).drop_first() =~= all.skip(i as int + 1));
        assert(corpus_entry_wf(all[i as int]));
    }
    let path_hit = regex_is_match(path_filter, corpus[i].file.as_str());
    if path_hit {
        let ms = text_lines_rec(&corpus[i].lines, pattern, 0, limit);
        proof {
            assert(corpus@[i as int].lines.deep_view().skip(0) =~= all[i as int].lines);
            lemma_text_file_matches_len(all[i as int].lines, pattern@, 1, limit as nat);
            assert(ms@.len() == text_file_matches(
                all[i as int].lines,
                pattern@,
                1,
                limit as nat,
            ).len());
        }
        if ms.len() > 0 {
            let used: usize = ms.len();
            let ghost msv = ms@.map_values(|m: TextMatchInFile| m@);
            let rest = text_search_rec(corpus, pattern, path_filter, i + 1, limit - used);
            let by = TextMatchesByFile {
                file: corpus[i].file.clone(),
                path_kind: corpus[i].path_kind.clone(),
                matches: ms,
            };
            proof {
                assert(by@ == (crate::results::TextMatchesByFileV {
                    file: all[i as int].file,
                    path_kind: all[i as int].path_kind,
                    matches: msv,
                }));
            }
            let mut out: Vec<TextMatchesByFile> = Vec::new();
            out.push(by);
            let mut rest2 = rest;
            out.append(&mut rest2);
            proof {
                assert(out@.map_values(|f: TextMatchesByFile| f@) =~= text_search(
                    all.skip(i as int),
                    pattern@,
                    path_filter@,
                    limit as nat,
                ));
            }
            out
        } else {
            text_search_rec(corpus, pattern, path_filter, i + 1, limit)
        }
    } else {
        text_search_rec(corpus, pattern, path_filter, i + 1, limit)
    }
}

/// Whether one corpus file observes the machine bounds `search_text`
/// needs: line numbers fitting `u32`, column spans within a line fitting
/// `i32`.
fn corpus_entry_within_limits(e: &TextCorpusEntry) -> (r: bool)
    ensures
        r == corpus_entry_wf(e@),
{
    if e.lines.len() >= 0xffff_ffff {
        return false;
    }
    let mut k: usize = 0;
    while k < e.lines.len()
        invariant
            k <= e.lines@.len(),
            e.lines@.len() < 0xffff_ffff,
            forall|j: int| 0 <= j < k ==> (#[trigger] e.lines.deep_view()[j]).len()
                <= 0x7fff_ffff,
        decreases e.lines@.len() - k,
    {
        let char_len: usize = e.lines[k].as_str().unicode_len();
        proof {
            assert(e.lines@[k as int]@ == e.lines.deep_view()[k as int]);
        }
        if char_len > 0x7fff_ffff {
            return false;
        }
        k = k + 1;
    }
    true
}

impl TestFixtureBackend {
    /// Whether the text corpus this fixture serves observes the machine
    /// bounds `search_text` requires of its backend.  Unverified callers
    /// test this before issuing a text search.
    pub fn corpus_within_limits(&self) -> (r: bool)
        ensures
            r == crate::contract::snapshot_wf(self.snapshot()),
    {
        let mut i: usize = 0;
        while i < self.text_corpus.len()
            invariant
                i <= self.text_corpus@.len(),
                forall|j: int| 0 <= j < i ==> corpus_entry_wf((#[trigger] self.text_corpus@[j])@),
            decreases self.text_corpus@.len() - i,
        {
            if !corpus_entry_within_limits(&self.text_corpus[i]) {
                assert(!corpus_entry_wf(self.snapshot().text_corpus[i as int]));
                return false;
            }
            i = i + 1;
        }
        proof {
            assert forall|j: int| 0 <= j < self.snapshot().text_corpus.len() implies corpus_entry_wf(
                #[trigger] self.snapshot().text_corpus[j],
            ) by {
                assert(self.snapshot().text_corpus[j] == self.text_corpus@[j]@);
            }
        }
        true
    }
}

impl AbstractServer for TestFixtureBackend {
    open spec fn snapshot(&self) -> IndexSnapshot {
        IndexSnapshot {
            tree_name: self.tree_name@,
            local: match self.local_paths {
                Some(lp) => Some(lp@),
                None => None,
            },
            repo_files: file_entries_view(self.repo_files@),
            objdir_files: file_entries_view(self.objdir_files@),
            identifiers: self.identifiers.deep_view(),
            crossref: self.crossref.deep_view(),
            crossref_extra: self.crossref_extra.deep_view(),
            jumpref: self.jumpref.deep_view(),
            sources: self.sources.deep_view(),
            formatted: self.formatted.deep_view(),
            html_files: self.html_files.deep_view(),
            html_dirs: self.html_dirs.deep_view(),
            html_templates: self.html_templates.deep_view(),
            text_corpus: corpus_view(self.text_corpus@),
            queries: self.queries.deep_view(),
            analysis: self.analysis.deep_view(),
        }
    }

    fn clonify(&self) -> (r: Self) {
        let r = TestFixtureBackend {
            tree_name: self.tree_name.clone(),
            local_paths: clone_local(&self.local_paths),
            repo_files: clone_file_entries(&self.repo_files),
            objdir_files: clone_file_entries(&self.objdir_files),
            identifiers: clone_pairs(&self.identifiers),
            crossref: clone_pairs(&self.crossref),
            crossref_extra: clone_pairs(&self.crossref_extra),
            jumpref: clone_pairs(&self.jumpref),
            sources: clone_pairs(&self.sources),
            formatted: clone_formatted(&self.formatted),
            html_files: clone_pairs(&self.html_files),
            html_dirs: clone_pairs(&self.html_dirs),
            html_templates: clone_pairs(&self.html_templates),
            text_corpus: clone_corpus(&self.text_corpus),
            queries: clone_pairs(&self.queries),
            analysis: clone_analysis(&self.analysis),
        };
        r
    }

    fn tree_info(&self) -> (r: Result<TreeInfo, ServerError>) {
        Ok(TreeInfo { name: self.tree_name.clone() })
    }

    fn translate_path(&self, root: SearchfoxIndexRoot, sf_path: &str) -> (r: Result<
        String,
        ServerError,
    >) {
        match &self.local_paths {
            Some(lp) => {
                let p = match root {
                    SearchfoxIndexRoot::CompressedAnalysis => join4(
                        &lp.index_path,
                        "/analysis/",
                        sf_path,
                        ".gz",
                    ),
                    SearchfoxIndexRoot::ConfigRepo => join3(&lp.config_repo_path, "/", sf_path),
                    SearchfoxIndexRoot::IndexTemplates => join3(
                        &lp.index_path,
                        "/templates/",
                        sf_path,
                    ),
                    SearchfoxIndexRoot::IndexPages => join3(&lp.index_path, "/pages/", sf_path),
                    SearchfoxIndexRoot::UncompressedDirectoryListing => join3(
                        &lp.index_path,
                        "/dir/",
                        sf_path,
                    ),
                };
                proof {
                    assert(p@ =~= crate::contract::translated_path(lp@, root, sf_path@));
                }
                Ok(p)
            },
            None => Err(ServerError::Unsupported),
        }
    }

    fn fetch_raw_analysis(&self, sf_path: &str) -> (r: Result<Vec<serde_json::Value>, ServerError>) {
        analysis_of(&self.analysis, sf_path)
    }

    fn fetch_raw_source(&self, sf_path: &str) -> (r: Result<String, ServerError>) {
        match find_key(&self.sources, sf_path) {
            Some(i) => {
                proof {
                    lemma_find_hit(self.sources, sf_path@, i as int);
                }
                Ok(self.sources[i].1.clone())
            },
            None => {
                proof {
                    lemma_find_miss(self.sources, sf_path@);
                }
                Err(missing_data_error())
            },
        }
    }

    fn fetch_formatted_lines(&self, sf_path: &str) -> (r: Result<
        (Vec<String>, String),
        ServerError,
    >) {
        match find_key(&self.formatted, sf_path) {
            Some(i) => {
                proof {
                    lemma_find_hit(self.formatted, sf_path@, i as int);
                }
                Ok(
                    (
                        clone_string_vec(&self.formatted[i].1.lines),
                        self.formatted[i].1.sym_json.clone(),
                    ),
                )
            },
            None => {
                proof {
                    lemma_find_miss(self.formatted, sf_path@);
                }
                Err(missing_data_error())
            },
        }
    }

    fn fetch_html(&self, root: HtmlFileRoot, sf_path: &str) -> (r: Result<String, ServerError>) {
        let table: &Vec<(String, String)> = match root {
            HtmlFileRoot::FormattedFile => &self.html_files,
            HtmlFileRoot::FormattedDir => &self.html_dirs,
            HtmlFileRoot::FormattedTemplate => &self.html_templates,
        };
        match find_key(table, sf_path) {
            Some(i) => {
                proof {
                    lemma_find_hit(*table, sf_path@, i as int);
                }
                Ok(table[i].1.clone())
            },
            None => {
                proof {
                    lemma_find_miss(*table, sf_path@);
                }
                Err(missing_data_error())
            },
        }
    }

    fn crossref_lookup(&self, symbol: &str, extra_processing: bool) -> (r: Result<
        serde_json::Value,
        ServerError,
    >) {
        let table: &Vec<(String, String)> = if extra_processing {
            &self.crossref_extra
        } else {
            &self.crossref
        };
        match find_key(table, symbol) {
            Some(i) => {
                proof {
                    lemma_find_hit(*table, symbol@, i as int);
                }
                decode_json(table[i].1.as_str())
            },
            None => {
                proof {
                    lemma_find_miss(*table, symbol@);
                }
                Ok(json_null())
            },
        }
    }

    fn jumpref_lookup(&self, symbol: &str) -> (r: Result<serde_json::Value, ServerError>) {
        match find_key(&self.jumpref, symbol) {
            Some(i) => {
                proof {
                    lemma_find_hit(self.jumpref, symbol@, i as int);
                }
                decode_json(self.jumpref[i].1.as_str())
            },
            None => {
                proof {
                    lemma_find_miss(self.jumpref, symbol@);
                }
                Ok(json_null())
            },
        }
    }

    fn search_files(&self, pathre: &str, include_dirs: bool, limit: usize) -> (r: Result<
        FileMatches,
        ServerError,
    >) {
        match regex_compile_check(pathre) {
            Err(e) => Err(ServerError::from_regex_error(e)),
            Ok(()) => {
                let ghost repo_v = file_entries_view(self.repo_files@);
                let ghost obj_v = file_entries_view(self.objdir_files@);
                let mut r1 = files_search_rec(&self.repo_files, pathre, include_dirs, 0, limit);
                proof {
                    assert(repo_v.skip(0) =~= repo_v);
                    lemma_files_search_len(repo_v, pathre@, include_dirs, limit as nat);
                    assert(r1@.len() == files_search(
                        repo_v,
                        pathre@,
                        include_dirs,
                        limit as nat,
                    ).len());
                }
                let used: usize = r1.len();
                let mut r2 = files_search_rec(
                    &self.objdir_files,
                    pathre,
                    include_dirs,
                    0,
                    limit - used,
                );
                proof {
                    assert(obj_v.skip(0) =~= obj_v);
                    lemma_files_search_concat(repo_v, obj_v, pathre@, include_dirs, limit as nat);
                }
                r1.append(&mut r2);
                let out = FileMatches { file_matches: r1 };
                proof {
                    assert(out@ =~= files_search(
                        repo_v + obj_v,
                        pathre@,
                        include_dirs,
                        limit as nat,
                    ));
                }
                Ok(out)
            },
        }
    }

    fn search_identifiers(
        &self,
        needle: &str,
        exact_match: bool,
        ignore_case: bool,
        match_limit: usize,
    ) -> (r: Result<Vec<(String, String)>, ServerError>) {
        let out = idents_search_rec(&self.identifiers, needle, exact_match, ignore_case, 0, match_limit);
        proof {
            assert(self.identifiers.deep_view().skip(0) =~= self.identifiers.deep_view());
        }
        Ok(out)
    }

    fn search_text(&self, pattern: &str, fold_case: bool, path: &str, limit: usize) -> (r: Result<
        TextMatches,
        ServerError,
    >) {
        let eff: String = if fold_case {
            join2("(?i)", pattern)
        } else {
            pattern.to_owned()
        };
        proof {
            assert(eff@ == effective_pattern(pattern@, fold_case));
        }
        match regex_compile_check(eff.as_str()) {
            Err(e) => Err(ServerError::from_regex_error(e)),
            Ok(()) => {
                match regex_compile_check(path) {
                    Err(e2) => Err(ServerError::from_regex_error(e2)),
                    Ok(()) => {
                        proof {
                            assert forall|j: int|
                                0 <= j < self.text_corpus@.len() implies corpus_entry_wf(
                                (#[trigger] self.text_corpus@[j])@,
                            ) by {
                                assert(self.snapshot().text_corpus[j] == self.text_corpus@[j]@);
                                assert(corpus_entry_wf(self.snapshot().text_corpus[j]));
                            }
                        }
                        let by_file = text_search_rec(&self.text_corpus, eff.as_str(), path, 0, limit);
                        proof {
                            let corpus_v = corpus_view(self.text_corpus@);
                            assert(corpus_v.skip(0) =~= corpus_v);
                        }
                        Ok(TextMatches { by_file })
                    },
                }
            },
        }
    }

    fn perform_query(&self, q: &str) -> (r: Result<serde_json::Value, ServerError>) {
        match find_key(&self.queries, q) {
            Some(i) => {
                proof {
                    lemma_find_hit(self.queries, q@, i as int);
                }
                decode_json(self.queries[i].1.as_str())
            },
            None => {
                proof {
                    lemma_find_miss(self.queries, q@);
                }
                Err(
                    ServerError::StickyProblem(
                        ErrorDetails {
                            layer: ErrorLayer::BadInput,
                            message: "query string is not recognized by this backend".to_owned(),
                        },
                    ),
                )
            },
        }
    }
}

} // verus!
