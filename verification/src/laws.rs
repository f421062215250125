//! Laws of the contract semantics.
//!
//! These proof functions state, once and for all backends, the properties
//! the operation contracts promise jointly: purity of path translation,
//! limit caps on search results, and that equal index data means equal
//! answers, whatever variant serves it.

use vstd::prelude::*;
use crate::contract::{
    FileEntryV, IndexSnapshot, LocalPathsV, SearchfoxIndexRoot, TextFileV, files_search,
    idents_search, pair_lookup, text_file_matches, text_search, total_text_matches,
    translated_path,
};

verus! {

/// Locates a `pair_lookup` result from its first occurrence index.
pub proof fn lemma_pair_lookup_at<T>(entries: Seq<(Seq<char>, T)>, key: Seq<char>, i: int)
    requires
        0 <= i < entries.len(),
        entries[i].0 == key,
        forall|k: int| 0 <= k < i ==> (#[trigger] entries[k]).0 != key,
    ensures
        pair_lookup(entries, key) == Some(entries[i].1),
    decreases i,
{
    if i == 0 {
    } else {
        assert(entries[0].0 != key);
        assert forall|k: int| 0 <= k < i - 1 implies (#[trigger] entries.drop_first()[k]).0
            != key by {
            assert(entries.drop_first()[k] == entries[k + 1]);
        }
        lemma_pair_lookup_at(entries.drop_first(), key, i - 1);
        assert(entries.drop_first()[i - 1] == entries[i]);
    }
}

/// A key occurring nowhere is a `pair_lookup` miss.
pub proof fn lemma_pair_lookup_none<T>(entries: Seq<(Seq<char>, T)>, key: Seq<char>)
    requires
        forall|k: int| 0 <= k < entries.len() ==> (#[trigger] entries[k]).0 != key,
    ensures
        pair_lookup(entries, key) is None,
    decreases entries.len(),
{
    if entries.len() > 0 {
        assert forall|k: int| 0 <= k < entries.drop_first().len() implies (#[trigger] entries
            .drop_first()[k]).0 != key by {
            assert(entries.drop_first()[k] == entries[k + 1]);
        }
        lemma_pair_lookup_none(entries.drop_first(), key);
    }
}

/// Law: `translate_path` is a pure function of the backend's anchor paths,
/// the selected root and the tree-local path; issuing the call twice with
/// identical arguments against the same index data yields identical output.
pub proof fn lemma_translate_path_pure(
    lp: LocalPathsV,
    root: SearchfoxIndexRoot,
    sf_path: Seq<char>,
    r1: Seq<char>,
    r2: Seq<char>,
)
    requires
        r1 == translated_path(lp, root, sf_path),
        r2 == translated_path(lp, root, sf_path),
    ensures
        r1 == r2,
{
}

/// Law: `search_files` returns at most `limit` matches.
pub proof fn lemma_files_search_len(
    entries: Seq<FileEntryV>,
    pattern: Seq<char>,
    include_dirs: bool,
    limit: nat,
)
    ensures
        files_search(entries, pattern, include_dirs, limit).len() <= limit,
    decreases entries.len(),
{
    if entries.len() == 0 || limit == 0 {
    } else if crate::contract::file_selected(entries[0], pattern, include_dirs) {
        lemma_files_search_len(entries.drop_first(), pattern, include_dirs, (limit - 1) as nat);
    } else {
        lemma_files_search_len(entries.drop_first(), pattern, include_dirs, limit);
    }
}

/// Searching a concatenated listing is searching the first listing, then
/// the second under whatever limit is left.
pub proof fn lemma_files_search_concat(
    a: Seq<FileEntryV>,
    b: Seq<FileEntryV>,
    pattern: Seq<char>,
    include_dirs: bool,
    limit: nat,
)
    ensures
        files_search(a + b, pattern, include_dirs, limit) == files_search(
            a,
            pattern,
            include_dirs,
            limit,
        ) + files_search(
            b,
            pattern,
            include_dirs,
            (limit - files_search(a, pattern, include_dirs, limit).len()) as nat,
        ),
    decreases a.len(),
{
    lemma_files_search_len(a, pattern, include_dirs, limit);
    if a.len() == 0 {
        assert(a + b =~= b);
        assert(files_search(a, pattern, include_dirs, limit).len() == 0);
        assert(files_search(a, pattern, include_dirs, limit) + files_search(
            b,
            pattern,
            include_dirs,
            limit,
        ) =~= files_search(b, pattern, include_dirs, limit));
    } else if limit == 0 {
        assert(files_search(a + b, pattern, include_dirs, 0).len() == 0);
        assert(files_search(a + b, pattern, include_dirs, 0) =~= files_search(
            a,
            pattern,
            include_dirs,
            0,
        ) + files_search(b, pattern, include_dirs, 0));
    } else {
        assert((a + b)[0] == a[0]);
        assert((a + b).drop_first() =~= a.drop_first() + b);
        if crate::contract::file_selected(a[0], pattern, include_dirs) {
            lemma_files_search_concat(a.drop_first(), b, pattern, include_dirs, (limit - 1) as nat);
            assert(files_search(a + b, pattern, include_dirs, limit) =~= files_search(
                a,
                pattern,
                include_dirs,
                limit,
            ) + files_search(
                b,
                pattern,
                include_dirs,
                (limit - files_search(a, pattern, include_dirs, limit).len()) as nat,
            ));
        } else {
            lemma_files_search_concat(a.drop_first(), b, pattern, include_dirs, limit);
        }
    }
}

/// Law: `search_identifiers` returns at most `limit` pairs.
pub proof fn lemma_idents_search_len(
    entries: Seq<(Seq<char>, Seq<char>)>,
    needle: Seq<char>,
    exact_match: bool,
    ignore_case: bool,
    limit: nat,
)
    ensures
        idents_search(entries, needle, exact_match, ignore_case, limit).len() <= limit,
    decreases entries.len(),
{
    if entries.len() == 0 || limit == 0 {
    } else if crate::ident::identifier_matches(needle, entries[0].0, exact_match, ignore_case) {
        lemma_idents_search_len(
            entries.drop_first(),
            needle,
            exact_match,
            ignore_case,
            (limit - 1) as nat,
        );
    } else {
        lemma_idents_search_len(entries.drop_first(), needle, exact_match, ignore_case, limit);
    }
}

/// One corpus file contributes at most `limit` hits.
pub proof fn lemma_text_file_matches_len(
    lines: Seq<Seq<char>>,
    pattern: Seq<char>,
    line0: int,
    limit: nat,
)
    ensures
        text_file_matches(lines, pattern, line0, limit).len() <= limit,
    decreases lines.len(),
{
    if lines.len() == 0 || limit == 0 {
    } else if crate::regexp::regex_matched(pattern, lines[0]) {
        lemma_text_file_matches_len(lines.drop_first(), pattern, line0 + 1, (limit - 1) as nat);
    } else {
        lemma_text_file_matches_len(lines.drop_first(), pattern, line0 + 1, limit);
    }
}

/// Law: for every text-search query with limit `L`, the number of
/// returned hits across all files together is at most `L`.
pub proof fn lemma_search_text_within_limit(
    files: Seq<TextFileV>,
    pattern: Seq<char>,
    path_filter: Seq<char>,
    limit: nat,
)
    ensures
        0 <= total_text_matches(text_search(files, pattern, path_filter, limit)),
        total_text_matches(text_search(files, pattern, path_filter, limit)) <= limit,
    decreases files.len(),
{
    if files.len() == 0 || limit == 0 {
    } else {
        let ms = text_file_matches(files[0].lines, pattern, 1, limit);
        lemma_text_file_matches_len(files[0].lines, pattern, 1, limit);
        if crate::regexp::regex_matched(path_filter, files[0].file) && ms.len() > 0 {
            let rest = text_search(files.drop_first(), pattern, path_filter, (limit - ms.len()) as nat);
            lemma_search_text_within_limit(
                files.drop_first(),
                pattern,
                path_filter,
                (limit - ms.len()) as nat,
            );
            let whole = text_search(files, pattern, path_filter, limit);
            assert(whole[0].matches == ms);
            assert(whole.drop_first() =~= rest);
        } else {
            lemma_search_text_within_limit(files.drop_first(), pattern, path_filter, limit);
        }
    }
}

/// Law: backends serving equal index snapshots answer the read-only
/// search and lookup operations identically.  A duplicated handle, or a
/// local and a remote instance pointed at equivalent underlying index
/// data, cannot be told apart through `search_files`,
/// `search_identifiers` or `crossref_lookup` payloads.
pub proof fn lemma_equal_snapshots_equal_results(
    a: IndexSnapshot,
    b: IndexSnapshot,
    pattern: Seq<char>,
    include_dirs: bool,
    needle: Seq<char>,
    exact_match: bool,
    ignore_case: bool,
    symbol: Seq<char>,
    limit: nat,
)
    requires
        a == b,
    ensures
        files_search(a.repo_files + a.objdir_files, pattern, include_dirs, limit) == files_search(
            b.repo_files + b.objdir_files,
            pattern,
            include_dirs,
            limit,
        ),
        idents_search(a.identifiers, needle, exact_match, ignore_case, limit) == idents_search(
            b.identifiers,
            needle,
            exact_match,
            ignore_case,
            limit,
        ),
        pair_lookup(a.crossref, symbol) == pair_lookup(b.crossref, symbol),
{
}

} // verus!
