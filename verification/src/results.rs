//! The result data model returned by search operations.
//!
//! All types here are immutable value objects constructed fresh per query.
//! Paths and symbol-adjacent short strings are of bounded cardinality and a
//! deployment may intern them; raw line content is unbounded and never
//! interned.  In this crate they are held as plain `String`s so that every
//! derivation over them is verified; an embedding that wants interned
//! handles converts at its own boundary.

use vstd::prelude::*;
use vstd::string::*;

verus! {

/// Minimal tree identity, primarily for templating purposes.
#[derive(Debug)]
pub struct TreeInfo {
    pub name: String,
}

/// Half-open, 0-based column span of a text-search hit within a line.
#[derive(Debug)]
pub struct TextBounds {
    pub start: i32,
    pub end_exclusive: i32,
}

/// One text-search hit: a 1-based line number, the span within the line,
/// and the full line content.
#[derive(Debug)]
pub struct TextMatchInFile {
    pub line_num: u32,
    pub bounds: TextBounds,
    /// Line content varies without bound, so it is never interned.
    pub line_str: String,
}

/// All text-search hits within one file.
#[derive(Debug)]
pub struct TextMatchesByFile {
    pub file: String,
    pub path_kind: String,
    pub matches: Vec<TextMatchInFile>,
}

/// Text-search results clustered by file.
#[derive(Debug)]
pub struct TextMatches {
    pub by_file: Vec<TextMatchesByFile>,
}

/// One file-listing hit: the tree-local path and its per-file concise
/// metadata, keyed by short metadata names.
#[derive(Debug)]
pub struct FileMatch {
    pub path: String,
    pub concise: Vec<(String, String)>,
}

/// File-listing search results.
#[derive(Debug)]
pub struct FileMatches {
    pub file_matches: Vec<FileMatch>,
}

/// Mathematical image of a [`TextBounds`].
pub struct TextBoundsV {
    pub start: int,
    pub end_exclusive: int,
}

/// Mathematical image of a [`TextMatchInFile`].
pub struct TextMatchInFileV {
    pub line_num: int,
    pub bounds: TextBoundsV,
    pub line_str: Seq<char>,
}

/// Mathematical image of a [`TextMatchesByFile`].
pub struct TextMatchesByFileV {
    pub file: Seq<char>,
    pub path_kind: Seq<char>,
    pub matches: Seq<TextMatchInFileV>,
}

/// Mathematical image of a [`FileMatch`].
pub struct FileMatchV {
    pub path: Seq<char>,
    pub concise: Seq<(Seq<char>, Seq<char>)>,
}

impl View for TextBounds {
    type V = TextBoundsV;

    open spec fn view(&self) -> TextBoundsV {
        TextBoundsV { start: self.start as int, end_exclusive: self.end_exclusive as int }
    }
}

impl View for TextMatchInFile {
    type V = TextMatchInFileV;

    open spec fn view(&self) -> TextMatchInFileV {
        TextMatchInFileV {
            line_num: self.line_num as int,
            bounds: self.bounds@,
            line_str: self.line_str@,
        }
    }
}

impl View for TextMatchesByFile {
    type V = TextMatchesByFileV;

    open spec fn view(&self) -> TextMatchesByFileV {
        TextMatchesByFileV {
            file: self.file@,
            path_kind: self.path_kind@,
            matches: self.matches@.map_values(|m: TextMatchInFile| m@),
        }
    }
}

impl View for TextMatches {
    type V = Seq<TextMatchesByFileV>;

    open spec fn view(&self) -> Seq<TextMatchesByFileV> {
        self.by_file@.map_values(|f: TextMatchesByFile| f@)
    }
}

impl View for FileMatch {
    type V = FileMatchV;

    open spec fn view(&self) -> FileMatchV {
        FileMatchV { path: self.path@, concise: self.concise.deep_view() }
    }
}

impl View for FileMatches {
    type V = Seq<FileMatchV>;

    open spec fn view(&self) -> Seq<FileMatchV> {
        self.file_matches@.map_values(|m: FileMatch| m@)
    }
}

/// Index of the last `/` in `s`, or `-1` when `s` holds none.
pub open spec fn last_slash_index(s: Seq<char>) -> int
    decreases s.len(),
{
    if s.len() == 0 {
        -1
    } else if s[s.len() - 1] == '/' {
        s.len() - 1
    } else {
        last_slash_index(s.drop_last())
    }
}

/// Everything before the last `/` of `path`, or the empty sequence when
/// `path` holds no `/`.
pub open spec fn containing_dir_of(path: Seq<char>) -> Seq<char> {
    if last_slash_index(path) < 0 {
        Seq::<char>::empty()
    } else {
        path.take(last_slash_index(path))
    }
}

proof fn lemma_last_slash_at(s: Seq<char>, i: int)
    requires
        0 <= i < s.len(),
        s[i] == '/',
        forall|k: int| i < k < s.len() ==> s[k] != '/',
    ensures
        last_slash_index(s) == i,
    decreases s.len(),
{
    if i == s.len() - 1 {
    } else {
        assert(s.drop_last() =~= s.take(s.len() - 1));
        lemma_last_slash_at(s.drop_last(), i);
    }
}

proof fn lemma_last_slash_none(s: Seq<char>)
    requires
        forall|k: int| 0 <= k < s.len() ==> s[k] != '/',
    ensures
        last_slash_index(s) == -1,
    decreases s.len(),
{
    if s.len() > 0 {
        lemma_last_slash_none(s.drop_last());
    }
}

impl FileMatch {
    /// The directory holding this match: everything before the last `/` of
    /// `path`, without the trailing `/`, or the empty string when the path
    /// has no directory component.  A pure derivation of `path`, computed
    /// on demand and never stored.
    pub fn get_containing_dir(&self) -> (r: String)
        ensures
            r@ == containing_dir_of(self.path@),
    {
        let n: usize = self.path.as_str().unicode_len();
        let mut j: usize = n;
        while j > 0
            invariant
                j <= n,
                n == self.path@.len(),
                forall|k: int| j <= k < n ==> self.path@[k] != '/',
            decreases j,
        {
            if self.path.as_str().get_char(j - 1) == '/' {
                proof {
                    lemma_last_slash_at(self.path@, j - 1);
                }
                return self.path.as_str().substring_char(0, j - 1).to_owned();
            }
            j = j - 1;
        }
        proof {
            lemma_last_slash_none(self.path@);
        }
        String::new()
    }
}

} // verus!
