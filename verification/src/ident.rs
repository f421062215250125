//! Identifier matching semantics for `search_identifiers`.
//!
//! An exact search is a (optionally case-insensitive) equality lookup.  A
//! prefix search additionally skips anything that looks like hierarchy
//! traversal: a candidate whose extension past the needle contains `:` or
//! `.` is excluded, so that completing a short prefix does not flood the
//! caller with deeply-nested hierarchy members.

use vstd::prelude::*;
use vstd::string::*;

verus! {

/// ASCII-lowercased code point of `c`: `A`..`Z` fold to `a`..`z`; every
/// other character stands as itself.
pub open spec fn lower_code(c: char) -> int {
    if 65 <= c as int && c as int <= 90 {
        c as int + 32
    } else {
        c as int
    }
}

/// Character equality, folding ASCII case when `ignore_case` is set.
pub open spec fn chars_eq_ci(a: char, b: char, ignore_case: bool) -> bool {
    if ignore_case {
        lower_code(a) == lower_code(b)
    } else {
        a == b
    }
}

/// Sequence equality under [`chars_eq_ci`].
pub open spec fn seq_eq_ci(a: Seq<char>, b: Seq<char>, ignore_case: bool) -> bool {
    &&& a.len() == b.len()
    &&& forall|i: int| 0 <= i < a.len() ==> chars_eq_ci(a[i], b[i], ignore_case)
}

/// `:` and `.` are the hierarchy-separator characters.
pub open spec fn is_hierarchy_sep(c: char) -> bool {
    c == ':' || c == '.'
}

/// Whether `candidate` is returned for a `search_identifiers` call with
/// the given `needle`.  Exact searches compare whole identifiers; prefix
/// searches require the needle as a (case-folded, if requested) prefix and
/// no hierarchy separator anywhere past it.
pub open spec fn identifier_matches(
    needle: Seq<char>,
    candidate: Seq<char>,
    exact_match: bool,
    ignore_case: bool,
) -> bool {
    if exact_match {
        seq_eq_ci(candidate, needle, ignore_case)
    } else {
        &&& candidate.len() >= needle.len()
        &&& seq_eq_ci(candidate.take(needle.len() as int), needle, ignore_case)
        &&& forall|i: int| needle.len() <= i < candidate.len() ==> !is_hierarchy_sep(candidate[i])
    }
}

/// ASCII-lowercased code point of `c`.
fn char_code_lower(c: char) -> (r: u32)
    ensures
        r == lower_code(c),
{
    let u: u32 = c as u32;
    if 65 <= u && u <= 90 {
        u + 32
    } else {
        u
    }
}

/// Decides [`identifier_matches`] on identifier strings.
pub fn identifier_match(
    needle: &str,
    candidate: &str,
    exact_match: bool,
    ignore_case: bool,
) -> (r: bool)
    ensures
        r == identifier_matches(needle@, candidate@, exact_match, ignore_case),
{
    let nlen: usize = needle.unicode_len();
    let clen: usize = candidate.unicode_len();
    if exact_match {
        if nlen != clen {
            return false;
        }
        let mut i: usize = 0;
        while i < nlen
            invariant
                i <= nlen,
                nlen == needle@.len(),
                clen == candidate@.len(),
                nlen == clen,
                forall|k: int| 0 <= k < i ==> chars_eq_ci(candidate@[k], needle@[k], ignore_case),
            decreases nlen - i,
        {
            let nc: char = needle.get_char(i);
            let cc: char = candidate.get_char(i);
            let eq: bool = if ignore_case {
                char_code_lower(nc) == char_code_lower(cc)
            } else {
                nc == cc
            };
            if !eq {
                assert(!chars_eq_ci(candidate@[i as int], needle@[i as int], ignore_case));
                return false;
            }
            i = i + 1;
        }
        true
    } else {
        if clen < nlen {
            return false;
        }
        let mut i: usize = 0;
        while i < nlen
            invariant
                i <= nlen,
                nlen == needle@.len(),
                clen == candidate@.len(),
                nlen <= clen,
                forall|k: int| 0 <= k < i ==> chars_eq_ci(candidate@[k], needle@[k], ignore_case),
            decreases nlen - i,
        {
            let nc: char = needle.get_char(i);
            let cc: char = candidate.get_char(i);
            let eq: bool = if ignore_case {
                char_code_lower(nc) == char_code_lower(cc)
            } else {
                nc == cc
            };
            if !eq {
                assert(!chars_eq_ci(
                    candidate@.take(nlen as int)[i as int],
                    needle@[i as int],
                    ignore_case,
                ));
                return false;
            }
            i = i + 1;
        }
        assert(seq_eq_ci(candidate@.take(nlen as int), needle@, ignore_case));
        let mut j: usize = nlen;
        while j < clen
            invariant
                nlen <= j <= clen,
                nlen == needle@.len(),
                clen == candidate@.len(),
                seq_eq_ci(candidate@.take(nlen as int), needle@, ignore_case),
                forall|k: int| nlen <= k < j ==> !is_hierarchy_sep(candidate@[k]),
            decreases clen - j,
        {
            let c: char = candidate.get_char(j);
            if c == ':' || c == '.' {
                assert(is_hierarchy_sep(candidate@[j as int]));
                return false;
            }
            j = j + 1;
        }
        true
    }
}

} // verus!
