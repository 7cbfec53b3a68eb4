//! Extraction of a type's unqualified name from its fully qualified textual
//! name: the final path segment, after the last `"::"` separator.

use vstd::prelude::*;

verus! {

use vstd::string::StrSliceExecFns;

/// Whether positions `i` and `i + 1` of `s` hold the path separator `"::"`.
pub open spec fn sep_at(s: Seq<char>, i: int) -> bool {
    0 <= i && i + 2 <= s.len() && s[i] == ':' && s[i + 1] == ':'
}

/// Whether `"::"` occurs anywhere in `s`.
pub open spec fn contains_sep(s: Seq<char>) -> bool {
    exists|i: int| sep_at(s, i)
}

/// Whether `i` is the start of the last path separator in `s`.
pub open spec fn last_sep_at(s: Seq<char>, i: int) -> bool {
    sep_at(s, i) && forall|j: int| i < j ==> !sep_at(s, j)
}

/// The final path segment of a fully qualified name: what follows the last
/// `"::"`, or the whole string when none occurs.
pub open spec fn spec_last_segment(s: Seq<char>) -> Seq<char> {
    if exists|i: int| last_sep_at(s, i) {
        s.skip((choose|i: int| last_sep_at(s, i)) + 2)
    } else {
        s
    }
}

/// Wherever a separator occurs, a last separator occurs.
proof fn lemma_last_sep_from(s: Seq<char>, k: int)
    requires
        sep_at(s, k),
    ensures
        exists|i: int| last_sep_at(s, i),
    decreases s.len() - k,
{
    if exists|j: int| j > k && sep_at(s, j) {
        let j = choose|j: int| j > k && sep_at(s, j);
        lemma_last_sep_from(s, j);
    } else {
        assert(last_sep_at(s, k));
    }
}

/// The final path segment never contains a separator.
proof fn lemma_last_segment_no_sep(s: Seq<char>)
    ensures
        !contains_sep(spec_last_segment(s)),
{
    if exists|i: int| last_sep_at(s, i) {
        let i = choose|i: int| last_sep_at(s, i);
        let t = s.skip(i + 2);
        assert forall|j: int| !sep_at(t, j) by {
            if sep_at(t, j) {
                assert(s[i + 2 + j] == ':');
                assert(s[i + 2 + j + 1] == ':');
                assert(sep_at(s, i + 2 + j));
            }
        }
        assert(spec_last_segment(s) == t);
    } else {
        if exists|i: int| sep_at(s, i) {
            lemma_last_sep_from(s, choose|i: int| sep_at(s, i));
        }
        assert(!contains_sep(s));
    }
}

/// Returns the unqualified identifier within a fully qualified type name:
/// the final path segment, after the last `"::"` separator, or the whole
/// string when none occurs. The result therefore never contains `"::"`.
pub fn ident_name(full_ident_name: &str) -> (r: String)
    ensures
        r@ == spec_last_segment(full_ident_name@),
        !contains_sep(r@),
{
    let full = full_ident_name;
    proof {
        lemma_last_segment_no_sep(full@);
    }
    let n = full.unicode_len();
    let mut found: bool = false;
    let mut pos: usize = 0;
    let mut i: usize = 0;
    while i < n && i + 1 < n
        invariant
            n == full@.len(),
            i <= n,
            found ==> pos + 2 <= n && i > pos && sep_at(full@, pos as int),
            found ==> forall|j: int| pos < j < i ==> !sep_at(full@, j),
            !found ==> forall|j: int| 0 <= j < i ==> !sep_at(full@, j),
        decreases n - i,
    {
        if full.get_char(i) == ':' && full.get_char(i + 1) == ':' {
            found = true;
            pos = i;
        }
        i = i + 1;
    }
    if found {
        proof {
            assert(last_sep_at(full@, pos as int));
            let c = choose|k: int| last_sep_at(full@, k);
            if c < pos as int {
                assert(sep_at(full@, pos as int));
            }
            if c > pos as int {
                assert(sep_at(full@, c));
            }
            assert(c == pos as int);
        }
        let tail: &str = full.substring_char(pos + 2, n);
        assert(tail@ =~= spec_last_segment(full@));
        tail.to_owned()
    } else {
        proof {
            if exists|k: int| last_sep_at(full@, k) {
                let k = choose|k: int| last_sep_at(full@, k);
                assert(sep_at(full@, k));
            }
        }
        full.to_owned()
    }
}

} // verus!
