//! Small verified string utilities used throughout the pipeline.

use vstd::prelude::*;
use vstd::string::*;

verus! {

/// The piece of `s` after its last `'/'`; all of `s` when it has none.
pub open spec fn basename_spec(s: Seq<char>) -> Seq<char>
    decreases s.len(),
{
    if s.len() == 0 {
        s
    } else if s[s.len() - 1] == '/' {
        Seq::empty()
    } else {
        basename_spec(s.drop_last()).push(s.last())
    }
}

/// Character-for-character equality of two string slices.
pub fn str_eq(a: &str, b: &str) -> (r: bool)
    ensures
        r == (a@ == b@),
{
    let alen = a.unicode_len();
    let blen = b.unicode_len();
    if alen != blen {
        return false;
    }
    let mut i: usize = 0;
    while i < alen
        invariant
            i <= alen,
            alen == a@.len(),
            blen == b@.len(),
            alen == blen,
            forall|k: int| 0 <= k < i ==> a@[k] == b@[k],
        decreases alen - i,
    {
        if a.get_char(i) != b.get_char(i) {
            return false;
        }
        i += 1;
    }
    proof {
        assert(a@ =~= b@);
    }
    true
}

proof fn lemma_basename_subrange(s: Seq<char>, j: int)
    requires
        0 <= j <= s.len(),
        j > 0 ==> s[j - 1] == '/',
        forall|k: int| j <= k < s.len() ==> s[k] != '/',
    ensures
        basename_spec(s) == s.subrange(j, s.len() as int),
    decreases s.len(),
{
    if s.len() == 0 {
        assert(basename_spec(s) =~= s.subrange(j, s.len() as int));
    } else if j == s.len() {
        assert(s[s.len() - 1] == '/');
        assert(basename_spec(s) =~= s.subrange(j, s.len() as int));
    } else {
        assert(s.last() != '/');
        let t = s.drop_last();
        lemma_basename_subrange(t, j);
        assert(basename_spec(s) == basename_spec(t).push(s.last()));
        assert(basename_spec(t) == t.subrange(j, t.len() as int));
        assert(t.subrange(j, t.len() as int).push(s.last()) =~= s.subrange(
            j,
            s.len() as int,
        ));
    }
}

/// The final path component of `path`, i.e. everything after the last `'/'`
/// separator (the whole string when no separator occurs).
pub fn get_basename(path: &str) -> (r: String)
    ensures
        r@ == basename_spec(path@),
{
    let len = path.unicode_len();
    let mut j: usize = len;
    while j > 0 && path.get_char(j - 1) != '/'
        invariant
            j <= len,
            len == path@.len(),
            forall|k: int| j <= k < len ==> path@[k] != '/',
        decreases j,
    {
        j -= 1;
    }
    proof {
        lemma_basename_subrange(path@, j as int);
    }
    let piece = path.substring_char(j, len);
    piece.to_owned()
}

} // verus!
