//! Small byte-level facts shared by the text parsers: a prefix test and
//! a UTF-8 character-boundary lemma for ASCII prefixes.

use vstd::prelude::*;
use vstd::utf8::is_char_boundary;
use vstd::utf8::length_of_first_scalar;
use vstd::utf8::pop_first_scalar;
use vstd::utf8::valid_first_scalar;
use vstd::utf8::valid_utf8;

verus! {

/// Whether `b` begins with `p`.
pub open spec fn starts_with(b: Seq<u8>, p: Seq<u8>) -> bool {
    b.len() >= p.len() && b.subrange(0, p.len() as int) == p
}

/// Whether `s` starts with `pat`.
pub(crate) fn has_prefix(s: &[u8], pat: &[u8]) -> (r: bool)
    ensures
        r == starts_with(s@, pat@),
{
    let n: usize = s.len();
    let m: usize = pat.len();
    if m > n {
        return false;
    }
    let mut k: usize = 0;
    while k < m
        invariant
            k <= m <= n,
            n == s@.len(),
            m == pat@.len(),
            forall|t: int| 0 <= t < k ==> s@[t] == pat@[t],
        decreases m - k,
    {
        if s[k] != pat[k] {
            proof {
                assert(s@.subrange(0, pat@.len() as int)[k as int] == s@[k as int]);
            }
            return false;
        }
        k = k + 1;
    }
    proof {
        assert(s@.subrange(0, pat@.len() as int) =~= pat@);
    }
    true
}

/// An index preceded only by ASCII bytes is a character boundary of a
/// valid UTF-8 sequence: every ASCII byte encodes one whole scalar.
pub(crate) proof fn lemma_ascii_prefix_is_boundary(bytes: Seq<u8>, i: int)
    requires
        valid_utf8(bytes),
        0 <= i <= bytes.len(),
        forall|j: int| 0 <= j < i ==> bytes[j] < 128,
    ensures
        is_char_boundary(bytes, i),
    decreases i,
{
    if i > 0 {
        assert(valid_first_scalar(bytes));
        assert(length_of_first_scalar(bytes) == 1);
        let rest = pop_first_scalar(bytes);
        assert(rest =~= bytes.subrange(1, bytes.len() as int));
        assert(forall|j: int| 0 <= j < i - 1 ==> rest[j] < 128);
        lemma_ascii_prefix_is_boundary(rest, i - 1);
    }
}

} // verus!
