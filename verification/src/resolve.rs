//! Parsing the output of the source resolver.
//!
//! The resolver is an external helper process that prints the direct
//! playable URL on its standard output. The shell captures those bytes;
//! here they are reduced to the URL itself: surrounding ASCII whitespace
//! is removed, and an output that holds nothing else is rejected — a
//! session cannot start without a source.

use vstd::prelude::*;

verus! {

/// ASCII whitespace as it appears around a printed line: space, tab,
/// line feed, carriage return.
pub open spec fn is_space(b: u8) -> bool {
    b == 32 || b == 9 || b == 10 || b == 13
}

/// How many whitespace bytes the sequence starts with.
pub open spec fn leading_spaces(s: Seq<u8>) -> int
    decreases s.len(),
{
    if s.len() > 0 && is_space(s[0]) {
        1 + leading_spaces(s.drop_first())
    } else {
        0
    }
}

/// How many whitespace bytes the sequence ends with.
pub open spec fn trailing_spaces(s: Seq<u8>) -> int
    decreases s.len(),
{
    if s.len() > 0 && is_space(s.last()) {
        1 + trailing_spaces(s.drop_last())
    } else {
        0
    }
}

/// The sequence with leading and trailing whitespace removed.
pub open spec fn trimmed(s: Seq<u8>) -> Seq<u8> {
    if leading_spaces(s) == s.len() {
        Seq::empty()
    } else {
        s.subrange(leading_spaces(s), s.len() - trailing_spaces(s))
    }
}

/// The count of leading whitespace bytes marks the first byte kept:
/// everything before it is whitespace, and the byte there, if any, is not.
proof fn lemma_leading_spaces(s: Seq<u8>)
    ensures
        0 <= leading_spaces(s) <= s.len(),
        forall|j: int| 0 <= j < leading_spaces(s) ==> is_space(s[j]),
        leading_spaces(s) < s.len() ==> !is_space(s[leading_spaces(s)]),
    decreases s.len(),
{
    if s.len() > 0 && is_space(s[0]) {
        lemma_leading_spaces(s.drop_first());
        assert forall|j: int| 0 <= j < leading_spaces(s) implies is_space(s[j]) by {
            if j > 0 {
                assert(s[j] == s.drop_first()[j - 1]);
            }
        }
    }
}

/// The count of trailing whitespace bytes marks the last byte kept:
/// everything from `len - trailing` on is whitespace, and the byte just
/// before, if any, is not.
proof fn lemma_trailing_spaces(s: Seq<u8>)
    ensures
        0 <= trailing_spaces(s) <= s.len(),
        forall|j: int| s.len() - trailing_spaces(s) <= j < s.len() ==> is_space(s[j]),
        trailing_spaces(s) < s.len() ==> !is_space(s[s.len() - trailing_spaces(s) - 1]),
    decreases s.len(),
{
    if s.len() > 0 && is_space(s.last()) {
        lemma_trailing_spaces(s.drop_last());
        assert forall|j: int| s.len() - trailing_spaces(s) <= j < s.len() implies is_space(
            s[j],
        ) by {
            if j < s.len() - 1 {
                assert(s[j] == s.drop_last()[j]);
            }
        }
    }
}

/// When some byte is kept, the whitespace runs at the two ends do not
/// overlap.
proof fn lemma_trim_bounds(s: Seq<u8>)
    requires
        leading_spaces(s) < s.len(),
    ensures
        leading_spaces(s) < s.len() - trailing_spaces(s),
{
    lemma_leading_spaces(s);
    lemma_trailing_spaces(s);
    if s.len() - trailing_spaces(s) <= leading_spaces(s) {
        assert(is_space(s[leading_spaces(s)]));
    }
}

/// Whether a byte is surrounding whitespace.
fn is_space_byte(b: u8) -> (r: bool)
    ensures
        r == is_space(b),
{
    b == 32 || b == 9 || b == 10 || b == 13
}

/// The direct URL out of the resolver's raw output: the bytes with
/// surrounding whitespace removed, or nothing when nothing but
/// whitespace was printed.
pub fn extract_direct_url(output: &Vec<u8>) -> (r: Option<Vec<u8>>)
    ensures
        match r {
            Some(url) => url@ == trimmed(output@) && url@.len() > 0,
            None => trimmed(output@).len() == 0,
        },
{
    proof {
        lemma_leading_spaces(output@);
        lemma_trailing_spaces(output@);
    }
    let n: usize = output.len();
    let mut lo: usize = 0;
    while lo < n && is_space_byte(output[lo])
        invariant
            lo <= n,
            n == output.len(),
            forall|j: int| 0 <= j < lo ==> is_space(output@[j]),
        decreases n - lo,
    {
        lo = lo + 1;
    }
    proof {
        if lo < leading_spaces(output@) {
            assert(is_space(output@[lo as int]));
        }
        if leading_spaces(output@) < lo {
            assert(is_space(output@[leading_spaces(output@)]));
        }
        assert(lo == leading_spaces(output@));
    }
    if lo == n {
        return None;
    }
    proof {
        lemma_trim_bounds(output@);
    }
    let mut hi: usize = n;
    while hi > lo && is_space_byte(output[hi - 1])
        invariant
            lo <= hi <= n,
            n == output.len(),
            lo == leading_spaces(output@),
            lo < n,
            forall|j: int| hi <= j < n ==> is_space(output@[j]),
        decreases hi,
    {
        hi = hi - 1;
    }
    proof {
        let t = trailing_spaces(output@);
        if hi < n - t {
            assert(is_space(output@[hi as int]));
        }
        if n - t < hi {
            assert(!is_space(output@[n - t - 1]));
            assert(is_space(output@[hi - 1]) || hi - 1 == n - t - 1 || hi - 1 < n - t - 1);
            if hi - 1 > n - t - 1 {
                assert(is_space(output@[hi - 1]));
            }
        }
        assert(hi == n - trailing_spaces(output@));
    }
    let mut url: Vec<u8> = Vec::new();
    let mut i: usize = lo;
    while i < hi
        invariant
            lo <= i <= hi <= n,
            n == output.len(),
            url.len() == i - lo,
            forall|j: int| 0 <= j < url.len() ==> url@[j] == output@[lo + j],
        decreases hi - i,
    {
        url.push(output[i]);
        i = i + 1;
    }
    proof {
        assert(url@ =~= trimmed(output@));
    }
    Some(url)
}

} // verus!
