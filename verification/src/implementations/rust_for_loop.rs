//! The plain-loop counter on its own.

use vstd::prelude::*;

use crate::implementations::{NEG_BYTE, POS_BYTE};
use crate::model::{diff_count, lemma_match_count_push};

verus! {

/// Counts with an explicit loop and mutable state: occurrences of `'s'`
/// minus occurrences of `'p'`.
pub fn rust_for_loop(s: &[u8]) -> (r: isize)
    requires
        s@.len() <= isize::MAX,
    ensures
        r as int == diff_count(s@, POS_BYTE, NEG_BYTE),
{
    let n = s.len();
    let mut result: isize = 0;
    let mut i: usize = 0;
    while i < n
        invariant
            i <= n,
            n == s@.len(),
            n <= isize::MAX,
            -(i as int) <= result as int <= i as int,
            result as int == diff_count(s@.subrange(0, i as int), POS_BYTE, NEG_BYTE),
        decreases n - i,
    {
        proof {
            let prefix = s@.subrange(0, i as int);
            assert(s@.subrange(0, i + 1) =~= prefix.push(s@[i as int]));
            lemma_match_count_push(prefix, POS_BYTE, s@[i as int]);
            lemma_match_count_push(prefix, NEG_BYTE, s@[i as int]);
        }
        let c = s[i];
        if c == POS_BYTE {
            result += 1;
        } else if c == NEG_BYTE {
            result -= 1;
        }
        i += 1;
    }
    proof {
        assert(s@.subrange(0, n as int) =~= s@);
    }
    result
}

} // verus!
