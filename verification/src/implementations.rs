//! The counting variants.
//!
//! Each public function here returns the signed difference defined by
//! [`crate::model::diff_count`]: occurrences of the positive byte minus
//! occurrences of the negative byte.  [`count_scalar`] is the
//! parameterized reference; [`count_iter`], [`count_for_loop`] and
//! [`count_simd`] are the fixed-byte variants over ASCII `'s'` and `'p'`,
//! and [`emulate_numpy`] is the two-pass variant that materializes boolean
//! match masks first.  All of them carry the same postcondition, so any
//! two of them agree on every buffer.

pub mod emulate_numpy;
pub mod rust_for_loop;

use vstd::prelude::*;

use crate::lanes::{lane_eq, lane_sub, mask_to_int, reduce_sum};
use crate::model::{
    diff_count, lemma_diff_count_bounds, lemma_diff_count_concat, lemma_match_count_bounds,
    lemma_match_count_push, lemma_signed_sum_of_contributions, lemma_true_count_is_match_count,
};

verus! {

/// Number of bytes one chunk of the lane-chunked counter processes.
pub const LANE_WIDTH: usize = 16;

/// The positive byte of the fixed-byte variants: ASCII `'s'`.
pub const POS_BYTE: u8 = 115;

/// The negative byte of the fixed-byte variants: ASCII `'p'`.
pub const NEG_BYTE: u8 = 112;

/// The reference scalar counter over a sub-range of the buffer:
/// occurrences of `pos` minus occurrences of `neg` among
/// `s[from..to]`, processed strictly left to right.
pub fn count_scalar_range(s: &[u8], from: usize, to: usize, pos: u8, neg: u8) -> (r: isize)
    requires
        from <= to <= s@.len(),
        to - from <= isize::MAX,
    ensures
        r as int == diff_count(s@.subrange(from as int, to as int), pos, neg),
{
    let mut result: isize = 0;
    let mut i: usize = from;
    while i < to
        invariant
            from <= i <= to,
            to <= s@.len(),
            to - from <= isize::MAX,
            -(i - from) <= result as int <= i - from,
            result as int == diff_count(s@.subrange(from as int, i as int), pos, neg),
        decreases to - i,
    {
        proof {
            let prefix = s@.subrange(from as int, i as int);
            assert(s@.subrange(from as int, i + 1) =~= prefix.push(s@[i as int]));
            lemma_match_count_push(prefix, pos, s@[i as int]);
            lemma_match_count_push(prefix, neg, s@[i as int]);
        }
        let c = s[i];
        if c == pos {
            result += 1;
        }
        if c == neg {
            result -= 1;
        }
        i += 1;
    }
    result
}

/// The reference scalar counter (the correctness oracle): occurrences of
/// `pos` minus occurrences of `neg` over the whole buffer.
pub fn count_scalar(s: &[u8], pos: u8, neg: u8) -> (r: isize)
    requires
        s@.len() <= isize::MAX,
    ensures
        r as int == diff_count(s@, pos, neg),
{
    let r = count_scalar_range(s, 0, s.len(), pos, neg);
    proof {
        assert(s@.subrange(0, s@.len() as int) =~= s@);
    }
    r
}

/// Counts in iterator style: each byte is mapped to its signed
/// contribution and the contributions are summed.
pub fn count_iter(s: &[u8]) -> (r: isize)
    requires
        s@.len() <= isize::MAX,
    ensures
        r as int == diff_count(s@, POS_BYTE, NEG_BYTE),
{
    let n = s.len();
    let mut result: isize = 0;
    let mut i: usize = 0;
    while i < n
        invariant
            i <= n,
            n == s@.len(),
            n <= isize::MAX,
            -(i as int) <= result as int <= i as int,
            result as int == diff_count(s@.subrange(0, i as int), POS_BYTE, NEG_BYTE),
        decreases n - i,
    {
        proof {
            let prefix = s@.subrange(0, i as int);
            assert(s@.subrange(0, i + 1) =~= prefix.push(s@[i as int]));
            lemma_match_count_push(prefix, POS_BYTE, s@[i as int]);
            lemma_match_count_push(prefix, NEG_BYTE, s@[i as int]);
        }
        let delta: isize = match s[i] {
            POS_BYTE => 1,
            NEG_BYTE => -1,
            _ => 0,
        };
        result += delta;
        i += 1;
    }
    proof {
        assert(s@.subrange(0, n as int) =~= s@);
    }
    result
}

/// Counts with an explicit loop and mutable state.
pub fn count_for_loop(s: &[u8]) -> (r: isize)
    requires
        s@.len() <= isize::MAX,
    ensures
        r as int == diff_count(s@, POS_BYTE, NEG_BYTE),
{
    let n = s.len();
    let mut result: isize = 0;
    let mut i: usize = 0;
    while i < n
        invariant
            i <= n,
            n == s@.len(),
            n <= isize::MAX,
            -(i as int) <= result as int <= i as int,
            result as int == diff_count(s@.subrange(0, i as int), POS_BYTE, NEG_BYTE),
        decreases n - i,
    {
        proof {
            let prefix = s@.subrange(0, i as int);
            assert(s@.subrange(0, i + 1) =~= prefix.push(s@[i as int]));
            lemma_match_count_push(prefix, POS_BYTE, s@[i as int]);
            lemma_match_count_push(prefix, NEG_BYTE, s@[i as int]);
        }
        let c = s[i];
        if c == POS_BYTE {
            result += 1;
        } else if c == NEG_BYTE {
            result -= 1;
        }
        i += 1;
    }
    proof {
        assert(s@.subrange(0, n as int) =~= s@);
    }
    result
}

/// Counts in fixed-width chunks of [`LANE_WIDTH`] bytes.
///
/// A safe counter cannot observe pointer alignment, so the split is by
/// length: the head remainder (`len % LANE_WIDTH` bytes) falls back to
/// the scalar counter, and the rest is processed chunk by chunk — two
/// lane-wise equality masks, each turned into `0`/`-1` lane values, a
/// lane-wise subtraction, and a horizontal reduction accumulated into the
/// running result.  Buffers shorter than one chunk are handled entirely
/// by the scalar head; buffers whose length is an exact multiple of
/// [`LANE_WIDTH`] have an empty head.
pub fn count_simd(s: &[u8]) -> (r: isize)
    requires
        s@.len() <= isize::MAX,
    ensures
        r as int == diff_count(s@, POS_BYTE, NEG_BYTE),
{
    let len = s.len();
    let prefix_len = len % LANE_WIDTH;
    let mut result = count_scalar_range(s, 0, prefix_len, POS_BYTE, NEG_BYTE);
    proof {
        lemma_diff_count_bounds(s@.subrange(0, prefix_len as int), POS_BYTE, NEG_BYTE);
    }
    let mut idx = prefix_len;
    while idx < len
        invariant
            prefix_len <= idx <= len,
            len == s@.len(),
            len <= isize::MAX,
            (len - idx) % (LANE_WIDTH as int) == 0,
            -(idx as int) <= result as int <= idx as int,
            result as int == diff_count(s@.subrange(0, idx as int), POS_BYTE, NEG_BYTE),
        decreases len - idx,
    {
        let ss = lane_eq(s, idx, LANE_WIDTH, POS_BYTE);
        let ps = lane_eq(s, idx, LANE_WIDTH, NEG_BYTE);
        let neg_ss = mask_to_int(&ss);
        let neg_ps = mask_to_int(&ps);
        let pairwise = lane_sub(&neg_ps, &neg_ss);
        let chunk_sum = reduce_sum(&pairwise);
        proof {
            let chunk = s@.subrange(idx as int, idx + LANE_WIDTH);
            assert forall|i: int| 0 <= i < chunk.len() implies #[trigger] pairwise@[i] as int == (
            if chunk[i] == POS_BYTE {
                1int
            } else {
                0int
            }) - (if chunk[i] == NEG_BYTE {
                1int
            } else {
                0int
            }) by {
                assert(chunk[i] == s@[idx + i]);
            }
            lemma_signed_sum_of_contributions(chunk, pairwise@, POS_BYTE, NEG_BYTE);
            lemma_diff_count_bounds(chunk, POS_BYTE, NEG_BYTE);
            lemma_diff_count_concat(s@.subrange(0, idx as int), chunk, POS_BYTE, NEG_BYTE);
            assert(s@.subrange(0, idx as int) + chunk =~= s@.subrange(0, idx + LANE_WIDTH));
        }
        result += chunk_sum as isize;
        idx += LANE_WIDTH;
    }
    proof {
        assert(s@.subrange(0, len as int) =~= s@);
    }
    result
}

/// The two-pass variant: build a full-length boolean match mask for each
/// of the two bytes, reduce each mask to its number of true elements, and
/// return the difference of the two counts.
pub fn emulate_numpy(s: &[u8]) -> (r: isize)
    requires
        s@.len() <= isize::MAX,
    ensures
        r as int == diff_count(s@, POS_BYTE, NEG_BYTE),
{
    let ps = emulate_numpy::vec_eq(s, NEG_BYTE);
    let num_ps = emulate_numpy::nonzeros(ps.as_slice());
    let ss = emulate_numpy::vec_eq(s, POS_BYTE);
    let num_ss = emulate_numpy::nonzeros(ss.as_slice());
    proof {
        lemma_true_count_is_match_count(s@, ps@, NEG_BYTE);
        lemma_true_count_is_match_count(s@, ss@, POS_BYTE);
        lemma_match_count_bounds(s@, NEG_BYTE);
        lemma_match_count_bounds(s@, POS_BYTE);
    }
    num_ss as isize - num_ps as isize
}

} // verus!
