//! Match masks and their reductions.
//!
//! This is the two-pass family: a boolean mask the length of the input is
//! materialized first (element `i` true iff `input[i]` equals the target
//! byte) and reduced to a count afterwards.  [`vec_eq`] builds the mask
//! one element at a time; [`vec_eq_simd`] builds the same mask a chunk of
//! lanes at a time; [`vec_eq_only_simd`] and [`vec_eq_only_prefix`] are
//! the two halves of that chunked build, and [`nonzeros`] is the
//! reduction.  Every mask is fully initialized before it is read.

use vstd::pervasive::VecAdditionalExecFns;
use vstd::prelude::*;

use crate::implementations::{NEG_BYTE, POS_BYTE};
use crate::lanes::lane_eq;
use crate::model::{
    diff_count, lemma_match_count_bounds, lemma_true_count_is_match_count, lemma_true_count_push,
    true_count,
};

verus! {

/// Number of bytes one chunk of the mask builders processes.
pub const MASK_LANE_WIDTH: usize = 32;

/// Builds the match mask element by element: `mask[i]` is true iff
/// `s[i] == value`.
pub fn vec_eq(s: &[u8], value: u8) -> (mask: Vec<bool>)
    ensures
        mask@.len() == s@.len(),
        forall|i: int| 0 <= i < s@.len() ==> mask@[i] == (s@[i] == value),
{
    let n = s.len();
    let mut mask: Vec<bool> = Vec::with_capacity(n);
    let mut i: usize = 0;
    while i < n
        invariant
            i <= n,
            n == s@.len(),
            mask@.len() == i,
            forall|j: int| 0 <= j < i ==> mask@[j] == (s@[j] == value),
        decreases n - i,
    {
        mask.push(s[i] == value);
        i += 1;
    }
    mask
}

/// Builds the match mask a chunk of [`MASK_LANE_WIDTH`] lanes at a time:
/// the head remainder is pushed element by element, and each following
/// chunk is produced by one lane-wise comparison and appended whole.  The
/// mask is complete: every position of the input is filled.
pub fn vec_eq_simd(input: &[u8], value: u8) -> (mask: Vec<bool>)
    ensures
        mask@.len() == input@.len(),
        forall|i: int| 0 <= i < input@.len() ==> mask@[i] == (input@[i] == value),
{
    let n = input.len();
    let mut mask: Vec<bool> = Vec::with_capacity(n);
    let n_initial_bytes = n % MASK_LANE_WIDTH;
    let mut i: usize = 0;
    while i < n_initial_bytes
        invariant
            i <= n_initial_bytes <= n,
            n == input@.len(),
            mask@.len() == i,
            forall|j: int| 0 <= j < i ==> mask@[j] == (input@[j] == value),
        decreases n_initial_bytes - i,
    {
        mask.push(input[i] == value);
        i += 1;
    }
    let mut idx = n_initial_bytes;
    while idx < n
        invariant
            n_initial_bytes <= idx <= n,
            n == input@.len(),
            (n - idx) % (MASK_LANE_WIDTH as int) == 0,
            mask@.len() == idx,
            forall|j: int| 0 <= j < idx ==> mask@[j] == (input@[j] == value),
        decreases n - idx,
    {
        let lane_mask = lane_eq(input, idx, MASK_LANE_WIDTH, value);
        let mut j: usize = 0;
        while j < MASK_LANE_WIDTH
            invariant
                j <= MASK_LANE_WIDTH,
                idx + MASK_LANE_WIDTH <= n,
                n == input@.len(),
                lane_mask@.len() == MASK_LANE_WIDTH,
                forall|k: int|
                    0 <= k < MASK_LANE_WIDTH ==> lane_mask@[k] == (input@[idx + k] == value),
                mask@.len() == idx + j,
                forall|k: int| 0 <= k < idx + j ==> mask@[k] == (input@[k] == value),
            decreases MASK_LANE_WIDTH - j,
        {
            mask.push(lane_mask[j]);
            j += 1;
        }
        idx += MASK_LANE_WIDTH;
    }
    mask
}

/// The chunked half of the mask build alone: overwrites a full-length
/// buffer with the match mask of an input whose length is a whole number
/// of chunks.
pub fn vec_eq_only_simd(input: &[u8], buffer: &mut Vec<bool>, value: u8)
    requires
        input@.len() as int % (MASK_LANE_WIDTH as int) == 0,
        old(buffer)@.len() == input@.len(),
    ensures
        final(buffer)@.len() == input@.len(),
        forall|i: int| 0 <= i < input@.len() ==> final(buffer)@[i] == (input@[i] == value),
{
    let n = input.len();
    let mut idx: usize = 0;
    while idx < n
        invariant
            idx <= n,
            n == input@.len(),
            (n - idx) % (MASK_LANE_WIDTH as int) == 0,
            buffer@.len() == n,
            forall|j: int| 0 <= j < idx ==> buffer@[j] == (input@[j] == value),
        decreases n - idx,
    {
        let lane_mask = lane_eq(input, idx, MASK_LANE_WIDTH, value);
        let mut j: usize = 0;
        while j < MASK_LANE_WIDTH
            invariant
                j <= MASK_LANE_WIDTH,
                idx + MASK_LANE_WIDTH <= n,
                n == input@.len(),
                lane_mask@.len() == MASK_LANE_WIDTH,
                forall|k: int|
                    0 <= k < MASK_LANE_WIDTH ==> lane_mask@[k] == (input@[idx + k] == value),
                buffer@.len() == n,
                forall|k: int| 0 <= k < idx + j ==> buffer@[k] == (input@[k] == value),
            decreases MASK_LANE_WIDTH - j,
        {
            buffer.set(idx + j, lane_mask[j]);
            j += 1;
        }
        idx += MASK_LANE_WIDTH;
    }
}

/// Only the head of the chunked mask build: the mask of the first
/// `len % MASK_LANE_WIDTH` bytes, element by element.
pub fn vec_eq_only_prefix(input: &[u8], value: u8) -> (mask: Vec<bool>)
    ensures
        mask@.len() == input@.len() as int % (MASK_LANE_WIDTH as int),
        forall|i: int| 0 <= i < mask@.len() ==> mask@[i] == (input@[i] == value),
{
    let n = input.len();
    let mut mask: Vec<bool> = Vec::with_capacity(n);
    let n_initial_bytes = n % MASK_LANE_WIDTH;
    let mut i: usize = 0;
    while i < n_initial_bytes
        invariant
            i <= n_initial_bytes <= n,
            n == input@.len(),
            mask@.len() == i,
            forall|j: int| 0 <= j < i ==> mask@[j] == (input@[j] == value),
        decreases n_initial_bytes - i,
    {
        mask.push(input[i] == value);
        i += 1;
    }
    mask
}

/// Reduces a boolean mask to the number of its true elements.
pub fn nonzeros(s: &[bool]) -> (count: usize)
    ensures
        count as int == true_count(s@),
{
    let n = s.len();
    let mut count: usize = 0;
    let mut i: usize = 0;
    while i < n
        invariant
            i <= n,
            n == s@.len(),
            count <= i,
            count as int == true_count(s@.subrange(0, i as int)),
        decreases n - i,
    {
        proof {
            lemma_true_count_push(s@.subrange(0, i as int), s@[i as int]);
            assert(s@.subrange(0, i as int).push(s@[i as int]) =~= s@.subrange(0, i + 1));
        }
        if s[i] {
            count += 1;
        }
        i += 1;
    }
    proof {
        assert(s@.subrange(0, n as int) =~= s@);
    }
    count
}

/// The two-pass counter built from the pieces above: one mask and one
/// reduction per byte role, then the difference of the two counts.
pub fn rust_emulate_numpy(s: &[u8]) -> (r: isize)
    requires
        s@.len() <= isize::MAX,
    ensures
        r as int == diff_count(s@, POS_BYTE, NEG_BYTE),
{
    let ps = vec_eq(s, NEG_BYTE);
    let num_ps = nonzeros(ps.as_slice());
    let ss = vec_eq(s, POS_BYTE);
    let num_ss = nonzeros(ss.as_slice());
    proof {
        lemma_true_count_is_match_count(s@, ps@, NEG_BYTE);
        lemma_true_count_is_match_count(s@, ss@, POS_BYTE);
        lemma_match_count_bounds(s@, NEG_BYTE);
        lemma_match_count_bounds(s@, POS_BYTE);
    }
    num_ss as isize - num_ps as isize
}

} // verus!
