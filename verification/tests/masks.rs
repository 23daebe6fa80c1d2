//! Tests of the match-mask builders, their reduction, and the lane-wise
//! building blocks.

use sp_count::lanes::{lane_eq, lane_sub, mask_to_int, reduce_sum};
use sp_count::nonzeros;
use sp_count::vec_eq;
use sp_count::vec_eq_only_prefix;
use sp_count::vec_eq_only_simd;
use sp_count::vec_eq_simd;

/// Deterministic pseudo-random bytes drawn from the given alphabet.
fn pseudo_random_bytes(seed: u64, len: usize, alphabet: &[u8]) -> Vec<u8> {
    let mut state = seed;
    let mut out = Vec::with_capacity(len);
    for _ in 0..len {
        state = state
            .wrapping_mul(6364136223846793005)
            .wrapping_add(1442695040888963407);
        let idx = ((state >> 33) as usize) % alphabet.len();
        out.push(alphabet[idx]);
    }
    out
}

#[test]
fn test_vec_eq_marks_matches() {
    let mask = vec_eq(b"sspspss", b's');
    assert_eq!(vec![true, true, false, true, false, true, true], mask);
    let mask = vec_eq(b"sspspss", b'p');
    assert_eq!(vec![false, false, true, false, true, false, false], mask);
}

#[test]
fn test_vec_eq_empty() {
    assert!(vec_eq(b"", b's').is_empty());
}

#[test]
fn test_vec_eq_simd_matches_vec_eq() {
    // 71 = 2 whole chunks of 32 plus a 7-byte head.
    for len in [0usize, 7, 32, 64, 71] {
        let buffer = pseudo_random_bytes(3 * len as u64 + 5, len, b"spq");
        assert_eq!(vec_eq(&buffer, b's'), vec_eq_simd(&buffer, b's'));
    }
}

#[test]
fn test_vec_eq_only_simd_overwrites_buffer() {
    let input = pseudo_random_bytes(11, 64, b"sp.");
    let mut buffer = vec![true; 64];
    vec_eq_only_simd(&input, &mut buffer, b'p');
    assert_eq!(vec_eq(&input, b'p'), buffer);
}

#[test]
fn test_vec_eq_only_prefix_takes_head_remainder() {
    let input = pseudo_random_bytes(13, 70, b"sp");
    let mask = vec_eq_only_prefix(&input, b's');
    // 70 % 32 == 6: only the head remainder is produced.
    assert_eq!(6, mask.len());
    assert_eq!(&vec_eq(&input, b's')[..6], &mask[..]);
}

#[test]
fn test_nonzeros_counts_true_elements() {
    assert_eq!(0, nonzeros(&[]));
    assert_eq!(3, nonzeros(&[true, false, true, false, true]));
    assert_eq!(5, nonzeros(&[true; 5]));
    assert_eq!(0, nonzeros(&[false; 9]));
}

#[test]
fn test_lane_eq_compares_a_chunk() {
    let mask = lane_eq(b"xspsp", 1, 4, b's');
    assert_eq!(vec![true, false, true, false], mask);
}

#[test]
fn test_mask_to_int_gives_minus_one_lanes() {
    let v = mask_to_int(&vec![true, false, true]);
    assert_eq!(vec![-1i8, 0, -1], v);
}

#[test]
fn test_lane_sub_is_lane_wise() {
    let a = vec![-1i8, 0, -1, 0];
    let b = vec![0i8, -1, -1, 0];
    assert_eq!(vec![-1i8, 1, 0, 0], lane_sub(&a, &b));
}

#[test]
fn test_reduce_sum_adds_lanes() {
    assert_eq!(0, reduce_sum(&Vec::new()));
    assert_eq!(2, reduce_sum(&vec![1i8, -1, 1, 0, 1]));
    assert_eq!(-3, reduce_sum(&vec![-1i8, -1, -1]));
}
