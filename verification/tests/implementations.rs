//! Tests of the counting variants: concrete scenarios, agreement of all
//! variants on shared inputs, the boundary lengths of the chunked
//! counter, and the swap-negation law at runtime.

use sp_count::count_for_loop;
use sp_count::count_iter;
use sp_count::count_scalar;
use sp_count::count_simd;
use sp_count::implementations;
use sp_count::rust_emulate_numpy;
use sp_count::rust_for_loop;

/// Deterministic pseudo-random bytes drawn from the given alphabet.
fn pseudo_random_bytes(seed: u64, len: usize, alphabet: &[u8]) -> Vec<u8> {
    let mut state = seed;
    let mut out = Vec::with_capacity(len);
    for _ in 0..len {
        state = state
            .wrapping_mul(6364136223846793005)
            .wrapping_add(1442695040888963407);
        let idx = ((state >> 33) as usize) % alphabet.len();
        out.push(alphabet[idx]);
    }
    out
}

fn all_variants(s: &[u8]) -> Vec<isize> {
    vec![
        count_scalar(s, b's', b'p'),
        count_iter(s),
        count_for_loop(s),
        count_simd(s),
        implementations::emulate_numpy(s),
        rust_emulate_numpy(s),
        rust_for_loop(s),
    ]
}

#[test]
fn test_small_sentence() {
    for r in all_variants(b"sspspss") {
        assert_eq!(3, r);
    }
}

#[test]
fn test_big_sentence() {
    for r in all_variants(b"ssssspssspssspp.pssspspppsppppsp") {
        assert_eq!(3, r);
    }
}

#[test]
fn test_neither_target_byte() {
    for r in all_variants(b"0123456789") {
        assert_eq!(0, r);
    }
}

#[test]
fn test_all_positive_bytes() {
    let n = 153;
    let s = vec![b's'; n];
    for r in all_variants(&s) {
        assert_eq!(n as isize, r);
    }
}

#[test]
fn test_all_negative_bytes() {
    let n = 47;
    let s = vec![b'p'; n];
    for r in all_variants(&s) {
        assert_eq!(-(n as isize), r);
    }
}

#[test]
fn test_empty_buffer() {
    for r in all_variants(b"") {
        assert_eq!(0, r);
    }
}

#[test]
fn test_implementations_have_identical_results_only_sp() {
    let buffer = pseudo_random_bytes(7, 65537, b"sp");
    let expected = count_for_loop(&buffer);
    for r in all_variants(&buffer) {
        assert_eq!(expected, r);
    }
}

#[test]
fn test_implementations_have_identical_results_any_printable() {
    let printable: Vec<u8> = (32u8..127u8).collect();
    let buffer = pseudo_random_bytes(99, 65537, &printable);
    let expected = count_for_loop(&buffer);
    for r in all_variants(&buffer) {
        assert_eq!(expected, r);
    }
}

#[test]
fn test_simd_boundary_lengths() {
    // Empty, a lone byte, one below, at, and above the lane width, two
    // whole chunks, and a large length not divisible by the lane width.
    for len in [0usize, 1, 15, 16, 17, 32, 1013] {
        let buffer = pseudo_random_bytes(len as u64 + 1, len, b"spx.");
        assert_eq!(count_scalar(&buffer, b's', b'p'), count_simd(&buffer));
    }
}

#[test]
fn test_simd_exact_values_at_boundaries() {
    assert_eq!(0, count_simd(b""));
    assert_eq!(1, count_simd(b"s"));
    // 15 bytes: shorter than one chunk, handled entirely by the head.
    assert_eq!(3, count_simd(b"sspspsspspsspsp"));
    // 16 bytes: exactly one chunk, empty head.
    assert_eq!(0, count_simd(b"spspspspspspspsp"));
    // 17 bytes: one-byte head and one chunk.
    assert_eq!(1, count_simd(b"sspspspspspspspsp"));
    // 32 bytes: two chunks.
    assert_eq!(3, count_simd(b"ssssspssspssspp.pssspspppsppppsp"));
}

#[test]
fn test_swapping_byte_roles_negates() {
    let buffers: [&[u8]; 4] = [b"sspspss", b"", b"abcabc", b"pppsss"];
    for s in buffers {
        assert_eq!(count_scalar(s, b's', b'p'), -count_scalar(s, b'p', b's'));
        assert_eq!(count_scalar(s, b'a', b'b'), -count_scalar(s, b'b', b'a'));
    }
}

#[test]
fn test_equal_byte_roles_cancel() {
    assert_eq!(0, count_scalar(b"sssss", b's', b's'));
}

#[test]
fn test_other_byte_roles() {
    // The template roles 'p' (positive) and 'n' (negative).
    assert_eq!(2, count_scalar(b"pnpnpp", b'p', b'n'));
    assert_eq!(-2, count_scalar(b"pnpnpp", b'n', b'p'));
}

#[test]
fn test_scalar_range_counts_sub_buffer() {
    let s = b"xxsspspssxx";
    assert_eq!(3, sp_count::count_scalar_range(s, 2, 9, b's', b'p'));
    assert_eq!(0, sp_count::count_scalar_range(s, 0, 2, b's', b'p'));
    assert_eq!(0, sp_count::count_scalar_range(s, 5, 5, b's', b'p'));
}
