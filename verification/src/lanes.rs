//! Lane-wise operations on byte chunks.
//!
//! The chunked counters process a buffer a fixed number of lanes at a
//! time: compare every lane against a target byte to get a boolean mask,
//! turn the mask into a vector of `0`/`-1` lane values, subtract two such
//! vectors lane-wise, and reduce the result to a single scalar.  These
//! functions are the verified building blocks for those four steps.

use vstd::prelude::*;

use crate::model::lemma_signed_sum_push;

verus! {

/// Lane-wise equality: a boolean mask over `lanes` consecutive bytes of
/// `s` starting at `start`, true where the byte equals `value`.
pub fn lane_eq(s: &[u8], start: usize, lanes: usize, value: u8) -> (mask: Vec<bool>)
    requires
        start + lanes <= s@.len(),
    ensures
        mask@.len() == lanes,
        forall|i: int| 0 <= i < lanes ==> mask@[i] == (s@[start + i] == value),
{
    let n = s.len();
    let mut mask: Vec<bool> = Vec::new();
    let mut j: usize = 0;
    while j < lanes
        invariant
            j <= lanes,
            n == s@.len(),
            start + lanes <= n,
            mask@.len() == j,
            forall|i: int| 0 <= i < j ==> mask@[i] == (s@[start + i] == value),
        decreases lanes - j,
    {
        mask.push(s[start + j] == value);
        j += 1;
    }
    mask
}

/// Turns a boolean mask into lane values: `-1` where the mask is true,
/// `0` where it is false.
pub fn mask_to_int(mask: &Vec<bool>) -> (v: Vec<i8>)
    ensures
        v@.len() == mask@.len(),
        forall|i: int| 0 <= i < mask@.len() ==> v@[i] == (if mask@[i] {
            -1i8
        } else {
            0i8
        }),
{
    let mut v: Vec<i8> = Vec::new();
    let mut j: usize = 0;
    while j < mask.len()
        invariant
            j <= mask@.len(),
            v@.len() == j,
            forall|i: int| 0 <= i < j ==> v@[i] == (if mask@[i] {
                -1i8
            } else {
                0i8
            }),
        decreases mask@.len() - j,
    {
        if mask[j] {
            v.push(-1);
        } else {
            v.push(0);
        }
        j += 1;
    }
    v
}

/// Lane-wise subtraction `a - b` of two vectors of `0`/`-1` lane values.
pub fn lane_sub(a: &Vec<i8>, b: &Vec<i8>) -> (v: Vec<i8>)
    requires
        a@.len() == b@.len(),
        forall|i: int| 0 <= i < a@.len() ==> -1 <= #[trigger] a@[i] <= 0,
        forall|i: int| 0 <= i < b@.len() ==> -1 <= #[trigger] b@[i] <= 0,
    ensures
        v@.len() == a@.len(),
        forall|i: int| 0 <= i < a@.len() ==> #[trigger] v@[i] as int == a@[i] - b@[i],
{
    let mut v: Vec<i8> = Vec::new();
    let mut j: usize = 0;
    while j < a.len()
        invariant
            j <= a@.len(),
            a@.len() == b@.len(),
            forall|i: int| 0 <= i < a@.len() ==> -1 <= #[trigger] a@[i] <= 0,
            forall|i: int| 0 <= i < b@.len() ==> -1 <= #[trigger] b@[i] <= 0,
            v@.len() == j,
            forall|i: int| 0 <= i < j ==> #[trigger] v@[i] as int == a@[i] - b@[i],
        decreases a@.len() - j,
    {
        v.push(a[j] - b[j]);
        j += 1;
    }
    v
}

/// Horizontal reduction: the sum of all lane values, each in
/// `{-1, 0, 1}`.  The lane count is capped so the sum fits the lane
/// type, as it does for every chunk width used here.
pub fn reduce_sum(v: &Vec<i8>) -> (r: i8)
    requires
        v@.len() <= 127,
        forall|i: int| 0 <= i < v@.len() ==> -1 <= #[trigger] v@[i] <= 1,
    ensures
        r as int == crate::model::signed_sum(v@),
{
    let mut r: i8 = 0;
    let mut j: usize = 0;
    while j < v.len()
        invariant
            j <= v@.len(),
            v@.len() <= 127,
            forall|i: int| 0 <= i < v@.len() ==> -1 <= #[trigger] v@[i] <= 1,
            -(j as int) <= r as int <= j as int,
            r as int == crate::model::signed_sum(v@.subrange(0, j as int)),
        decreases v@.len() - j,
    {
        proof {
            lemma_signed_sum_push(v@.subrange(0, j as int), v@[j as int]);
            assert(v@.subrange(0, j as int).push(v@[j as int]) =~= v@.subrange(0, j + 1));
        }
        r += v[j];
        j += 1;
    }
    proof {
        assert(v@.subrange(0, v@.len() as int) =~= v@);
    }
    r
}

} // verus!
