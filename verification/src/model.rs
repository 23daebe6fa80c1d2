//! The mathematical model of the counters.
//!
//! A single spec function, [`diff_count`], defines the value that every
//! executable counter must return: the number of bytes equal to the
//! positive byte minus the number of bytes equal to the negative byte.
//! The lemmas here decompose that quantity over pushes and concatenations,
//! bound its magnitude by the buffer length, and state the two laws that
//! hold of the model itself: the count of an empty buffer is zero, and
//! swapping the two byte roles negates the count.

use vstd::prelude::*;

verus! {

/// How many elements of `s` equal `value`.
pub open spec fn match_count(s: Seq<u8>, value: u8) -> int
    decreases s.len(),
{
    if s.len() == 0 {
        0
    } else {
        match_count(s.drop_last(), value) + if s.last() == value {
            1int
        } else {
            0int
        }
    }
}

/// The signed difference every counter computes: occurrences of `pos`
/// minus occurrences of `neg`.
pub open spec fn diff_count(s: Seq<u8>, pos: u8, neg: u8) -> int {
    match_count(s, pos) - match_count(s, neg)
}

/// How many elements of a boolean mask are true.
pub open spec fn true_count(s: Seq<bool>) -> int
    decreases s.len(),
{
    if s.len() == 0 {
        0
    } else {
        true_count(s.drop_last()) + if s.last() {
            1int
        } else {
            0int
        }
    }
}

/// The sum of a sequence of small signed integers, as a mathematical
/// integer.
pub open spec fn signed_sum(s: Seq<i8>) -> int
    decreases s.len(),
{
    if s.len() == 0 {
        0
    } else {
        signed_sum(s.drop_last()) + s.last()
    }
}

/// A match count is never negative and never exceeds the length.
pub proof fn lemma_match_count_bounds(s: Seq<u8>, value: u8)
    ensures
        0 <= match_count(s, value) <= s.len(),
    decreases s.len(),
{
    if s.len() > 0 {
        lemma_match_count_bounds(s.drop_last(), value);
    }
}

/// Appending one byte adds its own contribution to the match count.
pub proof fn lemma_match_count_push(s: Seq<u8>, value: u8, b: u8)
    ensures
        match_count(s.push(b), value) == match_count(s, value) + if b == value {
            1int
        } else {
            0int
        },
{
    assert(s.push(b).drop_last() =~= s);
}

/// Match counts add over concatenation.
pub proof fn lemma_match_count_concat(a: Seq<u8>, b: Seq<u8>, value: u8)
    ensures
        match_count(a + b, value) == match_count(a, value) + match_count(b, value),
    decreases b.len(),
{
    if b.len() == 0 {
        assert(a + b =~= a);
    } else {
        assert((a + b).drop_last() =~= a + b.drop_last());
        lemma_match_count_concat(a, b.drop_last(), value);
    }
}

/// The signed difference lies between minus the length and the length.
pub proof fn lemma_diff_count_bounds(s: Seq<u8>, pos: u8, neg: u8)
    ensures
        -(s.len() as int) <= diff_count(s, pos, neg) <= s.len() as int,
{
    lemma_match_count_bounds(s, pos);
    lemma_match_count_bounds(s, neg);
}

/// Signed differences add over concatenation.
pub proof fn lemma_diff_count_concat(a: Seq<u8>, b: Seq<u8>, pos: u8, neg: u8)
    ensures
        diff_count(a + b, pos, neg) == diff_count(a, pos, neg) + diff_count(b, pos, neg),
{
    lemma_match_count_concat(a, b, pos);
    lemma_match_count_concat(a, b, neg);
}

/// The count of an empty buffer is zero, whatever the two byte roles are.
pub proof fn lemma_diff_count_empty(pos: u8, neg: u8)
    ensures
        diff_count(Seq::<u8>::empty(), pos, neg) == 0,
{
}

/// Swapping which byte is positive and which is negative negates the
/// count.
pub proof fn lemma_diff_count_swap(s: Seq<u8>, pos: u8, neg: u8)
    ensures
        diff_count(s, pos, neg) == -diff_count(s, neg, pos),
{
}

/// Appending one element adds its own contribution to the true count.
pub proof fn lemma_true_count_push(s: Seq<bool>, b: bool)
    ensures
        true_count(s.push(b)) == true_count(s) + if b {
            1int
        } else {
            0int
        },
{
    assert(s.push(b).drop_last() =~= s);
}

/// A mask that marks exactly the positions equal to `value` has as many
/// true elements as the buffer has matches.
pub proof fn lemma_true_count_is_match_count(s: Seq<u8>, mask: Seq<bool>, value: u8)
    requires
        mask.len() == s.len(),
        forall|i: int| 0 <= i < s.len() ==> mask[i] == (s[i] == value),
    ensures
        true_count(mask) == match_count(s, value),
    decreases s.len(),
{
    if s.len() > 0 {
        lemma_true_count_is_match_count(s.drop_last(), mask.drop_last(), value);
    }
}

/// Appending one element adds it to the signed sum.
pub proof fn lemma_signed_sum_push(s: Seq<i8>, x: i8)
    ensures
        signed_sum(s.push(x)) == signed_sum(s) + x,
{
    assert(s.push(x).drop_last() =~= s);
}

/// A lane vector that holds, at each position, the signed contribution of
/// the corresponding byte sums to the signed difference of the bytes.
pub proof fn lemma_signed_sum_of_contributions(bytes: Seq<u8>, vals: Seq<i8>, pos: u8, neg: u8)
    requires
        vals.len() == bytes.len(),
        forall|i: int| 0 <= i < bytes.len() ==> #[trigger] vals[i] as int == (if bytes[i] == pos {
            1int
        } else {
            0int
        }) - (if bytes[i] == neg {
            1int
        } else {
            0int
        }),
    ensures
        signed_sum(vals) == diff_count(bytes, pos, neg),
    decreases bytes.len(),
{
    if bytes.len() > 0 {
        lemma_signed_sum_of_contributions(bytes.drop_last(), vals.drop_last(), pos, neg);
    }
}

} // verus!
