//! Sample words and their order.
//!
//! A sample word is the bit pattern of a double-precision value: one sign
//! bit, eleven exponent bits and fifty-two fraction bits. Read as a
//! sign-magnitude integer, a word's magnitude grows with the absolute value it
//! stands for; a magnitude above that of infinity is not a number.

use vstd::prelude::*;

verus! {

/// The sign bit of a word.
pub const SIGN_BIT: u64 = 0x8000_0000_0000_0000;

/// The magnitude of infinity: all exponent bits set, no fraction bit.
pub const INFINITY: u64 = 0x7FF0_0000_0000_0000;

/// The word of positive zero, the sample of silence.
pub const ZERO: u64 = 0;

/// The word of one.
pub const ONE: u64 = 0x3FF0_0000_0000_0000;

/// The word of minus one.
pub const MINUS_ONE: u64 = 0xBFF0_0000_0000_0000;

/// The word of one half.
pub const HALF: u64 = 0x3FE0_0000_0000_0000;

/// The word of minus one half.
pub const MINUS_HALF: u64 = 0xBFE0_0000_0000_0000;

/// A word without its sign bit.
pub open spec fn magnitude(w: u64) -> int {
    if w >= SIGN_BIT {
        w - SIGN_BIT
    } else {
        w as int
    }
}

/// Whether a word stands for no number.
pub open spec fn is_nan(w: u64) -> bool {
    magnitude(w) > INFINITY
}

/// The place of a word in the order of the values: the magnitude, negated
/// under a sign bit. Both zeros have rank zero.
pub open spec fn rank(w: u64) -> int {
    if w >= SIGN_BIT {
        -magnitude(w)
    } else {
        magnitude(w)
    }
}

/// `a < b` as values: both are numbers and `a` ranks lower.
pub open spec fn less(a: u64, b: u64) -> bool {
    !is_nan(a) && !is_nan(b) && rank(a) < rank(b)
}

/// `w` held between `lo` and `hi`; a word that is not a number stays as it is.
pub open spec fn clamp_spec(w: u64, lo: u64, hi: u64) -> u64 {
    if less(w, lo) {
        lo
    } else if less(hi, w) {
        hi
    } else {
        w
    }
}

/// What a clamp does to a word.
#[derive(Clone, Copy, Debug, PartialEq, Eq)]
pub enum Correction {
    /// The word lies within the limits, or is not a number: it stays.
    Kept,
    /// The word lies below the lower limit, and is set to it.
    Raised,
    /// The word lies above the upper limit, and is set to it.
    Lowered,
}

/// What a clamp between `lo` and `hi` does to `w`.
pub open spec fn correction_spec(w: u64, lo: u64, hi: u64) -> Correction {
    if less(w, lo) {
        Correction::Raised
    } else if less(hi, w) {
        Correction::Lowered
    } else {
        Correction::Kept
    }
}

/// `w` held at or below `hi`; a word that is not a number stays as it is.
pub open spec fn cap_spec(w: u64, hi: u64) -> u64 {
    if less(hi, w) {
        hi
    } else {
        w
    }
}

/// `w` held at or above `lo`; a word that is not a number stays as it is.
pub open spec fn lift_spec(w: u64, lo: u64) -> u64 {
    if less(w, lo) {
        lo
    } else {
        w
    }
}

/// The larger of two words, where a word that is not a number loses to the
/// other; of two that rank alike, the first.
pub open spec fn larger_spec(a: u64, b: u64) -> u64 {
    if is_nan(a) || less(a, b) {
        b
    } else {
        a
    }
}

/// A pair of limits that a clamp can hold a word between.
pub open spec fn ordered_limits(lo: u64, hi: u64) -> bool {
    !is_nan(lo) && !is_nan(hi) && rank(lo) <= rank(hi)
}

/// A word without its sign bit: the word of the absolute value, and for a
/// word that is not a number the same word with the sign bit cleared.
pub fn absolute(w: u64) -> (r: u64)
    ensures
        r == magnitude(w),
        is_nan(r) == is_nan(w),
        !is_nan(w) ==> rank(r) == magnitude(w) && rank(r) >= 0,
{
    if w >= SIGN_BIT {
        w - SIGN_BIT
    } else {
        w
    }
}

/// Whether `w` is a number.
pub fn is_number(w: u64) -> (r: bool)
    ensures
        r == !is_nan(w),
{
    if w >= SIGN_BIT {
        w - SIGN_BIT <= INFINITY
    } else {
        w <= INFINITY
    }
}

/// Whether `a` is below `b` in the order of the values.
pub fn less_than(a: u64, b: u64) -> (r: bool)
    ensures
        r == less(a, b),
{
    if !is_number(a) || !is_number(b) {
        return false;
    }
    if a >= SIGN_BIT {
        if b >= SIGN_BIT {
            a > b
        } else {
            a > SIGN_BIT || b > 0
        }
    } else {
        b < SIGN_BIT && a < b
    }
}

/// Whether `w` is a number at or above zero; negative zero counts.
pub fn at_least_zero(w: u64) -> (r: bool)
    ensures
        r == (!is_nan(w) && rank(w) >= 0),
{
    is_number(w) && (w < SIGN_BIT || w == SIGN_BIT)
}

/// Holds `w` between `lo` and `hi`: a number below `lo` becomes `lo`, a
/// number above `hi` becomes `hi`, and every other word stays as it is.
pub fn clamp(w: u64, lo: u64, hi: u64) -> (r: u64)
    ensures
        r == clamp_spec(w, lo, hi),
        is_nan(w) ==> r == w,
        ordered_limits(lo, hi) && !is_nan(w) ==> rank(lo) <= rank(r) <= rank(hi),
{
    if less_than(w, lo) {
        lo
    } else if less_than(hi, w) {
        hi
    } else {
        w
    }
}

/// Tells what a clamp between `lo` and `hi` does to `w`, so that a
/// correction need not pass unseen.
pub fn correction(w: u64, lo: u64, hi: u64) -> (r: Correction)
    ensures
        r == correction_spec(w, lo, hi),
        r is Kept <==> clamp_spec(w, lo, hi) == w,
        r is Raised ==> clamp_spec(w, lo, hi) == lo,
        r is Lowered ==> clamp_spec(w, lo, hi) == hi,
{
    if less_than(w, lo) {
        Correction::Raised
    } else if less_than(hi, w) {
        Correction::Lowered
    } else {
        Correction::Kept
    }
}

/// Holds `w` at or below `hi`: a number above `hi` becomes `hi`, and every
/// other word stays as it is.
pub fn cap(w: u64, hi: u64) -> (r: u64)
    ensures
        r == cap_spec(w, hi),
        !is_nan(hi) && !is_nan(w) ==> rank(r) <= rank(hi),
{
    if less_than(hi, w) {
        hi
    } else {
        w
    }
}

/// Holds `w` at or above `lo`: a number below `lo` becomes `lo`, and every
/// other word stays as it is.
pub fn lift(w: u64, lo: u64) -> (r: u64)
    ensures
        r == lift_spec(w, lo),
        !is_nan(lo) && !is_nan(w) ==> rank(r) >= rank(lo),
{
    if less_than(w, lo) {
        lo
    } else {
        w
    }
}

/// The larger of `a` and `b`, where a word that is not a number loses to the
/// other.
pub fn larger(a: u64, b: u64) -> (r: u64)
    ensures
        r == larger_spec(a, b),
        !is_nan(b) ==> !is_nan(r) && rank(r) >= rank(b),
{
    if !is_number(a) || less_than(a, b) {
        b
    } else {
        a
    }
}

/// A clamp changes nothing in a word that it has already clamped.
pub proof fn lemma_clamp_idempotent(w: u64, lo: u64, hi: u64)
    requires
        ordered_limits(lo, hi),
    ensures
        clamp_spec(clamp_spec(w, lo, hi), lo, hi) == clamp_spec(w, lo, hi),
{
}

/// A cap changes nothing in a word that it has already capped.
pub proof fn lemma_cap_idempotent(w: u64, hi: u64)
    ensures
        cap_spec(cap_spec(w, hi), hi) == cap_spec(w, hi),
{
}

/// A lift changes nothing in a word that it has already lifted.
pub proof fn lemma_lift_idempotent(w: u64, lo: u64)
    ensures
        lift_spec(lift_spec(w, lo), lo) == lift_spec(w, lo),
{
}

/// Taking the larger of a word and a number changes nothing in a word that
/// already came out of it.
pub proof fn lemma_larger_idempotent(w: u64, lo: u64)
    ensures
        larger_spec(larger_spec(w, lo), lo) == larger_spec(w, lo),
{
}

/// A clamp is a lift followed by a cap.
pub proof fn lemma_clamp_is_lift_then_cap(w: u64, lo: u64, hi: u64)
    requires
        ordered_limits(lo, hi),
    ensures
        clamp_spec(w, lo, hi) == cap_spec(lift_spec(w, lo), hi),
{
}

/// A clamp leaves a number that lies between the limits as it is, and no
/// other number.
pub proof fn lemma_clamp_fixes_range(w: u64, lo: u64, hi: u64)
    requires
        ordered_limits(lo, hi),
        !is_nan(w),
    ensures
        rank(lo) <= rank(w) <= rank(hi) ==> clamp_spec(w, lo, hi) == w,
        rank(w) < rank(lo) ==> clamp_spec(w, lo, hi) == lo,
        rank(w) > rank(hi) ==> clamp_spec(w, lo, hi) == hi,
{
}

/// Clamping keeps the order: of two numbers, the lower one never comes out
/// above the other.
pub proof fn lemma_clamp_monotone(a: u64, b: u64, lo: u64, hi: u64)
    requires
        ordered_limits(lo, hi),
        !is_nan(a),
        !is_nan(b),
        rank(a) <= rank(b),
    ensures
        rank(clamp_spec(a, lo, hi)) <= rank(clamp_spec(b, lo, hi)),
{
}

} // verus!
