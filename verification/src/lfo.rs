//! The low-frequency oscillator: a phase that grows by a step with every
//! sample and starts over once it has gone round.
//!
//! The host adds the step to the phase, and takes one turn off where the
//! phase has gone past a turn. Whether it has is decided here.

use crate::sample::{less, less_than};
use vstd::prelude::*;

verus! {

/// One turn of an oscillator: the word of two pi.
pub const TWO_PI: u64 = 0x4019_21FB_5444_2D18;

/// Whether a phase has gone past one turn, so that a turn is to be taken off
/// it. A phase of exactly one turn stays, and so does a word that is not a
/// number.
pub fn wraps(phase: u64) -> (r: bool)
    ensures
        r == less(TWO_PI, phase),
{
    less_than(TWO_PI, phase)
}

} // verus!
