//! Why a construction was refused.

use vstd::prelude::*;

verus! {

/// A configuration that no node can be built from. Values out of their range
/// are corrected, not refused; what is refused is a length that would let a
/// recurrence read outside its history, or a divisor of zero.
#[derive(Clone, Copy, Debug, PartialEq, Eq)]
pub enum ConfigError {
    /// A delay line was asked for with no room for a single sample.
    ZeroCapacity,
    /// A delay line was asked for with more room than the crate allots.
    CapacityTooLarge,
    /// A delay of zero samples was given to a comb or an allpass.
    ZeroDelay,
    /// A delay reaches past the history that the node keeps.
    DelayTooLong,
    /// The modulation of a delay would reach past the newest sample.
    DepthTooLarge,
    /// A quality factor of zero, which no second-order section can be
    /// synthesised from.
    ZeroQuality,
    /// A bank was given another number of delays or gains than its wiring has
    /// filters.
    BankSize,
}

} // verus!
