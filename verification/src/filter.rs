//! The second-order section: seven coefficients and the two most recent
//! inputs and outputs.
//!
//! One step is a read of the history, the host's arithmetic, and a shift of
//! the history:
//!
//! ```text
//! y   = a0 * x + a1 * x1 + a2 * x2 - b0 * y1 - b1 * y2
//! out = c0 * y + d0 * x
//! ```
//!
//! It is `y`, not `out`, that enters the history.

use crate::error::ConfigError;
use crate::sample::{absolute, at_least_zero, is_nan, magnitude, rank, ONE, ZERO};
use vstd::prelude::*;

verus! {

/// The number of coefficients of a section.
pub const COEFFICIENTS: usize = 7;

/// The coefficients of a normalised second-order section: three on the
/// input side, two on the output side, and the wet and dry gains of the mix
/// that follows it.
#[derive(Clone, Copy, Debug, PartialEq, Eq)]
pub struct BiquadCoefficients {
    pub a0: u64,
    pub a1: u64,
    pub a2: u64,
    pub b0: u64,
    pub b1: u64,
    pub c0: u64,
    pub d0: u64,
}

impl BiquadCoefficients {
    /// The seven coefficients in their order.
    pub fn new(a0: u64, a1: u64, a2: u64, b0: u64, b1: u64, c0: u64, d0: u64) -> (coeffs: Self)
        ensures
            coeffs == (BiquadCoefficients { a0, a1, a2, b0, b1, c0, d0 }),
    {
        BiquadCoefficients { a0, a1, a2, b0, b1, c0, d0 }
    }

    /// The coefficients of an ordinary section, a low-pass, high-pass,
    /// band-pass, notch or allpass: all of the output is the filtered signal,
    /// so the wet gain is one and the dry gain zero.
    pub fn ordinary(a0: u64, a1: u64, a2: u64, b0: u64, b1: u64) -> (coeffs: Self)
        ensures
            coeffs == (BiquadCoefficients { a0, a1, a2, b0, b1, c0: ONE, d0: ZERO }),
        no_unwind
    {
        BiquadCoefficients { a0, a1, a2, b0, b1, c0: ONE, d0: ZERO }
    }

    /// The coefficients of a shelving section: the output is the input plus
    /// the filtered signal at the wet gain `c0`, so the dry gain is one.
    pub fn shelving(a0: u64, a1: u64, a2: u64, b0: u64, b1: u64, c0: u64) -> (coeffs: Self)
        ensures
            coeffs == (BiquadCoefficients { a0, a1, a2, b0, b1, c0, d0: ONE }),
    {
        BiquadCoefficients { a0, a1, a2, b0, b1, c0, d0: ONE }
    }

    /// The coefficients of the first-order allpass section of coefficient
    /// `alpha`: `y = alpha * x + x1 - alpha * y1`.
    pub open spec fn allpass_of(alpha: u64) -> BiquadCoefficients {
        BiquadCoefficients {
            a0: alpha,
            a1: ONE,
            a2: ZERO,
            b0: alpha,
            b1: ZERO,
            c0: ONE,
            d0: ZERO,
        }
    }

    /// The coefficients of the first-order allpass section of coefficient
    /// `alpha`.
    pub fn first_order_allpass(alpha: u64) -> (coeffs: Self)
        ensures
            coeffs == Self::allpass_of(alpha),
        no_unwind
    {
        BiquadCoefficients::ordinary(alpha, ONE, ZERO, alpha, ZERO)
    }

    /// The coefficient at place `i` of the order `a0, a1, a2, b0, b1, c0, d0`.
    pub open spec fn nth(self, i: int) -> u64 {
        if i == 0 {
            self.a0
        } else if i == 1 {
            self.a1
        } else if i == 2 {
            self.a2
        } else if i == 3 {
            self.b0
        } else if i == 4 {
            self.b1
        } else if i == 5 {
            self.c0
        } else {
            self.d0
        }
    }
}

/// Checks the quality factor of a second-order section before its
/// coefficients are synthesised. The synthesis divides by the quality, so a
/// quality of zero, of either sign, is refused; every other word is handed
/// back as it is.
pub fn quality(q: u64) -> (r: Result<u64, ConfigError>)
    ensures
        magnitude(q) == 0 <==> r == Err::<u64, ConfigError>(ConfigError::ZeroQuality),
        magnitude(q) != 0 <==> r == Ok::<u64, ConfigError>(q),
{
    if absolute(q) == 0 {
        Err(ConfigError::ZeroQuality)
    } else {
        Ok(q)
    }
}

/// What a shelving section of a given gain does.
#[derive(Clone, Copy, Debug, PartialEq, Eq)]
pub enum ShelfKind {
    /// The gain is zero decibels: the shelf is level, and the section hands
    /// its input through.
    Flat,
    /// The gain raises or lowers the shelf.
    Shelving,
}

/// What a shelving section of the given gain, in decibels, does: it is flat
/// for a gain of zero, of either sign, and shelving for every other word.
pub open spec fn shelf_kind_spec(gain: u64) -> ShelfKind {
    if magnitude(gain) == 0 {
        ShelfKind::Flat
    } else {
        ShelfKind::Shelving
    }
}

/// What a shelving section of the given gain does.
pub fn shelf_kind(gain: u64) -> (kind: ShelfKind)
    ensures
        kind == shelf_kind_spec(gain),
{
    if absolute(gain) == 0 {
        ShelfKind::Flat
    } else {
        ShelfKind::Shelving
    }
}

/// The coefficients of a section that hands its input through: no wet
/// signal, and the dry signal at unit gain.
pub open spec fn through_spec() -> BiquadCoefficients {
    BiquadCoefficients {
        a0: ZERO,
        a1: ZERO,
        a2: ZERO,
        b0: ZERO,
        b1: ZERO,
        c0: ZERO,
        d0: ONE,
    }
}

/// The coefficients of a section that hands its input through.
pub fn through() -> (coeffs: BiquadCoefficients)
    ensures
        coeffs == through_spec(),
{
    BiquadCoefficients { a0: ZERO, a1: ZERO, a2: ZERO, b0: ZERO, b1: ZERO, c0: ZERO, d0: ONE }
}

/// The two normalisations of a peaking section.
#[derive(Clone, Copy, Debug, PartialEq, Eq)]
pub enum PeakKind {
    /// The gain raises the band: the denominator is that of the unit-gain
    /// section.
    Boost,
    /// The gain lowers the band: the denominator carries the gain.
    Cut,
}

/// The normalisation that a peaking section of the given gain, in decibels,
/// takes: a boost for a number at or above zero, negative zero too, and a
/// cut for every other word.
pub open spec fn peak_kind_spec(gain: u64) -> PeakKind {
    if !is_nan(gain) && rank(gain) >= 0 {
        PeakKind::Boost
    } else {
        PeakKind::Cut
    }
}

/// The normalisation that a peaking section of the given gain takes.
pub fn peak_kind(gain: u64) -> (kind: PeakKind)
    ensures
        kind == peak_kind_spec(gain),
{
    if at_least_zero(gain) {
        PeakKind::Boost
    } else {
        PeakKind::Cut
    }
}

/// The two most recent inputs and outputs of a section.
#[derive(Clone, Copy, Debug, PartialEq, Eq)]
pub struct BiquadHistory {
    /// The input of the last step.
    pub x1: u64,
    /// The input of the step before.
    pub x2: u64,
    /// The output of the last step.
    pub y1: u64,
    /// The output of the step before.
    pub y2: u64,
}

impl BiquadHistory {
    /// The history after a step with input `x` and output `y`.
    pub open spec fn shifted(self, x: u64, y: u64) -> BiquadHistory {
        BiquadHistory { x1: x, x2: self.x1, y1: y, y2: self.y1 }
    }

    /// The history of a section that has heard and said nothing.
    pub open spec fn silent() -> BiquadHistory {
        BiquadHistory { x1: ZERO, x2: ZERO, y1: ZERO, y2: ZERO }
    }
}

/// A section as the contracts see it.
pub struct BiquadView {
    pub coeffs: BiquadCoefficients,
    pub history: BiquadHistory,
}

impl BiquadView {
    /// The section after a step with input `x` and output `y`.
    pub open spec fn advanced(self, x: u64, y: u64) -> BiquadView {
        BiquadView { history: self.history.shifted(x, y), ..self }
    }

    /// The section after a run over `inputs` in which the host computes by
    /// `kernel`, from the coefficients, the history and the input, the value
    /// that enters the history.
    pub open spec fn run(
        self,
        kernel: spec_fn(BiquadCoefficients, BiquadHistory, u64) -> u64,
        inputs: Seq<u64>,
    ) -> BiquadView
        decreases inputs.len(),
    {
        if inputs.len() == 0 {
            self
        } else {
            let before = self.run(kernel, inputs.drop_last());
            before.advanced(inputs.last(), kernel(before.coeffs, before.history, inputs.last()))
        }
    }
}

/// A second-order section's state. The history belongs to this one section;
/// the coefficients can be replaced between steps.
#[derive(Clone, Copy, Debug, PartialEq, Eq)]
pub struct BiquadFilter {
    coeffs: BiquadCoefficients,
    x1: u64,
    x2: u64,
    y1: u64,
    y2: u64,
}

impl View for BiquadFilter {
    type V = BiquadView;

    closed spec fn view(&self) -> BiquadView {
        BiquadView {
            coeffs: self.coeffs,
            history: BiquadHistory { x1: self.x1, x2: self.x2, y1: self.y1, y2: self.y2 },
        }
    }
}

impl BiquadFilter {
    /// A section with the given coefficients and a silent history.
    pub fn new(coeffs: BiquadCoefficients) -> (filter: Self)
        ensures
            filter@ == (BiquadView { coeffs, history: BiquadHistory::silent() }),
    {
        BiquadFilter { coeffs, x1: ZERO, x2: ZERO, y1: ZERO, y2: ZERO }
    }

    /// The history that the next step reads.
    pub fn history(&self) -> (history: BiquadHistory)
        ensures
            history == self@.history,
    {
        BiquadHistory { x1: self.x1, x2: self.x2, y1: self.y1, y2: self.y2 }
    }

    /// Ends a step: the input `x` and the output `y` that the host computed
    /// become the most recent pair, the pair before them the second, and the
    /// oldest pair is gone.
    pub fn advance(&mut self, x: u64, y: u64)
        ensures
            final(self)@ == old(self)@.advanced(x, y),
        no_unwind
    {
        self.x2 = self.x1;
        self.x1 = x;
        self.y2 = self.y1;
        self.y1 = y;
    }

    /// Replaces the coefficients; the history stays.
    pub fn set_coefficients(&mut self, coeffs: BiquadCoefficients)
        ensures
            final(self)@ == (BiquadView { coeffs, ..old(self)@ }),
        no_unwind
    {
        self.coeffs = coeffs;
    }

    /// The coefficients.
    pub fn coefficients(&self) -> (coeffs: BiquadCoefficients)
        ensures
            coeffs == self@.coeffs,
    {
        self.coeffs
    }

    /// The coefficient at place `i` of the order `a0, a1, a2, b0, b1, c0, d0`.
    pub fn get_coefficient(&self, i: usize) -> (c: u64)
        requires
            i < COEFFICIENTS,
        ensures
            c == self@.coeffs.nth(i as int),
    {
        if i == 0 {
            self.coeffs.a0
        } else if i == 1 {
            self.coeffs.a1
        } else if i == 2 {
            self.coeffs.a2
        } else if i == 3 {
            self.coeffs.b0
        } else if i == 4 {
            self.coeffs.b1
        } else if i == 5 {
            self.coeffs.c0
        } else {
            self.coeffs.d0
        }
    }

    /// The coefficient at place `i`, or `None` where a section has no such
    /// coefficient.
    pub fn try_get_coefficient(&self, i: usize) -> (c: Option<u64>)
        ensures
            c == if i < COEFFICIENTS {
                Some(self@.coeffs.nth(i as int))
            } else {
                None
            },
    {
        if i < COEFFICIENTS {
            Some(self.get_coefficient(i))
        } else {
            None
        }
    }

    /// Returns the history to silence; the coefficients stay.
    pub fn reset(&mut self)
        ensures
            final(self)@ == (BiquadView { history: BiquadHistory::silent(), ..old(self)@ }),
        no_unwind
    {
        self.x1 = ZERO;
        self.x2 = ZERO;
        self.y1 = ZERO;
        self.y2 = ZERO;
    }
}

/// A section remembers two steps and no more: after two steps its history is
/// made of their inputs and outputs, whatever it held before.
pub proof fn lemma_two_steps(v: BiquadView, x: u64, y: u64, next_x: u64, next_y: u64)
    ensures
        v.advanced(x, y).advanced(next_x, next_y).history == (BiquadHistory {
            x1: next_x,
            x2: x,
            y1: next_y,
            y2: y,
        }),
        v.advanced(x, y).advanced(next_x, next_y).coeffs == v.coeffs,
{
}

/// Silence in, silence out, as far as the history goes: a step that takes
/// silence and gives silence leaves a silent section as it was.
pub proof fn lemma_silence(v: BiquadView)
    requires
        v.history == BiquadHistory::silent(),
    ensures
        v.advanced(ZERO, ZERO) == v,
{
}

/// A run is determined by its start, the host and the inputs: two sections
/// with the same view hand out the same history, the same step leads them to
/// the same view, and so does the same run under the same host.
pub proof fn lemma_determined(
    a: BiquadFilter,
    b: BiquadFilter,
    x: u64,
    y: u64,
    kernel: spec_fn(BiquadCoefficients, BiquadHistory, u64) -> u64,
    inputs: Seq<u64>,
)
    requires
        a@ == b@,
    ensures
        a@.history == b@.history,
        a@.advanced(x, y) == b@.advanced(x, y),
        a@.run(kernel, inputs) == b@.run(kernel, inputs),
{
}

/// Silence in, silence out: where the host gives silence for silence over a
/// silent history, a silent section that is fed silence is left as it was,
/// so that every step of the run reads a silent history.
pub proof fn lemma_silent_run(
    v: BiquadView,
    kernel: spec_fn(BiquadCoefficients, BiquadHistory, u64) -> u64,
    inputs: Seq<u64>,
)
    requires
        v.history == BiquadHistory::silent(),
        kernel(v.coeffs, BiquadHistory::silent(), ZERO) == ZERO,
        forall|n: int| 0 <= n < inputs.len() ==> inputs[n] == ZERO,
    ensures
        v.run(kernel, inputs) == v,
    decreases inputs.len(),
{
    if inputs.len() > 0 {
        lemma_silent_run(v, kernel, inputs.drop_last());
    }
}

} // verus!
