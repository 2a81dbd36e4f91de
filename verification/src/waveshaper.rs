//! The waveshaper: a gain, a static nonlinear curve, and a second gain.
//!
//! This file holds the configuration and the choice between the two halves of
//! an asymmetric shaper. The curves themselves are the host's arithmetic.

use crate::sample::{
    absolute, at_least_zero, is_nan, larger, larger_spec, lemma_larger_idempotent,
    lemma_lift_idempotent, less_than, lift, lift_spec, magnitude, rank, HALF, MINUS_HALF,
    MINUS_ONE, ONE, ZERO,
};
use vstd::prelude::*;

verus! {

/// The curves that a waveshaper can apply.
#[allow(non_camel_case_types)]
#[derive(Clone, Copy, Debug, PartialEq, Eq)]
pub enum ShapeType {
    ARRY,
    SIG,
    SIG2,
    TANH,
    ATAN,
    FEXP1,
    FEXP2,
    EXP,
    ATSR,
    SQS,
    CUBE,
    HCLIP,
    HWR,
    FWR,
    ASQRT,
}

impl ShapeType {
    /// Whether the curve takes the saturation as its drive: the sigmoid, the
    /// hyperbolic tangent, the arc tangent and the first exponential do.
    pub open spec fn driven(self) -> bool {
        self is SIG || self is TANH || self is ATAN || self is FEXP1
    }

    /// Whether the curve takes the saturation as its drive.
    pub fn uses_saturation(&self) -> (r: bool)
        ensures
            r == self.driven(),
    {
        match self {
            ShapeType::SIG | ShapeType::TANH | ShapeType::ATAN | ShapeType::FEXP1 => true,
            _ => false,
        }
    }
}

/// The sign of a sample: one for a number at or above zero, negative zero
/// too, and minus one for every other word.
pub open spec fn sgn_spec(x: u64) -> u64 {
    if !is_nan(x) && rank(x) >= 0 {
        ONE
    } else {
        MINUS_ONE
    }
}

/// A sample clipped hard at one half: a number beyond one half either way
/// becomes one half with its sign, every other word stays.
pub open spec fn hclip_spec(x: u64) -> u64 {
    if !is_nan(x) && magnitude(x) > HALF {
        if rank(x) >= 0 {
            HALF
        } else {
            MINUS_HALF
        }
    } else {
        x
    }
}

/// The sign of a sample, as a sample: one or minus one.
pub fn sgn(x: u64) -> (r: u64)
    ensures
        r == sgn_spec(x),
{
    if at_least_zero(x) {
        ONE
    } else {
        MINUS_ONE
    }
}

/// The full-wave rectifier: the absolute value of a sample.
pub fn fwr(x: u64) -> (r: u64)
    ensures
        r == magnitude(x),
        !is_nan(x) ==> !is_nan(r) && rank(r) >= 0 && (rank(r) == rank(x) || rank(r) == -rank(x)),
{
    absolute(x)
}

/// The hard clipper: a sample held between minus one half and one half.
pub fn hclip(x: u64) -> (r: u64)
    ensures
        r == hclip_spec(x),
        !is_nan(x) ==> !is_nan(r) && rank(MINUS_HALF) <= rank(r) <= rank(HALF),
{
    if less_than(HALF, absolute(x)) {
        if at_least_zero(x) {
            HALF
        } else {
            MINUS_HALF
        }
    } else {
        x
    }
}

/// A waveshaper as the contracts see it.
pub struct WaveshaperView {
    pub shape_type: ShapeType,
    pub saturation: u64,
    pub pre_gain: u64,
    pub post_gain: u64,
}

impl WaveshaperView {
    /// The settings as a waveshaper stores them: a saturation below zero is
    /// raised to zero, and each gain is the larger of itself and zero, so that
    /// a gain that is not a number becomes zero.
    pub open spec fn corrected(
        shape_type: ShapeType,
        saturation: u64,
        pre_gain: u64,
        post_gain: u64,
    ) -> WaveshaperView {
        WaveshaperView {
            shape_type,
            saturation: lift_spec(saturation, ZERO),
            pre_gain: larger_spec(pre_gain, ZERO),
            post_gain: larger_spec(post_gain, ZERO),
        }
    }

    /// What every waveshaper holds of its view: its settings are corrected,
    /// and both gains are numbers at or above zero.
    pub open spec fn wf(self) -> bool {
        &&& self == Self::corrected(
            self.shape_type,
            self.saturation,
            self.pre_gain,
            self.post_gain,
        )
        &&& !is_nan(self.pre_gain) && rank(self.pre_gain) >= 0
        &&& !is_nan(self.post_gain) && rank(self.post_gain) >= 0
        &&& !is_nan(self.saturation) ==> rank(self.saturation) >= 0
    }
}

/// A waveshaper's settings, fixed at construction.
#[derive(Clone, Copy, Debug, PartialEq, Eq)]
pub struct Waveshaper {
    shape_type: ShapeType,
    saturation: u64,
    pre_gain: u64,
    post_gain: u64,
}

impl View for Waveshaper {
    type V = WaveshaperView;

    closed spec fn view(&self) -> WaveshaperView {
        WaveshaperView {
            shape_type: self.shape_type,
            saturation: self.saturation,
            pre_gain: self.pre_gain,
            post_gain: self.post_gain,
        }
    }
}

impl Waveshaper {
    #[verifier::type_invariant]
    spec fn inv(self) -> bool {
        self@.wf()
    }

    /// A waveshaper with the given curve. A saturation or a gain below zero
    /// is set to zero.
    pub fn new(shape_type: ShapeType, saturation: u64, pre_gain: u64, post_gain: u64) -> (shaper:
        Self)
        ensures
            shaper@ == WaveshaperView::corrected(shape_type, saturation, pre_gain, post_gain),
            shaper@.wf(),
    {
        proof {
            lemma_lift_idempotent(saturation, ZERO);
            lemma_larger_idempotent(pre_gain, ZERO);
            lemma_larger_idempotent(post_gain, ZERO);
        }
        Waveshaper {
            shape_type,
            saturation: lift(saturation, ZERO),
            pre_gain: larger(pre_gain, ZERO),
            post_gain: larger(post_gain, ZERO),
        }
    }

    /// The curve.
    pub fn shape_type(&self) -> (shape_type: ShapeType)
        ensures
            shape_type == self@.shape_type,
    {
        self.shape_type
    }

    /// The drive of the curves that take one.
    pub fn saturation(&self) -> (saturation: u64)
        ensures
            saturation == self@.saturation,
            self@.wf(),
    {
        proof {
            use_type_invariant(self);
        }
        self.saturation
    }

    /// The gain before the curve.
    pub fn pre_gain(&self) -> (pre_gain: u64)
        ensures
            pre_gain == self@.pre_gain,
            self@.wf(),
    {
        proof {
            use_type_invariant(self);
        }
        self.pre_gain
    }

    /// The gain after the curve.
    pub fn post_gain(&self) -> (post_gain: u64)
        ensures
            post_gain == self@.post_gain,
            self@.wf(),
    {
        proof {
            use_type_invariant(self);
        }
        self.post_gain
    }
}

/// An asymmetric waveshaper as the contracts see it.
pub struct AssymetricView {
    /// The shaper of the samples at or above zero.
    pub up: WaveshaperView,
    /// The shaper of the samples below zero.
    pub down: WaveshaperView,
    pub saturation: u64,
    pub pre_gain: u64,
    pub post_gain: u64,
}

impl AssymetricView {
    /// The settings as an asymmetric waveshaper stores them: corrected as a
    /// waveshaper's are, and shared by its two halves.
    pub open spec fn corrected(
        up_shape: ShapeType,
        down_shape: ShapeType,
        saturation: u64,
        pre_gain: u64,
        post_gain: u64,
    ) -> AssymetricView {
        AssymetricView {
            up: WaveshaperView::corrected(up_shape, saturation, pre_gain, post_gain),
            down: WaveshaperView::corrected(down_shape, saturation, pre_gain, post_gain),
            saturation: lift_spec(saturation, ZERO),
            pre_gain: larger_spec(pre_gain, ZERO),
            post_gain: larger_spec(post_gain, ZERO),
        }
    }

    /// What every asymmetric waveshaper holds of its view: the two halves
    /// have the settings of the whole, and differ in their curve at most.
    pub open spec fn wf(self) -> bool {
        &&& self.up.wf()
        &&& self.down.wf()
        &&& self.up == (WaveshaperView {
            shape_type: self.up.shape_type,
            saturation: self.saturation,
            pre_gain: self.pre_gain,
            post_gain: self.post_gain,
        })
        &&& self.down == (WaveshaperView { shape_type: self.down.shape_type, ..self.up })
    }

    /// The half that shapes `scaled`, a sample after the first gain: the
    /// upper one for a number at or above zero, negative zero too, and the
    /// lower one for every other word.
    pub open spec fn half_for(self, scaled: u64) -> WaveshaperView {
        if !is_nan(scaled) && rank(scaled) >= 0 {
            self.up
        } else {
            self.down
        }
    }
}

/// An asymmetric waveshaper's settings: one curve for the samples at or
/// above zero and one for those below, with the same gains and saturation.
#[derive(Clone, Copy, Debug, PartialEq, Eq)]
pub struct AssymetricWaveshaper {
    up_shaper: Waveshaper,
    down_shaper: Waveshaper,
    saturation: u64,
    pre_gain: u64,
    post_gain: u64,
}

impl View for AssymetricWaveshaper {
    type V = AssymetricView;

    closed spec fn view(&self) -> AssymetricView {
        AssymetricView {
            up: self.up_shaper@,
            down: self.down_shaper@,
            saturation: self.saturation,
            pre_gain: self.pre_gain,
            post_gain: self.post_gain,
        }
    }
}

impl AssymetricWaveshaper {
    #[verifier::type_invariant]
    spec fn inv(self) -> bool {
        self@.wf()
    }

    /// An asymmetric waveshaper with the given two curves. A saturation or a
    /// gain below zero is set to zero.
    pub fn new(
        up_shape: ShapeType,
        down_shape: ShapeType,
        saturation: u64,
        pre_gain: u64,
        post_gain: u64,
    ) -> (shaper: Self)
        ensures
            shaper@ == AssymetricView::corrected(
                up_shape,
                down_shape,
                saturation,
                pre_gain,
                post_gain,
            ),
            shaper@.wf(),
    {
        let saturation = lift(saturation, ZERO);
        let pre_gain = larger(pre_gain, ZERO);
        let post_gain = larger(post_gain, ZERO);
        proof {
            lemma_lift_idempotent(saturation, ZERO);
            lemma_larger_idempotent(pre_gain, ZERO);
            lemma_larger_idempotent(post_gain, ZERO);
        }
        AssymetricWaveshaper {
            up_shaper: Waveshaper::new(up_shape, saturation, pre_gain, post_gain),
            down_shaper: Waveshaper::new(down_shape, saturation, pre_gain, post_gain),
            saturation,
            pre_gain,
            post_gain,
        }
    }

    /// The half that shapes `scaled`, a sample after the first gain.
    pub fn select(&self, scaled: u64) -> (half: Waveshaper)
        ensures
            half@ == self@.half_for(scaled),
            self@.wf(),
    {
        proof {
            use_type_invariant(self);
        }
        if at_least_zero(scaled) {
            self.up_shaper
        } else {
            self.down_shaper
        }
    }

    /// The drive of the curves that take one.
    pub fn saturation(&self) -> (saturation: u64)
        ensures
            saturation == self@.saturation,
    {
        self.saturation
    }

    /// The gain before the curves.
    pub fn pre_gain(&self) -> (pre_gain: u64)
        ensures
            pre_gain == self@.pre_gain,
    {
        self.pre_gain
    }

    /// The gain after the curves.
    pub fn post_gain(&self) -> (post_gain: u64)
        ensures
            post_gain == self@.post_gain,
    {
        self.post_gain
    }
}

/// The saturation of a shaper that is given none: one.
pub open spec fn saturation_or_one(saturation: Option<u64>) -> u64 {
    match saturation {
        Some(saturation) => saturation,
        None => ONE,
    }
}

/// A waveshaper with the given curve and gains, and with the saturation one
/// where none is given.
pub fn my_waveshaper(
    shape_type: ShapeType,
    pre_gain: u64,
    post_gain: u64,
    saturation: Option<u64>,
) -> (shaper: Waveshaper)
    ensures
        shaper@ == WaveshaperView::corrected(
            shape_type,
            saturation_or_one(saturation),
            pre_gain,
            post_gain,
        ),
        shaper@.wf(),
{
    match saturation {
        Some(saturation) => Waveshaper::new(shape_type, saturation, pre_gain, post_gain),
        None => Waveshaper::new(shape_type, ONE, pre_gain, post_gain),
    }
}

/// An asymmetric waveshaper with the given curves and gains, and with the
/// saturation one where none is given.
pub fn my_assymetric_waveshaper(
    up_shape: ShapeType,
    down_shape: ShapeType,
    pre_gain: u64,
    post_gain: u64,
    saturation: Option<u64>,
) -> (shaper: AssymetricWaveshaper)
    ensures
        shaper@ == AssymetricView::corrected(
            up_shape,
            down_shape,
            saturation_or_one(saturation),
            pre_gain,
            post_gain,
        ),
        shaper@.wf(),
{
    match saturation {
        Some(saturation) => AssymetricWaveshaper::new(
            up_shape,
            down_shape,
            saturation,
            pre_gain,
            post_gain,
        ),
        None => AssymetricWaveshaper::new(up_shape, down_shape, ONE, pre_gain, post_gain),
    }
}

/// The hard clipper changes nothing in a sample that it has already clipped,
/// and the rectifier nothing in one that it has already rectified.
pub proof fn lemma_clip_idempotent(x: u64)
    ensures
        hclip_spec(hclip_spec(x)) == hclip_spec(x),
        magnitude(magnitude(x) as u64) == magnitude(x),
{
}

/// The three curves that need no arithmetic keep silence: the clipper and
/// the rectifier give silence for silence. The sign of silence is one.
pub proof fn lemma_curves_at_silence()
    ensures
        hclip_spec(ZERO) == ZERO,
        magnitude(ZERO) == ZERO,
        sgn_spec(ZERO) == ONE,
{
}

/// Correcting settings that are already corrected changes nothing: a
/// waveshaper built from the settings of another is that other.
pub proof fn lemma_corrected_idempotent(
    shape_type: ShapeType,
    saturation: u64,
    pre_gain: u64,
    post_gain: u64,
)
    ensures
        ({
            let once = WaveshaperView::corrected(shape_type, saturation, pre_gain, post_gain);
            WaveshaperView::corrected(
                once.shape_type,
                once.saturation,
                once.pre_gain,
                once.post_gain,
            ) == once && once.wf()
        }),
{
    lemma_lift_idempotent(saturation, ZERO);
    lemma_larger_idempotent(pre_gain, ZERO);
    lemma_larger_idempotent(post_gain, ZERO);
}

} // verus!
