//! The phaser: a cascade of first-order allpass sections whose cutoffs an
//! oscillator sweeps, in a feedback loop.
//!
//! One step reads the feedback tap, runs the signal through the active
//! sections in their order, and ends with a push. The host's arithmetic is
//!
//! ```text
//! phased = x + feedback * feedback_tap
//! for each active section i, in order:
//!     cutoff = lerp(low_i, high_i, clamp(sin(lfo) * depth + offset, -1, 1))
//!     t      = tan(pi * cutoff / sample_rate)
//!     alpha  = (t - 1) / (t + 1)
//!     phased = section i, as the allpass of coefficient alpha, on phased
//! lfo    = lfo + 2 * pi * rate / sample_rate, less 2 * pi once it is above that
//! y      = x + intensity * phased
//! ```
//!
//! The oscillator moves once in a step, not once for each section.

use crate::filter::{BiquadCoefficients, BiquadFilter, BiquadHistory, BiquadView};
use crate::line::{is_silent, lemma_silence_stays, pushed, silence, DelayLine};
use crate::sample::{clamp, clamp_spec, lemma_clamp_idempotent, MINUS_ONE, ONE, ZERO};
use vstd::pervasive::unreached;
use vstd::prelude::*;

verus! {

/// The number of samples that a phaser keeps of its phased signal.
pub const PHASER_CAPACITY: usize = 20_550;

/// The number of allpass sections of a phaser.
pub const SECTIONS: usize = 6;

/// The highest rate of the oscillator, in hertz: 50.
pub const MAX_RATE: u64 = 0x4049_0000_0000_0000;

/// The largest number of stages. A stage is a pair of sections, and makes
/// one notch.
pub const MAX_STAGES: usize = 3;

/// The two ends between which the cutoff of a section is swept, in hertz.
#[derive(Clone, Copy, Debug, PartialEq, Eq)]
pub struct Sweep {
    pub low: u64,
    pub high: u64,
}

/// The ends of the sweep of section `i`, as sample words: 16 and 1600,
/// 33 and 3300, 48 and 4800, 98 and 9800, 160 and 16000, 260 and 20480.
pub open spec fn sweep_of(i: int) -> Sweep {
    if i == 0 {
        Sweep { low: 0x4030_0000_0000_0000, high: 0x4099_0000_0000_0000 }
    } else if i == 1 {
        Sweep { low: 0x4040_8000_0000_0000, high: 0x40A9_C800_0000_0000 }
    } else if i == 2 {
        Sweep { low: 0x4048_0000_0000_0000, high: 0x40B2_C000_0000_0000 }
    } else if i == 3 {
        Sweep { low: 0x4058_8000_0000_0000, high: 0x40C3_2400_0000_0000 }
    } else if i == 4 {
        Sweep { low: 0x4064_0000_0000_0000, high: 0x40CF_4000_0000_0000 }
    } else {
        Sweep { low: 0x4070_4000_0000_0000, high: 0x40D4_0000_0000_0000 }
    }
}

/// The number of stages that a phaser runs when it is asked for `stages`:
/// at least one, at most three.
pub open spec fn stages_held(stages: usize) -> usize {
    if stages < 1 {
        1
    } else if stages > MAX_STAGES {
        MAX_STAGES
    } else {
        stages
    }
}

/// The settings of a phaser.
#[derive(Clone, Copy, Debug, PartialEq, Eq)]
pub struct PhaserConfig {
    /// The sample rate in hertz.
    pub sample_rate: u64,
    /// The gain of the feedback loop, in `[0, 1]`.
    pub feedback: u64,
    /// The rate of the oscillator in hertz, in `[0, 50]`.
    pub rate: u64,
    /// The width of the sweep, in `[0, 1]`.
    pub depth: u64,
    /// The centre of the sweep, in `[-1, 1]`.
    pub offset: u64,
    /// The share of the phased signal in the output, in `[0, 1]`.
    pub intensity: u64,
    /// The number of stages, from one to three.
    pub stages: usize,
}

impl PhaserConfig {
    /// The settings as a phaser stores them: each held within its range.
    pub open spec fn corrected(self) -> PhaserConfig {
        PhaserConfig {
            sample_rate: self.sample_rate,
            feedback: clamp_spec(self.feedback, ZERO, ONE),
            rate: clamp_spec(self.rate, ZERO, MAX_RATE),
            depth: clamp_spec(self.depth, ZERO, ONE),
            offset: clamp_spec(self.offset, MINUS_ONE, ONE),
            intensity: clamp_spec(self.intensity, ZERO, ONE),
            stages: stages_held(self.stages),
        }
    }
}

/// A phaser as the contracts see it.
pub struct PhaserView {
    pub config: PhaserConfig,
    pub sections: Seq<BiquadView>,
    /// The phased signal so far, newest first.
    pub phased: Seq<u64>,
    /// The phase of the oscillator.
    pub lfo: u64,
}

impl PhaserView {
    /// A phaser as it is built: the settings corrected, every section a
    /// first-order allpass of its coefficient with a silent history, a history
    /// of silence, and the oscillator at zero.
    pub open spec fn fresh(config: PhaserConfig, alphas: Seq<u64>) -> PhaserView {
        PhaserView {
            config: config.corrected(),
            sections: Seq::new(
                SECTIONS as nat,
                |i: int|
                    BiquadView {
                        coeffs: BiquadCoefficients::allpass_of(alphas[i]),
                        history: BiquadHistory::silent(),
                    },
            ),
            phased: silence(PHASER_CAPACITY as nat),
            lfo: ZERO,
        }
    }

    /// What every phaser holds of its view.
    pub open spec fn wf(self) -> bool {
        &&& self.config == self.config.corrected()
        &&& 1 <= self.config.stages <= MAX_STAGES
        &&& sections_ok(self.sections)
        &&& self.phased.len() == PHASER_CAPACITY
    }

    /// The number of sections that a step runs through: two for each stage.
    pub open spec fn active(self) -> int {
        2 * self.config.stages
    }

    /// The phased signal of the last step, which the next one feeds back.
    pub open spec fn feedback_tap(self) -> u64 {
        self.phased[0]
    }

    /// The phaser after section `i` became the allpass of coefficient
    /// `alpha` and made a step with input `x` and output `y`.
    pub open spec fn section_advanced(self, i: int, alpha: u64, x: u64, y: u64) -> PhaserView {
        PhaserView {
            sections: self.sections.update(
                i,
                BiquadView {
                    coeffs: BiquadCoefficients::allpass_of(alpha),
                    history: self.sections[i].history.shifted(x, y),
                },
            ),
            ..self
        }
    }

    /// The phaser after the end of a step: `phased` is the newest sample of
    /// the feedback history, and the oscillator is at `lfo`.
    pub open spec fn finished(self, phased: u64, lfo: u64) -> PhaserView {
        PhaserView { phased: pushed(self.phased, phased), lfo, ..self }
    }

    /// The phaser with every history returned to silence and the oscillator
    /// to zero.
    pub open spec fn silenced(self) -> PhaserView {
        PhaserView {
            sections: Seq::new(
                self.sections.len(),
                |i: int|
                    BiquadView { coeffs: self.sections[i].coeffs, history: BiquadHistory::silent() },
            ),
            phased: silence(self.phased.len()),
            lfo: ZERO,
            ..self
        }
    }

    /// Whether the phaser has heard and said nothing but silence.
    pub open spec fn is_silent(self) -> bool {
        &&& is_silent(self.phased)
        &&& forall|i: int|
            0 <= i < self.sections.len() ==> (#[trigger] self.sections[i]).history
                == BiquadHistory::silent()
    }
}

/// What holds of the sections of a phaser: they are six, and each is a
/// first-order allpass.
pub open spec fn sections_ok(sections: Seq<BiquadView>) -> bool {
    &&& sections.len() == SECTIONS
    &&& forall|i: int|
        0 <= i < sections.len() ==> (#[trigger] sections[i]).coeffs
            == BiquadCoefficients::allpass_of(sections[i].coeffs.a0)
}

/// The views of a cascade of sections.
pub open spec fn section_views(sections: Seq<BiquadFilter>) -> Seq<BiquadView> {
    Seq::new(sections.len(), |i: int| sections[i]@)
}

/// A phaser's state: six sections, the history of its phased signal, the
/// phase of its oscillator, and its settings, which are fixed at
/// construction.
pub struct Phaser {
    feedback_buffer: DelayLine,
    allpasses: Vec<BiquadFilter>,
    config: PhaserConfig,
    lfo: u64,
}

impl View for Phaser {
    type V = PhaserView;

    closed spec fn view(&self) -> PhaserView {
        PhaserView {
            config: self.config,
            sections: section_views(self.allpasses@),
            phased: self.feedback_buffer@,
            lfo: self.lfo,
        }
    }
}

/// Makes the section at `i` the allpass of coefficient `alpha` and ends a
/// step of it; the others stay as they are.
fn advance_section_at(sections: &mut Vec<BiquadFilter>, i: usize, alpha: u64, x: u64, y: u64)
    requires
        i < old(sections)@.len(),
        sections_ok(section_views(old(sections)@)),
    ensures
        section_views(final(sections)@) == section_views(old(sections)@).update(
            i as int,
            BiquadView {
                coeffs: BiquadCoefficients::allpass_of(alpha),
                history: section_views(old(sections)@)[i as int].history.shifted(x, y),
            },
        ),
        sections_ok(section_views(final(sections)@)),
    no_unwind
{
    sections[i].set_coefficients(BiquadCoefficients::first_order_allpass(alpha));
    sections[i].advance(x, y);
    assert(section_views(sections@) =~= section_views(old(sections)@).update(
        i as int,
        BiquadView {
            coeffs: BiquadCoefficients::allpass_of(alpha),
            history: section_views(old(sections)@)[i as int].history.shifted(x, y),
        },
    ));
    assert forall|k: int| 0 <= k < sections@.len() implies (#[trigger] section_views(
        sections@,
    )[k]).coeffs == BiquadCoefficients::allpass_of(section_views(sections@)[k].coeffs.a0) by {
        assert(section_views(old(sections)@)[k].coeffs == BiquadCoefficients::allpass_of(
            section_views(old(sections)@)[k].coeffs.a0,
        ));
    }
}

/// Returns the section at `i` to silence; the others stay as they are.
fn reset_section_at(sections: &mut Vec<BiquadFilter>, i: usize)
    requires
        i < old(sections)@.len(),
        sections_ok(section_views(old(sections)@)),
    ensures
        section_views(final(sections)@) == section_views(old(sections)@).update(
            i as int,
            BiquadView {
                coeffs: section_views(old(sections)@)[i as int].coeffs,
                history: BiquadHistory::silent(),
            },
        ),
        sections_ok(section_views(final(sections)@)),
    no_unwind
{
    sections[i].reset();
    assert(section_views(sections@) =~= section_views(old(sections)@).update(
        i as int,
        BiquadView {
            coeffs: section_views(old(sections)@)[i as int].coeffs,
            history: BiquadHistory::silent(),
        },
    ));
    assert forall|k: int| 0 <= k < sections@.len() implies (#[trigger] section_views(
        sections@,
    )[k]).coeffs == BiquadCoefficients::allpass_of(section_views(sections@)[k].coeffs.a0) by {
        assert(section_views(old(sections)@)[k].coeffs == BiquadCoefficients::allpass_of(
            section_views(old(sections)@)[k].coeffs.a0,
        ));
    }
}

impl Phaser {
    #[verifier::type_invariant]
    spec fn inv(self) -> bool {
        self@.wf()
    }

    /// A phaser over a history of silence, with the oscillator at zero. Each
    /// setting out of its range is set to the nearer end of that range: the
    /// feedback, the depth and the intensity to `[0, 1]`, the rate to
    /// `[0, 50]`, the offset to `[-1, 1]`, the stages to one, two or three.
    /// `alphas` are the coefficients of the allpasses that the six sections
    /// start as.
    pub fn new(
        sample_rate: u64,
        feedback: u64,
        rate: u64,
        depth: u64,
        offset: u64,
        intensity: u64,
        stages: usize,
        alphas: [u64; 6],
    ) -> (phaser: Phaser)
        ensures
            phaser@ == PhaserView::fresh(
                PhaserConfig { sample_rate, feedback, rate, depth, offset, intensity, stages },
                alphas@,
            ),
            phaser@.wf(),
    {
        let config = PhaserConfig {
            sample_rate,
            feedback: clamp(feedback, ZERO, ONE),
            rate: clamp(rate, ZERO, MAX_RATE),
            depth: clamp(depth, ZERO, ONE),
            offset: clamp(offset, MINUS_ONE, ONE),
            intensity: clamp(intensity, ZERO, ONE),
            stages: if stages < 1 {
                1
            } else if stages > MAX_STAGES {
                MAX_STAGES
            } else {
                stages
            },
        };
        proof {
            lemma_clamp_idempotent(feedback, ZERO, ONE);
            lemma_clamp_idempotent(rate, ZERO, MAX_RATE);
            lemma_clamp_idempotent(depth, ZERO, ONE);
            lemma_clamp_idempotent(offset, MINUS_ONE, ONE);
            lemma_clamp_idempotent(intensity, ZERO, ONE);
        }
        let mut allpasses: Vec<BiquadFilter> = Vec::new();
        let mut i: usize = 0;
        while i < SECTIONS
            invariant
                i <= SECTIONS,
                allpasses@.len() == i,
                forall|k: int|
                    0 <= k < i ==> (#[trigger] allpasses@[k])@ == (BiquadView {
                        coeffs: BiquadCoefficients::allpass_of(alphas@[k]),
                        history: BiquadHistory::silent(),
                    }),
            decreases SECTIONS - i,
        {
            allpasses.push(BiquadFilter::new(BiquadCoefficients::first_order_allpass(alphas[i])));
            i = i + 1;
        }
        let feedback_buffer = match DelayLine::new(PHASER_CAPACITY) {
            Ok(line) => line,
            Err(_) => unreached(),
        };
        let ghost target = PhaserView::fresh(
            PhaserConfig { sample_rate, feedback, rate, depth, offset, intensity, stages },
            alphas@,
        );
        assert(section_views(allpasses@) =~= target.sections);
        Phaser { feedback_buffer, allpasses, config, lfo: ZERO }
    }

    /// The settings, as they were corrected.
    pub fn config(&self) -> (config: PhaserConfig)
        ensures
            config == self@.config,
            self@.wf(),
    {
        proof {
            use_type_invariant(self);
        }
        self.config
    }

    /// The phase of the oscillator.
    pub fn lfo(&self) -> (lfo: u64)
        ensures
            lfo == self@.lfo,
    {
        self.lfo
    }

    /// The number of sections that a step runs through: two, four or six.
    pub fn active_sections(&self) -> (n: usize)
        ensures
            n == self@.active(),
            2 <= n <= SECTIONS,
            self@.wf(),
    {
        proof {
            use_type_invariant(self);
        }
        2 * self.config.stages
    }

    /// The ends of the sweep of section `i`.
    pub fn sweep(i: usize) -> (sweep: Sweep)
        requires
            i < SECTIONS,
        ensures
            sweep == sweep_of(i as int),
    {
        if i == 0 {
            Sweep { low: 0x4030_0000_0000_0000, high: 0x4099_0000_0000_0000 }
        } else if i == 1 {
            Sweep { low: 0x4040_8000_0000_0000, high: 0x40A9_C800_0000_0000 }
        } else if i == 2 {
            Sweep { low: 0x4048_0000_0000_0000, high: 0x40B2_C000_0000_0000 }
        } else if i == 3 {
            Sweep { low: 0x4058_8000_0000_0000, high: 0x40C3_2400_0000_0000 }
        } else if i == 4 {
            Sweep { low: 0x4064_0000_0000_0000, high: 0x40CF_4000_0000_0000 }
        } else {
            Sweep { low: 0x4070_4000_0000_0000, high: 0x40D4_0000_0000_0000 }
        }
    }

    /// The place in the sweep that the oscillator asks for, held between
    /// minus one, the low end, and one, the high end.
    pub fn sweep_place(raw: u64) -> (place: u64)
        ensures
            place == clamp_spec(raw, MINUS_ONE, ONE),
            clamp_spec(place, MINUS_ONE, ONE) == place,
    {
        proof {
            lemma_clamp_idempotent(raw, MINUS_ONE, ONE);
        }
        clamp(raw, MINUS_ONE, ONE)
    }

    /// The phased signal of the last step.
    pub fn feedback_tap(&self) -> (tap: u64)
        ensures
            tap == self@.feedback_tap(),
    {
        proof {
            use_type_invariant(self);
        }
        self.feedback_buffer.read(0)
    }

    /// Section `i`.
    pub fn section(&self, i: usize) -> (section: &BiquadFilter)
        requires
            i < SECTIONS,
        ensures
            section@ == self@.sections[i as int],
    {
        proof {
            use_type_invariant(self);
        }
        &self.allpasses[i]
    }

    /// Makes section `i` the allpass of the coefficient of this step, and
    /// ends its step; every other section stays as it is.
    pub fn advance_section(&mut self, i: usize, alpha: u64, x: u64, y: u64)
        requires
            i < SECTIONS,
        ensures
            final(self)@ == old(self)@.section_advanced(i as int, alpha, x, y),
            final(self)@.wf(),
    {
        proof {
            use_type_invariant(&*self);
        }
        advance_section_at(&mut self.allpasses, i, alpha, x, y);
    }

    /// Ends a step: `phased`, the signal after the last active section,
    /// enters the feedback history, and the oscillator moves to `lfo`.
    pub fn finish(&mut self, phased: u64, lfo: u64)
        ensures
            final(self)@ == old(self)@.finished(phased, lfo),
            final(self)@.wf(),
    {
        proof {
            use_type_invariant(&*self);
        }
        self.feedback_buffer.push(phased);
        self.lfo = lfo;
    }

    /// Returns every history to silence and the oscillator to zero; the
    /// settings and the coefficients stay.
    pub fn reset(&mut self)
        ensures
            final(self)@ == old(self)@.silenced(),
            final(self)@.wf(),
    {
        proof {
            use_type_invariant(&*self);
        }
        self.feedback_buffer.reset();
        self.lfo = ZERO;
        let mut i: usize = 0;
        while i < SECTIONS
            invariant
                i <= SECTIONS,
                self@.wf(),
                self@.config == old(self)@.config,
                self@.phased == silence(old(self)@.phased.len()),
                self@.lfo == ZERO,
                self@.sections.len() == old(self)@.sections.len(),
                forall|k: int|
                    0 <= k < i ==> self@.sections[k] == (BiquadView {
                        coeffs: old(self)@.sections[k].coeffs,
                        history: BiquadHistory::silent(),
                    }),
                forall|k: int| i <= k < SECTIONS ==> self@.sections[k] == old(self)@.sections[k],
            decreases SECTIONS - i,
        {
            reset_section_at(&mut self.allpasses, i);
            i = i + 1;
        }
        assert(self@.sections =~= old(self)@.silenced().sections);
    }
}

impl Clone for Phaser {
    /// A second phaser with the same histories, phase and settings.
    fn clone(&self) -> (copy: Self)
        ensures
            copy@ == self@,
    {
        proof {
            use_type_invariant(self);
        }
        let mut allpasses: Vec<BiquadFilter> = Vec::new();
        let mut i: usize = 0;
        while i < self.allpasses.len()
            invariant
                i <= self.allpasses@.len(),
                allpasses@.len() == i,
                forall|k: int| 0 <= k < i ==> (#[trigger] allpasses@[k])@ == self.allpasses@[k]@,
            decreases self.allpasses@.len() - i,
        {
            allpasses.push(self.allpasses[i]);
            i = i + 1;
        }
        assert(section_views(allpasses@) =~= section_views(self.allpasses@));
        Phaser {
            feedback_buffer: self.feedback_buffer.clone(),
            allpasses,
            config: self.config,
            lfo: self.lfo,
        }
    }
}

/// The settings of a phaser are corrected once and for all: to correct them
/// again changes nothing.
pub proof fn lemma_corrected_idempotent(config: PhaserConfig)
    ensures
        config.corrected().corrected() == config.corrected(),
        1 <= config.corrected().stages <= MAX_STAGES,
{
    lemma_clamp_idempotent(config.feedback, ZERO, ONE);
    lemma_clamp_idempotent(config.rate, ZERO, MAX_RATE);
    lemma_clamp_idempotent(config.depth, ZERO, ONE);
    lemma_clamp_idempotent(config.offset, MINUS_ONE, ONE);
    lemma_clamp_idempotent(config.intensity, ZERO, ONE);
}

/// The phased signal of a step is the feedback tap of the next one.
pub proof fn lemma_feedback_is_last_phased(v: PhaserView, phased: u64, lfo: u64)
    requires
        v.wf(),
    ensures
        v.finished(phased, lfo).feedback_tap() == phased,
{
}

/// Silence in, silence out, as far as the history goes: a silent phaser
/// feeds back silence, and a step in which every section takes silence and
/// gives silence leaves its histories as they were. A phaser that was reset
/// is silent.
pub proof fn lemma_silence(v: PhaserView, i: int, lfo: u64)
    requires
        v.wf(),
        0 <= i < SECTIONS,
    ensures
        v.silenced().is_silent(),
        v.silenced().wf(),
        v.is_silent() ==> v.feedback_tap() == ZERO,
        v.is_silent() ==> v.section_advanced(i, v.sections[i].coeffs.a0, ZERO, ZERO) == v,
        v.is_silent() ==> v.finished(ZERO, lfo) == (PhaserView { lfo, ..v }),
{
    if v.is_silent() {
        lemma_silence_stays(v.phased);
        assert(v.sections[i].history == BiquadHistory::silent());
        assert(v.section_advanced(i, v.sections[i].coeffs.a0, ZERO, ZERO).sections
            =~= v.sections);
    }
}

/// A step is determined by the phaser and what is pushed: two phasers with
/// the same view feed back the same sample and hand out the same sections, and
/// the same pushes lead them to the same view.
pub proof fn lemma_determined(a: Phaser, b: Phaser, i: int, alpha: u64, x: u64, y: u64, lfo: u64)
    requires
        a@ == b@,
    ensures
        a@.feedback_tap() == b@.feedback_tap(),
        a@.sections[i] == b@.sections[i],
        a@.section_advanced(i, alpha, x, y) == b@.section_advanced(i, alpha, x, y),
        a@.finished(y, lfo) == b@.finished(y, lfo),
{
}

} // verus!
