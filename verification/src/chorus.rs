//! The chorus: three modulated taps of a delayed signal, mixed with the
//! signal itself, in a feedback loop.
//!
//! One step moves the phases of the three voices, reads the feedback tap and,
//! for each voice, the taps at the base delay moved by the offset of that
//! voice. The host's arithmetic is
//!
//! ```text
//! phase  = phase + 2 * pi * rate / sample_rate,      for each voice
//!          less 2 * pi once it is above that
//! offset = round(sin(phase) * depth / 2)             for each voice
//! fed    = x + feedback * feedback_tap
//! voice  = input + 0 * output                        for each voice
//! y      = mix * (1 / 3) * (sum of the voices) + fed
//! ```
//!
//! and the step ends with a push of `fed` and of each voice's output into
//! that voice, and of `y` into the feedback history.

use crate::delay::{
    lemma_silence as lemma_delay_silence, Delay, DelayTaps, DelayView, MAX_DELAY,
};
use crate::error::ConfigError;
use crate::line::{is_silent, lemma_silence_stays, pushed, silence, DelayLine};
use crate::sample::{clamp, clamp_spec, lemma_clamp_idempotent, ZERO};
use vstd::prelude::*;

verus! {

/// The largest feedback of a chorus: 0.9999.
pub const MAX_FEEDBACK: u64 = 0x3FEF_FF2E_48E8_A71E;

/// One value for each of the three voices of a chorus.
#[derive(Debug, PartialEq, Eq)]
pub struct Three<T> {
    pub first: T,
    pub second: T,
    pub third: T,
}

impl<T: Copy> Clone for Three<T> {
    fn clone(&self) -> (copy: Self)
        ensures
            copy == *self,
    {
        *self
    }
}

impl<T: Copy> Copy for Three<T> {

}

/// The settings of a chorus.
#[derive(Clone, Copy, Debug, PartialEq, Eq)]
pub struct ChorusConfig {
    /// The sample rate in hertz.
    pub sample_rate: u64,
    /// The rate of the modulation in hertz.
    pub rate: u64,
    /// The base delay in milliseconds.
    pub delay_ms: u64,
    /// The share of the voices in the output.
    pub mix: u64,
    /// The gain of the feedback loop.
    pub feedback: u64,
    /// The depth of the modulation in samples.
    pub depth: u64,
    /// The base delay in samples.
    pub delay_samples: usize,
    /// The most samples by which a tap leaves the base delay, either way.
    pub max_offset: usize,
    /// The phase that the second voice starts from.
    pub phase2: u64,
    /// The phase that the third voice starts from.
    pub phase3: u64,
}

impl ChorusConfig {
    /// Whether the farthest tap lies within the history.
    pub open spec fn within_history(self) -> bool {
        self.delay_samples + self.max_offset < MAX_DELAY
    }

    /// Whether a chorus can be built from the settings: the farthest tap lies
    /// within the history, and the nearest one is not newer than the newest
    /// sample.
    pub open spec fn fits(self) -> bool {
        self.within_history() && self.max_offset <= self.delay_samples
    }

    /// The settings as a chorus stores them: the feedback held between zero
    /// and 0.9999.
    pub open spec fn corrected(self) -> ChorusConfig {
        ChorusConfig { feedback: clamp_spec(self.feedback, ZERO, MAX_FEEDBACK), ..self }
    }

    /// The phases that the three voices start from: the first one from zero,
    /// the other two from where the settings put them.
    pub open spec fn phases(self) -> Three<u64> {
        Three { first: ZERO, second: self.phase2, third: self.phase3 }
    }

    /// The lookback of a tap whose modulation asks for `offset`: the base
    /// delay, moved by the offset as far as the settings allow.
    pub open spec fn position(self, offset: int) -> int {
        if offset > self.max_offset {
            self.delay_samples + self.max_offset
        } else if offset < -self.max_offset {
            self.delay_samples - self.max_offset
        } else {
            self.delay_samples + offset
        }
    }
}

/// What one step of a chorus reads from its history.
#[derive(Clone, Copy, Debug, PartialEq, Eq)]
pub struct ChorusTaps {
    /// The output of `delay_samples + 1` steps ago.
    pub feedback: u64,
    /// The taps of the three voices, each at its own lookback.
    pub voices: Three<DelayTaps>,
}

/// What one step of a chorus leaves behind.
#[derive(Clone, Copy, Debug, PartialEq, Eq)]
pub struct ChorusStep {
    /// The input with the feedback added: what every voice takes in.
    pub fed: u64,
    /// The outputs of the three voices.
    pub voices: Three<u64>,
    /// The output of the chorus.
    pub output: u64,
    /// The phases after the step.
    pub phases: Three<u64>,
}

/// A chorus as the contracts see it.
pub struct ChorusView {
    pub config: ChorusConfig,
    pub voices: Three<DelayView>,
    /// The outputs so far, newest first.
    pub outputs: Seq<u64>,
    pub phases: Three<u64>,
}

impl ChorusView {
    /// A chorus as it is built from settings that fit: every history silent,
    /// the phases where the settings put them.
    pub open spec fn fresh(config: ChorusConfig) -> ChorusView {
        ChorusView {
            config: config.corrected(),
            voices: Three {
                first: DelayView::fresh(config.delay_samples, ZERO),
                second: DelayView::fresh(config.delay_samples, ZERO),
                third: DelayView::fresh(config.delay_samples, ZERO),
            },
            outputs: silence(MAX_DELAY as nat),
            phases: config.phases(),
        }
    }

    /// What every chorus holds of its view.
    pub open spec fn wf(self) -> bool {
        &&& self.config.fits()
        &&& self.config == self.config.corrected()
        &&& self.voices.first.wf()
        &&& self.voices.second.wf()
        &&& self.voices.third.wf()
        &&& self.outputs.len() == MAX_DELAY
    }

    /// The taps of the next step, where the modulation asks for `offsets`.
    pub open spec fn taps(self, offsets: Three<i32>) -> ChorusTaps {
        ChorusTaps {
            feedback: self.outputs[self.config.delay_samples as int],
            voices: Three {
                first: self.voices.first.taps(self.config.position(offsets.first as int)),
                second: self.voices.second.taps(self.config.position(offsets.second as int)),
                third: self.voices.third.taps(self.config.position(offsets.third as int)),
            },
        }
    }

    /// The chorus after a step.
    pub open spec fn advanced(self, step: ChorusStep) -> ChorusView {
        ChorusView {
            voices: Three {
                first: self.voices.first.advanced(step.fed, step.voices.first),
                second: self.voices.second.advanced(step.fed, step.voices.second),
                third: self.voices.third.advanced(step.fed, step.voices.third),
            },
            outputs: pushed(self.outputs, step.output),
            phases: step.phases,
            ..self
        }
    }

    /// The chorus with every history returned to silence and the phases to
    /// where the settings put them.
    pub open spec fn silenced(self) -> ChorusView {
        ChorusView {
            voices: Three {
                first: self.voices.first.silenced(),
                second: self.voices.second.silenced(),
                third: self.voices.third.silenced(),
            },
            outputs: silence(self.outputs.len()),
            phases: self.config.phases(),
            ..self
        }
    }

    /// Whether the chorus has heard and said nothing but silence.
    pub open spec fn is_silent(self) -> bool {
        &&& self.voices.first.is_silent()
        &&& self.voices.second.is_silent()
        &&& self.voices.third.is_silent()
        &&& is_silent(self.outputs)
    }
}

/// A chorus's state: three delays, the history of its output, the phases of
/// its three oscillators, and its settings, which are fixed at construction.
pub struct Chorus {
    config: ChorusConfig,
    delay_1: Delay,
    delay_2: Delay,
    delay_3: Delay,
    buffer: DelayLine,
    phases: Three<u64>,
}

impl View for Chorus {
    type V = ChorusView;

    closed spec fn view(&self) -> ChorusView {
        ChorusView {
            config: self.config,
            voices: Three { first: self.delay_1@, second: self.delay_2@, third: self.delay_3@ },
            outputs: self.buffer@,
            phases: self.phases,
        }
    }
}

impl Chorus {
    #[verifier::type_invariant]
    spec fn inv(self) -> bool {
        self@.wf()
    }

    /// A chorus over histories of silence. A feedback outside `[0, 0.9999]`
    /// is set to the nearer end. Settings whose farthest tap would reach past
    /// `MAX_DELAY` samples are refused, and so are settings whose modulation
    /// is wider than the base delay.
    pub fn new(config: ChorusConfig) -> (r: Result<Chorus, ConfigError>)
        ensures
            !config.within_history() <==> r == Err::<Chorus, ConfigError>(
                ConfigError::DelayTooLong,
            ),
            config.within_history() && !config.fits() <==> r == Err::<Chorus, ConfigError>(
                ConfigError::DepthTooLarge,
            ),
            config.fits() <==> r is Ok,
            r matches Ok(chorus) ==> chorus@ == ChorusView::fresh(config) && chorus@.wf(),
    {
        if config.delay_samples >= MAX_DELAY || config.max_offset >= MAX_DELAY
            - config.delay_samples {
            return Err(ConfigError::DelayTooLong);
        }
        if config.max_offset > config.delay_samples {
            return Err(ConfigError::DepthTooLarge);
        }
        let feedback = clamp(config.feedback, ZERO, MAX_FEEDBACK);
        proof {
            lemma_clamp_idempotent(config.feedback, ZERO, MAX_FEEDBACK);
        }
        let delay_1 = match Delay::new(config.delay_samples, ZERO) {
            Ok(delay) => delay,
            Err(e) => {
                return Err(e);
            },
        };
        let delay_2 = match Delay::new(config.delay_samples, ZERO) {
            Ok(delay) => delay,
            Err(e) => {
                return Err(e);
            },
        };
        let delay_3 = match Delay::new(config.delay_samples, ZERO) {
            Ok(delay) => delay,
            Err(e) => {
                return Err(e);
            },
        };
        let buffer = match DelayLine::new(MAX_DELAY) {
            Ok(line) => line,
            Err(e) => {
                return Err(e);
            },
        };
        Ok(
            Chorus {
                config: ChorusConfig { feedback, ..config },
                delay_1,
                delay_2,
                delay_3,
                buffer,
                phases: Three { first: ZERO, second: config.phase2, third: config.phase3 },
            },
        )
    }

    /// The settings, as they were corrected.
    pub fn config(&self) -> (config: ChorusConfig)
        ensures
            config == self@.config,
            self@.wf(),
    {
        proof {
            use_type_invariant(self);
        }
        self.config
    }

    /// The phases of the three oscillators.
    pub fn phases(&self) -> (phases: Three<u64>)
        ensures
            phases == self@.phases,
    {
        self.phases
    }

    /// The lookback of a tap whose modulation asks for `offset`. An offset
    /// within the settings moves the tap by that much; one beyond moves it as
    /// far as the settings allow. The result lies within the history.
    pub fn tap_position(&self, offset: i32) -> (position: usize)
        ensures
            position == self@.config.position(offset as int),
            position < MAX_DELAY,
            self@.wf(),
    {
        proof {
            use_type_invariant(self);
        }
        let base: usize = self.config.delay_samples;
        let reach: usize = self.config.max_offset;
        if offset >= 0 {
            let up: usize = offset as usize;
            if up > reach {
                base + reach
            } else {
                base + up
            }
        } else if offset < -132_300 {
            base - reach
        } else {
            let down: usize = (-offset) as usize;
            if down > reach {
                base - reach
            } else {
                base - down
            }
        }
    }

    /// The taps of the next step, where the modulation asks for `offsets`.
    pub fn taps(&self, offsets: Three<i32>) -> (t: ChorusTaps)
        ensures
            t == self@.taps(offsets),
            self@.wf(),
    {
        proof {
            use_type_invariant(self);
        }
        ChorusTaps {
            feedback: self.buffer.read(self.config.delay_samples),
            voices: Three {
                first: self.delay_1.taps(self.tap_position(offsets.first)),
                second: self.delay_2.taps(self.tap_position(offsets.second)),
                third: self.delay_3.taps(self.tap_position(offsets.third)),
            },
        }
    }

    /// Ends a step: every voice takes in `step.fed` and gives out its own
    /// output, the output of the chorus enters the feedback history, and the
    /// oscillators move to the new phases.
    pub fn advance(&mut self, step: ChorusStep)
        ensures
            final(self)@ == old(self)@.advanced(step),
            final(self)@.wf(),
    {
        proof {
            use_type_invariant(&*self);
        }
        self.delay_1.advance(step.fed, step.voices.first);
        self.delay_2.advance(step.fed, step.voices.second);
        self.delay_3.advance(step.fed, step.voices.third);
        self.buffer.push(step.output);
        self.phases = step.phases;
    }

    /// Returns every history to silence and the phases to where the settings
    /// put them.
    pub fn reset(&mut self)
        ensures
            final(self)@ == old(self)@.silenced(),
            final(self)@.wf(),
    {
        proof {
            use_type_invariant(&*self);
        }
        self.delay_1.reset();
        self.delay_2.reset();
        self.delay_3.reset();
        self.buffer.reset();
        self.phases = Three { first: ZERO, second: self.config.phase2, third: self.config.phase3 };
    }
}

impl Clone for Chorus {
    /// A second chorus with the same histories, phases and settings.
    fn clone(&self) -> (copy: Self)
        ensures
            copy@ == self@,
    {
        proof {
            use_type_invariant(self);
        }
        Chorus {
            config: self.config,
            delay_1: self.delay_1.clone(),
            delay_2: self.delay_2.clone(),
            delay_3: self.delay_3.clone(),
            buffer: self.buffer.clone(),
            phases: self.phases,
        }
    }
}

/// Every tap of a chorus lies within its history, between the base delay
/// less the widest modulation and the base delay plus it, whatever offset the
/// modulation asks for; an offset within the settings is taken as it is.
pub proof fn lemma_position_in_range(config: ChorusConfig, offset: int)
    requires
        config.fits(),
    ensures
        0 <= config.delay_samples - config.max_offset <= config.position(offset)
            <= config.delay_samples + config.max_offset < MAX_DELAY,
        -config.max_offset <= offset <= config.max_offset ==> config.position(offset)
            == config.delay_samples + offset,
{
}

/// Silence in, silence out, as far as the history goes: a silent chorus
/// hands out silent taps at every offset, and a step that takes silence and
/// gives silence leaves its histories as they were. A chorus that was reset is
/// silent.
pub proof fn lemma_silence(v: ChorusView, offsets: Three<i32>, phases: Three<u64>)
    requires
        v.wf(),
    ensures
        v.silenced().is_silent(),
        v.silenced().wf(),
        v.is_silent() ==> v.taps(offsets) == (ChorusTaps {
            feedback: ZERO,
            voices: Three {
                first: DelayTaps { input: ZERO, output: ZERO },
                second: DelayTaps { input: ZERO, output: ZERO },
                third: DelayTaps { input: ZERO, output: ZERO },
            },
        }),
        v.is_silent() ==> v.advanced(
            ChorusStep {
                fed: ZERO,
                voices: Three { first: ZERO, second: ZERO, third: ZERO },
                output: ZERO,
                phases,
            },
        ) == (ChorusView { phases, ..v }),
{
    lemma_position_in_range(v.config, offsets.first as int);
    lemma_position_in_range(v.config, offsets.second as int);
    lemma_position_in_range(v.config, offsets.third as int);
    lemma_delay_silence(v.voices.first, v.config.position(offsets.first as int));
    lemma_delay_silence(v.voices.second, v.config.position(offsets.second as int));
    lemma_delay_silence(v.voices.third, v.config.position(offsets.third as int));
    if v.is_silent() {
        lemma_silence_stays(v.outputs);
    }
}

/// A step is determined by the chorus and what is pushed: two choruses with
/// the same view, and so with the same phases to start from, hand out the same
/// taps, and the same step leads them to the same view.
pub proof fn lemma_determined(a: Chorus, b: Chorus, offsets: Three<i32>, step: ChorusStep)
    requires
        a@ == b@,
    ensures
        a@.taps(offsets) == b@.taps(offsets),
        a@.advanced(step) == b@.advanced(step),
{
}

} // verus!
