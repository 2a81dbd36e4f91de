//! The Schroeder allpass filter: unit gain at every frequency, a phase that
//! depends on the frequency.
//!
//! One step is a read of the taps, the host's arithmetic on them, and a push
//! of the input and of the result:
//!
//! ```text
//! y = -gain * x + input + gain * output
//! ```

use crate::error::ConfigError;
use crate::line::{
    inputs_of, is_silent, lemma_pushed_word_ages, lemma_silence_stays, lemma_steps_drop_last,
    outputs_of, pushed, pushed_all, silence, DelayLine, Step,
};
use crate::sample::{cap, cap_spec, lemma_cap_idempotent, ONE, ZERO};
use vstd::prelude::*;

verus! {

/// The number of samples that an allpass filter keeps of its input and of its
/// output.
pub const ALLPASS_CAPACITY: usize = 41_100;

/// What one step of an allpass filter reads from its history.
#[derive(Clone, Copy, Debug, PartialEq, Eq)]
pub struct AllPassTaps {
    /// The input of `delay + 1` steps ago.
    pub input: u64,
    /// The output of `delay + 1` steps ago.
    pub output: u64,
}

/// An allpass filter as the contracts see it.
pub struct AllPassView {
    /// The inputs so far, newest first.
    pub inputs: Seq<u64>,
    /// The outputs so far, newest first.
    pub outputs: Seq<u64>,
    pub delay: nat,
    pub gain: u64,
}

impl AllPassView {
    /// An allpass filter as it is built: a history of silence, and the gain
    /// capped at one.
    pub open spec fn fresh(delay: usize, gain: u64) -> AllPassView {
        AllPassView {
            inputs: silence(ALLPASS_CAPACITY as nat),
            outputs: silence(ALLPASS_CAPACITY as nat),
            delay: delay as nat,
            gain: cap_spec(gain, ONE),
        }
    }

    /// What every allpass filter holds of its view.
    pub open spec fn wf(self) -> bool {
        &&& self.inputs.len() == ALLPASS_CAPACITY
        &&& self.outputs.len() == ALLPASS_CAPACITY
        &&& 1 <= self.delay < ALLPASS_CAPACITY
        &&& self.gain == cap_spec(self.gain, ONE)
    }

    /// The taps of the next step.
    pub open spec fn taps(self) -> AllPassTaps {
        AllPassTaps {
            input: self.inputs[self.delay as int],
            output: self.outputs[self.delay as int],
        }
    }

    /// The filter after a step with input `x` and output `y`.
    pub open spec fn advanced(self, x: u64, y: u64) -> AllPassView {
        AllPassView { inputs: pushed(self.inputs, x), outputs: pushed(self.outputs, y), ..self }
    }

    /// The filter after each of `steps` in turn.
    pub open spec fn advanced_all(self, steps: Seq<Step>) -> AllPassView
        decreases steps.len(),
    {
        if steps.len() == 0 {
            self
        } else {
            self.advanced_all(steps.drop_last()).advanced(steps.last().input, steps.last().output)
        }
    }

    /// The filter after a run over `inputs` in which the host computes each
    /// output from the input and the taps by `kernel`.
    pub open spec fn run(
        self,
        kernel: spec_fn(u64, AllPassTaps) -> u64,
        inputs: Seq<u64>,
    ) -> AllPassView
        decreases inputs.len(),
    {
        if inputs.len() == 0 {
            self
        } else {
            let before = self.run(kernel, inputs.drop_last());
            before.advanced(inputs.last(), kernel(inputs.last(), before.taps()))
        }
    }

    /// The output of step `n` of that run.
    pub open spec fn output(
        self,
        kernel: spec_fn(u64, AllPassTaps) -> u64,
        inputs: Seq<u64>,
        n: int,
    ) -> u64 {
        kernel(inputs[n], self.run(kernel, inputs.take(n)).taps())
    }

    /// The filter with its history returned to silence.
    pub open spec fn silenced(self) -> AllPassView {
        AllPassView {
            inputs: silence(self.inputs.len()),
            outputs: silence(self.outputs.len()),
            ..self
        }
    }

    /// Whether the filter has heard and said nothing but silence.
    pub open spec fn is_silent(self) -> bool {
        is_silent(self.inputs) && is_silent(self.outputs)
    }
}

/// An allpass filter's state: its two histories and its configuration, which
/// is fixed at construction.
pub struct AllPass {
    x_buffer: DelayLine,
    y_buffer: DelayLine,
    delay: usize,
    gain: u64,
}

impl View for AllPass {
    type V = AllPassView;

    closed spec fn view(&self) -> AllPassView {
        AllPassView {
            inputs: self.x_buffer@,
            outputs: self.y_buffer@,
            delay: self.delay as nat,
            gain: self.gain,
        }
    }
}

impl AllPass {
    #[verifier::type_invariant]
    spec fn inv(self) -> bool {
        self@.wf()
    }

    /// An allpass filter over a history of silence. A gain above one is set
    /// to one; a gain below zero is kept. A delay of zero is refused, and so
    /// is one of `ALLPASS_CAPACITY` samples or more.
    pub fn new(delay: usize, gain: u64) -> (r: Result<AllPass, ConfigError>)
        ensures
            delay == 0 <==> r == Err::<AllPass, ConfigError>(ConfigError::ZeroDelay),
            delay >= ALLPASS_CAPACITY <==> r == Err::<AllPass, ConfigError>(
                ConfigError::DelayTooLong,
            ),
            1 <= delay < ALLPASS_CAPACITY <==> r is Ok,
            r matches Ok(filter) ==> filter@ == AllPassView::fresh(delay, gain) && filter@.wf(),
    {
        if delay == 0 {
            return Err(ConfigError::ZeroDelay);
        }
        if delay >= ALLPASS_CAPACITY {
            return Err(ConfigError::DelayTooLong);
        }
        let gain = cap(gain, ONE);
        proof {
            lemma_cap_idempotent(gain, ONE);
        }
        let x_buffer = match DelayLine::new(ALLPASS_CAPACITY) {
            Ok(line) => line,
            Err(e) => {
                return Err(e);
            },
        };
        let y_buffer = match DelayLine::new(ALLPASS_CAPACITY) {
            Ok(line) => line,
            Err(e) => {
                return Err(e);
            },
        };
        Ok(AllPass { x_buffer, y_buffer, delay, gain })
    }

    /// The taps of the next step.
    pub fn taps(&self) -> (t: AllPassTaps)
        ensures
            t == self@.taps(),
            self@.wf(),
    {
        proof {
            use_type_invariant(self);
        }
        AllPassTaps {
            input: self.x_buffer.read(self.delay),
            output: self.y_buffer.read(self.delay),
        }
    }

    /// Ends a step: the input `x` and the output `y` that the host computed
    /// from it and the taps become the newest samples.
    pub fn advance(&mut self, x: u64, y: u64)
        ensures
            final(self)@ == old(self)@.advanced(x, y),
            final(self)@.wf(),
        no_unwind
    {
        proof {
            use_type_invariant(&*self);
        }
        self.x_buffer.push(x);
        self.y_buffer.push(y);
    }

    /// Returns the history to silence; the configuration stays.
    pub fn reset(&mut self)
        ensures
            final(self)@ == old(self)@.silenced(),
            final(self)@.wf(),
        no_unwind
    {
        proof {
            use_type_invariant(&*self);
        }
        self.x_buffer.reset();
        self.y_buffer.reset();
    }

    /// The delay in samples.
    pub fn delay(&self) -> (delay: usize)
        ensures
            delay == self@.delay,
    {
        self.delay
    }

    /// The gain, as it was capped.
    pub fn gain(&self) -> (gain: u64)
        ensures
            gain == self@.gain,
    {
        self.gain
    }
}

impl Clone for AllPass {
    /// A second allpass filter with the same history and configuration.
    fn clone(&self) -> (copy: Self)
        ensures
            copy@ == self@,
    {
        proof {
            use_type_invariant(self);
        }
        AllPass {
            x_buffer: self.x_buffer.clone(),
            y_buffer: self.y_buffer.clone(),
            delay: self.delay,
            gain: self.gain,
        }
    }
}

/// What a run of steps leaves of an allpass filter: its inputs and its outputs are
/// pushed into the two histories, and the configuration stays.
pub proof fn lemma_steps(v: AllPassView, steps: Seq<Step>)
    ensures
        v.advanced_all(steps) == (AllPassView {
            inputs: pushed_all(v.inputs, inputs_of(steps)),
            outputs: pushed_all(v.outputs, outputs_of(steps)),
            ..v
        }),
    decreases steps.len(),
{
    if steps.len() > 0 {
        lemma_steps(v, steps.drop_last());
        lemma_steps_drop_last(steps);
    }
}

/// A run of steps keeps an allpass filter well formed.
pub proof fn lemma_steps_wf(v: AllPassView, steps: Seq<Step>)
    requires
        v.wf(),
    ensures
        v.advanced_all(steps).wf(),
    decreases steps.len(),
{
    if steps.len() > 0 {
        lemma_steps_wf(v, steps.drop_last());
    }
}

/// The input and the output of a step are the taps of the step that comes
/// `delay + 1` steps after it, whatever was pushed in between.
pub proof fn lemma_echo(v: AllPassView, x: u64, y: u64, between: Seq<Step>)
    requires
        v.wf(),
        between.len() == v.delay,
    ensures
        v.advanced(x, y).advanced_all(between).taps() == (AllPassTaps { input: x, output: y }),
{
    lemma_steps(v.advanced(x, y), between);
    lemma_pushed_word_ages(v.inputs, x, inputs_of(between));
    lemma_pushed_word_ages(v.outputs, y, outputs_of(between));
}

/// Silence in, silence out, as far as the history goes: a silent allpass
/// filter hands out silent taps, and a step that takes silence and gives
/// silence leaves it as it was. A new filter is silent, and so is one that
/// was reset.
pub proof fn lemma_silence(v: AllPassView)
    requires
        v.wf(),
    ensures
        v.silenced().is_silent(),
        v.silenced().wf(),
        v.is_silent() ==> v.taps() == (AllPassTaps { input: ZERO, output: ZERO }),
        v.is_silent() ==> v.advanced(ZERO, ZERO) == v,
{
    if v.is_silent() {
        lemma_silence_stays(v.inputs);
        lemma_silence_stays(v.outputs);
    }
}

/// A run is determined by its start, the host and the inputs: two allpass
/// filters with the same view hand out the same taps, the same steps lead them
/// to the same view, and under the same host the same inputs draw the same
/// outputs from them.
pub proof fn lemma_determined(
    a: AllPass,
    b: AllPass,
    steps: Seq<Step>,
    kernel: spec_fn(u64, AllPassTaps) -> u64,
    inputs: Seq<u64>,
    n: int,
)
    requires
        a@ == b@,
    ensures
        a@.taps() == b@.taps(),
        a@.advanced_all(steps) == b@.advanced_all(steps),
        a@.run(kernel, inputs) == b@.run(kernel, inputs),
        a@.output(kernel, inputs, n) == b@.output(kernel, inputs, n),
{
}

/// Silence in, silence out: where the host gives silence for silence over
/// silent taps, a silent allpass filter that is fed silence gives silence at
/// every step, and is left as it was.
pub proof fn lemma_silent_run(
    v: AllPassView,
    kernel: spec_fn(u64, AllPassTaps) -> u64,
    inputs: Seq<u64>,
)
    requires
        v.wf(),
        v.is_silent(),
        kernel(ZERO, AllPassTaps { input: ZERO, output: ZERO }) == ZERO,
        forall|n: int| 0 <= n < inputs.len() ==> inputs[n] == ZERO,
    ensures
        v.run(kernel, inputs) == v,
        forall|n: int| 0 <= n < inputs.len() ==> v.output(kernel, inputs, n) == ZERO,
    decreases inputs.len(),
{
    lemma_silence(v);
    if inputs.len() > 0 {
        lemma_silent_run(v, kernel, inputs.drop_last());
        assert forall|n: int| 0 <= n < inputs.len() implies v.output(kernel, inputs, n)
            == ZERO by {
            lemma_silent_run(v, kernel, inputs.take(n));
        }
    }
}

} // verus!
