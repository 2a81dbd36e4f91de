//! The feedback delay: the input of some samples ago, plus a share of the
//! output of as many samples ago.
//!
//! One step is a read of the taps at a lookback of the caller's choice, the
//! host's arithmetic on them, and a push of the input and of the result:
//!
//! ```text
//! y = input + feedback * output
//! ```

use crate::error::ConfigError;
use crate::line::{
    inputs_of, is_silent, lemma_pushed_word_ages, lemma_read_after_pushes, lemma_silence_stays,
    lemma_steps_drop_last, outputs_of, pushed, pushed_all, silence, DelayLine, Step,
};
use crate::sample::{clamp, clamp_spec, lemma_clamp_idempotent, ONE, ZERO};
use vstd::prelude::*;

verus! {

/// The number of samples that a delay keeps of its input and of its output:
/// three seconds at 44.1 kHz.
pub const MAX_DELAY: usize = 132_300;

/// What one step of a delay reads from its history.
#[derive(Clone, Copy, Debug, PartialEq, Eq)]
pub struct DelayTaps {
    /// The input of `lookback + 1` steps ago.
    pub input: u64,
    /// The output of `lookback + 1` steps ago.
    pub output: u64,
}

/// A delay as the contracts see it.
pub struct DelayView {
    /// The inputs so far, newest first.
    pub inputs: Seq<u64>,
    /// The outputs so far, newest first.
    pub outputs: Seq<u64>,
    /// The lookback that the delay was made for.
    pub delay: nat,
    pub feedback: u64,
}

impl DelayView {
    /// A delay as it is built: a history of silence, and the feedback clamped
    /// to `[0, 1]`.
    pub open spec fn fresh(delay: usize, feedback: u64) -> DelayView {
        DelayView {
            inputs: silence(MAX_DELAY as nat),
            outputs: silence(MAX_DELAY as nat),
            delay: delay as nat,
            feedback: clamp_spec(feedback, ZERO, ONE),
        }
    }

    /// What every delay holds of its view.
    pub open spec fn wf(self) -> bool {
        &&& self.inputs.len() == MAX_DELAY
        &&& self.outputs.len() == MAX_DELAY
        &&& self.delay < MAX_DELAY
        &&& self.feedback == clamp_spec(self.feedback, ZERO, ONE)
    }

    /// The taps of the next step at `lookback`.
    pub open spec fn taps(self, lookback: int) -> DelayTaps {
        DelayTaps { input: self.inputs[lookback], output: self.outputs[lookback] }
    }

    /// The delay after a step with input `x` and output `y`.
    pub open spec fn advanced(self, x: u64, y: u64) -> DelayView {
        DelayView { inputs: pushed(self.inputs, x), outputs: pushed(self.outputs, y), ..self }
    }

    /// The delay after each of `steps` in turn.
    pub open spec fn advanced_all(self, steps: Seq<Step>) -> DelayView
        decreases steps.len(),
    {
        if steps.len() == 0 {
            self
        } else {
            self.advanced_all(steps.drop_last()).advanced(steps.last().input, steps.last().output)
        }
    }

    /// The delay after a run over `inputs` in which every step reads at the
    /// lookback that the delay was made for, and the host computes each
    /// output from the taps by `kernel`.
    pub open spec fn run(self, kernel: spec_fn(DelayTaps) -> u64, inputs: Seq<u64>) -> DelayView
        decreases inputs.len(),
    {
        if inputs.len() == 0 {
            self
        } else {
            let before = self.run(kernel, inputs.drop_last());
            before.advanced(inputs.last(), kernel(before.taps(self.delay as int)))
        }
    }

    /// The output of step `n` of that run.
    pub open spec fn output(
        self,
        kernel: spec_fn(DelayTaps) -> u64,
        inputs: Seq<u64>,
        n: int,
    ) -> u64 {
        kernel(self.run(kernel, inputs.take(n)).taps(self.delay as int))
    }

    /// The delay with its history returned to silence.
    pub open spec fn silenced(self) -> DelayView {
        DelayView {
            inputs: silence(self.inputs.len()),
            outputs: silence(self.outputs.len()),
            ..self
        }
    }

    /// Whether the delay has heard and said nothing but silence.
    pub open spec fn is_silent(self) -> bool {
        is_silent(self.inputs) && is_silent(self.outputs)
    }
}

/// A delay's state: its two histories and its configuration, which is fixed
/// at construction.
pub struct Delay {
    x_buffer: DelayLine,
    y_buffer: DelayLine,
    delay: usize,
    feedback: u64,
}

impl View for Delay {
    type V = DelayView;

    closed spec fn view(&self) -> DelayView {
        DelayView {
            inputs: self.x_buffer@,
            outputs: self.y_buffer@,
            delay: self.delay as nat,
            feedback: self.feedback,
        }
    }
}

impl Delay {
    #[verifier::type_invariant]
    spec fn inv(self) -> bool {
        self@.wf()
    }

    /// A delay over a history of silence. A feedback outside `[0, 1]` is set
    /// to the nearer end. A delay of `MAX_DELAY` samples or more is refused.
    pub fn new(delay: usize, feedback: u64) -> (r: Result<Delay, ConfigError>)
        ensures
            delay >= MAX_DELAY <==> r == Err::<Delay, ConfigError>(ConfigError::DelayTooLong),
            delay < MAX_DELAY <==> r is Ok,
            r matches Ok(node) ==> node@ == DelayView::fresh(delay, feedback) && node@.wf(),
    {
        if delay >= MAX_DELAY {
            return Err(ConfigError::DelayTooLong);
        }
        let feedback = clamp(feedback, ZERO, ONE);
        proof {
            lemma_clamp_idempotent(feedback, ZERO, ONE);
        }
        let x_buffer = match DelayLine::new(MAX_DELAY) {
            Ok(line) => line,
            Err(e) => {
                return Err(e);
            },
        };
        let y_buffer = match DelayLine::new(MAX_DELAY) {
            Ok(line) => line,
            Err(e) => {
                return Err(e);
            },
        };
        Ok(Delay { x_buffer, y_buffer, delay, feedback })
    }

    /// The taps of the next step at `lookback`.
    pub fn taps(&self, lookback: usize) -> (t: DelayTaps)
        requires
            lookback < MAX_DELAY,
        ensures
            t == self@.taps(lookback as int),
            self@.wf(),
    {
        proof {
            use_type_invariant(self);
        }
        DelayTaps { input: self.x_buffer.read(lookback), output: self.y_buffer.read(lookback) }
    }

    /// The taps of the next step at `lookback`, or `None` where the history
    /// does not reach that far back.
    pub fn try_taps(&self, lookback: usize) -> (t: Option<DelayTaps>)
        ensures
            t == if lookback < MAX_DELAY {
                Some(self@.taps(lookback as int))
            } else {
                None
            },
            self@.wf(),
    {
        if lookback < MAX_DELAY {
            Some(self.taps(lookback))
        } else {
            proof {
                use_type_invariant(self);
            }
            None
        }
    }

    /// Ends a step: the input `x` and the output `y` that the host computed
    /// from the taps become the newest samples.
    pub fn advance(&mut self, x: u64, y: u64)
        ensures
            final(self)@ == old(self)@.advanced(x, y),
            final(self)@.wf(),
        no_unwind
    {
        proof {
            use_type_invariant(&*self);
        }
        self.x_buffer.push(x);
        self.y_buffer.push(y);
    }

    /// Returns the history to silence; the configuration stays.
    pub fn reset(&mut self)
        ensures
            final(self)@ == old(self)@.silenced(),
            final(self)@.wf(),
        no_unwind
    {
        proof {
            use_type_invariant(&*self);
        }
        self.x_buffer.reset();
        self.y_buffer.reset();
    }

    /// The lookback that the delay was made for.
    pub fn delay(&self) -> (delay: usize)
        ensures
            delay == self@.delay,
            delay < MAX_DELAY,
    {
        proof {
            use_type_invariant(self);
        }
        self.delay
    }

    /// The feedback gain, as it was clamped.
    pub fn feedback(&self) -> (feedback: u64)
        ensures
            feedback == self@.feedback,
    {
        self.feedback
    }
}

impl Clone for Delay {
    /// A second delay with the same history and configuration.
    fn clone(&self) -> (copy: Self)
        ensures
            copy@ == self@,
    {
        proof {
            use_type_invariant(self);
        }
        Delay {
            x_buffer: self.x_buffer.clone(),
            y_buffer: self.y_buffer.clone(),
            delay: self.delay,
            feedback: self.feedback,
        }
    }
}

/// What a run of steps leaves of a delay: its inputs and its outputs are pushed into
/// the two histories, and the configuration stays.
pub proof fn lemma_steps(v: DelayView, steps: Seq<Step>)
    ensures
        v.advanced_all(steps) == (DelayView {
            inputs: pushed_all(v.inputs, inputs_of(steps)),
            outputs: pushed_all(v.outputs, outputs_of(steps)),
            ..v
        }),
    decreases steps.len(),
{
    if steps.len() > 0 {
        lemma_steps(v, steps.drop_last());
        lemma_steps_drop_last(steps);
    }
}

/// A run of steps keeps a delay well formed.
pub proof fn lemma_steps_wf(v: DelayView, steps: Seq<Step>)
    requires
        v.wf(),
    ensures
        v.advanced_all(steps).wf(),
    decreases steps.len(),
{
    if steps.len() > 0 {
        lemma_steps_wf(v, steps.drop_last());
    }
}

/// The input and the output of a step are the taps at `lookback` of the step
/// that comes `lookback + 1` steps after it, whatever was pushed in between.
pub proof fn lemma_echo(v: DelayView, x: u64, y: u64, between: Seq<Step>)
    requires
        v.wf(),
        between.len() < MAX_DELAY,
    ensures
        v.advanced(x, y).advanced_all(between).taps(between.len() as int) == (DelayTaps {
            input: x,
            output: y,
        }),
{
    lemma_steps(v.advanced(x, y), between);
    lemma_pushed_word_ages(v.inputs, x, inputs_of(between));
    lemma_pushed_word_ages(v.outputs, y, outputs_of(between));
}

/// Silence in, silence out, as far as the history goes: a silent delay hands
/// out silent taps at every lookback, and a step that takes silence and
/// gives silence leaves it as it was. A new delay is silent, and so is one
/// that was reset.
pub proof fn lemma_silence(v: DelayView, lookback: int)
    requires
        v.wf(),
        0 <= lookback < MAX_DELAY,
    ensures
        v.silenced().is_silent(),
        v.silenced().wf(),
        v.is_silent() ==> v.taps(lookback) == (DelayTaps { input: ZERO, output: ZERO }),
        v.is_silent() ==> v.advanced(ZERO, ZERO) == v,
{
    if v.is_silent() {
        lemma_silence_stays(v.inputs);
        lemma_silence_stays(v.outputs);
    }
}

/// A run is determined by its start, the host and the inputs: two delays
/// with the same view hand out the same taps, the same steps lead them to the
/// same view, and under the same host the same inputs draw the same outputs
/// from them.
pub proof fn lemma_determined(
    a: Delay,
    b: Delay,
    steps: Seq<Step>,
    lookback: int,
    kernel: spec_fn(DelayTaps) -> u64,
    inputs: Seq<u64>,
    n: int,
)
    requires
        a@ == b@,
    ensures
        a@.taps(lookback) == b@.taps(lookback),
        a@.advanced_all(steps) == b@.advanced_all(steps),
        a@.run(kernel, inputs) == b@.run(kernel, inputs),
        a@.output(kernel, inputs, n) == b@.output(kernel, inputs, n),
{
}

/// Silence in, silence out: where the host gives silence over silent taps, a
/// silent delay that is fed silence gives silence at every step, and is left
/// as it was.
pub proof fn lemma_silent_run(v: DelayView, kernel: spec_fn(DelayTaps) -> u64, inputs: Seq<u64>)
    requires
        v.wf(),
        v.is_silent(),
        kernel(DelayTaps { input: ZERO, output: ZERO }) == ZERO,
        forall|n: int| 0 <= n < inputs.len() ==> inputs[n] == ZERO,
    ensures
        v.run(kernel, inputs) == v,
        forall|n: int| 0 <= n < inputs.len() ==> v.output(kernel, inputs, n) == ZERO,
    decreases inputs.len(),
{
    lemma_silence(v, v.delay as int);
    if inputs.len() > 0 {
        lemma_silent_run(v, kernel, inputs.drop_last());
        assert forall|n: int| 0 <= n < inputs.len() implies v.output(kernel, inputs, n)
            == ZERO by {
            lemma_silent_run(v, kernel, inputs.take(n));
        }
    }
}

/// The delay delays: in a run from silence whose host hands the input tap
/// through, step `n` gives the input of `delay + 1` steps before, and silence
/// where the run is younger than that.
pub proof fn lemma_delays_its_input(
    v: DelayView,
    kernel: spec_fn(DelayTaps) -> u64,
    inputs: Seq<u64>,
    n: int,
)
    requires
        v.wf(),
        v.is_silent(),
        forall|t: DelayTaps| kernel(t) == t.input,
        0 <= n < inputs.len(),
    ensures
        v.output(kernel, inputs, n) == if n > v.delay {
            inputs[n - 1 - v.delay]
        } else {
            ZERO
        },
{
    let so_far = inputs.take(n);
    lemma_run_inputs(v, kernel, so_far);
    lemma_read_after_pushes(v.inputs, so_far, v.delay as int);
    let taps = v.run(kernel, so_far).taps(v.delay as int);
    assert(v.output(kernel, inputs, n) == taps.input);
    if n > v.delay {
        assert(so_far[n - 1 - v.delay] == inputs[n - 1 - v.delay]);
    } else {
        assert(v.inputs[v.delay - n] == ZERO);
    }
}

/// A run pushes its inputs into the input history.
pub proof fn lemma_run_inputs(v: DelayView, kernel: spec_fn(DelayTaps) -> u64, inputs: Seq<u64>)
    ensures
        v.run(kernel, inputs).inputs == pushed_all(v.inputs, inputs),
        v.run(kernel, inputs).delay == v.delay,
        v.run(kernel, inputs).feedback == v.feedback,
    decreases inputs.len(),
{
    if inputs.len() > 0 {
        lemma_run_inputs(v, kernel, inputs.drop_last());
    }
}

} // verus!
