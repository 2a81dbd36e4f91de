//! The comb filter: a delay line in a feedback loop, with an optional
//! one-pole low-pass in that loop.
//!
//! One step of the filter is a read of the taps, the host's arithmetic on
//! them, and a push of the result:
//!
//! ```text
//! y = x + sign * delayed * feedback                                     plain
//! y = x + delayed * feedback - lpf_g * prev_input + lpf_g * prev_output  damped
//! ```

use crate::error::ConfigError;
use crate::line::{
    inputs_of, is_silent, lemma_pushed_word_ages, lemma_read_after_pushes, lemma_silence_stays,
    lemma_steps_drop_last, outputs_of, pushed, pushed_all, silence, DelayLine, Step,
};
use crate::sample::{clamp, clamp_spec, lemma_clamp_idempotent, ONE, ZERO};
use vstd::prelude::*;

verus! {

/// The number of samples that a comb filter keeps of its output, and of its
/// input where it is damped.
pub const MAX_INDEX: usize = 41_100;

/// The sign with which the delayed output enters the sum.
#[allow(non_camel_case_types)]
#[derive(Clone, Copy, Debug, PartialEq, Eq)]
pub enum CombType {
    POSITIVE,
    NEGATIVE,
}

/// What one step of a comb filter reads from its history.
#[derive(Clone, Copy, Debug, PartialEq, Eq)]
pub struct CombTaps {
    /// The output of `delay + 1` steps ago.
    pub delayed: u64,
    /// The input of `delay + 2` steps ago; silence in a plain comb.
    pub prev_input: u64,
    /// The output of two steps ago; silence in a plain comb.
    pub prev_output: u64,
}

/// The taps of a filter that has heard and said nothing.
pub open spec fn silent_taps() -> CombTaps {
    CombTaps { delayed: ZERO, prev_input: ZERO, prev_output: ZERO }
}

/// An impulse: `x`, then silence, `len` samples in all.
pub open spec fn impulse(x: u64, len: nat) -> Seq<u64> {
    Seq::new(
        len,
        |n: int|
            if n == 0 {
                x
            } else {
                ZERO
            },
    )
}

/// The echoes of an impulse `x` in a plain comb filter whose host computes
/// `kernel`: the first is the output for the impulse over silent taps, and
/// each later one the output for silence over the echo before it.
pub open spec fn echo(kernel: spec_fn(u64, CombTaps) -> u64, x: u64, k: nat) -> u64
    decreases k,
{
    if k == 0 {
        kernel(x, silent_taps())
    } else {
        kernel(
            ZERO,
            CombTaps {
                delayed: echo(kernel, x, (k - 1) as nat),
                prev_input: ZERO,
                prev_output: ZERO,
            },
        )
    }
}

/// A comb filter as the contracts see it.
pub struct CombView {
    /// The outputs so far, newest first.
    pub outputs: Seq<u64>,
    /// The inputs so far, newest first; empty in a plain comb.
    pub inputs: Seq<u64>,
    pub delay: nat,
    pub feedback: u64,
    pub comb_type: CombType,
    pub use_lpf: bool,
    pub lpf_g: u64,
}

/// Whether a comb filter can be built with this delay: it is at least one
/// sample, and every tap that it asks for lies within `MAX_INDEX` samples.
pub open spec fn delay_fits(delay: usize, use_lpf: bool) -> bool {
    &&& 1 <= delay
    &&& if use_lpf {
        delay + 1 < MAX_INDEX
    } else {
        delay < MAX_INDEX
    }
}

impl CombView {
    /// A comb filter as it is built: a history of silence, and the feedback
    /// clamped to `[0, 1]`.
    pub open spec fn fresh(
        delay: usize,
        feedback: u64,
        comb_type: CombType,
        use_lpf: bool,
        lpf_g: u64,
    ) -> CombView {
        CombView {
            outputs: silence(MAX_INDEX as nat),
            inputs: if use_lpf {
                silence(MAX_INDEX as nat)
            } else {
                Seq::empty()
            },
            delay: delay as nat,
            feedback: clamp_spec(feedback, ZERO, ONE),
            comb_type,
            use_lpf,
            lpf_g,
        }
    }

    /// What every comb filter holds of its view.
    pub open spec fn wf(self) -> bool {
        &&& self.outputs.len() == MAX_INDEX
        &&& self.inputs.len() == if self.use_lpf {
            MAX_INDEX as nat
        } else {
            0
        }
        &&& 1 <= self.delay
        &&& if self.use_lpf {
            self.delay + 1 < MAX_INDEX
        } else {
            self.delay < MAX_INDEX
        }
        &&& self.feedback == clamp_spec(self.feedback, ZERO, ONE)
    }

    /// The taps of the next step.
    pub open spec fn taps(self) -> CombTaps {
        if self.use_lpf {
            CombTaps {
                delayed: self.outputs[self.delay as int],
                prev_input: self.inputs[self.delay as int + 1],
                prev_output: self.outputs[1],
            }
        } else {
            CombTaps { delayed: self.outputs[self.delay as int], prev_input: ZERO, prev_output: ZERO }
        }
    }

    /// The filter after a step with input `x` and output `y`.
    pub open spec fn advanced(self, x: u64, y: u64) -> CombView {
        CombView {
            outputs: pushed(self.outputs, y),
            inputs: if self.use_lpf {
                pushed(self.inputs, x)
            } else {
                self.inputs
            },
            ..self
        }
    }

    /// The filter after each of `steps` in turn.
    pub open spec fn advanced_all(self, steps: Seq<Step>) -> CombView
        decreases steps.len(),
    {
        if steps.len() == 0 {
            self
        } else {
            self.advanced_all(steps.drop_last()).advanced(steps.last().input, steps.last().output)
        }
    }

    /// The filter after a run over `inputs` in which the host computes each
    /// output from the input and the taps by `kernel`.
    pub open spec fn run(self, kernel: spec_fn(u64, CombTaps) -> u64, inputs: Seq<u64>) -> CombView
        decreases inputs.len(),
    {
        if inputs.len() == 0 {
            self
        } else {
            let before = self.run(kernel, inputs.drop_last());
            before.advanced(inputs.last(), kernel(inputs.last(), before.taps()))
        }
    }

    /// The output of step `n` of that run.
    pub open spec fn output(
        self,
        kernel: spec_fn(u64, CombTaps) -> u64,
        inputs: Seq<u64>,
        n: int,
    ) -> u64 {
        kernel(inputs[n], self.run(kernel, inputs.take(n)).taps())
    }

    /// The outputs of that run, in the order of the run.
    pub open spec fn response(
        self,
        kernel: spec_fn(u64, CombTaps) -> u64,
        inputs: Seq<u64>,
    ) -> Seq<u64> {
        Seq::new(inputs.len(), |n: int| self.output(kernel, inputs, n))
    }

    /// The filter with its history returned to silence.
    pub open spec fn silenced(self) -> CombView {
        CombView {
            outputs: silence(self.outputs.len()),
            inputs: silence(self.inputs.len()),
            ..self
        }
    }

    /// Whether the filter has heard and said nothing but silence.
    pub open spec fn is_silent(self) -> bool {
        is_silent(self.outputs) && is_silent(self.inputs)
    }
}

/// The history of an input line that may not be kept.
spec fn kept(line: Option<DelayLine>) -> Seq<u64> {
    match line {
        Some(line) => line@,
        None => Seq::empty(),
    }
}

/// Pushes `word` into the line, where there is one.
fn push_where_kept(line: &mut Option<DelayLine>, word: u64)
    ensures
        (*final(line)) is Some <==> (*old(line)) is Some,
        (*old(line)) is Some ==> kept(*final(line)) == pushed(kept(*old(line)), word),
    no_unwind
{
    match line {
        Some(line) => {
            line.push(word);
        },
        None => {},
    }
}

/// Returns the line to silence, where there is one.
fn reset_where_kept(line: &mut Option<DelayLine>)
    ensures
        (*final(line)) is Some <==> (*old(line)) is Some,
        kept(*final(line)) == silence(kept(*old(line)).len()),
    no_unwind
{
    match line {
        Some(line) => {
            line.reset();
        },
        None => {
            assert(kept(*line) =~= silence(0));
        },
    }
}

/// A comb filter's state: its history and its configuration, which is fixed
/// at construction.
pub struct CombFilter {
    buffer: DelayLine,
    x_buffer: Option<DelayLine>,
    delay: usize,
    feedback: u64,
    comb_type: CombType,
    use_lpf: bool,
    lpf_g: u64,
}

impl View for CombFilter {
    type V = CombView;

    closed spec fn view(&self) -> CombView {
        CombView {
            outputs: self.buffer@,
            inputs: kept(self.x_buffer),
            delay: self.delay as nat,
            feedback: self.feedback,
            comb_type: self.comb_type,
            use_lpf: self.use_lpf,
            lpf_g: self.lpf_g,
        }
    }
}

impl CombFilter {
    #[verifier::type_invariant]
    spec fn inv(self) -> bool {
        &&& self@.wf()
        &&& self.use_lpf <==> self.x_buffer is Some
    }

    /// A comb filter over a history of silence. A feedback outside `[0, 1]`
    /// is set to the nearer end. A delay of zero is refused, and so is one
    /// whose taps would reach past `MAX_INDEX` samples.
    pub fn new(delay: usize, feedback: u64, comb_type: CombType, use_lpf: bool, lpf_g: u64) -> (r:
        Result<CombFilter, ConfigError>)
        ensures
            delay == 0 <==> r == Err::<CombFilter, ConfigError>(ConfigError::ZeroDelay),
            delay != 0 && !delay_fits(delay, use_lpf) <==> r == Err::<CombFilter, ConfigError>(
                ConfigError::DelayTooLong,
            ),
            delay_fits(delay, use_lpf) <==> r is Ok,
            r matches Ok(filter) ==> filter@ == CombView::fresh(
                delay,
                feedback,
                comb_type,
                use_lpf,
                lpf_g,
            ) && filter@.wf(),
    {
        if delay == 0 {
            return Err(ConfigError::ZeroDelay);
        }
        if delay >= MAX_INDEX - 1 && (use_lpf || delay >= MAX_INDEX) {
            return Err(ConfigError::DelayTooLong);
        }
        let feedback = clamp(feedback, ZERO, ONE);
        proof {
            lemma_clamp_idempotent(feedback, ZERO, ONE);
        }
        let buffer = match DelayLine::new(MAX_INDEX) {
            Ok(line) => line,
            Err(e) => {
                return Err(e);
            },
        };
        let x_buffer = if use_lpf {
            match DelayLine::new(MAX_INDEX) {
                Ok(line) => Some(line),
                Err(e) => {
                    return Err(e);
                },
            }
        } else {
            None
        };
        Ok(CombFilter { buffer, x_buffer, delay, feedback, comb_type, use_lpf, lpf_g })
    }

    /// A plain comb filter.
    pub fn new_comb(delay: usize, feedback: u64, comb_type: CombType) -> (r: Result<
        CombFilter,
        ConfigError,
    >)
        ensures
            delay == 0 <==> r == Err::<CombFilter, ConfigError>(ConfigError::ZeroDelay),
            delay >= MAX_INDEX <==> r == Err::<CombFilter, ConfigError>(ConfigError::DelayTooLong),
            delay_fits(delay, false) <==> r is Ok,
            r matches Ok(filter) ==> filter@ == CombView::fresh(
                delay,
                feedback,
                comb_type,
                false,
                ZERO,
            ) && filter@.wf(),
    {
        CombFilter::new(delay, feedback, comb_type, false, ZERO)
    }

    /// A damped comb filter: positive, with a one-pole low-pass of
    /// coefficient `lpf_g` in its loop.
    pub fn new_lpf_comb(delay: usize, feedback: u64, lpf_g: u64) -> (r: Result<
        CombFilter,
        ConfigError,
    >)
        ensures
            delay == 0 <==> r == Err::<CombFilter, ConfigError>(ConfigError::ZeroDelay),
            delay + 1 >= MAX_INDEX <==> r == Err::<CombFilter, ConfigError>(
                ConfigError::DelayTooLong,
            ),
            delay_fits(delay, true) <==> r is Ok,
            r matches Ok(filter) ==> filter@ == CombView::fresh(
                delay,
                feedback,
                CombType::POSITIVE,
                true,
                lpf_g,
            ) && filter@.wf(),
    {
        CombFilter::new(delay, feedback, CombType::POSITIVE, true, lpf_g)
    }

    /// The taps of the next step.
    pub fn taps(&self) -> (t: CombTaps)
        ensures
            t == self@.taps(),
            self@.wf(),
    {
        proof {
            use_type_invariant(self);
        }
        let delayed = self.buffer.read(self.delay);
        match &self.x_buffer {
            Some(line) => CombTaps {
                delayed,
                prev_input: line.read(self.delay + 1),
                prev_output: self.buffer.read(1),
            },
            None => CombTaps { delayed, prev_input: ZERO, prev_output: ZERO },
        }
    }

    /// Ends a step: `y`, the output that the host computed from the taps and
    /// the input `x`, becomes the newest output, and in a damped comb `x` the
    /// newest input.
    pub fn advance(&mut self, x: u64, y: u64)
        ensures
            final(self)@ == old(self)@.advanced(x, y),
            final(self)@.wf(),
        no_unwind
    {
        proof {
            use_type_invariant(&*self);
        }
        self.buffer.push(y);
        push_where_kept(&mut self.x_buffer, x);
    }

    /// Returns the history to silence; the configuration stays.
    pub fn reset(&mut self)
        ensures
            final(self)@ == old(self)@.silenced(),
            final(self)@.wf(),
        no_unwind
    {
        proof {
            use_type_invariant(&*self);
        }
        self.buffer.reset();
        reset_where_kept(&mut self.x_buffer);
    }

    /// The delay in samples.
    pub fn delay(&self) -> (delay: usize)
        ensures
            delay == self@.delay,
    {
        self.delay
    }

    /// The feedback gain, as it was clamped.
    pub fn feedback(&self) -> (feedback: u64)
        ensures
            feedback == self@.feedback,
    {
        self.feedback
    }

    /// The sign of the feedback.
    pub fn comb_type(&self) -> (comb_type: CombType)
        ensures
            comb_type == self@.comb_type,
    {
        self.comb_type
    }

    /// Whether the comb is damped.
    pub fn use_lpf(&self) -> (use_lpf: bool)
        ensures
            use_lpf == self@.use_lpf,
    {
        self.use_lpf
    }

    /// The coefficient of the low-pass in the loop.
    pub fn lpf_g(&self) -> (lpf_g: u64)
        ensures
            lpf_g == self@.lpf_g,
    {
        self.lpf_g
    }
}

impl Clone for CombFilter {
    /// A second comb filter with the same history and configuration.
    fn clone(&self) -> (copy: Self)
        ensures
            copy@ == self@,
    {
        proof {
            use_type_invariant(self);
        }
        let x_buffer = match &self.x_buffer {
            Some(line) => Some(line.clone()),
            None => None,
        };
        CombFilter {
            buffer: self.buffer.clone(),
            x_buffer,
            delay: self.delay,
            feedback: self.feedback,
            comb_type: self.comb_type,
            use_lpf: self.use_lpf,
            lpf_g: self.lpf_g,
        }
    }
}

/// What a run of steps leaves of a comb filter: the outputs of the run are
/// pushed into the output history, the inputs into the input history of a
/// damped comb, and the configuration stays.
pub proof fn lemma_steps(v: CombView, steps: Seq<Step>)
    ensures
        v.advanced_all(steps) == (CombView {
            outputs: pushed_all(v.outputs, outputs_of(steps)),
            inputs: if v.use_lpf {
                pushed_all(v.inputs, inputs_of(steps))
            } else {
                v.inputs
            },
            ..v
        }),
    decreases steps.len(),
{
    if steps.len() > 0 {
        lemma_steps(v, steps.drop_last());
        lemma_steps_drop_last(steps);
    }
}

/// The echo of a comb filter. The output of a step is the delayed tap of the
/// step that comes `delay + 1` steps after it, whatever was pushed in between:
/// the period of the filter is `delay + 1` samples.
pub proof fn lemma_echo(v: CombView, x: u64, y: u64, between: Seq<Step>)
    requires
        v.wf(),
        between.len() == v.delay,
    ensures
        v.advanced(x, y).advanced_all(between).taps().delayed == y,
{
    lemma_steps(v.advanced(x, y), between);
    lemma_pushed_word_ages(v.outputs, y, outputs_of(between));
}

/// A run of steps keeps a comb filter well formed.
pub proof fn lemma_steps_wf(v: CombView, steps: Seq<Step>)
    requires
        v.wf(),
    ensures
        v.advanced_all(steps).wf(),
    decreases steps.len(),
{
    if steps.len() > 0 {
        lemma_steps_wf(v, steps.drop_last());
    }
}

/// Silence in, silence out, as far as the history goes: a silent comb filter
/// hands out silent taps, and a step that takes silence and gives silence
/// leaves it as it was. A new filter is silent, and so is one that was reset.
pub proof fn lemma_silence(v: CombView)
    requires
        v.wf(),
    ensures
        v.silenced().is_silent(),
        v.silenced().wf(),
        v.is_silent() ==> v.taps() == (CombTaps {
            delayed: ZERO,
            prev_input: ZERO,
            prev_output: ZERO,
        }),
        v.is_silent() ==> v.advanced(ZERO, ZERO) == v,
{
    if v.is_silent() {
        lemma_silence_stays(v.outputs);
        if v.use_lpf {
            lemma_silence_stays(v.inputs);
        }
    }
}

/// A run is determined by its start, the host and the inputs: two comb
/// filters with the same view hand out the same taps, the same steps lead them
/// to the same view, and under the same host the same inputs draw the same
/// outputs from them.
pub proof fn lemma_determined(
    a: CombFilter,
    b: CombFilter,
    steps: Seq<Step>,
    kernel: spec_fn(u64, CombTaps) -> u64,
    inputs: Seq<u64>,
)
    requires
        a@ == b@,
    ensures
        a@.taps() == b@.taps(),
        a@.advanced_all(steps) == b@.advanced_all(steps),
        a@.run(kernel, inputs) == b@.run(kernel, inputs),
        a@.response(kernel, inputs) == b@.response(kernel, inputs),
{
}

/// A run is a run of steps: the steps of its inputs and its outputs. So its
/// outputs are pushed into the output history, its inputs into the input
/// history of a damped comb, and the configuration stays.
pub proof fn lemma_run(v: CombView, kernel: spec_fn(u64, CombTaps) -> u64, inputs: Seq<u64>)
    ensures
        v.run(kernel, inputs) == (CombView {
            outputs: pushed_all(v.outputs, v.response(kernel, inputs)),
            inputs: if v.use_lpf {
                pushed_all(v.inputs, inputs)
            } else {
                v.inputs
            },
            ..v
        }),
        v.wf() ==> v.run(kernel, inputs).wf(),
    decreases inputs.len(),
{
    if inputs.len() > 0 {
        let earlier = inputs.drop_last();
        lemma_run(v, kernel, earlier);
        assert(inputs.take(inputs.len() - 1) =~= earlier);
        assert forall|n: int| 0 <= n < earlier.len() implies v.output(kernel, earlier, n)
            == v.output(kernel, inputs, n) by {
            assert(earlier.take(n) =~= inputs.take(n));
        }
        assert(v.response(kernel, inputs).drop_last() =~= v.response(kernel, earlier));
    }
}

/// The delayed tap of step `n` of a run: the output of `delay + 1` steps
/// before, or what the filter held before the run where the run is younger
/// than that.
pub proof fn lemma_delayed_tap(
    v: CombView,
    kernel: spec_fn(u64, CombTaps) -> u64,
    inputs: Seq<u64>,
    n: int,
)
    requires
        v.wf(),
        0 <= n <= inputs.len(),
    ensures
        v.run(kernel, inputs.take(n)).taps().delayed == if n > v.delay {
            v.output(kernel, inputs, n - 1 - v.delay)
        } else {
            v.outputs[v.delay - n]
        },
{
    let so_far = inputs.take(n);
    lemma_run(v, kernel, so_far);
    lemma_read_after_pushes(v.outputs, v.response(kernel, so_far), v.delay as int);
    if n > v.delay {
        let m = n - 1 - v.delay;
        assert(so_far.take(m) =~= inputs.take(m));
    }
}

/// Silence in, silence out: where the host gives silence for silence over
/// silent taps, a silent comb filter that is fed silence gives silence at
/// every step, and is left as it was.
pub proof fn lemma_silent_run(
    v: CombView,
    kernel: spec_fn(u64, CombTaps) -> u64,
    inputs: Seq<u64>,
)
    requires
        v.wf(),
        v.is_silent(),
        kernel(ZERO, silent_taps()) == ZERO,
        forall|n: int| 0 <= n < inputs.len() ==> inputs[n] == ZERO,
    ensures
        v.run(kernel, inputs) == v,
        forall|n: int| 0 <= n < inputs.len() ==> v.output(kernel, inputs, n) == ZERO,
    decreases inputs.len(),
{
    lemma_silence(v);
    if inputs.len() > 0 {
        lemma_silent_run(v, kernel, inputs.drop_last());
        assert forall|n: int| 0 <= n < inputs.len() implies v.output(kernel, inputs, n)
            == ZERO by {
            lemma_silent_run(v, kernel, inputs.take(n));
        }
    }
}

/// The impulse response of a plain comb filter. Where the host gives silence
/// for silence over silent taps, a silent filter that is fed an impulse and
/// then silence gives an echo every `delay + 1` samples and silence in
/// between: step `k * (delay + 1)` gives echo `k`, which the host computes
/// from the echo before it.
pub proof fn lemma_impulse_response(
    v: CombView,
    kernel: spec_fn(u64, CombTaps) -> u64,
    x: u64,
    len: nat,
    k: nat,
    r: nat,
)
    requires
        v.wf(),
        v.is_silent(),
        !v.use_lpf,
        kernel(ZERO, silent_taps()) == ZERO,
        r <= v.delay,
        k * (v.delay + 1) + r < len,
    ensures
        v.output(kernel, impulse(x, len), (k * (v.delay + 1) + r) as int) == if r == 0 {
            echo(kernel, x, k)
        } else {
            ZERO
        },
    decreases k,
{
    let inputs = impulse(x, len);
    let period: int = v.delay as int + 1;
    let n: int = k * period + r;
    lemma_delayed_tap(v, kernel, inputs, n);
    lemma_run(v, kernel, inputs.take(n));
    if k == 0 {
        assert(n == r) by (nonlinear_arith)
            requires
                n == k * period + r,
                k == 0,
        ;
    } else {
        let before = (k - 1) as nat;
        assert(n - period == before * period + r && n >= period && n != 0) by (nonlinear_arith)
            requires
                n == k * period + r,
                before == k - 1,
                k >= 1,
                period >= 1,
        ;
        lemma_impulse_response(v, kernel, x, len, before, r);
    }
}

} // verus!
