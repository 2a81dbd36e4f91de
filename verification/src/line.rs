//! The delay line: a fixed-capacity history of samples with indexed lookback.

use crate::error::ConfigError;
use crate::ring::{
    ring_get, ring_items, ring_limit, ring_push_back, ring_push_front, ring_with_capacity,
    MAX_CAPACITY,
};
use crate::sample::ZERO;
use circular_buffer::HeapCircularBuffer;
use vstd::prelude::*;

verus! {

/// A history of `n` samples of silence.
pub open spec fn silence(n: nat) -> Seq<u64> {
    Seq::new(n, |i: int| ZERO)
}

/// Whether every sample of a history is silence.
pub open spec fn is_silent(history: Seq<u64>) -> bool {
    forall|i: int| 0 <= i < history.len() ==> history[i] == ZERO
}

/// A history after `word` was pushed: the word is the newest sample, and the
/// oldest one is gone.
pub open spec fn pushed(history: Seq<u64>, word: u64) -> Seq<u64> {
    seq![word] + history.drop_last()
}

/// A history after each of `words` was pushed in turn, the first of them
/// first.
pub open spec fn pushed_all(history: Seq<u64>, words: Seq<u64>) -> Seq<u64>
    decreases words.len(),
{
    if words.len() == 0 {
        history
    } else {
        pushed(pushed_all(history, words.drop_last()), words.last())
    }
}

/// One step of a node: its input, and the output that the host computed for
/// it.
pub struct Step {
    pub input: u64,
    pub output: u64,
}

/// The inputs of a run of steps, in the order of the run.
pub open spec fn inputs_of(steps: Seq<Step>) -> Seq<u64> {
    Seq::new(steps.len(), |i: int| steps[i].input)
}

/// The outputs of a run of steps, in the order of the run.
pub open spec fn outputs_of(steps: Seq<Step>) -> Seq<u64> {
    Seq::new(steps.len(), |i: int| steps[i].output)
}

/// A fixed-capacity ring of samples. Its view is the history, newest sample
/// first: `line@[n]` is the sample that is `n` pushes older than the newest.
/// The length of the view is the capacity. It is set at construction, is at
/// least one, and never changes; a new line holds silence, so that every
/// lookback within the capacity is defined from the first read on.
pub struct DelayLine {
    ring: HeapCircularBuffer<u64>,
    capacity: usize,
}

impl View for DelayLine {
    type V = Seq<u64>;

    closed spec fn view(&self) -> Seq<u64> {
        ring_items(self.ring)
    }
}

impl DelayLine {
    #[verifier::type_invariant]
    spec fn inv(self) -> bool {
        &&& 1 <= self.capacity <= MAX_CAPACITY
        &&& ring_limit(self.ring) == self.capacity
        &&& ring_items(self.ring).len() == self.capacity
    }

    /// A line of `capacity` samples of silence. A capacity of zero is
    /// refused, and so is one above `MAX_CAPACITY`.
    pub fn new(capacity: usize) -> (r: Result<DelayLine, ConfigError>)
        ensures
            capacity == 0 <==> r == Err::<DelayLine, ConfigError>(ConfigError::ZeroCapacity),
            capacity > MAX_CAPACITY <==> r == Err::<DelayLine, ConfigError>(
                ConfigError::CapacityTooLarge,
            ),
            1 <= capacity <= MAX_CAPACITY <==> r is Ok,
            r matches Ok(line) ==> line@ == silence(capacity as nat),
    {
        if capacity == 0 {
            return Err(ConfigError::ZeroCapacity);
        }
        if capacity > MAX_CAPACITY {
            return Err(ConfigError::CapacityTooLarge);
        }
        let mut ring = ring_with_capacity(capacity);
        let mut filled: usize = 0;
        while filled < capacity
            invariant
                filled <= capacity,
                ring_limit(ring) == capacity,
                ring_items(ring) == silence(filled as nat),
            decreases capacity - filled,
        {
            ring_push_back(&mut ring, ZERO);
            filled = filled + 1;
            assert(ring_items(ring) =~= silence(filled as nat));
        }
        Ok(DelayLine { ring, capacity })
    }

    /// The number of samples that the line holds.
    pub fn capacity(&self) -> (n: usize)
        ensures
            n == self@.len(),
            1 <= n <= MAX_CAPACITY,
    {
        proof {
            use_type_invariant(self);
        }
        self.capacity
    }

    /// Writes `word` as the newest sample and returns the oldest, which
    /// leaves the line.
    pub fn push(&mut self, word: u64) -> (evicted: u64)
        ensures
            final(self)@ == pushed(old(self)@, word),
            final(self)@.len() == old(self)@.len(),
            old(self)@.len() >= 1,
            evicted == old(self)@.last(),
        no_unwind
    {
        proof {
            use_type_invariant(&*self);
        }
        match ring_push_front(&mut self.ring, word) {
            Some(oldest) => oldest,
            None => ZERO,
        }
    }

    /// The sample that is `lookback` pushes older than the newest.
    pub fn read(&self, lookback: usize) -> (word: u64)
        requires
            lookback < self@.len(),
        ensures
            word == self@[lookback as int],
    {
        match ring_get(&self.ring, lookback) {
            Some(word) => word,
            None => ZERO,
        }
    }

    /// The sample that is `lookback` pushes older than the newest, or `None`
    /// where the line does not reach that far back.
    pub fn try_read(&self, lookback: usize) -> (word: Option<u64>)
        ensures
            word == if lookback < self@.len() {
                Some(self@[lookback as int])
            } else {
                None
            },
    {
        ring_get(&self.ring, lookback)
    }

    /// Returns the line to silence.
    pub fn reset(&mut self)
        ensures
            final(self)@ == silence(old(self)@.len()),
        no_unwind
    {
        proof {
            use_type_invariant(&*self);
        }
        let mut done: usize = 0;
        while done < self.capacity
            invariant
                done <= self.capacity,
                self.capacity == old(self).capacity,
                1 <= self.capacity <= MAX_CAPACITY,
                ring_limit(self.ring) == self.capacity,
                ring_items(self.ring).len() == self.capacity,
                forall|i: int| 0 <= i < done ==> self@[i] == ZERO,
            decreases self.capacity - done,
        {
            let ghost before = self@;
            ring_push_front(&mut self.ring, ZERO);
            done = done + 1;
            assert forall|i: int| 0 <= i < done implies self@[i] == ZERO by {
                if i > 0 {
                    assert(self@[i] == before[i - 1]);
                }
            }
        }
        assert(self@ =~= silence(old(self)@.len()));
    }
}

impl Clone for DelayLine {
    /// A second line with the same history.
    fn clone(&self) -> (copy: Self)
        ensures
            copy@ == self@,
    {
        proof {
            use_type_invariant(self);
        }
        let mut ring = ring_with_capacity(self.capacity);
        let mut copied: usize = 0;
        while copied < self.capacity
            invariant
                copied <= self.capacity,
                ring_items(self.ring).len() == self.capacity,
                ring_limit(ring) == self.capacity,
                ring_items(ring) == ring_items(self.ring).take(copied as int),
            decreases self.capacity - copied,
        {
            let word: u64 = match ring_get(&self.ring, copied) {
                Some(word) => word,
                None => ZERO,
            };
            ring_push_back(&mut ring, word);
            copied = copied + 1;
            assert(ring_items(ring) =~= ring_items(self.ring).take(copied as int));
        }
        assert(ring_items(ring) =~= ring_items(self.ring));
        DelayLine { ring, capacity: self.capacity }
    }
}

/// Pushing keeps the length of a history.
pub proof fn lemma_pushed_all_len(history: Seq<u64>, words: Seq<u64>)
    requires
        history.len() >= 1,
    ensures
        pushed_all(history, words).len() == history.len(),
    decreases words.len(),
{
    if words.len() > 0 {
        lemma_pushed_all_len(history, words.drop_last());
    }
}

/// What a line reads back after a run of pushes. At a lookback below the
/// number of pushes it is the word pushed that many pushes before the last
/// one; beyond, it is what the line held before the run, that many places
/// further back.
pub proof fn lemma_read_after_pushes(history: Seq<u64>, words: Seq<u64>, lookback: int)
    requires
        history.len() >= 1,
        0 <= lookback < history.len(),
    ensures
        pushed_all(history, words).len() == history.len(),
        lookback < words.len() ==> pushed_all(history, words)[lookback] == words[words.len() - 1
            - lookback],
        lookback >= words.len() ==> pushed_all(history, words)[lookback] == history[lookback
            - words.len()],
    decreases words.len(),
{
    lemma_pushed_all_len(history, words);
    if words.len() > 0 {
        let earlier = words.drop_last();
        lemma_pushed_all_len(history, earlier);
        if lookback > 0 {
            lemma_read_after_pushes(history, earlier, lookback - 1);
        }
    }
}

/// A word that is pushed is the newest sample, and every further push moves
/// it one place back: after `later.len()` more pushes it is read at that
/// lookback, as long as the line reaches that far.
pub proof fn lemma_pushed_word_ages(history: Seq<u64>, word: u64, later: Seq<u64>)
    requires
        history.len() >= 1,
        later.len() < history.len(),
    ensures
        pushed_all(pushed(history, word), later)[later.len() as int] == word,
{
    lemma_read_after_pushes(pushed(history, word), later, later.len() as int);
}

/// The inputs and the outputs of a run without its last step are those of
/// the run without their last word.
pub proof fn lemma_steps_drop_last(steps: Seq<Step>)
    requires
        steps.len() > 0,
    ensures
        inputs_of(steps.drop_last()) == inputs_of(steps).drop_last(),
        outputs_of(steps.drop_last()) == outputs_of(steps).drop_last(),
        inputs_of(steps).last() == steps.last().input,
        outputs_of(steps).last() == steps.last().output,
{
    assert(inputs_of(steps.drop_last()) =~= inputs_of(steps).drop_last());
    assert(outputs_of(steps.drop_last()) =~= outputs_of(steps).drop_last());
}

/// Silence in, silence kept: a silent history into which silence is pushed
/// is silent.
pub proof fn lemma_silence_stays(history: Seq<u64>)
    requires
        history.len() >= 1,
        is_silent(history),
    ensures
        is_silent(pushed(history, ZERO)),
        pushed(history, ZERO) == history,
{
    assert(pushed(history, ZERO) =~= history);
}

/// A history of silence is silent, and is the only silent history of its
/// length.
pub proof fn lemma_silence_is_silent(history: Seq<u64>)
    ensures
        is_silent(silence(history.len())),
        is_silent(history) <==> history == silence(history.len()),
{
    if is_silent(history) {
        assert(history =~= silence(history.len()));
    }
}

} // verus!
