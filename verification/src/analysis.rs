//! Level, frequency, onset and pitch estimates.

use crate::block::{
    check_block, cols, output_at, read_at, renders, rows, same_from, same_lens, shape_verdict,
    state_after, ShapeError,
};
use crate::delay_line::{cursor_after, lemma_clear_after_new, DelayLine, DelayView};
use crate::sample::Sample;
use vstd::prelude::*;

verus! {

/// Root mean square over a sliding window of `window_size` samples.
#[derive(Debug)]
pub struct Rms<S> {
    pub window_size: usize,
    /// The delay line.
    pub line: DelayLine<S>,
    /// The sum of the squares of the samples in the window.
    pub sum_squares: S,
}

/// What `Rms` holds besides its settings.
pub struct RmsMemory<S> {
    pub line: DelayView<S>,
    pub sum_squares: S,
}

impl<S> View for Rms<S> {
    type V = RmsMemory<S>;

    open spec fn view(&self) -> RmsMemory<S> {
        RmsMemory { line: self.line@, sum_squares: self.sum_squares }
    }
}

impl<S: Sample> Rms<S> {
    /// Whether two nodes hold as many samples.
    pub open spec fn same_size(&self, other: &Rms<S>) -> bool {
        self.line@.len() == other.line@.len()
    }

    /// Whether two nodes have the same settings.
    pub open spec fn same_settings(&self, other: &Rms<S>) -> bool {
        self.window_size == other.window_size
    }

    /// What a node holds when `new` made it.
    pub open spec fn fresh(window_size: usize) -> RmsMemory<S> {
        RmsMemory { line: DelayView::filled(window_size as nat, S::zero()), sum_squares: S::zero() }
    }

    /// A node in its first state. Whatever the node allocates, it allocates here.
    pub fn new(window_size: usize) -> (r: Self)
        ensures
            S::obeys_sample_spec() ==> r@ == Self::fresh(window_size),
            r.line@.len() == Self::fresh(window_size).line.len(),
            r.window_size == window_size,
    {
        let line = DelayLine::new(window_size, S::zero());
        Rms {
            window_size,
            line,
            sum_squares: S::zero(),
        }
    }

    /// One sample: the square of the oldest sample leaves the sum and the square of
    /// the input enters it; the root of the sum over the length of the window is
    /// put out.
    pub open spec fn tick_spec(&self, st: RmsMemory<S>, x: S) -> (RmsMemory<S>, S) {
        let oldest = st.line.head();
        let sum = st.sum_squares.sub(oldest.mul(oldest)).add(x.mul(x));
        (
            RmsMemory { line: st.line.push(x), sum_squares: sum },
            sum.div(S::from_usize(st.line.len() as usize)).sqrt(),
        )
    }

    /// Performs `tick_spec` on the node in place and returns the sample.
    pub fn tick(&mut self, x: S) -> (y: S)
        ensures
            final(self).same_size(old(self)),
            final(self).same_settings(old(self)),
            final(self).line@.cursor == old(self).line@.step().cursor,
            S::obeys_sample_spec() ==> (final(self)@, y) == old(self).tick_spec(old(self)@, x),
    {
        let oldest = self.line.read();
        let sum = self.sum_squares.sub(oldest.mul(oldest)).add(x.mul(x));
        self.sum_squares = sum;
        self.line.push(x);
        sum.div(S::from_usize(self.line.len())).sqrt()
    }

    /// The node as a recursion over the samples of a block: the state before
    /// sample `i` to the state after it and the sample put out.
    pub open spec fn stepper(
        &self,
        inputs: Seq<Seq<S>>,
        sample_rate: S,
    ) -> spec_fn(RmsMemory<S>, int) -> (RmsMemory<S>, S) {
        |st: RmsMemory<S>, i: int| self.tick_spec(st, inputs[0][i])
    }

    /// Processes one block: runs the recursion over the samples of the block and
    /// writes output 0. A call whose slices do not fit is refused and changes
    /// nothing. Nothing is allocated.
    pub fn process(
        &mut self,
        inputs: &[&[S]],
        outputs: &mut [Vec<S>],
        sample_rate: S,
    ) -> (r: Result<(), ShapeError>)
        ensures
            r == shape_verdict(rows(inputs), cols(old(outputs)@), 1, 1, 1, 1),
            same_lens(final(outputs)@, old(outputs)@),
            same_from(final(outputs)@, old(outputs)@, 1),
            final(self).same_size(old(self)),
            final(self).same_settings(old(self)),
            r.is_err() ==> final(self)@ == old(self)@ && final(outputs)@ == old(outputs)@,
            r.is_ok() ==> final(self).line@.cursor == cursor_after(
                old(self).line@.cursor,
                old(self).line@.len(),
                final(outputs)@[0]@.len(),
            ),
            r.is_ok() && S::obeys_sample_spec() ==> renders(
                old(self).stepper(rows(inputs), sample_rate),
                old(self)@,
                final(self)@,
                final(outputs)@[0]@,
            ),
    {
        let n: usize = match check_block(inputs, outputs, 1, 1, 1, 1) {
            Ok(n) => n,
            Err(e) => {
                return Err(e);
            },
        };
        let ghost st_node = *self;
        let ghost f = st_node.stepper(rows(inputs), sample_rate);
        let ghost st0 = self@;
        let mut i: usize = 0;
        while i < n
            invariant
                i <= n,
                inputs@.len() >= 1,
                outputs@.len() >= 1,
                outputs@[0]@.len() == n,
                forall|p: int| 0 <= p < 1 ==> (#[trigger] inputs@[p])@.len() == n,
                same_lens(outputs@, old(outputs)@),
                same_from(outputs@, old(outputs)@, 1),
                self.same_size(old(self)),
                self.line@.cursor == cursor_after(
                    old(self).line@.cursor,
                    old(self).line@.len(),
                    i as nat,
                ),
                self.same_settings(old(self)),
                self.same_settings(&st_node),
                f == st_node.stepper(rows(inputs), sample_rate),
                S::obeys_sample_spec() ==> self@ == state_after(f, st0, i as nat),
                S::obeys_sample_spec() ==> forall|j: int|
                    0 <= j < i ==> outputs@[0]@[j] == #[trigger] output_at(f, st0, j),
            decreases n - i,
        {
            let x = read_at(inputs, 0, i);
            let y = self.tick(x);
            outputs[0][i] = y;
            i += 1;
        }
        Ok(())
    }

    /// Puts the node back to what `new` gave it; its settings and the lengths of
    /// its lines stay. Nothing is allocated.
    pub fn reset(&mut self)
        ensures
            final(self).same_size(old(self)),
            final(self).same_settings(old(self)),
            S::obeys_sample_spec() ==>
                final(self)@ == (RmsMemory { line: old(self)@.line.cleared(S::zero()), sum_squares: S::zero() }),
    {
        self.line.clear(S::zero());
        self.sum_squares = S::zero();
    }

    /// A reset right after `new` changes nothing.
    pub proof fn lemma_reset_after_new(window_size: usize)
        ensures
            (RmsMemory { line: Self::fresh(window_size).line.cleared(S::zero()), sum_squares: S::zero() }) == Self::fresh(window_size),
    {
        lemma_clear_after_new(window_size as nat, S::zero());
    }

    /// The number of inputs that a call requires.
    pub fn num_inputs(&self) -> (r: usize)
        ensures
            r == 1,
    {
        1
    }

    /// The number of outputs that a call writes.
    pub fn num_outputs(&self) -> (r: usize)
        ensures
            r == 1,
    {
        1
    }
}

/// Peak detector that holds a peak for `hold_ms` milliseconds and lets it decay
/// after that.
#[derive(Debug, Clone, Copy)]
pub struct Peak<S> {
    pub hold_ms: S,
    pub peak_value: S,
    /// The samples for which the peak is still held.
    pub hold_counter: S,
    /// The sample rate that the hold time is counted at.
    pub sample_rate: S,
}

impl<S: Sample> Peak<S> {
    /// A node in its first state.
    pub open spec fn new_spec(hold_ms: S, sample_rate: S) -> Self {
        Peak { hold_ms, peak_value: S::zero(), hold_counter: S::zero(), sample_rate }
    }

    /// Computes `new_spec`.
    #[verifier::when_used_as_spec(new_spec)]
    pub fn new(hold_ms: S, sample_rate: S) -> (r: Self)
        ensures
            S::obeys_sample_spec() ==> r == Self::new_spec(hold_ms, sample_rate),
    {
        Peak { hold_ms, peak_value: S::zero(), hold_counter: S::zero(), sample_rate }
    }

    /// Whether two nodes have the same settings.
    pub open spec fn same_settings(self, other: Self) -> bool {
        &&& self.hold_ms == other.hold_ms
        &&& self.sample_rate == other.sample_rate
    }

    /// The hold time in samples, at the sample rate of the node.
    pub open spec fn hold_samples_spec(&self, sample_rate: S) -> S {
        self.hold_ms.mul(S::ratio(1, 1000)).mul(self.sample_rate)
    }

    /// Computes `hold_samples_spec`.
    #[verifier::when_used_as_spec(hold_samples_spec)]
    pub fn hold_samples(&self, sample_rate: S) -> (r: S)
        ensures
            S::obeys_sample_spec() ==> r == self.hold_samples_spec(sample_rate),
    {
        self.hold_ms.mul(S::ratio(1, 1000)).mul(self.sample_rate)
    }

    /// One sample: a level above the peak becomes the peak and starts the hold;
    /// elsewhere the hold runs down, and after it the peak decays by a thousandth
    /// per sample.
    pub open spec fn tick_spec(self, x: S, hold: S) -> (Self, S) {
        let level = x.abs();
        let next = if level.gt(self.peak_value) {
            Peak {
                hold_ms: self.hold_ms,
                sample_rate: self.sample_rate,
                peak_value: level,
                hold_counter: hold,
            }
        } else if self.hold_counter.gt(S::zero()) {
            Peak {
                hold_ms: self.hold_ms,
                sample_rate: self.sample_rate,
                peak_value: self.peak_value,
                hold_counter: self.hold_counter.sub(S::one()),
            }
        } else {
            Peak {
                hold_ms: self.hold_ms,
                sample_rate: self.sample_rate,
                peak_value: self.peak_value.mul(S::ratio(999, 1000)),
                hold_counter: self.hold_counter,
            }
        };
        (next, next.peak_value)
    }

    /// Computes `tick_spec`.
    #[verifier::when_used_as_spec(tick_spec)]
    pub fn tick(self, x: S, hold: S) -> (r: (Self, S))
        ensures
            r.0.same_settings(self),
            S::obeys_sample_spec() ==> r == self.tick_spec(x, hold),
    {
        let level = x.abs();
        let next = if level.gt(self.peak_value) {
            Peak {
                hold_ms: self.hold_ms,
                sample_rate: self.sample_rate,
                peak_value: level,
                hold_counter: hold,
            }
        } else if self.hold_counter.gt(S::zero()) {
            Peak {
                hold_ms: self.hold_ms,
                sample_rate: self.sample_rate,
                peak_value: self.peak_value,
                hold_counter: self.hold_counter.sub(S::one()),
            }
        } else {
            Peak {
                hold_ms: self.hold_ms,
                sample_rate: self.sample_rate,
                peak_value: self.peak_value.mul(S::ratio(999, 1000)),
                hold_counter: self.hold_counter,
            }
        };
        (next, next.peak_value)
    }

    /// The node as a recursion over the samples of a block: the state before
    /// sample `i` to the state after it and the sample put out.
    pub open spec fn stepper(
        inputs: Seq<Seq<S>>,
        sample_rate: S,
    ) -> spec_fn(Self, int) -> (Self, S) {
        |st: Self, i: int| st.tick(inputs[0][i], st.hold_samples(sample_rate))
    }

    /// Processes one block: runs the recursion over the samples of the block and
    /// writes output 0. A call whose slices do not fit is refused and changes
    /// nothing. Nothing is allocated.
    pub fn process(
        &mut self,
        inputs: &[&[S]],
        outputs: &mut [Vec<S>],
        sample_rate: S,
    ) -> (r: Result<(), ShapeError>)
        ensures
            r == shape_verdict(rows(inputs), cols(old(outputs)@), 1, 1, 1, 1),
            same_lens(final(outputs)@, old(outputs)@),
            same_from(final(outputs)@, old(outputs)@, 1),
            r.is_err() ==> *final(self) == *old(self) && final(outputs)@ == old(outputs)@,
            final(self).same_settings(*old(self)),
            r.is_ok() && S::obeys_sample_spec() ==> renders(
                Self::stepper(rows(inputs), sample_rate),
                *old(self),
                *final(self),
                final(outputs)@[0]@,
            ),
    {
        let n: usize = match check_block(inputs, outputs, 1, 1, 1, 1) {
            Ok(n) => n,
            Err(e) => {
                return Err(e);
            },
        };
        let ghost f = Self::stepper(rows(inputs), sample_rate);
        let ghost st0 = *self;
        let prep = self.hold_samples(sample_rate);
        let mut i: usize = 0;
        while i < n
            invariant
                i <= n,
                inputs@.len() >= 1,
                outputs@.len() >= 1,
                outputs@[0]@.len() == n,
                forall|p: int| 0 <= p < 1 ==> (#[trigger] inputs@[p])@.len() == n,
                same_lens(outputs@, old(outputs)@),
                same_from(outputs@, old(outputs)@, 1),
                f == Self::stepper(rows(inputs), sample_rate),
                self.same_settings(st0),
                S::obeys_sample_spec() ==> prep == self.hold_samples(sample_rate),
                S::obeys_sample_spec() ==> *self == state_after(f, st0, i as nat),
                S::obeys_sample_spec() ==> forall|j: int|
                    0 <= j < i ==> outputs@[0]@[j] == #[trigger] output_at(f, st0, j),
            decreases n - i,
        {
            let x = read_at(inputs, 0, i);
            let (next, y) = self.tick(x, prep);
            *self = next;
            outputs[0][i] = y;
            i += 1;
        }
        Ok(())
    }

    /// Puts the node back to the state that `new` gave it; its settings stay.
    pub open spec fn reset_spec(self) -> Self {
        Peak {
            hold_ms: self.hold_ms,
            sample_rate: self.sample_rate,
            peak_value: S::zero(),
            hold_counter: S::zero(),
        }
    }

    /// Performs `reset_spec` in place.
    pub fn reset(&mut self)
        ensures
            final(self).same_settings(*old(self)),
            S::obeys_sample_spec() ==> *final(self) == old(self).reset_spec(),
    {
        *self = Peak {
            hold_ms: self.hold_ms,
            sample_rate: self.sample_rate,
            peak_value: S::zero(),
            hold_counter: S::zero(),
        };
    }

    /// A reset right after `new` changes nothing.
    pub proof fn lemma_reset_after_new(hold_ms: S, sample_rate: S)
        ensures
            Self::new_spec(hold_ms, sample_rate)
                .reset_spec() == Self::new_spec(hold_ms, sample_rate),
    {
    }

    /// The number of inputs that a call requires.
    pub fn num_inputs(&self) -> (r: usize)
        ensures
            r == 1,
    {
        1
    }

    /// The number of outputs that a call writes.
    pub fn num_outputs(&self) -> (r: usize)
        ensures
            r == 1,
    {
        1
    }
}

/// Frequency estimate from the zero crossings in windows of `window_size`
/// samples. The estimate is put out with the last sample of a window; the other
/// samples are zero.
#[derive(Debug)]
pub struct FrequencyAnalyzer<S> {
    pub window_size: usize,
    /// The delay line.
    pub line: DelayLine<S>,
    /// The last input sample.
    pub last_sample: S,
    /// The zero crossings in the window so far.
    pub zero_crossings: usize,
}

/// What `FrequencyAnalyzer` holds besides its settings.
pub struct FrequencyAnalyzerMemory<S> {
    pub line: DelayView<S>,
    pub last_sample: S,
    pub zero_crossings: usize,
}

impl<S> View for FrequencyAnalyzer<S> {
    type V = FrequencyAnalyzerMemory<S>;

    open spec fn view(&self) -> FrequencyAnalyzerMemory<S> {
        FrequencyAnalyzerMemory {
            line: self.line@,
            last_sample: self.last_sample,
            zero_crossings: self.zero_crossings,
        }
    }
}

impl<S: Sample> FrequencyAnalyzer<S> {
    /// Whether two nodes hold as many samples.
    pub open spec fn same_size(&self, other: &FrequencyAnalyzer<S>) -> bool {
        self.line@.len() == other.line@.len()
    }

    /// Whether two nodes have the same settings.
    pub open spec fn same_settings(&self, other: &FrequencyAnalyzer<S>) -> bool {
        self.window_size == other.window_size
    }

    /// What a node holds when `new` made it.
    pub open spec fn fresh(window_size: usize) -> FrequencyAnalyzerMemory<S> {
        FrequencyAnalyzerMemory {
            line: DelayView::filled(window_size as nat, S::zero()),
            last_sample: S::zero(),
            zero_crossings: 0,
        }
    }

    /// A node in its first state. Whatever the node allocates, it allocates here.
    pub fn new(window_size: usize) -> (r: Self)
        ensures
            S::obeys_sample_spec() ==> r@ == Self::fresh(window_size),
            r.line@.len() == Self::fresh(window_size).line.len(),
            r.window_size == window_size,
    {
        let line = DelayLine::new(window_size, S::zero());
        FrequencyAnalyzer {
            window_size,
            line,
            last_sample: S::zero(),
            zero_crossings: 0,
        }
    }

    /// One sample: a change of sign counts as a crossing; where the window is full,
    /// the crossings times the sample rate over twice the length of the window are
    /// put out and the count starts again.
    pub open spec fn tick_spec(
        &self,
        st: FrequencyAnalyzerMemory<S>,
        x: S,
        sample_rate: S,
    ) -> (FrequencyAnalyzerMemory<S>, S) {
        let crossing = (st.last_sample.le(S::zero()) && x.gt(S::zero())) || (st.last_sample.ge(S::zero()) && x.lt(S::zero()));
        let count = if crossing && st.zero_crossings < usize::MAX {
            (st.zero_crossings + 1) as usize
        } else {
            st.zero_crossings
        };
        let line = st.line.push(x);
        if line.cursor == 0 {
            (
                FrequencyAnalyzerMemory { line, last_sample: x, zero_crossings: 0 },
                S::from_usize(count).mul(sample_rate)
                    .div(S::ratio(2, 1).mul(S::from_usize(line.len() as usize))),
            )
        } else {
            (FrequencyAnalyzerMemory { line, last_sample: x, zero_crossings: count }, S::zero())
        }
    }

    /// Performs `tick_spec` on the node in place and returns the sample.
    pub fn tick(&mut self, x: S, sample_rate: S) -> (y: S)
        ensures
            final(self).same_size(old(self)),
            final(self).same_settings(old(self)),
            final(self).line@.cursor == old(self).line@.step().cursor,
            S::obeys_sample_spec() ==> (final(self)@, y) == old(self)
                .tick_spec(old(self)@, x, sample_rate),
    {
        let crossing = (self.last_sample.le(S::zero()) && x.gt(S::zero())) || (self.last_sample.ge(S::zero()) && x.lt(S::zero()));
        let count: usize = if crossing && self.zero_crossings < usize::MAX {
            self.zero_crossings + 1
        } else {
            self.zero_crossings
        };
        self.line.push(x);
        self.last_sample = x;
        if self.line.cursor() == 0 {
            self.zero_crossings = 0;
            S::from_usize(count).mul(sample_rate)
                .div(S::ratio(2, 1).mul(S::from_usize(self.line.len())))
        } else {
            self.zero_crossings = count;
            S::zero()
        }
    }

    /// The node as a recursion over the samples of a block: the state before
    /// sample `i` to the state after it and the sample put out.
    pub open spec fn stepper(
        &self,
        inputs: Seq<Seq<S>>,
        sample_rate: S,
    ) -> spec_fn(FrequencyAnalyzerMemory<S>, int) -> (FrequencyAnalyzerMemory<S>, S) {
        |st: FrequencyAnalyzerMemory<S>, i: int| self.tick_spec(st, inputs[0][i], sample_rate)
    }

    /// Processes one block: runs the recursion over the samples of the block and
    /// writes output 0. A call whose slices do not fit is refused and changes
    /// nothing. Nothing is allocated.
    pub fn process(
        &mut self,
        inputs: &[&[S]],
        outputs: &mut [Vec<S>],
        sample_rate: S,
    ) -> (r: Result<(), ShapeError>)
        ensures
            r == shape_verdict(rows(inputs), cols(old(outputs)@), 1, 1, 1, 1),
            same_lens(final(outputs)@, old(outputs)@),
            same_from(final(outputs)@, old(outputs)@, 1),
            final(self).same_size(old(self)),
            final(self).same_settings(old(self)),
            r.is_err() ==> final(self)@ == old(self)@ && final(outputs)@ == old(outputs)@,
            r.is_ok() ==> final(self).line@.cursor == cursor_after(
                old(self).line@.cursor,
                old(self).line@.len(),
                final(outputs)@[0]@.len(),
            ),
            r.is_ok() && S::obeys_sample_spec() ==> renders(
                old(self).stepper(rows(inputs), sample_rate),
                old(self)@,
                final(self)@,
                final(outputs)@[0]@,
            ),
    {
        let n: usize = match check_block(inputs, outputs, 1, 1, 1, 1) {
            Ok(n) => n,
            Err(e) => {
                return Err(e);
            },
        };
        let ghost st_node = *self;
        let ghost f = st_node.stepper(rows(inputs), sample_rate);
        let ghost st0 = self@;
        let mut i: usize = 0;
        while i < n
            invariant
                i <= n,
                inputs@.len() >= 1,
                outputs@.len() >= 1,
                outputs@[0]@.len() == n,
                forall|p: int| 0 <= p < 1 ==> (#[trigger] inputs@[p])@.len() == n,
                same_lens(outputs@, old(outputs)@),
                same_from(outputs@, old(outputs)@, 1),
                self.same_size(old(self)),
                self.line@.cursor == cursor_after(
                    old(self).line@.cursor,
                    old(self).line@.len(),
                    i as nat,
                ),
                self.same_settings(old(self)),
                self.same_settings(&st_node),
                f == st_node.stepper(rows(inputs), sample_rate),
                S::obeys_sample_spec() ==> self@ == state_after(f, st0, i as nat),
                S::obeys_sample_spec() ==> forall|j: int|
                    0 <= j < i ==> outputs@[0]@[j] == #[trigger] output_at(f, st0, j),
            decreases n - i,
        {
            let x = read_at(inputs, 0, i);
            let y = self.tick(x, sample_rate);
            outputs[0][i] = y;
            i += 1;
        }
        Ok(())
    }

    /// Puts the node back to what `new` gave it; its settings and the lengths of
    /// its lines stay. Nothing is allocated.
    pub fn reset(&mut self)
        ensures
            final(self).same_size(old(self)),
            final(self).same_settings(old(self)),
            S::obeys_sample_spec() ==>
                final(self)@ == (FrequencyAnalyzerMemory { line: old(self)@.line.cleared(S::zero()), last_sample: S::zero(), zero_crossings: 0 }),
    {
        self.line.clear(S::zero());
        self.last_sample = S::zero();
        self.zero_crossings = 0;
    }

    /// A reset right after `new` changes nothing.
    pub proof fn lemma_reset_after_new(window_size: usize)
        ensures
            (FrequencyAnalyzerMemory { line: Self::fresh(window_size).line.cleared(S::zero()), last_sample: S::zero(), zero_crossings: 0 }) == Self::fresh(window_size),
    {
        lemma_clear_after_new(window_size as nat, S::zero());
    }

    /// The number of inputs that a call requires.
    pub fn num_inputs(&self) -> (r: usize)
        ensures
            r == 1,
    {
        1
    }

    /// The number of outputs that a call writes.
    pub fn num_outputs(&self) -> (r: usize)
        ensures
            r == 1,
    {
        1
    }
}

/// Spectral centroid, as a rough estimate that does not look at the signal: a
/// tenth of the sample rate.
#[derive(Debug, Clone, Copy)]
pub struct SpectralCentroid {
    pub fft_size: usize,
    pub write_pos: usize,
}

impl SpectralCentroid {
    pub fn new(fft_size: usize) -> (r: Self)
        ensures
            r == (SpectralCentroid { fft_size, write_pos: 0 }),
    {
        SpectralCentroid { fft_size, write_pos: 0 }
    }

    /// The estimate at a sample rate.
    pub open spec fn estimate_spec<S: Sample>(sample_rate: S) -> S {
        sample_rate.mul(S::ratio(1, 10))
    }

    /// Computes `estimate_spec`.
    #[verifier::when_used_as_spec(estimate_spec)]
    pub fn estimate<S: Sample>(sample_rate: S) -> (r: S)
        ensures
            S::obeys_sample_spec() ==> r == Self::estimate_spec(sample_rate),
    {
        sample_rate.mul(S::ratio(1, 10))
    }

    /// Fills output 0 with the estimate. The input only sets the length.
    pub fn process<S: Sample>(
        &mut self,
        inputs: &[&[S]],
        outputs: &mut [Vec<S>],
        sample_rate: S,
    ) -> (r: Result<(), ShapeError>)
        ensures
            r == shape_verdict(rows(inputs), cols(old(outputs)@), 1, 1, 1, 1),
            same_lens(final(outputs)@, old(outputs)@),
            same_from(final(outputs)@, old(outputs)@, 1),
            *final(self) == *old(self),
            r.is_err() ==> final(outputs)@ == old(outputs)@,
            r.is_ok() && S::obeys_sample_spec() ==> forall|i: int|
                0 <= i < final(outputs)@[0]@
                    .len() ==> #[trigger] final(outputs)@[0]@[i] == Self::estimate(sample_rate),
    {
        let n: usize = match check_block(inputs, outputs, 1, 1, 1, 1) {
            Ok(n) => n,
            Err(e) => {
                return Err(e);
            },
        };
        let y = Self::estimate(sample_rate);
        let mut i: usize = 0;
        while i < n
            invariant
                i <= n,
                outputs@.len() >= 1,
                outputs@[0]@.len() == n,
                same_lens(outputs@, old(outputs)@),
                same_from(outputs@, old(outputs)@, 1),
                forall|j: int| 0 <= j < i ==> #[trigger] outputs@[0]@[j] == y,
            decreases n - i,
        {
            outputs[0][i] = y;
            i += 1;
        }
        Ok(())
    }

    /// Puts the write position back to the start.
    pub fn reset(&mut self)
        ensures
            *final(self) == (SpectralCentroid { fft_size: old(self).fft_size, write_pos: 0 }),
    {
        self.write_pos = 0;
    }

    /// The number of inputs that a call requires.
    pub fn num_inputs(&self) -> (r: usize)
        ensures
            r == 1,
    {
        1
    }

    /// The number of outputs that a call writes.
    pub fn num_outputs(&self) -> (r: usize)
        ensures
            r == 1,
    {
        1
    }
}

/// Onset detector: puts out one where the energy of a sample exceeds the mean
/// energy of the last `buffer_size` samples by more than the threshold allows,
/// and zero elsewhere.
#[derive(Debug)]
pub struct OnsetDetector<S> {
    pub threshold: S,
    pub sensitivity: S,
    /// The last input samples.
    pub buffer: DelayLine<S>,
    /// The energies of the last input samples.
    pub energy_history: DelayLine<S>,
}

/// What `OnsetDetector` holds besides its settings.
pub struct OnsetDetectorMemory<S> {
    pub buffer: DelayView<S>,
    pub energy_history: DelayView<S>,
}

impl<S> View for OnsetDetector<S> {
    type V = OnsetDetectorMemory<S>;

    open spec fn view(&self) -> OnsetDetectorMemory<S> {
        OnsetDetectorMemory { buffer: self.buffer@, energy_history: self.energy_history@ }
    }
}

impl<S: Sample> OnsetDetector<S> {
    /// Whether two nodes hold as many samples.
    pub open spec fn same_size(&self, other: &OnsetDetector<S>) -> bool {
        &&& self.buffer@.len() == other.buffer@.len()
        &&& self.energy_history@.len() == other.energy_history@.len()
    }

    /// Whether two nodes have the same settings.
    pub open spec fn same_settings(&self, other: &OnsetDetector<S>) -> bool {
        &&& self.threshold == other.threshold
        &&& self.sensitivity == other.sensitivity
    }

    /// What a node holds when `new` made it.
    pub open spec fn fresh(
        threshold: S,
        sensitivity: S,
        buffer_size: usize,
    ) -> OnsetDetectorMemory<S> {
        OnsetDetectorMemory {
            buffer: DelayView::filled(buffer_size as nat, S::zero()),
            energy_history: DelayView::filled(buffer_size as nat, S::zero()),
        }
    }

    /// A node in its first state. Whatever the node allocates, it allocates here.
    pub fn new(threshold: S, sensitivity: S, buffer_size: usize) -> (r: Self)
        ensures
            S::obeys_sample_spec() ==> r@ == Self::fresh(threshold, sensitivity, buffer_size),
            r.buffer@.len() == Self::fresh(threshold, sensitivity, buffer_size).buffer.len(),
            r.energy_history@
                .len() == Self::fresh(threshold, sensitivity, buffer_size).energy_history.len(),
            r.threshold == threshold,
            r.sensitivity == sensitivity,
    {
        let buffer = DelayLine::new(buffer_size, S::zero());
        let energy_history = DelayLine::new(buffer_size, S::zero());
        OnsetDetector {
            threshold,
            sensitivity,
            buffer,
            energy_history,
        }
    }

    /// The sum of the first `k` samples of a line in storage order, added up in
    /// order from zero.
    pub open spec fn total(line: DelayView<S>, k: nat) -> S
        decreases k,
    {
        if k == 0 {
            S::zero()
        } else {
            Self::total(line, (k - 1) as nat).add(line.at(k - 1))
        }
    }

    /// One sample: its energy enters the history; the strength is the energy less
    /// the mean of the history, floored at zero, times the sensitivity.
    pub open spec fn tick_spec(
        &self,
        st: OnsetDetectorMemory<S>,
        x: S,
    ) -> (OnsetDetectorMemory<S>, S) {
        let energy = x.mul(x);
        let history = st.energy_history.push(energy);
        let mean = Self::total(history, history.len()).div(S::from_usize(history.len() as usize));
        let strength = energy.sub(mean).max(S::zero()).mul(self.sensitivity);
        let y = if strength.gt(self.threshold) {
            S::one()
        } else {
            S::zero()
        };
        (OnsetDetectorMemory { buffer: st.buffer.push(x), energy_history: history }, y)
    }

    /// Performs `tick_spec` on the node in place and returns the sample.
    pub fn tick(&mut self, x: S) -> (y: S)
        ensures
            final(self).same_size(old(self)),
            final(self).same_settings(old(self)),
            final(self).buffer@.cursor == old(self).buffer@.step().cursor,
            final(self).energy_history@.cursor == old(self).energy_history@.step().cursor,
            S::obeys_sample_spec() ==> (final(self)@, y) == old(self).tick_spec(old(self)@, x),
    {
        let energy = x.mul(x);
        self.energy_history.push(energy);
        self.buffer.push(x);
        let len: usize = self.energy_history.len();
        let mut sum = S::zero();
        let mut k: usize = 0;
        while k < len
            invariant
                k <= len,
                len == self.energy_history@.len(),
                self.same_size(old(self)),
                self.same_settings(old(self)),
                self.buffer@ == old(self).buffer@.push(x),
                S::obeys_sample_spec() ==> self.energy_history@ == old(self).energy_history@
                    .push(energy),
                S::obeys_sample_spec() ==> sum == Self::total(self.energy_history@, k as nat),
            decreases len - k,
        {
            sum = sum.add(self.energy_history.at(k));
            k += 1;
        }
        let mean = sum.div(S::from_usize(len));
        let strength = energy.sub(mean).max(S::zero()).mul(self.sensitivity);
        if strength.gt(self.threshold) {
            S::one()
        } else {
            S::zero()
        }
    }

    /// The node as a recursion over the samples of a block: the state before
    /// sample `i` to the state after it and the sample put out.
    pub open spec fn stepper(
        &self,
        inputs: Seq<Seq<S>>,
        sample_rate: S,
    ) -> spec_fn(OnsetDetectorMemory<S>, int) -> (OnsetDetectorMemory<S>, S) {
        |st: OnsetDetectorMemory<S>, i: int| self.tick_spec(st, inputs[0][i])
    }

    /// Processes one block: runs the recursion over the samples of the block and
    /// writes output 0. A call whose slices do not fit is refused and changes
    /// nothing. Nothing is allocated.
    pub fn process(
        &mut self,
        inputs: &[&[S]],
        outputs: &mut [Vec<S>],
        sample_rate: S,
    ) -> (r: Result<(), ShapeError>)
        ensures
            r == shape_verdict(rows(inputs), cols(old(outputs)@), 1, 1, 1, 1),
            same_lens(final(outputs)@, old(outputs)@),
            same_from(final(outputs)@, old(outputs)@, 1),
            final(self).same_size(old(self)),
            final(self).same_settings(old(self)),
            r.is_err() ==> final(self)@ == old(self)@ && final(outputs)@ == old(outputs)@,
            r.is_ok() ==> final(self).buffer@.cursor == cursor_after(
                old(self).buffer@.cursor,
                old(self).buffer@.len(),
                final(outputs)@[0]@.len(),
            ),
            r.is_ok() ==> final(self).energy_history@.cursor == cursor_after(
                old(self).energy_history@.cursor,
                old(self).energy_history@.len(),
                final(outputs)@[0]@.len(),
            ),
            r.is_ok() && S::obeys_sample_spec() ==> renders(
                old(self).stepper(rows(inputs), sample_rate),
                old(self)@,
                final(self)@,
                final(outputs)@[0]@,
            ),
    {
        let n: usize = match check_block(inputs, outputs, 1, 1, 1, 1) {
            Ok(n) => n,
            Err(e) => {
                return Err(e);
            },
        };
        let ghost st_node = *self;
        let ghost f = st_node.stepper(rows(inputs), sample_rate);
        let ghost st0 = self@;
        let mut i: usize = 0;
        while i < n
            invariant
                i <= n,
                inputs@.len() >= 1,
                outputs@.len() >= 1,
                outputs@[0]@.len() == n,
                forall|p: int| 0 <= p < 1 ==> (#[trigger] inputs@[p])@.len() == n,
                same_lens(outputs@, old(outputs)@),
                same_from(outputs@, old(outputs)@, 1),
                self.same_size(old(self)),
                self.buffer@.cursor == cursor_after(
                    old(self).buffer@.cursor,
                    old(self).buffer@.len(),
                    i as nat,
                ),
                self.energy_history@.cursor == cursor_after(
                    old(self).energy_history@.cursor,
                    old(self).energy_history@.len(),
                    i as nat,
                ),
                self.same_settings(old(self)),
                self.same_settings(&st_node),
                f == st_node.stepper(rows(inputs), sample_rate),
                S::obeys_sample_spec() ==> self@ == state_after(f, st0, i as nat),
                S::obeys_sample_spec() ==> forall|j: int|
                    0 <= j < i ==> outputs@[0]@[j] == #[trigger] output_at(f, st0, j),
            decreases n - i,
        {
            let x = read_at(inputs, 0, i);
            let y = self.tick(x);
            outputs[0][i] = y;
            i += 1;
        }
        Ok(())
    }

    /// Puts the node back to what `new` gave it; its settings and the lengths of
    /// its lines stay. Nothing is allocated.
    pub fn reset(&mut self)
        ensures
            final(self).same_size(old(self)),
            final(self).same_settings(old(self)),
            S::obeys_sample_spec() ==>
                final(self)@ == (OnsetDetectorMemory { buffer: old(self)@.buffer.cleared(S::zero()), energy_history: old(self)@.energy_history.cleared(S::zero()) }),
    {
        self.buffer.clear(S::zero());
        self.energy_history.clear(S::zero());
    }

    /// A reset right after `new` changes nothing.
    pub proof fn lemma_reset_after_new(threshold: S, sensitivity: S, buffer_size: usize)
        ensures
            (OnsetDetectorMemory { buffer: Self::fresh(threshold, sensitivity, buffer_size).buffer.cleared(S::zero()), energy_history: Self::fresh(threshold, sensitivity, buffer_size).energy_history.cleared(S::zero()) }) == Self::fresh(
                threshold,
                sensitivity,
                buffer_size,
            ),
    {
        lemma_clear_after_new(buffer_size as nat, S::zero());
        lemma_clear_after_new(buffer_size as nat, S::zero());
    }

    /// The number of inputs that a call requires.
    pub fn num_inputs(&self) -> (r: usize)
        ensures
            r == 1,
    {
        1
    }

    /// The number of outputs that a call writes.
    pub fn num_outputs(&self) -> (r: usize)
        ensures
            r == 1,
    {
        1
    }
}

/// Pitch detector by autocorrelation over the last `buffer_size` samples: it
/// puts out the sample rate over the period that correlates best.
#[derive(Debug)]
pub struct PitchDetector<S> {
    pub min_freq: S,
    pub max_freq: S,
    /// The delay line.
    pub line: DelayLine<S>,
}

/// What `PitchDetector` holds besides its settings.
pub struct PitchDetectorMemory<S> {
    pub line: DelayView<S>,
}

impl<S> View for PitchDetector<S> {
    type V = PitchDetectorMemory<S>;

    open spec fn view(&self) -> PitchDetectorMemory<S> {
        PitchDetectorMemory { line: self.line@ }
    }
}

impl<S: Sample> PitchDetector<S> {
    /// Whether two nodes hold as many samples.
    pub open spec fn same_size(&self, other: &PitchDetector<S>) -> bool {
        self.line@.len() == other.line@.len()
    }

    /// Whether two nodes have the same settings.
    pub open spec fn same_settings(&self, other: &PitchDetector<S>) -> bool {
        &&& self.min_freq == other.min_freq
        &&& self.max_freq == other.max_freq
    }

    /// What a node holds when `new` made it.
    pub open spec fn fresh(min_freq: S, max_freq: S, buffer_size: usize) -> PitchDetectorMemory<S> {
        PitchDetectorMemory { line: DelayView::filled(buffer_size as nat, S::zero()) }
    }

    /// A node in its first state. Whatever the node allocates, it allocates here.
    pub fn new(min_freq: S, max_freq: S, buffer_size: usize) -> (r: Self)
        ensures
            S::obeys_sample_spec() ==> r@ == Self::fresh(min_freq, max_freq, buffer_size),
            r.line@.len() == Self::fresh(min_freq, max_freq, buffer_size).line.len(),
            r.min_freq == min_freq,
            r.max_freq == max_freq,
    {
        let line = DelayLine::new(buffer_size, S::zero());
        PitchDetector {
            min_freq,
            max_freq,
            line,
        }
    }

    /// The correlation of the signal in a line with itself `period` samples
    /// earlier, over the last `k` samples, added up in order from the newest.
    pub open spec fn correlation(line: DelayView<S>, period: nat, k: nat) -> S
        decreases k,
    {
        if k == 0 {
            S::zero()
        } else {
            let newer = line.at(line.tap_index(k));
            let older = line.at(line.tap_index(k + period));
            Self::correlation(line, period, (k - 1) as nat).add(newer.mul(older))
        }
    }

    /// The best correlation and its period among the periods from `lo` up to,
    /// not including, `hi`: the first period whose correlation is above zero and
    /// above those of all periods before it. Where there is none, zero and `lo`.
    pub open spec fn best_period(line: DelayView<S>, lo: nat, hi: nat) -> (S, nat)
        decreases hi,
    {
        if hi <= lo {
            (S::zero(), lo)
        } else {
            let before = Self::best_period(line, lo, (hi - 1) as nat);
            let period = (hi - 1) as nat;
            let corr = Self::correlation(line, period, (line.len() - period) as nat);
            if corr.gt(before.0) {
                (corr, period)
            } else {
                before
            }
        }
    }

    /// The periods that are searched at a sample rate: from the period of the
    /// highest frequency up to that of the lowest, not including it, and not
    /// beyond half the length of the line.
    pub open spec fn search_range_spec(&self, sample_rate: S, len: usize) -> (usize, usize) {
        let lo = sample_rate.div(self.max_freq).to_usize();
        let longest = sample_rate.div(self.min_freq).to_usize();
        let half = len / 2;
        (lo, if longest < half { longest } else { half })
    }

    /// Computes `search_range_spec`.
    #[verifier::when_used_as_spec(search_range_spec)]
    pub fn search_range(&self, sample_rate: S, len: usize) -> (r: (usize, usize))
        ensures
            S::obeys_sample_spec() ==> r == self.search_range_spec(sample_rate, len),
            r.1 <= len / 2,
    {
        let lo: usize = sample_rate.div(self.max_freq).to_usize();
        let longest: usize = sample_rate.div(self.min_freq).to_usize();
        let half: usize = len / 2;
        (lo, if longest < half { longest } else { half })
    }

    /// One sample: the input goes into the line, and the periods of the search
    /// range are tried in order.
    pub open spec fn tick_spec(
        &self,
        st: PitchDetectorMemory<S>,
        x: S,
        sample_rate: S,
    ) -> (PitchDetectorMemory<S>, S) {
        let line = st.line.push(x);
        let range = self.search_range(sample_rate, line.len() as usize);
        let best = Self::best_period(line, range.0 as nat, range.1 as nat);
        (PitchDetectorMemory { line }, sample_rate.div(S::from_usize(best.1 as usize)))
    }

    /// Performs `tick_spec` on the node in place and returns the sample.
    pub fn tick(&mut self, x: S, sample_rate: S) -> (y: S)
        ensures
            final(self).same_size(old(self)),
            final(self).same_settings(old(self)),
            final(self).line@.cursor == old(self).line@.step().cursor,
            S::obeys_sample_spec() ==> (final(self)@, y) == old(self)
                .tick_spec(old(self)@, x, sample_rate),
    {
        self.line.push(x);
        let len: usize = self.line.len();
        let range = self.search_range(sample_rate, len);
        let lo: usize = range.0;
        let hi: usize = range.1;
        let mut best_corr = S::zero();
        let mut best: usize = lo;
        let mut period: usize = lo;
        while period < hi
            invariant
                lo <= period,
                period <= hi || hi <= lo,
                hi <= lo ==> period == lo,
                hi <= len / 2,
                len == self.line@.len(),
                self.line@ == old(self).line@.push(x),
                self.same_size(old(self)),
                self.same_settings(old(self)),
                S::obeys_sample_spec() ==>
                    (
                        best_corr,
                        best as nat,
                    ) == Self::best_period(self.line@, lo as nat, period as nat),
            decreases hi - period,
        {
            let span: usize = len - period;
            let mut corr = S::zero();
            let mut k: usize = 0;
            while k < span
                invariant
                    k <= span,
                    span == len - period,
                    period < hi,
                    hi <= len / 2,
                    len == self.line@.len(),
                    self.line@ == old(self).line@.push(x),
                    self.same_size(old(self)),
                    self.same_settings(old(self)),
                    S::obeys_sample_spec() ==>
                        corr == Self::correlation(self.line@, period as nat, k as nat),
                decreases span - k,
            {
                let newer = self.line.at(self.line.tap_index(k + 1));
                let older = self.line.at(self.line.tap_index(k + 1 + period));
                corr = corr.add(newer.mul(older));
                k += 1;
            }
            if corr.gt(best_corr) {
                best_corr = corr;
                best = period;
            }
            period += 1;
        }
        proof {
            if hi <= lo {
                assert(Self::best_period(self.line@, lo as nat, hi as nat) == (S::zero(), lo as nat));
                assert(Self::best_period(self.line@, lo as nat, lo as nat) == (S::zero(), lo as nat));
            }
        }
        sample_rate.div(S::from_usize(best))
    }

    /// The node as a recursion over the samples of a block: the state before
    /// sample `i` to the state after it and the sample put out.
    pub open spec fn stepper(
        &self,
        inputs: Seq<Seq<S>>,
        sample_rate: S,
    ) -> spec_fn(PitchDetectorMemory<S>, int) -> (PitchDetectorMemory<S>, S) {
        |st: PitchDetectorMemory<S>, i: int| self.tick_spec(st, inputs[0][i], sample_rate)
    }

    /// Processes one block: runs the recursion over the samples of the block and
    /// writes output 0. A call whose slices do not fit is refused and changes
    /// nothing. Nothing is allocated.
    pub fn process(
        &mut self,
        inputs: &[&[S]],
        outputs: &mut [Vec<S>],
        sample_rate: S,
    ) -> (r: Result<(), ShapeError>)
        ensures
            r == shape_verdict(rows(inputs), cols(old(outputs)@), 1, 1, 1, 1),
            same_lens(final(outputs)@, old(outputs)@),
            same_from(final(outputs)@, old(outputs)@, 1),
            final(self).same_size(old(self)),
            final(self).same_settings(old(self)),
            r.is_err() ==> final(self)@ == old(self)@ && final(outputs)@ == old(outputs)@,
            r.is_ok() ==> final(self).line@.cursor == cursor_after(
                old(self).line@.cursor,
                old(self).line@.len(),
                final(outputs)@[0]@.len(),
            ),
            r.is_ok() && S::obeys_sample_spec() ==> renders(
                old(self).stepper(rows(inputs), sample_rate),
                old(self)@,
                final(self)@,
                final(outputs)@[0]@,
            ),
    {
        let n: usize = match check_block(inputs, outputs, 1, 1, 1, 1) {
            Ok(n) => n,
            Err(e) => {
                return Err(e);
            },
        };
        let ghost st_node = *self;
        let ghost f = st_node.stepper(rows(inputs), sample_rate);
        let ghost st0 = self@;
        let mut i: usize = 0;
        while i < n
            invariant
                i <= n,
                inputs@.len() >= 1,
                outputs@.len() >= 1,
                outputs@[0]@.len() == n,
                forall|p: int| 0 <= p < 1 ==> (#[trigger] inputs@[p])@.len() == n,
                same_lens(outputs@, old(outputs)@),
                same_from(outputs@, old(outputs)@, 1),
                self.same_size(old(self)),
                self.line@.cursor == cursor_after(
                    old(self).line@.cursor,
                    old(self).line@.len(),
                    i as nat,
                ),
                self.same_settings(old(self)),
                self.same_settings(&st_node),
                f == st_node.stepper(rows(inputs), sample_rate),
                S::obeys_sample_spec() ==> self@ == state_after(f, st0, i as nat),
                S::obeys_sample_spec() ==> forall|j: int|
                    0 <= j < i ==> outputs@[0]@[j] == #[trigger] output_at(f, st0, j),
            decreases n - i,
        {
            let x = read_at(inputs, 0, i);
            let y = self.tick(x, sample_rate);
            outputs[0][i] = y;
            i += 1;
        }
        Ok(())
    }

    /// Puts the node back to what `new` gave it; its settings and the lengths of
    /// its lines stay. Nothing is allocated.
    pub fn reset(&mut self)
        ensures
            final(self).same_size(old(self)),
            final(self).same_settings(old(self)),
            S::obeys_sample_spec() ==>
                final(self)@ == (PitchDetectorMemory { line: old(self)@.line.cleared(S::zero()) }),
    {
        self.line.clear(S::zero());
    }

    /// A reset right after `new` changes nothing.
    pub proof fn lemma_reset_after_new(min_freq: S, max_freq: S, buffer_size: usize)
        ensures
            (PitchDetectorMemory { line: Self::fresh(min_freq, max_freq, buffer_size).line.cleared(S::zero()) }) == Self::fresh(
                min_freq,
                max_freq,
                buffer_size,
            ),
    {
        lemma_clear_after_new(buffer_size as nat, S::zero());
    }

    /// The number of inputs that a call requires.
    pub fn num_inputs(&self) -> (r: usize)
        ensures
            r == 1,
    {
        1
    }

    /// The number of outputs that a call writes.
    pub fn num_outputs(&self) -> (r: usize)
        ensures
            r == 1,
    {
        1
    }
}

} // verus!
