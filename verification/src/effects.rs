//! Effects that stand alone.

use crate::block::{
    check_block, cols, output_at, read_at, renders, rows, same_from, same_lens, shape_verdict,
    state_after, ShapeError,
};
use crate::delay_line::{cursor_after, lemma_clear_after_new, DelayLine, DelayView};
use crate::filters::Allpass;
use crate::helpers::{blend, ms_to_samples};
use crate::sample::Sample;
use vstd::prelude::*;

verus! {

/// A delay in whole samples for a line of `len` samples: the delay time at the
/// sample rate, and at most the length less one.
pub open spec fn capped_delay_spec<S: Sample>(delay_ms: S, sample_rate: S, len: usize) -> usize {
    let wanted = ms_to_samples(delay_ms, sample_rate);
    let longest = if len == 0 { 0usize } else { (len - 1) as usize };
    if wanted > longest {
        longest
    } else {
        wanted
    }
}

/// Computes `capped_delay_spec`.
#[verifier::when_used_as_spec(capped_delay_spec)]
pub fn capped_delay<S: Sample>(delay_ms: S, sample_rate: S, len: usize) -> (r: usize)
    ensures
        S::obeys_sample_spec() ==> r == capped_delay_spec(delay_ms, sample_rate, len),
{
    let wanted: usize = ms_to_samples(delay_ms, sample_rate);
    let longest: usize = if len == 0 { 0 } else { len - 1 };
    if wanted > longest {
        longest
    } else {
        wanted
    }
}

/// Delay with feedback. The feedback is held in `[0, 0.99]`, below the bound at
/// which the loop would not die away.
#[derive(Debug)]
pub struct Delay<S> {
    pub delay_ms: S,
    pub feedback: S,
    /// The delay line.
    pub line: DelayLine<S>,
}

/// What `Delay` holds besides its settings.
pub struct DelayMemory<S> {
    pub line: DelayView<S>,
}

impl<S> View for Delay<S> {
    type V = DelayMemory<S>;

    open spec fn view(&self) -> DelayMemory<S> {
        DelayMemory { line: self.line@ }
    }
}

impl<S: Sample> Delay<S> {
    /// Whether two nodes hold as many samples.
    pub open spec fn same_size(&self, other: &Delay<S>) -> bool {
        self.line@.len() == other.line@.len()
    }

    /// Whether two nodes have the same settings.
    pub open spec fn same_settings(&self, other: &Delay<S>) -> bool {
        &&& self.delay_ms == other.delay_ms
        &&& self.feedback == other.feedback
    }

    /// What a node holds when `new` made it.
    pub open spec fn fresh(
        delay_ms: S,
        feedback: S,
        max_delay_ms: S,
        sample_rate: S,
    ) -> DelayMemory<S> {
        DelayMemory {
            line: DelayView::filled(ms_to_samples(max_delay_ms, sample_rate) as nat, S::zero()),
        }
    }

    /// A node in its first state. Whatever the node allocates, it allocates here.
    pub fn new(delay_ms: S, feedback: S, max_delay_ms: S, sample_rate: S) -> (r: Self)
        ensures
            S::obeys_sample_spec() ==>
                r@ == Self::fresh(delay_ms, feedback, max_delay_ms, sample_rate),
            r.delay_ms == delay_ms,
            S::obeys_sample_spec() ==> r.feedback == feedback.clamp(S::zero(), S::ratio(99, 100)),
    {
        let line = DelayLine::new(ms_to_samples(max_delay_ms, sample_rate), S::zero());
        Delay {
            delay_ms,
            feedback: feedback.clamp(S::zero(), S::ratio(99, 100)),
            line,
        }
    }

    /// The delay in whole samples at a sample rate, for a line of `len` samples.
    pub open spec fn delay_samples_spec(&self, sample_rate: S, len: usize) -> usize {
        capped_delay(self.delay_ms, sample_rate, len)
    }

    /// Computes `delay_samples_spec`.
    #[verifier::when_used_as_spec(delay_samples_spec)]
    pub fn delay_samples(&self, sample_rate: S, len: usize) -> (r: usize)
        ensures
            S::obeys_sample_spec() ==> r == self.delay_samples_spec(sample_rate, len),
    {
        capped_delay(self.delay_ms, sample_rate, len)
    }

    /// One sample: the sample `delay` positions back in the line is put out; the
    /// input plus that sample times the feedback goes into the line.
    pub open spec fn tick_spec(
        &self,
        st: DelayMemory<S>,
        x: S,
        delay: usize,
    ) -> (DelayMemory<S>, S) {
        let delayed = st.line.at(st.line.tap_index(delay as nat));
        (DelayMemory { line: st.line.push(x.add(delayed.mul(self.feedback))) }, delayed)
    }

    /// Performs `tick_spec` on the node in place and returns the sample.
    pub fn tick(&mut self, x: S, delay: usize) -> (y: S)
        ensures
            final(self).same_size(old(self)),
            final(self).same_settings(old(self)),
            final(self).line@.cursor == old(self).line@.step().cursor,
            S::obeys_sample_spec() ==> (final(self)@, y) == old(self)
                .tick_spec(old(self)@, x, delay),
    {
        let delayed = self.line.at(self.line.tap_index(delay));
        self.line.push(x.add(delayed.mul(self.feedback)));
        delayed
    }

    /// The node as a recursion over the samples of a block: the state before
    /// sample `i` to the state after it and the sample put out.
    pub open spec fn stepper(
        &self,
        inputs: Seq<Seq<S>>,
        sample_rate: S,
    ) -> spec_fn(DelayMemory<S>, int) -> (DelayMemory<S>, S) {
        |st: DelayMemory<S>, i: int| self
            .tick_spec(st, inputs[0][i], self.delay_samples(sample_rate, st.line.len() as usize))
    }

    /// Processes one block: runs the recursion over the samples of the block and
    /// writes output 0. A call whose slices do not fit is refused and changes
    /// nothing. Nothing is allocated.
    pub fn process(
        &mut self,
        inputs: &[&[S]],
        outputs: &mut [Vec<S>],
        sample_rate: S,
    ) -> (r: Result<(), ShapeError>)
        ensures
            r == shape_verdict(rows(inputs), cols(old(outputs)@), 1, 1, 1, 1),
            same_lens(final(outputs)@, old(outputs)@),
            same_from(final(outputs)@, old(outputs)@, 1),
            final(self).same_size(old(self)),
            final(self).same_settings(old(self)),
            r.is_err() ==> final(self)@ == old(self)@ && final(outputs)@ == old(outputs)@,
            r.is_ok() ==> final(self).line@.cursor == cursor_after(
                old(self).line@.cursor,
                old(self).line@.len(),
                final(outputs)@[0]@.len(),
            ),
            r.is_ok() && S::obeys_sample_spec() ==> renders(
                old(self).stepper(rows(inputs), sample_rate),
                old(self)@,
                final(self)@,
                final(outputs)@[0]@,
            ),
    {
        let n: usize = match check_block(inputs, outputs, 1, 1, 1, 1) {
            Ok(n) => n,
            Err(e) => {
                return Err(e);
            },
        };
        let ghost st_node = *self;
        let ghost f = st_node.stepper(rows(inputs), sample_rate);
        let ghost st0 = self@;
        let prep = self.delay_samples(sample_rate, self.line.len());
        let mut i: usize = 0;
        while i < n
            invariant
                i <= n,
                inputs@.len() >= 1,
                outputs@.len() >= 1,
                outputs@[0]@.len() == n,
                forall|p: int| 0 <= p < 1 ==> (#[trigger] inputs@[p])@.len() == n,
                same_lens(outputs@, old(outputs)@),
                same_from(outputs@, old(outputs)@, 1),
                self.same_size(old(self)),
                self.line@.cursor == cursor_after(
                    old(self).line@.cursor,
                    old(self).line@.len(),
                    i as nat,
                ),
                self.same_settings(old(self)),
                self.same_settings(&st_node),
                f == st_node.stepper(rows(inputs), sample_rate),
                S::obeys_sample_spec() ==> prep == self
                    .delay_samples(sample_rate, self.line@.len() as usize),
                S::obeys_sample_spec() ==> self@ == state_after(f, st0, i as nat),
                S::obeys_sample_spec() ==> forall|j: int|
                    0 <= j < i ==> outputs@[0]@[j] == #[trigger] output_at(f, st0, j),
            decreases n - i,
        {
            let x = read_at(inputs, 0, i);
            let y = self.tick(x, prep);
            outputs[0][i] = y;
            i += 1;
        }
        Ok(())
    }

    /// Puts the node back to what `new` gave it; its settings and the lengths of
    /// its lines stay. Nothing is allocated.
    pub fn reset(&mut self)
        ensures
            final(self).same_size(old(self)),
            final(self).same_settings(old(self)),
            S::obeys_sample_spec() ==>
                final(self)@ == (DelayMemory { line: old(self)@.line.cleared(S::zero()) }),
    {
        self.line.clear(S::zero());
    }

    /// A reset right after `new` changes nothing.
    pub proof fn lemma_reset_after_new(delay_ms: S, feedback: S, max_delay_ms: S, sample_rate: S)
        ensures
            (DelayMemory { line: Self::fresh(delay_ms, feedback, max_delay_ms, sample_rate).line.cleared(S::zero()) }) == Self::fresh(
                delay_ms,
                feedback,
                max_delay_ms,
                sample_rate,
            ),
    {
        lemma_clear_after_new(ms_to_samples(max_delay_ms, sample_rate) as nat, S::zero());
    }

    /// The number of inputs that a call requires.
    pub fn num_inputs(&self) -> (r: usize)
        ensures
            r == 1,
    {
        1
    }

    /// The number of outputs that a call writes.
    pub fn num_outputs(&self) -> (r: usize)
        ensures
            r == 1,
    {
        1
    }
}

/// Reverb of four delays with feedback in parallel. The mix is held in `[0, 1]`
/// and every feedback in `[0, 0.99]`.
#[derive(Debug)]
pub struct Reverb<S> {
    pub decay: S,
    pub mix: S,
    /// The feedback of the first delay: nine tenths of the decay.
    pub feedback1: S,
    /// The feedback of the second delay: eight tenths of the decay.
    pub feedback2: S,
    /// The feedback of the third delay: seven tenths of the decay.
    pub feedback3: S,
    /// The feedback of the fourth delay: six tenths of the decay.
    pub feedback4: S,
    /// The line of the first delay.
    pub line1: DelayLine<S>,
    /// The line of the second delay.
    pub line2: DelayLine<S>,
    /// The line of the third delay.
    pub line3: DelayLine<S>,
    /// The line of the fourth delay.
    pub line4: DelayLine<S>,
}

/// What `Reverb` holds besides its settings.
pub struct ReverbMemory<S> {
    pub line1: DelayView<S>,
    pub line2: DelayView<S>,
    pub line3: DelayView<S>,
    pub line4: DelayView<S>,
}

impl<S> View for Reverb<S> {
    type V = ReverbMemory<S>;

    open spec fn view(&self) -> ReverbMemory<S> {
        ReverbMemory {
            line1: self.line1@,
            line2: self.line2@,
            line3: self.line3@,
            line4: self.line4@,
        }
    }
}

impl<S: Sample> Reverb<S> {
    /// Whether two nodes hold as many samples.
    pub open spec fn same_size(&self, other: &Reverb<S>) -> bool {
        &&& self.line1@.len() == other.line1@.len()
        &&& self.line2@.len() == other.line2@.len()
        &&& self.line3@.len() == other.line3@.len()
        &&& self.line4@.len() == other.line4@.len()
    }

    /// Whether two nodes have the same settings.
    pub open spec fn same_settings(&self, other: &Reverb<S>) -> bool {
        &&& self.decay == other.decay
        &&& self.mix == other.mix
        &&& self.feedback1 == other.feedback1
        &&& self.feedback2 == other.feedback2
        &&& self.feedback3 == other.feedback3
        &&& self.feedback4 == other.feedback4
    }

    /// What a node holds when `new` made it.
    pub open spec fn fresh(decay: S, mix: S, sample_rate: S) -> ReverbMemory<S> {
        ReverbMemory {
            line1: DelayView::filled(ms_to_samples(S::ratio(50, 1), sample_rate) as nat, S::zero()),
            line2: DelayView::filled(ms_to_samples(S::ratio(50, 1), sample_rate) as nat, S::zero()),
            line3: DelayView::filled(ms_to_samples(S::ratio(50, 1), sample_rate) as nat, S::zero()),
            line4: DelayView::filled(ms_to_samples(S::ratio(50, 1), sample_rate) as nat, S::zero()),
        }
    }

    /// A node in its first state. Whatever the node allocates, it allocates here.
    pub fn new(decay: S, mix: S, sample_rate: S) -> (r: Self)
        ensures
            S::obeys_sample_spec() ==> r@ == Self::fresh(decay, mix, sample_rate),
            r.decay == decay,
            S::obeys_sample_spec() ==> r.mix == mix.clamp(S::zero(), S::one()),
            S::obeys_sample_spec() ==> r.feedback1 == decay.mul(S::ratio(9, 10))
                .clamp(S::zero(), S::ratio(99, 100)),
            S::obeys_sample_spec() ==> r.feedback2 == decay.mul(S::ratio(8, 10))
                .clamp(S::zero(), S::ratio(99, 100)),
            S::obeys_sample_spec() ==> r.feedback3 == decay.mul(S::ratio(7, 10))
                .clamp(S::zero(), S::ratio(99, 100)),
            S::obeys_sample_spec() ==> r.feedback4 == decay.mul(S::ratio(6, 10))
                .clamp(S::zero(), S::ratio(99, 100)),
    {
        let line1 = DelayLine::new(ms_to_samples(S::ratio(50, 1), sample_rate), S::zero());
        let line2 = DelayLine::new(ms_to_samples(S::ratio(50, 1), sample_rate), S::zero());
        let line3 = DelayLine::new(ms_to_samples(S::ratio(50, 1), sample_rate), S::zero());
        let line4 = DelayLine::new(ms_to_samples(S::ratio(50, 1), sample_rate), S::zero());
        Reverb {
            decay,
            mix: mix.clamp(S::zero(), S::one()),
            feedback1: decay.mul(S::ratio(9, 10)).clamp(S::zero(), S::ratio(99, 100)),
            feedback2: decay.mul(S::ratio(8, 10)).clamp(S::zero(), S::ratio(99, 100)),
            feedback3: decay.mul(S::ratio(7, 10)).clamp(S::zero(), S::ratio(99, 100)),
            feedback4: decay.mul(S::ratio(6, 10)).clamp(S::zero(), S::ratio(99, 100)),
            line1,
            line2,
            line3,
            line4,
        }
    }

    /// The four delays in whole samples at a sample rate: 29.7, 37.1, 41.1 and 43.7
    /// milliseconds, each at most the length of its line less one.
    pub open spec fn delays_spec(
        &self,
        sample_rate: S,
        lens: (usize, usize, usize, usize),
    ) -> (usize, usize, usize, usize) {
        (
            capped_delay(S::ratio(297, 10), sample_rate, lens.0),
            capped_delay(S::ratio(371, 10), sample_rate, lens.1),
            capped_delay(S::ratio(411, 10), sample_rate, lens.2),
            capped_delay(S::ratio(437, 10), sample_rate, lens.3),
        )
    }

    /// Computes `delays_spec`.
    #[verifier::when_used_as_spec(delays_spec)]
    pub fn delays(
        &self,
        sample_rate: S,
        lens: (usize, usize, usize, usize),
    ) -> (r: (usize, usize, usize, usize))
        ensures
            S::obeys_sample_spec() ==> r == self.delays_spec(sample_rate, lens),
    {
        (
            capped_delay(S::ratio(297, 10), sample_rate, lens.0),
            capped_delay(S::ratio(371, 10), sample_rate, lens.1),
            capped_delay(S::ratio(411, 10), sample_rate, lens.2),
            capped_delay(S::ratio(437, 10), sample_rate, lens.3),
        )
    }

    /// One sample: each line is read at its delay and takes the input plus the read
    /// sample times its feedback; the mean of the four read samples is the wet
    /// signal.
    pub open spec fn tick_spec(
        &self,
        st: ReverbMemory<S>,
        x: S,
        d: (usize, usize, usize, usize),
    ) -> (ReverbMemory<S>, S) {
        let d1 = st.line1.at(st.line1.tap_index(d.0 as nat));
        let d2 = st.line2.at(st.line2.tap_index(d.1 as nat));
        let d3 = st.line3.at(st.line3.tap_index(d.2 as nat));
        let d4 = st.line4.at(st.line4.tap_index(d.3 as nat));
        let wet = S::zero().add(d1).add(d2).add(d3).add(d4).div(S::ratio(4, 1));
        (
            ReverbMemory {
                line1: st.line1.push(x.add(d1.mul(self.feedback1))),
                line2: st.line2.push(x.add(d2.mul(self.feedback2))),
                line3: st.line3.push(x.add(d3.mul(self.feedback3))),
                line4: st.line4.push(x.add(d4.mul(self.feedback4))),
            },
            blend(x, wet, self.mix),
        )
    }

    /// Performs `tick_spec` on the node in place and returns the sample.
    pub fn tick(&mut self, x: S, d: (usize, usize, usize, usize)) -> (y: S)
        ensures
            final(self).same_size(old(self)),
            final(self).same_settings(old(self)),
            final(self).line1@.cursor == old(self).line1@.step().cursor,
            final(self).line2@.cursor == old(self).line2@.step().cursor,
            final(self).line3@.cursor == old(self).line3@.step().cursor,
            final(self).line4@.cursor == old(self).line4@.step().cursor,
            S::obeys_sample_spec() ==> (final(self)@, y) == old(self).tick_spec(old(self)@, x, d),
    {
        let d1 = self.line1.at(self.line1.tap_index(d.0));
        let d2 = self.line2.at(self.line2.tap_index(d.1));
        let d3 = self.line3.at(self.line3.tap_index(d.2));
        let d4 = self.line4.at(self.line4.tap_index(d.3));
        let wet = S::zero().add(d1).add(d2).add(d3).add(d4).div(S::ratio(4, 1));
        self.line1.push(x.add(d1.mul(self.feedback1)));
        self.line2.push(x.add(d2.mul(self.feedback2)));
        self.line3.push(x.add(d3.mul(self.feedback3)));
        self.line4.push(x.add(d4.mul(self.feedback4)));
        blend(x, wet, self.mix)
    }

    /// The node as a recursion over the samples of a block: the state before
    /// sample `i` to the state after it and the sample put out.
    pub open spec fn stepper(
        &self,
        inputs: Seq<Seq<S>>,
        sample_rate: S,
    ) -> spec_fn(ReverbMemory<S>, int) -> (ReverbMemory<S>, S) {
        |st: ReverbMemory<S>, i: int| self
            .tick_spec(
                st,
                inputs[0][i],
                self.delays(
                    sample_rate,
                    (
                        st.line1.len() as usize,
                        st.line2.len() as usize,
                        st.line3.len() as usize,
                        st.line4.len() as usize,
                    ),
                ),
            )
    }

    /// Processes one block: runs the recursion over the samples of the block and
    /// writes output 0. A call whose slices do not fit is refused and changes
    /// nothing. Nothing is allocated.
    pub fn process(
        &mut self,
        inputs: &[&[S]],
        outputs: &mut [Vec<S>],
        sample_rate: S,
    ) -> (r: Result<(), ShapeError>)
        ensures
            r == shape_verdict(rows(inputs), cols(old(outputs)@), 1, 1, 1, 1),
            same_lens(final(outputs)@, old(outputs)@),
            same_from(final(outputs)@, old(outputs)@, 1),
            final(self).same_size(old(self)),
            final(self).same_settings(old(self)),
            r.is_err() ==> final(self)@ == old(self)@ && final(outputs)@ == old(outputs)@,
            r.is_ok() ==> final(self).line1@.cursor == cursor_after(
                old(self).line1@.cursor,
                old(self).line1@.len(),
                final(outputs)@[0]@.len(),
            ),
            r.is_ok() ==> final(self).line2@.cursor == cursor_after(
                old(self).line2@.cursor,
                old(self).line2@.len(),
                final(outputs)@[0]@.len(),
            ),
            r.is_ok() ==> final(self).line3@.cursor == cursor_after(
                old(self).line3@.cursor,
                old(self).line3@.len(),
                final(outputs)@[0]@.len(),
            ),
            r.is_ok() ==> final(self).line4@.cursor == cursor_after(
                old(self).line4@.cursor,
                old(self).line4@.len(),
                final(outputs)@[0]@.len(),
            ),
            r.is_ok() && S::obeys_sample_spec() ==> renders(
                old(self).stepper(rows(inputs), sample_rate),
                old(self)@,
                final(self)@,
                final(outputs)@[0]@,
            ),
    {
        let n: usize = match check_block(inputs, outputs, 1, 1, 1, 1) {
            Ok(n) => n,
            Err(e) => {
                return Err(e);
            },
        };
        let ghost st_node = *self;
        let ghost f = st_node.stepper(rows(inputs), sample_rate);
        let ghost st0 = self@;
        let prep = self
            .delays(
                sample_rate,
                (self.line1.len(), self.line2.len(), self.line3.len(), self.line4.len()),
            );
        let mut i: usize = 0;
        while i < n
            invariant
                i <= n,
                inputs@.len() >= 1,
                outputs@.len() >= 1,
                outputs@[0]@.len() == n,
                forall|p: int| 0 <= p < 1 ==> (#[trigger] inputs@[p])@.len() == n,
                same_lens(outputs@, old(outputs)@),
                same_from(outputs@, old(outputs)@, 1),
                self.same_size(old(self)),
                self.line1@.cursor == cursor_after(
                    old(self).line1@.cursor,
                    old(self).line1@.len(),
                    i as nat,
                ),
                self.line2@.cursor == cursor_after(
                    old(self).line2@.cursor,
                    old(self).line2@.len(),
                    i as nat,
                ),
                self.line3@.cursor == cursor_after(
                    old(self).line3@.cursor,
                    old(self).line3@.len(),
                    i as nat,
                ),
                self.line4@.cursor == cursor_after(
                    old(self).line4@.cursor,
                    old(self).line4@.len(),
                    i as nat,
                ),
                self.same_settings(old(self)),
                self.same_settings(&st_node),
                f == st_node.stepper(rows(inputs), sample_rate),
                S::obeys_sample_spec() ==> prep == self
                    .delays(
                        sample_rate,
                        (
                            self.line1@.len() as usize,
                            self.line2@.len() as usize,
                            self.line3@.len() as usize,
                            self.line4@.len() as usize,
                        ),
                    ),
                S::obeys_sample_spec() ==> self@ == state_after(f, st0, i as nat),
                S::obeys_sample_spec() ==> forall|j: int|
                    0 <= j < i ==> outputs@[0]@[j] == #[trigger] output_at(f, st0, j),
            decreases n - i,
        {
            let x = read_at(inputs, 0, i);
            let y = self.tick(x, prep);
            outputs[0][i] = y;
            i += 1;
        }
        Ok(())
    }

    /// Puts the node back to what `new` gave it; its settings and the lengths of
    /// its lines stay. Nothing is allocated.
    pub fn reset(&mut self)
        ensures
            final(self).same_size(old(self)),
            final(self).same_settings(old(self)),
            S::obeys_sample_spec() ==>
                final(self)@ == (ReverbMemory { line1: old(self)@.line1.cleared(S::zero()), line2: old(self)@.line2.cleared(S::zero()), line3: old(self)@.line3.cleared(S::zero()), line4: old(self)@.line4.cleared(S::zero()) }),
    {
        self.line1.clear(S::zero());
        self.line2.clear(S::zero());
        self.line3.clear(S::zero());
        self.line4.clear(S::zero());
    }

    /// A reset right after `new` changes nothing.
    pub proof fn lemma_reset_after_new(decay: S, mix: S, sample_rate: S)
        ensures
            (ReverbMemory { line1: Self::fresh(decay, mix, sample_rate).line1.cleared(S::zero()), line2: Self::fresh(decay, mix, sample_rate).line2.cleared(S::zero()), line3: Self::fresh(decay, mix, sample_rate).line3.cleared(S::zero()), line4: Self::fresh(decay, mix, sample_rate).line4.cleared(S::zero()) }) == Self::fresh(
                decay,
                mix,
                sample_rate,
            ),
    {
        lemma_clear_after_new(ms_to_samples(S::ratio(50, 1), sample_rate) as nat, S::zero());
        lemma_clear_after_new(ms_to_samples(S::ratio(50, 1), sample_rate) as nat, S::zero());
        lemma_clear_after_new(ms_to_samples(S::ratio(50, 1), sample_rate) as nat, S::zero());
        lemma_clear_after_new(ms_to_samples(S::ratio(50, 1), sample_rate) as nat, S::zero());
    }

    /// The number of inputs that a call requires.
    pub fn num_inputs(&self) -> (r: usize)
        ensures
            r == 1,
    {
        1
    }

    /// The number of outputs that a call writes.
    pub fn num_outputs(&self) -> (r: usize)
        ensures
            r == 1,
    {
        1
    }
}

/// Chorus in its simplest form: the input mixed with the sample before it in
/// the block. The depth is held in `[0, 20]` and the mix in `[0, 1]`.
#[derive(Debug, Clone, Copy)]
pub struct Chorus<S> {
    pub rate: S,
    pub depth: S,
    pub mix: S,
    /// The phase of the sweep, in turns.
    pub lfo_phase: S,
}

impl<S: Sample> Chorus<S> {
    /// A node in its first state.
    pub open spec fn new_spec(rate: S, depth: S, mix: S, sample_rate: S) -> Self {
        Chorus {
            rate,
            depth: depth.clamp(S::zero(), S::ratio(20, 1)),
            mix: mix.clamp(S::zero(), S::one()),
            lfo_phase: S::zero(),
        }
    }

    /// Computes `new_spec`.
    #[verifier::when_used_as_spec(new_spec)]
    pub fn new(rate: S, depth: S, mix: S, sample_rate: S) -> (r: Self)
        ensures
            S::obeys_sample_spec() ==> r == Self::new_spec(rate, depth, mix, sample_rate),
    {
        Chorus {
            rate,
            depth: depth.clamp(S::zero(), S::ratio(20, 1)),
            mix: mix.clamp(S::zero(), S::one()),
            lfo_phase: S::zero(),
        }
    }

    /// Whether two nodes have the same settings.
    pub open spec fn same_settings(self, other: Self) -> bool {
        &&& self.rate == other.rate
        &&& self.depth == other.depth
        &&& self.mix == other.mix
    }

    /// One sample. `before` is the input sample before this one, and zero for the
    /// first sample of a block.
    pub open spec fn tick_spec(self, x: S, before: S, sample_rate: S) -> (Self, S) {
        (
            Chorus {
                rate: self.rate,
                depth: self.depth,
                mix: self.mix,
                lfo_phase: self.lfo_phase.add(self.rate.div(sample_rate)).rem(S::one()),
            },
            blend(x, before, self.mix),
        )
    }

    /// Computes `tick_spec`.
    #[verifier::when_used_as_spec(tick_spec)]
    pub fn tick(self, x: S, before: S, sample_rate: S) -> (r: (Self, S))
        ensures
            r.0.same_settings(self),
            S::obeys_sample_spec() ==> r == self.tick_spec(x, before, sample_rate),
    {
        (
            Chorus {
                rate: self.rate,
                depth: self.depth,
                mix: self.mix,
                lfo_phase: self.lfo_phase.add(self.rate.div(sample_rate)).rem(S::one()),
            },
            blend(x, before, self.mix),
        )
    }

    /// The node as a recursion over the samples of a block: the state before
    /// sample `i` to the state after it and the sample put out.
    pub open spec fn stepper(
        inputs: Seq<Seq<S>>,
        sample_rate: S,
    ) -> spec_fn(Self, int) -> (Self, S) {
        |st: Self, i: int| st
            .tick(inputs[0][i], if i > 0 { inputs[0][i - 1] } else { S::zero() }, sample_rate)
    }

    /// Processes one block: runs the recursion over the samples of the block and
    /// writes output 0. A call whose slices do not fit is refused and changes
    /// nothing. Nothing is allocated.
    pub fn process(
        &mut self,
        inputs: &[&[S]],
        outputs: &mut [Vec<S>],
        sample_rate: S,
    ) -> (r: Result<(), ShapeError>)
        ensures
            r == shape_verdict(rows(inputs), cols(old(outputs)@), 1, 1, 1, 1),
            same_lens(final(outputs)@, old(outputs)@),
            same_from(final(outputs)@, old(outputs)@, 1),
            r.is_err() ==> *final(self) == *old(self) && final(outputs)@ == old(outputs)@,
            final(self).same_settings(*old(self)),
            r.is_ok() && S::obeys_sample_spec() ==> renders(
                Self::stepper(rows(inputs), sample_rate),
                *old(self),
                *final(self),
                final(outputs)@[0]@,
            ),
    {
        let n: usize = match check_block(inputs, outputs, 1, 1, 1, 1) {
            Ok(n) => n,
            Err(e) => {
                return Err(e);
            },
        };
        let ghost f = Self::stepper(rows(inputs), sample_rate);
        let ghost st0 = *self;
        let zero = S::zero();
        let mut i: usize = 0;
        while i < n
            invariant
                i <= n,
                inputs@.len() >= 1,
                outputs@.len() >= 1,
                outputs@[0]@.len() == n,
                forall|p: int| 0 <= p < 1 ==> (#[trigger] inputs@[p])@.len() == n,
                same_lens(outputs@, old(outputs)@),
                same_from(outputs@, old(outputs)@, 1),
                f == Self::stepper(rows(inputs), sample_rate),
                self.same_settings(st0),
                S::obeys_sample_spec() ==> zero == S::zero(),
                S::obeys_sample_spec() ==> *self == state_after(f, st0, i as nat),
                S::obeys_sample_spec() ==> forall|j: int|
                    0 <= j < i ==> outputs@[0]@[j] == #[trigger] output_at(f, st0, j),
            decreases n - i,
        {
            let x = read_at(inputs, 0, i);
            let before = if i > 0 {
                read_at(inputs, 0, (i - 1) as usize)
            } else {
                zero
            };
            let (next, y) = self.tick(x, before, sample_rate);
            *self = next;
            outputs[0][i] = y;
            i += 1;
        }
        Ok(())
    }

    /// Puts the node back to the state that `new` gave it; its settings stay.
    pub open spec fn reset_spec(self) -> Self {
        Chorus { rate: self.rate, depth: self.depth, mix: self.mix, lfo_phase: S::zero() }
    }

    /// Performs `reset_spec` in place.
    pub fn reset(&mut self)
        ensures
            final(self).same_settings(*old(self)),
            S::obeys_sample_spec() ==> *final(self) == old(self).reset_spec(),
    {
        *self = Chorus { rate: self.rate, depth: self.depth, mix: self.mix, lfo_phase: S::zero() };
    }

    /// A reset right after `new` changes nothing.
    pub proof fn lemma_reset_after_new(rate: S, depth: S, mix: S, sample_rate: S)
        ensures
            Self::new_spec(rate, depth, mix, sample_rate)
                .reset_spec() == Self::new_spec(rate, depth, mix, sample_rate),
    {
    }

    /// The number of inputs that a call requires.
    pub fn num_inputs(&self) -> (r: usize)
        ensures
            r == 1,
    {
        1
    }

    /// The number of outputs that a call writes.
    pub fn num_outputs(&self) -> (r: usize)
        ensures
            r == 1,
    {
        1
    }
}

/// Phaser: the input through a chain of all-pass biquads, mixed with the
/// input. The depth and the mix are held in `[0, 1]`.
#[derive(Debug)]
pub struct Phaser<S> {
    pub rate: S,
    pub depth: S,
    pub mix: S,
    /// The stages of the chain, in the order the signal passes them.
    pub allpass_filters: Vec<Allpass<S>>,
    /// The phase of the sweep, in turns.
    pub lfo_phase: S,
}

impl<S: Sample> Phaser<S> {
    /// Whether two phasers have the same settings.
    pub open spec fn same_settings(&self, other: &Phaser<S>) -> bool {
        &&& self.rate == other.rate
        &&& self.depth == other.depth
        &&& self.mix == other.mix
        &&& self.lfo_phase == other.lfo_phase
        &&& self.allpass_filters@.len() == other.allpass_filters@.len()
    }

    /// Stage `i` of a new chain: an all-pass at `300 + 200 i` hertz with a
    /// quality of 0.7.
    pub open spec fn stage_filter_spec(i: usize) -> Allpass<S> {
        Allpass::new(S::ratio(300, 1).add(S::from_usize(i).mul(S::ratio(200, 1))), S::ratio(7, 10))
    }

    /// Computes `stage_filter_spec`.
    #[verifier::when_used_as_spec(stage_filter_spec)]
    pub fn stage_filter(i: usize) -> (r: Allpass<S>)
        ensures
            S::obeys_sample_spec() ==> r == Self::stage_filter_spec(i),
    {
        Allpass::new(S::ratio(300, 1).add(S::from_usize(i).mul(S::ratio(200, 1))), S::ratio(7, 10))
    }

    /// A phaser of `stages` stages at rest. This is where its chain is
    /// allocated.
    pub fn new(rate: S, depth: S, mix: S, stages: usize) -> (r: Self)
        ensures
            r.rate == rate,
            r.allpass_filters@.len() == stages,
            S::obeys_sample_spec() ==> {
                &&& r.depth == depth.clamp(S::zero(), S::one())
                &&& r.mix == mix.clamp(S::zero(), S::one())
                &&& r.lfo_phase == S::zero()
                &&& forall|i: int| 0 <= i < stages ==>
                    r.allpass_filters@[i] == #[trigger] Self::stage_filter(i as usize)
            },
    {
        let mut allpass_filters: Vec<Allpass<S>> = Vec::new();
        let mut i: usize = 0;
        while i < stages
            invariant
                i <= stages,
                allpass_filters@.len() == i,
                S::obeys_sample_spec() ==> forall|j: int|
                    0 <= j < i ==> allpass_filters@[j] == #[trigger] Self::stage_filter(j as usize),
            decreases stages - i,
        {
            allpass_filters.push(Self::stage_filter(i));
            i += 1;
        }
        Phaser {
            rate,
            depth: depth.clamp(S::zero(), S::one()),
            mix: mix.clamp(S::zero(), S::one()),
            allpass_filters,
            lfo_phase: S::zero(),
        }
    }

    /// The signal behind the first `k` stages of a chain, for a block `input`.
    pub open spec fn stage_signal(
        filters: Seq<Allpass<S>>,
        input: Seq<S>,
        sample_rate: S,
        k: nat,
    ) -> Seq<S>
        decreases k,
    {
        if k == 0 {
            input
        } else {
            let before = Self::stage_signal(filters, input, sample_rate, (k - 1) as nat);
            Seq::new(
                input.len(),
                |i: int| output_at(Allpass::stepper(seq![before], sample_rate), filters[k - 1], i),
            )
        }
    }

    /// Stage `k` of a chain after a block `input`.
    pub open spec fn stage_after(
        filters: Seq<Allpass<S>>,
        input: Seq<S>,
        sample_rate: S,
        k: nat,
    ) -> Allpass<S> {
        state_after(
            Allpass::stepper(seq![Self::stage_signal(filters, input, sample_rate, k)], sample_rate),
            filters[k as int],
            input.len(),
        )
    }

    /// Processes one block, stage by stage in the output buffer. Nothing is
    /// allocated.
    pub fn process(
        &mut self,
        inputs: &[&[S]],
        outputs: &mut [Vec<S>],
        sample_rate: S,
    ) -> (r: Result<(), ShapeError>)
        ensures
            r == shape_verdict(rows(inputs), cols(old(outputs)@), 1, 1, 1, 1),
            same_lens(final(outputs)@, old(outputs)@),
            same_from(final(outputs)@, old(outputs)@, 1),
            final(self).same_settings(old(self)),
            r
                .is_err() ==>
                    final(self).allpass_filters@ == old(self).allpass_filters@ && final(outputs)@ == old(outputs)@,
            r.is_ok() && S::obeys_sample_spec() ==> {
                let input = rows(inputs)[0];
                let filters = old(self).allpass_filters@;
                &&& forall|k: int|
                    0 <= k < filters
                        .len() ==> final(self).allpass_filters@[k] == #[trigger] Self::stage_after(
                        filters,
                        input,
                        sample_rate,
                        k as nat,
                    )
                &&& forall|i: int|
                    0 <= i < input.len() ==> #[trigger] final(outputs)@[0]@[i] == blend(
                        input[i],
                        Self::stage_signal(filters, input, sample_rate, filters.len())[i],
                        old(self).mix,
                    )
            },
    {
        let n: usize = match check_block(inputs, outputs, 1, 1, 1, 1) {
            Ok(n) => n,
            Err(e) => {
                return Err(e);
            },
        };
        let ghost input = rows(inputs)[0];
        let ghost filters = self.allpass_filters@;
        let mut c: usize = 0;
        while c < n
            invariant
                c <= n,
                inputs@.len() >= 1,
                inputs@[0]@.len() == n,
                input == rows(inputs)[0],
                outputs@.len() >= 1,
                outputs@[0]@.len() == n,
                same_lens(outputs@, old(outputs)@),
                same_from(outputs@, old(outputs)@, 1),
                forall|j: int| 0 <= j < c ==> outputs@[0]@[j] == input[j],
            decreases n - c,
        {
            let x = read_at(inputs, 0, c);
            outputs[0][c] = x;
            c += 1;
        }
        assert(outputs@[0]@ =~= input);
        let count: usize = self.allpass_filters.len();
        let mut k: usize = 0;
        while k < count
            invariant
                k <= count,
                count == filters.len(),
                self.allpass_filters@.len() == count,
                self.same_settings(old(self)),
                input.len() == n,
                input == rows(inputs)[0],
                filters == old(self).allpass_filters@,
                outputs@.len() >= 1,
                outputs@[0]@.len() == n,
                same_lens(outputs@, old(outputs)@),
                same_from(outputs@, old(outputs)@, 1),
                forall|p: int| k <= p < count ==> self.allpass_filters@[p] == filters[p],
                S::obeys_sample_spec() ==> forall|p: int|
                    0 <= p < k ==> self.allpass_filters@[p] == #[trigger] Self::stage_after(
                        filters,
                        input,
                        sample_rate,
                        p as nat,
                    ),
                S::obeys_sample_spec() ==>
                    outputs@[0]@ == Self::stage_signal(filters, input, sample_rate, k as nat),
            decreases count - k,
        {
            let ghost before = outputs@[0]@;
            let ghost f = Allpass::stepper(seq![before], sample_rate);
            let first = self.allpass_filters[k];
            let coeffs = first.coefficients(sample_rate);
            let mut filter = first;
            let mut i: usize = 0;
            while i < n
                invariant
                    i <= n,
                    before.len() == n,
                    f == Allpass::stepper(seq![before], sample_rate),
                    outputs@.len() >= 1,
                    outputs@[0]@.len() == n,
                    same_lens(outputs@, old(outputs)@),
                    same_from(outputs@, old(outputs)@, 1),
                    forall|j: int| i <= j < n ==> outputs@[0]@[j] == before[j],
                    S::obeys_sample_spec() ==> coeffs == filter.coefficients(sample_rate),
                    S::obeys_sample_spec() ==> filter == state_after(f, first, i as nat),
                    S::obeys_sample_spec() ==> forall|j: int|
                        0 <= j < i ==> outputs@[0]@[j] == #[trigger] output_at(f, first, j),
                decreases n - i,
            {
                let (next, y) = filter.tick(outputs[0][i], coeffs);
                assert(seq![before][0] == before);
                filter = next;
                outputs[0][i] = y;
                i += 1;
            }
            self.allpass_filters[k] = filter;
            proof {
                if S::obeys_sample_spec() {
                    assert(outputs@[0]@ =~= Self::stage_signal(
                        filters,
                        input,
                        sample_rate,
                        (k + 1) as nat,
                    ));
                    assert(filter == Self::stage_after(filters, input, sample_rate, k as nat));
                }
            }
            k += 1;
        }
        let ghost wet = outputs@[0]@;
        let mut m: usize = 0;
        while m < n
            invariant
                m <= n,
                inputs@.len() >= 1,
                inputs@[0]@.len() == n,
                input == rows(inputs)[0],
                wet.len() == n,
                self.same_settings(old(self)),
                outputs@.len() >= 1,
                outputs@[0]@.len() == n,
                same_lens(outputs@, old(outputs)@),
                same_from(outputs@, old(outputs)@, 1),
                forall|j: int| m <= j < n ==> outputs@[0]@[j] == wet[j],
                S::obeys_sample_spec() ==> forall|j: int|
                    0 <= j < m ==> outputs@[0]@[j] == blend(input[j], wet[j], self.mix),
            decreases n - m,
        {
            let y = blend(read_at(inputs, 0, m), outputs[0][m], self.mix);
            outputs[0][m] = y;
            m += 1;
        }
        Ok(())
    }

    /// Puts every stage and the sweep back to rest; the settings stay.
    /// Nothing is allocated.
    pub fn reset(&mut self)
        ensures
            final(self).rate == old(self).rate,
            final(self).depth == old(self).depth,
            final(self).mix == old(self).mix,
            final(self).allpass_filters@.len() == old(self).allpass_filters@.len(),
            S::obeys_sample_spec() ==> {
                &&& final(self).lfo_phase == S::zero()
                &&& forall|k: int|
                    0 <= k < old(self).allpass_filters@
                        .len() ==> final(self).allpass_filters@[k] == (
                    #[trigger] old(self).allpass_filters@[k]).reset_spec()
            },
    {
        let count: usize = self.allpass_filters.len();
        let mut k: usize = 0;
        while k < count
            invariant
                k <= count,
                self.allpass_filters@.len() == count,
                count == old(self).allpass_filters@.len(),
                self.rate == old(self).rate,
                self.depth == old(self).depth,
                self.mix == old(self).mix,
                forall|p: int| k <= p < count ==>
                    self.allpass_filters@[p] == old(self).allpass_filters@[p],
                S::obeys_sample_spec() ==> forall|p: int|
                    0 <= p < k ==>
                        self.allpass_filters@[p] == (#[trigger] old(self).allpass_filters@[p])
                        .reset_spec(),
            decreases count - k,
        {
            let mut filter = self.allpass_filters[k];
            filter.reset();
            self.allpass_filters[k] = filter;
            k += 1;
        }
        self.lfo_phase = S::zero();
    }

    /// The number of inputs that a call requires.
    pub fn num_inputs(&self) -> (r: usize)
        ensures
            r == 1,
    {
        1
    }

    /// The number of outputs that a call writes.
    pub fn num_outputs(&self) -> (r: usize)
        ensures
            r == 1,
    {
        1
    }
}

/// Flanger in its simplest form: the input mixed with itself, delayed by one
/// millisecond with feedback. The depth is held in `[0, 10]`, the feedback in
/// `[0, 0.9]` and the mix in `[0, 1]`.
#[derive(Debug)]
pub struct Flanger<S> {
    pub rate: S,
    pub depth: S,
    pub feedback: S,
    pub mix: S,
    /// The feedback of the delay, held in `[0, 0.99]`.
    pub delay_feedback: S,
    /// The delay line.
    pub line: DelayLine<S>,
    /// The phase of the sweep, in turns.
    pub lfo_phase: S,
}

/// What `Flanger` holds besides its settings.
pub struct FlangerMemory<S> {
    pub line: DelayView<S>,
    pub lfo_phase: S,
}

impl<S> View for Flanger<S> {
    type V = FlangerMemory<S>;

    open spec fn view(&self) -> FlangerMemory<S> {
        FlangerMemory { line: self.line@, lfo_phase: self.lfo_phase }
    }
}

impl<S: Sample> Flanger<S> {
    /// Whether two nodes hold as many samples.
    pub open spec fn same_size(&self, other: &Flanger<S>) -> bool {
        self.line@.len() == other.line@.len()
    }

    /// Whether two nodes have the same settings.
    pub open spec fn same_settings(&self, other: &Flanger<S>) -> bool {
        &&& self.rate == other.rate
        &&& self.depth == other.depth
        &&& self.feedback == other.feedback
        &&& self.mix == other.mix
        &&& self.delay_feedback == other.delay_feedback
    }

    /// What a node holds when `new` made it.
    pub open spec fn fresh(
        rate: S,
        depth: S,
        feedback: S,
        mix: S,
        sample_rate: S,
    ) -> FlangerMemory<S> {
        FlangerMemory {
            line: DelayView::filled(ms_to_samples(S::ratio(15, 1), sample_rate) as nat, S::zero()),
            lfo_phase: S::zero(),
        }
    }

    /// A node in its first state. Whatever the node allocates, it allocates here.
    pub fn new(rate: S, depth: S, feedback: S, mix: S, sample_rate: S) -> (r: Self)
        ensures
            S::obeys_sample_spec() ==> r@ == Self::fresh(rate, depth, feedback, mix, sample_rate),
            r.rate == rate,
            S::obeys_sample_spec() ==> r.depth == depth.clamp(S::zero(), S::ratio(10, 1)),
            S::obeys_sample_spec() ==> r.feedback == feedback.clamp(S::zero(), S::ratio(9, 10)),
            S::obeys_sample_spec() ==> r.mix == mix.clamp(S::zero(), S::one()),
            S::obeys_sample_spec() ==> r.delay_feedback == feedback
                .clamp(S::zero(), S::ratio(99, 100)),
    {
        let line = DelayLine::new(ms_to_samples(S::ratio(15, 1), sample_rate), S::zero());
        Flanger {
            rate,
            depth: depth.clamp(S::zero(), S::ratio(10, 1)),
            feedback: feedback.clamp(S::zero(), S::ratio(9, 10)),
            mix: mix.clamp(S::zero(), S::one()),
            delay_feedback: feedback.clamp(S::zero(), S::ratio(99, 100)),
            line,
            lfo_phase: S::zero(),
        }
    }

    /// One sample: the line is read at the delay and takes the input plus the read
    /// sample times the feedback of the delay; the read sample is mixed with the
    /// input.
    pub open spec fn tick_spec(
        &self,
        st: FlangerMemory<S>,
        x: S,
        delay: usize,
    ) -> (FlangerMemory<S>, S) {
        let delayed = st.line.at(st.line.tap_index(delay as nat));
        (
            FlangerMemory {
                line: st.line.push(x.add(delayed.mul(self.delay_feedback))),
                lfo_phase: st.lfo_phase,
            },
            blend(x, delayed, self.mix),
        )
    }

    /// Performs `tick_spec` on the node in place and returns the sample.
    pub fn tick(&mut self, x: S, delay: usize) -> (y: S)
        ensures
            final(self).same_size(old(self)),
            final(self).same_settings(old(self)),
            final(self).line@.cursor == old(self).line@.step().cursor,
            S::obeys_sample_spec() ==> (final(self)@, y) == old(self)
                .tick_spec(old(self)@, x, delay),
    {
        let delayed = self.line.at(self.line.tap_index(delay));
        self.line.push(x.add(delayed.mul(self.delay_feedback)));
        blend(x, delayed, self.mix)
    }

    /// The node as a recursion over the samples of a block: the state before
    /// sample `i` to the state after it and the sample put out.
    pub open spec fn stepper(
        &self,
        inputs: Seq<Seq<S>>,
        sample_rate: S,
    ) -> spec_fn(FlangerMemory<S>, int) -> (FlangerMemory<S>, S) {
        |st: FlangerMemory<S>, i: int| self
            .tick_spec(
                st,
                inputs[0][i],
                capped_delay(S::one(), sample_rate, st.line.len() as usize),
            )
    }

    /// Processes one block: runs the recursion over the samples of the block and
    /// writes output 0. A call whose slices do not fit is refused and changes
    /// nothing. Nothing is allocated.
    pub fn process(
        &mut self,
        inputs: &[&[S]],
        outputs: &mut [Vec<S>],
        sample_rate: S,
    ) -> (r: Result<(), ShapeError>)
        ensures
            r == shape_verdict(rows(inputs), cols(old(outputs)@), 1, 1, 1, 1),
            same_lens(final(outputs)@, old(outputs)@),
            same_from(final(outputs)@, old(outputs)@, 1),
            final(self).same_size(old(self)),
            final(self).same_settings(old(self)),
            r.is_err() ==> final(self)@ == old(self)@ && final(outputs)@ == old(outputs)@,
            r.is_ok() ==> final(self).line@.cursor == cursor_after(
                old(self).line@.cursor,
                old(self).line@.len(),
                final(outputs)@[0]@.len(),
            ),
            r.is_ok() && S::obeys_sample_spec() ==> renders(
                old(self).stepper(rows(inputs), sample_rate),
                old(self)@,
                final(self)@,
                final(outputs)@[0]@,
            ),
    {
        let n: usize = match check_block(inputs, outputs, 1, 1, 1, 1) {
            Ok(n) => n,
            Err(e) => {
                return Err(e);
            },
        };
        let ghost st_node = *self;
        let ghost f = st_node.stepper(rows(inputs), sample_rate);
        let ghost st0 = self@;
        let prep = capped_delay(S::one(), sample_rate, self.line.len());
        let mut i: usize = 0;
        while i < n
            invariant
                i <= n,
                inputs@.len() >= 1,
                outputs@.len() >= 1,
                outputs@[0]@.len() == n,
                forall|p: int| 0 <= p < 1 ==> (#[trigger] inputs@[p])@.len() == n,
                same_lens(outputs@, old(outputs)@),
                same_from(outputs@, old(outputs)@, 1),
                self.same_size(old(self)),
                self.line@.cursor == cursor_after(
                    old(self).line@.cursor,
                    old(self).line@.len(),
                    i as nat,
                ),
                self.same_settings(old(self)),
                self.same_settings(&st_node),
                f == st_node.stepper(rows(inputs), sample_rate),
                S::obeys_sample_spec() ==>
                    prep == capped_delay(S::one(), sample_rate, self.line@.len() as usize),
                S::obeys_sample_spec() ==> self@ == state_after(f, st0, i as nat),
                S::obeys_sample_spec() ==> forall|j: int|
                    0 <= j < i ==> outputs@[0]@[j] == #[trigger] output_at(f, st0, j),
            decreases n - i,
        {
            let x = read_at(inputs, 0, i);
            let y = self.tick(x, prep);
            outputs[0][i] = y;
            i += 1;
        }
        Ok(())
    }

    /// Puts the node back to what `new` gave it; its settings and the lengths of
    /// its lines stay. Nothing is allocated.
    pub fn reset(&mut self)
        ensures
            final(self).same_size(old(self)),
            final(self).same_settings(old(self)),
            S::obeys_sample_spec() ==>
                final(self)@ == (FlangerMemory { line: old(self)@.line.cleared(S::zero()), lfo_phase: S::zero() }),
    {
        self.line.clear(S::zero());
        self.lfo_phase = S::zero();
    }

    /// A reset right after `new` changes nothing.
    pub proof fn lemma_reset_after_new(rate: S, depth: S, feedback: S, mix: S, sample_rate: S)
        ensures
            (FlangerMemory { line: Self::fresh(rate, depth, feedback, mix, sample_rate).line.cleared(S::zero()), lfo_phase: S::zero() }) == Self::fresh(
                rate,
                depth,
                feedback,
                mix,
                sample_rate,
            ),
    {
        lemma_clear_after_new(ms_to_samples(S::ratio(15, 1), sample_rate) as nat, S::zero());
    }

    /// The number of inputs that a call requires.
    pub fn num_inputs(&self) -> (r: usize)
        ensures
            r == 1,
    {
        1
    }

    /// The number of outputs that a call writes.
    pub fn num_outputs(&self) -> (r: usize)
        ensures
            r == 1,
    {
        1
    }
}

/// Delay with several taps, each a delay in milliseconds and a gain, read from
/// one line. The feedback is held in `[0, 0.99]`.
#[derive(Debug)]
pub struct MultiTapDelay<S> {
    pub taps: Vec<(S, S)>,
    pub feedback: S,
    /// The delay line.
    pub line: DelayLine<S>,
}

/// What `MultiTapDelay` holds besides its settings.
pub struct MultiTapDelayMemory<S> {
    pub line: DelayView<S>,
}

impl<S> View for MultiTapDelay<S> {
    type V = MultiTapDelayMemory<S>;

    open spec fn view(&self) -> MultiTapDelayMemory<S> {
        MultiTapDelayMemory { line: self.line@ }
    }
}

impl<S: Sample> MultiTapDelay<S> {
    /// Whether two nodes hold as many samples.
    pub open spec fn same_size(&self, other: &MultiTapDelay<S>) -> bool {
        self.line@.len() == other.line@.len()
    }

    /// Whether two nodes have the same settings.
    pub open spec fn same_settings(&self, other: &MultiTapDelay<S>) -> bool {
        &&& self.taps@ == other.taps@
        &&& self.feedback == other.feedback
    }

    /// What a node holds when `new` made it.
    pub open spec fn fresh(
        taps: Vec<(S, S)>,
        feedback: S,
        max_delay_ms: S,
        sample_rate: S,
    ) -> MultiTapDelayMemory<S> {
        MultiTapDelayMemory {
            line: DelayView::filled(ms_to_samples(max_delay_ms, sample_rate) as nat, S::zero()),
        }
    }

    /// A node in its first state. Whatever the node allocates, it allocates here.
    pub fn new(taps: Vec<(S, S)>, feedback: S, max_delay_ms: S, sample_rate: S) -> (r: Self)
        ensures
            S::obeys_sample_spec() ==> r@ == Self::fresh(taps, feedback, max_delay_ms, sample_rate),
            r.taps == taps,
            S::obeys_sample_spec() ==> r.feedback == feedback.clamp(S::zero(), S::ratio(99, 100)),
    {
        let line = DelayLine::new(ms_to_samples(max_delay_ms, sample_rate), S::zero());
        MultiTapDelay {
            taps,
            feedback: feedback.clamp(S::zero(), S::ratio(99, 100)),
            line,
        }
    }

    /// The sum over the first `k` taps of the sample each reads from the line
    /// times its gain, added up in order.
    pub open spec fn tap_sum(line: DelayView<S>, taps: Seq<(S, S)>, sample_rate: S, k: nat) -> S
        decreases k,
    {
        if k == 0 {
            S::zero()
        } else {
            let read = line.at(line.tap_index(ms_to_samples(taps[k - 1].0, sample_rate) as nat));
            Self::tap_sum(line, taps, sample_rate, (k - 1) as nat).add(read.mul(taps[k - 1].1))
        }
    }

    /// One sample: the taps are read and summed, which is the sample put out; the
    /// input plus the oldest sample times the feedback goes into the line.
    pub open spec fn tick_spec(
        &self,
        st: MultiTapDelayMemory<S>,
        x: S,
        sample_rate: S,
    ) -> (MultiTapDelayMemory<S>, S) {
        let sum = Self::tap_sum(st.line, self.taps@, sample_rate, self.taps@.len());
        (MultiTapDelayMemory { line: st.line.push(x.add(st.line.head().mul(self.feedback))) }, sum)
    }

    /// Performs `tick_spec` on the node in place and returns the sample.
    pub fn tick(&mut self, x: S, sample_rate: S) -> (y: S)
        ensures
            final(self).same_size(old(self)),
            final(self).same_settings(old(self)),
            final(self).line@.cursor == old(self).line@.step().cursor,
            S::obeys_sample_spec() ==> (final(self)@, y) == old(self)
                .tick_spec(old(self)@, x, sample_rate),
    {
        let count: usize = self.taps.len();
        let mut sum = S::zero();
        let mut k: usize = 0;
        while k < count
            invariant
                k <= count,
                count == self.taps@.len(),
                *self == *old(self),
                S::obeys_sample_spec() ==>
                    sum == Self::tap_sum(self.line@, self.taps@, sample_rate, k as nat),
            decreases count - k,
        {
            let tap = self.taps[k];
            let read = self.line.at(self.line.tap_index(ms_to_samples(tap.0, sample_rate)));
            sum = sum.add(read.mul(tap.1));
            k += 1;
        }
        let oldest = self.line.read();
        self.line.push(x.add(oldest.mul(self.feedback)));
        sum
    }

    /// The node as a recursion over the samples of a block: the state before
    /// sample `i` to the state after it and the sample put out.
    pub open spec fn stepper(
        &self,
        inputs: Seq<Seq<S>>,
        sample_rate: S,
    ) -> spec_fn(MultiTapDelayMemory<S>, int) -> (MultiTapDelayMemory<S>, S) {
        |st: MultiTapDelayMemory<S>, i: int| self.tick_spec(st, inputs[0][i], sample_rate)
    }

    /// Processes one block: runs the recursion over the samples of the block and
    /// writes output 0. A call whose slices do not fit is refused and changes
    /// nothing. Nothing is allocated.
    pub fn process(
        &mut self,
        inputs: &[&[S]],
        outputs: &mut [Vec<S>],
        sample_rate: S,
    ) -> (r: Result<(), ShapeError>)
        ensures
            r == shape_verdict(rows(inputs), cols(old(outputs)@), 1, 1, 1, 1),
            same_lens(final(outputs)@, old(outputs)@),
            same_from(final(outputs)@, old(outputs)@, 1),
            final(self).same_size(old(self)),
            final(self).same_settings(old(self)),
            r.is_err() ==> final(self)@ == old(self)@ && final(outputs)@ == old(outputs)@,
            r.is_ok() ==> final(self).line@.cursor == cursor_after(
                old(self).line@.cursor,
                old(self).line@.len(),
                final(outputs)@[0]@.len(),
            ),
            r.is_ok() && S::obeys_sample_spec() ==> renders(
                old(self).stepper(rows(inputs), sample_rate),
                old(self)@,
                final(self)@,
                final(outputs)@[0]@,
            ),
    {
        let n: usize = match check_block(inputs, outputs, 1, 1, 1, 1) {
            Ok(n) => n,
            Err(e) => {
                return Err(e);
            },
        };
        let ghost st_node = *self;
        let ghost f = st_node.stepper(rows(inputs), sample_rate);
        let ghost st0 = self@;
        let mut i: usize = 0;
        while i < n
            invariant
                i <= n,
                inputs@.len() >= 1,
                outputs@.len() >= 1,
                outputs@[0]@.len() == n,
                forall|p: int| 0 <= p < 1 ==> (#[trigger] inputs@[p])@.len() == n,
                same_lens(outputs@, old(outputs)@),
                same_from(outputs@, old(outputs)@, 1),
                self.same_size(old(self)),
                self.line@.cursor == cursor_after(
                    old(self).line@.cursor,
                    old(self).line@.len(),
                    i as nat,
                ),
                self.same_settings(old(self)),
                self.same_settings(&st_node),
                f == st_node.stepper(rows(inputs), sample_rate),
                S::obeys_sample_spec() ==> self@ == state_after(f, st0, i as nat),
                S::obeys_sample_spec() ==> forall|j: int|
                    0 <= j < i ==> outputs@[0]@[j] == #[trigger] output_at(f, st0, j),
            decreases n - i,
        {
            let x = read_at(inputs, 0, i);
            let y = self.tick(x, sample_rate);
            outputs[0][i] = y;
            i += 1;
        }
        Ok(())
    }

    /// Puts the node back to what `new` gave it; its settings and the lengths of
    /// its lines stay. Nothing is allocated.
    pub fn reset(&mut self)
        ensures
            final(self).same_size(old(self)),
            final(self).same_settings(old(self)),
            S::obeys_sample_spec() ==>
                final(self)@ == (MultiTapDelayMemory { line: old(self)@.line.cleared(S::zero()) }),
    {
        self.line.clear(S::zero());
    }

    /// A reset right after `new` changes nothing.
    pub proof fn lemma_reset_after_new(
        taps: Vec<(S, S)>,
        feedback: S,
        max_delay_ms: S,
        sample_rate: S,
    )
        ensures
            (MultiTapDelayMemory { line: Self::fresh(taps, feedback, max_delay_ms, sample_rate).line.cleared(S::zero()) }) == Self::fresh(
                taps,
                feedback,
                max_delay_ms,
                sample_rate,
            ),
    {
        lemma_clear_after_new(ms_to_samples(max_delay_ms, sample_rate) as nat, S::zero());
    }

    /// The number of inputs that a call requires.
    pub fn num_inputs(&self) -> (r: usize)
        ensures
            r == 1,
    {
        1
    }

    /// The number of outputs that a call writes.
    pub fn num_outputs(&self) -> (r: usize)
        ensures
            r == 1,
    {
        1
    }
}

/// Reverb by convolution with an impulse response, sample by sample in the time
/// domain. The mix is held in `[0, 1]`.
#[derive(Debug)]
pub struct ConvolutionReverb<S> {
    pub mix: S,
    pub impulse_response: Vec<S>,
    /// The delay line.
    pub line: DelayLine<S>,
}

/// What `ConvolutionReverb` holds besides its settings.
pub struct ConvolutionReverbMemory<S> {
    pub line: DelayView<S>,
}

impl<S> View for ConvolutionReverb<S> {
    type V = ConvolutionReverbMemory<S>;

    open spec fn view(&self) -> ConvolutionReverbMemory<S> {
        ConvolutionReverbMemory { line: self.line@ }
    }
}

impl<S: Sample> ConvolutionReverb<S> {
    /// Whether two nodes hold as many samples.
    pub open spec fn same_size(&self, other: &ConvolutionReverb<S>) -> bool {
        self.line@.len() == other.line@.len()
    }

    /// Whether two nodes have the same settings.
    pub open spec fn same_settings(&self, other: &ConvolutionReverb<S>) -> bool {
        &&& self.mix == other.mix
        &&& self.impulse_response@ == other.impulse_response@
    }

    /// What a node holds when `new` made it.
    pub open spec fn fresh(impulse_response: Vec<S>, mix: S) -> ConvolutionReverbMemory<S> {
        ConvolutionReverbMemory {
            line: DelayView::filled(impulse_response.len() as nat, S::zero()),
        }
    }

    /// A node in its first state. Whatever the node allocates, it allocates here.
    pub fn new(impulse_response: Vec<S>, mix: S) -> (r: Self)
        ensures
            S::obeys_sample_spec() ==> r@ == Self::fresh(impulse_response, mix),
            r.line@.len() == Self::fresh(impulse_response, mix).line.len(),
            S::obeys_sample_spec() ==> r.mix == mix.clamp(S::zero(), S::one()),
            r.impulse_response == impulse_response,
    {
        let line = DelayLine::new(impulse_response.len(), S::zero());
        ConvolutionReverb {
            mix: mix.clamp(S::zero(), S::one()),
            impulse_response,
            line,
        }
    }

    /// The sum over the first `k` samples of the impulse response of each times
    /// the input sample as many positions back, added up in order.
    pub open spec fn convolved(line: DelayView<S>, ir: Seq<S>, k: nat) -> S
        decreases k,
    {
        if k == 0 {
            S::zero()
        } else {
            let read = line.at(line.tap_index((k - 1) as nat));
            Self::convolved(line, ir, (k - 1) as nat).add(read.mul(ir[k - 1]))
        }
    }

    /// One sample: the input goes into the line; the wet signal is the sum of the
    /// last inputs, each times the sample of the impulse response at its age; it is
    /// mixed with the input.
    pub open spec fn tick_spec(
        &self,
        st: ConvolutionReverbMemory<S>,
        x: S,
    ) -> (ConvolutionReverbMemory<S>, S) {
        let written = st.line.put(x);
        let wet = Self::convolved(written, self.impulse_response@, self.impulse_response@.len());
        (ConvolutionReverbMemory { line: written.step() }, blend(x, wet, self.mix))
    }

    /// Performs `tick_spec` on the node in place and returns the sample.
    pub fn tick(&mut self, x: S) -> (y: S)
        ensures
            final(self).same_size(old(self)),
            final(self).same_settings(old(self)),
            final(self).line@.cursor == old(self).line@.step().cursor,
            S::obeys_sample_spec() ==> (final(self)@, y) == old(self).tick_spec(old(self)@, x),
    {
        self.line.write(x);
        let ghost written = self.line@;
        let count: usize = self.impulse_response.len();
        let mut wet = S::zero();
        let mut k: usize = 0;
        while k < count
            invariant
                k <= count,
                count == self.impulse_response@.len(),
                self.line@ == written,
                self.same_size(old(self)),
                self.same_settings(old(self)),
                S::obeys_sample_spec() ==>
                    wet == Self::convolved(written, self.impulse_response@, k as nat),
            decreases count - k,
        {
            let read = self.line.at(self.line.tap_index(k));
            wet = wet.add(read.mul(self.impulse_response[k]));
            k += 1;
        }
        self.line.advance();
        blend(x, wet, self.mix)
    }

    /// The node as a recursion over the samples of a block: the state before
    /// sample `i` to the state after it and the sample put out.
    pub open spec fn stepper(
        &self,
        inputs: Seq<Seq<S>>,
        sample_rate: S,
    ) -> spec_fn(ConvolutionReverbMemory<S>, int) -> (ConvolutionReverbMemory<S>, S) {
        |st: ConvolutionReverbMemory<S>, i: int| self.tick_spec(st, inputs[0][i])
    }

    /// Processes one block: runs the recursion over the samples of the block and
    /// writes output 0. A call whose slices do not fit is refused and changes
    /// nothing. Nothing is allocated.
    pub fn process(
        &mut self,
        inputs: &[&[S]],
        outputs: &mut [Vec<S>],
        sample_rate: S,
    ) -> (r: Result<(), ShapeError>)
        ensures
            r == shape_verdict(rows(inputs), cols(old(outputs)@), 1, 1, 1, 1),
            same_lens(final(outputs)@, old(outputs)@),
            same_from(final(outputs)@, old(outputs)@, 1),
            final(self).same_size(old(self)),
            final(self).same_settings(old(self)),
            r.is_err() ==> final(self)@ == old(self)@ && final(outputs)@ == old(outputs)@,
            r.is_ok() ==> final(self).line@.cursor == cursor_after(
                old(self).line@.cursor,
                old(self).line@.len(),
                final(outputs)@[0]@.len(),
            ),
            r.is_ok() && S::obeys_sample_spec() ==> renders(
                old(self).stepper(rows(inputs), sample_rate),
                old(self)@,
                final(self)@,
                final(outputs)@[0]@,
            ),
    {
        let n: usize = match check_block(inputs, outputs, 1, 1, 1, 1) {
            Ok(n) => n,
            Err(e) => {
                return Err(e);
            },
        };
        let ghost st_node = *self;
        let ghost f = st_node.stepper(rows(inputs), sample_rate);
        let ghost st0 = self@;
        let mut i: usize = 0;
        while i < n
            invariant
                i <= n,
                inputs@.len() >= 1,
                outputs@.len() >= 1,
                outputs@[0]@.len() == n,
                forall|p: int| 0 <= p < 1 ==> (#[trigger] inputs@[p])@.len() == n,
                same_lens(outputs@, old(outputs)@),
                same_from(outputs@, old(outputs)@, 1),
                self.same_size(old(self)),
                self.line@.cursor == cursor_after(
                    old(self).line@.cursor,
                    old(self).line@.len(),
                    i as nat,
                ),
                self.same_settings(old(self)),
                self.same_settings(&st_node),
                f == st_node.stepper(rows(inputs), sample_rate),
                S::obeys_sample_spec() ==> self@ == state_after(f, st0, i as nat),
                S::obeys_sample_spec() ==> forall|j: int|
                    0 <= j < i ==> outputs@[0]@[j] == #[trigger] output_at(f, st0, j),
            decreases n - i,
        {
            let x = read_at(inputs, 0, i);
            let y = self.tick(x);
            outputs[0][i] = y;
            i += 1;
        }
        Ok(())
    }

    /// Puts the node back to what `new` gave it; its settings and the lengths of
    /// its lines stay. Nothing is allocated.
    pub fn reset(&mut self)
        ensures
            final(self).same_size(old(self)),
            final(self).same_settings(old(self)),
            S::obeys_sample_spec() ==>
                final(self)@ == (ConvolutionReverbMemory { line: old(self)@.line.cleared(S::zero()) }),
    {
        self.line.clear(S::zero());
    }

    /// A reset right after `new` changes nothing.
    pub proof fn lemma_reset_after_new(impulse_response: Vec<S>, mix: S)
        ensures
            (ConvolutionReverbMemory { line: Self::fresh(impulse_response, mix).line.cleared(S::zero()) }) == Self::fresh(
                impulse_response,
                mix,
            ),
    {
        lemma_clear_after_new(impulse_response.len() as nat, S::zero());
    }

    /// The number of inputs that a call requires.
    pub fn num_inputs(&self) -> (r: usize)
        ensures
            r == 1,
    {
        1
    }

    /// The number of outputs that a call writes.
    pub fn num_outputs(&self) -> (r: usize)
        ensures
            r == 1,
    {
        1
    }
}

} // verus!
