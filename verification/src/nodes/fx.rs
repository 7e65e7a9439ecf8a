//! Time-domain effects on delay lines, and the reverb by block convolution in
//! the frequency domain.

use crate::block::{
    audio_ports, check_block, cols, make_audio_ports, output_at, port_or, read_at, read_or, renders,
    rows, same_from, same_lens, shape_of, shape_verdict, state_after, Port, ShapeError,
};
use crate::delay_line::{cursor_after, lemma_clear_after_new, DelayLine, DelayView};
use crate::helpers::{blend, stable_feedback};
use crate::sample::Sample;
use crate::spectrum::{
    forward_of, frame_fits, frame_need, frame_size, inverse_of, is_frame_size, run_forward,
    run_inverse, Complex, Planner, Transform,
};
use vstd::prelude::*;

verus! {

/// The sample `delay_samples` behind the cursor of a line, where the delay has
/// a fractional part: between the sample at the whole delay and the one before
/// it, in proportion to the fractional part.
pub open spec fn fractional_tap_spec<S: Sample>(line: DelayView<S>, delay_samples: S) -> S {
    let idx1 = line.tap_index(delay_samples.to_usize() as nat);
    let idx2 = line.before(idx1);
    let frac = delay_samples.fract();
    line.at(idx1).mul(S::one().sub(frac)).add(line.at(idx2).mul(frac))
}

/// Computes `fractional_tap_spec`.
pub fn fractional_tap<S: Sample>(line: &DelayLine<S>, delay_samples: S) -> (r: S)
    ensures
        S::obeys_sample_spec() ==> r == fractional_tap_spec(line@, delay_samples),
{
    let idx1: usize = line.tap_index(delay_samples.to_usize());
    let idx2: usize = line.before(idx1);
    let frac = delay_samples.fract();
    line.at(idx1).mul(S::one().sub(frac)).add(line.at(idx2).mul(frac))
}

/// A sine wave lifted into `[0, 1]`, at a phase in turns.
pub open spec fn unipolar_sine_spec<S: Sample>(phase: S) -> S {
    phase.mul(S::pi().mul(S::ratio(2, 1))).sin().mul(S::ratio(5, 10)).add(S::ratio(5, 10))
}

/// Computes `unipolar_sine_spec`.
#[verifier::when_used_as_spec(unipolar_sine_spec)]
pub fn unipolar_sine<S: Sample>(phase: S) -> (r: S)
    ensures
        S::obeys_sample_spec() ==> r == unipolar_sine_spec::<S>(phase),
{
    phase.mul(S::pi().mul(S::ratio(2, 1))).sin().mul(S::ratio(5, 10)).add(S::ratio(5, 10))
}

/// One more than a count, where that fits.
pub open spec fn padded_len_spec(len: usize) -> usize {
    if len == usize::MAX {
        len
    } else {
        (len + 1) as usize
    }
}

/// Computes `padded_len_spec`.
#[verifier::when_used_as_spec(padded_len_spec)]
pub fn padded_len(len: usize) -> (r: usize)
    ensures
        r == padded_len_spec(len),
{
    if len == usize::MAX {
        len
    } else {
        (len + 1) as usize
    }
}

/// State of a delay: its delay line.
#[derive(Debug)]
pub struct DelayState<S> {
    pub line: DelayLine<S>,
}

impl<S> View for DelayState<S> {
    type V = DelayView<S>;

    open spec fn view(&self) -> DelayView<S> {
        self.line@
    }
}

impl<S> DelayState<S> {
    /// Whether two states hold as many samples.
    pub open spec fn same_size(&self, other: &DelayState<S>) -> bool {
        self.line@.len() == other.line@.len()
    }
}

/// Delay with feedback. Input 1 is added to the feedback and input 2 to the
/// mix. The feedback is held in `[-0.99, 0.99]`.
#[derive(Debug, Clone, Copy)]
pub struct Delay<S> {
    pub delay_ms: S,
    pub feedback: S,
    pub mix: S,
}

impl<S: Sample> Delay<S> {
    /// One sample: `x + d f mix + x (1 - mix)` for the sample `d` from the line,
    /// into which `x + d f` goes.
    pub open spec fn tick_spec(
        &self,
        st: DelayView<S>,
        x: S,
        feedback_mod: S,
        mix_mod: S,
    ) -> (DelayView<S>, S) {
        let feedback = stable_feedback(self.feedback.add(feedback_mod));
        let mix = self.mix.add(mix_mod);
        let delayed = st.head();
        let y = x.add(delayed.mul(feedback).mul(mix)).add(x.mul(S::one().sub(mix)));
        (st.push(x.add(delayed.mul(feedback))), y)
    }

    /// Performs `tick_spec` on the state in place and returns the sample.
    pub fn tick(&self, st: &mut DelayState<S>, x: S, feedback_mod: S, mix_mod: S) -> (y: S)
        ensures
            final(st).same_size(old(st)),
            final(st).line@.cursor == old(st).line@.step().cursor,
            S::obeys_sample_spec() ==> (final(st)@, y) == self
                .tick_spec(old(st)@, x, feedback_mod, mix_mod),
    {
        let feedback = stable_feedback(self.feedback.add(feedback_mod));
        let mix = self.mix.add(mix_mod);
        let delayed = st.line.read();
        let y = x.add(delayed.mul(feedback).mul(mix)).add(x.mul(S::one().sub(mix)));
        st.line.push(x.add(delayed.mul(feedback)));
        y
    }

    /// The node as a recursion over the samples of a block: the state before
    /// sample `i` to the state after it and the sample put out.
    pub open spec fn stepper(
        &self,
        inputs: Seq<Seq<S>>,
        sample_rate: S,
    ) -> spec_fn(DelayView<S>, int) -> (DelayView<S>, S) {
        |st: DelayView<S>, i: int| self
            .tick_spec(
                st,
                inputs[0][i],
                port_or(inputs, 1, i, S::zero()),
                port_or(inputs, 2, i, S::zero()),
            )
    }

    /// The inputs that the node declares.
    pub fn input_ports(&self) -> (r: Vec<Port>)
        ensures
            r@ == audio_ports(3),
    {
        make_audio_ports(3)
    }

    /// The outputs that the node declares.
    pub fn output_ports(&self) -> (r: Vec<Port>)
        ensures
            r@ == audio_ports(1),
    {
        make_audio_ports(1)
    }

    /// The number of inputs that must be connected.
    pub fn required_inputs(&self) -> (r: usize)
        ensures
            r == 1,
    {
        1
    }

    /// The length of the delay line in samples: the delay time at the sample rate,
    /// rounded down.
    pub open spec fn line_len_spec(&self, sample_rate: S) -> usize {
        self.delay_ms.mul(sample_rate).div(S::ratio(1000, 1)).to_usize()
    }

    /// Computes `line_len_spec`.
    #[verifier::when_used_as_spec(line_len_spec)]
    pub fn line_len(&self, sample_rate: S) -> (r: usize)
        ensures
            S::obeys_sample_spec() ==> r == self.line_len_spec(sample_rate),
    {
        self.delay_ms.mul(sample_rate).div(S::ratio(1000, 1)).to_usize()
    }

    /// The state before the first sample: a line of zeros.
    pub open spec fn fresh(&self, sample_rate: S) -> DelayView<S> {
        DelayView::filled(self.line_len(sample_rate) as nat, S::zero())
    }

    /// Makes the state for one instance of the node. This is where its line is
    /// allocated.
    pub fn init_state(&self, sample_rate: S, _block_size: usize) -> (st: DelayState<S>)
        ensures
            S::obeys_sample_spec() ==> st@ == self.fresh(sample_rate),
    {
        DelayState { line: DelayLine::new(self.line_len(sample_rate), S::zero()) }
    }

    /// Puts the state back to a line of zeros of the same length, which is what
    /// `init_state` returned for it.
    pub fn reset(&self, state: &mut DelayState<S>)
        ensures
            final(state).same_size(old(state)),
            S::obeys_sample_spec() ==> final(state)@ == old(state)@.cleared(S::zero()),
    {
        state.line.clear(S::zero());
    }

    /// A reset right after `init_state` changes nothing.
    pub proof fn lemma_reset_after_init(&self, sample_rate: S)
        ensures
            self.fresh(sample_rate).cleared(S::zero()) == self.fresh(sample_rate),
    {
        lemma_clear_after_new(self.line_len(sample_rate) as nat, S::zero());
    }

    /// Processes one block: runs the recursion over the samples of the block and
    /// writes output 0. A call whose slices do not fit is refused and changes
    /// nothing. Nothing is allocated.
    pub fn process_block(
        &self,
        state: &mut DelayState<S>,
        inputs: &[&[S]],
        outputs: &mut [Vec<S>],
        sample_rate: S,
    ) -> (r: Result<(), ShapeError>)
        ensures
            r == shape_verdict(rows(inputs), cols(old(outputs)@), 1, 1, 3, 1),
            same_lens(final(outputs)@, old(outputs)@),
            same_from(final(outputs)@, old(outputs)@, 1),
            final(state).same_size(old(state)),
            r.is_err() ==> final(state)@ == old(state)@ && final(outputs)@ == old(outputs)@,
            r.is_ok() ==> final(state).line@.cursor == cursor_after(
                old(state).line@.cursor,
                old(state).line@.len(),
                final(outputs)@[0]@.len(),
            ),
            r.is_ok() && S::obeys_sample_spec() ==> renders(
                self.stepper(rows(inputs), sample_rate),
                old(state)@,
                final(state)@,
                final(outputs)@[0]@,
            ),
    {
        let n: usize = match check_block(inputs, outputs, 1, 1, 3, 1) {
            Ok(n) => n,
            Err(e) => {
                return Err(e);
            },
        };
        let ghost f = self.stepper(rows(inputs), sample_rate);
        let ghost st0 = state@;
        let zero = S::zero();
        let mut i: usize = 0;
        while i < n
            invariant
                i <= n,
                inputs@.len() >= 1,
                outputs@.len() >= 1,
                outputs@[0]@.len() == n,
                forall|p: int| 0 <= p < 1 ==> (#[trigger] inputs@[p])@.len() == n,
                forall|p: int|
                    1 <= p < 3 && p < inputs@.len() ==> (#[trigger] inputs@[p])@.len() == 0
                        || inputs@[p]@.len() == n,
                same_lens(outputs@, old(outputs)@),
                same_from(outputs@, old(outputs)@, 1),
                state.same_size(old(state)),
                state.line@.cursor == cursor_after(
                    old(state).line@.cursor,
                    old(state).line@.len(),
                    i as nat,
                ),
                f == self.stepper(rows(inputs), sample_rate),
                S::obeys_sample_spec() ==> zero == S::zero(),
                S::obeys_sample_spec() ==> state@ == state_after(f, st0, i as nat),
                S::obeys_sample_spec() ==> forall|j: int|
                    0 <= j < i ==> outputs@[0]@[j] == #[trigger] output_at(f, st0, j),
            decreases n - i,
        {
            let x = read_at(inputs, 0, i);
            let feedback_mod = read_or(inputs, 1, i, zero);
            let mix_mod = read_or(inputs, 2, i, zero);
            let y = self.tick(state, x, feedback_mod, mix_mod);
            outputs[0][i] = y;
            i += 1;
        }
        Ok(())
    }
}

/// What a modulated delay holds: its line and the phase of its oscillator.
pub struct ModDelayView<S> {
    pub line: DelayView<S>,
    pub lfo_phase: S,
}

/// State of a chorus.
#[derive(Debug)]
pub struct ChorusState<S> {
    pub line: DelayLine<S>,
    /// The phase of the sweep, in turns.
    pub lfo_phase: S,
}

impl<S> View for ChorusState<S> {
    type V = ModDelayView<S>;

    open spec fn view(&self) -> ModDelayView<S> {
        ModDelayView { line: self.line@, lfo_phase: self.lfo_phase }
    }
}

impl<S> ChorusState<S> {
    /// Whether two states hold as many samples.
    pub open spec fn same_size(&self, other: &ChorusState<S>) -> bool {
        self.line@.len() == other.line@.len()
    }
}

/// Chorus: a delay whose length an oscillator sweeps, mixed with the input.
/// Input 1 is added to the rate and input 2 to the mix.
#[derive(Debug, Clone, Copy)]
pub struct Chorus<S> {
    pub delay_ms: S,
    pub depth_ms: S,
    pub rate: S,
    pub mix: S,
}

impl<S: Sample> Chorus<S> {
    /// The fixed part of the delay in whole samples and the depth of the sweep in
    /// samples, at a sample rate; they are the same for every sample of a block.
    pub open spec fn prepare_spec(&self, sample_rate: S) -> (usize, S) {
        (
            self.delay_ms.mul(sample_rate).div(S::ratio(1000, 1)).to_usize(),
            self.depth_ms.mul(sample_rate).div(S::ratio(1000, 1)),
        )
    }

    /// Computes `prepare_spec`.
    #[verifier::when_used_as_spec(prepare_spec)]
    pub fn prepare(&self, sample_rate: S) -> (r: (usize, S))
        ensures
            S::obeys_sample_spec() ==> r == self.prepare_spec(sample_rate),
    {
        (
            self.delay_ms.mul(sample_rate).div(S::ratio(1000, 1)).to_usize(),
            self.depth_ms.mul(sample_rate).div(S::ratio(1000, 1)),
        )
    }

    /// One sample: the sweep moves on, the line is read at the swept delay and
    /// mixed with the input, and the input goes into the line.
    pub open spec fn tick_spec(
        &self,
        st: ModDelayView<S>,
        x: S,
        rate_mod: S,
        mix_mod: S,
        sweep: (usize, S),
        sample_rate: S,
    ) -> (ModDelayView<S>, S) {
        let rate = self.rate.add(rate_mod);
        let mix = self.mix.add(mix_mod);
        let lfo_phase = st.lfo_phase.add(rate.div(sample_rate)).fract();
        let delay_samples = S::from_usize(sweep.0).add(unipolar_sine(lfo_phase).mul(sweep.1));
        let delayed = fractional_tap_spec(st.line, delay_samples);
        (ModDelayView { line: st.line.push(x), lfo_phase }, blend(x, delayed, mix))
    }

    /// Performs `tick_spec` on the state in place and returns the sample.
    pub fn tick(
        &self,
        st: &mut ChorusState<S>,
        x: S,
        rate_mod: S,
        mix_mod: S,
        sweep: (usize, S),
        sample_rate: S,
    ) -> (y: S)
        ensures
            final(st).same_size(old(st)),
            final(st).line@.cursor == old(st).line@.step().cursor,
            S::obeys_sample_spec() ==> (final(st)@, y) == self
                .tick_spec(old(st)@, x, rate_mod, mix_mod, sweep, sample_rate),
    {
        let rate = self.rate.add(rate_mod);
        let mix = self.mix.add(mix_mod);
        let lfo_phase = st.lfo_phase.add(rate.div(sample_rate)).fract();
        let delay_samples = S::from_usize(sweep.0).add(unipolar_sine(lfo_phase).mul(sweep.1));
        let delayed = fractional_tap(&st.line, delay_samples);
        st.lfo_phase = lfo_phase;
        st.line.push(x);
        blend(x, delayed, mix)
    }

    /// The node as a recursion over the samples of a block: the state before
    /// sample `i` to the state after it and the sample put out.
    pub open spec fn stepper(
        &self,
        inputs: Seq<Seq<S>>,
        sample_rate: S,
    ) -> spec_fn(ModDelayView<S>, int) -> (ModDelayView<S>, S) {
        |st: ModDelayView<S>, i: int| self
            .tick_spec(
                st,
                inputs[0][i],
                port_or(inputs, 1, i, S::zero()),
                port_or(inputs, 2, i, S::zero()),
                self.prepare(sample_rate),
                sample_rate,
            )
    }

    /// The inputs that the node declares.
    pub fn input_ports(&self) -> (r: Vec<Port>)
        ensures
            r@ == audio_ports(3),
    {
        make_audio_ports(3)
    }

    /// The outputs that the node declares.
    pub fn output_ports(&self) -> (r: Vec<Port>)
        ensures
            r@ == audio_ports(1),
    {
        make_audio_ports(1)
    }

    /// The number of inputs that must be connected.
    pub fn required_inputs(&self) -> (r: usize)
        ensures
            r == 1,
    {
        1
    }

    /// The length of the delay line in samples: one more than the longest delay at
    /// the sample rate, rounded down.
    pub open spec fn line_len_spec(&self, sample_rate: S) -> usize {
        padded_len(
            self.delay_ms.add(self.depth_ms).mul(sample_rate).div(S::ratio(1000, 1)).to_usize(),
        )
    }

    /// Computes `line_len_spec`.
    #[verifier::when_used_as_spec(line_len_spec)]
    pub fn line_len(&self, sample_rate: S) -> (r: usize)
        ensures
            S::obeys_sample_spec() ==> r == self.line_len_spec(sample_rate),
    {
        padded_len(
            self.delay_ms.add(self.depth_ms).mul(sample_rate).div(S::ratio(1000, 1)).to_usize(),
        )
    }

    /// The state before the first sample: a line of zeros.
    pub open spec fn fresh(&self, sample_rate: S) -> ModDelayView<S> {
        ModDelayView {
            line: DelayView::filled(self.line_len(sample_rate) as nat, S::zero()),
            lfo_phase: S::zero(),
        }
    }

    /// Makes the state for one instance of the node. This is where its line is
    /// allocated.
    pub fn init_state(&self, sample_rate: S, _block_size: usize) -> (st: ChorusState<S>)
        ensures
            S::obeys_sample_spec() ==> st@ == self.fresh(sample_rate),
    {
        ChorusState {
            line: DelayLine::new(self.line_len(sample_rate), S::zero()),
            lfo_phase: S::zero(),
        }
    }

    /// Puts the state back to a line of zeros of the same length, which is what
    /// `init_state` returned for it.
    pub fn reset(&self, state: &mut ChorusState<S>)
        ensures
            final(state).same_size(old(state)),
            S::obeys_sample_spec() ==>
                final(state)@ == (ModDelayView { line: old(state)@.line.cleared(S::zero()), lfo_phase: S::zero() }),
    {
        state.line.clear(S::zero());
        state.lfo_phase = S::zero();
    }

    /// A reset right after `init_state` changes nothing.
    pub proof fn lemma_reset_after_init(&self, sample_rate: S)
        ensures
            (ModDelayView { line: self.fresh(sample_rate).line.cleared(S::zero()), lfo_phase: S::zero() }) == self
                .fresh(sample_rate),
    {
        lemma_clear_after_new(self.line_len(sample_rate) as nat, S::zero());
    }

    /// Processes one block: runs the recursion over the samples of the block and
    /// writes output 0. A call whose slices do not fit is refused and changes
    /// nothing. Nothing is allocated.
    pub fn process_block(
        &self,
        state: &mut ChorusState<S>,
        inputs: &[&[S]],
        outputs: &mut [Vec<S>],
        sample_rate: S,
    ) -> (r: Result<(), ShapeError>)
        ensures
            r == shape_verdict(rows(inputs), cols(old(outputs)@), 1, 1, 3, 1),
            same_lens(final(outputs)@, old(outputs)@),
            same_from(final(outputs)@, old(outputs)@, 1),
            final(state).same_size(old(state)),
            r.is_err() ==> final(state)@ == old(state)@ && final(outputs)@ == old(outputs)@,
            r.is_ok() ==> final(state).line@.cursor == cursor_after(
                old(state).line@.cursor,
                old(state).line@.len(),
                final(outputs)@[0]@.len(),
            ),
            r.is_ok() && S::obeys_sample_spec() ==> renders(
                self.stepper(rows(inputs), sample_rate),
                old(state)@,
                final(state)@,
                final(outputs)@[0]@,
            ),
    {
        let n: usize = match check_block(inputs, outputs, 1, 1, 3, 1) {
            Ok(n) => n,
            Err(e) => {
                return Err(e);
            },
        };
        let ghost f = self.stepper(rows(inputs), sample_rate);
        let ghost st0 = state@;
        let prep = self.prepare(sample_rate);
        let zero = S::zero();
        let mut i: usize = 0;
        while i < n
            invariant
                i <= n,
                inputs@.len() >= 1,
                outputs@.len() >= 1,
                outputs@[0]@.len() == n,
                forall|p: int| 0 <= p < 1 ==> (#[trigger] inputs@[p])@.len() == n,
                forall|p: int|
                    1 <= p < 3 && p < inputs@.len() ==> (#[trigger] inputs@[p])@.len() == 0
                        || inputs@[p]@.len() == n,
                same_lens(outputs@, old(outputs)@),
                same_from(outputs@, old(outputs)@, 1),
                state.same_size(old(state)),
                state.line@.cursor == cursor_after(
                    old(state).line@.cursor,
                    old(state).line@.len(),
                    i as nat,
                ),
                f == self.stepper(rows(inputs), sample_rate),
                S::obeys_sample_spec() ==> prep == self.prepare(sample_rate),
                S::obeys_sample_spec() ==> zero == S::zero(),
                S::obeys_sample_spec() ==> state@ == state_after(f, st0, i as nat),
                S::obeys_sample_spec() ==> forall|j: int|
                    0 <= j < i ==> outputs@[0]@[j] == #[trigger] output_at(f, st0, j),
            decreases n - i,
        {
            let x = read_at(inputs, 0, i);
            let rate_mod = read_or(inputs, 1, i, zero);
            let mix_mod = read_or(inputs, 2, i, zero);
            let y = self.tick(state, x, rate_mod, mix_mod, prep, sample_rate);
            outputs[0][i] = y;
            i += 1;
        }
        Ok(())
    }
}

/// State of a flanger.
#[derive(Debug)]
pub struct FlangerState<S> {
    pub line: DelayLine<S>,
    /// The phase of the sweep, in turns.
    pub lfo_phase: S,
}

impl<S> View for FlangerState<S> {
    type V = ModDelayView<S>;

    open spec fn view(&self) -> ModDelayView<S> {
        ModDelayView { line: self.line@, lfo_phase: self.lfo_phase }
    }
}

impl<S> FlangerState<S> {
    /// Whether two states hold as many samples.
    pub open spec fn same_size(&self, other: &FlangerState<S>) -> bool {
        self.line@.len() == other.line@.len()
    }
}

/// Flanger: a short swept delay with feedback, added to the input. Input 1 is
/// added to the rate, input 2 to the feedback and input 3 to the mix. The
/// feedback is held in `[-0.99, 0.99]`.
#[derive(Debug, Clone, Copy)]
pub struct Flanger<S> {
    pub delay_ms: S,
    pub depth_ms: S,
    pub rate: S,
    pub feedback: S,
    pub mix: S,
}

impl<S: Sample> Flanger<S> {
    /// The fixed part of the delay in whole samples and the depth of the sweep in
    /// samples, at a sample rate; they are the same for every sample of a block.
    pub open spec fn prepare_spec(&self, sample_rate: S) -> (usize, S) {
        (
            self.delay_ms.mul(sample_rate).div(S::ratio(1000, 1)).to_usize(),
            self.depth_ms.mul(sample_rate).div(S::ratio(1000, 1)),
        )
    }

    /// Computes `prepare_spec`.
    #[verifier::when_used_as_spec(prepare_spec)]
    pub fn prepare(&self, sample_rate: S) -> (r: (usize, S))
        ensures
            S::obeys_sample_spec() ==> r == self.prepare_spec(sample_rate),
    {
        (
            self.delay_ms.mul(sample_rate).div(S::ratio(1000, 1)).to_usize(),
            self.depth_ms.mul(sample_rate).div(S::ratio(1000, 1)),
        )
    }

    /// One sample: the sweep moves on, the line is read at the swept delay; the
    /// input plus the read sample times the mix is put out, and the input plus the
    /// read sample times the feedback goes into the line.
    pub open spec fn tick_spec(
        &self,
        st: ModDelayView<S>,
        x: S,
        rate_mod: S,
        feedback_mod: S,
        mix_mod: S,
        sweep: (usize, S),
        sample_rate: S,
    ) -> (ModDelayView<S>, S) {
        let rate = self.rate.add(rate_mod);
        let feedback = stable_feedback(self.feedback.add(feedback_mod));
        let mix = self.mix.add(mix_mod);
        let lfo_phase = st.lfo_phase.add(rate.div(sample_rate)).fract();
        let delay_samples = S::from_usize(sweep.0).add(unipolar_sine(lfo_phase).mul(sweep.1));
        let delayed = fractional_tap_spec(st.line, delay_samples);
        (
            ModDelayView { line: st.line.push(x.add(delayed.mul(feedback))), lfo_phase },
            x.add(delayed.mul(mix)),
        )
    }

    /// Performs `tick_spec` on the state in place and returns the sample.
    pub fn tick(
        &self,
        st: &mut FlangerState<S>,
        x: S,
        rate_mod: S,
        feedback_mod: S,
        mix_mod: S,
        sweep: (usize, S),
        sample_rate: S,
    ) -> (y: S)
        ensures
            final(st).same_size(old(st)),
            final(st).line@.cursor == old(st).line@.step().cursor,
            S::obeys_sample_spec() ==> (final(st)@, y) == self
                .tick_spec(old(st)@, x, rate_mod, feedback_mod, mix_mod, sweep, sample_rate),
    {
        let rate = self.rate.add(rate_mod);
        let feedback = stable_feedback(self.feedback.add(feedback_mod));
        let mix = self.mix.add(mix_mod);
        let lfo_phase = st.lfo_phase.add(rate.div(sample_rate)).fract();
        let delay_samples = S::from_usize(sweep.0).add(unipolar_sine(lfo_phase).mul(sweep.1));
        let delayed = fractional_tap(&st.line, delay_samples);
        st.lfo_phase = lfo_phase;
        st.line.push(x.add(delayed.mul(feedback)));
        x.add(delayed.mul(mix))
    }

    /// The node as a recursion over the samples of a block: the state before
    /// sample `i` to the state after it and the sample put out.
    pub open spec fn stepper(
        &self,
        inputs: Seq<Seq<S>>,
        sample_rate: S,
    ) -> spec_fn(ModDelayView<S>, int) -> (ModDelayView<S>, S) {
        |st: ModDelayView<S>, i: int| self
            .tick_spec(
                st,
                inputs[0][i],
                port_or(inputs, 1, i, S::zero()),
                port_or(inputs, 2, i, S::zero()),
                port_or(inputs, 3, i, S::zero()),
                self.prepare(sample_rate),
                sample_rate,
            )
    }

    /// The inputs that the node declares.
    pub fn input_ports(&self) -> (r: Vec<Port>)
        ensures
            r@ == audio_ports(4),
    {
        make_audio_ports(4)
    }

    /// The outputs that the node declares.
    pub fn output_ports(&self) -> (r: Vec<Port>)
        ensures
            r@ == audio_ports(1),
    {
        make_audio_ports(1)
    }

    /// The number of inputs that must be connected.
    pub fn required_inputs(&self) -> (r: usize)
        ensures
            r == 1,
    {
        1
    }

    /// The length of the delay line in samples: one more than the longest delay at
    /// the sample rate, rounded down.
    pub open spec fn line_len_spec(&self, sample_rate: S) -> usize {
        padded_len(
            self.delay_ms.add(self.depth_ms).mul(sample_rate).div(S::ratio(1000, 1)).to_usize(),
        )
    }

    /// Computes `line_len_spec`.
    #[verifier::when_used_as_spec(line_len_spec)]
    pub fn line_len(&self, sample_rate: S) -> (r: usize)
        ensures
            S::obeys_sample_spec() ==> r == self.line_len_spec(sample_rate),
    {
        padded_len(
            self.delay_ms.add(self.depth_ms).mul(sample_rate).div(S::ratio(1000, 1)).to_usize(),
        )
    }

    /// The state before the first sample: a line of zeros.
    pub open spec fn fresh(&self, sample_rate: S) -> ModDelayView<S> {
        ModDelayView {
            line: DelayView::filled(self.line_len(sample_rate) as nat, S::zero()),
            lfo_phase: S::zero(),
        }
    }

    /// Makes the state for one instance of the node. This is where its line is
    /// allocated.
    pub fn init_state(&self, sample_rate: S, _block_size: usize) -> (st: FlangerState<S>)
        ensures
            S::obeys_sample_spec() ==> st@ == self.fresh(sample_rate),
    {
        FlangerState {
            line: DelayLine::new(self.line_len(sample_rate), S::zero()),
            lfo_phase: S::zero(),
        }
    }

    /// Puts the state back to a line of zeros of the same length, which is what
    /// `init_state` returned for it.
    pub fn reset(&self, state: &mut FlangerState<S>)
        ensures
            final(state).same_size(old(state)),
            S::obeys_sample_spec() ==>
                final(state)@ == (ModDelayView { line: old(state)@.line.cleared(S::zero()), lfo_phase: S::zero() }),
    {
        state.line.clear(S::zero());
        state.lfo_phase = S::zero();
    }

    /// A reset right after `init_state` changes nothing.
    pub proof fn lemma_reset_after_init(&self, sample_rate: S)
        ensures
            (ModDelayView { line: self.fresh(sample_rate).line.cleared(S::zero()), lfo_phase: S::zero() }) == self
                .fresh(sample_rate),
    {
        lemma_clear_after_new(self.line_len(sample_rate) as nat, S::zero());
    }

    /// Processes one block: runs the recursion over the samples of the block and
    /// writes output 0. A call whose slices do not fit is refused and changes
    /// nothing. Nothing is allocated.
    pub fn process_block(
        &self,
        state: &mut FlangerState<S>,
        inputs: &[&[S]],
        outputs: &mut [Vec<S>],
        sample_rate: S,
    ) -> (r: Result<(), ShapeError>)
        ensures
            r == shape_verdict(rows(inputs), cols(old(outputs)@), 1, 1, 4, 1),
            same_lens(final(outputs)@, old(outputs)@),
            same_from(final(outputs)@, old(outputs)@, 1),
            final(state).same_size(old(state)),
            r.is_err() ==> final(state)@ == old(state)@ && final(outputs)@ == old(outputs)@,
            r.is_ok() ==> final(state).line@.cursor == cursor_after(
                old(state).line@.cursor,
                old(state).line@.len(),
                final(outputs)@[0]@.len(),
            ),
            r.is_ok() && S::obeys_sample_spec() ==> renders(
                self.stepper(rows(inputs), sample_rate),
                old(state)@,
                final(state)@,
                final(outputs)@[0]@,
            ),
    {
        let n: usize = match check_block(inputs, outputs, 1, 1, 4, 1) {
            Ok(n) => n,
            Err(e) => {
                return Err(e);
            },
        };
        let ghost f = self.stepper(rows(inputs), sample_rate);
        let ghost st0 = state@;
        let prep = self.prepare(sample_rate);
        let zero = S::zero();
        let mut i: usize = 0;
        while i < n
            invariant
                i <= n,
                inputs@.len() >= 1,
                outputs@.len() >= 1,
                outputs@[0]@.len() == n,
                forall|p: int| 0 <= p < 1 ==> (#[trigger] inputs@[p])@.len() == n,
                forall|p: int|
                    1 <= p < 4 && p < inputs@.len() ==> (#[trigger] inputs@[p])@.len() == 0
                        || inputs@[p]@.len() == n,
                same_lens(outputs@, old(outputs)@),
                same_from(outputs@, old(outputs)@, 1),
                state.same_size(old(state)),
                state.line@.cursor == cursor_after(
                    old(state).line@.cursor,
                    old(state).line@.len(),
                    i as nat,
                ),
                f == self.stepper(rows(inputs), sample_rate),
                S::obeys_sample_spec() ==> prep == self.prepare(sample_rate),
                S::obeys_sample_spec() ==> zero == S::zero(),
                S::obeys_sample_spec() ==> state@ == state_after(f, st0, i as nat),
                S::obeys_sample_spec() ==> forall|j: int|
                    0 <= j < i ==> outputs@[0]@[j] == #[trigger] output_at(f, st0, j),
            decreases n - i,
        {
            let x = read_at(inputs, 0, i);
            let rate_mod = read_or(inputs, 1, i, zero);
            let feedback_mod = read_or(inputs, 2, i, zero);
            let mix_mod = read_or(inputs, 3, i, zero);
            let y = self.tick(state, x, rate_mod, feedback_mod, mix_mod, prep, sample_rate);
            outputs[0][i] = y;
            i += 1;
        }
        Ok(())
    }
}

/// State of a phaser: the phase of its sweep and the last input and output of
/// its all-pass stage.
#[derive(Debug, Clone, Copy)]
pub struct PhaserState<S> {
    pub lfo_phase: S,
    pub x1: S,
    pub y1: S,
}

/// Phaser: a one-pole all-pass stage whose corner sweeps from 300 Hz to 2300
/// Hz, with feedback, which is held in `[-0.99, 0.99]`. Input 1 is added to the
/// rate and input 2 to the mix.
#[derive(Debug, Clone, Copy)]
pub struct Phaser<S> {
    pub rate: S,
    pub depth: S,
    pub feedback: S,
    pub mix: S,
}

impl<S: Sample> Phaser<S> {
    /// One sample: the sweep moves on and sets the coefficient `a = (1 - c) / (1 +
    /// c)` with `c = tan(pi f / fs)`; the stage computes `a v + v[n-1] - a y[n-1]`
    /// of the input plus feedback `v`.
    pub open spec fn tick_spec(
        &self,
        st: PhaserState<S>,
        x: S,
        rate_mod: S,
        mix_mod: S,
        sample_rate: S,
    ) -> (PhaserState<S>, S) {
        let rate = self.rate.add(rate_mod);
        let mix = self.mix.add(mix_mod);
        let lfo_phase = st.lfo_phase.add(rate.div(sample_rate)).fract();
        let freq = S::ratio(300, 1).add(unipolar_sine(lfo_phase).mul(S::ratio(2000, 1)));
        let c = S::pi().mul(freq).div(sample_rate).tan();
        let a1 = S::one().sub(c).div(S::one().add(c));
        let b0 = a1;
        let b1 = S::one();
        let a0 = S::one();
        let fed = x.add(st.y1.mul(stable_feedback(self.feedback)));
        let y = b0.div(a0).mul(fed).add(b1.div(a0).mul(st.x1)).sub(a1.div(a0).mul(st.y1));
        (PhaserState { lfo_phase, x1: fed, y1: y }, blend(x, y, mix))
    }

    /// Computes `tick_spec`.
    #[verifier::when_used_as_spec(tick_spec)]
    pub fn tick(
        &self,
        st: PhaserState<S>,
        x: S,
        rate_mod: S,
        mix_mod: S,
        sample_rate: S,
    ) -> (r: (PhaserState<S>, S))
        ensures
            S::obeys_sample_spec() ==> r == self.tick_spec(st, x, rate_mod, mix_mod, sample_rate),
    {
        let rate = self.rate.add(rate_mod);
        let mix = self.mix.add(mix_mod);
        let lfo_phase = st.lfo_phase.add(rate.div(sample_rate)).fract();
        let freq = S::ratio(300, 1).add(unipolar_sine(lfo_phase).mul(S::ratio(2000, 1)));
        let c = S::pi().mul(freq).div(sample_rate).tan();
        let a1 = S::one().sub(c).div(S::one().add(c));
        let b0 = a1;
        let b1 = S::one();
        let a0 = S::one();
        let fed = x.add(st.y1.mul(stable_feedback(self.feedback)));
        let y = b0.div(a0).mul(fed).add(b1.div(a0).mul(st.x1)).sub(a1.div(a0).mul(st.y1));
        (PhaserState { lfo_phase, x1: fed, y1: y }, blend(x, y, mix))
    }

    /// The node as a recursion over the samples of a block: the state before
    /// sample `i` to the state after it and the sample put out.
    pub open spec fn stepper(
        &self,
        inputs: Seq<Seq<S>>,
        sample_rate: S,
    ) -> spec_fn(PhaserState<S>, int) -> (PhaserState<S>, S) {
        |st: PhaserState<S>, i: int| self
            .tick(
                st,
                inputs[0][i],
                port_or(inputs, 1, i, S::zero()),
                port_or(inputs, 2, i, S::zero()),
                sample_rate,
            )
    }

    /// The inputs that the node declares.
    pub fn input_ports(&self) -> (r: Vec<Port>)
        ensures
            r@ == audio_ports(3),
    {
        make_audio_ports(3)
    }

    /// The outputs that the node declares.
    pub fn output_ports(&self) -> (r: Vec<Port>)
        ensures
            r@ == audio_ports(1),
    {
        make_audio_ports(1)
    }

    /// The number of inputs that must be connected.
    pub fn required_inputs(&self) -> (r: usize)
        ensures
            r == 1,
    {
        1
    }

    /// The state before the first sample.
    pub open spec fn fresh() -> PhaserState<S> {
        PhaserState { lfo_phase: S::zero(), x1: S::zero(), y1: S::zero() }
    }

    /// Makes the state for one instance of the node.
    pub fn init_state(&self, _sample_rate: S, _block_size: usize) -> (st: PhaserState<S>)
        ensures
            S::obeys_sample_spec() ==> st == Self::fresh(),
    {
        PhaserState { lfo_phase: S::zero(), x1: S::zero(), y1: S::zero() }
    }

    /// Puts the state back to what `init_state` returns.
    pub fn reset(&self, state: &mut PhaserState<S>)
        ensures
            S::obeys_sample_spec() ==> *final(state) == Self::fresh(),
    {
        *state = PhaserState { lfo_phase: S::zero(), x1: S::zero(), y1: S::zero() };
    }

    /// Processes one block: runs the recursion over the samples of the block and
    /// writes output 0. A call whose slices do not fit is refused and changes
    /// nothing. Nothing is allocated.
    pub fn process_block(
        &self,
        state: &mut PhaserState<S>,
        inputs: &[&[S]],
        outputs: &mut [Vec<S>],
        sample_rate: S,
    ) -> (r: Result<(), ShapeError>)
        ensures
            r == shape_verdict(rows(inputs), cols(old(outputs)@), 1, 1, 3, 1),
            same_lens(final(outputs)@, old(outputs)@),
            same_from(final(outputs)@, old(outputs)@, 1),
            r.is_err() ==> *final(state) == *old(state) && final(outputs)@ == old(outputs)@,
            r.is_ok() && S::obeys_sample_spec() ==> renders(
                self.stepper(rows(inputs), sample_rate),
                *old(state),
                *final(state),
                final(outputs)@[0]@,
            ),
    {
        let n: usize = match check_block(inputs, outputs, 1, 1, 3, 1) {
            Ok(n) => n,
            Err(e) => {
                return Err(e);
            },
        };
        let ghost f = self.stepper(rows(inputs), sample_rate);
        let ghost st0 = *state;
        let zero = S::zero();
        let mut i: usize = 0;
        while i < n
            invariant
                i <= n,
                inputs@.len() >= 1,
                outputs@.len() >= 1,
                outputs@[0]@.len() == n,
                forall|p: int| 0 <= p < 1 ==> (#[trigger] inputs@[p])@.len() == n,
                forall|p: int|
                    1 <= p < 3 && p < inputs@.len() ==> (#[trigger] inputs@[p])@.len() == 0
                        || inputs@[p]@.len() == n,
                same_lens(outputs@, old(outputs)@),
                same_from(outputs@, old(outputs)@, 1),
                f == self.stepper(rows(inputs), sample_rate),
                S::obeys_sample_spec() ==> zero == S::zero(),
                S::obeys_sample_spec() ==> *state == state_after(f, st0, i as nat),
                S::obeys_sample_spec() ==> forall|j: int|
                    0 <= j < i ==> outputs@[0]@[j] == #[trigger] output_at(f, st0, j),
            decreases n - i,
        {
            let x = read_at(inputs, 0, i);
            let rate_mod = read_or(inputs, 1, i, zero);
            let mix_mod = read_or(inputs, 2, i, zero);
            let (next, y) = self.tick(*state, x, rate_mod, mix_mod, sample_rate);
            *state = next;
            outputs[0][i] = y;
            i += 1;
        }
        Ok(())
    }
}

/// What a comb-bank reverb holds: its four lines.
pub struct ReverbView<S> {
    pub comb1: DelayView<S>,
    pub comb2: DelayView<S>,
    pub comb3: DelayView<S>,
    pub comb4: DelayView<S>,
}

/// State of a comb-bank reverb.
#[derive(Debug)]
pub struct SimpleReverbState<S> {
    pub comb1: DelayLine<S>,
    pub comb2: DelayLine<S>,
    pub comb3: DelayLine<S>,
    pub comb4: DelayLine<S>,
}

impl<S> View for SimpleReverbState<S> {
    type V = ReverbView<S>;

    open spec fn view(&self) -> ReverbView<S> {
        ReverbView {
            comb1: self.comb1@,
            comb2: self.comb2@,
            comb3: self.comb3@,
            comb4: self.comb4@,
        }
    }
}

impl<S> SimpleReverbState<S> {
    /// Whether the lines of two states hold as many samples.
    pub open spec fn same_size(&self, other: &SimpleReverbState<S>) -> bool {
        &&& self.comb1@.len() == other.comb1@.len()
        &&& self.comb2@.len() == other.comb2@.len()
        &&& self.comb3@.len() == other.comb3@.len()
        &&& self.comb4@.len() == other.comb4@.len()
    }
}

/// Reverb of four comb filters in parallel, with one decay for all, held in
/// `[-0.99, 0.99]`, and a mix of dry and wet. Input 1 is added to the mix.
#[derive(Debug, Clone, Copy)]
pub struct SimpleReverb<S> {
    pub decay: S,
    pub mix: S,
}

impl<S: Sample> SimpleReverb<S> {
    /// The length in samples of comb `k` (from 0 to 3) at a sample rate: 29.7,
    /// 37.1, 41.1 and 43.7 milliseconds.
    pub open spec fn comb_len_spec(k: usize, sample_rate: S) -> usize {
        if k == 0 {
            S::ratio(297, 10000).mul(sample_rate).to_usize()
        } else if k == 1 {
            S::ratio(371, 10000).mul(sample_rate).to_usize()
        } else if k == 2 {
            S::ratio(411, 10000).mul(sample_rate).to_usize()
        } else {
            S::ratio(437, 10000).mul(sample_rate).to_usize()
        }
    }

    /// Computes `comb_len_spec`.
    #[verifier::when_used_as_spec(comb_len_spec)]
    pub fn comb_len(k: usize, sample_rate: S) -> (r: usize)
        ensures
            S::obeys_sample_spec() ==> r == Self::comb_len_spec(k, sample_rate),
    {
        if k == 0 {
            S::ratio(297, 10000).mul(sample_rate).to_usize()
        } else if k == 1 {
            S::ratio(371, 10000).mul(sample_rate).to_usize()
        } else if k == 2 {
            S::ratio(411, 10000).mul(sample_rate).to_usize()
        } else {
            S::ratio(437, 10000).mul(sample_rate).to_usize()
        }
    }

    /// One sample: the mean of the four samples from the lines is the wet signal;
    /// the input plus the wet signal times the decay goes into every line.
    pub open spec fn tick_spec(&self, st: ReverbView<S>, x: S, mix_mod: S) -> (ReverbView<S>, S) {
        let mix = self.mix.add(mix_mod);
        let rev = st.comb1.head().add(st.comb2.head()).add(st.comb3.head()).add(st.comb4.head())
            .mul(S::ratio(25, 100));
        let fb = x.add(rev.mul(stable_feedback(self.decay)));
        (
            ReverbView {
                comb1: st.comb1.push(fb),
                comb2: st.comb2.push(fb),
                comb3: st.comb3.push(fb),
                comb4: st.comb4.push(fb),
            },
            x.mul(S::one().sub(mix)).add(rev.mul(mix)),
        )
    }

    /// Performs `tick_spec` on the state in place and returns the sample.
    pub fn tick(&self, st: &mut SimpleReverbState<S>, x: S, mix_mod: S) -> (y: S)
        ensures
            final(st).same_size(old(st)),
            final(st).comb1@.cursor == old(st).comb1@.step().cursor,
            final(st).comb2@.cursor == old(st).comb2@.step().cursor,
            final(st).comb3@.cursor == old(st).comb3@.step().cursor,
            final(st).comb4@.cursor == old(st).comb4@.step().cursor,
            S::obeys_sample_spec() ==> (final(st)@, y) == self.tick_spec(old(st)@, x, mix_mod),
    {
        let mix = self.mix.add(mix_mod);
        let d1 = st.comb1.read();
        let d2 = st.comb2.read();
        let d3 = st.comb3.read();
        let d4 = st.comb4.read();
        let rev = d1.add(d2).add(d3).add(d4).mul(S::ratio(25, 100));
        let fb = x.add(rev.mul(stable_feedback(self.decay)));
        st.comb1.push(fb);
        st.comb2.push(fb);
        st.comb3.push(fb);
        st.comb4.push(fb);
        x.mul(S::one().sub(mix)).add(rev.mul(mix))
    }

    /// The node as a recursion over the samples of a block: the state before
    /// sample `i` to the state after it and the sample put out.
    pub open spec fn stepper(
        &self,
        inputs: Seq<Seq<S>>,
        sample_rate: S,
    ) -> spec_fn(ReverbView<S>, int) -> (ReverbView<S>, S) {
        |st: ReverbView<S>, i: int| self
            .tick_spec(st, inputs[0][i], port_or(inputs, 1, i, S::zero()))
    }

    /// The inputs that the node declares.
    pub fn input_ports(&self) -> (r: Vec<Port>)
        ensures
            r@ == audio_ports(2),
    {
        make_audio_ports(2)
    }

    /// The outputs that the node declares.
    pub fn output_ports(&self) -> (r: Vec<Port>)
        ensures
            r@ == audio_ports(1),
    {
        make_audio_ports(1)
    }

    /// The number of inputs that must be connected.
    pub fn required_inputs(&self) -> (r: usize)
        ensures
            r == 1,
    {
        1
    }

    /// The state before the first sample: four lines of zeros.
    pub open spec fn fresh(sample_rate: S) -> ReverbView<S> {
        ReverbView {
            comb1: DelayView::filled(Self::comb_len(0, sample_rate) as nat, S::zero()),
            comb2: DelayView::filled(Self::comb_len(1, sample_rate) as nat, S::zero()),
            comb3: DelayView::filled(Self::comb_len(2, sample_rate) as nat, S::zero()),
            comb4: DelayView::filled(Self::comb_len(3, sample_rate) as nat, S::zero()),
        }
    }

    pub fn init_state(&self, sample_rate: S, _block_size: usize) -> (st: SimpleReverbState<S>)
        ensures
            S::obeys_sample_spec() ==> st@ == Self::fresh(sample_rate),
    {
        SimpleReverbState {
            comb1: DelayLine::new(Self::comb_len(0, sample_rate), S::zero()),
            comb2: DelayLine::new(Self::comb_len(1, sample_rate), S::zero()),
            comb3: DelayLine::new(Self::comb_len(2, sample_rate), S::zero()),
            comb4: DelayLine::new(Self::comb_len(3, sample_rate), S::zero()),
        }
    }

    /// Puts the state back to lines of zeros of the same lengths, which is what
    /// `init_state` returned for it.
    pub fn reset(&self, state: &mut SimpleReverbState<S>)
        ensures
            final(state).same_size(old(state)),
            S::obeys_sample_spec() ==> final(state)@ == (ReverbView {
                comb1: old(state)@.comb1.cleared(S::zero()),
                comb2: old(state)@.comb2.cleared(S::zero()),
                comb3: old(state)@.comb3.cleared(S::zero()),
                comb4: old(state)@.comb4.cleared(S::zero()),
            }),
    {
        state.comb1.clear(S::zero());
        state.comb2.clear(S::zero());
        state.comb3.clear(S::zero());
        state.comb4.clear(S::zero());
    }

    /// A reset right after `init_state` changes nothing.
    pub proof fn lemma_reset_after_init(sample_rate: S)
        ensures
            (ReverbView {
                comb1: Self::fresh(sample_rate).comb1.cleared(S::zero()),
                comb2: Self::fresh(sample_rate).comb2.cleared(S::zero()),
                comb3: Self::fresh(sample_rate).comb3.cleared(S::zero()),
                comb4: Self::fresh(sample_rate).comb4.cleared(S::zero()),
            }) == Self::fresh(sample_rate),
    {
        lemma_clear_after_new(Self::comb_len(0, sample_rate) as nat, S::zero());
        lemma_clear_after_new(Self::comb_len(1, sample_rate) as nat, S::zero());
        lemma_clear_after_new(Self::comb_len(2, sample_rate) as nat, S::zero());
        lemma_clear_after_new(Self::comb_len(3, sample_rate) as nat, S::zero());
    }

    /// Processes one block: runs the recursion over the samples of the block and
    /// writes output 0. A call whose slices do not fit is refused and changes
    /// nothing. Nothing is allocated.
    pub fn process_block(
        &self,
        state: &mut SimpleReverbState<S>,
        inputs: &[&[S]],
        outputs: &mut [Vec<S>],
        sample_rate: S,
    ) -> (r: Result<(), ShapeError>)
        ensures
            r == shape_verdict(rows(inputs), cols(old(outputs)@), 1, 1, 2, 1),
            same_lens(final(outputs)@, old(outputs)@),
            same_from(final(outputs)@, old(outputs)@, 1),
            final(state).same_size(old(state)),
            r.is_err() ==> final(state)@ == old(state)@ && final(outputs)@ == old(outputs)@,
            r.is_ok() ==> final(state).comb1@.cursor == cursor_after(
                old(state).comb1@.cursor,
                old(state).comb1@.len(),
                final(outputs)@[0]@.len(),
            ),
            r.is_ok() ==> final(state).comb2@.cursor == cursor_after(
                old(state).comb2@.cursor,
                old(state).comb2@.len(),
                final(outputs)@[0]@.len(),
            ),
            r.is_ok() ==> final(state).comb3@.cursor == cursor_after(
                old(state).comb3@.cursor,
                old(state).comb3@.len(),
                final(outputs)@[0]@.len(),
            ),
            r.is_ok() ==> final(state).comb4@.cursor == cursor_after(
                old(state).comb4@.cursor,
                old(state).comb4@.len(),
                final(outputs)@[0]@.len(),
            ),
            r.is_ok() && S::obeys_sample_spec() ==> renders(
                self.stepper(rows(inputs), sample_rate),
                old(state)@,
                final(state)@,
                final(outputs)@[0]@,
            ),
    {
        let n: usize = match check_block(inputs, outputs, 1, 1, 2, 1) {
            Ok(n) => n,
            Err(e) => {
                return Err(e);
            },
        };
        let ghost f = self.stepper(rows(inputs), sample_rate);
        let ghost st0 = state@;
        let zero = S::zero();
        let mut i: usize = 0;
        while i < n
            invariant
                i <= n,
                inputs@.len() >= 1,
                outputs@.len() >= 1,
                outputs@[0]@.len() == n,
                forall|p: int| 0 <= p < 1 ==> (#[trigger] inputs@[p])@.len() == n,
                forall|p: int|
                    1 <= p < 2 && p < inputs@.len() ==> (#[trigger] inputs@[p])@.len() == 0
                        || inputs@[p]@.len() == n,
                same_lens(outputs@, old(outputs)@),
                same_from(outputs@, old(outputs)@, 1),
                state.same_size(old(state)),
                state.comb1@.cursor == cursor_after(
                    old(state).comb1@.cursor,
                    old(state).comb1@.len(),
                    i as nat,
                ),
                state.comb2@.cursor == cursor_after(
                    old(state).comb2@.cursor,
                    old(state).comb2@.len(),
                    i as nat,
                ),
                state.comb3@.cursor == cursor_after(
                    old(state).comb3@.cursor,
                    old(state).comb3@.len(),
                    i as nat,
                ),
                state.comb4@.cursor == cursor_after(
                    old(state).comb4@.cursor,
                    old(state).comb4@.len(),
                    i as nat,
                ),
                f == self.stepper(rows(inputs), sample_rate),
                S::obeys_sample_spec() ==> zero == S::zero(),
                S::obeys_sample_spec() ==> state@ == state_after(f, st0, i as nat),
                S::obeys_sample_spec() ==> forall|j: int|
                    0 <= j < i ==> outputs@[0]@[j] == #[trigger] output_at(f, st0, j),
            decreases n - i,
        {
            let x = read_at(inputs, 0, i);
            let mix_mod = read_or(inputs, 1, i, zero);
            let y = self.tick(state, x, mix_mod);
            outputs[0][i] = y;
            i += 1;
        }
        Ok(())
    }
}

/// State of a multi-tap delay: its delay line.
#[derive(Debug)]
pub struct MultitapDelayState<S> {
    pub line: DelayLine<S>,
}

impl<S> View for MultitapDelayState<S> {
    type V = DelayView<S>;

    open spec fn view(&self) -> DelayView<S> {
        self.line@
    }
}

impl<S> MultitapDelayState<S> {
    /// Whether two states hold as many samples.
    pub open spec fn same_size(&self, other: &MultitapDelayState<S>) -> bool {
        self.line@.len() == other.line@.len()
    }
}

/// Delay with several taps, each a delay in milliseconds and a gain, read from
/// one line. Input 1 is added to the feedback and input 2 to the mix. The
/// feedback is held in `[-0.99, 0.99]`.
#[derive(Debug, Clone)]
pub struct MultitapDelay<S> {
    pub taps: Vec<(S, S)>,
    pub feedback: S,
    pub mix: S,
}

impl<S: Sample> MultitapDelay<S> {
    /// The delay of a tap in whole samples at a sample rate.
    pub open spec fn tap_delay_spec(ms: S, sample_rate: S) -> usize {
        ms.mul(sample_rate).div(S::ratio(1000, 1)).to_usize()
    }

    /// Computes `tap_delay_spec`.
    #[verifier::when_used_as_spec(tap_delay_spec)]
    pub fn tap_delay(ms: S, sample_rate: S) -> (r: usize)
        ensures
            S::obeys_sample_spec() ==> r == Self::tap_delay_spec(ms, sample_rate),
    {
        ms.mul(sample_rate).div(S::ratio(1000, 1)).to_usize()
    }

    /// The longest delay among the first `k` taps, in samples.
    pub open spec fn longest_tap(taps: Seq<(S, S)>, sample_rate: S, k: nat) -> usize
        decreases k,
    {
        if k == 0 {
            0
        } else {
            let rest = Self::longest_tap(taps, sample_rate, (k - 1) as nat);
            let this = Self::tap_delay(taps[k - 1].0, sample_rate);
            if this > rest {
                this
            } else {
                rest
            }
        }
    }

    /// The length of the delay line: the longest tap, or one sample where
    /// there is no tap.
    pub open spec fn line_len_spec(&self, sample_rate: S) -> usize {
        if self.taps@.len() == 0 {
            1
        } else {
            Self::longest_tap(self.taps@, sample_rate, self.taps@.len())
        }
    }

    /// Computes `line_len_spec`.
    pub fn line_len(&self, sample_rate: S) -> (r: usize)
        ensures
            S::obeys_sample_spec() ==> r == self.line_len_spec(sample_rate),
    {
        let count: usize = self.taps.len();
        if count == 0 {
            return 1;
        }
        let mut longest: usize = 0;
        let mut k: usize = 0;
        while k < count
            invariant
                k <= count,
                count == self.taps@.len(),
                S::obeys_sample_spec() ==>
                    longest == Self::longest_tap(self.taps@, sample_rate, k as nat),
            decreases count - k,
        {
            let this: usize = Self::tap_delay(self.taps[k].0, sample_rate);
            if this > longest {
                longest = this;
            }
            k += 1;
        }
        longest
    }

    /// The sum over the first `k` taps of the sample each reads from the line
    /// times its gain, added up in order.
    pub open spec fn tap_sum(line: DelayView<S>, taps: Seq<(S, S)>, sample_rate: S, k: nat) -> S
        decreases k,
    {
        if k == 0 {
            S::zero()
        } else {
            let read = line.at(line.tap_index(Self::tap_delay(taps[k - 1].0, sample_rate) as nat));
            Self::tap_sum(line, taps, sample_rate, (k - 1) as nat).add(read.mul(taps[k - 1].1))
        }
    }

    /// One sample: the input plus the oldest sample times the feedback goes
    /// into the line, the taps are read and summed, and the sum is mixed with
    /// the input.
    pub open spec fn tick_spec(
        &self,
        st: DelayView<S>,
        x: S,
        feedback_mod: S,
        mix_mod: S,
        sample_rate: S,
    ) -> (
        DelayView<S>,
        S,
    ) {
        let feedback = stable_feedback(self.feedback.add(feedback_mod));
        let mix = self.mix.add(mix_mod);
        let written = st.put(x.add(st.head().mul(feedback)));
        let sum = Self::tap_sum(written, self.taps@, sample_rate, self.taps@.len());
        (written.step(), x.mul(S::one().sub(mix)).add(sum.mul(mix)))
    }

    /// Performs `tick_spec` on the state in place and returns the sample.
    pub fn tick(
        &self,
        st: &mut MultitapDelayState<S>,
        x: S,
        feedback_mod: S,
        mix_mod: S,
        sample_rate: S,
    ) -> (y: S)
        ensures
            final(st).same_size(old(st)),
            final(st).line@.cursor == old(st).line@.step().cursor,
            S::obeys_sample_spec() ==> (final(st)@, y) == self
                .tick_spec(old(st)@, x, feedback_mod, mix_mod, sample_rate),
    {
        let feedback = stable_feedback(self.feedback.add(feedback_mod));
        let mix = self.mix.add(mix_mod);
        let oldest = st.line.read();
        st.line.write(x.add(oldest.mul(feedback)));
        let ghost written = st.line@;
        let count: usize = self.taps.len();
        let mut sum = S::zero();
        let mut k: usize = 0;
        while k < count
            invariant
                k <= count,
                count == self.taps@.len(),
                st.line@ == written,
                S::obeys_sample_spec() ==>
                    sum == Self::tap_sum(written, self.taps@, sample_rate, k as nat),
            decreases count - k,
        {
            let tap = self.taps[k];
            let read = st.line.at(st.line.tap_index(Self::tap_delay(tap.0, sample_rate)));
            sum = sum.add(read.mul(tap.1));
            k += 1;
        }
        st.line.advance();
        x.mul(S::one().sub(mix)).add(sum.mul(mix))
    }

    /// The state before the first sample: a line of zeros.
    pub open spec fn fresh(&self, sample_rate: S) -> DelayView<S> {
        DelayView::filled(self.line_len_spec(sample_rate) as nat, S::zero())
    }

    pub fn init_state(&self, sample_rate: S, _block_size: usize) -> (st: MultitapDelayState<S>)
        ensures
            S::obeys_sample_spec() ==> st@ == self.fresh(sample_rate),
    {
        MultitapDelayState { line: DelayLine::new(self.line_len(sample_rate), S::zero()) }
    }

    /// Puts the state back to a line of zeros of the same length, which is what
    /// `init_state` returned for it.
    pub fn reset(&self, state: &mut MultitapDelayState<S>)
        ensures
            final(state).same_size(old(state)),
            S::obeys_sample_spec() ==> final(state)@ == old(state)@.cleared(S::zero()),
    {
        state.line.clear(S::zero());
    }

    /// A reset right after `init_state` changes nothing.
    pub proof fn lemma_reset_after_init(&self, sample_rate: S)
        ensures
            self.fresh(sample_rate).cleared(S::zero()) == self.fresh(sample_rate),
    {
        lemma_clear_after_new(self.line_len_spec(sample_rate) as nat, S::zero());
    }

    /// The node as a recursion over the samples of a block: the state before
    /// sample `i` to the state after it and the sample put out.
    pub open spec fn stepper(
        &self,
        inputs: Seq<Seq<S>>,
        sample_rate: S,
    ) -> spec_fn(DelayView<S>, int) -> (DelayView<S>, S) {
        |st: DelayView<S>, i: int| self
            .tick_spec(
                st,
                inputs[0][i],
                port_or(inputs, 1, i, S::zero()),
                port_or(inputs, 2, i, S::zero()),
                sample_rate,
            )
    }

    /// The inputs that the node declares.
    pub fn input_ports(&self) -> (r: Vec<Port>)
        ensures
            r@ == audio_ports(3),
    {
        make_audio_ports(3)
    }

    /// The outputs that the node declares.
    pub fn output_ports(&self) -> (r: Vec<Port>)
        ensures
            r@ == audio_ports(1),
    {
        make_audio_ports(1)
    }

    /// The number of inputs that must be connected.
    pub fn required_inputs(&self) -> (r: usize)
        ensures
            r == 1,
    {
        1
    }

    /// Processes one block: runs the recursion over the samples of the block and
    /// writes output 0. A call whose slices do not fit is refused and changes
    /// nothing. Nothing is allocated.
    pub fn process_block(
        &self,
        state: &mut MultitapDelayState<S>,
        inputs: &[&[S]],
        outputs: &mut [Vec<S>],
        sample_rate: S,
    ) -> (r: Result<(), ShapeError>)
        ensures
            r == shape_verdict(rows(inputs), cols(old(outputs)@), 1, 1, 3, 1),
            same_lens(final(outputs)@, old(outputs)@),
            same_from(final(outputs)@, old(outputs)@, 1),
            final(state).same_size(old(state)),
            r.is_err() ==> final(state)@ == old(state)@ && final(outputs)@ == old(outputs)@,
            r.is_ok() ==> final(state).line@.cursor == cursor_after(
                old(state).line@.cursor,
                old(state).line@.len(),
                final(outputs)@[0]@.len(),
            ),
            r.is_ok() && S::obeys_sample_spec() ==> renders(
                self.stepper(rows(inputs), sample_rate),
                old(state)@,
                final(state)@,
                final(outputs)@[0]@,
            ),
    {
        let n: usize = match check_block(inputs, outputs, 1, 1, 3, 1) {
            Ok(n) => n,
            Err(e) => {
                return Err(e);
            },
        };
        let ghost f = self.stepper(rows(inputs), sample_rate);
        let ghost st0 = state@;
        let zero = S::zero();
        let mut i: usize = 0;
        while i < n
            invariant
                i <= n,
                inputs@.len() >= 1,
                outputs@.len() >= 1,
                outputs@[0]@.len() == n,
                forall|p: int| 0 <= p < 1 ==> (#[trigger] inputs@[p])@.len() == n,
                forall|p: int|
                    1 <= p < 3 && p < inputs@.len() ==> (#[trigger] inputs@[p])@.len() == 0
                        || inputs@[p]@.len() == n,
                same_lens(outputs@, old(outputs)@),
                same_from(outputs@, old(outputs)@, 1),
                state.same_size(old(state)),
                state.line@.cursor == cursor_after(
                    old(state).line@.cursor,
                    old(state).line@.len(),
                    i as nat,
                ),
                f == self.stepper(rows(inputs), sample_rate),
                S::obeys_sample_spec() ==> zero == S::zero(),
                S::obeys_sample_spec() ==> state@ == state_after(f, st0, i as nat),
                S::obeys_sample_spec() ==> forall|j: int|
                    0 <= j < i ==> outputs@[0]@[j] == #[trigger] output_at(f, st0, j),
            decreases n - i,
        {
            let x = read_at(inputs, 0, i);
            let feedback_mod = read_or(inputs, 1, i, zero);
            let mix_mod = read_or(inputs, 2, i, zero);
            let y = self.tick(state, x, feedback_mod, mix_mod, sample_rate);
            outputs[0][i] = y;
            i += 1;
        }
        Ok(())
    }
}

/// State of a tremolo: the phase of its oscillator, in turns.
#[derive(Debug, Clone, Copy)]
pub struct TremoloState<S> {
    pub phase: S,
}

/// Tremolo: the amplitude of the input follows a sine. Input 1 is added to the
/// rate and input 2 to the depth.
#[derive(Debug, Clone, Copy)]
pub struct Tremolo<S> {
    pub rate: S,
    pub depth: S,
}

impl<S: Sample> Tremolo<S> {
    /// One sample: the gain is `1 - depth (1 - m)` for the lifted sine `m` at the
    /// phase, which then moves on.
    pub open spec fn tick_spec(
        &self,
        st: TremoloState<S>,
        x: S,
        rate_mod: S,
        depth_mod: S,
        sample_rate: S,
    ) -> (TremoloState<S>, S) {
        let rate = self.rate.add(rate_mod);
        let depth = self.depth.add(depth_mod);
        let modulation = st.phase.mul(S::ratio(2, 1)).mul(S::pi()).sin().mul(S::ratio(5, 10))
            .add(S::ratio(5, 10));
        let gain = S::one().sub(depth.mul(S::one().sub(modulation)));
        let moved = st.phase.add(rate.div(sample_rate));
        let phase = if moved.ge(S::one()) {
            moved.sub(S::one())
        } else {
            moved
        };
        (TremoloState { phase }, x.mul(gain))
    }

    /// Computes `tick_spec`.
    #[verifier::when_used_as_spec(tick_spec)]
    pub fn tick(
        &self,
        st: TremoloState<S>,
        x: S,
        rate_mod: S,
        depth_mod: S,
        sample_rate: S,
    ) -> (r: (TremoloState<S>, S))
        ensures
            S::obeys_sample_spec() ==> r == self.tick_spec(st, x, rate_mod, depth_mod, sample_rate),
    {
        let rate = self.rate.add(rate_mod);
        let depth = self.depth.add(depth_mod);
        let modulation = st.phase.mul(S::ratio(2, 1)).mul(S::pi()).sin().mul(S::ratio(5, 10))
            .add(S::ratio(5, 10));
        let gain = S::one().sub(depth.mul(S::one().sub(modulation)));
        let moved = st.phase.add(rate.div(sample_rate));
        let phase = if moved.ge(S::one()) {
            moved.sub(S::one())
        } else {
            moved
        };
        (TremoloState { phase }, x.mul(gain))
    }

    /// The node as a recursion over the samples of a block: the state before
    /// sample `i` to the state after it and the sample put out.
    pub open spec fn stepper(
        &self,
        inputs: Seq<Seq<S>>,
        sample_rate: S,
    ) -> spec_fn(TremoloState<S>, int) -> (TremoloState<S>, S) {
        |st: TremoloState<S>, i: int| self
            .tick(
                st,
                inputs[0][i],
                port_or(inputs, 1, i, S::zero()),
                port_or(inputs, 2, i, S::zero()),
                sample_rate,
            )
    }

    /// The inputs that the node declares.
    pub fn input_ports(&self) -> (r: Vec<Port>)
        ensures
            r@ == audio_ports(3),
    {
        make_audio_ports(3)
    }

    /// The outputs that the node declares.
    pub fn output_ports(&self) -> (r: Vec<Port>)
        ensures
            r@ == audio_ports(1),
    {
        make_audio_ports(1)
    }

    /// The number of inputs that must be connected.
    pub fn required_inputs(&self) -> (r: usize)
        ensures
            r == 1,
    {
        1
    }

    /// The state before the first sample.
    pub open spec fn fresh() -> TremoloState<S> {
        TremoloState { phase: S::zero() }
    }

    /// Makes the state for one instance of the node.
    pub fn init_state(&self, _sample_rate: S, _block_size: usize) -> (st: TremoloState<S>)
        ensures
            S::obeys_sample_spec() ==> st == Self::fresh(),
    {
        TremoloState { phase: S::zero() }
    }

    /// Puts the state back to what `init_state` returns.
    pub fn reset(&self, state: &mut TremoloState<S>)
        ensures
            S::obeys_sample_spec() ==> *final(state) == Self::fresh(),
    {
        *state = TremoloState { phase: S::zero() };
    }

    /// Processes one block: runs the recursion over the samples of the block and
    /// writes output 0. A call whose slices do not fit is refused and changes
    /// nothing. Nothing is allocated.
    pub fn process_block(
        &self,
        state: &mut TremoloState<S>,
        inputs: &[&[S]],
        outputs: &mut [Vec<S>],
        sample_rate: S,
    ) -> (r: Result<(), ShapeError>)
        ensures
            r == shape_verdict(rows(inputs), cols(old(outputs)@), 1, 1, 3, 1),
            same_lens(final(outputs)@, old(outputs)@),
            same_from(final(outputs)@, old(outputs)@, 1),
            r.is_err() ==> *final(state) == *old(state) && final(outputs)@ == old(outputs)@,
            r.is_ok() && S::obeys_sample_spec() ==> renders(
                self.stepper(rows(inputs), sample_rate),
                *old(state),
                *final(state),
                final(outputs)@[0]@,
            ),
    {
        let n: usize = match check_block(inputs, outputs, 1, 1, 3, 1) {
            Ok(n) => n,
            Err(e) => {
                return Err(e);
            },
        };
        let ghost f = self.stepper(rows(inputs), sample_rate);
        let ghost st0 = *state;
        let zero = S::zero();
        let mut i: usize = 0;
        while i < n
            invariant
                i <= n,
                inputs@.len() >= 1,
                outputs@.len() >= 1,
                outputs@[0]@.len() == n,
                forall|p: int| 0 <= p < 1 ==> (#[trigger] inputs@[p])@.len() == n,
                forall|p: int|
                    1 <= p < 3 && p < inputs@.len() ==> (#[trigger] inputs@[p])@.len() == 0
                        || inputs@[p]@.len() == n,
                same_lens(outputs@, old(outputs)@),
                same_from(outputs@, old(outputs)@, 1),
                f == self.stepper(rows(inputs), sample_rate),
                S::obeys_sample_spec() ==> zero == S::zero(),
                S::obeys_sample_spec() ==> *state == state_after(f, st0, i as nat),
                S::obeys_sample_spec() ==> forall|j: int|
                    0 <= j < i ==> outputs@[0]@[j] == #[trigger] output_at(f, st0, j),
            decreases n - i,
        {
            let x = read_at(inputs, 0, i);
            let rate_mod = read_or(inputs, 1, i, zero);
            let depth_mod = read_or(inputs, 2, i, zero);
            let (next, y) = self.tick(*state, x, rate_mod, depth_mod, sample_rate);
            *state = next;
            outputs[0][i] = y;
            i += 1;
        }
        Ok(())
    }
}

/// State of a convolution reverb. Its buffers are sized when it is made and
/// keep their lengths. Between two blocks the input buffer of a state that
/// `init_state` made holds zeros, so the frame of a call is its block
/// followed by zeros.
#[derive(Debug)]
pub struct ConvolutionReverbState<S, P> {
    /// The number of samples in a frame, a power of two.
    pub fft_size: usize,
    /// The number of samples in a block.
    pub block_size: usize,
    /// The spectrum of the impulse response.
    pub ir_fft: Vec<Complex<S>>,
    /// The input samples of the current frame.
    pub input_buffer: Vec<S>,
    /// Working space: the copy of the frame that is transformed.
    pub work: Vec<S>,
    /// The last frame that came back from the inverse transform, scaled.
    pub output_buffer: Vec<S>,
    /// What the frames so far add to the blocks to come.
    pub overlap: Vec<S>,
    /// The number of samples in `input_buffer` that are filled.
    pub input_pos: usize,
    /// Working space: the spectrum of the current frame.
    pub scratch_fft: Vec<Complex<S>>,
    /// The transforms for frames of `fft_size` samples.
    pub plan: P,
}

/// `buf` with `xs` written over it from position `at` on.
pub open spec fn spliced<S>(buf: Seq<S>, at: int, xs: Seq<S>) -> Seq<S> {
    Seq::new(buf.len(), |i: int| if at <= i < at + xs.len() { xs[i - at] } else { buf[i] })
}

/// `buf` moved towards its start by `by` positions; the last `by` samples stay.
pub open spec fn shifted<S>(buf: Seq<S>, by: int) -> Seq<S> {
    Seq::new(buf.len(), |i: int| if i + by < buf.len() { buf[i + by] } else { buf[i] })
}

/// A frame from the inverse transform, scaled by one over its length.
pub open spec fn normalised<S: Sample>(frame: Seq<S>) -> Seq<S> {
    Seq::new(frame.len(), |i: int| frame[i].mul(S::one().div(S::from_usize(frame.len() as usize))))
}

/// The wet block of a frame: its first `block` samples, each plus the sample
/// of the overlap at its place where the overlap has one.
pub open spec fn overlap_added<S: Sample>(frame: Seq<S>, overlap: Seq<S>, block: nat) -> Seq<S> {
    Seq::new(block, |i: int| if i < overlap.len() { frame[i].add(overlap[i]) } else { frame[i] })
}

/// What is carried over to the blocks to come: the frame behind its first
/// `block` samples, each plus the sample of the overlap that is a block
/// further on, where the overlap has one.
pub open spec fn carried<S: Sample>(frame: Seq<S>, overlap: Seq<S>, block: nat) -> Seq<S> {
    Seq::new(
        overlap.len(),
        |i: int| if i + block < overlap
            .len() { frame[i + block].add(overlap[i + block]) } else { frame[i + block] },
    )
}

/// An impulse response as a frame of `n` samples: the response, cut to `n`
/// samples, followed by zeros.
pub open spec fn padded<S: Sample>(ir: Seq<S>, n: nat) -> Seq<S> {
    Seq::new(n, |i: int| if i < ir.len() { ir[i] } else { S::zero() })
}

/// The frame that the transforms of `t` make of `frame`: its spectrum times
/// `ir_fft`, transformed back. `None` where one of the transforms fails.
pub open spec fn convolved<S: Sample, T: Transform<S>>(
    t: &T,
    frame: Seq<S>,
    ir_fft: Seq<Complex<S>>,
) -> Option<
    Seq<S>,
> {
    match forward_of(t, frame, ir_fft.len()) {
        None => None,
        Some(spectrum) => inverse_of(t, filtered(spectrum, ir_fft), frame.len()),
    }
}

/// The spectrum that a state keeps of an impulse response, for frames of `n`
/// samples: what the forward transform of `t` makes of the padded response,
/// and `fallback_spectrum` where it fails.
pub open spec fn impulse_spectrum<S: Sample, T: Transform<S>>(
    t: &T,
    ir: Seq<S>,
    n: nat,
) -> Seq<Complex<S>> {
    match forward_of(t, padded(ir, n), (n / 2 + 1) as nat) {
        Some(spectrum) => spectrum,
        None => fallback_spectrum((n / 2 + 1) as nat),
    }
}

/// A spectrum times the spectrum of the impulse response, bin by bin.
pub open spec fn filtered<S: Sample>(
    spectrum: Seq<Complex<S>>,
    ir: Seq<Complex<S>>,
) -> Seq<Complex<S>> {
    Seq::new(spectrum.len(), |j: int| spectrum[j].mul(ir[j]))
}

/// The spectrum that stands in for the impulse response where its transform
/// failed: one in the first bin, zero in the others.
pub open spec fn fallback_spectrum<S: Sample>(bins: nat) -> Seq<Complex<S>> {
    Seq::new(bins, |j: int| if j == 0 { Complex::<S>::one() } else { Complex::<S>::zero() })
}

/// The dry block `xs` mixed with the wet block `wet`; input `port` of `inputs`
/// is added to the mix sample by sample.
pub open spec fn dry_wet<S: Sample>(
    xs: Seq<S>,
    wet: Seq<S>,
    mix: S,
    inputs: Seq<Seq<S>>,
    port: int,
) -> Seq<S> {
    Seq::new(wet.len(), |i: int| blend(xs[i], wet[i], mix.add(port_or(inputs, port, i, S::zero()))))
}

/// A vector of `n` copies of `fill`.
pub fn filled_vec<T: Copy>(n: usize, fill: T) -> (r: Vec<T>)
    ensures
        r@ == Seq::new(n as nat, |i: int| fill),
{
    let mut v: Vec<T> = Vec::new();
    let mut i: usize = 0;
    while i < n
        invariant
            i <= n,
            v@.len() == i,
            forall|j: int| 0 <= j < i ==> v@[j] == fill,
        decreases n - i,
    {
        v.push(fill);
        i += 1;
    }
    assert(v@ =~= Seq::new(n as nat, |i: int| fill));
    v
}

/// Sets every element of `v` to `fill`.
pub fn fill_vec<T: Copy>(v: &mut Vec<T>, fill: T)
    ensures
        final(v)@ == Seq::new(old(v)@.len(), |i: int| fill),
{
    let n: usize = v.len();
    let mut i: usize = 0;
    while i < n
        invariant
            i <= n,
            v@.len() == n,
            n == old(v)@.len(),
            forall|j: int| 0 <= j < i ==> v@[j] == fill,
        decreases n - i,
    {
        v[i] = fill;
        i += 1;
    }
    assert(v@ =~= Seq::new(old(v)@.len(), |i: int| fill));
}

/// An impulse response as a frame of `n` samples.
pub fn pad_response<S: Sample>(ir: &Vec<S>, n: usize) -> (r: Vec<S>)
    ensures
        r@.len() == n,
        forall|i: int| 0 <= i < n && i < ir@.len() ==> r@[i] == ir@[i],
        S::obeys_sample_spec() ==> r@ == padded(ir@, n as nat),
{
    let zero = S::zero();
    let len: usize = ir.len();
    let mut frame: Vec<S> = filled_vec(n, zero);
    let mut i: usize = 0;
    while i < len && i < n
        invariant
            i <= len,
            i <= n,
            len == ir@.len(),
            frame@.len() == n,
            forall|j: int| 0 <= j < i ==> frame@[j] == ir@[j],
            forall|j: int| i <= j < n ==> frame@[j] == zero,
        decreases n - i,
    {
        frame[i] = ir[i];
        i += 1;
    }
    proof {
        if S::obeys_sample_spec() {
            assert(frame@ =~= padded(ir@, n as nat));
        }
    }
    frame
}

/// Settles the spectrum of an impulse response. `done` says whether its
/// transform was done: where it was, the spectrum stays as the transform
/// wrote it; where it was not, `fallback_spectrum` takes its place.
pub fn settle_spectrum<S: Sample>(done: bool, spectrum: &mut Vec<Complex<S>>)
    ensures
        final(spectrum)@.len() == old(spectrum)@.len(),
        done ==> final(spectrum)@ == old(spectrum)@,
        !done && S::obeys_sample_spec() ==>
            final(spectrum)@ == fallback_spectrum::<S>(old(spectrum)@.len()),
{
    if !done {
        let bins: usize = spectrum.len();
        let one = Complex::<S>::one();
        let zero = Complex::<S>::zero();
        let mut j: usize = 0;
        while j < bins
            invariant
                j <= bins,
                bins == spectrum@.len(),
                bins == old(spectrum)@.len(),
                forall|k: int| 0 <= k < j ==> spectrum@[k] == (if k == 0 { one } else { zero }),
            decreases bins - j,
        {
            spectrum[j] = if j == 0 { one } else { zero };
            j += 1;
        }
        proof {
            if S::obeys_sample_spec() {
                assert(spectrum@ =~= fallback_spectrum::<S>(old(spectrum)@.len()));
            }
        }
    }
}

impl<S: Sample, P> ConvolutionReverbState<S, P> {
    /// Whether the buffers have the lengths that the sizes ask for.
    pub open spec fn sized(&self) -> bool {
        &&& 1 <= self.block_size <= self.fft_size
        &&& self.input_buffer@.len() == self.fft_size
        &&& self.work@.len() == self.fft_size
        &&& self.output_buffer@.len() == self.fft_size
        &&& self.overlap@.len() == self.fft_size - self.block_size
        &&& self.scratch_fft@.len() == self.ir_fft@.len()
    }

    /// What holds of a state between two blocks: it is sized, and one more
    /// block fits into the input buffer.
    pub open spec fn wf(&self) -> bool {
        self.sized() && self.input_pos + self.block_size <= self.fft_size
    }

    /// Computes `wf`.
    pub fn is_wf(&self) -> (r: bool)
        ensures
            r == self.wf(),
    {
        1 <= self.block_size && self.block_size <= self.fft_size && self.input_buffer
            .len() == self.fft_size
            && self.work.len() == self.fft_size && self.output_buffer.len() == self.fft_size
            && self.overlap.len() == self.fft_size - self.block_size && self.scratch_fft.len()
            == self.ir_fft.len() && self.input_pos <= self.fft_size - self.block_size
    }

    /// Whether two states have the same sizes, the same transforms, the same
    /// spectrum of the impulse response, and buffers of the same lengths.
    pub open spec fn same_size(&self, other: &ConvolutionReverbState<S, P>) -> bool {
        &&& self.fft_size == other.fft_size
        &&& self.plan == other.plan
        &&& self.block_size == other.block_size
        &&& self.ir_fft@ == other.ir_fft@
        &&& self.input_buffer@.len() == other.input_buffer@.len()
        &&& self.work@.len() == other.work@.len()
        &&& self.output_buffer@.len() == other.output_buffer@.len()
        &&& self.overlap@.len() == other.overlap@.len()
        &&& self.scratch_fft@.len() == other.scratch_fft@.len()
    }

    /// Takes one block into the input buffer, behind the samples that are
    /// there.
    pub fn accept(&mut self, input: &[S])
        requires
            old(self).wf(),
            input@.len() == old(self).block_size,
        ensures
            final(self).sized(),
            final(self).same_size(old(self)),
            final(self).input_buffer@ == spliced(
                old(self).input_buffer@,
                old(self).input_pos as int,
                input@,
            ),
            final(self).input_pos == old(self).input_pos + old(self).block_size,
            final(self).overlap@ == old(self).overlap@,
            final(self).output_buffer@ == old(self).output_buffer@,
    {
        let block: usize = self.block_size;
        let pos: usize = self.input_pos;
        let mut i: usize = 0;
        while i < block
            invariant
                i <= block,
                block == self.block_size,
                pos == self.input_pos,
                pos == old(self).input_pos,
                input@.len() == block,
                self.sized(),
                pos + block <= self.fft_size,
                self.same_size(old(self)),
                self.overlap@ == old(self).overlap@,
                self.output_buffer@ == old(self).output_buffer@,
                forall|j: int| 0 <= j < self.fft_size ==>
                    self.input_buffer@[j] == (if pos <= j < pos + i {
                    input@[j - pos]
                } else {
                    old(self).input_buffer@[j]
                }),
            decreases block - i,
        {
            self.input_buffer[pos + i] = input[i];
            i += 1;
        }
        self.input_pos = pos + block;
        assert(self.input_buffer@ =~= spliced(
            old(self).input_buffer@,
            old(self).input_pos as int,
            input@,
        ));
    }

    /// Copies the frame into the working space.
    pub fn stage(&mut self)
        requires
            old(self).sized(),
        ensures
            final(self).sized(),
            final(self).same_size(old(self)),
            final(self).work@ == old(self).input_buffer@,
            final(self).input_buffer@ == old(self).input_buffer@,
            final(self).input_pos == old(self).input_pos,
            final(self).overlap@ == old(self).overlap@,
            final(self).output_buffer@ == old(self).output_buffer@,
            final(self).scratch_fft@ == old(self).scratch_fft@,
    {
        let n: usize = self.fft_size;
        let mut i: usize = 0;
        while i < n
            invariant
                i <= n,
                n == self.fft_size,
                self.sized(),
                self.same_size(old(self)),
                self.input_buffer@ == old(self).input_buffer@,
                self.input_pos == old(self).input_pos,
                self.overlap@ == old(self).overlap@,
                self.output_buffer@ == old(self).output_buffer@,
                self.scratch_fft@ == old(self).scratch_fft@,
                forall|j: int| 0 <= j < i ==> self.work@[j] == self.input_buffer@[j],
            decreases n - i,
        {
            let x = self.input_buffer[i];
            self.work[i] = x;
            i += 1;
        }
        assert(self.work@ =~= old(self).input_buffer@);
    }

    /// Multiplies the spectrum of the frame by that of the impulse response.
    pub fn apply_impulse(&mut self)
        requires
            old(self).sized(),
        ensures
            final(self).sized(),
            final(self).same_size(old(self)),
            final(self).input_buffer@ == old(self).input_buffer@,
            final(self).input_pos == old(self).input_pos,
            final(self).overlap@ == old(self).overlap@,
            final(self).output_buffer@ == old(self).output_buffer@,
            S::obeys_sample_spec() ==>
                final(self).scratch_fft@ == filtered(old(self).scratch_fft@, old(self).ir_fft@),
    {
        let bins: usize = self.scratch_fft.len();
        let mut j: usize = 0;
        while j < bins
            invariant
                j <= bins,
                bins == self.scratch_fft@.len(),
                self.sized(),
                self.same_size(old(self)),
                self.input_buffer@ == old(self).input_buffer@,
                self.input_pos == old(self).input_pos,
                self.overlap@ == old(self).overlap@,
                self.output_buffer@ == old(self).output_buffer@,
                forall|k: int| j <= k < bins ==> self.scratch_fft@[k] == old(self).scratch_fft@[k],
                S::obeys_sample_spec() ==> forall|k: int|
                    0 <= k < j ==> self.scratch_fft@[k] == old(self).scratch_fft@[k]
                        .mul(self.ir_fft@[k]),
            decreases bins - j,
        {
            let product = self.scratch_fft[j].mul(self.ir_fft[j]);
            self.scratch_fft[j] = product;
            j += 1;
        }
        proof {
            if S::obeys_sample_spec() {
                assert(self.scratch_fft@ =~= filtered(old(self).scratch_fft@, old(self).ir_fft@));
            }
        }
    }

    /// Takes the frame that came back from the inverse transform: scales it,
    /// writes its first block plus the overlap to `out`, and adds what is
    /// behind its first block to the overlap, which moves on by a block.
    pub fn overlap_add(&mut self, out: &mut Vec<S>)
        requires
            old(self).sized(),
            old(out)@.len() == old(self).block_size,
        ensures
            final(self).sized(),
            final(self).same_size(old(self)),
            final(out)@.len() == old(out)@.len(),
            final(self).input_buffer@ == old(self).input_buffer@,
            final(self).input_pos == old(self).input_pos,
            S::obeys_sample_spec() ==> {
                &&& final(self).output_buffer@ == normalised(old(self).output_buffer@)
                &&& final(out)@ == overlap_added(
                    normalised(old(self).output_buffer@),
                    old(self).overlap@,
                    old(self).block_size as nat,
                )
                &&& final(self).overlap@ == carried(
                    normalised(old(self).output_buffer@),
                    old(self).overlap@,
                    old(self).block_size as nat,
                )
            },
    {
        let n: usize = self.fft_size;
        let block: usize = self.block_size;
        let norm = S::one().div(S::from_usize(n));
        let ghost frame = normalised(self.output_buffer@);
        let mut i: usize = 0;
        while i < n
            invariant
                i <= n,
                n == self.fft_size,
                self.sized(),
                self.same_size(old(self)),
                self.input_buffer@ == old(self).input_buffer@,
                self.input_pos == old(self).input_pos,
                self.overlap@ == old(self).overlap@,
                frame == normalised(old(self).output_buffer@),
                S::obeys_sample_spec() ==> norm == S::one().div(S::from_usize(n)),
                forall|j: int| i <= j < n ==> self.output_buffer@[j] == old(self).output_buffer@[j],
                S::obeys_sample_spec() ==>
                    forall|j: int| 0 <= j < i ==> self.output_buffer@[j] == frame[j],
            decreases n - i,
        {
            let scaled = self.output_buffer[i].mul(norm);
            self.output_buffer[i] = scaled;
            i += 1;
        }
        let tail: usize = self.overlap.len();
        let ghost before = self.overlap@;
        let mut k: usize = 0;
        while k < block
            invariant
                k <= block,
                block == self.block_size,
                tail == self.overlap@.len(),
                self.sized(),
                self.same_size(old(self)),
                out@.len() == block,
                self.input_buffer@ == old(self).input_buffer@,
                self.input_pos == old(self).input_pos,
                self.overlap@ == before,
                before == old(self).overlap@,
                frame == normalised(old(self).output_buffer@),
                S::obeys_sample_spec() ==> self.output_buffer@ =~= frame,
                S::obeys_sample_spec() ==> forall|j: int|
                    0 <= j < k ==> out@[j] == (if j < before.len() {
                        frame[j].add(before[j])
                    } else {
                        frame[j]
                    }),
            decreases block - k,
        {
            let wet = if k < tail {
                self.output_buffer[k].add(self.overlap[k])
            } else {
                self.output_buffer[k]
            };
            out[k] = wet;
            k += 1;
        }
        let mut t: usize = 0;
        while t < tail
            invariant
                t <= tail,
                tail == self.overlap@.len(),
                tail == self.fft_size - self.block_size,
                block == self.block_size,
                self.sized(),
                self.same_size(old(self)),
                self.input_buffer@ == old(self).input_buffer@,
                self.input_pos == old(self).input_pos,
                frame == normalised(old(self).output_buffer@),
                before == old(self).overlap@,
                before.len() == tail,
                S::obeys_sample_spec() ==> self.output_buffer@ =~= frame,
                forall|j: int| t <= j < tail ==> self.overlap@[j] == before[j],
                S::obeys_sample_spec() ==> forall|j: int|
                    0 <= j < t ==> self.overlap@[j] == (if j + block < tail {
                        frame[j + block].add(before[j + block])
                    } else {
                        frame[j + block]
                    }),
            decreases tail - t,
        {
            let x = self.output_buffer[t + block];
            let sum = if t + block < tail {
                x.add(self.overlap[t + block])
            } else {
                x
            };
            self.overlap[t] = sum;
            t += 1;
        }
        proof {
            if S::obeys_sample_spec() {
                assert(out@ =~= overlap_added(frame, before, block as nat));
                assert(self.overlap@ =~= carried(frame, before, block as nat));
            }
        }
    }

    /// Writes the block that a frame gives. `done` says whether both
    /// transforms of the frame were done. Where they were, the frame in the
    /// output buffer is scaled, its first block plus the overlap is mixed
    /// with the dry input and put out, and the rest of it joins the overlap.
    /// Where one was not, the block is silence, whatever the mix is, and the
    /// overlap stays as it was.
    pub fn emit(&mut self, done: bool, inputs: &[&[S]], out: &mut Vec<S>, mix: S)
        requires
            old(self).sized(),
            old(out)@.len() == old(self).block_size,
            inputs@.len() >= 1,
            inputs@[0]@.len() == old(self).block_size,
            1 < inputs@.len() ==> inputs@[1]@.len() == 0 || inputs@[1]@
                .len() == old(self).block_size,
        ensures
            final(self).sized(),
            final(self).same_size(old(self)),
            final(out)@.len() == old(out)@.len(),
            final(self).input_buffer@ == old(self).input_buffer@,
            final(self).input_pos == old(self).input_pos,
            !done ==> {
                &&& final(self).overlap@ == old(self).overlap@
                &&& final(self).output_buffer@ == old(self).output_buffer@
                &&& S::obeys_sample_spec() ==>
                    final(out)@ == Seq::new(old(self).block_size as nat, |i: int| S::zero())
            },
            done && S::obeys_sample_spec() ==> {
                let frame = normalised(old(self).output_buffer@);
                &&& final(self).output_buffer@ == frame
                &&& final(out)@ == dry_wet(
                    rows(inputs)[0],
                    overlap_added(frame, old(self).overlap@, old(self).block_size as nat),
                    mix,
                    rows(inputs),
                    1,
                )
                &&& final(self).overlap@ == carried(
                    frame,
                    old(self).overlap@,
                    old(self).block_size as nat,
                )
            },
    {
        if done {
            self.overlap_add(out);
            mix_dry_wet(inputs, out, mix, 1);
        } else {
            fill_vec(out, S::zero());
            proof {
                if S::obeys_sample_spec() {
                    assert(out@ =~= Seq::new(old(self).block_size as nat, |i: int| S::zero()));
                }
            }
        }
    }

    /// Drops the oldest block from the input buffer.
    pub fn finish_frame(&mut self)
        requires
            old(self).sized(),
            old(self).block_size <= old(self).input_pos <= old(self).fft_size,
        ensures
            final(self).wf(),
            final(self).same_size(old(self)),
            final(self).input_buffer@ == shifted(
                old(self).input_buffer@,
                old(self).block_size as int,
            ),
            final(self).input_pos == old(self).input_pos - old(self).block_size,
            final(self).overlap@ == old(self).overlap@,
            final(self).output_buffer@ == old(self).output_buffer@,
    {
        let block: usize = self.block_size;
        let keep: usize = self.fft_size - block;
        let mut i: usize = 0;
        while i < keep
            invariant
                i <= keep,
                keep == self.fft_size - block,
                block == self.block_size,
                self.sized(),
                self.same_size(old(self)),
                self.input_pos == old(self).input_pos,
                self.overlap@ == old(self).overlap@,
                self.output_buffer@ == old(self).output_buffer@,
                forall|j: int| 0 <= j < i ==>
                    self.input_buffer@[j] == old(self).input_buffer@[j + block],
                forall|j: int| i <= j < self.fft_size ==>
                    self.input_buffer@[j] == old(self).input_buffer@[j],
            decreases keep - i,
        {
            let x = self.input_buffer[i + block];
            self.input_buffer[i] = x;
            i += 1;
        }
        self.input_pos = self.input_pos - block;
        assert(self.input_buffer@ =~= shifted(old(self).input_buffer@, old(self).block_size as int));
    }

    /// Puts the buffers back to zeros and the input position to the start. The
    /// sizes, the spectrum of the impulse response and the transforms stay.
    pub fn clear(&mut self)
        ensures
            final(self).same_size(old(self)),
            final(self).input_pos == 0,
            old(self).sized() ==> final(self).wf(),
            S::obeys_sample_spec() ==> {
                &&& final(self).input_buffer@ == Seq::new(
                    old(self).input_buffer@.len(),
                    |i: int| S::zero(),
                )
                &&& final(self).work@ == Seq::new(old(self).work@.len(), |i: int| S::zero())
                &&& final(self).output_buffer@ == Seq::new(
                    old(self).output_buffer@.len(),
                    |i: int| S::zero(),
                )
                &&& final(self).overlap@ == Seq::new(old(self).overlap@.len(), |i: int| S::zero())
            },
    {
        let zero = S::zero();
        fill_vec(&mut self.input_buffer, zero);
        fill_vec(&mut self.work, zero);
        fill_vec(&mut self.output_buffer, zero);
        fill_vec(&mut self.overlap, zero);
        self.input_pos = 0;
        proof {
            if S::obeys_sample_spec() {
                assert(self.input_buffer@ =~= Seq::new(
                    old(self).input_buffer@.len(),
                    |i: int| S::zero(),
                ));
                assert(self.work@ =~= Seq::new(old(self).work@.len(), |i: int| S::zero()));
                assert(self.output_buffer@ =~= Seq::new(
                    old(self).output_buffer@.len(),
                    |i: int| S::zero(),
                ));
                assert(self.overlap@ =~= Seq::new(old(self).overlap@.len(), |i: int| S::zero()));
            }
        }
    }
}

impl<S: Sample, P: Transform<S>> ConvolutionReverbState<S, P> {
    /// Runs the frame in the working space through the transforms: forward,
    /// times the spectrum of the impulse response, and back into the output
    /// buffer. Returns whether both transforms were done.
    pub fn transform_frame(&mut self) -> (done: bool)
        requires
            old(self).sized(),
        ensures
            final(self).sized(),
            final(self).same_size(old(self)),
            final(self).input_buffer@ == old(self).input_buffer@,
            final(self).input_pos == old(self).input_pos,
            final(self).overlap@ == old(self).overlap@,
            S::obeys_sample_spec() && old(self).plan.obeys_transform_spec() ==> {
                let frame = convolved(&old(self).plan, old(self).work@, old(self).ir_fft@);
                &&& done == frame.is_some()
                &&& done ==> final(self).output_buffer@ == frame.unwrap()
            },
    {
        let forward = run_forward(&self.plan, &mut self.work, &mut self.scratch_fft);
        if !forward {
            return false;
        }
        self.apply_impulse();
        run_inverse(&self.plan, &mut self.scratch_fft, &mut self.output_buffer)
    }
}

/// Mixes the dry block of input 0 into the wet block in `out`; input `port`
/// is added to the mix sample by sample.
pub fn mix_dry_wet<S: Sample>(inputs: &[&[S]], out: &mut Vec<S>, mix: S, port: usize)
    requires
        inputs@.len() >= 1,
        inputs@[0]@.len() == old(out)@.len(),
        port < inputs@.len() ==> inputs@[port as int]@.len() == 0 || inputs@[port as int]@
            .len() == old(out)@.len(),
    ensures
        final(out)@.len() == old(out)@.len(),
        S::obeys_sample_spec() ==>
            final(out)@ == dry_wet(rows(inputs)[0], old(out)@, mix, rows(inputs), port as int),
{
    let n: usize = out.len();
    let zero = S::zero();
    let ghost wet = out@;
    let mut i: usize = 0;
    while i < n
        invariant
            i <= n,
            n == out@.len(),
            n == wet.len(),
            inputs@.len() >= 1,
            inputs@[0]@.len() == n,
            port < inputs@.len() ==> inputs@[port as int]@.len() == 0 || inputs@[port as int]@
                .len() == n,
            S::obeys_sample_spec() ==> zero == S::zero(),
            forall|j: int| i <= j < n ==> out@[j] == wet[j],
            S::obeys_sample_spec() ==> forall|j: int|
                0 <= j < i ==> out@[j] == blend(
                    rows(inputs)[0][j],
                    wet[j],
                    mix.add(port_or(rows(inputs), port as int, j, S::zero())),
                ),
        decreases n - i,
    {
        let x = read_at(inputs, 0, i);
        let m = mix.add(read_or(inputs, port, i, zero));
        let y = blend(x, out[i], m);
        out[i] = y;
        i += 1;
    }
    proof {
        if S::obeys_sample_spec() {
            assert(out@ =~= dry_wet(rows(inputs)[0], wet, mix, rows(inputs), port as int));
        }
    }
}

/// Reverb by block convolution with an impulse response, in the frequency
/// domain. Input 1 is added to the mix.
#[derive(Debug, Clone)]
pub struct ConvolutionReverb<S> {
    /// The impulse response.
    pub ir: Vec<S>,
    pub mix: S,
}

impl<S: Sample> ConvolutionReverb<S> {
    pub fn input_ports(&self) -> (r: Vec<Port>)
        ensures
            r@ == audio_ports(2),
    {
        make_audio_ports(2)
    }

    pub fn output_ports(&self) -> (r: Vec<Port>)
        ensures
            r@ == audio_ports(1),
    {
        make_audio_ports(1)
    }

    pub fn required_inputs(&self) -> (r: usize)
        ensures
            r == 1,
    {
        1
    }

    /// Makes the state for blocks of `block_size` samples: sizes the buffers,
    /// has the transforms planned, and transforms the impulse response. This
    /// is the only place where the reverb allocates. It fails on a block size
    /// of zero, and on sizes that do not fit the machine's counts. Where the
    /// transform of the impulse response fails, `fallback_spectrum` takes its
    /// place.
    pub fn init_state<P: Planner<S>>(
        &self,
        _sample_rate: S,
        block_size: usize,
        planner: &mut P,
    ) -> (r: Result<
        ConvolutionReverbState<S, P::Plan>,
        ShapeError,
    >)
        ensures
            r
                .is_ok() <==> block_size >= 1 && frame_fits(
                    frame_need(self.ir@.len(), block_size as nat),
                ),
            r
                .is_err() ==>
                    r == Err::<ConvolutionReverbState<S, P::Plan>, ShapeError>(ShapeError::InvalidBlockSize),
            r.is_ok() ==> {
                let st = r.unwrap();
                &&& st.wf()
                &&& st.block_size == block_size
                &&& is_frame_size(st.fft_size as nat, frame_need(self.ir@.len(), block_size as nat))
                &&& st.ir_fft@.len() == st.fft_size / 2 + 1
                &&& st.input_pos == 0
                &&& S::obeys_sample_spec() ==> {
                    &&& st.input_buffer@ == Seq::new(st.fft_size as nat, |i: int| S::zero())
                    &&& st.output_buffer@ == Seq::new(st.fft_size as nat, |i: int| S::zero())
                    &&& st.overlap@ == Seq::new(
                        (st.fft_size - block_size) as nat,
                        |i: int| S::zero(),
                    )
                }
                &&& S::obeys_sample_spec() && st.plan
                    .obeys_transform_spec() ==> st.ir_fft@ == impulse_spectrum(
                    &st.plan,
                    self.ir@,
                    st.fft_size as nat,
                )
            },
    {
        let fft_size: usize = match frame_size(self.ir.len(), block_size) {
            Some(n) => n,
            None => {
                return Err(ShapeError::InvalidBlockSize);
            },
        };
        let plan = planner.plan(fft_size);
        let bins: usize = fft_size / 2 + 1;
        let zero = S::zero();
        let mut frame: Vec<S> = pad_response(&self.ir, fft_size);
        let mut ir_fft: Vec<Complex<S>> = filled_vec(bins, Complex::zero());
        let done = run_forward(&plan, &mut frame, &mut ir_fft);
        settle_spectrum(done, &mut ir_fft);
        let input_buffer: Vec<S> = filled_vec(fft_size, zero);
        let output_buffer: Vec<S> = filled_vec(fft_size, zero);
        let overlap: Vec<S> = filled_vec(fft_size - block_size, zero);
        proof {
            assert(is_frame_size(fft_size as nat, frame_need(self.ir@.len(), block_size as nat)));
            if S::obeys_sample_spec() {
                assert(input_buffer@ =~= Seq::new(fft_size as nat, |i: int| S::zero()));
                assert(output_buffer@ =~= Seq::new(fft_size as nat, |i: int| S::zero()));
                assert(overlap@ =~= Seq::new((fft_size - block_size) as nat, |i: int| S::zero()));
            }
        }
        Ok(
            ConvolutionReverbState {
                fft_size,
                block_size,
                ir_fft,
                input_buffer,
                work: filled_vec(fft_size, zero),
                output_buffer,
                overlap,
                input_pos: 0,
                scratch_fft: filled_vec(bins, Complex::zero()),
                plan,
            },
        )
    }

    /// Puts the buffers of a state back to zeros and its input position to
    /// the start, which is what `init_state` returned for it. Nothing is
    /// allocated.
    pub fn reset<P>(&self, state: &mut ConvolutionReverbState<S, P>)
        ensures
            final(state).same_size(old(state)),
            final(state).input_pos == 0,
            old(state).sized() ==> final(state).wf(),
            S::obeys_sample_spec() ==> {
                &&& final(state).input_buffer@ == Seq::new(
                    old(state).input_buffer@.len(),
                    |i: int| S::zero(),
                )
                &&& final(state).output_buffer@ == Seq::new(
                    old(state).output_buffer@.len(),
                    |i: int| S::zero(),
                )
                &&& final(state).overlap@ == Seq::new(old(state).overlap@.len(), |i: int| S::zero())
            },
    {
        state.clear();
    }

    /// The verdict on a call: that of the slices, then a length mismatch for
    /// a state that is not well formed or was made for another block size.
    pub open spec fn call_verdict<P>(
        &self,
        state: &ConvolutionReverbState<S, P>,
        inputs: Seq<Seq<S>>,
        outputs: Seq<Seq<S>>,
    ) -> Result<(), ShapeError> {
        match shape_of(inputs, outputs, 1, 1, 2, 1) {
            Err(e) => Err(e),
            Ok(n) => {
                if state.wf() && n == state.block_size {
                    Ok(())
                } else {
                    Err(ShapeError::LengthMismatch)
                }
            },
        }
    }

    /// Processes one block. The block is taken into the input buffer, and
    /// the frame that the buffer then holds is copied, transformed, multiplied
    /// by the spectrum of the impulse response and transformed back. The
    /// first block of the result plus the overlap is the wet signal; the rest
    /// of the result joins the overlap for the blocks to come; the block
    /// leaves the input buffer. The output is the dry input mixed with the wet
    /// signal. Where a transform fails, the output is silence, whatever the
    /// mix is, and the overlap stays.
    ///
    /// For transforms that obey their twins the contract names the output:
    /// `convolved` says whether the transforms fail and what they write. For
    /// any others it says what holds whatever they return: either the
    /// silence of a failure, or the block that `output_buffer` gives.
    /// Nothing is allocated here, whatever the transforms do.
    pub fn process_block<P: Transform<S>>(
        &self,
        state: &mut ConvolutionReverbState<S, P>,
        inputs: &[&[S]],
        outputs: &mut [Vec<S>],
        _sample_rate: S,
    ) -> (r: Result<(), ShapeError>)
        ensures
            r == self.call_verdict(old(state), rows(inputs), cols(old(outputs)@)),
            same_lens(final(outputs)@, old(outputs)@),
            same_from(final(outputs)@, old(outputs)@, 1),
            final(state).same_size(old(state)),
            r.is_err() ==> {
                &&& final(outputs)@ == old(outputs)@
                &&& final(state).input_buffer@ == old(state).input_buffer@
                &&& final(state).output_buffer@ == old(state).output_buffer@
                &&& final(state).overlap@ == old(state).overlap@
                &&& final(state).input_pos == old(state).input_pos
            },
            r.is_ok() ==> {
                let block = old(state).block_size as nat;
                let accepted = spliced(
                    old(state).input_buffer@,
                    old(state).input_pos as int,
                    rows(inputs)[0],
                );
                &&& final(state).wf()
                &&& final(state).input_buffer@ == shifted(accepted, block as int)
                &&& final(state).input_pos == old(state).input_pos
                &&& S::obeys_sample_spec() ==> {
                    ||| {
                        &&& final(outputs)@[0]@ == Seq::new(block, |i: int| S::zero())
                        &&& final(state).overlap@ == old(state).overlap@
                    }
                    ||| {
                        &&& final(outputs)@[0]@ == dry_wet(
                            rows(inputs)[0],
                            overlap_added(final(state).output_buffer@, old(state).overlap@, block),
                            self.mix,
                            rows(inputs),
                            1,
                        )
                        &&& final(state).overlap@ == carried(
                            final(state).output_buffer@,
                            old(state).overlap@,
                            block,
                        )
                    }
                }
                &&& S::obeys_sample_spec() && old(state).plan
                    .obeys_transform_spec() ==> match convolved(
                    &old(state).plan,
                    accepted,
                    old(state).ir_fft@,
                ) {
                    None => {
                        &&& final(outputs)@[0]@ == Seq::new(block, |i: int| S::zero())
                        &&& final(state).overlap@ == old(state).overlap@
                    },
                    Some(frame) => {
                        &&& final(state).output_buffer@ == normalised(frame)
                        &&& final(outputs)@[0]@ == dry_wet(
                            rows(inputs)[0],
                            overlap_added(normalised(frame), old(state).overlap@, block),
                            self.mix,
                            rows(inputs),
                            1,
                        )
                        &&& final(state).overlap@ == carried(
                            normalised(frame),
                            old(state).overlap@,
                            block,
                        )
                    },
                }
            },
    {
        let n: usize = match check_block(inputs, outputs, 1, 1, 2, 1) {
            Ok(n) => n,
            Err(e) => {
                return Err(e);
            },
        };
        if !state.is_wf() || n != state.block_size {
            return Err(ShapeError::LengthMismatch);
        }
        assert(rows(inputs)[0] == inputs@[0]@);
        state.accept(inputs[0]);
        state.stage();
        let done = state.transform_frame();
        state.emit(done, inputs, &mut outputs[0], self.mix);
        state.finish_frame();
        Ok(())
    }
}

/// Convolution with a unit impulse gives the input back, block by block and
/// with no delay. Let the frame that the transforms hand back for a block,
/// once scaled, be the block followed by zeros, as it is for the spectrum of a
/// unit impulse, and let the overlap be silent. Let adding zero change no
/// sample, and let a sample mixed with itself be itself. Then the block put
/// out is the block put in, whatever the mix is, and the overlap stays silent:
/// the next block finds what this one found.
pub proof fn lemma_unit_response_is_identity<S: Sample>(
    block: Seq<S>,
    frame: Seq<S>,
    overlap: Seq<S>,
    mix: S,
    inputs: Seq<Seq<S>>,
)
    requires
        inputs.len() == 1,
        inputs[0] == block,
        frame.len() == block.len() + overlap.len(),
        forall|i: int| 0 <= i < block.len() ==> normalised(frame)[i] == block[i],
        forall|i: int| block.len() <= i < frame.len() ==> normalised(frame)[i] == S::zero(),
        forall|i: int| 0 <= i < overlap.len() ==> overlap[i] == S::zero(),
        forall|a: S| #[trigger] a.add(S::zero()) == a,
        forall|a: S, m: S| #[trigger] blend(a, a, m) == a,
    ensures
        dry_wet(
            block,
            overlap_added(normalised(frame), overlap, block.len()),
            mix,
            inputs,
            1,
        ) == block,
        carried(normalised(frame), overlap, block.len()) == overlap,
{
    let scaled = normalised(frame);
    let wet = overlap_added(scaled, overlap, block.len());
    assert forall|i: int| 0 <= i < block.len() implies wet[i] == block[i] by {
        if i < overlap.len() {
            assert(scaled[i].add(overlap[i]) == scaled[i]);
        }
    }
    assert(dry_wet(block, wet, mix, inputs, 1) =~= block);
    let next = carried(scaled, overlap, block.len());
    assert forall|i: int| 0 <= i < overlap.len() implies next[i] == overlap[i] by {
        assert(scaled[i + block.len()] == S::zero());
        if i + block.len() < overlap.len() {
            assert(scaled[i + block.len()].add(overlap[i + block.len()]) == scaled[i + block.len()]);
        }
    }
    assert(next =~= overlap);
}

} // verus!
