//! Pitch shifting and detection.

use crate::block::{
    audio_ports, check_block, cols, make_audio_ports, output_at, port_or, read_at, read_or, renders,
    rows, same_from, same_lens, shape_verdict, state_after, Port, ShapeError,
};
use crate::delay_line::{cursor_after, lemma_clear_after_new, DelayLine, DelayView};
use crate::helpers::blend;
use crate::nodes::dynamics::follow;
use crate::sample::Sample;
use vstd::prelude::*;

verus! {

/// What a pitch shifter holds: its line and its phase.
pub struct PitchShifterView<S> {
    pub line: DelayView<S>,
    pub phase: S,
}

/// State of a pitch shifter.
#[derive(Debug)]
pub struct PitchShifterState<S> {
    pub line: DelayLine<S>,
    /// Kept at zero.
    pub phase: S,
}

impl<S> View for PitchShifterState<S> {
    type V = PitchShifterView<S>;

    open spec fn view(&self) -> PitchShifterView<S> {
        PitchShifterView { line: self.line@, phase: self.phase }
    }
}

impl<S> PitchShifterState<S> {
    /// Whether two states hold as many samples.
    pub open spec fn same_size(&self, other: &PitchShifterState<S>) -> bool {
        self.line@.len() == other.line@.len()
    }
}

/// Pitch shifter on a short delay: the input mixed with itself, delayed by one
/// period of the shifted concert pitch. The shift is in semitones. Input 1 is
/// added to the shift and input 2 to the mix.
#[derive(Debug, Clone, Copy)]
pub struct PitchShifter<S> {
    pub shift: S,
    pub mix: S,
}

impl<S: Sample> PitchShifter<S> {
    /// One sample: the line is read `fs / 440 / 2^(shift / 12)` samples back, at
    /// most its length less one, and mixed with the input, which goes into the
    /// line.
    pub open spec fn tick_spec(
        &self,
        st: PitchShifterView<S>,
        x: S,
        shift_mod: S,
        mix_mod: S,
        sample_rate: S,
    ) -> (PitchShifterView<S>, S) {
        let shift = self.shift.add(shift_mod);
        let mix = self.mix.add(mix_mod);
        let ratio = S::ratio(2, 1).powf(shift.div(S::ratio(12, 1)));
        let delay = sample_rate.div(S::ratio(440, 1)).div(ratio).to_usize();
        let longest = (st.line.len() - 1) as usize;
        let delayed = st.line
            .at(st.line.tap_index(if delay > longest { longest } else { delay } as nat));
        (PitchShifterView { line: st.line.push(x), phase: st.phase }, blend(x, delayed, mix))
    }

    /// Performs `tick_spec` on the state in place and returns the sample.
    pub fn tick(
        &self,
        st: &mut PitchShifterState<S>,
        x: S,
        shift_mod: S,
        mix_mod: S,
        sample_rate: S,
    ) -> (y: S)
        ensures
            final(st).same_size(old(st)),
            final(st).line@.cursor == old(st).line@.step().cursor,
            S::obeys_sample_spec() ==> (final(st)@, y) == self
                .tick_spec(old(st)@, x, shift_mod, mix_mod, sample_rate),
    {
        let shift = self.shift.add(shift_mod);
        let mix = self.mix.add(mix_mod);
        let ratio = S::ratio(2, 1).powf(shift.div(S::ratio(12, 1)));
        let delay: usize = sample_rate.div(S::ratio(440, 1)).div(ratio).to_usize();
        let longest: usize = st.line.len() - 1;
        let delayed = st.line.at(st.line.tap_index(if delay > longest { longest } else { delay }));
        st.line.push(x);
        blend(x, delayed, mix)
    }

    /// The node as a recursion over the samples of a block: the state before
    /// sample `i` to the state after it and the sample put out.
    pub open spec fn stepper(
        &self,
        inputs: Seq<Seq<S>>,
        sample_rate: S,
    ) -> spec_fn(PitchShifterView<S>, int) -> (PitchShifterView<S>, S) {
        |st: PitchShifterView<S>, i: int| self
            .tick_spec(
                st,
                inputs[0][i],
                port_or(inputs, 1, i, S::zero()),
                port_or(inputs, 2, i, S::zero()),
                sample_rate,
            )
    }

    /// The inputs that the node declares.
    pub fn input_ports(&self) -> (r: Vec<Port>)
        ensures
            r@ == audio_ports(3),
    {
        make_audio_ports(3)
    }

    /// The outputs that the node declares.
    pub fn output_ports(&self) -> (r: Vec<Port>)
        ensures
            r@ == audio_ports(1),
    {
        make_audio_ports(1)
    }

    /// The number of inputs that must be connected.
    pub fn required_inputs(&self) -> (r: usize)
        ensures
            r == 1,
    {
        1
    }

    /// The length of the delay line in samples: a fiftieth of a second at the
    /// sample rate, rounded down.
    pub open spec fn line_len_spec(&self, sample_rate: S) -> usize {
        sample_rate.div(S::ratio(50, 1)).to_usize()
    }

    /// Computes `line_len_spec`.
    #[verifier::when_used_as_spec(line_len_spec)]
    pub fn line_len(&self, sample_rate: S) -> (r: usize)
        ensures
            S::obeys_sample_spec() ==> r == self.line_len_spec(sample_rate),
    {
        sample_rate.div(S::ratio(50, 1)).to_usize()
    }

    /// The state before the first sample: a line of zeros.
    pub open spec fn fresh(&self, sample_rate: S) -> PitchShifterView<S> {
        PitchShifterView {
            line: DelayView::filled(self.line_len(sample_rate) as nat, S::zero()),
            phase: S::zero(),
        }
    }

    /// Makes the state for one instance of the node. This is where its line is
    /// allocated.
    pub fn init_state(&self, sample_rate: S, _block_size: usize) -> (st: PitchShifterState<S>)
        ensures
            S::obeys_sample_spec() ==> st@ == self.fresh(sample_rate),
    {
        PitchShifterState {
            line: DelayLine::new(self.line_len(sample_rate), S::zero()),
            phase: S::zero(),
        }
    }

    /// Puts the state back to a line of zeros of the same length, which is what
    /// `init_state` returned for it.
    pub fn reset(&self, state: &mut PitchShifterState<S>)
        ensures
            final(state).same_size(old(state)),
            S::obeys_sample_spec() ==>
                final(state)@ == (PitchShifterView { line: old(state)@.line.cleared(S::zero()), phase: S::zero() }),
    {
        state.line.clear(S::zero());
        state.phase = S::zero();
    }

    /// A reset right after `init_state` changes nothing.
    pub proof fn lemma_reset_after_init(&self, sample_rate: S)
        ensures
            (PitchShifterView { line: self.fresh(sample_rate).line.cleared(S::zero()), phase: S::zero() }) == self
                .fresh(sample_rate),
    {
        lemma_clear_after_new(self.line_len(sample_rate) as nat, S::zero());
    }

    /// Processes one block: runs the recursion over the samples of the block and
    /// writes output 0. A call whose slices do not fit is refused and changes
    /// nothing. Nothing is allocated.
    pub fn process_block(
        &self,
        state: &mut PitchShifterState<S>,
        inputs: &[&[S]],
        outputs: &mut [Vec<S>],
        sample_rate: S,
    ) -> (r: Result<(), ShapeError>)
        ensures
            r == shape_verdict(rows(inputs), cols(old(outputs)@), 1, 1, 3, 1),
            same_lens(final(outputs)@, old(outputs)@),
            same_from(final(outputs)@, old(outputs)@, 1),
            final(state).same_size(old(state)),
            r.is_err() ==> final(state)@ == old(state)@ && final(outputs)@ == old(outputs)@,
            r.is_ok() ==> final(state).line@.cursor == cursor_after(
                old(state).line@.cursor,
                old(state).line@.len(),
                final(outputs)@[0]@.len(),
            ),
            r.is_ok() && S::obeys_sample_spec() ==> renders(
                self.stepper(rows(inputs), sample_rate),
                old(state)@,
                final(state)@,
                final(outputs)@[0]@,
            ),
    {
        let n: usize = match check_block(inputs, outputs, 1, 1, 3, 1) {
            Ok(n) => n,
            Err(e) => {
                return Err(e);
            },
        };
        let ghost f = self.stepper(rows(inputs), sample_rate);
        let ghost st0 = state@;
        let zero = S::zero();
        let mut i: usize = 0;
        while i < n
            invariant
                i <= n,
                inputs@.len() >= 1,
                outputs@.len() >= 1,
                outputs@[0]@.len() == n,
                forall|p: int| 0 <= p < 1 ==> (#[trigger] inputs@[p])@.len() == n,
                forall|p: int|
                    1 <= p < 3 && p < inputs@.len() ==> (#[trigger] inputs@[p])@.len() == 0
                        || inputs@[p]@.len() == n,
                same_lens(outputs@, old(outputs)@),
                same_from(outputs@, old(outputs)@, 1),
                state.same_size(old(state)),
                state.line@.cursor == cursor_after(
                    old(state).line@.cursor,
                    old(state).line@.len(),
                    i as nat,
                ),
                f == self.stepper(rows(inputs), sample_rate),
                S::obeys_sample_spec() ==> zero == S::zero(),
                S::obeys_sample_spec() ==> state@ == state_after(f, st0, i as nat),
                S::obeys_sample_spec() ==> forall|j: int|
                    0 <= j < i ==> outputs@[0]@[j] == #[trigger] output_at(f, st0, j),
            decreases n - i,
        {
            let x = read_at(inputs, 0, i);
            let shift_mod = read_or(inputs, 1, i, zero);
            let mix_mod = read_or(inputs, 2, i, zero);
            let y = self.tick(state, x, shift_mod, mix_mod, sample_rate);
            outputs[0][i] = y;
            i += 1;
        }
        Ok(())
    }
}

/// State of a spectral gate: the envelope of its input.
#[derive(Debug, Clone, Copy)]
pub struct SpectralGateState<S> {
    pub envelope: S,
}

/// Gate with a fixed attack of one millisecond and release of ten: mutes the
/// input while its envelope is below the threshold.
#[derive(Debug, Clone, Copy)]
pub struct SpectralGate<S> {
    pub threshold: S,
    pub ratio: S,
}

impl<S: Sample> SpectralGate<S> {
    /// The attack and the release coefficient of the follower at a sample rate.
    pub open spec fn prepare_spec(&self, sample_rate: S) -> (S, S) {
        (
            S::one().neg().div(S::one().mul(sample_rate).div(S::ratio(1000, 1))).exp(),
            S::one().neg().div(S::ratio(10, 1).mul(sample_rate).div(S::ratio(1000, 1))).exp(),
        )
    }

    /// Computes `prepare_spec`.
    #[verifier::when_used_as_spec(prepare_spec)]
    pub fn prepare(&self, sample_rate: S) -> (r: (S, S))
        ensures
            S::obeys_sample_spec() ==> r == self.prepare_spec(sample_rate),
    {
        (
            S::one().neg().div(S::one().mul(sample_rate).div(S::ratio(1000, 1))).exp(),
            S::one().neg().div(S::ratio(10, 1).mul(sample_rate).div(S::ratio(1000, 1))).exp(),
        )
    }

    /// One sample: the follower moves; the gain is zero while the envelope is below
    /// the threshold, and one elsewhere.
    pub open spec fn tick_spec(
        &self,
        st: SpectralGateState<S>,
        x: S,
        coeffs: (S, S),
    ) -> (SpectralGateState<S>, S) {
        let envelope = follow(st.envelope, x.abs(), coeffs.0, coeffs.1);
        let target = if envelope.lt(self.threshold) {
            S::zero()
        } else {
            envelope
        };
        let gain = if envelope.gt(S::zero()) {
            target.div(envelope)
        } else {
            S::zero()
        };
        (SpectralGateState { envelope }, x.mul(gain))
    }

    /// Computes `tick_spec`.
    #[verifier::when_used_as_spec(tick_spec)]
    pub fn tick(
        &self,
        st: SpectralGateState<S>,
        x: S,
        coeffs: (S, S),
    ) -> (r: (SpectralGateState<S>, S))
        ensures
            S::obeys_sample_spec() ==> r == self.tick_spec(st, x, coeffs),
    {
        let envelope = follow(st.envelope, x.abs(), coeffs.0, coeffs.1);
        let target = if envelope.lt(self.threshold) {
            S::zero()
        } else {
            envelope
        };
        let gain = if envelope.gt(S::zero()) {
            target.div(envelope)
        } else {
            S::zero()
        };
        (SpectralGateState { envelope }, x.mul(gain))
    }

    /// The node as a recursion over the samples of a block: the state before
    /// sample `i` to the state after it and the sample put out.
    pub open spec fn stepper(
        &self,
        inputs: Seq<Seq<S>>,
        sample_rate: S,
    ) -> spec_fn(SpectralGateState<S>, int) -> (SpectralGateState<S>, S) {
        |st: SpectralGateState<S>, i: int| self.tick(st, inputs[0][i], self.prepare(sample_rate))
    }

    /// The inputs that the node declares.
    pub fn input_ports(&self) -> (r: Vec<Port>)
        ensures
            r@ == audio_ports(1),
    {
        make_audio_ports(1)
    }

    /// The outputs that the node declares.
    pub fn output_ports(&self) -> (r: Vec<Port>)
        ensures
            r@ == audio_ports(1),
    {
        make_audio_ports(1)
    }

    /// The number of inputs that must be connected.
    pub fn required_inputs(&self) -> (r: usize)
        ensures
            r == 1,
    {
        1
    }

    /// The state before the first sample.
    pub open spec fn fresh() -> SpectralGateState<S> {
        SpectralGateState { envelope: S::zero() }
    }

    /// Makes the state for one instance of the node.
    pub fn init_state(&self, _sample_rate: S, _block_size: usize) -> (st: SpectralGateState<S>)
        ensures
            S::obeys_sample_spec() ==> st == Self::fresh(),
    {
        SpectralGateState { envelope: S::zero() }
    }

    /// Puts the state back to what `init_state` returns.
    pub fn reset(&self, state: &mut SpectralGateState<S>)
        ensures
            S::obeys_sample_spec() ==> *final(state) == Self::fresh(),
    {
        *state = SpectralGateState { envelope: S::zero() };
    }

    /// Processes one block: runs the recursion over the samples of the block and
    /// writes output 0. A call whose slices do not fit is refused and changes
    /// nothing. Nothing is allocated.
    pub fn process_block(
        &self,
        state: &mut SpectralGateState<S>,
        inputs: &[&[S]],
        outputs: &mut [Vec<S>],
        sample_rate: S,
    ) -> (r: Result<(), ShapeError>)
        ensures
            r == shape_verdict(rows(inputs), cols(old(outputs)@), 1, 1, 1, 1),
            same_lens(final(outputs)@, old(outputs)@),
            same_from(final(outputs)@, old(outputs)@, 1),
            r.is_err() ==> *final(state) == *old(state) && final(outputs)@ == old(outputs)@,
            r.is_ok() && S::obeys_sample_spec() ==> renders(
                self.stepper(rows(inputs), sample_rate),
                *old(state),
                *final(state),
                final(outputs)@[0]@,
            ),
    {
        let n: usize = match check_block(inputs, outputs, 1, 1, 1, 1) {
            Ok(n) => n,
            Err(e) => {
                return Err(e);
            },
        };
        let ghost f = self.stepper(rows(inputs), sample_rate);
        let ghost st0 = *state;
        let prep = self.prepare(sample_rate);
        let mut i: usize = 0;
        while i < n
            invariant
                i <= n,
                inputs@.len() >= 1,
                outputs@.len() >= 1,
                outputs@[0]@.len() == n,
                forall|p: int| 0 <= p < 1 ==> (#[trigger] inputs@[p])@.len() == n,
                same_lens(outputs@, old(outputs)@),
                same_from(outputs@, old(outputs)@, 1),
                f == self.stepper(rows(inputs), sample_rate),
                S::obeys_sample_spec() ==> prep == self.prepare(sample_rate),
                S::obeys_sample_spec() ==> *state == state_after(f, st0, i as nat),
                S::obeys_sample_spec() ==> forall|j: int|
                    0 <= j < i ==> outputs@[0]@[j] == #[trigger] output_at(f, st0, j),
            decreases n - i,
        {
            let x = read_at(inputs, 0, i);
            let (next, y) = self.tick(*state, x, prep);
            *state = next;
            outputs[0][i] = y;
            i += 1;
        }
        Ok(())
    }
}

/// State of a pitch detector.
#[derive(Debug, Clone, Copy)]
pub struct PitchDetectorState<S> {
    /// The last input sample.
    pub prev_sample: S,
    /// The number of samples since the last zero crossing.
    pub period: S,
}

/// Pitch detector on zero crossings: at every crossing it puts out the sample
/// rate over the samples since the last one, and holds that value in between.
#[derive(Debug, Clone, Copy)]
pub struct PitchDetector;

impl PitchDetector {
    /// One sample. `held` is the sample put out before this one. At a crossing of
    /// zero the frequency `sample_rate / max(period, 1)` is put out and the count
    /// starts again; elsewhere `held` is put out once more.
    pub open spec fn tick_spec<S: Sample>(
        &self,
        st: PitchDetectorState<S>,
        x: S,
        held: S,
        sample_rate: S,
    ) -> (PitchDetectorState<S>, S) {
        let crossing = (st.prev_sample.le(S::zero()) && x.gt(S::zero())) || (st.prev_sample.ge(S::zero()) && x.lt(S::zero()));
        if crossing {
            (
                PitchDetectorState { prev_sample: x, period: S::zero().add(S::one()) },
                sample_rate.div(st.period.max(S::one())),
            )
        } else {
            (PitchDetectorState { prev_sample: x, period: st.period.add(S::one()) }, held)
        }
    }

    /// Computes `tick_spec`.
    #[verifier::when_used_as_spec(tick_spec)]
    pub fn tick<S: Sample>(
        &self,
        st: PitchDetectorState<S>,
        x: S,
        held: S,
        sample_rate: S,
    ) -> (r: (PitchDetectorState<S>, S))
        ensures
            S::obeys_sample_spec() ==> r == self.tick_spec(st, x, held, sample_rate),
    {
        let crossing = (st.prev_sample.le(S::zero()) && x.gt(S::zero())) || (st.prev_sample.ge(S::zero()) && x.lt(S::zero()));
        if crossing {
            (
                PitchDetectorState { prev_sample: x, period: S::zero().add(S::one()) },
                sample_rate.div(st.period.max(S::one())),
            )
        } else {
            (PitchDetectorState { prev_sample: x, period: st.period.add(S::one()) }, held)
        }
    }

    /// The node as a recursion over the samples of a block. The state of the
    /// recursion is the state of the node and the sample put out last.
    pub open spec fn stepper<S: Sample>(
        &self,
        inputs: Seq<Seq<S>>,
        sample_rate: S,
    ) -> spec_fn((PitchDetectorState<S>, S), int) -> (
        (PitchDetectorState<S>, S),
        S,
    ) {
        |st: (PitchDetectorState<S>, S), i: int|
            {
                let (next, y) = self.tick(st.0, inputs[0][i], st.1, sample_rate);
                ((next, y), y)
            }
    }

    /// The inputs that the node declares.
    pub fn input_ports(&self) -> (r: Vec<Port>)
        ensures
            r@ == audio_ports(1),
    {
        make_audio_ports(1)
    }

    /// The outputs that the node declares.
    pub fn output_ports(&self) -> (r: Vec<Port>)
        ensures
            r@ == audio_ports(1),
    {
        make_audio_ports(1)
    }

    /// The number of inputs that must be connected.
    pub fn required_inputs(&self) -> (r: usize)
        ensures
            r == 1,
    {
        1
    }

    /// The state before the first sample.
    pub open spec fn fresh<S: Sample>() -> PitchDetectorState<S> {
        PitchDetectorState { prev_sample: S::zero(), period: S::zero() }
    }

    /// Makes the state for one instance of the node.
    pub fn init_state<S: Sample>(
        &self,
        _sample_rate: S,
        _block_size: usize,
    ) -> (st: PitchDetectorState<S>)
        ensures
            S::obeys_sample_spec() ==> st == Self::fresh::<S>(),
    {
        PitchDetectorState { prev_sample: S::zero(), period: S::zero() }
    }

    /// Puts the state back to what `init_state` returns.
    pub fn reset<S: Sample>(&self, state: &mut PitchDetectorState<S>)
        ensures
            S::obeys_sample_spec() ==> *final(state) == Self::fresh::<S>(),
    {
        *state = PitchDetectorState { prev_sample: S::zero(), period: S::zero() };
    }

    /// Processes one block. Before the first crossing of a block the node holds
    /// the sample that output 0 carried at index 0 when the call was made.
    pub fn process_block<S: Sample>(
        &self,
        state: &mut PitchDetectorState<S>,
        inputs: &[&[S]],
        outputs: &mut [Vec<S>],
        sample_rate: S,
    ) -> (r: Result<(), ShapeError>)
        ensures
            r == shape_verdict(rows(inputs), cols(old(outputs)@), 1, 1, 1, 1),
            same_lens(final(outputs)@, old(outputs)@),
            same_from(final(outputs)@, old(outputs)@, 1),
            r.is_err() ==> *final(state) == *old(state) && final(outputs)@ == old(outputs)@,
            r.is_ok() && final(outputs)@[0]@.len() == 0 ==> *final(state) == *old(state),
            r.is_ok() && final(outputs)@[0]@.len() > 0 && S::obeys_sample_spec() ==> renders(
                self.stepper(rows(inputs), sample_rate),
                (*old(state), old(outputs)@[0]@[0]),
                (*final(state), final(outputs)@[0]@.last()),
                final(outputs)@[0]@,
            ),
    {
        let n: usize = match check_block(inputs, outputs, 1, 1, 1, 1) {
            Ok(n) => n,
            Err(e) => {
                return Err(e);
            },
        };
        if n == 0 {
            return Ok(());
        }
        let ghost f = self.stepper(rows(inputs), sample_rate);
        let mut held = outputs[0][0];
        let ghost st0 = (*state, held);
        let mut i: usize = 0;
        while i < n
            invariant
                i <= n,
                n > 0,
                inputs@.len() >= 1,
                outputs@.len() >= 1,
                outputs@[0]@.len() == n,
                forall|p: int| 0 <= p < 1 ==> (#[trigger] inputs@[p])@.len() == n,
                same_lens(outputs@, old(outputs)@),
                same_from(outputs@, old(outputs)@, 1),
                f == self.stepper(rows(inputs), sample_rate),
                st0.1 == old(outputs)@[0]@[0],
                st0.0 == *old(state),
                i > 0 ==> held == outputs@[0]@[i - 1],
                S::obeys_sample_spec() ==> (*state, held) == state_after(f, st0, i as nat),
                S::obeys_sample_spec() ==> forall|j: int|
                    0 <= j < i ==> outputs@[0]@[j] == #[trigger] output_at(f, st0, j),
            decreases n - i,
        {
            let x = read_at(inputs, 0, i);
            let (next, y) = self.tick(*state, x, held, sample_rate);
            *state = next;
            held = y;
            outputs[0][i] = y;
            i += 1;
        }
        Ok(())
    }
}

} // verus!
