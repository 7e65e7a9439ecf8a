//! Oscillators on a phase accumulator, noise generators, and a constant source.

use crate::block::{
    audio_ports, check_block, cols, make_audio_ports, output_at, renders, rows, same_from,
    same_lens, shape_verdict, state_after, Port, ShapeError,
};
use crate::helpers::{freq_to_phase_increment, polyblep};
use crate::sample::Sample;
use vstd::prelude::*;

verus! {

/// State of a single-voice oscillator: its phase in `[0, 1)`.
#[derive(Debug, Clone, Copy)]
pub struct OscState<S> {
    pub phase: S,
}

/// The part of a turn that a frequency covers per sample.
pub open spec fn phase_step_spec<S: Sample>(freq: S, sample_rate: S) -> S {
    freq_to_phase_increment(freq, sample_rate).div(S::ratio(2, 1).mul(S::pi()))
}

/// Computes `phase_step_spec`.
#[verifier::when_used_as_spec(phase_step_spec)]
pub fn phase_step<S: Sample>(freq: S, sample_rate: S) -> (r: S)
    ensures
        S::obeys_sample_spec() ==> r == phase_step_spec::<S>(freq, sample_rate),
{
    freq_to_phase_increment(freq, sample_rate).div(S::ratio(2, 1).mul(S::pi()))
}

/// A phase moved on by a step and wrapped once at one.
pub open spec fn advance_phase_spec<S: Sample>(phase: S, inc: S) -> S {
    let next = phase.add(inc);
    if next.ge(S::one()) {
        next.sub(S::one())
    } else {
        next
    }
}

/// Computes `advance_phase_spec`.
#[verifier::when_used_as_spec(advance_phase_spec)]
pub fn advance_phase<S: Sample>(phase: S, inc: S) -> (r: S)
    ensures
        S::obeys_sample_spec() ==> r == advance_phase_spec::<S>(phase, inc),
{
    let next = phase.add(inc);
    if next.ge(S::one()) {
        next.sub(S::one())
    } else {
        next
    }
}

/// Band-limited sawtooth oscillator.
#[derive(Debug, Clone, Copy)]
pub struct SawOsc<S> {
    pub freq: S,
}

impl<S: Sample> SawOsc<S> {
    pub fn new(freq: S) -> (r: Self)
        ensures
            r == (SawOsc { freq }),
    {
        SawOsc { freq }
    }

    /// The phase step per sample at a sample rate; it is the same for every sample
    /// of a block.
    pub open spec fn prepare_spec(&self, sample_rate: S) -> S {
        phase_step(self.freq, sample_rate)
    }

    /// Computes `prepare_spec`.
    #[verifier::when_used_as_spec(prepare_spec)]
    pub fn prepare(&self, sample_rate: S) -> (r: S)
        ensures
            S::obeys_sample_spec() ==> r == self.prepare_spec(sample_rate),
    {
        phase_step(self.freq, sample_rate)
    }

    /// One sample: the ramp `2 r - 1` of the phase moved on by half a turn, `r`,
    /// less the step correction at the wrap of `r`. At phase zero the ramp is at
    /// zero; it rises to one at half a turn, steps to minus one and rises to zero
    /// again.
    pub open spec fn tick_spec(&self, st: OscState<S>, inc: S) -> (OscState<S>, S) {
        let ramp = advance_phase(st.phase, S::ratio(5, 10));
        let y = S::ratio(2, 1).mul(ramp).sub(S::one()).sub(polyblep(ramp, inc));
        (OscState { phase: advance_phase(st.phase, inc) }, y)
    }

    /// Computes `tick_spec`.
    #[verifier::when_used_as_spec(tick_spec)]
    pub fn tick(&self, st: OscState<S>, inc: S) -> (r: (OscState<S>, S))
        ensures
            S::obeys_sample_spec() ==> r == self.tick_spec(st, inc),
    {
        let ramp = advance_phase(st.phase, S::ratio(5, 10));
        let y = S::ratio(2, 1).mul(ramp).sub(S::one()).sub(polyblep(ramp, inc));
        (OscState { phase: advance_phase(st.phase, inc) }, y)
    }

    /// The node as a recursion over the samples of a block: the state before
    /// sample `i` to the state after it and the sample put out.
    pub open spec fn stepper(
        &self,
        inputs: Seq<Seq<S>>,
        sample_rate: S,
    ) -> spec_fn(OscState<S>, int) -> (OscState<S>, S) {
        |st: OscState<S>, i: int| self.tick(st, self.prepare(sample_rate))
    }

    /// The inputs that the node declares.
    pub fn input_ports(&self) -> (r: Vec<Port>)
        ensures
            r@ == audio_ports(0),
    {
        make_audio_ports(0)
    }

    /// The outputs that the node declares.
    pub fn output_ports(&self) -> (r: Vec<Port>)
        ensures
            r@ == audio_ports(1),
    {
        make_audio_ports(1)
    }

    /// The number of inputs that must be connected.
    pub fn required_inputs(&self) -> (r: usize)
        ensures
            r == 0,
    {
        0
    }

    /// The state before the first sample.
    pub open spec fn fresh() -> OscState<S> {
        OscState { phase: S::zero() }
    }

    /// Makes the state for one instance of the node.
    pub fn init_state(&self, _sample_rate: S, _block_size: usize) -> (st: OscState<S>)
        ensures
            S::obeys_sample_spec() ==> st == Self::fresh(),
    {
        OscState { phase: S::zero() }
    }

    /// Puts the state back to what `init_state` returns.
    pub fn reset(&self, state: &mut OscState<S>)
        ensures
            S::obeys_sample_spec() ==> *final(state) == Self::fresh(),
    {
        *state = OscState { phase: S::zero() };
    }

    /// Processes one block: runs the recursion over the samples of the block and
    /// writes output 0. A call whose slices do not fit is refused and changes
    /// nothing. Nothing is allocated.
    pub fn process_block(
        &self,
        state: &mut OscState<S>,
        inputs: &[&[S]],
        outputs: &mut [Vec<S>],
        sample_rate: S,
    ) -> (r: Result<(), ShapeError>)
        ensures
            r == shape_verdict(rows(inputs), cols(old(outputs)@), 0, 0, 0, 1),
            same_lens(final(outputs)@, old(outputs)@),
            same_from(final(outputs)@, old(outputs)@, 1),
            r.is_err() ==> *final(state) == *old(state) && final(outputs)@ == old(outputs)@,
            r.is_ok() && S::obeys_sample_spec() ==> renders(
                self.stepper(rows(inputs), sample_rate),
                *old(state),
                *final(state),
                final(outputs)@[0]@,
            ),
    {
        let n: usize = match check_block(inputs, outputs, 0, 0, 0, 1) {
            Ok(n) => n,
            Err(e) => {
                return Err(e);
            },
        };
        let ghost f = self.stepper(rows(inputs), sample_rate);
        let ghost st0 = *state;
        let prep = self.prepare(sample_rate);
        let mut i: usize = 0;
        while i < n
            invariant
                i <= n,
                inputs@.len() >= 0,
                outputs@.len() >= 1,
                outputs@[0]@.len() == n,
                same_lens(outputs@, old(outputs)@),
                same_from(outputs@, old(outputs)@, 1),
                f == self.stepper(rows(inputs), sample_rate),
                S::obeys_sample_spec() ==> prep == self.prepare(sample_rate),
                S::obeys_sample_spec() ==> *state == state_after(f, st0, i as nat),
                S::obeys_sample_spec() ==> forall|j: int|
                    0 <= j < i ==> outputs@[0]@[j] == #[trigger] output_at(f, st0, j),
            decreases n - i,
        {
            let (next, y) = self.tick(*state, prep);
            *state = next;
            outputs[0][i] = y;
            i += 1;
        }
        Ok(())
    }
}

/// Band-limited square oscillator. The pulse width is held in `[0.01, 0.99]`.
#[derive(Debug, Clone, Copy)]
pub struct SquareOsc<S> {
    pub freq: S,
    pub pulse_width: S,
}

impl<S: Sample> SquareOsc<S> {
    /// The phase step per sample at a sample rate; it is the same for every sample
    /// of a block.
    pub open spec fn prepare_spec(&self, sample_rate: S) -> S {
        phase_step(self.freq, sample_rate)
    }

    /// Computes `prepare_spec`.
    #[verifier::when_used_as_spec(prepare_spec)]
    pub fn prepare(&self, sample_rate: S) -> (r: S)
        ensures
            S::obeys_sample_spec() ==> r == self.prepare_spec(sample_rate),
    {
        phase_step(self.freq, sample_rate)
    }

    /// One sample: one below the pulse width and minus one above it, with the step
    /// correction at both edges.
    pub open spec fn tick_spec(&self, st: OscState<S>, inc: S) -> (OscState<S>, S) {
        let pw = self.pulse_width.clamp(S::ratio(1, 100), S::ratio(99, 100));
        let base = if st.phase.lt(pw) {
            S::one()
        } else {
            S::one().neg()
        };
        let rising = base.add(polyblep(st.phase, inc));
        let phase_pw = st.phase.sub(pw).add(S::one()).rem(S::one());
        let y = rising.sub(polyblep(phase_pw, inc));
        (OscState { phase: advance_phase(st.phase, inc) }, y)
    }

    /// Computes `tick_spec`.
    #[verifier::when_used_as_spec(tick_spec)]
    pub fn tick(&self, st: OscState<S>, inc: S) -> (r: (OscState<S>, S))
        ensures
            S::obeys_sample_spec() ==> r == self.tick_spec(st, inc),
    {
        let pw = self.pulse_width.clamp(S::ratio(1, 100), S::ratio(99, 100));
        let base = if st.phase.lt(pw) {
            S::one()
        } else {
            S::one().neg()
        };
        let rising = base.add(polyblep(st.phase, inc));
        let phase_pw = st.phase.sub(pw).add(S::one()).rem(S::one());
        let y = rising.sub(polyblep(phase_pw, inc));
        (OscState { phase: advance_phase(st.phase, inc) }, y)
    }

    /// The node as a recursion over the samples of a block: the state before
    /// sample `i` to the state after it and the sample put out.
    pub open spec fn stepper(
        &self,
        inputs: Seq<Seq<S>>,
        sample_rate: S,
    ) -> spec_fn(OscState<S>, int) -> (OscState<S>, S) {
        |st: OscState<S>, i: int| self.tick(st, self.prepare(sample_rate))
    }

    /// The inputs that the node declares.
    pub fn input_ports(&self) -> (r: Vec<Port>)
        ensures
            r@ == audio_ports(0),
    {
        make_audio_ports(0)
    }

    /// The outputs that the node declares.
    pub fn output_ports(&self) -> (r: Vec<Port>)
        ensures
            r@ == audio_ports(1),
    {
        make_audio_ports(1)
    }

    /// The number of inputs that must be connected.
    pub fn required_inputs(&self) -> (r: usize)
        ensures
            r == 0,
    {
        0
    }

    /// The state before the first sample.
    pub open spec fn fresh() -> OscState<S> {
        OscState { phase: S::zero() }
    }

    /// Makes the state for one instance of the node.
    pub fn init_state(&self, _sample_rate: S, _block_size: usize) -> (st: OscState<S>)
        ensures
            S::obeys_sample_spec() ==> st == Self::fresh(),
    {
        OscState { phase: S::zero() }
    }

    /// Puts the state back to what `init_state` returns.
    pub fn reset(&self, state: &mut OscState<S>)
        ensures
            S::obeys_sample_spec() ==> *final(state) == Self::fresh(),
    {
        *state = OscState { phase: S::zero() };
    }

    /// Processes one block: runs the recursion over the samples of the block and
    /// writes output 0. A call whose slices do not fit is refused and changes
    /// nothing. Nothing is allocated.
    pub fn process_block(
        &self,
        state: &mut OscState<S>,
        inputs: &[&[S]],
        outputs: &mut [Vec<S>],
        sample_rate: S,
    ) -> (r: Result<(), ShapeError>)
        ensures
            r == shape_verdict(rows(inputs), cols(old(outputs)@), 0, 0, 0, 1),
            same_lens(final(outputs)@, old(outputs)@),
            same_from(final(outputs)@, old(outputs)@, 1),
            r.is_err() ==> *final(state) == *old(state) && final(outputs)@ == old(outputs)@,
            r.is_ok() && S::obeys_sample_spec() ==> renders(
                self.stepper(rows(inputs), sample_rate),
                *old(state),
                *final(state),
                final(outputs)@[0]@,
            ),
    {
        let n: usize = match check_block(inputs, outputs, 0, 0, 0, 1) {
            Ok(n) => n,
            Err(e) => {
                return Err(e);
            },
        };
        let ghost f = self.stepper(rows(inputs), sample_rate);
        let ghost st0 = *state;
        let prep = self.prepare(sample_rate);
        let mut i: usize = 0;
        while i < n
            invariant
                i <= n,
                inputs@.len() >= 0,
                outputs@.len() >= 1,
                outputs@[0]@.len() == n,
                same_lens(outputs@, old(outputs)@),
                same_from(outputs@, old(outputs)@, 1),
                f == self.stepper(rows(inputs), sample_rate),
                S::obeys_sample_spec() ==> prep == self.prepare(sample_rate),
                S::obeys_sample_spec() ==> *state == state_after(f, st0, i as nat),
                S::obeys_sample_spec() ==> forall|j: int|
                    0 <= j < i ==> outputs@[0]@[j] == #[trigger] output_at(f, st0, j),
            decreases n - i,
        {
            let (next, y) = self.tick(*state, prep);
            *state = next;
            outputs[0][i] = y;
            i += 1;
        }
        Ok(())
    }
}

/// Triangle oscillator, shaped by a sine.
#[derive(Debug, Clone, Copy)]
pub struct TriangleOsc<S> {
    pub freq: S,
}

impl<S: Sample> TriangleOsc<S> {
    /// The phase step per sample at a sample rate; it is the same for every sample
    /// of a block.
    pub open spec fn prepare_spec(&self, sample_rate: S) -> S {
        phase_step(self.freq, sample_rate)
    }

    /// Computes `prepare_spec`.
    #[verifier::when_used_as_spec(prepare_spec)]
    pub fn prepare(&self, sample_rate: S) -> (r: S)
        ensures
            S::obeys_sample_spec() ==> r == self.prepare_spec(sample_rate),
    {
        phase_step(self.freq, sample_rate)
    }

    /// One sample: `(2 / pi) sin(|saw| pi / 2 - pi / 4)` of the ramp `saw = 2 phase
    /// - 1`.
    pub open spec fn tick_spec(&self, st: OscState<S>, inc: S) -> (OscState<S>, S) {
        let saw = S::ratio(2, 1).mul(st.phase).sub(S::one());
        let y = S::ratio(2, 1).div(S::pi())
            .mul(saw.abs().mul(S::pi()).div(S::ratio(2, 1)).sub(S::pi().div(S::ratio(4, 1))).sin());
        (OscState { phase: advance_phase(st.phase, inc) }, y)
    }

    /// Computes `tick_spec`.
    #[verifier::when_used_as_spec(tick_spec)]
    pub fn tick(&self, st: OscState<S>, inc: S) -> (r: (OscState<S>, S))
        ensures
            S::obeys_sample_spec() ==> r == self.tick_spec(st, inc),
    {
        let saw = S::ratio(2, 1).mul(st.phase).sub(S::one());
        let y = S::ratio(2, 1).div(S::pi())
            .mul(saw.abs().mul(S::pi()).div(S::ratio(2, 1)).sub(S::pi().div(S::ratio(4, 1))).sin());
        (OscState { phase: advance_phase(st.phase, inc) }, y)
    }

    /// The node as a recursion over the samples of a block: the state before
    /// sample `i` to the state after it and the sample put out.
    pub open spec fn stepper(
        &self,
        inputs: Seq<Seq<S>>,
        sample_rate: S,
    ) -> spec_fn(OscState<S>, int) -> (OscState<S>, S) {
        |st: OscState<S>, i: int| self.tick(st, self.prepare(sample_rate))
    }

    /// The inputs that the node declares.
    pub fn input_ports(&self) -> (r: Vec<Port>)
        ensures
            r@ == audio_ports(0),
    {
        make_audio_ports(0)
    }

    /// The outputs that the node declares.
    pub fn output_ports(&self) -> (r: Vec<Port>)
        ensures
            r@ == audio_ports(1),
    {
        make_audio_ports(1)
    }

    /// The number of inputs that must be connected.
    pub fn required_inputs(&self) -> (r: usize)
        ensures
            r == 0,
    {
        0
    }

    /// The state before the first sample.
    pub open spec fn fresh() -> OscState<S> {
        OscState { phase: S::zero() }
    }

    /// Makes the state for one instance of the node.
    pub fn init_state(&self, _sample_rate: S, _block_size: usize) -> (st: OscState<S>)
        ensures
            S::obeys_sample_spec() ==> st == Self::fresh(),
    {
        OscState { phase: S::zero() }
    }

    /// Puts the state back to what `init_state` returns.
    pub fn reset(&self, state: &mut OscState<S>)
        ensures
            S::obeys_sample_spec() ==> *final(state) == Self::fresh(),
    {
        *state = OscState { phase: S::zero() };
    }

    /// Processes one block: runs the recursion over the samples of the block and
    /// writes output 0. A call whose slices do not fit is refused and changes
    /// nothing. Nothing is allocated.
    pub fn process_block(
        &self,
        state: &mut OscState<S>,
        inputs: &[&[S]],
        outputs: &mut [Vec<S>],
        sample_rate: S,
    ) -> (r: Result<(), ShapeError>)
        ensures
            r == shape_verdict(rows(inputs), cols(old(outputs)@), 0, 0, 0, 1),
            same_lens(final(outputs)@, old(outputs)@),
            same_from(final(outputs)@, old(outputs)@, 1),
            r.is_err() ==> *final(state) == *old(state) && final(outputs)@ == old(outputs)@,
            r.is_ok() && S::obeys_sample_spec() ==> renders(
                self.stepper(rows(inputs), sample_rate),
                *old(state),
                *final(state),
                final(outputs)@[0]@,
            ),
    {
        let n: usize = match check_block(inputs, outputs, 0, 0, 0, 1) {
            Ok(n) => n,
            Err(e) => {
                return Err(e);
            },
        };
        let ghost f = self.stepper(rows(inputs), sample_rate);
        let ghost st0 = *state;
        let prep = self.prepare(sample_rate);
        let mut i: usize = 0;
        while i < n
            invariant
                i <= n,
                inputs@.len() >= 0,
                outputs@.len() >= 1,
                outputs@[0]@.len() == n,
                same_lens(outputs@, old(outputs)@),
                same_from(outputs@, old(outputs)@, 1),
                f == self.stepper(rows(inputs), sample_rate),
                S::obeys_sample_spec() ==> prep == self.prepare(sample_rate),
                S::obeys_sample_spec() ==> *state == state_after(f, st0, i as nat),
                S::obeys_sample_spec() ==> forall|j: int|
                    0 <= j < i ==> outputs@[0]@[j] == #[trigger] output_at(f, st0, j),
            decreases n - i,
        {
            let (next, y) = self.tick(*state, prep);
            *state = next;
            outputs[0][i] = y;
            i += 1;
        }
        Ok(())
    }
}

/// Pulse oscillator without band limiting. The pulse width is held in `[0.01,
/// 0.99]`.
#[derive(Debug, Clone, Copy)]
pub struct PulseOsc<S> {
    pub freq: S,
    pub pulse_width: S,
}

impl<S: Sample> PulseOsc<S> {
    /// The phase step per sample at a sample rate; it is the same for every sample
    /// of a block.
    pub open spec fn prepare_spec(&self, sample_rate: S) -> S {
        phase_step(self.freq, sample_rate)
    }

    /// Computes `prepare_spec`.
    #[verifier::when_used_as_spec(prepare_spec)]
    pub fn prepare(&self, sample_rate: S) -> (r: S)
        ensures
            S::obeys_sample_spec() ==> r == self.prepare_spec(sample_rate),
    {
        phase_step(self.freq, sample_rate)
    }

    /// One sample: one below the pulse width, minus one above it.
    pub open spec fn tick_spec(&self, st: OscState<S>, inc: S) -> (OscState<S>, S) {
        let pw = self.pulse_width.clamp(S::ratio(1, 100), S::ratio(99, 100));
        let y = if st.phase.lt(pw) {
            S::one()
        } else {
            S::one().neg()
        };
        (OscState { phase: advance_phase(st.phase, inc) }, y)
    }

    /// Computes `tick_spec`.
    #[verifier::when_used_as_spec(tick_spec)]
    pub fn tick(&self, st: OscState<S>, inc: S) -> (r: (OscState<S>, S))
        ensures
            S::obeys_sample_spec() ==> r == self.tick_spec(st, inc),
    {
        let pw = self.pulse_width.clamp(S::ratio(1, 100), S::ratio(99, 100));
        let y = if st.phase.lt(pw) {
            S::one()
        } else {
            S::one().neg()
        };
        (OscState { phase: advance_phase(st.phase, inc) }, y)
    }

    /// The node as a recursion over the samples of a block: the state before
    /// sample `i` to the state after it and the sample put out.
    pub open spec fn stepper(
        &self,
        inputs: Seq<Seq<S>>,
        sample_rate: S,
    ) -> spec_fn(OscState<S>, int) -> (OscState<S>, S) {
        |st: OscState<S>, i: int| self.tick(st, self.prepare(sample_rate))
    }

    /// The inputs that the node declares.
    pub fn input_ports(&self) -> (r: Vec<Port>)
        ensures
            r@ == audio_ports(0),
    {
        make_audio_ports(0)
    }

    /// The outputs that the node declares.
    pub fn output_ports(&self) -> (r: Vec<Port>)
        ensures
            r@ == audio_ports(1),
    {
        make_audio_ports(1)
    }

    /// The number of inputs that must be connected.
    pub fn required_inputs(&self) -> (r: usize)
        ensures
            r == 0,
    {
        0
    }

    /// The state before the first sample.
    pub open spec fn fresh() -> OscState<S> {
        OscState { phase: S::zero() }
    }

    /// Makes the state for one instance of the node.
    pub fn init_state(&self, _sample_rate: S, _block_size: usize) -> (st: OscState<S>)
        ensures
            S::obeys_sample_spec() ==> st == Self::fresh(),
    {
        OscState { phase: S::zero() }
    }

    /// Puts the state back to what `init_state` returns.
    pub fn reset(&self, state: &mut OscState<S>)
        ensures
            S::obeys_sample_spec() ==> *final(state) == Self::fresh(),
    {
        *state = OscState { phase: S::zero() };
    }

    /// Processes one block: runs the recursion over the samples of the block and
    /// writes output 0. A call whose slices do not fit is refused and changes
    /// nothing. Nothing is allocated.
    pub fn process_block(
        &self,
        state: &mut OscState<S>,
        inputs: &[&[S]],
        outputs: &mut [Vec<S>],
        sample_rate: S,
    ) -> (r: Result<(), ShapeError>)
        ensures
            r == shape_verdict(rows(inputs), cols(old(outputs)@), 0, 0, 0, 1),
            same_lens(final(outputs)@, old(outputs)@),
            same_from(final(outputs)@, old(outputs)@, 1),
            r.is_err() ==> *final(state) == *old(state) && final(outputs)@ == old(outputs)@,
            r.is_ok() && S::obeys_sample_spec() ==> renders(
                self.stepper(rows(inputs), sample_rate),
                *old(state),
                *final(state),
                final(outputs)@[0]@,
            ),
    {
        let n: usize = match check_block(inputs, outputs, 0, 0, 0, 1) {
            Ok(n) => n,
            Err(e) => {
                return Err(e);
            },
        };
        let ghost f = self.stepper(rows(inputs), sample_rate);
        let ghost st0 = *state;
        let prep = self.prepare(sample_rate);
        let mut i: usize = 0;
        while i < n
            invariant
                i <= n,
                inputs@.len() >= 0,
                outputs@.len() >= 1,
                outputs@[0]@.len() == n,
                same_lens(outputs@, old(outputs)@),
                same_from(outputs@, old(outputs)@, 1),
                f == self.stepper(rows(inputs), sample_rate),
                S::obeys_sample_spec() ==> prep == self.prepare(sample_rate),
                S::obeys_sample_spec() ==> *state == state_after(f, st0, i as nat),
                S::obeys_sample_spec() ==> forall|j: int|
                    0 <= j < i ==> outputs@[0]@[j] == #[trigger] output_at(f, st0, j),
            decreases n - i,
        {
            let (next, y) = self.tick(*state, prep);
            *state = next;
            outputs[0][i] = y;
            i += 1;
        }
        Ok(())
    }
}

/// Oscillator that reads a table once per period, without interpolation.
/// With an empty table it puts out silence.
#[derive(Debug, Clone)]
pub struct WavetableOsc<S> {
    pub freq: S,
    pub table: Vec<S>,
}

impl<S: Sample> WavetableOsc<S> {
    /// The table position that a phase reads.
    pub open spec fn table_index(&self, phase: S) -> int {
        (phase.mul(S::from_usize(self.table@.len() as usize)).to_usize() as int) % (self.table@.len() as int)
    }

    /// One sample: the table entry at the phase, or zero for an empty table,
    /// in which case the phase stays.
    pub open spec fn tick_spec(&self, st: OscState<S>, inc: S) -> (OscState<S>, S) {
        if self.table@.len() == 0 {
            (st, S::zero())
        } else {
            (
                OscState { phase: advance_phase(st.phase, inc) },
                self.table@[self.table_index(st.phase)],
            )
        }
    }

    /// Computes `tick_spec`.
    pub fn tick(&self, st: OscState<S>, inc: S) -> (r: (OscState<S>, S))
        ensures
            S::obeys_sample_spec() ==> r == self.tick_spec(st, inc),
    {
        let len: usize = self.table.len();
        if len == 0 {
            return (st, S::zero());
        }
        let idx: usize = st.phase.mul(S::from_usize(len)).to_usize() % len;
        (OscState { phase: advance_phase(st.phase, inc) }, self.table[idx])
    }

    /// The phase step per sample at a sample rate.
    pub open spec fn prepare_spec(&self, sample_rate: S) -> S {
        phase_step(self.freq, sample_rate)
    }

    /// Computes `prepare_spec`.
    #[verifier::when_used_as_spec(prepare_spec)]
    pub fn prepare(&self, sample_rate: S) -> (r: S)
        ensures
            S::obeys_sample_spec() ==> r == self.prepare_spec(sample_rate),
    {
        phase_step(self.freq, sample_rate)
    }

    /// The node as a recursion over the samples of a block: the state before
    /// sample `i` to the state after it and the sample put out.
    pub open spec fn stepper(
        &self,
        inputs: Seq<Seq<S>>,
        sample_rate: S,
    ) -> spec_fn(OscState<S>, int) -> (
        OscState<S>,
        S,
    ) {
        |st: OscState<S>, i: int| self.tick_spec(st, self.prepare(sample_rate))
    }

    /// The inputs that the node declares.
    pub fn input_ports(&self) -> (r: Vec<Port>)
        ensures
            r@ == audio_ports(0),
    {
        make_audio_ports(0)
    }

    /// The outputs that the node declares.
    pub fn output_ports(&self) -> (r: Vec<Port>)
        ensures
            r@ == audio_ports(1),
    {
        make_audio_ports(1)
    }

    /// The number of inputs that must be connected.
    pub fn required_inputs(&self) -> (r: usize)
        ensures
            r == 0,
    {
        0
    }

    /// The state before the first sample.
    pub open spec fn fresh() -> OscState<S> {
        OscState { phase: S::zero() }
    }

    /// Makes the state for one instance of the node.
    pub fn init_state(&self, _sample_rate: S, _block_size: usize) -> (st: OscState<S>)
        ensures
            S::obeys_sample_spec() ==> st == Self::fresh(),
    {
        OscState { phase: S::zero() }
    }

    /// Puts the state back to what `init_state` returns.
    pub fn reset(&self, state: &mut OscState<S>)
        ensures
            S::obeys_sample_spec() ==> *final(state) == Self::fresh(),
    {
        *state = OscState { phase: S::zero() };
    }

    /// Processes one block: runs the recursion over the samples of the block and
    /// writes output 0. A call whose slices do not fit is refused and changes
    /// nothing. Nothing is allocated.
    pub fn process_block(
        &self,
        state: &mut OscState<S>,
        inputs: &[&[S]],
        outputs: &mut [Vec<S>],
        sample_rate: S,
    ) -> (r: Result<(), ShapeError>)
        ensures
            r == shape_verdict(rows(inputs), cols(old(outputs)@), 0, 0, 0, 1),
            same_lens(final(outputs)@, old(outputs)@),
            same_from(final(outputs)@, old(outputs)@, 1),
            r.is_err() ==> *final(state) == *old(state) && final(outputs)@ == old(outputs)@,
            r.is_ok() && S::obeys_sample_spec() ==> renders(
                self.stepper(rows(inputs), sample_rate),
                *old(state),
                *final(state),
                final(outputs)@[0]@,
            ),
    {
        let n: usize = match check_block(inputs, outputs, 0, 0, 0, 1) {
            Ok(n) => n,
            Err(e) => {
                return Err(e);
            },
        };
        let ghost f = self.stepper(rows(inputs), sample_rate);
        let ghost st0 = *state;
        let prep = self.prepare(sample_rate);
        let mut i: usize = 0;
        while i < n
            invariant
                i <= n,
                inputs@.len() >= 0,
                outputs@.len() >= 1,
                outputs@[0]@.len() == n,
                same_lens(outputs@, old(outputs)@),
                same_from(outputs@, old(outputs)@, 1),
                f == self.stepper(rows(inputs), sample_rate),
                S::obeys_sample_spec() ==> prep == self.prepare(sample_rate),
                S::obeys_sample_spec() ==> *state == state_after(f, st0, i as nat),
                S::obeys_sample_spec() ==> forall|j: int|
                    0 <= j < i ==> outputs@[0]@[j] == #[trigger] output_at(f, st0, j),
            decreases n - i,
        {
            let (next, y) = self.tick(*state, prep);
            *state = next;
            outputs[0][i] = y;
            i += 1;
        }
        Ok(())
    }
}

/// State of a multi-voice oscillator: one phase per voice.
#[derive(Debug, Clone)]
pub struct MultiPhaseState<S> {
    pub phases: Vec<S>,
}

impl<S> View for MultiPhaseState<S> {
    type V = Seq<S>;

    open spec fn view(&self) -> Seq<S> {
        self.phases@
    }
}

impl<S> MultiPhaseState<S> {
    /// Whether two states have as many voices.
    pub open spec fn same_size(&self, other: &MultiPhaseState<S>) -> bool {
        self.phases@.len() == other.phases@.len()
    }
}

/// Several detuned sawtooth voices, summed and divided by their number. The
/// detune factors lie evenly around one.
#[derive(Debug, Clone, Copy)]
pub struct SuperSaw<S> {
    pub freq: S,
    pub detune: S,
    pub voices: usize,
}

impl<S: Sample> SuperSaw<S> {
    /// The phase step of voice `i` of `voices`: the base step times
    /// `1 + detune * (i - (voices - 1) / 2) / voices`.
    pub open spec fn voice_step_spec(i: usize, voices: usize, base_inc: S, detune: S) -> S {
        base_inc
            .mul(
                S::one().add(
                    detune.mul(
                        S::from_usize(i).sub(
                            S::from_usize(voices).sub(S::one()).div(S::ratio(2, 1)),
                        ),
                    ).div(S::from_usize(voices)),
                ),
            )
    }

    /// Computes `voice_step_spec`.
    #[verifier::when_used_as_spec(voice_step_spec)]
    pub fn voice_step(i: usize, voices: usize, base_inc: S, detune: S) -> (r: S)
        ensures
            S::obeys_sample_spec() ==> r == Self::voice_step_spec(i, voices, base_inc, detune),
    {
        base_inc
            .mul(
                S::one().add(
                    detune.mul(
                        S::from_usize(i).sub(
                            S::from_usize(voices).sub(S::one()).div(S::ratio(2, 1)),
                        ),
                    ).div(S::from_usize(voices)),
                ),
            )
    }

    /// The sum of the ramps `2 phase - 1` of the first `k` voices, added up in
    /// order.
    pub open spec fn ramp_sum(phases: Seq<S>, k: nat) -> S
        decreases k,
    {
        if k == 0 {
            S::zero()
        } else {
            let phase = phases[k - 1];
            Self::ramp_sum(phases, (k - 1) as nat).add(S::ratio(2, 1).mul(phase).sub(S::one()))
        }
    }

    /// The phases after one sample: each voice moved on by its own step.
    pub open spec fn phases_after(phases: Seq<S>, base_inc: S, detune: S) -> Seq<S> {
        Seq::new(
            phases.len(),
            |i: int| advance_phase(
                phases[i],
                Self::voice_step(i as usize, phases.len() as usize, base_inc, detune),
            ),
        )
    }

    /// One sample of all voices.
    pub open spec fn tick_spec(&self, phases: Seq<S>, base_inc: S) -> (Seq<S>, S) {
        let voices = if phases.len() == 0 { 1usize } else { phases.len() as usize };
        (
            Self::phases_after(phases, base_inc, self.detune.max(S::zero())),
            Self::ramp_sum(phases, phases.len()).div(S::from_usize(voices)),
        )
    }

    /// Performs `tick_spec` on the state in place and returns the sample.
    pub fn tick(&self, st: &mut MultiPhaseState<S>, base_inc: S) -> (y: S)
        ensures
            final(st).same_size(old(st)),
            S::obeys_sample_spec() ==> (final(st)@, y) == self.tick_spec(old(st)@, base_inc),
    {
        let count: usize = st.phases.len();
        let voices: usize = if count == 0 { 1 } else { count };
        let detune = self.detune.max(S::zero());
        let ghost before = st.phases@;
        let mut acc = S::zero();
        let mut i: usize = 0;
        while i < count
            invariant
                i <= count,
                count == before.len(),
                st.phases@.len() == count,
                voices == (if count == 0 { 1usize } else { count }),
                S::obeys_sample_spec() ==> detune == self.detune.max(S::zero()),
                S::obeys_sample_spec() ==> acc == Self::ramp_sum(before, i as nat),
                forall|j: int| i <= j < count ==> st.phases@[j] == before[j],
                S::obeys_sample_spec() ==> forall|j: int|
                    0 <= j < i ==> st.phases@[j] == advance_phase(
                        before[j],
                        Self::voice_step(j as usize, count, base_inc, detune),
                    ),
            decreases count - i,
        {
            let phase = st.phases[i];
            acc = acc.add(S::ratio(2, 1).mul(phase).sub(S::one()));
            let next = advance_phase(phase, Self::voice_step(i, voices, base_inc, detune));
            st.phases[i] = next;
            i += 1;
        }
        proof {
            if S::obeys_sample_spec() {
                assert(st.phases@ =~= Self::phases_after(before, base_inc, detune));
            }
        }
        acc.div(S::from_usize(voices))
    }

    /// The phase step per sample of the base frequency at a sample rate.
    pub open spec fn prepare_spec(&self, sample_rate: S) -> S {
        phase_step(self.freq, sample_rate)
    }

    /// Computes `prepare_spec`.
    #[verifier::when_used_as_spec(prepare_spec)]
    pub fn prepare(&self, sample_rate: S) -> (r: S)
        ensures
            S::obeys_sample_spec() ==> r == self.prepare_spec(sample_rate),
    {
        phase_step(self.freq, sample_rate)
    }

    /// The node as a recursion over the samples of a block: the state before
    /// sample `i` to the state after it and the sample put out.
    pub open spec fn stepper(
        &self,
        inputs: Seq<Seq<S>>,
        sample_rate: S,
    ) -> spec_fn(Seq<S>, int) -> (Seq<S>, S) {
        |st: Seq<S>, i: int| self.tick_spec(st, self.prepare(sample_rate))
    }

    /// The phases before the first sample: one zero per voice, and one voice
    /// where none is asked for.
    pub open spec fn fresh(&self) -> Seq<S> {
        Seq::new(if self.voices == 0 { 1 } else { self.voices as nat }, |i: int| S::zero())
    }

    pub fn init_state(&self, _sample_rate: S, _block_size: usize) -> (st: MultiPhaseState<S>)
        ensures
            st@.len() == self.fresh().len(),
            S::obeys_sample_spec() ==> st@ == self.fresh(),
    {
        let count: usize = if self.voices == 0 { 1 } else { self.voices };
        let zero = S::zero();
        let mut phases: Vec<S> = Vec::new();
        let mut i: usize = 0;
        while i < count
            invariant
                i <= count,
                phases@.len() == i,
                forall|j: int| 0 <= j < i ==> phases@[j] == zero,
            decreases count - i,
        {
            phases.push(zero);
            i += 1;
        }
        proof {
            if S::obeys_sample_spec() {
                assert(phases@ =~= self.fresh());
            }
        }
        MultiPhaseState { phases }
    }

    /// Puts every phase back to zero. The number of voices stays.
    pub fn reset(&self, state: &mut MultiPhaseState<S>)
        ensures
            final(state).same_size(old(state)),
            S::obeys_sample_spec() ==>
                final(state)@ == Seq::new(old(state)@.len(), |i: int| S::zero()),
    {
        let count: usize = state.phases.len();
        let zero = S::zero();
        let mut i: usize = 0;
        while i < count
            invariant
                i <= count,
                state.phases@.len() == count,
                count == old(state).phases@.len(),
                forall|j: int| 0 <= j < i ==> state.phases@[j] == zero,
            decreases count - i,
        {
            state.phases[i] = zero;
            i += 1;
        }
        proof {
            if S::obeys_sample_spec() {
                assert(state.phases@ =~= Seq::new(old(state)@.len(), |i: int| S::zero()));
            }
        }
    }

    /// The inputs that the node declares.
    pub fn input_ports(&self) -> (r: Vec<Port>)
        ensures
            r@ == audio_ports(0),
    {
        make_audio_ports(0)
    }

    /// The outputs that the node declares.
    pub fn output_ports(&self) -> (r: Vec<Port>)
        ensures
            r@ == audio_ports(1),
    {
        make_audio_ports(1)
    }

    /// The number of inputs that must be connected.
    pub fn required_inputs(&self) -> (r: usize)
        ensures
            r == 0,
    {
        0
    }

    /// Processes one block: runs the recursion over the samples of the block and
    /// writes output 0. A call whose slices do not fit is refused and changes
    /// nothing. Nothing is allocated.
    pub fn process_block(
        &self,
        state: &mut MultiPhaseState<S>,
        inputs: &[&[S]],
        outputs: &mut [Vec<S>],
        sample_rate: S,
    ) -> (r: Result<(), ShapeError>)
        ensures
            r == shape_verdict(rows(inputs), cols(old(outputs)@), 0, 0, 0, 1),
            same_lens(final(outputs)@, old(outputs)@),
            same_from(final(outputs)@, old(outputs)@, 1),
            final(state).same_size(old(state)),
            r.is_err() ==> final(state)@ == old(state)@ && final(outputs)@ == old(outputs)@,
            r.is_ok() && S::obeys_sample_spec() ==> renders(
                self.stepper(rows(inputs), sample_rate),
                old(state)@,
                final(state)@,
                final(outputs)@[0]@,
            ),
    {
        let n: usize = match check_block(inputs, outputs, 0, 0, 0, 1) {
            Ok(n) => n,
            Err(e) => {
                return Err(e);
            },
        };
        let ghost f = self.stepper(rows(inputs), sample_rate);
        let ghost st0 = state@;
        let prep = self.prepare(sample_rate);
        let mut i: usize = 0;
        while i < n
            invariant
                i <= n,
                inputs@.len() >= 0,
                outputs@.len() >= 1,
                outputs@[0]@.len() == n,
                same_lens(outputs@, old(outputs)@),
                same_from(outputs@, old(outputs)@, 1),
                state.same_size(old(state)),
                f == self.stepper(rows(inputs), sample_rate),
                S::obeys_sample_spec() ==> prep == self.prepare(sample_rate),
                S::obeys_sample_spec() ==> state@ == state_after(f, st0, i as nat),
                S::obeys_sample_spec() ==> forall|j: int|
                    0 <= j < i ==> outputs@[0]@[j] == #[trigger] output_at(f, st0, j),
            decreases n - i,
        {
            let y = self.tick(state, prep);
            outputs[0][i] = y;
            i += 1;
        }
        Ok(())
    }
}

/// The seed of the noise generators.
pub const NOISE_SEED: u64 = 0x1234_5678_9abc_def0;

/// The state of the linear congruential generator after `rng`:
/// `rng * 6364136223846793005 + 1` modulo two to the power 64.
pub open spec fn lcg_next_spec(rng: u64) -> u64 {
    ((rng as int * 6364136223846793005 + 1) % 0x1_0000_0000_0000_0000) as u64
}

/// Computes `lcg_next_spec`.
#[verifier::when_used_as_spec(lcg_next_spec)]
pub fn lcg_next(rng: u64) -> (r: u64)
    ensures
        r == lcg_next_spec(rng),
{
    let product: u64 = rng.wrapping_mul(6364136223846793005);
    let sum: u64 = product.wrapping_add(1);
    proof {
        let p = rng as int * 6364136223846793005;
        let m = 0x1_0000_0000_0000_0000int;
        assert(product as int == p % m) by {
            if p <= u64::MAX {
                vstd::arithmetic::div_mod::lemma_small_mod(p as nat, m as nat);
            }
        }
        assert(sum as int == (product as int + 1) % m) by {
            if product as int + 1 <= u64::MAX {
                vstd::arithmetic::div_mod::lemma_small_mod((product as int + 1) as nat, m as nat);
            }
        }
        vstd::arithmetic::div_mod::lemma_add_mod_noop(p, 1, m);
        vstd::arithmetic::div_mod::lemma_small_mod(1, m as nat);
        vstd::arithmetic::div_mod::lemma_mod_bound(p + 1, m);
    }
    sum
}

/// The state of the generator `k` samples after `rng`.
pub open spec fn lcg_after(rng: u64, k: nat) -> u64
    decreases k,
{
    if k == 0 {
        rng
    } else {
        lcg_next(lcg_after(rng, (k - 1) as nat))
    }
}

/// The upper half of a generator state.
pub open spec fn lcg_upper_spec(rng: u64) -> u32 {
    (rng as int / 0x1_0000_0000) as u32
}

/// Computes `lcg_upper_spec`.
#[verifier::when_used_as_spec(lcg_upper_spec)]
pub fn lcg_upper(rng: u64) -> (r: u32)
    ensures
        r == lcg_upper_spec(rng),
{
    let high: u64 = rng >> 32;
    assert(high <= 0xffff_ffff && high == rng / 0x1_0000_0000) by (bit_vector)
        requires
            high == rng >> 32,
    ;
    high as u32
}

/// The white noise sample of a generator state: its upper half, scaled to `[-1,
/// 1]`.
pub open spec fn white_sample_spec<S: Sample>(rng: u64) -> S {
    S::from_u32(lcg_upper(rng)).div(S::from_u32(u32::MAX)).mul(S::ratio(2, 1)).sub(S::one())
}

/// Computes `white_sample_spec`.
#[verifier::when_used_as_spec(white_sample_spec)]
pub fn white_sample<S: Sample>(rng: u64) -> (r: S)
    ensures
        S::obeys_sample_spec() ==> r == white_sample_spec::<S>(rng),
{
    S::from_u32(lcg_upper(rng)).div(S::from_u32(u32::MAX)).mul(S::ratio(2, 1)).sub(S::one())
}

/// The seven poles of the pink noise filter.
#[derive(Debug, Clone, Copy)]
pub struct PinkFilter<S> {
    pub b0: S,
    pub b1: S,
    pub b2: S,
    pub b3: S,
    pub b4: S,
    pub b5: S,
    pub b6: S,
}

/// State of a noise generator.
#[derive(Debug, Clone, Copy)]
pub struct NoiseState<S> {
    /// The state of the linear congruential generator.
    pub rng: u64,
    pub pink: PinkFilter<S>,
    /// The running sum of the brown noise.
    pub brown: S,
}

impl<S: Sample> NoiseState<S> {
    /// The state of a generator that starts from `seed`. Two generators with one
    /// seed put out the same samples.
    pub open spec fn seeded_spec(seed: u64) -> NoiseState<S> {
        NoiseState {
            rng: seed,
            pink: PinkFilter {
                b0: S::zero(),
                b1: S::zero(),
                b2: S::zero(),
                b3: S::zero(),
                b4: S::zero(),
                b5: S::zero(),
                b6: S::zero(),
            },
            brown: S::zero(),
        }
    }

    /// Computes `seeded_spec`.
    #[verifier::when_used_as_spec(seeded_spec)]
    pub fn seeded(seed: u64) -> (r: NoiseState<S>)
        ensures
            S::obeys_sample_spec() ==> r == Self::seeded_spec(seed),
    {
        NoiseState {
            rng: seed,
            pink: PinkFilter {
                b0: S::zero(),
                b1: S::zero(),
                b2: S::zero(),
                b3: S::zero(),
                b4: S::zero(),
                b5: S::zero(),
                b6: S::zero(),
            },
            brown: S::zero(),
        }
    }
}

/// White noise from a 64-bit linear congruential generator.
#[derive(Debug, Clone, Copy)]
pub struct WhiteNoise;

impl WhiteNoise {
    /// One sample: the generator moves on and its upper half is scaled to `[-1,
    /// 1]`.
    pub open spec fn tick_spec<S: Sample>(&self, st: NoiseState<S>) -> (NoiseState<S>, S) {
        let rng = lcg_next(st.rng);
        (NoiseState { rng, pink: st.pink, brown: st.brown }, white_sample::<S>(rng))
    }

    /// Computes `tick_spec`.
    #[verifier::when_used_as_spec(tick_spec)]
    pub fn tick<S: Sample>(&self, st: NoiseState<S>) -> (r: (NoiseState<S>, S))
        ensures
            r.0.rng == lcg_next(st.rng),
            S::obeys_sample_spec() ==> r == self.tick_spec(st),
    {
        let rng = lcg_next(st.rng);
        (NoiseState { rng, pink: st.pink, brown: st.brown }, white_sample::<S>(rng))
    }

    /// The node as a recursion over the samples of a block: the state before
    /// sample `i` to the state after it and the sample put out.
    pub open spec fn stepper<S: Sample>(
        &self,
        inputs: Seq<Seq<S>>,
        sample_rate: S,
    ) -> spec_fn(NoiseState<S>, int) -> (NoiseState<S>, S) {
        |st: NoiseState<S>, i: int| self.tick(st)
    }

    /// The inputs that the node declares.
    pub fn input_ports(&self) -> (r: Vec<Port>)
        ensures
            r@ == audio_ports(0),
    {
        make_audio_ports(0)
    }

    /// The outputs that the node declares.
    pub fn output_ports(&self) -> (r: Vec<Port>)
        ensures
            r@ == audio_ports(1),
    {
        make_audio_ports(1)
    }

    /// The number of inputs that must be connected.
    pub fn required_inputs(&self) -> (r: usize)
        ensures
            r == 0,
    {
        0
    }

    /// The state before the first sample.
    pub open spec fn fresh<S: Sample>() -> NoiseState<S> {
        NoiseState {
            rng: NOISE_SEED,
            pink: PinkFilter {
                b0: S::zero(),
                b1: S::zero(),
                b2: S::zero(),
                b3: S::zero(),
                b4: S::zero(),
                b5: S::zero(),
                b6: S::zero(),
            },
            brown: S::zero(),
        }
    }

    /// Makes the state for one instance of the node.
    pub fn init_state<S: Sample>(&self, _sample_rate: S, _block_size: usize) -> (st: NoiseState<S>)
        ensures
            S::obeys_sample_spec() ==> st == Self::fresh::<S>(),
    {
        NoiseState {
            rng: NOISE_SEED,
            pink: PinkFilter {
                b0: S::zero(),
                b1: S::zero(),
                b2: S::zero(),
                b3: S::zero(),
                b4: S::zero(),
                b5: S::zero(),
                b6: S::zero(),
            },
            brown: S::zero(),
        }
    }

    /// Puts the state back to what `init_state` returns.
    pub fn reset<S: Sample>(&self, state: &mut NoiseState<S>)
        ensures
            S::obeys_sample_spec() ==> *final(state) == Self::fresh::<S>(),
    {
        *state = NoiseState {
            rng: NOISE_SEED,
            pink: PinkFilter {
                b0: S::zero(),
                b1: S::zero(),
                b2: S::zero(),
                b3: S::zero(),
                b4: S::zero(),
                b5: S::zero(),
                b6: S::zero(),
            },
            brown: S::zero(),
        };
    }

    /// Processes one block: one step of the generator per sample of output 0. A
    /// call without an output is refused and changes nothing. Nothing is allocated.
    pub fn process_block<S: Sample>(
        &self,
        state: &mut NoiseState<S>,
        inputs: &[&[S]],
        outputs: &mut [Vec<S>],
        sample_rate: S,
    ) -> (r: Result<(), ShapeError>)
        ensures
            r == shape_verdict(rows(inputs), cols(old(outputs)@), 0, 0, 0, 1),
            same_lens(final(outputs)@, old(outputs)@),
            same_from(final(outputs)@, old(outputs)@, 1),
            r.is_err() ==> *final(state) == *old(state) && final(outputs)@ == old(outputs)@,
            r.is_ok() ==> final(state).rng == lcg_after(old(state).rng, final(outputs)@[0]@.len()),
            r.is_ok() && S::obeys_sample_spec() ==> renders(
                self.stepper::<S>(rows(inputs), sample_rate),
                *old(state),
                *final(state),
                final(outputs)@[0]@,
            ),
    {
        let n: usize = match check_block(inputs, outputs, 0, 0, 0, 1) {
            Ok(n) => n,
            Err(e) => {
                return Err(e);
            },
        };
        let ghost f = self.stepper::<S>(rows(inputs), sample_rate);
        let ghost st0 = *state;
        let mut i: usize = 0;
        while i < n
            invariant
                i <= n,
                inputs@.len() >= 0,
                outputs@.len() >= 1,
                outputs@[0]@.len() == n,
                same_lens(outputs@, old(outputs)@),
                same_from(outputs@, old(outputs)@, 1),
                f == self.stepper::<S>(rows(inputs), sample_rate),
                state.rng == lcg_after(st0.rng, i as nat),
                S::obeys_sample_spec() ==> *state == state_after(f, st0, i as nat),
                S::obeys_sample_spec() ==> forall|j: int|
                    0 <= j < i ==> outputs@[0]@[j] == #[trigger] output_at(f, st0, j),
            decreases n - i,
        {
            let (next, y) = self.tick(*state);
            *state = next;
            outputs[0][i] = y;
            i += 1;
        }
        Ok(())
    }
}

/// Pink noise: white noise through a bank of seven weighted poles.
#[derive(Debug, Clone, Copy)]
pub struct PinkNoise;

impl PinkNoise {
    /// One sample: six poles move with the white sample, the seventh holds the last
    /// one; their sum, the seventh once more and the white sample are added and
    /// scaled by a tenth.
    pub open spec fn tick_spec<S: Sample>(&self, st: NoiseState<S>) -> (NoiseState<S>, S) {
        let rng = lcg_next(st.rng);
        let white = white_sample::<S>(rng);
        let b0 = S::ratio(99886, 100000).mul(st.pink.b0).add(white.mul(S::ratio(555179, 10000000)));
        let b1 = S::ratio(99332, 100000).mul(st.pink.b1).add(white.mul(S::ratio(750759, 10000000)));
        let b2 = S::ratio(969, 1000).mul(st.pink.b2).add(white.mul(S::ratio(153852, 1000000)));
        let b3 = S::ratio(8665, 10000).mul(st.pink.b3).add(white.mul(S::ratio(3104856, 10000000)));
        let b4 = S::ratio(55, 100).mul(st.pink.b4).add(white.mul(S::ratio(5329522, 10000000)));
        let b5 = S::ratio(-7616i64, 10000).mul(st.pink.b5).sub(white.mul(S::ratio(16898, 1000000)));
        let sum = b0.add(b1).add(b2).add(b3).add(b4).add(b5).add(st.pink.b6);
        let pink = sum.add(st.pink.b6).add(white.mul(S::ratio(5362, 10000)));
        let b6 = white.mul(S::ratio(115926, 1000000));
        (
            NoiseState { rng, pink: PinkFilter { b0, b1, b2, b3, b4, b5, b6 }, brown: st.brown },
            pink.mul(S::ratio(1, 10)),
        )
    }

    /// Computes `tick_spec`.
    #[verifier::when_used_as_spec(tick_spec)]
    pub fn tick<S: Sample>(&self, st: NoiseState<S>) -> (r: (NoiseState<S>, S))
        ensures
            r.0.rng == lcg_next(st.rng),
            S::obeys_sample_spec() ==> r == self.tick_spec(st),
    {
        let rng = lcg_next(st.rng);
        let white = white_sample::<S>(rng);
        let b0 = S::ratio(99886, 100000).mul(st.pink.b0).add(white.mul(S::ratio(555179, 10000000)));
        let b1 = S::ratio(99332, 100000).mul(st.pink.b1).add(white.mul(S::ratio(750759, 10000000)));
        let b2 = S::ratio(969, 1000).mul(st.pink.b2).add(white.mul(S::ratio(153852, 1000000)));
        let b3 = S::ratio(8665, 10000).mul(st.pink.b3).add(white.mul(S::ratio(3104856, 10000000)));
        let b4 = S::ratio(55, 100).mul(st.pink.b4).add(white.mul(S::ratio(5329522, 10000000)));
        let b5 = S::ratio(-7616i64, 10000).mul(st.pink.b5).sub(white.mul(S::ratio(16898, 1000000)));
        let sum = b0.add(b1).add(b2).add(b3).add(b4).add(b5).add(st.pink.b6);
        let pink = sum.add(st.pink.b6).add(white.mul(S::ratio(5362, 10000)));
        let b6 = white.mul(S::ratio(115926, 1000000));
        (
            NoiseState { rng, pink: PinkFilter { b0, b1, b2, b3, b4, b5, b6 }, brown: st.brown },
            pink.mul(S::ratio(1, 10)),
        )
    }

    /// The node as a recursion over the samples of a block: the state before
    /// sample `i` to the state after it and the sample put out.
    pub open spec fn stepper<S: Sample>(
        &self,
        inputs: Seq<Seq<S>>,
        sample_rate: S,
    ) -> spec_fn(NoiseState<S>, int) -> (NoiseState<S>, S) {
        |st: NoiseState<S>, i: int| self.tick(st)
    }

    /// The inputs that the node declares.
    pub fn input_ports(&self) -> (r: Vec<Port>)
        ensures
            r@ == audio_ports(0),
    {
        make_audio_ports(0)
    }

    /// The outputs that the node declares.
    pub fn output_ports(&self) -> (r: Vec<Port>)
        ensures
            r@ == audio_ports(1),
    {
        make_audio_ports(1)
    }

    /// The number of inputs that must be connected.
    pub fn required_inputs(&self) -> (r: usize)
        ensures
            r == 0,
    {
        0
    }

    /// The state before the first sample.
    pub open spec fn fresh<S: Sample>() -> NoiseState<S> {
        NoiseState {
            rng: NOISE_SEED,
            pink: PinkFilter {
                b0: S::zero(),
                b1: S::zero(),
                b2: S::zero(),
                b3: S::zero(),
                b4: S::zero(),
                b5: S::zero(),
                b6: S::zero(),
            },
            brown: S::zero(),
        }
    }

    /// Makes the state for one instance of the node.
    pub fn init_state<S: Sample>(&self, _sample_rate: S, _block_size: usize) -> (st: NoiseState<S>)
        ensures
            S::obeys_sample_spec() ==> st == Self::fresh::<S>(),
    {
        NoiseState {
            rng: NOISE_SEED,
            pink: PinkFilter {
                b0: S::zero(),
                b1: S::zero(),
                b2: S::zero(),
                b3: S::zero(),
                b4: S::zero(),
                b5: S::zero(),
                b6: S::zero(),
            },
            brown: S::zero(),
        }
    }

    /// Puts the state back to what `init_state` returns.
    pub fn reset<S: Sample>(&self, state: &mut NoiseState<S>)
        ensures
            S::obeys_sample_spec() ==> *final(state) == Self::fresh::<S>(),
    {
        *state = NoiseState {
            rng: NOISE_SEED,
            pink: PinkFilter {
                b0: S::zero(),
                b1: S::zero(),
                b2: S::zero(),
                b3: S::zero(),
                b4: S::zero(),
                b5: S::zero(),
                b6: S::zero(),
            },
            brown: S::zero(),
        };
    }

    /// Processes one block: one step of the generator per sample of output 0. A
    /// call without an output is refused and changes nothing. Nothing is allocated.
    pub fn process_block<S: Sample>(
        &self,
        state: &mut NoiseState<S>,
        inputs: &[&[S]],
        outputs: &mut [Vec<S>],
        sample_rate: S,
    ) -> (r: Result<(), ShapeError>)
        ensures
            r == shape_verdict(rows(inputs), cols(old(outputs)@), 0, 0, 0, 1),
            same_lens(final(outputs)@, old(outputs)@),
            same_from(final(outputs)@, old(outputs)@, 1),
            r.is_err() ==> *final(state) == *old(state) && final(outputs)@ == old(outputs)@,
            r.is_ok() ==> final(state).rng == lcg_after(old(state).rng, final(outputs)@[0]@.len()),
            r.is_ok() && S::obeys_sample_spec() ==> renders(
                self.stepper::<S>(rows(inputs), sample_rate),
                *old(state),
                *final(state),
                final(outputs)@[0]@,
            ),
    {
        let n: usize = match check_block(inputs, outputs, 0, 0, 0, 1) {
            Ok(n) => n,
            Err(e) => {
                return Err(e);
            },
        };
        let ghost f = self.stepper::<S>(rows(inputs), sample_rate);
        let ghost st0 = *state;
        let mut i: usize = 0;
        while i < n
            invariant
                i <= n,
                inputs@.len() >= 0,
                outputs@.len() >= 1,
                outputs@[0]@.len() == n,
                same_lens(outputs@, old(outputs)@),
                same_from(outputs@, old(outputs)@, 1),
                f == self.stepper::<S>(rows(inputs), sample_rate),
                state.rng == lcg_after(st0.rng, i as nat),
                S::obeys_sample_spec() ==> *state == state_after(f, st0, i as nat),
                S::obeys_sample_spec() ==> forall|j: int|
                    0 <= j < i ==> outputs@[0]@[j] == #[trigger] output_at(f, st0, j),
            decreases n - i,
        {
            let (next, y) = self.tick(*state);
            *state = next;
            outputs[0][i] = y;
            i += 1;
        }
        Ok(())
    }
}

/// Brown noise: white noise summed up, with the sum held in `[-1, 1]`.
#[derive(Debug, Clone, Copy)]
pub struct BrownNoise;

impl BrownNoise {
    /// One sample: a fiftieth of the white sample is added to the sum.
    pub open spec fn tick_spec<S: Sample>(&self, st: NoiseState<S>) -> (NoiseState<S>, S) {
        let rng = lcg_next(st.rng);
        let white = white_sample::<S>(rng);
        let brown = st.brown.add(white.mul(S::ratio(2, 100))).clamp(S::one().neg(), S::one());
        (NoiseState { rng, pink: st.pink, brown }, brown)
    }

    /// Computes `tick_spec`.
    #[verifier::when_used_as_spec(tick_spec)]
    pub fn tick<S: Sample>(&self, st: NoiseState<S>) -> (r: (NoiseState<S>, S))
        ensures
            r.0.rng == lcg_next(st.rng),
            S::obeys_sample_spec() ==> r == self.tick_spec(st),
    {
        let rng = lcg_next(st.rng);
        let white = white_sample::<S>(rng);
        let brown = st.brown.add(white.mul(S::ratio(2, 100))).clamp(S::one().neg(), S::one());
        (NoiseState { rng, pink: st.pink, brown }, brown)
    }

    /// The node as a recursion over the samples of a block: the state before
    /// sample `i` to the state after it and the sample put out.
    pub open spec fn stepper<S: Sample>(
        &self,
        inputs: Seq<Seq<S>>,
        sample_rate: S,
    ) -> spec_fn(NoiseState<S>, int) -> (NoiseState<S>, S) {
        |st: NoiseState<S>, i: int| self.tick(st)
    }

    /// The inputs that the node declares.
    pub fn input_ports(&self) -> (r: Vec<Port>)
        ensures
            r@ == audio_ports(0),
    {
        make_audio_ports(0)
    }

    /// The outputs that the node declares.
    pub fn output_ports(&self) -> (r: Vec<Port>)
        ensures
            r@ == audio_ports(1),
    {
        make_audio_ports(1)
    }

    /// The number of inputs that must be connected.
    pub fn required_inputs(&self) -> (r: usize)
        ensures
            r == 0,
    {
        0
    }

    /// The state before the first sample.
    pub open spec fn fresh<S: Sample>() -> NoiseState<S> {
        NoiseState {
            rng: NOISE_SEED,
            pink: PinkFilter {
                b0: S::zero(),
                b1: S::zero(),
                b2: S::zero(),
                b3: S::zero(),
                b4: S::zero(),
                b5: S::zero(),
                b6: S::zero(),
            },
            brown: S::zero(),
        }
    }

    /// Makes the state for one instance of the node.
    pub fn init_state<S: Sample>(&self, _sample_rate: S, _block_size: usize) -> (st: NoiseState<S>)
        ensures
            S::obeys_sample_spec() ==> st == Self::fresh::<S>(),
    {
        NoiseState {
            rng: NOISE_SEED,
            pink: PinkFilter {
                b0: S::zero(),
                b1: S::zero(),
                b2: S::zero(),
                b3: S::zero(),
                b4: S::zero(),
                b5: S::zero(),
                b6: S::zero(),
            },
            brown: S::zero(),
        }
    }

    /// Puts the state back to what `init_state` returns.
    pub fn reset<S: Sample>(&self, state: &mut NoiseState<S>)
        ensures
            S::obeys_sample_spec() ==> *final(state) == Self::fresh::<S>(),
    {
        *state = NoiseState {
            rng: NOISE_SEED,
            pink: PinkFilter {
                b0: S::zero(),
                b1: S::zero(),
                b2: S::zero(),
                b3: S::zero(),
                b4: S::zero(),
                b5: S::zero(),
                b6: S::zero(),
            },
            brown: S::zero(),
        };
    }

    /// Processes one block: one step of the generator per sample of output 0. A
    /// call without an output is refused and changes nothing. Nothing is allocated.
    pub fn process_block<S: Sample>(
        &self,
        state: &mut NoiseState<S>,
        inputs: &[&[S]],
        outputs: &mut [Vec<S>],
        sample_rate: S,
    ) -> (r: Result<(), ShapeError>)
        ensures
            r == shape_verdict(rows(inputs), cols(old(outputs)@), 0, 0, 0, 1),
            same_lens(final(outputs)@, old(outputs)@),
            same_from(final(outputs)@, old(outputs)@, 1),
            r.is_err() ==> *final(state) == *old(state) && final(outputs)@ == old(outputs)@,
            r.is_ok() ==> final(state).rng == lcg_after(old(state).rng, final(outputs)@[0]@.len()),
            r.is_ok() && S::obeys_sample_spec() ==> renders(
                self.stepper::<S>(rows(inputs), sample_rate),
                *old(state),
                *final(state),
                final(outputs)@[0]@,
            ),
    {
        let n: usize = match check_block(inputs, outputs, 0, 0, 0, 1) {
            Ok(n) => n,
            Err(e) => {
                return Err(e);
            },
        };
        let ghost f = self.stepper::<S>(rows(inputs), sample_rate);
        let ghost st0 = *state;
        let mut i: usize = 0;
        while i < n
            invariant
                i <= n,
                inputs@.len() >= 0,
                outputs@.len() >= 1,
                outputs@[0]@.len() == n,
                same_lens(outputs@, old(outputs)@),
                same_from(outputs@, old(outputs)@, 1),
                f == self.stepper::<S>(rows(inputs), sample_rate),
                state.rng == lcg_after(st0.rng, i as nat),
                S::obeys_sample_spec() ==> *state == state_after(f, st0, i as nat),
                S::obeys_sample_spec() ==> forall|j: int|
                    0 <= j < i ==> outputs@[0]@[j] == #[trigger] output_at(f, st0, j),
            decreases n - i,
        {
            let (next, y) = self.tick(*state);
            *state = next;
            outputs[0][i] = y;
            i += 1;
        }
        Ok(())
    }
}

/// State of a constant source: it has none.
#[derive(Debug, Clone, Copy)]
pub struct ConstantState;

/// A source that puts out one value.
#[derive(Debug, Clone, Copy)]
pub struct Constant<S> {
    pub value: S,
}

impl<S: Sample> Constant<S> {
    /// The inputs that the node declares.
    pub fn input_ports(&self) -> (r: Vec<Port>)
        ensures
            r@ == audio_ports(0),
    {
        make_audio_ports(0)
    }

    /// The outputs that the node declares.
    pub fn output_ports(&self) -> (r: Vec<Port>)
        ensures
            r@ == audio_ports(1),
    {
        make_audio_ports(1)
    }

    /// The number of inputs that must be connected.
    pub fn required_inputs(&self) -> (r: usize)
        ensures
            r == 0,
    {
        0
    }

    /// The state of the node, of which there is one value only.
    pub fn init_state(&self, _sample_rate: S, _block_size: usize) -> (st: ConstantState) {
        ConstantState
    }

    /// A node without memory has nothing to reset.
    pub fn reset(&self, state: &mut ConstantState)
        ensures
            *final(state) == *old(state),
    {
    }

    /// Fills output 0 with the value. This holds of every sample type: the
    /// node does no arithmetic. A call without an output is refused and changes
    /// nothing. Nothing is allocated.
    pub fn process_block(
        &self,
        state: &mut ConstantState,
        inputs: &[&[S]],
        outputs: &mut [Vec<S>],
        _sample_rate: S,
    ) -> (r: Result<(), ShapeError>)
        ensures
            r == shape_verdict(rows(inputs), cols(old(outputs)@), 0, 0, 0, 1),
            same_lens(final(outputs)@, old(outputs)@),
            same_from(final(outputs)@, old(outputs)@, 1),
            r.is_err() ==> final(outputs)@ == old(outputs)@,
            r.is_ok() ==> forall|i: int| 0 <= i < final(outputs)@[0]@
                .len() ==> #[trigger] final(outputs)@[0]@[i] == self.value,
    {
        let n: usize = match check_block(inputs, outputs, 0, 0, 0, 1) {
            Ok(n) => n,
            Err(e) => {
                return Err(e);
            },
        };
        let mut i: usize = 0;
        while i < n
            invariant
                i <= n,
                outputs@.len() >= 1,
                outputs@[0]@.len() == n,
                same_lens(outputs@, old(outputs)@),
                same_from(outputs@, old(outputs)@, 1),
                forall|j: int| 0 <= j < i ==> #[trigger] outputs@[0]@[j] == self.value,
            decreases n - i,
        {
            outputs[0][i] = self.value;
            i += 1;
        }
        Ok(())
    }
}

} // verus!
