//! Low-frequency oscillator.

use crate::block::{
    audio_ports, check_block, cols, make_audio_ports, output_at, port_or, read_or, renders, rows,
    same_from, same_lens, shape_verdict, state_after, Port, ShapeError,
};
use crate::nodes::oscillators::{advance_phase, phase_step};
use crate::sample::Sample;
use vstd::prelude::*;

verus! {

/// State of an LFO: its phase, in turns.
#[derive(Debug, Clone, Copy)]
pub struct LfoState<S> {
    pub phase: S,
}

/// The waveforms of the LFO.
#[derive(Debug, Clone, Copy, PartialEq, Eq, Structural)]
pub enum LfoWaveform {
    Sine,
    Triangle,
    Saw,
    Square,
    /// A value taken from the phase, new with every sample.
    Random,
}

/// The value of a waveform at a phase in `[0, 1)`.
pub open spec fn lfo_wave_spec<S: Sample>(waveform: LfoWaveform, phase: S) -> S {
    match waveform {
        LfoWaveform::Sine => phase.mul(S::pi().mul(S::ratio(2, 1))).sin(),
        LfoWaveform::Triangle => {
            if phase.lt(S::ratio(25, 100)) {
                phase.mul(S::ratio(4, 1))
            } else if phase.lt(S::ratio(75, 100)) {
                S::ratio(2, 1).sub(phase.mul(S::ratio(4, 1)))
            } else {
                phase.mul(S::ratio(4, 1)).sub(S::ratio(4, 1))
            }
        },
        LfoWaveform::Saw => phase.mul(S::ratio(2, 1)).sub(S::one()),
        LfoWaveform::Square => {
            if phase.lt(S::ratio(5, 10)) {
                S::one()
            } else {
                S::one().neg()
            }
        },
        LfoWaveform::Random => phase.mul(S::ratio(12345, 1)).sin().sub(S::ratio(5, 10))
            .mul(S::ratio(2, 1)),
    }
}

/// Computes `lfo_wave_spec`.
#[verifier::when_used_as_spec(lfo_wave_spec)]
pub fn lfo_wave<S: Sample>(waveform: LfoWaveform, phase: S) -> (r: S)
    ensures
        S::obeys_sample_spec() ==> r == lfo_wave_spec::<S>(waveform, phase),
{
    match waveform {
        LfoWaveform::Sine => phase.mul(S::pi().mul(S::ratio(2, 1))).sin(),
        LfoWaveform::Triangle => {
            if phase.lt(S::ratio(25, 100)) {
                phase.mul(S::ratio(4, 1))
            } else if phase.lt(S::ratio(75, 100)) {
                S::ratio(2, 1).sub(phase.mul(S::ratio(4, 1)))
            } else {
                phase.mul(S::ratio(4, 1)).sub(S::ratio(4, 1))
            }
        },
        LfoWaveform::Saw => phase.mul(S::ratio(2, 1)).sub(S::one()),
        LfoWaveform::Square => {
            if phase.lt(S::ratio(5, 10)) {
                S::one()
            } else {
                S::one().neg()
            }
        },
        LfoWaveform::Random => phase.mul(S::ratio(12345, 1)).sin().sub(S::ratio(5, 10))
            .mul(S::ratio(2, 1)),
    }
}

/// Low-frequency oscillator. Input 0, where it is connected, is added to the
/// frequency sample by sample.
#[derive(Debug, Clone, Copy)]
pub struct Lfo<S> {
    pub frequency: S,
    pub waveform: LfoWaveform,
    pub amplitude: S,
    pub offset: S,
}

impl<S: Sample> Lfo<S> {
    /// One sample: the phase moves on by the part of a turn that the frequency
    /// covers per sample and wraps at one; the waveform is read at the new phase,
    /// scaled by the amplitude and shifted by the offset.
    pub open spec fn tick_spec(
        &self,
        st: LfoState<S>,
        freq_mod: S,
        sample_rate: S,
    ) -> (LfoState<S>, S) {
        let freq = self.frequency.add(freq_mod);
        let phase = advance_phase(st.phase, phase_step(freq, sample_rate));
        (LfoState { phase }, lfo_wave(self.waveform, phase).mul(self.amplitude).add(self.offset))
    }

    /// Computes `tick_spec`.
    #[verifier::when_used_as_spec(tick_spec)]
    pub fn tick(&self, st: LfoState<S>, freq_mod: S, sample_rate: S) -> (r: (LfoState<S>, S))
        ensures
            S::obeys_sample_spec() ==> r == self.tick_spec(st, freq_mod, sample_rate),
    {
        let freq = self.frequency.add(freq_mod);
        let phase = advance_phase(st.phase, phase_step(freq, sample_rate));
        (LfoState { phase }, lfo_wave(self.waveform, phase).mul(self.amplitude).add(self.offset))
    }

    /// The node as a recursion over the samples of a block: the state before
    /// sample `i` to the state after it and the sample put out.
    pub open spec fn stepper(
        &self,
        inputs: Seq<Seq<S>>,
        sample_rate: S,
    ) -> spec_fn(LfoState<S>, int) -> (LfoState<S>, S) {
        |st: LfoState<S>, i: int| self.tick(st, port_or(inputs, 0, i, S::zero()), sample_rate)
    }

    /// The inputs that the node declares.
    pub fn input_ports(&self) -> (r: Vec<Port>)
        ensures
            r@ == audio_ports(1),
    {
        make_audio_ports(1)
    }

    /// The outputs that the node declares.
    pub fn output_ports(&self) -> (r: Vec<Port>)
        ensures
            r@ == audio_ports(1),
    {
        make_audio_ports(1)
    }

    /// The number of inputs that must be connected.
    pub fn required_inputs(&self) -> (r: usize)
        ensures
            r == 0,
    {
        0
    }

    /// The state before the first sample.
    pub open spec fn fresh() -> LfoState<S> {
        LfoState { phase: S::zero() }
    }

    /// Makes the state for one instance of the node.
    pub fn init_state(&self, _sample_rate: S, _block_size: usize) -> (st: LfoState<S>)
        ensures
            S::obeys_sample_spec() ==> st == Self::fresh(),
    {
        LfoState { phase: S::zero() }
    }

    /// Puts the state back to what `init_state` returns.
    pub fn reset(&self, state: &mut LfoState<S>)
        ensures
            S::obeys_sample_spec() ==> *final(state) == Self::fresh(),
    {
        *state = LfoState { phase: S::zero() };
    }

    /// Processes one block: runs the recursion over the samples of the block and
    /// writes output 0. A call whose slices do not fit is refused and changes
    /// nothing. Nothing is allocated.
    pub fn process_block(
        &self,
        state: &mut LfoState<S>,
        inputs: &[&[S]],
        outputs: &mut [Vec<S>],
        sample_rate: S,
    ) -> (r: Result<(), ShapeError>)
        ensures
            r == shape_verdict(rows(inputs), cols(old(outputs)@), 0, 0, 1, 1),
            same_lens(final(outputs)@, old(outputs)@),
            same_from(final(outputs)@, old(outputs)@, 1),
            r.is_err() ==> *final(state) == *old(state) && final(outputs)@ == old(outputs)@,
            r.is_ok() && S::obeys_sample_spec() ==> renders(
                self.stepper(rows(inputs), sample_rate),
                *old(state),
                *final(state),
                final(outputs)@[0]@,
            ),
    {
        let n: usize = match check_block(inputs, outputs, 0, 0, 1, 1) {
            Ok(n) => n,
            Err(e) => {
                return Err(e);
            },
        };
        let ghost f = self.stepper(rows(inputs), sample_rate);
        let ghost st0 = *state;
        let zero = S::zero();
        let mut i: usize = 0;
        while i < n
            invariant
                i <= n,
                inputs@.len() >= 0,
                outputs@.len() >= 1,
                outputs@[0]@.len() == n,
                forall|p: int|
                    0 <= p < 1 && p < inputs@.len() ==> (#[trigger] inputs@[p])@.len() == 0
                        || inputs@[p]@.len() == n,
                same_lens(outputs@, old(outputs)@),
                same_from(outputs@, old(outputs)@, 1),
                f == self.stepper(rows(inputs), sample_rate),
                S::obeys_sample_spec() ==> zero == S::zero(),
                S::obeys_sample_spec() ==> *state == state_after(f, st0, i as nat),
                S::obeys_sample_spec() ==> forall|j: int|
                    0 <= j < i ==> outputs@[0]@[j] == #[trigger] output_at(f, st0, j),
            decreases n - i,
        {
            let freq_mod = read_or(inputs, 0, i, zero);
            let (next, y) = self.tick(*state, freq_mod, sample_rate);
            *state = next;
            outputs[0][i] = y;
            i += 1;
        }
        Ok(())
    }
}

} // verus!
