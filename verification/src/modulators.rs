//! Modulators that stand alone: oscillator, ring modulator, frequency shifter
//! and tremolo.

use crate::block::{
    check_block, cols, output_at, read_at, renders, rows, same_from, same_lens, shape_verdict,
    state_after, ShapeError,
};
use crate::delay_line::{cursor_after, lemma_clear_after_new, DelayLine, DelayView};
use crate::sample::Sample;
use vstd::prelude::*;

verus! {

/// The waveforms of the oscillator.
#[derive(Debug, Clone, Copy, PartialEq, Eq, Structural)]
pub enum LfoWaveform {
    Sine,
    Triangle,
    Square,
    Sawtooth,
    /// A value taken from the phase.
    Random,
}

/// Low-frequency oscillator. It has no input.
#[derive(Debug, Clone, Copy)]
pub struct Lfo<S> {
    pub frequency: S,
    pub waveform: LfoWaveform,
    /// The phase after the last sample, in turns; zero before the first.
    pub phase: S,
    /// The running phase, in turns.
    pub phase_accum: S,
}

impl<S: Sample> Lfo<S> {
    /// A node in its first state.
    pub open spec fn new_spec(frequency: S, waveform: LfoWaveform) -> Self {
        Lfo { frequency, waveform, phase: S::zero(), phase_accum: S::zero() }
    }

    /// Computes `new_spec`.
    #[verifier::when_used_as_spec(new_spec)]
    pub fn new(frequency: S, waveform: LfoWaveform) -> (r: Self)
        ensures
            S::obeys_sample_spec() ==> r == Self::new_spec(frequency, waveform),
    {
        Lfo { frequency, waveform, phase: S::zero(), phase_accum: S::zero() }
    }

    /// Whether two nodes have the same settings.
    pub open spec fn same_settings(self, other: Self) -> bool {
        &&& self.frequency == other.frequency
        &&& self.waveform == other.waveform
    }

    /// The value of the waveform at a phase in `[0, 1)`.
    pub open spec fn generate_sample_spec(&self, phase: S) -> S {
        match self.waveform {
            LfoWaveform::Sine => phase.mul(S::pi().mul(S::ratio(2, 1))).sin(),
            LfoWaveform::Triangle => {
                if phase.lt(S::ratio(25, 100)) {
                    phase.mul(S::ratio(4, 1))
                } else if phase.lt(S::ratio(75, 100)) {
                    S::one().sub(phase.sub(S::ratio(25, 100)).mul(S::ratio(4, 1)))
                } else {
                    phase.sub(S::ratio(75, 100)).mul(S::ratio(4, 1)).sub(S::one())
                }
            },
            LfoWaveform::Square => {
                if phase.lt(S::ratio(5, 10)) {
                    S::one()
                } else {
                    S::one().neg()
                }
            },
            LfoWaveform::Sawtooth => phase.mul(S::ratio(2, 1)).sub(S::one()),
            LfoWaveform::Random => phase.mul(S::ratio(12345, 1)).sin().mul(S::ratio(43758, 1))
                .fract().mul(S::ratio(2, 1)).sub(S::one()),
        }
    }

    /// Computes `generate_sample_spec`.
    #[verifier::when_used_as_spec(generate_sample_spec)]
    pub fn generate_sample(&self, phase: S) -> (r: S)
        ensures
            S::obeys_sample_spec() ==> r == self.generate_sample_spec(phase),
    {
        match self.waveform {
            LfoWaveform::Sine => phase.mul(S::pi().mul(S::ratio(2, 1))).sin(),
            LfoWaveform::Triangle => {
                if phase.lt(S::ratio(25, 100)) {
                    phase.mul(S::ratio(4, 1))
                } else if phase.lt(S::ratio(75, 100)) {
                    S::one().sub(phase.sub(S::ratio(25, 100)).mul(S::ratio(4, 1)))
                } else {
                    phase.sub(S::ratio(75, 100)).mul(S::ratio(4, 1)).sub(S::one())
                }
            },
            LfoWaveform::Square => {
                if phase.lt(S::ratio(5, 10)) {
                    S::one()
                } else {
                    S::one().neg()
                }
            },
            LfoWaveform::Sawtooth => phase.mul(S::ratio(2, 1)).sub(S::one()),
            LfoWaveform::Random => phase.mul(S::ratio(12345, 1)).sin().mul(S::ratio(43758, 1))
                .fract().mul(S::ratio(2, 1)).sub(S::one()),
        }
    }

    /// One sample: the waveform at the running phase, which then moves on and
    /// wraps.
    pub open spec fn tick_spec(self, sample_rate: S) -> (Self, S) {
        let y = self.generate_sample(self.phase_accum);
        let moved = self.phase_accum.add(self.frequency.div(sample_rate)).fract();
        (
            Lfo {
                frequency: self.frequency,
                waveform: self.waveform,
                phase: moved,
                phase_accum: moved,
            },
            y,
        )
    }

    /// Computes `tick_spec`.
    #[verifier::when_used_as_spec(tick_spec)]
    pub fn tick(self, sample_rate: S) -> (r: (Self, S))
        ensures
            r.0.same_settings(self),
            S::obeys_sample_spec() ==> r == self.tick_spec(sample_rate),
    {
        let y = self.generate_sample(self.phase_accum);
        let moved = self.phase_accum.add(self.frequency.div(sample_rate)).fract();
        (
            Lfo {
                frequency: self.frequency,
                waveform: self.waveform,
                phase: moved,
                phase_accum: moved,
            },
            y,
        )
    }

    /// The node as a recursion over the samples of a block: the state before
    /// sample `i` to the state after it and the sample put out.
    pub open spec fn stepper(
        inputs: Seq<Seq<S>>,
        sample_rate: S,
    ) -> spec_fn(Self, int) -> (Self, S) {
        |st: Self, i: int| st.tick(sample_rate)
    }

    /// Processes one block: runs the recursion over the samples of the block and
    /// writes output 0. A call whose slices do not fit is refused and changes
    /// nothing. Nothing is allocated.
    pub fn process(
        &mut self,
        inputs: &[&[S]],
        outputs: &mut [Vec<S>],
        sample_rate: S,
    ) -> (r: Result<(), ShapeError>)
        ensures
            r == shape_verdict(rows(inputs), cols(old(outputs)@), 0, 0, 0, 1),
            same_lens(final(outputs)@, old(outputs)@),
            same_from(final(outputs)@, old(outputs)@, 1),
            r.is_err() ==> *final(self) == *old(self) && final(outputs)@ == old(outputs)@,
            final(self).same_settings(*old(self)),
            r.is_ok() && S::obeys_sample_spec() ==> renders(
                Self::stepper(rows(inputs), sample_rate),
                *old(self),
                *final(self),
                final(outputs)@[0]@,
            ),
    {
        let n: usize = match check_block(inputs, outputs, 0, 0, 0, 1) {
            Ok(n) => n,
            Err(e) => {
                return Err(e);
            },
        };
        let ghost f = Self::stepper(rows(inputs), sample_rate);
        let ghost st0 = *self;
        let mut i: usize = 0;
        while i < n
            invariant
                i <= n,
                inputs@.len() >= 0,
                outputs@.len() >= 1,
                outputs@[0]@.len() == n,
                same_lens(outputs@, old(outputs)@),
                same_from(outputs@, old(outputs)@, 1),
                f == Self::stepper(rows(inputs), sample_rate),
                self.same_settings(st0),
                S::obeys_sample_spec() ==> *self == state_after(f, st0, i as nat),
                S::obeys_sample_spec() ==> forall|j: int|
                    0 <= j < i ==> outputs@[0]@[j] == #[trigger] output_at(f, st0, j),
            decreases n - i,
        {
            let (next, y) = self.tick(sample_rate);
            *self = next;
            outputs[0][i] = y;
            i += 1;
        }
        Ok(())
    }

    /// Puts the node back to the state that `new` gave it; its settings stay.
    pub open spec fn reset_spec(self) -> Self {
        Lfo {
            frequency: self.frequency,
            waveform: self.waveform,
            phase: S::zero(),
            phase_accum: S::zero(),
        }
    }

    /// Performs `reset_spec` in place.
    pub fn reset(&mut self)
        ensures
            final(self).same_settings(*old(self)),
            S::obeys_sample_spec() ==> *final(self) == old(self).reset_spec(),
    {
        *self = Lfo {
            frequency: self.frequency,
            waveform: self.waveform,
            phase: S::zero(),
            phase_accum: S::zero(),
        };
    }

    /// A reset right after `new` changes nothing.
    pub proof fn lemma_reset_after_new(frequency: S, waveform: LfoWaveform)
        ensures
            Self::new_spec(frequency, waveform).reset_spec() == Self::new_spec(frequency, waveform),
    {
    }

    /// The number of inputs that a call requires.
    pub fn num_inputs(&self) -> (r: usize)
        ensures
            r == 0,
    {
        0
    }

    /// The number of outputs that a call writes.
    pub fn num_outputs(&self) -> (r: usize)
        ensures
            r == 1,
    {
        1
    }
}

/// Ring modulator: the input times a sine.
#[derive(Debug, Clone, Copy)]
pub struct RingModulator<S> {
    pub frequency: S,
    /// The phase of the sine, in turns.
    pub phase_accum: S,
}

impl<S: Sample> RingModulator<S> {
    /// A node in its first state.
    pub open spec fn new_spec(frequency: S) -> Self {
        RingModulator { frequency, phase_accum: S::zero() }
    }

    /// Computes `new_spec`.
    #[verifier::when_used_as_spec(new_spec)]
    pub fn new(frequency: S) -> (r: Self)
        ensures
            S::obeys_sample_spec() ==> r == Self::new_spec(frequency),
    {
        RingModulator { frequency, phase_accum: S::zero() }
    }

    /// Whether two nodes have the same settings.
    pub open spec fn same_settings(self, other: Self) -> bool {
        self.frequency == other.frequency
    }

    /// One sample: the input times the sine at the phase, which then moves on and
    /// wraps.
    pub open spec fn tick_spec(self, x: S, sample_rate: S) -> (Self, S) {
        let modulator = self.phase_accum.mul(S::pi().mul(S::ratio(2, 1))).sin();
        (
            RingModulator {
                frequency: self.frequency,
                phase_accum: self.phase_accum.add(self.frequency.div(sample_rate)).fract(),
            },
            x.mul(modulator),
        )
    }

    /// Computes `tick_spec`.
    #[verifier::when_used_as_spec(tick_spec)]
    pub fn tick(self, x: S, sample_rate: S) -> (r: (Self, S))
        ensures
            r.0.same_settings(self),
            S::obeys_sample_spec() ==> r == self.tick_spec(x, sample_rate),
    {
        let modulator = self.phase_accum.mul(S::pi().mul(S::ratio(2, 1))).sin();
        (
            RingModulator {
                frequency: self.frequency,
                phase_accum: self.phase_accum.add(self.frequency.div(sample_rate)).fract(),
            },
            x.mul(modulator),
        )
    }

    /// The node as a recursion over the samples of a block: the state before
    /// sample `i` to the state after it and the sample put out.
    pub open spec fn stepper(
        inputs: Seq<Seq<S>>,
        sample_rate: S,
    ) -> spec_fn(Self, int) -> (Self, S) {
        |st: Self, i: int| st.tick(inputs[0][i], sample_rate)
    }

    /// Processes one block: runs the recursion over the samples of the block and
    /// writes output 0. A call whose slices do not fit is refused and changes
    /// nothing. Nothing is allocated.
    pub fn process(
        &mut self,
        inputs: &[&[S]],
        outputs: &mut [Vec<S>],
        sample_rate: S,
    ) -> (r: Result<(), ShapeError>)
        ensures
            r == shape_verdict(rows(inputs), cols(old(outputs)@), 1, 1, 1, 1),
            same_lens(final(outputs)@, old(outputs)@),
            same_from(final(outputs)@, old(outputs)@, 1),
            r.is_err() ==> *final(self) == *old(self) && final(outputs)@ == old(outputs)@,
            final(self).same_settings(*old(self)),
            r.is_ok() && S::obeys_sample_spec() ==> renders(
                Self::stepper(rows(inputs), sample_rate),
                *old(self),
                *final(self),
                final(outputs)@[0]@,
            ),
    {
        let n: usize = match check_block(inputs, outputs, 1, 1, 1, 1) {
            Ok(n) => n,
            Err(e) => {
                return Err(e);
            },
        };
        let ghost f = Self::stepper(rows(inputs), sample_rate);
        let ghost st0 = *self;
        let mut i: usize = 0;
        while i < n
            invariant
                i <= n,
                inputs@.len() >= 1,
                outputs@.len() >= 1,
                outputs@[0]@.len() == n,
                forall|p: int| 0 <= p < 1 ==> (#[trigger] inputs@[p])@.len() == n,
                same_lens(outputs@, old(outputs)@),
                same_from(outputs@, old(outputs)@, 1),
                f == Self::stepper(rows(inputs), sample_rate),
                self.same_settings(st0),
                S::obeys_sample_spec() ==> *self == state_after(f, st0, i as nat),
                S::obeys_sample_spec() ==> forall|j: int|
                    0 <= j < i ==> outputs@[0]@[j] == #[trigger] output_at(f, st0, j),
            decreases n - i,
        {
            let x = read_at(inputs, 0, i);
            let (next, y) = self.tick(x, sample_rate);
            *self = next;
            outputs[0][i] = y;
            i += 1;
        }
        Ok(())
    }

    /// Puts the node back to the state that `new` gave it; its settings stay.
    pub open spec fn reset_spec(self) -> Self {
        RingModulator { frequency: self.frequency, phase_accum: S::zero() }
    }

    /// Performs `reset_spec` in place.
    pub fn reset(&mut self)
        ensures
            final(self).same_settings(*old(self)),
            S::obeys_sample_spec() ==> *final(self) == old(self).reset_spec(),
    {
        *self = RingModulator { frequency: self.frequency, phase_accum: S::zero() };
    }

    /// A reset right after `new` changes nothing.
    pub proof fn lemma_reset_after_new(frequency: S)
        ensures
            Self::new_spec(frequency).reset_spec() == Self::new_spec(frequency),
    {
    }

    /// The number of inputs that a call requires.
    pub fn num_inputs(&self) -> (r: usize)
        ensures
            r == 1,
    {
        1
    }

    /// The number of outputs that a call writes.
    pub fn num_outputs(&self) -> (r: usize)
        ensures
            r == 1,
    {
        1
    }
}

/// Tremolo: the amplitude of the input follows a sine. The depth is held in
/// `[0, 1]`.
#[derive(Debug, Clone, Copy)]
pub struct Tremolo<S> {
    pub frequency: S,
    pub depth: S,
    /// The phase of the sine, in turns.
    pub phase_accum: S,
}

impl<S: Sample> Tremolo<S> {
    /// A node in its first state.
    pub open spec fn new_spec(frequency: S, depth: S) -> Self {
        Tremolo { frequency, depth: depth.clamp(S::zero(), S::one()), phase_accum: S::zero() }
    }

    /// Computes `new_spec`.
    #[verifier::when_used_as_spec(new_spec)]
    pub fn new(frequency: S, depth: S) -> (r: Self)
        ensures
            S::obeys_sample_spec() ==> r == Self::new_spec(frequency, depth),
    {
        Tremolo { frequency, depth: depth.clamp(S::zero(), S::one()), phase_accum: S::zero() }
    }

    /// Whether two nodes have the same settings.
    pub open spec fn same_settings(self, other: Self) -> bool {
        &&& self.frequency == other.frequency
        &&& self.depth == other.depth
    }

    /// One sample: the input times `1 - depth + depth m` for the lifted sine `m` at
    /// the phase, which then moves on and wraps.
    pub open spec fn tick_spec(self, x: S, sample_rate: S) -> (Self, S) {
        let lfo = self.phase_accum.mul(S::pi().mul(S::ratio(2, 1))).sin().mul(S::ratio(5, 10))
            .add(S::ratio(5, 10));
        let modulation = S::one().sub(self.depth).add(self.depth.mul(lfo));
        (
            Tremolo {
                frequency: self.frequency,
                depth: self.depth,
                phase_accum: self.phase_accum.add(self.frequency.div(sample_rate)).fract(),
            },
            x.mul(modulation),
        )
    }

    /// Computes `tick_spec`.
    #[verifier::when_used_as_spec(tick_spec)]
    pub fn tick(self, x: S, sample_rate: S) -> (r: (Self, S))
        ensures
            r.0.same_settings(self),
            S::obeys_sample_spec() ==> r == self.tick_spec(x, sample_rate),
    {
        let lfo = self.phase_accum.mul(S::pi().mul(S::ratio(2, 1))).sin().mul(S::ratio(5, 10))
            .add(S::ratio(5, 10));
        let modulation = S::one().sub(self.depth).add(self.depth.mul(lfo));
        (
            Tremolo {
                frequency: self.frequency,
                depth: self.depth,
                phase_accum: self.phase_accum.add(self.frequency.div(sample_rate)).fract(),
            },
            x.mul(modulation),
        )
    }

    /// The node as a recursion over the samples of a block: the state before
    /// sample `i` to the state after it and the sample put out.
    pub open spec fn stepper(
        inputs: Seq<Seq<S>>,
        sample_rate: S,
    ) -> spec_fn(Self, int) -> (Self, S) {
        |st: Self, i: int| st.tick(inputs[0][i], sample_rate)
    }

    /// Processes one block: runs the recursion over the samples of the block and
    /// writes output 0. A call whose slices do not fit is refused and changes
    /// nothing. Nothing is allocated.
    pub fn process(
        &mut self,
        inputs: &[&[S]],
        outputs: &mut [Vec<S>],
        sample_rate: S,
    ) -> (r: Result<(), ShapeError>)
        ensures
            r == shape_verdict(rows(inputs), cols(old(outputs)@), 1, 1, 1, 1),
            same_lens(final(outputs)@, old(outputs)@),
            same_from(final(outputs)@, old(outputs)@, 1),
            r.is_err() ==> *final(self) == *old(self) && final(outputs)@ == old(outputs)@,
            final(self).same_settings(*old(self)),
            r.is_ok() && S::obeys_sample_spec() ==> renders(
                Self::stepper(rows(inputs), sample_rate),
                *old(self),
                *final(self),
                final(outputs)@[0]@,
            ),
    {
        let n: usize = match check_block(inputs, outputs, 1, 1, 1, 1) {
            Ok(n) => n,
            Err(e) => {
                return Err(e);
            },
        };
        let ghost f = Self::stepper(rows(inputs), sample_rate);
        let ghost st0 = *self;
        let mut i: usize = 0;
        while i < n
            invariant
                i <= n,
                inputs@.len() >= 1,
                outputs@.len() >= 1,
                outputs@[0]@.len() == n,
                forall|p: int| 0 <= p < 1 ==> (#[trigger] inputs@[p])@.len() == n,
                same_lens(outputs@, old(outputs)@),
                same_from(outputs@, old(outputs)@, 1),
                f == Self::stepper(rows(inputs), sample_rate),
                self.same_settings(st0),
                S::obeys_sample_spec() ==> *self == state_after(f, st0, i as nat),
                S::obeys_sample_spec() ==> forall|j: int|
                    0 <= j < i ==> outputs@[0]@[j] == #[trigger] output_at(f, st0, j),
            decreases n - i,
        {
            let x = read_at(inputs, 0, i);
            let (next, y) = self.tick(x, sample_rate);
            *self = next;
            outputs[0][i] = y;
            i += 1;
        }
        Ok(())
    }

    /// Puts the node back to the state that `new` gave it; its settings stay.
    pub open spec fn reset_spec(self) -> Self {
        Tremolo { frequency: self.frequency, depth: self.depth, phase_accum: S::zero() }
    }

    /// Performs `reset_spec` in place.
    pub fn reset(&mut self)
        ensures
            final(self).same_settings(*old(self)),
            S::obeys_sample_spec() ==> *final(self) == old(self).reset_spec(),
    {
        *self = Tremolo { frequency: self.frequency, depth: self.depth, phase_accum: S::zero() };
    }

    /// A reset right after `new` changes nothing.
    pub proof fn lemma_reset_after_new(frequency: S, depth: S)
        ensures
            Self::new_spec(frequency, depth).reset_spec() == Self::new_spec(frequency, depth),
    {
    }

    /// The number of inputs that a call requires.
    pub fn num_inputs(&self) -> (r: usize)
        ensures
            r == 1,
    {
        1
    }

    /// The number of outputs that a call writes.
    pub fn num_outputs(&self) -> (r: usize)
        ensures
            r == 1,
    {
        1
    }
}

/// Frequency shifter: the input and a delayed copy of it, which stands for its
/// quarter-turn shift, times the cosine and the sine of a running phase.
#[derive(Debug)]
pub struct FrequencyShifter<S> {
    pub shift_hz: S,
    /// The delay line.
    pub line: DelayLine<S>,
    /// The running phase, in turns.
    pub phase_accum: S,
}

/// What `FrequencyShifter` holds besides its settings.
pub struct FrequencyShifterMemory<S> {
    pub line: DelayView<S>,
    pub phase_accum: S,
}

impl<S> View for FrequencyShifter<S> {
    type V = FrequencyShifterMemory<S>;

    open spec fn view(&self) -> FrequencyShifterMemory<S> {
        FrequencyShifterMemory { line: self.line@, phase_accum: self.phase_accum }
    }
}

impl<S: Sample> FrequencyShifter<S> {
    /// Whether two nodes hold as many samples.
    pub open spec fn same_size(&self, other: &FrequencyShifter<S>) -> bool {
        self.line@.len() == other.line@.len()
    }

    /// Whether two nodes have the same settings.
    pub open spec fn same_settings(&self, other: &FrequencyShifter<S>) -> bool {
        self.shift_hz == other.shift_hz
    }

    /// What a node holds when `new` made it.
    pub open spec fn fresh(shift_hz: S, max_delay_samples: usize) -> FrequencyShifterMemory<S> {
        FrequencyShifterMemory {
            line: DelayView::filled(max_delay_samples as nat, S::zero()),
            phase_accum: S::zero(),
        }
    }

    /// A node in its first state. Whatever the node allocates, it allocates here.
    pub fn new(shift_hz: S, max_delay_samples: usize) -> (r: Self)
        ensures
            S::obeys_sample_spec() ==> r@ == Self::fresh(shift_hz, max_delay_samples),
            r.line@.len() == Self::fresh(shift_hz, max_delay_samples).line.len(),
            r.shift_hz == shift_hz,
    {
        let line = DelayLine::new(max_delay_samples, S::zero());
        FrequencyShifter {
            shift_hz,
            line,
            phase_accum: S::zero(),
        }
    }

    /// The delay in whole samples that stands for a quarter turn at the shift
    /// frequency: the sample rate over twice the magnitude of the shift, rounded,
    /// and at most the length of the line less one.
    pub open spec fn quarter_delay_spec(&self, sample_rate: S, len: usize) -> usize {
        let wanted = sample_rate.div(S::ratio(2, 1).mul(self.shift_hz.abs())).round().to_usize();
        let longest = if len == 0 { 0usize } else { (len - 1) as usize };
        if wanted > longest {
            longest
        } else {
            wanted
        }
    }

    /// Computes `quarter_delay_spec`.
    #[verifier::when_used_as_spec(quarter_delay_spec)]
    pub fn quarter_delay(&self, sample_rate: S, len: usize) -> (r: usize)
        ensures
            S::obeys_sample_spec() ==> r == self.quarter_delay_spec(sample_rate, len),
    {
        let wanted: usize = sample_rate.div(S::ratio(2, 1).mul(self.shift_hz.abs())).round()
            .to_usize();
        let longest: usize = if len == 0 { 0 } else { len - 1 };
        if wanted > longest {
            longest
        } else {
            wanted
        }
    }

    /// One sample: `x cos(a) + d sin(a)` for the sample `d` from the line and the
    /// angle `a` of the phase, which then moves on; the input goes into the line.
    pub open spec fn tick_spec(
        &self,
        st: FrequencyShifterMemory<S>,
        x: S,
        delay: usize,
        sample_rate: S,
    ) -> (FrequencyShifterMemory<S>, S) {
        let shifted = st.line.at(st.line.tap_index(delay as nat));
        let angle = st.phase_accum.mul(S::pi().mul(S::ratio(2, 1)));
        (
            FrequencyShifterMemory {
                line: st.line.push(x),
                phase_accum: st.phase_accum.add(self.shift_hz.div(sample_rate)).fract(),
            },
            x.mul(angle.cos()).add(shifted.mul(angle.sin())),
        )
    }

    /// Performs `tick_spec` on the node in place and returns the sample.
    pub fn tick(&mut self, x: S, delay: usize, sample_rate: S) -> (y: S)
        ensures
            final(self).same_size(old(self)),
            final(self).same_settings(old(self)),
            final(self).line@.cursor == old(self).line@.step().cursor,
            S::obeys_sample_spec() ==> (final(self)@, y) == old(self)
                .tick_spec(old(self)@, x, delay, sample_rate),
    {
        let shifted = self.line.at(self.line.tap_index(delay));
        let angle = self.phase_accum.mul(S::pi().mul(S::ratio(2, 1)));
        let y = x.mul(angle.cos()).add(shifted.mul(angle.sin()));
        self.line.push(x);
        self.phase_accum = self.phase_accum.add(self.shift_hz.div(sample_rate)).fract();
        y
    }

    /// The node as a recursion over the samples of a block: the state before
    /// sample `i` to the state after it and the sample put out.
    pub open spec fn stepper(
        &self,
        inputs: Seq<Seq<S>>,
        sample_rate: S,
    ) -> spec_fn(FrequencyShifterMemory<S>, int) -> (FrequencyShifterMemory<S>, S) {
        |st: FrequencyShifterMemory<S>, i: int| self
            .tick_spec(
                st,
                inputs[0][i],
                self.quarter_delay(sample_rate, st.line.len() as usize),
                sample_rate,
            )
    }

    /// Processes one block: runs the recursion over the samples of the block and
    /// writes output 0. A call whose slices do not fit is refused and changes
    /// nothing. Nothing is allocated.
    pub fn process(
        &mut self,
        inputs: &[&[S]],
        outputs: &mut [Vec<S>],
        sample_rate: S,
    ) -> (r: Result<(), ShapeError>)
        ensures
            r == shape_verdict(rows(inputs), cols(old(outputs)@), 1, 1, 1, 1),
            same_lens(final(outputs)@, old(outputs)@),
            same_from(final(outputs)@, old(outputs)@, 1),
            final(self).same_size(old(self)),
            final(self).same_settings(old(self)),
            r.is_err() ==> final(self)@ == old(self)@ && final(outputs)@ == old(outputs)@,
            r.is_ok() ==> final(self).line@.cursor == cursor_after(
                old(self).line@.cursor,
                old(self).line@.len(),
                final(outputs)@[0]@.len(),
            ),
            r.is_ok() && S::obeys_sample_spec() ==> renders(
                old(self).stepper(rows(inputs), sample_rate),
                old(self)@,
                final(self)@,
                final(outputs)@[0]@,
            ),
    {
        let n: usize = match check_block(inputs, outputs, 1, 1, 1, 1) {
            Ok(n) => n,
            Err(e) => {
                return Err(e);
            },
        };
        let ghost st_node = *self;
        let ghost f = st_node.stepper(rows(inputs), sample_rate);
        let ghost st0 = self@;
        let prep = self.quarter_delay(sample_rate, self.line.len());
        let mut i: usize = 0;
        while i < n
            invariant
                i <= n,
                inputs@.len() >= 1,
                outputs@.len() >= 1,
                outputs@[0]@.len() == n,
                forall|p: int| 0 <= p < 1 ==> (#[trigger] inputs@[p])@.len() == n,
                same_lens(outputs@, old(outputs)@),
                same_from(outputs@, old(outputs)@, 1),
                self.same_size(old(self)),
                self.line@.cursor == cursor_after(
                    old(self).line@.cursor,
                    old(self).line@.len(),
                    i as nat,
                ),
                self.same_settings(old(self)),
                self.same_settings(&st_node),
                f == st_node.stepper(rows(inputs), sample_rate),
                S::obeys_sample_spec() ==> prep == self
                    .quarter_delay(sample_rate, self.line@.len() as usize),
                S::obeys_sample_spec() ==> self@ == state_after(f, st0, i as nat),
                S::obeys_sample_spec() ==> forall|j: int|
                    0 <= j < i ==> outputs@[0]@[j] == #[trigger] output_at(f, st0, j),
            decreases n - i,
        {
            let x = read_at(inputs, 0, i);
            let y = self.tick(x, prep, sample_rate);
            outputs[0][i] = y;
            i += 1;
        }
        Ok(())
    }

    /// Puts the node back to what `new` gave it; its settings and the lengths of
    /// its lines stay. Nothing is allocated.
    pub fn reset(&mut self)
        ensures
            final(self).same_size(old(self)),
            final(self).same_settings(old(self)),
            S::obeys_sample_spec() ==>
                final(self)@ == (FrequencyShifterMemory { line: old(self)@.line.cleared(S::zero()), phase_accum: S::zero() }),
    {
        self.line.clear(S::zero());
        self.phase_accum = S::zero();
    }

    /// A reset right after `new` changes nothing.
    pub proof fn lemma_reset_after_new(shift_hz: S, max_delay_samples: usize)
        ensures
            (FrequencyShifterMemory { line: Self::fresh(shift_hz, max_delay_samples).line.cleared(S::zero()), phase_accum: S::zero() }) == Self::fresh(
                shift_hz,
                max_delay_samples,
            ),
    {
        lemma_clear_after_new(max_delay_samples as nat, S::zero());
    }

    /// The number of inputs that a call requires.
    pub fn num_inputs(&self) -> (r: usize)
        ensures
            r == 1,
    {
        1
    }

    /// The number of outputs that a call writes.
    pub fn num_outputs(&self) -> (r: usize)
        ensures
            r == 1,
    {
        1
    }
}

} // verus!
