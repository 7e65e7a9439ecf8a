//! Oscillators that stand alone and fill every output they are given.

use crate::block::{
    lens_of, output_at, renders_all, same_lens, samples_before, state_after, ShapeError,
};
use crate::sample::Sample;
use vstd::prelude::*;

verus! {

/// Sine oscillator. Its phase is kept in radians.
#[derive(Debug, Clone, Copy)]
pub struct SineOsc<S> {
    pub freq: S,
    pub phase: S,
}

impl<S: Sample> SineOsc<S> {
    /// A source in its first state.
    pub open spec fn new_spec(freq: S) -> Self {
        SineOsc { freq, phase: S::zero() }
    }

    /// Computes `new_spec`.
    #[verifier::when_used_as_spec(new_spec)]
    pub fn new(freq: S) -> (r: Self)
        ensures
            S::obeys_sample_spec() ==> r == Self::new_spec(freq),
    {
        SineOsc { freq, phase: S::zero() }
    }

    /// The angle in radians that the frequency covers per sample.
    pub open spec fn step_spec(&self, sample_rate: S) -> S {
        S::ratio(2, 1).mul(S::pi()).mul(self.freq).div(sample_rate)
    }

    /// Computes `step_spec`.
    #[verifier::when_used_as_spec(step_spec)]
    pub fn step(&self, sample_rate: S) -> (r: S)
        ensures
            S::obeys_sample_spec() ==> r == self.step_spec(sample_rate),
    {
        S::ratio(2, 1).mul(S::pi()).mul(self.freq).div(sample_rate)
    }

    /// Whether two nodes have the same settings.
    pub open spec fn same_settings(self, other: Self) -> bool {
        self.freq == other.freq
    }

    /// One sample: the sine of the phase, which then moves on and wraps at a full
    /// turn.
    pub open spec fn tick_spec(self, step: S) -> (Self, S) {
        let y = self.phase.sin();
        (
            SineOsc {
                freq: self.freq,
                phase: self.phase.add(step).rem(S::ratio(2, 1).mul(S::pi())),
            },
            y,
        )
    }

    /// Computes `tick_spec`.
    #[verifier::when_used_as_spec(tick_spec)]
    pub fn tick(self, step: S) -> (r: (Self, S))
        ensures
            r.0.same_settings(self),
            S::obeys_sample_spec() ==> r == self.tick_spec(step),
    {
        let y = self.phase.sin();
        (
            SineOsc {
                freq: self.freq,
                phase: self.phase.add(step).rem(S::ratio(2, 1).mul(S::pi())),
            },
            y,
        )
    }

    /// The source as a recursion over the samples it puts out.
    pub open spec fn stepper(sample_rate: S) -> spec_fn(Self, int) -> (Self, S) {
        |st: Self, i: int| st.tick(st.step(sample_rate))
    }

    /// Fills every output in turn, so that the outputs, one after the other, carry
    /// one run of samples. It fails where there is no output. Nothing is allocated.
    pub fn process(
        &mut self,
        _inputs: &[&[S]],
        outputs: &mut [Vec<S>],
        sample_rate: S,
    ) -> (r: Result<(), ShapeError>)
        ensures
            r == (if old(outputs)@.len() >= 1 {
                Ok::<(), ShapeError>(())
            } else {
                Err::<(), ShapeError>(ShapeError::MissingOutput)
            }),
            same_lens(final(outputs)@, old(outputs)@),
            r.is_err() ==> *final(self) == *old(self) && final(outputs)@ == old(outputs)@,
            final(self).same_settings(*old(self)),
            r
                .is_ok() && S::obeys_sample_spec() ==>
                    renders_all(
                        Self::stepper(sample_rate),
                        *old(self),
                        *final(self),
                        final(outputs)@,
                    ),
    {
        let count: usize = outputs.len();
        if count == 0 {
            return Err(ShapeError::MissingOutput);
        }
        let ghost f = Self::stepper(sample_rate);
        let ghost st0 = *self;
        let ghost lens = lens_of(outputs@);
        let prep = self.step(sample_rate);
        let mut q: usize = 0;
        while q < count
            invariant
                q <= count,
                count == outputs@.len(),
                same_lens(outputs@, old(outputs)@),
                lens == lens_of(outputs@),
                f == Self::stepper(sample_rate),
                S::obeys_sample_spec() ==> prep == self.step(sample_rate),
                self.same_settings(st0),
                S::obeys_sample_spec() ==>
                    *self == state_after(f, st0, samples_before(lens, q as nat)),
                S::obeys_sample_spec() ==> forall|p: int, j: int|
                    0 <= p < q && 0 <= j < outputs@[p]@
                        .len() ==> (#[trigger] outputs@[p]@[j]) == output_at(
                        f,
                        st0,
                        samples_before(lens, p as nat) + j,
                    ),
            decreases count - q,
        {
            let n: usize = outputs[q].len();
            let mut i: usize = 0;
            while i < n
                invariant
                    q < count,
                    i <= n,
                    n == outputs@[q as int]@.len(),
                    count == outputs@.len(),
                    same_lens(outputs@, old(outputs)@),
                    lens == lens_of(outputs@),
                    f == Self::stepper(sample_rate),
                    S::obeys_sample_spec() ==> prep == self.step(sample_rate),
                    self.same_settings(st0),
                    S::obeys_sample_spec() ==>
                        *self == state_after(f, st0, (samples_before(lens, q as nat) + i) as nat),
                    S::obeys_sample_spec() ==> forall|p: int, j: int|
                        0 <= p < q && 0 <= j < outputs@[p]@
                            .len() ==> (#[trigger] outputs@[p]@[j]) == output_at(
                            f,
                            st0,
                            samples_before(lens, p as nat) + j,
                        ),
                    S::obeys_sample_spec() ==> forall|j: int|
                        0 <= j < i ==>
                            (#[trigger] outputs@[q as int]@[j]) == output_at(
                                f,
                                st0,
                                samples_before(lens, q as nat) + j,
                            ),
                decreases n - i,
            {
                let (next, y) = self.tick(prep);
                *self = next;
                outputs[q][i] = y;
                assert(lens == lens_of(outputs@));
                i += 1;
            }
            assert(samples_before(lens, (q + 1) as nat) == samples_before(lens, q as nat) + n);
            q += 1;
        }
        Ok(())
    }

    /// Puts the source back to the state that `new` gave it; its settings stay.
    pub open spec fn reset_spec(self) -> Self {
        SineOsc { freq: self.freq, phase: S::zero() }
    }

    /// Performs `reset_spec` in place.
    pub fn reset(&mut self)
        ensures
            final(self).same_settings(*old(self)),
            S::obeys_sample_spec() ==> *final(self) == old(self).reset_spec(),
    {
        *self = SineOsc { freq: self.freq, phase: S::zero() };
    }

    /// A reset right after `new` changes nothing.
    pub proof fn lemma_reset_after_new(freq: S)
        ensures
            Self::new_spec(freq).reset_spec() == Self::new_spec(freq),
    {
    }

    /// The number of inputs that a call requires.
    pub fn num_inputs(&self) -> (r: usize)
        ensures
            r == 0,
    {
        0
    }

    /// The number of outputs that a call writes.
    pub fn num_outputs(&self) -> (r: usize)
        ensures
            r == 1,
    {
        1
    }
}

/// Sawtooth oscillator without band limiting.
#[derive(Debug, Clone, Copy)]
pub struct SawOsc<S> {
    pub freq: S,
    pub phase: S,
}

impl<S: Sample> SawOsc<S> {
    /// A source in its first state.
    pub open spec fn new_spec(freq: S) -> Self {
        SawOsc { freq, phase: S::zero() }
    }

    /// Computes `new_spec`.
    #[verifier::when_used_as_spec(new_spec)]
    pub fn new(freq: S) -> (r: Self)
        ensures
            S::obeys_sample_spec() ==> r == Self::new_spec(freq),
    {
        SawOsc { freq, phase: S::zero() }
    }

    /// The part of a turn that the frequency covers per sample.
    pub open spec fn step_spec(&self, sample_rate: S) -> S {
        self.freq.div(sample_rate)
    }

    /// Computes `step_spec`.
    #[verifier::when_used_as_spec(step_spec)]
    pub fn step(&self, sample_rate: S) -> (r: S)
        ensures
            S::obeys_sample_spec() ==> r == self.step_spec(sample_rate),
    {
        self.freq.div(sample_rate)
    }

    /// Whether two nodes have the same settings.
    pub open spec fn same_settings(self, other: Self) -> bool {
        self.freq == other.freq
    }

    /// One sample: the ramp `2 frac(phase + 1/2) - 1`, which is at zero where the
    /// phase is zero.
    pub open spec fn tick_spec(self, step: S) -> (Self, S) {
        let y = S::ratio(2, 1).mul(self.phase.add(S::ratio(5, 10)).fract()).sub(S::one());
        (SawOsc { freq: self.freq, phase: self.phase.add(step).rem(S::one()) }, y)
    }

    /// Computes `tick_spec`.
    #[verifier::when_used_as_spec(tick_spec)]
    pub fn tick(self, step: S) -> (r: (Self, S))
        ensures
            r.0.same_settings(self),
            S::obeys_sample_spec() ==> r == self.tick_spec(step),
    {
        let y = S::ratio(2, 1).mul(self.phase.add(S::ratio(5, 10)).fract()).sub(S::one());
        (SawOsc { freq: self.freq, phase: self.phase.add(step).rem(S::one()) }, y)
    }

    /// The source as a recursion over the samples it puts out.
    pub open spec fn stepper(sample_rate: S) -> spec_fn(Self, int) -> (Self, S) {
        |st: Self, i: int| st.tick(st.step(sample_rate))
    }

    /// Fills every output in turn, so that the outputs, one after the other, carry
    /// one run of samples. It fails where there is no output. Nothing is allocated.
    pub fn process(
        &mut self,
        _inputs: &[&[S]],
        outputs: &mut [Vec<S>],
        sample_rate: S,
    ) -> (r: Result<(), ShapeError>)
        ensures
            r == (if old(outputs)@.len() >= 1 {
                Ok::<(), ShapeError>(())
            } else {
                Err::<(), ShapeError>(ShapeError::MissingOutput)
            }),
            same_lens(final(outputs)@, old(outputs)@),
            r.is_err() ==> *final(self) == *old(self) && final(outputs)@ == old(outputs)@,
            final(self).same_settings(*old(self)),
            r
                .is_ok() && S::obeys_sample_spec() ==>
                    renders_all(
                        Self::stepper(sample_rate),
                        *old(self),
                        *final(self),
                        final(outputs)@,
                    ),
    {
        let count: usize = outputs.len();
        if count == 0 {
            return Err(ShapeError::MissingOutput);
        }
        let ghost f = Self::stepper(sample_rate);
        let ghost st0 = *self;
        let ghost lens = lens_of(outputs@);
        let prep = self.step(sample_rate);
        let mut q: usize = 0;
        while q < count
            invariant
                q <= count,
                count == outputs@.len(),
                same_lens(outputs@, old(outputs)@),
                lens == lens_of(outputs@),
                f == Self::stepper(sample_rate),
                S::obeys_sample_spec() ==> prep == self.step(sample_rate),
                self.same_settings(st0),
                S::obeys_sample_spec() ==>
                    *self == state_after(f, st0, samples_before(lens, q as nat)),
                S::obeys_sample_spec() ==> forall|p: int, j: int|
                    0 <= p < q && 0 <= j < outputs@[p]@
                        .len() ==> (#[trigger] outputs@[p]@[j]) == output_at(
                        f,
                        st0,
                        samples_before(lens, p as nat) + j,
                    ),
            decreases count - q,
        {
            let n: usize = outputs[q].len();
            let mut i: usize = 0;
            while i < n
                invariant
                    q < count,
                    i <= n,
                    n == outputs@[q as int]@.len(),
                    count == outputs@.len(),
                    same_lens(outputs@, old(outputs)@),
                    lens == lens_of(outputs@),
                    f == Self::stepper(sample_rate),
                    S::obeys_sample_spec() ==> prep == self.step(sample_rate),
                    self.same_settings(st0),
                    S::obeys_sample_spec() ==>
                        *self == state_after(f, st0, (samples_before(lens, q as nat) + i) as nat),
                    S::obeys_sample_spec() ==> forall|p: int, j: int|
                        0 <= p < q && 0 <= j < outputs@[p]@
                            .len() ==> (#[trigger] outputs@[p]@[j]) == output_at(
                            f,
                            st0,
                            samples_before(lens, p as nat) + j,
                        ),
                    S::obeys_sample_spec() ==> forall|j: int|
                        0 <= j < i ==>
                            (#[trigger] outputs@[q as int]@[j]) == output_at(
                                f,
                                st0,
                                samples_before(lens, q as nat) + j,
                            ),
                decreases n - i,
            {
                let (next, y) = self.tick(prep);
                *self = next;
                outputs[q][i] = y;
                assert(lens == lens_of(outputs@));
                i += 1;
            }
            assert(samples_before(lens, (q + 1) as nat) == samples_before(lens, q as nat) + n);
            q += 1;
        }
        Ok(())
    }

    /// Puts the source back to the state that `new` gave it; its settings stay.
    pub open spec fn reset_spec(self) -> Self {
        SawOsc { freq: self.freq, phase: S::zero() }
    }

    /// Performs `reset_spec` in place.
    pub fn reset(&mut self)
        ensures
            final(self).same_settings(*old(self)),
            S::obeys_sample_spec() ==> *final(self) == old(self).reset_spec(),
    {
        *self = SawOsc { freq: self.freq, phase: S::zero() };
    }

    /// A reset right after `new` changes nothing.
    pub proof fn lemma_reset_after_new(freq: S)
        ensures
            Self::new_spec(freq).reset_spec() == Self::new_spec(freq),
    {
    }

    /// The number of inputs that a call requires.
    pub fn num_inputs(&self) -> (r: usize)
        ensures
            r == 0,
    {
        0
    }

    /// The number of outputs that a call writes.
    pub fn num_outputs(&self) -> (r: usize)
        ensures
            r == 1,
    {
        1
    }
}

/// Square oscillator without band limiting. The duty cycle is held in `[0, 1]`.
#[derive(Debug, Clone, Copy)]
pub struct SquareOsc<S> {
    pub freq: S,
    pub duty: S,
    pub phase: S,
}

impl<S: Sample> SquareOsc<S> {
    /// A source in its first state.
    pub open spec fn new_spec(freq: S, duty: S) -> Self {
        SquareOsc { freq, duty: duty.clamp(S::zero(), S::one()), phase: S::zero() }
    }

    /// Computes `new_spec`.
    #[verifier::when_used_as_spec(new_spec)]
    pub fn new(freq: S, duty: S) -> (r: Self)
        ensures
            S::obeys_sample_spec() ==> r == Self::new_spec(freq, duty),
    {
        SquareOsc { freq, duty: duty.clamp(S::zero(), S::one()), phase: S::zero() }
    }

    /// The part of a turn that the frequency covers per sample.
    pub open spec fn step_spec(&self, sample_rate: S) -> S {
        self.freq.div(sample_rate)
    }

    /// Computes `step_spec`.
    #[verifier::when_used_as_spec(step_spec)]
    pub fn step(&self, sample_rate: S) -> (r: S)
        ensures
            S::obeys_sample_spec() ==> r == self.step_spec(sample_rate),
    {
        self.freq.div(sample_rate)
    }

    /// Whether two nodes have the same settings.
    pub open spec fn same_settings(self, other: Self) -> bool {
        &&& self.freq == other.freq
        &&& self.duty == other.duty
    }

    /// One sample: one while the phase is below the duty cycle, minus one
    /// elsewhere.
    pub open spec fn tick_spec(self, step: S) -> (Self, S) {
        let y = if self.phase.rem(S::one()).lt(self.duty) {
            S::one()
        } else {
            S::one().neg()
        };
        (
            SquareOsc {
                freq: self.freq,
                duty: self.duty,
                phase: self.phase.add(step).rem(S::one()),
            },
            y,
        )
    }

    /// Computes `tick_spec`.
    #[verifier::when_used_as_spec(tick_spec)]
    pub fn tick(self, step: S) -> (r: (Self, S))
        ensures
            r.0.same_settings(self),
            S::obeys_sample_spec() ==> r == self.tick_spec(step),
    {
        let y = if self.phase.rem(S::one()).lt(self.duty) {
            S::one()
        } else {
            S::one().neg()
        };
        (
            SquareOsc {
                freq: self.freq,
                duty: self.duty,
                phase: self.phase.add(step).rem(S::one()),
            },
            y,
        )
    }

    /// The source as a recursion over the samples it puts out.
    pub open spec fn stepper(sample_rate: S) -> spec_fn(Self, int) -> (Self, S) {
        |st: Self, i: int| st.tick(st.step(sample_rate))
    }

    /// Fills every output in turn, so that the outputs, one after the other, carry
    /// one run of samples. It fails where there is no output. Nothing is allocated.
    pub fn process(
        &mut self,
        _inputs: &[&[S]],
        outputs: &mut [Vec<S>],
        sample_rate: S,
    ) -> (r: Result<(), ShapeError>)
        ensures
            r == (if old(outputs)@.len() >= 1 {
                Ok::<(), ShapeError>(())
            } else {
                Err::<(), ShapeError>(ShapeError::MissingOutput)
            }),
            same_lens(final(outputs)@, old(outputs)@),
            r.is_err() ==> *final(self) == *old(self) && final(outputs)@ == old(outputs)@,
            final(self).same_settings(*old(self)),
            r
                .is_ok() && S::obeys_sample_spec() ==>
                    renders_all(
                        Self::stepper(sample_rate),
                        *old(self),
                        *final(self),
                        final(outputs)@,
                    ),
    {
        let count: usize = outputs.len();
        if count == 0 {
            return Err(ShapeError::MissingOutput);
        }
        let ghost f = Self::stepper(sample_rate);
        let ghost st0 = *self;
        let ghost lens = lens_of(outputs@);
        let prep = self.step(sample_rate);
        let mut q: usize = 0;
        while q < count
            invariant
                q <= count,
                count == outputs@.len(),
                same_lens(outputs@, old(outputs)@),
                lens == lens_of(outputs@),
                f == Self::stepper(sample_rate),
                S::obeys_sample_spec() ==> prep == self.step(sample_rate),
                self.same_settings(st0),
                S::obeys_sample_spec() ==>
                    *self == state_after(f, st0, samples_before(lens, q as nat)),
                S::obeys_sample_spec() ==> forall|p: int, j: int|
                    0 <= p < q && 0 <= j < outputs@[p]@
                        .len() ==> (#[trigger] outputs@[p]@[j]) == output_at(
                        f,
                        st0,
                        samples_before(lens, p as nat) + j,
                    ),
            decreases count - q,
        {
            let n: usize = outputs[q].len();
            let mut i: usize = 0;
            while i < n
                invariant
                    q < count,
                    i <= n,
                    n == outputs@[q as int]@.len(),
                    count == outputs@.len(),
                    same_lens(outputs@, old(outputs)@),
                    lens == lens_of(outputs@),
                    f == Self::stepper(sample_rate),
                    S::obeys_sample_spec() ==> prep == self.step(sample_rate),
                    self.same_settings(st0),
                    S::obeys_sample_spec() ==>
                        *self == state_after(f, st0, (samples_before(lens, q as nat) + i) as nat),
                    S::obeys_sample_spec() ==> forall|p: int, j: int|
                        0 <= p < q && 0 <= j < outputs@[p]@
                            .len() ==> (#[trigger] outputs@[p]@[j]) == output_at(
                            f,
                            st0,
                            samples_before(lens, p as nat) + j,
                        ),
                    S::obeys_sample_spec() ==> forall|j: int|
                        0 <= j < i ==>
                            (#[trigger] outputs@[q as int]@[j]) == output_at(
                                f,
                                st0,
                                samples_before(lens, q as nat) + j,
                            ),
                decreases n - i,
            {
                let (next, y) = self.tick(prep);
                *self = next;
                outputs[q][i] = y;
                assert(lens == lens_of(outputs@));
                i += 1;
            }
            assert(samples_before(lens, (q + 1) as nat) == samples_before(lens, q as nat) + n);
            q += 1;
        }
        Ok(())
    }

    /// Puts the source back to the state that `new` gave it; its settings stay.
    pub open spec fn reset_spec(self) -> Self {
        SquareOsc { freq: self.freq, duty: self.duty, phase: S::zero() }
    }

    /// Performs `reset_spec` in place.
    pub fn reset(&mut self)
        ensures
            final(self).same_settings(*old(self)),
            S::obeys_sample_spec() ==> *final(self) == old(self).reset_spec(),
    {
        *self = SquareOsc { freq: self.freq, duty: self.duty, phase: S::zero() };
    }

    /// A reset right after `new` changes nothing.
    pub proof fn lemma_reset_after_new(freq: S, duty: S)
        ensures
            Self::new_spec(freq, duty).reset_spec() == Self::new_spec(freq, duty),
    {
    }

    /// The number of inputs that a call requires.
    pub fn num_inputs(&self) -> (r: usize)
        ensures
            r == 0,
    {
        0
    }

    /// The number of outputs that a call writes.
    pub fn num_outputs(&self) -> (r: usize)
        ensures
            r == 1,
    {
        1
    }
}

/// Triangle oscillator.
#[derive(Debug, Clone, Copy)]
pub struct TriangleOsc<S> {
    pub freq: S,
    pub phase: S,
}

impl<S: Sample> TriangleOsc<S> {
    /// A source in its first state.
    pub open spec fn new_spec(freq: S) -> Self {
        TriangleOsc { freq, phase: S::zero() }
    }

    /// Computes `new_spec`.
    #[verifier::when_used_as_spec(new_spec)]
    pub fn new(freq: S) -> (r: Self)
        ensures
            S::obeys_sample_spec() ==> r == Self::new_spec(freq),
    {
        TriangleOsc { freq, phase: S::zero() }
    }

    /// The part of a turn that the frequency covers per sample.
    pub open spec fn step_spec(&self, sample_rate: S) -> S {
        self.freq.div(sample_rate)
    }

    /// Computes `step_spec`.
    #[verifier::when_used_as_spec(step_spec)]
    pub fn step(&self, sample_rate: S) -> (r: S)
        ensures
            S::obeys_sample_spec() ==> r == self.step_spec(sample_rate),
    {
        self.freq.div(sample_rate)
    }

    /// Whether two nodes have the same settings.
    pub open spec fn same_settings(self, other: Self) -> bool {
        self.freq == other.freq
    }

    /// One sample: `4 p - 1` in the first half of the period and `3 - 4 p` in the
    /// second.
    pub open spec fn tick_spec(self, step: S) -> (Self, S) {
        let p = self.phase.rem(S::one());
        let y = if p.lt(S::ratio(5, 10)) {
            S::ratio(4, 1).mul(p).sub(S::one())
        } else {
            S::ratio(3, 1).sub(S::ratio(4, 1).mul(p))
        };
        (TriangleOsc { freq: self.freq, phase: self.phase.add(step).rem(S::one()) }, y)
    }

    /// Computes `tick_spec`.
    #[verifier::when_used_as_spec(tick_spec)]
    pub fn tick(self, step: S) -> (r: (Self, S))
        ensures
            r.0.same_settings(self),
            S::obeys_sample_spec() ==> r == self.tick_spec(step),
    {
        let p = self.phase.rem(S::one());
        let y = if p.lt(S::ratio(5, 10)) {
            S::ratio(4, 1).mul(p).sub(S::one())
        } else {
            S::ratio(3, 1).sub(S::ratio(4, 1).mul(p))
        };
        (TriangleOsc { freq: self.freq, phase: self.phase.add(step).rem(S::one()) }, y)
    }

    /// The source as a recursion over the samples it puts out.
    pub open spec fn stepper(sample_rate: S) -> spec_fn(Self, int) -> (Self, S) {
        |st: Self, i: int| st.tick(st.step(sample_rate))
    }

    /// Fills every output in turn, so that the outputs, one after the other, carry
    /// one run of samples. It fails where there is no output. Nothing is allocated.
    pub fn process(
        &mut self,
        _inputs: &[&[S]],
        outputs: &mut [Vec<S>],
        sample_rate: S,
    ) -> (r: Result<(), ShapeError>)
        ensures
            r == (if old(outputs)@.len() >= 1 {
                Ok::<(), ShapeError>(())
            } else {
                Err::<(), ShapeError>(ShapeError::MissingOutput)
            }),
            same_lens(final(outputs)@, old(outputs)@),
            r.is_err() ==> *final(self) == *old(self) && final(outputs)@ == old(outputs)@,
            final(self).same_settings(*old(self)),
            r
                .is_ok() && S::obeys_sample_spec() ==>
                    renders_all(
                        Self::stepper(sample_rate),
                        *old(self),
                        *final(self),
                        final(outputs)@,
                    ),
    {
        let count: usize = outputs.len();
        if count == 0 {
            return Err(ShapeError::MissingOutput);
        }
        let ghost f = Self::stepper(sample_rate);
        let ghost st0 = *self;
        let ghost lens = lens_of(outputs@);
        let prep = self.step(sample_rate);
        let mut q: usize = 0;
        while q < count
            invariant
                q <= count,
                count == outputs@.len(),
                same_lens(outputs@, old(outputs)@),
                lens == lens_of(outputs@),
                f == Self::stepper(sample_rate),
                S::obeys_sample_spec() ==> prep == self.step(sample_rate),
                self.same_settings(st0),
                S::obeys_sample_spec() ==>
                    *self == state_after(f, st0, samples_before(lens, q as nat)),
                S::obeys_sample_spec() ==> forall|p: int, j: int|
                    0 <= p < q && 0 <= j < outputs@[p]@
                        .len() ==> (#[trigger] outputs@[p]@[j]) == output_at(
                        f,
                        st0,
                        samples_before(lens, p as nat) + j,
                    ),
            decreases count - q,
        {
            let n: usize = outputs[q].len();
            let mut i: usize = 0;
            while i < n
                invariant
                    q < count,
                    i <= n,
                    n == outputs@[q as int]@.len(),
                    count == outputs@.len(),
                    same_lens(outputs@, old(outputs)@),
                    lens == lens_of(outputs@),
                    f == Self::stepper(sample_rate),
                    S::obeys_sample_spec() ==> prep == self.step(sample_rate),
                    self.same_settings(st0),
                    S::obeys_sample_spec() ==>
                        *self == state_after(f, st0, (samples_before(lens, q as nat) + i) as nat),
                    S::obeys_sample_spec() ==> forall|p: int, j: int|
                        0 <= p < q && 0 <= j < outputs@[p]@
                            .len() ==> (#[trigger] outputs@[p]@[j]) == output_at(
                            f,
                            st0,
                            samples_before(lens, p as nat) + j,
                        ),
                    S::obeys_sample_spec() ==> forall|j: int|
                        0 <= j < i ==>
                            (#[trigger] outputs@[q as int]@[j]) == output_at(
                                f,
                                st0,
                                samples_before(lens, q as nat) + j,
                            ),
                decreases n - i,
            {
                let (next, y) = self.tick(prep);
                *self = next;
                outputs[q][i] = y;
                assert(lens == lens_of(outputs@));
                i += 1;
            }
            assert(samples_before(lens, (q + 1) as nat) == samples_before(lens, q as nat) + n);
            q += 1;
        }
        Ok(())
    }

    /// Puts the source back to the state that `new` gave it; its settings stay.
    pub open spec fn reset_spec(self) -> Self {
        TriangleOsc { freq: self.freq, phase: S::zero() }
    }

    /// Performs `reset_spec` in place.
    pub fn reset(&mut self)
        ensures
            final(self).same_settings(*old(self)),
            S::obeys_sample_spec() ==> *final(self) == old(self).reset_spec(),
    {
        *self = TriangleOsc { freq: self.freq, phase: S::zero() };
    }

    /// A reset right after `new` changes nothing.
    pub proof fn lemma_reset_after_new(freq: S)
        ensures
            Self::new_spec(freq).reset_spec() == Self::new_spec(freq),
    {
    }

    /// The number of inputs that a call requires.
    pub fn num_inputs(&self) -> (r: usize)
        ensures
            r == 0,
    {
        0
    }

    /// The number of outputs that a call writes.
    pub fn num_outputs(&self) -> (r: usize)
        ensures
            r == 1,
    {
        1
    }
}

/// White noise from a 32-bit linear congruential generator.
#[derive(Debug, Clone, Copy)]
pub struct NoiseOsc {
    pub seed: u32,
}

impl NoiseOsc {
    /// A source in its first state.
    pub open spec fn new_spec() -> Self {
        NoiseOsc { seed: 12345 }
    }

    /// Computes `new_spec`.
    #[verifier::when_used_as_spec(new_spec)]
    pub fn new() -> (r: Self)
        ensures
            r == Self::new_spec(),
    {
        NoiseOsc { seed: 12345 }
    }

    /// The state of the generator after `seed`: `seed * 1664525 + 1013904223`
    /// modulo two to the power 32.
    pub open spec fn next_seed(seed: u32) -> u32 {
        seed.wrapping_mul(1664525).wrapping_add(1013904223)
    }

    /// The state of the generator `k` samples after `seed`.
    pub open spec fn seed_after(seed: u32, k: nat) -> u32
        decreases k,
    {
        if k == 0 {
            seed
        } else {
            Self::next_seed(Self::seed_after(seed, (k - 1) as nat))
        }
    }

    /// One sample: the generator moves on, `seed * 1664525 + 1013904223` modulo two
    /// to the power 32, and is scaled to `[-1, 1]`.
    pub open spec fn tick_spec<S: Sample>(self) -> (Self, S) {
        let seed = self.seed.wrapping_mul(1664525).wrapping_add(1013904223);
        (
            NoiseOsc { seed },
            S::from_u32(seed).div(S::from_u32(u32::MAX)).mul(S::ratio(2, 1)).sub(S::one()),
        )
    }

    /// Computes `tick_spec`.
    #[verifier::when_used_as_spec(tick_spec)]
    pub fn tick<S: Sample>(self) -> (r: (Self, S))
        ensures
            r.0.seed == Self::next_seed(self.seed),
            S::obeys_sample_spec() ==> r == self.tick_spec::<S>(),
    {
        let seed = self.seed.wrapping_mul(1664525).wrapping_add(1013904223);
        (
            NoiseOsc { seed },
            S::from_u32(seed).div(S::from_u32(u32::MAX)).mul(S::ratio(2, 1)).sub(S::one()),
        )
    }

    /// The source as a recursion over the samples it puts out.
    pub open spec fn stepper<S: Sample>(sample_rate: S) -> spec_fn(Self, int) -> (Self, S) {
        |st: Self, i: int| st.tick::<S>()
    }

    /// Fills every output in turn, so that the outputs, one after the other, carry
    /// one run of samples. It fails where there is no output. Nothing is allocated.
    pub fn process<S: Sample>(
        &mut self,
        _inputs: &[&[S]],
        outputs: &mut [Vec<S>],
        sample_rate: S,
    ) -> (r: Result<(), ShapeError>)
        ensures
            r == (if old(outputs)@.len() >= 1 {
                Ok::<(), ShapeError>(())
            } else {
                Err::<(), ShapeError>(ShapeError::MissingOutput)
            }),
            same_lens(final(outputs)@, old(outputs)@),
            r.is_err() ==> *final(self) == *old(self) && final(outputs)@ == old(outputs)@,
            r
                .is_ok() ==>
                    final(self).seed == Self::seed_after(
                        old(self).seed,
                        samples_before(lens_of(final(outputs)@), final(outputs)@.len()),
                    ),
            r
                .is_ok() && S::obeys_sample_spec() ==>
                    renders_all(
                        Self::stepper::<S>(sample_rate),
                        *old(self),
                        *final(self),
                        final(outputs)@,
                    ),
    {
        let count: usize = outputs.len();
        if count == 0 {
            return Err(ShapeError::MissingOutput);
        }
        let ghost f = Self::stepper::<S>(sample_rate);
        let ghost st0 = *self;
        let ghost lens = lens_of(outputs@);
        let mut q: usize = 0;
        while q < count
            invariant
                q <= count,
                count == outputs@.len(),
                same_lens(outputs@, old(outputs)@),
                lens == lens_of(outputs@),
                f == Self::stepper::<S>(sample_rate),
                self.seed == Self::seed_after(st0.seed, samples_before(lens, q as nat)),
                S::obeys_sample_spec() ==>
                    *self == state_after(f, st0, samples_before(lens, q as nat)),
                S::obeys_sample_spec() ==> forall|p: int, j: int|
                    0 <= p < q && 0 <= j < outputs@[p]@
                        .len() ==> (#[trigger] outputs@[p]@[j]) == output_at(
                        f,
                        st0,
                        samples_before(lens, p as nat) + j,
                    ),
            decreases count - q,
        {
            let n: usize = outputs[q].len();
            let mut i: usize = 0;
            while i < n
                invariant
                    q < count,
                    i <= n,
                    n == outputs@[q as int]@.len(),
                    count == outputs@.len(),
                    same_lens(outputs@, old(outputs)@),
                    lens == lens_of(outputs@),
                    f == Self::stepper::<S>(sample_rate),
                    self.seed == Self::seed_after(
                        st0.seed,
                        (samples_before(lens, q as nat) + i) as nat,
                    ),
                    S::obeys_sample_spec() ==>
                        *self == state_after(f, st0, (samples_before(lens, q as nat) + i) as nat),
                    S::obeys_sample_spec() ==> forall|p: int, j: int|
                        0 <= p < q && 0 <= j < outputs@[p]@
                            .len() ==> (#[trigger] outputs@[p]@[j]) == output_at(
                            f,
                            st0,
                            samples_before(lens, p as nat) + j,
                        ),
                    S::obeys_sample_spec() ==> forall|j: int|
                        0 <= j < i ==>
                            (#[trigger] outputs@[q as int]@[j]) == output_at(
                                f,
                                st0,
                                samples_before(lens, q as nat) + j,
                            ),
                decreases n - i,
            {
                let (next, y) = self.tick::<S>();
                *self = next;
                outputs[q][i] = y;
                assert(lens == lens_of(outputs@));
                i += 1;
            }
            assert(samples_before(lens, (q + 1) as nat) == samples_before(lens, q as nat) + n);
            q += 1;
        }
        Ok(())
    }

    /// Puts the source back to the state that `new` gave it; its settings stay.
    pub open spec fn reset_spec(self) -> Self {
        NoiseOsc { seed: 12345 }
    }

    /// Performs `reset_spec` in place.
    pub fn reset(&mut self)
        ensures
            *final(self) == old(self).reset_spec(),
    {
        *self = NoiseOsc { seed: 12345 };
    }

    /// A reset right after `new` changes nothing.
    pub proof fn lemma_reset_after_new()
        ensures
            Self::new_spec().reset_spec() == Self::new_spec(),
    {
    }

    /// The number of inputs that a call requires.
    pub fn num_inputs(&self) -> (r: usize)
        ensures
            r == 0,
    {
        0
    }

    /// The number of outputs that a call writes.
    pub fn num_outputs(&self) -> (r: usize)
        ensures
            r == 1,
    {
        1
    }
}

/// Pulse oscillator without band limiting. The width is held in `[0, 1]`.
#[derive(Debug, Clone, Copy)]
pub struct PulseOsc<S> {
    pub freq: S,
    pub width: S,
    pub phase: S,
}

impl<S: Sample> PulseOsc<S> {
    /// A source in its first state.
    pub open spec fn new_spec(freq: S, width: S) -> Self {
        PulseOsc { freq, width: width.clamp(S::zero(), S::one()), phase: S::zero() }
    }

    /// Computes `new_spec`.
    #[verifier::when_used_as_spec(new_spec)]
    pub fn new(freq: S, width: S) -> (r: Self)
        ensures
            S::obeys_sample_spec() ==> r == Self::new_spec(freq, width),
    {
        PulseOsc { freq, width: width.clamp(S::zero(), S::one()), phase: S::zero() }
    }

    /// The part of a turn that the frequency covers per sample.
    pub open spec fn step_spec(&self, sample_rate: S) -> S {
        self.freq.div(sample_rate)
    }

    /// Computes `step_spec`.
    #[verifier::when_used_as_spec(step_spec)]
    pub fn step(&self, sample_rate: S) -> (r: S)
        ensures
            S::obeys_sample_spec() ==> r == self.step_spec(sample_rate),
    {
        self.freq.div(sample_rate)
    }

    /// Whether two nodes have the same settings.
    pub open spec fn same_settings(self, other: Self) -> bool {
        &&& self.freq == other.freq
        &&& self.width == other.width
    }

    /// One sample: one while the phase is below the width, minus one elsewhere.
    pub open spec fn tick_spec(self, step: S) -> (Self, S) {
        let p = self.phase.rem(S::one());
        let y = if p.lt(self.width) {
            S::one()
        } else {
            S::one().neg()
        };
        (
            PulseOsc {
                freq: self.freq,
                width: self.width,
                phase: self.phase.add(step).rem(S::one()),
            },
            y,
        )
    }

    /// Computes `tick_spec`.
    #[verifier::when_used_as_spec(tick_spec)]
    pub fn tick(self, step: S) -> (r: (Self, S))
        ensures
            r.0.same_settings(self),
            S::obeys_sample_spec() ==> r == self.tick_spec(step),
    {
        let p = self.phase.rem(S::one());
        let y = if p.lt(self.width) {
            S::one()
        } else {
            S::one().neg()
        };
        (
            PulseOsc {
                freq: self.freq,
                width: self.width,
                phase: self.phase.add(step).rem(S::one()),
            },
            y,
        )
    }

    /// The source as a recursion over the samples it puts out.
    pub open spec fn stepper(sample_rate: S) -> spec_fn(Self, int) -> (Self, S) {
        |st: Self, i: int| st.tick(st.step(sample_rate))
    }

    /// Fills every output in turn, so that the outputs, one after the other, carry
    /// one run of samples. It fails where there is no output. Nothing is allocated.
    pub fn process(
        &mut self,
        _inputs: &[&[S]],
        outputs: &mut [Vec<S>],
        sample_rate: S,
    ) -> (r: Result<(), ShapeError>)
        ensures
            r == (if old(outputs)@.len() >= 1 {
                Ok::<(), ShapeError>(())
            } else {
                Err::<(), ShapeError>(ShapeError::MissingOutput)
            }),
            same_lens(final(outputs)@, old(outputs)@),
            r.is_err() ==> *final(self) == *old(self) && final(outputs)@ == old(outputs)@,
            final(self).same_settings(*old(self)),
            r
                .is_ok() && S::obeys_sample_spec() ==>
                    renders_all(
                        Self::stepper(sample_rate),
                        *old(self),
                        *final(self),
                        final(outputs)@,
                    ),
    {
        let count: usize = outputs.len();
        if count == 0 {
            return Err(ShapeError::MissingOutput);
        }
        let ghost f = Self::stepper(sample_rate);
        let ghost st0 = *self;
        let ghost lens = lens_of(outputs@);
        let prep = self.step(sample_rate);
        let mut q: usize = 0;
        while q < count
            invariant
                q <= count,
                count == outputs@.len(),
                same_lens(outputs@, old(outputs)@),
                lens == lens_of(outputs@),
                f == Self::stepper(sample_rate),
                S::obeys_sample_spec() ==> prep == self.step(sample_rate),
                self.same_settings(st0),
                S::obeys_sample_spec() ==>
                    *self == state_after(f, st0, samples_before(lens, q as nat)),
                S::obeys_sample_spec() ==> forall|p: int, j: int|
                    0 <= p < q && 0 <= j < outputs@[p]@
                        .len() ==> (#[trigger] outputs@[p]@[j]) == output_at(
                        f,
                        st0,
                        samples_before(lens, p as nat) + j,
                    ),
            decreases count - q,
        {
            let n: usize = outputs[q].len();
            let mut i: usize = 0;
            while i < n
                invariant
                    q < count,
                    i <= n,
                    n == outputs@[q as int]@.len(),
                    count == outputs@.len(),
                    same_lens(outputs@, old(outputs)@),
                    lens == lens_of(outputs@),
                    f == Self::stepper(sample_rate),
                    S::obeys_sample_spec() ==> prep == self.step(sample_rate),
                    self.same_settings(st0),
                    S::obeys_sample_spec() ==>
                        *self == state_after(f, st0, (samples_before(lens, q as nat) + i) as nat),
                    S::obeys_sample_spec() ==> forall|p: int, j: int|
                        0 <= p < q && 0 <= j < outputs@[p]@
                            .len() ==> (#[trigger] outputs@[p]@[j]) == output_at(
                            f,
                            st0,
                            samples_before(lens, p as nat) + j,
                        ),
                    S::obeys_sample_spec() ==> forall|j: int|
                        0 <= j < i ==>
                            (#[trigger] outputs@[q as int]@[j]) == output_at(
                                f,
                                st0,
                                samples_before(lens, q as nat) + j,
                            ),
                decreases n - i,
            {
                let (next, y) = self.tick(prep);
                *self = next;
                outputs[q][i] = y;
                assert(lens == lens_of(outputs@));
                i += 1;
            }
            assert(samples_before(lens, (q + 1) as nat) == samples_before(lens, q as nat) + n);
            q += 1;
        }
        Ok(())
    }

    /// Puts the source back to the state that `new` gave it; its settings stay.
    pub open spec fn reset_spec(self) -> Self {
        PulseOsc { freq: self.freq, width: self.width, phase: S::zero() }
    }

    /// Performs `reset_spec` in place.
    pub fn reset(&mut self)
        ensures
            final(self).same_settings(*old(self)),
            S::obeys_sample_spec() ==> *final(self) == old(self).reset_spec(),
    {
        *self = PulseOsc { freq: self.freq, width: self.width, phase: S::zero() };
    }

    /// A reset right after `new` changes nothing.
    pub proof fn lemma_reset_after_new(freq: S, width: S)
        ensures
            Self::new_spec(freq, width).reset_spec() == Self::new_spec(freq, width),
    {
    }

    /// The number of inputs that a call requires.
    pub fn num_inputs(&self) -> (r: usize)
        ensures
            r == 0,
    {
        0
    }

    /// The number of outputs that a call writes.
    pub fn num_outputs(&self) -> (r: usize)
        ensures
            r == 1,
    {
        1
    }
}

/// Sine oscillator whose frequency another sine modulates.
#[derive(Debug, Clone, Copy)]
pub struct SineFm<S> {
    pub carrier: S,
    pub modulator: S,
    pub index: S,
    pub carrier_phase: S,
    pub modulator_phase: S,
}

impl<S: Sample> SineFm<S> {
    /// A source in its first state.
    pub open spec fn new_spec(carrier: S, modulator: S, index: S) -> Self {
        SineFm { carrier, modulator, index, carrier_phase: S::zero(), modulator_phase: S::zero() }
    }

    /// Computes `new_spec`.
    #[verifier::when_used_as_spec(new_spec)]
    pub fn new(carrier: S, modulator: S, index: S) -> (r: Self)
        ensures
            S::obeys_sample_spec() ==> r == Self::new_spec(carrier, modulator, index),
    {
        SineFm { carrier, modulator, index, carrier_phase: S::zero(), modulator_phase: S::zero() }
    }

    /// The parts of a turn that the carrier and the modulator cover per sample.
    pub open spec fn steps_spec(&self, sample_rate: S) -> (S, S) {
        (self.carrier.div(sample_rate), self.modulator.div(sample_rate))
    }

    /// Computes `steps_spec`.
    #[verifier::when_used_as_spec(steps_spec)]
    pub fn steps(&self, sample_rate: S) -> (r: (S, S))
        ensures
            S::obeys_sample_spec() ==> r == self.steps_spec(sample_rate),
    {
        (self.carrier.div(sample_rate), self.modulator.div(sample_rate))
    }

    /// Whether two nodes have the same settings.
    pub open spec fn same_settings(self, other: Self) -> bool {
        &&& self.carrier == other.carrier
        &&& self.modulator == other.modulator
        &&& self.index == other.index
    }

    /// One sample: the sine of the carrier phase, stretched by the modulated
    /// frequency over the carrier frequency.
    pub open spec fn tick_spec(self, steps: (S, S)) -> (Self, S) {
        let modulation = self.modulator_phase.mul(S::ratio(2, 1)).mul(S::pi()).sin()
            .mul(self.index);
        let carrier_freq = self.carrier.add(modulation);
        let instant_phase = self.carrier_phase.mul(S::ratio(2, 1)).mul(S::pi()).mul(carrier_freq)
            .div(self.carrier);
        (
            SineFm {
                carrier: self.carrier,
                modulator: self.modulator,
                index: self.index,
                carrier_phase: self.carrier_phase.add(steps.0).rem(S::one()),
                modulator_phase: self.modulator_phase.add(steps.1).rem(S::one()),
            },
            instant_phase.sin(),
        )
    }

    /// Computes `tick_spec`.
    #[verifier::when_used_as_spec(tick_spec)]
    pub fn tick(self, steps: (S, S)) -> (r: (Self, S))
        ensures
            r.0.same_settings(self),
            S::obeys_sample_spec() ==> r == self.tick_spec(steps),
    {
        let modulation = self.modulator_phase.mul(S::ratio(2, 1)).mul(S::pi()).sin()
            .mul(self.index);
        let carrier_freq = self.carrier.add(modulation);
        let instant_phase = self.carrier_phase.mul(S::ratio(2, 1)).mul(S::pi()).mul(carrier_freq)
            .div(self.carrier);
        (
            SineFm {
                carrier: self.carrier,
                modulator: self.modulator,
                index: self.index,
                carrier_phase: self.carrier_phase.add(steps.0).rem(S::one()),
                modulator_phase: self.modulator_phase.add(steps.1).rem(S::one()),
            },
            instant_phase.sin(),
        )
    }

    /// The source as a recursion over the samples it puts out.
    pub open spec fn stepper(sample_rate: S) -> spec_fn(Self, int) -> (Self, S) {
        |st: Self, i: int| st.tick(st.steps(sample_rate))
    }

    /// Fills every output in turn, so that the outputs, one after the other, carry
    /// one run of samples. It fails where there is no output. Nothing is allocated.
    pub fn process(
        &mut self,
        _inputs: &[&[S]],
        outputs: &mut [Vec<S>],
        sample_rate: S,
    ) -> (r: Result<(), ShapeError>)
        ensures
            r == (if old(outputs)@.len() >= 1 {
                Ok::<(), ShapeError>(())
            } else {
                Err::<(), ShapeError>(ShapeError::MissingOutput)
            }),
            same_lens(final(outputs)@, old(outputs)@),
            r.is_err() ==> *final(self) == *old(self) && final(outputs)@ == old(outputs)@,
            final(self).same_settings(*old(self)),
            r
                .is_ok() && S::obeys_sample_spec() ==>
                    renders_all(
                        Self::stepper(sample_rate),
                        *old(self),
                        *final(self),
                        final(outputs)@,
                    ),
    {
        let count: usize = outputs.len();
        if count == 0 {
            return Err(ShapeError::MissingOutput);
        }
        let ghost f = Self::stepper(sample_rate);
        let ghost st0 = *self;
        let ghost lens = lens_of(outputs@);
        let prep = self.steps(sample_rate);
        let mut q: usize = 0;
        while q < count
            invariant
                q <= count,
                count == outputs@.len(),
                same_lens(outputs@, old(outputs)@),
                lens == lens_of(outputs@),
                f == Self::stepper(sample_rate),
                S::obeys_sample_spec() ==> prep == self.steps(sample_rate),
                self.same_settings(st0),
                S::obeys_sample_spec() ==>
                    *self == state_after(f, st0, samples_before(lens, q as nat)),
                S::obeys_sample_spec() ==> forall|p: int, j: int|
                    0 <= p < q && 0 <= j < outputs@[p]@
                        .len() ==> (#[trigger] outputs@[p]@[j]) == output_at(
                        f,
                        st0,
                        samples_before(lens, p as nat) + j,
                    ),
            decreases count - q,
        {
            let n: usize = outputs[q].len();
            let mut i: usize = 0;
            while i < n
                invariant
                    q < count,
                    i <= n,
                    n == outputs@[q as int]@.len(),
                    count == outputs@.len(),
                    same_lens(outputs@, old(outputs)@),
                    lens == lens_of(outputs@),
                    f == Self::stepper(sample_rate),
                    S::obeys_sample_spec() ==> prep == self.steps(sample_rate),
                    self.same_settings(st0),
                    S::obeys_sample_spec() ==>
                        *self == state_after(f, st0, (samples_before(lens, q as nat) + i) as nat),
                    S::obeys_sample_spec() ==> forall|p: int, j: int|
                        0 <= p < q && 0 <= j < outputs@[p]@
                            .len() ==> (#[trigger] outputs@[p]@[j]) == output_at(
                            f,
                            st0,
                            samples_before(lens, p as nat) + j,
                        ),
                    S::obeys_sample_spec() ==> forall|j: int|
                        0 <= j < i ==>
                            (#[trigger] outputs@[q as int]@[j]) == output_at(
                                f,
                                st0,
                                samples_before(lens, q as nat) + j,
                            ),
                decreases n - i,
            {
                let (next, y) = self.tick(prep);
                *self = next;
                outputs[q][i] = y;
                assert(lens == lens_of(outputs@));
                i += 1;
            }
            assert(samples_before(lens, (q + 1) as nat) == samples_before(lens, q as nat) + n);
            q += 1;
        }
        Ok(())
    }

    /// Puts the source back to the state that `new` gave it; its settings stay.
    pub open spec fn reset_spec(self) -> Self {
        SineFm {
            carrier: self.carrier,
            modulator: self.modulator,
            index: self.index,
            carrier_phase: S::zero(),
            modulator_phase: S::zero(),
        }
    }

    /// Performs `reset_spec` in place.
    pub fn reset(&mut self)
        ensures
            final(self).same_settings(*old(self)),
            S::obeys_sample_spec() ==> *final(self) == old(self).reset_spec(),
    {
        *self = SineFm {
            carrier: self.carrier,
            modulator: self.modulator,
            index: self.index,
            carrier_phase: S::zero(),
            modulator_phase: S::zero(),
        };
    }

    /// A reset right after `new` changes nothing.
    pub proof fn lemma_reset_after_new(carrier: S, modulator: S, index: S)
        ensures
            Self::new_spec(carrier, modulator, index)
                .reset_spec() == Self::new_spec(carrier, modulator, index),
    {
    }

    /// The number of inputs that a call requires.
    pub fn num_inputs(&self) -> (r: usize)
        ensures
            r == 0,
    {
        0
    }

    /// The number of outputs that a call writes.
    pub fn num_outputs(&self) -> (r: usize)
        ensures
            r == 1,
    {
        1
    }
}

} // verus!
