//! Filters that stand alone: the biquad family, a state-variable filter, a
//! ladder and a comb.

use crate::block::{
    check_block, cols, output_at, read_at, renders, rows, same_from, same_lens, shape_verdict,
    state_after, ShapeError,
};
use crate::delay_line::{cursor_after, lemma_clear_after_new, DelayLine, DelayView};
use crate::helpers::stable_feedback;
use crate::sample::Sample;
use vstd::prelude::*;

verus! {

/// The memory of a biquad section: its last two inputs and outputs.
#[derive(Debug, Clone, Copy)]
pub struct BiquadState<S> {
    pub x1: S,
    pub x2: S,
    pub y1: S,
    pub y2: S,
}

/// The coefficients of a biquad section, in the recursion `y[n] = a0 x[n] + a1
/// x[n-1] + a2 x[n-2] - b1 y[n-1] - b2 y[n-2]`.
#[derive(Debug, Clone, Copy)]
pub struct BiquadCoeffs<S> {
    pub a0: S,
    pub a1: S,
    pub a2: S,
    pub b1: S,
    pub b2: S,
}

impl<S: Sample> BiquadState<S> {
    /// A section at rest.
    pub open spec fn zeroed_spec() -> BiquadState<S> {
        BiquadState { x1: S::zero(), x2: S::zero(), y1: S::zero(), y2: S::zero() }
    }

    /// Computes `zeroed_spec`.
    #[verifier::when_used_as_spec(zeroed_spec)]
    pub fn zeroed() -> (r: BiquadState<S>)
        ensures
            S::obeys_sample_spec() ==> r == Self::zeroed_spec(),
    {
        BiquadState { x1: S::zero(), x2: S::zero(), y1: S::zero(), y2: S::zero() }
    }

    /// One sample of the recursion: the memory after it and the sample put out.
    pub open spec fn tick_spec(self, c: BiquadCoeffs<S>, x: S) -> (BiquadState<S>, S) {
        let y = c.a0.mul(x).add(c.a1.mul(self.x1)).add(c.a2.mul(self.x2)).sub(c.b1.mul(self.y1))
            .sub(c.b2.mul(self.y2));
        (BiquadState { x1: x, x2: self.x1, y1: y, y2: self.y1 }, y)
    }

    /// Computes `tick_spec`.
    #[verifier::when_used_as_spec(tick_spec)]
    pub fn tick(self, c: BiquadCoeffs<S>, x: S) -> (r: (BiquadState<S>, S))
        ensures
            S::obeys_sample_spec() ==> r == self.tick_spec(c, x),
    {
        let y = c.a0.mul(x).add(c.a1.mul(self.x1)).add(c.a2.mul(self.x2)).sub(c.b1.mul(self.y1))
            .sub(c.b2.mul(self.y2));
        (BiquadState { x1: x, x2: self.x1, y1: y, y2: self.y1 }, y)
    }
}

/// The tangent of the bilinear transform: `tan(pi f / fs)`.
pub open spec fn prewarp_spec<S: Sample>(freq: S, sample_rate: S) -> S {
    S::pi().mul(freq).div(sample_rate).tan()
}

/// Computes `prewarp_spec`.
#[verifier::when_used_as_spec(prewarp_spec)]
pub fn prewarp<S: Sample>(freq: S, sample_rate: S) -> (r: S)
    ensures
        S::obeys_sample_spec() ==> r == prewarp_spec::<S>(freq, sample_rate),
{
    S::pi().mul(freq).div(sample_rate).tan()
}

/// Low-pass biquad.
#[derive(Debug, Clone, Copy)]
pub struct Lpf<S> {
    pub cutoff: S,
    pub q: S,
    pub state: BiquadState<S>,
}

impl<S: Sample> Lpf<S> {
    /// A node in its first state.
    pub open spec fn new_spec(cutoff: S, q: S) -> Self {
        Lpf { cutoff, q, state: BiquadState::zeroed() }
    }

    /// Computes `new_spec`.
    #[verifier::when_used_as_spec(new_spec)]
    pub fn new(cutoff: S, q: S) -> (r: Self)
        ensures
            S::obeys_sample_spec() ==> r == Self::new_spec(cutoff, q),
    {
        Lpf { cutoff, q, state: BiquadState::zeroed() }
    }

    /// Whether two nodes have the same settings.
    pub open spec fn same_settings(self, other: Self) -> bool {
        &&& self.cutoff == other.cutoff
        &&& self.q == other.q
    }

    /// The coefficients at a sample rate; they are computed once per block.
    pub open spec fn coefficients_spec(&self, sample_rate: S) -> BiquadCoeffs<S> {
        let k = prewarp(self.cutoff, sample_rate);
        let norm = S::one().div(S::one().add(k.div(self.q)).add(k.mul(k)));
        let a0 = k.mul(k).mul(norm);
        BiquadCoeffs {
            a0,
            a1: S::ratio(2, 1).mul(a0),
            a2: a0,
            b1: S::ratio(2, 1).mul(k.mul(k).sub(S::one())).mul(norm),
            b2: S::one().sub(k.div(self.q)).add(k.mul(k)).mul(norm),
        }
    }

    /// Computes `coefficients_spec`.
    #[verifier::when_used_as_spec(coefficients_spec)]
    pub fn coefficients(&self, sample_rate: S) -> (r: BiquadCoeffs<S>)
        ensures
            S::obeys_sample_spec() ==> r == self.coefficients_spec(sample_rate),
    {
        let k = prewarp(self.cutoff, sample_rate);
        let norm = S::one().div(S::one().add(k.div(self.q)).add(k.mul(k)));
        let a0 = k.mul(k).mul(norm);
        BiquadCoeffs {
            a0,
            a1: S::ratio(2, 1).mul(a0),
            a2: a0,
            b1: S::ratio(2, 1).mul(k.mul(k).sub(S::one())).mul(norm),
            b2: S::one().sub(k.div(self.q)).add(k.mul(k)).mul(norm),
        }
    }

    /// One sample of the section with the coefficients `c`.
    pub open spec fn tick_spec(self, x: S, c: BiquadCoeffs<S>) -> (Self, S) {
        let (state, y) = self.state.tick(c, x);
        (Lpf { cutoff: self.cutoff, q: self.q, state }, y)
    }

    /// Computes `tick_spec`.
    #[verifier::when_used_as_spec(tick_spec)]
    pub fn tick(self, x: S, c: BiquadCoeffs<S>) -> (r: (Self, S))
        ensures
            r.0.same_settings(self),
            S::obeys_sample_spec() ==> r == self.tick_spec(x, c),
    {
        let (state, y) = self.state.tick(c, x);
        (Lpf { cutoff: self.cutoff, q: self.q, state }, y)
    }

    /// The node as a recursion over the samples of a block: the state before
    /// sample `i` to the state after it and the sample put out.
    pub open spec fn stepper(
        inputs: Seq<Seq<S>>,
        sample_rate: S,
    ) -> spec_fn(Self, int) -> (Self, S) {
        |st: Self, i: int| st.tick(inputs[0][i], st.coefficients(sample_rate))
    }

    /// Processes one block: runs the recursion over the samples of the block and
    /// writes output 0. A call whose slices do not fit is refused and changes
    /// nothing. Nothing is allocated.
    pub fn process(
        &mut self,
        inputs: &[&[S]],
        outputs: &mut [Vec<S>],
        sample_rate: S,
    ) -> (r: Result<(), ShapeError>)
        ensures
            r == shape_verdict(rows(inputs), cols(old(outputs)@), 1, 1, 1, 1),
            same_lens(final(outputs)@, old(outputs)@),
            same_from(final(outputs)@, old(outputs)@, 1),
            r.is_err() ==> *final(self) == *old(self) && final(outputs)@ == old(outputs)@,
            final(self).same_settings(*old(self)),
            r.is_ok() && S::obeys_sample_spec() ==> renders(
                Self::stepper(rows(inputs), sample_rate),
                *old(self),
                *final(self),
                final(outputs)@[0]@,
            ),
    {
        let n: usize = match check_block(inputs, outputs, 1, 1, 1, 1) {
            Ok(n) => n,
            Err(e) => {
                return Err(e);
            },
        };
        let ghost f = Self::stepper(rows(inputs), sample_rate);
        let ghost st0 = *self;
        let prep = self.coefficients(sample_rate);
        let mut i: usize = 0;
        while i < n
            invariant
                i <= n,
                inputs@.len() >= 1,
                outputs@.len() >= 1,
                outputs@[0]@.len() == n,
                forall|p: int| 0 <= p < 1 ==> (#[trigger] inputs@[p])@.len() == n,
                same_lens(outputs@, old(outputs)@),
                same_from(outputs@, old(outputs)@, 1),
                f == Self::stepper(rows(inputs), sample_rate),
                self.same_settings(st0),
                S::obeys_sample_spec() ==> prep == self.coefficients(sample_rate),
                S::obeys_sample_spec() ==> *self == state_after(f, st0, i as nat),
                S::obeys_sample_spec() ==> forall|j: int|
                    0 <= j < i ==> outputs@[0]@[j] == #[trigger] output_at(f, st0, j),
            decreases n - i,
        {
            let x = read_at(inputs, 0, i);
            let (next, y) = self.tick(x, prep);
            *self = next;
            outputs[0][i] = y;
            i += 1;
        }
        Ok(())
    }

    /// Puts the node back to the state that `new` gave it; its settings stay.
    pub open spec fn reset_spec(self) -> Self {
        Lpf { cutoff: self.cutoff, q: self.q, state: BiquadState::zeroed() }
    }

    /// Performs `reset_spec` in place.
    pub fn reset(&mut self)
        ensures
            final(self).same_settings(*old(self)),
            S::obeys_sample_spec() ==> *final(self) == old(self).reset_spec(),
    {
        *self = Lpf { cutoff: self.cutoff, q: self.q, state: BiquadState::zeroed() };
    }

    /// A reset right after `new` changes nothing.
    pub proof fn lemma_reset_after_new(cutoff: S, q: S)
        ensures
            Self::new_spec(cutoff, q).reset_spec() == Self::new_spec(cutoff, q),
    {
    }

    /// The number of inputs that a call requires.
    pub fn num_inputs(&self) -> (r: usize)
        ensures
            r == 1,
    {
        1
    }

    /// The number of outputs that a call writes.
    pub fn num_outputs(&self) -> (r: usize)
        ensures
            r == 1,
    {
        1
    }
}

/// High-pass biquad.
#[derive(Debug, Clone, Copy)]
pub struct Hpf<S> {
    pub cutoff: S,
    pub q: S,
    pub state: BiquadState<S>,
}

impl<S: Sample> Hpf<S> {
    /// A node in its first state.
    pub open spec fn new_spec(cutoff: S, q: S) -> Self {
        Hpf { cutoff, q, state: BiquadState::zeroed() }
    }

    /// Computes `new_spec`.
    #[verifier::when_used_as_spec(new_spec)]
    pub fn new(cutoff: S, q: S) -> (r: Self)
        ensures
            S::obeys_sample_spec() ==> r == Self::new_spec(cutoff, q),
    {
        Hpf { cutoff, q, state: BiquadState::zeroed() }
    }

    /// Whether two nodes have the same settings.
    pub open spec fn same_settings(self, other: Self) -> bool {
        &&& self.cutoff == other.cutoff
        &&& self.q == other.q
    }

    /// The coefficients at a sample rate; they are computed once per block.
    pub open spec fn coefficients_spec(&self, sample_rate: S) -> BiquadCoeffs<S> {
        let k = prewarp(self.cutoff, sample_rate);
        let norm = S::one().div(S::one().add(k.div(self.q)).add(k.mul(k)));
        let a0 = S::one().mul(norm);
        BiquadCoeffs {
            a0,
            a1: S::ratio(-2i64, 1).mul(a0),
            a2: a0,
            b1: S::ratio(2, 1).mul(k.mul(k).sub(S::one())).mul(norm),
            b2: S::one().sub(k.div(self.q)).add(k.mul(k)).mul(norm),
        }
    }

    /// Computes `coefficients_spec`.
    #[verifier::when_used_as_spec(coefficients_spec)]
    pub fn coefficients(&self, sample_rate: S) -> (r: BiquadCoeffs<S>)
        ensures
            S::obeys_sample_spec() ==> r == self.coefficients_spec(sample_rate),
    {
        let k = prewarp(self.cutoff, sample_rate);
        let norm = S::one().div(S::one().add(k.div(self.q)).add(k.mul(k)));
        let a0 = S::one().mul(norm);
        BiquadCoeffs {
            a0,
            a1: S::ratio(-2i64, 1).mul(a0),
            a2: a0,
            b1: S::ratio(2, 1).mul(k.mul(k).sub(S::one())).mul(norm),
            b2: S::one().sub(k.div(self.q)).add(k.mul(k)).mul(norm),
        }
    }

    /// One sample of the section with the coefficients `c`.
    pub open spec fn tick_spec(self, x: S, c: BiquadCoeffs<S>) -> (Self, S) {
        let (state, y) = self.state.tick(c, x);
        (Hpf { cutoff: self.cutoff, q: self.q, state }, y)
    }

    /// Computes `tick_spec`.
    #[verifier::when_used_as_spec(tick_spec)]
    pub fn tick(self, x: S, c: BiquadCoeffs<S>) -> (r: (Self, S))
        ensures
            r.0.same_settings(self),
            S::obeys_sample_spec() ==> r == self.tick_spec(x, c),
    {
        let (state, y) = self.state.tick(c, x);
        (Hpf { cutoff: self.cutoff, q: self.q, state }, y)
    }

    /// The node as a recursion over the samples of a block: the state before
    /// sample `i` to the state after it and the sample put out.
    pub open spec fn stepper(
        inputs: Seq<Seq<S>>,
        sample_rate: S,
    ) -> spec_fn(Self, int) -> (Self, S) {
        |st: Self, i: int| st.tick(inputs[0][i], st.coefficients(sample_rate))
    }

    /// Processes one block: runs the recursion over the samples of the block and
    /// writes output 0. A call whose slices do not fit is refused and changes
    /// nothing. Nothing is allocated.
    pub fn process(
        &mut self,
        inputs: &[&[S]],
        outputs: &mut [Vec<S>],
        sample_rate: S,
    ) -> (r: Result<(), ShapeError>)
        ensures
            r == shape_verdict(rows(inputs), cols(old(outputs)@), 1, 1, 1, 1),
            same_lens(final(outputs)@, old(outputs)@),
            same_from(final(outputs)@, old(outputs)@, 1),
            r.is_err() ==> *final(self) == *old(self) && final(outputs)@ == old(outputs)@,
            final(self).same_settings(*old(self)),
            r.is_ok() && S::obeys_sample_spec() ==> renders(
                Self::stepper(rows(inputs), sample_rate),
                *old(self),
                *final(self),
                final(outputs)@[0]@,
            ),
    {
        let n: usize = match check_block(inputs, outputs, 1, 1, 1, 1) {
            Ok(n) => n,
            Err(e) => {
                return Err(e);
            },
        };
        let ghost f = Self::stepper(rows(inputs), sample_rate);
        let ghost st0 = *self;
        let prep = self.coefficients(sample_rate);
        let mut i: usize = 0;
        while i < n
            invariant
                i <= n,
                inputs@.len() >= 1,
                outputs@.len() >= 1,
                outputs@[0]@.len() == n,
                forall|p: int| 0 <= p < 1 ==> (#[trigger] inputs@[p])@.len() == n,
                same_lens(outputs@, old(outputs)@),
                same_from(outputs@, old(outputs)@, 1),
                f == Self::stepper(rows(inputs), sample_rate),
                self.same_settings(st0),
                S::obeys_sample_spec() ==> prep == self.coefficients(sample_rate),
                S::obeys_sample_spec() ==> *self == state_after(f, st0, i as nat),
                S::obeys_sample_spec() ==> forall|j: int|
                    0 <= j < i ==> outputs@[0]@[j] == #[trigger] output_at(f, st0, j),
            decreases n - i,
        {
            let x = read_at(inputs, 0, i);
            let (next, y) = self.tick(x, prep);
            *self = next;
            outputs[0][i] = y;
            i += 1;
        }
        Ok(())
    }

    /// Puts the node back to the state that `new` gave it; its settings stay.
    pub open spec fn reset_spec(self) -> Self {
        Hpf { cutoff: self.cutoff, q: self.q, state: BiquadState::zeroed() }
    }

    /// Performs `reset_spec` in place.
    pub fn reset(&mut self)
        ensures
            final(self).same_settings(*old(self)),
            S::obeys_sample_spec() ==> *final(self) == old(self).reset_spec(),
    {
        *self = Hpf { cutoff: self.cutoff, q: self.q, state: BiquadState::zeroed() };
    }

    /// A reset right after `new` changes nothing.
    pub proof fn lemma_reset_after_new(cutoff: S, q: S)
        ensures
            Self::new_spec(cutoff, q).reset_spec() == Self::new_spec(cutoff, q),
    {
    }

    /// The number of inputs that a call requires.
    pub fn num_inputs(&self) -> (r: usize)
        ensures
            r == 1,
    {
        1
    }

    /// The number of outputs that a call writes.
    pub fn num_outputs(&self) -> (r: usize)
        ensures
            r == 1,
    {
        1
    }
}

/// Band-pass biquad.
#[derive(Debug, Clone, Copy)]
pub struct Bpf<S> {
    pub cutoff: S,
    pub q: S,
    pub state: BiquadState<S>,
}

impl<S: Sample> Bpf<S> {
    /// A node in its first state.
    pub open spec fn new_spec(cutoff: S, q: S) -> Self {
        Bpf { cutoff, q, state: BiquadState::zeroed() }
    }

    /// Computes `new_spec`.
    #[verifier::when_used_as_spec(new_spec)]
    pub fn new(cutoff: S, q: S) -> (r: Self)
        ensures
            S::obeys_sample_spec() ==> r == Self::new_spec(cutoff, q),
    {
        Bpf { cutoff, q, state: BiquadState::zeroed() }
    }

    /// Whether two nodes have the same settings.
    pub open spec fn same_settings(self, other: Self) -> bool {
        &&& self.cutoff == other.cutoff
        &&& self.q == other.q
    }

    /// The coefficients at a sample rate; they are computed once per block.
    pub open spec fn coefficients_spec(&self, sample_rate: S) -> BiquadCoeffs<S> {
        let k = prewarp(self.cutoff, sample_rate);
        let norm = S::one().div(S::one().add(k.div(self.q)).add(k.mul(k)));
        let a0 = k.div(self.q).mul(norm);
        BiquadCoeffs {
            a0,
            a1: S::zero(),
            a2: a0.neg(),
            b1: S::ratio(2, 1).mul(k.mul(k).sub(S::one())).mul(norm),
            b2: S::one().sub(k.div(self.q)).add(k.mul(k)).mul(norm),
        }
    }

    /// Computes `coefficients_spec`.
    #[verifier::when_used_as_spec(coefficients_spec)]
    pub fn coefficients(&self, sample_rate: S) -> (r: BiquadCoeffs<S>)
        ensures
            S::obeys_sample_spec() ==> r == self.coefficients_spec(sample_rate),
    {
        let k = prewarp(self.cutoff, sample_rate);
        let norm = S::one().div(S::one().add(k.div(self.q)).add(k.mul(k)));
        let a0 = k.div(self.q).mul(norm);
        BiquadCoeffs {
            a0,
            a1: S::zero(),
            a2: a0.neg(),
            b1: S::ratio(2, 1).mul(k.mul(k).sub(S::one())).mul(norm),
            b2: S::one().sub(k.div(self.q)).add(k.mul(k)).mul(norm),
        }
    }

    /// One sample of the section with the coefficients `c`.
    pub open spec fn tick_spec(self, x: S, c: BiquadCoeffs<S>) -> (Self, S) {
        let (state, y) = self.state.tick(c, x);
        (Bpf { cutoff: self.cutoff, q: self.q, state }, y)
    }

    /// Computes `tick_spec`.
    #[verifier::when_used_as_spec(tick_spec)]
    pub fn tick(self, x: S, c: BiquadCoeffs<S>) -> (r: (Self, S))
        ensures
            r.0.same_settings(self),
            S::obeys_sample_spec() ==> r == self.tick_spec(x, c),
    {
        let (state, y) = self.state.tick(c, x);
        (Bpf { cutoff: self.cutoff, q: self.q, state }, y)
    }

    /// The node as a recursion over the samples of a block: the state before
    /// sample `i` to the state after it and the sample put out.
    pub open spec fn stepper(
        inputs: Seq<Seq<S>>,
        sample_rate: S,
    ) -> spec_fn(Self, int) -> (Self, S) {
        |st: Self, i: int| st.tick(inputs[0][i], st.coefficients(sample_rate))
    }

    /// Processes one block: runs the recursion over the samples of the block and
    /// writes output 0. A call whose slices do not fit is refused and changes
    /// nothing. Nothing is allocated.
    pub fn process(
        &mut self,
        inputs: &[&[S]],
        outputs: &mut [Vec<S>],
        sample_rate: S,
    ) -> (r: Result<(), ShapeError>)
        ensures
            r == shape_verdict(rows(inputs), cols(old(outputs)@), 1, 1, 1, 1),
            same_lens(final(outputs)@, old(outputs)@),
            same_from(final(outputs)@, old(outputs)@, 1),
            r.is_err() ==> *final(self) == *old(self) && final(outputs)@ == old(outputs)@,
            final(self).same_settings(*old(self)),
            r.is_ok() && S::obeys_sample_spec() ==> renders(
                Self::stepper(rows(inputs), sample_rate),
                *old(self),
                *final(self),
                final(outputs)@[0]@,
            ),
    {
        let n: usize = match check_block(inputs, outputs, 1, 1, 1, 1) {
            Ok(n) => n,
            Err(e) => {
                return Err(e);
            },
        };
        let ghost f = Self::stepper(rows(inputs), sample_rate);
        let ghost st0 = *self;
        let prep = self.coefficients(sample_rate);
        let mut i: usize = 0;
        while i < n
            invariant
                i <= n,
                inputs@.len() >= 1,
                outputs@.len() >= 1,
                outputs@[0]@.len() == n,
                forall|p: int| 0 <= p < 1 ==> (#[trigger] inputs@[p])@.len() == n,
                same_lens(outputs@, old(outputs)@),
                same_from(outputs@, old(outputs)@, 1),
                f == Self::stepper(rows(inputs), sample_rate),
                self.same_settings(st0),
                S::obeys_sample_spec() ==> prep == self.coefficients(sample_rate),
                S::obeys_sample_spec() ==> *self == state_after(f, st0, i as nat),
                S::obeys_sample_spec() ==> forall|j: int|
                    0 <= j < i ==> outputs@[0]@[j] == #[trigger] output_at(f, st0, j),
            decreases n - i,
        {
            let x = read_at(inputs, 0, i);
            let (next, y) = self.tick(x, prep);
            *self = next;
            outputs[0][i] = y;
            i += 1;
        }
        Ok(())
    }

    /// Puts the node back to the state that `new` gave it; its settings stay.
    pub open spec fn reset_spec(self) -> Self {
        Bpf { cutoff: self.cutoff, q: self.q, state: BiquadState::zeroed() }
    }

    /// Performs `reset_spec` in place.
    pub fn reset(&mut self)
        ensures
            final(self).same_settings(*old(self)),
            S::obeys_sample_spec() ==> *final(self) == old(self).reset_spec(),
    {
        *self = Bpf { cutoff: self.cutoff, q: self.q, state: BiquadState::zeroed() };
    }

    /// A reset right after `new` changes nothing.
    pub proof fn lemma_reset_after_new(cutoff: S, q: S)
        ensures
            Self::new_spec(cutoff, q).reset_spec() == Self::new_spec(cutoff, q),
    {
    }

    /// The number of inputs that a call requires.
    pub fn num_inputs(&self) -> (r: usize)
        ensures
            r == 1,
    {
        1
    }

    /// The number of outputs that a call writes.
    pub fn num_outputs(&self) -> (r: usize)
        ensures
            r == 1,
    {
        1
    }
}

/// Notch biquad.
#[derive(Debug, Clone, Copy)]
pub struct Notch<S> {
    pub cutoff: S,
    pub q: S,
    pub state: BiquadState<S>,
}

impl<S: Sample> Notch<S> {
    /// A node in its first state.
    pub open spec fn new_spec(cutoff: S, q: S) -> Self {
        Notch { cutoff, q, state: BiquadState::zeroed() }
    }

    /// Computes `new_spec`.
    #[verifier::when_used_as_spec(new_spec)]
    pub fn new(cutoff: S, q: S) -> (r: Self)
        ensures
            S::obeys_sample_spec() ==> r == Self::new_spec(cutoff, q),
    {
        Notch { cutoff, q, state: BiquadState::zeroed() }
    }

    /// Whether two nodes have the same settings.
    pub open spec fn same_settings(self, other: Self) -> bool {
        &&& self.cutoff == other.cutoff
        &&& self.q == other.q
    }

    /// The coefficients at a sample rate; they are computed once per block.
    pub open spec fn coefficients_spec(&self, sample_rate: S) -> BiquadCoeffs<S> {
        let k = prewarp(self.cutoff, sample_rate);
        let norm = S::one().div(S::one().add(k.div(self.q)).add(k.mul(k)));
        let a0 = S::one().add(k.mul(k)).mul(norm);
        let a1 = S::ratio(2, 1).mul(k.mul(k).sub(S::one())).mul(norm);
        BiquadCoeffs {
            a0,
            a1,
            a2: a0,
            b1: a1,
            b2: S::one().sub(k.div(self.q)).add(k.mul(k)).mul(norm),
        }
    }

    /// Computes `coefficients_spec`.
    #[verifier::when_used_as_spec(coefficients_spec)]
    pub fn coefficients(&self, sample_rate: S) -> (r: BiquadCoeffs<S>)
        ensures
            S::obeys_sample_spec() ==> r == self.coefficients_spec(sample_rate),
    {
        let k = prewarp(self.cutoff, sample_rate);
        let norm = S::one().div(S::one().add(k.div(self.q)).add(k.mul(k)));
        let a0 = S::one().add(k.mul(k)).mul(norm);
        let a1 = S::ratio(2, 1).mul(k.mul(k).sub(S::one())).mul(norm);
        BiquadCoeffs {
            a0,
            a1,
            a2: a0,
            b1: a1,
            b2: S::one().sub(k.div(self.q)).add(k.mul(k)).mul(norm),
        }
    }

    /// One sample of the section with the coefficients `c`.
    pub open spec fn tick_spec(self, x: S, c: BiquadCoeffs<S>) -> (Self, S) {
        let (state, y) = self.state.tick(c, x);
        (Notch { cutoff: self.cutoff, q: self.q, state }, y)
    }

    /// Computes `tick_spec`.
    #[verifier::when_used_as_spec(tick_spec)]
    pub fn tick(self, x: S, c: BiquadCoeffs<S>) -> (r: (Self, S))
        ensures
            r.0.same_settings(self),
            S::obeys_sample_spec() ==> r == self.tick_spec(x, c),
    {
        let (state, y) = self.state.tick(c, x);
        (Notch { cutoff: self.cutoff, q: self.q, state }, y)
    }

    /// The node as a recursion over the samples of a block: the state before
    /// sample `i` to the state after it and the sample put out.
    pub open spec fn stepper(
        inputs: Seq<Seq<S>>,
        sample_rate: S,
    ) -> spec_fn(Self, int) -> (Self, S) {
        |st: Self, i: int| st.tick(inputs[0][i], st.coefficients(sample_rate))
    }

    /// Processes one block: runs the recursion over the samples of the block and
    /// writes output 0. A call whose slices do not fit is refused and changes
    /// nothing. Nothing is allocated.
    pub fn process(
        &mut self,
        inputs: &[&[S]],
        outputs: &mut [Vec<S>],
        sample_rate: S,
    ) -> (r: Result<(), ShapeError>)
        ensures
            r == shape_verdict(rows(inputs), cols(old(outputs)@), 1, 1, 1, 1),
            same_lens(final(outputs)@, old(outputs)@),
            same_from(final(outputs)@, old(outputs)@, 1),
            r.is_err() ==> *final(self) == *old(self) && final(outputs)@ == old(outputs)@,
            final(self).same_settings(*old(self)),
            r.is_ok() && S::obeys_sample_spec() ==> renders(
                Self::stepper(rows(inputs), sample_rate),
                *old(self),
                *final(self),
                final(outputs)@[0]@,
            ),
    {
        let n: usize = match check_block(inputs, outputs, 1, 1, 1, 1) {
            Ok(n) => n,
            Err(e) => {
                return Err(e);
            },
        };
        let ghost f = Self::stepper(rows(inputs), sample_rate);
        let ghost st0 = *self;
        let prep = self.coefficients(sample_rate);
        let mut i: usize = 0;
        while i < n
            invariant
                i <= n,
                inputs@.len() >= 1,
                outputs@.len() >= 1,
                outputs@[0]@.len() == n,
                forall|p: int| 0 <= p < 1 ==> (#[trigger] inputs@[p])@.len() == n,
                same_lens(outputs@, old(outputs)@),
                same_from(outputs@, old(outputs)@, 1),
                f == Self::stepper(rows(inputs), sample_rate),
                self.same_settings(st0),
                S::obeys_sample_spec() ==> prep == self.coefficients(sample_rate),
                S::obeys_sample_spec() ==> *self == state_after(f, st0, i as nat),
                S::obeys_sample_spec() ==> forall|j: int|
                    0 <= j < i ==> outputs@[0]@[j] == #[trigger] output_at(f, st0, j),
            decreases n - i,
        {
            let x = read_at(inputs, 0, i);
            let (next, y) = self.tick(x, prep);
            *self = next;
            outputs[0][i] = y;
            i += 1;
        }
        Ok(())
    }

    /// Puts the node back to the state that `new` gave it; its settings stay.
    pub open spec fn reset_spec(self) -> Self {
        Notch { cutoff: self.cutoff, q: self.q, state: BiquadState::zeroed() }
    }

    /// Performs `reset_spec` in place.
    pub fn reset(&mut self)
        ensures
            final(self).same_settings(*old(self)),
            S::obeys_sample_spec() ==> *final(self) == old(self).reset_spec(),
    {
        *self = Notch { cutoff: self.cutoff, q: self.q, state: BiquadState::zeroed() };
    }

    /// A reset right after `new` changes nothing.
    pub proof fn lemma_reset_after_new(cutoff: S, q: S)
        ensures
            Self::new_spec(cutoff, q).reset_spec() == Self::new_spec(cutoff, q),
    {
    }

    /// The number of inputs that a call requires.
    pub fn num_inputs(&self) -> (r: usize)
        ensures
            r == 1,
    {
        1
    }

    /// The number of outputs that a call writes.
    pub fn num_outputs(&self) -> (r: usize)
        ensures
            r == 1,
    {
        1
    }
}

/// All-pass biquad.
#[derive(Debug, Clone, Copy)]
pub struct Allpass<S> {
    pub cutoff: S,
    pub q: S,
    pub state: BiquadState<S>,
}

impl<S: Sample> Allpass<S> {
    /// A node in its first state.
    pub open spec fn new_spec(cutoff: S, q: S) -> Self {
        Allpass { cutoff, q, state: BiquadState::zeroed() }
    }

    /// Computes `new_spec`.
    #[verifier::when_used_as_spec(new_spec)]
    pub fn new(cutoff: S, q: S) -> (r: Self)
        ensures
            S::obeys_sample_spec() ==> r == Self::new_spec(cutoff, q),
    {
        Allpass { cutoff, q, state: BiquadState::zeroed() }
    }

    /// Whether two nodes have the same settings.
    pub open spec fn same_settings(self, other: Self) -> bool {
        &&& self.cutoff == other.cutoff
        &&& self.q == other.q
    }

    /// The coefficients at a sample rate; they are computed once per block.
    pub open spec fn coefficients_spec(&self, sample_rate: S) -> BiquadCoeffs<S> {
        let k = prewarp(self.cutoff, sample_rate);
        let norm = S::one().div(S::one().add(k.div(self.q)).add(k.mul(k)));
        let a0 = S::one().sub(k.div(self.q)).add(k.mul(k)).mul(norm);
        let a1 = S::ratio(2, 1).mul(k.mul(k).sub(S::one())).mul(norm);
        BiquadCoeffs { a0, a1, a2: S::one(), b1: a1, b2: a0 }
    }

    /// Computes `coefficients_spec`.
    #[verifier::when_used_as_spec(coefficients_spec)]
    pub fn coefficients(&self, sample_rate: S) -> (r: BiquadCoeffs<S>)
        ensures
            S::obeys_sample_spec() ==> r == self.coefficients_spec(sample_rate),
    {
        let k = prewarp(self.cutoff, sample_rate);
        let norm = S::one().div(S::one().add(k.div(self.q)).add(k.mul(k)));
        let a0 = S::one().sub(k.div(self.q)).add(k.mul(k)).mul(norm);
        let a1 = S::ratio(2, 1).mul(k.mul(k).sub(S::one())).mul(norm);
        BiquadCoeffs { a0, a1, a2: S::one(), b1: a1, b2: a0 }
    }

    /// One sample of the section with the coefficients `c`.
    pub open spec fn tick_spec(self, x: S, c: BiquadCoeffs<S>) -> (Self, S) {
        let (state, y) = self.state.tick(c, x);
        (Allpass { cutoff: self.cutoff, q: self.q, state }, y)
    }

    /// Computes `tick_spec`.
    #[verifier::when_used_as_spec(tick_spec)]
    pub fn tick(self, x: S, c: BiquadCoeffs<S>) -> (r: (Self, S))
        ensures
            r.0.same_settings(self),
            S::obeys_sample_spec() ==> r == self.tick_spec(x, c),
    {
        let (state, y) = self.state.tick(c, x);
        (Allpass { cutoff: self.cutoff, q: self.q, state }, y)
    }

    /// The node as a recursion over the samples of a block: the state before
    /// sample `i` to the state after it and the sample put out.
    pub open spec fn stepper(
        inputs: Seq<Seq<S>>,
        sample_rate: S,
    ) -> spec_fn(Self, int) -> (Self, S) {
        |st: Self, i: int| st.tick(inputs[0][i], st.coefficients(sample_rate))
    }

    /// Processes one block: runs the recursion over the samples of the block and
    /// writes output 0. A call whose slices do not fit is refused and changes
    /// nothing. Nothing is allocated.
    pub fn process(
        &mut self,
        inputs: &[&[S]],
        outputs: &mut [Vec<S>],
        sample_rate: S,
    ) -> (r: Result<(), ShapeError>)
        ensures
            r == shape_verdict(rows(inputs), cols(old(outputs)@), 1, 1, 1, 1),
            same_lens(final(outputs)@, old(outputs)@),
            same_from(final(outputs)@, old(outputs)@, 1),
            r.is_err() ==> *final(self) == *old(self) && final(outputs)@ == old(outputs)@,
            final(self).same_settings(*old(self)),
            r.is_ok() && S::obeys_sample_spec() ==> renders(
                Self::stepper(rows(inputs), sample_rate),
                *old(self),
                *final(self),
                final(outputs)@[0]@,
            ),
    {
        let n: usize = match check_block(inputs, outputs, 1, 1, 1, 1) {
            Ok(n) => n,
            Err(e) => {
                return Err(e);
            },
        };
        let ghost f = Self::stepper(rows(inputs), sample_rate);
        let ghost st0 = *self;
        let prep = self.coefficients(sample_rate);
        let mut i: usize = 0;
        while i < n
            invariant
                i <= n,
                inputs@.len() >= 1,
                outputs@.len() >= 1,
                outputs@[0]@.len() == n,
                forall|p: int| 0 <= p < 1 ==> (#[trigger] inputs@[p])@.len() == n,
                same_lens(outputs@, old(outputs)@),
                same_from(outputs@, old(outputs)@, 1),
                f == Self::stepper(rows(inputs), sample_rate),
                self.same_settings(st0),
                S::obeys_sample_spec() ==> prep == self.coefficients(sample_rate),
                S::obeys_sample_spec() ==> *self == state_after(f, st0, i as nat),
                S::obeys_sample_spec() ==> forall|j: int|
                    0 <= j < i ==> outputs@[0]@[j] == #[trigger] output_at(f, st0, j),
            decreases n - i,
        {
            let x = read_at(inputs, 0, i);
            let (next, y) = self.tick(x, prep);
            *self = next;
            outputs[0][i] = y;
            i += 1;
        }
        Ok(())
    }

    /// Puts the node back to the state that `new` gave it; its settings stay.
    pub open spec fn reset_spec(self) -> Self {
        Allpass { cutoff: self.cutoff, q: self.q, state: BiquadState::zeroed() }
    }

    /// Performs `reset_spec` in place.
    pub fn reset(&mut self)
        ensures
            final(self).same_settings(*old(self)),
            S::obeys_sample_spec() ==> *final(self) == old(self).reset_spec(),
    {
        *self = Allpass { cutoff: self.cutoff, q: self.q, state: BiquadState::zeroed() };
    }

    /// A reset right after `new` changes nothing.
    pub proof fn lemma_reset_after_new(cutoff: S, q: S)
        ensures
            Self::new_spec(cutoff, q).reset_spec() == Self::new_spec(cutoff, q),
    {
    }

    /// The number of inputs that a call requires.
    pub fn num_inputs(&self) -> (r: usize)
        ensures
            r == 1,
    {
        1
    }

    /// The number of outputs that a call writes.
    pub fn num_outputs(&self) -> (r: usize)
        ensures
            r == 1,
    {
        1
    }
}

/// Low-shelf biquad with a fixed quality of 0.7.
#[derive(Debug, Clone, Copy)]
pub struct ShelfLow<S> {
    pub cutoff: S,
    /// The gain of the shelf in decibels.
    pub gain: S,
    pub state: BiquadState<S>,
}

impl<S: Sample> ShelfLow<S> {
    /// A node in its first state.
    pub open spec fn new_spec(cutoff: S, gain: S) -> Self {
        ShelfLow { cutoff, gain, state: BiquadState::zeroed() }
    }

    /// Computes `new_spec`.
    #[verifier::when_used_as_spec(new_spec)]
    pub fn new(cutoff: S, gain: S) -> (r: Self)
        ensures
            S::obeys_sample_spec() ==> r == Self::new_spec(cutoff, gain),
    {
        ShelfLow { cutoff, gain, state: BiquadState::zeroed() }
    }

    /// Whether two nodes have the same settings.
    pub open spec fn same_settings(self, other: Self) -> bool {
        &&& self.cutoff == other.cutoff
        &&& self.gain == other.gain
    }

    /// The coefficients at a sample rate; they are computed once per block.
    pub open spec fn coefficients_spec(&self, sample_rate: S) -> BiquadCoeffs<S> {
        let k = prewarp(self.cutoff, sample_rate);
        let v = S::ratio(10, 1).powf(self.gain.div(S::ratio(20, 1)));
        let norm = S::one().div(S::one().add(k.div(S::ratio(7, 10))).add(k.mul(k)));
        BiquadCoeffs {
            a0: S::one().add(v.sqrt().mul(k).div(S::ratio(7, 10))).add(v.mul(k).mul(k)).mul(norm),
            a1: S::ratio(2, 1).mul(v.mul(k).mul(k).sub(S::one())).mul(norm),
            a2: S::one().sub(v.sqrt().mul(k).div(S::ratio(7, 10))).add(v.mul(k).mul(k)).mul(norm),
            b1: S::ratio(2, 1).mul(k.mul(k).sub(S::one())).mul(norm),
            b2: S::one().sub(k.div(S::ratio(7, 10))).add(k.mul(k)).mul(norm),
        }
    }

    /// Computes `coefficients_spec`.
    #[verifier::when_used_as_spec(coefficients_spec)]
    pub fn coefficients(&self, sample_rate: S) -> (r: BiquadCoeffs<S>)
        ensures
            S::obeys_sample_spec() ==> r == self.coefficients_spec(sample_rate),
    {
        let k = prewarp(self.cutoff, sample_rate);
        let v = S::ratio(10, 1).powf(self.gain.div(S::ratio(20, 1)));
        let norm = S::one().div(S::one().add(k.div(S::ratio(7, 10))).add(k.mul(k)));
        BiquadCoeffs {
            a0: S::one().add(v.sqrt().mul(k).div(S::ratio(7, 10))).add(v.mul(k).mul(k)).mul(norm),
            a1: S::ratio(2, 1).mul(v.mul(k).mul(k).sub(S::one())).mul(norm),
            a2: S::one().sub(v.sqrt().mul(k).div(S::ratio(7, 10))).add(v.mul(k).mul(k)).mul(norm),
            b1: S::ratio(2, 1).mul(k.mul(k).sub(S::one())).mul(norm),
            b2: S::one().sub(k.div(S::ratio(7, 10))).add(k.mul(k)).mul(norm),
        }
    }

    /// One sample of the section with the coefficients `c`.
    pub open spec fn tick_spec(self, x: S, c: BiquadCoeffs<S>) -> (Self, S) {
        let (state, y) = self.state.tick(c, x);
        (ShelfLow { cutoff: self.cutoff, gain: self.gain, state }, y)
    }

    /// Computes `tick_spec`.
    #[verifier::when_used_as_spec(tick_spec)]
    pub fn tick(self, x: S, c: BiquadCoeffs<S>) -> (r: (Self, S))
        ensures
            r.0.same_settings(self),
            S::obeys_sample_spec() ==> r == self.tick_spec(x, c),
    {
        let (state, y) = self.state.tick(c, x);
        (ShelfLow { cutoff: self.cutoff, gain: self.gain, state }, y)
    }

    /// The node as a recursion over the samples of a block: the state before
    /// sample `i` to the state after it and the sample put out.
    pub open spec fn stepper(
        inputs: Seq<Seq<S>>,
        sample_rate: S,
    ) -> spec_fn(Self, int) -> (Self, S) {
        |st: Self, i: int| st.tick(inputs[0][i], st.coefficients(sample_rate))
    }

    /// Processes one block: runs the recursion over the samples of the block and
    /// writes output 0. A call whose slices do not fit is refused and changes
    /// nothing. Nothing is allocated.
    pub fn process(
        &mut self,
        inputs: &[&[S]],
        outputs: &mut [Vec<S>],
        sample_rate: S,
    ) -> (r: Result<(), ShapeError>)
        ensures
            r == shape_verdict(rows(inputs), cols(old(outputs)@), 1, 1, 1, 1),
            same_lens(final(outputs)@, old(outputs)@),
            same_from(final(outputs)@, old(outputs)@, 1),
            r.is_err() ==> *final(self) == *old(self) && final(outputs)@ == old(outputs)@,
            final(self).same_settings(*old(self)),
            r.is_ok() && S::obeys_sample_spec() ==> renders(
                Self::stepper(rows(inputs), sample_rate),
                *old(self),
                *final(self),
                final(outputs)@[0]@,
            ),
    {
        let n: usize = match check_block(inputs, outputs, 1, 1, 1, 1) {
            Ok(n) => n,
            Err(e) => {
                return Err(e);
            },
        };
        let ghost f = Self::stepper(rows(inputs), sample_rate);
        let ghost st0 = *self;
        let prep = self.coefficients(sample_rate);
        let mut i: usize = 0;
        while i < n
            invariant
                i <= n,
                inputs@.len() >= 1,
                outputs@.len() >= 1,
                outputs@[0]@.len() == n,
                forall|p: int| 0 <= p < 1 ==> (#[trigger] inputs@[p])@.len() == n,
                same_lens(outputs@, old(outputs)@),
                same_from(outputs@, old(outputs)@, 1),
                f == Self::stepper(rows(inputs), sample_rate),
                self.same_settings(st0),
                S::obeys_sample_spec() ==> prep == self.coefficients(sample_rate),
                S::obeys_sample_spec() ==> *self == state_after(f, st0, i as nat),
                S::obeys_sample_spec() ==> forall|j: int|
                    0 <= j < i ==> outputs@[0]@[j] == #[trigger] output_at(f, st0, j),
            decreases n - i,
        {
            let x = read_at(inputs, 0, i);
            let (next, y) = self.tick(x, prep);
            *self = next;
            outputs[0][i] = y;
            i += 1;
        }
        Ok(())
    }

    /// Puts the node back to the state that `new` gave it; its settings stay.
    pub open spec fn reset_spec(self) -> Self {
        ShelfLow { cutoff: self.cutoff, gain: self.gain, state: BiquadState::zeroed() }
    }

    /// Performs `reset_spec` in place.
    pub fn reset(&mut self)
        ensures
            final(self).same_settings(*old(self)),
            S::obeys_sample_spec() ==> *final(self) == old(self).reset_spec(),
    {
        *self = ShelfLow { cutoff: self.cutoff, gain: self.gain, state: BiquadState::zeroed() };
    }

    /// A reset right after `new` changes nothing.
    pub proof fn lemma_reset_after_new(cutoff: S, gain: S)
        ensures
            Self::new_spec(cutoff, gain).reset_spec() == Self::new_spec(cutoff, gain),
    {
    }

    /// The number of inputs that a call requires.
    pub fn num_inputs(&self) -> (r: usize)
        ensures
            r == 1,
    {
        1
    }

    /// The number of outputs that a call writes.
    pub fn num_outputs(&self) -> (r: usize)
        ensures
            r == 1,
    {
        1
    }
}

/// High-shelf biquad with a fixed quality of 0.7.
#[derive(Debug, Clone, Copy)]
pub struct ShelfHigh<S> {
    pub cutoff: S,
    /// The gain of the shelf in decibels.
    pub gain: S,
    pub state: BiquadState<S>,
}

impl<S: Sample> ShelfHigh<S> {
    /// A node in its first state.
    pub open spec fn new_spec(cutoff: S, gain: S) -> Self {
        ShelfHigh { cutoff, gain, state: BiquadState::zeroed() }
    }

    /// Computes `new_spec`.
    #[verifier::when_used_as_spec(new_spec)]
    pub fn new(cutoff: S, gain: S) -> (r: Self)
        ensures
            S::obeys_sample_spec() ==> r == Self::new_spec(cutoff, gain),
    {
        ShelfHigh { cutoff, gain, state: BiquadState::zeroed() }
    }

    /// Whether two nodes have the same settings.
    pub open spec fn same_settings(self, other: Self) -> bool {
        &&& self.cutoff == other.cutoff
        &&& self.gain == other.gain
    }

    /// The coefficients at a sample rate; they are computed once per block.
    pub open spec fn coefficients_spec(&self, sample_rate: S) -> BiquadCoeffs<S> {
        let k = prewarp(self.cutoff, sample_rate);
        let v = S::ratio(10, 1).powf(self.gain.div(S::ratio(20, 1)));
        let norm = S::one().div(S::one().add(k.div(S::ratio(7, 10))).add(k.mul(k)));
        BiquadCoeffs {
            a0: v.add(v.sqrt().mul(k).div(S::ratio(7, 10))).add(k.mul(k)).mul(norm),
            a1: S::ratio(2, 1).mul(k.mul(k).sub(v)).mul(norm),
            a2: v.sub(v.sqrt().mul(k).div(S::ratio(7, 10))).add(k.mul(k)).mul(norm),
            b1: S::ratio(2, 1).mul(k.mul(k).sub(S::one())).mul(norm),
            b2: S::one().sub(k.div(S::ratio(7, 10))).add(k.mul(k)).mul(norm),
        }
    }

    /// Computes `coefficients_spec`.
    #[verifier::when_used_as_spec(coefficients_spec)]
    pub fn coefficients(&self, sample_rate: S) -> (r: BiquadCoeffs<S>)
        ensures
            S::obeys_sample_spec() ==> r == self.coefficients_spec(sample_rate),
    {
        let k = prewarp(self.cutoff, sample_rate);
        let v = S::ratio(10, 1).powf(self.gain.div(S::ratio(20, 1)));
        let norm = S::one().div(S::one().add(k.div(S::ratio(7, 10))).add(k.mul(k)));
        BiquadCoeffs {
            a0: v.add(v.sqrt().mul(k).div(S::ratio(7, 10))).add(k.mul(k)).mul(norm),
            a1: S::ratio(2, 1).mul(k.mul(k).sub(v)).mul(norm),
            a2: v.sub(v.sqrt().mul(k).div(S::ratio(7, 10))).add(k.mul(k)).mul(norm),
            b1: S::ratio(2, 1).mul(k.mul(k).sub(S::one())).mul(norm),
            b2: S::one().sub(k.div(S::ratio(7, 10))).add(k.mul(k)).mul(norm),
        }
    }

    /// One sample of the section with the coefficients `c`.
    pub open spec fn tick_spec(self, x: S, c: BiquadCoeffs<S>) -> (Self, S) {
        let (state, y) = self.state.tick(c, x);
        (ShelfHigh { cutoff: self.cutoff, gain: self.gain, state }, y)
    }

    /// Computes `tick_spec`.
    #[verifier::when_used_as_spec(tick_spec)]
    pub fn tick(self, x: S, c: BiquadCoeffs<S>) -> (r: (Self, S))
        ensures
            r.0.same_settings(self),
            S::obeys_sample_spec() ==> r == self.tick_spec(x, c),
    {
        let (state, y) = self.state.tick(c, x);
        (ShelfHigh { cutoff: self.cutoff, gain: self.gain, state }, y)
    }

    /// The node as a recursion over the samples of a block: the state before
    /// sample `i` to the state after it and the sample put out.
    pub open spec fn stepper(
        inputs: Seq<Seq<S>>,
        sample_rate: S,
    ) -> spec_fn(Self, int) -> (Self, S) {
        |st: Self, i: int| st.tick(inputs[0][i], st.coefficients(sample_rate))
    }

    /// Processes one block: runs the recursion over the samples of the block and
    /// writes output 0. A call whose slices do not fit is refused and changes
    /// nothing. Nothing is allocated.
    pub fn process(
        &mut self,
        inputs: &[&[S]],
        outputs: &mut [Vec<S>],
        sample_rate: S,
    ) -> (r: Result<(), ShapeError>)
        ensures
            r == shape_verdict(rows(inputs), cols(old(outputs)@), 1, 1, 1, 1),
            same_lens(final(outputs)@, old(outputs)@),
            same_from(final(outputs)@, old(outputs)@, 1),
            r.is_err() ==> *final(self) == *old(self) && final(outputs)@ == old(outputs)@,
            final(self).same_settings(*old(self)),
            r.is_ok() && S::obeys_sample_spec() ==> renders(
                Self::stepper(rows(inputs), sample_rate),
                *old(self),
                *final(self),
                final(outputs)@[0]@,
            ),
    {
        let n: usize = match check_block(inputs, outputs, 1, 1, 1, 1) {
            Ok(n) => n,
            Err(e) => {
                return Err(e);
            },
        };
        let ghost f = Self::stepper(rows(inputs), sample_rate);
        let ghost st0 = *self;
        let prep = self.coefficients(sample_rate);
        let mut i: usize = 0;
        while i < n
            invariant
                i <= n,
                inputs@.len() >= 1,
                outputs@.len() >= 1,
                outputs@[0]@.len() == n,
                forall|p: int| 0 <= p < 1 ==> (#[trigger] inputs@[p])@.len() == n,
                same_lens(outputs@, old(outputs)@),
                same_from(outputs@, old(outputs)@, 1),
                f == Self::stepper(rows(inputs), sample_rate),
                self.same_settings(st0),
                S::obeys_sample_spec() ==> prep == self.coefficients(sample_rate),
                S::obeys_sample_spec() ==> *self == state_after(f, st0, i as nat),
                S::obeys_sample_spec() ==> forall|j: int|
                    0 <= j < i ==> outputs@[0]@[j] == #[trigger] output_at(f, st0, j),
            decreases n - i,
        {
            let x = read_at(inputs, 0, i);
            let (next, y) = self.tick(x, prep);
            *self = next;
            outputs[0][i] = y;
            i += 1;
        }
        Ok(())
    }

    /// Puts the node back to the state that `new` gave it; its settings stay.
    pub open spec fn reset_spec(self) -> Self {
        ShelfHigh { cutoff: self.cutoff, gain: self.gain, state: BiquadState::zeroed() }
    }

    /// Performs `reset_spec` in place.
    pub fn reset(&mut self)
        ensures
            final(self).same_settings(*old(self)),
            S::obeys_sample_spec() ==> *final(self) == old(self).reset_spec(),
    {
        *self = ShelfHigh { cutoff: self.cutoff, gain: self.gain, state: BiquadState::zeroed() };
    }

    /// A reset right after `new` changes nothing.
    pub proof fn lemma_reset_after_new(cutoff: S, gain: S)
        ensures
            Self::new_spec(cutoff, gain).reset_spec() == Self::new_spec(cutoff, gain),
    {
    }

    /// The number of inputs that a call requires.
    pub fn num_inputs(&self) -> (r: usize)
        ensures
            r == 1,
    {
        1
    }

    /// The number of outputs that a call writes.
    pub fn num_outputs(&self) -> (r: usize)
        ensures
            r == 1,
    {
        1
    }
}

/// Peaking biquad.
#[derive(Debug, Clone, Copy)]
pub struct Peak<S> {
    pub cutoff: S,
    pub q: S,
    /// The gain at the centre in decibels.
    pub gain: S,
    pub state: BiquadState<S>,
}

impl<S: Sample> Peak<S> {
    /// A node in its first state.
    pub open spec fn new_spec(cutoff: S, q: S, gain: S) -> Self {
        Peak { cutoff, q, gain, state: BiquadState::zeroed() }
    }

    /// Computes `new_spec`.
    #[verifier::when_used_as_spec(new_spec)]
    pub fn new(cutoff: S, q: S, gain: S) -> (r: Self)
        ensures
            S::obeys_sample_spec() ==> r == Self::new_spec(cutoff, q, gain),
    {
        Peak { cutoff, q, gain, state: BiquadState::zeroed() }
    }

    /// Whether two nodes have the same settings.
    pub open spec fn same_settings(self, other: Self) -> bool {
        &&& self.cutoff == other.cutoff
        &&& self.q == other.q
        &&& self.gain == other.gain
    }

    /// The coefficients at a sample rate; they are computed once per block.
    pub open spec fn coefficients_spec(&self, sample_rate: S) -> BiquadCoeffs<S> {
        let k = prewarp(self.cutoff, sample_rate);
        let v = S::ratio(10, 1).powf(self.gain.div(S::ratio(20, 1)));
        let norm = S::one().div(S::one().add(k.div(self.q)).add(k.mul(k)));
        let a1 = S::ratio(2, 1).mul(k.mul(k).sub(S::one())).mul(norm);
        BiquadCoeffs {
            a0: S::one().add(v.mul(k).div(self.q)).add(k.mul(k)).mul(norm),
            a1,
            a2: S::one().sub(v.mul(k).div(self.q)).add(k.mul(k)).mul(norm),
            b1: a1,
            b2: S::one().sub(k.div(self.q)).add(k.mul(k)).mul(norm),
        }
    }

    /// Computes `coefficients_spec`.
    #[verifier::when_used_as_spec(coefficients_spec)]
    pub fn coefficients(&self, sample_rate: S) -> (r: BiquadCoeffs<S>)
        ensures
            S::obeys_sample_spec() ==> r == self.coefficients_spec(sample_rate),
    {
        let k = prewarp(self.cutoff, sample_rate);
        let v = S::ratio(10, 1).powf(self.gain.div(S::ratio(20, 1)));
        let norm = S::one().div(S::one().add(k.div(self.q)).add(k.mul(k)));
        let a1 = S::ratio(2, 1).mul(k.mul(k).sub(S::one())).mul(norm);
        BiquadCoeffs {
            a0: S::one().add(v.mul(k).div(self.q)).add(k.mul(k)).mul(norm),
            a1,
            a2: S::one().sub(v.mul(k).div(self.q)).add(k.mul(k)).mul(norm),
            b1: a1,
            b2: S::one().sub(k.div(self.q)).add(k.mul(k)).mul(norm),
        }
    }

    /// One sample of the section with the coefficients `c`.
    pub open spec fn tick_spec(self, x: S, c: BiquadCoeffs<S>) -> (Self, S) {
        let (state, y) = self.state.tick(c, x);
        (Peak { cutoff: self.cutoff, q: self.q, gain: self.gain, state }, y)
    }

    /// Computes `tick_spec`.
    #[verifier::when_used_as_spec(tick_spec)]
    pub fn tick(self, x: S, c: BiquadCoeffs<S>) -> (r: (Self, S))
        ensures
            r.0.same_settings(self),
            S::obeys_sample_spec() ==> r == self.tick_spec(x, c),
    {
        let (state, y) = self.state.tick(c, x);
        (Peak { cutoff: self.cutoff, q: self.q, gain: self.gain, state }, y)
    }

    /// The node as a recursion over the samples of a block: the state before
    /// sample `i` to the state after it and the sample put out.
    pub open spec fn stepper(
        inputs: Seq<Seq<S>>,
        sample_rate: S,
    ) -> spec_fn(Self, int) -> (Self, S) {
        |st: Self, i: int| st.tick(inputs[0][i], st.coefficients(sample_rate))
    }

    /// Processes one block: runs the recursion over the samples of the block and
    /// writes output 0. A call whose slices do not fit is refused and changes
    /// nothing. Nothing is allocated.
    pub fn process(
        &mut self,
        inputs: &[&[S]],
        outputs: &mut [Vec<S>],
        sample_rate: S,
    ) -> (r: Result<(), ShapeError>)
        ensures
            r == shape_verdict(rows(inputs), cols(old(outputs)@), 1, 1, 1, 1),
            same_lens(final(outputs)@, old(outputs)@),
            same_from(final(outputs)@, old(outputs)@, 1),
            r.is_err() ==> *final(self) == *old(self) && final(outputs)@ == old(outputs)@,
            final(self).same_settings(*old(self)),
            r.is_ok() && S::obeys_sample_spec() ==> renders(
                Self::stepper(rows(inputs), sample_rate),
                *old(self),
                *final(self),
                final(outputs)@[0]@,
            ),
    {
        let n: usize = match check_block(inputs, outputs, 1, 1, 1, 1) {
            Ok(n) => n,
            Err(e) => {
                return Err(e);
            },
        };
        let ghost f = Self::stepper(rows(inputs), sample_rate);
        let ghost st0 = *self;
        let prep = self.coefficients(sample_rate);
        let mut i: usize = 0;
        while i < n
            invariant
                i <= n,
                inputs@.len() >= 1,
                outputs@.len() >= 1,
                outputs@[0]@.len() == n,
                forall|p: int| 0 <= p < 1 ==> (#[trigger] inputs@[p])@.len() == n,
                same_lens(outputs@, old(outputs)@),
                same_from(outputs@, old(outputs)@, 1),
                f == Self::stepper(rows(inputs), sample_rate),
                self.same_settings(st0),
                S::obeys_sample_spec() ==> prep == self.coefficients(sample_rate),
                S::obeys_sample_spec() ==> *self == state_after(f, st0, i as nat),
                S::obeys_sample_spec() ==> forall|j: int|
                    0 <= j < i ==> outputs@[0]@[j] == #[trigger] output_at(f, st0, j),
            decreases n - i,
        {
            let x = read_at(inputs, 0, i);
            let (next, y) = self.tick(x, prep);
            *self = next;
            outputs[0][i] = y;
            i += 1;
        }
        Ok(())
    }

    /// Puts the node back to the state that `new` gave it; its settings stay.
    pub open spec fn reset_spec(self) -> Self {
        Peak { cutoff: self.cutoff, q: self.q, gain: self.gain, state: BiquadState::zeroed() }
    }

    /// Performs `reset_spec` in place.
    pub fn reset(&mut self)
        ensures
            final(self).same_settings(*old(self)),
            S::obeys_sample_spec() ==> *final(self) == old(self).reset_spec(),
    {
        *self = Peak {
            cutoff: self.cutoff,
            q: self.q,
            gain: self.gain,
            state: BiquadState::zeroed(),
        };
    }

    /// A reset right after `new` changes nothing.
    pub proof fn lemma_reset_after_new(cutoff: S, q: S, gain: S)
        ensures
            Self::new_spec(cutoff, q, gain).reset_spec() == Self::new_spec(cutoff, q, gain),
    {
    }

    /// The number of inputs that a call requires.
    pub fn num_inputs(&self) -> (r: usize)
        ensures
            r == 1,
    {
        1
    }

    /// The number of outputs that a call writes.
    pub fn num_outputs(&self) -> (r: usize)
        ensures
            r == 1,
    {
        1
    }
}

/// Formant filter: a band-pass biquad around `formant_freq`.
#[derive(Debug, Clone, Copy)]
pub struct FormantFilter<S> {
    pub formant_freq: S,
    pub bandwidth: S,
    pub state: BiquadState<S>,
}

impl<S: Sample> FormantFilter<S> {
    /// A node in its first state.
    pub open spec fn new_spec(formant_freq: S, bandwidth: S) -> Self {
        FormantFilter { formant_freq, bandwidth, state: BiquadState::zeroed() }
    }

    /// Computes `new_spec`.
    #[verifier::when_used_as_spec(new_spec)]
    pub fn new(formant_freq: S, bandwidth: S) -> (r: Self)
        ensures
            S::obeys_sample_spec() ==> r == Self::new_spec(formant_freq, bandwidth),
    {
        FormantFilter { formant_freq, bandwidth, state: BiquadState::zeroed() }
    }

    /// Whether two nodes have the same settings.
    pub open spec fn same_settings(self, other: Self) -> bool {
        &&& self.formant_freq == other.formant_freq
        &&& self.bandwidth == other.bandwidth
    }

    /// The coefficients at a sample rate; they are computed once per block.
    pub open spec fn coefficients_spec(&self, sample_rate: S) -> BiquadCoeffs<S> {
        let k = prewarp(self.bandwidth, sample_rate);
        let center = S::ratio(2, 1).mul(S::pi().mul(self.formant_freq).div(sample_rate).cos());
        let norm = S::one().div(S::one().add(k));
        BiquadCoeffs {
            a0: k.mul(norm),
            a1: S::zero(),
            a2: k.neg().mul(norm),
            b1: center.neg().mul(norm),
            b2: S::one().sub(k).mul(norm),
        }
    }

    /// Computes `coefficients_spec`.
    #[verifier::when_used_as_spec(coefficients_spec)]
    pub fn coefficients(&self, sample_rate: S) -> (r: BiquadCoeffs<S>)
        ensures
            S::obeys_sample_spec() ==> r == self.coefficients_spec(sample_rate),
    {
        let k = prewarp(self.bandwidth, sample_rate);
        let center = S::ratio(2, 1).mul(S::pi().mul(self.formant_freq).div(sample_rate).cos());
        let norm = S::one().div(S::one().add(k));
        BiquadCoeffs {
            a0: k.mul(norm),
            a1: S::zero(),
            a2: k.neg().mul(norm),
            b1: center.neg().mul(norm),
            b2: S::one().sub(k).mul(norm),
        }
    }

    /// One sample of the section with the coefficients `c`.
    pub open spec fn tick_spec(self, x: S, c: BiquadCoeffs<S>) -> (Self, S) {
        let (state, y) = self.state.tick(c, x);
        (FormantFilter { formant_freq: self.formant_freq, bandwidth: self.bandwidth, state }, y)
    }

    /// Computes `tick_spec`.
    #[verifier::when_used_as_spec(tick_spec)]
    pub fn tick(self, x: S, c: BiquadCoeffs<S>) -> (r: (Self, S))
        ensures
            r.0.same_settings(self),
            S::obeys_sample_spec() ==> r == self.tick_spec(x, c),
    {
        let (state, y) = self.state.tick(c, x);
        (FormantFilter { formant_freq: self.formant_freq, bandwidth: self.bandwidth, state }, y)
    }

    /// The node as a recursion over the samples of a block: the state before
    /// sample `i` to the state after it and the sample put out.
    pub open spec fn stepper(
        inputs: Seq<Seq<S>>,
        sample_rate: S,
    ) -> spec_fn(Self, int) -> (Self, S) {
        |st: Self, i: int| st.tick(inputs[0][i], st.coefficients(sample_rate))
    }

    /// Processes one block: runs the recursion over the samples of the block and
    /// writes output 0. A call whose slices do not fit is refused and changes
    /// nothing. Nothing is allocated.
    pub fn process(
        &mut self,
        inputs: &[&[S]],
        outputs: &mut [Vec<S>],
        sample_rate: S,
    ) -> (r: Result<(), ShapeError>)
        ensures
            r == shape_verdict(rows(inputs), cols(old(outputs)@), 1, 1, 1, 1),
            same_lens(final(outputs)@, old(outputs)@),
            same_from(final(outputs)@, old(outputs)@, 1),
            r.is_err() ==> *final(self) == *old(self) && final(outputs)@ == old(outputs)@,
            final(self).same_settings(*old(self)),
            r.is_ok() && S::obeys_sample_spec() ==> renders(
                Self::stepper(rows(inputs), sample_rate),
                *old(self),
                *final(self),
                final(outputs)@[0]@,
            ),
    {
        let n: usize = match check_block(inputs, outputs, 1, 1, 1, 1) {
            Ok(n) => n,
            Err(e) => {
                return Err(e);
            },
        };
        let ghost f = Self::stepper(rows(inputs), sample_rate);
        let ghost st0 = *self;
        let prep = self.coefficients(sample_rate);
        let mut i: usize = 0;
        while i < n
            invariant
                i <= n,
                inputs@.len() >= 1,
                outputs@.len() >= 1,
                outputs@[0]@.len() == n,
                forall|p: int| 0 <= p < 1 ==> (#[trigger] inputs@[p])@.len() == n,
                same_lens(outputs@, old(outputs)@),
                same_from(outputs@, old(outputs)@, 1),
                f == Self::stepper(rows(inputs), sample_rate),
                self.same_settings(st0),
                S::obeys_sample_spec() ==> prep == self.coefficients(sample_rate),
                S::obeys_sample_spec() ==> *self == state_after(f, st0, i as nat),
                S::obeys_sample_spec() ==> forall|j: int|
                    0 <= j < i ==> outputs@[0]@[j] == #[trigger] output_at(f, st0, j),
            decreases n - i,
        {
            let x = read_at(inputs, 0, i);
            let (next, y) = self.tick(x, prep);
            *self = next;
            outputs[0][i] = y;
            i += 1;
        }
        Ok(())
    }

    /// Puts the node back to the state that `new` gave it; its settings stay.
    pub open spec fn reset_spec(self) -> Self {
        FormantFilter {
            formant_freq: self.formant_freq,
            bandwidth: self.bandwidth,
            state: BiquadState::zeroed(),
        }
    }

    /// Performs `reset_spec` in place.
    pub fn reset(&mut self)
        ensures
            final(self).same_settings(*old(self)),
            S::obeys_sample_spec() ==> *final(self) == old(self).reset_spec(),
    {
        *self = FormantFilter {
            formant_freq: self.formant_freq,
            bandwidth: self.bandwidth,
            state: BiquadState::zeroed(),
        };
    }

    /// A reset right after `new` changes nothing.
    pub proof fn lemma_reset_after_new(formant_freq: S, bandwidth: S)
        ensures
            Self::new_spec(formant_freq, bandwidth)
                .reset_spec() == Self::new_spec(formant_freq, bandwidth),
    {
    }

    /// The number of inputs that a call requires.
    pub fn num_inputs(&self) -> (r: usize)
        ensures
            r == 1,
    {
        1
    }

    /// The number of outputs that a call writes.
    pub fn num_outputs(&self) -> (r: usize)
        ensures
            r == 1,
    {
        1
    }
}

/// Which output of the state-variable filter is put out.
#[derive(Debug, Clone, Copy, PartialEq, Eq, Structural)]
pub enum SvfMode {
    Lowpass,
    Highpass,
    Bandpass,
    Notch,
}

/// State-variable filter: low-pass, high-pass, band-pass and notch from one
/// two-integrator loop.
#[derive(Debug, Clone, Copy)]
pub struct StateVariableFilter<S> {
    pub cutoff: S,
    pub resonance: S,
    pub mode: SvfMode,
    pub z1: S,
    pub z2: S,
}

impl<S: Sample> StateVariableFilter<S> {
    /// A node in its first state.
    pub open spec fn new_spec(cutoff: S, resonance: S, mode: SvfMode) -> Self {
        StateVariableFilter { cutoff, resonance, mode, z1: S::zero(), z2: S::zero() }
    }

    /// Computes `new_spec`.
    #[verifier::when_used_as_spec(new_spec)]
    pub fn new(cutoff: S, resonance: S, mode: SvfMode) -> (r: Self)
        ensures
            S::obeys_sample_spec() ==> r == Self::new_spec(cutoff, resonance, mode),
    {
        StateVariableFilter { cutoff, resonance, mode, z1: S::zero(), z2: S::zero() }
    }

    /// Whether two nodes have the same settings.
    pub open spec fn same_settings(self, other: Self) -> bool {
        &&& self.cutoff == other.cutoff
        &&& self.resonance == other.resonance
        &&& self.mode == other.mode
    }

    /// The coefficient `2 sin(pi fc / fs)` and the damping, which is one over the
    /// resonance.
    pub open spec fn coefficients_spec(&self, sample_rate: S) -> (S, S) {
        (
            S::ratio(2, 1).mul(S::pi().mul(self.cutoff).div(sample_rate).sin()),
            S::one().div(self.resonance),
        )
    }

    /// Computes `coefficients_spec`.
    #[verifier::when_used_as_spec(coefficients_spec)]
    pub fn coefficients(&self, sample_rate: S) -> (r: (S, S))
        ensures
            S::obeys_sample_spec() ==> r == self.coefficients_spec(sample_rate),
    {
        (
            S::ratio(2, 1).mul(S::pi().mul(self.cutoff).div(sample_rate).sin()),
            S::one().div(self.resonance),
        )
    }

    /// One sample of the loop with the coefficient `c.0` and the damping `c.1`.
    pub open spec fn tick_spec(self, x: S, c: (S, S)) -> (Self, S) {
        let hp = x.sub(self.z1.mul(c.1)).sub(self.z2);
        let bp = hp.mul(c.0).add(self.z1);
        let lp = bp.mul(c.0).add(self.z2);
        let y = match self.mode {
            SvfMode::Lowpass => lp,
            SvfMode::Highpass => hp,
            SvfMode::Bandpass => bp,
            SvfMode::Notch => x.sub(bp),
        };
        (
            StateVariableFilter {
                cutoff: self.cutoff,
                resonance: self.resonance,
                mode: self.mode,
                z1: bp,
                z2: lp,
            },
            y,
        )
    }

    /// Computes `tick_spec`.
    #[verifier::when_used_as_spec(tick_spec)]
    pub fn tick(self, x: S, c: (S, S)) -> (r: (Self, S))
        ensures
            r.0.same_settings(self),
            S::obeys_sample_spec() ==> r == self.tick_spec(x, c),
    {
        let hp = x.sub(self.z1.mul(c.1)).sub(self.z2);
        let bp = hp.mul(c.0).add(self.z1);
        let lp = bp.mul(c.0).add(self.z2);
        let y = match self.mode {
            SvfMode::Lowpass => lp,
            SvfMode::Highpass => hp,
            SvfMode::Bandpass => bp,
            SvfMode::Notch => x.sub(bp),
        };
        (
            StateVariableFilter {
                cutoff: self.cutoff,
                resonance: self.resonance,
                mode: self.mode,
                z1: bp,
                z2: lp,
            },
            y,
        )
    }

    /// The node as a recursion over the samples of a block: the state before
    /// sample `i` to the state after it and the sample put out.
    pub open spec fn stepper(
        inputs: Seq<Seq<S>>,
        sample_rate: S,
    ) -> spec_fn(Self, int) -> (Self, S) {
        |st: Self, i: int| st.tick(inputs[0][i], st.coefficients(sample_rate))
    }

    /// Processes one block: runs the recursion over the samples of the block and
    /// writes output 0. A call whose slices do not fit is refused and changes
    /// nothing. Nothing is allocated.
    pub fn process(
        &mut self,
        inputs: &[&[S]],
        outputs: &mut [Vec<S>],
        sample_rate: S,
    ) -> (r: Result<(), ShapeError>)
        ensures
            r == shape_verdict(rows(inputs), cols(old(outputs)@), 1, 1, 1, 1),
            same_lens(final(outputs)@, old(outputs)@),
            same_from(final(outputs)@, old(outputs)@, 1),
            r.is_err() ==> *final(self) == *old(self) && final(outputs)@ == old(outputs)@,
            final(self).same_settings(*old(self)),
            r.is_ok() && S::obeys_sample_spec() ==> renders(
                Self::stepper(rows(inputs), sample_rate),
                *old(self),
                *final(self),
                final(outputs)@[0]@,
            ),
    {
        let n: usize = match check_block(inputs, outputs, 1, 1, 1, 1) {
            Ok(n) => n,
            Err(e) => {
                return Err(e);
            },
        };
        let ghost f = Self::stepper(rows(inputs), sample_rate);
        let ghost st0 = *self;
        let prep = self.coefficients(sample_rate);
        let mut i: usize = 0;
        while i < n
            invariant
                i <= n,
                inputs@.len() >= 1,
                outputs@.len() >= 1,
                outputs@[0]@.len() == n,
                forall|p: int| 0 <= p < 1 ==> (#[trigger] inputs@[p])@.len() == n,
                same_lens(outputs@, old(outputs)@),
                same_from(outputs@, old(outputs)@, 1),
                f == Self::stepper(rows(inputs), sample_rate),
                self.same_settings(st0),
                S::obeys_sample_spec() ==> prep == self.coefficients(sample_rate),
                S::obeys_sample_spec() ==> *self == state_after(f, st0, i as nat),
                S::obeys_sample_spec() ==> forall|j: int|
                    0 <= j < i ==> outputs@[0]@[j] == #[trigger] output_at(f, st0, j),
            decreases n - i,
        {
            let x = read_at(inputs, 0, i);
            let (next, y) = self.tick(x, prep);
            *self = next;
            outputs[0][i] = y;
            i += 1;
        }
        Ok(())
    }

    /// Puts the node back to the state that `new` gave it; its settings stay.
    pub open spec fn reset_spec(self) -> Self {
        StateVariableFilter {
            cutoff: self.cutoff,
            resonance: self.resonance,
            mode: self.mode,
            z1: S::zero(),
            z2: S::zero(),
        }
    }

    /// Performs `reset_spec` in place.
    pub fn reset(&mut self)
        ensures
            final(self).same_settings(*old(self)),
            S::obeys_sample_spec() ==> *final(self) == old(self).reset_spec(),
    {
        *self = StateVariableFilter {
            cutoff: self.cutoff,
            resonance: self.resonance,
            mode: self.mode,
            z1: S::zero(),
            z2: S::zero(),
        };
    }

    /// A reset right after `new` changes nothing.
    pub proof fn lemma_reset_after_new(cutoff: S, resonance: S, mode: SvfMode)
        ensures
            Self::new_spec(cutoff, resonance, mode)
                .reset_spec() == Self::new_spec(cutoff, resonance, mode),
    {
    }

    /// The number of inputs that a call requires.
    pub fn num_inputs(&self) -> (r: usize)
        ensures
            r == 1,
    {
        1
    }

    /// The number of outputs that a call writes.
    pub fn num_outputs(&self) -> (r: usize)
        ensures
            r == 1,
    {
        1
    }
}

/// Four-pole ladder filter. The feedback is the resonance scaled down as the
/// cutoff rises, which keeps the loop from running away.
#[derive(Debug, Clone, Copy)]
pub struct LadderFilter<S> {
    pub cutoff: S,
    pub resonance: S,
    pub z1: S,
    pub z2: S,
    pub z3: S,
    pub z4: S,
}

impl<S: Sample> LadderFilter<S> {
    /// A node in its first state.
    pub open spec fn new_spec(cutoff: S, resonance: S) -> Self {
        LadderFilter {
            cutoff,
            resonance,
            z1: S::zero(),
            z2: S::zero(),
            z3: S::zero(),
            z4: S::zero(),
        }
    }

    /// Computes `new_spec`.
    #[verifier::when_used_as_spec(new_spec)]
    pub fn new(cutoff: S, resonance: S) -> (r: Self)
        ensures
            S::obeys_sample_spec() ==> r == Self::new_spec(cutoff, resonance),
    {
        LadderFilter {
            cutoff,
            resonance,
            z1: S::zero(),
            z2: S::zero(),
            z3: S::zero(),
            z4: S::zero(),
        }
    }

    /// Whether two nodes have the same settings.
    pub open spec fn same_settings(self, other: Self) -> bool {
        &&& self.cutoff == other.cutoff
        &&& self.resonance == other.resonance
    }

    /// The stage gain `p` and the feedback `r (1 - p)^4`, from the normalised
    /// cutoff and the resonance `r` held in `[0, 0.99]`.
    pub open spec fn coefficients_spec(&self, sample_rate: S) -> (S, S) {
        let fc = self.cutoff.div(sample_rate);
        let k = S::ratio(36, 10).mul(fc).sub(S::ratio(16, 10).mul(fc).mul(fc)).sub(S::one());
        let p = k.add(S::one()).mul(S::ratio(5, 10));
        (p, self.resonance.clamp(S::zero(), S::ratio(99, 100)).mul(S::one().sub(p).powi(4)))
    }

    /// Computes `coefficients_spec`.
    #[verifier::when_used_as_spec(coefficients_spec)]
    pub fn coefficients(&self, sample_rate: S) -> (r: (S, S))
        ensures
            S::obeys_sample_spec() ==> r == self.coefficients_spec(sample_rate),
    {
        let fc = self.cutoff.div(sample_rate);
        let k = S::ratio(36, 10).mul(fc).sub(S::ratio(16, 10).mul(fc).mul(fc)).sub(S::one());
        let p = k.add(S::one()).mul(S::ratio(5, 10));
        (p, self.resonance.clamp(S::zero(), S::ratio(99, 100)).mul(S::one().sub(p).powi(4)))
    }

    /// One sample: four one-pole stages with the gain `c.0`, fed with the input
    /// less the last output times the feedback `c.1`.
    pub open spec fn tick_spec(self, x: S, c: (S, S)) -> (Self, S) {
        let p = c.0;
        let fed = x.sub(c.1.mul(self.z4));
        let y1 = fed.mul(p).add(self.z1.mul(S::one().sub(p)));
        let y2 = y1.mul(p).add(self.z2.mul(S::one().sub(p)));
        let y3 = y2.mul(p).add(self.z3.mul(S::one().sub(p)));
        let y4 = y3.mul(p).add(self.z4.mul(S::one().sub(p)));
        (
            LadderFilter {
                cutoff: self.cutoff,
                resonance: self.resonance,
                z1: y1,
                z2: y2,
                z3: y3,
                z4: y4,
            },
            y4,
        )
    }

    /// Computes `tick_spec`.
    #[verifier::when_used_as_spec(tick_spec)]
    pub fn tick(self, x: S, c: (S, S)) -> (r: (Self, S))
        ensures
            r.0.same_settings(self),
            S::obeys_sample_spec() ==> r == self.tick_spec(x, c),
    {
        let p = c.0;
        let fed = x.sub(c.1.mul(self.z4));
        let y1 = fed.mul(p).add(self.z1.mul(S::one().sub(p)));
        let y2 = y1.mul(p).add(self.z2.mul(S::one().sub(p)));
        let y3 = y2.mul(p).add(self.z3.mul(S::one().sub(p)));
        let y4 = y3.mul(p).add(self.z4.mul(S::one().sub(p)));
        (
            LadderFilter {
                cutoff: self.cutoff,
                resonance: self.resonance,
                z1: y1,
                z2: y2,
                z3: y3,
                z4: y4,
            },
            y4,
        )
    }

    /// The node as a recursion over the samples of a block: the state before
    /// sample `i` to the state after it and the sample put out.
    pub open spec fn stepper(
        inputs: Seq<Seq<S>>,
        sample_rate: S,
    ) -> spec_fn(Self, int) -> (Self, S) {
        |st: Self, i: int| st.tick(inputs[0][i], st.coefficients(sample_rate))
    }

    /// Processes one block: runs the recursion over the samples of the block and
    /// writes output 0. A call whose slices do not fit is refused and changes
    /// nothing. Nothing is allocated.
    pub fn process(
        &mut self,
        inputs: &[&[S]],
        outputs: &mut [Vec<S>],
        sample_rate: S,
    ) -> (r: Result<(), ShapeError>)
        ensures
            r == shape_verdict(rows(inputs), cols(old(outputs)@), 1, 1, 1, 1),
            same_lens(final(outputs)@, old(outputs)@),
            same_from(final(outputs)@, old(outputs)@, 1),
            r.is_err() ==> *final(self) == *old(self) && final(outputs)@ == old(outputs)@,
            final(self).same_settings(*old(self)),
            r.is_ok() && S::obeys_sample_spec() ==> renders(
                Self::stepper(rows(inputs), sample_rate),
                *old(self),
                *final(self),
                final(outputs)@[0]@,
            ),
    {
        let n: usize = match check_block(inputs, outputs, 1, 1, 1, 1) {
            Ok(n) => n,
            Err(e) => {
                return Err(e);
            },
        };
        let ghost f = Self::stepper(rows(inputs), sample_rate);
        let ghost st0 = *self;
        let prep = self.coefficients(sample_rate);
        let mut i: usize = 0;
        while i < n
            invariant
                i <= n,
                inputs@.len() >= 1,
                outputs@.len() >= 1,
                outputs@[0]@.len() == n,
                forall|p: int| 0 <= p < 1 ==> (#[trigger] inputs@[p])@.len() == n,
                same_lens(outputs@, old(outputs)@),
                same_from(outputs@, old(outputs)@, 1),
                f == Self::stepper(rows(inputs), sample_rate),
                self.same_settings(st0),
                S::obeys_sample_spec() ==> prep == self.coefficients(sample_rate),
                S::obeys_sample_spec() ==> *self == state_after(f, st0, i as nat),
                S::obeys_sample_spec() ==> forall|j: int|
                    0 <= j < i ==> outputs@[0]@[j] == #[trigger] output_at(f, st0, j),
            decreases n - i,
        {
            let x = read_at(inputs, 0, i);
            let (next, y) = self.tick(x, prep);
            *self = next;
            outputs[0][i] = y;
            i += 1;
        }
        Ok(())
    }

    /// Puts the node back to the state that `new` gave it; its settings stay.
    pub open spec fn reset_spec(self) -> Self {
        LadderFilter {
            cutoff: self.cutoff,
            resonance: self.resonance,
            z1: S::zero(),
            z2: S::zero(),
            z3: S::zero(),
            z4: S::zero(),
        }
    }

    /// Performs `reset_spec` in place.
    pub fn reset(&mut self)
        ensures
            final(self).same_settings(*old(self)),
            S::obeys_sample_spec() ==> *final(self) == old(self).reset_spec(),
    {
        *self = LadderFilter {
            cutoff: self.cutoff,
            resonance: self.resonance,
            z1: S::zero(),
            z2: S::zero(),
            z3: S::zero(),
            z4: S::zero(),
        };
    }

    /// A reset right after `new` changes nothing.
    pub proof fn lemma_reset_after_new(cutoff: S, resonance: S)
        ensures
            Self::new_spec(cutoff, resonance).reset_spec() == Self::new_spec(cutoff, resonance),
    {
    }

    /// The number of inputs that a call requires.
    pub fn num_inputs(&self) -> (r: usize)
        ensures
            r == 1,
    {
        1
    }

    /// The number of outputs that a call writes.
    pub fn num_outputs(&self) -> (r: usize)
        ensures
            r == 1,
    {
        1
    }
}

/// Feedback comb filter with a one-pole low-pass in the feedback path.
#[derive(Debug)]
pub struct CombFilter<S> {
    pub delay_samples: usize,
    pub feedback: S,
    pub damp: S,
    /// The delay line.
    pub line: DelayLine<S>,
    /// The last sample put out.
    pub last_output: S,
}

/// What `CombFilter` holds besides its settings.
pub struct CombFilterMemory<S> {
    pub line: DelayView<S>,
    pub last_output: S,
}

impl<S> View for CombFilter<S> {
    type V = CombFilterMemory<S>;

    open spec fn view(&self) -> CombFilterMemory<S> {
        CombFilterMemory { line: self.line@, last_output: self.last_output }
    }
}

impl<S: Sample> CombFilter<S> {
    /// Whether two nodes hold as many samples.
    pub open spec fn same_size(&self, other: &CombFilter<S>) -> bool {
        self.line@.len() == other.line@.len()
    }

    /// Whether two nodes have the same settings.
    pub open spec fn same_settings(&self, other: &CombFilter<S>) -> bool {
        &&& self.delay_samples == other.delay_samples
        &&& self.feedback == other.feedback
        &&& self.damp == other.damp
    }

    /// What a node holds when `new` made it.
    pub open spec fn fresh(delay_samples: usize, feedback: S, damp: S) -> CombFilterMemory<S> {
        CombFilterMemory {
            line: DelayView::filled(delay_samples as nat, S::zero()),
            last_output: S::zero(),
        }
    }

    /// A node in its first state. Whatever the node allocates, it allocates here.
    pub fn new(delay_samples: usize, feedback: S, damp: S) -> (r: Self)
        ensures
            S::obeys_sample_spec() ==> r@ == Self::fresh(delay_samples, feedback, damp),
            r.line@.len() == Self::fresh(delay_samples, feedback, damp).line.len(),
            r.delay_samples == delay_samples,
            r.feedback == feedback,
            r.damp == damp,
    {
        let line = DelayLine::new(delay_samples, S::zero());
        CombFilter {
            delay_samples,
            feedback,
            damp,
            line,
            last_output: S::zero(),
        }
    }

    /// One sample: the sample from the line is smoothed with the last output by the
    /// damping; the input plus the smoothed sample times the feedback, which is
    /// held in `[-0.99, 0.99]`, is put out and goes into the line.
    pub open spec fn tick_spec(&self, st: CombFilterMemory<S>, x: S) -> (CombFilterMemory<S>, S) {
        let delayed = st.line.at(st.line.tap_index(self.delay_samples as nat));
        let filtered = delayed.mul(S::one().sub(self.damp)).add(st.last_output.mul(self.damp));
        let y = x.add(filtered.mul(stable_feedback(self.feedback)));
        (CombFilterMemory { line: st.line.push(y), last_output: y }, y)
    }

    /// Performs `tick_spec` on the node in place and returns the sample.
    pub fn tick(&mut self, x: S) -> (y: S)
        ensures
            final(self).same_size(old(self)),
            final(self).same_settings(old(self)),
            final(self).line@.cursor == old(self).line@.step().cursor,
            S::obeys_sample_spec() ==> (final(self)@, y) == old(self).tick_spec(old(self)@, x),
    {
        let delayed = self.line.at(self.line.tap_index(self.delay_samples));
        let filtered = delayed.mul(S::one().sub(self.damp)).add(self.last_output.mul(self.damp));
        let y = x.add(filtered.mul(stable_feedback(self.feedback)));
        self.line.push(y);
        self.last_output = y;
        y
    }

    /// The node as a recursion over the samples of a block: the state before
    /// sample `i` to the state after it and the sample put out.
    pub open spec fn stepper(
        &self,
        inputs: Seq<Seq<S>>,
        sample_rate: S,
    ) -> spec_fn(CombFilterMemory<S>, int) -> (CombFilterMemory<S>, S) {
        |st: CombFilterMemory<S>, i: int| self.tick_spec(st, inputs[0][i])
    }

    /// Processes one block: runs the recursion over the samples of the block and
    /// writes output 0. A call whose slices do not fit is refused and changes
    /// nothing. Nothing is allocated.
    pub fn process(
        &mut self,
        inputs: &[&[S]],
        outputs: &mut [Vec<S>],
        sample_rate: S,
    ) -> (r: Result<(), ShapeError>)
        ensures
            r == shape_verdict(rows(inputs), cols(old(outputs)@), 1, 1, 1, 1),
            same_lens(final(outputs)@, old(outputs)@),
            same_from(final(outputs)@, old(outputs)@, 1),
            final(self).same_size(old(self)),
            final(self).same_settings(old(self)),
            r.is_err() ==> final(self)@ == old(self)@ && final(outputs)@ == old(outputs)@,
            r.is_ok() ==> final(self).line@.cursor == cursor_after(
                old(self).line@.cursor,
                old(self).line@.len(),
                final(outputs)@[0]@.len(),
            ),
            r.is_ok() && S::obeys_sample_spec() ==> renders(
                old(self).stepper(rows(inputs), sample_rate),
                old(self)@,
                final(self)@,
                final(outputs)@[0]@,
            ),
    {
        let n: usize = match check_block(inputs, outputs, 1, 1, 1, 1) {
            Ok(n) => n,
            Err(e) => {
                return Err(e);
            },
        };
        let ghost st_node = *self;
        let ghost f = st_node.stepper(rows(inputs), sample_rate);
        let ghost st0 = self@;
        let mut i: usize = 0;
        while i < n
            invariant
                i <= n,
                inputs@.len() >= 1,
                outputs@.len() >= 1,
                outputs@[0]@.len() == n,
                forall|p: int| 0 <= p < 1 ==> (#[trigger] inputs@[p])@.len() == n,
                same_lens(outputs@, old(outputs)@),
                same_from(outputs@, old(outputs)@, 1),
                self.same_size(old(self)),
                self.line@.cursor == cursor_after(
                    old(self).line@.cursor,
                    old(self).line@.len(),
                    i as nat,
                ),
                self.same_settings(old(self)),
                self.same_settings(&st_node),
                f == st_node.stepper(rows(inputs), sample_rate),
                S::obeys_sample_spec() ==> self@ == state_after(f, st0, i as nat),
                S::obeys_sample_spec() ==> forall|j: int|
                    0 <= j < i ==> outputs@[0]@[j] == #[trigger] output_at(f, st0, j),
            decreases n - i,
        {
            let x = read_at(inputs, 0, i);
            let y = self.tick(x);
            outputs[0][i] = y;
            i += 1;
        }
        Ok(())
    }

    /// Puts the node back to what `new` gave it; its settings and the lengths of
    /// its lines stay. Nothing is allocated.
    pub fn reset(&mut self)
        ensures
            final(self).same_size(old(self)),
            final(self).same_settings(old(self)),
            S::obeys_sample_spec() ==>
                final(self)@ == (CombFilterMemory { line: old(self)@.line.cleared(S::zero()), last_output: S::zero() }),
    {
        self.line.clear(S::zero());
        self.last_output = S::zero();
    }

    /// A reset right after `new` changes nothing.
    pub proof fn lemma_reset_after_new(delay_samples: usize, feedback: S, damp: S)
        ensures
            (CombFilterMemory { line: Self::fresh(delay_samples, feedback, damp).line.cleared(S::zero()), last_output: S::zero() }) == Self::fresh(
                delay_samples,
                feedback,
                damp,
            ),
    {
        lemma_clear_after_new(delay_samples as nat, S::zero());
    }

    /// The number of inputs that a call requires.
    pub fn num_inputs(&self) -> (r: usize)
        ensures
            r == 1,
    {
        1
    }

    /// The number of outputs that a call writes.
    pub fn num_outputs(&self) -> (r: usize)
        ensures
            r == 1,
    {
        1
    }
}

} // verus!
