//! Dynamics that stand alone. Their thresholds are given in decibels.

use crate::block::{
    check_block, cols, output_at, read_at, renders, rows, same_from, same_lens, shape_verdict,
    state_after, ShapeError,
};
use crate::helpers::db_to_linear;
use crate::nodes::dynamics::follow;
use crate::sample::Sample;
use vstd::prelude::*;

verus! {

/// The smoothing coefficient of the envelope follower for a time in
/// milliseconds: `exp(-1 / (time_ms * 0.001 * sample_rate))`.
pub open spec fn smoothing_coefficient_spec<S: Sample>(time_ms: S, sample_rate: S) -> S {
    S::one().neg().div(time_ms.mul(S::ratio(1, 1000)).mul(sample_rate)).exp()
}

/// Computes `smoothing_coefficient_spec`.
#[verifier::when_used_as_spec(smoothing_coefficient_spec)]
pub fn smoothing_coefficient<S: Sample>(time_ms: S, sample_rate: S) -> (r: S)
    ensures
        S::obeys_sample_spec() ==> r == smoothing_coefficient_spec::<S>(time_ms, sample_rate),
{
    S::one().neg().div(time_ms.mul(S::ratio(1, 1000)).mul(sample_rate)).exp()
}

/// Compressor. `new` takes the threshold and the makeup gain in decibels and
/// keeps them as linear amplitudes; it keeps the ratio as its inverse.
#[derive(Debug, Clone, Copy)]
pub struct Compressor<S> {
    /// Linear amplitude.
    pub threshold: S,
    /// One over the compression ratio.
    pub ratio: S,
    pub attack_ms: S,
    pub release_ms: S,
    /// Linear gain.
    pub makeup_gain: S,
    pub envelope: S,
    pub attack_coeff: S,
    pub release_coeff: S,
}

impl<S: Sample> Compressor<S> {
    /// A node in its first state.
    pub open spec fn new_spec(
        threshold: S,
        ratio: S,
        attack_ms: S,
        release_ms: S,
        makeup_gain: S,
        sample_rate: S,
    ) -> Self {
        Compressor {
            threshold: db_to_linear(threshold),
            ratio: S::one().div(ratio),
            attack_ms,
            release_ms,
            makeup_gain: db_to_linear(makeup_gain),
            envelope: S::zero(),
            attack_coeff: smoothing_coefficient(attack_ms, sample_rate),
            release_coeff: smoothing_coefficient(release_ms, sample_rate),
        }
    }

    /// Computes `new_spec`.
    #[verifier::when_used_as_spec(new_spec)]
    pub fn new(
        threshold: S,
        ratio: S,
        attack_ms: S,
        release_ms: S,
        makeup_gain: S,
        sample_rate: S,
    ) -> (r: Self)
        ensures
            S::obeys_sample_spec() ==>
                r == Self::new_spec(
                    threshold,
                    ratio,
                    attack_ms,
                    release_ms,
                    makeup_gain,
                    sample_rate,
                ),
    {
        Compressor {
            threshold: db_to_linear(threshold),
            ratio: S::one().div(ratio),
            attack_ms,
            release_ms,
            makeup_gain: db_to_linear(makeup_gain),
            envelope: S::zero(),
            attack_coeff: smoothing_coefficient(attack_ms, sample_rate),
            release_coeff: smoothing_coefficient(release_ms, sample_rate),
        }
    }

    /// Whether two nodes have the same settings.
    pub open spec fn same_settings(self, other: Self) -> bool {
        &&& self.threshold == other.threshold
        &&& self.ratio == other.ratio
        &&& self.attack_ms == other.attack_ms
        &&& self.release_ms == other.release_ms
        &&& self.makeup_gain == other.makeup_gain
        &&& self.attack_coeff == other.attack_coeff
        &&& self.release_coeff == other.release_coeff
    }

    /// One sample: the follower moves; above the threshold the gain is `(envelope /
    /// threshold)^(1 / ratio - 1)`, elsewhere one; the makeup gain comes on top.
    pub open spec fn tick_spec(self, x: S) -> (Self, S) {
        let envelope = follow(self.envelope, x.abs(), self.attack_coeff, self.release_coeff);
        let gain = if envelope.gt(self.threshold) {
            envelope.div(self.threshold).powf(self.ratio.sub(S::one()))
        } else {
            S::one()
        };
        (
            Compressor {
                threshold: self.threshold,
                ratio: self.ratio,
                attack_ms: self.attack_ms,
                release_ms: self.release_ms,
                makeup_gain: self.makeup_gain,
                attack_coeff: self.attack_coeff,
                release_coeff: self.release_coeff,
                envelope,
            },
            x.mul(gain).mul(self.makeup_gain),
        )
    }

    /// Computes `tick_spec`.
    #[verifier::when_used_as_spec(tick_spec)]
    pub fn tick(self, x: S) -> (r: (Self, S))
        ensures
            r.0.same_settings(self),
            S::obeys_sample_spec() ==> r == self.tick_spec(x),
    {
        let envelope = follow(self.envelope, x.abs(), self.attack_coeff, self.release_coeff);
        let gain = if envelope.gt(self.threshold) {
            envelope.div(self.threshold).powf(self.ratio.sub(S::one()))
        } else {
            S::one()
        };
        (
            Compressor {
                threshold: self.threshold,
                ratio: self.ratio,
                attack_ms: self.attack_ms,
                release_ms: self.release_ms,
                makeup_gain: self.makeup_gain,
                attack_coeff: self.attack_coeff,
                release_coeff: self.release_coeff,
                envelope,
            },
            x.mul(gain).mul(self.makeup_gain),
        )
    }

    /// The node as a recursion over the samples of a block: the state before
    /// sample `i` to the state after it and the sample put out.
    pub open spec fn stepper(
        inputs: Seq<Seq<S>>,
        sample_rate: S,
    ) -> spec_fn(Self, int) -> (Self, S) {
        |st: Self, i: int| st.tick(inputs[0][i])
    }

    /// Processes one block: runs the recursion over the samples of the block and
    /// writes output 0. A call whose slices do not fit is refused and changes
    /// nothing. Nothing is allocated.
    pub fn process(
        &mut self,
        inputs: &[&[S]],
        outputs: &mut [Vec<S>],
        sample_rate: S,
    ) -> (r: Result<(), ShapeError>)
        ensures
            r == shape_verdict(rows(inputs), cols(old(outputs)@), 1, 1, 1, 1),
            same_lens(final(outputs)@, old(outputs)@),
            same_from(final(outputs)@, old(outputs)@, 1),
            r.is_err() ==> *final(self) == *old(self) && final(outputs)@ == old(outputs)@,
            final(self).same_settings(*old(self)),
            r.is_ok() && S::obeys_sample_spec() ==> renders(
                Self::stepper(rows(inputs), sample_rate),
                *old(self),
                *final(self),
                final(outputs)@[0]@,
            ),
    {
        let n: usize = match check_block(inputs, outputs, 1, 1, 1, 1) {
            Ok(n) => n,
            Err(e) => {
                return Err(e);
            },
        };
        let ghost f = Self::stepper(rows(inputs), sample_rate);
        let ghost st0 = *self;
        let mut i: usize = 0;
        while i < n
            invariant
                i <= n,
                inputs@.len() >= 1,
                outputs@.len() >= 1,
                outputs@[0]@.len() == n,
                forall|p: int| 0 <= p < 1 ==> (#[trigger] inputs@[p])@.len() == n,
                same_lens(outputs@, old(outputs)@),
                same_from(outputs@, old(outputs)@, 1),
                f == Self::stepper(rows(inputs), sample_rate),
                self.same_settings(st0),
                S::obeys_sample_spec() ==> *self == state_after(f, st0, i as nat),
                S::obeys_sample_spec() ==> forall|j: int|
                    0 <= j < i ==> outputs@[0]@[j] == #[trigger] output_at(f, st0, j),
            decreases n - i,
        {
            let x = read_at(inputs, 0, i);
            let (next, y) = self.tick(x);
            *self = next;
            outputs[0][i] = y;
            i += 1;
        }
        Ok(())
    }

    /// Puts the node back to the state that `new` gave it; its settings stay.
    pub open spec fn reset_spec(self) -> Self {
        Compressor {
            threshold: self.threshold,
            ratio: self.ratio,
            attack_ms: self.attack_ms,
            release_ms: self.release_ms,
            makeup_gain: self.makeup_gain,
            attack_coeff: self.attack_coeff,
            release_coeff: self.release_coeff,
            envelope: S::zero(),
        }
    }

    /// Performs `reset_spec` in place.
    pub fn reset(&mut self)
        ensures
            final(self).same_settings(*old(self)),
            S::obeys_sample_spec() ==> *final(self) == old(self).reset_spec(),
    {
        *self = Compressor {
            threshold: self.threshold,
            ratio: self.ratio,
            attack_ms: self.attack_ms,
            release_ms: self.release_ms,
            makeup_gain: self.makeup_gain,
            attack_coeff: self.attack_coeff,
            release_coeff: self.release_coeff,
            envelope: S::zero(),
        };
    }

    /// A reset right after `new` changes nothing.
    pub proof fn lemma_reset_after_new(
        threshold: S,
        ratio: S,
        attack_ms: S,
        release_ms: S,
        makeup_gain: S,
        sample_rate: S,
    )
        ensures
            Self::new_spec(threshold, ratio, attack_ms, release_ms, makeup_gain, sample_rate)
                .reset_spec() == Self::new_spec(
                    threshold,
                    ratio,
                    attack_ms,
                    release_ms,
                    makeup_gain,
                    sample_rate,
                ),
    {
    }

    /// The number of inputs that a call requires.
    pub fn num_inputs(&self) -> (r: usize)
        ensures
            r == 1,
    {
        1
    }

    /// The number of outputs that a call writes.
    pub fn num_outputs(&self) -> (r: usize)
        ensures
            r == 1,
    {
        1
    }
}

/// Limiter. `new` takes the threshold in decibels and keeps it as a linear
/// amplitude.
#[derive(Debug, Clone, Copy)]
pub struct Limiter<S> {
    /// Linear amplitude.
    pub threshold: S,
    pub attack_ms: S,
    pub release_ms: S,
    pub envelope: S,
    pub attack_coeff: S,
    pub release_coeff: S,
}

impl<S: Sample> Limiter<S> {
    /// A node in its first state.
    pub open spec fn new_spec(threshold: S, attack_ms: S, release_ms: S, sample_rate: S) -> Self {
        Limiter {
            threshold: db_to_linear(threshold),
            attack_ms,
            release_ms,
            envelope: S::zero(),
            attack_coeff: smoothing_coefficient(attack_ms, sample_rate),
            release_coeff: smoothing_coefficient(release_ms, sample_rate),
        }
    }

    /// Computes `new_spec`.
    #[verifier::when_used_as_spec(new_spec)]
    pub fn new(threshold: S, attack_ms: S, release_ms: S, sample_rate: S) -> (r: Self)
        ensures
            S::obeys_sample_spec() ==>
                r == Self::new_spec(threshold, attack_ms, release_ms, sample_rate),
    {
        Limiter {
            threshold: db_to_linear(threshold),
            attack_ms,
            release_ms,
            envelope: S::zero(),
            attack_coeff: smoothing_coefficient(attack_ms, sample_rate),
            release_coeff: smoothing_coefficient(release_ms, sample_rate),
        }
    }

    /// Whether two nodes have the same settings.
    pub open spec fn same_settings(self, other: Self) -> bool {
        &&& self.threshold == other.threshold
        &&& self.attack_ms == other.attack_ms
        &&& self.release_ms == other.release_ms
        &&& self.attack_coeff == other.attack_coeff
        &&& self.release_coeff == other.release_coeff
    }

    /// One sample: the follower moves; the gain is `threshold / envelope` where the
    /// envelope is over the threshold, and one elsewhere.
    pub open spec fn tick_spec(self, x: S) -> (Self, S) {
        let envelope = follow(self.envelope, x.abs(), self.attack_coeff, self.release_coeff);
        let gain = if envelope.gt(self.threshold) {
            self.threshold.div(envelope)
        } else {
            S::one()
        };
        (
            Limiter {
                threshold: self.threshold,
                attack_ms: self.attack_ms,
                release_ms: self.release_ms,
                attack_coeff: self.attack_coeff,
                release_coeff: self.release_coeff,
                envelope,
            },
            x.mul(gain),
        )
    }

    /// Computes `tick_spec`.
    #[verifier::when_used_as_spec(tick_spec)]
    pub fn tick(self, x: S) -> (r: (Self, S))
        ensures
            r.0.same_settings(self),
            S::obeys_sample_spec() ==> r == self.tick_spec(x),
    {
        let envelope = follow(self.envelope, x.abs(), self.attack_coeff, self.release_coeff);
        let gain = if envelope.gt(self.threshold) {
            self.threshold.div(envelope)
        } else {
            S::one()
        };
        (
            Limiter {
                threshold: self.threshold,
                attack_ms: self.attack_ms,
                release_ms: self.release_ms,
                attack_coeff: self.attack_coeff,
                release_coeff: self.release_coeff,
                envelope,
            },
            x.mul(gain),
        )
    }

    /// The node as a recursion over the samples of a block: the state before
    /// sample `i` to the state after it and the sample put out.
    pub open spec fn stepper(
        inputs: Seq<Seq<S>>,
        sample_rate: S,
    ) -> spec_fn(Self, int) -> (Self, S) {
        |st: Self, i: int| st.tick(inputs[0][i])
    }

    /// Processes one block: runs the recursion over the samples of the block and
    /// writes output 0. A call whose slices do not fit is refused and changes
    /// nothing. Nothing is allocated.
    pub fn process(
        &mut self,
        inputs: &[&[S]],
        outputs: &mut [Vec<S>],
        sample_rate: S,
    ) -> (r: Result<(), ShapeError>)
        ensures
            r == shape_verdict(rows(inputs), cols(old(outputs)@), 1, 1, 1, 1),
            same_lens(final(outputs)@, old(outputs)@),
            same_from(final(outputs)@, old(outputs)@, 1),
            r.is_err() ==> *final(self) == *old(self) && final(outputs)@ == old(outputs)@,
            final(self).same_settings(*old(self)),
            r.is_ok() && S::obeys_sample_spec() ==> renders(
                Self::stepper(rows(inputs), sample_rate),
                *old(self),
                *final(self),
                final(outputs)@[0]@,
            ),
    {
        let n: usize = match check_block(inputs, outputs, 1, 1, 1, 1) {
            Ok(n) => n,
            Err(e) => {
                return Err(e);
            },
        };
        let ghost f = Self::stepper(rows(inputs), sample_rate);
        let ghost st0 = *self;
        let mut i: usize = 0;
        while i < n
            invariant
                i <= n,
                inputs@.len() >= 1,
                outputs@.len() >= 1,
                outputs@[0]@.len() == n,
                forall|p: int| 0 <= p < 1 ==> (#[trigger] inputs@[p])@.len() == n,
                same_lens(outputs@, old(outputs)@),
                same_from(outputs@, old(outputs)@, 1),
                f == Self::stepper(rows(inputs), sample_rate),
                self.same_settings(st0),
                S::obeys_sample_spec() ==> *self == state_after(f, st0, i as nat),
                S::obeys_sample_spec() ==> forall|j: int|
                    0 <= j < i ==> outputs@[0]@[j] == #[trigger] output_at(f, st0, j),
            decreases n - i,
        {
            let x = read_at(inputs, 0, i);
            let (next, y) = self.tick(x);
            *self = next;
            outputs[0][i] = y;
            i += 1;
        }
        Ok(())
    }

    /// Puts the node back to the state that `new` gave it; its settings stay.
    pub open spec fn reset_spec(self) -> Self {
        Limiter {
            threshold: self.threshold,
            attack_ms: self.attack_ms,
            release_ms: self.release_ms,
            attack_coeff: self.attack_coeff,
            release_coeff: self.release_coeff,
            envelope: S::zero(),
        }
    }

    /// Performs `reset_spec` in place.
    pub fn reset(&mut self)
        ensures
            final(self).same_settings(*old(self)),
            S::obeys_sample_spec() ==> *final(self) == old(self).reset_spec(),
    {
        *self = Limiter {
            threshold: self.threshold,
            attack_ms: self.attack_ms,
            release_ms: self.release_ms,
            attack_coeff: self.attack_coeff,
            release_coeff: self.release_coeff,
            envelope: S::zero(),
        };
    }

    /// A reset right after `new` changes nothing.
    pub proof fn lemma_reset_after_new(threshold: S, attack_ms: S, release_ms: S, sample_rate: S)
        ensures
            Self::new_spec(threshold, attack_ms, release_ms, sample_rate)
                .reset_spec() == Self::new_spec(threshold, attack_ms, release_ms, sample_rate),
    {
    }

    /// The number of inputs that a call requires.
    pub fn num_inputs(&self) -> (r: usize)
        ensures
            r == 1,
    {
        1
    }

    /// The number of outputs that a call writes.
    pub fn num_outputs(&self) -> (r: usize)
        ensures
            r == 1,
    {
        1
    }
}

/// Expander and gate. `new` takes the threshold in decibels and keeps it as a
/// linear amplitude.
#[derive(Debug, Clone, Copy)]
pub struct Gate<S> {
    /// Linear amplitude.
    pub threshold: S,
    pub ratio: S,
    pub attack_ms: S,
    pub release_ms: S,
    pub envelope: S,
    pub attack_coeff: S,
    pub release_coeff: S,
}

impl<S: Sample> Gate<S> {
    /// A node in its first state.
    pub open spec fn new_spec(
        threshold: S,
        ratio: S,
        attack_ms: S,
        release_ms: S,
        sample_rate: S,
    ) -> Self {
        Gate {
            threshold: db_to_linear(threshold),
            ratio,
            attack_ms,
            release_ms,
            envelope: S::zero(),
            attack_coeff: smoothing_coefficient(attack_ms, sample_rate),
            release_coeff: smoothing_coefficient(release_ms, sample_rate),
        }
    }

    /// Computes `new_spec`.
    #[verifier::when_used_as_spec(new_spec)]
    pub fn new(threshold: S, ratio: S, attack_ms: S, release_ms: S, sample_rate: S) -> (r: Self)
        ensures
            S::obeys_sample_spec() ==>
                r == Self::new_spec(threshold, ratio, attack_ms, release_ms, sample_rate),
    {
        Gate {
            threshold: db_to_linear(threshold),
            ratio,
            attack_ms,
            release_ms,
            envelope: S::zero(),
            attack_coeff: smoothing_coefficient(attack_ms, sample_rate),
            release_coeff: smoothing_coefficient(release_ms, sample_rate),
        }
    }

    /// Whether two nodes have the same settings.
    pub open spec fn same_settings(self, other: Self) -> bool {
        &&& self.threshold == other.threshold
        &&& self.ratio == other.ratio
        &&& self.attack_ms == other.attack_ms
        &&& self.release_ms == other.release_ms
        &&& self.attack_coeff == other.attack_coeff
        &&& self.release_coeff == other.release_coeff
    }

    /// One sample: the follower moves; below the threshold the gain is `(threshold
    /// / envelope)^(1 - ratio)`, with the envelope floored at 0.0001 before it
    /// divides; elsewhere one.
    pub open spec fn tick_spec(self, x: S) -> (Self, S) {
        let envelope = follow(self.envelope, x.abs(), self.attack_coeff, self.release_coeff);
        let gain = if envelope.lt(self.threshold) {
            self.threshold.div(envelope.max(S::ratio(1, 10000))).powf(S::one().sub(self.ratio))
        } else {
            S::one()
        };
        (
            Gate {
                threshold: self.threshold,
                ratio: self.ratio,
                attack_ms: self.attack_ms,
                release_ms: self.release_ms,
                attack_coeff: self.attack_coeff,
                release_coeff: self.release_coeff,
                envelope,
            },
            x.mul(gain),
        )
    }

    /// Computes `tick_spec`.
    #[verifier::when_used_as_spec(tick_spec)]
    pub fn tick(self, x: S) -> (r: (Self, S))
        ensures
            r.0.same_settings(self),
            S::obeys_sample_spec() ==> r == self.tick_spec(x),
    {
        let envelope = follow(self.envelope, x.abs(), self.attack_coeff, self.release_coeff);
        let gain = if envelope.lt(self.threshold) {
            self.threshold.div(envelope.max(S::ratio(1, 10000))).powf(S::one().sub(self.ratio))
        } else {
            S::one()
        };
        (
            Gate {
                threshold: self.threshold,
                ratio: self.ratio,
                attack_ms: self.attack_ms,
                release_ms: self.release_ms,
                attack_coeff: self.attack_coeff,
                release_coeff: self.release_coeff,
                envelope,
            },
            x.mul(gain),
        )
    }

    /// The node as a recursion over the samples of a block: the state before
    /// sample `i` to the state after it and the sample put out.
    pub open spec fn stepper(
        inputs: Seq<Seq<S>>,
        sample_rate: S,
    ) -> spec_fn(Self, int) -> (Self, S) {
        |st: Self, i: int| st.tick(inputs[0][i])
    }

    /// Processes one block: runs the recursion over the samples of the block and
    /// writes output 0. A call whose slices do not fit is refused and changes
    /// nothing. Nothing is allocated.
    pub fn process(
        &mut self,
        inputs: &[&[S]],
        outputs: &mut [Vec<S>],
        sample_rate: S,
    ) -> (r: Result<(), ShapeError>)
        ensures
            r == shape_verdict(rows(inputs), cols(old(outputs)@), 1, 1, 1, 1),
            same_lens(final(outputs)@, old(outputs)@),
            same_from(final(outputs)@, old(outputs)@, 1),
            r.is_err() ==> *final(self) == *old(self) && final(outputs)@ == old(outputs)@,
            final(self).same_settings(*old(self)),
            r.is_ok() && S::obeys_sample_spec() ==> renders(
                Self::stepper(rows(inputs), sample_rate),
                *old(self),
                *final(self),
                final(outputs)@[0]@,
            ),
    {
        let n: usize = match check_block(inputs, outputs, 1, 1, 1, 1) {
            Ok(n) => n,
            Err(e) => {
                return Err(e);
            },
        };
        let ghost f = Self::stepper(rows(inputs), sample_rate);
        let ghost st0 = *self;
        let mut i: usize = 0;
        while i < n
            invariant
                i <= n,
                inputs@.len() >= 1,
                outputs@.len() >= 1,
                outputs@[0]@.len() == n,
                forall|p: int| 0 <= p < 1 ==> (#[trigger] inputs@[p])@.len() == n,
                same_lens(outputs@, old(outputs)@),
                same_from(outputs@, old(outputs)@, 1),
                f == Self::stepper(rows(inputs), sample_rate),
                self.same_settings(st0),
                S::obeys_sample_spec() ==> *self == state_after(f, st0, i as nat),
                S::obeys_sample_spec() ==> forall|j: int|
                    0 <= j < i ==> outputs@[0]@[j] == #[trigger] output_at(f, st0, j),
            decreases n - i,
        {
            let x = read_at(inputs, 0, i);
            let (next, y) = self.tick(x);
            *self = next;
            outputs[0][i] = y;
            i += 1;
        }
        Ok(())
    }

    /// Puts the node back to the state that `new` gave it; its settings stay.
    pub open spec fn reset_spec(self) -> Self {
        Gate {
            threshold: self.threshold,
            ratio: self.ratio,
            attack_ms: self.attack_ms,
            release_ms: self.release_ms,
            attack_coeff: self.attack_coeff,
            release_coeff: self.release_coeff,
            envelope: S::zero(),
        }
    }

    /// Performs `reset_spec` in place.
    pub fn reset(&mut self)
        ensures
            final(self).same_settings(*old(self)),
            S::obeys_sample_spec() ==> *final(self) == old(self).reset_spec(),
    {
        *self = Gate {
            threshold: self.threshold,
            ratio: self.ratio,
            attack_ms: self.attack_ms,
            release_ms: self.release_ms,
            attack_coeff: self.attack_coeff,
            release_coeff: self.release_coeff,
            envelope: S::zero(),
        };
    }

    /// A reset right after `new` changes nothing.
    pub proof fn lemma_reset_after_new(
        threshold: S,
        ratio: S,
        attack_ms: S,
        release_ms: S,
        sample_rate: S,
    )
        ensures
            Self::new_spec(threshold, ratio, attack_ms, release_ms, sample_rate)
                .reset_spec() == Self::new_spec(
                    threshold,
                    ratio,
                    attack_ms,
                    release_ms,
                    sample_rate,
                ),
    {
    }

    /// The number of inputs that a call requires.
    pub fn num_inputs(&self) -> (r: usize)
        ensures
            r == 1,
    {
        1
    }

    /// The number of outputs that a call writes.
    pub fn num_outputs(&self) -> (r: usize)
        ensures
            r == 1,
    {
        1
    }
}

} // verus!
