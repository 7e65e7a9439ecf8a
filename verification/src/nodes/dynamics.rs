//! Dynamics: compressor, limiter, gate and expander on one envelope follower.

use crate::block::{
    audio_ports, check_block, cols, make_audio_ports, output_at, port_or, read_at, read_or, renders,
    rows, same_from, same_lens, shape_verdict, state_after, Port, ShapeError,
};
use crate::sample::Sample;
use vstd::prelude::*;

verus! {

/// The smoothing coefficient of the envelope follower for a time in
/// milliseconds: `exp(-1 / (time_ms * sample_rate / 1000))`.
pub open spec fn follower_coefficient_spec<S: Sample>(time_ms: S, sample_rate: S) -> S {
    S::one().neg().div(time_ms.mul(sample_rate).div(S::ratio(1000, 1))).exp()
}

/// Computes `follower_coefficient_spec`.
#[verifier::when_used_as_spec(follower_coefficient_spec)]
pub fn follower_coefficient<S: Sample>(time_ms: S, sample_rate: S) -> (r: S)
    ensures
        S::obeys_sample_spec() ==> r == follower_coefficient_spec::<S>(time_ms, sample_rate),
{
    S::one().neg().div(time_ms.mul(sample_rate).div(S::ratio(1000, 1))).exp()
}

/// One step of the envelope follower that all the dynamics nodes share: the
/// envelope moves towards the level `key` with the attack coefficient where the
/// level is above it, and with the release coefficient elsewhere.
pub open spec fn follow_spec<S: Sample>(
    envelope: S,
    key: S,
    attack_coeff: S,
    release_coeff: S,
) -> S {
    if key.gt(envelope) {
        attack_coeff.mul(envelope.sub(key)).add(key)
    } else {
        release_coeff.mul(envelope.sub(key)).add(key)
    }
}

/// Computes `follow_spec`.
#[verifier::when_used_as_spec(follow_spec)]
pub fn follow<S: Sample>(envelope: S, key: S, attack_coeff: S, release_coeff: S) -> (r: S)
    ensures
        S::obeys_sample_spec() ==>
            r == follow_spec::<S>(envelope, key, attack_coeff, release_coeff),
{
    if key.gt(envelope) {
        attack_coeff.mul(envelope.sub(key)).add(key)
    } else {
        release_coeff.mul(envelope.sub(key)).add(key)
    }
}

/// The smallest envelope that a gain is divided by.
pub open spec fn envelope_floor_spec<S: Sample>() -> S {
    S::ratio(1, 10000)
}

/// Computes `envelope_floor_spec`.
#[verifier::when_used_as_spec(envelope_floor_spec)]
pub fn envelope_floor<S: Sample>() -> (r: S)
    ensures
        S::obeys_sample_spec() ==> r == envelope_floor_spec::<S>(),
{
    S::ratio(1, 10000)
}

/// State of a compressor: the envelope of its key signal.
#[derive(Debug, Clone, Copy)]
pub struct CompressorState<S> {
    pub envelope: S,
}

/// Compressor. The threshold and the envelope are linear amplitudes; above the
/// threshold the level rises by one part in `ratio`. Input 1, where it is
/// connected, is the key signal in place of the input itself.
#[derive(Debug, Clone, Copy)]
pub struct Compressor<S> {
    pub threshold: S,
    pub ratio: S,
    pub attack_ms: S,
    pub release_ms: S,
    pub makeup_gain: S,
}

impl<S: Sample> Compressor<S> {
    /// The attack and the release coefficient of the follower at a sample rate;
    /// they are the same for every sample of a block.
    pub open spec fn prepare_spec(&self, sample_rate: S) -> (S, S) {
        (
            follower_coefficient(self.attack_ms, sample_rate),
            follower_coefficient(self.release_ms, sample_rate),
        )
    }

    /// Computes `prepare_spec`.
    #[verifier::when_used_as_spec(prepare_spec)]
    pub fn prepare(&self, sample_rate: S) -> (r: (S, S))
        ensures
            S::obeys_sample_spec() ==> r == self.prepare_spec(sample_rate),
    {
        (
            follower_coefficient(self.attack_ms, sample_rate),
            follower_coefficient(self.release_ms, sample_rate),
        )
    }

    /// One sample: the follower moves, the gain is the quotient of the compressed
    /// level and the level, taken through decibels, times the makeup gain. The
    /// level is the envelope, floored at `envelope_floor` before it divides.
    pub open spec fn tick_spec(
        &self,
        st: CompressorState<S>,
        x: S,
        side: S,
        coeffs: (S, S),
    ) -> (CompressorState<S>, S) {
        let envelope = follow(st.envelope, side.abs(), coeffs.0, coeffs.1);
        let level = envelope.max(envelope_floor::<S>());
        let target = if level.gt(self.threshold) {
            self.threshold.add(level.sub(self.threshold).div(self.ratio))
        } else {
            level
        };
        let gain_db = S::ratio(20, 1).mul(target.div(level).log10());
        let gain = S::ratio(10, 1).powf(gain_db.div(S::ratio(20, 1))).mul(self.makeup_gain);
        (CompressorState { envelope }, x.mul(gain))
    }

    /// Computes `tick_spec`.
    #[verifier::when_used_as_spec(tick_spec)]
    pub fn tick(
        &self,
        st: CompressorState<S>,
        x: S,
        side: S,
        coeffs: (S, S),
    ) -> (r: (CompressorState<S>, S))
        ensures
            S::obeys_sample_spec() ==> r == self.tick_spec(st, x, side, coeffs),
    {
        let envelope = follow(st.envelope, side.abs(), coeffs.0, coeffs.1);
        let level = envelope.max(envelope_floor::<S>());
        let target = if level.gt(self.threshold) {
            self.threshold.add(level.sub(self.threshold).div(self.ratio))
        } else {
            level
        };
        let gain_db = S::ratio(20, 1).mul(target.div(level).log10());
        let gain = S::ratio(10, 1).powf(gain_db.div(S::ratio(20, 1))).mul(self.makeup_gain);
        (CompressorState { envelope }, x.mul(gain))
    }

    /// The node as a recursion over the samples of a block: the state before
    /// sample `i` to the state after it and the sample put out.
    pub open spec fn stepper(
        &self,
        inputs: Seq<Seq<S>>,
        sample_rate: S,
    ) -> spec_fn(CompressorState<S>, int) -> (CompressorState<S>, S) {
        |st: CompressorState<S>, i: int| self
            .tick(st, inputs[0][i], port_or(inputs, 1, i, inputs[0][i]), self.prepare(sample_rate))
    }

    /// The inputs that the node declares.
    pub fn input_ports(&self) -> (r: Vec<Port>)
        ensures
            r@ == audio_ports(2),
    {
        make_audio_ports(2)
    }

    /// The outputs that the node declares.
    pub fn output_ports(&self) -> (r: Vec<Port>)
        ensures
            r@ == audio_ports(1),
    {
        make_audio_ports(1)
    }

    /// The number of inputs that must be connected.
    pub fn required_inputs(&self) -> (r: usize)
        ensures
            r == 1,
    {
        1
    }

    /// The state before the first sample.
    pub open spec fn fresh() -> CompressorState<S> {
        CompressorState { envelope: S::zero() }
    }

    /// Makes the state for one instance of the node.
    pub fn init_state(&self, _sample_rate: S, _block_size: usize) -> (st: CompressorState<S>)
        ensures
            S::obeys_sample_spec() ==> st == Self::fresh(),
    {
        CompressorState { envelope: S::zero() }
    }

    /// Puts the state back to what `init_state` returns.
    pub fn reset(&self, state: &mut CompressorState<S>)
        ensures
            S::obeys_sample_spec() ==> *final(state) == Self::fresh(),
    {
        *state = CompressorState { envelope: S::zero() };
    }

    /// Processes one block: runs the recursion over the samples of the block and
    /// writes output 0. A call whose slices do not fit is refused and changes
    /// nothing. Nothing is allocated.
    pub fn process_block(
        &self,
        state: &mut CompressorState<S>,
        inputs: &[&[S]],
        outputs: &mut [Vec<S>],
        sample_rate: S,
    ) -> (r: Result<(), ShapeError>)
        ensures
            r == shape_verdict(rows(inputs), cols(old(outputs)@), 1, 1, 2, 1),
            same_lens(final(outputs)@, old(outputs)@),
            same_from(final(outputs)@, old(outputs)@, 1),
            r.is_err() ==> *final(state) == *old(state) && final(outputs)@ == old(outputs)@,
            r.is_ok() && S::obeys_sample_spec() ==> renders(
                self.stepper(rows(inputs), sample_rate),
                *old(state),
                *final(state),
                final(outputs)@[0]@,
            ),
    {
        let n: usize = match check_block(inputs, outputs, 1, 1, 2, 1) {
            Ok(n) => n,
            Err(e) => {
                return Err(e);
            },
        };
        let ghost f = self.stepper(rows(inputs), sample_rate);
        let ghost st0 = *state;
        let prep = self.prepare(sample_rate);
        let mut i: usize = 0;
        while i < n
            invariant
                i <= n,
                inputs@.len() >= 1,
                outputs@.len() >= 1,
                outputs@[0]@.len() == n,
                forall|p: int| 0 <= p < 1 ==> (#[trigger] inputs@[p])@.len() == n,
                forall|p: int|
                    1 <= p < 2 && p < inputs@.len() ==> (#[trigger] inputs@[p])@.len() == 0
                        || inputs@[p]@.len() == n,
                same_lens(outputs@, old(outputs)@),
                same_from(outputs@, old(outputs)@, 1),
                f == self.stepper(rows(inputs), sample_rate),
                S::obeys_sample_spec() ==> prep == self.prepare(sample_rate),
                S::obeys_sample_spec() ==> *state == state_after(f, st0, i as nat),
                S::obeys_sample_spec() ==> forall|j: int|
                    0 <= j < i ==> outputs@[0]@[j] == #[trigger] output_at(f, st0, j),
            decreases n - i,
        {
            let x = read_at(inputs, 0, i);
            let side = read_or(inputs, 1, i, read_at(inputs, 0, i));
            let (next, y) = self.tick(*state, x, side, prep);
            *state = next;
            outputs[0][i] = y;
            i += 1;
        }
        Ok(())
    }
}

/// State of a limiter: the envelope of its input.
#[derive(Debug, Clone, Copy)]
pub struct LimiterState<S> {
    pub envelope: S,
}

/// Limiter: a compressor with a hard ratio. The threshold is a linear
/// amplitude.
#[derive(Debug, Clone, Copy)]
pub struct Limiter<S> {
    pub threshold: S,
    pub attack_ms: S,
    pub release_ms: S,
}

impl<S: Sample> Limiter<S> {
    /// The attack and the release coefficient of the follower at a sample rate;
    /// they are the same for every sample of a block.
    pub open spec fn prepare_spec(&self, sample_rate: S) -> (S, S) {
        (
            follower_coefficient(self.attack_ms, sample_rate),
            follower_coefficient(self.release_ms, sample_rate),
        )
    }

    /// Computes `prepare_spec`.
    #[verifier::when_used_as_spec(prepare_spec)]
    pub fn prepare(&self, sample_rate: S) -> (r: (S, S))
        ensures
            S::obeys_sample_spec() ==> r == self.prepare_spec(sample_rate),
    {
        (
            follower_coefficient(self.attack_ms, sample_rate),
            follower_coefficient(self.release_ms, sample_rate),
        )
    }

    /// One sample: the gain is `threshold / envelope` where the envelope is over
    /// the threshold, and one elsewhere.
    pub open spec fn tick_spec(
        &self,
        st: LimiterState<S>,
        x: S,
        coeffs: (S, S),
    ) -> (LimiterState<S>, S) {
        let envelope = follow(st.envelope, x.abs(), coeffs.0, coeffs.1);
        let target = if envelope.gt(self.threshold) {
            self.threshold
        } else {
            envelope
        };
        let gain = if envelope.gt(S::zero()) {
            target.div(envelope)
        } else {
            S::one()
        };
        (LimiterState { envelope }, x.mul(gain))
    }

    /// Computes `tick_spec`.
    #[verifier::when_used_as_spec(tick_spec)]
    pub fn tick(&self, st: LimiterState<S>, x: S, coeffs: (S, S)) -> (r: (LimiterState<S>, S))
        ensures
            S::obeys_sample_spec() ==> r == self.tick_spec(st, x, coeffs),
    {
        let envelope = follow(st.envelope, x.abs(), coeffs.0, coeffs.1);
        let target = if envelope.gt(self.threshold) {
            self.threshold
        } else {
            envelope
        };
        let gain = if envelope.gt(S::zero()) {
            target.div(envelope)
        } else {
            S::one()
        };
        (LimiterState { envelope }, x.mul(gain))
    }

    /// The node as a recursion over the samples of a block: the state before
    /// sample `i` to the state after it and the sample put out.
    pub open spec fn stepper(
        &self,
        inputs: Seq<Seq<S>>,
        sample_rate: S,
    ) -> spec_fn(LimiterState<S>, int) -> (LimiterState<S>, S) {
        |st: LimiterState<S>, i: int| self.tick(st, inputs[0][i], self.prepare(sample_rate))
    }

    /// The inputs that the node declares.
    pub fn input_ports(&self) -> (r: Vec<Port>)
        ensures
            r@ == audio_ports(1),
    {
        make_audio_ports(1)
    }

    /// The outputs that the node declares.
    pub fn output_ports(&self) -> (r: Vec<Port>)
        ensures
            r@ == audio_ports(1),
    {
        make_audio_ports(1)
    }

    /// The number of inputs that must be connected.
    pub fn required_inputs(&self) -> (r: usize)
        ensures
            r == 1,
    {
        1
    }

    /// The state before the first sample.
    pub open spec fn fresh() -> LimiterState<S> {
        LimiterState { envelope: S::zero() }
    }

    /// Makes the state for one instance of the node.
    pub fn init_state(&self, _sample_rate: S, _block_size: usize) -> (st: LimiterState<S>)
        ensures
            S::obeys_sample_spec() ==> st == Self::fresh(),
    {
        LimiterState { envelope: S::zero() }
    }

    /// Puts the state back to what `init_state` returns.
    pub fn reset(&self, state: &mut LimiterState<S>)
        ensures
            S::obeys_sample_spec() ==> *final(state) == Self::fresh(),
    {
        *state = LimiterState { envelope: S::zero() };
    }

    /// Processes one block: runs the recursion over the samples of the block and
    /// writes output 0. A call whose slices do not fit is refused and changes
    /// nothing. Nothing is allocated.
    pub fn process_block(
        &self,
        state: &mut LimiterState<S>,
        inputs: &[&[S]],
        outputs: &mut [Vec<S>],
        sample_rate: S,
    ) -> (r: Result<(), ShapeError>)
        ensures
            r == shape_verdict(rows(inputs), cols(old(outputs)@), 1, 1, 1, 1),
            same_lens(final(outputs)@, old(outputs)@),
            same_from(final(outputs)@, old(outputs)@, 1),
            r.is_err() ==> *final(state) == *old(state) && final(outputs)@ == old(outputs)@,
            r.is_ok() && S::obeys_sample_spec() ==> renders(
                self.stepper(rows(inputs), sample_rate),
                *old(state),
                *final(state),
                final(outputs)@[0]@,
            ),
    {
        let n: usize = match check_block(inputs, outputs, 1, 1, 1, 1) {
            Ok(n) => n,
            Err(e) => {
                return Err(e);
            },
        };
        let ghost f = self.stepper(rows(inputs), sample_rate);
        let ghost st0 = *state;
        let prep = self.prepare(sample_rate);
        let mut i: usize = 0;
        while i < n
            invariant
                i <= n,
                inputs@.len() >= 1,
                outputs@.len() >= 1,
                outputs@[0]@.len() == n,
                forall|p: int| 0 <= p < 1 ==> (#[trigger] inputs@[p])@.len() == n,
                same_lens(outputs@, old(outputs)@),
                same_from(outputs@, old(outputs)@, 1),
                f == self.stepper(rows(inputs), sample_rate),
                S::obeys_sample_spec() ==> prep == self.prepare(sample_rate),
                S::obeys_sample_spec() ==> *state == state_after(f, st0, i as nat),
                S::obeys_sample_spec() ==> forall|j: int|
                    0 <= j < i ==> outputs@[0]@[j] == #[trigger] output_at(f, st0, j),
            decreases n - i,
        {
            let x = read_at(inputs, 0, i);
            let (next, y) = self.tick(*state, x, prep);
            *state = next;
            outputs[0][i] = y;
            i += 1;
        }
        Ok(())
    }
}

/// State of a noise gate: the envelope of its input.
#[derive(Debug, Clone, Copy)]
pub struct GateState<S> {
    pub envelope: S,
}

/// Noise gate: mutes the input while its envelope is below the threshold.
#[derive(Debug, Clone, Copy)]
pub struct NoiseGate<S> {
    pub threshold: S,
    pub ratio: S,
    pub attack_ms: S,
    pub release_ms: S,
}

impl<S: Sample> NoiseGate<S> {
    /// The attack and the release coefficient of the follower at a sample rate;
    /// they are the same for every sample of a block.
    pub open spec fn prepare_spec(&self, sample_rate: S) -> (S, S) {
        (
            follower_coefficient(self.attack_ms, sample_rate),
            follower_coefficient(self.release_ms, sample_rate),
        )
    }

    /// Computes `prepare_spec`.
    #[verifier::when_used_as_spec(prepare_spec)]
    pub fn prepare(&self, sample_rate: S) -> (r: (S, S))
        ensures
            S::obeys_sample_spec() ==> r == self.prepare_spec(sample_rate),
    {
        (
            follower_coefficient(self.attack_ms, sample_rate),
            follower_coefficient(self.release_ms, sample_rate),
        )
    }

    /// One sample: the gain is zero while the envelope is below the threshold, and
    /// one elsewhere.
    pub open spec fn tick_spec(&self, st: GateState<S>, x: S, coeffs: (S, S)) -> (GateState<S>, S) {
        let envelope = follow(st.envelope, x.abs(), coeffs.0, coeffs.1);
        let target = if envelope.lt(self.threshold) {
            S::zero()
        } else {
            envelope
        };
        let gain = if envelope.gt(S::zero()) {
            target.div(envelope)
        } else {
            S::zero()
        };
        (GateState { envelope }, x.mul(gain))
    }

    /// Computes `tick_spec`.
    #[verifier::when_used_as_spec(tick_spec)]
    pub fn tick(&self, st: GateState<S>, x: S, coeffs: (S, S)) -> (r: (GateState<S>, S))
        ensures
            S::obeys_sample_spec() ==> r == self.tick_spec(st, x, coeffs),
    {
        let envelope = follow(st.envelope, x.abs(), coeffs.0, coeffs.1);
        let target = if envelope.lt(self.threshold) {
            S::zero()
        } else {
            envelope
        };
        let gain = if envelope.gt(S::zero()) {
            target.div(envelope)
        } else {
            S::zero()
        };
        (GateState { envelope }, x.mul(gain))
    }

    /// The node as a recursion over the samples of a block: the state before
    /// sample `i` to the state after it and the sample put out.
    pub open spec fn stepper(
        &self,
        inputs: Seq<Seq<S>>,
        sample_rate: S,
    ) -> spec_fn(GateState<S>, int) -> (GateState<S>, S) {
        |st: GateState<S>, i: int| self.tick(st, inputs[0][i], self.prepare(sample_rate))
    }

    /// The inputs that the node declares.
    pub fn input_ports(&self) -> (r: Vec<Port>)
        ensures
            r@ == audio_ports(1),
    {
        make_audio_ports(1)
    }

    /// The outputs that the node declares.
    pub fn output_ports(&self) -> (r: Vec<Port>)
        ensures
            r@ == audio_ports(1),
    {
        make_audio_ports(1)
    }

    /// The number of inputs that must be connected.
    pub fn required_inputs(&self) -> (r: usize)
        ensures
            r == 1,
    {
        1
    }

    /// The state before the first sample.
    pub open spec fn fresh() -> GateState<S> {
        GateState { envelope: S::zero() }
    }

    /// Makes the state for one instance of the node.
    pub fn init_state(&self, _sample_rate: S, _block_size: usize) -> (st: GateState<S>)
        ensures
            S::obeys_sample_spec() ==> st == Self::fresh(),
    {
        GateState { envelope: S::zero() }
    }

    /// Puts the state back to what `init_state` returns.
    pub fn reset(&self, state: &mut GateState<S>)
        ensures
            S::obeys_sample_spec() ==> *final(state) == Self::fresh(),
    {
        *state = GateState { envelope: S::zero() };
    }

    /// Processes one block: runs the recursion over the samples of the block and
    /// writes output 0. A call whose slices do not fit is refused and changes
    /// nothing. Nothing is allocated.
    pub fn process_block(
        &self,
        state: &mut GateState<S>,
        inputs: &[&[S]],
        outputs: &mut [Vec<S>],
        sample_rate: S,
    ) -> (r: Result<(), ShapeError>)
        ensures
            r == shape_verdict(rows(inputs), cols(old(outputs)@), 1, 1, 1, 1),
            same_lens(final(outputs)@, old(outputs)@),
            same_from(final(outputs)@, old(outputs)@, 1),
            r.is_err() ==> *final(state) == *old(state) && final(outputs)@ == old(outputs)@,
            r.is_ok() && S::obeys_sample_spec() ==> renders(
                self.stepper(rows(inputs), sample_rate),
                *old(state),
                *final(state),
                final(outputs)@[0]@,
            ),
    {
        let n: usize = match check_block(inputs, outputs, 1, 1, 1, 1) {
            Ok(n) => n,
            Err(e) => {
                return Err(e);
            },
        };
        let ghost f = self.stepper(rows(inputs), sample_rate);
        let ghost st0 = *state;
        let prep = self.prepare(sample_rate);
        let mut i: usize = 0;
        while i < n
            invariant
                i <= n,
                inputs@.len() >= 1,
                outputs@.len() >= 1,
                outputs@[0]@.len() == n,
                forall|p: int| 0 <= p < 1 ==> (#[trigger] inputs@[p])@.len() == n,
                same_lens(outputs@, old(outputs)@),
                same_from(outputs@, old(outputs)@, 1),
                f == self.stepper(rows(inputs), sample_rate),
                S::obeys_sample_spec() ==> prep == self.prepare(sample_rate),
                S::obeys_sample_spec() ==> *state == state_after(f, st0, i as nat),
                S::obeys_sample_spec() ==> forall|j: int|
                    0 <= j < i ==> outputs@[0]@[j] == #[trigger] output_at(f, st0, j),
            decreases n - i,
        {
            let x = read_at(inputs, 0, i);
            let (next, y) = self.tick(*state, x, prep);
            *state = next;
            outputs[0][i] = y;
            i += 1;
        }
        Ok(())
    }
}

/// State of an expander: the envelope of its input.
#[derive(Debug, Clone, Copy)]
pub struct ExpanderState<S> {
    pub envelope: S,
}

/// Expander: below the threshold the level falls `ratio` times as fast as the
/// envelope.
#[derive(Debug, Clone, Copy)]
pub struct Expander<S> {
    pub threshold: S,
    pub ratio: S,
    pub attack_ms: S,
    pub release_ms: S,
}

impl<S: Sample> Expander<S> {
    /// The attack and the release coefficient of the follower at a sample rate;
    /// they are the same for every sample of a block.
    pub open spec fn prepare_spec(&self, sample_rate: S) -> (S, S) {
        (
            follower_coefficient(self.attack_ms, sample_rate),
            follower_coefficient(self.release_ms, sample_rate),
        )
    }

    /// Computes `prepare_spec`.
    #[verifier::when_used_as_spec(prepare_spec)]
    pub fn prepare(&self, sample_rate: S) -> (r: (S, S))
        ensures
            S::obeys_sample_spec() ==> r == self.prepare_spec(sample_rate),
    {
        (
            follower_coefficient(self.attack_ms, sample_rate),
            follower_coefficient(self.release_ms, sample_rate),
        )
    }

    /// One sample: the gain is the quotient of the expanded level and the envelope,
    /// and zero for an envelope of zero.
    pub open spec fn tick_spec(
        &self,
        st: ExpanderState<S>,
        x: S,
        coeffs: (S, S),
    ) -> (ExpanderState<S>, S) {
        let envelope = follow(st.envelope, x.abs(), coeffs.0, coeffs.1);
        let target = if envelope.lt(self.threshold) {
            self.threshold.add(envelope.sub(self.threshold).mul(self.ratio))
        } else {
            envelope
        };
        let gain = if envelope.gt(S::zero()) {
            target.div(envelope)
        } else {
            S::zero()
        };
        (ExpanderState { envelope }, x.mul(gain))
    }

    /// Computes `tick_spec`.
    #[verifier::when_used_as_spec(tick_spec)]
    pub fn tick(&self, st: ExpanderState<S>, x: S, coeffs: (S, S)) -> (r: (ExpanderState<S>, S))
        ensures
            S::obeys_sample_spec() ==> r == self.tick_spec(st, x, coeffs),
    {
        let envelope = follow(st.envelope, x.abs(), coeffs.0, coeffs.1);
        let target = if envelope.lt(self.threshold) {
            self.threshold.add(envelope.sub(self.threshold).mul(self.ratio))
        } else {
            envelope
        };
        let gain = if envelope.gt(S::zero()) {
            target.div(envelope)
        } else {
            S::zero()
        };
        (ExpanderState { envelope }, x.mul(gain))
    }

    /// The node as a recursion over the samples of a block: the state before
    /// sample `i` to the state after it and the sample put out.
    pub open spec fn stepper(
        &self,
        inputs: Seq<Seq<S>>,
        sample_rate: S,
    ) -> spec_fn(ExpanderState<S>, int) -> (ExpanderState<S>, S) {
        |st: ExpanderState<S>, i: int| self.tick(st, inputs[0][i], self.prepare(sample_rate))
    }

    /// The inputs that the node declares.
    pub fn input_ports(&self) -> (r: Vec<Port>)
        ensures
            r@ == audio_ports(1),
    {
        make_audio_ports(1)
    }

    /// The outputs that the node declares.
    pub fn output_ports(&self) -> (r: Vec<Port>)
        ensures
            r@ == audio_ports(1),
    {
        make_audio_ports(1)
    }

    /// The number of inputs that must be connected.
    pub fn required_inputs(&self) -> (r: usize)
        ensures
            r == 1,
    {
        1
    }

    /// The state before the first sample.
    pub open spec fn fresh() -> ExpanderState<S> {
        ExpanderState { envelope: S::zero() }
    }

    /// Makes the state for one instance of the node.
    pub fn init_state(&self, _sample_rate: S, _block_size: usize) -> (st: ExpanderState<S>)
        ensures
            S::obeys_sample_spec() ==> st == Self::fresh(),
    {
        ExpanderState { envelope: S::zero() }
    }

    /// Puts the state back to what `init_state` returns.
    pub fn reset(&self, state: &mut ExpanderState<S>)
        ensures
            S::obeys_sample_spec() ==> *final(state) == Self::fresh(),
    {
        *state = ExpanderState { envelope: S::zero() };
    }

    /// Processes one block: runs the recursion over the samples of the block and
    /// writes output 0. A call whose slices do not fit is refused and changes
    /// nothing. Nothing is allocated.
    pub fn process_block(
        &self,
        state: &mut ExpanderState<S>,
        inputs: &[&[S]],
        outputs: &mut [Vec<S>],
        sample_rate: S,
    ) -> (r: Result<(), ShapeError>)
        ensures
            r == shape_verdict(rows(inputs), cols(old(outputs)@), 1, 1, 1, 1),
            same_lens(final(outputs)@, old(outputs)@),
            same_from(final(outputs)@, old(outputs)@, 1),
            r.is_err() ==> *final(state) == *old(state) && final(outputs)@ == old(outputs)@,
            r.is_ok() && S::obeys_sample_spec() ==> renders(
                self.stepper(rows(inputs), sample_rate),
                *old(state),
                *final(state),
                final(outputs)@[0]@,
            ),
    {
        let n: usize = match check_block(inputs, outputs, 1, 1, 1, 1) {
            Ok(n) => n,
            Err(e) => {
                return Err(e);
            },
        };
        let ghost f = self.stepper(rows(inputs), sample_rate);
        let ghost st0 = *state;
        let prep = self.prepare(sample_rate);
        let mut i: usize = 0;
        while i < n
            invariant
                i <= n,
                inputs@.len() >= 1,
                outputs@.len() >= 1,
                outputs@[0]@.len() == n,
                forall|p: int| 0 <= p < 1 ==> (#[trigger] inputs@[p])@.len() == n,
                same_lens(outputs@, old(outputs)@),
                same_from(outputs@, old(outputs)@, 1),
                f == self.stepper(rows(inputs), sample_rate),
                S::obeys_sample_spec() ==> prep == self.prepare(sample_rate),
                S::obeys_sample_spec() ==> *state == state_after(f, st0, i as nat),
                S::obeys_sample_spec() ==> forall|j: int|
                    0 <= j < i ==> outputs@[0]@[j] == #[trigger] output_at(f, st0, j),
            decreases n - i,
        {
            let x = read_at(inputs, 0, i);
            let (next, y) = self.tick(*state, x, prep);
            *state = next;
            outputs[0][i] = y;
            i += 1;
        }
        Ok(())
    }
}

} // verus!
