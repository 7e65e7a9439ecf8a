//! Mixing, panning, smoothing and metering.

use crate::block::{
    audio_ports, check_block, cols, make_audio_ports, output_at, port_or, read_at, read_or, renders,
    rows, same_from, same_lens, shape_verdict, state_after, Port, ShapeError,
};
use crate::sample::Sample;
use vstd::prelude::*;

verus! {

/// State of a ring modulator: it has none.
#[derive(Debug, Clone, Copy)]
pub struct RingModState;

/// Ring modulator: the product of input 0 and input 1, mixed with input 0.
/// Input 1 must be connected but may be empty, which counts as a constant one.
/// Input 2 is added to the mix.
#[derive(Debug, Clone, Copy)]
pub struct RingMod<S> {
    pub mix: S,
}

impl<S: Sample> RingMod<S> {
    /// One sample: `x * (1 - mix) + x * modulator * mix`.
    pub open spec fn tick_spec(&self, x: S, modulator: S, mix_mod: S) -> S {
        let mix = self.mix.add(mix_mod);
        let ring = x.mul(modulator);
        x.mul(S::one().sub(mix)).add(ring.mul(mix))
    }

    /// Computes `tick_spec`.
    #[verifier::when_used_as_spec(tick_spec)]
    pub fn tick(&self, x: S, modulator: S, mix_mod: S) -> (r: S)
        ensures
            S::obeys_sample_spec() ==> r == self.tick_spec(x, modulator, mix_mod),
    {
        let mix = self.mix.add(mix_mod);
        let ring = x.mul(modulator);
        x.mul(S::one().sub(mix)).add(ring.mul(mix))
    }

    /// The node as a recursion over the samples of a block: the state before
    /// sample `i` to the state after it and the sample put out.
    pub open spec fn stepper(
        &self,
        inputs: Seq<Seq<S>>,
        sample_rate: S,
    ) -> spec_fn(RingModState, int) -> (RingModState, S) {
        |st: RingModState, i: int| (
            st,
            self.tick(
                inputs[0][i],
                port_or(inputs, 1, i, S::one()),
                port_or(inputs, 2, i, S::zero()),
            ),
        )
    }

    /// The inputs that the node declares.
    pub fn input_ports(&self) -> (r: Vec<Port>)
        ensures
            r@ == audio_ports(3),
    {
        make_audio_ports(3)
    }

    /// The outputs that the node declares.
    pub fn output_ports(&self) -> (r: Vec<Port>)
        ensures
            r@ == audio_ports(1),
    {
        make_audio_ports(1)
    }

    /// The number of inputs that must be connected.
    pub fn required_inputs(&self) -> (r: usize)
        ensures
            r == 2,
    {
        2
    }

    /// The state of the node, of which there is one value only.
    pub fn init_state(&self, _sample_rate: S, _block_size: usize) -> (st: RingModState) {
        RingModState
    }

    /// A node without memory has nothing to reset.
    pub fn reset(&self, state: &mut RingModState)
        ensures
            *final(state) == *old(state),
    {
    }

    /// Processes one block: runs the recursion over the samples of the block and
    /// writes output 0. A call whose slices do not fit is refused and changes
    /// nothing. Nothing is allocated.
    pub fn process_block(
        &self,
        state: &mut RingModState,
        inputs: &[&[S]],
        outputs: &mut [Vec<S>],
        sample_rate: S,
    ) -> (r: Result<(), ShapeError>)
        ensures
            r == shape_verdict(rows(inputs), cols(old(outputs)@), 2, 1, 3, 1),
            same_lens(final(outputs)@, old(outputs)@),
            same_from(final(outputs)@, old(outputs)@, 1),
            r.is_err() ==> *final(state) == *old(state) && final(outputs)@ == old(outputs)@,
            r.is_ok() && S::obeys_sample_spec() ==> renders(
                self.stepper(rows(inputs), sample_rate),
                *old(state),
                *final(state),
                final(outputs)@[0]@,
            ),
    {
        let n: usize = match check_block(inputs, outputs, 2, 1, 3, 1) {
            Ok(n) => n,
            Err(e) => {
                return Err(e);
            },
        };
        let ghost f = self.stepper(rows(inputs), sample_rate);
        let ghost st0 = *state;
        let one = S::one();
        let zero = S::zero();
        let mut i: usize = 0;
        while i < n
            invariant
                i <= n,
                inputs@.len() >= 2,
                outputs@.len() >= 1,
                outputs@[0]@.len() == n,
                forall|p: int| 0 <= p < 1 ==> (#[trigger] inputs@[p])@.len() == n,
                forall|p: int|
                    1 <= p < 3 && p < inputs@.len() ==> (#[trigger] inputs@[p])@.len() == 0
                        || inputs@[p]@.len() == n,
                same_lens(outputs@, old(outputs)@),
                same_from(outputs@, old(outputs)@, 1),
                f == self.stepper(rows(inputs), sample_rate),
                S::obeys_sample_spec() ==> one == S::one(),
                S::obeys_sample_spec() ==> zero == S::zero(),
                S::obeys_sample_spec() ==> *state == state_after(f, st0, i as nat),
                S::obeys_sample_spec() ==> forall|j: int|
                    0 <= j < i ==> outputs@[0]@[j] == #[trigger] output_at(f, st0, j),
            decreases n - i,
        {
            let x = read_at(inputs, 0, i);
            let modulator = read_or(inputs, 1, i, one);
            let mix_mod = read_or(inputs, 2, i, zero);
            let y = self.tick(x, modulator, mix_mod);
            outputs[0][i] = y;
            i += 1;
        }
        Ok(())
    }
}

/// State of a crossfader: it has none.
#[derive(Debug, Clone, Copy)]
pub struct CrossfaderState;

/// Equal-power crossfade between input 0 (position zero) and input 1 (position
/// one). Input 2 is added to the position.
#[derive(Debug, Clone, Copy)]
pub struct Crossfader<S> {
    pub position: S,
}

impl<S: Sample> Crossfader<S> {
    /// One sample: `a sqrt(1 - pos) + b sqrt(pos)`.
    pub open spec fn tick_spec(&self, a: S, b: S, position_mod: S) -> S {
        let pos = self.position.add(position_mod);
        let gain_a = S::one().sub(pos).sqrt();
        let gain_b = pos.sqrt();
        a.mul(gain_a).add(b.mul(gain_b))
    }

    /// Computes `tick_spec`.
    #[verifier::when_used_as_spec(tick_spec)]
    pub fn tick(&self, a: S, b: S, position_mod: S) -> (r: S)
        ensures
            S::obeys_sample_spec() ==> r == self.tick_spec(a, b, position_mod),
    {
        let pos = self.position.add(position_mod);
        let gain_a = S::one().sub(pos).sqrt();
        let gain_b = pos.sqrt();
        a.mul(gain_a).add(b.mul(gain_b))
    }

    /// The node as a recursion over the samples of a block: the state before
    /// sample `i` to the state after it and the sample put out.
    pub open spec fn stepper(
        &self,
        inputs: Seq<Seq<S>>,
        sample_rate: S,
    ) -> spec_fn(CrossfaderState, int) -> (CrossfaderState, S) {
        |st: CrossfaderState, i: int| (
            st,
            self.tick(inputs[0][i], inputs[1][i], port_or(inputs, 2, i, S::zero())),
        )
    }

    /// The inputs that the node declares.
    pub fn input_ports(&self) -> (r: Vec<Port>)
        ensures
            r@ == audio_ports(3),
    {
        make_audio_ports(3)
    }

    /// The outputs that the node declares.
    pub fn output_ports(&self) -> (r: Vec<Port>)
        ensures
            r@ == audio_ports(1),
    {
        make_audio_ports(1)
    }

    /// The number of inputs that must be connected.
    pub fn required_inputs(&self) -> (r: usize)
        ensures
            r == 2,
    {
        2
    }

    /// The state of the node, of which there is one value only.
    pub fn init_state(&self, _sample_rate: S, _block_size: usize) -> (st: CrossfaderState) {
        CrossfaderState
    }

    /// A node without memory has nothing to reset.
    pub fn reset(&self, state: &mut CrossfaderState)
        ensures
            *final(state) == *old(state),
    {
    }

    /// Processes one block: runs the recursion over the samples of the block and
    /// writes output 0. A call whose slices do not fit is refused and changes
    /// nothing. Nothing is allocated.
    pub fn process_block(
        &self,
        state: &mut CrossfaderState,
        inputs: &[&[S]],
        outputs: &mut [Vec<S>],
        sample_rate: S,
    ) -> (r: Result<(), ShapeError>)
        ensures
            r == shape_verdict(rows(inputs), cols(old(outputs)@), 2, 2, 3, 1),
            same_lens(final(outputs)@, old(outputs)@),
            same_from(final(outputs)@, old(outputs)@, 1),
            r.is_err() ==> *final(state) == *old(state) && final(outputs)@ == old(outputs)@,
            r.is_ok() && S::obeys_sample_spec() ==> renders(
                self.stepper(rows(inputs), sample_rate),
                *old(state),
                *final(state),
                final(outputs)@[0]@,
            ),
    {
        let n: usize = match check_block(inputs, outputs, 2, 2, 3, 1) {
            Ok(n) => n,
            Err(e) => {
                return Err(e);
            },
        };
        let ghost f = self.stepper(rows(inputs), sample_rate);
        let ghost st0 = *state;
        let zero = S::zero();
        let mut i: usize = 0;
        while i < n
            invariant
                i <= n,
                inputs@.len() >= 2,
                outputs@.len() >= 1,
                outputs@[0]@.len() == n,
                forall|p: int| 0 <= p < 2 ==> (#[trigger] inputs@[p])@.len() == n,
                forall|p: int|
                    2 <= p < 3 && p < inputs@.len() ==> (#[trigger] inputs@[p])@.len() == 0
                        || inputs@[p]@.len() == n,
                same_lens(outputs@, old(outputs)@),
                same_from(outputs@, old(outputs)@, 1),
                f == self.stepper(rows(inputs), sample_rate),
                S::obeys_sample_spec() ==> zero == S::zero(),
                S::obeys_sample_spec() ==> *state == state_after(f, st0, i as nat),
                S::obeys_sample_spec() ==> forall|j: int|
                    0 <= j < i ==> outputs@[0]@[j] == #[trigger] output_at(f, st0, j),
            decreases n - i,
        {
            let a = read_at(inputs, 0, i);
            let b = read_at(inputs, 1, i);
            let position_mod = read_or(inputs, 2, i, zero);
            let y = self.tick(a, b, position_mod);
            outputs[0][i] = y;
            i += 1;
        }
        Ok(())
    }
}

/// State of a stereo width control: it has none.
#[derive(Debug, Clone, Copy)]
pub struct StereoWidthState;

/// Stereo width: scales the difference of left (input 0) and right (input 1). A
/// width of zero gives mono. Input 2 is added to the width.
#[derive(Debug, Clone, Copy)]
pub struct StereoWidth<S> {
    pub width: S,
}

impl<S: Sample> StereoWidth<S> {
    /// One sample of left and right: `mid + side` and `mid - side`, where `mid` is
    /// half the sum and `side` half the difference times the width.
    pub open spec fn tick_spec(&self, left: S, right: S, width_mod: S) -> (S, S) {
        let width = self.width.add(width_mod);
        let mid = left.add(right).mul(S::ratio(5, 10));
        let side = left.sub(right).mul(S::ratio(5, 10)).mul(width);
        (mid.add(side), mid.sub(side))
    }

    /// Computes `tick_spec`.
    #[verifier::when_used_as_spec(tick_spec)]
    pub fn tick(&self, left: S, right: S, width_mod: S) -> (r: (S, S))
        ensures
            S::obeys_sample_spec() ==> r == self.tick_spec(left, right, width_mod),
    {
        let width = self.width.add(width_mod);
        let mid = left.add(right).mul(S::ratio(5, 10));
        let side = left.sub(right).mul(S::ratio(5, 10)).mul(width);
        (mid.add(side), mid.sub(side))
    }

    /// The inputs that the node declares.
    pub fn input_ports(&self) -> (r: Vec<Port>)
        ensures
            r@ == audio_ports(3),
    {
        make_audio_ports(3)
    }

    /// The outputs that the node declares.
    pub fn output_ports(&self) -> (r: Vec<Port>)
        ensures
            r@ == audio_ports(2),
    {
        make_audio_ports(2)
    }

    /// The number of inputs that must be connected.
    pub fn required_inputs(&self) -> (r: usize)
        ensures
            r == 2,
    {
        2
    }

    /// The state of the node, of which there is one value only.
    pub fn init_state(&self, _sample_rate: S, _block_size: usize) -> (st: StereoWidthState) {
        StereoWidthState
    }

    /// A node without memory has nothing to reset.
    pub fn reset(&self, state: &mut StereoWidthState)
        ensures
            *final(state) == *old(state),
    {
    }

    /// Processes one block and writes outputs 0 and 1. A call whose slices do not
    /// fit is refused and changes nothing. Nothing is allocated.
    pub fn process_block(
        &self,
        state: &mut StereoWidthState,
        inputs: &[&[S]],
        outputs: &mut [Vec<S>],
        sample_rate: S,
    ) -> (r: Result<(), ShapeError>)
        ensures
            r == shape_verdict(rows(inputs), cols(old(outputs)@), 2, 2, 3, 2),
            same_lens(final(outputs)@, old(outputs)@),
            same_from(final(outputs)@, old(outputs)@, 2),
            *final(state) == *old(state),
            r.is_err() ==> final(outputs)@ == old(outputs)@,
            r.is_ok() && S::obeys_sample_spec() ==> forall|i: int|
                0 <= i < final(outputs)@[0]@
                    .len() ==> (#[trigger] final(outputs)@[0]@[i], final(outputs)@[1]@[i])
                    == self
                        .tick(
                            rows(inputs)[0][i],
                            rows(inputs)[1][i],
                            port_or(rows(inputs), 2, i, S::zero()),
                        ),
    {
        let n: usize = match check_block(inputs, outputs, 2, 2, 3, 2) {
            Ok(n) => n,
            Err(e) => {
                return Err(e);
            },
        };
        let zero = S::zero();
        let mut i: usize = 0;
        while i < n
            invariant
                i <= n,
                inputs@.len() >= 2,
                outputs@.len() >= 2,
                outputs@[0]@.len() == n,
                outputs@[1]@.len() == n,
                forall|p: int| 0 <= p < 2 ==> (#[trigger] inputs@[p])@.len() == n,
                forall|p: int|
                    2 <= p < 3 && p < inputs@.len() ==> (#[trigger] inputs@[p])@.len() == 0
                        || inputs@[p]@.len() == n,
                same_lens(outputs@, old(outputs)@),
                same_from(outputs@, old(outputs)@, 2),
                S::obeys_sample_spec() ==> zero == S::zero(),
                S::obeys_sample_spec() ==> forall|j: int|
                    0 <= j < i ==> (#[trigger] outputs@[0]@[j], outputs@[1]@[j]) == self
                        .tick(
                            rows(inputs)[0][j],
                            rows(inputs)[1][j],
                            port_or(rows(inputs), 2, j, S::zero()),
                        ),
            decreases n - i,
        {
            let left = read_at(inputs, 0, i);
            let right = read_at(inputs, 1, i);
            let width_mod = read_or(inputs, 2, i, zero);
            let (y0, y1) = self.tick(left, right, width_mod);
            outputs[0][i] = y0;
            outputs[1][i] = y1;
            i += 1;
        }
        Ok(())
    }
}

/// State of a parameter smoother: the value it has reached.
#[derive(Debug, Clone, Copy)]
pub struct ParamSmootherState<S> {
    pub current: S,
}

/// Smooths a control signal with one pole. `smoothing` is the time constant in
/// milliseconds.
#[derive(Debug, Clone, Copy)]
pub struct ParamSmoother<S> {
    pub smoothing: S,
}

impl<S: Sample> ParamSmoother<S> {
    /// The part of the distance covered per sample: `1 - exp(-1 / (smoothing *
    /// sample_rate / 1000))`.
    pub open spec fn prepare_spec(&self, sample_rate: S) -> S {
        S::one()
            .sub(S::one().neg().div(self.smoothing.mul(sample_rate).div(S::ratio(1000, 1))).exp())
    }

    /// Computes `prepare_spec`.
    #[verifier::when_used_as_spec(prepare_spec)]
    pub fn prepare(&self, sample_rate: S) -> (r: S)
        ensures
            S::obeys_sample_spec() ==> r == self.prepare_spec(sample_rate),
    {
        S::one()
            .sub(S::one().neg().div(self.smoothing.mul(sample_rate).div(S::ratio(1000, 1))).exp())
    }

    /// One sample: the value moves towards the input by the part `coeff` of the
    /// distance.
    pub open spec fn tick_spec(
        &self,
        st: ParamSmootherState<S>,
        x: S,
        coeff: S,
    ) -> (ParamSmootherState<S>, S) {
        let current = st.current.add(x.sub(st.current).mul(coeff));
        (ParamSmootherState { current }, current)
    }

    /// Computes `tick_spec`.
    #[verifier::when_used_as_spec(tick_spec)]
    pub fn tick(&self, st: ParamSmootherState<S>, x: S, coeff: S) -> (r: (ParamSmootherState<S>, S))
        ensures
            S::obeys_sample_spec() ==> r == self.tick_spec(st, x, coeff),
    {
        let current = st.current.add(x.sub(st.current).mul(coeff));
        (ParamSmootherState { current }, current)
    }

    /// The node as a recursion over the samples of a block: the state before
    /// sample `i` to the state after it and the sample put out.
    pub open spec fn stepper(
        &self,
        inputs: Seq<Seq<S>>,
        sample_rate: S,
    ) -> spec_fn(ParamSmootherState<S>, int) -> (ParamSmootherState<S>, S) {
        |st: ParamSmootherState<S>, i: int| self.tick(st, inputs[0][i], self.prepare(sample_rate))
    }

    /// The inputs that the node declares.
    pub fn input_ports(&self) -> (r: Vec<Port>)
        ensures
            r@ == audio_ports(1),
    {
        make_audio_ports(1)
    }

    /// The outputs that the node declares.
    pub fn output_ports(&self) -> (r: Vec<Port>)
        ensures
            r@ == audio_ports(1),
    {
        make_audio_ports(1)
    }

    /// The number of inputs that must be connected.
    pub fn required_inputs(&self) -> (r: usize)
        ensures
            r == 1,
    {
        1
    }

    /// The state before the first sample.
    pub open spec fn fresh() -> ParamSmootherState<S> {
        ParamSmootherState { current: S::zero() }
    }

    /// Makes the state for one instance of the node.
    pub fn init_state(&self, _sample_rate: S, _block_size: usize) -> (st: ParamSmootherState<S>)
        ensures
            S::obeys_sample_spec() ==> st == Self::fresh(),
    {
        ParamSmootherState { current: S::zero() }
    }

    /// Puts the state back to what `init_state` returns.
    pub fn reset(&self, state: &mut ParamSmootherState<S>)
        ensures
            S::obeys_sample_spec() ==> *final(state) == Self::fresh(),
    {
        *state = ParamSmootherState { current: S::zero() };
    }

    /// Processes one block: runs the recursion over the samples of the block and
    /// writes output 0. A call whose slices do not fit is refused and changes
    /// nothing. Nothing is allocated.
    pub fn process_block(
        &self,
        state: &mut ParamSmootherState<S>,
        inputs: &[&[S]],
        outputs: &mut [Vec<S>],
        sample_rate: S,
    ) -> (r: Result<(), ShapeError>)
        ensures
            r == shape_verdict(rows(inputs), cols(old(outputs)@), 1, 1, 1, 1),
            same_lens(final(outputs)@, old(outputs)@),
            same_from(final(outputs)@, old(outputs)@, 1),
            r.is_err() ==> *final(state) == *old(state) && final(outputs)@ == old(outputs)@,
            r.is_ok() && S::obeys_sample_spec() ==> renders(
                self.stepper(rows(inputs), sample_rate),
                *old(state),
                *final(state),
                final(outputs)@[0]@,
            ),
    {
        let n: usize = match check_block(inputs, outputs, 1, 1, 1, 1) {
            Ok(n) => n,
            Err(e) => {
                return Err(e);
            },
        };
        let ghost f = self.stepper(rows(inputs), sample_rate);
        let ghost st0 = *state;
        let prep = self.prepare(sample_rate);
        let mut i: usize = 0;
        while i < n
            invariant
                i <= n,
                inputs@.len() >= 1,
                outputs@.len() >= 1,
                outputs@[0]@.len() == n,
                forall|p: int| 0 <= p < 1 ==> (#[trigger] inputs@[p])@.len() == n,
                same_lens(outputs@, old(outputs)@),
                same_from(outputs@, old(outputs)@, 1),
                f == self.stepper(rows(inputs), sample_rate),
                S::obeys_sample_spec() ==> prep == self.prepare(sample_rate),
                S::obeys_sample_spec() ==> *state == state_after(f, st0, i as nat),
                S::obeys_sample_spec() ==> forall|j: int|
                    0 <= j < i ==> outputs@[0]@[j] == #[trigger] output_at(f, st0, j),
            decreases n - i,
        {
            let x = read_at(inputs, 0, i);
            let (next, y) = self.tick(*state, x, prep);
            *state = next;
            outputs[0][i] = y;
            i += 1;
        }
        Ok(())
    }
}

/// State of a mid-side encoder: it has none.
#[derive(Debug, Clone, Copy)]
pub struct MidSideProcessorState;

/// Encodes left (input 0) and right (input 1) as mid (output 0) and side
/// (output 1).
#[derive(Debug, Clone, Copy)]
pub struct MidSideProcessor;

impl MidSideProcessor {
    /// One sample of mid and side: half the sum and half the difference.
    pub open spec fn tick_spec<S: Sample>(&self, left: S, right: S) -> (S, S) {
        (left.add(right).mul(S::ratio(5, 10)), left.sub(right).mul(S::ratio(5, 10)))
    }

    /// Computes `tick_spec`.
    #[verifier::when_used_as_spec(tick_spec)]
    pub fn tick<S: Sample>(&self, left: S, right: S) -> (r: (S, S))
        ensures
            S::obeys_sample_spec() ==> r == self.tick_spec::<S>(left, right),
    {
        (left.add(right).mul(S::ratio(5, 10)), left.sub(right).mul(S::ratio(5, 10)))
    }

    /// The inputs that the node declares.
    pub fn input_ports(&self) -> (r: Vec<Port>)
        ensures
            r@ == audio_ports(2),
    {
        make_audio_ports(2)
    }

    /// The outputs that the node declares.
    pub fn output_ports(&self) -> (r: Vec<Port>)
        ensures
            r@ == audio_ports(2),
    {
        make_audio_ports(2)
    }

    /// The number of inputs that must be connected.
    pub fn required_inputs(&self) -> (r: usize)
        ensures
            r == 2,
    {
        2
    }

    /// The state of the node, of which there is one value only.
    pub fn init_state<S: Sample>(
        &self,
        _sample_rate: S,
        _block_size: usize,
    ) -> (st: MidSideProcessorState) {
        MidSideProcessorState
    }

    /// A node without memory has nothing to reset.
    pub fn reset(&self, state: &mut MidSideProcessorState)
        ensures
            *final(state) == *old(state),
    {
    }

    /// Processes one block and writes outputs 0 and 1. A call whose slices do not
    /// fit is refused and changes nothing. Nothing is allocated.
    pub fn process_block<S: Sample>(
        &self,
        state: &mut MidSideProcessorState,
        inputs: &[&[S]],
        outputs: &mut [Vec<S>],
        sample_rate: S,
    ) -> (r: Result<(), ShapeError>)
        ensures
            r == shape_verdict(rows(inputs), cols(old(outputs)@), 2, 2, 2, 2),
            same_lens(final(outputs)@, old(outputs)@),
            same_from(final(outputs)@, old(outputs)@, 2),
            *final(state) == *old(state),
            r.is_err() ==> final(outputs)@ == old(outputs)@,
            r.is_ok() && S::obeys_sample_spec() ==> forall|i: int|
                0 <= i < final(outputs)@[0]@
                    .len() ==> (#[trigger] final(outputs)@[0]@[i], final(outputs)@[1]@[i])
                    == self.tick(rows(inputs)[0][i], rows(inputs)[1][i]),
    {
        let n: usize = match check_block(inputs, outputs, 2, 2, 2, 2) {
            Ok(n) => n,
            Err(e) => {
                return Err(e);
            },
        };
        let mut i: usize = 0;
        while i < n
            invariant
                i <= n,
                inputs@.len() >= 2,
                outputs@.len() >= 2,
                outputs@[0]@.len() == n,
                outputs@[1]@.len() == n,
                forall|p: int| 0 <= p < 2 ==> (#[trigger] inputs@[p])@.len() == n,
                same_lens(outputs@, old(outputs)@),
                same_from(outputs@, old(outputs)@, 2),
                S::obeys_sample_spec() ==> forall|j: int|
                    0 <= j < i ==> (#[trigger] outputs@[0]@[j], outputs@[1]@[j]) == self
                        .tick(rows(inputs)[0][j], rows(inputs)[1][j]),
            decreases n - i,
        {
            let left = read_at(inputs, 0, i);
            let right = read_at(inputs, 1, i);
            let (y0, y1) = self.tick(left, right);
            outputs[0][i] = y0;
            outputs[1][i] = y1;
            i += 1;
        }
        Ok(())
    }
}

/// State of a panner: it has none.
#[derive(Debug, Clone, Copy)]
pub struct StereoPannerState;

/// Equal-power panner of a mono input to left (output 0) and right (output 1).
/// The pan runs from minus one to one. Input 1 is added to the pan.
#[derive(Debug, Clone, Copy)]
pub struct StereoPanner<S> {
    pub pan: S,
}

impl<S: Sample> StereoPanner<S> {
    /// One sample of left and right: the input times `sqrt((pan + 1) / 2)` and
    /// times `sqrt((1 - pan) / 2)`, with the pan held in `[-1, 1]`.
    pub open spec fn tick_spec(&self, x: S, pan_mod: S) -> (S, S) {
        let pan = self.pan.add(pan_mod).clamp(S::one().neg(), S::one());
        let left_gain = pan.add(S::one()).mul(S::ratio(5, 10)).sqrt();
        let right_gain = S::one().sub(pan).mul(S::ratio(5, 10)).sqrt();
        (x.mul(left_gain), x.mul(right_gain))
    }

    /// Computes `tick_spec`.
    #[verifier::when_used_as_spec(tick_spec)]
    pub fn tick(&self, x: S, pan_mod: S) -> (r: (S, S))
        ensures
            S::obeys_sample_spec() ==> r == self.tick_spec(x, pan_mod),
    {
        let pan = self.pan.add(pan_mod).clamp(S::one().neg(), S::one());
        let left_gain = pan.add(S::one()).mul(S::ratio(5, 10)).sqrt();
        let right_gain = S::one().sub(pan).mul(S::ratio(5, 10)).sqrt();
        (x.mul(left_gain), x.mul(right_gain))
    }

    /// The inputs that the node declares.
    pub fn input_ports(&self) -> (r: Vec<Port>)
        ensures
            r@ == audio_ports(2),
    {
        make_audio_ports(2)
    }

    /// The outputs that the node declares.
    pub fn output_ports(&self) -> (r: Vec<Port>)
        ensures
            r@ == audio_ports(2),
    {
        make_audio_ports(2)
    }

    /// The number of inputs that must be connected.
    pub fn required_inputs(&self) -> (r: usize)
        ensures
            r == 1,
    {
        1
    }

    /// The state of the node, of which there is one value only.
    pub fn init_state(&self, _sample_rate: S, _block_size: usize) -> (st: StereoPannerState) {
        StereoPannerState
    }

    /// A node without memory has nothing to reset.
    pub fn reset(&self, state: &mut StereoPannerState)
        ensures
            *final(state) == *old(state),
    {
    }

    /// Processes one block and writes outputs 0 and 1. A call whose slices do not
    /// fit is refused and changes nothing. Nothing is allocated.
    pub fn process_block(
        &self,
        state: &mut StereoPannerState,
        inputs: &[&[S]],
        outputs: &mut [Vec<S>],
        sample_rate: S,
    ) -> (r: Result<(), ShapeError>)
        ensures
            r == shape_verdict(rows(inputs), cols(old(outputs)@), 1, 1, 2, 2),
            same_lens(final(outputs)@, old(outputs)@),
            same_from(final(outputs)@, old(outputs)@, 2),
            *final(state) == *old(state),
            r.is_err() ==> final(outputs)@ == old(outputs)@,
            r.is_ok() && S::obeys_sample_spec() ==> forall|i: int|
                0 <= i < final(outputs)@[0]@
                    .len() ==> (#[trigger] final(outputs)@[0]@[i], final(outputs)@[1]@[i])
                    == self.tick(rows(inputs)[0][i], port_or(rows(inputs), 1, i, S::zero())),
    {
        let n: usize = match check_block(inputs, outputs, 1, 1, 2, 2) {
            Ok(n) => n,
            Err(e) => {
                return Err(e);
            },
        };
        let zero = S::zero();
        let mut i: usize = 0;
        while i < n
            invariant
                i <= n,
                inputs@.len() >= 1,
                outputs@.len() >= 2,
                outputs@[0]@.len() == n,
                outputs@[1]@.len() == n,
                forall|p: int| 0 <= p < 1 ==> (#[trigger] inputs@[p])@.len() == n,
                forall|p: int|
                    1 <= p < 2 && p < inputs@.len() ==> (#[trigger] inputs@[p])@.len() == 0
                        || inputs@[p]@.len() == n,
                same_lens(outputs@, old(outputs)@),
                same_from(outputs@, old(outputs)@, 2),
                S::obeys_sample_spec() ==> zero == S::zero(),
                S::obeys_sample_spec() ==> forall|j: int|
                    0 <= j < i ==> (#[trigger] outputs@[0]@[j], outputs@[1]@[j]) == self
                        .tick(rows(inputs)[0][j], port_or(rows(inputs), 1, j, S::zero())),
            decreases n - i,
        {
            let x = read_at(inputs, 0, i);
            let pan_mod = read_or(inputs, 1, i, zero);
            let (y0, y1) = self.tick(x, pan_mod);
            outputs[0][i] = y0;
            outputs[1][i] = y1;
            i += 1;
        }
        Ok(())
    }
}

/// State of an RMS meter: the smoothed level.
#[derive(Debug, Clone, Copy)]
pub struct RMSMeterState<S> {
    pub rms: S,
}

/// RMS meter: puts out, for every sample of a block, the smoothed root mean
/// square of the blocks so far.
#[derive(Debug, Clone, Copy)]
pub struct RMSMeter {
    /// The number of blocks over which the level settles.
    pub window_size: usize,
}

/// The sum of the squares of the first `k` samples of `xs`, added up in order.
pub open spec fn sum_squares<S: Sample>(xs: Seq<S>, k: nat) -> S
    decreases k,
{
    if k == 0 {
        S::zero()
    } else {
        sum_squares(xs, (k - 1) as nat).add(xs[k - 1].mul(xs[k - 1]))
    }
}

impl RMSMeter {
    /// The level after a block `xs`, which is not empty, from the level `rms`
    /// before it: the root mean square of the block enters with the weight
    /// `1 / window_size`.
    pub open spec fn level_after<S: Sample>(&self, rms: S, xs: Seq<S>) -> S {
        let block_rms = sum_squares(xs, xs.len()).div(S::from_usize(xs.len() as usize)).sqrt();
        let alpha = S::one().div(S::from_usize(self.window_size));
        rms.mul(S::one().sub(alpha)).add(block_rms.mul(alpha))
    }

    pub fn input_ports(&self) -> (r: Vec<Port>)
        ensures
            r@ == audio_ports(1),
    {
        make_audio_ports(1)
    }

    pub fn output_ports(&self) -> (r: Vec<Port>)
        ensures
            r@ == audio_ports(1),
    {
        make_audio_ports(1)
    }

    pub fn required_inputs(&self) -> (r: usize)
        ensures
            r == 1,
    {
        1
    }

    /// The state before the first block.
    pub open spec fn fresh<S: Sample>() -> RMSMeterState<S> {
        RMSMeterState { rms: S::zero() }
    }

    pub fn init_state<S: Sample>(
        &self,
        _sample_rate: S,
        _block_size: usize,
    ) -> (st: RMSMeterState<S>)
        ensures
            S::obeys_sample_spec() ==> st == Self::fresh::<S>(),
    {
        RMSMeterState { rms: S::zero() }
    }

    /// Puts the state back to what `init_state` returns.
    pub fn reset<S: Sample>(&self, state: &mut RMSMeterState<S>)
        ensures
            S::obeys_sample_spec() ==> *final(state) == Self::fresh::<S>(),
    {
        *state = RMSMeterState { rms: S::zero() };
    }

    /// Measures one block. An empty block changes nothing: there is no mean of
    /// no samples.
    pub fn process_block<S: Sample>(
        &self,
        state: &mut RMSMeterState<S>,
        inputs: &[&[S]],
        outputs: &mut [Vec<S>],
        _sample_rate: S,
    ) -> (r: Result<(), ShapeError>)
        ensures
            r == shape_verdict(rows(inputs), cols(old(outputs)@), 1, 1, 1, 1),
            same_lens(final(outputs)@, old(outputs)@),
            same_from(final(outputs)@, old(outputs)@, 1),
            r.is_err() ==> *final(state) == *old(state) && final(outputs)@ == old(outputs)@,
            r.is_ok() && final(outputs)@[0]@.len() == 0 ==> *final(state) == *old(state),
            r.is_ok() && final(outputs)@[0]@.len() > 0 && S::obeys_sample_spec() ==> {
                &&& final(state).rms == self.level_after(old(state).rms, rows(inputs)[0])
                &&& forall|i: int| 0 <= i < final(outputs)@[0]@
                    .len() ==> #[trigger] final(outputs)@[0]@[i] == final(state).rms
            },
    {
        let n: usize = match check_block(inputs, outputs, 1, 1, 1, 1) {
            Ok(n) => n,
            Err(e) => {
                return Err(e);
            },
        };
        if n == 0 {
            return Ok(());
        }
        let ghost xs = rows(inputs)[0];
        let mut sum = S::zero();
        let mut k: usize = 0;
        while k < n
            invariant
                k <= n,
                inputs@.len() >= 1,
                inputs@[0]@.len() == n,
                xs == rows(inputs)[0],
                S::obeys_sample_spec() ==> sum == sum_squares(xs, k as nat),
            decreases n - k,
        {
            let x = read_at(inputs, 0, k);
            sum = sum.add(x.mul(x));
            k += 1;
        }
        let block_rms = sum.div(S::from_usize(n)).sqrt();
        let alpha = S::one().div(S::from_usize(self.window_size));
        let rms = state.rms.mul(S::one().sub(alpha)).add(block_rms.mul(alpha));
        state.rms = rms;
        let mut i: usize = 0;
        while i < n
            invariant
                i <= n,
                outputs@.len() >= 1,
                outputs@[0]@.len() == n,
                same_lens(outputs@, old(outputs)@),
                same_from(outputs@, old(outputs)@, 1),
                state.rms == rms,
                forall|j: int| 0 <= j < i ==> outputs@[0]@[j] == rms,
            decreases n - i,
        {
            outputs[0][i] = rms;
            i += 1;
        }
        Ok(())
    }
}

} // verus!
