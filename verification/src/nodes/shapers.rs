//! Waveshapers.

use crate::block::{
    audio_ports, check_block, cols, make_audio_ports, output_at, port_or, read_at, read_or, renders,
    rows, same_from, same_lens, shape_verdict, state_after, Port, ShapeError,
};
use crate::helpers::blend;
use crate::sample::Sample;
use vstd::prelude::*;

verus! {

/// State of `WaveShaper`: it has none.
#[derive(Debug, Clone, Copy)]
pub struct WaveShaperState;

/// Soft clipper on a hyperbolic tangent. Input 1 is added to the drive and
/// input 2 to the mix.
#[derive(Debug, Clone, Copy)]
pub struct WaveShaper<S> {
    pub drive: S,
    pub mix: S,
}

impl<S: Sample> WaveShaper<S> {
    /// One sample: `tanh(x * drive)`, mixed with the input.
    pub open spec fn tick_spec(&self, x: S, drive_mod: S, mix_mod: S) -> S {
        let drive = self.drive.add(drive_mod);
        let mix = self.mix.add(mix_mod);
        blend(x, x.mul(drive).tanh(), mix)
    }

    /// Computes `tick_spec`.
    #[verifier::when_used_as_spec(tick_spec)]
    pub fn tick(&self, x: S, drive_mod: S, mix_mod: S) -> (r: S)
        ensures
            S::obeys_sample_spec() ==> r == self.tick_spec(x, drive_mod, mix_mod),
    {
        let drive = self.drive.add(drive_mod);
        let mix = self.mix.add(mix_mod);
        blend(x, x.mul(drive).tanh(), mix)
    }

    /// The node as a recursion over the samples of a block: the state before
    /// sample `i` to the state after it and the sample put out.
    pub open spec fn stepper(
        &self,
        inputs: Seq<Seq<S>>,
        sample_rate: S,
    ) -> spec_fn(WaveShaperState, int) -> (WaveShaperState, S) {
        |st: WaveShaperState, i: int| (
            st,
            self.tick(
                inputs[0][i],
                port_or(inputs, 1, i, S::zero()),
                port_or(inputs, 2, i, S::zero()),
            ),
        )
    }

    /// The inputs that the node declares.
    pub fn input_ports(&self) -> (r: Vec<Port>)
        ensures
            r@ == audio_ports(3),
    {
        make_audio_ports(3)
    }

    /// The outputs that the node declares.
    pub fn output_ports(&self) -> (r: Vec<Port>)
        ensures
            r@ == audio_ports(1),
    {
        make_audio_ports(1)
    }

    /// The number of inputs that must be connected.
    pub fn required_inputs(&self) -> (r: usize)
        ensures
            r == 1,
    {
        1
    }

    /// The state of the node, of which there is one value only.
    pub fn init_state(&self, _sample_rate: S, _block_size: usize) -> (st: WaveShaperState) {
        WaveShaperState
    }

    /// A node without memory has nothing to reset.
    pub fn reset(&self, state: &mut WaveShaperState)
        ensures
            *final(state) == *old(state),
    {
    }

    /// Processes one block: runs the recursion over the samples of the block and
    /// writes output 0. A call whose slices do not fit is refused and changes
    /// nothing. Nothing is allocated.
    pub fn process_block(
        &self,
        state: &mut WaveShaperState,
        inputs: &[&[S]],
        outputs: &mut [Vec<S>],
        sample_rate: S,
    ) -> (r: Result<(), ShapeError>)
        ensures
            r == shape_verdict(rows(inputs), cols(old(outputs)@), 1, 1, 3, 1),
            same_lens(final(outputs)@, old(outputs)@),
            same_from(final(outputs)@, old(outputs)@, 1),
            r.is_err() ==> *final(state) == *old(state) && final(outputs)@ == old(outputs)@,
            r.is_ok() && S::obeys_sample_spec() ==> renders(
                self.stepper(rows(inputs), sample_rate),
                *old(state),
                *final(state),
                final(outputs)@[0]@,
            ),
    {
        let n: usize = match check_block(inputs, outputs, 1, 1, 3, 1) {
            Ok(n) => n,
            Err(e) => {
                return Err(e);
            },
        };
        let ghost f = self.stepper(rows(inputs), sample_rate);
        let ghost st0 = *state;
        let zero = S::zero();
        let mut i: usize = 0;
        while i < n
            invariant
                i <= n,
                inputs@.len() >= 1,
                outputs@.len() >= 1,
                outputs@[0]@.len() == n,
                forall|p: int| 0 <= p < 1 ==> (#[trigger] inputs@[p])@.len() == n,
                forall|p: int|
                    1 <= p < 3 && p < inputs@.len() ==> (#[trigger] inputs@[p])@.len() == 0
                        || inputs@[p]@.len() == n,
                same_lens(outputs@, old(outputs)@),
                same_from(outputs@, old(outputs)@, 1),
                f == self.stepper(rows(inputs), sample_rate),
                S::obeys_sample_spec() ==> zero == S::zero(),
                S::obeys_sample_spec() ==> *state == state_after(f, st0, i as nat),
                S::obeys_sample_spec() ==> forall|j: int|
                    0 <= j < i ==> outputs@[0]@[j] == #[trigger] output_at(f, st0, j),
            decreases n - i,
        {
            let x = read_at(inputs, 0, i);
            let drive_mod = read_or(inputs, 1, i, zero);
            let mix_mod = read_or(inputs, 2, i, zero);
            let y = self.tick(x, drive_mod, mix_mod);
            outputs[0][i] = y;
            i += 1;
        }
        Ok(())
    }
}

/// State of `HardClip`: it has none.
#[derive(Debug, Clone, Copy)]
pub struct HardClipState;

/// Hard clipper. Input 1 is added to the threshold and input 2 to the mix.
#[derive(Debug, Clone, Copy)]
pub struct HardClip<S> {
    pub threshold: S,
    pub mix: S,
}

impl<S: Sample> HardClip<S> {
    /// One sample: the input held between minus the threshold and the threshold,
    /// mixed with the input.
    pub open spec fn tick_spec(&self, x: S, threshold_mod: S, mix_mod: S) -> S {
        let threshold = self.threshold.add(threshold_mod);
        let mix = self.mix.add(mix_mod);
        blend(x, x.clamp(threshold.neg(), threshold), mix)
    }

    /// Computes `tick_spec`.
    #[verifier::when_used_as_spec(tick_spec)]
    pub fn tick(&self, x: S, threshold_mod: S, mix_mod: S) -> (r: S)
        ensures
            S::obeys_sample_spec() ==> r == self.tick_spec(x, threshold_mod, mix_mod),
    {
        let threshold = self.threshold.add(threshold_mod);
        let mix = self.mix.add(mix_mod);
        blend(x, x.clamp(threshold.neg(), threshold), mix)
    }

    /// The node as a recursion over the samples of a block: the state before
    /// sample `i` to the state after it and the sample put out.
    pub open spec fn stepper(
        &self,
        inputs: Seq<Seq<S>>,
        sample_rate: S,
    ) -> spec_fn(HardClipState, int) -> (HardClipState, S) {
        |st: HardClipState, i: int| (
            st,
            self.tick(
                inputs[0][i],
                port_or(inputs, 1, i, S::zero()),
                port_or(inputs, 2, i, S::zero()),
            ),
        )
    }

    /// The inputs that the node declares.
    pub fn input_ports(&self) -> (r: Vec<Port>)
        ensures
            r@ == audio_ports(3),
    {
        make_audio_ports(3)
    }

    /// The outputs that the node declares.
    pub fn output_ports(&self) -> (r: Vec<Port>)
        ensures
            r@ == audio_ports(1),
    {
        make_audio_ports(1)
    }

    /// The number of inputs that must be connected.
    pub fn required_inputs(&self) -> (r: usize)
        ensures
            r == 1,
    {
        1
    }

    /// The state of the node, of which there is one value only.
    pub fn init_state(&self, _sample_rate: S, _block_size: usize) -> (st: HardClipState) {
        HardClipState
    }

    /// A node without memory has nothing to reset.
    pub fn reset(&self, state: &mut HardClipState)
        ensures
            *final(state) == *old(state),
    {
    }

    /// Processes one block: runs the recursion over the samples of the block and
    /// writes output 0. A call whose slices do not fit is refused and changes
    /// nothing. Nothing is allocated.
    pub fn process_block(
        &self,
        state: &mut HardClipState,
        inputs: &[&[S]],
        outputs: &mut [Vec<S>],
        sample_rate: S,
    ) -> (r: Result<(), ShapeError>)
        ensures
            r == shape_verdict(rows(inputs), cols(old(outputs)@), 1, 1, 3, 1),
            same_lens(final(outputs)@, old(outputs)@),
            same_from(final(outputs)@, old(outputs)@, 1),
            r.is_err() ==> *final(state) == *old(state) && final(outputs)@ == old(outputs)@,
            r.is_ok() && S::obeys_sample_spec() ==> renders(
                self.stepper(rows(inputs), sample_rate),
                *old(state),
                *final(state),
                final(outputs)@[0]@,
            ),
    {
        let n: usize = match check_block(inputs, outputs, 1, 1, 3, 1) {
            Ok(n) => n,
            Err(e) => {
                return Err(e);
            },
        };
        let ghost f = self.stepper(rows(inputs), sample_rate);
        let ghost st0 = *state;
        let zero = S::zero();
        let mut i: usize = 0;
        while i < n
            invariant
                i <= n,
                inputs@.len() >= 1,
                outputs@.len() >= 1,
                outputs@[0]@.len() == n,
                forall|p: int| 0 <= p < 1 ==> (#[trigger] inputs@[p])@.len() == n,
                forall|p: int|
                    1 <= p < 3 && p < inputs@.len() ==> (#[trigger] inputs@[p])@.len() == 0
                        || inputs@[p]@.len() == n,
                same_lens(outputs@, old(outputs)@),
                same_from(outputs@, old(outputs)@, 1),
                f == self.stepper(rows(inputs), sample_rate),
                S::obeys_sample_spec() ==> zero == S::zero(),
                S::obeys_sample_spec() ==> *state == state_after(f, st0, i as nat),
                S::obeys_sample_spec() ==> forall|j: int|
                    0 <= j < i ==> outputs@[0]@[j] == #[trigger] output_at(f, st0, j),
            decreases n - i,
        {
            let x = read_at(inputs, 0, i);
            let threshold_mod = read_or(inputs, 1, i, zero);
            let mix_mod = read_or(inputs, 2, i, zero);
            let y = self.tick(x, threshold_mod, mix_mod);
            outputs[0][i] = y;
            i += 1;
        }
        Ok(())
    }
}

/// State of `BitCrusher`: it has none.
#[derive(Debug, Clone, Copy)]
pub struct BitCrusherState;

/// Reduces the resolution of the input to a number of bits. Input 1 is added to
/// the bits and input 2 to the mix.
#[derive(Debug, Clone, Copy)]
pub struct BitCrusher<S> {
    pub bits: S,
    pub mix: S,
}

impl<S: Sample> BitCrusher<S> {
    /// One sample: the input rounded to a multiple of `2^-bits`, mixed with the
    /// input.
    pub open spec fn tick_spec(&self, x: S, bits_mod: S, mix_mod: S) -> S {
        let bits = self.bits.add(bits_mod);
        let mix = self.mix.add(mix_mod);
        let steps = S::ratio(2, 1).powf(bits);
        blend(x, x.mul(steps).round().div(steps), mix)
    }

    /// Computes `tick_spec`.
    #[verifier::when_used_as_spec(tick_spec)]
    pub fn tick(&self, x: S, bits_mod: S, mix_mod: S) -> (r: S)
        ensures
            S::obeys_sample_spec() ==> r == self.tick_spec(x, bits_mod, mix_mod),
    {
        let bits = self.bits.add(bits_mod);
        let mix = self.mix.add(mix_mod);
        let steps = S::ratio(2, 1).powf(bits);
        blend(x, x.mul(steps).round().div(steps), mix)
    }

    /// The node as a recursion over the samples of a block: the state before
    /// sample `i` to the state after it and the sample put out.
    pub open spec fn stepper(
        &self,
        inputs: Seq<Seq<S>>,
        sample_rate: S,
    ) -> spec_fn(BitCrusherState, int) -> (BitCrusherState, S) {
        |st: BitCrusherState, i: int| (
            st,
            self.tick(
                inputs[0][i],
                port_or(inputs, 1, i, S::zero()),
                port_or(inputs, 2, i, S::zero()),
            ),
        )
    }

    /// The inputs that the node declares.
    pub fn input_ports(&self) -> (r: Vec<Port>)
        ensures
            r@ == audio_ports(3),
    {
        make_audio_ports(3)
    }

    /// The outputs that the node declares.
    pub fn output_ports(&self) -> (r: Vec<Port>)
        ensures
            r@ == audio_ports(1),
    {
        make_audio_ports(1)
    }

    /// The number of inputs that must be connected.
    pub fn required_inputs(&self) -> (r: usize)
        ensures
            r == 1,
    {
        1
    }

    /// The state of the node, of which there is one value only.
    pub fn init_state(&self, _sample_rate: S, _block_size: usize) -> (st: BitCrusherState) {
        BitCrusherState
    }

    /// A node without memory has nothing to reset.
    pub fn reset(&self, state: &mut BitCrusherState)
        ensures
            *final(state) == *old(state),
    {
    }

    /// Processes one block: runs the recursion over the samples of the block and
    /// writes output 0. A call whose slices do not fit is refused and changes
    /// nothing. Nothing is allocated.
    pub fn process_block(
        &self,
        state: &mut BitCrusherState,
        inputs: &[&[S]],
        outputs: &mut [Vec<S>],
        sample_rate: S,
    ) -> (r: Result<(), ShapeError>)
        ensures
            r == shape_verdict(rows(inputs), cols(old(outputs)@), 1, 1, 3, 1),
            same_lens(final(outputs)@, old(outputs)@),
            same_from(final(outputs)@, old(outputs)@, 1),
            r.is_err() ==> *final(state) == *old(state) && final(outputs)@ == old(outputs)@,
            r.is_ok() && S::obeys_sample_spec() ==> renders(
                self.stepper(rows(inputs), sample_rate),
                *old(state),
                *final(state),
                final(outputs)@[0]@,
            ),
    {
        let n: usize = match check_block(inputs, outputs, 1, 1, 3, 1) {
            Ok(n) => n,
            Err(e) => {
                return Err(e);
            },
        };
        let ghost f = self.stepper(rows(inputs), sample_rate);
        let ghost st0 = *state;
        let zero = S::zero();
        let mut i: usize = 0;
        while i < n
            invariant
                i <= n,
                inputs@.len() >= 1,
                outputs@.len() >= 1,
                outputs@[0]@.len() == n,
                forall|p: int| 0 <= p < 1 ==> (#[trigger] inputs@[p])@.len() == n,
                forall|p: int|
                    1 <= p < 3 && p < inputs@.len() ==> (#[trigger] inputs@[p])@.len() == 0
                        || inputs@[p]@.len() == n,
                same_lens(outputs@, old(outputs)@),
                same_from(outputs@, old(outputs)@, 1),
                f == self.stepper(rows(inputs), sample_rate),
                S::obeys_sample_spec() ==> zero == S::zero(),
                S::obeys_sample_spec() ==> *state == state_after(f, st0, i as nat),
                S::obeys_sample_spec() ==> forall|j: int|
                    0 <= j < i ==> outputs@[0]@[j] == #[trigger] output_at(f, st0, j),
            decreases n - i,
        {
            let x = read_at(inputs, 0, i);
            let bits_mod = read_or(inputs, 1, i, zero);
            let mix_mod = read_or(inputs, 2, i, zero);
            let y = self.tick(x, bits_mod, mix_mod);
            outputs[0][i] = y;
            i += 1;
        }
        Ok(())
    }
}

/// State of `SoftClip`: it has none.
#[derive(Debug, Clone, Copy)]
pub struct SoftClipState;

/// Cubic soft clipper. Input 1 is added to the drive and input 2 to the mix.
#[derive(Debug, Clone, Copy)]
pub struct SoftClip<S> {
    pub drive: S,
    pub mix: S,
}

impl<S: Sample> SoftClip<S> {
    /// One sample: `v - v^3 / 3` for a driven input `v` of magnitude below one
    /// third, else two thirds with the sign of `v`; mixed with the input.
    pub open spec fn tick_spec(&self, x: S, drive_mod: S, mix_mod: S) -> S {
        let drive = self.drive.add(drive_mod);
        let mix = self.mix.add(mix_mod);
        let v = x.mul(drive);
        let shaped = if v.abs().lt(S::one().div(S::ratio(3, 1))) {
            v.sub(S::one().div(S::ratio(3, 1)).mul(v).mul(v).mul(v))
        } else {
            v.signum().mul(S::ratio(2, 1).div(S::ratio(3, 1)))
        };
        blend(x, shaped, mix)
    }

    /// Computes `tick_spec`.
    #[verifier::when_used_as_spec(tick_spec)]
    pub fn tick(&self, x: S, drive_mod: S, mix_mod: S) -> (r: S)
        ensures
            S::obeys_sample_spec() ==> r == self.tick_spec(x, drive_mod, mix_mod),
    {
        let drive = self.drive.add(drive_mod);
        let mix = self.mix.add(mix_mod);
        let v = x.mul(drive);
        let shaped = if v.abs().lt(S::one().div(S::ratio(3, 1))) {
            v.sub(S::one().div(S::ratio(3, 1)).mul(v).mul(v).mul(v))
        } else {
            v.signum().mul(S::ratio(2, 1).div(S::ratio(3, 1)))
        };
        blend(x, shaped, mix)
    }

    /// The node as a recursion over the samples of a block: the state before
    /// sample `i` to the state after it and the sample put out.
    pub open spec fn stepper(
        &self,
        inputs: Seq<Seq<S>>,
        sample_rate: S,
    ) -> spec_fn(SoftClipState, int) -> (SoftClipState, S) {
        |st: SoftClipState, i: int| (
            st,
            self.tick(
                inputs[0][i],
                port_or(inputs, 1, i, S::zero()),
                port_or(inputs, 2, i, S::zero()),
            ),
        )
    }

    /// The inputs that the node declares.
    pub fn input_ports(&self) -> (r: Vec<Port>)
        ensures
            r@ == audio_ports(3),
    {
        make_audio_ports(3)
    }

    /// The outputs that the node declares.
    pub fn output_ports(&self) -> (r: Vec<Port>)
        ensures
            r@ == audio_ports(1),
    {
        make_audio_ports(1)
    }

    /// The number of inputs that must be connected.
    pub fn required_inputs(&self) -> (r: usize)
        ensures
            r == 1,
    {
        1
    }

    /// The state of the node, of which there is one value only.
    pub fn init_state(&self, _sample_rate: S, _block_size: usize) -> (st: SoftClipState) {
        SoftClipState
    }

    /// A node without memory has nothing to reset.
    pub fn reset(&self, state: &mut SoftClipState)
        ensures
            *final(state) == *old(state),
    {
    }

    /// Processes one block: runs the recursion over the samples of the block and
    /// writes output 0. A call whose slices do not fit is refused and changes
    /// nothing. Nothing is allocated.
    pub fn process_block(
        &self,
        state: &mut SoftClipState,
        inputs: &[&[S]],
        outputs: &mut [Vec<S>],
        sample_rate: S,
    ) -> (r: Result<(), ShapeError>)
        ensures
            r == shape_verdict(rows(inputs), cols(old(outputs)@), 1, 1, 3, 1),
            same_lens(final(outputs)@, old(outputs)@),
            same_from(final(outputs)@, old(outputs)@, 1),
            r.is_err() ==> *final(state) == *old(state) && final(outputs)@ == old(outputs)@,
            r.is_ok() && S::obeys_sample_spec() ==> renders(
                self.stepper(rows(inputs), sample_rate),
                *old(state),
                *final(state),
                final(outputs)@[0]@,
            ),
    {
        let n: usize = match check_block(inputs, outputs, 1, 1, 3, 1) {
            Ok(n) => n,
            Err(e) => {
                return Err(e);
            },
        };
        let ghost f = self.stepper(rows(inputs), sample_rate);
        let ghost st0 = *state;
        let zero = S::zero();
        let mut i: usize = 0;
        while i < n
            invariant
                i <= n,
                inputs@.len() >= 1,
                outputs@.len() >= 1,
                outputs@[0]@.len() == n,
                forall|p: int| 0 <= p < 1 ==> (#[trigger] inputs@[p])@.len() == n,
                forall|p: int|
                    1 <= p < 3 && p < inputs@.len() ==> (#[trigger] inputs@[p])@.len() == 0
                        || inputs@[p]@.len() == n,
                same_lens(outputs@, old(outputs)@),
                same_from(outputs@, old(outputs)@, 1),
                f == self.stepper(rows(inputs), sample_rate),
                S::obeys_sample_spec() ==> zero == S::zero(),
                S::obeys_sample_spec() ==> *state == state_after(f, st0, i as nat),
                S::obeys_sample_spec() ==> forall|j: int|
                    0 <= j < i ==> outputs@[0]@[j] == #[trigger] output_at(f, st0, j),
            decreases n - i,
        {
            let x = read_at(inputs, 0, i);
            let drive_mod = read_or(inputs, 1, i, zero);
            let mix_mod = read_or(inputs, 2, i, zero);
            let y = self.tick(x, drive_mod, mix_mod);
            outputs[0][i] = y;
            i += 1;
        }
        Ok(())
    }
}

/// State of `TubeSaturation`: it has none.
#[derive(Debug, Clone, Copy)]
pub struct TubeSaturationState;

/// Asymmetric saturation. Input 1 is added to the drive, input 2 to the
/// asymmetry and input 3 to the mix.
#[derive(Debug, Clone, Copy)]
pub struct TubeSaturation<S> {
    pub drive: S,
    pub asymmetry: S,
    pub mix: S,
}

impl<S: Sample> TubeSaturation<S> {
    /// One sample: a hyperbolic tangent whose slope is `1 + asymmetry` above zero
    /// and `1 - asymmetry` elsewhere; mixed with the input.
    pub open spec fn tick_spec(&self, x: S, drive_mod: S, asymmetry_mod: S, mix_mod: S) -> S {
        let drive = self.drive.add(drive_mod);
        let asymmetry = self.asymmetry.add(asymmetry_mod);
        let mix = self.mix.add(mix_mod);
        let v = x.mul(drive);
        let shaped = if v.gt(S::zero()) {
            v.mul(S::one().add(asymmetry)).tanh()
        } else {
            v.mul(S::one().sub(asymmetry)).tanh()
        };
        blend(x, shaped, mix)
    }

    /// Computes `tick_spec`.
    #[verifier::when_used_as_spec(tick_spec)]
    pub fn tick(&self, x: S, drive_mod: S, asymmetry_mod: S, mix_mod: S) -> (r: S)
        ensures
            S::obeys_sample_spec() ==> r == self.tick_spec(x, drive_mod, asymmetry_mod, mix_mod),
    {
        let drive = self.drive.add(drive_mod);
        let asymmetry = self.asymmetry.add(asymmetry_mod);
        let mix = self.mix.add(mix_mod);
        let v = x.mul(drive);
        let shaped = if v.gt(S::zero()) {
            v.mul(S::one().add(asymmetry)).tanh()
        } else {
            v.mul(S::one().sub(asymmetry)).tanh()
        };
        blend(x, shaped, mix)
    }

    /// The node as a recursion over the samples of a block: the state before
    /// sample `i` to the state after it and the sample put out.
    pub open spec fn stepper(
        &self,
        inputs: Seq<Seq<S>>,
        sample_rate: S,
    ) -> spec_fn(TubeSaturationState, int) -> (TubeSaturationState, S) {
        |st: TubeSaturationState, i: int| (
            st,
            self.tick(
                inputs[0][i],
                port_or(inputs, 1, i, S::zero()),
                port_or(inputs, 2, i, S::zero()),
                port_or(inputs, 3, i, S::zero()),
            ),
        )
    }

    /// The inputs that the node declares.
    pub fn input_ports(&self) -> (r: Vec<Port>)
        ensures
            r@ == audio_ports(4),
    {
        make_audio_ports(4)
    }

    /// The outputs that the node declares.
    pub fn output_ports(&self) -> (r: Vec<Port>)
        ensures
            r@ == audio_ports(1),
    {
        make_audio_ports(1)
    }

    /// The number of inputs that must be connected.
    pub fn required_inputs(&self) -> (r: usize)
        ensures
            r == 1,
    {
        1
    }

    /// The state of the node, of which there is one value only.
    pub fn init_state(&self, _sample_rate: S, _block_size: usize) -> (st: TubeSaturationState) {
        TubeSaturationState
    }

    /// A node without memory has nothing to reset.
    pub fn reset(&self, state: &mut TubeSaturationState)
        ensures
            *final(state) == *old(state),
    {
    }

    /// Processes one block: runs the recursion over the samples of the block and
    /// writes output 0. A call whose slices do not fit is refused and changes
    /// nothing. Nothing is allocated.
    pub fn process_block(
        &self,
        state: &mut TubeSaturationState,
        inputs: &[&[S]],
        outputs: &mut [Vec<S>],
        sample_rate: S,
    ) -> (r: Result<(), ShapeError>)
        ensures
            r == shape_verdict(rows(inputs), cols(old(outputs)@), 1, 1, 4, 1),
            same_lens(final(outputs)@, old(outputs)@),
            same_from(final(outputs)@, old(outputs)@, 1),
            r.is_err() ==> *final(state) == *old(state) && final(outputs)@ == old(outputs)@,
            r.is_ok() && S::obeys_sample_spec() ==> renders(
                self.stepper(rows(inputs), sample_rate),
                *old(state),
                *final(state),
                final(outputs)@[0]@,
            ),
    {
        let n: usize = match check_block(inputs, outputs, 1, 1, 4, 1) {
            Ok(n) => n,
            Err(e) => {
                return Err(e);
            },
        };
        let ghost f = self.stepper(rows(inputs), sample_rate);
        let ghost st0 = *state;
        let zero = S::zero();
        let mut i: usize = 0;
        while i < n
            invariant
                i <= n,
                inputs@.len() >= 1,
                outputs@.len() >= 1,
                outputs@[0]@.len() == n,
                forall|p: int| 0 <= p < 1 ==> (#[trigger] inputs@[p])@.len() == n,
                forall|p: int|
                    1 <= p < 4 && p < inputs@.len() ==> (#[trigger] inputs@[p])@.len() == 0
                        || inputs@[p]@.len() == n,
                same_lens(outputs@, old(outputs)@),
                same_from(outputs@, old(outputs)@, 1),
                f == self.stepper(rows(inputs), sample_rate),
                S::obeys_sample_spec() ==> zero == S::zero(),
                S::obeys_sample_spec() ==> *state == state_after(f, st0, i as nat),
                S::obeys_sample_spec() ==> forall|j: int|
                    0 <= j < i ==> outputs@[0]@[j] == #[trigger] output_at(f, st0, j),
            decreases n - i,
        {
            let x = read_at(inputs, 0, i);
            let drive_mod = read_or(inputs, 1, i, zero);
            let asymmetry_mod = read_or(inputs, 2, i, zero);
            let mix_mod = read_or(inputs, 3, i, zero);
            let y = self.tick(x, drive_mod, asymmetry_mod, mix_mod);
            outputs[0][i] = y;
            i += 1;
        }
        Ok(())
    }
}

/// State of a DC blocker: its last input and output.
#[derive(Debug, Clone, Copy)]
pub struct DcBlockerState<S> {
    pub x1: S,
    pub y1: S,
}

/// Removes a constant offset from the input: a one-pole high-pass with its pole
/// at 0.995.
#[derive(Debug, Clone, Copy)]
pub struct DcBlocker<S> {
    pub cutoff: S,
}

impl<S: Sample> DcBlocker<S> {
    /// One sample: `y[n] = x[n] - x[n-1] + 0.995 y[n-1]`.
    pub open spec fn tick_spec(&self, st: DcBlockerState<S>, x: S) -> (DcBlockerState<S>, S) {
        let y = x.sub(st.x1).add(S::ratio(995, 1000).mul(st.y1));
        (DcBlockerState { x1: x, y1: y }, y)
    }

    /// Computes `tick_spec`.
    #[verifier::when_used_as_spec(tick_spec)]
    pub fn tick(&self, st: DcBlockerState<S>, x: S) -> (r: (DcBlockerState<S>, S))
        ensures
            S::obeys_sample_spec() ==> r == self.tick_spec(st, x),
    {
        let y = x.sub(st.x1).add(S::ratio(995, 1000).mul(st.y1));
        (DcBlockerState { x1: x, y1: y }, y)
    }

    /// The node as a recursion over the samples of a block: the state before
    /// sample `i` to the state after it and the sample put out.
    pub open spec fn stepper(
        &self,
        inputs: Seq<Seq<S>>,
        sample_rate: S,
    ) -> spec_fn(DcBlockerState<S>, int) -> (DcBlockerState<S>, S) {
        |st: DcBlockerState<S>, i: int| self.tick(st, inputs[0][i])
    }

    /// The inputs that the node declares.
    pub fn input_ports(&self) -> (r: Vec<Port>)
        ensures
            r@ == audio_ports(1),
    {
        make_audio_ports(1)
    }

    /// The outputs that the node declares.
    pub fn output_ports(&self) -> (r: Vec<Port>)
        ensures
            r@ == audio_ports(1),
    {
        make_audio_ports(1)
    }

    /// The number of inputs that must be connected.
    pub fn required_inputs(&self) -> (r: usize)
        ensures
            r == 1,
    {
        1
    }

    /// The state before the first sample.
    pub open spec fn fresh() -> DcBlockerState<S> {
        DcBlockerState { x1: S::zero(), y1: S::zero() }
    }

    /// Makes the state for one instance of the node.
    pub fn init_state(&self, _sample_rate: S, _block_size: usize) -> (st: DcBlockerState<S>)
        ensures
            S::obeys_sample_spec() ==> st == Self::fresh(),
    {
        DcBlockerState { x1: S::zero(), y1: S::zero() }
    }

    /// Puts the state back to what `init_state` returns.
    pub fn reset(&self, state: &mut DcBlockerState<S>)
        ensures
            S::obeys_sample_spec() ==> *final(state) == Self::fresh(),
    {
        *state = DcBlockerState { x1: S::zero(), y1: S::zero() };
    }

    /// Processes one block: runs the recursion over the samples of the block and
    /// writes output 0. A call whose slices do not fit is refused and changes
    /// nothing. Nothing is allocated.
    pub fn process_block(
        &self,
        state: &mut DcBlockerState<S>,
        inputs: &[&[S]],
        outputs: &mut [Vec<S>],
        sample_rate: S,
    ) -> (r: Result<(), ShapeError>)
        ensures
            r == shape_verdict(rows(inputs), cols(old(outputs)@), 1, 1, 1, 1),
            same_lens(final(outputs)@, old(outputs)@),
            same_from(final(outputs)@, old(outputs)@, 1),
            r.is_err() ==> *final(state) == *old(state) && final(outputs)@ == old(outputs)@,
            r.is_ok() && S::obeys_sample_spec() ==> renders(
                self.stepper(rows(inputs), sample_rate),
                *old(state),
                *final(state),
                final(outputs)@[0]@,
            ),
    {
        let n: usize = match check_block(inputs, outputs, 1, 1, 1, 1) {
            Ok(n) => n,
            Err(e) => {
                return Err(e);
            },
        };
        let ghost f = self.stepper(rows(inputs), sample_rate);
        let ghost st0 = *state;
        let mut i: usize = 0;
        while i < n
            invariant
                i <= n,
                inputs@.len() >= 1,
                outputs@.len() >= 1,
                outputs@[0]@.len() == n,
                forall|p: int| 0 <= p < 1 ==> (#[trigger] inputs@[p])@.len() == n,
                same_lens(outputs@, old(outputs)@),
                same_from(outputs@, old(outputs)@, 1),
                f == self.stepper(rows(inputs), sample_rate),
                S::obeys_sample_spec() ==> *state == state_after(f, st0, i as nat),
                S::obeys_sample_spec() ==> forall|j: int|
                    0 <= j < i ==> outputs@[0]@[j] == #[trigger] output_at(f, st0, j),
            decreases n - i,
        {
            let x = read_at(inputs, 0, i);
            let (next, y) = self.tick(*state, x);
            *state = next;
            outputs[0][i] = y;
            i += 1;
        }
        Ok(())
    }
}

/// State of `Overdrive`: it has none.
#[derive(Debug, Clone, Copy)]
pub struct OverdriveState;

/// Overdrive. Input 1 is added to the drive and input 2 to the mix.
#[derive(Debug, Clone, Copy)]
pub struct Overdrive<S> {
    pub drive: S,
    pub mix: S,
}

impl<S: Sample> Overdrive<S> {
    /// One sample: `0.8 tanh(2 x drive)`, mixed with the input.
    pub open spec fn tick_spec(&self, x: S, drive_mod: S, mix_mod: S) -> S {
        let drive = self.drive.add(drive_mod);
        let mix = self.mix.add(mix_mod);
        let v = x.mul(drive);
        blend(x, v.mul(S::ratio(2, 1)).tanh().mul(S::ratio(8, 10)), mix)
    }

    /// Computes `tick_spec`.
    #[verifier::when_used_as_spec(tick_spec)]
    pub fn tick(&self, x: S, drive_mod: S, mix_mod: S) -> (r: S)
        ensures
            S::obeys_sample_spec() ==> r == self.tick_spec(x, drive_mod, mix_mod),
    {
        let drive = self.drive.add(drive_mod);
        let mix = self.mix.add(mix_mod);
        let v = x.mul(drive);
        blend(x, v.mul(S::ratio(2, 1)).tanh().mul(S::ratio(8, 10)), mix)
    }

    /// The node as a recursion over the samples of a block: the state before
    /// sample `i` to the state after it and the sample put out.
    pub open spec fn stepper(
        &self,
        inputs: Seq<Seq<S>>,
        sample_rate: S,
    ) -> spec_fn(OverdriveState, int) -> (OverdriveState, S) {
        |st: OverdriveState, i: int| (
            st,
            self.tick(
                inputs[0][i],
                port_or(inputs, 1, i, S::zero()),
                port_or(inputs, 2, i, S::zero()),
            ),
        )
    }

    /// The inputs that the node declares.
    pub fn input_ports(&self) -> (r: Vec<Port>)
        ensures
            r@ == audio_ports(3),
    {
        make_audio_ports(3)
    }

    /// The outputs that the node declares.
    pub fn output_ports(&self) -> (r: Vec<Port>)
        ensures
            r@ == audio_ports(1),
    {
        make_audio_ports(1)
    }

    /// The number of inputs that must be connected.
    pub fn required_inputs(&self) -> (r: usize)
        ensures
            r == 1,
    {
        1
    }

    /// The state of the node, of which there is one value only.
    pub fn init_state(&self, _sample_rate: S, _block_size: usize) -> (st: OverdriveState) {
        OverdriveState
    }

    /// A node without memory has nothing to reset.
    pub fn reset(&self, state: &mut OverdriveState)
        ensures
            *final(state) == *old(state),
    {
    }

    /// Processes one block: runs the recursion over the samples of the block and
    /// writes output 0. A call whose slices do not fit is refused and changes
    /// nothing. Nothing is allocated.
    pub fn process_block(
        &self,
        state: &mut OverdriveState,
        inputs: &[&[S]],
        outputs: &mut [Vec<S>],
        sample_rate: S,
    ) -> (r: Result<(), ShapeError>)
        ensures
            r == shape_verdict(rows(inputs), cols(old(outputs)@), 1, 1, 3, 1),
            same_lens(final(outputs)@, old(outputs)@),
            same_from(final(outputs)@, old(outputs)@, 1),
            r.is_err() ==> *final(state) == *old(state) && final(outputs)@ == old(outputs)@,
            r.is_ok() && S::obeys_sample_spec() ==> renders(
                self.stepper(rows(inputs), sample_rate),
                *old(state),
                *final(state),
                final(outputs)@[0]@,
            ),
    {
        let n: usize = match check_block(inputs, outputs, 1, 1, 3, 1) {
            Ok(n) => n,
            Err(e) => {
                return Err(e);
            },
        };
        let ghost f = self.stepper(rows(inputs), sample_rate);
        let ghost st0 = *state;
        let zero = S::zero();
        let mut i: usize = 0;
        while i < n
            invariant
                i <= n,
                inputs@.len() >= 1,
                outputs@.len() >= 1,
                outputs@[0]@.len() == n,
                forall|p: int| 0 <= p < 1 ==> (#[trigger] inputs@[p])@.len() == n,
                forall|p: int|
                    1 <= p < 3 && p < inputs@.len() ==> (#[trigger] inputs@[p])@.len() == 0
                        || inputs@[p]@.len() == n,
                same_lens(outputs@, old(outputs)@),
                same_from(outputs@, old(outputs)@, 1),
                f == self.stepper(rows(inputs), sample_rate),
                S::obeys_sample_spec() ==> zero == S::zero(),
                S::obeys_sample_spec() ==> *state == state_after(f, st0, i as nat),
                S::obeys_sample_spec() ==> forall|j: int|
                    0 <= j < i ==> outputs@[0]@[j] == #[trigger] output_at(f, st0, j),
            decreases n - i,
        {
            let x = read_at(inputs, 0, i);
            let drive_mod = read_or(inputs, 1, i, zero);
            let mix_mod = read_or(inputs, 2, i, zero);
            let y = self.tick(x, drive_mod, mix_mod);
            outputs[0][i] = y;
            i += 1;
        }
        Ok(())
    }
}

} // verus!
