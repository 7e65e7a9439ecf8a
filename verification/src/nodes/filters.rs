//! Recursive filters: state-variable, ladder, comb, formant, biquad and all-
//! pass.

use crate::block::{
    audio_ports, check_block, cols, lemma_blocks_join, lemma_run_keeps, make_audio_ports, output_at,
    port_or, read_at, read_or, renders, rows, same_from, same_lens, shape_verdict, state_after,
    Port, ShapeError,
};
use crate::delay_line::{cursor_after, lemma_clear_after_new, DelayLine, DelayView};
use crate::helpers::{compute_exponential_coefficient, stable_feedback};
use crate::sample::Sample;
use vstd::prelude::*;

verus! {

/// State of a state-variable filter.
#[derive(Debug, Clone, Copy)]
pub struct SvfState<S> {
    /// The last input.
    pub x1: S,
    /// The input before the last.
    pub x2: S,
    /// The band-pass integrator.
    pub y1: S,
    /// The low-pass integrator.
    pub y2: S,
    /// The last high-pass sample.
    pub y3: S,
    /// The last notch sample.
    pub y4: S,
}

/// Which output of the state-variable filter is put out.
#[derive(Debug, Clone, Copy, PartialEq, Eq, Structural)]
pub enum SvfMode {
    Lowpass,
    Highpass,
    Bandpass,
    Notch,
}

/// State-variable filter: low-pass, high-pass, band-pass and notch from one
/// two-integrator loop. Input 1 is added to the cutoff and input 2 to the
/// resonance, sample by sample.
#[derive(Debug, Clone, Copy)]
pub struct SvfFilter<S> {
    pub cutoff: S,
    pub resonance: S,
    pub mode: SvfMode,
}

impl<S: Sample> SvfFilter<S> {
    /// One sample of the loop: `hp = x - lp - k bp`, `bp += f hp`, `lp += f bp`,
    /// with the coefficient `f = 2 sin(pi fc / fs)` and the damping `k = 2 - 2 r`,
    /// where the resonance `r` is held in `[0, 0.99]`.
    pub open spec fn tick_spec(
        &self,
        st: SvfState<S>,
        x: S,
        cutoff_mod: S,
        resonance_mod: S,
        sample_rate: S,
    ) -> (SvfState<S>, S) {
        let cutoff = self.cutoff.add(cutoff_mod);
        let resonance = self.resonance.add(resonance_mod);
        let f = S::ratio(2, 1).mul(S::pi().mul(cutoff).div(sample_rate).sin());
        let k = S::ratio(2, 1)
            .sub(S::ratio(2, 1).mul(resonance.clamp(S::zero(), S::ratio(99, 100))));
        let y_hp = x.sub(st.y2).sub(k.mul(st.y1));
        let y_bp = y_hp.mul(f).add(st.y1);
        let y_lp = y_bp.mul(f).add(st.y2);
        let y_notch = y_hp.add(y_lp);
        let next = SvfState { x1: x, x2: st.x1, y1: y_bp, y2: y_lp, y3: y_hp, y4: y_notch };
        let y = match self.mode {
            SvfMode::Lowpass => y_lp,
            SvfMode::Highpass => y_hp,
            SvfMode::Bandpass => y_bp,
            SvfMode::Notch => y_notch,
        };
        (next, y)
    }

    /// Computes `tick_spec`.
    #[verifier::when_used_as_spec(tick_spec)]
    pub fn tick(
        &self,
        st: SvfState<S>,
        x: S,
        cutoff_mod: S,
        resonance_mod: S,
        sample_rate: S,
    ) -> (r: (SvfState<S>, S))
        ensures
            S::obeys_sample_spec() ==> r == self
                .tick_spec(st, x, cutoff_mod, resonance_mod, sample_rate),
    {
        let cutoff = self.cutoff.add(cutoff_mod);
        let resonance = self.resonance.add(resonance_mod);
        let f = S::ratio(2, 1).mul(S::pi().mul(cutoff).div(sample_rate).sin());
        let k = S::ratio(2, 1)
            .sub(S::ratio(2, 1).mul(resonance.clamp(S::zero(), S::ratio(99, 100))));
        let y_hp = x.sub(st.y2).sub(k.mul(st.y1));
        let y_bp = y_hp.mul(f).add(st.y1);
        let y_lp = y_bp.mul(f).add(st.y2);
        let y_notch = y_hp.add(y_lp);
        let next = SvfState { x1: x, x2: st.x1, y1: y_bp, y2: y_lp, y3: y_hp, y4: y_notch };
        let y = match self.mode {
            SvfMode::Lowpass => y_lp,
            SvfMode::Highpass => y_hp,
            SvfMode::Bandpass => y_bp,
            SvfMode::Notch => y_notch,
        };
        (next, y)
    }

    /// The node as a recursion over the samples of a block: the state before
    /// sample `i` to the state after it and the sample put out.
    pub open spec fn stepper(
        &self,
        inputs: Seq<Seq<S>>,
        sample_rate: S,
    ) -> spec_fn(SvfState<S>, int) -> (SvfState<S>, S) {
        |st: SvfState<S>, i: int| self
            .tick(
                st,
                inputs[0][i],
                port_or(inputs, 1, i, S::zero()),
                port_or(inputs, 2, i, S::zero()),
                sample_rate,
            )
    }

    /// The inputs that the node declares.
    pub fn input_ports(&self) -> (r: Vec<Port>)
        ensures
            r@ == audio_ports(3),
    {
        make_audio_ports(3)
    }

    /// The outputs that the node declares.
    pub fn output_ports(&self) -> (r: Vec<Port>)
        ensures
            r@ == audio_ports(1),
    {
        make_audio_ports(1)
    }

    /// The number of inputs that must be connected.
    pub fn required_inputs(&self) -> (r: usize)
        ensures
            r == 1,
    {
        1
    }

    /// The state before the first sample.
    pub open spec fn fresh() -> SvfState<S> {
        SvfState {
            x1: S::zero(),
            x2: S::zero(),
            y1: S::zero(),
            y2: S::zero(),
            y3: S::zero(),
            y4: S::zero(),
        }
    }

    /// Makes the state for one instance of the node.
    pub fn init_state(&self, _sample_rate: S, _block_size: usize) -> (st: SvfState<S>)
        ensures
            S::obeys_sample_spec() ==> st == Self::fresh(),
    {
        SvfState {
            x1: S::zero(),
            x2: S::zero(),
            y1: S::zero(),
            y2: S::zero(),
            y3: S::zero(),
            y4: S::zero(),
        }
    }

    /// Puts the state back to what `init_state` returns.
    pub fn reset(&self, state: &mut SvfState<S>)
        ensures
            S::obeys_sample_spec() ==> *final(state) == Self::fresh(),
    {
        *state = SvfState {
            x1: S::zero(),
            x2: S::zero(),
            y1: S::zero(),
            y2: S::zero(),
            y3: S::zero(),
            y4: S::zero(),
        };
    }

    /// Processes one block: runs the recursion over the samples of the block and
    /// writes output 0. A call whose slices do not fit is refused and changes
    /// nothing. Nothing is allocated.
    pub fn process_block(
        &self,
        state: &mut SvfState<S>,
        inputs: &[&[S]],
        outputs: &mut [Vec<S>],
        sample_rate: S,
    ) -> (r: Result<(), ShapeError>)
        ensures
            r == shape_verdict(rows(inputs), cols(old(outputs)@), 1, 1, 3, 1),
            same_lens(final(outputs)@, old(outputs)@),
            same_from(final(outputs)@, old(outputs)@, 1),
            r.is_err() ==> *final(state) == *old(state) && final(outputs)@ == old(outputs)@,
            r.is_ok() && S::obeys_sample_spec() ==> renders(
                self.stepper(rows(inputs), sample_rate),
                *old(state),
                *final(state),
                final(outputs)@[0]@,
            ),
    {
        let n: usize = match check_block(inputs, outputs, 1, 1, 3, 1) {
            Ok(n) => n,
            Err(e) => {
                return Err(e);
            },
        };
        let ghost f = self.stepper(rows(inputs), sample_rate);
        let ghost st0 = *state;
        let zero = S::zero();
        let mut i: usize = 0;
        while i < n
            invariant
                i <= n,
                inputs@.len() >= 1,
                outputs@.len() >= 1,
                outputs@[0]@.len() == n,
                forall|p: int| 0 <= p < 1 ==> (#[trigger] inputs@[p])@.len() == n,
                forall|p: int|
                    1 <= p < 3 && p < inputs@.len() ==> (#[trigger] inputs@[p])@.len() == 0
                        || inputs@[p]@.len() == n,
                same_lens(outputs@, old(outputs)@),
                same_from(outputs@, old(outputs)@, 1),
                f == self.stepper(rows(inputs), sample_rate),
                S::obeys_sample_spec() ==> zero == S::zero(),
                S::obeys_sample_spec() ==> *state == state_after(f, st0, i as nat),
                S::obeys_sample_spec() ==> forall|j: int|
                    0 <= j < i ==> outputs@[0]@[j] == #[trigger] output_at(f, st0, j),
            decreases n - i,
        {
            let x = read_at(inputs, 0, i);
            let cutoff_mod = read_or(inputs, 1, i, zero);
            let resonance_mod = read_or(inputs, 2, i, zero);
            let (next, y) = self.tick(*state, x, cutoff_mod, resonance_mod, sample_rate);
            *state = next;
            outputs[0][i] = y;
            i += 1;
        }
        Ok(())
    }
}

/// State of a ladder filter: its four stages.
#[derive(Debug, Clone, Copy)]
pub struct LadderState<S> {
    pub z1: S,
    pub z2: S,
    pub z3: S,
    pub z4: S,
}

/// Four-stage ladder filter with feedback and a drive before it. Input 1 is
/// added to the cutoff and input 2 to the resonance, sample by sample.
#[derive(Debug, Clone, Copy)]
pub struct LadderFilter<S> {
    pub cutoff: S,
    pub resonance: S,
    pub drive: S,
}

impl<S: Sample> LadderFilter<S> {
    /// One sample of the ladder: four one-pole stages with the gain `p`, fed with
    /// the driven input less the last output times the feedback. The resonance is
    /// held in `[0, 0.99]`, and the feedback is the resonance times `(1 - p)^4`,
    /// which falls as the normalised cutoff rises and keeps the loop from running
    /// away.
    pub open spec fn tick_spec(
        &self,
        st: LadderState<S>,
        x: S,
        cutoff_mod: S,
        resonance_mod: S,
        sample_rate: S,
    ) -> (LadderState<S>, S) {
        let cutoff = self.cutoff.add(cutoff_mod);
        let resonance = self.resonance.add(resonance_mod).clamp(S::zero(), S::ratio(99, 100));
        let fc = cutoff.div(sample_rate);
        let k = S::ratio(36, 10).mul(fc).sub(S::ratio(16, 10).mul(fc).mul(fc)).sub(S::one());
        let p = k.add(S::one()).mul(S::ratio(5, 10));
        let feedback = resonance.mul(S::one().sub(p).powi(4));
        let fed = x.mul(self.drive).sub(feedback.mul(st.z4));
        let y1 = fed.mul(p).add(st.z1.mul(S::one().sub(p)));
        let y2 = y1.mul(p).add(st.z2.mul(S::one().sub(p)));
        let y3 = y2.mul(p).add(st.z3.mul(S::one().sub(p)));
        let y4 = y3.mul(p).add(st.z4.mul(S::one().sub(p)));
        (LadderState { z1: y1, z2: y2, z3: y3, z4: y4 }, y4)
    }

    /// Computes `tick_spec`.
    #[verifier::when_used_as_spec(tick_spec)]
    pub fn tick(
        &self,
        st: LadderState<S>,
        x: S,
        cutoff_mod: S,
        resonance_mod: S,
        sample_rate: S,
    ) -> (r: (LadderState<S>, S))
        ensures
            S::obeys_sample_spec() ==> r == self
                .tick_spec(st, x, cutoff_mod, resonance_mod, sample_rate),
    {
        let cutoff = self.cutoff.add(cutoff_mod);
        let resonance = self.resonance.add(resonance_mod).clamp(S::zero(), S::ratio(99, 100));
        let fc = cutoff.div(sample_rate);
        let k = S::ratio(36, 10).mul(fc).sub(S::ratio(16, 10).mul(fc).mul(fc)).sub(S::one());
        let p = k.add(S::one()).mul(S::ratio(5, 10));
        let feedback = resonance.mul(S::one().sub(p).powi(4));
        let fed = x.mul(self.drive).sub(feedback.mul(st.z4));
        let y1 = fed.mul(p).add(st.z1.mul(S::one().sub(p)));
        let y2 = y1.mul(p).add(st.z2.mul(S::one().sub(p)));
        let y3 = y2.mul(p).add(st.z3.mul(S::one().sub(p)));
        let y4 = y3.mul(p).add(st.z4.mul(S::one().sub(p)));
        (LadderState { z1: y1, z2: y2, z3: y3, z4: y4 }, y4)
    }

    /// The node as a recursion over the samples of a block: the state before
    /// sample `i` to the state after it and the sample put out.
    pub open spec fn stepper(
        &self,
        inputs: Seq<Seq<S>>,
        sample_rate: S,
    ) -> spec_fn(LadderState<S>, int) -> (LadderState<S>, S) {
        |st: LadderState<S>, i: int| self
            .tick(
                st,
                inputs[0][i],
                port_or(inputs, 1, i, S::zero()),
                port_or(inputs, 2, i, S::zero()),
                sample_rate,
            )
    }

    /// The inputs that the node declares.
    pub fn input_ports(&self) -> (r: Vec<Port>)
        ensures
            r@ == audio_ports(3),
    {
        make_audio_ports(3)
    }

    /// The outputs that the node declares.
    pub fn output_ports(&self) -> (r: Vec<Port>)
        ensures
            r@ == audio_ports(1),
    {
        make_audio_ports(1)
    }

    /// The number of inputs that must be connected.
    pub fn required_inputs(&self) -> (r: usize)
        ensures
            r == 1,
    {
        1
    }

    /// The state before the first sample.
    pub open spec fn fresh() -> LadderState<S> {
        LadderState { z1: S::zero(), z2: S::zero(), z3: S::zero(), z4: S::zero() }
    }

    /// Makes the state for one instance of the node.
    pub fn init_state(&self, _sample_rate: S, _block_size: usize) -> (st: LadderState<S>)
        ensures
            S::obeys_sample_spec() ==> st == Self::fresh(),
    {
        LadderState { z1: S::zero(), z2: S::zero(), z3: S::zero(), z4: S::zero() }
    }

    /// Puts the state back to what `init_state` returns.
    pub fn reset(&self, state: &mut LadderState<S>)
        ensures
            S::obeys_sample_spec() ==> *final(state) == Self::fresh(),
    {
        *state = LadderState { z1: S::zero(), z2: S::zero(), z3: S::zero(), z4: S::zero() };
    }

    /// Processes one block: runs the recursion over the samples of the block and
    /// writes output 0. A call whose slices do not fit is refused and changes
    /// nothing. Nothing is allocated.
    pub fn process_block(
        &self,
        state: &mut LadderState<S>,
        inputs: &[&[S]],
        outputs: &mut [Vec<S>],
        sample_rate: S,
    ) -> (r: Result<(), ShapeError>)
        ensures
            r == shape_verdict(rows(inputs), cols(old(outputs)@), 1, 1, 3, 1),
            same_lens(final(outputs)@, old(outputs)@),
            same_from(final(outputs)@, old(outputs)@, 1),
            r.is_err() ==> *final(state) == *old(state) && final(outputs)@ == old(outputs)@,
            r.is_ok() && S::obeys_sample_spec() ==> renders(
                self.stepper(rows(inputs), sample_rate),
                *old(state),
                *final(state),
                final(outputs)@[0]@,
            ),
    {
        let n: usize = match check_block(inputs, outputs, 1, 1, 3, 1) {
            Ok(n) => n,
            Err(e) => {
                return Err(e);
            },
        };
        let ghost f = self.stepper(rows(inputs), sample_rate);
        let ghost st0 = *state;
        let zero = S::zero();
        let mut i: usize = 0;
        while i < n
            invariant
                i <= n,
                inputs@.len() >= 1,
                outputs@.len() >= 1,
                outputs@[0]@.len() == n,
                forall|p: int| 0 <= p < 1 ==> (#[trigger] inputs@[p])@.len() == n,
                forall|p: int|
                    1 <= p < 3 && p < inputs@.len() ==> (#[trigger] inputs@[p])@.len() == 0
                        || inputs@[p]@.len() == n,
                same_lens(outputs@, old(outputs)@),
                same_from(outputs@, old(outputs)@, 1),
                f == self.stepper(rows(inputs), sample_rate),
                S::obeys_sample_spec() ==> zero == S::zero(),
                S::obeys_sample_spec() ==> *state == state_after(f, st0, i as nat),
                S::obeys_sample_spec() ==> forall|j: int|
                    0 <= j < i ==> outputs@[0]@[j] == #[trigger] output_at(f, st0, j),
            decreases n - i,
        {
            let x = read_at(inputs, 0, i);
            let cutoff_mod = read_or(inputs, 1, i, zero);
            let resonance_mod = read_or(inputs, 2, i, zero);
            let (next, y) = self.tick(*state, x, cutoff_mod, resonance_mod, sample_rate);
            *state = next;
            outputs[0][i] = y;
            i += 1;
        }
        Ok(())
    }
}

/// State of a formant filter: the last input and output of each of its two
/// branches.
#[derive(Debug, Clone, Copy)]
pub struct FormantState<S> {
    pub x1: S,
    pub x2: S,
    pub y1: S,
    pub y2: S,
}

/// Two resonant branches in parallel, summed.
#[derive(Debug, Clone, Copy)]
pub struct FormantFilter<S> {
    pub freq1: S,
    pub freq2: S,
    pub bw1: S,
    pub bw2: S,
    pub gain1: S,
    pub gain2: S,
}

impl<S: Sample> FormantFilter<S> {
    /// One sample of the node.
    pub open spec fn tick_spec(&self, st: FormantState<S>, x: S) -> (FormantState<S>, S) {
        let c1 = compute_exponential_coefficient(self.freq1, self.bw1);
        let c2 = compute_exponential_coefficient(self.freq2, self.bw2);
        let y1 = x.mul(self.gain1).add(st.x1.mul(c1)).sub(st.y1.mul(c1));
        let y2 = x.mul(self.gain2).add(st.x2.mul(c2)).sub(st.y2.mul(c2));
        (FormantState { x1: x, x2: x, y1, y2 }, y1.add(y2))
    }

    /// Computes `tick_spec`.
    #[verifier::when_used_as_spec(tick_spec)]
    pub fn tick(&self, st: FormantState<S>, x: S) -> (r: (FormantState<S>, S))
        ensures
            S::obeys_sample_spec() ==> r == self.tick_spec(st, x),
    {
        let c1 = compute_exponential_coefficient(self.freq1, self.bw1);
        let c2 = compute_exponential_coefficient(self.freq2, self.bw2);
        let y1 = x.mul(self.gain1).add(st.x1.mul(c1)).sub(st.y1.mul(c1));
        let y2 = x.mul(self.gain2).add(st.x2.mul(c2)).sub(st.y2.mul(c2));
        (FormantState { x1: x, x2: x, y1, y2 }, y1.add(y2))
    }

    /// The node as a recursion over the samples of a block: the state before
    /// sample `i` to the state after it and the sample put out.
    pub open spec fn stepper(
        &self,
        inputs: Seq<Seq<S>>,
        sample_rate: S,
    ) -> spec_fn(FormantState<S>, int) -> (FormantState<S>, S) {
        |st: FormantState<S>, i: int| self.tick(st, inputs[0][i])
    }

    /// The inputs that the node declares.
    pub fn input_ports(&self) -> (r: Vec<Port>)
        ensures
            r@ == audio_ports(1),
    {
        make_audio_ports(1)
    }

    /// The outputs that the node declares.
    pub fn output_ports(&self) -> (r: Vec<Port>)
        ensures
            r@ == audio_ports(1),
    {
        make_audio_ports(1)
    }

    /// The number of inputs that must be connected.
    pub fn required_inputs(&self) -> (r: usize)
        ensures
            r == 1,
    {
        1
    }

    /// The state before the first sample.
    pub open spec fn fresh() -> FormantState<S> {
        FormantState { x1: S::zero(), x2: S::zero(), y1: S::zero(), y2: S::zero() }
    }

    /// Makes the state for one instance of the node.
    pub fn init_state(&self, _sample_rate: S, _block_size: usize) -> (st: FormantState<S>)
        ensures
            S::obeys_sample_spec() ==> st == Self::fresh(),
    {
        FormantState { x1: S::zero(), x2: S::zero(), y1: S::zero(), y2: S::zero() }
    }

    /// Puts the state back to what `init_state` returns.
    pub fn reset(&self, state: &mut FormantState<S>)
        ensures
            S::obeys_sample_spec() ==> *final(state) == Self::fresh(),
    {
        *state = FormantState { x1: S::zero(), x2: S::zero(), y1: S::zero(), y2: S::zero() };
    }

    /// Processes one block: runs the recursion over the samples of the block and
    /// writes output 0. A call whose slices do not fit is refused and changes
    /// nothing. Nothing is allocated.
    pub fn process_block(
        &self,
        state: &mut FormantState<S>,
        inputs: &[&[S]],
        outputs: &mut [Vec<S>],
        sample_rate: S,
    ) -> (r: Result<(), ShapeError>)
        ensures
            r == shape_verdict(rows(inputs), cols(old(outputs)@), 1, 1, 1, 1),
            same_lens(final(outputs)@, old(outputs)@),
            same_from(final(outputs)@, old(outputs)@, 1),
            r.is_err() ==> *final(state) == *old(state) && final(outputs)@ == old(outputs)@,
            r.is_ok() && S::obeys_sample_spec() ==> renders(
                self.stepper(rows(inputs), sample_rate),
                *old(state),
                *final(state),
                final(outputs)@[0]@,
            ),
    {
        let n: usize = match check_block(inputs, outputs, 1, 1, 1, 1) {
            Ok(n) => n,
            Err(e) => {
                return Err(e);
            },
        };
        let ghost f = self.stepper(rows(inputs), sample_rate);
        let ghost st0 = *state;
        let mut i: usize = 0;
        while i < n
            invariant
                i <= n,
                inputs@.len() >= 1,
                outputs@.len() >= 1,
                outputs@[0]@.len() == n,
                forall|p: int| 0 <= p < 1 ==> (#[trigger] inputs@[p])@.len() == n,
                same_lens(outputs@, old(outputs)@),
                same_from(outputs@, old(outputs)@, 1),
                f == self.stepper(rows(inputs), sample_rate),
                S::obeys_sample_spec() ==> *state == state_after(f, st0, i as nat),
                S::obeys_sample_spec() ==> forall|j: int|
                    0 <= j < i ==> outputs@[0]@[j] == #[trigger] output_at(f, st0, j),
            decreases n - i,
        {
            let x = read_at(inputs, 0, i);
            let (next, y) = self.tick(*state, x);
            *state = next;
            outputs[0][i] = y;
            i += 1;
        }
        Ok(())
    }
}

/// State of a biquad section: its last two inputs and outputs.
#[derive(Debug, Clone, Copy)]
pub struct BiquadFilterState<S> {
    pub x1: S,
    pub x2: S,
    pub y1: S,
    pub y2: S,
}

/// Second-order recursive section with fixed coefficients: `y[n] = b0 x[n] + b1
/// x[n-1] + b2 x[n-2] - a1 y[n-1] - a2 y[n-2]`.
#[derive(Debug, Clone, Copy)]
pub struct BiquadFilter<S> {
    pub b0: S,
    pub b1: S,
    pub b2: S,
    pub a1: S,
    pub a2: S,
}

impl<S: Sample> BiquadFilter<S> {
    /// One sample of the node.
    pub open spec fn tick_spec(&self, st: BiquadFilterState<S>, x: S) -> (BiquadFilterState<S>, S) {
        let y = self.b0.mul(x).add(self.b1.mul(st.x1)).add(self.b2.mul(st.x2))
            .sub(self.a1.mul(st.y1)).sub(self.a2.mul(st.y2));
        (BiquadFilterState { x1: x, x2: st.x1, y1: y, y2: st.y1 }, y)
    }

    /// Computes `tick_spec`.
    #[verifier::when_used_as_spec(tick_spec)]
    pub fn tick(&self, st: BiquadFilterState<S>, x: S) -> (r: (BiquadFilterState<S>, S))
        ensures
            S::obeys_sample_spec() ==> r == self.tick_spec(st, x),
    {
        let y = self.b0.mul(x).add(self.b1.mul(st.x1)).add(self.b2.mul(st.x2))
            .sub(self.a1.mul(st.y1)).sub(self.a2.mul(st.y2));
        (BiquadFilterState { x1: x, x2: st.x1, y1: y, y2: st.y1 }, y)
    }

    /// The node as a recursion over the samples of a block: the state before
    /// sample `i` to the state after it and the sample put out.
    pub open spec fn stepper(
        &self,
        inputs: Seq<Seq<S>>,
        sample_rate: S,
    ) -> spec_fn(BiquadFilterState<S>, int) -> (BiquadFilterState<S>, S) {
        |st: BiquadFilterState<S>, i: int| self.tick(st, inputs[0][i])
    }

    /// The inputs that the node declares.
    pub fn input_ports(&self) -> (r: Vec<Port>)
        ensures
            r@ == audio_ports(1),
    {
        make_audio_ports(1)
    }

    /// The outputs that the node declares.
    pub fn output_ports(&self) -> (r: Vec<Port>)
        ensures
            r@ == audio_ports(1),
    {
        make_audio_ports(1)
    }

    /// The number of inputs that must be connected.
    pub fn required_inputs(&self) -> (r: usize)
        ensures
            r == 1,
    {
        1
    }

    /// The state before the first sample.
    pub open spec fn fresh() -> BiquadFilterState<S> {
        BiquadFilterState { x1: S::zero(), x2: S::zero(), y1: S::zero(), y2: S::zero() }
    }

    /// Makes the state for one instance of the node.
    pub fn init_state(&self, _sample_rate: S, _block_size: usize) -> (st: BiquadFilterState<S>)
        ensures
            S::obeys_sample_spec() ==> st == Self::fresh(),
    {
        BiquadFilterState { x1: S::zero(), x2: S::zero(), y1: S::zero(), y2: S::zero() }
    }

    /// Puts the state back to what `init_state` returns.
    pub fn reset(&self, state: &mut BiquadFilterState<S>)
        ensures
            S::obeys_sample_spec() ==> *final(state) == Self::fresh(),
    {
        *state = BiquadFilterState { x1: S::zero(), x2: S::zero(), y1: S::zero(), y2: S::zero() };
    }

    /// Processes one block: runs the recursion over the samples of the block and
    /// writes output 0. A call whose slices do not fit is refused and changes
    /// nothing. Nothing is allocated.
    pub fn process_block(
        &self,
        state: &mut BiquadFilterState<S>,
        inputs: &[&[S]],
        outputs: &mut [Vec<S>],
        sample_rate: S,
    ) -> (r: Result<(), ShapeError>)
        ensures
            r == shape_verdict(rows(inputs), cols(old(outputs)@), 1, 1, 1, 1),
            same_lens(final(outputs)@, old(outputs)@),
            same_from(final(outputs)@, old(outputs)@, 1),
            r.is_err() ==> *final(state) == *old(state) && final(outputs)@ == old(outputs)@,
            r.is_ok() && S::obeys_sample_spec() ==> renders(
                self.stepper(rows(inputs), sample_rate),
                *old(state),
                *final(state),
                final(outputs)@[0]@,
            ),
    {
        let n: usize = match check_block(inputs, outputs, 1, 1, 1, 1) {
            Ok(n) => n,
            Err(e) => {
                return Err(e);
            },
        };
        let ghost f = self.stepper(rows(inputs), sample_rate);
        let ghost st0 = *state;
        let mut i: usize = 0;
        while i < n
            invariant
                i <= n,
                inputs@.len() >= 1,
                outputs@.len() >= 1,
                outputs@[0]@.len() == n,
                forall|p: int| 0 <= p < 1 ==> (#[trigger] inputs@[p])@.len() == n,
                same_lens(outputs@, old(outputs)@),
                same_from(outputs@, old(outputs)@, 1),
                f == self.stepper(rows(inputs), sample_rate),
                S::obeys_sample_spec() ==> *state == state_after(f, st0, i as nat),
                S::obeys_sample_spec() ==> forall|j: int|
                    0 <= j < i ==> outputs@[0]@[j] == #[trigger] output_at(f, st0, j),
            decreases n - i,
        {
            let x = read_at(inputs, 0, i);
            let (next, y) = self.tick(*state, x);
            *state = next;
            outputs[0][i] = y;
            i += 1;
        }
        Ok(())
    }
}

/// Two blocks in a row are one block, for the biquad section: filtering the
/// block `a` and then, from the state that it left, the block `b` leaves
/// the state and puts out the samples of filtering `a` and `b` as one block.
pub proof fn lemma_biquad_blocks_join<S: Sample>(
    node: BiquadFilter<S>,
    st: BiquadFilterState<S>,
    a: Seq<S>,
    b: Seq<S>,
    sample_rate: S,
)
    ensures
        ({
            let whole = node.stepper(seq![a + b], sample_rate);
            let first = node.stepper(seq![a], sample_rate);
            let second = node.stepper(seq![b], sample_rate);
            let mid = state_after(first, st, a.len());
            &&& state_after(whole, st, a.len() + b.len()) == state_after(second, mid, b.len())
            &&& forall|i: int| 0 <= i < a
                .len() ==> #[trigger] output_at(whole, st, i) == output_at(first, st, i)
            &&& forall|i: int|
                0 <= i < b
                    .len() ==>
                        #[trigger] output_at(whole, st, a.len() + i) == output_at(second, mid, i)
        }),
{
    let whole = node.stepper(seq![a + b], sample_rate);
    let first = node.stepper(seq![a], sample_rate);
    let second = node.stepper(seq![b], sample_rate);
    assert forall|s: BiquadFilterState<S>, i: int| 0 <= i < a
        .len() implies #[trigger] whole(s, i) == first(s, i) by {
        assert(seq![a + b][0][i] == seq![a][0][i]);
    }
    assert forall|s: BiquadFilterState<S>, i: int| 0 <= i < b
        .len() implies #[trigger] whole(s, i + a.len())
        == second(s, i) by {
        assert(seq![a + b][0][i + a.len()] == seq![b][0][i]);
    }
    lemma_blocks_join(whole, first, second, st, a.len(), b.len());
}

/// State of a comb filter: its delay line.
#[derive(Debug)]
pub struct CombState<S> {
    pub line: DelayLine<S>,
}

impl<S> View for CombState<S> {
    type V = DelayView<S>;

    open spec fn view(&self) -> DelayView<S> {
        self.line@
    }
}

impl<S> CombState<S> {
    /// Whether two states hold as many samples.
    pub open spec fn same_size(&self, other: &CombState<S>) -> bool {
        self.line@.len() == other.line@.len()
    }
}

/// Feedback comb filter with damping in the feedback path. Input 1 is added to
/// the feedback and input 2 to the damping. The feedback is held in `[-0.99,
/// 0.99]`.
#[derive(Debug, Clone, Copy)]
pub struct CombFilter<S> {
    pub delay_ms: S,
    pub feedback: S,
    pub damp: S,
}

impl<S: Sample> CombFilter<S> {
    /// One sample: the input plus the damped sample from the line times the
    /// feedback; the result goes into the line.
    pub open spec fn tick_spec(
        &self,
        st: DelayView<S>,
        x: S,
        feedback_mod: S,
        damp_mod: S,
    ) -> (DelayView<S>, S) {
        let feedback = stable_feedback(self.feedback.add(feedback_mod));
        let damp = self.damp.add(damp_mod);
        let delayed = st.head();
        let damped = delayed.mul(S::one().sub(damp));
        let y = x.add(damped.mul(feedback));
        (st.push(y), y)
    }

    /// Performs `tick_spec` on the state in place and returns the sample.
    pub fn tick(&self, st: &mut CombState<S>, x: S, feedback_mod: S, damp_mod: S) -> (y: S)
        ensures
            final(st).same_size(old(st)),
            final(st).line@.cursor == old(st).line@.step().cursor,
            S::obeys_sample_spec() ==> (final(st)@, y) == self
                .tick_spec(old(st)@, x, feedback_mod, damp_mod),
    {
        let feedback = stable_feedback(self.feedback.add(feedback_mod));
        let damp = self.damp.add(damp_mod);
        let delayed = st.line.read();
        let damped = delayed.mul(S::one().sub(damp));
        let y = x.add(damped.mul(feedback));
        st.line.push(y);
        y
    }

    /// The node as a recursion over the samples of a block: the state before
    /// sample `i` to the state after it and the sample put out.
    pub open spec fn stepper(
        &self,
        inputs: Seq<Seq<S>>,
        sample_rate: S,
    ) -> spec_fn(DelayView<S>, int) -> (DelayView<S>, S) {
        |st: DelayView<S>, i: int| self
            .tick_spec(
                st,
                inputs[0][i],
                port_or(inputs, 1, i, S::zero()),
                port_or(inputs, 2, i, S::zero()),
            )
    }

    /// The inputs that the node declares.
    pub fn input_ports(&self) -> (r: Vec<Port>)
        ensures
            r@ == audio_ports(3),
    {
        make_audio_ports(3)
    }

    /// The outputs that the node declares.
    pub fn output_ports(&self) -> (r: Vec<Port>)
        ensures
            r@ == audio_ports(1),
    {
        make_audio_ports(1)
    }

    /// The number of inputs that must be connected.
    pub fn required_inputs(&self) -> (r: usize)
        ensures
            r == 1,
    {
        1
    }

    /// The length of the delay line in samples: the delay time at the sample rate,
    /// rounded down.
    pub open spec fn line_len_spec(&self, sample_rate: S) -> usize {
        self.delay_ms.mul(sample_rate).div(S::ratio(1000, 1)).to_usize()
    }

    /// Computes `line_len_spec`.
    #[verifier::when_used_as_spec(line_len_spec)]
    pub fn line_len(&self, sample_rate: S) -> (r: usize)
        ensures
            S::obeys_sample_spec() ==> r == self.line_len_spec(sample_rate),
    {
        self.delay_ms.mul(sample_rate).div(S::ratio(1000, 1)).to_usize()
    }

    /// The state before the first sample: a line of zeros.
    pub open spec fn fresh(&self, sample_rate: S) -> DelayView<S> {
        DelayView::filled(self.line_len(sample_rate) as nat, S::zero())
    }

    /// Makes the state for one instance of the node. This is where its line is
    /// allocated.
    pub fn init_state(&self, sample_rate: S, _block_size: usize) -> (st: CombState<S>)
        ensures
            S::obeys_sample_spec() ==> st@ == self.fresh(sample_rate),
    {
        CombState { line: DelayLine::new(self.line_len(sample_rate), S::zero()) }
    }

    /// Puts the state back to a line of zeros of the same length, which is what
    /// `init_state` returned for it.
    pub fn reset(&self, state: &mut CombState<S>)
        ensures
            final(state).same_size(old(state)),
            S::obeys_sample_spec() ==> final(state)@ == old(state)@.cleared(S::zero()),
    {
        state.line.clear(S::zero());
    }

    /// A reset right after `init_state` changes nothing.
    pub proof fn lemma_reset_after_init(&self, sample_rate: S)
        ensures
            self.fresh(sample_rate).cleared(S::zero()) == self.fresh(sample_rate),
    {
        lemma_clear_after_new(self.line_len(sample_rate) as nat, S::zero());
    }

    /// Processes one block: runs the recursion over the samples of the block and
    /// writes output 0. A call whose slices do not fit is refused and changes
    /// nothing. Nothing is allocated.
    pub fn process_block(
        &self,
        state: &mut CombState<S>,
        inputs: &[&[S]],
        outputs: &mut [Vec<S>],
        sample_rate: S,
    ) -> (r: Result<(), ShapeError>)
        ensures
            r == shape_verdict(rows(inputs), cols(old(outputs)@), 1, 1, 3, 1),
            same_lens(final(outputs)@, old(outputs)@),
            same_from(final(outputs)@, old(outputs)@, 1),
            final(state).same_size(old(state)),
            r.is_err() ==> final(state)@ == old(state)@ && final(outputs)@ == old(outputs)@,
            r.is_ok() ==> final(state).line@.cursor == cursor_after(
                old(state).line@.cursor,
                old(state).line@.len(),
                final(outputs)@[0]@.len(),
            ),
            r.is_ok() && S::obeys_sample_spec() ==> renders(
                self.stepper(rows(inputs), sample_rate),
                old(state)@,
                final(state)@,
                final(outputs)@[0]@,
            ),
    {
        let n: usize = match check_block(inputs, outputs, 1, 1, 3, 1) {
            Ok(n) => n,
            Err(e) => {
                return Err(e);
            },
        };
        let ghost f = self.stepper(rows(inputs), sample_rate);
        let ghost st0 = state@;
        let zero = S::zero();
        let mut i: usize = 0;
        while i < n
            invariant
                i <= n,
                inputs@.len() >= 1,
                outputs@.len() >= 1,
                outputs@[0]@.len() == n,
                forall|p: int| 0 <= p < 1 ==> (#[trigger] inputs@[p])@.len() == n,
                forall|p: int|
                    1 <= p < 3 && p < inputs@.len() ==> (#[trigger] inputs@[p])@.len() == 0
                        || inputs@[p]@.len() == n,
                same_lens(outputs@, old(outputs)@),
                same_from(outputs@, old(outputs)@, 1),
                state.same_size(old(state)),
                state.line@.cursor == cursor_after(
                    old(state).line@.cursor,
                    old(state).line@.len(),
                    i as nat,
                ),
                f == self.stepper(rows(inputs), sample_rate),
                S::obeys_sample_spec() ==> zero == S::zero(),
                S::obeys_sample_spec() ==> state@ == state_after(f, st0, i as nat),
                S::obeys_sample_spec() ==> forall|j: int|
                    0 <= j < i ==> outputs@[0]@[j] == #[trigger] output_at(f, st0, j),
            decreases n - i,
        {
            let x = read_at(inputs, 0, i);
            let feedback_mod = read_or(inputs, 1, i, zero);
            let damp_mod = read_or(inputs, 2, i, zero);
            let y = self.tick(state, x, feedback_mod, damp_mod);
            outputs[0][i] = y;
            i += 1;
        }
        Ok(())
    }
}

/// State of an all-pass filter: its delay line.
#[derive(Debug)]
pub struct AllpassFilterState<S> {
    pub line: DelayLine<S>,
}

impl<S> View for AllpassFilterState<S> {
    type V = DelayView<S>;

    open spec fn view(&self) -> DelayView<S> {
        self.line@
    }
}

impl<S> AllpassFilterState<S> {
    /// Whether two states hold as many samples.
    pub open spec fn same_size(&self, other: &AllpassFilterState<S>) -> bool {
        self.line@.len() == other.line@.len()
    }
}

/// All-pass filter on a delay line of `delay_samples` samples.
#[derive(Debug, Clone, Copy)]
pub struct AllpassFilter<S> {
    pub delay_samples: usize,
    pub gain: S,
}

impl<S: Sample> AllpassFilter<S> {
    /// One sample: `-g x + d + g d` for the sample `d` from the line, into which `x
    /// + g d` goes.
    pub open spec fn tick_spec(&self, st: DelayView<S>, x: S) -> (DelayView<S>, S) {
        let delayed = st.head();
        let y = self.gain.neg().mul(x).add(delayed).add(self.gain.mul(delayed));
        (st.push(x.add(self.gain.mul(delayed))), y)
    }

    /// Performs `tick_spec` on the state in place and returns the sample.
    pub fn tick(&self, st: &mut AllpassFilterState<S>, x: S) -> (y: S)
        ensures
            final(st).same_size(old(st)),
            final(st).line@.cursor == old(st).line@.step().cursor,
            S::obeys_sample_spec() ==> (final(st)@, y) == self.tick_spec(old(st)@, x),
    {
        let delayed = st.line.read();
        let y = self.gain.neg().mul(x).add(delayed).add(self.gain.mul(delayed));
        st.line.push(x.add(self.gain.mul(delayed)));
        y
    }

    /// The node as a recursion over the samples of a block: the state before
    /// sample `i` to the state after it and the sample put out.
    pub open spec fn stepper(
        &self,
        inputs: Seq<Seq<S>>,
        sample_rate: S,
    ) -> spec_fn(DelayView<S>, int) -> (DelayView<S>, S) {
        |st: DelayView<S>, i: int| self.tick_spec(st, inputs[0][i])
    }

    /// The inputs that the node declares.
    pub fn input_ports(&self) -> (r: Vec<Port>)
        ensures
            r@ == audio_ports(1),
    {
        make_audio_ports(1)
    }

    /// The outputs that the node declares.
    pub fn output_ports(&self) -> (r: Vec<Port>)
        ensures
            r@ == audio_ports(1),
    {
        make_audio_ports(1)
    }

    /// The number of inputs that must be connected.
    pub fn required_inputs(&self) -> (r: usize)
        ensures
            r == 1,
    {
        1
    }

    /// The length of the delay line in samples.
    pub open spec fn line_len_spec(&self, sample_rate: S) -> usize {
        self.delay_samples
    }

    /// Computes `line_len_spec`.
    #[verifier::when_used_as_spec(line_len_spec)]
    pub fn line_len(&self, sample_rate: S) -> (r: usize)
        ensures
            S::obeys_sample_spec() ==> r == self.line_len_spec(sample_rate),
    {
        self.delay_samples
    }

    /// The state before the first sample: a line of zeros.
    pub open spec fn fresh(&self, sample_rate: S) -> DelayView<S> {
        DelayView::filled(self.line_len(sample_rate) as nat, S::zero())
    }

    /// Makes the state for one instance of the node. This is where its line is
    /// allocated.
    pub fn init_state(&self, sample_rate: S, _block_size: usize) -> (st: AllpassFilterState<S>)
        ensures
            S::obeys_sample_spec() ==> st@ == self.fresh(sample_rate),
    {
        AllpassFilterState { line: DelayLine::new(self.line_len(sample_rate), S::zero()) }
    }

    /// Puts the state back to a line of zeros of the same length, which is what
    /// `init_state` returned for it.
    pub fn reset(&self, state: &mut AllpassFilterState<S>)
        ensures
            final(state).same_size(old(state)),
            S::obeys_sample_spec() ==> final(state)@ == old(state)@.cleared(S::zero()),
    {
        state.line.clear(S::zero());
    }

    /// A reset right after `init_state` changes nothing.
    pub proof fn lemma_reset_after_init(&self, sample_rate: S)
        ensures
            self.fresh(sample_rate).cleared(S::zero()) == self.fresh(sample_rate),
    {
        lemma_clear_after_new(self.line_len(sample_rate) as nat, S::zero());
    }

    /// Processes one block: runs the recursion over the samples of the block and
    /// writes output 0. A call whose slices do not fit is refused and changes
    /// nothing. Nothing is allocated.
    pub fn process_block(
        &self,
        state: &mut AllpassFilterState<S>,
        inputs: &[&[S]],
        outputs: &mut [Vec<S>],
        sample_rate: S,
    ) -> (r: Result<(), ShapeError>)
        ensures
            r == shape_verdict(rows(inputs), cols(old(outputs)@), 1, 1, 1, 1),
            same_lens(final(outputs)@, old(outputs)@),
            same_from(final(outputs)@, old(outputs)@, 1),
            final(state).same_size(old(state)),
            r.is_err() ==> final(state)@ == old(state)@ && final(outputs)@ == old(outputs)@,
            r.is_ok() ==> final(state).line@.cursor == cursor_after(
                old(state).line@.cursor,
                old(state).line@.len(),
                final(outputs)@[0]@.len(),
            ),
            r.is_ok() && S::obeys_sample_spec() ==> renders(
                self.stepper(rows(inputs), sample_rate),
                old(state)@,
                final(state)@,
                final(outputs)@[0]@,
            ),
    {
        let n: usize = match check_block(inputs, outputs, 1, 1, 1, 1) {
            Ok(n) => n,
            Err(e) => {
                return Err(e);
            },
        };
        let ghost f = self.stepper(rows(inputs), sample_rate);
        let ghost st0 = state@;
        let mut i: usize = 0;
        while i < n
            invariant
                i <= n,
                inputs@.len() >= 1,
                outputs@.len() >= 1,
                outputs@[0]@.len() == n,
                forall|p: int| 0 <= p < 1 ==> (#[trigger] inputs@[p])@.len() == n,
                same_lens(outputs@, old(outputs)@),
                same_from(outputs@, old(outputs)@, 1),
                state.same_size(old(state)),
                state.line@.cursor == cursor_after(
                    old(state).line@.cursor,
                    old(state).line@.len(),
                    i as nat,
                ),
                f == self.stepper(rows(inputs), sample_rate),
                S::obeys_sample_spec() ==> state@ == state_after(f, st0, i as nat),
                S::obeys_sample_spec() ==> forall|j: int|
                    0 <= j < i ==> outputs@[0]@[j] == #[trigger] output_at(f, st0, j),
            decreases n - i,
        {
            let x = read_at(inputs, 0, i);
            let y = self.tick(state, x);
            outputs[0][i] = y;
            i += 1;
        }
        Ok(())
    }
}

impl<S: Sample> CombFilter<S> {
    /// What the loop makes of a sample `c` from the line where no modulation
    /// is connected: `c (1 - damp)` times the held feedback. The modulation,
    /// zero here, is added to the damping and to the feedback as in `tick`.
    pub open spec fn fed_back(&self, c: S) -> S {
        let feedback = stable_feedback(self.feedback.add(S::zero()));
        let damp = self.damp.add(S::zero());
        let damped = c.mul(S::one().sub(damp));
        damped.mul(feedback)
    }
}

/// The comb filter does not run away. Let `size` measure samples so that a sum
/// measures at most the sum of what its terms measure, and let the loop of the
/// node take every sample that measures at most `bound` to one that measures
/// at most `bound - peak`: for a loop that shrinks by a factor `g` below one,
/// that is the bound `peak / (1 - g)`. Then from a line whose samples measure
/// at most `bound`, with no modulation connected and inputs that measure at
/// most `peak`, every sample put out measures at most `bound`, however long
/// the node runs, and so does every sample that the line holds afterwards.
pub proof fn lemma_comb_stays_bounded<S: Sample>(
    node: CombFilter<S>,
    st: DelayView<S>,
    inputs: Seq<Seq<S>>,
    sample_rate: S,
    k: nat,
    size: spec_fn(S) -> int,
    peak: int,
    bound: int,
)
    requires
        st.wf(),
        inputs.len() == 1,
        forall|j: int| 0 <= j < st.len() ==> size(#[trigger] st.samples[j]) <= bound,
        forall|i: int| 0 <= i < k ==> size(#[trigger] inputs[0][i]) <= peak,
        forall|a: S, b: S| size(#[trigger] a.add(b)) <= size(a) + size(b),
        forall|c: S| size(c) <= bound ==> size(#[trigger] node.fed_back(c)) <= bound - peak,
    ensures
        forall|i: int| 0 <= i < k ==>
            size(#[trigger] output_at(node.stepper(inputs, sample_rate), st, i)) <= bound,
        ({
            let end = state_after(node.stepper(inputs, sample_rate), st, k);
            &&& end.wf()
            &&& end.len() == st.len()
            &&& forall|j: int| 0 <= j < end.len() ==> size(#[trigger] end.samples[j]) <= bound
        }),
{
    let f = node.stepper(inputs, sample_rate);
    let kept = |s: DelayView<S>|
        s.wf() && s.len() == st.len() && forall|j: int| 0 <= j < s
            .len() ==> size(#[trigger] s.samples[j]) <= bound;
    let fine = |y: S| size(y) <= bound;
    assert forall|s: DelayView<S>, i: int| 0 <= i < k && kept(s) implies kept((#[trigger] f(s, i)).0) && fine(
        f(s, i).1,
    ) by {
        let x = inputs[0][i];
        let y = x.add(node.fed_back(s.head()));
        assert(f(s, i) == (s.push(y), y));
        assert(size(s.samples[s.cursor]) <= bound);
        assert(size(node.fed_back(s.head())) <= bound - peak);
        assert(size(y) <= bound);
        let next = s.push(y);
        assert(0 <= (s.cursor + 1) % (s.len() as int) < s.len());
        assert forall|j: int| 0 <= j < next
            .len() implies size(#[trigger] next.samples[j]) <= bound by {
            if j != s.cursor {
                assert(next.samples[j] == s.samples[j]);
            }
        }
    }
    lemma_run_keeps(f, st, k, kept, fine);
}

impl<S: Sample> LadderFilter<S> {
    /// The gain `p` of a stage and the feedback of the loop at a sample rate,
    /// where no modulation is connected. The modulation, zero here, is added
    /// to the cutoff and to the resonance as in `tick`.
    pub open spec fn gains(&self, sample_rate: S) -> (S, S) {
        let cutoff = self.cutoff.add(S::zero());
        let resonance = self.resonance.add(S::zero()).clamp(S::zero(), S::ratio(99, 100));
        let fc = cutoff.div(sample_rate);
        let k = S::ratio(36, 10).mul(fc).sub(S::ratio(16, 10).mul(fc).mul(fc)).sub(S::one());
        let p = k.add(S::one()).mul(S::ratio(5, 10));
        (p, resonance.mul(S::one().sub(p).powi(4)))
    }

    /// What goes into the first stage: the driven input less the last output
    /// `z` times the feedback.
    pub open spec fn fed(&self, x: S, z: S, sample_rate: S) -> S {
        let feedback = self.gains(sample_rate).1;
        x.mul(self.drive).sub(feedback.mul(z))
    }

    /// What a stage puts out: the mix of what it takes in, `a`, and what it
    /// holds, `z`, by its gain.
    pub open spec fn stage(&self, a: S, z: S, sample_rate: S) -> S {
        let p = self.gains(sample_rate).0;
        a.mul(p).add(z.mul(S::one().sub(p)))
    }
}

/// The ladder filter does not run away. Let `size` measure samples so that a
/// stage puts out no more than `bound` where what it takes in and what it
/// holds measure at most `bound`, and so that the driven input less the
/// output fed back measures at most `bound` where the input measures at most
/// `peak` and the output at most `bound`: for a feedback `q` below one and a
/// drive of one, that is the bound `peak / (1 - q)`. Then from stages that
/// measure at most `bound`, with no modulation connected and inputs that
/// measure at most `peak`, every sample put out measures at most `bound`,
/// however long the node runs, and so do the four stages afterwards.
pub proof fn lemma_ladder_stays_bounded<S: Sample>(
    node: LadderFilter<S>,
    st: LadderState<S>,
    inputs: Seq<Seq<S>>,
    sample_rate: S,
    k: nat,
    size: spec_fn(S) -> int,
    peak: int,
    bound: int,
)
    requires
        inputs.len() == 1,
        size(st.z1) <= bound && size(st.z2) <= bound && size(st.z3) <= bound && size(st.z4) <= bound,
        forall|i: int| 0 <= i < k ==> size(#[trigger] inputs[0][i]) <= peak,
        forall|x: S, z: S| size(x) <= peak && size(z) <= bound ==>
            size(#[trigger] node.fed(x, z, sample_rate)) <= bound,
        forall|a: S, z: S|
            size(a) <= bound && size(z) <= bound ==>
                size(#[trigger] node.stage(a, z, sample_rate)) <= bound,
    ensures
        forall|i: int| 0 <= i < k ==>
            size(#[trigger] output_at(node.stepper(inputs, sample_rate), st, i)) <= bound,
        ({
            let end = state_after(node.stepper(inputs, sample_rate), st, k);
            size(end.z1) <= bound && size(end.z2) <= bound && size(end.z3) <= bound && size(end.z4) <= bound
        }),
{
    let f = node.stepper(inputs, sample_rate);
    let kept = |s: LadderState<S>|
        size(s.z1) <= bound && size(s.z2) <= bound && size(s.z3) <= bound && size(s.z4) <= bound;
    let fine = |y: S| size(y) <= bound;
    assert forall|s: LadderState<S>, i: int| 0 <= i < k && kept(s) implies kept((#[trigger] f(s, i)).0) && fine(
        f(s, i).1,
    ) by {
        let x = inputs[0][i];
        let fed = node.fed(x, s.z4, sample_rate);
        let y1 = node.stage(fed, s.z1, sample_rate);
        let y2 = node.stage(y1, s.z2, sample_rate);
        let y3 = node.stage(y2, s.z3, sample_rate);
        let y4 = node.stage(y3, s.z4, sample_rate);
        assert(f(s, i) == (LadderState { z1: y1, z2: y2, z3: y3, z4: y4 }, y4));
        assert(size(fed) <= bound);
        assert(size(y1) <= bound);
        assert(size(y2) <= bound);
        assert(size(y3) <= bound);
        assert(size(y4) <= bound);
    }
    lemma_run_keeps(f, st, k, kept, fine);
}

} // verus!
