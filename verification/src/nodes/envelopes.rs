//! Envelope generators driven by a gate signal: finite state machines whose
//! level follows straight or exponential segments.

use crate::block::{
    audio_ports, check_block, cols, make_audio_ports, output_at, read_at, renders, rows, same_from,
    same_lens, shape_verdict, state_after, Port, ShapeError,
};
use crate::sample::Sample;
use vstd::prelude::*;

verus! {

/// Whether a gate sample counts as high: above one half.
pub open spec fn gate_is_on_spec<S: Sample>(gate: S) -> bool {
    gate.gt(S::ratio(5, 10))
}

/// Computes `gate_is_on_spec`.
#[verifier::when_used_as_spec(gate_is_on_spec)]
pub fn gate_is_on<S: Sample>(gate: S) -> (r: bool)
    ensures
        S::obeys_sample_spec() ==> r == gate_is_on_spec::<S>(gate),
{
    gate.gt(S::ratio(5, 10))
}

/// The part of a stage that has passed, from zero to one: the elapsed time over
/// the stage's length, which is given in milliseconds.
pub open spec fn stage_progress_spec<S: Sample>(elapsed: S, length_ms: S) -> S {
    elapsed.div(length_ms.div(S::ratio(1000, 1))).min(S::one())
}

/// Computes `stage_progress_spec`.
#[verifier::when_used_as_spec(stage_progress_spec)]
pub fn stage_progress<S: Sample>(elapsed: S, length_ms: S) -> (r: S)
    ensures
        S::obeys_sample_spec() ==> r == stage_progress_spec::<S>(elapsed, length_ms),
{
    elapsed.div(length_ms.div(S::ratio(1000, 1))).min(S::one())
}

/// Whether a stage of `length_ms` milliseconds is over after `elapsed` seconds.
pub open spec fn stage_done_spec<S: Sample>(elapsed: S, length_ms: S) -> bool {
    elapsed.ge(length_ms.div(S::ratio(1000, 1)))
}

/// Computes `stage_done_spec`.
#[verifier::when_used_as_spec(stage_done_spec)]
pub fn stage_done<S: Sample>(elapsed: S, length_ms: S) -> (r: bool)
    ensures
        S::obeys_sample_spec() ==> r == stage_done_spec::<S>(elapsed, length_ms),
{
    elapsed.ge(length_ms.div(S::ratio(1000, 1)))
}

/// The level of a rising segment at progress `t`: `t` itself for a curve of
/// zero or less, else `1 - exp(-t * curve)`.
pub open spec fn rise_spec<S: Sample>(t: S, curve: S) -> S {
    if curve.gt(S::zero()) {
        S::one().sub(t.neg().mul(curve).exp())
    } else {
        t
    }
}

/// Computes `rise_spec`.
#[verifier::when_used_as_spec(rise_spec)]
pub fn rise<S: Sample>(t: S, curve: S) -> (r: S)
    ensures
        S::obeys_sample_spec() ==> r == rise_spec::<S>(t, curve),
{
    if curve.gt(S::zero()) {
        S::one().sub(t.neg().mul(curve).exp())
    } else {
        t
    }
}

/// The factor of a falling segment at progress `t`: `1 - t` for a curve of zero
/// or less, else `exp(-t * curve)`.
pub open spec fn fall_spec<S: Sample>(t: S, curve: S) -> S {
    if curve.gt(S::zero()) {
        t.neg().mul(curve).exp()
    } else {
        S::one().sub(t)
    }
}

/// Computes `fall_spec`.
#[verifier::when_used_as_spec(fall_spec)]
pub fn fall<S: Sample>(t: S, curve: S) -> (r: S)
    ensures
        S::obeys_sample_spec() ==> r == fall_spec::<S>(t, curve),
{
    if curve.gt(S::zero()) {
        t.neg().mul(curve).exp()
    } else {
        S::one().sub(t)
    }
}

/// Phases of the four-stage envelope.
#[derive(Debug, Clone, Copy, PartialEq, Eq, Structural)]
pub enum AdsrPhase {
    Idle,
    Attack,
    Decay,
    Sustain,
    Release,
}

/// State of an ADSR envelope.
#[derive(Debug, Clone, Copy)]
pub struct AdsrState<S> {
    pub phase: AdsrPhase,
    /// The last sample put out.
    pub level: S,
    /// Seconds spent in the current phase.
    pub time_accum: S,
    /// Whether the last gate sample was high.
    pub gate_high: bool,
}

/// Attack, decay, sustain and release, driven by a gate signal on input 0.
/// Times are in milliseconds.
#[derive(Debug, Clone, Copy)]
pub struct AdsrEnvelope<S> {
    pub attack_ms: S,
    pub decay_ms: S,
    pub sustain_level: S,
    pub release_ms: S,
    /// Zero or below for straight segments, above zero for exponential ones.
    pub curve: S,
}

impl<S: Sample> AdsrEnvelope<S> {
    /// One sample of the envelope: the state after it and its level, which is the
    /// sample put out. A gate that rises above one half starts the attack from
    /// idle; a gate at or below it sends every other phase but release to release;
    /// a stage that is over hands on to the next, and the release to idle at level
    /// zero.
    pub open spec fn tick_spec(
        &self,
        st: AdsrState<S>,
        gate: S,
        sample_rate: S,
    ) -> (AdsrState<S>, S) {
        let gate_on = gate_is_on(gate);
        let dt = S::one().div(sample_rate);
        let time = st.time_accum.add(dt);
        let next = match st.phase {
            AdsrPhase::Idle => {
                if gate_on && !st.gate_high {
                    AdsrState {
                        phase: AdsrPhase::Attack,
                        level: S::zero(),
                        time_accum: S::zero(),
                        gate_high: gate_on,
                    }
                } else {
                    AdsrState {
                        phase: AdsrPhase::Idle,
                        level: S::zero(),
                        time_accum: st.time_accum,
                        gate_high: gate_on,
                    }
                }
            },
            AdsrPhase::Attack => {
                let level = rise(stage_progress(time, self.attack_ms), self.curve);
                if !gate_on {
                    AdsrState {
                        phase: AdsrPhase::Release,
                        level,
                        time_accum: S::zero(),
                        gate_high: gate_on,
                    }
                } else if stage_done(time, self.attack_ms) {
                    AdsrState {
                        phase: AdsrPhase::Decay,
                        level,
                        time_accum: S::zero(),
                        gate_high: gate_on,
                    }
                } else {
                    AdsrState {
                        phase: AdsrPhase::Attack,
                        level,
                        time_accum: time,
                        gate_high: gate_on,
                    }
                }
            },
            AdsrPhase::Decay => {
                let factor = fall(stage_progress(time, self.decay_ms), self.curve);
                let level = self.sustain_level.add(S::one().sub(self.sustain_level).mul(factor));
                if !gate_on {
                    AdsrState {
                        phase: AdsrPhase::Release,
                        level,
                        time_accum: S::zero(),
                        gate_high: gate_on,
                    }
                } else if stage_done(time, self.decay_ms) {
                    AdsrState {
                        phase: AdsrPhase::Sustain,
                        level,
                        time_accum: time,
                        gate_high: gate_on,
                    }
                } else {
                    AdsrState {
                        phase: AdsrPhase::Decay,
                        level,
                        time_accum: time,
                        gate_high: gate_on,
                    }
                }
            },
            AdsrPhase::Sustain => {
                if !gate_on {
                    AdsrState {
                        phase: AdsrPhase::Release,
                        level: self.sustain_level,
                        time_accum: S::zero(),
                        gate_high: gate_on,
                    }
                } else {
                    AdsrState {
                        phase: AdsrPhase::Sustain,
                        level: self.sustain_level,
                        time_accum: st.time_accum,
                        gate_high: gate_on,
                    }
                }
            },
            AdsrPhase::Release => {
                let factor = fall(stage_progress(time, self.release_ms), self.curve);
                if stage_done(time, self.release_ms) {
                    AdsrState {
                        phase: AdsrPhase::Idle,
                        level: S::zero(),
                        time_accum: time,
                        gate_high: gate_on,
                    }
                } else {
                    AdsrState {
                        phase: AdsrPhase::Release,
                        level: self.sustain_level.mul(factor),
                        time_accum: time,
                        gate_high: gate_on,
                    }
                }
            },
        };
        (next, next.level)
    }

    /// Computes `tick_spec`.
    #[verifier::when_used_as_spec(tick_spec)]
    pub fn tick(&self, st: AdsrState<S>, gate: S, sample_rate: S) -> (r: (AdsrState<S>, S))
        ensures
            S::obeys_sample_spec() ==> r == self.tick_spec(st, gate, sample_rate),
    {
        let gate_on = gate_is_on(gate);
        let dt = S::one().div(sample_rate);
        let time = st.time_accum.add(dt);
        let next = match st.phase {
            AdsrPhase::Idle => {
                if gate_on && !st.gate_high {
                    AdsrState {
                        phase: AdsrPhase::Attack,
                        level: S::zero(),
                        time_accum: S::zero(),
                        gate_high: gate_on,
                    }
                } else {
                    AdsrState {
                        phase: AdsrPhase::Idle,
                        level: S::zero(),
                        time_accum: st.time_accum,
                        gate_high: gate_on,
                    }
                }
            },
            AdsrPhase::Attack => {
                let level = rise(stage_progress(time, self.attack_ms), self.curve);
                if !gate_on {
                    AdsrState {
                        phase: AdsrPhase::Release,
                        level,
                        time_accum: S::zero(),
                        gate_high: gate_on,
                    }
                } else if stage_done(time, self.attack_ms) {
                    AdsrState {
                        phase: AdsrPhase::Decay,
                        level,
                        time_accum: S::zero(),
                        gate_high: gate_on,
                    }
                } else {
                    AdsrState {
                        phase: AdsrPhase::Attack,
                        level,
                        time_accum: time,
                        gate_high: gate_on,
                    }
                }
            },
            AdsrPhase::Decay => {
                let factor = fall(stage_progress(time, self.decay_ms), self.curve);
                let level = self.sustain_level.add(S::one().sub(self.sustain_level).mul(factor));
                if !gate_on {
                    AdsrState {
                        phase: AdsrPhase::Release,
                        level,
                        time_accum: S::zero(),
                        gate_high: gate_on,
                    }
                } else if stage_done(time, self.decay_ms) {
                    AdsrState {
                        phase: AdsrPhase::Sustain,
                        level,
                        time_accum: time,
                        gate_high: gate_on,
                    }
                } else {
                    AdsrState {
                        phase: AdsrPhase::Decay,
                        level,
                        time_accum: time,
                        gate_high: gate_on,
                    }
                }
            },
            AdsrPhase::Sustain => {
                if !gate_on {
                    AdsrState {
                        phase: AdsrPhase::Release,
                        level: self.sustain_level,
                        time_accum: S::zero(),
                        gate_high: gate_on,
                    }
                } else {
                    AdsrState {
                        phase: AdsrPhase::Sustain,
                        level: self.sustain_level,
                        time_accum: st.time_accum,
                        gate_high: gate_on,
                    }
                }
            },
            AdsrPhase::Release => {
                let factor = fall(stage_progress(time, self.release_ms), self.curve);
                if stage_done(time, self.release_ms) {
                    AdsrState {
                        phase: AdsrPhase::Idle,
                        level: S::zero(),
                        time_accum: time,
                        gate_high: gate_on,
                    }
                } else {
                    AdsrState {
                        phase: AdsrPhase::Release,
                        level: self.sustain_level.mul(factor),
                        time_accum: time,
                        gate_high: gate_on,
                    }
                }
            },
        };
        (next, next.level)
    }

    /// The node as a recursion over the samples of a block: the state before
    /// sample `i` to the state after it and the sample put out.
    pub open spec fn stepper(
        &self,
        inputs: Seq<Seq<S>>,
        sample_rate: S,
    ) -> spec_fn(AdsrState<S>, int) -> (AdsrState<S>, S) {
        |st: AdsrState<S>, i: int| self.tick(st, inputs[0][i], sample_rate)
    }

    /// The inputs that the node declares.
    pub fn input_ports(&self) -> (r: Vec<Port>)
        ensures
            r@ == audio_ports(1),
    {
        make_audio_ports(1)
    }

    /// The outputs that the node declares.
    pub fn output_ports(&self) -> (r: Vec<Port>)
        ensures
            r@ == audio_ports(1),
    {
        make_audio_ports(1)
    }

    /// The number of inputs that must be connected.
    pub fn required_inputs(&self) -> (r: usize)
        ensures
            r == 1,
    {
        1
    }

    /// The state before the first sample.
    pub open spec fn fresh() -> AdsrState<S> {
        AdsrState {
            phase: AdsrPhase::Idle,
            level: S::zero(),
            time_accum: S::zero(),
            gate_high: false,
        }
    }

    /// Makes the state for one instance of the node.
    pub fn init_state(&self, _sample_rate: S, _block_size: usize) -> (st: AdsrState<S>)
        ensures
            S::obeys_sample_spec() ==> st == Self::fresh(),
    {
        AdsrState {
            phase: AdsrPhase::Idle,
            level: S::zero(),
            time_accum: S::zero(),
            gate_high: false,
        }
    }

    /// Puts the state back to what `init_state` returns.
    pub fn reset(&self, state: &mut AdsrState<S>)
        ensures
            S::obeys_sample_spec() ==> *final(state) == Self::fresh(),
    {
        *state = AdsrState {
            phase: AdsrPhase::Idle,
            level: S::zero(),
            time_accum: S::zero(),
            gate_high: false,
        };
    }

    /// Processes one block: runs the recursion over the samples of the block and
    /// writes output 0. A call whose slices do not fit is refused and changes
    /// nothing. Nothing is allocated.
    pub fn process_block(
        &self,
        state: &mut AdsrState<S>,
        inputs: &[&[S]],
        outputs: &mut [Vec<S>],
        sample_rate: S,
    ) -> (r: Result<(), ShapeError>)
        ensures
            r == shape_verdict(rows(inputs), cols(old(outputs)@), 1, 1, 1, 1),
            same_lens(final(outputs)@, old(outputs)@),
            same_from(final(outputs)@, old(outputs)@, 1),
            r.is_err() ==> *final(state) == *old(state) && final(outputs)@ == old(outputs)@,
            r.is_ok() && S::obeys_sample_spec() ==> renders(
                self.stepper(rows(inputs), sample_rate),
                *old(state),
                *final(state),
                final(outputs)@[0]@,
            ),
    {
        let n: usize = match check_block(inputs, outputs, 1, 1, 1, 1) {
            Ok(n) => n,
            Err(e) => {
                return Err(e);
            },
        };
        let ghost f = self.stepper(rows(inputs), sample_rate);
        let ghost st0 = *state;
        let mut i: usize = 0;
        while i < n
            invariant
                i <= n,
                inputs@.len() >= 1,
                outputs@.len() >= 1,
                outputs@[0]@.len() == n,
                forall|p: int| 0 <= p < 1 ==> (#[trigger] inputs@[p])@.len() == n,
                same_lens(outputs@, old(outputs)@),
                same_from(outputs@, old(outputs)@, 1),
                f == self.stepper(rows(inputs), sample_rate),
                S::obeys_sample_spec() ==> *state == state_after(f, st0, i as nat),
                S::obeys_sample_spec() ==> forall|j: int|
                    0 <= j < i ==> outputs@[0]@[j] == #[trigger] output_at(f, st0, j),
            decreases n - i,
        {
            let gate = read_at(inputs, 0, i);
            let (next, y) = self.tick(*state, gate, sample_rate);
            *state = next;
            outputs[0][i] = y;
            i += 1;
        }
        Ok(())
    }
}

/// Phases of the attack-release envelope.
#[derive(Debug, Clone, Copy, PartialEq, Eq, Structural)]
pub enum ArPhase {
    Idle,
    Attack,
    Release,
}

/// State of an AR envelope.
#[derive(Debug, Clone, Copy)]
pub struct ArState<S> {
    pub phase: ArPhase,
    /// The last sample put out.
    pub level: S,
    /// Seconds spent in the current phase.
    pub time_accum: S,
    /// Whether the last gate sample was high.
    pub gate_high: bool,
}

/// Attack and release, driven by a gate signal on input 0. The level stays at
/// one after the attack for as long as its gate is high.
#[derive(Debug, Clone, Copy)]
pub struct ArEnvelope<S> {
    pub attack_ms: S,
    pub release_ms: S,
    /// Zero or below for straight segments, above zero for exponential ones.
    pub curve: S,
}

impl<S: Sample> ArEnvelope<S> {
    /// One sample of the envelope: the state after it and its level, which is the
    /// sample put out. Only a gate that rises above one half starts the attack from
    /// idle.
    pub open spec fn tick_spec(&self, st: ArState<S>, gate: S, sample_rate: S) -> (ArState<S>, S) {
        let gate_on = gate_is_on(gate);
        let dt = S::one().div(sample_rate);
        let time = st.time_accum.add(dt);
        let next = match st.phase {
            ArPhase::Idle => {
                if gate_on && !st.gate_high {
                    ArState {
                        phase: ArPhase::Attack,
                        level: S::zero(),
                        time_accum: S::zero(),
                        gate_high: gate_on,
                    }
                } else {
                    ArState {
                        phase: ArPhase::Idle,
                        level: S::zero(),
                        time_accum: st.time_accum,
                        gate_high: gate_on,
                    }
                }
            },
            ArPhase::Attack => {
                let level = if stage_done(time, self.attack_ms) {
                    S::one()
                } else {
                    rise(stage_progress(time, self.attack_ms), self.curve)
                };
                if !gate_on {
                    ArState {
                        phase: ArPhase::Release,
                        level,
                        time_accum: S::zero(),
                        gate_high: gate_on,
                    }
                } else {
                    ArState { phase: ArPhase::Attack, level, time_accum: time, gate_high: gate_on }
                }
            },
            ArPhase::Release => {
                let factor = fall(stage_progress(time, self.release_ms), self.curve);
                if stage_done(time, self.release_ms) {
                    ArState {
                        phase: ArPhase::Idle,
                        level: S::zero(),
                        time_accum: time,
                        gate_high: gate_on,
                    }
                } else {
                    ArState {
                        phase: ArPhase::Release,
                        level: st.level.mul(factor),
                        time_accum: time,
                        gate_high: gate_on,
                    }
                }
            },
        };
        (next, next.level)
    }

    /// Computes `tick_spec`.
    #[verifier::when_used_as_spec(tick_spec)]
    pub fn tick(&self, st: ArState<S>, gate: S, sample_rate: S) -> (r: (ArState<S>, S))
        ensures
            S::obeys_sample_spec() ==> r == self.tick_spec(st, gate, sample_rate),
    {
        let gate_on = gate_is_on(gate);
        let dt = S::one().div(sample_rate);
        let time = st.time_accum.add(dt);
        let next = match st.phase {
            ArPhase::Idle => {
                if gate_on && !st.gate_high {
                    ArState {
                        phase: ArPhase::Attack,
                        level: S::zero(),
                        time_accum: S::zero(),
                        gate_high: gate_on,
                    }
                } else {
                    ArState {
                        phase: ArPhase::Idle,
                        level: S::zero(),
                        time_accum: st.time_accum,
                        gate_high: gate_on,
                    }
                }
            },
            ArPhase::Attack => {
                let level = if stage_done(time, self.attack_ms) {
                    S::one()
                } else {
                    rise(stage_progress(time, self.attack_ms), self.curve)
                };
                if !gate_on {
                    ArState {
                        phase: ArPhase::Release,
                        level,
                        time_accum: S::zero(),
                        gate_high: gate_on,
                    }
                } else {
                    ArState { phase: ArPhase::Attack, level, time_accum: time, gate_high: gate_on }
                }
            },
            ArPhase::Release => {
                let factor = fall(stage_progress(time, self.release_ms), self.curve);
                if stage_done(time, self.release_ms) {
                    ArState {
                        phase: ArPhase::Idle,
                        level: S::zero(),
                        time_accum: time,
                        gate_high: gate_on,
                    }
                } else {
                    ArState {
                        phase: ArPhase::Release,
                        level: st.level.mul(factor),
                        time_accum: time,
                        gate_high: gate_on,
                    }
                }
            },
        };
        (next, next.level)
    }

    /// The node as a recursion over the samples of a block: the state before
    /// sample `i` to the state after it and the sample put out.
    pub open spec fn stepper(
        &self,
        inputs: Seq<Seq<S>>,
        sample_rate: S,
    ) -> spec_fn(ArState<S>, int) -> (ArState<S>, S) {
        |st: ArState<S>, i: int| self.tick(st, inputs[0][i], sample_rate)
    }

    /// The inputs that the node declares.
    pub fn input_ports(&self) -> (r: Vec<Port>)
        ensures
            r@ == audio_ports(1),
    {
        make_audio_ports(1)
    }

    /// The outputs that the node declares.
    pub fn output_ports(&self) -> (r: Vec<Port>)
        ensures
            r@ == audio_ports(1),
    {
        make_audio_ports(1)
    }

    /// The number of inputs that must be connected.
    pub fn required_inputs(&self) -> (r: usize)
        ensures
            r == 1,
    {
        1
    }

    /// The state before the first sample.
    pub open spec fn fresh() -> ArState<S> {
        ArState { phase: ArPhase::Idle, level: S::zero(), time_accum: S::zero(), gate_high: false }
    }

    /// Makes the state for one instance of the node.
    pub fn init_state(&self, _sample_rate: S, _block_size: usize) -> (st: ArState<S>)
        ensures
            S::obeys_sample_spec() ==> st == Self::fresh(),
    {
        ArState { phase: ArPhase::Idle, level: S::zero(), time_accum: S::zero(), gate_high: false }
    }

    /// Puts the state back to what `init_state` returns.
    pub fn reset(&self, state: &mut ArState<S>)
        ensures
            S::obeys_sample_spec() ==> *final(state) == Self::fresh(),
    {
        *state = ArState {
            phase: ArPhase::Idle,
            level: S::zero(),
            time_accum: S::zero(),
            gate_high: false,
        };
    }

    /// Processes one block: runs the recursion over the samples of the block and
    /// writes output 0. A call whose slices do not fit is refused and changes
    /// nothing. Nothing is allocated.
    pub fn process_block(
        &self,
        state: &mut ArState<S>,
        inputs: &[&[S]],
        outputs: &mut [Vec<S>],
        sample_rate: S,
    ) -> (r: Result<(), ShapeError>)
        ensures
            r == shape_verdict(rows(inputs), cols(old(outputs)@), 1, 1, 1, 1),
            same_lens(final(outputs)@, old(outputs)@),
            same_from(final(outputs)@, old(outputs)@, 1),
            r.is_err() ==> *final(state) == *old(state) && final(outputs)@ == old(outputs)@,
            r.is_ok() && S::obeys_sample_spec() ==> renders(
                self.stepper(rows(inputs), sample_rate),
                *old(state),
                *final(state),
                final(outputs)@[0]@,
            ),
    {
        let n: usize = match check_block(inputs, outputs, 1, 1, 1, 1) {
            Ok(n) => n,
            Err(e) => {
                return Err(e);
            },
        };
        let ghost f = self.stepper(rows(inputs), sample_rate);
        let ghost st0 = *state;
        let mut i: usize = 0;
        while i < n
            invariant
                i <= n,
                inputs@.len() >= 1,
                outputs@.len() >= 1,
                outputs@[0]@.len() == n,
                forall|p: int| 0 <= p < 1 ==> (#[trigger] inputs@[p])@.len() == n,
                same_lens(outputs@, old(outputs)@),
                same_from(outputs@, old(outputs)@, 1),
                f == self.stepper(rows(inputs), sample_rate),
                S::obeys_sample_spec() ==> *state == state_after(f, st0, i as nat),
                S::obeys_sample_spec() ==> forall|j: int|
                    0 <= j < i ==> outputs@[0]@[j] == #[trigger] output_at(f, st0, j),
            decreases n - i,
        {
            let gate = read_at(inputs, 0, i);
            let (next, y) = self.tick(*state, gate, sample_rate);
            *state = next;
            outputs[0][i] = y;
            i += 1;
        }
        Ok(())
    }
}

/// Phases of the attack-decay envelope.
#[derive(Debug, Clone, Copy, PartialEq, Eq, Structural)]
pub enum AdPhase {
    Idle,
    Attack,
    Decay,
}

/// State of an AD envelope.
#[derive(Debug, Clone, Copy)]
pub struct AdState<S> {
    pub phase: AdPhase,
    /// The last sample put out.
    pub level: S,
    /// Seconds spent in the current phase.
    pub time_accum: S,
    /// Whether the last gate sample was high.
    pub gate_high: bool,
}

/// Attack and decay, started by a gate signal that rises on input 0. The decay
/// follows the attack at once, or a fall of its gate; a gate signal that stays
/// high starts one shot only.
#[derive(Debug, Clone, Copy)]
pub struct AdEnvelope<S> {
    pub attack_ms: S,
    pub decay_ms: S,
    /// Zero or below for straight segments, above zero for exponential ones.
    pub curve: S,
}

impl<S: Sample> AdEnvelope<S> {
    /// One sample of the envelope: the state after it and its level, which is the
    /// sample put out. Only a gate that rises above one half starts the attack from
    /// idle.
    pub open spec fn tick_spec(&self, st: AdState<S>, gate: S, sample_rate: S) -> (AdState<S>, S) {
        let gate_on = gate_is_on(gate);
        let dt = S::one().div(sample_rate);
        let time = st.time_accum.add(dt);
        let next = match st.phase {
            AdPhase::Idle => {
                if gate_on && !st.gate_high {
                    AdState {
                        phase: AdPhase::Attack,
                        level: S::zero(),
                        time_accum: S::zero(),
                        gate_high: gate_on,
                    }
                } else {
                    AdState {
                        phase: AdPhase::Idle,
                        level: S::zero(),
                        time_accum: st.time_accum,
                        gate_high: gate_on,
                    }
                }
            },
            AdPhase::Attack => {
                let level = rise(stage_progress(time, self.attack_ms), self.curve);
                if !gate_on || stage_done(time, self.attack_ms) {
                    AdState {
                        phase: AdPhase::Decay,
                        level,
                        time_accum: S::zero(),
                        gate_high: gate_on,
                    }
                } else {
                    AdState { phase: AdPhase::Attack, level, time_accum: time, gate_high: gate_on }
                }
            },
            AdPhase::Decay => {
                let factor = fall(stage_progress(time, self.decay_ms), self.curve);
                if stage_done(time, self.decay_ms) {
                    AdState {
                        phase: AdPhase::Idle,
                        level: S::zero(),
                        time_accum: time,
                        gate_high: gate_on,
                    }
                } else {
                    AdState {
                        phase: AdPhase::Decay,
                        level: factor,
                        time_accum: time,
                        gate_high: gate_on,
                    }
                }
            },
        };
        (next, next.level)
    }

    /// Computes `tick_spec`.
    #[verifier::when_used_as_spec(tick_spec)]
    pub fn tick(&self, st: AdState<S>, gate: S, sample_rate: S) -> (r: (AdState<S>, S))
        ensures
            S::obeys_sample_spec() ==> r == self.tick_spec(st, gate, sample_rate),
    {
        let gate_on = gate_is_on(gate);
        let dt = S::one().div(sample_rate);
        let time = st.time_accum.add(dt);
        let next = match st.phase {
            AdPhase::Idle => {
                if gate_on && !st.gate_high {
                    AdState {
                        phase: AdPhase::Attack,
                        level: S::zero(),
                        time_accum: S::zero(),
                        gate_high: gate_on,
                    }
                } else {
                    AdState {
                        phase: AdPhase::Idle,
                        level: S::zero(),
                        time_accum: st.time_accum,
                        gate_high: gate_on,
                    }
                }
            },
            AdPhase::Attack => {
                let level = rise(stage_progress(time, self.attack_ms), self.curve);
                if !gate_on || stage_done(time, self.attack_ms) {
                    AdState {
                        phase: AdPhase::Decay,
                        level,
                        time_accum: S::zero(),
                        gate_high: gate_on,
                    }
                } else {
                    AdState { phase: AdPhase::Attack, level, time_accum: time, gate_high: gate_on }
                }
            },
            AdPhase::Decay => {
                let factor = fall(stage_progress(time, self.decay_ms), self.curve);
                if stage_done(time, self.decay_ms) {
                    AdState {
                        phase: AdPhase::Idle,
                        level: S::zero(),
                        time_accum: time,
                        gate_high: gate_on,
                    }
                } else {
                    AdState {
                        phase: AdPhase::Decay,
                        level: factor,
                        time_accum: time,
                        gate_high: gate_on,
                    }
                }
            },
        };
        (next, next.level)
    }

    /// The node as a recursion over the samples of a block: the state before
    /// sample `i` to the state after it and the sample put out.
    pub open spec fn stepper(
        &self,
        inputs: Seq<Seq<S>>,
        sample_rate: S,
    ) -> spec_fn(AdState<S>, int) -> (AdState<S>, S) {
        |st: AdState<S>, i: int| self.tick(st, inputs[0][i], sample_rate)
    }

    /// The inputs that the node declares.
    pub fn input_ports(&self) -> (r: Vec<Port>)
        ensures
            r@ == audio_ports(1),
    {
        make_audio_ports(1)
    }

    /// The outputs that the node declares.
    pub fn output_ports(&self) -> (r: Vec<Port>)
        ensures
            r@ == audio_ports(1),
    {
        make_audio_ports(1)
    }

    /// The number of inputs that must be connected.
    pub fn required_inputs(&self) -> (r: usize)
        ensures
            r == 1,
    {
        1
    }

    /// The state before the first sample.
    pub open spec fn fresh() -> AdState<S> {
        AdState { phase: AdPhase::Idle, level: S::zero(), time_accum: S::zero(), gate_high: false }
    }

    /// Makes the state for one instance of the node.
    pub fn init_state(&self, _sample_rate: S, _block_size: usize) -> (st: AdState<S>)
        ensures
            S::obeys_sample_spec() ==> st == Self::fresh(),
    {
        AdState { phase: AdPhase::Idle, level: S::zero(), time_accum: S::zero(), gate_high: false }
    }

    /// Puts the state back to what `init_state` returns.
    pub fn reset(&self, state: &mut AdState<S>)
        ensures
            S::obeys_sample_spec() ==> *final(state) == Self::fresh(),
    {
        *state = AdState {
            phase: AdPhase::Idle,
            level: S::zero(),
            time_accum: S::zero(),
            gate_high: false,
        };
    }

    /// Processes one block: runs the recursion over the samples of the block and
    /// writes output 0. A call whose slices do not fit is refused and changes
    /// nothing. Nothing is allocated.
    pub fn process_block(
        &self,
        state: &mut AdState<S>,
        inputs: &[&[S]],
        outputs: &mut [Vec<S>],
        sample_rate: S,
    ) -> (r: Result<(), ShapeError>)
        ensures
            r == shape_verdict(rows(inputs), cols(old(outputs)@), 1, 1, 1, 1),
            same_lens(final(outputs)@, old(outputs)@),
            same_from(final(outputs)@, old(outputs)@, 1),
            r.is_err() ==> *final(state) == *old(state) && final(outputs)@ == old(outputs)@,
            r.is_ok() && S::obeys_sample_spec() ==> renders(
                self.stepper(rows(inputs), sample_rate),
                *old(state),
                *final(state),
                final(outputs)@[0]@,
            ),
    {
        let n: usize = match check_block(inputs, outputs, 1, 1, 1, 1) {
            Ok(n) => n,
            Err(e) => {
                return Err(e);
            },
        };
        let ghost f = self.stepper(rows(inputs), sample_rate);
        let ghost st0 = *state;
        let mut i: usize = 0;
        while i < n
            invariant
                i <= n,
                inputs@.len() >= 1,
                outputs@.len() >= 1,
                outputs@[0]@.len() == n,
                forall|p: int| 0 <= p < 1 ==> (#[trigger] inputs@[p])@.len() == n,
                same_lens(outputs@, old(outputs)@),
                same_from(outputs@, old(outputs)@, 1),
                f == self.stepper(rows(inputs), sample_rate),
                S::obeys_sample_spec() ==> *state == state_after(f, st0, i as nat),
                S::obeys_sample_spec() ==> forall|j: int|
                    0 <= j < i ==> outputs@[0]@[j] == #[trigger] output_at(f, st0, j),
            decreases n - i,
        {
            let gate = read_at(inputs, 0, i);
            let (next, y) = self.tick(*state, gate, sample_rate);
            *state = next;
            outputs[0][i] = y;
            i += 1;
        }
        Ok(())
    }
}

/// The transitions of the ADSR envelope. From idle a gate that rises starts
/// the attack with the time at zero; a gate that is low, or was high
/// already, keeps it idle at level zero.
/// A low gate sends attack, decay and sustain to release with the time at
/// zero. An attack that is over hands on to decay, a decay that is over to
/// sustain, and a release that is over to idle at level zero.
pub proof fn lemma_adsr_transitions<S: Sample>(
    node: AdsrEnvelope<S>,
    st: AdsrState<S>,
    gate: S,
    sample_rate: S,
)
    ensures
        ({
            let next = node.tick_spec(st, gate, sample_rate).0;
            let on = gate_is_on(gate);
            let time = st.time_accum.add(S::one().div(sample_rate));
            &&& node.tick_spec(st, gate, sample_rate).1 == next.level
            &&& next.gate_high == on
            &&& st.phase == AdsrPhase::Idle && on && !st.gate_high ==>
                next.phase == AdsrPhase::Attack
                && next.time_accum == S::zero()
            &&& st.phase == AdsrPhase::Idle && !(on && !st.gate_high) ==>
                next.phase == AdsrPhase::Idle && next.level
                == S::zero()
            &&& (st.phase == AdsrPhase::Attack || st.phase == AdsrPhase::Decay || st.phase == AdsrPhase::Sustain) && !on
                ==> next.phase == AdsrPhase::Release && next.time_accum == S::zero()
            &&& st.phase == AdsrPhase::Attack && on ==>
                next.phase == (if stage_done(time, node.attack_ms) {
                AdsrPhase::Decay
            } else {
                AdsrPhase::Attack
            })
            &&& st.phase == AdsrPhase::Decay && on ==>
                next.phase == (if stage_done(time, node.decay_ms) {
                AdsrPhase::Sustain
            } else {
                AdsrPhase::Decay
            })
            &&& st.phase == AdsrPhase::Sustain && on ==>
                next.phase == AdsrPhase::Sustain && next.level
                == node.sustain_level
            &&& st.phase == AdsrPhase::Release ==>
                next.phase == (if stage_done(time, node.release_ms) {
                AdsrPhase::Idle
            } else {
                AdsrPhase::Release
            })
            &&& st.phase == AdsrPhase::Release && stage_done(time, node.release_ms) ==>
                next.level == S::zero()
        }),
{
}

} // verus!
