//! Envelopes that stand alone and are driven by calls to `trigger`.

use crate::block::{
    check_block, cols, output_at, renders, rows, same_from, same_lens, shape_verdict, state_after,
    ShapeError,
};
use crate::sample::Sample;
use vstd::prelude::*;

verus! {

/// Phases of the envelopes of this file.
#[derive(Debug, Clone, Copy, PartialEq, Eq, Structural)]
pub enum EnvelopeState {
    Idle,
    Attack,
    Decay,
    Sustain,
    Release,
}

/// The part of a stage of `ms` milliseconds that passes per sample: `1 / (ms *
/// 0.001 * sample_rate)`.
pub open spec fn rate_per_sample_spec<S: Sample>(ms: S, sample_rate: S) -> S {
    S::one().div(ms.mul(S::ratio(1, 1000)).mul(sample_rate))
}

/// Computes `rate_per_sample_spec`.
#[verifier::when_used_as_spec(rate_per_sample_spec)]
pub fn rate_per_sample<S: Sample>(ms: S, sample_rate: S) -> (r: S)
    ensures
        S::obeys_sample_spec() ==> r == rate_per_sample_spec::<S>(ms, sample_rate),
{
    S::one().div(ms.mul(S::ratio(1, 1000)).mul(sample_rate))
}

/// ADSR envelope with straight segments, driven by `trigger`. It has no input.
#[derive(Debug, Clone, Copy)]
pub struct Adsr<S> {
    pub attack_ms: S,
    pub decay_ms: S,
    /// Held in `[0, 1]`.
    pub sustain_level: S,
    pub release_ms: S,
    pub gate: bool,
    pub state: EnvelopeState,
    /// The last sample put out.
    pub level: S,
    pub attack_rate: S,
    pub decay_rate: S,
    pub release_rate: S,
}

impl<S: Sample> Adsr<S> {
    /// A node in its first state.
    pub open spec fn new_spec(
        attack_ms: S,
        decay_ms: S,
        sustain_level: S,
        release_ms: S,
        sample_rate: S,
    ) -> Self {
        Adsr {
            attack_ms,
            decay_ms,
            sustain_level: sustain_level.clamp(S::zero(), S::one()),
            release_ms,
            gate: false,
            state: EnvelopeState::Idle,
            level: S::zero(),
            attack_rate: rate_per_sample(attack_ms, sample_rate),
            decay_rate: rate_per_sample(decay_ms, sample_rate),
            release_rate: rate_per_sample(release_ms, sample_rate),
        }
    }

    /// Computes `new_spec`.
    #[verifier::when_used_as_spec(new_spec)]
    pub fn new(
        attack_ms: S,
        decay_ms: S,
        sustain_level: S,
        release_ms: S,
        sample_rate: S,
    ) -> (r: Self)
        ensures
            S::obeys_sample_spec() ==>
                r == Self::new_spec(attack_ms, decay_ms, sustain_level, release_ms, sample_rate),
    {
        Adsr {
            attack_ms,
            decay_ms,
            sustain_level: sustain_level.clamp(S::zero(), S::one()),
            release_ms,
            gate: false,
            state: EnvelopeState::Idle,
            level: S::zero(),
            attack_rate: rate_per_sample(attack_ms, sample_rate),
            decay_rate: rate_per_sample(decay_ms, sample_rate),
            release_rate: rate_per_sample(release_ms, sample_rate),
        }
    }

    /// Whether two nodes have the same settings.
    pub open spec fn same_settings(self, other: Self) -> bool {
        &&& self.attack_ms == other.attack_ms
        &&& self.decay_ms == other.decay_ms
        &&& self.sustain_level == other.sustain_level
        &&& self.release_ms == other.release_ms
        &&& self.attack_rate == other.attack_rate
        &&& self.decay_rate == other.decay_rate
        &&& self.release_rate == other.release_rate
    }

    /// The envelope after its gate was set: a gate that opens starts the attack
    /// from idle, a gate that closes sends every phase but idle to release.
    pub open spec fn triggered(self, gate: bool) -> Self {
        let state = match self.state {
            EnvelopeState::Idle => if gate {
                EnvelopeState::Attack
            } else {
                EnvelopeState::Idle
            },
            other => if gate {
                other
            } else {
                EnvelopeState::Release
            },
        };
        Adsr {
            attack_ms: self.attack_ms,
            decay_ms: self.decay_ms,
            sustain_level: self.sustain_level,
            release_ms: self.release_ms,
            attack_rate: self.attack_rate,
            decay_rate: self.decay_rate,
            release_rate: self.release_rate,
            gate,
            state,
            level: self.level,
        }
    }

    /// Opens or closes its gate.
    pub fn trigger(&mut self, gate: bool)
        ensures
            *final(self) == old(self).triggered(gate),
    {
        self.gate = gate;
        match self.state {
            EnvelopeState::Idle => {
                if gate {
                    self.state = EnvelopeState::Attack;
                }
            },
            _ => {
                if !gate {
                    self.state = EnvelopeState::Release;
                }
            },
        }
    }

    /// One sample: the level moves by the rate of its phase; a phase that reaches
    /// its end hands on to the next, and the release to idle.
    pub open spec fn tick_spec(self) -> (Self, S) {
        let next = match self.state {
            EnvelopeState::Idle => Adsr {
                attack_ms: self.attack_ms,
                decay_ms: self.decay_ms,
                sustain_level: self.sustain_level,
                release_ms: self.release_ms,
                attack_rate: self.attack_rate,
                decay_rate: self.decay_rate,
                release_rate: self.release_rate,
                gate: self.gate,
                state: EnvelopeState::Idle,
                level: S::zero(),
            },
            EnvelopeState::Attack => {
                let level = self.level.add(self.attack_rate);
                if level.ge(S::one()) {
                    Adsr {
                        attack_ms: self.attack_ms,
                        decay_ms: self.decay_ms,
                        sustain_level: self.sustain_level,
                        release_ms: self.release_ms,
                        attack_rate: self.attack_rate,
                        decay_rate: self.decay_rate,
                        release_rate: self.release_rate,
                        gate: self.gate,
                        state: EnvelopeState::Decay,
                        level: S::one(),
                    }
                } else {
                    Adsr {
                        attack_ms: self.attack_ms,
                        decay_ms: self.decay_ms,
                        sustain_level: self.sustain_level,
                        release_ms: self.release_ms,
                        attack_rate: self.attack_rate,
                        decay_rate: self.decay_rate,
                        release_rate: self.release_rate,
                        gate: self.gate,
                        state: EnvelopeState::Attack,
                        level,
                    }
                }
            },
            EnvelopeState::Decay => {
                let level = self.level.sub(self.decay_rate.mul(S::one().sub(self.sustain_level)));
                if level.le(self.sustain_level) {
                    Adsr {
                        attack_ms: self.attack_ms,
                        decay_ms: self.decay_ms,
                        sustain_level: self.sustain_level,
                        release_ms: self.release_ms,
                        attack_rate: self.attack_rate,
                        decay_rate: self.decay_rate,
                        release_rate: self.release_rate,
                        gate: self.gate,
                        state: EnvelopeState::Sustain,
                        level: self.sustain_level,
                    }
                } else {
                    Adsr {
                        attack_ms: self.attack_ms,
                        decay_ms: self.decay_ms,
                        sustain_level: self.sustain_level,
                        release_ms: self.release_ms,
                        attack_rate: self.attack_rate,
                        decay_rate: self.decay_rate,
                        release_rate: self.release_rate,
                        gate: self.gate,
                        state: EnvelopeState::Decay,
                        level,
                    }
                }
            },
            EnvelopeState::Sustain => self,
            EnvelopeState::Release => {
                let level = self.level.sub(self.release_rate.mul(self.sustain_level));
                if level.le(S::zero()) {
                    Adsr {
                        attack_ms: self.attack_ms,
                        decay_ms: self.decay_ms,
                        sustain_level: self.sustain_level,
                        release_ms: self.release_ms,
                        attack_rate: self.attack_rate,
                        decay_rate: self.decay_rate,
                        release_rate: self.release_rate,
                        gate: self.gate,
                        state: EnvelopeState::Idle,
                        level: S::zero(),
                    }
                } else {
                    Adsr {
                        attack_ms: self.attack_ms,
                        decay_ms: self.decay_ms,
                        sustain_level: self.sustain_level,
                        release_ms: self.release_ms,
                        attack_rate: self.attack_rate,
                        decay_rate: self.decay_rate,
                        release_rate: self.release_rate,
                        gate: self.gate,
                        state: EnvelopeState::Release,
                        level,
                    }
                }
            },
        };
        (next, next.level)
    }

    /// Computes `tick_spec`.
    #[verifier::when_used_as_spec(tick_spec)]
    pub fn tick(self) -> (r: (Self, S))
        ensures
            r.0.same_settings(self),
            S::obeys_sample_spec() ==> r == self.tick_spec(),
    {
        let next = match self.state {
            EnvelopeState::Idle => Adsr {
                attack_ms: self.attack_ms,
                decay_ms: self.decay_ms,
                sustain_level: self.sustain_level,
                release_ms: self.release_ms,
                attack_rate: self.attack_rate,
                decay_rate: self.decay_rate,
                release_rate: self.release_rate,
                gate: self.gate,
                state: EnvelopeState::Idle,
                level: S::zero(),
            },
            EnvelopeState::Attack => {
                let level = self.level.add(self.attack_rate);
                if level.ge(S::one()) {
                    Adsr {
                        attack_ms: self.attack_ms,
                        decay_ms: self.decay_ms,
                        sustain_level: self.sustain_level,
                        release_ms: self.release_ms,
                        attack_rate: self.attack_rate,
                        decay_rate: self.decay_rate,
                        release_rate: self.release_rate,
                        gate: self.gate,
                        state: EnvelopeState::Decay,
                        level: S::one(),
                    }
                } else {
                    Adsr {
                        attack_ms: self.attack_ms,
                        decay_ms: self.decay_ms,
                        sustain_level: self.sustain_level,
                        release_ms: self.release_ms,
                        attack_rate: self.attack_rate,
                        decay_rate: self.decay_rate,
                        release_rate: self.release_rate,
                        gate: self.gate,
                        state: EnvelopeState::Attack,
                        level,
                    }
                }
            },
            EnvelopeState::Decay => {
                let level = self.level.sub(self.decay_rate.mul(S::one().sub(self.sustain_level)));
                if level.le(self.sustain_level) {
                    Adsr {
                        attack_ms: self.attack_ms,
                        decay_ms: self.decay_ms,
                        sustain_level: self.sustain_level,
                        release_ms: self.release_ms,
                        attack_rate: self.attack_rate,
                        decay_rate: self.decay_rate,
                        release_rate: self.release_rate,
                        gate: self.gate,
                        state: EnvelopeState::Sustain,
                        level: self.sustain_level,
                    }
                } else {
                    Adsr {
                        attack_ms: self.attack_ms,
                        decay_ms: self.decay_ms,
                        sustain_level: self.sustain_level,
                        release_ms: self.release_ms,
                        attack_rate: self.attack_rate,
                        decay_rate: self.decay_rate,
                        release_rate: self.release_rate,
                        gate: self.gate,
                        state: EnvelopeState::Decay,
                        level,
                    }
                }
            },
            EnvelopeState::Sustain => self,
            EnvelopeState::Release => {
                let level = self.level.sub(self.release_rate.mul(self.sustain_level));
                if level.le(S::zero()) {
                    Adsr {
                        attack_ms: self.attack_ms,
                        decay_ms: self.decay_ms,
                        sustain_level: self.sustain_level,
                        release_ms: self.release_ms,
                        attack_rate: self.attack_rate,
                        decay_rate: self.decay_rate,
                        release_rate: self.release_rate,
                        gate: self.gate,
                        state: EnvelopeState::Idle,
                        level: S::zero(),
                    }
                } else {
                    Adsr {
                        attack_ms: self.attack_ms,
                        decay_ms: self.decay_ms,
                        sustain_level: self.sustain_level,
                        release_ms: self.release_ms,
                        attack_rate: self.attack_rate,
                        decay_rate: self.decay_rate,
                        release_rate: self.release_rate,
                        gate: self.gate,
                        state: EnvelopeState::Release,
                        level,
                    }
                }
            },
        };
        (next, next.level)
    }

    /// The node as a recursion over the samples of a block: the state before
    /// sample `i` to the state after it and the sample put out.
    pub open spec fn stepper(
        inputs: Seq<Seq<S>>,
        sample_rate: S,
    ) -> spec_fn(Self, int) -> (Self, S) {
        |st: Self, i: int| st.tick()
    }

    /// Processes one block: runs the recursion over the samples of the block and
    /// writes output 0. A call whose slices do not fit is refused and changes
    /// nothing. Nothing is allocated.
    pub fn process(
        &mut self,
        inputs: &[&[S]],
        outputs: &mut [Vec<S>],
        sample_rate: S,
    ) -> (r: Result<(), ShapeError>)
        ensures
            r == shape_verdict(rows(inputs), cols(old(outputs)@), 0, 0, 0, 1),
            same_lens(final(outputs)@, old(outputs)@),
            same_from(final(outputs)@, old(outputs)@, 1),
            r.is_err() ==> *final(self) == *old(self) && final(outputs)@ == old(outputs)@,
            final(self).same_settings(*old(self)),
            r.is_ok() && S::obeys_sample_spec() ==> renders(
                Self::stepper(rows(inputs), sample_rate),
                *old(self),
                *final(self),
                final(outputs)@[0]@,
            ),
    {
        let n: usize = match check_block(inputs, outputs, 0, 0, 0, 1) {
            Ok(n) => n,
            Err(e) => {
                return Err(e);
            },
        };
        let ghost f = Self::stepper(rows(inputs), sample_rate);
        let ghost st0 = *self;
        let mut i: usize = 0;
        while i < n
            invariant
                i <= n,
                inputs@.len() >= 0,
                outputs@.len() >= 1,
                outputs@[0]@.len() == n,
                same_lens(outputs@, old(outputs)@),
                same_from(outputs@, old(outputs)@, 1),
                f == Self::stepper(rows(inputs), sample_rate),
                self.same_settings(st0),
                S::obeys_sample_spec() ==> *self == state_after(f, st0, i as nat),
                S::obeys_sample_spec() ==> forall|j: int|
                    0 <= j < i ==> outputs@[0]@[j] == #[trigger] output_at(f, st0, j),
            decreases n - i,
        {
            let (next, y) = self.tick();
            *self = next;
            outputs[0][i] = y;
            i += 1;
        }
        Ok(())
    }

    /// Puts the node back to the state that `new` gave it; its settings stay.
    pub open spec fn reset_spec(self) -> Self {
        Adsr {
            attack_ms: self.attack_ms,
            decay_ms: self.decay_ms,
            sustain_level: self.sustain_level,
            release_ms: self.release_ms,
            attack_rate: self.attack_rate,
            decay_rate: self.decay_rate,
            release_rate: self.release_rate,
            gate: false,
            state: EnvelopeState::Idle,
            level: S::zero(),
        }
    }

    /// Performs `reset_spec` in place.
    pub fn reset(&mut self)
        ensures
            final(self).same_settings(*old(self)),
            S::obeys_sample_spec() ==> *final(self) == old(self).reset_spec(),
    {
        *self = Adsr {
            attack_ms: self.attack_ms,
            decay_ms: self.decay_ms,
            sustain_level: self.sustain_level,
            release_ms: self.release_ms,
            attack_rate: self.attack_rate,
            decay_rate: self.decay_rate,
            release_rate: self.release_rate,
            gate: false,
            state: EnvelopeState::Idle,
            level: S::zero(),
        };
    }

    /// A reset right after `new` changes nothing.
    pub proof fn lemma_reset_after_new(
        attack_ms: S,
        decay_ms: S,
        sustain_level: S,
        release_ms: S,
        sample_rate: S,
    )
        ensures
            Self::new_spec(attack_ms, decay_ms, sustain_level, release_ms, sample_rate)
                .reset_spec() == Self::new_spec(
                    attack_ms,
                    decay_ms,
                    sustain_level,
                    release_ms,
                    sample_rate,
                ),
    {
    }

    /// The number of inputs that a call requires.
    pub fn num_inputs(&self) -> (r: usize)
        ensures
            r == 0,
    {
        0
    }

    /// The number of outputs that a call writes.
    pub fn num_outputs(&self) -> (r: usize)
        ensures
            r == 1,
    {
        1
    }
}

/// Attack-release envelope with straight segments, driven by `trigger`. It has
/// no input. Of the phases it uses idle, attack and release.
#[derive(Debug, Clone, Copy)]
pub struct Ar<S> {
    pub attack_ms: S,
    pub release_ms: S,
    pub gate: bool,
    pub state: EnvelopeState,
    /// The last sample put out.
    pub level: S,
    pub attack_rate: S,
    pub release_rate: S,
}

impl<S: Sample> Ar<S> {
    /// A node in its first state.
    pub open spec fn new_spec(attack_ms: S, release_ms: S, sample_rate: S) -> Self {
        Ar {
            attack_ms,
            release_ms,
            gate: false,
            state: EnvelopeState::Idle,
            level: S::zero(),
            attack_rate: rate_per_sample(attack_ms, sample_rate),
            release_rate: rate_per_sample(release_ms, sample_rate),
        }
    }

    /// Computes `new_spec`.
    #[verifier::when_used_as_spec(new_spec)]
    pub fn new(attack_ms: S, release_ms: S, sample_rate: S) -> (r: Self)
        ensures
            S::obeys_sample_spec() ==> r == Self::new_spec(attack_ms, release_ms, sample_rate),
    {
        Ar {
            attack_ms,
            release_ms,
            gate: false,
            state: EnvelopeState::Idle,
            level: S::zero(),
            attack_rate: rate_per_sample(attack_ms, sample_rate),
            release_rate: rate_per_sample(release_ms, sample_rate),
        }
    }

    /// Whether two nodes have the same settings.
    pub open spec fn same_settings(self, other: Self) -> bool {
        &&& self.attack_ms == other.attack_ms
        &&& self.release_ms == other.release_ms
        &&& self.attack_rate == other.attack_rate
        &&& self.release_rate == other.release_rate
    }

    /// The envelope after its gate was set: a gate that opens starts the attack
    /// from idle, a gate that closes sends the attack to release.
    pub open spec fn triggered(self, gate: bool) -> Self {
        let state = match self.state {
            EnvelopeState::Idle => if gate {
                EnvelopeState::Attack
            } else {
                EnvelopeState::Idle
            },
            EnvelopeState::Attack => if gate {
                EnvelopeState::Attack
            } else {
                EnvelopeState::Release
            },
            other => other,
        };
        Ar {
            attack_ms: self.attack_ms,
            release_ms: self.release_ms,
            attack_rate: self.attack_rate,
            release_rate: self.release_rate,
            gate,
            state,
            level: self.level,
        }
    }

    /// Opens or closes its gate.
    pub fn trigger(&mut self, gate: bool)
        ensures
            *final(self) == old(self).triggered(gate),
    {
        self.gate = gate;
        match self.state {
            EnvelopeState::Idle => {
                if gate {
                    self.state = EnvelopeState::Attack;
                }
            },
            EnvelopeState::Attack => {
                if !gate {
                    self.state = EnvelopeState::Release;
                }
            },
            _ => {},
        }
    }

    /// One sample: the level rises to one in the attack and stays there; it falls
    /// to zero in the release, which ends in idle.
    pub open spec fn tick_spec(self) -> (Self, S) {
        let next = match self.state {
            EnvelopeState::Idle => Ar {
                attack_ms: self.attack_ms,
                release_ms: self.release_ms,
                attack_rate: self.attack_rate,
                release_rate: self.release_rate,
                gate: self.gate,
                state: EnvelopeState::Idle,
                level: S::zero(),
            },
            EnvelopeState::Attack => {
                let level = self.level.add(self.attack_rate);
                if level.ge(S::one()) {
                    Ar {
                        attack_ms: self.attack_ms,
                        release_ms: self.release_ms,
                        attack_rate: self.attack_rate,
                        release_rate: self.release_rate,
                        gate: self.gate,
                        state: EnvelopeState::Attack,
                        level: S::one(),
                    }
                } else {
                    Ar {
                        attack_ms: self.attack_ms,
                        release_ms: self.release_ms,
                        attack_rate: self.attack_rate,
                        release_rate: self.release_rate,
                        gate: self.gate,
                        state: EnvelopeState::Attack,
                        level,
                    }
                }
            },
            EnvelopeState::Release => {
                let level = self.level.sub(self.release_rate);
                if level.le(S::zero()) {
                    Ar {
                        attack_ms: self.attack_ms,
                        release_ms: self.release_ms,
                        attack_rate: self.attack_rate,
                        release_rate: self.release_rate,
                        gate: self.gate,
                        state: EnvelopeState::Idle,
                        level: S::zero(),
                    }
                } else {
                    Ar {
                        attack_ms: self.attack_ms,
                        release_ms: self.release_ms,
                        attack_rate: self.attack_rate,
                        release_rate: self.release_rate,
                        gate: self.gate,
                        state: EnvelopeState::Release,
                        level,
                    }
                }
            },
            _ => self,
        };
        (next, next.level)
    }

    /// Computes `tick_spec`.
    #[verifier::when_used_as_spec(tick_spec)]
    pub fn tick(self) -> (r: (Self, S))
        ensures
            r.0.same_settings(self),
            S::obeys_sample_spec() ==> r == self.tick_spec(),
    {
        let next = match self.state {
            EnvelopeState::Idle => Ar {
                attack_ms: self.attack_ms,
                release_ms: self.release_ms,
                attack_rate: self.attack_rate,
                release_rate: self.release_rate,
                gate: self.gate,
                state: EnvelopeState::Idle,
                level: S::zero(),
            },
            EnvelopeState::Attack => {
                let level = self.level.add(self.attack_rate);
                if level.ge(S::one()) {
                    Ar {
                        attack_ms: self.attack_ms,
                        release_ms: self.release_ms,
                        attack_rate: self.attack_rate,
                        release_rate: self.release_rate,
                        gate: self.gate,
                        state: EnvelopeState::Attack,
                        level: S::one(),
                    }
                } else {
                    Ar {
                        attack_ms: self.attack_ms,
                        release_ms: self.release_ms,
                        attack_rate: self.attack_rate,
                        release_rate: self.release_rate,
                        gate: self.gate,
                        state: EnvelopeState::Attack,
                        level,
                    }
                }
            },
            EnvelopeState::Release => {
                let level = self.level.sub(self.release_rate);
                if level.le(S::zero()) {
                    Ar {
                        attack_ms: self.attack_ms,
                        release_ms: self.release_ms,
                        attack_rate: self.attack_rate,
                        release_rate: self.release_rate,
                        gate: self.gate,
                        state: EnvelopeState::Idle,
                        level: S::zero(),
                    }
                } else {
                    Ar {
                        attack_ms: self.attack_ms,
                        release_ms: self.release_ms,
                        attack_rate: self.attack_rate,
                        release_rate: self.release_rate,
                        gate: self.gate,
                        state: EnvelopeState::Release,
                        level,
                    }
                }
            },
            _ => self,
        };
        (next, next.level)
    }

    /// The node as a recursion over the samples of a block: the state before
    /// sample `i` to the state after it and the sample put out.
    pub open spec fn stepper(
        inputs: Seq<Seq<S>>,
        sample_rate: S,
    ) -> spec_fn(Self, int) -> (Self, S) {
        |st: Self, i: int| st.tick()
    }

    /// Processes one block: runs the recursion over the samples of the block and
    /// writes output 0. A call whose slices do not fit is refused and changes
    /// nothing. Nothing is allocated.
    pub fn process(
        &mut self,
        inputs: &[&[S]],
        outputs: &mut [Vec<S>],
        sample_rate: S,
    ) -> (r: Result<(), ShapeError>)
        ensures
            r == shape_verdict(rows(inputs), cols(old(outputs)@), 0, 0, 0, 1),
            same_lens(final(outputs)@, old(outputs)@),
            same_from(final(outputs)@, old(outputs)@, 1),
            r.is_err() ==> *final(self) == *old(self) && final(outputs)@ == old(outputs)@,
            final(self).same_settings(*old(self)),
            r.is_ok() && S::obeys_sample_spec() ==> renders(
                Self::stepper(rows(inputs), sample_rate),
                *old(self),
                *final(self),
                final(outputs)@[0]@,
            ),
    {
        let n: usize = match check_block(inputs, outputs, 0, 0, 0, 1) {
            Ok(n) => n,
            Err(e) => {
                return Err(e);
            },
        };
        let ghost f = Self::stepper(rows(inputs), sample_rate);
        let ghost st0 = *self;
        let mut i: usize = 0;
        while i < n
            invariant
                i <= n,
                inputs@.len() >= 0,
                outputs@.len() >= 1,
                outputs@[0]@.len() == n,
                same_lens(outputs@, old(outputs)@),
                same_from(outputs@, old(outputs)@, 1),
                f == Self::stepper(rows(inputs), sample_rate),
                self.same_settings(st0),
                S::obeys_sample_spec() ==> *self == state_after(f, st0, i as nat),
                S::obeys_sample_spec() ==> forall|j: int|
                    0 <= j < i ==> outputs@[0]@[j] == #[trigger] output_at(f, st0, j),
            decreases n - i,
        {
            let (next, y) = self.tick();
            *self = next;
            outputs[0][i] = y;
            i += 1;
        }
        Ok(())
    }

    /// Puts the node back to the state that `new` gave it; its settings stay.
    pub open spec fn reset_spec(self) -> Self {
        Ar {
            attack_ms: self.attack_ms,
            release_ms: self.release_ms,
            attack_rate: self.attack_rate,
            release_rate: self.release_rate,
            gate: false,
            state: EnvelopeState::Idle,
            level: S::zero(),
        }
    }

    /// Performs `reset_spec` in place.
    pub fn reset(&mut self)
        ensures
            final(self).same_settings(*old(self)),
            S::obeys_sample_spec() ==> *final(self) == old(self).reset_spec(),
    {
        *self = Ar {
            attack_ms: self.attack_ms,
            release_ms: self.release_ms,
            attack_rate: self.attack_rate,
            release_rate: self.release_rate,
            gate: false,
            state: EnvelopeState::Idle,
            level: S::zero(),
        };
    }

    /// A reset right after `new` changes nothing.
    pub proof fn lemma_reset_after_new(attack_ms: S, release_ms: S, sample_rate: S)
        ensures
            Self::new_spec(attack_ms, release_ms, sample_rate)
                .reset_spec() == Self::new_spec(attack_ms, release_ms, sample_rate),
    {
    }

    /// The number of inputs that a call requires.
    pub fn num_inputs(&self) -> (r: usize)
        ensures
            r == 0,
    {
        0
    }

    /// The number of outputs that a call writes.
    pub fn num_outputs(&self) -> (r: usize)
        ensures
            r == 1,
    {
        1
    }
}

/// Decay envelope with a straight segment, started by `trigger`. It has no
/// input.
#[derive(Debug, Clone, Copy)]
pub struct Decay<S> {
    pub decay_ms: S,
    /// The last sample put out.
    pub level: S,
    pub decay_rate: S,
    pub triggered: bool,
}

impl<S: Sample> Decay<S> {
    /// A node in its first state.
    pub open spec fn new_spec(decay_ms: S, sample_rate: S) -> Self {
        Decay {
            decay_ms,
            level: S::zero(),
            decay_rate: rate_per_sample(decay_ms, sample_rate),
            triggered: false,
        }
    }

    /// Computes `new_spec`.
    #[verifier::when_used_as_spec(new_spec)]
    pub fn new(decay_ms: S, sample_rate: S) -> (r: Self)
        ensures
            S::obeys_sample_spec() ==> r == Self::new_spec(decay_ms, sample_rate),
    {
        Decay {
            decay_ms,
            level: S::zero(),
            decay_rate: rate_per_sample(decay_ms, sample_rate),
            triggered: false,
        }
    }

    /// Whether two nodes have the same settings.
    pub open spec fn same_settings(self, other: Self) -> bool {
        &&& self.decay_ms == other.decay_ms
        &&& self.decay_rate == other.decay_rate
    }

    /// The envelope after it was started: at level one.
    pub open spec fn triggered_spec(self) -> Self {
        Decay {
            decay_ms: self.decay_ms,
            level: S::one(),
            decay_rate: self.decay_rate,
            triggered: true,
        }
    }

    /// Computes `triggered_spec`.
    #[verifier::when_used_as_spec(triggered_spec)]
    pub fn triggered(self) -> (r: Self)
        ensures
            S::obeys_sample_spec() ==> r == self.triggered_spec(),
    {
        Decay {
            decay_ms: self.decay_ms,
            level: S::one(),
            decay_rate: self.decay_rate,
            triggered: true,
        }
    }

    /// Starts the envelope at level one.
    pub fn trigger(&mut self)
        ensures
            S::obeys_sample_spec() ==> *final(self) == old(self).triggered(),
    {
        *self = self.triggered();
    }

    /// One sample: once started, the level falls by the rate until it reaches zero,
    /// where the envelope stops.
    pub open spec fn tick_spec(self) -> (Self, S) {
        let next = if self.triggered {
            let level = self.level.sub(self.decay_rate);
            if level.le(S::zero()) {
                Decay {
                    decay_ms: self.decay_ms,
                    level: S::zero(),
                    decay_rate: self.decay_rate,
                    triggered: false,
                }
            } else {
                Decay {
                    decay_ms: self.decay_ms,
                    level,
                    decay_rate: self.decay_rate,
                    triggered: true,
                }
            }
        } else {
            Decay {
                decay_ms: self.decay_ms,
                level: S::zero(),
                decay_rate: self.decay_rate,
                triggered: false,
            }
        };
        (next, next.level)
    }

    /// Computes `tick_spec`.
    #[verifier::when_used_as_spec(tick_spec)]
    pub fn tick(self) -> (r: (Self, S))
        ensures
            r.0.same_settings(self),
            S::obeys_sample_spec() ==> r == self.tick_spec(),
    {
        let next = if self.triggered {
            let level = self.level.sub(self.decay_rate);
            if level.le(S::zero()) {
                Decay {
                    decay_ms: self.decay_ms,
                    level: S::zero(),
                    decay_rate: self.decay_rate,
                    triggered: false,
                }
            } else {
                Decay {
                    decay_ms: self.decay_ms,
                    level,
                    decay_rate: self.decay_rate,
                    triggered: true,
                }
            }
        } else {
            Decay {
                decay_ms: self.decay_ms,
                level: S::zero(),
                decay_rate: self.decay_rate,
                triggered: false,
            }
        };
        (next, next.level)
    }

    /// The node as a recursion over the samples of a block: the state before
    /// sample `i` to the state after it and the sample put out.
    pub open spec fn stepper(
        inputs: Seq<Seq<S>>,
        sample_rate: S,
    ) -> spec_fn(Self, int) -> (Self, S) {
        |st: Self, i: int| st.tick()
    }

    /// Processes one block: runs the recursion over the samples of the block and
    /// writes output 0. A call whose slices do not fit is refused and changes
    /// nothing. Nothing is allocated.
    pub fn process(
        &mut self,
        inputs: &[&[S]],
        outputs: &mut [Vec<S>],
        sample_rate: S,
    ) -> (r: Result<(), ShapeError>)
        ensures
            r == shape_verdict(rows(inputs), cols(old(outputs)@), 0, 0, 0, 1),
            same_lens(final(outputs)@, old(outputs)@),
            same_from(final(outputs)@, old(outputs)@, 1),
            r.is_err() ==> *final(self) == *old(self) && final(outputs)@ == old(outputs)@,
            final(self).same_settings(*old(self)),
            r.is_ok() && S::obeys_sample_spec() ==> renders(
                Self::stepper(rows(inputs), sample_rate),
                *old(self),
                *final(self),
                final(outputs)@[0]@,
            ),
    {
        let n: usize = match check_block(inputs, outputs, 0, 0, 0, 1) {
            Ok(n) => n,
            Err(e) => {
                return Err(e);
            },
        };
        let ghost f = Self::stepper(rows(inputs), sample_rate);
        let ghost st0 = *self;
        let mut i: usize = 0;
        while i < n
            invariant
                i <= n,
                inputs@.len() >= 0,
                outputs@.len() >= 1,
                outputs@[0]@.len() == n,
                same_lens(outputs@, old(outputs)@),
                same_from(outputs@, old(outputs)@, 1),
                f == Self::stepper(rows(inputs), sample_rate),
                self.same_settings(st0),
                S::obeys_sample_spec() ==> *self == state_after(f, st0, i as nat),
                S::obeys_sample_spec() ==> forall|j: int|
                    0 <= j < i ==> outputs@[0]@[j] == #[trigger] output_at(f, st0, j),
            decreases n - i,
        {
            let (next, y) = self.tick();
            *self = next;
            outputs[0][i] = y;
            i += 1;
        }
        Ok(())
    }

    /// Puts the node back to the state that `new` gave it; its settings stay.
    pub open spec fn reset_spec(self) -> Self {
        Decay {
            decay_ms: self.decay_ms,
            level: S::zero(),
            decay_rate: self.decay_rate,
            triggered: false,
        }
    }

    /// Performs `reset_spec` in place.
    pub fn reset(&mut self)
        ensures
            final(self).same_settings(*old(self)),
            S::obeys_sample_spec() ==> *final(self) == old(self).reset_spec(),
    {
        *self = Decay {
            decay_ms: self.decay_ms,
            level: S::zero(),
            decay_rate: self.decay_rate,
            triggered: false,
        };
    }

    /// A reset right after `new` changes nothing.
    pub proof fn lemma_reset_after_new(decay_ms: S, sample_rate: S)
        ensures
            Self::new_spec(decay_ms, sample_rate)
                .reset_spec() == Self::new_spec(decay_ms, sample_rate),
    {
    }

    /// The number of inputs that a call requires.
    pub fn num_inputs(&self) -> (r: usize)
        ensures
            r == 0,
    {
        0
    }

    /// The number of outputs that a call writes.
    pub fn num_outputs(&self) -> (r: usize)
        ensures
            r == 1,
    {
        1
    }
}

/// The shape of a stage.
#[derive(Debug, Clone, Copy, PartialEq, Eq, Structural)]
pub enum EnvelopeCurve {
    Linear,
    Exponential,
    Logarithmic,
}

/// One stage of a multi-stage envelope: its length, the level it ends at, and
/// its shape.
#[derive(Debug, Clone, Copy)]
pub struct EnvelopeStage<S> {
    pub duration_ms: S,
    pub target_level: S,
    pub curve: EnvelopeCurve,
}

/// Envelope of any number of stages, run through once after `new` and after
/// every `trigger`. It has no input. After the last stage it holds the last
/// target.
#[derive(Debug)]
pub struct MultiStageEnvelope<S> {
    pub stages: Vec<EnvelopeStage<S>>,
    /// The sample rate that the stage lengths are counted at.
    pub sample_rate: S,
    /// The stage that is running; the number of stages when all are over.
    pub current_stage: usize,
    /// The last sample put out.
    pub level: S,
    /// The samples spent in the running stage.
    pub stage_time: S,
}

/// What `MultiStageEnvelope` holds besides its settings.
pub struct MultiStageEnvelopeMemory<S> {
    pub current_stage: usize,
    pub level: S,
    pub stage_time: S,
}

impl<S> View for MultiStageEnvelope<S> {
    type V = MultiStageEnvelopeMemory<S>;

    open spec fn view(&self) -> MultiStageEnvelopeMemory<S> {
        MultiStageEnvelopeMemory {
            current_stage: self.current_stage,
            level: self.level,
            stage_time: self.stage_time,
        }
    }
}

impl<S: Sample> MultiStageEnvelope<S> {
    /// Whether two nodes hold as many entries.
    pub open spec fn same_size(&self, other: &MultiStageEnvelope<S>) -> bool {
        self.stages@.len() == other.stages@.len()
    }

    /// Whether two nodes have the same settings.
    pub open spec fn same_settings(&self, other: &MultiStageEnvelope<S>) -> bool {
        &&& self.stages@ == other.stages@
        &&& self.sample_rate == other.sample_rate
    }

    /// What a node holds when `new` made it.
    pub open spec fn fresh(
        stages: Vec<EnvelopeStage<S>>,
        sample_rate: S,
    ) -> MultiStageEnvelopeMemory<S> {
        MultiStageEnvelopeMemory { current_stage: 0, level: S::zero(), stage_time: S::zero() }
    }

    /// A node in its first state. Whatever the node allocates, it allocates here.
    pub fn new(stages: Vec<EnvelopeStage<S>>, sample_rate: S) -> (r: Self)
        ensures
            S::obeys_sample_spec() ==> r@ == Self::fresh(stages, sample_rate),
            r.stages == stages,
            r.sample_rate == sample_rate,
    {

        MultiStageEnvelope {
            stages,
            sample_rate,
            current_stage: 0,
            level: S::zero(),
            stage_time: S::zero(),
        }
    }

    /// The level of a stage at the part `t` of its length, from the level `start`
    /// to the level `target`. The curved shapes floor the start at 0.001 before it
    /// divides.
    pub open spec fn shaped_spec(curve: EnvelopeCurve, start: S, target: S, t: S) -> S {
        match curve {
            EnvelopeCurve::Linear => start.add(target.sub(start).mul(t)),
            EnvelopeCurve::Exponential => {
                let ratio = target.div(start.max(S::ratio(1, 1000)));
                start.mul(ratio.powf(t))
            },
            EnvelopeCurve::Logarithmic => {
                let ratio = target.div(start.max(S::ratio(1, 1000))).ln();
                start.mul(S::one().add(ratio.mul(t)).exp())
            },
        }
    }

    /// Computes `shaped_spec`.
    #[verifier::when_used_as_spec(shaped_spec)]
    pub fn shaped(curve: EnvelopeCurve, start: S, target: S, t: S) -> (r: S)
        ensures
            S::obeys_sample_spec() ==> r == Self::shaped_spec(curve, start, target, t),
    {
        match curve {
            EnvelopeCurve::Linear => start.add(target.sub(start).mul(t)),
            EnvelopeCurve::Exponential => {
                let ratio = target.div(start.max(S::ratio(1, 1000)));
                start.mul(ratio.powf(t))
            },
            EnvelopeCurve::Logarithmic => {
                let ratio = target.div(start.max(S::ratio(1, 1000))).ln();
                start.mul(S::one().add(ratio.mul(t)).exp())
            },
        }
    }

    /// Starts the envelope again from its first stage.
    pub fn trigger(&mut self)
        ensures
            final(self).same_settings(old(self)),
            S::obeys_sample_spec() ==> final(self)@ == (MultiStageEnvelopeMemory {
                current_stage: 0,
                level: S::zero(),
                stage_time: S::zero(),
            }),
    {
        self.current_stage = 0;
        self.stage_time = S::zero();
        self.level = S::zero();
    }

    /// One sample: within a stage the level follows the shape of the stage and the
    /// time moves on; a stage that is over hands its target to the level and the
    /// next stage starts; after the last stage the level is the last target.
    pub open spec fn tick_spec(
        &self,
        st: MultiStageEnvelopeMemory<S>,
    ) -> (MultiStageEnvelopeMemory<S>, S) {
        if st.current_stage < self.stages@.len() {
            let stage = self.stages@[st.current_stage as int];
            let length = stage.duration_ms.mul(S::ratio(1, 1000)).mul(self.sample_rate);
            if st.stage_time.lt(length) {
                let t = st.stage_time.div(length);
                let start = if st.current_stage == 0 {
                    S::zero()
                } else {
                    self.stages@[st.current_stage - 1].target_level
                };
                let level = Self::shaped(stage.curve, start, stage.target_level, t);
                (
                    MultiStageEnvelopeMemory {
                        current_stage: st.current_stage,
                        level,
                        stage_time: st.stage_time.add(S::one()),
                    },
                    level,
                )
            } else {
                (
                    MultiStageEnvelopeMemory {
                        current_stage: (st.current_stage + 1) as usize,
                        level: stage.target_level,
                        stage_time: S::zero(),
                    },
                    stage.target_level,
                )
            }
        } else {
            let level = if self.stages@.len() == 0 {
                S::zero()
            } else {
                self.stages@[self.stages@.len() - 1].target_level
            };
            (
                MultiStageEnvelopeMemory {
                    current_stage: st.current_stage,
                    level,
                    stage_time: st.stage_time,
                },
                level,
            )
        }
    }

    /// Performs `tick_spec` on the node in place and returns the sample.
    pub fn tick(&mut self) -> (y: S)
        ensures
            final(self).same_size(old(self)),
            final(self).same_settings(old(self)),
            S::obeys_sample_spec() ==> (final(self)@, y) == old(self).tick_spec(old(self)@),
    {
        let count: usize = self.stages.len();
        if self.current_stage < count {
            let stage = self.stages[self.current_stage];
            let length = stage.duration_ms.mul(S::ratio(1, 1000)).mul(self.sample_rate);
            if self.stage_time.lt(length) {
                let t = self.stage_time.div(length);
                let start = if self.current_stage == 0 {
                    S::zero()
                } else {
                    self.stages[self.current_stage - 1].target_level
                };
                let level = Self::shaped(stage.curve, start, stage.target_level, t);
                self.level = level;
                self.stage_time = self.stage_time.add(S::one());
                level
            } else {
                self.level = stage.target_level;
                self.current_stage = self.current_stage + 1;
                self.stage_time = S::zero();
                stage.target_level
            }
        } else {
            let level = if count == 0 {
                S::zero()
            } else {
                self.stages[count - 1].target_level
            };
            self.level = level;
            level
        }
    }

    /// The node as a recursion over the samples of a block: the state before
    /// sample `i` to the state after it and the sample put out.
    pub open spec fn stepper(
        &self,
        inputs: Seq<Seq<S>>,
        sample_rate: S,
    ) -> spec_fn(MultiStageEnvelopeMemory<S>, int) -> (MultiStageEnvelopeMemory<S>, S) {
        |st: MultiStageEnvelopeMemory<S>, i: int| self.tick_spec(st)
    }

    /// Processes one block: runs the recursion over the samples of the block and
    /// writes output 0. A call whose slices do not fit is refused and changes
    /// nothing. Nothing is allocated.
    pub fn process(
        &mut self,
        inputs: &[&[S]],
        outputs: &mut [Vec<S>],
        sample_rate: S,
    ) -> (r: Result<(), ShapeError>)
        ensures
            r == shape_verdict(rows(inputs), cols(old(outputs)@), 0, 0, 0, 1),
            same_lens(final(outputs)@, old(outputs)@),
            same_from(final(outputs)@, old(outputs)@, 1),
            final(self).same_size(old(self)),
            final(self).same_settings(old(self)),
            r.is_err() ==> final(self)@ == old(self)@ && final(outputs)@ == old(outputs)@,
            r.is_ok() && S::obeys_sample_spec() ==> renders(
                old(self).stepper(rows(inputs), sample_rate),
                old(self)@,
                final(self)@,
                final(outputs)@[0]@,
            ),
    {
        let n: usize = match check_block(inputs, outputs, 0, 0, 0, 1) {
            Ok(n) => n,
            Err(e) => {
                return Err(e);
            },
        };
        let ghost st_node = *self;
        let ghost f = st_node.stepper(rows(inputs), sample_rate);
        let ghost st0 = self@;
        let mut i: usize = 0;
        while i < n
            invariant
                i <= n,
                inputs@.len() >= 0,
                outputs@.len() >= 1,
                outputs@[0]@.len() == n,
                same_lens(outputs@, old(outputs)@),
                same_from(outputs@, old(outputs)@, 1),
                self.same_size(old(self)),
                self.same_settings(old(self)),
                self.same_settings(&st_node),
                f == st_node.stepper(rows(inputs), sample_rate),
                S::obeys_sample_spec() ==> self@ == state_after(f, st0, i as nat),
                S::obeys_sample_spec() ==> forall|j: int|
                    0 <= j < i ==> outputs@[0]@[j] == #[trigger] output_at(f, st0, j),
            decreases n - i,
        {
            let y = self.tick();
            outputs[0][i] = y;
            i += 1;
        }
        Ok(())
    }

    /// Puts the node back to what `new` gave it; its settings and the lengths of
    /// its lines stay. Nothing is allocated.
    pub fn reset(&mut self)
        ensures
            final(self).same_size(old(self)),
            final(self).same_settings(old(self)),
            S::obeys_sample_spec() ==>
                final(self)@ == (MultiStageEnvelopeMemory { current_stage: 0, level: S::zero(), stage_time: S::zero() }),
    {
        self.current_stage = 0;
        self.level = S::zero();
        self.stage_time = S::zero();
    }

    /// The number of inputs that a call requires.
    pub fn num_inputs(&self) -> (r: usize)
        ensures
            r == 0,
    {
        0
    }

    /// The number of outputs that a call writes.
    pub fn num_outputs(&self) -> (r: usize)
        ensures
            r == 1,
    {
        1
    }
}

} // verus!
