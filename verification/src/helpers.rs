//! Unit conversions and small helpers that the nodes share.

use crate::sample::Sample;
use vstd::prelude::*;

verus! {

/// Decibels to linear gain: ten to the power `db / 20`.
pub open spec fn db_to_linear_spec<S: Sample>(db: S) -> S {
    S::ratio(10, 1).powf(db.div(S::ratio(20, 1)))
}

/// Computes `db_to_linear_spec`.
#[verifier::when_used_as_spec(db_to_linear_spec)]
pub fn db_to_linear<S: Sample>(db: S) -> (r: S)
    ensures
        S::obeys_sample_spec() ==> r == db_to_linear_spec::<S>(db),
{
    S::ratio(10, 1).powf(db.div(S::ratio(20, 1)))
}

/// The smallest gain that `linear_to_db` takes a logarithm of, about ten to the
/// power of minus twenty.
pub open spec fn gain_floor_spec<S: Sample>() -> S {
    S::ratio(1, 10000000000).mul(S::ratio(1, 10000000000))
}

/// Computes `gain_floor_spec`.
#[verifier::when_used_as_spec(gain_floor_spec)]
pub fn gain_floor<S: Sample>() -> (r: S)
    ensures
        S::obeys_sample_spec() ==> r == gain_floor_spec::<S>(),
{
    S::ratio(1, 10000000000).mul(S::ratio(1, 10000000000))
}

/// Linear gain to decibels. Gains below `gain_floor` count as the floor, so
/// that the result is never minus infinity.
pub open spec fn linear_to_db_spec<S: Sample>(linear: S) -> S {
    let v = linear.max(gain_floor::<S>());
    S::ratio(20, 1).mul(v.log10())
}

/// Computes `linear_to_db_spec`.
#[verifier::when_used_as_spec(linear_to_db_spec)]
pub fn linear_to_db<S: Sample>(linear: S) -> (r: S)
    ensures
        S::obeys_sample_spec() ==> r == linear_to_db_spec::<S>(linear),
{
    let v = linear.max(gain_floor::<S>());
    S::ratio(20, 1).mul(v.log10())
}

/// The phase step per sample, in radians, of a frequency at a sample rate.
pub open spec fn freq_to_phase_increment_spec<S: Sample>(freq: S, sample_rate: S) -> S {
    S::ratio(2, 1).mul(S::pi()).mul(freq).div(sample_rate)
}

/// Computes `freq_to_phase_increment_spec`.
#[verifier::when_used_as_spec(freq_to_phase_increment_spec)]
pub fn freq_to_phase_increment<S: Sample>(freq: S, sample_rate: S) -> (r: S)
    ensures
        S::obeys_sample_spec() ==> r == freq_to_phase_increment_spec::<S>(freq, sample_rate),
{
    S::ratio(2, 1).mul(S::pi()).mul(freq).div(sample_rate)
}

/// Milliseconds to a whole number of samples, rounded down.
pub open spec fn ms_to_samples_spec<S: Sample>(ms: S, sample_rate: S) -> usize {
    ms.mul(sample_rate).div(S::ratio(1000, 1)).floor().to_usize()
}

/// Computes `ms_to_samples_spec`.
#[verifier::when_used_as_spec(ms_to_samples_spec)]
pub fn ms_to_samples<S: Sample>(ms: S, sample_rate: S) -> (r: usize)
    ensures
        S::obeys_sample_spec() ==> r == ms_to_samples_spec::<S>(ms, sample_rate),
{
    ms.mul(sample_rate).div(S::ratio(1000, 1)).floor().to_usize()
}

/// The polynomial correction of a step for band-limited waveforms. `phase` is
/// the distance from the step and `phase_inc` the phase step per sample; the
/// correction is a cubic in their quotient `t` for `t < 1` and for `1 < t < 2`,
/// and zero elsewhere.
pub open spec fn polyblep_spec<S: Sample>(phase: S, phase_inc: S) -> S {
    let t = phase.div(phase_inc);
    if t.lt(S::one()) {
        let t2 = t.mul(t);
        t.add(t2).sub(t2.mul(t))
    } else if t.gt(S::one()) && t.lt(S::ratio(2, 1)) {
        let u = t.sub(S::ratio(2, 1));
        let u2 = u.mul(u);
        u.add(u2).add(u2.mul(u))
    } else {
        S::zero()
    }
}

/// Computes `polyblep_spec`.
#[verifier::when_used_as_spec(polyblep_spec)]
pub fn polyblep<S: Sample>(phase: S, phase_inc: S) -> (r: S)
    ensures
        S::obeys_sample_spec() ==> r == polyblep_spec::<S>(phase, phase_inc),
{
    let t = phase.div(phase_inc);
    if t.lt(S::one()) {
        let t2 = t.mul(t);
        t.add(t2).sub(t2.mul(t))
    } else if t.gt(S::one()) && t.lt(S::ratio(2, 1)) {
        let u = t.sub(S::ratio(2, 1));
        let u2 = u.mul(u);
        u.add(u2).add(u2.mul(u))
    } else {
        S::zero()
    }
}

/// A dry and a wet sample mixed: `dry * (1 - mix) + wet * mix`.
pub open spec fn blend_spec<S: Sample>(dry: S, wet: S, mix: S) -> S {
    dry.mul(S::one().sub(mix)).add(wet.mul(mix))
}

/// Computes `blend_spec`.
#[verifier::when_used_as_spec(blend_spec)]
pub fn blend<S: Sample>(dry: S, wet: S, mix: S) -> (r: S)
    ensures
        S::obeys_sample_spec() ==> r == blend_spec::<S>(dry, wet, mix),
{
    dry.mul(S::one().sub(mix)).add(wet.mul(mix))
}

/// A feedback or resonance coefficient held in `[-0.99, 0.99]`, inside the
/// bound of one at which a feedback loop stops dying away.
pub open spec fn stable_feedback_spec<S: Sample>(coefficient: S) -> S {
    coefficient.clamp(S::ratio(-99i64, 100), S::ratio(99, 100))
}

/// Computes `stable_feedback_spec`.
#[verifier::when_used_as_spec(stable_feedback_spec)]
pub fn stable_feedback<S: Sample>(coefficient: S) -> (r: S)
    ensures
        S::obeys_sample_spec() ==> r == stable_feedback_spec::<S>(coefficient),
{
    coefficient.clamp(S::ratio(-99i64, 100), S::ratio(99, 100))
}

/// The coefficient of a one-pole smoother with a time constant in milliseconds:
/// zero for a time of zero or less, else `exp(-1 / (time_ms / 1000 *
/// sample_rate))`.
pub open spec fn compute_exponential_coefficient_spec<S: Sample>(time_ms: S, sample_rate: S) -> S {
    if time_ms.le(S::zero()) {
        S::zero()
    } else {
        S::one().neg().div(time_ms.div(S::ratio(1000, 1)).mul(sample_rate)).exp()
    }
}

/// Computes `compute_exponential_coefficient_spec`.
#[verifier::when_used_as_spec(compute_exponential_coefficient_spec)]
pub fn compute_exponential_coefficient<S: Sample>(time_ms: S, sample_rate: S) -> (r: S)
    ensures
        S::obeys_sample_spec() ==>
            r == compute_exponential_coefficient_spec::<S>(time_ms, sample_rate),
{
    if time_ms.le(S::zero()) {
        S::zero()
    } else {
        S::one().neg().div(time_ms.div(S::ratio(1000, 1)).mul(sample_rate)).exp()
    }
}

/// The value of `buffer` at the fractional position `read_pos`, going round:
/// between the sample at the whole part of the position and the next one, in
/// proportion to the fractional part. Zero for an empty buffer.
pub open spec fn linear_interpolate_spec<S: Sample>(buffer: Seq<S>, read_pos: S) -> S {
    if buffer.len() == 0 {
        S::zero()
    } else {
        let idx = read_pos.floor().to_usize() as int;
        let frac = read_pos.sub(read_pos.floor());
        let a = buffer[idx % (buffer.len() as int)];
        let b = buffer[(idx % (buffer.len() as int) + 1) % (buffer.len() as int)];
        a.add(b.sub(a).mul(frac))
    }
}

/// Computes `linear_interpolate_spec`.
pub fn linear_interpolate<S: Sample>(buffer: &[S], read_pos: S) -> (r: S)
    ensures
        S::obeys_sample_spec() ==> r == linear_interpolate_spec(buffer@, read_pos),
{
    let len: usize = buffer.len();
    if len == 0 {
        return S::zero();
    }
    let idx: usize = read_pos.floor().to_usize();
    let frac = read_pos.sub(read_pos.floor());
    let first: usize = idx % len;
    let second: usize = if first + 1 == len { 0 } else { first + 1 };
    proof {
        if first + 1 == len {
            assert((first + 1) % (len as int) == 0) by {
                vstd::arithmetic::div_mod::lemma_fundamental_div_mod_converse(
                    first + 1,
                    len as int,
                    1,
                    0,
                );
            }
        } else {
            assert((first + 1) % (len as int) == first + 1) by {
                vstd::arithmetic::div_mod::lemma_small_mod((first + 1) as nat, len as nat);
            }
        }
    }
    let a = buffer[first];
    let b = buffer[second];
    a.add(b.sub(a).mul(frac))
}

} // verus!
