use auxide_dsp::block::ShapeError;
use auxide_dsp::effects::Reverb;
use auxide_dsp::filters::{LadderFilter as PlainLadder, Lpf, StateVariableFilter, SvfMode as PlainSvfMode};
use auxide_dsp::analysis::Rms;
use auxide_dsp::nodes::envelopes::{AdsrEnvelope, AdsrPhase};
use auxide_dsp::nodes::filters::{CombFilter, LadderFilter, SvfFilter, SvfMode};
use auxide_dsp::nodes::fx::{Chorus, Delay, SimpleReverb};
use auxide_dsp::nodes::oscillators::{Constant, PinkNoise, SawOsc, SuperSaw, NOISE_SEED};
use auxide_dsp::sample::Sample;

#[derive(Debug, Clone, Copy, PartialEq, PartialOrd)]
struct F(f32);

impl Sample for F {
    fn obeys_sample_spec() -> bool { true }
    fn zero() -> Self { F(0.0) }
    fn one() -> Self { F(1.0) }
    fn pi() -> Self { F(std::f32::consts::PI) }
    fn ratio(num: i64, den: i64) -> Self { F(num as f32 / den as f32) }
    fn from_usize(n: usize) -> Self { F(n as f32) }
    fn from_u32(n: u32) -> Self { F(n as f32) }
    fn to_usize(self) -> usize { self.0 as usize }
    fn powi(self, n: i32) -> Self { F(self.0.powi(n)) }
    fn clamp(self, lo: Self, hi: Self) -> Self {
        if lo.0 <= hi.0 { F(self.0.clamp(lo.0, hi.0)) } else { F(self.0.max(lo.0).min(hi.0)) }
    }
    fn neg(self) -> Self { F(-self.0) }
    fn abs(self) -> Self { F(self.0.abs()) }
    fn signum(self) -> Self { F(self.0.signum()) }
    fn sqrt(self) -> Self { F(self.0.sqrt()) }
    fn floor(self) -> Self { F(self.0.floor()) }
    fn round(self) -> Self { F(self.0.round()) }
    fn fract(self) -> Self { F(self.0.fract()) }
    fn sin(self) -> Self { F(self.0.sin()) }
    fn cos(self) -> Self { F(self.0.cos()) }
    fn tan(self) -> Self { F(self.0.tan()) }
    fn tanh(self) -> Self { F(self.0.tanh()) }
    fn exp(self) -> Self { F(self.0.exp()) }
    fn ln(self) -> Self { F(self.0.ln()) }
    fn log10(self) -> Self { F(self.0.log10()) }
    fn add(self, rhs: Self) -> Self { F(self.0 + rhs.0) }
    fn sub(self, rhs: Self) -> Self { F(self.0 - rhs.0) }
    fn mul(self, rhs: Self) -> Self { F(self.0 * rhs.0) }
    fn div(self, rhs: Self) -> Self { F(self.0 / rhs.0) }
    fn rem(self, rhs: Self) -> Self { F(self.0 % rhs.0) }
    fn min(self, rhs: Self) -> Self { F(self.0.min(rhs.0)) }
    fn max(self, rhs: Self) -> Self { F(self.0.max(rhs.0)) }
    fn powf(self, rhs: Self) -> Self { F(self.0.powf(rhs.0)) }
    fn lt(self, rhs: Self) -> bool { self.0 < rhs.0 }
    fn le(self, rhs: Self) -> bool { self.0 <= rhs.0 }
    fn gt(self, rhs: Self) -> bool { self.0 > rhs.0 }
    fn ge(self, rhs: Self) -> bool { self.0 >= rhs.0 }
    fn zero_spec() -> Self { Self::zero() }
    fn one_spec() -> Self { Self::one() }
    fn pi_spec() -> Self { Self::pi() }
    fn ratio_spec(num: i64, den: i64) -> Self { Self::ratio(num, den) }
    fn from_usize_spec(n: usize) -> Self { Self::from_usize(n) }
    fn from_u32_spec(n: u32) -> Self { Self::from_u32(n) }
    fn to_usize_spec(self) -> usize { self.to_usize() }
    fn powi_spec(self, n: i32) -> Self { self.powi(n) }
    fn clamp_spec(self, lo: Self, hi: Self) -> Self { self.clamp(lo, hi) }
    fn neg_spec(self) -> Self { self.neg() }
    fn abs_spec(self) -> Self { self.abs() }
    fn signum_spec(self) -> Self { self.signum() }
    fn sqrt_spec(self) -> Self { self.sqrt() }
    fn floor_spec(self) -> Self { self.floor() }
    fn round_spec(self) -> Self { self.round() }
    fn fract_spec(self) -> Self { self.fract() }
    fn sin_spec(self) -> Self { self.sin() }
    fn cos_spec(self) -> Self { self.cos() }
    fn tan_spec(self) -> Self { self.tan() }
    fn tanh_spec(self) -> Self { self.tanh() }
    fn exp_spec(self) -> Self { self.exp() }
    fn ln_spec(self) -> Self { self.ln() }
    fn log10_spec(self) -> Self { self.log10() }
    fn add_spec(self, rhs: Self) -> Self { self.add(rhs) }
    fn sub_spec(self, rhs: Self) -> Self { self.sub(rhs) }
    fn mul_spec(self, rhs: Self) -> Self { self.mul(rhs) }
    fn div_spec(self, rhs: Self) -> Self { self.div(rhs) }
    fn rem_spec(self, rhs: Self) -> Self { self.rem(rhs) }
    fn min_spec(self, rhs: Self) -> Self { self.min(rhs) }
    fn max_spec(self, rhs: Self) -> Self { self.max(rhs) }
    fn powf_spec(self, rhs: Self) -> Self { self.powf(rhs) }
    fn lt_spec(self, rhs: Self) -> bool { self.lt(rhs) }
    fn le_spec(self, rhs: Self) -> bool { self.le(rhs) }
    fn gt_spec(self, rhs: Self) -> bool { self.gt(rhs) }
    fn ge_spec(self, rhs: Self) -> bool { self.ge(rhs) }
}

fn fs(values: &[f32]) -> Vec<F> {
    values.iter().map(|v| F(*v)).collect()
}

fn raw(values: &[F]) -> Vec<f32> {
    values.iter().map(|v| v.0).collect()
}

fn non_silent(buf: &[F]) -> bool {
    buf.iter().any(|v| v.0.abs() > 1e-6)
}

fn approx(a: f32, b: f32) {
    assert!((a - b).abs() < 1e-4, "{} != {}", a, b);
}

fn ramp(n: usize, seed: usize) -> Vec<F> {
    (0..n).map(|i| F((((i + seed) * 37 % 101) as f32) / 50.0 - 1.0)).collect()
}

#[test]
fn reset_after_init_state_changes_nothing() {
    let adsr = AdsrEnvelope { attack_ms: F(10.0), decay_ms: F(20.0), sustain_level: F(0.5), release_ms: F(30.0), curve: F(0.0) };
    let fresh = adsr.init_state(F(44100.0), 64);
    let mut state = adsr.init_state(F(44100.0), 64);
    adsr.reset(&mut state);
    assert_eq!(state.phase, AdsrPhase::Idle);
    assert_eq!((state.level, state.time_accum), (fresh.level, fresh.time_accum));

    let svf = SvfFilter { cutoff: F(1000.0), resonance: F(0.5), mode: SvfMode::Lowpass };
    let fresh = svf.init_state(F(44100.0), 64);
    let mut state = svf.init_state(F(44100.0), 64);
    svf.reset(&mut state);
    assert_eq!(
        [state.x1, state.x2, state.y1, state.y2, state.y3, state.y4],
        [fresh.x1, fresh.x2, fresh.y1, fresh.y2, fresh.y3, fresh.y4]
    );

    let delay = Delay { delay_ms: F(1.0), feedback: F(0.5), mix: F(0.5) };
    let fresh = delay.init_state(F(48000.0), 64);
    let mut state = delay.init_state(F(48000.0), 64);
    delay.reset(&mut state);
    assert_eq!(state.line.len(), 48);
    assert_eq!(state.line.len(), fresh.line.len());
    assert_eq!(state.line.cursor(), fresh.line.cursor());
    for i in 0..48 {
        assert_eq!(state.line.at(i), fresh.line.at(i));
    }

    let noise = PinkNoise;
    let mut state = noise.init_state(F(48000.0), 64);
    noise.reset(&mut state);
    assert_eq!(state.rng, NOISE_SEED);
    assert_eq!(state.brown, F(0.0));
    assert_eq!(state.pink.b6, F(0.0));
}

#[test]
fn reset_gives_the_first_output_again() {
    let input = ramp(64, 0);

    let svf = SvfFilter { cutoff: F(1000.0), resonance: F(0.7), mode: SvfMode::Bandpass };
    let mut state = svf.init_state(F(48000.0), 64);
    let mut first = vec![vec![F(0.0); 64]];
    svf.process_block(&mut state, &[&input], &mut first, F(48000.0)).unwrap();
    let mut again = vec![vec![F(0.0); 64]];
    svf.process_block(&mut state, &[&input], &mut again, F(48000.0)).unwrap();
    assert_ne!(raw(&again[0]), raw(&first[0]));
    svf.reset(&mut state);
    svf.process_block(&mut state, &[&input], &mut again, F(48000.0)).unwrap();
    assert_eq!(raw(&again[0]), raw(&first[0]));

    let chorus = Chorus { delay_ms: F(5.0), depth_ms: F(2.0), rate: F(1.5), mix: F(0.5) };
    let mut state = chorus.init_state(F(48000.0), 64);
    let len = state.line.len();
    chorus.process_block(&mut state, &[&input], &mut first, F(48000.0)).unwrap();
    chorus.process_block(&mut state, &[&input], &mut again, F(48000.0)).unwrap();
    chorus.reset(&mut state);
    assert_eq!(state.line.len(), len);
    chorus.process_block(&mut state, &[&input], &mut again, F(48000.0)).unwrap();
    assert_eq!(raw(&again[0]), raw(&first[0]));

    let saw = SuperSaw { freq: F(110.0), detune: F(0.1), voices: 4 };
    let mut state = saw.init_state(F(48000.0), 64);
    saw.process_block(&mut state, &[], &mut first, F(48000.0)).unwrap();
    saw.reset(&mut state);
    assert_eq!(state.phases.len(), 4);
    saw.process_block(&mut state, &[], &mut again, F(48000.0)).unwrap();
    assert_eq!(raw(&again[0]), raw(&first[0]));

    let reverb = SimpleReverb { decay: F(0.5), mix: F(0.5) };
    let mut state = reverb.init_state(F(48000.0), 64);
    reverb.process_block(&mut state, &[&input], &mut first, F(48000.0)).unwrap();
    reverb.reset(&mut state);
    reverb.process_block(&mut state, &[&input], &mut again, F(48000.0)).unwrap();
    assert_eq!(raw(&again[0]), raw(&first[0]));
}

#[test]
fn reset_after_new_changes_nothing() {
    let input = ramp(64, 3);
    let mut fresh = Lpf::new(F(1000.0), F(0.7));
    let mut node = Lpf::new(F(1000.0), F(0.7));
    node.reset();
    assert_eq!((node.cutoff, node.q), (fresh.cutoff, fresh.q));
    assert_eq!(
        [node.state.x1, node.state.x2, node.state.y1, node.state.y2],
        [fresh.state.x1, fresh.state.x2, fresh.state.y1, fresh.state.y2]
    );
    let mut a = vec![vec![F(0.0); 64]];
    let mut b = vec![vec![F(0.0); 64]];
    fresh.process(&[&input], &mut a, F(48000.0)).unwrap();
    node.process(&[&input], &mut b, F(48000.0)).unwrap();
    assert_eq!(raw(&a[0]), raw(&b[0]));

    let mut fresh = Rms::new(8);
    let mut node = Rms::new(8);
    node.reset();
    assert_eq!(node.line.len(), 8);
    assert_eq!(node.sum_squares, F(0.0));
    fresh.process(&[&input], &mut a, F(48000.0)).unwrap();
    node.process(&[&input], &mut b, F(48000.0)).unwrap();
    assert_eq!(raw(&a[0]), raw(&b[0]));

    let mut fresh = Reverb::new(F(0.5), F(0.5), F(48000.0));
    let mut node = Reverb::new(F(0.5), F(0.5), F(48000.0));
    node.process(&[&input], &mut b, F(48000.0)).unwrap();
    node.reset();
    assert_eq!(node.line1.len(), 2400);
    fresh.process(&[&input], &mut a, F(48000.0)).unwrap();
    node.process(&[&input], &mut b, F(48000.0)).unwrap();
    assert_eq!(raw(&a[0]), raw(&b[0]));
}

#[test]
fn output_keeps_its_length_and_a_wrong_length_is_an_error() {
    let svf = SvfFilter { cutoff: F(1000.0), resonance: F(0.5), mode: SvfMode::Lowpass };
    let mut state = svf.init_state(F(48000.0), 64);
    let input = ramp(64, 0);
    let mut out = vec![vec![F(0.0); 64]];
    for _ in 0..10 {
        svf.process_block(&mut state, &[&input], &mut out, F(48000.0)).unwrap();
        assert_eq!(out[0].len(), input.len());
    }
    let before = state;
    let mut short = vec![vec![F(7.0); 32]];
    assert_eq!(
        svf.process_block(&mut state, &[&input], &mut short, F(48000.0)),
        Err(ShapeError::LengthMismatch)
    );
    assert!(short[0].iter().all(|v| v.0 == 7.0));
    assert_eq!(state.y1, before.y1);
    assert_eq!(state.y2, before.y2);
}

#[test]
fn saw_rises_over_the_first_quarter_period() {
    let node = SawOsc::new(F(440.0));
    let mut state = node.init_state(F(48000.0), 64);
    let mut out = vec![vec![F(0.0); 64]];
    node.process_block(&mut state, &[], &mut out, F(48000.0)).unwrap();
    // a period is 48000 / 440 samples, a quarter of it 27
    assert!(out[0][0].0.abs() < 0.1);
    assert_eq!(out[0][0].0, 0.0);
    for i in 1..27 {
        assert!(out[0][i].0 > out[0][i - 1].0, "sample {}", i);
    }
    // the ramp covers two units per period
    approx(out[0][6].0, 2.0 * 6.0 * 440.0 / 48000.0);
    approx(out[0][27].0, 2.0 * 27.0 * 440.0 / 48000.0);
    // it steps down in the middle of the period, between samples 54 and 55
    assert!(out[0][54].0 > 0.98);
    assert!(out[0][55].0 < -0.9);
}

#[test]
fn constant_fills_the_block_with_its_value() {
    let node = Constant { value: F(0.25) };
    let mut state = node.init_state(F(48000.0), 64);
    let mut out = vec![vec![F(0.0); 64]];
    for _ in 0..3 {
        node.process_block(&mut state, &[], &mut out, F(48000.0)).unwrap();
        assert!(out[0].iter().all(|v| (v.0 - 0.25).abs() < 1e-6));
    }
}

#[test]
fn adsr_rises_while_its_gate_is_high() {
    let node = AdsrEnvelope { attack_ms: F(10.0), decay_ms: F(20.0), sustain_level: F(0.5), release_ms: F(30.0), curve: F(0.0) };
    let mut state = node.init_state(F(44100.0), 64);
    let mut gate = vec![F(1.0); 32];
    gate.extend(vec![F(0.0); 32]);
    let mut out = vec![vec![F(0.0); 64]];
    node.process_block(&mut state, &[&gate], &mut out, F(44100.0)).unwrap();
    // the sample at which its gate opens starts the attack at level zero
    assert_eq!(out[0][0].0, 0.0);
    for i in 1..32 {
        assert!(out[0][i].0 > out[0][i - 1].0, "sample {}", i);
        assert!(out[0][i].0 > 0.0 && out[0][i].0 < 1.0);
    }
    // a straight attack of 10 ms gains 1 / 441 per sample
    approx(out[0][31].0, 31.0 / 441.0);
    // the release runs from the sustain level
    for i in 32..64 {
        assert!(out[0][i].0 > 0.0, "sample {}", i);
    }
    assert_eq!(state.phase, AdsrPhase::Release);
}

fn peak_after_blocks<P: FnMut(&[F], &mut Vec<Vec<F>>)>(mut process: P) -> f32 {
    let input = vec![F(1.0); 64];
    let mut out = vec![vec![F(0.0); 64]];
    let mut peak: f32 = 0.0;
    for _ in 0..1000 {
        process(&input, &mut out);
        for v in out[0].iter() {
            assert!(v.0.is_finite());
            peak = peak.max(v.0.abs());
        }
    }
    peak
}

#[test]
fn filters_stay_bounded_at_high_resonance() {
    for resonance in [0.0, 0.5, 0.9, 0.99] {
        let ladder = LadderFilter { cutoff: F(1000.0), resonance: F(resonance), drive: F(1.0) };
        let mut state = ladder.init_state(F(48000.0), 64);
        let peak = peak_after_blocks(|input, out| {
            ladder.process_block(&mut state, &[input], out, F(48000.0)).unwrap();
        });
        assert!(peak < 10.0, "ladder at {}: {}", resonance, peak);

        for mode in [SvfMode::Lowpass, SvfMode::Highpass, SvfMode::Bandpass, SvfMode::Notch] {
            let svf = SvfFilter { cutoff: F(1000.0), resonance: F(resonance), mode };
            let mut state = svf.init_state(F(48000.0), 64);
            let peak = peak_after_blocks(|input, out| {
                svf.process_block(&mut state, &[input], out, F(48000.0)).unwrap();
            });
            assert!(peak < 10.0, "svf at {}: {}", resonance, peak);
        }

        let mut plain = PlainLadder::new(F(1000.0), F(resonance));
        let peak = peak_after_blocks(|input, out| {
            plain.process(&[input], out, F(48000.0)).unwrap();
        });
        assert!(peak < 10.0, "plain ladder at {}: {}", resonance, peak);

        // a comb with damping in its loop
        let comb = CombFilter { delay_ms: F(10.0), feedback: F(resonance), damp: F(0.2) };
        let mut state = comb.init_state(F(48000.0), 64);
        let peak = peak_after_blocks(|input, out| {
            comb.process_block(&mut state, &[input], out, F(48000.0)).unwrap();
        });
        assert!(peak < 10.0, "comb at {}: {}", resonance, peak);
    }
    let mut svf = StateVariableFilter::new(F(1000.0), F(0.99), PlainSvfMode::Lowpass);
    let peak = peak_after_blocks(|input, out| {
        svf.process(&[input], out, F(48000.0)).unwrap();
    });
    assert!(peak < 10.0);
}

#[test]
fn feedback_beyond_the_bound_does_not_run_away() {
    // without damping a comb sums a constant input up to 1 / (1 - feedback); the
    // feedback is held at 0.99, so the sum stays below a hundred
    let comb = CombFilter { delay_ms: F(1.0), feedback: F(5.0), damp: F(0.0) };
    let mut state = comb.init_state(F(48000.0), 64);
    let peak = peak_after_blocks(|input, out| {
        comb.process_block(&mut state, &[input], out, F(48000.0)).unwrap();
    });
    assert!(peak > 50.0 && peak < 100.0, "{}", peak);

    let delay = Delay { delay_ms: F(1.0), feedback: F(-3.0), mix: F(1.0) };
    let mut state = delay.init_state(F(48000.0), 64);
    let peak = peak_after_blocks(|input, out| {
        delay.process_block(&mut state, &[input], out, F(48000.0)).unwrap();
    });
    assert!(peak < 3.0, "{}", peak);
}

#[test]
fn cutting_a_stream_into_blocks_does_not_change_it() {
    let input = ramp(64, 11);
    let svf = SvfFilter { cutoff: F(2000.0), resonance: F(0.8), mode: SvfMode::Lowpass };
    let mut whole_state = svf.init_state(F(48000.0), 64);
    let mut whole = vec![vec![F(0.0); 64]];
    svf.process_block(&mut whole_state, &[&input], &mut whole, F(48000.0)).unwrap();
    let mut state = svf.init_state(F(48000.0), 64);
    let mut parts: Vec<f32> = Vec::new();
    for chunk in input.chunks(16) {
        let mut out = vec![vec![F(0.0); 16]];
        svf.process_block(&mut state, &[chunk], &mut out, F(48000.0)).unwrap();
        parts.extend(raw(&out[0]));
    }
    assert_eq!(parts, raw(&whole[0]));
    assert_eq!(state.y2, whole_state.y2);

    let delay = Delay { delay_ms: F(0.5), feedback: F(0.5), mix: F(0.5) };
    let mut whole_state = delay.init_state(F(48000.0), 64);
    delay.process_block(&mut whole_state, &[&input], &mut whole, F(48000.0)).unwrap();
    let mut state = delay.init_state(F(48000.0), 64);
    let mut parts: Vec<f32> = Vec::new();
    for chunk in input.chunks(5) {
        let mut out = vec![vec![F(0.0); chunk.len()]];
        delay.process_block(&mut state, &[chunk], &mut out, F(48000.0)).unwrap();
        parts.extend(raw(&out[0]));
    }
    assert_eq!(parts, raw(&whole[0]));
}

#[test]
fn two_runs_give_the_same_samples() {
    let input = ramp(64, 5);
    let run = || {
        let node = PinkNoise;
        let mut state = node.init_state(F(48000.0), 64);
        let mut out = vec![vec![F(0.0); 64]];
        node.process_block(&mut state, &[], &mut out, F(48000.0)).unwrap();
        let chorus = Chorus { delay_ms: F(5.0), depth_ms: F(2.0), rate: F(1.5), mix: F(0.5) };
        let mut state = chorus.init_state(F(48000.0), 64);
        let mut wet = vec![vec![F(0.0); 64]];
        chorus.process_block(&mut state, &[&input], &mut wet, F(48000.0)).unwrap();
        (raw(&out[0]), raw(&wet[0]))
    };
    assert_eq!(run(), run());
}

#[test]
fn a_state_keeps_its_size() {
    let input = ramp(64, 0);
    let mut out = vec![vec![F(0.0); 64]];
    let reverb = SimpleReverb { decay: F(0.5), mix: F(0.5) };
    let mut state = reverb.init_state(F(48000.0), 64);
    let sizes = [state.comb1.len(), state.comb2.len(), state.comb3.len(), state.comb4.len()];
    assert_eq!(sizes, [1425, 1780, 1972, 2097]);
    let saw = SuperSaw { freq: F(110.0), detune: F(0.1), voices: 7 };
    let mut phases = saw.init_state(F(48000.0), 64);
    let capacity = out[0].capacity();
    for _ in 0..100 {
        reverb.process_block(&mut state, &[&input], &mut out, F(48000.0)).unwrap();
        saw.process_block(&mut phases, &[], &mut out, F(48000.0)).unwrap();
    }
    assert_eq!([state.comb1.len(), state.comb2.len(), state.comb3.len(), state.comb4.len()], sizes);
    assert_eq!(phases.phases.len(), 7);
    assert_eq!(out[0].len(), 64);
    assert_eq!(out[0].capacity(), capacity);
}
