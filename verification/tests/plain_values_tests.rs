use auxide_dsp::analysis::{FrequencyAnalyzer, OnsetDetector, Peak, PitchDetector, Rms, SpectralCentroid};
use auxide_dsp::dynamics::{smoothing_coefficient, Compressor, Gate, Limiter};
use auxide_dsp::effects::{capped_delay, Chorus, ConvolutionReverb, Delay, Flanger, MultiTapDelay, Phaser, Reverb};
use auxide_dsp::envelopes::{Adsr, Ar, Decay, EnvelopeCurve, EnvelopeStage, EnvelopeState, MultiStageEnvelope};
use auxide_dsp::filters::{
    Allpass, BiquadCoeffs, BiquadState, Bpf, CombFilter, FormantFilter, Hpf, LadderFilter, Lpf, Notch, Peak as PeakFilter,
    ShelfHigh, ShelfLow, StateVariableFilter, SvfMode,
};
use auxide_dsp::math::{Abs, Add, Clamp, Cos, Div, Exp, Ln, Multiply, Offset, Pow, Scale, Sin, Sub};
use auxide_dsp::modulators::{FrequencyShifter, Lfo, LfoWaveform, RingModulator, Tremolo};
use auxide_dsp::oscillators::{NoiseOsc, PulseOsc, SawOsc, SineFm, SineOsc, SquareOsc, TriangleOsc};
use auxide_dsp::sample::Sample;
use auxide_dsp::utility::{Dummy, Gain, Mix, OutputSink};

#[derive(Debug, Clone, Copy, PartialEq, PartialOrd)]
struct F(f32);

impl Sample for F {
    fn obeys_sample_spec() -> bool { true }
    fn zero() -> Self { F(0.0) }
    fn one() -> Self { F(1.0) }
    fn pi() -> Self { F(std::f32::consts::PI) }
    fn ratio(num: i64, den: i64) -> Self { F(num as f32 / den as f32) }
    fn from_usize(n: usize) -> Self { F(n as f32) }
    fn from_u32(n: u32) -> Self { F(n as f32) }
    fn to_usize(self) -> usize { self.0 as usize }
    fn powi(self, n: i32) -> Self { F(self.0.powi(n)) }
    fn clamp(self, lo: Self, hi: Self) -> Self {
        if lo.0 <= hi.0 { F(self.0.clamp(lo.0, hi.0)) } else { F(self.0.max(lo.0).min(hi.0)) }
    }
    fn neg(self) -> Self { F(-self.0) }
    fn abs(self) -> Self { F(self.0.abs()) }
    fn signum(self) -> Self { F(self.0.signum()) }
    fn sqrt(self) -> Self { F(self.0.sqrt()) }
    fn floor(self) -> Self { F(self.0.floor()) }
    fn round(self) -> Self { F(self.0.round()) }
    fn fract(self) -> Self { F(self.0.fract()) }
    fn sin(self) -> Self { F(self.0.sin()) }
    fn cos(self) -> Self { F(self.0.cos()) }
    fn tan(self) -> Self { F(self.0.tan()) }
    fn tanh(self) -> Self { F(self.0.tanh()) }
    fn exp(self) -> Self { F(self.0.exp()) }
    fn ln(self) -> Self { F(self.0.ln()) }
    fn log10(self) -> Self { F(self.0.log10()) }
    fn add(self, rhs: Self) -> Self { F(self.0 + rhs.0) }
    fn sub(self, rhs: Self) -> Self { F(self.0 - rhs.0) }
    fn mul(self, rhs: Self) -> Self { F(self.0 * rhs.0) }
    fn div(self, rhs: Self) -> Self { F(self.0 / rhs.0) }
    fn rem(self, rhs: Self) -> Self { F(self.0 % rhs.0) }
    fn min(self, rhs: Self) -> Self { F(self.0.min(rhs.0)) }
    fn max(self, rhs: Self) -> Self { F(self.0.max(rhs.0)) }
    fn powf(self, rhs: Self) -> Self { F(self.0.powf(rhs.0)) }
    fn lt(self, rhs: Self) -> bool { self.0 < rhs.0 }
    fn le(self, rhs: Self) -> bool { self.0 <= rhs.0 }
    fn gt(self, rhs: Self) -> bool { self.0 > rhs.0 }
    fn ge(self, rhs: Self) -> bool { self.0 >= rhs.0 }
    fn zero_spec() -> Self { Self::zero() }
    fn one_spec() -> Self { Self::one() }
    fn pi_spec() -> Self { Self::pi() }
    fn ratio_spec(num: i64, den: i64) -> Self { Self::ratio(num, den) }
    fn from_usize_spec(n: usize) -> Self { Self::from_usize(n) }
    fn from_u32_spec(n: u32) -> Self { Self::from_u32(n) }
    fn to_usize_spec(self) -> usize { self.to_usize() }
    fn powi_spec(self, n: i32) -> Self { self.powi(n) }
    fn clamp_spec(self, lo: Self, hi: Self) -> Self { self.clamp(lo, hi) }
    fn neg_spec(self) -> Self { self.neg() }
    fn abs_spec(self) -> Self { self.abs() }
    fn signum_spec(self) -> Self { self.signum() }
    fn sqrt_spec(self) -> Self { self.sqrt() }
    fn floor_spec(self) -> Self { self.floor() }
    fn round_spec(self) -> Self { self.round() }
    fn fract_spec(self) -> Self { self.fract() }
    fn sin_spec(self) -> Self { self.sin() }
    fn cos_spec(self) -> Self { self.cos() }
    fn tan_spec(self) -> Self { self.tan() }
    fn tanh_spec(self) -> Self { self.tanh() }
    fn exp_spec(self) -> Self { self.exp() }
    fn ln_spec(self) -> Self { self.ln() }
    fn log10_spec(self) -> Self { self.log10() }
    fn add_spec(self, rhs: Self) -> Self { self.add(rhs) }
    fn sub_spec(self, rhs: Self) -> Self { self.sub(rhs) }
    fn mul_spec(self, rhs: Self) -> Self { self.mul(rhs) }
    fn div_spec(self, rhs: Self) -> Self { self.div(rhs) }
    fn rem_spec(self, rhs: Self) -> Self { self.rem(rhs) }
    fn min_spec(self, rhs: Self) -> Self { self.min(rhs) }
    fn max_spec(self, rhs: Self) -> Self { self.max(rhs) }
    fn powf_spec(self, rhs: Self) -> Self { self.powf(rhs) }
    fn lt_spec(self, rhs: Self) -> bool { self.lt(rhs) }
    fn le_spec(self, rhs: Self) -> bool { self.le(rhs) }
    fn gt_spec(self, rhs: Self) -> bool { self.gt(rhs) }
    fn ge_spec(self, rhs: Self) -> bool { self.ge(rhs) }
}

fn fs(values: &[f32]) -> Vec<F> {
    values.iter().map(|v| F(*v)).collect()
}

fn raw(values: &[F]) -> Vec<f32> {
    values.iter().map(|v| v.0).collect()
}

fn non_silent(buf: &[F]) -> bool {
    buf.iter().any(|v| v.0.abs() > 1e-6)
}

fn approx(a: f32, b: f32) {
    assert!((a - b).abs() < 1e-4, "{} != {}", a, b);
}

fn close(got: &[F], want: &[f32]) {
    assert_eq!(got.len(), want.len());
    for (g, w) in got.iter().zip(want.iter()) {
        assert!((g.0 - w).abs() < 1e-4, "{:?} != {:?}", raw(got), want);
    }
}

#[test]
fn math_nodes() {
    let a = fs(&[1.0, 2.0, -3.0]);
    let b = fs(&[3.0, 4.0, 0.0]);
    let c = fs(&[0.5, 0.5, 0.5]);
    let mut out = vec![vec![F(9.0); 3]];
    let sr = F(48000.0);

    Add::new().process(&[&a[..], &b[..]], &mut out, sr).unwrap();
    assert_eq!(raw(&out[0]), vec![4.0, 6.0, -3.0]);
    Add::new().process(&[&a[..], &b[..], &c[..]], &mut out, sr).unwrap();
    assert_eq!(raw(&out[0]), vec![4.5, 6.5, -2.5]);
    Multiply::new().process(&[&a[..], &b[..], &c[..]], &mut out, sr).unwrap();
    assert_eq!(raw(&out[0]), vec![1.5, 4.0, -0.0]);
    Sub::new().process(&[&a[..], &b[..], &c[..]], &mut out, sr).unwrap();
    assert_eq!(raw(&out[0]), vec![-2.5, -2.5, -3.5]);
    // a divisor below 0.0001 counts as 0.0001
    Div::new().process(&[&a[..], &b[..]], &mut out, sr).unwrap();
    close(&out[0], &[1.0 / 3.0, 0.5, -3.0 / 0.0001]);

    Scale::new(F(2.0)).process(&[&a[..]], &mut out, sr).unwrap();
    assert_eq!(raw(&out[0]), vec![2.0, 4.0, -6.0]);
    Offset::new(F(0.5)).process(&[&a[..]], &mut out, sr).unwrap();
    assert_eq!(raw(&out[0]), vec![1.5, 2.5, -2.5]);
    Abs::new().process(&[&a[..]], &mut out, sr).unwrap();
    assert_eq!(raw(&out[0]), vec![1.0, 2.0, 3.0]);
    Exp::new().process(&[&b[..]], &mut out, sr).unwrap();
    close(&out[0], &[3.0f32.exp(), 4.0f32.exp(), 1.0]);
    Ln::new().process(&[&b[..]], &mut out, sr).unwrap();
    close(&out[0], &[3.0f32.ln(), 4.0f32.ln(), 0.0001f32.ln()]);
    Pow::new(F(2.0)).process(&[&a[..]], &mut out, sr).unwrap();
    assert_eq!(raw(&out[0]), vec![1.0, 4.0, 9.0]);
    let turns = fs(&[0.0, 0.25, 0.5]);
    Sin::new().process(&[&turns[..]], &mut out, sr).unwrap();
    close(&out[0], &[0.0, 1.0, 0.0]);
    Cos::new().process(&[&turns[..]], &mut out, sr).unwrap();
    close(&out[0], &[1.0, 0.0, -1.0]);
    Clamp::new(F(-1.0), F(1.5)).process(&[&a[..]], &mut out, sr).unwrap();
    assert_eq!(raw(&out[0]), vec![1.0, 1.5, -1.0]);
    assert_eq!((Add::new().num_inputs(), Add::new().num_outputs()), (2, 1));
    assert_eq!(Scale::new(F(1.0)).num_inputs(), 1);
}

#[test]
fn utility_nodes() {
    let a = fs(&[1.0, 2.0]);
    let b = fs(&[0.25, 0.5]);
    let mut out = vec![vec![F(9.0); 2]];
    let sr = F(48000.0);
    let mut gain = Gain::new(F(0.5));
    gain.process(&[&a[..]], &mut out, sr).unwrap();
    assert_eq!(raw(&out[0]), vec![0.5, 1.0]);
    gain.reset();
    assert_eq!(gain.gain, F(0.5));
    Mix::new().process(&[&a[..]], &mut out, sr).unwrap();
    assert_eq!(raw(&out[0]), vec![1.0, 2.0]);
    Mix::new().process(&[&a[..], &b[..], &b[..]], &mut out, sr).unwrap();
    assert_eq!(raw(&out[0]), vec![1.5, 3.0]);
    assert_eq!(Mix::new().num_inputs(), 1);
    Dummy::new().process(&[&b[..]], &mut out, sr).unwrap();
    assert_eq!(raw(&out[0]), vec![0.25, 0.5]);
    assert_eq!((OutputSink::new().num_inputs(), OutputSink::new().num_outputs()), (1, 0));
}

#[test]
fn biquad_section() {
    let c = BiquadCoeffs { a0: F(0.5), a1: F(0.25), a2: F(0.125), b1: F(0.5), b2: F(0.25) };
    let rest: BiquadState<F> = BiquadState::zeroed();
    let (s1, y1) = rest.tick(c, F(1.0));
    assert_eq!(y1, F(0.5));
    let (s2, y2) = s1.tick(c, F(0.0));
    assert_eq!(y2, F(0.0));
    let (s3, y3) = s2.tick(c, F(0.0));
    assert_eq!(y3, F(0.0));
    assert_eq!((s3.x1, s3.x2, s3.y1, s3.y2), (F(0.0), F(0.0), F(0.0), F(0.0)));
}

fn settle<P: FnMut(&[F], &mut Vec<Vec<F>>)>(mut process: P, input: f32) -> f32 {
    let block = vec![F(input); 64];
    let mut out = vec![vec![F(0.0); 64]];
    for _ in 0..200 {
        process(&block, &mut out);
    }
    out[0][63].0
}

#[test]
fn biquad_filters_at_zero_frequency() {
    let sr = F(48000.0);
    let k = (std::f32::consts::PI * 1000.0 / 48000.0).tan();
    let norm = 1.0 / (1.0 + k / 0.7 + k * k);

    let mut lpf = Lpf::new(F(1000.0), F(0.7));
    let c = lpf.coefficients(sr);
    approx(c.a0.0, k * k * norm);
    approx(c.a1.0, 2.0 * k * k * norm);
    approx(c.b1.0, 2.0 * (k * k - 1.0) * norm);
    approx(c.b2.0, (1.0 - k / 0.7 + k * k) * norm);
    let mut out = vec![vec![F(0.0); 1]];
    lpf.process(&[&[F(1.0)][..]], &mut out, sr).unwrap();
    approx(out[0][0].0, k * k * norm);
    assert_eq!(lpf.state.x1, F(1.0));
    approx(settle(|x, out| lpf.process(&[x], out, sr).unwrap(), 1.0), 1.0);

    let mut hpf = Hpf::new(F(1000.0), F(0.7));
    approx(hpf.coefficients(sr).a0.0, norm);
    approx(settle(|x, out| hpf.process(&[x], out, sr).unwrap(), 1.0), 0.0);
    let mut bpf = Bpf::new(F(1000.0), F(0.7));
    approx(bpf.coefficients(sr).a0.0, k / 0.7 * norm);
    approx(settle(|x, out| bpf.process(&[x], out, sr).unwrap(), 1.0), 0.0);
    let mut notch = Notch::new(F(1000.0), F(0.7));
    approx(settle(|x, out| notch.process(&[x], out, sr).unwrap(), 1.0), 1.0);
    let allpass: Allpass<F> = Allpass::new(F(1000.0), F(0.7));
    let c = allpass.coefficients(sr);
    approx(c.a0.0, (1.0 - k / 0.7 + k * k) * norm);
    approx(c.a2.0, 1.0);
    approx(c.b2.0, c.a0.0);
    // a gain of no decibels leaves a shelving and a peaking filter flat
    let mut low = ShelfLow::new(F(1000.0), F(0.0));
    approx(settle(|x, out| low.process(&[x], out, sr).unwrap(), 1.0), 1.0);
    let mut high = ShelfHigh::new(F(1000.0), F(0.0));
    approx(settle(|x, out| high.process(&[x], out, sr).unwrap(), 1.0), 1.0);
    let mut peak = PeakFilter::new(F(1000.0), F(0.7), F(0.0));
    approx(settle(|x, out| peak.process(&[x], out, sr).unwrap(), 1.0), 1.0);
    // a low shelf of six decibels doubles a constant
    let mut low = ShelfLow::new(F(1000.0), F(6.0206));
    approx(settle(|x, out| low.process(&[x], out, sr).unwrap(), 1.0), 2.0);
    let mut formant = FormantFilter::new(F(1000.0), F(100.0));
    approx(settle(|x, out| formant.process(&[x], out, sr).unwrap(), 1.0), 0.0);
    formant.reset();
    assert_eq!(formant.state.y1, F(0.0));
}

#[test]
fn other_filters() {
    let sr = F(48000.0);
    let mut out = vec![vec![F(0.0); 1]];
    let f = 2.0 * (std::f32::consts::PI * 1000.0 / 48000.0).sin();
    for (mode, first) in [
        (SvfMode::Lowpass, f * f),
        (SvfMode::Highpass, 1.0),
        (SvfMode::Bandpass, f),
        (SvfMode::Notch, 1.0 - f),
    ] {
        let mut svf = StateVariableFilter::new(F(1000.0), F(0.5), mode);
        svf.process(&[&[F(1.0)][..]], &mut out, sr).unwrap();
        approx(out[0][0].0, first);
        approx(svf.z1.0, f);
        approx(svf.z2.0, f * f);
    }
    let mut ladder = LadderFilter::new(F(1000.0), F(0.5));
    let fc = 1000.0f32 / 48000.0;
    let p = (3.6 * fc - 1.6 * fc * fc - 1.0 + 1.0) * 0.5;
    let c = ladder.coefficients(sr);
    approx(c.0.0, p);
    approx(c.1.0, 0.5 * (1.0 - p).powi(4));
    ladder.process(&[&[F(1.0)][..]], &mut out, sr).unwrap();
    approx(out[0][0].0, p * p * p * p);
    approx(settle(|x, out| ladder.process(&[x], out, sr).unwrap(), 1.0), 1.0 / (1.0 + 0.5 * (1.0 - p).powi(4)));

    // a resonance beyond the bound counts as the bound
    let wild = LadderFilter::new(F(1000.0), F(5.0)).coefficients(sr);
    let held = LadderFilter::new(F(1000.0), F(0.99)).coefficients(sr);
    assert_eq!((wild.0, wild.1), (held.0, held.1));
    approx(held.1.0, 0.99 * (1.0 - p).powi(4));
    let below = LadderFilter::new(F(1000.0), F(-1.0)).coefficients(sr);
    assert_eq!(below.1, F(0.0));

    // and so does the feedback of the comb
    let mut comb = CombFilter::new(1, F(3.0), F(0.0));
    let mut out = vec![vec![F(0.0); 3]];
    comb.process(&[&fs(&[1.0, 0.0, 0.0])[..]], &mut out, sr).unwrap();
    close(&out[0], &[1.0, 0.99, 0.99 * 0.99]);
    let mut comb = CombFilter::new(1, F(-3.0), F(0.0));
    comb.process(&[&fs(&[1.0, 0.0, 0.0])[..]], &mut out, sr).unwrap();
    close(&out[0], &[1.0, -0.99, 0.99 * 0.99]);

    let mut comb = CombFilter::new(2, F(0.5), F(0.0));
    assert_eq!(comb.line.len(), 2);
    let input = fs(&[1.0, 0.0, 0.0, 0.0, 0.0]);
    let mut out = vec![vec![F(0.0); 5]];
    comb.process(&[&input[..]], &mut out, sr).unwrap();
    assert_eq!(raw(&out[0]), vec![1.0, 0.0, 0.5, 0.0, 0.25]);
    assert_eq!(comb.last_output, F(0.25));
    comb.reset();
    assert_eq!((comb.last_output, comb.line.len(), comb.line.cursor()), (F(0.0), 2, 0));
    // with damping the last output enters the loop
    let mut comb = CombFilter::new(1, F(0.5), F(0.5));
    comb.process(&[&input[..]], &mut out, sr).unwrap();
    assert_eq!(raw(&out[0]), vec![1.0, 0.5, 0.25, 0.125, 0.0625]);
}

#[test]
fn envelopes_follow_their_phases() {
    let sr = F(1000.0);
    let mut adsr = Adsr::new(F(4.0), F(2.0), F(0.5), F(2.0), sr);
    assert_eq!((adsr.attack_rate, adsr.decay_rate, adsr.release_rate), (F(0.25), F(0.5), F(0.5)));
    assert_eq!(adsr.state, EnvelopeState::Idle);
    let mut out = vec![vec![F(9.0); 8]];
    adsr.process(&[], &mut out, sr).unwrap();
    assert_eq!(raw(&out[0]), vec![0.0; 8]);
    adsr.trigger(false);
    assert_eq!(adsr.state, EnvelopeState::Idle);
    adsr.trigger(true);
    assert_eq!((adsr.state, adsr.gate), (EnvelopeState::Attack, true));
    adsr.trigger(true);
    assert_eq!(adsr.state, EnvelopeState::Attack);
    adsr.process(&[], &mut out, sr).unwrap();
    // four samples of attack, two of decay by a quarter each, then the sustain
    assert_eq!(raw(&out[0]), vec![0.25, 0.5, 0.75, 1.0, 0.75, 0.5, 0.5, 0.5]);
    assert_eq!(adsr.state, EnvelopeState::Sustain);
    adsr.trigger(false);
    assert_eq!((adsr.state, adsr.gate), (EnvelopeState::Release, false));
    adsr.process(&[], &mut out, sr).unwrap();
    assert_eq!(raw(&out[0]), vec![0.25, 0.0, 0.0, 0.0, 0.0, 0.0, 0.0, 0.0]);
    assert_eq!(adsr.state, EnvelopeState::Idle);
    adsr.trigger(true);
    adsr.reset();
    assert_eq!((adsr.state, adsr.gate, adsr.level), (EnvelopeState::Idle, false, F(0.0)));
    // the sustain level is held in [0, 1]
    assert_eq!(Adsr::new(F(4.0), F(2.0), F(3.0), F(2.0), sr).sustain_level, F(1.0));
    assert_eq!((adsr.num_inputs(), adsr.num_outputs()), (0, 1));

    let mut ar = Ar::new(F(2.0), F(4.0), sr);
    let mut out = vec![vec![F(9.0); 4]];
    ar.trigger(true);
    ar.process(&[], &mut out, sr).unwrap();
    assert_eq!(raw(&out[0]), vec![0.5, 1.0, 1.0, 1.0]);
    ar.trigger(false);
    assert_eq!(ar.state, EnvelopeState::Release);
    // a release is not started again
    ar.trigger(true);
    assert_eq!(ar.state, EnvelopeState::Release);
    ar.process(&[], &mut out, sr).unwrap();
    assert_eq!(raw(&out[0]), vec![0.75, 0.5, 0.25, 0.0]);
    assert_eq!(ar.state, EnvelopeState::Idle);

    let mut decay = Decay::new(F(4.0), sr);
    decay.process(&[], &mut out, sr).unwrap();
    assert_eq!(raw(&out[0]), vec![0.0; 4]);
    decay.trigger();
    assert_eq!((decay.level, decay.triggered), (F(1.0), true));
    decay.process(&[], &mut out, sr).unwrap();
    assert_eq!(raw(&out[0]), vec![0.75, 0.5, 0.25, 0.0]);
    assert!(!decay.triggered);
}

#[test]
fn multi_stage_envelope_runs_through_its_stages() {
    let sr = F(1000.0);
    let stages = vec![
        EnvelopeStage { duration_ms: F(2.0), target_level: F(1.0), curve: EnvelopeCurve::Linear },
        EnvelopeStage { duration_ms: F(4.0), target_level: F(0.5), curve: EnvelopeCurve::Linear },
    ];
    let mut node = MultiStageEnvelope::new(stages, sr);
    let mut out = vec![vec![F(9.0); 10]];
    node.process(&[], &mut out, sr).unwrap();
    // each stage ends with one sample at its target
    assert_eq!(raw(&out[0]), vec![0.0, 0.5, 1.0, 1.0, 0.875, 0.75, 0.625, 0.5, 0.5, 0.5]);
    assert_eq!(node.current_stage, 2);
    node.trigger();
    assert_eq!((node.current_stage, node.level, node.stage_time), (0, F(0.0), F(0.0)));
    let mut again = vec![vec![F(9.0); 10]];
    node.process(&[], &mut again, sr).unwrap();
    assert_eq!(raw(&again[0]), raw(&out[0]));
    node.reset();
    assert_eq!(node.current_stage, 0);
    assert_eq!(node.stages.len(), 2);

    let mut empty: MultiStageEnvelope<F> = MultiStageEnvelope::new(Vec::new(), sr);
    empty.process(&[], &mut out, sr).unwrap();
    assert_eq!(raw(&out[0]), vec![0.0; 10]);

    approx(MultiStageEnvelope::shaped(EnvelopeCurve::Linear, F(1.0), F(3.0), F(0.25)).0, 1.5);
    approx(MultiStageEnvelope::shaped(EnvelopeCurve::Exponential, F(1.0), F(4.0), F(0.5)).0, 2.0);
    approx(MultiStageEnvelope::shaped(EnvelopeCurve::Logarithmic, F(1.0), F(4.0), F(0.5)).0, (1.0 + 4.0f32.ln() * 0.5).exp());
    // a start of zero is floored where it divides, and still scales the level
    approx(MultiStageEnvelope::shaped(EnvelopeCurve::Exponential, F(0.0), F(4.0), F(0.5)).0, 0.0);
}

#[test]
fn dynamics_convert_decibels() {
    let sr = F(1000.0);
    let a = (-1.0f32).exp();
    approx(smoothing_coefficient(F(1.0), sr).0, a);
    let envelope = 1.0 - a;
    let mut out = vec![vec![F(0.0); 1]];
    let input = [F(1.0)];

    let mut limiter = Limiter::new(F(-6.0206), F(1.0), F(1.0), sr);
    approx(limiter.threshold.0, 0.5);
    approx(limiter.attack_coeff.0, a);
    limiter.process(&[&input[..]], &mut out, sr).unwrap();
    approx(limiter.envelope.0, envelope);
    approx(out[0][0].0, 0.5 / envelope);
    limiter.reset();
    assert_eq!(limiter.envelope, F(0.0));
    approx(limiter.threshold.0, 0.5);

    let mut compressor = Compressor::new(F(-6.0206), F(4.0), F(1.0), F(1.0), F(6.0206), sr);
    approx(compressor.threshold.0, 0.5);
    approx(compressor.ratio.0, 0.25);
    approx(compressor.makeup_gain.0, 2.0);
    compressor.process(&[&input[..]], &mut out, sr).unwrap();
    approx(out[0][0].0, (envelope / 0.5).powf(0.25 - 1.0) * 2.0);

    let mut gate = Gate::new(F(0.0), F(2.0), F(1.0), F(1.0), sr);
    approx(gate.threshold.0, 1.0);
    gate.process(&[&input[..]], &mut out, sr).unwrap();
    approx(out[0][0].0, (1.0 / envelope).powf(1.0 - 2.0));
    // silence stays silence: the envelope is floored before it divides
    let mut gate = Gate::new(F(0.0), F(2.0), F(1.0), F(1.0), sr);
    gate.process(&[&[F(0.0)][..]], &mut out, sr).unwrap();
    assert_eq!(out[0][0].0, 0.0);
}

#[test]
fn sources_fill_every_output_in_turn() {
    let sr = F(8.0);
    let mut out = vec![vec![F(9.0); 2], Vec::new(), vec![F(9.0); 3]];
    let mut saw = SawOsc::new(F(1.0));
    saw.process(&[], &mut out, sr).unwrap();
    // the ramp starts at zero and steps down in the middle of the period
    assert_eq!((raw(&out[0]), raw(&out[2])), (vec![0.0, 0.25], vec![0.5, 0.75, -1.0]));
    assert_eq!(saw.phase, F(0.625));
    saw.reset();
    assert_eq!((saw.phase, saw.freq), (F(0.0), F(1.0)));
    assert_eq!((saw.num_inputs(), saw.num_outputs()), (0, 1));

    let mut square = SquareOsc::new(F(1.0), F(0.25));
    square.process(&[], &mut out, sr).unwrap();
    assert_eq!((raw(&out[0]), raw(&out[2])), (vec![1.0, 1.0], vec![-1.0, -1.0, -1.0]));
    assert_eq!(SquareOsc::new(F(1.0), F(7.0)).duty, F(1.0));
    let mut pulse = PulseOsc::new(F(1.0), F(0.5));
    pulse.process(&[], &mut out, sr).unwrap();
    assert_eq!((raw(&out[0]), raw(&out[2])), (vec![1.0, 1.0], vec![1.0, 1.0, -1.0]));
    assert_eq!(PulseOsc::new(F(1.0), F(-7.0)).width, F(0.0));
    let mut triangle = TriangleOsc::new(F(1.0));
    triangle.process(&[], &mut out, sr).unwrap();
    assert_eq!((raw(&out[0]), raw(&out[2])), (vec![-1.0, -0.5], vec![0.0, 0.5, 1.0]));

    let mut sine = SineOsc::new(F(1.0));
    sine.process(&[], &mut out, sr).unwrap();
    let step = 2.0 * std::f32::consts::PI / 8.0;
    close(&out[0], &[0.0, step.sin()]);
    close(&out[2], &[(2.0 * step).sin(), (3.0 * step).sin(), (4.0 * step).sin()]);

    let mut fm = SineFm::new(F(1.0), F(2.0), F(0.0));
    fm.process(&[], &mut out, sr).unwrap();
    // without modulation the carrier is a sine
    close(&out[0], &[0.0, step.sin()]);
    assert_eq!((fm.carrier_phase, fm.modulator_phase), (F(0.625), F(0.25)));

    let mut noise = NoiseOsc::new();
    assert_eq!(noise.seed, 12345);
    noise.process(&[], &mut out, sr).unwrap();
    assert_eq!(out[0][0], F(87628868u32 as f32 / u32::MAX as f32 * 2.0 - 1.0));
    noise.reset();
    assert_eq!(noise.seed, 12345);
    let (next, _): (NoiseOsc, F) = NoiseOsc { seed: u32::MAX }.tick();
    assert_eq!(next.seed, 1012239698);
}

#[test]
fn modulators() {
    let sr = F(8.0);
    let mut out = vec![vec![F(9.0); 4]];
    let input = fs(&[1.0, 1.0, 1.0, 1.0]);

    let mut lfo = Lfo::new(F(1.0), LfoWaveform::Sawtooth);
    lfo.process(&[], &mut out, sr).unwrap();
    assert_eq!(raw(&out[0]), vec![-1.0, -0.75, -0.5, -0.25]);
    assert_eq!((lfo.phase, lfo.phase_accum), (F(0.5), F(0.5)));
    for (waveform, phase, value) in [
        (LfoWaveform::Sine, 0.25, 1.0),
        (LfoWaveform::Triangle, 0.125, 0.5),
        (LfoWaveform::Triangle, 0.5, 0.0),
        (LfoWaveform::Triangle, 0.875, -0.5),
        (LfoWaveform::Square, 0.25, 1.0),
        (LfoWaveform::Square, 0.5, -1.0),
        (LfoWaveform::Sawtooth, 0.75, 0.5),
        (LfoWaveform::Random, 0.0, -1.0),
    ] {
        approx(Lfo::new(F(1.0), waveform).generate_sample(F(phase)).0, value);
    }
    // a reset goes back to the phase of a new node
    lfo.reset();
    assert_eq!((lfo.phase, lfo.phase_accum), (F(0.0), F(0.0)));
    let mut again = vec![vec![F(9.0); 4]];
    lfo.process(&[], &mut again, sr).unwrap();
    let mut fresh = vec![vec![F(9.0); 4]];
    Lfo::new(F(1.0), LfoWaveform::Sawtooth).process(&[], &mut fresh, sr).unwrap();
    assert_eq!(raw(&again[0]), raw(&fresh[0]));
    assert_eq!(raw(&again[0]), vec![-1.0, -0.75, -0.5, -0.25]);

    let mut ring = RingModulator::new(F(2.0));
    ring.process(&[&input[..]], &mut out, sr).unwrap();
    close(&out[0], &[0.0, 1.0, 0.0, -1.0]);

    let mut tremolo = Tremolo::new(F(2.0), F(1.0));
    tremolo.process(&[&input[..]], &mut out, sr).unwrap();
    close(&out[0], &[0.5, 1.0, 0.5, 0.0]);
    assert_eq!(Tremolo::new(F(2.0), F(3.0)).depth, F(1.0));

    // a shift of one hertz at eight samples per second asks for a delay of four, the
    // line of three allows two
    let mut shifter = FrequencyShifter::new(F(1.0), 3);
    assert_eq!(shifter.quarter_delay(sr, 3), 2);
    assert_eq!(shifter.quarter_delay(F(2.0), 3), 1);
    let impulse = fs(&[1.0, 0.0, 0.0, 0.0]);
    shifter.process(&[&impulse[..]], &mut out, sr).unwrap();
    close(&out[0], &[1.0, 0.0, 1.0, 0.0]);
    shifter.reset();
    assert_eq!((shifter.phase_accum, shifter.line.len()), (F(0.0), 3));
}

#[test]
fn plain_effects() {
    let sr = F(1000.0);
    assert_eq!(capped_delay(F(2.0), sr, 10), 2);
    assert_eq!(capped_delay(F(20.0), sr, 10), 9);
    assert_eq!(capped_delay(F(20.0), sr, 0), 0);
    let impulse = fs(&[1.0, 0.0, 0.0, 0.0, 0.0, 0.0, 0.0]);
    let mut out = vec![vec![F(9.0); 7]];

    let mut delay = Delay::new(F(2.0), F(0.5), F(10.0), sr);
    assert_eq!(delay.line.len(), 10);
    delay.process(&[&impulse[..]], &mut out, sr).unwrap();
    assert_eq!(raw(&out[0]), vec![0.0, 0.0, 1.0, 0.0, 0.5, 0.0, 0.25]);
    // the feedback is held in [0, 0.99]
    assert_eq!(Delay::new(F(2.0), F(5.0), F(10.0), sr).feedback, F(0.99));
    assert_eq!(Delay::new(F(2.0), F(-5.0), F(10.0), sr).feedback, F(0.0));

    let ramp = fs(&[1.0, 2.0, 3.0]);
    let mut three = vec![vec![F(9.0); 3]];
    let mut chorus = Chorus::new(F(1.0), F(30.0), F(0.5), sr);
    assert_eq!(chorus.depth, F(20.0));
    chorus.process(&[&ramp[..]], &mut three, sr).unwrap();
    assert_eq!(raw(&three[0]), vec![0.5, 1.5, 2.5]);
    // the sample before the first one of a block is silence
    chorus.process(&[&ramp[..]], &mut three, sr).unwrap();
    assert_eq!(raw(&three[0]), vec![0.5, 1.5, 2.5]);

    let mut flanger = Flanger::new(F(1.0), F(30.0), F(5.0), F(0.5), sr);
    assert_eq!((flanger.depth, flanger.feedback, flanger.delay_feedback, flanger.line.len()), (F(10.0), F(0.9), F(0.99), 15));
    flanger.process(&[&ramp[..]], &mut three, sr).unwrap();
    // the delay of one millisecond is one sample
    assert_eq!(raw(&three[0]), vec![0.5, 1.5, 2.5 + 0.5 * 0.99]);

    let mut taps = MultiTapDelay::new(vec![(F(2.0), F(0.5)), (F(3.0), F(0.25))], F(0.0), F(10.0), sr);
    taps.process(&[&impulse[..]], &mut out, sr).unwrap();
    assert_eq!(raw(&out[0]), vec![0.0, 0.0, 0.5, 0.25, 0.0, 0.0, 0.0]);

    let mut convolution = ConvolutionReverb::new(fs(&[1.0, 0.5]), F(1.0));
    convolution.process(&[&ramp[..]], &mut three, sr).unwrap();
    assert_eq!(raw(&three[0]), vec![1.0, 2.5, 4.0]);
    // a single unit sample is the identity
    let mut identity = ConvolutionReverb::new(fs(&[1.0]), F(1.0));
    identity.process(&[&ramp[..]], &mut three, sr).unwrap();
    assert_eq!(raw(&three[0]), vec![1.0, 2.0, 3.0]);
    let mut empty = ConvolutionReverb::new(Vec::<F>::new(), F(1.0));
    empty.process(&[&ramp[..]], &mut three, sr).unwrap();
    assert_eq!(raw(&three[0]), vec![0.0, 0.0, 0.0]);

    let mut reverb = Reverb::new(F(0.5), F(1.0), sr);
    assert_eq!((reverb.feedback1, reverb.feedback4), (F(0.45), F(0.3)));
    assert_eq!(reverb.line1.len(), 50);
    let mut long = vec![F(0.0); 45];
    long[0] = F(1.0);
    let mut wet = vec![vec![F(9.0); 45]];
    reverb.process(&[&long[..]], &mut wet, sr).unwrap();
    // the impulse comes back after 29, 37, 41 and 43 samples, a quarter each
    let mut want = vec![0.0; 45];
    for at in [29, 37, 41, 43] {
        want[at] = 0.25;
    }
    assert_eq!(raw(&wet[0]), want);
}

#[test]
fn phaser_chain() {
    let sr = F(48000.0);
    let input = fs(&[1.0, 0.5, -0.25]);
    let mut out = vec![vec![F(9.0); 3]];
    // without stages the wet signal is the input
    let mut phaser = Phaser::new(F(1.0), F(0.5), F(0.5), 0);
    phaser.process(&[&input[..]], &mut out, sr).unwrap();
    assert_eq!(raw(&out[0]), raw(&input));
    // one stage is one all-pass at 300 Hz
    let mut phaser = Phaser::new(F(1.0), F(0.5), F(1.0), 1);
    assert_eq!(phaser.allpass_filters.len(), 1);
    assert_eq!((phaser.allpass_filters[0].cutoff, phaser.allpass_filters[0].q), (F(300.0), F(0.7)));
    let mut alone = Allpass::new(F(300.0), F(0.7));
    let mut want = vec![vec![F(9.0); 3]];
    alone.process(&[&input[..]], &mut want, sr).unwrap();
    phaser.process(&[&input[..]], &mut out, sr).unwrap();
    assert_eq!(raw(&out[0]), raw(&want[0]));
    assert_eq!(phaser.allpass_filters[0].state.y1, alone.state.y1);
    // two stages in a row
    let mut phaser = Phaser::new(F(1.0), F(0.5), F(1.0), 2);
    assert_eq!(phaser.allpass_filters[1].cutoff, F(500.0));
    let mut first = Allpass::new(F(300.0), F(0.7));
    let mut second = Allpass::new(F(500.0), F(0.7));
    let mut between = vec![vec![F(9.0); 3]];
    first.process(&[&input[..]], &mut between, sr).unwrap();
    let middle = between[0].clone();
    second.process(&[&middle[..]], &mut want, sr).unwrap();
    phaser.process(&[&input[..]], &mut out, sr).unwrap();
    assert_eq!(raw(&out[0]), raw(&want[0]));
    phaser.reset();
    assert_eq!(phaser.allpass_filters[1].state.x1, F(0.0));
    assert_eq!(phaser.allpass_filters[1].cutoff, F(500.0));
}

#[test]
fn analysis_nodes() {
    let sr = F(1000.0);
    let mut out = vec![vec![F(9.0); 4]];

    let mut rms = Rms::new(2);
    rms.process(&[&fs(&[3.0, 4.0, 0.0, 0.0])[..]], &mut out, sr).unwrap();
    close(&out[0], &[4.5f32.sqrt(), 12.5f32.sqrt(), 8.0f32.sqrt(), 0.0]);
    assert_eq!(Rms::<F>::new(0).line.len(), 1);

    let mut peak = Peak::new(F(2.0), sr);
    peak.process(&[&fs(&[1.0, 0.5, -0.5, 0.25])[..]], &mut out, sr).unwrap();
    close(&out[0], &[1.0, 1.0, 1.0, 0.999]);
    peak.process(&[&fs(&[-2.0, 0.0, 0.0, 0.0])[..]], &mut out, sr).unwrap();
    close(&out[0], &[2.0, 2.0, 2.0, 1.998]);
    peak.reset();
    assert_eq!((peak.peak_value, peak.hold_counter, peak.hold_ms), (F(0.0), F(0.0), F(2.0)));

    let mut analyzer = FrequencyAnalyzer::new(4);
    analyzer.process(&[&fs(&[1.0, -1.0, 1.0, -1.0])[..]], &mut out, sr).unwrap();
    // four crossings in a window of four samples
    assert_eq!(raw(&out[0]), vec![0.0, 0.0, 0.0, 500.0]);
    assert_eq!(analyzer.zero_crossings, 0);
    analyzer.process(&[&fs(&[-1.0, -1.0, 1.0, 1.0])[..]], &mut out, sr).unwrap();
    assert_eq!(raw(&out[0]), vec![0.0, 0.0, 0.0, 125.0]);

    let mut centroid = SpectralCentroid::new(64);
    centroid.process(&[&fs(&[1.0, -1.0, 1.0, -1.0])[..]], &mut out, sr).unwrap();
    assert_eq!(raw(&out[0]), vec![100.0; 4]);
    centroid.reset();
    assert_eq!((centroid.fft_size, centroid.write_pos), (64, 0));

    let mut onset = OnsetDetector::new(F(0.5), F(1.0), 2);
    onset.process(&[&fs(&[1.0, 0.0, 2.0, 2.0])[..]], &mut out, sr).unwrap();
    // the energies are 1, 0, 4, 4 and the means of the history 0.5, 0.5, 2, 4
    assert_eq!(raw(&out[0]), vec![0.0, 0.0, 1.0, 0.0]);
    onset.reset();
    assert_eq!(onset.energy_history.at(0), F(0.0));

    let mut pitch = PitchDetector::new(F(100.0), F(500.0), 16);
    assert_eq!(pitch.search_range(sr, 16), (2, 8));
    let wave: Vec<F> = (0..32).map(|i| F([1.0, 0.0, -1.0, 0.0][i % 4])).collect();
    let mut long = vec![vec![F(9.0); 32]];
    pitch.process(&[&wave[..]], &mut long, sr).unwrap();
    // a period of four samples
    assert_eq!(long[0][31], F(250.0));
    // with nothing to search the first period of the range is put out
    let mut narrow = PitchDetector::new(F(100.0), F(500.0), 2);
    let mut out = vec![vec![F(9.0); 4]];
    narrow.process(&[&fs(&[1.0, 0.0, -1.0, 0.0])[..]], &mut out, sr).unwrap();
    assert_eq!(raw(&out[0]), vec![500.0; 4]);
}
