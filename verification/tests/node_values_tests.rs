use auxide_dsp::nodes::dynamics::{envelope_floor, follow, follower_coefficient, Compressor, Expander, Limiter, NoiseGate};
use auxide_dsp::nodes::envelopes::{AdEnvelope, AdPhase, AdsrEnvelope, AdsrPhase, ArEnvelope, ArPhase};
use auxide_dsp::nodes::filters::{AllpassFilter, BiquadFilter, CombFilter, FormantFilter, SvfFilter, SvfMode};
use auxide_dsp::nodes::fx::{Chorus, Delay, Flanger, MultitapDelay, Phaser, SimpleReverb, Tremolo};
use auxide_dsp::nodes::lfo::{Lfo, LfoWaveform};
use auxide_dsp::nodes::oscillators::{
    lcg_next, lcg_upper, BrownNoise, NoiseState, PulseOsc, SquareOsc, SuperSaw, TriangleOsc, WavetableOsc, WhiteNoise, NOISE_SEED,
};
use auxide_dsp::nodes::pitch::{PitchDetector, PitchShifter, SpectralGate};
use auxide_dsp::nodes::shapers::{BitCrusher, DcBlocker, HardClip, Overdrive, SoftClip, TubeSaturation, WaveShaper};
use auxide_dsp::nodes::utility::{Crossfader, MidSideProcessor, ParamSmoother, RMSMeter, StereoPanner, StereoWidth};
use auxide_dsp::helpers::stable_feedback;
use auxide_dsp::sample::Sample;

#[derive(Debug, Clone, Copy, PartialEq, PartialOrd)]
struct F(f32);

impl Sample for F {
    fn obeys_sample_spec() -> bool { true }
    fn zero() -> Self { F(0.0) }
    fn one() -> Self { F(1.0) }
    fn pi() -> Self { F(std::f32::consts::PI) }
    fn ratio(num: i64, den: i64) -> Self { F(num as f32 / den as f32) }
    fn from_usize(n: usize) -> Self { F(n as f32) }
    fn from_u32(n: u32) -> Self { F(n as f32) }
    fn to_usize(self) -> usize { self.0 as usize }
    fn powi(self, n: i32) -> Self { F(self.0.powi(n)) }
    fn clamp(self, lo: Self, hi: Self) -> Self {
        if lo.0 <= hi.0 { F(self.0.clamp(lo.0, hi.0)) } else { F(self.0.max(lo.0).min(hi.0)) }
    }
    fn neg(self) -> Self { F(-self.0) }
    fn abs(self) -> Self { F(self.0.abs()) }
    fn signum(self) -> Self { F(self.0.signum()) }
    fn sqrt(self) -> Self { F(self.0.sqrt()) }
    fn floor(self) -> Self { F(self.0.floor()) }
    fn round(self) -> Self { F(self.0.round()) }
    fn fract(self) -> Self { F(self.0.fract()) }
    fn sin(self) -> Self { F(self.0.sin()) }
    fn cos(self) -> Self { F(self.0.cos()) }
    fn tan(self) -> Self { F(self.0.tan()) }
    fn tanh(self) -> Self { F(self.0.tanh()) }
    fn exp(self) -> Self { F(self.0.exp()) }
    fn ln(self) -> Self { F(self.0.ln()) }
    fn log10(self) -> Self { F(self.0.log10()) }
    fn add(self, rhs: Self) -> Self { F(self.0 + rhs.0) }
    fn sub(self, rhs: Self) -> Self { F(self.0 - rhs.0) }
    fn mul(self, rhs: Self) -> Self { F(self.0 * rhs.0) }
    fn div(self, rhs: Self) -> Self { F(self.0 / rhs.0) }
    fn rem(self, rhs: Self) -> Self { F(self.0 % rhs.0) }
    fn min(self, rhs: Self) -> Self { F(self.0.min(rhs.0)) }
    fn max(self, rhs: Self) -> Self { F(self.0.max(rhs.0)) }
    fn powf(self, rhs: Self) -> Self { F(self.0.powf(rhs.0)) }
    fn lt(self, rhs: Self) -> bool { self.0 < rhs.0 }
    fn le(self, rhs: Self) -> bool { self.0 <= rhs.0 }
    fn gt(self, rhs: Self) -> bool { self.0 > rhs.0 }
    fn ge(self, rhs: Self) -> bool { self.0 >= rhs.0 }
    fn zero_spec() -> Self { Self::zero() }
    fn one_spec() -> Self { Self::one() }
    fn pi_spec() -> Self { Self::pi() }
    fn ratio_spec(num: i64, den: i64) -> Self { Self::ratio(num, den) }
    fn from_usize_spec(n: usize) -> Self { Self::from_usize(n) }
    fn from_u32_spec(n: u32) -> Self { Self::from_u32(n) }
    fn to_usize_spec(self) -> usize { self.to_usize() }
    fn powi_spec(self, n: i32) -> Self { self.powi(n) }
    fn clamp_spec(self, lo: Self, hi: Self) -> Self { self.clamp(lo, hi) }
    fn neg_spec(self) -> Self { self.neg() }
    fn abs_spec(self) -> Self { self.abs() }
    fn signum_spec(self) -> Self { self.signum() }
    fn sqrt_spec(self) -> Self { self.sqrt() }
    fn floor_spec(self) -> Self { self.floor() }
    fn round_spec(self) -> Self { self.round() }
    fn fract_spec(self) -> Self { self.fract() }
    fn sin_spec(self) -> Self { self.sin() }
    fn cos_spec(self) -> Self { self.cos() }
    fn tan_spec(self) -> Self { self.tan() }
    fn tanh_spec(self) -> Self { self.tanh() }
    fn exp_spec(self) -> Self { self.exp() }
    fn ln_spec(self) -> Self { self.ln() }
    fn log10_spec(self) -> Self { self.log10() }
    fn add_spec(self, rhs: Self) -> Self { self.add(rhs) }
    fn sub_spec(self, rhs: Self) -> Self { self.sub(rhs) }
    fn mul_spec(self, rhs: Self) -> Self { self.mul(rhs) }
    fn div_spec(self, rhs: Self) -> Self { self.div(rhs) }
    fn rem_spec(self, rhs: Self) -> Self { self.rem(rhs) }
    fn min_spec(self, rhs: Self) -> Self { self.min(rhs) }
    fn max_spec(self, rhs: Self) -> Self { self.max(rhs) }
    fn powf_spec(self, rhs: Self) -> Self { self.powf(rhs) }
    fn lt_spec(self, rhs: Self) -> bool { self.lt(rhs) }
    fn le_spec(self, rhs: Self) -> bool { self.le(rhs) }
    fn gt_spec(self, rhs: Self) -> bool { self.gt(rhs) }
    fn ge_spec(self, rhs: Self) -> bool { self.ge(rhs) }
}

fn fs(values: &[f32]) -> Vec<F> {
    values.iter().map(|v| F(*v)).collect()
}

fn raw(values: &[F]) -> Vec<f32> {
    values.iter().map(|v| v.0).collect()
}

fn non_silent(buf: &[F]) -> bool {
    buf.iter().any(|v| v.0.abs() > 1e-6)
}

fn approx(a: f32, b: f32) {
    assert!((a - b).abs() < 1e-4, "{} != {}", a, b);
}

fn close(got: &[F], want: &[f32]) {
    assert_eq!(got.len(), want.len());
    for (g, w) in got.iter().zip(want.iter()) {
        assert!((g.0 - w).abs() < 1e-4, "{:?} != {:?}", raw(got), want);
    }
}

#[test]
fn delay_feeds_back() {
    let node = Delay { delay_ms: F(2.0), feedback: F(0.5), mix: F(1.0) };
    let mut state = node.init_state(F(1000.0), 6);
    assert_eq!(state.line.len(), 2);
    let input = fs(&[1.0, 0.0, 0.0, 0.0, 0.0, 0.0]);
    let mut out = vec![vec![F(0.0); 6]];
    node.process_block(&mut state, &[&input], &mut out, F(1000.0)).unwrap();
    assert_eq!(raw(&out[0]), vec![1.0, 0.0, 0.5, 0.0, 0.25, 0.0]);
    // modulation of the mix: at a mix of zero the input comes out twice
    let mix_mod = vec![F(-1.0); 6];
    let mut state = node.init_state(F(1000.0), 6);
    node.process_block(&mut state, &[&input, &[], &mix_mod], &mut out, F(1000.0)).unwrap();
    assert_eq!(raw(&out[0]), vec![2.0, 0.0, 0.0, 0.0, 0.0, 0.0]);
}

#[test]
fn a_delay_of_no_samples_still_has_a_line() {
    let node = Delay { delay_ms: F(0.0), feedback: F(0.0), mix: F(1.0) };
    let mut state = node.init_state(F(1000.0), 3);
    assert_eq!(state.line.len(), 1);
    let input = fs(&[1.0, 2.0, 3.0]);
    let mut out = vec![vec![F(0.0); 3]];
    node.process_block(&mut state, &[&input], &mut out, F(1000.0)).unwrap();
    assert_eq!(raw(&out[0]), vec![1.0, 2.0, 3.0]);
    let allpass = AllpassFilter { delay_samples: 0, gain: F(0.5) };
    let mut state = allpass.init_state(F(1000.0), 3);
    assert_eq!(state.line.len(), 1);
    allpass.process_block(&mut state, &[&input], &mut out, F(1000.0)).unwrap();
}

#[test]
fn comb_and_allpass_impulse_responses() {
    let input = fs(&[1.0, 0.0, 0.0, 0.0, 0.0, 0.0]);
    let mut out = vec![vec![F(0.0); 6]];
    let comb = CombFilter { delay_ms: F(2.0), feedback: F(0.5), damp: F(0.0) };
    let mut state = comb.init_state(F(1000.0), 6);
    comb.process_block(&mut state, &[&input], &mut out, F(1000.0)).unwrap();
    assert_eq!(raw(&out[0]), vec![1.0, 0.0, 0.5, 0.0, 0.25, 0.0]);
    // damping takes from the feedback path
    let comb = CombFilter { delay_ms: F(2.0), feedback: F(0.5), damp: F(0.5) };
    let mut state = comb.init_state(F(1000.0), 6);
    comb.process_block(&mut state, &[&input], &mut out, F(1000.0)).unwrap();
    assert_eq!(raw(&out[0]), vec![1.0, 0.0, 0.25, 0.0, 0.0625, 0.0]);

    let allpass = AllpassFilter { delay_samples: 1, gain: F(0.5) };
    let mut state = allpass.init_state(F(1000.0), 6);
    allpass.process_block(&mut state, &[&input], &mut out, F(1000.0)).unwrap();
    assert_eq!(raw(&out[0]), vec![-0.5, 1.5, 0.75, 0.375, 0.1875, 0.09375]);
}

#[test]
fn biquad_recursion() {
    let node = BiquadFilter { b0: F(0.5), b1: F(0.25), b2: F(0.125), a1: F(0.5), a2: F(0.25) };
    let mut state = node.init_state(F(1000.0), 4);
    let input = fs(&[1.0, 0.0, 0.0, 1.0]);
    let mut out = vec![vec![F(0.0); 4]];
    node.process_block(&mut state, &[&input], &mut out, F(1000.0)).unwrap();
    // y0 = b0; y1 = b1 - a1 y0 = 0; y2 = b2 - a1 y1 - a2 y0 = 0; y3 = b0 - a1 y2 - a2 y1
    assert_eq!(raw(&out[0]), vec![0.5, 0.0, 0.0, 0.5]);
    assert_eq!((state.x1, state.x2, state.y1, state.y2), (F(1.0), F(0.0), F(0.5), F(0.0)));
}

#[test]
fn svf_first_samples() {
    let f = 2.0 * (std::f32::consts::PI * 1000.0 / 48000.0).sin();
    let k = 2.0 - 2.0 * 0.5;
    let hp = 1.0;
    let bp = hp * f;
    let lp = bp * f;
    let input = fs(&[1.0, 1.0]);
    for (mode, first) in [
        (SvfMode::Lowpass, lp),
        (SvfMode::Highpass, hp),
        (SvfMode::Bandpass, bp),
        (SvfMode::Notch, hp + lp),
    ] {
        let node = SvfFilter { cutoff: F(1000.0), resonance: F(0.5), mode };
        let mut state = node.init_state(F(48000.0), 2);
        let mut out = vec![vec![F(0.0); 2]];
        node.process_block(&mut state, &[&input], &mut out, F(48000.0)).unwrap();
        approx(out[0][0].0, first);
        approx(state.y3.0, 1.0 - lp - k * bp);
    }
    // the resonance is held below one: the damping is never zero
    let node = SvfFilter { cutoff: F(1000.0), resonance: F(7.0), mode: SvfMode::Highpass };
    let mut state = node.init_state(F(48000.0), 2);
    let mut out = vec![vec![F(0.0); 2]];
    node.process_block(&mut state, &[&input], &mut out, F(48000.0)).unwrap();
    approx(out[0][1].0, 1.0 - lp - 0.02 * bp);
    // modulation of the cutoff
    let node = SvfFilter { cutoff: F(500.0), resonance: F(0.5), mode: SvfMode::Bandpass };
    let mut state = node.init_state(F(48000.0), 2);
    let cutoff_mod = vec![F(500.0); 2];
    node.process_block(&mut state, &[&input, &cutoff_mod], &mut out, F(48000.0)).unwrap();
    approx(out[0][0].0, bp);
}

#[test]
fn formant_filter_runs_its_two_branches() {
    let node = FormantFilter { freq1: F(0.0), freq2: F(-1.0), bw1: F(100.0), bw2: F(100.0), gain1: F(0.5), gain2: F(0.25) };
    let mut state = node.init_state(F(48000.0), 2);
    let input = fs(&[1.0, 2.0]);
    let mut out = vec![vec![F(0.0); 2]];
    node.process_block(&mut state, &[&input], &mut out, F(48000.0)).unwrap();
    // times of zero or less give a coefficient of zero: only the gains are left
    assert_eq!(raw(&out[0]), vec![0.75, 1.5]);
}

#[test]
fn feedback_is_held_inside_its_bound() {
    assert_eq!(stable_feedback(F(0.5)), F(0.5));
    assert_eq!(stable_feedback(F(1.5)), F(0.99));
    assert_eq!(stable_feedback(F(-1.5)), F(-0.99));
}

#[test]
fn shapers_at_full_mix() {
    let input = fs(&[1.0, -1.0, 0.25]);
    let mut out = vec![vec![F(0.0); 3]];

    let node = HardClip { threshold: F(0.5), mix: F(1.0) };
    let mut state = node.init_state(F(48000.0), 3);
    node.process_block(&mut state, &[&input], &mut out, F(48000.0)).unwrap();
    assert_eq!(raw(&out[0]), vec![0.5, -0.5, 0.25]);
    // a threshold below zero has its bounds the wrong way round: nothing panics
    let node = HardClip { threshold: F(-0.5), mix: F(1.0) };
    node.process_block(&mut state, &[&input], &mut out, F(48000.0)).unwrap();

    let node = BitCrusher { bits: F(2.0), mix: F(1.0) };
    let mut state = node.init_state(F(48000.0), 3);
    let steps = fs(&[0.3, -0.3, 0.6]);
    node.process_block(&mut state, &[&steps], &mut out, F(48000.0)).unwrap();
    assert_eq!(raw(&out[0]), vec![0.25, -0.25, 0.5]);

    let node = SoftClip { drive: F(1.0), mix: F(1.0) };
    let mut state = node.init_state(F(48000.0), 3);
    node.process_block(&mut state, &[&input], &mut out, F(48000.0)).unwrap();
    close(&out[0], &[2.0 / 3.0, -2.0 / 3.0, 0.25 - 0.25 * 0.25 * 0.25 / 3.0]);

    let node = WaveShaper { drive: F(2.0), mix: F(1.0) };
    let mut state = node.init_state(F(48000.0), 3);
    node.process_block(&mut state, &[&input], &mut out, F(48000.0)).unwrap();
    close(&out[0], &[2.0f32.tanh(), -(2.0f32.tanh()), 0.5f32.tanh()]);

    let node = TubeSaturation { drive: F(1.0), asymmetry: F(0.5), mix: F(1.0) };
    let mut state = node.init_state(F(48000.0), 3);
    node.process_block(&mut state, &[&input], &mut out, F(48000.0)).unwrap();
    close(&out[0], &[1.5f32.tanh(), -(0.5f32.tanh()), 0.375f32.tanh()]);

    let node = Overdrive { drive: F(1.0), mix: F(1.0) };
    let mut state = node.init_state(F(48000.0), 3);
    node.process_block(&mut state, &[&input], &mut out, F(48000.0)).unwrap();
    close(&out[0], &[2.0f32.tanh() * 0.8, -(2.0f32.tanh()) * 0.8, 0.5f32.tanh() * 0.8]);

    // at a mix of zero every shaper hands the input on
    let node = Overdrive { drive: F(3.0), mix: F(0.0) };
    node.process_block(&mut state, &[&input], &mut out, F(48000.0)).unwrap();
    assert_eq!(raw(&out[0]), vec![1.0, -1.0, 0.25]);
    // and the mix can be modulated
    let mix_mod = vec![F(1.0); 3];
    node.process_block(&mut state, &[&input, &[], &mix_mod], &mut out, F(48000.0)).unwrap();
    close(&out[0], &[6.0f32.tanh() * 0.8, -(6.0f32.tanh()) * 0.8, 1.5f32.tanh() * 0.8]);
}

#[test]
fn dc_blocker_removes_a_step() {
    let node = DcBlocker { cutoff: F(20.0) };
    let mut state = node.init_state(F(48000.0), 3);
    let input = fs(&[1.0, 1.0, 1.0]);
    let mut out = vec![vec![F(0.0); 3]];
    node.process_block(&mut state, &[&input], &mut out, F(48000.0)).unwrap();
    close(&out[0], &[1.0, 0.995, 0.995 * 0.995]);
}

#[test]
fn utility_values() {
    let left = fs(&[1.0, 0.0]);
    let right = fs(&[0.5, 1.0]);
    let mut two = vec![vec![F(0.0); 2], vec![F(0.0); 2]];

    let node = StereoWidth { width: F(1.0) };
    let mut state = node.init_state(F(48000.0), 2);
    node.process_block(&mut state, &[&left, &right], &mut two, F(48000.0)).unwrap();
    assert_eq!((raw(&two[0]), raw(&two[1])), (vec![1.0, 0.0], vec![0.5, 1.0]));
    let node = StereoWidth { width: F(0.0) };
    node.process_block(&mut state, &[&left, &right], &mut two, F(48000.0)).unwrap();
    assert_eq!((raw(&two[0]), raw(&two[1])), (vec![0.75, 0.5], vec![0.75, 0.5]));
    let width_mod = vec![F(2.0); 2];
    node.process_block(&mut state, &[&left, &right, &width_mod], &mut two, F(48000.0)).unwrap();
    assert_eq!((raw(&two[0]), raw(&two[1])), (vec![1.25, -0.5], vec![0.25, 1.5]));

    let node = MidSideProcessor;
    let mut state = node.init_state(F(48000.0), 2);
    node.process_block(&mut state, &[&left, &right], &mut two, F(48000.0)).unwrap();
    assert_eq!((raw(&two[0]), raw(&two[1])), (vec![0.75, 0.5], vec![0.25, -0.5]));

    let node = StereoPanner { pan: F(0.0) };
    let mut state = node.init_state(F(48000.0), 2);
    node.process_block(&mut state, &[&left], &mut two, F(48000.0)).unwrap();
    close(&two[0], &[0.5f32.sqrt(), 0.0]);
    close(&two[1], &[0.5f32.sqrt(), 0.0]);
    let node = StereoPanner { pan: F(3.0) };
    node.process_block(&mut state, &[&left], &mut two, F(48000.0)).unwrap();
    assert_eq!((raw(&two[0]), raw(&two[1])), (vec![1.0, 0.0], vec![0.0, 0.0]));

    let mut out = vec![vec![F(0.0); 2]];
    let node = Crossfader { position: F(0.25) };
    let mut state = node.init_state(F(48000.0), 2);
    node.process_block(&mut state, &[&left, &right], &mut out, F(48000.0)).unwrap();
    close(&out[0], &[0.75f32.sqrt() + 0.25, 0.5]);

    let node = ParamSmoother { smoothing: F(1.0) };
    let mut state = node.init_state(F(1000.0), 2);
    let ones = fs(&[1.0, 1.0]);
    node.process_block(&mut state, &[&ones], &mut out, F(1000.0)).unwrap();
    let coeff = 1.0 - (-1.0f32).exp();
    close(&out[0], &[coeff, coeff + (1.0 - coeff) * coeff]);

    let node = RMSMeter { window_size: 4 };
    let mut state = node.init_state(F(1000.0), 2);
    let block = fs(&[3.0, 4.0]);
    node.process_block(&mut state, &[&block], &mut out, F(1000.0)).unwrap();
    // the root mean square of the block is sqrt(12.5); a quarter of it enters
    close(&out[0], &[12.5f32.sqrt() / 4.0, 12.5f32.sqrt() / 4.0]);
    approx(state.rms.0, 12.5f32.sqrt() / 4.0);
}

#[test]
fn oscillator_values() {
    let mut out = vec![vec![F(0.0); 4]];
    let node = PulseOsc { freq: F(6000.0), pulse_width: F(0.3) };
    let mut state = node.init_state(F(48000.0), 4);
    node.process_block(&mut state, &[], &mut out, F(48000.0)).unwrap();
    assert_eq!(raw(&out[0]), vec![1.0, 1.0, 1.0, -1.0]);
    approx(state.phase.0, 0.5);
    // the pulse width is held in [0.01, 0.99]
    let node = PulseOsc { freq: F(6000.0), pulse_width: F(-4.0) };
    let mut state = node.init_state(F(48000.0), 4);
    node.process_block(&mut state, &[], &mut out, F(48000.0)).unwrap();
    assert_eq!(raw(&out[0]), vec![1.0, -1.0, -1.0, -1.0]);

    let node = TriangleOsc { freq: F(6000.0) };
    let mut state = node.init_state(F(48000.0), 4);
    node.process_block(&mut state, &[], &mut out, F(48000.0)).unwrap();
    let pi = std::f32::consts::PI;
    close(
        &out[0],
        &[
            (2.0 / pi) * (pi / 2.0 - pi / 4.0).sin(),
            (2.0 / pi) * (0.75 * pi / 2.0 - pi / 4.0).sin(),
            (2.0 / pi) * (0.5 * pi / 2.0 - pi / 4.0).sin(),
            (2.0 / pi) * (0.25 * pi / 2.0 - pi / 4.0).sin(),
        ],
    );

    let node = SquareOsc { freq: F(6000.0), pulse_width: F(0.5) };
    let mut state = node.init_state(F(48000.0), 4);
    node.process_block(&mut state, &[], &mut out, F(48000.0)).unwrap();
    // away from its edges the square is one in the first half of the period
    approx(out[0][2].0, 1.0);

    let node = WavetableOsc { freq: F(9000.0), table: fs(&[1.0, 2.0, 3.0, 4.0]) };
    let mut state = node.init_state(F(48000.0), 4);
    node.process_block(&mut state, &[], &mut out, F(48000.0)).unwrap();
    assert_eq!(raw(&out[0]), vec![1.0, 1.0, 2.0, 3.0]);
    let node = WavetableOsc { freq: F(9000.0), table: Vec::<F>::new() };
    let mut state = node.init_state(F(48000.0), 4);
    node.process_block(&mut state, &[], &mut out, F(48000.0)).unwrap();
    assert_eq!(raw(&out[0]), vec![0.0; 4]);
    assert_eq!(state.phase, F(0.0));

    let node = SuperSaw { freq: F(6000.0), detune: F(0.0), voices: 2 };
    let mut state = node.init_state(F(48000.0), 4);
    node.process_block(&mut state, &[], &mut out, F(48000.0)).unwrap();
    close(&out[0], &[-1.0, -0.75, -0.5, -0.25]);
    // no voices count as one
    let node = SuperSaw { freq: F(6000.0), detune: F(0.0), voices: 0 };
    let state = node.init_state(F(48000.0), 4);
    assert_eq!(state.phases.len(), 1);
}

#[test]
fn noise_follows_its_generator() {
    assert_eq!(NOISE_SEED, 0x1234_5678_9abc_def0);
    assert_eq!(lcg_next(NOISE_SEED), 10221792658196283441);
    assert_eq!(lcg_next(10221792658196283441), 6435899792755562398);
    assert_eq!(lcg_next(0), 1);
    assert_eq!(lcg_next(u64::MAX), 12082607849862758612);
    assert_eq!(lcg_upper(10221792658196283441), 2379946563);
    assert_eq!(lcg_upper(u64::MAX), u32::MAX);
    assert_eq!(lcg_upper(0xffff_ffff), 0);

    let first = 2379946563u32 as f32 / u32::MAX as f32 * 2.0 - 1.0;
    let second = 1498474691u32 as f32 / u32::MAX as f32 * 2.0 - 1.0;
    let mut out = vec![vec![F(0.0); 2]];
    let node = WhiteNoise;
    let mut state = node.init_state(F(48000.0), 2);
    node.process_block(&mut state, &[], &mut out, F(48000.0)).unwrap();
    assert_eq!(raw(&out[0]), vec![first, second]);
    assert_eq!(state.rng, 6435899792755562398);

    let node = BrownNoise;
    let mut state = node.init_state(F(48000.0), 2);
    node.process_block(&mut state, &[], &mut out, F(48000.0)).unwrap();
    assert_eq!(raw(&out[0]), vec![first * 0.02, first * 0.02 + second * 0.02]);
    assert_eq!(state.brown, out[0][1]);
    for _ in 0..2000 {
        node.process_block(&mut state, &[], &mut out, F(48000.0)).unwrap();
        assert!(out[0].iter().all(|v| v.0.abs() <= 1.0));
    }
}

#[test]
fn a_seed_fixes_the_noise() {
    let node = WhiteNoise;
    let run = |seed: u64| {
        let mut state: NoiseState<F> = NoiseState::seeded(seed);
        let mut out = vec![vec![F(0.0); 8]];
        node.process_block(&mut state, &[], &mut out, F(48000.0)).unwrap();
        raw(&out[0])
    };
    assert_eq!(run(7), run(7));
    assert_ne!(run(7), run(8));
    let mut state = node.init_state(F(48000.0), 8);
    let mut out = vec![vec![F(0.0); 8]];
    node.process_block(&mut state, &[], &mut out, F(48000.0)).unwrap();
    assert_eq!(run(NOISE_SEED), raw(&out[0]));
    // the next state of the generator from a seed of seven
    assert_eq!(lcg_next(7), 7655465419508447804);
}

#[test]
fn dynamics_values() {
    // at 1000 samples per second a time of one millisecond gives exp(-1)
    let a = (-1.0f32).exp();
    approx(follower_coefficient(F(1.0), F(1000.0)).0, a);
    approx(follow(F(0.0), F(1.0), F(0.25), F(0.5)).0, 0.75);
    approx(follow(F(1.0), F(0.0), F(0.25), F(0.5)).0, 0.5);
    approx(envelope_floor::<F>().0, 0.0001);
    let envelope = 1.0 - a;
    let input = fs(&[1.0]);
    let mut out = vec![vec![F(0.0); 1]];

    let node = Limiter { threshold: F(0.5), attack_ms: F(1.0), release_ms: F(1.0) };
    let mut state = node.init_state(F(1000.0), 1);
    node.process_block(&mut state, &[&input], &mut out, F(1000.0)).unwrap();
    approx(state.envelope.0, envelope);
    approx(out[0][0].0, 0.5 / envelope);

    let node = NoiseGate { threshold: F(0.9), ratio: F(10.0), attack_ms: F(1.0), release_ms: F(1.0) };
    let mut state = node.init_state(F(1000.0), 1);
    node.process_block(&mut state, &[&input], &mut out, F(1000.0)).unwrap();
    assert_eq!(out[0][0].0, 0.0);
    let node = NoiseGate { threshold: F(0.5), ratio: F(10.0), attack_ms: F(1.0), release_ms: F(1.0) };
    let mut state = node.init_state(F(1000.0), 1);
    node.process_block(&mut state, &[&input], &mut out, F(1000.0)).unwrap();
    approx(out[0][0].0, 1.0);

    let node = Expander { threshold: F(0.9), ratio: F(2.0), attack_ms: F(1.0), release_ms: F(1.0) };
    let mut state = node.init_state(F(1000.0), 1);
    node.process_block(&mut state, &[&input], &mut out, F(1000.0)).unwrap();
    approx(out[0][0].0, (0.9 + (envelope - 0.9) * 2.0) / envelope);

    let node = Compressor { threshold: F(0.5), ratio: F(4.0), attack_ms: F(1.0), release_ms: F(1.0), makeup_gain: F(2.0) };
    let mut state = node.init_state(F(1000.0), 1);
    node.process_block(&mut state, &[&input], &mut out, F(1000.0)).unwrap();
    approx(out[0][0].0, (0.5 + (envelope - 0.5) / 4.0) / envelope * 2.0);
    // a key signal on input 1 takes the place of the input
    let mut state = node.init_state(F(1000.0), 1);
    let silent = fs(&[0.0]);
    node.process_block(&mut state, &[&input, &silent], &mut out, F(1000.0)).unwrap();
    approx(out[0][0].0, 2.0);
    // silence stays silence: the envelope is floored before it divides
    let mut state = node.init_state(F(1000.0), 1);
    node.process_block(&mut state, &[&silent], &mut out, F(1000.0)).unwrap();
    assert_eq!(out[0][0].0, 0.0);

    let node = SpectralGate { threshold: F(0.5), ratio: F(10.0) };
    let mut state = node.init_state(F(1000.0), 1);
    node.process_block(&mut state, &[&input], &mut out, F(1000.0)).unwrap();
    approx(state.envelope.0, envelope);
    approx(out[0][0].0, 1.0);
}

#[test]
fn envelope_values() {
    let gate = fs(&[1.0, 1.0, 1.0, 0.0, 0.0]);
    let mut out = vec![vec![F(0.0); 5]];
    let node = ArEnvelope { attack_ms: F(10.0), release_ms: F(20.0), curve: F(0.0) };
    let mut state = node.init_state(F(1000.0), 5);
    node.process_block(&mut state, &[&gate], &mut out, F(1000.0)).unwrap();
    // the release multiplies the level by what is left of the stage
    close(&out[0], &[0.0, 0.1, 0.2, 0.3, 0.3 * 0.95]);
    assert_eq!(state.phase, ArPhase::Release);

    let node = AdEnvelope { attack_ms: F(2.0), decay_ms: F(4.0), curve: F(0.0) };
    let mut state = node.init_state(F(1000.0), 5);
    let held = fs(&[1.0, 1.0, 1.0, 1.0, 1.0]);
    node.process_block(&mut state, &[&held], &mut out, F(1000.0)).unwrap();
    close(&out[0], &[0.0, 0.5, 1.0, 0.75, 0.5]);
    assert_eq!(state.phase, AdPhase::Decay);

    // an exponential attack
    let node = ArEnvelope { attack_ms: F(10.0), release_ms: F(20.0), curve: F(2.0) };
    let mut state = node.init_state(F(1000.0), 5);
    node.process_block(&mut state, &[&gate], &mut out, F(1000.0)).unwrap();
    approx(out[0][1].0, 1.0 - (-0.1f32 * 2.0).exp());
    // a gate of exactly one half is low
    let low = fs(&[0.5, 0.5, 0.5, 0.5, 0.5]);
    let mut state = node.init_state(F(1000.0), 5);
    node.process_block(&mut state, &[&low], &mut out, F(1000.0)).unwrap();
    assert_eq!(state.phase, ArPhase::Idle);
    assert_eq!(raw(&out[0]), vec![0.0; 5]);
}

#[test]
fn lfo_values() {
    // a hundredth of a turn per sample
    let inc = 1.0f32 / 100.0;
    let mut out = vec![vec![F(0.0); 2]];
    for (waveform, first) in [
        (LfoWaveform::Sine, (inc * std::f32::consts::TAU).sin()),
        (LfoWaveform::Triangle, inc * 4.0),
        (LfoWaveform::Saw, inc * 2.0 - 1.0),
        (LfoWaveform::Square, 1.0),
        (LfoWaveform::Random, ((inc * 12345.0).sin() - 0.5) * 2.0),
    ] {
        let node = Lfo { frequency: F(1.0), waveform, amplitude: F(2.0), offset: F(1.0) };
        let mut state = node.init_state(F(100.0), 2);
        node.process_block(&mut state, &[], &mut out, F(100.0)).unwrap();
        approx(out[0][0].0, first * 2.0 + 1.0);
        approx(state.phase.0, 2.0 * inc);
    }
    // modulation of the frequency
    let node = Lfo { frequency: F(0.0), waveform: LfoWaveform::Saw, amplitude: F(1.0), offset: F(0.0) };
    let mut state = node.init_state(F(100.0), 2);
    let freq_mod = fs(&[1.0, 1.0]);
    node.process_block(&mut state, &[&freq_mod], &mut out, F(100.0)).unwrap();
    approx(out[0][0].0, inc * 2.0 - 1.0);
    // at an eighth of a turn per sample a square is high over its first half period
    let node = Lfo { frequency: F(1.0), waveform: LfoWaveform::Square, amplitude: F(1.0), offset: F(0.0) };
    let mut state = node.init_state(F(8.0), 3);
    let mut out = vec![vec![F(0.0); 3]];
    node.process_block(&mut state, &[], &mut out, F(8.0)).unwrap();
    assert_eq!(raw(&out[0]), vec![1.0, 1.0, 1.0]);
    approx(state.phase.0, 0.375);
    // the phase wraps at one
    let mut out = vec![vec![F(0.0); 7]];
    node.process_block(&mut state, &[], &mut out, F(8.0)).unwrap();
    approx(state.phase.0, 0.25);
    assert_eq!((out[0][1].0, out[0][2].0, out[0][6].0), (-1.0, -1.0, 1.0));
}

#[test]
fn a_decay_falls_from_the_peak_to_the_sustain_level() {
    let node = AdsrEnvelope {
        attack_ms: F(1000.0),
        decay_ms: F(4000.0),
        sustain_level: F(0.5),
        release_ms: F(1000.0),
        curve: F(0.0),
    };
    let mut state = node.init_state(F(1.0), 4);
    let gate = vec![F(1.0); 4];
    let mut out = vec![vec![F(0.0); 4]];
    node.process_block(&mut state, &[&gate], &mut out, F(1.0)).unwrap();
    assert_eq!(raw(&out[0]), vec![0.0, 1.0, 0.875, 0.75]);
    assert_eq!(state.phase, AdsrPhase::Decay);
    node.process_block(&mut state, &[&gate], &mut out, F(1.0)).unwrap();
    assert_eq!(raw(&out[0]), vec![0.625, 0.5, 0.5, 0.5]);
    assert_eq!(state.phase, AdsrPhase::Sustain);
    // with a curve the decay is exponential, from the peak towards the sustain level
    let curved = AdsrEnvelope { curve: F(2.0), ..node };
    let mut state = curved.init_state(F(1.0), 4);
    curved.process_block(&mut state, &[&gate], &mut out, F(1.0)).unwrap();
    approx(out[0][2].0, 0.5 + 0.5 * (-0.25f32 * 2.0).exp());
    assert!(out[0][3].0 < out[0][2].0 && out[0][3].0 > 0.5);
}

#[test]
fn a_gate_that_stays_high_starts_one_shot_only() {
    let node = AdEnvelope { attack_ms: F(2000.0), decay_ms: F(2000.0), curve: F(0.0) };
    let mut state = node.init_state(F(1.0), 7);
    assert!(!state.gate_high);
    let gate = vec![F(1.0); 7];
    let mut out = vec![vec![F(9.0); 7]];
    node.process_block(&mut state, &[&gate], &mut out, F(1.0)).unwrap();
    assert_eq!(raw(&out[0]), vec![0.0, 0.5, 1.0, 0.5, 0.0, 0.0, 0.0]);
    assert_eq!(state.phase, AdPhase::Idle);
    assert!(state.gate_high);
    // a fall and a new rise start the next shot
    let gate = fs(&[0.0, 1.0, 1.0, 1.0, 1.0, 1.0, 1.0]);
    node.process_block(&mut state, &[&gate], &mut out, F(1.0)).unwrap();
    assert_eq!(raw(&out[0]), vec![0.0, 0.0, 0.5, 1.0, 0.5, 0.0, 0.0]);
    // the other envelopes wait for a rise too
    let ar = ArEnvelope { attack_ms: F(1000.0), release_ms: F(1000.0), curve: F(0.0) };
    let mut state = ar.init_state(F(1.0), 7);
    // a gate that falls, rises during the release and stays high
    let gate = fs(&[1.0, 1.0, 0.0, 1.0, 1.0, 1.0, 1.0]);
    ar.process_block(&mut state, &[&gate], &mut out, F(1.0)).unwrap();
    assert_eq!(state.phase, ArPhase::Idle);
    assert_eq!(raw(&out[0])[4..], [0.0, 0.0, 0.0]);
}

#[test]
fn pitch_values() {
    let node = PitchShifter { shift: F(0.0), mix: F(1.0) };
    let mut state = node.init_state(F(4400.0), 12);
    assert_eq!(state.line.len(), 88);
    let mut input = vec![F(0.0); 12];
    input[0] = F(1.0);
    let mut out = vec![vec![F(0.0); 12]];
    node.process_block(&mut state, &[&input], &mut out, F(4400.0)).unwrap();
    // one period of 440 Hz is ten samples
    let mut want = vec![0.0; 12];
    want[10] = 1.0;
    assert_eq!(raw(&out[0]), want);

    let node = PitchDetector;
    let mut state = node.init_state(F(1000.0), 4);
    let input = fs(&[-1.0, 1.0, 1.0, -1.0]);
    let mut out = vec![vec![F(0.0); 4]];
    node.process_block(&mut state, &[&input], &mut out, F(1000.0)).unwrap();
    assert_eq!(raw(&out[0]), vec![1000.0, 1000.0, 1000.0, 500.0]);
    assert_eq!((state.prev_sample, state.period), (F(-1.0), F(1.0)));
    // without a crossing the node holds what the output carried
    let mut state = node.init_state(F(1000.0), 4);
    let flat = fs(&[0.0, 0.0]);
    let mut out = vec![fs(&[7.0, 8.0])];
    node.process_block(&mut state, &[&flat], &mut out, F(1000.0)).unwrap();
    assert_eq!(raw(&out[0]), vec![7.0, 7.0]);
}

#[test]
fn effects_hand_the_input_on_at_a_mix_of_zero() {
    let input = fs(&[1.0, -0.5, 0.25, 0.75]);
    let mut out = vec![vec![F(0.0); 4]];

    let node = Chorus { delay_ms: F(5.0), depth_ms: F(2.0), rate: F(1.5), mix: F(0.0) };
    let mut state = node.init_state(F(48000.0), 4);
    assert_eq!(state.line.len(), 337);
    node.process_block(&mut state, &[&input], &mut out, F(48000.0)).unwrap();
    assert_eq!(raw(&out[0]), raw(&input));

    let node = Flanger { delay_ms: F(1.0), depth_ms: F(0.5), rate: F(0.5), feedback: F(0.5), mix: F(0.0) };
    let mut state = node.init_state(F(48000.0), 4);
    node.process_block(&mut state, &[&input], &mut out, F(48000.0)).unwrap();
    assert_eq!(raw(&out[0]), raw(&input));

    let node = SimpleReverb { decay: F(0.5), mix: F(0.0) };
    let mut state = node.init_state(F(48000.0), 4);
    node.process_block(&mut state, &[&input], &mut out, F(48000.0)).unwrap();
    assert_eq!(raw(&out[0]), raw(&input));

    let node = Phaser { rate: F(0.5), depth: F(1.0), feedback: F(0.5), mix: F(0.0) };
    let mut state = node.init_state(F(48000.0), 4);
    node.process_block(&mut state, &[&input], &mut out, F(48000.0)).unwrap();
    assert_eq!(raw(&out[0]), raw(&input));

    let node = Tremolo { rate: F(5.0), depth: F(0.0) };
    let mut state = node.init_state(F(48000.0), 4);
    node.process_block(&mut state, &[&input], &mut out, F(48000.0)).unwrap();
    assert_eq!(raw(&out[0]), raw(&input));
    // at full depth the gain at phase zero is one half
    let node = Tremolo { rate: F(0.0), depth: F(1.0) };
    let mut state = node.init_state(F(48000.0), 4);
    node.process_block(&mut state, &[&input], &mut out, F(48000.0)).unwrap();
    assert_eq!(raw(&out[0]), vec![0.5, -0.25, 0.125, 0.375]);
}

#[test]
fn swept_delays_read_between_samples() {
    // without depth the delay is whole: five samples at 1000 samples per second
    let node = Chorus { delay_ms: F(5.0), depth_ms: F(0.0), rate: F(1.0), mix: F(1.0) };
    let mut state = node.init_state(F(1000.0), 8);
    assert_eq!(state.line.len(), 6);
    let mut input = vec![F(0.0); 8];
    input[0] = F(1.0);
    let mut out = vec![vec![F(0.0); 8]];
    node.process_block(&mut state, &[&input], &mut out, F(1000.0)).unwrap();
    let mut want = vec![0.0; 8];
    want[5] = 1.0;
    assert_eq!(raw(&out[0]), want);
}

#[test]
fn multitap_delay_sums_its_taps() {
    let node = MultitapDelay { taps: vec![(F(1.0), F(0.5)), (F(3.0), F(0.25))], feedback: F(0.0), mix: F(1.0) };
    let mut state = node.init_state(F(1000.0), 6);
    assert_eq!(state.line.len(), 3);
    let input = fs(&[1.0, 0.0, 0.0, 0.0, 0.0, 0.0]);
    let mut out = vec![vec![F(0.0); 6]];
    node.process_block(&mut state, &[&input], &mut out, F(1000.0)).unwrap();
    // the tap of the whole length reads the sample that was just written
    assert_eq!(raw(&out[0]), vec![0.25, 0.5, 0.0, 0.0, 0.0, 0.0]);
    // without taps the line has one sample and the wet signal is silence
    let node = MultitapDelay { taps: Vec::<(F, F)>::new(), feedback: F(0.0), mix: F(1.0) };
    let mut state = node.init_state(F(1000.0), 6);
    assert_eq!(state.line.len(), 1);
    node.process_block(&mut state, &[&input], &mut out, F(1000.0)).unwrap();
    assert_eq!(raw(&out[0]), vec![0.0; 6]);
}
