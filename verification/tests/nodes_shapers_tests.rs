use auxide_dsp::nodes::shapers::{BitCrusher, DcBlocker, HardClip, Overdrive, SoftClip, TubeSaturation, WaveShaper};
use auxide_dsp::sample::Sample;

#[derive(Debug, Clone, Copy, PartialEq, PartialOrd)]
struct F(f32);

impl Sample for F {
    fn obeys_sample_spec() -> bool { true }
    fn zero() -> Self { F(0.0) }
    fn one() -> Self { F(1.0) }
    fn pi() -> Self { F(std::f32::consts::PI) }
    fn ratio(num: i64, den: i64) -> Self { F(num as f32 / den as f32) }
    fn from_usize(n: usize) -> Self { F(n as f32) }
    fn from_u32(n: u32) -> Self { F(n as f32) }
    fn to_usize(self) -> usize { self.0 as usize }
    fn powi(self, n: i32) -> Self { F(self.0.powi(n)) }
    fn clamp(self, lo: Self, hi: Self) -> Self {
        if lo.0 <= hi.0 { F(self.0.clamp(lo.0, hi.0)) } else { F(self.0.max(lo.0).min(hi.0)) }
    }
    fn neg(self) -> Self { F(-self.0) }
    fn abs(self) -> Self { F(self.0.abs()) }
    fn signum(self) -> Self { F(self.0.signum()) }
    fn sqrt(self) -> Self { F(self.0.sqrt()) }
    fn floor(self) -> Self { F(self.0.floor()) }
    fn round(self) -> Self { F(self.0.round()) }
    fn fract(self) -> Self { F(self.0.fract()) }
    fn sin(self) -> Self { F(self.0.sin()) }
    fn cos(self) -> Self { F(self.0.cos()) }
    fn tan(self) -> Self { F(self.0.tan()) }
    fn tanh(self) -> Self { F(self.0.tanh()) }
    fn exp(self) -> Self { F(self.0.exp()) }
    fn ln(self) -> Self { F(self.0.ln()) }
    fn log10(self) -> Self { F(self.0.log10()) }
    fn add(self, rhs: Self) -> Self { F(self.0 + rhs.0) }
    fn sub(self, rhs: Self) -> Self { F(self.0 - rhs.0) }
    fn mul(self, rhs: Self) -> Self { F(self.0 * rhs.0) }
    fn div(self, rhs: Self) -> Self { F(self.0 / rhs.0) }
    fn rem(self, rhs: Self) -> Self { F(self.0 % rhs.0) }
    fn min(self, rhs: Self) -> Self { F(self.0.min(rhs.0)) }
    fn max(self, rhs: Self) -> Self { F(self.0.max(rhs.0)) }
    fn powf(self, rhs: Self) -> Self { F(self.0.powf(rhs.0)) }
    fn lt(self, rhs: Self) -> bool { self.0 < rhs.0 }
    fn le(self, rhs: Self) -> bool { self.0 <= rhs.0 }
    fn gt(self, rhs: Self) -> bool { self.0 > rhs.0 }
    fn ge(self, rhs: Self) -> bool { self.0 >= rhs.0 }
    fn zero_spec() -> Self { Self::zero() }
    fn one_spec() -> Self { Self::one() }
    fn pi_spec() -> Self { Self::pi() }
    fn ratio_spec(num: i64, den: i64) -> Self { Self::ratio(num, den) }
    fn from_usize_spec(n: usize) -> Self { Self::from_usize(n) }
    fn from_u32_spec(n: u32) -> Self { Self::from_u32(n) }
    fn to_usize_spec(self) -> usize { self.to_usize() }
    fn powi_spec(self, n: i32) -> Self { self.powi(n) }
    fn clamp_spec(self, lo: Self, hi: Self) -> Self { self.clamp(lo, hi) }
    fn neg_spec(self) -> Self { self.neg() }
    fn abs_spec(self) -> Self { self.abs() }
    fn signum_spec(self) -> Self { self.signum() }
    fn sqrt_spec(self) -> Self { self.sqrt() }
    fn floor_spec(self) -> Self { self.floor() }
    fn round_spec(self) -> Self { self.round() }
    fn fract_spec(self) -> Self { self.fract() }
    fn sin_spec(self) -> Self { self.sin() }
    fn cos_spec(self) -> Self { self.cos() }
    fn tan_spec(self) -> Self { self.tan() }
    fn tanh_spec(self) -> Self { self.tanh() }
    fn exp_spec(self) -> Self { self.exp() }
    fn ln_spec(self) -> Self { self.ln() }
    fn log10_spec(self) -> Self { self.log10() }
    fn add_spec(self, rhs: Self) -> Self { self.add(rhs) }
    fn sub_spec(self, rhs: Self) -> Self { self.sub(rhs) }
    fn mul_spec(self, rhs: Self) -> Self { self.mul(rhs) }
    fn div_spec(self, rhs: Self) -> Self { self.div(rhs) }
    fn rem_spec(self, rhs: Self) -> Self { self.rem(rhs) }
    fn min_spec(self, rhs: Self) -> Self { self.min(rhs) }
    fn max_spec(self, rhs: Self) -> Self { self.max(rhs) }
    fn powf_spec(self, rhs: Self) -> Self { self.powf(rhs) }
    fn lt_spec(self, rhs: Self) -> bool { self.lt(rhs) }
    fn le_spec(self, rhs: Self) -> bool { self.le(rhs) }
    fn gt_spec(self, rhs: Self) -> bool { self.gt(rhs) }
    fn ge_spec(self, rhs: Self) -> bool { self.ge(rhs) }
}

fn fs(values: &[f32]) -> Vec<F> {
    values.iter().map(|v| F(*v)).collect()
}

fn raw(values: &[F]) -> Vec<f32> {
    values.iter().map(|v| v.0).collect()
}

fn non_silent(buf: &[F]) -> bool {
    buf.iter().any(|v| v.0.abs() > 1e-6)
}

fn approx(a: f32, b: f32) {
    assert!((a - b).abs() < 1e-4, "{} != {}", a, b);
}

#[test]
fn waveshaper_runs() {
    let node = WaveShaper {
        drive: F(2.0),
        mix: F(1.0),
    };
    let mut state = node.init_state(F(44100.0), 64);
    let mut out = vec![vec![F(0.0); 64]];
    node.process_block(&mut state, &[&[F(1.0); 64]], &mut out, F(44100.0)).unwrap();
    assert!(non_silent(&out[0]));
}

#[test]
fn hardclip_runs() {
    let node = HardClip {
        threshold: F(0.5),
        mix: F(1.0),
    };
    let mut state = node.init_state(F(44100.0), 64);
    let mut out = vec![vec![F(0.0); 64]];
    node.process_block(&mut state, &[&[F(1.0); 64]], &mut out, F(44100.0)).unwrap();
    assert!(non_silent(&out[0]));
}

#[test]
fn bitcrusher_runs() {
    let node = BitCrusher {
        bits: F(4.0),
        mix: F(1.0),
    };
    let mut state = node.init_state(F(44100.0), 64);
    let mut out = vec![vec![F(0.0); 64]];
    node.process_block(&mut state, &[&[F(1.0); 64]], &mut out, F(44100.0)).unwrap();
    assert!(non_silent(&out[0]));
}

#[test]
fn dc_blocker_runs() {
    let node = DcBlocker { cutoff: F(10.0) };
    let mut state = node.init_state(F(44100.0), 64);
    let mut out = vec![vec![F(0.0); 64]];
    let input = fs(&(0..64).map(|i| (i as f32 / 64.0) * 2.0 - 1.0).collect::<Vec<f32>>());
    node.process_block(&mut state, &[&input], &mut out, F(44100.0)).unwrap();
    assert!(non_silent(&out[0]));
}

#[test]
fn softclip_runs() {
    let node = SoftClip {
        drive: F(2.0),
        mix: F(1.0),
    };
    let mut state = node.init_state(F(44100.0), 64);
    let mut out = vec![vec![F(0.0); 64]];
    node.process_block(&mut state, &[&[F(1.0); 64]], &mut out, F(44100.0)).unwrap();
    assert!(non_silent(&out[0]));
}

#[test]
fn tube_saturation_runs() {
    let node = TubeSaturation {
        drive: F(2.0),
        asymmetry: F(0.1),
        mix: F(1.0),
    };
    let mut state = node.init_state(F(44100.0), 64);
    let mut out = vec![vec![F(0.0); 64]];
    node.process_block(&mut state, &[&[F(1.0); 64]], &mut out, F(44100.0)).unwrap();
    assert!(non_silent(&out[0]));
}

#[test]
fn overdrive_runs() {
    let node = Overdrive {
        drive: F(2.0),
        mix: F(1.0),
    };
    let mut state = node.init_state(F(44100.0), 64);
    let mut out = vec![vec![F(0.0); 64]];
    node.process_block(&mut state, &[&[F(1.0); 64]], &mut out, F(44100.0)).unwrap();
    assert!(non_silent(&out[0]));
}

#[test]
fn waveshaper_no_panic() {
    for case in 0..3 {
        let drive = F([0.1, 5.05, 9.9901][case]);
        let mix = F([0.0, 0.5, 0.999][case]);
        let node = WaveShaper { drive, mix };
        let mut state = node.init_state(F(44100.0), 64);
        let mut out = vec![vec![F(0.0); 64]];
        node.process_block(&mut state, &[&[F(1.0); 64]], &mut out, F(44100.0)).unwrap();
    }
}

#[test]
fn hardclip_no_panic() {
    for case in 0..3 {
        let threshold = F([0.1, 0.55, 0.9991][case]);
        let mix = F([0.0, 0.5, 0.999][case]);
        let node = HardClip { threshold, mix };
        let mut state = node.init_state(F(44100.0), 64);
        let mut out = vec![vec![F(0.0); 64]];
        node.process_block(&mut state, &[&[F(1.0); 64]], &mut out, F(44100.0)).unwrap();
    }
}

#[test]
fn bitcrusher_no_panic() {
    for case in 0..3 {
        let bits = F([1.0, 8.5, 15.985][case]);
        let mix = F([0.0, 0.5, 0.999][case]);
        let node = BitCrusher { bits, mix };
        let mut state = node.init_state(F(44100.0), 64);
        let mut out = vec![vec![F(0.0); 64]];
        node.process_block(&mut state, &[&[F(1.0); 64]], &mut out, F(44100.0)).unwrap();
    }
}

#[test]
fn dc_blocker_no_panic() {
    for case in 0..3 {
        let cutoff = F([1.0, 500.5, 999.001][case]);
        let node = DcBlocker { cutoff };
        let mut state = node.init_state(F(44100.0), 64);
        let mut out = vec![vec![F(0.0); 64]];
        let input = fs(&(0..64).map(|i| (i as f32 / 64.0) * 2.0 - 1.0).collect::<Vec<f32>>());
        node.process_block(&mut state, &[&input], &mut out, F(44100.0)).unwrap();
    }
}

#[test]
fn softclip_no_panic() {
    for case in 0..3 {
        let drive = F([0.1, 5.05, 9.9901][case]);
        let mix = F([0.0, 0.5, 0.999][case]);
        let node = SoftClip { drive, mix };
        let mut state = node.init_state(F(44100.0), 64);
        let mut out = vec![vec![F(0.0); 64]];
        node.process_block(&mut state, &[&[F(1.0); 64]], &mut out, F(44100.0)).unwrap();
    }
}

#[test]
fn tube_saturation_no_panic() {
    for case in 0..3 {
        let drive = F([0.1, 5.05, 9.9901][case]);
        let asymmetry = F([0.0, 0.5, 0.999][case]);
        let mix = F([0.0, 0.5, 0.999][case]);
        let node = TubeSaturation { drive, asymmetry, mix };
        let mut state = node.init_state(F(44100.0), 64);
        let mut out = vec![vec![F(0.0); 64]];
        node.process_block(&mut state, &[&[F(1.0); 64]], &mut out, F(44100.0)).unwrap();
    }
}

#[test]
fn overdrive_no_panic() {
    for case in 0..3 {
        let drive = F([0.1, 5.05, 9.9901][case]);
        let mix = F([0.0, 0.5, 0.999][case]);
        let node = Overdrive { drive, mix };
        let mut state = node.init_state(F(44100.0), 64);
        let mut out = vec![vec![F(0.0); 64]];
        node.process_block(&mut state, &[&[F(1.0); 64]], &mut out, F(44100.0)).unwrap();
    }
}
