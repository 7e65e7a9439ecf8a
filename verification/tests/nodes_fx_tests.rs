use auxide_dsp::block::ShapeError;
use auxide_dsp::nodes::fx::{Chorus, ConvolutionReverb, Delay, Flanger, MultitapDelay, Phaser, SimpleReverb, Tremolo};
use auxide_dsp::spectrum::{Complex, Planner, Transform};
use auxide_dsp::sample::Sample;

#[derive(Debug, Clone, Copy, PartialEq, PartialOrd)]
struct F(f32);

impl Sample for F {
    fn obeys_sample_spec() -> bool { true }
    fn zero() -> Self { F(0.0) }
    fn one() -> Self { F(1.0) }
    fn pi() -> Self { F(std::f32::consts::PI) }
    fn ratio(num: i64, den: i64) -> Self { F(num as f32 / den as f32) }
    fn from_usize(n: usize) -> Self { F(n as f32) }
    fn from_u32(n: u32) -> Self { F(n as f32) }
    fn to_usize(self) -> usize { self.0 as usize }
    fn powi(self, n: i32) -> Self { F(self.0.powi(n)) }
    fn clamp(self, lo: Self, hi: Self) -> Self {
        if lo.0 <= hi.0 { F(self.0.clamp(lo.0, hi.0)) } else { F(self.0.max(lo.0).min(hi.0)) }
    }
    fn neg(self) -> Self { F(-self.0) }
    fn abs(self) -> Self { F(self.0.abs()) }
    fn signum(self) -> Self { F(self.0.signum()) }
    fn sqrt(self) -> Self { F(self.0.sqrt()) }
    fn floor(self) -> Self { F(self.0.floor()) }
    fn round(self) -> Self { F(self.0.round()) }
    fn fract(self) -> Self { F(self.0.fract()) }
    fn sin(self) -> Self { F(self.0.sin()) }
    fn cos(self) -> Self { F(self.0.cos()) }
    fn tan(self) -> Self { F(self.0.tan()) }
    fn tanh(self) -> Self { F(self.0.tanh()) }
    fn exp(self) -> Self { F(self.0.exp()) }
    fn ln(self) -> Self { F(self.0.ln()) }
    fn log10(self) -> Self { F(self.0.log10()) }
    fn add(self, rhs: Self) -> Self { F(self.0 + rhs.0) }
    fn sub(self, rhs: Self) -> Self { F(self.0 - rhs.0) }
    fn mul(self, rhs: Self) -> Self { F(self.0 * rhs.0) }
    fn div(self, rhs: Self) -> Self { F(self.0 / rhs.0) }
    fn rem(self, rhs: Self) -> Self { F(self.0 % rhs.0) }
    fn min(self, rhs: Self) -> Self { F(self.0.min(rhs.0)) }
    fn max(self, rhs: Self) -> Self { F(self.0.max(rhs.0)) }
    fn powf(self, rhs: Self) -> Self { F(self.0.powf(rhs.0)) }
    fn lt(self, rhs: Self) -> bool { self.0 < rhs.0 }
    fn le(self, rhs: Self) -> bool { self.0 <= rhs.0 }
    fn gt(self, rhs: Self) -> bool { self.0 > rhs.0 }
    fn ge(self, rhs: Self) -> bool { self.0 >= rhs.0 }
    fn zero_spec() -> Self { Self::zero() }
    fn one_spec() -> Self { Self::one() }
    fn pi_spec() -> Self { Self::pi() }
    fn ratio_spec(num: i64, den: i64) -> Self { Self::ratio(num, den) }
    fn from_usize_spec(n: usize) -> Self { Self::from_usize(n) }
    fn from_u32_spec(n: u32) -> Self { Self::from_u32(n) }
    fn to_usize_spec(self) -> usize { self.to_usize() }
    fn powi_spec(self, n: i32) -> Self { self.powi(n) }
    fn clamp_spec(self, lo: Self, hi: Self) -> Self { self.clamp(lo, hi) }
    fn neg_spec(self) -> Self { self.neg() }
    fn abs_spec(self) -> Self { self.abs() }
    fn signum_spec(self) -> Self { self.signum() }
    fn sqrt_spec(self) -> Self { self.sqrt() }
    fn floor_spec(self) -> Self { self.floor() }
    fn round_spec(self) -> Self { self.round() }
    fn fract_spec(self) -> Self { self.fract() }
    fn sin_spec(self) -> Self { self.sin() }
    fn cos_spec(self) -> Self { self.cos() }
    fn tan_spec(self) -> Self { self.tan() }
    fn tanh_spec(self) -> Self { self.tanh() }
    fn exp_spec(self) -> Self { self.exp() }
    fn ln_spec(self) -> Self { self.ln() }
    fn log10_spec(self) -> Self { self.log10() }
    fn add_spec(self, rhs: Self) -> Self { self.add(rhs) }
    fn sub_spec(self, rhs: Self) -> Self { self.sub(rhs) }
    fn mul_spec(self, rhs: Self) -> Self { self.mul(rhs) }
    fn div_spec(self, rhs: Self) -> Self { self.div(rhs) }
    fn rem_spec(self, rhs: Self) -> Self { self.rem(rhs) }
    fn min_spec(self, rhs: Self) -> Self { self.min(rhs) }
    fn max_spec(self, rhs: Self) -> Self { self.max(rhs) }
    fn powf_spec(self, rhs: Self) -> Self { self.powf(rhs) }
    fn lt_spec(self, rhs: Self) -> bool { self.lt(rhs) }
    fn le_spec(self, rhs: Self) -> bool { self.le(rhs) }
    fn gt_spec(self, rhs: Self) -> bool { self.gt(rhs) }
    fn ge_spec(self, rhs: Self) -> bool { self.ge(rhs) }
}

fn fs(values: &[f32]) -> Vec<F> {
    values.iter().map(|v| F(*v)).collect()
}

fn raw(values: &[F]) -> Vec<f32> {
    values.iter().map(|v| v.0).collect()
}

fn non_silent(buf: &[F]) -> bool {
    buf.iter().any(|v| v.0.abs() > 1e-6)
}

fn approx(a: f32, b: f32) {
    assert!((a - b).abs() < 1e-4, "{} != {}", a, b);
}

#[test]
fn delay_runs() {
    let node = Delay {
        delay_ms: F(50.0),
        feedback: F(0.5),
        mix: F(0.5),
    };
    let mut state = node.init_state(F(44100.0), 64);
    let mut out = vec![vec![F(0.0); 64]];
    node.process_block(&mut state, &[&[F(1.0); 64]], &mut out, F(44100.0)).unwrap();
    assert!(non_silent(&out[0]));
}

#[test]
fn chorus_runs() {
    let node = Chorus {
        delay_ms: F(10.0),
        depth_ms: F(5.0),
        rate: F(0.5),
        mix: F(0.5),
    };
    let mut state = node.init_state(F(44100.0), 64);
    let mut out = vec![vec![F(0.0); 64]];
    node.process_block(&mut state, &[&[F(1.0); 64]], &mut out, F(44100.0)).unwrap();
    assert!(non_silent(&out[0]));
}

#[test]
fn flanger_runs() {
    let node = Flanger {
        delay_ms: F(1.0),
        depth_ms: F(1.0),
        rate: F(0.5),
        feedback: F(0.5),
        mix: F(0.5),
    };
    let mut state = node.init_state(F(44100.0), 64);
    let mut out = vec![vec![F(0.0); 64]];
    node.process_block(&mut state, &[&[F(1.0); 64]], &mut out, F(44100.0)).unwrap();
    assert!(non_silent(&out[0]));
}

#[test]
fn phaser_runs() {
    let node = Phaser {
        rate: F(0.5),
        depth: F(1.0),
        feedback: F(0.5),
        mix: F(0.5),
    };
    let mut state = node.init_state(F(44100.0), 64);
    let mut out = vec![vec![F(0.0); 64]];
    node.process_block(&mut state, &[&[F(1.0); 64]], &mut out, F(44100.0)).unwrap();
    assert!(non_silent(&out[0]));
}

#[test]
fn simple_reverb_runs() {
    let node = SimpleReverb {
        decay: F(0.5),
        mix: F(0.5),
    };
    let mut state = node.init_state(F(44100.0), 64);
    let mut out = vec![vec![F(0.0); 64]];
    node.process_block(&mut state, &[&[F(1.0); 64]], &mut out, F(44100.0)).unwrap();
    assert!(non_silent(&out[0]));
}

#[test]
fn multitap_delay_runs() {
    let node = MultitapDelay {
        taps: vec![(F(50.0), F(0.5)), (F(100.0), F(0.3)), (F(150.0), F(0.2))],
        feedback: F(0.2),
        mix: F(0.5),
    };
    let mut state = node.init_state(F(44100.0), 64);
    let mut out = vec![vec![F(0.0); 64]];
    node.process_block(&mut state, &[&[F(1.0); 64]], &mut out, F(44100.0)).unwrap();
    assert!(non_silent(&out[0]));
}

#[test]
fn convolution_reverb_runs() {
    // Simple short IR
    let ir = fs(&(0..32).map(|i| (1.0 - i as f32 / 32.0).powf(2.0)).collect::<Vec<f32>>());
    let node = ConvolutionReverb {
        ir,
        mix: F(0.5),
    };
    let mut planner = FftPlanner(realfft::RealFftPlanner::new());
    let mut state = node.init_state(F(44100.0), 64, &mut planner).unwrap();
    let mut out = vec![vec![F(0.0); 64]];
    // Process multiple blocks to get convolution output
    for _ in 0..4 {
        node.process_block(&mut state, &[&[F(1.0); 64]], &mut out, F(44100.0)).unwrap();
    }
    assert!(non_silent(&out[0]));
}

#[test]
fn tremolo_runs() {
    let node = Tremolo {
        rate: F(5.0),
        depth: F(0.5),
    };
    let mut state = node.init_state(F(44100.0), 64);
    let mut out = vec![vec![F(0.0); 64]];
    node.process_block(&mut state, &[&[F(1.0); 64]], &mut out, F(44100.0)).unwrap();
    assert!(non_silent(&out[0]));
}

#[test]
fn delay_no_panic() {
    for case in 0..3 {
        let delay_ms = F([1.0, 500.5, 999.001][case]);
        let feedback = F([0.0, 0.495, 0.98901][case]);
        let mix = F([0.0, 0.5, 0.999][case]);
        let node = Delay { delay_ms, feedback, mix };
        let mut state = node.init_state(F(44100.0), 64);
        let mut out = vec![vec![F(0.0); 64]];
        node.process_block(&mut state, &[&[F(1.0); 64]], &mut out, F(44100.0)).unwrap();
    }
}

#[test]
fn chorus_no_panic() {
    for case in 0..3 {
        let delay_ms = F([1.0, 25.5, 49.951][case]);
        let depth_ms = F([0.1, 5.05, 9.9901][case]);
        let rate = F([0.1, 5.05, 9.9901][case]);
        let mix = F([0.0, 0.5, 0.999][case]);
        let node = Chorus { delay_ms, depth_ms, rate, mix };
        let mut state = node.init_state(F(44100.0), 64);
        let mut out = vec![vec![F(0.0); 64]];
        node.process_block(&mut state, &[&[F(1.0); 64]], &mut out, F(44100.0)).unwrap();
    }
}

#[test]
fn flanger_no_panic() {
    for case in 0..3 {
        let delay_ms = F([0.1, 5.05, 9.9901][case]);
        let depth_ms = F([0.1, 2.55, 4.9951][case]);
        let rate = F([0.1, 5.05, 9.9901][case]);
        let feedback = F([0.0, 0.495, 0.98901][case]);
        let mix = F([0.0, 0.5, 0.999][case]);
        let node = Flanger { delay_ms, depth_ms, rate, feedback, mix };
        let mut state = node.init_state(F(44100.0), 64);
        let mut out = vec![vec![F(0.0); 64]];
        node.process_block(&mut state, &[&[F(1.0); 64]], &mut out, F(44100.0)).unwrap();
    }
}

#[test]
fn phaser_no_panic() {
    for case in 0..3 {
        let rate = F([0.1, 5.05, 9.9901][case]);
        let depth = F([0.1, 0.55, 0.9991][case]);
        let feedback = F([0.0, 0.495, 0.98901][case]);
        let mix = F([0.0, 0.5, 0.999][case]);
        let node = Phaser { rate, depth, feedback, mix };
        let mut state = node.init_state(F(44100.0), 64);
        let mut out = vec![vec![F(0.0); 64]];
        node.process_block(&mut state, &[&[F(1.0); 64]], &mut out, F(44100.0)).unwrap();
    }
}

#[test]
fn simple_reverb_no_panic() {
    for case in 0..3 {
        let decay = F([0.0, 0.495, 0.98901][case]);
        let mix = F([0.0, 0.5, 0.999][case]);
        let node = SimpleReverb { decay, mix };
        let mut state = node.init_state(F(44100.0), 64);
        let mut out = vec![vec![F(0.0); 64]];
        node.process_block(&mut state, &[&[F(1.0); 64]], &mut out, F(44100.0)).unwrap();
    }
}

#[test]
fn tremolo_no_panic() {
    for case in 0..3 {
        let rate = F([0.1, 10.05, 19.9801][case]);
        let depth = F([0.0, 0.5, 0.999][case]);
        let node = Tremolo { rate, depth };
        let mut state = node.init_state(F(44100.0), 64);
        let mut out = vec![vec![F(0.0); 64]];
        node.process_block(&mut state, &[&[F(1.0); 64]], &mut out, F(44100.0)).unwrap();
    }
}

struct Fft {
    forward: std::sync::Arc<dyn realfft::RealToComplex<f32>>,
    inverse: std::sync::Arc<dyn realfft::ComplexToReal<f32>>,
}

impl Transform<F> for Fft {
    fn obeys_transform_spec(&self) -> bool {
        true
    }

    fn forward_spec(&self, frame: Vec<F>, bins: usize) -> Option<Vec<Complex<F>>> {
        let mut frame = frame;
        let mut spectrum = vec![Complex { re: F(0.0), im: F(0.0) }; bins];
        if self.forward(&mut frame, &mut spectrum) {
            Some(spectrum)
        } else {
            None
        }
    }

    fn inverse_spec(&self, spectrum: Vec<Complex<F>>, len: usize) -> Option<Vec<F>> {
        let mut spectrum = spectrum;
        let mut frame = vec![F(0.0); len];
        if self.inverse(&mut spectrum, &mut frame) {
            Some(frame)
        } else {
            None
        }
    }

    fn forward(&self, input: &mut [F], spectrum: &mut [Complex<F>]) -> bool {
        let mut samples: Vec<f32> = input.iter().map(|v| v.0).collect();
        let mut bins = vec![num_complex::Complex::new(0.0f32, 0.0f32); spectrum.len()];
        if self.forward.process(&mut samples, &mut bins).is_err() {
            return false;
        }
        for (to, from) in spectrum.iter_mut().zip(bins.iter()) {
            *to = Complex { re: F(from.re), im: F(from.im) };
        }
        true
    }

    fn inverse(&self, spectrum: &mut [Complex<F>], output: &mut [F]) -> bool {
        let mut bins: Vec<num_complex::Complex<f32>> =
            spectrum.iter().map(|c| num_complex::Complex::new(c.re.0, c.im.0)).collect();
        let mut samples = vec![0.0f32; output.len()];
        if self.inverse.process(&mut bins, &mut samples).is_err() {
            return false;
        }
        for (to, from) in output.iter_mut().zip(samples.iter()) {
            *to = F(*from);
        }
        true
    }
}

struct FftPlanner(realfft::RealFftPlanner<f32>);

impl Planner<F> for FftPlanner {
    type Plan = Fft;

    fn plan(&mut self, size: usize) -> Fft {
        Fft { forward: self.0.plan_fft_forward(size), inverse: self.0.plan_fft_inverse(size) }
    }
}

/// A transform that always fails.
struct Broken;

impl Transform<F> for Broken {
    fn obeys_transform_spec(&self) -> bool {
        true
    }

    fn forward_spec(&self, _frame: Vec<F>, _bins: usize) -> Option<Vec<Complex<F>>> {
        None
    }

    fn inverse_spec(&self, _spectrum: Vec<Complex<F>>, _len: usize) -> Option<Vec<F>> {
        None
    }

    fn forward(&self, _input: &mut [F], _spectrum: &mut [Complex<F>]) -> bool {
        false
    }

    fn inverse(&self, _spectrum: &mut [Complex<F>], _output: &mut [F]) -> bool {
        false
    }
}

struct BrokenPlanner;

impl Planner<F> for BrokenPlanner {
    type Plan = Broken;

    fn plan(&mut self, _size: usize) -> Broken {
        Broken
    }
}

/// A transform whose way back fails.
struct HalfBroken(Fft);

impl Transform<F> for HalfBroken {
    fn obeys_transform_spec(&self) -> bool {
        true
    }

    fn forward_spec(&self, frame: Vec<F>, bins: usize) -> Option<Vec<Complex<F>>> {
        self.0.forward_spec(frame, bins)
    }

    fn inverse_spec(&self, _spectrum: Vec<Complex<F>>, _len: usize) -> Option<Vec<F>> {
        None
    }

    fn forward(&self, input: &mut [F], spectrum: &mut [Complex<F>]) -> bool {
        self.0.forward(input, spectrum)
    }

    fn inverse(&self, _spectrum: &mut [Complex<F>], output: &mut [F]) -> bool {
        // leaves rubbish behind, as a transform that gave up half way might
        for v in output.iter_mut() {
            *v = F(7.0);
        }
        false
    }
}

struct HalfBrokenPlanner(FftPlanner);

impl Planner<F> for HalfBrokenPlanner {
    type Plan = HalfBroken;

    fn plan(&mut self, size: usize) -> HalfBroken {
        HalfBroken(self.0.plan(size))
    }
}

#[test]
fn convolution_with_a_unit_impulse_is_the_identity() {
    let node = ConvolutionReverb { ir: vec![F(1.0)], mix: F(1.0) };
    let mut planner = FftPlanner(realfft::RealFftPlanner::new());
    let mut state = node.init_state(F(48000.0), 64, &mut planner).unwrap();
    // a frame holds a block and the response: 65 samples at least
    assert!(state.fft_size.is_power_of_two() && state.fft_size >= 65);
    assert_eq!(state.fft_size, 128);
    assert_eq!(state.input_pos, 0);
    assert_eq!(state.input_buffer.len(), 128);
    assert_eq!(state.ir_fft.len(), 65);
    assert_eq!(state.overlap.len(), 64);
    let mut out = vec![vec![F(0.0); 64]];
    for block in 0..5 {
        let input: Vec<F> = (0..64).map(|i| F(((block * 64 + i) as f32 * 0.37).sin())).collect();
        node.process_block(&mut state, &[&input], &mut out, F(48000.0)).unwrap();
        for i in 0..64 {
            assert!((out[0][i].0 - input[i].0).abs() < 1e-5, "block {} sample {}", block, i);
        }
    }
}

#[test]
fn convolution_carries_the_tail_into_the_next_block() {
    let ir = fs(&[0.5, 0.25, 0.125, 0.0625]);
    let node = ConvolutionReverb { ir, mix: F(1.0) };
    let mut planner = FftPlanner(realfft::RealFftPlanner::new());
    let mut state = node.init_state(F(48000.0), 64, &mut planner).unwrap();
    // 4 + 64 samples need a frame of 128
    assert_eq!(state.fft_size, 128);
    assert_eq!(state.overlap.len(), 64);
    let mut impulse = vec![F(0.0); 64];
    impulse[62] = F(1.0);
    let silence = vec![F(0.0); 64];
    let mut out = vec![vec![F(9.0); 64]];
    node.process_block(&mut state, &[&impulse], &mut out, F(48000.0)).unwrap();
    assert_eq!(state.input_pos, 0);
    for i in 0..62 {
        approx(out[0][i].0, 0.0);
    }
    approx(out[0][62].0, 0.5);
    approx(out[0][63].0, 0.25);
    node.process_block(&mut state, &[&silence], &mut out, F(48000.0)).unwrap();
    approx(out[0][0].0, 0.125);
    approx(out[0][1].0, 0.0625);
    for i in 2..64 {
        approx(out[0][i].0, 0.0);
    }
    // the block has left the input buffer
    assert!(state.input_buffer.iter().all(|v| v.0 == 0.0));
    node.process_block(&mut state, &[&silence], &mut out, F(48000.0)).unwrap();
    for i in 0..64 {
        approx(out[0][i].0, 0.0);
    }
}

#[test]
fn convolution_with_a_long_response_is_the_sum_over_the_response() {
    // a response of 40 samples over blocks of 16: every frame reaches into the next three blocks
    let ir: Vec<F> = (0..40).map(|k| F(0.9f32.powi(k) * if k % 3 == 0 { -1.0 } else { 1.0 })).collect();
    let node = ConvolutionReverb { ir: ir.clone(), mix: F(1.0) };
    let mut planner = FftPlanner(realfft::RealFftPlanner::new());
    let mut state = node.init_state(F(48000.0), 16, &mut planner).unwrap();
    assert_eq!(state.fft_size, 64);
    assert_eq!(state.overlap.len(), 48);
    let signal: Vec<F> = (0..160).map(|i| F(((i * i) as f32 * 0.013).sin())).collect();
    let mut out = vec![vec![F(0.0); 16]];
    for block in 0..10 {
        node.process_block(&mut state, &[&signal[block * 16..block * 16 + 16]], &mut out, F(48000.0)).unwrap();
        for i in 0..16 {
            let at = block * 16 + i;
            let mut sum = 0.0f32;
            for k in 0..40 {
                if at >= k {
                    sum += ir[k].0 * signal[at - k].0;
                }
            }
            assert!((out[0][i].0 - sum).abs() < 1e-4, "sample {}: {} and {}", at, out[0][i].0, sum);
        }
    }
}

#[test]
fn convolution_mixes_dry_and_wet() {
    let node = ConvolutionReverb { ir: fs(&[0.5]), mix: F(0.25) };
    let mut planner = FftPlanner(realfft::RealFftPlanner::new());
    let mut state = node.init_state(F(48000.0), 8, &mut planner).unwrap();
    assert_eq!(state.fft_size, 16);
    let input = fs(&[1.0, -1.0, 0.5, 0.0, 0.25, 1.0, 1.0, -0.5]);
    let mut out = vec![vec![F(0.0); 8]];
    node.process_block(&mut state, &[&input], &mut out, F(48000.0)).unwrap();
    for i in 0..8 {
        // three quarters dry, one quarter of the halved input
        approx(out[0][i].0, input[i].0 * 0.75 + input[i].0 * 0.5 * 0.25);
    }
    // the mix of input 1 is added sample by sample
    let more = vec![F(0.75); 8];
    node.process_block(&mut state, &[&input, &more], &mut out, F(48000.0)).unwrap();
    for i in 0..8 {
        approx(out[0][i].0, input[i].0 * 0.5);
    }
}

#[test]
fn convolution_is_silent_where_the_way_back_fails() {
    let node = ConvolutionReverb { ir: vec![F(1.0)], mix: F(0.5) };
    let mut planner = HalfBrokenPlanner(FftPlanner(realfft::RealFftPlanner::new()));
    let mut state = node.init_state(F(48000.0), 64, &mut planner).unwrap();
    // the forward transform was done: the spectrum of a unit impulse is one in every bin
    assert!(state.ir_fft.iter().all(|c| (c.re.0 - 1.0).abs() < 1e-6 && c.im.0.abs() < 1e-6));
    let input = vec![F(1.0); 64];
    let mut out = vec![vec![F(9.0); 64]];
    node.process_block(&mut state, &[&input], &mut out, F(48000.0)).unwrap();
    // silence, whatever the mix is and whatever the transform left behind
    assert!(out[0].iter().all(|v| v.0 == 0.0));
    assert!(state.overlap.iter().all(|v| v.0 == 0.0));
    assert_eq!(state.input_pos, 0);
}

#[test]
fn convolution_fails_closed() {
    let node = ConvolutionReverb { ir: vec![F(1.0)], mix: F(0.5) };
    let mut planner = BrokenPlanner;
    let mut state = node.init_state(F(48000.0), 64, &mut planner).unwrap();
    // the spectrum that stands in for the impulse response
    assert_eq!(state.ir_fft[0].re.0, 1.0);
    assert!(state.ir_fft[1..].iter().all(|c| c.re.0 == 0.0 && c.im.0 == 0.0));
    let input = vec![F(1.0); 64];
    let mut out = vec![vec![F(9.0); 64]];
    node.process_block(&mut state, &[&input], &mut out, F(48000.0)).unwrap();
    assert!(out[0].iter().all(|v| v.0 == 0.0));
    assert!(state.overlap.iter().all(|v| v.0 == 0.0));
    assert_eq!(state.input_pos, 0);
    // and the state can take the next block
    out[0][5] = F(9.0);
    node.process_block(&mut state, &[&input], &mut out, F(48000.0)).unwrap();
    assert!(out[0].iter().all(|v| v.0 == 0.0));
}

#[test]
fn convolution_refuses_a_block_size_of_zero() {
    let node = ConvolutionReverb { ir: vec![F(1.0)], mix: F(0.5) };
    let mut planner = BrokenPlanner;
    assert_eq!(node.init_state(F(48000.0), 0, &mut planner).err(), Some(ShapeError::InvalidBlockSize));
}

#[test]
fn convolution_refuses_another_block_size() {
    let node = ConvolutionReverb { ir: vec![F(1.0)], mix: F(0.5) };
    let mut planner = FftPlanner(realfft::RealFftPlanner::new());
    let mut state = node.init_state(F(48000.0), 64, &mut planner).unwrap();
    let input = vec![F(1.0); 32];
    let mut out = vec![vec![F(9.0); 32]];
    assert_eq!(node.process_block(&mut state, &[&input], &mut out, F(48000.0)), Err(ShapeError::LengthMismatch));
    assert!(out[0].iter().all(|v| v.0 == 9.0));
}

#[test]
fn convolution_reset_gives_the_first_state_again() {
    let ir = fs(&[0.5, 0.25, 0.125, 0.0625]);
    let node = ConvolutionReverb { ir, mix: F(1.0) };
    let mut planner = FftPlanner(realfft::RealFftPlanner::new());
    let mut state = node.init_state(F(48000.0), 64, &mut planner).unwrap();
    let input = vec![F(1.0); 64];
    let mut first = vec![vec![F(0.0); 64]];
    let mut second = vec![vec![F(0.0); 64]];
    node.process_block(&mut state, &[&input], &mut first, F(48000.0)).unwrap();
    node.process_block(&mut state, &[&input], &mut second, F(48000.0)).unwrap();
    node.reset(&mut state);
    assert_eq!(state.input_pos, 0);
    let mut again = vec![vec![F(0.0); 64]];
    node.process_block(&mut state, &[&input], &mut again, F(48000.0)).unwrap();
    assert_eq!(raw(&again[0]), raw(&first[0]));
    node.process_block(&mut state, &[&input], &mut again, F(48000.0)).unwrap();
    assert_eq!(raw(&again[0]), raw(&second[0]));
}
