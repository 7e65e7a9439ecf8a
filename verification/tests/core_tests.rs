use auxide_dsp::delay_line::DelayLine;
use auxide_dsp::helpers::{gain_floor, linear_interpolate, linear_to_db, ms_to_samples, polyblep};
use auxide_dsp::nodes::fx::{fill_vec, filled_vec, fractional_tap, mix_dry_wet, padded_len, unipolar_sine};
use auxide_dsp::sample::Sample;
use auxide_dsp::spectrum::{frame_size, pow2_at_least, Complex};

#[derive(Debug, Clone, Copy, PartialEq, PartialOrd)]
struct F(f32);

impl Sample for F {
    fn obeys_sample_spec() -> bool { true }
    fn zero() -> Self { F(0.0) }
    fn one() -> Self { F(1.0) }
    fn pi() -> Self { F(std::f32::consts::PI) }
    fn ratio(num: i64, den: i64) -> Self { F(num as f32 / den as f32) }
    fn from_usize(n: usize) -> Self { F(n as f32) }
    fn from_u32(n: u32) -> Self { F(n as f32) }
    fn to_usize(self) -> usize { self.0 as usize }
    fn powi(self, n: i32) -> Self { F(self.0.powi(n)) }
    fn clamp(self, lo: Self, hi: Self) -> Self {
        if lo.0 <= hi.0 { F(self.0.clamp(lo.0, hi.0)) } else { F(self.0.max(lo.0).min(hi.0)) }
    }
    fn neg(self) -> Self { F(-self.0) }
    fn abs(self) -> Self { F(self.0.abs()) }
    fn signum(self) -> Self { F(self.0.signum()) }
    fn sqrt(self) -> Self { F(self.0.sqrt()) }
    fn floor(self) -> Self { F(self.0.floor()) }
    fn round(self) -> Self { F(self.0.round()) }
    fn fract(self) -> Self { F(self.0.fract()) }
    fn sin(self) -> Self { F(self.0.sin()) }
    fn cos(self) -> Self { F(self.0.cos()) }
    fn tan(self) -> Self { F(self.0.tan()) }
    fn tanh(self) -> Self { F(self.0.tanh()) }
    fn exp(self) -> Self { F(self.0.exp()) }
    fn ln(self) -> Self { F(self.0.ln()) }
    fn log10(self) -> Self { F(self.0.log10()) }
    fn add(self, rhs: Self) -> Self { F(self.0 + rhs.0) }
    fn sub(self, rhs: Self) -> Self { F(self.0 - rhs.0) }
    fn mul(self, rhs: Self) -> Self { F(self.0 * rhs.0) }
    fn div(self, rhs: Self) -> Self { F(self.0 / rhs.0) }
    fn rem(self, rhs: Self) -> Self { F(self.0 % rhs.0) }
    fn min(self, rhs: Self) -> Self { F(self.0.min(rhs.0)) }
    fn max(self, rhs: Self) -> Self { F(self.0.max(rhs.0)) }
    fn powf(self, rhs: Self) -> Self { F(self.0.powf(rhs.0)) }
    fn lt(self, rhs: Self) -> bool { self.0 < rhs.0 }
    fn le(self, rhs: Self) -> bool { self.0 <= rhs.0 }
    fn gt(self, rhs: Self) -> bool { self.0 > rhs.0 }
    fn ge(self, rhs: Self) -> bool { self.0 >= rhs.0 }
    fn zero_spec() -> Self { Self::zero() }
    fn one_spec() -> Self { Self::one() }
    fn pi_spec() -> Self { Self::pi() }
    fn ratio_spec(num: i64, den: i64) -> Self { Self::ratio(num, den) }
    fn from_usize_spec(n: usize) -> Self { Self::from_usize(n) }
    fn from_u32_spec(n: u32) -> Self { Self::from_u32(n) }
    fn to_usize_spec(self) -> usize { self.to_usize() }
    fn powi_spec(self, n: i32) -> Self { self.powi(n) }
    fn clamp_spec(self, lo: Self, hi: Self) -> Self { self.clamp(lo, hi) }
    fn neg_spec(self) -> Self { self.neg() }
    fn abs_spec(self) -> Self { self.abs() }
    fn signum_spec(self) -> Self { self.signum() }
    fn sqrt_spec(self) -> Self { self.sqrt() }
    fn floor_spec(self) -> Self { self.floor() }
    fn round_spec(self) -> Self { self.round() }
    fn fract_spec(self) -> Self { self.fract() }
    fn sin_spec(self) -> Self { self.sin() }
    fn cos_spec(self) -> Self { self.cos() }
    fn tan_spec(self) -> Self { self.tan() }
    fn tanh_spec(self) -> Self { self.tanh() }
    fn exp_spec(self) -> Self { self.exp() }
    fn ln_spec(self) -> Self { self.ln() }
    fn log10_spec(self) -> Self { self.log10() }
    fn add_spec(self, rhs: Self) -> Self { self.add(rhs) }
    fn sub_spec(self, rhs: Self) -> Self { self.sub(rhs) }
    fn mul_spec(self, rhs: Self) -> Self { self.mul(rhs) }
    fn div_spec(self, rhs: Self) -> Self { self.div(rhs) }
    fn rem_spec(self, rhs: Self) -> Self { self.rem(rhs) }
    fn min_spec(self, rhs: Self) -> Self { self.min(rhs) }
    fn max_spec(self, rhs: Self) -> Self { self.max(rhs) }
    fn powf_spec(self, rhs: Self) -> Self { self.powf(rhs) }
    fn lt_spec(self, rhs: Self) -> bool { self.lt(rhs) }
    fn le_spec(self, rhs: Self) -> bool { self.le(rhs) }
    fn gt_spec(self, rhs: Self) -> bool { self.gt(rhs) }
    fn ge_spec(self, rhs: Self) -> bool { self.ge(rhs) }
}

fn fs(values: &[f32]) -> Vec<F> {
    values.iter().map(|v| F(*v)).collect()
}

fn raw(values: &[F]) -> Vec<f32> {
    values.iter().map(|v| v.0).collect()
}

fn non_silent(buf: &[F]) -> bool {
    buf.iter().any(|v| v.0.abs() > 1e-6)
}

fn approx(a: f32, b: f32) {
    assert!((a - b).abs() < 1e-4, "{} != {}", a, b);
}

#[test]
fn a_delay_line_goes_round() {
    let mut line = DelayLine::new(3, F(0.0));
    assert_eq!((line.len(), line.cursor(), line.read()), (3, 0, F(0.0)));
    line.push(F(1.0));
    line.push(F(2.0));
    assert_eq!(line.cursor(), 2);
    // the sample pushed `d` pushes ago is at the tap `d`
    assert_eq!(line.at(line.tap_index(1)), F(2.0));
    assert_eq!(line.at(line.tap_index(2)), F(1.0));
    assert_eq!(line.at(line.tap_index(3)), F(0.0));
    // the tap of no delay is the cursor, and so is the tap of the whole length
    assert_eq!(line.tap_index(0), 2);
    assert_eq!(line.tap_index(3), 2);
    // a delay beyond the length counts as the length
    assert_eq!(line.tap_index(100), line.tap_index(3));
    assert_eq!(line.tap_index(usize::MAX), 2);
    line.push(F(3.0));
    assert_eq!(line.cursor(), 0);
    assert_eq!(line.read(), F(1.0));
    line.push(F(4.0));
    assert_eq!([line.at(0), line.at(1), line.at(2)], [F(4.0), F(2.0), F(3.0)]);
    // positions go round
    assert_eq!(line.at(4), F(2.0));
    assert_eq!((line.before(0), line.before(1), line.before(2), line.before(3)), (2, 0, 1, 2));
    line.write(F(9.0));
    assert_eq!((line.read(), line.cursor()), (F(9.0), 1));
    line.advance();
    line.advance();
    assert_eq!(line.cursor(), 0);
    let copy = line.clone();
    line.clear(F(0.5));
    assert_eq!((line.len(), line.cursor()), (3, 0));
    assert_eq!([line.at(0), line.at(1), line.at(2)], [F(0.5); 3]);
    assert_eq!([copy.at(0), copy.at(1), copy.at(2)], [F(4.0), F(9.0), F(3.0)]);
}

#[test]
fn a_delay_line_is_never_empty() {
    let mut line = DelayLine::new(0, F(7.0));
    assert_eq!((line.len(), line.read()), (1, F(7.0)));
    line.push(F(1.0));
    assert_eq!((line.cursor(), line.read(), line.tap_index(5), line.before(0)), (0, F(1.0), 0, 0));
}

#[test]
fn reading_between_samples() {
    let mut line = DelayLine::new(4, F(0.0));
    for v in [1.0, 2.0, 3.0, 4.0] {
        line.push(F(v));
    }
    // one and a quarter samples back: between the last sample and the one before it
    assert_eq!(fractional_tap(&line, F(1.0)), F(4.0));
    assert_eq!(fractional_tap(&line, F(1.25)), F(3.75));
    assert_eq!(fractional_tap(&line, F(2.5)), F(2.5));
    assert_eq!(unipolar_sine(F(0.25)), F(1.0));
    assert_eq!(unipolar_sine(F(0.0)), F(0.5));
    assert_eq!((padded_len(0), padded_len(7), padded_len(usize::MAX)), (1, 8, usize::MAX));
}

#[test]
fn helper_edges() {
    assert_eq!(linear_interpolate(&[], F(1.5)), F(0.0));
    assert_eq!(linear_interpolate(&fs(&[1.0, 3.0]), F(0.5)), F(2.0));
    // the position goes round, and so does the sample behind it
    assert_eq!(linear_interpolate(&fs(&[1.0, 3.0]), F(1.5)), F(2.0));
    assert_eq!(linear_interpolate(&fs(&[1.0, 3.0]), F(1.0e30)), linear_interpolate(&fs(&[1.0, 3.0]), F(1.0e30)));
    // a position below zero counts as zero plus its fractional part
    assert_eq!(linear_interpolate(&fs(&[1.0, 3.0]), F(-0.5)), F(2.0));
    assert_eq!(ms_to_samples(F(-5.0), F(48000.0)), 0);
    assert_eq!(ms_to_samples(F(1.5), F(1000.0)), 1);
    assert_eq!(ms_to_samples(F(f32::INFINITY), F(1000.0)), usize::MAX);
    assert_eq!(ms_to_samples(F(f32::NAN), F(1000.0)), 0);
    assert!(gain_floor::<F>().0 > 0.0 && gain_floor::<F>().0 < 1.0e-19);
    assert!(linear_to_db(F(0.0)).0.is_finite());
    approx(linear_to_db(F(0.0)).0, -400.0);
    approx(linear_to_db(F(10.0)).0, 20.0);
    // the correction is t + t^2 - t^3 below one step and a cubic in t - 2 up to two
    approx(polyblep(F(0.05), F(0.1)).0, 0.5 + 0.25 - 0.125);
    approx(polyblep(F(0.15), F(0.1)).0, -0.5 + 0.25 - 0.125);
    assert_eq!(polyblep(F(0.1), F(0.1)), F(0.0));
    assert_eq!(polyblep(F(0.5), F(0.1)), F(0.0));
}

#[test]
fn frame_sizes_are_powers_of_two() {
    assert_eq!(pow2_at_least(0), Some(1));
    assert_eq!(pow2_at_least(1), Some(1));
    assert_eq!(pow2_at_least(2), Some(2));
    assert_eq!(pow2_at_least(3), Some(4));
    assert_eq!(pow2_at_least(64), Some(64));
    assert_eq!(pow2_at_least(65), Some(128));
    assert_eq!(pow2_at_least(usize::MAX / 2 + 1), Some(usize::MAX / 2 + 1));
    assert_eq!(pow2_at_least(usize::MAX / 2 + 2), None);
    assert_eq!(pow2_at_least(usize::MAX), None);
    // a frame holds a block and the response
    assert_eq!(frame_size(32, 64), Some(128));
    assert_eq!(frame_size(1, 64), Some(128));
    assert_eq!(frame_size(64, 64), Some(128));
    assert_eq!(frame_size(65, 64), Some(256));
    assert_eq!(frame_size(1, 1), Some(2));
    // without a response a frame is a block
    assert_eq!(frame_size(0, 5), Some(8));
    assert_eq!(frame_size(0, 64), Some(64));
    assert_eq!(frame_size(32, 0), None);
    assert_eq!(frame_size(0, 0), None);
    assert_eq!(frame_size(usize::MAX, 2), None);
    assert_eq!(frame_size(usize::MAX, usize::MAX), None);
}

#[test]
fn complex_numbers_multiply() {
    let a = Complex::new(F(1.0), F(2.0));
    let b = Complex::new(F(3.0), F(-1.0));
    let p = a.mul(b);
    assert_eq!((p.re, p.im), (F(5.0), F(5.0)));
    let one: Complex<F> = Complex::one();
    let zero: Complex<F> = Complex::zero();
    assert_eq!((a.mul(one).re, a.mul(one).im), (F(1.0), F(2.0)));
    assert_eq!((a.mul(zero).re, a.mul(zero).im), (F(0.0), F(0.0)));
}

#[test]
fn buffers() {
    let mut v = filled_vec(3, F(0.5));
    assert_eq!(raw(&v), vec![0.5; 3]);
    let capacity = v.capacity();
    fill_vec(&mut v, F(2.0));
    assert_eq!(raw(&v), vec![2.0; 3]);
    assert_eq!(v.capacity(), capacity);
    assert!(filled_vec(0, F(1.0)).is_empty());
    let dry = fs(&[1.0, 2.0]);
    let mut wet = fs(&[3.0, 6.0]);
    mix_dry_wet(&[&dry[..]], &mut wet, F(0.5), 1);
    assert_eq!(raw(&wet), vec![2.0, 4.0]);
    let mix_mod = fs(&[0.5, -0.5]);
    let mut wet = fs(&[3.0, 6.0]);
    mix_dry_wet(&[&dry[..], &mix_mod[..]], &mut wet, F(0.5), 1);
    assert_eq!(raw(&wet), vec![3.0, 2.0]);
    assert!(non_silent(&wet));
}
