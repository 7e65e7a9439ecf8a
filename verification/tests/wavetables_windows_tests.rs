use auxide_dsp::sample::Sample;
use auxide_dsp::wavetables::{generate_saw_table, generate_sine_table, generate_square_table, generate_triangle_table};
use auxide_dsp::windows::{blackman_window, hamming_window, hann_window};

#[derive(Debug, Clone, Copy, PartialEq, PartialOrd)]
struct F(f32);

impl Sample for F {
    fn obeys_sample_spec() -> bool { true }
    fn zero() -> Self { F(0.0) }
    fn one() -> Self { F(1.0) }
    fn pi() -> Self { F(std::f32::consts::PI) }
    fn ratio(num: i64, den: i64) -> Self { F(num as f32 / den as f32) }
    fn from_usize(n: usize) -> Self { F(n as f32) }
    fn from_u32(n: u32) -> Self { F(n as f32) }
    fn to_usize(self) -> usize { self.0 as usize }
    fn powi(self, n: i32) -> Self { F(self.0.powi(n)) }
    fn clamp(self, lo: Self, hi: Self) -> Self {
        if lo.0 <= hi.0 { F(self.0.clamp(lo.0, hi.0)) } else { F(self.0.max(lo.0).min(hi.0)) }
    }
    fn neg(self) -> Self { F(-self.0) }
    fn abs(self) -> Self { F(self.0.abs()) }
    fn signum(self) -> Self { F(self.0.signum()) }
    fn sqrt(self) -> Self { F(self.0.sqrt()) }
    fn floor(self) -> Self { F(self.0.floor()) }
    fn round(self) -> Self { F(self.0.round()) }
    fn fract(self) -> Self { F(self.0.fract()) }
    fn sin(self) -> Self { F(self.0.sin()) }
    fn cos(self) -> Self { F(self.0.cos()) }
    fn tan(self) -> Self { F(self.0.tan()) }
    fn tanh(self) -> Self { F(self.0.tanh()) }
    fn exp(self) -> Self { F(self.0.exp()) }
    fn ln(self) -> Self { F(self.0.ln()) }
    fn log10(self) -> Self { F(self.0.log10()) }
    fn add(self, rhs: Self) -> Self { F(self.0 + rhs.0) }
    fn sub(self, rhs: Self) -> Self { F(self.0 - rhs.0) }
    fn mul(self, rhs: Self) -> Self { F(self.0 * rhs.0) }
    fn div(self, rhs: Self) -> Self { F(self.0 / rhs.0) }
    fn rem(self, rhs: Self) -> Self { F(self.0 % rhs.0) }
    fn min(self, rhs: Self) -> Self { F(self.0.min(rhs.0)) }
    fn max(self, rhs: Self) -> Self { F(self.0.max(rhs.0)) }
    fn powf(self, rhs: Self) -> Self { F(self.0.powf(rhs.0)) }
    fn lt(self, rhs: Self) -> bool { self.0 < rhs.0 }
    fn le(self, rhs: Self) -> bool { self.0 <= rhs.0 }
    fn gt(self, rhs: Self) -> bool { self.0 > rhs.0 }
    fn ge(self, rhs: Self) -> bool { self.0 >= rhs.0 }
    fn zero_spec() -> Self { Self::zero() }
    fn one_spec() -> Self { Self::one() }
    fn pi_spec() -> Self { Self::pi() }
    fn ratio_spec(num: i64, den: i64) -> Self { Self::ratio(num, den) }
    fn from_usize_spec(n: usize) -> Self { Self::from_usize(n) }
    fn from_u32_spec(n: u32) -> Self { Self::from_u32(n) }
    fn to_usize_spec(self) -> usize { self.to_usize() }
    fn powi_spec(self, n: i32) -> Self { self.powi(n) }
    fn clamp_spec(self, lo: Self, hi: Self) -> Self { self.clamp(lo, hi) }
    fn neg_spec(self) -> Self { self.neg() }
    fn abs_spec(self) -> Self { self.abs() }
    fn signum_spec(self) -> Self { self.signum() }
    fn sqrt_spec(self) -> Self { self.sqrt() }
    fn floor_spec(self) -> Self { self.floor() }
    fn round_spec(self) -> Self { self.round() }
    fn fract_spec(self) -> Self { self.fract() }
    fn sin_spec(self) -> Self { self.sin() }
    fn cos_spec(self) -> Self { self.cos() }
    fn tan_spec(self) -> Self { self.tan() }
    fn tanh_spec(self) -> Self { self.tanh() }
    fn exp_spec(self) -> Self { self.exp() }
    fn ln_spec(self) -> Self { self.ln() }
    fn log10_spec(self) -> Self { self.log10() }
    fn add_spec(self, rhs: Self) -> Self { self.add(rhs) }
    fn sub_spec(self, rhs: Self) -> Self { self.sub(rhs) }
    fn mul_spec(self, rhs: Self) -> Self { self.mul(rhs) }
    fn div_spec(self, rhs: Self) -> Self { self.div(rhs) }
    fn rem_spec(self, rhs: Self) -> Self { self.rem(rhs) }
    fn min_spec(self, rhs: Self) -> Self { self.min(rhs) }
    fn max_spec(self, rhs: Self) -> Self { self.max(rhs) }
    fn powf_spec(self, rhs: Self) -> Self { self.powf(rhs) }
    fn lt_spec(self, rhs: Self) -> bool { self.lt(rhs) }
    fn le_spec(self, rhs: Self) -> bool { self.le(rhs) }
    fn gt_spec(self, rhs: Self) -> bool { self.gt(rhs) }
    fn ge_spec(self, rhs: Self) -> bool { self.ge(rhs) }
}

fn fs(values: &[f32]) -> Vec<F> {
    values.iter().map(|v| F(*v)).collect()
}

fn raw(values: &[F]) -> Vec<f32> {
    values.iter().map(|v| v.0).collect()
}

fn non_silent(buf: &[F]) -> bool {
    buf.iter().any(|v| v.0.abs() > 1e-6)
}

fn approx(a: f32, b: f32) {
    assert!((a - b).abs() < 1e-4, "{} != {}", a, b);
}

#[test]
fn wavetable_golden() {
    let table: Vec<F> = generate_sine_table(8);
    let expected = [0.0, 0.7071, 1.0, 0.7071, 0.0, -0.7071, -1.0, -0.7071];
    for (t, e) in table.iter().zip(expected.iter()) {
        approx(t.0, *e);
    }

    let saw: Vec<F> = generate_saw_table(4);
    approx(saw[0].0, -1.0);
    approx(saw[2].0, 0.0);

    let tri: Vec<F> = generate_triangle_table(4);
    approx(tri[0].0, -1.0);
    approx(tri[1].0, 0.0);
    approx(tri[2].0, 1.0);
    approx(tri[3].0, 0.0);
}

#[test]
fn windows_sum_correctly() {
    let n = 8;
    let hann: Vec<F> = hann_window(n);
    let sum: f32 = hann.iter().map(|v| v.0).sum();
    approx(sum, (n as f32) / 2.0);

    let hamming: Vec<F> = hamming_window(n);
    let blackman: Vec<F> = blackman_window(n);
    assert!(hamming.iter().all(|v| v.0 >= 0.0));
    // Blackman can dip slightly negative; just ensure energy is positive.
    let energy: f32 = blackman.iter().map(|v| v.0 * v.0).sum();
    assert!(energy > 0.0);
}

#[test]
fn square_table_is_one_then_minus_one() {
    let table: Vec<F> = generate_square_table(6);
    assert_eq!(raw(&table), vec![1.0, 1.0, 1.0, -1.0, -1.0, -1.0]);
    let odd: Vec<F> = generate_square_table(5);
    assert_eq!(raw(&odd), vec![1.0, 1.0, -1.0, -1.0, -1.0]);
    assert!(non_silent(&fs(&[1.0])));
}

#[test]
fn tables_of_no_entries_are_empty() {
    assert!(generate_sine_table::<F>(0).is_empty());
    assert!(hann_window::<F>(0).is_empty());
}

#[test]
fn window_values() {
    let hann: Vec<F> = hann_window(4);
    approx(hann[0].0, 0.0);
    approx(hann[1].0, 0.5);
    approx(hann[2].0, 1.0);
    let hamming: Vec<F> = hamming_window(4);
    approx(hamming[0].0, 0.08);
    approx(hamming[2].0, 1.0);
    let blackman: Vec<F> = blackman_window(4);
    approx(blackman[0].0, 0.0);
    approx(blackman[2].0, 1.0);
}
