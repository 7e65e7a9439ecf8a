//! The arithmetic of samples.

use vstd::prelude::*;

verus! {

/// The arithmetic that the processing nodes need from a sample type.
///
/// Rounding arithmetic has no theory that a proof could lean on, so the nodes
/// are written over this interface and never look inside a sample. Every
/// operation has a specification twin (`add` and `add_spec`, and so on). An
/// implementation for which `obeys_sample_spec()` holds promises that each
/// operation is a function of its operands, namely its twin; for such a type
/// the contracts of the nodes pin every output sample down. For any other
/// implementation the contracts still state the shape of the results: which
/// calls succeed, the lengths of the outputs, that a state keeps the size it
/// was made with, and what is left untouched. The length of a line that is
/// given in samples is stated for every implementation; one that is computed
/// from a time and a rate is a value of the arithmetic like any other.
///
/// No operation may panic or fail to return, whatever its operands.
///
/// In compiled code a twin is a function like any other, which nothing
/// calls; an implementation outside verified code gives each twin the body
/// of its operation.
pub trait Sample: Copy + Sized {
    /// Whether every operation of this type returns what its twin names.
    spec fn obeys_sample_spec() -> bool;

    spec fn zero_spec() -> Self;

    spec fn one_spec() -> Self;

    spec fn pi_spec() -> Self;

    spec fn ratio_spec(num: i64, den: i64) -> Self;

    spec fn from_usize_spec(n: usize) -> Self;

    spec fn from_u32_spec(n: u32) -> Self;

    spec fn to_usize_spec(self) -> usize;

    spec fn powi_spec(self, n: i32) -> Self;

    spec fn clamp_spec(self, lo: Self, hi: Self) -> Self;

    spec fn neg_spec(self) -> Self;

    spec fn abs_spec(self) -> Self;

    spec fn signum_spec(self) -> Self;

    spec fn sqrt_spec(self) -> Self;

    spec fn floor_spec(self) -> Self;

    spec fn round_spec(self) -> Self;

    spec fn fract_spec(self) -> Self;

    spec fn sin_spec(self) -> Self;

    spec fn cos_spec(self) -> Self;

    spec fn tan_spec(self) -> Self;

    spec fn tanh_spec(self) -> Self;

    spec fn exp_spec(self) -> Self;

    spec fn ln_spec(self) -> Self;

    spec fn log10_spec(self) -> Self;

    spec fn add_spec(self, rhs: Self) -> Self;

    spec fn sub_spec(self, rhs: Self) -> Self;

    spec fn mul_spec(self, rhs: Self) -> Self;

    spec fn div_spec(self, rhs: Self) -> Self;

    spec fn rem_spec(self, rhs: Self) -> Self;

    spec fn min_spec(self, rhs: Self) -> Self;

    spec fn max_spec(self, rhs: Self) -> Self;

    spec fn powf_spec(self, rhs: Self) -> Self;

    spec fn lt_spec(self, rhs: Self) -> bool;

    spec fn le_spec(self, rhs: Self) -> bool;

    spec fn gt_spec(self, rhs: Self) -> bool;

    spec fn ge_spec(self, rhs: Self) -> bool;

    /// The additive identity.
    #[verifier::when_used_as_spec(zero_spec)]
    fn zero() -> (r: Self)
        ensures
            Self::obeys_sample_spec() ==> r == Self::zero_spec(),
    ;

    /// The multiplicative identity.
    #[verifier::when_used_as_spec(one_spec)]
    fn one() -> (r: Self)
        ensures
            Self::obeys_sample_spec() ==> r == Self::one_spec(),
    ;

    /// The circle constant, half a turn in radians.
    #[verifier::when_used_as_spec(pi_spec)]
    fn pi() -> (r: Self)
        ensures
            Self::obeys_sample_spec() ==> r == Self::pi_spec(),
    ;

    /// The sample nearest to `num / den`; the nodes write their constants this way.
    #[verifier::when_used_as_spec(ratio_spec)]
    fn ratio(num: i64, den: i64) -> (r: Self)
        requires
            den != 0,
        ensures
            Self::obeys_sample_spec() ==> r == Self::ratio_spec(num, den),
    ;

    /// The sample nearest to a count.
    #[verifier::when_used_as_spec(from_usize_spec)]
    fn from_usize(n: usize) -> (r: Self)
        ensures
            Self::obeys_sample_spec() ==> r == Self::from_usize_spec(n),
    ;

    /// The sample nearest to a 32-bit count.
    #[verifier::when_used_as_spec(from_u32_spec)]
    fn from_u32(n: u32) -> (r: Self)
        ensures
            Self::obeys_sample_spec() ==> r == Self::from_u32_spec(n),
    ;

    /// The whole part as a count: values below zero and non-numbers give zero,
    /// values beyond the range give the largest count.
    #[verifier::when_used_as_spec(to_usize_spec)]
    fn to_usize(self) -> (r: usize)
        ensures
            Self::obeys_sample_spec() ==> r == self.to_usize_spec(),
    ;

    /// The operand raised to a whole power.
    #[verifier::when_used_as_spec(powi_spec)]
    fn powi(self, n: i32) -> (r: Self)
        ensures
            Self::obeys_sample_spec() ==> r == self.powi_spec(n),
    ;

    /// The operand held between two bounds. An implementation answers for
    /// unordered bounds too: like every operation here it must not panic.
    #[verifier::when_used_as_spec(clamp_spec)]
    fn clamp(self, lo: Self, hi: Self) -> (r: Self)
        ensures
            Self::obeys_sample_spec() ==> r == self.clamp_spec(lo, hi),
    ;

    /// Negation.
    #[verifier::when_used_as_spec(neg_spec)]
    fn neg(self) -> (r: Self)
        ensures
            Self::obeys_sample_spec() ==> r == self.neg_spec(),
    ;

    /// Absolute value.
    #[verifier::when_used_as_spec(abs_spec)]
    fn abs(self) -> (r: Self)
        ensures
            Self::obeys_sample_spec() ==> r == self.abs_spec(),
    ;

    /// Sign of the value as a unit magnitude.
    #[verifier::when_used_as_spec(signum_spec)]
    fn signum(self) -> (r: Self)
        ensures
            Self::obeys_sample_spec() ==> r == self.signum_spec(),
    ;

    /// Square root.
    #[verifier::when_used_as_spec(sqrt_spec)]
    fn sqrt(self) -> (r: Self)
        ensures
            Self::obeys_sample_spec() ==> r == self.sqrt_spec(),
    ;

    /// Largest whole value not above the operand.
    #[verifier::when_used_as_spec(floor_spec)]
    fn floor(self) -> (r: Self)
        ensures
            Self::obeys_sample_spec() ==> r == self.floor_spec(),
    ;

    /// Nearest whole value, halves away from zero.
    #[verifier::when_used_as_spec(round_spec)]
    fn round(self) -> (r: Self)
        ensures
            Self::obeys_sample_spec() ==> r == self.round_spec(),
    ;

    /// Fractional part, with the operand's sign.
    #[verifier::when_used_as_spec(fract_spec)]
    fn fract(self) -> (r: Self)
        ensures
            Self::obeys_sample_spec() ==> r == self.fract_spec(),
    ;

    /// Sine of an angle in radians.
    #[verifier::when_used_as_spec(sin_spec)]
    fn sin(self) -> (r: Self)
        ensures
            Self::obeys_sample_spec() ==> r == self.sin_spec(),
    ;

    /// Cosine of an angle in radians.
    #[verifier::when_used_as_spec(cos_spec)]
    fn cos(self) -> (r: Self)
        ensures
            Self::obeys_sample_spec() ==> r == self.cos_spec(),
    ;

    /// Tangent of an angle in radians.
    #[verifier::when_used_as_spec(tan_spec)]
    fn tan(self) -> (r: Self)
        ensures
            Self::obeys_sample_spec() ==> r == self.tan_spec(),
    ;

    /// Hyperbolic tangent.
    #[verifier::when_used_as_spec(tanh_spec)]
    fn tanh(self) -> (r: Self)
        ensures
            Self::obeys_sample_spec() ==> r == self.tanh_spec(),
    ;

    /// Natural exponential.
    #[verifier::when_used_as_spec(exp_spec)]
    fn exp(self) -> (r: Self)
        ensures
            Self::obeys_sample_spec() ==> r == self.exp_spec(),
    ;

    /// Natural logarithm.
    #[verifier::when_used_as_spec(ln_spec)]
    fn ln(self) -> (r: Self)
        ensures
            Self::obeys_sample_spec() ==> r == self.ln_spec(),
    ;

    /// Base-ten logarithm.
    #[verifier::when_used_as_spec(log10_spec)]
    fn log10(self) -> (r: Self)
        ensures
            Self::obeys_sample_spec() ==> r == self.log10_spec(),
    ;

    /// Sum.
    #[verifier::when_used_as_spec(add_spec)]
    fn add(self, rhs: Self) -> (r: Self)
        ensures
            Self::obeys_sample_spec() ==> r == self.add_spec(rhs),
    ;

    /// Difference.
    #[verifier::when_used_as_spec(sub_spec)]
    fn sub(self, rhs: Self) -> (r: Self)
        ensures
            Self::obeys_sample_spec() ==> r == self.sub_spec(rhs),
    ;

    /// Product.
    #[verifier::when_used_as_spec(mul_spec)]
    fn mul(self, rhs: Self) -> (r: Self)
        ensures
            Self::obeys_sample_spec() ==> r == self.mul_spec(rhs),
    ;

    /// Quotient.
    #[verifier::when_used_as_spec(div_spec)]
    fn div(self, rhs: Self) -> (r: Self)
        ensures
            Self::obeys_sample_spec() ==> r == self.div_spec(rhs),
    ;

    /// Remainder of the truncating division, with the dividend's sign.
    #[verifier::when_used_as_spec(rem_spec)]
    fn rem(self, rhs: Self) -> (r: Self)
        ensures
            Self::obeys_sample_spec() ==> r == self.rem_spec(rhs),
    ;

    /// The smaller operand.
    #[verifier::when_used_as_spec(min_spec)]
    fn min(self, rhs: Self) -> (r: Self)
        ensures
            Self::obeys_sample_spec() ==> r == self.min_spec(rhs),
    ;

    /// The larger operand.
    #[verifier::when_used_as_spec(max_spec)]
    fn max(self, rhs: Self) -> (r: Self)
        ensures
            Self::obeys_sample_spec() ==> r == self.max_spec(rhs),
    ;

    /// The operand raised to a fractional power.
    #[verifier::when_used_as_spec(powf_spec)]
    fn powf(self, rhs: Self) -> (r: Self)
        ensures
            Self::obeys_sample_spec() ==> r == self.powf_spec(rhs),
    ;

    /// Strictly below.
    #[verifier::when_used_as_spec(lt_spec)]
    fn lt(self, rhs: Self) -> (r: bool)
        ensures
            Self::obeys_sample_spec() ==> r == self.lt_spec(rhs),
    ;

    /// Below or equal.
    #[verifier::when_used_as_spec(le_spec)]
    fn le(self, rhs: Self) -> (r: bool)
        ensures
            Self::obeys_sample_spec() ==> r == self.le_spec(rhs),
    ;

    /// Strictly above.
    #[verifier::when_used_as_spec(gt_spec)]
    fn gt(self, rhs: Self) -> (r: bool)
        ensures
            Self::obeys_sample_spec() ==> r == self.gt_spec(rhs),
    ;

    /// Above or equal.
    #[verifier::when_used_as_spec(ge_spec)]
    fn ge(self, rhs: Self) -> (r: bool)
        ensures
            Self::obeys_sample_spec() ==> r == self.ge_spec(rhs),
    ;
}

} // verus!
