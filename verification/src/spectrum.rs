//! Complex numbers, frame sizes, and the transforms that the host supplies to
//! the block convolution.

use crate::sample::Sample;
use vstd::prelude::*;

verus! {

/// A complex number in Cartesian form.
#[derive(Debug, Clone, Copy)]
pub struct Complex<S> {
    pub re: S,
    pub im: S,
}

impl<S: Sample> Complex<S> {
    pub fn new(re: S, im: S) -> (r: Self)
        ensures
            r == (Complex { re, im }),
    {
        Complex { re, im }
    }

    /// The complex zero.
    pub open spec fn zero_spec() -> Complex<S> {
        Complex { re: S::zero(), im: S::zero() }
    }

    /// Computes `zero_spec`.
    #[verifier::when_used_as_spec(zero_spec)]
    pub fn zero() -> (r: Complex<S>)
        ensures
            S::obeys_sample_spec() ==> r == Self::zero_spec(),
    {
        Complex { re: S::zero(), im: S::zero() }
    }

    /// The complex one.
    pub open spec fn one_spec() -> Complex<S> {
        Complex { re: S::one(), im: S::zero() }
    }

    /// Computes `one_spec`.
    #[verifier::when_used_as_spec(one_spec)]
    pub fn one() -> (r: Complex<S>)
        ensures
            S::obeys_sample_spec() ==> r == Self::one_spec(),
    {
        Complex { re: S::one(), im: S::zero() }
    }

    /// The product of two complex numbers: `(a c - b d) + (a d + b c) i`.
    pub open spec fn mul_spec(self, rhs: Complex<S>) -> Complex<S> {
        Complex {
            re: self.re.mul(rhs.re).sub(self.im.mul(rhs.im)),
            im: self.re.mul(rhs.im).add(self.im.mul(rhs.re)),
        }
    }

    /// Computes `mul_spec`.
    #[verifier::when_used_as_spec(mul_spec)]
    pub fn mul(self, rhs: Complex<S>) -> (r: Complex<S>)
        ensures
            S::obeys_sample_spec() ==> r == self.mul_spec(rhs),
    {
        Complex {
            re: self.re.mul(rhs.re).sub(self.im.mul(rhs.im)),
            im: self.re.mul(rhs.im).add(self.im.mul(rhs.re)),
        }
    }
}

/// A pair of transforms between `n` real samples and the `n / 2 + 1` complex
/// bins of their spectrum, for one fixed `n`. The library does not compute
/// transforms: the host hands one in.
///
/// Each transform has a specification twin, as the operations of `Sample`
/// have. An implementation for which `obeys_transform_spec` holds promises
/// that each transform is a function of the samples it is given and of the
/// length it is to write: it is done where its twin names a result, and then
/// it has written that result. Of any other implementation the clauses say
/// only that a slice keeps its length.
///
/// No transform may panic or fail to return, whatever it is given. In
/// compiled code a twin is a function like any other, which nothing calls.
pub trait Transform<S> {
    /// Whether both transforms do what their twins name.
    spec fn obeys_transform_spec(&self) -> bool;

    /// The spectrum of `bins` bins that `forward` writes for a frame, or
    /// `None` where it is not done.
    spec fn forward_spec(&self, frame: Vec<S>, bins: usize) -> Option<Vec<Complex<S>>>;

    /// The frame of `len` samples that `inverse` writes for a spectrum, or
    /// `None` where it is not done.
    spec fn inverse_spec(&self, spectrum: Vec<Complex<S>>, len: usize) -> Option<Vec<S>>;

    /// From samples to spectrum. Returns whether the transform was done;
    /// `input` may be used as working space.
    fn forward(&self, input: &mut [S], spectrum: &mut [Complex<S>]) -> (done: bool)
        ensures
            final(input)@.len() == old(input)@.len(),
            final(spectrum)@.len() == old(spectrum)@.len(),
            self.obeys_transform_spec() ==> forall|frame: Vec<S>|
                frame@ == old(input)@ ==> {
                    let twin = #[trigger] self.forward_spec(frame, old(spectrum)@.len() as usize);
                    &&& done == twin.is_some()
                    &&& done ==> final(spectrum)@ == twin.unwrap()@
                },
    ;

    /// From spectrum to samples, without scaling: a round trip multiplies by
    /// `n`. Returns whether the transform was done; `spectrum` may be used as
    /// working space.
    fn inverse(&self, spectrum: &mut [Complex<S>], output: &mut [S]) -> (done: bool)
        ensures
            final(spectrum)@.len() == old(spectrum)@.len(),
            final(output)@.len() == old(output)@.len(),
            self.obeys_transform_spec() ==> forall|bins: Vec<Complex<S>>|
                bins@ == old(spectrum)@ ==> {
                    let twin = #[trigger] self.inverse_spec(bins, old(output)@.len() as usize);
                    &&& done == twin.is_some()
                    &&& done ==> final(output)@ == twin.unwrap()@
                },
    ;
}

/// A source of transforms.
pub trait Planner<S> {
    type Plan: Transform<S>;

    /// A pair of transforms for `size` samples.
    fn plan(&mut self, size: usize) -> Self::Plan;
}

/// Whether a vector holds the elements of a sequence.
pub open spec fn holds<T>(v: Vec<T>, s: Seq<T>) -> bool {
    v@ == s
}

/// What the forward transform of `t` makes of a frame, for a spectrum of
/// `bins` bins: the result that its twin names, as a sequence.
pub open spec fn forward_of<S, T: Transform<S>>(
    t: &T,
    frame: Seq<S>,
    bins: nat,
) -> Option<Seq<Complex<S>>> {
    let given = choose|v: Vec<S>| holds(v, frame);
    match t.forward_spec(given, bins as usize) {
        Some(w) => Some(w@),
        None => None,
    }
}

/// What the inverse transform of `t` makes of a spectrum, for a frame of
/// `len` samples: the result that its twin names, as a sequence.
pub open spec fn inverse_of<S, T: Transform<S>>(
    t: &T,
    spectrum: Seq<Complex<S>>,
    len: nat,
) -> Option<Seq<S>> {
    let given = choose|v: Vec<Complex<S>>| holds(v, spectrum);
    match t.inverse_spec(given, len as usize) {
        Some(w) => Some(w@),
        None => None,
    }
}

/// Runs the forward transform on two buffers and says what came of it.
pub fn run_forward<S, T: Transform<S>>(
    t: &T,
    input: &mut Vec<S>,
    spectrum: &mut Vec<Complex<S>>,
) -> (done: bool)
    ensures
        final(input)@.len() == old(input)@.len(),
        final(spectrum)@.len() == old(spectrum)@.len(),
        t.obeys_transform_spec() ==> done == forward_of(t, old(input)@, old(spectrum)@.len())
            .is_some(),
        t.obeys_transform_spec() && done ==> final(spectrum)@ == forward_of(
            t,
            old(input)@,
            old(spectrum)@.len(),
        ).unwrap(),
{
    let ghost given = *input;
    let done = t.forward(input.as_mut_slice(), spectrum.as_mut_slice());
    proof {
        if t.obeys_transform_spec() {
            assert(holds(given, old(input)@));
            let chosen = choose|v: Vec<S>| holds(v, old(input)@);
            assert(chosen@ == old(input)@);
        }
    }
    done
}

/// Runs the inverse transform on two buffers and says what came of it.
pub fn run_inverse<S, T: Transform<S>>(
    t: &T,
    spectrum: &mut Vec<Complex<S>>,
    output: &mut Vec<S>,
) -> (done: bool)
    ensures
        final(spectrum)@.len() == old(spectrum)@.len(),
        final(output)@.len() == old(output)@.len(),
        t.obeys_transform_spec() ==> done == inverse_of(t, old(spectrum)@, old(output)@.len())
            .is_some(),
        t.obeys_transform_spec() && done ==> final(output)@ == inverse_of(
            t,
            old(spectrum)@,
            old(output)@.len(),
        ).unwrap(),
{
    let ghost given = *spectrum;
    let done = t.inverse(spectrum.as_mut_slice(), output.as_mut_slice());
    proof {
        if t.obeys_transform_spec() {
            assert(holds(given, old(spectrum)@));
            let chosen = choose|v: Vec<Complex<S>>| holds(v, old(spectrum)@);
            assert(chosen@ == old(spectrum)@);
        }
    }
    done
}

/// Whether `n` is a power of two.
pub open spec fn is_pow2(n: nat) -> bool
    decreases n,
{
    n == 1 || (n >= 2 && n % 2 == 0 && is_pow2(n / 2))
}

/// Whether `n` is the smallest power of two that is at least `need`.
pub open spec fn is_frame_size(n: nat, need: nat) -> bool {
    is_pow2(n) && n >= need && (n == 1 || n / 2 < need)
}

/// The number of samples that one frame of a block convolution must hold at
/// least: the length of the impulse response and a block. A block convolved
/// with the response is one sample shorter, so it fits the frame without
/// wrapping around.
pub open spec fn frame_need(ir_len: nat, block_size: nat) -> nat {
    ir_len + block_size
}

/// Whether some count of the machine is the frame size for `need`.
pub open spec fn frame_fits(need: nat) -> bool {
    exists|n: usize| is_frame_size(n as nat, need)
}

/// Between a power of two and its double lies no power of two.
pub proof fn lemma_pow2_gap(a: nat, b: nat)
    requires
        is_pow2(a),
        is_pow2(b),
        a < b,
    ensures
        2 * a <= b,
    decreases b,
{
    if a != 1 {
        lemma_pow2_gap(a / 2, b / 2);
    }
}

/// The frame size for a need is unique.
pub proof fn lemma_frame_size_unique(n: nat, m: nat, need: nat)
    requires
        is_frame_size(n, need),
        is_frame_size(m, need),
    ensures
        n == m,
{
    if n < m {
        lemma_pow2_gap(n, m);
    }
    if m < n {
        lemma_pow2_gap(m, n);
    }
}

/// The smallest power of two that is at least `need`, or `None` where it does
/// not fit the machine's counts.
pub fn pow2_at_least(need: usize) -> (r: Option<usize>)
    ensures
        match r {
            Some(n) => is_frame_size(n as nat, need as nat),
            None => !frame_fits(need as nat),
        },
{
    let mut n: usize = 1;
    while n < need
        invariant
            is_pow2(n as nat),
            n == 1 || n / 2 < need,
        decreases usize::MAX - n,
    {
        if n > usize::MAX / 2 {
            proof {
                assert forall|m: usize| !is_frame_size(m as nat, need as nat) by {
                    if is_frame_size(m as nat, need as nat) {
                        lemma_pow2_gap(n as nat, m as nat);
                    }
                }
            }
            return None;
        }
        n = n * 2;
    }
    Some(n)
}

/// The frame size for an impulse response of `ir_len` samples and blocks of
/// `block_size` samples: the smallest power of two that is at least
/// `frame_need`. `None` for a block size of zero, and where the size does not
/// fit the machine's counts.
pub fn frame_size(ir_len: usize, block_size: usize) -> (r: Option<usize>)
    ensures
        match r {
            Some(n) => block_size >= 1 && is_frame_size(
                n as nat,
                frame_need(ir_len as nat, block_size as nat),
            ),
            None => block_size == 0 || !frame_fits(frame_need(ir_len as nat, block_size as nat)),
        },
{
    if block_size == 0 {
        return None;
    }
    if ir_len > usize::MAX - block_size {
        return None;
    }
    pow2_at_least(ir_len + block_size)
}

} // verus!
