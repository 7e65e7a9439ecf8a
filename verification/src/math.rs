//! Arithmetic on signals.

use crate::block::{
    check_block, cols, read_at, rows, same_from, same_lens, shape_verdict, ShapeError,
};
use crate::sample::Sample;
use vstd::prelude::*;

verus! {

/// Adds two or more signals.
#[derive(Debug, Clone, Copy)]
pub struct Add;

impl Add {
    pub fn new() -> (r: Self) {
        Add
    }

    /// The sum.
    pub open spec fn combine_spec<S: Sample>(acc: S, x: S) -> S {
        acc.add(x)
    }

    /// Computes `combine_spec`.
    #[verifier::when_used_as_spec(combine_spec)]
    pub fn combine<S: Sample>(acc: S, x: S) -> (r: S)
        ensures
            S::obeys_sample_spec() ==> r == Self::combine_spec::<S>(acc, x),
    {
        acc.add(x)
    }

    /// Sample `i` of the first `k` inputs folded with `combine`, in order.
    pub open spec fn folded<S: Sample>(inputs: Seq<Seq<S>>, i: int, k: nat) -> S
        decreases k,
    {
        if k <= 1 {
            inputs[0][i]
        } else {
            Self::combine(Self::folded(inputs, i, (k - 1) as nat), inputs[k - 1][i])
        }
    }

    /// Folds the inputs into output 0. Every input must have the length of the
    /// output; a call that fails writes nothing.
    pub fn process<S: Sample>(
        &mut self,
        inputs: &[&[S]],
        outputs: &mut [Vec<S>],
        _sample_rate: S,
    ) -> (r: Result<(), ShapeError>)
        ensures
            r == shape_verdict(
                rows(inputs),
                cols(old(outputs)@),
                2,
                inputs@.len(),
                inputs@.len(),
                1,
            ),
            same_lens(final(outputs)@, old(outputs)@),
            same_from(final(outputs)@, old(outputs)@, 1),
            r.is_err() ==> final(outputs)@ == old(outputs)@,
            r.is_ok() && S::obeys_sample_spec() ==> forall|i: int|
                0 <= i < final(outputs)@[0]@
                    .len() ==> #[trigger] final(outputs)@[0]@[i] == Self::folded(
                    rows(inputs),
                    i,
                    inputs@.len(),
                ),
    {
        let count: usize = inputs.len();
        let n: usize = match check_block(inputs, outputs, 2, count, count, 1) {
            Ok(n) => n,
            Err(e) => {
                return Err(e);
            },
        };
        let mut c: usize = 0;
        while c < n
            invariant
                c <= n,
                count >= 1,
                count == inputs@.len(),
                outputs@.len() >= 1,
                outputs@[0]@.len() == n,
                forall|q: int| 0 <= q < count ==> (#[trigger] inputs@[q])@.len() == n,
                same_lens(outputs@, old(outputs)@),
                same_from(outputs@, old(outputs)@, 1),
                forall|j: int| 0 <= j < c ==> outputs@[0]@[j] == rows(inputs)[0][j],
            decreases n - c,
        {
            let x = read_at(inputs, 0, c);
            outputs[0][c] = x;
            c += 1;
        }
        let mut p: usize = 1;
        while p < count
            invariant
                1 <= p <= count,
                count == inputs@.len(),
                outputs@.len() >= 1,
                outputs@[0]@.len() == n,
                forall|q: int| 0 <= q < count ==> (#[trigger] inputs@[q])@.len() == n,
                same_lens(outputs@, old(outputs)@),
                same_from(outputs@, old(outputs)@, 1),
                S::obeys_sample_spec() ==> forall|j: int|
                    0 <= j < n ==> outputs@[0]@[j] == Self::folded(rows(inputs), j, p as nat),
            decreases count - p,
        {
            let mut i: usize = 0;
            while i < n
                invariant
                    i <= n,
                    1 <= p < count,
                    count == inputs@.len(),
                    outputs@.len() >= 1,
                    outputs@[0]@.len() == n,
                    forall|q: int| 0 <= q < count ==> (#[trigger] inputs@[q])@.len() == n,
                    same_lens(outputs@, old(outputs)@),
                    same_from(outputs@, old(outputs)@, 1),
                    S::obeys_sample_spec() ==> forall|j: int|
                        i <= j < n ==> outputs@[0]@[j] == Self::folded(rows(inputs), j, p as nat),
                    S::obeys_sample_spec() ==> forall|j: int|
                        0 <= j < i ==>
                            outputs@[0]@[j] == Self::folded(rows(inputs), j, (p + 1) as nat),
                decreases n - i,
            {
                let y = Self::combine(outputs[0][i], read_at(inputs, p, i));
                outputs[0][i] = y;
                assert(Self::folded(rows(inputs), i as int, (p + 1) as nat) == Self::combine(
                    Self::folded(rows(inputs), i as int, p as nat),
                    rows(inputs)[p as int][i as int],
                ));
                i += 1;
            }
            p += 1;
        }
        Ok(())
    }

    /// A node without memory has nothing to reset.
    pub fn reset(&mut self)
        ensures
            *final(self) == *old(self),
    {
    }

    /// The number of inputs that a call requires.
    pub fn num_inputs(&self) -> (r: usize)
        ensures
            r == 2,
    {
        2
    }

    /// The number of outputs that a call writes.
    pub fn num_outputs(&self) -> (r: usize)
        ensures
            r == 1,
    {
        1
    }
}

/// Multiplies two or more signals.
#[derive(Debug, Clone, Copy)]
pub struct Multiply;

impl Multiply {
    pub fn new() -> (r: Self) {
        Multiply
    }

    /// The product.
    pub open spec fn combine_spec<S: Sample>(acc: S, x: S) -> S {
        acc.mul(x)
    }

    /// Computes `combine_spec`.
    #[verifier::when_used_as_spec(combine_spec)]
    pub fn combine<S: Sample>(acc: S, x: S) -> (r: S)
        ensures
            S::obeys_sample_spec() ==> r == Self::combine_spec::<S>(acc, x),
    {
        acc.mul(x)
    }

    /// Sample `i` of the first `k` inputs folded with `combine`, in order.
    pub open spec fn folded<S: Sample>(inputs: Seq<Seq<S>>, i: int, k: nat) -> S
        decreases k,
    {
        if k <= 1 {
            inputs[0][i]
        } else {
            Self::combine(Self::folded(inputs, i, (k - 1) as nat), inputs[k - 1][i])
        }
    }

    /// Folds the inputs into output 0. Every input must have the length of the
    /// output; a call that fails writes nothing.
    pub fn process<S: Sample>(
        &mut self,
        inputs: &[&[S]],
        outputs: &mut [Vec<S>],
        _sample_rate: S,
    ) -> (r: Result<(), ShapeError>)
        ensures
            r == shape_verdict(
                rows(inputs),
                cols(old(outputs)@),
                2,
                inputs@.len(),
                inputs@.len(),
                1,
            ),
            same_lens(final(outputs)@, old(outputs)@),
            same_from(final(outputs)@, old(outputs)@, 1),
            r.is_err() ==> final(outputs)@ == old(outputs)@,
            r.is_ok() && S::obeys_sample_spec() ==> forall|i: int|
                0 <= i < final(outputs)@[0]@
                    .len() ==> #[trigger] final(outputs)@[0]@[i] == Self::folded(
                    rows(inputs),
                    i,
                    inputs@.len(),
                ),
    {
        let count: usize = inputs.len();
        let n: usize = match check_block(inputs, outputs, 2, count, count, 1) {
            Ok(n) => n,
            Err(e) => {
                return Err(e);
            },
        };
        let mut c: usize = 0;
        while c < n
            invariant
                c <= n,
                count >= 1,
                count == inputs@.len(),
                outputs@.len() >= 1,
                outputs@[0]@.len() == n,
                forall|q: int| 0 <= q < count ==> (#[trigger] inputs@[q])@.len() == n,
                same_lens(outputs@, old(outputs)@),
                same_from(outputs@, old(outputs)@, 1),
                forall|j: int| 0 <= j < c ==> outputs@[0]@[j] == rows(inputs)[0][j],
            decreases n - c,
        {
            let x = read_at(inputs, 0, c);
            outputs[0][c] = x;
            c += 1;
        }
        let mut p: usize = 1;
        while p < count
            invariant
                1 <= p <= count,
                count == inputs@.len(),
                outputs@.len() >= 1,
                outputs@[0]@.len() == n,
                forall|q: int| 0 <= q < count ==> (#[trigger] inputs@[q])@.len() == n,
                same_lens(outputs@, old(outputs)@),
                same_from(outputs@, old(outputs)@, 1),
                S::obeys_sample_spec() ==> forall|j: int|
                    0 <= j < n ==> outputs@[0]@[j] == Self::folded(rows(inputs), j, p as nat),
            decreases count - p,
        {
            let mut i: usize = 0;
            while i < n
                invariant
                    i <= n,
                    1 <= p < count,
                    count == inputs@.len(),
                    outputs@.len() >= 1,
                    outputs@[0]@.len() == n,
                    forall|q: int| 0 <= q < count ==> (#[trigger] inputs@[q])@.len() == n,
                    same_lens(outputs@, old(outputs)@),
                    same_from(outputs@, old(outputs)@, 1),
                    S::obeys_sample_spec() ==> forall|j: int|
                        i <= j < n ==> outputs@[0]@[j] == Self::folded(rows(inputs), j, p as nat),
                    S::obeys_sample_spec() ==> forall|j: int|
                        0 <= j < i ==>
                            outputs@[0]@[j] == Self::folded(rows(inputs), j, (p + 1) as nat),
                decreases n - i,
            {
                let y = Self::combine(outputs[0][i], read_at(inputs, p, i));
                outputs[0][i] = y;
                assert(Self::folded(rows(inputs), i as int, (p + 1) as nat) == Self::combine(
                    Self::folded(rows(inputs), i as int, p as nat),
                    rows(inputs)[p as int][i as int],
                ));
                i += 1;
            }
            p += 1;
        }
        Ok(())
    }

    /// A node without memory has nothing to reset.
    pub fn reset(&mut self)
        ensures
            *final(self) == *old(self),
    {
    }

    /// The number of inputs that a call requires.
    pub fn num_inputs(&self) -> (r: usize)
        ensures
            r == 2,
    {
        2
    }

    /// The number of outputs that a call writes.
    pub fn num_outputs(&self) -> (r: usize)
        ensures
            r == 1,
    {
        1
    }
}

/// Scales a signal by a constant.
#[derive(Debug, Clone, Copy)]
pub struct Scale<S> {
    pub factor: S,
}

impl<S: Sample> Scale<S> {
    pub fn new(factor: S) -> (r: Self)
        ensures
            r == (Scale { factor }),
    {
        Scale { factor }
    }

    /// One sample: the input times the factor.
    pub open spec fn tick_spec(&self, x: S) -> S {
        x.mul(self.factor)
    }

    /// Computes `tick_spec`.
    #[verifier::when_used_as_spec(tick_spec)]
    pub fn tick(&self, x: S) -> (r: S)
        ensures
            S::obeys_sample_spec() ==> r == self.tick_spec(x),
    {
        x.mul(self.factor)
    }

    pub fn process(
        &mut self,
        inputs: &[&[S]],
        outputs: &mut [Vec<S>],
        _sample_rate: S,
    ) -> (r: Result<(), ShapeError>)
        ensures
            r == shape_verdict(rows(inputs), cols(old(outputs)@), 1, 1, 1, 1),
            same_lens(final(outputs)@, old(outputs)@),
            same_from(final(outputs)@, old(outputs)@, 1),
            *final(self) == *old(self),
            r.is_err() ==> final(outputs)@ == old(outputs)@,
            r.is_ok() && S::obeys_sample_spec() ==> forall|i: int|
                0 <= i < final(outputs)@[0]@
                    .len() ==> #[trigger] final(outputs)@[0]@[i] == old(self)
                    .tick(rows(inputs)[0][i]),
    {
        let n: usize = match check_block(inputs, outputs, 1, 1, 1, 1) {
            Ok(n) => n,
            Err(e) => {
                return Err(e);
            },
        };
        let mut i: usize = 0;
        while i < n
            invariant
                i <= n,
                inputs@.len() >= 1,
                outputs@.len() >= 1,
                outputs@[0]@.len() == n,
                forall|p: int| 0 <= p < 1 ==> (#[trigger] inputs@[p])@.len() == n,
                same_lens(outputs@, old(outputs)@),
                same_from(outputs@, old(outputs)@, 1),
                *self == *old(self),
                S::obeys_sample_spec() ==>
                    forall|j: int| 0 <= j < i ==> #[trigger] outputs@[0]@[j] == self
                    .tick(rows(inputs)[0][j]),
            decreases n - i,
        {
            let x = read_at(inputs, 0, i);
            let y = self.tick(x);
            outputs[0][i] = y;
            i += 1;
        }
        Ok(())
    }

    /// A node without memory has nothing to reset.
    pub fn reset(&mut self)
        ensures
            *final(self) == *old(self),
    {
    }

    /// The number of inputs that a call requires.
    pub fn num_inputs(&self) -> (r: usize)
        ensures
            r == 1,
    {
        1
    }

    /// The number of outputs that a call writes.
    pub fn num_outputs(&self) -> (r: usize)
        ensures
            r == 1,
    {
        1
    }
}

/// Adds a constant to a signal.
#[derive(Debug, Clone, Copy)]
pub struct Offset<S> {
    pub amount: S,
}

impl<S: Sample> Offset<S> {
    pub fn new(amount: S) -> (r: Self)
        ensures
            r == (Offset { amount }),
    {
        Offset { amount }
    }

    /// One sample: the input plus the amount.
    pub open spec fn tick_spec(&self, x: S) -> S {
        x.add(self.amount)
    }

    /// Computes `tick_spec`.
    #[verifier::when_used_as_spec(tick_spec)]
    pub fn tick(&self, x: S) -> (r: S)
        ensures
            S::obeys_sample_spec() ==> r == self.tick_spec(x),
    {
        x.add(self.amount)
    }

    pub fn process(
        &mut self,
        inputs: &[&[S]],
        outputs: &mut [Vec<S>],
        _sample_rate: S,
    ) -> (r: Result<(), ShapeError>)
        ensures
            r == shape_verdict(rows(inputs), cols(old(outputs)@), 1, 1, 1, 1),
            same_lens(final(outputs)@, old(outputs)@),
            same_from(final(outputs)@, old(outputs)@, 1),
            *final(self) == *old(self),
            r.is_err() ==> final(outputs)@ == old(outputs)@,
            r.is_ok() && S::obeys_sample_spec() ==> forall|i: int|
                0 <= i < final(outputs)@[0]@
                    .len() ==> #[trigger] final(outputs)@[0]@[i] == old(self)
                    .tick(rows(inputs)[0][i]),
    {
        let n: usize = match check_block(inputs, outputs, 1, 1, 1, 1) {
            Ok(n) => n,
            Err(e) => {
                return Err(e);
            },
        };
        let mut i: usize = 0;
        while i < n
            invariant
                i <= n,
                inputs@.len() >= 1,
                outputs@.len() >= 1,
                outputs@[0]@.len() == n,
                forall|p: int| 0 <= p < 1 ==> (#[trigger] inputs@[p])@.len() == n,
                same_lens(outputs@, old(outputs)@),
                same_from(outputs@, old(outputs)@, 1),
                *self == *old(self),
                S::obeys_sample_spec() ==>
                    forall|j: int| 0 <= j < i ==> #[trigger] outputs@[0]@[j] == self
                    .tick(rows(inputs)[0][j]),
            decreases n - i,
        {
            let x = read_at(inputs, 0, i);
            let y = self.tick(x);
            outputs[0][i] = y;
            i += 1;
        }
        Ok(())
    }

    /// A node without memory has nothing to reset.
    pub fn reset(&mut self)
        ensures
            *final(self) == *old(self),
    {
    }

    /// The number of inputs that a call requires.
    pub fn num_inputs(&self) -> (r: usize)
        ensures
            r == 1,
    {
        1
    }

    /// The number of outputs that a call writes.
    pub fn num_outputs(&self) -> (r: usize)
        ensures
            r == 1,
    {
        1
    }
}

/// The absolute value of a signal.
#[derive(Debug, Clone, Copy)]
pub struct Abs;

impl Abs {
    pub fn new() -> (r: Self) {
        Abs
    }

    /// One sample: the magnitude of the input.
    pub open spec fn tick_spec<S: Sample>(&self, x: S) -> S {
        x.abs()
    }

    /// Computes `tick_spec`.
    #[verifier::when_used_as_spec(tick_spec)]
    pub fn tick<S: Sample>(&self, x: S) -> (r: S)
        ensures
            S::obeys_sample_spec() ==> r == self.tick_spec(x),
    {
        x.abs()
    }

    pub fn process<S: Sample>(
        &mut self,
        inputs: &[&[S]],
        outputs: &mut [Vec<S>],
        _sample_rate: S,
    ) -> (r: Result<(), ShapeError>)
        ensures
            r == shape_verdict(rows(inputs), cols(old(outputs)@), 1, 1, 1, 1),
            same_lens(final(outputs)@, old(outputs)@),
            same_from(final(outputs)@, old(outputs)@, 1),
            *final(self) == *old(self),
            r.is_err() ==> final(outputs)@ == old(outputs)@,
            r.is_ok() && S::obeys_sample_spec() ==> forall|i: int|
                0 <= i < final(outputs)@[0]@
                    .len() ==> #[trigger] final(outputs)@[0]@[i] == old(self)
                    .tick(rows(inputs)[0][i]),
    {
        let n: usize = match check_block(inputs, outputs, 1, 1, 1, 1) {
            Ok(n) => n,
            Err(e) => {
                return Err(e);
            },
        };
        let mut i: usize = 0;
        while i < n
            invariant
                i <= n,
                inputs@.len() >= 1,
                outputs@.len() >= 1,
                outputs@[0]@.len() == n,
                forall|p: int| 0 <= p < 1 ==> (#[trigger] inputs@[p])@.len() == n,
                same_lens(outputs@, old(outputs)@),
                same_from(outputs@, old(outputs)@, 1),
                *self == *old(self),
                S::obeys_sample_spec() ==>
                    forall|j: int| 0 <= j < i ==> #[trigger] outputs@[0]@[j] == self
                    .tick(rows(inputs)[0][j]),
            decreases n - i,
        {
            let x = read_at(inputs, 0, i);
            let y = self.tick(x);
            outputs[0][i] = y;
            i += 1;
        }
        Ok(())
    }

    /// A node without memory has nothing to reset.
    pub fn reset(&mut self)
        ensures
            *final(self) == *old(self),
    {
    }

    /// The number of inputs that a call requires.
    pub fn num_inputs(&self) -> (r: usize)
        ensures
            r == 1,
    {
        1
    }

    /// The number of outputs that a call writes.
    pub fn num_outputs(&self) -> (r: usize)
        ensures
            r == 1,
    {
        1
    }
}

/// The exponential of a signal.
#[derive(Debug, Clone, Copy)]
pub struct Exp;

impl Exp {
    pub fn new() -> (r: Self) {
        Exp
    }

    /// One sample: the natural exponential of the input.
    pub open spec fn tick_spec<S: Sample>(&self, x: S) -> S {
        x.exp()
    }

    /// Computes `tick_spec`.
    #[verifier::when_used_as_spec(tick_spec)]
    pub fn tick<S: Sample>(&self, x: S) -> (r: S)
        ensures
            S::obeys_sample_spec() ==> r == self.tick_spec(x),
    {
        x.exp()
    }

    pub fn process<S: Sample>(
        &mut self,
        inputs: &[&[S]],
        outputs: &mut [Vec<S>],
        _sample_rate: S,
    ) -> (r: Result<(), ShapeError>)
        ensures
            r == shape_verdict(rows(inputs), cols(old(outputs)@), 1, 1, 1, 1),
            same_lens(final(outputs)@, old(outputs)@),
            same_from(final(outputs)@, old(outputs)@, 1),
            *final(self) == *old(self),
            r.is_err() ==> final(outputs)@ == old(outputs)@,
            r.is_ok() && S::obeys_sample_spec() ==> forall|i: int|
                0 <= i < final(outputs)@[0]@
                    .len() ==> #[trigger] final(outputs)@[0]@[i] == old(self)
                    .tick(rows(inputs)[0][i]),
    {
        let n: usize = match check_block(inputs, outputs, 1, 1, 1, 1) {
            Ok(n) => n,
            Err(e) => {
                return Err(e);
            },
        };
        let mut i: usize = 0;
        while i < n
            invariant
                i <= n,
                inputs@.len() >= 1,
                outputs@.len() >= 1,
                outputs@[0]@.len() == n,
                forall|p: int| 0 <= p < 1 ==> (#[trigger] inputs@[p])@.len() == n,
                same_lens(outputs@, old(outputs)@),
                same_from(outputs@, old(outputs)@, 1),
                *self == *old(self),
                S::obeys_sample_spec() ==>
                    forall|j: int| 0 <= j < i ==> #[trigger] outputs@[0]@[j] == self
                    .tick(rows(inputs)[0][j]),
            decreases n - i,
        {
            let x = read_at(inputs, 0, i);
            let y = self.tick(x);
            outputs[0][i] = y;
            i += 1;
        }
        Ok(())
    }

    /// A node without memory has nothing to reset.
    pub fn reset(&mut self)
        ensures
            *final(self) == *old(self),
    {
    }

    /// The number of inputs that a call requires.
    pub fn num_inputs(&self) -> (r: usize)
        ensures
            r == 1,
    {
        1
    }

    /// The number of outputs that a call writes.
    pub fn num_outputs(&self) -> (r: usize)
        ensures
            r == 1,
    {
        1
    }
}

/// The natural logarithm of a signal, with the input floored at 0.0001.
#[derive(Debug, Clone, Copy)]
pub struct Ln;

impl Ln {
    pub fn new() -> (r: Self) {
        Ln
    }

    /// One sample: the logarithm of the input, or of 0.0001 where the input is
    /// below it.
    pub open spec fn tick_spec<S: Sample>(&self, x: S) -> S {
        x.max(S::ratio(1, 10000)).ln()
    }

    /// Computes `tick_spec`.
    #[verifier::when_used_as_spec(tick_spec)]
    pub fn tick<S: Sample>(&self, x: S) -> (r: S)
        ensures
            S::obeys_sample_spec() ==> r == self.tick_spec(x),
    {
        x.max(S::ratio(1, 10000)).ln()
    }

    pub fn process<S: Sample>(
        &mut self,
        inputs: &[&[S]],
        outputs: &mut [Vec<S>],
        _sample_rate: S,
    ) -> (r: Result<(), ShapeError>)
        ensures
            r == shape_verdict(rows(inputs), cols(old(outputs)@), 1, 1, 1, 1),
            same_lens(final(outputs)@, old(outputs)@),
            same_from(final(outputs)@, old(outputs)@, 1),
            *final(self) == *old(self),
            r.is_err() ==> final(outputs)@ == old(outputs)@,
            r.is_ok() && S::obeys_sample_spec() ==> forall|i: int|
                0 <= i < final(outputs)@[0]@
                    .len() ==> #[trigger] final(outputs)@[0]@[i] == old(self)
                    .tick(rows(inputs)[0][i]),
    {
        let n: usize = match check_block(inputs, outputs, 1, 1, 1, 1) {
            Ok(n) => n,
            Err(e) => {
                return Err(e);
            },
        };
        let mut i: usize = 0;
        while i < n
            invariant
                i <= n,
                inputs@.len() >= 1,
                outputs@.len() >= 1,
                outputs@[0]@.len() == n,
                forall|p: int| 0 <= p < 1 ==> (#[trigger] inputs@[p])@.len() == n,
                same_lens(outputs@, old(outputs)@),
                same_from(outputs@, old(outputs)@, 1),
                *self == *old(self),
                S::obeys_sample_spec() ==>
                    forall|j: int| 0 <= j < i ==> #[trigger] outputs@[0]@[j] == self
                    .tick(rows(inputs)[0][j]),
            decreases n - i,
        {
            let x = read_at(inputs, 0, i);
            let y = self.tick(x);
            outputs[0][i] = y;
            i += 1;
        }
        Ok(())
    }

    /// A node without memory has nothing to reset.
    pub fn reset(&mut self)
        ensures
            *final(self) == *old(self),
    {
    }

    /// The number of inputs that a call requires.
    pub fn num_inputs(&self) -> (r: usize)
        ensures
            r == 1,
    {
        1
    }

    /// The number of outputs that a call writes.
    pub fn num_outputs(&self) -> (r: usize)
        ensures
            r == 1,
    {
        1
    }
}

/// A signal raised to a power.
#[derive(Debug, Clone, Copy)]
pub struct Pow<S> {
    pub exponent: S,
}

impl<S: Sample> Pow<S> {
    pub fn new(exponent: S) -> (r: Self)
        ensures
            r == (Pow { exponent }),
    {
        Pow { exponent }
    }

    /// One sample: the input to the power of the exponent.
    pub open spec fn tick_spec(&self, x: S) -> S {
        x.powf(self.exponent)
    }

    /// Computes `tick_spec`.
    #[verifier::when_used_as_spec(tick_spec)]
    pub fn tick(&self, x: S) -> (r: S)
        ensures
            S::obeys_sample_spec() ==> r == self.tick_spec(x),
    {
        x.powf(self.exponent)
    }

    pub fn process(
        &mut self,
        inputs: &[&[S]],
        outputs: &mut [Vec<S>],
        _sample_rate: S,
    ) -> (r: Result<(), ShapeError>)
        ensures
            r == shape_verdict(rows(inputs), cols(old(outputs)@), 1, 1, 1, 1),
            same_lens(final(outputs)@, old(outputs)@),
            same_from(final(outputs)@, old(outputs)@, 1),
            *final(self) == *old(self),
            r.is_err() ==> final(outputs)@ == old(outputs)@,
            r.is_ok() && S::obeys_sample_spec() ==> forall|i: int|
                0 <= i < final(outputs)@[0]@
                    .len() ==> #[trigger] final(outputs)@[0]@[i] == old(self)
                    .tick(rows(inputs)[0][i]),
    {
        let n: usize = match check_block(inputs, outputs, 1, 1, 1, 1) {
            Ok(n) => n,
            Err(e) => {
                return Err(e);
            },
        };
        let mut i: usize = 0;
        while i < n
            invariant
                i <= n,
                inputs@.len() >= 1,
                outputs@.len() >= 1,
                outputs@[0]@.len() == n,
                forall|p: int| 0 <= p < 1 ==> (#[trigger] inputs@[p])@.len() == n,
                same_lens(outputs@, old(outputs)@),
                same_from(outputs@, old(outputs)@, 1),
                *self == *old(self),
                S::obeys_sample_spec() ==>
                    forall|j: int| 0 <= j < i ==> #[trigger] outputs@[0]@[j] == self
                    .tick(rows(inputs)[0][j]),
            decreases n - i,
        {
            let x = read_at(inputs, 0, i);
            let y = self.tick(x);
            outputs[0][i] = y;
            i += 1;
        }
        Ok(())
    }

    /// A node without memory has nothing to reset.
    pub fn reset(&mut self)
        ensures
            *final(self) == *old(self),
    {
    }

    /// The number of inputs that a call requires.
    pub fn num_inputs(&self) -> (r: usize)
        ensures
            r == 1,
    {
        1
    }

    /// The number of outputs that a call writes.
    pub fn num_outputs(&self) -> (r: usize)
        ensures
            r == 1,
    {
        1
    }
}

/// The sine of a signal in turns.
#[derive(Debug, Clone, Copy)]
pub struct Sin;

impl Sin {
    pub fn new() -> (r: Self) {
        Sin
    }

    /// One sample: `sin(2 pi x)`.
    pub open spec fn tick_spec<S: Sample>(&self, x: S) -> S {
        x.mul(S::pi().mul(S::ratio(2, 1))).sin()
    }

    /// Computes `tick_spec`.
    #[verifier::when_used_as_spec(tick_spec)]
    pub fn tick<S: Sample>(&self, x: S) -> (r: S)
        ensures
            S::obeys_sample_spec() ==> r == self.tick_spec(x),
    {
        x.mul(S::pi().mul(S::ratio(2, 1))).sin()
    }

    pub fn process<S: Sample>(
        &mut self,
        inputs: &[&[S]],
        outputs: &mut [Vec<S>],
        _sample_rate: S,
    ) -> (r: Result<(), ShapeError>)
        ensures
            r == shape_verdict(rows(inputs), cols(old(outputs)@), 1, 1, 1, 1),
            same_lens(final(outputs)@, old(outputs)@),
            same_from(final(outputs)@, old(outputs)@, 1),
            *final(self) == *old(self),
            r.is_err() ==> final(outputs)@ == old(outputs)@,
            r.is_ok() && S::obeys_sample_spec() ==> forall|i: int|
                0 <= i < final(outputs)@[0]@
                    .len() ==> #[trigger] final(outputs)@[0]@[i] == old(self)
                    .tick(rows(inputs)[0][i]),
    {
        let n: usize = match check_block(inputs, outputs, 1, 1, 1, 1) {
            Ok(n) => n,
            Err(e) => {
                return Err(e);
            },
        };
        let mut i: usize = 0;
        while i < n
            invariant
                i <= n,
                inputs@.len() >= 1,
                outputs@.len() >= 1,
                outputs@[0]@.len() == n,
                forall|p: int| 0 <= p < 1 ==> (#[trigger] inputs@[p])@.len() == n,
                same_lens(outputs@, old(outputs)@),
                same_from(outputs@, old(outputs)@, 1),
                *self == *old(self),
                S::obeys_sample_spec() ==>
                    forall|j: int| 0 <= j < i ==> #[trigger] outputs@[0]@[j] == self
                    .tick(rows(inputs)[0][j]),
            decreases n - i,
        {
            let x = read_at(inputs, 0, i);
            let y = self.tick(x);
            outputs[0][i] = y;
            i += 1;
        }
        Ok(())
    }

    /// A node without memory has nothing to reset.
    pub fn reset(&mut self)
        ensures
            *final(self) == *old(self),
    {
    }

    /// The number of inputs that a call requires.
    pub fn num_inputs(&self) -> (r: usize)
        ensures
            r == 1,
    {
        1
    }

    /// The number of outputs that a call writes.
    pub fn num_outputs(&self) -> (r: usize)
        ensures
            r == 1,
    {
        1
    }
}

/// The cosine of a signal in turns.
#[derive(Debug, Clone, Copy)]
pub struct Cos;

impl Cos {
    pub fn new() -> (r: Self) {
        Cos
    }

    /// One sample: `cos(2 pi x)`.
    pub open spec fn tick_spec<S: Sample>(&self, x: S) -> S {
        x.mul(S::pi().mul(S::ratio(2, 1))).cos()
    }

    /// Computes `tick_spec`.
    #[verifier::when_used_as_spec(tick_spec)]
    pub fn tick<S: Sample>(&self, x: S) -> (r: S)
        ensures
            S::obeys_sample_spec() ==> r == self.tick_spec(x),
    {
        x.mul(S::pi().mul(S::ratio(2, 1))).cos()
    }

    pub fn process<S: Sample>(
        &mut self,
        inputs: &[&[S]],
        outputs: &mut [Vec<S>],
        _sample_rate: S,
    ) -> (r: Result<(), ShapeError>)
        ensures
            r == shape_verdict(rows(inputs), cols(old(outputs)@), 1, 1, 1, 1),
            same_lens(final(outputs)@, old(outputs)@),
            same_from(final(outputs)@, old(outputs)@, 1),
            *final(self) == *old(self),
            r.is_err() ==> final(outputs)@ == old(outputs)@,
            r.is_ok() && S::obeys_sample_spec() ==> forall|i: int|
                0 <= i < final(outputs)@[0]@
                    .len() ==> #[trigger] final(outputs)@[0]@[i] == old(self)
                    .tick(rows(inputs)[0][i]),
    {
        let n: usize = match check_block(inputs, outputs, 1, 1, 1, 1) {
            Ok(n) => n,
            Err(e) => {
                return Err(e);
            },
        };
        let mut i: usize = 0;
        while i < n
            invariant
                i <= n,
                inputs@.len() >= 1,
                outputs@.len() >= 1,
                outputs@[0]@.len() == n,
                forall|p: int| 0 <= p < 1 ==> (#[trigger] inputs@[p])@.len() == n,
                same_lens(outputs@, old(outputs)@),
                same_from(outputs@, old(outputs)@, 1),
                *self == *old(self),
                S::obeys_sample_spec() ==>
                    forall|j: int| 0 <= j < i ==> #[trigger] outputs@[0]@[j] == self
                    .tick(rows(inputs)[0][j]),
            decreases n - i,
        {
            let x = read_at(inputs, 0, i);
            let y = self.tick(x);
            outputs[0][i] = y;
            i += 1;
        }
        Ok(())
    }

    /// A node without memory has nothing to reset.
    pub fn reset(&mut self)
        ensures
            *final(self) == *old(self),
    {
    }

    /// The number of inputs that a call requires.
    pub fn num_inputs(&self) -> (r: usize)
        ensures
            r == 1,
    {
        1
    }

    /// The number of outputs that a call writes.
    pub fn num_outputs(&self) -> (r: usize)
        ensures
            r == 1,
    {
        1
    }
}

/// Holds a signal between two bounds.
#[derive(Debug, Clone, Copy)]
pub struct Clamp<S> {
    pub min: S,
    pub max: S,
}

impl<S: Sample> Clamp<S> {
    pub fn new(min: S, max: S) -> (r: Self)
        ensures
            r == (Clamp { min, max }),
    {
        Clamp { min, max }
    }

    /// One sample: the input held between the bounds.
    pub open spec fn tick_spec(&self, x: S) -> S {
        x.clamp(self.min, self.max)
    }

    /// Computes `tick_spec`.
    #[verifier::when_used_as_spec(tick_spec)]
    pub fn tick(&self, x: S) -> (r: S)
        ensures
            S::obeys_sample_spec() ==> r == self.tick_spec(x),
    {
        x.clamp(self.min, self.max)
    }

    pub fn process(
        &mut self,
        inputs: &[&[S]],
        outputs: &mut [Vec<S>],
        _sample_rate: S,
    ) -> (r: Result<(), ShapeError>)
        ensures
            r == shape_verdict(rows(inputs), cols(old(outputs)@), 1, 1, 1, 1),
            same_lens(final(outputs)@, old(outputs)@),
            same_from(final(outputs)@, old(outputs)@, 1),
            *final(self) == *old(self),
            r.is_err() ==> final(outputs)@ == old(outputs)@,
            r.is_ok() && S::obeys_sample_spec() ==> forall|i: int|
                0 <= i < final(outputs)@[0]@
                    .len() ==> #[trigger] final(outputs)@[0]@[i] == old(self)
                    .tick(rows(inputs)[0][i]),
    {
        let n: usize = match check_block(inputs, outputs, 1, 1, 1, 1) {
            Ok(n) => n,
            Err(e) => {
                return Err(e);
            },
        };
        let mut i: usize = 0;
        while i < n
            invariant
                i <= n,
                inputs@.len() >= 1,
                outputs@.len() >= 1,
                outputs@[0]@.len() == n,
                forall|p: int| 0 <= p < 1 ==> (#[trigger] inputs@[p])@.len() == n,
                same_lens(outputs@, old(outputs)@),
                same_from(outputs@, old(outputs)@, 1),
                *self == *old(self),
                S::obeys_sample_spec() ==>
                    forall|j: int| 0 <= j < i ==> #[trigger] outputs@[0]@[j] == self
                    .tick(rows(inputs)[0][j]),
            decreases n - i,
        {
            let x = read_at(inputs, 0, i);
            let y = self.tick(x);
            outputs[0][i] = y;
            i += 1;
        }
        Ok(())
    }

    /// A node without memory has nothing to reset.
    pub fn reset(&mut self)
        ensures
            *final(self) == *old(self),
    {
    }

    /// The number of inputs that a call requires.
    pub fn num_inputs(&self) -> (r: usize)
        ensures
            r == 1,
    {
        1
    }

    /// The number of outputs that a call writes.
    pub fn num_outputs(&self) -> (r: usize)
        ensures
            r == 1,
    {
        1
    }
}

/// Subtracts from the first signal all the others.
#[derive(Debug, Clone, Copy)]
pub struct Sub;

impl Sub {
    pub fn new() -> (r: Self) {
        Sub
    }

    /// The difference.
    pub open spec fn combine_spec<S: Sample>(acc: S, x: S) -> S {
        acc.sub(x)
    }

    /// Computes `combine_spec`.
    #[verifier::when_used_as_spec(combine_spec)]
    pub fn combine<S: Sample>(acc: S, x: S) -> (r: S)
        ensures
            S::obeys_sample_spec() ==> r == Self::combine_spec::<S>(acc, x),
    {
        acc.sub(x)
    }

    /// Sample `i` of the first `k` inputs folded with `combine`, in order.
    pub open spec fn folded<S: Sample>(inputs: Seq<Seq<S>>, i: int, k: nat) -> S
        decreases k,
    {
        if k <= 1 {
            inputs[0][i]
        } else {
            Self::combine(Self::folded(inputs, i, (k - 1) as nat), inputs[k - 1][i])
        }
    }

    /// Folds the inputs into output 0. Every input must have the length of the
    /// output; a call that fails writes nothing.
    pub fn process<S: Sample>(
        &mut self,
        inputs: &[&[S]],
        outputs: &mut [Vec<S>],
        _sample_rate: S,
    ) -> (r: Result<(), ShapeError>)
        ensures
            r == shape_verdict(
                rows(inputs),
                cols(old(outputs)@),
                2,
                inputs@.len(),
                inputs@.len(),
                1,
            ),
            same_lens(final(outputs)@, old(outputs)@),
            same_from(final(outputs)@, old(outputs)@, 1),
            r.is_err() ==> final(outputs)@ == old(outputs)@,
            r.is_ok() && S::obeys_sample_spec() ==> forall|i: int|
                0 <= i < final(outputs)@[0]@
                    .len() ==> #[trigger] final(outputs)@[0]@[i] == Self::folded(
                    rows(inputs),
                    i,
                    inputs@.len(),
                ),
    {
        let count: usize = inputs.len();
        let n: usize = match check_block(inputs, outputs, 2, count, count, 1) {
            Ok(n) => n,
            Err(e) => {
                return Err(e);
            },
        };
        let mut c: usize = 0;
        while c < n
            invariant
                c <= n,
                count >= 1,
                count == inputs@.len(),
                outputs@.len() >= 1,
                outputs@[0]@.len() == n,
                forall|q: int| 0 <= q < count ==> (#[trigger] inputs@[q])@.len() == n,
                same_lens(outputs@, old(outputs)@),
                same_from(outputs@, old(outputs)@, 1),
                forall|j: int| 0 <= j < c ==> outputs@[0]@[j] == rows(inputs)[0][j],
            decreases n - c,
        {
            let x = read_at(inputs, 0, c);
            outputs[0][c] = x;
            c += 1;
        }
        let mut p: usize = 1;
        while p < count
            invariant
                1 <= p <= count,
                count == inputs@.len(),
                outputs@.len() >= 1,
                outputs@[0]@.len() == n,
                forall|q: int| 0 <= q < count ==> (#[trigger] inputs@[q])@.len() == n,
                same_lens(outputs@, old(outputs)@),
                same_from(outputs@, old(outputs)@, 1),
                S::obeys_sample_spec() ==> forall|j: int|
                    0 <= j < n ==> outputs@[0]@[j] == Self::folded(rows(inputs), j, p as nat),
            decreases count - p,
        {
            let mut i: usize = 0;
            while i < n
                invariant
                    i <= n,
                    1 <= p < count,
                    count == inputs@.len(),
                    outputs@.len() >= 1,
                    outputs@[0]@.len() == n,
                    forall|q: int| 0 <= q < count ==> (#[trigger] inputs@[q])@.len() == n,
                    same_lens(outputs@, old(outputs)@),
                    same_from(outputs@, old(outputs)@, 1),
                    S::obeys_sample_spec() ==> forall|j: int|
                        i <= j < n ==> outputs@[0]@[j] == Self::folded(rows(inputs), j, p as nat),
                    S::obeys_sample_spec() ==> forall|j: int|
                        0 <= j < i ==>
                            outputs@[0]@[j] == Self::folded(rows(inputs), j, (p + 1) as nat),
                decreases n - i,
            {
                let y = Self::combine(outputs[0][i], read_at(inputs, p, i));
                outputs[0][i] = y;
                assert(Self::folded(rows(inputs), i as int, (p + 1) as nat) == Self::combine(
                    Self::folded(rows(inputs), i as int, p as nat),
                    rows(inputs)[p as int][i as int],
                ));
                i += 1;
            }
            p += 1;
        }
        Ok(())
    }

    /// A node without memory has nothing to reset.
    pub fn reset(&mut self)
        ensures
            *final(self) == *old(self),
    {
    }

    /// The number of inputs that a call requires.
    pub fn num_inputs(&self) -> (r: usize)
        ensures
            r == 2,
    {
        2
    }

    /// The number of outputs that a call writes.
    pub fn num_outputs(&self) -> (r: usize)
        ensures
            r == 1,
    {
        1
    }
}

/// Divides the first signal by all the others, each floored at 0.0001.
#[derive(Debug, Clone, Copy)]
pub struct Div;

impl Div {
    pub fn new() -> (r: Self) {
        Div
    }

    /// The quotient, with the divisor floored at 0.0001.
    pub open spec fn combine_spec<S: Sample>(acc: S, x: S) -> S {
        acc.div(x.max(S::ratio(1, 10000)))
    }

    /// Computes `combine_spec`.
    #[verifier::when_used_as_spec(combine_spec)]
    pub fn combine<S: Sample>(acc: S, x: S) -> (r: S)
        ensures
            S::obeys_sample_spec() ==> r == Self::combine_spec::<S>(acc, x),
    {
        acc.div(x.max(S::ratio(1, 10000)))
    }

    /// Sample `i` of the first `k` inputs folded with `combine`, in order.
    pub open spec fn folded<S: Sample>(inputs: Seq<Seq<S>>, i: int, k: nat) -> S
        decreases k,
    {
        if k <= 1 {
            inputs[0][i]
        } else {
            Self::combine(Self::folded(inputs, i, (k - 1) as nat), inputs[k - 1][i])
        }
    }

    /// Folds the inputs into output 0. Every input must have the length of the
    /// output; a call that fails writes nothing.
    pub fn process<S: Sample>(
        &mut self,
        inputs: &[&[S]],
        outputs: &mut [Vec<S>],
        _sample_rate: S,
    ) -> (r: Result<(), ShapeError>)
        ensures
            r == shape_verdict(
                rows(inputs),
                cols(old(outputs)@),
                2,
                inputs@.len(),
                inputs@.len(),
                1,
            ),
            same_lens(final(outputs)@, old(outputs)@),
            same_from(final(outputs)@, old(outputs)@, 1),
            r.is_err() ==> final(outputs)@ == old(outputs)@,
            r.is_ok() && S::obeys_sample_spec() ==> forall|i: int|
                0 <= i < final(outputs)@[0]@
                    .len() ==> #[trigger] final(outputs)@[0]@[i] == Self::folded(
                    rows(inputs),
                    i,
                    inputs@.len(),
                ),
    {
        let count: usize = inputs.len();
        let n: usize = match check_block(inputs, outputs, 2, count, count, 1) {
            Ok(n) => n,
            Err(e) => {
                return Err(e);
            },
        };
        let mut c: usize = 0;
        while c < n
            invariant
                c <= n,
                count >= 1,
                count == inputs@.len(),
                outputs@.len() >= 1,
                outputs@[0]@.len() == n,
                forall|q: int| 0 <= q < count ==> (#[trigger] inputs@[q])@.len() == n,
                same_lens(outputs@, old(outputs)@),
                same_from(outputs@, old(outputs)@, 1),
                forall|j: int| 0 <= j < c ==> outputs@[0]@[j] == rows(inputs)[0][j],
            decreases n - c,
        {
            let x = read_at(inputs, 0, c);
            outputs[0][c] = x;
            c += 1;
        }
        let mut p: usize = 1;
        while p < count
            invariant
                1 <= p <= count,
                count == inputs@.len(),
                outputs@.len() >= 1,
                outputs@[0]@.len() == n,
                forall|q: int| 0 <= q < count ==> (#[trigger] inputs@[q])@.len() == n,
                same_lens(outputs@, old(outputs)@),
                same_from(outputs@, old(outputs)@, 1),
                S::obeys_sample_spec() ==> forall|j: int|
                    0 <= j < n ==> outputs@[0]@[j] == Self::folded(rows(inputs), j, p as nat),
            decreases count - p,
        {
            let mut i: usize = 0;
            while i < n
                invariant
                    i <= n,
                    1 <= p < count,
                    count == inputs@.len(),
                    outputs@.len() >= 1,
                    outputs@[0]@.len() == n,
                    forall|q: int| 0 <= q < count ==> (#[trigger] inputs@[q])@.len() == n,
                    same_lens(outputs@, old(outputs)@),
                    same_from(outputs@, old(outputs)@, 1),
                    S::obeys_sample_spec() ==> forall|j: int|
                        i <= j < n ==> outputs@[0]@[j] == Self::folded(rows(inputs), j, p as nat),
                    S::obeys_sample_spec() ==> forall|j: int|
                        0 <= j < i ==>
                            outputs@[0]@[j] == Self::folded(rows(inputs), j, (p + 1) as nat),
                decreases n - i,
            {
                let y = Self::combine(outputs[0][i], read_at(inputs, p, i));
                outputs[0][i] = y;
                assert(Self::folded(rows(inputs), i as int, (p + 1) as nat) == Self::combine(
                    Self::folded(rows(inputs), i as int, p as nat),
                    rows(inputs)[p as int][i as int],
                ));
                i += 1;
            }
            p += 1;
        }
        Ok(())
    }

    /// A node without memory has nothing to reset.
    pub fn reset(&mut self)
        ensures
            *final(self) == *old(self),
    {
    }

    /// The number of inputs that a call requires.
    pub fn num_inputs(&self) -> (r: usize)
        ensures
            r == 2,
    {
        2
    }

    /// The number of outputs that a call writes.
    pub fn num_outputs(&self) -> (r: usize)
        ensures
            r == 1,
    {
        1
    }
}

} // verus!
