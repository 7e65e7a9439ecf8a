//! Gain, mixer, sink and pass-through.

use crate::block::{
    check_block, cols, read_at, rows, same_from, same_lens, shape_verdict, ShapeError,
};
use crate::sample::Sample;
use vstd::prelude::*;

verus! {

/// Gain control.
#[derive(Debug, Clone, Copy)]
pub struct Gain<S> {
    pub gain: S,
}

impl<S: Sample> Gain<S> {
    pub fn new(gain: S) -> (r: Self)
        ensures
            r == (Gain { gain }),
    {
        Gain { gain }
    }

    /// One sample: the input times the gain.
    pub open spec fn tick_spec(&self, x: S) -> S {
        x.mul(self.gain)
    }

    /// Computes `tick_spec`.
    #[verifier::when_used_as_spec(tick_spec)]
    pub fn tick(&self, x: S) -> (r: S)
        ensures
            S::obeys_sample_spec() ==> r == self.tick_spec(x),
    {
        x.mul(self.gain)
    }

    pub fn process(
        &mut self,
        inputs: &[&[S]],
        outputs: &mut [Vec<S>],
        _sample_rate: S,
    ) -> (r: Result<(), ShapeError>)
        ensures
            r == shape_verdict(rows(inputs), cols(old(outputs)@), 1, 1, 1, 1),
            same_lens(final(outputs)@, old(outputs)@),
            same_from(final(outputs)@, old(outputs)@, 1),
            *final(self) == *old(self),
            r.is_err() ==> final(outputs)@ == old(outputs)@,
            r.is_ok() && S::obeys_sample_spec() ==> forall|i: int|
                0 <= i < final(outputs)@[0]@
                    .len() ==> #[trigger] final(outputs)@[0]@[i] == old(self)
                    .tick(rows(inputs)[0][i]),
    {
        let n: usize = match check_block(inputs, outputs, 1, 1, 1, 1) {
            Ok(n) => n,
            Err(e) => {
                return Err(e);
            },
        };
        let mut i: usize = 0;
        while i < n
            invariant
                i <= n,
                inputs@.len() >= 1,
                outputs@.len() >= 1,
                outputs@[0]@.len() == n,
                forall|p: int| 0 <= p < 1 ==> (#[trigger] inputs@[p])@.len() == n,
                same_lens(outputs@, old(outputs)@),
                same_from(outputs@, old(outputs)@, 1),
                *self == *old(self),
                S::obeys_sample_spec() ==>
                    forall|j: int| 0 <= j < i ==> #[trigger] outputs@[0]@[j] == self
                    .tick(rows(inputs)[0][j]),
            decreases n - i,
        {
            let x = read_at(inputs, 0, i);
            let y = self.tick(x);
            outputs[0][i] = y;
            i += 1;
        }
        Ok(())
    }

    /// A node without memory has nothing to reset.
    pub fn reset(&mut self)
        ensures
            *final(self) == *old(self),
    {
    }

    /// The number of inputs that a call requires.
    pub fn num_inputs(&self) -> (r: usize)
        ensures
            r == 1,
    {
        1
    }

    /// The number of outputs that a call writes.
    pub fn num_outputs(&self) -> (r: usize)
        ensures
            r == 1,
    {
        1
    }
}

/// Mixer: the sum of all its inputs.
#[derive(Debug, Clone, Copy)]
pub struct Mix;

impl Mix {
    pub fn new() -> (r: Self) {
        Mix
    }

    /// The sum.
    pub open spec fn combine_spec<S: Sample>(acc: S, x: S) -> S {
        acc.add(x)
    }

    /// Computes `combine_spec`.
    #[verifier::when_used_as_spec(combine_spec)]
    pub fn combine<S: Sample>(acc: S, x: S) -> (r: S)
        ensures
            S::obeys_sample_spec() ==> r == Self::combine_spec::<S>(acc, x),
    {
        acc.add(x)
    }

    /// Sample `i` of the first `k` inputs folded with `combine`, in order.
    pub open spec fn folded<S: Sample>(inputs: Seq<Seq<S>>, i: int, k: nat) -> S
        decreases k,
    {
        if k == 0 {
            S::zero()
        } else {
            Self::combine(Self::folded(inputs, i, (k - 1) as nat), inputs[k - 1][i])
        }
    }

    /// Sums the inputs into output 0, starting from silence. Every input must
    /// have the length of the output; a call that fails writes nothing.
    pub fn process<S: Sample>(
        &mut self,
        inputs: &[&[S]],
        outputs: &mut [Vec<S>],
        _sample_rate: S,
    ) -> (r: Result<(), ShapeError>)
        ensures
            r == shape_verdict(
                rows(inputs),
                cols(old(outputs)@),
                1,
                inputs@.len(),
                inputs@.len(),
                1,
            ),
            same_lens(final(outputs)@, old(outputs)@),
            same_from(final(outputs)@, old(outputs)@, 1),
            r.is_err() ==> final(outputs)@ == old(outputs)@,
            r.is_ok() && S::obeys_sample_spec() ==> forall|i: int|
                0 <= i < final(outputs)@[0]@
                    .len() ==> #[trigger] final(outputs)@[0]@[i] == Self::folded(
                    rows(inputs),
                    i,
                    inputs@.len(),
                ),
    {
        let count: usize = inputs.len();
        let n: usize = match check_block(inputs, outputs, 1, count, count, 1) {
            Ok(n) => n,
            Err(e) => {
                return Err(e);
            },
        };
        let zero = S::zero();
        let mut c: usize = 0;
        while c < n
            invariant
                c <= n,
                count == inputs@.len(),
                outputs@.len() >= 1,
                outputs@[0]@.len() == n,
                forall|q: int| 0 <= q < count ==> (#[trigger] inputs@[q])@.len() == n,
                same_lens(outputs@, old(outputs)@),
                same_from(outputs@, old(outputs)@, 1),
                forall|j: int| 0 <= j < c ==> outputs@[0]@[j] == zero,
            decreases n - c,
        {
            outputs[0][c] = zero;
            c += 1;
        }
        let mut p: usize = 0;
        while p < count
            invariant
                0 <= p <= count,
                count == inputs@.len(),
                outputs@.len() >= 1,
                outputs@[0]@.len() == n,
                forall|q: int| 0 <= q < count ==> (#[trigger] inputs@[q])@.len() == n,
                same_lens(outputs@, old(outputs)@),
                same_from(outputs@, old(outputs)@, 1),
                S::obeys_sample_spec() ==> forall|j: int|
                    0 <= j < n ==> outputs@[0]@[j] == Self::folded(rows(inputs), j, p as nat),
            decreases count - p,
        {
            let mut i: usize = 0;
            while i < n
                invariant
                    i <= n,
                    0 <= p < count,
                    count == inputs@.len(),
                    outputs@.len() >= 1,
                    outputs@[0]@.len() == n,
                    forall|q: int| 0 <= q < count ==> (#[trigger] inputs@[q])@.len() == n,
                    same_lens(outputs@, old(outputs)@),
                    same_from(outputs@, old(outputs)@, 1),
                    S::obeys_sample_spec() ==> forall|j: int|
                        i <= j < n ==> outputs@[0]@[j] == Self::folded(rows(inputs), j, p as nat),
                    S::obeys_sample_spec() ==> forall|j: int|
                        0 <= j < i ==>
                            outputs@[0]@[j] == Self::folded(rows(inputs), j, (p + 1) as nat),
                decreases n - i,
            {
                let y = Self::combine(outputs[0][i], read_at(inputs, p, i));
                outputs[0][i] = y;
                assert(Self::folded(rows(inputs), i as int, (p + 1) as nat) == Self::combine(
                    Self::folded(rows(inputs), i as int, p as nat),
                    rows(inputs)[p as int][i as int],
                ));
                i += 1;
            }
            p += 1;
        }
        Ok(())
    }

    /// A node without memory has nothing to reset.
    pub fn reset(&mut self)
        ensures
            *final(self) == *old(self),
    {
    }

    /// The number of inputs that a call requires.
    pub fn num_inputs(&self) -> (r: usize)
        ensures
            r == 1,
    {
        1
    }

    /// The number of outputs that a call writes.
    pub fn num_outputs(&self) -> (r: usize)
        ensures
            r == 1,
    {
        1
    }
}

/// A sink: it takes one input and writes nothing.
#[derive(Debug, Clone, Copy)]
pub struct OutputSink;

impl OutputSink {
    pub fn new() -> (r: Self) {
        OutputSink
    }

    /// Takes a block and leaves the outputs as they are. It fails where
    /// there is no input.
    pub fn process<S: Sample>(
        &mut self,
        inputs: &[&[S]],
        outputs: &mut [Vec<S>],
        _sample_rate: S,
    ) -> (r: Result<
        (),
        ShapeError,
    >)
        ensures
            r == shape_verdict(rows(inputs), cols(old(outputs)@), 1, 0, 0, 0),
            final(outputs)@ == old(outputs)@,
    {
        if inputs.len() < 1 {
            Err(ShapeError::MissingInput)
        } else {
            Ok(())
        }
    }

    /// A node without memory has nothing to reset.
    pub fn reset(&mut self)
        ensures
            *final(self) == *old(self),
    {
    }

    /// The number of inputs that a call requires.
    pub fn num_inputs(&self) -> (r: usize)
        ensures
            r == 1,
    {
        1
    }

    /// The number of outputs that a call writes.
    pub fn num_outputs(&self) -> (r: usize)
        ensures
            r == 0,
    {
        0
    }
}

/// Copies its input to its output.
#[derive(Debug, Clone, Copy)]
pub struct Dummy;

impl Dummy {
    pub fn new() -> (r: Self) {
        Dummy
    }

    /// Copies input 0 to output 0. This holds of every sample type: the node
    /// does no arithmetic. A call whose slices do not fit is refused and
    /// changes nothing. Nothing is allocated.
    pub fn process<S: Sample>(
        &mut self,
        inputs: &[&[S]],
        outputs: &mut [Vec<S>],
        _sample_rate: S,
    ) -> (r: Result<(), ShapeError>)
        ensures
            r == shape_verdict(rows(inputs), cols(old(outputs)@), 1, 1, 1, 1),
            same_lens(final(outputs)@, old(outputs)@),
            same_from(final(outputs)@, old(outputs)@, 1),
            r.is_err() ==> final(outputs)@ == old(outputs)@,
            r.is_ok() ==> final(outputs)@[0]@ == rows(inputs)[0],
    {
        let n: usize = match check_block(inputs, outputs, 1, 1, 1, 1) {
            Ok(n) => n,
            Err(e) => {
                return Err(e);
            },
        };
        let mut i: usize = 0;
        while i < n
            invariant
                i <= n,
                inputs@.len() >= 1,
                outputs@.len() >= 1,
                outputs@[0]@.len() == n,
                forall|p: int| 0 <= p < 1 ==> (#[trigger] inputs@[p])@.len() == n,
                same_lens(outputs@, old(outputs)@),
                same_from(outputs@, old(outputs)@, 1),
                forall|j: int| 0 <= j < i ==> #[trigger] outputs@[0]@[j] == rows(inputs)[0][j],
            decreases n - i,
        {
            let x = read_at(inputs, 0, i);
            outputs[0][i] = x;
            i += 1;
        }
        assert(outputs@[0]@ =~= rows(inputs)[0]);
        Ok(())
    }

    /// A node without memory has nothing to reset.
    pub fn reset(&mut self)
        ensures
            *final(self) == *old(self),
    {
    }

    /// The number of inputs that a call requires.
    pub fn num_inputs(&self) -> (r: usize)
        ensures
            r == 1,
    {
        1
    }

    /// The number of outputs that a call writes.
    pub fn num_outputs(&self) -> (r: usize)
        ensures
            r == 1,
    {
        1
    }
}

} // verus!
