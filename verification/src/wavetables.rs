//! Single-period tables for wavetable oscillators.

use crate::sample::Sample;
use vstd::prelude::*;

verus! {

/// Entry `i` of a sine table of `size` entries: `sin(2 pi i / size)`.
pub open spec fn sine_entry_spec<S: Sample>(i: usize, size: usize) -> S {
    S::ratio(2, 1).mul(S::pi()).mul(S::from_usize(i)).div(S::from_usize(size)).sin()
}

/// Computes `sine_entry_spec`.
#[verifier::when_used_as_spec(sine_entry_spec)]
pub fn sine_entry<S: Sample>(i: usize, size: usize) -> (r: S)
    ensures
        S::obeys_sample_spec() ==> r == sine_entry_spec::<S>(i, size),
{
    S::ratio(2, 1).mul(S::pi()).mul(S::from_usize(i)).div(S::from_usize(size)).sin()
}

/// One period of a sine in `size` entries.
pub fn generate_sine_table<S: Sample>(size: usize) -> (r: Vec<S>)
    ensures
        r@.len() == size,
        S::obeys_sample_spec() ==>
            forall|i: int| 0 <= i < size ==> r@[i] == #[trigger] sine_entry::<S>(i as usize, size),
{
    let mut table: Vec<S> = Vec::new();
    let mut i: usize = 0;
    while i < size
        invariant
            i <= size,
            table@.len() == i,
            S::obeys_sample_spec() ==>
                forall|j: int| 0 <= j < i ==>
                    table@[j] == #[trigger] sine_entry::<S>(j as usize, size),
        decreases size - i,
    {
        table.push(sine_entry(i, size));
        i += 1;
    }
    table
}

/// Entry `i` of a ramp table of `size` entries: `2 i / size - 1`.
pub open spec fn saw_entry_spec<S: Sample>(i: usize, size: usize) -> S {
    S::ratio(2, 1).mul(S::from_usize(i)).div(S::from_usize(size)).sub(S::one())
}

/// Computes `saw_entry_spec`.
#[verifier::when_used_as_spec(saw_entry_spec)]
pub fn saw_entry<S: Sample>(i: usize, size: usize) -> (r: S)
    ensures
        S::obeys_sample_spec() ==> r == saw_entry_spec::<S>(i, size),
{
    S::ratio(2, 1).mul(S::from_usize(i)).div(S::from_usize(size)).sub(S::one())
}

/// A ramp from minus one up to one in `size` entries.
pub fn generate_saw_table<S: Sample>(size: usize) -> (r: Vec<S>)
    ensures
        r@.len() == size,
        S::obeys_sample_spec() ==>
            forall|i: int| 0 <= i < size ==> r@[i] == #[trigger] saw_entry::<S>(i as usize, size),
{
    let mut table: Vec<S> = Vec::new();
    let mut i: usize = 0;
    while i < size
        invariant
            i <= size,
            table@.len() == i,
            S::obeys_sample_spec() ==>
                forall|j: int| 0 <= j < i ==>
                    table@[j] == #[trigger] saw_entry::<S>(j as usize, size),
        decreases size - i,
    {
        table.push(saw_entry(i, size));
        i += 1;
    }
    table
}

/// Entry `i` of a square table of `size` entries.
pub open spec fn square_entry_spec<S: Sample>(i: usize, size: usize) -> S {
    if i < size / 2 {
        S::one()
    } else {
        S::one().neg()
    }
}

/// Computes `square_entry_spec`.
#[verifier::when_used_as_spec(square_entry_spec)]
pub fn square_entry<S: Sample>(i: usize, size: usize) -> (r: S)
    ensures
        S::obeys_sample_spec() ==> r == square_entry_spec::<S>(i, size),
{
    if i < size / 2 {
        S::one()
    } else {
        S::one().neg()
    }
}

/// One period of a square in `size` entries: one in the first half, minus one
/// in the second.
pub fn generate_square_table<S: Sample>(size: usize) -> (r: Vec<S>)
    ensures
        r@.len() == size,
        S::obeys_sample_spec() ==>
            forall|i: int| 0 <= i < size ==>
                r@[i] == #[trigger] square_entry::<S>(i as usize, size),
{
    let mut table: Vec<S> = Vec::new();
    let mut i: usize = 0;
    while i < size
        invariant
            i <= size,
            table@.len() == i,
            S::obeys_sample_spec() ==>
                forall|j: int| 0 <= j < i ==>
                    table@[j] == #[trigger] square_entry::<S>(j as usize, size),
        decreases size - i,
    {
        table.push(square_entry(i, size));
        i += 1;
    }
    table
}

/// Entry `i` of a triangle table of `size` entries: `-(2 (|t| - 1/2))` for the
/// ramp `t = 2 i / size - 1`.
pub open spec fn triangle_entry_spec<S: Sample>(i: usize, size: usize) -> S {
    let t = S::ratio(2, 1).mul(S::from_usize(i)).div(S::from_usize(size)).sub(S::one());
    S::ratio(2, 1).mul(t.abs().sub(S::ratio(5, 10))).neg()
}

/// Computes `triangle_entry_spec`.
#[verifier::when_used_as_spec(triangle_entry_spec)]
pub fn triangle_entry<S: Sample>(i: usize, size: usize) -> (r: S)
    ensures
        S::obeys_sample_spec() ==> r == triangle_entry_spec::<S>(i, size),
{
    let t = S::ratio(2, 1).mul(S::from_usize(i)).div(S::from_usize(size)).sub(S::one());
    S::ratio(2, 1).mul(t.abs().sub(S::ratio(5, 10))).neg()
}

/// One period of a triangle in `size` entries, from minus one up to one and
/// back.
pub fn generate_triangle_table<S: Sample>(size: usize) -> (r: Vec<S>)
    ensures
        r@.len() == size,
        S::obeys_sample_spec() ==>
            forall|i: int| 0 <= i < size ==>
                r@[i] == #[trigger] triangle_entry::<S>(i as usize, size),
{
    let mut table: Vec<S> = Vec::new();
    let mut i: usize = 0;
    while i < size
        invariant
            i <= size,
            table@.len() == i,
            S::obeys_sample_spec() ==>
                forall|j: int| 0 <= j < i ==>
                    table@[j] == #[trigger] triangle_entry::<S>(j as usize, size),
        decreases size - i,
    {
        table.push(triangle_entry(i, size));
        i += 1;
    }
    table
}

} // verus!
