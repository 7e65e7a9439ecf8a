//! Window functions.

use crate::sample::Sample;
use vstd::prelude::*;

verus! {

/// Entry `n` of a Hann window: `0.5 - 0.5 cos(2 pi n / size)`.
pub open spec fn hann_entry_spec<S: Sample>(i: usize, size: usize) -> S {
    let phase = S::from_usize(i).div(S::from_usize(size));
    S::ratio(5, 10).sub(S::ratio(5, 10).mul(S::ratio(2, 1).mul(S::pi()).mul(phase).cos()))
}

/// Computes `hann_entry_spec`.
#[verifier::when_used_as_spec(hann_entry_spec)]
pub fn hann_entry<S: Sample>(i: usize, size: usize) -> (r: S)
    ensures
        S::obeys_sample_spec() ==> r == hann_entry_spec::<S>(i, size),
{
    let phase = S::from_usize(i).div(S::from_usize(size));
    S::ratio(5, 10).sub(S::ratio(5, 10).mul(S::ratio(2, 1).mul(S::pi()).mul(phase).cos()))
}

/// Hann window of `size` entries.
pub fn hann_window<S: Sample>(size: usize) -> (r: Vec<S>)
    ensures
        r@.len() == size,
        S::obeys_sample_spec() ==>
            forall|i: int| 0 <= i < size ==> r@[i] == #[trigger] hann_entry::<S>(i as usize, size),
{
    let mut table: Vec<S> = Vec::new();
    let mut i: usize = 0;
    while i < size
        invariant
            i <= size,
            table@.len() == i,
            S::obeys_sample_spec() ==>
                forall|j: int| 0 <= j < i ==>
                    table@[j] == #[trigger] hann_entry::<S>(j as usize, size),
        decreases size - i,
    {
        table.push(hann_entry(i, size));
        i += 1;
    }
    table
}

/// Entry `n` of a Hamming window: `0.54 - 0.46 cos(2 pi n / size)`.
pub open spec fn hamming_entry_spec<S: Sample>(i: usize, size: usize) -> S {
    let phase = S::from_usize(i).div(S::from_usize(size));
    S::ratio(54, 100).sub(S::ratio(46, 100).mul(S::ratio(2, 1).mul(S::pi()).mul(phase).cos()))
}

/// Computes `hamming_entry_spec`.
#[verifier::when_used_as_spec(hamming_entry_spec)]
pub fn hamming_entry<S: Sample>(i: usize, size: usize) -> (r: S)
    ensures
        S::obeys_sample_spec() ==> r == hamming_entry_spec::<S>(i, size),
{
    let phase = S::from_usize(i).div(S::from_usize(size));
    S::ratio(54, 100).sub(S::ratio(46, 100).mul(S::ratio(2, 1).mul(S::pi()).mul(phase).cos()))
}

/// Hamming window of `size` entries.
pub fn hamming_window<S: Sample>(size: usize) -> (r: Vec<S>)
    ensures
        r@.len() == size,
        S::obeys_sample_spec() ==>
            forall|i: int| 0 <= i < size ==>
                r@[i] == #[trigger] hamming_entry::<S>(i as usize, size),
{
    let mut table: Vec<S> = Vec::new();
    let mut i: usize = 0;
    while i < size
        invariant
            i <= size,
            table@.len() == i,
            S::obeys_sample_spec() ==>
                forall|j: int| 0 <= j < i ==>
                    table@[j] == #[trigger] hamming_entry::<S>(j as usize, size),
        decreases size - i,
    {
        table.push(hamming_entry(i, size));
        i += 1;
    }
    table
}

/// Entry `n` of a Blackman window: `0.42 - 0.5 cos(2 pi n / size) + 0.08 cos(4
/// pi n / size)`.
pub open spec fn blackman_entry_spec<S: Sample>(i: usize, size: usize) -> S {
    let phase = S::from_usize(i).div(S::from_usize(size));
    S::ratio(42, 100).sub(S::ratio(5, 10).mul(S::ratio(2, 1).mul(S::pi()).mul(phase).cos()))
        .add(S::ratio(8, 100).mul(S::ratio(4, 1).mul(S::pi()).mul(phase).cos()))
}

/// Computes `blackman_entry_spec`.
#[verifier::when_used_as_spec(blackman_entry_spec)]
pub fn blackman_entry<S: Sample>(i: usize, size: usize) -> (r: S)
    ensures
        S::obeys_sample_spec() ==> r == blackman_entry_spec::<S>(i, size),
{
    let phase = S::from_usize(i).div(S::from_usize(size));
    S::ratio(42, 100).sub(S::ratio(5, 10).mul(S::ratio(2, 1).mul(S::pi()).mul(phase).cos()))
        .add(S::ratio(8, 100).mul(S::ratio(4, 1).mul(S::pi()).mul(phase).cos()))
}

/// Blackman window of `size` entries.
pub fn blackman_window<S: Sample>(size: usize) -> (r: Vec<S>)
    ensures
        r@.len() == size,
        S::obeys_sample_spec() ==>
            forall|i: int| 0 <= i < size ==>
                r@[i] == #[trigger] blackman_entry::<S>(i as usize, size),
{
    let mut table: Vec<S> = Vec::new();
    let mut i: usize = 0;
    while i < size
        invariant
            i <= size,
            table@.len() == i,
            S::obeys_sample_spec() ==>
                forall|j: int| 0 <= j < i ==>
                    table@[j] == #[trigger] blackman_entry::<S>(j as usize, size),
        decreases size - i,
    {
        table.push(blackman_entry(i, size));
        i += 1;
    }
    table
}

} // verus!
