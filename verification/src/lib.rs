//! Real-time signal processing nodes: oscillators, filters, envelopes,
//! dynamics, delay effects, block convolution and utilities.
//!
//! A node computes one block of samples per call and carries its state from
//! block to block. The host makes the state once, then calls the processing
//! function once per block with one slice per input and one buffer per output,
//! all of the block's length. A call whose slices do not fit is refused with a
//! `ShapeError` and changes neither the state nor the outputs; no call panics,
//! and no processing function allocates.
//!
//! The nodes are written over the sample arithmetic of `sample::Sample`, and
//! their contracts say what every output sample is in terms of it: each node
//! is a recursion over the samples of a block (`block::renders`), whose step
//! is the `tick_spec` of the node.
//!
//! The nodes under `nodes` keep their settings apart from their state, which
//! is what a graph runtime wants; the nodes of the other modules carry both
//! in one value and stand alone.

pub mod analysis;
pub mod block;
pub mod delay_line;
pub mod dynamics;
pub mod effects;
pub mod envelopes;
pub mod filters;
pub mod helpers;
pub mod math;
pub mod modulators;
pub mod nodes;
pub mod oscillators;
pub mod sample;
pub mod spectrum;
pub mod utility;
pub mod wavetables;
pub mod windows;
