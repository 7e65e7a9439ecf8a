//! Nodes for a graph runtime: the settings of a node are one value, the
//! state of each of its instances another.

pub mod dynamics;
pub mod envelopes;
pub mod filters;
pub mod fx;
pub mod lfo;
pub mod oscillators;
pub mod pitch;
pub mod shapers;
pub mod utility;
