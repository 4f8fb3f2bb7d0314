//! Streaming speech analysis: a voice activity detector with recurrent state,
//! a speaker embedding step and the frame pipeline that joins them. The
//! library holds the decisions — sample-rate validation, tensor shapes,
//! recurrent-state updates, output checks, threshold and frame order — while
//! the inference engine and the feature extractor run outside it. Float
//! values are carried as their IEEE-754 bit patterns.
use vstd::prelude::*;

pub mod embedding;
pub mod error;
pub mod pipeline;
pub mod resource;
pub mod tensor;
pub mod vad;

verus! {

} // verus!
