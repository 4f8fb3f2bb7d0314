use vstd::prelude::*;

verus! {

/// Why one inference step could not give a result.
#[derive(Debug, PartialEq, Eq, Structural, Clone, Copy)]
pub enum InferenceFailure {
    /// The engine itself failed to run the graph or to hand a tensor out.
    Engine,
    /// An output that the step needs was not among the engine's outputs.
    MissingOutput,
    /// An output could not be reshaped to the shape the step needs.
    ShapeMismatch,
    /// The detector's output is NaN or lies outside [0, 1], so it is no
    /// speech probability.
    ProbabilityOutOfRange,
}

/// The errors of the detector, the embedding extractor and the pipeline.
#[derive(Debug, PartialEq, Eq, Structural, Clone, Copy)]
pub enum AudioError {
    /// The detector supports 8000 Hz and 16000 Hz only.
    UnsupportedSampleRate,
    /// A model file is missing or cannot be loaded.
    ModelLoad,
    /// The frame is too short or malformed for the spectral features.
    FeatureExtraction,
    /// Running the model failed, or its outputs were not as expected.
    Inference(InferenceFailure),
}

} // verus!
