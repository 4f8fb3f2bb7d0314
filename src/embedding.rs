use vstd::prelude::*;

use crate::error::{AudioError, InferenceFailure};
use crate::tensor::Tensor;
use crate::vad::output_values;

verus! {

/// What an embedding step gives for the `embs` output of the engine: its
/// values in order, or a missing-output error.
pub open spec fn embedding_result(embs: Option<Seq<u32>>) -> Result<Seq<u32>, AudioError> {
    match embs {
        Some(v) => Ok(v),
        None => Err(AudioError::Inference(InferenceFailure::MissingOutput)),
    }
}

/// The engine input `feats` for an embedding step: the filterbank features of
/// shape `(T, F)` under a leading batch axis, `(1, T, F)`. `None` stands for a
/// frame that the feature extractor rejected, which is a feature extraction
/// error.
pub fn feats_input(features: Option<Tensor>) -> (r: Result<Tensor, AudioError>)
    requires
        features matches Some(t) ==> t.wf(),
    ensures
        match features {
            None => r == Err::<Tensor, AudioError>(AudioError::FeatureExtraction),
            Some(t) => match r {
                Ok(f) => f.wf() && f.dims() == seq![1usize] + t.dims() && f.values()
                    == t.values(),
                Err(_) => false,
            },
        },
{
    match features {
        None => Err(AudioError::FeatureExtraction),
        Some(t) => Ok(t.insert_leading_axis()),
    }
}

/// The embedding vector read from the engine's `embs` output: its values, in
/// order and as they came, or a missing-output error where the engine gave no
/// such output.
pub fn embedding_from_output(embs: Option<Vec<u32>>) -> (r: Result<Vec<u32>, AudioError>)
    ensures
        match r {
            Ok(v) => embedding_result(output_values(embs)) == Ok::<Seq<u32>, AudioError>(v@),
            Err(e) => embedding_result(output_values(embs)) == Err::<Seq<u32>, AudioError>(e),
        },
{
    match embs {
        Some(v) => Ok(v),
        None => Err(AudioError::Inference(InferenceFailure::MissingOutput)),
    }
}

/// Whatever the frame, a successful embedding step hands back exactly the
/// model's `embs` values, so its length is the length of that output; and the
/// step keeps no state, so equal outputs give equal embeddings.
pub proof fn embedding_follows_output(a: Option<Seq<u32>>, b: Option<Seq<u32>>)
    ensures
        a matches Some(v) ==> embedding_result(a) matches Ok(e) && e.len() == v.len(),
        a == b ==> embedding_result(a) == embedding_result(b),
{
}

} // verus!
