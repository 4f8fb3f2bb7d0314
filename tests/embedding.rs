use screenpipe_audio::embedding::{embedding_from_output, feats_input};
use screenpipe_audio::error::{AudioError, InferenceFailure};
use screenpipe_audio::tensor::Tensor;

#[test]
fn features_get_a_batch_axis() {
    let fbank = Tensor::from_shape_vec(vec![3, 2], vec![1, 2, 3, 4, 5, 6]).unwrap();
    let feats = feats_input(Some(fbank)).unwrap();
    assert_eq!(feats.shape(), &[1, 3, 2]);
    assert_eq!(feats.data(), &[1, 2, 3, 4, 5, 6]);
}

#[test]
fn rejected_frame_is_a_feature_error() {
    assert_eq!(feats_input(None).err(), Some(AudioError::FeatureExtraction));
}

#[test]
fn embedding_is_the_output_in_order() {
    let embs = vec![0.5f32.to_bits(), (-1.25f32).to_bits(), 3.0f32.to_bits()];
    let a = embedding_from_output(Some(embs.clone())).unwrap();
    let b = embedding_from_output(Some(embs.clone())).unwrap();
    assert_eq!(a, embs);
    assert_eq!(a, b);
    assert_eq!(a.len(), 3);
}

#[test]
fn missing_embs_is_an_inference_error() {
    assert_eq!(
        embedding_from_output(None),
        Err(AudioError::Inference(InferenceFailure::MissingOutput))
    );
}
