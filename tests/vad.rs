use screenpipe_audio::error::{AudioError, InferenceFailure};
use screenpipe_audio::vad::{VadCore, VadOutputs, STATE_LEN};

fn outputs(hn: Option<Vec<u32>>, cn: Option<Vec<u32>>, output: Option<Vec<u32>>) -> VadOutputs {
    VadOutputs { hn, cn, output }
}

fn filled(v: f32) -> Vec<u32> {
    vec![v.to_bits(); STATE_LEN]
}

#[test]
fn supported_rates_are_accepted() {
    for r in [8000usize, 16000] {
        let v = VadCore::new(r).expect("supported rate");
        assert_eq!(v.sample_rate(), r);
    }
}

#[test]
fn other_rates_are_rejected() {
    for r in [0usize, 1, 7999, 8001, 11025, 15999, 16001, 22050, 44100, 48000] {
        assert_eq!(VadCore::new(r).err(), Some(AudioError::UnsupportedSampleRate));
    }
}

#[test]
fn rate_22050_fails_at_construction() {
    assert!(matches!(VadCore::new(22050), Err(AudioError::UnsupportedSampleRate)));
}

#[test]
fn fresh_request_holds_frame_rate_and_zero_state() {
    let v = VadCore::new(16000).unwrap();
    let frame = vec![0u32; 512];
    let req = v.request(&frame);
    assert_eq!(req.input.shape(), &[1, 512]);
    assert_eq!(req.input.data(), &frame[..]);
    assert_eq!(req.sr, vec![16000i64]);
    assert_eq!(req.h.shape(), &[2, 1, 64]);
    assert_eq!(req.c.shape(), &[2, 1, 64]);
    assert!(req.h.data().iter().all(|&x| x == 0));
    assert!(req.c.data().iter().all(|&x| x == 0));
}

#[test]
fn rate_8000_goes_into_request() {
    let v = VadCore::new(8000).unwrap();
    let req = v.request(&[1.5f32.to_bits(), 2.0f32.to_bits()]);
    assert_eq!(req.sr, vec![8000i64]);
    assert_eq!(req.input.shape(), &[1, 2]);
    assert_eq!(req.input.data(), &[1.5f32.to_bits(), 2.0f32.to_bits()]);
}

#[test]
fn zero_frame_with_zero_outputs_keeps_zero_state() {
    let mut v = VadCore::new(16000).unwrap();
    let frame = vec![0.0f32.to_bits(); 512];
    let p1 = v.absorb(outputs(Some(filled(0.0)), Some(filled(0.0)), Some(vec![0.0f32.to_bits()])));
    assert_eq!(p1, Ok(0.0f32.to_bits()));
    let req = v.request(&frame);
    assert!(req.h.data().iter().all(|&x| x == 0));
    assert!(req.c.data().iter().all(|&x| x == 0));
    let p2 = v.absorb(outputs(Some(filled(0.0)), Some(filled(0.0)), Some(vec![0.0f32.to_bits()])));
    assert_eq!(p1, p2);
}

#[test]
fn step_replaces_state_and_reads_first_output() {
    let mut v = VadCore::new(16000).unwrap();
    let p = v.absorb(outputs(
        Some(filled(0.25)),
        Some(filled(-0.5)),
        Some(vec![0.75f32.to_bits(), 0.1f32.to_bits()]),
    ));
    assert_eq!(p.map(f32::from_bits), Ok(0.75));
    let req = v.request(&[]);
    assert_eq!(req.h.data(), &filled(0.25)[..]);
    assert_eq!(req.c.data(), &filled(-0.5)[..]);
    assert_eq!(req.input.shape(), &[1, 0]);
}

#[test]
fn empty_output_gives_zero_probability() {
    let mut v = VadCore::new(8000).unwrap();
    let p = v.absorb(outputs(Some(filled(1.0)), Some(filled(1.0)), Some(vec![])));
    assert_eq!(p, Ok(0.0f32.to_bits()));
}

#[test]
fn missing_outputs_are_inference_errors_and_keep_state() {
    let missing = Err(AudioError::Inference(InferenceFailure::MissingOutput));
    let mut v = VadCore::new(16000).unwrap();
    v.absorb(outputs(Some(filled(0.5)), Some(filled(0.5)), Some(vec![0])))
        .unwrap();
    assert_eq!(v.absorb(outputs(None, Some(filled(1.0)), Some(vec![0]))), missing);
    assert_eq!(v.absorb(outputs(Some(filled(1.0)), None, Some(vec![0]))), missing);
    assert_eq!(v.absorb(outputs(Some(filled(1.0)), Some(filled(1.0)), None)), missing);
    let req = v.request(&[]);
    assert_eq!(req.h.data(), &filled(0.5)[..]);
    assert_eq!(req.c.data(), &filled(0.5)[..]);
}

#[test]
fn wrong_state_length_is_a_shape_error_and_keeps_state() {
    let mismatch = Err(AudioError::Inference(InferenceFailure::ShapeMismatch));
    let mut v = VadCore::new(16000).unwrap();
    assert_eq!(v.absorb(outputs(Some(vec![0; 127]), Some(filled(1.0)), Some(vec![0]))), mismatch);
    assert_eq!(v.absorb(outputs(Some(filled(1.0)), Some(vec![0; 129]), Some(vec![0]))), mismatch);
    let req = v.request(&[]);
    assert!(req.h.data().iter().all(|&x| x == 0));
    assert!(req.c.data().iter().all(|&x| x == 0));
}

#[test]
fn reset_matches_a_new_detector() {
    let mut used = VadCore::new(16000).unwrap();
    used.absorb(outputs(Some(filled(0.3)), Some(filled(0.7)), Some(vec![0.9f32.to_bits()])))
        .unwrap();
    used.reset();
    let fresh = VadCore::new(16000).unwrap();
    let frame = vec![0.2f32.to_bits(); 512];
    let a = used.request(&frame);
    let b = fresh.request(&frame);
    assert_eq!(a.input.data(), b.input.data());
    assert_eq!(a.sr, b.sr);
    assert_eq!(a.h.data(), b.h.data());
    assert_eq!(a.c.data(), b.c.data());
    assert_eq!(used.sample_rate(), 16000);
}

#[test]
fn probability_outside_unit_range_is_rejected_and_keeps_state() {
    let out_of_range = Err(AudioError::Inference(InferenceFailure::ProbabilityOutOfRange));
    let mut v = VadCore::new(16000).unwrap();
    for bad in [2.0f32, -0.5, 1.0000001, f32::NAN, f32::INFINITY, f32::NEG_INFINITY] {
        let p = v.absorb(outputs(Some(filled(0.5)), Some(filled(0.5)), Some(vec![bad.to_bits()])));
        assert_eq!(p, out_of_range);
    }
    let req = v.request(&[]);
    assert!(req.h.data().iter().all(|&x| x == 0));
    assert!(req.c.data().iter().all(|&x| x == 0));
}

#[test]
fn probability_bounds_are_accepted() {
    let mut v = VadCore::new(8000).unwrap();
    for good in [0.0f32, -0.0, 1.0, 0.5, f32::MIN_POSITIVE] {
        let p = v.absorb(outputs(Some(filled(0.1)), Some(filled(0.2)), Some(vec![good.to_bits(), 7.0f32.to_bits()])));
        assert_eq!(p, Ok(good.to_bits()));
        let x = f32::from_bits(p.unwrap());
        assert!((0.0..=1.0).contains(&x));
    }
}
