use screenpipe_audio::pipeline::{bits_ge, FramePipeline};

fn ge(a: f32, b: f32) -> bool {
    bits_ge(a.to_bits(), b.to_bits())
}

#[test]
fn bit_comparison_agrees_with_floats() {
    let values = [
        0.0f32,
        -0.0,
        0.5,
        0.49999997,
        1.0,
        -1.0,
        -0.25,
        f32::MIN_POSITIVE,
        f32::MAX,
        f32::MIN,
        f32::INFINITY,
        f32::NEG_INFINITY,
        f32::NAN,
        1e-45,
    ];
    for &a in &values {
        for &b in &values {
            assert_eq!(ge(a, b), a >= b, "{} >= {}", a, b);
        }
    }
}

#[test]
fn threshold_decides_embedding() {
    let mut p = FramePipeline::new(0.5f32.to_bits());
    assert_eq!(f32::from_bits(p.threshold()), 0.5);
    assert!(p.needs_embedding(0.5f32.to_bits()));
    assert!(p.needs_embedding(0.9f32.to_bits()));
    assert!(!p.needs_embedding(0.1f32.to_bits()));
    let r0 = p.emit(0.9f32.to_bits(), Some(vec![1, 2, 3]));
    assert_eq!(r0.index, 0);
    assert_eq!(r0.embedding, Some(vec![1, 2, 3]));
    let r1 = p.emit(0.1f32.to_bits(), Some(vec![4]));
    assert_eq!(r1.index, 1);
    assert_eq!(r1.probability, 0.1f32.to_bits());
    assert_eq!(r1.embedding, None);
}

#[test]
fn failed_frames_keep_their_position() {
    let mut p = FramePipeline::new(0.5f32.to_bits());
    assert_eq!(p.skip(), 0);
    let r = p.emit(0.7f32.to_bits(), None);
    assert_eq!(r.index, 1);
    assert_eq!(p.next_index(), 2);
}
