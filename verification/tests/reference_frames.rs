use tts_qwen3_tts::reference::{
    assemble_reference_frames, flatten_reference_codec_frames, frames_from_layer_major_codes,
    reference_codec_prefix, reference_trimmed_range,
};

#[test]
fn flatten_reference_codec_frames_uses_quantizer_major_layout() {
    let frames = vec![vec![10, 20, 30], vec![11, 21, 31]];
    let flat = flatten_reference_codec_frames(&frames, 3).expect("frames should flatten");
    assert_eq!(flat, vec![10, 11, 20, 21, 30, 31]);
}

#[test]
fn flatten_reference_codec_frames_rejects_short_frame() {
    let frames = vec![vec![10, 20], vec![11, 21, 31]];
    let error =
        flatten_reference_codec_frames(&frames, 3).expect_err("short frame should be rejected");
    let message = error.to_string();
    assert!(message.contains("reference codec frame 0"));
}

#[test]
fn flatten_reports_short_frame_with_counts() {
    let frames = vec![vec![10, 20], vec![11, 21, 31]];
    let error = flatten_reference_codec_frames(&frames, 3).unwrap_err();
    assert_eq!(
        error.to_string(),
        "reference codec frame 0 has 2 quantizers, expected at least 3"
    );
}

#[test]
fn flatten_reports_first_bad_cell_in_quantizer_major_order() {
    // Frame 1 is short at quantizer 1, frame 0 overflows at quantizer 2: quantizer 1 comes first.
    let frames = vec![vec![1, 2, 5_000_000_000], vec![3]];
    let error = flatten_reference_codec_frames(&frames, 3).unwrap_err();
    assert_eq!(
        error.to_string(),
        "reference codec frame 1 has 1 quantizers, expected at least 3"
    );
}

#[test]
fn flatten_rejects_tokens_outside_i32() {
    let frames = vec![vec![1, -3_000_000_000]];
    let error = flatten_reference_codec_frames(&frames, 2).unwrap_err();
    assert_eq!(
        error.to_string(),
        "reference codec token -3000000000 at frame 0, quantizer 1 does not fit i32"
    );
}

#[test]
fn flatten_of_no_frames_or_no_quantizers_is_empty() {
    let none: Vec<Vec<i64>> = Vec::new();
    assert_eq!(flatten_reference_codec_frames(&none, 4).unwrap(), Vec::<i32>::new());
    let frames = vec![vec![], vec![7]];
    assert_eq!(flatten_reference_codec_frames(&frames, 0).unwrap(), Vec::<i32>::new());
}

#[test]
fn flatten_accepts_i32_extremes() {
    let frames = vec![vec![i32::MIN as i64], vec![i32::MAX as i64]];
    assert_eq!(
        flatten_reference_codec_frames(&frames, 1).unwrap(),
        vec![i32::MIN, i32::MAX]
    );
}

#[test]
fn layer_major_codes_round_trip_through_flatten() {
    // Two layers over three time steps, layer-major.
    let flat = vec![1i64, 2, 3, 10, 20, 30];
    let frames = frames_from_layer_major_codes(&flat, 2, 3);
    assert_eq!(frames, vec![vec![1, 10], vec![2, 20], vec![3, 30]]);
    let back = flatten_reference_codec_frames(&frames, 2).unwrap();
    assert_eq!(back, vec![1, 2, 3, 10, 20, 30]);
}

#[test]
fn assemble_reference_frames_puts_semantic_layers_first() {
    let semantic = vec![vec![1, 2]];
    let acoustic = vec![vec![5, 6, 7], vec![8, 9]];
    let frames = assemble_reference_frames(&semantic, &acoustic).unwrap();
    assert_eq!(frames, vec![vec![1, 5, 8], vec![2, 6, 9]]);
}

#[test]
fn assemble_reference_frames_requires_a_semantic_layer() {
    let error = assemble_reference_frames(&Vec::new(), &vec![vec![1]]).unwrap_err();
    assert_eq!(
        error.to_string(),
        "reference audio produced no semantic codec frames"
    );
}

#[test]
fn reference_prefix_only_supports_batch_one() {
    let frames = vec![vec![1, 2]];
    let error = reference_codec_prefix(&frames, 2, 2).unwrap_err();
    assert_eq!(
        error.to_string(),
        "reference codec prefix only supports batch_size=1, got 2"
    );
    let (flat, shape) = reference_codec_prefix(&frames, 1, 2).unwrap();
    assert_eq!(flat, vec![1, 2]);
    assert_eq!(shape, [1, 2, 1]);
}

#[test]
fn reference_trim_cuts_the_reference_share() {
    // 2 reference frames + 3 generated steps, 10 samples per step.
    assert_eq!(reference_trimmed_range(2, 3, 50), (20, 50));
    // Rounding down.
    assert_eq!(reference_trimmed_range(1, 2, 10), (3, 10));
    // No steps at all.
    assert_eq!(reference_trimmed_range(0, 0, 0), (0, 0));
}
