use tts_qwen3_tts::rope::{
    default_rope_type, interleaved_mrope_source_indices, Qwen3TtsTalkerRopeScalingConfig,
};

#[test]
fn interleaved_mrope_source_indices_matches_expected_pattern() {
    let indices = interleaved_mrope_source_indices(&[2, 1, 1], 6);
    assert_eq!(indices, vec![0, 1, 2, 0, 0, 0]);
}

#[test]
fn interleaved_mrope_indices_for_released_sections() {
    let indices = interleaved_mrope_source_indices(&[24, 20, 20], 64);
    assert_eq!(indices.len(), 64);
    for (pos, &source) in indices.iter().enumerate() {
        let expected = if pos % 3 > 0 && pos / 3 < 20 { (pos % 3) as i64 } else { 0 };
        assert_eq!(source, expected);
    }
    assert_eq!(&indices[..6], &[0, 1, 2, 0, 1, 2]);
    assert_eq!(&indices[60..], &[0, 0, 0, 0]);
}

#[test]
fn rope_scaling_defaults() {
    let config = Qwen3TtsTalkerRopeScalingConfig::default();
    assert!(config.interleaved);
    assert_eq!(config.mrope_section, vec![24, 20, 20]);
    assert_eq!(config.rope_type, "default");
    assert_eq!(default_rope_type(), "default");
}
