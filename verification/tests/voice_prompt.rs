use tts_qwen3_tts::voice::{require_speaker_embedding, voice_clone_prompt_plan, Qwen3TtsVoiceClonePromptMode};

#[test]
fn icl_prompt_keeps_trimmed_transcript() {
    let (text, mode) = voice_clone_prompt_plan(Some("  Hello there.\n"), false).unwrap();
    assert_eq!(text.as_deref(), Some("Hello there."));
    assert_eq!(mode, Qwen3TtsVoiceClonePromptMode::Icl);
}

#[test]
fn icl_prompt_needs_a_transcript() {
    let err = voice_clone_prompt_plan(Some(" \t "), false).unwrap_err();
    assert_eq!(err.to_string(), "ref_text is required when x_vector_only is false");
    let err = voice_clone_prompt_plan(None, false).unwrap_err();
    assert_eq!(err.to_string(), "ref_text is required when x_vector_only is false");
}

#[test]
fn x_vector_prompt_does_not_need_a_transcript() {
    let (text, mode) = voice_clone_prompt_plan(None, true).unwrap();
    assert_eq!(text, None);
    assert_eq!(mode, Qwen3TtsVoiceClonePromptMode::XVectorOnly);
    let (text, _) = voice_clone_prompt_plan(Some("   "), true).unwrap();
    assert_eq!(text, None);
    let (text, _) = voice_clone_prompt_plan(Some(" ref "), true).unwrap();
    assert_eq!(text.as_deref(), Some("ref"));
}

#[test]
fn transcript_trim_uses_unicode_white_space() {
    let (text, _) = voice_clone_prompt_plan(Some("\u{3000}\u{a0}abc\u{2028}\t"), false).unwrap();
    assert_eq!(text.as_deref(), Some("abc"));
    assert!(voice_clone_prompt_plan(Some("\u{85}\u{205f}"), false).is_err());
    let (text, _) = voice_clone_prompt_plan(Some("a b"), false).unwrap();
    assert_eq!(text.as_deref(), Some("a b"));
}

#[test]
fn voice_clone_needs_a_speaker_embedding() {
    assert!(require_speaker_embedding(1024, "ref.wav").is_ok());
    let err = require_speaker_embedding(0, "ref.wav").unwrap_err();
    assert_eq!(err.to_string(), "reference audio ref.wav produced no speaker embedding");
}
