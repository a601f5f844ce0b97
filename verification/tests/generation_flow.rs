use tts_qwen3_tts::generation::{
    effective_max_new_tokens, session_step_from_talker, token_is_eos, trailing_text_position,
    validate_code_predictor_inputs, validate_generator_start, GenerationProgress, SessionStep, TalkerStep,
};

#[test]
fn generation_stops_when_budget_is_spent() {
    let mut progress = GenerationProgress::new(2, false);
    assert_eq!(progress.begin_step().unwrap(), true);
    assert_eq!(progress.record_codec_step(), None);
    assert_eq!(progress.record_next_token(false), TalkerStep { finished: false });
    assert_eq!(progress.begin_step().unwrap(), true);
    assert_eq!(progress.record_codec_step(), Some(TalkerStep { finished: true }));
    assert!(progress.is_done());
    assert_eq!(progress.steps_generated(), 2);
    assert_eq!(progress.begin_step().unwrap(), false);
    assert!(progress.check_finalize().is_ok());
}

#[test]
fn generation_stops_after_eos_token() {
    let mut progress = GenerationProgress::new(10, false);
    assert_eq!(progress.begin_step().unwrap(), true);
    assert_eq!(progress.record_codec_step(), None);
    assert_eq!(progress.record_next_token(true), TalkerStep { finished: true });
    assert!(progress.is_done());
    assert_eq!(progress.begin_step().unwrap(), false);
    assert_eq!(progress.steps_generated(), 1);
}

#[test]
fn generation_rejects_eos_before_any_codec_step() {
    let mut progress = GenerationProgress::new(4, true);
    let err = progress.begin_step().unwrap_err();
    assert_eq!(err.to_string(), "talker emitted EOS before any audio codec token");
    let err = progress.check_finalize().unwrap_err();
    assert_eq!(err.to_string(), "no codec tokens were generated");
}

#[test]
fn session_step_reflects_talker_step() {
    assert_eq!(session_step_from_talker(Some(TalkerStep { finished: false })), SessionStep::Advanced);
    assert_eq!(session_step_from_talker(Some(TalkerStep { finished: true })), SessionStep::Finished);
    assert_eq!(session_step_from_talker(None), SessionStep::Finished);
}

#[test]
fn eos_and_budget_helpers() {
    assert!(token_is_eos(2150, Some(2150)));
    assert!(!token_is_eos(2149, Some(2150)));
    assert!(!token_is_eos(2150, None));
    assert_eq!(effective_max_new_tokens(Some(7), 2048), 7);
    assert_eq!(effective_max_new_tokens(None, 2048), 2048);
    assert_eq!(trailing_text_position(0, 3), Some(0));
    assert_eq!(trailing_text_position(2, 3), Some(2));
    assert_eq!(trailing_text_position(3, 3), None);
}

#[test]
fn generator_start_accepts_consistent_shapes() {
    assert!(validate_generator_start(16, 1, [1, 5, 1024], [1, 1, 1024], 1024).is_ok());
}

#[test]
fn generator_start_reports_first_problem() {
    let msg = |r: Result<(), tts_qwen3_tts::error::Qwen3TtsInferenceError>| r.unwrap_err().to_string();
    assert_eq!(
        msg(validate_generator_start(0, 2, [1, 5, 8], [1, 1, 8], 8)),
        "talker max_new_tokens must be greater than zero"
    );
    assert_eq!(msg(validate_generator_start(4, 2, [2, 5, 8], [2, 1, 8], 8)), "only batch size 1 is supported, got 2");
    assert_eq!(
        msg(validate_generator_start(4, 1, [3, 5, 8], [1, 1, 8], 8)),
        "generation side input batch mismatch: expected 1, got trailing=3, pad=1"
    );
    assert_eq!(
        msg(validate_generator_start(4, 1, [1, 0, 8], [1, 1, 8], 8)),
        "generation side input length mismatch: trailing length must be > 0 and pad length must be 1, got trailing=0, pad=1"
    );
    assert_eq!(
        msg(validate_generator_start(4, 1, [1, 5, 8], [1, 1, 16], 8)),
        "generation side input hidden mismatch: expected 8, got trailing=8, pad=16"
    );
}

#[test]
fn code_predictor_inputs_are_checked_in_order() {
    let msg = |r: Result<(), tts_qwen3_tts::error::Qwen3TtsInferenceError>| r.unwrap_err().to_string();
    assert!(validate_code_predictor_inputs(16, [1, 1024], [1, 1], 1024).is_ok());
    assert_eq!(
        msg(validate_code_predictor_inputs(1, [1, 1024], [1, 1], 1024)),
        "code predictor generation requires at least two code groups"
    );
    assert_eq!(
        msg(validate_code_predictor_inputs(16, [1, 1024], [2, 3], 1024)),
        "code predictor base token shape mismatch: expected [1, 1], got [2, 3]"
    );
    assert_eq!(
        msg(validate_code_predictor_inputs(16, [1, 512], [1, 1], 1024)),
        "code predictor hidden size mismatch: expected 1024, got 512"
    );
}

#[test]
fn finished_generation_stays_idle() {
    let mut progress = GenerationProgress::new(1, false);
    assert_eq!(progress.begin_step().unwrap(), true);
    assert_eq!(progress.record_codec_step(), Some(TalkerStep { finished: true }));
    for _ in 0..3 {
        assert_eq!(progress.begin_step().unwrap(), false);
        assert!(progress.is_done());
        assert_eq!(progress.steps_generated(), 1);
    }
}
