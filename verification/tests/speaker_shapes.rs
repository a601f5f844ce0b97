use tts_qwen3_tts::speaker::{
    default_enc_attention_channels, default_enc_channels, default_enc_dilations, default_enc_dim,
    default_enc_kernel_sizes, default_enc_res2net_scale, default_enc_se_channels, default_mel_dim,
    default_speaker_sample_rate, require_speaker_config, require_speaker_tensors_applied, speaker_encoder_layout, stft_frame_count, stft_pad_length, stft_reflect_pad,
    SpeakerEncoderConfig,
};

#[test]
fn speaker_encoder_config_defaults_missing_fields() {
    let config = SpeakerEncoderConfig::default();

    assert_eq!(config.mel_dim, 128);
    assert_eq!(config.enc_dim, 1024);
    assert_eq!(config.enc_channels, vec![512, 512, 512, 512, 1536]);
    assert_eq!(config.enc_kernel_sizes, vec![5, 3, 3, 3, 1]);
    assert_eq!(config.enc_dilations, vec![1, 2, 3, 4, 1]);
    assert_eq!(config.enc_attention_channels, 128);
    assert_eq!(config.enc_res2net_scale, 8);
    assert_eq!(config.enc_se_channels, 128);
    assert_eq!(config.sample_rate, 24_000);
}

#[test]
fn default_field_functions_match_default_config() {
    assert_eq!(default_mel_dim(), 128);
    assert_eq!(default_enc_dim(), 1024);
    assert_eq!(default_enc_channels(), vec![512, 512, 512, 512, 1536]);
    assert_eq!(default_enc_kernel_sizes(), vec![5, 3, 3, 3, 1]);
    assert_eq!(default_enc_dilations(), vec![1, 2, 3, 4, 1]);
    assert_eq!(default_enc_attention_channels(), 128);
    assert_eq!(default_enc_res2net_scale(), 8);
    assert_eq!(default_enc_se_channels(), 128);
    assert_eq!(default_speaker_sample_rate(), 24_000);
}

#[test]
fn speaker_layout_of_default_config() {
    let layout = speaker_encoder_layout(&SpeakerEncoderConfig::default());
    assert_eq!(layout.initial.in_channels, 128);
    assert_eq!(layout.initial.out_channels, 512);
    assert_eq!((layout.initial.pad_left, layout.initial.pad_right), (2, 2));
    assert_eq!(layout.blocks.len(), 3);
    let second = layout.blocks[1];
    assert_eq!(second.channels, 512);
    assert_eq!(second.chunk_size, 64);
    assert_eq!(second.branches, 7);
    assert_eq!(second.branch.dilation, 3);
    assert_eq!((second.branch.pad_left, second.branch.pad_right), (3, 3));
    assert_eq!(second.se_channels, 128);
    assert_eq!(layout.mfa.in_channels, 1536);
    assert_eq!(layout.mfa.out_channels, 1536);
    assert_eq!(layout.pooling_channels, 1536);
    assert_eq!(layout.pooling_tdnn.in_channels, 4608);
    assert_eq!(layout.pooling_tdnn.out_channels, 128);
    assert_eq!((layout.fc_in, layout.fc_out), (3072, 1024));
}

#[test]
fn stft_padding_mirrors_edges() {
    assert_eq!(stft_pad_length(1024, 256), 384);
    assert_eq!(stft_reflect_pad(&[1, 2, 3, 4, 5], 2), vec![3, 2, 1, 2, 3, 4, 5, 4, 3]);
    assert_eq!(stft_reflect_pad(&[7, 8], 3), vec![8, 8, 8, 7, 8, 7, 7, 7]);
    assert_eq!(stft_reflect_pad(&[1.5f32, 2.5], 0), vec![1.5, 2.5]);
    assert_eq!(stft_reflect_pad::<i32>(&[], 0), Vec::<i32>::new());
}

#[test]
fn stft_frames_cover_padded_signal() {
    assert_eq!(stft_frame_count(1024, 1024, 256), 1);
    assert_eq!(stft_frame_count(2047, 1024, 256), 4);
    assert_eq!(stft_frame_count(2048, 1024, 256), 5);
}

#[test]
fn speaker_load_requires_config_section_and_tensors() {
    let config = require_speaker_config(Some(SpeakerEncoderConfig::default()), "pkg/config.json").unwrap();
    assert_eq!(config.mel_dim, 128);
    let err = require_speaker_config(None, "pkg/config.json").unwrap_err();
    assert_eq!(err.to_string(), "pkg/config.json does not declare speaker_encoder_config");
    assert!(require_speaker_tensors_applied(42, "pkg/model.safetensors").is_ok());
    let err = require_speaker_tensors_applied(0, "pkg/model.safetensors").unwrap_err();
    assert_eq!(err.to_string(), "pkg/model.safetensors did not contain any speaker encoder tensors");
}
