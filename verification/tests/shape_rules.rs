use tts_qwen3_tts::codec::{
    derive_encoder_downsample_kernel, validate_codec_input_3d, validate_quantizer_input, WaveformShape,
};
use tts_qwen3_tts::conv::{
    reflect_pad_indices, replicate_pad_indices, causal_left_padding, causal_transposed_trim, conv1d_padding, extra_padding_for_conv1d, same_padding,
};
use tts_qwen3_tts::error::Qwen3TtsInferenceError;
use tts_qwen3_tts::layout::{
    attention_dims, code_predictor_heads, code_predictor_needs_projection, decoder_quantizer_layers,
    decoder_layer_plan, decoder_quantizer_split, encoder_backbone_plan, UpsampleBlockPlan, WaveDecoderEntry, repeated_kv_head_sources, wave_decoder_plan, BackboneLayerPlan,
    EncoderBackboneSettings,
};
use tts_qwen3_tts::mask::{attention_mask_plan, causal_mask, padding_key_mask, AttentionMaskPlan};
use tts_qwen3_tts::sampling::{effective_top_k, suppress_token_mask_row, valid_suppress_token_ids};

fn message<T: std::fmt::Debug>(r: Result<T, Qwen3TtsInferenceError>) -> String {
    r.unwrap_err().to_string()
}

#[test]
fn suppress_token_mask_marks_requested_ids() {
    let values = suppress_token_mask_row(5, &[1, 3, 9]).expect("in-range ids should create a mask");
    assert_eq!(values, vec![false, true, false, true, false]);
}

#[test]
fn suppress_token_mask_ignores_out_of_range_ids() {
    let mask = suppress_token_mask_row(3, &[7]);
    assert!(mask.is_none());
}

#[test]
fn valid_suppress_ids_keep_order_and_drop_out_of_range() {
    assert_eq!(valid_suppress_token_ids(&[4, 9, 0, 4], 5), vec![4, 0, 4]);
    assert!(valid_suppress_token_ids(&[], 5).is_empty());
}

#[test]
fn top_k_applies_only_inside_vocabulary() {
    assert_eq!(effective_top_k(Some(50), 3072), Some(50));
    assert_eq!(effective_top_k(Some(0), 3072), None);
    assert_eq!(effective_top_k(Some(3072), 3072), None);
    assert_eq!(effective_top_k(None, 3072), None);
}

#[test]
fn extra_padding_completes_the_last_stride() {
    assert_eq!(extra_padding_for_conv1d(10, 4, 2, 2), 0);
    assert_eq!(extra_padding_for_conv1d(9, 4, 2, 2), 1);
    assert_eq!(extra_padding_for_conv1d(1, 7, 1, 0), 6);
    assert_eq!(extra_padding_for_conv1d(1, 7, 0, 2), 4);
    assert_eq!(extra_padding_for_conv1d(11, 8, 4, 4), 1);
    assert_eq!(extra_padding_for_conv1d(usize::MAX, 4, 3, 5), (3 - (usize::MAX - 4) % 3) % 3);
}

#[test]
fn conv_paddings() {
    assert_eq!(conv1d_padding(7, 1, 1, 100), (6, 0));
    assert_eq!(conv1d_padding(8, 1, 4, 13), (4, 3));
    assert_eq!(conv1d_padding(3, 2, 1, 5), (4, 0));
    assert_eq!(causal_left_padding(7, 3), 18);
    assert_eq!(causal_transposed_trim(16, 8, 100), Some((8, 92)));
    assert_eq!(causal_transposed_trim(8, 8, 100), None);
    assert_eq!(causal_transposed_trim(16, 8, 5), Some((8, 0)));
    assert_eq!(same_padding(5, 1), (2, 2));
    assert_eq!(same_padding(4, 1), (1, 2));
    assert_eq!(same_padding(3, 4), (4, 4));
}

#[test]
fn codec_input_checks() {
    assert_eq!(derive_encoder_downsample_kernel(4), 8);
    assert!(validate_codec_input_3d([1, 16, 20], 16).is_ok());
    assert_eq!(message(validate_codec_input_3d([0, 16, 20], 16)), "codec batch size must be non-zero");
    assert_eq!(
        message(validate_codec_input_3d([1, 8, 20], 16)),
        "codec token count 8 doesn't match expected 16 quantizer layers"
    );
    assert!(validate_quantizer_input([1, 256, 10], 2048, 2048 * 256).is_ok());
    assert_eq!(
        message(validate_quantizer_input([2, 256, 10], 2048, 2048 * 256)),
        "semantic quantizer expects [1, hidden, time] with non-zero dims, got [2, 256, 10]"
    );
    assert_eq!(
        message(validate_quantizer_input([1, 256, 10], 2048, 2048 * 128)),
        "semantic codebook tensor shapes are inconsistent"
    );
}

#[test]
fn waveform_shape_checks() {
    let w = WaveformShape::new(24000, 1, 1, 480).unwrap();
    assert_eq!(w.sample_rate(), 24000);
    assert_eq!((w.batch_size(), w.channels(), w.sample_count()), (1, 1, 480));
    assert_eq!(message(WaveformShape::new(0, 1, 1, 480)), "waveform sample rate must be non-zero");
    assert_eq!(
        message(WaveformShape::new(24000, 0, 1, 480)),
        "waveform batch/channels must be non-zero, got batch=0, channels=1"
    );
    assert_eq!(message(WaveformShape::new(24000, 1, 1, 0)), "waveform sample payload must be non-empty");
    assert_eq!(
        message(WaveformShape::new(24000, 2, 2, 10)),
        "waveform element mismatch: 10 samples do not fit batch=2, channels=2"
    );
}

#[test]
fn layout_sizes() {
    let d = attention_dims(16, 8, 128);
    assert_eq!((d.q_out, d.kv_out), (2048, 1024));
    assert_eq!(decoder_quantizer_layers(16, 1), (1, 15));
    assert_eq!(decoder_quantizer_layers(1, 2), (1, 0));
    assert_eq!(code_predictor_heads(16), 15);
    assert_eq!(code_predictor_heads(0), 0);
    assert!(code_predictor_needs_projection(1024, 2048));
    assert!(!code_predictor_needs_projection(1024, 1024));
    assert_eq!(decoder_quantizer_split(16, 1), (1, 15, true));
    assert_eq!(decoder_quantizer_split(1, 1), (1, 0, false));
}

#[test]
fn wave_decoder_halves_channels_per_stage() {
    let (stages, last) = wave_decoder_plan(1536, &[8, 5, 4, 3]);
    assert_eq!(stages.len(), 4);
    assert_eq!((stages[0].in_dim, stages[0].out_dim, stages[0].kernel_size, stages[0].stride), (1536, 768, 16, 8));
    assert_eq!((stages[3].in_dim, stages[3].out_dim, stages[3].kernel_size, stages[3].stride), (192, 96, 6, 3));
    assert_eq!(stages[1].residual_dilations, [1, 3, 9]);
    assert_eq!(last, 96);
}

#[test]
fn encoder_backbone_downsamples_in_reverse_ratio_order() {
    let settings = EncoderBackboneSettings {
        audio_channels: 1,
        num_filters: 64,
        kernel_size: 7,
        compress: 2,
        residual_kernel_size: 3,
        last_kernel_size: 3,
        hidden_size: 512,
        upsampling_ratios: vec![8, 6, 5, 4],
    };
    let layers = encoder_backbone_plan(&settings);
    assert_eq!(layers.len(), 15);
    assert_eq!(layers[0], BackboneLayerPlan::InputConv { in_channels: 1, out_channels: 64, kernel_size: 7 });
    assert_eq!(layers[1], BackboneLayerPlan::Resnet { channels: 64, hidden: 32, kernel_size: 3 });
    assert_eq!(layers[2], BackboneLayerPlan::Activation);
    assert_eq!(
        layers[3],
        BackboneLayerPlan::DownsampleConv { in_channels: 64, out_channels: 128, kernel_size: 8, stride: 4 }
    );
    assert_eq!(
        layers[12],
        BackboneLayerPlan::DownsampleConv { in_channels: 512, out_channels: 1024, kernel_size: 16, stride: 8 }
    );
    assert_eq!(layers[13], BackboneLayerPlan::Activation);
    assert_eq!(layers[14], BackboneLayerPlan::OutputConv { in_channels: 1024, out_channels: 512, kernel_size: 3 });
}

#[test]
fn attention_masks() {
    assert_eq!(attention_mask_plan(5, None, false), AttentionMaskPlan::Causal);
    assert_eq!(attention_mask_plan(5, Some(0), true), AttentionMaskPlan::CausalOrPadding);
    assert_eq!(attention_mask_plan(1, Some(7), false), AttentionMaskPlan::Unmasked);
    assert_eq!(attention_mask_plan(1, Some(7), true), AttentionMaskPlan::Padding);
    let mask = causal_mask(3);
    assert_eq!(mask, vec![vec![false, true, true], vec![false, false, true], vec![false, false, false]]);
    assert_eq!(padding_key_mask(&[1, 1, 0, 1, 0]), vec![false, false, true, false, true]);
}

#[test]
fn reflect_and_replicate_pad_gather_positions() {
    assert_eq!(reflect_pad_indices(5, 2, 2), vec![2, 1, 0, 1, 2, 3, 4, 3, 2]);
    assert_eq!(reflect_pad_indices(3, 0, 0), vec![0, 1, 2]);
    assert_eq!(reflect_pad_indices(0, 0, 0), Vec::<usize>::new());
    assert_eq!(replicate_pad_indices(3, 2, 1), vec![0, 0, 0, 1, 2, 2]);
    assert_eq!(replicate_pad_indices(4, 0, 0), vec![0, 1, 2, 3]);
}

#[test]
fn grouped_query_heads_share_kv_heads() {
    assert_eq!(repeated_kv_head_sources(2, 3), vec![0, 0, 0, 1, 1, 1]);
    assert_eq!(repeated_kv_head_sources(3, 1), vec![0, 1, 2]);
    assert!(repeated_kv_head_sources(4, 0).is_empty());
}

#[test]
fn decoder_plan_lays_out_wave_decoder_and_upsampling() {
    let plan = decoder_layer_plan(1024, 512, 1536, &[8, 5, 4, 3], &[2, 2], 16, 1);
    assert_eq!((plan.pre_conv_in, plan.pre_conv_out), (512, 1024));
    assert_eq!(plan.upsample.len(), 2);
    assert_eq!(plan.upsample[1], UpsampleBlockPlan { channels: 1024, ratio: 2, convnext_hidden: 4096 });
    assert_eq!(plan.wave_decoder.len(), 7);
    assert_eq!(
        plan.wave_decoder[0],
        WaveDecoderEntry::InputConv { in_channels: 1024, out_channels: 1536, kernel_size: 7, pad_left: 6 }
    );
    match plan.wave_decoder[1] {
        WaveDecoderEntry::UpsampleStage(stage) => assert_eq!((stage.in_dim, stage.out_dim, stage.stride), (1536, 768, 8)),
        other => panic!("expected an upsample stage, got {other:?}"),
    }
    assert_eq!(plan.wave_decoder[5], WaveDecoderEntry::OutputActivation { channels: 96 });
    assert_eq!(
        plan.wave_decoder[6],
        WaveDecoderEntry::OutputConv { in_channels: 96, out_channels: 1, kernel_size: 7, pad_left: 6 }
    );
    assert_eq!((plan.semantic_layers, plan.acoustic_layers), (1, 15));
}
