use vstd::prelude::*;
use vstd::arithmetic::power2::{pow2, lemma_pow2_unfold, lemma_pow2_pos, lemma_pow2_strictly_increases};
use vstd::arithmetic::div_mod::lemma_div_denominator;

verus! {

/// Projection sizes of a grouped-query attention block.
#[derive(Debug, Clone, Copy, PartialEq, Eq, Structural)]
pub struct AttentionDims {
    /// Output width of the query projection (and input width of the output projection).
    pub q_out: usize,
    /// Output width of the key and value projections.
    pub kv_out: usize,
}

/// Query projections produce one `head_dim` vector per attention head, key and value
/// projections one per key/value head.
pub fn attention_dims(num_heads: usize, num_kv_heads: usize, head_dim: usize) -> (d: AttentionDims)
    requires
        num_heads * head_dim <= usize::MAX,
        num_kv_heads * head_dim <= usize::MAX,
    ensures
        d.q_out == num_heads * head_dim,
        d.kv_out == num_kv_heads * head_dim,
{
    AttentionDims { q_out: num_heads * head_dim, kv_out: num_kv_heads * head_dim }
}

/// One layer of the audio codec encoder's convolutional backbone.
#[derive(Debug, Clone, Copy, PartialEq, Eq, Structural)]
pub enum BackboneLayerPlan {
    /// Convolution from the audio channels to the first filter count.
    InputConv { in_channels: usize, out_channels: usize, kernel_size: usize },
    /// Residual block through `hidden` channels with a causal kernel of `kernel_size`.
    Resnet { channels: usize, hidden: usize, kernel_size: usize },
    /// ELU activation.
    Activation,
    /// Strided convolution that halves time by `stride` and doubles the channels.
    DownsampleConv { in_channels: usize, out_channels: usize, kernel_size: usize, stride: usize },
    /// Convolution to the encoder's hidden size.
    OutputConv { in_channels: usize, out_channels: usize, kernel_size: usize },
}

/// The channel width entering downsampling stage `stage` (counted from the first one).
pub open spec fn stage_width(num_filters: nat, stage: nat) -> nat {
    num_filters * pow2(stage)
}

/// The settings the encoder backbone is built from.
#[derive(Debug, Clone)]
pub struct EncoderBackboneSettings {
    pub audio_channels: usize,
    pub num_filters: usize,
    pub kernel_size: usize,
    pub compress: usize,
    pub residual_kernel_size: usize,
    pub last_kernel_size: usize,
    pub hidden_size: usize,
    /// Upsampling ratios of the matching decoder; the encoder downsamples by them in reverse.
    pub upsampling_ratios: Vec<usize>,
}

/// The channel widths stay within `usize` and the residual compression is positive.
pub open spec fn backbone_settings_in_range(s: EncoderBackboneSettings) -> bool {
    &&& s.compress > 0
    &&& pow2(s.upsampling_ratios@.len()) <= usize::MAX
    &&& s.num_filters * pow2(s.upsampling_ratios@.len()) <= usize::MAX
    &&& forall|i: int| 0 <= i < s.upsampling_ratios@.len() ==> #[trigger] s.upsampling_ratios@[i] * 2 <= usize::MAX
}

/// Layers of the encoder backbone: an input convolution, then for each ratio (last
/// ratio first) a residual block, an activation and a downsampling convolution that
/// doubles the width, then an activation and an output convolution to the hidden size.
pub fn encoder_backbone_plan(s: &EncoderBackboneSettings) -> (layers: Vec<BackboneLayerPlan>)
    requires
        backbone_settings_in_range(*s),
    ensures
        layers@.len() == 3 * s.upsampling_ratios@.len() + 3,
        layers@[0] == (BackboneLayerPlan::InputConv {
            in_channels: s.audio_channels,
            out_channels: s.num_filters,
            kernel_size: s.kernel_size,
        }),
        forall|i: int|
            0 <= i < s.upsampling_ratios@.len() ==> {
                let width = stage_width(s.num_filters as nat, i as nat);
                let ratio = s.upsampling_ratios@[s.upsampling_ratios@.len() - 1 - i];
                &&& #[trigger] layers@[1 + 3 * i] == (BackboneLayerPlan::Resnet {
                    channels: width as usize,
                    hidden: (width / (s.compress as nat)) as usize,
                    kernel_size: s.residual_kernel_size,
                })
                &&& layers@[2 + 3 * i] == BackboneLayerPlan::Activation
                &&& layers@[3 + 3 * i] == (BackboneLayerPlan::DownsampleConv {
                    in_channels: width as usize,
                    out_channels: (2 * width) as usize,
                    kernel_size: (ratio * 2) as usize,
                    stride: ratio,
                })
            },
        layers@[3 * s.upsampling_ratios@.len() + 1int] == BackboneLayerPlan::Activation,
        layers@[3 * s.upsampling_ratios@.len() + 2int] == (BackboneLayerPlan::OutputConv {
            in_channels: stage_width(s.num_filters as nat, s.upsampling_ratios@.len()) as usize,
            out_channels: s.hidden_size,
            kernel_size: s.last_kernel_size,
        }),
{
    let ratios = &s.upsampling_ratios;
    let n = ratios.len();
    let mut layers: Vec<BackboneLayerPlan> = Vec::new();
    layers.push(BackboneLayerPlan::InputConv {
        in_channels: s.audio_channels,
        out_channels: s.num_filters,
        kernel_size: s.kernel_size,
    });
    let mut scaling: usize = 1;
    let mut i: usize = 0;
    proof {
        lemma_pow2_pos(0);
        assert(pow2(0) == 1) by {
            vstd::arithmetic::power2::lemma2_to64();
        }
    }
    while i < n
        invariant
            n == ratios@.len(),
            ratios@ == s.upsampling_ratios@,
            backbone_settings_in_range(*s),
            i <= n,
            scaling == pow2(i as nat),
            layers@.len() == 3 * i + 1,
            layers@[0] == (BackboneLayerPlan::InputConv {
                in_channels: s.audio_channels,
                out_channels: s.num_filters,
                kernel_size: s.kernel_size,
            }),
            forall|j: int|
                0 <= j < i ==> {
                    let width = stage_width(s.num_filters as nat, j as nat);
                    let ratio = s.upsampling_ratios@[s.upsampling_ratios@.len() - 1 - j];
                    &&& #[trigger] layers@[1 + 3 * j] == (BackboneLayerPlan::Resnet {
                        channels: width as usize,
                        hidden: (width / (s.compress as nat)) as usize,
                        kernel_size: s.residual_kernel_size,
                    })
                    &&& layers@[2 + 3 * j] == BackboneLayerPlan::Activation
                    &&& layers@[3 + 3 * j] == (BackboneLayerPlan::DownsampleConv {
                        in_channels: width as usize,
                        out_channels: (2 * width) as usize,
                        kernel_size: (ratio * 2) as usize,
                        stride: ratio,
                    })
                },
        decreases n - i,
    {
        proof {
            lemma_pow2_unfold((i + 1) as nat);
            if i + 1 < n {
                lemma_pow2_strictly_increases((i + 1) as nat, n as nat);
            }
            assert(s.num_filters * pow2((i + 1) as nat) <= s.num_filters * pow2(n as nat)) by (nonlinear_arith)
                requires pow2((i + 1) as nat) <= pow2(n as nat);
            assert(scaling * s.num_filters * 2 == s.num_filters * pow2((i + 1) as nat)) by (nonlinear_arith)
                requires scaling == pow2(i as nat), pow2((i + 1) as nat) == 2 * pow2(i as nat);
            assert(scaling * s.num_filters <= scaling * s.num_filters * 2) by (nonlinear_arith);
            if i + 1 < n {
                assert(pow2((i + 1) as nat) < pow2(n as nat));
            }
        }
        let ratio = ratios[n - 1 - i];
        let current_scale = scaling * s.num_filters;
        let hidden = current_scale / s.compress;
        layers.push(BackboneLayerPlan::Resnet {
            channels: current_scale,
            hidden,
            kernel_size: s.residual_kernel_size,
        });
        layers.push(BackboneLayerPlan::Activation);
        layers.push(BackboneLayerPlan::DownsampleConv {
            in_channels: current_scale,
            out_channels: current_scale * 2,
            kernel_size: ratio * 2,
            stride: ratio,
        });
        proof {
            assert(stage_width(s.num_filters as nat, i as nat) == current_scale) by (nonlinear_arith)
                requires scaling == pow2(i as nat), current_scale == scaling * s.num_filters;
        }
        scaling = scaling * 2;
        i += 1;
    }
    proof {
        assert(scaling * s.num_filters == stage_width(s.num_filters as nat, n as nat)) by (nonlinear_arith)
            requires scaling == pow2(n as nat);
    }
    layers.push(BackboneLayerPlan::Activation);
    layers.push(BackboneLayerPlan::OutputConv {
        in_channels: scaling * s.num_filters,
        out_channels: s.hidden_size,
        kernel_size: s.last_kernel_size,
    });
    layers
}

/// One upsampling stage of the codec's wave decoder: a snake activation over `in_dim`
/// channels, a causal transposed convolution to `out_dim` channels with a kernel of
/// twice the rate and a stride of the rate, and residual units with the dilations.
#[derive(Debug, Clone, Copy, PartialEq, Eq)]
pub struct WaveStagePlan {
    pub in_dim: usize,
    pub out_dim: usize,
    pub kernel_size: usize,
    pub stride: usize,
    pub residual_dilations: [usize; 3],
}

/// Stage `i` works on `decoder_dim / 2^i` channels and halves them.
pub open spec fn wave_stage_spec(decoder_dim: nat, rate: nat, stage: nat) -> WaveStagePlan {
    WaveStagePlan {
        in_dim: (decoder_dim / pow2(stage)) as usize,
        out_dim: (decoder_dim / pow2(stage + 1)) as usize,
        kernel_size: (rate * 2) as usize,
        stride: rate as usize,
        residual_dilations: [1, 3, 9],
    }
}

/// The wave decoder's upsampling stages and the channel width left after them.
pub fn wave_decoder_plan(decoder_dim: usize, upsample_rates: &[usize]) -> (plan: (Vec<WaveStagePlan>, usize))
    requires
        forall|i: int| 0 <= i < upsample_rates@.len() ==> #[trigger] upsample_rates@[i] * 2 <= usize::MAX,
    ensures
        plan.0@.len() == upsample_rates@.len(),
        forall|i: int|
            0 <= i < upsample_rates@.len() ==> #[trigger] plan.0@[i] == wave_stage_spec(
                decoder_dim as nat,
                upsample_rates@[i] as nat,
                i as nat,
            ),
        plan.1 == (decoder_dim as nat) / pow2(upsample_rates@.len()),
        forall|i: int|
            0 <= i < upsample_rates@.len() ==> {
                let st = #[trigger] plan.0@[i];
                &&& st.in_dim == (decoder_dim as nat) / pow2(i as nat)
                &&& st.out_dim == (decoder_dim as nat) / pow2((i + 1) as nat)
                &&& st.out_dim == st.in_dim / 2
                &&& st.kernel_size == 2 * upsample_rates@[i]
                &&& st.stride == upsample_rates@[i]
                &&& st.residual_dilations == [1usize, 3, 9]
            },
{
    let n = upsample_rates.len();
    let mut stages: Vec<WaveStagePlan> = Vec::new();
    let mut dim = decoder_dim;
    let mut i: usize = 0;
    proof {
        assert(pow2(0) == 1) by {
            vstd::arithmetic::power2::lemma2_to64();
        }
    }
    while i < n
        invariant
            n == upsample_rates@.len(),
            forall|k: int| 0 <= k < upsample_rates@.len() ==> #[trigger] upsample_rates@[k] * 2 <= usize::MAX,
            forall|k: int|
                0 <= k < i ==> {
                    let st = #[trigger] stages@[k];
                    &&& st.in_dim == (decoder_dim as nat) / pow2(k as nat)
                    &&& st.out_dim == (decoder_dim as nat) / pow2((k + 1) as nat)
                    &&& st.out_dim == st.in_dim / 2
                    &&& st.kernel_size == 2 * upsample_rates@[k]
                    &&& st.stride == upsample_rates@[k]
                    &&& st.residual_dilations == [1usize, 3, 9]
                },
            i <= n,
            dim == (decoder_dim as nat) / pow2(i as nat),
            stages@.len() == i,
            forall|k: int|
                0 <= k < i ==> #[trigger] stages@[k] == wave_stage_spec(
                    decoder_dim as nat,
                    upsample_rates@[k] as nat,
                    k as nat,
                ),
        decreases n - i,
    {
        let rate = upsample_rates[i];
        let next = dim / 2;
        proof {
            lemma_pow2_pos(i as nat);
            lemma_pow2_unfold((i + 1) as nat);
            lemma_div_denominator(decoder_dim as int, pow2(i as nat) as int, 2);
            assert(pow2(i as nat) * 2 == pow2((i + 1) as nat));
        }
        stages.push(WaveStagePlan {
            in_dim: dim,
            out_dim: next,
            kernel_size: rate * 2,
            stride: rate,
            residual_dilations: [1, 3, 9],
        });
        dim = next;
        i += 1;
    }
    (stages, dim)
}

/// How many codebook layers the decoder's two residual quantizers hold: one semantic
/// layer and the remaining acoustic ones.
pub fn decoder_quantizer_layers(num_quantizers: usize, num_semantic_quantizers: usize) -> (layers: (usize, usize))
    ensures
        layers.0 == 1,
        layers.1 == if num_quantizers >= num_semantic_quantizers {
            num_quantizers - num_semantic_quantizers
        } else {
            0
        },
{
    (1, num_quantizers.saturating_sub(num_semantic_quantizers))
}

/// The number of output heads of the talker's code predictor: one per code group after the first.
pub fn code_predictor_heads(num_code_groups: usize) -> (heads: usize)
    ensures
        heads == if num_code_groups >= 1 { num_code_groups - 1 } else { 0 },
{
    num_code_groups.saturating_sub(1)
}

/// The code predictor projects talker states only when its width differs from the talker's.
pub fn code_predictor_needs_projection(predictor_hidden_size: usize, talker_hidden_size: usize) -> (b: bool)
    ensures
        b == (predictor_hidden_size != talker_hidden_size),
{
    predictor_hidden_size != talker_hidden_size
}

/// How the decoder's quantizer splits codec token rows: the first
/// `num_semantic_quantizers` rows go to the semantic quantizer, the rest to the acoustic
/// one, which is skipped when no row is left for it. The semantic quantizer's single
/// codebook layer reads the first row, so at least one semantic row is needed.
pub fn decoder_quantizer_split(total_layers: usize, num_semantic_quantizers: usize) -> (split: (usize, usize, bool))
    requires
        1 <= num_semantic_quantizers <= total_layers,
    ensures
        split.0 == num_semantic_quantizers,
        split.1 == total_layers - num_semantic_quantizers,
        split.2 == (split.1 > 0),
        split.0 + split.1 == total_layers,
{
    let acoustic = total_layers - num_semantic_quantizers;
    (num_semantic_quantizers, acoustic, acoustic > 0)
}

/// Grouped-query attention shares key/value heads: the key/value head read by each of
/// the `num_kv_heads * repetitions` query heads, each key/value head serving
/// `repetitions` consecutive query heads.
pub fn repeated_kv_head_sources(num_kv_heads: usize, repetitions: usize) -> (sources: Vec<usize>)
    requires
        num_kv_heads * repetitions <= usize::MAX,
    ensures
        sources@.len() == num_kv_heads * repetitions,
        forall|h: int| 0 <= h < sources@.len() ==> #[trigger] sources@[h] == h / (repetitions as int),
        forall|h: int| 0 <= h < sources@.len() ==> #[trigger] sources@[h] < num_kv_heads,
{
    let mut sources: Vec<usize> = Vec::new();
    let mut kv: usize = 0;
    while kv < num_kv_heads
        invariant
            num_kv_heads * repetitions <= usize::MAX,
            kv <= num_kv_heads,
            sources@.len() == kv * repetitions,
            forall|h: int| 0 <= h < sources@.len() ==> #[trigger] sources@[h] == h / (repetitions as int),
            forall|h: int| 0 <= h < sources@.len() ==> #[trigger] sources@[h] < kv,
        decreases num_kv_heads - kv,
    {
        let mut r: usize = 0;
        proof {
            assert(kv * repetitions + repetitions <= num_kv_heads * repetitions) by (nonlinear_arith)
                requires kv < num_kv_heads;
        }
        while r < repetitions
            invariant
                kv < num_kv_heads,
                kv * repetitions + repetitions <= num_kv_heads * repetitions,
                r <= repetitions,
                sources@.len() == kv * repetitions + r,
                forall|h: int| 0 <= h < sources@.len() ==> #[trigger] sources@[h] == h / (repetitions as int),
                forall|h: int| 0 <= h < sources@.len() ==> #[trigger] sources@[h] < kv + 1,
            decreases repetitions - r,
        {
            proof {
                let h = kv * repetitions + r;
                assert(h / (repetitions as int) == kv as int) by (nonlinear_arith)
                    requires h == kv * repetitions + r, r < repetitions;
            }
            sources.push(kv);
            r += 1;
        }
        proof {
            assert(sources@.len() == (kv + 1) * repetitions) by (nonlinear_arith)
                requires sources@.len() == kv * repetitions + repetitions;
        }
        kv += 1;
    }
    sources
}

/// One entry of the codec's wave decoder.
#[derive(Debug, Clone, Copy, PartialEq, Eq)]
pub enum WaveDecoderEntry {
    /// Convolution from the latent width into the decoder width, causally padded on the left.
    InputConv { in_channels: usize, out_channels: usize, kernel_size: usize, pad_left: usize },
    /// An upsampling stage.
    UpsampleStage(WaveStagePlan),
    /// Snake activation over the channels left after the stages.
    OutputActivation { channels: usize },
    /// Convolution down to the single audio channel, causally padded on the left.
    OutputConv { in_channels: usize, out_channels: usize, kernel_size: usize, pad_left: usize },
}

/// One upsampling block between the decoder's pre-transformer and its wave decoder: a
/// causal transposed convolution over `channels` with kernel and stride `ratio`, then a
/// ConvNeXt block with a depthwise kernel of 7 and a pointwise hidden width of
/// `convnext_hidden`.
#[derive(Debug, Clone, Copy, PartialEq, Eq, Structural)]
pub struct UpsampleBlockPlan {
    pub channels: usize,
    pub ratio: usize,
    pub convnext_hidden: usize,
}

/// The parts of the codec decoder that depend on its configuration.
#[derive(Debug, Clone, PartialEq, Eq)]
pub struct DecoderPlan {
    /// Input width of the causal pre-convolution (kernel 3): the codebook width.
    pub pre_conv_in: usize,
    /// Output width of the pre-convolution: the latent width.
    pub pre_conv_out: usize,
    pub upsample: Vec<UpsampleBlockPlan>,
    pub wave_decoder: Vec<WaveDecoderEntry>,
    /// Codebook layers of the semantic residual quantizer.
    pub semantic_layers: usize,
    /// Codebook layers of the acoustic residual quantizer.
    pub acoustic_layers: usize,
}

/// Builds the decoder's layout: the pre-convolution, one upsampling block per
/// upsampling ratio, the wave decoder (an input convolution, one stage per upsample
/// rate, an output activation and an output convolution) and the quantizer layer counts.
pub fn decoder_layer_plan(
    latent_dim: usize,
    codebook_dim: usize,
    decoder_dim: usize,
    upsample_rates: &[usize],
    upsampling_ratios: &[usize],
    num_quantizers: usize,
    num_semantic_quantizers: usize,
) -> (p: DecoderPlan)
    requires
        pow2(upsample_rates@.len()) <= usize::MAX,
        forall|i: int| 0 <= i < upsample_rates@.len() ==> #[trigger] upsample_rates@[i] * 2 <= usize::MAX,
        latent_dim * 4 <= usize::MAX,
    ensures
        p.pre_conv_in == codebook_dim,
        p.pre_conv_out == latent_dim,
        p.upsample@.len() == upsampling_ratios@.len(),
        forall|i: int|
            0 <= i < upsampling_ratios@.len() ==> #[trigger] p.upsample@[i] == (UpsampleBlockPlan {
                channels: latent_dim,
                ratio: upsampling_ratios@[i],
                convnext_hidden: (latent_dim * 4) as usize,
            }),
        p.wave_decoder@.len() == upsample_rates@.len() + 3,
        p.wave_decoder@[0] == (WaveDecoderEntry::InputConv {
            in_channels: latent_dim,
            out_channels: decoder_dim,
            kernel_size: 7,
            pad_left: 6,
        }),
        forall|i: int|
            0 <= i < upsample_rates@.len() ==> #[trigger] p.wave_decoder@[1 + i] == WaveDecoderEntry::UpsampleStage(
                wave_stage_spec(decoder_dim as nat, upsample_rates@[i] as nat, i as nat),
            ),
        forall|i: int|
            0 <= i < upsample_rates@.len() ==> (#[trigger] p.wave_decoder@[1 + i] matches WaveDecoderEntry::UpsampleStage(
                st,
            ) && st.in_dim == (decoder_dim as nat) / pow2(i as nat) && st.out_dim == (decoder_dim as nat) / pow2(
                (i + 1) as nat,
            ) && st.kernel_size == 2 * upsample_rates@[i] && st.stride == upsample_rates@[i]
                && st.residual_dilations == [1usize, 3, 9]),
        p.wave_decoder@[upsample_rates@.len() + 1int] == (WaveDecoderEntry::OutputActivation {
            channels: ((decoder_dim as nat) / pow2(upsample_rates@.len())) as usize,
        }),
        p.wave_decoder@[upsample_rates@.len() + 2int] == (WaveDecoderEntry::OutputConv {
            in_channels: ((decoder_dim as nat) / pow2(upsample_rates@.len())) as usize,
            out_channels: 1,
            kernel_size: 7,
            pad_left: 6,
        }),
        p.semantic_layers == 1,
        p.acoustic_layers == if num_quantizers >= num_semantic_quantizers {
            num_quantizers - num_semantic_quantizers
        } else {
            0
        },
{
    let (stages, output_dim) = wave_decoder_plan(decoder_dim, upsample_rates);
    let n = upsample_rates.len();
    let mut wave_decoder: Vec<WaveDecoderEntry> = Vec::new();
    wave_decoder.push(WaveDecoderEntry::InputConv {
        in_channels: latent_dim,
        out_channels: decoder_dim,
        kernel_size: 7,
        pad_left: 6,
    });
    let mut i: usize = 0;
    while i < n
        invariant
            n == upsample_rates@.len(),
            stages@.len() == n,
            forall|k: int|
                0 <= k < n ==> #[trigger] stages@[k] == wave_stage_spec(
                    decoder_dim as nat,
                    upsample_rates@[k] as nat,
                    k as nat,
                ),
            i <= n,
            wave_decoder@.len() == 1 + i,
            wave_decoder@[0] == (WaveDecoderEntry::InputConv {
                in_channels: latent_dim,
                out_channels: decoder_dim,
                kernel_size: 7,
                pad_left: 6,
            }),
            forall|k: int|
                0 <= k < i ==> #[trigger] wave_decoder@[1 + k] == WaveDecoderEntry::UpsampleStage(
                    wave_stage_spec(decoder_dim as nat, upsample_rates@[k] as nat, k as nat),
                ),
        decreases n - i,
    {
        wave_decoder.push(WaveDecoderEntry::UpsampleStage(stages[i]));
        i += 1;
    }
    wave_decoder.push(WaveDecoderEntry::OutputActivation { channels: output_dim });
    wave_decoder.push(WaveDecoderEntry::OutputConv {
        in_channels: output_dim,
        out_channels: 1,
        kernel_size: 7,
        pad_left: 6,
    });
    let mut upsample: Vec<UpsampleBlockPlan> = Vec::new();
    let mut j: usize = 0;
    while j < upsampling_ratios.len()
        invariant
            latent_dim * 4 <= usize::MAX,
            j <= upsampling_ratios@.len(),
            upsample@.len() == j,
            forall|k: int|
                0 <= k < j ==> #[trigger] upsample@[k] == (UpsampleBlockPlan {
                    channels: latent_dim,
                    ratio: upsampling_ratios@[k],
                    convnext_hidden: (latent_dim * 4) as usize,
                }),
        decreases upsampling_ratios@.len() - j,
    {
        upsample.push(UpsampleBlockPlan { channels: latent_dim, ratio: upsampling_ratios[j], convnext_hidden: latent_dim * 4 });
        j += 1;
    }
    proof {
        assert forall|i: int| 0 <= i < upsample_rates@.len() implies (#[trigger] wave_decoder@[1 + i] matches WaveDecoderEntry::UpsampleStage(
            st,
        ) && st.in_dim == (decoder_dim as nat) / pow2(i as nat) && st.out_dim == (decoder_dim as nat) / pow2(
            (i + 1) as nat,
        ) && st.kernel_size == 2 * upsample_rates@[i] && st.stride == upsample_rates@[i]
            && st.residual_dilations == [1usize, 3, 9]) by {
            assert(wave_decoder@[1 + i] == WaveDecoderEntry::UpsampleStage(stages@[i]));
        }
    }
    let (semantic_layers, acoustic_layers) = decoder_quantizer_layers(num_quantizers, num_semantic_quantizers);
    DecoderPlan {
        pre_conv_in: codebook_dim,
        pre_conv_out: latent_dim,
        upsample,
        wave_decoder,
        semantic_layers,
        acoustic_layers,
    }
}

} // verus!
