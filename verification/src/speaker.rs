use vstd::prelude::*;

use vstd::string::StringExecFns;

use crate::conv::same_padding;
use crate::error::Qwen3TtsLoadError;

verus! {

/// Shape settings of the ECAPA-style speaker encoder.
#[derive(Debug, Clone)]
pub struct SpeakerEncoderConfig {
    pub mel_dim: usize,
    pub enc_dim: usize,
    pub enc_channels: Vec<usize>,
    pub enc_kernel_sizes: Vec<usize>,
    pub enc_dilations: Vec<usize>,
    pub enc_attention_channels: usize,
    pub enc_res2net_scale: usize,
    pub enc_se_channels: usize,
    pub sample_rate: u32,
}

pub fn default_mel_dim() -> (n: usize)
    ensures
        n == 128,
{
    128
}

pub fn default_enc_dim() -> (n: usize)
    ensures
        n == 1024,
{
    1024
}

pub fn default_enc_channels() -> (v: Vec<usize>)
    ensures
        v@ == seq![512usize, 512, 512, 512, 1536],
{
    vec![512, 512, 512, 512, 1536]
}

pub fn default_enc_kernel_sizes() -> (v: Vec<usize>)
    ensures
        v@ == seq![5usize, 3, 3, 3, 1],
{
    vec![5, 3, 3, 3, 1]
}

pub fn default_enc_dilations() -> (v: Vec<usize>)
    ensures
        v@ == seq![1usize, 2, 3, 4, 1],
{
    vec![1, 2, 3, 4, 1]
}

pub fn default_enc_attention_channels() -> (n: usize)
    ensures
        n == 128,
{
    128
}

pub fn default_enc_res2net_scale() -> (n: usize)
    ensures
        n == 8,
{
    8
}

pub fn default_enc_se_channels() -> (n: usize)
    ensures
        n == 128,
{
    128
}

pub fn default_speaker_sample_rate() -> (n: u32)
    ensures
        n == 24_000,
{
    24_000
}

/// The settings of the released checkpoints, used for every field a configuration omits.
pub open spec fn is_default_speaker_config(c: SpeakerEncoderConfig) -> bool {
    &&& c.mel_dim == 128
    &&& c.enc_dim == 1024
    &&& c.enc_channels@ == seq![512usize, 512, 512, 512, 1536]
    &&& c.enc_kernel_sizes@ == seq![5usize, 3, 3, 3, 1]
    &&& c.enc_dilations@ == seq![1usize, 2, 3, 4, 1]
    &&& c.enc_attention_channels == 128
    &&& c.enc_res2net_scale == 8
    &&& c.enc_se_channels == 128
    &&& c.sample_rate == 24_000
}

impl Default for SpeakerEncoderConfig {
    fn default() -> (c: Self)
        ensures
            is_default_speaker_config(c),
    {
        SpeakerEncoderConfig {
            mel_dim: default_mel_dim(),
            enc_dim: default_enc_dim(),
            enc_channels: default_enc_channels(),
            enc_kernel_sizes: default_enc_kernel_sizes(),
            enc_dilations: default_enc_dilations(),
            enc_attention_channels: default_enc_attention_channels(),
            enc_res2net_scale: default_enc_res2net_scale(),
            enc_se_channels: default_enc_se_channels(),
            sample_rate: default_speaker_sample_rate(),
        }
    }
}

/// A time-delay block: a dilated convolution over reflect-padded time, keeping the length.
#[derive(Debug, Clone, Copy, PartialEq, Eq, Structural)]
pub struct TdnnLayout {
    pub in_channels: usize,
    pub out_channels: usize,
    pub kernel_size: usize,
    pub dilation: usize,
    pub pad_left: usize,
    pub pad_right: usize,
}

pub open spec fn tdnn_layout_spec(in_channels: nat, out_channels: nat, kernel_size: nat, dilation: nat) -> TdnnLayout {
    let total = dilation * (kernel_size - 1);
    TdnnLayout {
        in_channels: in_channels as usize,
        out_channels: out_channels as usize,
        kernel_size: kernel_size as usize,
        dilation: dilation as usize,
        pad_left: (total / 2) as usize,
        pad_right: (total - total / 2) as usize,
    }
}

/// A squeeze-excitation Res2Net block: a pointwise TDNN, `scale - 1` chained TDNN
/// branches over channel chunks of `channels / scale`, a pointwise TDNN and a
/// squeeze-excitation gate through `se_channels`.
#[derive(Debug, Clone, Copy, PartialEq, Eq, Structural)]
pub struct SeRes2NetLayout {
    pub channels: usize,
    pub tdnn_in: TdnnLayout,
    pub chunk_size: usize,
    pub branches: usize,
    pub branch: TdnnLayout,
    pub tdnn_out: TdnnLayout,
    pub se_channels: usize,
}

pub open spec fn se_res2net_layout_spec(channels: nat, kernel_size: nat, dilation: nat, scale: nat, se_channels: nat) -> SeRes2NetLayout {
    let chunk = channels / scale;
    SeRes2NetLayout {
        channels: channels as usize,
        tdnn_in: tdnn_layout_spec(channels, channels, 1, 1),
        chunk_size: chunk as usize,
        branches: (scale - 1) as usize,
        branch: tdnn_layout_spec(chunk, chunk, kernel_size, dilation),
        tdnn_out: tdnn_layout_spec(channels, channels, 1, 1),
        se_channels: se_channels as usize,
    }
}

/// TDNN law: a time-delay block maps its input channels to its output channels with
/// the given kernel and dilation, and pads the dilated kernel span minus one in total,
/// the larger half on the right.
pub proof fn lemma_tdnn_layout_fields(in_channels: nat, out_channels: nat, kernel_size: nat, dilation: nat)
    requires
        in_channels <= usize::MAX,
        out_channels <= usize::MAX,
        kernel_size >= 1,
        kernel_size <= usize::MAX,
        dilation <= usize::MAX,
        dilation * (kernel_size - 1) <= usize::MAX,
    ensures
        ({
            let t = tdnn_layout_spec(in_channels, out_channels, kernel_size, dilation);
            &&& t.in_channels == in_channels
            &&& t.out_channels == out_channels
            &&& t.kernel_size == kernel_size
            &&& t.dilation == dilation
            &&& t.pad_left + t.pad_right == dilation * (kernel_size - 1)
            &&& t.pad_left <= t.pad_right <= t.pad_left + 1
        }),
{
}

/// SE-Res2Net law: a block of `channels` channels splits them into `scale` chunks of
/// `channels / scale`; each of its `scale - 1` branch TDNNs maps one chunk to one chunk
/// with the block's kernel and dilation, and the two pointwise TDNNs keep all channels.
pub proof fn lemma_se_res2net_layout_fields(channels: nat, kernel_size: nat, dilation: nat, scale: nat, se_channels: nat)
    requires
        channels <= usize::MAX,
        kernel_size >= 1,
        kernel_size <= usize::MAX,
        dilation <= usize::MAX,
        dilation * (kernel_size - 1) <= usize::MAX,
        scale >= 1,
        scale <= usize::MAX,
        se_channels <= usize::MAX,
    ensures
        ({
            let b = se_res2net_layout_spec(channels, kernel_size, dilation, scale, se_channels);
            &&& b.channels == channels
            &&& b.chunk_size == channels / scale
            &&& b.branch.in_channels == channels / scale
            &&& b.branch.out_channels == channels / scale
            &&& b.branch.kernel_size == kernel_size
            &&& b.branch.dilation == dilation
            &&& b.branch.pad_left + b.branch.pad_right == dilation * (kernel_size - 1)
            &&& b.branches + 1 == scale
            &&& b.tdnn_in.in_channels == channels && b.tdnn_in.out_channels == channels
            &&& b.tdnn_in.kernel_size == 1
            &&& b.tdnn_out.in_channels == channels && b.tdnn_out.out_channels == channels
            &&& b.tdnn_out.kernel_size == 1
            &&& b.se_channels == se_channels
        }),
{
    assert(channels / scale <= channels) by {
        vstd::arithmetic::div_mod::lemma_div_is_ordered_by_denominator(channels as int, 1, scale as int);
    }
    lemma_tdnn_layout_fields(channels / scale, channels / scale, kernel_size, dilation);
    lemma_tdnn_layout_fields(channels, channels, 1, 1);
}

/// The shapes of the speaker encoder's modules.
#[derive(Debug, Clone, PartialEq, Eq)]
pub struct SpeakerEncoderLayout {
    pub initial: TdnnLayout,
    pub blocks: Vec<SeRes2NetLayout>,
    /// Multi-layer feature aggregation over the concatenated block outputs.
    pub mfa: TdnnLayout,
    /// Attentive statistics pooling: a TDNN over `[x, mean, std]` into the attention
    /// channels, then a pointwise convolution back to `pooling_channels`.
    pub pooling_channels: usize,
    pub pooling_tdnn: TdnnLayout,
    pub fc_in: usize,
    pub fc_out: usize,
}

/// Every size the layout derives from the configuration fits `usize`, and every
/// kernel and the Res2Net scale are positive.
pub open spec fn speaker_config_in_range(c: SpeakerEncoderConfig) -> bool {
    &&& c.enc_channels@.len() >= 5
    &&& c.enc_kernel_sizes@.len() >= 5
    &&& c.enc_dilations@.len() >= 5
    &&& c.enc_res2net_scale >= 1
    &&& forall|i: int| 0 <= i < 5 ==> #[trigger] c.enc_kernel_sizes@[i] >= 1
    &&& forall|i: int| 0 <= i < 5 ==> c.enc_dilations@[i] * (#[trigger] c.enc_kernel_sizes@[i] - 1) <= usize::MAX
    &&& c.enc_channels@[1] + c.enc_channels@[2] + c.enc_channels@[3] <= usize::MAX
    &&& c.enc_channels@[4] * 3 <= usize::MAX
}

fn tdnn_layout(in_channels: usize, out_channels: usize, kernel_size: usize, dilation: usize) -> (t: TdnnLayout)
    requires
        kernel_size >= 1,
        dilation * (kernel_size - 1) <= usize::MAX,
    ensures
        t == tdnn_layout_spec(in_channels as nat, out_channels as nat, kernel_size as nat, dilation as nat),
{
    let (pad_left, pad_right) = same_padding(kernel_size, dilation);
    TdnnLayout { in_channels, out_channels, kernel_size, dilation, pad_left, pad_right }
}

/// Derives the speaker encoder's module shapes: an initial TDNN from the mel bins,
/// three SE-Res2Net blocks (configuration entries 1 to 3), a feature aggregation TDNN
/// over their concatenated outputs, attentive statistics pooling, and a pointwise
/// projection of the pooled mean and deviation to the embedding size.
pub fn speaker_encoder_layout(config: &SpeakerEncoderConfig) -> (layout: SpeakerEncoderLayout)
    requires
        speaker_config_in_range(*config),
    ensures
        layout.initial == tdnn_layout_spec(
            config.mel_dim as nat,
            config.enc_channels@[0] as nat,
            config.enc_kernel_sizes@[0] as nat,
            config.enc_dilations@[0] as nat,
        ),
        layout.mfa == tdnn_layout_spec(
            (config.enc_channels@[1] + config.enc_channels@[2] + config.enc_channels@[3]) as nat,
            config.enc_channels@[4] as nat,
            config.enc_kernel_sizes@[4] as nat,
            config.enc_dilations@[4] as nat,
        ),
        layout.pooling_channels == config.enc_channels@[4],
        layout.pooling_tdnn == tdnn_layout_spec(
            (config.enc_channels@[4] * 3) as nat,
            config.enc_attention_channels as nat,
            1,
            1,
        ),
        layout.fc_in == config.enc_channels@[4] * 2,
        layout.fc_out == config.enc_dim,
        layout.blocks@.len() == 3,
        forall|i: int|
            1 <= i < 4 ==> #[trigger] layout.blocks@[i - 1] == se_res2net_layout_spec(
                config.enc_channels@[i] as nat,
                config.enc_kernel_sizes@[i] as nat,
                config.enc_dilations@[i] as nat,
                config.enc_res2net_scale as nat,
                config.enc_se_channels as nat,
            ),
        layout.initial.in_channels == config.mel_dim,
        layout.initial.out_channels == config.enc_channels@[0],
        layout.initial.kernel_size == config.enc_kernel_sizes@[0],
        layout.initial.dilation == config.enc_dilations@[0],
        layout.initial.pad_left + layout.initial.pad_right == config.enc_dilations@[0] * (config.enc_kernel_sizes@[0] - 1),
        layout.mfa.in_channels == config.enc_channels@[1] + config.enc_channels@[2] + config.enc_channels@[3],
        layout.mfa.out_channels == config.enc_channels@[4],
        layout.pooling_tdnn.in_channels == config.enc_channels@[4] * 3,
        layout.pooling_tdnn.out_channels == config.enc_attention_channels,
        forall|i: int|
            0 <= i < 3 ==> {
                let block = #[trigger] layout.blocks@[i];
                &&& block.channels == config.enc_channels@[i + 1]
                &&& block.chunk_size == config.enc_channels@[i + 1] / config.enc_res2net_scale
                &&& block.branch.in_channels == block.chunk_size
                &&& block.branch.out_channels == block.chunk_size
                &&& block.branch.kernel_size == config.enc_kernel_sizes@[i + 1]
                &&& block.branch.dilation == config.enc_dilations@[i + 1]
                &&& block.branch.pad_left + block.branch.pad_right == config.enc_dilations@[i + 1] * (
                config.enc_kernel_sizes@[i + 1] - 1)
                &&& block.branches + 1 == config.enc_res2net_scale
                &&& block.tdnn_in.in_channels == block.channels && block.tdnn_in.out_channels == block.channels
                &&& block.tdnn_in.kernel_size == 1
                &&& block.tdnn_out.in_channels == block.channels && block.tdnn_out.out_channels == block.channels
                &&& block.tdnn_out.kernel_size == 1
                &&& block.se_channels == config.enc_se_channels
            },
{
    proof {
        lemma_tdnn_layout_fields(
            config.mel_dim as nat,
            config.enc_channels@[0] as nat,
            config.enc_kernel_sizes@[0] as nat,
            config.enc_dilations@[0] as nat,
        );
    }
    let ch = &config.enc_channels;
    let k = &config.enc_kernel_sizes;
    let d = &config.enc_dilations;
    assert(k@[0] >= 1 && d@[0] * (k@[0] - 1) <= usize::MAX);
    assert(k@[4] >= 1 && d@[4] * (k@[4] - 1) <= usize::MAX);
    let initial = tdnn_layout(config.mel_dim, ch[0], k[0], d[0]);
    let mut blocks: Vec<SeRes2NetLayout> = Vec::new();
    let mut idx: usize = 1;
    while idx < 4
        invariant
            1 <= idx <= 4,
            speaker_config_in_range(*config),
            ch@ == config.enc_channels@,
            k@ == config.enc_kernel_sizes@,
            d@ == config.enc_dilations@,
            blocks@.len() == idx - 1,
            forall|i: int|
                1 <= i < idx ==> #[trigger] blocks@[i - 1] == se_res2net_layout_spec(
                    config.enc_channels@[i] as nat,
                    config.enc_kernel_sizes@[i] as nat,
                    config.enc_dilations@[i] as nat,
                    config.enc_res2net_scale as nat,
                    config.enc_se_channels as nat,
                ),
        decreases 4 - idx,
    {
        assert(k@[idx as int] >= 1 && d@[idx as int] * (k@[idx as int] - 1) <= usize::MAX);
        let channels = ch[idx];
        let scale = config.enc_res2net_scale;
        let chunk_size = channels / scale;
        let block = SeRes2NetLayout {
            channels,
            tdnn_in: tdnn_layout(channels, channels, 1, 1),
            chunk_size,
            branches: scale - 1,
            branch: tdnn_layout(chunk_size, chunk_size, k[idx], d[idx]),
            tdnn_out: tdnn_layout(channels, channels, 1, 1),
            se_channels: config.enc_se_channels,
        };
        blocks.push(block);
        idx += 1;
    }
    proof {
        assert forall|i: int| 0 <= i < 3 implies {
            let block = #[trigger] blocks@[i];
            &&& block.channels == config.enc_channels@[i + 1]
            &&& block.chunk_size == config.enc_channels@[i + 1] / config.enc_res2net_scale
            &&& block.branch.in_channels == block.chunk_size
            &&& block.branch.out_channels == block.chunk_size
            &&& block.branch.kernel_size == config.enc_kernel_sizes@[i + 1]
            &&& block.branch.dilation == config.enc_dilations@[i + 1]
            &&& block.branch.pad_left + block.branch.pad_right == config.enc_dilations@[i + 1] * (
            config.enc_kernel_sizes@[i + 1] - 1)
            &&& block.branches + 1 == config.enc_res2net_scale
            &&& block.tdnn_in.in_channels == block.channels && block.tdnn_in.out_channels == block.channels
            &&& block.tdnn_in.kernel_size == 1
            &&& block.tdnn_out.in_channels == block.channels && block.tdnn_out.out_channels == block.channels
            &&& block.tdnn_out.kernel_size == 1
            &&& block.se_channels == config.enc_se_channels
        } by {
            assert(blocks@[(i + 1) - 1] == blocks@[i]);
            lemma_se_res2net_layout_fields(
                config.enc_channels@[i + 1] as nat,
                config.enc_kernel_sizes@[i + 1] as nat,
                config.enc_dilations@[i + 1] as nat,
                config.enc_res2net_scale as nat,
                config.enc_se_channels as nat,
            );
        }
    }
    let mfa_in_channels = ch[1] + ch[2] + ch[3];
    let last = ch[4];
    SpeakerEncoderLayout {
        initial,
        blocks,
        mfa: tdnn_layout(mfa_in_channels, last, k[4], d[4]),
        pooling_channels: last,
        pooling_tdnn: tdnn_layout(last * 3, config.enc_attention_channels, 1, 1),
        fc_in: last * 2,
        fc_out: config.enc_dim,
    }
}

/// Length of the reflection padding added on each side of the audio before the STFT.
pub fn stft_pad_length(n_fft: usize, hop_length: usize) -> (pad: usize)
    requires
        hop_length <= n_fft,
    ensures
        pad == (n_fft - hop_length) / 2,
{
    (n_fft - hop_length) / 2
}

pub open spec fn clamp_index(i: int, len: int) -> int {
    if i < len - 1 { i } else { len - 1 }
}

/// The sample that lands at position `k` of the STFT input padded by `pad` on each side:
/// mirrored (and clamped) indices on the left, the signal itself, mirrored (and clamped)
/// indices on the right.
pub open spec fn stft_pad_source(len: int, pad: int, k: int) -> int {
    if k < pad {
        clamp_index(pad - k, len)
    } else if k < pad + len {
        k - pad
    } else {
        let j = k - pad - len;
        clamp_index(if len >= 2 + j { len - 2 - j } else { 0 }, len)
    }
}

/// Reflection-pads `samples` by `pad_length` positions on each side, mirroring around
/// the first and last sample; indices that would leave the signal are clamped to it.
pub fn stft_reflect_pad<T: Copy>(samples: &[T], pad_length: usize) -> (padded: Vec<T>)
    requires
        pad_length == 0 || samples@.len() > 0,
        samples@.len() + 2 * pad_length <= usize::MAX,
    ensures
        padded@.len() == samples@.len() + 2 * pad_length,
        forall|k: int|
            0 <= k < padded@.len() ==> #[trigger] padded@[k] == samples@[stft_pad_source(
                samples@.len() as int,
                pad_length as int,
                k,
            )],
        pad_length < samples@.len() ==> forall|k: int|
            0 <= k < padded@.len() ==> #[trigger] padded@[k] == samples@[if k < pad_length {
                pad_length - k
            } else if k < pad_length + samples@.len() {
                k - pad_length
            } else {
                2 * samples@.len() + pad_length - 2 - k
            }],
{
    let len = samples.len();
    let ghost n = len as int;
    let ghost p = pad_length as int;
    let mut padded: Vec<T> = Vec::new();
    let mut i: usize = 0;
    while i < pad_length
        invariant
            len == samples@.len(),
            n == len,
            p == pad_length,
            pad_length == 0 || len > 0,
            i <= pad_length,
            padded@.len() == i,
            forall|k: int| 0 <= k < i ==> #[trigger] padded@[k] == samples@[stft_pad_source(n, p, k)],
        decreases pad_length - i,
    {
        let index = pad_length - i;
        let clamped = if index < len - 1 { index } else { len - 1 };
        padded.push(samples[clamped]);
        i += 1;
    }
    let mut m: usize = 0;
    while m < len
        invariant
            len == samples@.len(),
            n == len,
            p == pad_length,
            m <= len,
            padded@.len() == pad_length + m,
            forall|k: int| 0 <= k < pad_length + m ==> #[trigger] padded@[k] == samples@[stft_pad_source(n, p, k)],
        decreases len - m,
    {
        padded.push(samples[m]);
        m += 1;
    }
    let mut j: usize = 0;
    while j < pad_length
        invariant
            len == samples@.len(),
            n == len,
            p == pad_length,
            pad_length == 0 || len > 0,
            len + 2 * pad_length <= usize::MAX,
            j <= pad_length,
            padded@.len() == pad_length + len + j,
            forall|k: int|
                0 <= k < pad_length + len + j ==> #[trigger] padded@[k] == samples@[stft_pad_source(n, p, k)],
        decreases pad_length - j,
    {
        let index = len.saturating_sub(2 + j);
        let clamped = if index < len - 1 { index } else { len - 1 };
        padded.push(samples[clamped]);
        j += 1;
    }
    padded
}

/// Number of STFT frames over a padded signal: one window at the start and one per
/// whole hop after it.
pub fn stft_frame_count(padded_len: usize, n_fft: usize, hop_length: usize) -> (frames: usize)
    requires
        padded_len >= n_fft,
        hop_length > 0,
        (padded_len - n_fft) / (hop_length as int) < usize::MAX,
    ensures
        frames == (padded_len - n_fft) / (hop_length as int) + 1,
        (frames - 1) * hop_length + n_fft <= padded_len,
        frames * hop_length + n_fft > padded_len,
{
    let frames = (padded_len - n_fft) / hop_length + 1;
    proof {
        let d = (padded_len - n_fft) as int;
        let h = hop_length as int;
        vstd::arithmetic::div_mod::lemma_fundamental_div_mod(d, h);
        vstd::arithmetic::div_mod::lemma_mod_pos_bound(d, h);
        assert((frames - 1) * h == h * (d / h)) by (nonlinear_arith)
            requires frames - 1 == d / h;
        assert(frames * h == h * (d / h) + h) by (nonlinear_arith)
            requires frames - 1 == d / h;
    }
    frames
}

pub open spec fn undeclared_speaker_config_message(config_path: Seq<char>) -> Seq<char> {
    config_path + " does not declare speaker_encoder_config"@
}

pub open spec fn no_speaker_tensors_message(weights_path: Seq<char>) -> Seq<char> {
    weights_path + " did not contain any speaker encoder tensors"@
}

/// A speaker encoder can only be loaded from a package whose configuration (shown as
/// `config_path`) declares a speaker encoder section.
pub fn require_speaker_config(config: Option<SpeakerEncoderConfig>, config_path: &str) -> (r: Result<
    SpeakerEncoderConfig,
    Qwen3TtsLoadError,
>)
    ensures
        config is None <==> r is Err,
        r matches Ok(c) ==> config == Some(c),
        r matches Err(e) ==> e matches Qwen3TtsLoadError::InvalidModelDir { message } && message@
            == undeclared_speaker_config_message(config_path@),
{
    match config {
        Some(c) => Ok(c),
        None => {
            let mut message = String::from_str(config_path);
            message.append(" does not declare speaker_encoder_config");
            Err(Qwen3TtsLoadError::InvalidModelDir { message })
        },
    }
}

/// Loading the speaker encoder's weights (from the file shown as `weights_path`) fails
/// when not a single tensor was applied.
pub fn require_speaker_tensors_applied(applied_count: usize, weights_path: &str) -> (r: Result<
    (),
    Qwen3TtsLoadError,
>)
    ensures
        r is Ok <==> applied_count > 0,
        r matches Err(e) ==> e matches Qwen3TtsLoadError::InvalidModelDir { message } && message@
            == no_speaker_tensors_message(weights_path@),
{
    if applied_count == 0 {
        let mut message = String::from_str(weights_path);
        message.append(" did not contain any speaker encoder tensors");
        return Err(Qwen3TtsLoadError::InvalidModelDir { message });
    }
    Ok(())
}

} // verus!
