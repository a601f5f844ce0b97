use vstd::prelude::*;
use vstd::string::StringExecFns;

use crate::error::{decimal, push_decimal, Qwen3TtsInferenceError};

verus! {

/// The ELU activation between the audio codec encoder's convolutions.
#[derive(Debug, Clone, Copy, PartialEq, Eq, Structural)]
pub struct Qwen3TtsAudioCodecEncoderActivation;

/// Kernel of the encoder's final downsampling convolution: twice the downsampling factor.
pub fn derive_encoder_downsample_kernel(downsample_factor: usize) -> (k: usize)
    requires
        downsample_factor * 2 <= usize::MAX,
    ensures
        k == downsample_factor * 2,
{
    downsample_factor * 2
}

pub open spec fn empty_codec_batch_message() -> Seq<char> {
    "codec batch size must be non-zero"@
}

pub open spec fn codec_layer_mismatch_message(found: nat, expected: nat) -> Seq<char> {
    "codec token count "@ + decimal(found) + " doesn't match expected "@ + decimal(expected)
        + " quantizer layers"@
}

/// Checks codec token ids of shape `[batch, num_quantizers, time]` before decoding:
/// the batch must be non-empty and carry one row per decoder quantizer layer.
pub fn validate_codec_input_3d(dims: [usize; 3], expected_num_quantizers: usize) -> (r: Result<(), Qwen3TtsInferenceError>)
    ensures
        dims[0] == 0 ==> (r matches Err(e) && e.is_invalid_input_with(empty_codec_batch_message())),
        dims[0] != 0 && dims[1] != expected_num_quantizers ==> (r matches Err(e) && e.is_invalid_input_with(
            codec_layer_mismatch_message(dims[1] as nat, expected_num_quantizers as nat),
        )),
        dims[0] != 0 && dims[1] == expected_num_quantizers ==> r is Ok,
{
    if dims[0] == 0 {
        return Err(Qwen3TtsInferenceError::InvalidInput {
            message: String::from_str("codec batch size must be non-zero"),
        });
    }
    if dims[1] != expected_num_quantizers {
        let mut message = String::from_str("codec token count ");
        push_decimal(&mut message, dims[1] as u64);
        message.append(" doesn't match expected ");
        push_decimal(&mut message, expected_num_quantizers as u64);
        message.append(" quantizer layers");
        return Err(Qwen3TtsInferenceError::InvalidInput { message });
    }
    Ok(())
}

pub open spec fn zero_rate_message() -> Seq<char> {
    "waveform sample rate must be non-zero"@
}

pub open spec fn empty_layout_message(batch: nat, channels: nat) -> Seq<char> {
    "waveform batch/channels must be non-zero, got batch="@ + decimal(batch) + ", channels="@
        + decimal(channels)
}

pub open spec fn empty_payload_message() -> Seq<char> {
    "waveform sample payload must be non-empty"@
}

pub open spec fn ragged_payload_message(len: nat, batch: nat, channels: nat) -> Seq<char> {
    "waveform element mismatch: "@ + decimal(len) + " samples do not fit batch="@ + decimal(batch)
        + ", channels="@ + decimal(channels)
}

/// The first problem with a waveform's shape, in the order they are checked.
pub open spec fn waveform_shape_problem(sample_rate: nat, batch: nat, channels: nat, len: nat) -> Option<Seq<char>> {
    if sample_rate == 0 {
        Some(zero_rate_message())
    } else if batch == 0 || channels == 0 {
        Some(empty_layout_message(batch, channels))
    } else if len == 0 {
        Some(empty_payload_message())
    } else if len % (batch * channels) != 0 {
        Some(ragged_payload_message(len, batch, channels))
    } else {
        None
    }
}

/// The shape of a decoded waveform: its sample rate, batch and channel counts and the
/// number of samples, which splits evenly over the batch and the channels.
#[derive(Debug, Clone, Copy, PartialEq, Eq, Structural)]
pub struct WaveformShape {
    sample_rate: u32,
    batch_size: usize,
    channels: usize,
    sample_count: usize,
}

impl WaveformShape {
    pub closed spec fn rate(&self) -> nat {
        self.sample_rate as nat
    }

    pub closed spec fn batch(&self) -> nat {
        self.batch_size as nat
    }

    pub closed spec fn channel_count(&self) -> nat {
        self.channels as nat
    }

    pub closed spec fn len(&self) -> nat {
        self.sample_count as nat
    }

    /// Checks a waveform of `sample_count` samples laid out over `batch_size` and `channels`.
    pub fn new(sample_rate: u32, batch_size: usize, channels: usize, sample_count: usize) -> (r: Result<
        WaveformShape,
        Qwen3TtsInferenceError,
    >)
        requires
            batch_size * channels <= usize::MAX,
        ensures
            match waveform_shape_problem(sample_rate as nat, batch_size as nat, channels as nat, sample_count as nat) {
                None => r matches Ok(w) && w.rate() == sample_rate && w.batch() == batch_size
                    && w.channel_count() == channels && w.len() == sample_count,
                Some(text) => r matches Err(e) && e.is_invalid_input_with(text),
            },
            r is Ok <==> (sample_rate > 0 && batch_size > 0 && channels > 0 && sample_count > 0 && (sample_count as int) % (
            (batch_size * channels) as int) == 0),
    {
        if sample_rate == 0 {
            return Err(Qwen3TtsInferenceError::InvalidInput {
                message: String::from_str("waveform sample rate must be non-zero"),
            });
        }
        if batch_size == 0 || channels == 0 {
            let mut message = String::from_str("waveform batch/channels must be non-zero, got batch=");
            push_decimal(&mut message, batch_size as u64);
            message.append(", channels=");
            push_decimal(&mut message, channels as u64);
            return Err(Qwen3TtsInferenceError::InvalidInput { message });
        }
        if sample_count == 0 {
            return Err(Qwen3TtsInferenceError::InvalidInput {
                message: String::from_str("waveform sample payload must be non-empty"),
            });
        }
        let per_frame = batch_size * channels;
        assert(per_frame > 0) by (nonlinear_arith)
            requires batch_size > 0, channels > 0, per_frame == batch_size * channels;
        if sample_count % per_frame != 0 {
            let mut message = String::from_str("waveform element mismatch: ");
            push_decimal(&mut message, sample_count as u64);
            message.append(" samples do not fit batch=");
            push_decimal(&mut message, batch_size as u64);
            message.append(", channels=");
            push_decimal(&mut message, channels as u64);
            return Err(Qwen3TtsInferenceError::InvalidInput { message });
        }
        Ok(WaveformShape { sample_rate, batch_size, channels, sample_count })
    }

    pub fn sample_rate(&self) -> (r: u32)
        ensures
            r == self.rate(),
    {
        self.sample_rate
    }

    pub fn batch_size(&self) -> (r: usize)
        ensures
            r == self.batch(),
    {
        self.batch_size
    }

    pub fn channels(&self) -> (r: usize)
        ensures
            r == self.channel_count(),
    {
        self.channels
    }

    pub fn sample_count(&self) -> (r: usize)
        ensures
            r == self.len(),
    {
        self.sample_count
    }
}

pub open spec fn quantizer_input_message(batch: nat, hidden: nat, time: nat) -> Seq<char> {
    "semantic quantizer expects [1, hidden, time] with non-zero dims, got ["@ + decimal(batch) + ", "@
        + decimal(hidden) + ", "@ + decimal(time) + "]"@
}

pub open spec fn codebook_shape_message() -> Seq<char> {
    "semantic codebook tensor shapes are inconsistent"@
}

/// Checks the input of an encoder vector quantization layer: activations of shape
/// `[1, hidden, time]` with non-zero dims, and a non-empty codebook of
/// `codebook_size` entries whose flattened embedding sums hold `hidden` values per entry.
pub fn validate_quantizer_input(hidden_dims: [usize; 3], codebook_size: usize, embed_sum_len: usize) -> (r: Result<
    (),
    Qwen3TtsInferenceError,
>)
    requires
        (hidden_dims[0] == 1 && hidden_dims[1] != 0 && hidden_dims[2] != 0) ==> codebook_size * hidden_dims[1]
            <= usize::MAX,
    ensures
        (hidden_dims[0] != 1 || hidden_dims[1] == 0 || hidden_dims[2] == 0) ==> (r matches Err(e)
            && e.is_invalid_input_with(
            quantizer_input_message(hidden_dims[0] as nat, hidden_dims[1] as nat, hidden_dims[2] as nat),
        )),
        !(hidden_dims[0] != 1 || hidden_dims[1] == 0 || hidden_dims[2] == 0) && (codebook_size == 0
            || embed_sum_len != codebook_size * hidden_dims[1]) ==> (r matches Err(e) && e.is_invalid_input_with(
            codebook_shape_message(),
        )),
        r is Ok <==> (hidden_dims[0] == 1 && hidden_dims[1] != 0 && hidden_dims[2] != 0 && codebook_size != 0
            && embed_sum_len == codebook_size * hidden_dims[1]),
{
    if hidden_dims[0] != 1 || hidden_dims[1] == 0 || hidden_dims[2] == 0 {
        let mut message = String::from_str("semantic quantizer expects [1, hidden, time] with non-zero dims, got [");
        push_decimal(&mut message, hidden_dims[0] as u64);
        message.append(", ");
        push_decimal(&mut message, hidden_dims[1] as u64);
        message.append(", ");
        push_decimal(&mut message, hidden_dims[2] as u64);
        message.append("]");
        return Err(Qwen3TtsInferenceError::InvalidInput { message });
    }
    if codebook_size == 0 || embed_sum_len != codebook_size * hidden_dims[1] {
        return Err(Qwen3TtsInferenceError::InvalidInput {
            message: String::from_str("semantic codebook tensor shapes are inconsistent"),
        });
    }
    Ok(())
}

} // verus!
