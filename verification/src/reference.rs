use vstd::prelude::*;
use vstd::string::StringExecFns;
use vstd::arithmetic::div_mod::{lemma_fundamental_div_mod, lemma_div_multiples_vanish};

use crate::error::{decimal, push_decimal, push_signed_decimal, signed_decimal, Qwen3TtsInferenceError};

verus! {

/// Whether `v` is a value of `i32`.
pub open spec fn fits_i32(v: int) -> bool {
    i32::MIN <= v <= i32::MAX
}

/// Quantizer `group` of reference frame `frame` exists and fits the model's token type.
pub open spec fn frame_cell_ok(frames: Seq<Vec<i64>>, group: int, frame: int) -> bool {
    &&& group < frames[frame]@.len()
    &&& fits_i32(frames[frame]@[group] as int)
}

/// Every frame carries at least `num_quantizers` tokens, each of which fits `i32`.
pub open spec fn all_frame_cells_ok(frames: Seq<Vec<i64>>, num_quantizers: int) -> bool {
    forall|g: int, f: int|
        0 <= g < num_quantizers && 0 <= f < frames.len() ==> #[trigger] frame_cell_ok(frames, g, f)
}

/// `(group, frame)` is the first cell, in quantizer-major order, that is missing or out of range.
pub open spec fn first_bad_frame_cell(
    frames: Seq<Vec<i64>>,
    num_quantizers: int,
    group: int,
    frame: int,
) -> bool {
    &&& 0 <= group < num_quantizers
    &&& 0 <= frame < frames.len()
    &&& !frame_cell_ok(frames, group, frame)
    &&& forall|g: int, f: int|
        0 <= g < group && 0 <= f < frames.len() ==> #[trigger] frame_cell_ok(frames, g, f)
    &&& forall|f: int| 0 <= f < frame ==> #[trigger] frame_cell_ok(frames, group, f)
}

pub open spec fn short_frame_message(frame: nat, len: nat, num_quantizers: nat) -> Seq<char> {
    "reference codec frame "@ + decimal(frame) + " has "@ + decimal(len)
        + " quantizers, expected at least "@ + decimal(num_quantizers)
}

pub open spec fn wide_token_message(value: int, frame: nat, group: nat) -> Seq<char> {
    "reference codec token "@ + signed_decimal(value) + " at frame "@ + decimal(frame)
        + ", quantizer "@ + decimal(group) + " does not fit i32"@
}

/// The message reported for the bad cell `(group, frame)`.
pub open spec fn bad_frame_cell_message(
    frames: Seq<Vec<i64>>,
    num_quantizers: int,
    group: int,
    frame: int,
) -> Seq<char> {
    if group >= frames[frame]@.len() {
        short_frame_message(frame as nat, frames[frame]@.len(), num_quantizers as nat)
    } else {
        wide_token_message(frames[frame]@[group] as int, frame as nat, group as nat)
    }
}

/// Position of quantizer `group` of frame `frame` in the quantizer-major layout.
pub open spec fn quantizer_major_index(group: int, frame: int, num_frames: int) -> int {
    group * num_frames + frame
}

proof fn lemma_quantizer_major_bounds(g: int, f: int, g2: int, f2: int, n: int)
    requires
        0 <= f < n,
        0 <= f2 < n,
        0 <= g,
        0 <= g2,
        g < g2 || (g == g2 && f < f2),
    ensures
        0 <= g * n + f < g2 * n + f2,
{
    assert(0 <= g * n) by (nonlinear_arith)
        requires 0 <= g, 0 <= n;
    if g < g2 {
        assert(g * n + n <= g2 * n) by (nonlinear_arith)
            requires g < g2, 0 <= n;
    }
}

fn short_frame_error(frame: usize, len: usize, num_quantizers: usize) -> (e: Qwen3TtsInferenceError)
    ensures
        e.is_invalid_input_with(short_frame_message(frame as nat, len as nat, num_quantizers as nat)),
{
    let mut message = String::from_str("reference codec frame ");
    push_decimal(&mut message, frame as u64);
    message.append(" has ");
    push_decimal(&mut message, len as u64);
    message.append(" quantizers, expected at least ");
    push_decimal(&mut message, num_quantizers as u64);
    Qwen3TtsInferenceError::InvalidInput { message }
}

fn wide_token_error(value: i64, frame: usize, group: usize) -> (e: Qwen3TtsInferenceError)
    ensures
        e.is_invalid_input_with(wide_token_message(value as int, frame as nat, group as nat)),
{
    let mut message = String::from_str("reference codec token ");
    push_signed_decimal(&mut message, value);
    message.append(" at frame ");
    push_decimal(&mut message, frame as u64);
    message.append(", quantizer ");
    push_decimal(&mut message, group as u64);
    message.append(" does not fit i32");
    Qwen3TtsInferenceError::InvalidInput { message }
}

/// Lays reference codec frames out quantizer-major: all frames' first quantizer
/// token, then all frames' second quantizer token, and so on.
///
/// Fails on the first cell, in that order, whose frame is too short or whose
/// token does not fit `i32`.
pub fn flatten_reference_codec_frames(
    reference_codec_frames: &[Vec<i64>],
    num_quantizers: usize,
) -> (r: Result<Vec<i32>, Qwen3TtsInferenceError>)
    ensures
        r is Ok <==> all_frame_cells_ok(reference_codec_frames@, num_quantizers as int),
        r matches Ok(flat) ==> {
            &&& flat@.len() == num_quantizers * reference_codec_frames@.len()
            &&& forall|g: int, f: int|
                0 <= g < num_quantizers && 0 <= f < reference_codec_frames@.len()
                    ==> flat@[quantizer_major_index(g, f, reference_codec_frames@.len() as int)]
                    == reference_codec_frames@[f]@[g] as i32
        },
        r matches Err(e) ==> exists|g: int, f: int|
            first_bad_frame_cell(reference_codec_frames@, num_quantizers as int, g, f)
                && e.is_invalid_input_with(
                bad_frame_cell_message(reference_codec_frames@, num_quantizers as int, g, f),
            ),
{
    let frames = reference_codec_frames;
    let num_frames = frames.len();
    let ghost n = num_frames as int;
    let mut flat: Vec<i32> = Vec::new();
    let mut group: usize = 0;
    while group < num_quantizers
        invariant
            num_frames == frames@.len(),
            frames@ == reference_codec_frames@,
            n == num_frames,
            group <= num_quantizers,
            flat@.len() == group * n,
            forall|g: int, f: int|
                0 <= g < group && 0 <= f < n ==> #[trigger] frame_cell_ok(frames@, g, f),
            forall|g: int, f: int|
                0 <= g < group && 0 <= f < n ==> flat@[#[trigger] quantizer_major_index(g, f, n)]
                    == frames@[f]@[g] as i32,
        decreases num_quantizers - group,
    {
        let mut frame: usize = 0;
        while frame < num_frames
            invariant
                num_frames == frames@.len(),
                frames@ == reference_codec_frames@,
                n == num_frames,
                group < num_quantizers,
                frame <= num_frames,
                flat@.len() == group * n + frame,
                forall|g: int, f: int|
                    0 <= g < group && 0 <= f < n ==> #[trigger] frame_cell_ok(frames@, g, f),
                forall|f: int| 0 <= f < frame ==> #[trigger] frame_cell_ok(frames@, group as int, f),
                forall|g: int, f: int|
                    (0 <= g < group && 0 <= f < n) || (g == group && 0 <= f < frame)
                        ==> flat@[#[trigger] quantizer_major_index(g, f, n)] == frames@[f]@[g] as i32,
            decreases num_frames - frame,
        {
            let cells = &frames[frame];
            if group >= cells.len() {
                let e = short_frame_error(frame, cells.len(), num_quantizers);
                assert(first_bad_frame_cell(frames@, num_quantizers as int, group as int, frame as int));
                return Err(e);
            }
            let value = cells[group];
            if value < -2147483648i64 || value > 2147483647i64 {
                let e = wide_token_error(value, frame, group);
                assert(first_bad_frame_cell(frames@, num_quantizers as int, group as int, frame as int));
                return Err(e);
            }
            let ghost before = flat@;
            flat.push(value as i32);
            proof {
                assert forall|g: int, f: int|
                    (0 <= g < group && 0 <= f < n) || (g == group && 0 <= f < frame + 1)
                        implies flat@[#[trigger] quantizer_major_index(g, f, n)]
                        == frames@[f]@[g] as i32 by {
                    if g == group && f == frame {
                        assert(quantizer_major_index(g, f, n) == before.len());
                    } else {
                        lemma_quantizer_major_bounds(g, f, group as int, frame as int, n);
                    }
                }
            }
            frame += 1;
        }
        proof {
            assert((group + 1) * n == group * n + n) by (nonlinear_arith);
        }
        group += 1;
    }
    proof {
        assert(flat@.len() == num_quantizers * n);
    }
    Ok(flat)
}

/// Turns layer-major codec tokens (all time steps of layer 0, then of layer 1, ...)
/// into per-time-step frames of `total_layers` tokens.
pub fn frames_from_layer_major_codes(flat_codes: &[i64], total_layers: usize, time_steps: usize) -> (frames: Vec<
    Vec<i64>,
>)
    requires
        flat_codes@.len() >= total_layers * time_steps,
    ensures
        frames@.len() == time_steps,
        forall|t: int| 0 <= t < time_steps ==> (#[trigger] frames@[t])@.len() == total_layers,
        forall|t: int, l: int|
            0 <= t < time_steps && 0 <= l < total_layers ==> frames@[t]@[l] == flat_codes@[
                quantizer_major_index(l, t, time_steps as int)],
{
    let ghost n = time_steps as int;
    let flat_len = flat_codes.len();
    let mut frames: Vec<Vec<i64>> = Vec::new();
    let mut t: usize = 0;
    while t < time_steps
        invariant
            n == time_steps,
            flat_len == flat_codes@.len(),
            flat_codes@.len() >= total_layers * n,
            t <= time_steps,
            frames@.len() == t,
            forall|u: int| 0 <= u < t ==> (#[trigger] frames@[u])@.len() == total_layers,
            forall|u: int, l: int|
                0 <= u < t && 0 <= l < total_layers ==> frames@[u]@[l] == flat_codes@[
                    quantizer_major_index(l, u, n)],
        decreases time_steps - t,
    {
        let mut frame: Vec<i64> = Vec::new();
        let mut l: usize = 0;
        while l < total_layers
            invariant
                n == time_steps,
                flat_len == flat_codes@.len(),
                flat_codes@.len() >= total_layers * n,
                t < time_steps,
                l <= total_layers,
                frame@.len() == l,
                forall|k: int| 0 <= k < l ==> frame@[k] == flat_codes@[quantizer_major_index(k, t as int, n)],
            decreases total_layers - l,
        {
            proof {
                lemma_quantizer_major_bounds(l as int, t as int, (total_layers - 1) as int, n, n + 1);
                assert(quantizer_major_index(l as int, t as int, n) < total_layers * n) by (nonlinear_arith)
                    requires l < total_layers, t < n, 0 <= l, 0 <= t;
                assert(l * time_steps + t == quantizer_major_index(l as int, t as int, n));
                assert(0 <= l * time_steps) by (nonlinear_arith)
                    requires 0 <= l, 0 <= time_steps;
            }
            frame.push(flat_codes[l * time_steps + t]);
            l += 1;
        }
        frames.push(frame);
        t += 1;
    }
    frames
}

/// Layer-major round trip: frames built from layer-major tokens flatten back, when every
/// token fits `i32`, to exactly those tokens.
pub proof fn lemma_layer_major_round_trip(flat: Seq<i64>, total_layers: nat, time_steps: nat, frames: Seq<Vec<i64>>)
    requires
        flat.len() == total_layers * time_steps,
        forall|i: int| 0 <= i < flat.len() ==> fits_i32(#[trigger] flat[i] as int),
        frames.len() == time_steps,
        forall|t: int| 0 <= t < time_steps ==> (#[trigger] frames[t])@.len() == total_layers,
        forall|t: int, l: int|
            0 <= t < time_steps && 0 <= l < total_layers ==> frames[t]@[l] == flat[quantizer_major_index(
                l,
                t,
                time_steps as int,
            )],
    ensures
        all_frame_cells_ok(frames, total_layers as int),
        forall|i: int|
            0 <= i < flat.len() ==> #[trigger] flat[i] == frames[i % (time_steps as int)]@[i / (time_steps as int)],
{
    let n = time_steps as int;
    assert forall|g: int, f: int| 0 <= g < total_layers && 0 <= f < frames.len() implies #[trigger] frame_cell_ok(
        frames,
        g,
        f,
    ) by {
        lemma_quantizer_major_bounds(g, f, (total_layers - 1) as int, n, n + 1);
        assert(quantizer_major_index(g, f, n) < total_layers * n) by (nonlinear_arith)
            requires g < total_layers, f < n, 0 <= g, 0 <= f;
        assert(fits_i32(flat[quantizer_major_index(g, f, n)] as int));
    }
    assert forall|i: int| 0 <= i < flat.len() implies #[trigger] flat[i] == frames[i % n]@[i / n] by {
        if n == 0 {
            assert(total_layers * time_steps == 0) by (nonlinear_arith)
                requires time_steps == 0;
        }
        lemma_fundamental_div_mod(i, n);
        let g = i / n;
        let f = i % n;
        assert(0 <= f < n) by {
            vstd::arithmetic::div_mod::lemma_mod_pos_bound(i, n);
        }
        assert(0 <= g) by {
            vstd::arithmetic::div_mod::lemma_div_pos_is_pos(i, n);
        }
        assert(g < total_layers) by (nonlinear_arith)
            requires i == n * g + f, 0 <= f < n, i < total_layers * n, 0 <= g;
        assert(quantizer_major_index(g, f, n) == i) by (nonlinear_arith)
            requires i == n * g + f;
    }
}

pub open spec fn no_semantic_frames_message() -> Seq<char> {
    "reference audio produced no semantic codec frames"@
}

/// Token of layer `layer` at time `t` when the semantic layers come first and the acoustic ones after.
pub open spec fn stacked_code(semantic: Seq<Vec<i64>>, acoustic: Seq<Vec<i64>>, layer: int, t: int) -> i64 {
    if layer < semantic.len() {
        semantic[layer]@[t]
    } else {
        acoustic[layer - semantic.len()]@[t]
    }
}

/// Builds per-time-step reference frames from per-layer codec tokens, semantic layers
/// first; the number of frames is the length of the first semantic layer. Fails when
/// there is no semantic layer.
pub fn assemble_reference_frames(semantic_codes: &Vec<Vec<i64>>, acoustic_codes: &Vec<Vec<i64>>) -> (r: Result<
    Vec<Vec<i64>>,
    Qwen3TtsInferenceError,
>)
    requires
        semantic_codes@.len() > 0 ==> (forall|l: int|
            0 <= l < semantic_codes@.len() ==> (#[trigger] semantic_codes@[l])@.len() >= semantic_codes@[0]@.len()),
        semantic_codes@.len() > 0 ==> (forall|l: int|
            0 <= l < acoustic_codes@.len() ==> (#[trigger] acoustic_codes@[l])@.len() >= semantic_codes@[0]@.len()),
    ensures
        semantic_codes@.len() == 0 <==> r is Err,
        r matches Err(e) ==> e.is_invalid_input_with(no_semantic_frames_message()),
        r matches Ok(frames) ==> {
            &&& frames@.len() == semantic_codes@[0]@.len()
            &&& forall|t: int|
                0 <= t < frames@.len() ==> (#[trigger] frames@[t])@.len() == semantic_codes@.len()
                    + acoustic_codes@.len()
            &&& forall|t: int, l: int|
                0 <= t < frames@.len() && 0 <= l < semantic_codes@.len() + acoustic_codes@.len()
                    ==> frames@[t]@[l] == stacked_code(semantic_codes@, acoustic_codes@, l, t)
            &&& forall|t: int, l: int|
                0 <= t < frames@.len() && 0 <= l < semantic_codes@.len() ==> frames@[t]@[l]
                    == semantic_codes@[l]@[t]
            &&& forall|t: int, a: int|
                0 <= t < frames@.len() && 0 <= a < acoustic_codes@.len() ==> frames@[t]@[semantic_codes@.len() + a]
                    == acoustic_codes@[a]@[t]
        },
{
    if semantic_codes.len() == 0 {
        return Err(Qwen3TtsInferenceError::InvalidInput {
            message: String::from_str("reference audio produced no semantic codec frames"),
        });
    }
    let time_steps = semantic_codes[0].len();
    let num_semantic = semantic_codes.len();
    let num_acoustic = acoustic_codes.len();
    let mut frames: Vec<Vec<i64>> = Vec::new();
    let mut t: usize = 0;
    while t < time_steps
        invariant
            time_steps == semantic_codes@[0]@.len(),
            num_semantic == semantic_codes@.len(),
            num_acoustic == acoustic_codes@.len(),
            forall|l: int| 0 <= l < semantic_codes@.len() ==> (#[trigger] semantic_codes@[l])@.len() >= time_steps,
            forall|l: int| 0 <= l < acoustic_codes@.len() ==> (#[trigger] acoustic_codes@[l])@.len() >= time_steps,
            t <= time_steps,
            frames@.len() == t,
            forall|u: int| 0 <= u < t ==> (#[trigger] frames@[u])@.len() == num_semantic + num_acoustic,
            forall|u: int, l: int|
                0 <= u < t && 0 <= l < num_semantic + num_acoustic ==> frames@[u]@[l] == stacked_code(
                    semantic_codes@,
                    acoustic_codes@,
                    l,
                    u,
                ),
        decreases time_steps - t,
    {
        let mut frame: Vec<i64> = Vec::new();
        let mut l: usize = 0;
        while l < num_semantic
            invariant
                num_semantic == semantic_codes@.len(),
                forall|k: int| 0 <= k < semantic_codes@.len() ==> (#[trigger] semantic_codes@[k])@.len() >= time_steps,
                t < time_steps,
                l <= num_semantic,
                frame@.len() == l,
                forall|k: int| 0 <= k < l ==> frame@[k] == stacked_code(semantic_codes@, acoustic_codes@, k, t as int),
            decreases num_semantic - l,
        {
            frame.push(semantic_codes[l][t]);
            l += 1;
        }
        let mut a: usize = 0;
        while a < num_acoustic
            invariant
                num_semantic == semantic_codes@.len(),
                num_acoustic == acoustic_codes@.len(),
                forall|k: int| 0 <= k < acoustic_codes@.len() ==> (#[trigger] acoustic_codes@[k])@.len() >= time_steps,
                t < time_steps,
                a <= num_acoustic,
                frame@.len() == num_semantic + a,
                forall|k: int|
                    0 <= k < num_semantic + a ==> frame@[k] == stacked_code(semantic_codes@, acoustic_codes@, k, t as int),
            decreases num_acoustic - a,
        {
            frame.push(acoustic_codes[a][t]);
            a += 1;
        }
        frames.push(frame);
        t += 1;
    }
    proof {
        let n = num_semantic as int;
        assert forall|u: int, l: int|
            0 <= u < frames@.len() && 0 <= l < n implies frames@[u]@[l] == semantic_codes@[l]@[u] by {
            assert(frames@[u]@[l] == stacked_code(semantic_codes@, acoustic_codes@, l, u));
        }
        assert forall|u: int, a: int|
            0 <= u < frames@.len() && 0 <= a < num_acoustic implies frames@[u]@[n + a] == acoustic_codes@[a]@[u] by {
            assert(frames@[u]@[n + a] == stacked_code(semantic_codes@, acoustic_codes@, n + a, u));
        }
    }
    Ok(frames)
}

pub open spec fn prefix_batch_message(batch: nat) -> Seq<char> {
    "reference codec prefix only supports batch_size=1, got "@ + decimal(batch)
}

/// The token data and shape `[batch, num_quantizers, frames]` of the reference codec
/// prefix put before the generated tokens. Only batch size one is supported; the data
/// is the quantizer-major flattening of the frames.
pub fn reference_codec_prefix(
    reference_codec_frames: &[Vec<i64>],
    batch_size: usize,
    num_quantizers: usize,
) -> (r: Result<(Vec<i32>, [usize; 3]), Qwen3TtsInferenceError>)
    ensures
        batch_size != 1 ==> (r matches Err(e) && e.is_invalid_input_with(prefix_batch_message(batch_size as nat))),
        batch_size == 1 ==> (r is Ok <==> all_frame_cells_ok(reference_codec_frames@, num_quantizers as int)),
        r matches Ok((flat, shape)) ==> {
            &&& shape == [batch_size, num_quantizers, reference_codec_frames@.len() as usize]
            &&& flat@.len() == num_quantizers * reference_codec_frames@.len()
            &&& forall|g: int, f: int|
                0 <= g < num_quantizers && 0 <= f < reference_codec_frames@.len()
                    ==> flat@[quantizer_major_index(g, f, reference_codec_frames@.len() as int)]
                    == reference_codec_frames@[f]@[g] as i32
        },
        batch_size == 1 && r is Err ==> (r matches Err(e) && exists|g: int, f: int|
            first_bad_frame_cell(reference_codec_frames@, num_quantizers as int, g, f)
                && e.is_invalid_input_with(
                bad_frame_cell_message(reference_codec_frames@, num_quantizers as int, g, f),
            )),
{
    if batch_size != 1 {
        let mut message = String::from_str("reference codec prefix only supports batch_size=1, got ");
        push_decimal(&mut message, batch_size as u64);
        return Err(Qwen3TtsInferenceError::InvalidInput { message });
    }
    let flat = flatten_reference_codec_frames(reference_codec_frames, num_quantizers)?;
    Ok((flat, [batch_size, num_quantizers, reference_codec_frames.len()]))
}

/// The samples of a waveform decoded from reference prefix plus generated tokens that
/// belong to the generated part: the first `reference_frames / (reference_frames +
/// generated_steps)` share of the samples (rounded down) is cut off.
pub fn reference_trimmed_range(reference_frames: usize, generated_steps: usize, total_samples: usize) -> (range: (
    usize,
    usize,
))
    requires
        reference_frames + generated_steps <= usize::MAX,
        reference_frames * total_samples <= usize::MAX,
    ensures
        range.1 == total_samples,
        range.0 == if (reference_frames * total_samples) / max_one(reference_frames + generated_steps as int)
            <= total_samples {
            (reference_frames * total_samples) / max_one(reference_frames + generated_steps as int)
        } else {
            total_samples as int
        },
        range.0 <= range.1,
{
    let combined_steps = generated_steps + reference_frames;
    let denominator = if combined_steps > 1 { combined_steps } else { 1 };
    let cut_samples = reference_frames * total_samples / denominator;
    let start = if cut_samples < total_samples { cut_samples } else { total_samples };
    (start, total_samples)
}

pub open spec fn max_one(n: int) -> int {
    if n > 1 { n } else { 1 }
}

/// Even-spread law: when every codec step decodes to the same number of samples, the
/// trim removes exactly the reference frames' samples.
pub proof fn lemma_trim_removes_reference_samples(reference_frames: nat, generated_steps: nat, samples_per_step: nat)
    requires
        reference_frames + generated_steps > 0,
    ensures
        ({
            let total = ((reference_frames + generated_steps) * samples_per_step) as int;
            (reference_frames * total) / max_one((reference_frames + generated_steps) as int) == reference_frames
                * samples_per_step
        }),
{
    let c = (reference_frames + generated_steps) as int;
    let total = c * samples_per_step;
    assert(reference_frames * total == c * (reference_frames * samples_per_step)) by (nonlinear_arith)
        requires total == c * samples_per_step;
    assert(max_one(c) == c);
    lemma_div_multiples_vanish((reference_frames * samples_per_step) as int, c);
}

} // verus!
