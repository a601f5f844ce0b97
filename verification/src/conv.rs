use vstd::prelude::*;
use vstd::arithmetic::div_mod::{lemma_fundamental_div_mod, lemma_mod_multiples_vanish, lemma_small_mod};

verus! {

/// `a + b`, saturating at `usize::MAX`.
pub open spec fn saturating_add_spec(a: nat, b: nat) -> nat {
    if a + b > usize::MAX { usize::MAX as nat } else { a + b }
}

/// `a - b`, saturating at zero.
pub open spec fn saturating_sub_spec(a: nat, b: nat) -> nat {
    if a >= b { (a - b) as nat } else { 0 }
}

/// Right padding that makes a padded input of length `len + padding_total` cover a
/// whole number of strides after the first kernel window.
pub open spec fn extra_padding_spec(len: nat, kernel_size: nat, stride: nat, padding_total: nat) -> nat {
    let padded = saturating_add_spec(len, padding_total);
    if kernel_size > padded {
        (kernel_size - padded) as nat
    } else {
        ((stride - (padded - kernel_size) % (stride as int)) % (stride as int)) as nat
    }
}

/// `padded + extra` is a length that a convolution with this kernel and stride consumes exactly.
pub open spec fn covers_whole_frames(padded: nat, extra: nat, kernel_size: nat, stride: nat) -> bool {
    padded + extra >= kernel_size && (padded + extra - kernel_size) % (stride as int) == 0
}

proof fn lemma_extra_padding_is_least(padded: nat, kernel_size: nat, stride: nat)
    requires
        stride > 0,
    ensures
        ({
            let r = if kernel_size > padded {
                (kernel_size - padded) as nat
            } else {
                ((stride - (padded - kernel_size) % (stride as int)) % (stride as int)) as nat
            };
            &&& covers_whole_frames(padded, r, kernel_size, stride)
            &&& forall|e: nat| e < r ==> !covers_whole_frames(padded, e, kernel_size, stride)
        }),
{
    let s = stride as int;
    if kernel_size > padded {
        let r = (kernel_size - padded) as nat;
        assert((padded + r - kernel_size) == 0);
        assert(0int % s == 0) by {
            lemma_small_mod(0, stride);
        }
    } else {
        let d = (padded - kernel_size) as int;
        let q = d / s;
        let m = d % s;
        lemma_fundamental_div_mod(d, s);
        assert(0 <= m < s);
        let r = ((s - m) % s) as nat;
        if m == 0 {
            assert(s % s == 0) by {
                lemma_mod_multiples_vanish(1, 0, s);
                lemma_small_mod(0, stride);
            }
            assert(r == 0);
            assert(covers_whole_frames(padded, 0, kernel_size, stride));
        } else {
            assert((s - m) % s == s - m) by {
                lemma_small_mod((s - m) as nat, stride);
            }
            assert(r == s - m);
            assert(d + r == s * (q + 1)) by (nonlinear_arith)
                requires d == s * q + m, r == s - m;
            assert((s * (q + 1) + 0) % s == 0int % s) by {
                lemma_mod_multiples_vanish(q + 1, 0, s);
            }
            assert(0int % s == 0) by {
                lemma_small_mod(0, stride);
            }
            assert(covers_whole_frames(padded, r, kernel_size, stride));
            assert forall|e: nat| e < r implies !covers_whole_frames(padded, e, kernel_size, stride) by {
                assert((s * q + (m + e)) % s == (m + e) % s) by {
                    lemma_mod_multiples_vanish(q, (m + e) as int, s);
                }
                assert((m + e) % s == m + e) by {
                    lemma_small_mod((m + e) as nat, stride);
                }
                assert(padded + e - kernel_size == s * q + (m + e));
            }
        }
    }
}

/// Extra right padding for a streaming convolution: the smallest amount that makes the
/// padded input (`len` plus `padding_total`, saturating) long enough for one kernel
/// window and a whole number of strides after it. A stride of zero is accepted only
/// when the padded input is shorter than the kernel, where no stride is involved.
pub fn extra_padding_for_conv1d(len: usize, kernel_size: usize, stride: usize, padding_total: usize) -> (extra: usize)
    requires
        stride > 0 || kernel_size > saturating_add_spec(len as nat, padding_total as nat),
    ensures
        extra == extra_padding_spec(len as nat, kernel_size as nat, stride as nat, padding_total as nat),
        stride > 0 ==> covers_whole_frames(
            saturating_add_spec(len as nat, padding_total as nat),
            extra as nat,
            kernel_size as nat,
            stride as nat,
        ),
        stride > 0 ==> forall|e: nat| e < extra ==> !covers_whole_frames(
            saturating_add_spec(len as nat, padding_total as nat),
            e,
            kernel_size as nat,
            stride as nat,
        ),
{
    proof {
        if stride > 0 {
            lemma_extra_padding_is_least(
                saturating_add_spec(len as nat, padding_total as nat),
                kernel_size as nat,
                stride as nat,
            );
        }
    }
    let padded_len = len.saturating_add(padding_total);
    let missing = kernel_size.saturating_sub(padded_len);
    if missing > 0 {
        missing
    } else {
        (stride - (padded_len - kernel_size) % stride) % stride
    }
}

/// Span of a dilated kernel: `(kernel_size - 1) * dilation + 1`.
pub open spec fn effective_kernel_spec(kernel_size: nat, dilation: nat) -> nat {
    ((kernel_size - 1) * dilation + 1) as nat
}

/// Left (total) and extra right padding of a streaming causal convolution over an
/// input of length `len`: the dilated kernel minus the stride on the left, and
/// `extra_padding_for_conv1d` on the right.
pub fn conv1d_padding(kernel_size: usize, dilation: usize, stride: usize, len: usize) -> (p: (usize, usize))
    requires
        kernel_size >= 1,
        stride > 0,
        (kernel_size - 1) * dilation + 1 <= usize::MAX,
    ensures
        p.0 == saturating_sub_spec(effective_kernel_spec(kernel_size as nat, dilation as nat), stride as nat),
        p.1 == extra_padding_spec(
            len as nat,
            effective_kernel_spec(kernel_size as nat, dilation as nat),
            stride as nat,
            p.0 as nat,
        ),
        covers_whole_frames(
            saturating_add_spec(len as nat, p.0 as nat),
            p.1 as nat,
            effective_kernel_spec(kernel_size as nat, dilation as nat),
            stride as nat,
        ),
        forall|e: nat| e < p.1 ==> !covers_whole_frames(
            saturating_add_spec(len as nat, p.0 as nat),
            e,
            effective_kernel_spec(kernel_size as nat, dilation as nat),
            stride as nat,
        ),
{
    let effective_kernel = (kernel_size - 1) * dilation + 1;
    let padding_total = effective_kernel.saturating_sub(stride);
    let extra_padding = extra_padding_for_conv1d(len, effective_kernel, stride, padding_total);
    (padding_total, extra_padding)
}

/// Left padding of a causal convolution: the whole dilated kernel history.
pub fn causal_left_padding(kernel_size: usize, dilation: usize) -> (pad: usize)
    requires
        kernel_size >= 1,
        (kernel_size - 1) * dilation <= usize::MAX,
    ensures
        pad == (kernel_size - 1) * dilation,
{
    (kernel_size - 1) * dilation
}

/// Time range kept from a causal transposed convolution's output of length `time`:
/// `kernel_size - stride` positions are trimmed from the start and from the end;
/// `None` when nothing is trimmed.
pub fn causal_transposed_trim(kernel_size: usize, stride: usize, time: usize) -> (range: Option<(usize, usize)>)
    ensures
        kernel_size <= stride ==> range == None::<(usize, usize)>,
        kernel_size > stride ==> range == Some(
            ((kernel_size - stride) as usize, saturating_sub_spec(time as nat, (kernel_size - stride) as nat) as usize),
        ),
{
    let trim = kernel_size.saturating_sub(stride);
    if trim == 0 {
        return None;
    }
    let end = time.saturating_sub(trim);
    Some((trim, end))
}

/// "Same" padding of a dilated convolution: the dilated kernel history split in two
/// halves, the larger one on the right.
pub fn same_padding(kernel_size: usize, dilation: usize) -> (pad: (usize, usize))
    requires
        kernel_size >= 1,
        dilation * (kernel_size - 1) <= usize::MAX,
    ensures
        pad.0 + pad.1 == dilation * (kernel_size - 1),
        pad.0 == (dilation * (kernel_size - 1)) / 2,
        pad.1 == pad.0 || pad.1 == pad.0 + 1,
{
    let total_pad = dilation * (kernel_size - 1);
    (total_pad / 2, total_pad - total_pad / 2)
}

/// The input position that lands at position `k` of a reflection-padded sequence of
/// length `time` with `pad_left` positions added in front: the left pad mirrors
/// positions `pad_left..1`, the right pad mirrors positions `time - 2` downwards,
/// neither repeating the edge sample.
pub open spec fn reflect_pad_source(time: int, pad_left: int, k: int) -> int {
    if k < pad_left {
        pad_left - k
    } else if k < pad_left + time {
        k - pad_left
    } else {
        2 * time + pad_left - 2 - k
    }
}

/// The input position that lands at position `k` of an edge-replicated sequence: the
/// first sample in front, the last sample behind.
pub open spec fn replicate_pad_source(time: int, pad_left: int, k: int) -> int {
    if k < pad_left {
        0
    } else if k < pad_left + time {
        k - pad_left
    } else {
        time - 1
    }
}

/// Gather positions of a reflection padding along time: entry `k` is the input
/// position copied to output position `k`. A pad needs more input positions than
/// its width, since the edge sample itself is not mirrored.
pub fn reflect_pad_indices(time: usize, pad_left: usize, pad_right: usize) -> (indices: Vec<usize>)
    requires
        pad_left == 0 || pad_left < time,
        pad_right == 0 || pad_right < time,
        pad_left + time + pad_right <= usize::MAX,
    ensures
        indices@.len() == pad_left + time + pad_right,
        forall|k: int|
            0 <= k < indices@.len() ==> #[trigger] indices@[k] == reflect_pad_source(
                time as int,
                pad_left as int,
                k,
            ),
        forall|k: int| 0 <= k < indices@.len() ==> #[trigger] indices@[k] < time,
{
    let total = pad_left + time + pad_right;
    let mut indices: Vec<usize> = Vec::new();
    let mut k: usize = 0;
    while k < total
        invariant
            total == pad_left + time + pad_right,
            pad_left == 0 || pad_left < time,
            pad_right == 0 || pad_right < time,
            k <= total,
            indices@.len() == k,
            forall|j: int|
                0 <= j < k ==> #[trigger] indices@[j] == reflect_pad_source(time as int, pad_left as int, j),
            forall|j: int| 0 <= j < k ==> #[trigger] indices@[j] < time,
        decreases total - k,
    {
        let source = if k < pad_left {
            pad_left - k
        } else if k < pad_left + time {
            k - pad_left
        } else {
            time - 2 - (k - pad_left - time)
        };
        indices.push(source);
        k += 1;
    }
    indices
}

/// Gather positions of an edge-replicating padding along time: entry `k` is the input
/// position copied to output position `k`.
pub fn replicate_pad_indices(time: usize, pad_left: usize, pad_right: usize) -> (indices: Vec<usize>)
    requires
        (pad_left == 0 && pad_right == 0) || time > 0,
        pad_left + time + pad_right <= usize::MAX,
    ensures
        indices@.len() == pad_left + time + pad_right,
        forall|k: int|
            0 <= k < indices@.len() ==> #[trigger] indices@[k] == replicate_pad_source(
                time as int,
                pad_left as int,
                k,
            ),
        forall|k: int| 0 <= k < indices@.len() ==> #[trigger] indices@[k] < time,
{
    let total = pad_left + time + pad_right;
    let mut indices: Vec<usize> = Vec::new();
    let mut k: usize = 0;
    while k < total
        invariant
            total == pad_left + time + pad_right,
            (pad_left == 0 && pad_right == 0) || time > 0,
            k <= total,
            indices@.len() == k,
            forall|j: int|
                0 <= j < k ==> #[trigger] indices@[j] == replicate_pad_source(time as int, pad_left as int, j),
            forall|j: int| 0 <= j < k ==> #[trigger] indices@[j] < time,
        decreases total - k,
    {
        let source = if k < pad_left {
            0
        } else if k < pad_left + time {
            k - pad_left
        } else {
            time - 1
        };
        indices.push(source);
        k += 1;
    }
    indices
}

} // verus!
