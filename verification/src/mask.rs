use vstd::prelude::*;

verus! {

/// Which masks an attention call combines.
#[derive(Debug, Clone, Copy, PartialEq, Eq, Structural)]
pub enum AttentionMaskPlan {
    /// Attend everywhere.
    Unmasked,
    /// Hide future positions.
    Causal,
    /// Hide padded key positions.
    Padding,
    /// Hide a position when either the causal or the padding mask hides it.
    CausalOrPadding,
}

/// The number of key positions an attention call sees: the cached ones (of the first
/// layer's cache, when there is one) plus the new queries.
pub open spec fn key_len_spec(query_len: nat, cached_len: Option<usize>) -> nat {
    match cached_len {
        Some(c) => (c + query_len) as nat,
        None => query_len,
    }
}

/// Chooses the attention masks: causal masking only when queries and keys cover the
/// same positions (no earlier positions are cached), padding masking whenever a
/// padding mask is given.
pub fn attention_mask_plan(query_len: usize, cached_len: Option<usize>, has_padding_mask: bool) -> (plan: AttentionMaskPlan)
    requires
        cached_len matches Some(c) ==> c + query_len <= usize::MAX,
    ensures
        ({
            let causal = query_len == key_len_spec(query_len as nat, cached_len);
            plan == if causal && has_padding_mask {
                AttentionMaskPlan::CausalOrPadding
            } else if causal {
                AttentionMaskPlan::Causal
            } else if has_padding_mask {
                AttentionMaskPlan::Padding
            } else {
                AttentionMaskPlan::Unmasked
            }
        }),
        (plan == AttentionMaskPlan::Causal || plan == AttentionMaskPlan::CausalOrPadding) <==> (cached_len
            matches Some(c) ==> c == 0),
{
    let key_len = match cached_len {
        Some(c) => c + query_len,
        None => query_len,
    };
    let causal = query_len == key_len;
    if causal && has_padding_mask {
        AttentionMaskPlan::CausalOrPadding
    } else if causal {
        AttentionMaskPlan::Causal
    } else if has_padding_mask {
        AttentionMaskPlan::Padding
    } else {
        AttentionMaskPlan::Unmasked
    }
}

/// The causal mask over `seq_len` positions: entry `[query][key]` hides keys after the query.
pub fn causal_mask(seq_len: usize) -> (mask: Vec<Vec<bool>>)
    ensures
        mask@.len() == seq_len,
        forall|q: int| 0 <= q < seq_len ==> (#[trigger] mask@[q])@.len() == seq_len,
        forall|q: int, k: int| 0 <= q < seq_len && 0 <= k < seq_len ==> (mask@[q]@[k] <==> k > q),
{
    let mut mask: Vec<Vec<bool>> = Vec::new();
    let mut q: usize = 0;
    while q < seq_len
        invariant
            q <= seq_len,
            mask@.len() == q,
            forall|r: int| 0 <= r < q ==> (#[trigger] mask@[r])@.len() == seq_len,
            forall|r: int, k: int| 0 <= r < q && 0 <= k < seq_len ==> (mask@[r]@[k] <==> k > r),
        decreases seq_len - q,
    {
        let mut row: Vec<bool> = Vec::new();
        let mut k: usize = 0;
        while k < seq_len
            invariant
                k <= seq_len,
                q < seq_len,
                row@.len() == k,
                forall|j: int| 0 <= j < k ==> (row@[j] <==> j > q),
            decreases seq_len - k,
        {
            row.push(k > q);
            k += 1;
        }
        mask.push(row);
        q += 1;
    }
    mask
}

/// The padding part of a mask for one batch row: a key is hidden when its attention
/// mask entry is zero.
pub fn padding_key_mask(attention_mask: &[i64]) -> (hidden: Vec<bool>)
    ensures
        hidden@.len() == attention_mask@.len(),
        forall|k: int| 0 <= k < attention_mask@.len() ==> (hidden@[k] <==> attention_mask@[k] == 0),
{
    let mut hidden: Vec<bool> = Vec::new();
    let mut k: usize = 0;
    while k < attention_mask.len()
        invariant
            k <= attention_mask@.len(),
            hidden@.len() == k,
            forall|j: int| 0 <= j < k ==> (hidden@[j] <==> attention_mask@[j] == 0),
        decreases attention_mask@.len() - k,
    {
        hidden.push(attention_mask[k] == 0);
        k += 1;
    }
    hidden
}

} // verus!
