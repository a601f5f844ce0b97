use vstd::prelude::*;

verus! {

/// Whether a suppressed token id names a vocabulary entry (and so can be masked).
pub open spec fn suppressible(id: usize, vocab_size: nat) -> bool {
    id < vocab_size && id <= i64::MAX
}

/// The suppressed ids that name vocabulary entries, in their given order.
pub open spec fn kept_suppress_ids(ids: Seq<usize>, vocab_size: nat) -> Seq<i64>
    decreases ids.len(),
{
    if ids.len() == 0 {
        Seq::empty()
    } else {
        let rest = kept_suppress_ids(ids.drop_last(), vocab_size);
        if suppressible(ids.last(), vocab_size) {
            rest.push(ids.last() as i64)
        } else {
            rest
        }
    }
}

proof fn lemma_kept_ids_members(ids: Seq<usize>, vocab_size: nat)
    ensures
        forall|v: i64| kept_suppress_ids(ids, vocab_size).contains(v) <==> exists|i: int|
            0 <= i < ids.len() && suppressible(#[trigger] ids[i], vocab_size) && ids[i] == v,
    decreases ids.len(),
{
    if ids.len() > 0 {
        let prefix = ids.drop_last();
        lemma_kept_ids_members(prefix, vocab_size);
        let rest = kept_suppress_ids(prefix, vocab_size);
        assert forall|v: i64| kept_suppress_ids(ids, vocab_size).contains(v) <==> exists|i: int|
            0 <= i < ids.len() && suppressible(#[trigger] ids[i], vocab_size) && ids[i] == v by {
            if kept_suppress_ids(ids, vocab_size).contains(v) {
                if rest.contains(v) {
                    let i = choose|i: int| 0 <= i < prefix.len() && suppressible(#[trigger] prefix[i], vocab_size) && prefix[i] == v;
                    assert(ids[i] == prefix[i]);
                } else {
                    assert(suppressible(ids.last(), vocab_size));
                    let k = choose|k: int| 0 <= k < kept_suppress_ids(ids, vocab_size).len() && kept_suppress_ids(ids, vocab_size)[k] == v;
                    assert(k == rest.len());
                    assert(ids[ids.len() - 1] == ids.last());
                }
            }
            if exists|i: int| 0 <= i < ids.len() && suppressible(#[trigger] ids[i], vocab_size) && ids[i] == v {
                let i = choose|i: int| 0 <= i < ids.len() && suppressible(#[trigger] ids[i], vocab_size) && ids[i] == v;
                if i < ids.len() - 1 {
                    assert(prefix[i] == ids[i]);
                    assert(rest.contains(v));
                    let k = choose|k: int| 0 <= k < rest.len() && rest[k] == v;
                    if suppressible(ids.last(), vocab_size) {
                        assert(kept_suppress_ids(ids, vocab_size)[k] == v);
                    }
                } else {
                    assert(kept_suppress_ids(ids, vocab_size)[rest.len() as int] == v);
                }
            }
        }
    }
}

/// The suppressed token ids that fall inside the vocabulary, as model token ids.
pub fn valid_suppress_token_ids(suppress_token_ids: &[usize], vocab_size: usize) -> (ids: Vec<i64>)
    ensures
        ids@ == kept_suppress_ids(suppress_token_ids@, vocab_size as nat),
{
    let mut ids: Vec<i64> = Vec::new();
    let mut i: usize = 0;
    while i < suppress_token_ids.len()
        invariant
            i <= suppress_token_ids@.len(),
            ids@ == kept_suppress_ids(suppress_token_ids@.take(i as int), vocab_size as nat),
        decreases suppress_token_ids@.len() - i,
    {
        let id = suppress_token_ids[i];
        assert(suppress_token_ids@.take(i + 1).drop_last() =~= suppress_token_ids@.take(i as int));
        if id < vocab_size && (id as u64) <= 9223372036854775807u64 {
            ids.push(id as i64);
        }
        i += 1;
    }
    assert(suppress_token_ids@.take(suppress_token_ids@.len() as int) =~= suppress_token_ids@);
    ids
}

/// The suppression mask over a vocabulary (shared by every batch row): `true` at each
/// suppressed id inside the vocabulary; `None` when no such id remains.
pub fn suppress_token_mask_row(vocab_size: usize, suppress_token_ids: &[usize]) -> (mask: Option<Vec<bool>>)
    ensures
        mask is None <==> kept_suppress_ids(suppress_token_ids@, vocab_size as nat).len() == 0,
        mask matches Some(row) ==> {
            &&& row@.len() == vocab_size
            &&& forall|v: int| 0 <= v < vocab_size ==> (#[trigger] row@[v] <==> exists|i: int|
                0 <= i < suppress_token_ids@.len() && suppress_token_ids@[i] == v && suppressible(suppress_token_ids@[i], vocab_size as nat))
        },
{
    let valid = valid_suppress_token_ids(suppress_token_ids, vocab_size);
    if valid.len() == 0 {
        return None;
    }
    proof {
        lemma_kept_ids_members(suppress_token_ids@, vocab_size as nat);
    }
    let mut row: Vec<bool> = Vec::new();
    let mut v: usize = 0;
    while v < vocab_size
        invariant
            v <= vocab_size,
            row@.len() == v,
            valid@ == kept_suppress_ids(suppress_token_ids@, vocab_size as nat),
            forall|x: i64| valid@.contains(x) <==> exists|i: int|
                0 <= i < suppress_token_ids@.len() && suppressible(#[trigger] suppress_token_ids@[i], vocab_size as nat)
                    && suppress_token_ids@[i] == x,
            forall|w: int| 0 <= w < v ==> (#[trigger] row@[w] <==> exists|i: int|
                0 <= i < suppress_token_ids@.len() && suppress_token_ids@[i] == w && suppressible(suppress_token_ids@[i], vocab_size as nat)),
        decreases vocab_size - v,
    {
        let mut hit = false;
        let mut j: usize = 0;
        while j < valid.len()
            invariant
                j <= valid@.len(),
                v < vocab_size,
                hit <==> exists|k: int| 0 <= k < j && valid@[k] == v,
            decreases valid@.len() - j,
        {
            if valid[j] as i128 == v as i128 {
                hit = true;
            }
            j += 1;
        }
        proof {
            if hit {
                let k = choose|k: int| 0 <= k < valid@.len() && valid@[k] == v;
                assert(valid@.contains(valid@[k]));
            } else {
                if exists|i: int| 0 <= i < suppress_token_ids@.len() && suppress_token_ids@[i] == v
                    && suppressible(suppress_token_ids@[i], vocab_size as nat) {
                    let i = choose|i: int| 0 <= i < suppress_token_ids@.len() && suppress_token_ids@[i] == v
                        && suppressible(suppress_token_ids@[i], vocab_size as nat);
                    assert(valid@.contains(v as i64));
                }
            }
        }
        row.push(hit);
        v += 1;
    }
    Some(row)
}

/// Top-k filtering applies only with `0 < k < vocab_size`.
pub fn effective_top_k(top_k: Option<usize>, vocab_size: usize) -> (k: Option<usize>)
    ensures
        k == match top_k {
            Some(t) => if 0 < t < vocab_size { Some(t) } else { None::<usize> },
            None => None::<usize>,
        },
{
    match top_k {
        Some(t) => if t > 0 && t < vocab_size { Some(t) } else { None },
        None => None,
    }
}

} // verus!
