use vstd::prelude::*;

verus! {

/// How one update of an autoregressive cache moves data, in sequence positions.
///
/// The cache storage has `max_seq_len` slots; the caller holds the slot contents.
#[derive(Debug, Clone, Copy, PartialEq, Eq)]
pub enum CacheUpdate {
    /// The incoming step is at least as long as the window: slots `0..max_seq_len`
    /// become incoming positions `keep_from..seq_len`, which are also returned.
    KeepLatest { keep_from: usize },
    /// Optionally first move slots `shift_from..shift_from + write_start` to the front
    /// (dropping the oldest positions), then write the incoming positions into slots
    /// `write_start..write_end`. The incoming step itself is returned when
    /// `returns_incoming`, otherwise slots `0..write_end`.
    Append {
        shift_from: Option<usize>,
        write_start: usize,
        write_end: usize,
        returns_incoming: bool,
    },
}

/// One update of the cache: whether the slot storage is allocated (zeroed) first,
/// and how data moves.
#[derive(Debug, Clone, Copy, PartialEq, Eq)]
pub struct CacheStep {
    pub allocate: bool,
    pub update: CacheUpdate,
}

/// Position bookkeeping of an autoregressive cache for one tensor (a key or a value)
/// of shape `[batch, num_heads, seq, head_dim]`, with a sliding window of
/// `max_seq_len` positions.
#[derive(Debug, Clone, Copy)]
pub struct AutoregressiveCache {
    max_seq_len: usize,
    cur_seq_len: usize,
    max_batch_size: usize,
    num_heads: usize,
    head_dim: usize,
    allocated: bool,
}

/// The last `max` elements of `history` (all of it when it is shorter).
pub open spec fn latest_window<A>(history: Seq<A>, max: nat) -> Seq<A> {
    if history.len() <= max {
        history
    } else {
        history.subrange(history.len() - max, history.len() as int)
    }
}

/// The slot contents and the returned positions after `update`, given the slot
/// contents `slots` before it (already allocated) and the incoming positions.
pub open spec fn apply_cache_update<A>(slots: Seq<A>, incoming: Seq<A>, update: CacheUpdate) -> (
    Seq<A>,
    Seq<A>,
) {
    match update {
        CacheUpdate::KeepLatest { keep_from } => {
            let latest = incoming.subrange(keep_from as int, incoming.len() as int);
            (latest, latest)
        },
        CacheUpdate::Append { shift_from, write_start, write_end, returns_incoming } => {
            let shifted = match shift_from {
                Some(s) => slots.subrange(s as int, s + write_start) + slots.subrange(
                    write_start as int,
                    slots.len() as int,
                ),
                None => slots,
            };
            let written = shifted.subrange(0, write_start as int) + incoming + shifted.subrange(
                write_end as int,
                shifted.len() as int,
            );
            (written, if returns_incoming { incoming } else { written.subrange(0, write_end as int) })
        },
    }
}

/// The step and the number of valid positions after it, for a window of `max`
/// positions holding `cur` valid ones when `seq` positions arrive.
pub open spec fn cache_plan(max: nat, cur: nat, seq: nat, allocate: bool) -> (CacheStep, nat) {
    if seq >= max {
        (CacheStep { allocate, update: CacheUpdate::KeepLatest { keep_from: (seq - max) as usize } }, max)
    } else if cur + seq > max {
        (
            CacheStep {
                allocate,
                update: CacheUpdate::Append {
                    shift_from: Some((cur + seq - max) as usize),
                    write_start: (max - seq) as usize,
                    write_end: max as usize,
                    returns_incoming: false,
                },
            },
            max,
        )
    } else {
        (
            CacheStep {
                allocate,
                update: CacheUpdate::Append {
                    shift_from: None,
                    write_start: cur as usize,
                    write_end: (cur + seq) as usize,
                    returns_incoming: cur == 0,
                },
            },
            cur + seq,
        )
    }
}

/// The smaller of two numbers.
pub open spec fn min_nat(a: nat, b: nat) -> nat {
    if a <= b { a } else { b }
}

impl AutoregressiveCache {
    pub closed spec fn window_len(&self) -> nat {
        self.max_seq_len as nat
    }

    pub closed spec fn cur_len(&self) -> nat {
        self.cur_seq_len as nat
    }

    pub closed spec fn is_allocated(&self) -> bool {
        self.allocated
    }

    pub closed spec fn batch_limit(&self) -> nat {
        self.max_batch_size as nat
    }

    pub closed spec fn heads(&self) -> nat {
        self.num_heads as nat
    }

    pub closed spec fn dim(&self) -> nat {
        self.head_dim as nat
    }

    /// The number of valid positions never exceeds the window.
    pub closed spec fn wf(&self) -> bool {
        self.cur_seq_len <= self.max_seq_len
    }

    /// The step and the next number of valid positions when `seq_len` positions arrive.
    pub open spec fn next_step(&self, seq_len: nat) -> (CacheStep, nat) {
        cache_plan(self.window_len(), self.cur_len(), seq_len, !self.is_allocated())
    }

    /// Creates an empty, unallocated cache.
    pub fn new(max_batch_size: usize, num_heads: usize, max_seq_len: usize, head_dim: usize) -> (c: Self)
        ensures
            c.wf(),
            c.cur_len() == 0,
            !c.is_allocated(),
            c.window_len() == max_seq_len,
            c.batch_limit() == max_batch_size,
            c.heads() == num_heads,
            c.dim() == head_dim,
    {
        AutoregressiveCache {
            max_seq_len,
            cur_seq_len: 0,
            max_batch_size,
            num_heads,
            head_dim,
            allocated: false,
        }
    }

    /// Empties the cache and drops its storage.
    pub fn reset(&mut self)
        ensures
            final(self).wf(),
            final(self).cur_len() == 0,
            !final(self).is_allocated(),
            final(self).window_len() == old(self).window_len(),
            final(self).batch_limit() == old(self).batch_limit(),
            final(self).heads() == old(self).heads(),
            final(self).dim() == old(self).dim(),
    {
        self.allocated = false;
        self.cur_seq_len = 0;
    }

    /// Empties the cache but keeps its storage for reuse.
    pub fn reset_preserve_allocation(&mut self)
        ensures
            final(self).wf(),
            final(self).cur_len() == 0,
            final(self).is_allocated() == old(self).is_allocated(),
            final(self).window_len() == old(self).window_len(),
            final(self).batch_limit() == old(self).batch_limit(),
            final(self).heads() == old(self).heads(),
            final(self).dim() == old(self).dim(),
    {
        self.cur_seq_len = 0;
    }

    /// The window size: at most this many positions are kept.
    pub fn max_seq_len(&self) -> (n: usize)
        ensures
            n == self.window_len(),
    {
        self.max_seq_len
    }

    /// The number of valid cached positions.
    pub fn len(&self) -> (n: usize)
        ensures
            n == self.cur_len(),
    {
        self.cur_seq_len
    }

    /// Records `seq_len` incoming positions of a `[batch_size, num_heads, seq_len, head_dim]`
    /// step and says how the slots change and which positions are returned: the current
    /// valid window, the newest `max_seq_len` positions at most.
    pub fn forward(&mut self, batch_size: usize, num_heads: usize, seq_len: usize, head_dim: usize) -> (step: CacheStep)
        requires
            old(self).wf(),
            batch_size <= old(self).batch_limit(),
            num_heads == old(self).heads(),
            head_dim == old(self).dim(),
            old(self).cur_len() + seq_len <= usize::MAX,
        ensures
            final(self).wf(),
            (step, final(self).cur_len()) == old(self).next_step(seq_len as nat),
            final(self).cur_len() == min_nat(old(self).cur_len() + seq_len as nat, old(self).window_len()),
            final(self).is_allocated(),
            final(self).window_len() == old(self).window_len(),
            final(self).batch_limit() == old(self).batch_limit(),
            final(self).heads() == old(self).heads(),
            final(self).dim() == old(self).dim(),
    {
        let allocate = !self.allocated;
        self.allocated = true;
        let old_seq_len = self.cur_seq_len;
        let mut new_seq_len = self.cur_seq_len + seq_len;
        if seq_len >= self.max_seq_len {
            let keep_from = seq_len - self.max_seq_len;
            self.cur_seq_len = self.max_seq_len;
            return CacheStep { allocate, update: CacheUpdate::KeepLatest { keep_from } };
        }
        let mut shift_from: Option<usize> = None;
        if new_seq_len > self.max_seq_len {
            shift_from = Some(new_seq_len - self.max_seq_len);
            self.cur_seq_len = self.max_seq_len - seq_len;
            new_seq_len = self.max_seq_len;
        }
        let returns_incoming = old_seq_len == 0 && seq_len == new_seq_len;
        let write_start = self.cur_seq_len;
        self.cur_seq_len = new_seq_len;
        CacheStep {
            allocate,
            update: CacheUpdate::Append { shift_from, write_start, write_end: new_seq_len, returns_incoming },
        }
    }
}

/// One update keeps the window: a window of `max` slots whose first `cur` slots hold
/// the latest window of `history` ends up holding, and returns, the latest window of
/// `history` followed by `incoming`.
proof fn lemma_plan_keeps_latest_window<A>(
    max: nat,
    cur: nat,
    allocate: bool,
    slots: Seq<A>,
    history: Seq<A>,
    incoming: Seq<A>,
)
    requires
        max <= usize::MAX,
        incoming.len() <= usize::MAX,
        slots.len() == max,
        cur == min_nat(history.len(), max),
        slots.subrange(0, cur as int) == latest_window(history, max),
    ensures
        ({
            let (step, next_len) = cache_plan(max, cur, incoming.len(), allocate);
            let (next_slots, returned) = apply_cache_update(slots, incoming, step.update);
            let window = latest_window(history + incoming, max);
            &&& next_slots.len() == max
            &&& next_len == window.len()
            &&& next_len == min_nat(history.len() + incoming.len(), max)
            &&& next_slots.subrange(0, next_len as int) == window
            &&& returned == window
        }),
{
    let seq = incoming.len();
    let total = history + incoming;
    let hl = history.len();
    let (step, next_len) = cache_plan(max, cur, seq, allocate);
    let (next_slots, returned) = apply_cache_update(slots, incoming, step.update);
    let window = latest_window(total, max);
    let old_window = latest_window(history, max);
    assert(old_window.len() == cur);
    assert forall|k: int| 0 <= k < cur implies #[trigger] old_window[k] == history[hl - cur + k] by {}
    if seq >= max {
        assert(window =~= incoming.subrange(seq - max, seq as int));
        assert(next_slots.subrange(0, next_len as int) =~= next_slots);
    } else if cur + seq > max {
        let drop = cur + seq - max;
        let keep = max - seq;
        assert(next_slots =~= slots.subrange(drop, cur as int) + incoming);
        assert(window =~= next_slots) by {
            assert forall|i: int| 0 <= i < max implies #[trigger] window[i] == next_slots[i] by {
                if i < keep {
                    assert(window[i] == total[total.len() - max + i]);
                    assert(next_slots[i] == slots[drop + i]);
                    assert(slots[drop + i] == slots.subrange(0, cur as int)[drop + i]);
                    assert(old_window[drop + i] == history[hl - cur + drop + i]);
                } else {
                    assert(window[i] == incoming[i - keep]);
                }
            }
        }
        assert(next_slots.subrange(0, next_len as int) =~= next_slots);
    } else {
        assert(cur == hl || seq == 0);
        if seq == 0 {
            assert(total =~= history);
            assert(incoming =~= Seq::<A>::empty());
        } else {
            assert(total.len() <= max);
            assert(window =~= total);
            assert(old_window =~= history);
        }
        assert(next_slots.subrange(0, next_len as int) =~= slots.subrange(0, cur as int) + incoming);
        assert(next_slots.subrange(0, next_len as int) =~= window);
        if cur == 0 {
            assert(window =~= incoming) by {
                if seq > 0 {
                    assert(hl == 0);
                }
            }
        }
    }
}

/// Sliding window law: while the cache holds the latest window of everything it has
/// seen, an update keeps holding (and returns) the latest window of the longer
/// history, and its valid length becomes the smaller of the positions seen and the window.
pub proof fn lemma_cache_holds_latest_window<A>(
    cache: AutoregressiveCache,
    slots: Seq<A>,
    history: Seq<A>,
    incoming: Seq<A>,
)
    requires
        cache.wf(),
        slots.len() == cache.window_len(),
        cache.cur_len() + incoming.len() <= usize::MAX,
        cache.cur_len() == min_nat(history.len(), cache.window_len()),
        slots.subrange(0, cache.cur_len() as int) == latest_window(history, cache.window_len()),
    ensures
        ({
            let (step, next_len) = cache.next_step(incoming.len());
            let (next_slots, returned) = apply_cache_update(slots, incoming, step.update);
            let window = latest_window(history + incoming, cache.window_len());
            &&& next_slots.len() == cache.window_len()
            &&& next_len == window.len()
            &&& next_slots.subrange(0, next_len as int) == window
            &&& returned == window
        }),
{
    lemma_plan_keeps_latest_window(
        cache.window_len(),
        cache.cur_len(),
        !cache.is_allocated(),
        slots,
        history,
        incoming,
    );
}

/// All positions that a sequence of steps brought, in order.
pub open spec fn seen_positions<A>(chunks: Seq<Seq<A>>) -> Seq<A>
    decreases chunks.len(),
{
    if chunks.len() == 0 {
        Seq::empty()
    } else {
        seen_positions(chunks.drop_last()) + chunks.last()
    }
}

/// The slots, the valid length and the last returned positions of a cache with a
/// window of `max` that starts empty with storage `storage` and receives `chunks`,
/// one step each.
pub open spec fn cache_run<A>(max: nat, storage: Seq<A>, chunks: Seq<Seq<A>>) -> (Seq<A>, nat, Seq<A>)
    decreases chunks.len(),
{
    if chunks.len() == 0 {
        (storage, 0, Seq::empty())
    } else {
        let (slots, len, _) = cache_run(max, storage, chunks.drop_last());
        let (step, next_len) = cache_plan(max, len, chunks.last().len(), false);
        let (next_slots, returned) = apply_cache_update(slots, chunks.last(), step.update);
        (next_slots, next_len, returned)
    }
}

/// Sliding window law over a whole run: after any sequence of steps since the cache was
/// emptied, it holds `min(positions seen, window)` positions, namely the newest ones,
/// and every step returns exactly them. While nothing has overflowed, a step returns
/// what the previous step returned followed by the new positions.
pub proof fn lemma_cache_run_holds_latest_window<A>(max: nat, storage: Seq<A>, chunks: Seq<Seq<A>>)
    requires
        max <= usize::MAX,
        storage.len() == max,
        forall|i: int| 0 <= i < chunks.len() ==> (#[trigger] chunks[i]).len() <= usize::MAX,
    ensures
        ({
            let (slots, len, returned) = cache_run(max, storage, chunks);
            let seen = seen_positions(chunks);
            &&& slots.len() == max
            &&& len == min_nat(seen.len(), max)
            &&& slots.subrange(0, len as int) == latest_window(seen, max)
            &&& chunks.len() > 0 ==> returned == latest_window(seen, max)
            &&& (chunks.len() > 1 && seen.len() <= max) ==> returned == cache_run(
                max,
                storage,
                chunks.drop_last(),
            ).2 + chunks.last()
        }),
    decreases chunks.len(),
{
    if chunks.len() > 0 {
        let prefix = chunks.drop_last();
        assert forall|i: int| 0 <= i < prefix.len() implies (#[trigger] prefix[i]).len() <= usize::MAX by {
            assert(prefix[i] == chunks[i]);
        }
        lemma_cache_run_holds_latest_window(max, storage, prefix);
        let (slots, len, _) = cache_run(max, storage, prefix);
        let last = chunks.last();
        assert(last == chunks[chunks.len() - 1]);
        lemma_plan_keeps_latest_window(max, len, false, slots, seen_positions(prefix), last);
        if chunks.len() > 1 && seen_positions(chunks).len() <= max {
            assert(latest_window(seen_positions(prefix), max) =~= seen_positions(prefix));
        }
    } else {
        assert(storage.subrange(0, 0) =~= Seq::<A>::empty());
        assert(latest_window(Seq::<A>::empty(), max) =~= Seq::<A>::empty());
    }
}

/// The key and value caches of one attention layer.
#[derive(Debug, Clone, Copy)]
pub struct KeyValueCache {
    pub key: AutoregressiveCache,
    pub value: AutoregressiveCache,
}

impl KeyValueCache {
    pub open spec fn wf(&self) -> bool {
        &&& self.key.wf()
        &&& self.value.wf()
    }

    pub fn new(max_batch_size: usize, num_heads: usize, max_seq_len: usize, head_dim: usize) -> (c: Self)
        ensures
            c.wf(),
            c.key.cur_len() == 0,
            c.value.cur_len() == 0,
            c.key.window_len() == max_seq_len,
            c.value.window_len() == max_seq_len,
            c.key.heads() == num_heads && c.value.heads() == num_heads,
            c.key.dim() == head_dim && c.value.dim() == head_dim,
            c.key.batch_limit() == max_batch_size && c.value.batch_limit() == max_batch_size,
            !c.key.is_allocated() && !c.value.is_allocated(),
    {
        KeyValueCache {
            key: AutoregressiveCache::new(max_batch_size, num_heads, max_seq_len, head_dim),
            value: AutoregressiveCache::new(max_batch_size, num_heads, max_seq_len, head_dim),
        }
    }

    pub fn reset(&mut self)
        ensures
            final(self).wf(),
            final(self).key.cur_len() == 0,
            final(self).value.cur_len() == 0,
            !final(self).key.is_allocated() && !final(self).value.is_allocated(),
            final(self).key.window_len() == old(self).key.window_len(),
            final(self).value.window_len() == old(self).value.window_len(),
            final(self).key.heads() == old(self).key.heads(),
            final(self).value.heads() == old(self).value.heads(),
            final(self).key.dim() == old(self).key.dim(),
            final(self).value.dim() == old(self).value.dim(),
            final(self).key.batch_limit() == old(self).key.batch_limit(),
            final(self).value.batch_limit() == old(self).value.batch_limit(),
    {
        self.key.reset();
        self.value.reset();
    }

    /// The number of cached positions (those of the key cache).
    pub fn len(&self) -> (n: usize)
        ensures
            n == self.key.cur_len(),
    {
        self.key.len()
    }

    /// Records one step of keys and values of shape `[batch_size, num_heads, seq_len, head_dim]`.
    pub fn forward(&mut self, batch_size: usize, num_heads: usize, seq_len: usize, head_dim: usize) -> (steps: (
        CacheStep,
        CacheStep,
    ))
        requires
            old(self).wf(),
            batch_size <= old(self).key.batch_limit(),
            batch_size <= old(self).value.batch_limit(),
            num_heads == old(self).key.heads() && num_heads == old(self).value.heads(),
            head_dim == old(self).key.dim() && head_dim == old(self).value.dim(),
            old(self).key.cur_len() + seq_len <= usize::MAX,
            old(self).value.cur_len() + seq_len <= usize::MAX,
        ensures
            final(self).wf(),
            (steps.0, final(self).key.cur_len()) == old(self).key.next_step(seq_len as nat),
            (steps.1, final(self).value.cur_len()) == old(self).value.next_step(seq_len as nat),
            final(self).key.window_len() == old(self).key.window_len(),
            final(self).value.window_len() == old(self).value.window_len(),
            final(self).key.heads() == old(self).key.heads(),
            final(self).value.heads() == old(self).value.heads(),
            final(self).key.dim() == old(self).key.dim(),
            final(self).value.dim() == old(self).value.dim(),
            final(self).key.batch_limit() == old(self).key.batch_limit(),
            final(self).value.batch_limit() == old(self).value.batch_limit(),
            final(self).key.is_allocated() && final(self).value.is_allocated(),
    {
        let key_step = self.key.forward(batch_size, num_heads, seq_len, head_dim);
        let value_step = self.value.forward(batch_size, num_heads, seq_len, head_dim);
        (key_step, value_step)
    }
}

/// A window of `groups + 1` positions, filled from empty by one step of two positions and
/// `groups - 2` single-position steps (one code predictor run), never slides: every step
/// only appends.
pub proof fn lemma_predictor_window_never_slides(cache: AutoregressiveCache, groups: nat, steps_done: nat)
    requires
        cache.wf(),
        groups >= 2,
        cache.window_len() == groups + 1,
        steps_done <= groups - 2,
        cache.cur_len() == if steps_done == 0 { 0 } else { steps_done + 1 },
    ensures
        ({
            let seq: nat = if steps_done == 0 { 2 } else { 1 };
            let (step, next_len) = cache.next_step(seq);
            &&& step.update matches CacheUpdate::Append { shift_from, .. } && shift_from is None
            &&& next_len == steps_done + 2
        }),
{
}

} // verus!
