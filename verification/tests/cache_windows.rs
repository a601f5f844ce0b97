use tts_qwen3_tts::cache::{AutoregressiveCache, CacheStep, CacheUpdate, KeyValueCache};
use tts_qwen3_tts::generation::{decode_position_id, new_talker_caches};

fn append(shift_from: Option<usize>, write_start: usize, write_end: usize, returns_incoming: bool) -> CacheUpdate {
    CacheUpdate::Append { shift_from, write_start, write_end, returns_incoming }
}

#[test]
fn cache_fills_then_slides_then_keeps_latest() {
    let mut cache = AutoregressiveCache::new(1, 2, 4, 8);
    assert_eq!(cache.len(), 0);
    assert_eq!(cache.max_seq_len(), 4);

    let step = cache.forward(1, 2, 3, 8);
    assert_eq!(step, CacheStep { allocate: true, update: append(None, 0, 3, true) });
    assert_eq!(cache.len(), 3);

    let step = cache.forward(1, 2, 1, 8);
    assert_eq!(step, CacheStep { allocate: false, update: append(None, 3, 4, false) });
    assert_eq!(cache.len(), 4);

    let step = cache.forward(1, 2, 1, 8);
    assert_eq!(step, CacheStep { allocate: false, update: append(Some(1), 3, 4, false) });
    assert_eq!(cache.len(), 4);

    let step = cache.forward(1, 2, 6, 8);
    assert_eq!(step, CacheStep { allocate: false, update: CacheUpdate::KeepLatest { keep_from: 2 } });
    assert_eq!(cache.len(), 4);
}

#[test]
fn cache_overflowing_a_partial_window_keeps_the_newest_positions() {
    let mut cache = AutoregressiveCache::new(1, 1, 4, 2);
    cache.forward(1, 1, 3, 2);
    let step = cache.forward(1, 1, 2, 2);
    assert_eq!(step.update, append(Some(1), 2, 4, false));
    assert_eq!(cache.len(), 4);
}

#[test]
fn cache_reset_drops_storage_and_preserving_reset_keeps_it() {
    let mut cache = AutoregressiveCache::new(1, 1, 4, 2);
    cache.forward(1, 1, 2, 2);
    cache.reset_preserve_allocation();
    assert_eq!(cache.len(), 0);
    let step = cache.forward(1, 1, 1, 2);
    assert!(!step.allocate);
    assert_eq!(step.update, append(None, 0, 1, true));

    cache.reset();
    assert_eq!(cache.len(), 0);
    let step = cache.forward(1, 1, 1, 2);
    assert!(step.allocate);
}

#[test]
fn key_value_cache_moves_keys_and_values_together() {
    let mut cache = KeyValueCache::new(1, 2, 3, 4);
    let (k, v) = cache.forward(1, 2, 2, 4);
    assert_eq!(k, v);
    assert_eq!(k.update, append(None, 0, 2, true));
    assert_eq!(cache.len(), 2);
    cache.reset();
    assert_eq!(cache.len(), 0);
}

#[test]
fn talker_caches_have_decode_and_predictor_windows() {
    let (decode, predictor) = new_talker_caches(3, 2, 64, 2, 4, 32, 16);
    assert_eq!(decode.len(), 3);
    assert_eq!(predictor.len(), 2);
    for c in &decode {
        assert_eq!(c.key.max_seq_len(), 4096);
        assert_eq!(c.value.max_seq_len(), 4096);
        assert_eq!(c.len(), 0);
    }
    for c in &predictor {
        assert_eq!(c.key.max_seq_len(), 17);
        assert_eq!(c.len(), 0);
    }
}

#[test]
fn predictor_run_only_appends() {
    let (_, mut predictor) = new_talker_caches(0, 1, 8, 1, 1, 8, 4);
    let cache = &mut predictor[0];
    let (k, _) = cache.forward(1, 1, 2, 8);
    assert_eq!(k.update, append(None, 0, 2, true));
    for expected_start in 2..4 {
        let (k, _) = cache.forward(1, 1, 1, 8);
        assert_eq!(k.update, append(None, expected_start, expected_start + 1, false));
    }
    assert_eq!(cache.len(), 4);
}

#[test]
fn decode_position_follows_first_layer_cache() {
    let (mut decode, _) = new_talker_caches(2, 1, 8, 0, 1, 8, 2);
    assert_eq!(decode_position_id(&decode).unwrap(), 0);
    decode[0].forward(1, 1, 5, 8);
    assert_eq!(decode_position_id(&decode).unwrap(), 5);
    decode[1].forward(1, 1, 2, 8);
    assert_eq!(decode_position_id(&decode).unwrap(), 5);
}

#[test]
fn decode_position_needs_a_layer() {
    let err = decode_position_id(&[]).unwrap_err();
    assert_eq!(err.to_string(), "decode cache must contain at least one layer");
}

fn apply(slots: &mut Vec<i32>, incoming: &[i32], update: CacheUpdate) -> Vec<i32> {
    match update {
        CacheUpdate::KeepLatest { keep_from } => {
            let latest = incoming[keep_from..].to_vec();
            *slots = latest.clone();
            latest
        }
        CacheUpdate::Append { shift_from, write_start, write_end, returns_incoming } => {
            if let Some(s) = shift_from {
                let moved = slots[s..s + write_start].to_vec();
                slots[..write_start].copy_from_slice(&moved);
            }
            slots[write_start..write_end].copy_from_slice(incoming);
            if returns_incoming {
                incoming.to_vec()
            } else {
                slots[..write_end].to_vec()
            }
        }
    }
}

#[test]
fn cache_returns_newest_positions_when_a_partial_window_overflows() {
    let mut cache = AutoregressiveCache::new(1, 1, 3, 1);
    let mut slots = vec![0; 3];
    let step = cache.forward(1, 1, 2, 1);
    assert_eq!(apply(&mut slots, &[1, 2], step.update), vec![1, 2]);
    assert_eq!(cache.len(), 2);
    let step = cache.forward(1, 1, 2, 1);
    assert_eq!(apply(&mut slots, &[3, 4], step.update), vec![2, 3, 4]);
    assert_eq!(cache.len(), 3);
    let step = cache.forward(1, 1, 1, 1);
    assert_eq!(apply(&mut slots, &[5], step.update), vec![3, 4, 5]);
    let step = cache.forward(1, 1, 4, 1);
    assert_eq!(apply(&mut slots, &[6, 7, 8, 9], step.update), vec![7, 8, 9]);
    assert_eq!(cache.len(), 3);
}
