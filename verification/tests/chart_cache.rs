use unifly::chart_cache::{
    CachedChart, CachedChartStatus, ChartCache, ChartImageKey, ChartSlotKey, SendOutcome, CHART_CACHE_CAPACITY,
};

#[test]
fn a_stored_image_is_drawn() {
    let mut cache: ChartCache<u32> = ChartCache::new();
    cache.insert_ready(ChartSlotKey(1), ChartImageKey(10), 7);
    assert_eq!(cache.lookup(ChartSlotKey(1), ChartImageKey(10)), (CachedChart::Rendered, Some(&7)));
}

#[test]
fn a_new_image_shows_the_slots_last_one_while_pending() {
    let mut cache: ChartCache<u32> = ChartCache::new();
    cache.insert_ready(ChartSlotKey(1), ChartImageKey(10), 7);
    assert!(cache.begin_queue(ChartImageKey(11)));
    assert!(cache.finish_queue(ChartImageKey(11), SendOutcome::Sent));
    assert!(!cache.begin_queue(ChartImageKey(11)));
    assert_eq!(
        cache.lookup(ChartSlotKey(1), ChartImageKey(11)),
        (CachedChart::Stale(CachedChartStatus::Pending), Some(&7))
    );
    assert_eq!(cache.lookup(ChartSlotKey(2), ChartImageKey(11)), (CachedChart::Pending, None));
    cache.record_response(ChartSlotKey(1), ChartImageKey(11), Ok(8));
    assert_eq!(cache.lookup(ChartSlotKey(1), ChartImageKey(11)), (CachedChart::Rendered, Some(&8)));
}

#[test]
fn failures_are_remembered_until_requeued() {
    let mut cache: ChartCache<u32> = ChartCache::new();
    assert!(cache.begin_queue(ChartImageKey(5)));
    cache.finish_queue(ChartImageKey(5), SendOutcome::Sent);
    cache.record_response(ChartSlotKey(1), ChartImageKey(5), Err("encode failed".into()));
    assert_eq!(cache.lookup(ChartSlotKey(1), ChartImageKey(5)), (CachedChart::Failed, None));
    assert!(cache.begin_queue(ChartImageKey(5)));
    assert_eq!(cache.lookup(ChartSlotKey(1), ChartImageKey(5)), (CachedChart::Missing, None));
}

#[test]
fn a_full_queue_sends_nothing_and_a_dead_worker_fails() {
    let mut cache: ChartCache<u32> = ChartCache::new();
    cache.begin_queue(ChartImageKey(1));
    assert!(!cache.finish_queue(ChartImageKey(1), SendOutcome::Full));
    assert_eq!(cache.lookup(ChartSlotKey(0), ChartImageKey(1)), (CachedChart::Missing, None));
    cache.begin_queue(ChartImageKey(2));
    assert!(!cache.finish_queue(ChartImageKey(2), SendOutcome::Disconnected));
    assert_eq!(cache.lookup(ChartSlotKey(0), ChartImageKey(2)), (CachedChart::Failed, None));
}

#[test]
fn the_cache_keeps_at_most_its_capacity() {
    let mut cache: ChartCache<u64> = ChartCache::new();
    for i in 0..(CHART_CACHE_CAPACITY as u64 + 5) {
        cache.insert_ready(ChartSlotKey(i), ChartImageKey(i), i);
    }
    assert_eq!(cache.ready_len(), CHART_CACHE_CAPACITY);
    assert_eq!(cache.lookup(ChartSlotKey(0), ChartImageKey(0)), (CachedChart::Missing, None));
    let newest = CHART_CACHE_CAPACITY as u64 + 4;
    assert_eq!(
        cache.lookup(ChartSlotKey(newest), ChartImageKey(newest)),
        (CachedChart::Rendered, Some(&newest))
    );
}

#[test]
fn evicted_images_leave_every_slot() {
    let mut cache: ChartCache<u64> = ChartCache::new();
    // Slot 7 last showed image 0; filling the cache past its capacity from
    // other slots evicts image 0, and slot 7 then has nothing stale to show.
    cache.insert_ready(ChartSlotKey(7), ChartImageKey(0), 0);
    for i in 1..=(CHART_CACHE_CAPACITY as u64) {
        cache.insert_ready(ChartSlotKey(100 + i), ChartImageKey(i), i);
    }
    assert_eq!(cache.ready_len(), CHART_CACHE_CAPACITY);
    assert_eq!(cache.lookup(ChartSlotKey(7), ChartImageKey(999)), (CachedChart::Missing, None));
    let last = CHART_CACHE_CAPACITY as u64;
    assert_eq!(cache.lookup(ChartSlotKey(100 + last), ChartImageKey(last)), (CachedChart::Rendered, Some(&last)));
}
