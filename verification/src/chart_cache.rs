//! Bookkeeping of the pixel-chart cache: which encoded chart images are
//! ready, pending or failed, the latest image of each chart slot, and the
//! bounded eviction of old images.
//!
//! The encoded images themselves are opaque payloads of type `P`.

use vstd::prelude::*;

verus! {

/// Most encoded charts kept at once.
pub const CHART_CACHE_CAPACITY: usize = 48;

/// Identity of one rendered chart image (a hash of its content).
#[derive(Debug, Clone, Copy, PartialEq, Eq, Hash, Structural)]
pub struct ChartImageKey(pub u64);

/// Identity of a place on screen that shows a chart.
#[derive(Debug, Clone, Copy, PartialEq, Eq, Hash, Structural)]
pub struct ChartSlotKey(pub u64);

/// What drawing a chart from the cache achieved.
#[derive(Debug, Clone, Copy, PartialEq, Eq, Structural)]
pub enum CachedChart {
    Rendered,
    /// An older image of the slot was drawn; the status is that of the
    /// requested image.
    Stale(CachedChartStatus),
    Missing,
    Pending,
    Failed,
}

#[derive(Debug, Clone, Copy, PartialEq, Eq, Structural)]
pub enum CachedChartStatus {
    Missing,
    Pending,
    Failed,
}

/// Outcome of handing an encode request to the worker.
#[derive(Debug, Clone, Copy, PartialEq, Eq, Structural)]
pub enum SendOutcome {
    Sent,
    Full,
    Disconnected,
}

// ── Association lists ─────────────────────────────────────────────────

/// The value of the first entry with key `k`.
pub open spec fn assoc_get<V>(s: Seq<(u64, V)>, k: u64) -> Option<V>
    decreases s.len(),
{
    if s.len() == 0 {
        None
    } else if s[0].0 == k {
        Some(s[0].1)
    } else {
        assoc_get(s.drop_first(), k)
    }
}

/// The list without any entry of key `k`.
pub open spec fn assoc_without<V>(s: Seq<(u64, V)>, k: u64) -> Seq<(u64, V)>
    decreases s.len(),
{
    if s.len() == 0 {
        s
    } else if s[0].0 == k {
        assoc_without(s.drop_first(), k)
    } else {
        seq![s[0]] + assoc_without(s.drop_first(), k)
    }
}

/// The list without any entry whose value is `v`.
pub open spec fn assoc_without_value(s: Seq<(u64, u64)>, v: u64) -> Seq<(u64, u64)>
    decreases s.len(),
{
    if s.len() == 0 {
        s
    } else if s[0].1 == v {
        assoc_without_value(s.drop_first(), v)
    } else {
        seq![s[0]] + assoc_without_value(s.drop_first(), v)
    }
}

/// Map update: `k` now maps to `v`.
pub open spec fn assoc_put<V>(s: Seq<(u64, V)>, k: u64, v: V) -> Seq<(u64, V)> {
    assoc_without(s, k).push((k, v))
}

/// Set removal.
pub open spec fn set_without(s: Seq<u64>, k: u64) -> Seq<u64> {
    s.filter(other_than(k))
}

/// The predicate "is not `k`".
pub open spec fn other_than(k: u64) -> spec_fn(u64) -> bool {
    |x: u64| x != k
}

/// Set insertion.
pub open spec fn set_with(s: Seq<u64>, k: u64) -> Seq<u64> {
    if s.contains(k) {
        s
    } else {
        s.push(k)
    }
}

proof fn lemma_without_first<V>(s: Seq<(u64, V)>, k: u64, i: int)
    requires
        0 <= i < s.len(),
        s[i].0 == k,
        forall|j: int| 0 <= j < i ==> s[j].0 != k,
    ensures
        assoc_without(s, k) == assoc_without(s.remove(i), k),
        assoc_get(s, k) == Some(s[i].1),
    decreases s.len(),
{
    if i > 0 {
        lemma_without_first(s.drop_first(), k, i - 1);
        assert(s.remove(i).drop_first() =~= s.drop_first().remove(i - 1));
        assert(s.remove(i)[0] == s[0]);
    } else {
        assert(s.remove(0) =~= s.drop_first());
    }
}

proof fn lemma_without_absent<V>(s: Seq<(u64, V)>, k: u64)
    requires
        forall|j: int| 0 <= j < s.len() ==> s[j].0 != k,
    ensures
        assoc_without(s, k) == s,
        assoc_get(s, k) is None,
    decreases s.len(),
{
    if s.len() > 0 {
        lemma_without_absent(s.drop_first(), k);
        assert(seq![s[0]] + s.drop_first() =~= s);
    }
}

proof fn lemma_without_value_first(s: Seq<(u64, u64)>, v: u64, i: int)
    requires
        0 <= i < s.len(),
        s[i].1 == v,
        forall|j: int| 0 <= j < i ==> s[j].1 != v,
    ensures
        assoc_without_value(s, v) == assoc_without_value(s.remove(i), v),
    decreases s.len(),
{
    if i > 0 {
        lemma_without_value_first(s.drop_first(), v, i - 1);
        assert(s.remove(i).drop_first() =~= s.drop_first().remove(i - 1));
        assert(s.remove(i)[0] == s[0]);
    } else {
        assert(s.remove(0) =~= s.drop_first());
    }
}

proof fn lemma_without_value_absent(s: Seq<(u64, u64)>, v: u64)
    requires
        forall|j: int| 0 <= j < s.len() ==> s[j].1 != v,
    ensures
        assoc_without_value(s, v) == s,
    decreases s.len(),
{
    if s.len() > 0 {
        lemma_without_value_absent(s.drop_first(), v);
        assert(seq![s[0]] + s.drop_first() =~= s);
    }
}

proof fn lemma_get_after_put<V>(s: Seq<(u64, V)>, k: u64, v: V, q: u64)
    ensures
        assoc_get(assoc_put(s, k, v), q) == (if q == k {
            Some(v)
        } else {
            assoc_get(s, q)
        }),
    decreases s.len(),
{
    lemma_get_without_push(assoc_without(s, k), k, v, q);
    lemma_get_without(s, k, q);
}

proof fn lemma_get_without_push<V>(s: Seq<(u64, V)>, k: u64, v: V, q: u64)
    ensures
        assoc_get(s.push((k, v)), q) == (match assoc_get(s, q) {
            Some(x) => Some(x),
            None => if q == k {
                Some(v)
            } else {
                None
            },
        }),
    decreases s.len(),
{
    if s.len() > 0 {
        assert(s.push((k, v)).drop_first() =~= s.drop_first().push((k, v)));
        assert(s.push((k, v))[0] == s[0]);
        lemma_get_without_push(s.drop_first(), k, v, q);
    } else {
        assert(s.push((k, v)).drop_first().len() == 0);
        assert(assoc_get(s.push((k, v)).drop_first(), q) is None);
        assert(s.push((k, v))[0] == (k, v));
    }
}

proof fn lemma_get_without<V>(s: Seq<(u64, V)>, k: u64, q: u64)
    ensures
        assoc_get(assoc_without(s, k), q) == (if q == k {
            None
        } else {
            assoc_get(s, q)
        }),
    decreases s.len(),
{
    if s.len() > 0 {
        lemma_get_without(s.drop_first(), k, q);
        if s[0].0 != k {
            assert((seq![s[0]] + assoc_without(s.drop_first(), k))[0] == s[0]);
            assert((seq![s[0]] + assoc_without(s.drop_first(), k)).drop_first() =~= assoc_without(
                s.drop_first(),
                k,
            ));
        }
    }
}

fn find_key<V>(s: &Vec<(u64, V)>, k: u64) -> (r: Option<usize>)
    ensures
        match r {
            Some(i) => i < s.len() && s@[i as int].0 == k && forall|j: int|
                0 <= j < i ==> s@[j].0 != k,
            None => forall|j: int| 0 <= j < s.len() ==> s@[j].0 != k,
        },
{
    let mut i: usize = 0;
    while i < s.len()
        invariant
            i <= s.len(),
            forall|j: int| 0 <= j < i ==> s@[j].0 != k,
        decreases s.len() - i,
    {
        if s[i].0 == k {
            return Some(i);
        }
        i = i + 1;
    }
    None
}

fn get_ref<V>(s: &Vec<(u64, V)>, k: u64) -> (r: Option<&V>)
    ensures
        match assoc_get(s@, k) {
            Some(v) => r == Some(&v),
            None => r is None,
        },
{
    match find_key(s, k) {
        Some(i) => {
            proof {
                lemma_without_first(s@, k, i as int);
            }
            Some(&s[i].1)
        },
        None => {
            proof {
                lemma_without_absent(s@, k);
            }
            None
        },
    }
}

fn remove_key<V>(s: &mut Vec<(u64, V)>, k: u64)
    ensures
        final(s)@ == assoc_without(old(s)@, k),
{
    loop
        invariant
            assoc_without(s@, k) == assoc_without(old(s)@, k),
        decreases s.len(),
    {
        match find_key(s, k) {
            Some(i) => {
                proof {
                    lemma_without_first(s@, k, i as int);
                }
                s.remove(i);
            },
            None => {
                proof {
                    lemma_without_absent(s@, k);
                }
                return;
            },
        }
    }
}

fn put<V>(s: &mut Vec<(u64, V)>, k: u64, v: V)
    ensures
        final(s)@ == assoc_put(old(s)@, k, v),
{
    remove_key(s, k);
    s.push((k, v));
}

fn find_value(s: &Vec<(u64, u64)>, v: u64) -> (r: Option<usize>)
    ensures
        match r {
            Some(i) => i < s.len() && s@[i as int].1 == v && forall|j: int|
                0 <= j < i ==> s@[j].1 != v,
            None => forall|j: int| 0 <= j < s.len() ==> s@[j].1 != v,
        },
{
    let mut i: usize = 0;
    while i < s.len()
        invariant
            i <= s.len(),
            forall|j: int| 0 <= j < i ==> s@[j].1 != v,
        decreases s.len() - i,
    {
        if s[i].1 == v {
            return Some(i);
        }
        i = i + 1;
    }
    None
}

fn remove_value(s: &mut Vec<(u64, u64)>, v: u64)
    ensures
        final(s)@ == assoc_without_value(old(s)@, v),
{
    loop
        invariant
            assoc_without_value(s@, v) == assoc_without_value(old(s)@, v),
        decreases s.len(),
    {
        match find_value(s, v) {
            Some(i) => {
                proof {
                    lemma_without_value_first(s@, v, i as int);
                }
                s.remove(i);
            },
            None => {
                proof {
                    lemma_without_value_absent(s@, v);
                }
                return;
            },
        }
    }
}

fn set_contains(s: &Vec<u64>, k: u64) -> (r: bool)
    ensures
        r == s@.contains(k),
{
    let mut i: usize = 0;
    while i < s.len()
        invariant
            i <= s.len(),
            forall|j: int| 0 <= j < i ==> s@[j] != k,
        decreases s.len() - i,
    {
        if s[i] == k {
            return true;
        }
        i = i + 1;
    }
    false
}

fn set_remove(s: &mut Vec<u64>, k: u64)
    ensures
        final(s)@ == set_without(old(s)@, k),
{
    let mut out: Vec<u64> = Vec::new();
    let mut i: usize = 0;
    while i < s.len()
        invariant
            i <= s.len(),
            out@ == s@.take(i as int).filter(other_than(k)),
        decreases s.len() - i,
    {
        reveal_with_fuel(Seq::<_>::filter, 1);
        assert(s@.take(i + 1).drop_last() =~= s@.take(i as int));
        assert(s@.take(i + 1).last() == s@[i as int]);
        if s[i] != k {
            out.push(s[i]);
        }
        i = i + 1;
    }
    assert(s@.take(s.len() as int) =~= s@);
    *s = out;
}

fn set_insert(s: &mut Vec<u64>, k: u64)
    ensures
        final(s)@ == set_with(old(s)@, k),
{
    if !set_contains(s, k) {
        s.push(k);
    }
}

// ── The cache ─────────────────────────────────────────────────────────

/// Abstract state of the cache.
pub struct ChartCacheModel<P> {
    /// Encoded images by image key.
    pub ready: Seq<(u64, P)>,
    /// Latest image key by slot key.
    pub latest_by_slot: Seq<(u64, u64)>,
    /// Image keys being encoded.
    pub pending: Seq<u64>,
    /// Image keys whose encoding failed.
    pub failed: Seq<u64>,
    /// Image keys in the order they became ready (oldest first).
    pub order: Seq<u64>,
}

/// Drops the oldest images until at most the capacity remain; the image
/// just stored (`keep`) is never dropped.
pub open spec fn spec_evict<P>(
    ready: Seq<(u64, P)>,
    latest: Seq<(u64, u64)>,
    order: Seq<u64>,
    keep: u64,
) -> (Seq<(u64, P)>, Seq<(u64, u64)>, Seq<u64>)
    decreases order.len(),
{
    if ready.len() <= CHART_CACHE_CAPACITY || order.len() == 0 {
        (ready, latest, order)
    } else if order[0] != keep {
        spec_evict(
            assoc_without(ready, order[0]),
            assoc_without_value(latest, order[0]),
            order.drop_first(),
            keep,
        )
    } else {
        spec_evict(ready, latest, order.drop_first(), keep)
    }
}

/// The cache after storing the encoded image `p` for `key`, shown in `slot`.
pub open spec fn spec_insert_ready<P>(m: ChartCacheModel<P>, slot: u64, key: u64, p: P) -> ChartCacheModel<
    P,
> {
    let order = if assoc_get(m.ready, key) is None {
        m.order.push(key)
    } else {
        m.order
    };
    let (ready, latest, order) = spec_evict(
        assoc_put(m.ready, key, p),
        assoc_put(m.latest_by_slot, slot, key),
        order,
        key,
    );
    ChartCacheModel {
        ready,
        latest_by_slot: latest,
        pending: m.pending,
        failed: set_without(m.failed, key),
        order,
    }
}

/// The status of an image that is not ready.
pub open spec fn spec_exact_status<P>(m: ChartCacheModel<P>, key: u64) -> CachedChartStatus {
    if m.pending.contains(key) {
        CachedChartStatus::Pending
    } else if m.failed.contains(key) {
        CachedChartStatus::Failed
    } else {
        CachedChartStatus::Missing
    }
}

/// Which image drawing `key` in `slot` shows, and how it is reported.
pub open spec fn spec_lookup<P>(m: ChartCacheModel<P>, slot: u64, key: u64) -> (CachedChart, Option<P>) {
    match assoc_get(m.ready, key) {
        Some(p) => (CachedChart::Rendered, Some(p)),
        None => {
            let status = spec_exact_status(m, key);
            let stale = match assoc_get(m.latest_by_slot, slot) {
                Some(latest) => assoc_get(m.ready, latest),
                None => None,
            };
            match stale {
                Some(p) => (CachedChart::Stale(status), Some(p)),
                None => (
                    match status {
                        CachedChartStatus::Missing => CachedChart::Missing,
                        CachedChartStatus::Pending => CachedChart::Pending,
                        CachedChartStatus::Failed => CachedChart::Failed,
                    },
                    None,
                ),
            }
        },
    }
}

/// Encoded chart images and their bookkeeping.
pub struct ChartCache<P> {
    ready: Vec<(u64, P)>,
    latest_by_slot: Vec<(u64, u64)>,
    pending: Vec<u64>,
    failed: Vec<u64>,
    order: Vec<u64>,
}

impl<P> View for ChartCache<P> {
    type V = ChartCacheModel<P>;

    closed spec fn view(&self) -> ChartCacheModel<P> {
        ChartCacheModel {
            ready: self.ready@,
            latest_by_slot: self.latest_by_slot@,
            pending: self.pending@,
            failed: self.failed@,
            order: self.order@,
        }
    }
}

impl<P> ChartCache<P> {
    /// An empty cache.
    pub fn new() -> (r: Self)
        ensures
            r@.ready.len() == 0,
            r@.latest_by_slot.len() == 0,
            r@.pending.len() == 0,
            r@.failed.len() == 0,
            r@.order.len() == 0,
            cache_wf(r@),
    {
        ChartCache {
            ready: Vec::new(),
            latest_by_slot: Vec::new(),
            pending: Vec::new(),
            failed: Vec::new(),
            order: Vec::new(),
        }
    }

    /// Number of encoded images held.
    pub fn ready_len(&self) -> (r: usize)
        ensures
            r == self@.ready.len(),
    {
        self.ready.len()
    }

    /// First step of queueing an encode of `key`: `false` when the image is
    /// already ready or pending (nothing to send); otherwise forgets an
    /// earlier failure of it and answers `true` (send a request).
    pub fn begin_queue(&mut self, key: ChartImageKey) -> (send: bool)
        ensures
            send == !(assoc_get(old(self)@.ready, key.0) is Some || old(self)@.pending.contains(
                key.0,
            )),
            !send ==> final(self)@ == old(self)@,
            send ==> final(self)@ == (ChartCacheModel {
                failed: set_without(old(self)@.failed, key.0),
                ..old(self)@
            }),
    {
        let k = key.0;
        let ready = get_ref(&self.ready, k).is_some();
        if ready || set_contains(&self.pending, k) {
            return false;
        }
        set_remove(&mut self.failed, k);
        true
    }

    /// Second step of queueing: records how the send went. A sent request
    /// becomes pending; a disconnected worker marks the image failed.
    /// Answers whether the request is under way.
    pub fn finish_queue(&mut self, key: ChartImageKey, outcome: SendOutcome) -> (queued: bool)
        ensures
            queued == (outcome == SendOutcome::Sent),
            final(self)@ == match outcome {
                SendOutcome::Sent => ChartCacheModel {
                    pending: set_with(old(self)@.pending, key.0),
                    ..old(self)@
                },
                SendOutcome::Full => old(self)@,
                SendOutcome::Disconnected => ChartCacheModel {
                    failed: set_with(old(self)@.failed, key.0),
                    ..old(self)@
                },
            },
    {
        match outcome {
            SendOutcome::Sent => {
                set_insert(&mut self.pending, key.0);
                true
            },
            SendOutcome::Full => false,
            SendOutcome::Disconnected => {
                set_insert(&mut self.failed, key.0);
                false
            },
        }
    }

    /// Stores an encoded image as the latest of its slot, then drops the
    /// oldest images beyond the capacity.
    pub fn insert_ready(&mut self, slot: ChartSlotKey, key: ChartImageKey, protocol: P)
        ensures
            final(self)@ == spec_insert_ready(old(self)@, slot.0, key.0, protocol),
            cache_wf(old(self)@) ==> stored_cleanly(old(self)@, final(self)@, slot.0, key.0, protocol),
    {
        proof {
            if cache_wf(old(self)@) {
                law_store_bounds_cache(old(self)@, slot.0, key.0, protocol);
            }
        }
        let k = key.0;
        set_remove(&mut self.failed, k);
        let present = get_ref(&self.ready, k).is_some();
        if !present {
            self.order.push(k);
        }
        put(&mut self.ready, k, protocol);
        put(&mut self.latest_by_slot, slot.0, k);
        let ghost goal = spec_evict(self.ready@, self.latest_by_slot@, self.order@, k);
        while self.ready.len() > CHART_CACHE_CAPACITY
            invariant
                goal == spec_evict(self.ready@, self.latest_by_slot@, self.order@, k),
                self.failed@ == set_without(old(self).failed@, k),
                self.pending@ == old(self).pending@,
            ensures
                goal == (self.ready@, self.latest_by_slot@, self.order@),
            decreases self.order.len(),
        {
            if self.order.len() == 0 {
                break;
            }
            let ghost prev_order = self.order@;
            let expired = self.order.remove(0);
            assert(self.order@ =~= prev_order.drop_first());
            if expired != k {
                remove_key(&mut self.ready, expired);
                remove_value(&mut self.latest_by_slot, expired);
            }
        }
    }

    /// Records the worker's answer for `key`: the image becomes ready (and
    /// the latest of `slot`), or it is dropped and marked failed.
    pub fn record_response(&mut self, slot: ChartSlotKey, key: ChartImageKey, result: Result<P, String>)
        ensures
            ({
                let cleared = ChartCacheModel {
                    pending: set_without(old(self)@.pending, key.0),
                    ..old(self)@
                };
                match result {
                    Ok(p) => final(self)@ == spec_insert_ready(cleared, slot.0, key.0, p),
                    Err(_) => final(self)@ == (ChartCacheModel {
                        ready: assoc_without(cleared.ready, key.0),
                        failed: set_with(cleared.failed, key.0),
                        ..cleared
                    }),
                }
            }),
            cache_wf(old(self)@) ==> cache_wf(final(self)@),
    {
        proof {
            if cache_wf(old(self)@) {
                let cleared = ChartCacheModel { pending: set_without(old(self)@.pending, key.0), ..old(self)@ };
                law_cache_stays_well_formed(cleared, key.0);
                if result is Ok {
                    law_store_bounds_cache(cleared, slot.0, key.0, result->Ok_0);
                }
            }
        }
        set_remove(&mut self.pending, key.0);
        match result {
            Ok(protocol) => {
                self.insert_ready(slot, key, protocol);
            },
            Err(_) => {
                remove_key(&mut self.ready, key.0);
                set_insert(&mut self.failed, key.0);
            },
        }
    }

    /// Chooses what to draw for `key` in `slot`: the image itself when
    /// ready, else the slot's latest ready image (stale), else nothing.
    pub fn lookup(&self, slot: ChartSlotKey, key: ChartImageKey) -> (r: (CachedChart, Option<&P>))
        ensures
            ({
                let (chart, shown) = spec_lookup(self@, slot.0, key.0);
                &&& r.0 == chart
                &&& match shown {
                    Some(p) => r.1 == Some(&p),
                    None => r.1 is None,
                }
            }),
    {
        let k = key.0;
        if let Some(p) = get_ref(&self.ready, k) {
            return (CachedChart::Rendered, Some(p));
        }
        let status = if set_contains(&self.pending, k) {
            CachedChartStatus::Pending
        } else if set_contains(&self.failed, k) {
            CachedChartStatus::Failed
        } else {
            CachedChartStatus::Missing
        };
        let latest = get_ref(&self.latest_by_slot, slot.0);
        let stale = match latest {
            Some(latest_key) => get_ref(&self.ready, *latest_key),
            None => None,
        };
        match stale {
            Some(p) => (CachedChart::Stale(status), Some(p)),
            None => (
                match status {
                    CachedChartStatus::Missing => CachedChart::Missing,
                    CachedChartStatus::Pending => CachedChart::Pending,
                    CachedChartStatus::Failed => CachedChart::Failed,
                },
                None,
            ),
        }
    }
}

// ── Laws ──────────────────────────────────────────────────────────────

proof fn lemma_evict_keeps<P>(
    ready: Seq<(u64, P)>,
    latest: Seq<(u64, u64)>,
    order: Seq<u64>,
    keep: u64,
)
    ensures
        ({
            let (r, l, o) = spec_evict(ready, latest, order, keep);
            &&& assoc_get(r, keep) == assoc_get(ready, keep)
            &&& (r.len() <= CHART_CACHE_CAPACITY || o.len() == 0)
        }),
    decreases order.len(),
{
    if ready.len() <= CHART_CACHE_CAPACITY || order.len() == 0 {
    } else if order[0] != keep {
        lemma_get_without(ready, order[0], keep);
        lemma_evict_keeps(
            assoc_without(ready, order[0]),
            assoc_without_value(latest, order[0]),
            order.drop_first(),
            keep,
        );
    } else {
        lemma_evict_keeps(ready, latest, order.drop_first(), keep);
    }
}

/// Read after write: once the encoded image for `key` has been stored,
/// drawing `key` (in any slot) shows exactly that image.
pub proof fn law_stored_image_renders<P>(m: ChartCacheModel<P>, slot: u64, key: u64, p: P, any_slot: u64)
    ensures
        spec_lookup(spec_insert_ready(m, slot, key, p), any_slot, key) == (
            CachedChart::Rendered,
            Some(p),
        ),
{
    let order = if assoc_get(m.ready, key) is None {
        m.order.push(key)
    } else {
        m.order
    };
    lemma_get_after_put(m.ready, key, p, key);
    lemma_evict_keeps(
        assoc_put(m.ready, key, p),
        assoc_put(m.latest_by_slot, slot, key),
        order,
        key,
    );
}

/// The bookkeeping the cache keeps between calls: at most the capacity of
/// images, and every held image listed in the eviction order.
pub open spec fn cache_wf<P>(m: ChartCacheModel<P>) -> bool {
    &&& m.ready.len() <= CHART_CACHE_CAPACITY
    &&& forall|q: u64| #[trigger] assoc_get(m.ready, q) is Some ==> m.order.contains(q)
}

/// What storing image `p` for `key` in `slot` promises of a well-kept
/// cache `m`, going to `n`: `n` is well kept (so at most the capacity of
/// images); the image is held and is the slot's latest; the key is no
/// longer failed; and every image dropped on the way is gone from the images
/// and from every slot.
pub open spec fn stored_cleanly<P>(m: ChartCacheModel<P>, n: ChartCacheModel<P>, slot: u64, key: u64, p: P) -> bool {
    &&& cache_wf(n)
    &&& n.ready.len() <= CHART_CACHE_CAPACITY
    &&& assoc_get(n.ready, key) == Some(p)
    &&& assoc_get(n.latest_by_slot, slot) == Some(key)
    &&& !n.failed.contains(key)
    &&& forall|q: u64|
        #![trigger assoc_get(m.ready, q)]
        assoc_get(m.ready, q) is Some && assoc_get(n.ready, q) is None ==> (forall|j: int|
            0 <= j < n.ready.len() ==> n.ready[j].0 != q) && (forall|j: int|
            0 <= j < n.latest_by_slot.len() ==> n.latest_by_slot[j].1 != q)
}

proof fn lemma_get_none_absent<V>(s: Seq<(u64, V)>, k: u64)
    requires
        assoc_get(s, k) is None,
    ensures
        forall|j: int| 0 <= j < s.len() ==> s[j].0 != k,
    decreases s.len(),
{
    if s.len() > 0 {
        lemma_get_none_absent(s.drop_first(), k);
        assert forall|j: int| 0 <= j < s.len() implies s[j].0 != k by {
            if j > 0 {
                assert(s[j] == s.drop_first()[j - 1]);
            }
        }
    }
}

proof fn lemma_get_index<V>(s: Seq<(u64, V)>, i: int)
    requires
        0 <= i < s.len(),
    ensures
        assoc_get(s, s[i].0) is Some,
    decreases s.len(),
{
    if i > 0 && s[0].0 != s[i].0 {
        assert(s.drop_first()[i - 1] == s[i]);
        lemma_get_index(s.drop_first(), i - 1);
    }
}

proof fn lemma_without_len<V>(s: Seq<(u64, V)>, k: u64)
    ensures
        assoc_without(s, k).len() <= s.len(),
        assoc_get(s, k) is Some ==> assoc_without(s, k).len() < s.len(),
    decreases s.len(),
{
    if s.len() > 0 {
        lemma_without_len(s.drop_first(), k);
    }
}

proof fn lemma_without_push<V>(t: Seq<(u64, V)>, x: (u64, V), e: u64)
    requires
        x.0 != e,
    ensures
        assoc_without(t.push(x), e) == assoc_without(t, e).push(x),
    decreases t.len(),
{
    let u = t.push(x);
    if t.len() == 0 {
        assert(u.drop_first() =~= Seq::<(u64, V)>::empty());
        assert(assoc_without(u.drop_first(), e) =~= Seq::<(u64, V)>::empty());
        assert(seq![u[0]] + assoc_without(u.drop_first(), e) =~= assoc_without(t, e).push(x));
    } else {
        let rest = t.drop_first();
        assert(u.drop_first() =~= rest.push(x));
        assert(u[0] == t[0]);
        lemma_without_push(rest, x, e);
        if t[0].0 != e {
            assert(seq![t[0]] + assoc_without(rest, e).push(x) =~= (seq![t[0]] + assoc_without(rest, e)).push(x));
        }
    }
}

/// Eviction of a cache whose stored image `keep` is its one entry for that
/// key, last: it ends within the capacity and keeps every held image listed,
/// when `keep` sits last in the order whenever there is anything to evict.
proof fn lemma_evict_bound<P>(t: Seq<(u64, P)>, v: P, latest: Seq<(u64, u64)>, order: Seq<u64>, keep: u64)
    requires
        assoc_get(t, keep) is None,
        forall|q: u64| #[trigger] assoc_get(t.push((keep, v)), q) is Some ==> order.contains(q),
        t.push((keep, v)).len() > CHART_CACHE_CAPACITY ==> order.len() > 0 && order.last() == keep,
    ensures
        ({
            let (r, l, o) = spec_evict(t.push((keep, v)), latest, order, keep);
            &&& r.len() <= CHART_CACHE_CAPACITY
            &&& forall|q: u64| #[trigger] assoc_get(r, q) is Some ==> o.contains(q)
        }),
    decreases order.len(),
{
    let ready = t.push((keep, v));
    if ready.len() <= CHART_CACHE_CAPACITY || order.len() == 0 {
    } else {
        // Some image other than `keep` is held, so the order lists it
        // before its last entry and holds at least two entries.
        lemma_get_none_absent(t, keep);
        assert(ready[0] == t[0]);
        lemma_get_index(ready, 0);
        let q = t[0].0;
        assert(order.contains(q));
        let iq = choose|i: int| 0 <= i < order.len() && order[i] == q;
        assert(iq != order.len() - 1);
        let tail = order.drop_first();
        assert(tail.last() == keep);
        let e = order[0];
        if e != keep {
            let t2 = assoc_without(t, e);
            lemma_without_push(t, (keep, v), e);
            lemma_get_without(t, e, keep);
            assert forall|q2: u64| #[trigger] assoc_get(t2.push((keep, v)), q2) is Some implies tail.contains(q2) by {
                lemma_get_without(ready, e, q2);
                assert(order.contains(q2));
                let i2 = choose|i: int| 0 <= i < order.len() && order[i] == q2;
                assert(tail[i2 - 1] == q2);
            }
            lemma_evict_bound(t2, v, assoc_without_value(latest, e), tail, keep);
        } else {
            assert forall|q2: u64| #[trigger] assoc_get(ready, q2) is Some implies tail.contains(q2) by {
                assert(order.contains(q2));
                if q2 == keep {
                    assert(tail[tail.len() - 1] == keep);
                } else {
                    let i2 = choose|i: int| 0 <= i < order.len() && order[i] == q2;
                    assert(tail[i2 - 1] == q2);
                }
            }
            lemma_evict_bound(t, v, latest, tail, keep);
        }
    }
}

proof fn lemma_without_value_removes(l: Seq<(u64, u64)>, v: u64)
    ensures
        forall|j: int|
            0 <= j < assoc_without_value(l, v).len() ==> assoc_without_value(l, v)[j].1 != v,
    decreases l.len(),
{
    if l.len() > 0 {
        let rest = l.drop_first();
        lemma_without_value_removes(rest, v);
        let w = assoc_without_value(rest, v);
        if l[0].1 != v {
            assert forall|j: int| 0 < j < (seq![l[0]] + w).len() implies (seq![l[0]] + w)[j] == w[j - 1] by {}
        }
    }
}

proof fn lemma_without_value_keeps_absent(l: Seq<(u64, u64)>, v: u64, q: u64)
    requires
        forall|j: int| 0 <= j < l.len() ==> l[j].1 != q,
    ensures
        forall|j: int|
            0 <= j < assoc_without_value(l, v).len() ==> assoc_without_value(l, v)[j].1 != q,
    decreases l.len(),
{
    if l.len() > 0 {
        let rest = l.drop_first();
        assert forall|j: int| 0 <= j < rest.len() implies rest[j].1 != q by {
            assert(rest[j] == l[j + 1]);
        }
        lemma_without_value_keeps_absent(rest, v, q);
        let w = assoc_without_value(rest, v);
        if l[0].1 != v {
            assert forall|j: int| 0 < j < (seq![l[0]] + w).len() implies (seq![l[0]] + w)[j] == w[j - 1] by {}
        }
    }
}

proof fn lemma_evict_no_value<P>(ready: Seq<(u64, P)>, latest: Seq<(u64, u64)>, order: Seq<u64>, keep: u64, q: u64)
    requires
        forall|j: int| 0 <= j < latest.len() ==> latest[j].1 != q,
    ensures
        ({
            let l = spec_evict(ready, latest, order, keep).1;
            forall|j: int| 0 <= j < l.len() ==> l[j].1 != q
        }),
    decreases order.len(),
{
    if ready.len() <= CHART_CACHE_CAPACITY || order.len() == 0 {
        assert(spec_evict(ready, latest, order, keep).1 == latest);
    } else if order[0] != keep {
        let e = order[0];
        lemma_without_value_keeps_absent(latest, e, q);
        lemma_evict_no_value(assoc_without(ready, e), assoc_without_value(latest, e), order.drop_first(), keep, q);
        assert(spec_evict(ready, latest, order, keep) == spec_evict(
            assoc_without(ready, e),
            assoc_without_value(latest, e),
            order.drop_first(),
            keep,
        ));
    } else {
        lemma_evict_no_value(ready, latest, order.drop_first(), keep, q);
        assert(spec_evict(ready, latest, order, keep) == spec_evict(ready, latest, order.drop_first(), keep));
    }
}

/// An image that eviction drops leaves no slot pointing at it.
proof fn lemma_evict_cleans<P>(ready: Seq<(u64, P)>, latest: Seq<(u64, u64)>, order: Seq<u64>, keep: u64, q: u64)
    requires
        assoc_get(ready, q) is Some,
        assoc_get(spec_evict(ready, latest, order, keep).0, q) is None,
    ensures
        ({
            let l = spec_evict(ready, latest, order, keep).1;
            forall|j: int| 0 <= j < l.len() ==> l[j].1 != q
        }),
    decreases order.len(),
{
    if ready.len() <= CHART_CACHE_CAPACITY || order.len() == 0 {
    } else if order[0] != keep {
        let e = order[0];
        if e == q {
            lemma_without_value_removes(latest, q);
            lemma_evict_no_value(assoc_without(ready, e), assoc_without_value(latest, e), order.drop_first(), keep, q);
        } else {
            lemma_get_without(ready, e, q);
            lemma_evict_cleans(assoc_without(ready, e), assoc_without_value(latest, e), order.drop_first(), keep, q);
        }
    } else {
        lemma_evict_cleans(ready, latest, order.drop_first(), keep, q);
    }
}

proof fn lemma_without_value_keeps_get(l: Seq<(u64, u64)>, s: u64, x: u64, v: u64)
    requires
        assoc_get(l, s) == Some(x),
        x != v,
    ensures
        assoc_get(assoc_without_value(l, v), s) == Some(x),
    decreases l.len(),
{
    let rest = l.drop_first();
    let w = assoc_without_value(rest, v);
    if l[0].0 == s {
        assert((seq![l[0]] + w)[0] == l[0]);
    } else {
        lemma_without_value_keeps_get(rest, s, x, v);
        if l[0].1 != v {
            assert((seq![l[0]] + w)[0] == l[0]);
            assert((seq![l[0]] + w).drop_first() =~= w);
        }
    }
}

proof fn lemma_evict_keeps_slot<P>(ready: Seq<(u64, P)>, latest: Seq<(u64, u64)>, order: Seq<u64>, keep: u64, s: u64)
    requires
        assoc_get(latest, s) == Some(keep),
    ensures
        assoc_get(spec_evict(ready, latest, order, keep).1, s) == Some(keep),
    decreases order.len(),
{
    if ready.len() <= CHART_CACHE_CAPACITY || order.len() == 0 {
    } else if order[0] != keep {
        lemma_without_value_keeps_get(latest, s, keep, order[0]);
        lemma_evict_keeps_slot(
            assoc_without(ready, order[0]),
            assoc_without_value(latest, order[0]),
            order.drop_first(),
            keep,
            s,
        );
    } else {
        lemma_evict_keeps_slot(ready, latest, order.drop_first(), keep, s);
    }
}

/// Storing an image into a cache that holds at most the capacity of
/// images, each listed in the eviction order, leaves it so; the stored
/// image is held (it is never evicted) and is the latest of its slot; the
/// key no longer counts as failed; and every image this call drops is gone
/// from the images and from every slot.
pub proof fn law_store_bounds_cache<P>(m: ChartCacheModel<P>, slot: u64, key: u64, p: P)
    requires
        cache_wf(m),
    ensures
        stored_cleanly(m, spec_insert_ready(m, slot, key, p), slot, key, p),
{
    broadcast use vstd::seq_lib::group_filter_ensures;

    let order = if assoc_get(m.ready, key) is None {
        m.order.push(key)
    } else {
        m.order
    };
    let t = assoc_without(m.ready, key);
    let put_ready = assoc_put(m.ready, key, p);
    let put_latest = assoc_put(m.latest_by_slot, slot, key);
    lemma_get_without(m.ready, key, key);
    lemma_without_len(m.ready, key);
    if assoc_get(m.ready, key) is None {
        lemma_get_none_absent(m.ready, key);
        lemma_without_absent(m.ready, key);
    }
    assert forall|q: u64| #[trigger] assoc_get(t.push((key, p)), q) is Some implies order.contains(q) by {
        lemma_get_after_put(m.ready, key, p, q);
        if q == key {
            if assoc_get(m.ready, key) is None {
                assert(order[order.len() - 1] == key);
            } else {
                assert(m.order.contains(key));
            }
        } else {
            assert(m.order.contains(q));
            let i = choose|i: int| 0 <= i < m.order.len() && m.order[i] == q;
            assert(order[i] == q);
        }
    }
    lemma_evict_bound(t, p, put_latest, order, key);
    lemma_evict_keeps(put_ready, put_latest, order, key);
    lemma_get_after_put(m.ready, key, p, key);
    lemma_get_after_put(m.latest_by_slot, slot, key, slot);
    lemma_evict_keeps_slot(put_ready, put_latest, order, key, slot);
    let n = spec_insert_ready(m, slot, key, p);
    if n.failed.contains(key) {
        let i = choose|i: int| 0 <= i < n.failed.len() && n.failed[i] == key;
        assert((other_than(key))(n.failed[i]));
    }
    assert forall|q: u64|
        #![trigger assoc_get(m.ready, q)]
        assoc_get(m.ready, q) is Some && assoc_get(n.ready, q) is None implies (forall|j: int|
            0 <= j < n.ready.len() ==> n.ready[j].0 != q) && (forall|j: int|
            0 <= j < n.latest_by_slot.len() ==> n.latest_by_slot[j].1 != q) by {
        lemma_get_after_put(m.ready, key, p, q);
        lemma_evict_cleans(put_ready, put_latest, order, key, q);
        lemma_get_none_absent(n.ready, q);
    }
}

/// A new cache is well kept, and dropping a failed image keeps it so.
pub proof fn law_cache_stays_well_formed<P>(m: ChartCacheModel<P>, key: u64)
    requires
        cache_wf(m),
    ensures
        cache_wf(ChartCacheModel::<P> {
            ready: seq![],
            latest_by_slot: seq![],
            pending: seq![],
            failed: seq![],
            order: seq![],
        }),
        cache_wf(ChartCacheModel { ready: assoc_without(m.ready, key), failed: set_with(m.failed, key), ..m }),
{
    lemma_without_len(m.ready, key);
    assert forall|q: u64| #[trigger] assoc_get(assoc_without(m.ready, key), q) is Some implies m.order.contains(q) by {
        lemma_get_without(m.ready, key, q);
    }
}

/// A failed encode is reported as failed until a new request is queued:
/// after the failure answer, looking the key up never claims it rendered.
pub proof fn law_failure_not_rendered<P>(m: ChartCacheModel<P>, key: u64, slot: u64)
    ensures
        ({
            let n = ChartCacheModel {
                ready: assoc_without(m.ready, key),
                failed: set_with(m.failed, key),
                ..m
            };
            spec_lookup(n, slot, key).0 != CachedChart::Rendered
        }),
{
    lemma_get_without(m.ready, key, key);
}

} // verus!
