//! The timetable cache: holds at most one snapshot with the moment it was
//! fetched, serves readers from it while it is fresh, and replaces it
//! wholesale on a successful refresh.
//!
//! The cache itself is plain data. One serialized owner (the actor loop that
//! drives the process) applies `needs_refresh` and `refresh` to it one
//! request at a time, which is what makes the check-and-refresh decision
//! atomic; `run_queue` is the model of that serial processing, and the laws
//! below are proved over it.

use vstd::prelude::*;

use crate::schedule::Snapshot;

verus! {

/// Maximum age, in seconds, of a cached snapshot before a read triggers a
/// new fetch.
pub const FRESHNESS_WINDOW_SECS: u64 = 300;

/// The data source could not be reached or returned a malformed page.
#[derive(Debug, PartialEq, Eq, Copy, Clone, Structural)]
pub struct FetchError;

/// A cached snapshot together with the monotonic second at which it was
/// fetched.
#[derive(Debug, PartialEq, Eq, Clone)]
pub struct CacheEntry {
    pub snapshot: Snapshot,
    /// Seconds on the process's monotonic clock at fetch time.
    pub fetched_at: u64,
}

/// The cache: zero or one entry.
#[derive(Debug, PartialEq, Eq, Clone)]
pub struct Cache {
    pub entry: Option<CacheEntry>,
}

impl Cache {
    /// Every snapshot admitted into the cache is well formed.
    pub open spec fn wf(self) -> bool {
        match self.entry {
            Option::Some(e) => e.snapshot.wf(),
            Option::None => true,
        }
    }

    /// Whether the held entry serves a read at monotonic second `now`
    /// without a fetch: there is one and its age is within the window.
    pub open spec fn fresh_at(self, now: u64) -> bool {
        match self.entry {
            Option::Some(e) => e.fetched_at <= now && now <= e.fetched_at
                + FRESHNESS_WINDOW_SECS,
            Option::None => false,
        }
    }

    /// The held snapshot; meaningful only when an entry exists.
    pub open spec fn cached_snapshot(self) -> Snapshot
        recommends
            self.entry is Some,
    {
        self.entry->Some_0.snapshot
    }

    /// An empty cache: the entry is created lazily by the first refresh.
    pub fn new() -> (c: Cache)
        ensures
            c.entry is None,
            c.wf(),
    {
        Cache { entry: Option::None }
    }

    /// Whether a read at `now` must fetch before it can be answered.
    pub fn needs_refresh(&self, now: u64) -> (r: bool)
        ensures
            r == !self.fresh_at(now),
    {
        match &self.entry {
            Option::None => true,
            Option::Some(e) => !(e.fetched_at <= now && now - e.fetched_at
                <= FRESHNESS_WINDOW_SECS),
        }
    }

    /// Applies the outcome of one fetch performed at `now`. A success
    /// replaces the held entry wholesale; a failure is surfaced and leaves
    /// the previous entry untouched, so stale-but-valid data survives a
    /// transient failure.
    pub fn refresh(&mut self, now: u64, fetched: Result<Snapshot, FetchError>) -> (r: Result<
        (),
        FetchError,
    >)
        requires
            old(self).wf(),
            fetched is Ok ==> fetched->Ok_0.wf(),
        ensures
            final(self).wf(),
            match fetched {
                Result::Ok(s) => final(self).entry == Option::Some(
                    CacheEntry { snapshot: s, fetched_at: now },
                ) && r is Ok,
                Result::Err(e) => *final(self) == *old(self) && r == Result::<
                    (),
                    FetchError,
                >::Err(e),
            },
    {
        match fetched {
            Result::Ok(snapshot) => {
                self.entry = Option::Some(CacheEntry { snapshot, fetched_at: now });
                Result::Ok(())
            },
            Result::Err(e) => Result::Err(e),
        }
    }

    /// The held snapshot, if any; the serialized owner copies it for each
    /// reader, so the entry itself is never handed out.
    pub fn snapshot_ref(&self) -> (r: Option<&Snapshot>)
        ensures
            r is Some <==> self.entry is Some,
            r is Some ==> *r->Some_0 == self.cached_snapshot(),
    {
        match &self.entry {
            Option::Some(e) => Option::Some(&e.snapshot),
            Option::None => Option::None,
        }
    }
}

/// One serialized read at monotonic second `now`: a fresh entry answers
/// directly; otherwise the next unused fetch outcome is consumed and applied
/// exactly as `refresh` does. Returns the cache afterwards, the response the
/// reader observes, and the fetch outcomes still unused.
pub open spec fn step(c: Cache, now: u64, outcomes: Seq<Result<Snapshot, FetchError>>) -> (
    Cache,
    Result<Snapshot, FetchError>,
    Seq<Result<Snapshot, FetchError>>,
) {
    if c.fresh_at(now) {
        (c, Result::<Snapshot, FetchError>::Ok(c.cached_snapshot()), outcomes)
    } else if outcomes.len() == 0 {
        (c, Result::<Snapshot, FetchError>::Err(FetchError), outcomes)
    } else {
        match outcomes[0] {
            Result::Ok(s) => (
                Cache { entry: Option::Some(CacheEntry { snapshot: s, fetched_at: now }) },
                Result::<Snapshot, FetchError>::Ok(s),
                outcomes.drop_first(),
            ),
            Result::Err(e) => (
                c,
                Result::<Snapshot, FetchError>::Err(e),
                outcomes.drop_first(),
            ),
        }
    }
}

/// Serial processing of a queue of reads, one at a time, in order: the model
/// of the single cache owner draining its mailbox. `times[i]` is the
/// monotonic second at which read `i` is served; `outcomes` are the results
/// the data source would return to successive fetches.
pub open spec fn run_queue(
    c: Cache,
    times: Seq<u64>,
    outcomes: Seq<Result<Snapshot, FetchError>>,
) -> (Cache, Seq<Result<Snapshot, FetchError>>, Seq<Result<Snapshot, FetchError>>)
    decreases times.len(),
{
    if times.len() == 0 {
        (c, Seq::empty(), outcomes)
    } else {
        let first = step(c, times[0], outcomes);
        let rest = run_queue(first.0, times.drop_first(), first.2);
        (rest.0, seq![first.1] + rest.1, rest.2)
    }
}

/// Law (freshness): a read within the freshness window of the moment a
/// snapshot was fetched is answered from the cache — it consumes no fetch
/// outcome and observes the held snapshot.
pub proof fn lemma_freshness(
    c: Cache,
    s: Snapshot,
    fetched_at: u64,
    t: u64,
    outcomes: Seq<Result<Snapshot, FetchError>>,
)
    requires
        c.entry == Option::Some(CacheEntry { snapshot: s, fetched_at }),
        fetched_at <= t <= fetched_at + FRESHNESS_WINDOW_SECS,
    ensures
        c.fresh_at(t),
        step(c, t, outcomes) == (c, Result::<Snapshot, FetchError>::Ok(s), outcomes),
{
}

/// Law (stale-preserving failure): a read that triggers a refresh whose
/// fetch fails observes that failure, consumes the one outcome, and leaves
/// the cache exactly as it was — a previously valid entry is not erased.
pub proof fn lemma_stale_preserving_failure(
    c: Cache,
    now: u64,
    outcomes: Seq<Result<Snapshot, FetchError>>,
    e: FetchError,
)
    requires
        !c.fresh_at(now),
        outcomes.len() >= 1,
        outcomes[0] == Result::<Snapshot, FetchError>::Err(e),
    ensures
        step(c, now, outcomes).0 == c,
        step(c, now, outcomes).1 == Result::<Snapshot, FetchError>::Err(e),
        step(c, now, outcomes).2 == outcomes.drop_first(),
{
}

proof fn lemma_run_queue_all_fresh(
    c: Cache,
    times: Seq<u64>,
    outcomes: Seq<Result<Snapshot, FetchError>>,
)
    requires
        forall|i: int| 0 <= i < times.len() ==> c.fresh_at(#[trigger] times[i]),
    ensures
        run_queue(c, times, outcomes).0 == c,
        run_queue(c, times, outcomes).1 == Seq::new(
            times.len(),
            |i: int| Result::<Snapshot, FetchError>::Ok(c.cached_snapshot()),
        ),
        run_queue(c, times, outcomes).2 == outcomes,
    decreases times.len(),
{
    if times.len() == 0 {
        assert(run_queue(c, times, outcomes).1 =~= Seq::new(
            times.len(),
            |i: int| Result::<Snapshot, FetchError>::Ok(c.cached_snapshot()),
        ));
    } else {
        assert(c.fresh_at(times[0]));
        let rest = times.drop_first();
        assert forall|i: int| 0 <= i < rest.len() implies c.fresh_at(#[trigger] rest[i]) by {
            assert(rest[i] == times[i + 1]);
        }
        lemma_run_queue_all_fresh(c, rest, outcomes);
        assert(run_queue(c, times, outcomes).1 =~= Seq::new(
            times.len(),
            |i: int| Result::<Snapshot, FetchError>::Ok(c.cached_snapshot()),
        ));
    }
}

/// Law (single flight): any number of reads queued while the cache is stale,
/// served serially at the same monotonic second, consume exactly one fetch
/// outcome; when that single fetch succeeds, every one of them observes the
/// snapshot it returned.
pub proof fn lemma_single_flight(
    c: Cache,
    now: u64,
    n: nat,
    outcomes: Seq<Result<Snapshot, FetchError>>,
    s: Snapshot,
)
    requires
        !c.fresh_at(now),
        n >= 1,
        outcomes.len() >= 1,
        outcomes[0] == Result::<Snapshot, FetchError>::Ok(s),
    ensures
        run_queue(c, Seq::new(n, |i: int| now), outcomes).2 == outcomes.drop_first(),
        run_queue(c, Seq::new(n, |i: int| now), outcomes).1 == Seq::new(
            n,
            |i: int| Result::<Snapshot, FetchError>::Ok(s),
        ),
        run_queue(c, Seq::new(n, |i: int| now), outcomes).0 == (Cache {
            entry: Option::Some(CacheEntry { snapshot: s, fetched_at: now }),
        }),
{
    let times = Seq::new(n, |i: int| now);
    let refreshed = Cache { entry: Option::Some(CacheEntry { snapshot: s, fetched_at: now }) };
    assert(step(c, times[0], outcomes) == (
        refreshed,
        Result::<Snapshot, FetchError>::Ok(s),
        outcomes.drop_first(),
    ));
    let rest = times.drop_first();
    assert forall|i: int| 0 <= i < rest.len() implies refreshed.fresh_at(#[trigger] rest[i]) by {
        assert(rest[i] == now);
    }
    lemma_run_queue_all_fresh(refreshed, rest, outcomes.drop_first());
    assert(run_queue(c, times, outcomes).1 =~= Seq::new(
        n,
        |i: int| Result::<Snapshot, FetchError>::Ok(s),
    ));
}

} // verus!
