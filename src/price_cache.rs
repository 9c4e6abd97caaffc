use vstd::prelude::*;

use crate::response::ApiError;

verus! {

/// How long, in milliseconds, a fetched price may be served before it must be
/// fetched again.
pub const STALENESS_WINDOW_MS: u64 = 10_000;

/// A fetched price and the moment it was fetched.
///
/// `price` is in billionths of a satoshi per euro; `time` is in milliseconds
/// on a monotonic clock.
#[derive(Clone, Copy, Debug, PartialEq, Eq, Structural)]
pub struct SatoshiPriceCache {
    pub price: u64,
    pub time: u64,
}

/// Whether an entry may still be served at `now`. A clock reading before the
/// fetch counts as no time elapsed.
pub open spec fn is_fresh(c: SatoshiPriceCache, now: u64) -> bool {
    now - c.time < STALENESS_WINDOW_MS
}

/// The price that may be served from the slot at `now` without a fetch.
pub open spec fn fresh_price(slot: Option<SatoshiPriceCache>, now: u64) -> Option<u64> {
    match slot {
        Some(c) => if is_fresh(c, now) {
            Some(c.price)
        } else {
            None
        },
        None => None,
    }
}

/// A call's clock reading when it checks the slot, the outcome its fetch
/// would have, and the clock reading its entry is stamped with when that
/// fetch succeeds.
pub type CacheCall = (u64, Result<u64, ApiError>, u64);

/// One call of the read-through cache, as it runs once it holds the lock,
/// checking the slot at `checked`: the slot afterwards, the answer, and how
/// many fetches it made. `fetched` is what the fetch would give and
/// `stamped` the clock reading when it returns; both count only where a
/// fetch is made.
pub open spec fn call_step(
    slot: Option<SatoshiPriceCache>,
    checked: u64,
    fetched: Result<u64, ApiError>,
    stamped: u64,
) -> (Option<SatoshiPriceCache>, Result<u64, ApiError>, nat) {
    match fresh_price(slot, checked) {
        Some(p) => (slot, Ok(p), 0),
        None => match fetched {
            Ok(p) => (Some(SatoshiPriceCache { price: p, time: stamped }), Ok(p), 1),
            Err(e) => (slot, Err(e), 1),
        },
    }
}

/// A sequence of calls run one after another as the lock orders them: the
/// final slot, the answers in order, and the number of fetches made.
pub open spec fn run_calls(slot: Option<SatoshiPriceCache>, calls: Seq<CacheCall>) -> (
    Option<SatoshiPriceCache>,
    Seq<Result<u64, ApiError>>,
    nat,
)
    decreases calls.len(),
{
    if calls.len() == 0 {
        (slot, Seq::empty(), 0)
    } else {
        let first = call_step(slot, calls[0].0, calls[0].1, calls[0].2);
        let rest = run_calls(first.0, calls.drop_first());
        (rest.0, seq![first.1] + rest.1, first.2 + rest.2)
    }
}

/// The single-slot price cache: empty at first, then holding the last
/// successfully fetched price.
pub struct PriceCache {
    slot: Option<SatoshiPriceCache>,
}

impl View for PriceCache {
    type V = Option<SatoshiPriceCache>;

    closed spec fn view(&self) -> Option<SatoshiPriceCache> {
        self.slot
    }
}

impl PriceCache {
    /// An empty cache.
    pub fn new() -> (r: PriceCache)
        ensures
            r@ == None::<SatoshiPriceCache>,
    {
        PriceCache { slot: None }
    }

    /// The entry the cache holds, if any.
    pub fn entry(&self) -> (r: Option<SatoshiPriceCache>)
        ensures
            r == self@,
    {
        self.slot
    }

    /// The price that may be served at `now` without a fetch, if there is one.
    /// Callers check this under the shared lock, and again under the
    /// exclusive lock before they fetch.
    pub fn fresh_price_at(&self, now: u64) -> (r: Option<u64>)
        ensures
            r == fresh_price(self@, now),
            r is Some ==> forall|fetched: Result<u64, ApiError>, stamped: u64|
                #[trigger] call_step(self@, now, fetched, stamped) == (
                    self@,
                    Ok::<u64, ApiError>(r->Some_0),
                    0nat,
                ),
    {
        match self.slot {
            Some(c) => {
                if now < c.time || now - c.time < STALENESS_WINDOW_MS {
                    Some(c.price)
                } else {
                    None
                }
            },
            None => None,
        }
    }

    /// Takes in the outcome of a fetch that returned at `now`: a price
    /// replaces the entry and is returned; a failure leaves the entry as it
    /// was and is returned unchanged. After a check that found nothing to
    /// serve, this completes the call that `call_step` describes.
    pub fn record_fetch(&mut self, fetched: Result<u64, ApiError>, now: u64) -> (r: Result<
        u64,
        ApiError,
    >)
        ensures
            r == fetched,
            fetched is Ok ==> final(self)@ == Some(
                SatoshiPriceCache { price: fetched->Ok_0, time: now },
            ),
            fetched is Err ==> final(self)@ == old(self)@,
            forall|checked: u64|
                fresh_price(old(self)@, checked) is None ==> #[trigger] call_step(
                    old(self)@,
                    checked,
                    fetched,
                    now,
                ) == (final(self)@, r, 1nat),
    {
        match fetched {
            Ok(p) => {
                self.slot = Some(SatoshiPriceCache { price: p, time: now });
                Ok(p)
            },
            Err(e) => Err(e),
        }
    }
}

/// Within the staleness window of a fetched entry, every call is served
/// that entry's price, no fetch is made and the entry stays as it is.
pub proof fn lemma_fresh_calls_reuse(e: SatoshiPriceCache, calls: Seq<CacheCall>)
    requires
        forall|i: int| 0 <= i < calls.len() ==> is_fresh(e, #[trigger] calls[i].0),
    ensures
        run_calls(Some(e), calls).0 == Some(e),
        run_calls(Some(e), calls).2 == 0,
        run_calls(Some(e), calls).1.len() == calls.len(),
        forall|i: int|
            0 <= i < calls.len() ==> #[trigger] run_calls(Some(e), calls).1[i] == Ok::<
                u64,
                ApiError,
            >(e.price),
    decreases calls.len(),
{
    if calls.len() > 0 {
        let rest = calls.drop_first();
        assert forall|i: int| 0 <= i < rest.len() implies is_fresh(e, #[trigger] rest[i].0) by {
            assert(rest[i] == calls[i + 1]);
        }
        lemma_fresh_calls_reuse(e, rest);
        let r = run_calls(Some(e), calls);
        let rr = run_calls(Some(e), rest);
        assert(is_fresh(e, calls[0].0));
        assert forall|i: int| 0 <= i < calls.len() implies #[trigger] r.1[i] == Ok::<
            u64,
            ApiError,
        >(e.price) by {
            if i > 0 {
                assert(r.1[i] == rr.1[i - 1]);
            }
        }
    }
}

/// A call on an empty slot, or on an entry older than the staleness window,
/// makes exactly one fetch; where it succeeds the slot afterwards holds the
/// new price, stamped with the time the fetch returned, and the call
/// returns it.
pub proof fn lemma_expired_call_refreshes(
    slot: Option<SatoshiPriceCache>,
    checked: u64,
    fetched: Result<u64, ApiError>,
    stamped: u64,
)
    requires
        fresh_price(slot, checked) is None,
    ensures
        call_step(slot, checked, fetched, stamped).2 == 1,
        fetched is Ok ==> call_step(slot, checked, fetched, stamped).0 == Some(
            SatoshiPriceCache { price: fetched->Ok_0, time: stamped },
        ),
        fetched is Ok ==> call_step(slot, checked, fetched, stamped).1 == fetched,
{
}

/// A failed refresh of an expired entry reports the failure, not the old
/// price, and leaves the entry unchanged; a later successful fetch then
/// replaces it.
pub proof fn lemma_failed_refresh_keeps_entry(
    e: SatoshiPriceCache,
    checked: u64,
    err: ApiError,
    stamped: u64,
    later: u64,
    price: u64,
    later_stamped: u64,
)
    requires
        !is_fresh(e, checked),
        checked <= later,
    ensures
        call_step(Some(e), checked, Err(err), stamped) == (
            Some(e),
            Err::<u64, ApiError>(err),
            1nat,
        ),
        call_step(Some(e), later, Ok(price), later_stamped) == (
            Some(SatoshiPriceCache { price, time: later_stamped }),
            Ok::<u64, ApiError>(price),
            1nat,
        ),
{
}

/// Every call makes at most one fetch.
pub proof fn lemma_fetches_at_most_calls(slot: Option<SatoshiPriceCache>, calls: Seq<CacheCall>)
    ensures
        run_calls(slot, calls).2 <= calls.len(),
        run_calls(slot, calls).1.len() == calls.len(),
    decreases calls.len(),
{
    if calls.len() > 0 {
        let first = call_step(slot, calls[0].0, calls[0].1, calls[0].2);
        lemma_fetches_at_most_calls(first.0, calls.drop_first());
    }
}

/// Whether every answer before position `i` is a failure.
pub open spec fn all_failed_before(results: Seq<Result<u64, ApiError>>, i: int) -> bool {
    forall|j: int| 0 <= j < i ==> (#[trigger] results[j]) is Err
}

/// Callers that all found the slot empty or expired and queued for the lock,
/// where no entry stored during the run has reached the end of its window
/// when a later caller checks: at least one and at most as many fetches as
/// callers are made. Where none succeeds the slot is as it was; otherwise
/// the slot ends holding the price and stamp of the first success, and
/// every caller that succeeds gets that price.
pub proof fn lemma_stampede(slot: Option<SatoshiPriceCache>, calls: Seq<CacheCall>)
    requires
        calls.len() > 0,
        forall|j: int| 0 <= j < calls.len() ==> fresh_price(slot, #[trigger] calls[j].0) is None,
        forall|i: int, j: int|
            #![trigger calls[i].2, calls[j].0]
            0 <= i < j < calls.len() ==> calls[j].0 - calls[i].2 < STALENESS_WINDOW_MS,
    ensures
        1 <= run_calls(slot, calls).2 <= calls.len(),
        run_calls(slot, calls).1.len() == calls.len(),
        all_failed_before(run_calls(slot, calls).1, calls.len() as int) ==> run_calls(
            slot,
            calls,
        ).0 == slot,
        forall|i: int|
            0 <= i < calls.len() && (#[trigger] run_calls(slot, calls).1[i]) is Ok ==> run_calls(
                slot,
                calls,
            ).0 is Some && run_calls(slot, calls).1[i] == Ok::<u64, ApiError>(
                run_calls(slot, calls).0->Some_0.price,
            ),
        forall|i: int|
            0 <= i < calls.len() && (#[trigger] run_calls(slot, calls).1[i]) is Ok
                && all_failed_before(run_calls(slot, calls).1, i) ==> run_calls(slot, calls).0
                == Some(
                SatoshiPriceCache { price: run_calls(slot, calls).1[i]->Ok_0, time: calls[i].2 },
            ),
    decreases calls.len(),
{
    lemma_fetches_at_most_calls(slot, calls);
    let rest = calls.drop_first();
    let first = call_step(slot, calls[0].0, calls[0].1, calls[0].2);
    let r = run_calls(slot, calls);
    let rr = run_calls(first.0, rest);
    assert(fresh_price(slot, calls[0].0) is None);
    lemma_fetches_at_most_calls(first.0, rest);
    assert forall|i: int| 0 <= i < rest.len() implies #[trigger] rest[i] == calls[i + 1] by {}
    assert forall|i: int| 0 < i < calls.len() implies #[trigger] r.1[i] == rr.1[i - 1] by {}
    match calls[0].1 {
        Ok(p) => {
            let e = SatoshiPriceCache { price: p, time: calls[0].2 };
            assert forall|i: int| 0 <= i < rest.len() implies is_fresh(e, #[trigger] rest[i].0) by {
                assert(rest[i] == calls[i + 1]);
                assert(calls[i + 1].0 - calls[0].2 < STALENESS_WINDOW_MS);
            }
            lemma_fresh_calls_reuse(e, rest);
            assert(r.1[0] is Ok);
            assert(!all_failed_before(r.1, calls.len() as int));
            assert forall|i: int|
                0 <= i < calls.len() && (#[trigger] r.1[i]) is Ok && all_failed_before(
                    r.1,
                    i,
                ) implies r.0 == Some(SatoshiPriceCache { price: r.1[i]->Ok_0, time: calls[i].2 }) by {
                if i > 0 {
                    assert(r.1[0] is Ok);
                }
            }
        },
        Err(_) => {
            if rest.len() > 0 {
                assert forall|j: int| 0 <= j < rest.len() implies fresh_price(
                    first.0,
                    #[trigger] rest[j].0,
                ) is None by {
                    assert(rest[j] == calls[j + 1]);
                }
                assert forall|i: int, j: int|
                    #![trigger rest[i].2, rest[j].0]
                    0 <= i < j < rest.len() implies rest[j].0 - rest[i].2
                        < STALENESS_WINDOW_MS by {
                    assert(rest[i] == calls[i + 1]);
                    assert(rest[j] == calls[j + 1]);
                    assert(calls[j + 1].0 - calls[i + 1].2 < STALENESS_WINDOW_MS);
                }
                lemma_stampede(first.0, rest);
                assert(all_failed_before(r.1, calls.len() as int) ==> all_failed_before(
                    rr.1,
                    rest.len() as int,
                )) by {
                    if all_failed_before(r.1, calls.len() as int) {
                        assert forall|j: int| 0 <= j < rest.len() implies (#[trigger] rr.1[j]) is Err by {
                            assert(r.1[j + 1] is Err);
                        }
                    }
                }
                assert forall|i: int|
                    0 <= i < calls.len() && (#[trigger] r.1[i]) is Ok && all_failed_before(
                        r.1,
                        i,
                    ) implies r.0 == Some(
                    SatoshiPriceCache { price: r.1[i]->Ok_0, time: calls[i].2 },
                ) by {
                    assert(i > 0);
                    assert(rr.1[i - 1] is Ok);
                    assert forall|j: int| 0 <= j < i - 1 implies (#[trigger] rr.1[j]) is Err by {
                        assert(r.1[j + 1] is Err);
                    }
                    assert(rest[i - 1] == calls[i]);
                }
            }
        },
    }
}

} // verus!
