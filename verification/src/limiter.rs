//! The rolling one-hour request limiter that every API call passes through.
use std::collections::VecDeque;
use vstd::prelude::*;

verus! {

/// The length of the rolling window, in nanoseconds (one hour).
pub const WINDOW_NANOS: u64 = 3_600_000_000_000;

/// The API's documented ceiling on requests per hour.
pub const MAX_REQUESTS_PER_HOUR: usize = 200;

/// The times are in nondecreasing order.
pub open spec fn sorted(times: Seq<u64>) -> bool {
    forall|i: int, j: int| 0 <= i <= j < times.len() ==> times[i] <= times[j]
}

/// Any `limit + 1` consecutive times span at least a full window: no window of one
/// hour holds more than `limit` of them.
pub open spec fn spaced(times: Seq<u64>, limit: nat) -> bool {
    forall|i: int| limit <= i < times.len() ==> #[trigger] spaced_at(times, limit, i)
}

/// The time at `i` is at least a window after the time `limit` places before it.
pub open spec fn spaced_at(times: Seq<u64>, limit: nat, i: int) -> bool {
    times[i] - times[i - limit] >= WINDOW_NANOS
}

/// `entries` with its leading entries that are a full window old at `now` removed.
pub open spec fn drop_expired(entries: Seq<u64>, now: int) -> Seq<u64>
    decreases entries.len(),
{
    if entries.len() > 0 && now - entries[0] >= WINDOW_NANOS {
        drop_expired(entries.drop_first(), now)
    } else {
        entries
    }
}

/// The wait after which a full limiter admits again: until its oldest live entry leaves
/// the window.
pub open spec fn wait_nanos(live: Seq<u64>, now: int) -> int {
    WINDOW_NANOS - (now - live[0])
}

/// The time a request asked at `now` counts at, when `latest` is the latest time
/// already seen: the clock never runs back.
pub open spec fn effective_time(latest: int, now: u64) -> int {
    if now < latest {
        latest
    } else {
        now as int
    }
}

/// Remembers when requests were admitted during the last hour. Times are nanoseconds
/// on a monotonic clock; a time earlier than one already seen counts as that one.
pub struct RollingLimiter {
    limit: usize,
    entries: VecDeque<u64>,
    latest: u64,
    admitted: Ghost<Seq<u64>>,
    forgotten: Ghost<nat>,
}

impl RollingLimiter {
    pub closed spec fn wf(&self) -> bool {
        &&& self.limit >= 1
        &&& self.entries@.len() <= self.limit
        &&& self.forgotten@ <= self.admitted@.len()
        &&& self.entries@ == self.admitted@.subrange(
            self.forgotten@ as int,
            self.admitted@.len() as int,
        )
        &&& sorted(self.admitted@)
        &&& forall|i: int| 0 <= i < self.admitted@.len() ==> self.admitted@[i] <= self.latest
        &&& forall|i: int|
            0 <= i < self.forgotten@ ==> self.latest - self.admitted@[i] >= WINDOW_NANOS
        &&& spaced(self.admitted@, self.limit as nat)
    }

    /// The most requests admitted in any one window.
    pub closed spec fn limit_spec(&self) -> nat {
        self.limit as nat
    }

    /// The admission times the limiter still counts, oldest first.
    pub closed spec fn entries_view(&self) -> Seq<u64> {
        self.entries@
    }

    /// Every admission time since the limiter was made, oldest first.
    pub closed spec fn admissions(&self) -> Seq<u64> {
        self.admitted@
    }

    /// The latest time the limiter has been asked at.
    pub closed spec fn latest(&self) -> int {
        self.latest as int
    }

    pub fn new(limit: usize) -> (result: RollingLimiter)
        requires
            limit >= 1,
        ensures
            result.wf(),
            result.limit_spec() == limit,
            result.entries_view() == Seq::<u64>::empty(),
            result.admissions() == Seq::<u64>::empty(),
            result.latest() == 0,
    {
        let result = RollingLimiter {
            limit,
            entries: VecDeque::new(),
            admitted: Ghost(Seq::empty()),
            forgotten: Ghost(0),
            latest: 0,
        };
        assert(result.entries@ == result.admitted@.subrange(0, 0));
        result
    }

    /// Forgets the entries that are a full window old at `now`.
    fn forget_expired(&mut self, now: u64)
        requires
            old(self).wf(),
            now >= old(self).latest(),
        ensures
            final(self).limit == old(self).limit,
            final(self).admitted@ == old(self).admitted@,
            final(self).latest == old(self).latest,
            final(self).entries@.len() <= final(self).limit,
            final(self).forgotten@ <= final(self).admitted@.len(),
            final(self).entries@ == final(self).admitted@.subrange(
                final(self).forgotten@ as int,
                final(self).admitted@.len() as int,
            ),
            forall|i: int|
                0 <= i < final(self).forgotten@ ==> now - final(self).admitted@[i] >= WINDOW_NANOS,
            final(self).entries@ == drop_expired(old(self).entries@, now as int),
    {
        let ghost initial = self.entries@;
        let ghost n = self.admitted@.len();
        while self.entries.len() > 0 && now - self.entries[0] >= WINDOW_NANOS
            invariant
                self.limit == old(self).limit,
                self.limit >= 1,
                self.admitted@ == old(self).admitted@,
                self.latest == old(self).latest,
                self.latest <= now,
                n == self.admitted@.len(),
                self.entries@.len() <= self.limit,
                self.forgotten@ <= n,
                self.entries@ == self.admitted@.subrange(self.forgotten@ as int, n as int),
                sorted(self.admitted@),
                forall|i: int| 0 <= i < n ==> self.admitted@[i] <= self.latest,
                forall|i: int| 0 <= i < self.forgotten@ ==> now - self.admitted@[i] >= WINDOW_NANOS,
                spaced(self.admitted@, self.limit as nat),
                drop_expired(self.entries@, now as int) == drop_expired(initial, now as int),
            decreases self.entries@.len(),
        {
            let ghost before = self.entries@;
            assert(before[0] == self.admitted@[self.forgotten@ as int]);
            self.entries.pop_front();
            self.forgotten = Ghost(self.forgotten@ + 1);
            assert(self.entries@ == before.drop_first());
            assert(self.entries@ == self.admitted@.subrange(self.forgotten@ as int, n as int));
        }
        assert(drop_expired(self.entries@, now as int) == self.entries@);
    }

    /// Admits a request at `now` (returns `None`) if fewer than `limit` requests were
    /// admitted during the window before it; otherwise returns how long to wait. A `now`
    /// earlier than a time already seen is taken as that time, so the clock never runs
    /// back.
    pub fn try_acquire(&mut self, now: u64) -> (result: Option<u64>)
        requires
            old(self).wf(),
        ensures
            final(self).wf(),
            final(self).limit_spec() == old(self).limit_spec(),
            ({
                let at = effective_time(old(self).latest(), now);
                let live = drop_expired(old(self).entries_view(), at);
                &&& final(self).latest() == at
                &&& result is None <==> live.len() < old(self).limit_spec()
                &&& result is None ==> final(self).entries_view() == live.push(at as u64)
                    && final(self).admissions() == old(self).admissions().push(at as u64)
                &&& result matches Some(wait) ==> wait == wait_nanos(live, at)
                    && final(self).entries_view() == live && final(self).admissions() == old(
                    self,
                ).admissions()
            }),
    {
        let now = if now < self.latest {
            self.latest
        } else {
            now
        };
        let ghost n = old(self).admitted@.len();
        self.forget_expired(now);
        let ghost live = self.entries@;
        self.latest = now;
        if self.entries.len() < self.limit {
            self.entries.push_back(now);
            self.admitted = Ghost(self.admitted@.push(now));
            assert(self.entries@ == self.admitted@.subrange(
                self.forgotten@ as int,
                self.admitted@.len() as int,
            ));
            assert forall|i: int|
                self.limit <= i < self.admitted@.len() implies #[trigger] spaced_at(
                self.admitted@,
                self.limit as nat,
                i,
            ) by {
                if i == n {
                    assert(i - self.limit < self.forgotten@);
                } else {
                    assert(spaced_at(old(self).admitted@, self.limit as nat, i));
                }
            }
            None
        } else {
            let oldest = self.entries[0];
            proof {
                lemma_drop_expired_suffix(old(self).entries@, now as int);
                assert(oldest == self.admitted@[self.forgotten@ as int]);
            }
            Some(WINDOW_NANOS - (now - oldest))
        }
    }
}

/// No window of one hour ever holds more admissions than the limit: over any sequence
/// of calls, two admissions at least `limit` places apart are a full window or more
/// apart, so any `limit + 1` of them span at least an hour.
pub proof fn law_limiter_respects_ceiling(limiter: &RollingLimiter)
    requires
        limiter.wf(),
    ensures
        forall|i: int, j: int|
            0 <= i && i + limiter.limit_spec() <= j < limiter.admissions().len() ==> #[trigger] limiter.admissions()[j]
                - #[trigger] limiter.admissions()[i] >= WINDOW_NANOS,
{
    let times = limiter.admissions();
    let limit = limiter.limit_spec();
    assert forall|i: int, j: int|
        0 <= i && i + limit <= j < times.len() implies #[trigger] times[j] - #[trigger] times[i]
        >= WINDOW_NANOS by {
        assert(spaced_at(times, limit, i + limit));
        assert(times[i + limit] <= times[j]);
    }
}

/// What a limiter always is: at most `limit` live entries, in time order, the latest of
/// its admissions, and no later than the latest time it was asked at.
pub proof fn lemma_limiter_shape(limiter: &RollingLimiter)
    requires
        limiter.wf(),
    ensures
        limiter.limit_spec() >= 1,
        limiter.entries_view().len() <= limiter.limit_spec(),
        sorted(limiter.admissions()),
        sorted(limiter.entries_view()),
        limiter.entries_view().len() <= limiter.admissions().len(),
        limiter.entries_view() == limiter.admissions().subrange(
            limiter.admissions().len() - limiter.entries_view().len(),
            limiter.admissions().len() as int,
        ),
        forall|i: int|
            0 <= i < limiter.admissions().len() ==> #[trigger] limiter.admissions()[i]
                <= limiter.latest(),
{
    let e = limiter.entries_view();
    let a = limiter.admissions();
    assert forall|i: int, j: int| 0 <= i <= j < e.len() implies e[i] <= e[j] by {
        assert(e[i] == a[a.len() - e.len() + i]);
        assert(e[j] == a[a.len() - e.len() + j]);
    }
}

/// A refused request is told to wait exactly as long as it takes for the limiter to
/// admit it: asking again after that wait succeeds.
pub proof fn law_refusal_wait_admits(entries: Seq<u64>, limit: nat, now: int)
    requires
        sorted(entries),
        forall|i: int| 0 <= i < entries.len() ==> entries[i] <= now,
        entries.len() <= limit,
        drop_expired(entries, now).len() >= limit,
        limit >= 1,
    ensures
        drop_expired(
            drop_expired(entries, now),
            now + wait_nanos(drop_expired(entries, now), now),
        ).len() < limit,
{
    lemma_drop_expired_suffix(entries, now);
    let live = drop_expired(entries, now);
    let later = now + wait_nanos(live, now);
    assert(live.len() > 0);
    assert(later - live[0] >= WINDOW_NANOS);
    assert(drop_expired(live, later) == drop_expired(live.drop_first(), later));
    lemma_drop_expired_suffix(live.drop_first(), later);
}

/// `drop_expired` removes a prefix and keeps a suffix.
pub proof fn lemma_drop_expired_suffix(entries: Seq<u64>, now: int)
    ensures
        drop_expired(entries, now).len() <= entries.len(),
        drop_expired(entries, now) == entries.subrange(
            entries.len() - drop_expired(entries, now).len(),
            entries.len() as int,
        ),
        drop_expired(entries, now).len() > 0 ==> now - drop_expired(entries, now)[0]
            < WINDOW_NANOS,
    decreases entries.len(),
{
    if entries.len() > 0 && now - entries[0] >= WINDOW_NANOS {
        lemma_drop_expired_suffix(entries.drop_first(), now);
        let rest = drop_expired(entries.drop_first(), now);
        assert(entries.drop_first().subrange(
            entries.drop_first().len() - rest.len(),
            entries.drop_first().len() as int,
        ) == entries.subrange(entries.len() - rest.len(), entries.len() as int));
    } else {
        assert(entries == entries.subrange(0, entries.len() as int));
    }
}

} // verus!
