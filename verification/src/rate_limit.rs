//! Per-client request counting over a time window.
//!
//! Time is a number of milliseconds read from a monotonic clock by the caller;
//! the limiter itself never looks at a clock.
//!
//! The windows are kept in a list that is searched by client key, not in a
//! hash map: vstd gives `String` no key model, so of a `HashMap` keyed by
//! client nothing can be proved, not even that an inserted key is there.

use vstd::prelude::*;

verus! {

/// The requests remembered for one client.
pub struct ClientWindow {
    pub client: String,
    pub stamps: Vec<u64>,
}

/// Counts requests per client key and refuses those above a ceiling.
pub struct RateLimiter {
    windows: Vec<ClientWindow>,
    max_requests: usize,
    window_ms: u64,
}

/// Time passed between a recorded request and `now`; zero for a request stamped
/// later than `now`.
pub open spec fn age_of(stamp: u64, now: u64) -> int {
    if now >= stamp {
        now - stamp
    } else {
        0
    }
}

/// A recorded request still counts while it is younger than the window.
pub open spec fn still_counts(stamp: u64, now: u64, window_ms: u64) -> bool {
    age_of(stamp, now) < window_ms
}

/// The recorded requests that still count at `now`, oldest first as recorded.
pub open spec fn pruned(stamps: Seq<u64>, now: u64, window_ms: u64) -> Seq<u64>
    decreases stamps.len(),
{
    if stamps.len() == 0 {
        Seq::empty()
    } else {
        let earlier = pruned(stamps.drop_last(), now, window_ms);
        if still_counts(stamps.last(), now, window_ms) {
            earlier.push(stamps.last())
        } else {
            earlier
        }
    }
}

/// What one check leaves recorded for the client that made it.
pub open spec fn after_check(stamps: Seq<u64>, now: u64, window_ms: u64, max_requests: nat) -> Seq<
    u64,
> {
    let kept = pruned(stamps, now, window_ms);
    if kept.len() < max_requests {
        kept.push(now)
    } else {
        kept
    }
}

/// Whether a check at `now` is let through.
pub open spec fn admits(stamps: Seq<u64>, now: u64, window_ms: u64, max_requests: nat) -> bool {
    pruned(stamps, now, window_ms).len() < max_requests
}

/// The stamps held for `client` in a list of windows: those of the last entry
/// with that key, or none.
pub open spec fn stamps_of(windows: Seq<ClientWindow>, client: Seq<char>) -> Seq<u64>
    decreases windows.len(),
{
    if windows.len() == 0 {
        Seq::empty()
    } else if windows.last().client@ == client {
        windows.last().stamps@
    } else {
        stamps_of(windows.drop_last(), client)
    }
}

proof fn lemma_stamps_of_replaced(
    windows: Seq<ClientWindow>,
    at: int,
    entry: ClientWindow,
    client: Seq<char>,
)
    requires
        0 <= at < windows.len(),
        entry.client@ == windows[at].client@,
        forall|j: int| at < j < windows.len() ==> windows[j].client@ != windows[at].client@,
    ensures
        stamps_of(windows.update(at, entry), client) == if client == entry.client@ {
            entry.stamps@
        } else {
            stamps_of(windows, client)
        },
    decreases windows.len(),
{
    let replaced = windows.update(at, entry);
    if at == windows.len() - 1 {
        assert(replaced.drop_last() == windows.drop_last());
    } else {
        assert(replaced.drop_last() == windows.drop_last().update(at, entry));
        assert(replaced.last() == windows.last());
        lemma_stamps_of_replaced(windows.drop_last(), at, entry, client);
    }
}

proof fn lemma_stamps_of_absent(windows: Seq<ClientWindow>, client: Seq<char>)
    requires
        forall|j: int| 0 <= j < windows.len() ==> windows[j].client@ != client,
    ensures
        stamps_of(windows, client) == Seq::<u64>::empty(),
    decreases windows.len(),
{
    if windows.len() > 0 {
        lemma_stamps_of_absent(windows.drop_last(), client);
    }
}

proof fn lemma_pruned_bounds(stamps: Seq<u64>, now: u64, window_ms: u64)
    ensures
        pruned(stamps, now, window_ms).len() <= stamps.len(),
        forall|k: int|
            0 <= k < pruned(stamps, now, window_ms).len() ==> still_counts(
                #[trigger] pruned(stamps, now, window_ms)[k],
                now,
                window_ms,
            ),
    decreases stamps.len(),
{
    if stamps.len() > 0 {
        lemma_pruned_bounds(stamps.drop_last(), now, window_ms);
    }
}

proof fn lemma_pruned_of_stale(stamps: Seq<u64>, now: u64, window_ms: u64)
    requires
        forall|k: int| 0 <= k < stamps.len() ==> !still_counts(stamps[k], now, window_ms),
    ensures
        pruned(stamps, now, window_ms) == Seq::<u64>::empty(),
    decreases stamps.len(),
{
    if stamps.len() > 0 {
        lemma_pruned_of_stale(stamps.drop_last(), now, window_ms);
    }
}

proof fn lemma_pruned_of_fresh(stamps: Seq<u64>, now: u64, window_ms: u64)
    requires
        forall|k: int| 0 <= k < stamps.len() ==> still_counts(stamps[k], now, window_ms),
    ensures
        pruned(stamps, now, window_ms) == stamps,
    decreases stamps.len(),
{
    if stamps.len() > 0 {
        lemma_pruned_of_fresh(stamps.drop_last(), now, window_ms);
        assert(stamps.drop_last().push(stamps.last()) == stamps);
    }
}

fn prune(stamps: &Vec<u64>, now: u64, window_ms: u64) -> (kept: Vec<u64>)
    ensures
        kept@ == pruned(stamps@, now, window_ms),
{
    let mut kept: Vec<u64> = Vec::new();
    let mut i: usize = 0;
    while i < stamps.len()
        invariant
            i <= stamps.len(),
            kept@ == pruned(stamps@.subrange(0, i as int), now, window_ms),
        decreases stamps.len() - i,
    {
        let stamp = stamps[i];
        let age = if now >= stamp {
            now - stamp
        } else {
            0
        };
        proof {
            let next = stamps@.subrange(0, i + 1);
            assert(next.drop_last() == stamps@.subrange(0, i as int));
            assert(next.last() == stamp);
        }
        if age < window_ms {
            kept.push(stamp);
        }
        i += 1;
    }
    assert(stamps@.subrange(0, stamps.len() as int) == stamps@);
    kept
}

impl RateLimiter {
    /// The requests currently remembered for `client`, oldest first.
    pub closed spec fn recorded(&self, client: Seq<char>) -> Seq<u64> {
        stamps_of(self.windows@, client)
    }

    /// The ceiling: how many requests a client may make within one window.
    pub closed spec fn ceiling(&self) -> nat {
        self.max_requests as nat
    }

    /// The length of the window, in milliseconds.
    pub closed spec fn window(&self) -> u64 {
        self.window_ms
    }

    /// A limiter that lets each client make `max_requests` requests within any
    /// `window_ms` milliseconds, with nothing recorded yet.
    pub fn new(max_requests: usize, window_ms: u64) -> (limiter: RateLimiter)
        ensures
            limiter.ceiling() == max_requests,
            limiter.window() == window_ms,
            forall|client: Seq<char>| #[trigger] limiter.recorded(client) == Seq::<u64>::empty(),
    {
        RateLimiter { windows: Vec::new(), max_requests, window_ms }
    }

    /// The configured ceiling.
    pub fn max_requests(&self) -> (n: usize)
        ensures
            n == self.ceiling(),
    {
        self.max_requests
    }

    /// The configured window, in milliseconds.
    pub fn window_ms(&self) -> (ms: u64)
        ensures
            ms == self.window(),
    {
        self.window_ms
    }

    fn position(&self, client: &str) -> (found: Option<usize>)
        ensures
            match found {
                Some(at) => {
                    &&& at < self.windows@.len()
                    &&& self.windows@[at as int].client@ == client@
                    &&& forall|j: int|
                        at < j < self.windows@.len() ==> self.windows@[j].client@ != client@
                },
                None => forall|j: int|
                    0 <= j < self.windows@.len() ==> self.windows@[j].client@ != client@,
            },
    {
        let wanted = client.to_owned();
        let mut i: usize = self.windows.len();
        while i > 0
            invariant
                i <= self.windows@.len(),
                wanted@ == client@,
                forall|j: int| i <= j < self.windows@.len() ==> self.windows@[j].client@ != client@,
            decreases i,
        {
            i -= 1;
            if self.windows[i].client.eq(&wanted) {
                return Some(i);
            }
        }
        None
    }

    /// Decides one request of `client_ip` made at `now`.
    ///
    /// Requests of that client older than the window are forgotten; the request is
    /// let through exactly when fewer than the ceiling remain, and only then is
    /// it recorded. What is remembered for other clients does not change.
    pub fn check_rate_limit(&mut self, client_ip: &str, now: u64) -> (allowed: bool)
        ensures
            allowed == admits(
                old(self).recorded(client_ip@),
                now,
                old(self).window(),
                old(self).ceiling(),
            ),
            final(self).recorded(client_ip@) == after_check(
                old(self).recorded(client_ip@),
                now,
                old(self).window(),
                old(self).ceiling(),
            ),
            forall|other: Seq<char>|
                other != client_ip@ ==> #[trigger] final(self).recorded(other) == old(
                    self,
                ).recorded(other),
            final(self).ceiling() == old(self).ceiling(),
            final(self).window() == old(self).window(),
    {
        let found = self.position(client_ip);
        let ghost before = self.windows@;
        match found {
            Some(at) => {
                proof {
                    lemma_stamps_of_replaced(before, at as int, before[at as int], client_ip@);
                    assert(before.update(at as int, before[at as int]) == before);
                }
                let mut kept = prune(&self.windows[at].stamps, now, self.window_ms);
                let allowed = kept.len() < self.max_requests;
                if allowed {
                    kept.push(now);
                }
                let entry = ClientWindow { client: client_ip.to_owned(), stamps: kept };
                proof {
                    assert forall|other: Seq<char>| true implies #[trigger] stamps_of(
                        before.update(at as int, entry),
                        other,
                    ) == if other == client_ip@ {
                        entry.stamps@
                    } else {
                        stamps_of(before, other)
                    } by {
                        lemma_stamps_of_replaced(before, at as int, entry, other);
                    }
                }
                self.windows.set(at, entry);
                allowed
            },
            None => {
                proof {
                    lemma_stamps_of_absent(before, client_ip@);
                }
                let mut kept: Vec<u64> = Vec::new();
                let allowed = 0 < self.max_requests;
                if allowed {
                    kept.push(now);
                }
                let entry = ClientWindow { client: client_ip.to_owned(), stamps: kept };
                proof {
                    assert(before.push(entry).drop_last() == before);
                    assert(pruned(Seq::<u64>::empty(), now, self.window_ms) == Seq::<u64>::empty());
                }
                self.windows.push(entry);
                allowed
            },
        }
    }
}

/// The limiter in front of the authentication endpoints: 5 requests per 15 minutes.
pub fn create_auth_rate_limiter() -> (limiter: RateLimiter)
    ensures
        limiter.ceiling() == 5,
        limiter.window() == 900_000,
        forall|client: Seq<char>| #[trigger] limiter.recorded(client) == Seq::<u64>::empty(),
{
    RateLimiter::new(5, 15 * 60 * 1000)
}

/// The limiter in front of the general API: 100 requests per 15 minutes.
pub fn create_api_rate_limiter() -> (limiter: RateLimiter)
    ensures
        limiter.ceiling() == 100,
        limiter.window() == 900_000,
        forall|client: Seq<char>| #[trigger] limiter.recorded(client) == Seq::<u64>::empty(),
{
    RateLimiter::new(100, 15 * 60 * 1000)
}

/// A check never lets the number remembered for a client grow beyond the
/// ceiling, and everything remembered after it lies within the window.
pub proof fn check_keeps_within_ceiling(stamps: Seq<u64>, now: u64, window_ms: u64, max_requests: nat)
    requires
        window_ms > 0,
        stamps.len() <= max_requests,
    ensures
        after_check(stamps, now, window_ms, max_requests).len() <= max_requests,
        forall|k: int|
            0 <= k < after_check(stamps, now, window_ms, max_requests).len() ==> still_counts(
                #[trigger] after_check(stamps, now, window_ms, max_requests)[k],
                now,
                window_ms,
            ),
{
    lemma_pruned_bounds(stamps, now, window_ms);
}

/// What is remembered for a client after a series of checks made at the given
/// times, one after the other.
pub open spec fn after_checks(stamps: Seq<u64>, times: Seq<u64>, window_ms: u64, max_requests: nat) -> Seq<
    u64,
>
    decreases times.len(),
{
    if times.len() == 0 {
        stamps
    } else {
        after_check(
            after_checks(stamps, times.drop_last(), window_ms, max_requests),
            times.last(),
            window_ms,
            max_requests,
        )
    }
}

/// Whatever the times of the requests, a client starting with nothing
/// remembered never has more than the ceiling remembered.
pub proof fn ceiling_holds_throughout(times: Seq<u64>, window_ms: u64, max_requests: nat)
    ensures
        after_checks(Seq::empty(), times, window_ms, max_requests).len() <= max_requests,
    decreases times.len(),
{
    if times.len() > 0 {
        ceiling_holds_throughout(times.drop_last(), window_ms, max_requests);
        lemma_pruned_bounds(
            after_checks(Seq::empty(), times.drop_last(), window_ms, max_requests),
            times.last(),
            window_ms,
        );
    }
}

/// A refused request leaves no trace: only the pruning happens.
pub proof fn refused_request_is_not_recorded(
    stamps: Seq<u64>,
    now: u64,
    window_ms: u64,
    max_requests: nat,
)
    requires
        !admits(stamps, now, window_ms, max_requests),
    ensures
        after_check(stamps, now, window_ms, max_requests) == pruned(stamps, now, window_ms),
{
}

/// Once every remembered request is at least one window old, the next request is
/// let through (given a ceiling above zero) and is then the only one remembered.
pub proof fn elapsed_window_admits(stamps: Seq<u64>, now: u64, window_ms: u64, max_requests: nat)
    requires
        max_requests > 0,
        forall|k: int| 0 <= k < stamps.len() ==> age_of(stamps[k], now) >= window_ms,
    ensures
        admits(stamps, now, window_ms, max_requests),
        after_check(stamps, now, window_ms, max_requests) == seq![now],
{
    lemma_pruned_of_stale(stamps, now, window_ms);
}

/// Requests made in quick succession, all within one window: the first
/// `max_requests` are let through and the next one is refused.
pub proof fn burst_is_cut_at_ceiling(stamps: Seq<u64>, now: u64, window_ms: u64, max_requests: nat)
    requires
        forall|k: int| 0 <= k < stamps.len() ==> still_counts(stamps[k], now, window_ms),
    ensures
        admits(stamps, now, window_ms, max_requests) <==> stamps.len() < max_requests,
{
    lemma_pruned_of_fresh(stamps, now, window_ms);
}

} // verus!
