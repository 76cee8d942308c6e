//! In-memory sliding-window rate limiter keyed by API key id.
use std::collections::HashMap;
use vstd::prelude::*;

use crate::clock::{instant_now, nanos_since};
use crate::text::{decimal, push_decimal};

verus! {

broadcast use vstd::std_specs::hash::group_hash_axioms;

/// Nanoseconds in a second.
pub open spec fn nanos_per_sec() -> nat {
    1_000_000_000
}

/// Time from `t` to `now`, zero when `t` is later (as `Instant::duration_since`).
pub open spec fn elapsed(now: u128, t: u128) -> nat {
    if now >= t {
        (now - t) as nat
    } else {
        0
    }
}

/// Whether a grant at `t` still counts at `now` in a window of `window_secs`.
pub open spec fn in_window(now: u128, t: u128, window_secs: u64) -> bool {
    elapsed(now, t) < window_secs * nanos_per_sec()
}

/// The grants of `ts` that still count at `now`, in their order.
pub open spec fn live(ts: Seq<u128>, now: u128, window_secs: u64) -> Seq<u128>
    decreases ts.len(),
{
    if ts.len() == 0 {
        Seq::empty()
    } else {
        let rest = live(ts.drop_last(), now, window_secs);
        if in_window(now, ts.last(), window_secs) {
            rest.push(ts.last())
        } else {
            rest
        }
    }
}

/// Seconds until the oldest live grant leaves the window, at least one.
pub open spec fn retry_after(oldest: u128, now: u128, window_secs: u64) -> u64 {
    let secs = elapsed(now, oldest) / nanos_per_sec();
    if window_secs > secs && window_secs - secs >= 1 {
        (window_secs - secs) as u64
    } else {
        1
    }
}

/// The grants recorded for `key` in `grants`.
pub open spec fn grants_of(grants: Map<u128, Seq<u128>>, key: u128) -> Seq<u128> {
    if grants.contains_key(key) {
        grants[key]
    } else {
        Seq::empty()
    }
}

/// A check of `key` at `now`: the grants that are out of the window are
/// dropped; if `max_requests` live grants remain the request is refused with the
/// seconds to wait, otherwise it is granted and recorded.
pub open spec fn checked(
    grants: Map<u128, Seq<u128>>,
    max_requests: u32,
    window_secs: u64,
    key: u128,
    now: u128,
) -> (Map<u128, Seq<u128>>, Result<(), u64>) {
    let l = live(grants_of(grants, key), now, window_secs);
    if l.len() >= max_requests {
        (grants.insert(key, l), Err(retry_after(l[0], now, window_secs)))
    } else {
        (grants.insert(key, l.push(now)), Ok(()))
    }
}

proof fn lemma_live_len(ts: Seq<u128>, now: u128, window_secs: u64)
    ensures
        live(ts, now, window_secs).len() <= ts.len(),
    decreases ts.len(),
{
    if ts.len() > 0 {
        lemma_live_len(ts.drop_last(), now, window_secs);
    }
}

proof fn lemma_live_in_window(ts: Seq<u128>, now: u128, window_secs: u64)
    ensures
        forall|i: int|
            0 <= i < live(ts, now, window_secs).len() ==> in_window(
                now,
                #[trigger] live(ts, now, window_secs)[i],
                window_secs,
            ),
    decreases ts.len(),
{
    if ts.len() > 0 {
        let rest = live(ts.drop_last(), now, window_secs);
        lemma_live_in_window(ts.drop_last(), now, window_secs);
        assert forall|i: int|
            0 <= i < live(ts, now, window_secs).len() implies in_window(
            now,
            #[trigger] live(ts, now, window_secs)[i],
            window_secs,
        ) by {
            if i < rest.len() {
                assert(live(ts, now, window_secs)[i] == rest[i]);
            }
        }
    }
}

/// The sliding-window law of the limiter: a request is granted exactly when
/// fewer than `max_requests` of the key's grants are still in the window; a
/// granted request is recorded at `now`, a refused one records nothing and
/// is told to wait at least one second and at most the window (or one
/// second when the window is shorter); no key ever holds more than
/// `max_requests` grants, and other keys are untouched.
pub proof fn lemma_sliding_window(
    grants: Map<u128, Seq<u128>>,
    max_requests: u32,
    window_secs: u64,
    key: u128,
    now: u128,
)
    requires
        grants_of(grants, key).len() <= max_requests,
    ensures
        checked(grants, max_requests, window_secs, key, now).1 is Ok <==> live(
            grants_of(grants, key),
            now,
            window_secs,
        ).len() < max_requests,
        checked(grants, max_requests, window_secs, key, now).1 is Ok ==> grants_of(
            checked(grants, max_requests, window_secs, key, now).0,
            key,
        ) == live(grants_of(grants, key), now, window_secs).push(now),
        checked(grants, max_requests, window_secs, key, now).1 matches Err(wait) ==> wait >= 1
            && (wait <= window_secs || wait == 1)
            && grants_of(checked(grants, max_requests, window_secs, key, now).0, key) == live(
            grants_of(grants, key),
            now,
            window_secs,
        ),
        grants_of(checked(grants, max_requests, window_secs, key, now).0, key).len() <= max_requests,
        forall|k: u128|
            k != key ==> #[trigger] grants_of(checked(grants, max_requests, window_secs, key, now).0, k)
                == grants_of(grants, k),
{
    lemma_live_len(grants_of(grants, key), now, window_secs);
}

/// Whether `h` never decreases.
pub open spec fn sorted(h: Seq<u128>) -> bool {
    forall|i: int, j: int| 0 <= i <= j < h.len() ==> h[i] <= h[j]
}

/// Whether any `max_requests + 1` successive grants of `h` lie at least a
/// window apart: no window of `window_secs` seconds holds more than
/// `max_requests` of them.
pub open spec fn spaced(h: Seq<u128>, max_requests: u32, window_secs: u64) -> bool {
    forall|i: int|
        0 <= i && i + max_requests < h.len() ==> h[i + max_requests] - #[trigger] h[i] >= window_secs
            * nanos_per_sec()
}

proof fn lemma_elapsed_order(now: u128, a: u128, b: u128)
    requires
        a <= b <= now,
    ensures
        elapsed(now, a) >= elapsed(now, b),
{
}

/// The grants of a sorted `ts`, all made by `now`, that still count at `now`
/// are a suffix of it, from `q` on; those before `q` are out of the window.
proof fn lemma_live_suffix(ts: Seq<u128>, now: u128, window_secs: u64) -> (q: int)
    requires
        sorted(ts),
        forall|i: int| 0 <= i < ts.len() ==> ts[i] <= now,
    ensures
        0 <= q <= ts.len(),
        live(ts, now, window_secs) == ts.subrange(q, ts.len() as int),
        forall|i: int| 0 <= i < q ==> !in_window(now, #[trigger] ts[i], window_secs),
    decreases ts.len(),
{
    if ts.len() == 0 {
        assert(ts.subrange(0, 0) =~= Seq::<u128>::empty());
        0
    } else {
        let n = ts.len() as int;
        let init = ts.drop_last();
        let q0 = lemma_live_suffix(init, now, window_secs);
        if in_window(now, ts.last(), window_secs) {
            assert(ts.subrange(q0, n) =~= init.subrange(q0, n - 1).push(ts.last()));
            assert forall|i: int| 0 <= i < q0 implies !in_window(now, #[trigger] ts[i], window_secs) by {
                assert(ts[i] == init[i]);
            }
            q0
        } else {
            if q0 < n - 1 {
                lemma_live_in_window(init, now, window_secs);
                assert(live(init, now, window_secs)[0] == init[q0]);
                lemma_elapsed_order(now, init[q0], ts.last());
            }
            assert(ts.subrange(n, n) =~= Seq::<u128>::empty());
            assert(live(init, now, window_secs) =~= Seq::<u128>::empty());
            assert forall|i: int| 0 <= i < n implies !in_window(now, #[trigger] ts[i], window_secs) by {
                lemma_elapsed_order(now, ts[i], ts.last());
            }
            n
        }
    }
}

/// One check of a key whose grants are `h`, of which those before `p` are
/// out of the window at `last`: the grants still counting at `now` are those
/// from `q` on, those before `q` are out of the window at `now`, and granting
/// at `now` when fewer than `max_requests` count keeps the grants spaced.
proof fn lemma_key_step(
    h: Seq<u128>,
    p: int,
    last: u128,
    now: u128,
    max_requests: u32,
    window_secs: u64,
) -> (q: int)
    requires
        0 <= p <= h.len(),
        sorted(h),
        last <= now,
        forall|i: int| 0 <= i < h.len() ==> #[trigger] h[i] <= last,
        forall|i: int| 0 <= i < p ==> last - #[trigger] h[i] >= window_secs * nanos_per_sec(),
        spaced(h, max_requests, window_secs),
    ensures
        p <= q <= h.len(),
        live(h.subrange(p, h.len() as int), now, window_secs) == h.subrange(q, h.len() as int),
        forall|i: int| 0 <= i < q ==> now - #[trigger] h[i] >= window_secs * nanos_per_sec(),
        h.len() - q < max_requests ==> spaced(h.push(now), max_requests, window_secs),
        h.len() - q < max_requests ==> sorted(h.push(now)),
{
    let n = h.len() as int;
    let e = h.subrange(p, n);
    assert(sorted(e));
    let j = lemma_live_suffix(e, now, window_secs);
    assert(e.subrange(j, e.len() as int) =~= h.subrange(p + j, n));
    assert forall|i: int| 0 <= i < p + j implies now - #[trigger] h[i] >= window_secs * nanos_per_sec() by {
        if i >= p {
            assert(e[i - p] == h[i]);
            assert(!in_window(now, e[i - p], window_secs));
        }
    }
    if n - (p + j) < max_requests {
        let h2 = h.push(now);
        assert forall|i: int|
            0 <= i && i + max_requests < h2.len() implies h2[i + max_requests] - #[trigger] h2[i]
            >= window_secs * nanos_per_sec() by {
            if i + max_requests < n {
                assert(h2[i] == h[i]);
                assert(h2[i + max_requests] == h[i + max_requests]);
            } else {
                assert(h2[i] == h[i]);
            }
        }
    }
    p + j
}

/// In-memory sliding-window rate limiter keyed by API key id.
pub struct RateLimiter {
    max_requests: u32,
    window_secs: u64,
    entries: HashMap<u128, Vec<u128>>,
    history: Ghost<Map<u128, Seq<u128>>>,
    last_now: u128,
    origin: std::time::Instant,
}

impl RateLimiter {
    /// Requests allowed per window.
    pub closed spec fn max_requests(&self) -> u32 {
        self.max_requests
    }

    /// Window length in seconds.
    pub closed spec fn window_secs(&self) -> u64 {
        self.window_secs
    }

    /// The grant instants (nanoseconds on the limiter's clock) per key that
    /// the limiter keeps.
    pub closed spec fn grants(&self) -> Map<u128, Seq<u128>> {
        self.entries@.map_values(|v: Vec<u128>| v@)
    }

    /// Every grant ever made, per key, in the order made.
    pub closed spec fn history(&self) -> Map<u128, Seq<u128>> {
        self.history@
    }

    /// The instant of the latest check (nanoseconds on the limiter's clock).
    pub closed spec fn last_now(&self) -> u128 {
        self.last_now
    }

    closed spec fn key_ok(&self, k: u128) -> bool {
        let h = grants_of(self.history@, k);
        let e = grants_of(self.grants(), k);
        &&& e.len() <= h.len()
        &&& e == h.subrange(h.len() - e.len(), h.len() as int)
        &&& sorted(h)
        &&& forall|i: int| 0 <= i < h.len() ==> #[trigger] h[i] <= self.last_now
        &&& forall|i: int|
            0 <= i < h.len() - e.len() ==> self.last_now - #[trigger] h[i] >= self.window_secs
                * nanos_per_sec()
        &&& spaced(h, self.max_requests, self.window_secs)
    }

    /// At least one request is allowed per window; no key holds more grants
    /// than that; the grants kept for a key are the latest of its history,
    /// the others being out of the window at the latest check; and every
    /// history is ordered, made by the latest check, and spaced.
    pub closed spec fn well_formed(&self) -> bool {
        &&& self.max_requests >= 1
        &&& forall|k: u128| #[trigger]
            self.entries@.contains_key(k) ==> self.entries@[k]@.len() <= self.max_requests
        &&& forall|k: u128| #[trigger] self.key_ok(k)
    }

    /// A limiter allowing `max_requests` requests per `window_secs` seconds.
    pub fn new(max_requests: u32, window_secs: u64) -> (limiter: Self)
        requires
            max_requests >= 1,
        ensures
            limiter.well_formed(),
            limiter.max_requests() == max_requests,
            limiter.window_secs() == window_secs,
            limiter.grants() == Map::<u128, Seq<u128>>::empty(),
            limiter.history() == Map::<u128, Seq<u128>>::empty(),
            limiter.last_now() == 0,
    {
        let limiter = RateLimiter {
            max_requests,
            window_secs,
            entries: HashMap::new(),
            history: Ghost(Map::empty()),
            last_now: 0,
            origin: instant_now(),
        };
        assert(limiter.grants() =~= Map::<u128, Seq<u128>>::empty());
        assert forall|k: u128| #[trigger] limiter.key_ok(k) by {
            assert(grants_of(limiter.history@, k).len() == 0);
            assert(grants_of(limiter.grants(), k).len() == 0);
            assert(Seq::<u128>::empty().subrange(0, 0) =~= Seq::<u128>::empty());
        }
        limiter
    }

    /// Checks a request of `key` at `now` (nanoseconds on the limiter's clock,
    /// no earlier than the latest check): `Ok(())` when it is allowed,
    /// `Err(retry_after_secs)` when it is not. A granted request is added to
    /// the key's history; the limiter stays well formed, so no window ever
    /// holds more than `max_requests` grants of a key.
    pub fn check_at(&mut self, key: u128, now: u128) -> (res: Result<(), u64>)
        requires
            old(self).well_formed(),
            old(self).last_now() <= now,
        ensures
            final(self).well_formed(),
            final(self).max_requests() == old(self).max_requests(),
            final(self).window_secs() == old(self).window_secs(),
            final(self).last_now() == now,
            (final(self).grants(), res) == checked(
                old(self).grants(),
                old(self).max_requests(),
                old(self).window_secs(),
                key,
                now,
            ),
            final(self).grants()[key].len() <= final(self).max_requests(),
            res is Ok ==> final(self).history() == old(self).history().insert(
                key,
                grants_of(old(self).history(), key).push(now),
            ),
            res is Err ==> final(self).history() == old(self).history(),
    {
        let ghost s0 = *self;
        let ghost g0 = self.grants();
        let ghost h0 = self.history@;
        let ghost last0 = self.last_now;
        proof {
            assert(self.key_ok(key));
        }
        let mut entries: HashMap<u128, Vec<u128>> = HashMap::new();
        std::mem::swap(&mut entries, &mut self.entries);
        let ts = match entries.remove(&key) {
            Some(v) => v,
            None => Vec::new(),
        };
        assert(ts@ == grants_of(g0, key));
        let window = self.window_secs as u128 * 1_000_000_000u128;
        let mut kept: Vec<u128> = Vec::new();
        let mut i: usize = 0;
        while i < ts.len()
            invariant
                i <= ts@.len(),
                window == self.window_secs * nanos_per_sec(),
                kept@ == live(ts@.subrange(0, i as int), now, self.window_secs),
            decreases ts@.len() - i,
        {
            let t = ts[i];
            let age = if now >= t { now - t } else { 0 };
            proof {
                assert(ts@.subrange(0, i + 1).drop_last() =~= ts@.subrange(0, i as int));
            }
            if age < window {
                kept.push(t);
            }
            i = i + 1;
        }
        assert(ts@.subrange(0, ts@.len() as int) =~= ts@);
        let ghost hk = grants_of(h0, key);
        let ghost q: int = 0;
        proof {
            lemma_live_len(ts@, now, self.window_secs);
            lemma_live_in_window(ts@, now, self.window_secs);
            q = lemma_key_step(
                hk,
                hk.len() - ts@.len(),
                last0,
                now,
                self.max_requests,
                self.window_secs,
            );
            assert(kept@ == hk.subrange(q, hk.len() as int));
        }
        self.last_now = now;
        if kept.len() >= self.max_requests as usize {
            let oldest = kept[0];
            let age = if now >= oldest { now - oldest } else { 0 };
            assert(in_window(now, kept@[0], self.window_secs));
            assert(age / 1_000_000_000u128 < self.window_secs) by (nonlinear_arith)
                requires
                    age < self.window_secs * 1_000_000_000u128,
            ;
            let secs = (age / 1_000_000_000u128) as u64;
            let wait = if self.window_secs > secs { self.window_secs - secs } else { 0 };
            let wait = if wait >= 1 { wait } else { 1 };
            entries.insert(key, kept);
            self.entries = entries;
            proof {
                assert(self.grants() =~= g0.insert(key, live(grants_of(g0, key), now, self.window_secs)));
                self.lemma_keys_step(s0, g0, h0, last0, key, now, q);
            }
            Err(wait)
        } else {
            kept.push(now);
            entries.insert(key, kept);
            self.entries = entries;
            proof {
                self.history = Ghost(h0.insert(key, hk.push(now)));
                assert(self.grants() =~= g0.insert(key, live(grants_of(g0, key), now, self.window_secs).push(now)));
                self.lemma_keys_step(s0, g0, h0, last0, key, now, q);
            }
            Ok(())
        }
    }

    proof fn lemma_keys_step(
        &self,
        s0: RateLimiter,
        g0: Map<u128, Seq<u128>>,
        h0: Map<u128, Seq<u128>>,
        last0: u128,
        key: u128,
        now: u128,
        q: int,
    )
        requires
            self.max_requests >= 1,
            self.last_now == now,
            last0 <= now,
            forall|k: u128| #[trigger]
                self.entries@.contains_key(k) ==> self.entries@[k]@.len() <= self.max_requests,
            forall|k: u128|
                k != key ==> #[trigger] grants_of(self.grants(), k) == grants_of(g0, k)
                    && grants_of(self.history@, k) == grants_of(h0, k),
            s0.well_formed(),
            s0.grants() == g0,
            s0.history@ == h0,
            s0.last_now == last0,
            s0.window_secs == self.window_secs,
            s0.max_requests == self.max_requests,
            ({
                let hk = grants_of(h0, key);
                let ek = grants_of(self.grants(), key);
                let hn = grants_of(self.history@, key);
                &&& 0 <= q <= hk.len()
                &&& sorted(hk)
                &&& forall|i: int| 0 <= i < hk.len() ==> #[trigger] hk[i] <= last0
                &&& forall|i: int| 0 <= i < q ==> now - #[trigger] hk[i] >= self.window_secs * nanos_per_sec()
                &&& spaced(hk, self.max_requests, self.window_secs)
                &&& (hk.len() - q < self.max_requests ==> spaced(hk.push(now), self.max_requests, self.window_secs))
                &&& (hk.len() - q < self.max_requests ==> sorted(hk.push(now)))
                &&& ((hn == hk && ek == hk.subrange(q, hk.len() as int)) || (hn == hk.push(now)
                    && ek == hk.subrange(q, hk.len() as int).push(now) && hk.len() - q < self.max_requests))
            }),
        ensures
            self.well_formed(),
    {
        assert forall|k: u128| #[trigger] self.key_ok(k) by {
            if k != key {
                assert(s0.key_ok(k));
                let h = grants_of(h0, k);
                assert forall|i: int| 0 <= i < h.len() implies #[trigger] h[i] <= self.last_now by {
                    assert(h[i] <= last0);
                }
                let e = grants_of(g0, k);
                assert forall|i: int| 0 <= i < h.len() - e.len() implies self.last_now - #[trigger] h[i]
                    >= self.window_secs * nanos_per_sec() by {
                    assert(last0 - h[i] >= self.window_secs * nanos_per_sec());
                }
            } else {
                let hk = grants_of(h0, key);
                let hn = grants_of(self.history@, key);
                if hn == hk {
                    assert forall|i: int| 0 <= i < hk.len() implies #[trigger] hk[i] <= self.last_now by {
                        assert(hk[i] <= last0);
                    }
                } else {
                    assert(hk.subrange(q, hk.len() as int).push(now) =~= hn.subrange(q, hn.len() as int));
                    assert forall|i: int| 0 <= i < hn.len() implies #[trigger] hn[i] <= self.last_now by {
                        if i < hk.len() {
                            assert(hn[i] == hk[i]);
                            assert(hk[i] <= last0);
                        }
                    }
                    assert forall|i: int| 0 <= i < q implies self.last_now - #[trigger] hn[i]
                        >= self.window_secs * nanos_per_sec() by {
                        assert(hn[i] == hk[i]);
                    }
                }
            }
        }
    }

    /// The limit over successive checks: in a well-formed limiter (every
    /// limiter `new` makes, and every one `check` and `check_at` leave),
    /// each key's history of grants is in time order, made no later than the
    /// latest check, and any `max_requests + 1` successive grants of it lie at
    /// least a window apart, so no window of `window_secs` seconds holds more
    /// than `max_requests` grants of one key.
    pub proof fn lemma_grants_spaced(limiter: RateLimiter)
        requires
            limiter.well_formed(),
        ensures
            forall|k: u128| #[trigger]
                spaced(grants_of(limiter.history(), k), limiter.max_requests(), limiter.window_secs()),
            forall|k: u128| #[trigger] sorted(grants_of(limiter.history(), k)),
            forall|k: u128, i: int|
                0 <= i < grants_of(limiter.history(), k).len() ==> #[trigger] grants_of(
                    limiter.history(),
                    k,
                )[i] <= limiter.last_now(),
    {
        assert forall|k: u128| #[trigger]
            spaced(grants_of(limiter.history(), k), limiter.max_requests(), limiter.window_secs()) by {
            assert(limiter.key_ok(k));
        }
        assert forall|k: u128| #[trigger] sorted(grants_of(limiter.history(), k)) by {
            assert(limiter.key_ok(k));
        }
        assert forall|k: u128, i: int|
            0 <= i < grants_of(limiter.history(), k).len() implies #[trigger] grants_of(
            limiter.history(),
            k,
        )[i] <= limiter.last_now() by {
            assert(limiter.key_ok(k));
        }
    }

    /// Checks a request of `key` now: `Ok(())` when it is allowed,
    /// `Err(retry_after_secs)` when it is not. The monotonic clock never goes
    /// back, so the instant read is no earlier than the latest check; it is
    /// taken as the latest check's instant should the clock misbehave.
    pub fn check(&mut self, key: u128) -> (res: Result<(), u64>)
        requires
            old(self).well_formed(),
        ensures
            final(self).well_formed(),
            final(self).max_requests() == old(self).max_requests(),
            final(self).window_secs() == old(self).window_secs(),
            old(self).last_now() <= final(self).last_now(),
            (final(self).grants(), res) == checked(
                old(self).grants(),
                old(self).max_requests(),
                old(self).window_secs(),
                key,
                final(self).last_now(),
            ),
            res is Ok ==> final(self).history() == old(self).history().insert(
                key,
                grants_of(old(self).history(), key).push(final(self).last_now()),
            ),
            res is Err ==> final(self).history() == old(self).history(),
    {
        let reading = nanos_since(&self.origin);
        let now = if reading < self.last_now { self.last_now } else { reading };
        self.check_at(key, now)
    }
}

/// The answer to a refused request: `Rate limit exceeded. Retry after {n}s`.
pub open spec fn limit_message(retry_after: u64) -> Seq<char> {
    "Rate limit exceeded. Retry after "@ + decimal(retry_after as nat) + "s"@
}

/// Writes the answer to a request refused for `retry_after` seconds.
pub fn limit_exceeded_message(retry_after: u64) -> (m: String)
    ensures
        m@ == limit_message(retry_after),
{
    let mut m = String::from_str("Rate limit exceeded. Retry after ");
    push_decimal(&mut m, retry_after);
    m.append("s");
    m
}

} // verus!
