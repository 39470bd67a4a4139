//! Fixed-window rate limiting: at most `max` requests per client within a
//! window of `window_secs` seconds. The first request of a window starts
//! the window and is always allowed; each later request within the window
//! is allowed exactly when fewer than `max` have been counted, and a
//! denied request is not counted. After a window expires the next request
//! starts a fresh window. The check-and-increment is one operation on the
//! limiter, so concurrent callers serialize through the single `&mut`
//! borrower.

use vstd::prelude::*;

verus! {

/// One client's window: how many requests it has counted and when it
/// expires.
#[derive(Debug)]
pub struct LimiterEntry {
    pub client: String,
    pub count: u32,
    pub expires_at: u64,
}

/// The mathematical value of a limiter entry.
#[verifier::ext_equal]
pub ghost struct LimiterEntryView {
    pub client: Seq<char>,
    pub count: u32,
    pub expires_at: u64,
}

impl View for LimiterEntry {
    type V = LimiterEntryView;

    open spec fn view(&self) -> LimiterEntryView {
        LimiterEntryView { client: self.client@, count: self.count, expires_at: self.expires_at }
    }
}

/// The views of a sequence of limiter entries.
pub open spec fn entry_views(es: Seq<LimiterEntry>) -> Seq<LimiterEntryView> {
    es.map_values(|e: LimiterEntry| e@)
}

/// Does some window (live or stale) belong to this client?
pub open spec fn spec_has_client(es: Seq<LimiterEntryView>, client: Seq<char>) -> bool {
    exists|i: int| 0 <= i < es.len() && es[i].client == client
}

/// Is there a live (unexpired) window for this client at time `now`?
pub open spec fn spec_live(es: Seq<LimiterEntryView>, client: Seq<char>, now: u64) -> bool {
    exists|i: int| 0 <= i < es.len() && es[i].client == client && es[i].expires_at > now
}

/// The count of the client's live window at time `now`.
pub open spec fn spec_live_count(es: Seq<LimiterEntryView>, client: Seq<char>, now: u64) -> u32 {
    es[choose|i: int| 0 <= i < es.len() && es[i].client == client && es[i].expires_at > now].count
}

/// The window list after a live window's count is raised to `c`.
pub open spec fn spec_bump(
    es: Seq<LimiterEntryView>,
    client: Seq<char>,
    now: u64,
    c: u32,
) -> Seq<LimiterEntryView> {
    Seq::new(
        es.len(),
        |i: int|
            if es[i].client == client && es[i].expires_at > now {
                LimiterEntryView { count: c, ..es[i] }
            } else {
                es[i]
            },
    )
}

/// The window list after the client gets a fresh window of count 1
/// expiring at `expiry`: its old window is replaced, or a new one is added.
pub open spec fn spec_reset(
    es: Seq<LimiterEntryView>,
    client: Seq<char>,
    expiry: u64,
) -> Seq<LimiterEntryView> {
    if spec_has_client(es, client) {
        Seq::new(
            es.len(),
            |i: int|
                if es[i].client == client {
                    LimiterEntryView { client: client, count: 1, expires_at: expiry }
                } else {
                    es[i]
                },
        )
    } else {
        es.push(LimiterEntryView { client: client, count: 1, expires_at: expiry })
    }
}

/// The fixed-window request limiter.
#[derive(Debug)]
pub struct RateLimiter {
    pub max: u32,
    pub window_secs: u64,
    pub entries: Vec<LimiterEntry>,
}

impl RateLimiter {
    /// One window per client.
    pub open spec fn wf(&self) -> bool {
        forall|i: int, j: int| 0 <= i < j < self@.len() ==> self@[i].client != self@[j].client
    }

    /// The windows, as mathematical values.
    pub open spec fn view(&self) -> Seq<LimiterEntryView> {
        entry_views(self.entries@)
    }

    /// A limiter that allows `max` requests per client in each window of
    /// `window_secs` seconds.
    pub fn new(max: u32, window_secs: u64) -> (r: RateLimiter)
        ensures
            r.max == max,
            r.window_secs == window_secs,
            r@.len() == 0,
            r.wf(),
    {
        RateLimiter { max, window_secs, entries: Vec::new() }
    }

    /// One atomic check-and-increment for `client` at time `now`.
    ///
    /// The request is allowed exactly when the client has no live window or
    /// its live count is below `max`. Without a live window the client gets
    /// a fresh window of count 1; below `max` the live count rises by one;
    /// at `max` the request is denied and nothing changes.
    pub fn allow(&mut self, client: &String, now: u64) -> (r: bool)
        requires
            old(self).wf(),
            now + old(self).window_secs <= u64::MAX,
        ensures
            final(self).wf(),
            final(self).max == old(self).max,
            final(self).window_secs == old(self).window_secs,
            r == (!spec_live(old(self)@, client@, now) || spec_live_count(old(self)@, client@, now)
                < old(self).max),
            !spec_live(old(self)@, client@, now) ==> final(self)@ == spec_reset(
                old(self)@,
                client@,
                (now + old(self).window_secs) as u64,
            ),
            spec_live(old(self)@, client@, now) && spec_live_count(old(self)@, client@, now)
                < old(self).max ==> final(self)@ == spec_bump(
                old(self)@,
                client@,
                now,
                (spec_live_count(old(self)@, client@, now) + 1) as u32,
            ),
            spec_live(old(self)@, client@, now) && spec_live_count(old(self)@, client@, now)
                >= old(self).max ==> final(self)@ == old(self)@,
    {
        let expiry = now + self.window_secs;
        let n = self.entries.len();
        let mut i: usize = 0;
        while i < n
            invariant
                0 <= i <= n,
                n == self.entries@.len(),
                *self == *old(self),
                self.wf(),
                expiry == now + self.window_secs,
                forall|j: int| 0 <= j < i ==> #[trigger] self@[j].client != client@,
            decreases n - i,
        {
            assert(self@[i as int] == self.entries@[i as int]@);
            if self.entries[i].client == *client {
                proof {
                    let es = self@;
                    assert forall|j: int| 0 <= j < es.len() && j != i implies es[j].client
                        != client@ by {
                        if j < i {
                            assert(es[j].client != es[i as int].client);
                        } else {
                            assert(es[i as int].client != es[j].client);
                        }
                    }
                }
                if self.entries[i].expires_at > now {
                    proof {
                        let es = self@;
                        assert(spec_live(es, client@, now));
                        let j = choose|j: int|
                            0 <= j < es.len() && es[j].client == client@ && es[j].expires_at > now;
                        assert(j == i);
                        assert(spec_live_count(es, client@, now) == es[i as int].count);
                    }
                    let c = self.entries[i].count;
                    if c < self.max {
                        let updated = LimiterEntry {
                            client: self.entries[i].client.clone(),
                            count: c + 1,
                            expires_at: self.entries[i].expires_at,
                        };
                        self.entries[i] = updated;
                        proof {
                            let oldes = old(self)@;
                            let newes = self@;
                            let want = spec_bump(oldes, client@, now, (c + 1) as u32);
                            assert forall|j: int| 0 <= j < newes.len() implies newes[j]
                                == want[j] by {
                                assert(newes[j] == self.entries@[j]@);
                            }
                            assert(newes =~= want);
                        }
                        return true;
                    } else {
                        return false;
                    }
                } else {
                    // The window expired: start a fresh one for this client.
                    proof {
                        let es = self@;
                        assert forall|j: int|
                            0 <= j < es.len() implies !(es[j].client == client@ && es[j].expires_at
                            > now) by {
                            if j != i {
                                assert(es[j].client != client@);
                            }
                        }
                        assert(!spec_live(es, client@, now));
                        assert(spec_has_client(es, client@));
                    }
                    let fresh = LimiterEntry { client: client.clone(), count: 1, expires_at: expiry };
                    self.entries[i] = fresh;
                    proof {
                        let oldes = old(self)@;
                        let newes = self@;
                        let want = spec_reset(oldes, client@, expiry);
                        assert forall|j: int| 0 <= j < newes.len() implies newes[j] == want[j] by {
                            assert(newes[j] == self.entries@[j]@);
                        }
                        assert(newes =~= want);
                    }
                    return true;
                }
            }
            i += 1;
        }
        // No window for this client at all: add a fresh one.
        proof {
            assert(!spec_has_client(self@, client@));
            assert(!spec_live(self@, client@, now));
        }
        let ghost before = self@;
        let ghost acc = self.entries@;
        let fresh = LimiterEntry { client: client.clone(), count: 1, expires_at: expiry };
        proof {
            assert(entry_views(acc.push(fresh)) =~= entry_views(acc).push(fresh@));
        }
        self.entries.push(fresh);
        proof {
            assert(self@ =~= spec_reset(before, client@, expiry));
        }
        true
    }

    /// The guard in front of the completion backend: a denied request
    /// surfaces as a rate-limit error before any backend call is made and
    /// is not counted; an allowed one starts or raises the client's window
    /// exactly as [`RateLimiter::allow`] states.
    pub fn guard(&mut self, client: &String, now: u64) -> (r: Result<(), crate::error::Error>)
        requires
            old(self).wf(),
            now + old(self).window_secs <= u64::MAX,
        ensures
            final(self).wf(),
            final(self).max == old(self).max,
            final(self).window_secs == old(self).window_secs,
            r is Ok <==> (!spec_live(old(self)@, client@, now) || spec_live_count(
                old(self)@,
                client@,
                now,
            ) < old(self).max),
            r is Err ==> r->Err_0.kind == crate::error::ErrorKind::RateLimited,
            !spec_live(old(self)@, client@, now) ==> final(self)@ == spec_reset(
                old(self)@,
                client@,
                (now + old(self).window_secs) as u64,
            ),
            spec_live(old(self)@, client@, now) && spec_live_count(old(self)@, client@, now)
                < old(self).max ==> final(self)@ == spec_bump(
                old(self)@,
                client@,
                now,
                (spec_live_count(old(self)@, client@, now) + 1) as u32,
            ),
            spec_live(old(self)@, client@, now) && spec_live_count(old(self)@, client@, now)
                >= old(self).max ==> final(self)@ == old(self)@,
    {
        if self.allow(client, now) {
            Ok(())
        } else {
            Err(crate::error::Error::new(
                crate::error::ErrorKind::RateLimited,
                "Too many requests",
            ))
        }
    }

    /// The original entry point: one check-and-increment at time `now`,
    /// with the same window-state contract as [`RateLimiter::allow`].
    pub fn check(&mut self, client: &String, now: u64) -> (r: bool)
        requires
            old(self).wf(),
            now + old(self).window_secs <= u64::MAX,
        ensures
            final(self).wf(),
            final(self).max == old(self).max,
            final(self).window_secs == old(self).window_secs,
            r == (!spec_live(old(self)@, client@, now) || spec_live_count(old(self)@, client@, now)
                < old(self).max),
            !spec_live(old(self)@, client@, now) ==> final(self)@ == spec_reset(
                old(self)@,
                client@,
                (now + old(self).window_secs) as u64,
            ),
            spec_live(old(self)@, client@, now) && spec_live_count(old(self)@, client@, now)
                < old(self).max ==> final(self)@ == spec_bump(
                old(self)@,
                client@,
                now,
                (spec_live_count(old(self)@, client@, now) + 1) as u32,
            ),
            spec_live(old(self)@, client@, now) && spec_live_count(old(self)@, client@, now)
                >= old(self).max ==> final(self)@ == old(self)@,
    {
        self.allow(client, now)
    }
}

/// The exposed rate-limit check: is this client's request allowed at time
/// `now`? The limiter's window state changes exactly as
/// [`RateLimiter::allow`] states.
pub fn rate_limit_check(limiter: &mut RateLimiter, client_id: &String, now: u64) -> (allowed:
    bool)
    requires
        old(limiter).wf(),
        now + old(limiter).window_secs <= u64::MAX,
    ensures
        final(limiter).wf(),
        final(limiter).max == old(limiter).max,
        final(limiter).window_secs == old(limiter).window_secs,
        allowed == (!spec_live(old(limiter)@, client_id@, now) || spec_live_count(
            old(limiter)@,
            client_id@,
            now,
        ) < old(limiter).max),
        !spec_live(old(limiter)@, client_id@, now) ==> final(limiter)@ == spec_reset(
            old(limiter)@,
            client_id@,
            (now + old(limiter).window_secs) as u64,
        ),
        spec_live(old(limiter)@, client_id@, now) && spec_live_count(
            old(limiter)@,
            client_id@,
            now,
        ) < old(limiter).max ==> final(limiter)@ == spec_bump(
            old(limiter)@,
            client_id@,
            now,
            (spec_live_count(old(limiter)@, client_id@, now) + 1) as u32,
        ),
        spec_live(old(limiter)@, client_id@, now) && spec_live_count(
            old(limiter)@,
            client_id@,
            now,
        ) >= old(limiter).max ==> final(limiter)@ == old(limiter)@,
{
    limiter.allow(client_id, now)
}

} // verus!
