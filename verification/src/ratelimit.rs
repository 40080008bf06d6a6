//! The global and per-route rate-limit coordinator that gates every REST
//! call.
//!
//! All decisions are made over plain clock readings handed in as
//! arguments, so the whole budget logic is verified: the global bucket
//! admits at most its limit of requests per one-second window, the
//! per-route buckets decrement optimistically and refill when their window
//! elapsed, and authoritative response headers overwrite the optimistic
//! counts without ever driving a budget negative.  The plumbing around the
//! crate performs the sleeps this module asks for.

use vstd::prelude::*;

verus! {

/// Timestamps are milliseconds since the epoch, well under this bound for
/// any realistic clock; keeping them under it makes window arithmetic safe.
pub const MAX_TIME_MS: i64 = 0x10_0000_0000_0000;

/// The platform's nominal global limit: fifty requests per second.
pub const GLOBAL_LIMIT: u32 = 50;

/// The length of the global window in milliseconds.
pub const GLOBAL_WINDOW_MS: i64 = 1000;

/// The safety margin a refilled route window is pushed forward by.
pub const ROUTE_REFILL_MS: i64 = 1000;

/// The leeway added to a `Retry-After` delay before the one retry.
pub const RETRY_LEEWAY_MS: u64 = 100;

/// The number of requests a route bucket is assumed to allow before the
/// first authoritative headers arrive.
pub const ROUTE_DEFAULT_LIMIT: u32 = 5;

/// The rolling one-second global budget.
#[derive(Debug, Copy, Clone, PartialEq, Eq, Structural)]
pub struct GlobalBucket {
    /// The fixed number of requests allowed per window.
    pub limit: u32,
    /// How many requests were granted since the window started.
    pub requests_made: u32,
    /// When the current window started, in milliseconds since the epoch.
    pub window_start_ms: i64,
}

/// One route's budget: `(limit, remaining, reset_at)`.
#[derive(Debug, Copy, Clone, PartialEq, Eq, Structural)]
pub struct RouteBucket {
    /// How many requests the route allows per window.
    pub limit: u32,
    /// How many requests remain before the route is exhausted.
    pub remaining: i32,
    /// The absolute instant the window resets, in milliseconds.
    pub reset_at_ms: i64,
}

impl GlobalBucket {
    /// Well-formedness of the global bucket.
    pub open spec fn wf(self) -> bool {
        &&& self.limit >= 1
        &&& self.requests_made <= self.limit
        &&& 0 <= self.window_start_ms <= MAX_TIME_MS
    }
}

impl RouteBucket {
    /// Well-formedness of one route bucket.
    pub open spec fn wf(self) -> bool {
        &&& 1 <= self.limit <= 0x7fff_ffff
        &&& self.remaining >= 0
        &&& 0 <= self.reset_at_ms <= MAX_TIME_MS + ROUTE_REFILL_MS
    }

    /// The budget assumed for a route no headers have been seen for: a
    /// small allowance whose window has already elapsed, so the first
    /// request refills it.
    pub fn fresh() -> (r: RouteBucket)
        ensures
            r == spec_fresh_route(),
            r.wf(),
    {
        RouteBucket { limit: ROUTE_DEFAULT_LIMIT, remaining: ROUTE_DEFAULT_LIMIT as i32, reset_at_ms: 0 }
    }
}

/// The budget assumed for a route no headers have been seen for.
pub open spec fn spec_fresh_route() -> RouteBucket {
    RouteBucket { limit: ROUTE_DEFAULT_LIMIT, remaining: ROUTE_DEFAULT_LIMIT as i32, reset_at_ms: 0 }
}

/// How the global bucket answers one request at one instant: the stepped
/// bucket, and the instant to park the caller until, if any.
pub open spec fn spec_global_step(g: GlobalBucket, now: i64) -> (GlobalBucket, Option<i64>) {
    if g.requests_made >= g.limit {
        if now < g.window_start_ms + GLOBAL_WINDOW_MS {
            (g, Some((g.window_start_ms + GLOBAL_WINDOW_MS) as i64))
        } else {
            (GlobalBucket { requests_made: 1, window_start_ms: now, ..g }, None)
        }
    } else {
        (GlobalBucket { requests_made: (g.requests_made + 1) as u32, ..g }, None)
    }
}

/// How a route bucket answers one request at one instant: the stepped
/// bucket, and the instant to park the caller until, if any.
pub open spec fn spec_route_step(b: RouteBucket, now: i64) -> (RouteBucket, Option<i64>) {
    if b.reset_at_ms <= now {
        (
            RouteBucket {
                remaining: b.limit as i32,
                reset_at_ms: (now + ROUTE_REFILL_MS) as i64,
                ..b
            },
            None,
        )
    } else if b.remaining <= 0 {
        (b, Some(b.reset_at_ms))
    } else {
        (RouteBucket { remaining: (b.remaining - 1) as i32, ..b }, None)
    }
}

impl GlobalBucket {
    /// The bucket at the start of a client's life: nothing counted, the
    /// window anchored at the given instant.
    pub fn anchored(now_ms: i64) -> (r: GlobalBucket)
        requires
            0 <= now_ms <= MAX_TIME_MS,
        ensures
            r.wf(),
            r.limit == GLOBAL_LIMIT,
            r.requests_made == 0,
            r.window_start_ms == now_ms,
    {
        GlobalBucket { limit: GLOBAL_LIMIT, requests_made: 0, window_start_ms: now_ms }
    }

    /// Answer one request: increment the count, reset an elapsed window,
    /// or park the caller until the window ends.
    pub fn step(&mut self, now_ms: i64) -> (r: Option<i64>)
        requires
            old(self).wf(),
            0 <= now_ms <= MAX_TIME_MS,
        ensures
            final(self).wf(),
            (*final(self), r) == spec_global_step(*old(self), now_ms),
    {
        if self.requests_made >= self.limit {
            if now_ms < self.window_start_ms + GLOBAL_WINDOW_MS {
                Some(self.window_start_ms + GLOBAL_WINDOW_MS)
            } else {
                self.requests_made = 1;
                self.window_start_ms = now_ms;
                None
            }
        } else {
            self.requests_made = self.requests_made + 1;
            None
        }
    }
}

impl RouteBucket {
    /// Answer one request: refill an elapsed window, decrement the
    /// remaining budget, or park the caller until the reset instant.
    pub fn step(&mut self, now_ms: i64) -> (r: Option<i64>)
        requires
            old(self).wf(),
            0 <= now_ms <= MAX_TIME_MS,
        ensures
            final(self).wf(),
            (*final(self), r) == spec_route_step(*old(self), now_ms),
            final(self).remaining >= 0,
    {
        if self.reset_at_ms <= now_ms {
            self.remaining = self.limit as i32;
            self.reset_at_ms = now_ms + ROUTE_REFILL_MS;
            None
        } else if self.remaining <= 0 {
            Some(self.reset_at_ms)
        } else {
            self.remaining = self.remaining - 1;
            None
        }
    }
}

/// The index of the first entry for a route key, if one exists.
pub open spec fn route_index(routes: Seq<(String, RouteBucket)>, route: Seq<char>) -> Option<
    int,
>
    decreases routes.len(),
{
    if routes.len() == 0 {
        None
    } else if routes[0].0@ == route {
        Some(0int)
    } else {
        match route_index(routes.skip(1), route) {
            Some(i) => Some(i + 1),
            None => None,
        }
    }
}

/// What one pre-check step at one instant does: how the global bucket
/// steps, whether the caller is parked, and how the addressed route's
/// bucket — and only that bucket — steps, a fresh one being added for an
/// unseen route.
pub open spec fn pre_check_post(
    pre: RateLimits,
    post: RateLimits,
    route: Seq<char>,
    now: i64,
    jitter: u64,
    parked: Option<i64>,
) -> bool {
    &&& post.global == spec_global_step(pre.global, now).0
    &&& (spec_global_step(pre.global, now).1 matches Some(t) ==> (parked == Some(t)
        && post.routes@ == pre.routes@))
    &&& (spec_global_step(pre.global, now).1 is None ==> (match route_index(
        pre.routes@,
        route,
    ) {
        Some(i) => {
            &&& post.routes@.len() == pre.routes@.len()
            &&& (forall|j: int|
                0 <= j < pre.routes@.len() && j != i ==> post.routes@[j] == pre.routes@[j])
            &&& post.routes@[i].0 == pre.routes@[i].0
            &&& post.routes@[i].1 == spec_route_step(pre.routes@[i].1, now).0
            &&& parked == (match spec_route_step(pre.routes@[i].1, now).1 {
                Some(t) => Some((t + jitter) as i64),
                None => None::<i64>,
            })
        },
        None => {
            &&& post.routes@.len() == pre.routes@.len() + 1
            &&& (forall|j: int|
                0 <= j < pre.routes@.len() ==> post.routes@[j] == pre.routes@[j])
            &&& post.routes@.last().0@ == route
            &&& post.routes@.last().1 == spec_route_step(spec_fresh_route(), now).0
            &&& parked == (match spec_route_step(spec_fresh_route(), now).1 {
                Some(t) => Some((t + jitter) as i64),
                None => None::<i64>,
            })
        },
    }))
}

/// The global and per-route budgets of one REST client.
#[derive(Debug)]
pub struct RateLimits {
    /// The rolling global budget.
    pub global: GlobalBucket,
    /// The per-route budgets, keyed by the canonical route template.
    pub routes: Vec<(String, RouteBucket)>,
}

impl RateLimits {
    /// Well-formedness: every bucket is well-formed.
    pub open spec fn wf(self) -> bool {
        &&& self.global.wf()
        &&& forall|i: int|
            0 <= i < self.routes@.len() ==> (#[trigger] self.routes@[i]).1.wf()
    }

    /// A fresh set of budgets, anchored at the given instant.
    pub fn new(now_ms: i64) -> (r: RateLimits)
        requires
            0 <= now_ms <= MAX_TIME_MS,
        ensures
            r.wf(),
            r.global.requests_made == 0,
            r.routes@.len() == 0,
    {
        RateLimits { global: GlobalBucket::anchored(now_ms), routes: Vec::new() }
    }

    /// Find the position of a route's bucket.
    fn find_route(&self, route: &str) -> (r: Option<usize>)
        ensures
            r matches Some(i) ==> route_index(self.routes@, route@) == Some(i as int) && i
                < self.routes@.len() && self.routes@[i as int].0@ == route@,
            r is None ==> route_index(self.routes@, route@) is None,
    {
        let n = self.routes.len();
        let mut i: usize = 0;
        while i < n
            invariant
                n == self.routes@.len(),
                0 <= i <= n,
                forall|k: int| 0 <= k < i ==> (#[trigger] self.routes@[k]).0@ != route@,
            decreases n - i,
        {
            let eq = crate::frame::str_eq(&self.routes[i].0, route);
            if eq {
                proof {
                    lemma_route_index_skip(self.routes@, route@, i as int);
                    assert(self.routes@.skip(i as int)[0] == self.routes@[i as int]);
                }
                return Some(i);
            }
            i = i + 1;
        }
        proof {
            lemma_route_index_skip(self.routes@, route@, n as int);
            assert(self.routes@.skip(n as int).len() == 0);
        }
        None
    }

    /// Gate one request on the given route at the given instant, with the
    /// given jitter draw: consult the global bucket first, then the
    /// route's own, inserting a fresh bucket for an unseen route; the
    /// result is the absolute instant to park the caller until, or nothing
    /// when the request may proceed at once.
    ///
    /// Both consulted buckets count the request optimistically, so many
    /// concurrent callers self-limit before any response headers arrive.
    pub fn pre_check(&mut self, route: &str, now_ms: i64, jitter_ms: u64) -> (r: Option<i64>)
        requires
            old(self).wf(),
            0 <= now_ms <= MAX_TIME_MS,
            jitter_ms < 10,
        ensures
            final(self).wf(),
            pre_check_post(*old(self), *final(self), route@, now_ms, jitter_ms, r),
    {
        if let Some(t) = self.global.step(now_ms) {
            return Some(t);
        }
        let idx = match self.find_route(route) {
            Some(i) => i,
            None => {
                let fresh = RouteBucket::fresh();
                let key = String::from_str(route);
                self.routes.push((key, fresh));
                self.routes.len() - 1
            },
        };
        let mut bucket = self.routes[idx].1;
        let parked = bucket.step(now_ms);
        let key = self.routes[idx].0.clone();
        self.routes.set(idx, (key, bucket));
        match parked {
            Some(t) => Some(t + jitter_ms as i64),
            None => None,
        }
    }
}

/// The rate-limit answer of one REST response, already read out of the
/// response's headers and status line as plain values; a header that was
/// absent or unreadable stands as `None` and updates nothing.
#[derive(Debug, Clone, PartialEq, Eq, Structural)]
pub struct RateHeaders {
    /// The `X-RateLimit-Limit` header.
    pub limit: Option<i64>,
    /// The `X-RateLimit-Remaining` header.
    pub remaining: Option<i64>,
    /// The `X-RateLimit-Reset` header, in seconds since the epoch.
    pub reset: Option<i64>,
    /// The `Retry-After` header, in milliseconds.
    pub retry_after: Option<i64>,
    /// Whether the `X-RateLimit-Global` header was present.
    pub global: bool,
    /// The HTTP status code of the response.
    pub status: u16,
}

/// A reset header turned into milliseconds, kept only when it lies in the
/// representable range.
pub open spec fn spec_reset_ms(current: i64, reset: Option<i64>) -> i64 {
    match reset {
        Some(s) => if 0 <= s && s * 1000 <= MAX_TIME_MS {
            (s * 1000) as i64
        } else {
            current
        },
        None => current,
    }
}

/// How authoritative headers rewrite the global bucket: the count
/// saturates and the window is anchored at the reported reset.
pub open spec fn spec_global_update(g: GlobalBucket, h: RateHeaders) -> GlobalBucket {
    GlobalBucket {
        requests_made: g.limit,
        window_start_ms: spec_reset_ms(g.window_start_ms, h.reset),
        ..g
    }
}

/// How authoritative headers rewrite a route bucket: limit, remaining and
/// reset are overwritten by what the platform reported, clamped into the
/// bucket's representable range so that no budget goes negative.
pub open spec fn spec_route_update(b: RouteBucket, h: RateHeaders) -> RouteBucket {
    RouteBucket {
        limit: (match h.limit {
            Some(l) => if l < 1 {
                1
            } else if l > 0x7fff_ffff {
                0x7fff_ffff
            } else {
                l
            },
            None => b.limit as i64,
        }) as u32,
        remaining: (match h.remaining {
            Some(m) => if m < 0 {
                0
            } else if m > 0x7fff_ffff {
                0x7fff_ffff
            } else {
                m
            },
            None => b.remaining as i64,
        }) as i32,
        reset_at_ms: spec_reset_ms(b.reset_at_ms, h.reset),
    }
}

/// The retry a response asks for: after a 429 with a `Retry-After` delay,
/// one retry, no earlier than the delay plus the fixed leeway.
pub open spec fn spec_retry(h: RateHeaders) -> Option<u64> {
    if h.status == 429 && h.retry_after is Some && h.retry_after->0 >= 0 {
        Some((h.retry_after->0 + RETRY_LEEWAY_MS) as u64)
    } else {
        None
    }
}

impl GlobalBucket {
    /// Apply authoritative headers to the global bucket.
    fn apply_update(&mut self, h: &RateHeaders)
        requires
            old(self).wf(),
        ensures
            final(self).wf(),
            *final(self) == spec_global_update(*old(self), *h),
    {
        self.requests_made = self.limit;
        self.window_start_ms = apply_reset_ms(self.window_start_ms, h.reset);
    }
}

/// Turn a reset header into milliseconds, keeping the current value when
/// the header is absent or out of range.
fn apply_reset_ms(current: i64, reset: Option<i64>) -> (r: i64)
    ensures
        r == spec_reset_ms(current, reset),
{
    match reset {
        Some(s) => {
            if 0 <= s && s <= MAX_TIME_MS / 1000 {
                proof {
                    assert(s * 1000 <= MAX_TIME_MS) by (nonlinear_arith)
                        requires
                            0 <= s <= MAX_TIME_MS / 1000,
                            MAX_TIME_MS == 0x10_0000_0000_0000,
                    ;
                }
                s * 1000
            } else {
                proof {
                    if s >= 0 {
                        assert(s * 1000 > MAX_TIME_MS) by (nonlinear_arith)
                            requires
                                s > MAX_TIME_MS / 1000,
                                MAX_TIME_MS == 0x10_0000_0000_0000,
                        ;
                    }
                }
                current
            }
        },
        None => current,
    }
}

impl RouteBucket {
    /// Apply authoritative headers to a route bucket.
    fn apply_update(&mut self, h: &RateHeaders)
        requires
            old(self).wf(),
        ensures
            final(self).wf(),
            *final(self) == spec_route_update(*old(self), *h),
            final(self).remaining >= 0,
    {
        match h.limit {
            Some(l) => {
                self.limit = if l < 1 {
                    1
                } else if l > 0x7fff_ffff {
                    0x7fff_ffff
                } else {
                    l as u32
                };
            },
            None => {},
        }
        match h.remaining {
            Some(m) => {
                self.remaining = if m < 0 {
                    0
                } else if m > 0x7fff_ffff {
                    0x7fff_ffff
                } else {
                    m as i32
                };
            },
            None => {},
        }
        self.reset_at_ms = apply_reset_ms(self.reset_at_ms, h.reset);
    }
}

/// What applying one response's rate-limit answer does: a global answer
/// rewrites only the global bucket, any other rewrites only the addressed
/// route's bucket — a fresh one seeded for an unseen route with a limit
/// header, an error and no change without one — and a 429 asks for
/// exactly one retry after its delay plus leeway.
pub open spec fn post_update_post(
    pre: RateLimits,
    post: RateLimits,
    route: Seq<char>,
    h: RateHeaders,
    r: Result<Option<u64>, crate::error::Error>,
) -> bool {
    &&& (h.global ==> post.global == spec_global_update(pre.global, h) && post.routes@
        == pre.routes@ && r == Ok::<Option<u64>, crate::error::Error>(spec_retry(h)))
    &&& (!h.global ==> post.global == pre.global && (match route_index(pre.routes@, route) {
        Some(i) => {
            &&& post.routes@.len() == pre.routes@.len()
            &&& (forall|j: int|
                0 <= j < pre.routes@.len() && j != i ==> post.routes@[j] == pre.routes@[j])
            &&& post.routes@[i].0 == pre.routes@[i].0
            &&& post.routes@[i].1 == spec_route_update(pre.routes@[i].1, h)
            &&& r == Ok::<Option<u64>, crate::error::Error>(spec_retry(h))
        },
        None => if h.limit is Some {
            &&& post.routes@.len() == pre.routes@.len() + 1
            &&& (forall|j: int|
                0 <= j < pre.routes@.len() ==> post.routes@[j] == pre.routes@[j])
            &&& post.routes@.last().0@ == route
            &&& post.routes@.last().1 == spec_route_update(spec_fresh_route(), h)
            &&& r == Ok::<Option<u64>, crate::error::Error>(spec_retry(h))
        } else {
            &&& post.routes@ == pre.routes@
            &&& (r matches Err(crate::error::Error::Other(_)))
        },
    }))
}

impl RateLimits {
    /// Apply the rate-limit answer of one response: a global answer
    /// rewrites only the global bucket, any other rewrites only the
    /// addressed route's bucket, correcting the optimistic pre-check
    /// counts; and a 429 asks for exactly one retry after its delay plus
    /// leeway.
    ///
    /// A route no headers were ever seen for needs the limit header; a
    /// response without it yields an error and no bucket is touched.
    pub fn post_update(&mut self, route: &str, h: &RateHeaders) -> (r: Result<
        Option<u64>,
        crate::error::Error,
    >)
        requires
            old(self).wf(),
        ensures
            final(self).wf(),
            post_update_post(*old(self), *final(self), route@, *h, r),
    {
        if h.global {
            self.global.apply_update(h);
            return Ok(retry_after_delay(h));
        }
        let idx = match self.find_route(route) {
            Some(i) => i,
            None => {
                if h.limit.is_none() {
                    return Err(
                        crate::error::Error::Other(
                            String::from_str("rate-limit headers for an unseeded route lack a limit"),
                        ),
                    );
                }
                let fresh = RouteBucket::fresh();
                let key = String::from_str(route);
                self.routes.push((key, fresh));
                self.routes.len() - 1
            },
        };
        let mut bucket = self.routes[idx].1;
        bucket.apply_update(h);
        let key = self.routes[idx].0.clone();
        self.routes.set(idx, (key, bucket));
        Ok(retry_after_delay(h))
    }
}

/// The retry delay a response asks for, if any.
fn retry_after_delay(h: &RateHeaders) -> (r: Option<u64>)
    ensures
        r == spec_retry(*h),
{
    if h.status == 429 {
        match h.retry_after {
            Some(d) => if d >= 0 {
                Some((d as u64) + RETRY_LEEWAY_MS)
            } else {
                None
            },
            None => None,
        }
    } else {
        None
    }
}

/// Relies on std's `SystemTime::now`, read against the epoch: the wall
/// clock as milliseconds.  A clock set before the epoch reads as zero
/// rather than aborting; nothing more is promised of the value, and every
/// caller clamps it into the representable range first.
#[verifier::external_body]
fn now_unix_ms() -> (r: i64) {
    match std::time::SystemTime::now().duration_since(std::time::UNIX_EPOCH) {
        Ok(elapsed) => i64::try_from(elapsed.as_millis()).unwrap_or(i64::MAX),
        Err(_) => 0,
    }
}

/// Relies on rand's `random_range`: a uniform draw from `[0, 10)`
/// milliseconds, used to scatter parked callers.
#[verifier::external_body]
fn small_jitter_ms() -> (r: u64)
    ensures
        r < 10,
{
    rand::random_range(0..10u64)
}

/// A clock reading clamped into the representable range.
fn clamped_now_ms() -> (r: i64)
    ensures
        0 <= r <= MAX_TIME_MS,
{
    let now = now_unix_ms();
    if now < 0 {
        0
    } else if now > MAX_TIME_MS {
        MAX_TIME_MS
    } else {
        now
    }
}

impl RateLimits {
    /// Gate one request on the given route against the clock: the number
    /// of milliseconds the caller must sleep before asking again, or
    /// nothing when the request may proceed at once.
    ///
    /// The budget decision is one [`RateLimits::pre_check`] step at some
    /// in-range clock reading and jitter draw — so every grant counts
    /// against the budgets, whatever the clock returned — and the sleep is
    /// the time from that reading to the park instant.
    pub fn check(&mut self, route: &str) -> (r: Option<u64>)
        requires
            old(self).wf(),
        ensures
            final(self).wf(),
            (exists|now: i64, jitter: u64, parked: Option<i64>|
                {
                    &&& 0 <= now <= MAX_TIME_MS
                    &&& jitter < 10
                    &&& #[trigger] pre_check_post(
                        *old(self),
                        *final(self),
                        route@,
                        now,
                        jitter,
                        parked,
                    )
                    &&& r == (match parked {
                        Some(wake) => Some(sleep_ms(now, wake)),
                        None => None::<u64>,
                    })
                }),
    {
        let now_ms = clamped_now_ms();
        let jitter_ms = small_jitter_ms();
        let parked = self.pre_check(route, now_ms, jitter_ms);
        let r = match parked {
            Some(wake_at) => {
                if wake_at > now_ms {
                    Some((wake_at - now_ms) as u64)
                } else {
                    Some(0)
                }
            },
            None => None,
        };
        proof {
            assert(pre_check_post(*old(self), *self, route@, now_ms, jitter_ms, parked));
        }
        r
    }

    /// Apply the rate-limit answer of one response against the budgets;
    /// the same step as [`RateLimits::post_update`], which this forwards
    /// to.
    pub fn update(&mut self, route: &str, h: &RateHeaders) -> (r: Result<
        Option<u64>,
        crate::error::Error,
    >)
        requires
            old(self).wf(),
        ensures
            final(self).wf(),
            post_update_post(*old(self), *final(self), route@, *h, r),
    {
        self.post_update(route, h)
    }
}

/// The milliseconds a parked caller sleeps: the time from the clock
/// reading to the park instant, and none when that instant has passed.
pub open spec fn sleep_ms(now: i64, wake: i64) -> u64 {
    if wake > now {
        (wake - now) as u64
    } else {
        0
    }
}

/// The global bucket after a run of requests, one instant each.
pub open spec fn spec_global_run(g: GlobalBucket, nows: Seq<i64>) -> GlobalBucket
    decreases nows.len(),
{
    if nows.len() == 0 {
        g
    } else {
        spec_global_run(spec_global_step(g, nows[0]).0, nows.skip(1))
    }
}

/// How many requests of a run the global bucket grants.
pub open spec fn spec_global_grants(g: GlobalBucket, nows: Seq<i64>) -> int
    decreases nows.len(),
{
    if nows.len() == 0 {
        0
    } else {
        (if spec_global_step(g, nows[0]).1 is None {
            1int
        } else {
            0int
        }) + spec_global_grants(spec_global_step(g, nows[0]).0, nows.skip(1))
    }
}

/// Within one window, the global bucket stays within its budget: over any
/// run of requests whose instants all lie before the window's end, the
/// requests granted together with those already counted never exceed the
/// limit, and the window's anchor does not move.
pub proof fn lemma_global_window_bound(g: GlobalBucket, nows: Seq<i64>)
    requires
        g.wf(),
        forall|i: int| 0 <= i < nows.len() ==> #[trigger] nows[i] < g.window_start_ms + GLOBAL_WINDOW_MS,
    ensures
        spec_global_grants(g, nows) + g.requests_made <= g.limit,
        spec_global_run(g, nows).window_start_ms == g.window_start_ms,
        spec_global_run(g, nows).wf(),
    decreases nows.len(),
{
    if nows.len() > 0 {
        let stepped = spec_global_step(g, nows[0]).0;
        assert(forall|i: int|
            0 <= i < nows.skip(1).len() ==> #[trigger] nows.skip(1)[i] == nows[i + 1]);
        lemma_global_window_bound(stepped, nows.skip(1));
    }
}

/// A budget never goes negative after a post-update: whatever a response
/// reported, the rewritten route bucket's remaining count is at least
/// zero.
pub proof fn lemma_remaining_nonneg(b: RouteBucket, h: RateHeaders)
    requires
        b.wf(),
    ensures
        spec_route_update(b, h).remaining >= 0,
{
}

/// Looking a route up after skipping a prefix without it.
proof fn lemma_route_index_skip(routes: Seq<(String, RouteBucket)>, route: Seq<char>, i: int)
    requires
        0 <= i <= routes.len(),
        forall|k: int| 0 <= k < i ==> (#[trigger] routes[k]).0@ != route,
    ensures
        route_index(routes, route) == (match route_index(routes.skip(i), route) {
            Some(j) => Some(j + i),
            None => None::<int>,
        }),
    decreases i,
{
    if i > 0 {
        lemma_route_index_skip(routes, route, i - 1);
        assert(routes.skip(i - 1).len() > 0);
        assert(routes.skip(i - 1)[0] == routes[i - 1]);
        assert(routes[i - 1].0@ != route);
        assert(routes.skip(i - 1).skip(1) =~= routes.skip(i));
        assert(route_index(routes.skip(i - 1), route) == (match route_index(
            routes.skip(i),
            route,
        ) {
            Some(j) => Some(j + 1),
            None => None::<int>,
        }));
    } else {
        assert(routes.skip(0) =~= routes);
    }
}

} // verus!
