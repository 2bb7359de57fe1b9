//! Request rate limiting.
//!
//! Two layers of token buckets: one per rate bucket for everybody, the hard
//! ceiling, and in front of it one per rate bucket and principal, so that no
//! single principal can spend the whole budget. The principal's bucket is asked
//! first; a request that it refuses leaves the global bucket as it was.
//!
//! Time is a count of nanoseconds on a clock that never runs backwards.

use super::client_auth::{principal_of, ClientIdentity, Principal, PrincipalKey};
use super::policy::RateBucket;
use vstd::prelude::*;

verus! {

/// One minute on the limiter's clock.
pub const NANOS_PER_MINUTE: u64 = 60_000_000_000;

/// Bound on the (bucket, principal) pairs that are kept. Beyond it the least
/// recently used pair is dropped.
pub const MAX_PRINCIPAL_ENTRIES: usize = 256;

/// Rate limit configuration of one bucket.
#[derive(Debug, Clone, Copy, PartialEq, Eq, Structural)]
pub struct BucketConfig {
    pub max_per_minute: u32,
    pub burst: u32,
    /// The most that one principal may draw from the bucket.
    pub per_principal_max_per_minute: u32,
    pub per_principal_burst: u32,
}

impl BucketConfig {
    #[verifier::allow_in_spec]
    pub fn new(
        max_per_minute: u32,
        burst: u32,
        per_principal_max_per_minute: u32,
        per_principal_burst: u32,
    ) -> BucketConfig
        returns
            (BucketConfig {
                max_per_minute,
                burst,
                per_principal_max_per_minute,
                per_principal_burst,
            }),
    {
        BucketConfig { max_per_minute, burst, per_principal_max_per_minute, per_principal_burst }
    }
}

/// The configured numbers.
pub open spec fn config_of(bucket: RateBucket) -> BucketConfig {
    match bucket {
        RateBucket::Status => BucketConfig::new(300, 40, 150, 40),
        RateBucket::ScanControl => BucketConfig::new(10, 3, 5, 2),
        RateBucket::QuarantineOps => BucketConfig::new(30, 5, 15, 4),
        RateBucket::ConfigMutation => BucketConfig::new(10, 2, 5, 2),
        RateBucket::DiagnosticsExport => BucketConfig::new(6, 2, 3, 2),
        RateBucket::SourcesMutation => BucketConfig::new(5, 2, 2, 2),
        RateBucket::MemoryScan => BucketConfig::new(10, 2, 5, 2),
        RateBucket::Unlimited => BucketConfig::new(u32::MAX, u32::MAX, u32::MAX, u32::MAX),
    }
}

pub fn bucket_config(bucket: RateBucket) -> (config: BucketConfig)
    ensures
        config == config_of(bucket),
{
    match bucket {
        RateBucket::Status => BucketConfig::new(300, 40, 150, 40),
        RateBucket::ScanControl => BucketConfig::new(10, 3, 5, 2),
        RateBucket::QuarantineOps => BucketConfig::new(30, 5, 15, 4),
        RateBucket::ConfigMutation => BucketConfig::new(10, 2, 5, 2),
        RateBucket::DiagnosticsExport => BucketConfig::new(6, 2, 3, 2),
        RateBucket::SourcesMutation => BucketConfig::new(5, 2, 2, 2),
        RateBucket::MemoryScan => BucketConfig::new(10, 2, 5, 2),
        RateBucket::Unlimited => BucketConfig::new(u32::MAX, u32::MAX, u32::MAX, u32::MAX),
    }
}

/// A bucket of tokens and the time up to which its refill has been paid out.
#[derive(Debug, Clone, Copy, PartialEq, Eq, Structural)]
pub struct TokenBucket {
    pub tokens: u64,
    pub last_refill: u64,
}

/// Time that has passed since `last`.
pub open spec fn elapsed(last: u64, now: u64) -> int {
    if now > last {
        now - last
    } else {
        0
    }
}

/// Whole tokens that the elapsed time is worth.
pub open spec fn minted(b: TokenBucket, rate: u32, now: u64) -> int {
    (elapsed(b.last_refill, now) * rate) / (NANOS_PER_MINUTE as int)
}

/// Time that `tokens` whole tokens are worth.
pub open spec fn worth(tokens: int, rate: u32) -> int {
    (tokens * NANOS_PER_MINUTE) / (rate as int)
}

/// The bucket after its refill: the minted tokens are added up to the burst,
/// and the paid-out time advances by exactly what they are worth, so that the
/// rest of the elapsed time counts towards the next token.
pub open spec fn refilled(b: TokenBucket, rate: u32, burst: u32, now: u64) -> TokenBucket {
    let m = minted(b, rate, now);
    if m > 0 {
        TokenBucket {
            tokens: (if b.tokens + m < burst {
                b.tokens + m
            } else {
                burst as int
            }) as u64,
            last_refill: (b.last_refill + worth(m, rate)) as u64,
        }
    } else {
        b
    }
}

/// Seconds after which a refused caller may try again: the time for one token,
/// at least one second.
pub open spec fn retry_after(rate: u32) -> u32 {
    let seconds = 60u32 / (if rate == 0 {
        1
    } else {
        rate
    });
    if seconds == 0 {
        1
    } else {
        seconds
    }
}

/// The bucket after a request at time `now`, and the answer to the request.
pub open spec fn draw(b: TokenBucket, rate: u32, burst: u32, now: u64) -> (
    TokenBucket,
    Result<(), u32>,
) {
    let r = refilled(b, rate, burst, now);
    if r.tokens == 0 {
        (r, Err(retry_after(rate)))
    } else {
        (TokenBucket { tokens: (r.tokens - 1) as u64, last_refill: r.last_refill }, Ok(()))
    }
}

proof fn lemma_worth_bounded(b: TokenBucket, rate: u32, now: u64)
    ensures
        0 <= minted(b, rate, now),
        rate > 0 ==> 0 <= worth(minted(b, rate, now), rate) <= elapsed(b.last_refill, now),
{
    let e = elapsed(b.last_refill, now);
    let n = NANOS_PER_MINUTE as int;
    let m = minted(b, rate, now);
    let r = rate as int;
    assert(e * r >= 0) by (nonlinear_arith)
        requires
            e >= 0,
            r >= 0,
    ;
    assert(m >= 0 && m * n <= e * r) by (nonlinear_arith)
        requires
            m == (e * r) / n,
            e * r >= 0,
            n == 60_000_000_000,
    ;
    if rate > 0 {
        assert(0 <= (m * n) / r <= e) by (nonlinear_arith)
            requires
                0 <= m * n <= e * r,
                r > 0,
        ;
    }
}

impl TokenBucket {
    /// Serve one request at time `now`.
    pub fn take(&mut self, rate: u32, burst: u32, now: u64) -> (answer: Result<(), u32>)
        ensures
            (*final(self), answer) == draw(*old(self), rate, burst, now),
    {
        let elapsed: u64 = if now > self.last_refill {
            now - self.last_refill
        } else {
            0
        };
        proof {
            lemma_worth_bounded(*self, rate, now);
            assert(0 <= elapsed * rate <= u64::MAX * u32::MAX) by (nonlinear_arith)
                requires
                    0 <= elapsed <= u64::MAX,
                    0 <= rate <= u32::MAX,
            ;
        }
        let refill: u128 = (elapsed as u128 * rate as u128) / (NANOS_PER_MINUTE as u128);
        assert(refill == minted(*self, rate, now));
        if refill > 0 {
            proof {
                assert(rate > 0) by {
                    if rate == 0 {
                        assert(elapsed * rate == 0) by (nonlinear_arith)
                            requires
                                rate == 0,
                        ;
                    }
                }
                assert(refill * NANOS_PER_MINUTE <= u64::MAX * u32::MAX) by {
                    assert(refill * NANOS_PER_MINUTE <= elapsed * rate) by (nonlinear_arith)
                        requires
                            refill == (elapsed * rate) / 60_000_000_000,
                            NANOS_PER_MINUTE == 60_000_000_000,
                            elapsed * rate >= 0,
                    ;
                }
            }
            let paid: u128 = (refill * NANOS_PER_MINUTE as u128) / (rate as u128);
            assert(paid == worth(minted(*self, rate, now), rate));
            let total: u128 = self.tokens as u128 + refill;
            self.tokens =
            if total < burst as u128 {
                total as u64
            } else {
                burst as u64
            };
            self.last_refill = self.last_refill + paid as u64;
        }
        if self.tokens == 0 {
            let per_minute: u32 = if rate == 0 {
                1
            } else {
                rate
            };
            let seconds: u32 = 60 / per_minute;
            return Err(
                if seconds == 0 {
                    1
                } else {
                    seconds
                },
            );
        }
        self.tokens = self.tokens - 1;
        Ok(())
    }
}

/// The place of a bucket in the table of global buckets.
pub open spec fn slot(bucket: RateBucket) -> int {
    match bucket {
        RateBucket::Status => 0,
        RateBucket::ScanControl => 1,
        RateBucket::QuarantineOps => 2,
        RateBucket::ConfigMutation => 3,
        RateBucket::DiagnosticsExport => 4,
        RateBucket::SourcesMutation => 5,
        RateBucket::MemoryScan => 6,
        RateBucket::Unlimited => 7,
    }
}

fn slot_of(bucket: RateBucket) -> (i: usize)
    ensures
        i == slot(bucket),
        i < 8,
{
    match bucket {
        RateBucket::Status => 0,
        RateBucket::ScanControl => 1,
        RateBucket::QuarantineOps => 2,
        RateBucket::ConfigMutation => 3,
        RateBucket::DiagnosticsExport => 4,
        RateBucket::SourcesMutation => 5,
        RateBucket::MemoryScan => 6,
        RateBucket::Unlimited => 7,
    }
}

/// The budget of one principal in one bucket.
pub struct PrincipalBucket {
    pub bucket: RateBucket,
    pub key: PrincipalKey,
    pub state: TokenBucket,
    /// Tick of the last request.
    pub last_used: u64,
}

/// Mathematical value of a [`PrincipalBucket`].
pub struct Share {
    pub bucket: RateBucket,
    pub principal: Principal,
    pub state: TokenBucket,
    pub last_used: u64,
}

impl View for PrincipalBucket {
    type V = Share;

    open spec fn view(&self) -> Share {
        Share {
            bucket: self.bucket,
            principal: self.key@,
            state: self.state,
            last_used: self.last_used,
        }
    }
}

/// Mathematical value of a [`RateLimiter`].
#[verifier::ext_equal]
pub struct Budgets {
    /// The global buckets, each at its `slot`.
    pub global: Seq<TokenBucket>,
    /// The principals' buckets.
    pub shares: Seq<Share>,
    /// Ticks once for each request that a principal's bucket decides.
    pub clock: u64,
}

/// Two-layer rate limiter: budgets per principal over global token buckets.
pub struct RateLimiter {
    buckets: Vec<TokenBucket>,
    principals: Vec<PrincipalBucket>,
    clock: u64,
}

impl View for RateLimiter {
    type V = Budgets;

    closed spec fn view(&self) -> Budgets {
        Budgets {
            global: self.buckets@,
            shares: Seq::new(self.principals@.len(), |i: int| self.principals@[i]@),
            clock: self.clock,
        }
    }
}

/// Whether the share at `i` belongs to `p` in `bucket`.
pub open spec fn owned(shares: Seq<Share>, i: int, bucket: RateBucket, p: Principal) -> bool {
    0 <= i < shares.len() && shares[i].bucket == bucket && shares[i].principal == p
}

/// Whether `p` has a share of `bucket`.
pub open spec fn has_share(shares: Seq<Share>, bucket: RateBucket, p: Principal) -> bool {
    exists|i: int| owned(shares, i, bucket, p)
}

/// Where the share of `p` in `bucket` stands.
pub open spec fn share_at(shares: Seq<Share>, bucket: RateBucket, p: Principal) -> int {
    choose|i: int| owned(shares, i, bucket, p)
}

/// Whether the share at `i` is the least recently used one, the first of them
/// if there are several.
pub open spec fn is_oldest(shares: Seq<Share>, i: int) -> bool {
    &&& 0 <= i < shares.len()
    &&& forall|j: int|
        0 <= j < shares.len() ==> shares[i].last_used <= (#[trigger] shares[j]).last_used
    &&& forall|j: int| 0 <= j < i ==> shares[i].last_used < (#[trigger] shares[j]).last_used
}

pub open spec fn oldest(shares: Seq<Share>) -> int {
    choose|i: int| is_oldest(shares, i)
}

/// A full share of `bucket`.
pub open spec fn fresh_share(bucket: RateBucket, p: Principal, tick: u64, now: u64) -> Share {
    Share {
        bucket,
        principal: p,
        state: TokenBucket {
            tokens: config_of(bucket).per_principal_burst as u64,
            last_refill: now,
        },
        last_used: tick,
    }
}

/// The shares with one for `p` in `bucket` among them. Where there was none, a
/// full one is added, and a full table drops its least recently used share.
pub open spec fn admitted(
    shares: Seq<Share>,
    bucket: RateBucket,
    p: Principal,
    tick: u64,
    now: u64,
) -> Seq<Share> {
    if has_share(shares, bucket, p) {
        shares
    } else if shares.len() >= MAX_PRINCIPAL_ENTRIES {
        shares.remove(oldest(shares)).push(fresh_share(bucket, p, tick, now))
    } else {
        shares.push(fresh_share(bucket, p, tick, now))
    }
}

pub open spec fn next_tick(clock: u64) -> u64 {
    if clock == u64::MAX {
        clock
    } else {
        (clock + 1) as u64
    }
}

/// The principal's layer: the budgets after a request of `p`, and its answer.
pub open spec fn principal_step(b: Budgets, bucket: RateBucket, p: Principal, now: u64) -> (
    Budgets,
    Result<(), u32>,
) {
    let tick = next_tick(b.clock);
    let shares = admitted(b.shares, bucket, p, tick, now);
    let at = share_at(shares, bucket, p);
    let (state, answer) = draw(
        shares[at].state,
        config_of(bucket).per_principal_max_per_minute,
        config_of(bucket).per_principal_burst,
        now,
    );
    let share = Share { bucket, principal: p, state, last_used: tick };
    (Budgets { global: b.global, shares: shares.update(at, share), clock: tick }, answer)
}

/// The global layer: the budgets after a request, and its answer.
pub open spec fn global_step(b: Budgets, bucket: RateBucket, now: u64) -> (
    Budgets,
    Result<(), u32>,
) {
    let (state, answer) = draw(
        b.global[slot(bucket)],
        config_of(bucket).max_per_minute,
        config_of(bucket).burst,
        now,
    );
    (
        Budgets { global: b.global.update(slot(bucket), state), shares: b.shares, clock: b.clock },
        answer,
    )
}

/// The budgets after a request, and its answer. A first-party client is held
/// to the global layer alone.
pub open spec fn limit(
    b: Budgets,
    bucket: RateBucket,
    id: Option<&ClientIdentity>,
    now: u64,
) -> (Budgets, Result<(), u32>) {
    if bucket is Unlimited {
        (b, Ok(()))
    } else if id is Some && id->0.first_party {
        global_step(b, bucket, now)
    } else {
        let (mid, answer) = principal_step(b, bucket, principal_of(id), now);
        if answer is Err {
            (mid, answer)
        } else {
            global_step(mid, bucket, now)
        }
    }
}

/// The budgets at start: every global bucket full, no shares yet.
pub open spec fn full_bucket(bucket: RateBucket, now: u64) -> TokenBucket {
    TokenBucket { tokens: config_of(bucket).burst as u64, last_refill: now }
}

pub open spec fn initial(now: u64) -> Budgets {
    Budgets {
        global: seq![
            full_bucket(RateBucket::Status, now),
            full_bucket(RateBucket::ScanControl, now),
            full_bucket(RateBucket::QuarantineOps, now),
            full_bucket(RateBucket::ConfigMutation, now),
            full_bucket(RateBucket::DiagnosticsExport, now),
            full_bucket(RateBucket::SourcesMutation, now),
            full_bucket(RateBucket::MemoryScan, now),
            full_bucket(RateBucket::Unlimited, now),
        ],
        shares: Seq::empty(),
        clock: 0,
    }
}

/// No bucket holds more than its burst; there are at most
/// [`MAX_PRINCIPAL_ENTRIES`] shares, one for each bucket and principal.
pub open spec fn bounded(b: Budgets) -> bool {
    &&& b.global.len() == 8
    &&& forall|bucket: RateBucket|
        (#[trigger] b.global[slot(bucket)]).tokens <= config_of(bucket).burst
    &&& b.shares.len() <= MAX_PRINCIPAL_ENTRIES
    &&& forall|i: int|
        0 <= i < b.shares.len() ==> (#[trigger] b.shares[i]).state.tokens <= config_of(
            b.shares[i].bucket,
        ).per_principal_burst
    &&& forall|i: int, j: int|
        0 <= i < j < b.shares.len() && (#[trigger] b.shares[i]).bucket == (
        #[trigger] b.shares[j]).bucket ==> b.shares[i].principal != b.shares[j].principal
}

impl RateLimiter {
    pub open spec fn wf(&self) -> bool {
        bounded(self@)
    }

    /// A limiter whose global buckets are full at time `now`.
    pub fn new(now: u64) -> (limiter: RateLimiter)
        ensures
            limiter.wf(),
            limiter@ == initial(now),
    {
        let buckets: Vec<TokenBucket> = vec![
            TokenBucket { tokens: bucket_config(RateBucket::Status).burst as u64, last_refill: now },
            TokenBucket {
                tokens: bucket_config(RateBucket::ScanControl).burst as u64,
                last_refill: now,
            },
            TokenBucket {
                tokens: bucket_config(RateBucket::QuarantineOps).burst as u64,
                last_refill: now,
            },
            TokenBucket {
                tokens: bucket_config(RateBucket::ConfigMutation).burst as u64,
                last_refill: now,
            },
            TokenBucket {
                tokens: bucket_config(RateBucket::DiagnosticsExport).burst as u64,
                last_refill: now,
            },
            TokenBucket {
                tokens: bucket_config(RateBucket::SourcesMutation).burst as u64,
                last_refill: now,
            },
            TokenBucket {
                tokens: bucket_config(RateBucket::MemoryScan).burst as u64,
                last_refill: now,
            },
            TokenBucket {
                tokens: bucket_config(RateBucket::Unlimited).burst as u64,
                last_refill: now,
            },
        ];
        let limiter = RateLimiter { buckets, principals: Vec::new(), clock: 0 };
        assert(limiter@.global =~= initial(now).global);
        assert(limiter@.shares =~= initial(now).shares);
        limiter
    }

    fn find(&self, bucket: RateBucket, key: &PrincipalKey) -> (found: Option<usize>)
        ensures
            match found {
                Some(i) => owned(self@.shares, i as int, bucket, key@),
                None => !has_share(self@.shares, bucket, key@),
            },
    {
        let mut i: usize = 0;
        while i < self.principals.len()
            invariant
                i <= self.principals@.len(),
                forall|j: int| 0 <= j < i ==> !(#[trigger] owned(self@.shares, j, bucket, key@)),
            decreases self.principals@.len() - i,
        {
            if self.principals[i].bucket == bucket && self.principals[i].key.same(key) {
                return Some(i);
            }
            i = i + 1;
        }
        None
    }

    fn oldest_index(&self) -> (oldest: usize)
        requires
            self@.shares.len() > 0,
        ensures
            is_oldest(self@.shares, oldest as int),
    {
        let ghost shares = self@.shares;
        let mut best: usize = 0;
        let mut i: usize = 1;
        while i < self.principals.len()
            invariant
                shares == self@.shares,
                1 <= i <= self.principals@.len(),
                best < i,
                forall|j: int|
                    0 <= j < i ==> shares[best as int].last_used <= (#[trigger] shares[j]).last_used,
                forall|j: int|
                    0 <= j < best ==> shares[best as int].last_used < (
                    #[trigger] shares[j]).last_used,
            decreases self.principals@.len() - i,
        {
            assert(shares[i as int] == self.principals@[i as int]@);
            assert(shares[best as int] == self.principals@[best as int]@);
            if self.principals[i].last_used < self.principals[best].last_used {
                best = i;
            }
            i = i + 1;
        }
        best
    }

    /// The principal's layer: draw one token from the caller's share of
    /// `bucket`. The global buckets are not touched.
    pub fn check_principal(
        &mut self,
        bucket: RateBucket,
        principal: Option<&ClientIdentity>,
        now: u64,
    ) -> (answer: Result<(), u32>)
        requires
            old(self).wf(),
        ensures
            final(self).wf(),
            (final(self)@, answer) == principal_step(
                old(self)@,
                bucket,
                principal_of(principal),
                now,
            ),
    {
        let config: BucketConfig = bucket_config(bucket);
        let key = PrincipalKey::from_identity(principal);
        let ghost before = self@;
        let ghost p = principal_of(principal);
        let ghost tick = next_tick(before.clock);
        let ghost shares = admitted(before.shares, bucket, p, tick, now);
        if self.clock < u64::MAX {
            self.clock = self.clock + 1;
        }
        let at: usize = match self.find(bucket, &key) {
            Some(i) => i,
            None => {
                if self.principals.len() >= MAX_PRINCIPAL_ENTRIES {
                    let victim: usize = self.oldest_index();
                    proof {
                        lemma_oldest_unique(before.shares, victim as int, oldest(before.shares));
                    }
                    self.principals.remove(victim);
                    assert(self@.shares =~= before.shares.remove(victim as int));
                }
                let fresh = PrincipalBucket {
                    bucket,
                    key: key.duplicate(),
                    state: TokenBucket {
                        tokens: config.per_principal_burst as u64,
                        last_refill: now,
                    },
                    last_used: self.clock,
                };
                let ghost rest = self@.shares;
                self.principals.push(fresh);
                assert(self@.shares =~= rest.push(fresh@));
                self.principals.len() - 1
            },
        };
        proof {
            assert(self@.shares =~= shares);
            lemma_admitted(before, bucket, p, tick, now);
            assert(owned(shares, at as int, bucket, p));
        }
        let mut state: TokenBucket = self.principals[at].state;
        assert(self.principals@[at as int]@ == shares[at as int]);
        let answer = state.take(
            config.per_principal_max_per_minute,
            config.per_principal_burst,
            now,
        );
        let share = PrincipalBucket { bucket, key, state, last_used: self.clock };
        self.principals.set(at, share);
        proof {
            assert(self@.shares =~= shares.update(at as int, share@));
            assert(self@.global == before.global);
            lemma_draw_bounded(
                shares[at as int].state,
                config.per_principal_max_per_minute,
                config.per_principal_burst,
                now,
            );
            assert(self@ =~= principal_step(before, bucket, p, now).0);
        }
        answer
    }

    /// Try to draw one token for `principal`; `None` is an unresolved identity.
    /// The answer is the seconds to wait where there is none.
    pub fn check(&mut self, bucket: RateBucket, principal: Option<&ClientIdentity>, now: u64) -> (answer:
        Result<(), u32>)
        requires
            old(self).wf(),
        ensures
            final(self).wf(),
            (final(self)@, answer) == limit(old(self)@, bucket, principal, now),
    {
        if bucket == RateBucket::Unlimited {
            return Ok(());
        }
        let first_party = match principal {
            Some(id) => id.is_first_party(),
            None => false,
        };
        if !first_party {
            match self.check_principal(bucket, principal, now) {
                Ok(()) => {},
                Err(seconds) => {
                    return Err(seconds);
                },
            }
        }
        let config: BucketConfig = bucket_config(bucket);
        let i: usize = slot_of(bucket);
        let ghost before = self@;
        let mut state: TokenBucket = self.buckets[i];
        let answer = state.take(config.max_per_minute, config.burst, now);
        self.buckets.set(i, state);
        proof {
            lemma_draw_bounded(before.global[slot(bucket)], config.max_per_minute, config.burst, now);
            assert(self@ =~= global_step(before, bucket, now).0);
            assert forall|other: RateBucket|
                (#[trigger] self@.global[slot(other)]).tokens <= config_of(other).burst by {
                if other != bucket {
                    assert(self@.global[slot(other)] == before.global[slot(other)]);
                }
            }
        }
        answer
    }

    /// Tokens left in the global bucket.
    pub fn tokens(&self, bucket: RateBucket) -> (n: u64)
        requires
            self.wf(),
        ensures
            n == self@.global[slot(bucket)].tokens,
    {
        self.buckets[slot_of(bucket)].tokens
    }

    /// Time up to which the global bucket's refill has been paid out.
    pub fn last_refill(&self, bucket: RateBucket) -> (at: u64)
        requires
            self.wf(),
        ensures
            at == self@.global[slot(bucket)].last_refill,
    {
        self.buckets[slot_of(bucket)].last_refill
    }

    /// Number of shares that are kept.
    pub fn principal_entries(&self) -> (n: usize)
        ensures
            n == self@.shares.len(),
    {
        self.principals.len()
    }
}

proof fn lemma_oldest_unique(shares: Seq<Share>, a: int, b: int)
    requires
        is_oldest(shares, a),
    ensures
        is_oldest(shares, oldest(shares)),
        is_oldest(shares, b) ==> a == b,
{
    if is_oldest(shares, b) {
        assert(shares[a].last_used <= shares[b].last_used);
        assert(shares[b].last_used <= shares[a].last_used);
    }
}

proof fn lemma_oldest_exists(shares: Seq<Share>) -> (i: int)
    requires
        shares.len() > 0,
    ensures
        is_oldest(shares, i),
    decreases shares.len(),
{
    if shares.len() == 1 {
        0
    } else {
        let init = shares.drop_last();
        let i = lemma_oldest_exists(init);
        assert forall|j: int| 0 <= j < init.len() implies init[j] == #[trigger] shares[j] by {}
        let last = shares.len() - 1;
        if shares[last].last_used < shares[i].last_used {
            assert(is_oldest(shares, last));
            last
        } else {
            assert(is_oldest(shares, i));
            i
        }
    }
}

proof fn lemma_share_unique(b: Budgets, i: int, j: int, bucket: RateBucket, p: Principal)
    requires
        bounded(b),
        owned(b.shares, i, bucket, p),
        owned(b.shares, j, bucket, p),
    ensures
        i == j,
{
}

proof fn lemma_admitted(b: Budgets, bucket: RateBucket, p: Principal, tick: u64, now: u64)
    requires
        bounded(b),
    ensures
        ({
            let shares = admitted(b.shares, bucket, p, tick, now);
            &&& bounded(Budgets { global: b.global, shares, clock: tick })
            &&& has_share(shares, bucket, p)
            &&& forall|i: int| #[trigger]
                owned(shares, i, bucket, p) ==> i == share_at(shares, bucket, p)
        }),
{
    let shares = admitted(b.shares, bucket, p, tick, now);
    let after = Budgets { global: b.global, shares, clock: tick };
    if has_share(b.shares, bucket, p) {
    } else {
        let kept = if b.shares.len() >= MAX_PRINCIPAL_ENTRIES {
            b.shares.remove(oldest(b.shares))
        } else {
            b.shares
        };
        let gone = oldest(b.shares);
        if b.shares.len() >= MAX_PRINCIPAL_ENTRIES {
            let i = lemma_oldest_exists(b.shares);
            assert(is_oldest(b.shares, gone));
        }
        let from = |i: int|
            if b.shares.len() >= MAX_PRINCIPAL_ENTRIES && i >= gone {
                i + 1
            } else {
                i
            };
        assert forall|i: int| 0 <= i < kept.len() implies #[trigger] shares[i] == b.shares[from(i)]
            && 0 <= from(i) < b.shares.len() by {}
        assert forall|i: int| 0 <= i < kept.len() implies !owned(shares, i, bucket, p) by {
            assert(!owned(b.shares, from(i), bucket, p));
        }
        assert(owned(shares, kept.len() as int, bucket, p));
        assert forall|i: int, j: int|
            0 <= i < j < shares.len() && (#[trigger] shares[i]).bucket == (
            #[trigger] shares[j]).bucket implies shares[i].principal != shares[j].principal by {
            if j < kept.len() {
                assert(shares[i] == b.shares[from(i)] && shares[j] == b.shares[from(j)]);
                assert(from(i) < from(j));
            } else {
                assert(!owned(shares, i, bucket, p));
            }
        }
        assert forall|i: int| 0 <= i < shares.len() implies (#[trigger] shares[i]).state.tokens
            <= config_of(shares[i].bucket).per_principal_burst by {
            if i < kept.len() {
                assert(shares[i] == b.shares[from(i)]);
            }
        }
    }
    assert(bounded(after));
    assert forall|i: int| #[trigger] owned(shares, i, bucket, p) implies i == share_at(
        shares,
        bucket,
        p,
    ) by {
        lemma_share_unique(after, i, share_at(shares, bucket, p), bucket, p);
    }
}

proof fn lemma_draw_bounded(b: TokenBucket, rate: u32, burst: u32, now: u64)
    ensures
        b.tokens <= burst ==> draw(b, rate, burst, now).0.tokens <= burst,
        b.last_refill <= now ==> draw(b, rate, burst, now).0.last_refill <= now,
{
    lemma_worth_bounded(b, rate, now);
    if minted(b, rate, now) > 0 && rate == 0 {
        assert(elapsed(b.last_refill, now) * rate == 0) by (nonlinear_arith)
            requires
                rate == 0,
        ;
    }
}

/// The unlimited bucket serves every request and keeps no account.
pub proof fn unlimited_never_blocks(b: Budgets, id: Option<&ClientIdentity>, now: u64)
    ensures
        limit(b, RateBucket::Unlimited, id, now) == (b, Ok::<(), u32>(())),
{
}

/// A refused request consumes no token of the layer that refused it.
pub proof fn refused_draw_consumes_nothing(b: TokenBucket, rate: u32, burst: u32, now: u64)
    requires
        draw(b, rate, burst, now).1 is Err,
    ensures
        draw(b, rate, burst, now).0 == refilled(b, rate, burst, now),
        draw(b, rate, burst, now).1 == Err::<(), u32>(retry_after(rate)),
{
}

/// A request that the principal's layer refuses leaves every global bucket as
/// it was.
pub proof fn principal_refusal_spares_global(
    b: Budgets,
    bucket: RateBucket,
    id: Option<&ClientIdentity>,
    now: u64,
)
    requires
        !(bucket is Unlimited),
        id is Some ==> !id->0.first_party,
        principal_step(b, bucket, principal_of(id), now).1 is Err,
    ensures
        limit(b, bucket, id, now).0.global == b.global,
        limit(b, bucket, id, now).1 is Err,
{
}

/// A request in one bucket leaves every other global bucket as it was.
pub proof fn buckets_are_independent(
    b: Budgets,
    bucket: RateBucket,
    other: RateBucket,
    id: Option<&ClientIdentity>,
    now: u64,
)
    requires
        bounded(b),
        bucket != other,
    ensures
        limit(b, bucket, id, now).0.global[slot(other)] == b.global[slot(other)],
{
}

/// Until the table is full, a request leaves every share of another principal
/// and of another bucket as it was.
pub proof fn shares_are_independent(
    b: Budgets,
    bucket: RateBucket,
    id: Option<&ClientIdentity>,
    now: u64,
    i: int,
)
    requires
        bounded(b),
        b.shares.len() < MAX_PRINCIPAL_ENTRIES || has_share(b.shares, bucket, principal_of(id)),
        0 <= i < b.shares.len(),
        b.shares[i].bucket != bucket || b.shares[i].principal != principal_of(id),
    ensures
        limit(b, bucket, id, now).0.shares[i] == b.shares[i],
{
    let p = principal_of(id);
    let tick = next_tick(b.clock);
    lemma_admitted(b, bucket, p, tick, now);
    let shares = admitted(b.shares, bucket, p, tick, now);
    assert(shares[i] == b.shares[i]);
    assert(owned(shares, share_at(shares, bucket, p), bucket, p));
}

/// A full table drops the least recently used share and no other.
pub proof fn eviction_is_least_recently_used(b: Budgets, bucket: RateBucket, p: Principal, now: u64)
    requires
        bounded(b),
        b.shares.len() == MAX_PRINCIPAL_ENTRIES,
        !has_share(b.shares, bucket, p),
    ensures
        is_oldest(b.shares, oldest(b.shares)),
        principal_step(b, bucket, p, now).0.shares.drop_last() == b.shares.remove(oldest(b.shares)),
{
    let i = lemma_oldest_exists(b.shares);
    let tick = next_tick(b.clock);
    let shares = admitted(b.shares, bucket, p, tick, now);
    lemma_admitted(b, bucket, p, tick, now);
    assert(owned(shares, shares.len() - 1, bucket, p));
    assert(principal_step(b, bucket, p, now).0.shares.drop_last() =~= b.shares.remove(
        oldest(b.shares),
    ));
}

/// At every configured rate one token is worth a whole number of nanoseconds.
pub proof fn configured_rates_divide_a_minute(bucket: RateBucket)
    requires
        !(bucket is Unlimited),
    ensures
        config_of(bucket).max_per_minute > 0,
        config_of(bucket).per_principal_max_per_minute > 0,
        NANOS_PER_MINUTE as int % config_of(bucket).max_per_minute as int == 0,
        NANOS_PER_MINUTE as int % config_of(bucket).per_principal_max_per_minute as int == 0,
{
    match bucket {
        RateBucket::Status => {
            assert(60_000_000_000int % 300 == 0 && 60_000_000_000int % 150 == 0);
        },
        RateBucket::QuarantineOps => {
            assert(60_000_000_000int % 30 == 0 && 60_000_000_000int % 15 == 0);
        },
        RateBucket::DiagnosticsExport => {
            assert(60_000_000_000int % 6 == 0 && 60_000_000_000int % 3 == 0);
        },
        RateBucket::SourcesMutation => {
            assert(60_000_000_000int % 5 == 0 && 60_000_000_000int % 2 == 0);
        },
        _ => {
            assert(60_000_000_000int % 10 == 0 && 60_000_000_000int % 5 == 0);
        },
    }
}

/// A refill loses no time: what is left of the elapsed time is exactly the part
/// that was not worth a whole token.
pub proof fn refill_preserves_remainder(b: TokenBucket, rate: u32, burst: u32, now: u64)
    requires
        rate > 0,
        NANOS_PER_MINUTE as int % rate as int == 0,
        b.last_refill <= now,
    ensures
        refilled(b, rate, burst, now).last_refill <= now,
        (now - refilled(b, rate, burst, now).last_refill) * rate == ((now - b.last_refill) * rate) % (
        NANOS_PER_MINUTE as int),
{
    let e = now - b.last_refill;
    let n = NANOS_PER_MINUTE as int;
    let r = rate as int;
    let m = minted(b, rate, now);
    lemma_worth_bounded(b, rate, now);
    let w = worth(m, rate);
    assert(w * r == m * n) by (nonlinear_arith)
        requires
            w == (m * n) / r,
            n % r == 0,
            r > 0,
            m >= 0,
    {
        let q = n / r;
        assert(n == r * q);
        assert(m * n == (m * q) * r);
        assert((m * n) / r == m * q);
    }
    assert(e * r == n * m + (e * r) % n) by (nonlinear_arith)
        requires
            m == (e * r) / n,
            n == 60_000_000_000,
    ;
    if m > 0 {
        assert(refilled(b, rate, burst, now).last_refill == b.last_refill + w);
        assert((e - w) * r == e * r - w * r) by (nonlinear_arith);
    }
}

/// Every principal's share is at most half the global rate and never more than
/// the global burst.
pub proof fn share_is_at_most_half(bucket: RateBucket)
    requires
        !(bucket is Unlimited),
    ensures
        2 * config_of(bucket).per_principal_max_per_minute <= config_of(bucket).max_per_minute,
        config_of(bucket).per_principal_burst <= config_of(bucket).burst,
{
}

/// The budgets after `n` requests of one client at one instant.
pub open spec fn flood(
    b: Budgets,
    bucket: RateBucket,
    id: Option<&ClientIdentity>,
    now: u64,
    n: nat,
) -> Budgets
    decreases n,
{
    if n == 0 {
        b
    } else {
        limit(flood(b, bucket, id, now, (n - 1) as nat), bucket, id, now).0
    }
}

/// What a flood from a cold start can reach: the flooder's share is the only
/// one, and the global bucket has lost exactly what the share has lost.
spec fn flooded(b: Budgets, bucket: RateBucket, p: Principal, now: u64) -> bool {
    let g = b.global[slot(bucket)];
    &&& bounded(b)
    &&& g.last_refill == now
    &&& b.shares.len() <= 1
    &&& b.shares.len() == 0 ==> g.tokens == config_of(bucket).burst
    &&& b.shares.len() == 1 ==> {
        &&& owned(b.shares, 0, bucket, p)
        &&& b.shares[0].state.last_refill == now
        &&& g.tokens == config_of(bucket).burst - config_of(bucket).per_principal_burst
            + b.shares[0].state.tokens
    }
}

proof fn lemma_limit_bounded(b: Budgets, bucket: RateBucket, id: Option<&ClientIdentity>, now: u64)
    requires
        bounded(b),
    ensures
        bounded(limit(b, bucket, id, now).0),
        bounded(principal_step(b, bucket, principal_of(id), now).0),
{
    let p = principal_of(id);
    let tick = next_tick(b.clock);
    let config = config_of(bucket);
    lemma_admitted(b, bucket, p, tick, now);
    let shares = admitted(b.shares, bucket, p, tick, now);
    let at = share_at(shares, bucket, p);
    assert(owned(shares, at, bucket, p));
    lemma_draw_bounded(
        shares[at].state,
        config.per_principal_max_per_minute,
        config.per_principal_burst,
        now,
    );
    lemma_draw_bounded(b.global[slot(bucket)], config.max_per_minute, config.burst, now);
    assert(bounded(principal_step(b, bucket, p, now).0));
    let after = limit(b, bucket, id, now).0;
    assert forall|other: RateBucket|
        (#[trigger] after.global[slot(other)]).tokens <= config_of(other).burst by {
        if other != bucket {
            assert(after.global[slot(other)] == b.global[slot(other)]);
        }
    }
}

proof fn lemma_nothing_minted(b: TokenBucket, rate: u32, now: u64)
    requires
        b.last_refill == now,
    ensures
        minted(b, rate, now) == 0,
{
    assert(0 * (rate as int) == 0) by (nonlinear_arith);
}

proof fn lemma_flood_step(b: Budgets, bucket: RateBucket, id: Option<&ClientIdentity>, now: u64)
    requires
        !(bucket is Unlimited),
        id is Some ==> !id->0.first_party,
        flooded(b, bucket, principal_of(id), now),
    ensures
        flooded(limit(b, bucket, id, now).0, bucket, principal_of(id), now),
{
    let p = principal_of(id);
    let tick = next_tick(b.clock);
    let shares = admitted(b.shares, bucket, p, tick, now);
    lemma_limit_bounded(b, bucket, id, now);
    lemma_admitted(b, bucket, p, tick, now);
    assert(owned(shares, 0, bucket, p)) by {
        if b.shares.len() == 0 {
            assert(!has_share(b.shares, bucket, p));
        } else {
            assert(owned(b.shares, 0, bucket, p));
        }
    }
    assert(shares.len() == 1);
    assert(share_at(shares, bucket, p) == 0);
    lemma_nothing_minted(shares[0].state, config_of(bucket).per_principal_max_per_minute, now);
    lemma_nothing_minted(b.global[slot(bucket)], config_of(bucket).max_per_minute, now);
}

/// One principal cannot starve another: however many requests a client sends at
/// a cold start, the global bucket keeps all but that client's own burst.
pub proof fn flood_is_capped(
    bucket: RateBucket,
    id: Option<&ClientIdentity>,
    now: u64,
    n: nat,
)
    requires
        !(bucket is Unlimited),
        id is Some ==> !id->0.first_party,
    ensures
        bounded(flood(initial(now), bucket, id, now, n)),
        flood(initial(now), bucket, id, now, n).global[slot(bucket)].tokens >= config_of(bucket).burst
            - config_of(bucket).per_principal_burst,
{
    lemma_flood(bucket, id, now, n);
}

proof fn lemma_flood(bucket: RateBucket, id: Option<&ClientIdentity>, now: u64, n: nat)
    requires
        !(bucket is Unlimited),
        id is Some ==> !id->0.first_party,
    ensures
        flooded(flood(initial(now), bucket, id, now, n), bucket, principal_of(id), now),
    decreases n,
{
    if n == 0 {
        let b = initial(now);
        assert(bounded(b));
    } else {
        lemma_flood(bucket, id, now, (n - 1) as nat);
        lemma_flood_step(flood(initial(now), bucket, id, now, (n - 1) as nat), bucket, id, now);
    }
}

/// While one client floods scan control or the quarantine at a cold start, the
/// first request of every other principal is served.
pub proof fn other_principal_is_served(
    bucket: RateBucket,
    flooder: Option<&ClientIdentity>,
    other: Option<&ClientIdentity>,
    now: u64,
    n: nat,
)
    requires
        bucket is ScanControl || bucket is QuarantineOps,
        flooder is Some ==> !flooder->0.first_party,
        principal_of(flooder) != principal_of(other),
    ensures
        limit(flood(initial(now), bucket, flooder, now, n), bucket, other, now).1 is Ok,
{
    let b = flood(initial(now), bucket, flooder, now, n);
    lemma_flood(bucket, flooder, now, n);
    let p = principal_of(other);
    let tick = next_tick(b.clock);
    assert(!has_share(b.shares, bucket, p)) by {
        if has_share(b.shares, bucket, p) {
            assert(owned(b.shares, share_at(b.shares, bucket, p), bucket, p));
        }
    }
    let shares = admitted(b.shares, bucket, p, tick, now);
    lemma_admitted(b, bucket, p, tick, now);
    assert(owned(shares, shares.len() - 1, bucket, p));
    lemma_nothing_minted(
        shares[shares.len() - 1].state,
        config_of(bucket).per_principal_max_per_minute,
        now,
    );
    lemma_nothing_minted(b.global[slot(bucket)], config_of(bucket).max_per_minute, now);
}

/// The rates of the buckets and their bursts: for all callers together, and for each.
pub proof fn buckets_have_their_rates(bucket: RateBucket)
    ensures
        ({
            let c = config_of(bucket);
            &&& bucket is Status ==> c.max_per_minute == 300 && c.burst == 40
                && c.per_principal_max_per_minute == 150 && c.per_principal_burst == 40
            &&& bucket is ScanControl ==> c.max_per_minute == 10 && c.burst == 3
                && c.per_principal_max_per_minute == 5 && c.per_principal_burst == 2
            &&& bucket is QuarantineOps ==> c.max_per_minute == 30 && c.burst == 5
                && c.per_principal_max_per_minute == 15 && c.per_principal_burst == 4
            &&& bucket is ConfigMutation || bucket is MemoryScan ==> c.max_per_minute == 10
                && c.burst == 2 && c.per_principal_max_per_minute == 5 && c.per_principal_burst == 2
            &&& bucket is DiagnosticsExport ==> c.max_per_minute == 6 && c.burst == 2
                && c.per_principal_max_per_minute == 3 && c.per_principal_burst == 2
            &&& bucket is SourcesMutation ==> c.max_per_minute == 5 && c.burst == 2
                && c.per_principal_max_per_minute == 2 && c.per_principal_burst == 2
        }),
{
}

/// A refill brings one token for each full part of a minute that has passed, up to the
/// burst, and never takes one away.
pub proof fn time_brings_tokens(b: TokenBucket, rate: u32, burst: u32, now: u64, n: int)
    requires
        n >= 0,
        b.last_refill <= now,
        b.tokens <= burst,
    ensures
        ({
            let r = refilled(b, rate, burst, now);
            &&& b.tokens <= r.tokens <= burst
            &&& n * 60_000_000_000 <= (now - b.last_refill) * rate && b.tokens + n <= burst
                ==> r.tokens >= b.tokens + n
            &&& (now - b.last_refill) * rate < (n + 1) * 60_000_000_000 ==> r.tokens <= b.tokens + n
        }),
{
    let t = (now - b.last_refill) * rate;
    assert(t >= 0) by (nonlinear_arith)
        requires
            t == (now - b.last_refill) * rate,
            now - b.last_refill >= 0,
            rate >= 0,
    ;
    assert(elapsed(b.last_refill, now) * rate == t);
    assert(minted(b, rate, now) == t / 60_000_000_000);
}

/// A request is served where a token is left after the refill, and takes exactly one;
/// else it takes none.
pub proof fn served_requests_take_one_token(b: TokenBucket, rate: u32, burst: u32, now: u64)
    ensures
        ({
            let r = refilled(b, rate, burst, now);
            let (after, answer) = draw(b, rate, burst, now);
            &&& answer is Ok <==> r.tokens > 0
            &&& answer is Ok ==> after.tokens == r.tokens - 1
            &&& answer is Err ==> after.tokens == 0
            &&& after.last_refill == r.last_refill
        }),
{
}

/// A refused caller is told to wait for the time of one token, at least a second.
pub proof fn wait_is_the_time_of_one_token(rate: u32)
    ensures
        rate == 0 ==> retry_after(rate) == 60,
        1 <= rate <= 60 ==> retry_after(rate) * rate <= 60 < (retry_after(rate) + 1) * rate,
        rate > 60 ==> retry_after(rate) == 1,
{
    if 1 <= rate && rate <= 60 {
        let q = 60u32 / rate;
        assert(q * rate <= 60 < (q + 1) * rate && q >= 1) by (nonlinear_arith)
            requires
                q == 60u32 / rate,
                1 <= rate <= 60,
        ;
    }
    if rate > 60 {
        assert(60u32 / rate == 0) by (nonlinear_arith)
            requires
                rate > 60,
        ;
    }
}

/// A request is served only where both layers have a token for it; a first-party
/// client is held to the global one alone.
pub proof fn both_layers_have_to_serve(
    b: Budgets,
    bucket: RateBucket,
    id: Option<&ClientIdentity>,
    now: u64,
)
    requires
        !(bucket is Unlimited),
    ensures
        ({
            let first_party = id is Some && id->0.first_party;
            let share = principal_step(b, bucket, principal_of(id), now);
            let rate = config_of(bucket).max_per_minute;
            let burst = config_of(bucket).burst;
            &&& limit(b, bucket, id, now).1 is Ok <==> (first_party || share.1 is Ok) && draw(
                b.global[slot(bucket)],
                rate,
                burst,
                now,
            ).1 is Ok
            &&& first_party ==> limit(b, bucket, id, now).0.shares == b.shares
        }),
{
}

/// At most 256 shares are kept.
pub proof fn table_of_shares_is_bounded(b: Budgets)
    requires
        bounded(b),
    ensures
        b.shares.len() <= 256,
{
}

} // verus!
