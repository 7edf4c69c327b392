//! Quotas and the `governor` rate limiters built from them.
use vstd::prelude::*;
use std::num::NonZeroU32;
use std::sync::Arc;
use governor::clock::{Clock, DefaultClock, FakeRelativeClock};
use governor::middleware::NoOpMiddleware;
use governor::state::{InMemoryState, NotKeyed};
use governor::{Quota, RateLimiter};

verus! {

#[verifier::external_type_specification]
#[verifier::external_body]
pub struct ExQuota(Quota);

#[verifier::external_type_specification]
#[verifier::external_body]
pub struct ExDefaultClock(DefaultClock);

#[verifier::external_type_specification]
#[verifier::external_body]
pub struct ExFakeRelativeClock(FakeRelativeClock);

/// A `governor` quota together with its two parameters read back as plain values:
/// one cell is replenished every `replenish_nanos` nanoseconds, and at most
/// `max_burst` cells can be held at once.
///
/// Only the functions of this module build values of this type, each from a
/// `governor` constructor whose parameters it records.
#[derive(Clone, Copy)]
pub struct RateQuota {
    quota: Quota,
    replenish_nanos: u64,
    max_burst: u32,
}

impl View for RateQuota {
    /// `(replenish interval in nanoseconds, burst size)`.
    type V = (nat, nat);

    closed spec fn view(&self) -> (nat, nat) {
        (self.replenish_nanos as nat, self.max_burst as nat)
    }
}

impl RateQuota {
    /// The interval after which one cell is replenished, in nanoseconds.
    pub fn replenish_interval_nanos(&self) -> (r: u64)
        ensures
            r == self@.0,
    {
        self.replenish_nanos
    }

    /// The number of cells that can be held at once.
    pub fn burst_size(&self) -> (r: u32)
        ensures
            r == self@.1,
            r > 0,
    {
        proof {
            use_type_invariant(self);
        }
        self.max_burst
    }

    #[verifier::type_invariant]
    spec fn burst_is_positive(self) -> bool {
        self.max_burst > 0
    }
}

/// `governor::Quota::per_second(n)`: one cell every `1s / n` (in whole
/// nanoseconds, rounded down) with a burst of `n`, as its source computes it.
#[verifier::external_body]
pub(crate) fn quota_per_second(max_burst: u32) -> (q: RateQuota)
    requires
        max_burst > 0,
    ensures
        q@ == (1_000_000_000nat / max_burst as nat, max_burst as nat),
{
    let quota = Quota::per_second(NonZeroU32::new(max_burst).unwrap());
    RateQuota {
        quota,
        replenish_nanos: quota.replenish_interval().as_nanos() as u64,
        max_burst: quota.burst_size().get(),
    }
}

/// `governor::Quota::per_minute(n)`: one cell every `60s / n` (in whole
/// nanoseconds, rounded down) with a burst of `n`, as its source computes it.
#[verifier::external_body]
pub(crate) fn quota_per_minute(max_burst: u32) -> (q: RateQuota)
    requires
        max_burst > 0,
    ensures
        q@ == (60_000_000_000nat / max_burst as nat, max_burst as nat),
{
    let quota = Quota::per_minute(NonZeroU32::new(max_burst).unwrap());
    RateQuota {
        quota,
        replenish_nanos: quota.replenish_interval().as_nanos() as u64,
        max_burst: quota.burst_size().get(),
    }
}

/// `governor::Quota::per_hour(n)`: one cell every `3600s / n` (in whole
/// nanoseconds, rounded down) with a burst of `n`, as its source computes it.
#[verifier::external_body]
pub(crate) fn quota_per_hour(max_burst: u32) -> (q: RateQuota)
    requires
        max_burst > 0,
    ensures
        q@ == (3_600_000_000_000nat / max_burst as nat, max_burst as nat),
{
    let quota = Quota::per_hour(NonZeroU32::new(max_burst).unwrap());
    RateQuota {
        quota,
        replenish_nanos: quota.replenish_interval().as_nanos() as u64,
        max_burst: quota.burst_size().get(),
    }
}

/// `governor::Quota::allow_burst(b)`: the same replenish interval with the burst
/// size replaced by `b`, as its source computes it.
#[verifier::external_body]
pub(crate) fn quota_allow_burst(q: RateQuota, max_burst: u32) -> (r: RateQuota)
    requires
        max_burst > 0,
    ensures
        r@ == (q@.0, max_burst as nat),
{
    let quota = q.quota.allow_burst(NonZeroU32::new(max_burst).unwrap());
    RateQuota {
        quota,
        replenish_nanos: quota.replenish_interval().as_nanos() as u64,
        max_burst: quota.burst_size().get(),
    }
}


/// The clock that drives a set of limiters: the real-time default clock of
/// `governor`, or a fake clock that only moves when it is advanced.
pub enum ClockSource {
    Default(DefaultClock),
    Fake(FakeRelativeClock),
}

impl ClockSource {
    /// Whether this is a fake clock.
    pub open spec fn is_fake(&self) -> bool {
        self is Fake
    }
}

/// `governor::clock::DefaultClock::default()`: a real-time clock. Nothing is
/// stated of its reading.
#[verifier::external_body]
pub(crate) fn default_clock_new() -> (c: DefaultClock) {
    DefaultClock::default()
}

/// `Clone::clone` on the default clock: the derived clone of a `quanta` clock,
/// which copies its calibration and so reads the same time: the same clock.
#[verifier::external_body]
pub(crate) fn default_clock_clone(c: &DefaultClock) -> (r: DefaultClock)
    ensures
        r == *c,
{
    c.clone()
}

/// `Clone::clone` on a fake clock: the copy shares the time of the original
/// (the same `Arc`), so it is the same clock.
#[verifier::external_body]
pub(crate) fn fake_clock_clone(c: &FakeRelativeClock) -> (r: FakeRelativeClock)
    ensures
        r == *c,
{
    c.clone()
}

/// Whether a `governor` limiter can be built for the quota `(replenish interval
/// in nanoseconds, burst size)`: `governor` computes the interval times the
/// burst size less one in a `u64`, which must not overflow.
pub open spec fn quota_fits(q: (nat, nat)) -> bool {
    q.0 * (q.1 - 1) <= u64::MAX
}

/// A direct (un-keyed, in-memory) `governor` rate limiter on the default clock,
/// shared by reference count. `governor::RateLimiter` cannot be declared as an
/// outside type, since its bounds name traits of `governor`, so this type is
/// opaque.
#[verifier::external_body]
pub struct DefaultGovernor {
    pub inner: Arc<RateLimiter<NotKeyed, InMemoryState, DefaultClock, NoOpMiddleware<<DefaultClock as Clock>::Instant>>>,
}

/// A direct (un-keyed, in-memory) `governor` rate limiter on a fake clock,
/// shared by reference count; opaque, as `DefaultGovernor` is.
#[verifier::external_body]
pub struct FakeGovernor {
    pub inner: Arc<RateLimiter<NotKeyed, InMemoryState, FakeRelativeClock, NoOpMiddleware<<FakeRelativeClock as Clock>::Instant>>>,
}

impl DefaultGovernor {
    /// `governor::RateLimiter::check`: whether one cell is admitted now. The
    /// outcome depends on the time, so nothing is stated of it.
    #[verifier::external_body]
    pub(crate) fn check_ok(&self) -> (r: bool) {
        self.inner.check().is_ok()
    }

    /// `Arc::clone`: another handle on the same limiter.
    #[verifier::external_body]
    pub(crate) fn share(&self) -> (r: DefaultGovernor)
        ensures
            r == *self,
    {
        DefaultGovernor { inner: Arc::clone(&self.inner) }
    }
}

impl FakeGovernor {
    /// `governor::RateLimiter::check`: whether one cell is admitted now. The
    /// outcome depends on the time, so nothing is stated of it.
    #[verifier::external_body]
    pub(crate) fn check_ok(&self) -> (r: bool) {
        self.inner.check().is_ok()
    }

    /// `Arc::clone`: another handle on the same limiter.
    #[verifier::external_body]
    pub(crate) fn share(&self) -> (r: FakeGovernor)
        ensures
            r == *self,
    {
        FakeGovernor { inner: Arc::clone(&self.inner) }
    }
}

/// A `governor` limiter on the default clock, with the quota and the clock it
/// was built from.
pub struct DefaultClockLimiter {
    pub governor: DefaultGovernor,
    quota: Ghost<(nat, nat)>,
    clock: Ghost<DefaultClock>,
}

/// A `governor` limiter on a fake clock, with the quota and the clock it was
/// built from.
pub struct FakeClockLimiter {
    pub governor: FakeGovernor,
    quota: Ghost<(nat, nat)>,
    clock: Ghost<FakeRelativeClock>,
}

impl DefaultClockLimiter {
    /// The quota the limiter was built with.
    pub closed spec fn quota_view(&self) -> (nat, nat) {
        self.quota@
    }

    /// The clock the limiter was built with.
    pub closed spec fn clock_view(&self) -> DefaultClock {
        self.clock@
    }

    /// Another handle on the same limiter.
    pub fn share(&self) -> (r: DefaultClockLimiter)
        ensures
            r == *self,
    {
        DefaultClockLimiter { governor: self.governor.share(), quota: Ghost(self.quota@), clock: Ghost(self.clock@) }
    }
}

impl FakeClockLimiter {
    /// The quota the limiter was built with.
    pub closed spec fn quota_view(&self) -> (nat, nat) {
        self.quota@
    }

    /// The clock the limiter was built with.
    pub closed spec fn clock_view(&self) -> FakeRelativeClock {
        self.clock@
    }

    /// Another handle on the same limiter.
    pub fn share(&self) -> (r: FakeClockLimiter)
        ensures
            r == *self,
    {
        FakeClockLimiter { governor: self.governor.share(), quota: Ghost(self.quota@), clock: Ghost(self.clock@) }
    }
}

/// `governor::RateLimiter::direct_with_clock(quota, clock)` on the default
/// clock: the limiter enforces `quota` and reads `clock`. Its source computes
/// the replenish interval times the burst size less one in a `u64`, so the
/// quota must fit. Of the limiter's state nothing is stated.
#[verifier::external_body]
pub(crate) fn direct_limiter_default(quota: &RateQuota, clock: DefaultClock) -> (l: DefaultClockLimiter)
    requires
        quota_fits(quota@),
    ensures
        l.quota_view() == quota@,
        l.clock_view() == clock,
{
    let recorded = Ghost(clock);
    let governor = DefaultGovernor { inner: Arc::new(RateLimiter::direct_with_clock(quota.quota, clock)) };
    DefaultClockLimiter { governor, quota: Ghost(quota@), clock: recorded }
}

/// `governor::RateLimiter::direct_with_clock(quota, clock)` on a fake clock:
/// the limiter enforces `quota` and reads `clock`. Its source computes the
/// replenish interval times the burst size less one in a `u64`, so the quota
/// must fit. Of the limiter's state nothing is stated.
#[verifier::external_body]
pub(crate) fn direct_limiter_fake(quota: &RateQuota, clock: FakeRelativeClock) -> (l: FakeClockLimiter)
    requires
        quota_fits(quota@),
    ensures
        l.quota_view() == quota@,
        l.clock_view() == clock,
{
    let recorded = Ghost(clock);
    let governor = FakeGovernor { inner: Arc::new(RateLimiter::direct_with_clock(quota.quota, clock)) };
    FakeClockLimiter { governor, quota: Ghost(quota@), clock: recorded }
}

/// The `governor` limiter of a `DirectLimiter`, by the kind of clock it runs on.
pub enum ClockedLimiter {
    Default(DefaultClockLimiter),
    Fake(FakeClockLimiter),
}

impl ClockedLimiter {
    /// The quota the limiter was built with.
    pub open spec fn quota_view(&self) -> (nat, nat) {
        match self {
            ClockedLimiter::Default(l) => l.quota_view(),
            ClockedLimiter::Fake(l) => l.quota_view(),
        }
    }

    /// The clock the limiter was built with.
    pub open spec fn clock_view(&self) -> ClockSource {
        match self {
            ClockedLimiter::Default(l) => ClockSource::Default(l.clock_view()),
            ClockedLimiter::Fake(l) => ClockSource::Fake(l.clock_view()),
        }
    }
}

/// A rate limiter, with the quota it enforces and the clock it reads taken from
/// its `governor` limiter, and an identity that only a new limiter gets.
pub struct DirectLimiter {
    quota: RateQuota,
    limiter: ClockedLimiter,
    id: Ghost<nat>,
}

impl View for DirectLimiter {
    /// The quota the limiter enforces: `(replenish interval in nanoseconds, burst size)`.
    type V = (nat, nat);

    closed spec fn view(&self) -> (nat, nat) {
        self.limiter.quota_view()
    }
}

impl DirectLimiter {
    /// The clock the limiter reads.
    pub closed spec fn clock(&self) -> ClockSource {
        self.limiter.clock_view()
    }

    /// Whether the limiter runs on a fake clock.
    pub open spec fn on_fake_clock(&self) -> bool {
        self.clock().is_fake()
    }

    /// The `governor` limiter that admits or refuses the cells.
    pub closed spec fn clocked(&self) -> ClockedLimiter {
        self.limiter
    }

    /// The identity of the limiter: handles on one limiter share it, and a
    /// new limiter is given one.
    pub closed spec fn id(&self) -> nat {
        self.id@
    }

    /// The recorded quota is the one of the `governor` limiter.
    #[verifier::type_invariant]
    spec fn quota_matches(self) -> bool {
        self.quota@ == self.limiter.quota_view()
    }

    /// Builds a new limiter that enforces `quota` on `clock`, with identity `id`.
    pub(crate) fn new(quota: RateQuota, clock: &ClockSource, id: Ghost<nat>) -> (l: DirectLimiter)
        requires
            quota_fits(quota@),
        ensures
            l@ == quota@,
            l.clock() == *clock,
            l.id() == id@,
    {
        let limiter = match clock {
            ClockSource::Default(c) => ClockedLimiter::Default(
                direct_limiter_default(&quota, default_clock_clone(c)),
            ),
            ClockSource::Fake(c) => ClockedLimiter::Fake(
                direct_limiter_fake(&quota, fake_clock_clone(c)),
            ),
        };
        DirectLimiter { quota, limiter, id }
    }

    /// The quota the limiter enforces.
    pub fn quota(&self) -> (q: RateQuota)
        ensures
            q@ == self@,
    {
        proof {
            use_type_invariant(self);
        }
        self.quota
    }

    /// Whether one more cell is admitted now; an admitted cell is used up.
    pub fn check(&self) -> (r: bool) {
        match &self.limiter {
            ClockedLimiter::Default(l) => l.governor.check_ok(),
            ClockedLimiter::Fake(l) => l.governor.check_ok(),
        }
    }

    /// Another handle on the same limiter: cells used through either are used
    /// for both.
    pub fn share(&self) -> (r: DirectLimiter)
        ensures
            r == *self,
    {
        proof {
            use_type_invariant(self);
        }
        let limiter = match &self.limiter {
            ClockedLimiter::Default(l) => ClockedLimiter::Default(l.share()),
            ClockedLimiter::Fake(l) => ClockedLimiter::Fake(l.share()),
        };
        DirectLimiter { quota: self.quota, limiter, id: Ghost(self.id@) }
    }

    /// The `governor` limiter, by the kind of clock it runs on.
    pub fn governor(&self) -> (r: &ClockedLimiter)
        ensures
            *r == self.clocked(),
            (*r is Fake) == self.on_fake_clock(),
    {
        &self.limiter
    }
}

} // verus!
