//! The configuration types.
//!
//! `Config` is the *base* configuration for every other configuration type:
//! `HostConfig` and `ConfigWithClock` are derived from it.
use vstd::prelude::*;
use core::ops::Deref;
use governor::clock::FakeRelativeClock;
use crate::helpers::{build_quota, quota_params};
use crate::types::{default_clock_new, fake_clock_clone, quota_fits, ClockSource, DirectLimiter};

pub use crate::models::TimeInterval;

verus! {

/// A base config struct for building clients and hosts.
///
/// The `quota` is the number of "tokens" allowed in an `interval`: one token is
/// recovered every `interval / quota`. The `burst` is the number of tokens that
/// can stack: with 2, the client can perform 2 requests at the start, and when
/// idle for twice the recovery time the stack is full again.
///
/// `quota` and `burst` are counts of at least one.
#[derive(Clone, Copy)]
pub struct Config {
    pub quota: u32,
    pub burst: u32,
    pub interval: TimeInterval,
}

impl Config {
    /// Both counts are at least one, and a limiter can be built for the quota
    /// (see `quota_fits`).
    pub open spec fn wf(self) -> bool {
        &&& self.quota > 0
        &&& self.burst > 0
        &&& quota_fits(self.params())
    }

    /// The quota parameters `(replenish interval in nanoseconds, burst size)`
    /// that this configuration sets.
    pub open spec fn params(self) -> (nat, nat) {
        quota_params(self.quota as nat, self.burst as nat, self.interval)
    }
}

/// Sets the configuration for a specific host.
#[derive(Clone, Copy)]
pub struct HostConfig {
    pub base: Config,
    pub hostname: &'static str,
}

impl Deref for HostConfig {
    type Target = Config;

    fn deref(&self) -> (r: &Config)
        ensures
            *r == self.base,
    {
        &self.base
    }
}

/// A configuration whose limiters run on a fake clock, which moves only when it
/// is advanced: for tests.
pub struct ConfigWithClock {
    pub base: Config,
    pub clock: FakeRelativeClock,
}

impl Deref for ConfigWithClock {
    type Target = Config;

    fn deref(&self) -> (r: &Config)
        ensures
            *r == self.base,
    {
        &self.base
    }
}

/// The global configuration of a client: the limiter that non-registered hosts
/// share, and the clock that drives every limiter of the client.
pub struct GlobalConfig {
    pub limit: DirectLimiter,
    pub clock: ClockSource,
}

impl GlobalConfig {
    /// A global configuration on the real-time default clock.
    pub fn build(config: Config) -> (g: GlobalConfig)
        requires
            config.wf(),
        ensures
            g.limit@ == config.params(),
            g.clock is Default,
            g.limit.clock() == g.clock,
            g.limit.id() == 0,
    {
        let clock = ClockSource::Default(default_clock_new());
        GlobalConfig::with_clock_source(config, clock)
    }

    /// A global configuration on the fake clock of `config`.
    pub fn build_with_clock(config: ConfigWithClock) -> (g: GlobalConfig)
        requires
            config.base.wf(),
        ensures
            g.limit@ == config.base.params(),
            g.clock == ClockSource::Fake(config.clock),
            g.limit.clock() == g.clock,
            g.limit.id() == 0,
    {
        let clock = ClockSource::Fake(fake_clock_clone(&config.clock));
        GlobalConfig::with_clock_source(config.base, clock)
    }

    fn with_clock_source(config: Config, clock: ClockSource) -> (g: GlobalConfig)
        requires
            config.wf(),
        ensures
            g.limit@ == config.params(),
            g.clock == clock,
            g.limit.clock() == clock,
            g.limit.id() == 0,
    {
        let limit = DirectLimiter::new(build_quota(config.quota, config.burst, config.interval), &clock, Ghost(0));
        GlobalConfig { limit, clock }
    }
}

} // verus!
