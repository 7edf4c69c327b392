//! A rate-limited HTTP client: requests are admitted according to a configured
//! quota per time interval (see `configs::Config`). The *global* quota is shared
//! by every request made with `get`; a host registered with `build_host` has a
//! quota of its own, used by requests made to it with `host_get`.
//!
//! The library decides which quota a request is held to and keeps the register
//! of hosts; waiting for a quota and sending the request happen around it.
use vstd::prelude::*;
use dashmap::DashMap;
use crate::configs::{Config, ConfigWithClock, GlobalConfig, HostConfig};
use crate::errors::HttpClientError;
use crate::helpers::{build_quota, get_host, url_host, url_parse_error, url_parses};
use crate::types::{ClockSource, DirectLimiter};

pub mod cli;
pub mod configs;
pub mod errors;
pub mod helpers;
pub mod models;
pub mod types;

pub use models::TimeInterval;

verus! {

#[verifier::external_type_specification]
#[verifier::external_body]
#[verifier::reject_recursive_types(K)]
#[verifier::reject_recursive_types(V)]
#[verifier::reject_recursive_types(S)]
pub struct ExDashMap<K, V, S>(DashMap<K, V, S>);

/// What a register of hosts holds: each hostname with the index of its limiter
/// among the client's limiters.
pub uninterp spec fn host_table(hosts: DashMap<String, usize>) -> Map<Seq<char>, usize>;

/// The register with no host.
pub open spec fn no_hosts() -> Map<Seq<char>, usize> {
    Map::empty()
}

/// The register with no host, by quota.
pub open spec fn no_host_quotas() -> Map<Seq<char>, (nat, nat)> {
    Map::empty()
}

/// `DashMap::new`: an empty register.
#[verifier::external_body]
fn host_table_new() -> (m: DashMap<String, usize>)
    ensures
        host_table(m) == no_hosts(),
{
    DashMap::new()
}

/// `DashMap::insert`: the key now maps to the value, in place of any earlier one.
/// `insert` takes `&self`; the wrapper takes `&mut` so that the change is seen.
#[verifier::external_body]
fn host_table_insert(m: &mut DashMap<String, usize>, key: String, index: usize)
    ensures
        host_table(*final(m)) == host_table(*old(m)).insert(key@, index),
{
    m.insert(key, index);
}

/// `DashMap::contains_key`: whether the key is mapped.
#[verifier::external_body]
fn host_table_contains(m: &DashMap<String, usize>, key: &str) -> (r: bool)
    ensures
        r == host_table(*m).contains_key(key@),
{
    m.contains_key(key)
}

/// `DashMap::get`: the value the key maps to, if any, copied out of the guard.
#[verifier::external_body]
fn host_table_get(m: &DashMap<String, usize>, key: &str) -> (r: Option<usize>)
    ensures
        r is Some <==> host_table(*m).contains_key(key@),
        r matches Some(i) ==> i == host_table(*m)[key@],
{
    match m.get(key) {
        Some(entry) => Some(*entry),
        None => None,
    }
}

/// Why a request to a registered host cannot be held to a host's quota.
#[derive(Clone, Copy, Debug, PartialEq, Eq, Structural)]
pub enum LookupError {
    /// The url does not parse.
    BadUrl,
    /// The url has no host.
    NoHostname,
    /// The url's host is not registered.
    NotFound,
}

/// The quota that a request to `url` is held to, given the registered `hosts`:
/// that of the url's host, or why there is none.
pub open spec fn host_lookup(hosts: Map<Seq<char>, (nat, nat)>, url: Seq<char>) -> Result<(nat, nat), LookupError> {
    if !url_parses(url) {
        Err(LookupError::BadUrl)
    } else {
        match url_host(url) {
            None => Err(LookupError::NoHostname),
            Some(h) => if hosts.contains_key(h) {
                Ok(hosts[h])
            } else {
                Err(LookupError::NotFound)
            },
        }
    }
}

/// The registered hosts after registering each of `configs` in turn (as
/// `RateLimitClient::build_host` does) on `hosts`.
pub open spec fn register_all(hosts: Map<Seq<char>, (nat, nat)>, configs: Seq<HostConfig>) -> Map<Seq<char>, (nat, nat)>
    decreases configs.len(),
{
    if configs.len() == 0 {
        hosts
    } else {
        register_all(hosts, configs.drop_last()).insert(configs.last().hostname@, configs.last().base.params())
    }
}

/// Whether `configs[i]` is the last of `configs` that names `host`.
pub open spec fn last_naming(configs: Seq<HostConfig>, host: Seq<char>, i: int) -> bool {
    &&& 0 <= i < configs.len()
    &&& configs[i].hostname@ == host
    &&& forall|j: int| i < j < configs.len() ==> configs[j].hostname@ != host
}

/// After registering each of `configs` in turn on a client with no host, a
/// hostname is registered exactly when one of `configs` names it, and it has the
/// quota of the last of them that names it.
pub proof fn law_registered_hosts(configs: Seq<HostConfig>, host: Seq<char>)
    ensures
        register_all(no_host_quotas(), configs).contains_key(host)
            <==> exists|i: int| 0 <= i < configs.len() && configs[i].hostname@ == host,
        forall|i: int| #[trigger] last_naming(configs, host, i)
            ==> register_all(no_host_quotas(), configs)[host] == configs[i].base.params(),
    decreases configs.len(),
{
    if configs.len() > 0 {
        let init = configs.drop_last();
        law_registered_hosts(init, host);
        let n: int = configs.len() - 1;
        if configs[n].hostname@ != host {
            assert forall|i: int| #[trigger] last_naming(configs, host, i) implies last_naming(init, host, i) by {}
            if register_all(no_host_quotas(), configs).contains_key(host) {
                let i: int = choose|i: int| 0 <= i < init.len() && init[i].hostname@ == host;
                assert(configs[i] == init[i]);
            }
            if exists|i: int| 0 <= i < configs.len() && configs[i].hostname@ == host {
                let i: int = choose|i: int| 0 <= i < configs.len() && configs[i].hostname@ == host;
                assert(init[i] == configs[i]);
            }
        } else {
            assert forall|i: int| #[trigger] last_naming(configs, host, i) implies i == n by {}
        }
    }
}

/// Registering a host changes what requests are held to only for urls whose host
/// it is: those are held to the registered quota.
pub proof fn law_lookup_after_registration(hosts: Map<Seq<char>, (nat, nat)>, config: HostConfig, url: Seq<char>)
    ensures
        host_lookup(hosts.insert(config.hostname@, config.base.params()), url) == if url_parses(url)
            && url_host(url) == Some(config.hostname@) {
            Ok(config.base.params())
        } else {
            host_lookup(hosts, url)
        },
{
}

/// A host is registered exactly when a request to a url with that host is held
/// to a host quota.
pub proof fn law_exists_iff_found(hosts: Map<Seq<char>, (nat, nat)>, url: Seq<char>)
    requires
        url_parses(url),
        url_host(url) is Some,
    ensures
        host_lookup(hosts, url) is Ok <==> hosts.contains_key(url_host(url)->0),
{
}

/// Registering two different hostnames gives the same register in either order.
pub proof fn law_registrations_commute(hosts: Map<Seq<char>, (nat, nat)>, a: HostConfig, b: HostConfig)
    requires
        a.hostname@ != b.hostname@,
    ensures
        hosts.insert(a.hostname@, a.base.params()).insert(b.hostname@, b.base.params())
            == hosts.insert(b.hostname@, b.base.params()).insert(a.hostname@, a.base.params()),
{
    assert(hosts.insert(a.hostname@, a.base.params()).insert(b.hostname@, b.base.params())
        =~= hosts.insert(b.hostname@, b.base.params()).insert(a.hostname@, a.base.params()));
}

/// Registering a hostname again replaces its quota: only the later
/// registration counts.
pub proof fn law_reregistration_replaces(hosts: Map<Seq<char>, (nat, nat)>, a: HostConfig, b: HostConfig)
    requires
        a.hostname@ == b.hostname@,
    ensures
        hosts.insert(a.hostname@, a.base.params()).insert(b.hostname@, b.base.params())
            == hosts.insert(b.hostname@, b.base.params()),
{
    assert(hosts.insert(a.hostname@, a.base.params()).insert(b.hostname@, b.base.params())
        =~= hosts.insert(b.hostname@, b.base.params()));
}

/// `RateLimitClient` is the main type of the library. It contains a global
/// config and a register of hosts, each with a limiter of its own.
pub struct RateLimitClient {
    config: GlobalConfig,
    hosts: DashMap<String, usize>,
    limiters: Vec<DirectLimiter>,
    next_id: Ghost<nat>,
}

impl RateLimitClient {
    /// The limiter shared by every request made with the global quota.
    pub closed spec fn global(&self) -> DirectLimiter {
        self.config.limit
    }

    /// The clock that every limiter of the client reads.
    pub closed spec fn clock(&self) -> ClockSource {
        self.config.clock
    }

    /// The registered hosts, each with its own limiter.
    pub closed spec fn host_limiters(&self) -> Map<Seq<char>, DirectLimiter> {
        Map::new(
            |h: Seq<char>| host_table(self.hosts).contains_key(h),
            |h: Seq<char>| self.limiters@[host_table(self.hosts)[h] as int],
        )
    }

    /// The quota `(replenish interval in nanoseconds, burst size)` shared by
    /// every request made with the global limiter.
    pub open spec fn global_quota(&self) -> (nat, nat) {
        self.global()@
    }

    /// The registered hosts, each with the quota of its limiter.
    pub open spec fn hosts(&self) -> Map<Seq<char>, (nat, nat)> {
        self.host_limiters().map_values(|l: DirectLimiter| l@)
    }

    /// Whether the limiters run on a fake clock.
    pub open spec fn on_fake_clock(&self) -> bool {
        self.clock().is_fake()
    }

    /// Whether `l` is the global limiter or the limiter of a registered host.
    pub open spec fn holds(&self, l: DirectLimiter) -> bool {
        ||| l == self.global()
        ||| exists|h: Seq<char>| #[trigger] self.host_limiters().contains_key(h) && self.host_limiters()[h] == l
    }

    /// Every limiter reads the client's clock, and each registered host has a
    /// limiter of its own.
    #[verifier::type_invariant]
    spec fn well_formed(self) -> bool {
        &&& self.config.limit.clock() == self.config.clock
        &&& self.config.limit.id() < self.next_id@
        &&& forall|i: int| 0 <= i < self.limiters@.len() ==> (#[trigger] self.limiters@[i]).id() < self.next_id@
        &&& forall|i: int| 0 <= i < self.limiters@.len() ==> (#[trigger] self.limiters@[i]).clock()
            == self.config.clock
        &&& forall|h: Seq<char>| #[trigger] host_table(self.hosts).contains_key(h)
            ==> host_table(self.hosts)[h] < self.limiters@.len()
        &&& forall|h: Seq<char>, g: Seq<char>|
            #[trigger] host_table(self.hosts).contains_key(h) && #[trigger] host_table(self.hosts).contains_key(g)
                && h != g ==> host_table(self.hosts)[h] != host_table(self.hosts)[g]
    }

    /// Builds a client whose global quota is `config`, on the real-time clock,
    /// with no host registered.
    pub fn build(config: Config) -> (c: RateLimitClient)
        requires
            config.wf(),
        ensures
            c.global_quota() == config.params(),
            c.hosts() == no_host_quotas(),
            c.clock() is Default,
            c.global().clock() == c.clock(),
    {
        let c = RateLimitClient { config: GlobalConfig::build(config), hosts: host_table_new(), limiters: Vec::new(), next_id: Ghost(1) };
        assert(c.hosts() =~= no_host_quotas());
        c
    }

    /// Builds a client whose global quota is `config.base`, on the fake clock of
    /// `config`, with no host registered. Meant for tests.
    pub fn build_with_clock(config: ConfigWithClock) -> (c: RateLimitClient)
        requires
            config.base.wf(),
        ensures
            c.global_quota() == config.base.params(),
            c.hosts() == no_host_quotas(),
            c.clock() == ClockSource::Fake(config.clock),
            c.global().clock() == c.clock(),
    {
        let c = RateLimitClient {
            config: GlobalConfig::build_with_clock(config),
            hosts: host_table_new(),
            limiters: Vec::new(),
            next_id: Ghost(1),
        };
        assert(c.hosts() =~= no_host_quotas());
        c
    }

    /// Whether the global quota admits one more request now; an admitted request
    /// uses up a token. The global quota is shared by every url, so the url does
    /// not change the outcome.
    pub fn global_limit_is_ok(&self, _url: &str) -> bool {
        self.config.limit.check()
    }

    /// Whether the global quota refuses a request now. Where it admits one
    /// instead, that request uses up a token and the result is `false`. The
    /// global quota is shared by every url, so the url does not change the
    /// outcome.
    pub fn global_limit_is_err(&self, _url: &str) -> bool {
        !self.config.limit.check()
    }

    /// Whether the quota of the host of `url` admits one more request now; an
    /// admitted request uses up a token. The host must be registered.
    pub fn host_limit_is_ok(&self, url: &str) -> bool
        requires
            host_lookup(self.hosts(), url@) is Ok,
    {
        let limiter = self.host_limiter(url);
        match limiter {
            Ok(l) => l.check(),
            Err(_) => false,
        }
    }

    /// `host_limit_is_ok` where the host of `url` is registered: `None` where
    /// `url` does not parse, has no host, or its host is not registered.
    pub fn try_host_limit_is_ok(&self, url: &str) -> (r: Option<bool>)
        ensures
            r is None <==> host_lookup(self.hosts(), url@) is Err,
    {
        match get_host(url) {
            Ok(host) => {
                if host_table_contains(&self.hosts, host.as_str()) {
                    Some(self.host_limit_is_ok(url))
                } else {
                    None
                }
            },
            Err(_) => None,
        }
    }

    /// Registers a host with a new limiter of its own quota, on the client's
    /// clock: a limiter that the client did not hold before. The hostname is a
    /// hostname, not a url. Registering a hostname again replaces its limiter.
    /// The global limiter and the limiters of the other hosts are kept.
    pub fn build_host(&mut self, config: HostConfig)
        requires
            config.base.wf(),
        ensures
            final(self).host_limiters() == old(self).host_limiters().insert(
                config.hostname@,
                final(self).host_limiters()[config.hostname@],
            ),
            final(self).host_limiters()[config.hostname@]@ == config.base.params(),
            final(self).host_limiters()[config.hostname@].clock() == old(self).clock(),
            !old(self).holds(final(self).host_limiters()[config.hostname@]),
            final(self).hosts() == old(self).hosts().insert(config.hostname@, config.base.params()),
            final(self).global() == old(self).global(),
            final(self).clock() == old(self).clock(),
    {
        proof {
            use_type_invariant(&*self);
        }
        let ghost before = *self;
        let quota = build_quota(config.base.quota, config.base.burst, config.base.interval);
        let limit = DirectLimiter::new(quota, &self.config.clock, Ghost(self.next_id@));
        let ghost new_limit = limit;
        let mut hosts = host_table_new();
        std::mem::swap(&mut hosts, &mut self.hosts);
        let mut limiters: Vec<DirectLimiter> = Vec::new();
        std::mem::swap(&mut limiters, &mut self.limiters);
        let ghost table = host_table(hosts);
        match host_table_get(&hosts, config.hostname) {
            Some(i) => {
                limiters.set(i, limit);
            },
            None => {
                let i = limiters.len();
                limiters.push(limit);
                host_table_insert(&mut hosts, config.hostname.to_owned(), i);
            },
        }
        proof {
            self.next_id@ = self.next_id@ + 1;
        }
        self.limiters = limiters;
        self.hosts = hosts;
        assert(self.host_limiters() =~= before.host_limiters().insert(config.hostname@, new_limit));
        assert(self.hosts() =~= before.hosts().insert(config.hostname@, config.base.params()));
    }

    /// Checks if a host is registered.
    pub fn host_exists(&self, host: &str) -> (r: bool)
        ensures
            r == self.hosts().contains_key(host@),
    {
        host_table_contains(&self.hosts, host)
    }

    /// The limiter that a request to a registered host waits for: the host's
    /// own. Errors: `ParseHostError` where `url` does not parse, `NoHostname`
    /// where it has no host, `HostNotFound` with the host where its host is not
    /// registered.
    pub fn host_limiter(&self, url: &str) -> (r: Result<DirectLimiter, HttpClientError>)
        ensures
            match host_lookup(self.hosts(), url@) {
                Ok(q) => r matches Ok(l) && l == self.host_limiters()[url_host(url@)->0] && l@ == q
                    && l.clock() == self.clock(),
                Err(LookupError::BadUrl) => r matches Err(HttpClientError::ParseHostError(e))
                    && e == url_parse_error(url@),
                Err(LookupError::NoHostname) => r matches Err(HttpClientError::NoHostname(s)) && s@ == url@,
                Err(LookupError::NotFound) => r matches Err(HttpClientError::HostNotFound(s))
                    && s@ == url_host(url@)->0,
            },
    {
        proof {
            use_type_invariant(self);
        }
        let host = get_host(url)?;
        match host_table_get(&self.hosts, host.as_str()) {
            Some(i) => Ok(self.limiters[i].share()),
            None => Err(HttpClientError::HostNotFound(host)),
        }
    }

    /// The limiter that every request made with the global quota waits for.
    pub fn global_limiter(&self) -> (l: &DirectLimiter)
        ensures
            *l == self.global(),
            l@ == self.global_quota(),
            l.clock() == self.clock(),
    {
        proof {
            use_type_invariant(self);
        }
        &self.config.limit
    }
}

} // verus!
