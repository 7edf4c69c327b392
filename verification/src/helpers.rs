//! Building quotas from configurations, and reading the host of a url.
use vstd::prelude::*;
use url::Url;
use crate::errors::HttpClientError;
use crate::models::TimeInterval;
use crate::types::{quota_allow_burst, quota_per_hour, quota_per_minute, quota_per_second, RateQuota};

verus! {

/// The quota parameters `(replenish interval in nanoseconds, burst size)` of
/// `quota` cells per `interval`, holding at most `burst` cells: the interval is
/// split evenly between the cells, in whole nanoseconds rounded down.
pub open spec fn quota_params(quota: nat, burst: nat, interval: TimeInterval) -> (nat, nat) {
    (interval.nanos() / quota, burst)
}

/// The interval is split evenly between the cells of a quota: `quota` cells of
/// the replenish interval fit in the interval, and one more would not.
pub proof fn law_interval_split(quota: nat, burst: nat, interval: TimeInterval)
    requires
        quota > 0,
    ensures
        quota_params(quota, burst, interval).0 * quota <= interval.nanos(),
        interval.nanos() < (quota_params(quota, burst, interval).0 + 1) * quota,
        quota_params(quota, burst, interval).1 == burst,
{
    let n: nat = interval.nanos();
    let r: nat = n / quota;
    assert(r * quota <= n && n < (r + 1) * quota) by (nonlinear_arith)
        requires
            quota > 0,
            r == n / quota,
    ;
}

/// Only the rate counts: `60 * quota` cells per minute is the quota of `quota`
/// cells per second, and `60 * quota` cells per hour is that of `quota` cells per
/// minute.
pub proof fn law_same_rate(quota: nat, burst: nat)
    requires
        quota > 0,
    ensures
        quota_params(60 * quota, burst, TimeInterval::ByMinutes) == quota_params(quota, burst, TimeInterval::BySeconds),
        quota_params(60 * quota, burst, TimeInterval::ByHours) == quota_params(quota, burst, TimeInterval::ByMinutes),
{
    assert((60_000_000_000nat / (60 * quota)) == 1_000_000_000nat / quota) by (nonlinear_arith)
        requires
            quota > 0,
    {
        vstd::arithmetic::div_mod::lemma_div_multiples_vanish(1_000_000_000int, quota as int);
    }
    assert((3_600_000_000_000nat / (60 * quota)) == 60_000_000_000nat / quota) by (nonlinear_arith)
        requires
            quota > 0,
    {
        vstd::arithmetic::div_mod::lemma_div_multiples_vanish(60_000_000_000int, quota as int);
    }
}

/// Builds the quota of `quota` cells per `interval` with a burst of `burst` cells.
pub fn build_quota(quota: u32, burst: u32, interval: TimeInterval) -> (q: RateQuota)
    requires
        quota > 0,
        burst > 0,
    ensures
        q@ == quota_params(quota as nat, burst as nat, interval),
{
    let base = match interval {
        TimeInterval::ByHours => quota_per_hour(quota),
        TimeInterval::ByMinutes => quota_per_minute(quota),
        TimeInterval::BySeconds => quota_per_second(quota),
    };
    quota_allow_burst(base, burst)
}

/// What is read of a parsed url: its host, if it has one.
pub struct UrlParts {
    pub host: Option<String>,
}

/// The view of an optional string.
pub open spec fn opt_str_view(s: Option<String>) -> Option<Seq<char>> {
    match s {
        Some(s) => Some(s@),
        None => None,
    }
}

/// Whether `url::Url::parse` accepts the input.
pub uninterp spec fn url_parses(input: Seq<char>) -> bool;

/// The error that `url::Url::parse` gives for the input, where it refuses it.
pub uninterp spec fn url_parse_error(input: Seq<char>) -> url::ParseError;

/// `url::Url::host_str` of the url that `url::Url::parse` makes of the input.
pub uninterp spec fn url_host(input: Seq<char>) -> Option<Seq<char>>;

/// `url::Url::parse`, with the parsed url read as its host (`url::Url::host_str`).
/// The contract says that the outcome depends on the input alone, through the
/// names `url_parses`, `url_host` and `url_parse_error`; what the WHATWG url
/// grammar makes of an input is not stated.
#[verifier::external_body]
fn parse_url(input: &str) -> (r: Result<UrlParts, url::ParseError>)
    ensures
        r is Ok <==> url_parses(input@),
        r matches Ok(p) ==> opt_str_view(p.host) == url_host(input@),
        r matches Err(e) ==> e == url_parse_error(input@),
{
    match Url::parse(input) {
        Ok(u) => Ok(UrlParts { host: u.host_str().map(str::to_owned) }),
        Err(e) => Err(e),
    }
}

/// The host of a url, given what parsing `url` gave: the parse error, the host,
/// or `NoHostname` with the url when it has none.
pub fn host_from_parsed(url: &str, parsed: Result<UrlParts, url::ParseError>) -> (r: Result<String, HttpClientError>)
    ensures
        parsed matches Err(e) ==> r == Err::<String, HttpClientError>(HttpClientError::ParseHostError(e)),
        parsed matches Ok(p) ==> match p.host {
            Some(h) => r matches Ok(s) && s@ == h@,
            None => r matches Err(HttpClientError::NoHostname(s)) && s@ == url@,
        },
{
    match parsed {
        Ok(p) => match p.host {
            Some(h) => Ok(h),
            None => Err(HttpClientError::NoHostname(url.to_owned())),
        },
        Err(e) => Err(HttpClientError::ParseHostError(e)),
    }
}

/// The hostname of `url`.
pub fn get_host(url: &str) -> (r: Result<String, HttpClientError>)
    ensures
        !url_parses(url@) <==> r matches Err(HttpClientError::ParseHostError(_)),
        !url_parses(url@) ==> r == Err::<String, HttpClientError>(HttpClientError::ParseHostError(url_parse_error(url@))),
        url_parses(url@) && url_host(url@) is None ==> (r matches Err(HttpClientError::NoHostname(s)) && s@ == url@),
        url_parses(url@) && url_host(url@) is Some ==> (r matches Ok(s) && s@ == url_host(url@)->0),
{
    let parsed = parse_url(url);
    host_from_parsed(url, parsed)
}

} // verus!
