use governor::clock::FakeRelativeClock;
use rate_limit_client::cli::{blank, CliArgs, CliErrors};
use rate_limit_client::configs::{Config, ConfigWithClock, HostConfig};
use rate_limit_client::errors::HttpClientError;
use rate_limit_client::helpers::{build_quota, get_host, host_from_parsed, UrlParts};
use rate_limit_client::{RateLimitClient, TimeInterval};
use std::time::Duration;

fn config(quota: u32, burst: u32, interval: TimeInterval) -> Config {
    Config { quota, burst, interval }
}

fn fake_client(global: Config) -> (RateLimitClient, FakeRelativeClock) {
    let clock = FakeRelativeClock::default();
    let client = RateLimitClient::build_with_clock(ConfigWithClock { base: global, clock: clock.clone() });
    (client, clock)
}

#[test]
fn quota_ten_per_minute_is_one_every_six_seconds() {
    let q = build_quota(10, 2, TimeInterval::ByMinutes);
    assert_eq!(q.replenish_interval_nanos(), 6_000_000_000);
    assert_eq!(q.burst_size(), 2);
}

#[test]
fn quota_rounds_the_interval_down() {
    assert_eq!(build_quota(3, 1, TimeInterval::BySeconds).replenish_interval_nanos(), 333_333_333);
    assert_eq!(build_quota(7, 4, TimeInterval::ByHours).replenish_interval_nanos(), 514_285_714_285);
    assert_eq!(build_quota(7, 4, TimeInterval::ByHours).burst_size(), 4);
    assert_eq!(build_quota(1, 1, TimeInterval::ByHours).replenish_interval_nanos(), 3_600_000_000_000);
}

#[test]
fn same_rate_in_other_units() {
    let per_minute = build_quota(60, 1, TimeInterval::ByMinutes);
    let per_second = build_quota(1, 1, TimeInterval::BySeconds);
    assert_eq!(per_minute.replenish_interval_nanos(), per_second.replenish_interval_nanos());
    let per_hour = build_quota(120, 3, TimeInterval::ByHours);
    let per_minute = build_quota(2, 3, TimeInterval::ByMinutes);
    assert_eq!(per_hour.replenish_interval_nanos(), per_minute.replenish_interval_nanos());
}

#[test]
fn burst_of_two_refills_after_twelve_seconds() {
    let (client, clock) = fake_client(config(10, 2, TimeInterval::ByMinutes));
    let url = "https://api.github.com/users/user1";
    assert!(client.global_limit_is_ok(url));
    assert!(client.global_limit_is_ok(url));
    assert!(client.global_limit_is_err(url));
    clock.advance(Duration::from_secs(6));
    assert!(client.global_limit_is_ok(url));
    assert!(client.global_limit_is_err(url));
    clock.advance(Duration::from_secs(12));
    assert!(client.global_limit_is_ok(url));
    assert!(client.global_limit_is_ok(url));
    assert!(client.global_limit_is_err(url));
}

#[test]
fn host_of_url() {
    assert_eq!(get_host("https://httpbin.org/get").unwrap(), "httpbin.org");
    assert_eq!(get_host("http://127.0.0.1:8080/test").unwrap(), "127.0.0.1");
    match get_host("not a url") {
        Err(HttpClientError::ParseHostError(e)) => assert_eq!(e, url::ParseError::RelativeUrlWithoutBase),
        other => panic!("unexpected {:?}", other),
    }
    match get_host("data:text/plain,hi") {
        Err(HttpClientError::NoHostname(u)) => assert_eq!(u, "data:text/plain,hi"),
        other => panic!("unexpected {:?}", other),
    }
}

#[test]
fn host_from_each_parse_outcome() {
    match host_from_parsed("http://[", Err(url::ParseError::InvalidIpv6Address)) {
        Err(HttpClientError::ParseHostError(e)) => assert_eq!(e, url::ParseError::InvalidIpv6Address),
        other => panic!("unexpected {:?}", other),
    }
    match host_from_parsed("mailto:a@b.c", Ok(UrlParts { host: None })) {
        Err(HttpClientError::NoHostname(u)) => assert_eq!(u, "mailto:a@b.c"),
        other => panic!("unexpected {:?}", other),
    }
    let host = host_from_parsed("https://a.b/c", Ok(UrlParts { host: Some("a.b".to_string()) }));
    assert_eq!(host.unwrap(), "a.b");
}

#[test]
fn unregistered_host_is_not_found() {
    let mut client = RateLimitClient::build(config(10, 10, TimeInterval::ByHours));
    client.build_host(HostConfig { base: config(10, 10, TimeInterval::ByHours), hostname: "httpbin" });
    match client.host_limiter("http://127.0.0.1:4000/test") {
        Err(HttpClientError::HostNotFound(h)) => assert_eq!(h, "127.0.0.1"),
        _ => panic!("expected HostNotFound"),
    }
    match client.host_limiter("no url") {
        Err(HttpClientError::ParseHostError(_)) => {}
        _ => panic!("expected ParseHostError"),
    }
    match client.host_limiter("data:text/plain,hi") {
        Err(HttpClientError::NoHostname(u)) => assert_eq!(u, "data:text/plain,hi"),
        _ => panic!("expected NoHostname"),
    }
    assert_eq!(client.try_host_limit_is_ok("http://127.0.0.1:4000/test"), None);
    assert_eq!(client.try_host_limit_is_ok("no url"), None);
    assert!(!client.host_exists("127.0.0.1"));
    assert!(client.host_exists("httpbin"));
}

#[test]
fn registered_host_uses_its_own_quota() {
    let mut client = RateLimitClient::build(config(10, 2, TimeInterval::ByMinutes));
    client.build_host(HostConfig { base: config(10, 10, TimeInterval::ByHours), hostname: "127.0.0.1" });
    let limiter = client.host_limiter("http://127.0.0.1:4000/test").ok().unwrap();
    assert_eq!(limiter.quota().replenish_interval_nanos(), 360_000_000_000);
    assert_eq!(limiter.quota().burst_size(), 10);
    let global = client.global_limiter().quota();
    assert_eq!(global.replenish_interval_nanos(), 6_000_000_000);
    assert_eq!(global.burst_size(), 2);
}

#[test]
fn registering_again_replaces_the_quota() {
    let mut client = RateLimitClient::build(config(1, 1, TimeInterval::ByHours));
    client.build_host(HostConfig { base: config(1, 1, TimeInterval::ByHours), hostname: "example.com" });
    client.build_host(HostConfig { base: config(1, 5, TimeInterval::BySeconds), hostname: "example.com" });
    let q = client.host_limiter("https://example.com/x").ok().unwrap().quota();
    assert_eq!(q.replenish_interval_nanos(), 1_000_000_000);
    assert_eq!(q.burst_size(), 5);
}

#[test]
fn registrations_in_either_order() {
    let a = HostConfig { base: config(2, 1, TimeInterval::ByMinutes), hostname: "a.example" };
    let b = HostConfig { base: config(3, 2, TimeInterval::BySeconds), hostname: "b.example" };
    let mut first = RateLimitClient::build(config(1, 1, TimeInterval::ByHours));
    first.build_host(a);
    first.build_host(b);
    let mut second = RateLimitClient::build(config(1, 1, TimeInterval::ByHours));
    second.build_host(b);
    second.build_host(a);
    for url in ["http://a.example/", "http://b.example/"] {
        let x = first.host_limiter(url).ok().unwrap().quota();
        let y = second.host_limiter(url).ok().unwrap().quota();
        assert_eq!(x.replenish_interval_nanos(), y.replenish_interval_nanos());
        assert_eq!(x.burst_size(), y.burst_size());
    }
}

#[test]
fn host_limit_is_shared_by_the_host_urls_only() {
    let (mut client, _clock) = fake_client(config(1, 1, TimeInterval::ByHours));
    client.build_host(HostConfig { base: config(1, 1, TimeInterval::ByHours), hostname: "a.example" });
    assert_eq!(client.try_host_limit_is_ok("http://a.example/one"), Some(true));
    assert_eq!(client.try_host_limit_is_ok("http://a.example/two"), Some(false));
    assert!(client.global_limit_is_ok("http://a.example/one"));
    assert_eq!(client.try_host_limit_is_ok("http://b.example/"), None);
}

#[test]
fn blank_arguments() {
    assert!(blank(""));
    assert!(blank(" \t\n"));
    assert!(blank("\u{A0}"));
    assert!(!blank(" a "));
}

#[test]
fn amount_parsing() {
    let ok = |s: &str| CliArgs::format_usr_args(vec!["e".to_string(), s.to_string()]);
    assert_eq!(ok("+5").unwrap().req_amount, 5);
    assert_eq!(ok("-2147483648").unwrap().req_amount, i32::MIN);
    assert_eq!(ok("2147483647").unwrap().req_amount, i32::MAX);
    assert_eq!(ok("2147483648").unwrap_err(), CliErrors::InvalidArgumentFormat);
    assert_eq!(ok(" 10").unwrap_err(), CliErrors::InvalidArgumentFormat);
    assert_eq!(ok("-").unwrap_err(), CliErrors::InvalidArgumentFormat);
    assert_eq!(ok("1_0").unwrap_err(), CliErrors::InvalidArgumentFormat);
}

#[test]
fn argument_errors_in_order() {
    let args = |v: &[&str]| CliArgs::format_usr_args(v.iter().map(|s| s.to_string()).collect());
    assert_eq!(args(&[]).unwrap_err(), CliErrors::MissingArguments);
    assert_eq!(args(&[" ", "x"]).unwrap_err(), CliErrors::EmptyArguments);
    assert_eq!(args(&["e", "x", "  "]).unwrap_err(), CliErrors::EmptyArguments);
    let a = args(&["http://h", "7", "extra"]).unwrap();
    assert_eq!(a.endpoint, "http://h");
    assert_eq!(a.req_amount, 7);
}

#[test]
fn error_messages() {
    assert_eq!(HttpClientError::HostNotFound("h.example".to_string()).message(), "Host not registred: h.example");
    assert_eq!(HttpClientError::NoHostname("data:,x".to_string()).message(), "The url does not have a host: data:,x");
    let m = HttpClientError::ParseHostError(url::ParseError::EmptyHost).message();
    assert!(m.starts_with("Invalid url: "));
    assert_eq!(m, "Invalid url: empty host");
}

#[test]
fn message_with_detail() {
    let e = HttpClientError::ParseHostError(url::ParseError::EmptyHost);
    assert_eq!(e.message_with("x"), "Invalid url: x");
    let e = HttpClientError::NoHostname(String::new());
    assert_eq!(e.message_with("data:,y"), "The url does not have a host: data:,y");
}

#[test]
fn host_exists_follows_registrations() {
    let mut client = RateLimitClient::build(config(1, 1, TimeInterval::ByHours));
    let names = ["a.example", "b.example", "a.example", "coolhost.com"];
    for (i, name) in names.iter().enumerate() {
        client.build_host(HostConfig { base: config(i as u32 + 1, 1, TimeInterval::BySeconds), hostname: name });
    }
    assert!(client.host_exists("a.example"));
    assert!(client.host_exists("b.example"));
    assert!(client.host_exists("coolhost.com"));
    assert!(!client.host_exists("http://coolhost.com"));
    assert!(!client.host_exists("c.example"));
    let a = client.host_limiter("http://a.example/").ok().unwrap().quota();
    assert_eq!(a.replenish_interval_nanos(), 1_000_000_000 / 3);
}

#[test]
fn reregistration_gives_a_fresh_limiter() {
    let (mut client, _clock) = fake_client(config(1, 1, TimeInterval::ByHours));
    let host = HostConfig { base: config(1, 1, TimeInterval::ByHours), hostname: "a.example" };
    client.build_host(host);
    assert!(client.host_limit_is_ok("http://a.example/"));
    assert!(!client.host_limit_is_ok("http://a.example/"));
    client.build_host(host);
    assert!(client.host_limit_is_ok("http://a.example/"));
    assert!(!client.host_limit_is_ok("http://a.example/"));
}

#[test]
fn host_limiter_is_the_host_own_limiter() {
    let (mut client, _clock) = fake_client(config(1, 1, TimeInterval::ByHours));
    client.build_host(HostConfig { base: config(1, 2, TimeInterval::ByHours), hostname: "a.example" });
    let first = client.host_limiter("http://a.example/x").ok().unwrap();
    let second = client.host_limiter("http://a.example/y").ok().unwrap();
    assert!(first.check());
    assert!(second.check());
    assert!(!first.check());
    assert!(!client.host_limit_is_ok("http://a.example/z"));
}

#[test]
fn registering_keeps_the_global_limiter_and_other_hosts() {
    let (mut client, clock) = fake_client(config(1, 1, TimeInterval::ByHours));
    client.build_host(HostConfig { base: config(1, 1, TimeInterval::ByHours), hostname: "a.example" });
    assert!(client.global_limit_is_ok("http://x/"));
    assert!(client.host_limit_is_ok("http://a.example/"));
    client.build_host(HostConfig { base: config(1, 1, TimeInterval::ByHours), hostname: "b.example" });
    assert!(client.global_limit_is_err("http://x/"));
    assert!(!client.host_limit_is_ok("http://a.example/"));
    assert!(client.host_limit_is_ok("http://b.example/"));
    clock.advance(Duration::from_hours(1));
    assert!(client.global_limit_is_ok("http://x/"));
    assert!(client.host_limit_is_ok("http://a.example/"));
}
