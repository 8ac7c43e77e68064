use sensor_node::bring_up::{
    await_link, check_credentials, first_request, is_acceptable, link_is_up, next_request,
    BringUpRequest, MAX_PASSPHRASE_LEN, MAX_SSID_LEN,
};
use sensor_node::config::Config;
use sensor_node::fault::{Fault, Severity};
use sensor_node::waiter::{Pause, WaitOutcome};
use std::cell::Cell;

const SSID_32: &str = "abcdefghijklmnopqrstuvwxyz012345";
const SSID_33: &str = "abcdefghijklmnopqrstuvwxyz0123456";
const PASS_64: &str = "0123456789abcdef0123456789abcdef0123456789abcdef0123456789abcdef";
const PASS_65: &str = "0123456789abcdef0123456789abcdef0123456789abcdef0123456789abcdefX";

fn config(ssid: &'static str, password: &'static str, timeout: u64) -> Config {
    Config {
        mqtt_host: "broker",
        mqtt_user: "user",
        mqtt_pass: "pass",
        wifi_ssid: ssid,
        wifi_password: password,
        start_delay_sec: 0,
        wifi_connect_timeout_sec: timeout,
    }
}

/// Runs bring-up against a driver that gives `replies`, and records every request made.
fn run(config: &Config, replies: &[bool]) -> Vec<BringUpRequest> {
    let mut requests = vec![first_request()];
    for ok in replies {
        let next = next_request(config, *requests.last().unwrap(), *ok);
        requests.push(next);
    }
    requests
}

#[test]
fn bring_up_succeeds_after_exactly_three_sleeps() {
    let config = config("home", "secret123", 5);
    let slept = Cell::new(0u64);
    let mut request = first_request();
    let mut seen = Vec::new();
    loop {
        seen.push(request);
        let ok = match request {
            BringUpRequest::Connected => break,
            BringUpRequest::Abort(fault) => panic!("bring-up failed: {:?}", fault),
            BringUpRequest::AwaitLink { timeout_sec } => {
                let status = || -> Result<bool, ()> { Ok(slept.get() >= 3) };
                let outcome = await_link(
                    status,
                    |pause: Pause| slept.set(slept.get() + pause.seconds),
                    timeout_sec,
                );
                assert_eq!(outcome, WaitOutcome { satisfied: true, sleeps: 3 });
                outcome.satisfied
            }
            _ => true,
        };
        request = next_request(&config, request, ok);
    }
    assert_eq!(slept.get(), 3);
    assert_eq!(
        seen,
        vec![
            BringUpRequest::CreateDriver,
            BringUpRequest::Configure { ssid: "home", passphrase: "secret123" },
            BringUpRequest::Start,
            BringUpRequest::Connect,
            BringUpRequest::AwaitLink { timeout_sec: 5 },
            BringUpRequest::Connected,
        ]
    );
}

#[test]
fn ssid_longer_than_the_driver_takes_fails_before_the_network() {
    let config = config(SSID_33, "secret123", 5);
    let requests = run(&config, &[true, true, true, true, true]);
    assert_eq!(requests[0], BringUpRequest::CreateDriver);
    for request in &requests[1..] {
        assert_eq!(*request, BringUpRequest::Abort(Fault::InvalidSsid));
    }
}

#[test]
fn passphrase_longer_than_the_driver_takes_fails_before_the_network() {
    let config = config("home", PASS_65, 5);
    let requests = run(&config, &[true, true, true]);
    assert_eq!(requests[0], BringUpRequest::CreateDriver);
    for request in &requests[1..] {
        assert_eq!(*request, BringUpRequest::Abort(Fault::InvalidPassphrase));
    }
}

#[test]
fn both_credentials_too_long_reports_the_ssid() {
    assert_eq!(check_credentials(SSID_33, PASS_65), Err(Fault::InvalidSsid));
}

#[test]
fn credentials_at_the_limit_are_accepted() {
    assert_eq!(SSID_32.len(), MAX_SSID_LEN);
    assert_eq!(PASS_64.len(), MAX_PASSPHRASE_LEN);
    assert_eq!(check_credentials(SSID_32, PASS_64), Ok(()));
    assert_eq!(check_credentials("", ""), Ok(()));
}

#[test]
fn length_is_counted_in_bytes() {
    // eleven characters of three bytes each
    let wide = "\u{20ac}\u{20ac}\u{20ac}\u{20ac}\u{20ac}\u{20ac}\u{20ac}\u{20ac}\u{20ac}\u{20ac}\u{20ac}";
    assert_eq!(wide.chars().count(), 11);
    assert_eq!(wide.len(), 33);
    assert!(!is_acceptable(wide, MAX_SSID_LEN));
    assert!(is_acceptable(wide, MAX_PASSPHRASE_LEN));
    assert_eq!(check_credentials(wide, "secret123"), Err(Fault::InvalidSsid));
}

#[test]
fn unset_credentials_are_refused() {
    assert!(!is_acceptable("INVALID", MAX_SSID_LEN));
    assert!(is_acceptable("INVALIE", MAX_SSID_LEN));
    assert!(is_acceptable("INVALID ", MAX_SSID_LEN));
    assert!(is_acceptable("INVALI", MAX_SSID_LEN));
    assert_eq!(check_credentials("INVALID", "secret123"), Err(Fault::InvalidSsid));
    assert_eq!(check_credentials("home", "INVALID"), Err(Fault::InvalidPassphrase));
    let requests = run(&Config::default(), &[true, true]);
    assert_eq!(requests[1], BringUpRequest::Abort(Fault::InvalidSsid));
    assert_eq!(requests[2], BringUpRequest::Abort(Fault::InvalidSsid));
}

#[test]
fn every_driver_failure_ends_bring_up_with_its_fault() {
    let config = config("home", "secret123", 5);
    let faults = [
        Fault::DriverUnavailable,
        Fault::ConfigurationRejected,
        Fault::StartFailed,
        Fault::ConnectFailed,
        Fault::ConnectTimeout,
    ];
    for (failing, fault) in faults.iter().enumerate() {
        let mut replies = vec![true; failing];
        replies.push(false);
        replies.push(true);
        let requests = run(&config, &replies);
        assert_eq!(requests[failing + 1], BringUpRequest::Abort(*fault));
        assert_eq!(requests[failing + 2], BringUpRequest::Abort(*fault));
        assert_eq!(fault.severity(), Severity::Fatal);
    }
}

#[test]
fn link_that_never_comes_up_aborts_after_the_whole_timeout() {
    let config = config("home", "secret123", 4);
    let slept = Cell::new(0u64);
    let mut request = first_request();
    for _ in 0..4 {
        request = next_request(&config, request, true);
    }
    assert_eq!(request, BringUpRequest::AwaitLink { timeout_sec: 4 });
    let outcome = await_link(
        || -> Result<bool, ()> { Ok(false) },
        |pause: Pause| slept.set(slept.get() + pause.seconds),
        4,
    );
    assert_eq!(outcome, WaitOutcome { satisfied: false, sleeps: 4 });
    assert_eq!(slept.get(), 4);
    let end = next_request(&config, request, outcome.satisfied);
    assert_eq!(end, BringUpRequest::Abort(Fault::ConnectTimeout));
    assert_eq!(Fault::ConnectTimeout.severity(), Severity::Fatal);
    assert_eq!(Fault::ConnectTimeout.message(), "Failed to connect to Wi-Fi!");
}

#[test]
fn connected_stays_connected() {
    let config = config("home", "secret123", 5);
    let requests = run(&config, &[true, true, true, true, true, false, true]);
    assert_eq!(requests[5], BringUpRequest::Connected);
    assert_eq!(requests[6], BringUpRequest::Connected);
    assert_eq!(requests[7], BringUpRequest::Connected);
}

#[test]
fn failed_status_query_counts_as_not_connected() {
    assert!(link_is_up::<()>(Ok(true)));
    assert!(!link_is_up::<()>(Ok(false)));
    assert!(!link_is_up(Err("no answer")));
}

#[test]
fn status_errors_during_the_wait_do_not_end_it() {
    let asked = Cell::new(0u32);
    let slept = Cell::new(0u64);
    let status = || -> Result<bool, &'static str> {
        asked.set(asked.get() + 1);
        match asked.get() {
            1 => Err("busy"),
            2 => Ok(false),
            3 => Err("busy"),
            _ => Ok(true),
        }
    };
    let outcome = await_link(status, |pause: Pause| slept.set(slept.get() + pause.seconds), 10);
    assert_eq!(outcome, WaitOutcome { satisfied: true, sleeps: 3 });
    assert_eq!(slept.get(), 3);
    assert_eq!(asked.get(), 5);
}
