use archive_health::probe::{normalize_target, root_outcome, status_failure, transport_failure};
use archive_health::{HeadOutcome, HttpStatus, Probe, ProbeOutcome, ProbeStep};

fn status(code: u16) -> HeadOutcome {
    HeadOutcome::Status(HttpStatus::new(code).unwrap())
}

fn failed(details: &str) -> HeadOutcome {
    HeadOutcome::Failed { details: details.to_string() }
}

fn unhealthy(reason: &str) -> ProbeOutcome {
    ProbeOutcome::Unhealthy { reason: reason.to_string() }
}

/// Runs a probe to its end and returns the outcome with the URLs it asked for.
fn probe_with(target: &str, metadata: HeadOutcome, root: HeadOutcome) -> (ProbeOutcome, Vec<String>) {
    let mut asked = Vec::new();
    let mut answers = vec![root, metadata];
    let mut probe = Probe::new(target);
    loop {
        asked.push(probe.request_url());
        let answer = answers.pop().expect("a probe asks at most twice");
        match probe.on_response(answer) {
            ProbeStep::Continue(next) => probe = next,
            ProbeStep::Done(outcome) => return (outcome, asked),
        }
    }
}

#[test]
fn normalize_takes_one_trailing_separator_off() {
    assert_eq!(normalize_target("http://archive.example/"), "http://archive.example");
    assert_eq!(normalize_target("http://archive.example"), "http://archive.example");
    assert_eq!(normalize_target("http://archive.example//"), "http://archive.example/");
    assert_eq!(normalize_target("http://archive.example/a/b/"), "http://archive.example/a/b");
    assert_eq!(normalize_target("/"), "");
    assert_eq!(normalize_target(""), "");
    assert_eq!(normalize_target("not a url"), "not a url");
    assert_eq!(normalize_target("http://archiv\u{e9}.example/\u{fc}/"), "http://archiv\u{e9}.example/\u{fc}");
}

#[test]
fn probe_asks_for_the_metadata_file_first() {
    let probe = Probe::new("http://archive.example/");
    assert_eq!(
        probe.request_url(),
        "http://archive.example/.well-known/stellar-history.json"
    );
    let probe = Probe::new("http://archive.example");
    assert_eq!(
        probe.request_url(),
        "http://archive.example/.well-known/stellar-history.json"
    );
}

#[test]
fn metadata_success_ends_the_probe_without_a_root_check() {
    let (outcome, asked) = probe_with("http://archive.example", status(200), status(500));
    assert_eq!(outcome, ProbeOutcome::Healthy);
    assert_eq!(asked, vec!["http://archive.example/.well-known/stellar-history.json"]);
}

#[test]
fn missing_metadata_falls_back_to_the_root() {
    let (outcome, asked) = probe_with("http://archive.example/", status(404), status(200));
    assert_eq!(outcome, ProbeOutcome::Healthy);
    assert_eq!(
        asked,
        vec![
            "http://archive.example/.well-known/stellar-history.json",
            "http://archive.example"
        ]
    );
}

#[test]
fn failing_on_both_checks_is_unhealthy_with_the_root_status() {
    let (outcome, asked) = probe_with("http://archive.example", status(500), status(500));
    assert_eq!(outcome, unhealthy("Archive returned HTTP 500 Internal Server Error"));
    assert_eq!(asked.len(), 2);

    let (outcome, _) = probe_with("http://archive.example", status(500), status(404));
    assert_eq!(outcome, unhealthy("Archive returned HTTP 404 Not Found"));
}

#[test]
fn the_metadata_answer_never_shows_in_the_reason() {
    let (outcome, _) = probe_with("http://archive.example", status(403), status(503));
    assert_eq!(outcome, unhealthy("Archive returned HTTP 503 Service Unavailable"));

    let (outcome, _) = probe_with("http://archive.example", failed("dns error"), status(503));
    assert_eq!(outcome, unhealthy("Archive returned HTTP 503 Service Unavailable"));

    let (outcome, _) = probe_with("http://archive.example", failed("dns error"), status(204));
    assert_eq!(outcome, ProbeOutcome::Healthy);
}

#[test]
fn unreachable_archive_reports_a_connection_failure() {
    let (outcome, asked) = probe_with(
        "http://localhost:1",
        failed("error sending request"),
        failed("tcp connect error: Connection refused"),
    );
    assert_eq!(asked, vec!["http://localhost:1/.well-known/stellar-history.json", "http://localhost:1"]);
    match outcome {
        ProbeOutcome::Unhealthy { reason } => {
            assert_eq!(reason, "Connection failed: tcp connect error: Connection refused");
            assert!(!reason.contains("Archive returned HTTP"));
        }
        ProbeOutcome::Healthy => panic!("an unreachable archive is not healthy"),
    }
}

#[test]
fn only_the_2xx_class_is_success() {
    for code in 100..=999u16 {
        let (outcome, asked) = probe_with("http://archive.example", status(code), status(code));
        let success = (200..300).contains(&code);
        assert_eq!(HttpStatus::new(code).unwrap().is_success(), success);
        assert_eq!(outcome == ProbeOutcome::Healthy, success);
        assert_eq!(asked.len(), if success { 1 } else { 2 });
    }
}

#[test]
fn redirects_and_informational_answers_at_the_root_are_unhealthy() {
    assert_eq!(root_outcome(status(199)), unhealthy("Archive returned HTTP 199 <unknown status code>"));
    assert_eq!(root_outcome(status(200)), ProbeOutcome::Healthy);
    assert_eq!(root_outcome(status(299)), ProbeOutcome::Healthy);
    assert_eq!(root_outcome(status(300)), unhealthy("Archive returned HTTP 300 Multiple Choices"));
    assert_eq!(root_outcome(status(301)), unhealthy("Archive returned HTTP 301 Moved Permanently"));
    assert_eq!(root_outcome(failed("")), unhealthy("Connection failed: "));
}

#[test]
fn status_is_a_number_from_100_to_999() {
    assert!(HttpStatus::new(0).is_none());
    assert!(HttpStatus::new(99).is_none());
    assert!(HttpStatus::new(1000).is_none());
    assert!(HttpStatus::new(u16::MAX).is_none());
    for code in [100u16, 200, 404, 599, 999] {
        assert_eq!(HttpStatus::new(code).unwrap().as_u16(), code);
    }
}

#[test]
fn status_text_is_the_number_and_the_reason_phrase() {
    assert_eq!(HttpStatus::new(200).unwrap().to_text(), "200 OK");
    assert_eq!(HttpStatus::new(100).unwrap().to_text(), "100 Continue");
    assert_eq!(HttpStatus::new(503).unwrap().to_text(), "503 Service Unavailable");
    assert_eq!(HttpStatus::new(999).unwrap().to_text(), "999 <unknown status code>");
    for code in 100..=999u16 {
        let text = HttpStatus::new(code).unwrap().to_text();
        assert!(text.starts_with(&format!("{code} ")));
        assert!(text.len() > 4);
    }
}

#[test]
fn reasons_are_worded_by_kind_of_failure() {
    assert_eq!(
        status_failure("502 Bad Gateway"),
        unhealthy("Archive returned HTTP 502 Bad Gateway")
    );
    assert_eq!(status_failure(""), unhealthy("Archive returned HTTP "));
    assert_eq!(
        transport_failure("dns error: no such host"),
        unhealthy("Connection failed: dns error: no such host")
    );
    assert_ne!(transport_failure("x"), status_failure("x"));
}
