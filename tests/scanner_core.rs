use night_tool::dispatch::{range_plan, top_ports_plan, ScanPlan, ScanRun, BASE_BACKOFF_MS};
use night_tool::retry::{RetryPolicy, RetryState};
use night_tool::scanner::{classify_probe, decode_banner, keep_banner, PortStatus, ProbeEvent, ScanResult};
use night_tool::services::identify_service;

#[test]
fn identify_service_known_ports() {
    assert_eq!(identify_service(21), "ftp");
    assert_eq!(identify_service(80), "http");
    assert_eq!(identify_service(443), "https");
    assert_eq!(identify_service(8443), "https-alt");
    assert_eq!(identify_service(9200), "elasticsearch");
}

#[test]
fn identify_service_unknown_ports() {
    assert_eq!(identify_service(1), "unknown");
    assert_eq!(identify_service(0), "unknown");
    assert_eq!(identify_service(65535), "unknown");
}

#[test]
fn status_labels() {
    assert_eq!(PortStatus::Open.as_str(), "open");
    assert_eq!(PortStatus::Closed.as_str(), "closed");
    assert_eq!(PortStatus::Timeout.as_str(), "timeout");
    assert_eq!(PortStatus::Done.as_str(), "DONE");
}

#[test]
fn classify_timeout_reports_budget() {
    let r = classify_probe(22, 3000, ProbeEvent::ConnectTimedOut);
    assert_eq!(r.port, 22);
    assert_eq!(r.status, PortStatus::Timeout);
    assert_eq!(r.service, "ssh");
    assert_eq!(r.response_ms, 3000);
    assert!(r.banner.is_none());
}

#[test]
fn classify_failed_connect_is_closed() {
    let r = classify_probe(81, 3000, ProbeEvent::ConnectFailed { elapsed_ms: 4 });
    assert_eq!(r.status, PortStatus::Closed);
    assert_eq!(r.service, "unknown");
    assert_eq!(r.response_ms, 4);
    assert!(r.banner.is_none());
}

#[test]
fn classify_open_with_banner_is_trimmed() {
    let received = b"  SSH-2.0-OpenSSH_9.6\r\n".to_vec();
    let r = classify_probe(22, 2000, ProbeEvent::Connected { received, elapsed_ms: 12 });
    assert_eq!(r.status, PortStatus::Open);
    assert_eq!(r.response_ms, 12);
    assert_eq!(r.banner.as_deref(), Some("SSH-2.0-OpenSSH_9.6"));
}

#[test]
fn classify_open_silent_has_no_banner() {
    let r = classify_probe(80, 2000, ProbeEvent::Connected { received: Vec::new(), elapsed_ms: 501 });
    assert_eq!(r.status, PortStatus::Open);
    assert_eq!(r.service, "http");
    assert!(r.banner.is_none());
}

#[test]
fn whitespace_only_banner_is_dropped() {
    assert!(decode_banner(b" \r\n\t ").is_none());
    assert!(keep_banner(String::new()).is_none());
    assert_eq!(keep_banner("x".to_string()).as_deref(), Some("x"));
}

#[test]
fn invalid_utf8_banner_is_decoded_leniently() {
    let b = decode_banner(&[0x68, 0x69, 0xff, 0x0a]);
    assert_eq!(b.as_deref(), Some("hi\u{fffd}"));
}

#[test]
fn sentinel_shape() {
    let s = ScanResult::sentinel();
    assert_eq!(s.port, 0);
    assert_eq!(s.status, PortStatus::Done);
    assert_eq!(s.service, "");
    assert_eq!(s.response_ms, 0);
    assert!(s.banner.is_none());
    assert!(s.is_done());
    assert!(!classify_probe(80, 1, ProbeEvent::ConnectTimedOut).is_done());
}

/// Feeds `outcomes` to the retry state; returns the final status and the pauses.
fn drive_retries(policy: &RetryPolicy, outcomes: &[PortStatus]) -> (Option<PortStatus>, Vec<u64>) {
    let mut state = RetryState::new(policy);
    let mut pauses = Vec::new();
    for &s in outcomes {
        match state.on_attempt(policy, s) {
            Some(d) => pauses.push(d),
            None => return (Some(s), pauses),
        }
    }
    (None, pauses)
}

#[test]
fn retry_timeouts_then_open() {
    let policy = RetryPolicy { max_retries: 3, base_backoff_ms: 100 };
    let (last, pauses) = drive_retries(
        &policy,
        &[PortStatus::Timeout, PortStatus::Timeout, PortStatus::Timeout, PortStatus::Open],
    );
    assert_eq!(last, Some(PortStatus::Open));
    assert_eq!(pauses, vec![100, 200, 400]);
}

#[test]
fn retry_conclusive_results_are_final() {
    let policy = RetryPolicy { max_retries: 1, base_backoff_ms: 100 };
    assert_eq!(drive_retries(&policy, &[PortStatus::Closed]), (Some(PortStatus::Closed), vec![]));
    assert_eq!(drive_retries(&policy, &[PortStatus::Open]), (Some(PortStatus::Open), vec![]));
}

#[test]
fn retry_budget_spent_returns_timeout() {
    let policy = RetryPolicy { max_retries: 1, base_backoff_ms: 100 };
    let (last, pauses) = drive_retries(&policy, &[PortStatus::Timeout, PortStatus::Timeout, PortStatus::Open]);
    assert_eq!(last, Some(PortStatus::Timeout));
    assert_eq!(pauses, vec![100]);
}

#[test]
fn top_ports_policy_makes_one_attempt() {
    let plan = top_ports_plan();
    let (last, pauses) = drive_retries(&plan.policy, &[PortStatus::Timeout, PortStatus::Open]);
    assert_eq!(last, Some(PortStatus::Timeout));
    assert!(pauses.is_empty());
}

#[test]
fn range_plan_parameters() {
    let plan = range_plan(79, 81);
    assert_eq!(plan.ports, vec![79, 80, 81]);
    assert_eq!(plan.concurrency, 256);
    assert_eq!(plan.timeout_ms, 3000);
    assert_eq!(plan.policy, RetryPolicy { max_retries: 1, base_backoff_ms: BASE_BACKOFF_MS });
    assert_eq!(range_plan(65535, 65535).ports, vec![65535]);
    assert_eq!(range_plan(1, 65535).ports.len(), 65535);
}

#[test]
fn top_ports_plan_parameters() {
    let plan = top_ports_plan();
    assert_eq!(
        plan.ports,
        vec![21, 22, 23, 25, 53, 80, 110, 143, 443, 445, 3306, 3389, 5432, 5900, 8080, 8443, 9200]
    );
    assert_eq!(plan.concurrency, 128);
    assert_eq!(plan.timeout_ms, 2000);
    assert_eq!(plan.policy.max_retries, 0);
}

/// Runs a whole plan, answering each launched port with `probe`, completing
/// the oldest probe in flight whenever no more can start.
fn run_plan(plan: ScanPlan, probe: &dyn Fn(u16) -> Option<ScanResult>) -> (Vec<ScanResult>, usize) {
    let cap = plan.concurrency;
    let mut run = ScanRun::new(plan);
    let mut stream = Vec::new();
    let mut in_flight: Vec<u16> = Vec::new();
    let mut max_live = 0;
    loop {
        while let Some(p) = run.launch_next() {
            in_flight.push(p);
        }
        max_live = max_live.max(in_flight.len());
        assert!(in_flight.len() <= cap);
        if in_flight.is_empty() {
            break;
        }
        let p = in_flight.remove(0);
        if let Some(r) = run.complete(p, probe(p)) {
            stream.push(r);
        }
    }
    let s = run.finish().expect("sentinel once all probes are done");
    stream.push(s);
    assert!(run.finish().is_none());
    (stream, max_live)
}

#[test]
fn range_scan_one_open_two_closed() {
    let probe = |p: u16| {
        let event = if p == 80 {
            ProbeEvent::Connected { received: Vec::new(), elapsed_ms: 3 }
        } else {
            ProbeEvent::ConnectFailed { elapsed_ms: 1 }
        };
        Some(classify_probe(p, 3000, event))
    };
    let (stream, _) = run_plan(range_plan(79, 81), &probe);
    assert_eq!(stream.len(), 4);
    let mut ports: Vec<u16> = stream[..3].iter().map(|r| r.port).collect();
    ports.sort();
    assert_eq!(ports, vec![79, 80, 81]);
    for r in &stream[..3] {
        if r.port == 80 {
            assert_eq!(r.status, PortStatus::Open);
            assert_eq!(r.service, "http");
        } else {
            assert_eq!(r.status, PortStatus::Closed);
        }
    }
    assert!(stream[3].is_done());
}

#[test]
fn top_ports_scan_without_listeners() {
    let probe = |p: u16| {
        let event = if p % 2 == 0 {
            ProbeEvent::ConnectTimedOut
        } else {
            ProbeEvent::ConnectFailed { elapsed_ms: 2 }
        };
        Some(classify_probe(p, 2000, event))
    };
    let (stream, _) = run_plan(top_ports_plan(), &probe);
    assert_eq!(stream.len(), 18);
    for r in &stream[..17] {
        assert!(r.status == PortStatus::Closed || r.status == PortStatus::Timeout);
        assert_eq!(r.service, identify_service(r.port));
        assert_ne!(r.service, "unknown");
    }
    assert!(stream[17].is_done());
}

#[test]
fn every_requested_port_reported_once() {
    let probe = |p: u16| Some(classify_probe(p, 10, ProbeEvent::ConnectFailed { elapsed_ms: 1 }));
    let (stream, _) = run_plan(range_plan(1000, 1099), &probe);
    assert_eq!(stream.len(), 101);
    let mut ports: Vec<u16> = stream[..100].iter().map(|r| r.port).collect();
    ports.sort();
    ports.dedup();
    assert_eq!(ports, (1000..=1099).collect::<Vec<u16>>());
    for r in &stream[..100] {
        assert!(r.port != 0 && r.status != PortStatus::Done);
        assert!(r.banner.is_none() || r.status == PortStatus::Open);
    }
    assert_eq!(stream[100].port, 0);
}

#[test]
fn empty_port_set_yields_only_sentinel() {
    let plan = ScanPlan {
        ports: Vec::new(),
        concurrency: 4,
        timeout_ms: 10,
        policy: RetryPolicy { max_retries: 0, base_backoff_ms: 100 },
    };
    let mut run = ScanRun::new(plan);
    assert!(run.launch_next().is_none());
    let s = run.finish().unwrap();
    assert!(s.is_done());
    assert!(run.finish().is_none());
}

#[test]
fn live_probes_stay_within_cap() {
    let mut plan = range_plan(1, 10);
    plan.concurrency = 3;
    let mut run = ScanRun::new(plan);
    assert_eq!(run.launch_next(), Some(1));
    assert_eq!(run.launch_next(), Some(2));
    assert_eq!(run.launch_next(), Some(3));
    assert_eq!(run.launch_next(), None);
    let r = run.complete(2, Some(classify_probe(2, 10, ProbeEvent::ConnectTimedOut)));
    assert_eq!(r.unwrap().port, 2);
    assert_eq!(run.launch_next(), Some(4));
    assert_eq!(run.launch_next(), None);
    assert!(run.finish().is_none());
}

#[test]
fn wide_range_never_exceeds_cap() {
    let probe = |p: u16| Some(classify_probe(p, 10, ProbeEvent::ConnectFailed { elapsed_ms: 1 }));
    let (stream, max_live) = run_plan(range_plan(1, 2000), &probe);
    assert_eq!(stream.len(), 2001);
    assert_eq!(max_live, 256);
}

#[test]
fn failed_task_releases_capacity_without_outcome() {
    let mut plan = range_plan(5, 6);
    plan.concurrency = 1;
    let mut run = ScanRun::new(plan);
    assert_eq!(run.launch_next(), Some(5));
    assert!(run.complete(5, None).is_none());
    assert_eq!(run.launch_next(), Some(6));
    let r = run.complete(6, Some(classify_probe(6, 10, ProbeEvent::ConnectTimedOut)));
    assert!(r.is_some());
    assert!(run.finish().unwrap().is_done());
}

#[test]
fn stray_completions_are_ignored() {
    let mut run = ScanRun::new(range_plan(5, 6));
    assert_eq!(run.launch_next(), Some(5));
    let other = classify_probe(6, 10, ProbeEvent::ConnectTimedOut);
    assert!(run.complete(6, Some(other)).is_none());
    let wrong_port = classify_probe(7, 10, ProbeEvent::ConnectTimedOut);
    assert!(run.complete(5, Some(wrong_port)).is_none());
    assert!(run.complete(5, Some(classify_probe(5, 10, ProbeEvent::ConnectTimedOut))).is_none());
}

#[test]
fn unfinished_run_gives_no_sentinel() {
    let mut run = ScanRun::new(range_plan(1, 100));
    assert_eq!(run.launch_next(), Some(1));
    assert!(run.finish().is_none());
}
