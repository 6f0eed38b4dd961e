use ping_api_client::decimal::decimal;
use ping_api_client::gateway::{gateway_pattern, gateway_text};
use ping_api_client::report::{failure_line, push_url, render_payload, success_line};
use ping_api_client::targets::{plan_tasks, resolve_targets, ResolveError};
use ping_api_client::task::{
    Action, Event, Measurement, Phase, ProbeTask, INTERVAL_MS, PROBE_TIMEOUT_MS,
};

fn task(target: &str, identity: &str) -> ProbeTask {
    ProbeTask::with_identity(
        target.to_string(),
        "host1".to_string(),
        "10.1.1.1".to_string(),
        "9091".to_string(),
        identity.to_string(),
    )
}

fn pushes(actions: &[Action]) -> Vec<(String, String)> {
    actions
        .iter()
        .filter_map(|a| match a {
            Action::Push { url, body } => Some((url.clone(), body.clone())),
            _ => None,
        })
        .collect()
}

fn sleeps(actions: &[Action]) -> Vec<u64> {
    actions
        .iter()
        .filter_map(|a| match a {
            Action::Sleep { millis } => Some(*millis),
            _ => None,
        })
        .collect()
}

fn logs(actions: &[Action]) -> Vec<String> {
    actions
        .iter()
        .filter_map(|a| match a {
            Action::Log { line } => Some(line.clone()),
            _ => None,
        })
        .collect()
}

/// Runs one full iteration from a probe in flight and returns its actions.
fn iterate(t: &mut ProbeTask, at: u64, outcome: Measurement, delivered: bool) -> Vec<Action> {
    let success = matches!(outcome, Measurement::Success { .. });
    let mut all = t.step(Event::Probed { at_millis: at, outcome });
    if success {
        all.extend(t.step(Event::Pushed { delivered }));
    }
    all.extend(t.step(Event::Slept));
    all
}

#[test]
fn payload_renders_byte_for_byte() {
    let p = render_payload("myhost", "8.8.8.8", 7);
    assert_eq!(
        p,
        "# HELP ping_time Round Trip Time to Endpoint\n\
         # TYPE ping_time gauge\n\
         ping_time{client=\"myhost\", endpoint=\"8.8.8.8\"} 7\n"
    );
}

#[test]
fn gateway_success_and_endpoint_failure_in_one_iteration() {
    let targets = vec!["192.168.1.1".to_string(), "10.0.0.5".to_string()];
    let mut tasks = plan_tasks(&targets, "host1", "10.1.1.1", "9091");
    assert_eq!(tasks.len(), 2);

    let a = tasks[0].step(Event::Probed {
        at_millis: 1700000000123,
        outcome: Measurement::Success { rtt_ms: 12 },
    });
    let l = logs(&a);
    assert_eq!(l.len(), 1);
    assert!(l[0].ends_with(" || Ping time to 192.168.1.1: 12ms"));
    assert_eq!(l[0], "1700000000123 || Ping time to 192.168.1.1: 12ms");
    let p = pushes(&a);
    assert_eq!(p.len(), 1);
    assert!(p[0].1.contains("ping_time{client=\"host1\", endpoint=\"192.168.1.1\"} 12"));

    let b = tasks[1].step(Event::Probed {
        at_millis: 1700000000124,
        outcome: Measurement::Failure { reason: "TimedOut".to_string() },
    });
    let l = logs(&b);
    assert_eq!(l.len(), 1);
    assert!(l[0].contains(" || Error pinging 10.0.0.5: "));
    assert_eq!(pushes(&b).len(), 0);
}

#[test]
fn success_pushes_once_and_failure_never() {
    let mut t = task("8.8.8.8", "id-a");
    let ok = iterate(&mut t, 5, Measurement::Success { rtt_ms: 3 }, true);
    assert_eq!(pushes(&ok).len(), 1);
    let bad = iterate(&mut t, 6, Measurement::Failure { reason: "x".to_string() }, true);
    assert_eq!(pushes(&bad).len(), 0);
}

#[test]
fn identity_is_kept_across_iterations() {
    let mut t = task("8.8.8.8", "f47ac10b-58cc-4372-a567-0e02b2c3d479");
    let first = pushes(&iterate(&mut t, 1, Measurement::Success { rtt_ms: 3 }, true));
    let second = pushes(&iterate(&mut t, 2, Measurement::Success { rtt_ms: 4 }, true));
    assert_eq!(first[0].0, second[0].0);
    assert_eq!(
        first[0].0,
        "http://10.1.1.1:9091/metrics/job/f47ac10b-58cc-4372-a567-0e02b2c3d479"
    );
    assert_eq!(t.identity, "f47ac10b-58cc-4372-a567-0e02b2c3d479");
}

#[test]
fn tasks_get_distinct_identities() {
    let targets = vec!["1.1.1.1".to_string(), "1.1.1.1".to_string()];
    let tasks = plan_tasks(&targets, "h", "c", "1");
    assert_ne!(tasks[0].identity, tasks[1].identity);
}

#[test]
fn fresh_identity_is_hyphenated_lowercase() {
    let t = ProbeTask::new("1.1.1.1".to_string(), "h".to_string(), "c".to_string(), "1".to_string());
    let chars: Vec<char> = t.identity.chars().collect();
    assert_eq!(chars.len(), 36);
    for (i, c) in chars.iter().enumerate() {
        if i == 8 || i == 13 || i == 18 || i == 23 {
            assert_eq!(*c, '-');
        } else {
            assert!(c.is_ascii_digit() || ('a'..='f').contains(c));
        }
    }
    assert_eq!(t.phase, Phase::Probing);
}

#[test]
fn every_iteration_waits_the_interval_once() {
    let mut t = task("8.8.8.8", "id");
    let ok = iterate(&mut t, 1, Measurement::Success { rtt_ms: 3 }, true);
    assert_eq!(sleeps(&ok), vec![1000]);
    let bad = iterate(&mut t, 2, Measurement::Failure { reason: "y".to_string() }, true);
    assert_eq!(sleeps(&bad), vec![1000]);
    assert_eq!(INTERVAL_MS, 1000);
    match ok.last() {
        Some(Action::Probe { target, timeout_ms }) => {
            assert_eq!(target, "8.8.8.8");
            assert_eq!(*timeout_ms, PROBE_TIMEOUT_MS);
            assert_eq!(*timeout_ms, 10000);
        }
        _ => panic!("an iteration ends with the next probe"),
    }
}

#[test]
fn failed_pushes_do_not_stop_the_loop() {
    let mut t = task("8.8.8.8", "id");
    for k in 0..4u64 {
        let a = iterate(&mut t, k, Measurement::Success { rtt_ms: 9 }, false);
        assert_eq!(logs(&a).len(), 1);
        assert_eq!(pushes(&a).len(), 1);
        assert!(matches!(a.last(), Some(Action::Probe { .. })));
        assert_eq!(t.phase, Phase::Probing);
    }
}

#[test]
fn push_outcome_does_not_change_what_follows() {
    let mut a = task("8.8.8.8", "id");
    let mut b = task("8.8.8.8", "id");
    let ra = iterate(&mut a, 1, Measurement::Success { rtt_ms: 2 }, true);
    let rb = iterate(&mut b, 1, Measurement::Success { rtt_ms: 2 }, false);
    assert_eq!(format!("{:?}", ra), format!("{:?}", rb));
    assert_eq!(a.phase, b.phase);
}

#[test]
fn events_out_of_phase_change_nothing() {
    let mut t = task("8.8.8.8", "id");
    assert!(t.step(Event::Slept).is_empty());
    assert!(t.step(Event::Pushed { delivered: true }).is_empty());
    assert_eq!(t.phase, Phase::Probing);
    let a = t.step(Event::Probed { at_millis: 0, outcome: Measurement::Failure { reason: "r".to_string() } });
    assert_eq!(a.len(), 2);
    assert_eq!(t.phase, Phase::Sleeping);
    assert!(t.step(Event::Probed { at_millis: 0, outcome: Measurement::Success { rtt_ms: 1 } }).is_empty());
    assert!(t.step(Event::Pushed { delivered: false }).is_empty());
    assert_eq!(t.phase, Phase::Sleeping);
}

#[test]
fn first_action_probes_the_target() {
    let t = task("10.0.0.5", "id");
    match t.first_action() {
        Action::Probe { target, timeout_ms } => {
            assert_eq!(target, "10.0.0.5");
            assert_eq!(timeout_ms, 10000);
        }
        _ => panic!("a task starts with a probe"),
    }
}

#[test]
fn one_task_per_target_in_order() {
    let targets = vec![
        "192.168.1.1".to_string(),
        "10.0.0.5".to_string(),
        "192.168.1.1".to_string(),
    ];
    let tasks = plan_tasks(&targets, "host1", "10.1.1.1", "9091");
    assert_eq!(tasks.len(), 3);
    for (t, want) in tasks.iter().zip(targets.iter()) {
        assert_eq!(&t.target, want);
        assert_eq!(t.client, "host1");
        assert_eq!(t.host, "10.1.1.1");
        assert_eq!(t.port, "9091");
        assert_eq!(t.phase, Phase::Probing);
    }
    assert!(plan_tasks(&Vec::new(), "h", "c", "1").is_empty());
}

#[test]
fn decimal_renders_edges() {
    assert_eq!(decimal(0), "0");
    assert_eq!(decimal(9), "9");
    assert_eq!(decimal(10), "10");
    assert_eq!(decimal(255), "255");
    assert_eq!(decimal(1000), "1000");
    assert_eq!(decimal(u64::MAX), "18446744073709551615");
}

#[test]
fn push_url_has_the_job_path() {
    assert_eq!(
        push_url("10.1.1.1", "9091", "abc"),
        "http://10.1.1.1:9091/metrics/job/abc"
    );
}

#[test]
fn log_lines_are_exact() {
    assert_eq!(success_line(42, "8.8.8.8", 0), "42 || Ping time to 8.8.8.8: 0ms");
    assert_eq!(
        failure_line(7, "10.0.0.5", "TimedOut"),
        "7 || Error pinging 10.0.0.5: TimedOut"
    );
}

#[test]
fn resolve_puts_gateway_first() {
    let r = resolve_targets(
        Some("192.168.1.1".to_string()),
        vec![Some("10.0.0.5".to_string()), Some("192.168.1.1".to_string())],
    );
    assert_eq!(
        r.unwrap(),
        vec!["192.168.1.1".to_string(), "10.0.0.5".to_string(), "192.168.1.1".to_string()]
    );
    assert_eq!(resolve_targets(Some("1.1.1.1".to_string()), vec![]).unwrap(), vec!["1.1.1.1".to_string()]);
}

#[test]
fn resolve_without_gateway_fails() {
    let r = resolve_targets(None, vec![Some("10.0.0.5".to_string()), None]);
    assert_eq!(r, Err(ResolveError::GatewayNotFound));
}

#[test]
fn resolve_reports_first_endpoint_without_address() {
    let r = resolve_targets(
        Some("1.1.1.1".to_string()),
        vec![Some("10.0.0.5".to_string()), None, None],
    );
    assert_eq!(r, Err(ResolveError::EndpointWithoutAddress { index: 1 }));
}

#[test]
fn gateway_found_in_ip_route_output() {
    let out = "default via 192.168.1.1 dev eth0 proto dhcp metric 100\n\
               192.168.1.0/24 dev eth0 proto kernel scope link src 192.168.1.23\n";
    assert_eq!(gateway_text(out, false), Some("192.168.1.1".to_string()));
    assert_eq!(gateway_text("10.0.0.0/8 dev eth1\n", false), None);
    assert_eq!(gateway_text("", false), None);
}

#[test]
fn gateway_found_in_ipconfig_output() {
    let out = "   IPv4 Address. . . . . . . . . . . : 192.168.0.20\r\n\
               \x20  Default Gateway . . . . . . . . . : 192.168.0.1\r\n";
    assert_eq!(gateway_text(out, true), Some("192.168.0.1".to_string()));
    assert_eq!(gateway_text(out, false), None);
    assert_eq!(gateway_pattern(false), "default via ([\\d.]+)");
}
