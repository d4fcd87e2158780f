use hypr_watch::{
    HyprEvent, MonitorRecord, TickerVisibility, WatchAction, WatchEvent, WatchPhase, WindowState,
    emission_for_event, event_needs_probe, find_monitor_id, get_active_monitor_id,
    get_event_socket_path, get_monitor_id, handle_line, is_fullscreen_on_monitor,
    parse_event_line, probe_window_state, visibility_for_monitor, window_state_of,
    RETRY_DELAY_SECS,
};

fn ws(fullscreen: bool, monitor_id: Option<i64>) -> WindowState {
    WindowState { fullscreen, monitor_id }
}

/// Feeds outcomes to the loop, collecting the actions asked for and what was emitted.
fn drive(
    start: WatchPhase,
    events: &[WatchEvent],
) -> (WatchPhase, Vec<WatchAction>, Vec<TickerVisibility>) {
    let mut phase = start;
    let mut actions = Vec::new();
    let mut emitted = Vec::new();
    for ev in events {
        actions.push(phase.action());
        let step = phase.step(ev);
        if let Some(v) = step.emit {
            emitted.push(v);
        }
        phase = step.next;
    }
    (phase, actions, emitted)
}

#[test]
fn visibility_hidden_only_when_fullscreen_on_target() {
    assert_eq!(visibility_for_monitor(&ws(true, Some(2)), 2), TickerVisibility::Hidden);
    assert_eq!(visibility_for_monitor(&ws(true, Some(1)), 2), TickerVisibility::Visible);
    assert_eq!(visibility_for_monitor(&ws(false, Some(2)), 2), TickerVisibility::Visible);
    assert_eq!(visibility_for_monitor(&ws(true, None), 2), TickerVisibility::Visible);
    assert_eq!(visibility_for_monitor(&ws(false, None), -1), TickerVisibility::Visible);
}

#[test]
fn window_state_reads_positive_fullscreen_mode() {
    assert_eq!(window_state_of(Some(1), Some(3)), ws(true, Some(3)));
    assert_eq!(window_state_of(Some(2), None), ws(true, None));
    assert_eq!(window_state_of(Some(0), Some(3)), ws(false, Some(3)));
    assert_eq!(window_state_of(Some(-1), Some(3)), ws(false, Some(3)));
    assert_eq!(window_state_of(None, Some(0)), ws(false, Some(0)));
}

#[test]
fn probe_reads_active_window_json() {
    let out = br#"{"address":"0x1","fullscreen":1,"monitor":2,"title":"x"}"#;
    assert_eq!(probe_window_state(true, out), ws(true, Some(2)));
    assert_eq!(probe_window_state(true, br#"{"fullscreen":0,"monitor":-1}"#), ws(false, Some(-1)));
    assert_eq!(probe_window_state(true, br#"{"fullscreen":2}"#), ws(true, None));
    assert_eq!(probe_window_state(true, br#"{"fullscreen":"1","monitor":1.5}"#), ws(false, None));
    assert_eq!(probe_window_state(true, br#"{"monitor":18446744073709551615}"#), ws(false, None));
}

#[test]
fn probe_failures_read_as_not_fullscreen() {
    let out = br#"{"fullscreen":1,"monitor":2}"#;
    assert_eq!(probe_window_state(false, out), ws(false, None));
    assert_eq!(probe_window_state(true, b"not json"), ws(false, None));
    assert_eq!(probe_window_state(true, b""), ws(false, None));
    assert_eq!(probe_window_state(true, b"[1,2]"), ws(false, None));
    assert_eq!(probe_window_state(true, b"{}"), ws(false, None));
}

#[test]
fn active_monitor_and_fullscreen_queries() {
    let out = br#"{"fullscreen":1,"monitor":2}"#;
    assert_eq!(get_active_monitor_id(true, out), Some(2));
    assert_eq!(get_active_monitor_id(false, out), None);
    assert_eq!(get_active_monitor_id(true, br#"{"fullscreen":0}"#), None);
    assert!(is_fullscreen_on_monitor(true, out, 2));
    assert!(!is_fullscreen_on_monitor(true, out, 1));
    assert!(!is_fullscreen_on_monitor(false, out, 2));
    assert!(!is_fullscreen_on_monitor(true, br#"{"fullscreen":0,"monitor":2}"#, 2));
}

#[test]
fn monitor_resolution_takes_first_exact_name() {
    let out = br#"[{"name":"HDMI-A-1","id":0},{"name":"DP-1","id":2},{"name":"DP-1","id":5}]"#;
    assert_eq!(get_monitor_id(true, out, "DP-1"), Some(2));
    assert_eq!(get_monitor_id(true, out, "HDMI-A-1"), Some(0));
    assert_eq!(get_monitor_id(true, out, "DP-2"), None);
    assert_eq!(get_monitor_id(true, out, "dp-1"), None);
    assert_eq!(get_monitor_id(true, out, "DP-"), None);
}

#[test]
fn monitor_resolution_failures_are_unresolved() {
    let out = br#"[{"name":"DP-1","id":2}]"#;
    assert_eq!(get_monitor_id(false, out, "DP-1"), None);
    assert_eq!(get_monitor_id(true, b"garbage", "DP-1"), None);
    assert_eq!(get_monitor_id(true, br#"{"name":"DP-1","id":2}"#, "DP-1"), None);
    assert_eq!(get_monitor_id(true, b"[]", "DP-1"), None);
    // The first record with the name decides, even without a usable id.
    assert_eq!(get_monitor_id(true, br#"[{"name":"DP-1","id":"2"},{"name":"DP-1","id":3}]"#, "DP-1"), None);
    assert_eq!(get_monitor_id(true, br#"[{"id":1},{"name":"DP-1","id":3}]"#, "DP-1"), Some(3));
}

#[test]
fn find_monitor_id_over_records() {
    let records = vec![
        MonitorRecord { name: None, id: Some(9) },
        MonitorRecord { name: Some("eDP-1".to_string()), id: Some(1) },
        MonitorRecord { name: Some("DP-1".to_string()), id: Some(2) },
    ];
    assert_eq!(find_monitor_id(&records, "DP-1"), Some(2));
    assert_eq!(find_monitor_id(&records, "eDP-1"), Some(1));
    assert_eq!(find_monitor_id(&records, "DP-3"), None);
    assert_eq!(find_monitor_id(&Vec::new(), "DP-1"), None);
}

#[test]
fn line_parsing_by_prefix() {
    assert_eq!(parse_event_line("fullscreen>>1"), HyprEvent::FullscreenChanged(true));
    assert_eq!(parse_event_line("fullscreen>>0"), HyprEvent::FullscreenChanged(false));
    assert_eq!(parse_event_line("activewindow>>kitty,~"), HyprEvent::ActiveWindowChanged);
    assert_eq!(parse_event_line("focusedmon>>DP-1,2"), HyprEvent::FocusedMonitorChanged);
    assert_eq!(parse_event_line("workspace>>3"), HyprEvent::Unrecognized);
    assert_eq!(parse_event_line("activewindowv2>>abc"), HyprEvent::Unrecognized);
    assert_eq!(parse_event_line(""), HyprEvent::Unrecognized);
    assert_eq!(parse_event_line("fullscreen"), HyprEvent::Unrecognized);
}

#[test]
fn line_handling_scenarios() {
    let on_target = ws(true, Some(2));
    let elsewhere = ws(true, Some(1));
    assert_eq!(handle_line("fullscreen>>1", &on_target, 2), Some(TickerVisibility::Hidden));
    assert_eq!(handle_line("fullscreen>>1", &elsewhere, 2), None);
    assert_eq!(handle_line("fullscreen>>0", &on_target, 2), Some(TickerVisibility::Visible));
    assert_eq!(handle_line("fullscreen>>0", &elsewhere, 2), Some(TickerVisibility::Visible));
    assert_eq!(handle_line("activewindow>>payload", &on_target, 2), Some(TickerVisibility::Hidden));
    assert_eq!(handle_line("activewindow>>payload", &elsewhere, 2), Some(TickerVisibility::Visible));
    assert_eq!(handle_line("focusedmon>>DP-1,1", &on_target, 2), Some(TickerVisibility::Hidden));
    assert_eq!(handle_line("workspace>>3", &on_target, 2), None);
}

#[test]
fn events_that_need_a_probe() {
    assert!(event_needs_probe(HyprEvent::FullscreenChanged(true)));
    assert!(!event_needs_probe(HyprEvent::FullscreenChanged(false)));
    assert!(event_needs_probe(HyprEvent::ActiveWindowChanged));
    assert!(event_needs_probe(HyprEvent::FocusedMonitorChanged));
    assert!(!event_needs_probe(HyprEvent::Unrecognized));
    let unknown = WindowState::unknown();
    assert_eq!(
        emission_for_event(HyprEvent::FullscreenChanged(false), &unknown, 7),
        Some(TickerVisibility::Visible)
    );
    assert_eq!(emission_for_event(HyprEvent::Unrecognized, &unknown, 7), None);
}

#[test]
fn same_line_and_probe_twice_emit_twice() {
    let probe = ws(true, Some(2));
    let first = handle_line("activewindow>>a", &probe, 2);
    let second = handle_line("activewindow>>a", &probe, 2);
    assert_eq!(first, Some(TickerVisibility::Hidden));
    assert_eq!(first, second);
}

#[test]
fn socket_path_from_environment_values() {
    assert_eq!(
        get_event_socket_path(Some("abc123"), Some("/run/user/1000")),
        Some("/run/user/1000/hypr/abc123/.socket2.sock".to_string())
    );
    assert_eq!(get_event_socket_path(None, Some("/run/user/1000")), None);
    assert_eq!(get_event_socket_path(Some("abc123"), None), None);
    assert_eq!(get_event_socket_path(None, None), None);
}

#[test]
fn loop_starts_by_resolving() {
    let p = WatchPhase::start();
    assert_eq!(p, WatchPhase::Resolving);
    assert_eq!(p.action(), WatchAction::QueryMonitors);
}

#[test]
fn failed_resolutions_retry_with_backoff_and_emit_nothing() {
    let n = 3;
    let mut events = Vec::new();
    for _ in 0..n {
        events.push(WatchEvent::Resolved(None));
        events.push(WatchEvent::Slept);
    }
    let (phase, actions, emitted) = drive(WatchPhase::Resolving, &events);
    assert_eq!(phase, WatchPhase::Resolving);
    assert!(emitted.is_empty());
    assert_eq!(actions.len(), 2 * n);
    for pair in actions.chunks(2) {
        assert_eq!(pair[0], WatchAction::QueryMonitors);
        assert_eq!(pair[1], WatchAction::Sleep(2));
    }
    assert_eq!(RETRY_DELAY_SECS, 2);
}

#[test]
fn recovery_reprobes_before_and_after_resolution() {
    let before = ws(true, Some(2));
    let after = ws(false, Some(2));
    let events = [
        WatchEvent::StreamEnded,
        WatchEvent::Slept,
        WatchEvent::Probed(before),
        WatchEvent::Resolved(None),
        WatchEvent::Slept,
        WatchEvent::Resolved(Some(4)),
        WatchEvent::Probed(after),
    ];
    let (phase, actions, emitted) = drive(WatchPhase::Streaming(2), &events);
    assert_eq!(emitted, vec![TickerVisibility::Hidden, TickerVisibility::Visible]);
    assert_eq!(phase, WatchPhase::Streaming(4));
    assert_eq!(
        actions,
        vec![
            WatchAction::Stream(2),
            WatchAction::Sleep(2),
            WatchAction::Probe,
            WatchAction::QueryMonitors,
            WatchAction::Sleep(2),
            WatchAction::QueryMonitors,
            WatchAction::Probe,
        ]
    );
}

#[test]
fn reseeding_uses_previous_id() {
    let probe = ws(true, Some(2));
    let (_, _, emitted) = drive(
        WatchPhase::Cooling(2),
        &[WatchEvent::Slept, WatchEvent::Probed(probe)],
    );
    assert_eq!(emitted, vec![TickerVisibility::Hidden]);
}

#[test]
fn same_probe_at_seed_and_reseed_emits_twice() {
    let probe = ws(false, None);
    let (phase, _, emitted) = drive(
        WatchPhase::Seeding(1),
        &[
            WatchEvent::Probed(probe),
            WatchEvent::StreamEnded,
            WatchEvent::Slept,
            WatchEvent::Probed(probe),
        ],
    );
    assert_eq!(emitted, vec![TickerVisibility::Visible, TickerVisibility::Visible]);
    assert_eq!(phase, WatchPhase::Resolving);
}

#[test]
fn unexpected_outcome_leaves_phase_unchanged() {
    let step = WatchPhase::Streaming(3).step(&WatchEvent::Slept);
    assert_eq!(step.next, WatchPhase::Streaming(3));
    assert_eq!(step.emit, None);
    let step = WatchPhase::Resolving.step(&WatchEvent::Probed(ws(true, Some(0))));
    assert_eq!(step.next, WatchPhase::Resolving);
    assert_eq!(step.emit, None);
}

#[test]
fn end_to_end_dp1_scenario() {
    let inventory = br#"[{"name":"eDP-1","id":0},{"name":"DP-1","id":2}]"#;
    let id = get_monitor_id(true, inventory, "DP-1").unwrap();
    assert_eq!(id, 2);

    let mut phase = WatchPhase::start();
    let mut emitted = Vec::new();

    let step = phase.step(&WatchEvent::Resolved(Some(id)));
    assert_eq!(step.emit, None);
    phase = step.next;
    assert_eq!(phase.action(), WatchAction::Probe);
    let seed = probe_window_state(true, br#"{"fullscreen":0,"monitor":-1}"#);
    let step = phase.step(&WatchEvent::Probed(seed));
    emitted.extend(step.emit);
    phase = step.next;
    assert_eq!(phase.action(), WatchAction::Stream(2));

    let ev = parse_event_line("fullscreen>>1");
    assert!(event_needs_probe(ev));
    let probe = probe_window_state(true, br#"{"fullscreen":1,"monitor":2}"#);
    emitted.extend(emission_for_event(ev, &probe, id));

    let ev = parse_event_line("fullscreen>>0");
    assert!(!event_needs_probe(ev));
    emitted.extend(emission_for_event(ev, &WindowState::unknown(), id));

    assert_eq!(
        emitted,
        vec![TickerVisibility::Visible, TickerVisibility::Hidden, TickerVisibility::Visible]
    );
}
