use tailscale_core::config::AppConfig;
use tailscale_core::coordinator::Event;
use tailscale_core::daemon::DaemonError;
use tailscale_core::display::{
    apply_event, copy_ip, decimal_string, devices_header, edit_ssh_user, init_applet_state,
    online_count, peer_ip_label, peer_name_label, poll_tick, request_toggle, save_ssh_user,
    ssh_target, ssh_user_input, status_line,
};
use tailscale_core::status::{NodeInfo, PeerInfo, TailscaleStatus};

fn snapshot(backend_state: &str) -> TailscaleStatus {
    TailscaleStatus {
        backend_state: backend_state.to_string(),
        self_node: NodeInfo {
            hostname: "me".to_string(),
            tailscale_ips: vec!["100.64.0.1".to_string()],
        },
        peers: vec![],
        tailnet_name: "example.ts.net".to_string(),
        exit_node_active: false,
    }
}

fn peer(hostname: &str, ip: &str, online: bool) -> PeerInfo {
    PeerInfo {
        hostname: hostname.to_string(),
        tailscale_ips: vec![ip.to_string()],
        os: "linux".to_string(),
        online,
        exit_node: false,
    }
}

#[test]
fn init_from_successful_query() {
    let s = init_applet_state(Ok(snapshot("Running")));
    assert!(s.connected);
    assert_eq!(s.status_message, "Connected");
    assert_eq!(s.self_hostname, "me");
    assert_eq!(s.self_ip, "100.64.0.1");
    assert_eq!(s.tailnet_name, "example.ts.net");
    assert!(s.error.is_none());
}

#[test]
fn init_from_failed_query_shows_disconnected() {
    let s = init_applet_state(Err(DaemonError { message: "no daemon".to_string() }));
    assert!(!s.connected);
    assert_eq!(s.status_message, "Disconnected");
    assert_eq!(s.self_hostname, "");
    assert!(s.error.is_none());
}

#[test]
fn status_update_replaces_snapshot_and_clears_error() {
    let mut s = init_applet_state(Err(DaemonError { message: "down".to_string() }));
    apply_event(&mut s, Event::StatusUpdate(Err(DaemonError { message: "down".to_string() })));
    assert_eq!(s.error.as_deref(), Some("down"));
    assert_eq!(s.status_message, "Not running");
    apply_event(&mut s, Event::StatusUpdate(Ok(snapshot("Running"))));
    assert!(s.connected);
    assert!(s.error.is_none());
    assert_eq!(s.status_message, "Connected");
}

#[test]
fn toggle_events_and_hold_ticks_debounce() {
    let mut s = init_applet_state(Ok(snapshot("Running")));
    apply_event(&mut s, Event::ToggleStarted);
    assert!(s.is_toggling);
    assert_eq!(s.status_message, "Disconnecting...");
    // a poll while toggling leaves the in-progress text alone
    apply_event(&mut s, Event::StatusUpdate(Ok(snapshot("Running"))));
    assert_eq!(s.status_message, "Disconnecting...");
    // completion shows the outcome and holds it for three cycles
    apply_event(&mut s, Event::ToggleComplete(Ok("Disconnected".to_string())));
    assert!(!s.is_toggling);
    assert_eq!(s.status_hold_ticks, 3);
    assert_eq!(s.status_message, "Disconnected");
    for expected in [2, 1, 0] {
        apply_event(&mut s, Event::StatusUpdate(Ok(snapshot("Stopped"))));
        assert_eq!(s.status_hold_ticks, expected);
        assert_eq!(s.status_message, "Disconnected");
    }
    // with the hold spent, the next poll recomputes the resting text
    apply_event(&mut s, Event::StatusUpdate(Ok(snapshot("Running"))));
    assert_eq!(s.status_message, "Connected");
}

#[test]
fn toggle_failure_shows_diagnostic() {
    let mut s = init_applet_state(Ok(snapshot("Stopped")));
    request_toggle(&mut s);
    assert_eq!(s.status_message, "Connecting...");
    apply_event(
        &mut s,
        Event::ToggleComplete(Err(DaemonError { message: "permission denied".to_string() })),
    );
    assert_eq!(s.status_message, "Error: permission denied");
}

#[test]
fn copied_feedback_counts_down() {
    let mut s = init_applet_state(Ok(snapshot("Running")));
    copy_ip(&mut s, "100.64.0.2".to_string());
    assert_eq!(s.copied_hold_ticks, 3);
    assert_eq!(peer_ip_label(&s.copied_ip, "100.64.0.2"), "  Copied!");
    assert_eq!(peer_ip_label(&s.copied_ip, "100.64.0.3"), "  100.64.0.3");
    poll_tick(&mut s);
    poll_tick(&mut s);
    assert_eq!(s.copied_hold_ticks, 1);
    assert!(s.copied_ip.is_some());
    poll_tick(&mut s);
    assert_eq!(s.copied_hold_ticks, 0);
    assert!(s.copied_ip.is_none());
    assert_eq!(peer_ip_label(&s.copied_ip, "100.64.0.2"), "  100.64.0.2");
}

#[test]
fn ssh_username_editing_round_trip() {
    let mut s = init_applet_state(Ok(snapshot("Running")));
    let mut config = AppConfig::new();
    edit_ssh_user(&mut s, &config, "hostA".to_string());
    assert_eq!(s.editing_ssh_user, Some(("hostA".to_string(), "".to_string())));
    ssh_user_input(&mut s, "  alice  ".to_string());
    let saved = save_ssh_user(&mut s, &mut config, "hostA".to_string());
    assert!(saved);
    assert!(s.editing_ssh_user.is_none());
    // the username was trimmed before storing
    assert_eq!(config.ssh_username("hostA"), Some("alice".to_string()));
    // an empty edit removes the entry
    edit_ssh_user(&mut s, &config, "hostA".to_string());
    assert_eq!(s.editing_ssh_user, Some(("hostA".to_string(), "alice".to_string())));
    ssh_user_input(&mut s, "   ".to_string());
    save_ssh_user(&mut s, &mut config, "hostA".to_string());
    assert_eq!(config.ssh_username("hostA"), None);
}

#[test]
fn ssh_target_uses_configured_username() {
    let peers = vec![peer("hostA", "100.64.0.2", true), peer("hostB", "100.64.0.3", true)];
    let mut config = AppConfig::new();
    assert_eq!(ssh_target(&peers, &config, "100.64.0.2"), "100.64.0.2");
    config.set_ssh_username("hostA".to_string(), "alice".to_string());
    assert_eq!(ssh_target(&peers, &config, "100.64.0.2"), "alice@100.64.0.2");
    assert_eq!(ssh_target(&peers, &config, "100.64.0.3"), "100.64.0.3");
    // an address no peer owns falls back to the bare address
    assert_eq!(ssh_target(&peers, &config, "100.64.0.9"), "100.64.0.9");
}

#[test]
fn labels_and_counts() {
    let peers = vec![
        peer("hostA", "100.64.0.2", true),
        peer("hostB", "100.64.0.3", false),
        peer("hostC", "100.64.0.4", true),
    ];
    assert_eq!(online_count(&peers), 2);
    assert_eq!(peer_name_label(&peers[0]), "● hostA (linux)");
    assert_eq!(peer_name_label(&peers[1]), "○ hostB (linux)");
    assert_eq!(status_line("Connected"), "Status: Connected");
    assert_eq!(devices_header(online_count(&peers), peers.len()), "Devices (2/3 online)");
}

#[test]
fn decimal_writing() {
    assert_eq!(decimal_string(0), "0");
    assert_eq!(decimal_string(7), "7");
    assert_eq!(decimal_string(10), "10");
    assert_eq!(decimal_string(usize::MAX), usize::MAX.to_string());
}
