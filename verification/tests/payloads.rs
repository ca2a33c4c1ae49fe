use tailscale_core::daemon::CliOutcome;
use tailscale_core::payload::{get_prefs, get_status};

fn ok_with(stdout: &str) -> CliOutcome {
    CliOutcome::Finished { exit_ok: true, stdout: stdout.as_bytes().to_vec(), stderr: String::new() }
}

#[test]
fn status_payload_parses_and_sorts() {
    let payload = r#"{
        "BackendState": "Running",
        "Self": {"HostName": "me", "TailscaleIPs": ["100.64.0.1"], "OS": "linux", "Online": true},
        "Peer": {
            "k1": {"HostName": "hostB", "Online": false},
            "k2": {"HostName": "hostA", "TailscaleIPs": ["100.64.0.2"], "Online": true},
            "k3": {"HostName": "hostC", "Online": true, "ExitNode": true}
        },
        "CurrentTailnet": {"Name": "example.ts.net"},
        "SomethingUnknown": [1, 2, 3]
    }"#;
    let s = get_status(ok_with(payload)).expect("well-formed payload");
    assert_eq!(s.backend_state, "Running");
    assert_eq!(s.self_node.hostname, "me");
    assert_eq!(s.self_node.tailscale_ips, vec!["100.64.0.1".to_string()]);
    assert_eq!(s.tailnet_name, "example.ts.net");
    assert!(s.exit_node_active);
    let names: Vec<&str> = s.peers.iter().map(|p| p.hostname.as_str()).collect();
    assert_eq!(names, vec!["hostA", "hostC", "hostB"]);
}

#[test]
fn status_payload_defaults() {
    let payload = r#"{"BackendState": "Stopped", "Self": {}}"#;
    let s = get_status(ok_with(payload)).expect("minimal payload");
    assert_eq!(s.backend_state, "Stopped");
    assert_eq!(s.self_node.hostname, "");
    assert!(s.self_node.tailscale_ips.is_empty());
    assert!(s.peers.is_empty());
    assert_eq!(s.tailnet_name, "");
    assert!(!s.exit_node_active);
}

#[test]
fn status_payload_requires_backend_state_and_self() {
    let e = get_status(ok_with(r#"{"Self": {}}"#)).err().unwrap();
    assert!(e.message.starts_with("Failed to parse tailscale JSON: "));
    let e = get_status(ok_with(r#"{"BackendState": "Running"}"#)).err().unwrap();
    assert!(e.message.starts_with("Failed to parse tailscale JSON: "));
}

#[test]
fn status_payload_rejected_atomically_on_bad_peer() {
    let payload = r#"{
        "BackendState": "Running",
        "Self": {"HostName": "me"},
        "Peer": {"k1": {"HostName": "a", "Online": "yes"}}
    }"#;
    let e = get_status(ok_with(payload)).err().unwrap();
    assert!(e.message.starts_with("Failed to parse tailscale JSON: "));
}

#[test]
fn malformed_json_is_a_daemon_error() {
    let e = get_status(ok_with("not json")).err().unwrap();
    assert!(e.message.starts_with("Failed to parse tailscale JSON: "));
}

#[test]
fn prefs_payload_reconciles_exit_node() {
    let payload = r#"{
        "CorpDns": true,
        "RouteAll": false,
        "ShieldsUp": false,
        "RunSSH": true,
        "RunWebClient": false,
        "Hostname": "box",
        "AdvertiseRoutes": ["10.0.0.0/24", "0.0.0.0/0", "::/0"],
        "ExitNodeAllowLanAccess": true,
        "Config": {"UserProfile": {"LoginName": "user@example.com"}}
    }"#;
    let p = get_prefs(ok_with(payload)).expect("well-formed payload");
    assert!(p.accept_dns);
    assert!(!p.accept_routes);
    assert!(p.ssh);
    assert!(p.exit_node_allow_lan);
    assert_eq!(p.hostname, "box");
    assert_eq!(p.login_name, "user@example.com");
    // the derived pair: the bit read off the raw list, the defaults
    // stripped from the user-facing string
    assert!(p.advertise_exit_node);
    assert_eq!(p.advertise_routes, "10.0.0.0/24");
}

#[test]
fn prefs_payload_defaults() {
    let p = get_prefs(ok_with("{}")).expect("empty payload");
    assert!(!p.accept_dns);
    assert!(!p.advertise_exit_node);
    assert_eq!(p.advertise_routes, "");
    assert_eq!(p.login_name, "");
    assert_eq!(p.hostname, "");
}

#[test]
fn prefs_payload_null_routes_and_config() {
    let p = get_prefs(ok_with(r#"{"AdvertiseRoutes": null, "Config": null}"#)).unwrap();
    assert!(!p.advertise_exit_node);
    assert_eq!(p.advertise_routes, "");
    assert_eq!(p.login_name, "");
}

#[test]
fn prefs_query_failure_wraps_stderr() {
    let out = CliOutcome::Finished {
        exit_ok: false,
        stdout: vec![],
        stderr: "no daemon".to_string(),
    };
    let e = get_prefs(out).err().unwrap();
    assert_eq!(e.message, "tailscale debug prefs failed: no daemon");
}
