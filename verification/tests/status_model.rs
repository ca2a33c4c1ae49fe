use tailscale_core::status::{any_exit_node, build_status, primary_ip, NodeInfo, PeerInfo};

fn peer(hostname: &str, online: bool, exit_node: bool) -> PeerInfo {
    PeerInfo {
        hostname: hostname.to_string(),
        tailscale_ips: vec![format!("100.0.0.{}", hostname.len())],
        os: "linux".to_string(),
        online,
        exit_node,
    }
}

fn self_node() -> NodeInfo {
    NodeInfo { hostname: "self".to_string(), tailscale_ips: vec!["100.64.0.1".to_string()] }
}

#[test]
fn peers_sorted_online_first_then_hostname() {
    // hostA < hostC case-insensitively; hostB is offline and goes last
    let peers = vec![
        peer("hostB", false, false),
        peer("hostC", true, false),
        peer("hostA", true, false),
    ];
    let status = build_status("Running".to_string(), self_node(), peers, None);
    let names: Vec<&str> = status.peers.iter().map(|p| p.hostname.as_str()).collect();
    assert_eq!(names, vec!["hostA", "hostC", "hostB"]);
}

#[test]
fn peer_sort_is_case_insensitive() {
    // folded order is alpha < Beta; unfolded code points would put
    // "Beta" first
    let peers = vec![peer("Beta", true, false), peer("alpha", true, false)];
    let status = build_status("Running".to_string(), self_node(), peers, None);
    let names: Vec<&str> = status.peers.iter().map(|p| p.hostname.as_str()).collect();
    assert_eq!(names, vec!["alpha", "Beta"]);
}

#[test]
fn exit_node_active_iff_any_peer_advertises() {
    let none = vec![peer("a", true, false), peer("b", false, false)];
    assert!(!any_exit_node(&none));
    let one = vec![peer("a", true, false), peer("b", false, true)];
    assert!(any_exit_node(&one));
    let status = build_status("Running".to_string(), self_node(), one, None);
    assert!(status.exit_node_active);
}

#[test]
fn exit_node_active_false_for_empty_peer_set() {
    let status = build_status("Running".to_string(), self_node(), vec![], None);
    assert!(!status.exit_node_active);
    assert!(status.peers.is_empty());
}

#[test]
fn tailnet_name_defaults_to_empty() {
    let status = build_status("Running".to_string(), self_node(), vec![], None);
    assert_eq!(status.tailnet_name, "");
    let named = build_status(
        "Running".to_string(),
        self_node(),
        vec![],
        Some("example.ts.net".to_string()),
    );
    assert_eq!(named.tailnet_name, "example.ts.net");
}

#[test]
fn primary_ip_is_first_or_empty() {
    assert_eq!(primary_ip(&vec!["100.64.0.1".to_string(), "fd7a::1".to_string()]), "100.64.0.1");
    assert_eq!(primary_ip(&vec![]), "");
}
