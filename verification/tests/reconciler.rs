use tailscale_core::prefs::{
    exit_node_advertised, exit_node_routes_arg, join_routes, reconcile_read, routes_with_exit,
    split_routes, strip_default_routes, user_routes_arg,
};

fn v(items: &[&str]) -> Vec<String> {
    items.iter().map(|s| s.to_string()).collect()
}

#[test]
fn enable_exit_node_round_trip() {
    // enabling on ["10.0.0.0/24"] yields exactly the three entries
    let raw = routes_with_exit(v(&["10.0.0.0/24"]), true);
    assert_eq!(raw.len(), 3);
    assert!(raw.contains(&"10.0.0.0/24".to_string()));
    assert!(raw.contains(&"0.0.0.0/0".to_string()));
    assert!(raw.contains(&"::/0".to_string()));
    // re-reading reports the bit set and the user-facing list unchanged
    let (active, user_routes) = reconcile_read(&Some(raw));
    assert!(active);
    assert_eq!(user_routes, "10.0.0.0/24");
}

#[test]
fn enable_exit_node_twice_no_duplicates() {
    let once = routes_with_exit(v(&["10.0.0.0/24"]), true);
    let twice = routes_with_exit(once.clone(), true);
    assert_eq!(once, twice);
    assert_eq!(twice.iter().filter(|r| *r == "0.0.0.0/0").count(), 1);
    assert_eq!(twice.iter().filter(|r| *r == "::/0").count(), 1);
}

#[test]
fn disable_exit_node_strips_both_entries() {
    let raw = v(&["0.0.0.0/0", "10.0.0.0/24", "::/0"]);
    let off = routes_with_exit(raw, false);
    assert_eq!(off, v(&["10.0.0.0/24"]));
    assert!(!exit_node_advertised(&off));
}

#[test]
fn user_edit_preserves_exit_node_entries() {
    // editing the route list while exit-node mode is on re-appends both
    // universal default entries
    let arg = user_routes_arg("192.168.1.0/24", true);
    assert_eq!(arg, "192.168.1.0/24,0.0.0.0/0,::/0");
    let raw = split_routes(&arg);
    assert!(raw.contains(&"192.168.1.0/24".to_string()));
    assert!(raw.contains(&"0.0.0.0/0".to_string()));
    assert!(raw.contains(&"::/0".to_string()));
}

#[test]
fn user_edit_without_exit_node_passes_through() {
    assert_eq!(user_routes_arg("192.168.1.0/24", false), "192.168.1.0/24");
    assert_eq!(user_routes_arg("", true), "0.0.0.0/0,::/0");
    assert_eq!(user_routes_arg("", false), "");
}

#[test]
fn read_path_reports_either_default_entry() {
    assert!(exit_node_advertised(&v(&["0.0.0.0/0"])));
    assert!(exit_node_advertised(&v(&["::/0"])));
    assert!(exit_node_advertised(&v(&["10.0.0.0/24", "::/0"])));
    assert!(!exit_node_advertised(&v(&["10.0.0.0/24"])));
    assert!(!exit_node_advertised(&v(&[])));
}

#[test]
fn strip_preserves_relative_order() {
    let raw = v(&["a", "0.0.0.0/0", "b", "::/0", "c"]);
    assert_eq!(strip_default_routes(&raw), v(&["a", "b", "c"]));
}

#[test]
fn reconcile_read_of_absent_list() {
    let (active, user_routes) = reconcile_read(&None);
    assert!(!active);
    assert_eq!(user_routes, "");
}

#[test]
fn join_and_split_routes() {
    assert_eq!(join_routes(&v(&["a", "b", "c"])), "a,b,c");
    assert_eq!(join_routes(&v(&[])), "");
    assert_eq!(join_routes(&v(&["a"])), "a");
    assert_eq!(split_routes(""), v(&[]));
    assert_eq!(split_routes("a,b,c"), v(&["a", "b", "c"]));
    // pieces are trimmed of surrounding whitespace
    assert_eq!(split_routes(" 10.0.0.0/24 ,\t192.168.1.0/24"), v(&["10.0.0.0/24", "192.168.1.0/24"]));
}

#[test]
fn exit_node_routes_arg_from_string() {
    // the settings protocol's write path works on the delimited string
    assert_eq!(exit_node_routes_arg("10.0.0.0/24", true), "10.0.0.0/24,0.0.0.0/0,::/0");
    assert_eq!(exit_node_routes_arg("10.0.0.0/24,0.0.0.0/0,::/0", false), "10.0.0.0/24");
    assert_eq!(exit_node_routes_arg("", true), "0.0.0.0/0,::/0");
}

#[test]
fn split_of_join_is_identity_for_plain_entries() {
    let routes = v(&["10.0.0.0/24", "192.168.1.0/24", "fd7a::/48"]);
    assert_eq!(split_routes(&join_routes(&routes)), routes);
}
