use tailscale_core::daemon::DaemonError;
use tailscale_core::prefs::{exit_node_write_arg, routes_write_arg, TailscalePrefs};
use tailscale_core::settings_page::{
    account_label, apply_reload, apply_set_result, init, update_local, Message, SettingsAction,
};

fn prefs() -> TailscalePrefs {
    TailscalePrefs {
        accept_dns: true,
        accept_routes: true,
        shields_up: false,
        ssh: true,
        advertise_exit_node: true,
        exit_node_allow_lan: false,
        webclient: false,
        hostname: "box".to_string(),
        advertise_routes: "10.0.0.0/24".to_string(),
        login_name: "user@example.com".to_string(),
    }
}

#[test]
fn init_shows_queried_prefs() {
    let s = init(Ok(prefs()));
    assert!(s.accept_dns);
    assert!(s.advertise_exit_node);
    assert_eq!(s.hostname, "box");
    assert_eq!(s.advertise_routes, "10.0.0.0/24");
    assert_eq!(s.login_name, "user@example.com");
    assert_eq!(s.status_message, "");
}

#[test]
fn init_falls_back_on_failure() {
    let s = init(Err(DaemonError { message: "no daemon".to_string() }));
    assert!(s.accept_dns);
    assert!(!s.accept_routes);
    assert!(!s.advertise_exit_node);
    assert_eq!(s.hostname, "");
    assert_eq!(s.status_message, "Failed to load preferences: no daemon");
}

#[test]
fn toggles_map_to_cli_flags() {
    let mut s = init(Ok(prefs()));
    let action = update_local(&mut s, &Message::ToggleAcceptDns(false));
    match action {
        SettingsAction::SetBool { flag, value } => {
            assert_eq!(flag, "accept-dns");
            assert!(!value);
        },
        _ => panic!("expected a boolean set"),
    }
    let action = update_local(&mut s, &Message::ToggleExitNodeAllowLan(true));
    match action {
        SettingsAction::SetBool { flag, value } => {
            assert_eq!(flag, "exit-node-allow-lan-access");
            assert!(value);
        },
        _ => panic!("expected a boolean set"),
    }
}

#[test]
fn text_edits_stay_local_until_applied() {
    let mut s = init(Ok(prefs()));
    let action = update_local(&mut s, &Message::HostnameChanged("newbox".to_string()));
    assert!(matches!(action, SettingsAction::NoCall));
    assert_eq!(s.hostname, "newbox");
    let action = update_local(&mut s, &Message::ApplyHostname);
    match action {
        SettingsAction::SetString { flag, value } => {
            assert_eq!(flag, "hostname");
            assert_eq!(value, "newbox");
        },
        _ => panic!("expected a string set"),
    }
}

#[test]
fn set_outcome_lands_in_the_page() {
    let mut s = init(Ok(prefs()));
    apply_set_result(&mut s, &Message::ToggleShieldsUp(true), Ok(()));
    assert!(s.shields_up);
    assert_eq!(s.status_message, "Shields up updated");
    apply_set_result(
        &mut s,
        &Message::ToggleShieldsUp(false),
        Err(DaemonError { message: "denied".to_string() }),
    );
    // the failure leaves the value and shows the diagnostic
    assert!(s.shields_up);
    assert_eq!(s.status_message, "Error: denied");
}

#[test]
fn reload_replaces_every_field() {
    let mut s = init(Err(DaemonError { message: "down".to_string() }));
    apply_reload(&mut s, Ok(prefs()));
    assert!(s.advertise_exit_node);
    assert_eq!(s.advertise_routes, "10.0.0.0/24");
    assert_eq!(s.status_message, "Settings reloaded");
    apply_reload(&mut s, Err(DaemonError { message: "gone".to_string() }));
    assert_eq!(s.status_message, "Error reloading: gone");
    // the fields keep their last good values
    assert_eq!(s.advertise_routes, "10.0.0.0/24");
}

#[test]
fn account_label_handles_logged_out() {
    assert_eq!(account_label(""), "Not logged in");
    assert_eq!(account_label("user@example.com"), "user@example.com");
}

#[test]
fn exit_node_toggle_recomputes_routes() {
    let mut s = init(Ok(prefs()));
    match update_local(&mut s, &Message::ToggleAdvertiseExitNode(true)) {
        SettingsAction::WriteExitNode { enable } => assert!(enable),
        _ => panic!("expected a recomputed route write"),
    }
    // the written value is recomputed against the fresh read, in one
    // advertise-routes write
    assert_eq!(exit_node_write_arg(Ok(prefs()), true), "10.0.0.0/24,0.0.0.0/0,::/0");
    assert_eq!(exit_node_write_arg(Ok(prefs()), false), "10.0.0.0/24");
    // a failed read recomputes from an empty list
    let arg = exit_node_write_arg(Err(DaemonError { message: "down".to_string() }), true);
    assert_eq!(arg, "0.0.0.0/0,::/0");
}

#[test]
fn route_edit_keeps_exit_node_mode() {
    let mut s = init(Ok(prefs()));
    update_local(&mut s, &Message::AdvertiseRoutesChanged("192.168.1.0/24".to_string()));
    match update_local(&mut s, &Message::ApplyRoutes) {
        SettingsAction::WriteRoutes { routes } => assert_eq!(routes, "192.168.1.0/24"),
        _ => panic!("expected a recomputed route write"),
    }
    // the fresh read reports exit-node mode on: both universal default
    // entries are re-appended to the edit
    assert_eq!(routes_write_arg("192.168.1.0/24", Ok(prefs())), "192.168.1.0/24,0.0.0.0/0,::/0");
    // with exit-node mode off, or an unreadable preference set, the
    // edit passes through
    let mut off = prefs();
    off.advertise_exit_node = false;
    assert_eq!(routes_write_arg("192.168.1.0/24", Ok(off)), "192.168.1.0/24");
    assert_eq!(
        routes_write_arg("192.168.1.0/24", Err(DaemonError { message: "down".to_string() })),
        "192.168.1.0/24"
    );
}
