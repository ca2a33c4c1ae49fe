//! The settings page's state machine.
//!
//! The page holds its own copy of the preference set plus a status
//! line.  Each interaction either edits the page locally or asks for
//! daemon work — one call, or, for the two settings the daemon folds
//! into its route list, a fresh preferences read followed by one
//! recomputed `advertise-routes` write.  The caller performs the work
//! and hands the outcome back, and the functions here say exactly how
//! the page changes.

use vstd::prelude::*;
use vstd::string::StringExecFns;
use crate::daemon::{concat_text, DaemonError};
use crate::prefs::TailscalePrefs;

verus! {

/// What the settings page shows: the preference fields and a status
/// line.
#[derive(Debug, Clone)]
pub struct State {
    pub accept_dns: bool,
    pub accept_routes: bool,
    pub shields_up: bool,
    pub ssh: bool,
    pub advertise_exit_node: bool,
    pub exit_node_allow_lan: bool,
    pub webclient: bool,
    pub hostname: String,
    pub advertise_routes: String,
    pub login_name: String,
    pub status_message: String,
}

/// One interaction with the settings page.
#[derive(Debug, Clone)]
pub enum Message {
    ToggleAcceptDns(bool),
    ToggleAcceptRoutes(bool),
    ToggleShieldsUp(bool),
    ToggleSsh(bool),
    ToggleAdvertiseExitNode(bool),
    ToggleExitNodeAllowLan(bool),
    ToggleWebclient(bool),
    HostnameChanged(String),
    ApplyHostname,
    AdvertiseRoutesChanged(String),
    ApplyRoutes,
    OpenAdminConsole,
    Reload,
}

/// The daemon work an interaction asks for, if any.
#[derive(Debug, Clone)]
pub enum SettingsAction {
    /// The interaction was local to the page.
    NoCall,
    /// Set a boolean preference under the given flag.
    SetBool { flag: String, value: bool },
    /// Set a string preference under the given flag.
    SetString { flag: String, value: String },
    /// Query the preference set afresh, recompute the full route list
    /// with the exit-node bit set or cleared
    /// (`prefs::exit_node_write_arg`), and write it under
    /// `advertise-routes` in one call: the daemon has no first-class
    /// exit-node boolean.
    WriteExitNode { enable: bool },
    /// Query the preference set afresh, re-append the universal
    /// default entries if exit-node mode is on
    /// (`prefs::routes_write_arg`), and write the result under
    /// `advertise-routes`, so the edit never silently disables
    /// exit-node mode.
    WriteRoutes { routes: String },
    /// Query the preference set afresh.
    ReloadPrefs,
    /// Open the administration console in a browser.
    OpenAdminConsole,
}

/// The preference set the page falls back to when the initial query
/// fails: DNS accepted, everything else off and empty.
pub open spec fn spec_fallback_state(s: State) -> bool {
    &&& s.accept_dns == true
    &&& s.accept_routes == false
    &&& s.shields_up == false
    &&& s.ssh == false
    &&& s.advertise_exit_node == false
    &&& s.exit_node_allow_lan == false
    &&& s.webclient == false
    &&& s.hostname@ == Seq::<char>::empty()
    &&& s.advertise_routes@ == Seq::<char>::empty()
    &&& s.login_name@ == Seq::<char>::empty()
}

/// Whether the page shows exactly the given preference set.
pub open spec fn spec_shows_prefs(s: State, p: TailscalePrefs) -> bool {
    &&& s.accept_dns == p.accept_dns
    &&& s.accept_routes == p.accept_routes
    &&& s.shields_up == p.shields_up
    &&& s.ssh == p.ssh
    &&& s.advertise_exit_node == p.advertise_exit_node
    &&& s.exit_node_allow_lan == p.exit_node_allow_lan
    &&& s.webclient == p.webclient
    &&& s.hostname == p.hostname
    &&& s.advertise_routes == p.advertise_routes
    &&& s.login_name == p.login_name
}

/// The account line of the page: the login name, or the logged-out
/// text when none is set.
pub fn account_label(login_name: &str) -> (r: String)
    ensures
        login_name@.len() == 0 ==> r@ == "Not logged in"@,
        login_name@.len() > 0 ==> r@ == login_name@,
{
    if login_name.is_empty() {
        String::from_str("Not logged in")
    } else {
        String::from_str(login_name)
    }
}

/// The page as first shown, from the initial preference query: the
/// queried set with an empty status line, or the fallback set with a
/// load-failure line.
pub fn init(prefs: Result<TailscalePrefs, DaemonError>) -> (r: State)
    ensures
        match prefs {
            Ok(p) => spec_shows_prefs(r, p) && r.status_message@ == Seq::<char>::empty(),
            Err(e) => spec_fallback_state(r) && r.status_message@ == "Failed to load preferences: "@
                + e.message@,
        },
{
    match prefs {
        Ok(p) => State {
            accept_dns: p.accept_dns,
            accept_routes: p.accept_routes,
            shields_up: p.shields_up,
            ssh: p.ssh,
            advertise_exit_node: p.advertise_exit_node,
            exit_node_allow_lan: p.exit_node_allow_lan,
            webclient: p.webclient,
            hostname: p.hostname,
            advertise_routes: p.advertise_routes,
            login_name: p.login_name,
            status_message: String::new(),
        },
        Err(e) => State {
            accept_dns: true,
            accept_routes: false,
            shields_up: false,
            ssh: false,
            advertise_exit_node: false,
            exit_node_allow_lan: false,
            webclient: false,
            hostname: String::new(),
            advertise_routes: String::new(),
            login_name: String::new(),
            status_message: concat_text("Failed to load preferences: ", e.message.as_str()),
        },
    }
}

/// Takes one interaction as far as the page itself can: text edits
/// land in the page at once, and everything else turns into the daemon
/// work to perform.
pub fn update_local(state: &mut State, message: &Message) -> (r: SettingsAction)
    ensures
        match message {
            Message::ToggleAcceptDns(v) => *final(state) == *old(state) && (
            r matches SettingsAction::SetBool { flag, value } && flag@ == "accept-dns"@ && value
                == v),
            Message::ToggleAcceptRoutes(v) => *final(state) == *old(state) && (
            r matches SettingsAction::SetBool { flag, value } && flag@ == "accept-routes"@ && value
                == v),
            Message::ToggleShieldsUp(v) => *final(state) == *old(state) && (
            r matches SettingsAction::SetBool { flag, value } && flag@ == "shields-up"@ && value
                == v),
            Message::ToggleSsh(v) => *final(state) == *old(state) && (
            r matches SettingsAction::SetBool { flag, value } && flag@ == "ssh"@ && value == v),
            Message::ToggleAdvertiseExitNode(v) => *final(state) == *old(state) && (
            r matches SettingsAction::WriteExitNode { enable } && enable == v),
            Message::ToggleExitNodeAllowLan(v) => *final(state) == *old(state) && (
            r matches SettingsAction::SetBool { flag, value } && flag@
                == "exit-node-allow-lan-access"@ && value == v),
            Message::ToggleWebclient(v) => *final(state) == *old(state) && (
            r matches SettingsAction::SetBool { flag, value } && flag@ == "webclient"@ && value
                == v),
            Message::HostnameChanged(v) => r is NoCall && *final(state) == (State {
                hostname: *v,
                ..*old(state)
            }),
            Message::ApplyHostname => *final(state) == *old(state) && (
            r matches SettingsAction::SetString { flag, value } && flag@ == "hostname"@ && value
                == old(state).hostname),
            Message::AdvertiseRoutesChanged(v) => r is NoCall && *final(state) == (State {
                advertise_routes: *v,
                ..*old(state)
            }),
            Message::ApplyRoutes => *final(state) == *old(state) && (
            r matches SettingsAction::WriteRoutes { routes } && routes == old(
                state,
            ).advertise_routes),
            Message::OpenAdminConsole => r is OpenAdminConsole && *final(state) == *old(state),
            Message::Reload => r is ReloadPrefs && *final(state) == *old(state),
        },
{
    match message {
        Message::ToggleAcceptDns(v) => SettingsAction::SetBool {
            flag: String::from_str("accept-dns"),
            value: *v,
        },
        Message::ToggleAcceptRoutes(v) => SettingsAction::SetBool {
            flag: String::from_str("accept-routes"),
            value: *v,
        },
        Message::ToggleShieldsUp(v) => SettingsAction::SetBool {
            flag: String::from_str("shields-up"),
            value: *v,
        },
        Message::ToggleSsh(v) => SettingsAction::SetBool {
            flag: String::from_str("ssh"),
            value: *v,
        },
        Message::ToggleAdvertiseExitNode(v) => SettingsAction::WriteExitNode { enable: *v },
        Message::ToggleExitNodeAllowLan(v) => SettingsAction::SetBool {
            flag: String::from_str("exit-node-allow-lan-access"),
            value: *v,
        },
        Message::ToggleWebclient(v) => SettingsAction::SetBool {
            flag: String::from_str("webclient"),
            value: *v,
        },
        Message::HostnameChanged(v) => {
            state.hostname = v.clone();
            SettingsAction::NoCall
        },
        Message::ApplyHostname => SettingsAction::SetString {
            flag: String::from_str("hostname"),
            value: state.hostname.clone(),
        },
        Message::AdvertiseRoutesChanged(v) => {
            state.advertise_routes = v.clone();
            SettingsAction::NoCall
        },
        Message::ApplyRoutes => SettingsAction::WriteRoutes {
            routes: state.advertise_routes.clone(),
        },
        Message::OpenAdminConsole => SettingsAction::OpenAdminConsole,
        Message::Reload => SettingsAction::ReloadPrefs,
    }
}

/// The interactions whose daemon call returns no payload.
pub open spec fn spec_expects_set_result(m: Message) -> bool {
    match m {
        Message::ToggleAcceptDns(_) => true,
        Message::ToggleAcceptRoutes(_) => true,
        Message::ToggleShieldsUp(_) => true,
        Message::ToggleSsh(_) => true,
        Message::ToggleAdvertiseExitNode(_) => true,
        Message::ToggleExitNodeAllowLan(_) => true,
        Message::ToggleWebclient(_) => true,
        Message::ApplyHostname => true,
        Message::ApplyRoutes => true,
        _ => false,
    }
}

/// Applies the outcome of the daemon call one interaction asked for: a
/// success lands the new value in the page with the interaction's own
/// confirmation line; a failure changes nothing but the status line,
/// which shows the diagnostic.
pub fn apply_set_result(state: &mut State, message: &Message, result: Result<(), DaemonError>)
    requires
        spec_expects_set_result(*message),
    ensures
        (match result {
            Err(e) => *final(state) == (State {
                status_message: final(state).status_message,
                ..*old(state)
            }) && final(state).status_message@ == "Error: "@ + e.message@,
            Ok(_) => match message {
                Message::ToggleAcceptDns(v) => *final(state) == (State {
                    accept_dns: *v,
                    status_message: final(state).status_message,
                    ..*old(state)
                }) && final(state).status_message@ == "Accept DNS updated"@,
                Message::ToggleAcceptRoutes(v) => *final(state) == (State {
                    accept_routes: *v,
                    status_message: final(state).status_message,
                    ..*old(state)
                }) && final(state).status_message@ == "Accept routes updated"@,
                Message::ToggleShieldsUp(v) => *final(state) == (State {
                    shields_up: *v,
                    status_message: final(state).status_message,
                    ..*old(state)
                }) && final(state).status_message@ == "Shields up updated"@,
                Message::ToggleSsh(v) => *final(state) == (State {
                    ssh: *v,
                    status_message: final(state).status_message,
                    ..*old(state)
                }) && final(state).status_message@ == "SSH server updated"@,
                Message::ToggleAdvertiseExitNode(v) => *final(state) == (State {
                    advertise_exit_node: *v,
                    status_message: final(state).status_message,
                    ..*old(state)
                }) && final(state).status_message@ == "Exit node setting updated"@,
                Message::ToggleExitNodeAllowLan(v) => *final(state) == (State {
                    exit_node_allow_lan: *v,
                    status_message: final(state).status_message,
                    ..*old(state)
                }) && final(state).status_message@ == "LAN access setting updated"@,
                Message::ToggleWebclient(v) => *final(state) == (State {
                    webclient: *v,
                    status_message: final(state).status_message,
                    ..*old(state)
                }) && final(state).status_message@ == "Web client updated"@,
                Message::ApplyHostname => *final(state) == (State {
                    status_message: final(state).status_message,
                    ..*old(state)
                }) && final(state).status_message@ == "Hostname updated"@,
                Message::ApplyRoutes => *final(state) == (State {
                    status_message: final(state).status_message,
                    ..*old(state)
                }) && final(state).status_message@ == "Advertised routes updated"@,
                _ => true,
            },
        }),
{
    match result {
        Err(e) => {
            state.status_message = concat_text("Error: ", e.message.as_str());
        },
        Ok(_) => match message {
            Message::ToggleAcceptDns(v) => {
                state.accept_dns = *v;
                state.status_message = String::from_str("Accept DNS updated");
            },
            Message::ToggleAcceptRoutes(v) => {
                state.accept_routes = *v;
                state.status_message = String::from_str("Accept routes updated");
            },
            Message::ToggleShieldsUp(v) => {
                state.shields_up = *v;
                state.status_message = String::from_str("Shields up updated");
            },
            Message::ToggleSsh(v) => {
                state.ssh = *v;
                state.status_message = String::from_str("SSH server updated");
            },
            Message::ToggleAdvertiseExitNode(v) => {
                state.advertise_exit_node = *v;
                state.status_message = String::from_str("Exit node setting updated");
            },
            Message::ToggleExitNodeAllowLan(v) => {
                state.exit_node_allow_lan = *v;
                state.status_message = String::from_str("LAN access setting updated");
            },
            Message::ToggleWebclient(v) => {
                state.webclient = *v;
                state.status_message = String::from_str("Web client updated");
            },
            Message::ApplyHostname => {
                state.status_message = String::from_str("Hostname updated");
            },
            Message::ApplyRoutes => {
                state.status_message = String::from_str("Advertised routes updated");
            },
            _ => {},
        },
    }
}

/// Applies the outcome of a reload: a fresh preference set replaces
/// every field and confirms; a failure changes nothing but the status
/// line.
pub fn apply_reload(state: &mut State, result: Result<TailscalePrefs, DaemonError>)
    ensures
        match result {
            Ok(p) => spec_shows_prefs(*final(state), p) && final(state).status_message@
                == "Settings reloaded"@,
            Err(e) => *final(state) == (State {
                status_message: final(state).status_message,
                ..*old(state)
            }) && final(state).status_message@ == "Error reloading: "@ + e.message@,
        },
{
    match result {
        Ok(p) => {
            state.accept_dns = p.accept_dns;
            state.accept_routes = p.accept_routes;
            state.shields_up = p.shields_up;
            state.ssh = p.ssh;
            state.advertise_exit_node = p.advertise_exit_node;
            state.exit_node_allow_lan = p.exit_node_allow_lan;
            state.webclient = p.webclient;
            state.hostname = p.hostname;
            state.advertise_routes = p.advertise_routes;
            state.login_name = p.login_name;
            state.status_message = String::from_str("Settings reloaded");
        },
        Err(e) => {
            state.status_message = concat_text("Error reloading: ", e.message.as_str());
        },
    }
}

} // verus!
