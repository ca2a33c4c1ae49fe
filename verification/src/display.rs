//! The foreground's debounced display state.
//!
//! The panel applet holds one record of what it shows: connectivity,
//! the local node, the peer list, a status line, and two small
//! decrement-on-tick counters that keep freshly shown text from
//! flickering away.  Every event drained from the coordinator, and
//! every user action, updates this record through the functions here;
//! each says exactly what the new record is.

use vstd::prelude::*;
use vstd::string::{StrSliceExecFns, StringExecFns};
use crate::config::{spec_assoc, AppConfig};
use crate::coordinator::Event;
use crate::daemon::concat_text;
use crate::status::{primary_ip, spec_running, PeerInfo, TailscaleStatus};
use crate::text::{str_eq, trim_spec, trim_text};

verus! {

/// Everything the applet displays, replaced field by field as events
/// and user actions arrive.
#[derive(Debug, Clone)]
pub struct AppletState {
    pub connected: bool,
    pub is_toggling: bool,
    pub status_message: String,
    pub status_hold_ticks: u8,
    pub self_hostname: String,
    pub self_ip: String,
    pub tailnet_name: String,
    pub peers: Vec<PeerInfo>,
    pub exit_node_active: bool,
    pub error: Option<String>,
    pub copied_ip: Option<String>,
    pub copied_hold_ticks: u8,
    pub editing_ssh_user: Option<(String, String)>,
}

/// The resting status line for a connectivity bit.
pub open spec fn spec_status_label(connected: bool) -> Seq<char> {
    if connected {
        "Connected"@
    } else {
        "Disconnected"@
    }
}

/// The in-progress status line shown while a toggle is under way.
pub open spec fn spec_progress_label(connected: bool) -> Seq<char> {
    if connected {
        "Disconnecting..."@
    } else {
        "Connecting..."@
    }
}

/// The resting status line, as a value.
fn status_label(connected: bool) -> (r: String)
    ensures
        r@ == spec_status_label(connected),
{
    if connected {
        String::from_str("Connected")
    } else {
        String::from_str("Disconnected")
    }
}

/// The in-progress status line, as a value.
fn progress_label(connected: bool) -> (r: String)
    ensures
        r@ == spec_progress_label(connected),
{
    if connected {
        String::from_str("Disconnecting...")
    } else {
        String::from_str("Connecting...")
    }
}

/// The display state shown before any event arrived, built from one
/// initial status query: a failed query shows a disconnected, empty
/// panel, never an error box.
pub fn init_applet_state(initial: Result<TailscaleStatus, crate::daemon::DaemonError>) -> (r:
    AppletState)
    ensures
        r.is_toggling == false,
        r.status_hold_ticks == 0,
        r.error is None,
        r.copied_ip is None,
        r.copied_hold_ticks == 0,
        r.editing_ssh_user is None,
        r.status_message@ == spec_status_label(r.connected),
        match initial {
            Ok(status) => {
                &&& r.connected == spec_running(status)
                &&& r.self_hostname == status.self_node.hostname
                &&& (status.self_node.tailscale_ips@.len() > 0 ==> r.self_ip@
                    == status.self_node.tailscale_ips@[0]@)
                &&& (status.self_node.tailscale_ips@.len() == 0 ==> r.self_ip@ == Seq::<
                    char,
                >::empty())
                &&& r.tailnet_name == status.tailnet_name
                &&& r.peers == status.peers
                &&& r.exit_node_active == status.exit_node_active
            },
            Err(_) => {
                &&& r.connected == false
                &&& r.self_hostname@ == Seq::<char>::empty()
                &&& r.self_ip@ == Seq::<char>::empty()
                &&& r.tailnet_name@ == Seq::<char>::empty()
                &&& r.peers@.len() == 0
                &&& r.exit_node_active == false
            },
        },
{
    let (connected, self_hostname, self_ip, tailnet_name, peers, exit_node_active) = match initial {
        Ok(status) => (
            str_eq(status.backend_state.as_str(), "Running"),
            status.self_node.hostname,
            primary_ip(&status.self_node.tailscale_ips),
            status.tailnet_name,
            status.peers,
            status.exit_node_active,
        ),
        Err(_) => (false, String::new(), String::new(), String::new(), Vec::new(), false),
    };
    AppletState {
        connected,
        is_toggling: false,
        status_message: status_label(connected),
        status_hold_ticks: 0,
        self_hostname,
        self_ip,
        tailnet_name,
        peers,
        exit_node_active,
        error: None,
        copied_ip: None,
        copied_hold_ticks: 0,
        editing_ssh_user: None,
    }
}

/// Applies one drained event to the display state.
///
/// A successful status update replaces the whole snapshot and clears
/// the error box; a failed one shows the diagnostic and reads as
/// disconnected.  Either way the status line is left alone while hold
/// ticks remain (counting one down) or while a toggle is under way.  A
/// toggle's start switches the line to its in-progress text; its
/// completion shows the outcome and holds it for three poll cycles.
pub fn apply_event(state: &mut AppletState, event: Event)
    ensures
        match event {
            Event::StatusUpdate(result) => {
                let held = old(state).status_hold_ticks > 0;
                &&& *final(state) == (AppletState {
                    connected: final(state).connected,
                    status_message: final(state).status_message,
                    status_hold_ticks: final(state).status_hold_ticks,
                    self_hostname: final(state).self_hostname,
                    self_ip: final(state).self_ip,
                    tailnet_name: final(state).tailnet_name,
                    peers: final(state).peers,
                    exit_node_active: final(state).exit_node_active,
                    error: final(state).error,
                    ..*old(state)
                })
                &&& (held ==> final(state).status_hold_ticks == old(state).status_hold_ticks - 1
                    && final(state).status_message == old(state).status_message)
                &&& (!held ==> final(state).status_hold_ticks == 0)
                &&& (!held && old(state).is_toggling ==> final(state).status_message == old(
                    state,
                ).status_message)
                &&& match result {
                    Ok(status) => {
                        &&& final(state).connected == spec_running(status)
                        &&& final(state).self_hostname == status.self_node.hostname
                        &&& (status.self_node.tailscale_ips@.len() > 0 ==> final(state).self_ip@
                            == status.self_node.tailscale_ips@[0]@)
                        &&& (status.self_node.tailscale_ips@.len() == 0 ==> final(state).self_ip@
                            == Seq::<char>::empty())
                        &&& final(state).tailnet_name == status.tailnet_name
                        &&& final(state).peers == status.peers
                        &&& final(state).exit_node_active == status.exit_node_active
                        &&& final(state).error is None
                        &&& (!held && !old(state).is_toggling ==> final(state).status_message@
                            == spec_status_label(final(state).connected))
                    },
                    Err(e) => {
                        &&& final(state).connected == false
                        &&& final(state).error matches Some(msg) && msg@ == e.message@
                        &&& final(state).self_hostname == old(state).self_hostname
                        &&& final(state).self_ip == old(state).self_ip
                        &&& final(state).tailnet_name == old(state).tailnet_name
                        &&& final(state).peers == old(state).peers
                        &&& final(state).exit_node_active == old(state).exit_node_active
                        &&& (!held && !old(state).is_toggling ==> final(state).status_message@
                            == "Not running"@)
                    },
                }
            },
            Event::ToggleStarted => {
                &&& *final(state) == (AppletState {
                    is_toggling: true,
                    status_message: final(state).status_message,
                    ..*old(state)
                })
                &&& final(state).status_message@ == spec_progress_label(old(state).connected)
            },
            Event::ToggleComplete(result) => {
                &&& *final(state) == (AppletState {
                    is_toggling: false,
                    status_hold_ticks: 3,
                    status_message: final(state).status_message,
                    ..*old(state)
                })
                &&& match result {
                    Ok(msg) => final(state).status_message == msg,
                    Err(e) => final(state).status_message@ == "Error: "@ + e.message@,
                }
            },
        },
{
    match event {
        Event::StatusUpdate(result) => {
            let held = state.status_hold_ticks > 0;
            match result {
                Ok(status) => {
                    state.connected = str_eq(status.backend_state.as_str(), "Running");
                    state.self_hostname = status.self_node.hostname;
                    state.self_ip = primary_ip(&status.self_node.tailscale_ips);
                    state.tailnet_name = status.tailnet_name;
                    state.peers = status.peers;
                    state.exit_node_active = status.exit_node_active;
                    state.error = None;
                    if held {
                        state.status_hold_ticks = state.status_hold_ticks - 1;
                    } else if !state.is_toggling {
                        state.status_message = status_label(state.connected);
                    }
                },
                Err(e) => {
                    state.connected = false;
                    state.error = Some(e.message);
                    if held {
                        state.status_hold_ticks = state.status_hold_ticks - 1;
                    } else if !state.is_toggling {
                        state.status_message = String::from_str("Not running");
                    }
                },
            }
        },
        Event::ToggleStarted => {
            state.is_toggling = true;
            state.status_message = progress_label(state.connected);
        },
        Event::ToggleComplete(result) => {
            state.is_toggling = false;
            state.status_hold_ticks = 3;
            match result {
                Ok(msg) => {
                    state.status_message = msg;
                },
                Err(e) => {
                    state.status_message = concat_text("Error: ", e.message.as_str());
                },
            }
        },
    }
}

/// One display tick: the copied-address feedback counts down, and the
/// feedback text disappears when the count runs out.
pub fn poll_tick(state: &mut AppletState)
    ensures
        old(state).copied_hold_ticks == 0 ==> *final(state) == *old(state),
        old(state).copied_hold_ticks > 1 ==> *final(state) == (AppletState {
            copied_hold_ticks: (old(state).copied_hold_ticks - 1) as u8,
            ..*old(state)
        }),
        old(state).copied_hold_ticks == 1 ==> *final(state) == (AppletState {
            copied_hold_ticks: 0,
            copied_ip: None,
            ..*old(state)
        }),
{
    if state.copied_hold_ticks > 0 {
        state.copied_hold_ticks = state.copied_hold_ticks - 1;
        if state.copied_hold_ticks == 0 {
            state.copied_ip = None;
        }
    }
}

/// The user pressed the toggle button: the state reads as toggling and
/// the status line switches to the in-progress text at once, before
/// the coordinator confirms the start.
pub fn request_toggle(state: &mut AppletState)
    ensures
        *final(state) == (AppletState {
            is_toggling: true,
            status_message: final(state).status_message,
            ..*old(state)
        }),
        final(state).status_message@ == spec_progress_label(old(state).connected),
{
    state.is_toggling = true;
    state.status_message = progress_label(state.connected);
}

/// The user copied a peer's address: the feedback text shows for three
/// poll cycles.
pub fn copy_ip(state: &mut AppletState, ip: String)
    ensures
        *final(state) == (AppletState {
            copied_ip: Some(ip),
            copied_hold_ticks: 3,
            ..*old(state)
        }),
{
    state.copied_ip = Some(ip);
    state.copied_hold_ticks = 3;
}

/// The user opened the username editor for a host: the edit box starts
/// from the configured username, or empty when none is configured.
pub fn edit_ssh_user(state: &mut AppletState, config: &AppConfig, hostname: String)
    ensures
        *final(state) == (AppletState {
            editing_ssh_user: final(state).editing_ssh_user,
            ..*old(state)
        }),
        final(state).editing_ssh_user matches Some(p) && p.0 == hostname && (match spec_assoc(
            config.ssh_usernames@,
            hostname@,
        ) {
            Some(u) => p.1@ == u,
            None => p.1@ == Seq::<char>::empty(),
        }),
{
    let current = match config.ssh_username(hostname.as_str()) {
        Some(u) => u,
        None => String::new(),
    };
    state.editing_ssh_user = Some((hostname, current));
}

/// The user typed in the username editor: the text is replaced, the
/// edited host stays; without an open editor nothing changes.
pub fn ssh_user_input(state: &mut AppletState, text: String)
    ensures
        match old(state).editing_ssh_user {
            Some(p) => *final(state) == (AppletState {
                editing_ssh_user: Some((p.0, text)),
                ..*old(state)
            }),
            None => *final(state) == *old(state),
        },
{
    match &mut state.editing_ssh_user {
        Some(p) => {
            p.1 = text;
        },
        None => {},
    }
}

/// The user saved the username editor for a host: the trimmed text
/// replaces the host's configured username, an empty result removes
/// the entry, the editor closes, and the caller is told whether the
/// configuration changed and wants persisting.
pub fn save_ssh_user(state: &mut AppletState, config: &mut AppConfig, hostname: String) -> (saved:
    bool)
    ensures
        old(config).wf() ==> final(config).wf(),
        match old(state).editing_ssh_user {
            Some(e) => {
                &&& saved
                &&& *final(state) == (AppletState { editing_ssh_user: None, ..*old(state) })
                &&& (trim_spec(e.1@).len() == 0 ==> final(config).ssh_usernames@ == old(
                    config,
                ).ssh_usernames@.filter(|p: (String, String)| p.0@ != hostname@))
                &&& (trim_spec(e.1@).len() > 0 ==> {
                    let kept = old(config).ssh_usernames@.filter(
                        |p: (String, String)| p.0@ != hostname@,
                    );
                    &&& final(config).ssh_usernames@.len() == kept.len() + 1
                    &&& final(config).ssh_usernames@.drop_last() == kept
                    &&& final(config).ssh_usernames@.last().0 == hostname
                    &&& final(config).ssh_usernames@.last().1@ == trim_spec(e.1@)
                })
            },
            None => {
                &&& !saved
                &&& *final(state) == *old(state)
                &&& *final(config) == *old(config)
            },
        },
{
    let editing = state.editing_ssh_user.take();
    match editing {
        Some(e) => {
            let username = trim_text(e.1.as_str());
            if username.as_str().is_empty() {
                config.remove_ssh_username(hostname.as_str());
            } else {
                config.set_ssh_username(hostname, username);
            }
            state.editing_ssh_user = None;
            true
        },
        None => {
            state.editing_ssh_user = None;
            false
        },
    }
}

/// The peer a mesh address belongs to: the first peer whose primary
/// address is the one given.
pub open spec fn spec_peer_with_ip(peers: Seq<PeerInfo>, ip: Seq<char>) -> Option<PeerInfo>
    decreases peers.len(),
{
    if peers.len() == 0 {
        None
    } else if peers[0].tailscale_ips@.len() > 0 && peers[0].tailscale_ips@[0]@ == ip {
        Some(peers[0])
    } else {
        spec_peer_with_ip(peers.drop_first(), ip)
    }
}

/// The target handed to an SSH launch for a mesh address: the owning
/// peer's configured username in front of the address, or the bare
/// address when no peer or no non-empty username is configured.
pub fn ssh_target(peers: &Vec<PeerInfo>, config: &AppConfig, ip: &str) -> (r: String)
    ensures
        match spec_peer_with_ip(peers@, ip@) {
            Some(peer) => match spec_assoc(config.ssh_usernames@, peer.hostname@) {
                Some(u) => {
                    &&& (u.len() > 0 ==> r@ == u + "@"@ + ip@)
                    &&& (u.len() == 0 ==> r@ == ip@)
                },
                None => r@ == ip@,
            },
            None => r@ == ip@,
        },
{
    let ghost ps = peers@;
    let mut i: usize = 0;
    proof {
        assert(ps.skip(0) =~= ps);
    }
    while i < peers.len()
        invariant
            i <= peers.len(),
            ps == peers@,
            spec_peer_with_ip(ps, ip@) == spec_peer_with_ip(ps.skip(i as int), ip@),
        decreases peers.len() - i,
    {
        proof {
            assert(ps.skip(i as int).drop_first() =~= ps.skip(i + 1));
            assert(ps.skip(i as int)[0] == ps[i as int]);
        }
        let has_ip = peers[i].tailscale_ips.len() > 0 && str_eq(
            peers[i].tailscale_ips[0].as_str(),
            ip,
        );
        if has_ip {
            proof {
                assert(spec_peer_with_ip(ps.skip(i as int), ip@) == Some(ps[i as int]));
            }
            match config.ssh_username(peers[i].hostname.as_str()) {
                Some(u) => {
                    if u.as_str().is_empty() {
                        return String::from_str(ip);
                    }
                    let mut s = u;
                    s.append("@");
                    s.append(ip);
                    return s;
                },
                None => {
                    return String::from_str(ip);
                },
            }
        }
        i += 1;
    }
    proof {
        assert(ps.skip(ps.len() as int) =~= Seq::<PeerInfo>::empty());
    }
    String::from_str(ip)
}

/// How many of the peers are online.
pub open spec fn spec_online_count(s: Seq<PeerInfo>) -> int
    decreases s.len(),
{
    if s.len() == 0 {
        0
    } else {
        spec_online_count(s.drop_last()) + if s.last().online {
            1int
        } else {
            0int
        }
    }
}

/// Counts the online peers for the devices header.
pub fn online_count(peers: &Vec<PeerInfo>) -> (n: usize)
    ensures
        n == spec_online_count(peers@),
{
    let ghost ps = peers@;
    let mut n: usize = 0;
    let mut i: usize = 0;
    proof {
        assert(ps.take(0) =~= Seq::<PeerInfo>::empty());
    }
    while i < peers.len()
        invariant
            i <= peers.len(),
            ps == peers@,
            n <= i,
            n == spec_online_count(ps.take(i as int)),
        decreases peers.len() - i,
    {
        proof {
            assert(ps.take(i + 1).drop_last() =~= ps.take(i as int));
            assert(ps.take(i + 1).last() == ps[i as int]);
        }
        if peers[i].online {
            n = n + 1;
        }
        i += 1;
    }
    proof {
        assert(ps.take(ps.len() as int) =~= ps);
    }
    n
}

/// The name line of one peer row: the online indicator, the hostname,
/// and the OS tag.
pub fn peer_name_label(peer: &PeerInfo) -> (r: String)
    ensures
        peer.online ==> r@ == "● "@ + peer.hostname@ + " ("@ + peer.os@ + ")"@,
        !peer.online ==> r@ == "○ "@ + peer.hostname@ + " ("@ + peer.os@ + ")"@,
{
    let mut s = if peer.online {
        String::from_str("● ")
    } else {
        String::from_str("○ ")
    };
    s.append(peer.hostname.as_str());
    s.append(" (");
    s.append(peer.os.as_str());
    s.append(")");
    s
}

/// The address line of one peer row: the copied-feedback text for the
/// address that was just copied, the indented address otherwise.
pub fn peer_ip_label(copied_ip: &Option<String>, ip: &str) -> (r: String)
    ensures
        match copied_ip {
            Some(c) => {
                &&& (c@ == ip@ ==> r@ == "  Copied!"@)
                &&& (c@ != ip@ ==> r@ == "  "@ + ip@)
            },
            None => r@ == "  "@ + ip@,
        },
{
    let copied = match copied_ip {
        Some(c) => str_eq(c.as_str(), ip),
        None => false,
    };
    if copied {
        String::from_str("  Copied!")
    } else {
        let mut s = String::from_str("  ");
        s.append(ip);
        s
    }
}

/// The character for one decimal digit.
pub open spec fn digit_char(d: nat) -> char {
    if d == 0 {
        '0'
    } else if d == 1 {
        '1'
    } else if d == 2 {
        '2'
    } else if d == 3 {
        '3'
    } else if d == 4 {
        '4'
    } else if d == 5 {
        '5'
    } else if d == 6 {
        '6'
    } else if d == 7 {
        '7'
    } else if d == 8 {
        '8'
    } else {
        '9'
    }
}

/// The usual decimal writing of a number, most significant digit
/// first, without leading zeroes.
pub open spec fn spec_decimal(n: nat) -> Seq<char>
    decreases n,
{
    if n < 10 {
        seq![digit_char(n)]
    } else {
        spec_decimal(n / 10).push(digit_char(n % 10))
    }
}

/// One decimal digit as text.
fn digit_str(d: usize) -> (r: &'static str)
    requires
        d < 10,
    ensures
        r@ == seq![digit_char(d as nat)],
{
    proof {
        reveal_strlit("0");
        reveal_strlit("1");
        reveal_strlit("2");
        reveal_strlit("3");
        reveal_strlit("4");
        reveal_strlit("5");
        reveal_strlit("6");
        reveal_strlit("7");
        reveal_strlit("8");
        reveal_strlit("9");
    }
    let r = if d == 0 {
        "0"
    } else if d == 1 {
        "1"
    } else if d == 2 {
        "2"
    } else if d == 3 {
        "3"
    } else if d == 4 {
        "4"
    } else if d == 5 {
        "5"
    } else if d == 6 {
        "6"
    } else if d == 7 {
        "7"
    } else if d == 8 {
        "8"
    } else {
        "9"
    };
    proof {
        assert(r@ =~= seq![digit_char(d as nat)]);
    }
    r
}

/// Writes a number in decimal.
pub fn decimal_string(n: usize) -> (r: String)
    ensures
        r@ == spec_decimal(n as nat),
    decreases n,
{
    if n < 10 {
        String::from_str(digit_str(n))
    } else {
        let mut s = decimal_string(n / 10);
        s.append(digit_str(n % 10));
        proof {
            assert(spec_decimal((n / 10) as nat).push(digit_char((n % 10) as nat)) =~= spec_decimal(
                (n / 10) as nat,
            ) + seq![digit_char((n % 10) as nat)]);
        }
        s
    }
}

/// The devices header of the popup: how many peers are online out of
/// how many.
pub fn devices_header(online: usize, total: usize) -> (r: String)
    ensures
        r@ == "Devices ("@ + spec_decimal(online as nat) + "/"@ + spec_decimal(total as nat)
            + " online)"@,
{
    let mut s = String::from_str("Devices (");
    s.append(decimal_string(online).as_str());
    s.append("/");
    s.append(decimal_string(total).as_str());
    s.append(" online)");
    s
}

/// The status line of the popup.
pub fn status_line(message: &str) -> (r: String)
    ensures
        r@ == "Status: "@ + message@,
{
    concat_text("Status: ", message)
}

} // verus!

