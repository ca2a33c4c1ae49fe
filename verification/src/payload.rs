//! The payload walkers: from one CLI invocation's outcome to the
//! normalized model.
//!
//! A status or preferences query hands back JSON on stdout.  The bytes
//! are decoded at the trusted boundary; everything after — which
//! members are required, which default, and how the raw vocabulary
//! becomes the model — is decided here, member by member.  The whole
//! payload is rejected atomically on the first ill-typed member;
//! unknown members are ignored.

use vstd::prelude::*;
use vstd::string::StringExecFns;
use crate::daemon::{
    cli_stdout, concat_text, spec_cli_failure_message, spec_cli_stdout, spec_cli_success,
    CliOutcome, DaemonError,
};
use crate::jsonio::{
    json_array, json_bool, json_get, json_is_null, json_object_values, json_parses, json_str,
    parse_json,
};
use crate::prefs::{
    reconcile_read, spec_exit_advertised, spec_join_commas, spec_nondefault, TailscalePrefs,
};
use crate::status::{build_status, peers_sorted, spec_any_exit, NodeInfo, PeerInfo, TailscaleStatus};
use crate::text::begins_with;

verus! {

/// A parse failure wrapped as the typed error: the query's own prefix,
/// then the detail verbatim.
fn parse_error(prefix: &str, detail: &str) -> (r: DaemonError)
    ensures
        r.message@ == prefix@ + detail@,
        begins_with(r.message@, prefix@),
{
    let m = concat_text(prefix, detail);
    proof {
        assert((prefix@ + detail@).take(prefix@.len() as int) =~= prefix@);
    }
    DaemonError { message: m }
}

/// A boolean member: absent reads as false, anything but a JSON
/// boolean rejects the payload.
fn field_bool(v: &serde_json::Value, key: &str) -> Result<bool, String> {
    match json_get(v, key) {
        None => Ok(false),
        Some(x) => match json_bool(x) {
            Some(b) => Ok(b),
            None => Err(concat_text("expected a boolean in field ", key)),
        },
    }
}

/// A string member: absent reads as the empty string, anything but a
/// JSON string rejects the payload.
fn field_string(v: &serde_json::Value, key: &str) -> Result<String, String> {
    match json_get(v, key) {
        None => Ok(String::new()),
        Some(x) => match json_str(x) {
            Some(s) => Ok(s),
            None => Err(concat_text("expected a string in field ", key)),
        },
    }
}

/// An array of strings; anything else rejects the payload.
fn parse_string_array(v: &serde_json::Value) -> Result<Vec<String>, String> {
    match json_array(v) {
        None => Err(String::from_str("expected an array of strings")),
        Some(items) => {
            let mut out: Vec<String> = Vec::new();
            let mut i: usize = 0;
            while i < items.len()
                decreases items.len() - i,
            {
                match json_str(&items[i]) {
                    Some(s) => out.push(s),
                    None => {
                        return Err(String::from_str("expected an array of strings"));
                    },
                }
                i += 1;
            }
            Ok(out)
        },
    }
}

/// One raw peer record: every member defaults when absent, and the
/// record must be a JSON object.
fn parse_peer(v: &serde_json::Value) -> Result<PeerInfo, String> {
    if json_object_values(v).is_none() {
        return Err(String::from_str("expected a peer object"));
    }
    let hostname = field_string(v, "HostName")?;
    let tailscale_ips = match json_get(v, "TailscaleIPs") {
        None => Vec::new(),
        Some(x) => parse_string_array(x)?,
    };
    let os = field_string(v, "OS")?;
    let online = field_bool(v, "Online")?;
    let exit_node = field_bool(v, "ExitNode")?;
    Ok(PeerInfo { hostname, tailscale_ips, os, online, exit_node })
}

/// The whole status payload: the backend state and the local node are
/// required, the peer map and the tailnet descriptor default.  A
/// successful parse ends in the normalized snapshot.
fn parse_status_value(v: &serde_json::Value) -> (r: Result<TailscaleStatus, String>)
    ensures
        r is Ok ==> peers_sorted(r->Ok_0.peers@) && r->Ok_0.exit_node_active == spec_any_exit(
            r->Ok_0.peers@,
        ),
{
    let backend_state = match json_get(v, "BackendState") {
        None => {
            return Err(String::from_str("missing field BackendState"));
        },
        Some(x) => match json_str(x) {
            Some(s) => s,
            None => {
                return Err(String::from_str("expected a string in field BackendState"));
            },
        },
    };
    let self_peer = match json_get(v, "Self") {
        None => {
            return Err(String::from_str("missing field Self"));
        },
        Some(x) => parse_peer(x)?,
    };
    let self_node = NodeInfo {
        hostname: self_peer.hostname,
        tailscale_ips: self_peer.tailscale_ips,
    };
    let peers = match json_get(v, "Peer") {
        None => Vec::new(),
        Some(x) => {
            match json_object_values(x) {
                None => {
                    return Err(String::from_str("expected an object in field Peer"));
                },
                Some(entries) => {
                    let mut peers: Vec<PeerInfo> = Vec::new();
                    let mut i: usize = 0;
                    while i < entries.len()
                        decreases entries.len() - i,
                    {
                        peers.push(parse_peer(entries[i])?);
                        i += 1;
                    }
                    peers
                },
            }
        },
    };
    let tailnet_name = match json_get(v, "CurrentTailnet") {
        None => None,
        Some(x) => {
            if json_is_null(x) {
                None
            } else if json_object_values(x).is_none() {
                return Err(String::from_str("expected an object in field CurrentTailnet"));
            } else {
                Some(field_string(x, "Name")?)
            }
        },
    };
    Ok(build_status(backend_state, self_node, peers, tailnet_name))
}

/// The whole preferences payload: every member defaults, the raw route
/// list may be absent or null, and the login name sits two optional
/// objects deep.  The raw route list leaves reconciled: the exit-node
/// bit read off it, the default entries stripped from the user-facing
/// string — one raw list behind both derived fields.
fn parse_prefs_value(v: &serde_json::Value) -> (r: Result<TailscalePrefs, String>)
    ensures
        r is Ok ==> exists|rs: Seq<Seq<char>>|
            #[trigger] spec_exit_advertised(rs) == r->Ok_0.advertise_exit_node
                && r->Ok_0.advertise_routes@ == spec_join_commas(spec_nondefault(rs)),
{
    let accept_dns = field_bool(v, "CorpDns")?;
    let accept_routes = field_bool(v, "RouteAll")?;
    let shields_up = field_bool(v, "ShieldsUp")?;
    let ssh = field_bool(v, "RunSSH")?;
    let webclient = field_bool(v, "RunWebClient")?;
    let hostname = field_string(v, "Hostname")?;
    let exit_node_allow_lan = field_bool(v, "ExitNodeAllowLanAccess")?;
    let raw_routes = match json_get(v, "AdvertiseRoutes") {
        None => None,
        Some(x) => {
            if json_is_null(x) {
                None
            } else {
                Some(parse_string_array(x)?)
            }
        },
    };
    let login_name = match json_get(v, "Config") {
        None => String::new(),
        Some(c) => {
            if json_is_null(c) {
                String::new()
            } else if json_object_values(c).is_none() {
                return Err(String::from_str("expected an object in field Config"));
            } else {
                match json_get(c, "UserProfile") {
                    None => String::new(),
                    Some(u) => {
                        if json_is_null(u) {
                            String::new()
                        } else if json_object_values(u).is_none() {
                            return Err(
                                String::from_str("expected an object in field UserProfile"),
                            );
                        } else {
                            field_string(u, "LoginName")?
                        }
                    },
                }
            }
        },
    };
    let reconciled = reconcile_read(&raw_routes);
    let p = TailscalePrefs {
        accept_dns,
        accept_routes,
        shields_up,
        ssh,
        advertise_exit_node: reconciled.0,
        exit_node_allow_lan,
        webclient,
        hostname,
        advertise_routes: reconciled.1,
        login_name,
    };
    proof {
        // the raw list the daemon reported — empty when absent — is
        // the one list both derived fields came from
        match &raw_routes {
            Some(rs) => {
                assert(spec_exit_advertised(rs.deep_view()) == p.advertise_exit_node
                    && p.advertise_routes@ == spec_join_commas(spec_nondefault(rs.deep_view())));
            },
            None => {
                reveal(Seq::filter);
                let empty = Seq::<Seq<char>>::empty();
                assert(spec_nondefault(empty) =~~= empty);
                assert(spec_exit_advertised(empty) == p.advertise_exit_node
                    && p.advertise_routes@ == spec_join_commas(spec_nondefault(empty)));
            },
        }
    }
    Ok(p)
}

/// The status query, from the invocation's outcome to the snapshot.
///
/// A launch failure or non-zero exit yields exactly the wrapped
/// diagnostic.  On a zero exit, stdout that is not one well-formed
/// JSON document is owed a failure, and every failure carries the
/// parse-failure prefix.  A snapshot comes back only from a zero exit
/// whose payload parsed; its peers are in display order and its
/// exit-node bit is the disjunction of theirs.
pub fn get_status(out: CliOutcome) -> (r: Result<TailscaleStatus, DaemonError>)
    ensures
        r is Ok ==> spec_cli_success(out) && json_parses(spec_cli_stdout(out)) && peers_sorted(
            r->Ok_0.peers@,
        ) && r->Ok_0.exit_node_active == spec_any_exit(r->Ok_0.peers@),
        !spec_cli_success(out) ==> r is Err && r->Err_0.message@ == spec_cli_failure_message(
            out,
            "Failed to run tailscale: "@,
            "tailscale status failed: "@,
        ),
        spec_cli_success(out) && !json_parses(spec_cli_stdout(out)) ==> r is Err,
        spec_cli_success(out) && r is Err ==> begins_with(
            r->Err_0.message@,
            "Failed to parse tailscale JSON: "@,
        ),
{
    let stdout = match cli_stdout(out, "Failed to run tailscale: ", "tailscale status failed: ") {
        Ok(b) => b,
        Err(e) => {
            return Err(e);
        },
    };
    let value = match parse_json(stdout.as_slice()) {
        Ok(v) => v,
        Err(e) => {
            return Err(parse_error("Failed to parse tailscale JSON: ", e.as_str()));
        },
    };
    match parse_status_value(&value) {
        Ok(s) => Ok(s),
        Err(e) => Err(parse_error("Failed to parse tailscale JSON: ", e.as_str())),
    }
}

/// The preferences query, from the invocation's outcome to the
/// reconciled preference set.
///
/// A launch failure or non-zero exit yields exactly the wrapped
/// diagnostic.  On a zero exit, stdout that is not one well-formed
/// JSON document is owed a failure, and every failure carries the
/// parse-failure prefix.  A preference set comes back only from a zero
/// exit whose payload parsed, and its two derived fields agree: one
/// raw route list reads back as that exit-node bit and that
/// user-facing route string.
pub fn get_prefs(out: CliOutcome) -> (r: Result<TailscalePrefs, DaemonError>)
    ensures
        r is Ok ==> spec_cli_success(out) && json_parses(spec_cli_stdout(out)) && (exists|
            rs: Seq<Seq<char>>,
        |
            #[trigger] spec_exit_advertised(rs) == r->Ok_0.advertise_exit_node
                && r->Ok_0.advertise_routes@ == spec_join_commas(spec_nondefault(rs))),
        !spec_cli_success(out) ==> r is Err && r->Err_0.message@ == spec_cli_failure_message(
            out,
            "Failed to run tailscale debug prefs: "@,
            "tailscale debug prefs failed: "@,
        ),
        spec_cli_success(out) && !json_parses(spec_cli_stdout(out)) ==> r is Err,
        spec_cli_success(out) && r is Err ==> begins_with(
            r->Err_0.message@,
            "Failed to parse prefs JSON: "@,
        ),
{
    let stdout = match cli_stdout(
        out,
        "Failed to run tailscale debug prefs: ",
        "tailscale debug prefs failed: ",
    ) {
        Ok(b) => b,
        Err(e) => {
            return Err(e);
        },
    };
    let value = match parse_json(stdout.as_slice()) {
        Ok(v) => v,
        Err(e) => {
            return Err(parse_error("Failed to parse prefs JSON: ", e.as_str()));
        },
    };
    match parse_prefs_value(&value) {
        Ok(p) => Ok(p),
        Err(e) => Err(parse_error("Failed to parse prefs JSON: ", e.as_str())),
    }
}

} // verus!
