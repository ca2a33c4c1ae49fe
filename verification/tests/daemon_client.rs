use tailscale_core::daemon::{
    cli_stdout, connect_result, disconnect_result, set_bool_arg, set_pref_result, set_string_arg,
    CliOutcome,
};

fn failed(stderr: &str) -> CliOutcome {
    CliOutcome::Finished { exit_ok: false, stdout: vec![], stderr: stderr.to_string() }
}

fn succeeded() -> CliOutcome {
    CliOutcome::Finished { exit_ok: true, stdout: vec![], stderr: String::new() }
}

#[test]
fn nonzero_exit_wraps_stderr_verbatim() {
    // a query failing with "not logged in" surfaces a typed error whose
    // diagnostic contains that text; nothing panics
    let r = tailscale_core::payload::get_status(failed("not logged in"));
    let e = r.err().expect("a non-zero exit must be an error");
    assert!(e.message.contains("not logged in"));
    assert_eq!(e.message, "tailscale status failed: not logged in");
}

#[test]
fn launch_failure_is_an_error_not_a_panic() {
    let out = CliOutcome::LaunchFailed { detail: "No such file or directory".to_string() };
    let r = tailscale_core::payload::get_status(out);
    let e = r.err().expect("a launch failure must be an error");
    assert_eq!(e.message, "Failed to run tailscale: No such file or directory");
}

#[test]
fn cli_stdout_passes_payload_through() {
    let out = CliOutcome::Finished {
        exit_ok: true,
        stdout: b"payload".to_vec(),
        stderr: String::new(),
    };
    let r = cli_stdout(out, "run: ", "fail: ");
    assert_eq!(r.unwrap(), b"payload".to_vec());
}

#[test]
fn set_arguments_match_the_cli_shape() {
    assert_eq!(set_bool_arg("accept-dns", true), "--accept-dns");
    assert_eq!(set_bool_arg("accept-dns", false), "--accept-dns=false");
    assert_eq!(set_string_arg("hostname", "box"), "--hostname=box");
    assert_eq!(set_string_arg("advertise-routes", ""), "--advertise-routes=");
}

#[test]
fn set_result_wraps_flag_in_message() {
    let e = set_pref_result("shields-up", failed("oops")).err().unwrap();
    assert_eq!(e.message, "tailscale set shields-up failed: oops");
    assert!(set_pref_result("shields-up", succeeded()).is_ok());
}

#[test]
fn connect_and_disconnect_confirmations() {
    assert_eq!(connect_result(succeeded()).unwrap(), "Connected");
    assert_eq!(disconnect_result(succeeded()).unwrap(), "Disconnected");
    let e = connect_result(failed("denied")).err().unwrap();
    assert_eq!(e.message, "tailscale up failed: denied");
    let e = disconnect_result(failed("denied")).err().unwrap();
    assert_eq!(e.message, "tailscale down failed: denied");
}
