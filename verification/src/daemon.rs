//! Interpretation of one daemon CLI invocation: the exit-code/stderr
//! contract, the typed error every operation surfaces, and the argument
//! strings for the mutating subcommands.
//!
//! Running the external process is the caller's business; the functions
//! here take the observed outcome as a plain value and say exactly which
//! result each observation yields.

use vstd::prelude::*;
use vstd::string::StringExecFns;

verus! {

/// The only error kind surfaced by this crate: a failed daemon
/// interaction carrying human-readable diagnostic text.  It is never
/// promoted to a panic.
#[derive(Debug, Clone)]
pub struct DaemonError {
    pub message: String,
}

impl DaemonError {
    /// The diagnostic text, for display.
    pub fn text(&self) -> (r: &str)
        ensures
            r@ == self.message@,
    {
        self.message.as_str()
    }
}

/// What one CLI invocation was observed to do: either the process could
/// not be launched at all, or it finished with an exit status, its
/// standard output, and its standard error decoded as text.
pub enum CliOutcome {
    LaunchFailed { detail: String },
    Finished { exit_ok: bool, stdout: Vec<u8>, stderr: String },
}

/// The diagnostic message produced for an outcome that is not a success:
/// the launch-failure prefix or the non-zero-exit prefix, followed
/// verbatim by the diagnostic the process gave.
pub open spec fn spec_cli_failure_message(
    out: CliOutcome,
    run_prefix: Seq<char>,
    fail_prefix: Seq<char>,
) -> Seq<char> {
    match out {
        CliOutcome::LaunchFailed { detail } => run_prefix + detail@,
        CliOutcome::Finished { stderr, .. } => fail_prefix + stderr@,
    }
}

/// True iff the invocation finished with a zero exit status.
pub open spec fn spec_cli_success(out: CliOutcome) -> bool {
    out matches CliOutcome::Finished { exit_ok: true, .. }
}

/// The stdout payload of a finished invocation.
pub open spec fn spec_cli_stdout(out: CliOutcome) -> Seq<u8> {
    match out {
        CliOutcome::Finished { stdout, .. } => stdout@,
        CliOutcome::LaunchFailed { .. } => Seq::empty(),
    }
}

/// Concatenation of two text fragments into one diagnostic string.
pub(crate) fn concat_text(prefix: &str, detail: &str) -> (r: String)
    ensures
        r@ == prefix@ + detail@,
{
    let mut s = String::from_str(prefix);
    s.append(detail);
    s
}

/// Maps the outcome of one invocation to the daemon's stdout payload, or
/// to a `DaemonError` whose text is the given prefix followed by the
/// process's own diagnostic.  Success if and only if the process ran and
/// exited zero.
pub fn cli_stdout(out: CliOutcome, run_prefix: &str, fail_prefix: &str) -> (r: Result<
    Vec<u8>,
    DaemonError,
>)
    ensures
        r is Ok <==> spec_cli_success(out),
        spec_cli_success(out) ==> r->Ok_0@ == spec_cli_stdout(out),
        r is Err ==> r->Err_0.message@ == spec_cli_failure_message(out, run_prefix@, fail_prefix@),
{
    match out {
        CliOutcome::LaunchFailed { detail } => Err(
            DaemonError { message: concat_text(run_prefix, detail.as_str()) },
        ),
        CliOutcome::Finished { exit_ok, stdout, stderr } => {
            if exit_ok {
                Ok(stdout)
            } else {
                Err(DaemonError { message: concat_text(fail_prefix, stderr.as_str()) })
            }
        },
    }
}

/// Maps the outcome of a mutating invocation that returns no payload
/// (`set`) to `Ok(())` or the wrapped diagnostic, success if and only if
/// the exit status was zero.
pub fn cli_unit(out: CliOutcome, run_prefix: &str, fail_prefix: &str) -> (r: Result<
    (),
    DaemonError,
>)
    ensures
        r is Ok <==> spec_cli_success(out),
        r is Err ==> r->Err_0.message@ == spec_cli_failure_message(out, run_prefix@, fail_prefix@),
{
    match cli_stdout(out, run_prefix, fail_prefix) {
        Ok(_) => Ok(()),
        Err(e) => Err(e),
    }
}

/// Maps the outcome of a connect or disconnect invocation to the fixed
/// confirmation text on success, or the wrapped diagnostic.
pub fn cli_confirmation(out: CliOutcome, run_prefix: &str, fail_prefix: &str, done: &str) -> (r:
    Result<String, DaemonError>)
    ensures
        r is Ok <==> spec_cli_success(out),
        r is Ok ==> r->Ok_0@ == done@,
        r is Err ==> r->Err_0.message@ == spec_cli_failure_message(out, run_prefix@, fail_prefix@),
{
    match cli_stdout(out, run_prefix, fail_prefix) {
        Ok(_) => Ok(String::from_str(done)),
        Err(e) => Err(e),
    }
}

/// The result of one `tailscale set` invocation, for boolean and
/// string preferences alike: success exactly on a zero exit status,
/// and otherwise the flag's own failure message around the process's
/// diagnostic.
pub fn set_pref_result(flag: &str, out: CliOutcome) -> (r: Result<(), DaemonError>)
    ensures
        r is Ok <==> spec_cli_success(out),
        r is Err ==> r->Err_0.message@ == spec_cli_failure_message(
            out,
            "Failed to run tailscale set: "@,
            "tailscale set "@ + flag@ + " failed: "@,
        ),
{
    let mut fail = String::from_str("tailscale set ");
    fail.append(flag);
    fail.append(" failed: ");
    cli_unit(out, "Failed to run tailscale set: ", fail.as_str())
}

/// The result of one `tailscale up` invocation: the fixed confirmation
/// text on success, the wrapped diagnostic otherwise.
pub fn connect_result(out: CliOutcome) -> (r: Result<String, DaemonError>)
    ensures
        r is Ok <==> spec_cli_success(out),
        r is Ok ==> r->Ok_0@ == "Connected"@,
        r is Err ==> r->Err_0.message@ == spec_cli_failure_message(
            out,
            "Failed to run tailscale up: "@,
            "tailscale up failed: "@,
        ),
{
    cli_confirmation(out, "Failed to run tailscale up: ", "tailscale up failed: ", "Connected")
}

/// The result of one `tailscale down` invocation: the fixed
/// confirmation text on success, the wrapped diagnostic otherwise.
pub fn disconnect_result(out: CliOutcome) -> (r: Result<String, DaemonError>)
    ensures
        r is Ok <==> spec_cli_success(out),
        r is Ok ==> r->Ok_0@ == "Disconnected"@,
        r is Err ==> r->Err_0.message@ == spec_cli_failure_message(
            out,
            "Failed to run tailscale down: "@,
            "tailscale down failed: "@,
        ),
{
    cli_confirmation(
        out,
        "Failed to run tailscale down: ",
        "tailscale down failed: ",
        "Disconnected",
    )
}

/// The single argument handed to `tailscale set` for a boolean
/// preference: `--flag` to enable, `--flag=false` to disable.
pub fn set_bool_arg(flag: &str, value: bool) -> (r: String)
    ensures
        value ==> r@ == "--"@ + flag@,
        !value ==> r@ == "--"@ + flag@ + "=false"@,
{
    let mut s = String::from_str("--");
    s.append(flag);
    if !value {
        s.append("=false");
    }
    s
}

/// The single argument handed to `tailscale set` for a string
/// preference: `--flag=value`.
pub fn set_string_arg(flag: &str, value: &str) -> (r: String)
    ensures
        r@ == "--"@ + flag@ + "="@ + value@,
{
    let mut s = String::from_str("--");
    s.append(flag);
    s.append("=");
    s.append(value);
    s
}

} // verus!
