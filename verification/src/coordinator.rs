//! The polling/command coordinator: a step machine that drives one
//! background activity for the process lifetime.
//!
//! Each fixed-interval tick drains at most one pending command, decides
//! connect versus disconnect against freshly queried daemon state, and
//! polls for a status update — publishing results as ordered events.
//! The daemon work itself (queries, connect, disconnect, sleeping out
//! the interval) is performed by the runner around the machine; every
//! decision is taken here, one observable step at a time.

use vstd::prelude::*;
use crate::daemon::DaemonError;
use crate::status::TailscaleStatus;
use crate::text::str_eq;

verus! {

/// A mutating command from the foreground.  An open tagged set: new
/// operations extend it without touching the coordinator's control
/// flow.
pub enum Command {
    Toggle,
}

/// The only way results cross from the coordinator to the foreground.
pub enum Event {
    StatusUpdate(Result<TailscaleStatus, DaemonError>),
    ToggleStarted,
    ToggleComplete(Result<String, DaemonError>),
}

/// What the coordinator asks its runner to perform before the next
/// step.
pub enum DaemonAction {
    /// Run one status query and hand back its result.
    QueryStatus,
    /// Bring the mesh connection up and hand back the outcome.
    Connect,
    /// Take the mesh connection down and hand back the outcome.
    Disconnect,
    /// Wait out one poll interval, then tick with at most one pending
    /// command.
    Sleep,
}

/// Where the coordinator stands inside one cycle.
#[derive(PartialEq, Eq, Structural, Debug, Clone, Copy)]
pub enum CoordPhase {
    /// Waiting for the next interval tick.
    Idle,
    /// A toggle was drained and announced; fresh daemon state is being
    /// queried to decide connect versus disconnect.
    AwaitToggleStatus,
    /// The connect or disconnect invocation is running.
    AwaitToggleExec,
    /// The cycle's status poll is running.
    AwaitPoll,
}

/// What the runner hands back to the machine.
pub enum CoordInput {
    /// The interval fired; at most one pending command was drained.
    Tick(Option<Command>),
    /// The result of the status query that was asked for.
    StatusResult(Result<TailscaleStatus, DaemonError>),
    /// The outcome of the connect or disconnect that was asked for.
    ExecResult(Result<String, DaemonError>),
}

/// Whether the freshly queried daemon state counts as running; a failed
/// query counts as not running, so a toggle then connects.
pub open spec fn spec_is_running(res: Result<TailscaleStatus, DaemonError>) -> bool {
    res matches Ok(s) && s.backend_state@ == "Running"@
}

/// Which inputs the runner may hand the machine in each phase: ticks
/// while idle, and otherwise exactly the result of the action the
/// machine asked for.
pub open spec fn phase_accepts(phase: CoordPhase, input: CoordInput) -> bool {
    match (phase, input) {
        (CoordPhase::Idle, CoordInput::Tick(_)) => true,
        (CoordPhase::AwaitToggleStatus, CoordInput::StatusResult(_)) => true,
        (CoordPhase::AwaitToggleExec, CoordInput::ExecResult(_)) => true,
        (CoordPhase::AwaitPoll, CoordInput::StatusResult(_)) => true,
        _ => false,
    }
}

/// The coordinator's whole behaviour, one step at a time: the next
/// phase, the event to publish (if any), and the action to perform.
pub open spec fn spec_step(phase: CoordPhase, input: CoordInput) -> (
    CoordPhase,
    Option<Event>,
    DaemonAction,
) {
    match (phase, input) {
        (CoordPhase::Idle, CoordInput::Tick(cmd)) => match cmd {
            Some(Command::Toggle) => (
                CoordPhase::AwaitToggleStatus,
                Some(Event::ToggleStarted),
                DaemonAction::QueryStatus,
            ),
            None => (CoordPhase::AwaitPoll, None, DaemonAction::QueryStatus),
        },
        (CoordPhase::AwaitToggleStatus, CoordInput::StatusResult(res)) => (
            CoordPhase::AwaitToggleExec,
            None,
            if spec_is_running(res) {
                DaemonAction::Disconnect
            } else {
                DaemonAction::Connect
            },
        ),
        (CoordPhase::AwaitToggleExec, CoordInput::ExecResult(res)) => (
            CoordPhase::AwaitPoll,
            Some(Event::ToggleComplete(res)),
            DaemonAction::QueryStatus,
        ),
        (CoordPhase::AwaitPoll, CoordInput::StatusResult(res)) => (
            CoordPhase::Idle,
            Some(Event::StatusUpdate(res)),
            DaemonAction::Sleep,
        ),
        _ => (phase, None, DaemonAction::Sleep),
    }
}

/// Performs one coordinator step.
pub fn coordinator_step(phase: CoordPhase, input: CoordInput) -> (r: (
    CoordPhase,
    Option<Event>,
    DaemonAction,
))
    requires
        phase_accepts(phase, input),
    ensures
        r == spec_step(phase, input),
{
    match (phase, input) {
        (CoordPhase::Idle, CoordInput::Tick(cmd)) => match cmd {
            Some(Command::Toggle) => (
                CoordPhase::AwaitToggleStatus,
                Some(Event::ToggleStarted),
                DaemonAction::QueryStatus,
            ),
            None => (CoordPhase::AwaitPoll, None, DaemonAction::QueryStatus),
        },
        (CoordPhase::AwaitToggleStatus, CoordInput::StatusResult(res)) => {
            let running = match &res {
                Ok(s) => str_eq(s.backend_state.as_str(), "Running"),
                Err(_) => false,
            };
            (
                CoordPhase::AwaitToggleExec,
                None,
                if running {
                    DaemonAction::Disconnect
                } else {
                    DaemonAction::Connect
                },
            )
        },
        (CoordPhase::AwaitToggleExec, CoordInput::ExecResult(res)) => (
            CoordPhase::AwaitPoll,
            Some(Event::ToggleComplete(res)),
            DaemonAction::QueryStatus,
        ),
        (CoordPhase::AwaitPoll, CoordInput::StatusResult(res)) => (
            CoordPhase::Idle,
            Some(Event::StatusUpdate(res)),
            DaemonAction::Sleep,
        ),
        _ => {
            proof {
                assert(false);
            }
            (phase, None, DaemonAction::Sleep)
        },
    }
}

/// Ordering of one toggle cycle: a toggle drained while the daemon
/// reports any state is announced first, completed second with the
/// execution's own outcome, and followed by the cycle's poll update —
/// nothing is dropped, nothing reordered, and the decision between
/// connect and disconnect is taken against the freshly queried state.
pub proof fn lemma_toggle_cycle_order(
    fresh: Result<TailscaleStatus, DaemonError>,
    exec_res: Result<String, DaemonError>,
    poll_res: Result<TailscaleStatus, DaemonError>,
)
    ensures
        ({
            let s1 = spec_step(CoordPhase::Idle, CoordInput::Tick(Some(Command::Toggle)));
            let s2 = spec_step(s1.0, CoordInput::StatusResult(fresh));
            let s3 = spec_step(s2.0, CoordInput::ExecResult(exec_res));
            let s4 = spec_step(s3.0, CoordInput::StatusResult(poll_res));
            &&& s1.1 == Some(Event::ToggleStarted)
            &&& s2.1 is None
            &&& s3.1 == Some(Event::ToggleComplete(exec_res))
            &&& s4.1 == Some(Event::StatusUpdate(poll_res))
            &&& s4.0 == CoordPhase::Idle
            &&& s2.2 == if spec_is_running(fresh) {
                DaemonAction::Disconnect
            } else {
                DaemonAction::Connect
            }
        }),
{
}

/// Ordering of one command-free cycle: the tick leads straight to the
/// poll, whose result — success or failure alike — is published as the
/// cycle's single event, and the machine returns to idle.
pub proof fn lemma_poll_cycle_order(poll_res: Result<TailscaleStatus, DaemonError>)
    ensures
        ({
            let s1 = spec_step(CoordPhase::Idle, CoordInput::Tick(None));
            let s2 = spec_step(s1.0, CoordInput::StatusResult(poll_res));
            &&& s1.1 is None
            &&& s1.2 == DaemonAction::QueryStatus
            &&& s2.1 == Some(Event::StatusUpdate(poll_res))
            &&& s2.0 == CoordPhase::Idle
        }),
{
}

} // verus!
