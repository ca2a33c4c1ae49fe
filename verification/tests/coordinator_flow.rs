use tailscale_core::coordinator::{
    coordinator_step, Command, CoordInput, CoordPhase, DaemonAction, Event,
};
use tailscale_core::status::{NodeInfo, TailscaleStatus};

fn snapshot(backend_state: &str) -> TailscaleStatus {
    TailscaleStatus {
        backend_state: backend_state.to_string(),
        self_node: NodeInfo { hostname: "me".to_string(), tailscale_ips: vec![] },
        peers: vec![],
        tailnet_name: String::new(),
        exit_node_active: false,
    }
}

#[test]
fn toggle_while_running_disconnects_in_order() {
    // tick with a pending toggle: announced first
    let (phase, event, action) =
        coordinator_step(CoordPhase::Idle, CoordInput::Tick(Some(Command::Toggle)));
    assert!(matches!(event, Some(Event::ToggleStarted)));
    assert!(matches!(action, DaemonAction::QueryStatus));
    // fresh state says Running: the toggle disconnects
    let (phase, event, action) =
        coordinator_step(phase, CoordInput::StatusResult(Ok(snapshot("Running"))));
    assert!(event.is_none());
    assert!(matches!(action, DaemonAction::Disconnect));
    // completion carries the execution's own outcome, before any poll
    let (phase, event, action) =
        coordinator_step(phase, CoordInput::ExecResult(Ok("Disconnected".to_string())));
    match event {
        Some(Event::ToggleComplete(Ok(msg))) => assert_eq!(msg, "Disconnected"),
        other => panic!("expected ToggleComplete, got {:?}", other.is_some()),
    }
    assert!(matches!(action, DaemonAction::QueryStatus));
    // the cycle's poll follows, and the machine returns to idle
    let (phase, event, action) =
        coordinator_step(phase, CoordInput::StatusResult(Ok(snapshot("Stopped"))));
    assert!(matches!(event, Some(Event::StatusUpdate(Ok(_)))));
    assert!(matches!(action, DaemonAction::Sleep));
    assert_eq!(phase, CoordPhase::Idle);
}

#[test]
fn toggle_connects_when_not_running_or_unreachable() {
    let (phase, _, _) = coordinator_step(CoordPhase::Idle, CoordInput::Tick(Some(Command::Toggle)));
    let (_, _, action) = coordinator_step(phase, CoordInput::StatusResult(Ok(snapshot("Stopped"))));
    assert!(matches!(action, DaemonAction::Connect));

    let (phase, _, _) = coordinator_step(CoordPhase::Idle, CoordInput::Tick(Some(Command::Toggle)));
    let (_, _, action) = coordinator_step(
        phase,
        CoordInput::StatusResult(Err(tailscale_core::daemon::DaemonError {
            message: "unreachable".to_string(),
        })),
    );
    assert!(matches!(action, DaemonAction::Connect));
}

#[test]
fn command_free_cycle_emits_one_status_update() {
    let (phase, event, action) = coordinator_step(CoordPhase::Idle, CoordInput::Tick(None));
    assert!(event.is_none());
    assert!(matches!(action, DaemonAction::QueryStatus));
    // the poll's failure is a first-class event, not a fatal condition
    let (phase, event, action) = coordinator_step(
        phase,
        CoordInput::StatusResult(Err(tailscale_core::daemon::DaemonError {
            message: "daemon unreachable".to_string(),
        })),
    );
    match event {
        Some(Event::StatusUpdate(Err(e))) => assert_eq!(e.message, "daemon unreachable"),
        _ => panic!("expected a failed StatusUpdate"),
    }
    assert!(matches!(action, DaemonAction::Sleep));
    assert_eq!(phase, CoordPhase::Idle);
}
