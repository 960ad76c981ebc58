use kftray_relay::{
    Acceptor, AcceptorAction, AcceptorEvent, AcceptorPhase, Connection, Direction,
    HandlerEvent, HandlerResult, PumpEnd, Shutdown, Termination,
};

#[test]
fn clean_close_of_one_direction_cancels_the_other() {
    let mut c = Connection::new();
    assert!(c.may_forward());
    let t = c.on_event(HandlerEvent::PumpEnded(Direction::ClientToServer, PumpEnd::Completed));
    assert_eq!(
        t,
        Termination {
            result: HandlerResult::Finished,
            cancel_client_to_server: false,
            cancel_server_to_client: true,
        }
    );
    assert!(!c.may_forward());
}

#[test]
fn io_error_is_reported_with_its_direction() {
    let mut c = Connection::new();
    let t = c.on_event(HandlerEvent::PumpEnded(Direction::ServerToClient, PumpEnd::IoError));
    assert_eq!(t.result, HandlerResult::IoError(Direction::ServerToClient));
    assert!(t.cancel_client_to_server);
    assert!(!t.cancel_server_to_client);
}

#[test]
fn task_failure_is_reported() {
    let mut c = Connection::new();
    let t = c.on_event(HandlerEvent::PumpEnded(Direction::ClientToServer, PumpEnd::TaskFailed));
    assert_eq!(t.result, HandlerResult::TaskFailed(Direction::ClientToServer));
}

#[test]
fn shutdown_stops_every_active_connection() {
    let mut s = Shutdown::new();
    let mut conns = vec![Connection::new(), Connection::new(), Connection::new()];
    conns[1].on_event(HandlerEvent::PumpEnded(Direction::ClientToServer, PumpEnd::IoError));
    assert!(conns[0].observe_shutdown(&s).is_none());
    assert!(conns[0].may_forward());
    s.fire();
    s.fire();
    assert!(s.fired());
    let ended: Vec<Option<Termination>> = conns.iter_mut().map(|c| c.observe_shutdown(&s)).collect();
    let on_shutdown = Termination {
        result: HandlerResult::Finished,
        cancel_client_to_server: true,
        cancel_server_to_client: true,
    };
    assert_eq!(ended, vec![Some(on_shutdown), None, Some(on_shutdown)]);
    assert!(conns.iter().all(|c| !c.may_forward()));
}

#[test]
fn bind_failure_is_fatal() {
    let mut a = Acceptor::new();
    assert_eq!(a.step(AcceptorEvent::Bound(false)), AcceptorAction::Fail);
    assert_eq!(a.phase(), AcceptorPhase::Failed);
}

#[test]
fn accept_failure_goes_back_to_the_flag_check() {
    let mut a = Acceptor::new();
    a.step(AcceptorEvent::Bound(true));
    a.step(AcceptorEvent::RunningFlag(true));
    assert_eq!(a.step(AcceptorEvent::Accepted(false)), AcceptorAction::CheckFlag);
    assert_eq!(a.phase(), AcceptorPhase::CheckingFlag);
    assert_eq!(a.step(AcceptorEvent::RunningFlag(true)), AcceptorAction::Accept);
    assert_eq!(a.step(AcceptorEvent::Accepted(true)), AcceptorAction::Dial);
}

#[test]
fn dial_failure_drops_client_and_keeps_accepting() {
    let mut a = Acceptor::new();
    assert_eq!(a.step(AcceptorEvent::Bound(true)), AcceptorAction::CheckFlag);
    assert_eq!(a.step(AcceptorEvent::RunningFlag(true)), AcceptorAction::Accept);
    assert_eq!(a.step(AcceptorEvent::Accepted(true)), AcceptorAction::Dial);
    assert_eq!(a.step(AcceptorEvent::Dialed(false)), AcceptorAction::DropClient);
    assert_eq!(a.step(AcceptorEvent::RunningFlag(true)), AcceptorAction::Accept);
    assert_eq!(a.step(AcceptorEvent::Accepted(true)), AcceptorAction::Dial);
    assert_eq!(a.step(AcceptorEvent::Dialed(true)), AcceptorAction::SpawnHandler);
}

#[test]
fn stop_takes_effect_only_at_the_flag_check() {
    let mut a = Acceptor::new();
    a.step(AcceptorEvent::Bound(true));
    a.step(AcceptorEvent::RunningFlag(true));
    // the flag is cleared while the accept is pending: the loop waits for no flag
    assert!(!a.awaits(AcceptorEvent::RunningFlag(false)));
    assert_eq!(a.step(AcceptorEvent::Accepted(true)), AcceptorAction::Dial);
    assert_eq!(a.step(AcceptorEvent::Dialed(true)), AcceptorAction::SpawnHandler);
    assert!(a.awaits(AcceptorEvent::RunningFlag(false)));
    assert_eq!(a.step(AcceptorEvent::RunningFlag(false)), AcceptorAction::Stop);
    assert_eq!(a.phase(), AcceptorPhase::Stopped);
}

#[test]
fn stopping_the_loop_leaves_handlers_running() {
    let mut a = Acceptor::new();
    let mut c = Connection::new();
    a.step(AcceptorEvent::Bound(true));
    a.step(AcceptorEvent::RunningFlag(true));
    a.step(AcceptorEvent::Accepted(true));
    a.step(AcceptorEvent::Dialed(true));
    a.step(AcceptorEvent::RunningFlag(false));
    assert!(c.may_forward());
    let s = Shutdown::new();
    assert!(c.observe_shutdown(&s).is_none());
    assert!(c.may_forward());
}
