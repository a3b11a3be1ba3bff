use torrent_actor::actor::{TorrentServer, DEFAULT_PORT};
use torrent_actor::protocol::{Command, Effect, LifecycleError, ServiceState, StatusReport};

#[test]
fn new_actor_is_stopped_on_default_port() {
    let actor = TorrentServer::new();
    assert_eq!(actor.current_state(), ServiceState::Stopped);
    assert_eq!(actor.port(), 1212);
    assert_eq!(DEFAULT_PORT, 1212);
}

#[test]
fn fresh_start_binds_and_activates() {
    let mut actor = TorrentServer::new();
    assert_eq!(actor.required_effect(Command::Start), Some(Effect::Bind(1212)));
    let report = actor.handle_start(Ok(()));
    assert_eq!(
        report,
        Ok(StatusReport { state: ServiceState::Active, port: 1212 })
    );
    assert_eq!(actor.current_state(), ServiceState::Active);
}

#[test]
fn start_when_active_needs_no_bind_and_still_reports() {
    let mut actor = TorrentServer::new();
    actor.handle_start(Ok(())).unwrap();
    // The second `Start` asks for no bind at all ...
    assert_eq!(actor.required_effect(Command::Start), None);
    // ... and is a no-op that still emits the status report, without error.
    let report = actor.handle_start(Ok(()));
    assert_eq!(
        report,
        Ok(StatusReport { state: ServiceState::Active, port: 1212 })
    );
    assert_eq!(actor.current_state(), ServiceState::Active);
}

#[test]
fn failed_release_keeps_service_active() {
    let mut actor = TorrentServer::new();
    actor.handle_start(Ok(())).unwrap();
    let report = actor.handle_stop(Err("listener is still busy".to_string()));
    assert_eq!(
        report,
        Err(LifecycleError::ReleaseFailure("listener is still busy".to_string()))
    );
    assert_eq!(actor.current_state(), ServiceState::Active);
}

#[test]
fn stop_when_stopped_needs_no_release_and_still_reports() {
    let mut actor = TorrentServer::new();
    assert_eq!(actor.required_effect(Command::Stop), None);
    let report = actor.handle_stop(Ok(()));
    assert_eq!(
        report,
        Ok(StatusReport { state: ServiceState::Stopped, port: 1212 })
    );
    assert_eq!(actor.current_state(), ServiceState::Stopped);
}

#[test]
fn failed_bind_keeps_service_stopped() {
    let mut actor = TorrentServer::new();
    let report = actor.handle_start(Err("address already in use".to_string()));
    assert_eq!(
        report,
        Err(LifecycleError::BindFailure("address already in use".to_string()))
    );
    assert_eq!(actor.current_state(), ServiceState::Stopped);
}

#[test]
fn release_is_required_to_leave_active() {
    let mut actor = TorrentServer::new();
    actor.handle_start(Ok(())).unwrap();
    assert_eq!(actor.required_effect(Command::Stop), Some(Effect::Release(1212)));
}

#[test]
fn dispatch_routes_each_command_to_its_handler() {
    let mut by_dispatch = TorrentServer::new();
    let mut by_handler = TorrentServer::new();
    assert_eq!(
        by_dispatch.handle(Command::Start, Ok(())),
        by_handler.handle_start(Ok(()))
    );
    assert_eq!(by_dispatch.current_state(), by_handler.current_state());
    assert_eq!(
        by_dispatch.handle(Command::Stop, Err("still busy".to_string())),
        by_handler.handle_stop(Err("still busy".to_string()))
    );
    assert_eq!(by_dispatch.current_state(), by_handler.current_state());
}

#[test]
fn batch_is_processed_in_order_with_one_result_per_command() {
    let mut actor = TorrentServer::new();
    let commands = vec![
        (Command::Start, Ok(())),
        (Command::Start, Ok(())),
        (Command::Stop, Err("sockets still draining".to_string())),
        (Command::Stop, Ok(())),
        (Command::Stop, Ok(())),
    ];
    let results = actor.run_commands(commands);
    assert_eq!(results.len(), 5);
    assert_eq!(
        results[0],
        Ok(StatusReport { state: ServiceState::Active, port: 1212 })
    );
    assert_eq!(
        results[1],
        Ok(StatusReport { state: ServiceState::Active, port: 1212 })
    );
    assert_eq!(
        results[2],
        Err(LifecycleError::ReleaseFailure("sockets still draining".to_string()))
    );
    assert_eq!(
        results[3],
        Ok(StatusReport { state: ServiceState::Stopped, port: 1212 })
    );
    assert_eq!(
        results[4],
        Ok(StatusReport { state: ServiceState::Stopped, port: 1212 })
    );
    assert_eq!(actor.current_state(), ServiceState::Stopped);
}

#[test]
fn every_successful_submission_gets_its_own_notification() {
    // Four callers' submissions, already serialized by the mailbox: with the
    // collaborator succeeding each time, exactly four reports come back, in
    // processing order.
    let mut actor = TorrentServer::new();
    let commands = vec![
        (Command::Start, Ok(())),
        (Command::Stop, Ok(())),
        (Command::Stop, Ok(())),
        (Command::Start, Ok(())),
    ];
    let results = actor.run_commands(commands);
    let expected_states = [
        ServiceState::Active,
        ServiceState::Stopped,
        ServiceState::Stopped,
        ServiceState::Active,
    ];
    assert_eq!(results.len(), expected_states.len());
    for (result, expected) in results.iter().zip(expected_states.iter()) {
        assert_eq!(result, &Ok(StatusReport { state: *expected, port: 1212 }));
    }
}

#[test]
fn state_follows_the_last_successful_transition() {
    // A failed `Stop` after a successful `Start` leaves the service active;
    // only a later successful `Stop` turns it off.
    let mut actor = TorrentServer::new();
    actor.run_commands(vec![
        (Command::Start, Ok(())),
        (Command::Stop, Err("cannot close yet".to_string())),
    ]);
    assert_eq!(actor.current_state(), ServiceState::Active);
    actor.run_commands(vec![(Command::Stop, Ok(()))]);
    assert_eq!(actor.current_state(), ServiceState::Stopped);
    // A `Start` whose bind fails does not turn it back on.
    actor.run_commands(vec![(Command::Start, Err("port taken".to_string()))]);
    assert_eq!(actor.current_state(), ServiceState::Stopped);
}
