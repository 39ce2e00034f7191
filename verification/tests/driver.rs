use heating_manager::driver::{
    classify, error_outcome, exit_code, DriverState, EventLoopDriver, ExitOutcome, LoopDecision,
    PollOutcome,
};
use rumqttc::{ConnectionError, Event, Outgoing};

#[test]
fn driver_starts_polling() {
    let d = EventLoopDriver::new();
    assert_eq!(d.state(), DriverState::Polling);
    assert_eq!(d.outcome(), None);
}

#[test]
fn events_keep_the_loop_polling() {
    let mut d = EventLoopDriver::new();
    for _ in 0..5 {
        assert_eq!(d.on_poll(PollOutcome::Event), LoopDecision::Continue);
        assert_eq!(d.state(), DriverState::Polling);
    }
}

#[test]
fn cancellation_ends_the_loop_in_success() {
    let mut d = EventLoopDriver::new();
    assert_eq!(d.on_poll(PollOutcome::Cancelled), LoopDecision::Stop(ExitOutcome::Success));
    assert_eq!(d.state(), DriverState::Terminated(ExitOutcome::Success));
    assert_eq!(d.outcome(), Some(ExitOutcome::Success));
}

#[test]
fn transport_error_ends_the_loop_in_failure() {
    let mut d = EventLoopDriver::new();
    assert_eq!(d.on_poll(PollOutcome::Failed), LoopDecision::Stop(ExitOutcome::Failure));
    assert_eq!(d.state(), DriverState::Terminated(ExitOutcome::Failure));
    assert_eq!(d.outcome(), Some(ExitOutcome::Failure));
}

#[test]
fn cancellation_and_error_give_different_exits() {
    let mut cancelled = EventLoopDriver::new();
    let mut broken = EventLoopDriver::new();
    cancelled.observe(&Err(ConnectionError::Cancel));
    broken.observe(&Err(ConnectionError::StreamDone));
    let a = cancelled.outcome().unwrap();
    let b = broken.outcome().unwrap();
    assert_ne!(a, b);
    assert_eq!(exit_code(a), 0);
    assert_ne!(exit_code(b), 0);
}

#[test]
fn terminated_driver_keeps_its_outcome() {
    let mut d = EventLoopDriver::new();
    d.on_poll(PollOutcome::Failed);
    for outcome in [PollOutcome::Event, PollOutcome::Cancelled, PollOutcome::Failed] {
        assert_eq!(d.on_poll(outcome), LoopDecision::Stop(ExitOutcome::Failure));
        assert_eq!(d.state(), DriverState::Terminated(ExitOutcome::Failure));
    }
    d.cancel_requested();
    assert_eq!(d.state(), DriverState::Terminated(ExitOutcome::Failure));

    let mut ok = EventLoopDriver::new();
    ok.on_poll(PollOutcome::Cancelled);
    for outcome in [PollOutcome::Event, PollOutcome::Cancelled, PollOutcome::Failed] {
        assert_eq!(ok.on_poll(outcome), LoopDecision::Stop(ExitOutcome::Success));
    }
}

#[test]
fn draining_driver_polls_on_until_the_signal() {
    let mut d = EventLoopDriver::new();
    d.cancel_requested();
    assert_eq!(d.state(), DriverState::Draining);
    d.cancel_requested();
    assert_eq!(d.state(), DriverState::Draining);
    assert_eq!(d.on_poll(PollOutcome::Event), LoopDecision::Continue);
    assert_eq!(d.state(), DriverState::Draining);
    assert_eq!(d.on_poll(PollOutcome::Cancelled), LoopDecision::Stop(ExitOutcome::Success));
}

#[test]
fn draining_driver_fails_on_a_transport_error() {
    let mut d = EventLoopDriver::new();
    d.cancel_requested();
    assert_eq!(d.on_poll(PollOutcome::Failed), LoopDecision::Stop(ExitOutcome::Failure));
}

#[test]
fn classify_tells_the_cancel_error_apart() {
    assert_eq!(classify(&Err(ConnectionError::Cancel)), PollOutcome::Cancelled);
    assert_eq!(classify(&Err(ConnectionError::StreamDone)), PollOutcome::Failed);
    assert_eq!(classify(&Err(ConnectionError::RequestsDone)), PollOutcome::Failed);
    let io = std::io::Error::new(std::io::ErrorKind::ConnectionReset, "reset");
    assert_eq!(classify(&Err(ConnectionError::Io(io))), PollOutcome::Failed);
    assert_eq!(classify(&Ok(Event::Outgoing(Outgoing::PingReq))), PollOutcome::Event);
    assert_eq!(classify(&Ok(Event::Outgoing(Outgoing::Publish(1)))), PollOutcome::Event);
}

#[test]
fn observe_follows_the_transport() {
    let mut d = EventLoopDriver::new();
    assert_eq!(d.observe(&Ok(Event::Outgoing(Outgoing::PingReq))), LoopDecision::Continue);
    assert_eq!(d.state(), DriverState::Polling);
    assert_eq!(d.observe(&Err(ConnectionError::Cancel)), LoopDecision::Stop(ExitOutcome::Success));
    assert_eq!(d.state(), DriverState::Terminated(ExitOutcome::Success));
}

#[test]
fn error_outcome_is_cancelled_only_for_the_signal() {
    assert_eq!(error_outcome(true), PollOutcome::Cancelled);
    assert_eq!(error_outcome(false), PollOutcome::Failed);
}

#[test]
fn exit_codes() {
    assert_eq!(exit_code(ExitOutcome::Success), 0);
    assert_eq!(exit_code(ExitOutcome::Failure), 1);
}
