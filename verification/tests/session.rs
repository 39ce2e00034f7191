use heating_manager::command::{encode_in, ActuationState};
use heating_manager::session::{ActuationSession, SessionAction, SessionEvent, SessionPhase};

fn devices(names: &[&str]) -> Vec<String> {
    names.iter().map(|n| n.to_string()).collect()
}

#[test]
fn successful_run_publishes_each_device_then_cancels() {
    let mut s =
        ActuationSession::new("ns".to_string(), devices(&["devA", "devB"]), ActuationState::On);
    assert_eq!(s.phase(), SessionPhase::Connecting);
    assert_eq!(s.device_count(), 2);
    assert_eq!(s.outcome(), None);

    let a = s.step(SessionEvent::Started);
    assert_eq!(a, SessionAction::Publish(encode_in("ns", "devA", ActuationState::On)));
    assert_eq!(s.phase(), SessionPhase::Active);
    assert_eq!(s.acknowledged(), 0);

    let a = s.step(SessionEvent::PublishAcked);
    assert_eq!(a, SessionAction::Publish(encode_in("ns", "devB", ActuationState::On)));
    assert_eq!(s.phase(), SessionPhase::Active);
    assert_eq!(s.acknowledged(), 1);

    let a = s.step(SessionEvent::PublishAcked);
    assert_eq!(a, SessionAction::RequestCancel);
    assert_eq!(s.phase(), SessionPhase::Cancelling);
    assert_eq!(s.acknowledged(), 2);
    assert_eq!(s.outcome(), None);

    let a = s.step(SessionEvent::CancelAccepted);
    assert_eq!(a, SessionAction::Complete);
    assert_eq!(s.phase(), SessionPhase::Closed);
    assert_eq!(s.outcome(), Some(true));
}

#[test]
fn off_state_is_carried_by_every_command() {
    let mut s =
        ActuationSession::new("ns".to_string(), devices(&["devA", "devB"]), ActuationState::Off);
    assert_eq!(s.state(), ActuationState::Off);
    match s.step(SessionEvent::Started) {
        SessionAction::Publish(c) => {
            assert_eq!(c.topic, "ns/devA/set");
            assert_eq!(c.payload, b"{\"state\":\"OFF\"}".to_vec());
        }
        other => panic!("unexpected action {:?}", other),
    }
    match s.step(SessionEvent::PublishAcked) {
        SessionAction::Publish(c) => {
            assert_eq!(c.topic, "ns/devB/set");
            assert_eq!(c.payload, b"{\"state\":\"OFF\"}".to_vec());
        }
        other => panic!("unexpected action {:?}", other),
    }
}

#[test]
fn first_publish_failure_aborts() {
    let mut s =
        ActuationSession::new("ns".to_string(), devices(&["devA", "devB"]), ActuationState::On);
    assert!(matches!(s.step(SessionEvent::Started), SessionAction::Publish(_)));
    assert_eq!(s.step(SessionEvent::PublishFailed), SessionAction::Fail);
    assert_eq!(s.phase(), SessionPhase::Failed);
    assert_eq!(s.acknowledged(), 0);
    assert_eq!(s.outcome(), Some(false));
}

#[test]
fn second_publish_failure_never_cancels() {
    let mut s =
        ActuationSession::new("ns".to_string(), devices(&["devA", "devB"]), ActuationState::On);
    assert!(matches!(s.step(SessionEvent::Started), SessionAction::Publish(_)));
    assert!(matches!(s.step(SessionEvent::PublishAcked), SessionAction::Publish(_)));
    assert_eq!(s.step(SessionEvent::PublishFailed), SessionAction::Fail);
    assert_eq!(s.acknowledged(), 1);
    for event in [
        SessionEvent::Started,
        SessionEvent::PublishAcked,
        SessionEvent::PublishFailed,
        SessionEvent::CancelAccepted,
        SessionEvent::CancelFailed,
    ] {
        assert_eq!(s.step(event), SessionAction::Fail);
        assert_eq!(s.phase(), SessionPhase::Failed);
    }
    assert_eq!(s.outcome(), Some(false));
}

#[test]
fn failed_cancel_fails_the_run() {
    let mut s = ActuationSession::new("ns".to_string(), devices(&["devA"]), ActuationState::On);
    assert!(matches!(s.step(SessionEvent::Started), SessionAction::Publish(_)));
    assert_eq!(s.step(SessionEvent::PublishAcked), SessionAction::RequestCancel);
    assert_eq!(s.step(SessionEvent::CancelFailed), SessionAction::Fail);
    assert_eq!(s.phase(), SessionPhase::Failed);
    assert_eq!(s.acknowledged(), 1);
}

#[test]
fn no_devices_cancels_at_once() {
    let mut s = ActuationSession::new("ns".to_string(), Vec::new(), ActuationState::On);
    assert_eq!(s.step(SessionEvent::Started), SessionAction::RequestCancel);
    assert_eq!(s.phase(), SessionPhase::Cancelling);
    assert_eq!(s.step(SessionEvent::CancelAccepted), SessionAction::Complete);
    assert_eq!(s.outcome(), Some(true));
}

#[test]
fn closed_session_stays_closed() {
    let mut s = ActuationSession::new("ns".to_string(), Vec::new(), ActuationState::On);
    s.step(SessionEvent::Started);
    s.step(SessionEvent::CancelAccepted);
    for event in [
        SessionEvent::Started,
        SessionEvent::PublishAcked,
        SessionEvent::PublishFailed,
        SessionEvent::CancelAccepted,
        SessionEvent::CancelFailed,
    ] {
        assert_eq!(s.step(event), SessionAction::Complete);
        assert_eq!(s.phase(), SessionPhase::Closed);
    }
}

#[test]
fn events_that_answer_nothing_change_nothing() {
    let mut s = ActuationSession::new("ns".to_string(), devices(&["devA"]), ActuationState::On);
    for event in [
        SessionEvent::PublishAcked,
        SessionEvent::PublishFailed,
        SessionEvent::CancelAccepted,
        SessionEvent::CancelFailed,
    ] {
        assert_eq!(s.step(event), SessionAction::Wait);
        assert_eq!(s.phase(), SessionPhase::Connecting);
    }
    s.step(SessionEvent::Started);
    for event in [SessionEvent::Started, SessionEvent::CancelAccepted, SessionEvent::CancelFailed] {
        assert_eq!(s.step(event), SessionAction::Wait);
        assert_eq!(s.phase(), SessionPhase::Active);
        assert_eq!(s.acknowledged(), 0);
    }
    s.step(SessionEvent::PublishAcked);
    for event in [SessionEvent::Started, SessionEvent::PublishAcked, SessionEvent::PublishFailed] {
        assert_eq!(s.step(event), SessionAction::Wait);
        assert_eq!(s.phase(), SessionPhase::Cancelling);
        assert_eq!(s.acknowledged(), 1);
    }
}

#[test]
fn n_devices_give_n_publishes_before_the_cancel() {
    let names: Vec<String> = (0..25).map(|i| format!("dev{}", i)).collect();
    let mut s = ActuationSession::new("ns".to_string(), names.clone(), ActuationState::On);
    let mut actions = vec![s.step(SessionEvent::Started)];
    while s.phase() == SessionPhase::Active {
        actions.push(s.step(SessionEvent::PublishAcked));
    }
    actions.push(s.step(SessionEvent::CancelAccepted));
    assert_eq!(actions.len(), 27);
    for (i, name) in names.iter().enumerate() {
        assert_eq!(actions[i], SessionAction::Publish(encode_in("ns", name, ActuationState::On)));
    }
    assert_eq!(actions[25], SessionAction::RequestCancel);
    assert_eq!(actions[26], SessionAction::Complete);
}
