use maiden_run::delivery::{conclude, AttemptState, DeliveryResult, FailureReason, Operation};

#[test]
fn attempt_that_goes_through() {
    let idle = AttemptState::new();
    assert_eq!(idle, AttemptState::Idle);
    assert_eq!(idle.pending(), None);
    assert_eq!(idle.result(), None);
    let connecting = idle.advance(true);
    assert_eq!(connecting, AttemptState::Connecting);
    assert_eq!(connecting.pending(), Some(Operation::Connect));
    let connected = connecting.advance(true);
    assert_eq!(connected, AttemptState::Connected);
    assert_eq!(connected.pending(), Some(Operation::Send));
    assert_eq!(connected.result(), None);
    let sent = connected.advance(true);
    assert_eq!(sent, AttemptState::Sent);
    assert_eq!(sent.pending(), Some(Operation::Close));
    let closed = sent.advance(true);
    assert_eq!(closed, AttemptState::Closed);
    assert_eq!(closed.pending(), None);
    assert_eq!(closed.result(), Some(DeliveryResult::Delivered));
}

#[test]
fn attempt_that_cannot_connect() {
    let failed = AttemptState::new().advance(true).advance(false);
    assert_eq!(failed, AttemptState::FailedConnect);
    assert_eq!(failed.pending(), None);
    assert_eq!(
        failed.result(),
        Some(DeliveryResult::Failed(FailureReason::ConnectError))
    );
}

#[test]
fn attempt_that_cannot_send() {
    let failed = AttemptState::new().advance(true).advance(true).advance(false);
    assert_eq!(failed, AttemptState::FailedSend);
    assert_eq!(failed.pending(), None);
    assert_eq!(failed.result(), Some(DeliveryResult::Failed(FailureReason::SendError)));
}

#[test]
fn idle_starts_connecting_whatever_is_reported() {
    assert_eq!(AttemptState::Idle.advance(false), AttemptState::Connecting);
    assert_eq!(AttemptState::Idle.advance(true), AttemptState::Connecting);
}

#[test]
fn closing_cannot_fail() {
    assert_eq!(AttemptState::Sent.advance(false), AttemptState::Closed);
}

#[test]
fn states_at_rest_do_not_move() {
    for state in [AttemptState::Closed, AttemptState::FailedConnect, AttemptState::FailedSend] {
        for ok in [true, false] {
            assert_eq!(state.advance(ok), state);
        }
    }
}

#[test]
fn conclude_on_every_pair_of_outcomes() {
    assert_eq!(conclude(true, true), DeliveryResult::Delivered);
    assert_eq!(conclude(true, false), DeliveryResult::Failed(FailureReason::SendError));
    assert_eq!(conclude(false, true), DeliveryResult::Failed(FailureReason::ConnectError));
    assert_eq!(conclude(false, false), DeliveryResult::Failed(FailureReason::ConnectError));
}

#[test]
fn conclude_agrees_with_the_state_machine() {
    for connect_ok in [true, false] {
        for send_ok in [true, false] {
            let mut state = AttemptState::new().advance(true);
            let mut connects = 0;
            let mut reports = 0;
            while let Some(operation) = state.pending() {
                let ok = match operation {
                    Operation::Connect => {
                        connects += 1;
                        connect_ok
                    }
                    Operation::Send => send_ok,
                    Operation::Close => true,
                };
                state = state.advance(ok);
                reports += 1;
                assert!(reports <= 3);
            }
            assert_eq!(connects, 1);
            assert_eq!(state.result(), Some(conclude(connect_ok, send_ok)));
        }
    }
}
