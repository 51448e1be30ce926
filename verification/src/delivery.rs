//! One delivery attempt: connect, send a single frame, close.
//!
//! The attempt is a small state machine. The caller performs the transport
//! operation that the current state is waiting on and reports whether it
//! succeeded; the machine says what comes next and, once it has come to rest,
//! what the attempt amounted to. Nothing is ever retried.

use vstd::prelude::*;

verus! {

/// Why a delivery did not go through.
#[derive(Clone, Copy, Debug, PartialEq, Eq, Structural)]
pub enum FailureReason {
    /// The connection could not be established.
    ConnectError,
    /// The connection was up but the frame could not be sent.
    SendError,
}

/// What one delivery attempt amounted to.
#[derive(Clone, Copy, Debug, PartialEq, Eq, Structural)]
pub enum DeliveryResult {
    /// The frame was sent and the connection closed.
    Delivered,
    /// The attempt was given up for the stated reason.
    Failed(FailureReason),
}

/// Where a delivery attempt stands.
#[derive(Clone, Copy, Debug, PartialEq, Eq, Structural)]
pub enum AttemptState {
    /// Nothing has been done yet.
    Idle,
    /// The connection is being established.
    Connecting,
    /// The connection is up and the frame is being sent.
    Connected,
    /// The frame has been sent and the connection is being closed.
    Sent,
    /// The connection has been closed after a successful send.
    Closed,
    /// The connection could not be established.
    FailedConnect,
    /// The frame could not be sent.
    FailedSend,
}

/// A transport operation that the caller carries out for the attempt.
#[derive(Clone, Copy, Debug, PartialEq, Eq, Structural)]
pub enum Operation {
    /// Open the connection with the handshake.
    Connect,
    /// Send the single payload frame.
    Send,
    /// Close the connection.
    Close,
}

/// The state that follows `state` once the operation it was waiting on has
/// ended, successfully or not. An idle attempt starts connecting; closing
/// cannot fail; a state at rest stays as it is.
pub open spec fn next_state(state: AttemptState, ok: bool) -> AttemptState {
    match state {
        AttemptState::Idle => AttemptState::Connecting,
        AttemptState::Connecting => if ok {
            AttemptState::Connected
        } else {
            AttemptState::FailedConnect
        },
        AttemptState::Connected => if ok {
            AttemptState::Sent
        } else {
            AttemptState::FailedSend
        },
        AttemptState::Sent => AttemptState::Closed,
        AttemptState::Closed => AttemptState::Closed,
        AttemptState::FailedConnect => AttemptState::FailedConnect,
        AttemptState::FailedSend => AttemptState::FailedSend,
    }
}

/// The operation whose outcome `state` is waiting on, if any.
pub open spec fn awaited(state: AttemptState) -> Option<Operation> {
    match state {
        AttemptState::Connecting => Some(Operation::Connect),
        AttemptState::Connected => Some(Operation::Send),
        AttemptState::Sent => Some(Operation::Close),
        _ => None,
    }
}

/// What the attempt amounted to, once it is at rest.
pub open spec fn result_of(state: AttemptState) -> Option<DeliveryResult> {
    match state {
        AttemptState::Closed => Some(DeliveryResult::Delivered),
        AttemptState::FailedConnect => Some(DeliveryResult::Failed(FailureReason::ConnectError)),
        AttemptState::FailedSend => Some(DeliveryResult::Failed(FailureReason::SendError)),
        _ => None,
    }
}

/// The state reached from an idle attempt when connecting ends as
/// `connect_ok` says and sending, if it comes to that, as `send_ok` says.
pub open spec fn settled(connect_ok: bool, send_ok: bool) -> AttemptState {
    let connecting = next_state(AttemptState::Idle, true);
    let connected = next_state(connecting, connect_ok);
    let sent = next_state(connected, send_ok);
    next_state(sent, true)
}

/// The result that the two transport outcomes call for.
pub open spec fn verdict(connect_ok: bool, send_ok: bool) -> DeliveryResult {
    if !connect_ok {
        DeliveryResult::Failed(FailureReason::ConnectError)
    } else if !send_ok {
        DeliveryResult::Failed(FailureReason::SendError)
    } else {
        DeliveryResult::Delivered
    }
}

impl AttemptState {
    /// A fresh attempt.
    pub fn new() -> (state: AttemptState)
        ensures
            state == AttemptState::Idle,
    {
        AttemptState::Idle
    }

    /// Moves on after the awaited operation has ended with `ok`.
    pub fn advance(self, ok: bool) -> (next: AttemptState)
        ensures
            next == next_state(self, ok),
    {
        match self {
            AttemptState::Idle => AttemptState::Connecting,
            AttemptState::Connecting => if ok {
                AttemptState::Connected
            } else {
                AttemptState::FailedConnect
            },
            AttemptState::Connected => if ok {
                AttemptState::Sent
            } else {
                AttemptState::FailedSend
            },
            AttemptState::Sent => AttemptState::Closed,
            rest => rest,
        }
    }

    /// The operation to carry out now, or `None` when the attempt is idle or
    /// at rest.
    pub fn pending(self) -> (op: Option<Operation>)
        ensures
            op == awaited(self),
    {
        match self {
            AttemptState::Connecting => Some(Operation::Connect),
            AttemptState::Connected => Some(Operation::Send),
            AttemptState::Sent => Some(Operation::Close),
            _ => None,
        }
    }

    /// The result of the attempt, or `None` while it is still under way.
    pub fn result(self) -> (res: Option<DeliveryResult>)
        ensures
            res == result_of(self),
    {
        match self {
            AttemptState::Closed => Some(DeliveryResult::Delivered),
            AttemptState::FailedConnect => Some(
                DeliveryResult::Failed(FailureReason::ConnectError),
            ),
            AttemptState::FailedSend => Some(DeliveryResult::Failed(FailureReason::SendError)),
            _ => None,
        }
    }
}

/// The result of a whole attempt, given how connecting and sending ended.
/// `send_ok` is not looked at when the connection failed.
pub fn conclude(connect_ok: bool, send_ok: bool) -> (res: DeliveryResult)
    ensures
        res == verdict(connect_ok, send_ok),
        result_of(settled(connect_ok, send_ok)) == Some(res),
{
    if !connect_ok {
        DeliveryResult::Failed(FailureReason::ConnectError)
    } else if !send_ok {
        DeliveryResult::Failed(FailureReason::SendError)
    } else {
        DeliveryResult::Delivered
    }
}

/// An attempt at rest stays at rest: whatever is reported afterwards, the
/// state, and with it the result, no longer changes. No failure is retried.
pub proof fn lemma_rest_is_final(state: AttemptState, ok: bool)
    requires
        result_of(state) is Some,
    ensures
        next_state(state, ok) == state,
        awaited(state) is None,
{
}

/// Every attempt comes to rest after at most four reports, and on the way it
/// waits on the connect operation exactly once: in the state that follows
/// idle, and in no later one.
pub proof fn lemma_attempt_settles(ok1: bool, ok2: bool, ok3: bool, ok4: bool)
    ensures
        ({
            let s1 = next_state(AttemptState::Idle, ok1);
            let s2 = next_state(s1, ok2);
            let s3 = next_state(s2, ok3);
            let s4 = next_state(s3, ok4);
            &&& awaited(s1) == Some(Operation::Connect)
            &&& awaited(s2) != Some(Operation::Connect)
            &&& awaited(s3) != Some(Operation::Connect)
            &&& result_of(s4) == Some(verdict(ok2, ok3))
        }),
{
}

} // verus!
