//! The send/reconnect/retry protocol of one synchronize call, as a state
//! machine from state and transport event to next state, and the error
//! taxonomy surfaced to the caller.

use vstd::prelude::*;
use vstd::string::StringExecFns;

verus! {

/// Why a synchronize call failed.
pub enum PresenceError {
    /// No presence client was ever constructed; there is no session to use.
    SessionUninitialized,
    /// Reconnecting after a failed send did not succeed; carries the text of
    /// the original send error.
    ReconnectFailed(String),
    /// The send repeated after a successful reconnect still failed; carries
    /// the text of that send error.
    RetrySendFailed(String),
    /// An exclusive section was left inconsistent by a prior panic.
    LockPoisoned,
}

impl PresenceError {
    /// The human-readable text surfaced to the caller.
    pub open spec fn message_spec(&self) -> Seq<char> {
        match self {
            PresenceError::SessionUninitialized => "Discord client not initialized"@,
            PresenceError::ReconnectFailed(e) => "Failed to connect to Discord: "@ + e@,
            PresenceError::RetrySendFailed(e) => e@,
            PresenceError::LockPoisoned => "Failed to lock mutex"@,
        }
    }

    /// Formats the error for the rejected call.
    pub fn message(&self) -> (r: String)
        ensures
            r@ == self.message_spec(),
    {
        match self {
            PresenceError::SessionUninitialized => String::from_str(
                "Discord client not initialized",
            ),
            PresenceError::ReconnectFailed(e) => {
                let mut r = String::from_str("Failed to connect to Discord: ");
                r.append(e.as_str());
                r
            },
            PresenceError::RetrySendFailed(e) => e.clone(),
            PresenceError::LockPoisoned => String::from_str("Failed to lock mutex"),
        }
    }
}

/// Where one delivery stands.
pub enum DeliveryState {
    /// The first send is due.
    SendingFirst,
    /// The first send failed with the recorded error; the session must be
    /// closed (best effort) and reconnected.
    Reconnecting { send_error: String },
    /// Reconnect succeeded; the one retry send is due.
    SendingRetry,
    /// The delivery is over with this outcome.
    Finished { outcome: Result<(), PresenceError> },
}

/// What the transport reported back for the pending action.
pub enum DeliveryEvent {
    SendSucceeded,
    SendFailed { error: String },
    ReconnectSucceeded,
    ReconnectFailed { error: String },
}

/// What the holder of the session must do next.
pub enum DeliveryAction {
    /// Attempt to send the envelope over the current session.
    AttemptSend,
    /// Close the current session, swallowing close errors, then reconnect.
    CloseThenReconnect,
    /// Nothing: the outcome is final.
    Finish,
}

/// The state a delivery starts in: sending, or already failed when no client
/// was ever constructed.
pub open spec fn initial_state(session_ready: bool) -> DeliveryState {
    if session_ready {
        DeliveryState::SendingFirst
    } else {
        DeliveryState::Finished { outcome: Err(PresenceError::SessionUninitialized) }
    }
}

/// Which events may answer which state.
pub open spec fn event_fits(s: DeliveryState, e: DeliveryEvent) -> bool {
    match s {
        DeliveryState::SendingFirst => e is SendSucceeded || e is SendFailed,
        DeliveryState::SendingRetry => e is SendSucceeded || e is SendFailed,
        DeliveryState::Reconnecting { .. } => e is ReconnectSucceeded || e is ReconnectFailed,
        DeliveryState::Finished { .. } => false,
    }
}

/// The transition relation: at most one reconnect, at most one retry, and the
/// reconnect failure reports the original send error.
pub open spec fn next_state(s: DeliveryState, e: DeliveryEvent) -> DeliveryState {
    match s {
        DeliveryState::SendingFirst => match e {
            DeliveryEvent::SendSucceeded => DeliveryState::Finished { outcome: Ok(()) },
            DeliveryEvent::SendFailed { error } => DeliveryState::Reconnecting {
                send_error: error,
            },
            _ => s,
        },
        DeliveryState::Reconnecting { send_error } => match e {
            DeliveryEvent::ReconnectSucceeded => DeliveryState::SendingRetry,
            DeliveryEvent::ReconnectFailed { error } => DeliveryState::Finished {
                outcome: Err(PresenceError::ReconnectFailed(send_error)),
            },
            _ => s,
        },
        DeliveryState::SendingRetry => match e {
            DeliveryEvent::SendSucceeded => DeliveryState::Finished { outcome: Ok(()) },
            DeliveryEvent::SendFailed { error } => DeliveryState::Finished {
                outcome: Err(PresenceError::RetrySendFailed(error)),
            },
            _ => s,
        },
        DeliveryState::Finished { .. } => s,
    }
}

/// The action owed in a state.
pub open spec fn action_of(s: DeliveryState) -> DeliveryAction {
    match s {
        DeliveryState::SendingFirst => DeliveryAction::AttemptSend,
        DeliveryState::SendingRetry => DeliveryAction::AttemptSend,
        DeliveryState::Reconnecting { .. } => DeliveryAction::CloseThenReconnect,
        DeliveryState::Finished { .. } => DeliveryAction::Finish,
    }
}

/// Starts one delivery over a session that exists (or not).
pub fn start_delivery(session_ready: bool) -> (s: DeliveryState)
    ensures
        s == initial_state(session_ready),
{
    if session_ready {
        DeliveryState::SendingFirst
    } else {
        DeliveryState::Finished { outcome: Err(PresenceError::SessionUninitialized) }
    }
}

/// Advances the delivery on the transport's answer to the pending action.
pub fn step_delivery(s: DeliveryState, e: DeliveryEvent) -> (r: DeliveryState)
    requires
        event_fits(s, e),
    ensures
        r == next_state(s, e),
{
    match s {
        DeliveryState::SendingFirst => match e {
            DeliveryEvent::SendSucceeded => DeliveryState::Finished { outcome: Ok(()) },
            DeliveryEvent::SendFailed { error } => DeliveryState::Reconnecting {
                send_error: error,
            },
            _ => s,
        },
        DeliveryState::Reconnecting { send_error } => match e {
            DeliveryEvent::ReconnectSucceeded => DeliveryState::SendingRetry,
            DeliveryEvent::ReconnectFailed { error: _ } => DeliveryState::Finished {
                outcome: Err(PresenceError::ReconnectFailed(send_error)),
            },
            _ => DeliveryState::Reconnecting { send_error },
        },
        DeliveryState::SendingRetry => match e {
            DeliveryEvent::SendSucceeded => DeliveryState::Finished { outcome: Ok(()) },
            DeliveryEvent::SendFailed { error } => DeliveryState::Finished {
                outcome: Err(PresenceError::RetrySendFailed(error)),
            },
            _ => s,
        },
        DeliveryState::Finished { outcome } => DeliveryState::Finished { outcome },
    }
}

/// The action owed in the current state.
pub fn pending_action(s: &DeliveryState) -> (a: DeliveryAction)
    ensures
        a == action_of(*s),
{
    match s {
        DeliveryState::SendingFirst => DeliveryAction::AttemptSend,
        DeliveryState::SendingRetry => DeliveryAction::AttemptSend,
        DeliveryState::Reconnecting { .. } => DeliveryAction::CloseThenReconnect,
        DeliveryState::Finished { .. } => DeliveryAction::Finish,
    }
}

/// If the first send fails, reconnect succeeds, and the retried send
/// succeeds, the delivery ends in success with no visible error.
pub proof fn lemma_retry_after_reconnect_succeeds(send_error: String)
    ensures
        ({
            let s1 = next_state(
                initial_state(true),
                DeliveryEvent::SendFailed { error: send_error },
            );
            let s2 = next_state(s1, DeliveryEvent::ReconnectSucceeded);
            let s3 = next_state(s2, DeliveryEvent::SendSucceeded);
            s3 == (DeliveryState::Finished { outcome: Ok(()) })
        }),
{
}

/// If the first send fails and the reconnect fails, the delivery fails with
/// an error attributable to the reconnect failure, carrying the text of the
/// original send error.
pub proof fn lemma_reconnect_failure_is_terminal(send_error: String, reconnect_error: String)
    ensures
        ({
            let s1 = next_state(
                initial_state(true),
                DeliveryEvent::SendFailed { error: send_error },
            );
            let s2 = next_state(s1, DeliveryEvent::ReconnectFailed { error: reconnect_error });
            s2 == (DeliveryState::Finished {
                outcome: Err(PresenceError::ReconnectFailed(send_error)),
            })
        }),
{
}

} // verus!
