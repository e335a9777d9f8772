//! The broker session as the rest of the library sees it: its state, the one
//! subscription it asks for, and the events it delivers.

use crate::record::{InboundMessage, InboundMessageView};
use vstd::prelude::*;

verus! {

/// Where a broker session stands. Only the session changes it; the
/// ingestion loop sees the events alone.
#[derive(Clone, Copy, Debug, PartialEq, Eq, Structural)]
pub enum SessionState {
    /// No transport yet.
    Disconnected,
    /// Transport and handshake are done, nothing is subscribed.
    Connected,
    /// The one subscription has been issued.
    Subscribed,
    /// The session has failed. There is no way back.
    Terminated,
}

/// The delivery guarantees that the protocol knows.
#[derive(Clone, Copy, Debug, PartialEq, Eq, Structural)]
pub enum QualityOfService {
    /// A message may be lost and is never repeated.
    AtMostOnce,
    /// A message is never lost and may be repeated.
    AtLeastOnce,
    /// A message arrives once.
    ExactlyOnce,
}

/// The subscription that a session asks of its broker.
#[derive(Clone, Debug, PartialEq, Eq)]
pub struct Subscription {
    pub topic: String,
    pub quality: QualityOfService,
}

/// A `Subscription` as plain values.
pub struct SubscriptionView {
    pub topic: Seq<char>,
    pub quality: QualityOfService,
}

impl View for Subscription {
    type V = SubscriptionView;

    open spec fn view(&self) -> SubscriptionView {
        SubscriptionView { topic: self.topic@, quality: self.quality }
    }
}

/// Why a subscription could not be issued. Either is fatal at startup.
#[derive(Clone, Copy, Debug, PartialEq, Eq, Structural)]
pub enum SessionFault {
    /// The session is not in the state `Connected`.
    NotEstablished,
    /// The topic is empty.
    MalformedTopic,
}

/// One item of the stream that a session delivers.
#[derive(Clone, Debug, PartialEq, Eq)]
pub enum SessionEvent {
    /// A message was published on the subscribed topic.
    MessageReceived(InboundMessage),
    /// The session failed. Nothing follows that is of use.
    SessionError { detail: String },
    /// Any other event of the protocol.
    Other,
}

/// A `SessionEvent` as plain values.
pub enum SessionEventView {
    MessageReceived(InboundMessageView),
    SessionError { detail: Seq<char> },
    Other,
}

impl View for SessionEvent {
    type V = SessionEventView;

    open spec fn view(&self) -> SessionEventView {
        match self {
            SessionEvent::MessageReceived(message) => SessionEventView::MessageReceived(message@),
            SessionEvent::SessionError { detail } => SessionEventView::SessionError {
                detail: detail@,
            },
            SessionEvent::Other => SessionEventView::Other,
        }
    }
}

/// The state after transport and handshake have succeeded.
pub open spec fn established_spec(state: SessionState) -> SessionState {
    match state {
        SessionState::Disconnected => SessionState::Connected,
        _ => state,
    }
}

/// What asking for a subscription leads to: from `Connected`, with a topic
/// that is not empty, to `Subscribed` and the request at the lowest
/// delivery guarantee; otherwise to a fault.
pub open spec fn subscribe_spec(state: SessionState, topic: Seq<char>) -> Result<
    (SessionState, SubscriptionView),
    SessionFault,
> {
    if state != SessionState::Connected {
        Err(SessionFault::NotEstablished)
    } else if topic.len() == 0 {
        Err(SessionFault::MalformedTopic)
    } else {
        Ok(
            (
                SessionState::Subscribed,
                SubscriptionView { topic, quality: QualityOfService::AtMostOnce },
            ),
        )
    }
}

/// The state after an event: an error ends the session, whatever its state
/// was; nothing else changes it.
pub open spec fn observed_spec(state: SessionState, event: SessionEventView) -> SessionState {
    match event {
        SessionEventView::SessionError { .. } => SessionState::Terminated,
        _ => state,
    }
}

/// The outcome of `subscribe` as plain values.
pub open spec fn subscribed_view(outcome: Result<(SessionState, Subscription), SessionFault>)
    -> Result<(SessionState, SubscriptionView), SessionFault> {
    match outcome {
        Ok((state, subscription)) => Ok((state, subscription@)),
        Err(fault) => Err(fault),
    }
}

impl SessionState {
    /// The state of a session that has done nothing yet.
    pub fn initial() -> (state: SessionState)
        ensures
            state == SessionState::Disconnected,
    {
        SessionState::Disconnected
    }

    /// Records that transport and handshake have succeeded.
    pub fn established(self) -> (next: SessionState)
        ensures
            next == established_spec(self),
    {
        match self {
            SessionState::Disconnected => SessionState::Connected,
            _ => self,
        }
    }

    /// Decides the subscription to one topic: the request to send and the
    /// state once it is sent, or the fault that forbids it.
    pub fn subscribe(self, topic: &str) -> (outcome: Result<
        (SessionState, Subscription),
        SessionFault,
    >)
        ensures
            subscribed_view(outcome) == subscribe_spec(self, topic@),
    {
        match self {
            SessionState::Connected => {
                if topic.is_empty() {
                    Err(SessionFault::MalformedTopic)
                } else {
                    Ok(
                        (
                            SessionState::Subscribed,
                            Subscription {
                                topic: topic.to_owned(),
                                quality: QualityOfService::AtMostOnce,
                            },
                        ),
                    )
                }
            },
            _ => Err(SessionFault::NotEstablished),
        }
    }

    /// Follows the stream: the state after one more event of it.
    pub fn observed(self, event: &SessionEvent) -> (next: SessionState)
        ensures
            next == observed_spec(self, event@),
    {
        match event {
            SessionEvent::SessionError { .. } => SessionState::Terminated,
            _ => self,
        }
    }
}

/// No event leads out of `Terminated`, and neither does a handshake: a
/// session that has failed is not taken up again.
pub proof fn law_terminated_is_final(event: SessionEventView)
    ensures
        observed_spec(SessionState::Terminated, event) == SessionState::Terminated,
        established_spec(SessionState::Terminated) == SessionState::Terminated,
        forall|topic: Seq<char>| subscribe_spec(SessionState::Terminated, topic) is Err,
{
}

} // verus!
