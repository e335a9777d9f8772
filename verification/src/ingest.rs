//! The ingestion loop: what becomes of each event of the broker session.
//!
//! The loop itself waits on the network and writes to the store, so it is
//! run by the caller. What it decides stands here: `step` takes the loop's
//! state, one event and the clock's reading, and returns the next state and
//! the one thing to do.

use crate::record::{epoch_timestamp, timestamp_of, CanonicalRecord, CanonicalRecordView};
use crate::session::{SessionEvent, SessionEventView};
use crate::validator::{accepted_view, validate, validate_spec, ValidationError};
use vstd::prelude::*;

verus! {

/// Whether the loop still takes events.
#[derive(Clone, Copy, Debug, PartialEq, Eq, Structural)]
pub enum LoopState {
    Running,
    Stopped,
}

/// The one thing to do after an event.
#[derive(Clone, Debug, PartialEq, Eq)]
pub enum Action {
    /// Append this record to the store.
    Persist(CanonicalRecord),
    /// Report that a payload was dropped. Nothing is stored.
    Reject(ValidationError),
    /// Report the session's failure and leave the loop.
    Halt { detail: String },
    /// Nothing.
    Ignore,
}

/// An `Action` as plain values.
pub enum ActionView {
    Persist(CanonicalRecordView),
    Reject(ValidationError),
    Halt { detail: Seq<char> },
    Ignore,
}

impl View for Action {
    type V = ActionView;

    open spec fn view(&self) -> ActionView {
        match self {
            Action::Persist(record) => ActionView::Persist(record@),
            Action::Reject(error) => ActionView::Reject(*error),
            Action::Halt { detail } => ActionView::Halt { detail: detail@ },
            Action::Ignore => ActionView::Ignore,
        }
    }
}

/// What a validated message leads to: a record of the topic, the canonical
/// text and the clock's reading, or the report of why it was dropped.
pub open spec fn settle_spec(
    topic: Seq<char>,
    accepted: Result<Seq<char>, ValidationError>,
    clock_secs: u64,
) -> ActionView {
    match accepted {
        Ok(message) => ActionView::Persist(
            CanonicalRecordView { topic, message, timestamp: timestamp_of(clock_secs) },
        ),
        Err(error) => ActionView::Reject(error),
    }
}

/// One turn of the loop. A stopped loop ignores everything. A running loop
/// validates a message and stays running whatever comes of it, stops on a
/// session error, and ignores any other event.
pub open spec fn step_spec(state: LoopState, event: SessionEventView, clock_secs: u64) -> (
    LoopState,
    ActionView,
) {
    match state {
        LoopState::Stopped => (LoopState::Stopped, ActionView::Ignore),
        LoopState::Running => match event {
            SessionEventView::MessageReceived(message) => (
                LoopState::Running,
                settle_spec(message.topic, validate_spec(message.payload), clock_secs),
            ),
            SessionEventView::SessionError { detail } => (
                LoopState::Stopped,
                ActionView::Halt { detail },
            ),
            SessionEventView::Other => (LoopState::Running, ActionView::Ignore),
        },
    }
}

impl LoopState {
    /// The state in which a loop starts.
    pub fn initial() -> (state: LoopState)
        ensures
            state == LoopState::Running,
    {
        LoopState::Running
    }
}

/// Decides what to do with a message once it has been validated.
pub fn settle(topic: String, accepted: Result<String, ValidationError>, clock_secs: u64) -> (action:
    Action)
    ensures
        action@ == settle_spec(topic@, accepted_view(accepted), clock_secs),
{
    match accepted {
        Ok(message) => Action::Persist(
            CanonicalRecord { topic, message, timestamp: epoch_timestamp(clock_secs) },
        ),
        Err(error) => Action::Reject(error),
    }
}

/// Takes one event: returns the loop's next state and what to do.
/// `clock_secs` is the wall clock at the event, in whole seconds since the
/// epoch.
pub fn step(state: LoopState, event: SessionEvent, clock_secs: u64) -> (next: (LoopState, Action))
    ensures
        (next.0, next.1@) == step_spec(state, event@, clock_secs),
{
    match state {
        LoopState::Stopped => (LoopState::Stopped, Action::Ignore),
        LoopState::Running => match event {
            SessionEvent::MessageReceived(message) => {
                let accepted = validate(message.payload.as_slice());
                (LoopState::Running, settle(message.topic, accepted, clock_secs))
            },
            SessionEvent::SessionError { detail } => (LoopState::Stopped, Action::Halt { detail }),
            SessionEvent::Other => (LoopState::Running, Action::Ignore),
        },
    }
}

/// An event and the clock's reading at which it arrived.
pub struct Arrival {
    pub event: SessionEventView,
    pub clock_secs: u64,
}

/// The state of a loop after it has taken a run of arrivals, one `step`
/// each, first to last.
pub open spec fn run_state(state: LoopState, arrivals: Seq<Arrival>) -> LoopState
    decreases arrivals.len(),
{
    if arrivals.len() == 0 {
        state
    } else {
        run_state(
            step_spec(state, arrivals[0].event, arrivals[0].clock_secs).0,
            arrivals.drop_first(),
        )
    }
}

/// The records that a loop asks to have appended while it takes a run of
/// arrivals, in the order in which it asks.
pub open spec fn run_records(state: LoopState, arrivals: Seq<Arrival>) -> Seq<CanonicalRecordView>
    decreases arrivals.len(),
{
    if arrivals.len() == 0 {
        Seq::empty()
    } else {
        let (next, action) = step_spec(state, arrivals[0].event, arrivals[0].clock_secs);
        let rest = run_records(next, arrivals.drop_first());
        match action {
            ActionView::Persist(record) => seq![record] + rest,
            _ => rest,
        }
    }
}

/// Whether an arrival is a message on the given topic whose payload passes
/// validation.
pub open spec fn valid_message_on(arrival: Arrival, topic: Seq<char>) -> bool {
    arrival.event matches SessionEventView::MessageReceived(message) && message.topic == topic
        && validate_spec(message.payload) is Ok
}

/// The record that a valid message on a topic leads to: the topic, the
/// payload's canonical text and the timestamp of the arrival.
pub open spec fn record_of(arrival: Arrival, topic: Seq<char>) -> CanonicalRecordView {
    CanonicalRecordView {
        topic,
        message: validate_spec(arrival.event->MessageReceived_0.payload)->Ok_0,
        timestamp: timestamp_of(arrival.clock_secs),
    }
}

/// Once stopped, a loop stays stopped and asks for no record, whatever
/// arrives.
pub proof fn law_stopped_loop_records_nothing(arrivals: Seq<Arrival>)
    ensures
        run_state(LoopState::Stopped, arrivals) == LoopState::Stopped,
        run_records(LoopState::Stopped, arrivals) == Seq::<CanonicalRecordView>::empty(),
    decreases arrivals.len(),
{
    if arrivals.len() > 0 {
        law_stopped_loop_records_nothing(arrivals.drop_first());
    }
}

/// A session error stops a running loop: nothing that arrives after it is
/// recorded.
pub proof fn law_session_error_ends_ingestion(detail: Seq<char>, clock_secs: u64, later: Seq<Arrival>)
    ensures
        run_state(
            LoopState::Running,
            seq![Arrival { event: SessionEventView::SessionError { detail }, clock_secs }] + later,
        ) == LoopState::Stopped,
        run_records(
            LoopState::Running,
            seq![Arrival { event: SessionEventView::SessionError { detail }, clock_secs }] + later,
        ) == Seq::<CanonicalRecordView>::empty(),
{
    let first = Arrival { event: SessionEventView::SessionError { detail }, clock_secs };
    let all = seq![first] + later;
    assert(all[0] == first);
    assert(all.drop_first() =~= later);
    law_stopped_loop_records_nothing(later);
}

/// A message whose payload does not pass validation leaves a running loop
/// as it was: no record is asked for, and what arrives next is taken as if
/// the message had not come.
pub proof fn law_malformed_message_is_dropped(first: Arrival, later: Seq<Arrival>)
    requires
        first.event matches SessionEventView::MessageReceived(message) && validate_spec(
            message.payload,
        ) is Err,
    ensures
        step_spec(LoopState::Running, first.event, first.clock_secs) == (
            LoopState::Running,
            ActionView::Reject(ValidationError::Malformed),
        ),
        run_state(LoopState::Running, seq![first] + later) == run_state(LoopState::Running, later),
        run_records(LoopState::Running, seq![first] + later) == run_records(
            LoopState::Running,
            later,
        ),
{
    let all = seq![first] + later;
    assert(all[0] == first);
    assert(all.drop_first() =~= later);
}

/// Of a run of messages on one topic that all pass validation, a running
/// loop records every one, in the order of arrival, none twice and none
/// merged with an equal one: the record at each place is the `record_of`
/// the message at that place. The loop is still running afterwards.
pub proof fn law_valid_messages_are_all_recorded(topic: Seq<char>, arrivals: Seq<Arrival>)
    requires
        forall|i: int| 0 <= i < arrivals.len() ==> valid_message_on(#[trigger] arrivals[i], topic),
    ensures
        run_state(LoopState::Running, arrivals) == LoopState::Running,
        run_records(LoopState::Running, arrivals).len() == arrivals.len(),
        forall|i: int|
            0 <= i < arrivals.len() ==> (#[trigger] run_records(LoopState::Running, arrivals)[i])
                == record_of(arrivals[i], topic),
    decreases arrivals.len(),
{
    if arrivals.len() > 0 {
        let later = arrivals.drop_first();
        assert(valid_message_on(arrivals[0], topic));
        assert forall|i: int| 0 <= i < later.len() implies valid_message_on(
            #[trigger] later[i],
            topic,
        ) by {
            assert(later[i] == arrivals[i + 1]);
        }
        law_valid_messages_are_all_recorded(topic, later);
        let records = run_records(LoopState::Running, arrivals);
        let rest = run_records(LoopState::Running, later);
        assert forall|i: int| 0 <= i < arrivals.len() implies (#[trigger] records[i])
            == record_of(arrivals[i], topic) by {
            if i > 0 {
                assert(records[i] == rest[i - 1]);
                assert(later[i - 1] == arrivals[i]);
            }
        }
    }
}

} // verus!
