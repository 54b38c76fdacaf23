//! The run lifecycle over whole message sequences.
//!
//! The controller answers one message at a time. This module folds its
//! transitions over a sequence of messages, each taken together with the
//! outcome of the sink work it led to, and proves what holds of every such
//! sequence.

use vstd::prelude::*;

use crate::classify::{carries, kind_of, Kind, Schema};
use crate::controller::{
    after_message, after_outcome, decision, failure_metric, outcome_failure, received_metric,
    Decision, FailureKind, MessageKind, State,
};
use crate::naming::NameError;

verus! {

/// One message as the machine sees it, with what the sink did about it.
pub struct Event {
    /// Kind of the message.
    pub kind: Kind,
    /// Artifact name that the message's timestamp gives.
    pub name: Result<Seq<char>, NameError>,
    /// Whether the sink, if asked for a new artifact, creates it.
    pub sink_created: bool,
    /// Whether the sink, if handed a frame, writes it.
    pub frame_written: bool,
}

/// The state after one event: the message's own transition, then, where
/// the message asked for a session, the outcome of creating the sink.
pub open spec fn advance(state: State, digitizer_count: usize, event: Event) -> State {
    let next = after_message(state, event.kind);
    match decision(state is Some, event.kind, event.name, digitizer_count) {
        Decision::OpenSession { name, digitizer_count } => after_outcome(
            next,
            name,
            digitizer_count,
            event.sink_created,
        ),
        _ => next,
    }
}

/// The state after a sequence of events, from `state` on.
pub open spec fn replay(state: State, digitizer_count: usize, events: Seq<Event>) -> State
    decreases events.len(),
{
    if events.len() == 0 {
        state
    } else {
        advance(replay(state, digitizer_count, events.drop_last()), digitizer_count, events.last())
    }
}

/// Whether an event opens a session when none is open: a run start whose
/// timestamp gives a name and whose sink is created.
pub open spec fn opens(event: Event) -> bool {
    event.kind == Kind::RunStart && event.name is Ok && event.sink_created
}

/// Whether no run stop occurs among the events from index `from` on.
pub open spec fn no_stop_from(events: Seq<Event>, from: int) -> bool {
    forall|j: int| from <= j < events.len() ==> (#[trigger] events[j]).kind != Kind::RunStop
}

/// Whether a session is open after `events` by what the events themselves
/// say: either the session of the initial state was never stopped, or some
/// event opens a session and no run stop follows it.
pub open spec fn started_since_last_stop(state: State, events: Seq<Event>) -> bool {
    (state is Some && no_stop_from(events, 0)) || exists|i: int|
        0 <= i < events.len() && opens(#[trigger] events[i]) && no_stop_from(events, i + 1)
}

/// The number of sessions that come to be while `events` are replayed.
pub open spec fn sessions_created(state: State, digitizer_count: usize, events: Seq<Event>) -> nat
    decreases events.len(),
{
    if events.len() == 0 {
        0
    } else {
        let before = replay(state, digitizer_count, events.drop_last());
        let earlier = sessions_created(state, digitizer_count, events.drop_last());
        if before is None && opens(events.last()) {
            earlier + 1
        } else {
            earlier
        }
    }
}

/// Whether the frame of the event at index `at` is handed to the sink:
/// the machine decides to forward it in the state that the events before
/// it have led to.
pub open spec fn forwarded_at(state: State, digitizer_count: usize, events: Seq<Event>, at: int) -> bool {
    decision(
        replay(state, digitizer_count, events.take(at)) is Some,
        events[at].kind,
        events[at].name,
        digitizer_count,
    ) == Decision::Forward
}

/// The failure counters that one event increments in a given state: the
/// one of the message itself, or the one of the sink work it led to.
pub open spec fn event_failure(state: State, digitizer_count: usize, event: Event) -> Option<
    FailureKind,
> {
    match decision(state is Some, event.kind, event.name, digitizer_count) {
        Decision::OpenSession { .. } => outcome_failure(event.sink_created),
        Decision::Forward => outcome_failure(event.frame_written),
        _ => failure_metric(state is Some, event.kind, event.name),
    }
}

/// A session is open after a sequence of events exactly if it was started
/// since the last run stop: the initial session was never stopped, or a
/// run start that could open a session is followed by no run stop.
pub proof fn lemma_open_iff_started_since_last_stop(
    state: State,
    digitizer_count: usize,
    events: Seq<Event>,
)
    ensures
        replay(state, digitizer_count, events) is Some <==> started_since_last_stop(state, events),
    decreases events.len(),
{
    if events.len() > 0 {
        let front = events.drop_last();
        lemma_open_iff_started_since_last_stop(state, digitizer_count, front);
        // The events before the last one are the same in both sequences, so
        // what the front says of run starts and run stops carries over.
        assert(forall|j: int| 0 <= j < front.len() ==> front[j] == events[j]);
    }
}

/// Exactly the frames of an open run reach the sink: the event at index
/// `at` is forwarded if and only if it is a trace frame and a session was
/// started, and not stopped again, before it.
pub proof fn lemma_forwarded_iff_frame_of_open_run(
    state: State,
    digitizer_count: usize,
    events: Seq<Event>,
    at: int,
)
    requires
        0 <= at < events.len(),
    ensures
        forwarded_at(state, digitizer_count, events, at) <==> events[at].kind == Kind::TraceFrame
            && started_since_last_stop(state, events.take(at)),
{
    lemma_open_iff_started_since_last_stop(state, digitizer_count, events.take(at));
}

/// A run start that arrives while a session is open asks for nothing,
/// counts nothing and leaves the session as it is, whatever its timestamp
/// and whatever the sink would do.
pub proof fn lemma_run_start_while_open_is_ignored(
    state: State,
    digitizer_count: usize,
    event: Event,
)
    requires
        state is Some,
        event.kind == Kind::RunStart,
    ensures
        decision(true, event.kind, event.name, digitizer_count) == Decision::Nothing,
        received_metric(event.kind) is None,
        event_failure(state, digitizer_count, event) is None,
        advance(state, digitizer_count, event) == state,
{
}

/// Delivering a run start a second time changes nothing and fails
/// nothing, provided the first delivery opened a session: the replayed
/// message finds the session open and is ignored.
pub proof fn lemma_redelivered_run_start(state: State, digitizer_count: usize, event: Event)
    requires
        opens(event),
    ensures
        advance(state, digitizer_count, event) is Some,
        advance(advance(state, digitizer_count, event), digitizer_count, event) == advance(
            state,
            digitizer_count,
            event,
        ),
        event_failure(advance(state, digitizer_count, event), digitizer_count, event) is None,
        sessions_created(state, digitizer_count, seq![event, event]) == sessions_created(
            state,
            digitizer_count,
            seq![event],
        ),
{
    let once = seq![event];
    assert(seq![event, event].drop_last() =~= once);
    assert(replay(state, digitizer_count, once.drop_last()) == state);
}

/// Between two run stops at most one session comes to be: while no run
/// stop arrives, at most one session is created, and none at all where one
/// was open from the beginning.
pub proof fn lemma_one_session_per_run(state: State, digitizer_count: usize, events: Seq<Event>)
    requires
        no_stop_from(events, 0),
    ensures
        sessions_created(state, digitizer_count, events) <= 1,
        state is Some ==> sessions_created(state, digitizer_count, events) == 0,
        sessions_created(state, digitizer_count, events) == 1 ==> replay(
            state,
            digitizer_count,
            events,
        ) is Some,
    decreases events.len(),
{
    if events.len() > 0 {
        let front = events.drop_last();
        lemma_one_session_per_run(state, digitizer_count, front);
        lemma_open_iff_started_since_last_stop(state, digitizer_count, front);
    }
}

/// A run stop that finds no session open does nothing: no action, no
/// counter, and still no session. Stopping twice is stopping once.
pub proof fn lemma_stop_without_session(state: State, digitizer_count: usize, event: Event)
    requires
        event.kind == Kind::RunStop,
    ensures
        decision(false, event.kind, event.name, digitizer_count) == Decision::Nothing,
        received_metric(event.kind) is None,
        event_failure(None, digitizer_count, event) is None,
        advance(None, digitizer_count, event) is None,
        advance(advance(state, digitizer_count, event), digitizer_count, event) == advance(
            state,
            digitizer_count,
            event,
        ),
{
}

/// A trace frame that finds no session open is dropped: it is counted as
/// received, it is not forwarded, it is no failure, and no session opens.
pub proof fn lemma_frame_without_session(digitizer_count: usize, event: Event)
    requires
        event.kind == Kind::TraceFrame,
    ensures
        decision(false, event.kind, event.name, digitizer_count) == Decision::Nothing,
        received_metric(event.kind) == Some(MessageKind::Trace),
        event_failure(None, digitizer_count, event) is None,
        advance(None, digitizer_count, event) is None,
{
}

/// A frame never ends a session, whether the sink writes it or not.
pub proof fn lemma_frame_keeps_session(state: State, digitizer_count: usize, event: Event)
    requires
        event.kind == Kind::TraceFrame,
    ensures
        advance(state, digitizer_count, event) == state,
        state is Some ==> event_failure(state, digitizer_count, event) == outcome_failure(
            event.frame_written,
        ),
{
}

/// A payload that carries the trace identifier over a body that does not
/// decode counts as a decode failure on any topic, and neither opens nor
/// closes a session.
pub proof fn lemma_malformed_trace_counts_as_decode_failure(
    control_topic: Seq<char>,
    topic: Seq<char>,
    payload: Seq<u8>,
    state: State,
    digitizer_count: usize,
    event: Event,
)
    requires
        carries(payload, Schema::Trace),
        event.kind == kind_of(control_topic, topic, payload, false),
    ensures
        event.kind == Kind::DecodeFailed,
        event_failure(state, digitizer_count, event) == Some(FailureKind::UnableToDecodeMessage),
        received_metric(event.kind) is None,
        decision(state is Some, event.kind, event.name, digitizer_count) == Decision::Nothing,
        advance(state, digitizer_count, event) == state,
{
}

/// A payload on the control topic that carries none of the known
/// identifiers counts as an unknown message and as no failure, and leaves
/// the session as it is.
pub proof fn lemma_unrecognized_counts_as_unknown(
    control_topic: Seq<char>,
    payload: Seq<u8>,
    decodes: bool,
    state: State,
    digitizer_count: usize,
    event: Event,
)
    requires
        !carries(payload, Schema::Trace),
        !carries(payload, Schema::RunStart),
        !carries(payload, Schema::RunStop),
        event.kind == kind_of(control_topic, control_topic, payload, decodes),
    ensures
        event.kind == Kind::Unrecognized,
        received_metric(event.kind) == Some(MessageKind::Unknown),
        event_failure(state, digitizer_count, event) is None,
        decision(state is Some, event.kind, event.name, digitizer_count) == Decision::Nothing,
        advance(state, digitizer_count, event) == state,
{
}

/// A payload carries at most one identifier.
pub proof fn lemma_identifiers_are_distinct(payload: Seq<u8>, first: Schema, second: Schema)
    requires
        carries(payload, first),
        carries(payload, second),
    ensures
        first == second,
{
    assert(payload.subrange(4, 8)[0] == first.tag()[0]);
}

} // verus!
