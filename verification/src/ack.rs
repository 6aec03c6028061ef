//! When a message is deleted, and when the loop ends.
//!
//! Deleting a message acknowledges it: the queue will not deliver it again.
//! The laws here say that this happens exactly when the last object of a
//! message has been ingested without error and the ingestor is set to delete,
//! and that it never happens in answer to a failure.

use crate::compression::lemma_resolved_is_concrete;
use crate::config::SqsIngestor;
use crate::ingest::{
    abandon, begin_messages, is_created, next_record, string_view, transition, Action, Event,
    Outcome, Phase, PollerView, ProcessingError,
};
use crate::notification::S3EventRecord;
use vstd::prelude::*;

verus! {

/// No event from `from` on announces a new object.
pub open spec fn none_created(records: Seq<S3EventRecord>, from: int) -> bool {
    forall|j: int| from <= j < records.len() ==> !is_created(#[trigger] records[j])
}

/// Where the events of a message are taken up again.
pub struct Resume {
    pub records: Seq<S3EventRecord>,
    pub from: int,
}

/// Where the events of the message are taken up again if `event` reports
/// that a step of processing went well: the notification was parsed, the
/// object has no body, or the object was ingested with no read error and no
/// sink error. Any other event does not take them up.
pub open spec fn resumes(state: PollerView, event: Event) -> Option<Resume> {
    match (state.phase, event) {
        (Phase::Parsing, Event::Parsed { notification }) => Some(
            Resume { records: notification.records@, from: 0 },
        ),
        (Phase::Fetching, Event::ObjectEmpty) => Some(
            Resume { records: state.records, from: state.record_index + 1 },
        ),
        (Phase::Ingesting, Event::Ingested { read_error: None, sink_error: None }) => Some(
            Resume { records: state.records, from: state.record_index + 1 },
        ),
        _ => None,
    }
}

/// Whether `event` reports that processing the message failed: its body
/// could not be parsed, its object could not be fetched, or the object could
/// not be read to its end or the sink refused what it was sent.
pub open spec fn fails(state: PollerView, event: Event) -> bool {
    match (state.phase, event) {
        (Phase::Parsing, Event::ParseFailed { .. }) => true,
        (Phase::Fetching, Event::ObjectFailed { .. }) => true,
        (Phase::Ingesting, Event::Ingested { read_error, sink_error }) => read_error is Some
            || sink_error is Some,
        _ => false,
    }
}

/// Turning to the next message never deletes: the loop either waits or has
/// a body parsed, and every message passed over on the way is reported.
pub proof fn lemma_begin_never_deletes(messages: Seq<crate::ingest::SqsMessage>, index: int)
    requires
        0 <= index,
    ensures
        ({
            let outcome = begin_messages(messages, index);
            &&& outcome.state.wf()
            &&& !(outcome.action is Delete)
            &&& outcome.action is Wait <==> outcome.state.phase == Phase::Idle
            &&& outcome.action is Parse <==> outcome.state.phase == Phase::Parsing
            &&& outcome.action is Wait || outcome.action is Parse
            &&& outcome.state.phase == Phase::Parsing ==> {
                &&& outcome.state.messages == messages
                &&& index <= outcome.state.message_index
                &&& outcome.reports.len() == outcome.state.message_index - index
            }
            &&& outcome.state.phase == Phase::Idle ==> index < messages.len() ==> outcome.reports.len()
                == messages.len() - index
        }),
    decreases messages.len() - index,
{
    if index < messages.len() {
        lemma_begin_never_deletes(messages, index + 1);
    }
}

/// Taking up the events of a message deletes it exactly when the ingestor
/// deletes messages and no event that is left announces a new object.
pub proof fn lemma_next_record_deletes(ingestor: SqsIngestor, state: PollerView, from: int)
    requires
        state.phase.is_processing(),
        state.wf(),
        0 <= from,
    ensures
        ({
            let outcome = next_record(ingestor, state, from);
            &&& outcome.action is Delete <==> ingestor.delete_message() && none_created(
                state.records,
                from,
            )
            &&& outcome.action is Delete ==> {
                &&& outcome.action == Action::Delete {
                    queue_url: ingestor.queue_url(),
                    receipt_handle: state.message().receipt_handle->0,
                }
                &&& outcome.state.phase == Phase::Deleting
                &&& outcome.state.messages == state.messages
                &&& outcome.state.message_index == state.message_index
                &&& outcome.reports.len() == 0
            }
        }),
    decreases state.records.len() - from,
{
    lemma_begin_never_deletes(state.messages, state.message_index + 1);
    if from < state.records.len() {
        let record = state.records[from];
        lemma_next_record_deletes(ingestor, state, from + 1);
        if is_created(record) {
            assert(!none_created(state.records, from));
        } else {
            if none_created(state.records, from + 1) {
                assert(none_created(state.records, from));
            }
        }
    }
}

/// The ack discipline. In answer to an event, the message that is being
/// processed is deleted if and only if the ingestor deletes messages, the
/// event reports that a step went well, and no event of the message is left
/// that announces a new object. The deletion then names the receipt handle
/// of that very message, and nothing is reported.
pub proof fn lemma_ack_discipline(ingestor: SqsIngestor, state: PollerView, event: Event)
    requires
        state.wf(),
    ensures
        ({
            let outcome = transition(ingestor, state, event);
            &&& outcome.action is Delete <==> {
                &&& ingestor.delete_message()
                &&& resumes(state, event) matches Some(resume)
                &&& none_created(resume.records, resume.from)
            }
            &&& outcome.action is Delete ==> {
                &&& outcome.action == Action::Delete {
                    queue_url: ingestor.queue_url(),
                    receipt_handle: state.message().receipt_handle->0,
                }
                &&& state.message().receipt_handle is Some
                &&& outcome.state.phase == Phase::Deleting
                &&& outcome.state.message_index == state.message_index
                &&& outcome.reports.len() == 0
            }
        }),
{
    lemma_begin_never_deletes(state.messages, state.message_index + 1);
    match event {
        Event::Received { messages } => {
            lemma_begin_never_deletes(messages@, 0);
        },
        _ => {},
    }
    match resumes(state, event) {
        Some(resume) => {
            let resumed = PollerView { records: resume.records, ..state };
            lemma_next_record_deletes(ingestor, resumed, resume.from);
        },
        None => {},
    }
}

/// A failure never deletes. In answer to an event that reports a failure,
/// the message is abandoned: the failure is the first thing reported, no
/// deletion is asked for, and the loop has turned to a later message or is
/// idle.
pub proof fn lemma_failure_abandons(ingestor: SqsIngestor, state: PollerView, event: Event)
    requires
        state.wf(),
        fails(state, event),
    ensures
        ({
            let outcome = transition(ingestor, state, event);
            &&& !(outcome.action is Delete)
            &&& outcome.state.wf()
            &&& outcome.reports.len() > 0
            &&& outcome.reports[0] is Failed
            &&& outcome.state.phase == Phase::Idle || {
                &&& outcome.state.phase == Phase::Parsing
                &&& outcome.state.messages == state.messages
                &&& outcome.state.message_index > state.message_index
            }
        }),
{
    lemma_begin_never_deletes(state.messages, state.message_index + 1);
}

/// An event from another region abandons the message: where the first event
/// left that announces a new object names a region other than the
/// ingestor's, taking up the events reports `WrongRegion` and deletes
/// nothing.
pub proof fn lemma_wrong_region_abandons(
    ingestor: SqsIngestor,
    state: PollerView,
    from: int,
    at: int,
)
    requires
        state.phase.is_processing(),
        state.wf(),
        0 <= from <= at < state.records.len(),
        forall|j: int| from <= j < at ==> !is_created(#[trigger] state.records[j]),
        is_created(state.records[at]),
        state.records[at].aws_region@ != ingestor.region()@,
    ensures
        ({
            let outcome = next_record(ingestor, state, from);
            let record = state.records[at];
            &&& outcome == abandon(
                state,
                ProcessingError::WrongRegion {
                    region: record.aws_region,
                    bucket: record.s3.bucket.name,
                    key: record.s3.object.key,
                },
            )
            &&& !(outcome.action is Delete)
        }),
    decreases at - from,
{
    lemma_begin_never_deletes(state.messages, state.message_index + 1);
    if from < at {
        assert(!is_created(state.records[from]));
        lemma_wrong_region_abandons(ingestor, state, from + 1, at);
    }
}

/// An ingestor that does not delete messages never asks for a deletion.
pub proof fn lemma_never_deletes_unless_configured(
    ingestor: SqsIngestor,
    state: PollerView,
    event: Event,
)
    requires
        state.wf(),
        !ingestor.delete_message(),
    ensures
        !(transition(ingestor, state, event).action is Delete),
{
    lemma_ack_discipline(ingestor, state, event);
}

/// Shutdown ends the loop from every state, and a loop that has ended stays
/// ended whatever is handed in.
pub proof fn lemma_shutdown_stops(ingestor: SqsIngestor, state: PollerView, event: Event)
    requires
        event is Shutdown || state.phase == Phase::Stopped,
    ensures
        transition(ingestor, state, event) == (Outcome {
            state: PollerView::stopped(),
            action: Action::Stop,
            reports: Seq::empty(),
        }),
{
}

/// A message that is received again is processed from its start. What the
/// loop does with a receive depends on the messages received alone, not on
/// what was processed before: all states in which a receive is in flight
/// answer alike.
pub proof fn lemma_redelivery_starts_afresh(
    ingestor: SqsIngestor,
    first: PollerView,
    second: PollerView,
    event: Event,
)
    requires
        first.wf(),
        second.wf(),
        first.phase == Phase::Polling,
        second.phase == Phase::Polling,
    ensures
        transition(ingestor, first, event) == transition(ingestor, second, event),
        event matches Event::Received { messages } ==> transition(ingestor, first, event)
            == begin_messages(messages@, 0),
{
}

/// Every step keeps the state of the loop well-formed.
pub proof fn lemma_transition_keeps_wf(ingestor: SqsIngestor, state: PollerView, event: Event)
    requires
        state.wf(),
    ensures
        transition(ingestor, state, event).state.wf(),
{
    lemma_begin_never_deletes(state.messages, state.message_index + 1);
    match event {
        Event::Received { messages } => {
            lemma_begin_never_deletes(messages@, 0);
        },
        _ => {},
    }
    match resumes(state, event) {
        Some(resume) => {
            let resumed = PollerView { records: resume.records, ..state };
            lemma_next_record_keeps_wf(ingestor, resumed, resume.from);
        },
        None => {},
    }
}

/// Taking up the events of a message keeps the state well-formed.
pub proof fn lemma_next_record_keeps_wf(ingestor: SqsIngestor, state: PollerView, from: int)
    requires
        state.phase.is_processing(),
        state.wf(),
        0 <= from,
    ensures
        next_record(ingestor, state, from).state.wf(),
    decreases state.records.len() - from,
{
    lemma_begin_never_deletes(state.messages, state.message_index + 1);
    if from < state.records.len() {
        lemma_next_record_keeps_wf(ingestor, state, from + 1);
    }
}

/// A body is never to be decoded as `Auto`: whenever the loop asks for an
/// object to be ingested, it names the codec to decode it with.
pub proof fn lemma_ingest_names_a_codec(ingestor: SqsIngestor, state: PollerView, event: Event)
    requires
        state.wf(),
    ensures
        transition(ingestor, state, event).action matches Action::Ingest { compression, .. }
            ==> compression.is_concrete(),
{
    lemma_begin_never_deletes(state.messages, state.message_index + 1);
    match event {
        Event::Received { messages } => {
            lemma_begin_never_deletes(messages@, 0);
        },
        Event::ObjectBody { content_encoding, content_type, metadata } => {
            if state.phase == Phase::Fetching {
                lemma_resolved_is_concrete(
                    ingestor.compression(),
                    state.record().s3.object.key@,
                    string_view(content_encoding),
                    string_view(content_type),
                );
            }
        },
        _ => {},
    }
    match resumes(state, event) {
        Some(resume) => {
            let resumed = PollerView { records: resume.records, ..state };
            lemma_next_record_never_ingests(ingestor, resumed, resume.from);
        },
        None => {},
    }
}

/// Taking up the events of a message asks for a fetch, a deletion, or what
/// turning to the next message asks for; never for an ingestion.
pub proof fn lemma_next_record_never_ingests(ingestor: SqsIngestor, state: PollerView, from: int)
    requires
        state.phase.is_processing(),
        state.wf(),
        0 <= from,
    ensures
        !(next_record(ingestor, state, from).action is Ingest),
    decreases state.records.len() - from,
{
    lemma_begin_never_deletes(state.messages, state.message_index + 1);
    if from < state.records.len() {
        lemma_next_record_never_ingests(ingestor, state, from + 1);
    }
}

} // verus!
