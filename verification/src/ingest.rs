//! The polling loop of the ingestor as a state machine.
//!
//! The loop itself waits, receives, fetches and forwards; none of that can
//! be done here. What is decided here is what to do next: the driver hands
//! in what happened as an `Event`, and is told what to do as an `Action`,
//! together with what there is to report.
//!
//! A message is deleted only after every object that it announces has been
//! ingested without error. The first failure abandons the message: it is not
//! deleted and will be received again once its visibility timeout has run
//! out.

use crate::compression::{resolve_compression, resolved, Compression};
use crate::config::SqsIngestor;
use crate::notification::{S3Event, S3EventRecord};
use crate::record::Origin;
use vstd::prelude::*;

verus! {

/// The most messages asked for in one receive.
pub const MAX_MESSAGES: i64 = 10;

/// A message as it was received from the queue.
#[derive(Debug, PartialEq, Eq)]
pub struct SqsMessage {
    pub message_id: Option<String>,
    /// Without a receipt handle a message cannot be deleted, and is skipped.
    pub receipt_handle: Option<String>,
    /// The notification, as JSON.
    pub body: Option<String>,
}

/// Why the body of a message is no notification.
#[derive(Debug, PartialEq, Eq)]
pub enum InvalidBody {
    /// The message has no body.
    Missing,
    /// The body could not be parsed.
    Malformed { reason: String },
}

/// Why a message was abandoned.
#[derive(Debug, PartialEq, Eq)]
pub enum ProcessingError {
    InvalidSqsMessage { cause: InvalidBody, message_id: Option<String> },
    GetObject { reason: String, bucket: String, key: String },
    ReadObject { error: String, bucket: String, key: String },
    WrongRegion { region: String, bucket: String, key: String },
    SinkSendFailed { reason: String, bucket: String, key: String },
}

/// Something that happened and that is to be reported, not acted on.
#[derive(Debug, PartialEq, Eq)]
pub enum Report {
    /// Receiving failed; the loop goes on with the next tick.
    ReceiveFailed { reason: String },
    /// A message without a receipt handle was skipped.
    NoReceiptHandle { message_id: Option<String> },
    /// A message was abandoned and will be received again.
    Failed(ProcessingError),
    /// Deleting failed; the message will be received again.
    DeleteFailed { reason: String },
}

/// What the driver hands in.
#[derive(Debug, PartialEq, Eq)]
pub enum Event {
    /// The poll interval has passed.
    Tick,
    /// Shutdown was signalled.
    Shutdown,
    /// A receive returned these messages, in this order.
    Received { messages: Vec<SqsMessage> },
    /// A receive failed.
    ReceiveFailed { reason: String },
    /// The body of the message was parsed.
    Parsed { notification: S3Event },
    /// The body of the message could not be parsed.
    ParseFailed { reason: String },
    /// The object could not be fetched.
    ObjectFailed { reason: String },
    /// The object was fetched and has no body.
    ObjectEmpty,
    /// The object was fetched and has a body, with these headers.
    ObjectBody {
        content_encoding: Option<String>,
        content_type: Option<String>,
        metadata: Option<Vec<(String, String)>>,
    },
    /// The body was read as far as it could be, and the sink has taken what
    /// it was sent.
    Ingested { read_error: Option<String>, sink_error: Option<String> },
    /// The message was deleted.
    Deleted,
    /// The message could not be deleted.
    DeleteFailed { reason: String },
}

/// What the driver is to do next.
#[derive(Debug, PartialEq, Eq)]
pub enum Action {
    /// Wait for the next tick or for shutdown.
    Wait,
    /// Receive messages.
    Receive { queue_url: String, max_messages: i64, visibility_timeout: i64 },
    /// Parse this body as a notification.
    Parse { body: String },
    /// Fetch this object.
    GetObject { bucket: String, key: String },
    /// Decode the body with this codec, run it through a pipeline with this
    /// origin, and forward the records.
    Ingest { compression: Compression, origin: Origin },
    /// Delete the message with this receipt handle.
    Delete { queue_url: String, receipt_handle: String },
    /// Stop: the loop has ended.
    Stop,
    /// The event does not belong to the state. Nothing has changed; the
    /// outcome that the state waits for is still owed.
    Rejected,
}

/// Where the loop stands.
#[derive(Copy, Clone, Debug, PartialEq, Eq, Structural)]
pub enum Phase {
    /// Waiting for the next tick or for shutdown.
    Idle,
    /// A receive is in flight.
    Polling,
    /// A message is being processed: its body is being parsed.
    Parsing,
    /// A message is being processed: one of its objects is being fetched.
    Fetching,
    /// A message is being processed: one of its objects is being ingested.
    Ingesting,
    /// A message is being processed: it is being deleted.
    Deleting,
    /// Shutdown has been observed.
    Stopped,
}

impl Phase {
    /// Whether a message is being processed.
    pub open spec fn is_processing(self) -> bool {
        self == Phase::Parsing || self == Phase::Fetching || self == Phase::Ingesting || self
            == Phase::Deleting
    }
}

/// The state of the loop, as contracts speak of it.
pub struct PollerView {
    pub phase: Phase,
    /// The messages of the receive that is being worked off.
    pub messages: Seq<SqsMessage>,
    /// The place of the message that is being processed.
    pub message_index: int,
    /// The events of the message that is being processed.
    pub records: Seq<S3EventRecord>,
    /// The place of the event whose object is being fetched or ingested.
    pub record_index: int,
}

/// The answer to one event.
pub struct Outcome {
    pub state: PollerView,
    pub action: Action,
    pub reports: Seq<Report>,
}

impl Outcome {
    /// This outcome with one report made before its own.
    pub open spec fn after(self, report: Report) -> Outcome {
        Outcome { reports: seq![report] + self.reports, ..self }
    }
}

impl PollerView {
    /// The state between two polls.
    pub open spec fn idle() -> PollerView {
        PollerView {
            phase: Phase::Idle,
            messages: Seq::empty(),
            message_index: 0,
            records: Seq::empty(),
            record_index: 0,
        }
    }

    /// The state after shutdown.
    pub open spec fn stopped() -> PollerView {
        PollerView { phase: Phase::Stopped, ..PollerView::idle() }
    }

    /// What holds of every state of the loop.
    pub open spec fn wf(self) -> bool {
        &&& self.phase.is_processing() ==> {
            &&& 0 <= self.message_index < self.messages.len()
            &&& self.messages[self.message_index].receipt_handle is Some
        }
        &&& (self.phase == Phase::Fetching || self.phase == Phase::Ingesting) ==> {
            &&& 0 <= self.record_index < self.records.len()
        }
        &&& !self.phase.is_processing() ==> self == PollerView { phase: self.phase, ..PollerView::idle() }
    }

    /// The message that is being processed.
    pub open spec fn message(self) -> SqsMessage {
        self.messages[self.message_index]
    }

    /// The event whose object is being fetched or ingested.
    pub open spec fn record(self) -> S3EventRecord {
        self.records[self.record_index]
    }
}

/// Whether an event announces a new object.
pub open spec fn is_created(record: S3EventRecord) -> bool {
    record.event_name.kind@ == "ObjectCreated"@
}

/// The characters of an optional string.
pub open spec fn string_view(s: Option<String>) -> Option<Seq<char>> {
    match s {
        Some(v) => Some(v@),
        None => None,
    }
}

/// Turns to the first message from `index` on that can be processed. A
/// message without a receipt handle is skipped, one without a body is
/// abandoned; when none is left the loop is idle again.
pub open spec fn begin_messages(messages: Seq<SqsMessage>, index: int) -> Outcome
    decreases messages.len() - index,
{
    if index < 0 || index >= messages.len() {
        Outcome { state: PollerView::idle(), action: Action::Wait, reports: Seq::empty() }
    } else {
        let message = messages[index];
        if message.receipt_handle is None {
            begin_messages(messages, index + 1).after(
                Report::NoReceiptHandle { message_id: message.message_id },
            )
        } else if message.body is None {
            begin_messages(messages, index + 1).after(
                Report::Failed(
                    ProcessingError::InvalidSqsMessage {
                        cause: InvalidBody::Missing,
                        message_id: message.message_id,
                    },
                ),
            )
        } else {
            Outcome {
                state: PollerView {
                    phase: Phase::Parsing,
                    messages,
                    message_index: index,
                    records: Seq::empty(),
                    record_index: 0,
                },
                action: Action::Parse { body: message.body->0 },
                reports: Seq::empty(),
            }
        }
    }
}

/// Abandons the message that is being processed, and turns to the next.
pub open spec fn abandon(state: PollerView, error: ProcessingError) -> Outcome {
    begin_messages(state.messages, state.message_index + 1).after(Report::Failed(error))
}

/// Turns to the first event from `index` on that announces a new object.
/// Other events are passed over. An event from another region abandons the
/// message. When no event is left the message is done: it is deleted if the
/// ingestor deletes messages, and the next message is turned to if not.
pub open spec fn next_record(ingestor: SqsIngestor, state: PollerView, index: int) -> Outcome
    decreases state.records.len() - index,
{
    if index < 0 || index >= state.records.len() {
        if ingestor.delete_message() {
            Outcome {
                state: PollerView {
                    phase: Phase::Deleting,
                    record_index: state.records.len() as int,
                    ..state
                },
                action: Action::Delete {
                    queue_url: ingestor.queue_url(),
                    receipt_handle: state.message().receipt_handle->0,
                },
                reports: Seq::empty(),
            }
        } else {
            begin_messages(state.messages, state.message_index + 1)
        }
    } else {
        let record = state.records[index];
        if !is_created(record) {
            next_record(ingestor, state, index + 1)
        } else if record.aws_region@ != ingestor.region()@ {
            abandon(
                state,
                ProcessingError::WrongRegion {
                    region: record.aws_region,
                    bucket: record.s3.bucket.name,
                    key: record.s3.object.key,
                },
            )
        } else {
            Outcome {
                state: PollerView { phase: Phase::Fetching, record_index: index, ..state },
                action: Action::GetObject {
                    bucket: record.s3.bucket.name,
                    key: record.s3.object.key,
                },
                reports: Seq::empty(),
            }
        }
    }
}

/// The answer of the loop in state `state` to `event`.
pub open spec fn transition(ingestor: SqsIngestor, state: PollerView, event: Event) -> Outcome {
    let rejected = Outcome { state, action: Action::Rejected, reports: Seq::empty() };
    if event is Shutdown || state.phase == Phase::Stopped {
        Outcome { state: PollerView::stopped(), action: Action::Stop, reports: Seq::empty() }
    } else {
        match state.phase {
            Phase::Idle => match event {
                Event::Tick => Outcome {
                    state: PollerView { phase: Phase::Polling, ..state },
                    action: Action::Receive {
                        queue_url: ingestor.queue_url(),
                        max_messages: MAX_MESSAGES,
                        visibility_timeout: ingestor.visibility_timeout_secs(),
                    },
                    reports: Seq::empty(),
                },
                _ => rejected,
            },
            Phase::Polling => match event {
                Event::Received { messages } => begin_messages(messages@, 0),
                Event::ReceiveFailed { reason } => Outcome {
                    state: PollerView::idle(),
                    action: Action::Wait,
                    reports: seq![Report::ReceiveFailed { reason }],
                },
                _ => rejected,
            },
            Phase::Parsing => match event {
                Event::Parsed { notification } => next_record(
                    ingestor,
                    PollerView { records: notification.records@, ..state },
                    0,
                ),
                Event::ParseFailed { reason } => abandon(
                    state,
                    ProcessingError::InvalidSqsMessage {
                        cause: InvalidBody::Malformed { reason },
                        message_id: state.message().message_id,
                    },
                ),
                _ => rejected,
            },
            Phase::Fetching => match event {
                Event::ObjectFailed { reason } => abandon(
                    state,
                    ProcessingError::GetObject {
                        reason,
                        bucket: state.record().s3.bucket.name,
                        key: state.record().s3.object.key,
                    },
                ),
                Event::ObjectEmpty => next_record(ingestor, state, state.record_index + 1),
                Event::ObjectBody { content_encoding, content_type, metadata } => Outcome {
                    state: PollerView { phase: Phase::Ingesting, ..state },
                    action: Action::Ingest {
                        compression: resolved(
                            ingestor.compression(),
                            state.record().s3.object.key@,
                            string_view(content_encoding),
                            string_view(content_type),
                        ),
                        origin: Origin {
                            bucket: state.record().s3.bucket.name,
                            object: state.record().s3.object.key,
                            region: state.record().aws_region,
                            metadata,
                        },
                    },
                    reports: Seq::empty(),
                },
                _ => rejected,
            },
            Phase::Ingesting => match event {
                Event::Ingested { read_error, sink_error } => match (sink_error, read_error) {
                    (Some(reason), _) => abandon(
                        state,
                        ProcessingError::SinkSendFailed {
                            reason,
                            bucket: state.record().s3.bucket.name,
                            key: state.record().s3.object.key,
                        },
                    ),
                    (None, Some(error)) => abandon(
                        state,
                        ProcessingError::ReadObject {
                            error,
                            bucket: state.record().s3.bucket.name,
                            key: state.record().s3.object.key,
                        },
                    ),
                    (None, None) => next_record(ingestor, state, state.record_index + 1),
                },
                _ => rejected,
            },
            Phase::Deleting => match event {
                Event::Deleted => begin_messages(state.messages, state.message_index + 1),
                Event::DeleteFailed { reason } => begin_messages(
                    state.messages,
                    state.message_index + 1,
                ).after(Report::DeleteFailed { reason }),
                _ => rejected,
            },
            Phase::Stopped => rejected,
        }
    }
}

/// The state of the loop.
#[derive(Debug)]
pub struct Poller {
    phase: Phase,
    messages: Vec<SqsMessage>,
    message_index: usize,
    records: Vec<S3EventRecord>,
    record_index: usize,
}

impl View for Poller {
    type V = PollerView;

    closed spec fn view(&self) -> PollerView {
        PollerView {
            phase: self.phase,
            messages: self.messages@,
            message_index: self.message_index as int,
            records: self.records@,
            record_index: self.record_index as int,
        }
    }
}

/// What the loop answers to one event.
#[derive(Debug, PartialEq, Eq)]
pub struct Step {
    pub action: Action,
    /// What there is to report, in the order in which it happened.
    pub reports: Vec<Report>,
}

/// A copy of an optional string.
fn copy_of(text: &Option<String>) -> (copy: Option<String>)
    ensures
        copy == *text,
{
    match text {
        Some(t) => Some(t.clone()),
        None => None,
    }
}

/// An optional string as an optional slice.
fn slice_of(text: &Option<String>) -> (slice: Option<&str>)
    ensures
        crate::compression::opt_view(slice) == string_view(*text),
{
    match text {
        Some(t) => Some(t.as_str()),
        None => None,
    }
}

impl Poller {
    /// A loop that waits for its first tick.
    pub fn new() -> (poller: Self)
        ensures
            poller@ == PollerView::idle(),
            poller@.wf(),
    {
        Poller {
            phase: Phase::Idle,
            messages: Vec::new(),
            message_index: 0,
            records: Vec::new(),
            record_index: 0,
        }
    }

    /// Where the loop stands.
    pub fn phase(&self) -> (phase: Phase)
        ensures
            phase == self@.phase,
    {
        self.phase
    }

    /// Whether the loop has ended.
    pub fn is_stopped(&self) -> (stopped: bool)
        ensures
            stopped == (self@.phase == Phase::Stopped),
    {
        self.phase == Phase::Stopped
    }

    /// The place after the message that is being processed.
    fn next_message(&self) -> (next: usize)
        requires
            self@.phase.is_processing(),
            self@.wf(),
        ensures
            next == self@.message_index + 1,
            next <= self.messages@.len(),
    {
        let n: usize = self.messages.len();
        assert(self.message_index < n);
        self.message_index + 1
    }

    /// The place after the event whose object was fetched.
    fn next_event(&self) -> (next: usize)
        requires
            self@.phase == Phase::Fetching || self@.phase == Phase::Ingesting,
            self@.wf(),
        ensures
            next == self@.record_index + 1,
            next <= self.records@.len(),
    {
        let n: usize = self.records.len();
        assert(self.record_index < n);
        self.record_index + 1
    }

    /// Forgets the receive that was being worked off.
    fn rest(&mut self, phase: Phase)
        requires
            !phase.is_processing(),
        ensures
            final(self)@ == (PollerView { phase, ..PollerView::idle() }),
            final(self)@.wf(),
    {
        self.phase = phase;
        self.messages = Vec::new();
        self.message_index = 0;
        self.records = Vec::new();
        self.record_index = 0;
    }

    /// Turns to the first message from `start` on that can be processed.
    fn begin(&mut self, start: usize, reports: &mut Vec<Report>) -> (action: Action)
        requires
            start <= old(self).messages@.len(),
        ensures
            final(self)@.wf(),
            final(self)@ == begin_messages(old(self).messages@, start as int).state,
            action == begin_messages(old(self).messages@, start as int).action,
            final(reports)@ == old(reports)@ + begin_messages(
                old(self).messages@,
                start as int,
            ).reports,
    {
        let ghost all = self.messages@;
        let ghost aim = begin_messages(all, start as int);
        let n: usize = self.messages.len();
        let mut i: usize = start;
        while i < n
            invariant
                start <= i <= n,
                n == all.len(),
                all == old(self).messages@,
                self.messages@ == all,
                aim == begin_messages(all, start as int),
                aim.state == begin_messages(all, i as int).state,
                aim.action == begin_messages(all, i as int).action,
                old(reports)@ + aim.reports == reports@ + begin_messages(all, i as int).reports,
            decreases n - i,
        {
            if self.messages[i].receipt_handle.is_none() {
                let report = Report::NoReceiptHandle {
                    message_id: copy_of(&self.messages[i].message_id),
                };
                reports.push(report);
            } else {
                match &self.messages[i].body {
                    None => {
                        let report = Report::Failed(
                            ProcessingError::InvalidSqsMessage {
                                cause: InvalidBody::Missing,
                                message_id: copy_of(&self.messages[i].message_id),
                            },
                        );
                        reports.push(report);
                    },
                    Some(body) => {
                        let action = Action::Parse { body: body.clone() };
                        self.phase = Phase::Parsing;
                        self.message_index = i;
                        self.records = Vec::new();
                        self.record_index = 0;
                        return action;
                    },
                }
            }
            i = i + 1;
        }
        self.rest(Phase::Idle);
        Action::Wait
    }

    /// Abandons the message that is being processed, and turns to the next.
    fn give_up(&mut self, error: ProcessingError, reports: &mut Vec<Report>) -> (action: Action)
        requires
            old(self)@.phase.is_processing(),
            old(self)@.wf(),
        ensures
            final(self)@.wf(),
            final(self)@ == abandon(old(self)@, error).state,
            action == abandon(old(self)@, error).action,
            final(reports)@ == old(reports)@ + abandon(old(self)@, error).reports,
    {
        reports.push(Report::Failed(error));
        let next: usize = self.next_message();
        self.begin(next, reports)
    }
}

impl SqsIngestor {
    /// Turns to the first event from `start` on that announces a new object.
    fn advance(&self, poller: &mut Poller, start: usize, reports: &mut Vec<Report>) -> (action:
        Action)
        requires
            self.wf(),
            old(poller)@.phase.is_processing(),
            old(poller)@.wf(),
            start <= old(poller).records@.len(),
        ensures
            final(poller)@.wf(),
            final(poller)@ == next_record(*self, old(poller)@, start as int).state,
            action == next_record(*self, old(poller)@, start as int).action,
            final(reports)@ == old(reports)@ + next_record(
                *self,
                old(poller)@,
                start as int,
            ).reports,
    {
        let ghost state = poller@;
        let ghost aim = next_record(*self, state, start as int);
        let n: usize = poller.records.len();
        let mut i: usize = start;
        while i < n
            invariant
                start <= i <= n,
                n == state.records.len(),
                poller@ == state,
                state == old(poller)@,
                aim == next_record(*self, state, start as int),
                self.wf(),
                state.phase.is_processing(),
                state.wf(),
                reports@ == old(reports)@,
                aim == next_record(*self, state, i as int),
            decreases n - i,
        {
            if poller.records[i].event_name.is_kind("ObjectCreated") {
                let bucket = poller.records[i].s3.bucket.name.clone();
                let key = poller.records[i].s3.object.key.clone();
                if !crate::text::str_eq(poller.records[i].aws_region.as_str(), self.region_name()) {
                    let region = poller.records[i].aws_region.clone();
                    return poller.give_up(
                        ProcessingError::WrongRegion { region, bucket, key },
                        reports,
                    );
                }
                poller.phase = Phase::Fetching;
                poller.record_index = i;
                return Action::GetObject { bucket, key };
            }
            i = i + 1;
        }
        if self.deletes_messages() {
            let receipt_handle = match &poller.messages[poller.message_index].receipt_handle {
                Some(handle) => handle.clone(),
                None => vstd::pervasive::unreached(),
            };
            poller.phase = Phase::Deleting;
            poller.record_index = n;
            Action::Delete { queue_url: self.queue().clone(), receipt_handle }
        } else {
            let next: usize = poller.next_message();
            poller.begin(next, reports)
        }
    }

    /// Answers one event: moves the loop on, and says what to do next and
    /// what to report.
    ///
    /// Shutdown ends the loop from every state, and a loop that has ended
    /// stays so. An event that the state does not wait for is rejected and
    /// changes nothing.
    pub fn handle(&self, poller: &mut Poller, event: Event) -> (step: Step)
        requires
            self.wf(),
            old(poller)@.wf(),
        ensures
            final(poller)@.wf(),
            final(poller)@ == transition(*self, old(poller)@, event).state,
            step.action == transition(*self, old(poller)@, event).action,
            step.reports@ == transition(*self, old(poller)@, event).reports,
    {
        let mut reports: Vec<Report> = Vec::new();
        if matches!(event, Event::Shutdown) || poller.is_stopped() {
            poller.rest(Phase::Stopped);
            return Step { action: Action::Stop, reports };
        }
        let action = match poller.phase {
            Phase::Idle => match event {
                Event::Tick => {
                    proof {
                        self.lemma_wf();
                    }
                    poller.phase = Phase::Polling;
                    Action::Receive {
                        queue_url: self.queue().clone(),
                        max_messages: MAX_MESSAGES,
                        visibility_timeout: self.visibility_timeout(),
                    }
                },
                _ => Action::Rejected,
            },
            Phase::Polling => match event {
                Event::Received { messages } => {
                    poller.messages = messages;
                    poller.begin(0, &mut reports)
                },
                Event::ReceiveFailed { reason } => {
                    poller.rest(Phase::Idle);
                    reports.push(Report::ReceiveFailed { reason });
                    Action::Wait
                },
                _ => Action::Rejected,
            },
            Phase::Parsing => match event {
                Event::Parsed { notification } => {
                    poller.records = notification.records;
                    self.advance(poller, 0, &mut reports)
                },
                Event::ParseFailed { reason } => {
                    let message_id = copy_of(&poller.messages[poller.message_index].message_id);
                    poller.give_up(
                        ProcessingError::InvalidSqsMessage {
                            cause: InvalidBody::Malformed { reason },
                            message_id,
                        },
                        &mut reports,
                    )
                },
                _ => Action::Rejected,
            },
            Phase::Fetching => match event {
                Event::ObjectFailed { reason } => {
                    let bucket = poller.records[poller.record_index].s3.bucket.name.clone();
                    let key = poller.records[poller.record_index].s3.object.key.clone();
                    poller.give_up(ProcessingError::GetObject { reason, bucket, key }, &mut reports)
                },
                Event::ObjectEmpty => {
                    let next: usize = poller.next_event();
                    self.advance(poller, next, &mut reports)
                },
                Event::ObjectBody { content_encoding, content_type, metadata } => {
                    let record = &poller.records[poller.record_index];
                    let compression = resolve_compression(
                        self.configured_compression(),
                        record.s3.object.key.as_str(),
                        slice_of(&content_encoding),
                        slice_of(&content_type),
                    );
                    let origin = Origin {
                        bucket: record.s3.bucket.name.clone(),
                        object: record.s3.object.key.clone(),
                        region: record.aws_region.clone(),
                        metadata,
                    };
                    poller.phase = Phase::Ingesting;
                    Action::Ingest { compression, origin }
                },
                _ => Action::Rejected,
            },
            Phase::Ingesting => match event {
                Event::Ingested { read_error, sink_error } => {
                    let bucket = poller.records[poller.record_index].s3.bucket.name.clone();
                    let key = poller.records[poller.record_index].s3.object.key.clone();
                    match (sink_error, read_error) {
                        (Some(reason), _) => poller.give_up(
                            ProcessingError::SinkSendFailed { reason, bucket, key },
                            &mut reports,
                        ),
                        (None, Some(error)) => poller.give_up(
                            ProcessingError::ReadObject { error, bucket, key },
                            &mut reports,
                        ),
                        (None, None) => {
                            let next: usize = poller.next_event();
                            self.advance(poller, next, &mut reports)
                        },
                    }
                },
                _ => Action::Rejected,
            },
            Phase::Deleting => match event {
                Event::Deleted => {
                    let next: usize = poller.next_message();
                    poller.begin(next, &mut reports)
                },
                Event::DeleteFailed { reason } => {
                    reports.push(Report::DeleteFailed { reason });
                    let next: usize = poller.next_message();
                    poller.begin(next, &mut reports)
                },
                _ => Action::Rejected,
            },
            Phase::Stopped => Action::Rejected,
        };
        Step { action, reports }
    }
}

} // verus!
