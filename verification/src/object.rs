//! Ingesting one object: reading its body and forwarding its records, as a
//! state machine.
//!
//! The driver reads the decoded body and sends records to the sink. What is
//! decided here is what it does next: read on, with or without a time
//! limit, forward records, or stop. Reading goes on only after the sink has
//! taken what it was sent; a sink that refuses ends the ingestion at once.

use crate::lines::{complete_lines, remainder, SplitterStatus};
use crate::multiline::{emitted_list, Aggregated, AggregatorConfig};
use crate::pipeline::{all_from, emitted_message, messages, ObjectPipeline, Setup};
use crate::record::{Origin, Record};
use vstd::prelude::*;

verus! {

/// What the driver hands in.
#[derive(Debug, PartialEq, Eq)]
pub enum BodyEvent {
    /// The next piece of the decoded body was read.
    Piece { bytes: Vec<u8> },
    /// The body has ended.
    End,
    /// Reading the body failed.
    ReadFailed { reason: String },
    /// The time limit of the read passed before anything was read.
    TimedOut,
    /// The sink has taken the records that were forwarded.
    Sent,
    /// The sink refused the records that were forwarded.
    SinkFailed { reason: String },
}

/// What the driver is to do next.
#[derive(Debug)]
pub enum BodyAction {
    /// Read the next piece of the body, within this many milliseconds if a
    /// limit is given.
    Read { timeout_ms: Option<u64> },
    /// Send these records to the sink, in this order.
    Forward { records: Vec<Record> },
    /// Stop: the object has been ingested as far as it could be.
    Done { read_error: Option<String>, sink_error: Option<String> },
    /// The event does not belong to the state. Nothing has changed; the
    /// outcome that the state waits for is still owed.
    Rejected,
}

/// Where an ingestion stands.
#[derive(Copy, Clone, Debug, PartialEq, Eq, Structural)]
pub enum Stage {
    /// A read is in flight.
    Reading,
    /// Records are being sent; reading goes on afterwards.
    Sending,
    /// The last records are being sent.
    Closing,
    /// Nothing is left to do.
    Finished,
}

/// The ingestion of one object.
pub struct Ingestion<'a> {
    pipeline: ObjectPipeline<'a>,
    stage: Stage,
    sink_error: Option<String>,
}

/// The messages of the records that an action forwards.
pub open spec fn handed(action: BodyAction) -> Seq<Seq<u8>> {
    match action {
        BodyAction::Forward { records } => messages(records@),
        _ => Seq::empty(),
    }
}

impl<'a> Ingestion<'a> {
    /// The pipeline that the body runs through.
    pub closed spec fn pipeline(&self) -> ObjectPipeline<'a> {
        self.pipeline
    }

    pub closed spec fn stage(&self) -> Stage {
        self.stage
    }

    /// The text of the error with which the sink refused, if it did.
    pub closed spec fn sink_error(&self) -> Option<String> {
        self.sink_error
    }

    /// What holds of every ingestion: the pipeline takes bytes exactly
    /// while more of the body is to be read, and only a finished ingestion
    /// knows of a refusal of the sink.
    pub closed spec fn wf(&self) -> bool {
        &&& self.pipeline.wf()
        &&& (self.stage == Stage::Reading || self.stage == Stage::Sending) ==> self.pipeline.status()
            == SplitterStatus::Reading
        &&& self.stage == Stage::Closing ==> self.pipeline.status() != SplitterStatus::Reading
        &&& self.stage != Stage::Finished ==> self.sink_error is None
    }

    /// What is done once the records of a step are known: they are
    /// forwarded if there are any; if there are none, reading goes on, or
    /// the ingestion is finished where the body is at its end.
    pub open spec fn proceeds(before: Self, after: Self, action: BodyAction, last: bool) -> bool {
        &&& after.pipeline().forwarded() == before.pipeline().forwarded() + handed(action)
        &&& after.sink_error() is None
        &&& match action {
            BodyAction::Forward { records } => {
                &&& records@.len() > 0
                &&& all_from(records@, before.pipeline().origin())
                &&& after.stage() == if last {
                    Stage::Closing
                } else {
                    Stage::Sending
                }
            },
            BodyAction::Read { timeout_ms } => {
                &&& !last
                &&& after.stage() == Stage::Reading
                &&& timeout_ms == after.pipeline().read_timeout()
            },
            BodyAction::Done { read_error, sink_error } => {
                &&& last
                &&& after.stage() == Stage::Finished
                &&& read_error == after.pipeline().read_error()
                &&& sink_error is None
            },
            BodyAction::Rejected => false,
        }
    }

    /// The answer `action` and the state `after` follow from the state
    /// `before` and the event.
    pub open spec fn follows(before: Self, event: BodyEvent, after: Self, action: BodyAction) -> bool {
        let rejected = after == before && action is Rejected;
        match before.stage() {
            Stage::Reading => match event {
                BodyEvent::Piece { bytes } => {
                    &&& Self::proceeds(before, after, action, false)
                    &&& after.pipeline().seen() == before.pipeline().seen() + bytes@
                    &&& after.pipeline().open_line() == remainder(
                        before.pipeline().open_line() + bytes@,
                    )
                    &&& before.pipeline().regroups(
                        complete_lines(before.pipeline().open_line() + bytes@),
                        Aggregated {
                            open: after.pipeline().open_aggregate(),
                            emitted: handed(action),
                        },
                    )
                },
                BodyEvent::TimedOut => {
                    &&& Self::proceeds(before, after, action, false)
                    &&& after.pipeline().seen() == before.pipeline().seen()
                    &&& after.pipeline().open_line() == before.pipeline().open_line()
                    &&& after.pipeline().open_aggregate() is None
                    &&& handed(action) == emitted_list(before.pipeline().open_aggregate())
                },
                BodyEvent::End => {
                    &&& Self::proceeds(before, after, action, true)
                    &&& after.pipeline().seen() == before.pipeline().seen()
                    &&& after.pipeline().status() == SplitterStatus::Ended
                    &&& after.pipeline().read_error() is None
                    &&& after.pipeline().open_aggregate() is None
                    &&& exists|regrouped: Aggregated|
                        {
                            &&& #[trigger] before.pipeline().regroups(
                                before.pipeline().last_line(),
                                regrouped,
                            )
                            &&& handed(action) == regrouped.emitted + emitted_list(regrouped.open)
                        }
                },
                BodyEvent::ReadFailed { reason } => {
                    &&& Self::proceeds(before, after, action, true)
                    &&& after.pipeline().seen() == before.pipeline().seen()
                    &&& after.pipeline().status() == SplitterStatus::Failed
                    &&& after.pipeline().read_error() == Some(reason)
                    &&& after.pipeline().open_aggregate() is None
                    &&& handed(action) == emitted_list(before.pipeline().open_aggregate())
                },
                _ => rejected,
            },
            Stage::Sending => match event {
                BodyEvent::Sent => {
                    &&& after.pipeline() == before.pipeline()
                    &&& after.sink_error() is None
                    &&& after.stage() == Stage::Reading
                    &&& action == (BodyAction::Read {
                        timeout_ms: before.pipeline().read_timeout(),
                    })
                },
                BodyEvent::SinkFailed { reason } => Self::refused(before, after, action, reason),
                _ => rejected,
            },
            Stage::Closing => match event {
                BodyEvent::Sent => {
                    &&& after.pipeline() == before.pipeline()
                    &&& after.sink_error() is None
                    &&& after.stage() == Stage::Finished
                    &&& action == (BodyAction::Done {
                        read_error: before.pipeline().read_error(),
                        sink_error: None,
                    })
                },
                BodyEvent::SinkFailed { reason } => Self::refused(before, after, action, reason),
                _ => rejected,
            },
            Stage::Finished => {
                &&& after == before
                &&& action == (BodyAction::Done {
                    read_error: before.pipeline().read_error(),
                    sink_error: before.sink_error(),
                })
            },
        }
    }

    /// The sink refused: the ingestion is finished, and what it reports
    /// names the refusal.
    pub open spec fn refused(before: Self, after: Self, action: BodyAction, reason: String) -> bool {
        &&& after.pipeline() == before.pipeline()
        &&& after.sink_error() == Some(reason)
        &&& after.stage() == Stage::Finished
        &&& action == (BodyAction::Done {
            read_error: before.pipeline().read_error(),
            sink_error: Some(reason),
        })
    }

    /// The ingestion of an object of this origin, and what to do first:
    /// read the body, without a time limit.
    pub fn new(origin: Origin, config: Option<&'a AggregatorConfig>) -> (started: (
        Self,
        BodyAction,
    ))
        ensures
            started.0.wf(),
            started.0.stage() == Stage::Reading,
            started.0.sink_error() is None,
            started.0.pipeline().setup() == (Setup {
                origin,
                mode: match config {
                    Some(c) => Some(c.mode),
                    None => None,
                },
                timeout_ms: match config {
                    Some(c) => Some(c.timeout_ms),
                    None => None,
                },
            }),
            started.0.pipeline().seen() == Seq::<u8>::empty(),
            started.0.pipeline().forwarded() == Seq::<Seq<u8>>::empty(),
            started.0.pipeline().open_line() == Seq::<u8>::empty(),
            started.0.pipeline().open_aggregate() is None,
            started.1 == (BodyAction::Read { timeout_ms: None }),
    {
        let ingestion = Ingestion {
            pipeline: ObjectPipeline::new(origin, config),
            stage: Stage::Reading,
            sink_error: None,
        };
        (ingestion, BodyAction::Read { timeout_ms: None })
    }

    /// Whether nothing is left to do.
    pub fn is_finished(&self) -> (finished: bool)
        ensures
            finished == (self.stage() == Stage::Finished),
    {
        self.stage == Stage::Finished
    }

    /// What a finished ingestion reports.
    fn done(&self) -> (action: BodyAction)
        ensures
            action == (BodyAction::Done {
                read_error: self.pipeline.read_error(),
                sink_error: self.sink_error,
            }),
    {
        let sink_error = match &self.sink_error {
            Some(reason) => Some(reason.clone()),
            None => None,
        };
        BodyAction::Done { read_error: self.pipeline.error(), sink_error }
    }

    /// Forwards the records of a step, or goes on where there are none.
    fn proceed(&mut self, records: Vec<Record>, last: bool) -> (action: BodyAction)
        requires
            old(self).pipeline.wf(),
            old(self).sink_error is None,
            last <==> old(self).pipeline.status() != SplitterStatus::Reading,
        ensures
            final(self).wf(),
            final(self).pipeline == old(self).pipeline,
            final(self).sink_error is None,
            handed(action) == messages(records@),
            match action {
                BodyAction::Forward { records: forwarded } => {
                    &&& forwarded == records
                    &&& records@.len() > 0
                    &&& final(self).stage == if last {
                        Stage::Closing
                    } else {
                        Stage::Sending
                    }
                },
                BodyAction::Read { timeout_ms } => {
                    &&& !last
                    &&& records@.len() == 0
                    &&& final(self).stage == Stage::Reading
                    &&& timeout_ms == old(self).pipeline.read_timeout()
                },
                BodyAction::Done { read_error, sink_error } => {
                    &&& last
                    &&& records@.len() == 0
                    &&& final(self).stage == Stage::Finished
                    &&& read_error == old(self).pipeline.read_error()
                    &&& sink_error is None
                },
                BodyAction::Rejected => false,
            },
    {
        if records.len() > 0 {
            self.stage = if last {
                Stage::Closing
            } else {
                Stage::Sending
            };
            BodyAction::Forward { records }
        } else if last {
            self.stage = Stage::Finished;
            self.done()
        } else {
            self.stage = Stage::Reading;
            BodyAction::Read { timeout_ms: self.pipeline.read_timeout_ms() }
        }
    }

    /// Answers one event: takes what was read into the pipeline, or notes
    /// what became of what was forwarded, and says what to do next.
    pub fn handle(&mut self, event: BodyEvent) -> (action: BodyAction)
        requires
            old(self).wf(),
        ensures
            final(self).wf(),
            final(self).pipeline().setup() == old(self).pipeline().setup(),
            Self::follows(*old(self), event, *final(self), action),
    {
        match self.stage {
            Stage::Reading => match event {
                BodyEvent::Piece { bytes } => {
                    let records = self.pipeline.push(bytes.as_slice());
                    self.proceed(records, false)
                },
                BodyEvent::TimedOut => {
                    let records = one(self.pipeline.timeout());
                    self.proceed(records, false)
                },
                BodyEvent::End => {
                    proof {
                        self.pipeline.lemma_wf();
                    }
                    let records = self.pipeline.finish();
                    self.proceed(records, true)
                },
                BodyEvent::ReadFailed { reason } => {
                    let records = one(self.pipeline.fail(reason));
                    self.proceed(records, true)
                },
                _ => BodyAction::Rejected,
            },
            Stage::Sending => match event {
                BodyEvent::Sent => {
                    self.stage = Stage::Reading;
                    BodyAction::Read { timeout_ms: self.pipeline.read_timeout_ms() }
                },
                BodyEvent::SinkFailed { reason } => {
                    self.sink_error = Some(reason);
                    self.stage = Stage::Finished;
                    self.done()
                },
                _ => BodyAction::Rejected,
            },
            Stage::Closing => match event {
                BodyEvent::Sent => {
                    self.stage = Stage::Finished;
                    self.done()
                },
                BodyEvent::SinkFailed { reason } => {
                    self.sink_error = Some(reason);
                    self.stage = Stage::Finished;
                    self.done()
                },
                _ => BodyAction::Rejected,
            },
            Stage::Finished => self.done(),
        }
    }
}

/// An optional record as a list of none or one.
fn one(record: Option<Record>) -> (records: Vec<Record>)
    ensures
        messages(records@) == emitted_message(record),
        records@.len() == if record is Some {
            1int
        } else {
            0int
        },
        record matches Some(r) ==> records@[0] == r,
{
    let mut records: Vec<Record> = Vec::new();
    if let Some(r) = record {
        records.push(r);
    }
    records
}

} // verus!
