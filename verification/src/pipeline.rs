//! From the bytes of one object to the records that are forwarded.
//!
//! A pipeline takes the decoded body piece by piece, splits it into lines,
//! merges lines where multi-line aggregation is configured, and attaches the
//! origin of the object to each record.

use crate::lines::{
    complete_lines, contents, join_terminated, lemma_join_push, remainder, split_lines,
    LineSplitter, SplitterStatus, NEWLINE,
};
use crate::multiline::{
    aggregated, emitted_list, lemma_step_keeps_bytes, opt_bytes, step, terminated, Aggregated,
    Aggregator, AggregatorConfig, Mode,
};
use crate::record::{Origin, Record};
use vstd::prelude::*;

verus! {

/// The messages of a list of records.
pub open spec fn messages(records: Seq<Record>) -> Seq<Seq<u8>> {
    records.map_values(|r: Record| r.message@)
}

/// Every record carries the fields of `origin`.
pub open spec fn all_from(records: Seq<Record>, origin: Origin) -> bool {
    forall|i: int|
        0 <= i < records.len() ==> {
            &&& (#[trigger] records[i]).fields.wf()
            &&& records[i].fields@ == origin.fields()
        }
}

/// What a pipeline is set up with, and keeps for its whole life.
pub struct Setup {
    /// The origin attached to every record.
    pub origin: Origin,
    /// The mode by which lines are merged; none where they are not.
    pub mode: Option<Mode>,
    /// The milliseconds after which an open aggregate is handed out if no
    /// line has arrived; none where lines are not merged.
    pub timeout_ms: Option<u64>,
}

/// The pipeline of one object.
pub struct ObjectPipeline<'a> {
    config: Option<&'a AggregatorConfig>,
    splitter: LineSplitter,
    aggregator: Aggregator,
    origin: Origin,
    forwarded: Ghost<Seq<Seq<u8>>>,
}

impl<'a> ObjectPipeline<'a> {
    /// What the pipeline was set up with.
    pub closed spec fn setup(&self) -> Setup {
        Setup {
            origin: self.origin,
            mode: match self.config {
                Some(c) => Some(c.mode),
                None => None,
            },
            timeout_ms: match self.config {
                Some(c) => Some(c.timeout_ms),
                None => None,
            },
        }
    }

    /// Whether lines are merged into multi-line records.
    pub open spec fn aggregating(&self) -> bool {
        self.setup().mode is Some
    }

    /// The origin attached to every record.
    pub open spec fn origin(&self) -> Origin {
        self.setup().origin
    }

    /// The mode by which lines are merged, where they are.
    pub open spec fn mode(&self) -> Option<Mode> {
        self.setup().mode
    }

    /// How long a read may take before the open aggregate is handed out:
    /// the configured timeout while an aggregate is open, no limit while
    /// none is.
    pub open spec fn read_timeout(&self) -> Option<u64> {
        if self.open_aggregate() is Some {
            self.setup().timeout_ms
        } else {
            None
        }
    }

    /// Every byte of the body taken so far.
    pub closed spec fn seen(&self) -> Seq<u8> {
        self.splitter.seen()
    }

    /// The lines that the body taken so far has been split into.
    pub closed spec fn lines(&self) -> Seq<Seq<u8>> {
        self.splitter.emitted()
    }

    /// The bytes of the line that no newline has closed yet.
    pub closed spec fn open_line(&self) -> Seq<u8> {
        self.splitter.open()
    }

    /// What sending `lines` through the pipeline may hand out and leave
    /// open. Without aggregation every line is a record. With aggregation
    /// the lines have the effect that the mode gives for some answers of
    /// the patterns.
    pub open spec fn regroups(
        &self,
        lines: Seq<Seq<u8>>,
        after: Aggregated,
    ) -> bool {
        match self.mode() {
            None => after == (Aggregated { open: None, emitted: lines }),
            Some(mode) => exists|answers: Seq<(bool, bool)>|
                answers.len() == lines.len() && #[trigger] aggregated(
                    mode,
                    self.open_aggregate(),
                    lines,
                    answers,
                ) == after,
        }
    }

    /// The messages of all records handed out so far, in order.
    pub closed spec fn forwarded(&self) -> Seq<Seq<u8>> {
        self.forwarded@
    }

    /// The aggregate that is being assembled, if one is open.
    pub closed spec fn open_aggregate(&self) -> Option<Seq<u8>> {
        self.aggregator.open()
    }

    pub closed spec fn status(&self) -> SplitterStatus {
        self.splitter.status()
    }

    /// The text of the read error that stopped the pipeline, if one did.
    pub closed spec fn read_error(&self) -> Option<String> {
        self.splitter.read_error()
    }

    /// What holds of every pipeline. The records handed out, followed by the
    /// open aggregate, spell out the lines read; without aggregation they
    /// are the lines read.
    pub closed spec fn wf(&self) -> bool {
        &&& self.splitter.wf()
        &&& self.accounts_for(self.splitter.emitted())
    }

    /// The records handed out and the open aggregate regroup `lines`.
    closed spec fn accounts_for(&self, lines: Seq<Seq<u8>>) -> bool {
        &&& join_terminated(self.forwarded@) + terminated(self.open_aggregate()) == join_terminated(
            lines,
        )
        &&& self.config is None ==> self.forwarded@ == lines && self.aggregator.open() is None
    }

    /// The law of a well-formed pipeline, for use outside this module.
    pub proof fn lemma_wf(&self)
        requires
            self.wf(),
        ensures
            join_terminated(self.forwarded()) + terminated(self.open_aggregate())
                == join_terminated(self.lines()),
            !self.aggregating() ==> self.forwarded() == self.lines(),
            !self.aggregating() ==> self.open_aggregate() is None,
            self.setup().mode is Some <==> self.setup().timeout_ms is Some,
            self.status() == SplitterStatus::Ended ==> self.lines() == split_lines(self.seen()),
            self.status() != SplitterStatus::Ended ==> self.lines() == complete_lines(self.seen()),
            self.status() == SplitterStatus::Failed <==> self.read_error() is Some,
    {
        self.splitter.lemma_wf();
    }

    /// Records come in file order. Once the body has been read to its end
    /// and nothing is left open, the records handed out spell out the lines
    /// of the body; without aggregation they are exactly those lines, one
    /// record for each, in the order of the body.
    pub proof fn lemma_records_in_file_order(&self)
        requires
            self.wf(),
            self.status() == SplitterStatus::Ended,
            self.open_aggregate() is None,
        ensures
            join_terminated(self.forwarded()) == join_terminated(split_lines(self.seen())),
            !self.aggregating() ==> self.forwarded() == split_lines(self.seen()),
    {
        self.lemma_wf();
        assert(join_terminated(self.forwarded()) + terminated(self.open_aggregate())
            =~= join_terminated(self.forwarded()));
    }

    /// A pipeline at the start of an object.
    pub fn new(origin: Origin, config: Option<&'a AggregatorConfig>) -> (pipeline: Self)
        ensures
            pipeline.wf(),
            pipeline.setup() == (Setup {
                origin,
                mode: match config {
                    Some(c) => Some(c.mode),
                    None => None,
                },
                timeout_ms: match config {
                    Some(c) => Some(c.timeout_ms),
                    None => None,
                },
            }),
            pipeline.open_line() == Seq::<u8>::empty(),
            pipeline.seen() == Seq::<u8>::empty(),
            pipeline.forwarded() == Seq::<Seq<u8>>::empty(),
            pipeline.open_aggregate() is None,
            pipeline.status() == SplitterStatus::Reading,
            pipeline.read_error() is None,
    {
        ObjectPipeline {
            config,
            splitter: LineSplitter::new(),
            aggregator: Aggregator::new(),
            origin,
            forwarded: Ghost(Seq::empty()),
        }
    }

    /// Whether the pipeline still takes bytes.
    pub fn is_reading(&self) -> (reading: bool)
        ensures
            reading == (self.status() == SplitterStatus::Reading),
    {
        self.splitter.is_reading()
    }

    /// The text of the read error that stopped the pipeline, if one did.
    pub fn error(&self) -> (error: Option<String>)
        ensures
            error == self.read_error(),
    {
        self.splitter.error()
    }

    /// How long the next read may take before `timeout` is due, in
    /// milliseconds; no limit while no aggregate is open.
    pub fn read_timeout_ms(&self) -> (limit: Option<u64>)
        ensures
            limit == self.read_timeout(),
    {
        match self.config {
            Some(config) => if self.aggregator.has_open() {
                Some(config.timeout_ms)
            } else {
                None
            },
            None => None,
        }
    }

    /// Whether an aggregate is open, so that a timeout would emit a record.
    pub fn has_open_aggregate(&self) -> (open: bool)
        ensures
            open == self.open_aggregate() is Some,
    {
        self.aggregator.has_open()
    }

    /// Sends `lines` through aggregation and enrichment.
    fn take_lines(&mut self, lines: Vec<Vec<u8>>, Ghost(base): Ghost<Seq<Seq<u8>>>) -> (records:
        Vec<Record>)
        requires
            old(self).accounts_for(base),
        ensures
            final(self).accounts_for(base + contents(lines@)),
            final(self).splitter == old(self).splitter,
            final(self).config == old(self).config,
            final(self).origin == old(self).origin,
            final(self).forwarded@ == old(self).forwarded@ + messages(records@),
            all_from(records@, old(self).origin),
            records@.len() <= lines@.len(),
            old(self).regroups(
                contents(lines@),
                Aggregated { open: final(self).open_aggregate(), emitted: messages(records@) },
            ),
    {
        let mut records: Vec<Record> = Vec::new();
        let ghost all = lines@;
        let ghost mut answers: Seq<(bool, bool)> = Seq::empty();
        proof {
            assert(messages(records@) =~= Seq::<Seq<u8>>::empty());
        }
        for line in it: lines
            invariant
                it.seq() == all,
                self.accounts_for(base + contents(all.take(it.index() as int))),
                self.splitter == old(self).splitter,
                self.config == old(self).config,
                self.origin == old(self).origin,
                self.forwarded@ == old(self).forwarded@ + messages(records@),
                all_from(records@, self.origin),
                records@.len() <= it.index(),
                answers.len() == it.index(),
                self.config is None ==> messages(records@) == contents(
                    all.take(it.index() as int),
                ),
                self.config matches Some(c) ==> aggregated(
                    c.mode,
                    old(self).open_aggregate(),
                    contents(all.take(it.index() as int)),
                    answers,
                ) == (Aggregated { open: self.open_aggregate(), emitted: messages(records@) }),
        {
            let ghost done = base + contents(all.take(it.index() as int));
            let ghost text = line@;
            let ghost before_open = self.open_aggregate();
            let ghost before_forwarded = self.forwarded@;
            let ghost before_records = records@;
            let ghost before_answers = answers;
            let ghost lines_before = contents(all.take(it.index() as int));
            let ghost lines_after = contents(all.take(it.index() + 1));
            proof {
                assert(base + contents(all.take(it.index() + 1)) =~= done.push(text));
                lemma_join_push(done, text);
                assert(lines_after.drop_last() =~= lines_before);
            }
            let emitted = match self.config {
                Some(config) => {
                    let ghost mode = config.mode;
                    let emitted = self.aggregator.push_line(config, line);
                    proof {
                        let (starts, matches) = choose|starts: bool, matches: bool|
                            {
                                let after = #[trigger] step(
                                    mode,
                                    before_open,
                                    text,
                                    starts,
                                    matches,
                                );
                                self.aggregator.open() == after.open && opt_bytes(emitted)
                                    == after.emitted
                            };
                        lemma_step_keeps_bytes(mode, before_open, text, starts, matches);
                        answers = before_answers.push((starts, matches));
                        assert(answers.drop_last() =~= before_answers);
                    }
                    emitted
                },
                None => {
                    proof {
                        answers = before_answers.push((false, false));
                    }
                    Some(line)
                },
            };
            match emitted {
                Some(message) => {
                    let record = self.origin.enrich(message);
                    records.push(record);
                    proof {
                        self.forwarded = Ghost(self.forwarded@.push(message@));
                        lemma_join_push(before_forwarded, message@);
                        assert(messages(records@) =~= messages(before_records).push(message@));
                    }
                },
                None => {},
            }
            proof {
                assert(join_terminated(before_forwarded) + (terminated(before_open) + text.push(
                    NEWLINE,
                )) =~= join_terminated(done) + text.push(NEWLINE));
                assert(messages(records@) =~= messages(before_records) + emitted_list(
                    opt_bytes(emitted),
                ));
            }
        }
        proof {
            assert(all.take(all.len() as int) =~= all);
        }
        records
    }

    /// Takes the next piece of the decoded body and hands out the records
    /// that it completes. A pipeline that has ended or failed hands out
    /// nothing and stays as it is.
    pub fn push(&mut self, piece: &[u8]) -> (records: Vec<Record>)
        requires
            old(self).wf(),
        ensures
            final(self).wf(),
            final(self).setup() == old(self).setup(),
            final(self).status() == old(self).status(),
            final(self).read_error() == old(self).read_error(),
            final(self).forwarded() == old(self).forwarded() + messages(records@),
            all_from(records@, old(self).origin()),
            old(self).status() == SplitterStatus::Reading ==> {
                &&& final(self).seen() == old(self).seen() + piece@
                &&& final(self).open_line() == remainder(old(self).open_line() + piece@)
                &&& old(self).regroups(
                    complete_lines(old(self).open_line() + piece@),
                    Aggregated { open: final(self).open_aggregate(), emitted: messages(records@) },
                )
            },
            old(self).status() != SplitterStatus::Reading ==> {
                &&& final(self).seen() == old(self).seen()
                &&& final(self).open_line() == old(self).open_line()
                &&& final(self).open_aggregate() == old(self).open_aggregate()
                &&& records@.len() == 0
            },
    {
        let ghost base = self.splitter.emitted();
        let lines = self.splitter.push(piece);
        let records = self.take_lines(lines, Ghost(base));
        proof {
            if old(self).status() != SplitterStatus::Reading {
                assert(contents(lines@) =~= Seq::<Seq<u8>>::empty());
                old(self).lemma_regroups_nothing(
                    Aggregated { open: self.open_aggregate(), emitted: messages(records@) },
                );
            }
        }
        records
    }

    /// Hands out the open aggregate as a record, if there is one.
    fn flush(&mut self) -> (record: Option<Record>)
        requires
            old(self).wf(),
        ensures
            final(self).wf(),
            final(self).splitter == old(self).splitter,
            final(self).config == old(self).config,
            final(self).origin == old(self).origin,
            final(self).open_aggregate() is None,
            final(self).forwarded@ == old(self).forwarded@ + emitted_message(record),
            record is Some == old(self).open_aggregate() is Some,
            record matches Some(r) ==> {
                &&& r.message@ == old(self).open_aggregate()->0
                &&& r.fields.wf()
                &&& r.fields@ == old(self).origin.fields()
            },
    {
        let ghost before = self.forwarded@;
        match self.aggregator.flush() {
            Some(message) => {
                proof {
                    self.forwarded = Ghost(self.forwarded@.push(message@));
                    lemma_join_push(before, message@);
                    assert(self.forwarded@ =~= before + seq![message@]);
                }
                Some(self.origin.enrich(message))
            },
            None => None,
        }
    }

    /// No new line arrived within the configured time: hands out the open
    /// aggregate, if there is one, as a record.
    pub fn timeout(&mut self) -> (record: Option<Record>)
        requires
            old(self).wf(),
        ensures
            final(self).wf(),
            final(self).setup() == old(self).setup(),
            final(self).status() == old(self).status(),
            final(self).read_error() == old(self).read_error(),
            final(self).seen() == old(self).seen(),
            final(self).open_line() == old(self).open_line(),
            final(self).open_aggregate() is None,
            final(self).forwarded() == old(self).forwarded() + emitted_message(record),
            record is Some == old(self).open_aggregate() is Some,
            record matches Some(r) ==> {
                &&& r.message@ == old(self).open_aggregate()->0
                &&& r.fields.wf()
                &&& r.fields@ == old(self).origin().fields()
            },
    {
        self.flush()
    }

    /// A read of the body failed. The error is kept, the line that was being
    /// read is dropped, and the open aggregate, if there is one, is handed
    /// out as the last record. A pipeline that has ended or has failed
    /// before keeps its first outcome.
    pub fn fail(&mut self, error: String) -> (record: Option<Record>)
        requires
            old(self).wf(),
        ensures
            final(self).wf(),
            final(self).setup() == old(self).setup(),
            final(self).seen() == old(self).seen(),
            final(self).open_aggregate() is None,
            final(self).forwarded() == old(self).forwarded() + emitted_message(record),
            record is Some == old(self).open_aggregate() is Some,
            record matches Some(r) ==> {
                &&& r.message@ == old(self).open_aggregate()->0
                &&& r.fields.wf()
                &&& r.fields@ == old(self).origin().fields()
            },
            old(self).status() == SplitterStatus::Reading ==> {
                &&& final(self).status() == SplitterStatus::Failed
                &&& final(self).read_error() == Some(error)
                &&& final(self).open_line() == Seq::<u8>::empty()
            },
            old(self).status() != SplitterStatus::Reading ==> {
                &&& final(self).status() == old(self).status()
                &&& final(self).read_error() == old(self).read_error()
                &&& final(self).open_line() == old(self).open_line()
            },
    {
        self.splitter.fail(error);
        self.flush()
    }

    /// The body has ended. Hands out what is left: the last line, where the
    /// body did not end in a newline, and the aggregate that is open after
    /// it. Without aggregation the records handed out over the life of the
    /// pipeline are then exactly the lines of the body, in file order.
    pub fn finish(&mut self) -> (records: Vec<Record>)
        requires
            old(self).wf(),
        ensures
            final(self).wf(),
            final(self).setup() == old(self).setup(),
            final(self).seen() == old(self).seen(),
            final(self).read_error() == old(self).read_error(),
            final(self).open_aggregate() is None,
            final(self).forwarded() == old(self).forwarded() + messages(records@),
            all_from(records@, old(self).origin()),
            old(self).status() == SplitterStatus::Reading ==> {
                &&& final(self).status() == SplitterStatus::Ended
                &&& final(self).open_line() == Seq::<u8>::empty()
                &&& final(self).lines() == split_lines(old(self).seen())
                &&& !old(self).aggregating() ==> final(self).forwarded() == split_lines(
                    old(self).seen(),
                )
            },
            old(self).status() != SplitterStatus::Reading ==> final(self).status() == old(
                self,
            ).status(),
            exists|after: Aggregated|
                {
                    &&& #[trigger] old(self).regroups(old(self).last_line(), after)
                    &&& messages(records@) == after.emitted + emitted_list(after.open)
                },
    {
        let ghost base = self.splitter.emitted();
        let last = self.splitter.finish();
        let mut lines: Vec<Vec<u8>> = Vec::new();
        match last {
            Some(line) => {
                lines.push(line);
                assert(contents(lines@) =~= seq![line@]);
            },
            None => {
                assert(contents(lines@) =~= Seq::<Seq<u8>>::empty());
            },
        }
        let mut records = self.take_lines(lines, Ghost(base));
        let ghost after = Aggregated { open: self.open_aggregate(), emitted: messages(records@) };
        if let Some(record) = self.flush() {
            records.push(record);
        }
        assert(old(self).regroups(old(self).last_line(), after));
        records
    }

    /// The line that the end of the body closes: what is open, if it holds
    /// any byte and the pipeline is still reading.
    pub open spec fn last_line(&self) -> Seq<Seq<u8>> {
        if self.status() == SplitterStatus::Reading && self.open_line().len() > 0 {
            seq![self.open_line()]
        } else {
            Seq::empty()
        }
    }

    /// No line leaves everything as it is.
    proof fn lemma_regroups_nothing(&self, after: Aggregated)
        requires
            self.wf(),
            self.regroups(Seq::empty(), after),
        ensures
            after.open == self.open_aggregate(),
            after.emitted.len() == 0,
    {
        match self.mode() {
            Some(mode) => {
                let answers = choose|answers: Seq<(bool, bool)>|
                    answers.len() == 0 && #[trigger] aggregated(
                        mode,
                        self.open_aggregate(),
                        Seq::empty(),
                        answers,
                    ) == after;
            },
            None => {},
        }
    }
}

/// The message of an optional record, as a list of none or one.
pub open spec fn emitted_message(record: Option<Record>) -> Seq<Seq<u8>> {
    match record {
        Some(r) => seq![r.message@],
        None => Seq::empty(),
    }
}

} // verus!
