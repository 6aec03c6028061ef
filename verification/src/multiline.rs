//! Merging lines into logical records.
//!
//! An aggregate is opened by a line that matches the start pattern. While an
//! aggregate is open, every further line is judged by the condition pattern,
//! and the mode says what a match and a miss mean. Lines that arrive while no
//! aggregate is open and that do not match the start pattern pass through
//! unchanged, each as a record of its own.

use crate::lines::NEWLINE;
use regex::bytes::Regex;
use vstd::prelude::*;

verus! {

/// `regex::bytes::Regex`, a compiled regular expression. Nothing inside it
/// is visible here: it is made by `compile_pattern` and asked by
/// `pattern_matches`.
#[verifier::external_type_specification]
#[verifier::external_body]
pub struct ExRegex(Regex);

/// What the condition pattern decides while an aggregate is open.
#[derive(Copy, Clone, Debug, PartialEq, Eq, Structural)]
pub enum Mode {
    /// A matching line is appended. A line that does not match closes the
    /// aggregate and opens the next one.
    ContinueThrough,
    /// A matching line is appended and closes the aggregate. A line that does
    /// not match closes the aggregate and opens the next one.
    ContinuePast,
    /// A line that does not match is appended. A matching line closes the
    /// aggregate and opens the next one.
    HaltBefore,
    /// A line that does not match is appended. A matching line is appended
    /// and closes the aggregate.
    HaltWith,
}

/// The multi-line settings as they are configured: patterns as text.
#[derive(Clone, Debug)]
pub struct MultilineConfig {
    pub start_pattern: String,
    pub condition_pattern: String,
    pub mode: Mode,
    /// After this long without a new line an open aggregate is emitted.
    pub timeout_ms: u64,
}

/// The multi-line settings ready for use: patterns compiled.
#[derive(Debug)]
pub struct AggregatorConfig {
    pub start_pattern: Regex,
    pub condition_pattern: Regex,
    pub mode: Mode,
    pub timeout_ms: u64,
}

/// Which pattern of a `MultilineConfig` is no regular expression.
#[derive(Debug)]
pub enum MultilineConfigError {
    InvalidStartPattern { reason: String },
    InvalidConditionPattern { reason: String },
}

/// Whether `regex::bytes::Regex::new` accepts `pattern`.
pub uninterp spec fn pattern_compiles(pattern: Seq<char>) -> bool;

/// Calls `regex::bytes::Regex::new`, and hands back the text of the error
/// where the pattern is refused. Trusted: whether the pattern is accepted
/// depends on the pattern alone.
#[verifier::external_body]
fn compile_pattern(pattern: &str) -> (r: Result<Regex, String>)
    ensures
        r is Ok == pattern_compiles(pattern@),
{
    match Regex::new(pattern) {
        Ok(compiled) => Ok(compiled),
        Err(refused) => Err(refused.to_string()),
    }
}

/// Calls `regex::bytes::Regex::is_match`: whether the pattern matches
/// anywhere in `line`. Nothing is claimed of the answer.
#[verifier::external_body]
fn pattern_matches(pattern: &Regex, line: &[u8]) -> bool {
    pattern.is_match(line)
}

impl MultilineConfig {
    /// Compiles both patterns. The start pattern is compiled first, so where
    /// neither is valid it is the one reported.
    pub fn compile(&self) -> (r: Result<AggregatorConfig, MultilineConfigError>)
        ensures
            match r {
                Ok(config) => {
                    &&& pattern_compiles(self.start_pattern@)
                    &&& pattern_compiles(self.condition_pattern@)
                    &&& config.mode == self.mode
                    &&& config.timeout_ms == self.timeout_ms
                },
                Err(MultilineConfigError::InvalidStartPattern { .. }) => !pattern_compiles(
                    self.start_pattern@,
                ),
                Err(MultilineConfigError::InvalidConditionPattern { .. }) => {
                    &&& pattern_compiles(self.start_pattern@)
                    &&& !pattern_compiles(self.condition_pattern@)
                },
            },
    {
        let start_pattern = match compile_pattern(self.start_pattern.as_str()) {
            Ok(pattern) => pattern,
            Err(reason) => {
                return Err(MultilineConfigError::InvalidStartPattern { reason });
            },
        };
        let condition_pattern = match compile_pattern(self.condition_pattern.as_str()) {
            Ok(pattern) => pattern,
            Err(reason) => {
                return Err(MultilineConfigError::InvalidConditionPattern { reason });
            },
        };
        Ok(
            AggregatorConfig {
                start_pattern,
                condition_pattern,
                mode: self.mode,
                timeout_ms: self.timeout_ms,
            },
        )
    }
}

/// Two lines of one record: the second after the first, a newline between.
pub open spec fn joined(aggregate: Seq<u8>, line: Seq<u8>) -> Seq<u8> {
    aggregate.push(NEWLINE) + line
}

/// What one line does to an aggregator.
pub struct LineStep {
    /// The aggregate that is open after the line.
    pub open: Option<Seq<u8>>,
    /// The record that the line completed.
    pub emitted: Option<Seq<u8>>,
}

/// The effect of one line.
///
/// `starts` says whether the line matches the start pattern and is read only
/// while no aggregate is open; `matches` says whether it matches the
/// condition pattern and is read only while one is.
pub open spec fn step(
    mode: Mode,
    open: Option<Seq<u8>>,
    line: Seq<u8>,
    starts: bool,
    matches: bool,
) -> LineStep {
    match open {
        None => if starts {
            LineStep { open: Some(line), emitted: None }
        } else {
            LineStep { open: None, emitted: Some(line) }
        },
        Some(aggregate) => {
            let appended = LineStep { open: Some(joined(aggregate, line)), emitted: None };
            let closed_with = LineStep { open: None, emitted: Some(joined(aggregate, line)) };
            let closed_before = LineStep { open: Some(line), emitted: Some(aggregate) };
            match mode {
                Mode::ContinueThrough => if matches {
                    appended
                } else {
                    closed_before
                },
                Mode::ContinuePast => if matches {
                    closed_with
                } else {
                    closed_before
                },
                Mode::HaltBefore => if matches {
                    closed_before
                } else {
                    appended
                },
                Mode::HaltWith => if matches {
                    closed_with
                } else {
                    appended
                },
            }
        },
    }
}

/// An optional record as a list of none or one.
pub open spec fn emitted_list(record: Option<Seq<u8>>) -> Seq<Seq<u8>> {
    match record {
        Some(r) => seq![r],
        None => Seq::empty(),
    }
}

/// What a run of lines does to an aggregator.
pub struct Aggregated {
    /// The aggregate that is open after the last line.
    pub open: Option<Seq<u8>>,
    /// The records that the lines completed, in order.
    pub emitted: Seq<Seq<u8>>,
}

/// The effect of a run of lines, where `answers` holds for each line what
/// the patterns say of it: whether it matches the start pattern, and whether
/// it matches the condition pattern.
pub open spec fn aggregated(
    mode: Mode,
    open: Option<Seq<u8>>,
    lines: Seq<Seq<u8>>,
    answers: Seq<(bool, bool)>,
) -> Aggregated
    decreases lines.len(),
{
    if lines.len() == 0 {
        Aggregated { open, emitted: Seq::empty() }
    } else {
        let before = aggregated(mode, open, lines.drop_last(), answers.drop_last());
        let last = step(mode, before.open, lines.last(), answers.last().0, answers.last().1);
        Aggregated { open: last.open, emitted: before.emitted + emitted_list(last.emitted) }
    }
}

/// A record or an open aggregate written out with a closing newline; nothing
/// where there is none.
pub open spec fn terminated(record: Option<Seq<u8>>) -> Seq<u8> {
    match record {
        Some(r) => r.push(NEWLINE),
        None => Seq::empty(),
    }
}

/// Aggregation only regroups: the record that a line completes, followed by
/// what is then open, spells what was open before followed by the line.
pub proof fn lemma_step_keeps_bytes(
    mode: Mode,
    open: Option<Seq<u8>>,
    line: Seq<u8>,
    starts: bool,
    matches: bool,
)
    ensures
        ({
            let after = step(mode, open, line, starts, matches);
            terminated(after.emitted) + terminated(after.open) == terminated(open) + line.push(
                NEWLINE,
            )
        }),
{
    let after = step(mode, open, line, starts, matches);
}

/// The contents of an optional byte vector.
pub open spec fn opt_bytes(v: Option<Vec<u8>>) -> Option<Seq<u8>> {
    match v {
        Some(b) => Some(b@),
        None => None,
    }
}

/// What a line does to the aggregate that is open.
enum Effect {
    Append,
    AppendAndClose,
    CloseBefore,
}

/// Assembles logical records from the lines of one object.
pub struct Aggregator {
    open: Option<Vec<u8>>,
}

impl Aggregator {
    /// The aggregate that is being assembled, if one is open.
    pub closed spec fn open(&self) -> Option<Seq<u8>> {
        opt_bytes(self.open)
    }

    /// An aggregator with no aggregate open.
    pub fn new() -> (aggregator: Self)
        ensures
            aggregator.open() is None,
    {
        Aggregator { open: None }
    }

    /// Whether an aggregate is open, so that a flush would emit a record.
    pub fn has_open(&self) -> (open: bool)
        ensures
            open == self.open() is Some,
    {
        self.open.is_some()
    }

    /// Takes one line whose matches are known, and hands out the record that
    /// it completes.
    pub fn advance(&mut self, mode: Mode, line: Vec<u8>, starts: bool, matches: bool) -> (emitted:
        Option<Vec<u8>>)
        ensures
            final(self).open() == step(mode, old(self).open(), line@, starts, matches).open,
            opt_bytes(emitted) == step(mode, old(self).open(), line@, starts, matches).emitted,
    {
        let open = self.open.take();
        match open {
            None => {
                if starts {
                    self.open = Some(line);
                    None
                } else {
                    Some(line)
                }
            },
            Some(mut aggregate) => {
                let effect = match mode {
                    Mode::ContinueThrough => if matches {
                        Effect::Append
                    } else {
                        Effect::CloseBefore
                    },
                    Mode::ContinuePast => if matches {
                        Effect::AppendAndClose
                    } else {
                        Effect::CloseBefore
                    },
                    Mode::HaltBefore => if matches {
                        Effect::CloseBefore
                    } else {
                        Effect::Append
                    },
                    Mode::HaltWith => if matches {
                        Effect::AppendAndClose
                    } else {
                        Effect::Append
                    },
                };
                match effect {
                    Effect::Append => {
                        aggregate.push(NEWLINE);
                        aggregate.extend_from_slice(line.as_slice());
                        self.open = Some(aggregate);
                        None
                    },
                    Effect::AppendAndClose => {
                        aggregate.push(NEWLINE);
                        aggregate.extend_from_slice(line.as_slice());
                        Some(aggregate)
                    },
                    Effect::CloseBefore => {
                        self.open = Some(line);
                        Some(aggregate)
                    },
                }
            },
        }
    }

    /// Takes one line, matches it against the pattern that the state calls
    /// for, and hands out the record that it completes. Whatever the pattern
    /// answers, the line has the effect that `step` gives for that answer.
    pub fn push_line(&mut self, config: &AggregatorConfig, line: Vec<u8>) -> (emitted: Option<
        Vec<u8>,
    >)
        ensures
            exists|starts: bool, matches: bool|
                {
                    let after = #[trigger] step(
                        config.mode,
                        old(self).open(),
                        line@,
                        starts,
                        matches,
                    );
                    final(self).open() == after.open && opt_bytes(emitted) == after.emitted
                },
    {
        let ghost before = self.open();
        let mut starts = false;
        let mut matches = false;
        if self.open.is_some() {
            matches = pattern_matches(&config.condition_pattern, line.as_slice());
        } else {
            starts = pattern_matches(&config.start_pattern, line.as_slice());
        }
        let ghost text = line@;
        let emitted = self.advance(config.mode, line, starts, matches);
        proof {
            let after = step(config.mode, before, text, starts, matches);
            assert(self.open() == after.open && opt_bytes(emitted) == after.emitted);
        }
        emitted
    }

    /// Hands out the open aggregate, if there is one, and leaves none open.
    /// This is what a timeout and the end of the object do.
    pub fn flush(&mut self) -> (emitted: Option<Vec<u8>>)
        ensures
            final(self).open() is None,
            opt_bytes(emitted) == old(self).open(),
    {
        self.open.take()
    }
}

} // verus!
