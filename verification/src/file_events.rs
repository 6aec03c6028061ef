//! What the file source reports about itself: a log line and counters for
//! each kind of event.
//!
//! Nothing is written or counted here. Each event says what is to be
//! logged, at which level, and which counters go up by how much; the driver
//! does the logging and the counting.

use vstd::prelude::*;
use vstd::string::StringExecFns;

verus! {

/// How loud a log line is.
#[derive(Copy, Clone, Debug, PartialEq, Eq, Structural)]
pub enum Level {
    Trace,
    Debug,
    Info,
    Warn,
    Error,
}

/// A log line, without the fields of the event it is about.
#[derive(Debug, PartialEq, Eq)]
pub struct LogLine {
    pub level: Level,
    pub message: &'static str,
    /// The line is logged at most once in this many seconds.
    pub rate_limit_secs: Option<u64>,
}

/// A counter that goes up.
#[derive(Debug, PartialEq, Eq)]
pub struct Counter {
    pub name: &'static str,
    pub value: u64,
    /// The file that the count is about, as a label.
    pub file: Option<String>,
}

/// A log line as contracts speak of it.
pub struct LogModel {
    pub level: Level,
    pub message: Seq<char>,
    pub rate_limit_secs: Option<u64>,
}

/// A counter as contracts speak of it.
pub struct CounterModel {
    pub name: Seq<char>,
    pub value: u64,
    pub file: Option<Seq<char>>,
}

impl View for LogLine {
    type V = LogModel;

    open spec fn view(&self) -> LogModel {
        LogModel {
            level: self.level,
            message: self.message@,
            rate_limit_secs: self.rate_limit_secs,
        }
    }
}

impl View for Counter {
    type V = CounterModel;

    open spec fn view(&self) -> CounterModel {
        CounterModel {
            name: self.name@,
            value: self.value,
            file: match self.file {
                Some(f) => Some(f@),
                None => None,
            },
        }
    }
}

/// The counters of a list, as contracts speak of them.
pub open spec fn counter_views(counters: Seq<Counter>) -> Seq<CounterModel> {
    counters.map_values(|c: Counter| c@)
}

/// An event that the file source reports.
pub trait InternalEvent {
    /// What is to be logged.
    spec fn line(&self) -> LogModel;

    /// Which counters go up, in the order in which they are counted.
    spec fn counts(&self) -> Seq<CounterModel>;

    /// What is to be logged.
    fn emit_logs(&self) -> (log: LogLine)
        ensures
            log@ == self.line(),
    ;

    /// Which counters go up.
    fn emit_metrics(&self) -> (counters: Vec<Counter>)
        ensures
            counter_views(counters@) == self.counts(),
    ;
}

/// A counter about one file.
fn file_counter(name: &'static str, value: u64, file: &str) -> (counter: Counter)
    ensures
        counter@ == (CounterModel { name: name@, value, file: Some(file@) }),
{
    Counter { name, value, file: Some(String::from_str(file)) }
}

/// A counter about no file in particular.
fn plain_counter(name: &'static str, value: u64) -> (counter: Counter)
    ensures
        counter@ == (CounterModel { name: name@, value, file: None }),
{
    Counter { name, value, file: None }
}

/// One event was read from a file.
#[derive(Debug)]
pub struct FileEventReceived<'a> {
    pub file: &'a str,
    pub byte_size: usize,
}

impl<'a> InternalEvent for FileEventReceived<'a> {
    open spec fn line(&self) -> LogModel {
        LogModel { level: Level::Trace, message: "Received one event."@, rate_limit_secs: None }
    }

    open spec fn counts(&self) -> Seq<CounterModel> {
        seq![
            CounterModel { name: "events_processed_total"@, value: 1, file: Some(self.file@) },
            CounterModel { name: "processed_bytes_total"@, value: self.byte_size as u64, file: Some(self.file@) },
        ]
    }

    fn emit_logs(&self) -> (log: LogLine) {
        LogLine { level: Level::Trace, message: "Received one event.", rate_limit_secs: None }
    }

    fn emit_metrics(&self) -> (counters: Vec<Counter>) {
        let mut counters: Vec<Counter> = Vec::new();
        counters.push(file_counter("events_processed_total", 1, self.file));
        counters.push(file_counter("processed_bytes_total", self.byte_size as u64, self.file));
        counters
    }
}

/// A file is too small to be fingerprinted.
#[derive(Debug)]
pub struct FileChecksumFailed<'a> {
    pub path: &'a str,
}

impl<'a> InternalEvent for FileChecksumFailed<'a> {
    open spec fn line(&self) -> LogModel {
        LogModel { level: Level::Warn, message: "Currently ignoring file too small to fingerprint."@, rate_limit_secs: None }
    }

    open spec fn counts(&self) -> Seq<CounterModel> {
        seq![
            CounterModel { name: "checksum_errors"@, value: 1, file: Some(self.path@) },
        ]
    }

    fn emit_logs(&self) -> (log: LogLine) {
        LogLine { level: Level::Warn, message: "Currently ignoring file too small to fingerprint.", rate_limit_secs: None }
    }

    fn emit_metrics(&self) -> (counters: Vec<Counter>) {
        let mut counters: Vec<Counter> = Vec::new();
        counters.push(file_counter("checksum_errors", 1, self.path));
        counters
    }
}

/// A file could not be read for fingerprinting.
#[derive(Debug)]
pub struct FileFingerprintReadFailed<'a> {
    pub path: &'a str,
    pub error: String,
}

impl<'a> InternalEvent for FileFingerprintReadFailed<'a> {
    open spec fn line(&self) -> LogModel {
        LogModel { level: Level::Error, message: "Failed reading file for fingerprinting."@, rate_limit_secs: None }
    }

    open spec fn counts(&self) -> Seq<CounterModel> {
        seq![
            CounterModel { name: "fingerprint_read_errors"@, value: 1, file: Some(self.path@) },
        ]
    }

    fn emit_logs(&self) -> (log: LogLine) {
        LogLine { level: Level::Error, message: "Failed reading file for fingerprinting.", rate_limit_secs: None }
    }

    fn emit_metrics(&self) -> (counters: Vec<Counter>) {
        let mut counters: Vec<Counter> = Vec::new();
        counters.push(file_counter("fingerprint_read_errors", 1, self.path));
        counters
    }
}

/// A file could not be deleted.
#[derive(Debug)]
pub struct FileDeleteFailed<'a> {
    pub path: &'a str,
    pub error: String,
}

impl<'a> InternalEvent for FileDeleteFailed<'a> {
    open spec fn line(&self) -> LogModel {
        LogModel { level: Level::Warn, message: "Failed in deleting file."@, rate_limit_secs: Some(1u64) }
    }

    open spec fn counts(&self) -> Seq<CounterModel> {
        seq![
            CounterModel { name: "file_delete_errors"@, value: 1, file: Some(self.path@) },
        ]
    }

    fn emit_logs(&self) -> (log: LogLine) {
        LogLine { level: Level::Warn, message: "Failed in deleting file.", rate_limit_secs: Some(1u64) }
    }

    fn emit_metrics(&self) -> (counters: Vec<Counter>) {
        let mut counters: Vec<Counter> = Vec::new();
        counters.push(file_counter("file_delete_errors", 1, self.path));
        counters
    }
}

/// A file was deleted.
#[derive(Debug)]
pub struct FileDeleted<'a> {
    pub path: &'a str,
}

impl<'a> InternalEvent for FileDeleted<'a> {
    open spec fn line(&self) -> LogModel {
        LogModel { level: Level::Info, message: "File deleted."@, rate_limit_secs: None }
    }

    open spec fn counts(&self) -> Seq<CounterModel> {
        seq![
            CounterModel { name: "files_deleted"@, value: 1, file: Some(self.path@) },
        ]
    }

    fn emit_logs(&self) -> (log: LogLine) {
        LogLine { level: Level::Info, message: "File deleted.", rate_limit_secs: None }
    }

    fn emit_metrics(&self) -> (counters: Vec<Counter>) {
        let mut counters: Vec<Counter> = Vec::new();
        counters.push(file_counter("files_deleted", 1, self.path));
        counters
    }
}

/// A file is no longer watched.
#[derive(Debug)]
pub struct FileUnwatched<'a> {
    pub path: &'a str,
}

impl<'a> InternalEvent for FileUnwatched<'a> {
    open spec fn line(&self) -> LogModel {
        LogModel { level: Level::Info, message: "Stopped watching file."@, rate_limit_secs: None }
    }

    open spec fn counts(&self) -> Seq<CounterModel> {
        seq![
            CounterModel { name: "files_unwatched"@, value: 1, file: Some(self.path@) },
        ]
    }

    fn emit_logs(&self) -> (log: LogLine) {
        LogLine { level: Level::Info, message: "Stopped watching file.", rate_limit_secs: None }
    }

    fn emit_metrics(&self) -> (counters: Vec<Counter>) {
        let mut counters: Vec<Counter> = Vec::new();
        counters.push(file_counter("files_unwatched", 1, self.path));
        counters
    }
}

/// A file could not be watched.
#[derive(Debug)]
pub struct FileWatchFailed<'a> {
    pub path: &'a str,
    pub error: String,
}

impl<'a> InternalEvent for FileWatchFailed<'a> {
    open spec fn line(&self) -> LogModel {
        LogModel { level: Level::Error, message: "Failed to watch file."@, rate_limit_secs: None }
    }

    open spec fn counts(&self) -> Seq<CounterModel> {
        seq![
            CounterModel { name: "file_watch_errors"@, value: 1, file: Some(self.path@) },
        ]
    }

    fn emit_logs(&self) -> (log: LogLine) {
        LogLine { level: Level::Error, message: "Failed to watch file.", rate_limit_secs: None }
    }

    fn emit_metrics(&self) -> (counters: Vec<Counter>) {
        let mut counters: Vec<Counter> = Vec::new();
        counters.push(file_counter("file_watch_errors", 1, self.path));
        counters
    }
}

/// A file is watched again, from a known position.
#[derive(Debug)]
pub struct FileResumed<'a> {
    pub path: &'a str,
    pub file_position: u64,
}

impl<'a> InternalEvent for FileResumed<'a> {
    open spec fn line(&self) -> LogModel {
        LogModel { level: Level::Info, message: "Resuming to watch file."@, rate_limit_secs: None }
    }

    open spec fn counts(&self) -> Seq<CounterModel> {
        seq![
            CounterModel { name: "files_resumed"@, value: 1, file: Some(self.path@) },
        ]
    }

    fn emit_logs(&self) -> (log: LogLine) {
        LogLine { level: Level::Info, message: "Resuming to watch file.", rate_limit_secs: None }
    }

    fn emit_metrics(&self) -> (counters: Vec<Counter>) {
        let mut counters: Vec<Counter> = Vec::new();
        counters.push(file_counter("files_resumed", 1, self.path));
        counters
    }
}

/// A new file is watched.
#[derive(Debug)]
pub struct FileAdded<'a> {
    pub path: &'a str,
}

impl<'a> InternalEvent for FileAdded<'a> {
    open spec fn line(&self) -> LogModel {
        LogModel { level: Level::Info, message: "Found new file to watch."@, rate_limit_secs: None }
    }

    open spec fn counts(&self) -> Seq<CounterModel> {
        seq![
            CounterModel { name: "files_added"@, value: 1, file: Some(self.path@) },
        ]
    }

    fn emit_logs(&self) -> (log: LogLine) {
        LogLine { level: Level::Info, message: "Found new file to watch.", rate_limit_secs: None }
    }

    fn emit_metrics(&self) -> (counters: Vec<Counter>) {
        let mut counters: Vec<Counter> = Vec::new();
        counters.push(file_counter("files_added", 1, self.path));
        counters
    }
}

/// The positions of this many files were saved.
#[derive(Debug)]
pub struct FileCheckpointed {
    pub count: usize,
}

impl InternalEvent for FileCheckpointed {
    open spec fn line(&self) -> LogModel {
        LogModel { level: Level::Debug, message: "Files checkpointed."@, rate_limit_secs: None }
    }

    open spec fn counts(&self) -> Seq<CounterModel> {
        seq![
            CounterModel { name: "checkpoints_total"@, value: self.count as u64, file: None },
        ]
    }

    fn emit_logs(&self) -> (log: LogLine) {
        LogLine { level: Level::Debug, message: "Files checkpointed.", rate_limit_secs: None }
    }

    fn emit_metrics(&self) -> (counters: Vec<Counter>) {
        let mut counters: Vec<Counter> = Vec::new();
        counters.push(plain_counter("checkpoints_total", self.count as u64));
        counters
    }
}

/// The positions could not be saved.
#[derive(Debug)]
pub struct FileCheckpointWriteFailed {
    pub error: String,
}

impl InternalEvent for FileCheckpointWriteFailed {
    open spec fn line(&self) -> LogModel {
        LogModel { level: Level::Warn, message: "Failed writing checkpoints."@, rate_limit_secs: None }
    }

    open spec fn counts(&self) -> Seq<CounterModel> {
        seq![
            CounterModel { name: "checkpoint_write_errors_total"@, value: 1, file: None },
        ]
    }

    fn emit_logs(&self) -> (log: LogLine) {
        LogLine { level: Level::Warn, message: "Failed writing checkpoints.", rate_limit_secs: None }
    }

    fn emit_metrics(&self) -> (counters: Vec<Counter>) {
        let mut counters: Vec<Counter> = Vec::new();
        counters.push(plain_counter("checkpoint_write_errors_total", 1));
        counters
    }
}

/// Makes the events that the file source reports.
#[derive(Copy, Clone, Debug, PartialEq, Eq, Structural)]
pub struct FileSourceInternalEventsEmitter;

impl FileSourceInternalEventsEmitter {
    /// A new file is watched.
    pub fn emit_file_added<'a>(&self, path: &'a str) -> (event: FileAdded<'a>)
        ensures
            event.path == path,
    {
        FileAdded { path }
    }

    /// A file is watched again from `file_position`.
    pub fn emit_file_resumed<'a>(&self, path: &'a str, file_position: u64) -> (event: FileResumed<
        'a,
    >)
        ensures
            event.path == path,
            event.file_position == file_position,
    {
        FileResumed { path, file_position }
    }

    /// A file could not be watched.
    pub fn emit_file_watch_failed<'a>(&self, path: &'a str, error: String) -> (event:
        FileWatchFailed<'a>)
        ensures
            event.path == path,
            event.error == error,
    {
        FileWatchFailed { path, error }
    }

    /// A file is no longer watched.
    pub fn emit_file_unwatched<'a>(&self, path: &'a str) -> (event: FileUnwatched<'a>)
        ensures
            event.path == path,
    {
        FileUnwatched { path }
    }

    /// A file was deleted.
    pub fn emit_file_deleted<'a>(&self, path: &'a str) -> (event: FileDeleted<'a>)
        ensures
            event.path == path,
    {
        FileDeleted { path }
    }

    /// A file could not be deleted.
    pub fn emit_file_delete_failed<'a>(&self, path: &'a str, error: String) -> (event:
        FileDeleteFailed<'a>)
        ensures
            event.path == path,
            event.error == error,
    {
        FileDeleteFailed { path, error }
    }

    /// A file could not be read for fingerprinting.
    pub fn emit_file_fingerprint_read_failed<'a>(&self, path: &'a str, error: String) -> (event:
        FileFingerprintReadFailed<'a>)
        ensures
            event.path == path,
            event.error == error,
    {
        FileFingerprintReadFailed { path, error }
    }

    /// A file is too small to be fingerprinted.
    pub fn emit_file_checksum_failed<'a>(&self, path: &'a str) -> (event: FileChecksumFailed<'a>)
        ensures
            event.path == path,
    {
        FileChecksumFailed { path }
    }

    /// The positions of `count` files were saved.
    pub fn emit_file_checkpointed(&self, count: usize) -> (event: FileCheckpointed)
        ensures
            event.count == count,
    {
        FileCheckpointed { count }
    }

    /// The positions could not be saved.
    pub fn emit_file_checkpoint_write_failed(&self, error: String) -> (event:
        FileCheckpointWriteFailed)
        ensures
            event.error == error,
    {
        FileCheckpointWriteFailed { error }
    }
}

} // verus!
