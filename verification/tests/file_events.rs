use s3_ingest::file_events::{
    Counter, FileAdded, FileCheckpointWriteFailed, FileCheckpointed, FileChecksumFailed,
    FileDeleteFailed, FileDeleted, FileEventReceived, FileFingerprintReadFailed, FileResumed,
    FileSourceInternalEventsEmitter, FileUnwatched, FileWatchFailed, InternalEvent, Level,
    LogLine,
};

fn line(level: Level, message: &'static str) -> LogLine {
    LogLine {
        level,
        message,
        rate_limit_secs: None,
    }
}

fn about(name: &'static str, value: u64, file: &str) -> Counter {
    Counter {
        name,
        value,
        file: Some(file.to_string()),
    }
}

#[test]
fn event_received_counts_events_and_bytes() {
    let event = FileEventReceived {
        file: "/var/log/a.log",
        byte_size: 42,
    };
    assert_eq!(event.emit_logs(), line(Level::Trace, "Received one event."));
    assert_eq!(
        event.emit_metrics(),
        vec![
            about("events_processed_total", 1, "/var/log/a.log"),
            about("processed_bytes_total", 42, "/var/log/a.log"),
        ]
    );
}

#[test]
fn failures_are_logged_and_counted() {
    let emitter = FileSourceInternalEventsEmitter;
    let event: FileChecksumFailed = emitter.emit_file_checksum_failed("a");
    assert_eq!(
        event.emit_logs(),
        line(Level::Warn, "Currently ignoring file too small to fingerprint.")
    );
    assert_eq!(event.emit_metrics(), vec![about("checksum_errors", 1, "a")]);

    let event: FileFingerprintReadFailed =
        emitter.emit_file_fingerprint_read_failed("b", "denied".to_string());
    assert_eq!(event.error, "denied");
    assert_eq!(
        event.emit_logs(),
        line(Level::Error, "Failed reading file for fingerprinting.")
    );
    assert_eq!(event.emit_metrics(), vec![about("fingerprint_read_errors", 1, "b")]);

    let event: FileDeleteFailed = emitter.emit_file_delete_failed("c", "busy".to_string());
    assert_eq!(
        event.emit_logs(),
        LogLine {
            level: Level::Warn,
            message: "Failed in deleting file.",
            rate_limit_secs: Some(1),
        }
    );
    assert_eq!(event.emit_metrics(), vec![about("file_delete_errors", 1, "c")]);

    let event: FileWatchFailed = emitter.emit_file_watch_failed("d", "gone".to_string());
    assert_eq!(event.emit_logs(), line(Level::Error, "Failed to watch file."));
    assert_eq!(event.emit_metrics(), vec![about("file_watch_errors", 1, "d")]);

    let event: FileCheckpointWriteFailed =
        emitter.emit_file_checkpoint_write_failed("disk full".to_string());
    assert_eq!(event.error, "disk full");
    assert_eq!(event.emit_logs(), line(Level::Warn, "Failed writing checkpoints."));
    assert_eq!(
        event.emit_metrics(),
        vec![Counter {
            name: "checkpoint_write_errors_total",
            value: 1,
            file: None,
        }]
    );
}

#[test]
fn life_of_a_file_is_logged_and_counted() {
    let emitter = FileSourceInternalEventsEmitter;
    let event: FileAdded = emitter.emit_file_added("a");
    assert_eq!(event.emit_logs(), line(Level::Info, "Found new file to watch."));
    assert_eq!(event.emit_metrics(), vec![about("files_added", 1, "a")]);

    let event: FileResumed = emitter.emit_file_resumed("a", 77);
    assert_eq!(event.file_position, 77);
    assert_eq!(event.emit_logs(), line(Level::Info, "Resuming to watch file."));
    assert_eq!(event.emit_metrics(), vec![about("files_resumed", 1, "a")]);

    let event: FileUnwatched = emitter.emit_file_unwatched("a");
    assert_eq!(event.emit_logs(), line(Level::Info, "Stopped watching file."));
    assert_eq!(event.emit_metrics(), vec![about("files_unwatched", 1, "a")]);

    let event: FileDeleted = emitter.emit_file_deleted("a");
    assert_eq!(event.emit_logs(), line(Level::Info, "File deleted."));
    assert_eq!(event.emit_metrics(), vec![about("files_deleted", 1, "a")]);
}

#[test]
fn checkpoints_count_the_files_saved() {
    let event: FileCheckpointed = FileSourceInternalEventsEmitter.emit_file_checkpointed(12);
    assert_eq!(event.count, 12);
    assert_eq!(event.emit_logs(), line(Level::Debug, "Files checkpointed."));
    assert_eq!(
        event.emit_metrics(),
        vec![Counter {
            name: "checkpoints_total",
            value: 12,
            file: None,
        }]
    );
}
