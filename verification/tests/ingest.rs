use s3_ingest::compression::Compression;
use s3_ingest::config::{QueueUrlResponse, SqsConfig, SqsIngestor};
use s3_ingest::ingest::{
    Action, Event, InvalidBody, Phase, Poller, ProcessingError, Report, SqsMessage, Step,
    MAX_MESSAGES,
};
use s3_ingest::notification::{S3Bucket, S3Event, S3EventName, S3EventRecord, S3Message, S3Object};
use s3_ingest::pipeline::ObjectPipeline;
use s3_ingest::record::{Origin, Record};

const QUEUE: &str = "https://sqs.us-east-1.amazonaws.com/1/q";

fn ingestor(delete_message: bool, compression: Compression) -> SqsIngestor {
    SqsIngestor::new(
        "us-east-1".to_string(),
        QueueUrlResponse::Answered {
            queue_url: Some(QUEUE.to_string()),
        },
        SqsConfig {
            region: "us-east-1".to_string(),
            queue_name: "q".to_string(),
            poll_secs: 1,
            visibility_timeout_secs: 300,
            delete_message,
        },
        compression,
        None,
    )
    .unwrap()
}

fn message(id: &str, handle: Option<&str>) -> SqsMessage {
    SqsMessage {
        message_id: Some(id.to_string()),
        receipt_handle: handle.map(|h| h.to_string()),
        body: Some(format!("body of {}", id)),
    }
}

fn record(event_name: &str, region: &str, key: &str) -> S3EventRecord {
    S3EventRecord {
        event_version: "2.1".to_string(),
        event_source: "aws:s3".to_string(),
        aws_region: region.to_string(),
        event_name: S3EventName::parse(event_name).unwrap(),
        s3: S3Message {
            bucket: S3Bucket {
                name: "B".to_string(),
            },
            object: S3Object {
                key: key.to_string(),
            },
        },
    }
}

fn parsed(records: Vec<S3EventRecord>) -> Event {
    Event::Parsed {
        notification: S3Event { records },
    }
}

fn body(content_encoding: Option<&str>, content_type: Option<&str>) -> Event {
    Event::ObjectBody {
        content_encoding: content_encoding.map(|s| s.to_string()),
        content_type: content_type.map(|s| s.to_string()),
        metadata: None,
    }
}

fn clean() -> Event {
    Event::Ingested {
        read_error: None,
        sink_error: None,
    }
}

fn quiet(action: Action) -> Step {
    Step {
        action,
        reports: vec![],
    }
}

fn origin(key: &str) -> Origin {
    Origin {
        bucket: "B".to_string(),
        object: key.to_string(),
        region: "us-east-1".to_string(),
        metadata: None,
    }
}

fn delete(handle: &str) -> Action {
    Action::Delete {
        queue_url: QUEUE.to_string(),
        receipt_handle: handle.to_string(),
    }
}

fn get_object(key: &str) -> Action {
    Action::GetObject {
        bucket: "B".to_string(),
        key: key.to_string(),
    }
}

fn parse(id: &str) -> Action {
    Action::Parse {
        body: format!("body of {}", id),
    }
}

/// Brings a fresh loop to the point where the first message is being parsed.
fn receive(ingestor: &SqsIngestor, messages: Vec<SqsMessage>) -> (Poller, Step) {
    let mut poller = Poller::new();
    assert_eq!(poller.phase(), Phase::Idle);
    assert_eq!(
        ingestor.handle(&mut poller, Event::Tick),
        quiet(Action::Receive {
            queue_url: QUEUE.to_string(),
            max_messages: 10,
            visibility_timeout: 300,
        })
    );
    assert_eq!(poller.phase(), Phase::Polling);
    let step = ingestor.handle(&mut poller, Event::Received { messages });
    (poller, step)
}

fn ten_lines() -> Vec<String> {
    (1..=10).map(|i| format!("L{} some text", i)).collect()
}

/// Runs the decoded body through the pipeline that an `Ingest` asks for.
fn ingest(step: Step, decoded: &[u8]) -> (Compression, Vec<Record>) {
    match step {
        Step {
            action: Action::Ingest { compression, origin },
            reports,
        } => {
            assert!(reports.is_empty());
            let mut pipeline = ObjectPipeline::new(origin, None);
            let mut records = pipeline.push(decoded);
            records.extend(pipeline.finish());
            assert_eq!(pipeline.error(), None);
            (compression, records)
        }
        other => panic!("unexpected: {:?}", other),
    }
}

fn assert_ten_records(records: &[Record], key: &str) {
    let lines = ten_lines();
    assert_eq!(records.len(), 10);
    for (i, record) in records.iter().enumerate() {
        assert_eq!(record.message, lines[i].as_bytes());
        assert_eq!(record.fields.get("bucket"), Some("B"));
        assert_eq!(record.fields.get("object"), Some(key));
        assert_eq!(record.fields.get("region"), Some("us-east-1"));
    }
}

fn ingest_one_object(key: &str, content_encoding: Option<&str>, expected: Compression) {
    let ingestor = ingestor(true, Compression::Auto);
    let (mut poller, step) = receive(&ingestor, vec![message("m1", Some("h1"))]);
    assert_eq!(step, quiet(parse("m1")));
    assert_eq!(poller.phase(), Phase::Parsing);
    let step = ingestor.handle(
        &mut poller,
        parsed(vec![record("ObjectCreated:Put", "us-east-1", key)]),
    );
    assert_eq!(step, quiet(get_object(key)));
    assert_eq!(poller.phase(), Phase::Fetching);
    let step = ingestor.handle(&mut poller, body(content_encoding, None));
    assert_eq!(poller.phase(), Phase::Ingesting);
    let (compression, records) = ingest(step, ten_lines().join("\n").as_bytes());
    assert_eq!(compression, expected);
    assert_ten_records(&records, key);
    assert_eq!(ingestor.handle(&mut poller, clean()), quiet(delete("h1")));
    assert_eq!(poller.phase(), Phase::Deleting);
    assert_eq!(
        ingestor.handle(&mut poller, Event::Deleted),
        quiet(Action::Wait)
    );
    assert_eq!(poller.phase(), Phase::Idle);
}

#[test]
fn plain_object_is_ingested_and_the_message_deleted() {
    ingest_one_object("out.log", None, Compression::Uncompressed);
}

#[test]
fn gzip_is_detected_from_the_content_encoding() {
    ingest_one_object("out", Some("gzip"), Compression::Gzip);
}

#[test]
fn gzip_is_detected_from_the_extension() {
    ingest_one_object("out.log.gz", None, Compression::Gzip);
}

#[test]
fn wrong_region_abandons_the_message() {
    let ingestor = ingestor(true, Compression::Auto);
    let (mut poller, _) = receive(&ingestor, vec![message("m1", Some("h1"))]);
    let step = ingestor.handle(
        &mut poller,
        parsed(vec![record("ObjectCreated:Put", "eu-west-1", "out.log")]),
    );
    assert_eq!(
        step,
        Step {
            action: Action::Wait,
            reports: vec![Report::Failed(ProcessingError::WrongRegion {
                region: "eu-west-1".to_string(),
                bucket: "B".to_string(),
                key: "out.log".to_string(),
            })],
        }
    );
    assert_eq!(poller.phase(), Phase::Idle);
}

#[test]
fn other_events_are_passed_over_and_the_message_deleted() {
    let ingestor = ingestor(true, Compression::Auto);
    let (mut poller, _) = receive(&ingestor, vec![message("m1", Some("h1"))]);
    let step = ingestor.handle(
        &mut poller,
        parsed(vec![record("ObjectRemoved:Delete", "us-east-1", "out.log")]),
    );
    assert_eq!(step, quiet(delete("h1")));
}

#[test]
fn other_events_from_another_region_are_passed_over_too() {
    let ingestor = ingestor(true, Compression::Auto);
    let (mut poller, _) = receive(&ingestor, vec![message("m1", Some("h1"))]);
    let step = ingestor.handle(
        &mut poller,
        parsed(vec![record("ObjectRemoved:Delete", "eu-west-1", "out.log")]),
    );
    assert_eq!(step, quiet(delete("h1")));
}

#[test]
fn empty_notification_is_done_at_once() {
    let ingestor = ingestor(true, Compression::Auto);
    let (mut poller, _) = receive(&ingestor, vec![message("m1", Some("h1"))]);
    assert_eq!(ingestor.handle(&mut poller, parsed(vec![])), quiet(delete("h1")));
}

#[test]
fn nothing_is_deleted_unless_configured() {
    let ingestor = ingestor(false, Compression::Auto);
    let (mut poller, _) = receive(
        &ingestor,
        vec![message("m1", Some("h1")), message("m2", Some("h2"))],
    );
    let step = ingestor.handle(
        &mut poller,
        parsed(vec![record("ObjectCreated:Put", "us-east-1", "a")]),
    );
    assert_eq!(step, quiet(get_object("a")));
    assert_eq!(ingestor.handle(&mut poller, Event::ObjectEmpty), quiet(parse("m2")));
    assert_eq!(ingestor.handle(&mut poller, parsed(vec![])), quiet(Action::Wait));
    assert_eq!(poller.phase(), Phase::Idle);
}

#[test]
fn message_without_receipt_handle_is_skipped() {
    let ingestor = ingestor(true, Compression::Auto);
    let (mut poller, step) = receive(
        &ingestor,
        vec![message("m1", None), message("m2", Some("h2")), message("m3", None)],
    );
    assert_eq!(
        step,
        Step {
            action: parse("m2"),
            reports: vec![Report::NoReceiptHandle {
                message_id: Some("m1".to_string())
            }],
        }
    );
    assert_eq!(ingestor.handle(&mut poller, parsed(vec![])), quiet(delete("h2")));
    assert_eq!(
        ingestor.handle(&mut poller, Event::Deleted),
        Step {
            action: Action::Wait,
            reports: vec![Report::NoReceiptHandle {
                message_id: Some("m3".to_string())
            }],
        }
    );
}

#[test]
fn message_without_body_is_invalid() {
    let ingestor = ingestor(true, Compression::Auto);
    let (poller, step) = receive(
        &ingestor,
        vec![SqsMessage {
            message_id: None,
            receipt_handle: Some("h".to_string()),
            body: None,
        }],
    );
    assert_eq!(
        step,
        Step {
            action: Action::Wait,
            reports: vec![Report::Failed(ProcessingError::InvalidSqsMessage {
                cause: InvalidBody::Missing,
                message_id: None,
            })],
        }
    );
    assert_eq!(poller.phase(), Phase::Idle);
}

#[test]
fn body_that_cannot_be_parsed_abandons_the_message() {
    let ingestor = ingestor(true, Compression::Auto);
    let (mut poller, _) = receive(
        &ingestor,
        vec![message("m1", Some("h1")), message("m2", Some("h2"))],
    );
    let step = ingestor.handle(
        &mut poller,
        Event::ParseFailed {
            reason: "expected value at line 1 column 1".to_string(),
        },
    );
    assert_eq!(
        step,
        Step {
            action: parse("m2"),
            reports: vec![Report::Failed(ProcessingError::InvalidSqsMessage {
                cause: InvalidBody::Malformed {
                    reason: "expected value at line 1 column 1".to_string()
                },
                message_id: Some("m1".to_string()),
            })],
        }
    );
}

#[test]
fn failed_fetch_abandons_the_message() {
    let ingestor = ingestor(true, Compression::Auto);
    let (mut poller, _) = receive(&ingestor, vec![message("m1", Some("h1"))]);
    ingestor.handle(
        &mut poller,
        parsed(vec![
            record("ObjectCreated:Put", "us-east-1", "a"),
            record("ObjectCreated:Put", "us-east-1", "b"),
        ]),
    );
    let step = ingestor.handle(
        &mut poller,
        Event::ObjectFailed {
            reason: "NoSuchKey".to_string(),
        },
    );
    assert_eq!(
        step,
        Step {
            action: Action::Wait,
            reports: vec![Report::Failed(ProcessingError::GetObject {
                reason: "NoSuchKey".to_string(),
                bucket: "B".to_string(),
                key: "a".to_string(),
            })],
        }
    );
}

#[test]
fn read_error_abandons_the_message_and_redelivery_deletes_it() {
    let ingestor = ingestor(true, Compression::Auto);
    let records = || {
        parsed(vec![
            record("ObjectCreated:Put", "us-east-1", "a"),
            record("ObjectCreated:Copy", "us-east-1", "b"),
        ])
    };
    // First delivery: the second object cannot be read to its end.
    let (mut poller, _) = receive(&ingestor, vec![message("m1", Some("h1"))]);
    assert_eq!(ingestor.handle(&mut poller, records()), quiet(get_object("a")));
    assert_eq!(
        ingestor.handle(&mut poller, body(None, None)),
        quiet(Action::Ingest {
            compression: Compression::Uncompressed,
            origin: origin("a"),
        })
    );
    assert_eq!(ingestor.handle(&mut poller, clean()), quiet(get_object("b")));
    ingestor.handle(&mut poller, body(None, None));
    let step = ingestor.handle(
        &mut poller,
        Event::Ingested {
            read_error: Some("unexpected eof".to_string()),
            sink_error: None,
        },
    );
    assert_eq!(
        step,
        Step {
            action: Action::Wait,
            reports: vec![Report::Failed(ProcessingError::ReadObject {
                error: "unexpected eof".to_string(),
                bucket: "B".to_string(),
                key: "b".to_string(),
            })],
        }
    );
    assert_eq!(poller.phase(), Phase::Idle);
    // Second delivery of the same message, with a new receipt handle: both
    // objects are fetched again, and a clean pass deletes the message.
    ingestor.handle(&mut poller, Event::Tick);
    let step = ingestor.handle(
        &mut poller,
        Event::Received {
            messages: vec![message("m1", Some("h1-again"))],
        },
    );
    assert_eq!(step, quiet(parse("m1")));
    assert_eq!(ingestor.handle(&mut poller, records()), quiet(get_object("a")));
    ingestor.handle(&mut poller, body(None, None));
    assert_eq!(ingestor.handle(&mut poller, clean()), quiet(get_object("b")));
    ingestor.handle(&mut poller, body(None, None));
    assert_eq!(ingestor.handle(&mut poller, clean()), quiet(delete("h1-again")));
}

#[test]
fn sink_failure_abandons_the_message() {
    let ingestor = ingestor(true, Compression::Auto);
    let (mut poller, _) = receive(&ingestor, vec![message("m1", Some("h1"))]);
    ingestor.handle(
        &mut poller,
        parsed(vec![record("ObjectCreated:Put", "us-east-1", "a")]),
    );
    ingestor.handle(&mut poller, body(None, None));
    let step = ingestor.handle(
        &mut poller,
        Event::Ingested {
            read_error: Some("also broken".to_string()),
            sink_error: Some("closed".to_string()),
        },
    );
    assert_eq!(
        step,
        Step {
            action: Action::Wait,
            reports: vec![Report::Failed(ProcessingError::SinkSendFailed {
                reason: "closed".to_string(),
                bucket: "B".to_string(),
                key: "a".to_string(),
            })],
        }
    );
}

#[test]
fn failed_receive_and_failed_delete_are_reported_and_the_loop_goes_on() {
    let ingestor = ingestor(true, Compression::Auto);
    let mut poller = Poller::new();
    ingestor.handle(&mut poller, Event::Tick);
    let step = ingestor.handle(
        &mut poller,
        Event::ReceiveFailed {
            reason: "throttled".to_string(),
        },
    );
    assert_eq!(
        step,
        Step {
            action: Action::Wait,
            reports: vec![Report::ReceiveFailed {
                reason: "throttled".to_string()
            }],
        }
    );
    assert_eq!(poller.phase(), Phase::Idle);

    let (mut poller, _) = receive(
        &ingestor,
        vec![message("m1", Some("h1")), message("m2", Some("h2"))],
    );
    assert_eq!(ingestor.handle(&mut poller, parsed(vec![])), quiet(delete("h1")));
    let step = ingestor.handle(
        &mut poller,
        Event::DeleteFailed {
            reason: "expired".to_string(),
        },
    );
    assert_eq!(
        step,
        Step {
            action: parse("m2"),
            reports: vec![Report::DeleteFailed {
                reason: "expired".to_string()
            }],
        }
    );
}

#[test]
fn messages_are_processed_in_the_order_received() {
    let ingestor = ingestor(true, Compression::Auto);
    let (mut poller, step) = receive(
        &ingestor,
        vec![
            message("m1", Some("h1")),
            message("m2", Some("h2")),
            message("m3", Some("h3")),
        ],
    );
    assert_eq!(step, quiet(parse("m1")));
    assert_eq!(ingestor.handle(&mut poller, parsed(vec![])), quiet(delete("h1")));
    assert_eq!(ingestor.handle(&mut poller, Event::Deleted), quiet(parse("m2")));
    assert_eq!(ingestor.handle(&mut poller, parsed(vec![])), quiet(delete("h2")));
    assert_eq!(ingestor.handle(&mut poller, Event::Deleted), quiet(parse("m3")));
    assert_eq!(ingestor.handle(&mut poller, parsed(vec![])), quiet(delete("h3")));
    assert_eq!(ingestor.handle(&mut poller, Event::Deleted), quiet(Action::Wait));
}

#[test]
fn empty_receive_goes_back_to_waiting() {
    let ingestor = ingestor(true, Compression::Auto);
    let (poller, step) = receive(&ingestor, vec![]);
    assert_eq!(step, quiet(Action::Wait));
    assert_eq!(poller.phase(), Phase::Idle);
}

#[test]
fn shutdown_stops_the_loop_from_every_state() {
    let ingestor = ingestor(true, Compression::Auto);
    // Idle.
    let mut poller = Poller::new();
    assert_eq!(ingestor.handle(&mut poller, Event::Shutdown), quiet(Action::Stop));
    assert!(poller.is_stopped());
    // Polling.
    let mut poller = Poller::new();
    ingestor.handle(&mut poller, Event::Tick);
    assert_eq!(ingestor.handle(&mut poller, Event::Shutdown), quiet(Action::Stop));
    assert!(poller.is_stopped());
    // In the middle of a message: nothing is deleted.
    let (mut poller, _) = receive(&ingestor, vec![message("m1", Some("h1"))]);
    ingestor.handle(
        &mut poller,
        parsed(vec![record("ObjectCreated:Put", "us-east-1", "a")]),
    );
    ingestor.handle(&mut poller, body(None, None));
    assert_eq!(poller.phase(), Phase::Ingesting);
    assert_eq!(ingestor.handle(&mut poller, Event::Shutdown), quiet(Action::Stop));
    assert!(poller.is_stopped());
    // Stopped stays stopped.
    assert_eq!(ingestor.handle(&mut poller, Event::Tick), quiet(Action::Stop));
    assert_eq!(ingestor.handle(&mut poller, clean()), quiet(Action::Stop));
    assert!(poller.is_stopped());
}

#[test]
fn event_that_the_state_does_not_wait_for_is_rejected() {
    let ingestor = ingestor(true, Compression::Auto);
    let mut poller = Poller::new();
    assert_eq!(ingestor.handle(&mut poller, Event::Deleted), quiet(Action::Rejected));
    assert_eq!(poller.phase(), Phase::Idle);
    ingestor.handle(&mut poller, Event::Tick);
    assert_eq!(ingestor.handle(&mut poller, Event::Tick), quiet(Action::Rejected));
    assert_eq!(poller.phase(), Phase::Polling);
    let (mut poller, _) = receive(&ingestor, vec![message("m1", Some("h1"))]);
    assert_eq!(ingestor.handle(&mut poller, clean()), quiet(Action::Rejected));
    assert_eq!(poller.phase(), Phase::Parsing);
    // The outcome that is owed is still taken.
    assert_eq!(ingestor.handle(&mut poller, parsed(vec![])), quiet(delete("h1")));
}

#[test]
fn configured_compression_is_not_second_guessed() {
    let ingestor = ingestor(true, Compression::Zstd);
    let (mut poller, _) = receive(&ingestor, vec![message("m1", Some("h1"))]);
    ingestor.handle(
        &mut poller,
        parsed(vec![record("ObjectCreated:Put", "us-east-1", "a.gz")]),
    );
    assert_eq!(
        ingestor.handle(&mut poller, body(Some("gzip"), Some("application/gzip"))),
        quiet(Action::Ingest {
            compression: Compression::Zstd,
            origin: origin("a.gz"),
        })
    );
}

#[test]
fn user_metadata_travels_with_the_origin() {
    let ingestor = ingestor(true, Compression::Auto);
    let (mut poller, _) = receive(&ingestor, vec![message("m1", Some("h1"))]);
    ingestor.handle(
        &mut poller,
        parsed(vec![record("ObjectCreated:Put", "us-east-1", "a")]),
    );
    let step = ingestor.handle(
        &mut poller,
        Event::ObjectBody {
            content_encoding: None,
            content_type: Some("application/zstd".to_string()),
            metadata: Some(vec![("owner".to_string(), "me".to_string())]),
        },
    );
    match step.action {
        Action::Ingest { compression, origin } => {
            assert_eq!(compression, Compression::Zstd);
            let record = origin.enrich(b"x".to_vec());
            assert_eq!(record.fields.get("owner"), Some("me"));
            assert_eq!(record.fields.get("object"), Some("a"));
        }
        other => panic!("unexpected: {:?}", other),
    }
}

#[test]
fn receive_asks_for_ten_messages_at_most() {
    assert_eq!(MAX_MESSAGES, 10);
}
