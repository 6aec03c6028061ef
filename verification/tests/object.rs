use s3_ingest::multiline::{AggregatorConfig, Mode, MultilineConfig};
use s3_ingest::object::{BodyAction, BodyEvent, Ingestion};
use s3_ingest::record::{Origin, Record};

fn origin() -> Origin {
    Origin {
        bucket: "B".to_string(),
        object: "out.log".to_string(),
        region: "us-east-1".to_string(),
        metadata: None,
    }
}

fn multiline(timeout_ms: u64) -> AggregatorConfig {
    MultilineConfig {
        start_pattern: "^start".to_string(),
        condition_pattern: "^end".to_string(),
        mode: Mode::HaltWith,
        timeout_ms,
    }
    .compile()
    .unwrap()
}

fn piece(text: &str) -> BodyEvent {
    BodyEvent::Piece {
        bytes: text.as_bytes().to_vec(),
    }
}

fn forwarded(action: BodyAction) -> Vec<String> {
    match action {
        BodyAction::Forward { records } => records
            .iter()
            .map(|r: &Record| String::from_utf8(r.message.clone()).unwrap())
            .collect(),
        other => panic!("unexpected: {:?}", other),
    }
}

fn assert_reads(action: BodyAction, limit: Option<u64>) {
    match action {
        BodyAction::Read { timeout_ms } => assert_eq!(timeout_ms, limit),
        other => panic!("unexpected: {:?}", other),
    }
}

fn assert_done(action: BodyAction, read: Option<&str>, sink: Option<&str>) {
    match action {
        BodyAction::Done {
            read_error,
            sink_error,
        } => {
            assert_eq!(read_error.as_deref(), read);
            assert_eq!(sink_error.as_deref(), sink);
        }
        other => panic!("unexpected: {:?}", other),
    }
}

#[test]
fn body_is_read_piece_by_piece_and_forwarded_in_order() {
    let (mut ingestion, first) = Ingestion::new(origin(), None);
    assert_reads(first, None);
    assert_reads(ingestion.handle(piece("on")), None);
    assert_eq!(forwarded(ingestion.handle(piece("e\ntwo\nth"))), vec!["one", "two"]);
    assert_reads(ingestion.handle(BodyEvent::Sent), None);
    assert_eq!(forwarded(ingestion.handle(BodyEvent::End)), vec!["th"]);
    assert!(!ingestion.is_finished());
    assert_done(ingestion.handle(BodyEvent::Sent), None, None);
    assert!(ingestion.is_finished());
    // A finished ingestion says so again, whatever is handed in.
    assert_done(ingestion.handle(piece("late\n")), None, None);
}

#[test]
fn body_without_records_is_done_at_its_end() {
    let (mut ingestion, _) = Ingestion::new(origin(), None);
    assert_done(ingestion.handle(BodyEvent::End), None, None);
}

#[test]
fn read_failure_is_reported_when_the_ingestion_is_done() {
    let (mut ingestion, _) = Ingestion::new(origin(), None);
    assert_eq!(forwarded(ingestion.handle(piece("one\ntw"))), vec!["one"]);
    assert_reads(ingestion.handle(BodyEvent::Sent), None);
    let action = ingestion.handle(BodyEvent::ReadFailed {
        reason: "reset".to_string(),
    });
    assert_done(action, Some("reset"), None);
}

#[test]
fn sink_refusal_ends_the_ingestion_at_once() {
    let (mut ingestion, _) = Ingestion::new(origin(), None);
    assert_eq!(forwarded(ingestion.handle(piece("one\n"))), vec!["one"]);
    let action = ingestion.handle(BodyEvent::SinkFailed {
        reason: "closed".to_string(),
    });
    assert_done(action, None, Some("closed"));
    assert!(ingestion.is_finished());
    assert_done(ingestion.handle(BodyEvent::End), None, Some("closed"));
}

#[test]
fn sink_refusal_of_the_last_records_is_reported() {
    let (mut ingestion, _) = Ingestion::new(origin(), None);
    assert_reads(ingestion.handle(piece("one")), None);
    assert_eq!(forwarded(ingestion.handle(BodyEvent::End)), vec!["one"]);
    let action = ingestion.handle(BodyEvent::SinkFailed {
        reason: "full".to_string(),
    });
    assert_done(action, None, Some("full"));
}

#[test]
fn reads_are_limited_while_an_aggregate_is_open() {
    let config = multiline(250);
    let (mut ingestion, first) = Ingestion::new(origin(), Some(&config));
    assert_reads(first, None);
    assert_eq!(forwarded(ingestion.handle(piece("loose\n"))), vec!["loose"]);
    assert_reads(ingestion.handle(BodyEvent::Sent), None);
    assert_reads(ingestion.handle(piece("start\nmore\n")), Some(250));
    assert_eq!(forwarded(ingestion.handle(BodyEvent::TimedOut)), vec!["start\nmore"]);
    assert_reads(ingestion.handle(BodyEvent::Sent), None);
    assert_reads(ingestion.handle(piece("start\n")), Some(250));
    assert_eq!(forwarded(ingestion.handle(piece("end\n"))), vec!["start\nend"]);
    assert_reads(ingestion.handle(BodyEvent::Sent), None);
    assert_done(ingestion.handle(BodyEvent::End), None, None);
}

#[test]
fn read_failure_hands_out_the_open_aggregate_first() {
    let config = multiline(250);
    let (mut ingestion, _) = Ingestion::new(origin(), Some(&config));
    assert_reads(ingestion.handle(piece("start\nhalf")), Some(250));
    let action = ingestion.handle(BodyEvent::ReadFailed {
        reason: "reset".to_string(),
    });
    assert_eq!(forwarded(action), vec!["start"]);
    assert_done(ingestion.handle(BodyEvent::Sent), Some("reset"), None);
}

#[test]
fn event_that_the_stage_does_not_wait_for_is_rejected() {
    let (mut ingestion, _) = Ingestion::new(origin(), None);
    assert!(matches!(ingestion.handle(BodyEvent::Sent), BodyAction::Rejected));
    assert_eq!(forwarded(ingestion.handle(piece("a\n"))), vec!["a"]);
    assert!(matches!(ingestion.handle(piece("b\n")), BodyAction::Rejected));
    assert!(matches!(ingestion.handle(BodyEvent::TimedOut), BodyAction::Rejected));
    assert_reads(ingestion.handle(BodyEvent::Sent), None);
    assert_eq!(forwarded(ingestion.handle(piece("b\n"))), vec!["b"]);
}

#[test]
fn timeout_with_nothing_open_reads_on() {
    let (mut ingestion, _) = Ingestion::new(origin(), None);
    assert_reads(ingestion.handle(piece("half")), None);
    assert_reads(ingestion.handle(BodyEvent::TimedOut), None);
    assert_eq!(forwarded(ingestion.handle(BodyEvent::End)), vec!["half"]);
}
