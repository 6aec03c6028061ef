use s3_ingest::lines::split;
use s3_ingest::multiline::{AggregatorConfig, Mode, MultilineConfig};
use s3_ingest::pipeline::ObjectPipeline;
use s3_ingest::record::{Origin, Record};

fn origin() -> Origin {
    Origin {
        bucket: "B".to_string(),
        object: "out.log".to_string(),
        region: "us-east-1".to_string(),
        metadata: None,
    }
}

fn multiline(start: &str, condition: &str, mode: Mode) -> AggregatorConfig {
    MultilineConfig {
        start_pattern: start.to_string(),
        condition_pattern: condition.to_string(),
        mode,
        timeout_ms: 1000,
    }
    .compile()
    .unwrap()
}

fn messages(records: &[Record]) -> Vec<String> {
    records
        .iter()
        .map(|r| String::from_utf8(r.message.clone()).unwrap())
        .collect()
}

#[test]
fn records_are_the_lines_of_the_body_in_file_order() {
    let body: Vec<u8> = (1..=10)
        .map(|i| format!("line number {}", i))
        .collect::<Vec<_>>()
        .join("\n")
        .into_bytes();
    for piece_len in [1, 3, 7, 64, body.len()] {
        let mut pipeline = ObjectPipeline::new(origin(), None);
        let mut records = Vec::new();
        for piece in body.chunks(piece_len) {
            records.extend(pipeline.push(piece));
        }
        records.extend(pipeline.finish());
        assert_eq!(records.len(), 10);
        let got: Vec<Vec<u8>> = records.iter().map(|r| r.message.clone()).collect();
        assert_eq!(got, split(&body));
        for (i, record) in records.iter().enumerate() {
            assert_eq!(record.message, format!("line number {}", i + 1).into_bytes());
            assert_eq!(record.fields.get("bucket"), Some("B"));
            assert_eq!(record.fields.get("object"), Some("out.log"));
            assert_eq!(record.fields.get("region"), Some("us-east-1"));
        }
        assert_eq!(pipeline.error(), None);
        assert!(!pipeline.is_reading());
    }
}

#[test]
fn read_error_ends_the_records_and_is_kept() {
    let mut pipeline = ObjectPipeline::new(origin(), None);
    let records = pipeline.push(b"one\ntwo\nthr");
    assert_eq!(messages(&records), vec!["one", "two"]);
    assert!(pipeline.fail("unexpected end of file".to_string()).is_none());
    assert_eq!(pipeline.error(), Some("unexpected end of file".to_string()));
    assert!(pipeline.push(b"ee\n").is_empty());
    assert!(pipeline.finish().is_empty());
    assert_eq!(pipeline.error(), Some("unexpected end of file".to_string()));
}

#[test]
fn multiline_continue_through_over_a_body() {
    let config = multiline("abc", "def", Mode::ContinueThrough);
    let mut pipeline = ObjectPipeline::new(origin(), Some(&config));
    let mut records = pipeline.push(b"abc\ndef\ngeh");
    assert!(records.is_empty());
    assert!(pipeline.has_open_aggregate());
    records.extend(pipeline.finish());
    assert_eq!(messages(&records), vec!["abc\ndef", "geh"]);
    assert!(!pipeline.has_open_aggregate());
}

#[test]
fn multiline_records_spell_out_the_lines() {
    let body = b"1 a\nb\nc\n2 d\ne\n";
    let config = multiline("^\\d", "^\\d", Mode::HaltBefore);
    let mut pipeline = ObjectPipeline::new(origin(), Some(&config));
    let mut records = pipeline.push(body);
    records.extend(pipeline.finish());
    assert_eq!(messages(&records), vec!["1 a\nb\nc", "2 d\ne"]);
    let spelled: Vec<u8> = records
        .iter()
        .flat_map(|r| r.message.iter().copied().chain(std::iter::once(b'\n')))
        .collect();
    assert_eq!(spelled, body.to_vec());
}

#[test]
fn timeout_hands_out_the_open_aggregate() {
    let config = multiline("^start", "^never$", Mode::HaltWith);
    let mut pipeline = ObjectPipeline::new(origin(), Some(&config));
    assert!(pipeline.push(b"start\nmore\n").is_empty());
    assert!(pipeline.has_open_aggregate());
    let record = pipeline.timeout().unwrap();
    assert_eq!(record.message, b"start\nmore".to_vec());
    assert_eq!(record.fields.get("bucket"), Some("B"));
    assert!(!pipeline.has_open_aggregate());
    assert!(pipeline.timeout().is_none());
    assert!(pipeline.is_reading());
    let records = pipeline.push(b"loose\n");
    assert_eq!(messages(&records), vec!["loose"]);
}

#[test]
fn timeout_without_aggregation_hands_out_nothing() {
    let mut pipeline = ObjectPipeline::new(origin(), None);
    assert!(pipeline.push(b"half a line").is_empty());
    assert!(!pipeline.has_open_aggregate());
    assert!(pipeline.timeout().is_none());
    assert_eq!(messages(&pipeline.finish()), vec!["half a line"]);
}

#[test]
fn read_error_hands_out_the_open_aggregate_but_not_the_open_line() {
    let config = multiline("^start", "^never$", Mode::HaltWith);
    let mut pipeline = ObjectPipeline::new(origin(), Some(&config));
    assert!(pipeline.push(b"start\nmore\nhalf").is_empty());
    let record = pipeline.fail("broken".to_string()).unwrap();
    assert_eq!(record.message, b"start\nmore".to_vec());
    assert_eq!(pipeline.error(), Some("broken".to_string()));
    assert!(pipeline.finish().is_empty());
}

#[test]
fn empty_body_gives_no_record() {
    let mut pipeline = ObjectPipeline::new(origin(), None);
    assert!(pipeline.push(b"").is_empty());
    assert!(pipeline.finish().is_empty());
}
