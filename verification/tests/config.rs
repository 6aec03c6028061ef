use s3_ingest::compression::Compression;
use s3_ingest::config::{
    default_poll_interval_secs, default_true, default_visibility_timeout_secs, AwsS3Config,
    CreateSqsIngestorError, QueueUrlResponse, SqsConfig, SqsIngestor, SqsIngestorNewError,
    Strategy,
};
use s3_ingest::multiline::{Mode, MultilineConfig, MultilineConfigError};

fn sqs(visibility_timeout_secs: u64) -> SqsConfig {
    SqsConfig {
        region: "us-east-1".to_string(),
        queue_name: "my-queue".to_string(),
        poll_secs: 1,
        visibility_timeout_secs,
        delete_message: false,
    }
}

fn answered(url: Option<&str>) -> QueueUrlResponse {
    QueueUrlResponse::Answered {
        queue_url: url.map(|u| u.to_string()),
    }
}

#[test]
fn defaults() {
    assert_eq!(default_poll_interval_secs(), 15);
    assert_eq!(default_visibility_timeout_secs(), 300);
    assert!(default_true());
    assert_eq!(Strategy::default(), Strategy::Sqs);
    let config = AwsS3Config::default();
    assert_eq!(config.compression, Compression::Auto);
    assert_eq!(config.strategy, Strategy::Sqs);
    assert!(config.sqs.is_none());
    assert!(config.assume_role.is_none());
    assert!(config.multiline.is_none());
    let sqs = SqsConfig::new("eu-west-1".to_string(), "q".to_string());
    assert_eq!(sqs.region, "eu-west-1");
    assert_eq!(sqs.queue_name, "q");
    assert_eq!(sqs.poll_secs, 15);
    assert_eq!(sqs.visibility_timeout_secs, 300);
    assert!(sqs.delete_message);
}

#[test]
fn sqs_settings_are_required() {
    let mut config = AwsS3Config::default();
    assert!(matches!(
        config.sqs_config(),
        Err(CreateSqsIngestorError::ConfigMissing)
    ));
    config.sqs = Some(sqs(300));
    assert_eq!(config.sqs_config().unwrap().queue_name, "my-queue");
}

#[test]
fn multiline_settings_are_compiled() {
    let mut config = AwsS3Config::default();
    assert!(config.compile_multiline().unwrap().is_none());
    config.multiline = Some(MultilineConfig {
        start_pattern: "^a".to_string(),
        condition_pattern: "^b".to_string(),
        mode: Mode::ContinuePast,
        timeout_ms: 250,
    });
    let compiled = config.compile_multiline().unwrap().unwrap();
    assert_eq!(compiled.mode, Mode::ContinuePast);
    assert_eq!(compiled.timeout_ms, 250);
    config.multiline.as_mut().unwrap().condition_pattern = "(".to_string();
    assert!(matches!(
        config.compile_multiline(),
        Err(MultilineConfigError::InvalidConditionPattern { .. })
    ));
}

#[test]
fn ingestor_takes_over_its_settings() {
    let ingestor = SqsIngestor::new(
        "us-east-1".to_string(),
        answered(Some("https://sqs/q")),
        sqs(300),
        Compression::Gzip,
        None,
    )
    .unwrap();
    assert_eq!(ingestor.region_name(), "us-east-1");
    assert_eq!(ingestor.queue(), "https://sqs/q");
    assert_eq!(ingestor.poll_interval_secs(), 1);
    assert_eq!(ingestor.visibility_timeout(), 300);
    assert!(!ingestor.deletes_messages());
    assert_eq!(ingestor.configured_compression(), Compression::Gzip);
    assert!(ingestor.multiline_config().is_none());
}

#[test]
fn failed_request_is_a_fetch_error() {
    let r = SqsIngestor::new(
        "us-east-1".to_string(),
        QueueUrlResponse::Failed {
            reason: "timed out".to_string(),
        },
        sqs(u64::MAX),
        Compression::Auto,
        None,
    );
    match r {
        Err(SqsIngestorNewError::FetchQueueUrl { reason, name }) => {
            assert_eq!(reason, "timed out");
            assert_eq!(name, "my-queue");
        }
        other => panic!("unexpected: {:?}", other),
    }
}

#[test]
fn absent_or_empty_url_is_missing() {
    for response in [answered(None), answered(Some(""))] {
        let r = SqsIngestor::new(
            "us-east-1".to_string(),
            response,
            sqs(u64::MAX),
            Compression::Auto,
            None,
        );
        match r {
            Err(SqsIngestorNewError::MissingQueueUrl { name }) => assert_eq!(name, "my-queue"),
            other => panic!("unexpected: {:?}", other),
        }
    }
}

#[test]
fn visibility_timeout_must_fit_a_signed_number() {
    let limit = i64::MAX as u64;
    let ok = SqsIngestor::new(
        "us-east-1".to_string(),
        answered(Some("u")),
        sqs(limit),
        Compression::Auto,
        None,
    )
    .unwrap();
    assert_eq!(ok.visibility_timeout(), i64::MAX);
    let r = SqsIngestor::new(
        "us-east-1".to_string(),
        answered(Some("u")),
        sqs(limit + 1),
        Compression::Auto,
        None,
    );
    match r {
        Err(SqsIngestorNewError::InvalidVisibilityTimeout { timeout }) => {
            assert_eq!(timeout, limit + 1)
        }
        other => panic!("unexpected: {:?}", other),
    }
}
