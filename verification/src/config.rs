//! The configuration of the source, and the ingestor that is built from it.

use crate::compression::Compression;
use crate::multiline::{
    pattern_compiles, AggregatorConfig, MultilineConfig, MultilineConfigError,
};
use vstd::prelude::*;

verus! {

/// How the source learns of new objects.
#[derive(Copy, Clone, Debug, PartialEq, Eq, Structural)]
pub enum Strategy {
    Sqs,
}

impl Default for Strategy {
    fn default() -> (s: Self)
        ensures
            s == Strategy::Sqs,
    {
        Strategy::Sqs
    }
}

/// The queue to poll, as it is configured.
#[derive(Debug)]
pub struct SqsConfig {
    /// The name of the region of the queue and of its buckets.
    pub region: String,
    pub queue_name: String,
    pub poll_secs: u64,
    pub visibility_timeout_secs: u64,
    pub delete_message: bool,
}

/// The seconds between two polls where none are configured.
pub fn default_poll_interval_secs() -> (secs: u64)
    ensures
        secs == 15,
{
    15
}

/// The visibility timeout in seconds where none is configured.
pub fn default_visibility_timeout_secs() -> (secs: u64)
    ensures
        secs == 300,
{
    300
}

/// The default of a setting that is on unless it is switched off.
pub fn default_true() -> (b: bool)
    ensures
        b,
{
    true
}

impl SqsConfig {
    /// The settings of a queue with every optional setting at its default.
    pub fn new(region: String, queue_name: String) -> (config: Self)
        ensures
            config.region == region,
            config.queue_name == queue_name,
            config.poll_secs == 15,
            config.visibility_timeout_secs == 300,
            config.delete_message,
    {
        SqsConfig {
            region,
            queue_name,
            poll_secs: default_poll_interval_secs(),
            visibility_timeout_secs: default_visibility_timeout_secs(),
            delete_message: default_true(),
        }
    }
}

/// The source as it is configured.
#[derive(Debug)]
pub struct AwsS3Config {
    pub compression: Compression,
    pub strategy: Strategy,
    pub sqs: Option<SqsConfig>,
    pub assume_role: Option<String>,
    pub multiline: Option<MultilineConfig>,
}

impl Default for AwsS3Config {
    fn default() -> (config: Self)
        ensures
            config.compression == Compression::Auto,
            config.strategy == Strategy::Sqs,
            config.sqs is None,
            config.assume_role is None,
            config.multiline is None,
    {
        AwsS3Config {
            compression: Compression::Auto,
            strategy: Strategy::Sqs,
            sqs: None,
            assume_role: None,
            multiline: None,
        }
    }
}

/// Why no ingestor could be set up.
#[derive(Debug)]
pub enum CreateSqsIngestorError {
    Initialize { source: SqsIngestorNewError },
    Client { reason: String },
    Credentials { reason: String },
    ConfigMissing,
}

/// Why an ingestor could not be constructed.
#[derive(Debug)]
pub enum SqsIngestorNewError {
    /// The queue URL could not be fetched.
    FetchQueueUrl { reason: String, name: String },
    /// The answer held no queue URL, or an empty one.
    MissingQueueUrl { name: String },
    /// The visibility timeout does not fit a signed 64-bit number of seconds.
    InvalidVisibilityTimeout { timeout: u64 },
}

/// What came of asking for the URL of the queue.
#[derive(Debug)]
pub enum QueueUrlResponse {
    /// The request failed.
    Failed { reason: String },
    /// The request was answered, with or without a URL.
    Answered { queue_url: Option<String> },
}

impl AwsS3Config {
    /// The queue settings, which the `Sqs` strategy cannot do without.
    pub fn sqs_config(&self) -> (r: Result<&SqsConfig, CreateSqsIngestorError>)
        ensures
            match r {
                Ok(sqs) => self.sqs == Some(*sqs),
                Err(e) => self.sqs is None && e is ConfigMissing,
            },
    {
        match &self.sqs {
            Some(sqs) => Ok(sqs),
            None => Err(CreateSqsIngestorError::ConfigMissing),
        }
    }

    /// The multi-line settings with their patterns compiled, if any are
    /// configured.
    pub fn compile_multiline(&self) -> (r: Result<Option<AggregatorConfig>, MultilineConfigError>)
        ensures
            match r {
                Ok(None) => self.multiline is None,
                Ok(Some(compiled)) => {
                    &&& self.multiline matches Some(m)
                    &&& pattern_compiles(m.start_pattern@)
                    &&& pattern_compiles(m.condition_pattern@)
                    &&& compiled.mode == m.mode
                    &&& compiled.timeout_ms == m.timeout_ms
                },
                Err(MultilineConfigError::InvalidStartPattern { .. }) => {
                    &&& self.multiline matches Some(m)
                    &&& !pattern_compiles(m.start_pattern@)
                },
                Err(MultilineConfigError::InvalidConditionPattern { .. }) => {
                    &&& self.multiline matches Some(m)
                    &&& pattern_compiles(m.start_pattern@)
                    &&& !pattern_compiles(m.condition_pattern@)
                },
            },
    {
        match &self.multiline {
            Some(multiline) => match multiline.compile() {
                Ok(compiled) => Ok(Some(compiled)),
                Err(e) => Err(e),
            },
            None => Ok(None),
        }
    }
}

/// The largest visibility timeout that is accepted.
pub const MAX_VISIBILITY_TIMEOUT_SECS: u64 = 0x7fff_ffff_ffff_ffff;

/// The ingestor of one queue: its settings, resolved and checked.
#[derive(Debug)]
pub struct SqsIngestor {
    region: String,
    multiline: Option<AggregatorConfig>,
    compression: Compression,
    queue_url: String,
    poll_secs: u64,
    visibility_timeout_secs: i64,
    delete_message: bool,
}

impl SqsIngestor {
    pub closed spec fn region(&self) -> String {
        self.region
    }

    pub closed spec fn multiline(&self) -> Option<AggregatorConfig> {
        self.multiline
    }

    pub closed spec fn compression(&self) -> Compression {
        self.compression
    }

    pub closed spec fn queue_url(&self) -> String {
        self.queue_url
    }

    pub closed spec fn poll_secs(&self) -> u64 {
        self.poll_secs
    }

    pub closed spec fn visibility_timeout_secs(&self) -> i64 {
        self.visibility_timeout_secs
    }

    pub closed spec fn delete_message(&self) -> bool {
        self.delete_message
    }

    /// What holds of every ingestor: it polls at a positive interval, its
    /// visibility timeout is not negative, and it has a queue URL.
    pub closed spec fn wf(&self) -> bool {
        &&& self.poll_secs > 0
        &&& self.visibility_timeout_secs >= 0
        &&& self.queue_url@.len() > 0
    }

    /// What well-formedness says, for use outside this module.
    pub proof fn lemma_wf(&self)
        requires
            self.wf(),
        ensures
            self.poll_secs() > 0,
            self.visibility_timeout_secs() >= 0,
            self.queue_url()@.len() > 0,
    {
    }

    /// Constructs the ingestor once the URL of its queue has been asked for.
    ///
    /// The checks are made in this order: the request must have succeeded,
    /// the answer must hold a queue URL that is not empty, and the visibility
    /// timeout must fit a signed 64-bit number. The poll interval must be
    /// positive: a timer cannot tick at an interval of zero.
    pub fn new(
        region: String,
        response: QueueUrlResponse,
        config: SqsConfig,
        compression: Compression,
        multiline: Option<AggregatorConfig>,
    ) -> (r: Result<SqsIngestor, SqsIngestorNewError>)
        requires
            config.poll_secs > 0,
        ensures
            match r {
                Ok(ingestor) => {
                    &&& response matches QueueUrlResponse::Answered { queue_url: Some(url) }
                    &&& url@.len() > 0
                    &&& config.visibility_timeout_secs <= MAX_VISIBILITY_TIMEOUT_SECS
                    &&& ingestor.wf()
                    &&& ingestor.region() == region
                    &&& ingestor.queue_url() == url
                    &&& ingestor.poll_secs() == config.poll_secs
                    &&& ingestor.visibility_timeout_secs() == config.visibility_timeout_secs
                    &&& ingestor.delete_message() == config.delete_message
                    &&& ingestor.compression() == compression
                    &&& ingestor.multiline() == multiline
                },
                Err(SqsIngestorNewError::FetchQueueUrl { reason, name }) => {
                    &&& response == (QueueUrlResponse::Failed { reason })
                    &&& name == config.queue_name
                },
                Err(SqsIngestorNewError::MissingQueueUrl { name }) => {
                    &&& response matches QueueUrlResponse::Answered { queue_url }
                    &&& (queue_url matches Some(url) ==> url@.len() == 0)
                    &&& name == config.queue_name
                },
                Err(SqsIngestorNewError::InvalidVisibilityTimeout { timeout }) => {
                    &&& response matches QueueUrlResponse::Answered { queue_url: Some(url) }
                    &&& url@.len() > 0
                    &&& config.visibility_timeout_secs > MAX_VISIBILITY_TIMEOUT_SECS
                    &&& timeout == config.visibility_timeout_secs
                },
            },
    {
        let queue_url = match response {
            QueueUrlResponse::Failed { reason } => {
                return Err(SqsIngestorNewError::FetchQueueUrl { reason, name: config.queue_name });
            },
            QueueUrlResponse::Answered { queue_url: None } => {
                return Err(SqsIngestorNewError::MissingQueueUrl { name: config.queue_name });
            },
            QueueUrlResponse::Answered { queue_url: Some(url) } => url,
        };
        if queue_url.as_str().is_empty() {
            return Err(SqsIngestorNewError::MissingQueueUrl { name: config.queue_name });
        }
        if config.visibility_timeout_secs > MAX_VISIBILITY_TIMEOUT_SECS {
            return Err(
                SqsIngestorNewError::InvalidVisibilityTimeout {
                    timeout: config.visibility_timeout_secs,
                },
            );
        }
        let visibility_timeout_secs: i64 = config.visibility_timeout_secs as i64;
        Ok(
            SqsIngestor {
                region,
                multiline,
                compression,
                queue_url,
                poll_secs: config.poll_secs,
                visibility_timeout_secs,
                delete_message: config.delete_message,
            },
        )
    }

    /// The URL of the queue.
    pub fn queue(&self) -> (url: &String)
        ensures
            *url == self.queue_url(),
    {
        &self.queue_url
    }

    /// The compression as it is configured, `Auto` included.
    pub fn configured_compression(&self) -> (compression: Compression)
        ensures
            compression == self.compression(),
    {
        self.compression
    }

    /// The name of the region that notifications must come from.
    pub fn region_name(&self) -> (name: &str)
        ensures
            name@ == self.region()@,
    {
        self.region.as_str()
    }

    /// The compiled multi-line settings, if aggregation is configured.
    pub fn multiline_config(&self) -> (config: Option<&AggregatorConfig>)
        ensures
            match config {
                Some(c) => self.multiline() == Some(*c),
                None => self.multiline() is None,
            },
    {
        self.multiline.as_ref()
    }

    /// The seconds between two polls.
    pub fn poll_interval_secs(&self) -> (secs: u64)
        requires
            self.wf(),
        ensures
            secs == self.poll_secs(),
            secs > 0,
    {
        self.poll_secs
    }

    /// The seconds for which a received message stays hidden from others.
    pub fn visibility_timeout(&self) -> (secs: i64)
        requires
            self.wf(),
        ensures
            secs == self.visibility_timeout_secs(),
            secs >= 0,
    {
        self.visibility_timeout_secs
    }

    /// Whether a message is deleted once all its objects have been ingested.
    pub fn deletes_messages(&self) -> (delete: bool)
        ensures
            delete == self.delete_message(),
    {
        self.delete_message
    }
}

} // verus!
