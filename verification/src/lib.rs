//! Verified core of an S3 object ingestor driven by SQS notifications,
//! together with the expression and file-event models that surround it.
//!
//! The ingestor polls a queue for notifications of new objects, fetches each
//! object, decodes and splits its body into records, and forwards them. This
//! crate holds what is decided on the way; waiting, fetching, decoding and
//! sending are left to a driver that reports what happened and is told what
//! to do next.
//!
//! - `ingest` is the polling loop as a state machine, and `ack` states when
//!   it deletes a message.
//! - `object` is the ingestion of one object as a state machine over
//!   `pipeline`, which runs a body through `lines`, `multiline` and `record`.
//! - `compression` picks the codec of an object, `notification` reads event
//!   names, and `config` holds the settings and the ingestor built of them.
//! - `expression` and `file_events` model a boolean negation and the events
//!   of the file source.

pub mod ack;
pub mod compression;
pub mod config;
pub mod expression;
pub mod file_events;
pub mod ingest;
pub mod lines;
pub mod multiline;
pub mod notification;
pub mod object;
pub mod pipeline;
pub mod record;
pub mod text;
