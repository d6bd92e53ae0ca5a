//! Timeshift recording: a service is recorded into a ring of chunks, and clients watch it live
//! or watch the records of its programs.

pub mod activation;
pub mod manager;
pub mod message;
pub mod reader;
pub mod record;
pub mod recorder;
pub mod records;
pub mod source;
