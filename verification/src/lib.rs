//! Timeshift recording, on-air program tracking and event feeding of a DVR backend.

pub mod config;
pub mod epg;
pub mod error;
pub mod filter;
pub mod models;
pub mod mpeg_ts_stream;
pub mod onair;
pub mod sse;
pub mod tag;
pub mod template;
pub mod text;
pub mod time;
pub mod timeshift;
