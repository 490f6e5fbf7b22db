//! Verified decisions of the S3 contract fixture: configuration checks,
//! object-key mapping, SDK error classification, and the test gate.

pub mod config;
pub mod error_mapper;
pub mod path_mapper;
pub mod test_control;
pub mod listing;
pub mod reader;
pub mod write_session;
