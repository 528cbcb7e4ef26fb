//! Resolution of a download request from a flat set of user options, and the
//! engine that streams, bounds and verifies the downloaded bytes.

pub mod download;
pub mod error;
pub mod hashing;
pub mod logger;
pub mod method;
pub mod options;
pub mod output;
pub mod plan;
pub mod protocols;
pub mod text;
pub mod trust;
