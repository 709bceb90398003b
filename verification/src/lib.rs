//! Storage of a freshly issued TLS certificate in operator-configured backends.
//!
//! The library holds the decisions of each backend: what a valid
//! configuration is, which existing certificates are renewed in place, where
//! each write goes and how the outcomes of the writes become the records that
//! are reported. The network calls themselves are made by the caller, which
//! hands their answers back as plain values.

pub mod acm;
pub mod arn;
pub mod error;
pub mod laws;
pub mod matching;
pub mod names;
pub mod region;
pub mod result;
pub mod s3;
pub mod ssm;
pub mod storage;
pub mod text;
