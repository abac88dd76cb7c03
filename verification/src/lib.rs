//! Verified core of a byte-range HTTP fetch library.
//!
//! The library issues one ranged GET request against a caller-supplied URL,
//! validates the response status, drains the response body into a bounded
//! byte buffer despite short reads, and reports completion through a
//! caller-supplied notifier, exactly once and only on success.

pub mod fetch;
pub mod fill;
pub mod notify;
pub mod textfmt;
pub mod transport;
