//! A session-authenticated RPC client and fetch/correlate pipeline for
//! a remote feed-reading service's HTTP/JSON protocol.
//!
//! The library holds the verified core: building each operation's
//! exact request field set, validating the generic `{seq, status,
//! content}` response envelope before trusting any typed content, and
//! correlating independently fetched headlines and articles by id
//! equality. The blocking network transport and configuration loading
//! live outside, handing plain values in and out.

pub mod envelope;
pub mod errors;
pub mod json_build;
pub mod json_model;
pub mod pipeline;
pub mod protocol;
pub mod records;
