use vstd::prelude::*;

verus! {

/// The closed set of failure origins for a sync run.
///
/// `RssIo` stands for a transport failure, `FileIo` for a local file
/// failure, `BadConfig` for a configuration that could not be loaded,
/// `BadStatus` for a response whose envelope carried a nonzero status
/// code (the code is kept for diagnostics), and `BadRssJson` for a
/// response whose body, envelope, or content could not be decoded into
/// the shape the operation declares.
#[derive(Clone, Copy, Debug, PartialEq, Eq, Structural)]
pub enum SyncError {
    RssIo,
    FileIo,
    BadStatus(u64),
    BadConfig,
    BadRssJson,
}

} // verus!
