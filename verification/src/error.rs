use vstd::prelude::*;

verus! {

/// Failure surfaced by one production step of an index-record sequence.
///
/// Exhaustion of the stream is not an error: it is the terminal signal,
/// reported as the absence of a further item.
#[derive(Clone, Copy, Debug, PartialEq, Eq, Structural)]
pub enum NtfsError {
    /// The record parser rejected the window handed to it (bad signature,
    /// fixup or checksum mismatch, truncated window).
    RecordParseFailure,
    /// A failure of the underlying stream or handle, passed on unchanged.
    UnderlyingIoFailure,
}

} // verus!
