use vstd::prelude::*;

use crate::error::NtfsError;

verus! {

/// One parsed index record: a node of a directory's B+tree, produced by a
/// record parser from the window of `record_size` bytes that starts at
/// `position` in the index allocation stream.
#[derive(Clone, Copy, Debug, PartialEq, Eq, Structural)]
pub struct NtfsIndexRecord {
    position: u64,
    record_size: u32,
}

impl NtfsIndexRecord {
    /// Start of the window this record was parsed from.
    pub closed spec fn spec_position(self) -> u64 {
        self.position
    }

    /// Declared size of the window this record was parsed from.
    pub closed spec fn spec_record_size(self) -> u32 {
        self.record_size
    }

    /// A record parsed from the window of `record_size` bytes at `position`.
    pub fn new(position: u64, record_size: u32) -> (r: Self)
        ensures
            r.spec_position() == position,
            r.spec_record_size() == record_size,
    {
        Self { position, record_size }
    }

    pub fn position(&self) -> (r: u64)
        ensures
            r == self.spec_position(),
    {
        self.position
    }

    pub fn record_size(&self) -> (r: u32)
        ensures
            r == self.spec_record_size(),
    {
        self.record_size
    }
}

/// What the segmentation layer needs from the I/O handle it borrows for one
/// call: validate and parse the index record in the window of `record_size`
/// bytes starting at byte `position` of the index allocation stream.
///
/// Whether a given window parses is entirely the implementation's decision
/// (bad signature, fixup mismatch, short read, I/O failure); the only promise
/// is that a record handed out describes exactly the requested window.
pub trait IndexRecordParser {
    /// Parse one record window, or report why it does not parse.
    fn parse_record(&mut self, position: u64, record_size: u32) -> (r: Result<
        NtfsIndexRecord,
        NtfsError,
    >)
        ensures
            r matches Ok(rec) ==> rec.spec_position() == position && rec.spec_record_size()
                == record_size,
    ;
}

/// A record parser over a medium of a known number of addressable bytes: a
/// window parses successfully exactly when it lies wholly inside the medium,
/// so a window that extends past the end of the medium is rejected.
#[derive(Clone, Copy, Debug)]
pub struct BoundedWindowParser {
    medium_len: u64,
}

impl BoundedWindowParser {
    /// Number of addressable bytes of the medium.
    pub closed spec fn spec_medium_len(self) -> u64 {
        self.medium_len
    }

    pub fn new(medium_len: u64) -> (r: Self)
        ensures
            r.spec_medium_len() == medium_len,
    {
        Self { medium_len }
    }
}

impl IndexRecordParser for BoundedWindowParser {
    fn parse_record(&mut self, position: u64, record_size: u32) -> (r: Result<
        NtfsIndexRecord,
        NtfsError,
    >)
        ensures
            *final(self) == *old(self),
            r is Ok <==> position + record_size <= old(self).spec_medium_len(),
            r matches Err(e) ==> e == NtfsError::RecordParseFailure,
    {
        if position <= self.medium_len && record_size as u64 <= self.medium_len - position {
            Ok(NtfsIndexRecord::new(position, record_size))
        } else {
            Err(NtfsError::RecordParseFailure)
        }
    }
}

} // verus!
