use vstd::prelude::*;

use crate::attribute_value::NtfsAttributeValue;
use crate::error::NtfsError;
use crate::index_record::{IndexRecordParser, NtfsIndexRecord};
use crate::index_root::NtfsIndexRoot;

verus! {

/// The index allocation attribute of one directory: the overflow portion of
/// the directory's B+tree, seen as one logical byte stream to be cut into
/// fixed-size index records.
#[derive(Clone, Copy, Debug)]
pub struct NtfsIndexAllocation {
    value: NtfsAttributeValue,
}

impl NtfsIndexAllocation {
    /// The wrapped attribute value stream.
    pub closed spec fn spec_value(self) -> NtfsAttributeValue {
        self.value
    }

    /// A view over the given attribute value stream.
    pub fn new(value: NtfsAttributeValue) -> (r: Self)
        ensures
            r.spec_value() == value,
    {
        Self { value }
    }

    /// Cut the attribute value into records of the size configured by the
    /// given index root, starting from the beginning of the stream. Performs
    /// no I/O and cannot fail.
    pub fn iter(&self, index_root: &NtfsIndexRoot) -> (r: NtfsIndexRecords)
        requires
            index_root.wf(),
        ensures
            r.spec_len() == self.spec_value().spec_len(),
            r.spec_position() == 0,
            r.spec_record_size() == index_root.spec_index_record_size(),
            r.wf(),
    {
        let index_record_size = index_root.index_record_size();
        NtfsIndexRecords::new(self.value.clone_from_start(), index_record_size)
    }
}

/// The segmentation engine: a clone of the attribute value stream plus the
/// fixed record size. Each successful production step hands out one record
/// and advances the position by exactly one record size; a failed step and a
/// terminal signal leave the position where it was.
#[derive(Clone, Copy, Debug)]
pub struct NtfsIndexRecords {
    value: NtfsAttributeValue,
    index_record_size: u32,
}

/// What one production step may do. Exactly one of:
/// - the sequence was terminal (position at or past the end of the stream):
///   it signals exhaustion and stays unchanged;
/// - a record was produced: it describes the window of one record size at
///   the old position, and the position advanced by exactly that size;
/// - the step failed: the failure is surfaced and the sequence unchanged.
pub open spec fn next_step(
    pre: NtfsIndexRecords,
    post: NtfsIndexRecords,
    r: Option<Result<NtfsIndexRecord, NtfsError>>,
) -> bool {
    &&& post.spec_len() == pre.spec_len()
    &&& post.spec_record_size() == pre.spec_record_size()
    &&& match r {
        None => pre.is_terminal() && post == pre,
        Some(Ok(rec)) => {
            &&& !pre.is_terminal()
            &&& rec.spec_position() == pre.spec_position()
            &&& rec.spec_record_size() == pre.spec_record_size()
            &&& post.spec_position() == pre.spec_position() + pre.spec_record_size()
        },
        Some(Err(_)) => !pre.is_terminal() && post == pre,
    }
}

impl NtfsIndexRecords {
    /// Total length of the underlying stream, in bytes.
    pub closed spec fn spec_len(self) -> u64 {
        self.value.spec_len()
    }

    /// Current position within the underlying stream.
    pub closed spec fn spec_position(self) -> u64 {
        self.value.spec_position()
    }

    /// Fixed size in bytes of each record window.
    pub closed spec fn spec_record_size(self) -> u32 {
        self.index_record_size
    }

    /// A sequence is well formed when its record size is positive.
    pub open spec fn wf(self) -> bool {
        self.spec_record_size() > 0
    }

    /// The sequence is terminal once the position has reached or passed the
    /// end of the stream.
    pub open spec fn is_terminal(self) -> bool {
        self.spec_position() >= self.spec_len()
    }

    /// A sequence of records of `index_record_size` bytes each, cut from the
    /// given stream starting at its current position.
    pub fn new(value: NtfsAttributeValue, index_record_size: u32) -> (r: Self)
        requires
            index_record_size > 0,
        ensures
            r.spec_len() == value.spec_len(),
            r.spec_position() == value.spec_position(),
            r.spec_record_size() == index_record_size,
            r.wf(),
    {
        Self { value, index_record_size }
    }

    /// Exact position of the cursor, in bytes from the start of the stream.
    pub fn position(&self) -> (r: u64)
        ensures
            r == self.spec_position(),
    {
        self.value.stream_position()
    }

    /// Total length of the underlying stream, in bytes.
    pub fn len(&self) -> (r: u64)
        ensures
            r == self.spec_len(),
    {
        self.value.len()
    }

    /// Fixed size in bytes of each record window.
    pub fn record_size(&self) -> (r: u32)
        ensures
            r == self.spec_record_size(),
    {
        self.index_record_size
    }

    /// Produce the next record, borrowing the I/O handle for the duration of
    /// this one call.
    ///
    /// Exhaustion is signalled by the absence of an item and is stable: it is
    /// returned on every call once the position has reached the end. A parse
    /// or stream failure is surfaced as this step's result and does not
    /// advance the position, so a caller wishing to recover may retry. On
    /// success the position advances by exactly one record size. If the
    /// stream length is not a multiple of the record size, the final window
    /// extends past the end of the stream and its fate is decided entirely by
    /// the parser.
    pub fn next<T: IndexRecordParser>(&mut self, fs: &mut T) -> (r: Option<
        Result<NtfsIndexRecord, NtfsError>,
    >)
        requires
            old(self).wf(),
        ensures
            final(self).wf(),
            next_step(*old(self), *final(self), r),
            r is None <==> old(self).is_terminal(),
    {
        if self.value.stream_position() >= self.value.len() {
            return None;
        }

        // Get the current record.
        let parsed = fs.parse_record(self.value.stream_position(), self.index_record_size);

        // Surface the outcome and advance past the record on success.
        self.complete_step(parsed)
    }

    /// Turn the parser's outcome for the window at the current position into
    /// this step's result: a failure is surfaced verbatim and leaves the
    /// sequence unchanged; a parsed record advances the position by one
    /// record size, unless the new position would not be representable,
    /// which is surfaced as a stream failure with the position unchanged.
    fn complete_step(&mut self, parsed: Result<NtfsIndexRecord, NtfsError>) -> (r: Option<
        Result<NtfsIndexRecord, NtfsError>,
    >)
        requires
            old(self).wf(),
            !old(self).is_terminal(),
            parsed matches Ok(rec) ==> rec.spec_position() == old(self).spec_position()
                && rec.spec_record_size() == old(self).spec_record_size(),
        ensures
            final(self).wf(),
            next_step(*old(self), *final(self), r),
            parsed matches Err(e) ==> r == Some(Err::<NtfsIndexRecord, NtfsError>(e))
                && *final(self) == *old(self),
            parsed matches Ok(rec) ==> if old(self).spec_position() + old(self).spec_record_size()
                <= u64::MAX {
                &&& r == Some(Ok::<NtfsIndexRecord, NtfsError>(rec))
                &&& final(self).spec_position() == old(self).spec_position()
                    + old(self).spec_record_size()
            } else {
                &&& r == Some(
                    Err::<NtfsIndexRecord, NtfsError>(NtfsError::UnderlyingIoFailure),
                )
                &&& *final(self) == *old(self)
            },
    {
        match parsed {
            Ok(record) => {
                // Advance the cursor to the next record.
                match self.value.seek_forward(self.index_record_size) {
                    Ok(_) => Some(Ok(record)),
                    Err(e) => Some(Err(e)),
                }
            },
            Err(e) => Some(Err(e)),
        }
    }

    /// Move the sequence into an adapter that remembers the given handle, so
    /// that records can be pulled without passing the handle to every call.
    /// Performs no I/O; the sequence, and in particular its position, is
    /// stored unchanged.
    pub fn attach<'a, T: IndexRecordParser>(self, fs: &'a mut T) -> (r: NtfsIndexRecordsAttached<
        'a,
        T,
    >)
        ensures
            r.spec_records() == self,
            r.spec_records().spec_position() == self.spec_position(),
    {
        NtfsIndexRecordsAttached::new(fs, self)
    }
}

/// A record sequence attached to a borrowed I/O handle: the standard lazy
/// pull shape. The adapter owns the sequence and borrows the handle for its
/// own lifetime; detaching returns the sequence, position preserved, and
/// releases the handle.
pub struct NtfsIndexRecordsAttached<'a, T: IndexRecordParser> {
    fs: &'a mut T,
    index_records: NtfsIndexRecords,
}

impl<'a, T: IndexRecordParser> NtfsIndexRecordsAttached<'a, T> {
    /// The wrapped record sequence.
    pub closed spec fn spec_records(self) -> NtfsIndexRecords {
        self.index_records
    }

    fn new(fs: &'a mut T, index_records: NtfsIndexRecords) -> (r: Self)
        ensures
            r.spec_records() == index_records,
    {
        Self { fs, index_records }
    }

    /// Pull the next record through the remembered handle: exactly one step
    /// of the wrapped sequence, with no buffering or look-ahead. The terminal
    /// signal is fused: once produced, every further pull produces it again,
    /// because a terminal step leaves the sequence unchanged.
    pub fn next(&mut self) -> (r: Option<Result<NtfsIndexRecord, NtfsError>>)
        requires
            old(self).spec_records().wf(),
        ensures
            final(self).spec_records().wf(),
            next_step(old(self).spec_records(), final(self).spec_records(), r),
            r is None <==> old(self).spec_records().is_terminal(),
    {
        self.index_records.next(&mut *self.fs)
    }

    /// Consume the adapter and return the sequence with its position
    /// unchanged, releasing the borrowed handle. Performs no I/O.
    pub fn detach(self) -> (r: NtfsIndexRecords)
        ensures
            r == self.spec_records(),
            r.spec_position() == self.spec_records().spec_position(),
    {
        self.index_records
    }
}

} // verus!
