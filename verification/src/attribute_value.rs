use vstd::prelude::*;

use crate::error::NtfsError;

verus! {

/// A logical attribute value stream: a fixed total length and a current
/// read position. The descriptor carries no I/O handle of its own, so it
/// can be cloned cheaply; a clone reads the same underlying extents with an
/// independent position.
#[derive(Clone, Copy, Debug)]
pub struct NtfsAttributeValue {
    length: u64,
    position: u64,
}

impl NtfsAttributeValue {
    /// Total length of the stream, in bytes.
    pub closed spec fn spec_len(self) -> u64 {
        self.length
    }

    /// Current position within the stream, in bytes from its start.
    pub closed spec fn spec_position(self) -> u64 {
        self.position
    }

    /// A stream of the given length, positioned at its start.
    pub fn new(length: u64) -> (r: Self)
        ensures
            r.spec_len() == length,
            r.spec_position() == 0,
    {
        Self { length, position: 0 }
    }

    pub fn len(&self) -> (r: u64)
        ensures
            r == self.spec_len(),
    {
        self.length
    }

    pub fn stream_position(&self) -> (r: u64)
        ensures
            r == self.spec_position(),
    {
        self.position
    }

    /// A clone positioned back at the start of the stream, reading the same
    /// extents.
    pub fn clone_from_start(&self) -> (r: Self)
        ensures
            r.spec_len() == self.spec_len(),
            r.spec_position() == 0,
    {
        Self { length: self.length, position: 0 }
    }

    /// Seek forward by `delta` bytes from the current position. Seeking past
    /// the end of the stream is allowed (the position may then exceed the
    /// length); only a position beyond the addressable range fails, and a
    /// failed seek leaves the position unchanged.
    pub fn seek_forward(&mut self, delta: u32) -> (r: Result<u64, NtfsError>)
        ensures
            final(self).spec_len() == old(self).spec_len(),
            old(self).spec_position() + delta <= u64::MAX ==> {
                &&& final(self).spec_position() == old(self).spec_position() + delta
                &&& r == Ok::<u64, NtfsError>(final(self).spec_position())
            },
            old(self).spec_position() + delta > u64::MAX ==> {
                &&& *final(self) == *old(self)
                &&& r == Err::<u64, NtfsError>(NtfsError::UnderlyingIoFailure)
            },
    {
        match self.position.checked_add(delta as u64) {
            Some(new_position) => {
                self.position = new_position;
                Ok(new_position)
            }
            None => Err(NtfsError::UnderlyingIoFailure),
        }
    }
}

} // verus!
