use vstd::prelude::*;

verus! {

/// The part of an already-parsed index root this layer reads: the configured
/// size in bytes of each index record of one particular index. The size is
/// per-index configuration, decoded upstream from its on-disk encoding, and
/// is always positive.
#[derive(Clone, Copy, Debug)]
pub struct NtfsIndexRoot {
    index_record_size: u32,
}

impl NtfsIndexRoot {
    /// Size in bytes of each index record of this index.
    pub closed spec fn spec_index_record_size(self) -> u32 {
        self.index_record_size
    }

    /// An index root is well formed when its record size is positive.
    pub open spec fn wf(self) -> bool {
        self.spec_index_record_size() > 0
    }

    /// An index root configured with the given record size.
    pub fn new(index_record_size: u32) -> (r: Self)
        requires
            index_record_size > 0,
        ensures
            r.spec_index_record_size() == index_record_size,
            r.wf(),
    {
        Self { index_record_size }
    }

    pub fn index_record_size(&self) -> (r: u32)
        ensures
            r == self.spec_index_record_size(),
    {
        self.index_record_size
    }
}

} // verus!
