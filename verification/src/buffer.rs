//! Capacity tracking of a device-resident buffer.
//!
//! The batchers never fail on a full buffer: capacity grows geometrically on
//! demand, and a write that had to reallocate reports it, because a bind
//! group referencing the old allocation must then be rebuilt.  Only the
//! element capacity is modelled here; the allocation itself lives in the
//! device layer outside this crate.

use vstd::prelude::*;

verus! {

/// The capacity after growing a buffer of capacity `capacity` to hold `len`
/// elements: the old capacity doubled (clamped to the address space), or
/// `len` itself where doubling is not enough.
pub open spec fn grown_capacity(capacity: int, len: int) -> int {
    let doubled = if capacity > usize::MAX as int / 2 {
        usize::MAX as int
    } else {
        2 * capacity
    };
    if doubled >= len {
        doubled
    } else {
        len
    }
}

/// A device buffer holding up to `capacity` fixed-size elements.
#[derive(Clone, Copy, PartialEq, Eq, Structural, Debug)]
pub struct DeviceBuffer {
    /// Current element capacity of the allocation.
    pub capacity: usize,
}

impl DeviceBuffer {
    /// A fresh buffer sized for `capacity` elements.
    pub fn with_capacity(capacity: usize) -> (r: DeviceBuffer)
        ensures
            r.capacity == capacity,
    {
        DeviceBuffer { capacity }
    }

    /// Grows the buffer so that `len` elements fit, leaving it untouched
    /// when they already do.
    pub fn reserve(&mut self, len: usize)
        ensures
            final(self).capacity == if len > old(self).capacity {
                grown_capacity(old(self).capacity as int, len as int)
            } else {
                old(self).capacity as int
            },
            final(self).capacity >= len,
            final(self).capacity >= old(self).capacity,
    {
        if len > self.capacity {
            let doubled: usize = if self.capacity > usize::MAX / 2 {
                usize::MAX
            } else {
                self.capacity * 2
            };
            self.capacity = if doubled >= len {
                doubled
            } else {
                len
            };
        }
    }

    /// Copies `len` elements into the buffer, growing it first where they
    /// do not fit.  Returns whether the buffer was reallocated, in which
    /// case any bind group referencing it is stale.
    pub fn write(&mut self, len: usize) -> (reallocated: bool)
        ensures
            reallocated == (len > old(self).capacity),
            final(self).capacity == if len > old(self).capacity {
                grown_capacity(old(self).capacity as int, len as int)
            } else {
                old(self).capacity as int
            },
            final(self).capacity >= len,
    {
        let reallocated = len > self.capacity;
        self.reserve(len);
        reallocated
    }
}

} // verus!
