//! One open handle over a shared buffer: the read/write/close protocol.
//!
//! A `DeviceSession` is created by [`DeviceSession::open`] from a shared
//! reference to a [`SharedBuffer`] and carries no state of its own beyond that
//! reference: every session over the same buffer observes the same contents.
//! Reads and writes take the buffer's exclusive guard for the duration of one
//! bounds-checked transfer; [`DeviceSession::close`] drops the reference and
//! touches nothing else.

use std::sync::Arc;

use vstd::prelude::*;

use crate::buffer::SharedBuffer;
use crate::transfer::{read_spec, transfer_len};

verus! {

/// Why an operation failed. End-of-range and short transfers are not errors:
/// they surface as zero-length or shortened results.
#[derive(Clone, Copy, Debug, PartialEq, Eq, Structural)]
pub enum DeviceError {
    /// An externally supplied offset cannot be represented as a non-negative
    /// index into the store. No partial transfer occurs.
    OffsetConversion,
}

/// One open handle over a [`SharedBuffer`], sharing ownership of it with every
/// other open handle and with the registrar that created it.
pub struct DeviceSession {
    buffer: Arc<SharedBuffer>,
}

impl DeviceSession {
    /// Well-formedness: the referenced buffer's guard admits exactly the
    /// stores of its capacity.
    pub closed spec fn wf(&self) -> bool {
        self.buffer.wf()
    }

    /// The capacity of the referenced buffer.
    pub closed spec fn capacity_spec(&self) -> nat {
        self.buffer.capacity_spec()
    }

    /// The session holds the very buffer `b` refers to — shared, not copied —
    /// so it observes the same contents as every other holder of `b`.
    pub closed spec fn shares(&self, b: &Arc<SharedBuffer>) -> bool {
        self.buffer == *b
    }

    /// Open a new session over `buffer`: store a clone of the shared
    /// reference, extending the buffer's lifetime by one holder. Never fails.
    pub fn open(buffer: &Arc<SharedBuffer>) -> (s: DeviceSession)
        requires
            buffer.wf(),
        ensures
            s.wf(),
            s.capacity_spec() == buffer.capacity_spec(),
            s.shares(buffer),
    {
        DeviceSession { buffer: Arc::clone(buffer) }
    }

    /// Read at most `max_length` bytes starting at `offset`, under the
    /// buffer's exclusive guard. An offset at or past the capacity yields an
    /// empty result; otherwise exactly `min(capacity - offset, max_length)`
    /// bytes of the current contents come back, in order. Fails only when the
    /// offset cannot be represented as an index.
    pub fn read(&self, offset: u64, max_length: usize) -> (r: Result<Vec<u8>, DeviceError>)
        requires
            self.wf(),
        ensures
            match r {
                Ok(out) => {
                    &&& offset <= usize::MAX
                    &&& out@.len() == transfer_len(
                        self.capacity_spec(),
                        offset as nat,
                        max_length as nat,
                    )
                    &&& exists|c: Seq<u8>|
                        c.len() == self.capacity_spec() && out@ == #[trigger] read_spec(
                            c,
                            offset as nat,
                            max_length as nat,
                        )
                },
                Err(e) => e == DeviceError::OffsetConversion && offset > usize::MAX,
            },
    {
        let off: usize = match usize::try_from(offset) {
            Ok(o) => o,
            Err(_) => {
                return Err(DeviceError::OffsetConversion);
            },
        };
        Ok(self.buffer.read_at(off, max_length))
    }

    /// Write the leading bytes of `data` at `offset`, under the buffer's
    /// exclusive guard, and report how many bytes landed: zero at or past the
    /// capacity, else `min(capacity - offset, length(data))`, with any
    /// unwritten tail of `data` silently dropped and every byte of the store
    /// outside the written span untouched. Fails only when the offset cannot
    /// be represented as an index.
    pub fn write(&self, offset: u64, data: &[u8]) -> (r: Result<usize, DeviceError>)
        requires
            self.wf(),
        ensures
            match r {
                Ok(n) => offset <= usize::MAX && n == transfer_len(
                    self.capacity_spec(),
                    offset as nat,
                    data@.len(),
                ),
                Err(e) => e == DeviceError::OffsetConversion && offset > usize::MAX,
            },
    {
        let off: usize = match usize::try_from(offset) {
            Ok(o) => o,
            Err(_) => {
                return Err(DeviceError::OffsetConversion);
            },
        };
        Ok(self.buffer.write_at(off, data))
    }

    /// Close the session: drop the held reference, decrementing the buffer's
    /// holder count. The contents are untouched; failure is not possible.
    pub fn close(self) {
    }
}

} // verus!
