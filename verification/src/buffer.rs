//! The shared byte store: a fixed-capacity array behind one exclusive guard.
//!
//! `SharedBuffer` owns a zero-initialized byte array whose length is fixed at
//! construction, wrapped in a verified exclusive-access lock. The lock's
//! invariant pins the array's length to the capacity, so every accessor sees a
//! store of exactly `capacity` bytes, and no two accessors ever hold the store
//! at once. The only way to touch the contents is [`SharedBuffer::with_exclusive_access`],
//! which acquires the guard, runs one operation on the store, and releases the
//! guard unconditionally.

use vstd::prelude::*;
use vstd::rwlock::{RwLock, RwLockPredicate};

verus! {

/// The guard's invariant: whatever sits in the lock is a byte array of
/// exactly the configured capacity.
pub struct CapacityPred {
    pub capacity: int,
}

impl RwLockPredicate<Vec<u8>> for CapacityPred {
    open spec fn inv(self, v: Vec<u8>) -> bool {
        v@.len() == self.capacity
    }
}

/// A fixed-capacity byte store guarded by one exclusive lock. Zero or more
/// sessions hold shared references to one `SharedBuffer`; the guard serializes
/// every access to the contents.
pub struct SharedBuffer {
    capacity: usize,
    guard: RwLock<Vec<u8>, CapacityPred>,
}

impl SharedBuffer {
    /// The fixed capacity, as the contracts speak of it.
    pub closed spec fn capacity_spec(&self) -> nat {
        self.capacity as nat
    }

    /// Well-formedness: the guard admits exactly the arrays of `capacity` bytes.
    pub closed spec fn wf(&self) -> bool {
        self.guard.pred() == (CapacityPred { capacity: self.capacity as int })
    }

    /// Build the store a fresh buffer starts from: `capacity` bytes, each zero.
    pub fn zero_store(capacity: usize) -> (v: Vec<u8>)
        ensures
            v@.len() == capacity,
            forall|i: int| 0 <= i < capacity ==> v@[i] == 0,
    {
        let mut contents: Vec<u8> = Vec::new();
        let mut i: usize = 0;
        while i < capacity
            invariant
                i <= capacity,
                contents@.len() == i,
                forall|k: int| 0 <= k < i ==> contents@[k] == 0,
            decreases capacity - i,
        {
            contents.push(0u8);
            i += 1;
        }
        contents
    }

    /// Allocate a zero-filled store of the given capacity behind a fresh
    /// guard: the store handed to the lock is [`SharedBuffer::zero_store`],
    /// all-zero by its contract, so every new buffer starts reset.
    pub fn create(capacity: usize) -> (buf: SharedBuffer)
        requires
            capacity >= 1,
        ensures
            buf.wf(),
            buf.capacity_spec() == capacity,
    {
        let contents = Self::zero_store(capacity);
        let pred = Ghost(CapacityPred { capacity: capacity as int });
        SharedBuffer { capacity, guard: RwLock::new(contents, pred) }
    }

    /// The fixed capacity of this store.
    pub fn capacity(&self) -> (c: usize)
        ensures
            c == self.capacity_spec(),
    {
        self.capacity
    }

    /// Acquire the guard, hand the store to `operation` exclusively, put the
    /// store the operation returns back, release the guard, and return the
    /// operation's other result. This is the only way to touch the contents;
    /// the caller must show that the operation keeps the store's length, and
    /// learns that the result came from running the operation on some store of
    /// exactly `capacity` bytes.
    pub fn with_exclusive_access<T, F: FnOnce(Vec<u8>) -> (Vec<u8>, T)>(
        &self,
        operation: F,
    ) -> (ret: T)
        requires
            self.wf(),
            forall|v: Vec<u8>| v@.len() == self.capacity_spec() ==> call_requires(operation, (v,)),
            forall|v: Vec<u8>, out: (Vec<u8>, T)|
                v@.len() == self.capacity_spec() && call_ensures(operation, (v,), out)
                    ==> out.0@.len() == self.capacity_spec(),
        ensures
            exists|v: Vec<u8>, out: (Vec<u8>, T)|
                v@.len() == self.capacity_spec() && #[trigger] call_ensures(operation, (v,), out)
                    && ret == out.1,
    {
        let (contents, handle) = self.guard.acquire_write();
        let (new_contents, result) = operation(contents);
        handle.release_write(new_contents);
        result
    }

    /// Read under the guard: acquire, copy at most `max_length` bytes out of
    /// the store starting at `offset`, release the store unchanged. The result
    /// is exactly what [`crate::transfer::read_spec`] says of the store the
    /// guard handed out.
    pub(crate) fn read_at(&self, offset: usize, max_length: usize) -> (out: Vec<u8>)
        requires
            self.wf(),
        ensures
            out@.len() == crate::transfer::transfer_len(
                self.capacity_spec(),
                offset as nat,
                max_length as nat,
            ),
            exists|c: Seq<u8>|
                c.len() == self.capacity_spec() && out@ == #[trigger] crate::transfer::read_spec(
                    c,
                    offset as nat,
                    max_length as nat,
                ),
    {
        let (contents, handle) = self.guard.acquire_write();
        let out = crate::transfer::read_bytes(&contents, offset, max_length);
        handle.release_write(contents);
        out
    }

    /// Write under the guard: acquire, copy the leading bytes of `data` into
    /// the store at `offset` as far as the capacity allows, release the store
    /// so transformed, and report the count. The store becomes exactly what
    /// [`crate::transfer::write_spec`] says of the store the guard handed out.
    pub(crate) fn write_at(&self, offset: usize, data: &[u8]) -> (n: usize)
        requires
            self.wf(),
        ensures
            n == crate::transfer::transfer_len(
                self.capacity_spec(),
                offset as nat,
                data@.len(),
            ),
    {
        let (mut contents, handle) = self.guard.acquire_write();
        let n = crate::transfer::write_bytes(&mut contents, offset, data);
        handle.release_write(contents);
        n
    }
}

} // verus!
