//! Bounds-checked byte transfers against a fixed-capacity store.
//!
//! A transfer at `offset` moves at most `capacity - offset` bytes; an offset at
//! or beyond the capacity moves nothing, as a normal terminal condition rather
//! than an error. The spec functions here define how many bytes move and what
//! the store and the result look like afterwards; the executable functions are
//! proved to match them exactly, and the proof functions state the laws the
//! definitions obey.

use vstd::prelude::*;

verus! {

/// How many bytes a transfer at `offset` asking for `requested` bytes moves
/// against a store of `capacity` bytes: zero at or past the end, and never
/// more than the bytes that remain before the end.
pub open spec fn transfer_len(capacity: nat, offset: nat, requested: nat) -> nat {
    if offset >= capacity {
        0
    } else if capacity - offset < requested {
        (capacity - offset) as nat
    } else {
        requested
    }
}

/// The bytes a read at `offset` asking for at most `max_length` bytes returns:
/// the next `transfer_len` bytes of the store, in order.
pub open spec fn read_spec(contents: Seq<u8>, offset: nat, max_length: nat) -> Seq<u8> {
    Seq::new(
        transfer_len(contents.len(), offset, max_length),
        |i: int| contents[offset + i],
    )
}

/// The store after a write of `data` at `offset`: the first `transfer_len`
/// bytes of `data` land at `offset`, every other byte keeps its prior value,
/// and the length never changes.
pub open spec fn write_spec(contents: Seq<u8>, offset: nat, data: Seq<u8>) -> Seq<u8> {
    Seq::new(
        contents.len(),
        |i: int|
            if offset <= i < offset + transfer_len(contents.len(), offset, data.len()) {
                data[i - offset]
            } else {
                contents[i]
            },
    )
}

/// Copy out of `contents` at `offset`, at most `max_length` bytes, stopping at
/// the end of the store. An offset at or past the end yields an empty result.
pub fn read_bytes(contents: &Vec<u8>, offset: usize, max_length: usize) -> (out: Vec<u8>)
    ensures
        out@ == read_spec(contents@, offset as nat, max_length as nat),
{
    let mut out: Vec<u8> = Vec::new();
    if offset >= contents.len() {
        assert(out@ =~= read_spec(contents@, offset as nat, max_length as nat));
        return out;
    }
    let remaining: usize = contents.len() - offset;
    let n: usize = if remaining < max_length {
        remaining
    } else {
        max_length
    };
    let mut i: usize = 0;
    while i < n
        invariant
            n == transfer_len(contents@.len(), offset as nat, max_length as nat),
            offset + n <= contents@.len(),
            offset + n <= usize::MAX,
            i <= n,
            out@.len() == i,
            forall|k: int| 0 <= k < i ==> out@[k] == contents@[offset + k],
        decreases n - i,
    {
        out.push(contents[offset + i]);
        i += 1;
    }
    assert(out@ =~= read_spec(contents@, offset as nat, max_length as nat));
    out
}

/// Copy the leading bytes of `data` into `contents` at `offset`, stopping at
/// the end of the store, and report how many bytes landed. An offset at or
/// past the end writes nothing and reports zero.
pub fn write_bytes(contents: &mut Vec<u8>, offset: usize, data: &[u8]) -> (n: usize)
    ensures
        n == transfer_len(old(contents)@.len(), offset as nat, data@.len()),
        final(contents)@ == write_spec(old(contents)@, offset as nat, data@),
{
    if offset >= contents.len() {
        assert(contents@ =~= write_spec(contents@, offset as nat, data@));
        return 0;
    }
    let remaining: usize = contents.len() - offset;
    let n: usize = if remaining < data.len() {
        remaining
    } else {
        data.len()
    };
    let mut i: usize = 0;
    while i < n
        invariant
            n == transfer_len(old(contents)@.len(), offset as nat, data@.len()),
            offset + n <= contents@.len(),
            offset + n <= usize::MAX,
            n <= data@.len(),
            i <= n,
            contents@.len() == old(contents)@.len(),
            forall|k: int| 0 <= k < i ==> contents@[offset + k] == data@[k],
            forall|k: int|
                0 <= k < contents@.len() && !(offset <= k < offset + i) ==> contents@[k]
                    == old(contents)@[k],
        decreases n - i,
    {
        let b: u8 = data[i];
        contents.set(offset + i, b);
        i += 1;
    }
    assert(contents@ =~= write_spec(old(contents)@, offset as nat, data@));
    n
}

/// Capacity bound: a transfer at or past the end of the store moves nothing —
/// a read returns the empty sequence, a write reports zero bytes and leaves
/// the store exactly as it was.
pub proof fn lemma_capacity_bound(
    contents: Seq<u8>,
    offset: nat,
    max_length: nat,
    data: Seq<u8>,
)
    requires
        offset >= contents.len(),
    ensures
        read_spec(contents, offset, max_length) == Seq::<u8>::empty(),
        transfer_len(contents.len(), offset, data.len()) == 0,
        write_spec(contents, offset, data) == contents,
{
    assert(read_spec(contents, offset, max_length) =~= Seq::<u8>::empty());
    assert(write_spec(contents, offset, data) =~= contents);
}

/// Short-read law: a read strictly inside the store returns exactly
/// `min(capacity - offset, max_length)` bytes.
pub proof fn lemma_short_read(contents: Seq<u8>, offset: nat, max_length: nat)
    requires
        offset < contents.len(),
    ensures
        read_spec(contents, offset, max_length).len() == vstd::math::min(
            contents.len() - offset,
            max_length as int,
        ),
{
}

/// Short-write law: a write strictly inside the store moves exactly
/// `min(capacity - offset, length(data))` bytes, and exactly that many leading
/// bytes of `data` appear in the store starting at `offset`.
pub proof fn lemma_short_write(contents: Seq<u8>, offset: nat, data: Seq<u8>)
    requires
        offset < contents.len(),
    ensures
        transfer_len(contents.len(), offset, data.len()) == vstd::math::min(
            contents.len() - offset,
            data.len() as int,
        ),
        forall|k: int|
            0 <= k < transfer_len(contents.len(), offset, data.len()) ==> write_spec(
                contents,
                offset,
                data,
            )[offset + k] == data[k],
{
}

/// Write/read round trip: writing `data` at offset zero and then reading
/// `length(data)` bytes from offset zero yields `data` unchanged, whenever
/// `data` fits in the store.
pub proof fn lemma_write_read_round_trip(contents: Seq<u8>, data: Seq<u8>)
    requires
        data.len() <= contents.len(),
    ensures
        read_spec(write_spec(contents, 0, data), 0, data.len()) == data,
{
    assert(read_spec(write_spec(contents, 0, data), 0, data.len()) =~= data);
}

/// Untouched-tail invariant: a write never changes the store's length, and
/// every byte outside `[offset, offset + length(data))` keeps its prior value.
pub proof fn lemma_untouched_outside_span(contents: Seq<u8>, offset: nat, data: Seq<u8>)
    ensures
        write_spec(contents, offset, data).len() == contents.len(),
        forall|k: int|
            0 <= k < contents.len() && !(offset <= k < offset + data.len()) ==> write_spec(
                contents,
                offset,
                data,
            )[k] == contents[k],
{
}

/// Mutual exclusion, stated over the guard's serialization: two writes that
/// both took the exclusive guard apply one after the other, each to the whole
/// store. Every byte of the outcome is owed wholly to the later write where
/// its span covers that byte, else to the earlier write where its span does,
/// else to the prior contents — never a byte-level mix of the two writes.
pub proof fn lemma_serialized_writes(
    contents: Seq<u8>,
    off1: nat,
    data1: Seq<u8>,
    off2: nat,
    data2: Seq<u8>,
)
    ensures
        ({
            let after1 = write_spec(contents, off1, data1);
            let after2 = write_spec(after1, off2, data2);
            let n1 = transfer_len(contents.len(), off1, data1.len());
            let n2 = transfer_len(contents.len(), off2, data2.len());
            &&& after2.len() == contents.len()
            &&& forall|k: int|
                0 <= k < contents.len() ==> after2[k] == (if off2 <= k < off2 + n2 {
                    data2[k - off2]
                } else if off1 <= k < off1 + n1 {
                    data1[k - off1]
                } else {
                    contents[k]
                })
        }),
{
}

} // verus!
