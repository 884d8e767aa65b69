//! The guarded byte buffer: an owned, contiguous, growable byte sequence.
//!
//! Exclusive access is expressed through `&mut` borrows: every mutation goes
//! through a method that holds the whole buffer exclusively for its bounded,
//! non-blocking duration, which is the critical-section discipline the
//! storage service relies on.  The buffer grows (never implicitly shrinks)
//! on a write past its current length, zero-filling the gap.
use vstd::prelude::*;

use crate::Error;

verus! {

/// Length of the buffer after a write of `src_len` bytes at `offset` into a
/// buffer of length `buf_len`: the buffer grows to the end of the write if
/// that lies past the current end.
pub open spec fn grown_len(buf_len: nat, offset: nat, src_len: nat) -> nat {
    if buf_len >= offset + src_len {
        buf_len
    } else {
        offset + src_len
    }
}

/// The byte sequence after writing `src` at `offset` into `buf`: bytes under
/// the write come from `src`, bytes before and after keep their old values,
/// and any gap between the old end and `offset` is zero-filled.
pub open spec fn written(buf: Seq<u8>, src: Seq<u8>, offset: nat) -> Seq<u8> {
    Seq::new(
        grown_len(buf.len(), offset, src.len()),
        |i: int|
            if offset <= i < offset + src.len() {
                src[i - offset]
            } else if i < buf.len() {
                buf[i]
            } else {
                0u8
            },
    )
}

/// Number of bytes a read of `dest_len` bytes at `offset` returns from a
/// buffer of the given contents: everything from `offset` to the end, capped
/// at `dest_len`; zero when `offset` lies at or past the end.
pub open spec fn read_len(buf: Seq<u8>, dest_len: nat, offset: nat) -> nat {
    if offset >= buf.len() {
        0
    } else if dest_len <= buf.len() - offset {
        dest_len
    } else {
        (buf.len() - offset) as nat
    }
}

/// All of `ws`, one write after the other, joined in write order.
pub open spec fn concat_all(ws: Seq<Seq<u8>>) -> Seq<u8>
    decreases ws.len(),
{
    if ws.len() == 0 {
        Seq::empty()
    } else {
        concat_all(ws.drop_last()) + ws.last()
    }
}

/// The buffer after the writes of `ws` land in order, each at the offset
/// that keeps the buffer contiguous: exactly the then-current length.
pub open spec fn apply_contiguous(ws: Seq<Seq<u8>>) -> Seq<u8>
    decreases ws.len(),
{
    if ws.len() == 0 {
        Seq::empty()
    } else {
        written(apply_contiguous(ws.drop_last()), ws.last(), apply_contiguous(ws.drop_last()).len())
    }
}

/// Law: the read/write round trip.  Any sequence of writes at offsets that
/// keep the buffer contiguous leaves the buffer holding exactly the
/// concatenation of the written bytes in write order, and a read at offset
/// 0 with room for at least the total then returns all of it.
pub proof fn lemma_contiguous_writes_concatenate(ws: Seq<Seq<u8>>, dest_len: nat)
    requires
        dest_len >= concat_all(ws).len(),
    ensures
        apply_contiguous(ws) == concat_all(ws),
        read_len(apply_contiguous(ws), dest_len, 0) == concat_all(ws).len(),
    decreases ws.len(),
{
    if ws.len() > 0 {
        lemma_contiguous_writes_concatenate(ws.drop_last(), dest_len);
        let prefix = concat_all(ws.drop_last());
        assert(written(prefix, ws.last(), prefix.len()) =~= prefix + ws.last());
    }
}

/// The byte content of the device storage, mutated only under exclusive
/// access.
pub struct GuardedBuffer {
    data: Vec<u8>,
}

impl View for GuardedBuffer {
    type V = Seq<u8>;

    closed spec fn view(&self) -> Seq<u8> {
        self.data@
    }
}

impl GuardedBuffer {
    /// Creates an empty buffer.
    pub fn new() -> (b: GuardedBuffer)
        ensures
            b@ == Seq::<u8>::empty(),
    {
        GuardedBuffer { data: Vec::new() }
    }

    /// Snapshot of the current length.
    pub fn current_length(&self) -> (n: usize)
        ensures
            n == self@.len(),
    {
        self.data.len()
    }

    /// Copies `min(dest.len(), max(0, len - offset))` bytes starting at
    /// `offset` into the front of `dest` and returns the count.  An `offset`
    /// at or beyond the current length yields 0 bytes, not an error, and
    /// never blocks.  Bytes of `dest` past the copied prefix keep their old
    /// values.
    pub fn read_into(&self, dest: &mut Vec<u8>, offset: usize) -> (n: usize)
        ensures
            n == read_len(self@, old(dest)@.len(), offset as nat),
            final(dest)@.len() == old(dest)@.len(),
            forall|i: int| 0 <= i < n ==> final(dest)@[i] == self@[offset + i],
            forall|i: int| n <= i < old(dest)@.len() ==> final(dest)@[i] == old(dest)@[i],
    {
        let buf_len = self.data.len();
        let n: usize = if offset >= buf_len {
            0
        } else if dest.len() <= buf_len - offset {
            dest.len()
        } else {
            buf_len - offset
        };
        let mut i: usize = 0;
        while i < n
            invariant
                i <= n,
                n == read_len(self@, old(dest)@.len(), offset as nat),
                n <= old(dest)@.len(),
                n == 0 || offset + n <= self@.len(),
                offset + n <= usize::MAX,
                dest@.len() == old(dest)@.len(),
                forall|j: int| 0 <= j < i ==> dest@[j] == self@[offset + j],
                forall|j: int| i <= j < old(dest)@.len() ==> dest@[j] == old(dest)@[j],
            decreases n - i,
        {
            dest[i] = self.data[offset + i];
            i = i + 1;
        }
        n
    }

    /// Writes `src` at `offset`, growing the buffer (zero-filling any gap)
    /// when the write ends past the current length.  Fails with `Overflow`
    /// exactly when `offset + src.len()` cannot be represented, leaving the
    /// buffer unchanged; otherwise returns the number of bytes written,
    /// which is all of `src`.
    pub fn write_from(&mut self, src: &Vec<u8>, offset: usize) -> (r: Result<usize, Error>)
        ensures
            offset + src@.len() <= usize::MAX ==> ({
                &&& r matches Ok(n) && n == src@.len()
                &&& final(self)@ == written(old(self)@, src@, offset as nat)
            }),
            offset + src@.len() > usize::MAX ==> ({
                &&& r matches Err(e) && e == Error::Overflow
                &&& final(self)@ == old(self)@
            }),
    {
        let src_len = src.len();
        let end = match offset.checked_add(src_len) {
            Some(end) => end,
            None => {
                return Err(Error::Overflow);
            },
        };
        while self.data.len() < end
            invariant
                old(self)@.len() <= self.data@.len(),
                self.data@.len() <= grown_len(old(self)@.len(), offset as nat, src@.len()),
                end == offset + src@.len(),
                forall|j: int| 0 <= j < old(self)@.len() ==> self.data@[j] == old(self)@[j],
                forall|j: int| old(self)@.len() <= j < self.data@.len() ==> self.data@[j] == 0u8,
            decreases end - self.data@.len(),
        {
            self.data.push(0u8);
        }
        let mut i: usize = 0;
        while i < src_len
            invariant
                i <= src_len,
                src_len == src@.len(),
                end == offset + src@.len(),
                self.data@.len() == grown_len(old(self)@.len(), offset as nat, src@.len()),
                forall|j: int| 0 <= j < i ==> self.data@[offset + j] == src@[j],
                forall|j: int|
                    0 <= j < self.data@.len() && !(offset <= j < offset + i) ==> self.data@[j] == (
                    if j < old(self)@.len() {
                        old(self)@[j]
                    } else {
                        0u8
                    }),
            decreases src_len - i,
        {
            self.data[offset + i] = src[i];
            i = i + 1;
        }
        proof {
            assert(self@ =~= written(old(self)@, src@, offset as nat));
        }
        Ok(src_len)
    }
}

} // verus!
