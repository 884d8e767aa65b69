//! The channel: one wait queue coupled with one guarded buffer, giving
//! blocking-read / notify-on-write semantics.
//!
//! A blocking read runs as a state machine.  `blocking_read_begin` snapshots
//! the buffer length; when bytes are already available (or the destination
//! is empty) it finishes at once, otherwise it registers a waiter that waits
//! for "buffer length changed from the snapshot".  The caller then suspends,
//! and every resume runs one `blocking_read_resume`, which re-snapshots the
//! length fresh: a changed length completes the wait and copies the now
//! available bytes, an interruption aborts it without touching the buffer,
//! and anything else was a spurious or stolen wake, so the caller blocks
//! again.  The buffer's exclusive borrow is never held across a suspension:
//! each step takes its own snapshot and releases before the caller blocks,
//! which keeps a waiter from deadlocking against the writer that must wake
//! it.  `write_and_notify` writes and then resumes exactly one waiting
//! reader; readers that stay blocked rely on their own re-check step and on
//! later writes.
use vstd::prelude::*;

use crate::buffer::GuardedBuffer;
use crate::buffer::read_len;
use crate::buffer::written;
use crate::wait::WaitQueue;
use crate::wait::WaitStart;
use crate::wait::WaitStep;
use crate::wait::WaitOutcome;
use crate::wait::WakeEvent;
use crate::wait::WaiterEntry;
use crate::wait::WaiterHandle;
use crate::wait::contains_token;
use crate::wait::notified;
use crate::wait::removed_token;
use crate::wait::resuspended;
use crate::Error;

verus! {

/// A blocked read in progress: the waiter's handle together with the length
/// snapshot its condition re-checks against, and the destination geometry
/// fixed at the start of the read.
pub struct ReadWaiter {
    handle: WaiterHandle,
    snapshot: usize,
    offset: usize,
    dest_len: usize,
}

impl ReadWaiter {
    /// The token of the underlying waiter entry.
    pub closed spec fn token(&self) -> u64 {
        self.handle.token()
    }

    /// The buffer length observed when the read began to wait.
    pub closed spec fn snapshot(&self) -> nat {
        self.snapshot as nat
    }

    /// The read offset fixed at the start of the read.
    pub closed spec fn offset(&self) -> nat {
        self.offset as nat
    }

    /// The destination length fixed at the start of the read.
    pub closed spec fn dest_len(&self) -> nat {
        self.dest_len as nat
    }

    /// Blocked reads always wait interruptibly.
    pub closed spec fn wf(&self) -> bool {
        self.handle.interruptible()
    }
}

/// Result of beginning a blocking read.
pub enum ReadStart {
    /// Bytes are available (or the destination is empty): read immediately,
    /// no waiter was registered.
    Ready,
    /// Nothing is available: the caller must suspend and resume through
    /// `blocking_read_resume`.
    MustWait(ReadWaiter),
}

/// Result of one resume of a blocked read.
pub enum ReadResume {
    /// The wait completed and this many bytes were copied out.
    Done(usize),
    /// An interruption aborted the wait; no bytes were read and the buffer
    /// was not touched again.
    Interrupted,
    /// A spurious or stolen wake: the caller must suspend again.
    BlockAgain(ReadWaiter),
}

/// What a write followed by a single wake does: on success the buffer holds
/// the written bytes and the first suspended waiter (if any) is marked
/// runnable; on overflow nothing changes and no one is woken.
pub open spec fn write_and_notify_post(
    c0: Seq<u8>,
    w0: Seq<WaiterEntry>,
    src: Seq<u8>,
    offset: nat,
    c1: Seq<u8>,
    w1: Seq<WaiterEntry>,
    r: Result<usize, Error>,
) -> bool {
    if offset + src.len() <= usize::MAX {
        &&& r matches Ok(n) && n == src.len()
        &&& c1 == written(c0, src, offset)
        &&& w1 == notified(w0, 1)
    } else {
        &&& r matches Err(e) && e == Error::Overflow
        &&& c1 == c0
        &&& w1 == w0
    }
}

/// What beginning a blocking read does to the waiter registry: the fast
/// path registers nothing; the slow path appends one fresh, suspended
/// waiter carrying the length snapshot and the read geometry.
pub open spec fn blocking_read_begin_post(
    c0: Seq<u8>,
    w0: Seq<WaiterEntry>,
    dest_len: nat,
    offset: nat,
    w1: Seq<WaiterEntry>,
    r: ReadStart,
) -> bool {
    if read_len(c0, dest_len, offset) > 0 || dest_len == 0 {
        &&& r is Ready
        &&& w1 == w0
    } else {
        &&& r matches ReadStart::MustWait(w)
        &&& w.wf()
        &&& w.snapshot() == c0.len()
        &&& w.offset() == offset
        &&& w.dest_len() == dest_len
        &&& !contains_token(w0, w.token())
        &&& contains_token(w1, w.token())
        &&& w1 == w0.push(WaiterEntry { token: w.token(), runnable: false })
    }
}

/// What one resume of a blocked read does.  The condition is re-evaluated
/// fresh: the read completes only when the buffer length differs from the
/// snapshot, in which case the waiter entry is removed and the available
/// bytes are copied out (possibly zero, if a third party drained them
/// between wake and re-check — no further blocking is attempted).  With an
/// unchanged length, an interruption removes the entry and reports
/// `Interrupted` with the destination untouched; an explicit wake leaves
/// the entry registered, suspended again.
pub open spec fn blocking_read_resume_post(
    c0: Seq<u8>,
    w0: Seq<WaiterEntry>,
    wtr: ReadWaiter,
    event: WakeEvent,
    d0: Seq<u8>,
    w1: Seq<WaiterEntry>,
    d1: Seq<u8>,
    r: ReadResume,
) -> bool {
    if c0.len() != wtr.snapshot() {
        &&& r matches ReadResume::Done(n) && n == read_len(c0, wtr.dest_len(), wtr.offset())
        &&& w1 == removed_token(w0, wtr.token())
        &&& d1.len() == d0.len()
        &&& forall|i: int|
            0 <= i < read_len(c0, wtr.dest_len(), wtr.offset()) ==> d1[i] == c0[wtr.offset() + i]
        &&& forall|i: int|
            read_len(c0, wtr.dest_len(), wtr.offset()) <= i < d0.len() ==> d1[i] == d0[i]
    } else if event is Interruption {
        &&& r is Interrupted
        &&& w1 == removed_token(w0, wtr.token())
        &&& d1 == d0
    } else {
        &&& r matches ReadResume::BlockAgain(w2) && w2 == wtr
        &&& contains_token(w1, wtr.token())
        &&& w1 == resuspended(w0, wtr.token())
        &&& d1 == d0
    }
}

/// One device instance: a wait queue, a guarded buffer, and the device
/// number that identifies the instance.
pub struct Channel {
    number: u32,
    queue: WaitQueue,
    buffer: GuardedBuffer,
}

impl Channel {
    /// The buffer's byte content.
    pub closed spec fn contents(&self) -> Seq<u8> {
        self.buffer@
    }

    /// The wait queue's registered waiters.
    pub closed spec fn waiters(&self) -> Seq<WaiterEntry> {
        self.queue@
    }

    /// The identifying device number.
    pub closed spec fn device_number(&self) -> u32 {
        self.number
    }

    /// How many waiter registrations this channel has performed.
    pub closed spec fn registrations(&self) -> u64 {
        self.queue.tokens_issued()
    }

    /// One more blocked read can register (a machine limit on the lifetime
    /// registration count).
    pub open spec fn can_register(&self) -> bool {
        self.registrations() < u64::MAX
    }

    pub closed spec fn wf(&self) -> bool {
        self.queue.wf()
    }

    /// Creates the channel for one device instance, with an empty buffer
    /// and no waiters.
    pub fn try_new(number: u32) -> (r: Result<Channel, Error>)
        ensures
            r matches Ok(c) && c.wf() && c.device_number() == number && c.contents()
                == Seq::<u8>::empty() && c.waiters() == Seq::<WaiterEntry>::empty()
                && c.registrations() == 0,
    {
        let queue = match WaitQueue::try_new("channel wait queue") {
            Ok(q) => q,
            Err(_) => {
                return Err(Error::AllocationFailed);
            },
        };
        Ok(Channel { number, queue, buffer: GuardedBuffer::new() })
    }

    /// Snapshot of the buffer's current length (the out-of-band control
    /// query), taken under the buffer's exclusive access and with no
    /// interaction with the wait queue.
    pub fn current_length(&self) -> (n: usize)
        ensures
            n == self.contents().len(),
    {
        self.buffer.current_length()
    }

    /// Whether one more blocked read can register (the lifetime
    /// registration budget is not exhausted).
    pub fn can_accept_waiter(&self) -> (b: bool)
        ensures
            b == self.can_register(),
    {
        self.queue.has_register_budget()
    }

    /// Number of registered waiters.
    pub fn waiter_count(&self) -> (n: usize)
        ensures
            n == self.waiters().len(),
    {
        self.queue.len()
    }

    /// The non-blocking read: copies whatever is available at `offset`
    /// (never more than `dest` holds) and returns the count.  An offset at
    /// or past the end yields 0 bytes without blocking and without error.
    pub fn read_into(&self, dest: &mut Vec<u8>, offset: usize) -> (n: usize)
        ensures
            n == read_len(self.contents(), old(dest)@.len(), offset as nat),
            final(dest)@.len() == old(dest)@.len(),
            forall|i: int| 0 <= i < n ==> final(dest)@[i] == self.contents()[offset + i],
            forall|i: int| n <= i < old(dest)@.len() ==> final(dest)@[i] == old(dest)@[i],
    {
        self.buffer.read_into(dest, offset)
    }

    /// Writes `src` at `offset` and, on success, resumes exactly one
    /// waiting reader; a failed write notifies no one.
    pub fn write_and_notify(&mut self, src: &Vec<u8>, offset: usize) -> (r: Result<usize, Error>)
        requires
            old(self).wf(),
        ensures
            final(self).wf(),
            final(self).device_number() == old(self).device_number(),
            final(self).registrations() == old(self).registrations(),
            write_and_notify_post(
                old(self).contents(),
                old(self).waiters(),
                src@,
                offset as nat,
                final(self).contents(),
                final(self).waiters(),
                r,
            ),
    {
        match self.buffer.write_from(src, offset) {
            Ok(n) => {
                self.queue.try_wake();
                Ok(n)
            },
            Err(e) => Err(e),
        }
    }

    /// Begins a blocking read of `dest_len` bytes at `offset`.  The length
    /// snapshot is taken under the buffer's exclusive access and released
    /// before any waiting: the buffer is never held while blocked.
    pub fn blocking_read_begin(&mut self, dest_len: usize, offset: usize) -> (r: ReadStart)
        requires
            old(self).wf(),
            dest_len > 0 && old(self).contents().len() <= offset ==> old(self).can_register(),
        ensures
            final(self).wf(),
            final(self).contents() == old(self).contents(),
            final(self).device_number() == old(self).device_number(),
            blocking_read_begin_post(
                old(self).contents(),
                old(self).waiters(),
                dest_len as nat,
                offset as nat,
                final(self).waiters(),
                r,
            ),
            r is Ready ==> final(self).registrations() == old(self).registrations(),
            r is MustWait ==> final(self).registrations() == old(self).registrations() + 1,
    {
        let snapshot = self.buffer.current_length();
        if offset < snapshot || dest_len == 0 {
            return ReadStart::Ready;
        }
        // The condition "length changed from the snapshot" is false at this
        // very check, so the waiter is registered.
        match self.queue.wait_event_interruptible(false) {
            WaitStart::Ready => ReadStart::Ready,
            WaitStart::Registered(handle) => ReadStart::MustWait(
                ReadWaiter { handle, snapshot, offset, dest_len },
            ),
        }
    }

    /// One resume of a blocked read, with `dest` the same destination the
    /// read was begun for.  Re-snapshots the buffer length, runs one step
    /// of the wait protocol on it, and on completion copies the available
    /// bytes at the read's offset into `dest`.
    pub fn blocking_read_resume(
        &mut self,
        wtr: ReadWaiter,
        event: WakeEvent,
        dest: &mut Vec<u8>,
    ) -> (r: ReadResume)
        requires
            old(self).wf(),
            wtr.wf(),
            contains_token(old(self).waiters(), wtr.token()),
            old(dest)@.len() == wtr.dest_len(),
        ensures
            final(self).wf(),
            final(self).contents() == old(self).contents(),
            final(self).device_number() == old(self).device_number(),
            final(self).registrations() == old(self).registrations(),
            blocking_read_resume_post(
                old(self).contents(),
                old(self).waiters(),
                wtr,
                event,
                old(dest)@,
                final(self).waiters(),
                final(dest)@,
                r,
            ),
    {
        let ReadWaiter { handle, snapshot, offset, dest_len } = wtr;
        let cur = self.buffer.current_length();
        let changed = cur != snapshot;
        match self.queue.wait_step(handle, changed, event) {
            WaitStep::Finish(WaitOutcome::Completed) => {
                let n = self.buffer.read_into(dest, offset);
                ReadResume::Done(n)
            },
            WaitStep::Finish(WaitOutcome::Interrupted) => ReadResume::Interrupted,
            WaitStep::Block(h) => ReadResume::BlockAgain(
                ReadWaiter { handle: h, snapshot, offset, dest_len },
            ),
        }
    }
}

/// Law: a read blocked on an empty snapshot does not finish until either a
/// write changed the buffer length — after which the resume completes and
/// returns the newly available bytes — or an interruption arrives, after
/// which it reports `Interrupted` with the buffer and destination left
/// unmodified.  Any explicit wake with the length still unchanged blocks
/// again.
pub proof fn lemma_read_blocks_until_write_or_interrupt(
    c0: Seq<u8>,
    w0: Seq<WaiterEntry>,
    wtr: ReadWaiter,
    event: WakeEvent,
    d0: Seq<u8>,
    w1: Seq<WaiterEntry>,
    d1: Seq<u8>,
    r: ReadResume,
)
    requires
        blocking_read_resume_post(c0, w0, wtr, event, d0, w1, d1, r),
    ensures
        c0.len() == wtr.snapshot() && event is Woken ==> ({
            &&& r matches ReadResume::BlockAgain(w2) && w2 == wtr
            &&& d1 == d0
        }),
        c0.len() == wtr.snapshot() && event is Interruption ==> r is Interrupted && d1 == d0,
        c0.len() != wtr.snapshot() ==> ({
            &&& r matches ReadResume::Done(n) && n == read_len(c0, wtr.dest_len(), wtr.offset())
        }),
{
}

} // verus!
