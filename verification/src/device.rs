//! The device table: N independently numbered device instances, each with
//! its own channel, owned and torn down as a unit.
//!
//! The table maps file-like operations onto channel operations by device
//! number.  There is no cross-instance synchronization: each channel is
//! fully independent.  `open` only validates the number and hands it back
//! as the session handle; the control query reports the buffer length and
//! never touches the wait queue.
use vstd::prelude::*;

use crate::channel::Channel;
use crate::channel::ReadResume;
use crate::channel::ReadStart;
use crate::channel::ReadWaiter;
use crate::channel::blocking_read_begin_post;
use crate::channel::blocking_read_resume_post;
use crate::channel::write_and_notify_post;
use crate::wait::WaiterEntry;
use crate::wait::WakeEvent;
use crate::wait::contains_token;
use crate::Error;

verus! {

/// The owning collection of all device instances, indexed by device
/// number.
pub struct DeviceTable {
    devices: Vec<Channel>,
}

impl DeviceTable {
    /// The channels, one per device number.
    pub closed spec fn channels(&self) -> Seq<Channel> {
        self.devices@
    }

    /// Every channel is well-formed and numbered by its index.
    pub closed spec fn wf(&self) -> bool {
        forall|i: int|
            0 <= i < self.devices@.len() ==> (#[trigger] self.devices@[i]).wf()
                && self.devices@[i].device_number() == i
    }

    /// Creates `count` independent device instances, numbered 0 up to
    /// `count`, each with an empty buffer and no waiters.
    pub fn init(count: usize) -> (r: Result<DeviceTable, Error>)
        requires
            count <= u32::MAX,
        ensures
            r matches Ok(t) && t.wf() && t.channels().len() == count && forall|i: int|
                0 <= i < count ==> (#[trigger] t.channels()[i]).contents() == Seq::<u8>::empty()
                    && t.channels()[i].waiters() == Seq::<WaiterEntry>::empty()
                    && t.channels()[i].registrations() == 0,
    {
        let mut devices: Vec<Channel> = Vec::new();
        let mut i: usize = 0;
        while i < count
            invariant
                i <= count,
                count <= u32::MAX,
                devices@.len() == i,
                forall|j: int|
                    0 <= j < i ==> (#[trigger] devices@[j]).wf() && devices@[j].device_number()
                        == j && devices@[j].contents() == Seq::<u8>::empty() && devices@[j].waiters()
                        == Seq::<WaiterEntry>::empty() && devices@[j].registrations() == 0,
            decreases count - i,
        {
            let c = match Channel::try_new(i as u32) {
                Ok(c) => c,
                Err(_) => {
                    return Err(Error::AllocationFailed);
                },
            };
            devices.push(c);
            i = i + 1;
        }
        Ok(DeviceTable { devices })
    }

    /// Number of device instances.
    pub fn device_count(&self) -> (n: usize)
        ensures
            n == self.channels().len(),
    {
        self.devices.len()
    }

    /// Binds a caller session to the channel for a device number: the
    /// handle is the validated number itself.  An out-of-range number
    /// yields no handle.
    pub fn open(&self, device_number: usize) -> (r: Option<usize>)
        ensures
            device_number < self.channels().len() ==> r == Some(device_number),
            device_number >= self.channels().len() ==> r is None,
    {
        if device_number < self.devices.len() {
            Some(device_number)
        } else {
            None
        }
    }

    /// Forwards a write to the device's channel: the write lands in that
    /// channel's buffer, one of its waiting readers is resumed on success,
    /// and every other device is left untouched.
    pub fn write(&mut self, dev: usize, src: &Vec<u8>, offset: usize) -> (r: Result<usize, Error>)
        requires
            old(self).wf(),
            dev < old(self).channels().len(),
        ensures
            final(self).wf(),
            final(self).channels().len() == old(self).channels().len(),
            forall|i: int|
                0 <= i < old(self).channels().len() && i != dev ==> final(self).channels()[i]
                    == old(self).channels()[i],
            final(self).channels()[dev as int].registrations() == old(self).channels()[
                dev as int
            ].registrations(),
            write_and_notify_post(
                old(self).channels()[dev as int].contents(),
                old(self).channels()[dev as int].waiters(),
                src@,
                offset as nat,
                final(self).channels()[dev as int].contents(),
                final(self).channels()[dev as int].waiters(),
                r,
            ),
    {
        self.devices[dev].write_and_notify(src, offset)
    }

    /// Forwards the start of a blocking read to the device's channel.
    pub fn read_begin(&mut self, dev: usize, dest_len: usize, offset: usize) -> (r: ReadStart)
        requires
            old(self).wf(),
            dev < old(self).channels().len(),
            dest_len > 0 && old(self).channels()[dev as int].contents().len() <= offset ==> old(
                self,
            ).channels()[dev as int].can_register(),
        ensures
            final(self).wf(),
            final(self).channels().len() == old(self).channels().len(),
            forall|i: int|
                0 <= i < old(self).channels().len() && i != dev ==> final(self).channels()[i]
                    == old(self).channels()[i],
            final(self).channels()[dev as int].contents() == old(self).channels()[
                dev as int
            ].contents(),
            blocking_read_begin_post(
                old(self).channels()[dev as int].contents(),
                old(self).channels()[dev as int].waiters(),
                dest_len as nat,
                offset as nat,
                final(self).channels()[dev as int].waiters(),
                r,
            ),
    {
        self.devices[dev].blocking_read_begin(dest_len, offset)
    }

    /// Forwards one resume of a blocked read to the device's channel.
    pub fn read_resume(
        &mut self,
        dev: usize,
        wtr: ReadWaiter,
        event: WakeEvent,
        dest: &mut Vec<u8>,
    ) -> (r: ReadResume)
        requires
            old(self).wf(),
            dev < old(self).channels().len(),
            wtr.wf(),
            contains_token(old(self).channels()[dev as int].waiters(), wtr.token()),
            old(dest)@.len() == wtr.dest_len(),
        ensures
            final(self).wf(),
            final(self).channels().len() == old(self).channels().len(),
            forall|i: int|
                0 <= i < old(self).channels().len() && i != dev ==> final(self).channels()[i]
                    == old(self).channels()[i],
            final(self).channels()[dev as int].contents() == old(self).channels()[
                dev as int
            ].contents(),
            blocking_read_resume_post(
                old(self).channels()[dev as int].contents(),
                old(self).channels()[dev as int].waiters(),
                wtr,
                event,
                old(dest)@,
                final(self).channels()[dev as int].waiters(),
                final(dest)@,
                r,
            ),
    {
        self.devices[dev].blocking_read_resume(wtr, event, dest)
    }

    /// The non-blocking read on the device's channel (also the second pass
    /// of a completed blocking read, from the caller's side).
    pub fn read_into(&self, dev: usize, dest: &mut Vec<u8>, offset: usize) -> (n: usize)
        requires
            dev < self.channels().len(),
        ensures
            n == crate::buffer::read_len(
                self.channels()[dev as int].contents(),
                old(dest)@.len(),
                offset as nat,
            ),
            final(dest)@.len() == old(dest)@.len(),
            forall|i: int|
                0 <= i < n ==> final(dest)@[i] == self.channels()[dev as int].contents()[offset
                    + i],
            forall|i: int| n <= i < old(dest)@.len() ==> final(dest)@[i] == old(dest)@[i],
    {
        self.devices[dev].read_into(dest, offset)
    }

    /// Whether the device's channel can register one more blocked read.
    pub fn can_accept_waiter(&self, dev: usize) -> (b: bool)
        requires
            dev < self.channels().len(),
        ensures
            b == self.channels()[dev as int].can_register(),
    {
        self.devices[dev].can_accept_waiter()
    }

    /// The out-of-band control query: reports the device buffer's current
    /// length, with no interaction with the wait queue.
    pub fn control(&self, dev: usize) -> (n: usize)
        requires
            dev < self.channels().len(),
        ensures
            n == self.channels()[dev as int].contents().len(),
    {
        self.devices[dev].current_length()
    }
}

} // verus!
