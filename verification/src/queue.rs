//! The two bounded queues that decouple producers from their single
//! consumer: the outbound CAN frame queue and the status text queue.
//!
//! The frame queue is a strict FIFO of capacity sixteen, drained only by
//! the CAN bus manager.  The status queue holds up to eight human-readable
//! lines for the serial link; writers drop a line on a full queue rather
//! than block, so status reporting is best-effort by design.

use vstd::prelude::*;

use crate::frame::CanFrame;

verus! {

/// Capacity of the outbound CAN frame queue.
pub const CAN_TX_QUEUE_CAPACITY: usize = 16;

/// Capacity of the status text queue.
pub const USB_TX_QUEUE_CAPACITY: usize = 8;

/// The bounded FIFO of outbound CAN frames.
pub struct OutQueue {
    frames: Vec<CanFrame>,
}

impl View for OutQueue {
    type V = Seq<CanFrame>;

    closed spec fn view(&self) -> Seq<CanFrame> {
        self.frames@
    }
}

impl OutQueue {
    /// The queue never holds more frames than its capacity.
    pub open spec fn wf(self) -> bool {
        self@.len() <= CAN_TX_QUEUE_CAPACITY
    }

    /// An empty queue.
    pub fn new() -> (q: OutQueue)
        ensures
            q@ =~= Seq::<CanFrame>::empty(),
            q.wf(),
    {
        OutQueue { frames: Vec::new() }
    }

    /// How many frames are queued.
    pub fn len(&self) -> (n: usize)
        ensures
            n == self@.len(),
    {
        self.frames.len()
    }

    /// Append a frame at the back if there is room; report whether it was
    /// accepted.  Frames already queued are never displaced.
    pub fn try_send(&mut self, frame: CanFrame) -> (accepted: bool)
        requires
            old(self).wf(),
        ensures
            final(self).wf(),
            accepted == (old(self)@.len() < CAN_TX_QUEUE_CAPACITY),
            accepted ==> final(self)@ == old(self)@.push(frame),
            !accepted ==> final(self)@ == old(self)@,
    {
        if self.frames.len() < CAN_TX_QUEUE_CAPACITY {
            self.frames.push(frame);
            true
        } else {
            false
        }
    }

    /// Take the oldest frame, if any: the queue is a strict FIFO.
    pub fn receive(&mut self) -> (r: Option<CanFrame>)
        ensures
            old(self).wf() ==> final(self).wf(),
            old(self)@.len() == 0 ==> r is None && final(self)@ == old(self)@,
            old(self)@.len() > 0 ==> r == Some(old(self)@[0]) && final(self)@ == old(self)@.skip(
                1,
            ),
    {
        if self.frames.len() > 0 {
            let f = self.frames.remove(0);
            proof {
                assert(old(self)@.remove(0) =~= old(self)@.skip(1));
            }
            Some(f)
        } else {
            None
        }
    }
}

/// One line of status text for the serial link.
#[derive(Debug, Clone)]
pub enum UsbMsg {
    Static(&'static str),
    Dynamic(String),
}

/// The bounded queue of status text lines, many producers and one consumer.
pub struct StatusQueue {
    messages: Vec<UsbMsg>,
}

impl View for StatusQueue {
    type V = Seq<UsbMsg>;

    closed spec fn view(&self) -> Seq<UsbMsg> {
        self.messages@
    }
}

impl StatusQueue {
    /// The queue never holds more lines than its capacity.
    pub open spec fn wf(self) -> bool {
        self@.len() <= USB_TX_QUEUE_CAPACITY
    }

    /// An empty queue.
    pub fn new() -> (q: StatusQueue)
        ensures
            q@ =~= Seq::<UsbMsg>::empty(),
            q.wf(),
    {
        StatusQueue { messages: Vec::new() }
    }

    /// How many lines are queued.
    pub fn len(&self) -> (n: usize)
        ensures
            n == self@.len(),
    {
        self.messages.len()
    }

    /// Append a line if there is room, dropping it otherwise: status
    /// reporting never blocks a producer.
    pub fn try_send(&mut self, msg: UsbMsg) -> (accepted: bool)
        requires
            old(self).wf(),
        ensures
            final(self).wf(),
            accepted == (old(self)@.len() < USB_TX_QUEUE_CAPACITY),
            accepted ==> final(self)@ == old(self)@.push(msg),
            !accepted ==> final(self)@ == old(self)@,
    {
        if self.messages.len() < USB_TX_QUEUE_CAPACITY {
            self.messages.push(msg);
            true
        } else {
            false
        }
    }

    /// Take the oldest line, if any.
    pub fn receive(&mut self) -> (r: Option<UsbMsg>)
        ensures
            old(self).wf() ==> final(self).wf(),
            old(self)@.len() == 0 ==> r is None && final(self)@ == old(self)@,
            old(self)@.len() > 0 ==> r == Some(old(self)@[0]) && final(self)@ == old(self)@.skip(
                1,
            ),
    {
        if self.messages.len() > 0 {
            let m = self.messages.remove(0);
            proof {
                assert(old(self)@.remove(0) =~= old(self)@.skip(1));
            }
            Some(m)
        } else {
            None
        }
    }
}

/// Queue a fixed status line for the serial link, best-effort.
pub fn usb_write(q: &mut StatusQueue, msg: &'static str)
    requires
        old(q).wf(),
    ensures
        final(q).wf(),
        old(q)@.len() < USB_TX_QUEUE_CAPACITY ==> final(q)@ == old(q)@.push(UsbMsg::Static(msg)),
        old(q)@.len() >= USB_TX_QUEUE_CAPACITY ==> final(q)@ == old(q)@,
{
    let _ = q.try_send(UsbMsg::Static(msg));
}

/// Queue a formatted status line for the serial link, best-effort.
pub fn usb_write_dynamic(q: &mut StatusQueue, msg: String)
    requires
        old(q).wf(),
    ensures
        final(q).wf(),
        old(q)@.len() < USB_TX_QUEUE_CAPACITY ==> final(q)@ == old(q)@.push(
            UsbMsg::Dynamic(msg),
        ),
        old(q)@.len() >= USB_TX_QUEUE_CAPACITY ==> final(q)@ == old(q)@,
{
    let _ = q.try_send(UsbMsg::Dynamic(msg));
}

} // verus!
