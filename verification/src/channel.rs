//! Simulated kernel delivery step for the ipc-send / ipc-receive services.
//!
//! The kernel retains no message past delivery: this channel holds at most
//! one in-flight envelope, standing for the kernel's copy between the send
//! and the matching receive.  Its transition relation is written as
//! specification functions (`spec_send`, `spec_receive`) so that the laws of
//! the protocol — exact payload preservation, rejection of oversized
//! envelopes, truncation signalling — can be stated and proved once, and the
//! executable operations are proved to implement exactly those transitions.

use vstd::prelude::*;
use crate::catalog::{ERR_INVALID_ARGUMENT, ERR_RESOURCE_EXHAUSTED, ERR_TRUNCATION, ERR_WOULD_BLOCK};
use crate::message::IpcMessage;

verus! {

/// The kernel's in-flight message slot between one send and one receive.
pub struct Channel {
    /// The envelope the kernel has accepted but not yet handed off.
    pub pending: Option<IpcMessage>,
}

/// The envelope as the kernel delivers it: the advisory `from` field written
/// by the sender is authoritatively overwritten with the true originating
/// process identifier, and the recipient with the addressed target.
pub open spec fn stamped(m: IpcMessage, sender: u32, target: u32) -> IpcMessage {
    IpcMessage { from: sender, to: target, ..m }
}

/// Transition of one ipc-send: the resulting channel state and result word.
///
/// A malformed envelope (declared length beyond the payload capacity) is
/// rejected outright — never silently truncated.  A full slot rejects the
/// send with resource exhaustion.  Otherwise the kernel copies the envelope,
/// stamping sender and recipient.
pub open spec fn spec_send(ch: Channel, sender: u32, target: u32, m: IpcMessage) -> (Channel, usize) {
    if !m.wf() {
        (ch, ERR_INVALID_ARGUMENT)
    } else if ch.pending is Some {
        (ch, ERR_RESOURCE_EXHAUSTED)
    } else {
        (Channel { pending: Some(stamped(m, sender, target)) }, 0)
    }
}

/// Transition of one ipc-receive into a buffer of declared capacity `cap`:
/// the resulting channel state, the resulting buffer contents, and the
/// result word.
///
/// With no pending envelope the call would block and the buffer is left
/// untouched.  A pending envelope longer than the receiver's declared
/// capacity fails with a truncation error — no partial delivery — and the
/// buffer is left untouched.  Otherwise the envelope is copied into the
/// buffer and the slot is emptied.
pub open spec fn spec_receive(ch: Channel, buf: IpcMessage, cap: usize) -> (Channel, IpcMessage, usize) {
    match ch.pending {
        None => (ch, buf, ERR_WOULD_BLOCK),
        Some(m) => if m.len <= cap {
            (Channel { pending: None::<IpcMessage> }, m, 0)
        } else {
            (ch, buf, ERR_TRUNCATION)
        },
    }
}

impl Channel {
    /// An empty channel: no envelope in flight.
    pub fn empty() -> (r: Channel)
        ensures
            r.pending is None,
    {
        Channel { pending: None }
    }

    /// Simulated ipc-send issued by process `sender`, addressed to process
    /// `target`.  Copy-and-forget: the caller's envelope is copied into the
    /// kernel slot and may be reused immediately.
    pub fn send(&mut self, sender: u32, target: u32, msg: &IpcMessage) -> (r: usize)
        ensures
            (*final(self), r) == spec_send(*old(self), sender, target, *msg),
    {
        if msg.len > crate::message::IPC_PAYLOAD_CAPACITY {
            ERR_INVALID_ARGUMENT
        } else if self.pending.is_some() {
            ERR_RESOURCE_EXHAUSTED
        } else {
            let mut delivered = *msg;
            delivered.from = sender;
            delivered.to = target;
            self.pending = Some(delivered);
            0
        }
    }

    /// Simulated ipc-receive into `buf`, whose declared payload capacity is
    /// `cap` bytes.  Copy-and-hand-off: on success the buffer is filled
    /// in place and the kernel retains nothing.
    pub fn receive(&mut self, buf: &mut IpcMessage, cap: usize) -> (r: usize)
        ensures
            (*final(self), *final(buf), r) == spec_receive(*old(self), *old(buf), cap),
    {
        match self.pending {
            None => ERR_WOULD_BLOCK,
            Some(m) => {
                if m.len <= cap {
                    *buf = m;
                    self.pending = None;
                    0
                } else {
                    ERR_TRUNCATION
                }
            },
        }
    }
}

/// Round trip: every well-formed envelope whose length fits the receiver's
/// declared capacity, sent through an empty channel and then received, is
/// delivered with its payload bytes `[0, len)` preserved exactly, its sender
/// stamped with the true originating process identifier, and its recipient
/// stamped with the addressed target.  Bytes at `[len, capacity)` are not
/// constrained.
pub proof fn lemma_send_receive_round_trip(
    ch: Channel,
    sender: u32,
    target: u32,
    m: IpcMessage,
    buf: IpcMessage,
    cap: usize,
)
    requires
        ch.pending is None,
        m.wf(),
        m.len <= cap,
    ensures
        ({
            let (ch1, sr) = spec_send(ch, sender, target, m);
            let (ch2, delivered, rr) = spec_receive(ch1, buf, cap);
            &&& sr == 0
            &&& rr == 0
            &&& delivered.payload_view() == m.payload_view()
            &&& delivered.len == m.len
            &&& delivered.from == sender
            &&& delivered.to == target
            &&& ch2.pending is None
        }),
{
}

/// An envelope whose declared length exceeds the payload capacity is
/// rejected at send time with an invalid-argument error, and the channel is
/// left unchanged: nothing is ever silently truncated.
pub proof fn lemma_oversized_send_rejected(ch: Channel, sender: u32, target: u32, m: IpcMessage)
    requires
        !m.wf(),
    ensures
        spec_send(ch, sender, target, m) == (ch, ERR_INVALID_ARGUMENT),
{
}

/// A pending envelope whose declared length exceeds the receiver's declared
/// buffer capacity yields a truncation error: the buffer is untouched, and
/// the envelope is not partially delivered — the channel keeps it intact.
pub proof fn lemma_truncation_signalled(ch: Channel, buf: IpcMessage, cap: usize, m: IpcMessage)
    requires
        ch.pending == Some(m),
        m.len > cap,
    ensures
        spec_receive(ch, buf, cap) == (ch, buf, ERR_TRUNCATION),
{
}

/// With no pending envelope, ipc-receive reports would-block and the
/// caller's buffer is untouched.
pub proof fn lemma_receive_would_block(ch: Channel, buf: IpcMessage, cap: usize)
    requires
        ch.pending is None,
    ensures
        spec_receive(ch, buf, cap) == (ch, buf, ERR_WOULD_BLOCK),
{
}

} // verus!
