//! Trap gateway: the per-argument-count family of functions that perform the
//! privilege-mode transition and return the kernel's single scalar result,
//! and the typed per-service wrappers that all higher-level code must call
//! instead of invoking a trap directly.
//!
//! The gateway owns argument marshaling and nothing else: each argument
//! occupies one fixed slot in a fixed order, never reordered, truncated or
//! sign-extended.  Each call performs exactly one mode transition — no
//! buffering, no retry, no batching — and the gateway itself cannot fail:
//! failure is reported solely through the returned result word, interpreted
//! against the service catalog's per-service contract.
//!
//! Because the real kernel lives on the far side of the trap instruction,
//! the gateway here is instrumented: it counts mode transitions and
//! dispatches into a simulated kernel dispatcher whose per-service result is
//! the specification function `mock_result`.  For the read and write
//! services the simulated kernel echoes the length argument; for the
//! message-passing services the typed wrappers run the kernel's delivery
//! step on the gateway's channel.

use vstd::prelude::*;
use crate::catalog::{
    ERR_INVALID_SERVICE, ERR_WOULD_BLOCK, SYS_COPY_FROM_USER, SYS_COPY_TO_USER, SYS_EXIT,
    SYS_IPC_RECV, SYS_IPC_SEND, SYS_READ, SYS_WRITE,
};
use crate::channel::{Channel, spec_receive, spec_send};
use crate::message::IpcMessage;

verus! {

/// The simulated kernel dispatcher's result for one trap, as a function of
/// the service identifier and the five argument slots alone.
///
/// Because the result depends on nothing but the caller's own service
/// identifier and arguments, concurrent callers on independent gateways
/// cannot observe one another's results.  Slots beyond the service's arity
/// are ignored, as a kernel ignores argument registers it does not read.
/// The simulation answers: exit echoes the status code; read and write
/// report the full requested length as transferred; ipc-send through the
/// scalar interface is accepted; ipc-receive through the scalar interface
/// finds no pending message and would block; the copy services succeed; an
/// identifier outside the catalog is rejected by the kernel, not by the
/// gateway.
pub open spec fn mock_result(n: usize, a1: usize, a2: usize, a3: usize, a4: usize, a5: usize) -> usize {
    if n == SYS_EXIT {
        a1
    } else if n == SYS_READ {
        a3
    } else if n == SYS_WRITE {
        a3
    } else if n == SYS_IPC_SEND {
        0
    } else if n == SYS_IPC_RECV {
        ERR_WOULD_BLOCK
    } else if n == SYS_COPY_TO_USER {
        0
    } else if n == SYS_COPY_FROM_USER {
        0
    } else {
        ERR_INVALID_SERVICE
    }
}

/// One caller's instrumented trap boundary.
///
/// Each invocation owns its own argument and result storage: there is no
/// shared mutable state between gateways, so independent threads each
/// observe only their own result value.
pub struct Gateway {
    /// Number of mode transitions performed through this gateway.
    pub transitions: u64,
    /// True process identifier of the caller, as the kernel knows it.  The
    /// kernel stamps outgoing messages with it, whatever the sender wrote.
    pub pid: u32,
    /// The kernel's in-flight message slot serving this caller.
    pub channel: Channel,
}

impl Gateway {
    /// A fresh gateway for the process the kernel knows as `pid`: no
    /// transitions performed yet, no message in flight.
    pub fn new(pid: u32) -> (r: Gateway)
        ensures
            r.transitions == 0,
            r.pid == pid,
            r.channel.pending is None,
    {
        Gateway { transitions: 0, pid, channel: Channel::empty() }
    }

    /// Trap with no arguments: one mode transition, one scalar result.
    pub fn trap0(&mut self, n: usize) -> (r: usize)
        requires
            old(self).transitions < u64::MAX,
        ensures
            final(self).transitions == old(self).transitions + 1,
            final(self).pid == old(self).pid,
            final(self).channel == old(self).channel,
            r == mock_result(n, 0, 0, 0, 0, 0),
    {
        self.transitions = self.transitions + 1;
        dispatch(n, 0, 0, 0, 0, 0)
    }

    /// Trap with one argument: one mode transition, one scalar result.
    pub fn trap1(&mut self, n: usize, a1: usize) -> (r: usize)
        requires
            old(self).transitions < u64::MAX,
        ensures
            final(self).transitions == old(self).transitions + 1,
            final(self).pid == old(self).pid,
            final(self).channel == old(self).channel,
            r == mock_result(n, a1, 0, 0, 0, 0),
    {
        self.transitions = self.transitions + 1;
        dispatch(n, a1, 0, 0, 0, 0)
    }

    /// Trap with two arguments: one mode transition, one scalar result.
    pub fn trap2(&mut self, n: usize, a1: usize, a2: usize) -> (r: usize)
        requires
            old(self).transitions < u64::MAX,
        ensures
            final(self).transitions == old(self).transitions + 1,
            final(self).pid == old(self).pid,
            final(self).channel == old(self).channel,
            r == mock_result(n, a1, a2, 0, 0, 0),
    {
        self.transitions = self.transitions + 1;
        dispatch(n, a1, a2, 0, 0, 0)
    }

    /// Trap with three arguments: one mode transition, one scalar result.
    pub fn trap3(&mut self, n: usize, a1: usize, a2: usize, a3: usize) -> (r: usize)
        requires
            old(self).transitions < u64::MAX,
        ensures
            final(self).transitions == old(self).transitions + 1,
            final(self).pid == old(self).pid,
            final(self).channel == old(self).channel,
            r == mock_result(n, a1, a2, a3, 0, 0),
    {
        self.transitions = self.transitions + 1;
        dispatch(n, a1, a2, a3, 0, 0)
    }

    /// Trap with four arguments: one mode transition, one scalar result.
    pub fn trap4(&mut self, n: usize, a1: usize, a2: usize, a3: usize, a4: usize) -> (r: usize)
        requires
            old(self).transitions < u64::MAX,
        ensures
            final(self).transitions == old(self).transitions + 1,
            final(self).pid == old(self).pid,
            final(self).channel == old(self).channel,
            r == mock_result(n, a1, a2, a3, a4, 0),
    {
        self.transitions = self.transitions + 1;
        dispatch(n, a1, a2, a3, a4, 0)
    }

    /// Trap with five arguments: one mode transition, one scalar result.
    pub fn trap5(&mut self, n: usize, a1: usize, a2: usize, a3: usize, a4: usize, a5: usize) -> (r: usize)
        requires
            old(self).transitions < u64::MAX,
        ensures
            final(self).transitions == old(self).transitions + 1,
            final(self).pid == old(self).pid,
            final(self).channel == old(self).channel,
            r == mock_result(n, a1, a2, a3, a4, a5),
    {
        self.transitions = self.transitions + 1;
        dispatch(n, a1, a2, a3, a4, a5)
    }

    /// Request process termination with `status`.  Against a real kernel
    /// this service does not return; the simulated dispatcher echoes the
    /// status code so the transition itself stays observable.
    pub fn sys_exit(&mut self, status: usize) -> (r: usize)
        requires
            old(self).transitions < u64::MAX,
        ensures
            final(self).transitions == old(self).transitions + 1,
            final(self).pid == old(self).pid,
            final(self).channel == old(self).channel,
            r == mock_result(SYS_EXIT, status, 0, 0, 0, 0),
    {
        self.trap1(SYS_EXIT, status)
    }

    /// Read up to `len` bytes from descriptor `fd` into the buffer at
    /// `buf_addr`.  The simulated dispatcher reports the full requested
    /// length as read.
    pub fn sys_read(&mut self, fd: usize, buf_addr: usize, len: usize) -> (r: usize)
        requires
            old(self).transitions < u64::MAX,
        ensures
            final(self).transitions == old(self).transitions + 1,
            final(self).pid == old(self).pid,
            final(self).channel == old(self).channel,
            r == mock_result(SYS_READ, fd, buf_addr, len, 0, 0),
            r == len,
    {
        self.trap3(SYS_READ, fd, buf_addr, len)
    }

    /// Write `len` bytes from the buffer at `buf_addr` to descriptor `fd`.
    /// The simulated dispatcher echoes the length: the result is the number
    /// of bytes written.
    pub fn sys_write(&mut self, fd: usize, buf_addr: usize, len: usize) -> (r: usize)
        requires
            old(self).transitions < u64::MAX,
        ensures
            final(self).transitions == old(self).transitions + 1,
            final(self).pid == old(self).pid,
            final(self).channel == old(self).channel,
            r == mock_result(SYS_WRITE, fd, buf_addr, len, 0, 0),
            r == len,
    {
        self.trap3(SYS_WRITE, fd, buf_addr, len)
    }

    /// Copy `len` bytes from kernel memory at `src` into user memory at
    /// `dest`.  Range validation is the kernel's invariant; the simulated
    /// dispatcher accepts the request.
    pub fn sys_copy_to_user(&mut self, dest: usize, src: usize, len: usize) -> (r: usize)
        requires
            old(self).transitions < u64::MAX,
        ensures
            final(self).transitions == old(self).transitions + 1,
            final(self).pid == old(self).pid,
            final(self).channel == old(self).channel,
            r == mock_result(SYS_COPY_TO_USER, dest, src, len, 0, 0),
    {
        self.trap3(SYS_COPY_TO_USER, dest, src, len)
    }

    /// Copy `len` bytes from user memory at `src` into kernel memory at
    /// `dest`.  Range validation is the kernel's invariant; the simulated
    /// dispatcher accepts the request.
    pub fn sys_copy_from_user(&mut self, dest: usize, src: usize, len: usize) -> (r: usize)
        requires
            old(self).transitions < u64::MAX,
        ensures
            final(self).transitions == old(self).transitions + 1,
            final(self).pid == old(self).pid,
            final(self).channel == old(self).channel,
            r == mock_result(SYS_COPY_FROM_USER, dest, src, len, 0, 0),
    {
        self.trap3(SYS_COPY_FROM_USER, dest, src, len)
    }

    /// Send the envelope `msg` to process `target`: one mode transition,
    /// then the kernel's delivery step on this gateway's channel.  The
    /// kernel stamps the copied envelope with this caller's true process
    /// identifier, whatever `msg.from` says, and with the addressed target.
    /// Copy-and-forget: `msg` may be reused as soon as the call returns.
    pub fn sys_ipc_send(&mut self, target: u32, msg: &IpcMessage) -> (r: usize)
        requires
            old(self).transitions < u64::MAX,
        ensures
            final(self).transitions == old(self).transitions + 1,
            final(self).pid == old(self).pid,
            (final(self).channel, r) == spec_send(old(self).channel, old(self).pid, target, *msg),
    {
        self.transitions = self.transitions + 1;
        let pid = self.pid;
        self.channel.send(pid, target, msg)
    }

    /// Receive a pending envelope into `buf`, whose declared payload
    /// capacity is `cap` bytes: one mode transition, then the kernel's
    /// hand-off step on this gateway's channel.  With no pending envelope
    /// the result is the would-block sentinel and `buf` is untouched; a
    /// pending envelope longer than `cap` yields a truncation error, never
    /// a partial delivery.
    pub fn sys_ipc_recv(&mut self, buf: &mut IpcMessage, cap: usize) -> (r: usize)
        requires
            old(self).transitions < u64::MAX,
        ensures
            final(self).transitions == old(self).transitions + 1,
            final(self).pid == old(self).pid,
            (final(self).channel, *final(buf), r) == spec_receive(
                old(self).channel,
                *old(buf),
                cap,
            ),
    {
        self.transitions = self.transitions + 1;
        self.channel.receive(buf, cap)
    }
}

/// The simulated kernel dispatcher: interprets the service identifier and
/// argument slots and returns the result word `mock_result` specifies.
fn dispatch(n: usize, a1: usize, a2: usize, a3: usize, a4: usize, a5: usize) -> (r: usize)
    ensures
        r == mock_result(n, a1, a2, a3, a4, a5),
{
    if n == SYS_EXIT {
        a1
    } else if n == SYS_READ {
        a3
    } else if n == SYS_WRITE {
        a3
    } else if n == SYS_IPC_SEND {
        0
    } else if n == SYS_IPC_RECV {
        ERR_WOULD_BLOCK
    } else if n == SYS_COPY_TO_USER {
        0
    } else if n == SYS_COPY_FROM_USER {
        0
    } else {
        ERR_INVALID_SERVICE
    }
}

} // verus!
