//! IPC message model: the fixed-layout envelope that is the unit of data
//! exchanged through the ipc-send and ipc-receive services.
//!
//! An envelope carries a sender process identifier, a recipient process
//! identifier, a fixed-capacity payload buffer, and an explicit length field
//! recording how much of the payload is valid.  Bytes beyond `len` are
//! undefined and must never be interpreted by a receiver.

use vstd::prelude::*;
use vstd::array::ArrayAdditionalExecFns;
use crate::catalog::TrapError;

verus! {

/// Fixed capacity, in bytes, of an IPC message payload buffer.
pub const IPC_PAYLOAD_CAPACITY: usize = 256;

/// A fixed-size IPC message envelope.
///
/// The `from` field is advisory when written by a sender: the kernel
/// authoritatively overwrites it with the true originating process identifier
/// at delivery time, so spoofing a sender is not possible.  The envelope is a
/// plain value: ipc-send copies it into the kernel and the sender's buffer
/// may be reused immediately after the call returns.
#[derive(Clone, Copy, Debug, PartialEq, Eq)]
pub struct IpcMessage {
    /// Originating process identifier; authoritative only after delivery.
    pub from: u32,
    /// Recipient process identifier.
    pub to: u32,
    /// Payload buffer; only the first `len` bytes are meaningful.
    pub data: [u8; 256],
    /// Number of valid payload bytes, at most `IPC_PAYLOAD_CAPACITY`.
    pub len: usize,
}

impl IpcMessage {
    /// Well-formedness: the declared length never exceeds the payload
    /// capacity.
    pub open spec fn wf(self) -> bool {
        self.len <= IPC_PAYLOAD_CAPACITY
    }

    /// The valid payload: the bytes at `[0, len)`.
    pub open spec fn payload_view(self) -> Seq<u8>
        recommends
            self.wf(),
    {
        self.data@.take(self.len as int)
    }

    /// Construct an envelope addressed from `from` to `to` carrying
    /// `payload`.  A payload longer than the fixed capacity is rejected:
    /// it is never silently truncated.
    pub fn new(from: u32, to: u32, payload: &[u8]) -> (r: Result<IpcMessage, TrapError>)
        ensures
            payload@.len() <= IPC_PAYLOAD_CAPACITY ==> (r matches Ok(m) && m.wf() && m.from
                == from && m.to == to && m.len == payload@.len() && m.payload_view()
                == payload@),
            payload@.len() > IPC_PAYLOAD_CAPACITY ==> r == Err::<IpcMessage, TrapError>(
                TrapError::InvalidArgument,
            ),
    {
        let n: usize = payload.len();
        if n > IPC_PAYLOAD_CAPACITY {
            return Err(TrapError::InvalidArgument);
        }
        let mut data: [u8; 256] = [0u8; 256];
        let mut i: usize = 0;
        while i < n
            invariant
                n == payload@.len() <= IPC_PAYLOAD_CAPACITY,
                i <= n,
                forall|j: int| 0 <= j < i ==> data@[j] == payload@[j],
            decreases n - i,
        {
            data.set(i, payload[i]);
            i += 1;
        }
        let m = IpcMessage { from, to, data, len: n };
        proof {
            assert(m.payload_view() =~= payload@);
        }
        Ok(m)
    }

    /// The number of valid payload bytes.
    pub fn payload_len(&self) -> (r: usize)
        ensures
            r == self.len,
    {
        self.len
    }

    /// Read the valid payload byte at position `i`.
    pub fn payload_byte(&self, i: usize) -> (r: u8)
        requires
            self.wf(),
            i < self.len,
        ensures
            r == self.payload_view()[i as int],
    {
        self.data[i]
    }
}

} // verus!
