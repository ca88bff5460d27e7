//! Service catalog: the authoritative mapping from symbolic operation name to
//! numeric service identifier, the per-service argument count, and the error
//! sentinels that a trap result may carry.
//!
//! Identifiers are dense, non-overlapping, and ABI-stable: they must never be
//! renumbered or reused for a different semantic meaning once published.

use vstd::prelude::*;

verus! {

/// Terminate the calling process.  One argument: status code.
pub const SYS_EXIT: usize = 1;
/// Read from a file descriptor.  Three arguments: fd, buffer pointer, length.
pub const SYS_READ: usize = 2;
/// Write to a file descriptor.  Three arguments: fd, buffer pointer, length.
pub const SYS_WRITE: usize = 3;
/// Send an IPC message.  Two arguments: target process id, message pointer.
pub const SYS_IPC_SEND: usize = 4;
/// Receive an IPC message.  One argument: message buffer pointer.
pub const SYS_IPC_RECV: usize = 5;
/// Copy a range into user memory.  Three arguments: dest, src, length.
pub const SYS_COPY_TO_USER: usize = 6;
/// Copy a range out of user memory.  Three arguments: dest, src, length.
pub const SYS_COPY_FROM_USER: usize = 7;

/// True exactly when `n` names a service of the catalog.
pub open spec fn is_service(n: usize) -> bool {
    SYS_EXIT <= n <= SYS_COPY_FROM_USER
}

/// Number of scalar arguments the service with identifier `n` takes.
pub open spec fn spec_service_arity(n: usize) -> nat
    recommends
        is_service(n),
{
    if n == SYS_EXIT {
        1
    } else if n == SYS_READ {
        3
    } else if n == SYS_WRITE {
        3
    } else if n == SYS_IPC_SEND {
        2
    } else if n == SYS_IPC_RECV {
        1
    } else if n == SYS_COPY_TO_USER {
        3
    } else {
        3
    }
}

/// Argument count of the service named `n`, or `None` when `n` is not in the
/// catalog.
pub fn service_arity(n: usize) -> (r: Option<usize>)
    ensures
        is_service(n) <==> r is Some,
        r matches Some(a) ==> a == spec_service_arity(n),
{
    match n {
        1 => Some(1),
        2 => Some(3),
        3 => Some(3),
        4 => Some(2),
        5 => Some(1),
        6 => Some(3),
        7 => Some(3),
        _ => None,
    }
}

/// Would-block: the requested operation cannot complete immediately.
pub const ERR_WOULD_BLOCK: usize = usize::MAX;
/// Invalid-service: the service identifier is not in the catalog.
pub const ERR_INVALID_SERVICE: usize = usize::MAX - 1;
/// Invalid-argument: a malformed pointer, length, or envelope.
pub const ERR_INVALID_ARGUMENT: usize = usize::MAX - 2;
/// Permission-denied: a capability check failed.
pub const ERR_PERMISSION_DENIED: usize = usize::MAX - 3;
/// Resource-exhausted: a kernel buffer or queue is full.
pub const ERR_RESOURCE_EXHAUSTED: usize = usize::MAX - 4;
/// Truncation: a message is too large for the receiver's buffer.
pub const ERR_TRUNCATION: usize = usize::MAX - 5;

/// The error taxonomy a trap result can encode.  No richer error channel
/// exists at this layer: each variant corresponds to one sentinel value in
/// the result word.
#[derive(Clone, Copy, Debug, PartialEq, Eq, Structural)]
pub enum TrapError {
    InvalidService,
    InvalidArgument,
    PermissionDenied,
    WouldBlock,
    ResourceExhausted,
    Truncation,
}

/// True exactly when the result word `r` encodes an error sentinel.
pub open spec fn is_error_code(r: usize) -> bool {
    r >= ERR_TRUNCATION
}

/// Interpretation of a raw trap result word: either a payload value or the
/// error its sentinel stands for.
pub open spec fn spec_decode_result(r: usize) -> Result<usize, TrapError> {
    if r == ERR_WOULD_BLOCK {
        Err(TrapError::WouldBlock)
    } else if r == ERR_INVALID_SERVICE {
        Err(TrapError::InvalidService)
    } else if r == ERR_INVALID_ARGUMENT {
        Err(TrapError::InvalidArgument)
    } else if r == ERR_PERMISSION_DENIED {
        Err(TrapError::PermissionDenied)
    } else if r == ERR_RESOURCE_EXHAUSTED {
        Err(TrapError::ResourceExhausted)
    } else if r == ERR_TRUNCATION {
        Err(TrapError::Truncation)
    } else {
        Ok(r)
    }
}

/// Decode a raw trap result word into a payload value or an error.
pub fn decode_result(r: usize) -> (out: Result<usize, TrapError>)
    ensures
        out == spec_decode_result(r),
        out is Ok <==> !is_error_code(r),
{
    if r == ERR_WOULD_BLOCK {
        Err(TrapError::WouldBlock)
    } else if r == ERR_INVALID_SERVICE {
        Err(TrapError::InvalidService)
    } else if r == ERR_INVALID_ARGUMENT {
        Err(TrapError::InvalidArgument)
    } else if r == ERR_PERMISSION_DENIED {
        Err(TrapError::PermissionDenied)
    } else if r == ERR_RESOURCE_EXHAUSTED {
        Err(TrapError::ResourceExhausted)
    } else if r == ERR_TRUNCATION {
        Err(TrapError::Truncation)
    } else {
        Ok(r)
    }
}

} // verus!
