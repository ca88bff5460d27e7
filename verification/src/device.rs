//! Device/capability model: the typed vocabulary syscall arguments use to
//! name kernel-managed resources instead of raw integers.
//!
//! No behaviour beyond value identity and field layout is defined here.
//! Resolving a device identifier to a descriptor, or a capability to a
//! granted operation, is the business of the external kernel registry.

use vstd::prelude::*;
use vstd::array::ArrayAdditionalExecFns;

verus! {

/// Opaque 32-bit handle naming a device known to the kernel's device
/// registry.  Equality-comparable; not ordered; carries no authority by
/// itself.
pub type DeviceId = u32;

/// Opaque 64-bit bearer token representing authorization to perform an
/// operation on a named resource.  Its meaning is entirely determined by the
/// external authority that issued it; this layer only defines its shape so
/// it can be passed as a syscall argument.
pub type Capability = u64;

/// Fixed width, in bytes, of a device descriptor's name field.
pub const DEVICE_NAME_CAPACITY: usize = 32;

/// A device descriptor as published by the kernel's device registry.
///
/// The name field is a raw byte buffer: it is not guaranteed
/// null-terminated, and this layer does not validate it as UTF-8.  The
/// authoritative copy lives in the external registry; user space reads only.
#[derive(Clone, Copy, Debug, PartialEq, Eq)]
pub struct Device {
    /// Registry handle of the device.
    pub id: DeviceId,
    /// Human-readable name bytes, zero-padded when shorter than the field.
    pub name: [u8; 32],
    /// Device-type code assigned by the registry.
    pub device_type: u32,
}

impl Device {
    /// Build a descriptor whose name field carries `name`, zero-padded to
    /// the fixed width.  A name longer than the field is rejected rather
    /// than cut short.
    pub fn new(id: DeviceId, name: &[u8], device_type: u32) -> (r: Option<Device>)
        ensures
            name@.len() <= DEVICE_NAME_CAPACITY ==> (r matches Some(d) && d.id == id
                && d.device_type == device_type && (forall|j: int|
                0 <= j < name@.len() ==> d.name@[j] == name@[j]) && (forall|j: int|
                name@.len() <= j < DEVICE_NAME_CAPACITY ==> d.name@[j] == 0)),
            name@.len() > DEVICE_NAME_CAPACITY ==> r is None,
    {
        let n: usize = name.len();
        if n > DEVICE_NAME_CAPACITY {
            return None;
        }
        let mut field: [u8; 32] = [0u8; 32];
        let mut i: usize = 0;
        while i < n
            invariant
                n == name@.len() <= DEVICE_NAME_CAPACITY,
                i <= n,
                forall|j: int| 0 <= j < i ==> field@[j] == name@[j],
                forall|j: int| i <= j < DEVICE_NAME_CAPACITY ==> field@[j] == 0,
            decreases n - i,
        {
            field.set(i, name[i]);
            i += 1;
        }
        Some(Device { id, name: field, device_type })
    }

    /// Whether this descriptor and `other` name the same registry device.
    /// Device identity is identifier equality, nothing more.
    pub fn same_device(&self, other: &Device) -> (r: bool)
        ensures
            r == (self.id == other.id),
    {
        self.id == other.id
    }
}

} // verus!
