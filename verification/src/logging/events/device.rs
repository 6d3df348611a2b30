//! Events in the life of a device.

use vstd::prelude::*;

verus! {

/// What happened to a device.
#[derive(Clone, Copy, PartialEq, Eq, Structural)]
pub enum DeviceEvent {
    /// The device was registered.
    DeviceRegistered,
    /// The device was removed.
    DeviceRemoved,
    /// The device was marked as killed.
    DeviceMarkedKilled,
}

} // verus!
