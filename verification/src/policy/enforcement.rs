//! Policy enforcement: capability checks under the kill state.

use vstd::prelude::*;
use crate::device::registry::{device_killed, DeviceRegistry};
use crate::keystore::master::KillFuse;
use crate::logging::encrypted::{LogFile, LogRoot};
use crate::policy::capability::Capability;

verus! {

/// An operation that policy decides on.
#[derive(Clone, Copy, Debug, PartialEq, Eq, Structural)]
pub enum Operation {
    /// Upload to a cloud.
    Upload,
    /// Download from a cloud.
    Download,
    /// Restore from a backup.
    Restore,
    /// Route content between clouds.
    Route,
    /// See the status.
    ViewStatus,
    /// Register a device.
    RegisterDevice,
    /// Remove a device.
    RemoveDevice,
    /// Issue a kill order.
    IssueKill,
}

/// The capability that an operation requires.
pub open spec fn required_capability(op: Operation) -> Capability {
    match op {
        Operation::Upload => Capability::Upload,
        Operation::Download => Capability::Download,
        Operation::Restore => Capability::Restore,
        Operation::Route => Capability::RouteContent,
        Operation::ViewStatus => Capability::ViewStatus,
        Operation::RegisterDevice => Capability::RegisterDevice,
        Operation::RemoveDevice => Capability::RemoveDevice,
        Operation::IssueKill => Capability::IssueKill,
    }
}

/// An immutable list of granted capabilities.
pub struct CapabilitySet {
    caps: &'static [Capability],
}

impl CapabilitySet {
    /// The capabilities granted.
    pub closed spec fn granted(&self) -> Seq<Capability> {
        self.caps@
    }

    /// The set that grants the given capabilities.
    pub fn new(caps: &'static [Capability]) -> (r: Self)
        ensures
            r.granted() == caps@,
    {
        CapabilitySet { caps }
    }

    /// Whether a capability is granted.
    pub fn allows(&self, cap: Capability) -> (r: bool)
        ensures
            r == self.granted().contains(cap),
    {
        let n: usize = self.caps.len();
        let mut i: usize = 0;
        while i < n
            invariant
                i <= n,
                n == self.caps@.len(),
                forall|j: int| 0 <= j < i ==> self.caps@[j] != cap,
            decreases n - i,
        {
            if self.caps[i] == cap {
                return true;
            }
            i += 1;
        }
        false
    }
}

/// The enforcer of policy. It performs no cryptography and holds no keys.
pub struct PolicyEnforcer<'a> {
    registry: &'a DeviceRegistry,
    caps: CapabilitySet,
}

impl<'a> PolicyEnforcer<'a> {
    /// The capabilities the enforcer decides by.
    pub closed spec fn granted(&self) -> Seq<Capability> {
        self.caps.granted()
    }

    /// An enforcer for a device and a capability set.
    pub fn new(registry: &'a DeviceRegistry, caps: CapabilitySet) -> (r: Self)
        ensures
            r.granted() == caps.granted(),
    {
        PolicyEnforcer { registry, caps }
    }

    /// Whether an operation is allowed: never on a killed device, and
    /// otherwise exactly if the capability it requires is granted.
    pub fn allow(&self, fuse: &KillFuse, root: &LogRoot, op: Operation) -> (r: bool)
        ensures
            r == (!device_killed(fuse.killed(), root.file(LogFile::KillMarker))
                && self.granted().contains(required_capability(op))),
    {
        if fuse.is_killed() || self.registry.is_killed(fuse, root) {
            return false;
        }
        match op {
            Operation::Upload => self.caps.allows(Capability::Upload),
            Operation::Download => self.caps.allows(Capability::Download),
            Operation::Restore => self.caps.allows(Capability::Restore),
            Operation::Route => self.caps.allows(Capability::RouteContent),
            Operation::ViewStatus => self.caps.allows(Capability::ViewStatus),
            Operation::RegisterDevice => self.caps.allows(Capability::RegisterDevice),
            Operation::RemoveDevice => self.caps.allows(Capability::RemoveDevice),
            Operation::IssueKill => self.caps.allows(Capability::IssueKill),
        }
    }
}

} // verus!
