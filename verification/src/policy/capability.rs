//! Capabilities that an application can be granted.

use vstd::prelude::*;

verus! {

/// A declarative permission.
#[derive(Debug, Clone, Copy, PartialEq, Eq, Hash, Structural)]
pub enum Capability {
    /// Encrypt data.
    Encrypt,
    /// Decrypt data.
    Decrypt,
    /// Upload to a cloud.
    Upload,
    /// Download from a cloud.
    Download,
    /// Restore from a backup.
    Restore,
    /// See the status.
    ViewStatus,
    /// Use the second encryption strategy.
    UseStrategyB,
    /// Export recovery material.
    ExportRecovery,
    /// Import recovery material.
    ImportRecovery,
    /// Turn recovery off.
    DisableRecovery,
    /// Route content between clouds.
    RouteContent,
    /// Change the policy.
    ModifyPolicy,
    /// Register a device.
    RegisterDevice,
    /// Remove a device.
    RemoveDevice,
    /// Rename a device.
    RenameDevice,
    /// Issue a kill order.
    IssueKill,
    /// See the logs.
    ViewLogs,
}

} // verus!
