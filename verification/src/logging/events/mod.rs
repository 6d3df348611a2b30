//! Events of the core, for an application to observe.

pub mod device;

use vstd::prelude::*;

verus! {

/// What the core reports.
#[derive(Debug, Clone, Copy)]
pub enum CoreEvent {
    /// The core started.
    Startup,
    /// The core shut down.
    Shutdown,
    /// The keystore was locked.
    Lock,
    /// The keystore was unlocked.
    Unlock,
    /// A key failed its integrity check.
    IntegrityFailure,
    /// A remote wipe was triggered.
    RemoteWipeTriggered,
    /// An operation was denied by policy.
    PolicyViolation,
}

/// An event of the application.
pub trait AppEvent {
    /// The name under which the event is reported.
    fn event_name(&self) -> &'static str;
}

/// A receiver of events.
pub trait EventSink {
    /// Takes one event.
    fn emit(event: CoreEvent);
}

} // verus!
