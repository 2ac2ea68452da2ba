//! What the manager of all devices holds with the session and the event loop,
//! and how it lets go of it.

use vstd::prelude::*;

verus! {

/// A file descriptor that the session opened for a device.
#[derive(Clone, Copy, Debug, PartialEq, Eq)]
pub struct SessionFd(pub i32);

impl SessionFd {
    /// The descriptor itself.
    pub fn as_raw_fd(&self) -> (fd: i32)
        ensures
            fd == self.0,
    {
        self.0
    }
}

/// One step of letting go.
#[derive(Clone, Copy, Debug, PartialEq, Eq)]
pub enum CleanupStep {
    /// Unbind the session's own event source; this yields the notifier that the
    /// observers are registered with.
    UnbindSession { source: u64 },
    /// Unregister an observer of the session.
    Unregister { observer: u64 },
    /// Remove a source from the event loop.
    RemoveSource { source: u64 },
}

/// What the manager holds: the identifiers under which the device watcher and
/// the input backend observe the session, and the tokens of the three event
/// sources.
#[derive(Debug, PartialEq, Eq)]
pub struct UdevOutputManager {
    pub udev_session_id: u64,
    pub libinput_session_id: u64,
    pub libinput_event_source: u64,
    pub session_event_source: u64,
    pub udev_event_source: u64,
}

impl UdevOutputManager {
    /// Ends the manager and lists what is to be let go of, in order: the
    /// session is unbound first, then the observers are unregistered, the
    /// input backend's before the device watcher's, then the event sources are
    /// removed in the same order.
    pub fn cleanup(self) -> (steps: Vec<CleanupStep>)
        ensures
            steps@ == seq![
                CleanupStep::UnbindSession { source: self.session_event_source },
                CleanupStep::Unregister { observer: self.libinput_session_id },
                CleanupStep::Unregister { observer: self.udev_session_id },
                CleanupStep::RemoveSource { source: self.libinput_event_source },
                CleanupStep::RemoveSource { source: self.udev_event_source },
            ],
    {
        let mut steps: Vec<CleanupStep> = Vec::new();
        steps.push(CleanupStep::UnbindSession { source: self.session_event_source });
        steps.push(CleanupStep::Unregister { observer: self.libinput_session_id });
        steps.push(CleanupStep::Unregister { observer: self.udev_session_id });
        steps.push(CleanupStep::RemoveSource { source: self.libinput_event_source });
        steps.push(CleanupStep::RemoveSource { source: self.udev_event_source });
        steps
    }
}

} // verus!
