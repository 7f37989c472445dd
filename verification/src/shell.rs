//! The single-instance launch decision.
//!
//! The process-wide guard itself (an OS-visible exclusive lock) is lifecycle
//! infrastructure owned by the surrounding binary; what is decided once the
//! guard has answered is stated here.

use vstd::prelude::*;

verus! {

/// What the shell does with a launch attempt.
#[derive(Clone, Copy, PartialEq, Eq, Structural, Debug)]
pub enum LaunchAction {
    /// No other instance runs: start the shell and create the window.
    StartShell,
    /// An instance already runs: create no window; notify the user that the
    /// application is already running in the background.
    NotifyAlreadyRunning,
}

/// Decide a launch attempt from the single-instance guard's answer: a
/// duplicate launch never starts a second shell, and a first launch never
/// fires the already-running notification.
pub fn decide_launch(instance_already_running: bool) -> (a: LaunchAction)
    ensures
        a == LaunchAction::NotifyAlreadyRunning <==> instance_already_running,
        a == LaunchAction::StartShell <==> !instance_already_running,
{
    if instance_already_running {
        LaunchAction::NotifyAlreadyRunning
    } else {
        LaunchAction::StartShell
    }
}

} // verus!
