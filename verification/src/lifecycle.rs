//! The lifecycle hook's response to the host loader's notifications.

use vstd::prelude::*;

verus! {

/// The loader's reason code for a process attaching to the library.
pub const PROCESS_ATTACH: u32 = 1;

/// The loader's reason code for a process detaching from the library.
pub const PROCESS_DETACH: u32 = 0;

/// What the lifecycle hook does in response to one loader notification.
#[derive(Clone, Copy, PartialEq, Eq, Structural, Debug)]
pub enum LifecycleAction {
    /// Run the process-wide setup collaborator.
    Initialize,
    /// Run the process-wide teardown collaborator.
    Deinitialize,
    /// Ignore the notification.
    NoAction,
}

/// Chooses the hook's action for a loader notification: setup on process
/// attach, teardown on process detach, and nothing at all for any other
/// reason code.
pub fn lifecycle_action(call_reason: u32) -> (a: LifecycleAction)
    ensures
        call_reason == PROCESS_ATTACH ==> a == LifecycleAction::Initialize,
        call_reason == PROCESS_DETACH ==> a == LifecycleAction::Deinitialize,
        call_reason != PROCESS_ATTACH && call_reason != PROCESS_DETACH ==> a
            == LifecycleAction::NoAction,
{
    if call_reason == PROCESS_ATTACH {
        LifecycleAction::Initialize
    } else if call_reason == PROCESS_DETACH {
        LifecycleAction::Deinitialize
    } else {
        LifecycleAction::NoAction
    }
}

/// The hook's report to the host loader: success for every notification,
/// whatever the setup or teardown collaborator's own outcome, since a
/// failure reported here could abort the host process.
pub fn lifecycle_report(_collaborator_succeeded: bool) -> (success: bool)
    ensures
        success,
{
    true
}

} // verus!
