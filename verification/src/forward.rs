//! Forwarding a proxied call to the genuine export, or failing it.

use vstd::prelude::*;
use crate::handle::LibraryHandle;
use crate::handle::recorded_handle;

verus! {

/// The domain's standard "unspecified failure" status code, returned to the
/// host when the genuine export cannot be invoked. Its callers already know
/// how to handle it, so they degrade gracefully instead of crashing.
pub const E_FAIL: i32 = -2147467259;

/// Whether the proxy may invoke the genuine export: only with a validly
/// loaded library handle and a successful lookup of the export's name in
/// the same call.
pub open spec fn can_forward(handle: LibraryHandle, symbol_present: bool) -> bool {
    !handle.spec_is_invalid() && symbol_present
}

/// What one proxied call returns to the host: the status code handed back,
/// and the value the call left in the caller's output slot, if any.
#[derive(Clone, Copy, PartialEq, Eq, Debug)]
pub struct ForwardResult {
    /// The status code the host receives.
    pub status: i32,
    /// The value written to the caller's output slot, or `None` if the slot
    /// was left untouched.
    pub output: Option<usize>,
}

/// The result the host observes for one proxied call: the genuine call's
/// own status and output when forwarding is possible, and the
/// unspecified-failure status with an untouched output slot otherwise.
pub open spec fn forwarded(
    handle: LibraryHandle,
    symbol_present: bool,
    genuine_status: i32,
    genuine_output: Option<usize>,
) -> ForwardResult {
    if can_forward(handle, symbol_present) {
        ForwardResult { status: genuine_status, output: genuine_output }
    } else {
        ForwardResult { status: E_FAIL, output: None }
    }
}

/// Decides whether the proxy invokes the genuine export or fails the call
/// without invoking anything.
pub fn forward_decision(handle: LibraryHandle, symbol_present: bool) -> (invoke: bool)
    ensures
        invoke == can_forward(handle, symbol_present),
{
    !handle.is_invalid() && symbol_present
}

/// Settles one proxied call, given the handle, whether the export's name
/// resolved, and — for the case where the genuine export runs — its status
/// and what it wrote to the output slot. The host sees the genuine results
/// unchanged, or the unspecified-failure status and no write at all.
pub fn forward_call(
    handle: LibraryHandle,
    symbol_present: bool,
    genuine_status: i32,
    genuine_output: Option<usize>,
) -> (r: ForwardResult)
    ensures
        r == forwarded(handle, symbol_present, genuine_status, genuine_output),
        can_forward(handle, symbol_present) ==> r.status == genuine_status && r.output
            == genuine_output,
        !can_forward(handle, symbol_present) ==> r.status == E_FAIL && r.output is None,
{
    if forward_decision(handle, symbol_present) {
        ForwardResult { status: genuine_status, output: genuine_output }
    } else {
        ForwardResult { status: E_FAIL, output: None }
    }
}

/// Forwarding transparency: with a loaded genuine library whose export was
/// found, the host observes exactly the status and output-slot value the
/// genuine export produced, for every such pair.
pub proof fn lemma_forwarding_transparency(
    handle: LibraryHandle,
    genuine_status: i32,
    genuine_output: Option<usize>,
)
    requires
        !handle.spec_is_invalid(),
    ensures
        forwarded(handle, true, genuine_status, genuine_output).status == genuine_status,
        forwarded(handle, true, genuine_status, genuine_output).output == genuine_output,
{
}

/// Graceful degradation: when the loader failed — in particular when the
/// genuine library's path does not exist — the recorded handle is the
/// invalid sentinel, and every proxied call returns the unspecified-failure
/// status and leaves the caller's output slot unwritten, whatever the
/// symbol lookup or a genuine call would have produced.
pub proof fn lemma_graceful_degradation(
    symbol_present: bool,
    genuine_status: i32,
    genuine_output: Option<usize>,
)
    ensures
        ({
            let h = recorded_handle(None);
            forwarded(h, symbol_present, genuine_status, genuine_output) == (ForwardResult {
                status: E_FAIL,
                output: None,
            })
        }),
{
}

/// The reserved secondary entry point: an explicit no-op that takes the
/// window handle, returns nothing, and touches nothing, kept as a
/// placeholder until interception is given behavior.
pub fn show_joy_cpl(_window_handle: usize) {
}

} // verus!
