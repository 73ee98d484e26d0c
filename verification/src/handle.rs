//! The genuine library's handle and the process-wide cache that holds it.

use vstd::prelude::*;

verus! {

/// A handle to the loaded genuine library, as the process-wide cache holds
/// it. The raw value is the loader's module address; zero is the sentinel
/// for a failed load, matching the loader's convention that a successfully
/// loaded module never has address zero.
#[derive(Clone, Copy, PartialEq, Eq, Structural, Debug)]
pub struct LibraryHandle {
    pub raw: usize,
}

impl LibraryHandle {
    /// The sentinel recorded when the genuine library could not be loaded.
    pub fn invalid() -> (h: LibraryHandle)
        ensures
            h.spec_is_invalid(),
    {
        LibraryHandle { raw: 0 }
    }

    /// Whether this is the failed-load sentinel.
    pub open spec fn spec_is_invalid(&self) -> bool {
        self.raw == 0
    }

    /// Whether this is the failed-load sentinel.
    #[verifier::when_used_as_spec(spec_is_invalid)]
    pub fn is_invalid(&self) -> (b: bool)
        ensures
            b == self.spec_is_invalid(),
    {
        self.raw == 0
    }
}

/// The handle the cache records for a loader outcome: a successful load
/// keeps its module address, a failed load becomes the invalid sentinel
/// rather than an error.
pub open spec fn recorded_handle(load_result: Option<usize>) -> LibraryHandle {
    match load_result {
        Some(raw) => LibraryHandle { raw },
        None => LibraryHandle { raw: 0 },
    }
}

/// Turns the loader's outcome into the handle value to cache. A failed load
/// is recorded as the invalid sentinel, never raised as an error; the
/// failure is deferred to the call sites that consult the handle.
pub fn handle_from_load(load_result: Option<usize>) -> (h: LibraryHandle)
    requires
        match load_result {
            Some(raw) => raw != 0,
            None => true,
        },
    ensures
        h == recorded_handle(load_result),
        h.spec_is_invalid() <==> load_result is None,
{
    match load_result {
        Some(raw) => LibraryHandle { raw },
        None => LibraryHandle { raw: 0 },
    }
}

/// The process-wide cache of the genuine library's handle, modeled as a
/// single-assignment cell: empty until the first resolution completes, and
/// from then on holding that resolution's result forever, whether or not
/// the load succeeded.
pub struct HandleCell {
    slot: Option<LibraryHandle>,
}

/// One resolution step against the cache: what the cell holds afterwards
/// and which handle the caller observes. An initialized cell ignores the
/// newly computed value; an empty cell records it.
pub open spec fn get_or_init_step(
    cell: Option<LibraryHandle>,
    computed: LibraryHandle,
) -> (Option<LibraryHandle>, LibraryHandle) {
    match cell {
        Some(h) => (cell, h),
        None => (Some(computed), computed),
    }
}

impl HandleCell {
    /// The handle the cell holds, if one was recorded.
    pub closed spec fn value(self) -> Option<LibraryHandle> {
        self.slot
    }

    /// Whether a resolution result has been recorded.
    pub open spec fn is_initialized(self) -> bool {
        self.value() is Some
    }

    /// A cell in which no resolution result has been recorded yet.
    pub fn empty() -> (c: HandleCell)
        ensures
            !c.is_initialized(),
    {
        HandleCell { slot: None }
    }

    /// The recorded handle, if any.
    pub fn get(&self) -> (r: Option<LibraryHandle>)
        ensures
            r == self.value(),
    {
        self.slot
    }

    /// Consults the cache with a freshly computed resolution result: the
    /// first caller's value is recorded, every caller observes the recorded
    /// value, and a recorded value — valid or invalid — is never replaced.
    pub fn get_or_init(&mut self, computed: LibraryHandle) -> (h: LibraryHandle)
        ensures
            (final(self).value(), h) == get_or_init_step(old(self).value(), computed),
            final(self).value() == Some(h),
    {
        match self.slot {
            Some(h) => h,
            None => {
                self.slot = Some(computed);
                computed
            },
        }
    }
}

/// At-most-once initialization: of any two resolution steps against the
/// cache, only the first can change it; the later step observes exactly the
/// handle the earlier one observed, whatever value its own resolution
/// computed, and leaves the cell untouched.
pub proof fn lemma_at_most_once_initialization(
    cell: Option<LibraryHandle>,
    first: LibraryHandle,
    second: LibraryHandle,
)
    ensures
        ({
            let (cell1, h1) = get_or_init_step(cell, first);
            let (cell2, h2) = get_or_init_step(cell1, second);
            cell2 == cell1 && h2 == h1
        }),
{
}

} // verus!
