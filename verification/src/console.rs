//! The diagnostic console's allocation flag.
//!
//! A process owns at most one console, so allocation and release are guarded
//! by a single flag with allocate/free symmetry. The flag lives here; the
//! operating-system calls that actually allocate, recolour or free the console
//! are the caller's to perform, and each function's result says whether the
//! caller must perform one now. Repeating a call is harmless: only the first
//! `alloc_console` asks for an allocation and only the first `free_console`
//! after it asks for a release.

use vstd::prelude::*;

verus! {

/// Tracks whether the process-wide diagnostic console is currently allocated.
pub struct ConsoleState {
    pub(crate) allocated: bool,
}

impl ConsoleState {
    /// The console is currently allocated.
    pub closed spec fn is_allocated(&self) -> bool {
        self.allocated
    }

    /// A fresh flag: no console allocated yet.
    pub fn new() -> (c: ConsoleState)
        ensures
            !c.is_allocated(),
    {
        ConsoleState { allocated: false }
    }

    /// Record that the console is allocated. Returns whether the caller must
    /// actually allocate one: true exactly on the first call since the last
    /// release, so the process never allocates twice.
    pub fn alloc_console(&mut self) -> (do_alloc: bool)
        ensures
            final(self).is_allocated(),
            do_alloc == !old(self).is_allocated(),
    {
        let was = self.allocated;
        self.allocated = true;
        !was
    }

    /// Whether colour output may be switched on: only meaningful while a
    /// console is allocated, so the caller performs the console-mode change
    /// exactly when this returns true.
    pub fn enable_console_colors(&self) -> (do_enable: bool)
        ensures
            do_enable == self.is_allocated(),
    {
        self.allocated
    }

    /// Record that the console is released. Returns whether the caller must
    /// actually free one: true exactly when a console was allocated, so a
    /// release is never attempted twice.
    pub fn free_console(&mut self) -> (do_free: bool)
        ensures
            !final(self).is_allocated(),
            do_free == old(self).is_allocated(),
    {
        let was = self.allocated;
        self.allocated = false;
        was
    }
}

} // verus!
