//! Hook lifecycle coordination for a render-loop overlay module.
//!
//! A dynamically loaded module that intercepts a host application's rendering
//! call path has to coordinate two fragile moments: installing the hook right
//! after the loader's attach notification, and ejecting (uninstall, then
//! self-unload) without destroying the code that is still running. This crate
//! holds the verified core of that coordination: the set-once global slots for
//! the module handle and the installed hook capability, the per-backend hook
//! capability state machine, the console-allocation flag, and the lifecycle
//! coordinator that drives attach, install, frame dispatch and eject.
//!
//! Everything that must touch the operating system — the actual dynamic-library
//! entry point, worker threads, console calls and the self-unload primitive —
//! stays outside this crate; the functions here decide, and report to their
//! caller which of those actions to perform.

pub mod console;
pub mod hooks;
pub mod lifecycle;
pub mod state;
