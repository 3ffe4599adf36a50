//! The lifecycle coordinator: attach, install, frame dispatch and eject.
//!
//! A module instance walks one forward path — unloaded, attaching, installing,
//! active, detaching, ejected — and never re-enters a station. The coordinator
//! owns the global slots and is their sole legitimate writer. Its callers run
//! the parts that cannot live here: the loader's entry point calls `on_attach`
//! and then spawns a worker thread that runs the install steps; the eject
//! entry point spawns a worker thread that calls `eject` and then performs the
//! actions the returned outcome lists, ending — when a module handle came
//! back — in the atomic self-unload-and-exit.
//!
//! Ejection interacts with in-flight frames: the host's rendering is assumed
//! single-threaded through its present call, and eject is meant to be
//! requested from within the render callback, which serialises the eject
//! worker's `take` against the dispatch path. That assumption is a hard
//! precondition of the eject entry point, not something this layer can check.

use vstd::prelude::*;

use crate::console::ConsoleState;
use crate::hooks::Backend;
use crate::hooks::FrameContext;
use crate::hooks::FrameFlags;
use crate::hooks::HookCapability;
use crate::hooks::HookError;
use crate::hooks::RenderLoop;
use crate::state::GlobalState;
use crate::state::ModuleHandle;
use crate::state::OnceSlot;
use crate::state::lemma_global_slots;
use crate::state::lemma_slot_exclusive;
use crate::state::lemma_take_preserves_history;

verus! {

/// The stations of a module instance's life, traversed forward exactly once.
#[derive(Clone, Copy, Debug, PartialEq, Eq, Structural)]
pub enum LifecyclePhase {
    /// Nothing recorded yet; the loader has not attached the module.
    Unloaded,
    /// The attach notification was handled: the module handle is recorded and
    /// the install worker is to be spawned.
    Attaching,
    /// The install worker is building and installing the hook capability.
    Installing,
    /// The hook is installed and stored; intercepted frames reach the render
    /// loop.
    Active,
    /// The install worker failed; the module stays loaded but inert.
    InstallFailed,
    /// An eject pass took the hook capability but could not confirm that the
    /// patch was reverted, so it refused to unload the module.
    Detaching,
    /// Terminal: an eject pass ran to completion and surrendered whatever the
    /// slots held.
    Ejected,
}

/// Failures of the coordinator's lifecycle steps.
#[derive(Clone, Copy, Debug, PartialEq, Eq, Structural)]
pub enum LifecycleError {
    /// An attach notification arrived while a module lifetime was already
    /// underway — a fatal condition to surface, never to mask.
    DoubleAttach,
    /// A lifecycle step was asked for in a phase that does not admit it.
    WrongPhase,
    /// Installing the hook failed; the module stays loaded but inert, and the
    /// error is also kept in the coordinator's status register.
    InstallFailed(HookError),
}

/// What one eject pass asks its caller to do, beyond what it already did to
/// the coordinator's own state.
#[derive(Clone, Copy, Debug, PartialEq, Eq)]
pub struct EjectOutcome {
    /// The console was allocated and its flag is now released: the caller
    /// frees the process console.
    pub console_freed: bool,
    /// `Some` exactly when a hook capability was stored: the result of the
    /// one uninstall call made on it.
    pub uninstall: Option<Result<(), HookError>>,
    /// `Some` exactly when the module handle was surrendered: the caller
    /// performs self-unload-and-exit with it, as one atomic final step.
    pub unloaded: Option<ModuleHandle>,
}

/// Orchestrates the module's life: records the attach, walks the install
/// worker's steps, routes intercepted frames, and runs the eject pass.
pub struct Coordinator<R> {
    pub(crate) phase: LifecyclePhase,
    pub(crate) globals: GlobalState<R>,
    pub(crate) install_error: Option<HookError>,
}

impl<R> Coordinator<R> {
    /// The station the module instance currently stands in.
    pub closed spec fn lifecycle_phase(&self) -> LifecyclePhase {
        self.phase
    }

    /// The slot owning the module handle.
    pub closed spec fn module_slot(&self) -> OnceSlot<ModuleHandle> {
        self.globals.module_slot()
    }

    /// The slot owning the active hook capability.
    pub closed spec fn hooks_slot(&self) -> OnceSlot<HookCapability<R>> {
        self.globals.hooks_slot()
    }

    /// The status register the diagnostics read: the last install failure.
    pub closed spec fn last_error(&self) -> Option<HookError> {
        self.install_error
    }

    /// The stored capability's backend, while one is stored.
    pub open spec fn stored_backend(&self) -> Option<Backend> {
        if self.hooks_slot().is_full() {
            Some(self.hooks_slot().value().backend())
        } else {
            None
        }
    }

    /// An intercepted frame would reach the render loop right now.
    pub open spec fn invokes_render(&self) -> bool {
        self.hooks_slot().is_full() && self.hooks_slot().value().installed()
    }

    /// Coherence between the phase and the slots, established by `new` and
    /// preserved by every operation: a stored capability is installed, and
    /// each station pins what the slots may hold.
    pub open spec fn wf(&self) -> bool {
        &&& (self.hooks_slot().is_full() ==> self.hooks_slot().value().installed())
        &&& (self.lifecycle_phase() is Unloaded ==> !self.module_slot().set_ever()
            && !self.hooks_slot().set_ever())
        &&& (self.lifecycle_phase() is Attaching ==> self.module_slot().is_full()
            && !self.hooks_slot().set_ever())
        &&& (self.lifecycle_phase() is Installing ==> self.module_slot().is_full()
            && !self.hooks_slot().set_ever())
        &&& (self.lifecycle_phase() is Active ==> self.module_slot().is_full()
            && self.hooks_slot().is_full())
        &&& (self.lifecycle_phase() is InstallFailed ==> self.module_slot().is_full()
            && !self.hooks_slot().set_ever())
        &&& (self.lifecycle_phase() is Detaching ==> self.module_slot().is_full()
            && self.hooks_slot().is_taken())
        &&& (self.lifecycle_phase() is Ejected ==> !self.module_slot().is_full()
            && !self.hooks_slot().is_full())
    }

    /// A coordinator before any attach: empty slots, no failure recorded.
    pub fn new() -> (c: Coordinator<R>)
        ensures
            c.wf(),
            c.lifecycle_phase() is Unloaded,
            !c.module_slot().set_ever(),
            !c.hooks_slot().set_ever(),
            c.last_error() is None,
    {
        Coordinator {
            phase: LifecyclePhase::Unloaded,
            globals: GlobalState::new(),
            install_error: None,
        }
    }

    /// The attach path, run inside the loader's notification: record the
    /// module handle and move to `Attaching`; the caller then spawns the
    /// install worker and returns to the loader at once, doing no blocking
    /// work in the loader-sensitive context. A second attach fails without
    /// mutating anything.
    pub fn on_attach(&mut self, module: ModuleHandle) -> (r: Result<(), LifecycleError>)
        ensures
            old(self).wf() ==> final(self).wf(),
            old(self).lifecycle_phase() is Unloaded && !old(self).module_slot().set_ever() ==> ({
                &&& r is Ok
                &&& final(self).lifecycle_phase() is Attaching
                &&& final(self).module_slot().is_full()
                &&& final(self).module_slot().value() == module
                &&& final(self).hooks_slot() == old(self).hooks_slot()
                &&& final(self).last_error() == old(self).last_error()
            }),
            !(old(self).lifecycle_phase() is Unloaded && !old(self).module_slot().set_ever())
                ==> r == Err::<(), LifecycleError>(LifecycleError::DoubleAttach) && *final(self)
                == *old(self),
    {
        match self.phase {
            LifecyclePhase::Unloaded => {
                match self.globals.set_module(module) {
                    Ok(()) => {
                        self.phase = LifecyclePhase::Attaching;
                        Ok(())
                    },
                    Err(_) => Err(LifecycleError::DoubleAttach),
                }
            },
            _ => Err(LifecycleError::DoubleAttach),
        }
    }

    /// First step of the install worker, off the loader thread: move from
    /// `Attaching` to `Installing`. In any other phase — for instance after
    /// an eject pass already ran — nothing happens and the worker must stop.
    pub fn begin_install(&mut self) -> (r: Result<(), LifecycleError>)
        ensures
            old(self).wf() ==> final(self).wf(),
            old(self).lifecycle_phase() is Attaching ==> ({
                &&& r is Ok
                &&& final(self).lifecycle_phase() is Installing
                &&& final(self).module_slot() == old(self).module_slot()
                &&& final(self).hooks_slot() == old(self).hooks_slot()
                &&& final(self).last_error() == old(self).last_error()
            }),
            !(old(self).lifecycle_phase() is Attaching) ==> r == Err::<(), LifecycleError>(
                LifecycleError::WrongPhase,
            ) && *final(self) == *old(self),
    {
        match self.phase {
            LifecyclePhase::Attaching => {
                self.phase = LifecyclePhase::Installing;
                Ok(())
            },
            _ => Err(LifecycleError::WrongPhase),
        }
    }

    /// Last step of a successful install: store the installed capability and
    /// move to `Active`. From here on, intercepted frames reach the render
    /// loop. If the hook slot was ever occupied the capability is refused and
    /// handed back untouched, so the caller still owns the live hook.
    pub fn complete_install(&mut self, cap: HookCapability<R>) -> (r: Result<
        (),
        HookCapability<R>,
    >)
        requires
            old(self).lifecycle_phase() is Installing,
            cap.installed(),
        ensures
            old(self).wf() ==> final(self).wf(),
            !old(self).hooks_slot().set_ever() ==> ({
                &&& r is Ok
                &&& final(self).lifecycle_phase() is Active
                &&& final(self).hooks_slot().is_full()
                &&& final(self).hooks_slot().value() == cap
                &&& final(self).module_slot() == old(self).module_slot()
                &&& final(self).last_error() == old(self).last_error()
            }),
            old(self).hooks_slot().set_ever() ==> (r matches Err(h) && h == cap) && *final(self)
                == *old(self),
    {
        match self.globals.set_hooks(cap) {
            Ok(()) => {
                self.phase = LifecyclePhase::Active;
                Ok(())
            },
            Err(rejected) => Err(rejected),
        }
    }

    /// Last step of a failed install: record the error in the status register
    /// and move to `InstallFailed`. The module stays loaded but inert; the
    /// failure is surfaced here for diagnostics, and is not retried.
    pub fn fail_install(&mut self, error: HookError)
        requires
            old(self).lifecycle_phase() is Installing,
        ensures
            old(self).wf() ==> final(self).wf(),
            final(self).lifecycle_phase() is InstallFailed,
            final(self).last_error() == Some(error),
            final(self).module_slot() == old(self).module_slot(),
            final(self).hooks_slot() == old(self).hooks_slot(),
    {
        self.phase = LifecyclePhase::InstallFailed;
        self.install_error = Some(error);
    }

    /// The install worker's whole task: build the capability for the chosen
    /// backend around the user's render loop, install it — `patch_applied`
    /// reports whether the host-side engine's patch took hold — and either
    /// store it (`Active`) or record the failure (`InstallFailed`). Run off
    /// the loader thread; in any phase but `Attaching` it does nothing.
    pub fn install_worker(&mut self, render_loop: R, backend: Backend, patch_applied: bool) -> (r:
        Result<(), LifecycleError>)
        ensures
            old(self).wf() ==> final(self).wf(),
            !(old(self).lifecycle_phase() is Attaching) ==> r == Err::<(), LifecycleError>(
                LifecycleError::WrongPhase,
            ) && *final(self) == *old(self),
            old(self).lifecycle_phase() is Attaching && !old(self).hooks_slot().set_ever()
                && patch_applied ==> ({
                &&& r is Ok
                &&& final(self).lifecycle_phase() is Active
                &&& final(self).hooks_slot().is_full()
                &&& final(self).stored_backend() == Some(backend)
                &&& final(self).invokes_render()
                &&& final(self).module_slot() == old(self).module_slot()
                &&& final(self).last_error() == old(self).last_error()
            }),
            old(self).lifecycle_phase() is Attaching && !old(self).hooks_slot().set_ever()
                && !patch_applied ==> ({
                &&& r == Err::<(), LifecycleError>(
                    LifecycleError::InstallFailed(HookError::PatchFailed),
                )
                &&& final(self).lifecycle_phase() is InstallFailed
                &&& final(self).hooks_slot() == old(self).hooks_slot()
                &&& final(self).module_slot() == old(self).module_slot()
                &&& final(self).last_error() == Some(HookError::PatchFailed)
            }),
            old(self).lifecycle_phase() is Attaching && old(self).hooks_slot().set_ever() ==> r
                is Err,
    {
        match self.begin_install() {
            Err(e) => Err(e),
            Ok(()) => {
                let mut cap = HookCapability::build(render_loop, backend);
                match cap.install(patch_applied) {
                    Ok(()) => {
                        match self.complete_install(cap) {
                            Ok(()) => Ok(()),
                            Err(_rejected) => Err(LifecycleError::WrongPhase),
                        }
                    },
                    Err(error) => {
                        self.fail_install(error);
                        Err(LifecycleError::InstallFailed(error))
                    },
                }
            },
        }
    }

    /// The result of the one uninstall call an eject pass makes, `None` when
    /// no capability is stored to uninstall.
    pub open spec fn eject_uninstall_result(self, unpatch_applied: bool) -> Option<
        Result<(), HookError>,
    > {
        if !self.hooks_slot().is_full() {
            None
        } else if !self.hooks_slot().value().installed() {
            Some(Err(HookError::NotInstalled))
        } else if unpatch_applied {
            Some(Ok(()))
        } else {
            Some(Err(HookError::RevertFailed))
        }
    }

    /// The eject pass stops before unloading: its uninstall attempt did not
    /// confirm success, and unloading code a live patch still points into
    /// would corrupt the host.
    pub open spec fn eject_blocked(self, unpatch_applied: bool) -> bool {
        self.eject_uninstall_result(unpatch_applied) matches Some(Err(_))
    }

    /// The eject pass surrenders the module handle for self-unload.
    pub open spec fn eject_unloads(self, unpatch_applied: bool) -> bool {
        self.module_slot().is_full() && !self.eject_blocked(unpatch_applied)
    }

    /// Everything one eject pass does to the coordinator.
    pub closed spec fn eject_post(self, unpatch_applied: bool) -> Coordinator<R> {
        Coordinator {
            phase: if self.eject_blocked(unpatch_applied) {
                LifecyclePhase::Detaching
            } else {
                LifecyclePhase::Ejected
            },
            globals: GlobalState {
                module: if self.eject_blocked(unpatch_applied) {
                    self.globals.module_slot()
                } else {
                    self.globals.module_slot().take_step().0
                },
                hooks: self.globals.hooks_slot().take_step().0,
            },
            install_error: self.install_error,
        }
    }

    /// One eject pass, run on its own worker thread — never on the host's
    /// render thread, whose current call frame it would destroy. In order:
    /// release the console flag; take the hook capability and, if one was
    /// stored, uninstall it; then, unless the uninstall attempt failed, take
    /// the module handle for the caller's final self-unload-and-exit. A slot
    /// already empty is skipped without error, so a second pass is a no-op:
    /// eject is idempotent by design.
    pub fn eject(&mut self, console: &mut ConsoleState, unpatch_applied: bool) -> (o: EjectOutcome)
        ensures
            old(self).wf() ==> final(self).wf(),
            *final(self) == old(self).eject_post(unpatch_applied),
            o.console_freed == old(console).is_allocated(),
            !final(console).is_allocated(),
            o.uninstall == old(self).eject_uninstall_result(unpatch_applied),
            (o.uninstall is Some) == old(self).hooks_slot().is_full(),
            o.unloaded == (if old(self).eject_unloads(unpatch_applied) {
                Some(old(self).module_slot().value())
            } else {
                None::<ModuleHandle>
            }),
            !final(self).hooks_slot().is_full(),
            final(self).hooks_slot().set_ever() == old(self).hooks_slot().set_ever(),
            final(self).lifecycle_phase() == (if old(self).eject_blocked(unpatch_applied) {
                LifecyclePhase::Detaching
            } else {
                LifecyclePhase::Ejected
            }),
            final(self).last_error() == old(self).last_error(),
            old(self).eject_blocked(unpatch_applied) ==> final(self).module_slot()
                == old(self).module_slot(),
            !old(self).eject_blocked(unpatch_applied) ==> !final(self).module_slot().is_full()
                && final(self).module_slot().set_ever() == old(self).module_slot().set_ever(),
    {
        let console_freed = console.free_console();
        let uninstall = match self.globals.take_hooks() {
            Some(mut cap) => Some(cap.uninstall(unpatch_applied)),
            None => None,
        };
        let blocked = match &uninstall {
            Some(Err(_)) => true,
            _ => false,
        };
        let o = if blocked {
            self.phase = LifecyclePhase::Detaching;
            EjectOutcome { console_freed, uninstall, unloaded: None }
        } else {
            let unloaded = self.globals.take_module();
            self.phase = LifecyclePhase::Ejected;
            EjectOutcome { console_freed, uninstall, unloaded }
        };
        proof {
            lemma_global_slots(old(self).globals);
            lemma_global_slots(self.globals);
            lemma_global_slots(old(self).eject_post(unpatch_applied).globals);
        }
        o
    }

    /// The station the module instance currently stands in.
    pub fn current_phase(&self) -> (p: LifecyclePhase)
        ensures
            p == self.lifecycle_phase(),
    {
        self.phase
    }

    /// Read the module handle without taking ownership.
    pub fn get_module(&self) -> (r: Option<ModuleHandle>)
        ensures
            self.module_slot().is_full() ==> r == Some(self.module_slot().value()),
            !self.module_slot().is_full() ==> r is None,
    {
        self.globals.get_module()
    }

    /// Whether a hook capability is currently stored.
    pub fn has_hooks(&self) -> (b: bool)
        ensures
            b == self.hooks_slot().is_full(),
    {
        self.globals.has_hooks()
    }

    /// The status register the diagnostics read: the last install failure.
    pub fn last_install_error(&self) -> (e: Option<HookError>)
        ensures
            e == self.last_error(),
    {
        self.install_error
    }
}

impl<R: RenderLoop> Coordinator<R> {
    /// An intercepted host frame: while the hook slot holds an installed
    /// capability the render loop runs once, and the call reports it.
    /// Whatever the render loop does, the phase, the slots' stations and the
    /// stored capability's install state are untouched — in particular, a
    /// frame arriving after teardown, or before the install worker stored the
    /// capability, invokes nothing.
    pub fn on_host_frame(&mut self, ctx: &mut FrameContext, flags: &FrameFlags) -> (invoked: bool)
        ensures
            old(self).wf() ==> final(self).wf(),
            invoked == old(self).invokes_render(),
            final(self).invokes_render() == old(self).invokes_render(),
            final(self).lifecycle_phase() == old(self).lifecycle_phase(),
            final(self).module_slot() == old(self).module_slot(),
            final(self).last_error() == old(self).last_error(),
            final(self).hooks_slot().is_full() == old(self).hooks_slot().is_full(),
            final(self).hooks_slot().is_taken() == old(self).hooks_slot().is_taken(),
            final(self).stored_backend() == old(self).stored_backend(),
    {
        self.globals.dispatch_frame(ctx, flags)
    }
}

/// Law (install before active): an intercepted frame reaches the render loop
/// only while the hook slot is populated with an installed capability — under
/// the coordinator's invariant, only in the `Active` phase. Before the
/// install worker has stored the capability, no frame invokes the render
/// loop.
pub proof fn lemma_install_before_active<R>(c: Coordinator<R>)
    requires
        c.wf(),
    ensures
        c.invokes_render() ==> c.hooks_slot().is_full() && c.lifecycle_phase() is Active,
        !c.hooks_slot().set_ever() ==> !c.invokes_render(),
{
    lemma_slot_exclusive(c.hooks_slot());
}

/// Law (no render after teardown): once an eject pass has taken the
/// capability out of the hook slot, no frame invokes the render loop, and no
/// further eject pass revives it — the slot stays taken for good.
pub proof fn lemma_no_render_after_teardown<R>(c: Coordinator<R>, unpatch_applied: bool)
    requires
        c.hooks_slot().is_taken(),
    ensures
        !c.invokes_render(),
        !c.eject_post(unpatch_applied).invokes_render(),
        c.eject_post(unpatch_applied).hooks_slot().is_taken(),
{
    lemma_slot_exclusive(c.hooks_slot());
    lemma_take_preserves_history(c.hooks_slot());
    lemma_global_slots(c.globals);
    lemma_global_slots(c.eject_post(unpatch_applied).globals);
    lemma_slot_exclusive(c.eject_post(unpatch_applied).hooks_slot());
}

/// Law (idempotent eject): one completed eject pass leaves both slots empty,
/// so a second pass has no hook to uninstall and no module to unload, and
/// changes nothing at all. The one exception is excluded by precondition: a
/// first pass whose uninstall attempt failed deliberately keeps the module
/// handle, and a later pass surrenders it.
pub proof fn lemma_eject_idempotent<R>(
    c: Coordinator<R>,
    first_unpatch: bool,
    second_unpatch: bool,
)
    requires
        c.wf(),
        first_unpatch || !c.hooks_slot().is_full(),
    ensures
        ({
            let after_first = c.eject_post(first_unpatch);
            &&& !after_first.hooks_slot().is_full()
            &&& !after_first.module_slot().is_full()
            &&& after_first.eject_uninstall_result(second_unpatch) is None
            &&& !after_first.eject_unloads(second_unpatch)
            &&& after_first.eject_post(second_unpatch) == after_first
        }),
{
    lemma_slot_exclusive(c.hooks_slot());
    lemma_take_preserves_history(c.hooks_slot());
    lemma_take_preserves_history(c.module_slot());
    lemma_global_slots(c.globals);
    let after_first = c.eject_post(first_unpatch);
    lemma_global_slots(after_first.globals);
    lemma_take_preserves_history(after_first.hooks_slot());
    lemma_take_preserves_history(after_first.module_slot());
    lemma_global_slots(after_first.eject_post(second_unpatch).globals);
}

} // verus!
