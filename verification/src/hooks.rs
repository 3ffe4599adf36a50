//! The hook capability and the render-loop contract.
//!
//! A hook capability is the per-backend object that patches the host's
//! rendering call path on `install`, routes every intercepted frame through
//! the user's render loop, and restores the original path on `uninstall`.
//! One closed set of backends is supported; the instruction-level patching
//! itself belongs to the host-side engine, which reports whether the patch
//! (or its reversal) was applied — the capability records the outcome and
//! enforces the install/uninstall discipline around it.

use vstd::prelude::*;

verus! {

/// The rendering backends a hook capability can be built for.
#[derive(Clone, Copy, Debug, PartialEq, Eq, Structural)]
pub enum Backend {
    Dx9,
    Dx11,
    Dx12,
    OpenGl3,
}

/// Failures of the install/uninstall operations.
#[derive(Clone, Copy, Debug, PartialEq, Eq, Structural)]
pub enum HookError {
    /// Patching the target function failed; the host is unchanged.
    PatchFailed,
    /// Uninstall was asked of a capability that is not currently installed.
    NotInstalled,
    /// The applied patch could not be reverted; the hook is still live.
    RevertFailed,
}

/// Where a capability stands in its install/uninstall life.
#[derive(Clone, Copy, Debug, PartialEq, Eq, Structural)]
pub enum HookState {
    NotInstalled,
    Installed,
    Uninstalled,
}

/// Immutable per-frame metadata handed to the render loop; recreated every
/// frame, carrying no identity.
#[derive(Clone, Copy, Debug, PartialEq, Eq, Structural)]
pub struct FrameFlags {
    /// Whether the overlay should currently capture the host's input.
    pub capture_input: bool,
}

/// The drawing surface a render loop draws through. Draw submissions are
/// counted, so a caller can observe how often — and with what effect — the
/// render loop actually ran.
pub struct FrameContext {
    draw_calls: u64,
}

impl FrameContext {
    /// How many draw submissions went through this context.
    pub closed spec fn draw_calls(&self) -> u64 {
        self.draw_calls
    }

    /// A fresh context with nothing drawn yet.
    pub fn new() -> (c: FrameContext)
        ensures
            c.draw_calls() == 0,
    {
        FrameContext { draw_calls: 0 }
    }

    /// Submit one draw through the context.
    pub fn submit_draw(&mut self)
        requires
            old(self).draw_calls() < u64::MAX,
        ensures
            final(self).draw_calls() == old(self).draw_calls() + 1,
    {
        self.draw_calls = self.draw_calls + 1;
    }

    /// How many draw submissions went through this context.
    pub fn draw_call_count(&self) -> (n: u64)
        ensures
            n == self.draw_calls(),
    {
        self.draw_calls
    }
}

/// User-supplied per-frame behaviour, invoked synchronously on the host's
/// rendering thread once per intercepted frame. It must not block
/// indefinitely: the host thread is suspended for the duration of the call.
pub trait RenderLoop {
    /// Draw one frame through `ctx`, honouring `flags`.
    fn render(&mut self, ctx: &mut FrameContext, flags: &FrameFlags);
}

/// A per-backend hook capability wrapping one render loop. Exactly one
/// instance may be active in a process at a time; ownership of an installed
/// capability rests with the global state until the eject path takes it.
pub struct HookCapability<R> {
    backend: Backend,
    state: HookState,
    render_loop: R,
}

impl<R> HookCapability<R> {
    /// The backend this capability was built for.
    pub closed spec fn backend(&self) -> Backend {
        self.backend
    }

    /// Where the capability stands in its install/uninstall life.
    pub closed spec fn hook_state(&self) -> HookState {
        self.state
    }

    /// The capability is currently installed: the host's call path is patched
    /// and frames reach the render loop.
    pub open spec fn installed(&self) -> bool {
        self.hook_state() is Installed
    }

    /// The backend factory: wrap `render_loop` into a capability for the
    /// chosen backend. Every backend yields a capability that is ready to
    /// install; none is missing from the dispatch.
    pub fn build(render_loop: R, backend: Backend) -> (cap: HookCapability<R>)
        ensures
            cap.backend() == backend,
            cap.hook_state() is NotInstalled,
    {
        HookCapability { backend, state: HookState::NotInstalled, render_loop }
    }

    /// Install the hook: the host-side engine patches the target function and
    /// reports through `patch_applied` whether the patch took hold. Calling
    /// install twice on one capability is outside this contract — the
    /// coordinator guarantees at most one call — so an already-installed
    /// capability is excluded by precondition.
    pub fn install(&mut self, patch_applied: bool) -> (r: Result<(), HookError>)
        requires
            old(self).hook_state() is NotInstalled,
        ensures
            final(self).backend() == old(self).backend(),
            patch_applied ==> r is Ok && final(self).hook_state() is Installed,
            !patch_applied ==> r == Err::<(), HookError>(HookError::PatchFailed) && *final(self)
                == *old(self),
    {
        if patch_applied {
            self.state = HookState::Installed;
            Ok(())
        } else {
            Err(HookError::PatchFailed)
        }
    }

    /// Uninstall the hook: the host-side engine reverts the patch and reports
    /// through `unpatch_applied` whether the original path was restored.
    /// Exactly one call on an installed capability succeeds; on a
    /// never-installed or already-uninstalled capability the call signals an
    /// error and changes nothing. If the engine cannot revert the patch the
    /// capability stays installed — the hook is still live in the host.
    pub fn uninstall(&mut self, unpatch_applied: bool) -> (r: Result<(), HookError>)
        ensures
            final(self).backend() == old(self).backend(),
            old(self).hook_state() is Installed && unpatch_applied ==> r == Ok::<(), HookError>(())
                && final(self).hook_state() is Uninstalled,
            old(self).hook_state() is Installed && !unpatch_applied ==> r == Err::<(), HookError>(
                HookError::RevertFailed,
            ) && *final(self) == *old(self),
            !(old(self).hook_state() is Installed) ==> r == Err::<(), HookError>(
                HookError::NotInstalled,
            ) && *final(self) == *old(self),
    {
        match self.state {
            HookState::Installed => {
                if unpatch_applied {
                    self.state = HookState::Uninstalled;
                    Ok(())
                } else {
                    Err(HookError::RevertFailed)
                }
            },
            _ => Err(HookError::NotInstalled),
        }
    }

    /// The backend this capability was built for.
    pub fn selected_backend(&self) -> (b: Backend)
        ensures
            b == self.backend(),
    {
        self.backend
    }

    /// The capability is currently installed.
    pub fn is_installed(&self) -> (b: bool)
        ensures
            b == self.installed(),
    {
        match self.state {
            HookState::Installed => true,
            _ => false,
        }
    }
}

impl<R: RenderLoop> HookCapability<R> {
    /// The dispatch path the installed patch routes the host's present call
    /// through: while the capability is installed, the render loop runs once
    /// and the call reports it; otherwise nothing runs. The install state and
    /// backend are untouched either way.
    pub fn dispatch_frame(&mut self, ctx: &mut FrameContext, flags: &FrameFlags) -> (invoked: bool)
        ensures
            invoked == old(self).installed(),
            final(self).backend() == old(self).backend(),
            final(self).hook_state() == old(self).hook_state(),
    {
        match self.state {
            HookState::Installed => {
                self.render_loop.render(ctx, flags);
                true
            },
            _ => false,
        }
    }
}

} // verus!
