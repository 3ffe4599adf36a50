use hudhook::console::ConsoleState;
use hudhook::hooks::Backend;
use hudhook::hooks::FrameContext;
use hudhook::hooks::FrameFlags;
use hudhook::hooks::HookError;
use hudhook::hooks::RenderLoop;
use hudhook::lifecycle::Coordinator;
use hudhook::lifecycle::LifecycleError;
use hudhook::lifecycle::LifecyclePhase;
use hudhook::state::ModuleHandle;

struct Overlay;

impl RenderLoop for Overlay {
    fn render(&mut self, ctx: &mut FrameContext, flags: &FrameFlags) {
        ctx.submit_draw();
        if flags.capture_input {
            ctx.submit_draw();
        }
    }
}

#[test]
fn attach_records_module_handle() {
    let mut c: Coordinator<Overlay> = Coordinator::new();
    assert_eq!(c.current_phase(), LifecyclePhase::Unloaded);
    assert_eq!(c.on_attach(ModuleHandle { raw: 42 }), Ok(()));
    assert_eq!(c.current_phase(), LifecyclePhase::Attaching);
    assert_eq!(c.get_module(), Some(ModuleHandle { raw: 42 }));
}

#[test]
fn double_attach_is_rejected() {
    let mut c: Coordinator<Overlay> = Coordinator::new();
    assert_eq!(c.on_attach(ModuleHandle { raw: 1 }), Ok(()));
    assert_eq!(c.on_attach(ModuleHandle { raw: 2 }), Err(LifecycleError::DoubleAttach));
    assert_eq!(c.get_module(), Some(ModuleHandle { raw: 1 }));
}

#[test]
fn install_worker_stores_the_hook() {
    let mut c: Coordinator<Overlay> = Coordinator::new();
    c.on_attach(ModuleHandle { raw: 5 }).expect("first attach");
    assert_eq!(c.install_worker(Overlay, Backend::Dx12, true), Ok(()));
    assert_eq!(c.current_phase(), LifecyclePhase::Active);
    assert!(c.has_hooks());
    assert_eq!(c.last_install_error(), None);
}

#[test]
fn install_worker_failure_leaves_module_inert() {
    let mut c: Coordinator<Overlay> = Coordinator::new();
    c.on_attach(ModuleHandle { raw: 5 }).expect("first attach");
    assert_eq!(
        c.install_worker(Overlay, Backend::Dx9, false),
        Err(LifecycleError::InstallFailed(HookError::PatchFailed))
    );
    assert_eq!(c.current_phase(), LifecyclePhase::InstallFailed);
    assert_eq!(c.last_install_error(), Some(HookError::PatchFailed));
    assert!(!c.has_hooks());
    let mut ctx = FrameContext::new();
    assert!(!c.on_host_frame(&mut ctx, &FrameFlags { capture_input: false }));
    assert_eq!(ctx.draw_call_count(), 0);
    assert_eq!(c.get_module(), Some(ModuleHandle { raw: 5 }));
}

#[test]
fn install_worker_outside_attaching_does_nothing() {
    let mut c: Coordinator<Overlay> = Coordinator::new();
    assert_eq!(c.install_worker(Overlay, Backend::Dx11, true), Err(LifecycleError::WrongPhase));
    assert_eq!(c.current_phase(), LifecyclePhase::Unloaded);
}

#[test]
fn begin_install_outside_attaching_does_nothing() {
    let mut c: Coordinator<Overlay> = Coordinator::new();
    assert_eq!(c.begin_install(), Err(LifecycleError::WrongPhase));
}

#[test]
fn no_render_before_install() {
    let mut c: Coordinator<Overlay> = Coordinator::new();
    c.on_attach(ModuleHandle { raw: 3 }).expect("first attach");
    let mut ctx = FrameContext::new();
    assert!(!c.on_host_frame(&mut ctx, &FrameFlags { capture_input: true }));
    assert_eq!(ctx.draw_call_count(), 0);
}

#[test]
fn full_lifecycle_scenario() {
    let mut c: Coordinator<Overlay> = Coordinator::new();
    let mut console = ConsoleState::new();
    assert_eq!(c.on_attach(ModuleHandle { raw: 42 }), Ok(()));
    assert_eq!(c.get_module(), Some(ModuleHandle { raw: 42 }));
    assert_eq!(c.install_worker(Overlay, Backend::Dx11, true), Ok(()));
    assert!(console.alloc_console());
    let mut ctx = FrameContext::new();
    assert!(c.on_host_frame(&mut ctx, &FrameFlags { capture_input: true }));
    assert_eq!(ctx.draw_call_count(), 2);
    let outcome = c.eject(&mut console, true);
    assert!(outcome.console_freed);
    assert_eq!(outcome.uninstall, Some(Ok(())));
    assert_eq!(outcome.unloaded, Some(ModuleHandle { raw: 42 }));
    assert_eq!(c.current_phase(), LifecyclePhase::Ejected);
    assert!(!c.on_host_frame(&mut ctx, &FrameFlags { capture_input: true }));
    assert_eq!(ctx.draw_call_count(), 2);
}

#[test]
fn eject_twice_second_pass_is_noop() {
    let mut c: Coordinator<Overlay> = Coordinator::new();
    let mut console = ConsoleState::new();
    c.on_attach(ModuleHandle { raw: 9 }).expect("first attach");
    c.install_worker(Overlay, Backend::OpenGl3, true).expect("install");
    console.alloc_console();
    let first = c.eject(&mut console, true);
    assert_eq!(first.uninstall, Some(Ok(())));
    assert_eq!(first.unloaded, Some(ModuleHandle { raw: 9 }));
    let second = c.eject(&mut console, true);
    assert!(!second.console_freed);
    assert_eq!(second.uninstall, None);
    assert_eq!(second.unloaded, None);
    assert_eq!(c.current_phase(), LifecyclePhase::Ejected);
}

#[test]
fn eject_before_install_finished_skips_uninstall() {
    let mut c: Coordinator<Overlay> = Coordinator::new();
    let mut console = ConsoleState::new();
    c.on_attach(ModuleHandle { raw: 77 }).expect("first attach");
    c.begin_install().expect("worker started");
    let outcome = c.eject(&mut console, true);
    assert_eq!(outcome.uninstall, None);
    assert_eq!(outcome.unloaded, Some(ModuleHandle { raw: 77 }));
    assert_eq!(c.current_phase(), LifecyclePhase::Ejected);
    // the late install worker sees the phase has moved on and abandons its
    // capability instead of storing it
    assert_ne!(c.current_phase(), LifecyclePhase::Installing);
    assert!(!c.has_hooks());
    let mut ctx = FrameContext::new();
    assert!(!c.on_host_frame(&mut ctx, &FrameFlags { capture_input: false }));
    assert_eq!(ctx.draw_call_count(), 0);
}

#[test]
fn eject_with_failed_uninstall_refuses_unload() {
    let mut c: Coordinator<Overlay> = Coordinator::new();
    let mut console = ConsoleState::new();
    c.on_attach(ModuleHandle { raw: 13 }).expect("first attach");
    c.install_worker(Overlay, Backend::Dx9, true).expect("install");
    let outcome = c.eject(&mut console, false);
    assert_eq!(outcome.uninstall, Some(Err(HookError::RevertFailed)));
    assert_eq!(outcome.unloaded, None);
    assert_eq!(c.current_phase(), LifecyclePhase::Detaching);
    assert_eq!(c.get_module(), Some(ModuleHandle { raw: 13 }));
    // a later pass finds the hook slot already emptied and surrenders the
    // module handle
    let late = c.eject(&mut console, true);
    assert_eq!(late.uninstall, None);
    assert_eq!(late.unloaded, Some(ModuleHandle { raw: 13 }));
    assert_eq!(c.current_phase(), LifecyclePhase::Ejected);
}

#[test]
fn eject_before_attach_is_safe() {
    let mut c: Coordinator<Overlay> = Coordinator::new();
    let mut console = ConsoleState::new();
    let outcome = c.eject(&mut console, true);
    assert!(!outcome.console_freed);
    assert_eq!(outcome.uninstall, None);
    assert_eq!(outcome.unloaded, None);
}
