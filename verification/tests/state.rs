use hudhook::hooks::Backend;
use hudhook::hooks::HookCapability;
use hudhook::state::GlobalState;
use hudhook::state::ModuleHandle;
use hudhook::state::OnceSlot;
use hudhook::state::StateError;

#[test]
fn onceslot_set_take_peek() {
    let mut slot: OnceSlot<u32> = OnceSlot::new();
    assert!(!slot.occupied());
    assert!(slot.peek().is_none());
    assert_eq!(slot.set(11), Ok(()));
    assert!(slot.occupied());
    assert_eq!(slot.peek(), Some(&11));
    assert_eq!(slot.take(), Some(11));
    assert!(!slot.occupied());
    assert_eq!(slot.take(), None);
}

#[test]
fn onceslot_set_fails_after_take() {
    let mut slot: OnceSlot<u32> = OnceSlot::new();
    assert_eq!(slot.set(1), Ok(()));
    assert_eq!(slot.take(), Some(1));
    assert_eq!(slot.set(2), Err(2));
    assert!(slot.peek().is_none());
}

#[test]
fn set_module_succeeds_exactly_once() {
    let mut g: GlobalState<u8> = GlobalState::new();
    assert_eq!(g.set_module(ModuleHandle { raw: 40 }), Ok(()));
    assert_eq!(g.set_module(ModuleHandle { raw: 41 }), Err(StateError::AlreadySet));
    assert_eq!(g.set_module(ModuleHandle { raw: 42 }), Err(StateError::AlreadySet));
    assert_eq!(g.get_module(), Some(ModuleHandle { raw: 40 }));
}

#[test]
fn get_module_empty_is_none() {
    let g: GlobalState<u8> = GlobalState::new();
    assert_eq!(g.get_module(), None);
}

#[test]
fn take_module_yields_exactly_once() {
    let mut g: GlobalState<u8> = GlobalState::new();
    assert_eq!(g.take_module(), None);
    assert_eq!(g.set_module(ModuleHandle { raw: 7 }), Ok(()));
    assert_eq!(g.take_module(), Some(ModuleHandle { raw: 7 }));
    assert_eq!(g.take_module(), None);
    assert_eq!(g.get_module(), None);
    assert_eq!(g.set_module(ModuleHandle { raw: 8 }), Err(StateError::AlreadySet));
}

#[test]
fn set_hooks_succeeds_exactly_once() {
    let mut g: GlobalState<u8> = GlobalState::new();
    assert!(!g.has_hooks());
    let first = HookCapability::build(0u8, Backend::Dx9);
    assert!(g.set_hooks(first).is_ok());
    assert!(g.has_hooks());
    let second = HookCapability::build(1u8, Backend::Dx11);
    let rejected = g.set_hooks(second);
    let handed_back = rejected.err().expect("second set must fail");
    assert_eq!(handed_back.selected_backend(), Backend::Dx11);
    assert!(g.has_hooks());
}

#[test]
fn take_hooks_yields_exactly_once() {
    let mut g: GlobalState<u8> = GlobalState::new();
    assert!(g.take_hooks().is_none());
    let cap = HookCapability::build(0u8, Backend::OpenGl3);
    assert!(g.set_hooks(cap).is_ok());
    let taken = g.take_hooks().expect("stored capability comes back");
    assert_eq!(taken.selected_backend(), Backend::OpenGl3);
    assert!(g.take_hooks().is_none());
    assert!(!g.has_hooks());
    let late = HookCapability::build(2u8, Backend::Dx12);
    assert!(g.set_hooks(late).is_err());
}
