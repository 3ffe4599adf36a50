//! Set-once storage: the two global slots that own the module handle and the
//! installed hook capability.
//!
//! Each slot accepts a value at most once over its whole lifetime, and hands
//! the value out (by move) at most once. A second `set` attempt fails without
//! mutating anything, and a slot whose value has been taken never becomes
//! occupied again. These two guarantees are what make double-install and
//! double-eject harmless.

use vstd::prelude::*;

use crate::hooks::FrameContext;
use crate::hooks::FrameFlags;
use crate::hooks::HookCapability;
use crate::hooks::RenderLoop;

verus! {

/// Opaque identifier of the loaded module, handed over by the host's loader at
/// attach time and surrendered again when the eject path unloads the module.
#[derive(Clone, Copy, Debug, PartialEq, Eq, Structural)]
pub struct ModuleHandle {
    pub raw: isize,
}

/// Error returned when a set-once slot is asked to store a second value.
/// This signals a coordinator programming error, never a runtime condition.
#[derive(Clone, Copy, Debug, PartialEq, Eq, Structural)]
pub enum StateError {
    AlreadySet,
}

/// The three stations of a set-once slot's life: never filled, currently
/// holding its one value, or emptied for good by `take`.
pub(crate) enum SlotInner<T> {
    Unset,
    Full(T),
    Taken,
}

/// A one-shot cell: `set` succeeds exactly once, `take` removes the value
/// exactly once, and `peek` reads without disturbing ownership.
pub struct OnceSlot<T> {
    pub(crate) inner: SlotInner<T>,
}

impl<T> OnceSlot<T> {
    /// The slot currently holds a value.
    pub closed spec fn is_full(&self) -> bool {
        self.inner is Full
    }

    /// The slot's value has been removed by `take`.
    pub closed spec fn is_taken(&self) -> bool {
        self.inner is Taken
    }

    /// A value has been stored at some point, whether or not it is still here.
    pub open spec fn set_ever(&self) -> bool {
        self.is_full() || self.is_taken()
    }

    /// The stored value, meaningful while the slot is full.
    pub closed spec fn value(&self) -> T
        recommends
            self.is_full(),
    {
        self.inner->0
    }

    /// What `set` does: the slot and the result it returns. A rejected value
    /// comes back to the caller untouched.
    pub closed spec fn set_step(self, value: T) -> (OnceSlot<T>, Result<(), T>) {
        if self.set_ever() {
            (self, Err(value))
        } else {
            (OnceSlot { inner: SlotInner::Full(value) }, Ok(()))
        }
    }

    /// What `take` does: the slot and the value it surrenders.
    pub closed spec fn take_step(self) -> (OnceSlot<T>, Option<T>) {
        if self.is_full() {
            (OnceSlot { inner: SlotInner::Taken }, Some(self.value()))
        } else {
            (self, None)
        }
    }

    /// A slot that has never held anything.
    pub fn new() -> (slot: OnceSlot<T>)
        ensures
            !slot.set_ever(),
    {
        OnceSlot { inner: SlotInner::Unset }
    }

    /// Store the slot's one value. Fails, handing the value back untouched,
    /// if a value was ever stored before — even one that has since been taken.
    pub fn set(&mut self, value: T) -> (r: Result<(), T>)
        ensures
            *final(self) == old(self).set_step(value).0,
            r == old(self).set_step(value).1,
            !old(self).set_ever() ==> r is Ok && final(self).is_full() && final(self).value()
                == value,
            old(self).set_ever() ==> r == Err::<(), T>(value) && *final(self) == *old(self),
    {
        match &self.inner {
            SlotInner::Unset => {
                self.inner = SlotInner::Full(value);
                Ok(())
            },
            _ => Err(value),
        }
    }

    /// Remove and return the value, leaving the slot permanently emptied.
    /// Returns `None` — and changes nothing — when no value is present.
    pub fn take(&mut self) -> (r: Option<T>)
        ensures
            *final(self) == old(self).take_step().0,
            r == old(self).take_step().1,
            old(self).is_full() ==> r == Some(old(self).value()) && final(self).is_taken(),
            !old(self).is_full() ==> r is None && *final(self) == *old(self),
            final(self).set_ever() == old(self).set_ever(),
            !final(self).is_full(),
    {
        let mut grabbed: SlotInner<T> = SlotInner::Unset;
        core::mem::swap(&mut grabbed, &mut self.inner);
        match grabbed {
            SlotInner::Full(value) => {
                self.inner = SlotInner::Taken;
                Some(value)
            },
            SlotInner::Unset => {
                self.inner = SlotInner::Unset;
                None
            },
            SlotInner::Taken => {
                self.inner = SlotInner::Taken;
                None
            },
        }
    }

    /// Read the value without taking ownership.
    pub fn peek(&self) -> (r: Option<&T>)
        ensures
            self.is_full() ==> (r matches Some(v) && *v == self.value()),
            !self.is_full() ==> r is None,
    {
        match &self.inner {
            SlotInner::Full(value) => Some(value),
            _ => None,
        }
    }

    /// The slot currently holds a value.
    pub fn occupied(&self) -> (b: bool)
        ensures
            b == self.is_full(),
    {
        match &self.inner {
            SlotInner::Full(_) => true,
            _ => false,
        }
    }
}

/// Law: a slot accepts a value at most once. On a fresh slot the first `set`
/// succeeds; whatever the slot's history, after any `set` every further `set`
/// fails, rejects its value and leaves the slot exactly as it was.
pub proof fn lemma_set_at_most_once<T>(slot: OnceSlot<T>, first: T, second: T)
    ensures
        !slot.set_ever() ==> slot.set_step(first).1 is Ok,
        slot.set_step(first).0.set_step(second).1 == Err::<(), T>(second),
        slot.set_step(first).0.set_step(second).0 == slot.set_step(first).0,
{
}

/// Law: a slot stands in exactly one station — it is never both full and
/// taken.
pub proof fn lemma_slot_exclusive<T>(slot: OnceSlot<T>)
    ensures
        !(slot.is_full() && slot.is_taken()),
{
}

/// Law: `take` never re-opens a slot. Taking preserves the fact that the slot
/// was once set, an already-taken slot stays taken and yields nothing, and a
/// full slot yields its value exactly once.
pub proof fn lemma_take_preserves_history<T>(slot: OnceSlot<T>)
    ensures
        slot.take_step().0.set_ever() == slot.set_ever(),
        !slot.is_full() ==> slot.take_step().0 == slot && slot.take_step().1 is None,
        slot.is_full() ==> slot.take_step().0.is_taken() && slot.take_step().1 == Some(
            slot.value(),
        ),
        !slot.take_step().0.is_full(),
{
}

/// Links the singleton's spec accessors to its parts, for proofs elsewhere in
/// the crate that put a state together from its slots.
pub(crate) proof fn lemma_global_slots<R>(g: GlobalState<R>)
    ensures
        g.module_slot() == g.module,
        g.hooks_slot() == g.hooks,
{
}

/// The process-wide singleton: two independent set-once slots, one owning the
/// host module handle and one owning the active hook capability. Only the
/// lifecycle coordinator legitimately writes here — the set operations fail
/// on a second attempt precisely to surface a violation of that discipline.
pub struct GlobalState<R> {
    pub(crate) module: OnceSlot<ModuleHandle>,
    pub(crate) hooks: OnceSlot<HookCapability<R>>,
}

impl<R> GlobalState<R> {
    /// The slot owning the module handle.
    pub closed spec fn module_slot(&self) -> OnceSlot<ModuleHandle> {
        self.module
    }

    /// The slot owning the active hook capability.
    pub closed spec fn hooks_slot(&self) -> OnceSlot<HookCapability<R>> {
        self.hooks
    }

    /// Both slots empty, nothing ever stored.
    pub fn new() -> (g: GlobalState<R>)
        ensures
            !g.module_slot().set_ever(),
            !g.hooks_slot().set_ever(),
    {
        GlobalState { module: OnceSlot::new(), hooks: OnceSlot::new() }
    }

    /// Record the module handle the loader supplied. Succeeds exactly once;
    /// every further attempt fails without mutating either slot.
    pub fn set_module(&mut self, module: ModuleHandle) -> (r: Result<(), StateError>)
        ensures
            final(self).module_slot() == old(self).module_slot().set_step(module).0,
            final(self).hooks_slot() == old(self).hooks_slot(),
            !old(self).module_slot().set_ever() ==> r is Ok && final(self).module_slot().is_full()
                && final(self).module_slot().value() == module,
            old(self).module_slot().set_ever() ==> r == Err::<(), StateError>(
                StateError::AlreadySet,
            ) && *final(self) == *old(self),
    {
        match self.module.set(module) {
            Ok(()) => Ok(()),
            Err(_rejected) => Err(StateError::AlreadySet),
        }
    }

    /// Read the module handle without taking ownership.
    pub fn get_module(&self) -> (r: Option<ModuleHandle>)
        ensures
            self.module_slot().is_full() ==> r == Some(self.module_slot().value()),
            !self.module_slot().is_full() ==> r is None,
    {
        match self.module.peek() {
            Some(module) => Some(*module),
            None => None,
        }
    }

    /// Remove and return the module handle; used only by the teardown path.
    pub fn take_module(&mut self) -> (r: Option<ModuleHandle>)
        ensures
            final(self).module_slot() == old(self).module_slot().take_step().0,
            r == old(self).module_slot().take_step().1,
            final(self).hooks_slot() == old(self).hooks_slot(),
            old(self).module_slot().is_full() ==> r == Some(old(self).module_slot().value())
                && final(self).module_slot().is_taken(),
            !old(self).module_slot().is_full() ==> r is None && *final(self) == *old(self),
            !final(self).module_slot().is_full(),
            final(self).module_slot().set_ever() == old(self).module_slot().set_ever(),
    {
        self.module.take()
    }

    /// Store the active hook capability. Succeeds exactly once; a second
    /// capability is refused and handed back untouched, so a live hook is
    /// never silently overwritten or dropped.
    pub fn set_hooks(&mut self, hooks: HookCapability<R>) -> (r: Result<(), HookCapability<R>>)
        ensures
            final(self).hooks_slot() == old(self).hooks_slot().set_step(hooks).0,
            r == old(self).hooks_slot().set_step(hooks).1,
            final(self).module_slot() == old(self).module_slot(),
            !old(self).hooks_slot().set_ever() ==> r is Ok && final(self).hooks_slot().is_full()
                && final(self).hooks_slot().value() == hooks,
            old(self).hooks_slot().set_ever() ==> (r matches Err(h) && h == hooks) && *final(self)
                == *old(self),
    {
        self.hooks.set(hooks)
    }

    /// Remove and return the hook capability; used only by the teardown path.
    /// The slot is permanently emptied: no capability can be stored after.
    pub fn take_hooks(&mut self) -> (r: Option<HookCapability<R>>)
        ensures
            final(self).hooks_slot() == old(self).hooks_slot().take_step().0,
            r == old(self).hooks_slot().take_step().1,
            final(self).module_slot() == old(self).module_slot(),
            old(self).hooks_slot().is_full() ==> r == Some(old(self).hooks_slot().value())
                && final(self).hooks_slot().is_taken(),
            !old(self).hooks_slot().is_full() ==> r is None && *final(self) == *old(self),
            !final(self).hooks_slot().is_full(),
            final(self).hooks_slot().set_ever() == old(self).hooks_slot().set_ever(),
    {
        self.hooks.take()
    }

    /// Whether a hook capability is currently stored — the diagnostic read
    /// that does not disturb ownership.
    pub fn has_hooks(&self) -> (b: bool)
        ensures
            b == self.hooks_slot().is_full(),
    {
        self.hooks.occupied()
    }
}

impl<R: RenderLoop> GlobalState<R> {
    /// The dispatch path of an intercepted host frame: while the hook slot
    /// holds an installed capability, the render loop runs once; otherwise
    /// nothing runs. The slots' stations, the stored capability's backend and
    /// its install state are untouched either way.
    pub fn dispatch_frame(&mut self, ctx: &mut FrameContext, flags: &FrameFlags) -> (invoked: bool)
        ensures
            invoked == (old(self).hooks_slot().is_full()
                && old(self).hooks_slot().value().installed()),
            final(self).module_slot() == old(self).module_slot(),
            final(self).hooks_slot().is_full() == old(self).hooks_slot().is_full(),
            final(self).hooks_slot().is_taken() == old(self).hooks_slot().is_taken(),
            old(self).hooks_slot().is_full() ==> final(self).hooks_slot().value().backend()
                == old(self).hooks_slot().value().backend()
                && final(self).hooks_slot().value().hook_state()
                == old(self).hooks_slot().value().hook_state(),
    {
        match &mut self.hooks.inner {
            SlotInner::Full(cap) => cap.dispatch_frame(ctx, flags),
            _ => false,
        }
    }
}

} // verus!
