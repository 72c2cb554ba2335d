//! System menu items and the keys that tell which item's callback fired.
use vstd::prelude::*;
use core::marker::PhantomData;
use crate::callbacks::{CallbackKey, RegisteredCallback};

verus! {

/// The kind of a menu item that runs an action when chosen.
pub struct Action;

/// The kind of a menu item with a checkmark.
pub struct Checkmark;

/// The kind of a menu item that chooses one of several options.
pub struct Options;

/// A menu item of any kind.
pub struct AnyType;

/// Makes unique ids to pass as the "userdata" key that tells which menu item's callback is being
/// called.
#[derive(Debug)]
pub struct MenuCallbackKeys {
    last: usize,
}

impl MenuCallbackKeys {
    /// The last key handed out, or 0 before any.
    pub closed spec fn last_spec(&self) -> usize {
        self.last
    }

    /// No key handed out yet.
    pub fn new() -> (r: Self)
        ensures
            r.last_spec() == 0,
    {
        MenuCallbackKeys { last: 0 }
    }

    /// Whether another key can be made: the keys are not exhausted.
    pub fn can_make_key(&self) -> (r: bool)
        ensures
            r == (self.last_spec() < usize::MAX),
    {
        self.last < usize::MAX
    }

    /// A key that was not handed out before: one more than the last.
    pub fn make_callback_key(&mut self) -> (r: usize)
        requires
            old(self).last_spec() < usize::MAX,
        ensures
            r == old(self).last_spec() + 1,
            final(self).last_spec() == r,
    {
        self.last = self.last + 1;
        self.last
    }
}

/// A system menu item. The game can specify up to 3 custom menu items in the system menu.
pub struct MenuItem<Type> {
    ptr: usize,
    _callback: RegisteredCallback,
    _marker: PhantomData<Type>,
}

impl<Type> MenuItem<Type> {
    /// The address of the device menu item.
    pub closed spec fn ptr_spec(&self) -> usize {
        self.ptr
    }

    /// The key of the item's closure.
    pub closed spec fn callback_spec(&self) -> CallbackKey {
        self._callback.key_spec()
    }

    /// The menu item at device address `ptr`, holding the registration of its closure for as
    /// long as it lives.
    pub fn new(ptr: usize, callback: RegisteredCallback) -> (r: Self)
        ensures
            r.ptr_spec() == ptr,
            r.callback_spec() == callback.key_spec(),
    {
        MenuItem { ptr, _callback: callback, _marker: PhantomData }
    }

    /// The address of the device menu item.
    pub fn cptr(&self) -> (r: usize)
        ensures
            r == self.ptr_spec(),
    {
        self.ptr
    }
}

} // verus!
