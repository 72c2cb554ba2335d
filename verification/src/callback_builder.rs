//! A builder that connects a closure to the `Callbacks` object which will later run it.
//!
//! The builder's type records whether a null callback is allowed (`Rule`) and how far the builder
//! has been constructed (`State`).
use vstd::prelude::*;
use core::marker::PhantomData;

verus! {

/// The rule of a builder that must be given a closure.
pub struct NoNull;

/// The rule of a builder that may also be the null callback.
pub struct AllowNull;

/// A builder with nothing attached yet.
pub struct Unconstructed;

/// A builder with a `Callbacks` object attached, waiting for its closure.
pub struct WithCallacks;

/// A finished builder.
pub struct Constructed;

/// A builder pattern to construct a callback that will later be called when the system reports a
/// callback. Connects a closure to a `Callbacks` object (of type `C`) which can later run the
/// closure (of type `F`).
pub struct CallbackBuilder<'a, C, F, Rule, State> {
    callbacks: Option<&'a mut C>,
    cb: Option<F>,
    _marker: PhantomData<(Rule, State)>,
}

impl<'a, C, F, Rule, State> CallbackBuilder<'a, C, F, Rule, State> {
    /// Whether a `Callbacks` object is attached.
    pub closed spec fn has_callbacks(&self) -> bool {
        self.callbacks is Some
    }

    /// The attached `Callbacks` object.
    pub closed spec fn callbacks_spec(&self) -> C {
        *self.callbacks->0
    }

    /// The attached closure.
    pub closed spec fn cb_spec(&self) -> Option<F> {
        self.cb
    }
}

impl<'a, C, F> CallbackBuilder<'a, C, F, AllowNull, Unconstructed> {
    /// A null callback, which is used to specify a callback should not be set, or should be
    /// removed.
    pub fn none() -> (r: CallbackBuilder<'a, C, F, AllowNull, Constructed>)
        ensures
            !r.has_callbacks(),
            r.cb_spec() is None,
    {
        CallbackBuilder { callbacks: None, cb: None, _marker: PhantomData }
    }
}

impl<'a, C, F, Rule> CallbackBuilder<'a, C, F, Rule, Unconstructed> {
    /// Attach a `Callbacks` object to this builder, that will hold the closure.
    pub fn with(callbacks: &'a mut C) -> (r: CallbackBuilder<'a, C, F, Rule, WithCallacks>)
        ensures
            r.has_callbacks(),
            r.callbacks_spec() == *old(callbacks),
            r.cb_spec() is None,
    {
        CallbackBuilder { callbacks: Some(callbacks), cb: None, _marker: PhantomData }
    }
}

impl<'a, C, F, Rule> CallbackBuilder<'a, C, F, Rule, WithCallacks> {
    /// Attach a closure to this builder, which will be held in the `Callbacks` object and called
    /// via that same `Callbacks` object.
    pub fn call(self, cb: F) -> (r: CallbackBuilder<'a, C, F, Rule, Constructed>)
        ensures
            r.has_callbacks() == self.has_callbacks(),
            self.has_callbacks() ==> r.callbacks_spec() == self.callbacks_spec(),
            r.cb_spec() == Some(cb),
    {
        CallbackBuilder { callbacks: self.callbacks, cb: Some(cb), _marker: PhantomData }
    }
}

impl<'a, C, F, Rule> CallbackBuilder<'a, C, F, Rule, Constructed> {
    /// The attached `Callbacks` object and closure, or `None` for the null callback.
    pub fn into_inner(self) -> (r: Option<(&'a mut C, F)>)
        ensures
            match r {
                Some((c, f)) => self.has_callbacks() && *c == self.callbacks_spec()
                    && self.cb_spec() == Some(f),
                None => !self.has_callbacks() || self.cb_spec() is None,
            },
    {
        match (self.callbacks, self.cb) {
            (Some(c), Some(f)) => Some((c, f)),
            _ => None,
        }
    }
}

/// A `CallbackBuilder` which includes an argument (of type `Arg`) passed from the system to the
/// callback.
pub struct CallbackBuilderWithArg<'a, Arg, C, F, Rule, State> {
    callbacks: Option<&'a mut C>,
    cb: Option<F>,
    _marker: PhantomData<(Arg, Rule, State)>,
}

impl<'a, Arg, C, F, Rule, State> CallbackBuilderWithArg<'a, Arg, C, F, Rule, State> {
    /// Whether a `Callbacks` object is attached.
    pub closed spec fn has_callbacks(&self) -> bool {
        self.callbacks is Some
    }

    /// The attached `Callbacks` object.
    pub closed spec fn callbacks_spec(&self) -> C {
        *self.callbacks->0
    }

    /// The attached closure.
    pub closed spec fn cb_spec(&self) -> Option<F> {
        self.cb
    }
}

impl<'a, Arg, C, F> CallbackBuilderWithArg<'a, Arg, C, F, AllowNull, Unconstructed> {
    /// A null callback, which is used to specify a callback should not be set, or should be
    /// removed.
    pub fn none() -> (r: CallbackBuilderWithArg<'a, Arg, C, F, AllowNull, Constructed>)
        ensures
            !r.has_callbacks(),
            r.cb_spec() is None,
    {
        CallbackBuilderWithArg { callbacks: None, cb: None, _marker: PhantomData }
    }
}

impl<'a, Arg, C, F, Rule> CallbackBuilderWithArg<'a, Arg, C, F, Rule, Unconstructed> {
    /// Attach a `Callbacks` object to this builder, that will hold the closure.
    pub fn with(callbacks: &'a mut C) -> (r: CallbackBuilderWithArg<'a, Arg, C, F, Rule, WithCallacks>)
        ensures
            r.has_callbacks(),
            r.callbacks_spec() == *old(callbacks),
            r.cb_spec() is None,
    {
        CallbackBuilderWithArg { callbacks: Some(callbacks), cb: None, _marker: PhantomData }
    }
}

impl<'a, Arg, C, F, Rule> CallbackBuilderWithArg<'a, Arg, C, F, Rule, WithCallacks> {
    /// Attach a closure to this builder, which will be held in the `Callbacks` object and called
    /// via that same `Callbacks` object.
    pub fn call(self, cb: F) -> (r: CallbackBuilderWithArg<'a, Arg, C, F, Rule, Constructed>)
        ensures
            r.has_callbacks() == self.has_callbacks(),
            self.has_callbacks() ==> r.callbacks_spec() == self.callbacks_spec(),
            r.cb_spec() == Some(cb),
    {
        CallbackBuilderWithArg { callbacks: self.callbacks, cb: Some(cb), _marker: PhantomData }
    }
}

impl<'a, Arg, C, F, Rule> CallbackBuilderWithArg<'a, Arg, C, F, Rule, Constructed> {
    /// The attached `Callbacks` object and closure, or `None` for the null callback.
    pub fn into_inner(self) -> (r: Option<(&'a mut C, F)>)
        ensures
            match r {
                Some((c, f)) => self.has_callbacks() && *c == self.callbacks_spec()
                    && self.cb_spec() == Some(f),
                None => !self.has_callbacks() || self.cb_spec() is None,
            },
    {
        match (self.callbacks, self.cb) {
            (Some(c), Some(f)) => Some((c, f)),
            _ => None,
        }
    }
}

} // verus!
