//! Handles to the values of an environment, by their type.

use vstd::prelude::*;
use crate::env::Env;
use crate::raw::Local;

verus! {

/// A type whose values are made of a raw handle and nothing else.
pub trait Managed: Copy {
    /// The raw handle.
    spec fn raw(self) -> Local;

    fn to_raw(self) -> (local: Local)
        ensures
            local == self.raw(),
    ;

    fn from_raw(env: &Env, h: Local) -> (value: Self)
        ensures
            value.raw() == h,
    ;
}

/// A type that every value of `T` also belongs to.
pub trait SuperType<T: Managed>: Managed {
    fn upcast_internal(v: T) -> (upcast: Self)
        ensures
            upcast.raw() == v.raw(),
    ;
}

/// A handle to a value of type `T`.
#[derive(Clone, Copy, Debug)]
pub struct Handle<T> {
    value: T,
}

impl<T: Managed> Handle<T> {
    /// What the handle holds.
    pub closed spec fn value(self) -> T {
        self.value
    }

    /// The raw handle.
    pub open spec fn raw(self) -> Local {
        self.value().raw()
    }

    pub fn new_internal(value: T) -> (handle: Handle<T>)
        ensures
            handle.value() == value,
    {
        Handle { value }
    }

    /// What the handle holds.
    pub fn get(&self) -> (value: T)
        ensures
            value == self.value(),
    {
        self.value
    }

    /// The raw handle.
    pub fn to_raw(&self) -> (local: Local)
        ensures
            local == self.raw(),
    {
        self.value.to_raw()
    }

    /// Safely upcast a handle to a supertype.
    pub fn upcast<U: SuperType<T>>(&self) -> (upcast: Handle<U>)
        ensures
            upcast.raw() == self.raw(),
    {
        Handle::new_internal(U::upcast_internal(self.value))
    }
}

} // verus!
