use vstd::prelude::*;
use crate::raw::RawReference;

verus! {

/// A typed wrapper of a raw reference: it can be unwrapped and wrapped again
/// without loss and without any check.
pub trait Managed: Copy {
    /// The raw reference inside the wrapper.
    spec fn raw(self) -> RawReference;

    /// The wrapper around `raw`.
    spec fn of_raw(raw: RawReference) -> Self;

    /// Wrapping and unwrapping undo each other, in both orders.
    proof fn round_trip(raw: RawReference, value: Self)
        ensures
            Self::of_raw(raw).raw() == raw,
            Self::of_raw(value.raw()) == value,
    ;

    fn to_raw(self) -> (raw: RawReference)
        ensures
            raw == self.raw(),
    ;

    fn from_raw(raw: RawReference) -> (value: Self)
        ensures
            value == Self::of_raw(raw),
    ;
}

/// A typed reference into the host heap that is good while the scope that
/// minted it is open. `scope` is that scope's number.
pub struct Handle<T> {
    pub(crate) value: T,
    pub(crate) scope: u64,
}

impl<T: Copy> Clone for Handle<T> {
    fn clone(&self) -> (copy: Self)
        ensures
            copy == *self,
    {
        *self
    }
}

impl<T: Copy> Copy for Handle<T> {

}

impl<T> Handle<T> {
    /// The typed wrapper inside the handle.
    pub open(crate) spec fn inner(self) -> T {
        self.value
    }

    /// The number of the scope that minted the handle.
    pub open(crate) spec fn home(self) -> u64 {
        self.scope
    }

    /// The handle on `value` that the scope with number `scope` mints.
    pub open(crate) spec fn minted(value: T, scope: u64) -> Handle<T> {
        Handle { value, scope }
    }

    /// The number of the scope that minted the handle.
    pub fn scope_id(self) -> (id: u64)
        ensures
            id == self.home(),
    {
        self.scope
    }
}

impl<T: Managed> Handle<T> {
    /// The raw reference that the handle stands for.
    pub open spec fn raw(self) -> RawReference {
        self.inner().raw()
    }

    /// The raw reference that the handle stands for. Whether it may still be
    /// used is for `Scope::resolve` to say.
    pub fn to_raw(self) -> (raw: RawReference)
        ensures
            raw == self.raw(),
    {
        self.value.to_raw()
    }

    /// The typed wrapper inside the handle.
    pub fn value(self) -> (value: T)
        ensures
            value == self.inner(),
    {
        self.value
    }
}

} // verus!
