use vstd::prelude::*;
use crate::host::{Host, HostValue};
use crate::mem::{Handle, Managed};
use crate::raw::RawReference;
use crate::scope::Scope;
use crate::vm::{Throw, VmResult};

verus! {

/// The runtime type test of one kind of value.
pub trait ValueInternal: Managed {
    /// Whether the value that `other` names in `host` is of this kind.
    spec fn type_matches(host: &Host, other: RawReference) -> bool;

    fn is_typeof(host: &Host, other: RawReference) -> (b: bool)
        ensures
            b == Self::type_matches(host, other),
    ;
}

/// A kind of value of the host.
pub trait Value: ValueInternal {

}

/// A kind of value that has properties.
pub trait Object: Value {

}

/// Any value of the host heap: the kind that every value belongs to.
#[derive(Clone, Copy, PartialEq, Eq, Structural, Debug)]
pub struct JsValue(pub RawReference);

impl Managed for JsValue {
    open spec fn raw(self) -> RawReference {
        self.0
    }

    open spec fn of_raw(raw: RawReference) -> Self {
        JsValue(raw)
    }

    proof fn round_trip(raw: RawReference, value: Self) {
    }

    fn to_raw(self) -> (raw: RawReference) {
        self.0
    }

    fn from_raw(raw: RawReference) -> (value: Self) {
        JsValue(raw)
    }
}

impl ValueInternal for JsValue {
    open spec fn type_matches(host: &Host, other: RawReference) -> bool {
        true
    }

    fn is_typeof(host: &Host, other: RawReference) -> (b: bool) {
        true
    }
}

impl Value for JsValue {

}

/// An object of the host, of whatever class.
#[derive(Clone, Copy, PartialEq, Eq, Structural, Debug)]
pub struct JsObject(pub RawReference);

impl Managed for JsObject {
    open spec fn raw(self) -> RawReference {
        self.0
    }

    open spec fn of_raw(raw: RawReference) -> Self {
        JsObject(raw)
    }

    proof fn round_trip(raw: RawReference, value: Self) {
    }

    fn to_raw(self) -> (raw: RawReference) {
        self.0
    }

    fn from_raw(raw: RawReference) -> (value: Self) {
        JsObject(raw)
    }
}

impl ValueInternal for JsObject {
    open spec fn type_matches(host: &Host, other: RawReference) -> bool {
        host.is_object_spec(other)
    }

    fn is_typeof(host: &Host, other: RawReference) -> (b: bool) {
        host.is_object(other)
    }
}

impl Value for JsObject {

}

impl Object for JsObject {

}

impl JsObject {
    /// Creates an empty object and returns a handle on it that lives in the
    /// active scope; the failure marker while an exception is waiting.
    pub fn new(scope: &mut Scope) -> (made: VmResult<Handle<JsObject>>)
        requires
            old(scope).wf(),
        ensures
            final(scope).wf(),
            final(scope).open_ids() == old(scope).open_ids(),
            final(scope).issued() == old(scope).issued(),
            old(scope).host().is_pending() ==> made == Err::<Handle<JsObject>, Throw>(Throw)
                && final(scope).host() == old(scope).host(),
            !old(scope).host().is_pending() ==> {
                &&& made is Ok
                &&& made->Ok_0.home() == old(scope).active()
                &&& made->Ok_0.raw().slot == old(scope).host().values().len()
                &&& final(scope).host().grown_by(&old(scope).host(), HostValue::Object)
            },
    {
        build(scope, Host::new_object)
    }
}

impl<T: Object> Handle<T> {
    /// Sets the property `name` of the object to the value behind `value`. The
    /// result says whether the host took the assignment: it does where the
    /// handle names an object. While an exception is waiting, nothing is done
    /// and the failure marker is returned.
    pub fn set<V: Value>(self, scope: &mut Scope, name: &str, value: Handle<V>) -> (done:
        VmResult<bool>)
        requires
            old(scope).is_live(self),
            old(scope).is_live(value),
        ensures
            final(scope).open_ids() == old(scope).open_ids(),
            final(scope).issued() == old(scope).issued(),
            old(scope).host().is_pending() ==> done == Err::<bool, Throw>(Throw),
            !old(scope).host().is_pending() ==> done == Ok::<bool, Throw>(
                old(scope).host().is_object_spec(self.raw()),
            ),
            done == Ok::<bool, Throw>(true) ==> final(scope).host().assigned(
                &old(scope).host(),
                self.raw(),
                name@,
                value.raw(),
            ) && final(scope).host().property(self.raw(), name@) == Some(value.raw()),
            done != Ok::<bool, Throw>(true) ==> final(scope).host().same_as(&old(scope).host()),
    {
        if scope.host.pending.is_some() {
            return Err(Throw);
        }
        Ok(scope.host.set_property(self.value.to_raw(), name, value.value.to_raw()))
    }
}

/// An integer of the host.
#[derive(Clone, Copy, PartialEq, Eq, Structural, Debug)]
pub struct JsInteger(pub RawReference);

impl Managed for JsInteger {
    open spec fn raw(self) -> RawReference {
        self.0
    }

    open spec fn of_raw(raw: RawReference) -> Self {
        JsInteger(raw)
    }

    proof fn round_trip(raw: RawReference, value: Self) {
    }

    fn to_raw(self) -> (raw: RawReference) {
        self.0
    }

    fn from_raw(raw: RawReference) -> (value: Self) {
        JsInteger(raw)
    }
}

impl ValueInternal for JsInteger {
    open spec fn type_matches(host: &Host, other: RawReference) -> bool {
        host.is_integer_spec(other)
    }

    fn is_typeof(host: &Host, other: RawReference) -> (b: bool) {
        host.integer_value(other).is_some()
    }
}

impl Value for JsInteger {

}

impl JsInteger {
    /// Creates the integer `value` and returns a handle on it that lives in
    /// the active scope; the failure marker while an exception is waiting.
    pub fn new(scope: &mut Scope, value: i32) -> (made: VmResult<Handle<JsInteger>>)
        requires
            old(scope).wf(),
        ensures
            final(scope).wf(),
            final(scope).open_ids() == old(scope).open_ids(),
            final(scope).issued() == old(scope).issued(),
            old(scope).host().is_pending() ==> made == Err::<Handle<JsInteger>, Throw>(Throw)
                && final(scope).host() == old(scope).host(),
            !old(scope).host().is_pending() ==> {
                &&& made is Ok
                &&& made->Ok_0.home() == old(scope).active()
                &&& made->Ok_0.raw().slot == old(scope).host().values().len()
                &&& final(scope).host().grown_by(&old(scope).host(), HostValue::Integer(value))
            },
    {
        let construct = |host: &mut Host, out: &mut RawReference| -> (populated: bool)
            ensures
                populated,
                final(host).grown_by(old(host), HostValue::Integer(value)),
                final(out).slot == old(host).values().len(),
            { host.new_integer(out, value) };
        build(scope, construct)
    }
}

impl<T: Value> Handle<T> {
    /// The same handle seen as any value; this always succeeds.
    pub fn upcast(self) -> (any: Handle<JsValue>)
        ensures
            any.raw() == self.raw(),
            any.home() == self.home(),
    {
        Handle { value: JsValue(self.value.to_raw()), scope: self.scope }
    }

    /// The same handle seen as a `B`, where the host says that the value is
    /// one; nothing otherwise. No exception is raised either way.
    pub fn downcast<B: ValueInternal>(self, scope: &Scope) -> (narrow: Option<Handle<B>>)
        ensures
            narrow is Some <==> B::type_matches(&scope.host(), self.raw()),
            narrow is Some ==> narrow->Some_0 == Handle::minted(B::of_raw(self.raw()), self.home())
                && narrow->Some_0.raw() == self.raw(),
    {
        let raw = self.value.to_raw();
        proof {
            B::round_trip(raw, B::of_raw(raw));
        }
        if B::is_typeof(scope.host_ref(), raw) {
            Some(Handle { value: B::from_raw(raw), scope: self.scope })
        } else {
            None
        }
    }
}

/// Runs a host operation that writes its result through an out-slot and says
/// by its return value whether it did. The slot is read, and wrapped into a
/// handle of the active scope, only if `op` returned true; otherwise the
/// failure marker is returned. While an exception is waiting, `op` is not run
/// at all and nothing changes.
pub fn build<T: Managed, F: FnOnce(&mut Host, &mut RawReference) -> bool>(
    scope: &mut Scope,
    op: F,
) -> (built: VmResult<Handle<T>>)
    requires
        old(scope).wf(),
        forall|h: &mut Host, out: &mut RawReference|
            *h == old(scope).host() && !h.is_pending() ==> op.requires((h, out)),
    ensures
        final(scope).wf(),
        final(scope).open_ids() == old(scope).open_ids(),
        final(scope).issued() == old(scope).issued(),
        old(scope).host().is_pending() ==> built == Err::<Handle<T>, Throw>(Throw)
            && final(scope).host() == old(scope).host(),
        !old(scope).host().is_pending() ==> exists|
            h: &mut Host,
            out: &mut RawReference,
            populated: bool,
        |
            {
                &&& *h == old(scope).host()
                &&& op.ensures((h, out), populated)
                &&& final(scope).host() == *final(h)
                &&& built == if populated {
                    Ok::<Handle<T>, Throw>(
                        Handle::minted(T::of_raw(*final(out)), old(scope).active()),
                    )
                } else {
                    Err::<Handle<T>, Throw>(Throw)
                }
            },
{
    if scope.host.pending.is_some() {
        return Err(Throw);
    }
    let mut slot = RawReference { slot: 0 };
    let populated = op(&mut scope.host, &mut slot);
    if populated {
        Ok(Handle { value: T::from_raw(slot), scope: scope.open[scope.open.len() - 1] })
    } else {
        Err(Throw)
    }
}

} // verus!
