use vstd::prelude::*;
use crate::host::{Host, HostValue};
use crate::js::{build, Object, Value, ValueInternal};
use crate::mem::{Handle, Managed};
use crate::raw::RawReference;
use crate::scope::Scope;
use crate::vm::{after_throw, Throw, VmResult};

verus! {

/// The five error classes that native code can raise in the host.
#[derive(Clone, Copy, PartialEq, Eq, Structural, Debug)]
pub enum Kind {
    Error,
    TypeError,
    ReferenceError,
    RangeError,
    SyntaxError,
}

/// Throws the value behind `v`: it becomes the exception that waits for the
/// host, unless one is waiting already, and the failure marker is returned.
pub fn throw<T: Value, U>(scope: &mut Scope, v: Handle<T>) -> (thrown: VmResult<U>)
    requires
        old(scope).is_live(v),
    ensures
        thrown == Err::<U, Throw>(Throw),
        final(scope).open_ids() == old(scope).open_ids(),
        final(scope).issued() == old(scope).issued(),
        final(scope).host().values() == old(scope).host().values(),
        final(scope).host().properties() == old(scope).host().properties(),
        final(scope).host().pending() == after_throw(old(scope).host().pending(), v.raw()),
{
    scope.host.raise(v.value.to_raw());
    Err(Throw)
}

/// An error object of the host.
#[derive(Clone, Copy, PartialEq, Eq, Structural, Debug)]
pub struct JsError(pub RawReference);

impl Managed for JsError {
    open spec fn raw(self) -> RawReference {
        self.0
    }

    open spec fn of_raw(raw: RawReference) -> Self {
        JsError(raw)
    }

    proof fn round_trip(raw: RawReference, value: Self) {
    }

    fn to_raw(self) -> (raw: RawReference) {
        self.0
    }

    fn from_raw(raw: RawReference) -> (value: Self) {
        JsError(raw)
    }
}

impl ValueInternal for JsError {
    open spec fn type_matches(host: &Host, other: RawReference) -> bool {
        host.is_error_spec(other)
    }

    fn is_typeof(host: &Host, other: RawReference) -> (b: bool) {
        host.is_error(other)
    }
}

impl Value for JsError {

}

impl Object for JsError {

}

/// The message that the host gets for `msg`: `msg` itself, or the empty
/// message where `msg` holds a NUL character.
pub open spec fn sanitized(msg: Seq<char>) -> Seq<char> {
    if msg.contains('\0') {
        Seq::empty()
    } else {
        msg
    }
}

/// Makes `msg` fit for the host; this cannot fail.
pub fn message(msg: &str) -> (text: String)
    ensures
        text@ == sanitized(msg@),
{
    broadcast use vstd::string::group_string_axioms;

    let mut clean = true;
    for c in it: msg.chars()
        invariant
            it.seq() == msg@,
            clean <==> forall|j: int| 0 <= j < it.index() ==> msg@[j] != '\0',
    {
        if c == '\0' {
            clean = false;
        }
    }
    if clean {
        msg.to_owned()
    } else {
        String::new()
    }
}

impl JsError {
    /// Creates an error object of class `kind` with the message `msg` and
    /// returns a handle on it that lives in the active scope. While an
    /// exception is waiting, the heap is left alone and the failure marker is
    /// returned.
    pub fn new(scope: &mut Scope, kind: Kind, msg: &str) -> (made: VmResult<Handle<JsError>>)
        requires
            old(scope).wf(),
        ensures
            final(scope).wf(),
            final(scope).open_ids() == old(scope).open_ids(),
            final(scope).issued() == old(scope).issued(),
            old(scope).host().is_pending() ==> made == Err::<Handle<JsError>, Throw>(Throw)
                && final(scope).host().same_as(&old(scope).host()),
            !old(scope).host().is_pending() ==> {
                &&& made is Ok
                &&& made->Ok_0.home() == old(scope).active()
                &&& made->Ok_0.raw().slot == old(scope).host().values().len() + 1
                &&& final(scope).host().gained_error(&old(scope).host(), kind, msg@)
                &&& !final(scope).host().is_pending()
            },
    {
        if scope.host.pending.is_some() {
            return Err(Throw);
        }
        let text = scope.host.allocate(HostValue::Text(msg.to_owned()));
        let construct = |host: &mut Host, out: &mut RawReference| -> (ok: bool)
            ensures
                ok,
                final(host).grown_by(old(host), (HostValue::Error { kind, message: text })),
                final(out).slot == old(host).values().len(),
            {
                *out = host.allocate(HostValue::Error { kind, message: text });
                true
            };
        build(scope, construct)
    }

    /// Throws a new error of class `kind` with the message `msg`, made fit for
    /// the host first. The error is created on the host's side, so this works
    /// without a handle and cannot fail. While an exception is already waiting,
    /// that one stays and nothing else changes.
    pub fn throw<T>(scope: &mut Scope, kind: Kind, msg: &str) -> (thrown: VmResult<T>)
        ensures
            thrown == Err::<T, Throw>(Throw),
            final(scope).open_ids() == old(scope).open_ids(),
            final(scope).issued() == old(scope).issued(),
            old(scope).host().is_pending() ==> final(scope).host().same_as(&old(scope).host()),
            !old(scope).host().is_pending() ==> final(scope).host().threw_from_text(
                &old(scope).host(),
                kind,
                sanitized(msg@),
            ),
    {
        let text = message(msg);
        scope.host.throw_from_text(kind, text);
        Err(Throw)
    }
}

} // verus!
