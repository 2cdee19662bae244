use neon::call::{CallFrame, Completion};
use neon::error::{message, throw, JsError, Kind};
use neon::host::Host;
use neon::js::{JsObject, JsValue};
use neon::mem::Handle;
use neon::raw::RawReference;
use neon::scope::Scope;
use neon::vm::{chain, Throw, VmResult};

fn empty_frame() -> CallFrame {
    let nothing = RawReference { slot: 0 };
    CallFrame::new(Vec::new(), nothing, nothing, nothing, false)
}

fn thrown_error(scope: &Scope) -> (Kind, String) {
    let raw = scope.host_ref().pending_exception().unwrap();
    let kind = scope.host_ref().error_kind(raw).unwrap();
    let text = scope.host_ref().error_message(raw).unwrap();
    (kind, text)
}

#[test]
fn throw_new_sets_the_pending_type_error() {
    let mut scope = Scope::new(Host::new());
    assert_eq!(scope.host_ref().pending_exception(), None);
    let result: VmResult<Handle<JsValue>> =
        JsError::throw(&mut scope, Kind::TypeError, "bad argument");
    assert_eq!(result.err(), Some(Throw));
    let (kind, text) = thrown_error(&scope);
    assert_eq!(kind, Kind::TypeError);
    assert_eq!(text, "bad argument");

    let mut frame = empty_frame();
    let seen = frame.complete(&scope, result);
    assert_eq!(frame.return_value(), None);
    assert_eq!(seen, Completion::Threw(RawReference { slot: 1 }));
}

#[test]
fn message_with_a_nul_becomes_empty() {
    let mut scope = Scope::new(Host::new());
    let result: VmResult<bool> = JsError::throw(&mut scope, Kind::Error, "bad\0argument");
    assert_eq!(result, Err(Throw));
    let (kind, text) = thrown_error(&scope);
    assert_eq!(kind, Kind::Error);
    assert_eq!(text, "");
}

#[test]
fn message_keeps_clean_text() {
    assert_eq!(message("bad argument"), "bad argument");
    assert_eq!(message(""), "");
    assert_eq!(message("caf\u{e9} \u{1f600}"), "caf\u{e9} \u{1f600}");
}

#[test]
fn message_drops_text_with_a_nul() {
    assert_eq!(message("\0"), "");
    assert_eq!(message("abc\0"), "");
    assert_eq!(message("\0abc"), "");
}

#[test]
fn every_kind_is_thrown_as_itself() {
    let kinds = [
        Kind::Error,
        Kind::TypeError,
        Kind::ReferenceError,
        Kind::RangeError,
        Kind::SyntaxError,
    ];
    for kind in kinds {
        let mut scope = Scope::new(Host::new());
        let result: VmResult<()> = JsError::throw(&mut scope, kind, "m");
        assert_eq!(result, Err(Throw));
        assert_eq!(thrown_error(&scope), (kind, String::from("m")));
    }
}

#[test]
fn new_error_is_an_error_object_and_is_not_thrown() {
    let mut scope = Scope::new(Host::new());
    let handle = JsError::new(&mut scope, Kind::RangeError, "out of range").ok().unwrap();
    assert_eq!(scope.host_ref().pending_exception(), None);
    assert_eq!(handle.to_raw(), RawReference { slot: 1 });
    assert_eq!(handle.scope_id(), 0);
    assert!(scope.host_ref().is_error(handle.to_raw()));
    assert_eq!(scope.host_ref().error_kind(handle.to_raw()), Some(Kind::RangeError));
    assert_eq!(
        scope.host_ref().error_message(handle.to_raw()),
        Some(String::from("out of range"))
    );
}

#[test]
fn new_error_keeps_a_nul_in_its_message() {
    let mut scope = Scope::new(Host::new());
    let handle = JsError::new(&mut scope, Kind::Error, "a\0b").ok().unwrap();
    assert_eq!(
        scope.host_ref().error_message(handle.to_raw()),
        Some(String::from("a\0b"))
    );
}

#[test]
fn throwing_a_value_makes_it_the_pending_exception() {
    let mut scope = Scope::new(Host::new());
    let handle = JsError::new(&mut scope, Kind::SyntaxError, "oops").ok().unwrap();
    let result: VmResult<Handle<JsObject>> = throw(&mut scope, handle);
    assert!(matches!(result, Err(Throw)));
    assert_eq!(scope.host_ref().pending_exception(), Some(handle.to_raw()));
}

#[test]
fn the_first_exception_stays_until_the_host_takes_it() {
    let mut scope = Scope::new(Host::new());
    let first = JsError::new(&mut scope, Kind::Error, "first").ok().unwrap();
    let second = JsError::new(&mut scope, Kind::Error, "second").ok().unwrap();
    let _: VmResult<()> = throw(&mut scope, first);
    let again: VmResult<()> = throw(&mut scope, second);
    assert_eq!(again, Err(Throw));
    let third: VmResult<()> = JsError::throw(&mut scope, Kind::TypeError, "third");
    assert_eq!(third, Err(Throw));
    assert_eq!(scope.host_ref().pending_exception(), Some(first.to_raw()));

    // no heap work while an exception waits
    assert!(JsError::new(&mut scope, Kind::Error, "late").is_err());
    assert!(JsObject::new(&mut scope).is_err());
    assert_eq!(scope.host_ref().pending_exception(), Some(first.to_raw()));

    let mut host = scope.into_host();
    assert_eq!(host.take_exception(), Some(first.to_raw()));
    assert_eq!(host.pending_exception(), None);
    assert_eq!(host.take_exception(), None);
}

fn innermost(scope: &mut Scope) -> VmResult<Handle<JsObject>> {
    JsError::throw(scope, Kind::ReferenceError, "x is not defined")
}

fn middle(scope: &mut Scope) -> VmResult<bool> {
    let object = innermost(scope)?;
    let value = JsObject::new(scope)?;
    object.set(scope, "never", value)
}

fn outermost(scope: &mut Scope) -> VmResult<Handle<JsObject>> {
    let inner = middle(scope);
    chain(scope, inner, |s: &mut Scope, _done: bool| JsObject::new(s))
}

#[test]
fn a_throw_reaches_every_enclosing_call() {
    let mut scope = Scope::new(Host::new());
    let result = outermost(&mut scope);
    assert!(matches!(result, Err(Throw)));
    let (kind, text) = thrown_error(&scope);
    assert_eq!(kind, Kind::ReferenceError);
    assert_eq!(text, "x is not defined");
    // the message and the error, and nothing that the enclosing calls made
    let pending = scope.host_ref().pending_exception();
    assert_eq!(pending, Some(RawReference { slot: 1 }));
    assert!(!scope.host_ref().is_error(RawReference { slot: 2 }));
    assert!(!scope.host_ref().is_object(RawReference { slot: 2 }));
}

#[test]
fn chain_runs_the_next_call_after_a_success() {
    let mut scope = Scope::new(Host::new());
    let result = chain(&mut scope, Ok(7), |s: &mut Scope, n: i32| {
        neon::js::JsInteger::new(s, n + 1)
    });
    let handle = result.ok().unwrap();
    assert_eq!(scope.host_ref().integer_value(handle.to_raw()), Some(8));
}
