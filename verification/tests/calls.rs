use neon::call::{CallFrame, Completion};
use neon::error::{JsError, Kind};
use neon::host::Host;
use neon::js::{JsInteger, JsObject, JsValue};
use neon::mem::Handle;
use neon::raw::RawReference;
use neon::scope::Scope;
use neon::vm::{Throw, VmResult};

fn frame_of(arguments: Vec<RawReference>, construct: bool) -> CallFrame {
    CallFrame::new(
        arguments,
        RawReference { slot: 100 },
        RawReference { slot: 101 },
        RawReference { slot: 102 },
        construct,
    )
}

#[test]
fn arguments_are_found_inside_the_bounds_only() {
    let scope = Scope::new(Host::new());
    let frame = frame_of(vec![RawReference { slot: 5 }, RawReference { slot: 6 }], false);
    assert_eq!(frame.argument_count(), 2);
    assert_eq!(frame.argument(&scope, 0).unwrap().value(), JsValue(RawReference { slot: 5 }));
    assert_eq!(frame.argument(&scope, 1).unwrap().value(), JsValue(RawReference { slot: 6 }));
    assert!(frame.argument(&scope, 2).is_none());
    assert!(frame.argument(&scope, 3).is_none());
    assert!(frame.argument(&scope, -1).is_none());
    assert!(frame.argument(&scope, i32::MAX).is_none());
    assert!(frame.argument(&scope, i32::MIN).is_none());
    assert_eq!(scope.host_ref().pending_exception(), None);
}

#[test]
fn a_call_without_arguments_has_none() {
    let scope = Scope::new(Host::new());
    let frame = frame_of(Vec::new(), false);
    assert_eq!(frame.argument_count(), 0);
    assert!(frame.argument(&scope, 0).is_none());
    assert!(frame.argument(&scope, -1).is_none());
}

#[test]
fn the_other_fields_of_a_call_are_always_there() {
    let scope = Scope::new(Host::new());
    let frame = frame_of(Vec::new(), true);
    assert_eq!(frame.this_value(&scope).to_raw(), RawReference { slot: 100 });
    assert_eq!(frame.callee(&scope).to_raw(), RawReference { slot: 101 });
    assert_eq!(frame.associated_data(&scope).to_raw(), RawReference { slot: 102 });
    assert!(frame.is_construct_call());
    assert!(!frame_of(Vec::new(), false).is_construct_call());
    assert_eq!(frame.return_value(), None);
}

#[test]
fn handles_from_a_call_live_in_the_active_scope() {
    let mut scope = Scope::new(Host::new());
    let frame = frame_of(vec![RawReference { slot: 5 }], false);
    let escaped = scope.nested(|child: &mut Scope| {
        let argument = frame.argument(child, 0).unwrap();
        assert!(child.check_live(argument));
        argument
    });
    assert_eq!(escaped.scope_id(), 1);
    assert!(!scope.check_live(escaped));
}

fn make_object_with_number(
    scope: &mut Scope,
    frame: &mut CallFrame,
) -> VmResult<Handle<JsObject>> {
    scope.nested(|child: &mut Scope| {
        let object = JsObject::new(child)?;
        let number = JsInteger::new(child, 9000)?;
        let done = object.set(child, "number", number)?;
        assert!(done);
        frame.set_return(child, object);
        Ok(object)
    })
}

#[test]
fn a_successful_call_returns_the_object_it_made() {
    let mut host = Host::new();
    let mut first = RawReference { slot: 0 };
    let mut second = RawReference { slot: 0 };
    assert!(host.new_integer(&mut first, 1));
    assert!(host.new_integer(&mut second, 2));
    let mut scope = Scope::new(host);
    let mut frame = frame_of(vec![first, second], true);
    assert_eq!(frame.argument_count(), 2);
    assert!(frame.is_construct_call());

    let result = make_object_with_number(&mut scope, &mut frame);

    let object = result.ok().unwrap();
    assert_eq!(scope.host_ref().pending_exception(), None);
    assert_eq!(object.to_raw(), RawReference { slot: 2 });
    assert_eq!(frame.return_value(), Some(object.to_raw()));
    assert!(scope.host_ref().is_object(object.to_raw()));
    let number = scope.host_ref().get_property(object.to_raw(), "number").unwrap();
    assert_eq!(scope.host_ref().integer_value(number), Some(9000));
    assert_eq!(scope.host_ref().get_property(object.to_raw(), "string"), None);
}

#[test]
fn complete_sets_the_return_value_of_a_success() {
    let mut scope = Scope::new(Host::new());
    let object = JsObject::new(&mut scope).ok().unwrap();
    let mut frame = frame_of(Vec::new(), false);
    let seen = frame.complete(&scope, Ok(object));
    assert_eq!(seen, Completion::Returned(Some(object.to_raw())));
    assert_eq!(frame.return_value(), Some(object.to_raw()));
    assert_eq!(frame.argument_count(), 0);
}

#[test]
fn complete_sets_nothing_for_a_failure() {
    let scope = Scope::new(Host::new());
    let mut frame = frame_of(Vec::new(), false);
    let failed: VmResult<Handle<JsObject>> = Err(Throw);
    let seen = frame.complete(&scope, failed);
    assert_eq!(seen, Completion::Returned(None));
    assert_eq!(frame.return_value(), None);
}

#[test]
fn the_latest_assignment_to_a_property_counts() {
    let mut scope = Scope::new(Host::new());
    let object = JsObject::new(&mut scope).ok().unwrap();
    let other = JsObject::new(&mut scope).ok().unwrap();
    let one = JsInteger::new(&mut scope, 1).ok().unwrap();
    let two = JsInteger::new(&mut scope, 2).ok().unwrap();
    assert_eq!(object.set(&mut scope, "n", one), Ok(true));
    assert_eq!(other.set(&mut scope, "n", one), Ok(true));
    assert_eq!(object.set(&mut scope, "n", two), Ok(true));
    assert_eq!(object.set(&mut scope, "m", one), Ok(true));
    let host = scope.host_ref();
    assert_eq!(host.get_property(object.to_raw(), "n"), Some(two.to_raw()));
    assert_eq!(host.get_property(other.to_raw(), "n"), Some(one.to_raw()));
    assert_eq!(host.get_property(object.to_raw(), "m"), Some(one.to_raw()));
    assert_eq!(host.get_property(other.to_raw(), "m"), None);
}

#[test]
fn a_property_of_a_value_that_is_no_object_is_not_set() {
    let mut scope = Scope::new(Host::new());
    let number = JsInteger::new(&mut scope, 1).ok().unwrap();
    let forged: Handle<JsObject> = scope.mint(number.to_raw());
    assert_eq!(forged.set(&mut scope, "n", number), Ok(false));
    assert_eq!(scope.host_ref().get_property(number.to_raw(), "n"), None);
}

#[test]
fn an_error_object_takes_properties() {
    let mut scope = Scope::new(Host::new());
    let error = JsError::new(&mut scope, Kind::Error, "e").ok().unwrap();
    let code = JsInteger::new(&mut scope, 404).ok().unwrap();
    assert_eq!(error.set(&mut scope, "code", code), Ok(true));
    let found = scope.host_ref().get_property(error.to_raw(), "code").unwrap();
    assert_eq!(scope.host_ref().integer_value(found), Some(404));
}

#[test]
fn no_property_is_set_while_an_exception_waits() {
    let mut scope = Scope::new(Host::new());
    let object = JsObject::new(&mut scope).ok().unwrap();
    let number = JsInteger::new(&mut scope, 1).ok().unwrap();
    let _: VmResult<()> = JsError::throw(&mut scope, Kind::Error, "stop");
    assert_eq!(object.set(&mut scope, "n", number), Err(Throw));
    assert_eq!(scope.host_ref().get_property(object.to_raw(), "n"), None);
}
