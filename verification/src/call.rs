use vstd::prelude::*;
use crate::host::Host;
use crate::js::JsValue;
use crate::mem::{Handle, Managed};
use crate::raw::RawReference;
use crate::scope::Scope;
use crate::vm::VmResult;

verus! {

/// What the host sees when a native call hands control back.
#[derive(Clone, Copy, PartialEq, Eq, Structural, Debug)]
pub enum Completion {
    /// The call returned; the value is the one that was set, if any.
    Returned(Option<RawReference>),
    /// The call ended with this exception waiting.
    Threw(RawReference),
}

/// The record of one invocation of a native function by the host.
pub struct CallFrame {
    arguments: Vec<RawReference>,
    this: RawReference,
    callee: RawReference,
    data: RawReference,
    construct: bool,
    returned: Option<RawReference>,
}

impl CallFrame {
    /// The arguments, in order.
    pub closed spec fn arguments(&self) -> Seq<RawReference> {
        self.arguments@
    }

    /// The receiver of the call.
    pub closed spec fn receiver(&self) -> RawReference {
        self.this
    }

    /// The function that was called.
    pub closed spec fn function(&self) -> RawReference {
        self.callee
    }

    /// The data that the host keeps with the function.
    pub closed spec fn data(&self) -> RawReference {
        self.data
    }

    /// Whether the function was called as a constructor.
    pub closed spec fn construct(&self) -> bool {
        self.construct
    }

    /// The return value that was set, if any.
    pub closed spec fn returned(&self) -> Option<RawReference> {
        self.returned
    }

    /// The number of arguments can be reported in an `i32`.
    pub open spec fn wf(&self) -> bool {
        self.arguments().len() <= i32::MAX
    }

    /// The same invocation as `before`, whatever was set as its return value.
    pub open spec fn same_invocation(&self, before: &CallFrame) -> bool {
        &&& self.arguments() == before.arguments()
        &&& self.receiver() == before.receiver()
        &&& self.function() == before.function()
        &&& self.data() == before.data()
        &&& self.construct() == before.construct()
    }

    /// The record of a call with these arguments, with no return value set.
    pub fn new(
        arguments: Vec<RawReference>,
        this: RawReference,
        callee: RawReference,
        data: RawReference,
        construct: bool,
    ) -> (frame: CallFrame)
        requires
            arguments@.len() <= i32::MAX,
        ensures
            frame.wf(),
            frame.arguments() == arguments@,
            frame.receiver() == this,
            frame.function() == callee,
            frame.data() == data,
            frame.construct() == construct,
            frame.returned() is None,
    {
        CallFrame { arguments, this, callee, data, construct, returned: None }
    }

    /// How many arguments the call has.
    pub fn argument_count(&self) -> (n: i32)
        requires
            self.wf(),
        ensures
            n == self.arguments().len(),
    {
        self.arguments.len() as i32
    }

    /// The argument at position `i`, as a handle of the active scope; nothing
    /// where `i` is negative or not below the number of arguments.
    pub fn argument(&self, scope: &Scope, i: i32) -> (arg: Option<Handle<JsValue>>)
        requires
            self.wf(),
            scope.wf(),
        ensures
            arg == (if 0 <= i < self.arguments().len() {
                Some(Handle::minted(JsValue(self.arguments()[i as int]), scope.active()))
            } else {
                None
            }),
    {
        if i < 0 || i >= self.argument_count() {
            None
        } else {
            Some(scope.mint(self.arguments[i as usize]))
        }
    }

    /// The receiver of the call.
    pub fn this_value(&self, scope: &Scope) -> (this: Handle<JsValue>)
        requires
            scope.wf(),
        ensures
            this == Handle::minted(JsValue(self.receiver()), scope.active()),
    {
        scope.mint(self.this)
    }

    /// The function that was called.
    pub fn callee(&self, scope: &Scope) -> (callee: Handle<JsValue>)
        requires
            scope.wf(),
        ensures
            callee == Handle::minted(JsValue(self.function()), scope.active()),
    {
        scope.mint(self.callee)
    }

    /// The data that the host keeps with the function.
    pub fn associated_data(&self, scope: &Scope) -> (data: Handle<JsValue>)
        requires
            scope.wf(),
        ensures
            data == Handle::minted(JsValue(self.data()), scope.active()),
    {
        scope.mint(self.data)
    }

    /// Whether the function was called as a constructor.
    pub fn is_construct_call(&self) -> (construct: bool)
        ensures
            construct == self.construct(),
    {
        self.construct
    }

    /// The return value that was set, if any.
    pub fn return_value(&self) -> (value: Option<RawReference>)
        ensures
            value == self.returned(),
    {
        self.returned
    }

    /// Sets the value that the call returns. This is done once per call, with
    /// a handle that is still live.
    pub fn set_return<T: Managed>(&mut self, scope: &Scope, value: Handle<T>)
        requires
            old(self).returned() is None,
            scope.is_live(value),
        ensures
            final(self).returned() == Some(value.raw()),
            final(self).same_invocation(old(self)),
    {
        self.returned = Some(value.value.to_raw());
    }

    /// The boundary at which control goes back to the host. A success sets the
    /// return value; a failure sets none. Whatever the result says, an
    /// exception that waits in the host is what the host sees.
    pub fn complete<T: Managed>(&mut self, scope: &Scope, result: VmResult<Handle<T>>) -> (seen:
        Completion)
        requires
            old(self).returned() is None,
            result is Ok ==> scope.is_live(result->Ok_0),
        ensures
            final(self).same_invocation(old(self)),
            final(self).returned() == (match result {
                Ok(handle) => Some(handle.raw()),
                Err(_) => None,
            }),
            seen == completion_of(&scope.host(), final(self).returned()),
    {
        match result {
            Ok(handle) => {
                self.set_return(scope, handle);
            },
            Err(_) => {},
        }
        match scope.host_ref().pending_exception() {
            Some(exception) => Completion::Threw(exception),
            None => Completion::Returned(self.returned),
        }
    }
}

/// What the host sees of a call that set `returned`, with the host in the state
/// `host` at the end of it.
pub open spec fn completion_of(host: &Host, returned: Option<RawReference>) -> Completion {
    match host.pending() {
        Some(exception) => Completion::Threw(exception),
        None => Completion::Returned(returned),
    }
}

} // verus!
