use vstd::prelude::*;
use crate::error::Kind;
use crate::raw::RawReference;
use crate::vm::after_throw;

verus! {

/// One value in the host heap, as far as the binding layer can tell values apart.
pub enum HostValue {
    Undefined,
    Integer(i32),
    Text(String),
    Object,
    Error { kind: Kind, message: RawReference },
}

/// One assignment to a property of an object. Of several to the same property
/// the latest counts.
pub struct Property {
    pub object: RawReference,
    pub name: String,
    pub value: RawReference,
}

/// The value that the assignments `properties` leave in the property `name` of
/// `object`, if any.
pub open spec fn lookup(properties: Seq<Property>, object: RawReference, name: Seq<char>) -> Option<
    RawReference,
>
    decreases properties.len(),
{
    if properties.len() == 0 {
        None
    } else if properties.last().object == object && properties.last().name@ == name {
        Some(properties.last().value)
    } else {
        lookup(properties.drop_last(), object, name)
    }
}

/// The host runtime as native code sees it: a heap of values that only grows
/// while native code runs, and the exception that is waiting for the host, if any.
pub struct Host {
    pub(crate) values: Vec<HostValue>,
    pub(crate) properties: Vec<Property>,
    pub(crate) pending: Option<RawReference>,
}

impl Host {
    /// The values of the heap, by slot.
    pub open(crate) spec fn values(&self) -> Seq<HostValue> {
        self.values@
    }

    /// Every assignment to a property that was made, oldest first.
    pub open(crate) spec fn properties(&self) -> Seq<Property> {
        self.properties@
    }

    /// The exception that is waiting for the host, if any.
    pub open(crate) spec fn pending(&self) -> Option<RawReference> {
        self.pending
    }

    /// Whether `raw` names a value of the heap as it stands.
    pub open spec fn holds(&self, raw: RawReference) -> bool {
        raw.slot < self.values().len()
    }

    /// Whether an exception is waiting for the host.
    pub open spec fn is_pending(&self) -> bool {
        self.pending() is Some
    }

    /// Whether `raw` names an error object.
    pub open spec fn is_error_spec(&self, raw: RawReference) -> bool {
        self.holds(raw) && self.values()[raw.slot as int] is Error
    }

    /// Whether `raw` names an object; an error object is one too.
    pub open spec fn is_object_spec(&self, raw: RawReference) -> bool {
        self.holds(raw) && (self.values()[raw.slot as int] is Object
            || self.values()[raw.slot as int] is Error)
    }

    /// Whether `raw` names an integer.
    pub open spec fn is_integer_spec(&self, raw: RawReference) -> bool {
        self.holds(raw) && self.values()[raw.slot as int] is Integer
    }

    /// The value of the property `name` of `object`, if it was ever set.
    pub open spec fn property(&self, object: RawReference, name: Seq<char>) -> Option<RawReference> {
        lookup(self.properties(), object, name)
    }

    /// Whether `raw` names a text value.
    pub open spec fn is_text_spec(&self, raw: RawReference) -> bool {
        self.holds(raw) && self.values()[raw.slot as int] is Text
    }

    /// Whether `raw` names an error object of class `kind` whose message is the
    /// text `message`.
    pub open spec fn is_error_with(&self, raw: RawReference, kind: Kind, message: Seq<char>) -> bool {
        &&& self.is_error_spec(raw)
        &&& self.values()[raw.slot as int]->Error_kind == kind
        &&& self.is_text_spec(self.values()[raw.slot as int]->Error_message)
        &&& self.values()[self.values()[raw.slot as int]->Error_message.slot as int]->Text_0@
            == message
    }

    /// The heap holds everything that `before` held, in the same slots.
    pub open spec fn extends(&self, before: &Host) -> bool {
        &&& before.values().len() <= self.values().len()
        &&& forall|i: int| 0 <= i < before.values().len() ==> self.values()[i] == before.values()[i]
        &&& self.properties() == before.properties()
    }

    /// The same heap and the same waiting exception as `before`.
    pub open spec fn same_as(&self, before: &Host) -> bool {
        &&& self.values() == before.values()
        &&& self.properties() == before.properties()
        &&& self.pending() == before.pending()
    }

    /// The heap of `before` with two more values: the text `text`, and behind
    /// it an error object of class `kind` that has this text for its message.
    pub open spec fn gained_error(&self, before: &Host, kind: Kind, text: Seq<char>) -> bool {
        let n = before.values().len() as int;
        &&& self.extends(before)
        &&& self.values().len() == n + 2
        &&& self.values()[n] is Text
        &&& self.values()[n]->Text_0@ == text
        &&& self.values()[n + 1] is Error
        &&& self.values()[n + 1]->Error_kind == kind
        &&& self.values()[n + 1]->Error_message.slot == n
    }

    /// The state after an error of class `kind` with the message `text` was
    /// created by the host itself and thrown: the heap gained the error, and
    /// the error waits.
    pub open spec fn threw_from_text(&self, before: &Host, kind: Kind, text: Seq<char>) -> bool {
        &&& self.gained_error(before, kind, text)
        &&& self.pending() is Some
        &&& self.pending()->Some_0.slot == before.values().len() + 1
    }

    /// The state after the property `name` of `object` was set to `value`: one
    /// more assignment, and nothing else.
    pub open spec fn assigned(
        &self,
        before: &Host,
        object: RawReference,
        name: Seq<char>,
        value: RawReference,
    ) -> bool {
        &&& self.values() == before.values()
        &&& self.pending() == before.pending()
        &&& self.properties().len() == before.properties().len() + 1
        &&& self.properties().drop_last() == before.properties()
        &&& self.properties().last().object == object
        &&& self.properties().last().name@ == name
        &&& self.properties().last().value == value
    }

    /// The heap after one more value was allocated.
    pub open spec fn grown_by(&self, before: &Host, value: HostValue) -> bool {
        &&& self.values() == before.values().push(value)
        &&& self.properties() == before.properties()
        &&& self.pending() == before.pending()
    }

    /// An empty heap with no exception waiting.
    pub fn new() -> (host: Host)
        ensures
            host.values().len() == 0,
            host.properties().len() == 0,
            !host.is_pending(),
    {
        Host { values: Vec::new(), properties: Vec::new(), pending: None }
    }

    /// Puts `value` into the heap and returns the token of its slot.
    pub fn allocate(&mut self, value: HostValue) -> (raw: RawReference)
        ensures
            final(self).grown_by(old(self), value),
            raw.slot == old(self).values().len(),
    {
        let slot: usize = self.values.len();
        self.values.push(value);
        RawReference { slot }
    }

    /// The host predicate "is this an object".
    pub fn is_object(&self, raw: RawReference) -> (b: bool)
        ensures
            b == self.is_object_spec(raw),
    {
        if raw.slot < self.values.len() {
            match &self.values[raw.slot] {
                HostValue::Object => true,
                HostValue::Error { .. } => true,
                _ => false,
            }
        } else {
            false
        }
    }

    /// The host predicate "is this an error object".
    pub fn is_error(&self, raw: RawReference) -> (b: bool)
        ensures
            b == self.is_error_spec(raw),
    {
        if raw.slot < self.values.len() {
            match &self.values[raw.slot] {
                HostValue::Error { .. } => true,
                _ => false,
            }
        } else {
            false
        }
    }

    /// Creates an empty object and writes its reference to `out`.
    pub fn new_object(&mut self, out: &mut RawReference) -> (populated: bool)
        ensures
            populated,
            final(self).grown_by(old(self), HostValue::Object),
            final(out).slot == old(self).values().len(),
    {
        *out = self.allocate(HostValue::Object);
        true
    }

    /// Creates the integer `value` and writes its reference to `out`.
    pub fn new_integer(&mut self, out: &mut RawReference, value: i32) -> (populated: bool)
        ensures
            populated,
            final(self).grown_by(old(self), HostValue::Integer(value)),
            final(out).slot == old(self).values().len(),
    {
        *out = self.allocate(HostValue::Integer(value));
        true
    }

    /// The integer that `raw` names, if it names one.
    pub fn integer_value(&self, raw: RawReference) -> (value: Option<i32>)
        ensures
            value == (if self.is_integer_spec(raw) {
                Some(self.values()[raw.slot as int]->Integer_0)
            } else {
                None
            }),
    {
        if raw.slot < self.values.len() {
            match &self.values[raw.slot] {
                HostValue::Integer(value) => Some(*value),
                _ => None,
            }
        } else {
            None
        }
    }

    /// The class of the error object that `raw` names, if it names one.
    pub fn error_kind(&self, raw: RawReference) -> (kind: Option<Kind>)
        ensures
            kind == (if self.is_error_spec(raw) {
                Some(self.values()[raw.slot as int]->Error_kind)
            } else {
                None
            }),
    {
        if raw.slot < self.values.len() {
            match &self.values[raw.slot] {
                HostValue::Error { kind, .. } => Some(*kind),
                _ => None,
            }
        } else {
            None
        }
    }

    /// The message of the error object that `raw` names, if it names one
    /// whose message is a text value.
    pub fn error_message(&self, raw: RawReference) -> (text: Option<String>)
        ensures
            text is Some <==> self.is_error_spec(raw) && self.is_text_spec(
                self.values()[raw.slot as int]->Error_message,
            ),
            text is Some ==> self.is_error_with(
                raw,
                self.values()[raw.slot as int]->Error_kind,
                text->Some_0@,
            ),
    {
        if raw.slot < self.values.len() {
            match &self.values[raw.slot] {
                HostValue::Error { message, .. } => {
                    if message.slot < self.values.len() {
                        match &self.values[message.slot] {
                            HostValue::Text(text) => Some(text.clone()),
                            _ => None,
                        }
                    } else {
                        None
                    }
                },
                _ => None,
            }
        } else {
            None
        }
    }

    /// Sets the property `name` of `object` to `value`. This is done, and true
    /// is returned, exactly where `object` names an object; otherwise nothing
    /// changes.
    pub fn set_property(&mut self, object: RawReference, name: &str, value: RawReference) -> (done:
        bool)
        ensures
            done == old(self).is_object_spec(object),
            !done ==> final(self).same_as(old(self)),
            done ==> final(self).assigned(old(self), object, name@, value),
            done ==> final(self).property(object, name@) == Some(value),
    {
        let is_object = self.is_object(object);
        if is_object {
            self.properties.push(Property { object, name: name.to_owned(), value });
            assert(self.properties().drop_last() == old(self).properties());
        }
        is_object
    }

    /// The value of the property `name` of `object`, if it was ever set.
    pub fn get_property(&self, object: RawReference, name: &str) -> (value: Option<RawReference>)
        ensures
            value == self.property(object, name@),
    {
        let key = name.to_owned();
        let mut i: usize = self.properties.len();
        assert(self.properties().subrange(0, i as int) == self.properties());
        while i > 0
            invariant
                i <= self.properties().len(),
                key@ == name@,
                self.property(object, name@) == lookup(
                    self.properties().subrange(0, i as int),
                    object,
                    name@,
                ),
            decreases i,
        {
            let ghost prefix = self.properties().subrange(0, i as int);
            assert(prefix.drop_last() == self.properties().subrange(0, i - 1));
            i -= 1;
            let entry = &self.properties[i];
            if entry.object == object && entry.name == key {
                return Some(entry.value);
            }
        }
        None
    }

    /// The exception that is waiting for the host, if any.
    pub fn pending_exception(&self) -> (p: Option<RawReference>)
        ensures
            p == self.pending(),
    {
        self.pending
    }

    /// Marks `raw` as the exception that waits for the host. While one is
    /// already waiting it stays: only the host ends an exception episode.
    pub fn raise(&mut self, raw: RawReference)
        ensures
            final(self).values() == old(self).values(),
            final(self).properties() == old(self).properties(),
            final(self).pending() == after_throw(old(self).pending(), raw),
    {
        if self.pending.is_none() {
            self.pending = Some(raw);
        }
    }

    /// Creates an error of class `kind` with the message `text` and throws it,
    /// all on the host's side: no handle is involved. While an exception is
    /// already waiting, nothing happens.
    pub fn throw_from_text(&mut self, kind: Kind, text: String)
        ensures
            old(self).is_pending() ==> final(self).same_as(old(self)),
            !old(self).is_pending() ==> final(self).threw_from_text(old(self), kind, text@),
    {
        if self.pending.is_none() {
            let message = self.allocate(HostValue::Text(text));
            let error = self.allocate(HostValue::Error { kind, message });
            self.raise(error);
        }
    }

    /// The host's side of the protocol: it takes the waiting exception and is
    /// back to normal. Native code never calls this.
    pub fn take_exception(&mut self) -> (taken: Option<RawReference>)
        ensures
            taken == old(self).pending(),
            !final(self).is_pending(),
            final(self).values() == old(self).values(),
            final(self).properties() == old(self).properties(),
    {
        let taken = self.pending;
        self.pending = None;
        taken
    }
}

} // verus!
