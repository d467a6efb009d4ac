//! Attribute values, timestamps, and the metadata that many spans share.
use vstd::prelude::*;

verus! {

/// The value part of an attribute.
#[derive(Clone, Debug)]
pub enum Value {
    Bool(bool),
    I64(i64),
    String(String),
}

impl Value {
    /// Whether two values are of the same kind and hold the same content.
    pub open spec fn same(&self, o: &Value) -> bool {
        match self {
            Value::Bool(a) => match o {
                Value::Bool(b) => a == b,
                _ => false,
            },
            Value::I64(a) => match o {
                Value::I64(b) => a == b,
                _ => false,
            },
            Value::String(a) => match o {
                Value::String(b) => a@ == b@,
                _ => false,
            },
        }
    }
}

impl Value {
    /// Whether two values are of the same kind and hold the same content.
    pub fn same_as(&self, o: &Value) -> (r: bool)
        ensures
            r == self.same(o),
    {
        match self {
            Value::Bool(a) => match o {
                Value::Bool(b) => *a == *b,
                _ => false,
            },
            Value::I64(a) => match o {
                Value::I64(b) => *a == *b,
                _ => false,
            },
            Value::String(a) => match o {
                Value::String(b) => *a == *b,
                _ => false,
            },
        }
    }
}

impl Value {
    /// Every value is the same as itself.
    pub proof fn lemma_same_reflexive(&self)
        ensures
            self.same(self),
    {
    }
}

impl PartialEq for Value {
    fn eq(&self, o: &Value) -> (r: bool) {
        self.same_as(o)
    }
}

impl vstd::std_specs::cmp::PartialEqSpecImpl for Value {
    open spec fn obeys_eq_spec() -> bool {
        true
    }

    open spec fn eq_spec(&self, o: &Value) -> bool {
        self.same(o)
    }
}

/// An attribute: a key and the value it is set to.
#[derive(Clone, Debug)]
pub struct KeyValue {
    pub key: String,
    pub value: Value,
}

impl KeyValue {
    /// Whether two attributes have the same key and the same value.
    pub open spec fn same(&self, o: &KeyValue) -> bool {
        self.key@ == o.key@ && self.value.same(&o.value)
    }

    pub fn new(key: String, value: Value) -> (r: KeyValue)
        ensures
            r.key == key,
            r.value == value,
    {
        KeyValue { key, value }
    }
}

impl PartialEq for KeyValue {
    fn eq(&self, o: &KeyValue) -> (r: bool) {
        self.key == o.key && self.value == o.value
    }
}

impl vstd::std_specs::cmp::PartialEqSpecImpl for KeyValue {
    open spec fn obeys_eq_spec() -> bool {
        true
    }

    open spec fn eq_spec(&self, o: &KeyValue) -> bool {
        self.same(o)
    }
}

/// Whether two attribute lists hold the same attributes in the same order.
pub open spec fn same_attributes(a: Seq<KeyValue>, b: Seq<KeyValue>) -> bool {
    a.len() == b.len() && forall|i: int| 0 <= i < a.len() ==> (#[trigger] a[i]).same(&b[i])
}

/// Compares two attribute lists entry by entry.
pub fn attributes_eq(a: &Vec<KeyValue>, b: &Vec<KeyValue>) -> (r: bool)
    ensures
        r == same_attributes(a@, b@),
{
    if a.len() != b.len() {
        return false;
    }
    let mut i: usize = 0;
    while i < a.len()
        invariant
            a@.len() == b@.len(),
            0 <= i <= a@.len(),
            forall|j: int| 0 <= j < i ==> (#[trigger] a@[j]).same(&b@[j]),
        decreases a@.len() - i,
    {
        if !(a[i] == b[i]) {
            return false;
        }
        i = i + 1;
    }
    true
}

/// Whether two optional strings are both absent or both present with the same text.
pub open spec fn same_opt_str(a: Option<String>, b: Option<String>) -> bool {
    match a {
        None => b is None,
        Some(x) => b is Some && b->0@ == x@,
    }
}

/// Compares two optional strings.
pub fn opt_str_eq(a: &Option<String>, b: &Option<String>) -> (r: bool)
    ensures
        r == same_opt_str(*a, *b),
{
    match a {
        None => b.is_none(),
        Some(x) => match b {
            None => false,
            Some(y) => *x == *y,
        },
    }
}

/// A point in wall-clock time, in nanoseconds since the Unix epoch (negative
/// before it).
#[derive(Clone, Copy, Debug, PartialEq, Eq, Structural)]
pub struct Timestamp {
    pub nanos: i128,
}

/// Shared, read-only attributes of the entity that produced the telemetry.
#[derive(Clone, Debug)]
pub struct Resource {
    pub attributes: Vec<KeyValue>,
    pub schema_url: Option<String>,
}

impl Resource {
    pub open spec fn same(&self, o: &Resource) -> bool {
        same_attributes(self.attributes@, o.attributes@) && same_opt_str(self.schema_url, o.schema_url)
    }
}

impl PartialEq for Resource {
    fn eq(&self, o: &Resource) -> (r: bool) {
        attributes_eq(&self.attributes, &o.attributes) && opt_str_eq(&self.schema_url, &o.schema_url)
    }
}

impl vstd::std_specs::cmp::PartialEqSpecImpl for Resource {
    open spec fn obeys_eq_spec() -> bool {
        true
    }

    open spec fn eq_spec(&self, o: &Resource) -> bool {
        self.same(o)
    }
}

/// The name and version of the code that produced a span.
#[derive(Clone, Debug)]
pub struct InstrumentationLibrary {
    pub name: String,
    pub version: Option<String>,
    pub schema_url: Option<String>,
}

impl InstrumentationLibrary {
    pub open spec fn same(&self, o: &InstrumentationLibrary) -> bool {
        self.name@ == o.name@ && same_opt_str(self.version, o.version) && same_opt_str(
            self.schema_url,
            o.schema_url,
        )
    }
}

impl PartialEq for InstrumentationLibrary {
    fn eq(&self, o: &InstrumentationLibrary) -> (r: bool) {
        self.name == o.name && opt_str_eq(&self.version, &o.version) && opt_str_eq(
            &self.schema_url,
            &o.schema_url,
        )
    }
}

impl vstd::std_specs::cmp::PartialEqSpecImpl for InstrumentationLibrary {
    open spec fn obeys_eq_spec() -> bool {
        true
    }

    open spec fn eq_spec(&self, o: &InstrumentationLibrary) -> bool {
        self.same(o)
    }
}

} // verus!
