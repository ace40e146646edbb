use vstd::prelude::*;

verus! {

/// A structured inspection value: the shape an element's debug snapshot
/// takes. It supports scalars, sequences, and key-value maps whose entries
/// keep their insertion order.
#[derive(PartialEq, Eq, Debug)]
pub enum Value {
    Null,
    Bool(bool),
    Int(i64),
    Str(String),
    Array(Vec<Value>),
    Object(Vec<(String, Value)>),
}

/// Relates an inspection value `v` to the value `r` that results from
/// tagging it with the display name `name`: a map gains a first entry
/// `"name" -> name` while every original entry keeps its place and order;
/// anything that is not a map comes back unchanged.
pub open spec fn name_injected(name: Seq<char>, v: Value, r: Value) -> bool {
    match v {
        Value::Object(entries) => match r {
            Value::Object(out) => {
                &&& out@.len() == entries@.len() + 1
                &&& out@[0].0@ == "name"@
                &&& out@[0].1 matches Value::Str(s) && s@ == name
                &&& forall|i: int| 1 <= i <= entries@.len() ==> out@[i] == entries@[i - 1]
            },
            _ => false,
        },
        _ => r == v,
    }
}

impl Value {
    /// Tag this value with a display name: a map gets `"name" -> name`
    /// prepended as its first entry, every other kind of value is returned
    /// unchanged.
    pub fn with_name(self, name: String) -> (r: Value)
        ensures
            name_injected(name@, self, r),
    {
        match self {
            Value::Object(mut entries) => {
                let mut out: Vec<(String, Value)> = Vec::new();
                out.push(("name".to_owned(), Value::Str(name)));
                out.append(&mut entries);
                Value::Object(out)
            },
            other => other,
        }
    }
}

} // verus!
