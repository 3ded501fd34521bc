use vstd::prelude::*;

verus! {

/// A tagged argument or result value passed between a caller and a runtime.
#[derive(Clone, Copy, PartialEq, Eq, Structural, Debug)]
pub enum Value {
    Bool(bool),
    Int(i64),
}

impl Value {
    pub fn from(value: bool) -> (r: Value)
        ensures
            r == Value::Bool(value),
    {
        Value::Bool(value)
    }

    pub fn from_int(value: i64) -> (r: Value)
        ensures
            r == Value::Int(value),
    {
        Value::Int(value)
    }
}

}
