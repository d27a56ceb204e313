//! Scalars as response values.

use crate::protocol::count::Count;
use crate::protocol::return_values::ReturnValue;
use crate::protocol::value::Value;
use vstd::prelude::*;
use vstd::std_specs::convert::FromSpecImpl;

verus! {

impl From<Value> for ReturnValue {
    fn from(value: Value) -> (r: ReturnValue) {
        ReturnValue::Value(value)
    }
}

impl FromSpecImpl<Value> for ReturnValue {
    open spec fn obeys_from_spec() -> bool {
        true
    }

    open spec fn from_spec(value: Value) -> ReturnValue {
        ReturnValue::Value(value)
    }
}

impl From<String> for ReturnValue {
    fn from(string: String) -> (r: ReturnValue) {
        ReturnValue::Value(Value::String(string))
    }
}

impl FromSpecImpl<String> for ReturnValue {
    open spec fn obeys_from_spec() -> bool {
        true
    }

    open spec fn from_spec(string: String) -> ReturnValue {
        ReturnValue::Value(Value::String(string))
    }
}

impl From<bool> for ReturnValue {
    fn from(boolean: bool) -> (r: ReturnValue) {
        ReturnValue::Value(Value::Boolean(boolean))
    }
}

impl FromSpecImpl<bool> for ReturnValue {
    open spec fn obeys_from_spec() -> bool {
        true
    }

    open spec fn from_spec(boolean: bool) -> ReturnValue {
        ReturnValue::Value(Value::Boolean(boolean))
    }
}

impl From<i32> for ReturnValue {
    fn from(integer: i32) -> (r: ReturnValue) {
        ReturnValue::Value(Value::Integer(integer))
    }
}

impl FromSpecImpl<i32> for ReturnValue {
    open spec fn obeys_from_spec() -> bool {
        true
    }

    open spec fn from_spec(integer: i32) -> ReturnValue {
        ReturnValue::Value(Value::Integer(integer))
    }
}

impl From<Count> for ReturnValue {
    fn from(count: Count) -> (r: ReturnValue) {
        let n: i32 = #[verifier::truncate]
        (count.value() as i32);
        ReturnValue::Value(Value::Integer(n))
    }
}

impl FromSpecImpl<Count> for ReturnValue {
    open spec fn obeys_from_spec() -> bool {
        true
    }

    open spec fn from_spec(count: Count) -> ReturnValue {
        ReturnValue::Value(Value::Integer(count.value() as i32))
    }
}

} // verus!
