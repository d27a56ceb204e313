//! `==` on values: two values are equal where they have the same content.

use crate::protocol::return_values::ReturnValue;
use crate::protocol::value::Value;
use vstd::prelude::*;
use vstd::std_specs::cmp::PartialEqSpecImpl;

verus! {

impl PartialEq for Value {
    fn eq(&self, other: &Value) -> (r: bool) {
        self.equals(other)
    }
}

impl PartialEqSpecImpl for Value {
    open spec fn obeys_eq_spec() -> bool {
        true
    }

    open spec fn eq_spec(&self, other: &Value) -> bool {
        self@ == other@
    }
}

impl PartialEq for ReturnValue {
    fn eq(&self, other: &ReturnValue) -> (r: bool) {
        self.equals(other)
    }
}

impl PartialEqSpecImpl for ReturnValue {
    open spec fn obeys_eq_spec() -> bool {
        true
    }

    open spec fn eq_spec(&self, other: &ReturnValue) -> bool {
        self@ == other@
    }
}

} // verus!
