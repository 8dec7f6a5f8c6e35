//! A typed wrapper for a handle of unknown category.

use vstd::prelude::*;

use crate::types::Value;

verus! {

/// A handle whose category has not been checked: the form in which values
/// arrive from the runtime before any downcast.
#[derive(Clone, Copy, PartialEq, Eq, Structural, Debug)]
pub struct AnyObject {
    pub value: Value,
}

impl AnyObject {
    /// The underlying handle.
    pub fn value(&self) -> (v: Value)
        ensures
            v == self.value,
    {
        self.value
    }
}

impl From<Value> for AnyObject {
    fn from(value: Value) -> (r: Self) {
        AnyObject { value: value }
    }
}

impl vstd::std_specs::convert::FromSpecImpl<Value> for AnyObject {
    open spec fn obeys_from_spec() -> bool {
        true
    }

    open spec fn from_spec(value: Value) -> Self {
        AnyObject { value: value }
    }
}

} // verus!
