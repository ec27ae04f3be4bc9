use vstd::prelude::*;

verus! {

/// Whether an audit config delta adds or removes an exemption.
#[derive(Clone, Debug, Default, PartialEq)]
pub struct Action(pub String);

pub const ACTION_UNSPECIFIED: &'static str = "ACTION_UNSPECIFIED";

pub const ADD: &'static str = "ADD";

pub const REMOVE: &'static str = "REMOVE";

impl Action {
    /// The value with the name `value`.
    pub fn new(value: String) -> (r: Action)
        ensures
            r.0 == value,
    {
        Action(value)
    }

    /// The name of the value.
    pub fn value(&self) -> (r: &str)
        ensures
            r@ == self.0@,
    {
        self.0.as_str()
    }
}

} // verus!
