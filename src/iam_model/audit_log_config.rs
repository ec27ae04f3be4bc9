use vstd::prelude::*;

verus! {

/// The kind of permission use that an audit log records.
#[derive(Clone, Debug, Default, PartialEq)]
pub struct LogType(pub String);

pub const LOG_TYPE_UNSPECIFIED: &'static str = "LOG_TYPE_UNSPECIFIED";

pub const ADMIN_READ: &'static str = "ADMIN_READ";

pub const DATA_WRITE: &'static str = "DATA_WRITE";

pub const DATA_READ: &'static str = "DATA_READ";

impl LogType {
    /// The value with the name `value`.
    pub fn new(value: String) -> (r: LogType)
        ensures
            r.0 == value,
    {
        LogType(value)
    }

    /// The name of the value.
    pub fn value(&self) -> (r: &str)
        ensures
            r@ == self.0@,
    {
        self.0.as_str()
    }
}

} // verus!
