//! Native functions that come with the library, each known to scripts under
//! a fixed global name.

use vstd::prelude::*;

verus! {

/// The name under which scripts see the default native function.
pub const DEFAULT_FUNC_NAME: &'static str = "default_func";

/// The name under which scripts see the native function for SQL queries.
pub const SQL_SELECT_NAME: &'static str = "sqlSelect";

/// The native function that only reports that it was called.
pub struct DefaultExposedFunction {
    name: String,
}

impl View for DefaultExposedFunction {
    type V = Seq<char>;

    /// The name the value was made with.
    closed spec fn view(&self) -> Seq<char> {
        self.name@
    }
}

impl DefaultExposedFunction {
    pub fn new(name: String) -> (func: Self)
        ensures
            func@ == name@,
    {
        DefaultExposedFunction { name }
    }

    /// The global name under which the function is registered, whatever
    /// name a value was made with.
    pub fn name() -> (name: String)
        ensures
            name@ == DEFAULT_FUNC_NAME@,
    {
        String::from_str(DEFAULT_FUNC_NAME)
    }
}

/// The native function through which scripts run SQL queries.
pub struct SqlSelectExposedFunction {
    name: String,
}

impl View for SqlSelectExposedFunction {
    type V = Seq<char>;

    /// The name the value was made with.
    closed spec fn view(&self) -> Seq<char> {
        self.name@
    }
}

impl SqlSelectExposedFunction {
    pub fn new(name: String) -> (func: Self)
        ensures
            func@ == name@,
    {
        SqlSelectExposedFunction { name }
    }

    /// The global name under which the function is registered, whatever
    /// name a value was made with.
    pub fn name() -> (name: String)
        ensures
            name@ == SQL_SELECT_NAME@,
    {
        String::from_str(SQL_SELECT_NAME)
    }
}

} // verus!
