//! The error that parsing a configuration value gives.

use vstd::prelude::*;

verus! {

/// Error type holding a description.
#[derive(Debug, Clone, PartialEq, Eq)]
pub struct StringError(pub String);

impl View for StringError {
    type V = Seq<char>;

    open spec fn view(&self) -> Seq<char> {
        self.0@
    }
}

impl StringError {
    /// The description, borrowed.
    pub fn description(&self) -> (text: &str)
        ensures
            text@ == self@,
    {
        self.0.as_str()
    }

    /// The description as an owned string, as displaying the error prints it.
    pub fn to_string(&self) -> (text: String)
        ensures
            text@ == self@,
    {
        self.0.clone()
    }
}

} // verus!
