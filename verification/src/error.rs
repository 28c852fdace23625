//! The error that drivers and boards report.

use vstd::prelude::*;

verus! {

/// A failure, described in words.
#[derive(Clone, Copy, Debug, PartialEq, Eq)]
pub struct Error(&'static str);

impl Error {
    /// The words of the error.
    pub closed spec fn view(&self) -> Seq<char> {
        self.0@
    }

    /// The words of the error.
    pub fn to_string(&self) -> (text: String)
        ensures
            text@ == self@,
    {
        String::from_str(self.0)
    }
}

impl From<&'static str> for Error {
    fn from(s: &'static str) -> (error: Self)
        ensures
            error@ == s@,
    {
        Self(s)
    }
}

impl vstd::std_specs::convert::FromSpecImpl<&'static str> for Error {
    open spec fn obeys_from_spec() -> bool {
        true
    }

    closed spec fn from_spec(s: &'static str) -> Self {
        Error(s)
    }
}

} // verus!
