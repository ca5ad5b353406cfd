//! The error of the runtime's entry points: a message and nothing else.

use vstd::prelude::*;
use vstd::std_specs::convert::FromSpecImpl;
use vstd::string::StringExecFns;

verus! {

/// An error that carries only its message.
#[derive(Debug)]
pub struct Error(pub String);

/// What runtime entry points return.
pub type Result<T, E = Error> = core::result::Result<T, E>;

impl View for Error {
    type V = Seq<char>;

    open spec fn view(&self) -> Seq<char> {
        self.0@
    }
}

impl Error {
    /// The error with the given text.
    pub fn msg(text: &str) -> (r: Error)
        ensures
            r@ == text@,
    {
        Error(String::from_str(text))
    }

    /// The text of the error.
    pub fn message(&self) -> (r: String)
        ensures
            r@ == self@,
    {
        self.0.clone()
    }
}

impl From<String> for Error {
    fn from(s: String) -> (r: Error) {
        Error(s)
    }
}

impl FromSpecImpl<String> for Error {
    open spec fn obeys_from_spec() -> bool {
        true
    }

    open spec fn from_spec(s: String) -> Error {
        Error(s)
    }
}

impl<'a> From<&'a str> for Error {
    fn from(s: &'a str) -> (r: Error)
        ensures
            r@ == s@,
    {
        Error(String::from_str(s))
    }
}

impl<'a> FromSpecImpl<&'a str> for Error {
    /// No error value is named for a text: what the conversion returns is
    /// stated by its own contract, over the text.
    open spec fn obeys_from_spec() -> bool {
        false
    }

    open spec fn from_spec(s: &'a str) -> Error {
        arbitrary()
    }
}

} // verus!
