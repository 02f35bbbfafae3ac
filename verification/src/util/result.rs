//! A simple error that is just its text.

use std::fmt::Display;
use vstd::prelude::*;
use vstd::std_specs::convert::FromSpecImpl;
use vstd::string::*;

verus! {

/// Simple custom string error.
pub struct Error(String);

impl Error {
    /// The text of the error.
    pub closed spec fn view(&self) -> Seq<char> {
        self.0@
    }

    /// The text of the error, as the string it is kept in.
    pub closed spec fn text(&self) -> String {
        self.0
    }

    /// The error whose text is `value` as it displays itself.
    pub fn from<T: Display>(value: T) -> (error: Error)
        ensures
            to_string_from_display_ensures::<T>(&value, error.text()),
    {
        Error(value.to_string())
    }

    /// The text of the error.
    pub fn to_string(&self) -> (text: String)
        ensures
            text@ == self@,
    {
        self.0.clone()
    }
}

impl From<String> for Error {
    /// The error whose text is `v`.
    fn from(v: String) -> (error: Error) {
        Error(v)
    }
}

impl FromSpecImpl<String> for Error {
    open spec fn obeys_from_spec() -> bool {
        true
    }

    closed spec fn from_spec(v: String) -> Error {
        Error(v)
    }
}

/// What can be turned into an [`Error`].
pub trait ToError {
    /// The error that `self` stands for.
    fn to_err(self) -> Error;
}

impl<T: Into<String>> ToError for T {
    /// The error whose text is `self` as a string.
    fn to_err(self) -> (error: Error)
        ensures
            call_ensures(T::into, (self,), error.text()),
    {
        Error(self.into())
    }
}

} // verus!
