//! The errors of the database layer: what was being done, and the I/O
//! error that stopped it.

use std::io;
use vstd::prelude::*;
use vstd::string::*;

verus! {

/// `std::io::Error`, carried through as an opaque value.
#[verifier::external_type_specification]
#[verifier::external_body]
pub struct ExIoError(std::io::Error);

/// An I/O error together with a message that says what was being done.
pub struct IOError {
    message: String,
    inner: io::Error,
}

/// The text of an [`IOError`] whose message is `message` and whose cause
/// reads `cause`.
pub open spec fn io_error_text(message: Seq<char>, cause: Seq<char>) -> Seq<char> {
    message + " -- "@ + cause
}

impl IOError {
    /// The message that says what was being done.
    pub closed spec fn message(&self) -> String {
        self.message
    }

    /// The I/O error that stopped it.
    pub closed spec fn cause(&self) -> io::Error {
        self.inner
    }

    /// An error with the cause `inner` and the message `message`.
    pub fn new<S: Into<String>>(inner: io::Error, message: S) -> (error: IOError)
        ensures
            error.cause() == inner,
            call_ensures(S::into, (message,), error.message()),
    {
        IOError { message: message.into(), inner }
    }

    /// An error with the cause `inner` and the message `message`.
    pub fn with_message(inner: io::Error, message: String) -> (error: IOError)
        ensures
            error.cause() == inner,
            error.message() == message,
    {
        IOError { message, inner }
    }

    /// The text of the error: the message, ` -- `, and the cause as it
    /// displays itself.
    pub fn to_string(&self) -> (text: String)
        ensures
            exists|cause: String| #[trigger]
                to_string_from_display_ensures::<io::Error>(&self.cause(), cause) && text@
                    == io_error_text(self.message()@, cause@),
    {
        let cause = self.inner.to_string();
        let text = join(self.message.as_str(), " -- ", cause.as_str());
        assert(to_string_from_display_ensures::<io::Error>(&self.cause(), cause));
        assert(text@ == io_error_text(self.message()@, cause@));
        text
    }
}

/// Joins three pieces of text.
pub fn join(first: &str, second: &str, third: &str) -> (text: String)
    ensures
        text@ == first@ + second@ + third@,
{
    let mut text = String::from_str(first);
    text.append(second);
    text.append(third);
    text
}

/// The error type associated with database operations.
pub enum Error {
    /// The database could not be opened.
    Open(IOError),
    /// The lock for reading could not be taken.
    ReadLock(IOError),
    /// The lock for writing could not be taken.
    WriteLock(IOError),
}

impl Error {
    /// What was being done when the error came up.
    pub open spec fn doing(&self) -> Seq<char> {
        match self {
            Error::Open(_) => "opening the database: "@,
            Error::ReadLock(_) => "locking the database for reading: "@,
            Error::WriteLock(_) => "locking the database for writing: "@,
        }
    }

    /// The I/O error inside, with its message.
    pub open spec fn source(&self) -> IOError {
        match self {
            Error::Open(error) => *error,
            Error::ReadLock(error) => *error,
            Error::WriteLock(error) => *error,
        }
    }

    /// The text of the error: what was being done, then the text of the
    /// I/O error inside.
    pub fn to_string(&self) -> (text: String)
        ensures
            exists|cause: String| #[trigger]
                to_string_from_display_ensures::<io::Error>(&self.source().cause(), cause)
                    && text@ == self.doing() + io_error_text(self.source().message()@, cause@),
    {
        let inner = match self {
            Error::Open(error) => error.to_string(),
            Error::ReadLock(error) => error.to_string(),
            Error::WriteLock(error) => error.to_string(),
        };
        let doing = match self {
            Error::Open(_) => "opening the database: ",
            Error::ReadLock(_) => "locking the database for reading: ",
            Error::WriteLock(_) => "locking the database for writing: ",
        };
        let mut text = String::from_str(doing);
        text.append(inner.as_str());
        proof {
            let source = self.source();
            let cause = choose|cause: String| #[trigger]
                to_string_from_display_ensures::<io::Error>(&source.cause(), cause) && inner@
                    == io_error_text(source.message()@, cause@);
            assert(doing@ == self.doing());
            assert(text@ == self.doing() + io_error_text(source.message()@, cause@));
        }
        text
    }
}

} // verus!
