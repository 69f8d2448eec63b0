//! The error of the connection manager.
use vstd::prelude::*;
use vstd::string::*;

verus! {

/// What can go wrong while driving the Bluetooth stack.
#[derive(Debug, PartialEq, Eq)]
pub enum Error {
    /// A Bluetooth operation failed; the text says which and why.
    Bluetooth(String),
}

impl View for Error {
    type V = Seq<char>;

    open spec fn view(&self) -> Seq<char> {
        match self {
            Error::Bluetooth(text) => text@,
        }
    }
}

impl Error {
    /// The error of an operation: what was attempted, followed by the cause.
    pub fn bluetooth(attempt: &str, cause: &str) -> (error: Error)
        ensures
            error@ == attempt@ + cause@,
            error matches Error::Bluetooth(text) && text@ == attempt@ + cause@,
    {
        let mut text = attempt.to_owned();
        text.append(cause);
        Error::Bluetooth(text)
    }

    /// The message of this error.
    pub fn message(&self) -> (text: String)
        ensures
            text@ == self@,
            *self matches Error::Bluetooth(inner) ==> text@ == inner@,
    {
        match self {
            Error::Bluetooth(text) => text.clone(),
        }
    }
}

/// The content of an error is its whole text.
pub proof fn error_content_is_its_text(text: String)
    ensures
        Error::Bluetooth(text)@ == text@,
{
}

} // verus!
