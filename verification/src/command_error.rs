//! The path-free error value that every host command returns to the webview.

use vstd::prelude::*;

verus! {

/// A stable machine code and a fixed human message. Neither ever carries a
/// machine path.
#[derive(Clone, Debug, PartialEq, Eq)]
pub struct CommandError {
    pub code: String,
    pub message: String,
}

impl CommandError {
    /// Builds an error from a stable code and its message.
    pub fn new(code: &str, message: &str) -> (error: Self)
        ensures
            error.code@ == code@,
            error.message@ == message@,
    {
        CommandError { code: code.to_owned(), message: message.to_owned() }
    }
}

} // verus!
