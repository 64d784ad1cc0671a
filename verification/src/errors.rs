//! Shared error values of the library.

use vstd::prelude::*;

verus! {

/// An error raised by the engine's own checks, carrying a message safe to
/// surface to the caller.
#[derive(Clone, Debug, PartialEq, Eq)]
pub struct CommandError {
    message_safe: String,
}

impl CommandError {
    /// The message carried by this error, as contracts see it.
    pub closed spec fn spec_message(&self) -> Seq<char> {
        self.message_safe@
    }

    /// Wraps a message that is safe to show.
    pub fn new_from_safe_message(message: String) -> (r: CommandError)
        ensures
            r.spec_message() == message@,
    {
        CommandError { message_safe: message }
    }

    /// The message carried by this error.
    pub fn message_safe(&self) -> (r: &String)
        ensures
            r@ == self.spec_message(),
    {
        &self.message_safe
    }
}

/// Compares two string slices by content.
pub(crate) fn str_eq(a: &str, b: &str) -> (r: bool)
    ensures
        r == (a@ == b@),
{
    let x: String = a.to_owned();
    let y: String = b.to_owned();
    x == y
}

} // verus!
