use vstd::prelude::*;

verus! {

/// Failures of the federated-authentication codec.
#[derive(Debug, Clone, PartialEq, Eq)]
pub enum Error {
    /// The message is structurally malformed: a missing option, a length or
    /// offset that does not fit the message.
    Protocol(String),
    /// A text payload is not valid UTF-16LE (odd length, unpaired surrogate).
    Utf16,
}

} // verus!
