use vstd::prelude::*;

verus! {

/// What went wrong in an operation of the library.
#[derive(Debug, Clone, Copy, PartialEq, Eq, Structural)]
pub enum ErrorKind {
    /// A file could not be opened, read or written.
    Io,
    /// Base64, UTF-8 or structured text did not decode.
    Decode,
    /// The data was encrypted with another key.
    KeyMismatch,
    /// No secret is stored under the given path or id.
    NotFound,
    /// The ciphertext is malformed (bad length or padding).
    Decrypt,
    /// A glob pattern could not be compiled.
    InvalidPattern,
    /// A record was asked for under a path other than its own.
    PathMismatch,
    /// A store without a file path was asked to persist itself.
    NoFilePath,
    /// The cipher refused to encrypt.
    Encrypt,
    /// Key material does not have the shape a key needs.
    InvalidKey,
}

/// An error with its kind and a message for people.
#[derive(Debug, Clone)]
pub struct Error {
    pub kind: ErrorKind,
    pub message: String,
}

impl Error {
    pub fn new(kind: ErrorKind, message: &str) -> (r: Error)
        ensures
            r.kind == kind,
            r.message@ == message@,
    {
        Error { kind, message: message.to_string() }
    }
}

} // verus!
