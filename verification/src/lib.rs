//! Client-side identity and integrity layer for uploading files to a remote
//! asset host: a durable asymmetric identity, content digests, canonical
//! signing strings, and a chunked, progress-observable upload pipeline.
use vstd::prelude::*;

pub mod config;
pub mod http_worker;
pub mod sign_worker;
pub mod utils;

verus! {

/// The failure kinds of the library. Every fallible operation reports one of
/// these; no operation of the library panics.
#[derive(Clone, Copy, Debug, PartialEq, Eq, Structural)]
pub enum UploadError {
    /// The key file is unreadable or corrupt, or key generation failed.
    KeyStorageError,
    /// A file could not be opened or read.
    IoError,
    /// A cryptographic signing operation failed.
    SigningError,
    /// The connection failed, the server answered with a failure status, or
    /// the response had an unexpected shape.
    TransportError,
}

} // verus!
