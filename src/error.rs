use vstd::prelude::*;
use vstd::string::StringExecFns;

verus! {

/// The kinds of failure that an operation reports.
#[derive(PartialEq, Eq, Structural, Clone, Copy, Debug)]
pub enum ErrorKind {
    /// The reference text is malformed.
    InvalidReference,
    /// The registry refused the credential.
    AuthFailed,
    /// The connection failed or timed out.
    NetworkError,
    /// The registry has no such manifest, blob or repository.
    NotFound,
    /// Received content does not hash to the digest it was requested by.
    DigestMismatch,
    /// The registry refused a write.
    RegistryRejected,
    /// An image index has no entry for the platform asked for.
    PlatformNotFound,
    /// The registry does not mount blobs across repositories here.
    MountUnsupported,
    /// An image manifest to pull lists no layer.
    NoLayers,
    /// A layer's media type is not among those the caller accepts.
    IncompatibleLayer,
}

/// A failed operation: its kind, and the cause in words.
#[derive(Debug)]
pub struct ClientError {
    pub kind: ErrorKind,
    pub cause: String,
}

impl ClientError {
    pub fn new(kind: ErrorKind, cause: String) -> (r: ClientError)
        ensures
            r.kind == kind,
            r.cause == cause,
    {
        ClientError { kind, cause }
    }

    /// The report of this failure for the operation `action` (in words such
    /// as `pull blob`): `Failed to <action>: <cause>`.
    pub fn message(&self, action: &str) -> (r: String)
        ensures
            r@ == "Failed to "@ + action@ + ": "@ + self.cause@,
    {
        <String as StringExecFns>::from_str("Failed to ").concat(action).concat(": ").concat(self.cause.as_str())
    }
}

} // verus!
