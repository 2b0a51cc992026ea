use vstd::prelude::*;

verus! {

/// Every way an invocation of the factory can fail.
///
/// Each error aborts the invocation that raised it; none is retried
/// internally. The one failure that is deliberately *not* an error is a
/// spawn continuation that reports failure: it is processed successfully
/// with no registration (see `GenericFactory::reply`).
#[derive(Clone, Copy, Debug, PartialEq, Eq, Structural)]
pub enum Error {
    /// A privileged operation was attempted by a caller that is not the admin.
    Unauthorized,
    /// Non-administrative operations are globally suspended.
    NotOperational,
    /// No child template has ever been stored.
    NotConfigured,
    /// A continuation arrived with a correlation token other than `REPLY_ID`.
    UnexpectedToken,
    /// A successful continuation carried no payload.
    MalformedCompletion,
    /// A continuation payload did not decode to the expected shape.
    DeserializationError,
    /// An instance record with the same canonical identity already exists.
    DuplicateKey,
    /// An address failed canonicalization.
    InvalidAddress,
}

} // verus!
