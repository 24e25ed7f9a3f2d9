//! The failures that a call or a subscription can end in.
use vstd::prelude::*;

verus! {

/// Why an operation on the connection failed.
///
/// A failure belongs to the one call, or the one notification, that it is
/// reported for. Nothing is retried.
#[derive(Debug, PartialEq, Eq)]
pub enum RpcError {
    /// The connection failed: it was closed, or reading or writing failed.
    Transport(String),
    /// A payload did not have the shape of the type it was to be read as.
    Decoder(String),
    /// A subscription id could not be registered, for one because it
    /// already is.
    Registration(String),
    /// The server answered the request with a failure of its own.
    Rpc(String),
}

} // verus!
