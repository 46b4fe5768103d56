//! Failure taxonomy shared by every request handler.

use vstd::prelude::*;

verus! {

/// The three ways a request can fail.
///
/// `AuthenticationError` means the session carries no usable bearer token;
/// the caller is expected to send the browser to the login route.
/// `ValidationError` means the submitted form was malformed and was rejected
/// before any remote call. `UpstreamError` means a call to the remote
/// storage service failed; no retry and no rollback are attempted.
#[derive(Clone, Copy, Debug, PartialEq, Eq, Structural)]
pub enum RequestError {
    AuthenticationError,
    ValidationError,
    UpstreamError,
}

} // verus!
