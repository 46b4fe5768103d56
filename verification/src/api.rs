//! Plumbing values shared by every remote call: the service address and
//! the authorization header.

use vstd::prelude::*;
use vstd::string::StringExecFns;

verus! {

/// The address of the remote gRPC gateway.
pub open spec fn spec_service_endpoint() -> Seq<char> {
    "http://0.0.0.0:50051"@
}

/// The address every remote call connects to, stated once instead of
/// repeated at each call site.
pub fn service_endpoint() -> (r: String)
    ensures
        r@ == spec_service_endpoint(),
{
    "http://0.0.0.0:50051".to_owned()
}

/// The value of the authorization header carrying a bearer token.
pub open spec fn spec_bearer_value(token: Seq<char>) -> Seq<char> {
    "Bearer "@ + token
}

/// Builds the authorization header value for a bearer token: the scheme
/// word, one space, then the token itself.
pub fn bearer_header_value(token: &str) -> (r: String)
    ensures
        r@ == spec_bearer_value(token@),
{
    let mut r = "Bearer ".to_owned();
    r.append(token);
    r
}

} // verus!
