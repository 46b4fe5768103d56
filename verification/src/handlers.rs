//! The two form-facing server actions: resource creation and license
//! listing.
//!
//! Each action is split into a pure "prepare" step, which authenticates
//! and validates the submission and assembles the single outbound call,
//! and a pure "outcome" step, which turns the remote result into the
//! response the browser sees. The network round-trip between the two
//! steps is the caller's job.

use vstd::prelude::*;

use crate::error::RequestError;
use crate::resources::ResourceType;
use crate::resources::resource_type_of;

verus! {

/// A license offered for selection on the creation form: a tag plus
/// descriptive metadata, fetched transiently from the remote service.
#[derive(Clone, Debug, PartialEq)]
pub struct License {
    pub tag: String,
    pub name: String,
    pub text: String,
    pub url: String,
}

/// The raw fields of a submitted resource-creation form.
#[derive(Clone, Debug, PartialEq)]
pub struct CreateResourceForm {
    pub resname: String,
    pub resource_type: String,
    pub description: String,
    pub dataclass: i32,
    pub metadata_license: String,
    pub data_license: String,
    pub parent: Option<String>,
    pub parent_type: Option<ResourceType>,
}

/// The one creation call a valid submission is forwarded as.
#[derive(Clone, Debug, PartialEq)]
pub struct CreateResourceCall {
    pub bearer: String,
    pub name: String,
    pub description: String,
    pub resource_type: ResourceType,
    pub data_license: String,
    pub metadata_license: String,
    pub parent: Option<String>,
    pub data_class: i32,
    pub parent_type: Option<ResourceType>,
}

/// What preparing a creation request yields: the cookie token is checked
/// first, then the resource type is parsed, and a valid submission maps
/// field by field onto the outbound call.
pub open spec fn spec_prepare_create_resource(
    token: Option<String>,
    form: CreateResourceForm,
) -> Result<CreateResourceCall, RequestError> {
    match token {
        None => Err(RequestError::AuthenticationError),
        Some(bearer) => match resource_type_of(form.resource_type@) {
            None => Err(RequestError::ValidationError),
            Some(t) => Ok(
                CreateResourceCall {
                    bearer,
                    name: form.resname,
                    description: form.description,
                    resource_type: t,
                    data_license: form.data_license,
                    metadata_license: form.metadata_license,
                    parent: form.parent,
                    data_class: form.dataclass,
                    parent_type: form.parent_type,
                },
            ),
        },
    }
}

/// Authenticates and validates a submitted creation form. A missing
/// cookie token fails before anything else; an unrecognized resource
/// type is rejected without any remote call; otherwise the submission
/// becomes exactly one outbound creation call. Parent/type compatibility
/// is not re-checked here: the creation page only offers compatible
/// choices, and the remote service validates the linkage itself.
pub fn prepare_create_resource(token: Option<String>, form: CreateResourceForm) -> (r: Result<
    CreateResourceCall,
    RequestError,
>)
    ensures
        r == spec_prepare_create_resource(token, form),
{
    let bearer = match token {
        Some(t) => t,
        None => {
            return Err(RequestError::AuthenticationError);
        },
    };
    let resource_type = match crate::resources::parse_resource_type(&form.resource_type) {
        Ok(t) => t,
        Err(e) => {
            return Err(e);
        },
    };
    Ok(
        CreateResourceCall {
            bearer,
            name: form.resname,
            description: form.description,
            resource_type,
            data_license: form.data_license,
            metadata_license: form.metadata_license,
            parent: form.parent,
            data_class: form.dataclass,
            parent_type: form.parent_type,
        },
    )
}

/// The listing route the browser is sent to after a successful creation.
pub open spec fn spec_listing_path() -> Seq<char> {
    "/objects"@
}

/// Turns the remote creation result into the browser's response: success
/// redirects to the fixed listing route, failure surfaces as an upstream
/// error with no retry.
pub fn create_resource_outcome(succeeded: bool) -> (r: Result<String, RequestError>)
    ensures
        succeeded ==> (r matches Ok(path) && path@ == spec_listing_path()),
        !succeeded ==> r == Err::<String, RequestError>(RequestError::UpstreamError),
{
    if succeeded {
        Ok("/objects".to_owned())
    } else {
        Err(RequestError::UpstreamError)
    }
}

/// What preparing a license fetch yields: the cookie token or an
/// authentication failure.
pub open spec fn spec_prepare_license_fetch(token: Option<String>) -> Result<
    String,
    RequestError,
> {
    match token {
        Some(bearer) => Ok(bearer),
        None => Err(RequestError::AuthenticationError),
    }
}

/// Authenticates a license-catalog fetch: the fetch carries the cookie
/// token as its bearer credential, and a missing token fails before any
/// remote call.
pub fn prepare_license_fetch(token: Option<String>) -> (r: Result<String, RequestError>)
    ensures
        r == spec_prepare_license_fetch(token),
{
    match token {
        Some(bearer) => Ok(bearer),
        None => Err(RequestError::AuthenticationError),
    }
}

/// Unwraps the remote license-catalog response: the catalog passes
/// through untouched, and a failed call surfaces as an upstream error.
pub fn license_fetch_outcome(response: Option<Vec<License>>) -> (r: Result<
    Vec<License>,
    RequestError,
>)
    ensures
        response matches Some(catalog) ==> r == Ok::<Vec<License>, RequestError>(catalog),
        response is None ==> r == Err::<Vec<License>, RequestError>(RequestError::UpstreamError),
{
    match response {
        Some(catalog) => Ok(catalog),
        None => Err(RequestError::UpstreamError),
    }
}

/// Every unrecognized resource-type string fails validation: with the
/// session authenticated, preparation rejects the form, so no outbound
/// creation call comes into being.
pub proof fn lemma_invalid_type_rejected(token: Option<String>, form: CreateResourceForm)
    requires
        token is Some,
        resource_type_of(form.resource_type@) is None,
    ensures
        spec_prepare_create_resource(token, form) == Err::<CreateResourceCall, RequestError>(
            RequestError::ValidationError,
        ),
{
}

/// A missing cookie token fails both authenticated actions with an
/// authentication error before any remote call: neither an outbound
/// creation call nor a bearer credential for the license fetch is
/// produced.
pub proof fn lemma_missing_token_rejected(form: CreateResourceForm)
    ensures
        spec_prepare_create_resource(None, form) == Err::<CreateResourceCall, RequestError>(
            RequestError::AuthenticationError,
        ),
        spec_prepare_license_fetch(None) == Err::<String, RequestError>(
            RequestError::AuthenticationError,
        ),
{
}

} // verus!
