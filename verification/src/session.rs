//! The session/token bootstrap state machine.
//!
//! A browser session holds an optional cached identity, a bearer token, a
//! provenance tag saying who minted that token, and the id the platform
//! gave the token. Bootstrap makes sure the session ends up with a
//! platform-minted token and a cached identity, creating a fresh token
//! via the remote service when the provenance is wrong and fetching the
//! identity when it is not cached.
//!
//! The decisions live here as a pure step function: [`bootstrap_action`]
//! says which remote call (if any) the session needs next, and
//! [`bootstrap_apply`] folds the outcome of that call back into the
//! session. The caller performs the calls and loops until the action is
//! `Done` or a step fails. Each session write is applied in place, one
//! field after the other, with no transaction around them; if the host
//! store persists one write and loses the next, the gap is accepted, not
//! repaired here.

use vstd::prelude::*;

use crate::error::RequestError;
use crate::identity::UserState;

verus! {

/// The mutable per-browser session fields this code reads and writes.
#[derive(Clone, Debug, PartialEq)]
pub struct SessionData {
    /// Cached identity snapshot, if one was fetched before.
    pub user_info: Option<UserState>,
    /// Bearer credential for calls to the remote service.
    pub token: Option<String>,
    /// Provenance tag of `token`: which issuer minted it.
    pub token_type: Option<String>,
    /// Id the platform assigned to `token`, if the platform minted it.
    pub token_id: Option<String>,
}

/// What the session needs next to finish bootstrapping.
#[derive(Clone, Copy, Debug, PartialEq, Eq, Structural)]
pub enum BootstrapAction {
    /// Mint a platform token via the remote service, using the current
    /// token as the bearer credential for that call.
    Normalize,
    /// Fetch the identity snapshot via the remote "who am I" lookup.
    FetchIdentity,
    /// Nothing left to do: the cached identity is the result.
    Done,
}

/// The outcome of the remote call an action asked for.
pub enum BootstrapEvent {
    /// Token creation succeeded: the fresh secret and, if the response
    /// carried a token description, its id.
    TokenCreated { secret: String, token_id: Option<String> },
    /// Token creation failed.
    TokenCreateFailed,
    /// The "who am I" lookup succeeded.
    IdentityFetched { user: UserState },
    /// The "who am I" lookup failed.
    IdentityFetchFailed,
}

/// The provenance tag of tokens the platform mints for itself.
pub open spec fn spec_expected_token_type() -> Seq<char> {
    "aruna"@
}

/// The provenance tag a bootstrapped session must carry.
pub fn expected_token_type() -> (r: String)
    ensures
        r@ == spec_expected_token_type(),
{
    "aruna".to_owned()
}

/// Whether the session's token must be replaced by a platform-minted one:
/// a provenance tag is recorded and it is not the platform's own.
pub open spec fn spec_needs_normalization(s: SessionData) -> bool {
    s.token_type matches Some(t) && t@ != spec_expected_token_type()
}

/// The next bootstrap step for a session: no token at all is an
/// authentication failure; a token of foreign provenance is normalized
/// first; then a cached identity finishes, and a missing one is fetched.
pub open spec fn spec_bootstrap_action(s: SessionData) -> Result<BootstrapAction, RequestError> {
    if s.token is None {
        Err(RequestError::AuthenticationError)
    } else if spec_needs_normalization(s) {
        Ok(BootstrapAction::Normalize)
    } else if s.user_info is Some {
        Ok(BootstrapAction::Done)
    } else {
        Ok(BootstrapAction::FetchIdentity)
    }
}

/// How many remote calls a bootstrap run starting from this session will
/// make if every call succeeds: one to normalize the token when the
/// provenance is foreign, one to fetch the identity when none is cached.
pub open spec fn spec_bootstrap_remote_calls(s: SessionData) -> nat {
    (if spec_needs_normalization(s) {
        1nat
    } else {
        0nat
    }) + (if s.user_info is Some {
        0nat
    } else {
        1nat
    })
}

/// Decides the next bootstrap step. Reads the session only; a missing
/// token is rejected here, before any remote call.
pub fn bootstrap_action(s: &SessionData) -> (r: Result<BootstrapAction, RequestError>)
    ensures
        r == spec_bootstrap_action(*s),
{
    if s.token.is_none() {
        return Err(RequestError::AuthenticationError);
    }
    let expected = expected_token_type();
    match &s.token_type {
        Some(t) => {
            if !(*t == expected) {
                return Ok(BootstrapAction::Normalize);
            }
        },
        None => {},
    }
    if s.user_info.is_some() {
        Ok(BootstrapAction::Done)
    } else {
        Ok(BootstrapAction::FetchIdentity)
    }
}

/// Folds the outcome of a remote call into the session. A fresh token
/// overwrites the token, its provenance tag and its id, and leaves the
/// cached identity alone; a fetched identity is cached and leaves the
/// token fields alone; a failed call changes nothing and surfaces as an
/// upstream failure.
pub fn bootstrap_apply(s: &mut SessionData, ev: BootstrapEvent) -> (r: Result<(), RequestError>)
    ensures
        ev matches BootstrapEvent::TokenCreated { secret, token_id } ==> r == Ok::<(),
            RequestError,
        >(())
            && final(s).token == Some(secret)
            && final(s).user_info == old(s).user_info
            && (final(s).token_type matches Some(tt) && tt@ == spec_expected_token_type())
            && !spec_needs_normalization(*final(s))
            && (match token_id {
                Some(i) => final(s).token_id == Some(i),
                None => final(s).token_id matches Some(z) && z@ == Seq::<char>::empty(),
            }),
        ev matches BootstrapEvent::IdentityFetched { user } ==> r == Ok::<(), RequestError>(())
            && final(s).user_info == Some(user)
            && final(s).token == old(s).token
            && final(s).token_type == old(s).token_type
            && final(s).token_id == old(s).token_id,
        ev is TokenCreateFailed ==> r == Err::<(), RequestError>(RequestError::UpstreamError)
            && *final(s) == *old(s),
        ev is IdentityFetchFailed ==> r == Err::<(), RequestError>(RequestError::UpstreamError)
            && *final(s) == *old(s),
{
    match ev {
        BootstrapEvent::TokenCreated { secret, token_id } => {
            s.token = Some(secret);
            s.token_type = Some(expected_token_type());
            s.token_id = Some(
                match token_id {
                    Some(i) => i,
                    None => String::new(),
                },
            );
            Ok(())
        },
        BootstrapEvent::TokenCreateFailed => Err(RequestError::UpstreamError),
        BootstrapEvent::IdentityFetched { user } => {
            s.user_info = Some(user);
            Ok(())
        },
        BootstrapEvent::IdentityFetchFailed => Err(RequestError::UpstreamError),
    }
}

/// Bootstrap is idempotent on a settled session: when the token is
/// present and platform-minted and the identity is cached, the next step
/// is `Done` and the run makes zero remote calls. `Done` writes nothing,
/// so a second bootstrap sees the same session and again makes zero
/// remote calls.
pub proof fn lemma_bootstrap_idempotent(s: SessionData)
    requires
        s.token is Some,
        !spec_needs_normalization(s),
        s.user_info is Some,
    ensures
        spec_bootstrap_action(s) == Ok::<BootstrapAction, RequestError>(BootstrapAction::Done),
        spec_bootstrap_remote_calls(s) == 0,
{
}

/// After a successful normalization step the session never asks to
/// normalize again: the fresh token carries the platform's own tag.
pub proof fn lemma_normalization_settles(before: SessionData, after: SessionData)
    requires
        !spec_needs_normalization(after),
        after.user_info == before.user_info,
        after.token is Some,
    ensures
        spec_bootstrap_action(after) != Ok::<BootstrapAction, RequestError>(
            BootstrapAction::Normalize,
        ),
        before.user_info is Some ==> spec_bootstrap_action(after) == Ok::<
            BootstrapAction,
            RequestError,
        >(BootstrapAction::Done),
{
}

} // verus!
