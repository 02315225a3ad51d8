//! The guard in front of the protected routes.
//!
//! A request starts unverified. It is either verified, and the wrapped handler
//! then runs with the identity taken from the request's own token, or it is
//! rejected, and the handler does not run.

use crate::auth_claim::{extracted, header_text, AuthError, ClaimSet, Claims, Keys, UNAUTHORIZED};
use vstd::prelude::*;

verus! {

/// The authenticated user on whose behalf a request is handled: the verified
/// claims of the request's token.
#[derive(Debug, Clone, PartialEq, Eq)]
pub struct CurrentUser {
    /// Subject, organization and expiry, as the token carries them.
    pub claims: Claims,
}

/// Decides on a request from what the extraction of its claims gave: claims
/// are bound as the current user, any failure rejects the request as
/// unauthorized.
pub fn bind_user(claims: Result<Claims, AuthError>) -> (r: Result<CurrentUser, u16>)
    ensures
        match claims {
            Ok(c) => r matches Ok(user) && user.claims@ == c@,
            Err(_) => r == Err::<CurrentUser, u16>(401),
        },
{
    match claims {
        Ok(c) => Ok(CurrentUser { claims: c }),
        Err(_) => Err(UNAUTHORIZED),
    }
}

/// Whether `out` is what `next` returned when it was run with a user who
/// holds the claims `c`.
pub open spec fn ran_as<R, F: FnOnce(CurrentUser) -> R>(next: F, c: ClaimSet, out: R) -> bool {
    exists|user: CurrentUser| user.claims@ == c && #[trigger] call_ensures(next, (user,), out)
}

/// Guards `next` by the bearer token of a request.
///
/// `authorization` is the value of the request's first `Authorization`
/// header. If it carries a token that decodes under `keys` at time `now`,
/// `next` is run once with the claims of this token, and what it returns is
/// handed back. Otherwise `next` is dropped without being run and the status
/// 401 is returned.
///
/// `next` need only accept the user that the request's own token names: of a
/// request that is rejected nothing is asked of it, so it cannot be run.
pub fn auth<R, F: FnOnce(CurrentUser) -> R>(
    authorization: Option<&str>,
    keys: &Keys,
    now: u64,
    next: F,
) -> (r: Result<R, u16>)
    requires
        extracted(header_text(authorization), keys@, now) matches Ok(c) ==> forall|
            user: CurrentUser,
        |
            user.claims@ == c ==> call_requires(next, (user,)),
    ensures
        match r {
            Ok(out) => extracted(header_text(authorization), keys@, now) matches Ok(c) && ran_as(
                next,
                c,
                out,
            ),
            Err(status) => status == 401 && extracted(header_text(authorization), keys@, now)
                is Err,
        },
{
    let claims = Claims::from_request_parts(authorization, keys, now);
    match bind_user(claims) {
        Ok(user) => {
            let ghost bound = user;
            let out = next(user);
            assert(call_ensures(next, (bound,), out));
            Ok(out)
        },
        Err(status) => Err(status),
    }
}

} // verus!
