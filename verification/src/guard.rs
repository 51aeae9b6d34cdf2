//! The guard before a protected handler: it reads the `authorization`
//! header of a request and lets the request pass only with a valid token.

use crate::error::Status;
use crate::token::{
    is_compact_token, validation, without_scheme, AuthObject, TokenError, TokenService,
};
use vstd::prelude::*;

verus! {

/// Why the guard turned a request away.
#[derive(Clone, Copy, Debug, PartialEq, Eq, Structural)]
pub enum GuardError {
    /// The request has no `authorization` header.
    MissingCredential,
    /// The header holds no valid token.
    Unauthorized,
}

impl GuardError {
    /// The status that the refusal has at the boundary.
    pub open spec fn spec_status(self) -> Status {
        match self {
            GuardError::MissingCredential => Status::BadRequest,
            GuardError::Unauthorized => Status::Unauthorized,
        }
    }

    /// The status that the refusal has at the boundary.
    #[verifier::when_used_as_spec(spec_status)]
    pub fn status(self) -> (s: Status)
        ensures
            s == self.spec_status(),
    {
        match self {
            GuardError::MissingCredential => Status::BadRequest,
            GuardError::Unauthorized => Status::Unauthorized,
        }
    }

    /// The words that go with the refusal.
    pub fn message(self) -> (m: &'static str)
        ensures
            m@ == (match self {
                GuardError::MissingCredential => "Authorization header not found"@,
                GuardError::Unauthorized => "User is not authorized"@,
            }),
    {
        match self {
            GuardError::MissingCredential => "Authorization header not found",
            GuardError::Unauthorized => "User is not authorized",
        }
    }
}

/// What the guard decides for a request with the given `authorization`
/// header, if any, at the time `now`.
pub open spec fn guarded(secret: Seq<u8>, header: Option<Seq<char>>, now: u64) -> Result<
    Seq<char>,
    GuardError,
> {
    match header {
        None => Err(GuardError::MissingCredential),
        Some(value) => match validation(secret, value, now) {
            Ok(user) => Ok(user),
            Err(_) => Err(GuardError::Unauthorized),
        },
    }
}

impl AuthObject {
    /// Decides on a request at the time `now`. `authorization` is the value
    /// of the request's `authorization` header, or `None` where it has none.
    /// The guard looks nothing up: the subject is the token's claim.
    pub fn from_request_at(
        service: &TokenService,
        authorization: Option<&str>,
        now: u64,
    ) -> (r: Result<AuthObject, GuardError>)
        ensures
            r is Ok ==> authorization is Some && is_compact_token(
                without_scheme(authorization->0@),
            ),
            match r {
                Ok(auth) => auth.authorized && guarded(
                    service.secret(),
                    authorization.deep_view(),
                    now,
                ) == Ok::<Seq<char>, GuardError>(auth.user@),
                Err(e) => guarded(service.secret(), authorization.deep_view(), now) == Err::<
                    Seq<char>,
                    GuardError,
                >(e),
            },
    {
        match authorization {
            None => Err(GuardError::MissingCredential),
            Some(value) => match service.validate_at(value, now) {
                Ok(user) => Ok(AuthObject { authorized: true, user }),
                Err(_) => Err(GuardError::Unauthorized),
            },
        }
    }

    /// Decides on a request at the time the clock shows.
    pub fn from_request(service: &TokenService, authorization: Option<&str>) -> (r: Result<
        AuthObject,
        GuardError,
    >)
        ensures
            r is Ok ==> authorization is Some && is_compact_token(
                without_scheme(authorization->0@),
            ),
            authorization is None ==> r == Err::<AuthObject, GuardError>(
                GuardError::MissingCredential,
            ),
            authorization matches Some(value) ==> match r {
                Ok(auth) => auth.authorized && exists|now: u64| #[trigger]
                    validation(service.secret(), value@, now) == Ok::<Seq<char>, TokenError>(
                        auth.user@,
                    ),
                Err(e) => e == GuardError::Unauthorized,
            },
    {
        match authorization {
            None => Err(GuardError::MissingCredential),
            Some(value) => match service.validate(value) {
                Ok(user) => Ok(AuthObject { authorized: true, user }),
                Err(_) => Err(GuardError::Unauthorized),
            },
        }
    }
}

} // verus!
