//! The kinds of failure, and the status that each has at the transport
//! boundary.

use vstd::prelude::*;

verus! {

/// The status codes that the boundary answers a failure with.
#[derive(Clone, Copy, Debug, PartialEq, Eq, Structural)]
pub enum Status {
    BadRequest,
    Unauthorized,
    NotFound,
    Conflict,
    InternalServerError,
}

impl Status {
    /// The number of the status.
    pub open spec fn spec_code(self) -> u16 {
        match self {
            Status::BadRequest => 400,
            Status::Unauthorized => 401,
            Status::NotFound => 404,
            Status::Conflict => 409,
            Status::InternalServerError => 500,
        }
    }

    /// The number of the status.
    #[verifier::when_used_as_spec(spec_code)]
    pub fn code(self) -> (code: u16)
        ensures
            code == self.spec_code(),
    {
        match self {
            Status::BadRequest => 400,
            Status::Unauthorized => 401,
            Status::NotFound => 404,
            Status::Conflict => 409,
            Status::InternalServerError => 500,
        }
    }
}

/// Why the store gave no answer to a request.
#[derive(Clone, Copy, Debug, PartialEq, Eq, Structural)]
pub enum StoreFault {
    /// The store could not be reached, or the exchange with it failed.
    Unavailable,
    /// The store refused a write that would break a uniqueness constraint.
    Duplicate,
}

/// The kinds of failure of the repository and of what is built on it.
#[derive(Clone, Copy, Debug, PartialEq, Eq, Structural)]
pub enum RepoError {
    /// An identifier, a token or a hash is malformed.
    Validation,
    /// No record matches.
    NotFound,
    /// The token is missing, invalid or expired, or the credentials do not
    /// match.
    Unauthorized,
    /// A uniqueness constraint of the store would be broken.
    Conflict,
    /// The store could not be reached.
    StoreUnavailable,
}

impl RepoError {
    /// The kind of failure that a fault of the store is reported as.
    pub open spec fn spec_from_fault(fault: StoreFault) -> RepoError {
        match fault {
            StoreFault::Unavailable => RepoError::StoreUnavailable,
            StoreFault::Duplicate => RepoError::Conflict,
        }
    }

    /// The kind of failure that a fault of the store is reported as.
    #[verifier::when_used_as_spec(spec_from_fault)]
    pub fn from_fault(fault: StoreFault) -> (e: RepoError)
        ensures
            e == RepoError::spec_from_fault(fault),
    {
        match fault {
            StoreFault::Unavailable => RepoError::StoreUnavailable,
            StoreFault::Duplicate => RepoError::Conflict,
        }
    }

    /// The status that the failure has at the boundary.
    pub open spec fn spec_status(self) -> Status {
        match self {
            RepoError::Validation => Status::BadRequest,
            RepoError::NotFound => Status::NotFound,
            RepoError::Unauthorized => Status::Unauthorized,
            RepoError::Conflict => Status::Conflict,
            RepoError::StoreUnavailable => Status::InternalServerError,
        }
    }

    /// The status that the failure has at the boundary.
    #[verifier::when_used_as_spec(spec_status)]
    pub fn status(self) -> (s: Status)
        ensures
            s == self.spec_status(),
    {
        match self {
            RepoError::Validation => Status::BadRequest,
            RepoError::NotFound => Status::NotFound,
            RepoError::Unauthorized => Status::Unauthorized,
            RepoError::Conflict => Status::Conflict,
            RepoError::StoreUnavailable => Status::InternalServerError,
        }
    }
}

} // verus!
