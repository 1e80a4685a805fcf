//! The failures that reach the response layer, and the status each maps to.

use vstd::prelude::*;
use crate::ballot::VoteError;
use crate::guests::IdentityError;
use crate::vote::ParseError;
use crate::vtubers;

verus! {

/// Every failure that a request can end in.
#[derive(Debug, Clone, PartialEq)]
pub enum Error {
    /// A query to the store failed.
    UnableToQuery,
    /// The store's connection could not be set up.
    FailedToSetupDb,
    /// The guest is not registered.
    InvalidGuest,
    /// No connection could be had from the pool.
    PoolError,
    /// The ballot form does not read as a ballot.
    VoteParseError(ParseError),
    /// The ballot was refused or may have failed.
    VoteError(VoteError),
    /// The store's handle is missing from the request.
    MissingDbHandleExtension,
    /// The requested candidate lies beyond the guest's high-water mark.
    MaxVisitedIsLessThanCurrent,
    /// The form could not be read.
    InvalidForm,
    /// The form is not an object of fields.
    InvalidFormFormat,
    /// A request extension is missing.
    MissingExtension,
    /// No stack could be built.
    FailedToParseStack(vtubers::Error),
    /// The stack's data could not be decoded.
    StackParseFailed,
    /// The client's markers admit no legal encoding.
    InvalidClientData,
    /// The ballot targets a candidate beyond the guest's high-water mark.
    NotAllowedToVote,
    /// Identity could not be resolved.
    Identity(IdentityError),
}

impl Error {
    /// The HTTP status for this failure.
    pub open spec fn status(&self) -> u16 {
        match self {
            Error::UnableToQuery => 500,
            Error::FailedToSetupDb => 500,
            Error::InvalidGuest => 401,
            Error::PoolError => 500,
            Error::VoteParseError(_) => 422,
            Error::VoteError(e) => match e {
                VoteError::NotAllowedToVote => 403,
                VoteError::InvalidGuest => 401,
                VoteError::QueryFailed => 500,
                VoteError::InvalidResultShape => 500,
            },
            Error::MissingDbHandleExtension => 500,
            Error::MaxVisitedIsLessThanCurrent => 403,
            Error::InvalidForm => 400,
            Error::InvalidFormFormat => 422,
            Error::MissingExtension => 500,
            Error::FailedToParseStack(_) => 500,
            Error::StackParseFailed => 500,
            Error::InvalidClientData => 422,
            Error::NotAllowedToVote => 403,
            Error::Identity(_) => 500,
        }
    }

    /// Whether this failure denies the guest access (an authorization or
    /// ordering failure).
    pub open spec fn denies_access(&self) -> bool {
        self.status() == 401 || self.status() == 403
    }

    /// The HTTP status for this failure.
    pub fn status_code(&self) -> (r: u16)
        ensures
            r == self.status(),
    {
        match self {
            Error::UnableToQuery => 500,
            Error::FailedToSetupDb => 500,
            Error::InvalidGuest => 401,
            Error::PoolError => 500,
            Error::VoteParseError(_) => 422,
            Error::VoteError(e) => match e {
                VoteError::NotAllowedToVote => 403,
                VoteError::InvalidGuest => 401,
                VoteError::QueryFailed => 500,
                VoteError::InvalidResultShape => 500,
            },
            Error::MissingDbHandleExtension => 500,
            Error::MaxVisitedIsLessThanCurrent => 403,
            Error::InvalidForm => 400,
            Error::InvalidFormFormat => 422,
            Error::MissingExtension => 500,
            Error::FailedToParseStack(_) => 500,
            Error::StackParseFailed => 500,
            Error::InvalidClientData => 422,
            Error::NotAllowedToVote => 403,
            Error::Identity(_) => 500,
        }
    }
}

impl ParseError {
    /// The HTTP status for a form that does not read as a ballot.
    pub fn status_code(&self) -> (r: u16)
        ensures
            r == 400,
    {
        match self {
            ParseError::InvalidAction(_) => 400,
            ParseError::MissingField(_) => 400,
            ParseError::InvalidVtuberIdFormat(_) => 400,
            ParseError::InvalidGuestIdFormat(_) => 400,
        }
    }
}

} // verus!
