//! Ballots: the guest's action on a candidate, how a submitted form reads as
//! a ballot, and the aggregate shown for a candidate once acted upon.

use vstd::prelude::*;
use crate::text::{parse_i64, parsed_i64, same_text};

verus! {

/// A guest's action on a candidate.
#[derive(Debug, Clone, Copy, PartialEq, Eq, Structural)]
pub enum UserAction {
    /// In favour (`"smashed"` on the wire).
    Smashed,
    /// Rejected (`"passed"` on the wire).
    Passed,
}

/// The action that a form or data-layer text names, if it names one.
pub open spec fn action_named(s: Seq<char>) -> Option<UserAction> {
    if s == "smashed"@ {
        Some(UserAction::Smashed)
    } else if s == "passed"@ {
        Some(UserAction::Passed)
    } else {
        None
    }
}

impl UserAction {
    /// Reads an action from its wire name.
    pub fn from(action: &str) -> (r: Option<UserAction>)
        ensures
            r == action_named(action@),
    {
        if same_text(action, "smashed") {
            Some(UserAction::Smashed)
        } else if same_text(action, "passed") {
            Some(UserAction::Passed)
        } else {
            None
        }
    }
}

/// Aggregate results for a candidate that has been acted upon.
#[derive(Debug, Clone, PartialEq)]
pub struct Stat {
    pub vtuber_id: i64,
    pub name: String,
    pub img: Option<String>,
    pub smashes: i64,
    pub passes: i64,
}

/// Why a submitted form does not read as a ballot.
#[derive(Debug, Clone, PartialEq)]
pub enum ParseError {
    /// No such action.
    InvalidAction(String),
    /// The candidate id is not an integer.
    InvalidVtuberIdFormat(String),
    /// The guest id is not a UUID.
    InvalidGuestIdFormat(String),
    /// A required field is absent.
    MissingField(String),
}

/// A `ParseError` with its text as characters.
pub enum ParseFailure {
    InvalidAction(Seq<char>),
    InvalidVtuberIdFormat(Seq<char>),
    InvalidGuestIdFormat(Seq<char>),
    MissingField(Seq<char>),
}

impl View for ParseError {
    type V = ParseFailure;

    open spec fn view(&self) -> ParseFailure {
        match self {
            ParseError::InvalidAction(s) => ParseFailure::InvalidAction(s@),
            ParseError::InvalidVtuberIdFormat(s) => ParseFailure::InvalidVtuberIdFormat(s@),
            ParseError::InvalidGuestIdFormat(s) => ParseFailure::InvalidGuestIdFormat(s@),
            ParseError::MissingField(s) => ParseFailure::MissingField(s@),
        }
    }
}

/// A ballot: one guest's action on one candidate.
#[derive(Debug, Clone, Copy, PartialEq, Eq, Structural)]
pub struct Vote {
    pub vtuber_id: i64,
    /// The guest's UUID as its 128-bit value.
    pub guest_id: u128,
    pub action: UserAction,
}

/// The text fields of a submitted ballot form, each absent where the form
/// lacks it or holds no text there.
#[derive(Debug, Clone, PartialEq)]
pub struct BallotForm {
    pub vtuber_id: Option<String>,
    pub guest_id: Option<String>,
    pub action: Option<String>,
}

pub open spec fn text_of(field: Option<String>) -> Option<Seq<char>> {
    match field {
        Some(s) => Some(s@),
        None => None,
    }
}

/// The UUID that a text denotes, as its 128-bit value.
pub uninterp spec fn uuid_value(s: Seq<char>) -> Option<u128>;

/// Relies on `uuid::Uuid::parse_str` to read a UUID in any of the forms it
/// accepts, and on `Uuid::as_u128` for its value; depends on the text alone.
#[verifier::external_body]
fn parse_uuid(s: &str) -> (r: Option<u128>)
    ensures
        r == uuid_value(s@),
{
    match uuid::Uuid::parse_str(s) {
        Ok(u) => Some(u.as_u128()),
        Err(_) => None,
    }
}

/// How a form reads as a ballot, given what its guest id reads as. The
/// candidate id is checked first; then a missing guest id, then a missing
/// action; then the action's name, then the guest id's form.
pub open spec fn ballot_read(
    vtuber_id: Option<Seq<char>>,
    guest_id: Option<Seq<char>>,
    action: Option<Seq<char>>,
    guest_uuid: Option<u128>,
) -> Result<Vote, ParseFailure> {
    match vtuber_id {
        None => Err(ParseFailure::MissingField("vtuber_id"@)),
        Some(t) => match parsed_i64(t) {
            None => Err(ParseFailure::InvalidVtuberIdFormat(t)),
            Some(id) => match (guest_id, action) {
                (Some(g), Some(a)) => match action_named(a) {
                    None => Err(ParseFailure::InvalidAction(a)),
                    Some(act) => match guest_uuid {
                        None => Err(ParseFailure::InvalidGuestIdFormat(g)),
                        Some(u) => Ok(Vote { vtuber_id: id, guest_id: u, action: act }),
                    },
                },
                (None, _) => Err(ParseFailure::MissingField("guest_id"@)),
                (_, None) => Err(ParseFailure::MissingField("action"@)),
            },
        },
    }
}

pub open spec fn read_view(r: Result<Vote, ParseError>) -> Result<Vote, ParseFailure> {
    match r {
        Ok(v) => Ok(v),
        Err(e) => Err(e@),
    }
}

impl BallotForm {
    pub open spec fn guest_uuid(&self) -> Option<u128> {
        match self.guest_id {
            Some(g) => uuid_value(g@),
            None => None,
        }
    }
}

impl Vote {
    /// Reads a ballot from a form.
    pub fn from(form: BallotForm) -> (r: Result<Vote, ParseError>)
        ensures
            read_view(r) == ballot_read(
                text_of(form.vtuber_id),
                text_of(form.guest_id),
                text_of(form.action),
                form.guest_uuid(),
            ),
    {
        let guest_uuid = match &form.guest_id {
            Some(g) => parse_uuid(g.as_str()),
            None => None,
        };
        Vote::from_parts(form, guest_uuid)
    }

    /// Reads a ballot from a form whose guest id reads as `guest_uuid`.
    pub fn from_parts(form: BallotForm, guest_uuid: Option<u128>) -> (r: Result<Vote, ParseError>)
        ensures
            read_view(r) == ballot_read(
                text_of(form.vtuber_id),
                text_of(form.guest_id),
                text_of(form.action),
                guest_uuid,
            ),
    {
        let vtuber_id = match form.vtuber_id {
            None => {
                return Err(ParseError::MissingField(String::from_str("vtuber_id")));
            },
            Some(t) => match parse_i64(t.as_str()) {
                None => {
                    return Err(ParseError::InvalidVtuberIdFormat(t));
                },
                Some(id) => id,
            },
        };
        match (form.guest_id, form.action) {
            (Some(g), Some(a)) => {
                let action = match UserAction::from(a.as_str()) {
                    None => {
                        return Err(ParseError::InvalidAction(a));
                    },
                    Some(act) => act,
                };
                match guest_uuid {
                    None => Err(ParseError::InvalidGuestIdFormat(g)),
                    Some(u) => Ok(Vote { vtuber_id, guest_id: u, action }),
                }
            },
            (None, _) => Err(ParseError::MissingField(String::from_str("guest_id"))),
            (_, None) => Err(ParseError::MissingField(String::from_str("action"))),
        }
    }
}

} // verus!
