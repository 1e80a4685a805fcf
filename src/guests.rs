//! Anonymous guest identity: taken from the inbound marker when present,
//! created by the data layer when not.

use vstd::prelude::*;
use crate::text::same_text;

verus! {

/// A token that identifies an anonymous visitor.
#[derive(Debug, Clone, PartialEq)]
pub struct GuestId(pub String);

/// A guest record as the data layer creates it.
#[derive(Debug, Clone, PartialEq)]
pub struct Guest {
    pub guest_id: GuestId,
}

/// The first step of resolving an identity.
#[derive(Debug, Clone, PartialEq)]
pub enum IdentityStep {
    /// The markers carry an identity: use it unchanged.
    Known(GuestId),
    /// The markers carry none: the data layer must create one.
    Create,
}

/// An identity together with whether it was created for this request.
#[derive(Debug, Clone, PartialEq)]
pub struct ResolvedGuest {
    pub guest_id: GuestId,
    pub newly_created: bool,
}

/// Identity could not be resolved: the data layer allocated no guest.
#[derive(Debug, Clone, Copy, PartialEq, Eq, Structural)]
pub enum IdentityError {
    IdentityCreationFailed,
}

/// The first step for an inbound identity marker.
pub open spec fn identity_step(id_marker: Option<String>) -> IdentityStep {
    match id_marker {
        Some(s) => IdentityStep::Known(GuestId(s)),
        None => IdentityStep::Create,
    }
}

/// Takes the identity from its marker, or asks for a new one.
pub fn resolve_identity(id_marker: Option<String>) -> (r: IdentityStep)
    ensures
        r == identity_step(id_marker),
{
    match id_marker {
        Some(s) => IdentityStep::Known(GuestId(s)),
        None => IdentityStep::Create,
    }
}

/// The identity once the first step has been carried out.
pub open spec fn identity_outcome(step: IdentityStep, created: Option<Guest>) -> Result<ResolvedGuest, IdentityError> {
    match step {
        IdentityStep::Known(guest_id) => Ok(ResolvedGuest { guest_id, newly_created: false }),
        IdentityStep::Create => match created {
            Some(guest) => Ok(ResolvedGuest { guest_id: guest.guest_id, newly_created: true }),
            None => Err(IdentityError::IdentityCreationFailed),
        },
    }
}

/// Completes identity resolution. `created` is what the data layer returned
/// when asked to create a guest (`None` where it could not); it is only
/// looked at when the step was `Create`.
pub fn finish_identity(step: IdentityStep, created: Option<Guest>) -> (r: Result<ResolvedGuest, IdentityError>)
    ensures
        r == identity_outcome(step, created),
{
    match step {
        IdentityStep::Known(guest_id) => Ok(ResolvedGuest { guest_id, newly_created: false }),
        IdentityStep::Create => match created {
            Some(guest) => Ok(ResolvedGuest { guest_id: guest.guest_id, newly_created: true }),
            None => Err(IdentityError::IdentityCreationFailed),
        },
    }
}

/// The answer to whether a guest is registered.
#[derive(Debug, Clone, Copy, PartialEq, Eq, Structural)]
pub enum GuestCheck {
    Valid,
    Invalid,
    Failed,
}

/// The SQLSTATE that the store reports for text that is no valid UUID.
pub open spec fn invalid_text_state() -> Seq<char> {
    "22P02"@
}

/// How a failed registry query reads: an id that the store cannot read as a
/// UUID is an invalid guest; any other failure is a failed query.
pub fn guest_check_failure(sqlstate: Option<&str>) -> (r: GuestCheck)
    ensures
        r == (match sqlstate {
            Some(code) => if code@ == invalid_text_state() {
                GuestCheck::Invalid
            } else {
                GuestCheck::Failed
            },
            None => GuestCheck::Failed,
        }),
{
    match sqlstate {
        Some(code) => if same_text(code, "22P02") {
            GuestCheck::Invalid
        } else {
            GuestCheck::Failed
        },
        None => GuestCheck::Failed,
    }
}

} // verus!
