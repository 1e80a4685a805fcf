//! What the client carries: the inbound markers, and the navigation target
//! and high-water mark resolved from them.

use vstd::prelude::*;
use crate::error::Error;
use crate::guests::GuestId;
use crate::text::{parse_i64, parsed_i64};
use crate::vtubers::VTuberId;

verus! {

/// The candidate shown when nothing else names one.
pub const FIRST_CANDIDATE: i64 = 1;

/// The marker values that a request carries, each absent where the request
/// lacks it.
#[derive(Debug, Clone, PartialEq)]
pub struct InboundMarkers {
    pub id: Option<String>,
    pub current: Option<String>,
    pub last_visited: Option<String>,
    pub max_visited: Option<String>,
}

pub open spec fn marker_text(m: Option<String>) -> Option<Seq<char>> {
    match m {
        Some(s) => Some(s@),
        None => None,
    }
}

/// The id that a marker holds; a malformed value counts as absent.
pub open spec fn marker_id(m: Option<Seq<char>>) -> Option<i64> {
    match m {
        Some(t) => parsed_i64(t),
        None => None,
    }
}

/// Reads an id from a marker; `None` where it is absent or malformed.
pub fn parse_marker(m: &Option<String>) -> (r: Option<i64>)
    ensures
        r == marker_id(marker_text(*m)),
{
    match m {
        Some(t) => parse_i64(t.as_str()),
        None => None,
    }
}

/// The target that the `current` and `last_visited` markers name, if any:
/// `current` first.
pub open spec fn marked_target(current: Option<Seq<char>>, last_visited: Option<Seq<char>>) -> Option<VTuberId> {
    match marker_id(current) {
        Some(id) => Some(VTuberId::Current(id)),
        None => match marker_id(last_visited) {
            Some(id) => Some(VTuberId::LastVisited(id)),
            None => None,
        },
    }
}

/// The navigation target of a request: a parseable path segment wins, then
/// the `current` marker, then `last_visited`, then the first candidate.
pub open spec fn navigation_of(
    path: Option<Seq<char>>,
    current: Option<Seq<char>>,
    last_visited: Option<Seq<char>>,
) -> VTuberId {
    match marker_id(path) {
        Some(id) => VTuberId::Current(id),
        None => match marked_target(current, last_visited) {
            Some(target) => target,
            None => VTuberId::Current(FIRST_CANDIDATE),
        },
    }
}

/// Neither navigation marker holds an id.
#[derive(Debug, Clone, Copy, PartialEq, Eq, Structural)]
pub enum VTuberIdError {
    Missing,
}

impl VTuberId {
    /// The target that the navigation markers name.
    pub fn from_markers(markers: &InboundMarkers) -> (r: Result<VTuberId, VTuberIdError>)
        ensures
            r == (match marked_target(marker_text(markers.current), marker_text(markers.last_visited)) {
                Some(target) => Ok(target),
                None => Err(VTuberIdError::Missing),
            }),
    {
        match parse_marker(&markers.current) {
            Some(id) => Ok(VTuberId::Current(id)),
            None => match parse_marker(&markers.last_visited) {
                Some(id) => Ok(VTuberId::LastVisited(id)),
                None => Err(VTuberIdError::Missing),
            },
        }
    }
}

/// Resolves the navigation target of a request from its path segment, if
/// it has one, and its markers.
pub fn resolve_navigation(path: Option<&str>, markers: &InboundMarkers) -> (r: VTuberId)
    ensures
        r == navigation_of(
            match path {
                Some(p) => Some(p@),
                None => None,
            },
            marker_text(markers.current),
            marker_text(markers.last_visited),
        ),
{
    let from_path = match path {
        Some(p) => parse_i64(p),
        None => None,
    };
    match from_path {
        Some(id) => VTuberId::Current(id),
        None => match VTuberId::from_markers(markers) {
            Ok(target) => target,
            Err(_) => VTuberId::Current(FIRST_CANDIDATE),
        },
    }
}

/// The high-water mark that a marker declares; the first candidate where it
/// is absent or malformed.
pub open spec fn declared_max(max_visited: Option<Seq<char>>) -> i64 {
    match marker_id(max_visited) {
        Some(m) => m,
        None => FIRST_CANDIDATE,
    }
}

/// Whether the guest may view the target: a candidate in view must not lie
/// beyond the high-water mark.
pub open spec fn view_authorization(target: VTuberId, max_visited: i64) -> Result<(), Error> {
    match target {
        VTuberId::Current(id) => if max_visited < id {
            Err(Error::MaxVisitedIsLessThanCurrent)
        } else {
            Ok(())
        },
        VTuberId::LastVisited(_) => Ok(()),
    }
}

/// Checks that the guest may view the target.
pub fn authorize_view(target: VTuberId, max_visited: i64) -> (r: Result<(), Error>)
    ensures
        r == view_authorization(target, max_visited),
{
    match target {
        VTuberId::Current(id) => if max_visited < id {
            Err(Error::MaxVisitedIsLessThanCurrent)
        } else {
            Ok(())
        },
        VTuberId::LastVisited(_) => Ok(()),
    }
}

/// What a request carries once its identity and navigation are resolved.
#[derive(Debug, Clone, PartialEq)]
pub struct ClientData {
    pub guest_id: String,
    pub vtuber_id: VTuberId,
    /// The high-water mark that the client declares.
    pub max_visited: i64,
    /// The high-water mark marker as sent, if the client sent a readable one.
    pub prior_max_visited: Option<i64>,
}

impl ClientData {
    /// Gathers a request's resolved identity, navigation target and
    /// high-water mark.
    pub fn new(guest_id: GuestId, path: Option<&str>, markers: &InboundMarkers) -> (r: ClientData)
        ensures
            r.guest_id == guest_id.0,
            r.vtuber_id == navigation_of(
                match path {
                    Some(p) => Some(p@),
                    None => None,
                },
                marker_text(markers.current),
                marker_text(markers.last_visited),
            ),
            r.max_visited == declared_max(marker_text(markers.max_visited)),
            r.prior_max_visited == marker_id(marker_text(markers.max_visited)),
    {
        let vtuber_id = resolve_navigation(path, markers);
        let prior_max_visited = parse_marker(&markers.max_visited);
        let max_visited = match prior_max_visited {
            Some(m) => m,
            None => FIRST_CANDIDATE,
        };
        ClientData { guest_id: guest_id.0, vtuber_id, max_visited, prior_max_visited }
    }
}

} // verus!
