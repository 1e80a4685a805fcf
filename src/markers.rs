//! The client state encoder: the markers written back with each response, so
//! that the next request can be resolved without a server-side session.

use vstd::prelude::*;
use crate::client_data::FIRST_CANDIDATE;
use crate::error::Error;
use crate::guests::GuestId;
use crate::text::{decimal_string, decimal_text};
use crate::vtubers::{Stack, VTuberId};

verus! {

/// How long each marker lives, in seconds: in effect for good.
pub const MARKER_MAX_AGE_SECONDS: i64 = 2147483647;

/// The value written for the navigation marker that is not active.
pub open spec fn none_text() -> Seq<char> {
    "none"@
}

/// A history with each run of equal neighbours kept once.
pub open spec fn dedup_adjacent(s: Seq<i64>) -> Seq<i64>
    decreases s.len(),
{
    if s.len() <= 1 {
        s
    } else if s.last() == s[s.len() - 2] {
        dedup_adjacent(s.drop_last())
    } else {
        dedup_adjacent(s.drop_last()).push(s.last())
    }
}

/// Ids in decimal, joined by commas without spaces; empty for no ids.
pub open spec fn joined(s: Seq<i64>) -> Seq<char>
    decreases s.len(),
{
    if s.len() == 0 {
        Seq::empty()
    } else if s.len() == 1 {
        decimal_text(s[0] as int)
    } else {
        joined(s.drop_last()) + seq![','] + decimal_text(s.last() as int)
    }
}

/// The `voted` marker: the history, deduplicated when a candidate is in view
/// and kept raw when resuming from the last visited.
pub open spec fn voted_text(target: VTuberId, history: Seq<i64>) -> Seq<char> {
    match target {
        VTuberId::Current(_) => joined(dedup_adjacent(history)),
        VTuberId::LastVisited(_) => joined(history),
    }
}

/// The high-water mark once `reached` has been shown.
pub open spec fn raised_max(prior: Option<i64>, reached: i64) -> i64 {
    match prior {
        Some(m) => if m >= reached {
            m
        } else {
            reached
        },
        None => reached,
    }
}

/// Keeps each run of equal neighbouring ids once.
pub fn dedup_history(ids: &Vec<i64>) -> (r: Vec<i64>)
    ensures
        r@ == dedup_adjacent(ids@),
{
    let mut r: Vec<i64> = Vec::new();
    let mut i: usize = 0;
    while i < ids.len()
        invariant
            i <= ids@.len(),
            r@ == dedup_adjacent(ids@.subrange(0, i as int)),
        decreases ids@.len() - i,
    {
        let ghost s = ids@.subrange(0, i + 1);
        assert(s.drop_last() =~= ids@.subrange(0, i as int));
        if i == 0 || ids[i] != ids[i - 1] {
            r.push(ids[i]);
            proof {
                if i == 0 {
                    assert(r@ =~= s);
                }
            }
        }
        i = i + 1;
    }
    assert(ids@.subrange(0, i as int) =~= ids@);
    r
}

/// Writes ids in decimal, joined by commas.
pub fn join_ids(ids: &Vec<i64>) -> (r: String)
    ensures
        r@ == joined(ids@),
{
    let mut r = String::new();
    let mut i: usize = 0;
    proof {
        reveal_strlit(",");
        assert(ids@.subrange(0, 0) =~= Seq::<i64>::empty());
    }
    while i < ids.len()
        invariant
            i <= ids@.len(),
            r@ == joined(ids@.subrange(0, i as int)),
            ","@ == seq![','],
        decreases ids@.len() - i,
    {
        let ghost s = ids@.subrange(0, i + 1);
        assert(s.drop_last() =~= ids@.subrange(0, i as int));
        if i > 0 {
            r.append(",");
        }
        let d = decimal_string(ids[i]);
        r.append(d.as_str());
        assert(r@ =~= joined(s));
        i = i + 1;
    }
    assert(ids@.subrange(0, i as int) =~= ids@);
    r
}

/// The markers for a response.
#[derive(Debug, Clone, PartialEq)]
pub struct ClientMarkers {
    /// The guest identity, written on every response.
    pub id: String,
    /// The candidate in view, or `"none"`.
    pub current: String,
    /// The candidate to resume from, or `"none"`.
    pub last_visited: String,
    /// The high-water mark, where it is to be written.
    pub max_visited: Option<String>,
    /// The comma-joined history, where it is to be written.
    pub voted: Option<String>,
}

/// Marker values as characters.
pub struct MarkerValues {
    pub id: Seq<char>,
    pub current: Seq<char>,
    pub last_visited: Seq<char>,
    pub max_visited: Option<Seq<char>>,
    pub voted: Option<Seq<char>>,
}

pub open spec fn optional_text(s: Option<String>) -> Option<Seq<char>> {
    match s {
        Some(t) => Some(t@),
        None => None,
    }
}

impl View for ClientMarkers {
    type V = MarkerValues;

    open spec fn view(&self) -> MarkerValues {
        MarkerValues {
            id: self.id@,
            current: self.current@,
            last_visited: self.last_visited@,
            max_visited: optional_text(self.max_visited),
            voted: optional_text(self.voted),
        }
    }
}

/// The markers for a response that shows `stack` to a guest whose navigation
/// was `target`; `None` where no legal encoding exists. A current candidate
/// becomes `current` and raises the high-water mark; without one, the
/// candidate that was in view becomes `last_visited`.
pub open spec fn encoded(guest: Seq<char>, target: VTuberId, stack: Stack, prior_max_visited: Option<i64>) -> Option<MarkerValues> {
    let voted = Some(voted_text(target, stack.history()));
    match stack.current_id() {
        Some(c) => Some(
            MarkerValues {
                id: guest,
                current: decimal_text(c as int),
                last_visited: none_text(),
                max_visited: Some(decimal_text(raised_max(prior_max_visited, c) as int)),
                voted,
            },
        ),
        None => match target.current() {
            Some(p) => Some(
                MarkerValues {
                    id: guest,
                    current: none_text(),
                    last_visited: decimal_text(p as int),
                    max_visited: None,
                    voted,
                },
            ),
            None => None,
        },
    }
}

/// Encodes the markers for a response that shows `stack`. Fails with
/// `InvalidClientData` where the stack has no current candidate and no
/// candidate was in view.
pub fn encode(guest_id: &GuestId, target: VTuberId, stack: &Stack, prior_max_visited: Option<i64>) -> (r: Result<ClientMarkers, Error>)
    ensures
        match r {
            Ok(m) => encoded(guest_id.0@, target, *stack, prior_max_visited) == Some(m@),
            Err(e) => e == Error::InvalidClientData && encoded(guest_id.0@, target, *stack, prior_max_visited) is None,
        },
{
    let history = stack.get_vote_list();
    let voted = match target {
        VTuberId::Current(_) => join_ids(&dedup_history(&history)),
        VTuberId::LastVisited(_) => join_ids(&history),
    };
    let id = guest_id.0.clone();
    match stack.get_current() {
        Some(v) => {
            let max = match prior_max_visited {
                Some(m) => if m >= v.id {
                    m
                } else {
                    v.id
                },
                None => v.id,
            };
            Ok(ClientMarkers {
                id,
                current: decimal_string(v.id),
                last_visited: String::from_str("none"),
                max_visited: Some(decimal_string(max)),
                voted: Some(voted),
            })
        },
        None => match target.get_current() {
            Some(p) => Ok(ClientMarkers {
                id,
                current: String::from_str("none"),
                last_visited: decimal_string(p),
                max_visited: None,
                voted: Some(voted),
            }),
            None => Err(Error::InvalidClientData),
        },
    }
}

/// The markers for a response that only passes the navigation on: the
/// active branch of `target` carries its id and the other `"none"`; a guest
/// with a candidate in view and no high-water mark yet gets the first
/// candidate as one.
pub open spec fn navigation_encoded(guest: Seq<char>, target: VTuberId, prior_max_visited: Option<i64>) -> MarkerValues {
    match target {
        VTuberId::Current(id) => MarkerValues {
            id: guest,
            current: decimal_text(id as int),
            last_visited: none_text(),
            max_visited: match prior_max_visited {
                Some(_) => None,
                None => Some(decimal_text(FIRST_CANDIDATE as int)),
            },
            voted: None,
        },
        VTuberId::LastVisited(id) => MarkerValues {
            id: guest,
            current: none_text(),
            last_visited: decimal_text(id as int),
            max_visited: None,
            voted: None,
        },
    }
}

/// Encodes the markers for a response that only passes the navigation on.
pub fn encode_navigation(guest_id: &GuestId, target: VTuberId, prior_max_visited: Option<i64>) -> (r: ClientMarkers)
    ensures
        r@ == navigation_encoded(guest_id.0@, target, prior_max_visited),
{
    let id = guest_id.0.clone();
    match target {
        VTuberId::Current(c) => ClientMarkers {
            id,
            current: decimal_string(c),
            last_visited: String::from_str("none"),
            max_visited: match prior_max_visited {
                Some(_) => None,
                None => Some(decimal_string(FIRST_CANDIDATE)),
            },
            voted: None,
        },
        VTuberId::LastVisited(p) => ClientMarkers {
            id,
            current: String::from_str("none"),
            last_visited: decimal_string(p),
            max_visited: None,
            voted: None,
        },
    }
}

} // verus!
