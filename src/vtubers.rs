//! Candidates, the navigation target, and the stack: the snapshot of what to
//! render next, normalised from what the data layer returns.

use vstd::prelude::*;
use crate::vote::{Stat, UserAction};

verus! {

/// A votable candidate, with its neighbours in the traversal order.
#[derive(Debug, Clone, PartialEq)]
pub struct VTuber {
    pub id: i64,
    pub name: String,
    pub description: String,
    pub org_name: String,
    pub next: Option<i64>,
    pub prev: Option<i64>,
    pub img: String,
}

/// A snapshot as the data layer returns it: each part may be absent.
#[derive(Debug, Clone, PartialEq)]
pub struct StackSnapshot {
    /// The candidate to show now.
    pub current: Option<VTuber>,
    /// Results for the candidate acted upon before it.
    pub results: Option<Stat>,
    /// The candidates this guest has acted upon, in order.
    pub voted: Vec<i64>,
    /// The guest's own action on the current candidate.
    pub vote_for_current: Option<UserAction>,
}

/// What to render next. A snapshot with neither a current candidate nor
/// previous results has no shape here.
#[derive(Debug, Clone, PartialEq)]
pub enum Stack {
    /// The first candidate ever shown to this guest.
    NoPrev { current: VTuber, voted: Vec<i64>, vote_for_current: Option<UserAction> },
    /// No candidate remains.
    NoCurrent { prev_result: Stat, voted: Vec<i64> },
    /// The usual state: results for the previous candidate and a current one.
    HasBoth {
        prev_result: Stat,
        current: VTuber,
        voted: Vec<i64>,
        vote_for_current: Option<UserAction>,
    },
}

impl Stack {
    /// The candidate to show now, if any.
    pub open spec fn current(&self) -> Option<VTuber> {
        match self {
            Stack::NoPrev { current, .. } => Some(*current),
            Stack::NoCurrent { .. } => None,
            Stack::HasBoth { current, .. } => Some(*current),
        }
    }

    /// The id of the candidate to show now, if any.
    pub open spec fn current_id(&self) -> Option<i64> {
        match self.current() {
            Some(v) => Some(v.id),
            None => None,
        }
    }

    /// The results for the candidate acted upon before, if any.
    pub open spec fn last_result(&self) -> Option<Stat> {
        match self {
            Stack::NoPrev { .. } => None,
            Stack::NoCurrent { prev_result, .. } => Some(*prev_result),
            Stack::HasBoth { prev_result, .. } => Some(*prev_result),
        }
    }

    /// The guest's history of candidates acted upon.
    pub open spec fn history(&self) -> Seq<i64> {
        match self {
            Stack::NoPrev { voted, .. } => voted@,
            Stack::NoCurrent { voted, .. } => voted@,
            Stack::HasBoth { voted, .. } => voted@,
        }
    }

    /// The stack that a snapshot normalises to, if it has a shape.
    pub open spec fn of_snapshot(snapshot: StackSnapshot) -> Option<Stack> {
        match (snapshot.current, snapshot.results) {
            (None, None) => None,
            (None, Some(prev_result)) => Some(Stack::NoCurrent { prev_result, voted: snapshot.voted }),
            (Some(current), None) => Some(
                Stack::NoPrev {
                    current,
                    voted: snapshot.voted,
                    vote_for_current: snapshot.vote_for_current,
                },
            ),
            (Some(current), Some(prev_result)) => Some(
                Stack::HasBoth {
                    prev_result,
                    current,
                    voted: snapshot.voted,
                    vote_for_current: snapshot.vote_for_current,
                },
            ),
        }
    }

    /// Gets the current candidate. Returns `None` if there is none.
    pub fn get_current(&self) -> (r: Option<&VTuber>)
        ensures
            r is None <==> self.current() is None,
            r matches Some(v) ==> self.current() == Some(*v),
    {
        match self {
            Stack::NoPrev { current, .. } => Some(current),
            Stack::NoCurrent { .. } => None,
            Stack::HasBoth { current, .. } => Some(current),
        }
    }

    /// Gets the guest's history of candidates acted upon.
    pub fn get_vote_list(&self) -> (r: Vec<i64>)
        ensures
            r@ == self.history(),
    {
        let voted = match self {
            Stack::NoPrev { voted, .. } => voted,
            Stack::NoCurrent { voted, .. } => voted,
            Stack::HasBoth { voted, .. } => voted,
        };
        let mut r: Vec<i64> = Vec::new();
        let mut i: usize = 0;
        while i < voted.len()
            invariant
                voted@ == self.history(),
                i <= voted@.len(),
                r@ == voted@.subrange(0, i as int),
            decreases voted@.len() - i,
        {
            r.push(voted[i]);
            i = i + 1;
            assert(r@ =~= voted@.subrange(0, i as int));
        }
        assert(r@ =~= voted@);
        r
    }

    /// Gets the results of the candidate acted upon before, if any.
    pub fn get_last_voted_stat(&self) -> (r: Option<&Stat>)
        ensures
            r is None <==> self.last_result() is None,
            r matches Some(s) ==> self.last_result() == Some(*s),
    {
        match self {
            Stack::NoPrev { .. } => None,
            Stack::NoCurrent { prev_result, .. } => Some(prev_result),
            Stack::HasBoth { prev_result, .. } => Some(prev_result),
        }
    }

    /// Normalises a data-layer snapshot into one of the three shapes; `None`
    /// where it has neither a current candidate nor previous results.
    pub fn from_snapshot(snapshot: StackSnapshot) -> (r: Option<Stack>)
        ensures
            r == Stack::of_snapshot(snapshot),
            r is None <==> (snapshot.current is None && snapshot.results is None),
    {
        match (snapshot.current, snapshot.results) {
            (None, None) => None,
            (None, Some(prev_result)) => Some(Stack::NoCurrent { prev_result, voted: snapshot.voted }),
            (Some(current), None) => Some(
                Stack::NoPrev {
                    current,
                    voted: snapshot.voted,
                    vote_for_current: snapshot.vote_for_current,
                },
            ),
            (Some(current), Some(prev_result)) => Some(
                Stack::HasBoth {
                    prev_result,
                    current,
                    voted: snapshot.voted,
                    vote_for_current: snapshot.vote_for_current,
                },
            ),
        }
    }

    /// The candidate that the "next" link leads to: the current candidate's
    /// successor, if there is a current candidate.
    pub fn next_link(&self) -> (r: Option<i64>)
        ensures
            r == (match self.current() {
                Some(v) => v.next,
                None => None,
            }),
    {
        match self.get_current() {
            Some(v) => v.next,
            None => None,
        }
    }

    /// The candidate that the "previous" link leads to: the current
    /// candidate's predecessor, or with no current candidate the one whose
    /// results are shown.
    pub fn prev_link(&self) -> (r: Option<i64>)
        ensures
            r == (match self.current() {
                Some(v) => v.prev,
                None => match self.last_result() {
                    Some(s) => Some(s.vtuber_id),
                    None => None,
                },
            }),
    {
        match self.get_current() {
            Some(v) => v.prev,
            None => match self.get_last_voted_stat() {
                Some(s) => Some(s.vtuber_id),
                None => None,
            },
        }
    }
}

/// Where the visitor stands: viewing a candidate, or resuming after the last
/// one they completed.
#[derive(Debug, Clone, Copy, PartialEq, Eq, Structural)]
pub enum VTuberId {
    /// A specific candidate is in view.
    Current(i64),
    /// No candidate is in view; resume from the last one visited.
    LastVisited(i64),
}

impl VTuberId {
    /// The candidate in view, if any.
    pub open spec fn current(&self) -> Option<i64> {
        match *self {
            VTuberId::Current(id) => Some(id),
            VTuberId::LastVisited(_) => None,
        }
    }

    /// The candidate that either variant names.
    pub open spec fn id(&self) -> i64 {
        match *self {
            VTuberId::Current(id) => id,
            VTuberId::LastVisited(id) => id,
        }
    }

    /// Gets the candidate in view; `None` when resuming from the last visited.
    pub fn get_current(&self) -> (r: Option<i64>)
        ensures
            r == self.current(),
    {
        match *self {
            VTuberId::Current(id) => Some(id),
            VTuberId::LastVisited(_) => None,
        }
    }

    /// The data-layer query that builds the stack for this target.
    pub fn stack_query(&self) -> (r: StackQuery)
        ensures
            r == (match *self {
                VTuberId::Current(id) => StackQuery::FromCurrent(id),
                VTuberId::LastVisited(id) => StackQuery::FromLastVisited(id),
            }),
    {
        match *self {
            VTuberId::Current(id) => StackQuery::FromCurrent(id),
            VTuberId::LastVisited(id) => StackQuery::FromLastVisited(id),
        }
    }
}

/// The data-layer query for a stack.
#[derive(Debug, Clone, Copy, PartialEq, Eq, Structural)]
pub enum StackQuery {
    /// The stack with this candidate in view.
    FromCurrent(i64),
    /// The stack that follows the last visited candidate.
    FromLastVisited(i64),
}

/// What came back from a data-layer call that returns a snapshot.
#[derive(Debug, Clone, PartialEq)]
pub enum FetchOutcome {
    /// The store could not be reached or the query failed.
    Unavailable,
    /// The query ran but returned no row.
    NoRow,
    /// A row came back that does not decode as a snapshot.
    Undecodable,
    /// A decoded snapshot.
    Fetched(StackSnapshot),
}

/// Why a stack could not be built.
#[derive(Debug, Clone, Copy, PartialEq, Eq, Structural)]
pub enum Error {
    /// The data layer was expected to return a row and returned none.
    EmptyResult,
    /// The returned snapshot fits none of the stack's shapes.
    MalformedSnapshot,
    /// The data layer could not be reached.
    DataLayerUnavailable,
}

/// The stack built from a fetch, or why none could be.
pub open spec fn built_stack(outcome: FetchOutcome) -> Result<Stack, Error> {
    match outcome {
        FetchOutcome::Unavailable => Err(Error::DataLayerUnavailable),
        FetchOutcome::NoRow => Err(Error::EmptyResult),
        FetchOutcome::Undecodable => Err(Error::MalformedSnapshot),
        FetchOutcome::Fetched(snapshot) => match Stack::of_snapshot(snapshot) {
            Some(stack) => Ok(stack),
            None => Err(Error::MalformedSnapshot),
        },
    }
}

/// Finishes building a stack from what the data layer returned for the
/// target's query.
pub fn build_stack(outcome: FetchOutcome) -> (r: Result<Stack, Error>)
    ensures
        r == built_stack(outcome),
{
    match outcome {
        FetchOutcome::Unavailable => Err(Error::DataLayerUnavailable),
        FetchOutcome::NoRow => Err(Error::EmptyResult),
        FetchOutcome::Undecodable => Err(Error::MalformedSnapshot),
        FetchOutcome::Fetched(snapshot) => match Stack::from_snapshot(snapshot) {
            Some(stack) => Ok(stack),
            None => Err(Error::MalformedSnapshot),
        },
    }
}

} // verus!
