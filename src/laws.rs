//! Properties that relate several of the library's functions.

use vstd::prelude::*;
use crate::ballot::{BallotAction, BallotEvent, BallotStage, VoteError, ballot_step};
use crate::client_data::{navigation_of, view_authorization};
use crate::error::Error;
use crate::guests::{Guest, IdentityStep, identity_outcome, identity_step};
use crate::markers::{encoded, none_text};
use crate::text::{decimal_text, lemma_parse_decimal_round_trip, parsed_i64};
use crate::vote::Vote;
use crate::vtubers::{FetchOutcome, Stack, VTuberId, built_stack};

verus! {

/// A path segment that holds a candidate's decimal id resolves to that
/// candidate in view, whatever the markers say.
pub proof fn lemma_path_names_candidate(c: i64, current: Option<Seq<char>>, last_visited: Option<Seq<char>>)
    ensures
        navigation_of(Some(decimal_text(c as int)), current, last_visited) == VTuberId::Current(c),
{
    lemma_parse_decimal_round_trip(c);
}

/// Whatever a request resolves to, if a candidate in view lies at or below
/// the high-water mark, viewing it is allowed, and building its stack fails,
/// if at all, with no authorization or ordering failure.
pub proof fn lemma_reachable_view_is_never_denied(
    path: Option<Seq<char>>,
    current: Option<Seq<char>>,
    last_visited: Option<Seq<char>>,
    max_visited: i64,
    outcome: FetchOutcome,
)
    requires
        navigation_of(path, current, last_visited).current() matches Some(c) ==> c <= max_visited,
    ensures
        view_authorization(navigation_of(path, current, last_visited), max_visited) is Ok,
        built_stack(outcome) matches Err(e) ==> !Error::FailedToParseStack(e).denies_access(),
{
}

/// Whether running the events from `stage` ever asks for the ballot to be
/// recorded.
pub open spec fn ever_records(stage: BallotStage, vote: Vote, declared_max_visited: i64, events: Seq<BallotEvent>) -> bool
    decreases events.len(),
{
    if events.len() == 0 {
        false
    } else {
        let (next, action) = ballot_step(stage, vote, declared_max_visited, events[0]);
        action is RecordBallot || ever_records(next, vote, declared_max_visited, events.drop_first())
    }
}

proof fn lemma_refused_ballot_stays_unrecorded(
    stage: BallotStage,
    vote: Vote,
    declared_max_visited: i64,
    events: Seq<BallotEvent>,
)
    requires
        declared_max_visited < vote.vtuber_id,
        stage == BallotStage::Start || stage == BallotStage::Done,
    ensures
        !ever_records(stage, vote, declared_max_visited, events),
    decreases events.len(),
{
    if events.len() > 0 {
        lemma_refused_ballot_stays_unrecorded(
            ballot_step(stage, vote, declared_max_visited, events[0]).0,
            vote,
            declared_max_visited,
            events.drop_first(),
        );
    }
}

/// A ballot for a candidate beyond the declared high-water mark fails with
/// `NotAllowedToVote` as soon as it is submitted, and no sequence of events
/// ever gets it recorded.
pub proof fn lemma_ballot_beyond_mark_is_never_recorded(vote: Vote, declared_max_visited: i64, events: Seq<BallotEvent>)
    requires
        declared_max_visited < vote.vtuber_id,
    ensures
        ballot_step(BallotStage::Start, vote, declared_max_visited, BallotEvent::Begin) == (
            BallotStage::Done,
            BallotAction::Finish(Err(VoteError::NotAllowedToVote)),
        ),
        !ever_records(BallotStage::Start, vote, declared_max_visited, events),
{
    lemma_refused_ballot_stays_unrecorded(BallotStage::Start, vote, declared_max_visited, events);
}

/// An identity marker is taken as it is, with no guest created; and once an
/// identity is resolved and written back, resolving again from that marker
/// gives the same identity without creating a guest.
pub proof fn lemma_identity_marker_idempotent(
    id_marker: Option<String>,
    created: Option<Guest>,
    echoed: String,
    created_again: Option<Guest>,
)
    ensures
        id_marker matches Some(s) ==> {
            &&& identity_step(id_marker) is Known
            &&& identity_outcome(identity_step(id_marker), created) matches Ok(first)
            &&& first.guest_id.0 == s
            &&& !first.newly_created
        },
        identity_outcome(identity_step(id_marker), created) matches Ok(first) ==> (echoed@
            == first.guest_id.0@ ==> {
            &&& identity_step(Some(echoed)) is Known
            &&& identity_outcome(identity_step(Some(echoed)), created_again) matches Ok(second)
            &&& second.guest_id.0@ == first.guest_id.0@
            &&& !second.newly_created
        }),
{
}

proof fn lemma_none_is_no_id()
    ensures
        parsed_i64(none_text()) is None,
{
    reveal_strlit("none");
    assert(none_text()[0] == 'n');
}

/// The navigation markers are exclusive: with a current candidate, `current`
/// holds its id and `last_visited` is `"none"`; without one, `current` is
/// `"none"` and `last_visited` holds the candidate that was in view, or
/// there is no legal encoding when none was. Read back on the next request,
/// they give that navigation.
pub proof fn lemma_encoded_navigation_is_exclusive(
    guest: Seq<char>,
    target: VTuberId,
    stack: Stack,
    prior_max_visited: Option<i64>,
)
    ensures
        stack is HasBoth ==> {
            &&& encoded(guest, target, stack, prior_max_visited) matches Some(m)
            &&& m.current != none_text()
            &&& m.last_visited == none_text()
        },
        stack is NoCurrent ==> (target.current() is Some <==> encoded(
            guest,
            target,
            stack,
            prior_max_visited,
        ) is Some),
        stack is NoCurrent ==> (encoded(guest, target, stack, prior_max_visited) matches Some(m)
            ==> m.current == none_text() && m.last_visited != none_text()),
        encoded(guest, target, stack, prior_max_visited) matches Some(m) ==> navigation_of(
            None,
            Some(m.current),
            Some(m.last_visited),
        ) == (match stack.current_id() {
            Some(c) => VTuberId::Current(c),
            None => VTuberId::LastVisited(target.id()),
        }),
{
    lemma_none_is_no_id();
    match stack.current_id() {
        Some(c) => {
            lemma_parse_decimal_round_trip(c);
        },
        None => {
            lemma_parse_decimal_round_trip(target.id());
        },
    }
}

} // verus!
