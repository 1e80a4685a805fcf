//! The ballot processor: checks a ballot against the high-water mark and the
//! guest registry, has the data layer record it, and turns what comes back
//! into a stack. Each data-layer call is an action that the caller performs
//! and answers with an event.

use vstd::prelude::*;
use crate::guests::GuestCheck;
use crate::vote::Vote;
use crate::vtubers::{FetchOutcome, Stack};

verus! {

/// Why a ballot was not counted, or may not have been.
#[derive(Debug, Clone, Copy, PartialEq, Eq, Structural)]
pub enum VoteError {
    /// The ballot targets a candidate beyond the declared high-water mark.
    NotAllowedToVote,
    /// The guest is not registered.
    InvalidGuest,
    /// A data-layer call failed.
    QueryFailed,
    /// The data layer returned something that is no stack.
    InvalidResultShape,
}

/// Where a ballot stands.
#[derive(Debug, Clone, Copy, PartialEq, Eq, Structural)]
pub enum BallotStage {
    /// Not yet looked at.
    Start,
    /// Waiting for the guest registry's answer.
    CheckingGuest,
    /// Waiting for the data layer to record the ballot.
    Recording,
    /// Finished, with or without success.
    Done,
}

/// What the caller reports back.
#[derive(Debug, Clone, PartialEq)]
pub enum BallotEvent {
    /// The ballot was submitted.
    Begin,
    /// The guest registry answered.
    GuestChecked(GuestCheck),
    /// The data layer's atomic record-and-snapshot call returned.
    Recorded(FetchOutcome),
}

/// What the caller must do next.
#[derive(Debug, PartialEq)]
pub enum BallotAction {
    /// Ask the registry whether the ballot's guest is valid.
    CheckGuest,
    /// Record the ballot; the data layer returns the updated snapshot.
    RecordBallot,
    /// The outcome of the ballot.
    Finish(Result<Stack, VoteError>),
    /// The event does not apply at this stage: nothing to do.
    Idle,
}

/// The outcome of the record call.
pub open spec fn recorded_outcome(outcome: FetchOutcome) -> Result<Stack, VoteError> {
    match outcome {
        FetchOutcome::Unavailable => Err(VoteError::QueryFailed),
        FetchOutcome::NoRow => Err(VoteError::QueryFailed),
        FetchOutcome::Undecodable => Err(VoteError::InvalidResultShape),
        FetchOutcome::Fetched(snapshot) => match Stack::of_snapshot(snapshot) {
            Some(stack) => Ok(stack),
            None => Err(VoteError::InvalidResultShape),
        },
    }
}

/// One transition: the next stage and the action for an event.
pub open spec fn ballot_step(
    stage: BallotStage,
    vote: Vote,
    declared_max_visited: i64,
    event: BallotEvent,
) -> (BallotStage, BallotAction) {
    match (stage, event) {
        (BallotStage::Start, BallotEvent::Begin) => if declared_max_visited < vote.vtuber_id {
            (BallotStage::Done, BallotAction::Finish(Err(VoteError::NotAllowedToVote)))
        } else {
            (BallotStage::CheckingGuest, BallotAction::CheckGuest)
        },
        (BallotStage::CheckingGuest, BallotEvent::GuestChecked(check)) => match check {
            GuestCheck::Valid => (BallotStage::Recording, BallotAction::RecordBallot),
            GuestCheck::Invalid => (
                BallotStage::Done,
                BallotAction::Finish(Err(VoteError::InvalidGuest)),
            ),
            GuestCheck::Failed => (BallotStage::Done, BallotAction::Finish(Err(VoteError::QueryFailed))),
        },
        (BallotStage::Recording, BallotEvent::Recorded(outcome)) => (
            BallotStage::Done,
            BallotAction::Finish(recorded_outcome(outcome)),
        ),
        (s, _) => (s, BallotAction::Idle),
    }
}

/// A ballot in progress.
#[derive(Debug, Clone, PartialEq)]
pub struct BallotProcessor {
    pub vote: Vote,
    /// The high-water mark that the client declared.
    pub declared_max_visited: i64,
    pub stage: BallotStage,
}

impl BallotProcessor {
    /// A ballot that has not been looked at yet.
    pub fn new(vote: Vote, declared_max_visited: i64) -> (r: BallotProcessor)
        ensures
            r == (BallotProcessor { vote, declared_max_visited, stage: BallotStage::Start }),
    {
        BallotProcessor { vote, declared_max_visited, stage: BallotStage::Start }
    }

    /// Takes one event and returns what to do next.
    pub fn step(&mut self, event: BallotEvent) -> (action: BallotAction)
        ensures
            final(self).vote == old(self).vote,
            final(self).declared_max_visited == old(self).declared_max_visited,
            (final(self).stage, action) == ballot_step(
                old(self).stage,
                old(self).vote,
                old(self).declared_max_visited,
                event,
            ),
    {
        match (self.stage, event) {
            (BallotStage::Start, BallotEvent::Begin) => {
                if self.declared_max_visited < self.vote.vtuber_id {
                    self.stage = BallotStage::Done;
                    BallotAction::Finish(Err(VoteError::NotAllowedToVote))
                } else {
                    self.stage = BallotStage::CheckingGuest;
                    BallotAction::CheckGuest
                }
            },
            (BallotStage::CheckingGuest, BallotEvent::GuestChecked(check)) => match check {
                GuestCheck::Valid => {
                    self.stage = BallotStage::Recording;
                    BallotAction::RecordBallot
                },
                GuestCheck::Invalid => {
                    self.stage = BallotStage::Done;
                    BallotAction::Finish(Err(VoteError::InvalidGuest))
                },
                GuestCheck::Failed => {
                    self.stage = BallotStage::Done;
                    BallotAction::Finish(Err(VoteError::QueryFailed))
                },
            },
            (BallotStage::Recording, BallotEvent::Recorded(outcome)) => {
                self.stage = BallotStage::Done;
                BallotAction::Finish(record_result(outcome))
            },
            (_, _) => BallotAction::Idle,
        }
    }
}

/// The outcome of the record call, from what it returned.
pub fn record_result(outcome: FetchOutcome) -> (r: Result<Stack, VoteError>)
    ensures
        r == recorded_outcome(outcome),
{
    match outcome {
        FetchOutcome::Unavailable => Err(VoteError::QueryFailed),
        FetchOutcome::NoRow => Err(VoteError::QueryFailed),
        FetchOutcome::Undecodable => Err(VoteError::InvalidResultShape),
        FetchOutcome::Fetched(snapshot) => match Stack::from_snapshot(snapshot) {
            Some(stack) => Ok(stack),
            None => Err(VoteError::InvalidResultShape),
        },
    }
}

} // verus!
