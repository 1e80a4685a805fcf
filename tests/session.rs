use oshismash::ballot::{record_result, BallotAction, BallotEvent, BallotProcessor, BallotStage, VoteError};
use oshismash::client_data::{authorize_view, parse_marker, resolve_navigation, ClientData, InboundMarkers, VTuberIdError};
use oshismash::error::Error;
use oshismash::guests::{
    finish_identity, guest_check_failure, resolve_identity, Guest, GuestCheck, GuestId, IdentityError, IdentityStep,
};
use oshismash::markers::{dedup_history, encode, encode_navigation, join_ids, ClientMarkers};
use oshismash::text::{parse_i64, same_text};
use oshismash::vote::{Stat, UserAction, Vote};
use oshismash::vtubers::{build_stack, FetchOutcome, Stack, StackSnapshot, VTuber, VTuberId};

fn markers(id: Option<&str>, current: Option<&str>, last_visited: Option<&str>, max_visited: Option<&str>) -> InboundMarkers {
    InboundMarkers {
        id: id.map(String::from),
        current: current.map(String::from),
        last_visited: last_visited.map(String::from),
        max_visited: max_visited.map(String::from),
    }
}

fn vtuber(id: i64) -> VTuber {
    VTuber {
        id,
        name: format!("Candidate {}", id),
        description: String::new(),
        org_name: String::new(),
        next: Some(id + 1),
        prev: Some(id - 1),
        img: String::new(),
    }
}

fn stat(id: i64) -> Stat {
    Stat { vtuber_id: id, name: format!("Candidate {}", id), img: None, smashes: 3, passes: 1 }
}

fn guest() -> GuestId {
    GuestId("0b76fdde-9910-402d-b7c2-97c02247b5fd".to_string())
}

fn has_both(current: i64, previous: i64, voted: Vec<i64>) -> Stack {
    Stack::HasBoth { prev_result: stat(previous), current: vtuber(current), voted, vote_for_current: None }
}

fn no_current(previous: i64, voted: Vec<i64>) -> Stack {
    Stack::NoCurrent { prev_result: stat(previous), voted }
}

#[test]
fn parse_ids() {
    assert_eq!(parse_i64("42"), Some(42));
    assert_eq!(parse_i64("+42"), Some(42));
    assert_eq!(parse_i64("-42"), Some(-42));
    assert_eq!(parse_i64("007"), Some(7));
    assert_eq!(parse_i64("9223372036854775807"), Some(i64::MAX));
    assert_eq!(parse_i64("-9223372036854775808"), Some(i64::MIN));
    assert_eq!(parse_i64("9223372036854775808"), None);
    assert_eq!(parse_i64("-9223372036854775809"), None);
    assert_eq!(parse_i64("100000000000000000000x"), None);
    assert_eq!(parse_i64(""), None);
    assert_eq!(parse_i64("-"), None);
    assert_eq!(parse_i64("+"), None);
    assert_eq!(parse_i64("none"), None);
    assert_eq!(parse_i64("1 "), None);
    assert_eq!(parse_i64("٣"), None);
}

#[test]
fn text_comparison() {
    assert!(same_text("none", "none"));
    assert!(!same_text("none", "nona"));
    assert!(!same_text("none", "non"));
}

#[test]
fn navigation_path_wins() {
    let m = markers(None, Some("3"), Some("2"), None);
    assert_eq!(resolve_navigation(Some("7"), &m), VTuberId::Current(7));
}

#[test]
fn navigation_malformed_path_falls_through() {
    let m = markers(None, Some("3"), Some("2"), None);
    assert_eq!(resolve_navigation(Some("abc"), &m), VTuberId::Current(3));
}

#[test]
fn navigation_from_markers() {
    assert_eq!(resolve_navigation(None, &markers(None, Some("3"), Some("2"), None)), VTuberId::Current(3));
    assert_eq!(resolve_navigation(None, &markers(None, Some("none"), Some("2"), None)), VTuberId::LastVisited(2));
    assert_eq!(resolve_navigation(None, &markers(None, Some("none"), Some("none"), None)), VTuberId::Current(1));
    assert_eq!(resolve_navigation(None, &markers(None, None, None, None)), VTuberId::Current(1));
}

#[test]
fn navigation_markers_missing() {
    assert_eq!(VTuberId::from_markers(&markers(None, Some("x"), None, None)), Err(VTuberIdError::Missing));
    assert_eq!(VTuberId::from_markers(&markers(None, None, Some("5"), None)), Ok(VTuberId::LastVisited(5)));
}

#[test]
fn client_data_gathers_resolution() {
    let m = markers(Some("g"), Some("4"), None, Some("6"));
    let data = ClientData::new(GuestId("g".to_string()), None, &m);
    assert_eq!(data.guest_id, "g");
    assert_eq!(data.vtuber_id, VTuberId::Current(4));
    assert_eq!(data.max_visited, 6);
    assert_eq!(data.prior_max_visited, Some(6));
    let data = ClientData::new(GuestId("g".to_string()), None, &markers(None, None, None, Some("x")));
    assert_eq!(data.max_visited, 1);
    assert_eq!(data.prior_max_visited, None);
    assert_eq!(parse_marker(&Some("12".to_string())), Some(12));
}

#[test]
fn view_authorization() {
    assert_eq!(authorize_view(VTuberId::Current(3), 3), Ok(()));
    assert_eq!(authorize_view(VTuberId::Current(4), 3), Err(Error::MaxVisitedIsLessThanCurrent));
    assert_eq!(authorize_view(VTuberId::LastVisited(40), 3), Ok(()));
    assert_eq!(Error::MaxVisitedIsLessThanCurrent.status_code(), 403);
}

#[test]
fn visited_candidate_view_not_denied() {
    let m = markers(Some("g"), None, None, Some("5"));
    let data = ClientData::new(GuestId("g".to_string()), Some("5"), &m);
    assert_eq!(authorize_view(data.vtuber_id, data.max_visited), Ok(()));
    for outcome in [FetchOutcome::Unavailable, FetchOutcome::NoRow, FetchOutcome::Undecodable] {
        let e = build_stack(outcome).unwrap_err();
        let status = Error::FailedToParseStack(e).status_code();
        assert!(status != 401 && status != 403);
    }
}

#[test]
fn identity_known_marker() {
    let step = resolve_identity(Some("abc".to_string()));
    assert_eq!(step, IdentityStep::Known(GuestId("abc".to_string())));
    let resolved = finish_identity(step, None).unwrap();
    assert_eq!(resolved.guest_id, GuestId("abc".to_string()));
    assert!(!resolved.newly_created);
}

#[test]
fn identity_resolved_twice_creates_once() {
    let step = resolve_identity(None);
    assert_eq!(step, IdentityStep::Create);
    let first = finish_identity(step, Some(Guest { guest_id: GuestId("new".to_string()) })).unwrap();
    assert!(first.newly_created);
    let second_step = resolve_identity(Some(first.guest_id.0.clone()));
    assert_eq!(second_step, IdentityStep::Known(first.guest_id.clone()));
    let second = finish_identity(second_step, None).unwrap();
    assert_eq!(second.guest_id, first.guest_id);
    assert!(!second.newly_created);
}

#[test]
fn identity_creation_failure() {
    assert_eq!(finish_identity(IdentityStep::Create, None), Err(IdentityError::IdentityCreationFailed));
    assert_eq!(Error::Identity(IdentityError::IdentityCreationFailed).status_code(), 500);
}

#[test]
fn guest_check_failures() {
    assert_eq!(guest_check_failure(Some("22P02")), GuestCheck::Invalid);
    assert_eq!(guest_check_failure(Some("08006")), GuestCheck::Failed);
    assert_eq!(guest_check_failure(None), GuestCheck::Failed);
}

#[test]
fn history_helpers() {
    assert_eq!(dedup_history(&vec![1, 2, 2, 3]), vec![1, 2, 3]);
    assert_eq!(dedup_history(&vec![1, 2, 1]), vec![1, 2, 1]);
    assert_eq!(dedup_history(&vec![]), Vec::<i64>::new());
    assert_eq!(join_ids(&vec![1, 2, 2, 3]), "1,2,2,3");
    assert_eq!(join_ids(&vec![]), "");
    assert_eq!(join_ids(&vec![-5]), "-5");
    assert_eq!(join_ids(&vec![10, 200]), "10,200");
}

#[test]
fn encode_dedups_only_for_current() {
    let stack = has_both(4, 3, vec![1, 2, 2, 3]);
    let m = encode(&guest(), VTuberId::Current(3), &stack, Some(3)).unwrap();
    assert_eq!(m.voted, Some("1,2,3".to_string()));
    let m = encode(&guest(), VTuberId::LastVisited(3), &stack, Some(3)).unwrap();
    assert_eq!(m.voted, Some("1,2,2,3".to_string()));
}

#[test]
fn encode_has_both_is_current() {
    let m = encode(&guest(), VTuberId::Current(3), &has_both(4, 3, vec![1, 2, 3]), Some(3)).unwrap();
    assert_eq!(
        m,
        ClientMarkers {
            id: "0b76fdde-9910-402d-b7c2-97c02247b5fd".to_string(),
            current: "4".to_string(),
            last_visited: "none".to_string(),
            max_visited: Some("4".to_string()),
            voted: Some("1,2,3".to_string()),
        }
    );
}

#[test]
fn encode_keeps_higher_mark() {
    let m = encode(&guest(), VTuberId::Current(2), &has_both(2, 1, vec![1]), Some(9)).unwrap();
    assert_eq!(m.current, "2");
    assert_eq!(m.max_visited, Some("9".to_string()));
    let m = encode(&guest(), VTuberId::Current(2), &has_both(2, 1, vec![1]), None).unwrap();
    assert_eq!(m.max_visited, Some("2".to_string()));
}

#[test]
fn encode_no_current_carries_last_visited() {
    let m = encode(&guest(), VTuberId::Current(7), &no_current(7, vec![6, 7]), Some(7)).unwrap();
    assert_eq!(m.current, "none");
    assert_eq!(m.last_visited, "7");
    assert_eq!(m.max_visited, None);
    assert_eq!(m.voted, Some("6,7".to_string()));
}

#[test]
fn encode_no_current_without_prior_fails() {
    let r = encode(&guest(), VTuberId::LastVisited(7), &no_current(7, vec![6, 7]), Some(7));
    assert_eq!(r, Err(Error::InvalidClientData));
    assert_eq!(Error::InvalidClientData.status_code(), 422);
}

#[test]
fn encode_markers_read_back() {
    let m = encode(&guest(), VTuberId::Current(3), &has_both(4, 3, vec![1, 2, 3]), Some(3)).unwrap();
    let back = markers(Some(&m.id), Some(&m.current), Some(&m.last_visited), None);
    assert_eq!(resolve_navigation(None, &back), VTuberId::Current(4));
    let m = encode(&guest(), VTuberId::Current(7), &no_current(7, vec![7]), Some(7)).unwrap();
    let back = markers(Some(&m.id), Some(&m.current), Some(&m.last_visited), None);
    assert_eq!(resolve_navigation(None, &back), VTuberId::LastVisited(7));
}

#[test]
fn first_visit_scenario() {
    let inbound = markers(None, None, None, None);
    let step = resolve_identity(inbound.id.clone());
    assert_eq!(step, IdentityStep::Create);
    let resolved = finish_identity(step, Some(Guest { guest_id: guest() })).unwrap();
    assert!(resolved.newly_created);
    let data = ClientData::new(resolved.guest_id.clone(), None, &inbound);
    assert_eq!(data.vtuber_id, VTuberId::Current(1));
    assert_eq!(data.vtuber_id.get_current(), Some(1));
    let m = encode_navigation(&resolved.guest_id, data.vtuber_id, data.prior_max_visited);
    assert_eq!(m.id, "0b76fdde-9910-402d-b7c2-97c02247b5fd");
    assert_eq!(m.current, "1");
    assert_eq!(m.last_visited, "none");
    assert_eq!(m.max_visited, Some("1".to_string()));
}

#[test]
fn navigation_markers_for_last_visited() {
    let m = encode_navigation(&guest(), VTuberId::LastVisited(5), Some(5));
    assert_eq!(m.current, "none");
    assert_eq!(m.last_visited, "5");
    assert_eq!(m.max_visited, None);
    assert_eq!(m.voted, None);
    let m = encode_navigation(&guest(), VTuberId::Current(5), Some(5));
    assert_eq!(m.max_visited, None);
}

fn smash(vtuber_id: i64) -> Vote {
    Vote { vtuber_id, guest_id: 7, action: UserAction::Smashed }
}

#[test]
fn ballot_scenario_advances() {
    let inbound = markers(Some("g"), Some("1"), Some("none"), Some("1"));
    let data = ClientData::new(GuestId("g".to_string()), None, &inbound);
    let mut p = BallotProcessor::new(smash(1), data.max_visited);
    assert_eq!(p.step(BallotEvent::Begin), BallotAction::CheckGuest);
    assert_eq!(p.step(BallotEvent::GuestChecked(GuestCheck::Valid)), BallotAction::RecordBallot);
    let snapshot = StackSnapshot {
        current: Some(vtuber(2)),
        results: Some(stat(1)),
        voted: vec![1],
        vote_for_current: None,
    };
    let stack = match p.step(BallotEvent::Recorded(FetchOutcome::Fetched(snapshot))) {
        BallotAction::Finish(Ok(stack)) => stack,
        other => panic!("unexpected {:?}", other),
    };
    assert_eq!(p.stage, BallotStage::Done);
    assert_eq!(stack.get_current().map(|v| v.id), Some(2));
    let m = encode(&GuestId(data.guest_id.clone()), data.vtuber_id, &stack, data.prior_max_visited).unwrap();
    assert_eq!(m.current, "2");
    assert_eq!(m.last_visited, "none");
    assert_eq!(m.max_visited, Some("2".to_string()));
    assert!(m.voted.unwrap().split(',').any(|v| v == "1"));
}

#[test]
fn ballot_beyond_mark_refused() {
    let mut p = BallotProcessor::new(smash(5), 1);
    match p.step(BallotEvent::Begin) {
        BallotAction::Finish(Err(e)) => {
            assert_eq!(e, VoteError::NotAllowedToVote);
            assert_eq!(Error::VoteError(e).status_code(), 403);
        }
        other => panic!("unexpected {:?}", other),
    }
    assert_eq!(p.step(BallotEvent::GuestChecked(GuestCheck::Valid)), BallotAction::Idle);
    assert_eq!(p.stage, BallotStage::Done);
}

#[test]
fn ballot_invalid_guest_and_failures() {
    let mut p = BallotProcessor::new(smash(1), 1);
    p.step(BallotEvent::Begin);
    assert_eq!(p.step(BallotEvent::GuestChecked(GuestCheck::Invalid)), BallotAction::Finish(Err(VoteError::InvalidGuest)));
    assert_eq!(Error::VoteError(VoteError::InvalidGuest).status_code(), 401);

    let mut p = BallotProcessor::new(smash(1), 1);
    p.step(BallotEvent::Begin);
    assert_eq!(p.step(BallotEvent::GuestChecked(GuestCheck::Failed)), BallotAction::Finish(Err(VoteError::QueryFailed)));

    let mut p = BallotProcessor::new(smash(1), 1);
    assert_eq!(p.step(BallotEvent::Recorded(FetchOutcome::NoRow)), BallotAction::Idle);
    assert_eq!(p.stage, BallotStage::Start);
}

#[test]
fn record_outcomes() {
    assert_eq!(record_result(FetchOutcome::Unavailable), Err(VoteError::QueryFailed));
    assert_eq!(record_result(FetchOutcome::NoRow), Err(VoteError::QueryFailed));
    assert_eq!(record_result(FetchOutcome::Undecodable), Err(VoteError::InvalidResultShape));
    let empty = StackSnapshot { current: None, results: None, voted: vec![], vote_for_current: None };
    assert_eq!(record_result(FetchOutcome::Fetched(empty)), Err(VoteError::InvalidResultShape));
    assert_eq!(Error::VoteError(VoteError::InvalidResultShape).status_code(), 500);
}

#[test]
fn empty_snapshot_is_server_error() {
    let empty = StackSnapshot { current: None, results: None, voted: vec![1], vote_for_current: None };
    let e = build_stack(FetchOutcome::Fetched(empty)).unwrap_err();
    assert_eq!(Error::FailedToParseStack(e).status_code(), 500);
}

#[test]
fn error_statuses() {
    assert_eq!(Error::UnableToQuery.status_code(), 500);
    assert_eq!(Error::InvalidGuest.status_code(), 401);
    assert_eq!(Error::NotAllowedToVote.status_code(), 403);
    assert_eq!(Error::InvalidForm.status_code(), 400);
    assert_eq!(Error::InvalidFormFormat.status_code(), 422);
    assert_eq!(Error::StackParseFailed.status_code(), 500);
}
