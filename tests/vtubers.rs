use oshismash::vote::{Stat, UserAction};
use oshismash::vtubers::{build_stack, Error, FetchOutcome, Stack, StackQuery, StackSnapshot, VTuber, VTuberId};

fn nyanners() -> VTuber {
    VTuber {
        id: 1,
        name: "Nyatasha Nyanners".to_string(),
        description: "A weirdo".to_string(),
        org_name: "VShojo".to_string(),
        next: Some(2),
        prev: None,
        img: "https://www.vshojo.com/wp-content/uploads/nyanners-full_solo.png".to_string(),
    }
}

fn veibae_results() -> Stat {
    Stat {
        vtuber_id: 2,
        name: "Veibae".to_string(),
        img: Some("https://www.vshojo.com/wp-content/uploads/nyanners-full_solo.png".to_string()),
        smashes: 4,
        passes: 1,
    }
}

fn snapshot(current: Option<VTuber>, results: Option<Stat>) -> StackSnapshot {
    StackSnapshot {
        current,
        results,
        voted: vec![1, 2, 3, 4],
        vote_for_current: Some(UserAction::Smashed),
    }
}

#[test]
fn parse_has_current_no_prev() {
    let found = Stack::from_snapshot(snapshot(Some(nyanners()), None));
    let voted_ids: Vec<i64> = Vec::from([1, 2, 3, 4]);

    assert_eq!(found.clone().unwrap().get_vote_list(), voted_ids);

    assert_eq!(
        found.clone().unwrap(),
        Stack::NoPrev { current: nyanners(), voted: voted_ids, vote_for_current: Some(UserAction::Smashed) }
    );
}

#[test]
fn parse_has_prev_no_current() {
    let found = Stack::from_snapshot(snapshot(None, Some(veibae_results())));
    let voted_ids: Vec<i64> = Vec::from([1, 2, 3, 4]);

    assert_eq!(found.clone().unwrap().get_vote_list(), voted_ids);

    assert_eq!(found.clone().unwrap(), Stack::NoCurrent { prev_result: veibae_results(), voted: voted_ids });
}

#[test]
fn parse_has_both() {
    let found = Stack::from_snapshot(snapshot(Some(nyanners()), Some(veibae_results())));
    let voted_ids: Vec<i64> = Vec::from([1, 2, 3, 4]);

    assert_eq!(found.clone().unwrap().get_vote_list(), voted_ids);

    assert_eq!(
        found.clone().unwrap(),
        Stack::HasBoth {
            prev_result: veibae_results(),
            current: nyanners(),
            voted: voted_ids,
            vote_for_current: Some(UserAction::Smashed)
        }
    );
}

#[test]
fn parsing_null_in_both_fails() {
    let found = Stack::from_snapshot(snapshot(None, None));

    assert!(found.clone().is_none());
}

#[test]
fn stack_accessors() {
    let both = Stack::from_snapshot(snapshot(Some(nyanners()), Some(veibae_results()))).unwrap();
    assert_eq!(both.get_current(), Some(&nyanners()));
    assert_eq!(both.get_last_voted_stat(), Some(&veibae_results()));
    let none_current = Stack::from_snapshot(snapshot(None, Some(veibae_results()))).unwrap();
    assert_eq!(none_current.get_current(), None);
    let no_prev = Stack::from_snapshot(snapshot(Some(nyanners()), None)).unwrap();
    assert_eq!(no_prev.get_last_voted_stat(), None);
}

#[test]
fn stack_links() {
    let both = Stack::from_snapshot(snapshot(Some(nyanners()), Some(veibae_results()))).unwrap();
    assert_eq!(both.next_link(), Some(2));
    assert_eq!(both.prev_link(), None);
    let terminal = Stack::from_snapshot(snapshot(None, Some(veibae_results()))).unwrap();
    assert_eq!(terminal.next_link(), None);
    assert_eq!(terminal.prev_link(), Some(2));
}

#[test]
fn navigation_target_accessors() {
    assert_eq!(VTuberId::Current(4).get_current(), Some(4));
    assert_eq!(VTuberId::LastVisited(4).get_current(), None);
    assert_eq!(VTuberId::Current(4).stack_query(), StackQuery::FromCurrent(4));
    assert_eq!(VTuberId::LastVisited(9).stack_query(), StackQuery::FromLastVisited(9));
}

#[test]
fn build_stack_outcomes() {
    assert_eq!(build_stack(FetchOutcome::Unavailable), Err(Error::DataLayerUnavailable));
    assert_eq!(build_stack(FetchOutcome::NoRow), Err(Error::EmptyResult));
    assert_eq!(build_stack(FetchOutcome::Undecodable), Err(Error::MalformedSnapshot));
    assert_eq!(build_stack(FetchOutcome::Fetched(snapshot(None, None))), Err(Error::MalformedSnapshot));
    assert_eq!(
        build_stack(FetchOutcome::Fetched(snapshot(Some(nyanners()), None))),
        Ok(Stack::NoPrev { current: nyanners(), voted: vec![1, 2, 3, 4], vote_for_current: Some(UserAction::Smashed) })
    );
}
