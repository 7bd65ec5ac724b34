use polling::error::ErrorCode;
use polling::ledger::{initialize, Ledger};
use polling::records::{check_close, option_listed, options_fit, check_vote, Identity};

fn s(x: &str) -> String {
    x.to_string()
}

fn opts(xs: &[&str]) -> Vec<String> {
    xs.iter().map(|x| x.to_string()).collect()
}

const CREATOR: Identity = Identity { k0: 100, k1: 0, k2: 0, k3: 0 };
const VOTER_A: Identity = Identity { k0: 1, k1: 0, k2: 0, k3: 0 };
const VOTER_B: Identity = Identity { k0: 2, k1: 0, k2: 0, k3: 0 };
const VOTER_C: Identity = Identity { k0: 3, k1: 0, k2: 0, k3: 0 };

fn ledger_with_p1() -> Ledger {
    let mut l = Ledger::new();
    let r = l.create_poll(s("p1"), opts(&["yes", "no"]), s("hlf-1"), CREATOR);
    assert_eq!(r, Ok(()));
    l
}

#[test]
fn initialize_is_noop() {
    assert_eq!(initialize(), Ok(()));
}

#[test]
fn created_poll_reads_back() {
    let mut l = Ledger::new();
    let r = l.create_poll(s("p1"), opts(&["yes", "no"]), s("hlf-1"), CREATOR);
    assert_eq!(r, Ok(()));
    let p = l.get_poll(&s("p1")).expect("poll must exist");
    assert_eq!(p.id, s("p1"));
    assert_eq!(p.creator, CREATOR);
    assert_eq!(p.options, opts(&["yes", "no"]));
    assert_eq!(p.hlf_poll_id, s("hlf-1"));
    assert!(p.is_active);
    assert_eq!(p.total_votes, 0);
}

#[test]
fn duplicate_poll_rejected_and_first_unchanged() {
    let mut l = ledger_with_p1();
    let r = l.create_poll(s("p1"), opts(&["a", "b", "c"]), s("other"), VOTER_B);
    assert_eq!(r, Err(ErrorCode::DuplicatePoll));
    let p = l.get_poll(&s("p1")).expect("poll must exist");
    assert_eq!(p.options, opts(&["yes", "no"]));
    assert_eq!(p.hlf_poll_id, s("hlf-1"));
    assert_eq!(p.creator, CREATOR);
    assert!(p.is_active);
    assert_eq!(p.total_votes, 0);
}

#[test]
fn duplicate_check_comes_before_layout_check() {
    let mut l = ledger_with_p1();
    // The colliding id is found before the oversized option list would be.
    let r = l.create_poll(s("p1"), opts(&["a", "b", "c", "d", "e"]), s("x"), CREATOR);
    assert_eq!(r, Err(ErrorCode::DuplicatePoll));
}

#[test]
fn oversized_poll_id_rejected() {
    let mut l = Ledger::new();
    let id32 = "a".repeat(32);
    let id33 = "a".repeat(33);
    assert_eq!(
        l.create_poll(id33, opts(&["yes"]), s("x"), CREATOR),
        Err(ErrorCode::AddressDerivationError)
    );
    assert_eq!(l.create_poll(id32, opts(&["yes"]), s("x"), CREATOR), Ok(()));
}

#[test]
fn poll_id_length_counts_bytes_not_chars() {
    let mut l = Ledger::new();
    // 17 characters, but 2 bytes each in UTF-8: 34 bytes exceed the limit.
    let id = "é".repeat(17);
    assert_eq!(
        l.create_poll(id, opts(&["yes"]), s("x"), CREATOR),
        Err(ErrorCode::AddressDerivationError)
    );
}

#[test]
fn oversized_options_rejected() {
    let mut l = Ledger::new();
    let five = opts(&["a", "b", "c", "d", "e"]);
    assert_eq!(
        l.create_poll(s("p1"), five, s("x"), CREATOR),
        Err(ErrorCode::AddressDerivationError)
    );
    let long_option = vec![s("ok"), "b".repeat(33)];
    assert_eq!(
        l.create_poll(s("p1"), long_option, s("x"), CREATOR),
        Err(ErrorCode::AddressDerivationError)
    );
    let four_long = vec!["w".repeat(32), "x".repeat(32), "y".repeat(32), "z".repeat(32)];
    assert_eq!(l.create_poll(s("p1"), four_long, s("x"), CREATOR), Ok(()));
}

#[test]
fn oversized_external_ref_rejected() {
    let mut l = Ledger::new();
    assert_eq!(
        l.create_poll(s("p1"), opts(&["yes"]), "r".repeat(65), CREATOR),
        Err(ErrorCode::AddressDerivationError)
    );
    assert_eq!(l.create_poll(s("p1"), opts(&["yes"]), "r".repeat(64), CREATOR), Ok(()));
}

#[test]
fn empty_option_list_is_permitted() {
    let mut l = Ledger::new();
    assert_eq!(l.create_poll(s("p1"), Vec::new(), s("x"), CREATOR), Ok(()));
    // Every vote on such a poll necessarily names an unknown option.
    assert_eq!(
        l.vote(s("p1"), s("yes"), s("v"), VOTER_A, 0),
        Err(ErrorCode::InvalidOption)
    );
}

#[test]
fn vote_on_missing_poll_rejected() {
    let mut l = Ledger::new();
    assert_eq!(
        l.vote(s("nope"), s("yes"), s("v"), VOTER_A, 0),
        Err(ErrorCode::PollNotFound)
    );
    assert_eq!(l.close_poll(s("nope"), CREATOR), Err(ErrorCode::PollNotFound));
    assert!(l.get_poll(&s("nope")).is_none());
}

#[test]
fn invalid_option_rejected_and_count_unchanged() {
    let mut l = ledger_with_p1();
    assert_eq!(l.vote(s("p1"), s("yes"), s("v1"), VOTER_A, 1), Ok(()));
    let r = l.vote(s("p1"), s("maybe"), s("v2"), VOTER_B, 2);
    assert_eq!(r, Err(ErrorCode::InvalidOption));
    let p = l.get_poll(&s("p1")).expect("poll must exist");
    assert_eq!(p.total_votes, 1);
    assert!(l.get_vote(&s("p1"), &VOTER_B).is_none());
}

#[test]
fn vote_on_closed_poll_rejected() {
    let mut l = ledger_with_p1();
    assert_eq!(l.close_poll(s("p1"), CREATOR), Ok(()));
    assert_eq!(
        l.vote(s("p1"), s("yes"), s("v"), VOTER_A, 1),
        Err(ErrorCode::PollInactive)
    );
    // The inactive check comes before the option check.
    assert_eq!(
        l.vote(s("p1"), s("maybe"), s("v"), VOTER_B, 2),
        Err(ErrorCode::PollInactive)
    );
    assert_eq!(l.get_poll(&s("p1")).unwrap().total_votes, 0);
}

#[test]
fn accepted_vote_is_recorded_once() {
    let mut l = ledger_with_p1();
    assert_eq!(l.vote(s("p1"), s("yes"), s("v1"), VOTER_A, 41), Ok(()));
    let v = l.get_vote(&s("p1"), &VOTER_A).expect("vote must exist");
    assert_eq!(v.poll_id, s("p1"));
    assert_eq!(v.voter, VOTER_A);
    assert_eq!(v.vote_option, s("yes"));
    assert_eq!(v.hlf_vote_id, s("v1"));
    assert_eq!(v.timestamp, 41);
    // A second vote by the same voter fails whatever its option.
    assert_eq!(
        l.vote(s("p1"), s("no"), s("v2"), VOTER_A, 42),
        Err(ErrorCode::DuplicateVote)
    );
    assert_eq!(
        l.vote(s("p1"), s("yes"), s("v3"), VOTER_A, 43),
        Err(ErrorCode::DuplicateVote)
    );
    let p = l.get_poll(&s("p1")).expect("poll must exist");
    assert_eq!(p.total_votes, 1);
    // The stored record is the first one.
    let v = l.get_vote(&s("p1"), &VOTER_A).expect("vote must exist");
    assert_eq!(v.vote_option, s("yes"));
    assert_eq!(v.timestamp, 41);
}

#[test]
fn total_votes_counts_distinct_voters() {
    let mut l = ledger_with_p1();
    assert_eq!(l.vote(s("p1"), s("yes"), s("v1"), VOTER_A, 1), Ok(()));
    assert_eq!(l.vote(s("p1"), s("no"), s("v2"), VOTER_B, 2), Ok(()));
    assert_eq!(l.vote(s("p1"), s("yes"), s("v3"), VOTER_C, 3), Ok(()));
    assert_eq!(l.vote(s("p1"), s("no"), s("v4"), VOTER_B, 4), Err(ErrorCode::DuplicateVote));
    assert_eq!(l.get_poll(&s("p1")).unwrap().total_votes, 3);
}

#[test]
fn same_voter_may_vote_on_two_polls() {
    let mut l = ledger_with_p1();
    assert_eq!(l.create_poll(s("p2"), opts(&["yes", "no"]), s("hlf-2"), CREATOR), Ok(()));
    assert_eq!(l.vote(s("p1"), s("yes"), s("v1"), VOTER_A, 1), Ok(()));
    assert_eq!(l.vote(s("p2"), s("no"), s("v2"), VOTER_A, 2), Ok(()));
    assert_eq!(l.get_poll(&s("p1")).unwrap().total_votes, 1);
    assert_eq!(l.get_poll(&s("p2")).unwrap().total_votes, 1);
}

#[test]
fn close_requires_creator() {
    let mut l = ledger_with_p1();
    assert_eq!(l.close_poll(s("p1"), VOTER_B), Err(ErrorCode::Unauthorized));
    assert!(l.get_poll(&s("p1")).unwrap().is_active);
    assert_eq!(l.close_poll(s("p1"), CREATOR), Ok(()));
    assert!(!l.get_poll(&s("p1")).unwrap().is_active);
}

#[test]
fn closing_twice_is_idempotent() {
    let mut l = ledger_with_p1();
    assert_eq!(l.vote(s("p1"), s("yes"), s("v1"), VOTER_A, 1), Ok(()));
    assert_eq!(l.close_poll(s("p1"), CREATOR), Ok(()));
    assert_eq!(l.close_poll(s("p1"), CREATOR), Ok(()));
    let p = l.get_poll(&s("p1")).expect("poll must exist");
    assert!(!p.is_active);
    assert_eq!(p.total_votes, 1);
    assert_eq!(p.options, opts(&["yes", "no"]));
}

#[test]
fn end_to_end_scenario() {
    let mut l = Ledger::new();
    assert_eq!(l.create_poll(s("p1"), opts(&["yes", "no"]), s("hlf-1"), CREATOR), Ok(()));
    assert_eq!(l.vote(s("p1"), s("yes"), s("v1"), VOTER_A, 10), Ok(()));
    assert_eq!(l.get_poll(&s("p1")).unwrap().total_votes, 1);
    assert_eq!(
        l.vote(s("p1"), s("no"), s("v2"), VOTER_A, 11),
        Err(ErrorCode::DuplicateVote)
    );
    assert_eq!(l.get_poll(&s("p1")).unwrap().total_votes, 1);
    assert_eq!(
        l.vote(s("p1"), s("maybe"), s("v3"), VOTER_B, 12),
        Err(ErrorCode::InvalidOption)
    );
    assert_eq!(l.close_poll(s("p1"), CREATOR), Ok(()));
    assert_eq!(
        l.vote(s("p1"), s("yes"), s("v4"), VOTER_C, 13),
        Err(ErrorCode::PollInactive)
    );
    let p = l.get_poll(&s("p1")).expect("poll must exist");
    assert!(!p.is_active);
    assert_eq!(p.total_votes, 1);
}

#[test]
fn checks_judge_a_resolved_poll() {
    let mut l = ledger_with_p1();
    {
        let p = l.get_poll(&s("p1")).expect("poll must exist");
        assert_eq!(check_vote(p, &s("yes")), Ok(()));
        assert_eq!(check_vote(p, &s("maybe")), Err(ErrorCode::InvalidOption));
        assert_eq!(check_close(p, &CREATOR), Ok(()));
        assert_eq!(check_close(p, &VOTER_A), Err(ErrorCode::Unauthorized));
    }
    assert_eq!(l.close_poll(s("p1"), CREATOR), Ok(()));
    let p = l.get_poll(&s("p1")).expect("poll must exist");
    assert_eq!(check_vote(p, &s("yes")), Err(ErrorCode::PollInactive));
}

#[test]
fn option_and_layout_helpers() {
    let list = opts(&["yes", "no"]);
    assert!(option_listed(&list, &s("yes")));
    assert!(option_listed(&list, &s("no")));
    assert!(!option_listed(&list, &s("maybe")));
    assert!(options_fit(&list));
    assert!(!options_fit(&opts(&["a", "b", "c", "d", "e"])));
}

#[test]
fn error_descriptions_name_the_rejection() {
    assert_eq!(ErrorCode::PollInactive.describe(), "poll is not active");
    assert_eq!(ErrorCode::InvalidOption.describe(), "invalid vote option");
    assert_eq!(ErrorCode::Unauthorized.describe(), "unauthorized action");
    assert_eq!(ErrorCode::DuplicateVote.describe(), "this voter has already voted on this poll");
}
