use std::collections::HashMap;

use chrono::{Datelike, NaiveDate};
use uuid::Uuid;
use vote_server::clock::{at_time_of_day, instant_not_after, is_on_calendar, is_poll_closed_at, parse_close_date, Instant};
use vote_server::handlers::{admit_vote_at, choice_to_create, vote_request, CastVote, CountVotes, VoteRequest};
use vote_server::models::{Choice, ChoiceCreationDetails, Poll, PollCreationDetails, Vote, VoteCreationDetails};
use vote_server::server::{ballot_at, latest_vote_of, BallotRequest, PollSetup, StartStamp};
use vote_server::service::{Next, Query, Reply, Status};
use vote_server::tally::{count_votes_at, leading_choice, tally_votes};

fn day_of(year: i32, month: u32, day: u32) -> i32 {
    NaiveDate::from_ymd_opt(year, month, day).unwrap().num_days_from_ce()
}

fn at(day: i32, second: u32) -> Instant {
    Instant { day, second, nano: 0 }
}

fn poll(status: &str, close_date: &str) -> Poll {
    Poll {
        uuid: 7,
        name: "p".to_string(),
        start_date: String::new(),
        close_date: close_date.to_string(),
        status: status.to_string(),
        winning_choice: None,
    }
}

fn choice(uuid: u128) -> Choice {
    Choice { uuid, name: format!("c{}", uuid), poll_uuid: 7, created_at: at(1, 0) }
}

fn vote(signature: &str, choice_uuid: u128) -> Vote {
    Vote { uuid: 0, signature: signature.to_string(), choice_uuid, created_at: at(1, 0) }
}

#[test]
fn close_date_in_rfc3339_is_read_in_utc() {
    let d = day_of(2020, 1, 2);
    assert_eq!(parse_close_date("2020-01-02T10:00:00Z"), Some(at(d, 36_000)));
    assert_eq!(parse_close_date("2020-01-02 10:00:00Z"), Some(at(d, 36_000)));
    assert_eq!(parse_close_date("2020-01-02T10:00:00+02:00"), Some(at(d, 28_800)));
    assert_eq!(parse_close_date("2020-01-02T10:00:00.5Z"), Some(Instant { day: d, second: 36_000, nano: 500_000_000 }));
}

#[test]
fn close_date_without_zone_is_read_as_utc() {
    assert_eq!(parse_close_date("2020-01-02 10:00:00"), Some(at(day_of(2020, 1, 2), 36_000)));
}

#[test]
fn bare_dates_close_at_the_end_of_the_day() {
    let d = day_of(2020, 1, 2);
    assert_eq!(parse_close_date("2020-01-02"), Some(at(d, 86_399)));
    assert_eq!(parse_close_date("02/01/2020"), Some(at(d, 86_399)));
    let p = poll("open", "2020-01-02");
    assert!(!is_poll_closed_at(&p, at(d, 86_398)));
    assert!(is_poll_closed_at(&p, at(d, 86_399)));
    assert!(is_poll_closed_at(&p, at(d + 1, 0)));
    assert!(!is_poll_closed_at(&p, at(d - 1, 86_399)));
}

#[test]
fn unreadable_close_dates_never_close() {
    assert_eq!(parse_close_date("next tuesday"), None);
    assert_eq!(parse_close_date("2020-13-45"), None);
    assert_eq!(parse_close_date(""), None);
    let p = poll("open", "whenever");
    assert!(!is_poll_closed_at(&p, at(i32::MAX, 86_399)));
}

#[test]
fn closed_status_overrides_the_close_date() {
    let p = poll("closed", "2999-01-01");
    assert!(is_poll_closed_at(&p, at(1, 0)));
    assert!(!is_poll_closed_at(&poll("Closed", "2999-01-01"), at(1, 0)));
}

#[test]
fn closing_is_permanent() {
    let p = poll("open", "2021-06-01T12:00:00Z");
    let close = parse_close_date("2021-06-01T12:00:00Z").unwrap();
    assert!(is_poll_closed_at(&p, close));
    for later in [at(close.day, close.second + 1), at(close.day + 1, 0), at(close.day + 10_000, 5)] {
        assert!(is_poll_closed_at(&p, later));
    }
    assert!(!is_poll_closed_at(&p, Instant { day: close.day, second: close.second - 1, nano: 999_999_999 }));
}

#[test]
fn instants_compare_by_day_then_second_then_nanosecond() {
    assert!(instant_not_after(at(1, 5), at(2, 0)));
    assert!(!instant_not_after(at(2, 0), at(1, 86_399)));
    assert!(instant_not_after(Instant { day: 3, second: 4, nano: 5 }, Instant { day: 3, second: 4, nano: 5 }));
    assert!(!instant_not_after(Instant { day: 3, second: 4, nano: 6 }, Instant { day: 3, second: 4, nano: 5 }));
}

#[test]
fn time_of_day_follows_chrono_ranges() {
    assert_eq!(at_time_of_day(10, 23, 59, 59), Some(at(10, 86_399)));
    assert_eq!(at_time_of_day(10, 0, 0, 0), Some(at(10, 0)));
    assert_eq!(at_time_of_day(10, 24, 0, 0), None);
    assert_eq!(at_time_of_day(10, 0, 60, 0), None);
    assert_eq!(at_time_of_day(10, 0, 0, 60), None);
}

#[test]
fn only_the_first_vote_of_each_signature_counts() {
    let votes = vec![vote("a", 1), vote("a", 2), vote("b", 2), vote("a", 2), vote("c", 1)];
    let counts = tally_votes(&vec![choice(1), choice(2), choice(3)], &votes);
    assert_eq!(counts.len(), 3);
    assert_eq!(counts[&1], 2);
    assert_eq!(counts[&2], 1);
    assert_eq!(counts[&3], 0);
}

#[test]
fn older_votes_leave_the_count_unchanged() {
    let choices = vec![choice(1), choice(2)];
    let votes = vec![vote("a", 1), vote("b", 2)];
    let mut longer = vec![vote("a", 1), vote("b", 2)];
    longer.push(vote("a", 2));
    assert_eq!(tally_votes(&choices, &votes), tally_votes(&choices, &longer));
}

#[test]
fn votes_for_unlisted_choices_get_an_entry() {
    let counts = tally_votes(&vec![choice(1)], &vec![vote("a", 9)]);
    assert_eq!(counts.len(), 2);
    assert_eq!(counts[&1], 0);
    assert_eq!(counts[&9], 1);
}

#[test]
fn the_leader_has_the_most_votes_and_at_least_one() {
    let mut counts: HashMap<u128, i64> = HashMap::new();
    assert_eq!(leading_choice(&counts), None);
    counts.insert(1, 0);
    counts.insert(2, 0);
    assert_eq!(leading_choice(&counts), None);
    counts.insert(3, 4);
    counts.insert(4, 2);
    assert_eq!(leading_choice(&counts), Some(3));
    counts.insert(5, 4);
    let leader = leading_choice(&counts).unwrap();
    assert!(leader == 3 || leader == 5);
}

#[test]
fn counting_at_an_instant_reports_status_and_winner() {
    let p = poll("open", "2020-01-02");
    let d = day_of(2020, 1, 2);
    let choices = vec![choice(1), choice(2)];
    let votes = vec![vote("x", 2), vote("y", 2), vote("z", 1)];
    let open = count_votes_at(&p, &choices, &votes, at(d, 0));
    assert_eq!(open.status, "open");
    assert_eq!(open.winning_choice, Some(2));
    let closed = count_votes_at(&p, &choices, &votes, at(d + 1, 0));
    assert_eq!(closed.status, "closed");
    assert_eq!(closed.vote_distribution, open.vote_distribution);
}

#[test]
fn votes_are_admitted_only_while_the_poll_is_open() {
    let p = poll("open", "2020-01-02T00:00:00Z");
    let d = day_of(2020, 1, 2);
    let request = VoteRequest { choice_id: 11, signature: "s".to_string() };
    let admitted = admit_vote_at(request, &p, at(d - 1, 86_399), 42).unwrap();
    assert_eq!((admitted.uuid, admitted.signature.as_str(), admitted.choice_uuid), (42, "s", 11));
    let request = VoteRequest { choice_id: 11, signature: "s".to_string() };
    let refused = admit_vote_at(request, &p, at(d, 0), 42).unwrap_err();
    assert_eq!(refused.status, Status::Forbidden);
}

#[test]
fn vote_requests_need_a_uuid() {
    let refused = vote_request(&VoteCreationDetails { signature: "s".to_string(), choice_uuid: "12".to_string() }).unwrap_err();
    assert_eq!(refused.status, Status::BadRequest);
    assert_eq!(refused.message, "Invalid choice UUID");
    let id = Uuid::new_v4();
    let simple = id.simple().to_string();
    let request = vote_request(&VoteCreationDetails { signature: "s".to_string(), choice_uuid: simple }).unwrap();
    assert_eq!(request.choice_id, id.as_u128());
}

#[test]
fn choices_need_a_poll_uuid() {
    let bad = choice_to_create(&ChoiceCreationDetails { name: "n".to_string(), poll_uuid: "nope".to_string() });
    assert!(bad.is_err());
    let created = choice_to_create(&ChoiceCreationDetails {
        name: "n".to_string(),
        poll_uuid: "67E55044-10B1-426F-9247-BB680E5FE0C8".to_string(),
    })
    .unwrap();
    assert_eq!(created.poll_uuid, 0x67e5_5044_10b1_426f_9247_bb68_0e5f_e0c8);
    assert_eq!(Uuid::from_u128(created.uuid).get_version_num(), 4);
}

#[test]
fn ballots_must_name_a_choice_of_the_poll() {
    let request = BallotRequest { poll_id: 7, choice_id: 1, signature: "s".to_string() };
    let vote = ballot_at(request, &choice(1), 99, at(5, 6)).unwrap();
    assert_eq!((vote.uuid, vote.choice_uuid, vote.created_at), (99, 1, at(5, 6)));
    let request = BallotRequest { poll_id: 8, choice_id: 1, signature: "s".to_string() };
    assert_eq!(ballot_at(request, &choice(1), 99, at(5, 6)).unwrap_err(), Status::BadRequest);
}

#[test]
fn poll_setup_stores_choices_in_request_order() {
    let details = PollCreationDetails {
        name: "n".to_string(),
        close_date: "2030-01-01".to_string(),
        choices: Some(vec!["x".to_string(), "y".to_string(), "z".to_string()]),
    };
    let mut setup = PollSetup::begin(&details, StartStamp::Rfc3339);
    let first = setup.next_choice().unwrap();
    assert_eq!(first.name, "x");
    assert_eq!(setup.choice_stored(Err("disk full".to_string())), Err("disk full".to_string()));
    let again = setup.next_choice().unwrap();
    assert_eq!(again.name, "x");
    setup.choice_stored(Ok(())).unwrap();
    let second = setup.next_choice().unwrap();
    assert_eq!(second.name, "y");
    assert_eq!(second.poll_uuid, setup.poll().uuid);
    setup.choice_stored(Ok(())).unwrap();
    let (status, body) = setup.finish();
    assert_eq!(status, Status::Created);
    let names: Vec<&str> = body.choices.iter().map(|c| c.name.as_str()).collect();
    assert_eq!(names, vec!["x", "y"]);
}

#[test]
fn a_poll_with_votes_always_has_a_leader() {
    let p = poll("open", "2099-12-31");
    let choices = vec![choice(1), choice(2)];
    let none = count_votes_at(&p, &choices, &Vec::new(), at(1, 0));
    assert_eq!(none.winning_choice, None);
    assert_eq!(none.vote_distribution.len(), 2);
    assert!(none.vote_distribution.values().all(|n| *n == 0));
    let one = count_votes_at(&p, &choices, &vec![vote("only", 2)], at(1, 0));
    assert_eq!(one.winning_choice, Some(2));
    assert_eq!(one.vote_distribution.len(), 2);
}

fn vote_at(signature: &str, choice_uuid: u128, second: u32) -> Vote {
    Vote { uuid: 0, signature: signature.to_string(), choice_uuid, created_at: at(1, second) }
}

#[test]
fn a_voters_latest_vote_counts_whatever_the_order() {
    let choices = vec![choice(1), choice(2)];
    let oldest_first = vec![vote_at("a", 1, 10), vote_at("a", 2, 20), vote_at("b", 1, 5)];
    let newest_first = vec![vote_at("a", 2, 20), vote_at("b", 1, 5), vote_at("a", 1, 10)];
    for votes in [oldest_first, newest_first] {
        let counts = tally_votes(&choices, &votes);
        assert_eq!(counts[&1], 1);
        assert_eq!(counts[&2], 1);
    }
}

#[test]
fn a_new_vote_moves_the_ballot() {
    let choices = vec![choice(1), choice(2)];
    let mut votes = vec![vote_at("a", 1, 10), vote_at("b", 1, 11)];
    assert_eq!(tally_votes(&choices, &votes)[&1], 2);
    votes.push(vote_at("a", 2, 12));
    let counts = tally_votes(&choices, &votes);
    assert_eq!((counts[&1], counts[&2]), (1, 1));
    votes.push(vote_at("c", 2, 13));
    let counts = tally_votes(&choices, &votes);
    assert_eq!((counts[&1], counts[&2]), (1, 2));
}

#[test]
fn the_latest_vote_of_a_voter_is_found_by_time() {
    let votes = vec![vote_at("a", 1, 30), vote_at("b", 2, 40), vote_at("a", 2, 35), vote_at("a", 3, 31)];
    assert_eq!(latest_vote_of(&votes, &"a".to_string()), Some(2));
    assert_eq!(latest_vote_of(&votes, &"b".to_string()), Some(1));
    assert_eq!(latest_vote_of(&votes, &"z".to_string()), None);
    let ties = vec![vote_at("a", 1, 30), vote_at("a", 2, 30)];
    assert_eq!(latest_vote_of(&ties, &"a".to_string()), Some(0));
}

#[test]
fn the_calendar_is_chronos() {
    assert!(is_on_calendar(Instant { day: NaiveDate::MIN.num_days_from_ce(), second: 0, nano: 0 }));
    assert!(is_on_calendar(Instant { day: NaiveDate::MAX.num_days_from_ce(), second: 86_399, nano: 1_999_999_999 }));
    assert!(!is_on_calendar(Instant { day: NaiveDate::MIN.num_days_from_ce() - 1, second: 0, nano: 0 }));
    assert!(!is_on_calendar(Instant { day: NaiveDate::MAX.num_days_from_ce() + 1, second: 0, nano: 0 }));
    assert!(!is_on_calendar(Instant { day: 1, second: 86_400, nano: 0 }));
    assert!(!is_on_calendar(Instant { day: 1, second: 10, nano: 1_000_000_000 }));
}

#[test]
fn a_vote_step_keeps_a_vote_only_for_an_open_poll() {
    let d = day_of(2020, 1, 2);
    let request = || VoteRequest { choice_id: 11, signature: "s".to_string() };
    let (_, next) = CastVote::AwaitPoll(request()).step_at(Reply::Poll(Ok(Some(poll("open", "2020-01-02T00:00:00Z")))), at(d, 0), 42);
    match next {
        Next::Answer(Err(r)) => assert_eq!(r.status, Status::Forbidden),
        other => panic!("unexpected {:?}", other),
    }
    let (state, next) = CastVote::AwaitPoll(request()).step_at(Reply::Poll(Ok(Some(poll("open", "2020-01-02T00:00:00Z")))), at(d - 1, 0), 42);
    match next {
        Next::Ask(Query::StoreVote(v)) => assert_eq!((v.uuid, v.choice_uuid, v.signature.as_str()), (42, 11, "s")),
        other => panic!("unexpected {:?}", other),
    }
    let (_, next) = state.step_at(Reply::Stored(Err("down".to_string())), at(d - 1, 0), 42);
    assert!(matches!(next, Next::Abandon(t) if t == "down"));
}

#[test]
fn a_count_step_at_an_instant_is_exact() {
    let p = poll("open", "2020-01-02");
    let (_, next) = CountVotes::AwaitVotes(p, vec![choice(1)]).step_at(Reply::Votes(Ok(vec![vote_at("x", 1, 1)])), at(day_of(2021, 1, 1), 0));
    match next {
        Next::Answer(Ok(r)) => {
            assert_eq!(r.status, "closed");
            assert_eq!(r.winning_choice, Some(1));
        },
        other => panic!("unexpected {:?}", other),
    }
    let (_, next) = CountVotes::AwaitPoll.step_at(Reply::Choices(Ok(Vec::new())), at(1, 0));
    assert!(matches!(next, Next::Abandon(_)));
}
