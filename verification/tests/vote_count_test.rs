use uuid::Uuid;
use vote_server::clock::Instant;
use vote_server::handlers::{choice_created, choice_to_create, poll_created, CastVote, CountVotes};
use vote_server::models::{
    Choice, ChoiceCreationDetails, NewChoice, NewPoll, NewVote, Poll, PollCreationDetails, Vote, VoteCreationDetails,
};
use vote_server::server::{GetPoll, GetPollChoices, GetPollUserVote, PollSetup, StartStamp};
use vote_server::service::{Next, Query, Reply, Status};

/// A store held in memory, answering the library's questions as the database
/// does. A vote stored without a time gets the store's next instant.
struct MemoryStore {
    polls: Vec<Poll>,
    choices: Vec<Choice>,
    votes: Vec<Vote>,
    tick: u32,
}

fn copy_poll(p: &Poll) -> Poll {
    Poll {
        uuid: p.uuid,
        name: p.name.clone(),
        start_date: p.start_date.clone(),
        close_date: p.close_date.clone(),
        status: p.status.clone(),
        winning_choice: p.winning_choice,
    }
}

fn copy_choice(c: &Choice) -> Choice {
    Choice { uuid: c.uuid, name: c.name.clone(), poll_uuid: c.poll_uuid, created_at: c.created_at }
}

fn copy_vote(v: &Vote) -> Vote {
    Vote { uuid: v.uuid, signature: v.signature.clone(), choice_uuid: v.choice_uuid, created_at: v.created_at }
}

impl MemoryStore {
    fn new() -> MemoryStore {
        MemoryStore { polls: Vec::new(), choices: Vec::new(), votes: Vec::new(), tick: 0 }
    }

    fn next_instant(&mut self) -> Instant {
        self.tick += 1;
        Instant { day: 739_000, second: self.tick, nano: 0 }
    }

    fn add_poll(&mut self, p: &NewPoll) {
        self.polls.push(Poll {
            uuid: p.uuid,
            name: p.name.clone(),
            start_date: p.start_date.clone(),
            close_date: p.close_date.clone(),
            status: "open".to_string(),
            winning_choice: None,
        });
    }

    fn add_choice(&mut self, c: &NewChoice) {
        let created_at = self.next_instant();
        self.choices.push(Choice { uuid: c.uuid, name: c.name.clone(), poll_uuid: c.poll_uuid, created_at });
    }

    fn add_vote(&mut self, v: &NewVote) {
        let created_at = self.next_instant();
        self.votes.push(Vote { uuid: v.uuid, signature: v.signature.clone(), choice_uuid: v.choice_uuid, created_at });
    }

    fn answer(&mut self, query: Query) -> Reply {
        match query {
            Query::FindPoll(id) => Reply::Poll(Ok(self.polls.iter().find(|p| p.uuid == id).map(copy_poll))),
            Query::FindChoice(id) => Reply::Choice(Ok(self.choices.iter().find(|c| c.uuid == id).map(copy_choice))),
            Query::ChoicesOf(id) => Reply::Choices(Ok(self.choices.iter().filter(|c| c.poll_uuid == id).map(copy_choice).collect())),
            Query::VotesOf(id) => {
                let poll_choices: Vec<u128> = self.choices.iter().filter(|c| c.poll_uuid == id).map(|c| c.uuid).collect();
                Reply::Votes(Ok(self.votes.iter().filter(|v| poll_choices.contains(&v.choice_uuid)).map(copy_vote).collect()))
            },
            Query::StorePoll(p) => {
                self.add_poll(&p);
                Reply::Stored(Ok(()))
            },
            Query::StoreChoice(c) => {
                self.add_choice(&c);
                Reply::Stored(Ok(()))
            },
            Query::StoreVote(v) => {
                self.add_vote(&v);
                Reply::Stored(Ok(()))
            },
            Query::StoreTimedVote(v) => {
                self.votes.push(v);
                Reply::Stored(Ok(()))
            },
        }
    }

    fn drive<S, A>(&mut self, start: (S, Next<A>), step: impl Fn(S, Reply) -> (S, Next<A>)) -> A {
        let (mut state, mut next) = start;
        loop {
            match next {
                Next::Ask(query) => {
                    let reply = self.answer(query);
                    let (s, n) = step(state, reply);
                    state = s;
                    next = n;
                },
                Next::Answer(a) => return a,
                Next::Abandon(text) => panic!("{}", text),
            }
        }
    }

    /// Creates a poll with the choices its request names, as the creation
    /// endpoints do.
    fn create_poll(&mut self, details: &PollCreationDetails, style: StartStamp) -> PollSetup {
        let mut setup = PollSetup::begin(details, style);
        self.add_poll(setup.poll());
        while let Some(choice) = setup.next_choice() {
            self.add_choice(&choice);
            setup.choice_stored(Ok(())).unwrap();
        }
        setup
    }
}

fn new_poll(store: &mut MemoryStore, name: &str, close_date: &str) -> u128 {
    let uuid = Uuid::new_v4().as_u128();
    store.add_poll(&NewPoll {
        uuid,
        name: name.to_string(),
        start_date: "2024-01-01 00:00:00 UTC".to_string(),
        close_date: close_date.to_string(),
    });
    uuid
}

fn new_choice(store: &mut MemoryStore, name: &str, poll_uuid: u128) -> u128 {
    let uuid = Uuid::new_v4().as_u128();
    store.add_choice(&NewChoice { uuid, name: name.to_string(), poll_uuid });
    uuid
}

fn new_vote(store: &mut MemoryStore, signature: &str, choice_uuid: u128) {
    store.add_vote(&NewVote { uuid: Uuid::new_v4().as_u128(), signature: signature.to_string(), choice_uuid });
}

fn text(id: u128) -> String {
    Uuid::from_u128(id).to_string()
}

#[test]
fn test_count_votes_empty_poll() {
    let mut store = MemoryStore::new();
    let poll_uuid = new_poll(&mut store, "Empty Poll", "2099-12-31");
    let body = store.drive(CountVotes::start(&text(poll_uuid)), CountVotes::step).unwrap();
    assert_eq!(body.status, "open");
    assert_eq!(body.winning_choice, None);
    assert!(body.vote_distribution.is_empty());
    assert_eq!(store.polls[0].status, "open");
}

#[test]
fn test_count_votes_latest_unique_vote_and_distribution() {
    let mut store = MemoryStore::new();
    let poll_uuid = new_poll(&mut store, "Favorite Language", "2099-12-31");
    let choice_rust = new_choice(&mut store, "Rust", poll_uuid);
    let choice_python = new_choice(&mut store, "Python", poll_uuid);
    new_vote(&mut store, "voter_1_signature", choice_python);
    new_vote(&mut store, "voter_1_signature", choice_rust);
    new_vote(&mut store, "voter_2_signature", choice_rust);
    new_vote(&mut store, "voter_3_signature", choice_python);

    let body = store.drive(CountVotes::start(&text(poll_uuid)), CountVotes::step).unwrap();
    assert_eq!(body.status, "open");
    assert_eq!(body.winning_choice, Some(choice_rust));
    assert_eq!(body.vote_distribution.get(&choice_rust), Some(&2));
    assert_eq!(body.vote_distribution.get(&choice_python), Some(&1));
    assert_eq!(store.polls[0].status, "open");
}

#[test]
fn test_closed_poll_status_and_rejects_votes() {
    let mut store = MemoryStore::new();
    let poll_uuid = new_poll(&mut store, "Expired Poll", "2020-01-02");
    let choice_uuid = new_choice(&mut store, "Expired Choice", poll_uuid);

    let count_body = store.drive(CountVotes::start(&text(poll_uuid)), CountVotes::step).unwrap();
    assert_eq!(count_body.status, "closed");

    let details = VoteCreationDetails { signature: "late_voter".to_string(), choice_uuid: text(choice_uuid) };
    let refused = store.drive(CastVote::start(&details), CastVote::step).unwrap_err();
    assert_eq!(refused.status, Status::Forbidden);
    assert_eq!(refused.message, "Poll is closed. Votes are no longer accepted.");
    assert!(store.votes.is_empty());
}

#[test]
fn test_count_votes_non_existent_poll() {
    let mut store = MemoryStore::new();
    let refused = store.drive(CountVotes::start(&Uuid::new_v4().to_string()), CountVotes::step).unwrap_err();
    assert_eq!(refused.status, Status::NotFound);
    assert_eq!(refused.message, "Poll not found");
}

#[test]
fn test_count_votes_invalid_uuid() {
    let mut store = MemoryStore::new();
    let refused = store.drive(CountVotes::start("invalid-uuid-string"), CountVotes::step).unwrap_err();
    assert_eq!(refused.status, Status::BadRequest);
    assert_eq!(refused.message, "Invalid poll UUID");
}

#[test]
fn vote_count_test_test_create_poll_and_get_details() {
    let mut store = MemoryStore::new();
    let details = PollCreationDetails {
        name: "Test Election".to_string(),
        close_date: "2026-12-31T00:00:00Z".to_string(),
        choices: Some(vec!["Alice".to_string(), "Bob".to_string()]),
    };
    let setup = store.create_poll(&details, StartStamp::Display);
    let answer = poll_created(setup.poll(), Ok(())).unwrap();
    assert_eq!(answer, "Creating a poll named Test Election, closing at 2026-12-31T00:00:00Z");

    let poll = store.polls.iter().find(|p| p.name == "Test Election").map(copy_poll).unwrap();
    assert!(poll.start_date.ends_with(" UTC"));
    let fetched_poll = store.drive(GetPoll::start(&text(poll.uuid)), GetPoll::step).unwrap();
    assert_eq!(fetched_poll.uuid, poll.uuid);
    assert_eq!(fetched_poll.choices.len(), 2);
}

#[test]
fn test_get_poll_choices() {
    let mut store = MemoryStore::new();
    let poll_uuid = new_poll(&mut store, "Poll With Choices", "2099-12-31");
    let details = ChoiceCreationDetails { name: "Option A".to_string(), poll_uuid: text(poll_uuid) };
    let choice = choice_to_create(&details).unwrap();
    store.add_choice(&choice);
    let answer = choice_created(&choice, Ok(())).unwrap();
    assert_eq!(answer, format!("Creating a choice named Option A, for poll {}", Uuid::from_u128(poll_uuid)));

    let choices_list = store.drive(GetPollChoices::start(&text(poll_uuid)), GetPollChoices::step).unwrap();
    assert_eq!(choices_list.len(), 1);
    assert_eq!(choices_list[0].name, "Option A");
}

#[test]
fn test_get_latest_user_vote_for_poll() {
    let mut store = MemoryStore::new();
    let poll_uuid = new_poll(&mut store, "Candidate Race", "2099-12-31");
    let choice_1 = new_choice(&mut store, "Candidate 1", poll_uuid);
    let choice_2 = new_choice(&mut store, "Candidate 2", poll_uuid);
    let voter_sig = format!("voter_{}", Uuid::new_v4());

    let details_1 = VoteCreationDetails { signature: voter_sig.clone(), choice_uuid: text(choice_1) };
    let answer = store.drive(CastVote::start(&details_1), CastVote::step).unwrap();
    assert_eq!(answer, format!("Casting a vote with the signature {}, for choice {}", voter_sig, Uuid::from_u128(choice_1)));

    let vote_data_1 = store.drive(GetPollUserVote::start(&text(poll_uuid), &voter_sig), GetPollUserVote::step).unwrap();
    assert_eq!(vote_data_1.choice_uuid, choice_1);
    assert_eq!(vote_data_1.signature, voter_sig);
    assert!(!vote_data_1.timestamp.is_empty());

    let details_2 = VoteCreationDetails { signature: voter_sig.clone(), choice_uuid: text(choice_2) };
    store.drive(CastVote::start(&details_2), CastVote::step).unwrap();

    let vote_data_2 = store.drive(GetPollUserVote::start(&text(poll_uuid), &voter_sig), GetPollUserVote::step).unwrap();
    assert_eq!(vote_data_2.choice_uuid, choice_2);
    assert_eq!(vote_data_2.signature, voter_sig);
}

#[test]
fn test_get_user_vote_not_found() {
    let mut store = MemoryStore::new();
    let refused = store
        .drive(GetPollUserVote::start(&Uuid::new_v4().to_string(), "unknown_signature"), GetPollUserVote::step)
        .unwrap_err();
    assert_eq!(refused, Status::NotFound);
}

#[test]
fn count_reports_store_failures_as_server_errors() {
    let (state, next) = CountVotes::start(&Uuid::new_v4().to_string());
    assert!(matches!(next, Next::Ask(Query::FindPoll(_))));
    let (_, next) = state.step(Reply::Poll(Err("relation \"polls\" does not exist".to_string())));
    match next {
        Next::Answer(Err(refused)) => {
            assert_eq!(refused.status, Status::InternalServerError);
            assert_eq!(refused.message, "relation \"polls\" does not exist");
        },
        other => panic!("unexpected {:?}", other),
    }
}
