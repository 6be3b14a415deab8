use uuid::Uuid;
use vote_server::clock::Instant;
use vote_server::handlers::{poll_created, vote_cast};
use vote_server::models::{
    Choice, ChoiceCreationDetails, NewChoice, NewPoll, NewVote, Poll, PollCreationDetails, Vote, VoteCreationDetails,
};
use vote_server::server::{
    unchecked_vote, CastPollVote, CreatePollChoice, GetPoll, GetPollChoices, GetPollUserVote, PollSetup, StartStamp,
};
use vote_server::service::{Next, Query, Reply, Status};

/// A store held in memory, answering the library's questions as the database
/// does. A vote stored without a time gets the store's next instant.
struct MemoryStore {
    polls: Vec<Poll>,
    choices: Vec<Choice>,
    votes: Vec<Vote>,
    tick: u32,
}

fn copy_poll(p: &Poll) -> Poll {
    Poll {
        uuid: p.uuid,
        name: p.name.clone(),
        start_date: p.start_date.clone(),
        close_date: p.close_date.clone(),
        status: p.status.clone(),
        winning_choice: p.winning_choice,
    }
}

fn copy_choice(c: &Choice) -> Choice {
    Choice { uuid: c.uuid, name: c.name.clone(), poll_uuid: c.poll_uuid, created_at: c.created_at }
}

fn copy_vote(v: &Vote) -> Vote {
    Vote { uuid: v.uuid, signature: v.signature.clone(), choice_uuid: v.choice_uuid, created_at: v.created_at }
}

impl MemoryStore {
    fn new() -> MemoryStore {
        MemoryStore { polls: Vec::new(), choices: Vec::new(), votes: Vec::new(), tick: 0 }
    }

    fn next_instant(&mut self) -> Instant {
        self.tick += 1;
        Instant { day: 739_000, second: self.tick, nano: 0 }
    }

    fn add_poll(&mut self, p: &NewPoll) {
        self.polls.push(Poll {
            uuid: p.uuid,
            name: p.name.clone(),
            start_date: p.start_date.clone(),
            close_date: p.close_date.clone(),
            status: "open".to_string(),
            winning_choice: None,
        });
    }

    fn add_choice(&mut self, c: &NewChoice) {
        let created_at = self.next_instant();
        self.choices.push(Choice { uuid: c.uuid, name: c.name.clone(), poll_uuid: c.poll_uuid, created_at });
    }

    fn add_vote(&mut self, v: &NewVote) {
        let created_at = self.next_instant();
        self.votes.push(Vote { uuid: v.uuid, signature: v.signature.clone(), choice_uuid: v.choice_uuid, created_at });
    }

    fn answer(&mut self, query: Query) -> Reply {
        match query {
            Query::FindPoll(id) => Reply::Poll(Ok(self.polls.iter().find(|p| p.uuid == id).map(copy_poll))),
            Query::FindChoice(id) => Reply::Choice(Ok(self.choices.iter().find(|c| c.uuid == id).map(copy_choice))),
            Query::ChoicesOf(id) => Reply::Choices(Ok(self.choices.iter().filter(|c| c.poll_uuid == id).map(copy_choice).collect())),
            Query::VotesOf(id) => {
                let poll_choices: Vec<u128> = self.choices.iter().filter(|c| c.poll_uuid == id).map(|c| c.uuid).collect();
                Reply::Votes(Ok(self.votes.iter().filter(|v| poll_choices.contains(&v.choice_uuid)).map(copy_vote).collect()))
            },
            Query::StorePoll(p) => {
                self.add_poll(&p);
                Reply::Stored(Ok(()))
            },
            Query::StoreChoice(c) => {
                self.add_choice(&c);
                Reply::Stored(Ok(()))
            },
            Query::StoreVote(v) => {
                self.add_vote(&v);
                Reply::Stored(Ok(()))
            },
            Query::StoreTimedVote(v) => {
                self.votes.push(v);
                Reply::Stored(Ok(()))
            },
        }
    }

    fn drive<S, A>(&mut self, start: (S, Next<A>), step: impl Fn(S, Reply) -> (S, Next<A>)) -> A {
        let (mut state, mut next) = start;
        loop {
            match next {
                Next::Ask(query) => {
                    let reply = self.answer(query);
                    let (s, n) = step(state, reply);
                    state = s;
                    next = n;
                },
                Next::Answer(a) => return a,
                Next::Abandon(text) => panic!("{}", text),
            }
        }
    }

    /// Creates a poll with the choices its request names, as the creation
    /// endpoints do.
    fn create_poll(&mut self, details: &PollCreationDetails, style: StartStamp) -> PollSetup {
        let mut setup = PollSetup::begin(details, style);
        self.add_poll(setup.poll());
        while let Some(choice) = setup.next_choice() {
            self.add_choice(&choice);
            setup.choice_stored(Ok(())).unwrap();
        }
        setup
    }
}

fn text(id: u128) -> String {
    Uuid::from_u128(id).to_string()
}

fn details(name: &str, choices: Option<Vec<&str>>) -> PollCreationDetails {
    PollCreationDetails {
        name: name.to_string(),
        close_date: "2026-12-31T00:00:00Z".to_string(),
        choices: choices.map(|cs| cs.into_iter().map(|c| c.to_string()).collect()),
    }
}

#[test]
fn main_test_create_poll_and_get_details() {
    let mut store = MemoryStore::new();
    let setup = store.create_poll(&details("Test Election", Some(vec!["Alice", "Bob"])), StartStamp::Rfc3339);
    let (status, created_poll) = setup.finish();
    assert_eq!(status, Status::Created);
    assert_eq!(created_poll.name, "Test Election");
    assert_eq!(created_poll.choices.len(), 2);
    assert!(created_poll.start_date.contains('T'));

    let fetched_poll = store.drive(GetPoll::start(&text(created_poll.uuid)), GetPoll::step).unwrap();
    assert_eq!(fetched_poll.uuid, created_poll.uuid);
    assert_eq!(fetched_poll.choices.len(), 2);
}

#[test]
fn test_cast_vote_and_get_latest_user_vote() {
    let mut store = MemoryStore::new();
    let setup = store.create_poll(&details("Ballot Election", Some(vec!["Candidate A", "Candidate B"])), StartStamp::Rfc3339);
    let (status, poll) = setup.finish();
    assert_eq!(status, Status::Created);
    let choice_a = poll.choices[0].uuid;
    let choice_b = poll.choices[1].uuid;
    let voter_sig = format!("voter_sig_{}", Uuid::new_v4());

    let vote_1 = VoteCreationDetails { signature: voter_sig.clone(), choice_uuid: text(choice_a) };
    let (status_1, _) = store.drive(CastPollVote::start(&text(poll.uuid), &vote_1), CastPollVote::step).unwrap();
    assert_eq!(status_1, Status::Created);

    let vote_data_1 = store.drive(GetPollUserVote::start(&text(poll.uuid), &voter_sig), GetPollUserVote::step).unwrap();
    assert_eq!(vote_data_1.choice_uuid, choice_a);
    assert_eq!(vote_data_1.signature, voter_sig);
    assert!(!vote_data_1.timestamp.is_empty());

    let vote_2 = VoteCreationDetails { signature: voter_sig.clone(), choice_uuid: text(choice_b) };
    let (status_2, _) = store.drive(CastPollVote::start(&text(poll.uuid), &vote_2), CastPollVote::step).unwrap();
    assert_eq!(status_2, Status::Created);

    let vote_data_2 = store.drive(GetPollUserVote::start(&text(poll.uuid), &voter_sig), GetPollUserVote::step).unwrap();
    assert_eq!(vote_data_2.choice_uuid, choice_b);
    assert_eq!(vote_data_2.signature, voter_sig);
}

#[test]
fn test_create_and_get_poll_choices() {
    let mut store = MemoryStore::new();
    let (status, poll) = store.create_poll(&details("Empty Poll", None), StartStamp::Rfc3339).finish();
    assert_eq!(status, Status::Created);

    let choice = ChoiceCreationDetails { name: "Write-in Candidate".to_string(), poll_uuid: text(poll.uuid) };
    let (choice_status, shown) =
        store.drive(CreatePollChoice::start(&text(poll.uuid), &choice), CreatePollChoice::step).unwrap();
    assert_eq!(choice_status, Status::Created);
    assert_eq!(shown.poll_uuid, poll.uuid);

    let choices_list = store.drive(GetPollChoices::start(&text(poll.uuid)), GetPollChoices::step).unwrap();
    assert_eq!(choices_list.len(), 1);
    assert_eq!(choices_list[0].name, "Write-in Candidate");
}

#[test]
fn test_vote_for_choice_from_different_poll_rejected() {
    let mut store = MemoryStore::new();
    let (_, poll_1) = store.create_poll(&details("Poll 1", Some(vec!["Choice 1"])), StartStamp::Rfc3339).finish();
    let (_, poll_2) = store.create_poll(&details("Poll 2", Some(vec!["Choice 2"])), StartStamp::Rfc3339).finish();
    let rogue = VoteCreationDetails { signature: "rogue_sig".to_string(), choice_uuid: text(poll_1.choices[0].uuid) };
    let refused = store.drive(CastPollVote::start(&text(poll_2.uuid), &rogue), CastPollVote::step).unwrap_err();
    assert_eq!(refused, Status::BadRequest);
    assert!(store.votes.is_empty());
}

#[test]
fn test_legacy_endpoints_backward_compatibility() {
    let mut store = MemoryStore::new();
    let setup = store.create_poll(&details("Legacy Poll", None), StartStamp::Rfc3339);
    let answer = poll_created(setup.poll(), Ok(()));
    assert_eq!(answer, Ok("Creating a poll named Legacy Poll, closing at 2026-12-31T00:00:00Z".to_string()));
    assert_eq!(store.polls.len(), 1);
}

#[test]
fn legacy_votes_are_stored_unchecked_with_their_time() {
    let mut store = MemoryStore::new();
    let (_, poll) = store.create_poll(&details("p", Some(vec!["a"])), StartStamp::Rfc3339).finish();
    let vote = unchecked_vote(&VoteCreationDetails { signature: "sig".to_string(), choice_uuid: text(poll.choices[0].uuid) }).unwrap();
    assert_eq!(vote.choice_uuid, poll.choices[0].uuid);
    assert_eq!(Uuid::from_u128(vote.uuid).get_version_num(), 4);
    assert_eq!(vote_cast(&vote.signature, vote.choice_uuid, Ok(())).unwrap(), format!("Casting a vote with the signature sig, for choice {}", text(poll.choices[0].uuid)));
    assert!(unchecked_vote(&VoteCreationDetails { signature: "sig".to_string(), choice_uuid: "x".to_string() }).is_err());
}

#[test]
fn nested_lookups_map_store_failures() {
    let (state, _) = GetPoll::start(&Uuid::new_v4().to_string());
    let (_, next) = state.step(Reply::Poll(Err("timeout".to_string())));
    assert!(matches!(next, Next::Answer(Err(Status::InternalServerError))));
    let (_, next) = GetPoll::start("not-a-uuid");
    assert!(matches!(next, Next::Answer(Err(Status::BadRequest))));
    let bad_choice = VoteCreationDetails { signature: "s".to_string(), choice_uuid: "xyz".to_string() };
    let (_, next) = CastPollVote::start(&Uuid::new_v4().to_string(), &bad_choice);
    assert!(matches!(next, Next::Answer(Err(Status::BadRequest))));
    let (state, _) = GetPollChoices::start(&Uuid::new_v4().to_string());
    let (_, next) = state.step(Reply::Stored(Ok(())));
    assert!(matches!(next, Next::Abandon(t) if t == "the store answered a question that was not asked"));
    let mut store = MemoryStore::new();
    let missing = VoteCreationDetails { signature: "s".to_string(), choice_uuid: Uuid::new_v4().to_string() };
    let refused = store.drive(CastPollVote::start(&Uuid::new_v4().to_string(), &missing), CastPollVote::step).unwrap_err();
    assert_eq!(refused, Status::NotFound);
}
