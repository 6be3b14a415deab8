//! The decisions of the service's flat endpoints: creating a poll, a choice and
//! a vote, and counting a poll's votes.
//!
//! A request that talks to the store more than once is a state machine
//! ([`CastVote`], [`CountVotes`]): from where the request stands and the store's
//! last reply, a step says where it stands next and what it does next (asks the
//! store, answers, or gives up). The caller only carries out the questions and
//! hands the replies back. A reply that says the store failed carries the store's error
//! text. Where a function answers `Err` with a bare text, the request cannot be
//! answered at all and the service stops handling it with that text.
use vstd::prelude::*;

use crate::clock::{closed_at, clock_now, is_poll_closed_at, on_calendar, Instant};
use crate::ids::{is_random_uuid, new_uuid, parse_uuid, uuid_from_str, uuid_text, uuid_to_text};
use crate::models::{
    Choice, ChoiceCreationDetails, NewChoice, NewPoll, NewVote, Poll, PollResultsResponse, Vote,
    VoteCreationDetails,
};
use crate::service::{
    abandoned_out_of_turn, out_of_turn, refusal, refused, require_found, require_loaded, Next, Query, Rejection,
    Reply, Status,
};
use crate::tally::{count_votes_at, reports_count};

verus! {

/// What a flat endpoint answers once the record it made is stored: `text`; or,
/// when storing failed, nothing but the store's error text.
pub open spec fn answered_after_store(r: Result<String, String>, stored: Result<(), String>, text: Seq<char>) -> bool {
    &&& stored is Ok ==> (r matches Ok(m) && m@ == text)
    &&& stored matches Err(e) ==> (r matches Err(f) && f@ == e@)
}

/// The text that reports a poll created.
pub open spec fn poll_created_text(name: Seq<char>, close_date: Seq<char>) -> Seq<char> {
    "Creating a poll named "@ + name + ", closing at "@ + close_date
}

/// The answer to a poll creation once the store has tried to keep `poll`.
pub fn poll_created(poll: &NewPoll, stored: Result<(), String>) -> (r: Result<String, String>)
    ensures
        answered_after_store(r, stored, poll_created_text(poll.name@, poll.close_date@)),
{
    match stored {
        Ok(()) => {
            let mut text = String::from_str("Creating a poll named ");
            text.append(poll.name.as_str());
            text.append(", closing at ");
            text.append(poll.close_date.as_str());
            Ok(text)
        },
        Err(e) => Err(e),
    }
}

/// The choice that a creation request stores: a fresh random id, the request's
/// name and the poll its `poll_uuid` names. A `poll_uuid` that is not a UUID
/// cannot be served.
pub fn choice_to_create(details: &ChoiceCreationDetails) -> (r: Result<NewChoice, String>)
    ensures
        uuid_from_str(details.poll_uuid@) matches Some(poll) ==> (r matches Ok(c) && {
            &&& c.poll_uuid == poll
            &&& c.name@ == details.name@
            &&& is_random_uuid(c.uuid)
        }),
        uuid_from_str(details.poll_uuid@) is None ==> (r matches Err(t) && t@ == "poll_uuid is not a UUID"@),
{
    match parse_uuid(details.poll_uuid.as_str()) {
        Some(poll_uuid) => Ok(NewChoice { name: details.name.clone(), uuid: new_uuid(), poll_uuid }),
        None => Err(String::from_str("poll_uuid is not a UUID")),
    }
}

/// The text that reports a choice created.
pub open spec fn choice_created_text(name: Seq<char>, poll: u128) -> Seq<char> {
    "Creating a choice named "@ + name + ", for poll "@ + uuid_text(poll)
}

/// The answer to a choice creation once the store has tried to keep `choice`.
pub fn choice_created(choice: &NewChoice, stored: Result<(), String>) -> (r: Result<String, String>)
    ensures
        answered_after_store(r, stored, choice_created_text(choice.name@, choice.poll_uuid)),
{
    match stored {
        Ok(()) => {
            let mut text = String::from_str("Creating a choice named ");
            text.append(choice.name.as_str());
            text.append(", for poll ");
            let poll = uuid_to_text(choice.poll_uuid);
            text.append(poll.as_str());
            Ok(text)
        },
        Err(e) => Err(e),
    }
}

/// A vote request whose choice has been read as a UUID.
#[derive(Debug)]
pub struct VoteRequest {
    pub choice_id: u128,
    pub signature: String,
}

/// Reads a vote request: `400` when its `choice_uuid` is not a UUID.
pub fn vote_request(details: &VoteCreationDetails) -> (r: Result<VoteRequest, Rejection>)
    ensures
        uuid_from_str(details.choice_uuid@) matches Some(id) ==> r == Ok::<VoteRequest, Rejection>(
            VoteRequest { choice_id: id, signature: details.signature },
        ),
        uuid_from_str(details.choice_uuid@) is None ==> refused(r, Status::BadRequest, "Invalid choice UUID"@),
{
    match parse_uuid(details.choice_uuid.as_str()) {
        Some(choice_id) => Ok(VoteRequest { choice_id, signature: details.signature.clone() }),
        None => Err(refusal(Status::BadRequest, "Invalid choice UUID")),
    }
}

/// The choice a vote is for, as the store found it by the request's choice id:
/// `404` when there is none, `500` when the lookup failed.
pub fn vote_choice(found: Result<Option<Choice>, String>) -> (r: Result<Choice, Rejection>)
    ensures
        found matches Ok(Some(c)) ==> r == Ok::<Choice, Rejection>(c),
        found matches Ok(None) ==> refused(r, Status::NotFound, "Choice not found"@),
        found matches Err(text) ==> refused(r, Status::InternalServerError, text@),
{
    require_found(found, "Choice not found")
}

/// The poll of the vote's choice, as the store found it by the choice's
/// `poll_uuid`: `404` when there is none, `500` when the lookup failed.
pub fn vote_poll(found: Result<Option<Poll>, String>) -> (r: Result<Poll, Rejection>)
    ensures
        found matches Ok(Some(p)) ==> r == Ok::<Poll, Rejection>(p),
        found matches Ok(None) ==> refused(r, Status::NotFound, "Associated poll not found"@),
        found matches Err(text) ==> refused(r, Status::InternalServerError, text@),
{
    require_found(found, "Associated poll not found")
}

/// The refusal of a vote for a poll that is closed.
pub open spec fn poll_closed_text() -> Seq<char> {
    "Poll is closed. Votes are no longer accepted."@
}

/// Decides a vote for a choice of `poll` at `now`: `403` when the poll is closed
/// then; otherwise the vote to store, with id `vote_id`, the request's signature
/// and the requested choice.
pub fn admit_vote_at(request: VoteRequest, poll: &Poll, now: Instant, vote_id: u128) -> (r: Result<NewVote, Rejection>)
    ensures
        closed_at(poll.status@, poll.close_date@, now) ==> refused(r, Status::Forbidden, poll_closed_text()),
        !closed_at(poll.status@, poll.close_date@, now) ==> r == Ok::<NewVote, Rejection>(
            NewVote { uuid: vote_id, signature: request.signature, choice_uuid: request.choice_id },
        ),
{
    if is_poll_closed_at(poll, now) {
        return Err(refusal(Status::Forbidden, "Poll is closed. Votes are no longer accepted."));
    }
    Ok(NewVote { uuid: vote_id, signature: request.signature, choice_uuid: request.choice_id })
}

/// The text that reports a vote cast.
pub open spec fn vote_cast_text(signature: Seq<char>, choice: u128) -> Seq<char> {
    "Casting a vote with the signature "@ + signature + ", for choice "@ + uuid_text(choice)
}

/// The answer to a vote with `signature` for `choice_uuid` once the store has
/// tried to keep it.
pub fn vote_cast(signature: &String, choice_uuid: u128, stored: Result<(), String>) -> (r: Result<String, String>)
    ensures
        answered_after_store(r, stored, vote_cast_text(signature@, choice_uuid)),
{
    match stored {
        Ok(()) => {
            let mut text = String::from_str("Casting a vote with the signature ");
            text.append(signature.as_str());
            text.append(", for choice ");
            let choice = uuid_to_text(choice_uuid);
            text.append(choice.as_str());
            Ok(text)
        },
        Err(e) => Err(e),
    }
}

/// The poll whose votes a count request names: `400` when its id is not a UUID.
pub fn count_request(poll_id: &str) -> (r: Result<u128, Rejection>)
    ensures
        uuid_from_str(poll_id@) matches Some(id) ==> r == Ok::<u128, Rejection>(id),
        uuid_from_str(poll_id@) is None ==> refused(r, Status::BadRequest, "Invalid poll UUID"@),
{
    match parse_uuid(poll_id) {
        Some(id) => Ok(id),
        None => Err(refusal(Status::BadRequest, "Invalid poll UUID")),
    }
}

/// The poll to count, as the store found it: `404` when there is none, `500` when
/// the lookup failed.
pub fn count_poll(found: Result<Option<Poll>, String>) -> (r: Result<Poll, Rejection>)
    ensures
        found matches Ok(Some(p)) ==> r == Ok::<Poll, Rejection>(p),
        found matches Ok(None) ==> refused(r, Status::NotFound, "Poll not found"@),
        found matches Err(text) ==> refused(r, Status::InternalServerError, text@),
{
    require_found(found, "Poll not found")
}

/// The choices or votes to count, as the store loaded them: `500` when loading
/// failed.
pub fn count_records<T>(loaded: Result<T, String>) -> (r: Result<T, Rejection>)
    ensures
        loaded matches Ok(t) ==> r == Ok::<T, Rejection>(t),
        loaded matches Err(text) ==> refused(r, Status::InternalServerError, text@),
{
    require_loaded(loaded)
}

/// `next` answers with a refusal with `status` and `message`.
pub open spec fn answers_refusal<A>(next: Next<Result<A, Rejection>>, status: Status, message: Seq<char>) -> bool {
    next matches Next::Answer(a) && refused(a, status, message)
}

/// Where a vote request stands.
#[derive(Debug)]
pub enum CastVote {
    /// Waiting for the store to find the requested choice.
    AwaitChoice(VoteRequest),
    /// Waiting for the store to find the poll of the requested choice.
    AwaitPoll(VoteRequest),
    /// Waiting for the store to keep the vote.
    AwaitStore(NewVote),
    /// Answered or given up.
    Done,
}

/// One step of a vote request at `now`, the vote getting the id `vote_id` if it
/// is taken: from `state` and the store's `reply` to `next_state` and `next`.
pub open spec fn cast_vote_step(
    state: CastVote,
    reply: Reply,
    now: Instant,
    vote_id: u128,
    next_state: CastVote,
    next: Next<Result<String, Rejection>>,
) -> bool {
    match state {
        CastVote::AwaitChoice(q) => match reply {
            Reply::Choice(Ok(Some(c))) => next_state == CastVote::AwaitPoll(q) && next == Next::<Result<String, Rejection>>::Ask(
                Query::FindPoll(c.poll_uuid),
            ),
            Reply::Choice(Ok(None)) => next_state == CastVote::Done && answers_refusal(next, Status::NotFound, "Choice not found"@),
            Reply::Choice(Err(t)) => next_state == CastVote::Done && answers_refusal(next, Status::InternalServerError, t@),
            _ => next_state == CastVote::Done && abandoned_out_of_turn(next),
        },
        CastVote::AwaitPoll(q) => match reply {
            Reply::Poll(Ok(Some(p))) => if closed_at(p.status@, p.close_date@, now) {
                next_state == CastVote::Done && answers_refusal(next, Status::Forbidden, poll_closed_text())
            } else {
                &&& next_state == CastVote::AwaitStore(
                    NewVote { uuid: vote_id, signature: q.signature, choice_uuid: q.choice_id },
                )
                &&& next == Next::<Result<String, Rejection>>::Ask(
                    Query::StoreVote(NewVote { uuid: vote_id, signature: q.signature, choice_uuid: q.choice_id }),
                )
            },
            Reply::Poll(Ok(None)) => next_state == CastVote::Done && answers_refusal(
                next,
                Status::NotFound,
                "Associated poll not found"@,
            ),
            Reply::Poll(Err(t)) => next_state == CastVote::Done && answers_refusal(next, Status::InternalServerError, t@),
            _ => next_state == CastVote::Done && abandoned_out_of_turn(next),
        },
        CastVote::AwaitStore(v) => match reply {
            Reply::Stored(Ok(())) => next_state == CastVote::Done && (next matches Next::Answer(Ok(t))
                && t@ == vote_cast_text(v.signature@, v.choice_uuid)),
            Reply::Stored(Err(e)) => next_state == CastVote::Done && (next matches Next::Abandon(f) && f@ == e@),
            _ => next_state == CastVote::Done && abandoned_out_of_turn(next),
        },
        CastVote::Done => next_state == CastVote::Done && abandoned_out_of_turn(next),
    }
}

impl CastVote {
    /// Starts a vote request: `400` when its `choice_uuid` is not a UUID;
    /// otherwise it asks the store for that choice.
    pub fn start(details: &VoteCreationDetails) -> (r: (CastVote, Next<Result<String, Rejection>>))
        ensures
            uuid_from_str(details.choice_uuid@) matches Some(id) ==> {
                &&& r.0 == CastVote::AwaitChoice(VoteRequest { choice_id: id, signature: details.signature })
                &&& r.1 == Next::<Result<String, Rejection>>::Ask(Query::FindChoice(id))
            },
            uuid_from_str(details.choice_uuid@) is None ==> r.0 == CastVote::Done && answers_refusal(
                r.1,
                Status::BadRequest,
                "Invalid choice UUID"@,
            ),
    {
        match vote_request(details) {
            Ok(request) => {
                let id = request.choice_id;
                (CastVote::AwaitChoice(request), Next::Ask(Query::FindChoice(id)))
            },
            Err(e) => (CastVote::Done, Next::Answer(Err(e))),
        }
    }

    /// One step at `now`, giving a vote that is taken the id `vote_id`. A vote is
    /// kept only when the choice and its poll were found and the poll is open at
    /// `now`; a refusal keeps nothing.
    pub fn step_at(self, reply: Reply, now: Instant, vote_id: u128) -> (r: (CastVote, Next<Result<String, Rejection>>))
        ensures
            cast_vote_step(self, reply, now, vote_id, r.0, r.1),
            r.1 matches Next::Ask(Query::StoreVote(v)) ==> {
                &&& self matches CastVote::AwaitPoll(q)
                &&& v.choice_uuid == q.choice_id
                &&& reply matches Reply::Poll(Ok(Some(p)))
                &&& !closed_at(p.status@, p.close_date@, now)
            },
    {
        match self {
            CastVote::AwaitChoice(request) => match reply {
                Reply::Choice(found) => match vote_choice(found) {
                    Ok(choice) => {
                        let poll = choice.poll_uuid;
                        (CastVote::AwaitPoll(request), Next::Ask(Query::FindPoll(poll)))
                    },
                    Err(e) => (CastVote::Done, Next::Answer(Err(e))),
                },
                _ => (CastVote::Done, out_of_turn()),
            },
            CastVote::AwaitPoll(request) => match reply {
                Reply::Poll(found) => match vote_poll(found) {
                    Ok(poll) => match admit_vote_at(request, &poll, now, vote_id) {
                        Ok(vote) => {
                            let asked = NewVote { uuid: vote.uuid, signature: vote.signature.clone(), choice_uuid: vote.choice_uuid };
                            (CastVote::AwaitStore(vote), Next::Ask(Query::StoreVote(asked)))
                        },
                        Err(e) => (CastVote::Done, Next::Answer(Err(e))),
                    },
                    Err(e) => (CastVote::Done, Next::Answer(Err(e))),
                },
                _ => (CastVote::Done, out_of_turn()),
            },
            CastVote::AwaitStore(vote) => match reply {
                Reply::Stored(outcome) => match vote_cast(&vote.signature, vote.choice_uuid, outcome) {
                    Ok(text) => (CastVote::Done, Next::Answer(Ok(text))),
                    Err(e) => (CastVote::Done, Next::Abandon(e)),
                },
                _ => (CastVote::Done, out_of_turn()),
            },
            CastVote::Done => (CastVote::Done, out_of_turn()),
        }
    }

    /// One step now, by the system clock, with a fresh random id for a vote
    /// that is taken.
    pub fn step(self, reply: Reply) -> (r: (CastVote, Next<Result<String, Rejection>>))
        ensures
            exists|now: Instant, vote_id: u128| on_calendar(now) && is_random_uuid(vote_id)
                && #[trigger] cast_vote_step(self, reply, now, vote_id, r.0, r.1),
    {
        let now = clock_now();
        let vote_id = new_uuid();
        self.step_at(reply, now, vote_id)
    }
}

/// Where a count of a poll's votes stands.
#[derive(Debug)]
pub enum CountVotes {
    /// Waiting for the store to find the poll.
    AwaitPoll,
    /// Waiting for the store to load the poll's choices.
    AwaitChoices(Poll),
    /// Waiting for the store to load the poll's votes.
    AwaitVotes(Poll, Vec<Choice>),
    /// Answered or given up.
    Done,
}

/// The text with which a count gives up on more votes than it can hold.
pub open spec fn too_many_votes_text() -> Seq<char> {
    "more votes than a count can hold"@
}

/// One step of a count at `now`: from `state` and the store's `reply` to
/// `next_state` and `next`. Counting needs the poll, its choices and its votes,
/// asked for in that order.
pub open spec fn count_votes_step(
    state: CountVotes,
    reply: Reply,
    now: Instant,
    next_state: CountVotes,
    next: Next<Result<PollResultsResponse, Rejection>>,
) -> bool {
    match state {
        CountVotes::AwaitPoll => match reply {
            Reply::Poll(Ok(Some(p))) => next_state == CountVotes::AwaitChoices(p)
                && next == Next::<Result<PollResultsResponse, Rejection>>::Ask(Query::ChoicesOf(p.uuid)),
            Reply::Poll(Ok(None)) => next_state == CountVotes::Done && answers_refusal(next, Status::NotFound, "Poll not found"@),
            Reply::Poll(Err(t)) => next_state == CountVotes::Done && answers_refusal(next, Status::InternalServerError, t@),
            _ => next_state == CountVotes::Done && abandoned_out_of_turn(next),
        },
        CountVotes::AwaitChoices(p) => match reply {
            Reply::Choices(Ok(cs)) => next_state == CountVotes::AwaitVotes(p, cs)
                && next == Next::<Result<PollResultsResponse, Rejection>>::Ask(Query::VotesOf(p.uuid)),
            Reply::Choices(Err(t)) => next_state == CountVotes::Done && answers_refusal(next, Status::InternalServerError, t@),
            _ => next_state == CountVotes::Done && abandoned_out_of_turn(next),
        },
        CountVotes::AwaitVotes(p, cs) => match reply {
            Reply::Votes(Ok(vs)) => next_state == CountVotes::Done && if vs@.len() <= i64::MAX {
                next matches Next::Answer(Ok(res)) && reports_count(res, p, cs@, vs@, now)
            } else {
                next matches Next::Abandon(t) && t@ == too_many_votes_text()
            },
            Reply::Votes(Err(t)) => next_state == CountVotes::Done && answers_refusal(next, Status::InternalServerError, t@),
            _ => next_state == CountVotes::Done && abandoned_out_of_turn(next),
        },
        CountVotes::Done => next_state == CountVotes::Done && abandoned_out_of_turn(next),
    }
}

impl CountVotes {
    /// Starts counting the votes of the poll a path names: `400` when the id is
    /// not a UUID; otherwise it asks the store for the poll.
    pub fn start(poll_id: &str) -> (r: (CountVotes, Next<Result<PollResultsResponse, Rejection>>))
        ensures
            uuid_from_str(poll_id@) matches Some(id) ==> r.0 == CountVotes::AwaitPoll
                && r.1 == Next::<Result<PollResultsResponse, Rejection>>::Ask(Query::FindPoll(id)),
            uuid_from_str(poll_id@) is None ==> r.0 == CountVotes::Done && answers_refusal(
                r.1,
                Status::BadRequest,
                "Invalid poll UUID"@,
            ),
    {
        match count_request(poll_id) {
            Ok(id) => (CountVotes::AwaitPoll, Next::Ask(Query::FindPoll(id))),
            Err(e) => (CountVotes::Done, Next::Answer(Err(e))),
        }
    }

    /// One step of the count at `now`.
    pub fn step_at(self, reply: Reply, now: Instant) -> (r: (CountVotes, Next<Result<PollResultsResponse, Rejection>>))
        ensures
            count_votes_step(self, reply, now, r.0, r.1),
    {
        match self {
            CountVotes::AwaitPoll => match reply {
                Reply::Poll(found) => match count_poll(found) {
                    Ok(poll) => {
                        let id = poll.uuid;
                        (CountVotes::AwaitChoices(poll), Next::Ask(Query::ChoicesOf(id)))
                    },
                    Err(e) => (CountVotes::Done, Next::Answer(Err(e))),
                },
                _ => (CountVotes::Done, out_of_turn()),
            },
            CountVotes::AwaitChoices(poll) => match reply {
                Reply::Choices(loaded) => match count_records(loaded) {
                    Ok(choices) => {
                        let id = poll.uuid;
                        (CountVotes::AwaitVotes(poll, choices), Next::Ask(Query::VotesOf(id)))
                    },
                    Err(e) => (CountVotes::Done, Next::Answer(Err(e))),
                },
                _ => (CountVotes::Done, out_of_turn()),
            },
            CountVotes::AwaitVotes(poll, choices) => match reply {
                Reply::Votes(loaded) => match count_records(loaded) {
                    Ok(votes) => {
                        if votes.len() as u64 > 0x7fff_ffff_ffff_ffffu64 {
                            (CountVotes::Done, Next::Abandon(String::from_str("more votes than a count can hold")))
                        } else {
                            (CountVotes::Done, Next::Answer(Ok(count_votes_at(&poll, &choices, &votes, now))))
                        }
                    },
                    Err(e) => (CountVotes::Done, Next::Answer(Err(e))),
                },
                _ => (CountVotes::Done, out_of_turn()),
            },
            CountVotes::Done => (CountVotes::Done, out_of_turn()),
        }
    }

    /// One step of the count now, by the system clock.
    pub fn step(self, reply: Reply) -> (r: (CountVotes, Next<Result<PollResultsResponse, Rejection>>))
        ensures
            exists|now: Instant| on_calendar(now) && #[trigger] count_votes_step(self, reply, now, r.0, r.1),
    {
        let now = clock_now();
        self.step_at(reply, now)
    }
}

} // verus!
