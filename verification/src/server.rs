//! The decisions of the service's nested endpoints (`/polls/<id>/...`) and of
//! their flat companions that keep older clients working.
//!
//! As in [`crate::handlers`], a request that talks to the store is a state
//! machine whose steps say what to ask the store next or how to answer; the
//! caller carries out the questions and hands back the replies. A new poll and
//! its choices are stored through a [`PollSetup`]. These endpoints answer a
//! refusal with a bare status.
use vstd::prelude::*;

use crate::clock::{clock_now, display_of, display_text, is_on_calendar, on_calendar, rfc3339_of, rfc3339_text, Instant};
use crate::ids::{is_random_uuid, new_uuid, parse_uuid, uuid_from_str};
use crate::models::{
    Choice, ChoiceCreationDetails, ChoiceResponse, NewChoice, NewPoll, Poll, PollCreationDetails,
    PollDetailsResponse, Vote, VoteCreationDetails, VoteResponse,
};
use crate::service::{abandoned_out_of_turn, out_of_turn, Next, Query, Reply, Status};
use crate::tally::{counted, superseded};
use crate::laws::each_voter_has_one_ballot;

verus! {

/// The poll a path names: `400` when the id is not a UUID.
pub fn poll_path(poll_id: &str) -> (r: Result<u128, Status>)
    ensures
        uuid_from_str(poll_id@) matches Some(id) ==> r == Ok::<u128, Status>(id),
        uuid_from_str(poll_id@) is None ==> r == Err::<u128, Status>(Status::BadRequest),
{
    match parse_uuid(poll_id) {
        Some(id) => Ok(id),
        None => Err(Status::BadRequest),
    }
}

/// The outcome of looking a record up: the record; `404` when there is none;
/// `500` when the lookup failed.
pub fn found<T>(lookup: Result<Option<T>, String>) -> (r: Result<T, Status>)
    ensures
        lookup matches Ok(Some(t)) ==> r == Ok::<T, Status>(t),
        lookup matches Ok(None) ==> r == Err::<T, Status>(Status::NotFound),
        lookup is Err ==> r == Err::<T, Status>(Status::InternalServerError),
{
    match lookup {
        Ok(Some(t)) => Ok(t),
        Ok(None) => Err(Status::NotFound),
        Err(_) => Err(Status::InternalServerError),
    }
}

/// The outcome of loading or storing records: the result, or `500` when the
/// store failed.
pub fn stored<T>(outcome: Result<T, String>) -> (r: Result<T, Status>)
    ensures
        outcome matches Ok(t) ==> r == Ok::<T, Status>(t),
        outcome is Err ==> r == Err::<T, Status>(Status::InternalServerError),
{
    match outcome {
        Ok(t) => Ok(t),
        Err(_) => Err(Status::InternalServerError),
    }
}

/// `copy` holds the same texts as `names`, in the same order.
pub open spec fn same_texts(copy: Seq<String>, names: Seq<String>) -> bool {
    &&& copy.len() == names.len()
    &&& forall|i: int| 0 <= i < names.len() ==> #[trigger] copy[i]@ == names[i]@
}

/// A copy of a list of names.
fn copy_names(names: &Vec<String>) -> (copy: Vec<String>)
    ensures
        same_texts(copy@, names@),
{
    let mut copy: Vec<String> = Vec::new();
    let mut i: usize = 0;
    while i < names.len()
        invariant
            i <= names@.len(),
            copy@.len() == i,
            forall|k: int| 0 <= k < i ==> #[trigger] copy@[k]@ == names@[k]@,
        decreases names@.len() - i,
    {
        copy.push(names[i].clone());
        i = i + 1;
    }
    copy
}

/// How a new poll's start is written: with chrono's `Display` (the flat
/// endpoints) or in RFC 3339 (the nested ones).
#[derive(Clone, Copy, Debug, PartialEq, Eq)]
pub enum StartStamp {
    Display,
    Rfc3339,
}

/// The text of the instant `t` as `style` writes it.
pub open spec fn stamp_text(style: StartStamp, t: Instant) -> Seq<char> {
    match style {
        StartStamp::Display => display_text(t),
        StartStamp::Rfc3339 => rfc3339_text(t),
    }
}

/// Writes the instant `t` as `style` asks.
fn stamp(style: StartStamp, t: Instant) -> (text: String)
    requires
        on_calendar(t),
    ensures
        text@ == stamp_text(style, t),
{
    match style {
        StartStamp::Display => display_of(t),
        StartStamp::Rfc3339 => rfc3339_of(t),
    }
}

/// A poll being created together with the choices its request names: the poll,
/// the names still to become choices, and the choices stored so far. The
/// choices are stored one at a time, in the order the request names them.
pub struct PollSetup {
    poll: NewPoll,
    requested: Vec<String>,
    pending: Option<NewChoice>,
    created: Vec<ChoiceResponse>,
}

impl PollSetup {
    /// The choices stored so far are the first requested names, in order, all of
    /// this poll; a choice waiting to be stored is the next requested name.
    #[verifier::type_invariant]
    spec fn well_formed(self) -> bool {
        &&& self.created@.len() <= self.requested@.len()
        &&& forall|i: int| 0 <= i < self.created@.len() ==> {
            &&& #[trigger] self.created@[i].name@ == self.requested@[i]@
            &&& self.created@[i].poll_uuid == self.poll.uuid
        }
        &&& self.pending matches Some(c) ==> {
            &&& self.created@.len() < self.requested@.len()
            &&& c.name@ == self.requested@[self.created@.len() as int]@
            &&& c.poll_uuid == self.poll.uuid
        }
    }

    /// The poll being created.
    pub closed spec fn poll_record(self) -> NewPoll {
        self.poll
    }

    /// The names the request asks choices for.
    pub closed spec fn requested_names(self) -> Seq<String> {
        self.requested@
    }

    /// The choices stored so far.
    pub closed spec fn stored_choices(self) -> Seq<ChoiceResponse> {
        self.created@
    }

    /// The choice handed out to be stored and not yet reported stored.
    pub closed spec fn waiting_choice(self) -> Option<NewChoice> {
        self.pending
    }

    /// Starts creating the poll a request describes, with the choices it names,
    /// if any: the poll gets the id `poll_id` and starts at `now`, written as
    /// `style` says.
    pub fn begin_at(details: &PollCreationDetails, style: StartStamp, now: Instant, poll_id: u128) -> (setup: PollSetup)
        requires
            on_calendar(now),
        ensures
            setup.poll_record().uuid == poll_id,
            setup.poll_record().name@ == details.name@,
            setup.poll_record().start_date@ == stamp_text(style, now),
            setup.poll_record().close_date@ == details.close_date@,
            details.choices matches Some(names) ==> same_texts(setup.requested_names(), names@),
            details.choices is None ==> setup.requested_names().len() == 0,
            setup.stored_choices().len() == 0,
            setup.waiting_choice() is None,
    {
        let requested = match &details.choices {
            Some(names) => copy_names(names),
            None => Vec::new(),
        };
        let poll = NewPoll {
            name: details.name.clone(),
            uuid: poll_id,
            start_date: stamp(style, now),
            close_date: details.close_date.clone(),
        };
        PollSetup { poll, requested, pending: None, created: Vec::new() }
    }

    /// Starts creating the poll a request describes, with a fresh random id,
    /// starting now by the system clock.
    pub fn begin(details: &PollCreationDetails, style: StartStamp) -> (setup: PollSetup)
        ensures
            is_random_uuid(setup.poll_record().uuid),
            exists|now: Instant| on_calendar(now) && #[trigger] stamp_text(style, now) == setup.poll_record().start_date@,
            setup.poll_record().name@ == details.name@,
            setup.poll_record().close_date@ == details.close_date@,
            details.choices matches Some(names) ==> same_texts(setup.requested_names(), names@),
            details.choices is None ==> setup.requested_names().len() == 0,
            setup.stored_choices().len() == 0,
            setup.waiting_choice() is None,
    {
        let now = clock_now();
        let poll_id = new_uuid();
        PollSetup::begin_at(details, style, now, poll_id)
    }

    /// The poll to store first.
    pub fn poll(&self) -> (poll: &NewPoll)
        ensures
            *poll == self.poll_record(),
    {
        &self.poll
    }

    /// The next choice to store, with a fresh random id: the first requested name
    /// that has no stored choice yet; `None` when every name has one.
    pub fn next_choice(&mut self) -> (r: Option<NewChoice>)
        ensures
            final(self).poll_record() == old(self).poll_record(),
            final(self).requested_names() == old(self).requested_names(),
            final(self).stored_choices() == old(self).stored_choices(),
            r is None <==> old(self).stored_choices().len() == old(self).requested_names().len(),
            r matches Some(c) ==> {
                &&& c.name@ == old(self).requested_names()[old(self).stored_choices().len() as int]@
                &&& c.poll_uuid == old(self).poll_record().uuid
                &&& is_random_uuid(c.uuid)
                &&& final(self).waiting_choice() matches Some(w) && w.name@ == c.name@ && w.uuid == c.uuid
                    && w.poll_uuid == c.poll_uuid
            },
            r is None ==> final(self).waiting_choice() == old(self).waiting_choice(),
    {
        proof {
            use_type_invariant(&*self);
        }
        if self.created.len() < self.requested.len() {
            let k = self.created.len();
            let choice = NewChoice { name: self.requested[k].clone(), uuid: new_uuid(), poll_uuid: self.poll.uuid };
            let handed_out = NewChoice { name: choice.name.clone(), uuid: choice.uuid, poll_uuid: choice.poll_uuid };
            self.pending = Some(choice);
            Some(handed_out)
        } else {
            None
        }
    }

    /// Records that the store kept the waiting choice, or passes on the store's
    /// error text, with which the request cannot be served. With no choice
    /// waiting, nothing changes.
    pub fn choice_stored(&mut self, outcome: Result<(), String>) -> (r: Result<(), String>)
        ensures
            final(self).poll_record() == old(self).poll_record(),
            final(self).requested_names() == old(self).requested_names(),
            outcome matches Err(e) ==> (r matches Err(f) && f@ == e@)
                && final(self).stored_choices() == old(self).stored_choices(),
            outcome is Ok ==> r is Ok,
            outcome is Ok ==> match old(self).waiting_choice() {
                Some(w) => {
                    &&& final(self).stored_choices() == old(self).stored_choices().push(
                        ChoiceResponse { uuid: w.uuid, name: w.name, poll_uuid: w.poll_uuid },
                    )
                    &&& final(self).waiting_choice() is None
                },
                None => final(self).stored_choices() == old(self).stored_choices(),
            },
    {
        proof {
            use_type_invariant(&*self);
        }
        match outcome {
            Err(e) => Err(e),
            Ok(()) => {
                let mut waiting: Option<NewChoice> = None;
                std::mem::swap(&mut waiting, &mut self.pending);
                match waiting {
                    Some(c) => {
                        let mut created: Vec<ChoiceResponse> = Vec::new();
                        std::mem::swap(&mut created, &mut self.created);
                        created.push(ChoiceResponse { uuid: c.uuid, name: c.name, poll_uuid: c.poll_uuid });
                        std::mem::swap(&mut created, &mut self.created);
                        Ok(())
                    },
                    None => Ok(()),
                }
            },
        }
    }

    /// The answer once the choices are stored: `201` with the poll and the
    /// choices stored, in the order the request named them.
    pub fn finish(self) -> (r: (Status, PollDetailsResponse))
        ensures
            r.0 == Status::Created,
            r.1.uuid == self.poll_record().uuid,
            r.1.name == self.poll_record().name,
            r.1.start_date == self.poll_record().start_date,
            r.1.close_date == self.poll_record().close_date,
            r.1.choices@ == self.stored_choices(),
            r.1.choices@.len() <= self.requested_names().len(),
            forall|i: int| 0 <= i < r.1.choices@.len() ==> {
                &&& #[trigger] r.1.choices@[i].name@ == self.requested_names()[i]@
                &&& r.1.choices@[i].poll_uuid == r.1.uuid
            },
    {
        proof {
            use_type_invariant(&self);
        }
        let PollSetup { poll, requested: _, pending: _, created } = self;
        (Status::Created, PollDetailsResponse {
            uuid: poll.uuid,
            name: poll.name,
            start_date: poll.start_date,
            close_date: poll.close_date,
            choices: created,
        })
    }
}

/// A choice as these endpoints show it.
pub fn choice_response(choice: &Choice) -> (r: ChoiceResponse)
    ensures
        r.uuid == choice.uuid,
        r.name@ == choice.name@,
        r.poll_uuid == choice.poll_uuid,
{
    ChoiceResponse { uuid: choice.uuid, name: choice.name.clone(), poll_uuid: choice.poll_uuid }
}

/// `shown` shows the choices `choices`, one for one and in order.
pub open spec fn shows_choices(shown: Seq<ChoiceResponse>, choices: Seq<Choice>) -> bool {
    &&& shown.len() == choices.len()
    &&& forall|i: int| 0 <= i < choices.len() ==> {
        &&& (#[trigger] shown[i]).uuid == choices[i].uuid
        &&& shown[i].name@ == choices[i].name@
        &&& shown[i].poll_uuid == choices[i].poll_uuid
    }
}

/// A poll's choices as these endpoints list them.
pub fn choice_responses(choices: &Vec<Choice>) -> (r: Vec<ChoiceResponse>)
    ensures
        shows_choices(r@, choices@),
{
    let mut shown: Vec<ChoiceResponse> = Vec::new();
    let mut i: usize = 0;
    while i < choices.len()
        invariant
            i <= choices@.len(),
            shows_choices(shown@, choices@.take(i as int)),
        decreases choices@.len() - i,
    {
        shown.push(choice_response(&choices[i]));
        i = i + 1;
    }
    assert(choices@.take(choices@.len() as int) =~= choices@);
    shown
}

/// A poll and its choices as these endpoints show them.
pub fn poll_details(poll: &Poll, choices: &Vec<Choice>) -> (r: PollDetailsResponse)
    ensures
        r.uuid == poll.uuid,
        r.name@ == poll.name@,
        r.start_date@ == poll.start_date@,
        r.close_date@ == poll.close_date@,
        shows_choices(r.choices@, choices@),
{
    PollDetailsResponse {
        uuid: poll.uuid,
        name: poll.name.clone(),
        start_date: poll.start_date.clone(),
        close_date: poll.close_date.clone(),
        choices: choice_responses(choices),
    }
}

/// The answer once the store has tried to keep a new choice: `201` with the
/// choice, or `500`.
pub fn choice_added(choice: NewChoice, outcome: Result<(), String>) -> (r: Result<(Status, ChoiceResponse), Status>)
    ensures
        outcome is Ok ==> (r matches Ok(a) && a.0 == Status::Created && a.1.uuid == choice.uuid
            && a.1.name == choice.name && a.1.poll_uuid == choice.poll_uuid),
        outcome is Err ==> r == Err::<(Status, ChoiceResponse), Status>(Status::InternalServerError),
{
    match outcome {
        Ok(()) => Ok((Status::Created, ChoiceResponse { uuid: choice.uuid, name: choice.name, poll_uuid: choice.poll_uuid })),
        Err(_) => Err(Status::InternalServerError),
    }
}

/// A vote request on a poll's path, read: the poll, the choice and the signature.
#[derive(Debug)]
pub struct BallotRequest {
    pub poll_id: u128,
    pub choice_id: u128,
    pub signature: String,
}

/// Reads a vote request on a poll's path: `400` when the path's id or the
/// request's `choice_uuid` is not a UUID.
pub fn ballot_request(poll_id: &str, details: &VoteCreationDetails) -> (r: Result<BallotRequest, Status>)
    ensures
        (uuid_from_str(poll_id@) is None || uuid_from_str(details.choice_uuid@) is None)
            ==> r == Err::<BallotRequest, Status>(Status::BadRequest),
        uuid_from_str(poll_id@) matches Some(p) ==> uuid_from_str(details.choice_uuid@) matches Some(c) ==> r
            == Ok::<BallotRequest, Status>(BallotRequest { poll_id: p, choice_id: c, signature: details.signature }),
{
    let poll_id = match parse_uuid(poll_id) {
        Some(id) => id,
        None => return Err(Status::BadRequest),
    };
    let choice_id = match parse_uuid(details.choice_uuid.as_str()) {
        Some(id) => id,
        None => return Err(Status::BadRequest),
    };
    Ok(BallotRequest { poll_id, choice_id, signature: details.signature.clone() })
}

/// Decides a vote once the store has found the requested choice: `400` when the
/// choice belongs to another poll than the path names; otherwise the vote to
/// store, with id `vote_id`, recorded at `now`.
pub fn ballot_at(request: BallotRequest, choice: &Choice, vote_id: u128, now: Instant) -> (r: Result<Vote, Status>)
    ensures
        choice.poll_uuid != request.poll_id ==> r == Err::<Vote, Status>(Status::BadRequest),
        choice.poll_uuid == request.poll_id ==> r == Ok::<Vote, Status>(
            Vote { uuid: vote_id, signature: request.signature, choice_uuid: request.choice_id, created_at: now },
        ),
{
    if choice.poll_uuid != request.poll_id {
        return Err(Status::BadRequest);
    }
    Ok(Vote { uuid: vote_id, signature: request.signature, choice_uuid: request.choice_id, created_at: now })
}

/// `r` shows the vote `v`, cast in the poll `poll`, with its time in RFC 3339.
pub open spec fn shows_vote(r: VoteResponse, v: Vote, poll: u128) -> bool {
    &&& r.uuid == v.uuid
    &&& r.signature@ == v.signature@
    &&& r.choice_uuid == v.choice_uuid
    &&& r.poll_uuid == poll
    &&& r.timestamp@ == rfc3339_text(v.created_at)
}

/// A vote as these endpoints show it, in the poll `poll_uuid`.
pub fn vote_response(vote: &Vote, poll_uuid: u128) -> (r: VoteResponse)
    requires
        on_calendar(vote.created_at),
    ensures
        shows_vote(r, *vote, poll_uuid),
{
    VoteResponse {
        uuid: vote.uuid,
        signature: vote.signature.clone(),
        choice_uuid: vote.choice_uuid,
        poll_uuid,
        timestamp: rfc3339_of(vote.created_at),
    }
}

/// The position of the ballot of the voter `signature` among `votes`: their
/// most recent vote. `None` when they have no vote there.
pub fn latest_vote_of(votes: &Vec<Vote>, signature: &String) -> (r: Option<usize>)
    ensures
        r matches Some(i) ==> i < votes@.len() && counted(votes@, i as int) && votes@[i as int].signature@ == signature@,
        r is None ==> forall|i: int| 0 <= i < votes@.len() ==> #[trigger] votes@[i].signature@ != signature@,
{
    let mut i: usize = 0;
    while i < votes.len()
        invariant
            i <= votes@.len(),
            forall|k: int| 0 <= k < i && #[trigger] votes@[k].signature@ == signature@ ==> !counted(votes@, k),
        decreases votes@.len() - i,
    {
        if votes[i].signature == *signature && !superseded(votes, i) {
            return Some(i);
        }
        i = i + 1;
    }
    proof {
        assert forall|k: int| 0 <= k < votes@.len() implies #[trigger] votes@[k].signature@ != signature@ by {
            if votes@[k].signature@ == signature@ {
                each_voter_has_one_ballot(votes@, k);
            }
        }
    }
    None
}

/// `r` is the vote a flat vote request stores, with id `vote_id`, recorded at
/// `now`: the request's signature and choice. This endpoint does not look the
/// choice up; a `choice_uuid` that is not a UUID cannot be served.
pub open spec fn unchecked_vote_outcome(r: Result<Vote, String>, details: VoteCreationDetails, vote_id: u128, now: Instant) -> bool {
    &&& uuid_from_str(details.choice_uuid@) matches Some(c) ==> r == Ok::<Vote, String>(
        Vote { uuid: vote_id, signature: details.signature, choice_uuid: c, created_at: now },
    )
    &&& uuid_from_str(details.choice_uuid@) is None ==> (r matches Err(t) && t@ == "choice_uuid is not a UUID"@)
}

/// The vote a flat vote request stores, with id `vote_id`, recorded at `now`.
pub fn unchecked_vote_at(details: &VoteCreationDetails, vote_id: u128, now: Instant) -> (r: Result<Vote, String>)
    ensures
        unchecked_vote_outcome(r, *details, vote_id, now),
{
    match parse_uuid(details.choice_uuid.as_str()) {
        Some(choice_uuid) => Ok(Vote { uuid: vote_id, signature: details.signature.clone(), choice_uuid, created_at: now }),
        None => Err(String::from_str("choice_uuid is not a UUID")),
    }
}

/// The vote a flat vote request stores, with a fresh random id, recorded now by
/// the system clock.
pub fn unchecked_vote(details: &VoteCreationDetails) -> (r: Result<Vote, String>)
    ensures
        exists|vote_id: u128, now: Instant| is_random_uuid(vote_id) && on_calendar(now)
            && #[trigger] unchecked_vote_outcome(r, *details, vote_id, now),
        r matches Ok(v) ==> is_random_uuid(v.uuid) && on_calendar(v.created_at) && v.signature == details.signature
            && uuid_from_str(details.choice_uuid@) == Some(v.choice_uuid),
{
    let vote_id = new_uuid();
    let now = clock_now();
    unchecked_vote_at(details, vote_id, now)
}

/// `d` shows the poll `p` with the choices `cs`.
pub open spec fn shows_poll(d: PollDetailsResponse, p: Poll, cs: Seq<Choice>) -> bool {
    &&& d.uuid == p.uuid
    &&& d.name@ == p.name@
    &&& d.start_date@ == p.start_date@
    &&& d.close_date@ == p.close_date@
    &&& shows_choices(d.choices@, cs)
}

/// `next` answers with the refusal `status`.
pub open spec fn answers_status<A>(next: Next<Result<A, Status>>, status: Status) -> bool {
    next matches Next::Answer(Err(s)) && s == status
}

/// Where a request for a poll and its choices stands.
#[derive(Debug)]
pub enum GetPoll {
    /// Waiting for the store to find the poll with this id.
    AwaitPoll(u128),
    /// Waiting for the store to load the choices of the poll with this id.
    AwaitChoices(Poll, u128),
    /// Answered or given up.
    Done,
}

/// One step of a request for a poll.
pub open spec fn get_poll_step(state: GetPoll, reply: Reply, next_state: GetPoll, next: Next<Result<PollDetailsResponse, Status>>) -> bool {
    match state {
        GetPoll::AwaitPoll(id) => match reply {
            Reply::Poll(Ok(Some(p))) => next_state == GetPoll::AwaitChoices(p, id)
                && next == Next::<Result<PollDetailsResponse, Status>>::Ask(Query::ChoicesOf(id)),
            Reply::Poll(Ok(None)) => next_state == GetPoll::Done && answers_status(next, Status::NotFound),
            Reply::Poll(Err(_)) => next_state == GetPoll::Done && answers_status(next, Status::InternalServerError),
            _ => next_state == GetPoll::Done && abandoned_out_of_turn(next),
        },
        GetPoll::AwaitChoices(p, _) => match reply {
            Reply::Choices(Ok(cs)) => next_state == GetPoll::Done && (next matches Next::Answer(Ok(d)) && shows_poll(d, p, cs@)),
            Reply::Choices(Err(_)) => next_state == GetPoll::Done && answers_status(next, Status::InternalServerError),
            _ => next_state == GetPoll::Done && abandoned_out_of_turn(next),
        },
        GetPoll::Done => next_state == GetPoll::Done && abandoned_out_of_turn(next),
    }
}

impl GetPoll {
    /// Starts a request for the poll a path names: `400` when the id is not a
    /// UUID; otherwise it asks the store for the poll.
    pub fn start(poll_id: &str) -> (r: (GetPoll, Next<Result<PollDetailsResponse, Status>>))
        ensures
            uuid_from_str(poll_id@) matches Some(id) ==> r.0 == GetPoll::AwaitPoll(id)
                && r.1 == Next::<Result<PollDetailsResponse, Status>>::Ask(Query::FindPoll(id)),
            uuid_from_str(poll_id@) is None ==> r.0 == GetPoll::Done && answers_status(r.1, Status::BadRequest),
    {
        match poll_path(poll_id) {
            Ok(id) => (GetPoll::AwaitPoll(id), Next::Ask(Query::FindPoll(id))),
            Err(s) => (GetPoll::Done, Next::Answer(Err(s))),
        }
    }

    /// One step of the request.
    pub fn step(self, reply: Reply) -> (r: (GetPoll, Next<Result<PollDetailsResponse, Status>>))
        ensures
            get_poll_step(self, reply, r.0, r.1),
    {
        match self {
            GetPoll::AwaitPoll(id) => match reply {
                Reply::Poll(lookup) => match found(lookup) {
                    Ok(poll) => (GetPoll::AwaitChoices(poll, id), Next::Ask(Query::ChoicesOf(id))),
                    Err(s) => (GetPoll::Done, Next::Answer(Err(s))),
                },
                _ => (GetPoll::Done, out_of_turn()),
            },
            GetPoll::AwaitChoices(poll, _) => match reply {
                Reply::Choices(loaded) => match stored(loaded) {
                    Ok(choices) => (GetPoll::Done, Next::Answer(Ok(poll_details(&poll, &choices)))),
                    Err(s) => (GetPoll::Done, Next::Answer(Err(s))),
                },
                _ => (GetPoll::Done, out_of_turn()),
            },
            GetPoll::Done => (GetPoll::Done, out_of_turn()),
        }
    }
}

/// Where a request for a poll's choices stands.
#[derive(Debug)]
pub enum GetPollChoices {
    /// Waiting for the store to find the poll with this id.
    AwaitPoll(u128),
    /// Waiting for the store to load the choices of the poll with this id.
    AwaitChoices(u128),
    /// Answered or given up.
    Done,
}

/// One step of a request for a poll's choices.
pub open spec fn get_poll_choices_step(
    state: GetPollChoices,
    reply: Reply,
    next_state: GetPollChoices,
    next: Next<Result<Vec<ChoiceResponse>, Status>>,
) -> bool {
    match state {
        GetPollChoices::AwaitPoll(id) => match reply {
            Reply::Poll(Ok(Some(_))) => next_state == GetPollChoices::AwaitChoices(id)
                && next == Next::<Result<Vec<ChoiceResponse>, Status>>::Ask(Query::ChoicesOf(id)),
            Reply::Poll(Ok(None)) => next_state == GetPollChoices::Done && answers_status(next, Status::NotFound),
            Reply::Poll(Err(_)) => next_state == GetPollChoices::Done && answers_status(next, Status::InternalServerError),
            _ => next_state == GetPollChoices::Done && abandoned_out_of_turn(next),
        },
        GetPollChoices::AwaitChoices(_) => match reply {
            Reply::Choices(Ok(cs)) => next_state == GetPollChoices::Done && (next matches Next::Answer(Ok(shown))
                && shows_choices(shown@, cs@)),
            Reply::Choices(Err(_)) => next_state == GetPollChoices::Done && answers_status(next, Status::InternalServerError),
            _ => next_state == GetPollChoices::Done && abandoned_out_of_turn(next),
        },
        GetPollChoices::Done => next_state == GetPollChoices::Done && abandoned_out_of_turn(next),
    }
}

impl GetPollChoices {
    /// Starts a request for the choices of the poll a path names: `400` when the
    /// id is not a UUID; otherwise it asks the store for the poll.
    pub fn start(poll_id: &str) -> (r: (GetPollChoices, Next<Result<Vec<ChoiceResponse>, Status>>))
        ensures
            uuid_from_str(poll_id@) matches Some(id) ==> r.0 == GetPollChoices::AwaitPoll(id)
                && r.1 == Next::<Result<Vec<ChoiceResponse>, Status>>::Ask(Query::FindPoll(id)),
            uuid_from_str(poll_id@) is None ==> r.0 == GetPollChoices::Done && answers_status(r.1, Status::BadRequest),
    {
        match poll_path(poll_id) {
            Ok(id) => (GetPollChoices::AwaitPoll(id), Next::Ask(Query::FindPoll(id))),
            Err(s) => (GetPollChoices::Done, Next::Answer(Err(s))),
        }
    }

    /// One step of the request.
    pub fn step(self, reply: Reply) -> (r: (GetPollChoices, Next<Result<Vec<ChoiceResponse>, Status>>))
        ensures
            get_poll_choices_step(self, reply, r.0, r.1),
    {
        match self {
            GetPollChoices::AwaitPoll(id) => match reply {
                Reply::Poll(lookup) => match found(lookup) {
                    Ok(_) => (GetPollChoices::AwaitChoices(id), Next::Ask(Query::ChoicesOf(id))),
                    Err(s) => (GetPollChoices::Done, Next::Answer(Err(s))),
                },
                _ => (GetPollChoices::Done, out_of_turn()),
            },
            GetPollChoices::AwaitChoices(_) => match reply {
                Reply::Choices(loaded) => match stored(loaded) {
                    Ok(choices) => (GetPollChoices::Done, Next::Answer(Ok(choice_responses(&choices)))),
                    Err(s) => (GetPollChoices::Done, Next::Answer(Err(s))),
                },
                _ => (GetPollChoices::Done, out_of_turn()),
            },
            GetPollChoices::Done => (GetPollChoices::Done, out_of_turn()),
        }
    }
}

/// Where a request that adds a choice to a poll stands.
#[derive(Debug)]
pub enum CreatePollChoice {
    /// Waiting for the store to find the poll with this id; the new choice's name.
    AwaitPoll(u128, String),
    /// Waiting for the store to keep the choice.
    AwaitStore(NewChoice),
    /// Answered or given up.
    Done,
}

/// One step of a request that adds a choice, the choice getting the id `choice_id`.
pub open spec fn create_poll_choice_step(
    state: CreatePollChoice,
    reply: Reply,
    choice_id: u128,
    next_state: CreatePollChoice,
    next: Next<Result<(Status, ChoiceResponse), Status>>,
) -> bool {
    match state {
        CreatePollChoice::AwaitPoll(id, name) => match reply {
            Reply::Poll(Ok(Some(_))) => {
                &&& next_state == CreatePollChoice::AwaitStore(NewChoice { uuid: choice_id, name, poll_uuid: id })
                &&& next == Next::<Result<(Status, ChoiceResponse), Status>>::Ask(
                    Query::StoreChoice(NewChoice { uuid: choice_id, name, poll_uuid: id }),
                )
            },
            Reply::Poll(Ok(None)) => next_state == CreatePollChoice::Done && answers_status(next, Status::NotFound),
            Reply::Poll(Err(_)) => next_state == CreatePollChoice::Done && answers_status(next, Status::InternalServerError),
            _ => next_state == CreatePollChoice::Done && abandoned_out_of_turn(next),
        },
        CreatePollChoice::AwaitStore(c) => match reply {
            Reply::Stored(Ok(())) => next_state == CreatePollChoice::Done && next == Next::<Result<(Status, ChoiceResponse), Status>>::Answer(
                Ok((Status::Created, ChoiceResponse { uuid: c.uuid, name: c.name, poll_uuid: c.poll_uuid })),
            ),
            Reply::Stored(Err(_)) => next_state == CreatePollChoice::Done && answers_status(next, Status::InternalServerError),
            _ => next_state == CreatePollChoice::Done && abandoned_out_of_turn(next),
        },
        CreatePollChoice::Done => next_state == CreatePollChoice::Done && abandoned_out_of_turn(next),
    }
}

impl CreatePollChoice {
    /// Starts a request that adds a choice to the poll a path names: `400` when
    /// the id is not a UUID; otherwise it asks the store for the poll. The
    /// request's own `poll_uuid` plays no part.
    pub fn start(poll_id: &str, details: &ChoiceCreationDetails) -> (r: (CreatePollChoice, Next<Result<(Status, ChoiceResponse), Status>>))
        ensures
            uuid_from_str(poll_id@) matches Some(id) ==> r.0 == CreatePollChoice::AwaitPoll(id, details.name)
                && r.1 == Next::<Result<(Status, ChoiceResponse), Status>>::Ask(Query::FindPoll(id)),
            uuid_from_str(poll_id@) is None ==> r.0 == CreatePollChoice::Done && answers_status(r.1, Status::BadRequest),
    {
        match poll_path(poll_id) {
            Ok(id) => (CreatePollChoice::AwaitPoll(id, details.name.clone()), Next::Ask(Query::FindPoll(id))),
            Err(s) => (CreatePollChoice::Done, Next::Answer(Err(s))),
        }
    }

    /// One step of the request, a new choice getting the id `choice_id`.
    pub fn step_with(self, reply: Reply, choice_id: u128) -> (r: (CreatePollChoice, Next<Result<(Status, ChoiceResponse), Status>>))
        ensures
            create_poll_choice_step(self, reply, choice_id, r.0, r.1),
    {
        match self {
            CreatePollChoice::AwaitPoll(id, name) => match reply {
                Reply::Poll(lookup) => match found(lookup) {
                    Ok(_) => {
                        let asked = NewChoice { uuid: choice_id, name: name.clone(), poll_uuid: id };
                        (CreatePollChoice::AwaitStore(NewChoice { uuid: choice_id, name, poll_uuid: id }), Next::Ask(Query::StoreChoice(asked)))
                    },
                    Err(s) => (CreatePollChoice::Done, Next::Answer(Err(s))),
                },
                _ => (CreatePollChoice::Done, out_of_turn()),
            },
            CreatePollChoice::AwaitStore(choice) => match reply {
                Reply::Stored(outcome) => (CreatePollChoice::Done, Next::Answer(choice_added(choice, outcome))),
                _ => (CreatePollChoice::Done, out_of_turn()),
            },
            CreatePollChoice::Done => (CreatePollChoice::Done, out_of_turn()),
        }
    }

    /// One step of the request, a new choice getting a fresh random id.
    pub fn step(self, reply: Reply) -> (r: (CreatePollChoice, Next<Result<(Status, ChoiceResponse), Status>>))
        ensures
            exists|choice_id: u128| is_random_uuid(choice_id) && #[trigger] create_poll_choice_step(self, reply, choice_id, r.0, r.1),
    {
        let choice_id = new_uuid();
        self.step_with(reply, choice_id)
    }
}

/// Where a vote request on a poll's path stands.
#[derive(Debug)]
pub enum CastPollVote {
    /// Waiting for the store to find the requested choice.
    AwaitChoice(BallotRequest),
    /// Waiting for the store to keep the vote, cast in the poll with this id.
    AwaitStore(Vote, u128),
    /// Answered or given up.
    Done,
}

/// One step of a vote request on a poll's path at `now`, the vote getting the
/// id `vote_id` if it is taken.
pub open spec fn cast_poll_vote_step(
    state: CastPollVote,
    reply: Reply,
    now: Instant,
    vote_id: u128,
    next_state: CastPollVote,
    next: Next<Result<(Status, VoteResponse), Status>>,
) -> bool {
    match state {
        CastPollVote::AwaitChoice(q) => match reply {
            Reply::Choice(Ok(Some(c))) => if c.poll_uuid != q.poll_id {
                next_state == CastPollVote::Done && answers_status(next, Status::BadRequest)
            } else {
                &&& next_state == CastPollVote::AwaitStore(
                    Vote { uuid: vote_id, signature: q.signature, choice_uuid: q.choice_id, created_at: now },
                    q.poll_id,
                )
                &&& next == Next::<Result<(Status, VoteResponse), Status>>::Ask(
                    Query::StoreTimedVote(Vote { uuid: vote_id, signature: q.signature, choice_uuid: q.choice_id, created_at: now }),
                )
            },
            Reply::Choice(Ok(None)) => next_state == CastPollVote::Done && answers_status(next, Status::NotFound),
            Reply::Choice(Err(_)) => next_state == CastPollVote::Done && answers_status(next, Status::InternalServerError),
            _ => next_state == CastPollVote::Done && abandoned_out_of_turn(next),
        },
        CastPollVote::AwaitStore(v, poll) => match reply {
            Reply::Stored(Ok(())) => next_state == CastPollVote::Done && if on_calendar(v.created_at) {
                next matches Next::Answer(Ok(a)) && a.0 == Status::Created && shows_vote(a.1, v, poll)
            } else {
                answers_status(next, Status::InternalServerError)
            },
            Reply::Stored(Err(_)) => next_state == CastPollVote::Done && answers_status(next, Status::InternalServerError),
            _ => next_state == CastPollVote::Done && abandoned_out_of_turn(next),
        },
        CastPollVote::Done => next_state == CastPollVote::Done && abandoned_out_of_turn(next),
    }
}

impl CastPollVote {
    /// Starts a vote request on a poll's path: `400` when the path's id or the
    /// request's `choice_uuid` is not a UUID; otherwise it asks the store for the
    /// choice.
    pub fn start(poll_id: &str, details: &VoteCreationDetails) -> (r: (CastPollVote, Next<Result<(Status, VoteResponse), Status>>))
        ensures
            (uuid_from_str(poll_id@) is None || uuid_from_str(details.choice_uuid@) is None)
                ==> r.0 == CastPollVote::Done && answers_status(r.1, Status::BadRequest),
            uuid_from_str(poll_id@) matches Some(p) ==> uuid_from_str(details.choice_uuid@) matches Some(c) ==> {
                &&& r.0 == CastPollVote::AwaitChoice(BallotRequest { poll_id: p, choice_id: c, signature: details.signature })
                &&& r.1 == Next::<Result<(Status, VoteResponse), Status>>::Ask(Query::FindChoice(c))
            },
    {
        match ballot_request(poll_id, details) {
            Ok(request) => {
                let id = request.choice_id;
                (CastPollVote::AwaitChoice(request), Next::Ask(Query::FindChoice(id)))
            },
            Err(s) => (CastPollVote::Done, Next::Answer(Err(s))),
        }
    }

    /// One step at `now`, a vote that is taken getting the id `vote_id`. A vote
    /// is kept only for a choice of the poll the path names.
    pub fn step_at(self, reply: Reply, now: Instant, vote_id: u128) -> (r: (CastPollVote, Next<Result<(Status, VoteResponse), Status>>))
        ensures
            cast_poll_vote_step(self, reply, now, vote_id, r.0, r.1),
            r.1 matches Next::Ask(Query::StoreTimedVote(v)) ==> {
                &&& self matches CastPollVote::AwaitChoice(q)
                &&& reply matches Reply::Choice(Ok(Some(c)))
                &&& c.poll_uuid == q.poll_id
                &&& v.choice_uuid == q.choice_id
            },
    {
        match self {
            CastPollVote::AwaitChoice(request) => match reply {
                Reply::Choice(lookup) => match found(lookup) {
                    Ok(choice) => {
                        let poll = request.poll_id;
                        match ballot_at(request, &choice, vote_id, now) {
                            Ok(vote) => {
                                let asked = Vote {
                                    uuid: vote.uuid,
                                    signature: vote.signature.clone(),
                                    choice_uuid: vote.choice_uuid,
                                    created_at: vote.created_at,
                                };
                                (CastPollVote::AwaitStore(vote, poll), Next::Ask(Query::StoreTimedVote(asked)))
                            },
                            Err(s) => (CastPollVote::Done, Next::Answer(Err(s))),
                        }
                    },
                    Err(s) => (CastPollVote::Done, Next::Answer(Err(s))),
                },
                _ => (CastPollVote::Done, out_of_turn()),
            },
            CastPollVote::AwaitStore(vote, poll) => match reply {
                Reply::Stored(Ok(())) => {
                    if is_on_calendar(vote.created_at) {
                        (CastPollVote::Done, Next::Answer(Ok((Status::Created, vote_response(&vote, poll)))))
                    } else {
                        (CastPollVote::Done, Next::Answer(Err(Status::InternalServerError)))
                    }
                },
                Reply::Stored(Err(_)) => (CastPollVote::Done, Next::Answer(Err(Status::InternalServerError))),
                _ => (CastPollVote::Done, out_of_turn()),
            },
            CastPollVote::Done => (CastPollVote::Done, out_of_turn()),
        }
    }

    /// One step now, by the system clock, with a fresh random id for a vote that
    /// is taken.
    pub fn step(self, reply: Reply) -> (r: (CastPollVote, Next<Result<(Status, VoteResponse), Status>>))
        ensures
            exists|now: Instant, vote_id: u128| on_calendar(now) && is_random_uuid(vote_id)
                && #[trigger] cast_poll_vote_step(self, reply, now, vote_id, r.0, r.1),
    {
        let now = clock_now();
        let vote_id = new_uuid();
        self.step_at(reply, now, vote_id)
    }
}

/// Where a request for a voter's latest vote in a poll stands.
#[derive(Debug)]
pub enum GetPollUserVote {
    /// Waiting for the store to find the poll with this id; the voter's signature.
    AwaitPoll(u128, String),
    /// Waiting for the store to load the votes of the poll with this id.
    AwaitVotes(u128, String),
    /// Answered or given up.
    Done,
}

/// The voter `signature` has a vote among `votes`.
pub open spec fn voted_in(votes: Seq<Vote>, signature: Seq<char>) -> bool {
    exists|i: int| 0 <= i < votes.len() && #[trigger] votes[i].signature@ == signature
}

/// `next` answers with the ballot of the voter `signature` among `votes`, in the
/// poll `poll`; or with `500` when chrono cannot write its time.
pub open spec fn answers_with_ballot(next: Next<Result<VoteResponse, Status>>, votes: Seq<Vote>, signature: Seq<char>, poll: u128) -> bool {
    exists|i: int| 0 <= i < votes.len() && #[trigger] counted(votes, i) && votes[i].signature@ == signature && if on_calendar(
        votes[i].created_at,
    ) {
        next matches Next::Answer(Ok(r)) && shows_vote(r, votes[i], poll)
    } else {
        answers_status(next, Status::InternalServerError)
    }
}

/// One step of a request for a voter's latest vote.
pub open spec fn get_poll_user_vote_step(
    state: GetPollUserVote,
    reply: Reply,
    next_state: GetPollUserVote,
    next: Next<Result<VoteResponse, Status>>,
) -> bool {
    match state {
        GetPollUserVote::AwaitPoll(id, s) => match reply {
            Reply::Poll(Ok(Some(_))) => next_state == GetPollUserVote::AwaitVotes(id, s)
                && next == Next::<Result<VoteResponse, Status>>::Ask(Query::VotesOf(id)),
            Reply::Poll(Ok(None)) => next_state == GetPollUserVote::Done && answers_status(next, Status::NotFound),
            Reply::Poll(Err(_)) => next_state == GetPollUserVote::Done && answers_status(next, Status::InternalServerError),
            _ => next_state == GetPollUserVote::Done && abandoned_out_of_turn(next),
        },
        GetPollUserVote::AwaitVotes(id, s) => match reply {
            Reply::Votes(Ok(vs)) => next_state == GetPollUserVote::Done && (if voted_in(vs@, s@) {
                answers_with_ballot(next, vs@, s@, id)
            } else {
                answers_status(next, Status::NotFound)
            }),
            Reply::Votes(Err(_)) => next_state == GetPollUserVote::Done && answers_status(next, Status::InternalServerError),
            _ => next_state == GetPollUserVote::Done && abandoned_out_of_turn(next),
        },
        GetPollUserVote::Done => next_state == GetPollUserVote::Done && abandoned_out_of_turn(next),
    }
}

impl GetPollUserVote {
    /// Starts a request for the latest vote of `signature` in the poll a path
    /// names: `400` when the id is not a UUID; otherwise it asks the store for
    /// the poll.
    pub fn start(poll_id: &str, signature: &str) -> (r: (GetPollUserVote, Next<Result<VoteResponse, Status>>))
        ensures
            uuid_from_str(poll_id@) matches Some(id) ==> (r.0 matches GetPollUserVote::AwaitPoll(p, s) && p == id && s@ == signature@)
                && r.1 == Next::<Result<VoteResponse, Status>>::Ask(Query::FindPoll(id)),
            uuid_from_str(poll_id@) is None ==> r.0 == GetPollUserVote::Done && answers_status(r.1, Status::BadRequest),
    {
        match poll_path(poll_id) {
            Ok(id) => (GetPollUserVote::AwaitPoll(id, String::from_str(signature)), Next::Ask(Query::FindPoll(id))),
            Err(s) => (GetPollUserVote::Done, Next::Answer(Err(s))),
        }
    }

    /// One step of the request. The vote shown is the voter's most recent one
    /// in the poll.
    pub fn step(self, reply: Reply) -> (r: (GetPollUserVote, Next<Result<VoteResponse, Status>>))
        ensures
            get_poll_user_vote_step(self, reply, r.0, r.1),
    {
        match self {
            GetPollUserVote::AwaitPoll(id, signature) => match reply {
                Reply::Poll(lookup) => match found(lookup) {
                    Ok(_) => (GetPollUserVote::AwaitVotes(id, signature), Next::Ask(Query::VotesOf(id))),
                    Err(s) => (GetPollUserVote::Done, Next::Answer(Err(s))),
                },
                _ => (GetPollUserVote::Done, out_of_turn()),
            },
            GetPollUserVote::AwaitVotes(id, signature) => match reply {
                Reply::Votes(loaded) => match stored(loaded) {
                    Ok(votes) => match latest_vote_of(&votes, &signature) {
                        Some(i) => {
                            if is_on_calendar(votes[i].created_at) {
                                (GetPollUserVote::Done, Next::Answer(Ok(vote_response(&votes[i], id))))
                            } else {
                                (GetPollUserVote::Done, Next::Answer(Err(Status::InternalServerError)))
                            }
                        },
                        None => (GetPollUserVote::Done, Next::Answer(Err(Status::NotFound))),
                    },
                    Err(s) => (GetPollUserVote::Done, Next::Answer(Err(s))),
                },
                _ => (GetPollUserVote::Done, out_of_turn()),
            },
            GetPollUserVote::Done => (GetPollUserVote::Done, out_of_turn()),
        }
    }
}

} // verus!
