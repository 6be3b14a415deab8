//! What a request does from first question to answer, over every reply the
//! store can give: which records it asks for, what it keeps, and what its
//! answer shows of the records the store handed back.
use vstd::prelude::*;

use crate::clock::{closed_at, on_calendar, rfc3339_text, Instant};
use crate::handlers::{cast_vote_step, count_votes_step, CastVote, CountVotes, VoteRequest};
use crate::ids::{is_random_uuid, uuid_from_str, uuid_text};
use crate::laws::{each_voter_has_one_ballot, every_choice_is_listed, reported_status_matches_vote_admission};
use crate::models::{
    Choice, ChoiceResponse, NewChoice, NewVote, Poll, PollDetailsResponse, PollResultsResponse, Vote, VoteCreationDetails,
    VoteResponse,
};
use crate::server::{
    cast_poll_vote_step, create_poll_choice_step, get_poll_choices_step, get_poll_step, get_poll_user_vote_step,
    unchecked_vote_outcome, BallotRequest, CastPollVote, CreatePollChoice, GetPoll, GetPollChoices, GetPollUserVote,
};
use crate::service::{Next, Query, Rejection, Reply, Status};
use crate::tally::{counted, distribution};

verus! {

/// Counting a poll the store finds asks for that poll's choices, then for its
/// votes, and answers with a distribution in which every choice the store
/// gave has an entry and each entry is the count of the votes the store gave;
/// a leader with the most votes, more than none, exactly when there is a vote;
/// and the status `closed` exactly when the poll is closed at that instant.
pub proof fn count_lists_the_stores_choices_and_votes(
    p: Poll,
    cs: Vec<Choice>,
    vs: Vec<Vote>,
    now: Instant,
    s1: CountVotes,
    n1: Next<Result<PollResultsResponse, Rejection>>,
    s2: CountVotes,
    n2: Next<Result<PollResultsResponse, Rejection>>,
    s3: CountVotes,
    n3: Next<Result<PollResultsResponse, Rejection>>,
)
    requires
        count_votes_step(CountVotes::AwaitPoll, Reply::Poll(Ok(Some(p))), now, s1, n1),
        count_votes_step(s1, Reply::Choices(Ok(cs)), now, s2, n2),
        count_votes_step(s2, Reply::Votes(Ok(vs)), now, s3, n3),
        vs@.len() <= i64::MAX,
    ensures
        n1 == Next::<Result<PollResultsResponse, Rejection>>::Ask(Query::ChoicesOf(p.uuid)),
        n2 == Next::<Result<PollResultsResponse, Rejection>>::Ask(Query::VotesOf(p.uuid)),
        n3 matches Next::Answer(Ok(r)) && {
            &&& forall|k: int| 0 <= k < cs@.len() ==> r.vote_distribution@.contains_key(#[trigger] cs@[k].uuid)
            &&& r.vote_distribution@ == distribution(cs@, vs@)
            &&& (r.status@ == "closed"@) == closed_at(p.status@, p.close_date@, now)
            &&& (r.winning_choice is None) == (vs@.len() == 0)
            &&& r.winning_choice matches Some(w) ==> {
                &&& r.vote_distribution@.contains_key(w)
                &&& r.vote_distribution@[w] > 0
                &&& forall|k: u128| #[trigger] r.vote_distribution@.contains_key(k) ==> r.vote_distribution@[k] <= r.vote_distribution@[w]
            }
        },
{
    reported_status_matches_vote_admission(p.status@, p.close_date@, now);
    assert forall|k: int| 0 <= k < cs@.len() implies distribution(cs@, vs@).contains_key(#[trigger] cs@[k].uuid) by {
        every_choice_is_listed(cs@, vs@, k);
    }
}

/// A legacy vote is stored under the id drawn for it, with the request's
/// signature and choice, recorded at the instant given.
pub proof fn a_legacy_vote_has_its_own_id(r: Result<Vote, String>, d: VoteCreationDetails, vote_id: u128, now: Instant)
    requires
        unchecked_vote_outcome(r, d, vote_id, now),
        uuid_from_str(d.choice_uuid@) is Some,
    ensures
        r matches Ok(v) && {
            &&& v.uuid == vote_id
            &&& v.created_at == now
            &&& v.signature == d.signature
            &&& uuid_from_str(d.choice_uuid@) == Some(v.choice_uuid)
        },
{
}

/// Two legacy votes for the same choice drawn with different ids are stored
/// under different ids.
pub proof fn legacy_votes_for_one_choice_differ(
    r1: Result<Vote, String>,
    r2: Result<Vote, String>,
    d1: VoteCreationDetails,
    d2: VoteCreationDetails,
    id1: u128,
    id2: u128,
    now1: Instant,
    now2: Instant,
)
    requires
        unchecked_vote_outcome(r1, d1, id1, now1),
        unchecked_vote_outcome(r2, d2, id2, now2),
        uuid_from_str(d1.choice_uuid@) is Some,
        uuid_from_str(d1.choice_uuid@) == uuid_from_str(d2.choice_uuid@),
        id1 != id2,
    ensures
        r1 matches Ok(v1) && r2 matches Ok(v2) && v1.uuid != v2.uuid && v1.choice_uuid == v2.choice_uuid,
{
}

/// A request for a poll the store finds asks for the choices of the poll the
/// path names and answers with that poll as the store gave it (its id, name,
/// start and close) and the choices the store gave, one for one and in order.
pub proof fn get_poll_shows_the_stored_poll(
    id: u128,
    p: Poll,
    cs: Vec<Choice>,
    s1: GetPoll,
    n1: Next<Result<PollDetailsResponse, Status>>,
    s2: GetPoll,
    n2: Next<Result<PollDetailsResponse, Status>>,
)
    requires
        get_poll_step(GetPoll::AwaitPoll(id), Reply::Poll(Ok(Some(p))), s1, n1),
        get_poll_step(s1, Reply::Choices(Ok(cs)), s2, n2),
    ensures
        n1 == Next::<Result<PollDetailsResponse, Status>>::Ask(Query::ChoicesOf(id)),
        n2 matches Next::Answer(Ok(d)) && {
            &&& d.uuid == p.uuid
            &&& d.name@ == p.name@
            &&& d.start_date@ == p.start_date@
            &&& d.close_date@ == p.close_date@
            &&& d.choices@.len() == cs@.len()
            &&& forall|i: int| 0 <= i < cs@.len() ==> {
                &&& (#[trigger] d.choices@[i]).uuid == cs@[i].uuid
                &&& d.choices@[i].name@ == cs@[i].name@
                &&& d.choices@[i].poll_uuid == cs@[i].poll_uuid
            }
        },
{
}

/// A request for a poll's choices the store finds answers with the choices the
/// store gave for the poll the path names, one for one and in order.
pub proof fn get_poll_choices_shows_the_stored_choices(
    id: u128,
    p: Poll,
    cs: Vec<Choice>,
    s1: GetPollChoices,
    n1: Next<Result<Vec<ChoiceResponse>, Status>>,
    s2: GetPollChoices,
    n2: Next<Result<Vec<ChoiceResponse>, Status>>,
)
    requires
        get_poll_choices_step(GetPollChoices::AwaitPoll(id), Reply::Poll(Ok(Some(p))), s1, n1),
        get_poll_choices_step(s1, Reply::Choices(Ok(cs)), s2, n2),
    ensures
        n1 == Next::<Result<Vec<ChoiceResponse>, Status>>::Ask(Query::ChoicesOf(id)),
        n2 matches Next::Answer(Ok(shown)) && {
            &&& shown@.len() == cs@.len()
            &&& forall|i: int| 0 <= i < cs@.len() ==> {
                &&& (#[trigger] shown@[i]).uuid == cs@[i].uuid
                &&& shown@[i].name@ == cs@[i].name@
                &&& shown@[i].poll_uuid == cs@[i].poll_uuid
            }
        },
{
}

/// A vote on a poll's path for a choice of that poll is stored under the id
/// drawn for it, for the requested choice, with the request's signature,
/// recorded at the step's instant; once stored, the answer is `201` with that
/// vote, the poll of the path, and the time of casting in RFC 3339.
pub proof fn a_poll_vote_is_recorded_when_cast(
    q: BallotRequest,
    c: Choice,
    now: Instant,
    vote_id: u128,
    s1: CastPollVote,
    n1: Next<Result<(Status, VoteResponse), Status>>,
    later: Instant,
    other_id: u128,
    s2: CastPollVote,
    n2: Next<Result<(Status, VoteResponse), Status>>,
)
    requires
        c.poll_uuid == q.poll_id,
        on_calendar(now),
        cast_poll_vote_step(CastPollVote::AwaitChoice(q), Reply::Choice(Ok(Some(c))), now, vote_id, s1, n1),
        cast_poll_vote_step(s1, Reply::Stored(Ok(())), later, other_id, s2, n2),
    ensures
        n1 matches Next::Ask(Query::StoreTimedVote(v)) && {
            &&& v.uuid == vote_id
            &&& v.created_at == now
            &&& v.choice_uuid == q.choice_id
            &&& v.signature == q.signature
        },
        n2 matches Next::Answer(Ok(a)) && {
            &&& a.0 == Status::Created
            &&& a.1.uuid == vote_id
            &&& a.1.signature@ == q.signature@
            &&& a.1.choice_uuid == q.choice_id
            &&& a.1.poll_uuid == q.poll_id
            &&& a.1.timestamp@ == rfc3339_text(now)
        },
{
}

/// A vote on a poll's path for a choice of another poll is refused with `400`
/// and nothing is stored.
pub proof fn a_vote_for_another_polls_choice_is_refused(
    q: BallotRequest,
    c: Choice,
    now: Instant,
    vote_id: u128,
    s1: CastPollVote,
    n1: Next<Result<(Status, VoteResponse), Status>>,
)
    requires
        c.poll_uuid != q.poll_id,
        cast_poll_vote_step(CastPollVote::AwaitChoice(q), Reply::Choice(Ok(Some(c))), now, vote_id, s1, n1),
    ensures
        n1 == Next::<Result<(Status, VoteResponse), Status>>::Answer(Err(Status::BadRequest)),
        s1 == CastPollVote::Done,
{
}

/// Adding a choice to a poll the store finds stores a choice with the id drawn
/// for it, the requested name and the poll of the path; once stored, the answer
/// is `201` with that very choice.
pub proof fn an_added_choice_is_shown_as_stored(
    id: u128,
    name: String,
    p: Poll,
    choice_id: u128,
    s1: CreatePollChoice,
    n1: Next<Result<(Status, ChoiceResponse), Status>>,
    other_id: u128,
    s2: CreatePollChoice,
    n2: Next<Result<(Status, ChoiceResponse), Status>>,
)
    requires
        create_poll_choice_step(CreatePollChoice::AwaitPoll(id, name), Reply::Poll(Ok(Some(p))), choice_id, s1, n1),
        create_poll_choice_step(s1, Reply::Stored(Ok(())), other_id, s2, n2),
    ensures
        n1 matches Next::Ask(Query::StoreChoice(c)) && c.uuid == choice_id && c.name == name && c.poll_uuid == id,
        n2 matches Next::Answer(Ok(a)) && {
            &&& a.0 == Status::Created
            &&& a.1.uuid == choice_id
            &&& a.1.name == name
            &&& a.1.poll_uuid == id
        },
{
}

/// A request for a voter's latest vote in a poll the store finds asks for that
/// poll's votes and, when the voter has one among them, answers with the
/// voter's vote recorded last, in the poll of the path, with its time in
/// RFC 3339.
pub proof fn the_latest_vote_shown_is_the_voters_last(
    id: u128,
    signature: String,
    p: Poll,
    vs: Vec<Vote>,
    k: int,
    s1: GetPollUserVote,
    n1: Next<Result<VoteResponse, Status>>,
    s2: GetPollUserVote,
    n2: Next<Result<VoteResponse, Status>>,
)
    requires
        get_poll_user_vote_step(GetPollUserVote::AwaitPoll(id, signature), Reply::Poll(Ok(Some(p))), s1, n1),
        get_poll_user_vote_step(s1, Reply::Votes(Ok(vs)), s2, n2),
        0 <= k < vs@.len(),
        vs@[k].signature@ == signature@,
        forall|j: int| 0 <= j < vs@.len() ==> on_calendar(#[trigger] vs@[j].created_at),
    ensures
        n1 == Next::<Result<VoteResponse, Status>>::Ask(Query::VotesOf(id)),
        n2 matches Next::Answer(Ok(r)) && exists|i: int| {
            &&& 0 <= i < vs@.len()
            &&& #[trigger] vs@[i].signature@ == signature@
            &&& r.uuid == vs@[i].uuid
            &&& r.choice_uuid == vs@[i].choice_uuid
            &&& r.signature@ == signature@
            &&& r.poll_uuid == id
            &&& r.timestamp@ == rfc3339_text(vs@[i].created_at)
            &&& forall|j: int| 0 <= j < vs@.len() && vs@[j].signature@ == signature@
                ==> crate::clock::instant_le(vs@[j].created_at, vs@[i].created_at)
        },
{
    assert(crate::server::voted_in(vs@, signature@));
    assert(s1 == GetPollUserVote::AwaitVotes(id, signature));
    let i = choose|i: int| 0 <= i < vs@.len() && #[trigger] counted(vs@, i) && vs@[i].signature@ == signature@
        && if on_calendar(vs@[i].created_at) {
            n2 matches Next::Answer(Ok(r)) && crate::server::shows_vote(r, vs@[i], id)
        } else {
            crate::server::answers_status(n2, Status::InternalServerError)
        };
    assert(on_calendar(vs@[i].created_at));
    each_voter_has_one_ballot(vs@, i);
    assert forall|j: int| 0 <= j < vs@.len() && vs@[j].signature@ == signature@
        implies crate::clock::instant_le(vs@[j].created_at, vs@[i].created_at) by {
        each_voter_has_one_ballot(vs@, j);
    }
}

/// A flat vote for a choice the store finds asks for that choice's poll; when
/// the poll is closed at the step's instant the vote is refused with `403` and
/// nothing is stored; when it is open, the vote stored has the id drawn for it,
/// the requested choice and the request's signature, and once stored the
/// answer reports that signature and choice.
pub proof fn a_flat_vote_is_kept_only_while_open(
    q: VoteRequest,
    c: Choice,
    p: Poll,
    now: Instant,
    vote_id: u128,
    s1: CastVote,
    n1: Next<Result<String, Rejection>>,
    s2: CastVote,
    n2: Next<Result<String, Rejection>>,
    s3: CastVote,
    n3: Next<Result<String, Rejection>>,
)
    requires
        cast_vote_step(CastVote::AwaitChoice(q), Reply::Choice(Ok(Some(c))), now, vote_id, s1, n1),
        cast_vote_step(s1, Reply::Poll(Ok(Some(p))), now, vote_id, s2, n2),
        cast_vote_step(s2, Reply::Stored(Ok(())), now, vote_id, s3, n3),
    ensures
        n1 == Next::<Result<String, Rejection>>::Ask(Query::FindPoll(c.poll_uuid)),
        closed_at(p.status@, p.close_date@, now) ==> (n2 matches Next::Answer(Err(e)) && e.status == Status::Forbidden)
            && s2 == CastVote::Done,
        !closed_at(p.status@, p.close_date@, now) ==> {
            &&& n2 matches Next::Ask(Query::StoreVote(v)) && v.uuid == vote_id && v.choice_uuid == q.choice_id
                && v.signature == q.signature
            &&& n3 matches Next::Answer(Ok(t))
                && t@ == "Casting a vote with the signature "@ + q.signature@ + ", for choice "@ + uuid_text(q.choice_id)
        },
{
}

/// A count is refused with `404` "Poll not found" when the store has no such
/// poll, and with `500` and the store's own error text when the store fails to
/// find the poll, load its choices or load its votes; nothing more is asked.
pub proof fn a_count_reports_what_the_store_could_not_give(
    t: String,
    p: Poll,
    cs: Vec<Choice>,
    now: Instant,
    s1: CountVotes,
    n1: Next<Result<PollResultsResponse, Rejection>>,
    s2: CountVotes,
    n2: Next<Result<PollResultsResponse, Rejection>>,
    s3: CountVotes,
    n3: Next<Result<PollResultsResponse, Rejection>>,
    s4: CountVotes,
    n4: Next<Result<PollResultsResponse, Rejection>>,
)
    requires
        count_votes_step(CountVotes::AwaitPoll, Reply::Poll(Ok(None)), now, s1, n1),
        count_votes_step(CountVotes::AwaitPoll, Reply::Poll(Err(t)), now, s2, n2),
        count_votes_step(CountVotes::AwaitChoices(p), Reply::Choices(Err(t)), now, s3, n3),
        count_votes_step(CountVotes::AwaitVotes(p, cs), Reply::Votes(Err(t)), now, s4, n4),
    ensures
        s1 == CountVotes::Done && s2 == CountVotes::Done && s3 == CountVotes::Done && s4 == CountVotes::Done,
        n1 matches Next::Answer(Err(e)) && e.status == Status::NotFound && e.message@ == "Poll not found"@,
        n2 matches Next::Answer(Err(e)) && e.status == Status::InternalServerError && e.message@ == t@,
        n3 matches Next::Answer(Err(e)) && e.status == Status::InternalServerError && e.message@ == t@,
        n4 matches Next::Answer(Err(e)) && e.status == Status::InternalServerError && e.message@ == t@,
{
}

/// A flat vote is refused with `404` "Choice not found" when the store has no
/// such choice, with `404` "Associated poll not found" when the choice's poll
/// is gone, and with `500` and the store's error text when a lookup fails; a
/// store that fails to keep the vote ends the request with its error text.
pub proof fn a_flat_vote_reports_what_the_store_could_not_give(
    q: VoteRequest,
    t: String,
    v: NewVote,
    now: Instant,
    vote_id: u128,
    s1: CastVote,
    n1: Next<Result<String, Rejection>>,
    s2: CastVote,
    n2: Next<Result<String, Rejection>>,
    s3: CastVote,
    n3: Next<Result<String, Rejection>>,
    s4: CastVote,
    n4: Next<Result<String, Rejection>>,
    s5: CastVote,
    n5: Next<Result<String, Rejection>>,
)
    requires
        cast_vote_step(CastVote::AwaitChoice(q), Reply::Choice(Ok(None)), now, vote_id, s1, n1),
        cast_vote_step(CastVote::AwaitChoice(q), Reply::Choice(Err(t)), now, vote_id, s2, n2),
        cast_vote_step(CastVote::AwaitPoll(q), Reply::Poll(Ok(None)), now, vote_id, s3, n3),
        cast_vote_step(CastVote::AwaitPoll(q), Reply::Poll(Err(t)), now, vote_id, s4, n4),
        cast_vote_step(CastVote::AwaitStore(v), Reply::Stored(Err(t)), now, vote_id, s5, n5),
    ensures
        s1 == CastVote::Done && s2 == CastVote::Done && s3 == CastVote::Done && s4 == CastVote::Done
            && s5 == CastVote::Done,
        n1 matches Next::Answer(Err(e)) && e.status == Status::NotFound && e.message@ == "Choice not found"@,
        n2 matches Next::Answer(Err(e)) && e.status == Status::InternalServerError && e.message@ == t@,
        n3 matches Next::Answer(Err(e)) && e.status == Status::NotFound && e.message@ == "Associated poll not found"@,
        n4 matches Next::Answer(Err(e)) && e.status == Status::InternalServerError && e.message@ == t@,
        n5 matches Next::Abandon(e) && e@ == t@,
{
}

/// A request for a poll, or for its choices, is answered `404` when the store
/// has no poll with the path's id and `500` when the store fails to find the
/// poll or to load its choices.
pub proof fn a_poll_request_reports_what_the_store_could_not_give(
    id: u128,
    t: String,
    p: Poll,
    s1: GetPoll,
    n1: Next<Result<PollDetailsResponse, Status>>,
    s2: GetPoll,
    n2: Next<Result<PollDetailsResponse, Status>>,
    s3: GetPoll,
    n3: Next<Result<PollDetailsResponse, Status>>,
    c1: GetPollChoices,
    m1: Next<Result<Vec<ChoiceResponse>, Status>>,
    c2: GetPollChoices,
    m2: Next<Result<Vec<ChoiceResponse>, Status>>,
    c3: GetPollChoices,
    m3: Next<Result<Vec<ChoiceResponse>, Status>>,
)
    requires
        get_poll_step(GetPoll::AwaitPoll(id), Reply::Poll(Ok(None)), s1, n1),
        get_poll_step(GetPoll::AwaitPoll(id), Reply::Poll(Err(t)), s2, n2),
        get_poll_step(GetPoll::AwaitChoices(p, id), Reply::Choices(Err(t)), s3, n3),
        get_poll_choices_step(GetPollChoices::AwaitPoll(id), Reply::Poll(Ok(None)), c1, m1),
        get_poll_choices_step(GetPollChoices::AwaitPoll(id), Reply::Poll(Err(t)), c2, m2),
        get_poll_choices_step(GetPollChoices::AwaitChoices(id), Reply::Choices(Err(t)), c3, m3),
    ensures
        s1 == GetPoll::Done && s2 == GetPoll::Done && s3 == GetPoll::Done,
        c1 == GetPollChoices::Done && c2 == GetPollChoices::Done && c3 == GetPollChoices::Done,
        n1 == Next::<Result<PollDetailsResponse, Status>>::Answer(Err(Status::NotFound)),
        n2 == Next::<Result<PollDetailsResponse, Status>>::Answer(Err(Status::InternalServerError)),
        n3 == Next::<Result<PollDetailsResponse, Status>>::Answer(Err(Status::InternalServerError)),
        m1 == Next::<Result<Vec<ChoiceResponse>, Status>>::Answer(Err(Status::NotFound)),
        m2 == Next::<Result<Vec<ChoiceResponse>, Status>>::Answer(Err(Status::InternalServerError)),
        m3 == Next::<Result<Vec<ChoiceResponse>, Status>>::Answer(Err(Status::InternalServerError)),
{
}

/// Adding a choice is answered `404` when the store has no poll with the path's
/// id, and `500` when the store fails to find the poll or to keep the choice.
pub proof fn an_added_choice_reports_what_the_store_could_not_give(
    id: u128,
    name: String,
    c: NewChoice,
    t: String,
    choice_id: u128,
    s1: CreatePollChoice,
    n1: Next<Result<(Status, ChoiceResponse), Status>>,
    s2: CreatePollChoice,
    n2: Next<Result<(Status, ChoiceResponse), Status>>,
    s3: CreatePollChoice,
    n3: Next<Result<(Status, ChoiceResponse), Status>>,
)
    requires
        create_poll_choice_step(CreatePollChoice::AwaitPoll(id, name), Reply::Poll(Ok(None)), choice_id, s1, n1),
        create_poll_choice_step(CreatePollChoice::AwaitPoll(id, name), Reply::Poll(Err(t)), choice_id, s2, n2),
        create_poll_choice_step(CreatePollChoice::AwaitStore(c), Reply::Stored(Err(t)), choice_id, s3, n3),
    ensures
        s1 == CreatePollChoice::Done && s2 == CreatePollChoice::Done && s3 == CreatePollChoice::Done,
        n1 == Next::<Result<(Status, ChoiceResponse), Status>>::Answer(Err(Status::NotFound)),
        n2 == Next::<Result<(Status, ChoiceResponse), Status>>::Answer(Err(Status::InternalServerError)),
        n3 == Next::<Result<(Status, ChoiceResponse), Status>>::Answer(Err(Status::InternalServerError)),
{
}

/// A vote on a poll's path is answered `404` when the store has no such
/// choice, and `500` when the store fails to find the choice or to keep the
/// vote.
pub proof fn a_poll_vote_reports_what_the_store_could_not_give(
    q: BallotRequest,
    v: Vote,
    poll: u128,
    t: String,
    now: Instant,
    vote_id: u128,
    s1: CastPollVote,
    n1: Next<Result<(Status, VoteResponse), Status>>,
    s2: CastPollVote,
    n2: Next<Result<(Status, VoteResponse), Status>>,
    s3: CastPollVote,
    n3: Next<Result<(Status, VoteResponse), Status>>,
)
    requires
        cast_poll_vote_step(CastPollVote::AwaitChoice(q), Reply::Choice(Ok(None)), now, vote_id, s1, n1),
        cast_poll_vote_step(CastPollVote::AwaitChoice(q), Reply::Choice(Err(t)), now, vote_id, s2, n2),
        cast_poll_vote_step(CastPollVote::AwaitStore(v, poll), Reply::Stored(Err(t)), now, vote_id, s3, n3),
    ensures
        s1 == CastPollVote::Done && s2 == CastPollVote::Done && s3 == CastPollVote::Done,
        n1 == Next::<Result<(Status, VoteResponse), Status>>::Answer(Err(Status::NotFound)),
        n2 == Next::<Result<(Status, VoteResponse), Status>>::Answer(Err(Status::InternalServerError)),
        n3 == Next::<Result<(Status, VoteResponse), Status>>::Answer(Err(Status::InternalServerError)),
{
}

/// A request for a voter's latest vote is answered `404` when the store has no
/// poll with the path's id or the voter has no vote among the poll's votes, and
/// `500` when the store fails to find the poll or to load its votes.
pub proof fn a_latest_vote_request_reports_what_is_missing(
    id: u128,
    signature: String,
    vs: Vec<Vote>,
    t: String,
    s1: GetPollUserVote,
    n1: Next<Result<VoteResponse, Status>>,
    s2: GetPollUserVote,
    n2: Next<Result<VoteResponse, Status>>,
    s3: GetPollUserVote,
    n3: Next<Result<VoteResponse, Status>>,
    s4: GetPollUserVote,
    n4: Next<Result<VoteResponse, Status>>,
)
    requires
        get_poll_user_vote_step(GetPollUserVote::AwaitPoll(id, signature), Reply::Poll(Ok(None)), s1, n1),
        get_poll_user_vote_step(GetPollUserVote::AwaitPoll(id, signature), Reply::Poll(Err(t)), s2, n2),
        get_poll_user_vote_step(GetPollUserVote::AwaitVotes(id, signature), Reply::Votes(Err(t)), s3, n3),
        get_poll_user_vote_step(GetPollUserVote::AwaitVotes(id, signature), Reply::Votes(Ok(vs)), s4, n4),
        forall|j: int| 0 <= j < vs@.len() ==> (#[trigger] vs@[j]).signature@ != signature@,
    ensures
        s1 == GetPollUserVote::Done && s2 == GetPollUserVote::Done && s3 == GetPollUserVote::Done
            && s4 == GetPollUserVote::Done,
        n1 == Next::<Result<VoteResponse, Status>>::Answer(Err(Status::NotFound)),
        n2 == Next::<Result<VoteResponse, Status>>::Answer(Err(Status::InternalServerError)),
        n3 == Next::<Result<VoteResponse, Status>>::Answer(Err(Status::InternalServerError)),
        n4 == Next::<Result<VoteResponse, Status>>::Answer(Err(Status::NotFound)),
{
}

} // verus!
