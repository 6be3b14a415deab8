//! What every request handler shares: the answer's status, a refusal, and how
//! a reply of the store turns into a refusal.
use vstd::prelude::*;

use crate::models::{Choice, NewChoice, NewPoll, NewVote, Poll, Vote};

verus! {

/// What a request asks of the store next.
#[derive(Debug)]
pub enum Query {
    /// The poll with this id, if there is one.
    FindPoll(u128),
    /// The choice with this id, if there is one.
    FindChoice(u128),
    /// The choices of the poll with this id.
    ChoicesOf(u128),
    /// The votes cast for choices of the poll with this id, in any order.
    VotesOf(u128),
    /// Keep this poll.
    StorePoll(NewPoll),
    /// Keep this choice.
    StoreChoice(NewChoice),
    /// Keep this vote, recorded at the time the store receives it.
    StoreVote(NewVote),
    /// Keep this vote, recorded at the time it carries.
    StoreTimedVote(Vote),
}

/// What the store answered; an `Err` carries the store's error text.
#[derive(Debug)]
pub enum Reply {
    Poll(Result<Option<Poll>, String>),
    Choice(Result<Option<Choice>, String>),
    Choices(Result<Vec<Choice>, String>),
    Votes(Result<Vec<Vote>, String>),
    Stored(Result<(), String>),
}

/// What a request does next: ask the store, answer the client with `A`, or
/// give up with a text (the service stops handling the request).
#[derive(Debug)]
pub enum Next<A> {
    Ask(Query),
    Answer(A),
    Abandon(String),
}

/// The text with which a request gives up on a reply that does not answer
/// what it asked.
pub open spec fn out_of_turn_text() -> Seq<char> {
    "the store answered a question that was not asked"@
}

/// `next` gives up with the out-of-turn text.
pub open spec fn abandoned_out_of_turn<A>(next: Next<A>) -> bool {
    next matches Next::Abandon(t) && t@ == out_of_turn_text()
}

/// Gives up on a reply that does not answer what was asked.
pub fn out_of_turn<A>() -> (next: Next<A>)
    ensures
        abandoned_out_of_turn(next),
{
    Next::Abandon(String::from_str("the store answered a question that was not asked"))
}

/// The HTTP status a request is answered with.
#[derive(Clone, Copy, Debug, PartialEq, Eq)]
pub enum Status {
    /// 201 Created
    Created,
    /// 400 Bad Request
    BadRequest,
    /// 404 Not Found
    NotFound,
    /// 403 Forbidden
    Forbidden,
    /// 500 Internal Server Error
    InternalServerError,
}

/// A request refused, with the status and the text the client is sent.
#[derive(Debug)]
pub struct Rejection {
    pub status: Status,
    pub message: String,
}

/// A refusal with `status` and `message`.
pub open spec fn refused<T>(r: Result<T, Rejection>, status: Status, message: Seq<char>) -> bool {
    r matches Err(e) && e.status == status && e.message@ == message
}

/// Refuses with `status`; the message is a copy of `message`.
pub fn refusal(status: Status, message: &str) -> (r: Rejection)
    ensures
        r.status == status,
        r.message@ == message@,
{
    Rejection { status, message: String::from_str(message) }
}

/// The outcome of looking a record up in the store: the record when there is one;
/// `404` with `missing` when there is none; `500` with the store's error text when
/// the lookup failed.
pub fn require_found<T>(found: Result<Option<T>, String>, missing: &str) -> (r: Result<T, Rejection>)
    ensures
        found matches Ok(Some(t)) ==> r == Ok::<T, Rejection>(t),
        found matches Ok(None) ==> refused(r, Status::NotFound, missing@),
        found matches Err(text) ==> refused(r, Status::InternalServerError, text@),
{
    match found {
        Ok(Some(t)) => Ok(t),
        Ok(None) => Err(refusal(Status::NotFound, missing)),
        Err(text) => Err(Rejection { status: Status::InternalServerError, message: text }),
    }
}

/// The outcome of loading records from the store: the records, or `500` with the
/// store's error text.
pub fn require_loaded<T>(loaded: Result<T, String>) -> (r: Result<T, Rejection>)
    ensures
        loaded matches Ok(t) ==> r == Ok::<T, Rejection>(t),
        loaded matches Err(text) ==> refused(r, Status::InternalServerError, text@),
{
    match loaded {
        Ok(t) => Ok(t),
        Err(text) => Err(Rejection { status: Status::InternalServerError, message: text }),
    }
}

} // verus!
