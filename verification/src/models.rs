//! The records the service stores and the bodies it reads and answers with.
//!
//! Identifiers are UUIDs held as their 128-bit value (`uuid::Uuid::as_u128`);
//! stored timestamps are [`Instant`]s.
use vstd::prelude::*;

use crate::clock::Instant;

verus! {

/// A stored poll.
#[derive(Debug)]
pub struct Poll {
    pub uuid: u128,
    pub name: String,
    pub start_date: String,
    pub close_date: String,
    pub status: String,
    pub winning_choice: Option<u128>,
}

/// A poll about to be stored; the store fills in its status.
#[derive(Debug)]
pub struct NewPoll {
    pub uuid: u128,
    pub name: String,
    pub start_date: String,
    pub close_date: String,
}

/// The body of a request that creates a poll. `choices` names the choices to
/// create with it, where the request gives any.
#[derive(Debug)]
pub struct PollCreationDetails {
    pub name: String,
    pub close_date: String,
    pub choices: Option<Vec<String>>,
}

/// A stored choice of a poll.
#[derive(Debug)]
pub struct Choice {
    pub uuid: u128,
    pub name: String,
    pub poll_uuid: u128,
    pub created_at: Instant,
}

/// A choice about to be stored.
#[derive(Debug)]
pub struct NewChoice {
    pub uuid: u128,
    pub name: String,
    pub poll_uuid: u128,
}

/// The body of a request that creates a choice; `poll_uuid` is text.
#[derive(Debug)]
pub struct ChoiceCreationDetails {
    pub name: String,
    pub poll_uuid: String,
}

/// A stored vote.
#[derive(Debug)]
pub struct Vote {
    pub uuid: u128,
    pub signature: String,
    pub choice_uuid: u128,
    pub created_at: Instant,
}

/// A vote about to be stored; the store records when it arrived.
#[derive(Debug)]
pub struct NewVote {
    pub uuid: u128,
    pub signature: String,
    pub choice_uuid: u128,
}

/// The body of a request that casts a vote; `choice_uuid` is text.
#[derive(Debug)]
pub struct VoteCreationDetails {
    pub signature: String,
    pub choice_uuid: String,
}

/// The result of counting a poll's votes.
#[derive(Debug)]
pub struct PollResultsResponse {
    pub status: String,
    pub winning_choice: Option<u128>,
    pub vote_distribution: std::collections::HashMap<u128, i64>,
}

/// A choice as the nested endpoints show it.
#[derive(Debug)]
pub struct ChoiceResponse {
    pub uuid: u128,
    pub name: String,
    pub poll_uuid: u128,
}

/// A poll with its choices, as the nested endpoints show it.
#[derive(Debug)]
pub struct PollDetailsResponse {
    pub uuid: u128,
    pub name: String,
    pub start_date: String,
    pub close_date: String,
    pub choices: Vec<ChoiceResponse>,
}

/// A vote as the nested endpoints show it, with the poll it was cast in.
#[derive(Debug)]
pub struct VoteResponse {
    pub uuid: u128,
    pub signature: String,
    pub choice_uuid: u128,
    pub poll_uuid: u128,
    pub timestamp: String,
}

} // verus!
