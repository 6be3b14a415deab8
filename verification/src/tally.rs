//! Counting a poll's votes.
//!
//! Each voter (signature) has one ballot: their most recent vote, by the time
//! the store recorded it. A voter who votes again moves that ballot to the new
//! choice. Among a voter's votes recorded at the same instant, the one handed
//! over first counts. Every choice of the poll appears in the distribution,
//! with 0 where nobody chose it.
use std::collections::HashMap;
use vstd::std_specs::hash::spec_hash_map_iter;
use vstd::std_specs::iter::IteratorSpec;
use vstd::prelude::*;

use crate::clock::{closed_at, clock_now, instant_lt, instant_not_after, is_poll_closed_at, on_calendar, Instant};
use crate::laws::some_choice_leads_iff_some_vote;
use crate::models::{Choice, Poll, PollResultsResponse, Vote};

verus! {

broadcast use vstd::std_specs::hash::group_hash_axioms;

/// The vote at position `j` takes the place of the vote at `i`: another vote
/// with the same signature, recorded later, or at the same instant and handed
/// over first.
pub open spec fn supersedes(votes: Seq<Vote>, j: int, i: int) -> bool {
    &&& j != i
    &&& votes[j].signature@ == votes[i].signature@
    &&& (instant_lt(votes[i].created_at, votes[j].created_at)
        || (votes[i].created_at == votes[j].created_at && j < i))
}

/// The vote at position `i` is its voter's ballot: no other vote takes its place.
pub open spec fn counted(votes: Seq<Vote>, i: int) -> bool {
    forall|j: int| 0 <= j < votes.len() ==> !#[trigger] supersedes(votes, j, i)
}

/// How many of the first `n` votes count and are for `choice`.
pub open spec fn ballots_for(votes: Seq<Vote>, choice: u128, n: int) -> int
    decreases n,
{
    if n <= 0 {
        0
    } else {
        ballots_for(votes, choice, n - 1) + if counted(votes, n - 1) && votes[n - 1].choice_uuid == choice {
            1int
        } else {
            0int
        }
    }
}

/// `choice` is one of `choices`.
pub open spec fn is_choice_of(choices: Seq<Choice>, choice: u128) -> bool {
    exists|k: int| 0 <= k < choices.len() && #[trigger] choices[k].uuid == choice
}

/// `choice` has an entry in the distribution of the first `n` votes: it is a
/// choice of the poll, or one of those votes that counts is for it.
pub open spec fn listed(choices: Seq<Choice>, votes: Seq<Vote>, choice: u128, n: int) -> bool {
    ||| is_choice_of(choices, choice)
    ||| exists|i: int| 0 <= i < n && #[trigger] counted(votes, i) && votes[i].choice_uuid == choice
}

/// The distribution of the first `n` votes over the choices.
pub open spec fn distribution_after(choices: Seq<Choice>, votes: Seq<Vote>, n: int) -> Map<u128, i64> {
    Map::new(|c: u128| listed(choices, votes, c, n), |c: u128| ballots_for(votes, c, n) as i64)
}

/// The distribution of all the votes over the choices.
pub open spec fn distribution(choices: Seq<Choice>, votes: Seq<Vote>) -> Map<u128, i64> {
    distribution_after(choices, votes, votes.len() as int)
}

/// No more of the first `n` votes count for a choice than there are votes.
pub proof fn lemma_ballots_bounded(votes: Seq<Vote>, choice: u128, n: int)
    ensures
        0 <= ballots_for(votes, choice, n),
        n >= 0 ==> ballots_for(votes, choice, n) <= n,
    decreases n,
{
    if n > 0 {
        lemma_ballots_bounded(votes, choice, n - 1);
    }
}

/// Whether another vote takes the place of the vote at position `i`.
pub(crate) fn superseded(votes: &Vec<Vote>, i: usize) -> (r: bool)
    requires
        i < votes@.len(),
    ensures
        r == !counted(votes@, i as int),
{
    let mut j: usize = 0;
    while j < votes.len()
        invariant
            j <= votes@.len(),
            i < votes@.len(),
            forall|k: int| 0 <= k < j ==> !#[trigger] supersedes(votes@, k, i as int),
        decreases votes@.len() - j,
    {
        if j != i && votes[j].signature == votes[i].signature {
            let mine = votes[i].created_at;
            let other = votes[j].created_at;
            let same_instant = mine.day == other.day && mine.second == other.second && mine.nano == other.nano;
            if !instant_not_after(other, mine) || (same_instant && j < i) {
                assert(supersedes(votes@, j as int, i as int));
                return true;
            }
        }
        j = j + 1;
    }
    false
}

/// Counts the votes, handed over in any order: every choice of the poll gets an
/// entry, and each voter's ballot adds one to the entry of the choice it is for.
pub fn tally_votes(choices: &Vec<Choice>, votes: &Vec<Vote>) -> (counts: HashMap<u128, i64>)
    requires
        votes@.len() <= i64::MAX,
    ensures
        counts@ == distribution(choices@, votes@),
{
    let mut counts: HashMap<u128, i64> = HashMap::new();
    let mut k: usize = 0;
    while k < choices.len()
        invariant
            k <= choices@.len(),
            forall|c: u128| #[trigger] counts@.contains_key(c) <==> exists|m: int| 0 <= m < k && #[trigger] choices@[m].uuid == c,
            forall|c: u128| #[trigger] counts@.contains_key(c) ==> counts@[c] == 0,
        decreases choices@.len() - k,
    {
        counts.insert(choices[k].uuid, 0);
        k = k + 1;
    }
    assert(counts@ =~= distribution_after(choices@, votes@, 0));
    let mut i: usize = 0;
    while i < votes.len()
        invariant
            i <= votes@.len() <= i64::MAX,
            counts@ == distribution_after(choices@, votes@, i as int),
        decreases votes@.len() - i,
    {
        let ghost before = counts@;
        let choice = votes[i].choice_uuid;
        if !superseded(votes, i) {
            let current: i64 = match counts.get(&choice) {
                Some(n) => *n,
                None => 0,
            };
            proof {
                lemma_ballots_bounded(votes@, choice, i as int);
                if !before.contains_key(choice) {
                    assert(!listed(choices@, votes@, choice, i as int));
                    assert forall|m: int| 0 <= m < i implies !(#[trigger] counted(votes@, m) && votes@[m].choice_uuid == choice) by {
                        if counted(votes@, m) && votes@[m].choice_uuid == choice {
                            assert(listed(choices@, votes@, choice, i as int));
                        }
                    }
                    lemma_no_ballots(votes@, choice, i as int);
                }
            }
            counts.insert(choice, current + 1);
            proof {
                assert(counted(votes@, i as int));
                assert forall|c: u128| #[trigger] counts@.contains_key(c) == listed(choices@, votes@, c, i + 1) by {
                    if c == choice {
                        assert(counted(votes@, i as int) && votes@[i as int].choice_uuid == c);
                    } else if listed(choices@, votes@, c, i + 1) && !listed(choices@, votes@, c, i as int) {
                        let w = choose|w: int| 0 <= w < i + 1 && #[trigger] counted(votes@, w) && votes@[w].choice_uuid == c;
                        assert(w != i);
                    }
                }
                assert(counts@ =~= distribution_after(choices@, votes@, i + 1));
            }
        } else {
            proof {
                assert forall|c: u128| #[trigger] listed(choices@, votes@, c, i + 1) == listed(choices@, votes@, c, i as int) by {
                    if listed(choices@, votes@, c, i + 1) && !listed(choices@, votes@, c, i as int) {
                        let w = choose|w: int| 0 <= w < i + 1 && #[trigger] counted(votes@, w) && votes@[w].choice_uuid == c;
                        assert(w != i);
                    }
                }
                assert(counts@ =~= distribution_after(choices@, votes@, i + 1));
            }
        }
        i = i + 1;
    }
    counts
}

/// With no counted vote for `choice` among the first `n`, its count is 0.
proof fn lemma_no_ballots(votes: Seq<Vote>, choice: u128, n: int)
    requires
        forall|m: int| 0 <= m < n ==> !(#[trigger] counted(votes, m) && votes[m].choice_uuid == choice),
    ensures
        ballots_for(votes, choice, n) == 0,
    decreases n,
{
    if n > 0 {
        lemma_no_ballots(votes, choice, n - 1);
    }
}

/// `choice` has the most votes in `counts`, more than none.
pub open spec fn leads(counts: Map<u128, i64>, choice: u128) -> bool {
    &&& counts.contains_key(choice)
    &&& counts[choice] > 0
    &&& forall|k: u128| #[trigger] counts.contains_key(k) ==> counts[k] <= counts[choice]
}

/// No choice in `counts` has a vote.
pub open spec fn no_votes_cast(counts: Map<u128, i64>) -> bool {
    forall|k: u128| #[trigger] counts.contains_key(k) ==> counts[k] <= 0
}

/// The choice with the most votes, when one has any; among choices with equally
/// many, whichever the map's walk reaches last.
pub fn leading_choice(counts: &HashMap<u128, i64>) -> (r: Option<u128>)
    ensures
        r matches Some(w) ==> leads(counts@, w),
        r is None <==> no_votes_cast(counts@),
{
    let mut best: Option<(u128, i64)> = None;
    let walk = counts.iter();
    let ghost pairs = walk.remaining();
    for item in it: walk
        invariant
            it.seq() == pairs,
            pairs == spec_hash_map_iter(counts).remaining(),
            best is None <==> it.index() == 0,
            best matches Some(b) ==> counts@.contains_key(b.0) && counts@[b.0] == b.1,
            best matches Some(b) ==> forall|j: int| 0 <= j < it.index() ==> *#[trigger] it.seq()[j].1 <= b.1,
    {
        let (k, v) = item;
        match best {
            None => {
                best = Some((*k, *v));
            },
            Some(b) => {
                if *v >= b.1 {
                    best = Some((*k, *v));
                }
            },
        }
    }
    proof {
        assert forall|k: u128| #[trigger] counts@.contains_key(k) implies best matches Some(b) && counts@[k] <= b.1 by {
            assert(pairs.contains((&k, &counts@[k])));
            let j = choose|j: int| 0 <= j < pairs.len() && pairs[j] == (&k, &counts@[k]);
            assert(*pairs[j].1 == counts@[k]);
        }
    }
    match best {
        Some(b) => {
            if b.1 > 0 {
                Some(b.0)
            } else {
                None
            }
        },
        None => None,
    }
}

/// The status a count reports for a poll: `closed` or `open`.
pub open spec fn status_text(closed: bool) -> Seq<char> {
    if closed { "closed"@ } else { "open"@ }
}

/// `r` reports the count of `votes` over `choices` for `poll` at `now`: the
/// distribution, a leading choice exactly when there is a vote, and whether
/// the poll is closed at `now`.
pub open spec fn reports_count(r: PollResultsResponse, poll: Poll, choices: Seq<Choice>, votes: Seq<Vote>, now: Instant) -> bool {
    &&& r.vote_distribution@ == distribution(choices, votes)
    &&& r.winning_choice matches Some(w) ==> leads(r.vote_distribution@, w)
    &&& r.winning_choice is None <==> no_votes_cast(r.vote_distribution@)
    &&& r.winning_choice is None <==> votes.len() == 0
    &&& r.status@ == status_text(closed_at(poll.status@, poll.close_date@, now))
}

/// The results of a poll at `now`: the distribution of its votes over its
/// choices, the choice with the most votes if any has one, and whether the poll
/// is closed at `now`.
pub fn count_votes_at(poll: &Poll, choices: &Vec<Choice>, votes: &Vec<Vote>, now: Instant) -> (r: PollResultsResponse)
    requires
        votes@.len() <= i64::MAX,
    ensures
        reports_count(r, *poll, choices@, votes@, now),
{
    proof {
        some_choice_leads_iff_some_vote(choices@, votes@);
    }
    let vote_distribution = tally_votes(choices, votes);
    let winning_choice = leading_choice(&vote_distribution);
    let status = if is_poll_closed_at(poll, now) {
        String::from_str("closed")
    } else {
        String::from_str("open")
    };
    PollResultsResponse { status, winning_choice, vote_distribution }
}

/// The results of a poll now, by the system clock.
pub fn count_votes(poll: &Poll, choices: &Vec<Choice>, votes: &Vec<Vote>) -> (r: PollResultsResponse)
    requires
        votes@.len() <= i64::MAX,
    ensures
        exists|now: Instant| on_calendar(now) && #[trigger] reports_count(r, *poll, choices@, votes@, now),
{
    count_votes_at(poll, choices, votes, clock_now())
}

} // verus!
