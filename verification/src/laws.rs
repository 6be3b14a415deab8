//! What holds of the service across its functions and over time.
use vstd::prelude::*;

use crate::clock::{close_instant, closed_at, day_at, instant_le, instant_lt, naive_date_from_str, naive_datetime_from_str, utc_datetime_from_str, Instant};
use crate::models::{Choice, Vote};
use crate::tally::{ballots_for, counted, distribution, is_choice_of, listed, no_votes_cast, status_text, supersedes};

verus! {

/// Closing is for good: a poll closed at some instant is closed at every later one.
pub proof fn closed_poll_stays_closed(status: Seq<char>, close_date: Seq<char>, earlier: Instant, later: Instant)
    requires
        closed_at(status, close_date, earlier),
        instant_le(earlier, later),
    ensures
        closed_at(status, close_date, later),
{
}

/// A poll whose status is `closed` is closed at every instant, whatever its close date.
pub proof fn closed_status_always_closed(close_date: Seq<char>, now: Instant)
    ensures
        closed_at("closed"@, close_date, now),
{
}

/// A poll that is not marked closed and whose close date reads as no date at all
/// never closes.
pub proof fn unreadable_close_date_never_closes(status: Seq<char>, close_date: Seq<char>, now: Instant)
    requires
        status != "closed"@,
        close_instant(close_date) is None,
    ensures
        !closed_at(status, close_date, now),
{
}

/// A close date that reads only as a bare day (`YYYY-MM-DD`, or failing that
/// `DD/MM/YYYY`) closes the poll at 23:59:59 of that day: before then it is
/// open (unless marked closed), from then on it is closed.
pub proof fn bare_date_closes_at_end_of_day(status: Seq<char>, close_date: Seq<char>, day: i32, now: Instant)
    requires
        status != "closed"@,
        utc_datetime_from_str(close_date) is None,
        naive_datetime_from_str(close_date, "%Y-%m-%d %H:%M:%S"@) is None,
        naive_date_from_str(close_date, "%Y-%m-%d"@) == Some(day)
            || (naive_date_from_str(close_date, "%Y-%m-%d"@) is None
                && naive_date_from_str(close_date, "%d/%m/%Y"@) == Some(day)),
    ensures
        close_instant(close_date) == Some(Instant { day, second: 86399, nano: 0 }),
        closed_at(status, close_date, now) <==> (day < now.day || (day == now.day && now.second >= 86399)),
{
    assert(day_at(day, 23, 59, 59) == Some(Instant { day, second: 86399, nano: 0 }));
}

/// The status a count reports and the decision on a vote agree: at the same
/// instant, a poll the count reports `closed` refuses votes, and one it reports
/// `open` takes them.
pub proof fn reported_status_matches_vote_admission(status: Seq<char>, close_date: Seq<char>, now: Instant)
    ensures
        status_text(closed_at(status, close_date, now)) == "closed"@ <==> closed_at(status, close_date, now),
        status_text(closed_at(status, close_date, now)) == "open"@ <==> !closed_at(status, close_date, now),
{
    reveal_strlit("closed");
    reveal_strlit("open");
    assert("closed"@[0] != "open"@[0]);
}

/// Every choice of the poll has an entry in the distribution, voted for or not.
pub proof fn every_choice_is_listed(choices: Seq<Choice>, votes: Seq<Vote>, k: int)
    requires
        0 <= k < choices.len(),
    ensures
        distribution(choices, votes).contains_key(choices[k].uuid),
{
    assert(listed(choices, votes, choices[k].uuid, votes.len() as int));
}

/// A later vote, or one at the same instant handed over earlier, takes the
/// place of the votes its own successor takes the place of.
proof fn lemma_supersedes_transitive(votes: Seq<Vote>, a: int, b: int, c: int)
    requires
        supersedes(votes, a, b),
        supersedes(votes, b, c),
    ensures
        supersedes(votes, a, c),
{
}

/// Of two different votes of one voter, one takes the place of the other.
proof fn lemma_supersedes_total(votes: Seq<Vote>, i: int, k: int)
    requires
        i != k,
        votes[i].signature@ == votes[k].signature@,
    ensures
        supersedes(votes, i, k) || supersedes(votes, k, i),
{
    let a = votes[i].created_at;
    let b = votes[k].created_at;
    if !instant_lt(a, b) && !instant_lt(b, a) {
        assert(a == b);
    }
}

/// Among the first `n` votes, a voter with a vote there has one that none of
/// those votes takes the place of.
proof fn lemma_latest_in_prefix(votes: Seq<Vote>, signature: Seq<char>, n: int) -> (i: int)
    requires
        0 <= n <= votes.len(),
        exists|k: int| 0 <= k < n && #[trigger] votes[k].signature@ == signature,
    ensures
        0 <= i < n,
        votes[i].signature@ == signature,
        forall|j: int| 0 <= j < n ==> !#[trigger] supersedes(votes, j, i),
    decreases n,
{
    if exists|k: int| 0 <= k < n - 1 && #[trigger] votes[k].signature@ == signature {
        let m = lemma_latest_in_prefix(votes, signature, n - 1);
        if votes[n - 1].signature@ == signature && supersedes(votes, n - 1, m) {
            assert forall|j: int| 0 <= j < n implies !#[trigger] supersedes(votes, j, n - 1) by {
                if j < n - 1 && supersedes(votes, j, n - 1) {
                    lemma_supersedes_transitive(votes, j, n - 1, m);
                }
            }
            n - 1
        } else {
            m
        }
    } else {
        let k = choose|k: int| 0 <= k < n && #[trigger] votes[k].signature@ == signature;
        assert(k == n - 1);
        n - 1
    }
}

/// Every voter has exactly one ballot: a vote of theirs that counts, recorded
/// no earlier than any other vote of theirs; and no voter has two.
pub proof fn each_voter_has_one_ballot(votes: Seq<Vote>, k: int)
    requires
        0 <= k < votes.len(),
    ensures
        exists|i: int| 0 <= i < votes.len() && #[trigger] counted(votes, i)
            && votes[i].signature@ == votes[k].signature@
            && instant_le(votes[k].created_at, votes[i].created_at),
        forall|i: int| 0 <= i < votes.len() && #[trigger] counted(votes, i) && votes[i].signature@ == votes[k].signature@
            ==> instant_le(votes[k].created_at, votes[i].created_at),
        forall|i1: int, i2: int|
            0 <= i1 < votes.len() && 0 <= i2 < votes.len() && #[trigger] counted(votes, i1) && #[trigger] counted(votes, i2)
            && votes[i1].signature@ == votes[i2].signature@ ==> i1 == i2,
{
    let i = lemma_latest_in_prefix(votes, votes[k].signature@, votes.len() as int);
    assert(counted(votes, i));
    if k != i {
        lemma_supersedes_total(votes, i, k);
    }
    assert forall|i1: int, i2: int|
        0 <= i1 < votes.len() && 0 <= i2 < votes.len() && #[trigger] counted(votes, i1) && #[trigger] counted(votes, i2)
        && votes[i1].signature@ == votes[i2].signature@ implies i1 == i2 by {
        if i1 != i2 {
            lemma_supersedes_total(votes, i1, i2);
        }
    }
    assert forall|i1: int| 0 <= i1 < votes.len() && #[trigger] counted(votes, i1) && votes[i1].signature@ == votes[k].signature@
        implies instant_le(votes[k].created_at, votes[i1].created_at) by {
        if i1 != k {
            lemma_supersedes_total(votes, i1, k);
        }
    }
}

/// How many of the first `m` ballots are for `choice` and give way to `extra`
/// when it is added after all the votes.
pub open spec fn displaced(votes: Seq<Vote>, extra: Vote, choice: u128, m: int) -> int
    decreases m,
{
    if m <= 0 {
        0
    } else {
        displaced(votes, extra, choice, m - 1) + if counted(votes, m - 1)
            && supersedes(votes.push(extra), votes.len() as int, m - 1)
            && votes[m - 1].choice_uuid == choice {
            1int
        } else {
            0int
        }
    }
}

/// Adding a vote after all the others keeps every ballot but those it takes the place of.
proof fn lemma_counted_after_push(votes: Seq<Vote>, extra: Vote, i: int)
    requires
        0 <= i < votes.len(),
    ensures
        counted(votes.push(extra), i) == (counted(votes, i) && !supersedes(votes.push(extra), votes.len() as int, i)),
{
    let longer = votes.push(extra);
    let n = votes.len() as int;
    assert(longer[i] == votes[i]);
    assert forall|j: int| 0 <= j < n implies #[trigger] supersedes(longer, j, i) == supersedes(votes, j, i) by {
        assert(longer[j] == votes[j]);
    }
    if counted(votes, i) && !supersedes(longer, n, i) {
        assert forall|j: int| 0 <= j < longer.len() implies !#[trigger] supersedes(longer, j, i) by {
            if j < n {
                assert(!supersedes(votes, j, i));
            }
        }
    }
    if counted(longer, i) {
        assert forall|j: int| 0 <= j < n implies !#[trigger] supersedes(votes, j, i) by {
            assert(!supersedes(longer, j, i));
        }
    }
}

/// The first `m` ballots after adding a vote: those before, less the ones it displaces.
proof fn lemma_push_ballots(votes: Seq<Vote>, extra: Vote, choice: u128, m: int)
    requires
        0 <= m <= votes.len(),
    ensures
        ballots_for(votes.push(extra), choice, m) == ballots_for(votes, choice, m) - displaced(votes, extra, choice, m),
    decreases m,
{
    if m > 0 {
        lemma_push_ballots(votes, extra, choice, m - 1);
        lemma_counted_after_push(votes, extra, m - 1);
        assert(votes.push(extra)[m - 1] == votes[m - 1]);
    }
}

/// Nothing is displaced when the added vote takes the place of no ballot.
proof fn lemma_none_displaced(votes: Seq<Vote>, extra: Vote, choice: u128, m: int)
    requires
        0 <= m <= votes.len(),
        forall|i: int| 0 <= i < votes.len() && #[trigger] counted(votes, i)
            ==> !supersedes(votes.push(extra), votes.len() as int, i),
    ensures
        displaced(votes, extra, choice, m) == 0,
    decreases m,
{
    if m > 0 {
        lemma_none_displaced(votes, extra, choice, m - 1);
    }
}

/// The voter `signature` has a ballot for `choice`.
pub open spec fn ballot_of_voter_for(votes: Seq<Vote>, signature: Seq<char>, choice: u128) -> bool {
    exists|i: int| 0 <= i < votes.len() && #[trigger] counted(votes, i) && votes[i].signature@ == signature
        && votes[i].choice_uuid == choice
}

/// The ballot a later vote of the same voter displaces is that voter's ballot.
proof fn lemma_displaced_by_newer(votes: Seq<Vote>, newer: Vote, choice: u128, m: int)
    requires
        0 <= m <= votes.len(),
        forall|i: int| 0 <= i < votes.len() && votes[i].signature@ == newer.signature@
            ==> instant_lt(#[trigger] votes[i].created_at, newer.created_at),
    ensures
        displaced(votes, newer, choice, m) == if exists|i: int| 0 <= i < m && #[trigger] counted(votes, i)
            && votes[i].signature@ == newer.signature@ && votes[i].choice_uuid == choice {
            1int
        } else {
            0int
        },
    decreases m,
{
    if m > 0 {
        lemma_displaced_by_newer(votes, newer, choice, m - 1);
        let longer = votes.push(newer);
        let n = votes.len() as int;
        assert(longer[n] == newer);
        assert(longer[m - 1] == votes[m - 1]);
        if counted(votes, m - 1) && votes[m - 1].signature@ == newer.signature@ && votes[m - 1].choice_uuid == choice {
            assert(supersedes(longer, n, m - 1));
            assert forall|i: int| 0 <= i < m - 1 && #[trigger] counted(votes, i)
                implies !(votes[i].signature@ == newer.signature@ && votes[i].choice_uuid == choice) by {
                if votes[i].signature@ == newer.signature@ {
                    lemma_supersedes_total(votes, i, m - 1);
                }
            }
        }
        if supersedes(longer, n, m - 1) {
            assert(votes[m - 1].signature@ == newer.signature@);
        }
    }
}

/// Only each voter's most recent vote counts: adding a vote of a voter that is
/// recorded no later than another vote of theirs changes nothing.
pub proof fn older_votes_do_not_count(choices: Seq<Choice>, votes: Seq<Vote>, older: Vote, j: int)
    requires
        0 <= j < votes.len(),
        votes[j].signature@ == older.signature@,
        instant_le(older.created_at, votes[j].created_at),
    ensures
        distribution(choices, votes.push(older)) == distribution(choices, votes),
{
    let longer = votes.push(older);
    let n = votes.len() as int;
    assert(longer[j] == votes[j]);
    assert(longer[n] == older);
    assert(supersedes(longer, j, n));
    assert(!counted(longer, n));
    assert forall|i: int| 0 <= i < votes.len() && #[trigger] counted(votes, i) implies !supersedes(longer, n, i) by {
        assert(longer[i] == votes[i]);
        if supersedes(longer, n, i) {
            assert(i != j);
            assert(supersedes(votes, j, i));
        }
    }
    assert forall|c: u128| #[trigger] ballots_for(longer, c, n + 1) == ballots_for(votes, c, n) by {
        lemma_push_ballots(votes, older, c, n);
        lemma_none_displaced(votes, older, c, n);
    }
    assert forall|c: u128| #[trigger] listed(choices, longer, c, n + 1) == listed(choices, votes, c, n) by {
        if listed(choices, longer, c, n + 1) && !listed(choices, votes, c, n) {
            if exists|i: int| 0 <= i < n + 1 && #[trigger] counted(longer, i) && longer[i].choice_uuid == c {
                let i = choose|i: int| 0 <= i < n + 1 && #[trigger] counted(longer, i) && longer[i].choice_uuid == c;
                assert(i != n);
                lemma_counted_after_push(votes, older, i);
                assert(longer[i] == votes[i]);
            }
        }
        if listed(choices, votes, c, n) && !listed(choices, longer, c, n + 1) {
            if exists|i: int| 0 <= i < n && #[trigger] counted(votes, i) && votes[i].choice_uuid == c {
                let i = choose|i: int| 0 <= i < n && #[trigger] counted(votes, i) && votes[i].choice_uuid == c;
                lemma_counted_after_push(votes, older, i);
                assert(longer[i] == votes[i]);
            }
        }
    }
    assert(distribution(choices, longer) =~= distribution(choices, votes));
}

/// Voting again moves the voter's one ballot: adding a vote recorded after
/// every earlier vote of that voter takes one from the choice of the voter's
/// ballot, if they had one, and gives one to the new vote's choice.
pub proof fn a_new_vote_moves_the_ballot(votes: Seq<Vote>, newer: Vote, choice: u128)
    requires
        forall|i: int| 0 <= i < votes.len() && votes[i].signature@ == newer.signature@
            ==> instant_lt(#[trigger] votes[i].created_at, newer.created_at),
    ensures
        ballots_for(votes.push(newer), choice, votes.len() + 1int) == ballots_for(votes, choice, votes.len() as int)
            - (if ballot_of_voter_for(votes, newer.signature@, choice) { 1int } else { 0int })
            + (if newer.choice_uuid == choice { 1int } else { 0int }),
{
    let longer = votes.push(newer);
    let n = votes.len() as int;
    assert(longer[n] == newer);
    assert forall|j: int| 0 <= j < longer.len() implies !#[trigger] supersedes(longer, j, n) by {
        if j < n {
            assert(longer[j] == votes[j]);
        }
    }
    assert(counted(longer, n));
    lemma_push_ballots(votes, newer, choice, n);
    lemma_displaced_by_newer(votes, newer, choice, n);
}

/// Counting more votes never lowers a choice's count.
proof fn lemma_ballots_grow(votes: Seq<Vote>, choice: u128, m: int, n: int)
    requires
        0 <= m <= n,
    ensures
        ballots_for(votes, choice, m) <= ballots_for(votes, choice, n),
    decreases n - m,
{
    if m < n {
        lemma_ballots_grow(votes, choice, m, n - 1);
    }
}

/// A poll has a leading choice exactly when it has a vote: every voter has a
/// ballot.
pub proof fn some_choice_leads_iff_some_vote(choices: Seq<Choice>, votes: Seq<Vote>)
    requires
        votes.len() <= i64::MAX,
    ensures
        no_votes_cast(distribution(choices, votes)) <==> votes.len() == 0,
{
    let d = distribution(choices, votes);
    let n = votes.len() as int;
    if n > 0 {
        each_voter_has_one_ballot(votes, 0);
        let first = choose|i: int| 0 <= i < votes.len() && #[trigger] counted(votes, i)
            && votes[i].signature@ == votes[0].signature@ && instant_le(votes[0].created_at, votes[i].created_at);
        let c = votes[first].choice_uuid;
        assert(listed(choices, votes, c, n));
        lemma_ballots_grow(votes, c, 0, first);
        lemma_ballots_grow(votes, c, first + 1, n);
        crate::tally::lemma_ballots_bounded(votes, c, n);
        assert(d.contains_key(c));
        assert(d[c] == ballots_for(votes, c, n) as i64);
        assert(d[c] > 0);
    } else {
        assert forall|k: u128| #[trigger] d.contains_key(k) implies d[k] <= 0 by {
            assert(ballots_for(votes, k, 0) == 0);
        }
    }
}

/// When every vote is for one of the poll's choices (as the store guarantees),
/// the distribution lists exactly the poll's choices.
pub proof fn distribution_lists_exactly_the_choices(choices: Seq<Choice>, votes: Seq<Vote>, c: u128)
    requires
        forall|i: int| 0 <= i < votes.len() ==> is_choice_of(choices, #[trigger] votes[i].choice_uuid),
    ensures
        distribution(choices, votes).contains_key(c) <==> is_choice_of(choices, c),
{
    let n = votes.len() as int;
    if listed(choices, votes, c, n) {
        if exists|i: int| 0 <= i < n && #[trigger] counted(votes, i) && votes[i].choice_uuid == c {
            let i = choose|i: int| 0 <= i < n && #[trigger] counted(votes, i) && votes[i].choice_uuid == c;
            assert(is_choice_of(choices, votes[i].choice_uuid));
        }
    }
}

} // verus!
