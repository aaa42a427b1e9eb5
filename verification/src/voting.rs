//! The two operations on a poll: creating it and casting a vote.
//! Both validate first and mutate only on success; a failing check
//! aborts the whole operation with no change.

use vstd::prelude::*;
use crate::poll::ErrorCode;
use crate::poll::Identity;
use crate::poll::Poll;
use crate::poll::PollView;
use crate::poll::MAX_QUESTION_LEN;

verus! {

/// The state of a freshly created poll: both counters zero, an empty
/// register, and the creation time stamped with the current time.
pub open spec fn new_poll(
    question: Seq<char>,
    creator: Identity,
    poll_index: int,
    poll_threshold: int,
    created_time: int,
    expiry_time: int,
) -> PollView {
    PollView {
        question: question,
        yes_votes: 0,
        no_votes: 0,
        poll_index: poll_index,
        creator: creator,
        register: Seq::empty(),
        poll_threshold: poll_threshold,
        created_time: created_time,
        expiry_time: expiry_time,
    }
}

/// A vote is accepted exactly when the poll has not expired, the
/// voter has not voted before, and a nonzero threshold still leaves
/// room for one more vote.
pub open spec fn vote_accepted(p: PollView, voter: Identity, now: int) -> bool {
    &&& now <= p.expiry_time
    &&& !p.register.contains(voter)
    &&& p.poll_threshold != 0 ==> p.yes_votes + p.no_votes < p.poll_threshold
}

/// Which error a refused vote reports: expiry is checked first, then
/// the register, then the threshold.
pub open spec fn vote_error(p: PollView, voter: Identity, now: int) -> ErrorCode {
    if now > p.expiry_time {
        ErrorCode::PollExpired
    } else if p.register.contains(voter) {
        ErrorCode::CannotVoteTwice
    } else {
        ErrorCode::VoteThreshold
    }
}

/// The poll after an accepted vote: the voter joins the register and
/// exactly one counter grows by one.
pub open spec fn cast_vote(p: PollView, voter: Identity, choice: bool) -> PollView {
    PollView {
        yes_votes: if choice { p.yes_votes + 1 } else { p.yes_votes },
        no_votes: if choice { p.no_votes } else { p.no_votes + 1 },
        register: p.register.push(voter),
        ..p
    }
}

/// Creates a poll. The expiry time must be strictly after the current
/// time and the question at most `MAX_QUESTION_LEN` characters; any
/// other input is rejected and no poll comes to be. In particular a
/// question longer than `MAX_QUESTION_LEN` characters is always
/// rejected.
pub fn create_poll(
    question: String,
    creator: Identity,
    poll_index: u64,
    poll_threshold: u64,
    expiry_time: i64,
    current_time: i64,
) -> (result: Result<Poll, ErrorCode>)
    ensures
        expiry_time <= current_time ==> result == Err::<Poll, ErrorCode>(
            ErrorCode::InvalidExpiryTime,
        ),
        expiry_time > current_time && question@.len() > MAX_QUESTION_LEN ==> result
            == Err::<Poll, ErrorCode>(ErrorCode::QuestionTooLong),
        question@.len() > MAX_QUESTION_LEN ==> result is Err,
        expiry_time > current_time && question@.len() <= MAX_QUESTION_LEN ==> (match result {
            Ok(p) => p@ == new_poll(
                question@,
                creator,
                poll_index as int,
                poll_threshold as int,
                current_time as int,
                expiry_time as int,
            ),
            Err(_) => false,
        }),
        result matches Ok(p) ==> p@.wf(),
{
    if expiry_time <= current_time {
        return Err(ErrorCode::InvalidExpiryTime);
    }
    if question.as_str().unicode_len() > MAX_QUESTION_LEN {
        return Err(ErrorCode::QuestionTooLong);
    }
    let poll = Poll {
        question: question,
        yes_votes: 0,
        no_votes: 0,
        poll_index: poll_index,
        creator: creator,
        register: Vec::new(),
        poll_threshold: poll_threshold,
        created_time: current_time,
        expiry_time: expiry_time,
    };
    Ok(poll)
}

/// Whether `voter` already stands in the register.
fn register_contains(register: &Vec<Identity>, voter: &Identity) -> (r: bool)
    ensures
        r == register@.contains(*voter),
{
    let n: usize = register.len();
    let mut i: usize = 0;
    while i < n
        invariant
            i <= n,
            n == register@.len(),
            forall|j: int| 0 <= j < i ==> register@[j] != *voter,
        decreases n - i,
    {
        if register[i] == *voter {
            return true;
        }
        i += 1;
    }
    false
}

/// Casts a vote on `poll`. The checks run in order — expiry, double
/// vote, threshold — and the first failure aborts with that error and
/// no change to the poll. After the expiry time every vote is
/// rejected. An accepted vote appends the voter to the register and
/// increments exactly the chosen counter.
pub fn vote_for_poll(
    poll: &mut Poll,
    voter: Identity,
    vote_choice: bool,
    current_time: i64,
) -> (result: Result<(), ErrorCode>)
    requires
        old(poll)@.wf(),
    ensures
        final(poll)@.wf(),
        vote_accepted(old(poll)@, voter, current_time as int) ==> result == Ok::<(), ErrorCode>(())
            && final(poll)@ == cast_vote(old(poll)@, voter, vote_choice),
        !vote_accepted(old(poll)@, voter, current_time as int) ==> result == Err::<(), ErrorCode>(
            vote_error(old(poll)@, voter, current_time as int),
        ) && final(poll)@ == old(poll)@,
        current_time > old(poll)@.expiry_time ==> result == Err::<(), ErrorCode>(
            ErrorCode::PollExpired,
        ),
{
    if current_time > poll.expiry_time {
        return Err(ErrorCode::PollExpired);
    }
    if register_contains(&poll.register, &voter) {
        return Err(ErrorCode::CannotVoteTwice);
    }
    if poll.poll_threshold != 0 && poll.yes_votes + poll.no_votes >= poll.poll_threshold {
        return Err(ErrorCode::VoteThreshold);
    }
    poll.register.push(voter);
    // The counters sum to the old register length, and the grown
    // register still fits in a usize, so neither counter can overflow.
    let n: usize = poll.register.len();
    proof {
        assert(poll.yes_votes + poll.no_votes < n);
    }
    if vote_choice {
        poll.yes_votes = poll.yes_votes + 1;
    } else {
        poll.no_votes = poll.no_votes + 1;
    }
    Ok(())
}

} // verus!
