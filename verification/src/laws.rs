//! What holds of a poll over any sequence of vote attempts: the
//! invariant is preserved, a nonzero threshold is never exceeded, an
//! expired poll never changes, and the counters sum to the number of
//! accepted votes.

use vstd::prelude::*;
use crate::poll::Identity;
use crate::poll::PollView;
use crate::voting::cast_vote;
use crate::voting::vote_accepted;

verus! {

/// One attempt to vote: who votes, how, and at what time.
pub ghost struct VoteAttempt {
    pub voter: Identity,
    pub choice: bool,
    pub time: int,
}

/// The poll after one attempt: an accepted vote is cast, a refused
/// one leaves the poll as it was.
pub open spec fn step(p: PollView, a: VoteAttempt) -> PollView {
    if vote_accepted(p, a.voter, a.time) {
        cast_vote(p, a.voter, a.choice)
    } else {
        p
    }
}

/// The poll after a sequence of attempts, applied in order.
pub open spec fn run(p: PollView, attempts: Seq<VoteAttempt>) -> PollView
    decreases attempts.len(),
{
    if attempts.len() == 0 {
        p
    } else {
        run(step(p, attempts[0]), attempts.drop_first())
    }
}

/// How many of the attempts are accepted along the way.
pub open spec fn accepted_count(p: PollView, attempts: Seq<VoteAttempt>) -> nat
    decreases attempts.len(),
{
    if attempts.len() == 0 {
        0
    } else {
        (if vote_accepted(p, attempts[0].voter, attempts[0].time) {
            1 as nat
        } else {
            0 as nat
        }) + accepted_count(step(p, attempts[0]), attempts.drop_first())
    }
}

/// One attempt preserves the invariant, and changes neither the
/// question, the creator, the threshold nor the times.
pub proof fn lemma_step_preserves_wf(p: PollView, a: VoteAttempt)
    requires
        p.wf(),
    ensures
        step(p, a).wf(),
        step(p, a).question == p.question,
        step(p, a).creator == p.creator,
        step(p, a).poll_index == p.poll_index,
        step(p, a).poll_threshold == p.poll_threshold,
        step(p, a).created_time == p.created_time,
        step(p, a).expiry_time == p.expiry_time,
{
    if vote_accepted(p, a.voter, a.time) {
        let q = cast_vote(p, a.voter, a.choice);
        assert forall|i: int, j: int|
            0 <= i < q.register.len() && 0 <= j < q.register.len() && i != j implies q.register[i]
            != q.register[j] by {
            if i < p.register.len() && j < p.register.len() {
            } else if j == p.register.len() {
                assert(q.register[j] == a.voter);
                assert(!p.register.contains(a.voter));
                assert(q.register[i] == p.register[i]);
            } else {
                assert(q.register[i] == a.voter);
                assert(!p.register.contains(a.voter));
                assert(q.register[j] == p.register[j]);
            }
        }
    }
}

/// No sequence of attempts breaks the invariant: in particular the
/// register never holds a voter twice, and with a nonzero threshold
/// the counters never sum beyond it. The fields not touched by
/// voting stay as they were.
pub proof fn lemma_run_preserves_wf(p: PollView, attempts: Seq<VoteAttempt>)
    requires
        p.wf(),
    ensures
        run(p, attempts).wf(),
        run(p, attempts).question == p.question,
        run(p, attempts).creator == p.creator,
        run(p, attempts).poll_index == p.poll_index,
        run(p, attempts).poll_threshold == p.poll_threshold,
        run(p, attempts).created_time == p.created_time,
        run(p, attempts).expiry_time == p.expiry_time,
    decreases attempts.len(),
{
    if attempts.len() > 0 {
        lemma_step_preserves_wf(p, attempts[0]);
        lemma_run_preserves_wf(step(p, attempts[0]), attempts.drop_first());
    }
}

/// A voter identity never appears twice in a poll's register,
/// whatever votes are attempted.
pub proof fn lemma_register_distinct(p: PollView, attempts: Seq<VoteAttempt>)
    requires
        p.wf(),
    ensures
        run(p, attempts).register.no_duplicates(),
{
    lemma_run_preserves_wf(p, attempts);
}

/// With a nonzero threshold, the total number of votes never exceeds
/// it, whatever votes are attempted.
pub proof fn lemma_threshold_never_exceeded(p: PollView, attempts: Seq<VoteAttempt>)
    requires
        p.wf(),
        p.poll_threshold > 0,
    ensures
        run(p, attempts).yes_votes + run(p, attempts).no_votes <= p.poll_threshold,
{
    lemma_run_preserves_wf(p, attempts);
}

/// After the expiry time, all votes are rejected: attempts made past
/// expiry leave the poll exactly as it was, and none is counted.
pub proof fn lemma_expired_votes_rejected(p: PollView, attempts: Seq<VoteAttempt>)
    requires
        forall|i: int| 0 <= i < attempts.len() ==> attempts[i].time > p.expiry_time,
    ensures
        run(p, attempts) == p,
        accepted_count(p, attempts) == 0,
    decreases attempts.len(),
{
    if attempts.len() > 0 {
        assert(!vote_accepted(p, attempts[0].voter, attempts[0].time));
        assert(step(p, attempts[0]) == p);
        lemma_expired_votes_rejected(p, attempts.drop_first());
    }
}

/// The counters sum to exactly the number of accepted votes: after a
/// sequence of attempts of which N are accepted, `yes_votes +
/// no_votes` has grown by exactly N. On a freshly created poll both
/// counters start at zero, so the sum then equals N itself.
pub proof fn lemma_vote_count(p: PollView, attempts: Seq<VoteAttempt>)
    ensures
        run(p, attempts).yes_votes + run(p, attempts).no_votes == p.yes_votes + p.no_votes
            + accepted_count(p, attempts),
    decreases attempts.len(),
{
    if attempts.len() > 0 {
        lemma_vote_count(step(p, attempts[0]), attempts.drop_first());
    }
}

} // verus!
