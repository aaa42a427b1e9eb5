//! The poll state: voter identities, the poll record, its view and
//! its well-formedness invariant.

use vstd::prelude::*;

verus! {

/// Maximum number of characters allowed in a poll question.
pub const MAX_QUESTION_LEN: usize = 300;

/// A 32-byte identity, as the host chain identifies accounts.
/// Two identities are the same voter exactly when their bytes agree.
#[derive(Clone, Copy, Debug)]
pub struct Identity {
    pub bytes: [u8; 32],
}

impl PartialEq for Identity {
    fn eq(&self, other: &Identity) -> (r: bool) {
        let mut i: usize = 0;
        while i < 32
            invariant
                i <= 32,
                forall|j: int| 0 <= j < i ==> self.bytes[j] == other.bytes[j],
            decreases 32 - i,
        {
            if self.bytes[i] != other.bytes[i] {
                return false;
            }
            i += 1;
        }
        proof {
            assert(self.bytes =~= other.bytes);
        }
        true
    }
}

impl vstd::std_specs::cmp::PartialEqSpecImpl for Identity {
    open spec fn obeys_eq_spec() -> bool {
        true
    }

    open spec fn eq_spec(&self, other: &Identity) -> bool {
        self.bytes == other.bytes
    }
}

/// Why a poll operation was refused. Every failure aborts the
/// operation with no change to the poll.
#[derive(Clone, Copy, Debug, PartialEq, Eq, Structural)]
pub enum ErrorCode {
    /// The question exceeds `MAX_QUESTION_LEN` characters.
    QuestionTooLong,
    /// The voter already stands in the poll's register.
    CannotVoteTwice,
    /// The poll's vote threshold has been reached.
    VoteThreshold,
    /// The expiry time is not strictly after the current time.
    InvalidExpiryTime,
    /// The poll's expiry time has passed.
    PollExpired,
}

/// One votable question: its text, the two counters, the register of
/// everyone who has voted, an optional threshold and an expiry time.
#[derive(Debug)]
pub struct Poll {
    pub question: String,
    pub yes_votes: u64,
    pub no_votes: u64,
    pub poll_index: u64,
    pub creator: Identity,
    pub register: Vec<Identity>,
    pub poll_threshold: u64,
    pub created_time: i64,
    pub expiry_time: i64,
}

/// The mathematical state of a poll, which the contracts speak of.
pub ghost struct PollView {
    pub question: Seq<char>,
    pub yes_votes: int,
    pub no_votes: int,
    pub poll_index: int,
    pub creator: Identity,
    pub register: Seq<Identity>,
    pub poll_threshold: int,
    pub created_time: int,
    pub expiry_time: int,
}

impl View for Poll {
    type V = PollView;

    open spec fn view(&self) -> PollView {
        PollView {
            question: self.question@,
            yes_votes: self.yes_votes as int,
            no_votes: self.no_votes as int,
            poll_index: self.poll_index as int,
            creator: self.creator,
            register: self.register@,
            poll_threshold: self.poll_threshold as int,
            created_time: self.created_time as int,
            expiry_time: self.expiry_time as int,
        }
    }
}

impl PollView {
    /// The invariant every reachable poll satisfies: the question is
    /// bounded, no voter stands twice in the register, the counters
    /// sum to the register's length, a nonzero threshold bounds that
    /// sum, and the poll was created before it expires.
    pub open spec fn wf(self) -> bool {
        &&& self.question.len() <= MAX_QUESTION_LEN
        &&& self.register.no_duplicates()
        &&& self.yes_votes + self.no_votes == self.register.len()
        &&& self.poll_threshold != 0 ==> self.yes_votes + self.no_votes <= self.poll_threshold
        &&& self.created_time < self.expiry_time
    }
}

impl Poll {
    /// Decides the invariant `wf` by running its checks: the bound on
    /// the question, distinctness of the register, the counter sum,
    /// the threshold bound and the time order. Callers outside the
    /// verified library can test a stored poll with this before
    /// voting on it.
    pub fn is_well_formed(&self) -> (r: bool)
        ensures
            r == self@.wf(),
    {
        if self.question.as_str().unicode_len() > MAX_QUESTION_LEN {
            return false;
        }
        let n: usize = self.register.len();
        let mut i: usize = 0;
        while i < n
            invariant
                i <= n,
                n == self.register@.len(),
                forall|p: int, q: int| 0 <= p < q < i ==> self.register@[p] != self.register@[q],
            decreases n - i,
        {
            let mut j: usize = 0;
            while j < i
                invariant
                    j <= i,
                    i < n,
                    n == self.register@.len(),
                    forall|q: int| 0 <= q < j ==> self.register@[q] != self.register@[i as int],
                decreases i - j,
            {
                if self.register[j] == self.register[i] {
                    return false;
                }
                j += 1;
            }
            i += 1;
        }
        assert(self.register@.no_duplicates()) by {
            assert(forall|p: int, q: int|
                0 <= p < self.register@.len() && 0 <= q < self.register@.len() && p != q
                    ==> self.register@[p] != self.register@[q]);
        }
        let total: u128 = (self.yes_votes as u128) + (self.no_votes as u128);
        if total != self.register.len() as u128 {
            return false;
        }
        if self.poll_threshold != 0 && total > self.poll_threshold as u128 {
            return false;
        }
        self.created_time < self.expiry_time
    }
}

} // verus!
