//! Aggregate vote counts for one poll, computed from the ledger rows. The
//! ledger is canonical: the counts are derived, never stored.

use vstd::prelude::*;
use crate::entities::InvitePollVote;
use crate::entities::invite_poll::InvitePollId;
use crate::entities::invite_poll_vote_submission::SubmissionView;
use crate::entities::store::Store;

verus! {

/// How many live votes with value `vote` the poll `id` holds in `votes`.
pub open spec fn count_votes(votes: Seq<SubmissionView>, id: Seq<u8>, vote: InvitePollVote) -> nat
    decreases votes.len(),
{
    if votes.len() == 0 {
        0
    } else {
        count_votes(votes.drop_last(), id, vote) + if votes.last().invite_poll_id == id
            && votes.last().vote == vote {
            1nat
        } else {
            0nat
        }
    }
}

/// Overwriting one ledger row moves the counts by exactly the two rows'
/// contributions.
pub proof fn lemma_count_votes_update(
    votes: Seq<SubmissionView>,
    k: int,
    x: SubmissionView,
    id: Seq<u8>,
    vote: InvitePollVote,
)
    requires
        0 <= k < votes.len(),
    ensures
        count_votes(votes.update(k, x), id, vote) + (if votes[k].invite_poll_id == id
            && votes[k].vote == vote {
            1nat
        } else {
            0nat
        }) == count_votes(votes, id, vote) + (if x.invite_poll_id == id && x.vote == vote {
            1nat
        } else {
            0nat
        }),
    decreases votes.len(),
{
    let updated = votes.update(k, x);
    if k == votes.len() - 1 {
        assert(updated.drop_last() =~= votes.drop_last());
        assert(updated.last() == x);
    } else {
        assert(updated.drop_last() =~= votes.drop_last().update(k, x));
        assert(updated.last() == votes.last());
        lemma_count_votes_update(votes.drop_last(), k, x, id, vote);
    }
}

/// The tally of one poll.
#[derive(Debug)]
pub struct InvitePollCount {
    pub invite_poll_id: InvitePollId,
    pub yes_count: u64,
    pub no_count: u64,
}

impl InvitePollCount {
    /// Tallies the ledger for one poll; all-zero counts when no votes
    /// exist.
    pub fn compute(store: &Store, invite_poll_id: &InvitePollId) -> (r: InvitePollCount)
        ensures
            r.invite_poll_id@ == invite_poll_id@,
            r.yes_count == count_votes(store@.votes, invite_poll_id@, InvitePollVote::Yes),
            r.no_count == count_votes(store@.votes, invite_poll_id@, InvitePollVote::No),
    {
        let mut yes: u64 = 0;
        let mut no: u64 = 0;
        let n = store.votes.len();
        proof {
            assert(store@.votes.take(0) =~= Seq::<SubmissionView>::empty());
        }
        for j in 0..n
            invariant
                n == store.votes.len(),
                n == store@.votes.len(),
                yes == count_votes(store@.votes.take(j as int), invite_poll_id@, InvitePollVote::Yes),
                no == count_votes(store@.votes.take(j as int), invite_poll_id@, InvitePollVote::No),
                yes <= j,
                no <= j,
        {
            let row = &store.votes[j];
            if row.invite_poll_id == *invite_poll_id {
                match row.vote {
                    InvitePollVote::Yes => {
                        yes = yes + 1;
                    },
                    InvitePollVote::No => {
                        no = no + 1;
                    },
                }
            }
            proof {
                let pre = store@.votes.take(j as int);
                let post = store@.votes.take(j as int + 1);
                assert(post.drop_last() =~= pre);
                assert(post.last() == store@.votes[j as int]);
            }
        }
        proof {
            assert(store@.votes.take(n as int) =~= store@.votes);
        }
        InvitePollCount { invite_poll_id: invite_poll_id.duplicate(), yes_count: yes, no_count: no }
    }
}

} // verus!
