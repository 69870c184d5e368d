//! The vote ledger: at most one live vote per (poll, voter), resubmission
//! overwrites.

use vstd::prelude::*;
use crate::entities::InvitePollVote;
use crate::entities::invite_poll::InvitePollId;
use crate::entities::invite_poll_vote_count::count_votes;
use crate::entities::invite_poll_vote_count::lemma_count_votes_update;
use crate::entities::store::Store;
use crate::entities::store::StoreView;
use crate::error::Error;
use crate::error::ErrorView;
use crate::ids::UserId;

verus! {

/// One ledger row: `user_id`'s live vote on the poll `invite_poll_id`.
#[derive(Debug)]
pub struct InvitePollVoteSubmission {
    pub invite_poll_id: InvitePollId,
    pub user_id: UserId,
    pub vote: InvitePollVote,
    pub created_at: i64,
    pub updated_at: i64,
}

/// Ghost image of an [`InvitePollVoteSubmission`].
pub ghost struct SubmissionView {
    pub invite_poll_id: Seq<u8>,
    pub user_id: UserId,
    pub vote: InvitePollVote,
    pub created_at: i64,
    pub updated_at: i64,
}

impl View for InvitePollVoteSubmission {
    type V = SubmissionView;

    open spec fn view(&self) -> SubmissionView {
        SubmissionView {
            invite_poll_id: self.invite_poll_id@,
            user_id: self.user_id,
            vote: self.vote,
            created_at: self.created_at,
            updated_at: self.updated_at,
        }
    }
}

/// What the vote upsert does to the ledger: a voter's first vote appends a
/// row, a resubmission overwrites the vote value in place and keeps the
/// row's creation time. No second row for the same (poll, voter) ever
/// appears.
pub open spec fn vote_upsert_model(
    s: StoreView,
    id: Seq<u8>,
    user: UserId,
    vote: InvitePollVote,
    now: i64,
) -> Seq<SubmissionView> {
    if s.has_vote(id, user) {
        s.votes.update(
            s.vote_idx(id, user),
            SubmissionView { vote, updated_at: now, ..s.vote(id, user) },
        )
    } else {
        s.votes.push(
            SubmissionView { invite_poll_id: id, user_id: user, vote, created_at: now, updated_at: now },
        )
    }
}

/// Resubmission overwrites: a voter who votes once and then votes again
/// ends with exactly one live ledger row for that poll, holding the later
/// value, and the totals count that voter once, under the later value
/// only.
pub proof fn lemma_vote_resubmission(
    s: StoreView,
    id: Seq<u8>,
    user: UserId,
    first: InvitePollVote,
    second: InvitePollVote,
    t1: i64,
    t2: i64,
)
    requires
        s.wf(),
        !s.has_vote(id, user),
        first != second,
    ensures
        ({
            let v1 = vote_upsert_model(s, id, user, first, t1);
            let s1 = StoreView { votes: v1, ..s };
            let v2 = vote_upsert_model(s1, id, user, second, t2);
            &&& v2.len() == s.votes.len() + 1
            &&& exists|k: int|
                0 <= k < v2.len() && (#[trigger] v2[k]).invite_poll_id == id && v2[k].user_id
                    == user
            &&& forall|k: int|
                0 <= k < v2.len() && (#[trigger] v2[k]).invite_poll_id == id && v2[k].user_id
                    == user ==> v2[k].vote == second
            &&& forall|k1: int, k2: int|
                (0 <= k1 < v2.len() && (#[trigger] v2[k1]).invite_poll_id == id && v2[k1].user_id
                    == user && 0 <= k2 < v2.len() && (#[trigger] v2[k2]).invite_poll_id == id
                    && v2[k2].user_id == user) ==> k1 == k2
            &&& count_votes(v2, id, second) == count_votes(s.votes, id, second) + 1
            &&& count_votes(v2, id, first) == count_votes(s.votes, id, first)
        }),
{
    let n = s.votes.len() as int;
    let row1 = SubmissionView {
        invite_poll_id: id,
        user_id: user,
        vote: first,
        created_at: t1,
        updated_at: t1,
    };
    let v1 = vote_upsert_model(s, id, user, first, t1);
    assert(v1 =~= s.votes.push(row1));
    let s1 = StoreView { votes: v1, ..s };
    assert(s1.has_vote(id, user)) by {
        assert(0 <= n < v1.len() && v1[n].invite_poll_id == id && v1[n].user_id == user);
    }
    let w = s1.vote_idx(id, user);
    assert(0 <= w < v1.len() && v1[w].invite_poll_id == id && v1[w].user_id == user);
    assert(w == n) by {
        if w != n {
            assert(v1[w] == s.votes[w]);
            assert(s.has_vote(id, user));
        }
    }
    let row2 = SubmissionView { vote: second, updated_at: t2, ..row1 };
    let v2 = vote_upsert_model(s1, id, user, second, t2);
    assert(v2 =~= v1.update(n, row2));
    assert(count_votes(v1, id, second) == count_votes(s.votes, id, second)) by {
        assert(v1.drop_last() =~= s.votes);
    }
    assert(count_votes(v1, id, first) == count_votes(s.votes, id, first) + 1) by {
        assert(v1.drop_last() =~= s.votes);
    }
    lemma_count_votes_update(v1, n, row2, id, second);
    lemma_count_votes_update(v1, n, row2, id, first);
    assert(forall|k: int|
        0 <= k < v2.len() && (#[trigger] v2[k]).invite_poll_id == id && v2[k].user_id == user
            ==> k == n) by {
        assert forall|k: int|
            0 <= k < v2.len() && (#[trigger] v2[k]).invite_poll_id == id && v2[k].user_id == user
                && k != n implies false by {
            assert(v2[k] == s.votes[k]);
            assert(s.has_vote(id, user));
        }
    }
    assert(0 <= n < v2.len() && v2[n].invite_poll_id == id && v2[n].user_id == user);
}

impl InvitePollVoteSubmission {
    /// An identical copy of the row.
    pub fn duplicate(&self) -> (r: InvitePollVoteSubmission)
        ensures
            r@ == self@,
    {
        InvitePollVoteSubmission {
            invite_poll_id: self.invite_poll_id.duplicate(),
            user_id: self.user_id,
            vote: self.vote,
            created_at: self.created_at,
            updated_at: self.updated_at,
        }
    }

    /// Records `user_id`'s vote on a poll, overwriting any earlier vote by
    /// the same voter. The poll must exist and still be open: a vote on a
    /// closed or expired poll is rejected and changes nothing.
    pub fn create_or_update(
        store: &mut Store,
        invite_poll_id: &InvitePollId,
        user_id: UserId,
        vote: InvitePollVote,
        now: i64,
    ) -> (r: Result<InvitePollVoteSubmission, Error>)
        requires
            old(store)@.wf(),
        ensures
            final(store)@.wf(),
            match r {
                Ok(sub) => {
                    &&& old(store)@.has_poll(invite_poll_id@)
                    &&& old(store)@.poll(invite_poll_id@).is_open(now)
                    &&& final(store)@.votes == vote_upsert_model(
                        old(store)@,
                        invite_poll_id@,
                        user_id,
                        vote,
                        now,
                    )
                    &&& final(store)@.polls == old(store)@.polls
                    &&& final(store)@.guilds == old(store)@.guilds
                    &&& sub@.invite_poll_id == invite_poll_id@
                    &&& sub@.user_id == user_id
                    &&& sub@.vote == vote
                    &&& sub@.updated_at == now
                    &&& sub@.created_at == if old(store)@.has_vote(invite_poll_id@, user_id) {
                        old(store)@.vote(invite_poll_id@, user_id).created_at
                    } else {
                        now
                    }
                    &&& final(store)@.has_vote(invite_poll_id@, user_id)
                    &&& final(store)@.vote(invite_poll_id@, user_id) == sub@
                },
                Err(e) => {
                    &&& final(store)@ == old(store)@
                    &&& if !old(store)@.has_poll(invite_poll_id@) {
                        e@ == ErrorView::InvitePollNotFound(invite_poll_id@)
                    } else {
                        !old(store)@.poll(invite_poll_id@).is_open(now) && e@
                            == ErrorView::InvitePollNotOpen(invite_poll_id@)
                    }
                },
            },
    {
        match store.find_poll_index(invite_poll_id) {
            Some(pi) => {
                proof {
                    old(store)@.lemma_poll_idx_is(pi as int, invite_poll_id@);
                }
                let open = store.polls[pi].outcome.is_none() && now < store.polls[pi].ends_at;
                if !open {
                    return Err(Error::InvitePollNotOpen(invite_poll_id.duplicate()));
                }
                match store.find_vote_index(invite_poll_id, user_id) {
                    Some(vi) => {
                        proof {
                            old(store)@.lemma_vote_idx_is(vi as int, invite_poll_id@, user_id);
                        }
                        let row = &mut store.votes[vi];
                        row.vote = vote;
                        row.updated_at = now;
                        let copy = store.votes[vi].duplicate();
                        proof {
                            assert(store@.votes =~= vote_upsert_model(
                                old(store)@,
                                invite_poll_id@,
                                user_id,
                                vote,
                                now,
                            ));
                            assert(store@.polls =~= old(store)@.polls);
                            assert(store@.guilds =~= old(store)@.guilds);
                            assert(store@.wf());
                            assert(store@.votes[vi as int] == copy@);
                            store@.lemma_vote_idx_is(vi as int, invite_poll_id@, user_id);
                        }
                        Ok(copy)
                    },
                    None => {
                        let row = InvitePollVoteSubmission {
                            invite_poll_id: invite_poll_id.duplicate(),
                            user_id,
                            vote,
                            created_at: now,
                            updated_at: now,
                        };
                        let copy = row.duplicate();
                        store.votes.push(row);
                        proof {
                            assert(store@.votes =~= vote_upsert_model(
                                old(store)@,
                                invite_poll_id@,
                                user_id,
                                vote,
                                now,
                            ));
                            assert(store@.polls =~= old(store)@.polls);
                            assert(store@.guilds =~= old(store)@.guilds);
                            assert(store@.wf());
                            assert(store@.votes[old(store)@.votes.len() as int] == copy@);
                            store@.lemma_vote_idx_is(
                                old(store)@.votes.len() as int,
                                invite_poll_id@,
                                user_id,
                            );
                        }
                        Ok(copy)
                    },
                }
            },
            None => Err(Error::InvitePollNotFound(invite_poll_id.duplicate())),
        }
    }
}

} // verus!
