//! An image of the relational store: the three row sets, with the
//! uniqueness the store's keys and upserts maintain.

use vstd::prelude::*;
use crate::entities::guild::Guild;
use crate::entities::invite_poll::InvitePoll;
use crate::entities::invite_poll::InvitePollId;
use crate::entities::invite_poll::PollView;
use crate::entities::invite_poll::poll_id_len;
use crate::entities::invite_poll_vote_submission::InvitePollVoteSubmission;
use crate::entities::invite_poll_vote_submission::SubmissionView;
use crate::ids::GuildId;
use crate::ids::UserId;

verus! {

/// Ghost image of a [`Store`]: the rows of the three entities.
pub ghost struct StoreView {
    pub polls: Seq<PollView>,
    pub votes: Seq<SubmissionView>,
    pub guilds: Seq<Guild>,
}

impl StoreView {
    /// The store's key discipline: poll identifiers are unique and 16 bytes
    /// long, at most one live vote per (poll, voter), one settings row per
    /// community, and every quorum is a percentage.
    pub open spec fn wf(self) -> bool {
        &&& forall|i: int, j: int|
            0 <= i < j < self.polls.len() ==> (#[trigger] self.polls[i]).id != (
            #[trigger] self.polls[j]).id
        &&& forall|i: int|
            0 <= i < self.polls.len() ==> (#[trigger] self.polls[i]).id.len() == poll_id_len()
        &&& forall|i: int, j: int|
            0 <= i < j < self.votes.len() ==> !((#[trigger] self.votes[i]).invite_poll_id == (
            #[trigger] self.votes[j]).invite_poll_id && self.votes[i].user_id
                == self.votes[j].user_id)
        &&& forall|i: int, j: int|
            0 <= i < j < self.guilds.len() ==> (#[trigger] self.guilds[i]).id != (
            #[trigger] self.guilds[j]).id
        &&& forall|i: int|
            0 <= i < self.guilds.len() ==> (#[trigger] self.guilds[i]).invite_poll_quorum <= 100
    }

    /// Whether some poll row carries `id`.
    pub open spec fn has_poll(self, id: Seq<u8>) -> bool {
        exists|i: int| 0 <= i < self.polls.len() && (#[trigger] self.polls[i]).id == id
    }

    /// The index of the poll row carrying `id`.
    pub open spec fn poll_idx(self, id: Seq<u8>) -> int {
        choose|i: int| 0 <= i < self.polls.len() && (#[trigger] self.polls[i]).id == id
    }

    /// The poll row carrying `id`.
    pub open spec fn poll(self, id: Seq<u8>) -> PollView {
        self.polls[self.poll_idx(id)]
    }

    /// Whether `user` has a live vote on the poll `id`.
    pub open spec fn has_vote(self, id: Seq<u8>, user: UserId) -> bool {
        exists|i: int|
            0 <= i < self.votes.len() && (#[trigger] self.votes[i]).invite_poll_id == id
                && self.votes[i].user_id == user
    }

    /// The index of `user`'s live vote on the poll `id`.
    pub open spec fn vote_idx(self, id: Seq<u8>, user: UserId) -> int {
        choose|i: int|
            0 <= i < self.votes.len() && (#[trigger] self.votes[i]).invite_poll_id == id
                && self.votes[i].user_id == user
    }

    /// `user`'s live vote row on the poll `id`.
    pub open spec fn vote(self, id: Seq<u8>, user: UserId) -> SubmissionView {
        self.votes[self.vote_idx(id, user)]
    }

    /// Whether the community `id` has a settings row.
    pub open spec fn has_guild(self, id: GuildId) -> bool {
        exists|i: int| 0 <= i < self.guilds.len() && (#[trigger] self.guilds[i]).id == id
    }

    /// The index of the settings row of the community `id`.
    pub open spec fn guild_idx(self, id: GuildId) -> int {
        choose|i: int| 0 <= i < self.guilds.len() && (#[trigger] self.guilds[i]).id == id
    }

    /// The settings row of the community `id`.
    pub open spec fn guild(self, id: GuildId) -> Guild {
        self.guilds[self.guild_idx(id)]
    }

    /// In a well-formed store, a row's index pins the lookup down.
    pub proof fn lemma_poll_idx_is(self, i: int, id: Seq<u8>)
        requires
            self.wf(),
            0 <= i < self.polls.len(),
            self.polls[i].id == id,
        ensures
            self.has_poll(id),
            self.poll_idx(id) == i,
            self.poll(id) == self.polls[i],
    {
        assert(self.has_poll(id));
        let k = self.poll_idx(id);
        assert(0 <= k < self.polls.len() && self.polls[k].id == id);
        if k != i {
            assert(false);
        }
    }

    /// In a well-formed store, a vote's index pins the lookup down.
    pub proof fn lemma_vote_idx_is(self, i: int, id: Seq<u8>, user: UserId)
        requires
            self.wf(),
            0 <= i < self.votes.len(),
            self.votes[i].invite_poll_id == id,
            self.votes[i].user_id == user,
        ensures
            self.has_vote(id, user),
            self.vote_idx(id, user) == i,
            self.vote(id, user) == self.votes[i],
    {
        assert(self.has_vote(id, user));
        let k = self.vote_idx(id, user);
        assert(0 <= k < self.votes.len() && self.votes[k].invite_poll_id == id
            && self.votes[k].user_id == user);
        if k != i {
            assert(false);
        }
    }

    /// In a well-formed store, a settings row's index pins the lookup down.
    pub proof fn lemma_guild_idx_is(self, i: int, id: GuildId)
        requires
            self.wf(),
            0 <= i < self.guilds.len(),
            self.guilds[i].id == id,
        ensures
            self.has_guild(id),
            self.guild_idx(id) == i,
            self.guild(id) == self.guilds[i],
    {
        assert(self.has_guild(id));
        let k = self.guild_idx(id);
        assert(0 <= k < self.guilds.len() && self.guilds[k].id == id);
        if k != i {
            assert(false);
        }
    }
}

/// The store handle every component receives at construction time: the
/// poll, vote and settings rows.
#[derive(Debug)]
pub struct Store {
    pub polls: Vec<InvitePoll>,
    pub votes: Vec<InvitePollVoteSubmission>,
    pub guilds: Vec<Guild>,
}

impl View for Store {
    type V = StoreView;

    open spec fn view(&self) -> StoreView {
        StoreView {
            polls: self.polls@.map_values(|p: InvitePoll| p@),
            votes: self.votes@.map_values(|v: InvitePollVoteSubmission| v@),
            guilds: self.guilds@,
        }
    }
}

impl Store {
    /// An empty store.
    pub fn new() -> (r: Store)
        ensures
            r@.wf(),
            r@.polls.len() == 0,
            r@.votes.len() == 0,
            r@.guilds.len() == 0,
    {
        Store { polls: Vec::new(), votes: Vec::new(), guilds: Vec::new() }
    }

    /// The position of the poll row carrying `id`, if any.
    pub fn find_poll_index(&self, id: &InvitePollId) -> (r: Option<usize>)
        ensures
            match r {
                Some(i) => i < self@.polls.len() && self@.polls[i as int].id == id@,
                None => !self@.has_poll(id@),
            },
    {
        let n = self.polls.len();
        for j in 0..n
            invariant
                n == self.polls.len(),
                forall|k: int| 0 <= k < j ==> (#[trigger] self@.polls[k]).id != id@,
        {
            if self.polls[j].id == *id {
                return Some(j);
            }
        }
        None
    }

    /// The position of `user`'s live vote on the poll `id`, if any.
    pub fn find_vote_index(&self, id: &InvitePollId, user: UserId) -> (r: Option<usize>)
        ensures
            match r {
                Some(i) => {
                    &&& i < self@.votes.len()
                    &&& self@.votes[i as int].invite_poll_id == id@
                    &&& self@.votes[i as int].user_id == user
                },
                None => !self@.has_vote(id@, user),
            },
    {
        let n = self.votes.len();
        for j in 0..n
            invariant
                n == self.votes.len(),
                forall|k: int|
                    0 <= k < j ==> !((#[trigger] self@.votes[k]).invite_poll_id == id@
                        && self@.votes[k].user_id == user),
        {
            if self.votes[j].invite_poll_id == *id && self.votes[j].user_id == user {
                return Some(j);
            }
        }
        None
    }

    /// The position of the settings row of the community `id`, if any.
    pub fn find_guild_index(&self, id: GuildId) -> (r: Option<usize>)
        ensures
            match r {
                Some(i) => i < self@.guilds.len() && self@.guilds[i as int].id == id,
                None => !self@.has_guild(id),
            },
    {
        let n = self.guilds.len();
        for j in 0..n
            invariant
                n == self.guilds.len(),
                forall|k: int| 0 <= k < j ==> (#[trigger] self@.guilds[k]).id != id,
        {
            if self.guilds[j].id == id {
                return Some(j);
            }
        }
        None
    }
}

} // verus!
