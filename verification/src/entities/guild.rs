//! Per-community settings: where invites are minted, and the quorum rule.

use vstd::prelude::*;
use crate::entities::store::Store;
use crate::ids::ChannelId;
use crate::ids::GuildId;

verus! {

/// One community's settings row.
#[derive(Clone, Copy, Debug, PartialEq, Eq, Structural)]
pub struct Guild {
    pub id: GuildId,
    /// The channel users are going to be invited to.
    pub invite_channel_id: ChannelId,
    /// The minimum fraction of eligible voters whose approval a petition
    /// needs, as a percentage from 0 to 100.
    pub invite_poll_quorum: u8,
    pub created_at: i64,
    pub updated_at: i64,
}

/// What the settings upsert does to the rows: one row per community, its
/// creation time kept across updates.
pub open spec fn guild_upsert_model(
    guilds: Seq<Guild>,
    idx: int,
    has: bool,
    id: GuildId,
    invite_channel_id: ChannelId,
    invite_poll_quorum: u8,
    now: i64,
) -> Seq<Guild> {
    if has {
        guilds.update(
            idx,
            Guild {
                id,
                invite_channel_id,
                invite_poll_quorum,
                created_at: guilds[idx].created_at,
                updated_at: now,
            },
        )
    } else {
        guilds.push(
            Guild { id, invite_channel_id, invite_poll_quorum, created_at: now, updated_at: now },
        )
    }
}

impl Guild {
    /// Writes the community's settings, idempotently: the first call
    /// creates the row, later calls overwrite channel and quorum and keep
    /// the creation time.
    pub fn create_or_update(
        store: &mut Store,
        id: GuildId,
        invite_channel_id: ChannelId,
        invite_poll_quorum: u8,
        now: i64,
    ) -> (r: Guild)
        requires
            old(store)@.wf(),
            invite_poll_quorum <= 100,
        ensures
            final(store)@.wf(),
            final(store)@.guilds == guild_upsert_model(
                old(store)@.guilds,
                old(store)@.guild_idx(id),
                old(store)@.has_guild(id),
                id,
                invite_channel_id,
                invite_poll_quorum,
                now,
            ),
            final(store)@.polls == old(store)@.polls,
            final(store)@.votes == old(store)@.votes,
            final(store)@.has_guild(id),
            r == final(store)@.guild(id),
            r.id == id,
            r.invite_channel_id == invite_channel_id,
            r.invite_poll_quorum == invite_poll_quorum,
            r.updated_at == now,
            old(store)@.has_guild(id) ==> r.created_at == old(store)@.guild(id).created_at,
            !old(store)@.has_guild(id) ==> r.created_at == now,
    {
        match store.find_guild_index(id) {
            Some(i) => {
                proof {
                    old(store)@.lemma_guild_idx_is(i as int, id);
                }
                let row = Guild {
                    id,
                    invite_channel_id,
                    invite_poll_quorum,
                    created_at: store.guilds[i].created_at,
                    updated_at: now,
                };
                store.guilds[i] = row;
                proof {
                    assert(store@.polls =~= old(store)@.polls);
                    assert(store@.votes =~= old(store)@.votes);
                    assert(store@.guilds == old(store)@.guilds.update(i as int, row));
                    assert forall|a: int, b: int|
                        0 <= a < b < store@.guilds.len() implies (#[trigger] store@.guilds[a]).id
                        != (#[trigger] store@.guilds[b]).id by {
                        assert(old(store)@.guilds[a].id != old(store)@.guilds[b].id);
                        if a == i as int {
                            assert(store@.guilds[a] == row && store@.guilds[b] == old(
                                store,
                            )@.guilds[b]);
                        } else if b == i as int {
                            assert(store@.guilds[a] == old(store)@.guilds[a] && store@.guilds[b]
                                == row);
                            assert(row.id == old(store)@.guilds[i as int].id);
                        } else {
                            assert(store@.guilds[a] == old(store)@.guilds[a] && store@.guilds[b]
                                == old(store)@.guilds[b]);
                        }
                    }
                    assert forall|a: int|
                        0 <= a < store@.guilds.len() implies (
                    #[trigger] store@.guilds[a]).invite_poll_quorum <= 100 by {
                        if a != i as int {
                            assert(store@.guilds[a] == old(store)@.guilds[a]);
                        }
                    }
                    assert(store@.wf());
                    store@.lemma_guild_idx_is(i as int, id);
                }
                row
            },
            None => {
                let row = Guild {
                    id,
                    invite_channel_id,
                    invite_poll_quorum,
                    created_at: now,
                    updated_at: now,
                };
                store.guilds.push(row);
                proof {
                    assert(store@.polls =~= old(store)@.polls);
                    assert(store@.votes =~= old(store)@.votes);
                    assert(store@.guilds == old(store)@.guilds.push(row));
                    assert forall|a: int, b: int|
                        0 <= a < b < store@.guilds.len() implies (#[trigger] store@.guilds[a]).id
                        != (#[trigger] store@.guilds[b]).id by {
                        if b == old(store)@.guilds.len() as int {
                            assert(store@.guilds[a] == old(store)@.guilds[a]);
                            assert(store@.guilds[b] == row);
                        } else {
                            assert(store@.guilds[a] == old(store)@.guilds[a]);
                            assert(store@.guilds[b] == old(store)@.guilds[b]);
                        }
                    }
                    assert forall|a: int|
                        0 <= a < store@.guilds.len() implies (
                    #[trigger] store@.guilds[a]).invite_poll_quorum <= 100 by {
                        if a != old(store)@.guilds.len() as int {
                            assert(store@.guilds[a] == old(store)@.guilds[a]);
                        }
                    }
                    assert(store@.wf());
                    store@.lemma_guild_idx_is(old(store)@.guilds.len() as int, id);
                }
                row
            },
        }
    }

    /// The community's settings row, if it was ever configured.
    pub fn find_by_id(store: &Store, id: GuildId) -> (r: Option<Guild>)
        requires
            store@.wf(),
        ensures
            match r {
                Some(g) => store@.has_guild(id) && g == store@.guild(id),
                None => !store@.has_guild(id),
            },
    {
        match store.find_guild_index(id) {
            Some(i) => {
                proof {
                    store@.lemma_guild_idx_is(i as int, id);
                }
                Some(store.guilds[i])
            },
            None => None,
        }
    }
}

} // verus!
