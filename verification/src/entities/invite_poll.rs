//! A petition to invite a user, and its one-way lifecycle.

use vstd::prelude::*;
use crate::codec::b64_decode;
use crate::codec::b64_encode;
use crate::codec::b64_decode_exec;
use crate::codec::b64_encode_exec;
use crate::entities::InvitePollOutcome;
use crate::entities::store::Store;
use crate::entities::store::StoreView;
use crate::error::Error;
use crate::error::ErrorView;
use crate::ids::ChannelId;
use crate::ids::GuildId;
use crate::ids::MessageId;
use crate::ids::UserId;
use crate::text::opt_text;

verus! {

/// The number of bytes in a poll identifier.
pub open spec fn poll_id_len() -> nat {
    16
}

/// The opaque identifier of a poll. Users see it in its base64 text form,
/// which [`InvitePollId::from_str`] reads back exactly.
#[derive(Debug)]
pub struct InvitePollId {
    bytes: Vec<u8>,
}

impl View for InvitePollId {
    type V = Seq<u8>;

    closed spec fn view(&self) -> Seq<u8> {
        self.bytes@
    }
}

impl PartialEq for InvitePollId {
    fn eq(&self, other: &Self) -> (r: bool) {
        let r = self.bytes == other.bytes;
        proof {
            if r {
                assert(self.bytes@ =~= other.bytes@);
            }
            if self.bytes@ == other.bytes@ {
                assert(forall|i: int|
                    0 <= i < self.bytes@.len() ==> self.bytes@[i] == other.bytes@[i]);
            }
        }
        r
    }
}

impl vstd::std_specs::cmp::PartialEqSpecImpl for InvitePollId {
    open spec fn obeys_eq_spec() -> bool {
        true
    }

    open spec fn eq_spec(&self, other: &Self) -> bool {
        self@ == other@
    }
}

impl InvitePollId {
    /// An identifier from its raw bytes; `None` unless exactly 16 bytes.
    pub fn new(bytes: Vec<u8>) -> (r: Option<InvitePollId>)
        ensures
            match r {
                Some(id) => id@ == bytes@ && bytes@.len() == poll_id_len(),
                None => bytes@.len() != poll_id_len(),
            },
    {
        if bytes.len() == 16 {
            Some(InvitePollId { bytes })
        } else {
            None
        }
    }

    /// An identical copy.
    pub fn duplicate(&self) -> (r: InvitePollId)
        ensures
            r@ == self@,
    {
        InvitePollId { bytes: vstd::slice::slice_to_vec(self.bytes.as_slice()) }
    }

    /// The base64 text under which the identifier is shown to users.
    pub fn to_string(&self) -> (r: String)
        ensures
            r@ == b64_encode(self@),
    {
        b64_encode_exec(&self.bytes)
    }

    /// Reads an identifier back from its base64 text; rejects malformed
    /// text and text that does not decode to exactly 16 bytes.
    pub fn from_str(s: &str) -> (r: Result<InvitePollId, Error>)
        ensures
            match r {
                Ok(id) => b64_decode(s@) == Some(id@) && id@.len() == poll_id_len(),
                Err(e) => {
                    &&& b64_decode(s@) is None || b64_decode(s@).unwrap().len() != poll_id_len()
                    &&& e@ == ErrorView::InvitePollIdInvalid(s@)
                },
            },
    {
        match b64_decode_exec(s) {
            Some(bytes) => {
                if bytes.len() == 16 {
                    Ok(InvitePollId { bytes })
                } else {
                    Err(Error::InvitePollIdInvalid(s.to_owned()))
                }
            },
            None => Err(Error::InvitePollIdInvalid(s.to_owned())),
        }
    }
}

/// Every identifier reads back exactly from the text it is shown under:
/// its encoding decodes, to the right number of bytes, and to the same
/// bytes, so [`InvitePollId::from_str`] returns any valid identifier that
/// [`InvitePollId::to_string`] produced.
pub proof fn lemma_poll_id_round_trip(bytes: Seq<u8>)
    requires
        bytes.len() == poll_id_len(),
    ensures
        b64_decode(b64_encode(bytes)) == Some(bytes),
        b64_decode(b64_encode(bytes)).unwrap().len() == poll_id_len(),
{
    crate::codec::lemma_b64_round_trip(bytes);
}

/// One petition row.
#[derive(Debug)]
pub struct InvitePoll {
    pub id: InvitePollId,
    pub guild_id: GuildId,
    /// The member who started the petition.
    pub inviter: UserId,
    /// The user the petition wants to invite.
    pub invitee: UserId,
    /// Where the poll's rendered message lives, once known.
    pub channel_id: Option<ChannelId>,
    pub message_id: Option<MessageId>,
    /// Unset while the poll is open; immutable once set.
    pub outcome: Option<InvitePollOutcome>,
    /// Human-readable explanation attached when the poll closes.
    pub message: Option<String>,
    pub ends_at: i64,
    pub created_at: i64,
    pub updated_at: i64,
}

/// Ghost image of an [`InvitePoll`].
pub ghost struct PollView {
    pub id: Seq<u8>,
    pub guild_id: GuildId,
    pub inviter: UserId,
    pub invitee: UserId,
    pub channel_id: Option<ChannelId>,
    pub message_id: Option<MessageId>,
    pub outcome: Option<InvitePollOutcome>,
    pub message: Option<Seq<char>>,
    pub ends_at: i64,
    pub created_at: i64,
    pub updated_at: i64,
}

impl View for InvitePoll {
    type V = PollView;

    open spec fn view(&self) -> PollView {
        PollView {
            id: self.id@,
            guild_id: self.guild_id,
            inviter: self.inviter,
            invitee: self.invitee,
            channel_id: self.channel_id,
            message_id: self.message_id,
            outcome: self.outcome,
            message: opt_text(self.message),
            ends_at: self.ends_at,
            created_at: self.created_at,
            updated_at: self.updated_at,
        }
    }
}

impl PollView {
    /// A poll is closed once its outcome is set.
    pub open spec fn is_closed(self) -> bool {
        self.outcome is Some
    }

    /// The derived status: open while no outcome is set and the deadline
    /// has not passed.
    pub open spec fn is_open(self, now: i64) -> bool {
        self.outcome is None && now < self.ends_at
    }

    /// Awaiting the sweep: no outcome yet, deadline passed.
    pub open spec fn is_expired_open(self, now: i64) -> bool {
        self.outcome is None && self.ends_at <= now
    }
}

/// Relies on `uuid::Uuid::new_v4`: a fresh random identifier, 16 bytes long.
/// Nothing is assumed about which identifier comes back.
#[verifier::external_body]
fn new_poll_id() -> (r: InvitePollId)
    ensures
        r@.len() == poll_id_len(),
{
    InvitePollId { bytes: uuid::Uuid::new_v4().as_bytes().to_vec() }
}

/// What closing does to a store: nothing unless the poll exists and is
/// still without an outcome; otherwise exactly one row gains its outcome,
/// message and update time. The second component says whether the close
/// took effect.
pub open spec fn close_model(
    s: StoreView,
    id: Seq<u8>,
    outcome: InvitePollOutcome,
    message: Option<Seq<char>>,
    now: i64,
) -> (StoreView, bool) {
    if !s.has_poll(id) {
        (s, false)
    } else if s.poll(id).is_closed() {
        (s, false)
    } else {
        let updated = PollView {
            outcome: Some(outcome),
            message: message,
            updated_at: now,
            ..s.poll(id)
        };
        (StoreView { polls: s.polls.update(s.poll_idx(id), updated), ..s }, true)
    }
}

/// Closing is one-way: on a poll that already carries an outcome, a close
/// takes no effect and changes nothing — an earlier outcome or message is
/// never overwritten.
pub proof fn lemma_close_is_one_way(
    s: StoreView,
    id: Seq<u8>,
    outcome: InvitePollOutcome,
    message: Option<Seq<char>>,
    now: i64,
)
    requires
        s.has_poll(id),
        s.poll(id).is_closed(),
    ensures
        close_model(s, id, outcome, message, now) == (s, false),
{
}

/// Two sweeps that both observe the same expired open poll: the first
/// close takes effect and records its outcome and message; the second
/// takes no effect and changes nothing.
pub proof fn lemma_close_exactly_once(
    s: StoreView,
    id: Seq<u8>,
    o1: InvitePollOutcome,
    m1: Option<Seq<char>>,
    t1: i64,
    o2: InvitePollOutcome,
    m2: Option<Seq<char>>,
    t2: i64,
)
    requires
        s.wf(),
        s.has_poll(id),
        !s.poll(id).is_closed(),
    ensures
        ({
            let (s1, ok1) = close_model(s, id, o1, m1, t1);
            let (s2, ok2) = close_model(s1, id, o2, m2, t2);
            &&& ok1
            &&& !ok2
            &&& s2 == s1
            &&& s1.poll(id).outcome == Some(o1)
            &&& s1.poll(id).message == m1
        }),
{
    let i = s.poll_idx(id);
    assert(0 <= i < s.polls.len() && s.polls[i].id == id);
    let (s1, ok1) = close_model(s, id, o1, m1, t1);
    assert(s1.polls[i].id == id);
    assert(s1.has_poll(id));
    let k = s1.poll_idx(id);
    assert(0 <= k < s1.polls.len() && s1.polls[k].id == id);
    assert(k == i) by {
        if k != i {
            assert(s1.polls[k] == s.polls[k]);
            assert(s.polls[k].id == s.polls[i].id);
        }
    }
    assert(s1.poll(id).outcome == Some(o1));
    assert(s1.poll(id).is_closed());
}

impl InvitePoll {
    /// An identical copy of the row.
    pub fn duplicate(&self) -> (r: InvitePoll)
        ensures
            r@ == self@,
    {
        let message = match &self.message {
            Some(m) => Some(String::from_str(m.as_str())),
            None => None,
        };
        InvitePoll {
            id: self.id.duplicate(),
            guild_id: self.guild_id,
            inviter: self.inviter,
            invitee: self.invitee,
            channel_id: self.channel_id,
            message_id: self.message_id,
            outcome: self.outcome,
            message,
            ends_at: self.ends_at,
            created_at: self.created_at,
            updated_at: self.updated_at,
        }
    }

    /// Opens a new petition: a fresh identifier, a deadline `duration_secs`
    /// from now, and no outcome. Construction is validated: a member cannot
    /// petition for themselves, and the poll must stay open for a positive
    /// span. The fresh identifier is drawn at random, so success also needs
    /// it to be unused; a collision is reported as a store failure.
    pub fn create(
        store: &mut Store,
        guild_id: GuildId,
        inviter: UserId,
        invitee: UserId,
        duration_secs: u64,
        now: i64,
    ) -> (r: Result<InvitePoll, Error>)
        requires
            old(store)@.wf(),
            0 <= now,
            now + duration_secs <= i64::MAX,
        ensures
            final(store)@.wf(),
            match r {
                Ok(p) => {
                    &&& inviter != invitee
                    &&& duration_secs > 0
                    &&& p@.guild_id == guild_id
                    &&& p@.inviter == inviter
                    &&& p@.invitee == invitee
                    &&& p@.channel_id is None
                    &&& p@.message_id is None
                    &&& p@.outcome is None
                    &&& p@.message is None
                    &&& p@.ends_at == now + duration_secs
                    &&& p@.created_at == now
                    &&& p@.updated_at == now
                    &&& p@.id.len() == poll_id_len()
                    &&& !old(store)@.has_poll(p@.id)
                    &&& final(store)@.polls == old(store)@.polls.push(p@)
                    &&& final(store)@.has_poll(p@.id)
                    &&& final(store)@.poll(p@.id) == p@
                    &&& final(store)@.votes == old(store)@.votes
                    &&& final(store)@.guilds == old(store)@.guilds
                },
                Err(e) => {
                    &&& final(store)@ == old(store)@
                    &&& if inviter == invitee {
                        e@ == ErrorView::CannotInviteSelf(invitee)
                    } else if duration_secs == 0 {
                        e@ == ErrorView::InvalidPollDuration
                    } else {
                        // the drawn identifier collided with an existing
                        // row: on an empty store creation never fails
                        e@ is Database && old(store)@.polls.len() > 0
                    }
                },
            },
    {
        if inviter == invitee {
            return Err(Error::CannotInviteSelf(invitee));
        }
        if duration_secs == 0 {
            return Err(Error::InvalidPollDuration);
        }
        let id = new_poll_id();
        if store.find_poll_index(&id).is_some() {
            return Err(Error::Database(String::from_str(
                "generated poll id already taken",
            )));
        }
        let poll = InvitePoll {
            id,
            guild_id,
            inviter,
            invitee,
            channel_id: None,
            message_id: None,
            outcome: None,
            message: None,
            ends_at: now + duration_secs as i64,
            created_at: now,
            updated_at: now,
        };
        let copy = poll.duplicate();
        store.polls.push(poll);
        proof {
            assert(store@.polls =~= old(store)@.polls.push(copy@));
            assert(store@.votes =~= old(store)@.votes);
            assert(store@.guilds =~= old(store)@.guilds);
            assert(store@.wf());
            assert(store@.polls[old(store)@.polls.len() as int] == copy@);
            store@.lemma_poll_idx_is(old(store)@.polls.len() as int, copy@.id);
        }
        Ok(copy)
    }

    /// Back-fills where the poll's rendered message lives, once the message
    /// exists. The only fields that change are the message coordinates and
    /// the update time.
    pub fn update_message(
        store: &mut Store,
        id: &InvitePollId,
        channel_id: ChannelId,
        message_id: MessageId,
        now: i64,
    ) -> (r: Result<(), Error>)
        requires
            old(store)@.wf(),
        ensures
            final(store)@.wf(),
            match r {
                Ok(()) => {
                    &&& old(store)@.has_poll(id@)
                    &&& final(store)@.polls == old(store)@.polls.update(
                        old(store)@.poll_idx(id@),
                        PollView {
                            channel_id: Some(channel_id),
                            message_id: Some(message_id),
                            updated_at: now,
                            ..old(store)@.poll(id@)
                        },
                    )
                    &&& final(store)@.has_poll(id@)
                    &&& final(store)@.poll(id@) == (PollView {
                        channel_id: Some(channel_id),
                        message_id: Some(message_id),
                        updated_at: now,
                        ..old(store)@.poll(id@)
                    })
                    &&& final(store)@.votes == old(store)@.votes
                    &&& final(store)@.guilds == old(store)@.guilds
                },
                Err(e) => {
                    &&& !old(store)@.has_poll(id@)
                    &&& e@ == ErrorView::InvitePollNotFound(id@)
                    &&& final(store)@ == old(store)@
                },
            },
    {
        match store.find_poll_index(id) {
            Some(i) => {
                proof {
                    old(store)@.lemma_poll_idx_is(i as int, id@);
                }
                let row = &mut store.polls[i];
                row.channel_id = Some(channel_id);
                row.message_id = Some(message_id);
                row.updated_at = now;
                proof {
                    assert(store@.polls =~= old(store)@.polls.update(
                        old(store)@.poll_idx(id@),
                        PollView {
                            channel_id: Some(channel_id),
                            message_id: Some(message_id),
                            updated_at: now,
                            ..old(store)@.poll(id@)
                        },
                    ));
                    assert(store@.votes =~= old(store)@.votes);
                    assert(store@.guilds =~= old(store)@.guilds);
                    assert(store@.wf());
                    assert(store@.polls[i as int].id == id@);
                    store@.lemma_poll_idx_is(i as int, id@);
                }
                Ok(())
            },
            None => Err(Error::InvitePollNotFound(id.duplicate())),
        }
    }

    /// The one-way transition out of `Open`: records the outcome and the
    /// closing message. A poll that already carries an outcome is left
    /// untouched and the call is rejected, so the transition can never
    /// overwrite an earlier decision, and of two sweeps racing to close the
    /// same poll exactly one takes effect.
    pub fn close(
        store: &mut Store,
        id: &InvitePollId,
        outcome: InvitePollOutcome,
        message: Option<String>,
        now: i64,
    ) -> (r: Result<(), Error>)
        requires
            old(store)@.wf(),
        ensures
            final(store)@.wf(),
            final(store)@ == close_model(old(store)@, id@, outcome, opt_text(message), now).0,
            r is Ok <==> close_model(old(store)@, id@, outcome, opt_text(message), now).1,
            match r {
                Ok(()) => {
                    &&& old(store)@.has_poll(id@)
                    &&& !old(store)@.poll(id@).is_closed()
                    &&& final(store)@.has_poll(id@)
                    &&& final(store)@.poll(id@) == (PollView {
                        outcome: Some(outcome),
                        message: opt_text(message),
                        updated_at: now,
                        ..old(store)@.poll(id@)
                    })
                },
                Err(e) => {
                    if !old(store)@.has_poll(id@) {
                        e@ == ErrorView::InvitePollNotFound(id@)
                    } else {
                        e@ == ErrorView::InvitePollAlreadyClosed(id@)
                    }
                },
            },
    {
        match store.find_poll_index(id) {
            Some(i) => {
                proof {
                    old(store)@.lemma_poll_idx_is(i as int, id@);
                }
                if store.polls[i].outcome.is_some() {
                    return Err(Error::InvitePollAlreadyClosed(id.duplicate()));
                }
                let row = &mut store.polls[i];
                row.outcome = Some(outcome);
                row.message = message;
                row.updated_at = now;
                proof {
                    assert(store@.polls =~= close_model(
                        old(store)@,
                        id@,
                        outcome,
                        opt_text(message),
                        now,
                    ).0.polls);
                    assert(store@.votes =~= old(store)@.votes);
                    assert(store@.guilds =~= old(store)@.guilds);
                    assert(store@ == close_model(
                        old(store)@,
                        id@,
                        outcome,
                        opt_text(message),
                        now,
                    ).0);
                    assert(store@.wf());
                    assert(store@.polls[i as int].id == id@);
                    store@.lemma_poll_idx_is(i as int, id@);
                }
                Ok(())
            },
            None => Err(Error::InvitePollNotFound(id.duplicate())),
        }
    }
}

} // verus!
