//! The decisions of the background sweep: which expired poll closes with
//! which outcome, what the closing message says, and whom the invite is
//! offered to when private delivery fails.
//!
//! The sweep's outside work — fetching the member count, minting the
//! invite, sending messages — is the caller's; every decision between
//! those calls is made here.

use vstd::prelude::*;
use crate::entities::InvitePollOutcome;
use crate::entities::invite_poll_with_vote_count::InvitePollWithVoteCount;
use crate::entities::guild::Guild;
use crate::entities::store::Store;
use crate::error::Error;
use crate::error::ErrorView;
use crate::text::dec_str;
use crate::text::u64_to_string;

verus! {

/// The explanation attached to a poll when it closes.
#[derive(Debug)]
pub enum InvitePollMessage {
    /// That many users opposed the petition.
    AtLeastOneOpposition(u64),
    /// Too few users voted: the count that voted, and the count required.
    QuorumNotReached(u64, u64),
    /// The invite link itself, shown in the poll when no private delivery
    /// succeeded.
    InviteUrl(String),
}

/// Ghost image of an [`InvitePollMessage`].
pub ghost enum InvitePollMessageView {
    AtLeastOneOpposition(u64),
    QuorumNotReached(u64, u64),
    InviteUrl(Seq<char>),
}

impl View for InvitePollMessage {
    type V = InvitePollMessageView;

    open spec fn view(&self) -> InvitePollMessageView {
        match self {
            InvitePollMessage::AtLeastOneOpposition(n) => InvitePollMessageView::AtLeastOneOpposition(
                *n,
            ),
            InvitePollMessage::QuorumNotReached(c, q) => InvitePollMessageView::QuorumNotReached(
                *c,
                *q,
            ),
            InvitePollMessage::InviteUrl(u) => InvitePollMessageView::InviteUrl(u@),
        }
    }
}

/// The text of a closing message.
pub open spec fn message_text(m: InvitePollMessageView) -> Seq<char> {
    match m {
        InvitePollMessageView::AtLeastOneOpposition(n) => dec_str(n as nat) + " users opposed"@,
        InvitePollMessageView::QuorumNotReached(c, q) => "the quorum was not reached: "@ + dec_str(
            c as nat,
        ) + "/"@ + dec_str(q as nat) + " users voted"@,
        InvitePollMessageView::InviteUrl(u) => u,
    }
}

/// The characters of an optional closing message.
pub open spec fn opt_message_text(m: Option<InvitePollMessageView>) -> Option<Seq<char>> {
    match m {
        Some(v) => Some(message_text(v)),
        None => None,
    }
}

impl InvitePollMessage {
    /// The message as shown to users.
    pub fn to_string(&self) -> (r: String)
        ensures
            r@ == message_text(self@),
    {
        match self {
            InvitePollMessage::AtLeastOneOpposition(n) => {
                let mut r = u64_to_string(*n);
                r.append(" users opposed");
                r
            },
            InvitePollMessage::QuorumNotReached(c, q) => {
                let mut r = String::from_str("the quorum was not reached: ");
                let count_text = u64_to_string(*c);
                r.append(count_text.as_str());
                r.append("/");
                let quorum_text = u64_to_string(*q);
                r.append(quorum_text.as_str());
                r.append(" users voted");
                r
            },
            InvitePollMessage::InviteUrl(u) => String::from_str(u.as_str()),
        }
    }
}

/// How many of the eligible voters must take part: the quorum fraction of
/// the community's size, rounded up, so a fractional threshold never
/// under-requires.
pub open spec fn required_votes(eligible: nat, quorum_percent: nat) -> nat {
    (eligible * quorum_percent + 99) / 100
}

/// The required count is the exact ceiling of the quorum fraction of the
/// community: it is never less than that fraction, and exceeds it by less
/// than one whole vote — a fractional threshold never under-requires.
pub proof fn lemma_required_votes_is_ceiling(eligible: nat, quorum_percent: nat)
    ensures
        100 * required_votes(eligible, quorum_percent) >= eligible * quorum_percent,
        100 * required_votes(eligible, quorum_percent) < eligible * quorum_percent + 100,
{
    let p = (eligible * quorum_percent) as int;
    vstd::arithmetic::div_mod::lemma_fundamental_div_mod(p + 99, 100);
    assert(p + 99 == 100 * ((p + 99) / 100) + (p + 99) % 100);
    assert(0 <= (p + 99) % 100 < 100);
}

/// The resolution rule. A single opposing vote vetoes the petition; with
/// no opposition, the turnout must reach the quorum; otherwise the invite
/// is allowed, with no explanation owed.
pub open spec fn resolve_model(
    yes: u64,
    no: u64,
    eligible: u64,
    quorum_percent: u8,
) -> (InvitePollOutcome, Option<InvitePollMessageView>)
    recommends
        yes + no <= u64::MAX,
        eligible * quorum_percent + 99 <= u64::MAX,
{
    let required = required_votes(eligible as nat, quorum_percent as nat);
    if no > 0 {
        (InvitePollOutcome::Deny, Some(InvitePollMessageView::AtLeastOneOpposition(no)))
    } else if yes + no < required {
        (
            InvitePollOutcome::Deny,
            Some(
                InvitePollMessageView::QuorumNotReached((yes + no) as u64, required as u64),
            ),
        )
    } else {
        (InvitePollOutcome::Allow, None)
    }
}

/// A single opposing vote always denies the petition — never allows it —
/// whatever the approval count, the community size or the quorum: the veto
/// rule, with the opposition count as the explanation.
pub proof fn lemma_veto(yes: u64, no: u64, eligible: u64, quorum_percent: u8)
    requires
        no > 0,
    ensures
        resolve_model(yes, no, eligible, quorum_percent).0 == InvitePollOutcome::Deny,
        resolve_model(yes, no, eligible, quorum_percent).0 != InvitePollOutcome::Allow,
        resolve_model(yes, no, eligible, quorum_percent).1 == Some(
            InvitePollMessageView::AtLeastOneOpposition(no),
        ),
{
}

/// With no opposition, the decision turns on turnout alone: Allow exactly
/// when the votes cast reach the required count.
pub proof fn lemma_quorum(yes: u64, eligible: u64, quorum_percent: u8)
    ensures
        resolve_model(yes, 0, eligible, quorum_percent).0 == InvitePollOutcome::Allow <==> yes
            >= required_votes(eligible as nat, quorum_percent as nat),
{
}

/// The ghost image of a resolution, message rendered to its text.
pub open spec fn opt_message_view(m: Option<InvitePollMessage>) -> Option<InvitePollMessageView> {
    match m {
        Some(v) => Some(v@),
        None => None,
    }
}

/// Applies the resolution rule to one tally.
pub fn resolve(
    count_yes: u64,
    count_no: u64,
    eligible_users: u64,
    quorum_percent: u8,
) -> (r: (InvitePollOutcome, Option<InvitePollMessage>))
    requires
        count_yes + count_no <= u64::MAX,
        eligible_users * quorum_percent + 99 <= u64::MAX,
    ensures
        r.0 == resolve_model(count_yes, count_no, eligible_users, quorum_percent).0,
        opt_message_view(r.1) == resolve_model(count_yes, count_no, eligible_users, quorum_percent).1,
{
    let required = (eligible_users * (quorum_percent as u64) + 99) / 100;
    if count_no > 0 {
        (
            InvitePollOutcome::Deny,
            Some(InvitePollMessage::AtLeastOneOpposition(count_no)),
        )
    } else if count_yes + count_no < required {
        (
            InvitePollOutcome::Deny,
            Some(InvitePollMessage::QuorumNotReached(count_yes + count_no, required)),
        )
    } else {
        (InvitePollOutcome::Allow, None)
    }
}

/// Resolves one expired poll against its community's settings: the stored
/// quorum is looked up, and the tally the poll was fetched with is held to
/// the rule. Fails only when the community was never configured.
pub fn resolve_poll(
    store: &Store,
    poll: &InvitePollWithVoteCount,
    eligible_users: u64,
) -> (r: Result<(InvitePollOutcome, Option<InvitePollMessage>), Error>)
    requires
        store@.wf(),
        poll@.yes_count + poll@.no_count <= u64::MAX,
        eligible_users * 100 + 99 <= u64::MAX,
    ensures
        match r {
            Ok((outcome, message)) => {
                &&& store@.has_guild(poll@.invite_poll.guild_id)
                &&& (outcome, opt_message_view(message)) == resolve_model(
                    poll@.yes_count,
                    poll@.no_count,
                    eligible_users,
                    store@.guild(poll@.invite_poll.guild_id).invite_poll_quorum,
                )
            },
            Err(e) => {
                &&& !store@.has_guild(poll@.invite_poll.guild_id)
                &&& e@ == ErrorView::GuildNotFound(poll@.invite_poll.guild_id)
            },
        },
{
    let settings = match Guild::find_by_id(store, poll.invite_poll.guild_id) {
        Some(g) => g,
        None => {
            return Err(Error::GuildNotFound(poll.invite_poll.guild_id));
        },
    };
    proof {
        let gid = poll@.invite_poll.guild_id;
        assert(0 <= store@.guild_idx(gid) < store@.guilds.len());
        assert(settings.invite_poll_quorum <= 100);
        assert(eligible_users * settings.invite_poll_quorum <= eligible_users * 100)
            by (nonlinear_arith)
            requires
                settings.invite_poll_quorum <= 100,
        ;
    }
    Ok(resolve(poll.yes_count, poll.no_count, eligible_users, settings.invite_poll_quorum))
}

/// Whom a freshly minted invite is offered to, in order.
#[derive(Clone, Copy, Debug, PartialEq, Eq, Structural)]
pub enum InviteRecipient {
    /// First, the invited user themselves.
    Invitee,
    /// Then the member who started the petition.
    Inviter,
    /// Last, the community's owner.
    GuildOwner,
}

/// What one private delivery attempt reported back.
#[derive(Clone, Copy, Debug, PartialEq, Eq, Structural)]
pub enum DeliveryAttemptOutcome {
    /// The message went through.
    Delivered,
    /// The recipient does not accept private messages — the one recognised
    /// failure the cascade falls through.
    RecipientBlocked,
    /// Any other failure.
    Failed,
}

/// The sweep's next move after a delivery attempt.
#[derive(Clone, Copy, Debug, PartialEq, Eq, Structural)]
pub enum DeliveryStep {
    /// Delivered; close the poll with no extra message.
    Done,
    /// Try the next recipient.
    Next(InviteRecipient),
    /// Nobody accepts private messages: store the invite link in the
    /// poll's closing message instead.
    Fallback,
    /// A real failure: stop processing this poll, leave it open, and let
    /// the next sweep retry it.
    Abort,
}

/// The delivery cascade: a delivered message ends it; a blocked recipient
/// passes the invite down the chain and past the last recipient into the
/// poll's own message; any other failure aborts the poll's processing.
pub open spec fn delivery_step_model(
    recipient: InviteRecipient,
    outcome: DeliveryAttemptOutcome,
) -> DeliveryStep {
    match outcome {
        DeliveryAttemptOutcome::Delivered => DeliveryStep::Done,
        DeliveryAttemptOutcome::RecipientBlocked => match recipient {
            InviteRecipient::Invitee => DeliveryStep::Next(InviteRecipient::Inviter),
            InviteRecipient::Inviter => DeliveryStep::Next(InviteRecipient::GuildOwner),
            InviteRecipient::GuildOwner => DeliveryStep::Fallback,
        },
        DeliveryAttemptOutcome::Failed => DeliveryStep::Abort,
    }
}

/// The recipient every cascade starts with.
pub fn first_recipient() -> (r: InviteRecipient)
    ensures
        r == InviteRecipient::Invitee,
{
    InviteRecipient::Invitee
}

/// Decides the next move of the delivery cascade.
pub fn delivery_step(recipient: InviteRecipient, outcome: DeliveryAttemptOutcome) -> (r:
    DeliveryStep)
    ensures
        r == delivery_step_model(recipient, outcome),
{
    match outcome {
        DeliveryAttemptOutcome::Delivered => DeliveryStep::Done,
        DeliveryAttemptOutcome::RecipientBlocked => match recipient {
            InviteRecipient::Invitee => DeliveryStep::Next(InviteRecipient::Inviter),
            InviteRecipient::Inviter => DeliveryStep::Next(InviteRecipient::GuildOwner),
            InviteRecipient::GuildOwner => DeliveryStep::Fallback,
        },
        DeliveryAttemptOutcome::Failed => DeliveryStep::Abort,
    }
}

} // verus!
