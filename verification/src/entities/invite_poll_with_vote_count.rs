//! A poll row together with its tally: what the vote handler re-renders
//! and what the background sweep processes.

use vstd::prelude::*;
use crate::codec::b64_encode;
use crate::entities::InvitePollOutcome;
use crate::entities::InvitePollVote;
use crate::entities::invite_poll::InvitePoll;
use crate::entities::invite_poll::InvitePollId;
use crate::entities::invite_poll::PollView;
use crate::entities::invite_poll_vote_count::InvitePollCount;
use crate::entities::invite_poll_vote_count::count_votes;
use crate::entities::store::Store;
use crate::util::discord_timestamp::DiscordTimestamp;
use crate::util::discord_timestamp::DiscordTimestampStyle;
use crate::util::discord_timestamp::timestamp_text;
use crate::util::message::ActionRow;
use crate::util::message::ActionRowView;
use crate::util::message::Button;
use crate::util::message::ButtonStyle;
use crate::util::message::ButtonView;
use crate::util::message::Embed;
use crate::util::message::EmbedField;
use crate::util::message::EmbedFieldView;
use crate::util::message::EmbedView;
use crate::util::message::MessageRenderer;
use crate::util::progress_bar::ProgressBar;
use crate::util::progress_bar::bar_text;

verus! {

/// One poll with its current tally.
#[derive(Debug)]
pub struct InvitePollWithVoteCount {
    pub invite_poll: InvitePoll,
    pub yes_count: u64,
    pub no_count: u64,
}

/// Ghost image of an [`InvitePollWithVoteCount`].
pub ghost struct PollWithCountView {
    pub invite_poll: PollView,
    pub yes_count: u64,
    pub no_count: u64,
}

impl View for InvitePollWithVoteCount {
    type V = PollWithCountView;

    open spec fn view(&self) -> PollWithCountView {
        PollWithCountView {
            invite_poll: self.invite_poll@,
            yes_count: self.yes_count,
            no_count: self.no_count,
        }
    }
}

/// The polls awaiting the sweep, in store order: no outcome yet and the
/// deadline passed. This is the only rule by which the sweep selects work.
pub open spec fn expired_open_polls(polls: Seq<PollView>, now: i64) -> Seq<PollView>
    decreases polls.len(),
{
    if polls.len() == 0 {
        Seq::empty()
    } else {
        expired_open_polls(polls.drop_last(), now) + if polls.last().is_expired_open(now) {
            seq![polls.last()]
        } else {
            Seq::empty()
        }
    }
}

impl InvitePollWithVoteCount {
    /// The poll carrying `id`, with its tally, if it exists.
    pub fn find_by_id(store: &Store, id: &InvitePollId) -> (r: Option<InvitePollWithVoteCount>)
        requires
            store@.wf(),
        ensures
            match r {
                Some(pwc) => {
                    &&& store@.has_poll(id@)
                    &&& pwc@.invite_poll == store@.poll(id@)
                    &&& pwc@.yes_count == count_votes(store@.votes, id@, InvitePollVote::Yes)
                    &&& pwc@.no_count == count_votes(store@.votes, id@, InvitePollVote::No)
                },
                None => !store@.has_poll(id@),
            },
    {
        match store.find_poll_index(id) {
            Some(i) => {
                proof {
                    store@.lemma_poll_idx_is(i as int, id@);
                }
                let counts = InvitePollCount::compute(store, id);
                Some(
                    InvitePollWithVoteCount {
                        invite_poll: store.polls[i].duplicate(),
                        yes_count: counts.yes_count,
                        no_count: counts.no_count,
                    },
                )
            },
            None => None,
        }
    }

    /// Every open poll whose deadline has passed, each with its tally, in
    /// store order.
    pub fn find_expired(store: &Store, now: i64) -> (r: Vec<InvitePollWithVoteCount>)
        requires
            store@.wf(),
        ensures
            r@.map_values(|x: InvitePollWithVoteCount| x@.invite_poll) == expired_open_polls(
                store@.polls,
                now,
            ),
            forall|k: int|
                0 <= k < r@.len() ==> (#[trigger] r@[k])@.yes_count == count_votes(
                    store@.votes,
                    r@[k]@.invite_poll.id,
                    InvitePollVote::Yes,
                ) && r@[k]@.no_count == count_votes(
                    store@.votes,
                    r@[k]@.invite_poll.id,
                    InvitePollVote::No,
                ),
    {
        let mut r: Vec<InvitePollWithVoteCount> = Vec::new();
        let n = store.polls.len();
        proof {
            assert(store@.polls.take(0) =~= Seq::<PollView>::empty());
            assert(r@.map_values(|x: InvitePollWithVoteCount| x@.invite_poll) =~= expired_open_polls(
                store@.polls.take(0),
                now,
            ));
        }
        for j in 0..n
            invariant
                n == store.polls.len(),
                n == store@.polls.len(),
                store@.wf(),
                r@.map_values(|x: InvitePollWithVoteCount| x@.invite_poll) == expired_open_polls(
                    store@.polls.take(j as int),
                    now,
                ),
                forall|k: int|
                    0 <= k < r@.len() ==> (#[trigger] r@[k])@.yes_count == count_votes(
                        store@.votes,
                        r@[k]@.invite_poll.id,
                        InvitePollVote::Yes,
                    ) && r@[k]@.no_count == count_votes(
                        store@.votes,
                        r@[k]@.invite_poll.id,
                        InvitePollVote::No,
                    ),
        {
            let row = &store.polls[j];
            if row.outcome.is_none() && row.ends_at <= now {
                let counts = InvitePollCount::compute(store, &row.id);
                let item = InvitePollWithVoteCount {
                    invite_poll: row.duplicate(),
                    yes_count: counts.yes_count,
                    no_count: counts.no_count,
                };
                r.push(item);
            }
            proof {
                let pre = store@.polls.take(j as int);
                let post = store@.polls.take(j as int + 1);
                assert(post.drop_last() =~= pre);
                assert(post.last() == store@.polls[j as int]);
                assert(r@.map_values(|x: InvitePollWithVoteCount| x@.invite_poll)
                    =~= expired_open_polls(post, now));
            }
        }
        proof {
            assert(store@.polls.take(n as int) =~= store@.polls);
        }
        r
    }

    /// Renders the poll into a message body: the embed with the poll's
    /// identity, status, timestamps, tally bars and outcome, and the vote
    /// buttons exactly while the poll is open.
    pub fn create_renderer(&self, invitee_name: &str, invitee_face: &str) -> (r: MessageRenderer)
        requires
            self@.yes_count + self@.no_count <= u64::MAX,
        ensures
            r@.embeds == seq![
                poll_embed(
                    self@.invite_poll,
                    self@.yes_count,
                    self@.no_count,
                    invitee_name@,
                    invitee_face@,
                ),
            ],
            r@.components == Some(poll_buttons(self@.invite_poll.outcome)),
    {
        let mut fields: Vec<EmbedField> = Vec::new();
        let mut id_text = String::from_str("`");
        let encoded = self.invite_poll.id.to_string();
        id_text.append(encoded.as_str());
        id_text.append("`");
        fields.push(
            EmbedField { name: String::from_str("Poll Id"), value: id_text, inline: true },
        );
        fields.push(
            EmbedField {
                name: String::from_str("User"),
                value: String::from_str(invitee_name),
                inline: true,
            },
        );
        let status = if self.invite_poll.outcome.is_none() {
            String::from_str("Open")
        } else {
            String::from_str("Closed")
        };
        fields.push(EmbedField { name: String::from_str("Status"), value: status, inline: true });
        let created = DiscordTimestamp::new(
            self.invite_poll.created_at,
            DiscordTimestampStyle::FullShort,
        );
        fields.push(
            EmbedField {
                name: String::from_str("Created At"),
                value: created.to_string(),
                inline: true,
            },
        );
        let ends = DiscordTimestamp::new(self.invite_poll.ends_at, DiscordTimestampStyle::FullShort);
        let mut ends_text = ends.to_string();
        ends_text.append(" (");
        let relative = ends.with_style(DiscordTimestampStyle::Relative).to_string();
        ends_text.append(relative.as_str());
        ends_text.append(")");
        fields.push(
            EmbedField { name: String::from_str("Ends At"), value: ends_text, inline: true },
        );
        let mut bar = ProgressBar::builder();
        bar.max(self.yes_count + self.no_count);
        bar.with_count(true);
        bar.with_percentage(true);
        bar.value(self.yes_count);
        let yes_bar = match bar.build() {
            Ok(b) => b.to_string(),
            Err(_) => {
                proof {
                    assert(false);
                }
                String::new()
            },
        };
        bar.value(self.no_count);
        let no_bar = match bar.build() {
            Ok(b) => b.to_string(),
            Err(_) => {
                proof {
                    assert(false);
                }
                String::new()
            },
        };
        let mut votes_text = String::from_str("\u{1F7E2} ");
        votes_text.append(yes_bar.as_str());
        votes_text.append("\n\u{1F534} ");
        votes_text.append(no_bar.as_str());
        fields.push(
            EmbedField { name: String::from_str("Votes"), value: votes_text, inline: false },
        );
        match self.invite_poll.outcome {
            Some(InvitePollOutcome::Allow) => {
                fields.push(
                    EmbedField {
                        name: String::from_str("Outcome"),
                        value: String::from_str("\u{2705} Allowed"),
                        inline: true,
                    },
                );
            },
            Some(InvitePollOutcome::Deny) => {
                fields.push(
                    EmbedField {
                        name: String::from_str("Outcome"),
                        value: String::from_str("\u{26D4} Denied"),
                        inline: true,
                    },
                );
            },
            None => {
                fields.push(
                    EmbedField {
                        name: String::from_str(""),
                        value: String::from_str(""),
                        inline: true,
                    },
                );
            },
        }
        match &self.invite_poll.message {
            Some(m) => {
                let name = match self.invite_poll.outcome {
                    Some(InvitePollOutcome::Allow) => String::from_str("Invite"),
                    Some(InvitePollOutcome::Deny) => String::from_str("Reason"),
                    None => String::from_str(""),
                };
                fields.push(
                    EmbedField { name, value: String::from_str(m.as_str()), inline: true },
                );
            },
            None => {
                fields.push(
                    EmbedField {
                        name: String::from_str(""),
                        value: String::from_str(""),
                        inline: true,
                    },
                );
            },
        }
        let color: u32 = match self.invite_poll.outcome {
            Some(InvitePollOutcome::Allow) => 0x57F287,
            Some(InvitePollOutcome::Deny) => 0xED4245,
            None => 0x5865F2,
        };
        let embed = Embed {
            color,
            title: String::from_str("Invite Poll"),
            thumbnail: Some(String::from_str(invitee_face)),
            fields,
        };
        let mut rows: Vec<ActionRow> = Vec::new();
        if self.invite_poll.outcome.is_none() {
            let mut buttons: Vec<Button> = Vec::new();
            buttons.push(
                Button {
                    custom_id: String::from_str("democracy.invite-poll-vote.yes"),
                    label: String::from_str("Yes"),
                    style: ButtonStyle::Success,
                },
            );
            buttons.push(
                Button {
                    custom_id: String::from_str("democracy.invite-poll-vote.no"),
                    label: String::from_str("No"),
                    style: ButtonStyle::Danger,
                },
            );
            let row = ActionRow { buttons };
            proof {
                assert(row@.buttons =~= poll_buttons(self@.invite_poll.outcome)[0].buttons);
            }
            rows.push(row);
        }
        let mut embeds: Vec<Embed> = Vec::new();
        proof {
            assert(embed@.fields =~= poll_embed(
                self@.invite_poll,
                self@.yes_count,
                self@.no_count,
                invitee_name@,
                invitee_face@,
            ).fields);
        }
        embeds.push(embed);
        let mut r = MessageRenderer::default();
        r.set_components(rows);
        r.set_embeds(embeds);
        proof {
            assert(r@.embeds =~= seq![
                poll_embed(
                    self@.invite_poll,
                    self@.yes_count,
                    self@.no_count,
                    invitee_name@,
                    invitee_face@,
                ),
            ]);
            assert(r@.components.unwrap() =~= poll_buttons(self@.invite_poll.outcome));
        }
        r
    }
}

/// The embed colour for each state of a poll.
pub open spec fn poll_color(outcome: Option<InvitePollOutcome>) -> u32 {
    match outcome {
        Some(InvitePollOutcome::Allow) => 0x57F287,
        Some(InvitePollOutcome::Deny) => 0xED4245,
        None => 0x5865F2,
    }
}

/// The text of the tally field: one bar per vote value, out of all votes
/// cast, with counts and percentage.
pub open spec fn votes_field_text(yes: u64, no: u64) -> Seq<char>
    recommends
        yes + no <= u64::MAX,
{
    let sum = (yes + no) as u64;
    "\u{1F7E2} "@ + bar_text(yes, sum, 10, "\u{2591}"@, "\u{2588}"@, true, true) + "\n\u{1F534} "@
        + bar_text(no, sum, 10, "\u{2591}"@, "\u{2588}"@, true, true)
}

/// The embed describing a poll: its encoded identifier, the invitee, the
/// derived status, both timestamps, the tally, and — once closed — the
/// outcome and the closing message.
pub open spec fn poll_embed(
    p: PollView,
    yes: u64,
    no: u64,
    invitee_name: Seq<char>,
    invitee_face: Seq<char>,
) -> EmbedView {
    EmbedView {
        color: poll_color(p.outcome),
        title: "Invite Poll"@,
        thumbnail: Some(invitee_face),
        fields: seq![
            EmbedFieldView { name: "Poll Id"@, value: "`"@ + b64_encode(p.id) + "`"@, inline: true },
            EmbedFieldView { name: "User"@, value: invitee_name, inline: true },
            EmbedFieldView {
                name: "Status"@,
                value: if p.outcome is Some {
                    "Closed"@
                } else {
                    "Open"@
                },
                inline: true,
            },
            EmbedFieldView {
                name: "Created At"@,
                value: timestamp_text(p.created_at, DiscordTimestampStyle::FullShort),
                inline: true,
            },
            EmbedFieldView {
                name: "Ends At"@,
                value: timestamp_text(p.ends_at, DiscordTimestampStyle::FullShort) + " ("@
                    + timestamp_text(p.ends_at, DiscordTimestampStyle::Relative) + ")"@,
                inline: true,
            },
            EmbedFieldView { name: "Votes"@, value: votes_field_text(yes, no), inline: false },
            match p.outcome {
                Some(InvitePollOutcome::Allow) => EmbedFieldView {
                    name: "Outcome"@,
                    value: "\u{2705} Allowed"@,
                    inline: true,
                },
                Some(InvitePollOutcome::Deny) => EmbedFieldView {
                    name: "Outcome"@,
                    value: "\u{26D4} Denied"@,
                    inline: true,
                },
                None => EmbedFieldView { name: ""@, value: ""@, inline: true },
            },
            match p.message {
                Some(m) => EmbedFieldView {
                    name: match p.outcome {
                        Some(InvitePollOutcome::Allow) => "Invite"@,
                        Some(InvitePollOutcome::Deny) => "Reason"@,
                        None => ""@,
                    },
                    value: m,
                    inline: true,
                },
                None => EmbedFieldView { name: ""@, value: ""@, inline: true },
            },
        ],
    }
}

/// The button rows under a poll message: the two vote buttons while the
/// poll is open, nothing once it is closed.
pub open spec fn poll_buttons(outcome: Option<InvitePollOutcome>) -> Seq<ActionRowView> {
    match outcome {
        Some(_) => Seq::empty(),
        None => seq![
            ActionRowView {
                buttons: seq![
                    ButtonView {
                        custom_id: "democracy.invite-poll-vote.yes"@,
                        label: "Yes"@,
                        style: ButtonStyle::Success,
                    },
                    ButtonView {
                        custom_id: "democracy.invite-poll-vote.no"@,
                        label: "No"@,
                        style: ButtonStyle::Danger,
                    },
                ],
            },
        ],
    }
}

} // verus!
