//! The petition command: a member asks to invite a new user.

use vstd::prelude::*;
use crate::action::error::ParseActionError;
use crate::action::error::ParseActionErrorView;
use crate::action::interaction::CommandOptionView;
use crate::action::interaction::CommandRegistration;
use crate::action::interaction::Interaction;
use crate::action::interaction::InteractionView;
use crate::action::interaction::OptionKind;
use crate::action::interaction::OptionRegistration;
use crate::action::interaction::OptionValue;
use crate::action::interaction::OptionValueView;
use crate::entities::invite_poll::InvitePoll;
use crate::entities::store::Store;
use crate::error::Error;
use crate::error::ErrorView;
use crate::ids::ChannelId;
use crate::ids::GuildId;
use crate::ids::UserId;
use crate::text::count_dec_digits;
use crate::text::count_digits;
use crate::text::parse_u64;
use crate::text::str_eq;
use crate::text::str_to_u64;

verus! {

/// The poll length used when the petition names none: three days.
pub open spec fn default_poll_duration_secs() -> u64 {
    259200
}

/// How many seconds `humantime::parse_duration` reads out of a duration
/// text such as `3 days`; nothing when the text does not parse. The result
/// depends on the text alone.
pub uninterp spec fn duration_secs_of(s: Seq<char>) -> Option<u64>;

/// Duration texts admitted to the outside parser: at most 11 decimal
/// digits in all. Every number such a text can spell is then below 10^11,
/// and the numbers of a text together stay below 10^11.
pub open spec fn safe_duration_text(s: Seq<char>) -> bool {
    count_dec_digits(s) <= 11
}

/// Whether a duration text is admitted to the outside parser.
pub fn is_safe_duration_text(s: &str) -> (r: bool)
    ensures
        r == safe_duration_text(s@),
{
    count_digits(s) <= 11
}

/// Relies on `humantime::parse_duration`: reads a human duration text; the
/// seconds of the result, or nothing when the text is rejected. All of the
/// parser's arithmetic is checked and returns errors, except one carry: a
/// nanosecond accumulator of exactly one second is handed unreduced to
/// `Duration::new`, which aborts when the carried second overflows the
/// seconds counter. The `requires` rules that out. With at most 11 digits
/// in the whole text, the numbers it spells sum to under 10^11, and each
/// span contributes at most 31 557 600 seconds (a year) per unit of its
/// number, for its whole part and again for its fractional part; each of
/// the at most 11 spans can further carry under 2 * 10^10 seconds out of
/// the nanosecond side, whose value is held under 2^64 by the checked
/// arithmetic. The accumulated seconds therefore stay under 2^63 and can
/// never reach the counter's maximum, where alone that carry could
/// overflow.
#[verifier::external_body]
fn parse_duration_secs(s: &str) -> (r: Option<u64>)
    requires
        safe_duration_text(s@),
    ensures
        r == duration_secs_of(s@),
{
    match humantime::parse_duration(s) {
        Ok(d) => Some(d.as_secs()),
        Err(_) => None,
    }
}

/// A parsed petition: who asks, whom to invite, for how long the poll
/// runs, and where the command was issued.
#[derive(Clone, Copy, Debug, PartialEq, Eq, Structural)]
pub struct CreateInvitePoll {
    pub guild_id: GuildId,
    pub inviter: UserId,
    pub invitee: UserId,
    pub duration_secs: u64,
    pub channel_id: ChannelId,
}

/// The walk over the command's options, in order: a `user-id` or
/// `duration` text option updates the value seen last; the first option of
/// another name, of another kind, or with a value that does not parse
/// stops the walk with its error.
pub open spec fn scan_invite_options(
    opts: Seq<CommandOptionView>,
    i: int,
    user: Option<u64>,
    dur: Option<u64>,
) -> Result<(Option<u64>, Option<u64>), ParseActionErrorView>
    decreases opts.len() - i,
{
    if i < 0 || i >= opts.len() {
        Ok((user, dur))
    } else {
        let o = opts[i];
        if o.name == "user-id"@ {
            match o.value {
                OptionValueView::Text(t) => match str_to_u64(t) {
                    Some(v) => scan_invite_options(opts, i + 1, Some(v), dur),
                    None => Err(
                        ParseActionErrorView::InvalidOptionValue {
                            action: "invite"@,
                            option: "user-id"@,
                            value: t,
                        },
                    ),
                },
                _ => Err(
                    ParseActionErrorView::InvalidOptionKind {
                        action: "invite"@,
                        option: "user-id"@,
                        kind: "String"@,
                        value: o.value,
                    },
                ),
            }
        } else if o.name == "duration"@ {
            match o.value {
                OptionValueView::Text(t) => if !safe_duration_text(t) {
                    Err(
                        ParseActionErrorView::InvalidOptionValue {
                            action: "invite"@,
                            option: "duration"@,
                            value: t,
                        },
                    )
                } else {
                    match duration_secs_of(t) {
                        Some(v) => scan_invite_options(opts, i + 1, user, Some(v)),
                        None => Err(
                            ParseActionErrorView::InvalidOptionValue {
                                action: "invite"@,
                                option: "duration"@,
                                value: t,
                            },
                        ),
                    }
                },
                _ => Err(
                    ParseActionErrorView::InvalidOptionKind {
                        action: "invite"@,
                        option: "duration"@,
                        kind: "String"@,
                        value: o.value,
                    },
                ),
            }
        } else {
            Err(ParseActionErrorView::UnknownOption { action: "invite"@, option: o.name })
        }
    }
}

/// What parsing an interaction as a petition yields: the petition, or the
/// first error in the order the checks run — wrong shape or name, then the
/// options in order, then the missing `user-id`, then the missing
/// community.
pub open spec fn create_invite_poll_model(v: InteractionView) -> Result<
    CreateInvitePoll,
    ParseActionErrorView,
> {
    match v {
        InteractionView::Command(c) => {
            if c.name != "invite"@ {
                Err(ParseActionErrorView::MismatchedAction)
            } else {
                match scan_invite_options(c.options, 0, None, None) {
                    Err(e) => Err(e),
                    Ok((user, dur)) => match user {
                        None => Err(
                            ParseActionErrorView::MissingOption {
                                action: "invite"@,
                                option: "user-id"@,
                            },
                        ),
                        Some(u) => {
                            let d = match dur {
                                Some(d) => d,
                                None => default_poll_duration_secs(),
                            };
                            match c.guild_id {
                                None => Err(
                                    ParseActionErrorView::NotInAGuild { action: "invite"@ },
                                ),
                                Some(g) => Ok(
                                    CreateInvitePoll {
                                        guild_id: g,
                                        inviter: c.user,
                                        invitee: UserId(u),
                                        duration_secs: d,
                                        channel_id: c.channel_id,
                                    },
                                ),
                            }
                        },
                    },
                }
            }
        },
        _ => Err(ParseActionErrorView::MismatchedAction),
    }
}

impl CreateInvitePoll {
    /// Reads a petition out of an inbound interaction.
    pub fn try_from(value: &Interaction) -> (r: Result<CreateInvitePoll, ParseActionError>)
        ensures
            match r {
                Ok(a) => create_invite_poll_model(value@) == Ok::<
                    CreateInvitePoll,
                    ParseActionErrorView,
                >(a),
                Err(e) => create_invite_poll_model(value@) == Err::<
                    CreateInvitePoll,
                    ParseActionErrorView,
                >(e@),
            },
    {
        let c = match value {
            Interaction::Command(c) => c,
            _ => {
                return Err(ParseActionError::MismatchedAction);
            },
        };
        if !str_eq(c.name.as_str(), "invite") {
            return Err(ParseActionError::MismatchedAction);
        }
        let ghost vopts = c@.options;
        let mut user_id: Option<u64> = None;
        let mut duration: Option<u64> = None;
        let m = c.options.len();
        for idx in 0..m
            invariant
                value@ == InteractionView::Command(c@),
                c@.name == "invite"@,
                m == c.options.len(),
                vopts == c@.options,
                vopts.len() == m,
                forall|k: int| 0 <= k < m ==> vopts[k] == c.options@[k]@,
                scan_invite_options(vopts, 0, None, None) == scan_invite_options(
                    vopts,
                    idx as int,
                    user_id,
                    duration,
                ),
        {
            let o = &c.options[idx];
            proof {
                assert(vopts[idx as int] == o@);
            }
            if str_eq(o.name.as_str(), "user-id") {
                match &o.value {
                    OptionValue::Text(t) => match parse_u64(t.as_str()) {
                        Some(v) => {
                            user_id = Some(v);
                        },
                        None => {
                            return Err(
                                ParseActionError::InvalidOptionValue {
                                    action: String::from_str("invite"),
                                    option: String::from_str("user-id"),
                                    value: String::from_str(t.as_str()),
                                },
                            );
                        },
                    },
                    _ => {
                        return Err(
                            ParseActionError::InvalidOptionKind {
                                action: String::from_str("invite"),
                                option: String::from_str("user-id"),
                                kind: String::from_str("String"),
                                value: o.value.duplicate(),
                            },
                        );
                    },
                }
            } else if str_eq(o.name.as_str(), "duration") {
                match &o.value {
                    OptionValue::Text(t) => {
                        if !is_safe_duration_text(t.as_str()) {
                            return Err(
                                ParseActionError::InvalidOptionValue {
                                    action: String::from_str("invite"),
                                    option: String::from_str("duration"),
                                    value: String::from_str(t.as_str()),
                                },
                            );
                        }
                        match parse_duration_secs(t.as_str()) {
                            Some(v) => {
                                duration = Some(v);
                            },
                            None => {
                                return Err(
                                    ParseActionError::InvalidOptionValue {
                                        action: String::from_str("invite"),
                                        option: String::from_str("duration"),
                                        value: String::from_str(t.as_str()),
                                    },
                                );
                            },
                        }
                    },
                    _ => {
                        return Err(
                            ParseActionError::InvalidOptionKind {
                                action: String::from_str("invite"),
                                option: String::from_str("duration"),
                                kind: String::from_str("String"),
                                value: o.value.duplicate(),
                            },
                        );
                    },
                }
            } else {
                return Err(
                    ParseActionError::UnknownOption {
                        action: String::from_str("invite"),
                        option: String::from_str(o.name.as_str()),
                    },
                );
            }
        }
        let user = match user_id {
            Some(u) => u,
            None => {
                return Err(
                    ParseActionError::MissingOption {
                        action: String::from_str("invite"),
                        option: String::from_str("user-id"),
                    },
                );
            },
        };
        let duration_secs = match duration {
            Some(d) => d,
            None => 259200,
        };
        let guild_id = match c.guild_id {
            Some(g) => g,
            None => {
                return Err(ParseActionError::NotInAGuild { action: String::from_str("invite") });
            },
        };
        Ok(
            CreateInvitePoll {
                guild_id,
                inviter: c.user,
                invitee: UserId(user),
                duration_secs,
                channel_id: c.channel_id,
            },
        )
    }

    /// Carries the petition out against the store: the invitee must not
    /// already be a member (the caller has asked the gateway), and the
    /// poll is then opened as [`InvitePoll::create`] describes.
    pub fn execute(&self, store: &mut Store, invitee_is_member: bool, now: i64) -> (r: Result<
        InvitePoll,
        Error,
    >)
        requires
            old(store)@.wf(),
            0 <= now,
            now + self.duration_secs <= i64::MAX,
        ensures
            final(store)@.wf(),
            match r {
                Ok(p) => {
                    &&& !invitee_is_member
                    &&& self.inviter != self.invitee
                    &&& self.duration_secs > 0
                    &&& p@.guild_id == self.guild_id
                    &&& p@.inviter == self.inviter
                    &&& p@.invitee == self.invitee
                    &&& p@.outcome is None
                    &&& p@.message is None
                    &&& p@.ends_at == now + self.duration_secs
                    &&& p@.created_at == now
                    &&& !old(store)@.has_poll(p@.id)
                    &&& final(store)@.polls == old(store)@.polls.push(p@)
                    &&& final(store)@.votes == old(store)@.votes
                    &&& final(store)@.guilds == old(store)@.guilds
                },
                Err(e) => {
                    &&& final(store)@ == old(store)@
                    &&& if invitee_is_member {
                        e@ == ErrorView::CannotInviteMember(self.invitee)
                    } else if self.inviter == self.invitee {
                        e@ == ErrorView::CannotInviteSelf(self.invitee)
                    } else if self.duration_secs == 0 {
                        e@ == ErrorView::InvalidPollDuration
                    } else {
                        e@ is Database && old(store)@.polls.len() > 0
                    }
                },
            },
    {
        if invitee_is_member {
            return Err(Error::CannotInviteMember(self.invitee));
        }
        InvitePoll::create(store, self.guild_id, self.inviter, self.invitee, self.duration_secs, now)
    }

    /// The command's registration: its name, and its `user-id` and
    /// `duration` text options, the first required.
    pub fn register() -> (r: Vec<CommandRegistration>)
        ensures
            r@.len() == 1,
            r@[0].name@ == "invite"@,
            r@[0].options@.len() == 2,
            r@[0].options@[0].name@ == "user-id"@,
            r@[0].options@[0].kind == OptionKind::Text,
            r@[0].options@[0].required,
            r@[0].options@[1].name@ == "duration"@,
            r@[0].options@[1].kind == OptionKind::Text,
            !r@[0].options@[1].required,
    {
        let mut options: Vec<OptionRegistration> = Vec::new();
        options.push(
            OptionRegistration {
                kind: OptionKind::Text,
                name: String::from_str("user-id"),
                description: String::from_str("The ID of the user to invite"),
                required: true,
                min_int_value: None,
                max_int_value: None,
            },
        );
        options.push(
            OptionRegistration {
                kind: OptionKind::Text,
                name: String::from_str("duration"),
                description: String::from_str("Duration of the poll"),
                required: false,
                min_int_value: None,
                max_int_value: None,
            },
        );
        let mut r: Vec<CommandRegistration> = Vec::new();
        r.push(
            CommandRegistration {
                name: String::from_str("invite"),
                description: String::from_str("Creates a petition to invite a new user"),
                options,
            },
        );
        r
    }
}

} // verus!
