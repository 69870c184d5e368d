//! The configuration command: an administrator picks the invite channel
//! and the quorum for their community.

use vstd::prelude::*;
use crate::action::error::ParseActionError;
use crate::action::error::ParseActionErrorView;
use crate::action::interaction::CommandOptionView;
use crate::action::interaction::CommandRegistration;
use crate::action::interaction::Interaction;
use crate::action::interaction::InteractionView;
use crate::action::interaction::OptionKind;
use crate::action::interaction::OptionRegistration;
use crate::action::interaction::OptionValue;
use crate::action::interaction::OptionValueView;
use crate::entities::guild::Guild;
use crate::entities::guild::guild_upsert_model;
use crate::entities::store::Store;
use crate::ids::ChannelId;
use crate::ids::GuildId;
use crate::text::str_eq;

verus! {

/// The quorum percentage a command integer clamps to.
pub open spec fn clamp_percent(v: i64) -> u8 {
    if v < 0 {
        0
    } else if v > 100 {
        100
    } else {
        v as u8
    }
}

/// A parsed configuration request.
#[derive(Clone, Copy, Debug, PartialEq, Eq, Structural)]
pub struct Configure {
    pub guild_id: GuildId,
    pub invite_channel_id: ChannelId,
    /// The quorum as a percentage, clamped to 0..=100.
    pub invite_poll_quorum: u8,
}

/// The walk over the command's options, in order: an `invite-channel`
/// channel option and an `invite-poll-quorum` integer option update the
/// value seen last; the first option of another name or kind stops the
/// walk with its error.
pub open spec fn scan_configure_options(
    opts: Seq<CommandOptionView>,
    i: int,
    channel: Option<ChannelId>,
    quorum: Option<u8>,
) -> Result<(Option<ChannelId>, Option<u8>), ParseActionErrorView>
    decreases opts.len() - i,
{
    if i < 0 || i >= opts.len() {
        Ok((channel, quorum))
    } else {
        let o = opts[i];
        if o.name == "invite-channel"@ {
            match o.value {
                OptionValueView::Chan(c) => scan_configure_options(opts, i + 1, Some(c), quorum),
                _ => Err(
                    ParseActionErrorView::InvalidOptionKind {
                        action: "configure"@,
                        option: "invite-channel"@,
                        kind: "Channel"@,
                        value: o.value,
                    },
                ),
            }
        } else if o.name == "invite-poll-quorum"@ {
            match o.value {
                OptionValueView::Int(v) => scan_configure_options(
                    opts,
                    i + 1,
                    channel,
                    Some(clamp_percent(v)),
                ),
                _ => Err(
                    ParseActionErrorView::InvalidOptionKind {
                        action: "configure"@,
                        option: "invite-poll-quorum"@,
                        kind: "Integer"@,
                        value: o.value,
                    },
                ),
            }
        } else {
            Err(ParseActionErrorView::UnknownOption { action: "configure"@, option: o.name })
        }
    }
}

/// What parsing an interaction as a configuration request yields: the
/// request, or the first error in the order the checks run — wrong shape
/// or name, then the administrator permission, then the options in order,
/// then each missing option, then the missing community.
pub open spec fn configure_model(v: InteractionView) -> Result<Configure, ParseActionErrorView> {
    match v {
        InteractionView::Command(c) => {
            if c.name != "configure"@ {
                Err(ParseActionErrorView::MismatchedAction)
            } else if !c.admin_permission {
                Err(ParseActionErrorView::InsufficientPermissions)
            } else {
                match scan_configure_options(c.options, 0, None, None) {
                    Err(e) => Err(e),
                    Ok((channel, quorum)) => match channel {
                        None => Err(
                            ParseActionErrorView::MissingOption {
                                action: "configure"@,
                                option: "invite-channel"@,
                            },
                        ),
                        Some(ch) => match quorum {
                            None => Err(
                                ParseActionErrorView::MissingOption {
                                    action: "configure"@,
                                    option: "invite-poll-quorum"@,
                                },
                            ),
                            Some(q) => match c.guild_id {
                                None => Err(
                                    ParseActionErrorView::NotInAGuild { action: "configure"@ },
                                ),
                                Some(g) => Ok(
                                    Configure {
                                        guild_id: g,
                                        invite_channel_id: ch,
                                        invite_poll_quorum: q,
                                    },
                                ),
                            },
                        },
                    },
                }
            }
        },
        _ => Err(ParseActionErrorView::MismatchedAction),
    }
}

impl Configure {
    /// Reads a configuration request out of an inbound interaction.
    pub fn try_from(value: &Interaction) -> (r: Result<Configure, ParseActionError>)
        ensures
            match r {
                Ok(a) => configure_model(value@) == Ok::<Configure, ParseActionErrorView>(a),
                Err(e) => configure_model(value@) == Err::<Configure, ParseActionErrorView>(e@),
            },
    {
        let c = match value {
            Interaction::Command(c) => c,
            _ => {
                return Err(ParseActionError::MismatchedAction);
            },
        };
        if !str_eq(c.name.as_str(), "configure") {
            return Err(ParseActionError::MismatchedAction);
        }
        if !c.admin_permission {
            return Err(ParseActionError::InsufficientPermissions);
        }
        let ghost vopts = c@.options;
        let mut channel: Option<ChannelId> = None;
        let mut quorum: Option<u8> = None;
        let m = c.options.len();
        for idx in 0..m
            invariant
                value@ == InteractionView::Command(c@),
                c@.name == "configure"@,
                c@.admin_permission,
                m == c.options.len(),
                vopts == c@.options,
                vopts.len() == m,
                forall|k: int| 0 <= k < m ==> vopts[k] == c.options@[k]@,
                scan_configure_options(vopts, 0, None, None) == scan_configure_options(
                    vopts,
                    idx as int,
                    channel,
                    quorum,
                ),
        {
            let o = &c.options[idx];
            proof {
                assert(vopts[idx as int] == o@);
            }
            if str_eq(o.name.as_str(), "invite-channel") {
                match &o.value {
                    OptionValue::Chan(ch) => {
                        channel = Some(*ch);
                    },
                    _ => {
                        return Err(
                            ParseActionError::InvalidOptionKind {
                                action: String::from_str("configure"),
                                option: String::from_str("invite-channel"),
                                kind: String::from_str("Channel"),
                                value: o.value.duplicate(),
                            },
                        );
                    },
                }
            } else if str_eq(o.name.as_str(), "invite-poll-quorum") {
                match &o.value {
                    OptionValue::Int(v) => {
                        let clamped: u8 = if *v < 0 {
                            0
                        } else if *v > 100 {
                            100
                        } else {
                            *v as u8
                        };
                        quorum = Some(clamped);
                    },
                    _ => {
                        return Err(
                            ParseActionError::InvalidOptionKind {
                                action: String::from_str("configure"),
                                option: String::from_str("invite-poll-quorum"),
                                kind: String::from_str("Integer"),
                                value: o.value.duplicate(),
                            },
                        );
                    },
                }
            } else {
                return Err(
                    ParseActionError::UnknownOption {
                        action: String::from_str("configure"),
                        option: String::from_str(o.name.as_str()),
                    },
                );
            }
        }
        let invite_channel_id = match channel {
            Some(ch) => ch,
            None => {
                return Err(
                    ParseActionError::MissingOption {
                        action: String::from_str("configure"),
                        option: String::from_str("invite-channel"),
                    },
                );
            },
        };
        let invite_poll_quorum = match quorum {
            Some(q) => q,
            None => {
                return Err(
                    ParseActionError::MissingOption {
                        action: String::from_str("configure"),
                        option: String::from_str("invite-poll-quorum"),
                    },
                );
            },
        };
        let guild_id = match c.guild_id {
            Some(g) => g,
            None => {
                return Err(
                    ParseActionError::NotInAGuild { action: String::from_str("configure") },
                );
            },
        };
        Ok(Configure { guild_id, invite_channel_id, invite_poll_quorum })
    }

    /// Carries the configuration out: writes the community's settings row,
    /// idempotently, as [`Guild::create_or_update`] describes.
    pub fn execute(&self, store: &mut Store, now: i64) -> (r: Guild)
        requires
            old(store)@.wf(),
            self.invite_poll_quorum <= 100,
        ensures
            final(store)@.wf(),
            final(store)@.guilds == guild_upsert_model(
                old(store)@.guilds,
                old(store)@.guild_idx(self.guild_id),
                old(store)@.has_guild(self.guild_id),
                self.guild_id,
                self.invite_channel_id,
                self.invite_poll_quorum,
                now,
            ),
            final(store)@.polls == old(store)@.polls,
            final(store)@.votes == old(store)@.votes,
            final(store)@.has_guild(self.guild_id),
            r == final(store)@.guild(self.guild_id),
            r.invite_channel_id == self.invite_channel_id,
            r.invite_poll_quorum == self.invite_poll_quorum,
    {
        Guild::create_or_update(
            store,
            self.guild_id,
            self.invite_channel_id,
            self.invite_poll_quorum,
            now,
        )
    }

    /// The command's registration: its name, a required channel option,
    /// and a required integer option bounded to a percentage.
    pub fn register() -> (r: Vec<CommandRegistration>)
        ensures
            r@.len() == 1,
            r@[0].name@ == "configure"@,
            r@[0].options@.len() == 2,
            r@[0].options@[0].name@ == "invite-channel"@,
            r@[0].options@[0].kind == OptionKind::Chan,
            r@[0].options@[0].required,
            r@[0].options@[1].name@ == "invite-poll-quorum"@,
            r@[0].options@[1].kind == OptionKind::Int,
            r@[0].options@[1].required,
            r@[0].options@[1].min_int_value == Some(0i64),
            r@[0].options@[1].max_int_value == Some(100i64),
    {
        let mut options: Vec<OptionRegistration> = Vec::new();
        options.push(
            OptionRegistration {
                kind: OptionKind::Chan,
                name: String::from_str("invite-channel"),
                description: String::from_str("Which channels users should be invited to"),
                required: true,
                min_int_value: None,
                max_int_value: None,
            },
        );
        options.push(
            OptionRegistration {
                kind: OptionKind::Int,
                name: String::from_str("invite-poll-quorum"),
                description: String::from_str("The minimum amount of votes required"),
                required: true,
                min_int_value: Some(0),
                max_int_value: Some(100),
            },
        );
        let mut r: Vec<CommandRegistration> = Vec::new();
        r.push(
            CommandRegistration {
                name: String::from_str("configure"),
                description: String::from_str("Configures the bot for the current guild"),
                options,
            },
        );
        r
    }
}

} // verus!
