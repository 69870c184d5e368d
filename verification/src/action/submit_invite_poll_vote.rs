//! The vote button: a member casts or changes their vote on a poll.

use vstd::prelude::*;
use crate::action::error::ParseActionError;
use crate::action::error::ParseActionErrorView;
use crate::action::error::ParseParentMessageError;
use crate::action::error::ParseParentMessageErrorView;
use crate::action::interaction::Interaction;
use crate::action::interaction::InteractionView;
use crate::action::interaction::MessageField;
use crate::action::interaction::MessageFieldView;
use crate::codec::b64_decode;
use crate::entities::InvitePollVote;
use crate::entities::invite_poll::InvitePollId;
use crate::entities::invite_poll::poll_id_len;
use crate::entities::invite_poll_vote_count::count_votes;
use crate::entities::invite_poll_vote_submission::InvitePollVoteSubmission;
use crate::entities::invite_poll_vote_submission::vote_upsert_model;
use crate::entities::invite_poll_with_vote_count::InvitePollWithVoteCount;
use crate::entities::store::Store;
use crate::error::Error;
use crate::error::ErrorView;
use crate::ids::UserId;
use crate::text::starts_with;
use crate::text::str_eq;

verus! {

/// The embed field of a poll message that carries the encoded poll
/// identifier.
pub open spec fn poll_id_field_name() -> Seq<char> {
    "Poll Id"@
}

/// A parsed vote submission.
#[derive(Debug)]
pub struct SubmitInvitePollVote {
    pub invite_poll_id: InvitePollId,
    /// The voting user.
    pub user_id: UserId,
    pub vote: InvitePollVote,
}

/// Ghost image of a [`SubmitInvitePollVote`].
pub ghost struct SubmitInvitePollVoteView {
    pub invite_poll_id: Seq<u8>,
    pub user_id: UserId,
    pub vote: InvitePollVote,
}

impl View for SubmitInvitePollVote {
    type V = SubmitInvitePollVoteView;

    open spec fn view(&self) -> SubmitInvitePollVoteView {
        SubmitInvitePollVoteView {
            invite_poll_id: self.invite_poll_id@,
            user_id: self.user_id,
            vote: self.vote,
        }
    }
}

/// The value of the first embed field named `name`, from position `i` on.
pub open spec fn find_field_from(
    fields: Seq<MessageFieldView>,
    name: Seq<char>,
    i: int,
) -> Option<Seq<char>>
    decreases fields.len() - i,
{
    if i < 0 || i >= fields.len() {
        None
    } else if fields[i].name == name {
        Some(fields[i].value)
    } else {
        find_field_from(fields, name, i + 1)
    }
}

/// The poll identifier text with the backticks of its rendering taken
/// off: a leading backtick is dropped, and a trailing backtick after
/// that; when only the leading backtick is present, the text is used as
/// delivered.
pub open spec fn strip_ticks(s: Seq<char>) -> Seq<char> {
    let a = if s.len() > 0 && s[0] == '`' {
        s.skip(1)
    } else {
        s
    };
    if a.len() > 0 && a.last() == '`' {
        a.take(a.len() - 1)
    } else {
        s
    }
}

/// The vote a button identifier's suffix names.
pub open spec fn vote_of(s: Seq<char>) -> Option<InvitePollVote> {
    if s == "yes"@ {
        Some(InvitePollVote::Yes)
    } else if s == "no"@ {
        Some(InvitePollVote::No)
    } else {
        None
    }
}

/// What parsing an interaction as a vote submission yields: the vote, or
/// the first error in the order the checks run — wrong shape or button
/// family, then the poll identifier read back from the parent message,
/// then the vote value named by the button identifier.
pub open spec fn submit_invite_poll_vote_model(v: InteractionView) -> Result<
    SubmitInvitePollVoteView,
    ParseActionErrorView,
> {
    match v {
        InteractionView::Component(c) => {
            if !starts_with(c.custom_id, "democracy.invite-poll-vote"@) {
                Err(ParseActionErrorView::MismatchedAction)
            } else {
                match find_field_from(c.message_fields, poll_id_field_name(), 0) {
                    None => Err(
                        ParseActionErrorView::ParentMessage(
                            ParseParentMessageErrorView::FieldNotFound {
                                field: poll_id_field_name(),
                            },
                        ),
                    ),
                    Some(raw) => {
                        let val = strip_ticks(raw);
                        if !(b64_decode(val) is Some && b64_decode(val).unwrap().len()
                            == poll_id_len()) {
                            Err(
                                ParseActionErrorView::ParentMessage(
                                    ParseParentMessageErrorView::InvalidField {
                                        field: poll_id_field_name(),
                                        value: val,
                                    },
                                ),
                            )
                        } else {
                            let id_bytes = b64_decode(val).unwrap();
                            if !starts_with(c.custom_id, "democracy.invite-poll-vote."@) {
                                Err(
                                    ParseActionErrorView::InvalidActionId {
                                        action: "democracy.invite-poll-vote"@,
                                        id: c.custom_id,
                                    },
                                )
                            } else {
                                let suffix = c.custom_id.skip(27);
                                match vote_of(suffix) {
                                    None => Err(
                                        ParseActionErrorView::InvalidActionId {
                                            action: "democracy.invite-poll-vote"@,
                                            id: suffix,
                                        },
                                    ),
                                    Some(vote) => Ok(
                                        SubmitInvitePollVoteView {
                                            invite_poll_id: id_bytes,
                                            user_id: c.user,
                                            vote,
                                        },
                                    ),
                                }
                            }
                        }
                    },
                }
            }
        },
        _ => Err(ParseActionErrorView::MismatchedAction),
    }
}

/// The position of the first embed field named `name`.
fn find_field_index(fields: &Vec<MessageField>, name: &str) -> (r: Option<usize>)
    ensures
        ({
            let vfields = fields@.map_values(|f: MessageField| f@);
            match r {
                Some(i) => i < vfields.len() && find_field_from(vfields, name@, 0) == Some(
                    vfields[i as int].value,
                ) && vfields[i as int].name == name@,
                None => find_field_from(vfields, name@, 0) is None,
            }
        }),
{
    let ghost vfields = fields@.map_values(|f: MessageField| f@);
    let n = fields.len();
    for i in 0..n
        invariant
            n == fields.len(),
            vfields == fields@.map_values(|f: MessageField| f@),
            vfields.len() == n,
            forall|k: int| 0 <= k < n ==> vfields[k] == fields@[k]@,
            find_field_from(vfields, name@, 0) == find_field_from(vfields, name@, i as int),
    {
        proof {
            assert(vfields[i as int] == fields@[i as int]@);
        }
        if str_eq(fields[i].name.as_str(), name) {
            return Some(i);
        }
    }
    None
}

impl SubmitInvitePollVote {
    /// Reads a vote submission out of an inbound interaction.
    pub fn try_from(value: &Interaction) -> (r: Result<SubmitInvitePollVote, ParseActionError>)
        ensures
            match r {
                Ok(a) => submit_invite_poll_vote_model(value@) == Ok::<
                    SubmitInvitePollVoteView,
                    ParseActionErrorView,
                >(a@),
                Err(e) => submit_invite_poll_vote_model(value@) == Err::<
                    SubmitInvitePollVoteView,
                    ParseActionErrorView,
                >(e@),
            },
    {
        let c = match value {
            Interaction::Component(c) => c,
            _ => {
                return Err(ParseActionError::MismatchedAction);
            },
        };
        let n = c.custom_id.unicode_len();
        if n < 26 {
            proof {
                assert(!starts_with(c@.custom_id, "democracy.invite-poll-vote"@)) by {
                    reveal_strlit("democracy.invite-poll-vote");
                }
            }
            return Err(ParseActionError::MismatchedAction);
        }
        proof {
            reveal_strlit("democracy.invite-poll-vote");
        }
        let head = c.custom_id.as_str().substring_char(0, 26);
        if !str_eq(head, "democracy.invite-poll-vote") {
            return Err(ParseActionError::MismatchedAction);
        }
        // read the poll identifier back from the parent message
        let field_index = match find_field_index(&c.message_fields, "Poll Id") {
            Some(i) => i,
            None => {
                return Err(
                    ParseActionError::ParentMessage(
                        ParseParentMessageError::FieldNotFound {
                            field: String::from_str("Poll Id"),
                        },
                    ),
                );
            },
        };
        let raw = &c.message_fields[field_index].value;
        let rn = raw.as_str().unicode_len();
        let stripped_head: &str = if rn > 0 && raw.as_str().get_char(0) == '`' {
            raw.as_str().substring_char(1, rn)
        } else {
            raw.as_str()
        };
        let an = stripped_head.unicode_len();
        let val: &str = if an > 0 && stripped_head.get_char(an - 1) == '`' {
            stripped_head.substring_char(0, an - 1)
        } else {
            raw.as_str()
        };
        proof {
            assert(val@ == strip_ticks(raw@));
        }
        let invite_poll_id = match InvitePollId::from_str(val) {
            Ok(id) => id,
            Err(_) => {
                return Err(
                    ParseActionError::ParentMessage(
                        ParseParentMessageError::InvalidField {
                            field: String::from_str("Poll Id"),
                            value: String::from_str(val),
                        },
                    ),
                );
            },
        };
        // read the vote out of the button identifier
        if n < 27 {
            proof {
                assert(!starts_with(c@.custom_id, "democracy.invite-poll-vote."@)) by {
                    reveal_strlit("democracy.invite-poll-vote.");
                }
            }
            return Err(
                ParseActionError::InvalidActionId {
                    action: String::from_str("democracy.invite-poll-vote"),
                    id: String::from_str(c.custom_id.as_str()),
                },
            );
        }
        proof {
            reveal_strlit("democracy.invite-poll-vote.");
        }
        let head_dot = c.custom_id.as_str().substring_char(0, 27);
        if !str_eq(head_dot, "democracy.invite-poll-vote.") {
            return Err(
                ParseActionError::InvalidActionId {
                    action: String::from_str("democracy.invite-poll-vote"),
                    id: String::from_str(c.custom_id.as_str()),
                },
            );
        }
        let suffix = c.custom_id.as_str().substring_char(27, n);
        proof {
            assert(suffix@ == c@.custom_id.skip(27));
        }
        let vote = if str_eq(suffix, "yes") {
            InvitePollVote::Yes
        } else if str_eq(suffix, "no") {
            InvitePollVote::No
        } else {
            return Err(
                ParseActionError::InvalidActionId {
                    action: String::from_str("democracy.invite-poll-vote"),
                    id: String::from_str(suffix),
                },
            );
        };
        Ok(SubmitInvitePollVote { invite_poll_id, user_id: c.user, vote })
    }

    /// Carries the vote out: records it in the ledger — rejecting a vote
    /// on a missing, closed or expired poll — and hands back the poll with
    /// its fresh tally for re-rendering.
    pub fn execute(&self, store: &mut Store, now: i64) -> (r: Result<
        InvitePollWithVoteCount,
        Error,
    >)
        requires
            old(store)@.wf(),
        ensures
            final(store)@.wf(),
            match r {
                Ok(pwc) => {
                    &&& old(store)@.has_poll(self.invite_poll_id@)
                    &&& old(store)@.poll(self.invite_poll_id@).is_open(now)
                    &&& final(store)@.votes == vote_upsert_model(
                        old(store)@,
                        self.invite_poll_id@,
                        self.user_id,
                        self.vote,
                        now,
                    )
                    &&& final(store)@.polls == old(store)@.polls
                    &&& final(store)@.guilds == old(store)@.guilds
                    &&& pwc@.invite_poll == final(store)@.poll(self.invite_poll_id@)
                    &&& pwc@.yes_count == count_votes(
                        final(store)@.votes,
                        self.invite_poll_id@,
                        InvitePollVote::Yes,
                    )
                    &&& pwc@.no_count == count_votes(
                        final(store)@.votes,
                        self.invite_poll_id@,
                        InvitePollVote::No,
                    )
                },
                Err(e) => {
                    &&& final(store)@ == old(store)@
                    &&& if !old(store)@.has_poll(self.invite_poll_id@) {
                        e@ == ErrorView::InvitePollNotFound(self.invite_poll_id@)
                    } else {
                        !old(store)@.poll(self.invite_poll_id@).is_open(now) && e@
                            == ErrorView::InvitePollNotOpen(self.invite_poll_id@)
                    }
                },
            },
    {
        match InvitePollVoteSubmission::create_or_update(
            store,
            &self.invite_poll_id,
            self.user_id,
            self.vote,
            now,
        ) {
            Ok(_) => {},
            Err(e) => {
                return Err(e);
            },
        }
        match InvitePollWithVoteCount::find_by_id(store, &self.invite_poll_id) {
            Some(pwc) => Ok(pwc),
            None => {
                proof {
                    assert(false);
                }
                Err(Error::InvitePollNotFound(self.invite_poll_id.duplicate()))
            },
        }
    }
}

} // verus!
