//! The closed set of actions the bot understands, and how an inbound
//! interaction is read as one of them.

use vstd::prelude::*;
use crate::action::configure::Configure;
use crate::action::configure::configure_model;
use crate::action::create_invite_poll::CreateInvitePoll;
use crate::action::create_invite_poll::create_invite_poll_model;
use crate::action::error::ParseActionError;
use crate::action::error::ParseActionErrorView;
use crate::action::interaction::CommandRegistration;
use crate::action::interaction::Interaction;
use crate::action::interaction::InteractionView;
use crate::action::submit_invite_poll_vote::SubmitInvitePollVote;
use crate::action::submit_invite_poll_vote::SubmitInvitePollVoteView;
use crate::action::submit_invite_poll_vote::submit_invite_poll_vote_model;

pub mod configure;
pub mod create_invite_poll;
pub mod error;
pub mod submit_invite_poll_vote;
pub mod interaction;

verus! {

/// Everything a user can ask of the bot, as a closed sum: configuring a
/// community, petitioning for an invite, or voting on a petition.
#[derive(Debug)]
pub enum Action {
    Configure(Configure),
    CreateInvitePoll(CreateInvitePoll),
    SubmitInvitePollVote(SubmitInvitePollVote),
}

/// Ghost image of an [`Action`].
pub ghost enum ActionView {
    Configure(Configure),
    CreateInvitePoll(CreateInvitePoll),
    SubmitInvitePollVote(SubmitInvitePollVoteView),
}

impl View for Action {
    type V = ActionView;

    open spec fn view(&self) -> ActionView {
        match self {
            Action::Configure(a) => ActionView::Configure(*a),
            Action::CreateInvitePoll(a) => ActionView::CreateInvitePoll(*a),
            Action::SubmitInvitePollVote(a) => ActionView::SubmitInvitePollVote(a@),
        }
    }
}

/// How an interaction is dispatched: each action is tried in turn, an
/// action that recognises the interaction decides the result, and an
/// interaction no action recognises is rejected.
pub open spec fn action_model(v: InteractionView) -> Result<ActionView, ParseActionErrorView> {
    match configure_model(v) {
        Ok(a) => Ok(ActionView::Configure(a)),
        Err(e) => if e != ParseActionErrorView::MismatchedAction {
            Err(e)
        } else {
            match create_invite_poll_model(v) {
                Ok(a) => Ok(ActionView::CreateInvitePoll(a)),
                Err(e) => if e != ParseActionErrorView::MismatchedAction {
                    Err(e)
                } else {
                    match submit_invite_poll_vote_model(v) {
                        Ok(a) => Ok(ActionView::SubmitInvitePollVote(a)),
                        Err(e) => if e != ParseActionErrorView::MismatchedAction {
                            Err(e)
                        } else {
                            Err(ParseActionErrorView::NoMatchingActionFound)
                        },
                    }
                },
            }
        },
    }
}

impl Action {
    /// Reads an inbound interaction as the one action that recognises it.
    pub fn try_from(value: &Interaction) -> (r: Result<Action, ParseActionError>)
        ensures
            match r {
                Ok(a) => action_model(value@) == Ok::<ActionView, ParseActionErrorView>(a@),
                Err(e) => action_model(value@) == Err::<ActionView, ParseActionErrorView>(e@),
            },
    {
        match Configure::try_from(value) {
            Ok(a) => {
                return Ok(Action::Configure(a));
            },
            Err(e) => match e {
                ParseActionError::MismatchedAction => {},
                other => {
                    return Err(other);
                },
            },
        }
        match CreateInvitePoll::try_from(value) {
            Ok(a) => {
                return Ok(Action::CreateInvitePoll(a));
            },
            Err(e) => match e {
                ParseActionError::MismatchedAction => {},
                other => {
                    return Err(other);
                },
            },
        }
        match SubmitInvitePollVote::try_from(value) {
            Ok(a) => {
                return Ok(Action::SubmitInvitePollVote(a));
            },
            Err(e) => match e {
                ParseActionError::MismatchedAction => {},
                other => {
                    return Err(other);
                },
            },
        }
        Err(ParseActionError::NoMatchingActionFound)
    }

    /// Every command the bot registers with the gateway.
    pub fn register() -> (r: Vec<CommandRegistration>)
        ensures
            r@.len() == 2,
            r@[0].name@ == "configure"@,
            r@[1].name@ == "invite"@,
    {
        let mut r = Configure::register();
        let mut invite = CreateInvitePoll::register();
        r.append(&mut invite);
        r
    }
}

} // verus!
