//! The library's error type, split into errors the user can correct and
//! infrastructure failures.

use vstd::prelude::*;
use crate::action::error::ParseActionError;
use crate::action::error::ParseActionErrorView;
use crate::action::error::parse_action_error_text;
use crate::codec::b64_encode;
use crate::text::dec_str;
use crate::text::u64_to_string;
use crate::entities::invite_poll::InvitePollId;
use crate::ids::GuildId;
use crate::ids::UserId;

verus! {

/// Everything that can go wrong while handling a petition or a vote.
#[derive(Debug)]
pub enum Error {
    /// No poll carries the given identifier.
    InvitePollNotFound(InvitePollId),
    /// The given text is not the encoding of a poll identifier.
    InvitePollIdInvalid(String),
    /// The poll already carries an outcome; closing is one-way.
    InvitePollAlreadyClosed(InvitePollId),
    /// The poll no longer accepts votes.
    InvitePollNotOpen(InvitePollId),
    /// The community has not been configured.
    GuildNotFound(GuildId),
    /// The user to invite is already a member.
    CannotInviteMember(UserId),
    /// A user cannot petition to invite themselves.
    CannotInviteSelf(UserId),
    /// A poll must stay open for a positive span of time.
    InvalidPollDuration,
    /// The interaction could not be read as an action.
    ParseActionError(ParseActionError),
    /// The relational store misbehaved.
    Database(String),
}

/// Ghost image of an [`Error`].
pub ghost enum ErrorView {
    InvitePollNotFound(Seq<u8>),
    InvitePollIdInvalid(Seq<char>),
    InvitePollAlreadyClosed(Seq<u8>),
    InvitePollNotOpen(Seq<u8>),
    GuildNotFound(GuildId),
    CannotInviteMember(UserId),
    CannotInviteSelf(UserId),
    InvalidPollDuration,
    ParseActionError(ParseActionErrorView),
    Database(Seq<char>),
}

impl View for Error {
    type V = ErrorView;

    open spec fn view(&self) -> ErrorView {
        match self {
            Error::InvitePollNotFound(id) => ErrorView::InvitePollNotFound(id@),
            Error::InvitePollIdInvalid(s) => ErrorView::InvitePollIdInvalid(s@),
            Error::InvitePollAlreadyClosed(id) => ErrorView::InvitePollAlreadyClosed(id@),
            Error::InvitePollNotOpen(id) => ErrorView::InvitePollNotOpen(id@),
            Error::GuildNotFound(g) => ErrorView::GuildNotFound(*g),
            Error::CannotInviteMember(u) => ErrorView::CannotInviteMember(*u),
            Error::CannotInviteSelf(u) => ErrorView::CannotInviteSelf(*u),
            Error::InvalidPollDuration => ErrorView::InvalidPollDuration,
            Error::ParseActionError(e) => ErrorView::ParseActionError(e@),
            Error::Database(s) => ErrorView::Database(s@),
        }
    }
}

impl ErrorView {
    /// Whether the error is the invoking user's to correct.
    pub open spec fn is_client(self) -> bool {
        match self {
            ErrorView::InvitePollNotFound(_) => true,
            ErrorView::InvitePollIdInvalid(_) => true,
            ErrorView::InvitePollAlreadyClosed(_) => true,
            ErrorView::InvitePollNotOpen(_) => true,
            ErrorView::GuildNotFound(_) => true,
            ErrorView::CannotInviteMember(_) => true,
            ErrorView::CannotInviteSelf(_) => true,
            ErrorView::InvalidPollDuration => true,
            ErrorView::ParseActionError(e) => e.is_client(),
            ErrorView::Database(_) => false,
        }
    }
}

/// The text under which an error is shown to the invoking user.
pub open spec fn error_text(e: ErrorView) -> Seq<char> {
    match e {
        ErrorView::InvitePollNotFound(id) => "could not find an invite poll with id `"@
            + b64_encode(id) + "`"@,
        ErrorView::InvitePollIdInvalid(s) => "value `"@ + s + "` is not a valid poll id"@,
        ErrorView::InvitePollAlreadyClosed(id) => "the invite poll `"@ + b64_encode(id)
            + "` is already closed"@,
        ErrorView::InvitePollNotOpen(id) => "the invite poll `"@ + b64_encode(id)
            + "` is not open"@,
        ErrorView::GuildNotFound(g) => "could not find a guild with id `"@ + dec_str(g.0 as nat)
            + "`"@,
        ErrorView::CannotInviteMember(u) => "user '<@"@ + dec_str(u.0 as nat)
            + ">' is already a member"@,
        ErrorView::CannotInviteSelf(u) => "user '<@"@ + dec_str(u.0 as nat)
            + ">' cannot invite themselves"@,
        ErrorView::InvalidPollDuration => "the poll must stay open for a positive span of time"@,
        ErrorView::ParseActionError(e) => parse_action_error_text(e),
        ErrorView::Database(s) => s,
    }
}

impl Error {
    /// The error as shown to the invoking user.
    pub fn message(&self) -> (r: String)
        ensures
            r@ == error_text(self@),
    {
        match self {
            Error::InvitePollNotFound(id) => {
                let mut r = String::from_str("could not find an invite poll with id `");
                let encoded = id.to_string();
                r.append(encoded.as_str());
                r.append("`");
                r
            },
            Error::InvitePollIdInvalid(s) => {
                let mut r = String::from_str("value `");
                r.append(s.as_str());
                r.append("` is not a valid poll id");
                r
            },
            Error::InvitePollAlreadyClosed(id) => {
                let mut r = String::from_str("the invite poll `");
                let encoded = id.to_string();
                r.append(encoded.as_str());
                r.append("` is already closed");
                r
            },
            Error::InvitePollNotOpen(id) => {
                let mut r = String::from_str("the invite poll `");
                let encoded = id.to_string();
                r.append(encoded.as_str());
                r.append("` is not open");
                r
            },
            Error::GuildNotFound(g) => {
                let mut r = String::from_str("could not find a guild with id `");
                let digits = u64_to_string(g.0);
                r.append(digits.as_str());
                r.append("`");
                r
            },
            Error::CannotInviteMember(u) => {
                let mut r = String::from_str("user '<@");
                let digits = u64_to_string(u.0);
                r.append(digits.as_str());
                r.append(">' is already a member");
                r
            },
            Error::CannotInviteSelf(u) => {
                let mut r = String::from_str("user '<@");
                let digits = u64_to_string(u.0);
                r.append(digits.as_str());
                r.append(">' cannot invite themselves");
                r
            },
            Error::InvalidPollDuration => String::from_str(
                "the poll must stay open for a positive span of time",
            ),
            Error::ParseActionError(e) => e.message(),
            Error::Database(s) => String::from_str(s.as_str()),
        }
    }

    /// Whether the error text may be shown verbatim to the invoking user,
    /// rather than replaced by a generic failure notice.
    pub fn is_client_error(&self) -> (r: bool)
        ensures
            r == self@.is_client(),
    {
        match self {
            Error::InvitePollNotFound(_) => true,
            Error::InvitePollIdInvalid(_) => true,
            Error::InvitePollAlreadyClosed(_) => true,
            Error::InvitePollNotOpen(_) => true,
            Error::GuildNotFound(_) => true,
            Error::CannotInviteMember(_) => true,
            Error::CannotInviteSelf(_) => true,
            Error::InvalidPollDuration => true,
            Error::ParseActionError(e) => e.is_client_error(),
            Error::Database(_) => false,
        }
    }
}

} // verus!
