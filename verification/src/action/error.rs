//! Errors raised while turning an inbound interaction into an action.

use vstd::prelude::*;
use crate::action::interaction::OptionValue;
use crate::action::interaction::OptionValueView;

verus! {

/// Why an interaction could not be read as a given action.
#[derive(Debug)]
#[allow(inconsistent_fields)]
pub enum ParseActionError {
    /// The interaction is of a different shape or addresses another action.
    MismatchedAction,
    /// No action recognises the interaction.
    NoMatchingActionFound,
    /// The message a button belongs to could not be read back.
    ParentMessage(ParseParentMessageError),
    /// A button identifier that no action understands.
    InvalidActionId { action: String, id: String },
    /// The action only makes sense inside a community.
    NotInAGuild { action: String },
    /// An option the action does not know.
    UnknownOption { action: String, option: String },
    /// A required option was not filled in.
    MissingOption { action: String, option: String },
    /// An option carried a value of the wrong kind.
    InvalidOptionKind { action: String, option: String, kind: String, value: OptionValue },
    /// An option carried a value that does not parse.
    InvalidOptionValue { action: String, option: String, value: String },
    /// The invoking member lacks the required permission.
    InsufficientPermissions,
}

/// Ghost image of a [`ParseActionError`].
#[allow(inconsistent_fields)]
pub ghost enum ParseActionErrorView {
    MismatchedAction,
    NoMatchingActionFound,
    ParentMessage(ParseParentMessageErrorView),
    InvalidActionId { action: Seq<char>, id: Seq<char> },
    NotInAGuild { action: Seq<char> },
    UnknownOption { action: Seq<char>, option: Seq<char> },
    MissingOption { action: Seq<char>, option: Seq<char> },
    InvalidOptionKind { action: Seq<char>, option: Seq<char>, kind: Seq<char>, value: OptionValueView },
    InvalidOptionValue { action: Seq<char>, option: Seq<char>, value: Seq<char> },
    InsufficientPermissions,
}

impl View for ParseActionError {
    type V = ParseActionErrorView;

    open spec fn view(&self) -> ParseActionErrorView {
        match self {
            ParseActionError::MismatchedAction => ParseActionErrorView::MismatchedAction,
            ParseActionError::NoMatchingActionFound => ParseActionErrorView::NoMatchingActionFound,
            ParseActionError::ParentMessage(e) => ParseActionErrorView::ParentMessage(e@),
            ParseActionError::InvalidActionId { action, id } => ParseActionErrorView::InvalidActionId {
                action: action@,
                id: id@,
            },
            ParseActionError::NotInAGuild { action } => ParseActionErrorView::NotInAGuild {
                action: action@,
            },
            ParseActionError::UnknownOption { action, option } => ParseActionErrorView::UnknownOption {
                action: action@,
                option: option@,
            },
            ParseActionError::MissingOption { action, option } => ParseActionErrorView::MissingOption {
                action: action@,
                option: option@,
            },
            ParseActionError::InvalidOptionKind { action, option, kind, value } => ParseActionErrorView::InvalidOptionKind {
                action: action@,
                option: option@,
                kind: kind@,
                value: value@,
            },
            ParseActionError::InvalidOptionValue { action, option, value } => ParseActionErrorView::InvalidOptionValue {
                action: action@,
                option: option@,
                value: value@,
            },
            ParseActionError::InsufficientPermissions => ParseActionErrorView::InsufficientPermissions,
        }
    }
}

impl ParseActionErrorView {
    /// Whether the error is the invoking user's to correct, rather than a
    /// fault of the bot or of the platform.
    pub open spec fn is_client(self) -> bool {
        match self {
            ParseActionErrorView::MismatchedAction => false,
            ParseActionErrorView::NoMatchingActionFound => true,
            ParseActionErrorView::ParentMessage(_) => false,
            ParseActionErrorView::InvalidActionId { .. } => false,
            ParseActionErrorView::NotInAGuild { .. } => true,
            ParseActionErrorView::UnknownOption { .. } => true,
            ParseActionErrorView::MissingOption { .. } => true,
            ParseActionErrorView::InvalidOptionKind { .. } => true,
            ParseActionErrorView::InvalidOptionValue { .. } => true,
            ParseActionErrorView::InsufficientPermissions => true,
        }
    }
}

/// The text of a parent-message error.
pub open spec fn parse_parent_message_error_text(e: ParseParentMessageErrorView) -> Seq<char> {
    match e {
        ParseParentMessageErrorView::FieldNotFound { field } => "field '"@ + field
            + "' not found"@,
        ParseParentMessageErrorView::InvalidField { field, value } => "invalid value '"@ + value
            + "' for '"@ + field + "'"@,
    }
}

/// The text under which a parse error is shown to the invoking user.
pub open spec fn parse_action_error_text(e: ParseActionErrorView) -> Seq<char> {
    match e {
        ParseActionErrorView::MismatchedAction => "action did not match the given input"@,
        ParseActionErrorView::NoMatchingActionFound => "no matching action found for the given input"@,
        ParseActionErrorView::ParentMessage(inner) => parse_parent_message_error_text(inner),
        ParseActionErrorView::InvalidActionId { action: _, id } => "invalid action id '"@ + id
            + "'"@,
        ParseActionErrorView::NotInAGuild { action: _ } => "action cannot be performed outside of a guild"@,
        ParseActionErrorView::UnknownOption { action: _, option } => "unknown option '"@ + option
            + "'"@,
        ParseActionErrorView::MissingOption { action: _, option } => "missing required option '"@
            + option + "'"@,
        ParseActionErrorView::InvalidOptionKind { action: _, option, kind, value: _ } => "invalid value for option '"@
            + option + "': expected a "@ + kind,
        ParseActionErrorView::InvalidOptionValue { action: _, option, value } => "invalid value '"@
            + value + "' for '"@ + option + "'"@,
        ParseActionErrorView::InsufficientPermissions => "insufficient permissions"@,
    }
}

impl ParseActionError {
    /// The error as shown to the invoking user.
    pub fn message(&self) -> (r: String)
        ensures
            r@ == parse_action_error_text(self@),
    {
        match self {
            ParseActionError::MismatchedAction => String::from_str(
                "action did not match the given input",
            ),
            ParseActionError::NoMatchingActionFound => String::from_str(
                "no matching action found for the given input",
            ),
            ParseActionError::ParentMessage(inner) => match inner {
                ParseParentMessageError::FieldNotFound { field } => {
                    let mut r = String::from_str("field '");
                    r.append(field.as_str());
                    r.append("' not found");
                    r
                },
                ParseParentMessageError::InvalidField { field, value } => {
                    let mut r = String::from_str("invalid value '");
                    r.append(value.as_str());
                    r.append("' for '");
                    r.append(field.as_str());
                    r.append("'");
                    r
                },
            },
            ParseActionError::InvalidActionId { action: _, id } => {
                let mut r = String::from_str("invalid action id '");
                r.append(id.as_str());
                r.append("'");
                r
            },
            ParseActionError::NotInAGuild { action: _ } => String::from_str(
                "action cannot be performed outside of a guild",
            ),
            ParseActionError::UnknownOption { action: _, option } => {
                let mut r = String::from_str("unknown option '");
                r.append(option.as_str());
                r.append("'");
                r
            },
            ParseActionError::MissingOption { action: _, option } => {
                let mut r = String::from_str("missing required option '");
                r.append(option.as_str());
                r.append("'");
                r
            },
            ParseActionError::InvalidOptionKind { action: _, option, kind, value: _ } => {
                let mut r = String::from_str("invalid value for option '");
                r.append(option.as_str());
                r.append("': expected a ");
                r.append(kind.as_str());
                r
            },
            ParseActionError::InvalidOptionValue { action: _, option, value } => {
                let mut r = String::from_str("invalid value '");
                r.append(value.as_str());
                r.append("' for '");
                r.append(option.as_str());
                r.append("'");
                r
            },
            ParseActionError::InsufficientPermissions => String::from_str(
                "insufficient permissions",
            ),
        }
    }

    /// Whether the error text may be shown verbatim to the invoking user.
    pub fn is_client_error(&self) -> (r: bool)
        ensures
            r == self@.is_client(),
    {
        match self {
            ParseActionError::MismatchedAction => false,
            ParseActionError::NoMatchingActionFound => true,
            ParseActionError::ParentMessage(_) => false,
            ParseActionError::InvalidActionId { .. } => false,
            ParseActionError::NotInAGuild { .. } => true,
            ParseActionError::UnknownOption { .. } => true,
            ParseActionError::MissingOption { .. } => true,
            ParseActionError::InvalidOptionKind { .. } => true,
            ParseActionError::InvalidOptionValue { .. } => true,
            ParseActionError::InsufficientPermissions => true,
        }
    }
}

/// Why the message a button belongs to could not be read back.
#[derive(Debug)]
pub enum ParseParentMessageError {
    /// The expected embed field is absent.
    FieldNotFound { field: String },
    /// The embed field holds a value that does not parse.
    InvalidField { field: String, value: String },
}

/// Ghost image of a [`ParseParentMessageError`].
pub ghost enum ParseParentMessageErrorView {
    FieldNotFound { field: Seq<char> },
    InvalidField { field: Seq<char>, value: Seq<char> },
}

impl View for ParseParentMessageError {
    type V = ParseParentMessageErrorView;

    open spec fn view(&self) -> ParseParentMessageErrorView {
        match self {
            ParseParentMessageError::FieldNotFound { field } => ParseParentMessageErrorView::FieldNotFound {
                field: field@,
            },
            ParseParentMessageError::InvalidField { field, value } => ParseParentMessageErrorView::InvalidField {
                field: field@,
                value: value@,
            },
        }
    }
}

} // verus!
