//! A plain model of the inbound events the chat gateway delivers: slash
//! commands with their options, and button presses carrying the fields of
//! the message they were attached to.

use vstd::prelude::*;
use crate::ids::ChannelId;
use crate::ids::GuildId;
use crate::ids::UserId;

verus! {

/// The value carried by one option of a slash command.
#[derive(Debug)]
pub enum OptionValue {
    Text(String),
    Int(i64),
    Chan(ChannelId),
}

/// Ghost image of an [`OptionValue`].
pub ghost enum OptionValueView {
    Text(Seq<char>),
    Int(i64),
    Chan(ChannelId),
}

impl View for OptionValue {
    type V = OptionValueView;

    open spec fn view(&self) -> OptionValueView {
        match self {
            OptionValue::Text(s) => OptionValueView::Text(s@),
            OptionValue::Int(v) => OptionValueView::Int(*v),
            OptionValue::Chan(c) => OptionValueView::Chan(*c),
        }
    }
}

impl OptionValue {
    /// An identical copy of the value.
    pub fn duplicate(&self) -> (r: OptionValue)
        ensures
            r@ == self@,
    {
        match self {
            OptionValue::Text(s) => OptionValue::Text(String::from_str(s.as_str())),
            OptionValue::Int(v) => OptionValue::Int(*v),
            OptionValue::Chan(c) => OptionValue::Chan(*c),
        }
    }
}

/// One named option of a slash command.
#[derive(Debug)]
pub struct CommandOption {
    pub name: String,
    pub value: OptionValue,
}

/// Ghost image of a [`CommandOption`].
pub ghost struct CommandOptionView {
    pub name: Seq<char>,
    pub value: OptionValueView,
}

impl View for CommandOption {
    type V = CommandOptionView;

    open spec fn view(&self) -> CommandOptionView {
        CommandOptionView { name: self.name@, value: self.value@ }
    }
}

/// A slash command as delivered by the gateway.
#[derive(Debug)]
pub struct CommandInteraction {
    /// The command's name.
    pub name: String,
    /// The options the invoking user filled in.
    pub options: Vec<CommandOption>,
    /// The community the command was issued in, when any.
    pub guild_id: Option<GuildId>,
    /// The invoking user.
    pub user: UserId,
    /// The channel the command was issued in.
    pub channel_id: ChannelId,
    /// Whether the invoking member holds the administrator permission.
    pub admin_permission: bool,
}

/// Ghost image of a [`CommandInteraction`].
pub ghost struct CommandInteractionView {
    pub name: Seq<char>,
    pub options: Seq<CommandOptionView>,
    pub guild_id: Option<GuildId>,
    pub user: UserId,
    pub channel_id: ChannelId,
    pub admin_permission: bool,
}

impl View for CommandInteraction {
    type V = CommandInteractionView;

    open spec fn view(&self) -> CommandInteractionView {
        CommandInteractionView {
            name: self.name@,
            options: self.options@.map_values(|o: CommandOption| o@),
            guild_id: self.guild_id,
            user: self.user,
            channel_id: self.channel_id,
            admin_permission: self.admin_permission,
        }
    }
}

/// One embed field of the message a button was attached to.
#[derive(Debug)]
pub struct MessageField {
    pub name: String,
    pub value: String,
}

/// Ghost image of a [`MessageField`].
pub ghost struct MessageFieldView {
    pub name: Seq<char>,
    pub value: Seq<char>,
}

impl View for MessageField {
    type V = MessageFieldView;

    open spec fn view(&self) -> MessageFieldView {
        MessageFieldView { name: self.name@, value: self.value@ }
    }
}

/// A button press as delivered by the gateway.
#[derive(Debug)]
pub struct ComponentInteraction {
    /// The identifier baked into the pressed button.
    pub custom_id: String,
    /// The pressing user.
    pub user: UserId,
    /// The embed fields of the message holding the button.
    pub message_fields: Vec<MessageField>,
}

/// Ghost image of a [`ComponentInteraction`].
pub ghost struct ComponentInteractionView {
    pub custom_id: Seq<char>,
    pub user: UserId,
    pub message_fields: Seq<MessageFieldView>,
}

impl View for ComponentInteraction {
    type V = ComponentInteractionView;

    open spec fn view(&self) -> ComponentInteractionView {
        ComponentInteractionView {
            custom_id: self.custom_id@,
            user: self.user,
            message_fields: self.message_fields@.map_values(|f: MessageField| f@),
        }
    }
}

/// The kind of value a registered command option accepts.
#[derive(Clone, Copy, Debug, PartialEq, Eq, Structural)]
pub enum OptionKind {
    Text,
    Int,
    Chan,
}

/// One option in a command's registration.
#[derive(Debug)]
pub struct OptionRegistration {
    pub kind: OptionKind,
    pub name: String,
    pub description: String,
    pub required: bool,
    pub min_int_value: Option<i64>,
    pub max_int_value: Option<i64>,
}

/// A slash command as registered with the gateway.
#[derive(Debug)]
pub struct CommandRegistration {
    pub name: String,
    pub description: String,
    pub options: Vec<OptionRegistration>,
}

/// An inbound event: a ping, a slash command, or a button press.
#[derive(Debug)]
pub enum Interaction {
    Ping,
    Command(CommandInteraction),
    Component(ComponentInteraction),
}

/// Ghost image of an [`Interaction`].
pub ghost enum InteractionView {
    Ping,
    Command(CommandInteractionView),
    Component(ComponentInteractionView),
}

impl View for Interaction {
    type V = InteractionView;

    open spec fn view(&self) -> InteractionView {
        match self {
            Interaction::Ping => InteractionView::Ping,
            Interaction::Command(c) => InteractionView::Command(c@),
            Interaction::Component(c) => InteractionView::Component(c@),
        }
    }
}

} // verus!
