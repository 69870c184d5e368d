//! Plain message payloads for the chat gateway: embeds, buttons, and the
//! renderer that pours them into an outbound message.

use vstd::prelude::*;

verus! {

/// How a button is coloured.
#[derive(Clone, Copy, Debug, PartialEq, Eq, Structural)]
pub enum ButtonStyle {
    Success,
    Danger,
}

/// One button under a message.
#[derive(Debug)]
pub struct Button {
    pub custom_id: String,
    pub label: String,
    pub style: ButtonStyle,
}

/// Ghost image of a [`Button`].
pub ghost struct ButtonView {
    pub custom_id: Seq<char>,
    pub label: Seq<char>,
    pub style: ButtonStyle,
}

impl View for Button {
    type V = ButtonView;

    open spec fn view(&self) -> ButtonView {
        ButtonView { custom_id: self.custom_id@, label: self.label@, style: self.style }
    }
}

/// One row of buttons.
#[derive(Debug)]
pub struct ActionRow {
    pub buttons: Vec<Button>,
}

/// Ghost image of an [`ActionRow`].
pub ghost struct ActionRowView {
    pub buttons: Seq<ButtonView>,
}

impl View for ActionRow {
    type V = ActionRowView;

    open spec fn view(&self) -> ActionRowView {
        ActionRowView { buttons: self.buttons@.map_values(|b: Button| b@) }
    }
}

/// One titled field of an embed.
#[derive(Debug)]
pub struct EmbedField {
    pub name: String,
    pub value: String,
    pub inline: bool,
}

/// Ghost image of an [`EmbedField`].
pub ghost struct EmbedFieldView {
    pub name: Seq<char>,
    pub value: Seq<char>,
    pub inline: bool,
}

impl View for EmbedField {
    type V = EmbedFieldView;

    open spec fn view(&self) -> EmbedFieldView {
        EmbedFieldView { name: self.name@, value: self.value@, inline: self.inline }
    }
}

/// One embed of a message.
#[derive(Debug)]
pub struct Embed {
    pub color: u32,
    pub title: String,
    pub thumbnail: Option<String>,
    pub fields: Vec<EmbedField>,
}

/// Ghost image of an [`Embed`].
pub ghost struct EmbedView {
    pub color: u32,
    pub title: Seq<char>,
    pub thumbnail: Option<Seq<char>>,
    pub fields: Seq<EmbedFieldView>,
}

impl View for Embed {
    type V = EmbedView;

    open spec fn view(&self) -> EmbedView {
        EmbedView {
            color: self.color,
            title: self.title@,
            thumbnail: match &self.thumbnail {
                Some(t) => Some(t@),
                None => None,
            },
            fields: self.fields@.map_values(|f: EmbedField| f@),
        }
    }
}

/// The body of an outbound message: its embeds, and its button rows when
/// any were set.
#[derive(Debug)]
pub struct MessageRenderer {
    components: Option<Vec<ActionRow>>,
    embeds: Vec<Embed>,
}

/// Ghost image of a [`MessageRenderer`].
pub ghost struct MessageRendererView {
    pub components: Option<Seq<ActionRowView>>,
    pub embeds: Seq<EmbedView>,
}

impl View for MessageRenderer {
    type V = MessageRendererView;

    closed spec fn view(&self) -> MessageRendererView {
        MessageRendererView {
            components: match &self.components {
                Some(c) => Some(c@.map_values(|r: ActionRow| r@)),
                None => None,
            },
            embeds: self.embeds@.map_values(|e: Embed| e@),
        }
    }
}

impl Default for MessageRenderer {
    /// A renderer with no buttons and no embeds.
    fn default() -> (r: MessageRenderer)
        ensures
            r@.components is None,
            r@.embeds == Seq::<EmbedView>::empty(),
    {
        let r = MessageRenderer { components: None, embeds: Vec::new() };
        proof {
            assert(r@.embeds =~= Seq::<EmbedView>::empty());
        }
        r
    }
}

/// A response to an interaction, as handed to the gateway.
#[derive(Debug)]
pub struct InteractionResponseData {
    pub content: Option<String>,
    pub ephemeral: bool,
    pub components: Option<Vec<ActionRow>>,
    pub embeds: Vec<Embed>,
}

/// A fresh message, as handed to the gateway.
#[derive(Debug)]
pub struct CreateMessageData {
    pub content: Option<String>,
    pub components: Option<Vec<ActionRow>>,
    pub embeds: Vec<Embed>,
}

/// An edit of an existing message, as handed to the gateway.
#[derive(Debug)]
pub struct EditMessageData {
    pub content: Option<String>,
    pub components: Option<Vec<ActionRow>>,
    pub embeds: Vec<Embed>,
}

/// The components of an optional row vector.
pub open spec fn opt_rows_view(rows: &Option<Vec<ActionRow>>) -> Option<Seq<ActionRowView>> {
    match rows {
        Some(c) => Some(c@.map_values(|r: ActionRow| r@)),
        None => None,
    }
}

impl MessageRenderer {
    /// Sets the button rows.
    pub fn set_components(&mut self, components: Vec<ActionRow>)
        ensures
            final(self)@.components == Some(components@.map_values(|r: ActionRow| r@)),
            final(self)@.embeds == old(self)@.embeds,
    {
        self.components = Some(components);
    }

    /// Sets the embeds.
    pub fn set_embeds(&mut self, embeds: Vec<Embed>)
        ensures
            final(self)@.embeds == embeds@.map_values(|e: Embed| e@),
            final(self)@.components == old(self)@.components,
    {
        self.embeds = embeds;
    }

    /// Pours the body into an interaction response: the embeds always,
    /// the button rows when set; the rest of the response is untouched.
    pub fn render_create_interaction_response_data(self, data: InteractionResponseData) -> (r:
        InteractionResponseData)
        ensures
            r.embeds@.map_values(|e: Embed| e@) == self@.embeds,
            opt_rows_view(&r.components) == (if self@.components is Some {
                self@.components
            } else {
                opt_rows_view(&data.components)
            }),
            r.content == data.content,
            r.ephemeral == data.ephemeral,
    {
        let components = match self.components {
            Some(c) => Some(c),
            None => data.components,
        };
        InteractionResponseData {
            content: data.content,
            ephemeral: data.ephemeral,
            components,
            embeds: self.embeds,
        }
    }

    /// Pours the body into a fresh message, as
    /// [`MessageRenderer::render_create_interaction_response_data`] does
    /// for a response.
    pub fn render_create_message(self, data: CreateMessageData) -> (r: CreateMessageData)
        ensures
            r.embeds@.map_values(|e: Embed| e@) == self@.embeds,
            opt_rows_view(&r.components) == (if self@.components is Some {
                self@.components
            } else {
                opt_rows_view(&data.components)
            }),
            r.content == data.content,
    {
        let components = match self.components {
            Some(c) => Some(c),
            None => data.components,
        };
        CreateMessageData { content: data.content, components, embeds: self.embeds }
    }

    /// Pours the body into a message edit, as
    /// [`MessageRenderer::render_create_interaction_response_data`] does
    /// for a response.
    pub fn render_edit_message(self, data: EditMessageData) -> (r: EditMessageData)
        ensures
            r.embeds@.map_values(|e: Embed| e@) == self@.embeds,
            opt_rows_view(&r.components) == (if self@.components is Some {
                self@.components
            } else {
                opt_rows_view(&data.components)
            }),
            r.content == data.content,
    {
        let components = match self.components {
            Some(c) => Some(c),
            None => data.components,
        };
        EditMessageData { content: data.content, components, embeds: self.embeds }
    }
}

} // verus!
