//! Description of a message and of the mentions it may trigger.

use vstd::prelude::*;
use vstd::string::StringExecFns;
use serenity::model::channel::MessageReference;
use serenity::model::id::{RoleId, StickerId, UserId};
use crate::model::embed::SerenityEmbed;

verus! {

/// Who or what a message mentions.
#[derive(Clone)]
pub enum SerenityMessageMentionType {
    /// Everyone in the guild.
    Everyone,
    /// The members who are online.
    Here,
    /// The listed users.
    Users(Vec<UserId>),
    /// The listed roles.
    Roles(Vec<RoleId>),
    /// The author of the message replied to.
    Reply(MessageReference),
}

/// A message made of text, embeds and stickers.
#[derive(Clone)]
pub struct SerenityMessage {
    /// The text; at most 2000 UTF-16 code units convert.
    pub content: Option<String>,
    /// The embeds, in the order in which they are shown.
    pub embeds: Option<Vec<SerenityEmbed>>,
    /// Whether the message is read out by text-to-speech.
    pub tts: bool,
    /// The mentions the message may trigger.
    pub mention_type: Option<SerenityMessageMentionType>,
    /// The stickers sent with the message.
    pub sticker_ids: Option<Vec<StickerId>>,
}

/// A message under construction: start with [`SerenityMessage::builder`], set
/// the parts wanted and finish with `build`.
pub struct SerenityMessageBuilder {
    /// The message as set so far.
    pub draft: SerenityMessage,
}

impl SerenityMessage {
    /// The message with no part set and text-to-speech off.
    pub open spec fn unset() -> SerenityMessage {
        SerenityMessage {
            content: None,
            embeds: None,
            tts: false,
            mention_type: None,
            sticker_ids: None,
        }
    }

    /// Starts a message with no part set and text-to-speech off.
    pub fn builder() -> (r: SerenityMessageBuilder)
        ensures
            r.draft == SerenityMessage::unset(),
    {
        SerenityMessageBuilder {
            draft: SerenityMessage {
                content: None,
                embeds: None,
                tts: false,
                mention_type: None,
                sticker_ids: None,
            },
        }
    }
}

impl SerenityMessageBuilder {
    /// Sets the text.
    pub fn content(self, content: &str) -> (r: Self)
        ensures
            r.draft.content is Some && r.draft.content->0@ == content@,
            r.draft == (SerenityMessage { content: r.draft.content, ..self.draft }),
    {
        let mut draft = self.draft;
        draft.content = Some(String::from_str(content));
        SerenityMessageBuilder { draft }
    }

    /// Sets the embeds.
    pub fn embeds(self, embeds: Vec<SerenityEmbed>) -> (r: Self)
        ensures
            r.draft.embeds == Some(embeds),
            r.draft == (SerenityMessage { embeds: r.draft.embeds, ..self.draft }),
    {
        let mut draft = self.draft;
        draft.embeds = Some(embeds);
        SerenityMessageBuilder { draft }
    }

    /// Switches text-to-speech on or off.
    pub fn tts(self, tts: bool) -> (r: Self)
        ensures
            r.draft.tts == tts,
            r.draft == (SerenityMessage { tts: r.draft.tts, ..self.draft }),
    {
        let mut draft = self.draft;
        draft.tts = tts;
        SerenityMessageBuilder { draft }
    }

    /// Sets the mentions the message may trigger.
    pub fn mention_type(self, mention_type: SerenityMessageMentionType) -> (r: Self)
        ensures
            r.draft.mention_type == Some(mention_type),
            r.draft == (SerenityMessage { mention_type: r.draft.mention_type, ..self.draft }),
    {
        let mut draft = self.draft;
        draft.mention_type = Some(mention_type);
        SerenityMessageBuilder { draft }
    }

    /// Sets the stickers.
    pub fn sticker_ids(self, sticker_ids: Vec<StickerId>) -> (r: Self)
        ensures
            r.draft.sticker_ids == Some(sticker_ids),
            r.draft == (SerenityMessage { sticker_ids: r.draft.sticker_ids, ..self.draft }),
    {
        let mut draft = self.draft;
        draft.sticker_ids = Some(sticker_ids);
        SerenityMessageBuilder { draft }
    }

    /// Hands out the message as set so far.
    pub fn build(self) -> (r: SerenityMessage)
        ensures
            r == self.draft,
    {
        self.draft
    }
}

} // verus!
