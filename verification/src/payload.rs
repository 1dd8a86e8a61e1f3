//! Mathematical models of what serenity's builders carry.
//!
//! Contracts speak of these records; strings appear as sequences of
//! characters, lists as sequences, absent values as `None`.

use vstd::prelude::*;
use serenity::model::channel::MessageReference;
use serenity::model::id::{RoleId, StickerId, UserId};
use serenity::model::timestamp::Timestamp;

verus! {

/// Footer of an embed: its text and, where set, the icon beside it.
pub ghost struct FooterPayload {
    pub text: Seq<char>,
    pub icon_url: Option<Seq<char>>,
}

/// Author line of an embed.
pub ghost struct AuthorPayload {
    pub name: Seq<char>,
    pub url: Option<Seq<char>>,
    pub icon_url: Option<Seq<char>>,
}

/// One name/value field of an embed.
pub ghost struct FieldPayload {
    pub name: Seq<char>,
    pub value: Seq<char>,
    pub inline: bool,
}

/// Everything an embed builder holds that this library sets.
pub ghost struct EmbedPayload {
    pub title: Option<Seq<char>>,
    pub description: Option<Seq<char>>,
    pub url: Option<Seq<char>>,
    pub timestamp: Option<Timestamp>,
    pub colour: Option<u32>,
    pub footer: Option<FooterPayload>,
    pub image_url: Option<Seq<char>>,
    pub thumbnail_url: Option<Seq<char>>,
    pub author: Option<AuthorPayload>,
    pub fields: Seq<FieldPayload>,
}

/// Which mentions a message may trigger.
pub ghost struct MentionsPayload {
    pub everyone: bool,
    pub all_users: bool,
    pub all_roles: bool,
    pub users: Seq<UserId>,
    pub roles: Seq<RoleId>,
    pub replied_user: Option<bool>,
}

/// Everything a message builder holds that this library sets.
pub ghost struct MessagePayload {
    pub content: Option<Seq<char>>,
    pub embeds: Seq<EmbedPayload>,
    pub tts: bool,
    pub allowed_mentions: Option<MentionsPayload>,
    pub reference: Option<MessageReference>,
    pub sticker_ids: Seq<StickerId>,
}

/// The payload of an embed builder on which nothing has been set.
pub open spec fn empty_embed() -> EmbedPayload {
    EmbedPayload {
        title: None,
        description: None,
        url: None,
        timestamp: None,
        colour: None,
        footer: None,
        image_url: None,
        thumbnail_url: None,
        author: None,
        fields: Seq::empty(),
    }
}

/// The payload of a mentions builder on which nothing has been set.
pub open spec fn empty_mentions() -> MentionsPayload {
    MentionsPayload {
        everyone: false,
        all_users: false,
        all_roles: false,
        users: Seq::empty(),
        roles: Seq::empty(),
        replied_user: None,
    }
}

/// The payload of a message builder on which nothing has been set.
pub open spec fn empty_message() -> MessagePayload {
    MessagePayload {
        content: None,
        embeds: Seq::empty(),
        tts: false,
        allowed_mentions: None,
        reference: None,
        sticker_ids: Seq::empty(),
    }
}

/// The characters of an optional string.
pub open spec fn text_of(s: Option<String>) -> Option<Seq<char>> {
    match s {
        Some(t) => Some(t@),
        None => None,
    }
}

} // verus!
