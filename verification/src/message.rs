//! Conversion of a [`SerenityMessage`] into serenity's message builder.

use vstd::prelude::*;
use serenity::builder::{CreateAllowedMentions, CreateMessage};
use serenity::model::channel::MessageReference;
use crate::bindings::{
    mentions_all_roles, mentions_all_users, mentions_everyone, mentions_new, mentions_payload,
    mentions_replied_user, mentions_roles, mentions_users, message_add_embed,
    message_allowed_mentions, message_content, message_new, message_payload, message_reference,
    message_sticker_ids, message_tts,
};
use crate::embed::SerenityEmbedConvertError;
use crate::model::embed::SerenityEmbed;
use crate::model::message::{SerenityMessage, SerenityMessageMentionType};
use crate::payload::{empty_mentions, text_of, EmbedPayload, MentionsPayload, MessagePayload};
use crate::utf16::{exceeds_utf16, utf16_len};

verus! {

/// The longest content the platform accepts, in UTF-16 code units.
pub const MAX_CONTENT_UNITS: usize = 2000;

/// Why a message does not convert.
#[derive(Debug, Clone, Copy, PartialEq, Eq, Structural)]
pub enum SerenityMessageConvertError {
    /// The content has more than 2000 UTF-16 code units.
    TooLongContent,
    /// One of the embeds does not convert, for the reason given.
    EmbedConvertError(SerenityEmbedConvertError),
}

impl SerenityMessageConvertError {
    /// The message that describes the error; that of the embed where an embed
    /// is at fault.
    pub fn message(&self) -> (r: &'static str)
        ensures
            r@ == match *self {
                SerenityMessageConvertError::TooLongContent =>
                    "The content exceeds the maximum length of 2000 characters."@,
                SerenityMessageConvertError::EmbedConvertError(e) => match e {
                    SerenityEmbedConvertError::TooLongDescription =>
                        "The description exceeds the maximum length of 4096 characters."@,
                    SerenityEmbedConvertError::TooManyFields =>
                        "The number of fields exceeds the maximum of 25."@,
                },
            },
    {
        match self {
            SerenityMessageConvertError::TooLongContent =>
                "The content exceeds the maximum length of 2000 characters.",
            SerenityMessageConvertError::EmbedConvertError(e) => e.message(),
        }
    }
}

impl From<SerenityEmbedConvertError> for SerenityMessageConvertError {
    /// An embed's error, as the error of the message that holds the embed.
    fn from(error: SerenityEmbedConvertError) -> (r: SerenityMessageConvertError) {
        SerenityMessageConvertError::EmbedConvertError(error)
    }
}

impl vstd::std_specs::convert::FromSpecImpl<SerenityEmbedConvertError> for SerenityMessageConvertError {
    open spec fn obeys_from_spec() -> bool {
        true
    }

    open spec fn from_spec(error: SerenityEmbedConvertError) -> SerenityMessageConvertError {
        SerenityMessageConvertError::EmbedConvertError(error)
    }
}

/// The error of the first embed in the list that breaks a limit.
pub open spec fn first_embed_error(embeds: Seq<SerenityEmbed>) -> Option<
    SerenityEmbedConvertError,
>
    decreases embeds.len(),
{
    if embeds.len() == 0 {
        None
    } else if embeds[0].limit_error() is Some {
        embeds[0].limit_error()
    } else {
        first_embed_error(embeds.drop_first())
    }
}

/// The payloads of a list of embeds, in order.
pub open spec fn embed_payloads(embeds: Seq<SerenityEmbed>) -> Seq<EmbedPayload> {
    Seq::new(embeds.len(), |i: int| embeds[i].payload())
}

/// No embed of a list breaks a limit exactly when each one is within them.
pub proof fn lemma_first_embed_error_none(embeds: Seq<SerenityEmbed>)
    ensures
        first_embed_error(embeds) is None <==> forall|i: int|
            0 <= i < embeds.len() ==> (#[trigger] embeds[i]).limit_error() is None,
    decreases embeds.len(),
{
    if embeds.len() > 0 {
        let rest = embeds.drop_first();
        lemma_first_embed_error_none(rest);
        if first_embed_error(embeds) is None {
            assert forall|i: int| 0 <= i < embeds.len() implies (#[trigger] embeds[i]).limit_error()
                is None by {
                if i > 0 {
                    assert(embeds[i] == rest[i - 1]);
                }
            }
        } else if embeds[0].limit_error() is None {
            let j = choose|j: int| 0 <= j < rest.len() && !(rest[j].limit_error() is None);
            assert(embeds[j + 1] == rest[j]);
        }
    }
}

/// Where an embed breaks a limit and every embed before it is within the
/// limits, the list's error is that embed's error.
pub proof fn lemma_first_embed_error_at(embeds: Seq<SerenityEmbed>, i: int)
    requires
        0 <= i < embeds.len(),
        embeds[i].limit_error() is Some,
        forall|j: int| 0 <= j < i ==> (#[trigger] embeds[j]).limit_error() is None,
    ensures
        first_embed_error(embeds) == embeds[i].limit_error(),
    decreases embeds.len(),
{
    if i > 0 {
        let rest = embeds.drop_first();
        assert(embeds[0].limit_error() is None);
        assert forall|j: int| 0 <= j < i - 1 implies (#[trigger] rest[j]).limit_error() is None by {
            assert(rest[j] == embeds[j + 1]);
        }
        assert(rest[i - 1] == embeds[i]);
        lemma_first_embed_error_at(rest, i - 1);
    }
}

impl SerenityMessageMentionType {
    /// The mention settings that the platform receives for this choice.
    pub open spec fn mentions_payload(self) -> MentionsPayload {
        match self {
            SerenityMessageMentionType::Everyone => MentionsPayload {
                everyone: true,
                ..empty_mentions()
            },
            SerenityMessageMentionType::Here => MentionsPayload {
                all_users: true,
                all_roles: true,
                ..empty_mentions()
            },
            SerenityMessageMentionType::Users(ids) => MentionsPayload {
                users: ids@,
                ..empty_mentions()
            },
            SerenityMessageMentionType::Roles(ids) => MentionsPayload {
                all_users: true,
                roles: ids@,
                ..empty_mentions()
            },
            SerenityMessageMentionType::Reply(_) => MentionsPayload {
                replied_user: Some(true),
                ..empty_mentions()
            },
        }
    }

    /// The message referred to: that of a reply, none for any other choice.
    pub open spec fn reference(self) -> Option<MessageReference> {
        match self {
            SerenityMessageMentionType::Reply(reference) => Some(reference),
            _ => None,
        }
    }

    /// Builds serenity's mention settings for this choice.
    pub fn allowed_mentions(&self) -> (r: CreateAllowedMentions)
        ensures
            mentions_payload(r) == self.mentions_payload(),
    {
        match self {
            SerenityMessageMentionType::Everyone => mentions_everyone(mentions_new(), true),
            SerenityMessageMentionType::Here => mentions_all_roles(
                mentions_all_users(mentions_new(), true),
                true,
            ),
            SerenityMessageMentionType::Users(user_ids) => mentions_users(mentions_new(), user_ids),
            SerenityMessageMentionType::Roles(role_ids) => mentions_roles(
                mentions_all_users(mentions_new(), true),
                role_ids,
            ),
            SerenityMessageMentionType::Reply(_) => mentions_replied_user(mentions_new(), true),
        }
    }
}

impl SerenityMessage {
    /// The limit that the message breaks, if any. The content is looked at
    /// first, then the embeds in order.
    pub open spec fn limit_error(self) -> Option<SerenityMessageConvertError> {
        if self.content is Some && utf16_len(self.content->0@) > MAX_CONTENT_UNITS {
            Some(SerenityMessageConvertError::TooLongContent)
        } else if self.embeds is Some && first_embed_error(self.embeds->0@) is Some {
            Some(
                SerenityMessageConvertError::EmbedConvertError(
                    first_embed_error(self.embeds->0@)->0,
                ),
            )
        } else {
            None
        }
    }

    /// The message as the platform receives it.
    pub open spec fn payload(self) -> MessagePayload {
        MessagePayload {
            content: text_of(self.content),
            embeds: match self.embeds {
                Some(embeds) => embed_payloads(embeds@),
                None => Seq::empty(),
            },
            tts: self.tts,
            allowed_mentions: match self.mention_type {
                Some(mention) => Some(mention.mentions_payload()),
                None => None,
            },
            reference: match self.mention_type {
                Some(mention) => mention.reference(),
                None => None,
            },
            sticker_ids: match self.sticker_ids {
                Some(ids) => ids@,
                None => Seq::empty(),
            },
        }
    }

    /// A message is within the limits exactly when its content, if any, has
    /// at most 2000 UTF-16 code units and each of its embeds, if any, is
    /// within the limits of an embed.
    pub proof fn lemma_within_limits(self)
        ensures
            self.limit_error() is None <==> {
                &&& self.content is Some ==> utf16_len(self.content->0@) <= MAX_CONTENT_UNITS
                &&& self.embeds is Some ==> forall|i: int|
                    0 <= i < self.embeds->0@.len() ==> (
                    #[trigger] self.embeds->0@[i]).limit_error() is None
            },
    {
        if self.embeds is Some {
            lemma_first_embed_error_none(self.embeds->0@);
        }
    }

    /// Builds serenity's message from this description.
    ///
    /// Fails exactly when a limit is broken, with the error of the first
    /// broken limit; otherwise the builder holds exactly this message's
    /// payload.
    pub fn convert(&self) -> (r: Result<CreateMessage, SerenityMessageConvertError>)
        ensures
            match r {
                Ok(message) => self.limit_error() is None && message_payload(message)
                    == self.payload(),
                Err(e) => self.limit_error() == Some(e),
            },
    {
        let mut message = message_new();
        if let Some(content) = &self.content {
            if exceeds_utf16(content.as_str(), MAX_CONTENT_UNITS) {
                return Err(SerenityMessageConvertError::TooLongContent);
            }
            message = message_content(message, content);
        }
        if let Some(embeds) = &self.embeds {
            let ghost before = message_payload(message);
            let mut i: usize = 0;
            proof {
                assert(embeds@.skip(0) =~= embeds@);
                assert(before.embeds =~= embed_payloads(embeds@.take(0)));
            }
            while i < embeds.len()
                invariant
                    i <= embeds.len(),
                    self.embeds == Some(*embeds),
                    !(self.content is Some && utf16_len(self.content->0@) > MAX_CONTENT_UNITS),
                    first_embed_error(embeds@) == first_embed_error(embeds@.skip(i as int)),
                    message_payload(message) == (MessagePayload {
                        embeds: embed_payloads(embeds@.take(i as int)),
                        ..before
                    }),
                decreases embeds.len() - i,
            {
                proof {
                    assert(embeds@.skip(i as int).drop_first() =~= embeds@.skip(i + 1));
                    assert(embeds@.skip(i as int)[0] == embeds@[i as int]);
                }
                match embeds[i].convert() {
                    Ok(embed) => {
                        message = message_add_embed(message, embed);
                    },
                    Err(e) => {
                        return Err(SerenityMessageConvertError::from(e));
                    },
                }
                proof {
                    assert(embed_payloads(embeds@.take(i + 1)) =~= embed_payloads(
                        embeds@.take(i as int),
                    ).push(embeds@[i as int].payload()));
                }
                i = i + 1;
            }
            proof {
                assert(embeds@.take(i as int) =~= embeds@);
            }
        }
        if let Some(mention) = &self.mention_type {
            if let SerenityMessageMentionType::Reply(reference) = mention {
                message = message_reference(message, reference);
            }
            message = message_allowed_mentions(message, mention.allowed_mentions());
        }
        if let Some(sticker_ids) = &self.sticker_ids {
            message = message_sticker_ids(message, sticker_ids);
        }
        message = message_tts(message, self.tts);
        assert(message_payload(message).embeds =~= self.payload().embeds);
        Ok(message)
    }
}

} // verus!
