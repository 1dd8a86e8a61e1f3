//! The boundary to serenity: its builder types, the payload each one
//! carries, and one call per builder method the conversions use.
//!
//! Nothing here is proved. Each contract restates what the method's source in
//! serenity does to the builder's fields.

use vstd::prelude::*;
use serenity::builder::{
    CreateAllowedMentions, CreateEmbed, CreateEmbedAuthor, CreateEmbedFooter, CreateMessage,
};
use serenity::model::channel::MessageReference;
use serenity::model::id::{RoleId, StickerId, UserId};
use serenity::model::timestamp::Timestamp;
use crate::model::embed::{field_payloads, SerenityEmbedField};
use crate::payload::{
    empty_embed, empty_mentions, empty_message, AuthorPayload, EmbedPayload, FieldPayload,
    FooterPayload, MentionsPayload, MessagePayload,
};

verus! {

/// serenity's `Timestamp`: a point in time, carried through unread.
#[verifier::external_type_specification]
#[verifier::external_body]
pub struct ExTimestamp(serenity::model::timestamp::Timestamp);

/// serenity's `CreateEmbed`: the builder of an embed, known only by its payload.
#[verifier::external_type_specification]
#[verifier::external_body]
pub struct ExCreateEmbed(serenity::builder::CreateEmbed);

/// serenity's `CreateEmbedFooter`: the builder of a footer, known only by its
/// payload.
#[verifier::external_type_specification]
#[verifier::external_body]
pub struct ExCreateEmbedFooter(serenity::builder::CreateEmbedFooter);

/// serenity's `CreateEmbedAuthor`: the builder of an author line, known only
/// by its payload.
#[verifier::external_type_specification]
#[verifier::external_body]
pub struct ExCreateEmbedAuthor(serenity::builder::CreateEmbedAuthor);

/// serenity's `UserId`: the identifier of a user, carried through unread.
#[verifier::external_type_specification]
#[verifier::external_body]
pub struct ExUserId(serenity::model::id::UserId);

/// serenity's `RoleId`: the identifier of a role, carried through unread.
#[verifier::external_type_specification]
#[verifier::external_body]
pub struct ExRoleId(serenity::model::id::RoleId);

/// serenity's `StickerId`: the identifier of a sticker, carried through unread.
#[verifier::external_type_specification]
#[verifier::external_body]
pub struct ExStickerId(serenity::model::id::StickerId);

/// serenity's `MessageReference`: a pointer to another message, carried
/// through unread.
#[verifier::external_type_specification]
#[verifier::external_body]
pub struct ExMessageReference(serenity::model::channel::MessageReference);

/// serenity's `CreateAllowedMentions`: the builder of mention settings, known
/// only by its payload.
#[verifier::external_type_specification]
#[verifier::external_body]
pub struct ExCreateAllowedMentions(serenity::builder::CreateAllowedMentions);

/// serenity's `CreateMessage`: the builder of a message, known only by its
/// payload.
#[verifier::external_type_specification]
#[verifier::external_body]
pub struct ExCreateMessage(serenity::builder::CreateMessage);

/// What an embed builder holds: the parts that its methods have stored, as
/// they stand in the builder's fields.
pub uninterp spec fn embed_payload(embed: CreateEmbed) -> EmbedPayload;

/// What a footer builder holds: its text and the icon, if one was stored.
pub uninterp spec fn footer_payload(footer: CreateEmbedFooter) -> FooterPayload;

/// What an author builder holds: its name and the link and icon, if stored.
pub uninterp spec fn author_payload(author: CreateEmbedAuthor) -> AuthorPayload;

/// What a mentions builder holds: which blanket mentions are switched on,
/// the listed users and roles, and what was said of the author replied to.
pub uninterp spec fn mentions_payload(mentions: CreateAllowedMentions) -> MentionsPayload;

/// What a message builder holds: the parts that its methods have stored, as
/// they stand in the builder's fields.
pub uninterp spec fn message_payload(message: CreateMessage) -> MessagePayload;

/// `MessageReference::clone`, which serenity derives: the copy is the same
/// reference.
pub assume_specification[ <serenity::model::channel::MessageReference as Clone>::clone ](
    reference: &MessageReference,
) -> (r: MessageReference)
    ensures
        r == *reference,
;

/// `CreateEmbed::default`: a builder with no part set and no field.
#[verifier::external_body]
pub(crate) fn embed_new() -> (r: CreateEmbed)
    ensures
        embed_payload(r) == empty_embed(),
{
    CreateEmbed::default()
}

/// `CreateEmbed::title`: stores the title and leaves the rest as it was.
#[verifier::external_body]
pub(crate) fn embed_title(embed: CreateEmbed, title: &String) -> (r: CreateEmbed)
    ensures
        embed_payload(r) == (EmbedPayload { title: Some(title@), ..embed_payload(embed) }),
{
    embed.title(title)
}

/// `CreateEmbed::description`: stores the description and leaves the rest as
/// it was.
#[verifier::external_body]
pub(crate) fn embed_description(embed: CreateEmbed, description: &String) -> (r: CreateEmbed)
    ensures
        embed_payload(r) == (EmbedPayload {
            description: Some(description@),
            ..embed_payload(embed)
        }),
{
    embed.description(description)
}

/// `CreateEmbed::url`: stores the link and leaves the rest as it was.
#[verifier::external_body]
pub(crate) fn embed_url(embed: CreateEmbed, url: &String) -> (r: CreateEmbed)
    ensures
        embed_payload(r) == (EmbedPayload { url: Some(url@), ..embed_payload(embed) }),
{
    embed.url(url)
}

/// `CreateEmbed::timestamp`: stores the timestamp and leaves the rest as it
/// was.
#[verifier::external_body]
pub(crate) fn embed_timestamp(embed: CreateEmbed, timestamp: &Timestamp) -> (r: CreateEmbed)
    ensures
        embed_payload(r) == (EmbedPayload {
            timestamp: Some(*timestamp),
            ..embed_payload(embed)
        }),
{
    embed.timestamp(timestamp)
}

/// `CreateEmbed::color` on `Colour(code)`: stores the colour code and leaves
/// the rest as it was.
#[verifier::external_body]
pub(crate) fn embed_color(embed: CreateEmbed, code: u32) -> (r: CreateEmbed)
    ensures
        embed_payload(r) == (EmbedPayload { colour: Some(code), ..embed_payload(embed) }),
{
    embed.color(serenity::model::colour::Colour(code))
}

/// `CreateEmbed::footer`: stores what the footer builder holds and leaves the
/// rest as it was.
#[verifier::external_body]
pub(crate) fn embed_footer(embed: CreateEmbed, footer: CreateEmbedFooter) -> (r: CreateEmbed)
    ensures
        embed_payload(r) == (EmbedPayload {
            footer: Some(footer_payload(footer)),
            ..embed_payload(embed)
        }),
{
    embed.footer(footer)
}

/// `CreateEmbed::image`: stores the image's address and leaves the rest as it
/// was.
#[verifier::external_body]
pub(crate) fn embed_image(embed: CreateEmbed, url: &String) -> (r: CreateEmbed)
    ensures
        embed_payload(r) == (EmbedPayload { image_url: Some(url@), ..embed_payload(embed) }),
{
    embed.image(url)
}

/// `CreateEmbed::thumbnail`: stores the thumbnail's address and leaves the
/// rest as it was.
#[verifier::external_body]
pub(crate) fn embed_thumbnail(embed: CreateEmbed, url: &String) -> (r: CreateEmbed)
    ensures
        embed_payload(r) == (EmbedPayload {
            thumbnail_url: Some(url@),
            ..embed_payload(embed)
        }),
{
    embed.thumbnail(url)
}

/// `CreateEmbed::author`: stores what the author builder holds and leaves the
/// rest as it was.
#[verifier::external_body]
pub(crate) fn embed_author(embed: CreateEmbed, author: CreateEmbedAuthor) -> (r: CreateEmbed)
    ensures
        embed_payload(r) == (EmbedPayload {
            author: Some(author_payload(author)),
            ..embed_payload(embed)
        }),
{
    embed.author(author)
}

/// `CreateEmbed::fields`: appends the given fields, in order, behind those
/// already there and leaves the rest as it was.
#[verifier::external_body]
pub(crate) fn embed_fields(embed: CreateEmbed, fields: &Vec<SerenityEmbedField>) -> (r:
    CreateEmbed)
    ensures
        embed_payload(r) == (EmbedPayload {
            fields: embed_payload(embed).fields + field_payloads(fields@),
            ..embed_payload(embed)
        }),
{
    embed.fields(fields.iter().map(|f| (f.name.clone(), f.value.clone(), f.inline)))
}

/// `CreateEmbedFooter::new`: a footer with the given text and no icon.
#[verifier::external_body]
pub(crate) fn footer_new(text: &String) -> (r: CreateEmbedFooter)
    ensures
        footer_payload(r) == (FooterPayload { text: text@, icon_url: None }),
{
    CreateEmbedFooter::new(text)
}

/// `CreateEmbedFooter::icon_url`: stores the icon's address and keeps the
/// text.
#[verifier::external_body]
pub(crate) fn footer_icon_url(footer: CreateEmbedFooter, url: &String) -> (r: CreateEmbedFooter)
    ensures
        footer_payload(r) == (FooterPayload { icon_url: Some(url@), ..footer_payload(footer) }),
{
    footer.icon_url(url)
}

/// `CreateEmbedAuthor::new`: an author with the given name, no link and no
/// icon.
#[verifier::external_body]
pub(crate) fn author_new(name: &String) -> (r: CreateEmbedAuthor)
    ensures
        author_payload(r) == (AuthorPayload { name: name@, url: None, icon_url: None }),
{
    CreateEmbedAuthor::new(name)
}

/// `CreateEmbedAuthor::url`: stores the link and leaves the rest as it was.
#[verifier::external_body]
pub(crate) fn author_url(author: CreateEmbedAuthor, url: &String) -> (r: CreateEmbedAuthor)
    ensures
        author_payload(r) == (AuthorPayload { url: Some(url@), ..author_payload(author) }),
{
    author.url(url)
}

/// `CreateEmbedAuthor::icon_url`: stores the icon's address and leaves the
/// rest as it was.
#[verifier::external_body]
pub(crate) fn author_icon_url(author: CreateEmbedAuthor, url: &String) -> (r: CreateEmbedAuthor)
    ensures
        author_payload(r) == (AuthorPayload { icon_url: Some(url@), ..author_payload(author) }),
{
    author.icon_url(url)
}

/// `CreateAllowedMentions::new`: no blanket mention, no user, no role, and
/// nothing said of the author replied to.
#[verifier::external_body]
pub(crate) fn mentions_new() -> (r: CreateAllowedMentions)
    ensures
        mentions_payload(r) == empty_mentions(),
{
    CreateAllowedMentions::new()
}

/// `CreateAllowedMentions::everyone`: switches the mention of everyone on or
/// off and leaves the rest as it was.
#[verifier::external_body]
pub(crate) fn mentions_everyone(mentions: CreateAllowedMentions, allow: bool) -> (r:
    CreateAllowedMentions)
    ensures
        mentions_payload(r) == (MentionsPayload { everyone: allow, ..mentions_payload(mentions) }),
{
    mentions.everyone(allow)
}

/// `CreateAllowedMentions::all_users`: switches the mention of all users on
/// or off and leaves the rest as it was.
#[verifier::external_body]
pub(crate) fn mentions_all_users(mentions: CreateAllowedMentions, allow: bool) -> (r:
    CreateAllowedMentions)
    ensures
        mentions_payload(r) == (MentionsPayload { all_users: allow, ..mentions_payload(mentions) }),
{
    mentions.all_users(allow)
}

/// `CreateAllowedMentions::all_roles`: switches the mention of all roles on
/// or off and leaves the rest as it was.
#[verifier::external_body]
pub(crate) fn mentions_all_roles(mentions: CreateAllowedMentions, allow: bool) -> (r:
    CreateAllowedMentions)
    ensures
        mentions_payload(r) == (MentionsPayload { all_roles: allow, ..mentions_payload(mentions) }),
{
    mentions.all_roles(allow)
}

/// `CreateAllowedMentions::users`: replaces the listed users and leaves the
/// rest as it was.
#[verifier::external_body]
pub(crate) fn mentions_users(mentions: CreateAllowedMentions, users: &Vec<UserId>) -> (r:
    CreateAllowedMentions)
    ensures
        mentions_payload(r) == (MentionsPayload { users: users@, ..mentions_payload(mentions) }),
{
    mentions.users(users.clone())
}

/// `CreateAllowedMentions::roles`: replaces the listed roles and leaves the
/// rest as it was.
#[verifier::external_body]
pub(crate) fn mentions_roles(mentions: CreateAllowedMentions, roles: &Vec<RoleId>) -> (r:
    CreateAllowedMentions)
    ensures
        mentions_payload(r) == (MentionsPayload { roles: roles@, ..mentions_payload(mentions) }),
{
    mentions.roles(roles.clone())
}

/// `CreateAllowedMentions::replied_user`: records whether the author replied
/// to is mentioned and leaves the rest as it was.
#[verifier::external_body]
pub(crate) fn mentions_replied_user(mentions: CreateAllowedMentions, mention: bool) -> (r:
    CreateAllowedMentions)
    ensures
        mentions_payload(r) == (MentionsPayload {
            replied_user: Some(mention),
            ..mentions_payload(mentions)
        }),
{
    mentions.replied_user(mention)
}

/// `CreateMessage::default`: a builder with no text, embed, mention setting,
/// reference or sticker, and text-to-speech off.
#[verifier::external_body]
pub(crate) fn message_new() -> (r: CreateMessage)
    ensures
        message_payload(r) == empty_message(),
{
    CreateMessage::default()
}

/// `CreateMessage::content`: stores the text and leaves the rest as it was.
#[verifier::external_body]
pub(crate) fn message_content(message: CreateMessage, content: &String) -> (r: CreateMessage)
    ensures
        message_payload(r) == (MessagePayload {
            content: Some(content@),
            ..message_payload(message)
        }),
{
    message.content(content)
}

/// `CreateMessage::add_embed`: puts the embed behind those already there and
/// leaves the rest as it was.
#[verifier::external_body]
pub(crate) fn message_add_embed(message: CreateMessage, embed: CreateEmbed) -> (r: CreateMessage)
    ensures
        message_payload(r) == (MessagePayload {
            embeds: message_payload(message).embeds.push(embed_payload(embed)),
            ..message_payload(message)
        }),
{
    message.add_embed(embed)
}

/// `CreateMessage::allowed_mentions`: stores what the mentions builder holds
/// and leaves the rest as it was.
#[verifier::external_body]
pub(crate) fn message_allowed_mentions(
    message: CreateMessage,
    mentions: CreateAllowedMentions,
) -> (r: CreateMessage)
    ensures
        message_payload(r) == (MessagePayload {
            allowed_mentions: Some(mentions_payload(mentions)),
            ..message_payload(message)
        }),
{
    message.allowed_mentions(mentions)
}

/// `CreateMessage::reference_message`: stores the reference and leaves the
/// rest as it was.
#[verifier::external_body]
pub(crate) fn message_reference(message: CreateMessage, reference: &MessageReference) -> (r:
    CreateMessage)
    ensures
        message_payload(r) == (MessagePayload {
            reference: Some(*reference),
            ..message_payload(message)
        }),
{
    message.reference_message(reference.clone())
}

/// `CreateMessage::sticker_ids`: replaces the stickers and leaves the rest as
/// it was.
#[verifier::external_body]
pub(crate) fn message_sticker_ids(message: CreateMessage, sticker_ids: &Vec<StickerId>) -> (r:
    CreateMessage)
    ensures
        message_payload(r) == (MessagePayload {
            sticker_ids: sticker_ids@,
            ..message_payload(message)
        }),
{
    message.sticker_ids(sticker_ids.clone())
}

/// `CreateMessage::tts`: switches text-to-speech on or off and leaves the
/// rest as it was.
#[verifier::external_body]
pub(crate) fn message_tts(message: CreateMessage, tts: bool) -> (r: CreateMessage)
    ensures
        message_payload(r) == (MessagePayload { tts: tts, ..message_payload(message) }),
{
    message.tts(tts)
}

} // verus!
