use serenity::all::{
    ChannelId, CreateAllowedMentions, CreateEmbed, CreateMessage, MessageId, MessageReference,
    RoleId, StickerId, UserId,
};
use serenity_builder::embed::SerenityEmbedConvertError;
use serenity_builder::message::SerenityMessageConvertError;
use serenity_builder::model::embed::{SerenityEmbed, SerenityEmbedField};
use serenity_builder::model::message::{SerenityMessage, SerenityMessageMentionType};
use serenity_builder::utf16::{char_utf16_units, exceeds_utf16};

const MOCK_TEST: &str = "This is a test message.";
const MOCK_STICKER_ID: u64 = 123456789012345678;

fn shown(message: &CreateMessage) -> String {
    format!("{:?}", message)
}

fn too_many_fields() -> SerenityEmbed {
    let fields: Vec<SerenityEmbedField> = (0..26)
        .map(|_| SerenityEmbedField::builder().name("n").value("v").build())
        .collect();
    SerenityEmbed::builder().fields(fields).build()
}

fn too_long_description() -> SerenityEmbed {
    SerenityEmbed::builder().description(&"a".repeat(4097)).build()
}

#[test]
fn test_message_conversion() {
    let embed = SerenityEmbed::builder()
        .title("Test Embed")
        .description("This is a test embed description.")
        .build();

    let mock_message = SerenityMessage::builder()
        .content(MOCK_TEST)
        .embeds(vec![embed.clone()])
        .mention_type(SerenityMessageMentionType::Everyone)
        .sticker_ids(vec![StickerId::new(MOCK_STICKER_ID)])
        .build();

    let converted = mock_message.convert();
    assert!(converted.is_ok());
}

#[test]
fn full_message_matches_direct_construction() {
    let embed = SerenityEmbed::builder()
        .title("Test Embed")
        .description("This is a test embed description.")
        .build();
    let converted = SerenityMessage::builder()
        .content(MOCK_TEST)
        .embeds(vec![embed])
        .mention_type(SerenityMessageMentionType::Everyone)
        .sticker_ids(vec![StickerId::new(MOCK_STICKER_ID)])
        .tts(true)
        .build()
        .convert()
        .unwrap();
    let expected = CreateMessage::default()
        .content(MOCK_TEST)
        .add_embed(
            CreateEmbed::default()
                .title("Test Embed")
                .description("This is a test embed description."),
        )
        .allowed_mentions(CreateAllowedMentions::new().everyone(true))
        .sticker_ids(vec![StickerId::new(MOCK_STICKER_ID)])
        .tts(true);
    assert_eq!(shown(&converted), shown(&expected));
}

#[test]
fn unset_message_is_the_default_builder() {
    let converted = SerenityMessage::builder().build().convert().unwrap();
    assert_eq!(shown(&converted), shown(&CreateMessage::default()));
}

#[test]
fn content_alone() {
    let converted = SerenityMessage::builder().content("hi").build().convert().unwrap();
    assert_eq!(shown(&converted), shown(&CreateMessage::default().content("hi")));
    assert_ne!(shown(&converted), shown(&CreateMessage::default()));
}

#[test]
fn tts_alone() {
    let converted = SerenityMessage::builder().tts(true).build().convert().unwrap();
    assert_eq!(shown(&converted), shown(&CreateMessage::default().tts(true)));
    assert_ne!(shown(&converted), shown(&CreateMessage::default()));
}

#[test]
fn stickers_alone() {
    let ids = vec![StickerId::new(1), StickerId::new(2)];
    let converted = SerenityMessage::builder()
        .sticker_ids(ids.clone())
        .build()
        .convert()
        .unwrap();
    assert_eq!(shown(&converted), shown(&CreateMessage::default().sticker_ids(ids)));
    assert_ne!(shown(&converted), shown(&CreateMessage::default()));
}

#[test]
fn embeds_keep_their_order() {
    let first = SerenityEmbed::builder().title("first").build();
    let second = SerenityEmbed::builder().title("second").build();
    let converted = SerenityMessage::builder()
        .embeds(vec![first, second])
        .build()
        .convert()
        .unwrap();
    let expected = CreateMessage::default()
        .add_embed(CreateEmbed::default().title("first"))
        .add_embed(CreateEmbed::default().title("second"));
    assert_eq!(shown(&converted), shown(&expected));
    let swapped = CreateMessage::default()
        .add_embed(CreateEmbed::default().title("second"))
        .add_embed(CreateEmbed::default().title("first"));
    assert_ne!(shown(&converted), shown(&swapped));
}

#[test]
fn mention_everyone() {
    let converted = SerenityMessage::builder()
        .mention_type(SerenityMessageMentionType::Everyone)
        .build()
        .convert()
        .unwrap();
    let expected =
        CreateMessage::default().allowed_mentions(CreateAllowedMentions::new().everyone(true));
    assert_eq!(shown(&converted), shown(&expected));
    let unset = CreateMessage::default().allowed_mentions(CreateAllowedMentions::new());
    assert_ne!(shown(&converted), shown(&unset));
    assert_ne!(shown(&converted), shown(&CreateMessage::default()));
}

#[test]
fn mention_here() {
    let converted = SerenityMessage::builder()
        .mention_type(SerenityMessageMentionType::Here)
        .build()
        .convert()
        .unwrap();
    let expected = CreateMessage::default()
        .allowed_mentions(CreateAllowedMentions::new().all_users(true).all_roles(true));
    assert_eq!(shown(&converted), shown(&expected));
    let users_only =
        CreateMessage::default().allowed_mentions(CreateAllowedMentions::new().all_users(true));
    assert_ne!(shown(&converted), shown(&users_only));
    let roles_only =
        CreateMessage::default().allowed_mentions(CreateAllowedMentions::new().all_roles(true));
    assert_ne!(shown(&converted), shown(&roles_only));
}

#[test]
fn mention_users() {
    let ids = vec![UserId::new(11), UserId::new(12)];
    let converted = SerenityMessage::builder()
        .mention_type(SerenityMessageMentionType::Users(ids.clone()))
        .build()
        .convert()
        .unwrap();
    let expected =
        CreateMessage::default().allowed_mentions(CreateAllowedMentions::new().users(ids));
    assert_eq!(shown(&converted), shown(&expected));
    let unset = CreateMessage::default().allowed_mentions(CreateAllowedMentions::new());
    assert_ne!(shown(&converted), shown(&unset));
}

#[test]
fn mention_roles() {
    let ids = vec![RoleId::new(21), RoleId::new(22)];
    let converted = SerenityMessage::builder()
        .mention_type(SerenityMessageMentionType::Roles(ids.clone()))
        .build()
        .convert()
        .unwrap();
    let expected = CreateMessage::default()
        .allowed_mentions(CreateAllowedMentions::new().all_users(true).roles(ids));
    assert_eq!(shown(&converted), shown(&expected));
    let without_roles =
        CreateMessage::default().allowed_mentions(CreateAllowedMentions::new().all_users(true));
    assert_ne!(shown(&converted), shown(&without_roles));
}

#[test]
fn mention_reply() {
    let reference = MessageReference::from((ChannelId::new(5), MessageId::new(6)));
    let converted = SerenityMessage::builder()
        .mention_type(SerenityMessageMentionType::Reply(reference.clone()))
        .build()
        .convert()
        .unwrap();
    let expected = CreateMessage::default()
        .reference_message(reference)
        .allowed_mentions(CreateAllowedMentions::new().replied_user(true));
    assert_eq!(shown(&converted), shown(&expected));
    let without_reference = CreateMessage::default()
        .allowed_mentions(CreateAllowedMentions::new().replied_user(true));
    assert_ne!(shown(&converted), shown(&without_reference));
    let without_mention = CreateMessage::default()
        .reference_message(MessageReference::from((ChannelId::new(5), MessageId::new(6))))
        .allowed_mentions(CreateAllowedMentions::new());
    assert_ne!(shown(&converted), shown(&without_mention));
}

#[test]
fn content_of_2000_units_converts() {
    let text = "a".repeat(2000);
    let converted = SerenityMessage::builder().content(&text).build().convert().unwrap();
    assert_eq!(shown(&converted), shown(&CreateMessage::default().content(text)));
}

#[test]
fn content_of_2001_units_is_too_long() {
    let text = "a".repeat(2001);
    let converted = SerenityMessage::builder().content(&text).build().convert();
    assert_eq!(converted.unwrap_err(), SerenityMessageConvertError::TooLongContent);
}

#[test]
fn content_is_measured_in_utf16_units() {
    let text = "\u{1f600}".repeat(1000);
    assert_eq!(text.encode_utf16().count(), 2000);
    assert!(SerenityMessage::builder().content(&text).build().convert().is_ok());

    let longer = "\u{1f600}".repeat(1001);
    assert_eq!(longer.chars().count(), 1001);
    let converted = SerenityMessage::builder().content(&longer).build().convert();
    assert_eq!(converted.unwrap_err(), SerenityMessageConvertError::TooLongContent);

    let three_bytes_each = "\u{3042}".repeat(2000);
    assert_eq!(three_bytes_each.len(), 6000);
    assert!(SerenityMessage::builder().content(&three_bytes_each).build().convert().is_ok());
}

#[test]
fn embed_error_is_passed_on() {
    let converted = SerenityMessage::builder()
        .embeds(vec![SerenityEmbed::builder().title("fine").build(), too_many_fields()])
        .build()
        .convert();
    assert_eq!(
        converted.unwrap_err(),
        SerenityMessageConvertError::EmbedConvertError(SerenityEmbedConvertError::TooManyFields)
    );
}

#[test]
fn first_failing_embed_decides() {
    let converted = SerenityMessage::builder()
        .embeds(vec![too_long_description(), too_many_fields()])
        .build()
        .convert();
    assert_eq!(
        converted.unwrap_err(),
        SerenityMessageConvertError::EmbedConvertError(
            SerenityEmbedConvertError::TooLongDescription
        )
    );
    let converted = SerenityMessage::builder()
        .embeds(vec![too_many_fields(), too_long_description()])
        .build()
        .convert();
    assert_eq!(
        converted.unwrap_err(),
        SerenityMessageConvertError::EmbedConvertError(SerenityEmbedConvertError::TooManyFields)
    );
}

#[test]
fn long_content_is_reported_before_embeds() {
    let converted = SerenityMessage::builder()
        .content(&"a".repeat(2001))
        .embeds(vec![too_many_fields()])
        .build()
        .convert();
    assert_eq!(converted.unwrap_err(), SerenityMessageConvertError::TooLongContent);
}

#[test]
fn message_error_messages() {
    assert_eq!(
        SerenityMessageConvertError::TooLongContent.message(),
        "The content exceeds the maximum length of 2000 characters."
    );
    assert_eq!(
        SerenityMessageConvertError::EmbedConvertError(SerenityEmbedConvertError::TooManyFields)
            .message(),
        "The number of fields exceeds the maximum of 25."
    );
    assert_eq!(
        SerenityMessageConvertError::EmbedConvertError(
            SerenityEmbedConvertError::TooLongDescription
        )
        .message(),
        "The description exceeds the maximum length of 4096 characters."
    );
}

#[test]
fn embed_error_becomes_message_error() {
    let e = SerenityMessageConvertError::from(SerenityEmbedConvertError::TooManyFields);
    assert_eq!(
        e,
        SerenityMessageConvertError::EmbedConvertError(SerenityEmbedConvertError::TooManyFields)
    );
}

#[test]
fn utf16_units_of_characters() {
    assert_eq!(char_utf16_units('a'), 1);
    assert_eq!(char_utf16_units('\u{ffff}'), 1);
    assert_eq!(char_utf16_units('\u{10000}'), 2);
    assert_eq!(char_utf16_units('\u{10ffff}'), 2);
}

#[test]
fn utf16_limit_on_text() {
    assert!(!exceeds_utf16("", 0));
    assert!(exceeds_utf16("a", 0));
    assert!(!exceeds_utf16("abc", 3));
    assert!(exceeds_utf16("abc", 2));
    assert!(!exceeds_utf16("a\u{1f600}", 3));
    assert!(exceeds_utf16("a\u{1f600}", 2));
    assert!(exceeds_utf16("\u{1f600}", 1));
    assert!(!exceeds_utf16("\u{1f600}", usize::MAX));
    for text in ["", "plain", "caf\u{e9}", "\u{1f600}\u{1f600}x", "\u{3042}\u{10000}"] {
        let units = text.encode_utf16().count();
        assert!(!exceeds_utf16(text, units));
        if units > 0 {
            assert!(exceeds_utf16(text, units - 1));
        }
    }
}

#[test]
fn message_builder_sets_only_what_is_named() {
    let m = SerenityMessage::builder().content("c").build();
    assert_eq!(m.content.as_deref(), Some("c"));
    assert!(m.embeds.is_none());
    assert!(!m.tts);
    assert!(m.mention_type.is_none());
    assert!(m.sticker_ids.is_none());
}
