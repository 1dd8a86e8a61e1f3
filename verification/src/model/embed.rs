//! Description of an embed and of its fields.

use vstd::prelude::*;
use vstd::string::StringExecFns;
use serenity::model::timestamp::Timestamp;
use crate::payload::FieldPayload;

verus! {

/// A rich embed, every part of it optional.
///
/// The footer icon is shown only beside a footer text, and the author's link
/// and icon only beside an author name.
#[derive(Clone)]
pub struct SerenityEmbed {
    /// The title of the embed.
    pub title: Option<String>,
    /// The description; at most 4096 characters convert.
    pub description: Option<String>,
    /// The link behind the title.
    pub url: Option<String>,
    /// The time shown at the bottom of the embed.
    pub timestamp: Option<Timestamp>,
    /// The colour of the side bar as a colour code, `0xff0000` for red.
    pub color: Option<u32>,
    /// The footer text.
    pub footer_text: Option<String>,
    /// The icon beside the footer text.
    pub footer_icon_url: Option<String>,
    /// The large image.
    pub image_url: Option<String>,
    /// The small image in the corner.
    pub thumbnail_url: Option<String>,
    /// The author's name.
    pub author_name: Option<String>,
    /// The link behind the author's name.
    pub author_url: Option<String>,
    /// The icon beside the author's name.
    pub author_icon_url: Option<String>,
    /// The fields; at most 25 convert.
    pub fields: Option<Vec<SerenityEmbedField>>,
}

/// One name/value field of a [`SerenityEmbed`].
#[derive(Clone)]
pub struct SerenityEmbedField {
    /// The name of the field.
    pub name: String,
    /// The value of the field.
    pub value: String,
    /// Whether the field is laid out inline.
    pub inline: bool,
}

/// An embed under construction: start with [`SerenityEmbed::builder`], set the
/// parts wanted and finish with `build`.
pub struct SerenityEmbedBuilder {
    /// The embed as set so far.
    pub draft: SerenityEmbed,
}

/// A field under construction: start with [`SerenityEmbedField::builder`],
/// give it a name and a value and finish with `build`.
pub struct SerenityEmbedFieldBuilder {
    /// The name, once set.
    pub name: Option<String>,
    /// The value, once set.
    pub value: Option<String>,
    /// Whether the field is laid out inline; `false` unless set.
    pub inline: bool,
}

impl SerenityEmbed {
    /// The embed with no part set.
    pub open spec fn unset() -> SerenityEmbed {
        SerenityEmbed {
            title: None,
            description: None,
            url: None,
            timestamp: None,
            color: None,
            footer_text: None,
            footer_icon_url: None,
            image_url: None,
            thumbnail_url: None,
            author_name: None,
            author_url: None,
            author_icon_url: None,
            fields: None,
        }
    }

    /// Starts an embed with no part set.
    pub fn builder() -> (r: SerenityEmbedBuilder)
        ensures
            r.draft == SerenityEmbed::unset(),
    {
        SerenityEmbedBuilder {
            draft: SerenityEmbed {
                title: None,
                description: None,
                url: None,
                timestamp: None,
                color: None,
                footer_text: None,
                footer_icon_url: None,
                image_url: None,
                thumbnail_url: None,
                author_name: None,
                author_url: None,
                author_icon_url: None,
                fields: None,
            },
        }
    }
}

impl SerenityEmbedBuilder {
    /// Sets the title.
    pub fn title(self, title: &str) -> (r: Self)
        ensures
            r.draft.title is Some && r.draft.title->0@ == title@,
            r.draft == (SerenityEmbed { title: r.draft.title, ..self.draft }),
    {
        let mut draft = self.draft;
        draft.title = Some(String::from_str(title));
        SerenityEmbedBuilder { draft }
    }

    /// Sets the description.
    pub fn description(self, description: &str) -> (r: Self)
        ensures
            r.draft.description is Some && r.draft.description->0@ == description@,
            r.draft == (SerenityEmbed { description: r.draft.description, ..self.draft }),
    {
        let mut draft = self.draft;
        draft.description = Some(String::from_str(description));
        SerenityEmbedBuilder { draft }
    }

    /// Sets the link behind the title.
    pub fn url(self, url: &str) -> (r: Self)
        ensures
            r.draft.url is Some && r.draft.url->0@ == url@,
            r.draft == (SerenityEmbed { url: r.draft.url, ..self.draft }),
    {
        let mut draft = self.draft;
        draft.url = Some(String::from_str(url));
        SerenityEmbedBuilder { draft }
    }

    /// Sets the time shown at the bottom.
    pub fn timestamp(self, timestamp: Timestamp) -> (r: Self)
        ensures
            r.draft.timestamp == Some(timestamp),
            r.draft == (SerenityEmbed { timestamp: r.draft.timestamp, ..self.draft }),
    {
        let mut draft = self.draft;
        draft.timestamp = Some(timestamp);
        SerenityEmbedBuilder { draft }
    }

    /// Sets the colour code of the side bar.
    pub fn color(self, color: u32) -> (r: Self)
        ensures
            r.draft.color == Some(color),
            r.draft == (SerenityEmbed { color: r.draft.color, ..self.draft }),
    {
        let mut draft = self.draft;
        draft.color = Some(color);
        SerenityEmbedBuilder { draft }
    }

    /// Sets the footer text.
    pub fn footer_text(self, footer_text: &str) -> (r: Self)
        ensures
            r.draft.footer_text is Some && r.draft.footer_text->0@ == footer_text@,
            r.draft == (SerenityEmbed { footer_text: r.draft.footer_text, ..self.draft }),
    {
        let mut draft = self.draft;
        draft.footer_text = Some(String::from_str(footer_text));
        SerenityEmbedBuilder { draft }
    }

    /// Sets the icon beside the footer text.
    pub fn footer_icon_url(self, footer_icon_url: &str) -> (r: Self)
        ensures
            r.draft.footer_icon_url is Some && r.draft.footer_icon_url->0@ == footer_icon_url@,
            r.draft == (SerenityEmbed { footer_icon_url: r.draft.footer_icon_url, ..self.draft }),
    {
        let mut draft = self.draft;
        draft.footer_icon_url = Some(String::from_str(footer_icon_url));
        SerenityEmbedBuilder { draft }
    }

    /// Sets the large image.
    pub fn image_url(self, image_url: &str) -> (r: Self)
        ensures
            r.draft.image_url is Some && r.draft.image_url->0@ == image_url@,
            r.draft == (SerenityEmbed { image_url: r.draft.image_url, ..self.draft }),
    {
        let mut draft = self.draft;
        draft.image_url = Some(String::from_str(image_url));
        SerenityEmbedBuilder { draft }
    }

    /// Sets the small image in the corner.
    pub fn thumbnail_url(self, thumbnail_url: &str) -> (r: Self)
        ensures
            r.draft.thumbnail_url is Some && r.draft.thumbnail_url->0@ == thumbnail_url@,
            r.draft == (SerenityEmbed { thumbnail_url: r.draft.thumbnail_url, ..self.draft }),
    {
        let mut draft = self.draft;
        draft.thumbnail_url = Some(String::from_str(thumbnail_url));
        SerenityEmbedBuilder { draft }
    }

    /// Sets the author's name.
    pub fn author_name(self, author_name: &str) -> (r: Self)
        ensures
            r.draft.author_name is Some && r.draft.author_name->0@ == author_name@,
            r.draft == (SerenityEmbed { author_name: r.draft.author_name, ..self.draft }),
    {
        let mut draft = self.draft;
        draft.author_name = Some(String::from_str(author_name));
        SerenityEmbedBuilder { draft }
    }

    /// Sets the link behind the author's name.
    pub fn author_url(self, author_url: &str) -> (r: Self)
        ensures
            r.draft.author_url is Some && r.draft.author_url->0@ == author_url@,
            r.draft == (SerenityEmbed { author_url: r.draft.author_url, ..self.draft }),
    {
        let mut draft = self.draft;
        draft.author_url = Some(String::from_str(author_url));
        SerenityEmbedBuilder { draft }
    }

    /// Sets the icon beside the author's name.
    pub fn author_icon_url(self, author_icon_url: &str) -> (r: Self)
        ensures
            r.draft.author_icon_url is Some && r.draft.author_icon_url->0@ == author_icon_url@,
            r.draft == (SerenityEmbed { author_icon_url: r.draft.author_icon_url, ..self.draft }),
    {
        let mut draft = self.draft;
        draft.author_icon_url = Some(String::from_str(author_icon_url));
        SerenityEmbedBuilder { draft }
    }

    /// Sets the fields.
    pub fn fields(self, fields: Vec<SerenityEmbedField>) -> (r: Self)
        ensures
            r.draft.fields == Some(fields),
            r.draft == (SerenityEmbed { fields: r.draft.fields, ..self.draft }),
    {
        let mut draft = self.draft;
        draft.fields = Some(fields);
        SerenityEmbedBuilder { draft }
    }

    /// Hands out the embed as set so far.
    pub fn build(self) -> (r: SerenityEmbed)
        ensures
            r == self.draft,
    {
        self.draft
    }
}

impl SerenityEmbedFieldBuilder {
    /// Sets the name of the field.
    pub fn name(self, name: &str) -> (r: Self)
        ensures
            r.name is Some && r.name->0@ == name@,
            r == (SerenityEmbedFieldBuilder { name: r.name, ..self }),
    {
        SerenityEmbedFieldBuilder {
            name: Some(String::from_str(name)),
            value: self.value,
            inline: self.inline,
        }
    }

    /// Sets the value of the field.
    pub fn value(self, value: &str) -> (r: Self)
        ensures
            r.value is Some && r.value->0@ == value@,
            r == (SerenityEmbedFieldBuilder { value: r.value, ..self }),
    {
        SerenityEmbedFieldBuilder {
            name: self.name,
            value: Some(String::from_str(value)),
            inline: self.inline,
        }
    }

    /// Sets whether the field is laid out inline.
    pub fn inline(self, inline: bool) -> (r: Self)
        ensures
            r == (SerenityEmbedFieldBuilder { inline: inline, ..self }),
    {
        SerenityEmbedFieldBuilder { name: self.name, value: self.value, inline }
    }

    /// Hands out the field. A field has a name and a value: both are set
    /// before this call.
    pub fn build(self) -> (r: SerenityEmbedField)
        requires
            self.name is Some,
            self.value is Some,
        ensures
            r == (SerenityEmbedField {
                name: self.name->0,
                value: self.value->0,
                inline: self.inline,
            }),
    {
        SerenityEmbedField {
            name: self.name.unwrap(),
            value: self.value.unwrap(),
            inline: self.inline,
        }
    }
}

impl SerenityEmbedField {
    /// Starts a field with neither name nor value, not laid out inline.
    pub fn builder() -> (r: SerenityEmbedFieldBuilder)
        ensures
            r == (SerenityEmbedFieldBuilder { name: None, value: None, inline: false }),
    {
        SerenityEmbedFieldBuilder { name: None, value: None, inline: false }
    }

    /// The field as the platform receives it.
    pub open spec fn payload(self) -> FieldPayload {
        FieldPayload { name: self.name@, value: self.value@, inline: self.inline }
    }
}

/// The payloads of a list of fields, in order.
pub open spec fn field_payloads(fields: Seq<SerenityEmbedField>) -> Seq<FieldPayload> {
    Seq::new(fields.len(), |i: int| fields[i].payload())
}

} // verus!
