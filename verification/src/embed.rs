//! Conversion of a [`SerenityEmbed`] into serenity's embed builder.

use vstd::prelude::*;
use vstd::string::StrSliceExecFns;
use serenity::builder::CreateEmbed;
use crate::bindings::{
    author_icon_url, author_new, author_url, embed_author, embed_color, embed_description,
    embed_fields, embed_footer, embed_image, embed_new, embed_payload, embed_thumbnail,
    embed_timestamp, embed_title, embed_url, footer_icon_url, footer_new,
};
use crate::model::embed::{field_payloads, SerenityEmbed};
use crate::payload::{text_of, AuthorPayload, EmbedPayload, FieldPayload, FooterPayload};

verus! {

/// The longest description the platform accepts, in characters.
pub const MAX_DESCRIPTION_CHARS: usize = 4096;

/// The largest number of fields the platform accepts in one embed.
pub const MAX_FIELDS: usize = 25;

/// Why an embed does not convert.
#[derive(Debug, Clone, Copy, PartialEq, Eq, Structural)]
pub enum SerenityEmbedConvertError {
    /// The description has more than 4096 characters.
    TooLongDescription,
    /// There are more than 25 fields.
    TooManyFields,
}

impl SerenityEmbedConvertError {
    /// The message that describes the error.
    pub fn message(&self) -> (r: &'static str)
        ensures
            r@ == match *self {
                SerenityEmbedConvertError::TooLongDescription =>
                    "The description exceeds the maximum length of 4096 characters."@,
                SerenityEmbedConvertError::TooManyFields =>
                    "The number of fields exceeds the maximum of 25."@,
            },
    {
        match self {
            SerenityEmbedConvertError::TooLongDescription =>
                "The description exceeds the maximum length of 4096 characters.",
            SerenityEmbedConvertError::TooManyFields =>
                "The number of fields exceeds the maximum of 25.",
        }
    }
}

impl SerenityEmbed {
    /// The limit that the embed breaks, if any. The description is looked at
    /// before the fields.
    pub open spec fn limit_error(self) -> Option<SerenityEmbedConvertError> {
        if self.description is Some && self.description->0@.len() > MAX_DESCRIPTION_CHARS {
            Some(SerenityEmbedConvertError::TooLongDescription)
        } else if self.fields is Some && self.fields->0@.len() > MAX_FIELDS {
            Some(SerenityEmbedConvertError::TooManyFields)
        } else {
            None
        }
    }

    /// The footer that the platform receives: present exactly when there is a
    /// footer text.
    pub open spec fn footer_payload(self) -> Option<FooterPayload> {
        match self.footer_text {
            Some(text) => Some(
                FooterPayload { text: text@, icon_url: text_of(self.footer_icon_url) },
            ),
            None => None,
        }
    }

    /// The author that the platform receives: present exactly when there is
    /// an author name.
    pub open spec fn author_payload(self) -> Option<AuthorPayload> {
        match self.author_name {
            Some(name) => Some(
                AuthorPayload {
                    name: name@,
                    url: text_of(self.author_url),
                    icon_url: text_of(self.author_icon_url),
                },
            ),
            None => None,
        }
    }

    /// The fields that the platform receives, none where the list is absent.
    pub open spec fn field_payloads(self) -> Seq<FieldPayload> {
        match self.fields {
            Some(fields) => field_payloads(fields@),
            None => Seq::empty(),
        }
    }

    /// The embed as the platform receives it.
    pub open spec fn payload(self) -> EmbedPayload {
        EmbedPayload {
            title: text_of(self.title),
            description: text_of(self.description),
            url: text_of(self.url),
            timestamp: self.timestamp,
            colour: self.color,
            footer: self.footer_payload(),
            image_url: text_of(self.image_url),
            thumbnail_url: text_of(self.thumbnail_url),
            author: self.author_payload(),
            fields: self.field_payloads(),
        }
    }

    /// An embed is within the limits exactly when its description, if any,
    /// has at most 4096 characters and its fields, if any, number at most 25.
    pub proof fn lemma_within_limits(self)
        ensures
            self.limit_error() is None <==> {
                &&& self.description is Some ==> self.description->0@.len()
                    <= MAX_DESCRIPTION_CHARS
                &&& self.fields is Some ==> self.fields->0@.len() <= MAX_FIELDS
            },
    {
    }

    /// Builds serenity's embed from this description.
    ///
    /// Fails exactly when a limit is broken, with the error of the first
    /// broken limit; otherwise the builder holds exactly this embed's payload.
    pub fn convert(&self) -> (r: Result<CreateEmbed, SerenityEmbedConvertError>)
        ensures
            match r {
                Ok(embed) => self.limit_error() is None && embed_payload(embed) == self.payload(),
                Err(e) => self.limit_error() == Some(e),
            },
    {
        let mut embed = embed_new();
        if let Some(title) = &self.title {
            embed = embed_title(embed, title);
        }
        if let Some(description) = &self.description {
            if description.as_str().unicode_len() > MAX_DESCRIPTION_CHARS {
                return Err(SerenityEmbedConvertError::TooLongDescription);
            }
            embed = embed_description(embed, description);
        }
        if let Some(url) = &self.url {
            embed = embed_url(embed, url);
        }
        if let Some(timestamp) = &self.timestamp {
            embed = embed_timestamp(embed, timestamp);
        }
        if let Some(color) = &self.color {
            embed = embed_color(embed, *color);
        }
        if let Some(footer_text) = &self.footer_text {
            let mut footer = footer_new(footer_text);
            if let Some(icon_url) = &self.footer_icon_url {
                footer = footer_icon_url(footer, icon_url);
            }
            embed = embed_footer(embed, footer);
        }
        if let Some(image_url) = &self.image_url {
            embed = embed_image(embed, image_url);
        }
        if let Some(thumbnail_url) = &self.thumbnail_url {
            embed = embed_thumbnail(embed, thumbnail_url);
        }
        if let Some(author_name) = &self.author_name {
            let mut author = author_new(author_name);
            if let Some(url) = &self.author_url {
                author = author_url(author, url);
            }
            if let Some(icon_url) = &self.author_icon_url {
                author = author_icon_url(author, icon_url);
            }
            embed = embed_author(embed, author);
        }
        if let Some(fields) = &self.fields {
            if fields.len() > MAX_FIELDS {
                return Err(SerenityEmbedConvertError::TooManyFields);
            }
            embed = embed_fields(embed, fields);
        }
        assert(embed_payload(embed).fields =~= self.field_payloads());
        Ok(embed)
    }
}

} // verus!
