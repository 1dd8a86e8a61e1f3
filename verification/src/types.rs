//! Records that mirror the parts of an embed as the platform describes them,
//! each with a builder that fills in the platform's defaults.

use vstd::prelude::*;
use vstd::string::StringExecFns;
use serenity::model::timestamp::Timestamp;

verus! {

/// The kind of embed that a builder starts with.
pub const DEFAULT_KIND: &'static str = "rich";

/// The icon that a footer or an author has unless another is set.
pub const DEFAULT_ICON_URL: &'static str = "https://cdn.discordapp.com/embed/avatars/0.png";

/// A whole embed, made of the records below.
#[derive(Debug, Clone, PartialEq)]
pub struct SerenityEmbedArgs {
    /// The title.
    pub title: Option<String>,
    /// The kind of embed; `rich` unless set.
    pub kind: String,
    /// The description.
    pub description: Option<String>,
    /// The link behind the title.
    pub url: Option<String>,
    /// The time shown at the bottom.
    pub timestamp: Option<Timestamp>,
    /// The colour code of the side bar.
    pub color: Option<u32>,
    /// The footer.
    pub footer: Option<SerenityEmbedFooterArgs>,
    /// The large image.
    pub image: Option<SerenityMediaArgs>,
    /// The small image in the corner.
    pub thumbnail: Option<SerenityMediaArgs>,
    /// The video.
    pub video: Option<SerenityMediaArgs>,
    /// The provider.
    pub provider: Option<SerenityEmbedProviderArgs>,
    /// The author.
    pub author: Option<SerenityEmbedAuthorArgs>,
    /// The fields, in the order shown.
    pub fields: Option<Vec<SerenityEmbedFieldArgs>>,
}

/// The footer of an embed.
#[derive(Debug, Clone, PartialEq)]
pub struct SerenityEmbedFooterArgs {
    /// The footer text.
    pub text: Option<String>,
    /// The icon beside the text; the default avatar unless set.
    pub icon_url: String,
    /// The proxied address of the icon.
    pub proxy_icon_url: Option<String>,
}

/// An image, a thumbnail or a video of an embed.
#[derive(Debug, Clone, PartialEq)]
pub struct SerenityMediaArgs {
    /// The address of the media.
    pub url: Option<String>,
    /// The proxied address of the media.
    pub proxy_url: Option<String>,
    /// The height in pixels.
    pub height: Option<u32>,
    /// The width in pixels.
    pub width: Option<u32>,
}

/// The provider of an embed.
#[derive(Debug, Clone, PartialEq)]
pub struct SerenityEmbedProviderArgs {
    /// The provider's name.
    pub name: Option<String>,
    /// The provider's address.
    pub url: Option<String>,
}

/// The author of an embed.
#[derive(Debug, Clone, PartialEq)]
pub struct SerenityEmbedAuthorArgs {
    /// The author's name.
    pub name: String,
    /// The link behind the name.
    pub url: Option<String>,
    /// The icon beside the name; the default avatar unless set.
    pub icon_url: String,
    /// The proxied address of the icon.
    pub proxy_icon_url: Option<String>,
}

/// One name/value field of an embed.
#[derive(Debug, Clone, PartialEq)]
pub struct SerenityEmbedFieldArgs {
    /// The name of the field; empty unless set.
    pub name: String,
    /// The value of the field; empty unless set.
    pub value: String,
    /// Whether the field is laid out inline.
    pub inline: Option<bool>,
}

/// A [`SerenityEmbedArgs`] under construction.
pub struct SerenityEmbedArgsBuilder {
    /// The embed as set so far.
    pub draft: SerenityEmbedArgs,
}

/// A [`SerenityEmbedFooterArgs`] under construction.
pub struct SerenityEmbedFooterArgsBuilder {
    /// The footer as set so far.
    pub draft: SerenityEmbedFooterArgs,
}

/// A [`SerenityMediaArgs`] under construction.
pub struct SerenityMediaArgsBuilder {
    /// The media as set so far.
    pub draft: SerenityMediaArgs,
}

/// A [`SerenityEmbedProviderArgs`] under construction.
pub struct SerenityEmbedProviderArgsBuilder {
    /// The provider as set so far.
    pub draft: SerenityEmbedProviderArgs,
}

/// A [`SerenityEmbedAuthorArgs`] under construction.
pub struct SerenityEmbedAuthorArgsBuilder {
    /// The name, once set.
    pub name: Option<String>,
    /// The link behind the name, if set.
    pub url: Option<String>,
    /// The icon; the default avatar unless set.
    pub icon_url: String,
    /// The proxied address of the icon, if set.
    pub proxy_icon_url: Option<String>,
}

/// A [`SerenityEmbedFieldArgs`] under construction.
pub struct SerenityEmbedFieldArgsBuilder {
    /// The field as set so far.
    pub draft: SerenityEmbedFieldArgs,
}

impl SerenityEmbedArgs {
    /// Starts an embed of kind `rich` with nothing else set.
    pub fn builder() -> (r: SerenityEmbedArgsBuilder)
        ensures
            r.draft.kind@ == DEFAULT_KIND@,
            r.draft.title is None,
            r.draft.description is None,
            r.draft.url is None,
            r.draft.timestamp is None,
            r.draft.color is None,
            r.draft.footer is None,
            r.draft.image is None,
            r.draft.thumbnail is None,
            r.draft.video is None,
            r.draft.provider is None,
            r.draft.author is None,
            r.draft.fields is None,
    {
        SerenityEmbedArgsBuilder {
            draft: SerenityEmbedArgs {
                title: None,
                kind: String::from_str(DEFAULT_KIND),
                description: None,
                url: None,
                timestamp: None,
                color: None,
                footer: None,
                image: None,
                thumbnail: None,
                video: None,
                provider: None,
                author: None,
                fields: None,
            },
        }
    }
}

impl SerenityEmbedArgsBuilder {
    /// Sets the title.
    pub fn title(self, title: &str) -> (r: Self)
        ensures
            r.draft.title is Some && r.draft.title->0@ == title@,
            r.draft == (SerenityEmbedArgs { title: r.draft.title, ..self.draft }),
    {
        let mut draft = self.draft;
        draft.title = Some(String::from_str(title));
        SerenityEmbedArgsBuilder { draft }
    }

    /// Sets the kind of embed in place of `rich`.
    pub fn kind(self, kind: &str) -> (r: Self)
        ensures
            r.draft.kind@ == kind@,
            r.draft == (SerenityEmbedArgs { kind: r.draft.kind, ..self.draft }),
    {
        let mut draft = self.draft;
        draft.kind = String::from_str(kind);
        SerenityEmbedArgsBuilder { draft }
    }

    /// Sets the description.
    pub fn description(self, description: &str) -> (r: Self)
        ensures
            r.draft.description is Some && r.draft.description->0@ == description@,
            r.draft == (SerenityEmbedArgs { description: r.draft.description, ..self.draft }),
    {
        let mut draft = self.draft;
        draft.description = Some(String::from_str(description));
        SerenityEmbedArgsBuilder { draft }
    }

    /// Sets the link behind the title.
    pub fn url(self, url: &str) -> (r: Self)
        ensures
            r.draft.url is Some && r.draft.url->0@ == url@,
            r.draft == (SerenityEmbedArgs { url: r.draft.url, ..self.draft }),
    {
        let mut draft = self.draft;
        draft.url = Some(String::from_str(url));
        SerenityEmbedArgsBuilder { draft }
    }

    /// Sets or clears the timestamp.
    pub fn timestamp(self, timestamp: Option<Timestamp>) -> (r: Self)
        ensures
            r.draft.timestamp == timestamp,
            r.draft == (SerenityEmbedArgs { timestamp: r.draft.timestamp, ..self.draft }),
    {
        let mut draft = self.draft;
        draft.timestamp = timestamp;
        SerenityEmbedArgsBuilder { draft }
    }

    /// Sets or clears the colour code.
    pub fn color(self, color: Option<u32>) -> (r: Self)
        ensures
            r.draft.color == color,
            r.draft == (SerenityEmbedArgs { color: r.draft.color, ..self.draft }),
    {
        let mut draft = self.draft;
        draft.color = color;
        SerenityEmbedArgsBuilder { draft }
    }

    /// Sets or clears the footer.
    pub fn footer(self, footer: Option<SerenityEmbedFooterArgs>) -> (r: Self)
        ensures
            r.draft.footer == footer,
            r.draft == (SerenityEmbedArgs { footer: r.draft.footer, ..self.draft }),
    {
        let mut draft = self.draft;
        draft.footer = footer;
        SerenityEmbedArgsBuilder { draft }
    }

    /// Sets or clears the image.
    pub fn image(self, image: Option<SerenityMediaArgs>) -> (r: Self)
        ensures
            r.draft.image == image,
            r.draft == (SerenityEmbedArgs { image: r.draft.image, ..self.draft }),
    {
        let mut draft = self.draft;
        draft.image = image;
        SerenityEmbedArgsBuilder { draft }
    }

    /// Sets or clears the thumbnail.
    pub fn thumbnail(self, thumbnail: Option<SerenityMediaArgs>) -> (r: Self)
        ensures
            r.draft.thumbnail == thumbnail,
            r.draft == (SerenityEmbedArgs { thumbnail: r.draft.thumbnail, ..self.draft }),
    {
        let mut draft = self.draft;
        draft.thumbnail = thumbnail;
        SerenityEmbedArgsBuilder { draft }
    }

    /// Sets or clears the video.
    pub fn video(self, video: Option<SerenityMediaArgs>) -> (r: Self)
        ensures
            r.draft.video == video,
            r.draft == (SerenityEmbedArgs { video: r.draft.video, ..self.draft }),
    {
        let mut draft = self.draft;
        draft.video = video;
        SerenityEmbedArgsBuilder { draft }
    }

    /// Sets or clears the provider.
    pub fn provider(self, provider: Option<SerenityEmbedProviderArgs>) -> (r: Self)
        ensures
            r.draft.provider == provider,
            r.draft == (SerenityEmbedArgs { provider: r.draft.provider, ..self.draft }),
    {
        let mut draft = self.draft;
        draft.provider = provider;
        SerenityEmbedArgsBuilder { draft }
    }

    /// Sets or clears the author.
    pub fn author(self, author: Option<SerenityEmbedAuthorArgs>) -> (r: Self)
        ensures
            r.draft.author == author,
            r.draft == (SerenityEmbedArgs { author: r.draft.author, ..self.draft }),
    {
        let mut draft = self.draft;
        draft.author = author;
        SerenityEmbedArgsBuilder { draft }
    }

    /// Sets or clears the fields.
    pub fn fields(self, fields: Option<Vec<SerenityEmbedFieldArgs>>) -> (r: Self)
        ensures
            r.draft.fields == fields,
            r.draft == (SerenityEmbedArgs { fields: r.draft.fields, ..self.draft }),
    {
        let mut draft = self.draft;
        draft.fields = fields;
        SerenityEmbedArgsBuilder { draft }
    }

    /// Hands out the value as set so far.
    pub fn build(self) -> (r: SerenityEmbedArgs)
        ensures
            r == self.draft,
    {
        self.draft
    }
}

impl SerenityEmbedFooterArgs {
    /// Starts a footer with the default avatar as its icon and nothing else
    /// set.
    pub fn builder() -> (r: SerenityEmbedFooterArgsBuilder)
        ensures
            r.draft.text is None,
            r.draft.icon_url@ == DEFAULT_ICON_URL@,
            r.draft.proxy_icon_url is None,
    {
        SerenityEmbedFooterArgsBuilder {
            draft: SerenityEmbedFooterArgs {
                text: None,
                icon_url: String::from_str(DEFAULT_ICON_URL),
                proxy_icon_url: None,
            },
        }
    }
}

impl SerenityEmbedFooterArgsBuilder {
    /// Sets the footer text.
    pub fn text(self, text: &str) -> (r: Self)
        ensures
            r.draft.text is Some && r.draft.text->0@ == text@,
            r.draft == (SerenityEmbedFooterArgs { text: r.draft.text, ..self.draft }),
    {
        let mut draft = self.draft;
        draft.text = Some(String::from_str(text));
        SerenityEmbedFooterArgsBuilder { draft }
    }

    /// Sets the icon in place of the default avatar.
    pub fn icon_url(self, icon_url: &str) -> (r: Self)
        ensures
            r.draft.icon_url@ == icon_url@,
            r.draft == (SerenityEmbedFooterArgs { icon_url: r.draft.icon_url, ..self.draft }),
    {
        let mut draft = self.draft;
        draft.icon_url = String::from_str(icon_url);
        SerenityEmbedFooterArgsBuilder { draft }
    }

    /// Sets the proxied address of the icon.
    pub fn proxy_icon_url(self, proxy_icon_url: &str) -> (r: Self)
        ensures
            r.draft.proxy_icon_url is Some && r.draft.proxy_icon_url->0@ == proxy_icon_url@,
            r.draft == (SerenityEmbedFooterArgs {
                proxy_icon_url: r.draft.proxy_icon_url,
                ..self.draft
            }),
    {
        let mut draft = self.draft;
        draft.proxy_icon_url = Some(String::from_str(proxy_icon_url));
        SerenityEmbedFooterArgsBuilder { draft }
    }

    /// Hands out the value as set so far.
    pub fn build(self) -> (r: SerenityEmbedFooterArgs)
        ensures
            r == self.draft,
    {
        self.draft
    }
}

impl SerenityMediaArgs {
    /// Starts a media record with nothing set.
    pub fn builder() -> (r: SerenityMediaArgsBuilder)
        ensures
            r.draft == (SerenityMediaArgs {
                url: None,
                proxy_url: None,
                height: None,
                width: None,
            }),
    {
        SerenityMediaArgsBuilder {
            draft: SerenityMediaArgs { url: None, proxy_url: None, height: None, width: None },
        }
    }
}

impl SerenityMediaArgsBuilder {
    /// Sets the address of the media.
    pub fn url(self, url: &str) -> (r: Self)
        ensures
            r.draft.url is Some && r.draft.url->0@ == url@,
            r.draft == (SerenityMediaArgs { url: r.draft.url, ..self.draft }),
    {
        let mut draft = self.draft;
        draft.url = Some(String::from_str(url));
        SerenityMediaArgsBuilder { draft }
    }

    /// Sets the proxied address of the media.
    pub fn proxy_url(self, proxy_url: &str) -> (r: Self)
        ensures
            r.draft.proxy_url is Some && r.draft.proxy_url->0@ == proxy_url@,
            r.draft == (SerenityMediaArgs { proxy_url: r.draft.proxy_url, ..self.draft }),
    {
        let mut draft = self.draft;
        draft.proxy_url = Some(String::from_str(proxy_url));
        SerenityMediaArgsBuilder { draft }
    }

    /// Sets or clears the height in pixels.
    pub fn height(self, height: Option<u32>) -> (r: Self)
        ensures
            r.draft.height == height,
            r.draft == (SerenityMediaArgs { height: r.draft.height, ..self.draft }),
    {
        let mut draft = self.draft;
        draft.height = height;
        SerenityMediaArgsBuilder { draft }
    }

    /// Sets or clears the width in pixels.
    pub fn width(self, width: Option<u32>) -> (r: Self)
        ensures
            r.draft.width == width,
            r.draft == (SerenityMediaArgs { width: r.draft.width, ..self.draft }),
    {
        let mut draft = self.draft;
        draft.width = width;
        SerenityMediaArgsBuilder { draft }
    }

    /// Hands out the value as set so far.
    pub fn build(self) -> (r: SerenityMediaArgs)
        ensures
            r == self.draft,
    {
        self.draft
    }
}

impl SerenityEmbedProviderArgs {
    /// Starts a provider with nothing set.
    pub fn builder() -> (r: SerenityEmbedProviderArgsBuilder)
        ensures
            r.draft == (SerenityEmbedProviderArgs { name: None, url: None }),
    {
        SerenityEmbedProviderArgsBuilder {
            draft: SerenityEmbedProviderArgs { name: None, url: None },
        }
    }
}

impl SerenityEmbedProviderArgsBuilder {
    /// Sets the provider's name.
    pub fn name(self, name: &str) -> (r: Self)
        ensures
            r.draft.name is Some && r.draft.name->0@ == name@,
            r.draft == (SerenityEmbedProviderArgs { name: r.draft.name, ..self.draft }),
    {
        let mut draft = self.draft;
        draft.name = Some(String::from_str(name));
        SerenityEmbedProviderArgsBuilder { draft }
    }

    /// Sets the provider's address.
    pub fn url(self, url: &str) -> (r: Self)
        ensures
            r.draft.url is Some && r.draft.url->0@ == url@,
            r.draft == (SerenityEmbedProviderArgs { url: r.draft.url, ..self.draft }),
    {
        let mut draft = self.draft;
        draft.url = Some(String::from_str(url));
        SerenityEmbedProviderArgsBuilder { draft }
    }

    /// Hands out the value as set so far.
    pub fn build(self) -> (r: SerenityEmbedProviderArgs)
        ensures
            r == self.draft,
    {
        self.draft
    }
}

impl SerenityEmbedAuthorArgs {
    /// Starts an author without a name, with the default avatar as its icon
    /// and nothing else set.
    pub fn builder() -> (r: SerenityEmbedAuthorArgsBuilder)
        ensures
            r.name is None,
            r.url is None,
            r.icon_url@ == DEFAULT_ICON_URL@,
            r.proxy_icon_url is None,
    {
        SerenityEmbedAuthorArgsBuilder {
            name: None,
            url: None,
            icon_url: String::from_str(DEFAULT_ICON_URL),
            proxy_icon_url: None,
        }
    }
}

impl SerenityEmbedAuthorArgsBuilder {
    /// Sets the author's name.
    pub fn name(self, name: &str) -> (r: Self)
        ensures
            r.name is Some && r.name->0@ == name@,
            r == (SerenityEmbedAuthorArgsBuilder { name: r.name, ..self }),
    {
        SerenityEmbedAuthorArgsBuilder {
            name: Some(String::from_str(name)),
            url: self.url,
            icon_url: self.icon_url,
            proxy_icon_url: self.proxy_icon_url,
        }
    }

    /// Sets the link behind the author's name.
    pub fn url(self, url: &str) -> (r: Self)
        ensures
            r.url is Some && r.url->0@ == url@,
            r == (SerenityEmbedAuthorArgsBuilder { url: r.url, ..self }),
    {
        SerenityEmbedAuthorArgsBuilder {
            name: self.name,
            url: Some(String::from_str(url)),
            icon_url: self.icon_url,
            proxy_icon_url: self.proxy_icon_url,
        }
    }

    /// Sets the icon in place of the default avatar.
    pub fn icon_url(self, icon_url: &str) -> (r: Self)
        ensures
            r.icon_url@ == icon_url@,
            r == (SerenityEmbedAuthorArgsBuilder { icon_url: r.icon_url, ..self }),
    {
        SerenityEmbedAuthorArgsBuilder {
            name: self.name,
            url: self.url,
            icon_url: String::from_str(icon_url),
            proxy_icon_url: self.proxy_icon_url,
        }
    }

    /// Sets the proxied address of the icon.
    pub fn proxy_icon_url(self, proxy_icon_url: &str) -> (r: Self)
        ensures
            r.proxy_icon_url is Some && r.proxy_icon_url->0@ == proxy_icon_url@,
            r == (SerenityEmbedAuthorArgsBuilder { proxy_icon_url: r.proxy_icon_url, ..self }),
    {
        SerenityEmbedAuthorArgsBuilder {
            name: self.name,
            url: self.url,
            icon_url: self.icon_url,
            proxy_icon_url: Some(String::from_str(proxy_icon_url)),
        }
    }

    /// Hands out the author. An author has a name: it is set before this
    /// call.
    pub fn build(self) -> (r: SerenityEmbedAuthorArgs)
        requires
            self.name is Some,
        ensures
            r == (SerenityEmbedAuthorArgs {
                name: self.name->0,
                url: self.url,
                icon_url: self.icon_url,
                proxy_icon_url: self.proxy_icon_url,
            }),
    {
        SerenityEmbedAuthorArgs {
            name: self.name.unwrap(),
            url: self.url,
            icon_url: self.icon_url,
            proxy_icon_url: self.proxy_icon_url,
        }
    }
}

impl SerenityEmbedFieldArgs {
    /// Starts a field with an empty name and value and nothing said of its
    /// layout.
    pub fn builder() -> (r: SerenityEmbedFieldArgsBuilder)
        ensures
            r.draft.name@ == Seq::<char>::empty(),
            r.draft.value@ == Seq::<char>::empty(),
            r.draft.inline is None,
    {
        SerenityEmbedFieldArgsBuilder {
            draft: SerenityEmbedFieldArgs {
                name: String::new(),
                value: String::new(),
                inline: None,
            },
        }
    }
}

impl SerenityEmbedFieldArgsBuilder {
    /// Sets the name of the field.
    pub fn name(self, name: &str) -> (r: Self)
        ensures
            r.draft.name@ == name@,
            r.draft == (SerenityEmbedFieldArgs { name: r.draft.name, ..self.draft }),
    {
        let mut draft = self.draft;
        draft.name = String::from_str(name);
        SerenityEmbedFieldArgsBuilder { draft }
    }

    /// Sets the value of the field.
    pub fn value(self, value: &str) -> (r: Self)
        ensures
            r.draft.value@ == value@,
            r.draft == (SerenityEmbedFieldArgs { value: r.draft.value, ..self.draft }),
    {
        let mut draft = self.draft;
        draft.value = String::from_str(value);
        SerenityEmbedFieldArgsBuilder { draft }
    }

    /// Sets or clears whether the field is laid out inline.
    pub fn inline(self, inline: Option<bool>) -> (r: Self)
        ensures
            r.draft.inline == inline,
            r.draft == (SerenityEmbedFieldArgs { inline: r.draft.inline, ..self.draft }),
    {
        let mut draft = self.draft;
        draft.inline = inline;
        SerenityEmbedFieldArgsBuilder { draft }
    }

    /// Hands out the value as set so far.
    pub fn build(self) -> (r: SerenityEmbedFieldArgs)
        ensures
            r == self.draft,
    {
        self.draft
    }
}

} // verus!
