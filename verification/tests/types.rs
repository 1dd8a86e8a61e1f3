use serenity::all::Timestamp;
use serenity_builder::types::{
    SerenityEmbedArgs, SerenityEmbedAuthorArgs, SerenityEmbedFieldArgs, SerenityEmbedFooterArgs,
    SerenityEmbedProviderArgs, SerenityMediaArgs, DEFAULT_ICON_URL, DEFAULT_KIND,
};

#[test]
fn default_constants() {
    assert_eq!(DEFAULT_KIND, "rich");
    assert_eq!(DEFAULT_ICON_URL, "https://cdn.discordapp.com/embed/avatars/0.png");
}

#[test]
fn embed_args_start_as_rich() {
    let e = SerenityEmbedArgs::builder().build();
    let expected = SerenityEmbedArgs {
        title: None,
        kind: "rich".to_string(),
        description: None,
        url: None,
        timestamp: None,
        color: None,
        footer: None,
        image: None,
        thumbnail: None,
        video: None,
        provider: None,
        author: None,
        fields: None,
    };
    assert_eq!(e, expected);
}

#[test]
fn embed_args_take_every_part() {
    let at = Timestamp::parse("2024-01-01T00:00:00Z").unwrap();
    let footer = SerenityEmbedFooterArgs::builder().text("f").build();
    let image = SerenityMediaArgs::builder().url("i").build();
    let thumbnail = SerenityMediaArgs::builder().url("t").build();
    let video = SerenityMediaArgs::builder().url("v").build();
    let provider = SerenityEmbedProviderArgs::builder().name("p").build();
    let author = SerenityEmbedAuthorArgs::builder().name("a").build();
    let field = SerenityEmbedFieldArgs::builder().name("n").value("v").build();
    let e = SerenityEmbedArgs::builder()
        .title("title")
        .kind("link")
        .description("description")
        .url("url")
        .timestamp(Some(at))
        .color(Some(0xff0000))
        .footer(Some(footer.clone()))
        .image(Some(image.clone()))
        .thumbnail(Some(thumbnail.clone()))
        .video(Some(video.clone()))
        .provider(Some(provider.clone()))
        .author(Some(author.clone()))
        .fields(Some(vec![field.clone()]))
        .build();
    let expected = SerenityEmbedArgs {
        title: Some("title".to_string()),
        kind: "link".to_string(),
        description: Some("description".to_string()),
        url: Some("url".to_string()),
        timestamp: Some(at),
        color: Some(0xff0000),
        footer: Some(footer),
        image: Some(image),
        thumbnail: Some(thumbnail),
        video: Some(video),
        provider: Some(provider),
        author: Some(author),
        fields: Some(vec![field]),
    };
    assert_eq!(e, expected);
}

#[test]
fn footer_args_defaults_and_setters() {
    let f = SerenityEmbedFooterArgs::builder().build();
    assert_eq!(
        f,
        SerenityEmbedFooterArgs {
            text: None,
            icon_url: "https://cdn.discordapp.com/embed/avatars/0.png".to_string(),
            proxy_icon_url: None,
        }
    );
    let g = SerenityEmbedFooterArgs::builder()
        .text("t")
        .icon_url("i")
        .proxy_icon_url("p")
        .build();
    assert_eq!(
        g,
        SerenityEmbedFooterArgs {
            text: Some("t".to_string()),
            icon_url: "i".to_string(),
            proxy_icon_url: Some("p".to_string()),
        }
    );
}

#[test]
fn media_args_defaults_and_setters() {
    let m = SerenityMediaArgs::builder().build();
    assert_eq!(m, SerenityMediaArgs { url: None, proxy_url: None, height: None, width: None });
    let n = SerenityMediaArgs::builder()
        .url("u")
        .proxy_url("p")
        .height(Some(10))
        .width(Some(20))
        .build();
    assert_eq!(
        n,
        SerenityMediaArgs {
            url: Some("u".to_string()),
            proxy_url: Some("p".to_string()),
            height: Some(10),
            width: Some(20),
        }
    );
}

#[test]
fn provider_args_defaults_and_setters() {
    let p = SerenityEmbedProviderArgs::builder().build();
    assert_eq!(p, SerenityEmbedProviderArgs { name: None, url: None });
    let q = SerenityEmbedProviderArgs::builder().name("n").url("u").build();
    assert_eq!(
        q,
        SerenityEmbedProviderArgs { name: Some("n".to_string()), url: Some("u".to_string()) }
    );
}

#[test]
fn author_args_defaults_and_setters() {
    let a = SerenityEmbedAuthorArgs::builder().name("a").build();
    assert_eq!(
        a,
        SerenityEmbedAuthorArgs {
            name: "a".to_string(),
            url: None,
            icon_url: "https://cdn.discordapp.com/embed/avatars/0.png".to_string(),
            proxy_icon_url: None,
        }
    );
    let b = SerenityEmbedAuthorArgs::builder()
        .url("u")
        .icon_url("i")
        .proxy_icon_url("p")
        .name("b")
        .build();
    assert_eq!(
        b,
        SerenityEmbedAuthorArgs {
            name: "b".to_string(),
            url: Some("u".to_string()),
            icon_url: "i".to_string(),
            proxy_icon_url: Some("p".to_string()),
        }
    );
}

#[test]
fn field_args_defaults_and_setters() {
    let f = SerenityEmbedFieldArgs::builder().build();
    assert_eq!(
        f,
        SerenityEmbedFieldArgs { name: String::new(), value: String::new(), inline: None }
    );
    let g = SerenityEmbedFieldArgs::builder().name("n").value("v").inline(Some(true)).build();
    assert_eq!(
        g,
        SerenityEmbedFieldArgs {
            name: "n".to_string(),
            value: "v".to_string(),
            inline: Some(true),
        }
    );
}
