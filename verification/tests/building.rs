//! Building a message tree, and what the client decides around sending it.

use webhook::client::{compose, delivered, rejection, rejection_from, TransportError};
use webhook::errors::ValidationError;
use webhook::models::{
    resolve_allowed_mention_name, ActionRow, AllowedMention, AllowedMentions, Button,
    ButtonCommonBase, ButtonStyles, Embed, EmbedAuthor, EmbedField, EmbedFooter, EmbedProvider,
    EmbedUrlSource, LinkButton, Message, NonCompositeComponent, NonLinkButtonStyle, PartialEmoji,
    RegularButton, SelectMenu, SelectOption, ToSerializableButton, Webhook,
};

#[test]
fn a_new_message_is_blank() {
    let message = Message::new();
    assert_eq!(message.content, None);
    assert_eq!(message.username, None);
    assert_eq!(message.avatar_url, None);
    assert!(!message.tts);
    assert!(message.embeds.is_empty());
    assert!(message.allow_mentions.is_none());
    assert!(message.action_rows.is_empty());
}

#[test]
fn the_setters_of_a_message_set_one_field_each() {
    let mut message = Message::new();
    message.content("content").username("Thoo").avatar_url("https://example.com/a.png").tts(true);
    assert_eq!(message.content.as_deref(), Some("content"));
    assert_eq!(message.username.as_deref(), Some("Thoo"));
    assert_eq!(message.avatar_url.as_deref(), Some("https://example.com/a.png"));
    assert!(message.tts);
    message.content("again").tts(false);
    assert_eq!(message.content.as_deref(), Some("again"));
    assert_eq!(message.username.as_deref(), Some("Thoo"));
    assert!(!message.tts);
}

#[test]
fn embeds_and_action_rows_keep_their_order() {
    let mut message = Message::new();
    message
        .embed(|embed| embed.title("first"))
        .action_row(|row| row.link_button(|button| button.url("https://one.example")))
        .embed(|embed| embed.title("second"))
        .action_row(|row| row.select_menu(|menu| menu.custom_id("two")));
    assert_eq!(message.embeds.len(), 2);
    assert_eq!(message.embeds[0].title.as_deref(), Some("first"));
    assert_eq!(message.embeds[1].title.as_deref(), Some("second"));
    assert_eq!(message.action_rows.len(), 2);
    assert_eq!(message.action_rows[0].component_type, 1);
    assert!(matches!(message.action_rows[0].components[0], NonCompositeComponent::Button(_)));
    assert!(matches!(message.action_rows[1].components[0], NonCompositeComponent::SelectMenu(_)));
}

#[test]
fn a_new_embed_is_of_the_rich_kind() {
    let embed = Embed::new();
    assert_eq!(embed.embed_type, "rich");
    assert!(embed.title.is_none() && embed.description.is_none() && embed.url.is_none());
    assert!(embed.timestamp.is_none() && embed.color.is_none());
    assert!(embed.footer.is_none() && embed.image.is_none() && embed.video.is_none());
    assert!(embed.thumbnail.is_none() && embed.provider.is_none() && embed.author.is_none());
    assert!(embed.fields.is_empty());
}

#[test]
fn the_setters_of_an_embed_set_one_field_each() {
    let mut embed = Embed::new();
    embed
        .title("title")
        .description("description")
        .url("https://example.com")
        .timestamp("2022-04-13T12:00:00Z")
        .color("15258703")
        .footer("footer", Some("https://example.com/f.png".to_string()))
        .image("https://example.com/i.png")
        .video("https://example.com/v.mp4")
        .thumbnail("https://example.com/t.png")
        .provider("provider", "https://example.com/p")
        .author("author", None, Some("https://example.com/a.png".to_string()))
        .field("name", "value", true)
        .field("other", "more", false);
    assert_eq!(embed.embed_type, "rich");
    assert_eq!(embed.title.as_deref(), Some("title"));
    assert_eq!(embed.description.as_deref(), Some("description"));
    assert_eq!(embed.url.as_deref(), Some("https://example.com"));
    assert_eq!(embed.timestamp.as_deref(), Some("2022-04-13T12:00:00Z"));
    assert_eq!(embed.color.as_deref(), Some("15258703"));
    let footer = embed.footer.as_ref().unwrap();
    assert_eq!(footer.text, "footer");
    assert_eq!(footer.icon_url.as_deref(), Some("https://example.com/f.png"));
    assert_eq!(embed.image.as_ref().unwrap().url, "https://example.com/i.png");
    assert_eq!(embed.video.as_ref().unwrap().url, "https://example.com/v.mp4");
    assert_eq!(embed.thumbnail.as_ref().unwrap().url, "https://example.com/t.png");
    let provider = embed.provider.as_ref().unwrap();
    assert_eq!(provider.name, "provider");
    assert_eq!(provider.url, "https://example.com/p");
    let author = embed.author.as_ref().unwrap();
    assert_eq!(author.name, "author");
    assert_eq!(author.url, None);
    assert_eq!(author.icon_url.as_deref(), Some("https://example.com/a.png"));
    assert_eq!(embed.fields.len(), 2);
    assert_eq!(embed.fields[0].name, "name");
    assert_eq!(embed.fields[0].value, "value");
    assert!(embed.fields[0].inline);
    assert_eq!(embed.fields[1].name, "other");
    assert!(!embed.fields[1].inline);
}

#[test]
fn the_parts_of_an_embed_are_made_of_their_arguments() {
    let field = EmbedField::new("name", "value", true);
    assert_eq!((field.name.as_str(), field.value.as_str(), field.inline), ("name", "value", true));
    let footer = EmbedFooter::new("text", None);
    assert_eq!((footer.text.as_str(), footer.icon_url), ("text", None));
    assert_eq!(EmbedUrlSource::new("https://example.com").url, "https://example.com");
    let provider = EmbedProvider::new("name", "url");
    assert_eq!((provider.name.as_str(), provider.url.as_str()), ("name", "url"));
    let author = EmbedAuthor::new("name", Some("url".to_string()), None);
    assert_eq!(author.name, "name");
    assert_eq!(author.url.as_deref(), Some("url"));
    assert_eq!(author.icon_url, None);
}

#[test]
fn classes_of_mention_are_known_by_their_names() {
    assert_eq!(resolve_allowed_mention_name(AllowedMention::RoleMention), "roles");
    assert_eq!(resolve_allowed_mention_name(AllowedMention::UserMention), "users");
    assert_eq!(resolve_allowed_mention_name(AllowedMention::EveryoneMention), "everyone");
}

#[test]
fn a_mention_policy_lists_its_classes_by_name_in_order() {
    let mentions = AllowedMentions::new(
        Some(vec![
            AllowedMention::EveryoneMention,
            AllowedMention::RoleMention,
            AllowedMention::UserMention,
            AllowedMention::RoleMention,
        ]),
        Some(vec!["1".to_string()]),
        None,
        true,
    );
    assert_eq!(
        mentions.parse,
        Some(vec![
            "everyone".to_string(),
            "roles".to_string(),
            "users".to_string(),
            "roles".to_string()
        ])
    );
    assert_eq!(mentions.roles, Some(vec!["1".to_string()]));
    assert_eq!(mentions.users, None);
    assert!(mentions.replied_user);

    // without classes the list is empty, not absent
    let none = AllowedMentions::new(None, None, Some(vec!["2".to_string()]), false);
    assert_eq!(none.parse, Some(vec![]));
    assert_eq!(none.users, Some(vec!["2".to_string()]));
    assert!(!none.replied_user);

    let mut message = Message::new();
    message.allow_mentions(Some(vec![AllowedMention::UserMention]), None, None, false);
    let policy = message.allow_mentions.as_ref().unwrap();
    assert_eq!(policy.parse, Some(vec!["users".to_string()]));
}

#[test]
fn styles_have_their_wire_codes() {
    assert_eq!(ButtonStyles::Primary.code(), 1);
    assert_eq!(ButtonStyles::Secondary.code(), 2);
    assert_eq!(ButtonStyles::Success.code(), 3);
    assert_eq!(ButtonStyles::Danger.code(), 4);
    assert_eq!(ButtonStyles::Link.code(), 5);
    assert_eq!(NonLinkButtonStyle::Primary.get_button_style().code(), 1);
    assert_eq!(NonLinkButtonStyle::Secondary.get_button_style().code(), 2);
    assert_eq!(NonLinkButtonStyle::Success.get_button_style().code(), 3);
    assert_eq!(NonLinkButtonStyle::Danger.get_button_style().code(), 4);
}

#[test]
fn a_link_button_is_sent_with_the_link_style_and_without_custom_id() {
    let mut button = LinkButton::new();
    button
        .label("Click Me!")
        .url("https://discord.com")
        .emoji("625891304081063986", "mage", false)
        .disabled(true);
    let sent = button.to_serializable_button();
    assert_eq!(sent.component_type, 2);
    assert!(matches!(sent.style, Some(ButtonStyles::Link)));
    assert_eq!(sent.label.as_deref(), Some("Click Me!"));
    assert_eq!(sent.url.as_deref(), Some("https://discord.com"));
    assert_eq!(sent.custom_id, None);
    assert_eq!(sent.disabled, Some(true));
    let emoji = sent.emoji.as_ref().unwrap();
    assert_eq!(emoji.id, "625891304081063986");
    assert_eq!(emoji.name, "mage");
    assert_eq!(emoji.animated, Some(false));

    let blank = LinkButton::new().to_serializable_button();
    assert!(matches!(blank.style, Some(ButtonStyles::Link)));
    assert!(blank.label.is_none() && blank.url.is_none() && blank.emoji.is_none());
    assert!(blank.disabled.is_none());
}

#[test]
fn a_regular_button_is_sent_with_its_style_and_without_url() {
    let mut button = RegularButton::new();
    button
        .style(NonLinkButtonStyle::Success)
        .label("Primary!")
        .emoji("1", "mage", true)
        .custom_id("sadas")
        .disabled(false);
    let sent = button.to_serializable_button();
    assert_eq!(sent.component_type, 2);
    assert!(matches!(sent.style, Some(ButtonStyles::Success)));
    assert_eq!(sent.label.as_deref(), Some("Primary!"));
    assert_eq!(sent.custom_id.as_deref(), Some("sadas"));
    assert_eq!(sent.url, None);
    assert_eq!(sent.disabled, Some(false));
    assert_eq!(sent.emoji.as_ref().unwrap().animated, Some(true));

    let blank = RegularButton::new().to_serializable_button();
    assert!(blank.style.is_none() && blank.custom_id.is_none());
}

#[test]
fn the_parts_of_a_button_are_made_of_their_arguments() {
    let button = Button::new(
        Some(ButtonStyles::Danger),
        Some("label".to_string()),
        None,
        Some("url".to_string()),
        Some("id".to_string()),
        Some(true),
    );
    assert_eq!(button.component_type, 2);
    assert!(matches!(button.style, Some(ButtonStyles::Danger)));
    assert_eq!(button.label.as_deref(), Some("label"));
    assert_eq!(button.url.as_deref(), Some("url"));
    assert_eq!(button.custom_id.as_deref(), Some("id"));
    assert_eq!(button.disabled, Some(true));

    let mut base = ButtonCommonBase::new(None, None, None);
    base.label("text").emoji("7".to_string(), "seven", false).disabled(true);
    assert_eq!(base.label.as_deref(), Some("text"));
    assert_eq!(base.emoji.as_ref().unwrap().id, "7");
    assert_eq!(base.emoji.as_ref().unwrap().name, "seven");
    assert_eq!(base.disabled, Some(true));

    let emoji = PartialEmoji { id: "1".to_string(), name: "n".to_string(), animated: None };
    let copy = emoji.clone();
    assert_eq!((copy.id, copy.name, copy.animated), ("1".to_string(), "n".to_string(), None));
}

#[test]
fn an_action_row_keeps_its_components_in_order() {
    let mut row = ActionRow::new();
    assert_eq!(row.component_type, 1);
    assert!(row.components.is_empty());
    row.regular_button(|button| button.custom_id("a").style(NonLinkButtonStyle::Primary))
        .link_button(|button| button.url("https://discord.com"))
        .select_menu(|menu| menu.custom_id("m"));
    assert_eq!(row.components.len(), 3);
    match &row.components[0] {
        NonCompositeComponent::Button(button) => {
            assert_eq!(button.custom_id.as_deref(), Some("a"));
            assert!(matches!(button.style, Some(ButtonStyles::Primary)));
        }
        NonCompositeComponent::SelectMenu(_) => panic!("a button was added first"),
    }
    match &row.components[1] {
        NonCompositeComponent::Button(button) => {
            assert_eq!(button.url.as_deref(), Some("https://discord.com"));
            assert!(matches!(button.style, Some(ButtonStyles::Link)));
        }
        NonCompositeComponent::SelectMenu(_) => panic!("a button was added second"),
    }
    match &row.components[2] {
        NonCompositeComponent::SelectMenu(menu) => {
            assert_eq!(menu.component_type, 3);
            assert_eq!(menu.custom_id.as_deref(), Some("m"));
        }
        NonCompositeComponent::Button(_) => panic!("a select menu was added third"),
    }
}

#[test]
fn the_setters_of_a_select_menu_set_one_field_each() {
    let mut menu = SelectMenu::new(None, None, None, None, None);
    assert_eq!(menu.component_type, 3);
    assert!(menu.options.is_empty());
    menu.custom_id("qweqw")
        .placeholder("The placeholder is here!")
        .min_values(2)
        .max_values(3)
        .disabled(true)
        .option(|option| option.label("s").value("v").description("x"))
        .option(|option| {
            option
                .label("The second option!")
                .description("")
                .value("secondsecond")
                .emoji("625891304081063986", "mage", false)
                .default(true)
        });
    assert_eq!(menu.custom_id.as_deref(), Some("qweqw"));
    assert_eq!(menu.placeholder.as_deref(), Some("The placeholder is here!"));
    assert_eq!(menu.min_values, Some(2));
    assert_eq!(menu.max_values, Some(3));
    assert_eq!(menu.disabled, Some(true));
    assert_eq!(menu.options.len(), 2);
    assert_eq!(menu.options[0].label.as_deref(), Some("s"));
    assert_eq!(menu.options[0].value.as_deref(), Some("v"));
    assert_eq!(menu.options[0].description.as_deref(), Some("x"));
    assert!(menu.options[0].emoji.is_none());
    assert_eq!(menu.options[0].default, None);
    assert_eq!(menu.options[1].label.as_deref(), Some("The second option!"));
    assert_eq!(menu.options[1].description.as_deref(), Some(""));
    assert_eq!(menu.options[1].emoji.as_ref().unwrap().name, "mage");
    assert_eq!(menu.options[1].default, Some(true));

    let made = SelectMenu::new(
        Some("id".to_string()),
        Some("placeholder".to_string()),
        Some(1),
        Some(2),
        Some(false),
    );
    assert_eq!(made.custom_id.as_deref(), Some("id"));
    assert_eq!(made.placeholder.as_deref(), Some("placeholder"));
    assert_eq!((made.min_values, made.max_values, made.disabled), (Some(1), Some(2), Some(false)));

    let option = SelectOption::new(Some("l".to_string()), None, None, None, Some(false));
    assert_eq!(option.label.as_deref(), Some("l"));
    assert_eq!(option.value, None);
    assert_eq!(option.default, Some(false));
}

#[test]
fn a_webhook_descriptor_holds_what_the_platform_says() {
    let webhook = Webhook {
        id: "963913776023896084".to_string(),
        webhook_type: 1,
        guild_id: "1".to_string(),
        channel_id: "2".to_string(),
        name: Some("hook".to_string()),
        avatar: None,
        token: "t".to_string(),
        application_id: None,
    };
    assert_eq!(webhook.webhook_type, 1);
    assert_eq!(webhook.name.as_deref(), Some("hook"));
}

#[test]
fn compose_hands_out_only_what_passed() {
    let message = compose(|message| {
        message.username("Thoo").action_row(|row| {
            row.regular_button(|button| {
                button.style(NonLinkButtonStyle::Primary).label("Primary!").custom_id("sadas")
            })
            .regular_button(|button| {
                button.style(NonLinkButtonStyle::Secondary).label("Secondary!").custom_id("id_1")
            })
            .link_button(|button| button.label("Click Me!").url("https://discord.com"))
        })
    })
    .unwrap();
    assert_eq!(message.username.as_deref(), Some("Thoo"));
    assert_eq!(message.action_rows[0].components.len(), 3);

    let refused = compose(|message| message.action_row(|row| row));
    assert_eq!(refused.unwrap_err(), ValidationError::EmptyRow);
}

#[test]
fn a_message_is_validated_in_a_pass_of_its_own() {
    let build = |message: &mut Message| -> () {
        message.action_row(|row| {
            row.regular_button(|button| button.style(NonLinkButtonStyle::Primary).custom_id("a"))
        });
    };
    // the same custom id in two messages is no duplicate
    assert!(compose(|message| {
        build(message);
        message
    })
    .is_ok());
    assert!(compose(|message| {
        build(message);
        message
    })
    .is_ok());
}

#[test]
fn only_no_content_means_delivered() {
    assert!(delivered(204));
    assert!(!delivered(200));
    assert!(!delivered(201));
    assert!(!delivered(400));
    assert!(!delivered(404));
    assert!(!delivered(429));
    assert!(!delivered(500));
    assert!(!delivered(0));
}

#[test]
fn a_rejection_carries_the_body_as_text() {
    let body = "{\"message\": \"Cannot send an empty message\", \"code\": 50006}";
    assert_eq!(
        rejection(body.as_bytes().to_vec()),
        TransportError::RejectedByServer(body.to_string())
    );
    assert_eq!(rejection(Vec::new()), TransportError::RejectedByServer(String::new()));
    assert_eq!(
        rejection("caf\u{e9} \u{4e16}\u{754c}".as_bytes().to_vec()),
        TransportError::RejectedByServer("caf\u{e9} \u{4e16}\u{754c}".to_string())
    );
}

#[test]
fn a_body_that_is_not_text_is_reported_as_unreadable() {
    let bytes = vec![b'o', b'k', 0xff, 0xfe];
    let reason = String::from_utf8(bytes.clone()).unwrap_err().to_string();
    match rejection(bytes) {
        TransportError::RejectedByServer(detail) => {
            assert_eq!(
                detail,
                format!("Error reading Discord API error message:{}", reason)
            );
            assert!(detail.contains("utf-8"));
        }
        TransportError::TransmissionFailure(_) => panic!("a response is no transmission failure"),
    }
}

#[test]
fn a_rejection_is_made_of_what_reading_the_body_gave() {
    assert_eq!(
        rejection_from(Ok("Unknown Webhook".to_string())),
        TransportError::RejectedByServer("Unknown Webhook".to_string())
    );
    assert_eq!(
        rejection_from(Err("invalid utf-8 sequence".to_string())),
        TransportError::RejectedByServer(
            "Error reading Discord API error message:invalid utf-8 sequence".to_string()
        )
    );
}
