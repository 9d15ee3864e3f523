//! The message tree: a message, its embeds, and its action rows with their
//! buttons and select menus.

use vstd::prelude::*;
use crate::interval::Interval;

verus! {

/// An identifier issued by the platform, carried as plain text.
pub type Snowflake = String;

/// The identity and metadata of a webhook, as the platform describes it.
#[derive(Debug)]
pub struct Webhook {
    pub id: Snowflake,
    pub webhook_type: i8,
    pub guild_id: Snowflake,
    pub channel_id: Snowflake,
    pub name: Option<String>,
    pub avatar: Option<String>,
    pub token: String,
    pub application_id: Option<Snowflake>,
}

/// The root of the tree. Embeds keep the order in which they were added;
/// action rows are displayed top to bottom in theirs.
#[derive(Debug)]
pub struct Message {
    pub content: Option<String>,
    pub username: Option<String>,
    pub avatar_url: Option<String>,
    pub tts: bool,
    pub embeds: Vec<Embed>,
    pub allow_mentions: Option<AllowedMentions>,
    pub action_rows: Vec<ActionRow>,
}

/// A richly formatted block of content attached to a message.
#[derive(Debug)]
pub struct Embed {
    pub title: Option<String>,
    pub embed_type: String,
    pub description: Option<String>,
    pub url: Option<String>,
    /// ISO 8601.
    pub timestamp: Option<String>,
    pub color: Option<String>,
    pub footer: Option<EmbedFooter>,
    pub image: Option<EmbedImage>,
    pub video: Option<EmbedVideo>,
    pub thumbnail: Option<EmbedThumbnail>,
    pub provider: Option<EmbedProvider>,
    pub author: Option<EmbedAuthor>,
    pub fields: Vec<EmbedField>,
}

#[derive(Debug)]
pub struct EmbedField {
    pub name: String,
    pub value: String,
    pub inline: bool,
}

#[derive(Debug)]
pub struct EmbedFooter {
    pub text: String,
    pub icon_url: Option<String>,
}

pub type EmbedImage = EmbedUrlSource;

pub type EmbedThumbnail = EmbedUrlSource;

pub type EmbedVideo = EmbedUrlSource;

#[derive(Debug)]
pub struct EmbedUrlSource {
    pub url: String,
}

#[derive(Debug)]
pub struct EmbedProvider {
    pub name: String,
    pub url: String,
}

#[derive(Debug)]
pub struct EmbedAuthor {
    pub name: String,
    pub url: Option<String>,
    pub icon_url: Option<String>,
}

/// A class of mention that a message is allowed to trigger.
#[derive(Clone, Copy, Debug)]
pub enum AllowedMention {
    RoleMention,
    UserMention,
    EveryoneMention,
}

/// The mention policy of a message.
#[derive(Debug)]
pub struct AllowedMentions {
    pub parse: Option<Vec<String>>,
    pub roles: Option<Vec<Snowflake>>,
    pub users: Option<Vec<Snowflake>>,
    pub replied_user: bool,
}

/// What an action row can hold. An action row itself is not among them.
#[derive(Debug)]
pub enum NonCompositeComponent {
    Button(Button),
    SelectMenu(SelectMenu),
}

/// A horizontal group of components, displayed as one line.
#[derive(Debug)]
pub struct ActionRow {
    pub component_type: u8,
    pub components: Vec<NonCompositeComponent>,
}

/// The styles that a button other than a link can take.
#[derive(Clone, Copy, Debug)]
pub enum NonLinkButtonStyle {
    Primary,
    Secondary,
    Success,
    Danger,
}

/// Every style a button can be sent with. Link buttons are made through
/// [`ActionRow::link_button`], which sets `Link` itself.
#[derive(Clone, Copy, Debug)]
pub enum ButtonStyles {
    Primary,
    Secondary,
    Success,
    Danger,
    Link,
}

/// A reference to an emoji.
#[derive(Debug)]
pub struct PartialEmoji {
    pub id: Snowflake,
    pub name: String,
    pub animated: Option<bool>,
}

/// A button in the shape in which it is sent.
#[derive(Debug)]
pub struct Button {
    pub component_type: i8,
    pub style: Option<ButtonStyles>,
    pub label: Option<String>,
    pub emoji: Option<PartialEmoji>,
    pub custom_id: Option<String>,
    pub url: Option<String>,
    pub disabled: Option<bool>,
}

/// What link buttons and regular buttons have in common.
#[derive(Debug)]
pub struct ButtonCommonBase {
    pub label: Option<String>,
    pub emoji: Option<PartialEmoji>,
    pub disabled: Option<bool>,
}

/// A button that opens a URL.
#[derive(Debug)]
pub struct LinkButton {
    pub button_base: ButtonCommonBase,
    pub url: Option<String>,
}

/// A button that reports an interaction under its custom id.
#[derive(Debug)]
pub struct RegularButton {
    pub button_base: ButtonCommonBase,
    pub custom_id: Option<String>,
    pub style: Option<NonLinkButtonStyle>,
}

/// A drop-down list of options.
#[derive(Debug)]
pub struct SelectMenu {
    pub component_type: i8,
    pub custom_id: Option<String>,
    pub options: Vec<SelectOption>,
    pub placeholder: Option<String>,
    pub min_values: Option<u8>,
    pub max_values: Option<u8>,
    pub disabled: Option<bool>,
}

/// One entry of a select menu.
#[derive(Debug)]
pub struct SelectOption {
    pub label: Option<String>,
    pub value: Option<String>,
    pub description: Option<String>,
    pub emoji: Option<PartialEmoji>,
    pub default: Option<bool>,
}

impl Clone for PartialEmoji {
    fn clone(&self) -> (copy: Self)
        ensures
            copy == *self,
    {
        PartialEmoji { id: self.id.clone(), name: self.name.clone(), animated: self.animated }
    }
}

impl Message {
    /// A message as [`Message::new`] makes it: nothing set, nothing attached.
    pub open spec fn is_new(&self) -> bool {
        &&& self.content is None
        &&& self.username is None
        &&& self.avatar_url is None
        &&& !self.tts
        &&& self.embeds@.len() == 0
        &&& self.allow_mentions is None
        &&& self.action_rows@.len() == 0
    }

    pub fn new() -> (message: Self)
        ensures
            message.is_new(),
    {
        Self {
            content: None,
            username: None,
            avatar_url: None,
            tts: false,
            embeds: Vec::new(),
            allow_mentions: None,
            action_rows: Vec::new(),
        }
    }

    /// Sets the text of the message.
    pub fn content(&mut self, content: &str) -> (ret: &mut Self)
        ensures
            *final(self) == *final(ret),
            ret.content matches Some(text) && text@ == content@,
            *ret == (Message { content: ret.content, ..*old(self) }),
    {
        self.content = Some(content.to_string());
        self
    }

    /// Sets the name under which the message is shown.
    pub fn username(&mut self, username: &str) -> (ret: &mut Self)
        ensures
            *final(self) == *final(ret),
            ret.username matches Some(text) && text@ == username@,
            *ret == (Message { username: ret.username, ..*old(self) }),
    {
        self.username = Some(username.to_string());
        self
    }

    /// Sets the avatar under which the message is shown.
    pub fn avatar_url(&mut self, avatar_url: &str) -> (ret: &mut Self)
        ensures
            *final(self) == *final(ret),
            ret.avatar_url matches Some(text) && text@ == avatar_url@,
            *ret == (Message { avatar_url: ret.avatar_url, ..*old(self) }),
    {
        self.avatar_url = Some(avatar_url.to_string());
        self
    }

    /// Says whether the message is read out.
    pub fn tts(&mut self, tts: bool) -> (ret: &mut Self)
        ensures
            *final(self) == *final(ret),
            *ret == (Message { tts, ..*old(self) }),
    {
        self.tts = tts;
        self
    }

    /// Appends the embed that `func` makes of a new one.
    pub fn embed<Func>(&mut self, func: Func) -> (ret: &mut Self) where
        Func: Fn(&mut Embed) -> &mut Embed,

        requires
            forall|given: &mut Embed| given.is_new() ==> call_requires(func, (given,)),
        ensures
            *final(self) == *final(ret),
            *ret == (Message { embeds: ret.embeds, ..*old(self) }),
            exists|given: &mut Embed, handed_back: &mut Embed|
                {
                    &&& given.is_new()
                    &&& #[trigger] call_ensures(func, (given,), handed_back)
                    &&& *final(handed_back) == *handed_back
                    &&& ret.embeds@ == old(self).embeds@.push(*final(given))
                },
    {
        let mut embed = Embed::new();
        func(&mut embed);
        self.embeds.push(embed);

        self
    }

    /// Appends the action row that `func` makes of a new one.
    pub fn action_row<Func>(&mut self, func: Func) -> (ret: &mut Self) where
        Func: Fn(&mut ActionRow) -> &mut ActionRow,

        requires
            forall|given: &mut ActionRow| given.is_new() ==> call_requires(func, (given,)),
        ensures
            *final(self) == *final(ret),
            *ret == (Message { action_rows: ret.action_rows, ..*old(self) }),
            exists|given: &mut ActionRow, handed_back: &mut ActionRow|
                {
                    &&& given.is_new()
                    &&& #[trigger] call_ensures(func, (given,), handed_back)
                    &&& *final(handed_back) == *handed_back
                    &&& ret.action_rows@ == old(self).action_rows@.push(*final(given))
                },
    {
        let mut row = ActionRow::new();
        func(&mut row);
        self.action_rows.push(row);

        self
    }

    /// Sets the mention policy, as [`AllowedMentions::new`] makes it.
    pub fn allow_mentions(
        &mut self,
        parse: Option<Vec<AllowedMention>>,
        roles: Option<Vec<Snowflake>>,
        users: Option<Vec<Snowflake>>,
        replied_user: bool,
    ) -> (ret: &mut Self)
        ensures
            *final(self) == *final(ret),
            *ret == (Message { allow_mentions: ret.allow_mentions, ..*old(self) }),
            ret.allow_mentions matches Some(mentions) && mentions.made_of(
                parse,
                roles,
                users,
                replied_user,
            ),
    {
        self.allow_mentions = Some(AllowedMentions::new(parse, roles, users, replied_user));
        self
    }

    /// How many action rows a message may hold.
    pub open spec fn action_row_count_limit() -> Interval<usize> {
        Interval { min_allowed: 0, max_allowed: 5 }
    }

    #[verifier::when_used_as_spec(action_row_count_limit)]
    pub fn action_row_count_interval() -> (interval: Interval<usize>)
        ensures
            interval == Self::action_row_count_limit(),
    {
        Interval::from_min_max(0, 5)
    }

    /// How many characters the label of a button may have.
    pub open spec fn label_len_limit() -> Interval<usize> {
        Interval { min_allowed: 0, max_allowed: 80 }
    }

    #[verifier::when_used_as_spec(label_len_limit)]
    pub fn label_len_interval() -> (interval: Interval<usize>)
        ensures
            interval == Self::label_len_limit(),
    {
        Interval::from_min_max(0, 80)
    }

    /// How many characters a custom id may have.
    pub open spec fn custom_id_len_limit() -> Interval<usize> {
        Interval { min_allowed: 1, max_allowed: 100 }
    }

    #[verifier::when_used_as_spec(custom_id_len_limit)]
    pub fn custom_id_len_interval() -> (interval: Interval<usize>)
        ensures
            interval == Self::custom_id_len_limit(),
    {
        Interval::from_min_max(1, 100)
    }
}

impl Embed {
    /// An embed as [`Embed::new`] makes it: of the rich kind, nothing set.
    pub open spec fn is_new(&self) -> bool {
        &&& self.title is None
        &&& self.embed_type@ == "rich"@
        &&& self.description is None
        &&& self.url is None
        &&& self.timestamp is None
        &&& self.color is None
        &&& self.footer is None
        &&& self.image is None
        &&& self.video is None
        &&& self.thumbnail is None
        &&& self.provider is None
        &&& self.author is None
        &&& self.fields@.len() == 0
    }

    pub fn new() -> (embed: Self)
        ensures
            embed.is_new(),
    {
        Self {
            title: None,
            embed_type: "rich".to_string(),
            description: None,
            url: None,
            timestamp: None,
            color: None,
            footer: None,
            image: None,
            video: None,
            thumbnail: None,
            provider: None,
            author: None,
            fields: Vec::new(),
        }
    }

    /// Sets the title.
    pub fn title(&mut self, title: &str) -> (ret: &mut Self)
        ensures
            *final(self) == *final(ret),
            ret.title matches Some(text) && text@ == title@,
            *ret == (Embed { title: ret.title, ..*old(self) }),
    {
        self.title = Some(title.to_string());
        self
    }

    /// Sets the description.
    pub fn description(&mut self, description: &str) -> (ret: &mut Self)
        ensures
            *final(self) == *final(ret),
            ret.description matches Some(text) && text@ == description@,
            *ret == (Embed { description: ret.description, ..*old(self) }),
    {
        self.description = Some(description.to_string());
        self
    }

    /// Sets the URL that the title links to.
    pub fn url(&mut self, url: &str) -> (ret: &mut Self)
        ensures
            *final(self) == *final(ret),
            ret.url matches Some(text) && text@ == url@,
            *ret == (Embed { url: ret.url, ..*old(self) }),
    {
        self.url = Some(url.to_string());
        self
    }

    /// Sets the timestamp, in ISO 8601.
    pub fn timestamp(&mut self, timestamp: &str) -> (ret: &mut Self)
        ensures
            *final(self) == *final(ret),
            ret.timestamp matches Some(text) && text@ == timestamp@,
            *ret == (Embed { timestamp: ret.timestamp, ..*old(self) }),
    {
        self.timestamp = Some(timestamp.to_string());
        self
    }

    /// Sets the colour.
    pub fn color(&mut self, color: &str) -> (ret: &mut Self)
        ensures
            *final(self) == *final(ret),
            ret.color matches Some(text) && text@ == color@,
            *ret == (Embed { color: ret.color, ..*old(self) }),
    {
        self.color = Some(color.to_string());
        self
    }

    /// Sets the footer.
    pub fn footer(&mut self, text: &str, icon_url: Option<String>) -> (ret: &mut Self)
        ensures
            *final(self) == *final(ret),
            ret.footer matches Some(footer) && footer.text@ == text@ && footer.icon_url
                == icon_url,
            *ret == (Embed { footer: ret.footer, ..*old(self) }),
    {
        self.footer = Some(EmbedFooter::new(text, icon_url));
        self
    }

    /// Sets the image.
    pub fn image(&mut self, url: &str) -> (ret: &mut Self)
        ensures
            *final(self) == *final(ret),
            ret.image matches Some(image) && image.url@ == url@,
            *ret == (Embed { image: ret.image, ..*old(self) }),
    {
        self.image = Some(EmbedImage::new(url));
        self
    }

    /// Sets the video.
    pub fn video(&mut self, url: &str) -> (ret: &mut Self)
        ensures
            *final(self) == *final(ret),
            ret.video matches Some(video) && video.url@ == url@,
            *ret == (Embed { video: ret.video, ..*old(self) }),
    {
        self.video = Some(EmbedVideo::new(url));
        self
    }

    /// Sets the thumbnail.
    pub fn thumbnail(&mut self, url: &str) -> (ret: &mut Self)
        ensures
            *final(self) == *final(ret),
            ret.thumbnail matches Some(thumbnail) && thumbnail.url@ == url@,
            *ret == (Embed { thumbnail: ret.thumbnail, ..*old(self) }),
    {
        self.thumbnail = Some(EmbedThumbnail::new(url));
        self
    }

    /// Sets the provider.
    pub fn provider(&mut self, name: &str, url: &str) -> (ret: &mut Self)
        ensures
            *final(self) == *final(ret),
            ret.provider matches Some(provider) && provider.name@ == name@ && provider.url@
                == url@,
            *ret == (Embed { provider: ret.provider, ..*old(self) }),
    {
        self.provider = Some(EmbedProvider::new(name, url));
        self
    }

    /// Sets the author.
    pub fn author(&mut self, name: &str, url: Option<String>, icon_url: Option<String>) -> (ret:
        &mut Self)
        ensures
            *final(self) == *final(ret),
            ret.author matches Some(author) && author.name@ == name@ && author.url == url
                && author.icon_url == icon_url,
            *ret == (Embed { author: ret.author, ..*old(self) }),
    {
        self.author = Some(EmbedAuthor::new(name, url, icon_url));
        self
    }

    /// Appends a field. An embed that already holds as many fields as an
    /// embed may hold takes no further one.
    pub fn field(&mut self, name: &str, value: &str, inline: bool) -> (ret: &mut Self)
        requires
            old(self).fields@.len() != Embed::field_count_limit().max_allowed,
        ensures
            *final(self) == *final(ret),
            ret.fields@.len() == old(self).fields@.len() + 1,
            ret.fields@.drop_last() == old(self).fields@,
            ret.fields@.last().name@ == name@,
            ret.fields@.last().value@ == value@,
            ret.fields@.last().inline == inline,
            *ret == (Embed { fields: ret.fields, ..*old(self) }),
    {
        self.fields.push(EmbedField::new(name, value, inline));
        assert(self.fields@.drop_last() =~= old(self).fields@);
        self
    }

    /// How many characters the title of an embed may have.
    pub open spec fn title_len_limit() -> Interval<usize> {
        Interval { min_allowed: 0, max_allowed: 256 }
    }

    #[verifier::when_used_as_spec(title_len_limit)]
    pub fn title_len_interval() -> (interval: Interval<usize>)
        ensures
            interval == Self::title_len_limit(),
    {
        Interval::from_min_max(0, 256)
    }

    /// How many characters the description of an embed may have.
    pub open spec fn description_len_limit() -> Interval<usize> {
        Interval { min_allowed: 0, max_allowed: 4096 }
    }

    #[verifier::when_used_as_spec(description_len_limit)]
    pub fn description_len_interval() -> (interval: Interval<usize>)
        ensures
            interval == Self::description_len_limit(),
    {
        Interval::from_min_max(0, 4096)
    }

    /// How many fields an embed may hold.
    pub open spec fn field_count_limit() -> Interval<usize> {
        Interval { min_allowed: 0, max_allowed: 25 }
    }

    #[verifier::when_used_as_spec(field_count_limit)]
    pub fn field_count_interval() -> (interval: Interval<usize>)
        ensures
            interval == Self::field_count_limit(),
    {
        Interval::from_min_max(0, 25)
    }
}

impl EmbedField {
    pub fn new(name: &str, value: &str, inline: bool) -> (field: Self)
        ensures
            field.name@ == name@,
            field.value@ == value@,
            field.inline == inline,
    {
        Self { name: name.to_owned(), value: value.to_owned(), inline }
    }

    /// How many characters the name of a field may have: at least one.
    pub open spec fn name_len_limit() -> Interval<usize> {
        Interval { min_allowed: 1, max_allowed: 256 }
    }

    #[verifier::when_used_as_spec(name_len_limit)]
    pub fn name_len_interval() -> (interval: Interval<usize>)
        ensures
            interval == Self::name_len_limit(),
    {
        Interval::from_min_max(1, 256)
    }

    /// How many characters the value of a field may have: at least one.
    pub open spec fn value_len_limit() -> Interval<usize> {
        Interval { min_allowed: 1, max_allowed: 1024 }
    }

    #[verifier::when_used_as_spec(value_len_limit)]
    pub fn value_len_interval() -> (interval: Interval<usize>)
        ensures
            interval == Self::value_len_limit(),
    {
        Interval::from_min_max(1, 1024)
    }
}

impl EmbedFooter {
    pub fn new(text: &str, icon_url: Option<String>) -> (footer: Self)
        ensures
            footer.text@ == text@,
            footer.icon_url == icon_url,
    {
        Self { text: text.to_owned(), icon_url }
    }
}

impl EmbedUrlSource {
    pub fn new(url: &str) -> (source: Self)
        ensures
            source.url@ == url@,
    {
        Self { url: url.to_owned() }
    }
}

impl EmbedProvider {
    pub fn new(name: &str, url: &str) -> (provider: Self)
        ensures
            provider.name@ == name@,
            provider.url@ == url@,
    {
        Self { name: name.to_owned(), url: url.to_owned() }
    }
}

impl EmbedAuthor {
    pub fn new(name: &str, url: Option<String>, icon_url: Option<String>) -> (author: Self)
        ensures
            author.name@ == name@,
            author.url == url,
            author.icon_url == icon_url,
    {
        Self { name: name.to_owned(), url, icon_url }
    }
}

/// The word by which the platform knows a class of mention.
pub open spec fn allowed_mention_name(allowed_mention: AllowedMention) -> Seq<char> {
    match allowed_mention {
        AllowedMention::RoleMention => "roles"@,
        AllowedMention::UserMention => "users"@,
        AllowedMention::EveryoneMention => "everyone"@,
    }
}

pub fn resolve_allowed_mention_name(allowed_mention: AllowedMention) -> (name: String)
    ensures
        name@ == allowed_mention_name(allowed_mention),
{
    match allowed_mention {
        AllowedMention::RoleMention => "roles".to_string(),
        AllowedMention::UserMention => "users".to_string(),
        AllowedMention::EveryoneMention => "everyone".to_string(),
    }
}

impl AllowedMentions {
    /// The policy that [`AllowedMentions::new`] makes of its arguments: the
    /// classes of mention by their names, in the order given, and an empty
    /// list where none is given; the rest as it is.
    pub open spec fn made_of(
        &self,
        parse: Option<Vec<AllowedMention>>,
        roles: Option<Vec<Snowflake>>,
        users: Option<Vec<Snowflake>>,
        replied_user: bool,
    ) -> bool {
        &&& self.parse matches Some(names) && match parse {
            None => names@.len() == 0,
            Some(classes) => {
                &&& names@.len() == classes@.len()
                &&& forall|i: int|
                    0 <= i < classes@.len() ==> (#[trigger] names@[i])@ == allowed_mention_name(
                        classes@[i],
                    )
            },
        }
        &&& self.roles == roles
        &&& self.users == users
        &&& self.replied_user == replied_user
    }

    pub fn new(
        parse: Option<Vec<AllowedMention>>,
        roles: Option<Vec<Snowflake>>,
        users: Option<Vec<Snowflake>>,
        replied_user: bool,
    ) -> (mentions: Self)
        ensures
            mentions.made_of(parse, roles, users, replied_user),
    {
        let mut parse_strings: Vec<String> = Vec::new();
        if let Some(classes) = &parse {
            let mut i: usize = 0;
            while i < classes.len()
                invariant
                    i <= classes@.len(),
                    parse_strings@.len() == i,
                    forall|k: int|
                        0 <= k < i ==> (#[trigger] parse_strings@[k])@ == allowed_mention_name(
                            classes@[k],
                        ),
                decreases classes@.len() - i,
            {
                parse_strings.push(resolve_allowed_mention_name(classes[i]));
                i += 1;
            }
        }
        Self { parse: Some(parse_strings), roles, users, replied_user }
    }
}

impl NonLinkButtonStyle {
    /// The same style among all the styles of a button.
    pub open spec fn button_style(&self) -> ButtonStyles {
        match *self {
            NonLinkButtonStyle::Primary => ButtonStyles::Primary,
            NonLinkButtonStyle::Secondary => ButtonStyles::Secondary,
            NonLinkButtonStyle::Success => ButtonStyles::Success,
            NonLinkButtonStyle::Danger => ButtonStyles::Danger,
        }
    }

    #[verifier::when_used_as_spec(button_style)]
    pub fn get_button_style(&self) -> (style: ButtonStyles)
        ensures
            style == self.button_style(),
    {
        match *self {
            NonLinkButtonStyle::Primary => ButtonStyles::Primary,
            NonLinkButtonStyle::Secondary => ButtonStyles::Secondary,
            NonLinkButtonStyle::Success => ButtonStyles::Success,
            NonLinkButtonStyle::Danger => ButtonStyles::Danger,
        }
    }
}

impl ButtonStyles {
    /// The number that stands for the style on the wire.
    pub open spec fn wire_code(&self) -> i32 {
        match *self {
            ButtonStyles::Primary => 1,
            ButtonStyles::Secondary => 2,
            ButtonStyles::Success => 3,
            ButtonStyles::Danger => 4,
            ButtonStyles::Link => 5,
        }
    }

    #[verifier::when_used_as_spec(wire_code)]
    pub fn code(&self) -> (code: i32)
        ensures
            code == self.wire_code(),
    {
        match *self {
            ButtonStyles::Primary => 1,
            ButtonStyles::Secondary => 2,
            ButtonStyles::Success => 3,
            ButtonStyles::Danger => 4,
            ButtonStyles::Link => 5,
        }
    }
}

impl PartialEmoji {
    /// The emoji has this id and this name, and says whether it is animated.
    pub open spec fn names(&self, id: Seq<char>, name: Seq<char>, animated: bool) -> bool {
        &&& self.id@ == id
        &&& self.name@ == name
        &&& self.animated == Some(animated)
    }
}

fn copy_of_text(text: &Option<String>) -> (copy: Option<String>)
    ensures
        copy == *text,
{
    match text {
        Some(text) => Some(text.clone()),
        None => None,
    }
}

fn copy_of_emoji(emoji: &Option<PartialEmoji>) -> (copy: Option<PartialEmoji>)
    ensures
        copy == *emoji,
{
    match emoji {
        Some(emoji) => Some(emoji.clone()),
        None => None,
    }
}

impl Button {
    pub fn new(
        style: Option<ButtonStyles>,
        label: Option<String>,
        emoji: Option<PartialEmoji>,
        url: Option<String>,
        custom_id: Option<String>,
        disabled: Option<bool>,
    ) -> (button: Self)
        ensures
            button == (Button {
                component_type: 2,
                style,
                label,
                emoji,
                url,
                custom_id,
                disabled,
            }),
    {
        Self { component_type: 2, style, label, emoji, url, custom_id, disabled }
    }
}

impl ButtonCommonBase {
    pub fn new(label: Option<String>, emoji: Option<PartialEmoji>, disabled: Option<bool>) -> (base:
        Self)
        ensures
            base == (ButtonCommonBase { label, emoji, disabled }),
    {
        ButtonCommonBase { label, emoji, disabled }
    }

    /// Sets the text shown on the button.
    pub fn label(&mut self, label: &str) -> (ret: &mut Self)
        ensures
            *final(self) == *final(ret),
            ret.label matches Some(text) && text@ == label@,
            *ret == (ButtonCommonBase { label: ret.label, ..*old(self) }),
    {
        self.label = Some(label.to_string());
        self
    }

    /// Sets the emoji shown on the button.
    pub fn emoji(&mut self, emoji_id: Snowflake, name: &str, animated: bool) -> (ret: &mut Self)
        ensures
            *final(self) == *final(ret),
            ret.emoji matches Some(emoji) && emoji.names(emoji_id@, name@, animated),
            *ret == (ButtonCommonBase { emoji: ret.emoji, ..*old(self) }),
    {
        self.emoji = Some(
            PartialEmoji { id: emoji_id, name: name.to_string(), animated: Some(animated) },
        );
        self
    }

    /// Says whether the button is disabled.
    pub fn disabled(&mut self, disabled: bool) -> (ret: &mut Self)
        ensures
            *final(self) == *final(ret),
            *ret == (ButtonCommonBase { disabled: Some(disabled), ..*old(self) }),
    {
        self.disabled = Some(disabled);
        self
    }
}

/// A button that can be put into the shape in which it is sent.
pub trait ToSerializableButton {
    /// The button in the shape in which it is sent.
    spec fn serializable(&self) -> Button;

    fn to_serializable_button(&self) -> (button: Button)
        ensures
            button == self.serializable(),
    ;
}

impl LinkButton {
    /// A link button as [`LinkButton::new`] makes it: nothing set.
    pub open spec fn is_new(&self) -> bool {
        &&& self.button_base.label is None
        &&& self.button_base.emoji is None
        &&& self.button_base.disabled is None
        &&& self.url is None
    }

    pub fn new() -> (button: Self)
        ensures
            button.is_new(),
    {
        LinkButton { button_base: ButtonCommonBase::new(None, None, None), url: None }
    }

    /// Sets the URL that the button opens.
    pub fn url(&mut self, url: &str) -> (ret: &mut Self)
        ensures
            *final(self) == *final(ret),
            ret.url matches Some(text) && text@ == url@,
            *ret == (LinkButton { url: ret.url, ..*old(self) }),
    {
        self.url = Some(url.to_string());
        self
    }

    /// Sets the emoji shown on the button.
    pub fn emoji(&mut self, emoji_id: &str, name: &str, animated: bool) -> (ret: &mut Self)
        ensures
            *final(self) == *final(ret),
            ret.button_base.emoji matches Some(emoji) && emoji.names(emoji_id@, name@, animated),
            ret.button_base == (ButtonCommonBase {
                emoji: ret.button_base.emoji,
                ..old(self).button_base
            }),
            *ret == (LinkButton { button_base: ret.button_base, ..*old(self) }),
    {
        self.button_base.emoji(emoji_id.to_string(), name, animated);
        self
    }

    /// Says whether the button is disabled.
    pub fn disabled(&mut self, disabled: bool) -> (ret: &mut Self)
        ensures
            *final(self) == *final(ret),
            ret.button_base == (ButtonCommonBase {
                disabled: Some(disabled),
                ..old(self).button_base
            }),
            *ret == (LinkButton { button_base: ret.button_base, ..*old(self) }),
    {
        self.button_base.disabled(disabled);
        self
    }

    /// Sets the text shown on the button.
    pub fn label(&mut self, label: &str) -> (ret: &mut Self)
        ensures
            *final(self) == *final(ret),
            ret.button_base.label matches Some(text) && text@ == label@,
            ret.button_base == (ButtonCommonBase {
                label: ret.button_base.label,
                ..old(self).button_base
            }),
            *ret == (LinkButton { button_base: ret.button_base, ..*old(self) }),
    {
        self.button_base.label(label);
        self
    }
}

impl RegularButton {
    /// A regular button as [`RegularButton::new`] makes it: nothing set.
    pub open spec fn is_new(&self) -> bool {
        &&& self.button_base.label is None
        &&& self.button_base.emoji is None
        &&& self.button_base.disabled is None
        &&& self.custom_id is None
        &&& self.style is None
    }

    pub fn new() -> (button: Self)
        ensures
            button.is_new(),
    {
        RegularButton {
            button_base: ButtonCommonBase::new(None, None, None),
            custom_id: None,
            style: None,
        }
    }

    /// Sets the custom id under which interactions are reported.
    pub fn custom_id(&mut self, custom_id: &str) -> (ret: &mut Self)
        ensures
            *final(self) == *final(ret),
            ret.custom_id matches Some(text) && text@ == custom_id@,
            *ret == (RegularButton { custom_id: ret.custom_id, ..*old(self) }),
    {
        self.custom_id = Some(custom_id.to_string());
        self
    }

    /// Sets the style.
    pub fn style(&mut self, style: NonLinkButtonStyle) -> (ret: &mut Self)
        ensures
            *final(self) == *final(ret),
            *ret == (RegularButton { style: Some(style), ..*old(self) }),
    {
        self.style = Some(style);
        self
    }

    /// Sets the emoji shown on the button.
    pub fn emoji(&mut self, emoji_id: &str, name: &str, animated: bool) -> (ret: &mut Self)
        ensures
            *final(self) == *final(ret),
            ret.button_base.emoji matches Some(emoji) && emoji.names(emoji_id@, name@, animated),
            ret.button_base == (ButtonCommonBase {
                emoji: ret.button_base.emoji,
                ..old(self).button_base
            }),
            *ret == (RegularButton { button_base: ret.button_base, ..*old(self) }),
    {
        self.button_base.emoji(emoji_id.to_string(), name, animated);
        self
    }

    /// Says whether the button is disabled.
    pub fn disabled(&mut self, disabled: bool) -> (ret: &mut Self)
        ensures
            *final(self) == *final(ret),
            ret.button_base == (ButtonCommonBase {
                disabled: Some(disabled),
                ..old(self).button_base
            }),
            *ret == (RegularButton { button_base: ret.button_base, ..*old(self) }),
    {
        self.button_base.disabled(disabled);
        self
    }

    /// Sets the text shown on the button.
    pub fn label(&mut self, label: &str) -> (ret: &mut Self)
        ensures
            *final(self) == *final(ret),
            ret.button_base.label matches Some(text) && text@ == label@,
            ret.button_base == (ButtonCommonBase {
                label: ret.button_base.label,
                ..old(self).button_base
            }),
            *ret == (RegularButton { button_base: ret.button_base, ..*old(self) }),
    {
        self.button_base.label(label);
        self
    }
}

impl ToSerializableButton for LinkButton {
    /// A link button always has the style `Link`, and never a custom id.
    open spec fn serializable(&self) -> Button {
        Button {
            component_type: 2,
            style: Some(ButtonStyles::Link),
            label: self.button_base.label,
            emoji: self.button_base.emoji,
            url: self.url,
            custom_id: None,
            disabled: self.button_base.disabled,
        }
    }

    fn to_serializable_button(&self) -> (button: Button) {
        Button::new(
            Some(ButtonStyles::Link),
            copy_of_text(&self.button_base.label),
            copy_of_emoji(&self.button_base.emoji),
            copy_of_text(&self.url),
            None,
            self.button_base.disabled,
        )
    }
}

impl ToSerializableButton for RegularButton {
    /// A regular button has the style that was set, if any, and never a URL.
    open spec fn serializable(&self) -> Button {
        Button {
            component_type: 2,
            style: match self.style {
                Some(style) => Some(style.button_style()),
                None => None,
            },
            label: self.button_base.label,
            emoji: self.button_base.emoji,
            url: None,
            custom_id: self.custom_id,
            disabled: self.button_base.disabled,
        }
    }

    fn to_serializable_button(&self) -> (button: Button) {
        let style = match &self.style {
            Some(style) => Some(style.get_button_style()),
            None => None,
        };
        Button::new(
            style,
            copy_of_text(&self.button_base.label),
            copy_of_emoji(&self.button_base.emoji),
            None,
            copy_of_text(&self.custom_id),
            self.button_base.disabled,
        )
    }
}

impl ActionRow {
    /// An action row as [`ActionRow::new`] makes it: no component yet.
    pub open spec fn is_new(&self) -> bool {
        &&& self.component_type == 1
        &&& self.components@.len() == 0
    }

    pub fn new() -> (row: ActionRow)
        ensures
            row.is_new(),
    {
        ActionRow { component_type: 1, components: Vec::new() }
    }

    /// Appends the link button that `button_mutator` makes of a new one.
    pub fn link_button<Func>(&mut self, button_mutator: Func) -> (ret: &mut Self) where
        Func: Fn(&mut LinkButton) -> &mut LinkButton,

        requires
            forall|given: &mut LinkButton|
                given.is_new() ==> call_requires(button_mutator, (given,)),
        ensures
            *final(self) == *final(ret),
            *ret == (ActionRow { components: ret.components, ..*old(self) }),
            exists|given: &mut LinkButton, handed_back: &mut LinkButton|
                {
                    &&& given.is_new()
                    &&& #[trigger] call_ensures(button_mutator, (given,), handed_back)
                    &&& *final(handed_back) == *handed_back
                    &&& ret.components@ == old(self).components@.push(
                        NonCompositeComponent::Button(final(given).serializable()),
                    )
                },
    {
        let mut button = LinkButton::new();
        button_mutator(&mut button);
        self.components.push(NonCompositeComponent::Button(button.to_serializable_button()));
        self
    }

    /// Appends the regular button that `button_mutator` makes of a new one.
    pub fn regular_button<Func>(&mut self, button_mutator: Func) -> (ret: &mut Self) where
        Func: Fn(&mut RegularButton) -> &mut RegularButton,

        requires
            forall|given: &mut RegularButton|
                given.is_new() ==> call_requires(button_mutator, (given,)),
        ensures
            *final(self) == *final(ret),
            *ret == (ActionRow { components: ret.components, ..*old(self) }),
            exists|given: &mut RegularButton, handed_back: &mut RegularButton|
                {
                    &&& given.is_new()
                    &&& #[trigger] call_ensures(button_mutator, (given,), handed_back)
                    &&& *final(handed_back) == *handed_back
                    &&& ret.components@ == old(self).components@.push(
                        NonCompositeComponent::Button(final(given).serializable()),
                    )
                },
    {
        let mut button = RegularButton::new();
        button_mutator(&mut button);
        self.components.push(NonCompositeComponent::Button(button.to_serializable_button()));
        self
    }

    /// Appends the select menu that `menu_mutator` makes of a new one.
    pub fn select_menu<Func>(&mut self, menu_mutator: Func) -> (ret: &mut Self) where
        Func: Fn(&mut SelectMenu) -> &mut SelectMenu,

        requires
            forall|given: &mut SelectMenu| given.is_new() ==> call_requires(menu_mutator, (given,)),
        ensures
            *final(self) == *final(ret),
            *ret == (ActionRow { components: ret.components, ..*old(self) }),
            exists|given: &mut SelectMenu, handed_back: &mut SelectMenu|
                {
                    &&& given.is_new()
                    &&& #[trigger] call_ensures(menu_mutator, (given,), handed_back)
                    &&& *final(handed_back) == *handed_back
                    &&& ret.components@ == old(self).components@.push(
                        NonCompositeComponent::SelectMenu(*final(given)),
                    )
                },
    {
        let mut menu = SelectMenu::new(None, None, None, None, None);
        assert(menu.is_new());
        menu_mutator(&mut menu);
        self.components.push(NonCompositeComponent::SelectMenu(menu));
        self
    }

    /// How many buttons one action row may hold.
    pub open spec fn button_count_limit() -> Interval<usize> {
        Interval { min_allowed: 0, max_allowed: 5 }
    }

    #[verifier::when_used_as_spec(button_count_limit)]
    pub fn button_count_interval() -> (interval: Interval<usize>)
        ensures
            interval == Self::button_count_limit(),
    {
        Interval::from_min_max(0, 5)
    }

    /// How many select menus one action row may hold.
    pub open spec fn select_menu_count_limit() -> Interval<usize> {
        Interval { min_allowed: 0, max_allowed: 1 }
    }

    #[verifier::when_used_as_spec(select_menu_count_limit)]
    pub fn select_menu_count_interval() -> (interval: Interval<usize>)
        ensures
            interval == Self::select_menu_count_limit(),
    {
        Interval::from_min_max(0, 1)
    }
}

impl SelectMenu {
    /// A select menu without options and with nothing set.
    pub open spec fn is_new(&self) -> bool {
        &&& self.component_type == 3
        &&& self.custom_id is None
        &&& self.options@.len() == 0
        &&& self.placeholder is None
        &&& self.min_values is None
        &&& self.max_values is None
        &&& self.disabled is None
    }

    /// A select menu without options.
    pub fn new(
        custom_id: Option<String>,
        placeholder: Option<String>,
        min_values: Option<u8>,
        max_values: Option<u8>,
        disabled: Option<bool>,
    ) -> (menu: Self)
        ensures
            menu.component_type == 3,
            menu.custom_id == custom_id,
            menu.options@.len() == 0,
            menu.placeholder == placeholder,
            menu.min_values == min_values,
            menu.max_values == max_values,
            menu.disabled == disabled,
    {
        Self {
            component_type: 3,
            custom_id,
            options: Vec::new(),
            placeholder,
            min_values,
            max_values,
            disabled,
        }
    }

    /// Appends the option that `option_mutator` makes of a new one.
    pub fn option<Func>(&mut self, option_mutator: Func) -> (ret: &mut Self) where
        Func: Fn(&mut SelectOption) -> &mut SelectOption,

        requires
            forall|given: &mut SelectOption|
                given.is_new() ==> call_requires(option_mutator, (given,)),
        ensures
            *final(self) == *final(ret),
            *ret == (SelectMenu { options: ret.options, ..*old(self) }),
            exists|given: &mut SelectOption, handed_back: &mut SelectOption|
                {
                    &&& given.is_new()
                    &&& #[trigger] call_ensures(option_mutator, (given,), handed_back)
                    &&& *final(handed_back) == *handed_back
                    &&& ret.options@ == old(self).options@.push(*final(given))
                },
    {
        let mut option = SelectOption::new(None, None, None, None, None);
        assert(option.is_new());
        option_mutator(&mut option);
        self.options.push(option);
        self
    }

    /// Sets the custom id under which interactions are reported.
    pub fn custom_id(&mut self, custom_id: &str) -> (ret: &mut Self)
        ensures
            *final(self) == *final(ret),
            ret.custom_id matches Some(text) && text@ == custom_id@,
            *ret == (SelectMenu { custom_id: ret.custom_id, ..*old(self) }),
    {
        self.custom_id = Some(custom_id.to_string());
        self
    }

    /// Sets the text shown while nothing is picked.
    pub fn placeholder(&mut self, placeholder: &str) -> (ret: &mut Self)
        ensures
            *final(self) == *final(ret),
            ret.placeholder matches Some(text) && text@ == placeholder@,
            *ret == (SelectMenu { placeholder: ret.placeholder, ..*old(self) }),
    {
        self.placeholder = Some(placeholder.to_string());
        self
    }

    /// Sets the least number of options a user must pick.
    pub fn min_values(&mut self, min_values: u8) -> (ret: &mut Self)
        ensures
            *final(self) == *final(ret),
            *ret == (SelectMenu { min_values: Some(min_values), ..*old(self) }),
    {
        self.min_values = Some(min_values);
        self
    }

    /// Sets the greatest number of options a user may pick.
    pub fn max_values(&mut self, max_values: u8) -> (ret: &mut Self)
        ensures
            *final(self) == *final(ret),
            *ret == (SelectMenu { max_values: Some(max_values), ..*old(self) }),
    {
        self.max_values = Some(max_values);
        self
    }

    /// Says whether the menu is disabled.
    pub fn disabled(&mut self, disabled: bool) -> (ret: &mut Self)
        ensures
            *final(self) == *final(ret),
            *ret == (SelectMenu { disabled: Some(disabled), ..*old(self) }),
    {
        self.disabled = Some(disabled);
        self
    }

    /// How many options a select menu may offer: at least one.
    pub open spec fn option_count_limit() -> Interval<usize> {
        Interval { min_allowed: 1, max_allowed: 25 }
    }

    #[verifier::when_used_as_spec(option_count_limit)]
    pub fn option_count_interval() -> (interval: Interval<usize>)
        ensures
            interval == Self::option_count_limit(),
    {
        Interval::from_min_max(1, 25)
    }

    /// How many characters the placeholder of a select menu may have.
    pub open spec fn placeholder_len_limit() -> Interval<usize> {
        Interval { min_allowed: 0, max_allowed: 150 }
    }

    #[verifier::when_used_as_spec(placeholder_len_limit)]
    pub fn placeholder_len_interval() -> (interval: Interval<usize>)
        ensures
            interval == Self::placeholder_len_limit(),
    {
        Interval::from_min_max(0, 150)
    }

    /// The range of `min_values`.
    pub open spec fn min_values_limit() -> Interval<u8> {
        Interval { min_allowed: 0, max_allowed: 25 }
    }

    #[verifier::when_used_as_spec(min_values_limit)]
    pub fn min_values_interval() -> (interval: Interval<u8>)
        ensures
            interval == Self::min_values_limit(),
    {
        Interval::from_min_max(0, 25)
    }

    /// The range of `max_values`. The platform states no minimum, but it
    /// rejects a menu that allows no pick at all.
    pub open spec fn max_values_limit() -> Interval<u8> {
        Interval { min_allowed: 1, max_allowed: 25 }
    }

    #[verifier::when_used_as_spec(max_values_limit)]
    pub fn max_values_interval() -> (interval: Interval<u8>)
        ensures
            interval == Self::max_values_limit(),
    {
        Interval::from_min_max(1, 25)
    }
}

impl SelectOption {
    /// An option with nothing set.
    pub open spec fn is_new(&self) -> bool {
        &&& self.label is None
        &&& self.value is None
        &&& self.description is None
        &&& self.emoji is None
        &&& self.default is None
    }

    pub fn new(
        label: Option<String>,
        value: Option<String>,
        description: Option<String>,
        emoji: Option<PartialEmoji>,
        default: Option<bool>,
    ) -> (option: Self)
        ensures
            option == (SelectOption { label, value, description, emoji, default }),
    {
        Self { label, value, description, emoji, default }
    }

    /// Sets the text shown for the option.
    pub fn label(&mut self, label: &str) -> (ret: &mut Self)
        ensures
            *final(self) == *final(ret),
            ret.label matches Some(text) && text@ == label@,
            *ret == (SelectOption { label: ret.label, ..*old(self) }),
    {
        self.label = Some(label.to_string());
        self
    }

    /// Sets the value reported when the option is picked.
    pub fn value(&mut self, value: &str) -> (ret: &mut Self)
        ensures
            *final(self) == *final(ret),
            ret.value matches Some(text) && text@ == value@,
            *ret == (SelectOption { value: ret.value, ..*old(self) }),
    {
        self.value = Some(value.to_string());
        self
    }

    /// Sets the additional text shown for the option.
    pub fn description(&mut self, description: &str) -> (ret: &mut Self)
        ensures
            *final(self) == *final(ret),
            ret.description matches Some(text) && text@ == description@,
            *ret == (SelectOption { description: ret.description, ..*old(self) }),
    {
        self.description = Some(description.to_string());
        self
    }

    /// Sets the emoji shown for the option.
    pub fn emoji(&mut self, emoji_id: &str, name: &str, animated: bool) -> (ret: &mut Self)
        ensures
            *final(self) == *final(ret),
            ret.emoji matches Some(emoji) && emoji.names(emoji_id@, name@, animated),
            *ret == (SelectOption { emoji: ret.emoji, ..*old(self) }),
    {
        self.emoji = Some(
            PartialEmoji {
                id: emoji_id.to_string(),
                name: name.to_string(),
                animated: Some(animated),
            },
        );
        self
    }

    /// Says whether the option is picked from the start.
    pub fn default(&mut self, default: bool) -> (ret: &mut Self)
        ensures
            *final(self) == *final(ret),
            *ret == (SelectOption { default: Some(default), ..*old(self) }),
    {
        self.default = Some(default);
        self
    }

    /// How many characters the label of an option may have: at least one.
    pub open spec fn label_len_limit() -> Interval<usize> {
        Interval { min_allowed: 1, max_allowed: 100 }
    }

    #[verifier::when_used_as_spec(label_len_limit)]
    pub fn label_len_interval() -> (interval: Interval<usize>)
        ensures
            interval == Self::label_len_limit(),
    {
        Interval::from_min_max(1, 100)
    }

    /// How many characters the value of an option may have: at least one.
    pub open spec fn value_len_limit() -> Interval<usize> {
        Interval { min_allowed: 1, max_allowed: 100 }
    }

    #[verifier::when_used_as_spec(value_len_limit)]
    pub fn value_len_interval() -> (interval: Interval<usize>)
        ensures
            interval == Self::value_len_limit(),
    {
        Interval::from_min_max(1, 100)
    }

    /// How many characters the description of an option may have.
    pub open spec fn description_len_limit() -> Interval<usize> {
        Interval { min_allowed: 0, max_allowed: 100 }
    }

    #[verifier::when_used_as_spec(description_len_limit)]
    pub fn description_len_interval() -> (interval: Interval<usize>)
        ensures
            interval == Self::description_len_limit(),
    {
        Interval::from_min_max(0, 100)
    }
}

} // verus!
