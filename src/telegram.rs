use vstd::prelude::*;
use crate::env::{env_value, Environment};
use crate::parse_mode::{mode_name, ParseMode};
use crate::target_chat::{chat_id_text, chat_of, TargetChat, TargetChatView};

verus! {

/// Telegram notification, sent through the Bot API's `sendMessage`.
#[derive(Clone, PartialEq, Eq)]
pub struct Telegram {
    /// Bot token from `@BotFather` in Telegram.
    pub bot_token: String,
    pub target_chat: TargetChat,
    pub disable_web_page_preview: bool,
    pub disable_notification: bool,
    pub parse_mode: Option<ParseMode>,
}

/// The value of a `Telegram` configuration.
pub struct TelegramView {
    pub bot_token: Seq<char>,
    pub target_chat: TargetChatView,
    pub disable_web_page_preview: bool,
    pub disable_notification: bool,
    pub parse_mode: Option<ParseMode>,
}

impl View for Telegram {
    type V = TelegramView;

    open spec fn view(&self) -> TelegramView {
        TelegramView {
            bot_token: self.bot_token@,
            target_chat: self.target_chat@,
            disable_web_page_preview: self.disable_web_page_preview,
            disable_notification: self.disable_notification,
            parse_mode: self.parse_mode,
        }
    }
}

/// The `sendMessage` endpoint of a bot.
pub open spec fn telegram_url(bot_token: Seq<char>) -> Seq<char> {
    "https://api.telegram.org/bot"@ + bot_token + "/sendMessage"@
}

/// The optional form fields: each flag that is set, as `true`, then the parse
/// mode if there is one. Unset flags are left out.
pub open spec fn option_fields(t: TelegramView) -> Seq<(Seq<char>, Seq<char>)> {
    let preview = if t.disable_web_page_preview {
        seq![("disable_web_page_preview"@, "true"@)]
    } else {
        seq![]
    };
    let silent = if t.disable_notification {
        seq![("disable_notification"@, "true"@)]
    } else {
        seq![]
    };
    let mode = match t.parse_mode {
        Some(m) => seq![("parse_mode"@, mode_name(m))],
        None => seq![],
    };
    preview + silent + mode
}

/// The whole form of a message: the optional fields, then `chat_id` and
/// `text`.
pub open spec fn message_form(t: TelegramView, text: Seq<char>) -> Seq<(Seq<char>, Seq<char>)> {
    option_fields(t) + seq![("chat_id"@, chat_id_text(t.target_chat)), ("text"@, text)]
}

/// The Telegram configuration that an environment describes: the bot token
/// and a readable target chat are both needed; the two flags are set by the
/// mere presence of their variables.
pub open spec fn telegram_config(env: Seq<(Seq<char>, Seq<char>)>) -> Option<TelegramView> {
    match env_value(env, "TELEGRAM_BOT_TOKEN"@) {
        None => None,
        Some(token) => match env_value(env, "TELEGRAM_TARGET_CHAT"@) {
            None => None,
            Some(chat) => match chat_of(chat) {
                None => None,
                Some(c) => Some(
                    TelegramView {
                        bot_token: token,
                        target_chat: c,
                        disable_web_page_preview: env_value(
                            env,
                            "TELEGRAM_DISABLE_WEB_PAGE_PREVIEW"@,
                        ) is Some,
                        disable_notification: env_value(env, "TELEGRAM_DISABLE_NOTIFICATION"@) is Some,
                        parse_mode: None,
                    },
                ),
            },
        },
    }
}

/// The pairs of a form, as characters.
pub open spec fn static_pairs(v: Seq<(&'static str, &'static str)>) -> Seq<(Seq<char>, Seq<char>)> {
    v.map_values(|p: (&'static str, &'static str)| (p.0@, p.1@))
}

/// The pairs of a form, as characters.
pub open spec fn owned_pairs(v: Seq<(String, String)>) -> Seq<(Seq<char>, Seq<char>)> {
    v.map_values(|p: (String, String)| (p.0@, p.1@))
}

/// The `sendMessage` endpoint of the bot with token `bot_token`.
pub fn generate_url(bot_token: &str) -> (r: String)
    ensures
        r@ == telegram_url(bot_token@),
{
    let mut r = "https://api.telegram.org/bot".to_owned();
    r.append(bot_token);
    r.append("/sendMessage");
    r
}

impl Telegram {
    /// A configuration with both flags unset and no parse mode.
    pub fn new(bot_token: String, target_chat: TargetChat) -> (r: Telegram)
        ensures
            r.bot_token == bot_token,
            r.target_chat == target_chat,
            !r.disable_web_page_preview,
            !r.disable_notification,
            r.parse_mode is None,
    {
        Telegram {
            bot_token,
            target_chat,
            disable_web_page_preview: false,
            disable_notification: false,
            parse_mode: None,
        }
    }

    /// The optional form fields of this configuration.
    pub fn base_form(&self) -> (r: Vec<(&'static str, &'static str)>)
        ensures
            static_pairs(r@) == option_fields(self@),
    {
        let mut r: Vec<(&'static str, &'static str)> = Vec::new();
        if self.disable_web_page_preview {
            r.push(("disable_web_page_preview", "true"));
        }
        if self.disable_notification {
            r.push(("disable_notification", "true"));
        }
        if let Some(mode) = self.parse_mode {
            r.push(("parse_mode", mode.to_str()));
        }
        assert(static_pairs(r@) =~= option_fields(self@));
        r
    }

    /// The form that sends `text`: the optional fields, then `chat_id` and
    /// `text`.
    pub fn form(&self, text: &str) -> (r: Vec<(String, String)>)
        ensures
            owned_pairs(r@) == message_form(self@, text@),
    {
        let base = self.base_form();
        let mut r: Vec<(String, String)> = Vec::new();
        let mut i: usize = 0;
        while i < base.len()
            invariant
                i <= base@.len(),
                owned_pairs(r@) == static_pairs(base@).take(i as int),
            decreases base@.len() - i,
        {
            let (k, v) = base[i];
            let ghost before = owned_pairs(r@);
            r.push((k.to_owned(), v.to_owned()));
            assert(static_pairs(base@)[i as int] == (k@, v@));
            assert(owned_pairs(r@) =~= before.push((k@, v@)));
            assert(static_pairs(base@).take(i + 1) =~= static_pairs(base@).take(i as int).push((k@, v@)));
            i = i + 1;
        }
        assert(static_pairs(base@).take(i as int) =~= static_pairs(base@));
        r.push(("chat_id".to_owned(), self.target_chat.to_chat_id()));
        r.push(("text".to_owned(), text.to_owned()));
        assert(owned_pairs(r@) =~= message_form(self@, text@));
        r
    }

    /// The address that a message is posted to.
    pub fn url(&self) -> (r: String)
        ensures
            r@ == telegram_url(self.bot_token@),
    {
        generate_url(self.bot_token.as_str())
    }

    /// Loads the configuration from `TELEGRAM_BOT_TOKEN`,
    /// `TELEGRAM_TARGET_CHAT`, `TELEGRAM_DISABLE_WEB_PAGE_PREVIEW` and
    /// `TELEGRAM_DISABLE_NOTIFICATION`.
    pub fn from_env(env: &Environment) -> (r: Option<Telegram>)
        ensures
            match telegram_config(env@) {
                Some(c) => r matches Some(t) && t@ == c,
                None => r is None,
            },
    {
        let bot_token = match env.get("TELEGRAM_BOT_TOKEN") {
            Some(token) => token,
            None => return None,
        };
        let chat = match env.get("TELEGRAM_TARGET_CHAT") {
            Some(chat) => chat,
            None => return None,
        };
        let target_chat = match TargetChat::parse(chat.as_str()) {
            Ok(c) => c,
            Err(_) => return None,
        };
        let disable_web_page_preview = env.get("TELEGRAM_DISABLE_WEB_PAGE_PREVIEW").is_some();
        let disable_notification = env.get("TELEGRAM_DISABLE_NOTIFICATION").is_some();
        Some(
            Telegram {
                bot_token,
                target_chat,
                disable_web_page_preview,
                disable_notification,
                parse_mode: None,
            },
        )
    }

    /// A copy of this configuration.
    pub fn duplicate(&self) -> (r: Telegram)
        ensures
            r@ == self@,
    {
        Telegram {
            bot_token: self.bot_token.clone(),
            target_chat: self.target_chat.duplicate(),
            disable_web_page_preview: self.disable_web_page_preview,
            disable_notification: self.disable_notification,
            parse_mode: self.parse_mode,
        }
    }
}

} // verus!
