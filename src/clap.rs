//! The notification options of a command line: each channel's values as
//! they were given, and the channels they configure.

use vstd::prelude::*;
use crate::matrix::MatrixView;
use crate::notifier::{notifier_views, present, Notifier, NotifierView, optional_view};
use crate::slack::SlackView;
use crate::target_chat::TargetChat;
use crate::telegram::TelegramView;
use crate::web_url::WebUrl;
use crate::webhook::WebhookView;

verus! {

/// The options of every channel that a command line can configure.
pub struct Args {
    pub matrix: Matrix,
    pub slack: Slack,
    pub telegram: Telegram,
    pub webhook: Webhook,
}

/// The Matrix options.
pub struct Matrix {
    pub notification_matrix_homeserver: Option<WebUrl>,
    pub notification_matrix_room_id: Option<String>,
    pub notification_matrix_access_token: Option<String>,
}

/// The Slack options.
pub struct Slack {
    /// Slack Incoming Webhook URL.
    pub notification_slack_webhook: Option<WebUrl>,
}

/// The Telegram options.
pub struct Telegram {
    /// Bot token from `@BotFather` in Telegram.
    pub notification_telegram_bot_token: Option<String>,
    /// Chat or user id, or chat or channel username.
    pub notification_telegram_target_chat: Option<TargetChat>,
    pub notification_telegram_disable_web_page_preview: bool,
    /// Sends the message silently: users get a notification without sound.
    pub notification_telegram_silent: bool,
}

/// The webhook options.
pub struct Webhook {
    /// The URL that a POST request with the text is sent to.
    pub notification_webhook: Option<WebUrl>,
}

impl Matrix {
    /// The Matrix channel that the options configure: all three are needed.
    pub open spec fn plain_view(&self) -> Option<MatrixView> {
        match (
            self.notification_matrix_homeserver,
            self.notification_matrix_room_id,
            self.notification_matrix_access_token,
        ) {
            (Some(h), Some(r), Some(t)) => Some(
                MatrixView { homeserver: h@, room_id: r@, access_token: t@ },
            ),
            _ => None,
        }
    }

    /// The Matrix channel that the options configure.
    pub fn to_plain(&self) -> (r: Option<crate::matrix::Matrix>)
        ensures
            match self.plain_view() {
                Some(c) => r matches Some(t) && t@ == c,
                None => r is None,
            },
    {
        match (
            &self.notification_matrix_homeserver,
            &self.notification_matrix_room_id,
            &self.notification_matrix_access_token,
        ) {
            (Some(homeserver), Some(room_id), Some(access_token)) => Some(
                crate::matrix::Matrix {
                    homeserver: homeserver.duplicate(),
                    room_id: room_id.clone(),
                    access_token: access_token.clone(),
                },
            ),
            _ => None,
        }
    }
}

impl Slack {
    /// The Slack channel that the options configure.
    pub open spec fn plain_view(&self) -> Option<SlackView> {
        match self.notification_slack_webhook {
            Some(w) => Some(SlackView { webhook: w@ }),
            None => None,
        }
    }

    /// The Slack channel that the options configure.
    pub fn to_plain(&self) -> (r: Option<crate::slack::Slack>)
        ensures
            match self.plain_view() {
                Some(c) => r matches Some(t) && t@ == c,
                None => r is None,
            },
    {
        match &self.notification_slack_webhook {
            Some(w) => Some(crate::slack::Slack { webhook: w.duplicate() }),
            None => None,
        }
    }
}

impl Telegram {
    /// The Telegram channel that the options configure: the bot token and
    /// the target chat are needed; no parse mode is set.
    pub open spec fn plain_view(&self) -> Option<TelegramView> {
        match (self.notification_telegram_bot_token, self.notification_telegram_target_chat) {
            (Some(token), Some(chat)) => Some(
                TelegramView {
                    bot_token: token@,
                    target_chat: chat@,
                    disable_web_page_preview: self.notification_telegram_disable_web_page_preview,
                    disable_notification: self.notification_telegram_silent,
                    parse_mode: None,
                },
            ),
            _ => None,
        }
    }

    /// The Telegram channel that the options configure.
    pub fn to_plain(&self) -> (r: Option<crate::telegram::Telegram>)
        ensures
            match self.plain_view() {
                Some(c) => r matches Some(t) && t@ == c,
                None => r is None,
            },
    {
        match (&self.notification_telegram_bot_token, &self.notification_telegram_target_chat) {
            (Some(bot_token), Some(target_chat)) => Some(
                crate::telegram::Telegram {
                    bot_token: bot_token.clone(),
                    target_chat: target_chat.duplicate(),
                    disable_web_page_preview: self.notification_telegram_disable_web_page_preview,
                    disable_notification: self.notification_telegram_silent,
                    parse_mode: None,
                },
            ),
            _ => None,
        }
    }
}

impl Webhook {
    /// The webhook channel that the options configure.
    pub open spec fn plain_view(&self) -> Option<WebhookView> {
        match self.notification_webhook {
            Some(w) => Some(WebhookView { webhook: w@ }),
            None => None,
        }
    }

    /// The webhook channel that the options configure.
    pub fn to_plain(&self) -> (r: Option<crate::webhook::Webhook>)
        ensures
            match self.plain_view() {
                Some(c) => r matches Some(t) && t@ == c,
                None => r is None,
            },
    {
        match &self.notification_webhook {
            Some(w) => Some(crate::webhook::Webhook { webhook: w.duplicate() }),
            None => None,
        }
    }
}

impl Args {
    /// The channels that the options configure, in the order they are sent
    /// to: Matrix, Slack, Telegram, Webhook.
    pub open spec fn configured(&self) -> Seq<NotifierView> {
        present(
            match self.matrix.plain_view() {
                Some(c) => Some(NotifierView::Matrix(c)),
                None => None,
            },
        ) + present(
            match self.slack.plain_view() {
                Some(c) => Some(NotifierView::Slack(c)),
                None => None,
            },
        ) + present(
            match self.telegram.plain_view() {
                Some(c) => Some(NotifierView::Telegram(c)),
                None => None,
            },
        ) + present(
            match self.webhook.plain_view() {
                Some(c) => Some(NotifierView::Webhook(c)),
                None => None,
            },
        )
    }

    /// The channels that the options configure, in the order they are sent
    /// to: Matrix, Slack, Telegram, Webhook.
    pub fn notifiers(&self) -> (r: Vec<Notifier>)
        ensures
            notifier_views(r@) == self.configured(),
    {
        let mut r: Vec<Notifier> = Vec::new();
        assert(notifier_views(r@) =~= Seq::<NotifierView>::empty());
        let matrix = match self.matrix.to_plain() {
            Some(c) => Some(Notifier::Matrix(c)),
            None => None,
        };
        crate::notifier::push_present(&mut r, matrix);
        let slack = match self.slack.to_plain() {
            Some(c) => Some(Notifier::Slack(c)),
            None => None,
        };
        crate::notifier::push_present(&mut r, slack);
        let telegram = match self.telegram.to_plain() {
            Some(c) => Some(Notifier::Telegram(c)),
            None => None,
        };
        crate::notifier::push_present(&mut r, telegram);
        let webhook = match self.webhook.to_plain() {
            Some(c) => Some(Notifier::Webhook(c)),
            None => None,
        };
        crate::notifier::push_present(&mut r, webhook);
        assert(Seq::<NotifierView>::empty() + present(optional_view(matrix)) =~= present(
            optional_view(matrix),
        ));
        r
    }
}

} // verus!
