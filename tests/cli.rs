use pling::clap::{Args, Matrix, Slack, Telegram, Webhook};
use pling::{Notifier, TargetChat, WebUrl};

fn no_args() -> Args {
    Args {
        matrix: Matrix {
            notification_matrix_homeserver: None,
            notification_matrix_room_id: None,
            notification_matrix_access_token: None,
        },
        slack: Slack { notification_slack_webhook: None },
        telegram: Telegram {
            notification_telegram_bot_token: None,
            notification_telegram_target_chat: None,
            notification_telegram_disable_web_page_preview: false,
            notification_telegram_silent: false,
        },
        webhook: Webhook { notification_webhook: None },
    }
}

#[test]
fn no_options_configure_nothing() {
    assert!(no_args().notifiers().is_empty());
}

#[test]
fn telegram_options_to_plain() {
    let mut args = no_args();
    args.telegram.notification_telegram_bot_token = Some("123:ABC".into());
    assert!(args.telegram.to_plain().is_none());
    args.telegram.notification_telegram_target_chat = Some(TargetChat::Id(42));
    args.telegram.notification_telegram_silent = true;
    let t = args.telegram.to_plain().unwrap();
    assert_eq!(t.bot_token, "123:ABC");
    assert_eq!(t.target_chat, TargetChat::Id(42));
    assert!(t.disable_notification);
    assert!(!t.disable_web_page_preview);
    assert_eq!(t.parse_mode, None);
}

#[test]
fn cli_channels_in_sending_order() {
    let mut args = no_args();
    args.webhook.notification_webhook = WebUrl::parse("https://example.com/hook");
    args.slack.notification_slack_webhook = WebUrl::parse("https://hooks.slack.com/x");
    args.matrix.notification_matrix_homeserver = WebUrl::parse("https://matrix.org");
    args.matrix.notification_matrix_room_id = Some("!r:matrix.org".into());
    assert!(args.matrix.to_plain().is_none());
    args.matrix.notification_matrix_access_token = Some("tok".into());
    let found: Vec<&str> = args
        .notifiers()
        .iter()
        .map(|n| match n {
            Notifier::Matrix(_) => "matrix",
            Notifier::Slack(_) => "slack",
            Notifier::Telegram(_) => "telegram",
            Notifier::Webhook(_) => "webhook",
            _ => "other",
        })
        .collect();
    assert_eq!(found, vec!["matrix", "slack", "webhook"]);
    assert_eq!(args.slack.to_plain().unwrap().webhook.as_str(), "https://hooks.slack.com/x");
}
