use pling::{
    exit_result, split_spaces, Command, CommandError, Desktop, Email, Environment, Matrix,
    Notifier, Slack, TargetChat, Telegram, Webhook,
};

fn env(vars: &[(&str, &str)]) -> Environment {
    let mut env = Environment::new();
    for (name, value) in vars {
        env.set(name, value);
    }
    env
}

fn kinds(notifiers: &[Notifier]) -> Vec<&'static str> {
    notifiers
        .iter()
        .map(|n| match n {
            Notifier::Command(_) => "command",
            Notifier::Desktop(_) => "desktop",
            Notifier::Email(_) => "email",
            Notifier::Matrix(_) => "matrix",
            Notifier::Slack(_) => "slack",
            Notifier::Telegram(_) => "telegram",
            Notifier::Webhook(_) => "webhook",
        })
        .collect()
}

#[test]
fn environment_last_value_wins() {
    let e = env(&[("A", "1"), ("B", "2"), ("A", "3")]);
    assert_eq!(e.get("A"), Some("3".to_owned()));
    assert_eq!(e.get("B"), Some("2".to_owned()));
    assert_eq!(e.get("C"), None);
    assert_eq!(Environment::new().get("A"), None);
}

#[test]
fn empty_environment_discovers_nothing() {
    assert!(Notifier::from_env(&Environment::new()).is_empty());
}

#[test]
fn matrix_needs_all_three_variables() {
    let partial = env(&[
        ("MATRIX_HOMESERVER", "https://matrix.example.org"),
        ("MATRIX_ROOM_ID", "!room:example.org"),
    ]);
    assert!(Matrix::from_env(&partial).is_none());
    assert!(Notifier::from_env(&partial).is_empty());

    let full = env(&[
        ("MATRIX_HOMESERVER", "https://matrix.example.org"),
        ("MATRIX_ROOM_ID", "!room:example.org"),
        ("MATRIX_ACCESS_TOKEN", "tok"),
    ]);
    let found = Notifier::from_env(&full);
    assert_eq!(kinds(&found), vec!["matrix"]);
    let matrix = Matrix::from_env(&full).unwrap();
    assert_eq!(matrix.homeserver.as_str(), "https://matrix.example.org/");
    assert_eq!(matrix.room_id, "!room:example.org");
    assert_eq!(matrix.access_token, "tok");
}

#[test]
fn matrix_with_bad_homeserver_is_absent() {
    let e = env(&[
        ("MATRIX_HOMESERVER", "not a url"),
        ("MATRIX_ROOM_ID", "!room:example.org"),
        ("MATRIX_ACCESS_TOKEN", "tok"),
    ]);
    assert!(Matrix::from_env(&e).is_none());
}

#[test]
fn discovery_keeps_command_slack_webhook_order() {
    let e = env(&[
        ("WEBHOOK_URL", "https://example.com/hook"),
        ("SLACK_HOOK", "https://hooks.slack.com/services/x"),
        ("PLING_COMMAND_PROGRAM", "echo"),
    ]);
    assert_eq!(kinds(&Notifier::from_env(&e)), vec!["command", "slack", "webhook"]);
}

#[test]
fn discovery_order_of_every_channel() {
    let e = env(&[
        ("WEBHOOK_URL", "https://example.com/hook"),
        ("TELEGRAM_BOT_TOKEN", "123:ABC"),
        ("TELEGRAM_TARGET_CHAT", "-100"),
        ("SLACK_WEBHOOK", "https://hooks.slack.com/services/x"),
        ("MATRIX_HOMESERVER", "https://matrix.example.org"),
        ("MATRIX_ROOM_ID", "!room:example.org"),
        ("MATRIX_ACCESS_TOKEN", "tok"),
        ("EMAIL_SERVER", "smtp.example.com"),
        ("EMAIL_USERNAME", "user"),
        ("EMAIL_PASSWORD", "SECRET-REDACTED"),
        ("EMAIL_FROM", "a@example.com"),
        ("EMAIL_TO", "b@example.com"),
        ("EMAIL_SUBJECT", "pling"),
        ("PLING_DESKTOP_ENABLED", "1"),
        ("PLING_COMMAND_PROGRAM", "echo"),
    ]);
    assert_eq!(
        kinds(&Notifier::from_env(&e)),
        vec!["command", "desktop", "email", "matrix", "slack", "telegram", "webhook"]
    );
}

#[test]
fn command_arguments_split_at_spaces() {
    let c = Command::from_env(&env(&[
        ("PLING_COMMAND_PROGRAM", "notify"),
        ("PLING_COMMAND_ARGS", "-a  b"),
    ]))
    .unwrap();
    assert_eq!(c.program, "notify");
    assert_eq!(c.arguments, vec!["-a".to_owned(), String::new(), "b".to_owned()]);
    let c = Command::from_env(&env(&[("PLING_COMMAND_PROGRAM", "notify")])).unwrap();
    assert!(c.arguments.is_empty());
    assert!(Command::from_env(&env(&[("PLING_COMMAND_ARGS", "x")])).is_none());
    assert_eq!(split_spaces(""), vec![String::new()]);
    assert_eq!(split_spaces("a b"), vec!["a".to_owned(), "b".to_owned()]);
}

#[test]
fn command_text_is_the_last_argument() {
    let c = Command { program: "echo".into(), arguments: vec!["-n".into()] };
    assert_eq!(c.arguments_for("hi there"), vec!["-n".to_owned(), "hi there".to_owned()]);
    let c = Command { program: "true".into(), arguments: vec![] };
    assert_eq!(c.arguments_for("something"), vec!["something".to_owned()]);
}

#[test]
fn command_exit_status_decides_the_outcome() {
    assert_eq!(exit_result(true), Ok(()));
    assert_eq!(exit_result(false), Err(CommandError::UnsuccessfulExit));
    assert_eq!(CommandError::UnsuccessfulExit.message(), "Command exited unsuccessfully");
}

#[test]
fn desktop_needs_a_flag_or_a_summary() {
    assert!(Desktop::from_env(&Environment::new()).is_none());
    let d = Desktop::from_env(&env(&[("PLING_DESKTOP_ENABLED", "")])).unwrap();
    assert_eq!(d.summary, None);
    let d = Desktop::from_env(&env(&[("PLING_DESKTOP_SUMMARY", "Build")])).unwrap();
    assert_eq!(d.summary, Some("Build".to_owned()));
}

fn email_env(port: Option<&str>) -> Environment {
    let mut e = env(&[
        ("EMAIL_SERVER", "smtp.example.com"),
        ("EMAIL_USERNAME", "user"),
        ("EMAIL_PASSWORD", "SECRET-REDACTED"),
        ("EMAIL_FROM", "a@example.com"),
        ("EMAIL_TO", "b@example.com"),
        ("EMAIL_SUBJECT", "pling"),
    ]);
    if let Some(p) = port {
        e.set("EMAIL_PORT", p);
    }
    e
}

#[test]
fn email_port_is_optional() {
    let mail = Email::from_env(&email_env(None)).unwrap();
    assert_eq!(mail.server, "smtp.example.com");
    assert_eq!(mail.port, None);
    assert_eq!(mail.subject, "pling");
    assert_eq!(Email::from_env(&email_env(Some("587"))).unwrap().port, Some(587));
    assert_eq!(Email::from_env(&email_env(Some("65535"))).unwrap().port, Some(65535));
    assert_eq!(Email::from_env(&email_env(Some("65536"))).unwrap().port, None);
    assert_eq!(Email::from_env(&email_env(Some("-1"))).unwrap().port, None);
    assert_eq!(Email::from_env(&email_env(Some("smtp"))).unwrap().port, None);
}

#[test]
fn email_needs_every_other_variable() {
    let mut e = env(&[
        ("EMAIL_SERVER", "smtp.example.com"),
        ("EMAIL_USERNAME", "user"),
        ("EMAIL_PASSWORD", "SECRET-REDACTED"),
        ("EMAIL_FROM", "a@example.com"),
        ("EMAIL_TO", "b@example.com"),
    ]);
    assert!(Email::from_env(&e).is_none());
    e.set("EMAIL_SUBJECT", "s");
    assert!(Email::from_env(&e).is_some());
}

#[test]
fn slack_prefers_slack_hook() {
    let s = Slack::from_env(&env(&[
        ("SLACK_WEBHOOK", "https://b.example.com/"),
        ("SLACK_HOOK", "https://a.example.com/"),
    ]))
    .unwrap();
    assert_eq!(s.webhook.as_str(), "https://a.example.com/");
    let s = Slack::from_env(&env(&[("SLACK_WEBHOOK", "https://b.example.com/")])).unwrap();
    assert_eq!(s.webhook.as_str(), "https://b.example.com/");
    assert!(Slack::from_env(&env(&[("SLACK_HOOK", "hooks")])).is_none());
}

#[test]
fn telegram_from_env() {
    let e = env(&[
        ("TELEGRAM_BOT_TOKEN", "123:ABC"),
        ("TELEGRAM_TARGET_CHAT", "@channel"),
        ("TELEGRAM_DISABLE_NOTIFICATION", ""),
    ]);
    let t = Telegram::from_env(&e).unwrap();
    assert_eq!(t.bot_token, "123:ABC");
    assert_eq!(t.target_chat, TargetChat::Username("@channel".into()));
    assert!(!t.disable_web_page_preview);
    assert!(t.disable_notification);
    assert_eq!(t.parse_mode, None);
    let bad_chat = env(&[("TELEGRAM_BOT_TOKEN", "123:ABC"), ("TELEGRAM_TARGET_CHAT", "channel")]);
    assert!(Telegram::from_env(&bad_chat).is_none());
    assert!(Telegram::from_env(&env(&[("TELEGRAM_TARGET_CHAT", "1")])).is_none());
}

#[test]
fn webhook_from_env() {
    let w = Webhook::from_env(&env(&[("WEBHOOK_URL", "http://localhost:8080/x")])).unwrap();
    assert_eq!(w.webhook.as_str(), "http://localhost:8080/x");
    assert!(Webhook::from_env(&env(&[("WEBHOOK_URL", "localhost")])).is_none());
}

#[test]
fn notifier_from_channel() {
    let n: Notifier = Desktop { summary: None }.into();
    assert_eq!(kinds(&[n]), vec!["desktop"]);
}
