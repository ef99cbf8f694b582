use pling::{ParseMode, ParseModeError, TargetChat, TargetChatError, Telegram};

#[test]
fn base_form_minimal() {
    let telegram = Telegram {
        bot_token: "123:ABC".to_owned(),
        target_chat: TargetChat::Id(1234),
        disable_web_page_preview: false,
        disable_notification: false,
        parse_mode: None,
    };
    let form = telegram.base_form();
    assert_eq!(form, []);
}

#[test]
fn base_form_disable_preview() {
    let telegram = Telegram {
        bot_token: "123:ABC".to_owned(),
        target_chat: TargetChat::Id(1234),
        disable_web_page_preview: true,
        disable_notification: false,
        parse_mode: None,
    };
    let form = telegram.base_form();
    assert_eq!(form, [("disable_web_page_preview", "true"),]);
}

#[test]
fn base_form_parse_mode() {
    let telegram = Telegram {
        bot_token: "123:ABC".to_owned(),
        target_chat: TargetChat::Id(1234),
        disable_web_page_preview: false,
        disable_notification: false,
        parse_mode: Some(ParseMode::HTML),
    };
    let form = telegram.base_form();
    assert_eq!(form, [("parse_mode", "HTML"),]);
}

#[test]
fn base_form_all_options() {
    let telegram = Telegram {
        bot_token: "123:ABC".to_owned(),
        target_chat: TargetChat::Id(1234),
        disable_web_page_preview: true,
        disable_notification: true,
        parse_mode: Some(ParseMode::MarkdownV2),
    };
    assert_eq!(
        telegram.base_form(),
        [
            ("disable_web_page_preview", "true"),
            ("disable_notification", "true"),
            ("parse_mode", "MarkdownV2"),
        ]
    );
}

fn pairs(v: &[(&str, &str)]) -> Vec<(String, String)> {
    v.iter().map(|(k, v)| (k.to_string(), v.to_string())).collect()
}

#[test]
fn form_with_preview_disabled_has_chat_and_text() {
    let telegram = Telegram {
        bot_token: "123:ABC".to_owned(),
        target_chat: TargetChat::Id(1234),
        disable_web_page_preview: true,
        disable_notification: false,
        parse_mode: None,
    };
    let form = telegram.form("hello");
    assert_eq!(
        form,
        pairs(&[
            ("disable_web_page_preview", "true"),
            ("chat_id", "1234"),
            ("text", "hello"),
        ])
    );
    assert!(!form.iter().any(|(k, _)| k == "disable_notification" || k == "parse_mode"));
}

#[test]
fn form_with_username_and_negative_id() {
    let telegram = Telegram::new("t".to_owned(), TargetChat::Username("@channel".to_owned()));
    assert_eq!(
        telegram.form("x"),
        pairs(&[("chat_id", "@channel"), ("text", "x")])
    );
    let telegram = Telegram::new("t".to_owned(), TargetChat::Id(-1001234567890));
    assert_eq!(
        telegram.form(""),
        pairs(&[("chat_id", "-1001234567890"), ("text", "")])
    );
    assert_eq!(telegram.url(), "https://api.telegram.org/bott/sendMessage");
}

#[test]
fn new_sets_no_options() {
    let telegram = Telegram::new("123:ABC".to_owned(), TargetChat::Id(5));
    assert!(!telegram.disable_web_page_preview);
    assert!(!telegram.disable_notification);
    assert_eq!(telegram.parse_mode, None);
    assert!(telegram.base_form().is_empty());
}

#[test]
fn can_parse_id_from_str() {
    let result = "12345".parse::<TargetChat>().unwrap();
    assert_eq!(result, TargetChat::Id(12345));
}

#[test]
fn can_parse_username_from_str() {
    let result = "@HelloWorld".parse::<TargetChat>().unwrap();
    assert_eq!(result, TargetChat::Username("@HelloWorld".into()));
}

#[test]
#[should_panic = "start with an @ symbol"]
fn username_no_at() {
    "HelloWorld".parse::<TargetChat>().unwrap();
}

#[test]
fn integer_texts_parse_as_ids() {
    assert_eq!(TargetChat::parse("-42"), Ok(TargetChat::Id(-42)));
    assert_eq!(TargetChat::parse("+7"), Ok(TargetChat::Id(7)));
    assert_eq!(TargetChat::parse("0042"), Ok(TargetChat::Id(42)));
    assert_eq!(TargetChat::parse("9223372036854775807"), Ok(TargetChat::Id(i64::MAX)));
    assert_eq!(TargetChat::parse("-9223372036854775808"), Ok(TargetChat::Id(i64::MIN)));
}

#[test]
fn non_integer_texts_need_an_at() {
    assert_eq!(TargetChat::parse("9223372036854775808"), Err(TargetChatError::UsernameWithoutAt));
    assert_eq!(TargetChat::parse(""), Err(TargetChatError::UsernameWithoutAt));
    assert_eq!(TargetChat::parse("-"), Err(TargetChatError::UsernameWithoutAt));
    assert_eq!(TargetChat::parse("12a"), Err(TargetChatError::UsernameWithoutAt));
    assert_eq!(TargetChat::parse("@"), Ok(TargetChat::Username("@".into())));
    assert_eq!(TargetChat::parse("@123"), Ok(TargetChat::Username("@123".into())));
}

#[test]
fn chat_id_round_trip() {
    let chats = vec![
        TargetChat::Id(0),
        TargetChat::Id(-1),
        TargetChat::Id(i64::MIN),
        TargetChat::Id(i64::MAX),
        TargetChat::from(987654321),
        TargetChat::Username("@pling".into()),
    ];
    for chat in chats {
        assert_eq!(TargetChat::parse(&chat.to_chat_id()), Ok(chat.clone()));
    }
    assert_eq!(TargetChat::Id(-15).to_chat_id(), "-15");
}

#[test]
fn parse_mode_names() {
    assert_eq!(ParseMode::HTML.to_str(), "HTML");
    assert_eq!(ParseMode::Markdown.to_str(), "Markdown");
    assert_eq!(ParseMode::MarkdownV2.to_str(), "MarkdownV2");
}

#[test]
fn parse_mode_ignores_case() {
    assert_eq!(ParseMode::parse("html"), Ok(ParseMode::HTML));
    assert_eq!(ParseMode::parse("HtMl"), Ok(ParseMode::HTML));
    assert_eq!(ParseMode::parse("MARKDOWN"), Ok(ParseMode::Markdown));
    assert_eq!("markdownV2".parse::<ParseMode>(), Ok(ParseMode::MarkdownV2));
    for mode in [ParseMode::HTML, ParseMode::Markdown, ParseMode::MarkdownV2] {
        assert_eq!(ParseMode::parse(mode.to_str()), Ok(mode));
    }
}

#[test]
fn parse_mode_rejects_other_names() {
    assert_eq!(ParseMode::parse("markdown2"), Err(ParseModeError::UnknownParseMode));
    assert_eq!(ParseMode::parse(""), Err(ParseModeError::UnknownParseMode));
    assert_eq!(ParseMode::parse(" html"), Err(ParseModeError::UnknownParseMode));
}
