use burberry::telegram_message::{escape, ErrorReport, Message, MessageBuilder, Param, Redirect};

fn message() -> Message {
    MessageBuilder::new()
        .bot_token("123:abc")
        .chat_id("-100")
        .text("hello")
        .build()
}

#[test]
fn builder_sets_every_field() {
    let m = MessageBuilder::new()
        .bot_token("tok")
        .chat_id("chat")
        .thread_id("thread")
        .text("body")
        .disable_notification(true)
        .protect_content(false)
        .disable_link_preview(true)
        .parse_mode("HTML")
        .build();
    assert_eq!(m.bot_token, "tok");
    assert_eq!(m.chat_id, "chat");
    assert_eq!(m.thread_id.as_deref(), Some("thread"));
    assert_eq!(m.text, "body");
    assert_eq!(m.disable_notification, Some(true));
    assert_eq!(m.protect_content, Some(false));
    assert_eq!(m.disable_link_preview, Some(true));
    assert_eq!(m.parse_mode.as_deref(), Some("HTML"));
}

#[test]
fn builder_defaults_are_empty_or_unset() {
    let m = MessageBuilder::default().build();
    assert_eq!(m.bot_token, "");
    assert_eq!(m.chat_id, "");
    assert_eq!(m.text, "");
    assert_eq!(m.thread_id, None);
    assert_eq!(m.disable_notification, None);
    assert_eq!(m.protect_content, None);
    assert_eq!(m.disable_link_preview, None);
    assert_eq!(m.parse_mode, None);
}

#[test]
fn builder_last_setting_wins() {
    let m = MessageBuilder::new().text("a").text("b").build();
    assert_eq!(m.text, "b");
}

#[test]
fn escape_backslashes_reserved_characters() {
    assert_eq!(escape("a.b"), "a\\.b");
    assert_eq!(escape("1+1=2!"), "1\\+1\\=2\\!");
    assert_eq!(escape("(x)"), "\\(x\\)");
}

#[test]
fn escape_leaves_plain_text_alone() {
    assert_eq!(escape("hello world"), "hello world");
    assert_eq!(escape(""), "");
    assert_eq!(escape("caf\u{e9} \u{1f600}"), "caf\u{e9} \u{1f600}");
}

#[test]
fn escape_handles_every_reserved_character() {
    let raw = "\\*_[]~`>#-|{}.!+()=";
    let expected: String = raw.chars().flat_map(|c| ['\\', c]).collect();
    assert_eq!(escape(raw), expected);
}

fn text_of(p: &Param) -> Option<&str> {
    match p {
        Param::Text(t) => Some(t.as_str()),
        _ => None,
    }
}

#[test]
fn request_url_holds_the_bot_token() {
    let (url, _) = burberry::telegram_message::send_message_request(&message());
    assert_eq!(url, "https://api.telegram.org/bot123:abc/sendMessage");
    assert_eq!(
        burberry::telegram_message::send_message_url("t"),
        "https://api.telegram.org/bott/sendMessage"
    );
}

#[test]
fn request_has_default_parse_mode_and_no_optional_fields() {
    let (_, params) = burberry::telegram_message::send_message_request(&message());
    assert_eq!(params.len(), 3);
    assert!(matches!(&params[0], Param::ChatId(c) if c == "-100"));
    assert!(matches!(&params[1], Param::Text(t) if t == "hello"));
    assert!(matches!(&params[2], Param::ParseMode(p) if p == "MarkdownV2"));
}

#[test]
fn request_carries_every_set_option() {
    let mut m = message();
    m.thread_id = Some("9".to_string());
    m.disable_notification = Some(true);
    m.protect_content = Some(true);
    m.disable_link_preview = Some(false);
    m.parse_mode = Some("HTML".to_string());
    let (_, params) = burberry::telegram_message::send_message_request(&m);
    assert_eq!(params.len(), 7);
    assert!(matches!(&params[2], Param::ParseMode(p) if p == "HTML"));
    assert!(matches!(&params[3], Param::MessageThreadId(t) if t == "9"));
    assert!(matches!(params[4], Param::DisableNotification(true)));
    assert!(matches!(params[5], Param::ProtectContent(true)));
    assert!(matches!(params[6], Param::LinkPreviewDisabled(false)));
}

#[test]
fn error_report_is_off_without_a_token() {
    let report = ErrorReport {
        bot_token: None,
        chat_id: Some("1".to_string()),
        thread_id: None,
    };
    assert!(report.request(&message(), "boom").is_none());
}

#[test]
fn error_report_quotes_the_original_text() {
    let report = ErrorReport {
        bot_token: Some("rep".to_string()),
        chat_id: None,
        thread_id: Some("5".to_string()),
    };
    let mut m = message();
    m.text = "say \"hi\"".to_string();
    let (url, params) = report.request(&m, "status 400").unwrap();
    assert_eq!(url, "https://api.telegram.org/botrep/sendMessage");
    assert_eq!(params.len(), 4);
    assert!(matches!(params[0], Param::NullChatId));
    assert!(matches!(params[1], Param::LinkPreviewDisabled(true)));
    assert!(matches!(&params[2], Param::MessageThreadId(t) if t == "5"));
    assert_eq!(
        text_of(&params[3]),
        Some("\u{274c} Fail to send message\n\nOriginal message: \"say \\\"hi\\\"\"\nError: status 400")
    );
}

#[test]
fn error_report_names_its_chat() {
    let report = ErrorReport {
        bot_token: Some("rep".to_string()),
        chat_id: Some("77".to_string()),
        thread_id: None,
    };
    let (_, params) = report.request(&message(), "e").unwrap();
    assert_eq!(params.len(), 3);
    assert!(matches!(&params[0], Param::ChatId(c) if c == "77"));
    assert_eq!(
        text_of(&params[2]),
        Some("\u{274c} Fail to send message\n\nOriginal message: \"hello\"\nError: e")
    );
}

#[test]
fn redirect_replaces_the_destination_only() {
    let redirect = Redirect {
        bot_token: "other".to_string(),
        chat_id: "42".to_string(),
        thread_id: None,
    };
    let mut m = message();
    m.thread_id = Some("3".to_string());
    m.protect_content = Some(true);
    let r = redirect.apply(m);
    assert_eq!(r.bot_token, "other");
    assert_eq!(r.chat_id, "42");
    assert_eq!(r.thread_id, None);
    assert_eq!(r.text, "hello");
    assert_eq!(r.protect_content, Some(true));
}
