use aiqa::config::Config;
use aiqa::error::CompletionError;
use aiqa::error::ScreenshotError;
use aiqa::orchestrate::apology_reply;
use aiqa::orchestrate::build_turns;
use aiqa::orchestrate::command_kind;
use aiqa::orchestrate::image_uri;
use aiqa::orchestrate::reply_body;
use aiqa::orchestrate::strip_command;
use aiqa::orchestrate::Dispatch;
use aiqa::req::build_request_turns;
use aiqa::req::extract_reply;
use aiqa::req::Message;
use aiqa::req::Role;

#[test]
fn command_stripping() {
    assert_eq!(strip_command("ccc foo ccc", 'c'), "foo");
    assert_eq!(strip_command("c foo", 'c'), "foo");
    assert_eq!(strip_command("%% hello", '%'), "hello");
    assert_eq!(strip_command("%", '%'), "");
    assert_eq!(strip_command("  spaced  ", '%'), "spaced");
    assert_eq!(strip_command("c inner c stays c", 'c'), "inner c stays");
    assert_eq!(strip_command("", 'c'), "");
    assert_eq!(strip_command("cc", 'c'), "");
    assert_eq!(strip_command("c\u{3000}wide\u{3000}c", 'c'), "wide");
}

#[test]
fn command_dispatch() {
    assert_eq!(command_kind("%% hello", '%'), Dispatch::TextReply);
    assert_eq!(command_kind("% print hello", '%'), Dispatch::ImageReply);
    assert_eq!(command_kind("hello", '%'), Dispatch::Ignore);
    assert_eq!(command_kind("", '%'), Dispatch::Ignore);
    assert_eq!(command_kind("%", '%'), Dispatch::ImageReply);
    assert_eq!(command_kind("%%", '%'), Dispatch::TextReply);
}

#[test]
fn quote_prepending() {
    let turns = build_turns(Some("Q".to_string()), "explain".to_string());
    assert_eq!(turns.len(), 2);
    assert_eq!(turns[0].role, Role::User);
    assert_eq!(turns[0].content, "Q");
    assert_eq!(turns[1].role, Role::User);
    assert_eq!(turns[1].content, "explain");

    let alone = build_turns(None, "explain".to_string());
    assert_eq!(alone.len(), 1);
    assert_eq!(alone[0].role, Role::User);
    assert_eq!(alone[0].content, "explain");
}

#[test]
fn system_prompt_prepended() {
    let turns = vec![
        Message::new(Role::User, "hi".to_string()),
        Message::new(Role::Assistant, "yes?".to_string()),
    ];
    let sent = build_request_turns(turns);
    assert_eq!(sent.len(), 3);
    assert_eq!(sent[0].role, Role::System);
    assert_eq!(sent[0].content, aiqa::config::persona_prompt_str());
    assert_eq!(sent[1].role, Role::User);
    assert_eq!(sent[1].content, "hi");
    assert_eq!(sent[2].role, Role::Assistant);
    assert_eq!(sent[2].content, "yes?");
}

#[test]
fn reply_extraction() {
    assert_eq!(extract_reply(vec![]), Err(CompletionError::RequestFailed));
    assert_eq!(
        extract_reply(vec![Some("a".to_string()), None]),
        Err(CompletionError::NoContent)
    );
    assert_eq!(
        extract_reply(vec![Some("a".to_string()), Some("b".to_string())]),
        Ok("b".to_string())
    );
}

#[test]
fn apology_prefixes_the_error() {
    let reply = apology_reply("TabCreateErr: gone");
    assert_eq!(reply, "你的问题太难了，我不会Q-Q。\n\nTabCreateErr: gone");
}

#[test]
fn reply_body_for_each_outcome() {
    assert_eq!(reply_body(Ok("hi".to_string())), "hi");
    assert_eq!(
        reply_body(Err("no content".to_string())),
        "你的问题太难了，我不会Q-Q。\n\nno content"
    );
}

#[test]
fn session_resize_helpers() {
    assert_eq!(aiqa::session::padded_height(100), 300);
    assert_eq!(aiqa::session::padded_height(0), 200);
    assert_eq!(aiqa::session::padded_height(u32::MAX - 200), u32::MAX);
    assert_eq!(aiqa::session::padded_height(u32::MAX - 199), u32::MAX);
    assert_eq!(aiqa::session::padded_height(u32::MAX), u32::MAX);
    assert_eq!(
        aiqa::session::file_url("/data/output.html"),
        "file:///data/output.html"
    );
}

#[test]
fn image_uri_is_base64_scheme() {
    assert_eq!(image_uri(vec![1, 2, 3]), "base64://AQID");
    assert_eq!(image_uri(vec![]), "base64://");
    let uri = image_uri(vec![137, 80, 78, 71]);
    assert!(uri.starts_with("base64://"));
}

#[test]
fn screenshot_error_messages() {
    assert_eq!(
        ScreenshotError::BrowserCreateErr("x".to_string()).message(),
        "BrowserBuildErr: x"
    );
    assert_eq!(
        ScreenshotError::TabCreateErr("y".to_string()).message(),
        "TabCreateErr: y"
    );
    assert_eq!(
        ScreenshotError::TabOperateErr("z".to_string()).message(),
        "TabOperateErr: z"
    );
    assert_eq!(
        ScreenshotError::InvalidFilePath("p".to_string()).message(),
        "InvalidFilePath: p"
    );
    assert_eq!(
        ScreenshotError::ScreenshotCreateErr("q".to_string()).message(),
        "ScreenshotCreateErr: q"
    );
}

#[test]
fn completion_error_messages() {
    assert_eq!(CompletionError::RequestFailed.message(), "request failed");
    assert_eq!(CompletionError::NoContent.message(), "no content");
}

#[test]
fn config_required_fields() {
    let full = Config {
        apikey: Some("a-key".to_string()),
        base_url: Some("https://api.example.invalid/v1".to_string()),
        model_name: Some("some-model".to_string()),
        cmd: '%',
    };
    assert!(full.has_required_fields());
    let missing = Config {
        apikey: None,
        base_url: full.base_url.clone(),
        model_name: full.model_name.clone(),
        cmd: '%',
    };
    assert!(!missing.has_required_fields());
}

#[test]
fn message_constructors() {
    let m = Message::new(Role::Assistant, "text".to_string());
    assert_eq!(m.role, Role::Assistant);
    assert_eq!(m.content, "text");
    let u = Message::new_with_user("ask".to_string());
    assert_eq!(u.role, Role::User);
    assert_eq!(u.content, "ask");
}
