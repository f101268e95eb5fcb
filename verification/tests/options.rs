use rustmail::commands::reply::{reply_intent, ReplyError, ReplyIntent};
use rustmail::commands::snippet::{snippet_slash_request, SnippetRequest};
use rustmail::commands::remove_staff::removed_staff_param;
use rustmail::commands::options::{
    first_option, option_attachments, option_flag, option_text, CommandOption, OptionValue,
};
use rustmail::commands::remove_staff::{staff_target, staff_user_id, StaffArgumentError};
use rustmail::commands::reply::reply_arguments;
use rustmail::commands::snippet::snippet_arguments;

fn opt(name: &str, value: OptionValue) -> CommandOption {
    CommandOption { name: name.to_string(), value }
}

fn text(s: &str) -> OptionValue {
    OptionValue::Text(s.to_string())
}

#[test]
fn last_matching_option_wins() {
    let options = vec![
        opt("message", text("first")),
        opt("message", OptionValue::Flag(true)),
        opt("other", text("x")),
        opt("message", text("second")),
        opt("anonymous", OptionValue::Flag(true)),
        opt("anonymous", OptionValue::Flag(false)),
    ];
    assert_eq!(option_text(&options, "message"), Some("second".to_string()));
    assert_eq!(option_text(&options, "missing"), None);
    assert_eq!(option_flag(&options, "anonymous"), Some(false));
    assert_eq!(option_flag(&options, "message"), Some(true));
}

#[test]
fn attachments_keep_their_order() {
    let options = vec![
        opt("attachment", OptionValue::Attachment(3)),
        opt("file", OptionValue::Attachment(4)),
        opt("attachment", OptionValue::Attachment(1)),
        opt("attachment", text("not a file")),
    ];
    assert_eq!(option_attachments(&options, "attachment"), vec![3, 1]);
    assert!(option_attachments(&vec![], "attachment").is_empty());
}

#[test]
fn first_option_by_name() {
    let options = vec![opt("a", OptionValue::User(1)), opt("b", text("x")), opt("a", OptionValue::User(2))];
    assert!(matches!(first_option(&options, "a"), Some(OptionValue::User(1))));
    assert!(matches!(first_option(&options, "b"), Some(OptionValue::Text(ref t)) if t == "x"));
    assert!(first_option(&options, "c").is_none());
}

#[test]
fn reply_arguments_read_the_options() {
    let options = vec![
        opt("message", text("hello")),
        opt("attachment", OptionValue::Attachment(9)),
        opt("anonymous", OptionValue::Flag(true)),
    ];
    let a = reply_arguments(&options);
    assert_eq!(a.content, Some("hello".to_string()));
    assert_eq!(a.snippet, None);
    assert_eq!(a.attachments, vec![9]);
    assert!(a.anonymous);
    let empty = reply_arguments(&vec![]);
    assert_eq!(empty.content, None);
    assert!(empty.attachments.is_empty());
    assert!(!empty.anonymous);
}

#[test]
fn staff_targets() {
    assert_eq!(staff_target(&vec![opt("user_id", OptionValue::User(7))], Some(8)), Ok(7));
    assert_eq!(
        staff_target(&vec![opt("user_id", text("7"))], Some(8)),
        Err(StaffArgumentError::InvalidArguments)
    );
    assert_eq!(staff_target(&vec![opt("other", OptionValue::User(7))], Some(8)), Ok(8));
    assert_eq!(staff_target(&vec![], None), Err(StaffArgumentError::InvalidArguments));
    assert_eq!(
        staff_target(&vec![opt("user_id", OptionValue::User(7)), opt("user_id", OptionValue::Other)], None),
        Ok(7)
    );
}

#[test]
fn staff_user_ids_from_text() {
    assert_eq!(staff_user_id("1234"), Ok(1234));
    assert_eq!(staff_user_id(""), Err(StaffArgumentError::InvalidFormat));
    assert_eq!(staff_user_id("<@1234>"), Err(StaffArgumentError::InvalidFormat));
}

#[test]
fn snippet_subcommand_arguments() {
    let options = vec![opt("key", text("greet")), opt("content", text("Hi")), opt("key", OptionValue::Other)];
    assert_eq!(snippet_arguments(&options), ("greet".to_string(), "Hi".to_string()));
    assert_eq!(snippet_arguments(&vec![]), (String::new(), String::new()));
}

#[test]
fn reply_with_a_snippet() {
    let options = vec![opt("snippet", text("greet"))];
    let a = reply_arguments(&options);
    assert_eq!(a.content, None);
    assert_eq!(a.snippet, Some("greet".to_string()));
}

#[test]
fn reply_intents() {
    assert!(matches!(reply_intent(Some("hi".to_string()), false), Ok(ReplyIntent::Text(t)) if t == "hi"));
    assert!(matches!(
        reply_intent(Some("hi".to_string()), true),
        Ok(ReplyIntent::TextAndAttachments(t)) if t == "hi"
    ));
    assert!(matches!(reply_intent(Some(String::new()), true), Ok(ReplyIntent::Attachments)));
    assert!(matches!(reply_intent(None, true), Ok(ReplyIntent::Attachments)));
    assert_eq!(reply_intent(None, false).unwrap_err(), ReplyError::MessageEmpty);
    assert_eq!(reply_intent(Some(String::new()), false).unwrap_err(), ReplyError::MessageEmpty);
    assert_eq!(ReplyError::MessageEmpty.key(), "message.empty");
}

#[test]
fn snippet_slash_requests() {
    let options = vec![opt("key", text("greet")), opt("content", text("Hi"))];
    assert!(matches!(snippet_slash_request("use", &options), SnippetRequest::Use { key } if key == "greet"));
    assert!(matches!(
        snippet_slash_request("create", &options),
        SnippetRequest::Create { key, content } if key == "greet" && content == "Hi"
    ));
    assert!(matches!(snippet_slash_request("list", &options), SnippetRequest::List));
    assert!(matches!(snippet_slash_request("show", &vec![]), SnippetRequest::Show { key } if key.is_empty()));
    assert!(matches!(snippet_slash_request("rename", &options), SnippetRequest::UnknownSubcommand));
}

#[test]
fn removed_staff_mentions() {
    assert_eq!(removed_staff_param(42), "<@42>");
}
