use rustmail::commands::snippet::{snippet_list_reply, snippet_text_list_reply, snippet_use, SnippetUse};
use rustmail::commands::ping::PingCommand;
use rustmail::commands::recover::{recovery_summary, RecoverCommand, RecoveryResult};
use rustmail::commands::release::already_released;
use rustmail::commands::remove_reminder::RemoveReminderCommand;
use rustmail::commands::remove_staff::RemoveStaffCommand;
use rustmail::commands::reply::ReplyCommand;
use rustmail::commands::snippet::{
    check_new_snippet, check_snippet_content, parse_snippet_request, snippet_card,
    snippet_listing, snippet_text_listing, split_once_space, Snippet, SnippetCommand,
    SnippetError, SnippetRequest, SNIPPET_LIST_LIMIT, SNIPPET_MAX_CONTENT_CHARS,
};
use rustmail::commands::status::{
    status_argument, Activity, BotStatus, Presence, StatusCommand, StatusError,
};
use rustmail::commands::take::{already_taken, taken_name, TakeCommand};

fn snippet(key: &str, content: &str) -> Snippet {
    Snippet {
        key: key.to_string(),
        content: content.to_string(),
        created_by: "42".to_string(),
        created_at: "2024-05-01".to_string(),
    }
}

#[test]
fn command_names_and_keys() {
    assert_eq!(PingCommand.name(), "ping");
    assert_eq!(PingCommand.doc_key(), "help.ping");
    assert_eq!(RecoverCommand.name(), "recover");
    assert_eq!(RemoveReminderCommand.name(), "remove_reminder");
    assert_eq!(RemoveStaffCommand.name(), "delmod");
    assert_eq!(ReplyCommand.name(), "reply");
    assert_eq!(SnippetCommand.name(), "snippet");
    assert_eq!(StatusCommand.name(), "status");
    assert_eq!(TakeCommand.name(), "take");
    assert_eq!(TakeCommand.doc_key(), "help.take");
}

#[test]
fn snippet_keys_follow_the_pattern() {
    assert_eq!(check_new_snippet("greet_1-x", "Hello!"), Ok(()));
    assert_eq!(check_new_snippet("bad key", "Hello!"), Err(SnippetError::InvalidKeyFormat));
    assert_eq!(check_new_snippet("", "Hello!"), Err(SnippetError::InvalidKeyFormat));
    assert_eq!(check_new_snippet("é", "Hello!"), Err(SnippetError::InvalidKeyFormat));
    assert_eq!(check_new_snippet("bad!", "x"), Err(SnippetError::InvalidKeyFormat));
}

#[test]
fn snippet_content_limit_is_in_characters() {
    let at_limit = "a".repeat(SNIPPET_MAX_CONTENT_CHARS);
    let over = "a".repeat(SNIPPET_MAX_CONTENT_CHARS + 1);
    assert_eq!(check_new_snippet("k", &at_limit), Ok(()));
    assert_eq!(check_new_snippet("k", &over), Err(SnippetError::ContentTooLong));
    assert_eq!(check_new_snippet("bad key", &over), Err(SnippetError::InvalidKeyFormat));
    assert_eq!(check_snippet_content(&"é".repeat(2001)), Ok(()));
    assert_eq!(check_snippet_content(&"é".repeat(4000)), Ok(()));
    assert_eq!(check_snippet_content(&"é".repeat(4001)), Err(SnippetError::ContentTooLong));
    assert_eq!(check_new_snippet("k", &"🔵".repeat(4000)), Ok(()));
}

#[test]
fn split_once_space_splits_at_the_first_space() {
    assert_eq!(split_once_space("a b c"), ("a", Some("b c")));
    assert_eq!(split_once_space("abc"), ("abc", None));
    assert_eq!(split_once_space(" x"), ("", Some("x")));
}

#[test]
fn snippet_requests() {
    match parse_snippet_request("create greet Hello there") {
        Ok(SnippetRequest::Create { key, content }) => {
            assert_eq!(key, "greet");
            assert_eq!(content, "Hello there");
        }
        other => panic!("unexpected {:?}", other),
    }
    assert!(matches!(parse_snippet_request("list"), Ok(SnippetRequest::List)));
    match parse_snippet_request("show greet") {
        Ok(SnippetRequest::Show { key }) => assert_eq!(key, "greet"),
        other => panic!("unexpected {:?}", other),
    }
    match parse_snippet_request("edit greet  New text ") {
        Ok(SnippetRequest::Edit { key, content }) => {
            assert_eq!(key, "greet");
            assert_eq!(content, "New text");
        }
        other => panic!("unexpected {:?}", other),
    }
    match parse_snippet_request("delete greet") {
        Ok(SnippetRequest::Delete { key }) => assert_eq!(key, "greet"),
        other => panic!("unexpected {:?}", other),
    }
    assert!(matches!(parse_snippet_request("what is this"), Ok(SnippetRequest::UnknownSubcommand)));
    assert!(matches!(parse_snippet_request("bad!"), Ok(SnippetRequest::UnknownSubcommand)));
    match parse_snippet_request("use greet") {
        Ok(SnippetRequest::Use { key }) => assert_eq!(key, "greet"),
        other => panic!("unexpected {:?}", other),
    }
    match parse_snippet_request("greet") {
        Ok(SnippetRequest::Use { key }) => assert_eq!(key, "greet"),
        other => panic!("unexpected {:?}", other),
    }
    assert!(matches!(
        parse_snippet_request("use"),
        Ok(SnippetRequest::Usage { key: "snippet.text_usage" })
    ));
}

#[test]
fn snippet_request_usages_and_errors() {
    assert!(matches!(
        parse_snippet_request("create greet"),
        Ok(SnippetRequest::Usage { key: "snippet.text_create_usage" })
    ));
    assert!(matches!(
        parse_snippet_request("show"),
        Ok(SnippetRequest::Usage { key: "snippet.text_show_usage" })
    ));
    assert!(matches!(
        parse_snippet_request("edit"),
        Ok(SnippetRequest::Usage { key: "snippet.text_edit_usage" })
    ));
    assert!(matches!(
        parse_snippet_request("delete "),
        Ok(SnippetRequest::Usage { key: "snippet.text_delete_usage" })
    ));
    assert_eq!(
        parse_snippet_request("create bad!key text").unwrap_err(),
        SnippetError::InvalidKeyFormat
    );
    let long = format!("edit k {}", "z".repeat(SNIPPET_MAX_CONTENT_CHARS + 1));
    assert_eq!(parse_snippet_request(&long).unwrap_err(), SnippetError::ContentTooLong);
}

#[test]
fn accepted_creations_have_valid_keys() {
    for text in ["create k1 body", "create  spaced   body  ", "create k-_ x"] {
        if let Ok(SnippetRequest::Create { key, content }) = parse_snippet_request(text) {
            assert!(check_new_snippet(&key, &content).is_ok());
            assert_eq!(key.trim(), key);
            assert_eq!(content.trim(), content);
            assert!(!content.is_empty());
        }
    }
}

#[test]
fn snippet_listing_previews_and_counts() {
    let list = vec![snippet("a", "short"), snippet("b", &"x".repeat(60))];
    assert_eq!(
        snippet_listing(&list),
        format!("**`a`** - short\n**`b`** - {}...\n", "x".repeat(50))
    );
    let many: Vec<Snippet> = (0..SNIPPET_LIST_LIMIT + 2).map(|i| snippet(&format!("k{}", i), "c")).collect();
    let text = snippet_listing(&many);
    assert!(text.ends_with("\n*...and 2 more*"));
    assert_eq!(text.matches("**`").count(), SNIPPET_LIST_LIMIT);
    assert_eq!(snippet_listing(&vec![]), "");
}

#[test]
fn snippet_text_listing_numbers_keys() {
    let list = vec![snippet("a", "1"), snippet("b", "2")];
    assert_eq!(snippet_text_listing("Snippets", &list), "Snippets\n\n`1` a\n\n`2` b\n\n");
    assert_eq!(snippet_text_listing("Snippets", &vec![]), "Snippets\n\n");
}

#[test]
fn snippet_cards() {
    assert_eq!(
        snippet_card("Title", &snippet("a", "Body"), "By", "At"),
        "Title\n\nBody\n\n*By: <@42> | At: 2024-05-01*"
    );
}

#[test]
fn status_values() {
    assert_eq!(BotStatus::parse("online"), Some(BotStatus::Online));
    assert_eq!(BotStatus::parse("idle"), Some(BotStatus::Idle));
    assert_eq!(BotStatus::parse("dnd"), Some(BotStatus::Dnd));
    assert_eq!(BotStatus::parse("invisible"), Some(BotStatus::Invisible));
    assert_eq!(BotStatus::parse("maintenance"), Some(BotStatus::Maintenance));
    assert_eq!(BotStatus::parse("Online"), None);
    assert_eq!(status_argument(None), Err(StatusError::StatusIsMissing));
    assert_eq!(status_argument(Some("busy")), Err(StatusError::InvalidStatusValue));
    assert_eq!(status_argument(Some("dnd")), Ok(BotStatus::Dnd));
}

#[test]
fn status_changes() {
    let online = BotStatus::Online.change();
    assert_eq!(online.maintenance, Some(false));
    assert_eq!(online.activity, Activity::ConfiguredStatus);
    assert_eq!(online.presence, Presence::Online);
    let maintenance = BotStatus::Maintenance.change();
    assert_eq!(maintenance.maintenance, Some(true));
    assert_eq!(maintenance.activity, Activity::MaintenanceNotice);
    assert_eq!(maintenance.presence, Presence::DoNotDisturb);
    let idle = BotStatus::Idle.change();
    assert_eq!(idle.maintenance, None);
    assert_eq!(idle.activity, Activity::Unchanged);
    assert_eq!(BotStatus::Dnd.change().presence, Presence::DoNotDisturb);
    assert_eq!(BotStatus::Invisible.change().presence, Presence::Invisible);
    assert_eq!(BotStatus::Maintenance.message_key(), "status.status_maintenance");
    assert_eq!(BotStatus::Online.message_key(), "status.status_online");
}

#[test]
fn maintenance_flag_only_moves_with_online_and_maintenance() {
    for s in [BotStatus::Online, BotStatus::Idle, BotStatus::Dnd, BotStatus::Invisible, BotStatus::Maintenance] {
        let c = s.change();
        match s {
            BotStatus::Online => assert_eq!(c.maintenance, Some(false)),
            BotStatus::Maintenance => assert_eq!(c.maintenance, Some(true)),
            _ => assert_eq!(c.maintenance, None),
        }
    }
}

#[test]
fn take_and_release_names() {
    assert_eq!(taken_name("bob"), "🔵-bob");
    assert!(already_taken("🔵-bob", "bob"));
    assert!(!already_taken("bob", "bob"));
    assert!(already_released("alice", "alice"));
    assert!(!already_released("🔵-bob", "alice"));
}

#[test]
fn recovery_summaries() {
    let results = vec![
        RecoveryResult { recovered_count: 3, success: true },
        RecoveryResult { recovered_count: 0, success: false },
        RecoveryResult { recovered_count: 4, success: true },
    ];
    assert_eq!(recovery_summary(&results), (7, 2, 1));
    assert_eq!(recovery_summary(&vec![]), (0, 0, 0));
}

#[test]
fn taken_names_identify_the_staff_member() {
    let names = ["bob", "bo", "bobb", "", "🔵"];
    for a in names {
        for b in names {
            assert_eq!(taken_name(a) == taken_name(b), a == b);
            assert_eq!(already_taken(&taken_name(a), b), a == b);
        }
    }
}

#[test]
fn using_and_listing_snippets() {
    let s = snippet("greet", "Hello!");
    assert!(matches!(snippet_use(Some(&s)), SnippetUse::Send { content } if content == "Hello!"));
    assert!(matches!(snippet_use(None), SnippetUse::NotFound));
    assert_eq!(snippet_list_reply(&vec![]), Err("snippet.no_snippets_found"));
    assert_eq!(snippet_list_reply(&vec![s.clone()]), Ok("**`greet`** - Hello!\n".to_string()));
    assert_eq!(snippet_text_list_reply("T", &vec![]), Err("snippet.list_empty"));
    assert_eq!(snippet_text_list_reply("T", &vec![s]), Ok("T\n\n`1` greet\n\n".to_string()));
}
