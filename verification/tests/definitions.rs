use rustmail::commands::definition::{ChoiceLabel, CommandKind, OptionKind};
use rustmail::commands::ping::PingCommand;
use rustmail::commands::recover::RecoverCommand;
use rustmail::commands::remove_reminder::RemoveReminderCommand;
use rustmail::commands::remove_staff::RemoveStaffCommand;
use rustmail::commands::reply::ReplyCommand;
use rustmail::commands::snippet::SnippetCommand;
use rustmail::commands::status::StatusCommand;
use rustmail::commands::take::TakeCommand;
use rustmail::modules::threads::{already_exists_param, thread_closing_params, ticket_creation_form};

#[test]
fn snippet_command_has_six_subcommands() {
    let c = SnippetCommand.definition();
    assert_eq!(c.name, "snippet");
    assert_eq!(c.kind, CommandKind::ChatInput);
    assert_eq!(c.description_key, Some("slash_command.snippet_command_description"));
    assert!(c.options.is_empty());
    let names: Vec<&str> = c.subcommands.iter().map(|s| s.name).collect();
    assert_eq!(names, vec!["create", "list", "show", "edit", "delete", "use"]);
    let args: Vec<Vec<&str>> = c.subcommands.iter().map(|s| s.options.iter().map(|o| o.name).collect()).collect();
    assert_eq!(
        args,
        vec![vec!["key", "content"], vec![], vec!["key"], vec!["key", "content"], vec!["key"], vec!["key"]]
    );
    assert_eq!(c.subcommands[5].description_key, "slash_command.snippet_use_description");
    for s in &c.subcommands {
        for o in &s.options {
            assert!(o.required);
            assert_eq!(o.kind, OptionKind::Text);
        }
    }
    assert_eq!(c.subcommands[1].description_key, "slash_command.snippet_list_description");
    assert_eq!(c.subcommands[0].options[0].description_key, "slash_command.snippet_key_argument");
}

#[test]
fn status_command_offers_five_modes() {
    let c = StatusCommand.definition();
    assert_eq!(c.name, "status");
    assert_eq!(c.options.len(), 1);
    let mode = &c.options[0];
    assert_eq!(mode.name, "mode");
    assert!(mode.required);
    let values: Vec<&str> = mode.choices.iter().map(|c| c.value).collect();
    assert_eq!(values, vec!["online", "idle", "dnd", "invisible", "maintenance"]);
    assert!(matches!(mode.choices[0].label, ChoiceLabel::Translated("slash_command.online_status_mode")));
    assert!(matches!(mode.choices[4].label, ChoiceLabel::Fixed("Maintenance")));
}

#[test]
fn other_command_definitions() {
    assert_eq!(PingCommand.definition().name, "ping");
    assert!(PingCommand.definition().options.is_empty());
    assert_eq!(RecoverCommand.definition().description_key, Some("slash_command.recover_command_description"));
    assert_eq!(TakeCommand.definition().description_key, Some("slash_command.help_command_description"));
    let r = RemoveReminderCommand.definition();
    assert_eq!(r.options[0].kind, OptionKind::Number);
    assert_eq!(r.options[0].name, "id");
    let reply = ReplyCommand.definition();
    let opts: Vec<(&str, OptionKind, bool)> = reply.options.iter().map(|o| (o.name, o.kind, o.required)).collect();
    assert_eq!(
        opts,
        vec![
            ("message", OptionKind::Text, false),
            ("snippet", OptionKind::Text, false),
            ("attachment", OptionKind::Attachment, false),
            ("anonymous", OptionKind::Boolean, false)
        ]
    );
    let staff = RemoveStaffCommand.definitions();
    assert_eq!(staff.len(), 2);
    assert_eq!(staff[0].options[0].kind, OptionKind::User);
    assert_eq!(staff[1].kind, CommandKind::User);
    assert_eq!(staff[1].description_key, None);
}

#[test]
fn ticket_form_and_answer_parameters() {
    let f = ticket_creation_form();
    assert_eq!(f.custom_id, "thread:create");
    assert_eq!(f.input_custom_id, "thread:create:user_id");
    assert!(f.input_required);
    assert_eq!(thread_closing_params(30, 42), ("30".to_string(), "<@42>".to_string()));
    assert_eq!(already_exists_param("777"), "<#777>");
}
