use crate::commands::definition::{
    chat_command, chat_command_spec, option, plain_option, CommandSpec, CommandView, OptionKind,
};
use vstd::prelude::*;

verus! {

/// The `/remove_reminder` slash command.
pub struct RemoveReminderCommand;

impl RemoveReminderCommand {
    /// The command's name.
    pub fn name(&self) -> (r: &'static str)
        ensures
            r@ == "remove_reminder"@,
    {
        "remove_reminder"
    }

    /// The translation key of the command's description.
    pub fn description_key(&self) -> (r: &'static str)
        ensures
            r@ == "slash_command.remove_reminder_command_description"@,
    {
        "slash_command.remove_reminder_command_description"
    }
}

/// The `/remove_reminder` command: a required number `id`.
pub open spec fn remove_reminder_command_spec() -> CommandView {
    chat_command(
        "remove_reminder"@,
        "slash_command.remove_reminder_command_description"@,
        seq![plain_option(OptionKind::Number, "id"@, "slash_command.remove_reminder_id_argument"@, true)],
    )
}

impl RemoveReminderCommand {
    /// What `/remove_reminder` offers to Discord.
    pub fn definition(&self) -> (r: CommandSpec)
        ensures
            r@ == remove_reminder_command_spec(),
    {
        let mut options = Vec::new();
        options.push(option(OptionKind::Number, "id", "slash_command.remove_reminder_id_argument", true));
        let r = chat_command_spec(
            "remove_reminder",
            "slash_command.remove_reminder_command_description",
            options,
        );
        assert(r@ =~~= remove_reminder_command_spec());
        r
    }
}

} // verus!
