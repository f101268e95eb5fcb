use crate::commands::definition::{
    chat_command, chat_command_spec, option, plain_option, CommandKind, CommandSpec, CommandView,
    OptionKind,
};
use crate::commands::options::{
    first_named, first_option, options_view, CommandOption, CommandOptionView, OptionValue,
    OptionValueView,
};
use crate::text::{decimal, parse_u64, parse_u64_spec, push_decimal};
use vstd::prelude::*;

verus! {

/// The `/delmod` slash command.
pub struct RemoveStaffCommand;

impl RemoveStaffCommand {
    /// The command's name.
    pub fn name(&self) -> (r: &'static str)
        ensures
            r@ == "delmod"@,
    {
        "delmod"
    }

    /// The translation key of the command's description.
    pub fn description_key(&self) -> (r: &'static str)
        ensures
            r@ == "slash_command.remove_staff_command_description"@,
    {
        "slash_command.remove_staff_command_description"
    }

    /// The translation key of the command's help text.
    pub fn doc_key(&self) -> (r: &'static str)
        ensures
            r@ == "help.remove_staff"@,
    {
        "help.remove_staff"
    }
}

/// Why the staff member to remove could not be read.
#[derive(Clone, Copy, PartialEq, Eq, Structural, Debug)]
pub enum StaffArgumentError {
    /// The slash command's `user_id` option is not a user, or there is none and
    /// the command has no target.
    InvalidArguments,
    /// The text command's argument is not a user id.
    InvalidFormat,
}

/// The member the slash command names: the first `user_id` option when there
/// is one (which must hold a user), else the command's target.
pub open spec fn staff_target_spec(options: Seq<CommandOptionView>, target: Option<u64>) -> Result<
    u64,
    StaffArgumentError,
> {
    match first_named(options, "user_id"@) {
        Some(OptionValueView::User(id)) => Ok(id),
        Some(_) => Err(StaffArgumentError::InvalidArguments),
        None => match target {
            Some(t) => Ok(t),
            None => Err(StaffArgumentError::InvalidArguments),
        },
    }
}

/// Reads the member to remove from the slash command's options, falling back
/// on the command's target.
pub fn staff_target(options: &Vec<CommandOption>, target: Option<u64>) -> (r: Result<
    u64,
    StaffArgumentError,
>)
    ensures
        r == staff_target_spec(options_view(options@), target),
{
    match first_option(options, "user_id") {
        Some(OptionValue::User(id)) => Ok(id),
        Some(_) => Err(StaffArgumentError::InvalidArguments),
        None => match target {
            Some(t) => Ok(t),
            None => Err(StaffArgumentError::InvalidArguments),
        },
    }
}

/// The member the text command names: its argument read as a user id
/// (`str::parse::<u64>`); an empty or malformed argument is refused.
pub fn staff_user_id(argument: &str) -> (r: Result<u64, StaffArgumentError>)
    requires
        parse_u64_spec(argument@, 10) != Some(0u64),
    ensures
        r == match parse_u64_spec(argument@, 10) {
            Some(id) => Ok::<u64, StaffArgumentError>(id),
            None => Err(StaffArgumentError::InvalidFormat),
        },
{
    match parse_u64(argument) {
        Some(id) => Ok(id),
        None => Err(StaffArgumentError::InvalidFormat),
    }
}

/// The `/delmod` commands: a chat command with a required user `user_id`, and a user-menu command of the same name.
pub open spec fn remove_staff_command_specs() -> Seq<CommandView> {
    seq![
        chat_command(
            "delmod"@,
            "slash_command.remove_staff_command_description"@,
            seq![plain_option(OptionKind::User, "user_id"@, "slash_command.remove_staff_user_id_argument"@, true)],
        ),
        CommandView {
            name: "delmod"@,
            kind: CommandKind::User,
            description_key: None,
            options: Seq::empty(),
            subcommands: Seq::empty(),
        },
    ]
}

impl RemoveStaffCommand {
    /// What `/delmod` offers to Discord.
    pub fn definitions(&self) -> (r: Vec<CommandSpec>)
        ensures
            r@.map_values(|c: CommandSpec| c@) == remove_staff_command_specs(),
    {
        let mut options = Vec::new();
        options.push(option(OptionKind::User, "user_id", "slash_command.remove_staff_user_id_argument", true));
        let chat = chat_command_spec("delmod", "slash_command.remove_staff_command_description", options);
        let menu = CommandSpec {
            name: "delmod",
            kind: CommandKind::User,
            description_key: None,
            options: Vec::new(),
            subcommands: Vec::new(),
        };
        let mut r = Vec::new();
        r.push(chat);
        r.push(menu);
        assert(r@.map_values(|c: CommandSpec| c@) =~~= remove_staff_command_specs());
        r
    }
}

/// The `{user}` parameter of the `add_staff.remove_success` answer: a mention
/// of the removed member.
pub fn removed_staff_param(user_id: u64) -> (r: String)
    ensures
        r@ == "<@"@ + decimal(user_id as nat) + ">"@,
{
    let mut r = "<@".to_owned();
    push_decimal(&mut r, user_id);
    r.append(">");
    r
}

} // verus!
