use crate::commands::definition::{chat_command, chat_command_spec, CommandSpec, CommandView};
use crate::text::str_eq;
use vstd::prelude::*;

verus! {

/// The `/take` slash command.
pub struct TakeCommand;

impl TakeCommand {
    /// The command's name.
    pub fn name(&self) -> (r: &'static str)
        ensures
            r@ == "take"@,
    {
        "take"
    }

    /// The translation key of the command's description.
    pub fn description_key(&self) -> (r: &'static str)
        ensures
            r@ == "slash_command.help_command_description"@,
    {
        "slash_command.help_command_description"
    }

    /// The translation key of the command's help text.
    pub fn doc_key(&self) -> (r: &'static str)
        ensures
            r@ == "help.take"@,
    {
        "help.take"
    }
}


/// The name a ticket channel gets once a staff member took it.
pub open spec fn taken_name_spec(staff_name: Seq<char>) -> Seq<char> {
    "🔵-"@ + staff_name
}

/// The name of a ticket channel taken by `staff_name` (`format!("🔵-{}", name)`).
pub fn taken_name(staff_name: &str) -> (r: String)
    ensures
        r@ == taken_name_spec(staff_name@),
{
    let mut r = "🔵-".to_owned();
    r.append(staff_name);
    r
}

/// Whether the ticket channel already carries the name of being taken by
/// `staff_name` (the command is then refused).
pub fn already_taken(channel_name: &str, staff_name: &str) -> (r: bool)
    ensures
        r == (channel_name@ == taken_name_spec(staff_name@)),
{
    let t = taken_name(staff_name);
    str_eq(channel_name, t.as_str())
}

/// A channel renamed by one staff member reads as taken by that member and by
/// no one else: distinct staff names give distinct taken names.
pub proof fn lemma_taken_name_identifies_staff(a: Seq<char>, b: Seq<char>)
    ensures
        taken_name_spec(a) == taken_name_spec(b) <==> a == b,
{
    reveal_strlit("🔵-");
    if taken_name_spec(a) == taken_name_spec(b) {
        let p = "🔵-"@;
        assert(a =~= taken_name_spec(a).subrange(p.len() as int, taken_name_spec(a).len() as int));
        assert(b =~= taken_name_spec(b).subrange(p.len() as int, taken_name_spec(b).len() as int));
    }
}

/// The `/take` command: no options.
pub open spec fn take_command_spec() -> CommandView {
    chat_command("take"@, "slash_command.help_command_description"@, Seq::empty())
}

impl TakeCommand {
    /// What `/take` offers to Discord.
    pub fn definition(&self) -> (r: CommandSpec)
        ensures
            r@ == take_command_spec(),
    {
        let r = chat_command_spec("take", "slash_command.help_command_description", Vec::new());
        assert(r@ =~~= take_command_spec());
        r
    }
}

} // verus!
