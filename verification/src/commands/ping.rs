use crate::commands::definition::{chat_command, chat_command_spec, CommandSpec, CommandView};
use vstd::prelude::*;

verus! {

/// The `/ping` slash command.
pub struct PingCommand;

impl PingCommand {
    /// The command's name.
    pub fn name(&self) -> (r: &'static str)
        ensures
            r@ == "ping"@,
    {
        "ping"
    }

    /// The translation key of the command's description.
    pub fn description_key(&self) -> (r: &'static str)
        ensures
            r@ == "slash_command.ping_command_desc"@,
    {
        "slash_command.ping_command_desc"
    }

    /// The translation key of the command's help text.
    pub fn doc_key(&self) -> (r: &'static str)
        ensures
            r@ == "help.ping"@,
    {
        "help.ping"
    }
}

/// The `/ping` command: no options.
pub open spec fn ping_command_spec() -> CommandView {
    chat_command("ping"@, "slash_command.ping_command_desc"@, Seq::empty())
}

impl PingCommand {
    /// What `/ping` offers to Discord.
    pub fn definition(&self) -> (r: CommandSpec)
        ensures
            r@ == ping_command_spec(),
    {
        let r = chat_command_spec("ping", "slash_command.ping_command_desc", Vec::new());
        assert(r@ =~~= ping_command_spec());
        r
    }
}

} // verus!
