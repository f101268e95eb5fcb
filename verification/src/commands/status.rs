use crate::commands::definition::{
    chat_command, chat_command_spec, ChoiceLabel, ChoiceLabelView, ChoiceSpec, ChoiceView,
    CommandSpec, CommandView, OptionKind, OptionSpec, OptionView,
};
use crate::text::str_eq;
use vstd::prelude::*;

verus! {

/// The `/status` slash command.
pub struct StatusCommand;

impl StatusCommand {
    /// The command's name.
    pub fn name(&self) -> (r: &'static str)
        ensures
            r@ == "status"@,
    {
        "status"
    }

    /// The translation key of the command's description.
    pub fn description_key(&self) -> (r: &'static str)
        ensures
            r@ == "slash_command.status_command_description"@,
    {
        "slash_command.status_command_description"
    }

    /// The translation key of the command's help text.
    pub fn doc_key(&self) -> (r: &'static str)
        ensures
            r@ == "slash_command.status_command_help"@,
    {
        "slash_command.status_command_help"
    }
}

/// A status the bot can be put in.
#[derive(Clone, Copy, PartialEq, Eq, Structural, Debug)]
pub enum BotStatus {
    Online,
    Idle,
    Dnd,
    Invisible,
    Maintenance,
}

/// The status a name gives (the snake-case name of the variant, exactly).
pub open spec fn bot_status_spec(name: Seq<char>) -> Option<BotStatus> {
    if name == "online"@ {
        Some(BotStatus::Online)
    } else if name == "idle"@ {
        Some(BotStatus::Idle)
    } else if name == "dnd"@ {
        Some(BotStatus::Dnd)
    } else if name == "invisible"@ {
        Some(BotStatus::Invisible)
    } else if name == "maintenance"@ {
        Some(BotStatus::Maintenance)
    } else {
        None
    }
}

impl BotStatus {
    /// Reads a status by its name.
    pub fn parse(name: &str) -> (r: Option<BotStatus>)
        ensures
            r == bot_status_spec(name@),
    {
        if str_eq(name, "online") {
            Some(BotStatus::Online)
        } else if str_eq(name, "idle") {
            Some(BotStatus::Idle)
        } else if str_eq(name, "dnd") {
            Some(BotStatus::Dnd)
        } else if str_eq(name, "invisible") {
            Some(BotStatus::Invisible)
        } else if str_eq(name, "maintenance") {
            Some(BotStatus::Maintenance)
        } else {
            None
        }
    }
}

/// The presence shown on Discord.
#[derive(Clone, Copy, PartialEq, Eq, Structural, Debug)]
pub enum Presence {
    Online,
    Idle,
    DoNotDisturb,
    Invisible,
}

/// The activity shown under the bot's name.
#[derive(Clone, Copy, PartialEq, Eq, Structural, Debug)]
pub enum Activity {
    /// Left as it is.
    Unchanged,
    /// Playing the configured status text.
    ConfiguredStatus,
    /// Playing the translated maintenance notice.
    MaintenanceNotice,
}

/// What putting the bot in a status does.
#[derive(Clone, Copy, PartialEq, Eq, Structural, Debug)]
pub struct StatusChange {
    /// The new value of the maintenance flag, when it changes.
    pub maintenance: Option<bool>,
    pub activity: Activity,
    pub presence: Presence,
}

/// The effect of each status: `online` leaves maintenance and shows the
/// configured activity; `maintenance` enters it, shows the notice and does not
/// disturb; the others only change the presence.
pub open spec fn status_change_spec(s: BotStatus) -> StatusChange {
    match s {
        BotStatus::Online => StatusChange {
            maintenance: Some(false),
            activity: Activity::ConfiguredStatus,
            presence: Presence::Online,
        },
        BotStatus::Idle => StatusChange {
            maintenance: None,
            activity: Activity::Unchanged,
            presence: Presence::Idle,
        },
        BotStatus::Dnd => StatusChange {
            maintenance: None,
            activity: Activity::Unchanged,
            presence: Presence::DoNotDisturb,
        },
        BotStatus::Invisible => StatusChange {
            maintenance: None,
            activity: Activity::Unchanged,
            presence: Presence::Invisible,
        },
        BotStatus::Maintenance => StatusChange {
            maintenance: Some(true),
            activity: Activity::MaintenanceNotice,
            presence: Presence::DoNotDisturb,
        },
    }
}

/// The translation key of the confirmation of a status.
pub open spec fn status_key_spec(s: BotStatus) -> Seq<char> {
    match s {
        BotStatus::Online => "status.status_online"@,
        BotStatus::Idle => "status.status_idle"@,
        BotStatus::Dnd => "status.status_dnd"@,
        BotStatus::Invisible => "status.status_invisible"@,
        BotStatus::Maintenance => "status.status_maintenance"@,
    }
}

impl BotStatus {
    /// What putting the bot in this status does.
    pub fn change(&self) -> (r: StatusChange)
        ensures
            r == status_change_spec(*self),
    {
        match self {
            BotStatus::Online => StatusChange {
                maintenance: Some(false),
                activity: Activity::ConfiguredStatus,
                presence: Presence::Online,
            },
            BotStatus::Idle => StatusChange {
                maintenance: None,
                activity: Activity::Unchanged,
                presence: Presence::Idle,
            },
            BotStatus::Dnd => StatusChange {
                maintenance: None,
                activity: Activity::Unchanged,
                presence: Presence::DoNotDisturb,
            },
            BotStatus::Invisible => StatusChange {
                maintenance: None,
                activity: Activity::Unchanged,
                presence: Presence::Invisible,
            },
            BotStatus::Maintenance => StatusChange {
                maintenance: Some(true),
                activity: Activity::MaintenanceNotice,
                presence: Presence::DoNotDisturb,
            },
        }
    }

    /// The translation key of the confirmation sent to the channel.
    pub fn message_key(&self) -> (r: &'static str)
        ensures
            r@ == status_key_spec(*self),
    {
        match self {
            BotStatus::Online => "status.status_online",
            BotStatus::Idle => "status.status_idle",
            BotStatus::Dnd => "status.status_dnd",
            BotStatus::Invisible => "status.status_invisible",
            BotStatus::Maintenance => "status.status_maintenance",
        }
    }
}

/// Why the status command is refused.
#[derive(Clone, Copy, PartialEq, Eq, Structural, Debug)]
pub enum StatusError {
    /// No status was given.
    StatusIsMissing,
    /// The given status is not one of the known names.
    InvalidStatusValue,
}

/// Reads the argument of the status command (`None` when the command has none).
pub fn status_argument(argument: Option<&str>) -> (r: Result<BotStatus, StatusError>)
    ensures
        match argument {
            None => r == Err::<BotStatus, StatusError>(StatusError::StatusIsMissing),
            Some(a) => match bot_status_spec(a@) {
                Some(s) => r == Ok::<BotStatus, StatusError>(s),
                None => r == Err::<BotStatus, StatusError>(StatusError::InvalidStatusValue),
            },
        },
{
    match argument {
        None => Err(StatusError::StatusIsMissing),
        Some(a) => match BotStatus::parse(a) {
            Some(s) => Ok(s),
            None => Err(StatusError::InvalidStatusValue),
        },
    }
}

/// Leaving maintenance takes `online`: no other status clears the flag, and
/// only `maintenance` sets it.
pub proof fn lemma_maintenance_flag(s: BotStatus)
    ensures
        status_change_spec(s).maintenance == Some(false) <==> s == BotStatus::Online,
        status_change_spec(s).maintenance == Some(true) <==> s == BotStatus::Maintenance,
{
}

/// The `mode` argument of `/status`: a required text chosen among `online`,
/// `idle` and `dnd` (with translated labels), `invisible` and `maintenance`.
pub open spec fn status_mode_option() -> OptionView {
    OptionView {
        kind: OptionKind::Text,
        name: "mode"@,
        description_key: "slash_command.mode_arg_description"@,
        required: true,
        choices: seq![
            ChoiceView {
                label: ChoiceLabelView::Translated("slash_command.online_status_mode"@),
                value: "online"@,
            },
            ChoiceView {
                label: ChoiceLabelView::Translated("slash_command.idle_status_mode"@),
                value: "idle"@,
            },
            ChoiceView {
                label: ChoiceLabelView::Translated("slash_command.do_not_disturb_status_mode"@),
                value: "dnd"@,
            },
            ChoiceView { label: ChoiceLabelView::Fixed("Invisible"@), value: "invisible"@ },
            ChoiceView { label: ChoiceLabelView::Fixed("Maintenance"@), value: "maintenance"@ },
        ],
    }
}

/// The `/status` command: its `mode` argument.
pub open spec fn status_command_spec() -> CommandView {
    chat_command("status"@, "slash_command.status_command_description"@, seq![status_mode_option()])
}

impl StatusCommand {
    /// What `/status` offers to Discord.
    pub fn definition(&self) -> (r: CommandSpec)
        ensures
            r@ == status_command_spec(),
    {
        let mut choices = Vec::new();
        choices.push(
            ChoiceSpec {
                label: ChoiceLabel::Translated("slash_command.online_status_mode"),
                value: "online",
            },
        );
        choices.push(
            ChoiceSpec { label: ChoiceLabel::Translated("slash_command.idle_status_mode"), value: "idle" },
        );
        choices.push(
            ChoiceSpec {
                label: ChoiceLabel::Translated("slash_command.do_not_disturb_status_mode"),
                value: "dnd",
            },
        );
        choices.push(ChoiceSpec { label: ChoiceLabel::Fixed("Invisible"), value: "invisible" });
        choices.push(ChoiceSpec { label: ChoiceLabel::Fixed("Maintenance"), value: "maintenance" });
        let mode = OptionSpec {
            kind: OptionKind::Text,
            name: "mode",
            description_key: "slash_command.mode_arg_description",
            required: true,
            choices,
        };
        assert(mode@ =~~= status_mode_option());
        let mut options = Vec::new();
        options.push(mode);
        let r = chat_command_spec("status", "slash_command.status_command_description", options);
        assert(r@ =~~= status_command_spec());
        r
    }
}

/// What each status shows on Discord: `online` as online with the configured
/// activity, `idle` as idle, `dnd` as do-not-disturb, `invisible` as invisible,
/// and `maintenance` as do-not-disturb with the maintenance notice; only
/// `online` and `maintenance` change the activity.
pub proof fn lemma_status_presences(s: BotStatus)
    ensures
        status_change_spec(s).presence == match s {
            BotStatus::Online => Presence::Online,
            BotStatus::Idle => Presence::Idle,
            BotStatus::Dnd => Presence::DoNotDisturb,
            BotStatus::Invisible => Presence::Invisible,
            BotStatus::Maintenance => Presence::DoNotDisturb,
        },
        status_change_spec(s).activity == match s {
            BotStatus::Online => Activity::ConfiguredStatus,
            BotStatus::Maintenance => Activity::MaintenanceNotice,
            _ => Activity::Unchanged,
        },
{
}

} // verus!
