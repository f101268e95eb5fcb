use crate::text::{decimal, parse_u64_radix, parse_u64_spec, push_decimal};
use vstd::prelude::*;

verus! {

/// Whether a configured colour is a hexadecimal number that fits 64 bits
/// (what `u64::from_str_radix(color, 16)` accepts).
pub open spec fn is_hex_color_spec(color: Seq<char>) -> bool {
    parse_u64_spec(color, 16) is Some
}

/// Whether a configured colour reads as hexadecimal.
pub fn is_hex_color(color: &str) -> (r: bool)
    ensures
        r == is_hex_color_spec(color@),
{
    parse_u64_radix(color, 16).is_some()
}

/// A configured colour that does not read as hexadecimal.
#[derive(Clone, Copy, PartialEq, Eq, Structural, Debug)]
pub enum ColorError {
    UserMessageColor,
    StaffMessageColor,
    ReminderEmbedColor,
}

impl ColorError {
    /// The message printed when the configuration is refused.
    pub fn message(&self) -> (r: &'static str)
        ensures
            r@ == match *self {
                ColorError::UserMessageColor => "Incorrect user message color in the config.toml! Please put a color in hex format!"@,
                ColorError::StaffMessageColor => "Incorrect staff message color in the config.toml! Please put a color in hex format!"@,
                ColorError::ReminderEmbedColor => "Incorrect reminder embed color in the config.toml! Please put a color in hex format!"@,
            },
    {
        match self {
            ColorError::UserMessageColor => "Incorrect user message color in the config.toml! Please put a color in hex format!",
            ColorError::StaffMessageColor => "Incorrect staff message color in the config.toml! Please put a color in hex format!",
            ColorError::ReminderEmbedColor => "Incorrect reminder embed color in the config.toml! Please put a color in hex format!",
        }
    }
}

/// The colour checks of the configuration, in order: user messages, staff
/// messages, reminder embeds; the first that fails refuses the configuration.
pub open spec fn colors_check_spec(user: Seq<char>, staff: Seq<char>, reminder: Seq<char>) -> Result<
    (),
    ColorError,
> {
    if !is_hex_color_spec(user) {
        Err(ColorError::UserMessageColor)
    } else if !is_hex_color_spec(staff) {
        Err(ColorError::StaffMessageColor)
    } else if !is_hex_color_spec(reminder) {
        Err(ColorError::ReminderEmbedColor)
    } else {
        Ok(())
    }
}

/// Checks the three configured colours.
pub fn check_colors(user: &str, staff: &str, reminder: &str) -> (r: Result<(), ColorError>)
    ensures
        r == colors_check_spec(user@, staff@, reminder@),
{
    if !is_hex_color(user) {
        Err(ColorError::UserMessageColor)
    } else if !is_hex_color(staff) {
        Err(ColorError::StaffMessageColor)
    } else if !is_hex_color(reminder) {
        Err(ColorError::ReminderEmbedColor)
    } else {
        Ok(())
    }
}

/// How the bot's guilds are laid out.
#[derive(Clone, Copy, PartialEq, Eq, Structural, Debug)]
pub enum ServerMode {
    /// One guild for users and staff.
    Single { guild_id: u64 },
    /// A community guild for users and a separate staff guild.
    Dual { community_guild_id: u64, staff_guild_id: u64 },
}

/// The message refusing a server layout, if any: a guild that cannot be
/// fetched (the main one, else the community one, else the staff one), or the
/// same guild given twice in dual mode.
pub open spec fn servers_check_spec(mode: ServerMode, first_found: bool, second_found: bool) -> Option<
    Seq<char>,
> {
    match mode {
        ServerMode::Single { guild_id } => if !first_found {
            Some("Serveur principal introuvable: "@ + decimal(guild_id as nat))
        } else {
            None
        },
        ServerMode::Dual { community_guild_id, staff_guild_id } => if !first_found {
            Some("Serveur communautaire introuvable: "@ + decimal(community_guild_id as nat))
        } else if !second_found {
            Some("Serveur staff introuvable: "@ + decimal(staff_guild_id as nat))
        } else if community_guild_id == staff_guild_id {
            Some("Les serveurs communautaire et staff doivent être différents"@)
        } else {
            None
        },
    }
}

/// Checks the server layout; `first_found` tells whether the main (or
/// community) guild could be fetched, `second_found` the staff guild.
pub fn check_servers(mode: ServerMode, first_found: bool, second_found: bool) -> (r: Result<(), String>)
    ensures
        match r {
            Ok(_) => servers_check_spec(mode, first_found, second_found) is None,
            Err(m) => servers_check_spec(mode, first_found, second_found) == Some(m@),
        },
{
    match mode {
        ServerMode::Single { guild_id } => if !first_found {
            let mut m = "Serveur principal introuvable: ".to_owned();
            push_decimal(&mut m, guild_id);
            Err(m)
        } else {
            Ok(())
        },
        ServerMode::Dual { community_guild_id, staff_guild_id } => if !first_found {
            let mut m = "Serveur communautaire introuvable: ".to_owned();
            push_decimal(&mut m, community_guild_id);
            Err(m)
        } else if !second_found {
            let mut m = "Serveur staff introuvable: ".to_owned();
            push_decimal(&mut m, staff_guild_id);
            Err(m)
        } else if community_guild_id == staff_guild_id {
            Err("Les serveurs communautaire et staff doivent être différents".to_owned())
        } else {
            Ok(())
        },
    }
}

/// The colours are accepted exactly when all three read as hexadecimal
/// numbers, and the first one that does not, in the order user message, staff
/// message, reminder embed, is the one reported.
pub proof fn lemma_colour_checks(user: Seq<char>, staff: Seq<char>, reminder: Seq<char>)
    ensures
        colors_check_spec(user, staff, reminder) is Ok <==> (parse_u64_spec(user, 16) is Some
            && parse_u64_spec(staff, 16) is Some && parse_u64_spec(reminder, 16) is Some),
        parse_u64_spec(user, 16) is None ==> colors_check_spec(user, staff, reminder) == Err::<
            (),
            ColorError,
        >(ColorError::UserMessageColor),
        parse_u64_spec(user, 16) is Some && parse_u64_spec(staff, 16) is None ==> colors_check_spec(
            user,
            staff,
            reminder,
        ) == Err::<(), ColorError>(ColorError::StaffMessageColor),
        parse_u64_spec(user, 16) is Some && parse_u64_spec(staff, 16) is Some && parse_u64_spec(
            reminder,
            16,
        ) is None ==> colors_check_spec(user, staff, reminder) == Err::<(), ColorError>(
            ColorError::ReminderEmbedColor,
        ),
{
}

/// The servers are accepted exactly when every configured guild was found and,
/// in dual mode, the community and staff guilds differ; a missing guild is
/// reported with its id, the main (or community) one before the staff one.
pub proof fn lemma_server_checks(mode: ServerMode, first_found: bool, second_found: bool)
    ensures
        servers_check_spec(mode, first_found, second_found) is None <==> match mode {
            ServerMode::Single { .. } => first_found,
            ServerMode::Dual { community_guild_id, staff_guild_id } => first_found && second_found
                && community_guild_id != staff_guild_id,
        },
        (mode matches ServerMode::Single { guild_id } && !first_found) ==> servers_check_spec(
            mode,
            first_found,
            second_found,
        ) == Some("Serveur principal introuvable: "@ + decimal(mode->guild_id as nat)),
        (mode matches ServerMode::Dual { community_guild_id, .. } && !first_found)
            ==> servers_check_spec(mode, first_found, second_found) == Some(
            "Serveur communautaire introuvable: "@ + decimal(mode->community_guild_id as nat),
        ),
        (mode matches ServerMode::Dual { staff_guild_id, .. } && first_found && !second_found)
            ==> servers_check_spec(mode, first_found, second_found) == Some(
            "Serveur staff introuvable: "@ + decimal(mode->staff_guild_id as nat),
        ),
{
}

} // verus!
