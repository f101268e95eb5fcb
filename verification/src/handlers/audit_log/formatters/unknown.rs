use crate::handlers::audit_log::COLOR_NEUTRAL;
use crate::text::{decimal, u64_to_string};
use vstd::prelude::*;

verus! {

/// Formats the audit-log entries of an action the bot does not know, by its code.
pub struct UnknownFormatter(pub u8);

impl UnknownFormatter {
    /// The emoji shown before the title.
    pub fn emoji(&self) -> (r: &'static str)
        ensures
            r@ == "❓"@,
    {
        "❓"
    }

    /// The colour of the embed.
    pub fn color(&self) -> (r: u32)
        ensures
            r == COLOR_NEUTRAL,
    {
        COLOR_NEUTRAL
    }

    /// The translation key of the title.
    pub fn title_key(&self) -> (r: &'static str)
        ensures
            r@ == "audit_log.unknown_action"@,
    {
        "audit_log.unknown_action"
    }

    /// The `code` parameter of the title: the action's code in decimal.
    pub fn title_code(&self) -> (r: String)
        ensures
            r@ == decimal(self.0 as nat),
    {
        u64_to_string(self.0 as u64)
    }

    /// The description, which is empty.
    pub fn description(&self) -> (r: String)
        ensures
            r@ == Seq::<char>::empty(),
    {
        String::new()
    }

    /// Whether the embed lists the entry's changes.
    pub fn lists_changes(&self) -> (r: bool)
        ensures
            !r,
    {
        false
    }
}

} // verus!
