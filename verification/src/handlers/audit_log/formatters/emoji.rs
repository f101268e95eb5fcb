use super::{crud_color, crud_color_of, CrudAction};
use crate::handlers::audit_log::{id_target_description, id_target_text};
use vstd::prelude::*;

verus! {

/// Formats the audit-log entries of emoji changes.
pub struct EmojiFormatter(pub CrudAction);

impl EmojiFormatter {
    /// The emoji shown before the title.
    pub fn emoji(&self) -> (r: &'static str)
        ensures
            r@ == match self.0 {
                CrudAction::Create => "😀"@,
                CrudAction::Update => "✏️"@,
                CrudAction::Delete => "🗑️"@,
                CrudAction::Other => "😀"@,
            },
    {
        match self.0 {
            CrudAction::Create => "😀",
            CrudAction::Update => "✏️",
            CrudAction::Delete => "🗑️",
            CrudAction::Other => "😀",
        }
    }

    /// The colour of the embed.
    pub fn color(&self) -> (r: u32)
        ensures
            r == crud_color(self.0),
    {
        crud_color_of(self.0)
    }

    /// The translation key of the title.
    pub fn title_key(&self) -> (r: &'static str)
        ensures
            r@ == match self.0 {
                CrudAction::Create => "audit_log.emoji.create"@,
                CrudAction::Update => "audit_log.emoji.update"@,
                CrudAction::Delete => "audit_log.emoji.delete"@,
                CrudAction::Other => "audit_log.emoji.unknown"@,
            },
    {
        match self.0 {
            CrudAction::Create => "audit_log.emoji.create",
            CrudAction::Update => "audit_log.emoji.update",
            CrudAction::Delete => "audit_log.emoji.delete",
            CrudAction::Other => "audit_log.emoji.unknown",
        }
    }

    /// Whether the embed lists the entry's changes.
    pub fn lists_changes(&self) -> (r: bool)
        ensures
            r == true,
    {
        true
    }

    /// The description: the target's id between backticks under `target_label`,
    /// or `unknown_label` when the entry names no target.
    pub fn description(&self, target_label: &str, target_id: Option<u64>, unknown_label: &str) -> (r:
        String)
        ensures
            r@ == id_target_text(target_label@, target_id, unknown_label@),
    {
        id_target_description(target_label, target_id, unknown_label)
    }
}

} // verus!
