use super::{crud_color, crud_color_of, CrudAction};
use vstd::prelude::*;

verus! {

/// Formats the audit-log entries of invite changes.
pub struct InviteFormatter(pub CrudAction);

impl InviteFormatter {
    /// The emoji shown before the title.
    pub fn emoji(&self) -> (r: &'static str)
        ensures
            r@ == match self.0 {
                CrudAction::Create => "📨"@,
                CrudAction::Update => "✏️"@,
                CrudAction::Delete => "🗑️"@,
                CrudAction::Other => "📨"@,
            },
    {
        match self.0 {
            CrudAction::Create => "📨",
            CrudAction::Update => "✏️",
            CrudAction::Delete => "🗑️",
            CrudAction::Other => "📨",
        }
    }

    /// The colour of the embed.
    pub fn color(&self) -> (r: u32)
        ensures
            r == crud_color(self.0),
    {
        crud_color_of(self.0)
    }

    /// The translation key of the title.
    pub fn title_key(&self) -> (r: &'static str)
        ensures
            r@ == match self.0 {
                CrudAction::Create => "audit_log.invite.create"@,
                CrudAction::Update => "audit_log.invite.update"@,
                CrudAction::Delete => "audit_log.invite.delete"@,
                CrudAction::Other => "audit_log.invite.unknown"@,
            },
    {
        match self.0 {
            CrudAction::Create => "audit_log.invite.create",
            CrudAction::Update => "audit_log.invite.update",
            CrudAction::Delete => "audit_log.invite.delete",
            CrudAction::Other => "audit_log.invite.unknown",
        }
    }

    /// Whether the embed lists the entry's changes.
    pub fn lists_changes(&self) -> (r: bool)
        ensures
            r == true,
    {
        true
    }

    /// The description, which is empty.
    pub fn description(&self) -> (r: String)
        ensures
            r@ == Seq::<char>::empty(),
    {
        String::new()
    }
}

} // verus!
