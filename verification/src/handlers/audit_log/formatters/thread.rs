use super::{crud_color, crud_color_of, CrudAction};
use crate::handlers::audit_log::{code_id, push_code_id, target_line, target_prefix};
use crate::text::{decimal, push_decimal};
use vstd::prelude::*;

verus! {

/// Formats the audit-log entries of thread changes.
pub struct ThreadFormatter(pub CrudAction);

impl ThreadFormatter {
    /// The emoji shown before the title.
    pub fn emoji(&self) -> (r: &'static str)
        ensures
            r@ == match self.0 {
                CrudAction::Create => "🧵"@,
                CrudAction::Update => "✏️"@,
                CrudAction::Delete => "🗑️"@,
                CrudAction::Other => "🧵"@,
            },
    {
        match self.0 {
            CrudAction::Create => "🧵",
            CrudAction::Update => "✏️",
            CrudAction::Delete => "🗑️",
            CrudAction::Other => "🧵",
        }
    }

    /// The colour of the embed.
    pub fn color(&self) -> (r: u32)
        ensures
            r == crud_color(self.0),
    {
        crud_color_of(self.0)
    }

    /// The translation key of the title.
    pub fn title_key(&self) -> (r: &'static str)
        ensures
            r@ == match self.0 {
                CrudAction::Create => "audit_log.thread.create"@,
                CrudAction::Update => "audit_log.thread.update"@,
                CrudAction::Delete => "audit_log.thread.delete"@,
                CrudAction::Other => "audit_log.thread.unknown"@,
            },
    {
        match self.0 {
            CrudAction::Create => "audit_log.thread.create",
            CrudAction::Update => "audit_log.thread.update",
            CrudAction::Delete => "audit_log.thread.delete",
            CrudAction::Other => "audit_log.thread.unknown",
        }
    }

    /// Whether the embed lists the entry's changes.
    pub fn lists_changes(&self) -> (r: bool)
        ensures
            r == true,
    {
        true
    }

    /// The description: under `target_label`, the target's id between backticks
    /// for a deletion, its mention followed by the id otherwise; `unknown_label`
    /// when the entry names no target.
    pub fn description(&self, target_label: &str, target_id: Option<u64>, unknown_label: &str) -> (r:
        String)
        ensures
            r@ == match target_id {
                Some(id) => if self.0 == CrudAction::Delete {
                    target_line(target_label@, code_id(id))
                } else {
                    target_line(
                        target_label@,
                        "<#"@ + decimal(id as nat) + "> ("@ + code_id(id) + ")"@,
                    )
                },
                None => target_line(target_label@, unknown_label@),
            },
    {
        let mut r = target_prefix(target_label);
        match target_id {
            Some(id) => {
                if self.0 == CrudAction::Delete {
                    push_code_id(&mut r, id);
                } else {
                    r.append("<#");
                    push_decimal(&mut r, id);
                    r.append("> (");
                    push_code_id(&mut r, id);
                    r.append(")");
                }
            },
            None => {
                r.append(unknown_label);
            },
        }
        r
    }
}

} // verus!
