use crate::handlers::audit_log::{target_line, target_prefix, COLOR_DANGER, COLOR_INFO};
use crate::text::{decimal, push_decimal};
use vstd::prelude::*;

verus! {

/// The action of a message entry.
#[derive(Clone, Copy, PartialEq, Eq, Structural, Debug)]
pub enum MessageAction {
    Delete,
    BulkDelete,
    Pin,
    Unpin,
    Other,
}

/// The options of a message entry that its description reads.
#[derive(Clone, Copy, Debug)]
pub struct MessageOptions {
    pub channel_id: Option<u64>,
    pub count: Option<u64>,
}

/// The line naming the channel of a message entry.
pub open spec fn channel_line(label: Seq<char>, channel_id: u64) -> Seq<char> {
    target_line(label, "<#"@ + decimal(channel_id as nat) + ">"@)
}

/// The description of a message entry: the channel (and, for a bulk deletion,
/// the translated count line first), or nothing.
pub open spec fn message_description(
    action: MessageAction,
    options: Option<MessageOptions>,
    channel_label: Seq<char>,
    deleted_count_line: Seq<char>,
) -> Seq<char> {
    match options {
        None => Seq::empty(),
        Some(o) => match action {
            MessageAction::Delete => match o.channel_id {
                Some(c) => channel_line(channel_label, c) + "\n"@,
                None => Seq::empty(),
            },
            MessageAction::BulkDelete => (match o.count {
                Some(_) => deleted_count_line + "\n"@,
                None => Seq::empty(),
            }) + (match o.channel_id {
                Some(c) => channel_line(channel_label, c),
                None => Seq::empty(),
            }),
            MessageAction::Pin | MessageAction::Unpin => match o.channel_id {
                Some(c) => channel_line(channel_label, c),
                None => Seq::empty(),
            },
            MessageAction::Other => Seq::empty(),
        },
    }
}

/// Formats the audit-log entries of message actions.
pub struct MessageFormatter(pub MessageAction);

fn push_channel_line(out: &mut String, label: &str, channel_id: u64)
    ensures
        final(out)@ == old(out)@ + channel_line(label@, channel_id),
{
    let mut line = target_prefix(label);
    line.append("<#");
    push_decimal(&mut line, channel_id);
    line.append(">");
    out.append(line.as_str());
    assert(final(out)@ =~= old(out)@ + channel_line(label@, channel_id));
}

impl MessageFormatter {
    /// The emoji shown before the title.
    pub fn emoji(&self) -> (r: &'static str)
        ensures
            r@ == match self.0 {
                MessageAction::Delete | MessageAction::BulkDelete => "🗑️"@,
                MessageAction::Pin => "📌"@,
                MessageAction::Unpin => "📍"@,
                MessageAction::Other => "💬"@,
            },
    {
        match self.0 {
            MessageAction::Delete => "🗑️",
            MessageAction::BulkDelete => "🗑️",
            MessageAction::Pin => "📌",
            MessageAction::Unpin => "📍",
            MessageAction::Other => "💬",
        }
    }

    /// The colour of the embed: danger for deletions, info otherwise.
    pub fn color(&self) -> (r: u32)
        ensures
            r == match self.0 {
                MessageAction::Delete | MessageAction::BulkDelete => COLOR_DANGER,
                _ => COLOR_INFO,
            },
    {
        match self.0 {
            MessageAction::Delete | MessageAction::BulkDelete => COLOR_DANGER,
            MessageAction::Pin | MessageAction::Unpin => COLOR_INFO,
            MessageAction::Other => COLOR_INFO,
        }
    }

    /// The translation key of the title.
    pub fn title_key(&self) -> (r: &'static str)
        ensures
            r@ == match self.0 {
                MessageAction::Delete => "audit_log.message.delete"@,
                MessageAction::BulkDelete => "audit_log.message.bulk_delete"@,
                MessageAction::Pin => "audit_log.message.pin"@,
                MessageAction::Unpin => "audit_log.message.unpin"@,
                MessageAction::Other => "audit_log.message.unknown"@,
            },
    {
        match self.0 {
            MessageAction::Delete => "audit_log.message.delete",
            MessageAction::BulkDelete => "audit_log.message.bulk_delete",
            MessageAction::Pin => "audit_log.message.pin",
            MessageAction::Unpin => "audit_log.message.unpin",
            MessageAction::Other => "audit_log.message.unknown",
        }
    }

    /// The description; `deleted_count_line` is the translated
    /// `audit_log.message.deleted_count` line, read only for a bulk deletion
    /// that gives a count.
    pub fn description(
        &self,
        options: Option<MessageOptions>,
        channel_label: &str,
        deleted_count_line: &str,
    ) -> (r: String)
        ensures
            r@ == message_description(self.0, options, channel_label@, deleted_count_line@),
    {
        let mut desc = String::new();
        match options {
            None => {},
            Some(o) => match self.0 {
                MessageAction::Delete => {
                    if let Some(c) = o.channel_id {
                        push_channel_line(&mut desc, channel_label, c);
                        desc.append("\n");
                    }
                },
                MessageAction::BulkDelete => {
                    if let Some(_) = o.count {
                        desc.append(deleted_count_line);
                        desc.append("\n");
                    }
                    if let Some(c) = o.channel_id {
                        push_channel_line(&mut desc, channel_label, c);
                    }
                },
                MessageAction::Pin | MessageAction::Unpin => {
                    if let Some(c) = o.channel_id {
                        push_channel_line(&mut desc, channel_label, c);
                    }
                },
                MessageAction::Other => {},
            },
        }
        assert(desc@ =~= message_description(self.0, options, channel_label@, deleted_count_line@));
        desc
    }

    /// Whether the embed lists the entry's changes.
    pub fn lists_changes(&self) -> (r: bool)
        ensures
            !r,
    {
        false
    }
}

} // verus!
