pub mod formatters;

use crate::text::{decimal, opt_view, push_decimal};
use vstd::prelude::*;

verus! {

/// Colour of destructive actions.
pub const COLOR_DANGER: u32 = 0xED4245;

/// Colour of creations.
pub const COLOR_SUCCESS: u32 = 0x57F287;

/// Colour of updates.
pub const COLOR_WARNING: u32 = 0xFEE75C;

/// Colour of informative entries.
pub const COLOR_INFO: u32 = 0x5865F2;

/// Colour of entries of unknown kind.
pub const COLOR_NEUTRAL: u32 = 0x99AAB5;

/// What an embed field shows.
pub struct FieldView {
    pub name: Seq<char>,
    pub value: Seq<char>,
    pub inline: bool,
}

/// One field of an audit-log embed.
pub struct EmbedField {
    pub name: String,
    pub value: String,
    pub inline: bool,
}

impl View for EmbedField {
    type V = FieldView;

    open spec fn view(&self) -> FieldView {
        FieldView { name: self.name@, value: self.value@, inline: self.inline }
    }
}

impl EmbedField {
    /// A field named `name` that shows `value`.
    pub fn new(name: String, value: String, inline: bool) -> (r: Self)
        ensures
            r@ == (FieldView { name: name@, value: value@, inline }),
    {
        EmbedField { name, value, inline }
    }
}

/// The title line of an entry: its emoji, a space, then its translated title.
pub open spec fn embed_title_text(emoji: Seq<char>, title: Seq<char>) -> Seq<char> {
    emoji + " "@ + title
}

/// The title line of an audit-log embed (`format!("{} {}", emoji, title)`).
pub fn embed_title(emoji: &str, title: &str) -> (r: String)
    ensures
        r@ == embed_title_text(emoji@, title@),
{
    let mut r = emoji.to_owned();
    r.append(" ");
    r.append(title);
    r
}

/// The footer of an audit-log embed: `ID: ` followed by the entry's id.
pub open spec fn embed_footer_text(entry_id: u64) -> Seq<char> {
    "ID: "@ + decimal(entry_id as nat)
}

/// The footer of an audit-log embed (`format!("ID: {}", entry_id)`).
pub fn embed_footer(entry_id: u64) -> (r: String)
    ensures
        r@ == embed_footer_text(entry_id),
{
    let mut r = "ID: ".to_owned();
    push_decimal(&mut r, entry_id);
    r
}

/// The fields of an audit-log embed: the change fields, then the reason (not
/// inline) when the entry gives one.
pub open spec fn embed_fields_spec(
    changes: Seq<FieldView>,
    reason_label: Seq<char>,
    reason: Option<Seq<char>>,
) -> Seq<FieldView> {
    match reason {
        Some(r) => changes.push(FieldView { name: reason_label, value: r, inline: false }),
        None => changes,
    }
}

/// The fields of an audit-log embed, in order.
pub fn embed_fields(changes: Vec<EmbedField>, reason_label: String, reason: Option<String>) -> (r:
    Vec<EmbedField>)
    ensures
        r@.map_values(|f: EmbedField| f@) == embed_fields_spec(
            changes@.map_values(|f: EmbedField| f@),
            reason_label@,
            opt_view(reason),
        ),
{
    let mut r = changes;
    let ghost before = r@;
    match reason {
        Some(text) => {
            r.push(EmbedField::new(reason_label, text, false));
            assert(r@.map_values(|f: EmbedField| f@) =~= before.map_values(|f: EmbedField| f@).push(
                r@.last()@,
            ));
        },
        None => {},
    }
    r
}

/// A field's target line: `**label:** ` followed by `target`.
pub open spec fn target_line(label: Seq<char>, target: Seq<char>) -> Seq<char> {
    "**"@ + label + ":** "@ + target
}

/// `id` between backticks.
pub open spec fn code_id(id: u64) -> Seq<char> {
    "`"@ + decimal(id as nat) + "`"@
}

/// The description of an entry whose target is shown by its id
/// (`**label:** `id``, or `**label:** unknown`).
pub open spec fn id_target_text(label: Seq<char>, target_id: Option<u64>, unknown: Seq<char>) -> Seq<
    char,
> {
    match target_id {
        Some(id) => target_line(label, code_id(id)),
        None => target_line(label, unknown),
    }
}

/// Appends `id` between backticks.
pub fn push_code_id(out: &mut String, id: u64)
    ensures
        final(out)@ == old(out)@ + code_id(id),
{
    out.append("`");
    push_decimal(out, id);
    out.append("`");
    assert(final(out)@ =~= old(out)@ + code_id(id));
}

/// Starts a target line: `**label:** `.
pub fn target_prefix(label: &str) -> (r: String)
    ensures
        r@ == "**"@ + label@ + ":** "@,
{
    let mut r = "**".to_owned();
    r.append(label);
    r.append(":** ");
    r
}

/// The description of an entry whose target is shown by its id.
pub fn id_target_description(label: &str, target_id: Option<u64>, unknown: &str) -> (r: String)
    ensures
        r@ == id_target_text(label@, target_id, unknown@),
{
    let mut r = target_prefix(label);
    match target_id {
        Some(id) => {
            push_code_id(&mut r, id);
        },
        None => {
            r.append(unknown);
        },
    }
    r
}

} // verus!
