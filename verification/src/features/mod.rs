pub mod poll;

use vstd::prelude::*;

verus! {

/// The look of a button.
#[derive(Clone, Copy, PartialEq, Eq, Structural, Debug)]
pub enum ButtonKind {
    Primary,
    Success,
    Danger,
}

/// What a button shows and sends.
pub struct ButtonView {
    pub label: Seq<char>,
    pub custom_id: Seq<char>,
    pub kind: ButtonKind,
    pub disabled: bool,
}

/// A button of a message's action row.
#[derive(Clone, Debug)]
pub struct ButtonSpec {
    pub label: String,
    pub custom_id: String,
    pub kind: ButtonKind,
    pub disabled: bool,
}

impl View for ButtonSpec {
    type V = ButtonView;

    open spec fn view(&self) -> ButtonView {
        ButtonView {
            label: self.label@,
            custom_id: self.custom_id@,
            kind: self.kind,
            disabled: self.disabled,
        }
    }
}

impl ButtonSpec {
    /// A button labelled `label` that sends `custom_id`.
    pub fn new(label: &str, custom_id: &str, kind: ButtonKind, disabled: bool) -> (r: Self)
        ensures
            r@ == (ButtonView { label: label@, custom_id: custom_id@, kind, disabled }),
    {
        ButtonSpec { label: label.to_owned(), custom_id: custom_id.to_owned(), kind, disabled }
    }
}

/// The buttons offered when a user leaves the community: keep the ticket open
/// (`ticket:keep`) or close it (`ticket:delete`).
pub fn ticket_closing_buttons(keep_label: &str, close_label: &str) -> (r: Vec<ButtonSpec>)
    ensures
        r@.len() == 2,
        r@[0]@ == (ButtonView {
            label: keep_label@,
            custom_id: "ticket:keep"@,
            kind: ButtonKind::Success,
            disabled: false,
        }),
        r@[1]@ == (ButtonView {
            label: close_label@,
            custom_id: "ticket:delete"@,
            kind: ButtonKind::Danger,
            disabled: false,
        }),
{
    let mut r = Vec::new();
    r.push(ButtonSpec::new(keep_label, "ticket:keep", ButtonKind::Success, false));
    r.push(ButtonSpec::new(close_label, "ticket:delete", ButtonKind::Danger, false));
    r
}

} // verus!
