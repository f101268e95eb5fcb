use super::{ButtonKind, ButtonSpec, ButtonView};
use crate::text::str_eq;
use vstd::prelude::*;

verus! {

/// The poll feature: a message with a button that opens a poll form.
#[derive(Default)]
pub struct PollFeature;

/// A text input of a form.
pub struct TextInputSpec {
    pub label: &'static str,
    pub custom_id: &'static str,
    pub paragraph: bool,
    pub min_length: u16,
    pub max_length: u16,
}

/// A form (modal) opened by a button.
pub struct ModalSpec {
    pub custom_id: &'static str,
    pub title: &'static str,
    pub inputs: Vec<TextInputSpec>,
}

impl PollFeature {
    /// The feature's key in component ids (`feature:poll:<action>`).
    pub fn key(&self) -> (r: &'static str)
        ensures
            r@ == "poll"@,
    {
        "poll"
    }

    /// The text of the feature's message.
    pub fn message_content(&self) -> (r: &'static str)
        ensures
            r@ == "Sondage (poll):\n\n- Commande: !poll Question ? | Option 1 | Option 2 | ...\n- Bouton ci-dessous: ouvre un formulaire pour créer un sondage dans ce salon."@,
    {
        "Sondage (poll):\n\n- Commande: !poll Question ? | Option 1 | Option 2 | ...\n- Bouton ci-dessous: ouvre un formulaire pour créer un sondage dans ce salon."
    }

    /// The buttons of the feature's message.
    pub fn buttons(&self) -> (r: Vec<ButtonSpec>)
        ensures
            r@.len() == 2,
            r@[0]@ == (ButtonView {
                label: "Créer un sondage"@,
                custom_id: "feature:poll:create"@,
                kind: ButtonKind::Success,
                disabled: false,
            }),
            r@[1]@ == (ButtonView {
                label: "Test"@,
                custom_id: "feature:poll:delete"@,
                kind: ButtonKind::Danger,
                disabled: false,
            }),
    {
        let mut r = Vec::new();
        r.push(ButtonSpec::new("Créer un sondage", "feature:poll:create", ButtonKind::Success, false));
        r.push(ButtonSpec::new("Test", "feature:poll:delete", ButtonKind::Danger, false));
        r
    }

    /// The form that a click answers with: the poll form for `create`, nothing
    /// for any other action.
    pub fn form_for(&self, action: &str) -> (r: Option<ModalSpec>)
        ensures
            r is Some <==> action@ == "create"@,
            r matches Some(m) ==> {
                &&& m.custom_id@ == "feature:poll:create"@
                &&& m.title@ == "Créer un sondage"@
                &&& m.inputs@.len() == 2
                &&& m.inputs@[0].label@ == "Question"@
                &&& m.inputs@[0].custom_id@ == "question"@
                &&& !m.inputs@[0].paragraph
                &&& m.inputs@[0].min_length == 3
                &&& m.inputs@[0].max_length == 200
                &&& m.inputs@[1].label@ == "Options (séparées par | ou retour à la ligne)"@
                &&& m.inputs@[1].custom_id@ == "options"@
                &&& m.inputs@[1].paragraph
                &&& m.inputs@[1].min_length == 3
                &&& m.inputs@[1].max_length == 1000
            },
    {
        if !str_eq(action, "create") {
            return None;
        }
        let mut inputs = Vec::new();
        inputs.push(
            TextInputSpec {
                label: "Question",
                custom_id: "question",
                paragraph: false,
                min_length: 3,
                max_length: 200,
            },
        );
        inputs.push(
            TextInputSpec {
                label: "Options (séparées par | ou retour à la ligne)",
                custom_id: "options",
                paragraph: true,
                min_length: 3,
                max_length: 1000,
            },
        );
        Some(ModalSpec { custom_id: "feature:poll:create", title: "Créer un sondage", inputs })
    }
}

} // verus!
