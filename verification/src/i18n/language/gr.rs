use crate::errors::dictionary::{DictionaryMessage, ErrorDictionary, MessageView};
use vstd::prelude::*;

verus! {

broadcast use vstd::string::group_string_axioms;

/// `m` with the German messages written into it, in order.
pub open spec fn with_german_messages(m: Map<Seq<char>, MessageView>) -> Map<Seq<char>, MessageView> {
    m
        .insert(
            "database.connection_failed"@,
            MessageView {
                message: "Datenbankverbindung fehlgeschlagen"@,
                description: None,
                help: None,
            },
        )
        .insert(
            "command.invalid_format"@,
            MessageView {
                message: "Ungültiges Befehlsformat"@,
                description: None,
                help: None,
            },
        )
        .insert(
            "message.not_found"@,
            MessageView {
                message: "Nachricht nicht gefunden"@,
                description: None,
                help: None,
            },
        )
}

/// Writes the German messages into `dict`.
pub fn load_german_messages(dict: &mut ErrorDictionary)
    ensures
        final(dict)@ == with_german_messages(old(dict)@),
{
    dict.messages.insert(
        "database.connection_failed".to_string(),
        DictionaryMessage::new("Datenbankverbindung fehlgeschlagen"),
    );
    dict.messages.insert(
        "command.invalid_format".to_string(),
        DictionaryMessage::new("Ungültiges Befehlsformat"),
    );
    dict.messages.insert(
        "message.not_found".to_string(),
        DictionaryMessage::new("Nachricht nicht gefunden"),
    );
}

} // verus!
