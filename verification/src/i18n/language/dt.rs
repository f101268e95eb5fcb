use crate::errors::dictionary::{DictionaryMessage, ErrorDictionary, MessageView};
use vstd::prelude::*;

verus! {

broadcast use vstd::string::group_string_axioms;

/// `m` with the Dutch messages written into it, in order.
pub open spec fn with_dutch_messages(m: Map<Seq<char>, MessageView>) -> Map<Seq<char>, MessageView> {
    m
        .insert(
            "database.connection_failed"@,
            MessageView {
                message: "Databaseverbinding mislukt"@,
                description: None,
                help: None,
            },
        )
        .insert(
            "command.invalid_format"@,
            MessageView {
                message: "Ongeldig commandoformaat"@,
                description: None,
                help: None,
            },
        )
        .insert(
            "message.not_found"@,
            MessageView {
                message: "Bericht niet gevonden"@,
                description: None,
                help: None,
            },
        )
}

/// Writes the Dutch messages into `dict`.
pub fn load_dutch_messages(dict: &mut ErrorDictionary)
    ensures
        final(dict)@ == with_dutch_messages(old(dict)@),
{
    dict.messages.insert(
        "database.connection_failed".to_string(),
        DictionaryMessage::new("Databaseverbinding mislukt"),
    );
    dict.messages.insert(
        "command.invalid_format".to_string(),
        DictionaryMessage::new("Ongeldig commandoformaat"),
    );
    dict.messages.insert(
        "message.not_found".to_string(),
        DictionaryMessage::new("Bericht niet gevonden"),
    );
}

} // verus!
