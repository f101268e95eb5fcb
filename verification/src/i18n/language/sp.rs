use crate::errors::dictionary::{DictionaryMessage, ErrorDictionary, MessageView};
use vstd::prelude::*;

verus! {

broadcast use vstd::string::group_string_axioms;

/// `m` with the Spanish messages written into it, in order.
pub open spec fn with_spanish_messages(m: Map<Seq<char>, MessageView>) -> Map<Seq<char>, MessageView> {
    m
        .insert(
            "database.connection_failed"@,
            MessageView {
                message: "Error al conectar con la base de datos"@,
                description: None,
                help: None,
            },
        )
        .insert(
            "command.invalid_format"@,
            MessageView {
                message: "Formato de comando inválido"@,
                description: None,
                help: None,
            },
        )
        .insert(
            "message.not_found"@,
            MessageView {
                message: "Mensaje no encontrado"@,
                description: None,
                help: None,
            },
        )
}

/// Writes the Spanish messages into `dict`.
pub fn load_spanish_messages(dict: &mut ErrorDictionary)
    ensures
        final(dict)@ == with_spanish_messages(old(dict)@),
{
    dict.messages.insert(
        "database.connection_failed".to_string(),
        DictionaryMessage::new("Error al conectar con la base de datos"),
    );
    dict.messages.insert(
        "command.invalid_format".to_string(),
        DictionaryMessage::new("Formato de comando inválido"),
    );
    dict.messages.insert(
        "message.not_found".to_string(),
        DictionaryMessage::new("Mensaje no encontrado"),
    );
}

} // verus!
