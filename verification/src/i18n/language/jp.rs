use crate::errors::dictionary::{DictionaryMessage, ErrorDictionary, MessageView};
use vstd::prelude::*;

verus! {

broadcast use vstd::string::group_string_axioms;

/// `m` with the Japanese messages written into it, in order.
pub open spec fn with_japanese_messages(m: Map<Seq<char>, MessageView>) -> Map<Seq<char>, MessageView> {
    m
        .insert(
            "database.connection_failed"@,
            MessageView {
                message: "データベース接続に失敗しました"@,
                description: None,
                help: None,
            },
        )
        .insert(
            "command.invalid_format"@,
            MessageView {
                message: "無効なコマンド形式"@,
                description: None,
                help: None,
            },
        )
        .insert(
            "message.not_found"@,
            MessageView {
                message: "メッセージが見つかりません"@,
                description: None,
                help: None,
            },
        )
}

/// Writes the Japanese messages into `dict`.
pub fn load_japanese_messages(dict: &mut ErrorDictionary)
    ensures
        final(dict)@ == with_japanese_messages(old(dict)@),
{
    dict.messages.insert(
        "database.connection_failed".to_string(),
        DictionaryMessage::new("データベース接続に失敗しました"),
    );
    dict.messages.insert(
        "command.invalid_format".to_string(),
        DictionaryMessage::new("無効なコマンド形式"),
    );
    dict.messages.insert(
        "message.not_found".to_string(),
        DictionaryMessage::new("メッセージが見つかりません"),
    );
}

} // verus!
