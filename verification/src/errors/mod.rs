pub mod dictionary;

pub use dictionary::{DictionaryMessage, ErrorDictionary, MessageTable, MessageView};
