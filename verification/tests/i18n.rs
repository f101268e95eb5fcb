use rustmail::errors::dictionary::{DictionaryMessage, ErrorDictionary, MessageTable};
use rustmail::features::poll::PollFeature;
use rustmail::features::{ticket_closing_buttons, ButtonKind, ButtonSpec};
use rustmail::i18n::language::dt::load_dutch_messages;
use rustmail::i18n::language::en::load_english_messages;
use rustmail::i18n::language::fr::load_french_messages;
use rustmail::i18n::language::gr::load_german_messages;
use rustmail::i18n::language::jp::load_japanese_messages;
use rustmail::i18n::language::sp::load_spanish_messages;

fn message<'a>(dict: &'a ErrorDictionary, key: &str) -> &'a DictionaryMessage {
    dict.messages.get(key).expect("missing key")
}

#[test]
fn dictionary_messages_build_up() {
    let m = DictionaryMessage::new("text").with_description("desc").with_help("help");
    assert_eq!(m.message, "text");
    assert_eq!(m.description.as_deref(), Some("desc"));
    assert_eq!(m.help.as_deref(), Some("help"));
    let plain = DictionaryMessage::new("only");
    assert_eq!(plain.description, None);
    assert_eq!(plain.help, None);
}

#[test]
fn message_table_reads_back_what_was_written() {
    let mut t = MessageTable::new();
    assert!(!t.contains_key("a"));
    t.insert("a".to_string(), DictionaryMessage::new("first"));
    t.insert("b".to_string(), DictionaryMessage::new("second"));
    t.insert("a".to_string(), DictionaryMessage::new("third"));
    assert_eq!(t.get("a").unwrap().message, "third");
    assert_eq!(t.get("b").unwrap().message, "second");
    assert!(t.get("c").is_none());
    assert!(t.contains_key("b"));
}

#[test]
fn english_messages() {
    let mut dict = ErrorDictionary::new();
    load_english_messages(&mut dict);
    let m = message(&dict, "database.connection_failed");
    assert_eq!(m.message, "Failed to connect to the database");
    assert_eq!(
        m.description.as_deref(),
        Some("The rustmail couldn't establish a connection to the database")
    );
    let m = message(&dict, "command.invalid_format");
    assert_eq!(m.help.as_deref(), Some("Use `{prefix}help` to see the correct command format"));
    assert_eq!(message(&dict, "thread.ask_to_close").message, "Close");
    assert_eq!(message(&dict, "audit_log.change.widget_enabled").message, "Widget Enabled");
    assert!(!dict.messages.contains_key("no.such.key"));
}

#[test]
fn french_messages() {
    let mut dict = ErrorDictionary::new();
    load_french_messages(&mut dict);
    assert_eq!(
        message(&dict, "database.connection_failed").message,
        "Échec de connexion à la base de données"
    );
    assert_eq!(
        message(&dict, "thread.closed").message,
        "Merci d'avoir contacté le support ! Ton ticket est désormais clos."
    );
}

#[test]
fn a_later_language_overrides_shared_keys_only() {
    let mut dict = ErrorDictionary::new();
    load_english_messages(&mut dict);
    load_german_messages(&mut dict);
    assert_eq!(
        message(&dict, "database.connection_failed").message,
        "Datenbankverbindung fehlgeschlagen"
    );
    assert_eq!(message(&dict, "thread.ask_to_close").message, "Close");
}

#[test]
fn smaller_languages() {
    let mut dict = ErrorDictionary::new();
    load_dutch_messages(&mut dict);
    assert_eq!(message(&dict, "database.connection_failed").message, "Databaseverbinding mislukt");
    let mut dict = ErrorDictionary::new();
    load_japanese_messages(&mut dict);
    assert_eq!(message(&dict, "database.connection_failed").message, "データベース接続に失敗しました");
    let mut dict = ErrorDictionary::new();
    load_spanish_messages(&mut dict);
    assert_eq!(
        message(&dict, "database.connection_failed").message,
        "Error al conectar con la base de datos"
    );
    let mut dict = ErrorDictionary::new();
    load_german_messages(&mut dict);
    assert_eq!(message(&dict, "message.not_found").message, "Nachricht nicht gefunden");
}

#[test]
fn loading_twice_changes_nothing() {
    let mut once = ErrorDictionary::new();
    load_english_messages(&mut once);
    let mut twice = ErrorDictionary::new();
    load_english_messages(&mut twice);
    load_english_messages(&mut twice);
    for key in ["database.connection_failed", "thread.closed", "audit_log.change.vanity_url"] {
        assert_eq!(message(&once, key).message, message(&twice, key).message);
    }
}

#[test]
fn buttons() {
    let b = ButtonSpec::new("Go", "id:1", ButtonKind::Primary, true);
    assert_eq!(b.label, "Go");
    assert_eq!(b.custom_id, "id:1");
    assert!(b.disabled);
    let closing = ticket_closing_buttons("Keep", "Close");
    assert_eq!(closing.len(), 2);
    assert_eq!(closing[0].custom_id, "ticket:keep");
    assert_eq!(closing[0].kind, ButtonKind::Success);
    assert_eq!(closing[1].custom_id, "ticket:delete");
    assert_eq!(closing[1].kind, ButtonKind::Danger);
}

#[test]
fn poll_feature() {
    let p = PollFeature;
    assert_eq!(p.key(), "poll");
    assert!(p.message_content().starts_with("Sondage (poll):"));
    let b = p.buttons();
    assert_eq!(b[0].custom_id, "feature:poll:create");
    assert_eq!(b[0].label, "Créer un sondage");
    assert_eq!(b[1].custom_id, "feature:poll:delete");
    let form = p.form_for("create").expect("a form");
    assert_eq!(form.custom_id, "feature:poll:create");
    assert_eq!(form.inputs.len(), 2);
    assert_eq!(form.inputs[0].custom_id, "question");
    assert_eq!(form.inputs[0].max_length, 200);
    assert_eq!(form.inputs[1].custom_id, "options");
    assert!(form.inputs[1].paragraph);
    assert!(p.form_for("delete").is_none());
}

#[test]
fn french_laid_over_english() {
    let mut dict = ErrorDictionary::new();
    dict.messages.insert("custom.key".to_string(), DictionaryMessage::new("mine"));
    load_english_messages(&mut dict);
    load_french_messages(&mut dict);
    assert_eq!(message(&dict, "general.yes").message, "Oui");
    assert_eq!(message(&dict, "audit_log.reason").message, "Reason");
    assert_eq!(
        message(&dict, "database.connection_failed").message,
        "Échec de connexion à la base de données"
    );
    assert_eq!(message(&dict, "custom.key").message, "mine");
}

#[test]
fn loading_keeps_other_keys() {
    let mut dict = ErrorDictionary::new();
    dict.messages.insert("custom.key".to_string(), DictionaryMessage::new("mine"));
    load_french_messages(&mut dict);
    load_french_messages(&mut dict);
    assert_eq!(message(&dict, "custom.key").message, "mine");
    assert_eq!(message(&dict, "general.yes").message, "Oui");
}
