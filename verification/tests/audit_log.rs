use rustmail::handlers::audit_log::formatters::creator_monetization::{
    CreatorMonetizationFormatter, MonetizationAction,
};
use rustmail::handlers::audit_log::formatters::emoji::EmojiFormatter;
use rustmail::handlers::audit_log::formatters::invite::InviteFormatter;
use rustmail::handlers::audit_log::formatters::message::{
    MessageAction, MessageFormatter, MessageOptions,
};
use rustmail::handlers::audit_log::formatters::role::RoleFormatter;
use rustmail::handlers::audit_log::formatters::stage_instance::StageInstanceFormatter;
use rustmail::handlers::audit_log::formatters::thread::ThreadFormatter;
use rustmail::handlers::audit_log::formatters::unknown::UnknownFormatter;
use rustmail::handlers::audit_log::formatters::webhook::WebhookFormatter;
use rustmail::handlers::audit_log::formatters::{
    change_key, crud_color_of, format_change_value, format_changes, AuditChange, CrudAction,
};
use rustmail::handlers::audit_log::{
    embed_fields, embed_footer, embed_title, id_target_description, push_code_id, target_prefix,
    EmbedField, COLOR_DANGER, COLOR_INFO, COLOR_NEUTRAL, COLOR_SUCCESS, COLOR_WARNING,
};

fn field(change: AuditChange) -> Option<(String, String, bool)> {
    format_change_value(&change, "Label".to_string()).map(|f| (f.name, f.value, f.inline))
}

fn value(change: AuditChange) -> String {
    field(change).unwrap().1
}

#[test]
fn channel_and_user_changes_are_mentions() {
    assert_eq!(
        field(AuditChange::AfkChannelId { old: Some(1), new: None }),
        Some(("Label".to_string(), "<#1> → None".to_string(), true))
    );
    assert_eq!(
        value(AuditChange::OwnerId { old: Some(10), new: Some(20) }),
        "<@10> → <@20>"
    );
}

#[test]
fn permission_bits_default_to_zero() {
    assert_eq!(value(AuditChange::Allow { old: None, new: Some(8) }), "`0` → `8`");
    assert_eq!(value(AuditChange::Deny { old: Some(1024), new: None }), "`1024` → `0`");
    assert_eq!(value(AuditChange::Permissions { old: Some(0), new: Some(2048) }), "`0` → `2048`");
}

#[test]
fn colors_are_six_hex_digits() {
    assert_eq!(
        value(AuditChange::Color { old: Some(0xFF0000), new: Some(0xAB) }),
        "#FF0000 → #0000AB"
    );
    assert_eq!(value(AuditChange::Color { old: None, new: Some(0) }), "None → #000000");
}

#[test]
fn bitrate_is_in_kilobits() {
    assert_eq!(
        value(AuditChange::Bitrate { old: Some(64000), new: Some(128999) }),
        "64kbps → 128kbps"
    );
}

#[test]
fn zero_has_a_name_for_durations_and_counts() {
    assert_eq!(value(AuditChange::MaxAge { old: Some(0), new: Some(3600) }), "Never → 3600s");
    assert_eq!(value(AuditChange::MaxUses { old: Some(0), new: Some(5) }), "Unlimited → 5");
    assert_eq!(value(AuditChange::RateLimitPerUser { old: Some(0), new: Some(10) }), "Off → 10s");
    assert_eq!(value(AuditChange::PruneDeleteDays { old: None, new: Some(7) }), "None → 7 days");
}

#[test]
fn booleans_and_timestamps() {
    assert_eq!(value(AuditChange::Nsfw { old: Some(false), new: Some(true) }), "false → true");
    assert_eq!(
        value(AuditChange::CommunicationDisabledUntil { old: None, new: Some(1700000000) }),
        "None → <t:1700000000:R>"
    );
}

#[test]
fn text_changes_are_ticked() {
    assert_eq!(
        field(AuditChange::Name { old: Some("old".to_string()), new: Some("new".to_string()) }),
        Some(("Label".to_string(), "`old` → `new`".to_string(), true))
    );
    assert_eq!(value(AuditChange::Nick { old: None, new: Some("n".to_string()) }), "`None` → `n`");
}

#[test]
fn long_topics_are_cut_at_a_hundred_bytes() {
    let long = "x".repeat(150);
    let f = field(AuditChange::Topic { old: Some(long), new: Some("short".to_string()) }).unwrap();
    assert_eq!(f.1, format!("`{}...` → `short`", "x".repeat(100)));
    assert!(!f.2);
    let exact = "y".repeat(100);
    assert_eq!(
        value(AuditChange::Description { old: Some(exact.clone()), new: None }),
        format!("`{}` → `None`", exact)
    );
}

#[test]
fn role_lists_are_mentions_separated_by_commas() {
    assert_eq!(
        field(AuditChange::RolesAdded { new: Some(vec![1, 22, 333]) }),
        Some(("Label".to_string(), "<@&1>, <@&22>, <@&333>".to_string(), false))
    );
    assert_eq!(value(AuditChange::RolesRemove { new: Some(vec![]) }), "");
    assert_eq!(field(AuditChange::RolesAdded { new: None }), None);
}

#[test]
fn overwrites_other_and_unknown() {
    assert_eq!(value(AuditChange::PermissionOverwrites), "Modified");
    assert_eq!(
        field(AuditChange::Other {
            name: "custom".to_string(),
            old: None,
            new: Some("v".to_string()),
        }),
        Some(("custom".to_string(), "`None` → `v`".to_string(), true))
    );
    assert_eq!(field(AuditChange::Unknown), None);
}

#[test]
fn id_only_changes() {
    assert_eq!(value(AuditChange::ApplicationId { new: Some(42) }), "42");
    assert_eq!(value(AuditChange::GuildId { new: None }), "None");
}

#[test]
fn change_keys() {
    assert_eq!(change_key(&AuditChange::Color { old: None, new: None }), Some("audit_log.change.color"));
    assert_eq!(change_key(&AuditChange::Name { old: None, new: None }), Some("audit_log.change.name"));
    assert_eq!(
        change_key(&AuditChange::PermissionOverwrites),
        Some("audit_log.change.permission_overwrites")
    );
    assert_eq!(
        change_key(&AuditChange::Other { name: "x".to_string(), old: None, new: None }),
        None
    );
    assert_eq!(change_key(&AuditChange::Unknown), None);
}

#[test]
fn format_changes_skips_what_has_no_field() {
    let changes = vec![
        AuditChange::Hoist { old: Some(false), new: Some(true) },
        AuditChange::Unknown,
        AuditChange::Position { old: Some(1), new: Some(2) },
    ];
    let names = vec!["Hoist".to_string(), "?".to_string(), "Position".to_string()];
    let fields = format_changes(&changes, &names);
    assert_eq!(fields.len(), 2);
    assert_eq!(fields[0].name, "Hoist");
    assert_eq!(fields[0].value, "false → true");
    assert_eq!(fields[1].name, "Position");
    assert_eq!(fields[1].value, "1 → 2");
}

#[test]
fn embed_parts() {
    assert_eq!(embed_title("🏷️", "Role created"), "🏷️ Role created");
    assert_eq!(embed_footer(123456), "ID: 123456");
    assert_eq!(target_prefix("Target"), "**Target:** ");
    let mut s = "id ".to_string();
    push_code_id(&mut s, 9);
    assert_eq!(s, "id `9`");
    assert_eq!(id_target_description("Target", Some(77), "Unknown"), "**Target:** `77`");
    assert_eq!(id_target_description("Target", None, "Unknown"), "**Target:** Unknown");
}

#[test]
fn embed_fields_adds_the_reason_last() {
    let changes = vec![EmbedField::new("a".to_string(), "b".to_string(), true)];
    let with = embed_fields(changes, "Reason".to_string(), Some("spam".to_string()));
    assert_eq!(with.len(), 2);
    assert_eq!(with[1].name, "Reason");
    assert_eq!(with[1].value, "spam");
    assert!(!with[1].inline);
    let changes = vec![EmbedField::new("a".to_string(), "b".to_string(), true)];
    let without = embed_fields(changes, "Reason".to_string(), None);
    assert_eq!(without.len(), 1);
    assert_eq!(without[0].name, "a");
}

#[test]
fn crud_colors() {
    assert_eq!(crud_color_of(CrudAction::Create), COLOR_SUCCESS);
    assert_eq!(crud_color_of(CrudAction::Update), COLOR_WARNING);
    assert_eq!(crud_color_of(CrudAction::Delete), COLOR_DANGER);
    assert_eq!(COLOR_SUCCESS, 0x57F287);
    assert_eq!(COLOR_DANGER, 0xED4245);
}

#[test]
fn role_formatter() {
    let create = RoleFormatter(CrudAction::Create);
    assert_eq!(create.emoji(), "🏷️");
    assert_eq!(create.title_key(), "audit_log.role.create");
    assert_eq!(create.color(), COLOR_SUCCESS);
    assert!(create.lists_changes());
    assert_eq!(create.description("Target", Some(5), "Unknown"), "**Target:** <@&5> (`5`)");
    let delete = RoleFormatter(CrudAction::Delete);
    assert_eq!(delete.description("Target", Some(5), "Unknown"), "**Target:** `5`");
    assert_eq!(delete.description("Target", None, "Unknown"), "**Target:** Unknown");
}

#[test]
fn thread_formatter() {
    let update = ThreadFormatter(CrudAction::Update);
    assert_eq!(update.emoji(), "✏️");
    assert_eq!(update.color(), COLOR_WARNING);
    assert_eq!(update.description("Thread", Some(8), "?"), "**Thread:** <#8> (`8`)");
    assert_eq!(ThreadFormatter(CrudAction::Delete).description("Thread", Some(8), "?"), "**Thread:** `8`");
}

#[test]
fn other_crud_formatters() {
    assert_eq!(EmojiFormatter(CrudAction::Create).emoji(), "😀");
    assert_eq!(EmojiFormatter(CrudAction::Delete).title_key(), "audit_log.emoji.delete");
    assert_eq!(EmojiFormatter(CrudAction::Update).description("T", Some(3), "U"), "**T:** `3`");
    assert_eq!(InviteFormatter(CrudAction::Create).emoji(), "📨");
    assert_eq!(InviteFormatter(CrudAction::Create).description(), "");
    assert_eq!(WebhookFormatter(CrudAction::Create).emoji(), "🪝");
    assert_eq!(WebhookFormatter(CrudAction::Delete).description("T", None, "U"), "**T:** U");
    assert_eq!(StageInstanceFormatter(CrudAction::Create).emoji(), "🎭");
    assert_eq!(StageInstanceFormatter(CrudAction::Delete).color(), COLOR_DANGER);
}

#[test]
fn message_formatter() {
    let delete = MessageFormatter(MessageAction::Delete);
    assert_eq!(delete.emoji(), "🗑️");
    assert_eq!(delete.color(), COLOR_DANGER);
    assert_eq!(delete.title_key(), "audit_log.message.delete");
    assert!(!delete.lists_changes());
    let opts = MessageOptions { channel_id: Some(12), count: Some(3) };
    assert_eq!(delete.description(Some(opts), "Channel", "3 deleted"), "**Channel:** <#12>\n");
    let bulk = MessageFormatter(MessageAction::BulkDelete);
    assert_eq!(
        bulk.description(Some(opts), "Channel", "3 deleted"),
        "3 deleted\n**Channel:** <#12>"
    );
    let pin = MessageFormatter(MessageAction::Pin);
    assert_eq!(pin.emoji(), "📌");
    assert_eq!(pin.color(), COLOR_INFO);
    assert_eq!(pin.description(Some(opts), "Channel", ""), "**Channel:** <#12>");
    assert_eq!(pin.description(None, "Channel", ""), "");
    assert_eq!(MessageFormatter(MessageAction::Unpin).emoji(), "📍");
}

#[test]
fn unknown_and_monetization_formatters() {
    let u = UnknownFormatter(190);
    assert_eq!(u.emoji(), "❓");
    assert_eq!(u.color(), COLOR_NEUTRAL);
    assert_eq!(u.title_key(), "audit_log.unknown_action");
    assert_eq!(u.title_code(), "190");
    assert_eq!(u.description(), "");
    let m = CreatorMonetizationFormatter(MonetizationAction::TermsAccepted);
    assert_eq!(m.emoji(), "✅");
    assert_eq!(m.color(), COLOR_SUCCESS);
    assert_eq!(m.title_key(), "audit_log.creator_monetization.terms_accepted");
    assert_eq!(CreatorMonetizationFormatter(MonetizationAction::RequestCreated).emoji(), "💰");
}
