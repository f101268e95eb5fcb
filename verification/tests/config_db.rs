use rustmail::config::{check_colors, check_servers, is_hex_color, ColorError, ServerMode};
use rustmail::db::operations::scheduled::ScheduledClosure;
use rustmail::db::operations::statistics::{daily_activity, StaffMember, TopPerformer};
use rustmail::db::operations::threads::{
    allocate_message_number, check_cancel_alert, check_set_alert, next_message_number, user_left_from_rows, AlertError,
};
use rustmail::db::repr::Permission;

#[test]
fn hex_colors() {
    assert!(is_hex_color("5865F2"));
    assert!(is_hex_color("ff"));
    assert!(is_hex_color("+0a"));
    assert!(!is_hex_color("#5865F2"));
    assert!(!is_hex_color(""));
    assert!(!is_hex_color("xyz"));
    assert!(!is_hex_color("1ffffffffffffffff"));
}

#[test]
fn color_checks_report_the_first_bad_color() {
    assert_eq!(check_colors("ffffff", "000000", "abcdef"), Ok(()));
    assert_eq!(check_colors("zz", "zz", "zz"), Err(ColorError::UserMessageColor));
    assert_eq!(check_colors("ff", "zz", "zz"), Err(ColorError::StaffMessageColor));
    assert_eq!(check_colors("ff", "ff", "zz"), Err(ColorError::ReminderEmbedColor));
    assert_eq!(
        ColorError::UserMessageColor.message(),
        "Incorrect user message color in the config.toml! Please put a color in hex format!"
    );
    assert_eq!(
        ColorError::ReminderEmbedColor.message(),
        "Incorrect reminder embed color in the config.toml! Please put a color in hex format!"
    );
}

#[test]
fn server_checks() {
    assert_eq!(check_servers(ServerMode::Single { guild_id: 1 }, true, false), Ok(()));
    assert_eq!(
        check_servers(ServerMode::Single { guild_id: 1 }, false, false),
        Err("Serveur principal introuvable: 1".to_string())
    );
    let dual = ServerMode::Dual { community_guild_id: 1, staff_guild_id: 2 };
    assert_eq!(check_servers(dual, true, true), Ok(()));
    assert_eq!(check_servers(dual, false, true), Err("Serveur communautaire introuvable: 1".to_string()));
    assert_eq!(check_servers(dual, true, false), Err("Serveur staff introuvable: 2".to_string()));
    let same = ServerMode::Dual { community_guild_id: 3, staff_guild_id: 3 };
    assert_eq!(
        check_servers(same, true, true),
        Err("Les serveurs communautaire et staff doivent être différents".to_string())
    );
}

#[test]
fn permission_wire_names_round_trip() {
    let all = [
        Permission::CreateTicket,
        Permission::ReadTickets,
        Permission::UpdateTicket,
        Permission::DeleteTicket,
        Permission::ReadConfig,
        Permission::UpdateConfig,
        Permission::ManageBot,
    ];
    for p in all {
        assert_eq!(Permission::from_wire_name(p.wire_name()), Some(p));
    }
    assert_eq!(Permission::CreateTicket.wire_name(), "CREATE_TICKET");
    assert_eq!(Permission::ManageBot.wire_name(), "MANAGE_BOT");
    assert_eq!(Permission::from_wire_name("manage_bot"), None);
    assert_eq!(Permission::from_wire_name(""), None);
}

#[test]
fn message_numbers_and_user_left() {
    assert_eq!(next_message_number(Some(5)), 5);
    assert_eq!(next_message_number(None), 1);
    assert!(!user_left_from_rows(&vec![]));
    assert!(user_left_from_rows(&vec![true, false]));
    assert!(!user_left_from_rows(&vec![false, true]));
}

#[test]
fn alert_checks() {
    assert_eq!(check_set_alert(false), Ok(()));
    assert_eq!(check_set_alert(true), Err(AlertError::AlreadySet));
    assert_eq!(check_cancel_alert(true), Ok(()));
    assert_eq!(check_cancel_alert(false), Err(AlertError::DoesNotExist));
}

#[test]
fn scheduled_closure_rows() {
    let c = ScheduledClosure::from_row("t1".to_string(), 100, 1);
    assert_eq!(c.thread_id, "t1");
    assert_eq!(c.close_at, 100);
    assert!(c.silent);
    assert!(!c.notifies_user());
    let c = ScheduledClosure::from_row("t2".to_string(), 5, 0);
    assert!(!c.silent);
    assert!(c.notifies_user());
}

#[test]
fn staff_rows() {
    let m = StaffMember::from_row(-12, "bob".to_string(), 3, 4);
    assert_eq!(m.user_id, "-12");
    assert_eq!(m.username, "bob");
    assert_eq!(m.messages_count, 3);
    assert_eq!(m.tickets_closed, 4);
    assert_eq!(m.avg_response_time_seconds, None);
    let t = TopPerformer::from_numeric_row(77, "amy".to_string(), 9);
    assert_eq!(t.user_id, "77");
    assert_eq!(t.value, 9);
}

#[test]
fn daily_activity_fills_missing_days_with_zero() {
    let days = vec!["2024-01-01".to_string(), "2024-01-02".to_string(), "2024-01-03".to_string()];
    let created = vec![("2024-01-01".to_string(), 4), ("2024-01-03".to_string(), 1)];
    let closed = vec![("2024-01-02".to_string(), 2), ("2024-01-02".to_string(), 5)];
    let out = daily_activity(&days, &created, &closed);
    assert_eq!(out.len(), 3);
    assert_eq!(out[0].date, "2024-01-01");
    assert_eq!((out[0].created, out[0].closed), (4, 0));
    assert_eq!((out[1].created, out[1].closed), (0, 5));
    assert_eq!((out[2].created, out[2].closed), (1, 0));
    assert!(daily_activity(&vec![], &created, &closed).is_empty());
}

#[test]
fn message_numbers_are_allocated_in_turn() {
    assert_eq!(allocate_message_number(Some(5)), (5, Some(6)));
    assert_eq!(allocate_message_number(None), (1, None));
    let mut stored = Some(1i64);
    let mut issued = Vec::new();
    for _ in 0..5 {
        let (n, next) = allocate_message_number(stored);
        issued.push(n);
        stored = next;
    }
    assert_eq!(issued, vec![1, 2, 3, 4, 5]);
}
