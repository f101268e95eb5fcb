use rustmail::features::ButtonKind;
use rustmail::modules::commands::{
    logs_button_id, next_logs_page, parse_command_interaction, parse_logs_request, LOGS_PAGE_SIZE,
};
use rustmail::modules::scheduled_closures::{closure_delay, startup_step, wakeup_step, ClosureStep};
use rustmail::modules::threads::{
    canonical_channel, check_ticket_creation, form_user_id, opening_message,
    parse_thread_interaction, thread_button, thread_button_reply_key, CreationRefusal,
    ThreadButton,
};
use rustmail::modules::threads_status::{
    seconds_since_last_message, thread_status_name, ticket_owner_id, ticket_staff_id,
};
use rustmail::types::logs::{PaginationContext, TicketLog};
use rustmail::types::ticket::{TicketAuthor, TicketState};

#[test]
fn command_interactions_lose_their_prefix() {
    assert_eq!(parse_command_interaction("command:logs_next:abc"), Some("logs_next:abc".to_string()));
    assert_eq!(parse_command_interaction("command:"), Some(String::new()));
    assert_eq!(parse_command_interaction("ticket:keep"), None);
}

#[test]
fn logs_requests() {
    assert_eq!(parse_logs_request("command:logs_next:s1"), Some(("s1".to_string(), 1)));
    assert_eq!(parse_logs_request("command:logs_prev:s2"), Some(("s2".to_string(), 0)));
    assert_eq!(parse_logs_request("command:other:s3"), None);
    assert_eq!(parse_logs_request("logs_next:s1"), None);
}

#[test]
fn logs_button_ids_parse_back() {
    for (page, session) in [(0usize, "abc"), (1, "uuid-1234"), (1, "")] {
        let id = logs_button_id(page, session);
        assert_eq!(parse_logs_request(&id), Some((session.to_string(), page)));
    }
    assert_eq!(logs_button_id(1, "x"), "command:logs_next:x");
    assert_eq!(logs_button_id(0, "x"), "command:logs_prev:x");
}

#[test]
fn logs_pages_move_within_bounds() {
    assert_eq!(next_logs_page(0, 3), Some(2));
    assert_eq!(next_logs_page(0, 0), None);
    assert_eq!(next_logs_page(1, 3), Some(4));
    assert_eq!(next_logs_page(1, LOGS_PAGE_SIZE), None);
    assert_eq!(next_logs_page(2, 3), None);
}

fn context(page: usize, logs: usize) -> PaginationContext {
    let logs = (0..logs)
        .map(|i| TicketLog {
            id: i as i64,
            ticket_id: format!("t{}", i),
            user_id: "1".to_string(),
            created_at: "2024-01-01".to_string(),
        })
        .collect();
    PaginationContext {
        user_id: "1".to_string(),
        logs,
        current_page: page,
        message_id: 5,
        channel_id: 6,
    }
}

#[test]
fn turning_pages() {
    let mut ctx = context(0, 25);
    assert!(ctx.turn_page(1));
    assert_eq!(ctx.current_page, 1);
    assert!(ctx.turn_page(0));
    assert_eq!(ctx.current_page, 0);
    assert!(!ctx.turn_page(0));
    assert_eq!(ctx.current_page, 0);
    assert_eq!(ctx.logs.len(), 25);
    assert_eq!(ctx.message_id, 5);
}

#[test]
fn pagination_buttons_disable_at_the_ends() {
    let first = context(0, 25).buttons("Prev", "Next", "s");
    assert_eq!(first.len(), 2);
    assert_eq!(first[0].label, "Prev");
    assert_eq!(first[0].custom_id, "command:logs_prev:s");
    assert!(first[0].disabled);
    assert_eq!(first[1].custom_id, "command:logs_next:s");
    assert!(!first[1].disabled);
    assert_eq!(first[1].kind, ButtonKind::Primary);
    let last = context(2, 25).buttons("Prev", "Next", "s");
    assert!(!last[0].disabled);
    assert!(last[1].disabled);
}

#[test]
fn thread_interactions() {
    assert_eq!(parse_thread_interaction("ticket:keep"), Some("keep".to_string()));
    assert_eq!(parse_thread_interaction("thread:delete:extra"), Some("delete".to_string()));
    assert_eq!(parse_thread_interaction("ticket:"), Some(String::new()));
    assert_eq!(parse_thread_interaction("command:keep"), None);
    assert_eq!(parse_thread_interaction("ticket"), None);
}

#[test]
fn thread_buttons() {
    assert_eq!(thread_button("ticket:delete"), Some(ThreadButton::Delete));
    assert_eq!(thread_button("ticket:keep"), Some(ThreadButton::Keep));
    assert_eq!(thread_button("thread:dont_create:1"), Some(ThreadButton::DontCreate));
    assert_eq!(thread_button("thread:wants_to_create:1"), Some(ThreadButton::WantsToCreate));
    assert_eq!(thread_button("ticket:what"), Some(ThreadButton::Unknown));
    assert_eq!(thread_button("feature:poll:create"), None);
    assert_eq!(thread_button_reply_key(ThreadButton::Delete), Some("thread.thread_closing"));
    assert_eq!(thread_button_reply_key(ThreadButton::Keep), Some("thread.will_remain_open"));
    assert_eq!(thread_button_reply_key(ThreadButton::Unknown), Some("thread.unknown_action"));
    assert_eq!(thread_button_reply_key(ThreadButton::DontCreate), None);
}

#[test]
fn form_user_ids() {
    assert_eq!(form_user_id(" 123456789 "), Some(123456789));
    assert_eq!(form_user_id("0"), None);
    assert_eq!(form_user_id("abc"), None);
    assert_eq!(form_user_id(""), None);
}

#[test]
fn ticket_creation_checks() {
    assert!(check_ticket_creation(false, false, Some(Some(9)), 9).is_ok());
    assert_eq!(check_ticket_creation(true, true, Some(Some(9)), 9), Err(CreationRefusal::BotUser));
    assert_eq!(
        check_ticket_creation(false, true, Some(Some(9)), 9),
        Err(CreationRefusal::AlreadyExists)
    );
    assert_eq!(
        check_ticket_creation(false, false, Some(Some(8)), 9),
        Err(CreationRefusal::NotAThreadChannel)
    );
    assert_eq!(
        check_ticket_creation(false, false, Some(None), 9),
        Err(CreationRefusal::NotAThreadChannel)
    );
    assert_eq!(check_ticket_creation(false, false, None, 9), Err(CreationRefusal::NotAThreadChannel));
    assert_eq!(CreationRefusal::BotUser.key(), "thread.modal_bot_user");
    assert_eq!(CreationRefusal::AlreadyExists.key(), "thread.already_exists");
    assert_eq!(CreationRefusal::NotAThreadChannel.key(), "thread.not_a_thread_channel");
}

#[test]
fn canonical_channels() {
    assert_eq!(canonical_channel(Some("555"), 777), (555, false));
    assert_eq!(canonical_channel(Some("777"), 777), (777, true));
    assert_eq!(canonical_channel(Some("oops"), 777), (777, false));
    assert_eq!(canonical_channel(None, 777), (777, true));
}

#[test]
fn status_names() {
    assert_eq!(
        thread_status_name(TicketAuthor::User, 1, Some("alice".to_string()), 0, None, 125),
        "🔴・alice・2m"
    );
    assert_eq!(
        thread_status_name(TicketAuthor::Staff, 1, None, 2, Some("bob".to_string()), 7200),
        "🔵・User-1・bob・2h"
    );
    assert_eq!(thread_status_name(TicketAuthor::Staff, 0, None, 3, None, 59), "🔵・Unknown・Staff-3・0m");
    assert_eq!(thread_status_name(TicketAuthor::User, 0, None, 0, None, -125), "🔴・Unknown・-2m");
    assert_eq!(thread_status_name(TicketAuthor::User, 0, None, 0, None, 3599), "🔴・Unknown・59m");
}

#[test]
fn ticket_ids_and_elapsed_time() {
    let t = TicketState {
        channel_id: 1,
        owner_id: "42".to_string(),
        taken_by: Some("7".to_string()),
        last_message_by: TicketAuthor::User,
        last_message_at: 1000,
    };
    assert_eq!(ticket_owner_id(&t), 42);
    assert_eq!(ticket_staff_id(&t), 7);
    assert_eq!(seconds_since_last_message(&t, 1600), 600);
    let u = TicketState { owner_id: "x".to_string(), taken_by: None, ..t.clone() };
    assert_eq!(ticket_owner_id(&u), 0);
    assert_eq!(ticket_staff_id(&u), 0);
    assert_eq!(TicketAuthor::Staff.db_name(), "staff");
    assert_eq!(TicketAuthor::User.db_name(), "user");
}

#[test]
fn scheduled_closure_steps() {
    assert_eq!(startup_step(false, 10, 20), ClosureStep::DiscardRecord);
    assert_eq!(startup_step(true, 10, 20), ClosureStep::CloseNow);
    assert_eq!(startup_step(true, 20, 20), ClosureStep::CloseNow);
    assert_eq!(startup_step(true, 30, 20), ClosureStep::Reschedule);
    assert_eq!(wakeup_step(10, 20, true), ClosureStep::CloseNow);
    assert_eq!(wakeup_step(10, 20, false), ClosureStep::DiscardRecord);
    assert_eq!(wakeup_step(30, 20, false), ClosureStep::Reschedule);
    assert_eq!(closure_delay(30, 20), 10);
    assert_eq!(closure_delay(10, 20), 0);
}

#[test]
fn opening_message_describes_the_user() {
    assert_eq!(
        opening_message("3 years", 42, "alice", "2 days"),
        "ACCOUNT AGE **3 years**, ID **42**\nNICKNAME **alice**, JOINED **2 days**"
    );
}

#[test]
fn status_name_starts_with_the_last_author_dot() {
    for (by, dot) in [(TicketAuthor::Staff, '🔵'), (TicketAuthor::User, '🔴')] {
        for (owner, staff, elapsed) in [(0u64, 0u64, 0i64), (5, 6, 99999), (1, 0, -60)] {
            let name = thread_status_name(by, owner, None, staff, Some("s".to_string()), elapsed);
            assert_eq!(name.chars().next(), Some(dot));
        }
    }
}
