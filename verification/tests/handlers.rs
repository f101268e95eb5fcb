use rustmail::handlers::guild_interaction_handler::{
    maintenance_exempt, refused_for_maintenance, GuildFacts, ADMINISTRATOR,
};
use rustmail::handlers::guild_members_handler::{required_permissions, Overwrite};
use rustmail::handlers::guild_message_reactions_handler::{
    dm_mirror_id, reaction_route, ticket_mirror_id, MessageIds, ReactionRoute,
};
use rustmail::handlers::guild_messages_handler::{
    before_edit, command_name, deletion_log_key, has_oversized_attachment, message_link, quote,
    route_direct_message, text_command, user_mention, wrong_guild_key, DirectMessageRoute,
    RouteError, TextCommand, MAX_ATTACHMENT_SIZE,
};

#[test]
fn command_names_after_the_prefix() {
    assert_eq!(command_name("!reply hello there", "!"), Some("reply".to_string()));
    assert_eq!(command_name("!close", "!"), Some("close".to_string()));
    assert_eq!(command_name("hello", "!"), None);
    assert_eq!(command_name("?help me", "?"), Some("help".to_string()));
    assert_eq!(command_name("!! x", "!!"), Some(String::new()));
}

#[test]
fn command_name_follows_the_whole_prefix() {
    assert_eq!(command_name("!!ping", "!!"), Some("ping".to_string()));
    assert_eq!(command_name("!!help me", "!!"), Some("help".to_string()));
    assert_eq!(command_name("mm:close", "mm:"), Some("close".to_string()));
    assert_eq!(command_name("!!", "!!"), Some(String::new()));
    assert_eq!(command_name("!ping", "!!"), None);
}

#[test]
fn text_command_aliases() {
    let cases = [
        ("reply", TextCommand::Reply),
        ("r", TextCommand::Reply),
        ("edit", TextCommand::Edit),
        ("e", TextCommand::Edit),
        ("close", TextCommand::Close),
        ("c", TextCommand::Close),
        ("recover", TextCommand::Recover),
        ("alert", TextCommand::Alert),
        ("move", TextCommand::MoveThread),
        ("mv", TextCommand::MoveThread),
        ("move_thread", TextCommand::MoveThread),
        ("nt", TextCommand::NewThread),
        ("new_thread", TextCommand::NewThread),
        ("new", TextCommand::NewThread),
        ("delete", TextCommand::Delete),
        ("anonreply", TextCommand::AnonReply),
        ("ar", TextCommand::AnonReply),
        ("force_close", TextCommand::ForceClose),
        ("fc", TextCommand::ForceClose),
        ("addmod", TextCommand::AddStaff),
        ("am", TextCommand::AddStaff),
        ("delmod", TextCommand::RemoveStaff),
        ("dm", TextCommand::RemoveStaff),
        ("id", TextCommand::Id),
        ("help", TextCommand::Help),
        ("remind", TextCommand::AddReminder),
        ("rem", TextCommand::AddReminder),
        ("unremind", TextCommand::RemoveReminder),
        ("urem", TextCommand::RemoveReminder),
        ("logs", TextCommand::Logs),
        ("take", TextCommand::Take),
        ("release", TextCommand::Release),
        ("ping", TextCommand::Ping),
        ("snippet", TextCommand::Snippet),
        ("s", TextCommand::Snippet),
    ];
    for (name, cmd) in cases {
        assert_eq!(text_command(name), Some(cmd));
    }
    assert_eq!(text_command("Reply"), None);
    assert_eq!(text_command(""), None);
    assert_eq!(text_command("poll"), None);
}

#[test]
fn direct_message_routes() {
    let none: Vec<u32> = vec![];
    assert_eq!(
        route_direct_message(true, None, 1, false, Some("5"), &none),
        Ok(DirectMessageRoute::Ignore)
    );
    assert_eq!(
        route_direct_message(false, Some(2), 1, true, Some("5"), &none),
        Ok(DirectMessageRoute::WrongGuild { dual_mode: true })
    );
    assert_eq!(
        route_direct_message(false, Some(1), 1, false, None, &none),
        Ok(DirectMessageRoute::OpenTicket)
    );
    assert_eq!(
        route_direct_message(false, None, 1, false, Some("55"), &vec![10, 20]),
        Ok(DirectMessageRoute::Forward { channel_id: 55 })
    );
    assert_eq!(
        route_direct_message(false, None, 1, false, Some("55"), &vec![10, MAX_ATTACHMENT_SIZE + 1]),
        Ok(DirectMessageRoute::AttachmentTooLarge)
    );
    assert_eq!(
        route_direct_message(false, None, 1, false, Some("not a number"), &none),
        Err(RouteError::InvalidChannelId)
    );
}

#[test]
fn attachment_limit_is_eight_mebibytes() {
    assert_eq!(MAX_ATTACHMENT_SIZE, 8 * 1024 * 1024);
    assert!(!has_oversized_attachment(&vec![MAX_ATTACHMENT_SIZE]));
    assert!(has_oversized_attachment(&vec![1, MAX_ATTACHMENT_SIZE + 1, 2]));
    assert!(!has_oversized_attachment(&vec![]));
}

#[test]
fn message_handler_texts() {
    assert_eq!(wrong_guild_key(true), "server.wrong_guild_dual");
    assert_eq!(wrong_guild_key(false), "server.wrong_guild_single");
    assert_eq!(deletion_log_key(Some(3)), "delete.removed_by_staff");
    assert_eq!(deletion_log_key(None), "delete.removed_by_user");
    assert_eq!(quote("hi"), "`hi`");
    assert_eq!(user_mention(123), "<@123>");
    assert_eq!(before_edit(Some("old")), "`old`");
    assert_eq!(before_edit(Some("")), "`(inconnu)`");
    assert_eq!(before_edit(None), "`(inconnu)`");
    assert_eq!(message_link(1, 2, "3"), "https://discord.com/channels/1/2/3");
}

#[test]
fn role_overwrites_apply_in_order() {
    let deny_send = Overwrite { for_role: true, allow: 0, deny: 0b0100 };
    let allow_send = Overwrite { for_role: true, allow: 0b0100, deny: 0 };
    let member = Overwrite { for_role: false, allow: 0xff, deny: 0xff };
    assert_eq!(required_permissions(0b0111, &vec![]), 0b0111);
    assert_eq!(required_permissions(0b0111, &vec![deny_send]), 0b0011);
    assert_eq!(required_permissions(0b0111, &vec![deny_send, allow_send]), 0b0111);
    assert_eq!(required_permissions(0b0111, &vec![allow_send, deny_send]), 0b0011);
    assert_eq!(required_permissions(0b0001, &vec![member]), 0b0001);
}

#[test]
fn last_role_overwrite_wins() {
    let o = Overwrite { for_role: true, allow: 0b1000, deny: 0b0001 };
    for base in [0u64, 0b1111, u64::MAX] {
        let others = vec![
            Overwrite { for_role: true, allow: 0b0001, deny: 0b1000 },
            Overwrite { for_role: false, allow: 0, deny: u64::MAX },
        ];
        let before = required_permissions(base, &others);
        let mut all = others.clone();
        all.push(o);
        assert_eq!(required_permissions(base, &all), (before & !o.deny) | o.allow);
    }
}

#[test]
fn maintenance_exemptions() {
    let users = vec![10];
    let roles = vec![500];
    let member_roles = vec![400, 500];
    let no_roles: Vec<u64> = vec![];
    let guild = GuildFacts { owner_id: 30, member_role_permissions: vec![0] };
    let admin_guild = GuildFacts { owner_id: 30, member_role_permissions: vec![0, ADMINISTRATOR] };
    assert!(maintenance_exempt(10, &users, &roles, None, None));
    assert!(!maintenance_exempt(20, &users, &roles, None, Some(&guild)));
    assert!(maintenance_exempt(20, &users, &roles, Some(&member_roles), None));
    assert!(!maintenance_exempt(20, &users, &no_roles, Some(&member_roles), None));
    assert!(maintenance_exempt(30, &users, &no_roles, Some(&no_roles), Some(&guild)));
    assert!(!maintenance_exempt(20, &users, &no_roles, Some(&no_roles), Some(&guild)));
    assert!(maintenance_exempt(20, &users, &no_roles, Some(&no_roles), Some(&admin_guild)));
    assert_eq!(ADMINISTRATOR, 8);
}

#[test]
fn maintenance_refusals() {
    assert!(refused_for_maintenance(true, true, false));
    assert!(!refused_for_maintenance(true, true, true));
    assert!(!refused_for_maintenance(true, false, false));
    assert!(!refused_for_maintenance(false, true, false));
}

#[test]
fn reaction_routes() {
    assert_eq!(reaction_route(true, Some(5), false), ReactionRoute::Ignore);
    assert_eq!(reaction_route(false, Some(5), true), ReactionRoute::ToDirectMessage { user_id: 5 });
    assert_eq!(reaction_route(false, None, false), ReactionRoute::ToTicket);
    assert_eq!(reaction_route(false, None, true), ReactionRoute::Ignore);
}

#[test]
fn mirrored_message_ids() {
    let ids = MessageIds { dm_message_id: Some("d".to_string()), inbox_message_id: None };
    assert_eq!(dm_mirror_id(&ids), Some("d".to_string()));
    assert_eq!(ticket_mirror_id(&ids, "r".to_string()), "r");
    let ids = MessageIds { dm_message_id: None, inbox_message_id: Some("i".to_string()) };
    assert_eq!(dm_mirror_id(&ids), None);
    assert_eq!(ticket_mirror_id(&ids, "r".to_string()), "i");
}
