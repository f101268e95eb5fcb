use crate::text::{
    chars_of, decimal, decimal_int, find, find_char, i64_to_string, parse_u64, parse_u64_spec,
    push_decimal, starts_with, str_eq,
};
use vstd::prelude::*;

verus! {

/// The name of the command a guild message calls, when the message starts with
/// the command prefix: the text after the whole prefix, up to the first space
/// or to the end.
pub open spec fn command_name_spec(content: Seq<char>, prefix: Seq<char>) -> Option<Seq<char>> {
    if prefix.is_prefix_of(content) {
        let f = find_char(content, ' ');
        Some(content.subrange(prefix.len() as int, f as int))
    } else {
        None
    }
}

/// The inputs on which the command name can be cut out of a message: a space
/// in the message does not stand inside the prefix.
pub open spec fn command_name_sliceable(content: Seq<char>, prefix: Seq<char>) -> bool {
    prefix.is_prefix_of(content) ==> prefix.len() <= find_char(content, ' ')
}

/// The command name of a guild message.
pub fn command_name(content: &str, prefix: &str) -> (r: Option<String>)
    requires
        command_name_sliceable(content@, prefix@),
    ensures
        match r {
            Some(name) => command_name_spec(content@, prefix@) == Some(name@),
            None => command_name_spec(content@, prefix@) is None,
        },
{
    if !starts_with(content, prefix) {
        return None;
    }
    let v = chars_of(content);
    let f = find(&v, ' ');
    proof {
        crate::text::lemma_find_char(content@, ' ');
    }
    let p = prefix.unicode_len();
    Some(content.substring_char(p, f).to_owned())
}

/// A message `<prefix><name>` or `<prefix><name> <arguments>` calls `name`,
/// whatever the prefix's length, when neither the prefix nor the name holds a
/// space.
pub proof fn lemma_command_name_after_prefix(prefix: Seq<char>, name: Seq<char>, args: Option<Seq<char>>)
    requires
        forall|k: int| 0 <= k < prefix.len() ==> prefix[k] != ' ',
        forall|k: int| 0 <= k < name.len() ==> name[k] != ' ',
    ensures
        command_name_sliceable(
            prefix + name + match args {
                Some(a) => seq![' '] + a,
                None => Seq::empty(),
            },
            prefix,
        ),
        command_name_spec(
            prefix + name + match args {
                Some(a) => seq![' '] + a,
                None => Seq::empty(),
            },
            prefix,
        ) == Some(name),
{
    let tail = match args {
        Some(a) => seq![' '] + a,
        None => Seq::<char>::empty(),
    };
    let content = prefix + name + tail;
    let end: int = prefix.len() + name.len() as int;
    assert(prefix.is_prefix_of(content)) by {
        assert(content.subrange(0, prefix.len() as int) =~= prefix);
    }
    assert forall|k: int| 0 <= k < end implies content[k] != ' ' by {
        if k >= prefix.len() {
            assert(content[k] == name[k - prefix.len()]);
        } else {
            assert(content[k] == prefix[k]);
        }
    }
    match args {
        Some(a) => {
            assert(content[end] == ' ');
            crate::text::lemma_find_char_at(content, ' ', end);
        },
        None => {
            assert(content.len() == end);
            crate::text::lemma_find_char_at(content, ' ', end);
        },
    }
    assert(content.subrange(prefix.len() as int, end) =~= name);
}

/// A command that staff type in a ticket channel.
#[derive(Clone, Copy, PartialEq, Eq, Structural, Debug)]
pub enum TextCommand {
    Reply,
    Edit,
    Close,
    Recover,
    Alert,
    MoveThread,
    NewThread,
    Delete,
    AnonReply,
    ForceClose,
    AddStaff,
    RemoveStaff,
    Id,
    Help,
    AddReminder,
    RemoveReminder,
    Logs,
    Take,
    Release,
    Ping,
    Snippet,
}

/// The command that a name or alias calls.
pub open spec fn text_command_spec(name: Seq<char>) -> Option<TextCommand> {
    if name == "reply"@ || name == "r"@ {
        Some(TextCommand::Reply)
    } else if name == "edit"@ || name == "e"@ {
        Some(TextCommand::Edit)
    } else if name == "close"@ || name == "c"@ {
        Some(TextCommand::Close)
    } else if name == "recover"@ {
        Some(TextCommand::Recover)
    } else if name == "alert"@ {
        Some(TextCommand::Alert)
    } else if name == "move"@ || name == "mv"@ || name == "move_thread"@ {
        Some(TextCommand::MoveThread)
    } else if name == "nt"@ || name == "new_thread"@ || name == "new"@ {
        Some(TextCommand::NewThread)
    } else if name == "delete"@ {
        Some(TextCommand::Delete)
    } else if name == "anonreply"@ || name == "ar"@ {
        Some(TextCommand::AnonReply)
    } else if name == "force_close"@ || name == "fc"@ {
        Some(TextCommand::ForceClose)
    } else if name == "addmod"@ || name == "am"@ {
        Some(TextCommand::AddStaff)
    } else if name == "delmod"@ || name == "dm"@ {
        Some(TextCommand::RemoveStaff)
    } else if name == "id"@ {
        Some(TextCommand::Id)
    } else if name == "help"@ {
        Some(TextCommand::Help)
    } else if name == "remind"@ || name == "rem"@ {
        Some(TextCommand::AddReminder)
    } else if name == "unremind"@ || name == "urem"@ {
        Some(TextCommand::RemoveReminder)
    } else if name == "logs"@ {
        Some(TextCommand::Logs)
    } else if name == "take"@ {
        Some(TextCommand::Take)
    } else if name == "release"@ {
        Some(TextCommand::Release)
    } else if name == "ping"@ {
        Some(TextCommand::Ping)
    } else if name == "snippet"@ || name == "s"@ {
        Some(TextCommand::Snippet)
    } else {
        None
    }
}

/// The command registered under a name or alias.
pub fn text_command(name: &str) -> (r: Option<TextCommand>)
    ensures
        r == text_command_spec(name@),
{
    if str_eq(name, "reply") || str_eq(name, "r") {
        Some(TextCommand::Reply)
    } else if str_eq(name, "edit") || str_eq(name, "e") {
        Some(TextCommand::Edit)
    } else if str_eq(name, "close") || str_eq(name, "c") {
        Some(TextCommand::Close)
    } else if str_eq(name, "recover") {
        Some(TextCommand::Recover)
    } else if str_eq(name, "alert") {
        Some(TextCommand::Alert)
    } else if str_eq(name, "move") || str_eq(name, "mv") || str_eq(name, "move_thread") {
        Some(TextCommand::MoveThread)
    } else if str_eq(name, "nt") || str_eq(name, "new_thread") || str_eq(name, "new") {
        Some(TextCommand::NewThread)
    } else if str_eq(name, "delete") {
        Some(TextCommand::Delete)
    } else if str_eq(name, "anonreply") || str_eq(name, "ar") {
        Some(TextCommand::AnonReply)
    } else if str_eq(name, "force_close") || str_eq(name, "fc") {
        Some(TextCommand::ForceClose)
    } else if str_eq(name, "addmod") || str_eq(name, "am") {
        Some(TextCommand::AddStaff)
    } else if str_eq(name, "delmod") || str_eq(name, "dm") {
        Some(TextCommand::RemoveStaff)
    } else if str_eq(name, "id") {
        Some(TextCommand::Id)
    } else if str_eq(name, "help") {
        Some(TextCommand::Help)
    } else if str_eq(name, "remind") || str_eq(name, "rem") {
        Some(TextCommand::AddReminder)
    } else if str_eq(name, "unremind") || str_eq(name, "urem") {
        Some(TextCommand::RemoveReminder)
    } else if str_eq(name, "logs") {
        Some(TextCommand::Logs)
    } else if str_eq(name, "take") {
        Some(TextCommand::Take)
    } else if str_eq(name, "release") {
        Some(TextCommand::Release)
    } else if str_eq(name, "ping") {
        Some(TextCommand::Ping)
    } else if str_eq(name, "snippet") || str_eq(name, "s") {
        Some(TextCommand::Snippet)
    } else {
        None
    }
}

/// The largest attachment, in bytes, that a user may send into a ticket.
pub const MAX_ATTACHMENT_SIZE: u32 = 8 * 1024 * 1024;

/// Where a direct message to the bot goes.
#[derive(Clone, Copy, PartialEq, Eq, Structural, Debug)]
pub enum DirectMessageRoute {
    /// A bot wrote it: nothing is done.
    Ignore,
    /// It was sent in a guild other than the community one; the user is told
    /// with the given translation key and the message is refused.
    WrongGuild { dual_mode: bool },
    /// The user has no ticket: one is opened for the message.
    OpenTicket,
    /// An attachment is over the size limit: the user is told and nothing is forwarded.
    AttachmentTooLarge,
    /// The message is forwarded to the user's ticket channel.
    Forward { channel_id: u64 },
}

/// Why a direct message cannot be routed.
#[derive(Clone, Copy, PartialEq, Eq, Structural, Debug)]
pub enum RouteError {
    /// The ticket's stored channel id does not read as a number.
    InvalidChannelId,
}

/// The route of a direct message: bots are ignored; a message from another
/// guild than the community one is refused; a user without a ticket gets one;
/// a user with a ticket has the message forwarded unless an attachment is
/// larger than `MAX_ATTACHMENT_SIZE`.
pub open spec fn direct_message_route_spec(
    author_is_bot: bool,
    guild_id: Option<u64>,
    community_guild_id: u64,
    dual_mode: bool,
    ticket_channel: Option<Seq<char>>,
    attachment_sizes: Seq<u32>,
) -> Result<DirectMessageRoute, RouteError> {
    if author_is_bot {
        Ok(DirectMessageRoute::Ignore)
    } else if guild_id is Some && guild_id->0 != community_guild_id {
        Ok(DirectMessageRoute::WrongGuild { dual_mode })
    } else {
        match ticket_channel {
            None => Ok(DirectMessageRoute::OpenTicket),
            Some(text) => match parse_u64_spec(text, 10) {
                None => Err(RouteError::InvalidChannelId),
                Some(channel_id) => if exists|i: int|
                    0 <= i < attachment_sizes.len() && #[trigger] attachment_sizes[i]
                        > MAX_ATTACHMENT_SIZE {
                    Ok(DirectMessageRoute::AttachmentTooLarge)
                } else {
                    Ok(DirectMessageRoute::Forward { channel_id })
                },
            },
        }
    }
}

/// Whether an attachment is larger than `MAX_ATTACHMENT_SIZE`.
pub fn has_oversized_attachment(sizes: &Vec<u32>) -> (r: bool)
    ensures
        r == exists|i: int| 0 <= i < sizes.len() && #[trigger] sizes@[i] > MAX_ATTACHMENT_SIZE,
{
    let mut i: usize = 0;
    while i < sizes.len()
        invariant
            i <= sizes.len(),
            forall|k: int| 0 <= k < i ==> sizes@[k] <= MAX_ATTACHMENT_SIZE,
        decreases sizes.len() - i,
    {
        if sizes[i] > MAX_ATTACHMENT_SIZE {
            assert(sizes@[i as int] > MAX_ATTACHMENT_SIZE);
            return true;
        }
        i = i + 1;
    }
    false
}

/// Routes a direct message; `ticket_channel` is the channel id stored for the
/// user's open ticket, if any.
pub fn route_direct_message(
    author_is_bot: bool,
    guild_id: Option<u64>,
    community_guild_id: u64,
    dual_mode: bool,
    ticket_channel: Option<&str>,
    attachment_sizes: &Vec<u32>,
) -> (r: Result<DirectMessageRoute, RouteError>)
    requires
        ticket_channel matches Some(t) ==> parse_u64_spec(t@, 10) != Some(0u64),
    ensures
        r == direct_message_route_spec(
            author_is_bot,
            guild_id,
            community_guild_id,
            dual_mode,
            match ticket_channel {
                Some(t) => Some(t@),
                None => None,
            },
            attachment_sizes@,
        ),
{
    if author_is_bot {
        return Ok(DirectMessageRoute::Ignore);
    }
    if let Some(g) = guild_id {
        if g != community_guild_id {
            return Ok(DirectMessageRoute::WrongGuild { dual_mode });
        }
    }
    match ticket_channel {
        None => Ok(DirectMessageRoute::OpenTicket),
        Some(text) => match parse_u64(text) {
            None => Err(RouteError::InvalidChannelId),
            Some(channel_id) => {
                if has_oversized_attachment(attachment_sizes) {
                    return Ok(DirectMessageRoute::AttachmentTooLarge);
                }
                Ok(DirectMessageRoute::Forward { channel_id })
            },
        },
    }
}

/// The translation key telling a user that the message came from the wrong guild.
pub fn wrong_guild_key(dual_mode: bool) -> (r: &'static str)
    ensures
        r@ == if dual_mode {
            "server.wrong_guild_dual"@
        } else {
            "server.wrong_guild_single"@
        },
{
    if dual_mode {
        "server.wrong_guild_dual"
    } else {
        "server.wrong_guild_single"
    }
}

/// The translation key of the log of a deleted message: a numbered (staff)
/// message or a user's.
pub fn deletion_log_key(message_number: Option<i64>) -> (r: &'static str)
    ensures
        r@ == if message_number is Some {
            "delete.removed_by_staff"@
        } else {
            "delete.removed_by_user"@
        },
{
    if message_number.is_some() {
        "delete.removed_by_staff"
    } else {
        "delete.removed_by_user"
    }
}

/// A text between backticks.
pub open spec fn quoted(text: Seq<char>) -> Seq<char> {
    "`"@ + text + "`"@
}

/// Puts a text between backticks (`format!("`{}`", text)`).
pub fn quote(text: &str) -> (r: String)
    ensures
        r@ == quoted(text@),
{
    let mut r = "`".to_owned();
    r.append(text);
    r.append("`");
    r
}

/// A user mention of a stored (signed) user id.
pub open spec fn user_mention_text(user_id: i64) -> Seq<char> {
    "<@"@ + decimal_int(user_id as int) + ">"@
}

/// Mentions a user by a stored id (`format!("<@{}>", user_id)`).
pub fn user_mention(user_id: i64) -> (r: String)
    ensures
        r@ == user_mention_text(user_id),
{
    let mut r = "<@".to_owned();
    let id = i64_to_string(user_id);
    r.append(id.as_str());
    r.append(">");
    r
}

/// How an edit log shows the text before the edit: quoted, or `(inconnu)`
/// quoted when the old text is unknown or empty.
pub open spec fn before_edit_text(old: Option<Seq<char>>) -> Seq<char> {
    match old {
        Some(t) => if t.len() == 0 {
            "`(inconnu)`"@
        } else {
            quoted(t)
        },
        None => "`(inconnu)`"@,
    }
}

/// The text before an edit, as the edit log shows it.
pub fn before_edit(old: Option<&str>) -> (r: String)
    ensures
        r@ == before_edit_text(
            match old {
                Some(t) => Some(t@),
                None => None,
            },
        ),
{
    match old {
        Some(t) => if t.unicode_len() == 0 {
            "`(inconnu)`".to_owned()
        } else {
            quote(t)
        },
        None => "`(inconnu)`".to_owned(),
    }
}

/// The link to a message of a guild channel.
pub open spec fn message_link_text(guild_id: u64, channel_id: u64, message_id: Seq<char>) -> Seq<
    char,
> {
    "https://discord.com/channels/"@ + decimal(guild_id as nat) + "/"@ + decimal(
        channel_id as nat,
    ) + "/"@ + message_id
}

/// The link to a message (`https://discord.com/channels/<guild>/<channel>/<message>`).
pub fn message_link(guild_id: u64, channel_id: u64, message_id: &str) -> (r: String)
    ensures
        r@ == message_link_text(guild_id, channel_id, message_id@),
{
    let mut r = "https://discord.com/channels/".to_owned();
    push_decimal(&mut r, guild_id);
    r.append("/");
    push_decimal(&mut r, channel_id);
    r.append("/");
    r.append(message_id);
    r
}

/// A user with a ticket whose channel id reads as a number, writing from no
/// guild or from the community guild: the message is refused as too large
/// whenever any attachment, at any position, is over the limit, and forwarded
/// to the ticket's channel when none is.
pub proof fn lemma_oversized_attachment_anywhere(
    guild_id: Option<u64>,
    community_guild_id: u64,
    dual_mode: bool,
    channel_text: Seq<char>,
    attachment_sizes: Seq<u32>,
    i: int,
)
    requires
        parse_u64_spec(channel_text, 10) is Some,
        guild_id is None || guild_id == Some(community_guild_id),
    ensures
        0 <= i < attachment_sizes.len() && attachment_sizes[i] > MAX_ATTACHMENT_SIZE
            ==> direct_message_route_spec(
            false,
            guild_id,
            community_guild_id,
            dual_mode,
            Some(channel_text),
            attachment_sizes,
        ) == Ok::<DirectMessageRoute, RouteError>(DirectMessageRoute::AttachmentTooLarge),
        (forall|k: int| 0 <= k < attachment_sizes.len() ==> attachment_sizes[k] <= MAX_ATTACHMENT_SIZE)
            ==> direct_message_route_spec(
            false,
            guild_id,
            community_guild_id,
            dual_mode,
            Some(channel_text),
            attachment_sizes,
        ) == Ok::<DirectMessageRoute, RouteError>(
            DirectMessageRoute::Forward { channel_id: parse_u64_spec(channel_text, 10)->0 },
        ),
{
}

/// Where a direct message goes does not depend on the order of its
/// attachments.
pub proof fn lemma_route_ignores_attachment_order(
    author_is_bot: bool,
    guild_id: Option<u64>,
    community_guild_id: u64,
    dual_mode: bool,
    ticket_channel: Option<Seq<char>>,
    a: Seq<u32>,
    b: Seq<u32>,
)
    ensures
        direct_message_route_spec(author_is_bot, guild_id, community_guild_id, dual_mode, ticket_channel, a + b)
            == direct_message_route_spec(
            author_is_bot,
            guild_id,
            community_guild_id,
            dual_mode,
            ticket_channel,
            b + a,
        ),
{
    let ab = a + b;
    let ba = b + a;
    assert forall|i: int| 0 <= i < ab.len() && ab[i] > MAX_ATTACHMENT_SIZE implies exists|j: int|
        0 <= j < ba.len() && #[trigger] ba[j] > MAX_ATTACHMENT_SIZE by {
        if i < a.len() {
            assert(ba[b.len() + i] == ab[i]);
        } else {
            assert(ba[i - a.len()] == ab[i]);
        }
    }
    assert forall|i: int| 0 <= i < ba.len() && ba[i] > MAX_ATTACHMENT_SIZE implies exists|j: int|
        0 <= j < ab.len() && #[trigger] ab[j] > MAX_ATTACHMENT_SIZE by {
        if i < b.len() {
            assert(ab[a.len() + i] == ba[i]);
        } else {
            assert(ab[i - b.len()] == ba[i]);
        }
    }
}

/// Where a direct message goes before its attachments matter: a bot's message is
/// ignored; a message from another guild than the community one is refused,
/// saying whether the bot runs on two servers; a user with no ticket gets one
/// opened; a ticket whose channel id does not read as a number is an error.
pub proof fn lemma_direct_message_routes(
    author_is_bot: bool,
    guild_id: Option<u64>,
    community_guild_id: u64,
    dual_mode: bool,
    ticket_channel: Option<Seq<char>>,
    attachment_sizes: Seq<u32>,
)
    ensures
        author_is_bot ==> direct_message_route_spec(author_is_bot, guild_id, community_guild_id, dual_mode, ticket_channel, attachment_sizes) == Ok::<DirectMessageRoute, RouteError>(DirectMessageRoute::Ignore),
        !author_is_bot && (guild_id matches Some(g) && g != community_guild_id) ==> direct_message_route_spec(author_is_bot, guild_id, community_guild_id, dual_mode, ticket_channel, attachment_sizes)
            == Ok::<DirectMessageRoute, RouteError>(DirectMessageRoute::WrongGuild { dual_mode }),
        !author_is_bot && (guild_id is None || guild_id == Some(community_guild_id))
            && ticket_channel is None ==> direct_message_route_spec(author_is_bot, guild_id, community_guild_id, dual_mode, ticket_channel, attachment_sizes) == Ok::<DirectMessageRoute, RouteError>(
            DirectMessageRoute::OpenTicket,
        ),
        !author_is_bot && (guild_id is None || guild_id == Some(community_guild_id))
            && (ticket_channel matches Some(t) && parse_u64_spec(t, 10) is None) ==> direct_message_route_spec(author_is_bot, guild_id, community_guild_id, dual_mode, ticket_channel, attachment_sizes)
            == Err::<DirectMessageRoute, RouteError>(RouteError::InvalidChannelId),
{
}

/// The names staff type after the prefix and the commands they call: each
/// command under its full name and its short forms, `move_thread` and `new`
/// included, as the usage messages spell them.
pub proof fn lemma_text_command_names()
    ensures
        text_command_spec("reply"@) == Some(TextCommand::Reply),
        text_command_spec("r"@) == Some(TextCommand::Reply),
        text_command_spec("edit"@) == Some(TextCommand::Edit),
        text_command_spec("e"@) == Some(TextCommand::Edit),
        text_command_spec("close"@) == Some(TextCommand::Close),
        text_command_spec("c"@) == Some(TextCommand::Close),
        text_command_spec("recover"@) == Some(TextCommand::Recover),
        text_command_spec("alert"@) == Some(TextCommand::Alert),
        text_command_spec("move"@) == Some(TextCommand::MoveThread),
        text_command_spec("mv"@) == Some(TextCommand::MoveThread),
        text_command_spec("move_thread"@) == Some(TextCommand::MoveThread),
        text_command_spec("nt"@) == Some(TextCommand::NewThread),
        text_command_spec("new_thread"@) == Some(TextCommand::NewThread),
        text_command_spec("new"@) == Some(TextCommand::NewThread),
        text_command_spec("delete"@) == Some(TextCommand::Delete),
        text_command_spec("anonreply"@) == Some(TextCommand::AnonReply),
        text_command_spec("ar"@) == Some(TextCommand::AnonReply),
        text_command_spec("force_close"@) == Some(TextCommand::ForceClose),
        text_command_spec("fc"@) == Some(TextCommand::ForceClose),
        text_command_spec("addmod"@) == Some(TextCommand::AddStaff),
        text_command_spec("am"@) == Some(TextCommand::AddStaff),
        text_command_spec("delmod"@) == Some(TextCommand::RemoveStaff),
        text_command_spec("dm"@) == Some(TextCommand::RemoveStaff),
        text_command_spec("id"@) == Some(TextCommand::Id),
        text_command_spec("help"@) == Some(TextCommand::Help),
        text_command_spec("remind"@) == Some(TextCommand::AddReminder),
        text_command_spec("rem"@) == Some(TextCommand::AddReminder),
        text_command_spec("unremind"@) == Some(TextCommand::RemoveReminder),
        text_command_spec("urem"@) == Some(TextCommand::RemoveReminder),
        text_command_spec("logs"@) == Some(TextCommand::Logs),
        text_command_spec("take"@) == Some(TextCommand::Take),
        text_command_spec("release"@) == Some(TextCommand::Release),
        text_command_spec("ping"@) == Some(TextCommand::Ping),
        text_command_spec("snippet"@) == Some(TextCommand::Snippet),
        text_command_spec("s"@) == Some(TextCommand::Snippet),
{
    reveal_strlit("reply");
    reveal_strlit("r");
    reveal_strlit("edit");
    reveal_strlit("e");
    reveal_strlit("close");
    reveal_strlit("c");
    reveal_strlit("recover");
    reveal_strlit("alert");
    reveal_strlit("move");
    reveal_strlit("mv");
    reveal_strlit("move_thread");
    reveal_strlit("nt");
    reveal_strlit("new_thread");
    reveal_strlit("new");
    reveal_strlit("delete");
    reveal_strlit("anonreply");
    reveal_strlit("ar");
    reveal_strlit("force_close");
    reveal_strlit("fc");
    reveal_strlit("addmod");
    reveal_strlit("am");
    reveal_strlit("delmod");
    reveal_strlit("dm");
    reveal_strlit("id");
    reveal_strlit("help");
    reveal_strlit("remind");
    reveal_strlit("rem");
    reveal_strlit("unremind");
    reveal_strlit("urem");
    reveal_strlit("logs");
    reveal_strlit("take");
    reveal_strlit("release");
    reveal_strlit("ping");
    reveal_strlit("snippet");
    reveal_strlit("s");
    assert("reply"@.len() == 5 && "reply"@[0] == 'r' && "reply"@[1] == 'e' && "reply"@[2] == 'p' && "reply"@[3] == 'l' && "reply"@[4] == 'y');
    assert("r"@.len() == 1 && "r"@[0] == 'r');
    assert("edit"@.len() == 4 && "edit"@[0] == 'e' && "edit"@[1] == 'd' && "edit"@[2] == 'i' && "edit"@[3] == 't');
    assert("e"@.len() == 1 && "e"@[0] == 'e');
    assert("close"@.len() == 5 && "close"@[0] == 'c' && "close"@[1] == 'l' && "close"@[2] == 'o' && "close"@[3] == 's' && "close"@[4] == 'e');
    assert("c"@.len() == 1 && "c"@[0] == 'c');
    assert("recover"@.len() == 7 && "recover"@[0] == 'r' && "recover"@[1] == 'e' && "recover"@[2] == 'c' && "recover"@[3] == 'o' && "recover"@[4] == 'v' && "recover"@[5] == 'e' && "recover"@[6] == 'r');
    assert("alert"@.len() == 5 && "alert"@[0] == 'a' && "alert"@[1] == 'l' && "alert"@[2] == 'e' && "alert"@[3] == 'r' && "alert"@[4] == 't');
    assert("move"@.len() == 4 && "move"@[0] == 'm' && "move"@[1] == 'o' && "move"@[2] == 'v' && "move"@[3] == 'e');
    assert("mv"@.len() == 2 && "mv"@[0] == 'm' && "mv"@[1] == 'v');
    assert("move_thread"@.len() == 11 && "move_thread"@[0] == 'm' && "move_thread"@[1] == 'o' && "move_thread"@[2] == 'v' && "move_thread"@[3] == 'e' && "move_thread"@[4] == '_' && "move_thread"@[5] == 't' && "move_thread"@[6] == 'h' && "move_thread"@[7] == 'r' && "move_thread"@[8] == 'e' && "move_thread"@[9] == 'a' && "move_thread"@[10] == 'd');
    assert("nt"@.len() == 2 && "nt"@[0] == 'n' && "nt"@[1] == 't');
    assert("new_thread"@.len() == 10 && "new_thread"@[0] == 'n' && "new_thread"@[1] == 'e' && "new_thread"@[2] == 'w' && "new_thread"@[3] == '_' && "new_thread"@[4] == 't' && "new_thread"@[5] == 'h' && "new_thread"@[6] == 'r' && "new_thread"@[7] == 'e' && "new_thread"@[8] == 'a' && "new_thread"@[9] == 'd');
    assert("new"@.len() == 3 && "new"@[0] == 'n' && "new"@[1] == 'e' && "new"@[2] == 'w');
    assert("delete"@.len() == 6 && "delete"@[0] == 'd' && "delete"@[1] == 'e' && "delete"@[2] == 'l' && "delete"@[3] == 'e' && "delete"@[4] == 't' && "delete"@[5] == 'e');
    assert("anonreply"@.len() == 9 && "anonreply"@[0] == 'a' && "anonreply"@[1] == 'n' && "anonreply"@[2] == 'o' && "anonreply"@[3] == 'n' && "anonreply"@[4] == 'r' && "anonreply"@[5] == 'e' && "anonreply"@[6] == 'p' && "anonreply"@[7] == 'l' && "anonreply"@[8] == 'y');
    assert("ar"@.len() == 2 && "ar"@[0] == 'a' && "ar"@[1] == 'r');
    assert("force_close"@.len() == 11 && "force_close"@[0] == 'f' && "force_close"@[1] == 'o' && "force_close"@[2] == 'r' && "force_close"@[3] == 'c' && "force_close"@[4] == 'e' && "force_close"@[5] == '_' && "force_close"@[6] == 'c' && "force_close"@[7] == 'l' && "force_close"@[8] == 'o' && "force_close"@[9] == 's' && "force_close"@[10] == 'e');
    assert("fc"@.len() == 2 && "fc"@[0] == 'f' && "fc"@[1] == 'c');
    assert("addmod"@.len() == 6 && "addmod"@[0] == 'a' && "addmod"@[1] == 'd' && "addmod"@[2] == 'd' && "addmod"@[3] == 'm' && "addmod"@[4] == 'o' && "addmod"@[5] == 'd');
    assert("am"@.len() == 2 && "am"@[0] == 'a' && "am"@[1] == 'm');
    assert("delmod"@.len() == 6 && "delmod"@[0] == 'd' && "delmod"@[1] == 'e' && "delmod"@[2] == 'l' && "delmod"@[3] == 'm' && "delmod"@[4] == 'o' && "delmod"@[5] == 'd');
    assert("dm"@.len() == 2 && "dm"@[0] == 'd' && "dm"@[1] == 'm');
    assert("id"@.len() == 2 && "id"@[0] == 'i' && "id"@[1] == 'd');
    assert("help"@.len() == 4 && "help"@[0] == 'h' && "help"@[1] == 'e' && "help"@[2] == 'l' && "help"@[3] == 'p');
    assert("remind"@.len() == 6 && "remind"@[0] == 'r' && "remind"@[1] == 'e' && "remind"@[2] == 'm' && "remind"@[3] == 'i' && "remind"@[4] == 'n' && "remind"@[5] == 'd');
    assert("rem"@.len() == 3 && "rem"@[0] == 'r' && "rem"@[1] == 'e' && "rem"@[2] == 'm');
    assert("unremind"@.len() == 8 && "unremind"@[0] == 'u' && "unremind"@[1] == 'n' && "unremind"@[2] == 'r' && "unremind"@[3] == 'e' && "unremind"@[4] == 'm' && "unremind"@[5] == 'i' && "unremind"@[6] == 'n' && "unremind"@[7] == 'd');
    assert("urem"@.len() == 4 && "urem"@[0] == 'u' && "urem"@[1] == 'r' && "urem"@[2] == 'e' && "urem"@[3] == 'm');
    assert("logs"@.len() == 4 && "logs"@[0] == 'l' && "logs"@[1] == 'o' && "logs"@[2] == 'g' && "logs"@[3] == 's');
    assert("take"@.len() == 4 && "take"@[0] == 't' && "take"@[1] == 'a' && "take"@[2] == 'k' && "take"@[3] == 'e');
    assert("release"@.len() == 7 && "release"@[0] == 'r' && "release"@[1] == 'e' && "release"@[2] == 'l' && "release"@[3] == 'e' && "release"@[4] == 'a' && "release"@[5] == 's' && "release"@[6] == 'e');
    assert("ping"@.len() == 4 && "ping"@[0] == 'p' && "ping"@[1] == 'i' && "ping"@[2] == 'n' && "ping"@[3] == 'g');
    assert("snippet"@.len() == 7 && "snippet"@[0] == 's' && "snippet"@[1] == 'n' && "snippet"@[2] == 'i' && "snippet"@[3] == 'p' && "snippet"@[4] == 'p' && "snippet"@[5] == 'e' && "snippet"@[6] == 't');
    assert("s"@.len() == 1 && "s"@[0] == 's');
}

} // verus!
