use crate::text::{
    chars_of, decimal, find, find_char, parse_u64, parse_u64_spec, push_decimal, str_eq, trim,
    trimmed, u64_to_string,
};
use vstd::prelude::*;

verus! {

/// The action of a `ticket:<action>[:...]` or `thread:<action>[:...]` component id:
/// the field after the first `:`, when the first field is `ticket` or `thread`.
pub open spec fn thread_interaction_spec(custom_id: Seq<char>) -> Option<Seq<char>> {
    let f = find_char(custom_id, ':');
    if f < custom_id.len() {
        let head = custom_id.subrange(0, f as int);
        let rest = custom_id.subrange(f as int + 1, custom_id.len() as int);
        if head == "ticket"@ || head == "thread"@ {
            Some(rest.subrange(0, find_char(rest, ':') as int))
        } else {
            None
        }
    } else {
        None
    }
}

/// The action named by a thread component or modal id.
pub fn parse_thread_interaction(custom_id: &str) -> (r: Option<String>)
    ensures
        match r {
            Some(action) => thread_interaction_spec(custom_id@) == Some(action@),
            None => thread_interaction_spec(custom_id@) is None,
        },
{
    let v = chars_of(custom_id);
    let n = v.len();
    let f = find(&v, ':');
    proof {
        crate::text::lemma_find_char(custom_id@, ':');
    }
    if f >= n {
        return None;
    }
    let head = custom_id.substring_char(0, f);
    if !(str_eq(head, "ticket") || str_eq(head, "thread")) {
        return None;
    }
    let rest = custom_id.substring_char(f + 1, n);
    let rv = chars_of(rest);
    let g = find(&rv, ':');
    proof {
        crate::text::lemma_find_char(rest@, ':');
    }
    Some(rest.substring_char(0, g).to_owned())
}

/// A component id the bot builds from `ticket:` or `thread:` and an action
/// without `:` (possibly followed by `:` and more) reads back as that action.
pub proof fn lemma_thread_id_round_trip(tag: Seq<char>, action: Seq<char>, more: Option<Seq<char>>)
    requires
        tag == "ticket"@ || tag == "thread"@,
        forall|k: int| 0 <= k < action.len() ==> action[k] != ':',
    ensures
        thread_interaction_spec(
            tag + seq![':'] + action + match more {
                Some(m) => seq![':'] + m,
                None => Seq::empty(),
            },
        ) == Some(action),
{
    reveal_strlit("ticket");
    reveal_strlit("thread");
    let tail = match more {
        Some(m) => seq![':'] + m,
        None => Seq::<char>::empty(),
    };
    let id = tag + seq![':'] + action + tail;
    assert(tag.len() == 6);
    assert forall|k: int| 0 <= k < 6 implies id[k] != ':' by {
        assert(id[k] == tag[k]);
    }
    crate::text::lemma_find_char_at(id, ':', 6);
    assert(id.subrange(0, 6) =~= tag);
    let rest = id.subrange(7, id.len() as int);
    assert(rest =~= action + tail);
    assert forall|k: int| 0 <= k < action.len() implies rest[k] != ':' by {
        assert(rest[k] == action[k]);
    }
    crate::text::lemma_find_char_at(rest, ':', action.len() as int);
    assert(rest.subrange(0, action.len() as int) =~= action);
}

/// What a click on a thread button asks for.
#[derive(Clone, Copy, PartialEq, Eq, Structural, Debug)]
pub enum ThreadButton {
    /// Close the ticket: the channel is deleted after the configured delay.
    Delete,
    /// Keep the ticket open and remove the buttons.
    Keep,
    /// Dismiss the offer to open a ticket.
    DontCreate,
    /// Open the form that creates a ticket for a user.
    WantsToCreate,
    /// An action the bot does not know.
    Unknown,
}

/// The button action of an action name.
pub open spec fn thread_button_spec(action: Seq<char>) -> ThreadButton {
    if action == "delete"@ {
        ThreadButton::Delete
    } else if action == "keep"@ {
        ThreadButton::Keep
    } else if action == "dont_create"@ {
        ThreadButton::DontCreate
    } else if action == "wants_to_create"@ {
        ThreadButton::WantsToCreate
    } else {
        ThreadButton::Unknown
    }
}

/// The button action of a thread component id, or `None` when the id is not a
/// thread id (the bot then answers that the feature is not implemented).
pub fn thread_button(custom_id: &str) -> (r: Option<ThreadButton>)
    ensures
        match thread_interaction_spec(custom_id@) {
            Some(action) => r == Some(thread_button_spec(action)),
            None => r is None,
        },
{
    let action = match parse_thread_interaction(custom_id) {
        Some(a) => a,
        None => return None,
    };
    let a = action.as_str();
    if str_eq(a, "delete") {
        Some(ThreadButton::Delete)
    } else if str_eq(a, "keep") {
        Some(ThreadButton::Keep)
    } else if str_eq(a, "dont_create") {
        Some(ThreadButton::DontCreate)
    } else if str_eq(a, "wants_to_create") {
        Some(ThreadButton::WantsToCreate)
    } else {
        Some(ThreadButton::Unknown)
    }
}

/// The translation key of the answer to a thread button.
pub fn thread_button_reply_key(b: ThreadButton) -> (r: Option<&'static str>)
    ensures
        r == match b {
            ThreadButton::Delete => Some("thread.thread_closing"),
            ThreadButton::Keep => Some("thread.will_remain_open"),
            ThreadButton::Unknown => Some("thread.unknown_action"),
            _ => None::<&'static str>,
        },
{
    match b {
        ThreadButton::Delete => Some("thread.thread_closing"),
        ThreadButton::Keep => Some("thread.will_remain_open"),
        ThreadButton::Unknown => Some("thread.unknown_action"),
        ThreadButton::DontCreate => None,
        ThreadButton::WantsToCreate => None,
    }
}

/// The user id typed in the ticket-creation form: the trimmed text read as a
/// non-zero decimal id (what `UserId::from_str` accepts).
pub open spec fn form_user_id_spec(text: Seq<char>) -> Option<u64> {
    match parse_u64_spec(trimmed(text), 10) {
        Some(id) => if id != 0 {
            Some(id)
        } else {
            None
        },
        None => None,
    }
}

/// Reads the user id typed in the ticket-creation form.
pub fn form_user_id(text: &str) -> (r: Option<u64>)
    ensures
        r == form_user_id_spec(text@),
{
    match parse_u64(trim(text)) {
        Some(id) => if id != 0 {
            Some(id)
        } else {
            None
        },
        None => None,
    }
}

/// Why the ticket-creation form is refused.
#[derive(Clone, Copy, PartialEq, Eq, Structural, Debug)]
pub enum CreationRefusal {
    /// The user is a bot.
    BotUser,
    /// The user already has an open ticket.
    AlreadyExists,
    /// The form was not sent from a channel of the inbox category.
    NotAThreadChannel,
}

impl CreationRefusal {
    /// The translation key of the answer.
    pub fn key(&self) -> (r: &'static str)
        ensures
            r == match *self {
                CreationRefusal::BotUser => "thread.modal_bot_user",
                CreationRefusal::AlreadyExists => "thread.already_exists",
                CreationRefusal::NotAThreadChannel => "thread.not_a_thread_channel",
            },
    {
        match self {
            CreationRefusal::BotUser => "thread.modal_bot_user",
            CreationRefusal::AlreadyExists => "thread.already_exists",
            CreationRefusal::NotAThreadChannel => "thread.not_a_thread_channel",
        }
    }
}

/// The checks of the ticket-creation form, in order: the user must not be a
/// bot, must have no open ticket, and the form must come from a guild channel
/// whose parent is the inbox category.  `channel_parent` is `None` when the
/// channel is not a guild channel, `Some(None)` when it has no parent.
pub open spec fn creation_check_spec(
    user_is_bot: bool,
    has_open_ticket: bool,
    channel_parent: Option<Option<u64>>,
    inbox_category_id: u64,
) -> Result<(), CreationRefusal> {
    if user_is_bot {
        Err(CreationRefusal::BotUser)
    } else if has_open_ticket {
        Err(CreationRefusal::AlreadyExists)
    } else {
        match channel_parent {
            Some(Some(parent)) => if parent == inbox_category_id {
                Ok(())
            } else {
                Err(CreationRefusal::NotAThreadChannel)
            },
            _ => Err(CreationRefusal::NotAThreadChannel),
        }
    }
}

/// Checks the ticket-creation form.
pub fn check_ticket_creation(
    user_is_bot: bool,
    has_open_ticket: bool,
    channel_parent: Option<Option<u64>>,
    inbox_category_id: u64,
) -> (r: Result<(), CreationRefusal>)
    ensures
        r == creation_check_spec(user_is_bot, has_open_ticket, channel_parent, inbox_category_id),
{
    if user_is_bot {
        Err(CreationRefusal::BotUser)
    } else if has_open_ticket {
        Err(CreationRefusal::AlreadyExists)
    } else {
        match channel_parent {
            Some(Some(parent)) => if parent == inbox_category_id {
                Ok(())
            } else {
                Err(CreationRefusal::NotAThreadChannel)
            },
            _ => Err(CreationRefusal::NotAThreadChannel),
        }
    }
}

/// The ticket a user's message lands in: an existing channel when the
/// database already holds one for the user, or the channel just created
/// otherwise.  The second value tells whether the ticket is new (and the
/// duplicate channel, if any, must be deleted when it is not).
pub open spec fn canonical_channel_spec(canonical: Option<Seq<char>>, created: u64) -> (u64, bool) {
    match canonical {
        Some(c) => if c == crate::text::decimal(created as nat) {
            (created, true)
        } else {
            match parse_u64_spec(c, 10) {
                Some(v) => (v, false),
                None => (created, false),
            }
        },
        None => (created, true),
    }
}

/// Chooses the ticket channel after a creation race.
pub fn canonical_channel(canonical: Option<&str>, created: u64) -> (r: (u64, bool))
    ensures
        r == canonical_channel_spec(
            match canonical {
                Some(c) => Some(c@),
                None => None,
            },
            created,
        ),
{
    match canonical {
        Some(c) => {
            let created_text = crate::text::u64_to_string(created);
            if str_eq(c, created_text.as_str()) {
                (created, true)
            } else {
                match parse_u64(c) {
                    Some(v) => (v, false),
                    None => (created, false),
                }
            }
        },
        None => (created, true),
    }
}


/// The first message of a new ticket, telling staff who the user is.
pub open spec fn opening_message_spec(
    account_age: Seq<char>,
    user_id: u64,
    username: Seq<char>,
    joined: Seq<char>,
) -> Seq<char> {
    "ACCOUNT AGE **"@ + account_age + "**, ID **"@ + crate::text::decimal(user_id as nat)
        + "**\nNICKNAME **"@ + username + "**, JOINED **"@ + joined + "**"@
}

/// The first message of a new ticket; `account_age` and `joined` are already
/// rendered.
pub fn opening_message(account_age: &str, user_id: u64, username: &str, joined: &str) -> (r: String)
    ensures
        r@ == opening_message_spec(account_age@, user_id, username@, joined@),
{
    let mut r = "ACCOUNT AGE **".to_owned();
    r.append(account_age);
    r.append("**, ID **");
    crate::text::push_decimal(&mut r, user_id);
    r.append("**\nNICKNAME **");
    r.append(username);
    r.append("**, JOINED **");
    r.append(joined);
    r.append("**");
    r
}

/// The form that asks staff which user to open a ticket for: a modal
/// `thread:create` titled by the translation `thread.modal_to_create_ticket`,
/// with one required short input `thread:create:user_id`.
#[derive(Clone, Copy, Debug)]
pub struct TicketForm {
    pub custom_id: &'static str,
    pub title_key: &'static str,
    pub input_custom_id: &'static str,
    pub input_label: &'static str,
    pub input_placeholder: &'static str,
    pub input_required: bool,
}

/// The ticket-creation form offered by the `wants_to_create` button.
pub fn ticket_creation_form() -> (r: TicketForm)
    ensures
        r.custom_id@ == "thread:create"@,
        r.title_key@ == "thread.modal_to_create_ticket"@,
        r.input_custom_id@ == "thread:create:user_id"@,
        r.input_label@ == "User ID"@,
        r.input_placeholder@ == "1234567890123456789"@,
        r.input_required,
{
    TicketForm {
        custom_id: "thread:create",
        title_key: "thread.modal_to_create_ticket",
        input_custom_id: "thread:create:user_id",
        input_label: "User ID",
        input_placeholder: "1234567890123456789",
        input_required: true,
    }
}

/// The parameters of the `thread.thread_closing` answer: the delay before the
/// channel is deleted, in seconds, and a mention of who asked.
pub fn thread_closing_params(seconds: u64, user_id: u64) -> (r: (String, String))
    ensures
        r.0@ == decimal(seconds as nat),
        r.1@ == "<@"@ + decimal(user_id as nat) + ">"@,
{
    let s = u64_to_string(seconds);
    let mut u = "<@".to_owned();
    push_decimal(&mut u, user_id);
    u.append(">");
    (s, u)
}

/// The parameter of the `thread.already_exists` answer: a mention of the
/// channel of the user's open ticket.
pub fn already_exists_param(channel_id: &str) -> (r: String)
    ensures
        r@ == "<#"@ + channel_id@ + ">"@,
{
    let mut r = "<#".to_owned();
    r.append(channel_id);
    r.append(">");
    r
}

/// A ticket is opened from the staff form only for a user who is not a bot and
/// has no open ticket, from a channel under the inbox category; a bot is refused
/// first, then a user who already has a ticket, then any other channel.
pub proof fn lemma_ticket_creation_checks(
    user_is_bot: bool,
    has_open_ticket: bool,
    channel_parent: Option<Option<u64>>,
    inbox_category_id: u64,
)
    ensures
        creation_check_spec(user_is_bot, has_open_ticket, channel_parent, inbox_category_id) is Ok
            <==> (!user_is_bot && !has_open_ticket && channel_parent == Some(
            Some(inbox_category_id),
        )),
        user_is_bot ==> creation_check_spec(user_is_bot, has_open_ticket, channel_parent, inbox_category_id)
            == Err::<(), CreationRefusal>(CreationRefusal::BotUser),
        !user_is_bot && has_open_ticket ==> creation_check_spec(
            user_is_bot,
            has_open_ticket,
            channel_parent,
            inbox_category_id,
        ) == Err::<(), CreationRefusal>(CreationRefusal::AlreadyExists),
{
}

/// The user id typed in the staff form is read after trimming the white space
/// around it, and only a non-zero number is taken.
pub proof fn lemma_form_user_ids(text: Seq<char>)
    ensures
        form_user_id_spec(text) is Some <==> (parse_u64_spec(trimmed(text), 10) matches Some(v) && v
            != 0),
        form_user_id_spec(text) matches Some(v) ==> parse_u64_spec(trimmed(text), 10) == Some(v),
{
}

/// After a ticket channel is created, the ticket stays in the channel the
/// database names for the user: the new channel is kept, as new, when the
/// database names none or names the new channel itself; otherwise the named
/// channel (when its id reads as a number) is used, and the ticket is not new.
pub proof fn lemma_canonical_channel(canonical: Option<Seq<char>>, created: u64)
    ensures
        canonical is None ==> canonical_channel_spec(canonical, created) == (created, true),
        canonical == Some(decimal(created as nat)) ==> canonical_channel_spec(canonical, created)
            == (created, true),
        (canonical matches Some(c) && c != decimal(created as nat)) ==> !canonical_channel_spec(
            canonical,
            created,
        ).1,
        (canonical matches Some(c) && c != decimal(created as nat) && parse_u64_spec(c, 10) is Some)
            ==> canonical_channel_spec(canonical, created).0 == parse_u64_spec(canonical->0, 10)->0,
{
}

} // verus!
