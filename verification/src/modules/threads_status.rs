use crate::text::{decimal, decimal_int, i64_to_string, parse_u64, parse_u64_spec, push_decimal};
use crate::types::ticket::{TicketAuthor, TicketState};
use vstd::prelude::*;

verus! {

/// The coloured dot of a ticket: blue when staff spoke last, red when the user did.
pub open spec fn status_dot(by: TicketAuthor) -> Seq<char> {
    match by {
        TicketAuthor::Staff => "🔵"@,
        TicketAuthor::User => "🔴"@,
    }
}

/// Integer division rounded toward zero, as Rust's `/` rounds.
pub open spec fn div_toward_zero(a: int, b: int) -> int {
    if a >= 0 {
        a / b
    } else {
        -((-a) / b)
    }
}

/// The age of the last message: whole minutes (`42m`) below an hour, whole hours (`3h`) after.
pub open spec fn elapsed_text(elapsed: int) -> Seq<char> {
    let minutes = div_toward_zero(elapsed, 60);
    if minutes < 60 {
        decimal_int(minutes) + "m"@
    } else {
        decimal_int(div_toward_zero(minutes, 60)) + "h"@
    }
}

/// How a user is named: by the cached name, else `<fallback>-<id>`.
pub open spec fn user_label(id: u64, cached: Option<Seq<char>>, fallback: Seq<char>) -> Seq<char> {
    match cached {
        Some(name) => name,
        None => fallback + "-"@ + decimal(id as nat),
    }
}

/// The name of a ticket's channel: dot, owner, the staff member who took it
/// (when one did), and the age of the last message, joined by `・`.  An owner
/// id of zero shows `Unknown`; a staff id of zero shows no staff part.
pub open spec fn status_name_spec(
    by: TicketAuthor,
    owner_id: u64,
    owner_cached: Option<Seq<char>>,
    staff_id: u64,
    staff_cached: Option<Seq<char>>,
    elapsed: int,
) -> Seq<char> {
    status_dot(by) + "・"@ + (if owner_id != 0 {
        user_label(owner_id, owner_cached, "User"@)
    } else {
        "Unknown"@
    }) + (if staff_id != 0 {
        "・"@ + user_label(staff_id, staff_cached, "Staff"@)
    } else {
        Seq::empty()
    }) + "・"@ + elapsed_text(elapsed)
}

/// The owner of a ticket, by id (zero when the stored id does not read as one).
pub open spec fn owner_id_spec(t: TicketState) -> u64 {
    match parse_u64_spec(t.owner_id@, 10) {
        Some(v) => v,
        None => 0,
    }
}

/// The staff member who took a ticket, by id (zero when none did or the stored
/// id does not read as one).
pub open spec fn staff_id_spec(t: TicketState) -> u64 {
    match t.taken_by {
        Some(s) => match parse_u64_spec(s@, 10) {
            Some(v) => v,
            None => 0,
        },
        None => 0,
    }
}

/// The owner id of a ticket (`owner_id.parse().unwrap_or(0)`).
pub fn ticket_owner_id(t: &TicketState) -> (r: u64)
    ensures
        r == owner_id_spec(*t),
{
    match parse_u64(t.owner_id.as_str()) {
        Some(v) => v,
        None => 0,
    }
}

/// The id of the staff member who took a ticket, or zero.
pub fn ticket_staff_id(t: &TicketState) -> (r: u64)
    ensures
        r == staff_id_spec(*t),
{
    match &t.taken_by {
        Some(s) => match parse_u64(s.as_str()) {
            Some(v) => v,
            None => 0,
        },
        None => 0,
    }
}

fn minutes_of(elapsed: i64) -> (r: i64)
    ensures
        r == div_toward_zero(elapsed as int, 60),
{
    if elapsed >= 0 {
        elapsed / 60
    } else {
        let magnitude: u64 = ((-(elapsed + 1)) as u64) + 1;
        let q = magnitude / 60;
        -(q as i64)
    }
}

fn push_user_label(out: &mut String, id: u64, cached: Option<String>, fallback: &str)
    ensures
        final(out)@ == old(out)@ + user_label(
            id,
            crate::text::opt_view(cached),
            fallback@,
        ),
{
    match cached {
        Some(name) => {
            out.append(name.as_str());
        },
        None => {
            out.append(fallback);
            out.append("-");
            push_decimal(out, id);
            assert(final(out)@ =~= old(out)@ + (fallback@ + "-"@ + decimal(id as nat)));
        },
    }
}

/// The name given to a ticket's channel; `elapsed` is the number of seconds
/// since the last message, and the cached names are those the bot's cache
/// holds for the owner and the staff member.
pub fn thread_status_name(
    by: TicketAuthor,
    owner_id: u64,
    owner_cached: Option<String>,
    staff_id: u64,
    staff_cached: Option<String>,
    elapsed: i64,
) -> (r: String)
    ensures
        r@ == status_name_spec(
            by,
            owner_id,
            crate::text::opt_view(owner_cached),
            staff_id,
            crate::text::opt_view(staff_cached),
            elapsed as int,
        ),
{
    let mut name = String::new();
    match by {
        TicketAuthor::Staff => name.append("🔵"),
        TicketAuthor::User => name.append("🔴"),
    }
    name.append("・");
    let ghost owner_start = name@;
    if owner_id != 0 {
        push_user_label(&mut name, owner_id, owner_cached, "User");
    } else {
        name.append("Unknown");
    }
    let ghost staff_start = name@;
    if staff_id != 0 {
        name.append("・");
        push_user_label(&mut name, staff_id, staff_cached, "Staff");
    }
    let ghost staff_end = name@;
    name.append("・");
    let minutes = minutes_of(elapsed);
    if minutes < 60 {
        let m = i64_to_string(minutes);
        name.append(m.as_str());
        name.append("m");
    } else {
        let h = i64_to_string(minutes / 60);
        name.append(h.as_str());
        name.append("h");
    }
    assert(name@ =~= status_name_spec(
        by,
        owner_id,
        crate::text::opt_view(owner_cached),
        staff_id,
        crate::text::opt_view(staff_cached),
        elapsed as int,
    ));
    name
}

/// The seconds elapsed since the last message of a ticket.
pub fn seconds_since_last_message(t: &TicketState, now: i64) -> (r: i64)
    requires
        i64::MIN <= now - t.last_message_at <= i64::MAX,
    ensures
        r == now - t.last_message_at,
{
    now - t.last_message_at
}

/// The first character of a ticket channel's name tells who wrote last: a blue
/// dot for staff, a red dot for the user.
pub proof fn lemma_status_name_shows_last_author(
    by: TicketAuthor,
    owner_id: u64,
    owner_cached: Option<Seq<char>>,
    staff_id: u64,
    staff_cached: Option<Seq<char>>,
    elapsed: int,
)
    ensures
        status_name_spec(by, owner_id, owner_cached, staff_id, staff_cached, elapsed).len() > 0,
        status_name_spec(by, owner_id, owner_cached, staff_id, staff_cached, elapsed)[0] == (
        match by {
            TicketAuthor::Staff => '🔵',
            TicketAuthor::User => '🔴',
        }),
{
    reveal_strlit("🔵");
    reveal_strlit("🔴");
}

/// What a ticket channel's name holds before its age: the dot of the last
/// author, the owner, and the staff member when there is one.
pub open spec fn status_name_head(
    by: TicketAuthor,
    owner_id: u64,
    owner_cached: Option<Seq<char>>,
    staff_id: u64,
    staff_cached: Option<Seq<char>>,
) -> Seq<char> {
    status_dot(by) + "・"@ + (if owner_id != 0 {
        user_label(owner_id, owner_cached, "User"@)
    } else {
        "Unknown"@
    }) + (if staff_id != 0 {
        "・"@ + user_label(staff_id, staff_cached, "Staff"@)
    } else {
        Seq::empty()
    })
}

/// The age at the end of a ticket channel's name: from an hour on, the number of
/// whole hours since the last message, however many, then `h`; below an hour,
/// the whole minutes, then `m`. So the hours shown never go down as time passes.
pub proof fn lemma_status_name_age(
    by: TicketAuthor,
    owner_id: u64,
    owner_cached: Option<Seq<char>>,
    staff_id: u64,
    staff_cached: Option<Seq<char>>,
    elapsed: int,
)
    requires
        elapsed >= 0,
    ensures
        elapsed >= 3600 ==> status_name_spec(by, owner_id, owner_cached, staff_id, staff_cached, elapsed)
            == status_name_head(by, owner_id, owner_cached, staff_id, staff_cached) + "・"@
            + decimal_int(elapsed / 3600) + "h"@,
        elapsed < 3600 ==> status_name_spec(by, owner_id, owner_cached, staff_id, staff_cached, elapsed)
            == status_name_head(by, owner_id, owner_cached, staff_id, staff_cached) + "・"@
            + decimal_int(elapsed / 60) + "m"@,
{
    vstd::arithmetic::div_mod::lemma_div_denominator(elapsed, 60, 60);
    assert(elapsed / 60 / 60 == elapsed / 3600);
    assert(elapsed >= 3600 <==> elapsed / 60 >= 60);
}

/// A person in a ticket channel's name is shown by the name known for them, or,
/// when none is known, by the fallback word, a dash and their id.
pub proof fn lemma_user_labels(id: u64, known: Seq<char>, fallback: Seq<char>)
    ensures
        user_label(id, Some(known), fallback) == known,
        user_label(id, None, fallback) == fallback + "-"@ + decimal(id as nat),
{
}

} // verus!
