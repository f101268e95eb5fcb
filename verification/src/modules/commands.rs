use crate::text::{strip_prefix, strip_prefix_spec};
use vstd::prelude::*;

verus! {

/// The highest page the logs pagination moves to, and the page size of the listing.
pub const LOGS_PAGE_SIZE: usize = 10;

/// A component id without its `command:` prefix, when it has one.
pub fn parse_command_interaction(custom_id: &str) -> (r: Option<String>)
    ensures
        match r {
            Some(rest) => strip_prefix_spec(custom_id@, "command:"@) == Some(rest@),
            None => strip_prefix_spec(custom_id@, "command:"@) is None,
        },
{
    match strip_prefix(custom_id, "command:") {
        Some(rest) => Some(rest.to_owned()),
        None => None,
    }
}

/// A component id built from `command:` and a rest reads back as that rest.
pub proof fn lemma_command_id_round_trip(rest: Seq<char>)
    ensures
        strip_prefix_spec("command:"@ + rest, "command:"@) == Some(rest),
{
    let id = "command:"@ + rest;
    assert("command:"@.is_prefix_of(id));
    assert(id.subrange("command:"@.len() as int, id.len() as int) =~= rest);
}

/// The page move asked by a component id: the pagination session and `1` for
/// the next page or `0` for the previous one.
pub open spec fn logs_request_spec(custom_id: Seq<char>) -> Option<(Seq<char>, usize)> {
    match strip_prefix_spec(custom_id, "command:"@) {
        Some(parts) => match strip_prefix_spec(parts, "logs_next:"@) {
            Some(session) => Some((session, 1)),
            None => match strip_prefix_spec(parts, "logs_prev:"@) {
                Some(session) => Some((session, 0)),
                None => None,
            },
        },
        None => None,
    }
}

/// Reads a logs pagination button id (`command:logs_next:<session>` or
/// `command:logs_prev:<session>`).
pub fn parse_logs_request(custom_id: &str) -> (r: Option<(String, usize)>)
    ensures
        match r {
            Some((session, page)) => logs_request_spec(custom_id@) == Some((session@, page)),
            None => logs_request_spec(custom_id@) is None,
        },
{
    let parts = match parse_command_interaction(custom_id) {
        Some(p) => p,
        None => return None,
    };
    match strip_prefix(parts.as_str(), "logs_next:") {
        Some(session) => Some((session.to_owned(), 1)),
        None => match strip_prefix(parts.as_str(), "logs_prev:") {
            Some(session) => Some((session.to_owned(), 0)),
            None => None,
        },
    }
}

/// The page shown after a move: `page == 0` goes back when not on the first
/// page, `page == 1` goes forward while below `LOGS_PAGE_SIZE`; otherwise
/// nothing changes.
pub open spec fn next_logs_page_spec(page: usize, current: usize) -> Option<usize> {
    if page == 0 && current > 0 {
        Some((current - 1) as usize)
    } else if page == 1 && current < LOGS_PAGE_SIZE {
        Some((current + 1) as usize)
    } else {
        None
    }
}

/// The page shown after a move, or `None` when the move is refused.
pub fn next_logs_page(page: usize, current: usize) -> (r: Option<usize>)
    ensures
        r == next_logs_page_spec(page, current),
{
    if page == 0 && current > 0 {
        Some(current - 1)
    } else if page == 1 && current < LOGS_PAGE_SIZE {
        Some(current + 1)
    } else {
        None
    }
}

/// The id of a pagination button of session `session_id`: next for `page == 1`,
/// previous otherwise.
pub open spec fn logs_button_id_spec(page: usize, session_id: Seq<char>) -> Seq<char> {
    if page == 1 {
        "command:logs_next:"@ + session_id
    } else {
        "command:logs_prev:"@ + session_id
    }
}

/// The id of a pagination button (`format!("command:logs_next:{}", session_id)`).
pub fn logs_button_id(page: usize, session_id: &str) -> (r: String)
    ensures
        r@ == logs_button_id_spec(page, session_id@),
{
    let mut r = if page == 1 {
        "command:logs_next:".to_owned()
    } else {
        "command:logs_prev:".to_owned()
    };
    r.append(session_id);
    r
}

/// A button id that the logs pagination builds reads back as the same move of
/// the same session.
pub proof fn lemma_logs_button_round_trip(page: usize, session_id: Seq<char>)
    requires
        page == 0 || page == 1,
    ensures
        logs_request_spec(logs_button_id_spec(page, session_id)) == Some((session_id, page)),
{
    reveal_strlit("command:logs_next:");
    reveal_strlit("command:logs_prev:");
    reveal_strlit("command:");
    reveal_strlit("logs_next:");
    reveal_strlit("logs_prev:");
    let id = logs_button_id_spec(page, session_id);
    assert("command:"@.is_prefix_of(id));
    let parts = id.subrange(8, id.len() as int);
    assert(strip_prefix_spec(id, "command:"@) == Some(parts));
    if page == 1 {
        assert(parts =~= "logs_next:"@ + session_id);
        assert("logs_next:"@.is_prefix_of(parts));
        assert(parts.subrange(10, parts.len() as int) =~= session_id);
    } else {
        assert(parts =~= "logs_prev:"@ + session_id);
        assert(!"logs_next:"@.is_prefix_of(parts)) by {
            assert(parts[5] == 'p');
        }
        assert("logs_prev:"@.is_prefix_of(parts));
        assert(parts.subrange(10, parts.len() as int) =~= session_id);
    }
}

/// Moving forward then back returns to the page one started from, and every
/// page reached from a page within the bounds stays within them.
pub proof fn lemma_logs_page_moves(current: usize)
    requires
        current <= LOGS_PAGE_SIZE,
    ensures
        next_logs_page_spec(1, current) matches Some(n) ==> next_logs_page_spec(0, n) == Some(current),
        next_logs_page_spec(0, current) matches Some(p) ==> next_logs_page_spec(1, p) == Some(current),
        forall|page: usize| #[trigger] next_logs_page_spec(page, current) matches Some(n) ==> n <= LOGS_PAGE_SIZE,
{
}

} // verus!
