use crate::features::{ButtonKind, ButtonSpec, ButtonView};
use crate::modules::commands::{
    logs_button_id, logs_button_id_spec, next_logs_page, next_logs_page_spec,
};
use vstd::prelude::*;

verus! {

/// A closed ticket of a user, as the logs command lists it; `id` numbers the
/// tickets from the oldest (1) to the newest.
#[derive(Clone, Debug)]
pub struct TicketLog {
    pub id: i64,
    pub ticket_id: String,
    pub user_id: String,
    pub created_at: String,
}

/// The state of a paginated logs listing.
#[derive(Clone, Debug)]
pub struct PaginationContext {
    pub user_id: String,
    pub logs: Vec<TicketLog>,
    pub current_page: usize,
    pub message_id: u64,
    pub channel_id: u64,
}

impl PaginationContext {
    /// Moves the listing one page back (`page == 0`) or forward (`page == 1`)
    /// when the move is allowed; tells whether it moved.  Nothing else changes.
    pub fn turn_page(&mut self, page: usize) -> (moved: bool)
        ensures
            moved == next_logs_page_spec(page, old(self).current_page) is Some,
            final(self).current_page == match next_logs_page_spec(page, old(self).current_page) {
                Some(n) => n,
                None => old(self).current_page,
            },
            final(self).user_id == old(self).user_id,
            final(self).logs == old(self).logs,
            final(self).message_id == old(self).message_id,
            final(self).channel_id == old(self).channel_id,
    {
        match next_logs_page(page, self.current_page) {
            Some(n) => {
                self.current_page = n;
                true
            },
            None => false,
        }
    }

    /// The previous and next buttons of the listing for session `session_id`:
    /// previous is disabled on the first page, next once the page reaches the
    /// end of the logs (ten per page).
    pub fn buttons(&self, prev_label: &str, next_label: &str, session_id: &str) -> (r: Vec<
        ButtonSpec,
    >)
        requires
            (self.current_page + 1) * 10 <= usize::MAX,
        ensures
            r@.len() == 2,
            r@[0]@ == (ButtonView {
                label: prev_label@,
                custom_id: logs_button_id_spec(0, session_id@),
                kind: ButtonKind::Primary,
                disabled: self.current_page == 0,
            }),
            r@[1]@ == (ButtonView {
                label: next_label@,
                custom_id: logs_button_id_spec(1, session_id@),
                kind: ButtonKind::Primary,
                disabled: (self.current_page + 1) * 10 >= self.logs.len(),
            }),
    {
        let prev_id = logs_button_id(0, session_id);
        let next_id = logs_button_id(1, session_id);
        let mut r = Vec::new();
        r.push(
            ButtonSpec::new(prev_label, prev_id.as_str(), ButtonKind::Primary, self.current_page == 0),
        );
        r.push(
            ButtonSpec::new(
                next_label,
                next_id.as_str(),
                ButtonKind::Primary,
                (self.current_page + 1) * 10 >= self.logs.len(),
            ),
        );
        r
    }
}

} // verus!
