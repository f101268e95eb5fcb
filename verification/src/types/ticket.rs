use vstd::prelude::*;

verus! {

/// Who wrote the last message of a ticket.
#[derive(Clone, Copy, PartialEq, Eq, Structural, Debug)]
pub enum TicketAuthor {
    Staff,
    User,
}

impl TicketAuthor {
    /// The name stored in the database (`staff` or `user`).
    pub fn db_name(&self) -> (r: &'static str)
        ensures
            r@ == match *self {
                TicketAuthor::Staff => "staff"@,
                TicketAuthor::User => "user"@,
            },
    {
        match self {
            TicketAuthor::Staff => "staff",
            TicketAuthor::User => "user",
        }
    }
}

/// The live state of an open ticket, as the status line of its channel shows it.
#[derive(Clone, Debug)]
pub struct TicketState {
    pub channel_id: i64,
    pub owner_id: String,
    pub taken_by: Option<String>,
    pub last_message_by: TicketAuthor,
    pub last_message_at: i64,
}

} // verus!
