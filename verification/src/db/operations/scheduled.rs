use vstd::prelude::*;

verus! {

/// A ticket closure planned for a later time.
#[derive(Clone, Debug)]
pub struct ScheduledClosure {
    pub thread_id: String,
    pub close_at: i64,
    pub silent: bool,
}

impl ScheduledClosure {
    /// A closure read from a stored row, where `silent` is stored as an integer
    /// (any non-zero value means silent).
    pub fn from_row(thread_id: String, close_at: i64, silent: i64) -> (r: Self)
        ensures
            r.thread_id == thread_id,
            r.close_at == close_at,
            r.silent == (silent != 0),
    {
        ScheduledClosure { thread_id, close_at, silent: silent != 0 }
    }

    /// Whether the user is told when the ticket closes.
    pub fn notifies_user(&self) -> (r: bool)
        ensures
            r == !self.silent,
    {
        !self.silent
    }
}

} // verus!
