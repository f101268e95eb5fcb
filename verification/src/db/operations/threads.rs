use vstd::prelude::*;

verus! {

/// The number given to the next staff message of a ticket: the stored counter,
/// or one when the ticket has none, converted to `u64` as `as` converts it (a
/// counter is never negative, since it starts at one and only grows).
pub fn next_message_number(stored: Option<i64>) -> (r: u64)
    ensures
        r == (match stored {
            Some(n) => n,
            None => 1,
        }) as u64,
{
    let n = match stored {
        Some(n) => n,
        None => 1,
    };
    n as u64
}

/// The counter a ticket holds after one allocation: the stored counter moved up
/// by one; a ticket with no row stays without one.
pub open spec fn counter_after_allocation(stored: Option<i64>) -> Option<i64> {
    match stored {
        Some(n) => Some((n + 1) as i64),
        None => None,
    }
}

/// Allocates the next staff message number of a ticket: the number handed out
/// and the counter the ticket holds afterwards.
pub fn allocate_message_number(stored: Option<i64>) -> (r: (u64, Option<i64>))
    requires
        stored matches Some(n) ==> n < i64::MAX,
    ensures
        r.0 == (match stored {
            Some(n) => n,
            None => 1,
        }) as u64,
        r.1 == counter_after_allocation(stored),
{
    let number = next_message_number(stored);
    let counter = match stored {
        Some(n) => Some(n + 1),
        None => None,
    };
    (number, counter)
}

/// Message numbers never repeat: for a ticket whose counter is a valid number,
/// each allocation hands out exactly one more than the one before.
pub proof fn lemma_message_numbers_increase(n: i64)
    requires
        1 <= n < i64::MAX,
    ensures
        counter_after_allocation(Some(n)) == Some((n + 1) as i64),
        ((n + 1) as i64) as u64 == (n as u64) + 1,
        ((n + 1) as i64) as u64 > n as u64,
{
}

/// Whether the user of a ticket channel has left: the flag of the first
/// matching row, or `false` when there is none.
pub fn user_left_from_rows(rows: &Vec<bool>) -> (r: bool)
    ensures
        r == (rows.len() > 0 && rows@[0]),
{
    if rows.len() > 0 {
        rows[0]
    } else {
        false
    }
}

/// Why a staff alert cannot be changed.
#[derive(Clone, Copy, PartialEq, Eq, Structural, Debug)]
pub enum AlertError {
    /// An unused alert already exists for this staff member and user.
    AlreadySet,
    /// No unused alert exists for this staff member and user.
    DoesNotExist,
}

/// Setting an alert is refused when an unused one already exists.
pub fn check_set_alert(unused_alert_exists: bool) -> (r: Result<(), AlertError>)
    ensures
        r == if unused_alert_exists {
            Err::<(), AlertError>(AlertError::AlreadySet)
        } else {
            Ok(())
        },
{
    if unused_alert_exists {
        Err(AlertError::AlreadySet)
    } else {
        Ok(())
    }
}

/// Cancelling an alert is refused when no unused one exists.
pub fn check_cancel_alert(unused_alert_exists: bool) -> (r: Result<(), AlertError>)
    ensures
        r == if unused_alert_exists {
            Ok::<(), AlertError>(())
        } else {
            Err(AlertError::DoesNotExist)
        },
{
    if unused_alert_exists {
        Ok(())
    } else {
        Err(AlertError::DoesNotExist)
    }
}

} // verus!
