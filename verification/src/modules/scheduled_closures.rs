use vstd::prelude::*;

verus! {

/// What to do with a scheduled closure.
#[derive(Clone, Copy, PartialEq, Eq, Structural, Debug)]
pub enum ClosureStep {
    /// Close the ticket now, tell the user unless the closure is silent, and delete the channel.
    CloseNow,
    /// Wait until the closure is due.
    Reschedule,
    /// The ticket is gone: drop the scheduled closure.
    DiscardRecord,
}

/// At start-up, a stored closure whose ticket is gone is dropped; a due one is
/// carried out; a later one is scheduled.
pub open spec fn startup_step_spec(thread_found: bool, close_at: i64, now: i64) -> ClosureStep {
    if !thread_found {
        ClosureStep::DiscardRecord
    } else if close_at <= now {
        ClosureStep::CloseNow
    } else {
        ClosureStep::Reschedule
    }
}

/// The step for a stored closure when the bot starts.
pub fn startup_step(thread_found: bool, close_at: i64, now: i64) -> (r: ClosureStep)
    ensures
        r == startup_step_spec(thread_found, close_at, now),
{
    if !thread_found {
        ClosureStep::DiscardRecord
    } else if close_at <= now {
        ClosureStep::CloseNow
    } else {
        ClosureStep::Reschedule
    }
}

/// When a timer fires, the closure as stored now decides: not yet due (it was
/// moved) means waiting again; due means closing the ticket, or dropping the
/// closure when the ticket is gone.
pub open spec fn wakeup_step_spec(close_at: i64, now: i64, thread_found: bool) -> ClosureStep {
    if close_at <= now {
        if thread_found {
            ClosureStep::CloseNow
        } else {
            ClosureStep::DiscardRecord
        }
    } else {
        ClosureStep::Reschedule
    }
}

/// The step for a stored closure when its timer fires.
pub fn wakeup_step(close_at: i64, now: i64, thread_found: bool) -> (r: ClosureStep)
    ensures
        r == wakeup_step_spec(close_at, now, thread_found),
{
    if close_at <= now {
        if thread_found {
            ClosureStep::CloseNow
        } else {
            ClosureStep::DiscardRecord
        }
    } else {
        ClosureStep::Reschedule
    }
}

/// The seconds to wait before a closure is due: none when it is already due.
pub fn closure_delay(close_at: i64, now: i64) -> (r: u64)
    requires
        i64::MIN <= close_at - now <= i64::MAX,
    ensures
        r == if close_at - now > 0 {
            close_at - now
        } else {
            0
        },
{
    let d = close_at - now;
    if d > 0 {
        d as u64
    } else {
        0
    }
}

/// A closure found due at start-up is carried out at once, and one found due
/// when its timer fires is too, unless its ticket is gone; a closure that is
/// not due is always waited for.
pub proof fn lemma_closure_steps(thread_found: bool, close_at: i64, now: i64)
    ensures
        close_at > now ==> wakeup_step_spec(close_at, now, thread_found) == ClosureStep::Reschedule,
        thread_found ==> startup_step_spec(thread_found, close_at, now) == wakeup_step_spec(
            close_at,
            now,
            thread_found,
        ),
        close_at <= now ==> (wakeup_step_spec(close_at, now, thread_found)
            == ClosureStep::CloseNow <==> thread_found),
{
}

/// At start-up, a stored closure whose ticket is gone has its record dropped,
/// whenever it was due; one whose ticket exists is carried out at once when it
/// is due (its time is now or past) and waited for otherwise.
pub proof fn lemma_startup_steps(thread_found: bool, close_at: i64, now: i64)
    ensures
        !thread_found ==> startup_step_spec(thread_found, close_at, now) == ClosureStep::DiscardRecord,
        thread_found && close_at <= now ==> startup_step_spec(thread_found, close_at, now)
            == ClosureStep::CloseNow,
        thread_found && close_at > now ==> startup_step_spec(thread_found, close_at, now)
            == ClosureStep::Reschedule,
{
}

/// When a closure's timer fires, a closure not yet due is waited for again, a
/// due one is carried out when its ticket exists, and its record is dropped
/// when the ticket is gone.
pub proof fn lemma_wakeup_steps(thread_found: bool, close_at: i64, now: i64)
    ensures
        close_at > now ==> wakeup_step_spec(close_at, now, thread_found) == ClosureStep::Reschedule,
        close_at <= now && thread_found ==> wakeup_step_spec(close_at, now, thread_found)
            == ClosureStep::CloseNow,
        close_at <= now && !thread_found ==> wakeup_step_spec(close_at, now, thread_found)
            == ClosureStep::DiscardRecord,
{
}

} // verus!
