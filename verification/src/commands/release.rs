use crate::text::str_eq;
use vstd::prelude::*;

verus! {

/// Whether a ticket is already released: its channel carries the user's name
/// again (the command is then refused).
pub fn already_released(channel_name: &str, user_name: &str) -> (r: bool)
    ensures
        r == (channel_name@ == user_name@),
{
    str_eq(channel_name, user_name)
}

} // verus!
