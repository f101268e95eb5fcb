pub mod definition;
pub mod options;
pub mod ping;
pub mod recover;
pub mod release;
pub mod remove_reminder;
pub mod remove_staff;
pub mod reply;
pub mod snippet;
pub mod status;
pub mod take;
