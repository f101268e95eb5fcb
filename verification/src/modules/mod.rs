pub mod commands;
pub mod scheduled_closures;
pub mod threads;
pub mod threads_status;
