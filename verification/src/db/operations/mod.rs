pub mod scheduled;
pub mod statistics;
pub mod threads;
