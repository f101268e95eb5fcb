pub mod logs;
pub mod ticket;
