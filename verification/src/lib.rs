//! Verified core of a Discord modmail bot: text formatting and parsing,
//! interaction routing, audit-log rendering, error dictionaries and the
//! decisions taken around support threads.

pub mod text;
pub mod errors;
pub mod i18n;
pub mod handlers;
pub mod modules;
pub mod types;
pub mod features;
pub mod commands;
pub mod config;
pub mod db;
