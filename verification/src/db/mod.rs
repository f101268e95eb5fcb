pub mod operations;
pub mod repr;
