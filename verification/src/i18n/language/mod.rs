pub mod dt;
pub mod en;
pub mod fr;
pub mod gr;
pub mod jp;
pub mod sp;

pub use dt::load_dutch_messages;
pub use en::load_english_messages;
pub use fr::load_french_messages;
pub use gr::load_german_messages;
pub use jp::load_japanese_messages;
pub use sp::load_spanish_messages;
