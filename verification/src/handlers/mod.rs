pub mod audit_log;
pub mod guild_interaction_handler;
pub mod guild_members_handler;
pub mod guild_message_reactions_handler;
pub mod guild_messages_handler;
