//! Feedback collection for a chat bot: a command grammar for inbound chat
//! messages and a table of feedback records with create-or-update semantics.
pub mod text;
pub mod message;
pub mod feedback;
pub mod telegram;
pub mod hook;
pub mod routes;
pub mod zinc;
pub mod channels;
