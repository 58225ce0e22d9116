//! The answers of the HTTP surface, and how the server is set up.

pub mod arrow_stream;
pub mod reply;
pub mod web_handlers;
pub mod web_server;
