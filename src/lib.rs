//! Persistence and retrieval of chat messages: the connection descriptor,
//! the statement registry, the message repository's state and the
//! bookkeeping of a live message stream.

pub mod api;
pub mod config;
pub mod dal;
pub mod error;
pub mod logger;
pub mod models;
pub mod utils;
