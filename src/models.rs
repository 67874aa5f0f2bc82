pub mod chat_message;
pub mod chat_stream;
pub mod timestamp;
