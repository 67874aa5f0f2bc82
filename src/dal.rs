pub mod chat_message_repository;
