pub mod connection_string;
pub mod decimal;
pub mod repo_statement;
