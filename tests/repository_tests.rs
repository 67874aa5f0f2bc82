use chatserver::config::{Config, ConfigSection, ConfigValue};
use chatserver::dal::chat_message_repository::ChatMessageRepository;
use chatserver::error::Error;
use chatserver::models::chat_message::ChatMessage;
use chatserver::models::timestamp::Timestamp;
use chatserver::utils::repo_statement::{ChatRepoStatement, ParamType, RepoStatement, StatementRef};

const INSERT: &str =
    "INSERT INTO chat_messages (text, channel, username, timestamp) VALUES ($1, $2, $3, $4) RETURNING *";
const BY_CHANNEL: &str =
    "SELECT * FROM chat_messages WHERE channel = $1 ORDER BY timestamp DESC LIMIT $2";
const BY_USER: &str = "SELECT * FROM chat_messages WHERE username = $1";

fn db_config() -> Config {
    let mut db = ConfigSection::new();
    db.insert("user", ConfigValue::Text("postgres".to_string()));
    db.insert("host", ConfigValue::Text("localhost".to_string()));
    let mut c = Config::new();
    c.insert("db", db);
    c
}

fn msg(text: &str, user: &str, channel: &str, secs: i64) -> ChatMessage {
    ChatMessage::new(
        text.to_string(),
        user.to_string(),
        channel.to_string(),
        Timestamp::from_unix_seconds(secs),
    )
}

fn raw_text(r: StatementRef<'_>) -> String {
    match r {
        StatementRef::Raw(t) => t,
        StatementRef::Prepared(_) => panic!("expected raw text"),
    }
}

#[test]
fn statement_texts_are_fixed() {
    assert_eq!(ChatRepoStatement::Insert.as_string(), INSERT);
    assert_eq!(ChatRepoStatement::GetByChannel.as_string(), BY_CHANNEL);
    assert_eq!(ChatRepoStatement::GetByUser.as_string(), BY_USER);
}

#[test]
fn statement_types_follow_parameter_order() {
    assert_eq!(
        ChatRepoStatement::Insert.get_types(),
        vec![ParamType::Text, ParamType::Text, ParamType::Text, ParamType::TimestampTz]
    );
    assert_eq!(
        ChatRepoStatement::GetByChannel.get_types(),
        vec![ParamType::Text, ParamType::Int8]
    );
    assert_eq!(ChatRepoStatement::GetByUser.get_types(), vec![ParamType::Text]);
}

#[test]
fn unprepared_statement_runs_as_raw_text() {
    let st = RepoStatement::new(ChatRepoStatement::GetByUser);
    assert!(!st.is_prepared());
    assert_eq!(raw_text(st.to_statement()), BY_USER);
}

#[test]
fn failed_preparation_is_a_database_error() {
    let mut st = RepoStatement::new(ChatRepoStatement::GetByUser);
    let r = st.finish_prepare(Err("deadline has elapsed".to_string()));
    assert_eq!(
        r,
        Err(Error::Db(format!(
            "Failed to prepare statement {}, error: deadline has elapsed",
            BY_USER
        )))
    );
    assert!(!st.is_prepared());
    assert_eq!(raw_text(st.to_statement()), BY_USER);
}

#[test]
fn new_repository_is_not_connected() {
    let repo = ChatMessageRepository::new(&db_config()).unwrap();
    assert!(!repo.is_connected());
    assert!(repo.statements.is_empty());
    assert_eq!(repo.connection_target(), "user=postgres host=localhost");
}

#[test]
fn new_repository_needs_db_user() {
    let r = ChatMessageRepository::new(&Config::new());
    assert_eq!(
        r.err(),
        Some(Error::Configuration("No user specified in db config".to_string()))
    );
}

#[test]
fn data_operations_fail_fast_before_connect() {
    let repo = ChatMessageRepository::new(&db_config()).unwrap();
    let not_connected = Error::Db("The repository is not connected".to_string());
    let m = msg("hi", "alice", "general", 1);
    assert_eq!(repo.add_message_call(&m).err(), Some(not_connected.clone_error()));
    assert_eq!(
        repo.channel_messages_call("general", 10).err(),
        Some(not_connected.clone_error())
    );
    assert_eq!(repo.user_messages_call("alice").err(), Some(not_connected));
}

trait CloneError {
    fn clone_error(&self) -> Error;
}

impl CloneError for Error {
    fn clone_error(&self) -> Error {
        Error::Db(self.cause().clone())
    }
}

#[test]
fn lazy_preparation_falls_back_to_definitions() {
    let repo = ChatMessageRepository::new(&db_config()).unwrap();
    assert_eq!(raw_text(repo.select(ChatRepoStatement::Insert)), INSERT);
    assert_eq!(raw_text(repo.select(ChatRepoStatement::GetByChannel)), BY_CHANNEL);
    assert_eq!(raw_text(repo.select(ChatRepoStatement::GetByUser)), BY_USER);
}

#[test]
fn channel_query_keeps_the_newest_up_to_limit() {
    let rows: Vec<ChatMessage> =
        (0..15).rev().map(|i| msg(&format!("m{}", i), "alice", "test_channel", 100 + i)).collect();
    let got = ChatMessageRepository::finish_channel_query("test_channel", 10, &rows);
    assert_eq!(got.len(), 10);
    for (k, m) in got.iter().enumerate() {
        assert_eq!(m.timestamp.seconds, 114 - k as i64);
    }
    for w in got.windows(2) {
        assert!(w[1].timestamp.is_before(&w[0].timestamp));
    }
}

#[test]
fn channel_query_of_empty_channel_is_empty() {
    let got = ChatMessageRepository::finish_channel_query("quiet", 10, &Vec::new());
    assert!(got.is_empty());
}

#[test]
fn channel_query_drops_other_channels_and_bad_limits() {
    let rows = vec![
        msg("a", "alice", "one", 3),
        msg("b", "bob", "two", 2),
        msg("c", "carol", "one", 1),
    ];
    let got = ChatMessageRepository::finish_channel_query("one", 5, &rows);
    assert_eq!(got, vec![msg("a", "alice", "one", 3), msg("c", "carol", "one", 1)]);
    assert!(ChatMessageRepository::finish_channel_query("one", 0, &rows).is_empty());
    assert!(ChatMessageRepository::finish_channel_query("one", -3, &rows).is_empty());
}

#[test]
fn user_query_only_returns_that_user() {
    let rows = vec![
        msg("a", "alice", "one", 3),
        msg("b", "bob", "two", 2),
        msg("c", "alice", "three", 1),
    ];
    let got = ChatMessageRepository::finish_user_query("alice", &rows);
    assert_eq!(got.len(), 2);
    assert!(got.iter().all(|m| m.username == "alice"));
    assert!(ChatMessageRepository::finish_user_query("dave", &rows).is_empty());
}

#[test]
fn insertion_hands_back_first_stored_row() {
    let rows = vec![msg("a", "alice", "one", 3), msg("b", "bob", "two", 2)];
    assert_eq!(ChatMessageRepository::finish_insert(&rows), Ok(msg("a", "alice", "one", 3)));
    assert_eq!(
        ChatMessageRepository::finish_insert(&Vec::new()),
        Err(Error::Db("The insertion returned no row".to_string()))
    );
}
