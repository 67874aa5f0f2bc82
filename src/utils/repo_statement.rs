use vstd::prelude::*;
use vstd::string::StringExecFns;

use crate::error::{error_cause, Error};
use crate::models::timestamp::Timestamp;

verus! {

/// Relies on tokio_postgres::Statement, a statement that the server has
/// compiled for reuse: held as an opaque handle and never looked into.
#[verifier::external_type_specification]
#[verifier::external_body]
pub struct ExStatement(tokio_postgres::Statement);

/// The SQL type of a positional statement parameter.
#[derive(Clone, Copy, Debug, PartialEq, Eq, Structural)]
pub enum ParamType {
    /// `TEXT`
    Text,
    /// `INT8`, a 64-bit signed integer
    Int8,
    /// `TIMESTAMPTZ`
    TimestampTz,
}

/// A value bound to a positional statement parameter.
#[derive(Debug, PartialEq, Eq)]
pub enum ParamValue {
    Text(String),
    Int8(i64),
    TimestampTz(Timestamp),
}

/// The SQL type of a bound value.
pub open spec fn param_type(v: ParamValue) -> ParamType {
    match v {
        ParamValue::Text(_) => ParamType::Text,
        ParamValue::Int8(_) => ParamType::Int8,
        ParamValue::TimestampTz(_) => ParamType::TimestampTz,
    }
}

/// The operations on stored chat messages.
#[derive(Clone, Copy, Debug, PartialEq, Eq, Structural)]
pub enum ChatRepoStatement {
    Insert,
    GetByChannel,
    GetByUser,
}

pub const INSERT_SQL: &'static str =
    "INSERT INTO chat_messages (text, channel, username, timestamp) VALUES ($1, $2, $3, $4) RETURNING *";

pub const GET_BY_CHANNEL_SQL: &'static str =
    "SELECT * FROM chat_messages WHERE channel = $1 ORDER BY timestamp DESC LIMIT $2";

pub const GET_BY_USER_SQL: &'static str = "SELECT * FROM chat_messages WHERE username = $1";

/// The query text of an operation.
pub open spec fn statement_text(k: ChatRepoStatement) -> Seq<char> {
    match k {
        ChatRepoStatement::Insert => INSERT_SQL@,
        ChatRepoStatement::GetByChannel => GET_BY_CHANNEL_SQL@,
        ChatRepoStatement::GetByUser => GET_BY_USER_SQL@,
    }
}

/// The types of an operation's parameters, in positional order.
pub open spec fn statement_types(k: ChatRepoStatement) -> Seq<ParamType> {
    match k {
        ChatRepoStatement::Insert => seq![
            ParamType::Text,
            ParamType::Text,
            ParamType::Text,
            ParamType::TimestampTz,
        ],
        ChatRepoStatement::GetByChannel => seq![ParamType::Text, ParamType::Int8],
        ChatRepoStatement::GetByUser => seq![ParamType::Text],
    }
}

/// The operations, in the order in which the registry holds them.
pub open spec fn all_statements() -> Seq<ChatRepoStatement> {
    seq![ChatRepoStatement::Insert, ChatRepoStatement::GetByChannel, ChatRepoStatement::GetByUser]
}

impl ChatRepoStatement {
    /// The query text.
    pub fn as_string(&self) -> (r: String)
        ensures
            r@ == statement_text(*self),
    {
        match self {
            ChatRepoStatement::Insert => String::from_str(INSERT_SQL),
            ChatRepoStatement::GetByChannel => String::from_str(GET_BY_CHANNEL_SQL),
            ChatRepoStatement::GetByUser => String::from_str(GET_BY_USER_SQL),
        }
    }

    /// The parameter types, in positional order.
    pub fn get_types(&self) -> (r: Vec<ParamType>)
        ensures
            r@ == statement_types(*self),
    {
        let r = match self {
            ChatRepoStatement::Insert => vec![
                ParamType::Text,
                ParamType::Text,
                ParamType::Text,
                ParamType::TimestampTz,
            ],
            ChatRepoStatement::GetByChannel => vec![ParamType::Text, ParamType::Int8],
            ChatRepoStatement::GetByUser => vec![ParamType::Text],
        };
        assert(r@ =~= statement_types(*self));
        r
    }
}

/// What a statement is executed as: its raw text, or its compiled handle.
pub enum StatementRef<'a> {
    Raw(String),
    Prepared(&'a tokio_postgres::Statement),
}

/// One registered operation: its query text, its parameter types and, once
/// compiled, its compiled handle.
pub struct RepoStatement {
    pub kind: ChatRepoStatement,
    pub statement: String,
    pub types: Vec<ParamType>,
    pub prepared: Option<tokio_postgres::Statement>,
}

impl RepoStatement {
    /// Text and types are those of the statement's operation.
    pub open spec fn matches_definition(self) -> bool {
        self.statement@ == statement_text(self.kind) && self.types@ == statement_types(self.kind)
    }

    /// The uncompiled registration of an operation.
    pub fn new(kind: ChatRepoStatement) -> (r: RepoStatement)
        ensures
            r.kind == kind,
            r.matches_definition(),
            r.prepared is None,
    {
        RepoStatement { kind, statement: kind.as_string(), types: kind.get_types(), prepared: None }
    }

    /// Whether a compiled handle is stored.
    pub fn is_prepared(&self) -> (r: bool)
        ensures
            r == self.prepared is Some,
    {
        self.prepared.is_some()
    }

    /// What to execute: the compiled handle where there is one, else the
    /// raw query text.
    pub fn to_statement(&self) -> (r: StatementRef<'_>)
        ensures
            match self.prepared {
                Some(p) => r == StatementRef::Prepared(&p),
                None => r matches StatementRef::Raw(t) && t@ == self.statement@,
            },
    {
        match &self.prepared {
            Some(p) => StatementRef::Prepared(p),
            None => StatementRef::Raw(self.statement.clone()),
        }
    }

    /// Takes in the outcome of compiling the statement: a compiled handle is
    /// kept; a failure (or a timeout) leaves the statement as it was and is
    /// reported as a database error naming the statement and the cause.
    pub fn finish_prepare(&mut self, outcome: Result<tokio_postgres::Statement, String>) -> (r:
        Result<(), Error>)
        ensures
            final(self).kind == old(self).kind,
            final(self).statement == old(self).statement,
            final(self).types == old(self).types,
            match outcome {
                Ok(p) => r is Ok && final(self).prepared == Some(p),
                Err(cause) => final(self).prepared == old(self).prepared && (r matches Err(e)
                    && e is Db && error_cause(e) == prepare_failure_text(
                    old(self).statement@,
                    cause@,
                )),
            },
    {
        match outcome {
            Ok(p) => {
                self.prepared = Some(p);
                Ok(())
            },
            Err(cause) => {
                let mut text = String::from_str("Failed to prepare statement ");
                text.append(self.statement.as_str());
                text.append(", error: ");
                text.append(cause.as_str());
                Err(Error::Db(text))
            },
        }
    }
}

/// How many `$` parameter markers a query text holds.
pub open spec fn marker_count(s: Seq<char>) -> nat
    decreases s.len(),
{
    if s.len() == 0 {
        0
    } else {
        marker_count(s.drop_last()) + if s.last() == '$' {
            1nat
        } else {
            0nat
        }
    }
}

/// Markers of a concatenation are those of its parts.
pub proof fn lemma_marker_count_concat(a: Seq<char>, b: Seq<char>)
    ensures
        marker_count(a + b) == marker_count(a) + marker_count(b),
    decreases b.len(),
{
    if b.len() == 0 {
        assert(a + b =~= a);
    } else {
        lemma_marker_count_concat(a, b.drop_last());
        assert((a + b).drop_last() =~= a + b.drop_last());
    }
}

proof fn lemma_insert_split()
    ensures
        INSERT_SQL@ == "INSERT INTO chat_messages (text, channel, "@
            + "username, timestamp) VALUES ($1, $2, $"@ + "3, $4) RETURNING *"@,
{
    reveal_strlit(
        "INSERT INTO chat_messages (text, channel, username, timestamp) VALUES ($1, $2, $3, $4) RETURNING *",
    );
    reveal_strlit("INSERT INTO chat_messages (text, channel, ");
    reveal_strlit("username, timestamp) VALUES ($1, $2, $");
    reveal_strlit("3, $4) RETURNING *");
    assert(INSERT_SQL@ =~= "INSERT INTO chat_messages (text, channel, "@
        + "username, timestamp) VALUES ($1, $2, $"@ + "3, $4) RETURNING *"@);
}

proof fn lemma_insert_head_markers()
    ensures
        marker_count("INSERT INTO chat_messages (text, channel, "@) == 0,
{
    reveal_strlit("INSERT INTO chat_messages (text, channel, ");
    reveal_with_fuel(marker_count, 43);
}

proof fn lemma_insert_middle_markers()
    ensures
        marker_count("username, timestamp) VALUES ($1, $2, $"@) == 3,
{
    reveal_strlit("username, timestamp) VALUES ($1, $2, $");
    reveal_with_fuel(marker_count, 39);
}

proof fn lemma_insert_tail_markers()
    ensures
        marker_count("3, $4) RETURNING *"@) == 1,
{
    reveal_strlit("3, $4) RETURNING *");
    reveal_with_fuel(marker_count, 19);
}

proof fn lemma_insert_markers()
    ensures
        marker_count(INSERT_SQL@) == 4,
{
    let head = "INSERT INTO chat_messages (text, channel, "@;
    let middle = "username, timestamp) VALUES ($1, $2, $"@;
    let tail = "3, $4) RETURNING *"@;
    lemma_insert_split();
    lemma_insert_head_markers();
    lemma_insert_middle_markers();
    lemma_insert_tail_markers();
    lemma_marker_count_concat(head, middle);
    lemma_marker_count_concat(head + middle, tail);
}

proof fn lemma_channel_split()
    ensures
        GET_BY_CHANNEL_SQL@ == "SELECT * FROM chat_messages WHERE channel = $1"@
            + " ORDER BY timestamp DESC LIMIT $2"@,
{
    reveal_strlit(
        "SELECT * FROM chat_messages WHERE channel = $1 ORDER BY timestamp DESC LIMIT $2",
    );
    reveal_strlit("SELECT * FROM chat_messages WHERE channel = $1");
    reveal_strlit(" ORDER BY timestamp DESC LIMIT $2");
    assert(GET_BY_CHANNEL_SQL@ =~= "SELECT * FROM chat_messages WHERE channel = $1"@
        + " ORDER BY timestamp DESC LIMIT $2"@);
}

proof fn lemma_channel_head_markers()
    ensures
        marker_count("SELECT * FROM chat_messages WHERE channel = $1"@) == 1,
{
    reveal_strlit("SELECT * FROM chat_messages WHERE channel = $1");
    reveal_with_fuel(marker_count, 47);
}

proof fn lemma_channel_tail_markers()
    ensures
        marker_count(" ORDER BY timestamp DESC LIMIT $2"@) == 1,
{
    reveal_strlit(" ORDER BY timestamp DESC LIMIT $2");
    reveal_with_fuel(marker_count, 34);
}

proof fn lemma_channel_markers()
    ensures
        marker_count(GET_BY_CHANNEL_SQL@) == 2,
{
    lemma_channel_split();
    lemma_channel_head_markers();
    lemma_channel_tail_markers();
    lemma_marker_count_concat(
        "SELECT * FROM chat_messages WHERE channel = $1"@,
        " ORDER BY timestamp DESC LIMIT $2"@,
    );
}

proof fn lemma_user_markers()
    ensures
        marker_count(GET_BY_USER_SQL@) == 1,
{
    reveal_strlit("SELECT * FROM chat_messages WHERE username = $1");
    reveal_with_fuel(marker_count, 50);
}

/// Each operation's query text refers to as many positional parameters as
/// its type list has entries.
pub proof fn lemma_markers_match_types(k: ChatRepoStatement)
    ensures
        marker_count(statement_text(k)) == statement_types(k).len(),
{
    match k {
        ChatRepoStatement::Insert => lemma_insert_markers(),
        ChatRepoStatement::GetByChannel => lemma_channel_markers(),
        ChatRepoStatement::GetByUser => lemma_user_markers(),
    }
}

/// The cause reported when a statement could not be compiled.
pub open spec fn prepare_failure_text(statement: Seq<char>, cause: Seq<char>) -> Seq<char> {
    "Failed to prepare statement "@ + statement + ", error: "@ + cause
}

} // verus!
