use vstd::prelude::*;
use vstd::string::StringExecFns;

use crate::config::{section_entries, Config};
use crate::error::{error_cause, Error};
use crate::models::chat_message::ChatMessage;
use crate::utils::connection_string::{descriptor_outcome, ConnectionString};
use crate::utils::repo_statement::{
    all_statements, param_type, statement_text, statement_types, ChatRepoStatement, ParamType,
    ParamValue, RepoStatement, StatementRef,
};

verus! {

/// Relies on tokio_postgres::Client, an open connection to the server: held
/// as an opaque handle and never looked into.
#[verifier::external_type_specification]
#[verifier::external_body]
pub struct ExClient(tokio_postgres::Client);

pub const ERR_NOT_CONNECTED: &'static str = "The repository is not connected";

pub const ERR_NO_STORED_ROW: &'static str = "The insertion returned no row";

pub const ERR_ALREADY_CONNECTED: &'static str = "The repository is already connected";

/// The chat message store: its connection parameters, its connection once
/// opened, and the registry of its statements.
///
/// Statements are compiled lazily: connecting registers every statement
/// uncompiled, and execution uses the raw query text until a caller has
/// compiled a statement (which needs the connection's I/O task running).
pub struct ChatMessageRepository {
    pub connection_string: ConnectionString,
    pub client: Option<tokio_postgres::Client>,
    pub statements: Vec<RepoStatement>,
}

/// A statement ready to run: the connection, what to execute, and the
/// values of its positional parameters.
pub struct BoundStatement<'a> {
    pub client: &'a tokio_postgres::Client,
    pub target: StatementRef<'a>,
    pub params: Vec<ParamValue>,
}

/// The first registered statement of operation `k`.
pub open spec fn registered(statements: Seq<RepoStatement>, k: ChatRepoStatement) -> Option<
    RepoStatement,
>
    decreases statements.len(),
{
    if statements.len() == 0 {
        None
    } else if statements[0].kind == k {
        Some(statements[0])
    } else {
        registered(statements.drop_first(), k)
    }
}

/// The registry holds each operation once, in order, as defined.
pub open spec fn registry_complete(statements: Seq<RepoStatement>) -> bool {
    &&& statements.len() == all_statements().len()
    &&& forall|i: int|
        0 <= i < statements.len() ==> #[trigger] statements[i].kind == all_statements()[i]
            && statements[i].matches_definition()
}

/// `target` is what executing operation `k` uses: the registered compiled
/// handle, else the registered raw text, else the operation's own text.
pub open spec fn selects(statements: Seq<RepoStatement>, k: ChatRepoStatement, target: StatementRef) -> bool {
    match registered(statements, k) {
        Some(st) => match st.prepared {
            Some(p) => target == StatementRef::Prepared(&p),
            None => target matches StatementRef::Raw(t) && t@ == st.statement@,
        },
        None => target matches StatementRef::Raw(t) && t@ == statement_text(k),
    }
}

/// `v` is the text parameter `s`.
pub open spec fn text_param(v: ParamValue, s: Seq<char>) -> bool {
    v matches ParamValue::Text(t) && t@ == s
}

/// The types of bound values, in order.
pub open spec fn param_types(params: Seq<ParamValue>) -> Seq<ParamType> {
    params.map_values(|v: ParamValue| param_type(v))
}

/// The parameters of an insertion: text, channel, username, timestamp.
pub open spec fn insert_params(params: Seq<ParamValue>, m: ChatMessage) -> bool {
    &&& params.len() == 4
    &&& text_param(params[0], m.text@)
    &&& text_param(params[1], m.channel@)
    &&& text_param(params[2], m.username@)
    &&& params[3] == ParamValue::TimestampTz(m.timestamp)
}

/// The test for a message of `channel`.
pub open spec fn in_channel(channel: Seq<char>) -> spec_fn(ChatMessage) -> bool {
    |m: ChatMessage| m.channel@ == channel
}

/// The test for a message by `username`.
pub open spec fn by_user(username: Seq<char>) -> spec_fn(ChatMessage) -> bool {
    |m: ChatMessage| m.username@ == username
}

/// The stored messages of a channel, as many as the limit allows, in the
/// order the server returned them.
pub open spec fn channel_selection(rows: Seq<ChatMessage>, channel: Seq<char>, limit: i64) -> Seq<
    ChatMessage,
> {
    let matching = rows.filter(in_channel(channel));
    let kept = if limit <= 0 {
        0
    } else if limit < matching.len() {
        limit as int
    } else {
        matching.len() as int
    };
    matching.take(kept)
}

/// The stored messages of a user, in the order the server returned them.
pub open spec fn user_selection(rows: Seq<ChatMessage>, username: Seq<char>) -> Seq<ChatMessage> {
    rows.filter(by_user(username))
}

/// In a well-formed repository, whatever runs as raw text for an operation
/// is that operation's own query text: before connecting (nothing is
/// registered) and after (the registry holds the definitions), compiled or
/// not.
pub proof fn lemma_raw_text_is_definition(
    repo: ChatMessageRepository,
    k: ChatRepoStatement,
    target: StatementRef,
)
    requires
        repo.wf(),
        selects(repo.statements@, k, target),
    ensures
        target matches StatementRef::Raw(t) ==> t@ == statement_text(k),
{
    let st = repo.statements@;
    if repo.client is Some {
        assert(st[0].kind == all_statements()[0]);
        assert(st[1].kind == all_statements()[1]);
        assert(st[2].kind == all_statements()[2]);
        assert(st[0].matches_definition() && st[1].matches_definition()
            && st[2].matches_definition());
        assert(st.drop_first()[0] == st[1]);
        assert(st.drop_first().drop_first()[0] == st[2]);
        reveal_with_fuel(registered, 4);
    } else {
        reveal_with_fuel(registered, 1);
    }
}

/// Newest first: each message is strictly later than the one after it.
pub open spec fn newest_first(msgs: Seq<ChatMessage>) -> bool {
    forall|i: int| 0 <= i < msgs.len() - 1 ==> #[trigger] msgs[i + 1].timestamp.before(msgs[i].timestamp)
}

/// A user query hands out only messages of that user.
pub proof fn lemma_user_isolation(rows: Seq<ChatMessage>, username: Seq<char>)
    ensures
        forall|i: int|
            0 <= i < user_selection(rows, username).len() ==> (#[trigger] user_selection(
                rows,
                username,
            )[i]).username@ == username,
{
    let p = by_user(username);
    assert forall|i: int| 0 <= i < user_selection(rows, username).len() implies (
    #[trigger] user_selection(rows, username)[i]).username@ == username by {
        rows.lemma_filter_pred(p, i);
    }
}

/// A channel query hands out only messages of that channel, never more than
/// the limit (nothing for a limit below one). Where the server's rows all
/// belong to the channel, it hands out the first of them up to the limit, so
/// rows that came newest first stay newest first.
pub proof fn lemma_channel_selection(rows: Seq<ChatMessage>, channel: Seq<char>, limit: i64)
    ensures
        ({
            let sel = channel_selection(rows, channel, limit);
            &&& forall|i: int| 0 <= i < sel.len() ==> (#[trigger] sel[i]).channel@ == channel
            &&& limit <= 0 || rows.len() == 0 ==> sel.len() == 0
            &&& limit > 0 ==> sel.len() <= limit
            &&& (forall|i: int| 0 <= i < rows.len() ==> (#[trigger] rows[i]).channel@ == channel)
                ==> sel == rows.take(if limit <= 0 {
                0
            } else if limit < rows.len() {
                limit as int
            } else {
                rows.len() as int
            })
            &&& (forall|i: int| 0 <= i < rows.len() ==> (#[trigger] rows[i]).channel@ == channel)
                && newest_first(rows) ==> newest_first(sel)
        }),
{
    let p = in_channel(channel);
    let matching = rows.filter(p);
    let sel = channel_selection(rows, channel, limit);
    assert forall|i: int| 0 <= i < sel.len() implies (#[trigger] sel[i]).channel@ == channel by {
        rows.lemma_filter_pred(p, i);
    }
    if forall|i: int| 0 <= i < rows.len() ==> (#[trigger] rows[i]).channel@ == channel {
        lemma_filter_keeps_all(rows, p);
        assert(matching == rows);
    }
}

/// A stored message comes back from a query of its channel: where the
/// server's rows hold a message equal to `m` (to the millisecond) and the
/// limit covers every row of that channel, the result holds one too.
pub proof fn lemma_round_trip(rows: Seq<ChatMessage>, m: ChatMessage, limit: i64)
    requires
        exists|i: int| 0 <= i < rows.len() && (#[trigger] rows[i]).same_message(m),
        limit >= rows.filter(in_channel(m.channel@)).len(),
    ensures
        exists|j: int|
            0 <= j < channel_selection(rows, m.channel@, limit).len() && (
            #[trigger] channel_selection(rows, m.channel@, limit)[j]).same_message(m),
{
    let p = in_channel(m.channel@);
    let i = choose|i: int| 0 <= i < rows.len() && (#[trigger] rows[i]).same_message(m);
    rows.lemma_filter_contains(p, i);
    let matching = rows.filter(p);
    let sel = channel_selection(rows, m.channel@, limit);
    assert(sel =~= matching);
    let j = choose|j: int| 0 <= j < matching.len() && matching[j] == rows[i];
    assert(sel[j].same_message(m));
}

/// Filtering by a predicate that every element meets keeps the sequence.
proof fn lemma_filter_keeps_all(s: Seq<ChatMessage>, p: spec_fn(ChatMessage) -> bool)
    requires
        forall|i: int| 0 <= i < s.len() ==> p(#[trigger] s[i]),
    ensures
        s.filter(p) == s,
    decreases s.len(),
{
    reveal(Seq::filter);
    if s.len() > 0 {
        assert forall|i: int| 0 <= i < s.drop_last().len() implies p(#[trigger] s.drop_last()[i]) by {
            assert(s.drop_last()[i] == s[i]);
        }
        lemma_filter_keeps_all(s.drop_last(), p);
        assert(p(s[s.len() - 1]));
        assert(s.drop_last().push(s.last()) =~= s);
    }
}

impl ChatMessageRepository {
    /// Connected repositories hold the complete registry; others hold none.
    pub open spec fn wf(self) -> bool {
        if self.client is Some {
            registry_complete(self.statements@)
        } else {
            self.statements@.len() == 0
        }
    }

    /// A repository for the `db` section of `config`; nothing is opened yet.
    pub fn new(config: &Config) -> (r: Result<ChatMessageRepository, Error>)
        ensures
            descriptor_outcome(
                section_entries(config.sections@, "db"@),
                match r {
                    Ok(repo) => Ok(repo.connection_string),
                    Err(e) => Err(e),
                },
            ),
            r matches Ok(repo) ==> repo.client is None && repo.wf(),
    {
        let connection_string = config.db()?;
        Ok(ChatMessageRepository { connection_string, client: None, statements: Vec::new() })
    }

    /// The connection string to open the connection with.
    pub fn connection_target(&self) -> (r: String)
        ensures
            r@ == self.connection_string.render(),
    {
        self.connection_string.as_string()
    }

    /// Whether the connection is open.
    pub fn is_connected(&self) -> (r: bool)
        ensures
            r == self.client is Some,
    {
        self.client.is_some()
    }

    /// Takes in a freshly opened connection and registers the statements.
    /// A repository connects once: a second connection is refused.
    pub fn attach_client(&mut self, client: tokio_postgres::Client) -> (r: Result<(), Error>)
        requires
            old(self).wf(),
        ensures
            final(self).wf(),
            final(self).connection_string == old(self).connection_string,
            match r {
                Ok(()) => old(self).client is None && final(self).client == Some(client)
                    && forall|i: int|
                    0 <= i < final(self).statements@.len()
                        ==> #[trigger] final(self).statements@[i].prepared is None,
                Err(e) => old(self).client is Some && e is Db && error_cause(e)
                    == ERR_ALREADY_CONNECTED@ && *final(self) == *old(self),
            },
    {
        if self.client.is_some() {
            return Err(Error::Db(String::from_str(ERR_ALREADY_CONNECTED)));
        }
        self.client = Some(client);
        self.prepare_statements();
        Ok(())
    }

    /// Registers every operation, uncompiled.
    fn prepare_statements(&mut self)
        ensures
            final(self).client == old(self).client,
            final(self).connection_string == old(self).connection_string,
            registry_complete(final(self).statements@),
            forall|i: int|
                0 <= i < final(self).statements@.len()
                    ==> #[trigger] final(self).statements@[i].prepared is None,
    {
        let mut statements: Vec<RepoStatement> = Vec::new();
        statements.push(RepoStatement::new(ChatRepoStatement::Insert));
        statements.push(RepoStatement::new(ChatRepoStatement::GetByChannel));
        statements.push(RepoStatement::new(ChatRepoStatement::GetByUser));
        self.statements = statements;
    }

    /// What executing operation `k` uses now.
    pub fn select(&self, k: ChatRepoStatement) -> (r: StatementRef<'_>)
        ensures
            selects(self.statements@, k, r),
    {
        let mut i: usize = 0;
        assert(self.statements@.skip(0) =~= self.statements@);
        while i < self.statements.len()
            invariant
                i <= self.statements@.len(),
                registered(self.statements@, k) == registered(
                    self.statements@.skip(i as int),
                    k,
                ),
            decreases self.statements@.len() - i,
        {
            assert(self.statements@.skip(i as int).drop_first() =~= self.statements@.skip(
                i as int + 1,
            ));
            if self.statements[i].kind == k {
                return self.statements[i].to_statement();
            }
            i = i + 1;
        }
        StatementRef::Raw(k.as_string())
    }

    /// The call that stores `message`.
    pub fn add_message_call(&self, message: &ChatMessage) -> (r: Result<BoundStatement<'_>, Error>)
        ensures
            r is Ok <==> self.client is Some,
            match r {
                Ok(c) => self.client == Some(*c.client) && selects(
                    self.statements@,
                    ChatRepoStatement::Insert,
                    c.target,
                ) && insert_params(c.params@, *message) && param_types(c.params@)
                    == statement_types(ChatRepoStatement::Insert),
                Err(e) => e is Db && error_cause(e) == ERR_NOT_CONNECTED@,
            },
    {
        let client = match &self.client {
            Some(c) => c,
            None => {
                return Err(Error::Db(String::from_str(ERR_NOT_CONNECTED)));
            },
        };
        let mut params: Vec<ParamValue> = Vec::new();
        params.push(ParamValue::Text(message.text.clone()));
        params.push(ParamValue::Text(message.channel.clone()));
        params.push(ParamValue::Text(message.username.clone()));
        params.push(ParamValue::TimestampTz(message.timestamp));
        assert(param_types(params@) =~= statement_types(ChatRepoStatement::Insert));
        Ok(BoundStatement { client, target: self.select(ChatRepoStatement::Insert), params })
    }

    /// The call that reads the newest `num_to_get` messages of `channel`.
    pub fn channel_messages_call(&self, channel: &str, num_to_get: i64) -> (r: Result<
        BoundStatement<'_>,
        Error,
    >)
        ensures
            r is Ok <==> self.client is Some,
            match r {
                Ok(c) => self.client == Some(*c.client) && selects(
                    self.statements@,
                    ChatRepoStatement::GetByChannel,
                    c.target,
                ) && c.params@.len() == 2 && text_param(c.params@[0], channel@) && c.params@[1]
                    == ParamValue::Int8(num_to_get) && param_types(c.params@) == statement_types(
                    ChatRepoStatement::GetByChannel,
                ),
                Err(e) => e is Db && error_cause(e) == ERR_NOT_CONNECTED@,
            },
    {
        let client = match &self.client {
            Some(c) => c,
            None => {
                return Err(Error::Db(String::from_str(ERR_NOT_CONNECTED)));
            },
        };
        let mut params: Vec<ParamValue> = Vec::new();
        params.push(ParamValue::Text(String::from_str(channel)));
        params.push(ParamValue::Int8(num_to_get));
        assert(param_types(params@) =~= statement_types(ChatRepoStatement::GetByChannel));
        Ok(BoundStatement { client, target: self.select(ChatRepoStatement::GetByChannel), params })
    }

    /// The call that reads every message of `username`.
    pub fn user_messages_call(&self, username: &str) -> (r: Result<BoundStatement<'_>, Error>)
        ensures
            r is Ok <==> self.client is Some,
            match r {
                Ok(c) => self.client == Some(*c.client) && selects(
                    self.statements@,
                    ChatRepoStatement::GetByUser,
                    c.target,
                ) && c.params@.len() == 1 && text_param(c.params@[0], username@) && param_types(
                    c.params@,
                ) == statement_types(ChatRepoStatement::GetByUser),
                Err(e) => e is Db && error_cause(e) == ERR_NOT_CONNECTED@,
            },
    {
        let client = match &self.client {
            Some(c) => c,
            None => {
                return Err(Error::Db(String::from_str(ERR_NOT_CONNECTED)));
            },
        };
        let mut params: Vec<ParamValue> = Vec::new();
        params.push(ParamValue::Text(String::from_str(username)));
        assert(param_types(params@) =~= statement_types(ChatRepoStatement::GetByUser));
        Ok(BoundStatement { client, target: self.select(ChatRepoStatement::GetByUser), params })
    }
    /// The messages that a channel query returns: the rows of `channel`, in
    /// the server's order, at most `num_to_get` of them.
    pub fn finish_channel_query(channel: &str, num_to_get: i64, rows: &Vec<ChatMessage>) -> (r:
        Vec<ChatMessage>)
        ensures
            r@ == channel_selection(rows@, channel@, num_to_get),
    {
        let wanted = String::from_str(channel);
        let ghost p = in_channel(channel@);
        let mut kept: Vec<ChatMessage> = Vec::new();
        let mut i: usize = 0;
        while i < rows.len()
            invariant
                i <= rows@.len(),
                wanted@ == channel@,
                p == in_channel(channel@),
                kept@ == rows@.take(i as int).filter(p),
            decreases rows@.len() - i,
        {
            proof {
                let next = rows@.take(i as int + 1);
                assert(next.drop_last() =~= rows@.take(i as int));
                assert(next.last() == rows@[i as int]);
                reveal(Seq::filter);
                assert(next.filter(p) == if p(rows@[i as int]) {
                    rows@.take(i as int).filter(p).push(rows@[i as int])
                } else {
                    rows@.take(i as int).filter(p)
                });
            }
            if rows[i].channel == wanted {
                kept.push(rows[i].duplicate());
            }
            i = i + 1;
        }
        assert(rows@.take(rows@.len() as int) =~= rows@);
        let keep: usize = if num_to_get <= 0 {
            0
        } else if (num_to_get as u64) < (kept.len() as u64) {
            num_to_get as usize
        } else {
            kept.len()
        };
        kept.truncate(keep);
        assert(kept@ =~= channel_selection(rows@, channel@, num_to_get));
        kept
    }

    /// The stored message that an insertion hands back: the first row the
    /// server returned; an error when it returned none.
    pub fn finish_insert(rows: &Vec<ChatMessage>) -> (r: Result<ChatMessage, Error>)
        ensures
            rows@.len() > 0 ==> r == Ok::<ChatMessage, Error>(rows@[0]),
            rows@.len() == 0 ==> (r matches Err(e) && e is Db && error_cause(e)
                == ERR_NO_STORED_ROW@),
    {
        if rows.len() > 0 {
            Ok(rows[0].duplicate())
        } else {
            Err(Error::Db(String::from_str(ERR_NO_STORED_ROW)))
        }
    }

    /// The messages that a user query returns: the rows of `username`, in the
    /// server's order.
    pub fn finish_user_query(username: &str, rows: &Vec<ChatMessage>) -> (r: Vec<ChatMessage>)
        ensures
            r@ == user_selection(rows@, username@),
    {
        let wanted = String::from_str(username);
        let ghost p = by_user(username@);
        let mut kept: Vec<ChatMessage> = Vec::new();
        let mut i: usize = 0;
        while i < rows.len()
            invariant
                i <= rows@.len(),
                wanted@ == username@,
                p == by_user(username@),
                kept@ == rows@.take(i as int).filter(p),
            decreases rows@.len() - i,
        {
            proof {
                let next = rows@.take(i as int + 1);
                assert(next.drop_last() =~= rows@.take(i as int));
                assert(next.last() == rows@[i as int]);
                reveal(Seq::filter);
                assert(next.filter(p) == if p(rows@[i as int]) {
                    rows@.take(i as int).filter(p).push(rows@[i as int])
                } else {
                    rows@.take(i as int).filter(p)
                });
            }
            if rows[i].username == wanted {
                kept.push(rows[i].duplicate());
            }
            i = i + 1;
        }
        assert(rows@.take(rows@.len() as int) =~= rows@);
        kept
    }
}

} // verus!
