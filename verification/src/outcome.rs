//! What the datastore and the authentication service hand back, and the
//! shapes in which it is written out.

use vstd::prelude::*;
use surrealdb::sql::Value;
use crate::error::Message;
use crate::session::AuthLevel;

verus! {

/// What kind of statement the engine ran. The engine tracks live queries by
/// it; clients never see it.
#[derive(Clone, Copy, Debug, PartialEq, Eq, Structural)]
pub enum QueryKind {
    Other,
    Live,
    Kill,
}

/// The outcome of one statement of a submission, as the engine reports it.
/// A statement that failed is a result like any other: the statements around
/// it keep theirs.
#[derive(Debug, PartialEq)]
pub struct Statement {
    /// How long the statement ran, in the engine's words.
    pub time: String,
    pub kind: QueryKind,
    /// The statement's value, or why it has none.
    pub result: Result<Value, String>,
}

/// The outcome of one statement as a client sees it.
#[derive(Debug, PartialEq)]
pub enum Entry {
    Success { time: String, result: Value },
    Failure { time: String, detail: String },
}

/// The body of a successful sign-in response.
#[derive(Debug, PartialEq, Eq)]
pub struct Success {
    pub code: u16,
    pub details: String,
    pub token: Option<String>,
}

/// What the authentication service grants on success.
#[derive(Debug, PartialEq, Eq)]
pub struct Grant {
    /// The level that the session has from now on.
    pub level: AuthLevel,
    /// The token that the client may present later, if one was issued.
    pub token: Option<String>,
}

/// What a dispatch produced.
#[derive(Debug, PartialEq)]
pub enum ExecutionResult {
    /// One outcome for each statement, in the order of the submission.
    Statements(Vec<Statement>),
    /// A sign-in that succeeded.
    Auth { token: Option<String> },
    /// Nothing to report.
    Empty,
}

/// A value that waits to be written in a structured codec.
#[derive(Debug, PartialEq)]
pub enum Document {
    /// Statements in their simplified shape.
    Entries(Vec<Entry>),
    /// Statements as the engine reported them.
    Statements(Vec<Statement>),
    /// The report of a sign-in.
    Success(Success),
    /// The report of a failure.
    Failure(Message),
}

/// The simplified shape of one statement: the kind is dropped, and a failure
/// keeps its words.
pub open spec fn simplified(statement: Statement) -> Entry {
    match statement.result {
        Ok(value) => Entry::Success { time: statement.time, result: value },
        Err(detail) => Entry::Failure { time: statement.time, detail },
    }
}

/// The simplified shape of a submission: one entry for each statement, in
/// the same order.
pub open spec fn simplified_all(statements: Seq<Statement>) -> Seq<Entry> {
    statements.map_values(|s: Statement| simplified(s))
}

impl Statement {
    /// The simplified shape of this statement.
    pub fn simplify(self) -> (entry: Entry)
        ensures
            entry == simplified(self),
    {
        match self.result {
            Ok(value) => Entry::Success { time: self.time, result: value },
            Err(detail) => Entry::Failure { time: self.time, detail },
        }
    }
}

impl Entry {
    /// The status word of the entry on the wire.
    pub fn status(&self) -> (word: &'static str)
        ensures
            word@ == if *self is Failure {
                "ERR"@
            } else {
                "OK"@
            },
    {
        match self {
            Entry::Success { .. } => "OK",
            Entry::Failure { .. } => "ERR",
        }
    }
}

impl Success {
    /// A success report that carries the issued token, if any.
    pub fn new(token: Option<String>) -> (s: Success)
        ensures
            s.code == 200,
            s.details@ == "Authentication succeeded"@,
            s.token == token,
    {
        Success { token, code: 200, details: "Authentication succeeded".to_owned() }
    }
}

/// Simplifies a submission: every statement gives one entry, successes and
/// failures alike, and the order is kept.
pub fn simplify(statements: Vec<Statement>) -> (entries: Vec<Entry>)
    ensures
        entries@ == simplified_all(statements@),
{
    let ghost all = statements@;
    let mut entries: Vec<Entry> = Vec::new();
    for statement in it: statements.into_iter()
        invariant
            it.seq() == all,
            entries@.len() == it.index(),
            forall|k: int| 0 <= k < entries@.len() ==> entries@[k] == simplified(all[k]),
    {
        entries.push(statement.simplify());
    }
    assert(entries@ =~= simplified_all(all));
    entries
}

} // verus!
