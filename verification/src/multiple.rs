//! The multi-statement batch: collecting statement texts with their
//! repetition counts, concatenating them for submission, and draining the
//! pending handle set as statements complete.

use vstd::prelude::*;

use crate::numstr::spec_udec;
use crate::request::{new_request_id, statements_url, PendingQuery, SnowflakeQuery};
use crate::response::{QueryFailureStatus, QueryStatus, SnowflakeSqlResponse, StatementHandle};
use crate::strutil::{join_with_spaces, spec_join_sp};

verus! {

/// A batch of statements under construction, bound to one host, database
/// and request id.
#[derive(Clone, Debug)]
pub struct MultipleSnowflakeSQL {
    pub database: String,
    pub host: String,
    pub statement: Vec<String>,
    pub additional_statements_count: usize,
    pub request_id: String,
}

impl crate::request::SnowflakeExecutor {
    /// Starts an empty batch against this host and database.
    pub fn multiple_statements(self) -> (r: MultipleSnowflakeSQL)
        ensures
            r.database == self.database,
            r.host == self.host,
            r.statement@ == Seq::<String>::empty(),
            r.additional_statements_count == 0,
            r.request_id@.len() == 36,
    {
        MultipleSnowflakeSQL {
            database: self.database,
            host: self.host,
            statement: Vec::new(),
            additional_statements_count: 0,
            request_id: new_request_id(),
        }
    }
}

impl MultipleSnowflakeSQL {
    /// The number of logical statements pushed so far.
    pub open spec fn spec_total_count(self) -> int {
        self.statement@.len() + self.additional_statements_count
    }

    /// Adds one statement text holding a single statement.
    pub fn add_sql(self, sql: String) -> (r: Self)
        ensures
            r.statement@ == self.statement@ + seq![sql],
            r.additional_statements_count == self.additional_statements_count,
            r.database == self.database,
            r.host == self.host,
            r.request_id == self.request_id,
            r.spec_total_count() == self.spec_total_count() + 1,
    {
        let mut r = self;
        r.statement.push(sql);
        r
    }

    /// Adds one statement text holding `count` semicolon-terminated
    /// statements: the text is pushed once and the extra `count - 1`
    /// statements only raise the logical count.
    pub fn add_multiple_sql(self, count: usize, sql: String) -> (r: Self)
        requires
            count >= 1,
            self.additional_statements_count + count - 1 <= usize::MAX,
        ensures
            r.statement@ == self.statement@ + seq![sql],
            r.additional_statements_count == self.additional_statements_count + count - 1,
            r.database == self.database,
            r.host == self.host,
            r.request_id == self.request_id,
            r.spec_total_count() == self.spec_total_count() + count,
    {
        let mut r = self;
        r.additional_statements_count = r.additional_statements_count + (count - 1);
        r.statement.push(sql);
        r
    }

    /// Closes the batch: a single pushed statement becomes an ordinary
    /// single-statement query, anything else a multi-statement body.
    pub fn finish_sql(self) -> (r: SnowflakeSQLStatementType)
        requires
            self.statement@.len() >= 1,
            self.spec_total_count() <= usize::MAX,
        ensures
            ({
                if self.spec_total_count() == 1 {
                    r matches SnowflakeSQLStatementType::Single(q) && q.host == self.host
                        && q.request_id == self.request_id && q.query.statement
                        == self.statement@[0] && q.query.database == self.database
                        && q.query.timeout is None && q.query.role is None
                        && q.query.warehouse is None && q.query.bindings@.len() == 0
                } else {
                    r matches SnowflakeSQLStatementType::Multiple(m) && m.statement
                        == self.statement && m.additional_statements_count
                        == self.additional_statements_count && m.host == self.host && m.request_id
                        == self.request_id && m.database == self.database && m.timeout is None
                        && m.role is None && m.warehouse is None
                }
            }),
    {
        let count = self.statement.len() + self.additional_statements_count;
        if count == 1 {
            let mut statements = self.statement;
            let stmt = match statements.pop() {
                Some(s) => s,
                None => String::new(),
            };
            SnowflakeSQLStatementType::Single(PendingQuery {
                host: self.host,
                query: SnowflakeQuery::new(stmt, self.database),
                request_id: self.request_id,
            })
        } else {
            SnowflakeSQLStatementType::Multiple(MultipleSnowflakeExecutorSQLJSON {
                statement: self.statement,
                additional_statements_count: self.additional_statements_count,
                host: self.host,
                request_id: self.request_id,
                timeout: None,
                database: self.database,
                warehouse: None,
                role: None,
            })
        }
    }
}

/// What a closed batch turned into.
pub enum SnowflakeSQLStatementType {
    Single(PendingQuery),
    Multiple(MultipleSnowflakeExecutorSQLJSON),
}

/// A closed multi-statement body, ready to submit: the caller sends the
/// concatenated statement and the logical count as one request.
#[derive(Clone, Debug)]
pub struct MultipleSnowflakeExecutorSQLJSON {
    pub statement: Vec<String>,
    pub additional_statements_count: usize,
    pub host: String,
    pub request_id: String,
    pub timeout: Option<u32>,
    pub database: String,
    pub warehouse: Option<String>,
    pub role: Option<String>,
}

impl MultipleSnowflakeExecutorSQLJSON {
    pub fn with_timeout(self, timeout: u32) -> (r: Self)
        ensures
            r == (MultipleSnowflakeExecutorSQLJSON { timeout: Some(timeout), ..self }),
    {
        MultipleSnowflakeExecutorSQLJSON { timeout: Some(timeout), ..self }
    }

    pub fn with_warehouse(self, warehouse: String) -> (r: Self)
        ensures
            r == (MultipleSnowflakeExecutorSQLJSON { warehouse: Some(warehouse), ..self }),
    {
        MultipleSnowflakeExecutorSQLJSON { warehouse: Some(warehouse), ..self }
    }

    pub fn with_role(self, role: String) -> (r: Self)
        ensures
            r == (MultipleSnowflakeExecutorSQLJSON { role: Some(role), ..self }),
    {
        MultipleSnowflakeExecutorSQLJSON { role: Some(role), ..self }
    }

    /// The submission body: the pushed texts joined by single spaces, and
    /// the logical statement count, which the service uses to pre-allocate
    /// one handle per statement. The two must match.
    pub fn get_statement(&self) -> (r: (String, usize))
        requires
            self.statement@.len() + self.additional_statements_count <= usize::MAX,
        ensures
            r.0@ == spec_join_sp(self.statement@.map_values(|s: String| s@)),
            r.1 == self.statement@.len() + self.additional_statements_count,
    {
        let joined = join_with_spaces(&self.statement);
        let count = self.statement.len() + self.additional_statements_count;
        (joined, count)
    }

    pub fn get_url(&self) -> (r: String)
        ensures
            r@ == self.host@ + "statements?nullable=false&requestId="@ + self.request_id@,
    {
        statements_url(self.host.as_str(), self.request_id.as_str())
    }
}

/// What one status poll of a pending handle produced, with the body
/// already classified and parsed.
#[derive(Debug)]
pub enum StatementOutcome {
    /// HTTP 200 and the body parsed as a complete result.
    Completed(SnowflakeSqlResponse),
    /// HTTP 202 or 408 and the body parsed as a running status.
    InProgress(QueryStatus),
    /// HTTP 422 and the body parsed as a terminal failure.
    Failed(QueryFailureStatus),
    /// HTTP 429, 503 or 504: retryable, carrying the code.
    RateLimited(u16),
    /// Any other status code: terminal, carrying the code.
    Unknown(u16),
    /// The request could not be sent or its body not read or parsed.
    Transport(String),
}

/// A handle stays pending exactly when its poll said "still running" or
/// "rate limited".
pub open spec fn spec_outcome_retained(o: StatementOutcome) -> bool {
    o is InProgress || o is RateLimited
}

/// The handles whose outcomes keep them pending, in their original order.
pub open spec fn spec_retained(
    handles: Seq<StatementHandle>,
    outcomes: Seq<StatementOutcome>,
) -> Seq<StatementHandle>
    decreases handles.len(),
{
    if handles.len() == 0 {
        Seq::empty()
    } else if spec_outcome_retained(outcomes.last()) {
        spec_retained(handles.drop_last(), outcomes.drop_last()) + seq![handles.last()]
    } else {
        spec_retained(handles.drop_last(), outcomes.drop_last())
    }
}

fn outcome_retained(o: &StatementOutcome) -> (r: bool)
    ensures
        r == spec_outcome_retained(*o),
{
    match o {
        StatementOutcome::InProgress(_) => true,
        StatementOutcome::RateLimited(_) => true,
        _ => false,
    }
}

/// The answer to a multi-statement submission: the concatenated statement
/// it ran, and the handles not yet drained, in submission order.
#[derive(Debug)]
pub struct MultipleSnowflakeSQLResponse {
    pub host: String,
    pub concatenated_statement: String,
    pub statement_handles: Vec<StatementHandle>,
}

impl MultipleSnowflakeSQLResponse {
    /// All the statements concatenated into the one body that was
    /// submitted; service errors refer to positions within it.
    pub fn concatenated_statement(&self) -> (r: &str)
        ensures
            r@ == self.concatenated_statement@,
    {
        self.concatenated_statement.as_str()
    }

    /// Whether every statement has reached a terminal state.
    pub fn are_all_complete(&self) -> (r: bool)
        ensures
            r == (self.statement_handles@.len() == 0),
    {
        self.statement_handles.is_empty()
    }

    /// The handles still pending, in submission order.
    pub fn unfinished_statements(&self) -> (r: &[StatementHandle])
        ensures
            r@ == self.statement_handles@,
    {
        self.statement_handles.as_slice()
    }

    /// One drain round. `outcomes[i]` is what polling pending handle `i`
    /// produced. Every outcome is returned, paired with its handle and in
    /// polling order; the pending set keeps exactly the handles whose
    /// outcome was "in progress" or "rate limited", in order. Safe to call
    /// round after round until `are_all_complete`.
    pub fn complete(&mut self, outcomes: Vec<StatementOutcome>) -> (r: Vec<
        (StatementHandle, StatementOutcome),
    >)
        requires
            outcomes@.len() == old(self).statement_handles@.len(),
        ensures
            r@.len() == old(self).statement_handles@.len(),
            forall|i: int|
                0 <= i < r@.len() ==> #[trigger] r@[i].0 == old(self).statement_handles@[i],
            forall|i: int| 0 <= i < r@.len() ==> #[trigger] r@[i].1 == outcomes@[i],
            final(self).statement_handles@ == spec_retained(
                old(self).statement_handles@,
                outcomes@,
            ),
            final(self).host == old(self).host,
            final(self).concatenated_statement == old(self).concatenated_statement,
    {
        let ghost orig_handles = self.statement_handles@;
        let ghost orig_outcomes = outcomes@;
        let mut outcomes = outcomes;
        let n = self.statement_handles.len();
        let mut results: Vec<(StatementHandle, StatementOutcome)> = Vec::new();
        let mut pending: Vec<StatementHandle> = Vec::new();
        let mut i: usize = 0;
        while i < n
            invariant
                0 <= i <= n,
                n == self.statement_handles@.len(),
                self.statement_handles@ == orig_handles,
                outcomes@ == orig_outcomes.subrange(i as int, n as int),
                orig_outcomes.len() == n,
                results@.len() == i,
                forall|j: int| 0 <= j < i ==> #[trigger] results@[j].0 == orig_handles[j],
                forall|j: int| 0 <= j < i ==> #[trigger] results@[j].1 == orig_outcomes[j],
                pending@ == spec_retained(
                    orig_handles.subrange(0, i as int),
                    orig_outcomes.subrange(0, i as int),
                ),
            decreases n - i,
        {
            let h = self.statement_handles[i].duplicate();
            let o = outcomes.remove(0);
            proof {
                assert(o == orig_outcomes[i as int]);
                assert(outcomes@ =~= orig_outcomes.subrange(i + 1 as int, n as int));
                let hpre = orig_handles.subrange(0, i + 1 as int);
                let opre = orig_outcomes.subrange(0, i + 1 as int);
                assert(hpre.drop_last() =~= orig_handles.subrange(0, i as int));
                assert(opre.drop_last() =~= orig_outcomes.subrange(0, i as int));
                assert(hpre.last() == orig_handles[i as int]);
                assert(opre.last() == orig_outcomes[i as int]);
            }
            if outcome_retained(&o) {
                pending.push(self.statement_handles[i].duplicate());
            }
            results.push((h, o));
            i += 1;
        }
        proof {
            assert(orig_handles.subrange(0, n as int) =~= orig_handles);
            assert(orig_outcomes.subrange(0, n as int) =~= orig_outcomes);
        }
        self.statement_handles = pending;
        results
    }
}

} // verus!
