//! Building a single-statement request: the statement text and options,
//! positional bindings with their wire keys, and the request URLs.

use vstd::prelude::*;

use crate::bindings::BindingValue;
use crate::numstr::{spec_udec, u128_to_dec};

verus! {

/// One bound parameter as it goes on the wire: a type tag and the encoded
/// value string.
#[derive(Clone, Debug)]
pub struct Binding {
    pub value_type: String,
    pub value: String,
}

/// A single-statement request body. Bindings are positional: the wire key
/// of `bindings[i]` is the decimal rendering of `i + 1`.
#[derive(Clone, Debug)]
pub struct SnowflakeQuery {
    pub statement: String,
    pub timeout: Option<u32>,
    pub database: String,
    pub warehouse: Option<String>,
    pub role: Option<String>,
    pub bindings: Vec<Binding>,
}

/// The wire key of the binding at `index`: 1-based position in decimal.
pub fn binding_key(index: usize) -> (r: String)
    ensures
        r@ == spec_udec((index + 1) as nat),
{
    u128_to_dec((index as u128) + 1)
}

impl SnowflakeQuery {
    pub fn new(statement: String, database: String) -> (r: Self)
        ensures
            r.statement == statement,
            r.timeout is None,
            r.database == database,
            r.warehouse is None,
            r.role is None,
            r.bindings@ == Seq::<Binding>::empty(),
    {
        SnowflakeQuery {
            statement,
            timeout: None,
            database,
            warehouse: None,
            role: None,
            bindings: Vec::new(),
        }
    }

    pub fn with_timeout(self, timeout: u32) -> (r: Self)
        ensures
            r == (SnowflakeQuery { timeout: Some(timeout), ..self }),
    {
        SnowflakeQuery { timeout: Some(timeout), ..self }
    }

    pub fn with_role(self, role: String) -> (r: Self)
        ensures
            r == (SnowflakeQuery { role: Some(role), ..self }),
    {
        SnowflakeQuery { role: Some(role), ..self }
    }

    pub fn with_warehouse(self, warehouse: String) -> (r: Self)
        ensures
            r == (SnowflakeQuery { warehouse: Some(warehouse), ..self }),
    {
        SnowflakeQuery { warehouse: Some(warehouse), ..self }
    }

    /// Appends one binding: the value's type tag and canonical encoding
    /// take the next position.
    pub fn add_binding(self, value: BindingValue) -> (r: Self)
        requires
            value.well_formed(),
        ensures
            r.bindings@.len() == self.bindings@.len() + 1,
            r.bindings@.subrange(0, self.bindings@.len() as int) == self.bindings@,
            r.bindings@.last().value_type@ == value.spec_kind().spec_tag(),
            r.bindings@.last().value@ == value.spec_encoding(),
            r.statement == self.statement,
            r.timeout == self.timeout,
            r.database == self.database,
            r.warehouse == self.warehouse,
            r.role == self.role,
    {
        let tag = value.kind().tag_str();
        let encoded = value.encode();
        let mut r = self;
        r.bindings.push(Binding { value_type: tag, value: encoded });
        proof {
            assert(r.bindings@.subrange(0, r.bindings@.len() - 1) =~= r.bindings@.drop_last());
        }
        r
    }
}

/// Relies on `uuid`: `Uuid::new_v4` and its `Display` impl, which renders
/// the 36-character hyphenated form. The id is random, so only its length
/// is promised.
#[verifier::external_body]
pub fn new_request_id() -> (r: String)
    ensures
        r@.len() == 36,
{
    uuid::Uuid::new_v4().to_string()
}

/// The base URL of an account's SQL endpoint.
pub fn host_base_url(account: &str) -> (r: String)
    ensures
        r@ == "https://"@ + account@ + ".snowflakecomputing.com/api/v2/"@,
{
    let mut s = "https://".to_owned();
    s.append(account);
    s.append(".snowflakecomputing.com/api/v2/");
    s
}

/// The URL a statement is submitted to, tagged with the request id.
pub fn statements_url(host: &str, request_id: &str) -> (r: String)
    ensures
        r@ == host@ + "statements?nullable=false&requestId="@ + request_id@,
{
    let mut s = host.to_owned();
    s.append("statements?nullable=false&requestId=");
    s.append(request_id);
    s
}

/// The URL that polls one statement handle for its status or result.
pub fn status_url(host: &str, handle: &str) -> (r: String)
    ensures
        r@ == host@ + "statements/"@ + handle@ + "?nullable=false"@,
{
    let mut s = host.to_owned();
    s.append("statements/");
    s.append(handle);
    s.append("?nullable=false");
    s
}

/// The URL that fetches one partition of a statement's result.
pub fn partition_url(host: &str, handle: &str, index: usize) -> (r: String)
    ensures
        r@ == host@ + "statements/"@ + handle@ + "?partition="@ + spec_udec(index as nat),
{
    let mut s = host.to_owned();
    s.append("statements/");
    s.append(handle);
    s.append("?partition=");
    s.append(u128_to_dec(index as u128).as_str());
    s
}

/// The URL that cancels one statement.
pub fn cancel_url(host: &str, handle: &str) -> (r: String)
    ensures
        r@ == host@ + "statements/"@ + handle@ + "/cancel"@,
{
    let mut s = host.to_owned();
    s.append("statements/");
    s.append(handle);
    s.append("/cancel");
    s
}

/// A database-scoped entry point: every statement built from it runs
/// against this host and database.
#[derive(Clone, Debug)]
pub struct SnowflakeExecutor {
    pub host: String,
    pub database: String,
}

impl SnowflakeExecutor {
    pub fn new(host: String, database: String) -> (r: Self)
        ensures
            r.host == host,
            r.database == database,
    {
        SnowflakeExecutor { host, database }
    }

    /// Starts a single-statement query: a fresh request body against this
    /// database, tagged with a fresh request id.
    pub fn sql(self, statement: String) -> (r: PendingQuery)
        ensures
            r.host == self.host,
            r.query.statement == statement,
            r.query.database == self.database,
            r.query.timeout is None,
            r.query.warehouse is None,
            r.query.role is None,
            r.query.bindings@ == Seq::<Binding>::empty(),
            r.request_id@.len() == 36,
    {
        PendingQuery {
            host: self.host,
            query: SnowflakeQuery::new(statement, self.database),
            request_id: new_request_id(),
        }
    }
}

/// A built but not yet submitted query: the caller sends `query` as the
/// body of a POST to `get_url()`.
#[derive(Clone, Debug)]
pub struct PendingQuery {
    pub host: String,
    pub query: SnowflakeQuery,
    pub request_id: String,
}

impl PendingQuery {
    pub fn with_timeout(self, timeout: u32) -> (r: Self)
        ensures
            r.query == (SnowflakeQuery { timeout: Some(timeout), ..self.query }),
            r.host == self.host,
            r.request_id == self.request_id,
    {
        PendingQuery { query: self.query.with_timeout(timeout), ..self }
    }

    pub fn with_role(self, role: String) -> (r: Self)
        ensures
            r.query == (SnowflakeQuery { role: Some(role), ..self.query }),
            r.host == self.host,
            r.request_id == self.request_id,
    {
        PendingQuery { query: self.query.with_role(role), ..self }
    }

    pub fn with_warehouse(self, warehouse: String) -> (r: Self)
        ensures
            r.query == (SnowflakeQuery { warehouse: Some(warehouse), ..self.query }),
            r.host == self.host,
            r.request_id == self.request_id,
    {
        PendingQuery { query: self.query.with_warehouse(warehouse), ..self }
    }

    /// Appends one binding to the request body.
    pub fn add_binding(self, value: BindingValue) -> (r: Self)
        requires
            value.well_formed(),
        ensures
            r.query.bindings@.len() == self.query.bindings@.len() + 1,
            r.query.bindings@.subrange(0, self.query.bindings@.len() as int)
                == self.query.bindings@,
            r.query.bindings@.last().value_type@ == value.spec_kind().spec_tag(),
            r.query.bindings@.last().value@ == value.spec_encoding(),
            r.query.statement == self.query.statement,
            r.query.timeout == self.query.timeout,
            r.query.database == self.query.database,
            r.query.warehouse == self.query.warehouse,
            r.query.role == self.query.role,
            r.host == self.host,
            r.request_id == self.request_id,
    {
        PendingQuery { query: self.query.add_binding(value), ..self }
    }

    pub fn get_url(&self) -> (r: String)
        ensures
            r@ == self.host@ + "statements?nullable=false&requestId="@ + self.request_id@,
    {
        statements_url(self.host.as_str(), self.request_id.as_str())
    }

    pub fn get_partition_url(&self, handle: &str, index: usize) -> (r: String)
        ensures
            r@ == self.host@ + "statements/"@ + handle@ + "?partition="@ + spec_udec(index as nat),
    {
        partition_url(self.host.as_str(), handle, index)
    }
}

} // verus!
