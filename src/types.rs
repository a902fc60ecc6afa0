//! The records that the backend hands out and takes in.

use vstd::prelude::*;
use base64::Engine;
use crate::names::{ChangeLogName, IssueName, PlanName, RevisionVersion, SheetName};
use crate::text::str_eq;

verus! {

/// A point in time: whole seconds since the Unix epoch, and nanoseconds past them.
#[derive(Debug, Clone, Copy, PartialEq, Eq, Structural)]
pub struct Timestamp {
    pub seconds: i64,
    pub nanos: u32,
}

/// `a` is not later than `b`; times compare by seconds, then nanoseconds.
pub open spec fn time_le(a: Timestamp, b: Timestamp) -> bool {
    a.seconds < b.seconds || (a.seconds == b.seconds && a.nanos <= b.nanos)
}

impl Timestamp {
    /// Whether `self` is not later than `other`.
    pub fn le(&self, other: &Timestamp) -> (r: bool)
        ensures
            r == time_le(*self, *other),
    {
        self.seconds < other.seconds || (self.seconds == other.seconds && self.nanos <= other.nanos)
    }
}

/// The SQL text of a change.
#[derive(Debug, Clone, Default)]
pub struct StringStatement(pub String);

impl StringStatement {
    pub fn is_empty(&self) -> (r: bool)
        ensures
            r == (self.0@.len() == 0),
    {
        self.0.as_str().unicode_len() == 0
    }

    pub fn as_str(&self) -> (r: &str)
        ensures
            r@ == self.0@,
    {
        self.0.as_str()
    }
}

/// The standard, padded base64 text of the UTF-8 encoding of a string.
pub uninterp spec fn base64_standard(s: Seq<char>) -> Seq<char>;

/// Relies on `base64::engine::general_purpose::STANDARD.encode`: the padded
/// base64 text of the string's UTF-8 bytes, which depends on the string alone;
/// the empty string gives the empty text. Its one panic, on an output length
/// past `usize::MAX`, cannot happen for a string, which holds at most
/// `isize::MAX` bytes.
#[verifier::external_body]
fn encode_base64(s: &str) -> (r: String)
    ensures
        r@ == base64_standard(s@),
        s@.len() == 0 ==> r@.len() == 0,
{
    base64::engine::general_purpose::STANDARD.encode(s)
}

/// SQL text in base64, as a sheet carries it.
#[derive(Debug, Clone)]
pub struct EncodedStatement(pub String);

impl EncodedStatement {
    /// Encodes the statement's text.
    pub fn encode(statement: &StringStatement) -> (r: EncodedStatement)
        ensures
            r.0@ == base64_standard(statement.0@),
    {
        EncodedStatement(encode_base64(statement.0.as_str()))
    }
}

impl From<StringStatement> for EncodedStatement {
    fn from(statement: StringStatement) -> EncodedStatement {
        EncodedStatement::encode(&statement)
    }
}

impl vstd::std_specs::convert::FromSpecImpl<StringStatement> for EncodedStatement {
    open spec fn obeys_from_spec() -> bool {
        false
    }

    open spec fn from_spec(v: StringStatement) -> EncodedStatement {
        vstd::pervasive::arbitrary()
    }
}

#[derive(Debug, Clone)]
pub struct Database {
    pub name: String,
}

/// The databases that a change touched.
#[derive(Debug, Clone, Default)]
pub struct ChangedResource {
    pub databases: Vec<Database>,
}

pub open spec fn touches(r: ChangedResource, db: Seq<char>) -> bool {
    exists|i: int| 0 <= i < r.databases@.len() && (#[trigger] r.databases@[i]).name@ == db
}

impl ChangedResource {
    /// Whether the change touched the database `db`.
    pub fn touches(&self, db: &str) -> (r: bool)
        ensures
            r == touches(*self, db@),
    {
        let mut i: usize = 0;
        while i < self.databases.len()
            invariant
                i <= self.databases@.len(),
                forall|k: int| 0 <= k < i ==> (#[trigger] self.databases@[k]).name@ != db@,
            decreases self.databases@.len() - i,
        {
            if str_eq(self.databases[i].name.as_str(), db) {
                return true;
            }
            i = i + 1;
        }
        false
    }
}

/// The three kinds of recorded change.
#[derive(Debug, Clone, Copy, PartialEq, Eq, Structural)]
pub enum ChangelogType {
    Migrate,
    Baseline,
    Data,
}

pub open spec fn changelog_type_spec(s: Seq<char>) -> Option<ChangelogType> {
    if s == "MIGRATE"@ {
        Some(ChangelogType::Migrate)
    } else if s == "BASELINE"@ {
        Some(ChangelogType::Baseline)
    } else if s == "DATA"@ {
        Some(ChangelogType::Data)
    } else {
        None
    }
}

impl ChangelogType {
    /// Reads `MIGRATE`, `BASELINE` or `DATA`; anything else is refused.
    pub fn parse(s: &str) -> (r: Option<ChangelogType>)
        ensures
            r == changelog_type_spec(s@),
    {
        if str_eq(s, "MIGRATE") {
            Some(ChangelogType::Migrate)
        } else if str_eq(s, "BASELINE") {
            Some(ChangelogType::Baseline)
        } else if str_eq(s, "DATA") {
            Some(ChangelogType::Data)
        } else {
            None
        }
    }
}

/// One recorded change of a source database.
#[derive(Debug, Clone)]
pub struct Changelog {
    pub name: ChangeLogName,
    pub create_time: Timestamp,
    pub statement: StringStatement,
    pub issue: IssueName,
    pub changed_resources: ChangedResource,
    pub changelog_type: Option<ChangelogType>,
}

/// SQL dialects that a sheet can be tagged with.
#[derive(Debug, Clone, Copy, PartialEq, Eq, Structural)]
pub enum SQLDialect {
    EngineUnspecified,
    MySQL,
    PostgreSQL,
    ClickHouse,
    Postgres,
    Snowflake,
    SQLite,
    TiDB,
    MongoDB,
    Redis,
    Oracle,
    Spanner,
    MsSQL,
    Redshift,
    MariaDB,
    OceanBase,
    StarRocks,
    Doris,
    Hive,
    Elasticsearch,
    BigQuery,
    DynamoDB,
    Databricks,
    CockroachDB,
    CosmosDB,
    Trino,
    Cassandra,
}

/// A request to store a statement as a sheet.
#[derive(Debug, Clone)]
pub struct SheetRequest {
    pub sql_statement: EncodedStatement,
    pub engine: SQLDialect,
}

/// The checkpoint of a target database as the backend keeps it.
#[derive(Debug, Clone)]
pub struct Revision {
    pub create_time: Option<Timestamp>,
    pub version: Option<RevisionVersion>,
    pub sheet: String,
}

#[derive(Debug, Clone)]
pub struct Issue {
    pub name: IssueName,
}

#[derive(Debug)]
pub struct IssuesResponse {
    pub issues: Vec<Issue>,
}

#[derive(Debug, Clone, Copy, PartialEq, Eq, Structural)]
pub enum IssueStatus {
    Done,
    Open,
}

impl IssueStatus {
    /// The status as the backend's filters write it.
    pub fn as_str(&self) -> (r: &'static str)
        ensures
            *self == IssueStatus::Done ==> r@ == "DONE"@,
            *self == IssueStatus::Open ==> r@ == "OPEN"@,
    {
        match self {
            IssueStatus::Done => "DONE",
            IssueStatus::Open => "OPEN",
        }
    }
}

/// The verdict of the backend's statement check.
#[derive(Debug, Clone, Copy, PartialEq, Eq, Structural)]
pub enum SqlCheckStatus {
    Success,
    StatusUnspecified,
    Warning,
    Error,
}

/// A request to check a statement against a database.
#[derive(Debug, Clone)]
pub struct SqlCheckRequest {
    pub name: String,
    pub statement: String,
}

#[derive(Debug, Clone)]
pub struct LoginRequest {
    pub email: String,
    pub password: String,
    pub web: bool,
}

#[derive(Debug, Clone)]
pub struct LoginResponse {
    pub token: String,
}

#[derive(Debug, Clone)]
pub struct CreateIssueRequest {
    pub title: String,
    pub description: String,
    pub sql: String,
    pub rollback_sql: Option<String>,
}

#[derive(Debug, Clone)]
pub struct Project {
    pub title: String,
}

#[derive(Debug, Clone)]
pub struct Instance {
    pub name: String,
}

#[derive(Debug, Clone)]
pub struct PostSheetsResponse {
    pub name: SheetName,
}

#[derive(Debug, Clone)]
pub struct PostPlansResponse {
    pub name: PlanName,
}

#[derive(Debug, Clone)]
pub struct PostIssuesResponse {
    pub name: IssueName,
}

#[derive(Debug, Clone, Copy, PartialEq, Eq, Structural)]
pub enum ChangeDatabaseConfigType {
    Migrate,
}

/// What a plan step changes: a sheet applied to one database.
#[derive(Debug, Clone)]
pub struct ChangeDatabaseConfig {
    pub target: String,
    pub sheet: SheetName,
    pub config_type: ChangeDatabaseConfigType,
}

} // verus!
