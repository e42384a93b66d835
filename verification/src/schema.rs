//! The tables of a database, and how documents are stored in them.
//!
//! From version 3.45 on the engine has a binary form of JSON. Where it is at hand
//! documents are stored in it, otherwise as text. Reading is the same for both.

use crate::errors::{ApiResult, ErrorView};
use crate::sql::{
    batch, batch_view, params1, query, query_view, reply_error, scalar_int, Reply, ReplyView,
    Statement, StatementView, Value, ValueView,
};
use crate::text::{concat2, concat3, parse_unsigned, parsed_unsigned, split, split_text};
use vstd::prelude::*;

verus! {

/// How documents are physically stored.
#[derive(Debug, Clone, Copy, PartialEq, Eq, Structural)]
pub enum DocStorage {
    Jsonb,
    TextJson,
}

/// The part of a version number at `i`; what is missing or no number counts as
/// zero.
pub open spec fn version_part(v: Seq<char>, i: int) -> nat {
    let parts = split(v, '.');
    if i < parts.len() {
        match parsed_unsigned(parts[i], u32::MAX as nat) {
            Some(n) => n,
            None => 0,
        }
    } else {
        0
    }
}

/// The version is `maj.min.patch` or later.
pub open spec fn version_reached(v: Seq<char>, maj: nat, min: nat, patch: nat) -> bool {
    let a = version_part(v, 0);
    let b = version_part(v, 1);
    let c = version_part(v, 2);
    a > maj || (a == maj && (b > min || (b == min && c >= patch)))
}

/// Reads one part of a version number.
fn part_of(parts: &Vec<String>, i: usize, Ghost(v): Ghost<Seq<char>>) -> (r: u64)
    requires
        crate::text::views(parts@) == split(v, '.'),
    ensures
        r == version_part(v, i as int),
{
    assert(parts@.len() == crate::text::views(parts@).len());
    if i < parts.len() {
        assert(split(v, '.')[i as int] == parts@[i as int]@);
        match parse_unsigned(parts[i].as_str(), u32::MAX as u64) {
            Some(n) => n,
            None => 0,
        }
    } else {
        0
    }
}

/// Whether the version `v` is `maj.min.patch` or later.
pub fn version_at_least(v: &str, maj: u32, min: u32, patch: u32) -> (r: bool)
    ensures
        r == version_reached(v@, maj as nat, min as nat, patch as nat),
{
    let parts = split_text(v, '.');
    let a: u64 = part_of(&parts, 0, Ghost(v@));
    let b: u64 = part_of(&parts, 1, Ghost(v@));
    let c: u64 = part_of(&parts, 2, Ghost(v@));
    a > maj as u64 || (a == maj as u64 && (b > min as u64 || (b == min as u64 && c
        >= patch as u64)))
}

/// Calls `rusqlite::Connection::open_in_memory` and asks the throwaway connection
/// for `sqlite_version()`; `None` when either fails. Which version the linked
/// engine has is a matter of the build, so nothing is claimed of it.
#[verifier::external_body]
fn engine_version() -> Option<String> {
    rusqlite::Connection::open_in_memory().and_then(
        |c| c.query_row("SELECT sqlite_version()", [], |r| r.get::<_, String>(0)),
    ).ok()
}

/// The storage mode for an engine version.
pub open spec fn storage_for(version: Option<Seq<char>>) -> DocStorage {
    match version {
        Some(v) => if version_reached(v, 3, 45, 0) {
            DocStorage::Jsonb
        } else {
            DocStorage::TextJson
        },
        None => DocStorage::TextJson,
    }
}

pub open spec fn column_type(s: DocStorage) -> Seq<char> {
    match s {
        DocStorage::Jsonb => "BLOB"@,
        DocStorage::TextJson => "TEXT"@,
    }
}

pub open spec fn store_function(s: DocStorage) -> Seq<char> {
    match s {
        DocStorage::Jsonb => "jsonb"@,
        DocStorage::TextJson => "json"@,
    }
}

pub open spec fn validity_check(s: DocStorage) -> Seq<char> {
    match s {
        DocStorage::Jsonb => "json_valid(doc, 8)"@,
        DocStorage::TextJson => "json_valid(doc)"@,
    }
}

impl DocStorage {
    /// The storage mode for an engine version; text where it is not known.
    pub fn for_version(version: Option<&str>) -> (r: DocStorage)
        ensures
            r == storage_for(
                match version {
                    Some(v) => Some(v@),
                    None => None,
                },
            ),
    {
        match version {
            Some(v) => if version_at_least(v, 3, 45, 0) {
                DocStorage::Jsonb
            } else {
                DocStorage::TextJson
            },
            None => DocStorage::TextJson,
        }
    }

    /// The storage mode for the engine that is linked in.
    pub fn detect() -> (r: DocStorage)
        ensures
            exists|version: Option<Seq<char>>| r == #[trigger] storage_for(version),
    {
        match engine_version() {
            Some(v) => DocStorage::for_version(Some(v.as_str())),
            None => DocStorage::for_version(None),
        }
    }

    /// The type of the column that holds documents.
    pub fn col_type(self) -> (r: &'static str)
        ensures
            r@ == column_type(self),
    {
        match self {
            DocStorage::Jsonb => "BLOB",
            DocStorage::TextJson => "TEXT",
        }
    }

    /// The SQL function that takes JSON text into the stored form.
    pub fn store_fn(self) -> (r: &'static str)
        ensures
            r@ == store_function(self),
    {
        match self {
            DocStorage::Jsonb => "jsonb",
            DocStorage::TextJson => "json",
        }
    }

    /// The condition that the stored form has to meet.
    pub fn check_clause(self) -> (r: &'static str)
        ensures
            r@ == validity_check(self),
    {
        match self {
            DocStorage::Jsonb => "json_valid(doc, 8)",
            DocStorage::TextJson => "json_valid(doc)",
        }
    }
}

// ---- Tables ----------------------------------------------------------------

pub open spec fn init_sql(storage: DocStorage) -> Seq<char> {
    "CREATE TABLE IF NOT EXISTS _changelog (seq INTEGER PRIMARY KEY, collection TEXT NOT NULL, op TEXT NOT NULL, doc_id TEXT NOT NULL, doc "@
        + column_type(storage)
        + ", ts INTEGER NOT NULL); CREATE TABLE IF NOT EXISTS _indexes (name TEXT PRIMARY KEY, collection TEXT NOT NULL, path TEXT NOT NULL, is_unique INTEGER NOT NULL);"@
}

/// Creates the internal tables of a database, where they are missing.
pub fn init_database(storage: DocStorage) -> (r: Statement)
    ensures
        r@ == batch_view(init_sql(storage)),
{
    let sql = concat3(
        "CREATE TABLE IF NOT EXISTS _changelog (seq INTEGER PRIMARY KEY, collection TEXT NOT NULL, op TEXT NOT NULL, doc_id TEXT NOT NULL, doc ",
        storage.col_type(),
        ", ts INTEGER NOT NULL); CREATE TABLE IF NOT EXISTS _indexes (name TEXT PRIMARY KEY, collection TEXT NOT NULL, path TEXT NOT NULL, is_unique INTEGER NOT NULL);",
    );
    batch(sql.as_str())
}

/// The table of a collection.
pub open spec fn table_of(collection: Seq<char>) -> Seq<char> {
    "coll_"@ + collection
}

pub open spec fn collection_sql(name: Seq<char>, storage: DocStorage) -> Seq<char> {
    "CREATE TABLE IF NOT EXISTS coll_"@ + name
        + " (rowid INTEGER PRIMARY KEY, id TEXT NOT NULL UNIQUE, doc "@ + column_type(storage)
        + " NOT NULL, created_at INTEGER NOT NULL, updated_at INTEGER NOT NULL, CHECK ("@
        + validity_check(storage) + "));"@
}

/// Creates the table of a collection, where it is missing. The name becomes part
/// of an identifier.
pub fn ensure_collection(name: &str, storage: DocStorage) -> (r: Statement)
    requires
        crate::ids::name_ok(name@),
    ensures
        r@ == batch_view(collection_sql(name@, storage)),
{
    let a = concat3(
        "CREATE TABLE IF NOT EXISTS coll_",
        name,
        " (rowid INTEGER PRIMARY KEY, id TEXT NOT NULL UNIQUE, doc ",
    );
    let b = concat3(
        a.as_str(),
        storage.col_type(),
        " NOT NULL, created_at INTEGER NOT NULL, updated_at INTEGER NOT NULL, CHECK (",
    );
    let sql = concat3(b.as_str(), storage.check_clause(), "));");
    batch(sql.as_str())
}

pub open spec fn exists_statement(name: Seq<char>) -> StatementView {
    query_view(
        "SELECT count(*) FROM sqlite_master WHERE type='table' AND name=?1"@,
        seq![ValueView::Text(table_of(name))],
    )
}

/// Asks whether a collection has a table, without creating it.
pub fn collection_exists(name: &str) -> (r: Statement)
    requires
        crate::ids::name_ok(name@),
    ensures
        r@ == exists_statement(name@),
{
    let table = concat2("coll_", name);
    query(
        "SELECT count(*) FROM sqlite_master WHERE type='table' AND name=?1",
        params1(Value::Text(table)),
    )
}

/// Whether the count that came back is above zero.
pub open spec fn presence(reply: ReplyView) -> Result<bool, ErrorView> {
    match scalar_int(reply) {
        Some(n) => Ok(n > 0),
        None => Err(reply_error(reply)),
    }
}

/// Whether the count that came back is above zero.
pub fn is_present(reply: &Reply) -> (r: ApiResult<bool>)
    ensures
        match r {
            Ok(b) => presence(reply@) == Ok::<bool, ErrorView>(b),
            Err(e) => presence(reply@) == Err::<bool, ErrorView>(e@),
        },
{
    match reply.scalar_int() {
        Some(n) => Ok(n > 0),
        None => Err(reply.error()),
    }
}

} // verus!
