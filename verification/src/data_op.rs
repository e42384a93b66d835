//! One write to one document, as a conversation with the database engine.
//!
//! [`DataOp`] holds how far the write has come. [`DataOp::statement`] is what to
//! run next, and [`DataOp::accept`] takes what the engine replied. The caller
//! has opened a savepoint before and resolves it afterwards.

use crate::errors::{internal_error, too_large_error, ApiError, ErrorView};
use crate::ids::name_ok;
use crate::json::{duplicate, Json, JsonView};
use crate::realtime::{op_name, ChangeEvent, EventView, Op};
use crate::schema::{
    collection_exists, collection_sql, ensure_collection, exists_statement, is_present, presence,
    store_function, DocStorage,
};
use crate::sql::{
    batch_view, changed_rows, execute, execute_view, failed, last_rowid, no_params, params1,
    params3, params4, params5, pragma_i64, pragma_reply, query, query_view, reply_error,
    scalar_int, text_value, Reply, ReplyView, Statement, StatementView, Value, ValueView,
};
use crate::text::concat3;
use vstd::prelude::*;

verus! {

/// A document as it is returned to clients.
#[derive(Debug)]
pub struct DocRecord {
    pub id: String,
    pub created_at: i64,
    pub updated_at: i64,
    pub doc: Json,
}

#[verifier::ext_equal]
pub struct RecordView {
    pub id: Seq<char>,
    pub created_at: i64,
    pub updated_at: i64,
    pub doc: JsonView,
}

impl View for DocRecord {
    type V = RecordView;

    open spec fn view(&self) -> RecordView {
        RecordView {
            id: self.id@,
            created_at: self.created_at,
            updated_at: self.updated_at,
            doc: self.doc@,
        }
    }
}

/// What a write is meant to do.
#[derive(Debug, Clone, Copy, PartialEq, Eq, Structural)]
pub enum OpKind {
    /// Insert a document under a fresh identifier.
    Create,
    /// Put a document in place of another, or insert it.
    Replace,
    /// Remove a document.
    Delete,
}

/// How far a write has come: each stage waits for the reply to its statement.
#[derive(Debug)]
pub enum OpStage {
    /// The number of pages, for the size limit.
    PageCount,
    /// The size of a page, with the number of pages known.
    PageSize(i64),
    /// The table of the collection is created where it is missing.
    Ensure,
    /// The time at which the document that is to be replaced was created.
    Lookup,
    Insert,
    /// The document exists since the given time.
    Update(i64),
    /// Whether the collection exists.
    Present,
    Remove,
    /// The change is recorded in the change log.
    Log { op: Op, created_at: i64 },
    /// The write succeeded, under the given number in the change log.
    Finished { op: Op, created_at: i64, seq: i64 },
    /// There was nothing to delete.
    Missing,
    Refused(ApiError),
}

pub enum StageView {
    PageCount,
    PageSize(i64),
    Ensure,
    Lookup,
    Insert,
    Update(i64),
    Present,
    Remove,
    Log { op: Op, created_at: i64 },
    Finished { op: Op, created_at: i64, seq: i64 },
    Missing,
    Refused(ErrorView),
}

impl View for OpStage {
    type V = StageView;

    open spec fn view(&self) -> StageView {
        match *self {
            OpStage::PageCount => StageView::PageCount,
            OpStage::PageSize(n) => StageView::PageSize(n),
            OpStage::Ensure => StageView::Ensure,
            OpStage::Lookup => StageView::Lookup,
            OpStage::Insert => StageView::Insert,
            OpStage::Update(c) => StageView::Update(c),
            OpStage::Present => StageView::Present,
            OpStage::Remove => StageView::Remove,
            OpStage::Log { op, created_at } => StageView::Log { op, created_at },
            OpStage::Finished { op, created_at, seq } => StageView::Finished {
                op,
                created_at,
                seq,
            },
            OpStage::Missing => StageView::Missing,
            OpStage::Refused(e) => StageView::Refused(e@),
        }
    }
}

/// A write in progress.
#[derive(Debug)]
pub struct DataOp {
    pub kind: OpKind,
    pub collection: String,
    /// The identifier of the document.
    pub id: String,
    /// The new document; not used by a delete.
    pub doc: Json,
    /// The new document as JSON text.
    pub doc_text: String,
    /// The time of the write.
    pub now: i64,
    pub storage: DocStorage,
    /// The size at which a database takes no more documents; 0 is no limit.
    pub max_bytes: u64,
    pub stage: OpStage,
}

#[verifier::ext_equal]
pub struct DataOpView {
    pub kind: OpKind,
    pub collection: Seq<char>,
    pub id: Seq<char>,
    pub doc: JsonView,
    pub doc_text: Seq<char>,
    pub now: i64,
    pub storage: DocStorage,
    pub max_bytes: u64,
    pub stage: StageView,
}

impl View for DataOp {
    type V = DataOpView;

    open spec fn view(&self) -> DataOpView {
        DataOpView {
            kind: self.kind,
            collection: self.collection@,
            id: self.id@,
            doc: self.doc@,
            doc_text: self.doc_text@,
            now: self.now,
            storage: self.storage,
            max_bytes: self.max_bytes,
            stage: self.stage@,
        }
    }
}

/// Where a write begins. Only a write that adds to the database is held to the
/// size limit.
pub open spec fn first_stage(kind: OpKind, max_bytes: u64) -> StageView {
    if kind == OpKind::Delete {
        StageView::Present
    } else if max_bytes == 0 {
        StageView::Ensure
    } else {
        StageView::PageCount
    }
}

/// The write is over.
pub open spec fn op_over(o: DataOpView) -> bool {
    o.stage is Finished || o.stage is Missing || o.stage is Refused
}

pub open spec fn at_least_zero(n: i64) -> int {
    if n < 0 {
        0
    } else {
        n as int
    }
}

pub open spec fn insert_sql(collection: Seq<char>, storage: DocStorage) -> Seq<char> {
    "INSERT INTO coll_"@ + collection + " (id, doc, created_at, updated_at) VALUES (?1, "@
        + store_function(storage) + "(?2), ?3, ?3)"@
}

pub open spec fn update_sql(collection: Seq<char>, storage: DocStorage) -> Seq<char> {
    "UPDATE coll_"@ + collection + " SET doc = "@ + store_function(storage)
        + "(?1), updated_at = ?2 WHERE id = ?3"@
}

/// The statement that records a change in the change log.
pub open spec fn log_statement(o: DataOpView, op: Op) -> StatementView {
    if op == Op::Delete {
        execute_view(
            "INSERT INTO _changelog (collection, op, doc_id, doc, ts) VALUES (?1, ?2, ?3, NULL, ?4)"@,
            seq![
                ValueView::Text(o.collection),
                ValueView::Text(op_name(op)),
                ValueView::Text(o.id),
                ValueView::Integer(o.now),
            ],
        )
    } else {
        execute_view(
            "INSERT INTO _changelog (collection, op, doc_id, doc, ts) VALUES (?1, ?2, ?3, "@
                + store_function(o.storage) + "(?4), ?5)"@,
            seq![
                ValueView::Text(o.collection),
                ValueView::Text(op_name(op)),
                ValueView::Text(o.id),
                ValueView::Text(o.doc_text),
                ValueView::Integer(o.now),
            ],
        )
    }
}

/// What the write asks of the engine next.
pub open spec fn op_statement(o: DataOpView) -> Option<StatementView> {
    match o.stage {
        StageView::PageCount => Some(query_view("PRAGMA page_count"@, Seq::empty())),
        StageView::PageSize(_) => Some(query_view("PRAGMA page_size"@, Seq::empty())),
        StageView::Ensure => Some(batch_view(collection_sql(o.collection, o.storage))),
        StageView::Lookup => Some(
            query_view(
                "SELECT created_at FROM coll_"@ + o.collection + " WHERE id = ?1"@,
                seq![ValueView::Text(o.id)],
            ),
        ),
        StageView::Insert => Some(
            execute_view(
                insert_sql(o.collection, o.storage),
                seq![
                    ValueView::Text(o.id),
                    ValueView::Text(o.doc_text),
                    ValueView::Integer(o.now),
                ],
            ),
        ),
        StageView::Update(_) => Some(
            execute_view(
                update_sql(o.collection, o.storage),
                seq![
                    ValueView::Text(o.doc_text),
                    ValueView::Integer(o.now),
                    ValueView::Text(o.id),
                ],
            ),
        ),
        StageView::Present => Some(exists_statement(o.collection)),
        StageView::Remove => Some(
            execute_view(
                "DELETE FROM coll_"@ + o.collection + " WHERE id = ?1"@,
                seq![ValueView::Text(o.id)],
            ),
        ),
        StageView::Log { op, .. } => Some(log_statement(o, op)),
        _ => None,
    }
}

/// Where a write goes on the reply to its statement.
pub open spec fn next_stage(o: DataOpView, r: ReplyView) -> StageView {
    match o.stage {
        StageView::PageCount => match pragma_reply(r) {
            Some(n) => StageView::PageSize(n),
            None => StageView::Refused(reply_error(r)),
        },
        StageView::PageSize(n) => match pragma_reply(r) {
            Some(m) => if at_least_zero(n) * at_least_zero(m) >= o.max_bytes {
                StageView::Refused(too_large_error("database size limit reached"@))
            } else {
                StageView::Ensure
            },
            None => StageView::Refused(reply_error(r)),
        },
        StageView::Ensure => if failed(r) {
            StageView::Refused(reply_error(r))
        } else if o.kind == OpKind::Replace {
            StageView::Lookup
        } else {
            StageView::Insert
        },
        // A lookup that fails counts as a document that is not there.
        StageView::Lookup => match scalar_int(r) {
            Some(created_at) => StageView::Update(created_at),
            None => StageView::Insert,
        },
        StageView::Insert => if failed(r) {
            StageView::Refused(reply_error(r))
        } else {
            StageView::Log { op: Op::Insert, created_at: o.now }
        },
        StageView::Update(created_at) => if failed(r) {
            StageView::Refused(reply_error(r))
        } else {
            StageView::Log { op: Op::Update, created_at }
        },
        StageView::Present => match presence(r) {
            Ok(true) => StageView::Remove,
            Ok(false) => StageView::Missing,
            Err(e) => StageView::Refused(e),
        },
        StageView::Remove => if failed(r) {
            StageView::Refused(reply_error(r))
        } else if changed_rows(r) == 0 {
            StageView::Missing
        } else {
            StageView::Log { op: Op::Delete, created_at: o.now }
        },
        StageView::Log { op, created_at } => if failed(r) {
            StageView::Refused(reply_error(r))
        } else {
            StageView::Finished { op, created_at, seq: last_rowid(r) }
        },
        over => over,
    }
}

/// The write after the reply to its statement.
pub open spec fn op_next(o: DataOpView, r: ReplyView) -> DataOpView {
    DataOpView { stage: next_stage(o, r), ..o }
}

/// The product of two counts of bytes, or the greatest number there is.
fn saturating_product(a: u64, b: u64) -> (r: u64)
    ensures
        r == (if a * b <= u64::MAX {
            a * b
        } else {
            u64::MAX as int
        }),
{
    match a.checked_mul(b) {
        Some(p) => p,
        None => u64::MAX,
    }
}

fn non_negative(n: i64) -> (r: u64)
    ensures
        r == at_least_zero(n),
{
    if n < 0 {
        0
    } else {
        n as u64
    }
}

impl DataOp {
    /// The collection has a name that may enter a statement.
    pub open spec fn well_formed(self) -> bool {
        name_ok(self.collection@)
    }

    /// A write that is about to begin.
    pub fn start(
        kind: OpKind,
        collection: String,
        id: String,
        doc: Json,
        doc_text: String,
        now: i64,
        storage: DocStorage,
        max_bytes: u64,
    ) -> (r: DataOp)
        requires
            name_ok(collection@),
        ensures
            r.well_formed(),
            r@ == (DataOpView {
                kind,
                collection: collection@,
                id: id@,
                doc: doc@,
                doc_text: doc_text@,
                now,
                storage,
                max_bytes,
                stage: first_stage(kind, max_bytes),
            }),
    {
        let stage = if kind == OpKind::Delete {
            OpStage::Present
        } else if max_bytes == 0 {
            OpStage::Ensure
        } else {
            OpStage::PageCount
        };
        DataOp { kind, collection, id, doc, doc_text, now, storage, max_bytes, stage }
    }

    /// The statement to run next; none when the write is over.
    pub fn statement(&self) -> (r: Option<Statement>)
        requires
            self.well_formed(),
        ensures
            match r {
                Some(s) => op_statement(self@) == Some(s@),
                None => op_statement(self@) is None,
            },
    {
        let collection = self.collection.as_str();
        match &self.stage {
            OpStage::PageCount => Some(no_params("PRAGMA page_count")),
            OpStage::PageSize(_) => Some(no_params("PRAGMA page_size")),
            OpStage::Ensure => Some(ensure_collection(collection, self.storage)),
            OpStage::Lookup => {
                let sql = concat3("SELECT created_at FROM coll_", collection, " WHERE id = ?1");
                Some(query(sql.as_str(), params1(text_value(self.id.as_str()))))
            },
            OpStage::Insert => {
                let head = concat3(
                    "INSERT INTO coll_",
                    collection,
                    " (id, doc, created_at, updated_at) VALUES (?1, ",
                );
                let sql = concat3(head.as_str(), self.storage.store_fn(), "(?2), ?3, ?3)");
                Some(
                    execute(
                        sql.as_str(),
                        params3(
                            text_value(self.id.as_str()),
                            text_value(self.doc_text.as_str()),
                            Value::Integer(self.now),
                        ),
                    ),
                )
            },
            OpStage::Update(_) => {
                let head = concat3("UPDATE coll_", collection, " SET doc = ");
                let sql = concat3(
                    head.as_str(),
                    self.storage.store_fn(),
                    "(?1), updated_at = ?2 WHERE id = ?3",
                );
                Some(
                    execute(
                        sql.as_str(),
                        params3(
                            text_value(self.doc_text.as_str()),
                            Value::Integer(self.now),
                            text_value(self.id.as_str()),
                        ),
                    ),
                )
            },
            OpStage::Present => Some(collection_exists(collection)),
            OpStage::Remove => {
                let sql = concat3("DELETE FROM coll_", collection, " WHERE id = ?1");
                Some(execute(sql.as_str(), params1(text_value(self.id.as_str()))))
            },
            OpStage::Log { op, .. } => Some(self.log_change(*op)),
            _ => None,
        }
    }

    /// Records the change in the change log.
    fn log_change(&self, op: Op) -> (r: Statement)
        ensures
            r@ == log_statement(self@, op),
    {
        if op == Op::Delete {
            execute(
                "INSERT INTO _changelog (collection, op, doc_id, doc, ts) VALUES (?1, ?2, ?3, NULL, ?4)",
                params4(
                    text_value(self.collection.as_str()),
                    text_value(op.as_str()),
                    text_value(self.id.as_str()),
                    Value::Integer(self.now),
                ),
            )
        } else {
            let sql = concat3(
                "INSERT INTO _changelog (collection, op, doc_id, doc, ts) VALUES (?1, ?2, ?3, ",
                self.storage.store_fn(),
                "(?4), ?5)",
            );
            execute(
                sql.as_str(),
                params5(
                    text_value(self.collection.as_str()),
                    text_value(op.as_str()),
                    text_value(self.id.as_str()),
                    text_value(self.doc_text.as_str()),
                    Value::Integer(self.now),
                ),
            )
        }
    }

    /// Takes the reply to the statement.
    pub fn accept(&mut self, reply: &Reply)
        ensures
            final(self)@ == op_next(old(self)@, reply@),
            old(self).well_formed() ==> final(self).well_formed(),
    {
        let next = match &self.stage {
            OpStage::PageCount => match pragma_i64(reply) {
                Some(n) => OpStage::PageSize(n),
                None => OpStage::Refused(reply.error()),
            },
            OpStage::PageSize(n) => match pragma_i64(reply) {
                Some(m) => {
                    let size: u64 = saturating_product(non_negative(*n), non_negative(m));
                    if size >= self.max_bytes {
                        OpStage::Refused(
                            ApiError::payload_too_large("database size limit reached"),
                        )
                    } else {
                        OpStage::Ensure
                    }
                },
                None => OpStage::Refused(reply.error()),
            },
            OpStage::Ensure => if reply.is_failed() {
                OpStage::Refused(reply.error())
            } else if self.kind == OpKind::Replace {
                OpStage::Lookup
            } else {
                OpStage::Insert
            },
            OpStage::Lookup => match reply.scalar_int() {
                Some(created_at) => OpStage::Update(created_at),
                None => OpStage::Insert,
            },
            OpStage::Insert => if reply.is_failed() {
                OpStage::Refused(reply.error())
            } else {
                OpStage::Log { op: Op::Insert, created_at: self.now }
            },
            OpStage::Update(created_at) => if reply.is_failed() {
                OpStage::Refused(reply.error())
            } else {
                OpStage::Log { op: Op::Update, created_at: *created_at }
            },
            OpStage::Present => match is_present(reply) {
                Ok(b) => if b {
                    OpStage::Remove
                } else {
                    OpStage::Missing
                },
                Err(e) => OpStage::Refused(e),
            },
            OpStage::Remove => if reply.is_failed() {
                OpStage::Refused(reply.error())
            } else if reply.changed_rows() == 0 {
                OpStage::Missing
            } else {
                OpStage::Log { op: Op::Delete, created_at: self.now }
            },
            OpStage::Log { op, created_at } => if reply.is_failed() {
                OpStage::Refused(reply.error())
            } else {
                OpStage::Finished {
                    op: *op,
                    created_at: *created_at,
                    seq: reply.last_rowid(),
                }
            },
            _ => {
                return ;
            },
        };
        self.stage = next;
    }

    /// Whether the write is over.
    pub fn is_over(&self) -> (r: bool)
        ensures
            r == op_over(self@),
    {
        matches!(self.stage, OpStage::Finished { .. } | OpStage::Missing | OpStage::Refused(_))
    }
}

// ---- What a write comes to -------------------------------------------------

/// What a write came to.
#[derive(Debug)]
pub enum OpOutcome {
    /// The document is in place; `created` when it was not there before.
    Written { rec: DocRecord, created: bool, event: ChangeEvent },
    Deleted(ChangeEvent),
    /// There was nothing to delete.
    Missing,
    Refused(ApiError),
}

pub enum OutcomeView {
    Written { rec: RecordView, created: bool, event: EventView },
    Deleted(EventView),
    Missing,
    Refused(ErrorView),
}

impl View for OpOutcome {
    type V = OutcomeView;

    open spec fn view(&self) -> OutcomeView {
        match *self {
            OpOutcome::Written { rec, created, event } => OutcomeView::Written {
                rec: rec@,
                created,
                event: event@,
            },
            OpOutcome::Deleted(event) => OutcomeView::Deleted(event@),
            OpOutcome::Missing => OutcomeView::Missing,
            OpOutcome::Refused(e) => OutcomeView::Refused(e@),
        }
    }
}

/// What a write came to.
pub open spec fn op_outcome(o: DataOpView) -> OutcomeView {
    match o.stage {
        StageView::Finished { op, created_at, seq } => if op == Op::Delete {
            OutcomeView::Deleted(
                EventView { seq, collection: o.collection, op, id: o.id, doc: None },
            )
        } else {
            OutcomeView::Written {
                rec: RecordView { id: o.id, created_at, updated_at: o.now, doc: o.doc },
                created: op == Op::Insert,
                event: EventView {
                    seq,
                    collection: o.collection,
                    op,
                    id: o.id,
                    doc: Some(o.doc),
                },
            }
        },
        StageView::Missing => OutcomeView::Missing,
        StageView::Refused(e) => OutcomeView::Refused(e),
        _ => OutcomeView::Refused(internal_error()),
    }
}

impl DataOp {
    /// What the write came to.
    pub fn into_outcome(self) -> (r: OpOutcome)
        requires
            op_over(self@),
        ensures
            r@ == op_outcome(self@),
    {
        match self.stage {
            OpStage::Finished { op, created_at, seq } => {
                if op == Op::Delete {
                    OpOutcome::Deleted(
                        ChangeEvent { seq, collection: self.collection, op, id: self.id, doc: None },
                    )
                } else {
                    let copy = duplicate(&self.doc);
                    OpOutcome::Written {
                        rec: DocRecord {
                            id: self.id.clone(),
                            created_at,
                            updated_at: self.now,
                            doc: copy,
                        },
                        created: op == Op::Insert,
                        event: ChangeEvent {
                            seq,
                            collection: self.collection,
                            op,
                            id: self.id,
                            doc: Some(self.doc),
                        },
                    }
                }
            },
            OpStage::Missing => OpOutcome::Missing,
            OpStage::Refused(e) => OpOutcome::Refused(e),
            _ => OpOutcome::Refused(ApiError::internal()),
        }
    }
}

// ---- What holds of every write ---------------------------------------------

/// The stage is one that a write of this kind can be at, and holds what such a
/// write knows by then.
pub open spec fn op_sound(o: DataOpView) -> bool {
    match o.stage {
        StageView::PageCount | StageView::PageSize(_) | StageView::Ensure => o.kind
            != OpKind::Delete,
        StageView::Lookup | StageView::Update(_) => o.kind == OpKind::Replace,
        StageView::Insert => o.kind != OpKind::Delete,
        StageView::Present | StageView::Remove => o.kind == OpKind::Delete,
        StageView::Log { op, created_at } => kind_logs(o, op, created_at),
        StageView::Finished { op, created_at, .. } => kind_logs(o, op, created_at),
        StageView::Missing => o.kind == OpKind::Delete,
        StageView::Refused(_) => true,
    }
}

/// A write of this kind can end in this change.
pub open spec fn kind_logs(o: DataOpView, op: Op, created_at: i64) -> bool {
    match op {
        Op::Insert => o.kind != OpKind::Delete && created_at == o.now,
        Op::Update => o.kind == OpKind::Replace,
        Op::Delete => o.kind == OpKind::Delete,
    }
}

/// Every write stays sound, whatever the engine replies.
pub proof fn law_op_stays_sound(o: DataOpView, r: ReplyView)
    requires
        op_sound(o),
    ensures
        op_sound(op_next(o, r)),
{
}

/// How many replies a write can still wait for.
pub open spec fn replies_left(o: DataOpView) -> nat {
    match o.stage {
        StageView::PageCount => 6,
        StageView::PageSize(_) => 5,
        StageView::Ensure => 4,
        StageView::Lookup => 3,
        StageView::Insert | StageView::Update(_) => 2,
        StageView::Present => 3,
        StageView::Remove => 2,
        StageView::Log { .. } => 1,
        _ => 0,
    }
}

/// Every reply brings a write closer to its end, and a write that is over asks
/// for nothing more.
pub proof fn law_op_comes_to_an_end(o: DataOpView, r: ReplyView)
    ensures
        op_over(o) <==> op_statement(o) is None,
        op_over(o) <==> replies_left(o) == 0,
        !op_over(o) ==> replies_left(op_next(o, r)) < replies_left(o),
        op_over(o) ==> op_next(o, r) == o,
{
}

/// The record that a client is given and the event that subscribers are sent tell
/// of the same change.
pub proof fn law_record_and_event_agree(o: DataOpView)
    ensures
        op_outcome(o) matches OutcomeView::Written { rec, created, event } ==> {
            &&& event.id == rec.id
            &&& event.doc == Some(rec.doc)
            &&& event.collection == o.collection
            &&& rec.updated_at == o.now
            &&& created == (event.op == Op::Insert)
        },
        op_outcome(o) matches OutcomeView::Deleted(event) ==> event.id == o.id && event.doc is None
            && event.op == Op::Delete,
{
}

/// A document that is replaced keeps the time of its creation, and its time of
/// change is the time of the write.
pub proof fn law_replace_keeps_created_at(
    o: DataOpView,
    found: ReplyView,
    updated: ReplyView,
    logged: ReplyView,
)
    requires
        o.stage is Lookup,
        scalar_int(found) is Some,
        !failed(updated),
        !failed(logged),
    ensures
        ({
            let end = op_next(op_next(op_next(o, found), updated), logged);
            op_outcome(end) matches OutcomeView::Written { rec, created, event }
                && Some(rec.created_at) == scalar_int(found) && rec.updated_at == o.now && !created
                && rec.doc == o.doc && event.op == Op::Update && event.seq == last_rowid(logged)
        }),
{
}

/// A document that is new is created at the time of the write.
pub proof fn law_insert_sets_created_at(o: DataOpView)
    requires
        op_sound(o),
    ensures
        op_outcome(o) matches OutcomeView::Written { rec, created, .. } ==> (created
            ==> rec.created_at == o.now),
{
}

/// Nothing is recorded of a write that the engine refused: the write ends with
/// that refusal, and asks for nothing more.
pub proof fn law_refusal_ends_the_write(o: DataOpView, r: ReplyView)
    requires
        failed(r),
        !op_over(o),
        !(o.stage is Lookup),
    ensures
        op_outcome(op_next(o, r)) == OutcomeView::Refused(reply_error(r)),
        op_statement(op_next(o, r)) is None,
{
}

} // verus!
