//! The commands that the writer of a database takes, in which order it works on
//! them, and the writes that stand outside a batch.
//!
//! Each open database has one writer. Writes to documents that wait together are
//! grouped into one transaction; a lone write is committed at once.

use crate::data_op::{DataOp, DataOpView, OpKind};
use crate::ids::{name_ok, path_ok};
use crate::json::{Json, JsonView};
use crate::schema::DocStorage;
use vstd::prelude::*;

verus! {

/// A command to the writer of a database.
#[derive(Debug)]
pub enum WriteCommand {
    /// Insert a document under a fresh identifier. `doc_text` is the document as
    /// JSON text.
    Create { collection: String, doc: Json, doc_text: String },
    /// Put a document in place of another, or insert it.
    Replace { collection: String, id: String, doc: Json, doc_text: String },
    Delete { collection: String, id: String },
    CreateIndex { collection: String, name: String, path: String, unique: bool },
    DropIndex { name: String },
    /// Copy the database to the file `dest`.
    Snapshot { dest: String },
    /// Bring the write-ahead log back into the database.
    Checkpoint,
}

pub enum CommandView {
    Create { collection: Seq<char>, doc: JsonView, doc_text: Seq<char> },
    Replace { collection: Seq<char>, id: Seq<char>, doc: JsonView, doc_text: Seq<char> },
    Delete { collection: Seq<char>, id: Seq<char> },
    CreateIndex { collection: Seq<char>, name: Seq<char>, path: Seq<char>, unique: bool },
    DropIndex { name: Seq<char> },
    Snapshot { dest: Seq<char> },
    Checkpoint,
}

impl View for WriteCommand {
    type V = CommandView;

    open spec fn view(&self) -> CommandView {
        match *self {
            WriteCommand::Create { collection, doc, doc_text } => CommandView::Create {
                collection: collection@,
                doc: doc@,
                doc_text: doc_text@,
            },
            WriteCommand::Replace { collection, id, doc, doc_text } => CommandView::Replace {
                collection: collection@,
                id: id@,
                doc: doc@,
                doc_text: doc_text@,
            },
            WriteCommand::Delete { collection, id } => CommandView::Delete {
                collection: collection@,
                id: id@,
            },
            WriteCommand::CreateIndex { collection, name, path, unique } =>
                CommandView::CreateIndex {
                collection: collection@,
                name: name@,
                path: path@,
                unique,
            },
            WriteCommand::DropIndex { name } => CommandView::DropIndex { name: name@ },
            WriteCommand::Snapshot { dest } => CommandView::Snapshot { dest: dest@ },
            WriteCommand::Checkpoint => CommandView::Checkpoint,
        }
    }
}

pub open spec fn command_views(v: Seq<WriteCommand>) -> Seq<CommandView> {
    Seq::new(v.len(), |i: int| v[i]@)
}

/// The command writes one document.
pub open spec fn batchable(c: CommandView) -> bool {
    c is Create || c is Replace || c is Delete
}

/// Whatever the command puts into a statement as text has been validated.
pub open spec fn command_ok(c: CommandView) -> bool {
    match c {
        CommandView::Create { collection, .. } => name_ok(collection),
        CommandView::Replace { collection, .. } => name_ok(collection),
        CommandView::Delete { collection, .. } => name_ok(collection),
        CommandView::CreateIndex { collection, name, path, .. } => name_ok(collection) && name_ok(
            name,
        ) && path_ok(path),
        CommandView::DropIndex { name } => name_ok(name),
        _ => true,
    }
}

/// Whether the command writes one document, so that it can share a transaction.
pub fn is_batchable(cmd: &WriteCommand) -> (r: bool)
    ensures
        r == batchable(cmd@),
{
    matches!(
        cmd,
        WriteCommand::Create { .. } | WriteCommand::Replace { .. } | WriteCommand::Delete { .. }
    )
}

/// What the writer of a database has to know.
#[derive(Debug, Clone, Copy)]
pub struct WriterContext {
    pub storage: DocStorage,
    /// The size at which the database takes no more documents; 0 is no limit.
    pub max_database_bytes: u64,
    /// How many changes the change log keeps; 0 or less is all of them.
    pub changelog_retention: i64,
}

/// The write that a command asks for. The fresh identifier is for a document that
/// is created; a document that is replaced or deleted has its own.
pub open spec fn op_for(
    c: CommandView,
    fresh: Seq<char>,
    now: i64,
    ctx: WriterContext,
) -> DataOpView {
    let (kind, collection, id, doc, doc_text) = match c {
        CommandView::Create { collection, doc, doc_text } => (
            OpKind::Create,
            collection,
            fresh,
            doc,
            doc_text,
        ),
        CommandView::Replace { collection, id, doc, doc_text } => (
            OpKind::Replace,
            collection,
            id,
            doc,
            doc_text,
        ),
        CommandView::Delete { collection, id } => (
            OpKind::Delete,
            collection,
            id,
            JsonView::Null,
            ""@,
        ),
        _ => (OpKind::Delete, Seq::empty(), fresh, JsonView::Null, ""@),
    };
    DataOpView {
        kind,
        collection,
        id,
        doc,
        doc_text,
        now,
        storage: ctx.storage,
        max_bytes: ctx.max_database_bytes,
        stage: crate::data_op::first_stage(kind, ctx.max_database_bytes),
    }
}

/// Begins the write that a command asks for.
pub fn begin_op(cmd: WriteCommand, fresh: String, now: i64, ctx: &WriterContext) -> (r: DataOp)
    requires
        batchable(cmd@),
        command_ok(cmd@),
    ensures
        r@ == op_for(cmd@, fresh@, now, *ctx),
        r.well_formed(),
{
    let max: u64 = ctx.max_database_bytes;
    match cmd {
        WriteCommand::Create { collection, doc, doc_text } => DataOp::start(
            OpKind::Create,
            collection,
            fresh,
            doc,
            doc_text,
            now,
            ctx.storage,
            max,
        ),
        WriteCommand::Replace { collection, id, doc, doc_text } => DataOp::start(
            OpKind::Replace,
            collection,
            id,
            doc,
            doc_text,
            now,
            ctx.storage,
            max,
        ),
        WriteCommand::Delete { collection, id } => DataOp::start(
            OpKind::Delete,
            collection,
            id,
            Json::Null,
            "".to_string(),
            now,
            ctx.storage,
            max,
        ),
        // No other command is batchable.
        _ => {
            assert(false);
            DataOp::start(
                OpKind::Delete,
                fresh,
                String::new(),
                Json::Null,
                String::new(),
                now,
                ctx.storage,
                max,
            )
        },
    }
}

} // verus!
