//! Documents by identifier: what a request asks of the writer or of a reader, and
//! what it is answered.

use crate::batch::{OpReply, OpReplyView};
use crate::data_op::{DocRecord, RecordView};
use crate::errors::{
    bad_request_error, internal_error, not_found_error, too_large_error, validation_error, ApiError,
    ApiResult, ErrorView,
};
use crate::ids::{is_reserved_collection, name_error, name_ok, require_valid_name, reserved};
use crate::json::{int_view, json_int, put, Json, JsonView};
use crate::limits::{check_document_size, over_limit};
use crate::schema::{collection_exists, exists_statement, is_present, presence};
use crate::sql::{
    cell_int, cell_text, failed, get_int, get_text, params1, query, query_view, reply_error,
    reply_rows, rows_view, text_value, value_views, Reply, ReplyView, Statement, StatementView,
    Value, ValueView,
};
use crate::text::concat3;
use crate::writer::{batchable, command_ok, CommandView, WriteCommand};
use vstd::prelude::*;

verus! {

/// An answer to a request that succeeded.
#[derive(Debug)]
pub struct Answer {
    pub status: u16,
    pub body: Option<Json>,
}

#[verifier::ext_equal]
pub struct AnswerView {
    pub status: u16,
    pub body: Option<JsonView>,
}

impl View for Answer {
    type V = AnswerView;

    open spec fn view(&self) -> AnswerView {
        AnswerView { status: self.status, body: crate::json::option_view(self.body) }
    }
}

/// The result is the answer, or the error.
pub open spec fn answers(r: ApiResult<Answer>, expected: Result<AnswerView, ErrorView>) -> bool {
    match r {
        Ok(a) => expected == Ok::<AnswerView, ErrorView>(a@),
        Err(e) => expected == Err::<AnswerView, ErrorView>(e@),
    }
}

/// A document as it is answered.
#[derive(Debug)]
pub struct DocEnvelope {
    pub id: String,
    pub created_at: i64,
    pub updated_at: i64,
    pub doc: Json,
}

impl View for DocEnvelope {
    type V = RecordView;

    open spec fn view(&self) -> RecordView {
        RecordView {
            id: self.id@,
            created_at: self.created_at,
            updated_at: self.updated_at,
            doc: self.doc@,
        }
    }
}

/// A document as JSON, with its identifier and its times.
pub open spec fn envelope_view(r: RecordView) -> JsonView {
    JsonView::Object(
        map![
            "id"@ => JsonView::Text(r.id),
            "created_at"@ => int_view(r.created_at as int),
            "updated_at"@ => int_view(r.updated_at as int),
            "doc"@ => r.doc,
        ],
    )
}

pub fn to_envelope(rec: DocRecord) -> (r: DocEnvelope)
    ensures
        r@ == rec@,
{
    DocEnvelope {
        id: rec.id,
        created_at: rec.created_at,
        updated_at: rec.updated_at,
        doc: rec.doc,
    }
}

impl DocEnvelope {
    pub fn into_json(self) -> (r: Json)
        ensures
            r@ == envelope_view(self@),
    {
        let mut e: Vec<(String, Json)> = Vec::new();
        put(&mut e, "id", Json::Text(self.id));
        put(&mut e, "created_at", json_int(self.created_at));
        put(&mut e, "updated_at", json_int(self.updated_at));
        put(&mut e, "doc", self.doc);
        Json::Object(e)
    }
}

// ---- Writing ---------------------------------------------------------------

/// Why a document is not taken, if it is not.
pub open spec fn refusal(coll: Seq<char>, body: JsonView, text: Seq<char>, max: u64) -> Option<
    ErrorView,
> {
    if !name_ok(coll) {
        Some(validation_error(name_error("collection"@)))
    } else if reserved(coll) {
        Some(validation_error("collection name is reserved"@))
    } else if !(body is Object) {
        Some(bad_request_error("document body must be a JSON object"@))
    } else if over_limit(vstd::utf8::encode_utf8(text).len(), max) {
        Some(too_large_error("document exceeds max_document_bytes"@))
    } else {
        None
    }
}

/// Refuses a body that is no object.
pub fn require_object(body: &Json) -> (r: ApiResult<()>)
    ensures
        match r {
            Ok(_) => body@ is Object,
            Err(e) => !(body@ is Object) && e@ == bad_request_error(
                "document body must be a JSON object"@,
            ),
        },
{
    match body {
        Json::Object(_) => Ok(()),
        _ => Err(ApiError::bad_request("document body must be a JSON object")),
    }
}

/// Holds a document to the rules of its collection. `text` is the document as
/// JSON text.
pub fn admit_document(coll: &str, body: &Json, text: &str, max: u64) -> (r: ApiResult<()>)
    ensures
        match r {
            Ok(_) => refusal(coll@, body@, text@, max) is None,
            Err(e) => refusal(coll@, body@, text@, max) == Some(e@),
        },
{
    match require_valid_name("collection", coll) {
        Ok(_) => {},
        Err(e) => {
            return Err(e);
        },
    }
    if is_reserved_collection(coll) {
        return Err(ApiError::validation("collection name is reserved"));
    }
    match require_object(body) {
        Ok(_) => {},
        Err(e) => {
            return Err(e);
        },
    }
    check_document_size(text, max)
}

/// The command that creates a document.
pub fn create_command(coll: String, body: Json, text: String, max: u64) -> (r: ApiResult<
    WriteCommand,
>)
    ensures
        match r {
            Ok(c) => {
                &&& refusal(coll@, body@, text@, max) is None
                &&& c@ == (CommandView::Create { collection: coll@, doc: body@, doc_text: text@ })
                &&& batchable(c@) && command_ok(c@)
            },
            Err(e) => refusal(coll@, body@, text@, max) == Some(e@),
        },
{
    match admit_document(coll.as_str(), &body, text.as_str(), max) {
        Ok(_) => Ok(WriteCommand::Create { collection: coll, doc: body, doc_text: text }),
        Err(e) => Err(e),
    }
}

/// The command that puts a document under an identifier.
pub fn put_command(coll: String, id: String, body: Json, text: String, max: u64) -> (r: ApiResult<
    WriteCommand,
>)
    ensures
        match r {
            Ok(c) => {
                &&& refusal(coll@, body@, text@, max) is None
                &&& c@ == (CommandView::Replace {
                    collection: coll@,
                    id: id@,
                    doc: body@,
                    doc_text: text@,
                })
                &&& batchable(c@) && command_ok(c@)
            },
            Err(e) => refusal(coll@, body@, text@, max) == Some(e@),
        },
{
    match admit_document(coll.as_str(), &body, text.as_str(), max) {
        Ok(_) => Ok(WriteCommand::Replace { collection: coll, id, doc: body, doc_text: text }),
        Err(e) => Err(e),
    }
}

/// The command that deletes a document.
pub fn delete_command(coll: String, id: String) -> (r: ApiResult<WriteCommand>)
    ensures
        match r {
            Ok(c) => {
                &&& name_ok(coll@)
                &&& c@ == (CommandView::Delete { collection: coll@, id: id@ })
                &&& batchable(c@) && command_ok(c@)
            },
            Err(e) => !name_ok(coll@) && e@ == validation_error(name_error("collection"@)),
        },
{
    match require_valid_name("collection", coll.as_str()) {
        Ok(_) => Ok(WriteCommand::Delete { collection: coll, id }),
        Err(e) => Err(e),
    }
}

/// What a client is answered on the reply of the writer: a new document is
/// created, another is replaced, and one that is not there cannot be deleted.
pub open spec fn write_answer(reply: OpReplyView) -> Result<AnswerView, ErrorView> {
    match reply {
        OpReplyView::Written { rec, created } => Ok(
            AnswerView {
                status: if created {
                    201
                } else {
                    200
                },
                body: Some(envelope_view(rec)),
            },
        ),
        OpReplyView::Deleted(true) => Ok(AnswerView { status: 204, body: None }),
        OpReplyView::Deleted(false) => Err(not_found_error("document not found"@)),
        OpReplyView::Failed(e) => Err(e),
    }
}

/// What a client is answered on the reply of the writer.
pub fn answer_write(reply: OpReply) -> (r: ApiResult<Answer>)
    ensures
        answers(r, write_answer(reply@)),
{
    match reply {
        OpReply::Written { rec, created } => {
            let status: u16 = if created {
                201
            } else {
                200
            };
            Ok(Answer { status, body: Some(to_envelope(rec).into_json()) })
        },
        OpReply::Deleted(b) => if b {
            Ok(Answer { status: 204, body: None })
        } else {
            Err(ApiError::not_found("document not found"))
        },
        OpReply::Failed(e) => Err(e),
    }
}

// ---- Reading ---------------------------------------------------------------

/// A row of a collection, with the document as JSON text.
#[derive(Debug)]
pub struct DocRow {
    pub id: String,
    pub doc_text: String,
    pub created_at: i64,
    pub updated_at: i64,
}

#[verifier::ext_equal]
pub struct DocRowView {
    pub id: Seq<char>,
    pub doc_text: Seq<char>,
    pub created_at: i64,
    pub updated_at: i64,
}

impl View for DocRow {
    type V = DocRowView;

    open spec fn view(&self) -> DocRowView {
        DocRowView {
            id: self.id@,
            doc_text: self.doc_text@,
            created_at: self.created_at,
            updated_at: self.updated_at,
        }
    }
}

/// What a row of a collection says, if its cells have the types that they should.
pub open spec fn row_view(row: Seq<ValueView>) -> Option<DocRowView> {
    match (cell_text(row, 0), cell_text(row, 1), cell_int(row, 2), cell_int(row, 3)) {
        (Some(id), Some(doc_text), Some(created_at), Some(updated_at)) => Some(
            DocRowView { id, doc_text, created_at, updated_at },
        ),
        _ => None,
    }
}

pub fn read_row(row: &Vec<Value>) -> (r: Option<DocRow>)
    ensures
        match r {
            Some(x) => row_view(value_views(row@)) == Some(x@),
            None => row_view(value_views(row@)) is None,
        },
{
    match (get_text(row, 0), get_text(row, 1), get_int(row, 2), get_int(row, 3)) {
        (Some(id), Some(doc_text), Some(created_at), Some(updated_at)) => Some(
            DocRow { id, doc_text, created_at, updated_at },
        ),
        _ => None,
    }
}

pub open spec fn fetch_statement(coll: Seq<char>, id: Seq<char>) -> StatementView {
    query_view(
        "SELECT id, json(doc), created_at, updated_at FROM coll_"@ + coll + " WHERE id = ?1"@,
        seq![ValueView::Text(id)],
    )
}

/// The row that came back, if one did.
pub open spec fn fetched_row(r: ReplyView) -> Result<Option<DocRowView>, ErrorView> {
    if failed(r) {
        Err(reply_error(r))
    } else if reply_rows(r).len() == 0 {
        Ok(None)
    } else {
        match row_view(reply_rows(r)[0]) {
            Some(row) => Ok(Some(row)),
            None => Err(internal_error()),
        }
    }
}

pub open spec fn optional_row(r: Option<DocRow>) -> Option<DocRowView> {
    match r {
        Some(row) => Some(row@),
        None => None,
    }
}

/// The row that came back, if one did.
fn fetched(reply: &Reply) -> (r: ApiResult<Option<DocRow>>)
    ensures
        match r {
            Ok(row) => fetched_row(reply@) == Ok::<Option<DocRowView>, ErrorView>(
                optional_row(row),
            ),
            Err(e) => fetched_row(reply@) == Err::<Option<DocRowView>, ErrorView>(e@),
        },
{
    if reply.is_failed() {
        return Err(reply.error());
    }
    match reply.rows() {
        Some(rows) => {
            if rows.len() == 0 {
                return Ok(None);
            }
            assert(rows_view(rows@)[0] == value_views(rows@[0]@));
            match read_row(&rows[0]) {
                Some(row) => Ok(Some(row)),
                None => Err(ApiError::internal()),
            }
        },
        None => Ok(None),
    }
}

/// How far the reading of a document has come.
#[derive(Debug)]
pub enum FetchStage {
    /// Whether the collection exists.
    Exists,
    /// The row is read.
    Select,
    /// The text of the row is to be read as JSON.
    Found(DocRow),
    Absent,
    Refused(ApiError),
}

pub enum FetchStageView {
    Exists,
    Select,
    Found(DocRowView),
    Absent,
    Refused(ErrorView),
}

impl View for FetchStage {
    type V = FetchStageView;

    open spec fn view(&self) -> FetchStageView {
        match *self {
            FetchStage::Exists => FetchStageView::Exists,
            FetchStage::Select => FetchStageView::Select,
            FetchStage::Found(row) => FetchStageView::Found(row@),
            FetchStage::Absent => FetchStageView::Absent,
            FetchStage::Refused(e) => FetchStageView::Refused(e@),
        }
    }
}

/// The reading of a document in progress.
#[derive(Debug)]
pub struct FetchRun {
    coll: String,
    id: String,
    stage: FetchStage,
}

#[verifier::ext_equal]
pub struct FetchView {
    pub coll: Seq<char>,
    pub id: Seq<char>,
    pub stage: FetchStageView,
}

impl View for FetchRun {
    type V = FetchView;

    closed spec fn view(&self) -> FetchView {
        FetchView { coll: self.coll@, id: self.id@, stage: self.stage@ }
    }
}

/// What the reading asks of the engine next.
pub open spec fn fetch_asks(f: FetchView) -> Option<StatementView> {
    match f.stage {
        FetchStageView::Exists => Some(exists_statement(f.coll)),
        FetchStageView::Select => Some(fetch_statement(f.coll, f.id)),
        _ => None,
    }
}

/// Where the reading goes on the reply to its statement.
pub open spec fn fetch_next(f: FetchView, r: ReplyView) -> FetchStageView {
    match f.stage {
        FetchStageView::Exists => match presence(r) {
            Ok(true) => FetchStageView::Select,
            Ok(false) => FetchStageView::Absent,
            Err(e) => FetchStageView::Refused(e),
        },
        FetchStageView::Select => match fetched_row(r) {
            Ok(Some(row)) => FetchStageView::Found(row),
            Ok(None) => FetchStageView::Absent,
            Err(e) => FetchStageView::Refused(e),
        },
        over => over,
    }
}

/// What a reader of a document is answered: not found where the collection or the
/// document does not exist, internal where the stored text is no JSON.
pub open spec fn fetch_answer(stage: FetchStageView, doc: Option<JsonView>) -> Result<
    AnswerView,
    ErrorView,
> {
    match stage {
        FetchStageView::Found(r) => match doc {
            Some(d) => Ok(
                AnswerView {
                    status: 200,
                    body: Some(
                        envelope_view(
                            RecordView {
                                id: r.id,
                                created_at: r.created_at,
                                updated_at: r.updated_at,
                                doc: d,
                            },
                        ),
                    ),
                },
            ),
            None => Err(internal_error()),
        },
        FetchStageView::Absent => Err(not_found_error("document not found"@)),
        FetchStageView::Refused(e) => Err(e),
        _ => Err(internal_error()),
    }
}

/// Begins to read a document.
pub fn fetch_document(coll: String, id: String) -> (r: ApiResult<FetchRun>)
    ensures
        match r {
            Ok(f) => name_ok(coll@) && f.well_formed() && f@ == (FetchView {
                coll: coll@,
                id: id@,
                stage: FetchStageView::Exists,
            }),
            Err(e) => !name_ok(coll@) && e@ == validation_error(name_error("collection"@)),
        },
{
    match require_valid_name("collection", coll.as_str()) {
        Ok(_) => Ok(FetchRun { coll, id, stage: FetchStage::Exists }),
        Err(e) => Err(e),
    }
}

impl FetchRun {
    pub open spec fn well_formed(self) -> bool {
        name_ok(self@.coll)
    }

    /// The statement to run next; none when the row is known.
    pub fn statement(&self) -> (r: Option<Statement>)
        requires
            self.well_formed(),
        ensures
            match r {
                Some(s) => fetch_asks(self@) == Some(s@),
                None => fetch_asks(self@) is None,
            },
    {
        match &self.stage {
            FetchStage::Exists => Some(collection_exists(self.coll.as_str())),
            FetchStage::Select => {
                let sql = concat3(
                    "SELECT id, json(doc), created_at, updated_at FROM coll_",
                    self.coll.as_str(),
                    " WHERE id = ?1",
                );
                Some(query(sql.as_str(), params1(text_value(self.id.as_str()))))
            },
            _ => None,
        }
    }

    /// Takes the reply to the statement.
    pub fn accept(&mut self, reply: &Reply)
        ensures
            final(self)@ == (FetchView { stage: fetch_next(old(self)@, reply@), ..old(self)@ }),
    {
        let next = match &self.stage {
            FetchStage::Exists => match is_present(reply) {
                Ok(b) => if b {
                    FetchStage::Select
                } else {
                    FetchStage::Absent
                },
                Err(e) => FetchStage::Refused(e),
            },
            FetchStage::Select => match fetched(reply) {
                Ok(Some(row)) => FetchStage::Found(row),
                Ok(None) => FetchStage::Absent,
                Err(e) => FetchStage::Refused(e),
            },
            _ => {
                return ;
            },
        };
        self.stage = next;
    }

    /// The text that is to be read as JSON, where there is one.
    pub fn doc_text(&self) -> (r: Option<String>)
        ensures
            match self@.stage {
                FetchStageView::Found(row) => r matches Some(t) && t@ == row.doc_text,
                _ => r is None,
            },
    {
        match &self.stage {
            FetchStage::Found(row) => Some(row.doc_text.clone()),
            _ => None,
        }
    }

    /// What the reader is answered. `doc` is the text of the row, read as JSON.
    pub fn answer(self, doc: Option<Json>) -> (r: ApiResult<Answer>)
        ensures
            answers(r, fetch_answer(self@.stage, crate::json::option_view(doc))),
    {
        match self.stage {
            FetchStage::Found(r) => match doc {
                Some(d) => {
                    let env = DocEnvelope {
                        id: r.id,
                        created_at: r.created_at,
                        updated_at: r.updated_at,
                        doc: d,
                    };
                    Ok(Answer { status: 200, body: Some(env.into_json()) })
                },
                None => Err(ApiError::internal()),
            },
            FetchStage::Absent => Err(ApiError::not_found("document not found")),
            FetchStage::Refused(e) => Err(e),
            _ => Err(ApiError::internal()),
        }
    }
}

} // verus!
