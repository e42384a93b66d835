//! Queries and counts: the statement that a request is turned into, and the page
//! that it is answered with.

use crate::data_op::RecordView;
use crate::documents::{envelope_view, read_row, row_view, DocEnvelope, DocRow, DocRowView};
use crate::errors::{internal_error, validation_error, ApiError, ApiResult, ErrorView};
use crate::ids::{name_error, name_ok, require_valid_name};
use crate::json::{int_view, json_int, option_view, put, Json, JsonView};
use crate::projection::{apply_projection, projected};
use crate::query::{
    compile_filter, compile_sort, cursor_order, filter_clause, is_cursor_compatible, sort_clause,
    CountRequest, QueryRequest,
};
use crate::schema::{collection_exists, exists_statement, is_present, presence};
use crate::sql::{
    failed, push_value, query_view, reply_error, reply_rows, rows_view, scalar_int, text_view,
    value_views, Reply, ReplyView, Statement, StatementView, Value, ValueView,
};
use crate::text::{concat2, concat3, decimal, decimal_text, views};
use vstd::prelude::*;
use vstd::string::StringExecFns;

verus! {

// ---- The plan of a query ---------------------------------------------------

/// The number of documents on a page: 50 unless asked otherwise, never above the
/// configured maximum, and at least one.
pub open spec fn page_size(asked: Option<u32>, max: u32) -> u32 {
    let wanted = match asked {
        Some(n) => n,
        None => 50,
    };
    let capped = if wanted < max {
        wanted
    } else {
        max
    };
    if capped < 1 {
        1
    } else {
        capped
    }
}

/// A cursor is given and the order can be continued by one.
pub open spec fn uses_cursor(req: QueryRequest) -> bool {
    cursor_order(req.sort@) && req.cursor is Some
}

pub open spec fn select_sql(coll: Seq<char>, filter: Seq<char>, order: Seq<char>, req: QueryRequest,
    max: u32) -> Seq<char> {
    "SELECT id, json(doc), created_at, updated_at FROM coll_"@ + coll + " WHERE "@ + filter + (
    if uses_cursor(req) {
        " AND id > ?"@
    } else {
        ""@
    }) + " "@ + order + " LIMIT "@ + decimal(page_size(req.limit, max) as nat) + (if uses_cursor(
        req,
    ) {
        ""@
    } else {
        " OFFSET "@ + decimal(
            match req.offset {
                Some(n) => n as nat,
                None => 0,
            },
        )
    })
}

/// The statement of a query, or the error that it is answered with.
pub open spec fn query_plan(coll: Seq<char>, req: QueryRequest, max: u32) -> Result<
    StatementView,
    ErrorView,
> {
    if !name_ok(coll) {
        Err(validation_error(name_error("collection"@)))
    } else {
        match (filter_clause(req.filter), sort_clause(req.sort@)) {
            (Err(m), _) => Err(validation_error(m)),
            (_, Err(m)) => Err(validation_error(m)),
            (Ok(w), Ok(order)) => Ok(
                query_view(
                    select_sql(coll, w.sql, order.sql, req, max),
                    if uses_cursor(req) {
                        w.params.push(ValueView::Text(req.cursor->0@))
                    } else {
                        w.params
                    },
                ),
            ),
        }
    }
}

/// How far a query has come.
#[derive(Debug)]
pub enum QueryStage {
    /// Whether the collection exists.
    Exists,
    /// The rows are read.
    Select,
    /// The texts of the rows are to be read as JSON.
    Rows(Vec<DocRow>),
    Absent,
    Refused(ApiError),
}

pub enum QueryStageView {
    Exists,
    Select,
    Rows(Seq<DocRowView>),
    Absent,
    Refused(ErrorView),
}

pub open spec fn doc_row_views(v: Seq<DocRow>) -> Seq<DocRowView> {
    Seq::new(v.len(), |i: int| v[i]@)
}

impl View for QueryStage {
    type V = QueryStageView;

    open spec fn view(&self) -> QueryStageView {
        match *self {
            QueryStage::Exists => QueryStageView::Exists,
            QueryStage::Select => QueryStageView::Select,
            QueryStage::Rows(rows) => QueryStageView::Rows(doc_row_views(rows@)),
            QueryStage::Absent => QueryStageView::Absent,
            QueryStage::Refused(e) => QueryStageView::Refused(e@),
        }
    }
}

/// A query in progress.
#[derive(Debug)]
pub struct QueryRun {
    coll: String,
    select: Statement,
    limit: u32,
    compatible: bool,
    projection: Option<Vec<String>>,
    stage: QueryStage,
}

#[verifier::ext_equal]
pub struct QueryView {
    pub coll: Seq<char>,
    pub select: StatementView,
    pub limit: u32,
    pub compatible: bool,
    pub projection: Option<Seq<Seq<char>>>,
    pub stage: QueryStageView,
}

pub open spec fn projection_view(p: Option<Vec<String>>) -> Option<Seq<Seq<char>>> {
    match p {
        Some(v) => Some(views(v@)),
        None => None,
    }
}

impl View for QueryRun {
    type V = QueryView;

    closed spec fn view(&self) -> QueryView {
        QueryView {
            coll: self.coll@,
            select: self.select@,
            limit: self.limit,
            compatible: self.compatible,
            projection: projection_view(self.projection),
            stage: self.stage@,
        }
    }
}

/// What the query asks of the engine next.
pub open spec fn query_asks(q: QueryView) -> Option<StatementView> {
    match q.stage {
        QueryStageView::Exists => Some(exists_statement(q.coll)),
        QueryStageView::Select => Some(q.select),
        _ => None,
    }
}

/// Every row says what a row of a collection should.
pub open spec fn readable(rows: Seq<Seq<ValueView>>) -> bool {
    forall|i: int| 0 <= i < rows.len() ==> row_view(#[trigger] rows[i]) is Some
}

/// The rows that came back.
pub open spec fn selected_rows(r: ReplyView) -> Result<Seq<DocRowView>, ErrorView> {
    if failed(r) {
        Err(reply_error(r))
    } else if !readable(reply_rows(r)) {
        Err(internal_error())
    } else {
        Ok(Seq::new(reply_rows(r).len(), |i: int| row_view(reply_rows(r)[i])->0))
    }
}

/// Where the query goes on the reply to its statement.
pub open spec fn query_next(q: QueryView, r: ReplyView) -> QueryStageView {
    match q.stage {
        QueryStageView::Exists => match presence(r) {
            Ok(true) => QueryStageView::Select,
            Ok(false) => QueryStageView::Absent,
            Err(e) => QueryStageView::Refused(e),
        },
        QueryStageView::Select => match selected_rows(r) {
            Ok(rows) => QueryStageView::Rows(rows),
            Err(e) => QueryStageView::Refused(e),
        },
        over => over,
    }
}

/// Begins a query.
pub fn query(coll: String, req: QueryRequest, max: u32) -> (r: ApiResult<QueryRun>)
    ensures
        match r {
            Ok(q) => {
                &&& q.well_formed()
                &&& query_plan(coll@, req, max) == Ok::<StatementView, ErrorView>(q@.select)
                &&& q@.coll == coll@
                &&& q@.limit == page_size(req.limit, max)
                &&& q@.compatible == cursor_order(req.sort@)
                &&& q@.projection == projection_view(req.projection)
                &&& q@.stage is Exists
            },
            Err(e) => query_plan(coll@, req, max) == Err::<StatementView, ErrorView>(e@),
        },
{
    match require_valid_name("collection", coll.as_str()) {
        Ok(_) => {},
        Err(e) => {
            return Err(e);
        },
    }
    let filter = match &req.filter {
        Some(f) => compile_filter(Some(f)),
        None => compile_filter(None),
    };
    let where_clause = match filter {
        Ok(w) => w,
        Err(e) => {
            return Err(e);
        },
    };
    let order = match compile_sort(req.sort.as_slice()) {
        Ok(o) => o,
        Err(e) => {
            return Err(e);
        },
    };
    let wanted: u32 = match req.limit {
        Some(n) => n,
        None => 50,
    };
    let capped: u32 = if wanted < max {
        wanted
    } else {
        max
    };
    let limit: u32 = if capped < 1 {
        1
    } else {
        capped
    };
    let offset: u32 = match req.offset {
        Some(n) => n,
        None => 0,
    };
    let compatible = is_cursor_compatible(req.sort.as_slice());
    let head = concat3(
        "SELECT id, json(doc), created_at, updated_at FROM coll_",
        coll.as_str(),
        " WHERE ",
    );
    let mut sql = concat2(head.as_str(), where_clause.sql.as_str());
    let mut params = where_clause.params;
    let size = decimal_text(limit as u64);
    match &req.cursor {
        Some(c) if compatible => {
            sql.append(" AND id > ?");
            push_value(&mut params, Value::Text(c.clone()));
            sql.append(" ");
            sql.append(order.as_str());
            sql.append(" LIMIT ");
            sql.append(size.as_str());
            sql.append("");
        },
        _ => {
            sql.append("");
            sql.append(" ");
            sql.append(order.as_str());
            sql.append(" LIMIT ");
            sql.append(size.as_str());
            let skip = decimal_text(offset as u64);
            let tail = concat2(" OFFSET ", skip.as_str());
            sql.append(tail.as_str());
        },
    }
    Ok(
        QueryRun {
            coll,
            select: crate::sql::query(sql.as_str(), params),
            limit,
            compatible,
            projection: req.projection,
            stage: QueryStage::Exists,
        },
    )
}

/// The rows that came back.
fn selected(reply: &Reply) -> (r: ApiResult<Vec<DocRow>>)
    ensures
        match r {
            Ok(rows) => selected_rows(reply@) == Ok::<Seq<DocRowView>, ErrorView>(
                doc_row_views(rows@),
            ),
            Err(e) => selected_rows(reply@) == Err::<Seq<DocRowView>, ErrorView>(e@),
        },
{
    if reply.is_failed() {
        return Err(reply.error());
    }
    let mut out: Vec<DocRow> = Vec::new();
    let ghost all = reply_rows(reply@);
    match reply.rows() {
        Some(rows) => {
            let mut i: usize = 0;
            while i < rows.len()
                invariant
                    all == reply_rows(reply@),
                    all == rows_view(rows@),
                    !failed(reply@),
                    i <= rows@.len(),
                    out@.len() == i,
                    forall|k: int|
                        0 <= k < i ==> row_view(#[trigger] all[k]) is Some && out@[k]@ == row_view(
                            all[k],
                        )->0,
                decreases rows@.len() - i,
            {
                assert(all[i as int] == value_views(rows@[i as int]@));
                match read_row(&rows[i]) {
                    Some(row) => {
                        out.push(row);
                    },
                    None => {
                        return Err(ApiError::internal());
                    },
                }
                i = i + 1;
            }
        },
        None => {},
    }
    assert(doc_row_views(out@) =~= Seq::new(all.len(), |i: int| row_view(all[i])->0));
    Ok(out)
}

/// A page of documents.
#[derive(Debug)]
pub struct Page {
    pub items: Vec<DocEnvelope>,
    /// Where the next page begins, when there may be one.
    pub next_cursor: Option<String>,
}

pub open spec fn envelope_views(v: Seq<DocEnvelope>) -> Seq<RecordView> {
    Seq::new(v.len(), |i: int| v[i]@)
}

#[verifier::ext_equal]
pub struct PageView {
    pub items: Seq<RecordView>,
    pub next_cursor: Option<Seq<char>>,
}

impl View for Page {
    type V = PageView;

    open spec fn view(&self) -> PageView {
        PageView { items: envelope_views(self.items@), next_cursor: text_view(self.next_cursor) }
    }
}

/// The document of a row as it stands on the page.
pub open spec fn shown(doc: JsonView, projection: Option<Seq<Seq<char>>>) -> JsonView {
    match projection {
        Some(paths) => JsonView::Object(projected(doc, paths)),
        None => doc,
    }
}

/// The text of each row could be read as JSON.
pub open spec fn all_read(rows: Seq<DocRowView>, docs: Seq<Option<JsonView>>) -> bool {
    docs.len() == rows.len() && forall|i: int| 0 <= i < docs.len() ==> #[trigger] docs[i] is Some
}

/// A full page in the order of identifiers may have another page behind it.
pub open spec fn next_page(q: QueryView, rows: Seq<DocRowView>) -> Option<Seq<char>> {
    if q.compatible && rows.len() == q.limit && rows.len() > 0 {
        Some(rows.last().id)
    } else {
        None
    }
}

/// The page that a query comes to. `docs` are the texts of the rows, read as JSON.
pub open spec fn query_page(q: QueryView, docs: Seq<Option<JsonView>>) -> Result<
    PageView,
    ErrorView,
> {
    match q.stage {
        QueryStageView::Absent => Ok(PageView { items: Seq::empty(), next_cursor: None }),
        QueryStageView::Refused(e) => Err(e),
        QueryStageView::Rows(rows) => if all_read(rows, docs) {
            Ok(
                PageView {
                    items: Seq::new(
                        rows.len(),
                        |i: int|
                            RecordView {
                                id: rows[i].id,
                                created_at: rows[i].created_at,
                                updated_at: rows[i].updated_at,
                                doc: shown(docs[i]->0, q.projection),
                            },
                    ),
                    next_cursor: next_page(q, rows),
                },
            )
        } else {
            Err(internal_error())
        },
        _ => Err(internal_error()),
    }
}

pub open spec fn optional_views(v: Seq<Option<Json>>) -> Seq<Option<JsonView>> {
    Seq::new(v.len(), |i: int| option_view(v[i]))
}

impl QueryRun {
    pub open spec fn well_formed(self) -> bool {
        name_ok(self@.coll)
    }

    /// The statement to run next; none when the rows are known.
    pub fn statement(&self) -> (r: Option<Statement>)
        requires
            self.well_formed(),
        ensures
            match r {
                Some(s) => query_asks(self@) == Some(s@),
                None => query_asks(self@) is None,
            },
    {
        match &self.stage {
            QueryStage::Exists => Some(collection_exists(self.coll.as_str())),
            QueryStage::Select => {
                Some(self.select.duplicate())
            },
            _ => None,
        }
    }

    /// Takes the reply to the statement.
    pub fn accept(&mut self, reply: &Reply)
        ensures
            final(self)@ == (QueryView { stage: query_next(old(self)@, reply@), ..old(self)@ }),
    {
        let next = match &self.stage {
            QueryStage::Exists => match is_present(reply) {
                Ok(b) => if b {
                    QueryStage::Select
                } else {
                    QueryStage::Absent
                },
                Err(e) => QueryStage::Refused(e),
            },
            QueryStage::Select => match selected(reply) {
                Ok(rows) => QueryStage::Rows(rows),
                Err(e) => QueryStage::Refused(e),
            },
            _ => {
                return ;
            },
        };
        self.stage = next;
    }

    /// The texts that are to be read as JSON, one for each row.
    pub fn doc_texts(&self) -> (r: Vec<String>)
        ensures
            match self@.stage {
                QueryStageView::Rows(rows) => views(r@) == Seq::new(
                    rows.len(),
                    |i: int| rows[i].doc_text,
                ),
                _ => r@.len() == 0,
            },
    {
        let mut out: Vec<String> = Vec::new();
        match &self.stage {
            QueryStage::Rows(rows) => {
                let mut i: usize = 0;
                while i < rows.len()
                    invariant
                        i <= rows@.len(),
                        out@.len() == i,
                        forall|k: int| 0 <= k < i ==> (#[trigger] out@[k])@ == rows@[k].doc_text@,
                    decreases rows@.len() - i,
                {
                    out.push(rows[i].doc_text.clone());
                    i = i + 1;
                }
                assert(views(out@) =~= Seq::new(
                    doc_row_views(rows@).len(),
                    |i: int| doc_row_views(rows@)[i].doc_text,
                ));
            },
            _ => {},
        }
        out
    }

    /// The page that the query comes to. `docs` are the texts of the rows, read as
    /// JSON.
    pub fn page(self, docs: Vec<Option<Json>>) -> (r: ApiResult<Page>)
        ensures
            match r {
                Ok(p) => query_page(self@, optional_views(docs@)) == Ok::<PageView, ErrorView>(p@),
                Err(e) => query_page(self@, optional_views(docs@)) == Err::<PageView, ErrorView>(
                    e@,
                ),
            },
    {
        let ghost before = self@;
        let ghost read = optional_views(docs@);
        let rows = match self.stage {
            QueryStage::Absent => {
                let p = Page { items: Vec::new(), next_cursor: None };
                assert(p@.items =~= Seq::empty());
                return Ok(p);
            },
            QueryStage::Refused(e) => {
                return Err(e);
            },
            QueryStage::Rows(rows) => rows,
            _ => {
                return Err(ApiError::internal());
            },
        };
        let ghost all = doc_row_views(rows@);
        if docs.len() != rows.len() {
            assert(read.len() != all.len());
            return Err(ApiError::internal());
        }
        let next_cursor = if self.compatible && rows.len() == self.limit as usize && rows.len()
            > 0 {
            Some(rows[rows.len() - 1].id.clone())
        } else {
            None
        };
        let mut items: Vec<DocEnvelope> = Vec::new();
        let mut docs = docs;
        let mut i: usize = 0;
        let ghost given = docs@;
        #[verifier::loop_isolation(false)]
        while i < rows.len()
            invariant
                i <= rows@.len(),
                given.len() == rows@.len(),
                docs@ == given.skip(i as int),
                read == optional_views(given),
                all == doc_row_views(rows@),
                before.stage == QueryStageView::Rows(all),
                before.projection == projection_view(self.projection),
                items@.len() == i,
                forall|k: int| 0 <= k < i ==> #[trigger] read[k] is Some,
                forall|k: int|
                    0 <= k < i ==> (#[trigger] items@[k])@ == (RecordView {
                        id: all[k].id,
                        created_at: all[k].created_at,
                        updated_at: all[k].updated_at,
                        doc: shown(read[k]->0, before.projection),
                    }),
            decreases rows@.len() - i,
        {
            assert(docs@[0] == given[i as int]);
            let d = docs.remove(0);
            assert(docs@ =~= given.skip(i + 1));
            assert(read[i as int] == option_view(d));
            let doc = match d {
                Some(doc) => match &self.projection {
                    Some(paths) => apply_projection(&doc, paths),
                    None => doc,
                },
                None => {
                    assert(!(read[i as int] is Some));
                    return Err(ApiError::internal());
                },
            };
            let row = &rows[i];
            items.push(
                DocEnvelope {
                    id: row.id.clone(),
                    created_at: row.created_at,
                    updated_at: row.updated_at,
                    doc,
                },
            );
            i = i + 1;
        }
        let p = Page { items, next_cursor };
        proof {
            let expected = Seq::new(
                all.len(),
                |i: int|
                    RecordView {
                        id: all[i].id,
                        created_at: all[i].created_at,
                        updated_at: all[i].updated_at,
                        doc: shown(read[i]->0, before.projection),
                    },
            );
            assert(p@.items =~= expected);
            assert(p@.next_cursor == next_page(before, all));
        }
        Ok(p)
    }
}

/// A page as JSON.
pub open spec fn page_json(p: PageView) -> JsonView {
    JsonView::Object(
        map![
            "items"@ => JsonView::Array(
                Seq::new(p.items.len(), |i: int| envelope_view(p.items[i])),
            ),
            "next_cursor"@ => match p.next_cursor {
                Some(c) => JsonView::Text(c),
                None => JsonView::Null,
            },
        ],
    )
}

impl Page {
    pub fn into_json(self) -> (r: Json)
        ensures
            r@ == page_json(self@),
    {
        let ghost all = envelope_views(self.items@);
        let mut rest = self.items;
        let ghost given = rest@;
        let mut items: Vec<Json> = Vec::new();
        let ghost mut i: int = 0;
        assert(given.skip(0) =~= given);
        while rest.len() > 0
            invariant
                0 <= i <= given.len(),
                rest@ == given.skip(i),
                all == envelope_views(given),
                items@.len() == i,
                forall|k: int| 0 <= k < i ==> (#[trigger] items@[k])@ == envelope_view(all[k]),
            decreases rest@.len(),
        {
            assert(rest@[0] == given[i]);
            let env = rest.remove(0);
            assert(rest@ =~= given.skip(i + 1));
            assert(env@ == all[i]);
            items.push(env.into_json());
            proof {
                i = i + 1;
            }
        }
        let arr = Json::Array(items);
        assert(arr@->Array_0 =~= Seq::new(all.len(), |i: int| envelope_view(all[i])));
        let mut e: Vec<(String, Json)> = Vec::new();
        put(&mut e, "items", arr);
        let cursor = match self.next_cursor {
            Some(c) => Json::Text(c),
            None => Json::Null,
        };
        put(&mut e, "next_cursor", cursor);
        Json::Object(e)
    }
}

// ---- Counting --------------------------------------------------------------

/// The statement of a count, or the error that it is answered with.
pub open spec fn count_plan(coll: Seq<char>, req: CountRequest) -> Result<
    StatementView,
    ErrorView,
> {
    if !name_ok(coll) {
        Err(validation_error(name_error("collection"@)))
    } else {
        match filter_clause(req.filter) {
            Err(m) => Err(validation_error(m)),
            Ok(w) => Ok(
                query_view("SELECT count(*) FROM coll_"@ + coll + " WHERE "@ + w.sql, w.params),
            ),
        }
    }
}

/// How far a count has come.
#[derive(Debug)]
pub enum CountStage {
    Exists,
    Select,
    Counted(i64),
    Refused(ApiError),
}

pub enum CountStageView {
    Exists,
    Select,
    Counted(i64),
    Refused(ErrorView),
}

impl View for CountStage {
    type V = CountStageView;

    open spec fn view(&self) -> CountStageView {
        match *self {
            CountStage::Exists => CountStageView::Exists,
            CountStage::Select => CountStageView::Select,
            CountStage::Counted(n) => CountStageView::Counted(n),
            CountStage::Refused(e) => CountStageView::Refused(e@),
        }
    }
}

/// A count in progress.
#[derive(Debug)]
pub struct CountRun {
    coll: String,
    select: Statement,
    stage: CountStage,
}

#[verifier::ext_equal]
pub struct CountView {
    pub coll: Seq<char>,
    pub select: StatementView,
    pub stage: CountStageView,
}

impl View for CountRun {
    type V = CountView;

    closed spec fn view(&self) -> CountView {
        CountView {
            coll: self.coll@,
            select: self.select@,
            stage: self.stage@,
        }
    }
}

pub open spec fn count_asks(c: CountView) -> Option<StatementView> {
    match c.stage {
        CountStageView::Exists => Some(exists_statement(c.coll)),
        CountStageView::Select => Some(c.select),
        _ => None,
    }
}

/// Where the count goes on the reply to its statement. A collection that does not
/// exist has no documents.
pub open spec fn count_next(c: CountView, r: ReplyView) -> CountStageView {
    match c.stage {
        CountStageView::Exists => match presence(r) {
            Ok(true) => CountStageView::Select,
            Ok(false) => CountStageView::Counted(0),
            Err(e) => CountStageView::Refused(e),
        },
        CountStageView::Select => match scalar_int(r) {
            Some(n) => CountStageView::Counted(n),
            None => CountStageView::Refused(reply_error(r)),
        },
        over => over,
    }
}

/// Begins a count.
pub fn count(coll: String, req: CountRequest) -> (r: ApiResult<CountRun>)
    ensures
        match r {
            Ok(c) => {
                &&& c.well_formed()
                &&& count_plan(coll@, req) == Ok::<StatementView, ErrorView>(c@.select)
                &&& c@.coll == coll@
                &&& c@.stage is Exists
            },
            Err(e) => count_plan(coll@, req) == Err::<StatementView, ErrorView>(e@),
        },
{
    match require_valid_name("collection", coll.as_str()) {
        Ok(_) => {},
        Err(e) => {
            return Err(e);
        },
    }
    let filter = match &req.filter {
        Some(f) => compile_filter(Some(f)),
        None => compile_filter(None),
    };
    match filter {
        Ok(w) => {
            let head = concat3("SELECT count(*) FROM coll_", coll.as_str(), " WHERE ");
            let sql = concat2(head.as_str(), w.sql.as_str());
            let select = crate::sql::query(sql.as_str(), w.params);
            Ok(CountRun { coll, select, stage: CountStage::Exists })
        },
        Err(e) => Err(e),
    }
}

impl CountRun {
    pub open spec fn well_formed(self) -> bool {
        name_ok(self@.coll)
    }

    /// The statement to run next; none when the count is known.
    pub fn statement(&self) -> (r: Option<Statement>)
        requires
            self.well_formed(),
        ensures
            match r {
                Some(s) => count_asks(self@) == Some(s@),
                None => count_asks(self@) is None,
            },
    {
        match &self.stage {
            CountStage::Exists => Some(collection_exists(self.coll.as_str())),
            CountStage::Select => {
                Some(self.select.duplicate())
            },
            _ => None,
        }
    }

    /// Takes the reply to the statement.
    pub fn accept(&mut self, reply: &Reply)
        ensures
            final(self)@ == (CountView { stage: count_next(old(self)@, reply@), ..old(self)@ }),
    {
        let next = match &self.stage {
            CountStage::Exists => match is_present(reply) {
                Ok(b) => if b {
                    CountStage::Select
                } else {
                    CountStage::Counted(0)
                },
                Err(e) => CountStage::Refused(e),
            },
            CountStage::Select => match reply.scalar_int() {
                Some(n) => CountStage::Counted(n),
                None => CountStage::Refused(reply.error()),
            },
            _ => {
                return ;
            },
        };
        self.stage = next;
    }

    /// The count as it is answered, once it is known.
    pub fn answer(self) -> (r: ApiResult<Json>)
        ensures
            match self@.stage {
                CountStageView::Counted(n) => r matches Ok(j) && j@ == JsonView::Object(
                    map!["count"@ => int_view(n as int)],
                ),
                CountStageView::Refused(e) => r matches Err(x) && x@ == e,
                _ => r matches Err(x) && x@ == internal_error(),
            },
    {
        match self.stage {
            CountStage::Counted(n) => {
                let mut e: Vec<(String, Json)> = Vec::new();
                put(&mut e, "count", json_int(n));
                Ok(Json::Object(e))
            },
            CountStage::Refused(e) => Err(e),
            _ => Err(ApiError::internal()),
        }
    }
}

// ---- What holds of every query ---------------------------------------------

/// A page holds at least one and never more documents than the configured
/// maximum, and exactly the number asked for where that lies between.
pub proof fn law_page_size_is_clamped(asked: Option<u32>, max: u32)
    requires
        max >= 1,
    ensures
        1 <= page_size(asked, max) <= max,
        asked matches Some(n) ==> (1 <= n <= max ==> page_size(asked, max) == n),
{
}

/// A next page is announced only for an order by identifier and after a full
/// page, and it begins behind the last document of this one.
pub proof fn law_next_cursor(q: QueryView, docs: Seq<Option<JsonView>>, p: PageView)
    requires
        query_page(q, docs) == Ok::<PageView, ErrorView>(p),
    ensures
        p.next_cursor is Some ==> q.compatible && p.items.len() == q.limit && p.next_cursor == Some(
            p.items.last().id,
        ),
        q.compatible && p.items.len() == q.limit && p.items.len() > 0 ==> p.next_cursor is Some,
{
}

} // verus!
