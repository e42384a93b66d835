//! Change events, the equality filter of a subscription, and what a subscriber is
//! sent.

use crate::errors::{bad_request_error, internal_error, ApiError, ApiResult, ErrorView};
use crate::ids::{all_idents, field_ok};
use crate::json::{
    duplicate, int_view, json_eq, json_int, json_text, lookup, member, object_view, option_view, put,
    reached, Json, JsonView, NumberView,
};
use crate::sql::{
    cell_int, cell_optional_text, cell_text, failed, get_int, get_optional_text, get_text,
    no_params, params2, query, query_view, reply_error, reply_rows, rows_view, scalar_int,
    scalar_optional_int, text_value, text_view, value_views, Reply, ReplyView, Statement,
    StatementView, Value, ValueView,
};
use crate::text::{
    chars_of, law_written_numbers_are_read_back, parse_signed, parsed_signed, same, signed_decimal, signed_text, split, split_text,
    starts_with_char, trim_text, trimmed, views,
};
use vstd::prelude::*;

verus! {

/// The kind of a change.
#[derive(Debug, Clone, Copy, PartialEq, Eq, Structural)]
pub enum Op {
    Insert,
    Update,
    Delete,
}

pub open spec fn op_name(op: Op) -> Seq<char> {
    match op {
        Op::Insert => "insert"@,
        Op::Update => "update"@,
        Op::Delete => "delete"@,
    }
}

impl Op {
    /// The name of the change in events and in the change log.
    pub fn as_str(self) -> (r: &'static str)
        ensures
            r@ == op_name(self),
    {
        match self {
            Op::Insert => "insert",
            Op::Update => "update",
            Op::Delete => "delete",
        }
    }
}

/// A change, sent to subscribers once it is committed.
#[derive(Debug)]
pub struct ChangeEvent {
    pub seq: i64,
    pub collection: String,
    pub op: Op,
    pub id: String,
    /// The new document; none for a delete.
    pub doc: Option<Json>,
}

#[verifier::ext_equal]
pub struct EventView {
    pub seq: i64,
    pub collection: Seq<char>,
    pub op: Op,
    pub id: Seq<char>,
    pub doc: Option<JsonView>,
}

impl View for ChangeEvent {
    type V = EventView;

    open spec fn view(&self) -> EventView {
        EventView {
            seq: self.seq,
            collection: self.collection@,
            op: self.op,
            id: self.id@,
            doc: option_view(self.doc),
        }
    }
}

pub open spec fn event_views(v: Seq<ChangeEvent>) -> Seq<EventView> {
    Seq::new(v.len(), |i: int| v[i]@)
}

// ---- The equality filter of a subscription ---------------------------------

/// What a field has to equal.
#[derive(Debug)]
pub enum EqMatch {
    Eq(Json),
    /// One of these values.
    In(Vec<Json>),
}

/// A filter of equalities: each field has to equal a value, or one of several.
#[derive(Debug)]
pub struct EqFilter {
    clauses: Vec<(Vec<String>, EqMatch)>,
}

pub enum MatchView {
    Eq(JsonView),
    In(Seq<JsonView>),
}

#[verifier::ext_equal]
pub struct EqClause {
    pub path: Seq<Seq<char>>,
    pub value: MatchView,
}

pub open spec fn json_views(v: Seq<Json>) -> Seq<JsonView> {
    Seq::new(v.len(), |i: int| v[i]@)
}

impl View for EqMatch {
    type V = MatchView;

    open spec fn view(&self) -> MatchView {
        match *self {
            EqMatch::Eq(v) => MatchView::Eq(v@),
            EqMatch::In(vs) => MatchView::In(json_views(vs@)),
        }
    }
}

pub open spec fn clause_view(c: (Vec<String>, EqMatch)) -> EqClause {
    EqClause { path: views(c.0@), value: c.1@ }
}

impl View for EqFilter {
    type V = Seq<EqClause>;

    closed spec fn view(&self) -> Seq<EqClause> {
        Seq::new(self.clauses@.len(), |i: int| clause_view(self.clauses@[i]))
    }
}

/// The path of a field, or what is said of a key that is no field.
pub open spec fn filter_path(key: Seq<char>) -> Result<Seq<Seq<char>>, Seq<char>> {
    if key.len() == 0 {
        Err("empty field in subscribe filter"@)
    } else if field_ok(key) {
        Ok(split(key, '.'))
    } else {
        Err("invalid field in subscribe filter"@)
    }
}

/// What a field has to equal, or what is said of a value that sets no equality. A
/// list is none: membership is written with `$in`.
pub open spec fn filter_value(val: Json) -> Result<MatchView, Seq<char>> {
    match val {
        Json::Object(map) => if map@.len() != 1 {
            Err("subscribe filter operator map must have exactly one operator"@)
        } else if map@[0].0@ == "$eq"@ {
            Ok(MatchView::Eq(map@[0].1@))
        } else if map@[0].0@ == "$in"@ {
            match map@[0].1 {
                Json::Array(vs) => Ok(MatchView::In(json_views(vs@))),
                _ => Err("$in requires an array"@),
            }
        } else {
            Err("subscribe filter supports only $eq and $in"@)
        },
        Json::Array(_) => Err("subscribe filter supports only field equality and $in"@),
        scalar => Ok(MatchView::Eq(scalar@)),
    }
}

/// One entry of a filter.
pub open spec fn filter_entry(entry: (String, Json)) -> Result<EqClause, Seq<char>> {
    if entry.0@.len() > 0 && entry.0@[0] == '$' {
        Err("subscribe filter supports only field equality and $in"@)
    } else {
        match filter_path(entry.0@) {
            Err(m) => Err(m),
            Ok(path) => match filter_value(entry.1) {
                Err(m) => Err(m),
                Ok(value) => Ok(EqClause { path, value }),
            },
        }
    }
}

/// The entries of a filter, or what is said of the first that is none.
pub open spec fn filter_entries(entries: Seq<(String, Json)>) -> Result<Seq<EqClause>, Seq<char>>
    decreases entries.len(),
{
    if entries.len() == 0 {
        Ok(Seq::empty())
    } else {
        match filter_entries(entries.drop_last()) {
            Err(m) => Err(m),
            Ok(before) => match filter_entry(entries.last()) {
                Err(m) => Err(m),
                Ok(c) => Ok(before.push(c)),
            },
        }
    }
}

/// What a filter says, or what is said of a value that is none.
pub open spec fn eq_filter(value: Json) -> Result<Seq<EqClause>, Seq<char>> {
    match value {
        Json::Object(e) => filter_entries(e@),
        _ => Err("subscribe filter must be a JSON object"@),
    }
}

/// The document meets the clause.
pub open spec fn meets(doc: JsonView, c: EqClause) -> bool {
    match reached(doc, c.path) {
        None => false,
        Some(actual) => match c.value {
            MatchView::Eq(v) => actual == v,
            MatchView::In(vs) => vs.contains(actual),
        },
    }
}

/// The document meets every clause.
pub open spec fn meets_all(doc: JsonView, clauses: Seq<EqClause>) -> bool {
    forall|i: int| 0 <= i < clauses.len() ==> meets(doc, #[trigger] clauses[i])
}

proof fn lemma_entries_refused(entries: Seq<(String, Json)>, i: int)
    requires
        0 <= i <= entries.len(),
        filter_entries(entries.take(i)) is Err,
    ensures
        filter_entries(entries) == filter_entries(entries.take(i)),
    decreases entries.len() - i,
{
    if i < entries.len() {
        assert(entries.take(i + 1).drop_last() =~= entries.take(i));
        lemma_entries_refused(entries, i + 1);
    } else {
        assert(entries.take(i) =~= entries);
    }
}

/// The path of a field in dot notation.
fn split_field(key: &str) -> (r: ApiResult<Vec<String>>)
    ensures
        match r {
            Ok(p) => filter_path(key@) == Ok::<Seq<Seq<char>>, Seq<char>>(views(p@)),
            Err(e) => filter_path(key@) matches Err(m) && e@ == bad_request_error(m),
        },
{
    if chars_of(key).len() == 0 {
        return Err(ApiError::bad_request("empty field in subscribe filter"));
    }
    let segs = split_text(key, '.');
    if all_idents(&segs) {
        Ok(segs)
    } else {
        Err(ApiError::bad_request("invalid field in subscribe filter"))
    }
}

/// A copy of a list of values.
fn duplicate_all(vs: &Vec<Json>) -> (r: Vec<Json>)
    ensures
        json_views(r@) == json_views(vs@),
{
    let mut out: Vec<Json> = Vec::new();
    let mut i: usize = 0;
    while i < vs.len()
        invariant
            i <= vs@.len(),
            out@.len() == i,
            forall|k: int| 0 <= k < i ==> (#[trigger] out@[k])@ == vs@[k]@,
        decreases vs@.len() - i,
    {
        out.push(duplicate(&vs[i]));
        i = i + 1;
    }
    assert(json_views(out@) =~= json_views(vs@));
    out
}

/// What a field has to equal.
fn parse_match(val: &Json) -> (r: ApiResult<EqMatch>)
    ensures
        match r {
            Ok(m) => filter_value(*val) == Ok::<MatchView, Seq<char>>(m@),
            Err(e) => filter_value(*val) matches Err(m) && e@ == bad_request_error(m),
        },
{
    match val {
        Json::Object(map) => {
            if map.len() != 1 {
                return Err(
                    ApiError::bad_request(
                        "subscribe filter operator map must have exactly one operator",
                    ),
                );
            }
            let op = map[0].0.as_str();
            if same(op, "$eq") {
                Ok(EqMatch::Eq(duplicate(&map[0].1)))
            } else if same(op, "$in") {
                match &map[0].1 {
                    Json::Array(vs) => Ok(EqMatch::In(duplicate_all(vs))),
                    _ => Err(ApiError::bad_request("$in requires an array")),
                }
            } else {
                Err(ApiError::bad_request("subscribe filter supports only $eq and $in"))
            }
        },
        Json::Array(_) => Err(
            ApiError::bad_request("subscribe filter supports only field equality and $in"),
        ),
        _ => Ok(EqMatch::Eq(duplicate(val))),
    }
}

impl EqFilter {
    /// Reads a filter. Anything but equalities is refused.
    pub fn parse(value: &Json) -> (r: ApiResult<EqFilter>)
        ensures
            match r {
                Ok(f) => eq_filter(*value) == Ok::<Seq<EqClause>, Seq<char>>(f@),
                Err(e) => eq_filter(*value) matches Err(m) && e@ == bad_request_error(m),
            },
    {
        let obj = match value {
            Json::Object(e) => e,
            _ => {
                return Err(ApiError::bad_request("subscribe filter must be a JSON object"));
            },
        };
        let mut f = EqFilter { clauses: Vec::new() };
        let mut i: usize = 0;
        assert(obj@.take(0).len() == 0);
        assert(f@ =~= Seq::empty());
        #[verifier::loop_isolation(false)]
        while i < obj.len()
            invariant
                i <= obj@.len(),
                filter_entries(obj@.take(i as int)) == Ok::<Seq<EqClause>, Seq<char>>(f@),
            decreases obj@.len() - i,
        {
            proof {
                assert(obj@.take(i + 1).drop_last() =~= obj@.take(i as int));
                assert(obj@.take(i + 1).last() == obj@[i as int]);
                if filter_entry(obj@[i as int]) is Err {
                    lemma_entries_refused(obj@, i + 1);
                }
            }
            let key = obj[i].0.as_str();
            if starts_with_char(key, '$') {
                return Err(
                    ApiError::bad_request("subscribe filter supports only field equality and $in"),
                );
            }
            let path = match split_field(key) {
                Ok(p) => p,
                Err(e) => {
                    return Err(e);
                },
            };
            let m = match parse_match(&obj[i].1) {
                Ok(m) => m,
                Err(e) => {
                    return Err(e);
                },
            };
            let ghost before = f@;
            f.clauses.push((path, m));
            assert(f@ =~= before.push(EqClause { path: views(path@), value: m@ }));
            i = i + 1;
        }
        assert(obj@.take(obj@.len() as int) =~= obj@);
        Ok(f)
    }

    /// Whether a document meets the filter.
    pub fn matches(&self, doc: &Json) -> (r: bool)
        ensures
            r == meets_all(doc@, self@),
    {
        let mut i: usize = 0;
        while i < self.clauses.len()
            invariant
                i <= self.clauses@.len(),
                forall|k: int| 0 <= k < i ==> meets(doc@, #[trigger] self@[k]),
            decreases self.clauses@.len() - i,
        {
            let clause = &self.clauses[i];
            assert(self@[i as int] == clause_view(*clause));
            let met = match lookup(doc, &clause.0) {
                None => false,
                Some(actual) => match &clause.1 {
                    EqMatch::Eq(v) => json_eq(actual, v),
                    EqMatch::In(vs) => is_among(actual, vs),
                },
            };
            if !met {
                return false;
            }
            i = i + 1;
        }
        true
    }
}

/// Whether a value is one of several.
fn is_among(actual: &Json, vs: &Vec<Json>) -> (r: bool)
    ensures
        r == json_views(vs@).contains(actual@),
{
    let mut i: usize = 0;
    while i < vs.len()
        invariant
            i <= vs@.len(),
            forall|k: int| 0 <= k < i ==> (#[trigger] json_views(vs@)[k]) != actual@,
        decreases vs@.len() - i,
    {
        if json_eq(&vs[i], actual) {
            assert(json_views(vs@)[i as int] == actual@);
            return true;
        }
        i = i + 1;
    }
    false
}

/// The filter of a subscription, where there is one.
pub open spec fn filter_view(f: Option<EqFilter>) -> Option<Seq<EqClause>> {
    match f {
        Some(x) => Some(x@),
        None => None,
    }
}

/// A change is sent to a subscriber: a delete always, any other change when the new
/// document meets the filter.
pub open spec fn passes(op: Op, doc: Option<JsonView>, filter: Option<Seq<EqClause>>) -> bool {
    match filter {
        None => true,
        Some(clauses) => op == Op::Delete || (doc matches Some(d) && meets_all(d, clauses)),
    }
}

/// Whether a change is sent to a subscriber.
pub fn event_passes(op: Op, doc: Option<&Json>, filter: &Option<EqFilter>) -> (r: bool)
    ensures
        r == passes(
            op,
            match doc {
                Some(d) => Some(d@),
                None => None,
            },
            filter_view(*filter),
        ),
{
    match filter {
        None => true,
        Some(f) => match op {
            Op::Delete => true,
            _ => match doc {
                Some(d) => f.matches(d),
                None => false,
            },
        },
    }
}

// ---- Resuming --------------------------------------------------------------

/// What a client may add to its subscription.
#[derive(Debug)]
pub struct SubscribeQuery {
    /// An equality filter, as JSON text.
    pub filter: Option<String>,
}

/// The number of the last event that a client has seen, as its header tells.
pub open spec fn last_event_id(header: Option<Seq<char>>) -> Option<int> {
    match header {
        Some(s) => parsed_signed(trimmed(s)),
        None => None,
    }
}

/// Reads the number of the last event that a client has seen. A header that is no
/// number counts as none.
pub fn parse_last_event_id(header: Option<&str>) -> (r: Option<i64>)
    ensures
        ({
            let expected = last_event_id(
                match header {
                    Some(h) => Some(h@),
                    None => None,
                },
            );
            match r {
                Some(n) => expected == Some(n as int),
                None => expected is None,
            }
        }),
{
    match header {
        Some(h) => {
            let t = trim_text(h);
            parse_signed(t.as_str())
        },
        None => None,
    }
}

pub open spec fn named_op(s: Seq<char>) -> Op {
    if s == "insert"@ {
        Op::Insert
    } else if s == "update"@ {
        Op::Update
    } else {
        Op::Delete
    }
}

/// The kind of change that the change log names.
pub fn parse_op(s: &str) -> (r: Op)
    ensures
        r == named_op(s@),
{
    if same(s, "insert") {
        Op::Insert
    } else if same(s, "update") {
        Op::Update
    } else {
        Op::Delete
    }
}

/// What the change log names a change is read as that change.
pub proof fn law_op_names_are_read_back(op: Op)
    ensures
        named_op(op_name(op)) == op,
{
    reveal_strlit("insert");
    reveal_strlit("update");
    reveal_strlit("delete");
    assert("insert"@[0] == 'i' && "update"@[0] == 'u' && "delete"@[0] == 'd');
}

/// A row of the change log, with the document as JSON text.
#[derive(Debug)]
pub struct LogRow {
    pub seq: i64,
    pub op: Op,
    pub doc_id: String,
    pub doc_text: Option<String>,
}

#[verifier::ext_equal]
pub struct LogRowView {
    pub seq: i64,
    pub op: Op,
    pub doc_id: Seq<char>,
    pub doc_text: Option<Seq<char>>,
}

impl View for LogRow {
    type V = LogRowView;

    open spec fn view(&self) -> LogRowView {
        LogRowView {
            seq: self.seq,
            op: self.op,
            doc_id: self.doc_id@,
            doc_text: text_view(self.doc_text),
        }
    }
}

pub open spec fn log_row_views(v: Seq<LogRow>) -> Seq<LogRowView> {
    Seq::new(v.len(), |i: int| v[i]@)
}

/// What a row of the change log says, if its cells have the types that they
/// should.
pub open spec fn log_row(row: Seq<ValueView>) -> Option<LogRowView> {
    match (
        cell_int(row, 0),
        cell_text(row, 1),
        cell_text(row, 2),
        cell_optional_text(row, 3),
    ) {
        (Some(seq), Some(op), Some(doc_id), Some(doc_text)) => Some(
            LogRowView { seq, op: named_op(op), doc_id, doc_text },
        ),
        _ => None,
    }
}

fn read_log_row(row: &Vec<Value>) -> (r: Option<LogRow>)
    ensures
        match r {
            Some(x) => log_row(value_views(row@)) == Some(x@),
            None => log_row(value_views(row@)) is None,
        },
{
    match (get_int(row, 0), get_text(row, 1), get_text(row, 2), get_optional_text(row, 3)) {
        (Some(seq), Some(op), Some(doc_id), Some(doc_text)) => Some(
            LogRow { seq, op: parse_op(op.as_str()), doc_id, doc_text },
        ),
        _ => None,
    }
}

/// Every row says what a row of the change log should.
pub open spec fn log_readable(rows: Seq<Seq<ValueView>>) -> bool {
    forall|i: int| 0 <= i < rows.len() ==> log_row(#[trigger] rows[i]) is Some
}

/// The rows of the change log that came back.
pub open spec fn logged_rows(r: ReplyView) -> Result<Seq<LogRowView>, ErrorView> {
    if failed(r) {
        Err(reply_error(r))
    } else if !log_readable(reply_rows(r)) {
        Err(internal_error())
    } else {
        Ok(Seq::new(reply_rows(r).len(), |i: int| log_row(reply_rows(r)[i])->0))
    }
}

fn logged(reply: &Reply) -> (r: ApiResult<Vec<LogRow>>)
    ensures
        match r {
            Ok(rows) => logged_rows(reply@) == Ok::<Seq<LogRowView>, ErrorView>(
                log_row_views(rows@),
            ),
            Err(e) => logged_rows(reply@) == Err::<Seq<LogRowView>, ErrorView>(e@),
        },
{
    if reply.is_failed() {
        return Err(reply.error());
    }
    let mut out: Vec<LogRow> = Vec::new();
    let ghost all = reply_rows(reply@);
    match reply.rows() {
        Some(rows) => {
            let mut i: usize = 0;
            while i < rows.len()
                invariant
                    all == reply_rows(reply@),
                    all == rows_view(rows@),
                    !failed(reply@),
                    i <= rows@.len(),
                    out@.len() == i,
                    forall|k: int|
                        0 <= k < i ==> log_row(#[trigger] all[k]) is Some && out@[k]@ == log_row(
                            all[k],
                        )->0,
                decreases rows@.len() - i,
            {
                assert(all[i as int] == value_views(rows@[i as int]@));
                match read_log_row(&rows[i]) {
                    Some(row) => {
                        out.push(row);
                    },
                    None => {
                        return Err(ApiError::internal());
                    },
                }
                i = i + 1;
            }
        },
        None => {},
    }
    assert(log_row_views(out@) =~= Seq::new(all.len(), |i: int| log_row(all[i])->0));
    Ok(out)
}

/// How far the preparation of a subscription has come.
#[derive(Debug)]
pub enum ResumeStage {
    /// The number of the newest change.
    Newest,
    /// The number of the oldest change that is kept.
    Oldest { newest: i64 },
    /// The changes that the client has missed.
    Missed,
    /// Nothing is replayed.
    Attach { resync: bool, max_sent: i64 },
    /// The texts of the rows are to be read as JSON, and the rows replayed.
    Replay(Vec<LogRow>),
    Refused(ApiError),
}

pub enum ResumeStageView {
    Newest,
    Oldest { newest: i64 },
    Missed,
    Attach { resync: bool, max_sent: i64 },
    Replay(Seq<LogRowView>),
    Refused(ErrorView),
}

impl View for ResumeStage {
    type V = ResumeStageView;

    open spec fn view(&self) -> ResumeStageView {
        match *self {
            ResumeStage::Newest => ResumeStageView::Newest,
            ResumeStage::Oldest { newest } => ResumeStageView::Oldest { newest },
            ResumeStage::Missed => ResumeStageView::Missed,
            ResumeStage::Attach { resync, max_sent } => ResumeStageView::Attach {
                resync,
                max_sent,
            },
            ResumeStage::Replay(rows) => ResumeStageView::Replay(log_row_views(rows@)),
            ResumeStage::Refused(e) => ResumeStageView::Refused(e@),
        }
    }
}

/// The preparation of a subscription in progress.
#[derive(Debug)]
pub struct ResumeRun {
    coll: String,
    last: Option<i64>,
    stage: ResumeStage,
}

#[verifier::ext_equal]
pub struct ResumeView {
    pub coll: Seq<char>,
    pub last: Option<i64>,
    pub stage: ResumeStageView,
}

impl View for ResumeRun {
    type V = ResumeView;

    closed spec fn view(&self) -> ResumeView {
        ResumeView { coll: self.coll@, last: self.last, stage: self.stage@ }
    }
}

/// What the preparation asks of the engine next.
pub open spec fn resume_asks(s: ResumeView) -> Option<StatementView> {
    match s.stage {
        ResumeStageView::Newest => Some(
            query_view("SELECT COALESCE(MAX(seq), 0) FROM _changelog"@, Seq::empty()),
        ),
        ResumeStageView::Oldest { .. } => Some(
            query_view("SELECT MIN(seq) FROM _changelog"@, Seq::empty()),
        ),
        ResumeStageView::Missed => Some(
            query_view(
                "SELECT seq, op, doc_id, json(doc) FROM _changelog WHERE seq > ?1 AND collection = ?2 ORDER BY seq"@,
                seq![
                    ValueView::Integer(
                        match s.last {
                            Some(n) => n,
                            None => 0,
                        },
                    ),
                    ValueView::Text(s.coll),
                ],
            ),
        ),
        _ => None,
    }
}

/// Where the preparation goes on the reply to its statement. A new subscriber gets
/// what comes from now on. One that has missed changes which are no longer kept is
/// told to read everything anew.
pub open spec fn resume_next(s: ResumeView, r: ReplyView) -> ResumeStageView {
    match s.stage {
        ResumeStageView::Newest => match scalar_int(r) {
            None => ResumeStageView::Refused(reply_error(r)),
            Some(newest) => if s.last is None {
                ResumeStageView::Attach { resync: false, max_sent: newest }
            } else {
                ResumeStageView::Oldest { newest }
            },
        },
        ResumeStageView::Oldest { newest } => match scalar_optional_int(r) {
            None => ResumeStageView::Refused(reply_error(r)),
            Some(oldest) => if oldest matches Some(min) && s.last matches Some(last) && last + 1
                < min {
                ResumeStageView::Attach { resync: true, max_sent: newest }
            } else {
                ResumeStageView::Missed
            },
        },
        ResumeStageView::Missed => match logged_rows(r) {
            Ok(rows) => ResumeStageView::Replay(rows),
            Err(e) => ResumeStageView::Refused(e),
        },
        over => over,
    }
}

/// What to send before the live events.
#[derive(Debug)]
pub struct ResumePlan {
    pub resync: bool,
    pub replay: Vec<ChangeEvent>,
    /// Live events up to this number have been sent.
    pub max_sent: i64,
}

#[verifier::ext_equal]
pub struct PlanView {
    pub resync: bool,
    pub replay: Seq<EventView>,
    pub max_sent: i64,
}

impl View for ResumePlan {
    type V = PlanView;

    open spec fn view(&self) -> PlanView {
        PlanView {
            resync: self.resync,
            replay: event_views(self.replay@),
            max_sent: self.max_sent,
        }
    }
}

/// The greatest of `floor` and the numbers of the rows.
pub open spec fn greatest(floor: i64, rows: Seq<LogRowView>) -> i64
    decreases rows.len(),
{
    if rows.len() == 0 {
        floor
    } else {
        let before = greatest(floor, rows.drop_last());
        if rows.last().seq > before {
            rows.last().seq
        } else {
            before
        }
    }
}

/// The document of a row, if its text could be read as JSON.
pub open spec fn doc_at(docs: Seq<Option<JsonView>>, i: int) -> Option<JsonView> {
    if i < docs.len() {
        docs[i]
    } else {
        None
    }
}

/// The events of the rows that pass the filter, in the order of the rows.
pub open spec fn replayed(
    rows: Seq<LogRowView>,
    docs: Seq<Option<JsonView>>,
    coll: Seq<char>,
    filter: Option<Seq<EqClause>>,
) -> Seq<EventView>
    decreases rows.len(),
{
    if rows.len() == 0 {
        Seq::empty()
    } else {
        let before = replayed(rows.drop_last(), docs, coll, filter);
        let row = rows.last();
        let doc = doc_at(docs, rows.len() - 1);
        if passes(row.op, doc, filter) {
            before.push(
                EventView { seq: row.seq, collection: coll, op: row.op, id: row.doc_id, doc },
            )
        } else {
            before
        }
    }
}

/// What to send before the live events. `docs` are the texts of the rows, read as
/// JSON.
pub open spec fn resume_plan(
    s: ResumeView,
    docs: Seq<Option<JsonView>>,
    filter: Option<Seq<EqClause>>,
) -> Result<PlanView, ErrorView> {
    match s.stage {
        ResumeStageView::Attach { resync, max_sent } => Ok(
            PlanView { resync, replay: Seq::empty(), max_sent },
        ),
        ResumeStageView::Replay(rows) => Ok(
            PlanView {
                resync: false,
                replay: replayed(rows, docs, s.coll, filter),
                max_sent: greatest(
                    match s.last {
                        Some(n) => n,
                        None => 0,
                    },
                    rows,
                ),
            },
        ),
        ResumeStageView::Refused(e) => Err(e),
        _ => Err(internal_error()),
    }
}

/// Begins to prepare a subscription. `last` is the number of the last event that
/// the client has seen.
pub fn build_resume_plan(coll: String, last: Option<i64>) -> (r: ResumeRun)
    ensures
        r@ == (ResumeView { coll: coll@, last, stage: ResumeStageView::Newest }),
{
    ResumeRun { coll, last, stage: ResumeStage::Newest }
}

impl ResumeRun {
    /// The statement to run next; none when the rows are known.
    pub fn statement(&self) -> (r: Option<Statement>)
        ensures
            match r {
                Some(s) => resume_asks(self@) == Some(s@),
                None => resume_asks(self@) is None,
            },
    {
        match &self.stage {
            ResumeStage::Newest => Some(
                no_params("SELECT COALESCE(MAX(seq), 0) FROM _changelog"),
            ),
            ResumeStage::Oldest { .. } => Some(
                no_params("SELECT MIN(seq) FROM _changelog"),
            ),
            ResumeStage::Missed => {
                let last: i64 = match self.last {
                    Some(n) => n,
                    None => 0,
                };
                Some(
                    query(
                        "SELECT seq, op, doc_id, json(doc) FROM _changelog WHERE seq > ?1 AND collection = ?2 ORDER BY seq",
                        params2(Value::Integer(last), text_value(self.coll.as_str())),
                    ),
                )
            },
            _ => None,
        }
    }

    /// Takes the reply to the statement.
    pub fn accept(&mut self, reply: &Reply)
        ensures
            final(self)@ == (ResumeView { stage: resume_next(old(self)@, reply@), ..old(self)@ }),
    {
        let next = match &self.stage {
            ResumeStage::Newest => match reply.scalar_int() {
                None => ResumeStage::Refused(reply.error()),
                Some(newest) => if self.last.is_none() {
                    ResumeStage::Attach { resync: false, max_sent: newest }
                } else {
                    ResumeStage::Oldest { newest }
                },
            },
            ResumeStage::Oldest { newest } => match reply.scalar_optional_int() {
                None => ResumeStage::Refused(reply.error()),
                Some(oldest) => {
                    let gap = match (oldest, self.last) {
                        (Some(min), Some(last)) => last < i64::MAX && last + 1 < min,
                        _ => false,
                    };
                    if gap {
                        ResumeStage::Attach { resync: true, max_sent: *newest }
                    } else {
                        ResumeStage::Missed
                    }
                },
            },
            ResumeStage::Missed => match logged(reply) {
                Ok(rows) => ResumeStage::Replay(rows),
                Err(e) => ResumeStage::Refused(e),
            },
            _ => {
                return ;
            },
        };
        self.stage = next;
    }

    /// The texts that are to be read as JSON, one for each row; none for a delete.
    pub fn doc_texts(&self) -> (r: Vec<Option<String>>)
        ensures
            match self@.stage {
                ResumeStageView::Replay(rows) => r@.len() == rows.len() && forall|i: int|
                    0 <= i < rows.len() ==> text_view(#[trigger] r@[i]) == rows[i].doc_text,
                _ => r@.len() == 0,
            },
    {
        let mut out: Vec<Option<String>> = Vec::new();
        match &self.stage {
            ResumeStage::Replay(rows) => {
                let mut i: usize = 0;
                while i < rows.len()
                    invariant
                        i <= rows@.len(),
                        out@.len() == i,
                        forall|k: int|
                            0 <= k < i ==> text_view(#[trigger] out@[k]) == text_view(
                                rows@[k].doc_text,
                            ),
                    decreases rows@.len() - i,
                {
                    let t = match &rows[i].doc_text {
                        Some(t) => Some(t.clone()),
                        None => None,
                    };
                    out.push(t);
                    i = i + 1;
                }
            },
            _ => {},
        }
        out
    }

    /// What to send before the live events. `docs` are the texts of the rows, read
    /// as JSON.
    pub fn plan(self, docs: Vec<Option<Json>>, filter: &Option<EqFilter>) -> (r: ApiResult<
        ResumePlan,
    >)
        ensures
            ({
                let expected = resume_plan(
                    self@,
                    Seq::new(docs@.len(), |i: int| option_view(docs@[i])),
                    filter_view(*filter),
                );
                match r {
                    Ok(p) => expected == Ok::<PlanView, ErrorView>(p@),
                    Err(e) => expected == Err::<PlanView, ErrorView>(e@),
                }
            }),
    {
        let ghost read = Seq::new(docs@.len(), |i: int| option_view(docs@[i]));
        let ghost coll = self.coll@;
        let rows = match self.stage {
            ResumeStage::Attach { resync, max_sent } => {
                let p = ResumePlan { resync, replay: Vec::new(), max_sent };
                assert(p@.replay =~= Seq::empty());
                return Ok(p);
            },
            ResumeStage::Replay(rows) => rows,
            ResumeStage::Refused(e) => {
                return Err(e);
            },
            _ => {
                return Err(ApiError::internal());
            },
        };
        let ghost all = log_row_views(rows@);
        let ghost given = docs@;
        let mut docs = docs;
        let floor: i64 = match self.last {
            Some(n) => n,
            None => 0,
        };
        let mut max_sent: i64 = floor;
        let mut replay: Vec<ChangeEvent> = Vec::new();
        let mut i: usize = 0;
        assert(all.take(0).len() == 0);
        assert(event_views(replay@) =~= Seq::empty());
        assert(docs@ =~= given.skip(0));
        while i < rows.len()
            invariant
                i <= rows@.len(),
                all == log_row_views(rows@),
                read == Seq::new(given.len(), |i: int| option_view(given[i])),
                docs@ == (if i <= given.len() {
                    given.skip(i as int)
                } else {
                    Seq::empty()
                }),
                coll == self.coll@,
                max_sent == greatest(floor, all.take(i as int)),
                event_views(replay@) == replayed(
                    all.take(i as int),
                    read,
                    coll,
                    filter_view(*filter),
                ),
            decreases rows@.len() - i,
        {
            assert(all.take(i + 1).drop_last() =~= all.take(i as int));
            assert(all.take(i + 1).last() == rows@[i as int]@);
            let row = &rows[i];
            if row.seq > max_sent {
                max_sent = row.seq;
            }
            let doc = if docs.len() > 0 {
                assert(docs@[0] == given[i as int]);
                let d = docs.remove(0);
                assert(docs@ =~= given.skip(i + 1));
                d
            } else {
                None
            };
            assert(option_view(doc) == doc_at(read, i as int));
            let keep = match &doc {
                Some(d) => event_passes(row.op, Some(d), filter),
                None => event_passes(row.op, None, filter),
            };
            if keep {
                let ghost before = replay@;
                let ev = ChangeEvent {
                    seq: row.seq,
                    collection: self.coll.clone(),
                    op: row.op,
                    id: row.doc_id.clone(),
                    doc,
                };
                let ghost seen = ev@;
                replay.push(ev);
                assert(event_views(replay@) =~= event_views(before).push(seen));
            }
            i = i + 1;
        }
        assert(all.take(all.len() as int) =~= all);
        Ok(ResumePlan { resync: false, replay, max_sent })
    }
}

// ---- What a subscriber is sent ---------------------------------------------

/// An event on the wire.
#[derive(Debug)]
pub struct SseEvent {
    /// The number by which a client resumes.
    pub id: Option<String>,
    pub event: &'static str,
    pub data: Json,
}

#[verifier::ext_equal]
pub struct SseView {
    pub id: Option<Seq<char>>,
    pub event: Seq<char>,
    pub data: JsonView,
}

impl View for SseEvent {
    type V = SseView;

    open spec fn view(&self) -> SseView {
        SseView { id: text_view(self.id), event: self.event@, data: self.data@ }
    }
}

pub open spec fn sse_views(v: Seq<SseEvent>) -> Seq<SseView> {
    Seq::new(v.len(), |i: int| v[i]@)
}

/// A change on the wire.
pub open spec fn change_sse(ev: EventView) -> SseView {
    SseView {
        id: Some(signed_decimal(ev.seq as int)),
        event: "change"@,
        data: JsonView::Object(
            map![
                "seq"@ => int_view(ev.seq as int),
                "collection"@ => JsonView::Text(ev.collection),
                "op"@ => JsonView::Text(op_name(ev.op)),
                "id"@ => JsonView::Text(ev.id),
                "doc"@ => match ev.doc {
                    Some(d) => d,
                    None => JsonView::Null,
                },
            ],
        ),
    }
}

/// The advice to read everything anew.
pub open spec fn resync_sse() -> SseView {
    SseView { id: None, event: "resync"@, data: JsonView::Object(Map::empty()) }
}

pub fn change_to_sse(ev: &ChangeEvent) -> (r: SseEvent)
    ensures
        r@ == change_sse(ev@),
{
    let mut e: Vec<(String, Json)> = Vec::new();
    put(&mut e, "seq", json_int(ev.seq));
    put(&mut e, "collection", json_text(ev.collection.as_str()));
    put(&mut e, "op", json_text(ev.op.as_str()));
    put(&mut e, "id", json_text(ev.id.as_str()));
    let doc = match &ev.doc {
        Some(d) => duplicate(d),
        None => Json::Null,
    };
    put(&mut e, "doc", doc);
    SseEvent { id: Some(signed_text(ev.seq)), event: "change", data: Json::Object(e) }
}

pub fn resync_event() -> (r: SseEvent)
    ensures
        r@ == resync_sse(),
{
    let none: Vec<(String, Json)> = Vec::new();
    assert(object_view(none@) == Map::<Seq<char>, JsonView>::empty());
    SseEvent { id: None, event: "resync", data: Json::Object(none) }
}

/// What a subscriber is sent first: the advice to read anew where there is one, and
/// the events that are replayed.
pub open spec fn opening(plan: PlanView) -> Seq<SseView> {
    (if plan.resync {
        seq![resync_sse()]
    } else {
        Seq::empty()
    }) + Seq::new(plan.replay.len(), |i: int| change_sse(plan.replay[i]))
}

/// The live part of a subscription.
#[derive(Debug)]
pub struct Feed {
    coll: String,
    filter: Option<EqFilter>,
    max_sent: i64,
}

#[verifier::ext_equal]
pub struct FeedView {
    pub coll: Seq<char>,
    pub filter: Option<Seq<EqClause>>,
    pub max_sent: i64,
}

impl View for Feed {
    type V = FeedView;

    closed spec fn view(&self) -> FeedView {
        FeedView {
            coll: self.coll@,
            filter: filter_view(self.filter),
            max_sent: self.max_sent,
        }
    }
}

/// The event is of this collection and has not been considered before.
pub open spec fn fresh_event(f: FeedView, ev: EventView) -> bool {
    ev.collection == f.coll && ev.seq > f.max_sent
}

/// The event is sent.
pub open spec fn delivers(f: FeedView, ev: EventView) -> bool {
    fresh_event(f, ev) && passes(ev.op, ev.doc, f.filter)
}

/// The subscription after an event. An event that is not sent is not considered
/// again.
pub open spec fn feed_next(f: FeedView, ev: EventView) -> FeedView {
    if fresh_event(f, ev) {
        FeedView { max_sent: ev.seq, ..f }
    } else {
        f
    }
}

/// Begins a subscription: what is sent first, and the live part.
pub fn event_stream(coll: String, filter: Option<EqFilter>, plan: ResumePlan) -> (r: (
    Vec<SseEvent>,
    Feed,
))
    ensures
        sse_views(r.0@) == opening(plan@),
        r.1@ == (FeedView {
            coll: coll@,
            filter: filter_view(filter),
            max_sent: plan.max_sent,
        }),
{
    let mut first: Vec<SseEvent> = Vec::new();
    if plan.resync {
        first.push(resync_event());
    }
    let ghost head = sse_views(first@);
    assert(head =~= (if plan.resync {
        seq![resync_sse()]
    } else {
        Seq::empty()
    }));
    let mut i: usize = 0;
    let ghost all = plan@.replay;
    assert(head + Seq::new(0, |k: int| change_sse(all[k])) =~= head);
    while i < plan.replay.len()
        invariant
            i <= plan.replay@.len(),
            all == event_views(plan.replay@),
            sse_views(first@) == head + Seq::new(i as nat, |k: int| change_sse(all[k])),
        decreases plan.replay@.len() - i,
    {
        let ghost before = first@;
        let ev = change_to_sse(&plan.replay[i]);
        assert(ev@ == change_sse(all[i as int]));
        first.push(ev);
        assert(sse_views(first@) =~= sse_views(before).push(ev@));
        assert(sse_views(first@) =~= head + Seq::new((i + 1) as nat, |k: int| change_sse(all[k])));
        i = i + 1;
    }
    (first, Feed { coll, filter, max_sent: plan.max_sent })
}

impl Feed {
    /// What a subscriber is sent for a live event, if anything.
    pub fn on_event(&mut self, ev: &ChangeEvent) -> (r: Option<SseEvent>)
        ensures
            final(self)@ == feed_next(old(self)@, ev@),
            match r {
                Some(s) => delivers(old(self)@, ev@) && s@ == change_sse(ev@),
                None => !delivers(old(self)@, ev@),
            },
    {
        if !same(ev.collection.as_str(), self.coll.as_str()) || ev.seq <= self.max_sent {
            return None;
        }
        self.max_sent = ev.seq;
        let keep = match &ev.doc {
            Some(d) => event_passes(ev.op, Some(d), &self.filter),
            None => event_passes(ev.op, None, &self.filter),
        };
        if keep {
            Some(change_to_sse(ev))
        } else {
            None
        }
    }

    /// What a subscriber is sent that has fallen behind: the advice to read
    /// everything anew. The subscription goes on as it is.
    pub fn on_lag(&self) -> (r: SseEvent)
        ensures
            r@ == resync_sse(),
    {
        resync_event()
    }
}

// ---- What holds of every subscription --------------------------------------

/// The events that a subscriber is sent out of a run of live events.
pub open spec fn delivered(f: FeedView, events: Seq<EventView>) -> Seq<EventView>
    decreases events.len(),
{
    if events.len() == 0 {
        Seq::empty()
    } else {
        let before = delivered(f, events.drop_last());
        if delivers(feed_after(f, events.drop_last()), events.last()) {
            before.push(events.last())
        } else {
            before
        }
    }
}

/// The subscription after a run of live events.
pub open spec fn feed_after(f: FeedView, events: Seq<EventView>) -> FeedView
    decreases events.len(),
{
    if events.len() == 0 {
        f
    } else {
        feed_next(feed_after(f, events.drop_last()), events.last())
    }
}

/// The numbers of the live events that a subscriber is sent rise from event to
/// event and lie above what was sent before, so no event is sent twice.
pub proof fn law_delivered_numbers_rise(f: FeedView, events: Seq<EventView>)
    ensures
        ({
            let sent = delivered(f, events);
            &&& forall|i: int, j: int|
                0 <= i < j < sent.len() ==> (#[trigger] sent[i]).seq < (#[trigger] sent[j]).seq
            &&& forall|i: int|
                0 <= i < sent.len() ==> f.max_sent < (#[trigger] sent[i]).seq <= feed_after(
                    f,
                    events,
                ).max_sent
            &&& f.max_sent <= feed_after(f, events).max_sent
        }),
    decreases events.len(),
{
    if events.len() > 0 {
        law_delivered_numbers_rise(f, events.drop_last());
    }
}

proof fn lemma_greatest(floor: i64, rows: Seq<LogRowView>)
    ensures
        greatest(floor, rows) >= floor,
        forall|i: int| 0 <= i < rows.len() ==> (#[trigger] rows[i]).seq <= greatest(floor, rows),
    decreases rows.len(),
{
    if rows.len() > 0 {
        let front = rows.drop_last();
        lemma_greatest(floor, front);
        assert forall|i: int| 0 <= i < rows.len() implies (#[trigger] rows[i]).seq <= greatest(
            floor,
            rows,
        ) by {
            if i < front.len() {
                assert(front[i] == rows[i]);
            }
        }
    }
}

proof fn lemma_replayed_from_rows(
    rows: Seq<LogRowView>,
    docs: Seq<Option<JsonView>>,
    coll: Seq<char>,
    filter: Option<Seq<EqClause>>,
)
    ensures
        forall|k: int|
            0 <= k < replayed(rows, docs, coll, filter).len() ==> exists|i: int|
                0 <= i < rows.len() && (#[trigger] rows[i]).seq == (#[trigger] replayed(
                    rows,
                    docs,
                    coll,
                    filter,
                )[k]).seq,
    decreases rows.len(),
{
    if rows.len() > 0 {
        let front = rows.drop_last();
        lemma_replayed_from_rows(front, docs, coll, filter);
        let out = replayed(rows, docs, coll, filter);
        let before = replayed(front, docs, coll, filter);
        assert forall|k: int| 0 <= k < out.len() implies exists|i: int|
            0 <= i < rows.len() && (#[trigger] rows[i]).seq == (#[trigger] out[k]).seq by {
            if k < before.len() {
                assert(out[k] == before[k]);
                let i = choose|i: int|
                    0 <= i < front.len() && (#[trigger] front[i]).seq == before[k].seq;
                assert(rows[i] == front[i]);
            } else {
                assert(rows[rows.len() - 1].seq == out[k].seq);
            }
        }
    }
}

/// No event is sent both as a replay and live: every event that is replayed has a
/// number that the live part passes over.
pub proof fn law_replay_and_live_do_not_overlap(
    s: ResumeView,
    docs: Seq<Option<JsonView>>,
    filter: Option<Seq<EqClause>>,
    p: PlanView,
    live: EventView,
)
    requires
        resume_plan(s, docs, filter) == Ok::<PlanView, ErrorView>(p),
    ensures
        forall|k: int| 0 <= k < p.replay.len() ==> (#[trigger] p.replay[k]).seq <= p.max_sent,
        delivers(FeedView { coll: s.coll, filter, max_sent: p.max_sent }, live) ==> forall|k: int|
            0 <= k < p.replay.len() ==> (#[trigger] p.replay[k]).seq < live.seq,
{
    if let ResumeStageView::Replay(rows) = s.stage {
        let floor = match s.last {
            Some(n) => n,
            None => 0,
        };
        lemma_greatest(floor, rows);
        lemma_replayed_from_rows(rows, docs, s.coll, filter);
        assert forall|k: int| 0 <= k < p.replay.len() implies (#[trigger] p.replay[k]).seq
            <= p.max_sent by {
            let i = choose|i: int|
                0 <= i < rows.len() && (#[trigger] rows[i]).seq == p.replay[k].seq;
            assert(rows[i].seq <= greatest(floor, rows));
        }
    }
}

/// A delete is always forwarded, whatever the filter.
pub proof fn law_deletes_are_always_forwarded(f: FeedView, ev: EventView)
    requires
        fresh_event(f, ev),
        ev.op == Op::Delete,
    ensures
        delivers(f, ev),
{
}

/// Without a filter the replay is every row that was missed, in order, with its
/// own number and kind.
pub proof fn law_unfiltered_replay_is_complete(
    rows: Seq<LogRowView>,
    docs: Seq<Option<JsonView>>,
    coll: Seq<char>,
)
    ensures
        replayed(rows, docs, coll, None).len() == rows.len(),
        forall|i: int|
            0 <= i < rows.len() ==> {
                let ev = #[trigger] replayed(rows, docs, coll, None)[i];
                ev.seq == rows[i].seq && ev.op == rows[i].op && ev.id == rows[i].doc_id && ev.doc
                    == doc_at(docs, i) && ev.collection == coll
            },
    decreases rows.len(),
{
    if rows.len() > 0 {
        law_unfiltered_replay_is_complete(rows.drop_last(), docs, coll);
    }
}

/// A new subscriber is replayed nothing: it is sent what comes after the newest
/// change.
pub proof fn law_new_subscriber_starts_now(s: ResumeView, r: ReplyView, newest: i64)
    requires
        s.stage is Newest,
        s.last is None,
        scalar_int(r) == Some(newest),
    ensures
        resume_plan(ResumeView { stage: resume_next(s, r), ..s }, Seq::empty(), None) == Ok::<
            PlanView,
            ErrorView,
        >(PlanView { resync: false, replay: Seq::empty(), max_sent: newest }),
{
}

/// The word by which a change is told.
pub open spec fn told_as(op: Op, word: Seq<char>) -> bool {
    match op {
        Op::Insert => word == "insert"@,
        Op::Update => word == "update"@,
        Op::Delete => word == "delete"@,
    }
}

/// A subscriber that reads what it is sent learns the change: its number, its
/// collection, its kind, the identifier, and the document as it now is, or null where
/// there is none. It can come back with the number that it was sent, and that number is
/// understood.
pub proof fn law_wire_tells_the_change(ev: EventView)
    ensures
        ({
            let wire = change_sse(ev);
            &&& wire.event == "change"@
            &&& member(wire.data, "seq"@) == Some(
                JsonView::Number(
                    if ev.seq < 0 {
                        NumberView::NegInt(ev.seq)
                    } else {
                        NumberView::PosInt(ev.seq as u64)
                    },
                ),
            )
            &&& member(wire.data, "collection"@) == Some(JsonView::Text(ev.collection))
            &&& member(wire.data, "id"@) == Some(JsonView::Text(ev.id))
            &&& member(wire.data, "op"@) matches Some(JsonView::Text(word)) && told_as(ev.op, word)
            &&& ev.doc matches Some(d) ==> member(wire.data, "doc"@) == Some(d)
            &&& ev.doc is None ==> member(wire.data, "doc"@) == Some(JsonView::Null)
            &&& wire.id is Some && last_event_id(wire.id) == Some(ev.seq as int)
        }),
{
    reveal_strlit("seq");
    reveal_strlit("collection");
    reveal_strlit("id");
    reveal_strlit("op");
    reveal_strlit("doc");
    assert("seq"@[0] == 's' && "doc"@[0] == 'd' && "collection"@[0] == 'c');
    assert("id"@[0] == 'i' && "op"@[0] == 'o');
    law_written_numbers_are_read_back(ev.seq);
}

/// Two changes that are told alike are the same change. Only a document that is null and
/// no document at all are not told apart.
pub proof fn law_changes_are_told_apart(a: EventView, b: EventView)
    requires
        change_sse(a) == change_sse(b),
    ensures
        a.seq == b.seq,
        a.collection == b.collection,
        a.op == b.op,
        a.id == b.id,
        a.doc matches Some(d) ==> (d is Null || b.doc == Some(d)),
{
    law_wire_tells_the_change(a);
    law_wire_tells_the_change(b);
    reveal_strlit("insert");
    reveal_strlit("update");
    reveal_strlit("delete");
    assert("insert"@[0] == 'i' && "update"@[0] == 'u' && "delete"@[0] == 'd');
}

/// A subscriber of a collection is sent a change if and only if it is of the collection,
/// newer than all that it was sent, and either a delete or one whose document meets the
/// filter; without a filter, every such change.
pub proof fn law_who_is_sent_a_change(f: FeedView, ev: EventView)
    ensures
        delivers(f, ev) <==> {
            &&& ev.collection == f.coll
            &&& ev.seq > f.max_sent
            &&& match f.filter {
                None => true,
                Some(clauses) => ev.op == Op::Delete || (ev.doc matches Some(d) && forall|i: int|
                    0 <= i < clauses.len() ==> meets(d, #[trigger] clauses[i])),
            }
        },
{
}

/// A field meets an equality if and only if the document has it with that very value;
/// it meets a list if and only if its value is in the list.
pub proof fn law_equality_is_equality(doc: JsonView, path: Seq<Seq<char>>, value: JsonView, list: Seq<
    JsonView,
>)
    ensures
        meets(doc, EqClause { path, value: MatchView::Eq(value) }) <==> reached(doc, path) == Some(
            value,
        ),
        meets(doc, EqClause { path, value: MatchView::In(list) }) <==> exists|i: int|
            0 <= i < list.len() && reached(doc, path) == Some(#[trigger] list[i]),
{
    if let Some(actual) = reached(doc, path) {
        if list.contains(actual) {
            let i = choose|i: int| 0 <= i < list.len() && list[i] == actual;
            assert(reached(doc, path) == Some(list[i]));
        }
    }
}

/// A subscriber that comes back is told to read anew if and only if a change that it has
/// not seen is no longer kept; otherwise the changes after the last that it saw are
/// looked up.
pub proof fn law_lost_changes_are_admitted(s: ResumeView, last: i64, newest: i64, oldest: Option<i64>)
    requires
        s.stage == (ResumeStageView::Oldest { newest }),
        s.last == Some(last),
    ensures
        ({
            let cell = match oldest {
                Some(n) => ValueView::Integer(n),
                None => ValueView::Null,
            };
            let next = resume_next(s, ReplyView::Rows(seq![seq![cell]]));
            if oldest matches Some(min) && min - last >= 2 {
                next == (ResumeStageView::Attach { resync: true, max_sent: newest })
            } else {
                next is Missed
            }
        }),
{
    let cell = match oldest {
        Some(n) => ValueView::Integer(n),
        None => ValueView::Null,
    };
    assert(reply_rows(ReplyView::Rows(seq![seq![cell]]))[0] == seq![cell]);
}

/// What is replayed are exactly the rows that pass, each as it stands in the change log,
/// in the order of their numbers where the rows stand in that order.
pub proof fn law_replay_is_what_passes(
    rows: Seq<LogRowView>,
    docs: Seq<Option<JsonView>>,
    coll: Seq<char>,
    filter: Option<Seq<EqClause>>,
    i: int,
)
    requires
        0 <= i < rows.len(),
    ensures
        passes(rows[i].op, doc_at(docs, i), filter) ==> replayed(
            rows,
            docs,
            coll,
            filter,
        ).contains(
            EventView {
                seq: rows[i].seq,
                collection: coll,
                op: rows[i].op,
                id: rows[i].doc_id,
                doc: doc_at(docs, i),
            },
        ),
    decreases rows.len(),
{
    let front = rows.drop_last();
    let ev = EventView {
        seq: rows[i].seq,
        collection: coll,
        op: rows[i].op,
        id: rows[i].doc_id,
        doc: doc_at(docs, i),
    };
    let out = replayed(rows, docs, coll, filter);
    let before = replayed(front, docs, coll, filter);
    if passes(rows[i].op, doc_at(docs, i), filter) {
        if i < front.len() {
            law_replay_is_what_passes(front, docs, coll, filter, i);
            let k = choose|k: int| 0 <= k < before.len() && before[k] == ev;
            assert(out[k] == ev);
        } else {
            assert(out[out.len() - 1] == ev);
        }
    }
}

/// One that has fallen behind, or that has missed what is no longer kept, is told to read
/// anew, by an event that is no change and bears no number.
pub proof fn law_resync_is_no_change(ev: EventView, plan: PlanView)
    ensures
        resync_sse().event == "resync"@,
        resync_sse().id is None,
        resync_sse() != change_sse(ev),
        plan.resync ==> opening(plan).len() == plan.replay.len() + 1 && opening(plan)[0]
            == resync_sse(),
        !plan.resync ==> opening(plan).len() == plan.replay.len(),
        forall|i: int|
            0 <= i < plan.replay.len() ==> opening(plan)[opening(plan).len() - plan.replay.len()
                + i] == #[trigger] change_sse(plan.replay[i]),
{
}

} // verus!
