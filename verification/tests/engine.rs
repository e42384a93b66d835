use rusqlite::types::ValueRef;
use rusqlite::Connection;
use tinylord::admin;
use tinylord::auth::{authorize, AdminPrincipal, AuthRun, HeaderField, Need, Principal};
use tinylord::batch::{trim_changelog, BatchOutput, BatchRun, OpReply};
use tinylord::documents::{
    answer_write, create_command, delete_command, fetch_document, put_command, Answer,
};
use tinylord::encryption::{open_connection, ConnectionRole, Encryption};
use tinylord::errors::{ApiResult, ErrorCode, SqlFailure};
use tinylord::grants::grant;
use tinylord::index_op::{checkpoint_statement, snapshot_statement, CreateIndex, DropIndex};
use tinylord::indexes;
use tinylord::json::{get, json_eq, json_int, json_text, lookup, Json, Number};
use tinylord::limits::RateGuard;
use tinylord::query::{CountRequest, QueryRequest};
use tinylord::query_ep::{count, query, Page};
use tinylord::realtime::{
    build_resume_plan, event_passes, event_stream, parse_last_event_id, parse_op, ChangeEvent,
    EqFilter, Op, ResumePlan,
};
use tinylord::rekey::rekey_script;
use tinylord::schema::{collection_exists, init_database, is_present, DocStorage};
use tinylord::secret::Secret;
use tinylord::sequence::SequenceRun;
use tinylord::sessions::{
    expires_at, init_schema, issue_browser_tokens, reset_admin_token, reset_browser_password,
    resolve_principal, rotate_browser_session, TokenSet,
};
use tinylord::sql::{Mode, Reply, Statement, Value};
use tinylord::system::{changed, counted, done, Role, System};
use tinylord::writer::{WriteCommand, WriterContext};

// ---- The engine ------------------------------------------------------------

fn bound(v: &Value) -> rusqlite::types::Value {
    match v {
        Value::Null => rusqlite::types::Value::Null,
        Value::Integer(i) => rusqlite::types::Value::Integer(*i),
        Value::Real(b) => rusqlite::types::Value::Real(f64::from_bits(*b)),
        Value::Text(s) => rusqlite::types::Value::Text(s.clone()),
        Value::Blob(b) => rusqlite::types::Value::Blob(b.clone()),
    }
}

fn cell(v: ValueRef<'_>) -> Value {
    match v {
        ValueRef::Null => Value::Null,
        ValueRef::Integer(i) => Value::Integer(i),
        ValueRef::Real(f) => Value::Real(f.to_bits()),
        ValueRef::Text(t) => Value::Text(String::from_utf8_lossy(t).into_owned()),
        ValueRef::Blob(b) => Value::Blob(b.to_vec()),
    }
}

fn failure(e: rusqlite::Error) -> SqlFailure {
    let unique = matches!(
        &e,
        rusqlite::Error::SqliteFailure(f, _) if matches!(
            f.extended_code,
            rusqlite::ffi::SQLITE_CONSTRAINT_UNIQUE
                | rusqlite::ffi::SQLITE_CONSTRAINT_PRIMARYKEY
                | rusqlite::ffi::SQLITE_CONSTRAINT_ROWID
        )
    );
    SqlFailure { unique, message: e.to_string() }
}

fn attempt(conn: &Connection, s: &Statement) -> Result<Reply, rusqlite::Error> {
    let params: Vec<rusqlite::types::Value> = s.params.iter().map(bound).collect();
    match s.mode {
        Mode::Batch => {
            conn.execute_batch(&s.sql)?;
            Ok(Reply::Done)
        }
        Mode::Execute => {
            let rows = conn.execute(&s.sql, rusqlite::params_from_iter(params))? as u64;
            Ok(Reply::Changed { rows, last_rowid: conn.last_insert_rowid() })
        }
        Mode::Query => {
            let mut stmt = conn.prepare(&s.sql)?;
            let columns = stmt.column_count();
            let mut rows = stmt.query(rusqlite::params_from_iter(params))?;
            let mut out = Vec::new();
            while let Some(row) = rows.next()? {
                let mut cells = Vec::new();
                for i in 0..columns {
                    cells.push(cell(row.get_ref(i)?));
                }
                out.push(cells);
            }
            Ok(Reply::Rows(out))
        }
    }
}

fn run(conn: &Connection, s: &Statement) -> Reply {
    match attempt(conn, s) {
        Ok(r) => r,
        Err(e) => Reply::Failed(failure(e)),
    }
}

fn run_all(conn: &Connection, statements: Vec<Statement>) -> bool {
    let mut seq = SequenceRun::start(statements);
    while let Some(s) = seq.statement() {
        seq.accept(&run(conn, &s));
    }
    assert!(seq.is_over());
    seq.is_complete()
}

fn from_serde(v: serde_json::Value) -> Json {
    match v {
        serde_json::Value::Null => Json::Null,
        serde_json::Value::Bool(b) => Json::Bool(b),
        serde_json::Value::Number(n) => Json::Number(match (n.as_u64(), n.as_i64()) {
            (Some(u), _) => Number::PosInt(u),
            (None, Some(i)) => Number::NegInt(i),
            _ => Number::Float(n.as_f64().unwrap().to_bits()),
        }),
        serde_json::Value::String(s) => Json::Text(s),
        serde_json::Value::Array(a) => Json::Array(a.into_iter().map(from_serde).collect()),
        serde_json::Value::Object(m) => {
            Json::Object(m.into_iter().map(|(k, v)| (k, from_serde(v))).collect())
        }
    }
}

fn parse(text: &str) -> Json {
    from_serde(serde_json::from_str(text).unwrap())
}

fn context() -> WriterContext {
    WriterContext {
        storage: DocStorage::detect(),
        max_database_bytes: 0,
        changelog_retention: 10_000,
    }
}

fn database() -> Connection {
    let conn = Connection::open_in_memory().unwrap();
    let statements = open_connection(
        &Encryption::disabled(),
        ConnectionRole::Writer,
        5000,
        DocStorage::detect(),
    );
    assert!(run_all(&conn, statements));
    conn
}

fn run_batch(conn: &Connection, commands: Vec<WriteCommand>, ctx: WriterContext) -> BatchOutput {
    let mut batch = BatchRun::start(commands, ctx);
    while let Some(s) = batch.statement() {
        let lowered = s.sql.to_lowercase();
        assert!(!lowered.contains("insert or replace"), "{lowered}");
        if lowered.contains("delete from coll_") {
            assert!(lowered.contains("where"), "{lowered}");
        }
        let reply = run(conn, &s);
        batch = batch.resume(&reply);
    }
    let out = batch.into_output().unwrap();
    if let Some(trim) = &out.trim {
        assert!(done(&run(conn, trim)).is_ok());
    }
    out
}

fn create(conn: &Connection, coll: &str, text: &str) -> ApiResult<Answer> {
    let cmd = create_command(coll.to_string(), parse(text), text.to_string(), 1_048_576)?;
    let mut out = run_batch(conn, vec![cmd], context());
    answer_write(out.replies.remove(0))
}

fn id_of(a: &Answer) -> String {
    match get(a.body.as_ref().unwrap(), "id") {
        Some(Json::Text(s)) => s.clone(),
        other => panic!("{other:?}"),
    }
}

fn fetch(conn: &Connection, coll: &str, id: &str) -> ApiResult<Answer> {
    let mut f = fetch_document(coll.to_string(), id.to_string())?;
    while let Some(s) = f.statement() {
        f.accept(&run(conn, &s));
    }
    let doc = f.doc_text().map(|t| parse(&t));
    f.answer(doc)
}

fn request() -> QueryRequest {
    QueryRequest {
        filter: None,
        sort: vec![],
        limit: None,
        offset: None,
        cursor: None,
        projection: None,
    }
}

fn page(conn: &Connection, coll: &str, req: QueryRequest) -> ApiResult<Page> {
    let mut q = query(coll.to_string(), req, 500)?;
    while let Some(s) = q.statement() {
        q.accept(&run(conn, &s));
    }
    let docs = q.doc_texts().iter().map(|t| Some(parse(t))).collect();
    q.page(docs)
}

fn total(conn: &Connection, coll: &str, filter: Option<Json>) -> ApiResult<Json> {
    let mut c = count(coll.to_string(), CountRequest { filter })?;
    while let Some(s) = c.statement() {
        c.accept(&run(conn, &s));
    }
    c.answer()
}

// ---- Documents -------------------------------------------------------------

#[test]
fn documents_are_created_read_replaced_and_deleted() {
    let conn = database();
    let text = "{\"name\":\"Ada\",\"age\":36}";
    let made = create(&conn, "users", text).unwrap();
    assert_eq!(made.status, 201);
    let id = id_of(&made);
    let read = fetch(&conn, "users", &id).unwrap();
    assert_eq!(read.status, 200);
    assert!(json_eq(read.body.as_ref().unwrap(), made.body.as_ref().unwrap()));
    assert!(json_eq(get(read.body.as_ref().unwrap(), "doc").unwrap(), &parse(text)));

    let text = "{\"name\":\"Ada Lovelace\"}";
    let cmd = put_command("users".into(), id.clone(), parse(text), text.into(), 0).unwrap();
    let mut out = run_batch(&conn, vec![cmd], context());
    assert_eq!(out.events.len(), 1);
    assert_eq!(out.events[0].op, Op::Update);
    let replaced = answer_write(out.replies.remove(0)).unwrap();
    assert_eq!(replaced.status, 200);
    let made_at = get(made.body.as_ref().unwrap(), "created_at").unwrap();
    assert!(json_eq(get(replaced.body.as_ref().unwrap(), "created_at").unwrap(), made_at));

    let cmd = put_command("users".into(), "fresh-id".into(), parse("{}"), "{}".into(), 0).unwrap();
    let mut out = run_batch(&conn, vec![cmd], context());
    assert_eq!(out.events[0].op, Op::Insert);
    assert_eq!(answer_write(out.replies.remove(0)).unwrap().status, 201);

    let cmd = delete_command("users".into(), id.clone()).unwrap();
    let mut out = run_batch(&conn, vec![cmd], context());
    assert_eq!(out.events[0].op, Op::Delete);
    assert!(out.events[0].doc.is_none());
    assert_eq!(answer_write(out.replies.remove(0)).unwrap().status, 204);
    assert_eq!(fetch(&conn, "users", &id).unwrap_err().code.status(), 404);
    let cmd = delete_command("users".into(), id).unwrap();
    let mut out = run_batch(&conn, vec![cmd], context());
    assert!(out.events.is_empty());
    assert_eq!(answer_write(out.replies.remove(0)).unwrap_err().message, "document not found");
}

#[test]
fn documents_are_held_to_the_rules() {
    let conn = database();
    assert_eq!(create(&conn, "1bad", "{}").unwrap_err().code, ErrorCode::Validation);
    let e = create(&conn, "changelog", "{}").unwrap_err();
    assert_eq!(e.message, "collection name is reserved");
    let e = create(&conn, "c", "[1]").unwrap_err();
    assert_eq!((e.code, e.message.as_str()), (
        ErrorCode::BadRequest,
        "document body must be a JSON object"
    ));
    let text = format!("{{\"blob\":\"{}\"}}", "x".repeat(2000));
    let e = create_command("c".into(), parse(&text), text, 512).unwrap_err();
    assert_eq!(e.code.status(), 413);
    assert_eq!(fetch(&conn, "nowhere", "x").unwrap_err().message, "document not found");
}

#[test]
fn batches_keep_what_succeeds() {
    let conn = database();
    let mut index = CreateIndex::start(
        "u".into(),
        "ix_u_email".into(),
        "$.email".into(),
        true,
        DocStorage::detect(),
    );
    while let Some(s) = index.statement() {
        index.accept(&run(&conn, &s));
    }
    assert!(matches!(index.result(), Some(Ok(()))));
    let command = |text: &str| {
        create_command("u".into(), parse(text), text.into(), 0).unwrap()
    };
    let out = run_batch(
        &conn,
        vec![
            command("{\"email\":\"a@x.io\"}"),
            command("{\"email\":\"a@x.io\"}"),
            command("{\"email\":\"b@x.io\"}"),
        ],
        context(),
    );
    assert!(matches!(&out.replies[0], OpReply::Written { created: true, .. }));
    assert!(matches!(&out.replies[1], OpReply::Failed(e) if e.code == ErrorCode::Conflict));
    assert!(matches!(&out.replies[2], OpReply::Written { created: true, .. }));
    assert_eq!(out.events.len(), 2);
    assert!(out.events[0].seq < out.events[1].seq);
    let n = total(&conn, "u", None).unwrap();
    assert!(json_eq(get(&n, "count").unwrap(), &json_int(2)));
}

#[test]
fn a_full_database_takes_no_more() {
    let conn = database();
    let ctx = WriterContext { max_database_bytes: 1, ..context() };
    let cmd = create_command("c".into(), parse("{}"), "{}".into(), 0).unwrap();
    let mut out = run_batch(&conn, vec![cmd], ctx);
    assert!(out.events.is_empty());
    let e = answer_write(out.replies.remove(0)).unwrap_err();
    assert_eq!(e.code, ErrorCode::PayloadTooLarge);
}

#[test]
fn the_change_log_is_trimmed() {
    let conn = database();
    let ctx = WriterContext { changelog_retention: 2, ..context() };
    for _ in 0..5 {
        let cmd = create_command("c".into(), parse("{}"), "{}".into(), 0).unwrap();
        run_batch(&conn, vec![cmd], ctx);
    }
    let left: i64 = conn.query_row("SELECT count(*) FROM _changelog", [], |r| r.get(0)).unwrap();
    assert_eq!(left, 2);
    assert!(trim_changelog(0).is_none());
    assert!(trim_changelog(-1).is_none());
}

#[test]
fn lost_transactions_announce_nothing() {
    let cmd = create_command("c".into(), parse("{}"), "{}".into(), 0).unwrap();
    let mut batch = BatchRun::start(vec![cmd], context());
    while batch.statement().is_some() {
        batch = batch.resume(&Reply::Failed(SqlFailure {
            unique: false,
            message: "disk I/O error".into(),
        }));
    }
    let out = batch.into_output().unwrap();
    assert_eq!(out.replies.len(), 1);
    assert!(matches!(&out.replies[0], OpReply::Failed(e) if e.code == ErrorCode::Internal));
    assert!(out.events.is_empty());
    assert!(out.trim.is_none());
}

// ---- Queries ---------------------------------------------------------------

#[test]
fn queries_page_through_documents() {
    let conn = database();
    for age in [10, 20, 30, 40] {
        create(&conn, "users", &format!("{{\"age\":{age},\"name\":\"n{age}\"}}")).unwrap();
    }
    let filter = parse("{\"age\":{\"$gte\":18}}");
    let p = page(&conn, "users", QueryRequest { filter: Some(filter), ..request() }).unwrap();
    assert_eq!(p.items.len(), 3);
    assert_eq!(p.next_cursor, None);
    let first = page(&conn, "users", QueryRequest { limit: Some(2), ..request() }).unwrap();
    assert_eq!(first.items.len(), 2);
    let cursor = first.next_cursor.clone().unwrap();
    assert_eq!(cursor, first.items[1].id);
    let rest = page(
        &conn,
        "users",
        QueryRequest { limit: Some(2), cursor: Some(cursor), ..request() },
    )
    .unwrap();
    assert_eq!(rest.items.len(), 2);
    assert!(rest.items[0].id > first.items[1].id);
    let sorted = page(
        &conn,
        "users",
        QueryRequest {
            sort: vec![("age".into(), "desc".into())],
            limit: Some(2),
            offset: Some(1),
            projection: Some(vec!["age".into()]),
            ..request()
        },
    )
    .unwrap();
    assert_eq!(sorted.next_cursor, None);
    assert!(json_eq(&sorted.items[0].doc, &parse("{\"age\":30}")));
    assert!(json_eq(&sorted.items[1].doc, &parse("{\"age\":20}")));
    let json = sorted.into_json();
    assert!(json_eq(get(&json, "next_cursor").unwrap(), &Json::Null));
    let one = page(&conn, "users", QueryRequest { limit: Some(0), ..request() }).unwrap();
    assert_eq!(one.items.len(), 1);
    let none = page(&conn, "missing", request()).unwrap();
    assert!(none.items.is_empty());
    let n = total(&conn, "missing", None).unwrap();
    assert!(json_eq(get(&n, "count").unwrap(), &json_int(0)));
    let n = total(&conn, "users", Some(parse("{\"age\":{\"$lt\":25}}"))).unwrap();
    assert!(json_eq(get(&n, "count").unwrap(), &json_int(2)));
    assert!(page(&conn, "1bad", request()).is_err());
}

#[test]
fn filters_mean_what_they_say() {
    let conn = database();
    for text in [
        "{\"a\":1,\"b\":\"x\"}",
        "{\"a\":2,\"b\":null}",
        "{\"a\":3}",
        "{\"n\":{\"m\":true}}",
    ] {
        create(&conn, "t", text).unwrap();
    }
    let matched = |filter: &str| match get(&total(&conn, "t", Some(parse(filter))).unwrap(), "count")
    {
        Some(Json::Number(Number::PosInt(n))) => *n,
        other => panic!("{other:?}"),
    };
    assert_eq!(matched("{}"), 4);
    assert_eq!(matched("{\"b\":null}"), 3);
    assert_eq!(matched("{\"b\":{\"$ne\":\"x\"}}"), 3);
    assert_eq!(matched("{\"b\":{\"$ne\":null}}"), 1);
    assert_eq!(matched("{\"a\":{\"$in\":[1,3,9]}}"), 2);
    assert_eq!(matched("{\"a\":{\"$in\":[]}}"), 0);
    assert_eq!(matched("{\"$or\":[{\"a\":1},{\"n.m\":true}]}"), 2);
    assert_eq!(matched("{\"$or\":[]}"), 0);
    assert_eq!(matched("{\"a\":{\"$gt\":1,\"$lte\":3}}"), 2);
    assert_eq!(matched("{\"b\":\"x' OR '1'='1\"}"), 0);
}

// ---- Indexes ---------------------------------------------------------------

fn make_index(conn: &Connection, coll: &str, path: &str, unique: bool) -> ApiResult<Answer> {
    let body = indexes::CreateIndexBody { path: path.into(), unique };
    let cmd = indexes::create(coll.to_string(), body)?;
    let (collection, name, path) = match cmd {
        WriteCommand::CreateIndex { collection, name, path, .. } => (collection, name, path),
        other => panic!("{other:?}"),
    };
    let mut op = CreateIndex::start(
        collection.clone(),
        name.clone(),
        path.clone(),
        unique,
        DocStorage::detect(),
    );
    while let Some(s) = op.statement() {
        op.accept(&run(conn, &s));
    }
    op.result().unwrap()?;
    Ok(indexes::created(&name, &collection, &path, unique))
}

#[test]
fn indexes_are_created_listed_and_dropped() {
    let conn = database();
    create(&conn, "users", "{\"email\":\"a@x.io\"}").unwrap();
    let made = make_index(&conn, "users", "$.email", true).unwrap();
    assert_eq!(made.status, 201);
    let name = match get(made.body.as_ref().unwrap(), "name") {
        Some(Json::Text(s)) => s.clone(),
        other => panic!("{other:?}"),
    };
    assert!(name.starts_with("ix_users_email_"));
    assert_eq!(create(&conn, "users", "{\"email\":\"a@x.io\"}").unwrap_err().code.status(), 409);

    let reply = run(&conn, &indexes::list("users").unwrap());
    let listed = indexes::listed(&reply).unwrap();
    let expected = Json::Object(vec![(
        "indexes".to_string(),
        Json::Array(vec![Json::Object(vec![
            ("name".to_string(), json_text(&name)),
            ("collection".to_string(), json_text("users")),
            ("path".to_string(), json_text("$.email")),
            ("is_unique".to_string(), Json::Bool(true)),
        ])]),
    )]);
    assert!(json_eq(listed.body.as_ref().unwrap(), &expected));

    for expected in [true, false] {
        let cmd = indexes::drop("users", name.clone()).unwrap();
        assert!(matches!(cmd, WriteCommand::DropIndex { .. }));
        let mut op = DropIndex::start(name.clone());
        while let Some(s) = op.statement() {
            op.accept(&run(&conn, &s));
        }
        let found = op.result().unwrap().unwrap();
        assert_eq!(found, expected);
        assert_eq!(indexes::dropped(found).is_ok(), expected);
    }
    assert!(create(&conn, "users", "{\"email\":\"a@x.io\"}").is_ok());
    let e = make_index(&conn, "users", "$.email", true).unwrap_err();
    assert_eq!(e.message, "index would violate uniqueness on existing data");
    assert!(make_index(&conn, "users", "$.email", false).is_ok());
    let e = make_index(&conn, "users", "email", false).unwrap_err();
    assert_eq!(e.message, "path must be a JSON path like '$.email'");
    assert!(make_index(&conn, "1bad", "$.email", false).is_err());
    assert!(indexes::list("1bad").is_err());
    assert!(indexes::drop("users", "no-name".into()).is_err());
    assert_eq!(indexes::dropped(false).unwrap_err().message, "index not found");
}

#[test]
fn copies_go_to_a_quoted_destination() {
    assert_eq!(
        snapshot_statement("/tmp/o'hare.db").sql,
        "VACUUM INTO '/tmp/o''hare.db'"
    );
    let conn = database();
    assert!(!run(&conn, &checkpoint_statement()).is_failed());
}

// ---- Changes ---------------------------------------------------------------

fn plan(conn: &Connection, last: Option<i64>, filter: &Option<EqFilter>) -> ResumePlan {
    let mut r = build_resume_plan("live".into(), last);
    while let Some(s) = r.statement() {
        r.accept(&run(conn, &s));
    }
    let docs = r.doc_texts().iter().map(|t| t.as_ref().map(|t| parse(t))).collect();
    r.plan(docs, filter).unwrap()
}

#[test]
fn subscribers_resume_where_they_left() {
    let conn = database();
    for n in 1..=4 {
        create(&conn, "live", &format!("{{\"n\":{n}}}")).unwrap();
    }
    create(&conn, "other", "{}").unwrap();
    let fresh = plan(&conn, None, &None);
    assert!(!fresh.resync);
    assert!(fresh.replay.is_empty());
    assert_eq!(fresh.max_sent, 5);
    let resumed = plan(&conn, Some(2), &None);
    assert_eq!(resumed.replay.iter().map(|e| e.seq).collect::<Vec<_>>(), vec![3, 4]);
    assert_eq!(resumed.max_sent, 4);
    let filter = Some(EqFilter::parse(&parse("{\"n\":4}")).unwrap());
    let filtered = plan(&conn, Some(0), &filter);
    assert_eq!(filtered.replay.iter().map(|e| e.seq).collect::<Vec<_>>(), vec![4]);
    conn.execute("DELETE FROM _changelog WHERE seq < 4", []).unwrap();
    assert!(plan(&conn, Some(1), &None).resync);
    assert!(!plan(&conn, Some(3), &None).resync);
}

#[test]
fn what_is_replayed_is_what_was_announced() {
    let conn = database();
    let put = |text: &str| {
        put_command("live".into(), "k".into(), parse(text), text.into(), 1_048_576).unwrap()
    };
    let commands = vec![
        put("{\"n\":1}"),
        put("{\"n\": 2,  \"s\": [true, null]}"),
        delete_command("live".into(), "k".into()).unwrap(),
    ];
    let announced = run_batch(&conn, commands, context()).events;
    let replayed = plan(&conn, Some(0), &None).replay;
    assert_eq!(announced.len(), 3);
    assert_eq!(replayed.len(), 3);
    for (live, again) in announced.iter().zip(&replayed) {
        assert_eq!(live.seq, again.seq);
        assert_eq!(live.collection, again.collection);
        assert_eq!(live.op, again.op);
        assert_eq!(live.id, again.id);
        match (&live.doc, &again.doc) {
            (Some(a), Some(b)) => assert!(json_eq(a, b)),
            (None, None) => assert_eq!(live.op, Op::Delete),
            other => panic!("{other:?}"),
        }
    }
}

fn change(seq: i64, coll: &str, op: Op, doc: Option<Json>) -> ChangeEvent {
    ChangeEvent { seq, collection: coll.into(), op, id: "x".into(), doc }
}

#[test]
fn streams_send_each_change_once() {
    let plan = ResumePlan {
        resync: true,
        replay: vec![change(3, "live", Op::Insert, Some(parse("{\"hello\":\"world\"}")))],
        max_sent: 3,
    };
    let filter = Some(EqFilter::parse(&parse("{\"hello\":\"world\"}")).unwrap());
    let (first, mut feed) = event_stream("live".into(), filter, plan);
    assert_eq!(first.len(), 2);
    assert_eq!(first[0].event, "resync");
    assert_eq!(first[1].event, "change");
    assert_eq!(first[1].id.as_deref(), Some("3"));
    let expected = parse(
        "{\"seq\":3,\"collection\":\"live\",\"op\":\"insert\",\"id\":\"x\",\"doc\":{\"hello\":\"world\"}}",
    );
    assert!(json_eq(&first[1].data, &expected));
    let doc = || Some(parse("{\"hello\":\"world\"}"));
    assert!(feed.on_event(&change(3, "live", Op::Insert, doc())).is_none());
    assert!(feed.on_event(&change(4, "other", Op::Insert, doc())).is_none());
    assert!(feed.on_event(&change(5, "live", Op::Insert, Some(parse("{}")))).is_none());
    assert!(feed.on_event(&change(5, "live", Op::Insert, doc())).is_none());
    assert!(feed.on_event(&change(6, "live", Op::Update, doc())).is_some());
    let gone = feed.on_event(&change(7, "live", Op::Delete, None)).unwrap();
    assert!(json_eq(get(&gone.data, "doc").unwrap(), &Json::Null));
    assert_eq!(feed.on_lag().event, "resync");
}

#[test]
fn subscribe_filters_are_equalities() {
    let refused = |text: &str| EqFilter::parse(&parse(text)).err().unwrap().message;
    assert_eq!(refused("[]"), "subscribe filter must be a JSON object");
    assert_eq!(
        refused("{\"$or\":[]}"),
        "subscribe filter supports only field equality and $in"
    );
    assert_eq!(refused("{\"\":1}"), "empty field in subscribe filter");
    assert_eq!(refused("{\"a..b\":1}"), "invalid field in subscribe filter");
    assert_eq!(
        refused("{\"a\":{}}"),
        "subscribe filter operator map must have exactly one operator"
    );
    assert_eq!(refused("{\"a\":{\"$gt\":1}}"), "subscribe filter supports only $eq and $in");
    assert_eq!(refused("{\"a\":{\"$in\":1}}"), "$in requires an array");
    assert!(EqFilter::parse(&parse("{\"a\":[1]}")).is_err());
    let f = EqFilter::parse(&parse("{\"a.b\":{\"$in\":[1,2]},\"c\":{\"$eq\":null}}")).unwrap();
    assert!(f.matches(&parse("{\"a\":{\"b\":2},\"c\":null}")));
    assert!(!f.matches(&parse("{\"a\":{\"b\":3},\"c\":null}")));
    assert!(!f.matches(&parse("{\"a\":{\"b\":2}}")));
    let some = Some(f);
    assert!(event_passes(Op::Delete, None, &some));
    assert!(!event_passes(Op::Insert, None, &some));
    assert!(event_passes(Op::Insert, None, &None));
    assert_eq!(parse_last_event_id(Some(" 42 ")), Some(42));
    assert_eq!(parse_last_event_id(Some("x")), None);
    assert_eq!(parse_last_event_id(None), None);
    for op in [Op::Insert, Op::Update, Op::Delete] {
        assert_eq!(parse_op(op.as_str()), op);
    }
}

// ---- The control plane -----------------------------------------------------

fn control() -> Connection {
    let conn = Connection::open_in_memory().unwrap();
    for _ in 0..2 {
        let mut s = init_schema();
        while let Some(stmt) = s.statement() {
            let reply = run(&conn, &stmt);
            s = s.accept(&reply);
        }
        assert!(s.is_ready());
    }
    conn
}

fn principal(conn: &Connection, name: &str, is_admin: bool) -> (String, String) {
    let p = System::create_principal(name, is_admin);
    assert!(done(&run(conn, &p.insert)).is_ok());
    (p.id, p.token.as_str().to_string())
}

fn header(token: &str) -> HeaderField {
    HeaderField::Text(format!("Bearer {token}"))
}

fn authenticate(conn: &Connection, field: &HeaderField) -> ApiResult<Principal> {
    let mut run_auth = AuthRun::start(field)?;
    while let Some(s) = run_auth.statement() {
        let reply = run(conn, &s);
        run_auth = run_auth.accept(&reply);
    }
    run_auth.decide_by(&RateGuard::new(0))
}

fn permit(conn: &Connection, p: &Principal, db: &str, need: Need) -> ApiResult<()> {
    let mut a = authorize(p, db, need)?;
    while let Some(s) = a.statement() {
        a.accept(&run(conn, &s));
    }
    a.result()
}

fn register_db(conn: &Connection, name: &str) -> ApiResult<Answer> {
    let body = admin::CreateDatabaseBody { name: name.into() };
    let (s, now) = admin::create_database(&body)?;
    admin::database_created(name, now, &run(conn, &s))
}

fn give(conn: &Connection, id: &str, db: &str, role: &str) -> ApiResult<Answer> {
    let mut g = admin::create_grant(admin::CreateGrantBody {
        principal_id: id.into(),
        database: db.into(),
        role: role.into(),
    })?;
    while let Some(s) = g.statement() {
        g.accept(&run(conn, &s));
    }
    g.answer()
}

#[test]
fn tokens_identify_principals() {
    let conn = control();
    assert_eq!(counted(&run(&conn, &System::count_principals())).unwrap(), 0);
    let (id, token) = principal(&conn, "web", false);
    let p = authenticate(&conn, &header(&token)).unwrap();
    assert_eq!((p.id.as_str(), p.name.as_str(), p.is_admin), (id.as_str(), "web", false));
    assert_eq!(p.require_admin().unwrap_err().message, "global admin required");
    assert!(AdminPrincipal::from_principal(p).is_err());
    let said = |f: &HeaderField| {
        let e = authenticate(&conn, f).unwrap_err();
        assert_eq!(e.code.status(), 401);
        e.message
    };
    assert_eq!(said(&HeaderField::Absent), "missing Authorization header");
    assert_eq!(said(&HeaderField::Unreadable), "malformed Authorization header");
    assert_eq!(said(&HeaderField::Text("Basic x".into())), "expected 'Bearer <token>'");
    assert_eq!(said(&HeaderField::Text("Bearer ".into())), "empty bearer token");
    assert_eq!(said(&header("nonsense")), "invalid or disabled token");
    assert!(authenticate(&conn, &HeaderField::Text(format!("bearer {token}"))).is_ok());
    assert!(changed(&run(&conn, &System::disable_principal(&id))).unwrap());
    assert_eq!(said(&header(&token)), "invalid or disabled token");
}

#[test]
fn rate_limits_are_per_principal() {
    let conn = control();
    let (_, token) = principal(&conn, "web", false);
    let guard = RateGuard::new(1);
    let once = || {
        let mut a = AuthRun::start(&header(&token)).unwrap();
        while let Some(s) = a.statement() {
            let reply = run(&conn, &s);
            a = a.accept(&reply);
        }
        a.decide_by(&guard)
    };
    assert!(once().is_ok());
    let e = once().unwrap_err();
    assert_eq!(e.code, ErrorCode::RateLimited);
    assert!(e.retry_after_secs.is_some());
}

#[test]
fn roles_are_ordered_and_admins_need_grants() {
    let conn = control();
    assert_eq!(register_db(&conn, "app").unwrap().status, 201);
    let e = register_db(&conn, "app").unwrap_err();
    assert_eq!(e.message, "database already exists");
    assert!(register_db(&conn, "1bad").is_err());
    let (id, token) = principal(&conn, "web", false);
    let p = authenticate(&conn, &header(&token)).unwrap();
    let e = permit(&conn, &p, "app", Need::Role(Role::Read)).unwrap_err();
    assert_eq!((e.code.status(), e.message.as_str()), (403, "requires 'read' on database"));
    assert_eq!(permit(&conn, &p, "ghost", Need::Role(Role::Read)).unwrap_err().code.status(), 404);
    assert_eq!(permit(&conn, &p, "1bad", Need::Exists).unwrap_err().code.status(), 400);
    assert!(permit(&conn, &p, "app", Need::Exists).is_ok());
    give(&conn, &id, "app", "write").unwrap();
    assert!(permit(&conn, &p, "app", Need::Role(Role::Read)).is_ok());
    assert!(permit(&conn, &p, "app", Need::Role(Role::Write)).is_ok());
    assert!(permit(&conn, &p, "app", Need::Role(Role::Admin)).is_err());
    assert!(permit(&conn, &p, "app", Need::Snapshot).is_err());
    give(&conn, &id, "app", "admin").unwrap();
    assert!(permit(&conn, &p, "app", Need::Snapshot).is_ok());
    let (_, root) = principal(&conn, "admin", true);
    let root = authenticate(&conn, &header(&root)).unwrap();
    assert!(permit(&conn, &root, "app", Need::Role(Role::Read)).is_err());
    assert!(permit(&conn, &root, "app", Need::Snapshot).is_ok());
    let e = give(&conn, &id, "app", "owner").unwrap_err();
    assert_eq!(e.message, "role must be 'read', 'write', or 'admin'");
    assert_eq!(give(&conn, &id, "ghost", "read").unwrap_err().message, "database not found");
    let body = admin::DeleteGrantBody { principal_id: id, database: "app".into() };
    let reply = run(&conn, &admin::delete_grant(&body));
    assert_eq!(admin::grant_deleted(&reply).unwrap().status, 204);
    assert!(permit(&conn, &p, "app", Need::Role(Role::Read)).is_err());
}

#[test]
fn databases_are_listed_and_forgotten() {
    let conn = control();
    register_db(&conn, "b").unwrap();
    register_db(&conn, "a").unwrap();
    let (id, _) = principal(&conn, "web", false);
    give(&conn, &id, "a", "read").unwrap();
    let listed = admin::list_databases(&run(&conn, &System::list_databases())).unwrap();
    match get(listed.body.as_ref().unwrap(), "databases").unwrap() {
        Json::Array(v) => {
            assert_eq!(v.len(), 2);
            assert!(json_eq(get(&v[0], "name").unwrap(), &json_text("a")));
        }
        other => panic!("{other:?}"),
    }
    let delete = |name: &str| {
        let mut d = admin::delete_database(name)?;
        let mut files = 0;
        loop {
            if let Some(s) = d.statement() {
                let reply = run(&conn, &s);
                d = d.accept(&reply);
            } else if d.wants_files_removed() {
                files += 1;
                d = d.files_removed();
            } else {
                break;
            }
        }
        d.answer().map(|a| (a.status, files))
    };
    assert_eq!(delete("a").unwrap(), (204, 1));
    assert_eq!(delete("a").unwrap_err().message, "database not found");
    assert_eq!(delete("1bad").unwrap_err().code.status(), 400);
    let left: i64 = conn.query_row("SELECT count(*) FROM grants", [], |r| r.get(0)).unwrap();
    assert_eq!(left, 0);
}

fn new_account(conn: &Connection, body: admin::CreatePrincipalBody) -> ApiResult<Answer> {
    let account = admin::create_principal(body)?;
    let reply = match &account {
        admin::Account::Token(p) => run(conn, &p.insert),
        admin::Account::Browser { user, .. } => run(conn, &user.insert),
    };
    admin::principal_created(&account, &reply)
}

fn browser_body(name: &str) -> admin::CreatePrincipalBody {
    admin::CreatePrincipalBody {
        name: name.into(),
        is_admin: false,
        password: Some("long-enough-password".into()),
    }
}

#[test]
fn principals_are_listed_without_secrets() {
    let conn = control();
    register_db(&conn, "app").unwrap();
    let made = new_account(&conn, browser_body("ada")).unwrap();
    assert_eq!(made.status, 201);
    assert!(get(made.body.as_ref().unwrap(), "token").is_none());
    let id = id_of(&made);
    let token = new_account(
        &conn,
        admin::CreatePrincipalBody { name: "web".into(), is_admin: true, password: None },
    )
    .unwrap();
    assert!(get(token.body.as_ref().unwrap(), "token").is_some());
    assert_eq!(new_account(&conn, browser_body("ada")).unwrap_err().message, "username already exists");
    let e = new_account(&conn, admin::CreatePrincipalBody { is_admin: true, ..browser_body("x-y-z") });
    assert_eq!(e.unwrap_err().message, "browser users cannot be global admins");
    assert_eq!(new_account(&conn, browser_body("a")).unwrap_err().code, ErrorCode::Validation);
    give(&conn, &id, "app", "write").unwrap();
    let list = |name: Option<&str>| {
        let mut l = admin::list_principals(&admin::ListPrincipalsQuery {
            name: name.map(String::from),
        });
        while let Some(s) = l.statement() {
            let reply = run(&conn, &s);
            l = l.accept(&reply);
        }
        l.answer().unwrap()
    };
    let found = list(Some("ADA"));
    match get(found.body.as_ref().unwrap(), "principals").unwrap() {
        Json::Array(v) => {
            assert_eq!(v.len(), 1);
            assert!(json_eq(get(&v[0], "kind").unwrap(), &json_text("browser")));
            assert!(get(&v[0], "password_hash").is_none());
            assert!(get(&v[0], "token").is_none());
            assert!(json_eq(
                get(&v[0], "grants").unwrap(),
                &parse("[{\"database\":\"app\",\"role\":\"write\"}]")
            ));
        }
        other => panic!("{other:?}"),
    }
    let all = list(None);
    match get(all.body.as_ref().unwrap(), "principals").unwrap() {
        Json::Array(v) => assert_eq!(v.len(), 2),
        other => panic!("{other:?}"),
    }
    let gone = admin::delete_principal(&run(&conn, &System::disable_principal(&id))).unwrap();
    assert_eq!(gone.status, 204);
    let e = admin::delete_principal(&run(&conn, &System::disable_principal("nobody"))).unwrap_err();
    assert_eq!(e.message, "principal not found");
}

#[test]
fn accounts_are_made_of_what_is_given() {
    let bytes = [7u8; 32];
    let (token, hash) = tinylord::tokens::token_of(&bytes);
    let body = || admin::CreatePrincipalBody { name: "web".into(), is_admin: true, password: None };
    match admin::create_principal_with(body(), None, "id-1".into(), &bytes, 42).unwrap() {
        admin::Account::Token(p) => {
            assert_eq!((p.id.as_str(), p.token.as_str()), ("id-1", token.as_str()));
            assert_eq!(
                p.insert.params,
                vec![
                    Value::Text("id-1".into()),
                    Value::Text("web".into()),
                    Value::Integer(1),
                    Value::Text(hash),
                    Value::Integer(42),
                ]
            );
        }
        other => panic!("{other:?}"),
    }
    let browser = browser_body("ada");
    let hashed = Some("h".to_string());
    match admin::create_principal_with(browser, hashed, "id-2".into(), &bytes, 42).unwrap() {
        admin::Account::Browser { name, user } => {
            assert_eq!((name.as_str(), user.user.id.as_str()), ("ada", "id-2"));
            assert_eq!(user.insert.params[5], Value::Text("h".into()));
        }
        other => panic!("{other:?}"),
    }
    let e = admin::create_principal_with(browser_body("ada"), None, "i".into(), &bytes, 0);
    assert_eq!(e.unwrap_err().code, ErrorCode::Internal);
    let reset = admin::ResetBrowserPasswordBody {
        name: "ada".into(),
        password: "another-long-password".into(),
    };
    assert_eq!(admin::reset_browser_password_with(&reset, Some("h".into())).unwrap(), "h");
    assert_eq!(
        admin::reset_browser_password_with(&reset, None).unwrap_err().code,
        ErrorCode::Internal
    );
    let search = admin::list_principals(&admin::ListPrincipalsQuery {
        name: Some("\u{c4}_D%".into()),
    });
    assert_eq!(search.statement().unwrap().params, vec![Value::Text("\u{c4}_D%".into())]);
}

#[test]
fn clocks_are_read_where_none_is_given() {
    let before = tinylord::ids::now_ms();
    let (insert, now) = System::insert_database("app");
    assert!(before <= now && now <= tinylord::ids::now_ms());
    assert_eq!(insert.params, vec![Value::Text("app".into()), Value::Integer(now)]);
    let lookup = System::lookup_browser_access_token("t");
    assert_eq!(lookup.params[0], Value::Text(tinylord::tokens::hash_token("t")));
    match &lookup.params[1] {
        Value::Integer(at) => assert!(before <= *at),
        other => panic!("{other:?}"),
    }
    let body = admin::CreateDatabaseBody { name: "app".into() };
    let at = admin::create_database_at(&body, 5).unwrap();
    assert_eq!(at.params[1], Value::Integer(5));
}

#[test]
fn principals_are_found_by_id_or_name() {
    let conn = control();
    let (id, _) = principal(&conn, "Ada", false);
    principal(&conn, "twin", false);
    principal(&conn, "TWIN", false);
    let find = |s: &str| {
        let mut r = resolve_principal(s);
        while let Some(stmt) = r.statement() {
            r.accept(&run(&conn, &stmt));
        }
        r.result()
    };
    assert_eq!(find(&id).unwrap(), id);
    assert_eq!(find("ada").unwrap(), id);
    assert!(find("nobody").unwrap_err().starts_with("no principal with id or name 'nobody'"));
    assert!(find("twin").unwrap_err().contains("is ambiguous: 2 principals share that name"));
}

#[test]
fn an_empty_name_names_nobody() {
    let conn = control();
    principal(&conn, "only", false);
    let mut r = resolve_principal("");
    while let Some(s) = r.statement() {
        r.accept(&run(&conn, &s));
    }
    assert!(r.result().unwrap_err().starts_with("no principal with id or name ''"));
}

#[test]
fn searches_take_every_character_as_it_is() {
    let conn = control();
    for name in ["axb", "a_b", "A_Bc", "100%", "\u{c9}mile"] {
        principal(&conn, name, false);
    }
    let found = |q: Option<&str>| -> Vec<String> {
        let reply = run(&conn, &System::find_principals(q));
        System::principals_listed(&reply).unwrap().into_iter().map(|p| p.name).collect()
    };
    assert_eq!(found(Some("a_b")), vec!["A_Bc", "a_b"]);
    assert_eq!(found(Some("%")), vec!["100%"]);
    assert_eq!(found(Some("\u{c9}")), vec!["\u{c9}mile"]);
    assert_eq!(found(Some("MILE")), vec!["\u{c9}mile"]);
    assert!(found(Some("nobody")).is_empty());
    assert_eq!(found(None).len(), 5);
    assert_eq!(found(Some("")).len(), 5);
}

#[test]
fn grants_go_to_the_one_that_was_found() {
    let conn = control();
    let (id, _) = principal(&conn, "Ada", false);
    principal(&conn, "twin", false);
    principal(&conn, "TWIN", false);
    let (insert, _) = System::insert_database("app");
    assert!(changed(&run(&conn, &insert)).unwrap());
    let give = |user: &str, db: &str| {
        let mut g = grant(user, db, Role::Write);
        while let Some(s) = g.statement() {
            let reply = run(&conn, &s);
            g = g.accept(&reply);
        }
        g.result()
    };
    let stored = || -> Vec<(String, String, String)> {
        let mut stmt =
            conn.prepare("SELECT principal_id, database_name, role FROM grants").unwrap();
        let rows = stmt.query_map([], |r| Ok((r.get(0)?, r.get(1)?, r.get(2)?))).unwrap();
        rows.map(|r| r.unwrap()).collect()
    };
    assert_eq!(give("ada", "none").unwrap_err(), "database 'none' does not exist");
    assert!(give("nobody", "app").unwrap_err().starts_with("no principal with id or name"));
    assert!(give("twin", "app").unwrap_err().contains("is ambiguous"));
    assert!(stored().is_empty());
    assert_eq!(give("ada", "app").unwrap(), "granted write on app to ada");
    assert_eq!(stored(), vec![(id.clone(), "app".to_string(), "write".to_string())]);
    assert!(give(&id, "app").is_ok());
    assert_eq!(stored().len(), 1);
}

#[test]
fn only_unique_constraints_are_conflicts() {
    let conn = Connection::open_in_memory().unwrap();
    conn.execute_batch("CREATE TABLE t (id TEXT PRIMARY KEY, n INTEGER NOT NULL CHECK (n > 0))")
        .unwrap();
    let tried = |sql: &str| match conn.execute(sql, []) {
        Ok(_) => None,
        Err(e) => Some(tinylord::errors::map_sqlite_err(&failure(e)).code),
    };
    assert_eq!(tried("INSERT INTO t VALUES ('a', 1)"), None);
    assert_eq!(tried("INSERT INTO t VALUES ('a', 1)"), Some(ErrorCode::Conflict));
    assert_eq!(tried("INSERT INTO t VALUES ('b', NULL)"), Some(ErrorCode::Internal));
    assert_eq!(tried("INSERT INTO t VALUES ('b', 0)"), Some(ErrorCode::Internal));
    assert_eq!(tried("INSERT INTO missing VALUES (1)"), Some(ErrorCode::Internal));
}

#[test]
fn the_admin_token_is_rotated() {
    let conn = control();
    let reset = || {
        let mut a = reset_admin_token();
        while let Some(s) = a.statement() {
            let reply = run(&conn, &s);
            a = a.resume(&reply);
        }
        a.result().unwrap().as_str().to_string()
    };
    let first = reset();
    assert!(authenticate(&conn, &header(&first)).unwrap().is_admin);
    let second = reset();
    assert_ne!(first, second);
    assert!(authenticate(&conn, &header(&first)).is_err());
    assert!(authenticate(&conn, &header(&second)).unwrap().is_admin);
    assert_eq!(counted(&run(&conn, &System::count_principals())).unwrap(), 1);
}

#[test]
fn registration_policy_is_stored() {
    let conn = control();
    let enabled = |default: bool| {
        System::registration_policy(&run(&conn, &System::registration_enabled()), default)
    };
    assert!(enabled(true));
    assert!(!enabled(false));
    let body = admin::RegistrationBody { enabled: true };
    let reply = run(&conn, &System::set_registration_enabled(true));
    assert!(admin::set_registration(&body, &reply).is_ok());
    assert!(enabled(false));
    assert!(!run(&conn, &System::set_registration_enabled(false)).is_failed());
    assert!(!enabled(true));
    let answer = admin::registration_status(false);
    assert!(json_eq(answer.body.as_ref().unwrap(), &parse("{\"enabled\":false}")));
}

// ---- Browser sessions ------------------------------------------------------

fn issue(conn: &Connection, id: &str, access: i64, refresh: i64) -> TokenSet {
    let mut i = issue_browser_tokens(id, access, refresh).unwrap();
    while let Some(s) = i.statement() {
        i.accept(&run(conn, &s));
    }
    assert!(i.is_over());
    i.result().unwrap()
}

fn rotate(conn: &Connection, refresh: &str, csrf: &str) -> Option<(String, TokenSet)> {
    let mut r = rotate_browser_session(refresh, csrf, 900, 3600);
    while let Some(s) = r.statement() {
        let reply = run(conn, &s);
        r = r.resume(&reply);
    }
    r.result().unwrap()
}

#[test]
fn sessions_are_issued_rotated_and_ended() {
    let conn = control();
    let id = id_of(&new_account(&conn, browser_body("delegate")).unwrap());
    let tokens = issue(&conn, &id, 900, 3600);
    assert_eq!(authenticate(&conn, &header(tokens.access.as_str())).unwrap().id, id);
    let stored: String = conn
        .query_row("SELECT token_hash FROM browser_sessions", [], |r| r.get(0))
        .unwrap();
    assert_eq!(stored, tinylord::tokens::hash_token(tokens.refresh.as_str()));
    assert!(rotate(&conn, tokens.refresh.as_str(), "wrong").is_none());
    let (owner, renewed) = rotate(&conn, tokens.refresh.as_str(), tokens.csrf.as_str()).unwrap();
    assert_eq!(owner, id);
    assert!(rotate(&conn, tokens.refresh.as_str(), renewed.csrf.as_str()).is_none());
    let (owner, renewed) = rotate(&conn, renewed.refresh.as_str(), renewed.csrf.as_str()).unwrap();
    assert_eq!(owner, id);
    assert_ne!(renewed.refresh.as_str(), tokens.refresh.as_str());
    assert!(rotate(&conn, tokens.refresh.as_str(), tokens.csrf.as_str()).is_none());
    assert!(authenticate(&conn, &header(renewed.access.as_str())).is_ok());
    let end = || {
        changed(&run(&conn, &System::revoke_browser_session(renewed.refresh.as_str(), renewed.csrf.as_str())))
            .unwrap()
    };
    assert!(end());
    assert!(!end());
    assert!(rotate(&conn, renewed.refresh.as_str(), renewed.csrf.as_str()).is_none());
}

#[test]
fn expired_tokens_open_nothing() {
    let conn = control();
    let id = id_of(&new_account(&conn, browser_body("delegate")).unwrap());
    let tokens = issue(&conn, &id, 0, 0);
    assert!(authenticate(&conn, &header(tokens.access.as_str())).is_err());
    assert!(rotate(&conn, tokens.refresh.as_str(), tokens.csrf.as_str()).is_none());
    assert_eq!(expires_at(1_000, 2), Some(3_000));
    assert_eq!(expires_at(i64::MAX, 1), None);
    assert!(issue_browser_tokens(&id, i64::MAX, 0).is_err());
}

#[test]
fn a_reset_password_ends_every_session() {
    let conn = control();
    let id = id_of(&new_account(&conn, browser_body("reset-user")).unwrap());
    let tokens = issue(&conn, &id, 900, 3600);
    let body = admin::ResetBrowserPasswordBody {
        name: "reset-user".into(),
        password: "another-long-password".into(),
    };
    let hash = admin::reset_browser_password(&body).unwrap();
    let reset = |name: &str| {
        let mut r = reset_browser_password(name, &hash);
        while let Some(s) = r.statement() {
            let reply = run(&conn, &s);
            r = r.accept(&reply);
        }
        r.result().unwrap()
    };
    let user = reset("reset-user");
    assert_eq!(user.as_ref().unwrap().id, id);
    assert_eq!(admin::password_reset("reset-user", user).unwrap().status, 200);
    assert!(authenticate(&conn, &header(tokens.access.as_str())).is_err());
    assert!(rotate(&conn, tokens.refresh.as_str(), tokens.csrf.as_str()).is_none());
    let found = System::browser_user_found(&run(&conn, &System::browser_user("reset-user"))).unwrap();
    let verdict = tinylord::browser_auth::verify_login(found, "another-long-password");
    assert_eq!(verdict.unwrap().id, id);
    let e = admin::password_reset("nobody", reset("nobody")).unwrap_err();
    assert_eq!(e.message, "browser user not found");
    let short = admin::ResetBrowserPasswordBody { name: "reset-user".into(), password: "x".into() };
    assert!(admin::reset_browser_password(&short).is_err());
}

// ---- Encryption ------------------------------------------------------------

fn open_keyed(uri: &str, key: &str) -> (Connection, bool) {
    let conn = Connection::open(uri).unwrap();
    let enc = Encryption::from_hex(Secret::new(key.to_string()));
    let ok = run_all(
        &conn,
        open_connection(&enc, ConnectionRole::Writer, 5000, DocStorage::detect()),
    );
    (conn, ok)
}

#[test]
fn a_wrong_key_opens_nothing() {
    let uri = "file:/wrong_key?vfs=memdb";
    let (good, ok) = open_keyed(uri, &"1".repeat(64));
    assert!(ok);
    create(&good, "c", "{\"a\":1}").unwrap();
    let (_other, ok) = open_keyed(uri, &"2".repeat(64));
    assert!(!ok);
    let (again, ok) = open_keyed(uri, &"1".repeat(64));
    assert!(ok);
    let n = total(&again, "c", None).unwrap();
    assert!(json_eq(get(&n, "count").unwrap(), &json_int(1)));
}

#[test]
fn rekeyed_files_open_with_the_new_key_only() {
    let uri = "file:/rekeyed?vfs=memdb";
    let (conn, ok) = open_keyed(uri, &"1".repeat(64));
    assert!(ok);
    create(&conn, "c", "{\"a\":1}").unwrap();
    assert!(run_all(&conn, rekey_script(&"3".repeat(64))));
    let (_old, ok) = open_keyed(uri, &"1".repeat(64));
    assert!(!ok);
    let (new, ok) = open_keyed(uri, &"3".repeat(64));
    assert!(ok);
    assert!(is_present(&run(&new, &collection_exists("c"))).unwrap());
}

#[test]
fn readers_cannot_write() {
    let conn = Connection::open_in_memory().unwrap();
    assert!(!run(&conn, &init_database(DocStorage::detect())).is_failed());
    let reader = open_connection(
        &Encryption::disabled(),
        ConnectionRole::Reader,
        5000,
        DocStorage::detect(),
    );
    assert!(run_all(&conn, reader));
    let write = tinylord::sql::batch("CREATE TABLE t (a)");
    assert!(run(&conn, &write).is_failed());
    assert!(!is_present(&run(&conn, &collection_exists("c"))).unwrap());
    assert!(lookup(&Json::Null, &vec!["a".to_string()]).is_none());
}
