//! What becomes of documents.
//!
//! The table of a collection is a map from rows to their cells. Here it is said what the
//! statements of a write and of a read make of it and learn from it, whatever the engine.

use crate::batch::OpReplyView;
use crate::data_op::{op_next, op_statement, DataOpView, RecordView, StageView};
use crate::documents::{
    fetch_answer, fetch_asks, fetch_next, fetch_statement, write_answer, FetchStageView,
    FetchView,
};
use crate::engine::{
    answers, asks, cells, change_ok, change_text, changed, chosen, cond_ok, cond_text, cut,
    expr_ok, expr_text, expr_texts, expr_value, holds, lemma_join1, lemma_join2, lemma_join4,
    lemma_lists_none, lemma_lists_one, lemma_new_row, lemma_params, lists, makes, new_row,
    question_binds, same_key, set_row, set_texts, told, Change, Clash, Cond, Engine, Expr,
    Question, Relation, Row, Table, Wanted,
};
use crate::errors::ErrorCode;
use crate::ids::{ident, law_name_is_identifier, name_ok};
use crate::json::{member, JsonView, NumberView};
use crate::schema::DocStorage;
use crate::sql::{reply_rows, ReplyView, ValueView};
use vstd::prelude::*;

verus! {

/// What the engine keeps of the JSON text of a document.
pub open spec fn kept(e: Engine, storage: DocStorage, text: Seq<char>) -> ValueView {
    match storage {
        DocStorage::Jsonb => (e.call)("jsonb"@, seq![ValueView::Text(text)]),
        DocStorage::TextJson => (e.call)("json"@, seq![ValueView::Text(text)]),
    }
}

/// The columns of the table of a collection are words.
proof fn lemma_columns()
    ensures
        ident("id"@),
        ident("doc"@),
        ident("created_at"@),
        ident("updated_at"@),
        ident("json"@),
        ident("jsonb"@),
        "id"@ != "doc"@,
        "id"@ != "created_at"@,
        "id"@ != "updated_at"@,
        "doc"@ != "created_at"@,
        "doc"@ != "updated_at"@,
        "created_at"@ != "updated_at"@,
{
    reveal_strlit("id");
    reveal_strlit("doc");
    reveal_strlit("created_at");
    reveal_strlit("updated_at");
    reveal_strlit("json");
    reveal_strlit("jsonb");
    assert("created_at"@[0] == 'c' && "updated_at"@[0] == 'u');
}

/// The function that takes a document into the stored form.
spec fn keeper(storage: DocStorage) -> Seq<char> {
    match storage {
        DocStorage::Jsonb => "jsonb"@,
        DocStorage::TextJson => "json"@,
    }
}

spec fn update_change(collection: Seq<char>, storage: DocStorage) -> Change {
    Change::Update {
        table: "coll_"@ + collection,
        sets: seq![
            ("doc"@, Expr::Call1(keeper(storage), Box::new(Expr::Param(1)))),
            ("updated_at"@, Expr::Param(2)),
        ],
        cond: Cond::Test(Expr::Column("id"@), Relation::Equal, Expr::Param(3)),
    }
}

/// The same pieces in the same order are the same text.
proof fn lemma_update_pieces(
    u: Seq<char>,
    k: Seq<char>,
    c: Seq<char>,
    s: Seq<char>,
    d: Seq<char>,
    f: Seq<char>,
    p: Seq<char>,
    sep: Seq<char>,
    b: Seq<char>,
    w: Seq<char>,
    x: Seq<char>,
)
    ensures
        (u + k) + c + (s + d) + f + (p + sep + b + w + x) == u + (k + c) + s + ((d + f + p) + sep
            + b) + w + x,
{
    assert((u + k) + c + (s + d) + f =~= u + (k + c) + s + (d + f));
    let head = u + (k + c) + s;
    assert(head + (d + f) + (p + sep + b + w + x) =~= head + ((d + f + p) + sep + b) + w + x);
}

proof fn lemma_update_text(o: DataOpView)
    requires
        o.stage is Update,
        name_ok(o.collection),
    ensures
        change_ok(update_change(o.collection, o.storage)),
        op_statement(o)->0.sql == change_text(update_change(o.collection, o.storage)),
{
    lemma_columns();
    lemma_params();
    law_name_is_identifier(o.collection);
    reveal_with_fuel(expr_ok, 3);
    reveal_with_fuel(expr_text, 3);
    let c = update_change(o.collection, o.storage);
    let f = keeper(o.storage);
    let doc = Expr::Call1(f, Box::new(Expr::Param(1)));
    let sets = seq![("doc"@, doc), ("updated_at"@, Expr::Param(2))];
    let a = "doc = "@ + f + "(?1)"@;
    let b = "updated_at = ?2"@;
    assert("doc"@ + " = "@ + expr_text(doc) == a) by {
        reveal_strlit("doc = ");
        reveal_strlit("doc");
        reveal_strlit(" = ");
        reveal_strlit("(");
        reveal_strlit("?1");
        reveal_strlit(")");
        reveal_strlit("(?1)");
        assert("doc = "@ =~= "doc"@ + " = "@);
        assert("(?1)"@ =~= "("@ + "?1"@ + ")"@);
        assert("doc"@ + " = "@ + (f + "("@ + "?1"@ + ")"@) =~= "doc"@ + " = "@ + f + ("("@ + "?1"@
            + ")"@));
    }
    assert("updated_at"@ + " = "@ + "?2"@ =~= b) by {
        reveal_strlit("updated_at");
        reveal_strlit(" = ");
        reveal_strlit("?2");
        reveal_strlit("updated_at = ?2");
    }
    assert(set_texts(sets) =~= seq![a, b]);
    lemma_join2(a, b, ", "@);
    let cond = Cond::Test(Expr::Column("id"@), Relation::Equal, Expr::Param(3));
    assert(cond_text(cond) =~= "id = ?3"@) by {
        reveal_strlit("id");
        reveal_strlit(" ");
        reveal_strlit("=");
        reveal_strlit("?3");
        reveal_strlit("id = ?3");
    }
    assert("UPDATE coll_"@ =~= "UPDATE "@ + "coll_"@ && " SET doc = "@ =~= " SET "@ + "doc = "@) by {
        reveal_strlit("UPDATE coll_");
        reveal_strlit("UPDATE ");
        reveal_strlit("coll_");
        reveal_strlit(" SET doc = ");
        reveal_strlit(" SET ");
        reveal_strlit("doc = ");
    }
    assert("(?1), updated_at = ?2 WHERE id = ?3"@ =~= "(?1)"@ + ", "@ + "updated_at = ?2"@
        + " WHERE "@ + "id = ?3"@) by {
        reveal_strlit("(?1), updated_at = ?2 WHERE id = ?3");
        reveal_strlit("(?1)");
        reveal_strlit(", ");
        reveal_strlit("updated_at = ?2");
        reveal_strlit(" WHERE ");
        reveal_strlit("id = ?3");
    }
    lemma_update_pieces(
        "UPDATE "@,
        "coll_"@,
        o.collection,
        " SET "@,
        "doc = "@,
        f,
        "(?1)"@,
        ", "@,
        b,
        " WHERE "@,
        "id = ?3"@,
    );
}

/// Replacing a document changes exactly the row with its identifier, whatever that row
/// held: it gets the new document and the time of the write. Nothing else of it changes,
/// and no other row.
pub proof fn law_replacing_changes_one_document(e: Engine, o: DataOpView, t: Table, at: int)
    requires
        o.stage is Update,
        name_ok(o.collection),
    ensures
        makes(
            e,
            op_statement(o)->0,
            "coll_"@ + o.collection,
            seq!["id"@],
            at,
            t,
            Some(
                t.map_values(
                    |r: Row|
                        if r["id"@] == ValueView::Text(o.id) {
                            r.insert("doc"@, kept(e, o.storage, o.doc_text)).insert(
                                "updated_at"@,
                                ValueView::Integer(o.now),
                            )
                        } else {
                            r
                        },
                ),
            ),
        ),
{
    lemma_update_text(o);
    let c = update_change(o.collection, o.storage);
    let params = op_statement(o)->0.params;
    let after = t.map_values(
        |r: Row|
            if r["id"@] == ValueView::Text(o.id) {
                r.insert("doc"@, kept(e, o.storage, o.doc_text)).insert(
                    "updated_at"@,
                    ValueView::Integer(o.now),
                )
            } else {
                r
            },
    );
    assert forall|r: Row| #[trigger] holds(e, c->Update_cond, params, r) == (r["id"@]
        == ValueView::Text(o.id)) by {
        assert(expr_value(e, Expr::Column("id"@), params, r) == r["id"@]);
        assert(expr_value(e, Expr::Param(3), params, r) == ValueView::Text(o.id));
    }
    assert forall|r: Row| #[trigger] set_row(e, c->sets, params, r) == r.insert(
        "doc"@,
        kept(e, o.storage, o.doc_text),
    ).insert("updated_at"@, ValueView::Integer(o.now)) by {
        let sets = c->sets;
        assert(sets.drop_last() =~= seq![sets[0]]);
        assert(seq![sets[0]].drop_last() =~= Seq::empty());
        reveal_with_fuel(set_row, 3);
        assert(expr_value(e, Expr::Param(1), params, r) == ValueView::Text(o.doc_text));
        assert(expr_value(e, Expr::Param(2), params, r) == ValueView::Integer(o.now));
    }
    assert(changed(e, c, params, t, seq!["id"@], at)->0 =~= after);
}

spec fn id_cond() -> Cond {
    Cond::Test(Expr::Column("id"@), Relation::Equal, Expr::Param(1))
}

proof fn lemma_id_cond()
    ensures
        cond_ok(id_cond()),
        cond_text(id_cond()) == "id = ?1"@,
        forall|e: Engine, params: Seq<ValueView>, r: Row|
            params.len() == 1 && params[0] is Text ==> (#[trigger] holds(e, id_cond(), params, r)
                <==> r["id"@] == params[0]),
{
    lemma_columns();
    lemma_params();
    assert(cond_text(id_cond()) =~= "id = ?1"@) by {
        reveal_strlit("id");
        reveal_strlit(" ");
        reveal_strlit("=");
        reveal_strlit("?1");
        reveal_strlit("id = ?1");
    }
    assert forall|e: Engine, params: Seq<ValueView>, r: Row|
        params.len() == 1 && params[0] is Text implies (#[trigger] holds(e, id_cond(), params, r)
        <==> r["id"@] == params[0]) by {
        assert(expr_value(e, Expr::Column("id"@), params, r) == r["id"@]);
        assert(expr_value(e, Expr::Param(1), params, r) == params[0]);
    }
}

/// Deleting a document takes out exactly the row with its identifier.
pub proof fn law_deleting_removes_one_document(e: Engine, o: DataOpView, t: Table, at: int)
    requires
        o.stage is Remove,
        name_ok(o.collection),
    ensures
        makes(
            e,
            op_statement(o)->0,
            "coll_"@ + o.collection,
            seq!["id"@],
            at,
            t,
            Some(
                t.restrict(
                    Set::new(
                        |k: int| t.contains_key(k) && t[k]["id"@] != ValueView::Text(o.id),
                    ),
                ),
            ),
        ),
{
    lemma_id_cond();
    law_name_is_identifier(o.collection);
    let c = Change::Delete { table: "coll_"@ + o.collection, cond: id_cond() };
    let st = op_statement(o)->0;
    assert("DELETE FROM coll_"@ =~= "DELETE FROM "@ + "coll_"@ && " WHERE id = ?1"@ =~= " WHERE "@
        + "id = ?1"@) by {
        reveal_strlit("DELETE FROM coll_");
        reveal_strlit("DELETE FROM ");
        reveal_strlit("coll_");
        reveal_strlit(" WHERE id = ?1");
        reveal_strlit(" WHERE ");
        reveal_strlit("id = ?1");
    }
    assert("DELETE FROM "@ + "coll_"@ + o.collection + (" WHERE "@ + "id = ?1"@) =~= "DELETE FROM "@
        + ("coll_"@ + o.collection) + " WHERE "@ + "id = ?1"@);
    assert(st.sql == change_text(c));
    assert(st.params == seq![ValueView::Text(o.id)]);
    let after = t.restrict(
        Set::new(|k: int| t.contains_key(k) && t[k]["id"@] != ValueView::Text(o.id)),
    );
    assert forall|r: Row| #[trigger] holds(e, c->Delete_cond, st.params, r) == (r["id"@]
        == ValueView::Text(o.id)) by {}
    assert(changed(e, c, st.params, t, seq!["id"@], at)->0 =~= after);
    assert(change_ok(c));
}

spec fn insert_columns() -> Seq<Seq<char>> {
    seq!["id"@, "doc"@, "created_at"@, "updated_at"@]
}

spec fn insert_values(storage: DocStorage) -> Seq<Expr> {
    seq![
        Expr::Param(1),
        Expr::Call1(keeper(storage), Box::new(Expr::Param(2))),
        Expr::Param(3),
        Expr::Param(3),
    ]
}

spec fn insert_change(collection: Seq<char>, storage: DocStorage) -> Change {
    Change::Insert {
        table: "coll_"@ + collection,
        columns: insert_columns(),
        values: insert_values(storage),
        clash: Clash::Refuse,
    }
}

proof fn lemma_insert_text(o: DataOpView)
    requires
        o.stage is Insert,
        name_ok(o.collection),
    ensures
        change_ok(insert_change(o.collection, o.storage)),
        op_statement(o)->0.sql == change_text(insert_change(o.collection, o.storage)),
{
    lemma_columns();
    lemma_params();
    law_name_is_identifier(o.collection);
    reveal_with_fuel(expr_ok, 3);
    reveal_with_fuel(expr_text, 3);
    let f = keeper(o.storage);
    let values = insert_values(o.storage);
    lemma_join4("id"@, "doc"@, "created_at"@, "updated_at"@, ", "@);
    let cols = "id, doc, created_at, updated_at"@;
    assert("id"@ + ", "@ + "doc"@ + ", "@ + "created_at"@ + ", "@ + "updated_at"@ =~= cols) by {
        reveal_strlit("id");
        reveal_strlit(", ");
        reveal_strlit("doc");
        reveal_strlit("created_at");
        reveal_strlit("updated_at");
        reveal_strlit("id, doc, created_at, updated_at");
    }
    let d = f + "(?2)"@;
    assert(f + "("@ + "?2"@ + ")"@ == d) by {
        reveal_strlit("(");
        reveal_strlit("?2");
        reveal_strlit(")");
        reveal_strlit("(?2)");
        assert("(?2)"@ =~= "("@ + "?2"@ + ")"@);
        assert(f + "("@ + "?2"@ + ")"@ =~= f + ("("@ + "?2"@ + ")"@));
    }
    assert(expr_texts(values) =~= seq!["?1"@, d, "?3"@, "?3"@]);
    lemma_join4("?1"@, d, "?3"@, "?3"@, ", "@);
    let head = "INSERT INTO "@;
    assert("INSERT INTO coll_"@ =~= head + "coll_"@) by {
        reveal_strlit("INSERT INTO coll_");
        reveal_strlit("INSERT INTO ");
        reveal_strlit("coll_");
    }
    assert(" (id, doc, created_at, updated_at) VALUES (?1, "@ =~= " ("@ + cols + ") VALUES ("@
        + "?1"@ + ", "@) by {
        reveal_strlit(" (id, doc, created_at, updated_at) VALUES (?1, ");
        reveal_strlit(" (");
        reveal_strlit("id, doc, created_at, updated_at");
        reveal_strlit(") VALUES (");
        reveal_strlit("?1");
        reveal_strlit(", ");
    }
    assert("(?2), ?3, ?3)"@ =~= "(?2)"@ + ", "@ + "?3"@ + ", "@ + "?3"@ + ")"@) by {
        reveal_strlit("(?2), ?3, ?3)");
        reveal_strlit("(?2)");
        reveal_strlit(", ");
        reveal_strlit("?3");
        reveal_strlit(")");
    }
    lemma_insert_pieces(
        head,
        "coll_"@,
        o.collection,
        " ("@ + cols + ") VALUES ("@,
        "?1"@,
        ", "@,
        f,
        "(?2)"@,
        "?3"@,
        ")"@,
    );
    let q = head + ("coll_"@ + o.collection);
    assert(q + (" ("@ + cols + ") VALUES ("@) =~= q + " ("@ + cols + ") VALUES ("@);
}

/// The same pieces in the same order are the same text.
proof fn lemma_insert_pieces(
    i: Seq<char>,
    k: Seq<char>,
    c: Seq<char>,
    m: Seq<char>,
    a: Seq<char>,
    sep: Seq<char>,
    f: Seq<char>,
    b: Seq<char>,
    n: Seq<char>,
    z: Seq<char>,
)
    ensures
        (i + k) + c + (m + a + sep) + f + (b + sep + n + sep + n + z) == i + (k + c) + m + (a + sep
            + (f + b) + sep + n + sep + n) + z + Seq::<char>::empty(),
{
    assert((i + k) + c + (m + a + sep) =~= i + (k + c) + m + (a + sep));
    let h = i + (k + c) + m;
    assert(h + (a + sep) + f + (b + sep + n + sep + n + z) =~= h + (a + sep + (f + b) + sep + n
        + sep + n) + z);
    let r = h + (a + sep + (f + b) + sep + n + sep + n) + z;
    assert(r + Seq::<char>::empty() =~= r);
}

/// The row of a new document.
pub open spec fn document_row(e: Engine, o: DataOpView) -> Row {
    Map::total(|c: Seq<char>| ValueView::Null).insert("id"@, ValueView::Text(o.id)).insert(
        "doc"@,
        kept(e, o.storage, o.doc_text),
    ).insert("created_at"@, ValueView::Integer(o.now)).insert(
        "updated_at"@,
        ValueView::Integer(o.now),
    )
}

/// Some row has this identifier.
pub open spec fn taken(t: Table, id: Seq<char>) -> bool {
    exists|k: int| #[trigger] t.contains_key(k) && t[k]["id"@] == ValueView::Text(id)
}

/// Creating a document adds exactly one row: its identifier, its content, and the time of
/// the write as the time of its creation and of its last change. An identifier that is
/// taken is refused.
pub proof fn law_creating_adds_one_document(e: Engine, o: DataOpView, t: Table, at: int)
    requires
        o.stage is Insert,
        name_ok(o.collection),
    ensures
        makes(
            e,
            op_statement(o)->0,
            "coll_"@ + o.collection,
            seq!["id"@],
            at,
            t,
            if taken(t, o.id) {
                None
            } else {
                Some(t.insert(at, document_row(e, o)))
            },
        ),
{
    lemma_insert_text(o);
    lemma_columns();
    let c = insert_change(o.collection, o.storage);
    let params = op_statement(o)->0.params;
    let cols = insert_columns();
    let values = insert_values(o.storage);
    let row = new_row(e, cols, values, params);
    assert(cols.no_duplicates());
    lemma_new_row(e, cols, values, params);
    let m = Map::<Seq<char>, ValueView>::empty();
    assert(expr_value(e, Expr::Param(1), params, m) == ValueView::Text(o.id));
    assert(expr_value(e, Expr::Param(2), params, m) == ValueView::Text(o.doc_text));
    assert(expr_value(e, Expr::Param(3), params, m) == ValueView::Integer(o.now));
    assert(expr_value(e, values[1], params, m) == kept(e, o.storage, o.doc_text)) by {
        reveal_with_fuel(expr_value, 3);
    }
    assert(row[cols[0]] == ValueView::Text(o.id));
    assert(row[cols[1]] == kept(e, o.storage, o.doc_text));
    assert(row[cols[2]] == ValueView::Integer(o.now));
    assert(row[cols[3]] == ValueView::Integer(o.now));
    assert forall|x: Seq<char>| row[x] == document_row(e, o)[x] by {
        if !cols.contains(x) {
            assert(x != cols[0] && x != cols[1] && x != cols[2] && x != cols[3]);
        }
    }
    assert(row =~= document_row(e, o));
    let key = seq!["id"@];
    assert forall|r: Row| #[trigger] same_key(r, row, key) == (r["id"@] == ValueView::Text(o.id)) by {
        assert(key[0] == "id"@);
    }
    assert(crate::engine::clashes(t, row, key) == taken(t, o.id)) by {
        if crate::engine::clashes(t, row, key) {
            let k = choose|k: int| #[trigger] t.contains_key(k) && same_key(t[k], row, key);
            assert(t.contains_key(k) && t[k]["id"@] == ValueView::Text(o.id));
        }
        if taken(t, o.id) {
            let k = choose|k: int|
                #[trigger] t.contains_key(k) && t[k]["id"@] == ValueView::Text(o.id);
            assert(t.contains_key(k) && same_key(t[k], row, key));
        }
    }
}

// ---- Reading ---------------------------------------------------------------

spec fn doc_cells() -> Seq<Expr> {
    seq![
        Expr::Column("id"@),
        Expr::Call1("json"@, Box::new(Expr::Column("doc"@))),
        Expr::Column("created_at"@),
        Expr::Column("updated_at"@),
    ]
}

spec fn by_id(collection: Seq<char>, wanted: Seq<Expr>) -> Question {
    Question {
        wanted: Wanted::Cells(wanted),
        table: "coll_"@ + collection,
        cond: Some(id_cond()),
        order: Seq::empty(),
        limit: None,
        offset: None,
    }
}

/// No two rows have the same identifier.
pub open spec fn keyed(t: Table) -> bool {
    forall|j: int, k: int|
        t.contains_key(j) && t.contains_key(k) && (#[trigger] t[j])["id"@] == (
        #[trigger] t[k])["id"@] ==> j == k
}

proof fn lemma_by_id(
    e: Engine,
    collection: Seq<char>,
    wanted: Seq<Expr>,
    t: Table,
    id: Seq<char>,
    rows: Seq<Seq<ValueView>>,
)
    requires
        keyed(t),
        answers(e, by_id(collection, wanted), seq![ValueView::Text(id)], t, rows),
    ensures
        !taken(t, id) ==> rows == Seq::<Seq<ValueView>>::empty(),
        forall|k: int| #[trigger]
            t.contains_key(k) && t[k]["id"@] == ValueView::Text(id) ==> rows == seq![
                cells(e, wanted, seq![ValueView::Text(id)], t[k]),
            ],
{
    lemma_id_cond();
    let q = by_id(collection, wanted);
    let params = seq![ValueView::Text(id)];
    let ks = choose|ks: Seq<int>|
        #[trigger] lists(e, q, params, t, ks) && rows == Seq::new(
            cut(q, ks).len(),
            |i: int| cells(e, wanted, params, t[cut(q, ks)[i]]),
        );
    assert(ks.skip(0) =~= ks);
    assert(cut(q, ks) == ks);
    assert forall|r: Row| #[trigger] chosen(e, q, params, r) == (r["id"@] == ValueView::Text(id)) by {
        assert(chosen(e, q, params, r) == holds(e, id_cond(), params, r));
    }
    if !taken(t, id) {
        assert forall|j: int| #[trigger] t.contains_key(j) implies !chosen(e, q, params, t[j]) by {}
        lemma_lists_none(e, q, params, t, ks);
        assert(rows =~= Seq::empty());
    }
    assert forall|k: int| #[trigger]
        t.contains_key(k) && t[k]["id"@] == ValueView::Text(id) implies rows == seq![
        cells(e, wanted, params, t[k]),
    ] by {
        assert forall|j: int| #[trigger] t.contains_key(j) implies (chosen(e, q, params, t[j])
            <==> j == k) by {
            if t[j]["id"@] == t[k]["id"@] {
                assert(j == k);
            }
        }
        lemma_lists_one(e, q, params, t, ks, k);
        assert(rows =~= seq![cells(e, wanted, params, t[k])]);
    }
}

proof fn lemma_fetch_asks(collection: Seq<char>, id: Seq<char>)
    requires
        name_ok(collection),
    ensures
        asks(fetch_statement(collection, id), by_id(collection, doc_cells())),
        fetch_statement(collection, id).params == seq![ValueView::Text(id)],
{
    lemma_columns();
    lemma_id_cond();
    law_name_is_identifier(collection);
    reveal_with_fuel(expr_ok, 3);
    reveal_with_fuel(expr_text, 3);
    let d = "json"@ + "("@ + "doc"@ + ")"@;
    assert(expr_texts(doc_cells()) =~= seq!["id"@, d, "created_at"@, "updated_at"@]);
    lemma_join4("id"@, d, "created_at"@, "updated_at"@, ", "@);
    let cols = "id"@ + ", "@ + d + ", "@ + "created_at"@ + ", "@ + "updated_at"@;
    assert("SELECT id, json(doc), created_at, updated_at FROM coll_"@ =~= "SELECT "@ + cols
        + " FROM "@ + "coll_"@) by {
        reveal_strlit("SELECT id, json(doc), created_at, updated_at FROM coll_");
        reveal_strlit("SELECT ");
        reveal_strlit("id");
        reveal_strlit(", ");
        reveal_strlit("json");
        reveal_strlit("(");
        reveal_strlit("doc");
        reveal_strlit(")");
        reveal_strlit("created_at");
        reveal_strlit("updated_at");
        reveal_strlit(" FROM ");
        reveal_strlit("coll_");
    }
    lemma_where_id();
    lemma_select_pieces("SELECT "@, cols, " FROM "@, "coll_"@, collection, " WHERE "@, "id = ?1"@);
    assert(question_binds(by_id(collection, doc_cells())) =~= Seq::empty());
}

proof fn lemma_where_id()
    ensures
        " WHERE id = ?1"@ == " WHERE "@ + "id = ?1"@,
{
    reveal_strlit(" WHERE id = ?1");
    reveal_strlit(" WHERE ");
    reveal_strlit("id = ?1");
    assert(" WHERE id = ?1"@ =~= " WHERE "@ + "id = ?1"@);
}

/// The same pieces in the same order are the same text.
proof fn lemma_select_pieces(
    s: Seq<char>,
    w: Seq<char>,
    f: Seq<char>,
    k: Seq<char>,
    c: Seq<char>,
    v: Seq<char>,
    x: Seq<char>,
)
    ensures
        (s + w + f + k) + c + (v + x) == s + w + f + (k + c) + (v + x) + Seq::<char>::empty()
            + Seq::<char>::empty() + Seq::<char>::empty(),
{
    let a = s + w + f;
    assert((a + k) + c + (v + x) =~= a + (k + c) + (v + x));
    let b = a + (k + c) + (v + x);
    assert(b + Seq::<char>::empty() + Seq::<char>::empty() + Seq::<char>::empty() =~= b);
}

/// Whoever asks for a document by its identifier is given its row and no other: the
/// identifier, the content as text, and the two times; and nothing where there is no such
/// document.
pub proof fn law_document_is_found_by_its_identifier(e: Engine, f: FetchView, t: Table, k: int)
    requires
        f.stage is Select,
        name_ok(f.coll),
        keyed(t),
    ensures
        !taken(t, f.id) ==> told(
            e,
            fetch_asks(f)->0,
            "coll_"@ + f.coll,
            t,
            |rows: Seq<Seq<ValueView>>| rows == Seq::<Seq<ValueView>>::empty(),
        ),
        t.contains_key(k) && t[k]["id"@] == ValueView::Text(f.id) ==> told(
            e,
            fetch_asks(f)->0,
            "coll_"@ + f.coll,
            t,
            |rows: Seq<Seq<ValueView>>|
                rows == seq![
                    seq![
                        ValueView::Text(f.id),
                        (e.call)("json"@, seq![t[k]["doc"@]]),
                        t[k]["created_at"@],
                        t[k]["updated_at"@],
                    ],
                ],
        ),
{
    lemma_fetch_asks(f.coll, f.id);
    let q = by_id(f.coll, doc_cells());
    let st = fetch_asks(f)->0;
    let params = seq![ValueView::Text(f.id)];
    let none = |rows: Seq<Seq<ValueView>>| rows == Seq::<Seq<ValueView>>::empty();
    let row = seq![
        ValueView::Text(f.id),
        (e.call)("json"@, seq![t[k]["doc"@]]),
        t[k]["created_at"@],
        t[k]["updated_at"@],
    ];
    let one = |rows: Seq<Seq<ValueView>>| rows == seq![row];
    if !taken(t, f.id) {
        assert forall|rows: Seq<Seq<ValueView>>| #[trigger]
            answers(e, q, st.params, t, rows) implies none(rows) by {
            lemma_by_id(e, f.coll, doc_cells(), t, f.id, rows);
        }
        assert(asks(st, q));
        assert(told(e, st, "coll_"@ + f.coll, t, none));
    }
    if t.contains_key(k) && t[k]["id"@] == ValueView::Text(f.id) {
        assert forall|rows: Seq<Seq<ValueView>>| #[trigger]
            answers(e, q, st.params, t, rows) implies one(rows) by {
            lemma_by_id(e, f.coll, doc_cells(), t, f.id, rows);
            reveal_with_fuel(expr_value, 3);
            assert(cells(e, doc_cells(), params, t[k]) =~= row);
        }
        assert(asks(st, q));
        assert(told(e, st, "coll_"@ + f.coll, t, one));
    }
}

/// A document that is replaced is read back as it was put: with its identifier, the new
/// content, the time of its creation as before, and the time of the write.
pub proof fn law_replaced_document_is_read_back(
    e: Engine,
    o: DataOpView,
    f: FetchView,
    t: Table,
    k: int,
)
    requires
        o.stage is Update,
        name_ok(o.collection),
        f.stage is Select,
        f.coll == o.collection,
        f.id == o.id,
        keyed(t),
        t.contains_key(k),
        t[k]["id"@] == ValueView::Text(o.id),
    ensures
        exists|after: Table|
            {
                &&& #[trigger] makes(
                    e,
                    op_statement(o)->0,
                    "coll_"@ + o.collection,
                    seq!["id"@],
                    0,
                    t,
                    Some(after),
                )
                &&& told(
                    e,
                    fetch_asks(f)->0,
                    "coll_"@ + o.collection,
                    after,
                    |rows: Seq<Seq<ValueView>>|
                        rows == seq![
                            seq![
                                ValueView::Text(o.id),
                                (e.call)("json"@, seq![kept(e, o.storage, o.doc_text)]),
                                t[k]["created_at"@],
                                ValueView::Integer(o.now),
                            ],
                        ],
                )
                &&& forall|j: int| j != k ==> #[trigger] after.contains_key(j) == t.contains_key(j)
                &&& forall|j: int| j != k && t.contains_key(j) ==> #[trigger] after[j] == t[j]
            },
{
    law_replacing_changes_one_document(e, o, t, 0);
    lemma_columns();
    let after = t.map_values(
        |r: Row|
            if r["id"@] == ValueView::Text(o.id) {
                r.insert("doc"@, kept(e, o.storage, o.doc_text)).insert(
                    "updated_at"@,
                    ValueView::Integer(o.now),
                )
            } else {
                r
            },
    );
    assert forall|j: int| #[trigger] t.contains_key(j) implies after[j]["id"@] == t[j]["id"@] by {}
    assert(keyed(after)) by {
        assert forall|j: int, i: int|
            after.contains_key(j) && after.contains_key(i) && (#[trigger] after[j])["id"@] == (
            #[trigger] after[i])["id"@] implies j == i by {
            assert(t.contains_key(j) && t.contains_key(i));
            assert(t[j]["id"@] == t[i]["id"@]);
        }
    }
    law_document_is_found_by_its_identifier(e, f, after, k);
    let row = seq![
        ValueView::Text(o.id),
        (e.call)("json"@, seq![kept(e, o.storage, o.doc_text)]),
        t[k]["created_at"@],
        ValueView::Integer(o.now),
    ];
    let a = |rows: Seq<Seq<ValueView>>|
        rows == seq![
            seq![
                ValueView::Text(f.id),
                (e.call)("json"@, seq![after[k]["doc"@]]),
                after[k]["created_at"@],
                after[k]["updated_at"@],
            ],
        ];
    assert(after[k]["doc"@] == kept(e, o.storage, o.doc_text));
    assert(after[k]["created_at"@] == t[k]["created_at"@]);
    assert(after[k]["updated_at"@] == ValueView::Integer(o.now));
    let b = |rows: Seq<Seq<ValueView>>| rows == seq![row];
    assert(told(e, fetch_asks(f)->0, "coll_"@ + f.coll, after, a));
    lemma_told_again(e, f, after, a, b);
    assert forall|j: int| j != k && t.contains_key(j) implies #[trigger] after[j] == t[j] by {
        assert(t[j]["id"@] != t[k]["id"@]);
    }
}

/// What is said of all answers in one way may be said in another that says no more.
proof fn lemma_told_again(
    e: Engine,
    f: FetchView,
    t: Table,
    a: spec_fn(Seq<Seq<ValueView>>) -> bool,
    b: spec_fn(Seq<Seq<ValueView>>) -> bool,
)
    requires
        told(e, fetch_asks(f)->0, "coll_"@ + f.coll, t, a),
        forall|rows: Seq<Seq<ValueView>>| #[trigger] a(rows) ==> b(rows),
    ensures
        told(e, fetch_asks(f)->0, "coll_"@ + f.coll, t, b),
{
    let st = fetch_asks(f)->0;
    let q = choose|q: Question|
        {
            &&& #[trigger] asks(st, q)
            &&& q.table == "coll_"@ + f.coll
            &&& forall|rows: Seq<Seq<ValueView>>| #[trigger]
                answers(e, q, st.params, t, rows) ==> a(rows)
        };
    assert forall|rows: Seq<Seq<ValueView>>| #[trigger]
        answers(e, q, st.params, t, rows) implies b(rows) by {
        assert(a(rows));
    }
    assert(asks(st, q));
}

/// A document that is created is read back as it was put.
pub proof fn law_created_document_is_read_back(
    e: Engine,
    o: DataOpView,
    f: FetchView,
    t: Table,
    at: int,
)
    requires
        o.stage is Insert,
        name_ok(o.collection),
        f.stage is Select,
        f.coll == o.collection,
        f.id == o.id,
        keyed(t),
        !taken(t, o.id),
        !t.contains_key(at),
    ensures
        exists|after: Table|
            {
                &&& #[trigger] makes(
                    e,
                    op_statement(o)->0,
                    "coll_"@ + o.collection,
                    seq!["id"@],
                    at,
                    t,
                    Some(after),
                )
                &&& told(
                    e,
                    fetch_asks(f)->0,
                    "coll_"@ + o.collection,
                    after,
                    |rows: Seq<Seq<ValueView>>|
                        rows == seq![
                            seq![
                                ValueView::Text(o.id),
                                (e.call)("json"@, seq![kept(e, o.storage, o.doc_text)]),
                                ValueView::Integer(o.now),
                                ValueView::Integer(o.now),
                            ],
                        ],
                )
                &&& forall|j: int| #[trigger] t.contains_key(j) ==> after.contains_key(j)
                    && after[j] == t[j]
            },
{
    law_creating_adds_one_document(e, o, t, at);
    lemma_columns();
    let row = document_row(e, o);
    let after = t.insert(at, row);
    assert(keyed(after)) by {
        assert forall|j: int, i: int|
            after.contains_key(j) && after.contains_key(i) && (#[trigger] after[j])["id"@] == (
            #[trigger] after[i])["id"@] implies j == i by {
            if j != at && i != at {
                assert(t[j]["id"@] == t[i]["id"@]);
            } else if j != at {
                assert(t.contains_key(j));
            } else if i != at {
                assert(t.contains_key(i));
            }
        }
    }
    law_document_is_found_by_its_identifier(e, f, after, at);
    let a = |rows: Seq<Seq<ValueView>>|
        rows == seq![
            seq![
                ValueView::Text(f.id),
                (e.call)("json"@, seq![after[at]["doc"@]]),
                after[at]["created_at"@],
                after[at]["updated_at"@],
            ],
        ];
    let b = |rows: Seq<Seq<ValueView>>|
        rows == seq![
            seq![
                ValueView::Text(o.id),
                (e.call)("json"@, seq![kept(e, o.storage, o.doc_text)]),
                ValueView::Integer(o.now),
                ValueView::Integer(o.now),
            ],
        ];
    assert(row["doc"@] == kept(e, o.storage, o.doc_text));
    assert(row["created_at"@] == ValueView::Integer(o.now));
    assert(told(e, fetch_asks(f)->0, "coll_"@ + f.coll, after, a));
    lemma_told_again(e, f, after, a, b);
}

/// A document that is deleted is not found any more, and the others are as before.
pub proof fn law_deleted_document_is_not_found(e: Engine, o: DataOpView, f: FetchView, t: Table)
    requires
        o.stage is Remove,
        name_ok(o.collection),
        f.stage is Select,
        f.coll == o.collection,
        f.id == o.id,
        keyed(t),
    ensures
        exists|after: Table|
            {
                &&& #[trigger] makes(
                    e,
                    op_statement(o)->0,
                    "coll_"@ + o.collection,
                    seq!["id"@],
                    0,
                    t,
                    Some(after),
                )
                &&& told(
                    e,
                    fetch_asks(f)->0,
                    "coll_"@ + o.collection,
                    after,
                    |rows: Seq<Seq<ValueView>>| rows == Seq::<Seq<ValueView>>::empty(),
                )
                &&& forall|j: int|
                    t.contains_key(j) && t[j]["id"@] != ValueView::Text(o.id)
                        ==> #[trigger] after.contains_key(j) && after[j] == t[j]
            },
{
    law_deleting_removes_one_document(e, o, t, 0);
    let after = t.restrict(
        Set::new(|k: int| t.contains_key(k) && t[k]["id"@] != ValueView::Text(o.id)),
    );
    assert(keyed(after)) by {
        assert forall|j: int, i: int|
            after.contains_key(j) && after.contains_key(i) && (#[trigger] after[j])["id"@] == (
            #[trigger] after[i])["id"@] implies j == i by {
            assert(t[j]["id"@] == t[i]["id"@]);
        }
    }
    law_document_is_found_by_its_identifier(e, f, after, 0);
}

/// Whether a document is replaced or created is decided by whether there is one: the
/// lookup tells the time of its creation, and nothing where there is none.
pub proof fn law_lookup_tells_what_there_is(e: Engine, o: DataOpView, t: Table, k: int)
    requires
        o.stage is Lookup,
        name_ok(o.collection),
        keyed(t),
    ensures
        !taken(t, o.id) ==> told(
            e,
            op_statement(o)->0,
            "coll_"@ + o.collection,
            t,
            |rows: Seq<Seq<ValueView>>|
                rows == Seq::<Seq<ValueView>>::empty() && op_next(o, ReplyView::Rows(rows)).stage
                    is Insert,
        ),
        t.contains_key(k) && t[k]["id"@] == ValueView::Text(o.id) && t[k]["created_at"@] is Integer
            ==> told(
            e,
            op_statement(o)->0,
            "coll_"@ + o.collection,
            t,
            |rows: Seq<Seq<ValueView>>|
                rows == seq![seq![t[k]["created_at"@]]] && op_next(o, ReplyView::Rows(rows)).stage
                    == StageView::Update(t[k]["created_at"@]->Integer_0),
        ),
{
    lemma_columns();
    lemma_id_cond();
    lemma_where_id();
    law_name_is_identifier(o.collection);
    let wanted = seq![Expr::Column("created_at"@)];
    let q = by_id(o.collection, wanted);
    let st = op_statement(o)->0;
    assert(expr_texts(wanted) =~= seq!["created_at"@]);
    lemma_join1("created_at"@, ", "@);
    assert("SELECT created_at FROM coll_"@ =~= "SELECT "@ + "created_at"@ + " FROM "@ + "coll_"@) by {
        reveal_strlit("SELECT created_at FROM coll_");
        reveal_strlit("SELECT ");
        reveal_strlit("created_at");
        reveal_strlit(" FROM ");
        reveal_strlit("coll_");
    }
    lemma_select_pieces(
        "SELECT "@,
        "created_at"@,
        " FROM "@,
        "coll_"@,
        o.collection,
        " WHERE "@,
        "id = ?1"@,
    );
    assert(question_binds(q) =~= Seq::empty());
    assert(asks(st, q));
    let params = seq![ValueView::Text(o.id)];
    if !taken(t, o.id) {
        let p = |rows: Seq<Seq<ValueView>>|
            rows == Seq::<Seq<ValueView>>::empty() && op_next(o, ReplyView::Rows(rows)).stage
                is Insert;
        assert forall|rows: Seq<Seq<ValueView>>| #[trigger]
            answers(e, q, st.params, t, rows) implies p(rows) by {
            lemma_by_id(e, o.collection, wanted, t, o.id, rows);
        }
        assert(told(e, st, "coll_"@ + o.collection, t, p));
    }
    if t.contains_key(k) && t[k]["id"@] == ValueView::Text(o.id) && t[k]["created_at"@] is Integer {
        let p = |rows: Seq<Seq<ValueView>>|
            rows == seq![seq![t[k]["created_at"@]]] && op_next(o, ReplyView::Rows(rows)).stage
                == StageView::Update(t[k]["created_at"@]->Integer_0);
        assert forall|rows: Seq<Seq<ValueView>>| #[trigger]
            answers(e, q, st.params, t, rows) implies p(rows) by {
            lemma_by_id(e, o.collection, wanted, t, o.id, rows);
            assert(cells(e, wanted, params, t[k]) =~= seq![t[k]["created_at"@]]);
            assert(rows[0] == seq![t[k]["created_at"@]]);
        }
        assert(told(e, st, "coll_"@ + o.collection, t, p));
    }
}

/// The number of an integer in JSON.
pub open spec fn json_number(n: i64) -> JsonView {
    JsonView::Number(
        if n < 0 {
            NumberView::NegInt(n)
        } else {
            NumberView::PosInt(n as u64)
        },
    )
}

/// The body shows a document with its identifier and its times, each in its place.
pub open spec fn shows(body: Option<JsonView>, rec: RecordView) -> bool {
    match body {
        Some(b) => {
            &&& member(b, "id"@) == Some(JsonView::Text(rec.id))
            &&& member(b, "created_at"@) == Some(json_number(rec.created_at))
            &&& member(b, "updated_at"@) == Some(json_number(rec.updated_at))
            &&& member(b, "doc"@) == Some(rec.doc)
        },
        None => false,
    }
}

/// A reader is answered what the row holds, each in its place.
pub proof fn law_answer_shows_the_row(
    f: FetchView,
    id: Seq<char>,
    text: Seq<char>,
    created_at: i64,
    updated_at: i64,
    doc: JsonView,
)
    requires
        f.stage is Select,
    ensures
        ({
            let row = seq![
                ValueView::Text(id),
                ValueView::Text(text),
                ValueView::Integer(created_at),
                ValueView::Integer(updated_at),
            ];
            let next = fetch_next(f, ReplyView::Rows(seq![row]));
            &&& next matches FetchStageView::Found(r) && r.doc_text == text
            &&& fetch_answer(next, Some(doc)) matches Ok(a) && a.status == 200 && shows(
                a.body,
                RecordView { id, created_at, updated_at, doc },
            )
        }),
        fetch_answer(fetch_next(f, ReplyView::Rows(Seq::empty())), Some(doc)) matches Err(e)
            && e.code == ErrorCode::NotFound,
{
    lemma_columns();
    let row = seq![
        ValueView::Text(id),
        ValueView::Text(text),
        ValueView::Integer(created_at),
        ValueView::Integer(updated_at),
    ];
    assert(reply_rows(ReplyView::Rows(seq![row]))[0] == row);
}

/// A write is answered with the document as it now is; 201 where it is new, 200 where it
/// took the place of another. A delete is answered with nothing, and what was not there
/// cannot be deleted.
pub proof fn law_write_is_answered_with_the_document(rec: RecordView, created: bool)
    ensures
        write_answer(OpReplyView::Written { rec, created }) matches Ok(a) && {
            &&& a.status == (if created {
                201u16
            } else {
                200u16
            })
            &&& shows(a.body, rec)
        },
        write_answer(OpReplyView::Deleted(true)) matches Ok(a) && a.status == 204 && a.body is None,
        write_answer(OpReplyView::Deleted(false)) matches Err(e) && e.code == ErrorCode::NotFound,
{
    lemma_columns();
}

} // verus!
