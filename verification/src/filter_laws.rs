//! What a filter means.
//!
//! The filter language is explained on the values that fields have, with no regard to
//! statements. Then it is shown that the compiled condition holds of exactly the rows
//! that the filter means, whatever the engine.

use crate::engine::{
    asks, chosen, cond_binds, cond_ok, cond_text, cond_texts, conds_binds, expr_binds, expr_ok,
    expr_text, expr_texts, expr_value, exprs_binds, holds, lemma_all_holds, lemma_join1,
    lemma_join2, lemma_join4, less_value, order_texts, question_text, relation_text, same_value,
    Cond, Direction, Engine, Expr, Question, Relation, Row, Wanted,
};
use crate::errors::code_status;
use crate::ids::{
    field_ok, field_path, ident, law_field_path_is_valid, law_name_is_identifier,
    law_path_is_quotable, name_ok,
};
use crate::json::{reached, Json, JsonView, Number, NumberView};
use crate::query::{
    assemble, bound_clause, cursor_order, dollar, eq_clause, extract_of, field_clause,
    filter_clause, gather, meta_column, operator_clause, operator_entry, or_entry, or_field,
    placeholder, scalar_value, sort_clause, sort_term, top_entry, Compiled, CountRequest,
    QueryRequest,
};
use crate::query_ep::{count_plan, page_size, query_plan, uses_cursor};
use crate::sql::{large_to_real, ValueView};
use crate::text::{decimal, join, lower, split};
use vstd::prelude::*;

verus! {

// ---- The meaning of a filter -----------------------------------------------

/// The value that stands for a scalar in a comparison: the truth values are one and zero,
/// and a number too large for an integer is a double.
pub open spec fn form(j: Json) -> ValueView {
    match j {
        Json::Bool(true) => ValueView::Integer(1),
        Json::Bool(false) => ValueView::Integer(0),
        Json::Number(Number::NegInt(n)) => ValueView::Integer(n),
        Json::Number(Number::PosInt(n)) => if n > i64::MAX {
            ValueView::Real(large_to_real(n))
        } else {
            ValueView::Integer(n as i64)
        },
        Json::Number(Number::Float(b)) => ValueView::Real(b),
        Json::Text(s) => ValueView::Text(s@),
        _ => ValueView::Null,
    }
}

/// What the engine reads out of the document of a row under a field.
pub open spec fn field_of(e: Engine, row: Row, field: Seq<char>) -> ValueView {
    (e.call)("json_extract"@, seq![row["doc"@], ValueView::Text("$."@ + field)])
}

/// A value meets an operator.
pub open spec fn operator_means(e: Engine, x: ValueView, op: Seq<char>, arg: Json) -> bool {
    let same = if arg is Null {
        x is Null
    } else {
        same_value(e, x, form(arg))
    };
    if op == "$eq"@ {
        same
    } else if op == "$ne"@ {
        !same
    } else if op == "$gt"@ {
        less_value(e, form(arg), x)
    } else if op == "$gte"@ {
        less_value(e, form(arg), x) || same_value(e, x, form(arg))
    } else if op == "$lt"@ {
        less_value(e, x, form(arg))
    } else if op == "$lte"@ {
        less_value(e, x, form(arg)) || same_value(e, x, form(arg))
    } else {
        match arg {
            Json::Array(list) => op == "$in"@ && exists|i: int|
                0 <= i < list@.len() && same_value(e, x, form(#[trigger] list@[i])),
            _ => false,
        }
    }
}

/// A row meets what is said of a field: all of its operators, or the one value.
pub open spec fn field_means(e: Engine, row: Row, field: Seq<char>, said: Json) -> bool {
    match said {
        Json::Object(ops) => forall|i: int|
            0 <= i < ops@.len() ==> operator_means(
                e,
                field_of(e, row, field),
                (#[trigger] ops@[i]).0@,
                ops@[i].1,
            ),
        _ => operator_means(e, field_of(e, row, field), "$eq"@, said),
    }
}

/// A row meets one of the alternatives: all of its fields.
pub open spec fn alternative_means(e: Engine, row: Row, sub: Json) -> bool {
    sub matches Json::Object(fields) && forall|i: int|
        0 <= i < fields@.len() ==> field_means(
            e,
            row,
            (#[trigger] fields@[i]).0@,
            fields@[i].1,
        )
}

/// A row meets an entry of a filter.
pub open spec fn entry_means(e: Engine, row: Row, key: Seq<char>, said: Json) -> bool {
    if key == "$or"@ {
        said matches Json::Array(subs) && exists|i: int|
            0 <= i < subs@.len() && alternative_means(e, row, #[trigger] subs@[i])
    } else {
        field_means(e, row, key, said)
    }
}

/// A row meets a filter: all of its entries.
pub open spec fn filter_means(e: Engine, row: Row, filter: Option<Json>) -> bool {
    match filter {
        Some(Json::Object(entries)) => forall|i: int|
            0 <= i < entries@.len() ==> entry_means(
                e,
                row,
                (#[trigger] entries@[i]).0@,
                entries@[i].1,
            ),
        _ => true,
    }
}

// ---- The condition ---------------------------------------------------------

/// The expression that reads a field out of the document of a row.
pub open spec fn extract_expr(field: Seq<char>) -> Expr {
    Expr::Call2(
        "json_extract"@,
        Box::new(Expr::Column("doc"@)),
        Box::new(Expr::Quoted("$."@ + field)),
    )
}

spec fn bound_list(list: Seq<Json>) -> Seq<Expr> {
    Seq::new(list.len(), |i: int| Expr::Bound(form(list[i])))
}

spec fn operator_cond(x: Expr, op: Seq<char>, arg: Json) -> Cond {
    if op == "$eq"@ {
        if arg is Null {
            Cond::IsNull(x)
        } else {
            Cond::Test(x, Relation::Equal, Expr::Bound(form(arg)))
        }
    } else if op == "$ne"@ {
        if arg is Null {
            Cond::NotNull(x)
        } else {
            Cond::Test(x, Relation::Differs, Expr::Bound(form(arg)))
        }
    } else if op == "$gt"@ {
        Cond::Test(x, Relation::Greater, Expr::Bound(form(arg)))
    } else if op == "$gte"@ {
        Cond::Test(x, Relation::AtLeast, Expr::Bound(form(arg)))
    } else if op == "$lt"@ {
        Cond::Test(x, Relation::Less, Expr::Bound(form(arg)))
    } else if op == "$lte"@ {
        Cond::Test(x, Relation::AtMost, Expr::Bound(form(arg)))
    } else {
        match arg {
            Json::Array(list) => if list@.len() == 0 {
                Cond::Fixed(false)
            } else {
                Cond::Among(x, bound_list(list@))
            },
            _ => Cond::Fixed(false),
        }
    }
}

spec fn operator_conds(x: Expr, ops: Seq<(String, Json)>) -> Seq<Cond> {
    Seq::new(ops.len(), |i: int| operator_cond(x, ops[i].0@, ops[i].1))
}

spec fn field_cond(field: Seq<char>, said: Json) -> Cond {
    match said {
        Json::Object(ops) => if ops@.len() == 0 {
            Cond::Fixed(true)
        } else {
            Cond::Group(Box::new(Cond::All(operator_conds(extract_expr(field), ops@))))
        },
        _ => operator_cond(extract_expr(field), "$eq"@, said),
    }
}

spec fn field_conds(fields: Seq<(String, Json)>) -> Seq<Cond> {
    Seq::new(fields.len(), |i: int| field_cond(fields[i].0@, fields[i].1))
}

spec fn alternative_cond(sub: Json) -> Cond {
    match sub {
        Json::Object(fields) => if fields@.len() == 0 {
            Cond::Group(Box::new(Cond::Fixed(true)))
        } else {
            Cond::Group(Box::new(Cond::All(field_conds(fields@))))
        },
        _ => Cond::Fixed(false),
    }
}

spec fn alternative_conds(subs: Seq<Json>) -> Seq<Cond> {
    Seq::new(subs.len(), |i: int| alternative_cond(subs[i]))
}

spec fn entry_cond(key: Seq<char>, said: Json) -> Cond {
    if key == "$or"@ {
        match said {
            Json::Array(subs) => if subs@.len() == 0 {
                Cond::Fixed(false)
            } else {
                Cond::Group(Box::new(Cond::Any(alternative_conds(subs@))))
            },
            _ => Cond::Fixed(false),
        }
    } else {
        field_cond(key, said)
    }
}

spec fn entry_conds(entries: Seq<(String, Json)>) -> Seq<Cond> {
    Seq::new(entries.len(), |i: int| entry_cond(entries[i].0@, entries[i].1))
}

spec fn filter_cond(filter: Option<Json>) -> Cond {
    match filter {
        Some(Json::Object(entries)) => if entries@.len() == 0 {
            Cond::Fixed(true)
        } else {
            Cond::All(entry_conds(entries@))
        },
        _ => Cond::Fixed(true),
    }
}

/// The clause is the condition, written down, with its values.
spec fn writes(c: Compiled, k: Cond) -> bool {
    c matches Ok(w) ==> w.sql == cond_text(k) && w.params == cond_binds(k) && cond_ok(k)
}

proof fn lemma_gather_writes(items: Seq<Compiled>, cs: Seq<Cond>)
    requires
        items.len() == cs.len(),
        forall|i: int| 0 <= i < items.len() ==> writes(#[trigger] items[i], cs[i]),
    ensures
        gather(items) matches Ok(p) ==> {
            &&& p.sql == cond_texts(cs)
            &&& p.params == conds_binds(cs)
            &&& forall|i: int| 0 <= i < cs.len() ==> cond_ok(#[trigger] cs[i])
        },
    decreases items.len(),
{
    if items.len() > 0 {
        let before = items.drop_last();
        let front = cs.drop_last();
        assert forall|i: int| 0 <= i < before.len() implies writes(#[trigger] before[i], front[i]) by {
            assert(before[i] == items[i] && front[i] == cs[i]);
        }
        lemma_gather_writes(before, front);
        assert(writes(items[items.len() - 1], cs[cs.len() - 1]));
        if let Ok(p) = gather(items) {
            assert(front =~= cs.drop_last());
            assert forall|i: int| 0 <= i < cs.len() implies cond_ok(#[trigger] cs[i]) by {
                if i < front.len() {
                    assert(front[i] == cs[i]);
                }
            }
        }
    }
}

proof fn lemma_scalar_form(j: Json)
    ensures
        scalar_value(j) matches Ok(v) ==> v == form(j),
{
}

proof fn lemma_extract(field: Seq<char>)
    requires
        field_path(field) is Ok,
    ensures
        field_path(field) == Ok::<Seq<char>, Seq<char>>("$."@ + field),
        expr_text(extract_expr(field)) == extract_of("$."@ + field),
        expr_ok(extract_expr(field)),
        expr_binds(extract_expr(field)) == Seq::<ValueView>::empty(),
{
    law_field_path_is_valid(field);
    law_path_is_quotable("$."@ + field);
    reveal_with_fuel(expr_ok, 3);
    reveal_with_fuel(expr_text, 3);
    reveal_with_fuel(expr_binds, 3);
    reveal_strlit("doc");
    reveal_strlit("json_extract");
    assert(ident("doc"@) && ident("json_extract"@));
    let path = "$."@ + field;
    assert("json_extract(doc, '"@ =~= "json_extract"@ + "("@ + "doc"@ + ", "@ + "'"@) by {
        reveal_strlit("json_extract(doc, '");
        reveal_strlit("(");
        reveal_strlit(", ");
        reveal_strlit("'");
    }
    assert("')"@ =~= "'"@ + ")"@) by {
        reveal_strlit("')");
        reveal_strlit("'");
        reveal_strlit(")");
    }
    let h = "json_extract"@ + "("@ + "doc"@ + ", "@;
    assert(h + ("'"@ + path + "'"@) + ")"@ =~= (h + "'"@) + path + ("'"@ + ")"@));
    assert(expr_binds(extract_expr(field)) =~= Seq::empty());
}

proof fn lemma_tails()
    ensures
        " = ?"@ == " "@ + "="@ + " "@ + "?"@,
        " IS NOT ?"@ == " "@ + "IS NOT"@ + " "@ + "?"@,
        " > ?"@ == " "@ + ">"@ + " "@ + "?"@,
        " >= ?"@ == " "@ + ">="@ + " "@ + "?"@,
        " < ?"@ == " "@ + "<"@ + " "@ + "?"@,
        " <= ?"@ == " "@ + "<="@ + " "@ + "?"@,
{
    reveal_strlit(" ");
    reveal_strlit("?");
    reveal_strlit("=");
    reveal_strlit("IS NOT");
    reveal_strlit(">");
    reveal_strlit(">=");
    reveal_strlit("<");
    reveal_strlit("<=");
    reveal_strlit(" = ?");
    reveal_strlit(" IS NOT ?");
    reveal_strlit(" > ?");
    reveal_strlit(" >= ?");
    reveal_strlit(" < ?");
    reveal_strlit(" <= ?");
    assert(" = ?"@ =~= " "@ + "="@ + " "@ + "?"@);
    assert(" IS NOT ?"@ =~= " "@ + "IS NOT"@ + " "@ + "?"@);
    assert(" > ?"@ =~= " "@ + ">"@ + " "@ + "?"@);
    assert(" >= ?"@ =~= " "@ + ">="@ + " "@ + "?"@);
    assert(" < ?"@ =~= " "@ + "<"@ + " "@ + "?"@);
    assert(" <= ?"@ =~= " "@ + "<="@ + " "@ + "?"@);
}

proof fn lemma_test_writes(x: Expr, r: Relation, tail: Seq<char>, arg: Json)
    requires
        expr_ok(x),
        expr_binds(x) == Seq::<ValueView>::empty(),
        tail == " "@ + relation_text(r) + " "@ + "?"@,
    ensures
        writes(
            bound_clause(expr_text(x), tail, arg),
            Cond::Test(x, r, Expr::Bound(form(arg))),
        ),
{
    lemma_scalar_form(arg);
    let b = Expr::Bound(form(arg));
    assert(expr_text(b) == "?"@);
    assert(expr_binds(x) + expr_binds(b) =~= seq![form(arg)]);
    let t = relation_text(r);
    assert(expr_text(x) + (" "@ + t + " "@ + "?"@) =~= expr_text(x) + " "@ + t + " "@ + "?"@);
}

proof fn lemma_list_writes(list: Seq<Json>)
    ensures
        gather(Seq::new(list.len(), |i: int| placeholder(list[i]))) matches Ok(p) ==> p.sql
            == expr_texts(bound_list(list)) && p.params == exprs_binds(bound_list(list)),
    decreases list.len(),
{
    let items = Seq::new(list.len(), |i: int| placeholder(list[i]));
    let xs = bound_list(list);
    if list.len() > 0 {
        let front = list.drop_last();
        assert(items.drop_last() =~= Seq::new(front.len(), |i: int| placeholder(front[i])));
        assert(xs.drop_last() =~= bound_list(front));
        lemma_list_writes(front);
        lemma_scalar_form(list.last());
        if let Ok(p) = gather(items) {
            assert(items.last() == placeholder(list.last()));
            assert(p.sql =~= expr_texts(xs));
        }
    } else {
        assert(expr_texts(xs) =~= Seq::empty());
    }
}

proof fn lemma_operators_differ()
    ensures
        "$in"@ != "$eq"@,
        "$in"@ != "$ne"@,
        "$in"@ != "$gt"@,
        "$in"@ != "$gte"@,
        "$in"@ != "$lt"@,
        "$in"@ != "$lte"@,
{
    reveal_strlit("$in");
    reveal_strlit("$eq");
    reveal_strlit("$ne");
    reveal_strlit("$gt");
    reveal_strlit("$gte");
    reveal_strlit("$lt");
    reveal_strlit("$lte");
    assert("$in"@[1] == 'i');
}

proof fn lemma_operator_writes(x: Expr, op: Seq<char>, arg: Json)
    requires
        expr_ok(x),
        expr_binds(x) == Seq::<ValueView>::empty(),
    ensures
        writes(operator_clause(expr_text(x), op, arg), operator_cond(x, op, arg)),
        op == "$eq"@ ==> operator_clause(expr_text(x), op, arg) == eq_clause(expr_text(x), arg),
{
    lemma_tails();
    lemma_test_writes(x, Relation::Equal, " = ?"@, arg);
    lemma_test_writes(x, Relation::Differs, " IS NOT ?"@, arg);
    lemma_test_writes(x, Relation::Greater, " > ?"@, arg);
    lemma_test_writes(x, Relation::AtLeast, " >= ?"@, arg);
    lemma_test_writes(x, Relation::Less, " < ?"@, arg);
    lemma_test_writes(x, Relation::AtMost, " <= ?"@, arg);
    if let Json::Array(list) = arg {
        lemma_list_writes(list@);
        let items = Seq::new(list@.len(), |i: int| placeholder(list@[i]));
        let xs = bound_list(list@);
        assert forall|i: int| 0 <= i < xs.len() implies expr_ok(#[trigger] xs[i]) by {}
        if let Ok(p) = gather(items) {
            assert(expr_texts(xs).len() == list@.len());
            assert(expr_binds(x) + exprs_binds(xs) =~= exprs_binds(xs));
            assert(list@.len() == 0 ==> exprs_binds(xs) =~= Seq::empty());
        }
    }
}

proof fn lemma_field_writes(field: Seq<char>, said: Json)
    ensures
        writes(field_clause(field, said), field_cond(field, said)),
        !(field_cond(field, said) is Any),
{
    if field_path(field) is Ok {
        lemma_extract(field);
        let x = extract_expr(field);
        match said {
            Json::Object(ops) => {
                let items = Seq::new(
                    ops@.len(),
                    |i: int| operator_entry(field, extract_of("$."@ + field), ops@[i]),
                );
                let cs = operator_conds(x, ops@);
                assert forall|i: int| 0 <= i < items.len() implies writes(
                    #[trigger] items[i],
                    cs[i],
                ) by {
                    lemma_operator_writes(x, ops@[i].0@, ops@[i].1);
                }
                lemma_gather_writes(items, cs);
                            assert forall|i: int| 0 <= i < cs.len() implies !(#[trigger] cs[i] is Any) by {}
                if ops@.len() > 0 {
                    reveal_with_fuel(cond_text, 2);
                    reveal_with_fuel(cond_ok, 3);
                    reveal_with_fuel(cond_binds, 3);
                } else {
                    assert(conds_binds(cs) =~= Seq::empty());
                }
            },
            _ => {
                lemma_operator_writes(x, "$eq"@, said);
            },
        }
    }
}

proof fn lemma_fields_write(items: Seq<Compiled>, cs: Seq<Cond>, empty: Seq<char>)
    requires
        items.len() == cs.len(),
        forall|i: int| 0 <= i < items.len() ==> writes(#[trigger] items[i], cs[i]),
        forall|i: int| 0 <= i < items.len() ==> !(#[trigger] cs[i] is Any),
    ensures
        items.len() > 0 ==> writes(
            assemble(items, Seq::empty(), " AND "@, Seq::empty(), empty),
            Cond::All(cs),
        ),
        items.len() > 0 ==> writes(
            assemble(items, "("@, " AND "@, ")"@, empty),
            Cond::Group(Box::new(Cond::All(cs))),
        ),
        items.len() == 0 ==> (gather(items) matches Ok(p) && p.sql.len() == 0 && p.params.len()
            == 0),
{
    lemma_gather_writes(items, cs);
    reveal_with_fuel(cond_ok, 3);
    reveal_with_fuel(cond_binds, 3);
    reveal_with_fuel(cond_text, 2);
    if let Ok(p) = gather(items) {
        let t = join(p.sql, " AND "@);
        assert(Seq::<char>::empty() + t + Seq::empty() =~= t);
    }
}

proof fn lemma_alternative_writes(sub: Json)
    ensures
        writes(or_entry(sub), alternative_cond(sub)),
{
    if let Json::Object(fields) = sub {
        let items = Seq::new(fields@.len(), |i: int| or_field(fields@[i]));
        let cs = field_conds(fields@);
        assert forall|i: int| 0 <= i < items.len() implies writes(#[trigger] items[i], cs[i]) && !(
        cs[i] is Any) by {
            lemma_field_writes(fields@[i].0@, fields@[i].1);
        }
        assert forall|i: int| 0 <= i < items.len() implies !(#[trigger] cs[i] is Any) by {
            assert(writes(items[i], cs[i]));
        }
        lemma_fields_write(items, cs, "(1)"@);
        if fields@.len() == 0 {
            reveal_with_fuel(cond_text, 2);
            reveal_with_fuel(cond_binds, 2);
            reveal_with_fuel(cond_ok, 2);
            assert("(1)"@ =~= "("@ + "1"@ + ")"@) by {
                reveal_strlit("(1)");
                reveal_strlit("(");
                reveal_strlit("1");
                reveal_strlit(")");
            }
            if let Ok(p) = gather(items) {
                assert(p.params =~= Seq::empty());
            }
        }
    }
}

proof fn lemma_entry_writes(entry: (String, Json))
    ensures
        writes(top_entry(entry), entry_cond(entry.0@, entry.1)),
        !(entry_cond(entry.0@, entry.1) is Any),
{
    if entry.0@ == "$or"@ {
        if let Json::Array(subs) = entry.1 {
            let items = Seq::new(subs@.len(), |i: int| or_entry(subs@[i]));
            let cs = alternative_conds(subs@);
            assert forall|i: int| 0 <= i < items.len() implies writes(
                #[trigger] items[i],
                cs[i],
            ) by {
                lemma_alternative_writes(subs@[i]);
            }
            lemma_gather_writes(items, cs);
                    reveal_with_fuel(cond_ok, 3);
            reveal_with_fuel(cond_binds, 3);
            reveal_with_fuel(cond_text, 2);
            if let Ok(p) = gather(items) {
                if subs@.len() == 0 {
                    assert(p.params =~= Seq::empty());
                }
            }
        }
    } else {
        lemma_field_writes(entry.0@, entry.1);
    }
}

proof fn lemma_filter_writes(filter: Option<Json>)
    ensures
        writes(filter_clause(filter), filter_cond(filter)),
        !(filter_cond(filter) is Any),
{
    if let Some(Json::Object(entries)) = filter {
        let items = Seq::new(entries@.len(), |i: int| top_entry(entries@[i]));
        let cs = entry_conds(entries@);
        assert forall|i: int| 0 <= i < items.len() implies writes(#[trigger] items[i], cs[i]) by {
            lemma_entry_writes(entries@[i]);
        }
        assert forall|i: int| 0 <= i < items.len() implies !(#[trigger] cs[i] is Any) by {
            lemma_entry_writes(entries@[i]);
        }
        lemma_fields_write(items, cs, "1"@);
        if let Ok(p) = gather(items) {
            if entries@.len() == 0 {
                assert(p.params =~= Seq::empty());
            }
        }
    }
}

// ---- The condition means the filter ----------------------------------------

proof fn lemma_operator_holds(
    e: Engine,
    x: Expr,
    op: Seq<char>,
    arg: Json,
    extract: Seq<char>,
    params: Seq<ValueView>,
    row: Row,
)
    requires
        operator_clause(extract, op, arg) is Ok,
    ensures
        holds(e, operator_cond(x, op, arg), params, row) <==> operator_means(
            e,
            expr_value(e, x, params, row),
            op,
            arg,
        ),
{
    let v = expr_value(e, x, params, row);
    assert(expr_value(e, Expr::Bound(form(arg)), params, row) == form(arg));
    assert(!(arg is Null) && !(arg is Array) && !(arg is Object) ==> !(form(arg) is Null));
    if let Json::Array(list) = arg {
        let xs = bound_list(list@);
        assert forall|i: int| 0 <= i < xs.len() implies expr_value(e, #[trigger] xs[i], params, row)
            == form(list@[i]) by {}
        if operator_means(e, v, op, arg) && op == "$in"@ {
            let i = choose|i: int| 0 <= i < list@.len() && same_value(e, v, form(#[trigger] list@[i]));
            assert(same_value(e, v, expr_value(e, xs[i], params, row)));
        }
        if holds(e, Cond::Among(x, xs), params, row) {
            let i = choose|i: int|
                0 <= i < xs.len() && same_value(e, v, expr_value(e, #[trigger] xs[i], params, row));
            assert(same_value(e, v, form(list@[i])));
        }
    }
    lemma_operators_differ();
}

/// Where all of several clauses are taken, each of them is.
proof fn lemma_gathered_each(items: Seq<Compiled>, i: int)
    requires
        gather(items) is Ok,
        0 <= i < items.len(),
    ensures
        items[i] is Ok,
    decreases items.len(),
{
    if i < items.len() - 1 {
        assert(items.drop_last()[i] == items[i]);
        lemma_gathered_each(items.drop_last(), i);
    }
}

proof fn lemma_field_holds(
    e: Engine,
    field: Seq<char>,
    said: Json,
    params: Seq<ValueView>,
    row: Row,
)
    requires
        field_clause(field, said) is Ok,
    ensures
        holds(e, field_cond(field, said), params, row) <==> field_means(e, row, field, said),
{
    lemma_extract(field);
    let x = extract_expr(field);
    let extract = extract_of("$."@ + field);
    assert(expr_value(e, x, params, row) == field_of(e, row, field)) by {
        reveal_with_fuel(expr_value, 3);
    }
    match said {
        Json::Object(ops) => {
            let items = Seq::new(ops@.len(), |i: int| operator_entry(field, extract, ops@[i]));
            let cs = operator_conds(x, ops@);
            assert forall|i: int| 0 <= i < ops@.len() implies (holds(
                e,
                #[trigger] cs[i],
                params,
                row,
            ) <==> operator_means(e, field_of(e, row, field), ops@[i].0@, ops@[i].1)) by {
                lemma_gathered_each(items, i);
                lemma_operator_holds(e, x, ops@[i].0@, ops@[i].1, extract, params, row);
            }
            lemma_all_holds(e, cs, params, row);
            if field_means(e, row, field, said) && ops@.len() > 0 {
                assert forall|i: int| 0 <= i < cs.len() implies holds(
                    e,
                    #[trigger] cs[i],
                    params,
                    row,
                ) by {
                    let entry = ops@[i];
                }
            }
            if holds(e, field_cond(field, said), params, row) {
                assert forall|i: int| 0 <= i < ops@.len() implies operator_means(
                    e,
                    field_of(e, row, field),
                    (#[trigger] ops@[i]).0@,
                    ops@[i].1,
                ) by {
                    assert(holds(e, cs[i], params, row));
                }
            }
        },
        _ => {
            assert(operator_clause(extract, "$eq"@, said) == eq_clause(extract, said));
            lemma_operator_holds(e, x, "$eq"@, said, extract, params, row);
        },
    }
}

proof fn lemma_alternative_holds(e: Engine, sub: Json, params: Seq<ValueView>, row: Row)
    requires
        or_entry(sub) is Ok,
    ensures
        holds(e, alternative_cond(sub), params, row) <==> alternative_means(e, row, sub),
{
    if let Json::Object(fields) = sub {
        let items = Seq::new(fields@.len(), |i: int| or_field(fields@[i]));
        let cs = field_conds(fields@);
        lemma_all_holds(e, cs, params, row);
        assert(holds(e, Cond::Group(Box::new(Cond::Fixed(true))), params, row)) by {
            reveal_with_fuel(holds, 2);
        }
        assert forall|i: int| 0 <= i < fields@.len() implies (holds(
            e,
            #[trigger] cs[i],
            params,
            row,
        ) <==> field_means(e, row, fields@[i].0@, fields@[i].1)) by {
            lemma_gathered_each(items, i);
            lemma_field_holds(e, fields@[i].0@, fields@[i].1, params, row);
        }
        if holds(e, alternative_cond(sub), params, row) {
            assert forall|i: int| 0 <= i < fields@.len() implies field_means(
                e,
                row,
                (#[trigger] fields@[i]).0@,
                fields@[i].1,
            ) by {
                assert(holds(e, cs[i], params, row));
            }
        }
        if alternative_means(e, row, sub) {
            assert forall|i: int| 0 <= i < cs.len() implies holds(
                e,
                #[trigger] cs[i],
                params,
                row,
            ) by {
                let entry = fields@[i];
            }
        }
    }
}

proof fn lemma_entry_holds(e: Engine, entry: (String, Json), params: Seq<ValueView>, row: Row)
    requires
        top_entry(entry) is Ok,
    ensures
        holds(e, entry_cond(entry.0@, entry.1), params, row) <==> entry_means(
            e,
            row,
            entry.0@,
            entry.1,
        ),
{
    if entry.0@ == "$or"@ {
        if let Json::Array(subs) = entry.1 {
            let items = Seq::new(subs@.len(), |i: int| or_entry(subs@[i]));
            let cs = alternative_conds(subs@);
            lemma_all_holds(e, cs, params, row);
            assert forall|i: int| 0 <= i < subs@.len() implies (holds(
                e,
                #[trigger] cs[i],
                params,
                row,
            ) <==> alternative_means(e, row, subs@[i])) by {
                lemma_gathered_each(items, i);
                lemma_alternative_holds(e, subs@[i], params, row);
            }
            if holds(e, entry_cond(entry.0@, entry.1), params, row) {
                let i = choose|i: int| 0 <= i < cs.len() && holds(e, #[trigger] cs[i], params, row);
                assert(alternative_means(e, row, subs@[i]));
            }
            if entry_means(e, row, entry.0@, entry.1) {
                let i = choose|i: int|
                    0 <= i < subs@.len() && alternative_means(e, row, #[trigger] subs@[i]);
                assert(holds(e, cs[i], params, row));
            }
        }
    } else {
        lemma_field_holds(e, entry.0@, entry.1, params, row);
    }
}

proof fn lemma_filter_holds(e: Engine, filter: Option<Json>, params: Seq<ValueView>, row: Row)
    requires
        filter_clause(filter) is Ok,
    ensures
        holds(e, filter_cond(filter), params, row) <==> filter_means(e, row, filter),
{
    if let Some(Json::Object(entries)) = filter {
        let items = Seq::new(entries@.len(), |i: int| top_entry(entries@[i]));
        let cs = entry_conds(entries@);
        lemma_all_holds(e, cs, params, row);
        assert forall|i: int| 0 <= i < entries@.len() implies (holds(
            e,
            #[trigger] cs[i],
            params,
            row,
        ) <==> entry_means(e, row, entries@[i].0@, entries@[i].1)) by {
            lemma_gathered_each(items, i);
            lemma_entry_holds(e, entries@[i], params, row);
        }
        if holds(e, filter_cond(filter), params, row) {
            assert forall|i: int| 0 <= i < entries@.len() implies entry_means(
                e,
                row,
                (#[trigger] entries@[i]).0@,
                entries@[i].1,
            ) by {
                assert(holds(e, cs[i], params, row));
            }
        }
        if filter_means(e, row, filter) {
            assert forall|i: int| 0 <= i < cs.len() implies holds(
                e,
                #[trigger] cs[i],
                params,
                row,
            ) by {
                let entry = entries@[i];
            }
        }
    }
}

/// A filter that is taken is compiled to a condition that holds of a row if and only if
/// the filter means it, in every engine. The values of the condition are the bound ones,
/// in order.
pub proof fn law_condition_means_the_filter(filter: Option<Json>)
    requires
        filter_clause(filter) is Ok,
    ensures
        exists|c: Cond|
            {
                &&& cond_ok(c)
                &&& #[trigger] cond_text(c) == filter_clause(filter)->Ok_0.sql
                &&& cond_binds(c) == filter_clause(filter)->Ok_0.params
                &&& forall|e: Engine, row: Row| #[trigger]
                    holds(e, c, Seq::empty(), row) <==> filter_means(e, row, filter)
            },
{
    lemma_filter_writes(filter);
    let c = filter_cond(filter);
    assert forall|e: Engine, row: Row| #[trigger]
        holds(e, c, Seq::empty(), row) <==> filter_means(e, row, filter) by {
        lemma_filter_holds(e, filter, Seq::empty(), row);
    }
    assert(cond_text(c) == filter_clause(filter)->Ok_0.sql);
}

// ---- Filters on documents --------------------------------------------------

/// The engine reads the fields of a stored document as they are: a truth value as one or
/// zero, an integer and a text as such, and nothing where there is nothing.
pub open spec fn reads_document(e: Engine, stored: ValueView, doc: JsonView) -> bool {
    forall|field: Seq<char>| #[trigger]
        field_ok(field) ==> {
            let x = (e.call)("json_extract"@, seq![stored, ValueView::Text("$."@ + field)]);
            match reached(doc, split(field, '.')) {
                None => x is Null,
                Some(JsonView::Null) => x is Null,
                Some(JsonView::Bool(b)) => x == ValueView::Integer(
                    if b {
                        1
                    } else {
                        0
                    },
                ),
                Some(JsonView::Number(NumberView::PosInt(n))) => if n <= i64::MAX {
                    x == ValueView::Integer(n as i64)
                } else {
                    x is Real
                },
                Some(JsonView::Number(NumberView::NegInt(n))) => x == ValueView::Integer(n),
                Some(JsonView::Number(NumberView::Float(_))) => x is Real,
                Some(JsonView::Text(t)) => x == ValueView::Text(t),
                Some(_) => x is Text,
            }
        }
}

/// The integer that a value counts as, if it counts as one.
pub open spec fn counts_as(j: JsonView) -> Option<int> {
    match j {
        JsonView::Bool(b) => Some(
            if b {
                1
            } else {
                0
            },
        ),
        JsonView::Number(NumberView::PosInt(n)) => if n <= i64::MAX {
            Some(n as int)
        } else {
            None
        },
        JsonView::Number(NumberView::NegInt(n)) => Some(n as int),
        _ => None,
    }
}

/// A filter of one value chooses a document by that value. A truth value chooses those
/// that have it, and not those that have the other; a number and a text likewise; and
/// null chooses those where there is nothing. To the engine a truth value is a one or a
/// zero, and a list or an object is a text.
pub proof fn law_values_choose_documents(
    e: Engine,
    row: Row,
    doc: JsonView,
    field: Seq<char>,
    arg: Json,
    actual: Option<JsonView>,
)
    requires
        field.len() > 0,
        field_ok(field),
        reads_document(e, row["doc"@], doc),
        actual == reached(doc, split(field, '.')),
    ensures
        arg is Bool ==> (field_means(e, row, field, arg) <==> match actual {
            Some(JsonView::Bool(b)) => b == arg->Bool_0,
            Some(JsonView::Number(n)) => match counts_as(JsonView::Number(n)) {
                Some(have) => have == (if arg->Bool_0 {
                    1int
                } else {
                    0
                }),
                None => field_means(e, row, field, arg),
            },
            _ => false,
        }),
        arg matches Json::Text(s) ==> (field_means(e, row, field, arg) <==> match actual {
            Some(JsonView::Array(_)) | Some(JsonView::Object(_)) => field_means(e, row, field, arg),
            _ => actual == Some(JsonView::Text(s@)),
        }),
        arg is Null ==> (field_means(e, row, field, arg) <==> actual is None || actual == Some(
            JsonView::Null,
        )),
        match (actual, counts_as(arg@)) {
            (Some(j), Some(want)) => match counts_as(j) {
                Some(have) => {
                    let x = field_of(e, row, field);
                    &&& operator_means(e, x, "$eq"@, arg) <==> have == want
                    &&& operator_means(e, x, "$ne"@, arg) <==> have != want
                    &&& operator_means(e, x, "$gt"@, arg) <==> have > want
                    &&& operator_means(e, x, "$gte"@, arg) <==> have >= want
                    &&& operator_means(e, x, "$lt"@, arg) <==> have < want
                    &&& operator_means(e, x, "$lte"@, arg) <==> have <= want
                },
                None => true,
            },
            _ => true,
        },
{
    assert(field_ok(field));
    lemma_operator_words();
    match arg {
        Json::Number(n) => {
            assert(arg@ == JsonView::Number(crate::json::number_view(n)));
        },
        Json::Bool(b) => {
            assert(arg@ == JsonView::Bool(b));
        },
        Json::Array(_) => {
            assert(arg@ is Array);
        },
        Json::Object(_) => {
            assert(arg@ is Object);
        },
        _ => {},
    }
    if let Some(j) = actual {
        if let (Some(have), Some(want)) = (counts_as(j), counts_as(arg@)) {
            assert(field_of(e, row, field) == ValueView::Integer(have as i64));
            assert(form(arg) == ValueView::Integer(want as i64));
        }
    }
}

proof fn lemma_operator_words()
    ensures
        "$ne"@ != "$eq"@,
        "$gt"@ != "$eq"@,
        "$gt"@ != "$ne"@,
        "$gte"@ != "$eq"@,
        "$gte"@ != "$ne"@,
        "$gte"@ != "$gt"@,
        "$lt"@ != "$eq"@,
        "$lt"@ != "$ne"@,
        "$lt"@ != "$gt"@,
        "$lt"@ != "$gte"@,
        "$lte"@ != "$eq"@,
        "$lte"@ != "$ne"@,
        "$lte"@ != "$gt"@,
        "$lte"@ != "$gte"@,
        "$lte"@ != "$lt"@,
{
    reveal_strlit("$eq");
    reveal_strlit("$ne");
    reveal_strlit("$gt");
    reveal_strlit("$gte");
    reveal_strlit("$lt");
    reveal_strlit("$lte");
    assert("$eq"@[1] == 'e' && "$ne"@[1] == 'n' && "$gt"@[1] == 'g' && "$lt"@[1] == 'l');
    assert("$gte"@[1] == 'g' && "$lte"@[1] == 'l');
    assert("$gt"@.len() == 3 && "$gte"@.len() == 4 && "$lt"@.len() == 3 && "$lte"@.len() == 4);
}

/// Different scalars are compared as different values, but for the truth values, which
/// are one and zero.
pub proof fn law_scalars_stay_apart(a: Json, b: Json)
    requires
        scalar_value(a) is Ok,
        scalar_value(a) == scalar_value(b),
    ensures
        a is Bool && b is Bool ==> a == b,
        a is Text || b is Text ==> a@ == b@,
        a is Null <==> b is Null,
        counts_as(a@) == counts_as(b@),
{
    if let Json::Number(n) = a {
        assert(a@ == JsonView::Number(crate::json::number_view(n)));
    }
    if let Json::Number(n) = b {
        assert(b@ == JsonView::Number(crate::json::number_view(n)));
    }
}

/// A filter is taken if each of its entries sets a scalar on a field; nothing but a
/// malformed filter is refused.
pub proof fn law_plain_filters_are_taken(field: Seq<char>, arg: Json)
    requires
        field.len() > 0,
        field_ok(field),
    ensures
        !(arg is Array) && !(arg is Object) ==> field_clause(field, arg) is Ok,
        arg is Array ==> field_clause(field, arg) is Err,
        forall|x: Seq<char>|
            !(arg is Array) && !(arg is Object) ==> {
                &&& #[trigger] operator_clause(x, "$eq"@, arg) is Ok
                &&& operator_clause(x, "$ne"@, arg) is Ok
                &&& operator_clause(x, "$gt"@, arg) is Ok
                &&& operator_clause(x, "$gte"@, arg) is Ok
                &&& operator_clause(x, "$lt"@, arg) is Ok
                &&& operator_clause(x, "$lte"@, arg) is Ok
            },
{
    lemma_operator_words();
}

// ---- The statement of a query ----------------------------------------------

/// The order that a query asks for: by the columns of the table or by fields of the
/// document, up or down; by identifier where it asks for none.
pub open spec fn sort_order(sort: Seq<(String, String)>) -> Seq<(Expr, Direction)> {
    if sort.len() == 0 {
        seq![(Expr::Column("id"@), Direction::Ascending)]
    } else {
        Seq::new(
            sort.len(),
            |i: int|
                (
                    if sort[i].0@ == "id"@ || sort[i].0@ == "created_at"@ || sort[i].0@
                        == "updated_at"@ {
                        Expr::Column(sort[i].0@)
                    } else {
                        extract_expr(sort[i].0@)
                    },
                    if lower(sort[i].1@) == "desc"@ {
                        Direction::Descending
                    } else {
                        Direction::Ascending
                    },
                ),
        )
    }
}

proof fn lemma_meta_columns()
    ensures
        ident("id"@),
        ident("doc"@),
        ident("created_at"@),
        ident("updated_at"@),
        ident("json"@),
{
    reveal_strlit("id");
    reveal_strlit("doc");
    reveal_strlit("created_at");
    reveal_strlit("updated_at");
    reveal_strlit("json");
}

proof fn lemma_sort_terms(sort: Seq<(String, String)>, n: int)
    requires
        0 <= n <= sort.len(),
        sort.len() > 0,
    ensures
        gather(Seq::new(n as nat, |i: int| sort_term(sort[i]))) matches Ok(p) ==> {
            &&& p.sql == order_texts(sort_order(sort)).take(n)
            &&& forall|i: int| 0 <= i < n ==> expr_ok((#[trigger] sort_order(sort)[i]).0)
        },
    decreases n,
{
    let items = Seq::new(n as nat, |i: int| sort_term(sort[i]));
    let order = sort_order(sort);
    if n > 0 {
        assert(items.drop_last() =~= Seq::new((n - 1) as nat, |i: int| sort_term(sort[i])));
        lemma_sort_terms(sort, n - 1);
        lemma_meta_columns();
        reveal_strlit("asc");
        reveal_strlit("desc");
        assert("asc"@.len() == 3 && "desc"@.len() == 4);
        let field = sort[n - 1].0@;
        if let Ok(p) = gather(items) {
            assert(items.last() == sort_term(sort[n - 1]));
            if !meta_column(field) {
                lemma_extract(field);
            }
            assert(p.sql =~= order_texts(order).take(n));
        }
    } else {
        assert(order_texts(order).take(0) =~= Seq::empty());
    }
}

proof fn lemma_sort_text(sort: Seq<(String, String)>)
    ensures
        sort_clause(sort) matches Ok(w) ==> {
            &&& w.sql == "ORDER BY "@ + join(order_texts(sort_order(sort)), ", "@)
            &&& forall|i: int|
                0 <= i < sort_order(sort).len() ==> expr_ok((#[trigger] sort_order(sort)[i]).0)
        },
{
    let order = sort_order(sort);
    if sort.len() == 0 {
        lemma_meta_columns();
        assert(order_texts(order) =~= seq!["id"@ + " ASC"@]);
        lemma_join1("id"@ + " ASC"@, ", "@);
        assert("ORDER BY id ASC"@ =~= "ORDER BY "@ + ("id"@ + " ASC"@)) by {
            reveal_strlit("ORDER BY id ASC");
            reveal_strlit("ORDER BY ");
            reveal_strlit("id");
            reveal_strlit(" ASC");
        }
    } else {
        lemma_sort_terms(sort, sort.len() as int);
        assert(order_texts(order).take(sort.len() as int) =~= order_texts(order));
        let t = join(order_texts(order), ", "@);
        assert("ORDER BY "@ + t + Seq::empty() =~= "ORDER BY "@ + t);
    }
}

spec fn page_cells() -> Seq<Expr> {
    seq![
        Expr::Column("id"@),
        Expr::Call1("json"@, Box::new(Expr::Column("doc"@))),
        Expr::Column("created_at"@),
        Expr::Column("updated_at"@),
    ]
}

proof fn lemma_page_cells()
    ensures
        join(expr_texts(page_cells()), ", "@) == "id, json(doc), created_at, updated_at"@,
        forall|i: int| 0 <= i < 4 ==> expr_ok(#[trigger] page_cells()[i]),
{
    lemma_meta_columns();
    reveal_with_fuel(expr_text, 3);
    reveal_with_fuel(expr_ok, 3);
    let d = "json"@ + "("@ + "doc"@ + ")"@;
    assert(expr_texts(page_cells()) =~= seq!["id"@, d, "created_at"@, "updated_at"@]);
    lemma_join4("id"@, d, "created_at"@, "updated_at"@, ", "@);
    assert("id"@ + ", "@ + d + ", "@ + "created_at"@ + ", "@ + "updated_at"@
        =~= "id, json(doc), created_at, updated_at"@) by {
        reveal_strlit("id, json(doc), created_at, updated_at");
        reveal_strlit("id");
        reveal_strlit(", ");
        reveal_strlit("json");
        reveal_strlit("(");
        reveal_strlit("doc");
        reveal_strlit(")");
        reveal_strlit("created_at");
        reveal_strlit("updated_at");
    }
}

spec fn cursor_cond(filter: Option<Json>, cursor: Seq<char>) -> Cond {
    Cond::All(
        seq![
            filter_cond(filter),
            Cond::Test(
                Expr::Column("id"@),
                Relation::Greater,
                Expr::Bound(ValueView::Text(cursor)),
            ),
        ],
    )
}

spec fn query_cond(req: QueryRequest) -> Cond {
    if uses_cursor(req) {
        cursor_cond(req.filter, req.cursor->0@)
    } else {
        filter_cond(req.filter)
    }
}

proof fn lemma_query_cond(req: QueryRequest)
    requires
        filter_clause(req.filter) is Ok,
    ensures
        cond_ok(query_cond(req)),
        cond_text(query_cond(req)) == filter_clause(req.filter)->Ok_0.sql + (if uses_cursor(req) {
            " AND id > ?"@
        } else {
            ""@
        }),
        cond_binds(query_cond(req)) == (if uses_cursor(req) {
            filter_clause(req.filter)->Ok_0.params.push(ValueView::Text(req.cursor->0@))
        } else {
            filter_clause(req.filter)->Ok_0.params
        }),
        forall|e: Engine, params: Seq<ValueView>, row: Row| #[trigger]
            holds(e, query_cond(req), params, row) <==> filter_means(e, row, req.filter) && (
            uses_cursor(req) ==> less_value(e, ValueView::Text(req.cursor->0@), row["id"@])),
{
    lemma_filter_writes(req.filter);
    lemma_meta_columns();
    let f = filter_cond(req.filter);
    let w = filter_clause(req.filter)->Ok_0;
    assert forall|e: Engine, params: Seq<ValueView>, row: Row| holds(e, f, params, row)
        <==> filter_means(e, row, req.filter) by {
        lemma_filter_holds(e, req.filter, params, row);
    }
    if uses_cursor(req) {
        let cursor = ValueView::Text(req.cursor->0@);
        let t = Cond::Test(Expr::Column("id"@), Relation::Greater, Expr::Bound(cursor));
        let cs = seq![f, t];
        crate::engine::lemma_cond_texts(cs);
        assert(cond_texts(cs) =~= seq![cond_text(f), cond_text(t)]);
        lemma_join2(cond_text(f), cond_text(t), " AND "@);
        assert(" AND id > ?"@ =~= " AND "@ + ("id"@ + " "@ + ">"@ + " "@ + "?"@)) by {
            reveal_strlit(" AND id > ?");
            reveal_strlit(" AND ");
            reveal_strlit("id");
            reveal_strlit(" ");
            reveal_strlit(">");
            reveal_strlit("?");
        }
        assert(w.sql + " AND "@ + cond_text(t) =~= w.sql + (" AND "@ + cond_text(t)));
        assert(cs.drop_last() =~= seq![f]);
        assert(seq![f].drop_last() =~= Seq::<Cond>::empty());
        reveal_with_fuel(conds_binds, 3);
        assert(cond_binds(t) =~= seq![cursor]);
        assert(conds_binds(cs) =~= w.params.push(cursor));
        assert(cond_ok(cs[0]) && cond_ok(cs[1]));
        assert forall|e: Engine, params: Seq<ValueView>, row: Row| #[trigger]
            holds(e, query_cond(req), params, row) <==> filter_means(e, row, req.filter)
            && less_value(e, cursor, row["id"@]) by {
            lemma_all_holds(e, cs, params, row);
            assert(holds(e, t, params, row) <==> less_value(e, cursor, row["id"@]));
            if filter_means(e, row, req.filter) && less_value(e, cursor, row["id"@]) {
                assert forall|i: int| 0 <= i < cs.len() implies holds(
                    e,
                    #[trigger] cs[i],
                    params,
                    row,
                ) by {
                    assert(i == 0 || i == 1);
                }
            }
            if holds(e, query_cond(req), params, row) {
                assert(holds(e, cs[0], params, row) && holds(e, cs[1], params, row));
            }
        }
    } else {
        reveal_strlit("");
        assert(w.sql + ""@ =~= w.sql);
    }
}

/// The same pieces in the same order are the same text.
proof fn lemma_query_pieces(
    s: Seq<char>,
    w: Seq<char>,
    f: Seq<char>,
    k: Seq<char>,
    c: Seq<char>,
    v: Seq<char>,
    x: Seq<char>,
    y: Seq<char>,
    sp: Seq<char>,
    o: Seq<char>,
    t: Seq<char>,
    l: Seq<char>,
    n: Seq<char>,
    z: Seq<char>,
)
    ensures
        (s + w + f + k) + c + v + x + y + sp + (o + t) + l + n + z == s + w + f + (k + c) + (v + (x
            + y)) + ((sp + o) + t) + (l + n) + z,
{
    let a = s + w + f;
    assert((a + k) + c + v + x + y =~= a + (k + c) + (v + (x + y)));
    let b = a + (k + c) + (v + (x + y));
    assert(b + sp + (o + t) =~= b + ((sp + o) + t));
    let d = b + ((sp + o) + t);
    assert(d + l + n + z =~= d + (l + n) + z);
}

spec fn query_question(coll: Seq<char>, req: QueryRequest, max: u32) -> Question {
    Question {
        wanted: Wanted::Cells(page_cells()),
        table: "coll_"@ + coll,
        cond: Some(query_cond(req)),
        order: sort_order(req.sort@),
        limit: Some(page_size(req.limit, max) as nat),
        offset: if uses_cursor(req) {
            None
        } else {
            Some(
                match req.offset {
                    Some(n) => n as nat,
                    None => 0,
                },
            )
        },
    }
}

/// A query asks for the documents that its filter means, and no others: with a cursor,
/// for those behind it. They come in the order that it asks for, as many as fit on a
/// page, after as many as it passes over; each with its identifier, its content, and its
/// times.
pub proof fn law_query_asks_for_what_it_means(coll: Seq<char>, req: QueryRequest, max: u32)
    requires
        query_plan(coll, req, max) is Ok,
    ensures
        exists|q: Question|
            {
                &&& #[trigger] asks(query_plan(coll, req, max)->Ok_0, q)
                &&& q.table == "coll_"@ + coll
                &&& q.wanted == Wanted::Cells(
                    seq![
                        Expr::Column("id"@),
                        Expr::Call1("json"@, Box::new(Expr::Column("doc"@))),
                        Expr::Column("created_at"@),
                        Expr::Column("updated_at"@),
                    ],
                )
                &&& q.order == sort_order(req.sort@)
                &&& q.limit == Some(page_size(req.limit, max) as nat)
                &&& q.offset == (if req.cursor is Some && (req.sort@.len() == 0 || (req.sort@.len()
                    == 1 && req.sort@[0].0@ == "id"@ && lower(req.sort@[0].1@) == "asc"@)) {
                    None
                } else {
                    match req.offset {
                        Some(n) => Some(n as nat),
                        None => Some(0nat),
                    }
                })
                &&& forall|e: Engine, params: Seq<ValueView>, row: Row| #[trigger]
                    chosen(e, q, params, row) <==> filter_means(e, row, req.filter) && (
                    q.offset is None ==> less_value(
                        e,
                        ValueView::Text(req.cursor->0@),
                        row["id"@],
                    ))
            },
{
    let q = query_question(coll, req, max);
    let st = query_plan(coll, req, max)->Ok_0;
    lemma_query_cond(req);
    lemma_sort_text(req.sort@);
    lemma_page_cells();
    law_name_is_identifier(coll);
    let t = join(order_texts(q.order), ", "@);
    let size = decimal(page_size(req.limit, max) as nat);
    let tail = if uses_cursor(req) {
        ""@
    } else {
        " OFFSET "@ + decimal(q.offset->0)
    };
    let cursor = if uses_cursor(req) {
        " AND id > ?"@
    } else {
        ""@
    };
    let w = filter_clause(req.filter)->Ok_0;
    assert("SELECT id, json(doc), created_at, updated_at FROM coll_"@ =~= "SELECT "@
        + "id, json(doc), created_at, updated_at"@ + " FROM "@ + "coll_"@) by {
        reveal_strlit("SELECT id, json(doc), created_at, updated_at FROM coll_");
        reveal_strlit("SELECT ");
        reveal_strlit("id, json(doc), created_at, updated_at");
        reveal_strlit(" FROM ");
        reveal_strlit("coll_");
    }
    assert(" ORDER BY "@ =~= " "@ + "ORDER BY "@) by {
        reveal_strlit(" ORDER BY ");
        reveal_strlit(" ");
        reveal_strlit("ORDER BY ");
    }
    assert(""@ =~= Seq::<char>::empty()) by {
        reveal_strlit("");
    }
    lemma_query_pieces(
        "SELECT "@,
        "id, json(doc), created_at, updated_at"@,
        " FROM "@,
        "coll_"@,
        coll,
        " WHERE "@,
        w.sql,
        cursor,
        " "@,
        "ORDER BY "@,
        t,
        " LIMIT "@,
        size,
        tail,
    );
    assert(q.order.len() > 0);
    assert(st.sql == question_text(q));
    assert(asks(st, q));
    assert forall|e: Engine, params: Seq<ValueView>, row: Row| #[trigger]
        chosen(e, q, params, row) <==> filter_means(e, row, req.filter) && (q.offset is None
            ==> less_value(e, ValueView::Text(req.cursor->0@), row["id"@])) by {
        assert(chosen(e, q, params, row) == holds(e, query_cond(req), params, row));
    }
}

/// A count counts the documents that its filter means, and no others.
pub proof fn law_count_counts_what_it_means(coll: Seq<char>, req: CountRequest)
    requires
        count_plan(coll, req) is Ok,
    ensures
        exists|q: Question|
            {
                &&& #[trigger] asks(count_plan(coll, req)->Ok_0, q)
                &&& q.table == "coll_"@ + coll
                &&& q.wanted is Count
                &&& forall|e: Engine, params: Seq<ValueView>, row: Row| #[trigger]
                    chosen(e, q, params, row) <==> filter_means(e, row, req.filter)
            },
{
    lemma_filter_writes(req.filter);
    law_name_is_identifier(coll);
    let q = Question {
        wanted: Wanted::Count,
        table: "coll_"@ + coll,
        cond: Some(filter_cond(req.filter)),
        order: Seq::empty(),
        limit: None,
        offset: None,
    };
    let st = count_plan(coll, req)->Ok_0;
    let f = filter_clause(req.filter)->Ok_0.sql;
    assert("SELECT count(*) FROM coll_"@ =~= "SELECT "@ + "count(*)"@ + " FROM "@ + "coll_"@) by {
        reveal_strlit("SELECT count(*) FROM coll_");
        reveal_strlit("SELECT ");
        reveal_strlit("count(*)");
        reveal_strlit(" FROM ");
        reveal_strlit("coll_");
    }
    let head = "SELECT "@ + "count(*)"@ + " FROM "@;
    assert(head + "coll_"@ + coll + " WHERE "@ + f =~= head + ("coll_"@ + coll) + (" WHERE "@ + f)
        + Seq::empty() + Seq::empty() + Seq::empty());
    assert(asks(st, q));
    assert forall|e: Engine, params: Seq<ValueView>, row: Row| #[trigger]
        chosen(e, q, params, row) <==> filter_means(e, row, req.filter) by {
        lemma_filter_holds(e, req.filter, params, row);
    }
}

/// A page is as large as is asked for, or fifty, but never larger than the maximum, and
/// never empty.
pub proof fn law_page_size(asked: Option<u32>, max: u32)
    ensures
        page_size(asked, max) >= 1,
        page_size(asked, max) <= max || max == 0,
        asked matches Some(n) ==> (n >= 1 && n <= max ==> page_size(asked, max) == n),
        asked matches Some(n) ==> (n >= max && max >= 1 ==> page_size(asked, max) == max),
        asked is None && max >= 50 ==> page_size(asked, max) == 50,
        asked is None && 1 <= max < 50 ==> page_size(asked, max) == max,
{
}

// ---- What is taken ---------------------------------------------------------

/// A value that fields can be compared with.
pub open spec fn comparable(j: Json) -> bool {
    !(j is Array) && !(j is Object)
}

/// An operator with an argument that it takes.
pub open spec fn operator_taken(op: Seq<char>, arg: Json) -> bool {
    if op == "$in"@ {
        match arg {
            Json::Array(v) => forall|i: int| 0 <= i < v@.len() ==> comparable(#[trigger] v@[i]),
            _ => false,
        }
    } else {
        comparable(arg) && (op == "$eq"@ || op == "$ne"@ || op == "$gt"@ || op == "$gte"@ || op
            == "$lt"@ || op == "$lte"@)
    }
}

/// A field with what may be asked of it: a value, or operators.
pub open spec fn field_taken(field: Seq<char>, value: Json) -> bool {
    &&& field.len() > 0
    &&& field_ok(field)
    &&& match value {
        Json::Object(e) => forall|i: int|
            0 <= i < e@.len() ==> operator_taken((#[trigger] e@[i]).0@, e@[i].1),
        other => comparable(other),
    }
}

/// One of several alternatives: fields, and no operators.
pub open spec fn alternative_taken(j: Json) -> bool {
    match j {
        Json::Object(e) => forall|i: int|
            0 <= i < e@.len() ==> !dollar((#[trigger] e@[i]).0@) && field_taken(e@[i].0@, e@[i].1),
        _ => false,
    }
}

/// An entry of a filter: a field, or alternatives.
pub open spec fn entry_taken(key: Seq<char>, value: Json) -> bool {
    if key == "$or"@ {
        match value {
            Json::Array(v) => forall|i: int|
                0 <= i < v@.len() ==> alternative_taken(#[trigger] v@[i]),
            _ => false,
        }
    } else {
        !dollar(key) && field_taken(key, value)
    }
}

/// A filter: none, or an object of entries.
pub open spec fn filter_taken(filter: Option<Json>) -> bool {
    match filter {
        None => true,
        Some(Json::Null) => true,
        Some(Json::Object(e)) => forall|i: int|
            0 <= i < e@.len() ==> entry_taken((#[trigger] e@[i]).0@, e@[i].1),
        _ => false,
    }
}

proof fn lemma_gathered(items: Seq<Compiled>)
    ensures
        gather(items) is Ok <==> forall|i: int| 0 <= i < items.len() ==> #[trigger] items[i] is Ok,
    decreases items.len(),
{
    if items.len() > 0 {
        let front = items.drop_last();
        lemma_gathered(front);
        assert(items.last() == items[items.len() - 1]);
        if gather(items) is Ok {
            assert forall|i: int| 0 <= i < items.len() implies #[trigger] items[i] is Ok by {
                if i < front.len() {
                    assert(front[i] == items[i]);
                }
            }
        }
        if forall|i: int| 0 <= i < items.len() ==> #[trigger] items[i] is Ok {
            assert forall|i: int| 0 <= i < front.len() implies #[trigger] front[i] is Ok by {
                assert(front[i] == items[i]);
            }
        }
    }
}

proof fn lemma_words_apart()
    ensures
        dollar("$eq"@),
        dollar("$ne"@),
        dollar("$gt"@),
        dollar("$gte"@),
        dollar("$lt"@),
        dollar("$lte"@),
        dollar("$in"@),
        "$eq"@ != "$in"@,
        "$ne"@ != "$in"@,
        "$gt"@ != "$in"@,
        "$gte"@ != "$in"@,
        "$lt"@ != "$in"@,
        "$lte"@ != "$in"@,
{
    reveal_strlit("$eq");
    reveal_strlit("$ne");
    reveal_strlit("$gt");
    reveal_strlit("$gte");
    reveal_strlit("$lt");
    reveal_strlit("$lte");
    reveal_strlit("$in");
    assert("$eq"@.len() == 3 && "$eq"@[0] == '$' && "$eq"@[1] == 'e');
    assert("$ne"@.len() == 3 && "$ne"@[0] == '$' && "$ne"@[1] == 'n');
    assert("$gt"@.len() == 3 && "$gt"@[0] == '$' && "$gt"@[1] == 'g');
    assert("$gte"@.len() == 4 && "$gte"@[0] == '$' && "$gte"@[1] == 'g');
    assert("$lt"@.len() == 3 && "$lt"@[0] == '$' && "$lt"@[1] == 'l');
    assert("$lte"@.len() == 4 && "$lte"@[0] == '$' && "$lte"@[1] == 'l');
    assert("$in"@.len() == 3 && "$in"@[0] == '$' && "$in"@[1] == 'i');
}

proof fn lemma_operator_taken(x: Seq<char>, op: Seq<char>, arg: Json)
    ensures
        operator_clause(x, op, arg) is Ok <==> operator_taken(op, arg),
{
    lemma_words_apart();
    assert(scalar_value(arg) is Ok <==> comparable(arg));
    if op == "$in"@ {
        if let Json::Array(v) = arg {
            let items = Seq::new(v@.len(), |i: int| placeholder(v@[i]));
            lemma_gathered(items);
            assert forall|i: int| 0 <= i < v@.len() implies (#[trigger] items[i] is Ok
                <==> comparable(v@[i])) by {}
            if operator_taken(op, arg) {
                assert forall|i: int| 0 <= i < items.len() implies #[trigger] items[i] is Ok by {
                    assert(comparable(v@[i]));
                }
            }
            if gather(items) is Ok {
                assert forall|i: int| 0 <= i < v@.len() implies comparable(#[trigger] v@[i]) by {
                    assert(items[i] is Ok);
                }
            }
        }
    }
}

proof fn lemma_field_taken(field: Seq<char>, value: Json)
    ensures
        field_clause(field, value) is Ok <==> field_taken(field, value),
{
    lemma_words_apart();
    if field.len() > 0 && field_ok(field) {
        let x = extract_of("$."@ + field);
        if let Json::Object(e) = value {
            let items = Seq::new(e@.len(), |i: int| operator_entry(field, x, e@[i]));
            lemma_gathered(items);
            assert forall|i: int| 0 <= i < e@.len() implies (#[trigger] items[i] is Ok
                <==> operator_taken(e@[i].0@, e@[i].1)) by {
                lemma_operator_taken(x, e@[i].0@, e@[i].1);
            }
            if field_taken(field, value) {
                assert forall|i: int| 0 <= i < items.len() implies #[trigger] items[i] is Ok by {
                    assert(operator_taken(e@[i].0@, e@[i].1));
                }
            }
            if gather(items) is Ok {
                assert forall|i: int| 0 <= i < e@.len() implies operator_taken(
                    (#[trigger] e@[i]).0@,
                    e@[i].1,
                ) by {
                    assert(items[i] is Ok);
                }
            }
        }
    }
}

proof fn lemma_alternative_taken(j: Json)
    ensures
        or_entry(j) is Ok <==> alternative_taken(j),
{
    if let Json::Object(e) = j {
        let items = Seq::new(e@.len(), |i: int| or_field(e@[i]));
        lemma_gathered(items);
        assert forall|i: int| 0 <= i < e@.len() implies (#[trigger] items[i] is Ok <==> !dollar(
            e@[i].0@,
        ) && field_taken(e@[i].0@, e@[i].1)) by {
            lemma_field_taken(e@[i].0@, e@[i].1);
            lemma_or_words();
        }
        if alternative_taken(j) {
            assert forall|i: int| 0 <= i < items.len() implies #[trigger] items[i] is Ok by {
                assert(!dollar(e@[i].0@));
            }
        }
        if gather(items) is Ok {
            assert forall|i: int| 0 <= i < e@.len() implies !dollar((#[trigger] e@[i]).0@)
                && field_taken(e@[i].0@, e@[i].1) by {
                assert(items[i] is Ok);
            }
        }
    }
}

proof fn lemma_or_words()
    ensures
        dollar("$or"@),
        dollar("$and"@),
        "$or"@ != "$and"@,
{
    reveal_strlit("$or");
    reveal_strlit("$and");
    assert("$or"@.len() == 3 && "$and"@.len() == 4);
}

proof fn lemma_entry_taken(entry: (String, Json))
    ensures
        top_entry(entry) is Ok <==> entry_taken(entry.0@, entry.1),
{
    lemma_or_words();
    if entry.0@ == "$or"@ {
        if let Json::Array(v) = entry.1 {
            let items = Seq::new(v@.len(), |i: int| or_entry(v@[i]));
            lemma_gathered(items);
            assert forall|i: int| 0 <= i < v@.len() implies (#[trigger] items[i] is Ok
                <==> alternative_taken(v@[i])) by {
                lemma_alternative_taken(v@[i]);
            }
            if entry_taken(entry.0@, entry.1) {
                assert forall|i: int| 0 <= i < items.len() implies #[trigger] items[i] is Ok by {
                    assert(alternative_taken(v@[i]));
                }
            }
            if gather(items) is Ok {
                assert forall|i: int| 0 <= i < v@.len() implies alternative_taken(
                    #[trigger] v@[i],
                ) by {
                    assert(items[i] is Ok);
                }
            }
        }
    } else {
        lemma_field_taken(entry.0@, entry.1);
    }
}

/// A filter is compiled exactly when it is one: nothing, or fields with values or
/// operators, and alternatives that are made of fields.
pub proof fn law_filters_that_are_taken(filter: Option<Json>)
    ensures
        filter_clause(filter) is Ok <==> filter_taken(filter),
{
    if let Some(Json::Object(e)) = filter {
        let items = Seq::new(e@.len(), |i: int| top_entry(e@[i]));
        lemma_gathered(items);
        assert forall|i: int| 0 <= i < e@.len() implies (#[trigger] items[i] is Ok <==> entry_taken(
            e@[i].0@,
            e@[i].1,
        )) by {
            lemma_entry_taken(e@[i]);
        }
        if filter_taken(filter) {
            assert forall|i: int| 0 <= i < items.len() implies #[trigger] items[i] is Ok by {
                assert(entry_taken(e@[i].0@, e@[i].1));
            }
        }
        if gather(items) is Ok {
            assert forall|i: int| 0 <= i < e@.len() implies entry_taken(
                (#[trigger] e@[i]).0@,
                e@[i].1,
            ) by {
                assert(items[i] is Ok);
            }
        }
    }
}

/// A term of an order: a column or a field, up or down, in either case.
pub open spec fn term_taken(term: (String, String)) -> bool {
    &&& lower(term.1@) == "asc"@ || lower(term.1@) == "desc"@
    &&& term.0@ == "id"@ || term.0@ == "created_at"@ || term.0@ == "updated_at"@ || (
    term.0@.len() > 0 && field_ok(term.0@))
}

/// A query is run exactly when its collection has a name, its filter is one, and each term
/// of its order is one; a count, when its collection has a name and its filter is one. What
/// is not run is answered 400.
pub proof fn law_queries_that_are_run(
    coll: Seq<char>,
    req: QueryRequest,
    count: CountRequest,
    max: u32,
)
    ensures
        query_plan(coll, req, max) is Ok <==> name_ok(coll) && filter_taken(req.filter) && (forall|
            i: int,
        |
            0 <= i < req.sort@.len() ==> term_taken(#[trigger] req.sort@[i])),
        query_plan(coll, req, max) matches Err(e) ==> code_status(e.code) == 400,
        count_plan(coll, count) is Ok <==> name_ok(coll) && filter_taken(count.filter),
        count_plan(coll, count) matches Err(e) ==> code_status(e.code) == 400,
{
    law_filters_that_are_taken(req.filter);
    law_filters_that_are_taken(count.filter);
    let sort = req.sort@;
    let items = Seq::new(sort.len(), |i: int| sort_term(sort[i]));
    lemma_gathered(items);
    assert forall|i: int| 0 <= i < sort.len() implies (#[trigger] items[i] is Ok <==> term_taken(
        sort[i],
    )) by {}
    if forall|i: int| 0 <= i < sort.len() ==> term_taken(#[trigger] sort[i]) {
        assert forall|i: int| 0 <= i < items.len() implies #[trigger] items[i] is Ok by {
            assert(term_taken(sort[i]));
        }
    }
    if gather(items) is Ok {
        assert forall|i: int| 0 <= i < sort.len() implies term_taken(#[trigger] sort[i]) by {
            assert(items[i] is Ok);
        }
    }
    assert(sort_clause(sort) is Ok <==> gather(items) is Ok);
}

/// A cursor goes on exactly where the order is by identifier, upward.
pub proof fn law_where_a_cursor_goes_on(sort: Seq<(String, String)>)
    ensures
        sort.len() == 0 ==> cursor_order(sort),
        sort.len() == 1 ==> (cursor_order(sort) <==> sort_order(sort) == seq![
            (Expr::Column("id"@), Direction::Ascending),
        ] && lower(sort[0].1@) == "asc"@),
        sort.len() > 1 ==> !cursor_order(sort),
{
    reveal_strlit("asc");
    reveal_strlit("desc");
    assert("asc"@.len() == 3 && "desc"@.len() == 4);
    if sort.len() == 1 {
        let o = sort_order(sort);
        if cursor_order(sort) {
            assert(o =~= seq![(Expr::Column("id"@), Direction::Ascending)]);
        } else if o == seq![(Expr::Column("id"@), Direction::Ascending)] {
            assert(o[0] == (Expr::Column("id"@), Direction::Ascending));
        }
    }
}

} // verus!
