//! What holds of every compiled filter.

use crate::ids::{field_path, segment, segments};
use crate::json::Json;
use crate::query::{
    assemble, bound_clause, eq_clause, extract_of, field_clause, filter_clause, gather,
    meta_column, operator_clause, operator_entry, or_clause, or_entry, or_field, placeholder,
    scalar_value, sort_clause, sort_term, top_entry, Compiled, QueryRequest,
};
use crate::query_ep::{page_size, query_plan, uses_cursor};
use crate::text::{decimal, digit_char, join};
use vstd::prelude::*;

verus! {

// ---- One placeholder for one value -----------------------------------------

/// How many placeholders a text holds.
pub open spec fn marks(s: Seq<char>) -> nat
    decreases s.len(),
{
    if s.len() == 0 {
        0
    } else {
        marks(s.drop_last()) + if s.last() == '?' {
            1nat
        } else {
            0nat
        }
    }
}

/// How many placeholders several texts hold.
spec fn marks_in(parts: Seq<Seq<char>>) -> nat
    decreases parts.len(),
{
    if parts.len() == 0 {
        0
    } else {
        marks_in(parts.drop_last()) + marks(parts.last())
    }
}

/// A clause has as many placeholders as values.
pub open spec fn balanced(c: Compiled) -> bool {
    c matches Ok(w) ==> marks(w.sql) == w.params.len()
}

proof fn lemma_marks_concat(a: Seq<char>, b: Seq<char>)
    ensures
        marks(a + b) == marks(a) + marks(b),
    decreases b.len(),
{
    if b.len() == 0 {
        assert(a + b =~= a);
    } else {
        assert((a + b).drop_last() =~= a + b.drop_last());
        lemma_marks_concat(a, b.drop_last());
    }
}

proof fn lemma_marks_none(s: Seq<char>)
    requires
        forall|i: int| 0 <= i < s.len() ==> #[trigger] s[i] != '?',
    ensures
        marks(s) == 0,
    decreases s.len(),
{
    if s.len() > 0 {
        assert forall|i: int| 0 <= i < s.drop_last().len() implies #[trigger] s.drop_last()[i]
            != '?' by {
            assert(s.drop_last()[i] == s[i]);
        }
        lemma_marks_none(s.drop_last());
    }
}

proof fn lemma_marks_join(parts: Seq<Seq<char>>, sep: Seq<char>)
    requires
        marks(sep) == 0,
    ensures
        marks(join(parts, sep)) == marks_in(parts),
    decreases parts.len(),
{
    if parts.len() == 1 {
        assert(parts.drop_last().len() == 0);
        assert(parts.last() == parts[0]);
        assert(marks_in(parts.drop_last()) == 0);
    } else if parts.len() > 1 {
        lemma_marks_join(parts.drop_last(), sep);
        lemma_marks_concat(join(parts.drop_last(), sep) + sep, parts.last());
        lemma_marks_concat(join(parts.drop_last(), sep), sep);
    }
}

proof fn lemma_gather_balanced(items: Seq<Compiled>)
    requires
        forall|i: int| 0 <= i < items.len() ==> balanced(#[trigger] items[i]),
    ensures
        gather(items) matches Ok(p) ==> marks_in(p.sql) == p.params.len(),
    decreases items.len(),
{
    if items.len() > 0 {
        let before = items.drop_last();
        assert forall|i: int| 0 <= i < before.len() implies balanced(#[trigger] before[i]) by {
            assert(before[i] == items[i]);
        }
        lemma_gather_balanced(before);
        assert(balanced(items[items.len() - 1]));
        if let Ok(p) = gather(items) {
            if let Ok(q) = gather(before) {
                assert(p.sql.drop_last() =~= q.sql);
            }
        }
    }
}

proof fn lemma_assemble_balanced(
    items: Seq<Compiled>,
    open: Seq<char>,
    sep: Seq<char>,
    close: Seq<char>,
    empty: Seq<char>,
)
    requires
        forall|i: int| 0 <= i < items.len() ==> balanced(#[trigger] items[i]),
        marks(open) == 0,
        marks(sep) == 0,
        marks(close) == 0,
        marks(empty) == 0,
    ensures
        balanced(assemble(items, open, sep, close, empty)),
{
    lemma_gather_balanced(items);
    if let Ok(p) = gather(items) {
        lemma_marks_join(p.sql, sep);
        lemma_marks_concat(open + join(p.sql, sep), close);
        lemma_marks_concat(open, join(p.sql, sep));
        if p.sql.len() == 0 {
            assert(marks_in(p.sql) == 0);
        }
    }
}

proof fn lemma_segments_unmarked(s: Seq<char>)
    requires
        segments(s),
    ensures
        marks(s) == 0,
    decreases s.len(),
{
    if s.len() > 0 {
        let k = choose|k: int|
            0 < k <= s.len() && #[trigger] segment(s.take(k)) && segments(s.skip(k));
        lemma_segments_unmarked(s.skip(k));
        let t = s.take(k);
        assert forall|i: int| 0 <= i < t.len() implies #[trigger] t[i] != '?' by {
            if i > 0 && t[0] == '.' {
                assert(t.skip(1)[i - 1] == t[i]);
            }
        }
        lemma_marks_none(t);
        lemma_marks_concat(t, s.skip(k));
        assert(s =~= t + s.skip(k));
    }
}

proof fn lemma_extract_unmarked(field: Seq<char>)
    ensures
        field_path(field) matches Ok(path) ==> marks(extract_of(path)) == 0,
{
    if let Ok(path) = field_path(field) {
        crate::ids::law_field_path_is_valid(field);
        lemma_segments_unmarked(path.skip(1));
        let head = path.take(1);
        assert(path =~= head + path.skip(1));
        lemma_marks_none(head);
        lemma_marks_concat(head, path.skip(1));
        reveal_strlit("json_extract(doc, '");
        reveal_strlit("')");
        assert(marks("json_extract(doc, '"@) == 0) by {
            reveal_with_fuel(marks, 20);
        }
        assert(marks("')"@) == 0) by {
            reveal_with_fuel(marks, 3);
        }
        lemma_marks_concat("json_extract(doc, '"@, path);
        lemma_marks_concat("json_extract(doc, '"@ + path, "')"@);
    }
}

proof fn lemma_bound_balanced(extract: Seq<char>, tail: Seq<char>, j: Json)
    requires
        marks(extract) == 0,
        marks(tail) == 1,
    ensures
        balanced(bound_clause(extract, tail, j)),
{
    lemma_marks_concat(extract, tail);
}

proof fn lemma_tails()
    ensures
        marks(" IS NULL"@) == 0,
        marks(" IS NOT NULL"@) == 0,
        marks(" = ?"@) == 1,
        marks(" IS NOT ?"@) == 1,
        marks(" > ?"@) == 1,
        marks(" >= ?"@) == 1,
        marks(" < ?"@) == 1,
        marks(" <= ?"@) == 1,
        marks("?"@) == 1,
{
    reveal_strlit(" IS NULL");
    reveal_strlit(" IS NOT NULL");
    reveal_strlit(" = ?");
    reveal_strlit(" IS NOT ?");
    reveal_strlit(" > ?");
    reveal_strlit(" >= ?");
    reveal_strlit(" < ?");
    reveal_strlit(" <= ?");
    reveal_strlit("?");
    reveal_with_fuel(marks, 13);
}

proof fn lemma_frames()
    ensures
        marks(" IN ("@) == 0,
        marks(", "@) == 0,
        marks(")"@) == 0,
        marks("("@) == 0,
        marks("(1)"@) == 0,
        marks("0"@) == 0,
        marks("1"@) == 0,
        marks(" AND "@) == 0,
        marks(" OR "@) == 0,
        marks(Seq::<char>::empty()) == 0,
{
    reveal_strlit(" IN (");
    reveal_strlit(", ");
    reveal_strlit(")");
    reveal_strlit("(");
    reveal_strlit("(1)");
    reveal_strlit("0");
    reveal_strlit("1");
    reveal_strlit(" AND ");
    reveal_strlit(" OR ");
    reveal_with_fuel(marks, 6);
}

proof fn lemma_eq_balanced(extract: Seq<char>, j: Json)
    requires
        marks(extract) == 0,
    ensures
        balanced(eq_clause(extract, j)),
{
    lemma_tails();
    lemma_marks_concat(extract, " IS NULL"@);
    lemma_bound_balanced(extract, " = ?"@, j);
}

proof fn lemma_operator_balanced(extract: Seq<char>, op: Seq<char>, arg: Json)
    requires
        marks(extract) == 0,
    ensures
        balanced(operator_clause(extract, op, arg)),
{
    lemma_tails();
    lemma_frames();
    lemma_eq_balanced(extract, arg);
    lemma_marks_concat(extract, " IS NOT NULL"@);
    lemma_bound_balanced(extract, " IS NOT ?"@, arg);
    lemma_bound_balanced(extract, " > ?"@, arg);
    lemma_bound_balanced(extract, " >= ?"@, arg);
    lemma_bound_balanced(extract, " < ?"@, arg);
    lemma_bound_balanced(extract, " <= ?"@, arg);
    if let Json::Array(v) = arg {
        lemma_marks_concat(extract, " IN ("@);
        let items = Seq::new(v@.len(), |i: int| placeholder(v@[i]));
        lemma_assemble_balanced(items, extract + " IN ("@, ", "@, ")"@, "0"@);
    }
}

proof fn lemma_field_balanced(field: Seq<char>, j: Json)
    ensures
        balanced(field_clause(field, j)),
{
    lemma_frames();
    lemma_extract_unmarked(field);
    if let Ok(path) = field_path(field) {
        let extract = extract_of(path);
        lemma_eq_balanced(extract, j);
        if let Json::Object(e) = j {
            let items = Seq::new(e@.len(), |i: int| operator_entry(field, extract, e@[i]));
            assert forall|i: int| 0 <= i < items.len() implies balanced(#[trigger] items[i]) by {
                lemma_operator_balanced(extract, e@[i].0@, e@[i].1);
            }
            lemma_assemble_balanced(items, "("@, " AND "@, ")"@, "1"@);
        }
    }
}

proof fn lemma_or_balanced(val: Json)
    ensures
        balanced(or_clause(val)),
{
    lemma_frames();
    if let Json::Array(v) = val {
        let items = Seq::new(v@.len(), |i: int| or_entry(v@[i]));
        assert forall|i: int| 0 <= i < items.len() implies balanced(#[trigger] items[i]) by {
            if let Json::Object(e) = v@[i] {
                let inner = Seq::new(e@.len(), |k: int| or_field(e@[k]));
                assert forall|k: int| 0 <= k < inner.len() implies balanced(
                    #[trigger] inner[k],
                ) by {
                    lemma_field_balanced(e@[k].0@, e@[k].1);
                }
                lemma_assemble_balanced(inner, "("@, " AND "@, ")"@, "(1)"@);
            }
        }
        lemma_assemble_balanced(items, "("@, " OR "@, ")"@, "0"@);
    }
}

/// A compiled filter has exactly one placeholder for each value that is bound to
/// it.
pub proof fn law_one_placeholder_per_value(filter: Option<Json>)
    ensures
        filter_clause(filter) matches Ok(w) ==> marks(w.sql) == w.params.len(),
{
    lemma_frames();
    if let Some(Json::Object(e)) = filter {
        let items = Seq::new(e@.len(), |i: int| top_entry(e@[i]));
        assert forall|i: int| 0 <= i < items.len() implies balanced(#[trigger] items[i]) by {
            lemma_or_balanced(e@[i].1);
            lemma_field_balanced(e@[i].0@, e@[i].1);
        }
        lemma_assemble_balanced(items, Seq::empty(), " AND "@, Seq::empty(), "1"@);
    }
}

/// Ordering binds no values.
proof fn lemma_order_unmarked(sort: Seq<(String, String)>)
    ensures
        sort_clause(sort) matches Ok(w) ==> marks(w.sql) == 0,
{
    let items = Seq::new(sort.len(), |i: int| sort_term(sort[i]));
    assert forall|i: int| 0 <= i < items.len() implies balanced(#[trigger] items[i])
        && unbound(items[i]) by {
        let field = sort[i].0@;
        reveal_strlit("id");
        reveal_strlit("created_at");
        reveal_strlit("updated_at");
        reveal_strlit(" ASC");
        reveal_strlit(" DESC");
        assert(meta_column(field) ==> marks(field) == 0) by {
            reveal_with_fuel(marks, 11);
        }
        assert(marks(" ASC"@) == 0 && marks(" DESC"@) == 0) by {
            reveal_with_fuel(marks, 6);
        }
        lemma_marks_concat(field, " ASC"@);
        lemma_marks_concat(field, " DESC"@);
        lemma_extract_unmarked(field);
        if let Ok(path) = field_path(field) {
            lemma_marks_concat(extract_of(path), " ASC"@);
            lemma_marks_concat(extract_of(path), " DESC"@);
        }
    }
    lemma_frames();
    reveal_strlit("ORDER BY ");
    reveal_strlit("ORDER BY id ASC");
    assert(marks("ORDER BY "@) == 0 && marks("ORDER BY id ASC"@) == 0) by {
        reveal_with_fuel(marks, 16);
    }
    lemma_assemble_balanced(items, "ORDER BY "@, ", "@, Seq::empty(), "ORDER BY id ASC"@);
    lemma_gather_unbound(items);
}

/// A clause has no values.
spec fn unbound(c: Compiled) -> bool {
    c matches Ok(w) ==> w.params.len() == 0
}

proof fn lemma_gather_unbound(items: Seq<Compiled>)
    requires
        forall|i: int| 0 <= i < items.len() ==> unbound(#[trigger] items[i]),
    ensures
        gather(items) matches Ok(p) ==> p.params.len() == 0,
    decreases items.len(),
{
    if items.len() > 0 {
        let before = items.drop_last();
        assert forall|i: int| 0 <= i < before.len() implies unbound(#[trigger] before[i]) by {
            assert(before[i] == items[i]);
        }
        lemma_gather_unbound(before);
        assert(unbound(items[items.len() - 1]));
    }
}

proof fn lemma_decimal_unmarked(n: nat)
    ensures
        marks(decimal(n)) == 0,
    decreases n,
{
    let d = (n % 10) as int;
    assert(digit_char(d) != '?');
    if n < 10 {
        lemma_marks_none(decimal(n));
    } else {
        lemma_decimal_unmarked(n / 10);
        assert(decimal(n).drop_last() =~= decimal(n / 10));
    }
}

proof fn lemma_select_head()
    ensures
        marks("SELECT id, json(doc), created_at, updated_at FROM coll_"@) == 0,
{
    let s = "SELECT id, json(doc), created_at, updated_at FROM coll_"@;
    let a = s.subrange(0, 14);
    let b = s.subrange(14, 28);
    let c = s.subrange(28, 42);
    let d = s.subrange(42, 55);
    reveal_strlit("SELECT id, json(doc), created_at, updated_at FROM coll_");
    assert(s =~= a + b + c + d);
    assert(marks(a) == 0) by {
        reveal_with_fuel(marks, 15);
    }
    assert(marks(b) == 0) by {
        reveal_with_fuel(marks, 15);
    }
    assert(marks(c) == 0) by {
        reveal_with_fuel(marks, 15);
    }
    assert(marks(d) == 0) by {
        reveal_with_fuel(marks, 15);
    }
    lemma_marks_concat(a, b);
    lemma_marks_concat(a + b, c);
    lemma_marks_concat(a + b + c, d);
}

proof fn lemma_select_frames()
    ensures
        marks(" WHERE "@) == 0,
        marks(" AND id > ?"@) == 1,
        marks(""@) == 0,
        marks(" "@) == 0,
        marks(" LIMIT "@) == 0,
        marks(" OFFSET "@) == 0,
{
    reveal_strlit(" WHERE ");
    reveal_strlit(" AND id > ?");
    reveal_strlit("");
    reveal_strlit(" ");
    reveal_strlit(" LIMIT ");
    reveal_strlit(" OFFSET ");
    reveal_with_fuel(marks, 12);
}

/// The statement of a query has exactly one placeholder for each value that is
/// bound to it.
pub proof fn law_query_binds_every_value(coll: Seq<char>, req: QueryRequest, max: u32)
    ensures
        query_plan(coll, req, max) matches Ok(s) ==> marks(s.sql) == s.params.len(),
{
    if let Ok(s) = query_plan(coll, req, max) {
        if let (Ok(w), Ok(order)) = (filter_clause(req.filter), sort_clause(req.sort@)) {
            law_one_placeholder_per_value(req.filter);
            lemma_order_unmarked(req.sort@);
            let head = "SELECT id, json(doc), created_at, updated_at FROM coll_"@;
            let cursor = if uses_cursor(req) {
                " AND id > ?"@
            } else {
                ""@
            };
            let size = decimal(page_size(req.limit, max) as nat);
            let skip = decimal(
                match req.offset {
                    Some(n) => n as nat,
                    None => 0,
                },
            );
            let tail = if uses_cursor(req) {
                ""@
            } else {
                " OFFSET "@ + skip
            };
            lemma_select_head();
            lemma_select_frames();
            lemma_marks_none(coll);
            lemma_decimal_unmarked(page_size(req.limit, max) as nat);
            lemma_decimal_unmarked(
                match req.offset {
                    Some(n) => n as nat,
                    None => 0,
                },
            );
            lemma_marks_concat(" OFFSET "@, skip);
            lemma_marks_concat(head, coll);
            lemma_marks_concat(head + coll, " WHERE "@);
            lemma_marks_concat(head + coll + " WHERE "@, w.sql);
            lemma_marks_concat(head + coll + " WHERE "@ + w.sql, cursor);
            lemma_marks_concat(head + coll + " WHERE "@ + w.sql + cursor, " "@);
            let body = head + coll + " WHERE "@ + w.sql + cursor + " "@;
            lemma_marks_concat(body, order.sql);
            lemma_marks_concat(body + order.sql, " LIMIT "@);
            lemma_marks_concat(body + order.sql + " LIMIT "@, size);
            lemma_marks_concat(body + order.sql + " LIMIT "@ + size, tail);
        }
    }
}

// ---- Values never enter the text -------------------------------------------

/// A scalar that is not null.
pub open spec fn plain(j: Json) -> bool {
    j is Bool || j is Number || j is Text
}

/// Two values that differ in their scalars only: the same keys, the same lists,
/// the same nulls.
pub open spec fn same_shape(a: Json, b: Json) -> bool
    decreases a,
{
    match (a, b) {
        (Json::Null, Json::Null) => true,
        (Json::Array(x), Json::Array(y)) => x@.len() == y@.len() && forall|i: int|
            0 <= i < x@.len() ==> same_shape(x@[i], y@[i]),
        (Json::Object(x), Json::Object(y)) => x@.len() == y@.len() && forall|i: int|
            0 <= i < x@.len() ==> x@[i].0@ == y@[i].0@ && same_shape(x@[i].1, y@[i].1),
        _ => plain(a) && plain(b),
    }
}

/// The same text with the same number of values, or the same refusal.
pub open spec fn alike(a: Compiled, b: Compiled) -> bool {
    match (a, b) {
        (Ok(x), Ok(y)) => x.sql == y.sql && x.params.len() == y.params.len(),
        (Err(m), Err(n)) => m == n,
        _ => false,
    }
}

proof fn lemma_gather_alike(a: Seq<Compiled>, b: Seq<Compiled>)
    requires
        a.len() == b.len(),
        forall|i: int| 0 <= i < a.len() ==> alike(#[trigger] a[i], b[i]),
    ensures
        match (gather(a), gather(b)) {
            (Ok(p), Ok(q)) => p.sql == q.sql && p.params.len() == q.params.len(),
            (Err(m), Err(n)) => m == n,
            _ => false,
        },
    decreases a.len(),
{
    if a.len() > 0 {
        let x = a.drop_last();
        let y = b.drop_last();
        assert forall|i: int| 0 <= i < x.len() implies alike(#[trigger] x[i], y[i]) by {
            assert(x[i] == a[i] && y[i] == b[i]);
        }
        lemma_gather_alike(x, y);
        assert(alike(a[a.len() - 1], b[b.len() - 1]));
    }
}

proof fn lemma_scalar_alike(a: Json, b: Json)
    requires
        same_shape(a, b),
    ensures
        match (scalar_value(a), scalar_value(b)) {
            (Ok(_), Ok(_)) => true,
            (Err(m), Err(n)) => m == n,
            _ => false,
        },
        (a is Null) == (b is Null),
        (a is Array) == (b is Array),
        (a is Object) == (b is Object),
{
}

proof fn lemma_operator_alike(extract: Seq<char>, op: Seq<char>, a: Json, b: Json)
    requires
        same_shape(a, b),
    ensures
        alike(operator_clause(extract, op, a), operator_clause(extract, op, b)),
        alike(eq_clause(extract, a), eq_clause(extract, b)),
{
    lemma_scalar_alike(a, b);
    if let (Json::Array(x), Json::Array(y)) = (a, b) {
        let p = Seq::new(x@.len(), |i: int| placeholder(x@[i]));
        let q = Seq::new(y@.len(), |i: int| placeholder(y@[i]));
        assert forall|i: int| 0 <= i < p.len() implies alike(#[trigger] p[i], q[i]) by {
            lemma_scalar_alike(x@[i], y@[i]);
        }
        lemma_gather_alike(p, q);
    }
}

proof fn lemma_field_alike(field: Seq<char>, a: Json, b: Json)
    requires
        same_shape(a, b),
    ensures
        alike(field_clause(field, a), field_clause(field, b)),
{
    lemma_scalar_alike(a, b);
    if let Ok(path) = field_path(field) {
        let extract = extract_of(path);
        lemma_operator_alike(extract, field, a, b);
        if let (Json::Object(x), Json::Object(y)) = (a, b) {
            let p = Seq::new(x@.len(), |i: int| operator_entry(field, extract, x@[i]));
            let q = Seq::new(y@.len(), |i: int| operator_entry(field, extract, y@[i]));
            assert forall|i: int| 0 <= i < p.len() implies alike(#[trigger] p[i], q[i]) by {
                lemma_operator_alike(extract, x@[i].0@, x@[i].1, y@[i].1);
            }
            lemma_gather_alike(p, q);
        }
    }
}

proof fn lemma_or_alike(a: Json, b: Json)
    requires
        same_shape(a, b),
    ensures
        alike(or_clause(a), or_clause(b)),
{
    lemma_scalar_alike(a, b);
    if let (Json::Array(x), Json::Array(y)) = (a, b) {
        let p = Seq::new(x@.len(), |i: int| or_entry(x@[i]));
        let q = Seq::new(y@.len(), |i: int| or_entry(y@[i]));
        assert forall|i: int| 0 <= i < p.len() implies alike(#[trigger] p[i], q[i]) by {
            assert(same_shape(x@[i], y@[i]));
            lemma_scalar_alike(x@[i], y@[i]);
            if let (Json::Object(d), Json::Object(e)) = (x@[i], y@[i]) {
                let s = Seq::new(d@.len(), |k: int| or_field(d@[k]));
                let t = Seq::new(e@.len(), |k: int| or_field(e@[k]));
                assert forall|k: int| 0 <= k < s.len() implies alike(#[trigger] s[k], t[k]) by {
                    lemma_field_alike(d@[k].0@, d@[k].1, e@[k].1);
                }
                lemma_gather_alike(s, t);
            }
        }
        lemma_gather_alike(p, q);
    }
}

/// The values of a filter never reach the statement as text: filters that differ
/// in their scalar values only are compiled to the same SQL with the same number
/// of bound values, or are refused in the same words.
pub proof fn law_values_never_enter_the_text(a: Json, b: Json)
    requires
        same_shape(a, b),
    ensures
        alike(filter_clause(Some(a)), filter_clause(Some(b))),
{
    lemma_scalar_alike(a, b);
    if let (Json::Object(x), Json::Object(y)) = (a, b) {
        let p = Seq::new(x@.len(), |i: int| top_entry(x@[i]));
        let q = Seq::new(y@.len(), |i: int| top_entry(y@[i]));
        assert forall|i: int| 0 <= i < p.len() implies alike(#[trigger] p[i], q[i]) by {
            lemma_or_alike(x@[i].1, y@[i].1);
            lemma_field_alike(x@[i].0@, x@[i].1, y@[i].1);
        }
        lemma_gather_alike(p, q);
    }
}

} // verus!
