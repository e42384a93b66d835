//! The query language: a small filter and sort language in JSON, compiled to
//! parameterized SQL.
//!
//! Field paths are held to a safe set of characters and stand in the statement
//! as quoted text; every value becomes a bound parameter. The operators are
//! `$eq $ne $gt $gte $lt $lte $in`, and one `$or` at the top level.

use crate::errors::{validation_error, ApiError, ApiResult};
use crate::ids::{field_path, field_to_json_path};
use crate::json::{Json, Number};
use crate::sql::{large_as_real, large_to_real, push_value, value_views, Value, ValueView};
use crate::text::{
    concat2, concat3, join, join_texts, lower, same, starts_with_char, to_lower, views,
};
use vstd::prelude::*;

verus! {

/// A compiled filter: an SQL condition and the values that are bound to it.
#[derive(Debug)]
pub struct WhereClause {
    /// An SQL condition, never empty; `1` matches everything.
    pub sql: String,
    pub params: Vec<Value>,
}

/// The body of a query request.
#[derive(Debug)]
pub struct QueryRequest {
    pub filter: Option<Json>,
    pub sort: Vec<(String, String)>,
    pub limit: Option<u32>,
    pub offset: Option<u32>,
    pub cursor: Option<String>,
    pub projection: Option<Vec<String>>,
}

/// The body of a count request.
#[derive(Debug)]
pub struct CountRequest {
    pub filter: Option<Json>,
}

#[verifier::ext_equal]
pub struct Clause {
    pub sql: Seq<char>,
    pub params: Seq<ValueView>,
}

impl View for WhereClause {
    type V = Clause;

    open spec fn view(&self) -> Clause {
        Clause { sql: self.sql@, params: value_views(self.params@) }
    }
}

/// A clause, or what is said of a filter that has none.
pub type Compiled = Result<Clause, Seq<char>>;

/// Clauses side by side.
#[verifier::ext_equal]
pub struct Parts {
    pub sql: Seq<Seq<char>>,
    pub params: Seq<ValueView>,
}

/// All the clauses, with their values in the same order; or the first refusal.
pub open spec fn gather(items: Seq<Compiled>) -> Result<Parts, Seq<char>>
    decreases items.len(),
{
    if items.len() == 0 {
        Ok(Parts { sql: Seq::empty(), params: Seq::empty() })
    } else {
        match gather(items.drop_last()) {
            Err(m) => Err(m),
            Ok(p) => match items.last() {
                Err(m) => Err(m),
                Ok(c) => Ok(Parts { sql: p.sql.push(c.sql), params: p.params + c.params }),
            },
        }
    }
}

/// Puts gathered clauses together, each with `sep` before the next, between
/// `open` and `close`; `empty` where there is none.
pub open spec fn assemble(
    items: Seq<Compiled>,
    open: Seq<char>,
    sep: Seq<char>,
    close: Seq<char>,
    empty: Seq<char>,
) -> Compiled {
    match gather(items) {
        Err(m) => Err(m),
        Ok(p) => Ok(
            Clause {
                sql: if p.sql.len() == 0 {
                    empty
                } else {
                    open + join(p.sql, sep) + close
                },
                params: p.params,
            },
        ),
    }
}

/// The value that a JSON scalar is bound as.
pub open spec fn scalar_value(j: Json) -> Result<ValueView, Seq<char>> {
    match j {
        Json::Null => Ok(ValueView::Null),
        Json::Bool(b) => Ok(
            ValueView::Integer(
                if b {
                    1
                } else {
                    0
                },
            ),
        ),
        Json::Number(Number::PosInt(n)) => Ok(
            if n <= i64::MAX {
                ValueView::Integer(n as i64)
            } else {
                ValueView::Real(large_to_real(n))
            },
        ),
        Json::Number(Number::NegInt(n)) => Ok(ValueView::Integer(n)),
        Json::Number(Number::Float(b)) => Ok(ValueView::Real(b)),
        Json::Text(s) => Ok(ValueView::Text(s@)),
        _ => Err("cannot compare against a JSON array or object"@),
    }
}

/// `tail` behind an expression, with one value bound.
pub open spec fn bound_clause(extract: Seq<char>, tail: Seq<char>, j: Json) -> Compiled {
    match scalar_value(j) {
        Ok(v) => Ok(Clause { sql: extract + tail, params: seq![v] }),
        Err(m) => Err(m),
    }
}

pub open spec fn eq_clause(extract: Seq<char>, j: Json) -> Compiled {
    if j is Null {
        Ok(Clause { sql: extract + " IS NULL"@, params: Seq::empty() })
    } else {
        bound_clause(extract, " = ?"@, j)
    }
}

/// One placeholder for one member of a list.
pub open spec fn placeholder(j: Json) -> Compiled {
    match scalar_value(j) {
        Ok(v) => Ok(Clause { sql: "?"@, params: seq![v] }),
        Err(m) => Err(m),
    }
}

pub open spec fn operator_clause(extract: Seq<char>, op: Seq<char>, arg: Json) -> Compiled {
    if op == "$eq"@ {
        eq_clause(extract, arg)
    } else if op == "$ne"@ {
        if arg is Null {
            Ok(Clause { sql: extract + " IS NOT NULL"@, params: Seq::empty() })
        } else {
            bound_clause(extract, " IS NOT ?"@, arg)
        }
    } else if op == "$gt"@ {
        bound_clause(extract, " > ?"@, arg)
    } else if op == "$gte"@ {
        bound_clause(extract, " >= ?"@, arg)
    } else if op == "$lt"@ {
        bound_clause(extract, " < ?"@, arg)
    } else if op == "$lte"@ {
        bound_clause(extract, " <= ?"@, arg)
    } else if op == "$in"@ {
        match arg {
            Json::Array(v) => assemble(
                Seq::new(v@.len(), |i: int| placeholder(v@[i])),
                extract + " IN ("@,
                ", "@,
                ")"@,
                "0"@,
            ),
            _ => Err("$in requires an array"@),
        }
    } else {
        Err("unsupported operator "@ + op)
    }
}

/// The key is an operator.
pub open spec fn dollar(key: Seq<char>) -> bool {
    key.len() > 0 && key[0] == '$'
}

/// The expression that reads a field out of a document.
pub open spec fn extract_of(path: Seq<char>) -> Seq<char> {
    "json_extract(doc, '"@ + path + "')"@
}

pub open spec fn operator_entry(
    field: Seq<char>,
    extract: Seq<char>,
    entry: (String, Json),
) -> Compiled {
    if dollar(entry.0@) {
        operator_clause(extract, entry.0@, entry.1)
    } else {
        Err(
            "operator map for "@ + field + " may only contain operators; got "@ + entry.0@,
        )
    }
}

/// The condition that a filter sets on one field.
pub open spec fn field_clause(field: Seq<char>, spec_value: Json) -> Compiled {
    match field_path(field) {
        Err(m) => Err(m),
        Ok(path) => match spec_value {
            Json::Object(e) => assemble(
                Seq::new(e@.len(), |i: int| operator_entry(field, extract_of(path), e@[i])),
                "("@,
                " AND "@,
                ")"@,
                "1"@,
            ),
            Json::Array(_) => Err(
                "array equality is not supported for "@ + field + "; use $in"@,
            ),
            _ => eq_clause(extract_of(path), spec_value),
        },
    }
}

pub open spec fn or_field(entry: (String, Json)) -> Compiled {
    if entry.0@ == "$or"@ || entry.0@ == "$and"@ {
        Err("nested boolean operators are not allowed"@)
    } else if dollar(entry.0@) {
        Err("unexpected operator "@ + entry.0@ + " inside $or entry"@)
    } else {
        field_clause(entry.0@, entry.1)
    }
}

pub open spec fn or_entry(sub: Json) -> Compiled {
    match sub {
        Json::Object(e) => assemble(
            Seq::new(e@.len(), |i: int| or_field(e@[i])),
            "("@,
            " AND "@,
            ")"@,
            "(1)"@,
        ),
        _ => Err("$or entries must be objects"@),
    }
}

pub open spec fn or_clause(val: Json) -> Compiled {
    match val {
        Json::Array(v) => assemble(
            Seq::new(v@.len(), |i: int| or_entry(v@[i])),
            "("@,
            " OR "@,
            ")"@,
            "0"@,
        ),
        _ => Err("$or must be an array of sub-filters"@),
    }
}

pub open spec fn top_entry(entry: (String, Json)) -> Compiled {
    if entry.0@ == "$or"@ {
        or_clause(entry.1)
    } else if entry.0@ == "$and"@ {
        Err("$and is not supported; multiple top-level keys are already ANDed"@)
    } else if dollar(entry.0@) {
        Err("unsupported top-level operator "@ + entry.0@)
    } else {
        field_clause(entry.0@, entry.1)
    }
}

/// What a filter is compiled to.
pub open spec fn filter_clause(filter: Option<Json>) -> Compiled {
    match filter {
        None => Ok(Clause { sql: "1"@, params: Seq::empty() }),
        Some(Json::Null) => Ok(Clause { sql: "1"@, params: Seq::empty() }),
        Some(Json::Object(e)) => assemble(
            Seq::new(e@.len(), |i: int| top_entry(e@[i])),
            Seq::empty(),
            " AND "@,
            Seq::empty(),
            "1"@,
        ),
        Some(_) => Err("filter must be a JSON object"@),
    }
}

/// The result of compiling is the clause, or a validation error with its words.
pub open spec fn compiles_to(r: ApiResult<WhereClause>, c: Compiled) -> bool {
    match r {
        Ok(w) => c == Ok::<Clause, Seq<char>>(w@),
        Err(e) => c matches Err(m) && e@ == validation_error(m),
    }
}

// ---- Compiling -------------------------------------------------------------

/// One more clause joins those before it.
proof fn lemma_gather_step(items: Seq<Compiled>, i: int)
    requires
        0 <= i < items.len(),
    ensures
        items.take(i + 1).drop_last() == items.take(i),
        items.take(i + 1).last() == items[i],
{
    assert(items.take(i + 1).drop_last() =~= items.take(i));
}

/// A refusal among the first clauses is the refusal of all.
proof fn lemma_gather_refused(items: Seq<Compiled>, i: int)
    requires
        0 <= i <= items.len(),
        gather(items.take(i)) is Err,
    ensures
        gather(items) == gather(items.take(i)),
    decreases items.len() - i,
{
    if i < items.len() {
        lemma_gather_step(items, i);
        lemma_gather_refused(items, i + 1);
    } else {
        assert(items.take(i) =~= items);
    }
}

/// Clauses that have been compiled so far.
struct Gathered {
    sql: Vec<String>,
    params: Vec<Value>,
}

impl Gathered {
    spec fn parts(self) -> Parts {
        Parts { sql: views(self.sql@), params: value_views(self.params@) }
    }

    fn new() -> (r: Gathered)
        ensures
            r.parts() == (Parts { sql: Seq::empty(), params: Seq::empty() }),
    {
        let r = Gathered { sql: Vec::new(), params: Vec::new() };
        assert(r.parts().sql =~= Seq::empty());
        assert(r.parts().params =~= Seq::empty());
        r
    }

    fn add_clause(&mut self, clause: WhereClause)
        ensures
            final(self).parts().sql == old(self).parts().sql.push(clause@.sql),
            final(self).parts().params == old(self).parts().params + clause@.params,
    {
        let ghost before = *self;
        let mut params = clause.params;
        let ghost added = params@;
        self.sql.push(clause.sql);
        self.params.append(&mut params);
        proof {
            assert(views(self.sql@) =~= views(before.sql@).push(clause@.sql));
            assert(value_views(self.params@) =~= value_views(before.params@) + value_views(added));
        }
    }

    fn assembled(self, open: &str, sep: &str, close: &str, empty: &str) -> (r: WhereClause)
        ensures
            r@.sql == (if self.parts().sql.len() == 0 {
                empty@
            } else {
                open@ + join(self.parts().sql, sep@) + close@
            }),
            r@.params == self.parts().params,
    {
        let sql = if self.sql.len() == 0 {
            empty.to_string()
        } else {
            let inner = join_texts(&self.sql, sep);
            concat3(open, inner.as_str(), close)
        };
        WhereClause { sql, params: self.params }
    }
}

/// The value that a JSON scalar is bound as; arrays and objects are refused.
fn scalar_to_value(v: &Json) -> (r: ApiResult<Value>)
    ensures
        match r {
            Ok(x) => scalar_value(*v) == Ok::<ValueView, Seq<char>>(x@),
            Err(e) => scalar_value(*v) matches Err(m) && e@ == validation_error(m),
        },
{
    match v {
        Json::Null => Ok(Value::Null),
        Json::Bool(b) => Ok(
            Value::Integer(
                if *b {
                    1
                } else {
                    0
                },
            ),
        ),
        Json::Number(Number::PosInt(n)) => {
            if *n <= i64::MAX as u64 {
                Ok(Value::Integer(*n as i64))
            } else {
                Ok(Value::Real(large_as_real(*n)))
            }
        },
        Json::Number(Number::NegInt(n)) => Ok(Value::Integer(*n)),
        Json::Number(Number::Float(b)) => Ok(Value::Real(*b)),
        Json::Text(s) => Ok(Value::Text(s.clone())),
        _ => Err(ApiError::validation("cannot compare against a JSON array or object")),
    }
}

/// `tail` behind an expression, with one value bound.
fn compile_bound(extract: &str, tail: &str, arg: &Json) -> (r: ApiResult<WhereClause>)
    ensures
        compiles_to(r, bound_clause(extract@, tail@, *arg)),
{
    let v = match scalar_to_value(arg) {
        Ok(v) => v,
        Err(e) => {
            return Err(e);
        },
    };
    let mut params: Vec<Value> = Vec::new();
    assert(value_views(params@) =~= Seq::empty());
    push_value(&mut params, v);
    assert(value_views(params@) =~= seq![v@]);
    Ok(WhereClause { sql: concat2(extract, tail), params })
}

/// An expression with `tail` behind it and nothing bound.
fn compile_unbound(extract: &str, tail: &str) -> (r: WhereClause)
    ensures
        r@ == (Clause { sql: extract@ + tail@, params: Seq::empty() }),
{
    let r = WhereClause { sql: concat2(extract, tail), params: Vec::new() };
    assert(r@.params =~= Seq::empty());
    r
}

/// `field = value`, or `field IS NULL` when the value is null.
fn compile_eq(extract: &str, scalar: &Json) -> (r: ApiResult<WhereClause>)
    ensures
        compiles_to(r, eq_clause(extract@, *scalar)),
{
    match scalar {
        Json::Null => Ok(compile_unbound(extract, " IS NULL")),
        _ => compile_bound(extract, " = ?", scalar),
    }
}

/// `field IN (..)`; an empty list matches nothing.
fn compile_in(extract: &str, arg: &Json) -> (r: ApiResult<WhereClause>)
    ensures
        compiles_to(r, operator_clause(extract@, "$in"@, *arg)),
{
    proof {
        reveal_strlit("$in");
        reveal_strlit("$eq");
        reveal_strlit("$ne");
        reveal_strlit("$gt");
        reveal_strlit("$gte");
        reveal_strlit("$lt");
        reveal_strlit("$lte");
        assert("$in"@[1] == 'i');
    }
    match arg {
        Json::Array(arr) => {
            let ghost items = Seq::new(arr@.len(), |i: int| placeholder(arr@[i]));
            let mut acc = Gathered::new();
            let mut i: usize = 0;
            assert(items.take(0).len() == 0);
            #[verifier::loop_isolation(false)]
            while i < arr.len()
                invariant
                    i <= arr@.len(),
                    items == Seq::new(arr@.len(), |i: int| placeholder(arr@[i])),
                    gather(items.take(i as int)) == Ok::<Parts, Seq<char>>(acc.parts()),
                decreases arr@.len() - i,
            {
                proof {
                    lemma_gather_step(items, i as int);
                }
                match compile_bound("", "?", &arr[i]) {
                    Ok(c) => {
                        proof {
                            reveal_strlit("");
                            assert(""@ + "?"@ =~= "?"@);
                        }
                        acc.add_clause(c);
                    },
                    Err(e) => {
                        proof {
                            lemma_gather_refused(items, i + 1);
                        }
                        return Err(e);
                    },
                }
                i = i + 1;
            }
            assert(items.take(items.len() as int) =~= items);
            let open = concat2(extract, " IN (");
            Ok(acc.assembled(open.as_str(), ", ", ")", "0"))
        },
        _ => Err(ApiError::validation("$in requires an array")),
    }
}

/// One operator on one field.
fn compile_operator(extract: &str, op: &str, arg: &Json) -> (r: ApiResult<WhereClause>)
    ensures
        compiles_to(r, operator_clause(extract@, op@, *arg)),
{
    if same(op, "$eq") {
        compile_eq(extract, arg)
    } else if same(op, "$ne") {
        // `IS NOT` compares with NULL too, so a field that is missing or null
        // differs from any concrete value.
        match arg {
            Json::Null => Ok(compile_unbound(extract, " IS NOT NULL")),
            _ => compile_bound(extract, " IS NOT ?", arg),
        }
    } else if same(op, "$gt") {
        compile_bound(extract, " > ?", arg)
    } else if same(op, "$gte") {
        compile_bound(extract, " >= ?", arg)
    } else if same(op, "$lt") {
        compile_bound(extract, " < ?", arg)
    } else if same(op, "$lte") {
        compile_bound(extract, " <= ?", arg)
    } else if same(op, "$in") {
        compile_in(extract, arg)
    } else {
        let msg = concat2("unsupported operator ", op);
        Err(ApiError::validation(msg.as_str()))
    }
}

/// One field: an equality, or a map of operators.
fn compile_field(field: &str, spec_value: &Json) -> (r: ApiResult<WhereClause>)
    ensures
        compiles_to(r, field_clause(field@, *spec_value)),
{
    let path = match field_to_json_path(field) {
        Ok(p) => p,
        Err(e) => {
            return Err(e);
        },
    };
    let extract = concat3("json_extract(doc, '", path.as_str(), "')");
    match spec_value {
        Json::Object(map) => {
            let ghost items = Seq::new(
                map@.len(),
                |i: int| operator_entry(field@, extract@, map@[i]),
            );
            let mut acc = Gathered::new();
            let mut i: usize = 0;
            assert(items.take(0).len() == 0);
            #[verifier::loop_isolation(false)]
            while i < map.len()
                invariant
                    i <= map@.len(),
                    items == Seq::new(
                        map@.len(),
                        |i: int| operator_entry(field@, extract@, map@[i]),
                    ),
                    gather(items.take(i as int)) == Ok::<Parts, Seq<char>>(acc.parts()),
                decreases map@.len() - i,
            {
                proof {
                    lemma_gather_step(items, i as int);
                }
                let op = map[i].0.as_str();
                if !starts_with_char(op, '$') {
                    let head = concat3(
                        "operator map for ",
                        field,
                        " may only contain operators; got ",
                    );
                    let msg = concat2(head.as_str(), op);
                    proof {
                        lemma_gather_refused(items, i + 1);
                    }
                    return Err(ApiError::validation(msg.as_str()));
                }
                match compile_operator(extract.as_str(), op, &map[i].1) {
                    Ok(c) => {
                        acc.add_clause(c);
                    },
                    Err(e) => {
                        proof {
                            lemma_gather_refused(items, i + 1);
                        }
                        return Err(e);
                    },
                }
                i = i + 1;
            }
            assert(items.take(items.len() as int) =~= items);
            Ok(acc.assembled("(", " AND ", ")", "1"))
        },
        Json::Array(_) => {
            let msg = concat3("array equality is not supported for ", field, "; use $in");
            Err(ApiError::validation(msg.as_str()))
        },
        _ => compile_eq(extract.as_str(), spec_value),
    }
}

/// One entry of `$or`: a flat map of fields that all have to match.
fn compile_or_entry(sub: &Json) -> (r: ApiResult<WhereClause>)
    ensures
        compiles_to(r, or_entry(*sub)),
{
    match sub {
        Json::Object(obj) => {
            let ghost items = Seq::new(obj@.len(), |i: int| or_field(obj@[i]));
            let mut acc = Gathered::new();
            let mut i: usize = 0;
            assert(items.take(0).len() == 0);
            #[verifier::loop_isolation(false)]
            while i < obj.len()
                invariant
                    i <= obj@.len(),
                    items == Seq::new(obj@.len(), |i: int| or_field(obj@[i])),
                    gather(items.take(i as int)) == Ok::<Parts, Seq<char>>(acc.parts()),
                decreases obj@.len() - i,
            {
                proof {
                    lemma_gather_step(items, i as int);
                    if or_field(obj@[i as int]) is Err {
                        lemma_gather_refused(items, i + 1);
                    }
                }
                let k = obj[i].0.as_str();
                if same(k, "$or") || same(k, "$and") {
                    return Err(ApiError::validation("nested boolean operators are not allowed"));
                }
                if starts_with_char(k, '$') {
                    let msg = concat3("unexpected operator ", k, " inside $or entry");
                    return Err(ApiError::validation(msg.as_str()));
                }
                match compile_field(k, &obj[i].1) {
                    Ok(c) => {
                        acc.add_clause(c);
                    },
                    Err(e) => {
                        return Err(e);
                    },
                }
                i = i + 1;
            }
            assert(items.take(items.len() as int) =~= items);
            Ok(acc.assembled("(", " AND ", ")", "(1)"))
        },
        _ => Err(ApiError::validation("$or entries must be objects")),
    }
}

/// The one `$or`: a list of flat maps, of which one has to match. An empty list
/// matches nothing.
fn compile_or(val: &Json) -> (r: ApiResult<WhereClause>)
    ensures
        compiles_to(r, or_clause(*val)),
{
    match val {
        Json::Array(arr) => {
            let ghost items = Seq::new(arr@.len(), |i: int| or_entry(arr@[i]));
            let mut acc = Gathered::new();
            let mut i: usize = 0;
            assert(items.take(0).len() == 0);
            #[verifier::loop_isolation(false)]
            while i < arr.len()
                invariant
                    i <= arr@.len(),
                    items == Seq::new(arr@.len(), |i: int| or_entry(arr@[i])),
                    gather(items.take(i as int)) == Ok::<Parts, Seq<char>>(acc.parts()),
                decreases arr@.len() - i,
            {
                proof {
                    lemma_gather_step(items, i as int);
                }
                match compile_or_entry(&arr[i]) {
                    Ok(c) => {
                        acc.add_clause(c);
                    },
                    Err(e) => {
                        proof {
                            lemma_gather_refused(items, i + 1);
                        }
                        return Err(e);
                    },
                }
                i = i + 1;
            }
            assert(items.take(items.len() as int) =~= items);
            Ok(acc.assembled("(", " OR ", ")", "0"))
        },
        _ => Err(ApiError::validation("$or must be an array of sub-filters")),
    }
}

/// Compiles a filter. An absent, null, or empty filter matches everything.
pub fn compile_filter(filter: Option<&Json>) -> (r: ApiResult<WhereClause>)
    ensures
        compiles_to(
            r,
            filter_clause(
                match filter {
                    Some(f) => Some(*f),
                    None => None,
                },
            ),
        ),
{
    let f = match filter {
        Some(f) => f,
        None => {
            let r = WhereClause { sql: "1".to_string(), params: Vec::new() };
            assert(r@.params =~= Seq::empty());
            return Ok(r);
        },
    };
    match f {
        Json::Null => {
            let r = WhereClause { sql: "1".to_string(), params: Vec::new() };
            assert(r@.params =~= Seq::empty());
            Ok(r)
        },
        Json::Object(obj) => {
            let ghost items = Seq::new(obj@.len(), |i: int| top_entry(obj@[i]));
            let mut acc = Gathered::new();
            let mut i: usize = 0;
            assert(items.take(0).len() == 0);
            #[verifier::loop_isolation(false)]
            while i < obj.len()
                invariant
                    i <= obj@.len(),
                    items == Seq::new(obj@.len(), |i: int| top_entry(obj@[i])),
                    gather(items.take(i as int)) == Ok::<Parts, Seq<char>>(acc.parts()),
                decreases obj@.len() - i,
            {
                proof {
                    lemma_gather_step(items, i as int);
                    if top_entry(obj@[i as int]) is Err {
                        lemma_gather_refused(items, i + 1);
                    }
                }
                let key = obj[i].0.as_str();
                let compiled = if same(key, "$or") {
                    compile_or(&obj[i].1)
                } else if same(key, "$and") {
                    Err(
                        ApiError::validation(
                            "$and is not supported; multiple top-level keys are already ANDed",
                        ),
                    )
                } else if starts_with_char(key, '$') {
                    let msg = concat2("unsupported top-level operator ", key);
                    Err(ApiError::validation(msg.as_str()))
                } else {
                    compile_field(key, &obj[i].1)
                };
                match compiled {
                    Ok(c) => {
                        acc.add_clause(c);
                    },
                    Err(e) => {
                        return Err(e);
                    },
                }
                i = i + 1;
            }
            assert(items.take(items.len() as int) =~= items);
            proof {
                reveal_strlit("");
                assert(""@ =~= Seq::empty());
            }
            Ok(acc.assembled("", " AND ", "", "1"))
        },
        _ => Err(ApiError::validation("filter must be a JSON object")),
    }
}

// ---- Sorting ---------------------------------------------------------------

/// A column of the table that is no part of the document.
pub open spec fn meta_column(field: Seq<char>) -> bool {
    field == "id"@ || field == "created_at"@ || field == "updated_at"@
}

/// Whether `field` is a column of the table, not a part of the document.
fn is_meta_column(field: &str) -> (r: bool)
    ensures
        r == meta_column(field@),
{
    same(field, "id") || same(field, "created_at") || same(field, "updated_at")
}

/// One term of the order.
pub open spec fn sort_term(term: (String, String)) -> Compiled {
    let dir = lower(term.1@);
    if dir != "asc"@ && dir != "desc"@ {
        Err("sort direction must be 'asc' or 'desc'"@)
    } else {
        let tail = if dir == "asc"@ {
            " ASC"@
        } else {
            " DESC"@
        };
        if meta_column(term.0@) {
            Ok(Clause { sql: term.0@ + tail, params: Seq::empty() })
        } else {
            match field_path(term.0@) {
                Err(m) => Err(m),
                Ok(path) => Ok(Clause { sql: extract_of(path) + tail, params: Seq::empty() }),
            }
        }
    }
}

/// What a sort is compiled to.
pub open spec fn sort_clause(sort: Seq<(String, String)>) -> Compiled {
    assemble(
        Seq::new(sort.len(), |i: int| sort_term(sort[i])),
        "ORDER BY "@,
        ", "@,
        Seq::empty(),
        "ORDER BY id ASC"@,
    )
}

/// One term of the order.
fn compile_sort_term(path: &str, dir: &str) -> (r: ApiResult<WhereClause>)
    ensures
        forall|t: (String, String)|
            t.0@ == path@ && t.1@ == dir@ ==> compiles_to(r, #[trigger] sort_term(t)),
{
    let direction = to_lower(dir);
    let tail = if same(direction.as_str(), "asc") {
        " ASC"
    } else if same(direction.as_str(), "desc") {
        " DESC"
    } else {
        return Err(ApiError::validation("sort direction must be 'asc' or 'desc'"));
    };
    if is_meta_column(path) {
        Ok(compile_unbound(path, tail))
    } else {
        match field_to_json_path(path) {
            Ok(json_path) => {
                let extract = concat3("json_extract(doc, '", json_path.as_str(), "')");
                Ok(compile_unbound(extract.as_str(), tail))
            },
            Err(e) => Err(e),
        }
    }
}

/// Compiles a sort. The default is by identifier, which is chronological.
pub fn compile_sort(sort: &[(String, String)]) -> (r: ApiResult<String>)
    ensures
        match r {
            Ok(s) => sort_clause(sort@) == Ok::<Clause, Seq<char>>(
                Clause { sql: s@, params: Seq::empty() },
            ),
            Err(e) => sort_clause(sort@) matches Err(m) && e@ == validation_error(m),
        },
{
    let ghost items = Seq::new(sort@.len(), |i: int| sort_term(sort@[i]));
    let mut acc = Gathered::new();
    let mut i: usize = 0;
    assert(items.take(0).len() == 0);
    while i < sort.len()
        invariant
            i <= sort@.len(),
            items == Seq::new(sort@.len(), |i: int| sort_term(sort@[i])),
            gather(items.take(i as int)) == Ok::<Parts, Seq<char>>(acc.parts()),
            acc.parts().params == Seq::<ValueView>::empty(),
        decreases sort@.len() - i,
    {
        proof {
            lemma_gather_step(items, i as int);
        }
        match compile_sort_term(sort[i].0.as_str(), sort[i].1.as_str()) {
            Ok(c) => {
                proof {
                    assert(compiles_to(Ok(c), sort_term(sort@[i as int])));
                    assert(acc.parts().params + c@.params =~= Seq::empty());
                }
                acc.add_clause(c);
            },
            Err(e) => {
                proof {
                    assert(compiles_to(Err(e), sort_term(sort@[i as int])));
                    lemma_gather_refused(items, i + 1);
                }
                return Err(e);
            },
        }
        i = i + 1;
    }
    assert(items.take(items.len() as int) =~= items);
    proof {
        reveal_strlit("");
        assert(""@ =~= Seq::empty());
    }
    let w = acc.assembled("ORDER BY ", ", ", "", "ORDER BY id ASC");
    Ok(w.sql)
}

/// The order is by identifier, ascending.
pub open spec fn cursor_order(sort: Seq<(String, String)>) -> bool {
    sort.len() == 0 || (sort.len() == 1 && sort[0].0@ == "id"@ && lower(sort[0].1@) == "asc"@)
}

/// Whether a cursor can continue the order: only where it is by identifier.
pub fn is_cursor_compatible(sort: &[(String, String)]) -> (r: bool)
    ensures
        r == cursor_order(sort@),
{
    if sort.len() == 0 {
        return true;
    }
    if sort.len() != 1 {
        return false;
    }
    let dir = to_lower(sort[0].1.as_str());
    same(sort[0].0.as_str(), "id") && same(dir.as_str(), "asc")
}

} // verus!
