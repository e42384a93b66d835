use tinylord::json::{json_int, json_text, Json, Number};
use tinylord::query::{compile_filter, compile_sort, is_cursor_compatible, WhereClause};
use tinylord::sql::Value;

fn object(entries: Vec<(&str, Json)>) -> Json {
    Json::Object(entries.into_iter().map(|(k, v)| (k.to_string(), v)).collect())
}

fn compile(v: Json) -> WhereClause {
    compile_filter(Some(&v)).expect("should compile")
}

fn refusal(v: Json) -> String {
    compile_filter(Some(&v)).unwrap_err().message
}

#[test]
fn empty_filter_matches_all() {
    assert_eq!(compile_filter(None).unwrap().sql, "1");
    assert_eq!(compile(object(vec![])).sql, "1");
}

#[test]
fn scalar_equality() {
    let w = compile(object(vec![("status", json_text("active"))]));
    assert_eq!(w.sql, "json_extract(doc, '$.status') = ?");
    assert_eq!(w.params, vec![Value::Text("active".into())]);
}

#[test]
fn dotted_path_maps_to_json_path() {
    let w = compile(object(vec![("user.age", json_int(18))]));
    assert_eq!(w.sql, "json_extract(doc, '$.user.age') = ?");
    assert_eq!(w.params, vec![Value::Integer(18)]);
}

#[test]
fn all_comparison_operators() {
    for (op, sym) in [("$gt", ">"), ("$gte", ">="), ("$lt", "<"), ("$lte", "<=")] {
        let w = compile(object(vec![("age", object(vec![(op, json_int(21))]))]));
        assert_eq!(w.sql, format!("(json_extract(doc, '$.age') {sym} ?)"));
        assert_eq!(w.params, vec![Value::Integer(21)]);
    }
}

#[test]
fn ne_uses_is_not() {
    let w = compile(object(vec![("role", object(vec![("$ne", json_text("admin"))]))]));
    assert_eq!(w.sql, "(json_extract(doc, '$.role') IS NOT ?)");
}

#[test]
fn eq_null_uses_is_null() {
    let w = compile(object(vec![("deleted", Json::Null)]));
    assert_eq!(w.sql, "json_extract(doc, '$.deleted') IS NULL");
    assert!(w.params.is_empty());
}

#[test]
fn in_operator() {
    let list = Json::Array(vec![json_text("a"), json_text("b")]);
    let w = compile(object(vec![("role", object(vec![("$in", list)]))]));
    assert_eq!(w.sql, "(json_extract(doc, '$.role') IN (?, ?))");
    assert_eq!(
        w.params,
        vec![Value::Text("a".into()), Value::Text("b".into())]
    );
}

#[test]
fn empty_in_matches_nothing() {
    let w = compile(object(vec![("role", object(vec![("$in", Json::Array(vec![]))]))]));
    assert_eq!(w.sql, "(0)");
}

#[test]
fn multiple_fields_are_anded() {
    let w = compile(object(vec![("a", json_int(1)), ("b", json_int(2))]));
    assert!(w.sql.contains(" AND "));
    assert_eq!(w.params.len(), 2);
}

fn either() -> Json {
    Json::Array(vec![
        object(vec![("a", json_int(1))]),
        object(vec![("b", json_int(2))]),
    ])
}

#[test]
fn or_group() {
    let w = compile(object(vec![("$or", either())]));
    assert_eq!(
        w.sql,
        "((json_extract(doc, '$.a') = ?) OR (json_extract(doc, '$.b') = ?))"
    );
    assert_eq!(w.params.len(), 2);
}

#[test]
fn or_anded_with_top_level_field() {
    let w = compile(object(vec![("status", json_text("active")), ("$or", either())]));
    assert_eq!(w.params.len(), 3);
    assert!(w.sql.contains(" AND "));
    assert!(w.sql.contains(" OR "));
}

#[test]
fn rejects_nested_or() {
    let inner = object(vec![("$or", Json::Array(vec![object(vec![("a", json_int(1))])]))]);
    assert!(compile_filter(Some(&object(vec![("$or", Json::Array(vec![inner]))]))).is_err());
}

#[test]
fn rejects_and() {
    let list = Json::Array(vec![object(vec![("a", json_int(1))])]);
    assert!(compile_filter(Some(&object(vec![("$and", list)]))).is_err());
}

#[test]
fn rejects_unknown_operator() {
    let f = object(vec![("a", object(vec![("$regex", json_text("x"))]))]);
    assert!(compile_filter(Some(&f)).is_err());
}

#[test]
fn rejects_or_inside_field() {
    let f = object(vec![("a", object(vec![("foo", json_int(1))]))]);
    assert!(compile_filter(Some(&f)).is_err());
}

#[test]
fn rejects_bad_path() {
    assert!(compile_filter(Some(&object(vec![("a-b", json_int(1))]))).is_err());
    assert!(compile_filter(Some(&object(vec![("a.", json_int(1))]))).is_err());
    assert!(compile_filter(Some(&object(vec![("", json_int(1))]))).is_err());
}

#[test]
fn rejects_array_equality() {
    let list = Json::Array(vec![json_int(1), json_int(2)]);
    assert!(compile_filter(Some(&object(vec![("tags", list)]))).is_err());
}

#[test]
fn sort_default_and_custom() {
    assert_eq!(compile_sort(&[]).unwrap(), "ORDER BY id ASC");
    let s = compile_sort(&[
        ("created_at".into(), "desc".into()),
        ("name".into(), "asc".into()),
    ])
    .unwrap();
    assert_eq!(
        s,
        "ORDER BY created_at DESC, json_extract(doc, '$.name') ASC"
    );
}

#[test]
fn sort_rejects_bad_direction() {
    assert!(compile_sort(&[("a".into(), "sideways".into())]).is_err());
}

#[test]
fn cursor_compatibility() {
    assert!(is_cursor_compatible(&[]));
    assert!(is_cursor_compatible(&[("id".into(), "asc".into())]));
    assert!(!is_cursor_compatible(&[("id".into(), "desc".into())]));
    assert!(!is_cursor_compatible(&[("name".into(), "asc".into())]));
}

#[test]
fn filter_refusals_say_what_is_wrong() {
    assert_eq!(compile(Json::Null).sql, "1");
    assert_eq!(refusal(Json::Bool(true)), "filter must be a JSON object");
    assert_eq!(
        refusal(object(vec![("$and", Json::Null)])),
        "$and is not supported; multiple top-level keys are already ANDed"
    );
    assert_eq!(
        refusal(object(vec![("$nor", Json::Null)])),
        "unsupported top-level operator $nor"
    );
    assert_eq!(
        refusal(object(vec![("$or", json_int(1))])),
        "$or must be an array of sub-filters"
    );
    assert_eq!(
        refusal(object(vec![("$or", Json::Array(vec![json_int(1)]))])),
        "$or entries must be objects"
    );
    assert_eq!(
        refusal(object(vec![("$or", Json::Array(vec![object(vec![("$and", Json::Null)])]))])),
        "nested boolean operators are not allowed"
    );
    assert_eq!(
        refusal(object(vec![("$or", Json::Array(vec![object(vec![("$gt", Json::Null)])]))])),
        "unexpected operator $gt inside $or entry"
    );
    assert_eq!(
        refusal(object(vec![("a", object(vec![("foo", json_int(1))]))])),
        "operator map for a may only contain operators; got foo"
    );
    assert_eq!(
        refusal(object(vec![("tags", Json::Array(vec![]))])),
        "array equality is not supported for tags; use $in"
    );
    assert_eq!(
        refusal(object(vec![("a", object(vec![("$in", json_int(1))]))])),
        "$in requires an array"
    );
    assert_eq!(
        refusal(object(vec![("a", object(vec![("$regex", json_int(1))]))])),
        "unsupported operator $regex"
    );
    assert_eq!(
        refusal(object(vec![("a", object(vec![("$gt", object(vec![]))]))])),
        "cannot compare against a JSON array or object"
    );
    assert_eq!(refusal(object(vec![("", json_int(1))])), "empty field name in filter");
    assert_eq!(refusal(object(vec![("a-b", json_int(1))])), "invalid field path: a-b");
}

#[test]
fn degenerate_filters_have_a_meaning() {
    assert_eq!(compile(object(vec![("$or", Json::Array(vec![]))])).sql, "0");
    assert_eq!(
        compile(object(vec![("$or", Json::Array(vec![object(vec![])]))])).sql,
        "((1))"
    );
    assert_eq!(compile(object(vec![("a", object(vec![]))])).sql, "1");
    let w = compile(object(vec![("a", object(vec![("$ne", Json::Null)]))]));
    assert_eq!(w.sql, "(json_extract(doc, '$.a') IS NOT NULL)");
    let w = compile(object(vec![("a", object(vec![("$gt", Json::Null)]))]));
    assert_eq!(w.sql, "(json_extract(doc, '$.a') > ?)");
    assert_eq!(w.params, vec![Value::Null]);
}

#[test]
fn numbers_are_bound_by_their_kind() {
    let of = |n: Number| compile(object(vec![("n", Json::Number(n))])).params;
    assert_eq!(of(Number::PosInt(i64::MAX as u64)), vec![Value::Integer(i64::MAX)]);
    assert_eq!(of(Number::NegInt(i64::MIN)), vec![Value::Integer(i64::MIN)]);
    assert_eq!(of(Number::Float(1.5f64.to_bits())), vec![Value::Real(1.5f64.to_bits())]);
    for n in [1u64 << 63, u64::MAX, (1u64 << 63) + 1024, (1u64 << 63) + 3072] {
        assert_eq!(of(Number::PosInt(n)), vec![Value::Real((n as f64).to_bits())]);
    }
    assert_eq!(
        compile(object(vec![("b", Json::Bool(true))])).params,
        vec![Value::Integer(1)]
    );
}

#[test]
fn every_value_has_a_placeholder() {
    let filter = object(vec![
        ("a", json_text("' OR 1=1 --")),
        ("b", object(vec![("$gte", json_int(1)), ("$lt", json_int(9))])),
        ("$or", either()),
    ]);
    let w = compile(filter);
    assert_eq!(w.sql.matches('?').count(), w.params.len());
    assert_eq!(w.params.len(), 5);
    assert!(!w.sql.contains("1=1"));
}

#[test]
fn sort_directions_ignore_case() {
    assert_eq!(
        compile_sort(&[("updated_at".into(), "DESC".into())]).unwrap(),
        "ORDER BY updated_at DESC"
    );
    assert_eq!(
        compile_sort(&[("a".into(), "up".into())]).unwrap_err().message,
        "sort direction must be 'asc' or 'desc'"
    );
    assert!(is_cursor_compatible(&[("id".into(), "ASC".into())]));
}
