//! What clients are told.
//!
//! The bodies of the answers are described by their members: what each of them holds, and
//! that there are no others.

use crate::admin::{
    created_database, created_principal, database_json, databases_answer, grant_json, list_answer,
    principal_json, registration_answer, user_answer, Account, ListStageView,
};
use crate::browser_auth::{
    csrf_cookie_text, login_outcome, password_ok, password_outcome, refresh_cookie_text,
    session_body, signed_in, username_ok,
};
use crate::control_laws::role_word;
use crate::document_laws::json_number;
use crate::documents::{envelope_view, DocRowView};
use crate::engine::{expr_text, lemma_join5, lemma_join6, Expr};
use crate::errors::{code_name, code_status, error_body, sql_error, ApiError, ErrorCode, ErrorView};
use crate::index_op::{create_index_sql, CreateIndexView};
use crate::indexes::{created_index_view, index_json, index_row, indexes_readable, listed_indexes};
use crate::json::{member, reached, Json, JsonView};
use crate::limits::{over_limit, rate_outcome};
use crate::openapi::{all_routes, openapi_view, paths_map};
use crate::pubsub::client_view;
use crate::query_ep::{
    page_json, query_page, CountRun, CountStageView, PageView, QueryStageView, QueryView,
};
use crate::sessions::TokenSetView;
use crate::sql::{changed_rows, failed, Reply, ReplyView, ValueView};
use crate::system::{
    database_row, databases_readable, principal_record, NewPrincipal, PrincipalRecordView, Role,
};
use crate::text::{join, signed_decimal};
use vstd::prelude::*;
use vstd::utf8::encode_utf8;

verus! {

// ---- Errors ----------------------------------------------------------------

/// The word by which a code is told.
pub open spec fn error_word(code: ErrorCode) -> Seq<char> {
    match code {
        ErrorCode::BadRequest => "bad_request"@,
        ErrorCode::Validation => "validation"@,
        ErrorCode::Unauthorized => "unauthorized"@,
        ErrorCode::Forbidden => "forbidden"@,
        ErrorCode::NotFound => "not_found"@,
        ErrorCode::Conflict => "conflict"@,
        ErrorCode::PayloadTooLarge => "payload_too_large"@,
        ErrorCode::RateLimited => "rate_limited"@,
        ErrorCode::Internal => "internal"@,
    }
}

/// What is told of an error.
pub open spec fn told_error(e: ErrorView) -> JsonView {
    member(error_body(e), "error"@)->0
}

/// No two codes are told by the same word.
pub proof fn law_codes_are_told_apart(a: ErrorCode, b: ErrorCode)
    requires
        a != b,
    ensures
        code_name(a) != code_name(b),
{
    reveal_strlit("bad_request");
    reveal_strlit("validation");
    reveal_strlit("unauthorized");
    reveal_strlit("forbidden");
    reveal_strlit("not_found");
    reveal_strlit("conflict");
    reveal_strlit("payload_too_large");
    reveal_strlit("rate_limited");
    reveal_strlit("internal");
    assert("bad_request"@.len() == 11);
    assert("validation"@.len() == 10);
    assert("unauthorized"@.len() == 12);
    assert("forbidden"@.len() == 9);
    assert("not_found"@.len() == 9);
    assert("conflict"@.len() == 8);
    assert("payload_too_large"@.len() == 17);
    assert("rate_limited"@.len() == 12);
    assert("internal"@.len() == 8);
    assert("unauthorized"@[0] == 'u' && "rate_limited"@[0] == 'r');
    assert("forbidden"@[0] == 'f' && "not_found"@[0] == 'n');
    assert("conflict"@[0] == 'c' && "internal"@[0] == 'i');
}

/// Each status has its meaning: who is not known is answered 401, who may not 403, what is
/// not there 404, what is there already 409, what is too large 413, what comes too often
/// 429; any other fault of the client is 400, and a fault of the server 500.
pub proof fn law_status_has_its_meaning(code: ErrorCode)
    ensures
        code_status(code) == 401 <==> code is Unauthorized,
        code_status(code) == 403 <==> code is Forbidden,
        code_status(code) == 404 <==> code is NotFound,
        code_status(code) == 409 <==> code is Conflict,
        code_status(code) == 413 <==> code is PayloadTooLarge,
        code_status(code) == 429 <==> code is RateLimited,
        code_status(code) == 500 <==> code is Internal,
        code_status(code) == 400 <==> (code is BadRequest || code is Validation),
{
}

/// A statement that the engine refuses is a conflict where a value is there already, and
/// otherwise a fault of the server.
pub proof fn law_refused_statement_is_told(unique: bool)
    ensures
        code_status(sql_error(unique).code) == (if unique {
            409u16
        } else {
            500u16
        }),
        sql_error(unique).detail is None,
        sql_error(unique).retry_after_secs is None,
{
}

// ---- Bodies ----------------------------------------------------------------

/// The body of an error holds what went wrong, under one name.
pub proof fn law_error_is_told(e: ErrorView)
    ensures
        member(error_body(e), "error"@) == Some(told_error(e)),
        forall|k: Seq<char>| #[trigger]
            member(error_body(e), k) is Some ==> k == "error"@,
{
    reveal_strlit("error");
    assert("error"@.len() == 5);
}

/// What is told of an error is its code, its message, and the detail where there is one.
pub proof fn law_error_tells_code_and_message(e: ErrorView)
    ensures
        member(told_error(e), "code"@) == Some(JsonView::Text(error_word(e.code))),
        member(told_error(e), "message"@) == Some(JsonView::Text(e.message)),
        member(told_error(e), "detail"@) == Some((match e.detail {
            Some(d) => d,
            None => JsonView::Null,
        })),
        forall|k: Seq<char>| #[trigger]
            member(told_error(e), k) is Some ==> k == "code"@ || k == "message"@ || k == "detail"@,
{
    reveal_strlit("code");
    reveal_strlit("message");
    reveal_strlit("detail");
    assert("code"@.len() == 4);
    assert("message"@.len() == 7);
    assert("detail"@.len() == 6);
}

/// A browser that has signed in is told the access token, that it is a bearer token, for
/// how many seconds it lasts, and the token against forged requests. The refresh token is
/// not among them.
pub proof fn law_session_is_told(tokens: TokenSetView, ttl: i64)
    ensures
        member(session_body(tokens, ttl), "access_token"@) == Some(JsonView::Text(tokens.access)),
        member(session_body(tokens, ttl), "token_type"@) == Some(JsonView::Text("Bearer"@)),
        member(session_body(tokens, ttl), "expires_in"@) == Some(json_number(ttl)),
        member(session_body(tokens, ttl), "csrf_token"@) == Some(JsonView::Text(tokens.csrf)),
        forall|k: Seq<char>| #[trigger]
            member(session_body(tokens, ttl), k) is Some ==> k == "access_token"@ || k == "token_type"@ || k == "expires_in"@ || k == "csrf_token"@,
{
    reveal_strlit("access_token");
    reveal_strlit("token_type");
    reveal_strlit("expires_in");
    reveal_strlit("csrf_token");
    assert("access_token"@.len() == 12);
    assert("token_type"@.len() == 10);
    assert("expires_in"@.len() == 10);
    assert("csrf_token"@.len() == 10);
    assert("token_type"@[0] == 't' && "expires_in"@[0] == 'e');
    assert("token_type"@[0] == 't' && "csrf_token"@[0] == 'c');
    assert("expires_in"@[0] == 'e' && "csrf_token"@[0] == 'c');
}

/// An index that was created is told as it was asked for.
pub proof fn law_created_index_is_told(name: Seq<char>, coll: Seq<char>, path: Seq<char>, unique: bool)
    ensures
        created_index_view(name, coll, path, unique).status == 201,
        member(created_index_view(name, coll, path, unique).body->0, "name"@) == Some(JsonView::Text(name)),
        member(created_index_view(name, coll, path, unique).body->0, "collection"@) == Some(JsonView::Text(coll)),
        member(created_index_view(name, coll, path, unique).body->0, "path"@) == Some(JsonView::Text(path)),
        member(created_index_view(name, coll, path, unique).body->0, "unique"@) == Some(JsonView::Bool(unique)),
        forall|k: Seq<char>| #[trigger]
            member(created_index_view(name, coll, path, unique).body->0, k) is Some ==> k == "name"@ || k == "collection"@ || k == "path"@ || k == "unique"@,
{
    reveal_strlit("name");
    reveal_strlit("collection");
    reveal_strlit("path");
    reveal_strlit("unique");
    assert("name"@.len() == 4);
    assert("collection"@.len() == 10);
    assert("path"@.len() == 4);
    assert("unique"@.len() == 6);
    assert("name"@[0] == 'n' && "path"@[0] == 'p');
}

/// A row of the list of indexes is told as it stands there; a unique index is marked by any
/// number but zero.
pub proof fn law_index_is_listed(row: Seq<ValueView>, name: Seq<char>, coll: Seq<char>, path: Seq<char>, unique: i64)
    requires
        row == seq![
            ValueView::Text(name),
            ValueView::Text(coll),
            ValueView::Text(path),
            ValueView::Integer(unique),
        ],
    ensures
        index_row(row) is Some,
        member(index_json(index_row(row)->0), "name"@) == Some(JsonView::Text(name)),
        member(index_json(index_row(row)->0), "collection"@) == Some(JsonView::Text(coll)),
        member(index_json(index_row(row)->0), "path"@) == Some(JsonView::Text(path)),
        member(index_json(index_row(row)->0), "is_unique"@) == Some(JsonView::Bool(unique != 0)),
        forall|k: Seq<char>| #[trigger]
            member(index_json(index_row(row)->0), k) is Some ==> k == "name"@ || k == "collection"@ || k == "path"@ || k == "is_unique"@,
{
    reveal_strlit("name");
    reveal_strlit("collection");
    reveal_strlit("path");
    reveal_strlit("is_unique");
    assert("name"@.len() == 4);
    assert("collection"@.len() == 10);
    assert("path"@.len() == 4);
    assert("is_unique"@.len() == 9);
    assert("name"@[0] == 'n' && "path"@[0] == 'p');
}

/// A row of the list of databases is told as it stands there.
pub proof fn law_database_is_listed(row: Seq<ValueView>, name: Seq<char>, created_at: i64)
    requires
        row == seq![ValueView::Text(name), ValueView::Integer(created_at)],
    ensures
        database_row(row) is Some,
        member(database_json(database_row(row)->0), "name"@) == Some(JsonView::Text(name)),
        member(database_json(database_row(row)->0), "created_at"@) == Some(json_number(created_at)),
        forall|k: Seq<char>| #[trigger]
            member(database_json(database_row(row)->0), k) is Some ==> k == "name"@ || k == "created_at"@,
{
    reveal_strlit("name");
    reveal_strlit("created_at");
    assert("name"@.len() == 4);
    assert("created_at"@.len() == 10);
}

/// A database that was entered is told with its name and the time.
pub proof fn law_created_database_is_told(name: Seq<char>, now: i64, r: ReplyView)
    requires
        !failed(r),
        changed_rows(r) > 0,
    ensures
        created_database(name, now, r) is Ok,
        created_database(name, now, r)->Ok_0.status == 201,
        member(created_database(name, now, r)->Ok_0.body->0, "name"@) == Some(JsonView::Text(name)),
        member(created_database(name, now, r)->Ok_0.body->0, "created_at"@) == Some(json_number(now)),
        forall|k: Seq<char>| #[trigger]
            member(created_database(name, now, r)->Ok_0.body->0, k) is Some ==> k == "name"@ || k == "created_at"@,
{
    reveal_strlit("name");
    reveal_strlit("created_at");
    assert("name"@.len() == 4);
    assert("created_at"@.len() == 10);
}

/// A user is told by identifier and name.
pub proof fn law_user_is_told(status: u16, id: Seq<char>, name: Seq<char>)
    ensures
        user_answer(status, id, name).status == status,
        member(user_answer(status, id, name).body->0, "id"@) == Some(JsonView::Text(id)),
        member(user_answer(status, id, name).body->0, "name"@) == Some(JsonView::Text(name)),
        forall|k: Seq<char>| #[trigger]
            member(user_answer(status, id, name).body->0, k) is Some ==> k == "id"@ || k == "name"@,
{
    reveal_strlit("id");
    reveal_strlit("name");
    assert("id"@.len() == 2);
    assert("name"@.len() == 4);
}

/// The policy on registration is told as it is.
pub proof fn law_policy_is_told(enabled: bool)
    ensures
        registration_answer(enabled).status == 200,
        member(registration_answer(enabled).body->0, "enabled"@) == Some(JsonView::Bool(enabled)),
        forall|k: Seq<char>| #[trigger]
            member(registration_answer(enabled).body->0, k) is Some ==> k == "enabled"@,
{
    reveal_strlit("enabled");
    assert("enabled"@.len() == 7);
}

/// A grant is told with its database and the word of the role.
pub proof fn law_grant_is_told(db: Seq<char>, role: Role)
    ensures
        member(grant_json((db, role_word(role))), "database"@) == Some(JsonView::Text(db)),
        member(grant_json((db, role_word(role))), "role"@) == Some(JsonView::Text(role_word(role))),
        forall|k: Seq<char>| #[trigger]
            member(grant_json((db, role_word(role))), k) is Some ==> k == "database"@ || k == "role"@,
{
    reveal_strlit("database");
    reveal_strlit("role");
    assert("database"@.len() == 8);
    assert("role"@.len() == 4);
}

/// A row of the list of principals is told as it stands there: one with a user name is a
/// browser user, any other bears a token; what is marked by a number is marked by any number
/// but zero.
pub proof fn law_principal_is_listed(row: Seq<ValueView>, id: Seq<char>, name: Seq<char>, username: ValueView, admin: i64, disabled: i64, created_at: i64, grants: Seq<(Seq<char>, Seq<char>)>)
    requires
        username is Text || username is Null,
        row == seq![
            ValueView::Text(id),
            ValueView::Text(name),
            username,
            ValueView::Integer(admin),
            ValueView::Integer(disabled),
            ValueView::Integer(created_at),
        ],
    ensures
        principal_record(row) is Some,
        member(principal_json(
            principal_record(row)->0,
            grants,
        ), "id"@) == Some(JsonView::Text(id)),
        member(principal_json(
            principal_record(row)->0,
            grants,
        ), "name"@) == Some(JsonView::Text(name)),
        member(principal_json(
            principal_record(row)->0,
            grants,
        ), "username"@) == Some((match username {
            ValueView::Text(u) => JsonView::Text(u),
            _ => JsonView::Null,
        })),
        member(principal_json(
            principal_record(row)->0,
            grants,
        ), "kind"@) == Some(JsonView::Text((if username is Null {
                "token"@
            } else {
                "browser"@
            }))),
        member(principal_json(
            principal_record(row)->0,
            grants,
        ), "is_admin"@) == Some(JsonView::Bool(admin != 0)),
        member(principal_json(
            principal_record(row)->0,
            grants,
        ), "disabled"@) == Some(JsonView::Bool(disabled != 0)),
        member(principal_json(
            principal_record(row)->0,
            grants,
        ), "created_at"@) == Some(json_number(created_at)),
        member(principal_json(
            principal_record(row)->0,
            grants,
        ), "grants"@) == Some(JsonView::Array(
                Seq::new(grants.len(), |i: int| grant_json(grants[i])),
            )),
        forall|k: Seq<char>| #[trigger]
            member(principal_json(
            principal_record(row)->0,
            grants,
        ), k) is Some ==> k == "id"@ || k == "name"@ || k == "username"@ || k == "kind"@ || k == "is_admin"@ || k == "disabled"@ || k == "created_at"@ || k == "grants"@,
{
    reveal_strlit("id");
    reveal_strlit("name");
    reveal_strlit("username");
    reveal_strlit("kind");
    reveal_strlit("is_admin");
    reveal_strlit("disabled");
    reveal_strlit("created_at");
    reveal_strlit("grants");
    assert("id"@.len() == 2);
    assert("name"@.len() == 4);
    assert("username"@.len() == 8);
    assert("kind"@.len() == 4);
    assert("is_admin"@.len() == 8);
    assert("disabled"@.len() == 8);
    assert("created_at"@.len() == 10);
    assert("grants"@.len() == 6);
    assert("name"@[0] == 'n' && "kind"@[0] == 'k');
    assert("username"@[0] == 'u' && "is_admin"@[0] == 'i');
    assert("username"@[0] == 'u' && "disabled"@[0] == 'd');
    assert("is_admin"@[0] == 'i' && "disabled"@[0] == 'd');
}

/// A page is told with its items in their order and with the cursor behind which the next
/// one begins.
pub proof fn law_page_is_told(p: PageView)
    ensures
        member(page_json(p), "items"@) == Some(JsonView::Array(
                Seq::new(p.items.len(), |i: int| envelope_view(p.items[i])),
            )),
        member(page_json(p), "next_cursor"@) == Some((match p.next_cursor {
            Some(c) => JsonView::Text(c),
            None => JsonView::Null,
        })),
        forall|k: Seq<char>| #[trigger]
            member(page_json(p), k) is Some ==> k == "items"@ || k == "next_cursor"@,
{
    reveal_strlit("items");
    reveal_strlit("next_cursor");
    assert("items"@.len() == 5);
    assert("next_cursor"@.len() == 11);
}

/// A client that is present is told by its identifier and the time since when it is there.
pub proof fn law_present_client_is_told(id: Seq<char>, since: i64)
    ensures
        member(client_view(id, since), "client_id"@) == Some(JsonView::Text(id)),
        member(client_view(id, since), "connected_at"@) == Some(json_number(since)),
        forall|k: Seq<char>| #[trigger]
            member(client_view(id, since), k) is Some ==> k == "client_id"@ || k == "connected_at"@,
{
    reveal_strlit("client_id");
    reveal_strlit("connected_at");
    assert("client_id"@.len() == 9);
    assert("connected_at"@.len() == 12);
}

/// The token of a new principal is told with its identifier, and nothing else of it.
pub proof fn law_new_token_is_told_once(p: NewPrincipal, reply: Reply)
    requires
        !failed(reply@),
    ensures
        created_principal(Account::Token(p), reply) is Ok,
        created_principal(Account::Token(p), reply)->Ok_0.status == 201,
        member(created_principal(Account::Token(p), reply)->Ok_0.body->0, "id"@) == Some(JsonView::Text(p.id@)),
        member(created_principal(Account::Token(p), reply)->Ok_0.body->0, "token"@) == Some(JsonView::Text(p.token@)),
        forall|k: Seq<char>| #[trigger]
            member(created_principal(Account::Token(p), reply)->Ok_0.body->0, k) is Some ==> k == "id"@ || k == "token"@,
{
    reveal_strlit("id");
    reveal_strlit("token");
    assert("id"@.len() == 2);
    assert("token"@.len() == 5);
}

// ---- Lists -----------------------------------------------------------------

/// A list tells every row that came back, in its order, under one name; a row that cannot
/// be read is a fault of the server.
pub proof fn law_lists_tell_every_row(rows: Seq<Seq<ValueView>>)
    ensures
        indexes_readable(rows) ==> (listed_indexes(ReplyView::Rows(rows)) matches Ok(a) && a.status
            == 200 && member(a.body->0, "indexes"@) == Some(
            JsonView::Array(Seq::new(rows.len(), |i: int| index_json(index_row(rows[i])->0))),
        )),
        databases_readable(rows) ==> (databases_answer(ReplyView::Rows(rows)) matches Ok(a)
            && a.status == 200 && member(a.body->0, "databases"@) == Some(
            JsonView::Array(Seq::new(rows.len(), |i: int| database_json(database_row(rows[i])->0))),
        )),
        !indexes_readable(rows) ==> (listed_indexes(ReplyView::Rows(rows)) matches Err(e)
            && code_status(e.code) == 500),
        !databases_readable(rows) ==> (databases_answer(ReplyView::Rows(rows)) matches Err(e)
            && code_status(e.code) == 500),
{
    if databases_readable(rows) {
        let v = Seq::new(rows.len(), |i: int| database_row(rows[i])->0);
        assert(Seq::new(v.len(), |i: int| database_json(v[i])) =~= Seq::new(
            rows.len(),
            |i: int| database_json(database_row(rows[i])->0),
        ));
    }
}

/// The list of principals tells each with its own grants.
pub proof fn law_principals_are_told_with_their_grants(
    principals: Seq<PrincipalRecordView>,
    grants: Seq<Seq<(Seq<char>, Seq<char>)>>,
)
    requires
        grants.len() == principals.len(),
    ensures
        list_answer(ListStageView::Grants { principals, grants }) matches Ok(a) && a.status == 200
            && member(a.body->0, "principals"@) == Some(
            JsonView::Array(
                Seq::new(principals.len(), |i: int| principal_json(principals[i], grants[i])),
            ),
        ),
{
}

/// A page tells each row with its identifier and its times, and with the document that was
/// read from it; where only a part of the documents was asked for, with that part. A
/// document that cannot be read is a fault of the server.
pub proof fn law_page_tells_the_rows(q: QueryView, rows: Seq<DocRowView>, docs: Seq<Option<JsonView>>)
    requires
        q.stage == QueryStageView::Rows(rows),
        docs.len() == rows.len(),
    ensures
        (forall|i: int| 0 <= i < docs.len() ==> #[trigger] docs[i] is Some) ==> (query_page(q, docs)
            matches Ok(p) && p.items.len() == rows.len() && forall|i: int|
            0 <= i < rows.len() ==> {
                &&& (#[trigger] p.items[i]).id == rows[i].id
                &&& p.items[i].created_at == rows[i].created_at
                &&& p.items[i].updated_at == rows[i].updated_at
                &&& q.projection is None ==> p.items[i].doc == docs[i]->0
                &&& q.projection matches Some(paths) ==> p.items[i].doc == JsonView::Object(
                    crate::projection::projected(docs[i]->0, paths),
                )
            }),
        (exists|i: int| 0 <= i < docs.len() && #[trigger] docs[i] is None) ==> (query_page(q, docs)
            matches Err(e) && code_status(e.code) == 500),
{
}

/// A count is told under its name.
pub proof fn law_count_is_told(c: CountRun, n: i64, r: Result<Json, ApiError>)
    requires
        call_ensures(CountRun::answer, (c,), r),
        c@.stage == CountStageView::Counted(n),
    ensures
        r matches Ok(j) && member(j@, "count"@) == Some(json_number(n)),
{
}

// ---- Cookies ---------------------------------------------------------------

proof fn lemma_refresh_parts(value: Seq<char>, age: Seq<char>)
    ensures
        "tinylord_refresh="@ + value + "; Path=/v1/auth; HttpOnly; SameSite=Strict; Max-Age="@
            + age == ("tinylord_refresh="@ + value) + "; "@ + "Path=/v1/auth"@ + "; "@
            + "HttpOnly"@ + "; "@ + "SameSite=Strict"@ + "; "@ + ("Max-Age="@ + age),
{
    reveal_strlit("tinylord_refresh=");
    reveal_strlit("; Path=/v1/auth; HttpOnly; SameSite=Strict; Max-Age=");
    reveal_strlit("; ");
    reveal_strlit("Path=/v1/auth");
    reveal_strlit("HttpOnly");
    reveal_strlit("SameSite=Strict");
    reveal_strlit("Max-Age=");
    assert("; Path=/v1/auth; HttpOnly; SameSite=Strict; Max-Age="@ =~= "; "@ + "Path=/v1/auth"@
        + "; "@ + "HttpOnly"@ + "; "@ + "SameSite=Strict"@ + "; "@ + "Max-Age="@);
    assert("tinylord_refresh="@ + value + ("; "@ + "Path=/v1/auth"@ + "; "@ + "HttpOnly"@ + "; "@
        + "SameSite=Strict"@ + "; "@ + "Max-Age="@) + age =~= ("tinylord_refresh="@ + value)
        + "; "@ + "Path=/v1/auth"@ + "; "@ + "HttpOnly"@ + "; "@ + "SameSite=Strict"@ + "; "@ + (
    "Max-Age="@ + age));
}

proof fn lemma_csrf_parts(value: Seq<char>, age: Seq<char>)
    ensures
        "tinylord_csrf="@ + value + "; Path=/; SameSite=Strict; Max-Age="@ + age == (
        "tinylord_csrf="@ + value) + "; "@ + "Path=/"@ + "; "@ + "SameSite=Strict"@ + "; "@ + (
        "Max-Age="@ + age),
{
    reveal_strlit("tinylord_csrf=");
    reveal_strlit("; Path=/; SameSite=Strict; Max-Age=");
    reveal_strlit("; ");
    reveal_strlit("Path=/");
    reveal_strlit("SameSite=Strict");
    reveal_strlit("Max-Age=");
    assert("; Path=/; SameSite=Strict; Max-Age="@ =~= "; "@ + "Path=/"@ + "; "@
        + "SameSite=Strict"@ + "; "@ + "Max-Age="@);
    assert("tinylord_csrf="@ + value + ("; "@ + "Path=/"@ + "; "@ + "SameSite=Strict"@ + "; "@
        + "Max-Age="@) + age =~= ("tinylord_csrf="@ + value) + "; "@ + "Path=/"@ + "; "@
        + "SameSite=Strict"@ + "; "@ + ("Max-Age="@ + age));
}

/// The cookie of the refresh token is sent to where sessions are renewed and nowhere else,
/// is kept from scripts and from other sites, and lasts as long as it is told; where
/// connections are encrypted it is sent over those only.
pub proof fn law_refresh_cookie_is_guarded(value: Seq<char>, age: i64)
    ensures
        refresh_cookie_text(value, age, false) == join(
            seq![
                "tinylord_refresh="@ + value,
                "Path=/v1/auth"@,
                "HttpOnly"@,
                "SameSite=Strict"@,
                "Max-Age="@ + signed_decimal(age as int),
            ],
            "; "@,
        ),
        refresh_cookie_text(value, age, true) == join(
            seq![
                "tinylord_refresh="@ + value,
                "Path=/v1/auth"@,
                "HttpOnly"@,
                "SameSite=Strict"@,
                "Max-Age="@ + signed_decimal(age as int),
                "Secure"@,
            ],
            "; "@,
        ),
{
    let kept = "Max-Age="@ + signed_decimal(age as int);
    let name = "tinylord_refresh="@ + value;
    lemma_refresh_parts(value, signed_decimal(age as int));
    lemma_join5(name, "Path=/v1/auth"@, "HttpOnly"@, "SameSite=Strict"@, kept, "; "@);
    lemma_join6(name, "Path=/v1/auth"@, "HttpOnly"@, "SameSite=Strict"@, kept, "Secure"@, "; "@);
    reveal_strlit("");
    reveal_strlit("; ");
    reveal_strlit("Secure");
    reveal_strlit("; Secure");
    let plain = "tinylord_refresh="@ + value
        + "; Path=/v1/auth; HttpOnly; SameSite=Strict; Max-Age="@ + signed_decimal(age as int);
    assert(plain + ""@ =~= plain);
    assert(plain + "; Secure"@ =~= plain + "; "@ + "Secure"@);
}

/// The cookie of the token against forged requests is sent everywhere on the site and to no
/// other, and the application can read it.
pub proof fn law_csrf_cookie_is_readable(value: Seq<char>, age: i64)
    ensures
        csrf_cookie_text(value, age, false) == join(
            seq![
                "tinylord_csrf="@ + value,
                "Path=/"@,
                "SameSite=Strict"@,
                "Max-Age="@ + signed_decimal(age as int),
            ],
            "; "@,
        ),
        csrf_cookie_text(value, age, true) == join(
            seq![
                "tinylord_csrf="@ + value,
                "Path=/"@,
                "SameSite=Strict"@,
                "Max-Age="@ + signed_decimal(age as int),
                "Secure"@,
            ],
            "; "@,
        ),
{
    let kept = "Max-Age="@ + signed_decimal(age as int);
    let name = "tinylord_csrf="@ + value;
    lemma_csrf_parts(value, signed_decimal(age as int));
    crate::engine::lemma_join4(name, "Path=/"@, "SameSite=Strict"@, kept, "; "@);
    lemma_join5(name, "Path=/"@, "SameSite=Strict"@, kept, "Secure"@, "; "@);
    reveal_strlit("");
    reveal_strlit("; ");
    reveal_strlit("Secure");
    reveal_strlit("; Secure");
    let plain = "tinylord_csrf="@ + value + "; Path=/; SameSite=Strict; Max-Age="@
        + signed_decimal(age as int);
    assert(plain + ""@ =~= plain);
    assert(plain + "; Secure"@ =~= plain + "; "@ + "Secure"@);
}

// ---- Signing in ------------------------------------------------------------

/// A name is a user name exactly when it has three to 64 characters, each of them a letter
/// or a digit of ASCII, an underscore or a hyphen.
pub proof fn law_user_names(s: Seq<char>)
    ensures
        s.len() < 3 ==> !username_ok(s),
        s.len() > 64 ==> !username_ok(s),
        forall|i: int|
            0 <= i < s.len() && !('a' <= s[i] <= 'z' || 'A' <= s[i] <= 'Z' || '0' <= s[i] <= '9'
                || s[i] == '_' || s[i] == '-') ==> !username_ok(s),
        3 <= s.len() <= 64 && (forall|i: int|
            0 <= i < s.len() ==> ('a' <= #[trigger] s[i] <= 'z' || 'A' <= s[i] <= 'Z' || '0'
                <= s[i] <= '9' || s[i] == '_' || s[i] == '-')) ==> username_ok(s),
{
}

/// A password is taken by its bytes: from twelve to 1024 of them, whatever they are. What
/// is taken is kept as its hash; what is not is a fault of the client.
pub proof fn law_passwords(password: Seq<char>, hash: Seq<char>)
    ensures
        password_ok(password) <==> 11 < encode_utf8(password).len() < 1025,
        password_ok(password) ==> password_outcome(password, Some(hash)) == Ok::<
            Seq<char>,
            ErrorView,
        >(hash),
        !password_ok(password) ==> (password_outcome(password, Some(hash)) matches Err(e)
            && code_status(e.code) == 400),
        password_outcome(password, None) is Err,
{
}

/// A login that fails is answered 401, and in the same words whether the name is unknown or
/// the password wrong; one that succeeds is of the user of that name.
pub proof fn law_logins(id: Seq<char>, matches: bool)
    ensures
        login_outcome(Some(id), true) == Ok::<Seq<char>, ErrorView>(id),
        login_outcome(Some(id), false) == login_outcome(None, matches),
        login_outcome(None, matches) matches Err(e) && code_status(e.code) == 401,
{
}

/// Nobody signs in without the password of the user.
pub proof fn law_password_is_needed(id: Seq<char>, hash: Seq<char>, password: Seq<char>)
    ensures
        signed_in(None, password) is None,
        signed_in(Some((id, hash)), password) is Some ==> signed_in(Some((id, hash)), password)
            == Some(id) && crate::browser_auth::opens(password, hash),
        crate::browser_auth::opens(password, hash) ==> signed_in(Some((id, hash)), password) is Some,
{
}

// ---- Limits ----------------------------------------------------------------

/// A document is too large exactly when there is a limit and the document exceeds it: one
/// of just that size passes, and where one passes every smaller one does.
pub proof fn law_document_limit(bytes: nat, smaller: nat, max: u64)
    ensures
        !over_limit(bytes, 0),
        !over_limit(max as nat, max),
        max > 0 ==> over_limit((max + 1) as nat, max),
        smaller <= bytes && !over_limit(bytes, max) ==> !over_limit(smaller, max),
{
}

/// Whoever has to wait is told a number of whole seconds that is enough: more than the
/// whole seconds of the wait, and not more than one above them.
pub proof fn law_wait_is_rounded_up(secs: u64)
    ensures
        rate_outcome(None) is Ok,
        rate_outcome(Some(secs)) matches Err(n) && secs < n <= secs + 1,
{
}

// ---- Indexes ---------------------------------------------------------------

/// An index is made over what a filter on the path reads, in the table of the collection,
/// and forbids equal values exactly when it is to be unique.
pub proof fn law_index_is_over_what_filters_read(c: CreateIndexView)
    ensures
        create_index_sql(c) == (if c.unique {
            "CREATE UNIQUE INDEX "@
        } else {
            "CREATE INDEX "@
        }) + c.name + " ON "@ + ("coll_"@ + c.collection) + " ("@ + expr_text(
            Expr::Call2(
                "json_extract"@,
                Box::new(Expr::Column("doc"@)),
                Box::new(Expr::Quoted(c.path)),
            ),
        ) + ")"@,
{
    reveal_with_fuel(expr_text, 2);
    reveal_strlit("");
    reveal_strlit("CREATE ");
    reveal_strlit("UNIQUE ");
    reveal_strlit("INDEX ");
    reveal_strlit("CREATE UNIQUE INDEX ");
    reveal_strlit("CREATE INDEX ");
    reveal_strlit(" ON ");
    reveal_strlit("coll_");
    reveal_strlit(" ON coll_");
    reveal_strlit(" (json_extract(doc, '");
    reveal_strlit(" (");
    reveal_strlit("json_extract");
    reveal_strlit("(");
    reveal_strlit("doc");
    reveal_strlit(", ");
    reveal_strlit("'");
    reveal_strlit(")");
    reveal_strlit("'))");
    assert("CREATE "@ + "UNIQUE "@ + "INDEX "@ =~= "CREATE UNIQUE INDEX "@);
    assert("CREATE "@ + ""@ + "INDEX "@ =~= "CREATE INDEX "@);
    assert(" ON coll_"@ =~= " ON "@ + "coll_"@);
    assert(" (json_extract(doc, '"@ =~= " ("@ + "json_extract"@ + "("@ + "doc"@ + ", "@ + "'"@);
    assert("'))"@ =~= "'"@ + ")"@ + ")"@);
    let head = if c.unique {
        "CREATE UNIQUE INDEX "@
    } else {
        "CREATE INDEX "@
    };
    assert(create_index_sql(c) =~= head + c.name + (" ON "@ + "coll_"@) + c.collection + (" ("@
        + "json_extract"@ + "("@ + "doc"@ + ", "@ + "'"@) + c.path + ("'"@ + ")"@ + ")"@));
}

// ---- The description of the interface --------------------------------------

/// The interface is described in the third version of the format, under the name of the
/// server, with its routes, and requests are said to bear tokens.
pub proof fn law_interface_is_described()
    ensures
        member(openapi_view(), "openapi"@) == Some(JsonView::Text("3.1.0"@)),
        member(openapi_view(), "info"@) matches Some(info) && member(info, "title"@) == Some(
            JsonView::Text("tinylord"@),
        ),
        member(openapi_view(), "paths"@) == Some(JsonView::Object(paths_map(all_routes()))),
        reached(
            openapi_view(),
            seq!["components"@, "securitySchemes"@, "BearerAuth"@, "scheme"@],
        ) == Some(JsonView::Text("bearer"@)),
{
    reveal_strlit("openapi");
    reveal_strlit("info");
    reveal_strlit("components");
    reveal_strlit("paths");
    assert("openapi"@.len() == 7);
    assert("info"@.len() == 4);
    assert("components"@.len() == 10);
    assert("paths"@.len() == 5);
    reveal_strlit("title");
    reveal_strlit("version");
    reveal_strlit("description");
    assert("title"@.len() == 5 && "version"@.len() == 7 && "description"@.len() == 11);
    reveal_strlit("type");
    reveal_strlit("scheme");
    assert("type"@.len() == 4 && "scheme"@.len() == 6);
    reveal_with_fuel(reached, 5);
    let path = seq!["components"@, "securitySchemes"@, "BearerAuth"@, "scheme"@];
    assert(path.skip(1) =~= seq!["securitySchemes"@, "BearerAuth"@, "scheme"@]);
    assert(path.skip(1).skip(1) =~= seq!["BearerAuth"@, "scheme"@]);
    assert(path.skip(1).skip(1).skip(1) =~= seq!["scheme"@]);
    assert(path.skip(1).skip(1).skip(1).skip(1) =~= Seq::empty());
}

} // verus!
