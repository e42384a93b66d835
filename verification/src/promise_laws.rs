//! What single functions promise, for every result that they may return.

use crate::admin::{
    api_not_found, delete_grant, delete_principal, grant_deleted, health, password_reset,
    snapshot, DeleteGrantBody,
};
use crate::auth::{AdminPrincipal, Principal};
use crate::browser_auth::{
    clear_csrf_cookie, clear_refresh_cookie, login_key, me, opens, require_ended,
    require_registration, require_try, verify_login,
};
use crate::cli::{parse_role, require_database};
use crate::control_laws::role_word;
use crate::documents::{create_command, delete_command, Answer};
use crate::engine::{deletes, Engine, Row};
use crate::errors::{code_status, ApiError};
use crate::files::{database_file_name, files_of_database, snapshot_file_name};
use crate::ids::name_ok;
use crate::index_op::{checkpoint_statement, snapshot_statement};
use crate::indexes::dropped;
use crate::json::{member, Json, JsonView, NumberView};
use crate::pubsub::{client_view, ensure_enabled, publish_answer, roster_json, PresenceClient};
use crate::sql::{Mode, Reply, ReplyView, Statement, ValueView};
use crate::system::{law_role_names_are_read_back, ungranting, BrowserUser, Role};
use crate::text::views;
use crate::writer::{CommandView, WriteCommand};
use vstd::prelude::*;

verus! {

// ---- Who may do what -------------------------------------------------------

/// What is kept for administrators is open to them, and answered 403 to anyone else.
pub proof fn law_administrators_only(
    p: Principal,
    r: Result<(), ApiError>,
    a: Result<AdminPrincipal, ApiError>,
)
    requires
        call_ensures(Principal::require_admin, (&p,), r),
        call_ensures(AdminPrincipal::from_principal, (p,), a),
    ensures
        r is Ok <==> p.is_admin,
        a is Ok <==> p.is_admin,
        r matches Err(e) ==> code_status(e@.code) == 403,
        a matches Err(e) ==> code_status(e@.code) == 403,
        a matches Ok(x) ==> x.0@ == p@,
{
}

/// Whoever signs in gives the password of the user; anyone else is answered 401.
pub proof fn law_signing_in(
    user: Option<(BrowserUser, String)>,
    password: &str,
    r: Result<BrowserUser, ApiError>,
)
    requires
        call_ensures(verify_login, (user, password), r),
    ensures
        r matches Ok(u) ==> (user matches Some(known) && known.0.id@ == u.id@ && opens(
            password@,
            known.1@,
        )),
        r matches Err(e) ==> code_status(e@.code) == 401,
        user is None ==> r is Err,
        user matches Some(known) ==> (opens(password@, known.1@) ==> r is Ok),
{
}

/// A login that is closed is answered 429, to be tried again in a minute.
pub proof fn law_closed_login(allowed: bool, r: Result<(), ApiError>)
    requires
        call_ensures(require_try, (allowed,), r),
    ensures
        r is Ok <==> allowed,
        r matches Err(e) ==> code_status(e@.code) == 429 && e@.retry_after_secs == Some(60u64),
{
}

/// Logins are counted by address and user name together.
pub proof fn law_logins_are_counted_apart(
    address: &str,
    username: &str,
    other: &str,
    a: String,
    b: String,
)
    requires
        call_ensures(login_key, (address, username), a),
        call_ensures(login_key, (address, other), b),
        username@ != other@,
    ensures
        a@ != b@,
        a@.len() == address@.len() + 1 + username@.len(),
{
    reveal_strlit(":");
    let n = (address@ + ":"@).len() as int;
    assert(a@.skip(n) =~= username@);
    assert(b@.skip(n) =~= other@);
}

/// Registering is open or answered 403; channels are open or not found; ending a session
/// that is not known is answered 401.
pub proof fn law_what_is_switched_off(
    on: bool,
    registration: Result<(), ApiError>,
    channels: Result<(), ApiError>,
    ended: Result<(), ApiError>,
)
    requires
        call_ensures(require_registration, (on,), registration),
        call_ensures(ensure_enabled, (on,), channels),
        call_ensures(require_ended, (on,), ended),
    ensures
        registration is Ok <==> on,
        channels is Ok <==> on,
        ended is Ok <==> on,
        registration matches Err(e) ==> code_status(e@.code) == 403,
        channels matches Err(e) ==> code_status(e@.code) == 404,
        ended matches Err(e) ==> code_status(e@.code) == 401,
{
}

// ---- Answers ---------------------------------------------------------------

/// Disabling a principal is answered 204 where there is one and 404 where there is none;
/// taking a grant back is answered 204 either way.
pub proof fn law_what_is_taken_away(
    reply: Reply,
    principal: Result<Answer, ApiError>,
    grant: Result<Answer, ApiError>,
    rows: u64,
    key: i64,
)
    requires
        call_ensures(delete_principal, (&reply,), principal),
        call_ensures(grant_deleted, (&reply,), grant),
        reply@ == (ReplyView::Changed { rows, last_rowid: key }),
    ensures
        rows > 0 ==> (principal matches Ok(a) && a@.status == 204 && a@.body is None),
        rows == 0 ==> (principal matches Err(e) && code_status(e@.code) == 404),
        grant matches Ok(a) && a@.status == 204 && a@.body is None,
{
}

/// A password that was set is answered with the user, and one of a user who is not there
/// with 404.
pub proof fn law_password_is_answered(
    name: &str,
    user: Option<BrowserUser>,
    r: Result<Answer, ApiError>,
)
    requires
        call_ensures(password_reset, (name, user), r),
    ensures
        user is None ==> (r matches Err(e) && code_status(e@.code) == 404),
        user matches Some(u) ==> (r matches Ok(a) && a@.status == 200 && member(
            a@.body->0,
            "id"@,
        ) == Some(JsonView::Text(u.id@)) && member(a@.body->0, "name"@) == Some(
            JsonView::Text(name@),
        )),
{
    reveal_strlit("id");
    reveal_strlit("name");
    assert("id"@.len() == 2 && "name"@.len() == 4);
}

/// An index that was dropped is answered 204, and one that was not there 404.
pub proof fn law_dropped_index_is_answered(found: bool, r: Result<Answer, ApiError>)
    requires
        call_ensures(dropped, (found,), r),
    ensures
        found ==> (r matches Ok(a) && a@.status == 204 && a@.body is None),
        !found ==> (r matches Err(e) && code_status(e@.code) == 404),
{
}

/// A copy of a database is answered with its path and its size, the health of the server
/// with `ok`, and a route that is not there with 404.
pub proof fn law_operators_are_answered(path: &str, bytes: u64, s: Answer, h: Answer, e: ApiError)
    requires
        call_ensures(snapshot, (path, bytes), s),
        call_ensures(health, (), h),
        call_ensures(api_not_found, (), e),
    ensures
        s@.status == 200,
        member(s@.body->0, "path"@) == Some(JsonView::Text(path@)),
        member(s@.body->0, "bytes"@) == Some(JsonView::Number(NumberView::PosInt(bytes))),
        h@.status == 200,
        member(h@.body->0, "status"@) == Some(JsonView::Text("ok"@)),
        code_status(e@.code) == 404,
{
    reveal_strlit("path");
    reveal_strlit("bytes");
    assert("path"@.len() == 4 && "bytes"@.len() == 5);
}

/// Whoever asks who they are is told their identifier and their name.
pub proof fn law_who_one_is(id: &str, name: &str, r: Json)
    requires
        call_ensures(me, (id, name), r),
    ensures
        member(r@, "id"@) == Some(JsonView::Text(id@)),
        member(r@, "name"@) == Some(JsonView::Text(name@)),
{
    reveal_strlit("id");
    reveal_strlit("name");
    assert("id"@.len() == 2 && "name"@.len() == 4);
}

/// Whoever publishes is told how many were reached, and a roster tells every client that is
/// present.
pub proof fn law_channels_are_answered(n: u64, r: Json, clients: Vec<PresenceClient>, roster: Json)
    requires
        call_ensures(publish_answer, (n,), r),
        call_ensures(roster_json, (&clients,), roster),
    ensures
        member(r@, "delivered"@) == Some(JsonView::Number(NumberView::PosInt(n))),
        member(roster@, "clients"@) matches Some(JsonView::Array(list)) && list.len()
            == clients@.len() && forall|i: int|
            0 <= i < list.len() ==> #[trigger] list[i] == client_view(
                clients@[i].client_id@,
                clients@[i].connected_at,
            ),
{
}

// ---- Cookies that end ------------------------------------------------------

/// A browser that signs out is told to forget both cookies: they are empty and last no
/// longer.
pub proof fn law_cookies_are_cleared(secure: bool, a: String, b: String)
    requires
        call_ensures(clear_refresh_cookie, (secure,), a),
        call_ensures(clear_csrf_cookie, (secure,), b),
    ensures
        a@ == crate::browser_auth::refresh_cookie_text(Seq::empty(), 0, secure),
        b@ == crate::browser_auth::csrf_cookie_text(Seq::empty(), 0, secure),
{
    reveal_strlit("");
    assert(""@ =~= Seq::<char>::empty());
}

// ---- Statements and files --------------------------------------------------

/// An administrator takes back exactly the grant of the principal on the database.
pub proof fn law_grant_is_taken_back_on_request(body: DeleteGrantBody, r: Statement)
    requires
        call_ensures(delete_grant, (&body,), r),
    ensures
        deletes(
            r@,
            "grants"@,
            |e: Engine, row: Row|
                row["principal_id"@] == ValueView::Text(body.principal_id@)
                    && row["database_name"@] == ValueView::Text(body.database@),
        ),
{
    crate::control_laws::law_grant_is_taken_back(body.principal_id@, body.database@);
    assert(r@ == ungranting(body.principal_id@, body.database@));
}

/// A copy goes into the file that is named, quoted; a checkpoint empties what was written
/// ahead.
pub proof fn law_statements_of_the_writer(dest: &str, s: Statement, c: Statement)
    requires
        call_ensures(snapshot_statement, (dest,), s),
        call_ensures(checkpoint_statement, (), c),
    ensures
        s@.mode == Mode::Batch,
        s@.sql == "VACUUM INTO "@ + (seq!['\''] + crate::index_op::doubled_quotes(dest@) + seq![
            '\'',
        ]),
        c@.mode == Mode::Batch,
        c@.sql == "PRAGMA "@ + "wal_checkpoint(TRUNCATE)"@,
{
    reveal_strlit("VACUUM INTO '");
    reveal_strlit("VACUUM INTO ");
    reveal_strlit("'");
    reveal_strlit("PRAGMA ");
    reveal_strlit("wal_checkpoint(TRUNCATE)");
    reveal_strlit("PRAGMA wal_checkpoint(TRUNCATE)");
    assert(s@.sql =~= "VACUUM INTO "@ + (seq!['\''] + crate::index_op::doubled_quotes(dest@)
        + seq!['\'']));
    assert("PRAGMA wal_checkpoint(TRUNCATE)"@ =~= "PRAGMA "@ + "wal_checkpoint(TRUNCATE)"@);
}

/// Databases of different names lie in different files, each of which is taken for a
/// database; with a database go its file and the two beside it.
pub proof fn law_files_of_databases(a: &str, b: &str, x: String, y: String, all: Vec<String>)
    requires
        call_ensures(database_file_name, (a,), x),
        call_ensures(database_file_name, (b,), y),
        call_ensures(files_of_database, (a,), all),
    ensures
        a@ != b@ ==> x@ != y@,
        x@.len() == a@.len() + 3,
        x@.take(a@.len() as int) == a@,
        crate::files::database_file(x@),
        views(all@).len() == 3,
        views(all@)[0] == a@,
{
    reveal_strlit(".db");
    assert(x@.take(a@.len() as int) =~= a@);
    assert(y@.take(b@.len() as int) =~= b@);
    assert(x@.len() == a@.len() + 3 && y@.len() == b@.len() + 3);
}

/// A copy is named by its database and is taken for a database.
pub proof fn law_copies_are_named(db: &str, fresh: &str, r: String)
    requires
        call_ensures(snapshot_file_name, (db, fresh), r),
    ensures
        r@ == db@ + (seq!['-'] + fresh@ + seq!['.', 'd', 'b']),
        crate::files::database_file(r@),
{
    reveal_strlit("-");
    reveal_strlit(".db");
    assert(r@ =~= db@ + (seq!['-'] + fresh@ + seq!['.', 'd', 'b']));
    assert(r@.skip(r@.len() - 3) =~= ".db"@);
}

// ---- The operator ----------------------------------------------------------

/// The operator names a role by its word, and nothing else is one.
pub proof fn law_roles_of_the_operator(s: &str, role: Role, r: Result<Role, &'static str>)
    requires
        call_ensures(parse_role, (s,), r),
    ensures
        s@ == role_word(role) ==> r == Ok::<Role, &'static str>(role),
        s@ != "read"@ && s@ != "write"@ && s@ != "admin"@ ==> r is Err,
{
    law_role_names_are_read_back(role);
}

/// The operator is refused a database that is not there.
pub proof fn law_databases_of_the_operator(name: &str, n: i64, r: Result<(), String>)
    requires
        call_ensures(require_database, (name, n), r),
    ensures
        r is Ok <==> n >= 1,
{
}

// ---- Requests to the writer ------------------------------------------------

/// A document that is taken is handed to the writer as it came; a deletion names the
/// document.
pub proof fn law_requests_are_handed_over(
    coll: String,
    id: String,
    body: Json,
    text: String,
    max: u64,
    c: Result<WriteCommand, ApiError>,
    d: Result<WriteCommand, ApiError>,
)
    requires
        call_ensures(create_command, (coll, body, text, max), c),
        call_ensures(delete_command, (coll, id), d),
    ensures
        c matches Ok(w) ==> w@ == (CommandView::Create {
            collection: coll@,
            doc: body@,
            doc_text: text@,
        }),
        d is Ok <==> name_ok(coll@),
        d matches Ok(w) ==> w@ == (CommandView::Delete { collection: coll@, id: id@ }),
        d matches Err(e) ==> code_status(e@.code) == 400,
{
}

} // verus!
