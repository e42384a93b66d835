//! The control plane: which databases, principals, and grants there are.
//!
//! Each operation of one statement is a function that gives the statement and a
//! function that reads the reply. What goes wrong here is internal to clients.

use crate::auth::{Principal, PrincipalView};
use crate::errors::{conflict_error, internal_error, ApiError, ApiResult, ErrorView};
use crate::ids::{new_ulid, now_ms, ulid_text};
use crate::secret::{random_bytes, Secret};
use crate::sql::{
    cell_int, cell_optional_text, cell_text, changed_rows, execute, execute_view, failed, get_int,
    get_optional_text, get_text, no_params, params1, params2, params3, params5, push_value, query,
    query_view, reply_rows, rows_view, scalar_int, text_value, text_view, value_views, Reply,
    ReplyView, Statement, StatementView, Value, ValueView,
};
use crate::text::{contains_text, occurs, same};
use crate::tokens::{base64url, hash_token, token_hash, token_of};
use vstd::prelude::*;

verus! {

// ---- Roles -----------------------------------------------------------------

/// What a principal may do on a database; each role can do what the one before it
/// can.
#[derive(Debug, Clone, Copy, PartialEq, Eq, PartialOrd, Ord, Structural)]
pub enum Role {
    Read,
    Write,
    Admin,
}

pub open spec fn role_name(role: Role) -> Seq<char> {
    match role {
        Role::Read => "read"@,
        Role::Write => "write"@,
        Role::Admin => "admin"@,
    }
}

/// The place of a role in their order.
pub open spec fn role_rank(role: Role) -> int {
    match role {
        Role::Read => 0,
        Role::Write => 1,
        Role::Admin => 2,
    }
}

/// The role with this name.
pub open spec fn named_role(s: Seq<char>) -> Option<Role> {
    if s == "read"@ {
        Some(Role::Read)
    } else if s == "write"@ {
        Some(Role::Write)
    } else if s == "admin"@ {
        Some(Role::Admin)
    } else {
        None
    }
}

impl Role {
    pub fn as_str(self) -> (r: &'static str)
        ensures
            r@ == role_name(self),
    {
        match self {
            Role::Read => "read",
            Role::Write => "write",
            Role::Admin => "admin",
        }
    }

    pub fn parse(s: &str) -> (r: Option<Role>)
        ensures
            r == named_role(s@),
    {
        if same(s, "read") {
            Some(Role::Read)
        } else if same(s, "write") {
            Some(Role::Write)
        } else if same(s, "admin") {
            Some(Role::Admin)
        } else {
            None
        }
    }

    /// Whether the role can do what `needed` can.
    pub fn covers(self, needed: Role) -> (r: bool)
        ensures
            r == (role_rank(self) >= role_rank(needed)),
    {
        match needed {
            Role::Read => true,
            Role::Write => matches!(self, Role::Write | Role::Admin),
            Role::Admin => matches!(self, Role::Admin),
        }
    }
}

/// The name of a role is read as that role.
pub proof fn law_role_names_are_read_back(role: Role)
    ensures
        named_role(role_name(role)) == Some(role),
{
    reveal_strlit("read");
    reveal_strlit("write");
    reveal_strlit("admin");
    assert("read"@[0] == 'r' && "write"@[0] == 'w' && "admin"@[0] == 'a');
}

// ---- Records ---------------------------------------------------------------

/// A user who signs in with a password.
#[derive(Debug)]
pub struct BrowserUser {
    pub id: String,
}

/// A registered database.
#[derive(Debug)]
pub struct DatabaseRecord {
    pub name: String,
    pub created_at: i64,
}

/// A principal as an administrator sees it.
#[derive(Debug)]
pub struct PrincipalRecord {
    pub id: String,
    pub name: String,
    /// The name that a browser user signs in with; none for a token principal.
    pub username: Option<String>,
    pub is_admin: bool,
    pub disabled: bool,
    pub created_at: i64,
}

#[verifier::ext_equal]
pub struct PrincipalRecordView {
    pub id: Seq<char>,
    pub name: Seq<char>,
    pub username: Option<Seq<char>>,
    pub is_admin: bool,
    pub disabled: bool,
    pub created_at: i64,
}

impl View for PrincipalRecord {
    type V = PrincipalRecordView;

    open spec fn view(&self) -> PrincipalRecordView {
        PrincipalRecordView {
            id: self.id@,
            name: self.name@,
            username: text_view(self.username),
            is_admin: self.is_admin,
            disabled: self.disabled,
            created_at: self.created_at,
        }
    }
}

pub open spec fn principal_record(row: Seq<ValueView>) -> Option<PrincipalRecordView> {
    match (
        cell_text(row, 0),
        cell_text(row, 1),
        cell_optional_text(row, 2),
        cell_int(row, 3),
        cell_int(row, 4),
        cell_int(row, 5),
    ) {
        (Some(id), Some(name), Some(username), Some(admin), Some(disabled), Some(created_at)) =>
            Some(
            PrincipalRecordView {
                id,
                name,
                username,
                is_admin: admin != 0,
                disabled: disabled != 0,
                created_at,
            },
        ),
        _ => None,
    }
}

fn row_to_principal(row: &Vec<Value>) -> (r: Option<PrincipalRecord>)
    ensures
        match r {
            Some(p) => principal_record(value_views(row@)) == Some(p@),
            None => principal_record(value_views(row@)) is None,
        },
{
    match (
        get_text(row, 0),
        get_text(row, 1),
        get_optional_text(row, 2),
        get_int(row, 3),
        get_int(row, 4),
        get_int(row, 5),
    ) {
        (Some(id), Some(name), Some(username), Some(admin), Some(disabled), Some(created_at)) =>
            Some(
            PrincipalRecord {
                id,
                name,
                username,
                is_admin: admin != 0,
                disabled: disabled != 0,
                created_at,
            },
        ),
        _ => None,
    }
}

// ---- Reading replies -------------------------------------------------------

/// A statement that changes rows succeeded, or it is an internal error.
pub fn done(reply: &Reply) -> (r: ApiResult<()>)
    ensures
        match r {
            Ok(_) => !failed(reply@),
            Err(e) => failed(reply@) && e@ == internal_error(),
        },
{
    if reply.is_failed() {
        Err(ApiError::internal())
    } else {
        Ok(())
    }
}

/// Whether a statement changed any row.
pub open spec fn changed_any(r: ReplyView) -> Result<bool, ErrorView> {
    if failed(r) {
        Err(internal_error())
    } else {
        Ok(changed_rows(r) > 0)
    }
}

/// Whether a statement changed any row.
pub fn changed(reply: &Reply) -> (r: ApiResult<bool>)
    ensures
        match r {
            Ok(b) => changed_any(reply@) == Ok::<bool, ErrorView>(b),
            Err(e) => changed_any(reply@) == Err::<bool, ErrorView>(e@),
        },
{
    if reply.is_failed() {
        Err(ApiError::internal())
    } else {
        Ok(reply.changed_rows() > 0)
    }
}

/// The number that came back.
pub open spec fn counted_rows(r: ReplyView) -> Result<i64, ErrorView> {
    match scalar_int(r) {
        Some(n) => Ok(n),
        None => Err(internal_error()),
    }
}

/// The number that came back.
pub fn counted(reply: &Reply) -> (r: ApiResult<i64>)
    ensures
        match r {
            Ok(n) => counted_rows(reply@) == Ok::<i64, ErrorView>(n),
            Err(e) => counted_rows(reply@) == Err::<i64, ErrorView>(e@),
        },
{
    match reply.scalar_int() {
        Some(n) => Ok(n),
        None => Err(ApiError::internal()),
    }
}

/// The text in the first cell of the first row, if there is one.
pub open spec fn first_text(r: ReplyView) -> Option<Seq<char>> {
    let rows = reply_rows(r);
    if rows.len() > 0 {
        cell_text(rows[0], 0)
    } else {
        None
    }
}

/// The text in the first cell of the first row, if there is one.
pub fn leading_text(reply: &Reply) -> (r: Option<String>)
    ensures
        text_view(r) == first_text(reply@),
{
    match reply.rows() {
        Some(rows) => {
            if rows.len() > 0 {
                assert(rows_view(rows@)[0] == value_views(rows@[0]@));
                get_text(&rows[0], 0)
            } else {
                None
            }
        },
        None => None,
    }
}

// ---- The control plane -----------------------------------------------------

/// The principal that a row of `id, name, is_admin, disabled` describes; none when
/// it is disabled.
pub open spec fn principal_row(row: Seq<ValueView>) -> Option<Option<PrincipalView>> {
    match (cell_text(row, 0), cell_text(row, 1), cell_int(row, 2), cell_int(row, 3)) {
        (Some(id), Some(name), Some(admin), Some(disabled)) => Some(
            if disabled != 0 {
                None
            } else {
                Some(PrincipalView { id, name, is_admin: admin != 0 })
            },
        ),
        _ => None,
    }
}

/// The principal that a lookup found.
pub open spec fn found_principal(r: ReplyView) -> Result<Option<PrincipalView>, ErrorView> {
    if failed(r) {
        Err(internal_error())
    } else if reply_rows(r).len() == 0 {
        Ok(None)
    } else {
        match principal_row(reply_rows(r)[0]) {
            Some(p) => Ok(p),
            None => Err(internal_error()),
        }
    }
}

/// A principal that is disabled is nobody, whatever else its row says.
pub proof fn law_disabled_principal_is_nobody(r: ReplyView, disabled: i64)
    requires
        !failed(r),
        reply_rows(r).len() > 0,
        principal_row(reply_rows(r)[0]) is Some,
        cell_int(reply_rows(r)[0], 3) == Some(disabled),
        disabled != 0,
    ensures
        found_principal(r) == Ok::<Option<PrincipalView>, ErrorView>(None),
{
}

pub open spec fn optional_principal(p: Option<Principal>) -> Option<PrincipalView> {
    match p {
        Some(x) => Some(x@),
        None => None,
    }
}

/// A principal that is about to be entered: its token is shown once, and only the
/// hash of it is in the statement.
#[derive(Debug)]
pub struct NewPrincipal {
    pub id: String,
    pub token: Secret,
    pub insert: Statement,
}

/// The statement that enters a token principal.
pub open spec fn insert_principal(
    id: Seq<char>,
    name: Seq<char>,
    is_admin: bool,
    token: Seq<char>,
    now: i64,
) -> StatementView {
    execute_view(
        "INSERT INTO principals (id, name, is_admin, token_hash, disabled, created_at) VALUES (?1, ?2, ?3, ?4, 0, ?5)"@,
        seq![
            ValueView::Text(id),
            ValueView::Text(name),
            ValueView::Integer(
                if is_admin {
                    1
                } else {
                    0
                },
            ),
            ValueView::Text(token_hash(token)),
            ValueView::Integer(now),
        ],
    )
}

/// A browser user that is about to be entered.
#[derive(Debug)]
pub struct NewBrowserUser {
    pub user: BrowserUser,
    pub insert: Statement,
}

/// The statement that enters a browser user. It has a token that nobody knows.
pub open spec fn insert_browser_user(
    id: Seq<char>,
    username: Seq<char>,
    token: Seq<char>,
    now: i64,
    password_hash: Seq<char>,
) -> StatementView {
    execute_view(
        "INSERT INTO principals (id, name, is_admin, token_hash, disabled, created_at, username, password_hash) VALUES (?1, ?2, 0, ?3, 0, ?4, ?5, ?6)"@,
        seq![
            ValueView::Text(id),
            ValueView::Text(username),
            ValueView::Text(token_hash(token)),
            ValueView::Integer(now),
            ValueView::Text(username),
            ValueView::Text(password_hash),
        ],
    )
}

/// The name of a user is taken.
pub open spec fn name_taken(reply: Reply) -> bool {
    reply matches Reply::Failed(f) && occurs(f.message@, "UNIQUE constraint failed"@)
}

/// The statement that lists principals, all of them or those whose name or user name
/// holds a text, whatever its case. The text is bound as it came, and none of its
/// characters stands for others.
pub open spec fn list_statement(filter: Option<Seq<char>>) -> StatementView {
    match filter {
        Some(q) => query_view(
            "SELECT id, name, username, is_admin, disabled, created_at FROM principals WHERE instr(lower(name), lower(?1)) > 0 OR instr(lower(username), lower(?1)) > 0 ORDER BY name"@,
            seq![ValueView::Text(q)],
        ),
        None => query_view(
            "SELECT id, name, username, is_admin, disabled, created_at FROM principals ORDER BY name"@,
            Seq::empty(),
        ),
    }
}

pub open spec fn record_views(v: Seq<PrincipalRecord>) -> Seq<PrincipalRecordView> {
    Seq::new(v.len(), |i: int| v[i]@)
}

/// Every row describes a principal.
pub open spec fn principals_readable(rows: Seq<Seq<ValueView>>) -> bool {
    forall|i: int| 0 <= i < rows.len() ==> principal_record(#[trigger] rows[i]) is Some
}

/// The principals that came back.
pub open spec fn listed_principals(r: ReplyView) -> Result<Seq<PrincipalRecordView>, ErrorView> {
    if failed(r) || !principals_readable(reply_rows(r)) {
        Err(internal_error())
    } else {
        Ok(Seq::new(reply_rows(r).len(), |i: int| principal_record(reply_rows(r)[i])->0))
    }
}

/// What a row of two texts says.
pub open spec fn text_pair(row: Seq<ValueView>) -> Option<(Seq<char>, Seq<char>)> {
    match (cell_text(row, 0), cell_text(row, 1)) {
        (Some(a), Some(b)) => Some((a, b)),
        _ => None,
    }
}

pub open spec fn pairs_readable(rows: Seq<Seq<ValueView>>) -> bool {
    forall|i: int| 0 <= i < rows.len() ==> text_pair(#[trigger] rows[i]) is Some
}

pub open spec fn pair_views(v: Seq<(String, String)>) -> Seq<(Seq<char>, Seq<char>)> {
    Seq::new(v.len(), |i: int| (v[i].0@, v[i].1@))
}

/// The grants that came back, as databases and roles.
pub open spec fn listed_grants(r: ReplyView) -> Result<Seq<(Seq<char>, Seq<char>)>, ErrorView> {
    if failed(r) || !pairs_readable(reply_rows(r)) {
        Err(internal_error())
    } else {
        Ok(Seq::new(reply_rows(r).len(), |i: int| text_pair(reply_rows(r)[i])->0))
    }
}

/// What a row of a database says.
pub open spec fn database_row(row: Seq<ValueView>) -> Option<(Seq<char>, i64)> {
    match (cell_text(row, 0), cell_int(row, 1)) {
        (Some(name), Some(created_at)) => Some((name, created_at)),
        _ => None,
    }
}

pub open spec fn databases_readable(rows: Seq<Seq<ValueView>>) -> bool {
    forall|i: int| 0 <= i < rows.len() ==> database_row(#[trigger] rows[i]) is Some
}

pub open spec fn database_views(v: Seq<DatabaseRecord>) -> Seq<(Seq<char>, i64)> {
    Seq::new(v.len(), |i: int| (v[i].name@, v[i].created_at))
}

/// The databases that came back.
pub open spec fn listed_databases(r: ReplyView) -> Result<Seq<(Seq<char>, i64)>, ErrorView> {
    if failed(r) || !databases_readable(reply_rows(r)) {
        Err(internal_error())
    } else {
        Ok(Seq::new(reply_rows(r).len(), |i: int| database_row(reply_rows(r)[i])->0))
    }
}

/// The user that signs in under a name, and the hash of the password.
pub open spec fn found_user(r: ReplyView) -> Result<
    Option<(Seq<char>, Seq<char>)>,
    ErrorView,
> {
    if failed(r) {
        Err(internal_error())
    } else if reply_rows(r).len() == 0 {
        Ok(None)
    } else {
        match text_pair(reply_rows(r)[0]) {
            Some(p) => Ok(Some(p)),
            None => Err(internal_error()),
        }
    }
}

/// The control plane.
pub struct System;

impl System {
    // ---- Principals --------------------------------------------------------

    pub fn count_principals() -> (r: Statement)
        ensures
            r@ == principal_count(),
    {
        no_params("SELECT count(*) FROM principals")
    }

    /// The principal that is entered under the identifier `id`, with a token made
    /// of `bytes`, at the time `now`.
    pub fn create_principal_with(
        name: &str,
        is_admin: bool,
        id: String,
        bytes: &[u8; 32],
        now: i64,
    ) -> (r: NewPrincipal)
        ensures
            r.id@ == id@,
            r.token@ == base64url(bytes@),
            r.insert@ == insert_principal(id@, name@, is_admin, r.token@, now),
    {
        let (token, hash) = token_of(bytes);
        let insert = execute(
            "INSERT INTO principals (id, name, is_admin, token_hash, disabled, created_at) VALUES (?1, ?2, ?3, ?4, 0, ?5)",
            params5(
                text_value(id.as_str()),
                text_value(name),
                Value::Integer(
                    if is_admin {
                        1
                    } else {
                        0
                    },
                ),
                Value::Text(hash),
                Value::Integer(now),
            ),
        );
        NewPrincipal { id, token, insert }
    }

    /// A principal with a fresh identifier and a fresh token, at the time of the
    /// clock.
    pub fn create_principal(name: &str, is_admin: bool) -> (r: NewPrincipal)
        ensures
            ulid_text(r.id@),
            exists|bytes: Seq<u8>| bytes.len() == 32 && r.token@ == #[trigger] base64url(bytes),
            exists|now: i64|
                r.insert@ == #[trigger] insert_principal(r.id@, name@, is_admin, r.token@, now),
    {
        let id = new_ulid();
        let drawn = random_bytes();
        let bytes = drawn.as_array();
        let now: i64 = now_ms();
        let r = System::create_principal_with(name, is_admin, id, bytes, now);
        assert(r.token@ == base64url(bytes@));
        r
    }

    /// Looks up a principal by its token.
    pub fn lookup_by_token(token: &str) -> (r: Statement)
        ensures
            r@ == token_lookup(token@),
    {
        query(
            "SELECT id, name, is_admin, disabled FROM principals WHERE token_hash = ?1",
            params1(Value::Text(hash_token(token))),
        )
    }

    /// Looks up a principal by the access token of a browser, at the time `now`.
    pub fn lookup_browser_access_token_at(token: &str, now: i64) -> (r: Statement)
        ensures
            r@ == access_token_statement(token@, now),
    {
        query(
            "SELECT p.id, p.name, p.is_admin, p.disabled FROM browser_access_tokens t JOIN principals p ON p.id=t.principal_id WHERE t.token_hash=?1 AND t.expires_at>?2",
            params2(Value::Text(hash_token(token)), Value::Integer(now)),
        )
    }

    /// Looks up a principal by the access token of a browser, at the time of the
    /// clock.
    pub fn lookup_browser_access_token(token: &str) -> (r: Statement)
        ensures
            exists|now: i64| r@ == #[trigger] access_token_statement(token@, now),
    {
        let now: i64 = now_ms();
        System::lookup_browser_access_token_at(token, now)
    }

    /// The principal that a lookup found; none when it is disabled.
    pub fn principal_found(reply: &Reply) -> (r: ApiResult<Option<Principal>>)
        ensures
            match r {
                Ok(p) => found_principal(reply@) == Ok::<Option<PrincipalView>, ErrorView>(
                    optional_principal(p),
                ),
                Err(e) => found_principal(reply@) == Err::<Option<PrincipalView>, ErrorView>(e@),
            },
    {
        if reply.is_failed() {
            return Err(ApiError::internal());
        }
        match reply.rows() {
            Some(rows) => {
                if rows.len() == 0 {
                    return Ok(None);
                }
                assert(rows_view(rows@)[0] == value_views(rows@[0]@));
                let row = &rows[0];
                match (get_text(row, 0), get_text(row, 1), get_int(row, 2), get_int(row, 3)) {
                    (Some(id), Some(name), Some(admin), Some(disabled)) => {
                        if disabled != 0 {
                            Ok(None)
                        } else {
                            Ok(Some(Principal { id, name, is_admin: admin != 0 }))
                        }
                    },
                    _ => Err(ApiError::internal()),
                }
            },
            None => Ok(None),
        }
    }

    /// The browser user that is entered under the identifier `id`, at the time
    /// `now`.
    pub fn create_browser_user_with(
        username: &str,
        password_hash: &str,
        id: String,
        bytes: &[u8; 32],
        now: i64,
    ) -> (r: NewBrowserUser)
        ensures
            r.user.id@ == id@,
            r.insert@ == insert_browser_user(
                id@,
                username@,
                base64url(bytes@),
                now,
                password_hash@,
            ),
    {
        let (_, hash) = token_of(bytes);
        let mut params = params5(
            text_value(id.as_str()),
            text_value(username),
            Value::Text(hash),
            Value::Integer(now),
            text_value(username),
        );
        push_value(&mut params, text_value(password_hash));
        let insert = execute(
            "INSERT INTO principals (id, name, is_admin, token_hash, disabled, created_at, username, password_hash) VALUES (?1, ?2, 0, ?3, 0, ?4, ?5, ?6)",
            params,
        );
        NewBrowserUser { user: BrowserUser { id }, insert }
    }

    /// A browser user with a fresh identifier and a fresh token, at the time of the
    /// clock.
    pub fn create_browser_user(username: &str, password_hash: &str) -> (r: NewBrowserUser)
        ensures
            ulid_text(r.user.id@),
            exists|bytes: Seq<u8>, now: i64|
                bytes.len() == 32 && r.insert@ == #[trigger] insert_browser_user(
                    r.user.id@,
                    username@,
                    base64url(bytes),
                    now,
                    password_hash@,
                ),
    {
        let id = new_ulid();
        let drawn = random_bytes();
        let bytes = drawn.as_array();
        let now: i64 = now_ms();
        let r = System::create_browser_user_with(username, password_hash, id, bytes, now);
        assert(bytes@.len() == 32);
        r
    }

    /// Whether a browser user was entered. A name that is taken is a conflict.
    pub fn browser_user_entered(reply: &Reply) -> (r: ApiResult<()>)
        ensures
            match r {
                Ok(_) => !failed(reply@),
                Err(e) => failed(reply@) && e@ == (if name_taken(*reply) {
                    conflict_error("username already exists"@)
                } else {
                    internal_error()
                }),
            },
    {
        match reply {
            Reply::Failed(f) => {
                if contains_text(f.message.as_str(), "UNIQUE constraint failed") {
                    Err(ApiError::conflict("username already exists"))
                } else {
                    Err(ApiError::internal())
                }
            },
            _ => Ok(()),
        }
    }

    /// Looks up who signs in under a name.
    pub fn browser_user(username: &str) -> (r: Statement)
        ensures
            r@ == user_lookup(username@),
    {
        query(
            "SELECT id, password_hash FROM principals WHERE username = ?1 AND disabled = 0",
            params1(text_value(username)),
        )
    }

    /// Who signs in under a name, with the hash of the password.
    pub fn browser_user_found(reply: &Reply) -> (r: ApiResult<Option<(BrowserUser, String)>>)
        ensures
            match r {
                Ok(Some((u, h))) => found_user(reply@) == Ok::<
                    Option<(Seq<char>, Seq<char>)>,
                    ErrorView,
                >(Some((u.id@, h@))),
                Ok(None) => found_user(reply@) == Ok::<Option<(Seq<char>, Seq<char>)>, ErrorView>(
                    None,
                ),
                Err(e) => found_user(reply@) == Err::<Option<(Seq<char>, Seq<char>)>, ErrorView>(
                    e@,
                ),
            },
    {
        if reply.is_failed() {
            return Err(ApiError::internal());
        }
        match reply.rows() {
            Some(rows) => {
                if rows.len() == 0 {
                    return Ok(None);
                }
                assert(rows_view(rows@)[0] == value_views(rows@[0]@));
                match (get_text(&rows[0], 0), get_text(&rows[0], 1)) {
                    (Some(id), Some(hash)) => Ok(Some((BrowserUser { id }, hash))),
                    _ => Err(ApiError::internal()),
                }
            },
            None => Ok(None),
        }
    }

    /// Asks for the policy on registration that an administrator has set.
    pub fn registration_enabled() -> (r: Statement)
        ensures
            r@ == policy_lookup(),
    {
        no_params("SELECT value FROM auth_settings WHERE key = 'public_registration'")
    }

    /// Whether anyone may register: what an administrator has set, or else what is
    /// configured.
    pub fn registration_policy(reply: &Reply, default: bool) -> (r: bool)
        ensures
            r == (match scalar_int(reply@) {
                Some(v) => v != 0,
                None => default,
            }),
    {
        match reply.scalar_int() {
            Some(v) => v != 0,
            None => default,
        }
    }

    /// Sets the policy on registration.
    pub fn set_registration_enabled(enabled: bool) -> (r: Statement)
        ensures
            r@ == policy_change(enabled),
    {
        execute(
            "INSERT INTO auth_settings (key, value) VALUES ('public_registration', ?1) ON CONFLICT(key) DO UPDATE SET value = excluded.value",
            params1(
                Value::Integer(
                    if enabled {
                        1
                    } else {
                        0
                    },
                ),
            ),
        )
    }

    /// Ends a session of a browser. Both of its secrets are needed.
    pub fn revoke_browser_session(refresh: &str, csrf: &str) -> (r: Statement)
        ensures
            r@ == signing_out(refresh@, csrf@),
    {
        execute(
            "DELETE FROM browser_sessions WHERE token_hash = ?1 AND csrf_hash = ?2",
            params2(Value::Text(hash_token(refresh)), Value::Text(hash_token(csrf))),
        )
    }

    /// Disables a principal.
    pub fn disable_principal(id: &str) -> (r: Statement)
        ensures
            r@ == disabling(id@),
    {
        execute("UPDATE principals SET disabled = 1 WHERE id = ?1", params1(text_value(id)))
    }

    // ---- Databases ---------------------------------------------------------

    /// Enters a database at the time `now`, unless it is there.
    pub fn insert_database_at(name: &str, now: i64) -> (r: Statement)
        ensures
            r@ == insert_database_statement(name@, now),
    {
        execute(
            "INSERT OR IGNORE INTO databases (name, created_at) VALUES (?1, ?2)",
            params2(text_value(name), Value::Integer(now)),
        )
    }

    /// Enters a database at the time of the clock, which is given back.
    pub fn insert_database(name: &str) -> (r: (Statement, i64))
        ensures
            r.0@ == insert_database_statement(name@, r.1),
    {
        let now: i64 = now_ms();
        (System::insert_database_at(name, now), now)
    }

    pub fn database_exists(name: &str) -> (r: Statement)
        ensures
            r@ == database_exists_statement(name@),
    {
        query("SELECT count(*) FROM databases WHERE name = ?1", params1(text_value(name)))
    }

    pub fn list_databases() -> (r: Statement)
        ensures
            r@ == database_listing(),
    {
        no_params("SELECT name, created_at FROM databases ORDER BY name")
    }

    /// The databases that came back.
    pub fn databases_listed(reply: &Reply) -> (r: ApiResult<Vec<DatabaseRecord>>)
        ensures
            match r {
                Ok(v) => listed_databases(reply@) == Ok::<Seq<(Seq<char>, i64)>, ErrorView>(
                    database_views(v@),
                ),
                Err(e) => listed_databases(reply@) == Err::<Seq<(Seq<char>, i64)>, ErrorView>(e@),
            },
    {
        if reply.is_failed() {
            return Err(ApiError::internal());
        }
        let mut out: Vec<DatabaseRecord> = Vec::new();
        let ghost all = reply_rows(reply@);
        match reply.rows() {
            Some(rows) => {
                let mut i: usize = 0;
                while i < rows.len()
                    invariant
                        all == reply_rows(reply@),
                        all == rows_view(rows@),
                        !failed(reply@),
                        i <= rows@.len(),
                        out@.len() == i,
                        forall|k: int|
                            0 <= k < i ==> database_row(#[trigger] all[k]) == Some(
                                (out@[k].name@, out@[k].created_at),
                            ),
                    decreases rows@.len() - i,
                {
                    assert(all[i as int] == value_views(rows@[i as int]@));
                    match (get_text(&rows[i], 0), get_int(&rows[i], 1)) {
                        (Some(name), Some(created_at)) => {
                            out.push(DatabaseRecord { name, created_at });
                        },
                        _ => {
                            assert(database_row(all[i as int]) is None);
                            return Err(ApiError::internal());
                        },
                    }
                    i = i + 1;
                }
            },
            None => {},
        }
        assert(database_views(out@) =~= Seq::new(all.len(), |i: int| database_row(all[i])->0));
        Ok(out)
    }

    /// Takes a database out of the registry, with the grants on it.
    pub fn delete_database_record(name: &str) -> (r: Vec<Statement>)
        ensures
            crate::sequence::statement_views(r@) == forgetting(name@),
    {
        let mut v: Vec<Statement> = Vec::new();
        v.push(execute("DELETE FROM databases WHERE name = ?1", params1(text_value(name))));
        v.push(execute("DELETE FROM grants WHERE database_name = ?1", params1(text_value(name))));
        assert(crate::sequence::statement_views(v@) =~= seq![v@[0]@, v@[1]@]);
        v
    }

    // ---- Listing principals ------------------------------------------------

    /// Lists principals whose name or user name holds a text, whatever its case, or
    /// all of them.
    pub fn find_principals(name_filter: Option<&str>) -> (r: Statement)
        ensures
            r@ == list_statement(
                match name_filter {
                    Some(q) => Some(q@),
                    None => None,
                },
            ),
    {
        match name_filter {
            Some(q) => query(
                "SELECT id, name, username, is_admin, disabled, created_at FROM principals WHERE instr(lower(name), lower(?1)) > 0 OR instr(lower(username), lower(?1)) > 0 ORDER BY name",
                params1(text_value(q)),
            ),
            None => no_params(
                "SELECT id, name, username, is_admin, disabled, created_at FROM principals ORDER BY name",
            ),
        }
    }

    /// The principals that came back.
    pub fn principals_listed(reply: &Reply) -> (r: ApiResult<Vec<PrincipalRecord>>)
        ensures
            match r {
                Ok(v) => listed_principals(reply@) == Ok::<Seq<PrincipalRecordView>, ErrorView>(
                    record_views(v@),
                ),
                Err(e) => listed_principals(reply@) == Err::<Seq<PrincipalRecordView>, ErrorView>(
                    e@,
                ),
            },
    {
        if reply.is_failed() {
            return Err(ApiError::internal());
        }
        let mut out: Vec<PrincipalRecord> = Vec::new();
        let ghost all = reply_rows(reply@);
        match reply.rows() {
            Some(rows) => {
                let mut i: usize = 0;
                while i < rows.len()
                    invariant
                        all == reply_rows(reply@),
                        all == rows_view(rows@),
                        !failed(reply@),
                        i <= rows@.len(),
                        out@.len() == i,
                        forall|k: int|
                            0 <= k < i ==> principal_record(#[trigger] all[k]) == Some(out@[k]@),
                    decreases rows@.len() - i,
                {
                    assert(all[i as int] == value_views(rows@[i as int]@));
                    match row_to_principal(&rows[i]) {
                        Some(p) => {
                            out.push(p);
                        },
                        None => {
                            return Err(ApiError::internal());
                        },
                    }
                    i = i + 1;
                }
            },
            None => {},
        }
        assert(record_views(out@) =~= Seq::new(all.len(), |i: int| principal_record(all[i])->0));
        Ok(out)
    }

    /// Lists the grants of a principal.
    pub fn grants_for(principal_id: &str) -> (r: Statement)
        ensures
            r@ == grant_listing(principal_id@),
    {
        query(
            "SELECT database_name, role FROM grants WHERE principal_id = ?1 ORDER BY database_name",
            params1(text_value(principal_id)),
        )
    }

    /// The grants that came back, as databases and roles.
    pub fn grants_listed(reply: &Reply) -> (r: ApiResult<Vec<(String, String)>>)
        ensures
            match r {
                Ok(v) => listed_grants(reply@) == Ok::<Seq<(Seq<char>, Seq<char>)>, ErrorView>(
                    pair_views(v@),
                ),
                Err(e) => listed_grants(reply@) == Err::<Seq<(Seq<char>, Seq<char>)>, ErrorView>(
                    e@,
                ),
            },
    {
        if reply.is_failed() {
            return Err(ApiError::internal());
        }
        let mut out: Vec<(String, String)> = Vec::new();
        let ghost all = reply_rows(reply@);
        match reply.rows() {
            Some(rows) => {
                let mut i: usize = 0;
                while i < rows.len()
                    invariant
                        all == reply_rows(reply@),
                        all == rows_view(rows@),
                        !failed(reply@),
                        i <= rows@.len(),
                        out@.len() == i,
                        forall|k: int|
                            0 <= k < i ==> text_pair(#[trigger] all[k]) == Some(
                                (out@[k].0@, out@[k].1@),
                            ),
                    decreases rows@.len() - i,
                {
                    assert(all[i as int] == value_views(rows@[i as int]@));
                    match (get_text(&rows[i], 0), get_text(&rows[i], 1)) {
                        (Some(a), Some(b)) => {
                            out.push((a, b));
                        },
                        _ => {
                            assert(text_pair(all[i as int]) is None);
                            return Err(ApiError::internal());
                        },
                    }
                    i = i + 1;
                }
            },
            None => {},
        }
        assert(pair_views(out@) =~= Seq::new(all.len(), |i: int| text_pair(all[i])->0));
        Ok(out)
    }

    // ---- Grants ------------------------------------------------------------

    /// Gives a principal a role on a database, in place of another.
    pub fn upsert_grant(principal_id: &str, database: &str, role: Role) -> (r: Statement)
        ensures
            r@ == upsert_grant_statement(principal_id@, database@, role),
    {
        execute(
            "INSERT INTO grants (principal_id, database_name, role) VALUES (?1, ?2, ?3) ON CONFLICT(principal_id, database_name) DO UPDATE SET role = excluded.role",
            params3(text_value(principal_id), text_value(database), text_value(role.as_str())),
        )
    }

    pub fn delete_grant(principal_id: &str, database: &str) -> (r: Statement)
        ensures
            r@ == ungranting(principal_id@, database@),
    {
        execute(
            "DELETE FROM grants WHERE principal_id = ?1 AND database_name = ?2",
            params2(text_value(principal_id), text_value(database)),
        )
    }

    /// Asks for the role of a principal on a database.
    pub fn grant_role(principal_id: &str, database: &str) -> (r: Statement)
        ensures
            r@ == grant_role_statement(principal_id@, database@),
    {
        query(
            "SELECT role FROM grants WHERE principal_id = ?1 AND database_name = ?2",
            params2(text_value(principal_id), text_value(database)),
        )
    }

    /// The role of a principal on a database; none where nothing readable came
    /// back.
    pub fn granted_role(reply: &Reply) -> (r: Option<Role>)
        ensures
            r == role_granted(reply@),
    {
        match leading_text(reply) {
            Some(t) => Role::parse(t.as_str()),
            None => None,
        }
    }
}

/// The role of a principal on a database, as it came back.
pub open spec fn role_granted(r: ReplyView) -> Option<Role> {
    match first_text(r) {
        Some(t) => named_role(t),
        None => None,
    }
}

pub open spec fn access_token_statement(token: Seq<char>, now: i64) -> StatementView {
    query_view(
        "SELECT p.id, p.name, p.is_admin, p.disabled FROM browser_access_tokens t JOIN principals p ON p.id=t.principal_id WHERE t.token_hash=?1 AND t.expires_at>?2"@,
        seq![ValueView::Text(token_hash(token)), ValueView::Integer(now)],
    )
}

pub open spec fn insert_database_statement(name: Seq<char>, now: i64) -> StatementView {
    execute_view(
        "INSERT OR IGNORE INTO databases (name, created_at) VALUES (?1, ?2)"@,
        seq![ValueView::Text(name), ValueView::Integer(now)],
    )
}

pub open spec fn database_exists_statement(name: Seq<char>) -> StatementView {
    query_view(
        "SELECT count(*) FROM databases WHERE name = ?1"@,
        seq![ValueView::Text(name)],
    )
}

pub open spec fn upsert_grant_statement(
    principal_id: Seq<char>,
    database: Seq<char>,
    role: Role,
) -> StatementView {
    execute_view(
        "INSERT INTO grants (principal_id, database_name, role) VALUES (?1, ?2, ?3) ON CONFLICT(principal_id, database_name) DO UPDATE SET role = excluded.role"@,
        seq![
            ValueView::Text(principal_id),
            ValueView::Text(database),
            ValueView::Text(role_name(role)),
        ],
    )
}

pub open spec fn grant_role_statement(principal_id: Seq<char>, database: Seq<char>) ->
    StatementView {
    query_view(
        "SELECT role FROM grants WHERE principal_id = ?1 AND database_name = ?2"@,
        seq![ValueView::Text(principal_id), ValueView::Text(database)],
    )
}

/// The statement by which a user is looked for who signs in.
pub open spec fn user_lookup(username: Seq<char>) -> StatementView {
    query_view(
        "SELECT id, password_hash FROM principals WHERE username = ?1 AND disabled = 0"@,
        seq![ValueView::Text(username)],
    )
}

/// The statement that disables a principal.
pub open spec fn disabling(id: Seq<char>) -> StatementView {
    execute_view("UPDATE principals SET disabled = 1 WHERE id = ?1"@, seq![ValueView::Text(id)])
}

/// The statement that takes a grant back.
pub open spec fn ungranting(principal_id: Seq<char>, database: Seq<char>) -> StatementView {
    execute_view(
        "DELETE FROM grants WHERE principal_id = ?1 AND database_name = ?2"@,
        seq![ValueView::Text(principal_id), ValueView::Text(database)],
    )
}

/// The statement that lists the databases.
pub open spec fn database_listing() -> StatementView {
    query_view("SELECT name, created_at FROM databases ORDER BY name"@, Seq::empty())
}

/// The statement that asks for the policy on registration.
pub open spec fn policy_lookup() -> StatementView {
    query_view(
        "SELECT value FROM auth_settings WHERE key = 'public_registration'"@,
        Seq::empty(),
    )
}

/// The statement that sets the policy on registration.
pub open spec fn policy_change(enabled: bool) -> StatementView {
    execute_view(
        "INSERT INTO auth_settings (key, value) VALUES ('public_registration', ?1) ON CONFLICT(key) DO UPDATE SET value = excluded.value"@,
        seq![
            ValueView::Integer(
                if enabled {
                    1
                } else {
                    0
                },
            ),
        ],
    )
}

/// The statement that ends a session of a browser that signs out.
pub open spec fn signing_out(refresh: Seq<char>, csrf: Seq<char>) -> StatementView {
    execute_view(
        "DELETE FROM browser_sessions WHERE token_hash = ?1 AND csrf_hash = ?2"@,
        seq![ValueView::Text(token_hash(refresh)), ValueView::Text(token_hash(csrf))],
    )
}

/// The statement that counts the principals.
pub open spec fn principal_count() -> StatementView {
    query_view("SELECT count(*) FROM principals"@, Seq::empty())
}

/// The statement by which a principal is looked for that bears a token.
pub open spec fn token_lookup(token: Seq<char>) -> StatementView {
    query_view(
        "SELECT id, name, is_admin, disabled FROM principals WHERE token_hash = ?1"@,
        seq![ValueView::Text(token_hash(token))],
    )
}

/// The statements that take a database out of the registry, with the grants on it.
pub open spec fn forgetting(name: Seq<char>) -> Seq<StatementView> {
    seq![
        execute_view("DELETE FROM databases WHERE name = ?1"@, seq![ValueView::Text(name)]),
        execute_view("DELETE FROM grants WHERE database_name = ?1"@, seq![ValueView::Text(name)]),
    ]
}

/// The statement that lists the grants of a principal.
pub open spec fn grant_listing(principal_id: Seq<char>) -> StatementView {
    query_view(
        "SELECT database_name, role FROM grants WHERE principal_id = ?1 ORDER BY database_name"@,
        seq![ValueView::Text(principal_id)],
    )
}

} // verus!
