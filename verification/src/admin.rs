//! What a global administrator asks of the control plane, and what is answered.

use crate::browser_auth::{
    accept_password, hash_password, opens, password_ok, password_outcome,
    require_username, username_ok,
};
use crate::documents::{answers, Answer, AnswerView};
use crate::errors::{
    conflict_error, internal_error, not_found_error, validation_error, ApiError, ApiResult,
    ErrorView,
};
use crate::ids::{name_error, name_ok, now_ms, require_valid_name, ulid_text};
use crate::json::{int_view, json_int, json_text, json_uint, put, Json, JsonView};
use crate::sequence::{sequence_asks, sequence_complete, sequence_next, SequenceRun, SequenceView};
use crate::sql::{
    execute_view, failed, query_view, text_view, Reply, ReplyView, Statement, StatementView,
    ValueView,
};
use crate::system::{
    changed_any, counted_rows, database_exists_statement, database_views, done,
    insert_browser_user, insert_database_statement, insert_principal, listed_databases,
    listed_grants, listed_principals, name_taken, named_role, pair_views, record_views, role_name,
    BrowserUser, NewBrowserUser, NewPrincipal, PrincipalRecord, PrincipalRecordView, Role, System,
};
use crate::tokens::base64url;
use vstd::prelude::*;

verus! {

/// An answer that holds JSON.
fn answer(status: u16, entries: Vec<(String, Json)>) -> (r: Answer)
    ensures
        r@ == (AnswerView {
            status,
            body: Some(JsonView::Object(crate::json::object_view(entries@))),
        }),
{
    Answer { status, body: Some(Json::Object(entries)) }
}

/// An answer that holds nothing.
pub open spec fn no_content() -> AnswerView {
    AnswerView { status: 204, body: None }
}

// ---- Databases -------------------------------------------------------------

/// A request for a database.
#[derive(Debug)]
pub struct CreateDatabaseBody {
    pub name: String,
}

/// The statement that enters a database at the time `now`.
pub fn create_database_at(body: &CreateDatabaseBody, now: i64) -> (r: ApiResult<Statement>)
    ensures
        match r {
            Ok(s) => name_ok(body.name@) && s@ == insert_database_statement(body.name@, now),
            Err(e) => !name_ok(body.name@) && e@ == validation_error(name_error("database"@)),
        },
{
    match require_valid_name("database", body.name.as_str()) {
        Ok(_) => Ok(System::insert_database_at(body.name.as_str(), now)),
        Err(e) => Err(e),
    }
}

/// The statement that enters a database at the time of the clock, and that time.
pub fn create_database(body: &CreateDatabaseBody) -> (r: ApiResult<(Statement, i64)>)
    ensures
        match r {
            Ok((s, now)) => name_ok(body.name@) && s@ == insert_database_statement(
                body.name@,
                now,
            ),
            Err(e) => !name_ok(body.name@) && e@ == validation_error(name_error("database"@)),
        },
{
    let now: i64 = now_ms();
    match create_database_at(body, now) {
        Ok(s) => Ok((s, now)),
        Err(e) => Err(e),
    }
}

/// What a request for a database is answered, by the reply to its statement. The
/// database is new exactly when a row was entered.
pub open spec fn created_database(name: Seq<char>, now: i64, r: ReplyView) -> Result<
    AnswerView,
    ErrorView,
> {
    match changed_any(r) {
        Err(e) => Err(e),
        Ok(false) => Err(conflict_error("database already exists"@)),
        Ok(true) => Ok(
            AnswerView {
                status: 201,
                body: Some(
                    JsonView::Object(
                        map![
                            "name"@ => JsonView::Text(name),
                            "created_at"@ => int_view(now as int),
                        ],
                    ),
                ),
            },
        ),
    }
}

/// What a request for a database is answered. The file of the database is made only
/// where the answer is no error.
pub fn database_created(name: &str, now: i64, reply: &Reply) -> (r: ApiResult<Answer>)
    ensures
        answers(r, created_database(name@, now, reply@)),
{
    match crate::system::changed(reply) {
        Err(e) => Err(e),
        Ok(new) => {
            if !new {
                return Err(ApiError::conflict("database already exists"));
            }
            let mut e: Vec<(String, Json)> = Vec::new();
            put(&mut e, "name", json_text(name));
            put(&mut e, "created_at", json_int(now));
            Ok(answer(201, e))
        },
    }
}

/// A database as JSON.
pub open spec fn database_json(d: (Seq<char>, i64)) -> JsonView {
    JsonView::Object(map!["name"@ => JsonView::Text(d.0), "created_at"@ => int_view(d.1 as int)])
}

/// What a request for the list of databases is answered.
pub open spec fn databases_answer(r: ReplyView) -> Result<AnswerView, ErrorView> {
    match listed_databases(r) {
        Err(e) => Err(e),
        Ok(v) => Ok(
            AnswerView {
                status: 200,
                body: Some(
                    JsonView::Object(
                        map![
                            "databases"@ => JsonView::Array(
                                Seq::new(v.len(), |i: int| database_json(v[i])),
                            ),
                        ],
                    ),
                ),
            },
        ),
    }
}

/// What a request for the list of databases is answered.
pub fn list_databases(reply: &Reply) -> (r: ApiResult<Answer>)
    ensures
        answers(r, databases_answer(reply@)),
{
    match System::databases_listed(reply) {
        Err(e) => Err(e),
        Ok(v) => {
            let mut out: Vec<Json> = Vec::new();
            let mut i: usize = 0;
            while i < v.len()
                invariant
                    i <= v@.len(),
                    out@.len() == i,
                    forall|k: int|
                        0 <= k < i ==> (#[trigger] out@[k])@ == database_json(
                            database_views(v@)[k],
                        ),
                decreases v@.len() - i,
            {
                let mut e: Vec<(String, Json)> = Vec::new();
                put(&mut e, "name", json_text(v[i].name.as_str()));
                put(&mut e, "created_at", json_int(v[i].created_at));
                out.push(Json::Object(e));
                i = i + 1;
            }
            let list = Json::Array(out);
            assert(list@->Array_0 =~= Seq::new(
                database_views(v@).len(),
                |i: int| database_json(database_views(v@)[i]),
            ));
            let mut e: Vec<(String, Json)> = Vec::new();
            put(&mut e, "databases", list);
            Ok(answer(200, e))
        },
    }
}

/// How far the removal of a database has come.
#[derive(Debug)]
pub enum DeleteStage {
    /// Whether there is such a database.
    Exists,
    /// Its files are removed.
    Files,
    /// Its records are removed.
    Records(SequenceRun),
    Refused(ApiError),
}

pub enum DeleteStageView {
    Exists,
    Files,
    Records(SequenceView),
    Refused(ErrorView),
}

impl View for DeleteStage {
    type V = DeleteStageView;

    open spec fn view(&self) -> DeleteStageView {
        match *self {
            DeleteStage::Exists => DeleteStageView::Exists,
            DeleteStage::Files => DeleteStageView::Files,
            DeleteStage::Records(run) => DeleteStageView::Records(run@),
            DeleteStage::Refused(e) => DeleteStageView::Refused(e@),
        }
    }
}

/// The removal of a database in progress.
#[derive(Debug)]
pub struct DeleteRun {
    db: String,
    stage: DeleteStage,
}

#[verifier::ext_equal]
pub struct DeleteView {
    pub db: Seq<char>,
    pub stage: DeleteStageView,
}

impl View for DeleteRun {
    type V = DeleteView;

    closed spec fn view(&self) -> DeleteView {
        DeleteView { db: self.db@, stage: self.stage@ }
    }
}

pub open spec fn delete_asks(s: DeleteView) -> Option<StatementView> {
    match s.stage {
        DeleteStageView::Exists => Some(database_exists_statement(s.db)),
        DeleteStageView::Records(run) => sequence_asks(run),
        _ => None,
    }
}

pub open spec fn delete_next(s: DeleteView, r: ReplyView) -> DeleteStageView {
    match s.stage {
        DeleteStageView::Exists => match counted_rows(r) {
            Err(e) => DeleteStageView::Refused(e),
            Ok(n) => if n <= 0 {
                DeleteStageView::Refused(not_found_error("database not found"@))
            } else {
                DeleteStageView::Files
            },
        },
        DeleteStageView::Records(run) => DeleteStageView::Records(sequence_next(run, r)),
        other => other,
    }
}

/// The statements that take a database out of the registry, with the grants on it.
pub open spec fn forget_database(db: Seq<char>) -> Seq<StatementView> {
    seq![
        execute_view("DELETE FROM databases WHERE name = ?1"@, seq![ValueView::Text(db)]),
        execute_view("DELETE FROM grants WHERE database_name = ?1"@, seq![ValueView::Text(db)]),
    ]
}

/// Where the removal goes when the files are gone.
pub open spec fn delete_without_files(s: DeleteView) -> DeleteStageView {
    match s.stage {
        DeleteStageView::Files => DeleteStageView::Records(
            SequenceView { todo: forget_database(s.db), refused: false },
        ),
        other => other,
    }
}

/// Begins the removal of a database.
pub fn delete_database(db: &str) -> (r: ApiResult<DeleteRun>)
    ensures
        match r {
            Ok(run) => name_ok(db@) && run@ == (DeleteView {
                db: db@,
                stage: DeleteStageView::Exists,
            }),
            Err(e) => !name_ok(db@) && e@ == validation_error(name_error("database"@)),
        },
{
    match require_valid_name("database", db) {
        Ok(_) => Ok(DeleteRun { db: db.to_string(), stage: DeleteStage::Exists }),
        Err(e) => Err(e),
    }
}

impl DeleteRun {
    /// The statement to run next, if one is.
    pub fn statement(&self) -> (r: Option<Statement>)
        ensures
            match r {
                Some(s) => delete_asks(self@) == Some(s@),
                None => delete_asks(self@) is None,
            },
    {
        match &self.stage {
            DeleteStage::Exists => Some(System::database_exists(self.db.as_str())),
            DeleteStage::Records(run) => run.statement(),
            _ => None,
        }
    }

    /// Whether the files are to be removed now.
    pub fn wants_files_removed(&self) -> (r: bool)
        ensures
            r == (self@.stage is Files),
    {
        matches!(&self.stage, DeleteStage::Files)
    }

    /// Takes the reply to the statement.
    pub fn accept(self, reply: &Reply) -> (r: DeleteRun)
        ensures
            r@ == (DeleteView { stage: delete_next(self@, reply@), ..self@ }),
    {
        let stage = match self.stage {
            DeleteStage::Exists => match crate::system::counted(reply) {
                Err(e) => DeleteStage::Refused(e),
                Ok(n) => if n <= 0 {
                    DeleteStage::Refused(ApiError::not_found("database not found"))
                } else {
                    DeleteStage::Files
                },
            },
            DeleteStage::Records(run) => {
                let mut next = run;
                next.accept(reply);
                DeleteStage::Records(next)
            },
            other => other,
        };
        DeleteRun { db: self.db, stage }
    }

    /// Takes that the files are gone.
    pub fn files_removed(self) -> (r: DeleteRun)
        ensures
            r@ == (DeleteView { stage: delete_without_files(self@), ..self@ }),
    {
        let stage = match self.stage {
            DeleteStage::Files => DeleteStage::Records(
                SequenceRun::start(System::delete_database_record(self.db.as_str())),
            ),
            other => other,
        };
        DeleteRun { db: self.db, stage }
    }

    /// What the request is answered.
    pub fn answer(self) -> (r: ApiResult<Answer>)
        ensures
            answers(
                r,
                match self@.stage {
                    DeleteStageView::Refused(e) => Err(e),
                    DeleteStageView::Records(run) => if sequence_complete(run) {
                        Ok(no_content())
                    } else {
                        Err(internal_error())
                    },
                    _ => Err(internal_error()),
                },
            ),
    {
        match self.stage {
            DeleteStage::Refused(e) => Err(e),
            DeleteStage::Records(run) => {
                if run.is_complete() {
                    Ok(Answer { status: 204, body: None })
                } else {
                    Err(ApiError::internal())
                }
            },
            _ => Err(ApiError::internal()),
        }
    }
}

/// Nothing of a database that is not registered is removed: the only way to its files
/// is a count that found it, and its records are removed after its files.
pub proof fn law_only_known_databases_are_deleted(s: DeleteView, r: ReplyView)
    ensures
        !(s.stage is Files) && delete_next(s, r) is Files ==> s.stage is Exists && (counted_rows(
            r,
        ) matches Ok(n) && n > 0),
        !(s.stage is Records) && delete_without_files(s) is Records ==> s.stage is Files,
        delete_next(s, r) is Records ==> s.stage is Records,
{
}

// ---- Principals ------------------------------------------------------------

/// A request for a principal. With a password, it is a browser user.
#[derive(Debug)]
pub struct CreatePrincipalBody {
    pub name: String,
    pub is_admin: bool,
    pub password: Option<String>,
}

/// A principal that is about to be entered.
#[derive(Debug)]
pub enum Account {
    Token(NewPrincipal),
    Browser { name: String, user: NewBrowserUser },
}

/// Why a browser user is not entered, whatever the password.
pub open spec fn browser_user_refusal(name: Seq<char>, is_admin: bool) -> Option<ErrorView> {
    if is_admin {
        Some(validation_error("browser users cannot be global admins"@))
    } else if !username_ok(name) {
        Some(validation_error("username must be 3 to 64 letters, numbers, '_' or '-'"@))
    } else {
        None
    }
}

/// Refuses a browser user who cannot be entered, whatever the password.
pub fn require_browser_user(name: &str, is_admin: bool) -> (r: ApiResult<()>)
    ensures
        match r {
            Ok(_) => browser_user_refusal(name@, is_admin) is None,
            Err(e) => browser_user_refusal(name@, is_admin) == Some(e@),
        },
{
    if is_admin {
        return Err(ApiError::validation("browser users cannot be global admins"));
    }
    require_username(name)
}

/// Why a principal is not entered, if it is not, when it is known what hashing the
/// password gave.
pub open spec fn principal_refusal(body: CreatePrincipalBody, hashed: Option<Seq<char>>) -> Option<
    ErrorView,
> {
    match body.password {
        None => None,
        Some(password) => match browser_user_refusal(body.name@, body.is_admin) {
            Some(e) => Some(e),
            None => match password_outcome(password@, hashed) {
                Ok(_) => None,
                Err(e) => Some(e),
            },
        },
    }
}

/// The principal that a request asks for, with the identifier `id`, a token made of
/// `bytes`, the time `now`, and what hashing the password gave.
pub fn create_principal_with(
    body: CreatePrincipalBody,
    hashed: Option<String>,
    id: String,
    bytes: &[u8; 32],
    now: i64,
) -> (r: ApiResult<Account>)
    ensures
        match r {
            Ok(Account::Token(p)) => {
                &&& body.password is None
                &&& p.id@ == id@
                &&& p.token@ == base64url(bytes@)
                &&& p.insert@ == insert_principal(id@, body.name@, body.is_admin, p.token@, now)
            },
            Ok(Account::Browser { name, user }) => {
                &&& body.password is Some
                &&& principal_refusal(body, text_view(hashed)) is None
                &&& hashed is Some
                &&& name@ == body.name@
                &&& user.user.id@ == id@
                &&& user.insert@ == insert_browser_user(
                    id@,
                    body.name@,
                    base64url(bytes@),
                    now,
                    hashed->0@,
                )
            },
            Err(e) => principal_refusal(body, text_view(hashed)) == Some(e@),
        },
{
    match &body.password {
        None => Ok(
            Account::Token(
                System::create_principal_with(body.name.as_str(), body.is_admin, id, bytes, now),
            ),
        ),
        Some(password) => {
            match require_browser_user(body.name.as_str(), body.is_admin) {
                Ok(_) => {},
                Err(e) => {
                    return Err(e);
                },
            }
            match accept_password(password.as_str(), hashed) {
                Err(e) => Err(e),
                Ok(hash) => {
                    let user = System::create_browser_user_with(
                        body.name.as_str(),
                        hash.as_str(),
                        id,
                        bytes,
                        now,
                    );
                    Ok(Account::Browser { name: body.name, user })
                },
            }
        },
    }
}

/// The principal that a request asks for, with a fresh identifier and a fresh token,
/// at the time of the clock.
pub fn create_principal(body: CreatePrincipalBody) -> (r: ApiResult<Account>)
    ensures
        match r {
            Ok(Account::Token(p)) => {
                &&& body.password is None
                &&& ulid_text(p.id@)
                &&& exists|bytes: Seq<u8>| bytes.len() == 32 && p.token@ == #[trigger] base64url(
                    bytes,
                )
                &&& exists|now: i64|
                    p.insert@ == #[trigger] insert_principal(
                        p.id@,
                        body.name@,
                        body.is_admin,
                        p.token@,
                        now,
                    )
            },
            Ok(Account::Browser { name, user }) => {
                &&& body.password matches Some(password) && password_ok(password@)
                &&& browser_user_refusal(body.name@, body.is_admin) is None
                &&& name@ == body.name@
                &&& ulid_text(user.user.id@)
                &&& exists|bytes: Seq<u8>, now: i64, hash: Seq<char>|
                    bytes.len() == 32 && user.insert@ == #[trigger] insert_browser_user(
                        user.user.id@,
                        body.name@,
                        base64url(bytes),
                        now,
                        hash,
                    ) && opens(body.password->0@, hash)
            },
            Err(e) => body.password matches Some(password) && (match browser_user_refusal(
                body.name@,
                body.is_admin,
            ) {
                Some(x) => e@ == x,
                None => !password_ok(password@) && e@ == validation_error(
                    "password must be 12 to 1024 characters"@,
                ),
            }),
        },
{
    match &body.password {
        None => Ok(Account::Token(System::create_principal(body.name.as_str(), body.is_admin))),
        Some(password) => {
            match require_browser_user(body.name.as_str(), body.is_admin) {
                Ok(_) => {},
                Err(e) => {
                    return Err(e);
                },
            }
            match hash_password(password.as_str()) {
                Err(e) => Err(e),
                Ok(hash) => {
                    let user = System::create_browser_user(body.name.as_str(), hash.as_str());
                    Ok(Account::Browser { name: body.name, user })
                },
            }
        },
    }
}

/// What a request for a principal is answered, by the reply to its statement. This is
/// the one time that a token is shown.
pub open spec fn created_principal(account: Account, reply: Reply) -> Result<AnswerView, ErrorView> {
    match account {
        Account::Token(p) => if failed(reply@) {
            Err(internal_error())
        } else {
            Ok(
                AnswerView {
                    status: 201,
                    body: Some(
                        JsonView::Object(
                            map![
                                "id"@ => JsonView::Text(p.id@),
                                "token"@ => JsonView::Text(p.token@),
                            ],
                        ),
                    ),
                },
            )
        },
        Account::Browser { name, user } => if name_taken(reply) {
            Err(conflict_error("username already exists"@))
        } else if failed(reply@) {
            Err(internal_error())
        } else {
            Ok(user_answer(201, user.user.id@, name@))
        },
    }
}

/// An answer that names a user.
pub open spec fn user_answer(status: u16, id: Seq<char>, name: Seq<char>) -> AnswerView {
    AnswerView {
        status,
        body: Some(
            JsonView::Object(map!["id"@ => JsonView::Text(id), "name"@ => JsonView::Text(name)]),
        ),
    }
}

fn name_user(status: u16, id: &str, name: &str) -> (r: Answer)
    ensures
        r@ == user_answer(status, id@, name@),
{
    let mut e: Vec<(String, Json)> = Vec::new();
    put(&mut e, "id", json_text(id));
    put(&mut e, "name", json_text(name));
    answer(status, e)
}

/// What a request for a principal is answered.
pub fn principal_created(account: &Account, reply: &Reply) -> (r: ApiResult<Answer>)
    ensures
        answers(r, created_principal(*account, *reply)),
{
    match account {
        Account::Token(p) => match done(reply) {
            Err(e) => Err(e),
            Ok(_) => {
                let mut e: Vec<(String, Json)> = Vec::new();
                put(&mut e, "id", json_text(p.id.as_str()));
                put(&mut e, "token", json_text(p.token.as_str()));
                Ok(answer(201, e))
            },
        },
        Account::Browser { name, user } => match System::browser_user_entered(reply) {
            Err(e) => Err(e),
            Ok(_) => Ok(name_user(201, user.user.id.as_str(), name.as_str())),
        },
    }
}

/// A search for principals.
#[derive(Debug)]
pub struct ListPrincipalsQuery {
    /// A text that the name or the user name holds, whatever its case.
    pub name: Option<String>,
}

/// A principal as JSON. No token and no password is in it.
pub open spec fn principal_json(
    p: PrincipalRecordView,
    grants: Seq<(Seq<char>, Seq<char>)>,
) -> JsonView {
    JsonView::Object(
        map![
            "id"@ => JsonView::Text(p.id),
            "name"@ => JsonView::Text(p.name),
            "username"@ => match p.username {
                Some(u) => JsonView::Text(u),
                None => JsonView::Null,
            },
            "kind"@ => JsonView::Text(
                if p.username is Some {
                    "browser"@
                } else {
                    "token"@
                },
            ),
            "is_admin"@ => JsonView::Bool(p.is_admin),
            "disabled"@ => JsonView::Bool(p.disabled),
            "created_at"@ => int_view(p.created_at as int),
            "grants"@ => JsonView::Array(Seq::new(grants.len(), |i: int| grant_json(grants[i]))),
        ],
    )
}

pub open spec fn grant_json(g: (Seq<char>, Seq<char>)) -> JsonView {
    JsonView::Object(map!["database"@ => JsonView::Text(g.0), "role"@ => JsonView::Text(g.1)])
}

fn principal_as_json(p: &PrincipalRecord, grants: &Vec<(String, String)>) -> (r: Json)
    ensures
        r@ == principal_json(p@, pair_views(grants@)),
{
    let mut out: Vec<Json> = Vec::new();
    let mut i: usize = 0;
    while i < grants.len()
        invariant
            i <= grants@.len(),
            out@.len() == i,
            forall|k: int|
                0 <= k < i ==> (#[trigger] out@[k])@ == grant_json(pair_views(grants@)[k]),
        decreases grants@.len() - i,
    {
        let mut g: Vec<(String, Json)> = Vec::new();
        put(&mut g, "database", json_text(grants[i].0.as_str()));
        put(&mut g, "role", json_text(grants[i].1.as_str()));
        out.push(Json::Object(g));
        i = i + 1;
    }
    let list = Json::Array(out);
    assert(list@->Array_0 =~= Seq::new(
        pair_views(grants@).len(),
        |i: int| grant_json(pair_views(grants@)[i]),
    ));
    let mut e: Vec<(String, Json)> = Vec::new();
    put(&mut e, "id", json_text(p.id.as_str()));
    put(&mut e, "name", json_text(p.name.as_str()));
    match &p.username {
        Some(u) => {
            put(&mut e, "username", json_text(u.as_str()));
            put(&mut e, "kind", json_text("browser"));
        },
        None => {
            put(&mut e, "username", Json::Null);
            put(&mut e, "kind", json_text("token"));
        },
    }
    put(&mut e, "is_admin", Json::Bool(p.is_admin));
    put(&mut e, "disabled", Json::Bool(p.disabled));
    put(&mut e, "created_at", json_int(p.created_at));
    put(&mut e, "grants", list);
    Json::Object(e)
}

/// How far a listing has come.
#[derive(Debug)]
pub enum ListStage {
    /// The principals are asked for.
    Principals,
    /// The grants of each are asked for, in turn.
    Grants { principals: Vec<PrincipalRecord>, grants: Vec<Vec<(String, String)>> },
    Refused(ApiError),
}

pub enum ListStageView {
    Principals,
    Grants { principals: Seq<PrincipalRecordView>, grants: Seq<Seq<(Seq<char>, Seq<char>)>> },
    Refused(ErrorView),
}

pub open spec fn grant_views(v: Seq<Vec<(String, String)>>) -> Seq<Seq<(Seq<char>, Seq<char>)>> {
    Seq::new(v.len(), |i: int| pair_views(v[i]@))
}

impl View for ListStage {
    type V = ListStageView;

    open spec fn view(&self) -> ListStageView {
        match *self {
            ListStage::Principals => ListStageView::Principals,
            ListStage::Grants { principals, grants } => ListStageView::Grants {
                principals: record_views(principals@),
                grants: grant_views(grants@),
            },
            ListStage::Refused(e) => ListStageView::Refused(e@),
        }
    }
}

/// A listing of principals in progress.
#[derive(Debug)]
pub struct ListRun {
    search: Statement,
    stage: ListStage,
}

#[verifier::ext_equal]
pub struct ListView {
    pub search: StatementView,
    pub stage: ListStageView,
}

impl View for ListRun {
    type V = ListView;

    closed spec fn view(&self) -> ListView {
        ListView { search: self.search@, stage: self.stage@ }
    }
}

pub open spec fn grants_statement(principal_id: Seq<char>) -> StatementView {
    query_view(
        "SELECT database_name, role FROM grants WHERE principal_id = ?1 ORDER BY database_name"@,
        seq![ValueView::Text(principal_id)],
    )
}

pub open spec fn list_asks(s: ListView) -> Option<StatementView> {
    match s.stage {
        ListStageView::Principals => Some(s.search),
        ListStageView::Grants { principals, grants } => if grants.len() < principals.len() {
            Some(grants_statement(principals[grants.len() as int].id))
        } else {
            None
        },
        ListStageView::Refused(_) => None,
    }
}

pub open spec fn list_next(s: ListView, r: ReplyView) -> ListStageView {
    match s.stage {
        ListStageView::Principals => match listed_principals(r) {
            Err(e) => ListStageView::Refused(e),
            Ok(principals) => ListStageView::Grants { principals, grants: Seq::empty() },
        },
        ListStageView::Grants { principals, grants } => if grants.len() < principals.len() {
            match listed_grants(r) {
                Err(e) => ListStageView::Refused(e),
                Ok(g) => ListStageView::Grants { principals, grants: grants.push(g) },
            }
        } else {
            s.stage
        },
        over => over,
    }
}

/// What a listing comes to.
pub open spec fn list_answer(s: ListStageView) -> Result<AnswerView, ErrorView> {
    match s {
        ListStageView::Refused(e) => Err(e),
        ListStageView::Grants { principals, grants } => if grants.len() < principals.len() {
            Err(internal_error())
        } else {
            Ok(
                AnswerView {
                    status: 200,
                    body: Some(
                        JsonView::Object(
                            map![
                                "principals"@ => JsonView::Array(
                                    Seq::new(
                                        principals.len(),
                                        |i: int| principal_json(principals[i], grants[i]),
                                    ),
                                ),
                            ],
                        ),
                    ),
                },
            )
        },
        ListStageView::Principals => Err(internal_error()),
    }
}

/// Begins a listing of principals.
pub fn list_principals(query: &ListPrincipalsQuery) -> (r: ListRun)
    ensures
        r@.stage is Principals,
        r@.search == crate::system::list_statement(
            match query.name {
                Some(q) => Some(q@),
                None => None,
            },
        ),
{
    let search = match &query.name {
        Some(q) => System::find_principals(Some(q.as_str())),
        None => System::find_principals(None),
    };
    ListRun { search, stage: ListStage::Principals }
}

impl ListRun {
    /// The statement to run next; none when the listing is over.
    pub fn statement(&self) -> (r: Option<Statement>)
        ensures
            match r {
                Some(s) => list_asks(self@) == Some(s@),
                None => list_asks(self@) is None,
            },
    {
        match &self.stage {
            ListStage::Principals => Some(self.search.duplicate()),
            ListStage::Grants { principals, grants } => {
                if grants.len() < principals.len() {
                    Some(System::grants_for(principals[grants.len()].id.as_str()))
                } else {
                    None
                }
            },
            ListStage::Refused(_) => None,
        }
    }

    /// Takes the reply to the statement.
    pub fn accept(self, reply: &Reply) -> (r: ListRun)
        ensures
            r@ == (ListView { stage: list_next(self@, reply@), ..self@ }),
    {
        let stage = match self.stage {
            ListStage::Principals => match System::principals_listed(reply) {
                Err(e) => ListStage::Refused(e),
                Ok(principals) => {
                    let grants: Vec<Vec<(String, String)>> = Vec::new();
                    assert(grant_views(grants@) =~= Seq::empty());
                    ListStage::Grants { principals, grants }
                },
            },
            ListStage::Grants { principals, grants } => {
                if grants.len() < principals.len() {
                    match System::grants_listed(reply) {
                        Err(e) => ListStage::Refused(e),
                        Ok(g) => {
                            let mut more = grants;
                            more.push(g);
                            assert(grant_views(more@) =~= grant_views(grants@).push(
                                pair_views(g@),
                            ));
                            ListStage::Grants { principals, grants: more }
                        },
                    }
                } else {
                    ListStage::Grants { principals, grants }
                }
            },
            over => over,
        };
        ListRun { search: self.search, stage }
    }

    /// What the request is answered.
    pub fn answer(self) -> (r: ApiResult<Answer>)
        ensures
            answers(r, list_answer(self@.stage)),
    {
        match self.stage {
            ListStage::Refused(e) => Err(e),
            ListStage::Principals => Err(ApiError::internal()),
            ListStage::Grants { principals, grants } => {
                if grants.len() < principals.len() {
                    return Err(ApiError::internal());
                }
                let ghost ps = record_views(principals@);
                let ghost gs = grant_views(grants@);
                let mut out: Vec<Json> = Vec::new();
                let mut i: usize = 0;
                while i < principals.len()
                    invariant
                        principals@.len() <= grants@.len(),
                        ps == record_views(principals@),
                        gs == grant_views(grants@),
                        i <= principals@.len(),
                        out@.len() == i,
                        forall|k: int|
                            0 <= k < i ==> (#[trigger] out@[k])@ == principal_json(ps[k], gs[k]),
                    decreases principals@.len() - i,
                {
                    out.push(principal_as_json(&principals[i], &grants[i]));
                    i = i + 1;
                }
                let list = Json::Array(out);
                assert(list@->Array_0 =~= Seq::new(
                    ps.len(),
                    |i: int| principal_json(ps[i], gs[i]),
                ));
                let mut e: Vec<(String, Json)> = Vec::new();
                put(&mut e, "principals", list);
                Ok(answer(200, e))
            },
        }
    }
}

/// A request for another password.
#[derive(Debug)]
pub struct ResetBrowserPasswordBody {
    pub name: String,
    pub password: String,
}

/// The hash of the password that a request sets, when it is known what hashing gave.
pub open spec fn reset_outcome(body: ResetBrowserPasswordBody, hashed: Option<Seq<char>>) -> Result<
    Seq<char>,
    ErrorView,
> {
    if !username_ok(body.name@) {
        Err(validation_error("username must be 3 to 64 letters, numbers, '_' or '-'"@))
    } else {
        password_outcome(body.password@, hashed)
    }
}

/// The hash of the password that a request sets.
pub fn reset_browser_password_with(body: &ResetBrowserPasswordBody, hashed: Option<String>) -> (r:
    ApiResult<String>)
    ensures
        match r {
            Ok(h) => reset_outcome(*body, text_view(hashed)) == Ok::<Seq<char>, ErrorView>(h@),
            Err(e) => reset_outcome(*body, text_view(hashed)) == Err::<Seq<char>, ErrorView>(e@),
        },
{
    match require_username(body.name.as_str()) {
        Ok(_) => accept_password(body.password.as_str(), hashed),
        Err(e) => Err(e),
    }
}

/// The hash of the password that a request sets.
pub fn reset_browser_password(body: &ResetBrowserPasswordBody) -> (r: ApiResult<String>)
    ensures
        match r {
            Ok(h) => username_ok(body.name@) && password_ok(body.password@) && opens(
                body.password@,
                h@,
            ),
            Err(e) => if !username_ok(body.name@) {
                e@ == validation_error("username must be 3 to 64 letters, numbers, '_' or '-'"@)
            } else {
                !password_ok(body.password@) && e@ == validation_error(
                    "password must be 12 to 1024 characters"@,
                )
            },
        },
{
    match require_username(body.name.as_str()) {
        Ok(_) => hash_password(body.password.as_str()),
        Err(e) => Err(e),
    }
}

/// What a request for another password is answered, by whose it was.
pub fn password_reset(name: &str, user: Option<BrowserUser>) -> (r: ApiResult<Answer>)
    ensures
        answers(
            r,
            match user {
                Some(u) => Ok(user_answer(200, u.id@, name@)),
                None => Err(not_found_error("browser user not found"@)),
            },
        ),
{
    match user {
        Some(u) => Ok(name_user(200, u.id.as_str(), name)),
        None => Err(ApiError::not_found("browser user not found")),
    }
}

/// What a request to disable a principal is answered, by the reply to its statement.
pub fn delete_principal(reply: &Reply) -> (r: ApiResult<Answer>)
    ensures
        answers(
            r,
            match changed_any(reply@) {
                Err(e) => Err(e),
                Ok(true) => Ok(no_content()),
                Ok(false) => Err(not_found_error("principal not found"@)),
            },
        ),
{
    match crate::system::changed(reply) {
        Err(e) => Err(e),
        Ok(found) => {
            if found {
                Ok(Answer { status: 204, body: None })
            } else {
                Err(ApiError::not_found("principal not found"))
            }
        },
    }
}

// ---- Registration ----------------------------------------------------------

/// A request for another policy on registration.
#[derive(Debug)]
pub struct RegistrationBody {
    pub enabled: bool,
}

/// The policy on registration, as it is answered.
pub open spec fn registration_answer(enabled: bool) -> AnswerView {
    AnswerView {
        status: 200,
        body: Some(JsonView::Object(map!["enabled"@ => JsonView::Bool(enabled)])),
    }
}

/// The policy on registration, as it is answered.
pub fn registration_status(enabled: bool) -> (r: Answer)
    ensures
        r@ == registration_answer(enabled),
{
    let mut e: Vec<(String, Json)> = Vec::new();
    put(&mut e, "enabled", Json::Bool(enabled));
    answer(200, e)
}

/// What a request for another policy is answered, by the reply to its statement.
pub fn set_registration(body: &RegistrationBody, reply: &Reply) -> (r: ApiResult<Answer>)
    ensures
        answers(
            r,
            if failed(reply@) {
                Err(internal_error())
            } else {
                Ok(registration_answer(body.enabled))
            },
        ),
{
    match done(reply) {
        Ok(_) => Ok(registration_status(body.enabled)),
        Err(e) => Err(e),
    }
}

// ---- Grants ----------------------------------------------------------------

/// A request for a grant.
#[derive(Debug)]
pub struct CreateGrantBody {
    pub principal_id: String,
    pub database: String,
    pub role: String,
}

/// How far a grant has come.
#[derive(Debug)]
pub enum GrantStage {
    /// Whether there is such a database.
    Exists,
    Enter,
    Entered,
    Refused(ApiError),
}

pub enum GrantStageView {
    Exists,
    Enter,
    Entered,
    Refused(ErrorView),
}

impl View for GrantStage {
    type V = GrantStageView;

    open spec fn view(&self) -> GrantStageView {
        match *self {
            GrantStage::Exists => GrantStageView::Exists,
            GrantStage::Enter => GrantStageView::Enter,
            GrantStage::Entered => GrantStageView::Entered,
            GrantStage::Refused(e) => GrantStageView::Refused(e@),
        }
    }
}

/// A grant in progress.
#[derive(Debug)]
pub struct GrantRun {
    principal_id: String,
    database: String,
    role: Role,
    stage: GrantStage,
}

#[verifier::ext_equal]
pub struct GrantView {
    pub principal_id: Seq<char>,
    pub database: Seq<char>,
    pub role: Role,
    pub stage: GrantStageView,
}

impl View for GrantRun {
    type V = GrantView;

    closed spec fn view(&self) -> GrantView {
        GrantView {
            principal_id: self.principal_id@,
            database: self.database@,
            role: self.role,
            stage: self.stage@,
        }
    }
}

pub open spec fn grant_asks(s: GrantView) -> Option<StatementView> {
    match s.stage {
        GrantStageView::Exists => Some(database_exists_statement(s.database)),
        GrantStageView::Enter => Some(
            execute_view(
                "INSERT INTO grants (principal_id, database_name, role) VALUES (?1, ?2, ?3) ON CONFLICT(principal_id, database_name) DO UPDATE SET role = excluded.role"@,
                seq![
                    ValueView::Text(s.principal_id),
                    ValueView::Text(s.database),
                    ValueView::Text(role_name(s.role)),
                ],
            ),
        ),
        _ => None,
    }
}

pub open spec fn grant_next(s: GrantView, r: ReplyView) -> GrantStageView {
    match s.stage {
        GrantStageView::Exists => match counted_rows(r) {
            Err(e) => GrantStageView::Refused(e),
            Ok(n) => if n <= 0 {
                GrantStageView::Refused(not_found_error("database not found"@))
            } else {
                GrantStageView::Enter
            },
        },
        GrantStageView::Enter => if failed(r) {
            GrantStageView::Refused(internal_error())
        } else {
            GrantStageView::Entered
        },
        over => over,
    }
}

/// Why a request for a grant is not taken, if it is not.
pub open spec fn grant_refusal(body: CreateGrantBody) -> Option<ErrorView> {
    if !name_ok(body.database@) {
        Some(validation_error(name_error("database"@)))
    } else if named_role(body.role@) is None {
        Some(validation_error("role must be 'read', 'write', or 'admin'"@))
    } else {
        None
    }
}

/// Begins a grant.
pub fn create_grant(body: CreateGrantBody) -> (r: ApiResult<GrantRun>)
    ensures
        match r {
            Ok(g) => grant_refusal(body) is None && g@ == (GrantView {
                principal_id: body.principal_id@,
                database: body.database@,
                role: named_role(body.role@)->0,
                stage: GrantStageView::Exists,
            }),
            Err(e) => grant_refusal(body) == Some(e@),
        },
{
    match require_valid_name("database", body.database.as_str()) {
        Ok(_) => {},
        Err(e) => {
            return Err(e);
        },
    }
    match Role::parse(body.role.as_str()) {
        Some(role) => Ok(
            GrantRun {
                principal_id: body.principal_id,
                database: body.database,
                role,
                stage: GrantStage::Exists,
            },
        ),
        None => Err(ApiError::validation("role must be 'read', 'write', or 'admin'")),
    }
}

impl GrantRun {
    /// The statement to run next; none when the grant is over.
    pub fn statement(&self) -> (r: Option<Statement>)
        ensures
            match r {
                Some(s) => grant_asks(self@) == Some(s@),
                None => grant_asks(self@) is None,
            },
    {
        match &self.stage {
            GrantStage::Exists => Some(System::database_exists(self.database.as_str())),
            GrantStage::Enter => Some(
                System::upsert_grant(self.principal_id.as_str(), self.database.as_str(), self.role),
            ),
            _ => None,
        }
    }

    /// Takes the reply to the statement.
    pub fn accept(&mut self, reply: &Reply)
        ensures
            final(self)@ == (GrantView { stage: grant_next(old(self)@, reply@), ..old(self)@ }),
    {
        let next = match &self.stage {
            GrantStage::Exists => match crate::system::counted(reply) {
                Err(e) => GrantStage::Refused(e),
                Ok(n) => if n <= 0 {
                    GrantStage::Refused(ApiError::not_found("database not found"))
                } else {
                    GrantStage::Enter
                },
            },
            GrantStage::Enter => if reply.is_failed() {
                GrantStage::Refused(ApiError::internal())
            } else {
                GrantStage::Entered
            },
            _ => {
                return ;
            },
        };
        self.stage = next;
    }

    /// What the request is answered.
    pub fn answer(self) -> (r: ApiResult<Answer>)
        ensures
            answers(
                r,
                match self@.stage {
                    GrantStageView::Refused(e) => Err(e),
                    GrantStageView::Entered => Ok(
                        AnswerView {
                            status: 200,
                            body: Some(
                                JsonView::Object(
                                    map![
                                        "principal_id"@ => JsonView::Text(self@.principal_id),
                                        "database"@ => JsonView::Text(self@.database),
                                        "role"@ => JsonView::Text(role_name(self@.role)),
                                    ],
                                ),
                            ),
                        },
                    ),
                    _ => Err(internal_error()),
                },
            ),
    {
        match self.stage {
            GrantStage::Refused(e) => Err(e),
            GrantStage::Entered => {
                let mut e: Vec<(String, Json)> = Vec::new();
                put(&mut e, "principal_id", Json::Text(self.principal_id));
                put(&mut e, "database", Json::Text(self.database));
                put(&mut e, "role", json_text(self.role.as_str()));
                Ok(answer(200, e))
            },
            _ => Err(ApiError::internal()),
        }
    }
}

/// A request to take a grant back.
#[derive(Debug)]
pub struct DeleteGrantBody {
    pub principal_id: String,
    pub database: String,
}

/// The statement that takes a grant back.
pub fn delete_grant(body: &DeleteGrantBody) -> (r: Statement)
    ensures
        r@ == execute_view(
            "DELETE FROM grants WHERE principal_id = ?1 AND database_name = ?2"@,
            seq![ValueView::Text(body.principal_id@), ValueView::Text(body.database@)],
        ),
{
    System::delete_grant(body.principal_id.as_str(), body.database.as_str())
}

/// What a request to take a grant back is answered, whether or not there was one.
pub fn grant_deleted(reply: &Reply) -> (r: ApiResult<Answer>)
    ensures
        answers(
            r,
            if failed(reply@) {
                Err(internal_error())
            } else {
                Ok(no_content())
            },
        ),
{
    match done(reply) {
        Ok(_) => Ok(Answer { status: 204, body: None }),
        Err(e) => Err(e),
    }
}

/// No grant is entered on a database that is not registered.
pub proof fn law_grants_need_a_database(s: GrantView, r: ReplyView)
    ensures
        !(s.stage is Enter) && grant_next(s, r) is Enter ==> s.stage is Exists && (counted_rows(
            r,
        ) matches Ok(n) && n > 0),
        !(s.stage is Entered) && grant_next(s, r) is Entered ==> s.stage is Enter && !failed(r),
{
}

// ---- Snapshots and health --------------------------------------------------

/// What a request for a copy of a database is answered: where the copy is, and how
/// large.
pub fn snapshot(path: &str, bytes: u64) -> (r: Answer)
    ensures
        r@ == (AnswerView {
            status: 200,
            body: Some(
                JsonView::Object(
                    map!["path"@ => JsonView::Text(path@), "bytes"@ => int_view(bytes as int)],
                ),
            ),
        }),
{
    let mut e: Vec<(String, Json)> = Vec::new();
    put(&mut e, "path", json_text(path));
    put(&mut e, "bytes", json_uint(bytes));
    answer(200, e)
}

/// What a request about the health of the server is answered.
pub fn health() -> (r: Answer)
    ensures
        r@ == (AnswerView {
            status: 200,
            body: Some(JsonView::Object(map!["status"@ => JsonView::Text("ok"@)])),
        }),
{
    let mut e: Vec<(String, Json)> = Vec::new();
    put(&mut e, "status", json_text("ok"));
    answer(200, e)
}

/// What a request on a route that does not exist is answered.
pub fn api_not_found() -> (r: ApiError)
    ensures
        r@ == not_found_error("API route not found"@),
{
    ApiError::not_found("API route not found")
}

} // verus!
