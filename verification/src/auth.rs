//! Who a request comes from, and what it may do.

use crate::errors::{
    forbidden_error, internal_error, not_found_error, plain_error, unauthorized_error,
    validation_error, ApiError, ApiResult, ErrorCode, ErrorView,
};
use crate::ids::{name_error, name_ok, now_ms, require_valid_name};
use crate::limits::{follows, RateGuard};
use crate::sql::{query_view, scalar_int, Reply, ReplyView, Statement, StatementView, ValueView};
use crate::system::{
    access_token_statement, database_exists_statement, found_principal, grant_role_statement,
    role_granted, role_name, role_rank, Role, System,
};
use crate::text::{chars_of, concat3, starts, strip_prefix};
use crate::tokens::token_hash;
use vstd::prelude::*;

verus! {

/// An authenticated caller.
#[derive(Debug)]
pub struct Principal {
    pub id: String,
    /// A name for people to read.
    pub name: String,
    /// A global administrator. This alone gives no access to data.
    pub is_admin: bool,
}

#[verifier::ext_equal]
pub struct PrincipalView {
    pub id: Seq<char>,
    pub name: Seq<char>,
    pub is_admin: bool,
}

impl View for Principal {
    type V = PrincipalView;

    open spec fn view(&self) -> PrincipalView {
        PrincipalView { id: self.id@, name: self.name@, is_admin: self.is_admin }
    }
}

impl Principal {
    /// Refuses a principal that is no global administrator.
    pub fn require_admin(&self) -> (r: Result<(), ApiError>)
        ensures
            match r {
                Ok(_) => self.is_admin,
                Err(e) => !self.is_admin && e@ == forbidden_error("global admin required"@),
            },
    {
        if self.is_admin {
            Ok(())
        } else {
            Err(ApiError::forbidden("global admin required"))
        }
    }
}

/// A principal that is a global administrator.
#[derive(Debug)]
pub struct AdminPrincipal(pub Principal);

impl AdminPrincipal {
    /// Refuses a principal that is no global administrator.
    pub fn from_principal(principal: Principal) -> (r: Result<AdminPrincipal, ApiError>)
        ensures
            match r {
                Ok(a) => principal.is_admin && a.0@ == principal@,
                Err(e) => !principal.is_admin && e@ == forbidden_error("global admin required"@),
            },
    {
        match principal.require_admin() {
            Ok(_) => Ok(AdminPrincipal(principal)),
            Err(e) => Err(e),
        }
    }
}

// ---- Authentication --------------------------------------------------------

/// A header of a request.
#[derive(Debug)]
pub enum HeaderField {
    Absent,
    /// It holds something that is no text.
    Unreadable,
    Text(String),
}

pub enum HeaderView {
    Absent,
    Unreadable,
    Text(Seq<char>),
}

impl View for HeaderField {
    type V = HeaderView;

    open spec fn view(&self) -> HeaderView {
        match *self {
            HeaderField::Absent => HeaderView::Absent,
            HeaderField::Unreadable => HeaderView::Unreadable,
            HeaderField::Text(s) => HeaderView::Text(s@),
        }
    }
}

/// The token that a header of authorization bears, or what is said of a header that
/// bears none.
pub open spec fn borne_token(h: HeaderView) -> Result<Seq<char>, Seq<char>> {
    match h {
        HeaderView::Absent => Err("missing Authorization header"@),
        HeaderView::Unreadable => Err("malformed Authorization header"@),
        HeaderView::Text(s) => if starts(s, "Bearer "@) || starts(s, "bearer "@) {
            if s.len() == 7 {
                Err("empty bearer token"@)
            } else {
                Ok(s.skip(7))
            }
        } else {
            Err("expected 'Bearer <token>'"@)
        },
    }
}

/// The token that a header of authorization bears.
pub fn bearer_token(header: &HeaderField) -> (r: Result<String, ApiError>)
    ensures
        match r {
            Ok(t) => borne_token(header@) == Ok::<Seq<char>, Seq<char>>(t@),
            Err(e) => borne_token(header@) matches Err(m) && e@ == unauthorized_error(m),
        },
{
    proof {
        reveal_strlit("Bearer ");
        reveal_strlit("bearer ");
    }
    match header {
        HeaderField::Absent => Err(ApiError::unauthorized("missing Authorization header")),
        HeaderField::Unreadable => Err(ApiError::unauthorized("malformed Authorization header")),
        HeaderField::Text(s) => {
            let token = match strip_prefix(s.as_str(), "Bearer ") {
                Some(t) => t,
                None => match strip_prefix(s.as_str(), "bearer ") {
                    Some(t) => t,
                    None => {
                        return Err(ApiError::unauthorized("expected 'Bearer <token>'"));
                    },
                },
            };
            if chars_of(token.as_str()).len() == 0 {
                return Err(ApiError::unauthorized("empty bearer token"));
            }
            Ok(token)
        },
    }
}

/// How far the authentication of a request has come.
#[derive(Debug)]
pub enum AuthStage {
    /// The token is looked for among those of principals.
    ByToken,
    /// The token is looked for among the access tokens of browsers.
    ByAccess,
    Known(Principal),
    Refused(ApiError),
}

pub enum AuthStageView {
    ByToken,
    ByAccess,
    Known(PrincipalView),
    Refused(ErrorView),
}

impl View for AuthStage {
    type V = AuthStageView;

    open spec fn view(&self) -> AuthStageView {
        match *self {
            AuthStage::ByToken => AuthStageView::ByToken,
            AuthStage::ByAccess => AuthStageView::ByAccess,
            AuthStage::Known(p) => AuthStageView::Known(p@),
            AuthStage::Refused(e) => AuthStageView::Refused(e@),
        }
    }
}

/// The authentication of a request in progress.
#[derive(Debug)]
pub struct AuthRun {
    token: String,
    stage: AuthStage,
}

#[verifier::ext_equal]
pub struct AuthView {
    pub token: Seq<char>,
    pub stage: AuthStageView,
}

impl View for AuthRun {
    type V = AuthView;

    closed spec fn view(&self) -> AuthView {
        AuthView { token: self.token@, stage: self.stage@ }
    }
}

/// What the authentication asks of the engine next, at the time `now`.
pub open spec fn auth_asks(a: AuthView, now: i64) -> Option<StatementView> {
    match a.stage {
        AuthStageView::ByToken => Some(
            query_view(
                "SELECT id, name, is_admin, disabled FROM principals WHERE token_hash = ?1"@,
                seq![ValueView::Text(token_hash(a.token))],
            ),
        ),
        AuthStageView::ByAccess => Some(access_token_statement(a.token, now)),
        _ => None,
    }
}

pub open spec fn auth_next(a: AuthView, r: ReplyView) -> AuthStageView {
    match a.stage {
        AuthStageView::ByToken => match found_principal(r) {
            Ok(Some(p)) => AuthStageView::Known(p),
            Ok(None) => AuthStageView::ByAccess,
            Err(e) => AuthStageView::Refused(e),
        },
        AuthStageView::ByAccess => match found_principal(r) {
            Ok(Some(p)) => AuthStageView::Known(p),
            Ok(None) => AuthStageView::Refused(
                unauthorized_error("invalid or disabled token"@),
            ),
            Err(e) => AuthStageView::Refused(e),
        },
        over => over,
    }
}

/// Who a request comes from, on the word of the rate limit.
pub open spec fn auth_outcome(stage: AuthStageView, rate: Result<(), u64>) -> Result<
    PrincipalView,
    ErrorView,
> {
    match stage {
        AuthStageView::Known(p) => match rate {
            Ok(_) => Ok(p),
            Err(secs) => Err(
                ErrorView {
                    retry_after_secs: Some(secs),
                    ..plain_error(ErrorCode::RateLimited, "rate limit exceeded"@)
                },
            ),
        },
        AuthStageView::Refused(e) => Err(e),
        _ => Err(internal_error()),
    }
}

impl AuthRun {
    /// Begins to authenticate a request by its header of authorization.
    pub fn start(header: &HeaderField) -> (r: Result<AuthRun, ApiError>)
        ensures
            match r {
                Ok(a) => borne_token(header@) == Ok::<Seq<char>, Seq<char>>(a@.token)
                    && a@.stage is ByToken,
                Err(e) => borne_token(header@) matches Err(m) && e@ == unauthorized_error(m),
            },
    {
        match bearer_token(header) {
            Ok(token) => Ok(AuthRun { token, stage: AuthStage::ByToken }),
            Err(e) => Err(e),
        }
    }

    /// The statement to run next at the time `now`; none when the search is over.
    pub fn statement_at(&self, now: i64) -> (r: Option<Statement>)
        ensures
            match r {
                Some(s) => auth_asks(self@, now) == Some(s@),
                None => auth_asks(self@, now) is None,
            },
    {
        match &self.stage {
            AuthStage::ByToken => Some(System::lookup_by_token(self.token.as_str())),
            AuthStage::ByAccess => Some(
                System::lookup_browser_access_token_at(self.token.as_str(), now),
            ),
            _ => None,
        }
    }

    /// The statement to run next at the time of the clock.
    pub fn statement(&self) -> (r: Option<Statement>)
        ensures
            exists|now: i64|
                match r {
                    Some(s) => #[trigger] auth_asks(self@, now) == Some(s@),
                    None => auth_asks(self@, now) is None,
                },
    {
        let now: i64 = now_ms();
        self.statement_at(now)
    }

    /// Takes the reply to the statement.
    pub fn accept(self, reply: &Reply) -> (r: AuthRun)
        ensures
            r@ == (AuthView { stage: auth_next(self@, reply@), ..self@ }),
    {
        let stage = match self.stage {
            AuthStage::ByToken => match System::principal_found(reply) {
                Ok(Some(p)) => AuthStage::Known(p),
                Ok(None) => AuthStage::ByAccess,
                Err(e) => AuthStage::Refused(e),
            },
            AuthStage::ByAccess => match System::principal_found(reply) {
                Ok(Some(p)) => AuthStage::Known(p),
                Ok(None) => AuthStage::Refused(
                    ApiError::unauthorized("invalid or disabled token"),
                ),
                Err(e) => AuthStage::Refused(e),
            },
            over => over,
        };
        AuthRun { token: self.token, stage }
    }

    /// Who the request comes from, on the word of the rate limit.
    pub fn decide(self, rate: Result<(), u64>) -> (r: Result<Principal, ApiError>)
        ensures
            match r {
                Ok(p) => auth_outcome(self@.stage, rate) == Ok::<PrincipalView, ErrorView>(p@),
                Err(e) => auth_outcome(self@.stage, rate) == Err::<PrincipalView, ErrorView>(e@),
            },
    {
        match self.stage {
            AuthStage::Known(p) => match rate {
                Ok(_) => Ok(p),
                Err(secs) => Err(
                    ApiError::rate_limited("rate limit exceeded").with_retry_after(secs),
                ),
            },
            AuthStage::Refused(e) => Err(e),
            _ => Err(ApiError::internal()),
        }
    }

    /// Who the request comes from, if the guard lets it pass. The guard is asked about
    /// the principal, by its identifier, once it is known.
    pub fn decide_by(self, guard: &RateGuard) -> (r: Result<Principal, ApiError>)
        ensures
            exists|rate: Result<(), u64>|
                {
                    &&& match self@.stage {
                        AuthStageView::Known(p) => exists|wait: Option<u64>| #[trigger]
                            guard.told(p.id, wait) && follows(rate, wait),
                        _ => rate is Ok,
                    }
                    &&& (!guard.limits() ==> rate is Ok)
                    &&& match r {
                        Ok(p) => #[trigger] auth_outcome(self@.stage, rate) == Ok::<
                            PrincipalView,
                            ErrorView,
                        >(p@),
                        Err(e) => auth_outcome(self@.stage, rate) == Err::<
                            PrincipalView,
                            ErrorView,
                        >(e@),
                    }
                },
    {
        let rate = match &self.stage {
            AuthStage::Known(p) => guard.check(p.id.as_str()),
            _ => Ok(()),
        };
        let ghost stage = self@.stage;
        proof {
            if let AuthStageView::Known(p) = stage {
                let wait = choose|wait: Option<u64>| #[trigger]
                    guard.told(p.id, wait) && follows(rate, wait);
                assert(guard.told(p.id, wait) && follows(rate, wait));
            }
        }
        let r = self.decide(rate);
        assert(match r {
            Ok(p) => auth_outcome(stage, rate) == Ok::<PrincipalView, ErrorView>(p@),
            Err(e) => auth_outcome(stage, rate) == Err::<PrincipalView, ErrorView>(e@),
        });
        r
    }
}

/// Nobody is known by a token that no row bears: the request is refused.
pub proof fn law_unknown_token_is_refused(
    a: AuthView,
    by_token: ReplyView,
    by_access: ReplyView,
    rate: Result<(), u64>,
)
    requires
        a.stage is ByToken,
        found_principal(by_token) == Ok::<Option<PrincipalView>, ErrorView>(None),
        found_principal(by_access) == Ok::<Option<PrincipalView>, ErrorView>(None),
    ensures
        ({
            let second = AuthView { stage: auth_next(a, by_token), ..a };
            auth_outcome(auth_next(second, by_access), rate) == Err::<PrincipalView, ErrorView>(
                unauthorized_error("invalid or disabled token"@),
            )
        }),
{
}

// ---- Authorization ---------------------------------------------------------

/// What a request needs on a database.
#[derive(Debug, Clone, Copy, PartialEq, Eq, Structural)]
pub enum Need {
    /// At least this role.
    Role(Role),
    /// To copy the database: its `admin` role, or a global administrator.
    Snapshot,
    /// Only that the database exists.
    Exists,
}

/// How far the authorization of a request has come.
#[derive(Debug)]
pub enum AuthorizeStage {
    /// Whether the database exists.
    Exists,
    /// Which role the principal has.
    Grant,
    Allowed,
    Refused(ApiError),
}

pub enum AuthorizeStageView {
    Exists,
    Grant,
    Allowed,
    Refused(ErrorView),
}

impl View for AuthorizeStage {
    type V = AuthorizeStageView;

    open spec fn view(&self) -> AuthorizeStageView {
        match *self {
            AuthorizeStage::Exists => AuthorizeStageView::Exists,
            AuthorizeStage::Grant => AuthorizeStageView::Grant,
            AuthorizeStage::Allowed => AuthorizeStageView::Allowed,
            AuthorizeStage::Refused(e) => AuthorizeStageView::Refused(e@),
        }
    }
}

/// The authorization of a request in progress.
#[derive(Debug)]
pub struct AuthorizeRun {
    principal_id: String,
    is_admin: bool,
    db: String,
    need: Need,
    stage: AuthorizeStage,
}

#[verifier::ext_equal]
pub struct AuthorizeView {
    pub principal_id: Seq<char>,
    pub is_admin: bool,
    pub db: Seq<char>,
    pub need: Need,
    pub stage: AuthorizeStageView,
}

impl View for AuthorizeRun {
    type V = AuthorizeView;

    closed spec fn view(&self) -> AuthorizeView {
        AuthorizeView {
            principal_id: self.principal_id@,
            is_admin: self.is_admin,
            db: self.db@,
            need: self.need,
            stage: self.stage@,
        }
    }
}

pub open spec fn authorize_asks(a: AuthorizeView) -> Option<StatementView> {
    match a.stage {
        AuthorizeStageView::Exists => Some(database_exists_statement(a.db)),
        AuthorizeStageView::Grant => Some(grant_role_statement(a.principal_id, a.db)),
        _ => None,
    }
}

/// The role meets the need.
pub open spec fn meets_need(role: Option<Role>, need: Need) -> bool {
    match need {
        Need::Role(needed) => role matches Some(r) && role_rank(r) >= role_rank(needed),
        Need::Snapshot => role == Some(Role::Admin),
        Need::Exists => true,
    }
}

/// What is said of a principal whose role does not meet the need.
pub open spec fn need_error(need: Need) -> ErrorView {
    match need {
        Need::Role(needed) => forbidden_error(
            "requires '"@ + role_name(needed) + "' on database"@,
        ),
        _ => forbidden_error("requires global admin or 'admin' on database"@),
    }
}

pub open spec fn authorize_next(a: AuthorizeView, r: ReplyView) -> AuthorizeStageView {
    match a.stage {
        AuthorizeStageView::Exists => match scalar_int(r) {
            None => AuthorizeStageView::Refused(internal_error()),
            Some(n) => if n <= 0 {
                AuthorizeStageView::Refused(not_found_error("database not found"@))
            } else if a.need == Need::Exists || (a.need == Need::Snapshot && a.is_admin) {
                AuthorizeStageView::Allowed
            } else {
                AuthorizeStageView::Grant
            },
        },
        AuthorizeStageView::Grant => if meets_need(role_granted(r), a.need) {
            AuthorizeStageView::Allowed
        } else {
            AuthorizeStageView::Refused(need_error(a.need))
        },
        over => over,
    }
}

/// Begins to authorize a request on a database.
pub fn authorize(principal: &Principal, db: &str, need: Need) -> (r: ApiResult<AuthorizeRun>)
    ensures
        match r {
            Ok(a) => name_ok(db@) && a@ == (AuthorizeView {
                principal_id: principal.id@,
                is_admin: principal.is_admin,
                db: db@,
                need,
                stage: AuthorizeStageView::Exists,
            }),
            Err(e) => !name_ok(db@) && e@ == validation_error(name_error("database"@)),
        },
{
    match require_valid_name("database", db) {
        Ok(_) => Ok(
            AuthorizeRun {
                principal_id: principal.id.clone(),
                is_admin: principal.is_admin,
                db: db.to_string(),
                need,
                stage: AuthorizeStage::Exists,
            },
        ),
        Err(e) => Err(e),
    }
}

impl AuthorizeRun {
    /// The statement to run next; none when the decision has fallen.
    pub fn statement(&self) -> (r: Option<Statement>)
        ensures
            match r {
                Some(s) => authorize_asks(self@) == Some(s@),
                None => authorize_asks(self@) is None,
            },
    {
        match &self.stage {
            AuthorizeStage::Exists => Some(System::database_exists(self.db.as_str())),
            AuthorizeStage::Grant => Some(
                System::grant_role(self.principal_id.as_str(), self.db.as_str()),
            ),
            _ => None,
        }
    }

    /// Takes the reply to the statement.
    pub fn accept(&mut self, reply: &Reply)
        ensures
            final(self)@ == (AuthorizeView {
                stage: authorize_next(old(self)@, reply@),
                ..old(self)@
            }),
    {
        let next = match &self.stage {
            AuthorizeStage::Exists => match reply.scalar_int() {
                None => AuthorizeStage::Refused(ApiError::internal()),
                Some(n) => if n <= 0 {
                    AuthorizeStage::Refused(ApiError::not_found("database not found"))
                } else if self.need == Need::Exists || (self.need == Need::Snapshot
                    && self.is_admin) {
                    AuthorizeStage::Allowed
                } else {
                    AuthorizeStage::Grant
                },
            },
            AuthorizeStage::Grant => {
                let role = System::granted_role(reply);
                let met = match self.need {
                    Need::Role(needed) => match role {
                        Some(r) => r.covers(needed),
                        None => false,
                    },
                    Need::Snapshot => matches!(role, Some(Role::Admin)),
                    Need::Exists => true,
                };
                if met {
                    AuthorizeStage::Allowed
                } else {
                    match self.need {
                        Need::Role(needed) => {
                            let msg = concat3("requires '", needed.as_str(), "' on database");
                            AuthorizeStage::Refused(ApiError::forbidden(msg.as_str()))
                        },
                        _ => AuthorizeStage::Refused(
                            ApiError::forbidden("requires global admin or 'admin' on database"),
                        ),
                    }
                }
            },
            _ => {
                return ;
            },
        };
        self.stage = next;
    }

    /// Whether the request is allowed, when that is known.
    pub fn result(self) -> (r: ApiResult<()>)
        ensures
            match self@.stage {
                AuthorizeStageView::Allowed => r is Ok,
                AuthorizeStageView::Refused(e) => r matches Err(x) && x@ == e,
                _ => r matches Err(x) && x@ == internal_error(),
            },
    {
        match self.stage {
            AuthorizeStage::Allowed => Ok(()),
            AuthorizeStage::Refused(e) => Err(e),
            _ => Err(ApiError::internal()),
        }
    }
}

/// A global administrator has no access to data on that account: with a need of a
/// role, the decision is the same whether the principal is one or not.
pub proof fn law_admin_has_no_implicit_access(a: AuthorizeView, r: ReplyView, needed: Role)
    requires
        a.need == Need::Role(needed),
    ensures
        authorize_next(a, r) == authorize_next(AuthorizeView { is_admin: !a.is_admin, ..a }, r),
{
}

/// Roles are ordered: what a role allows, every greater role allows.
pub proof fn law_greater_roles_allow_more(role: Role, greater: Role, needed: Role)
    requires
        role_rank(role) <= role_rank(greater),
        meets_need(Some(role), Need::Role(needed)),
    ensures
        meets_need(Some(greater), Need::Role(needed)),
{
}

/// A request is allowed on data only by a grant that meets its need: without a
/// readable grant it is refused.
pub proof fn law_no_grant_no_access(a: AuthorizeView, r: ReplyView, needed: Role)
    requires
        a.need == Need::Role(needed),
        a.stage is Exists || a.stage is Grant,
    ensures
        authorize_next(a, r) is Allowed ==> a.stage is Grant && role_granted(r) is Some,
{
}

/// A database is copied only for a global administrator or for a principal with the
/// `admin` role on it.
pub proof fn law_snapshot_needs_an_administrator(a: AuthorizeView, r: ReplyView)
    requires
        a.need == Need::Snapshot,
        a.stage is Exists || a.stage is Grant,
    ensures
        authorize_next(a, r) is Allowed ==> a.is_admin || role_granted(r) == Some(Role::Admin),
{
}

/// What a request needs of a principal is met as the roles are described: whoever may
/// read reads, whoever may write reads and writes, and an administrator of the database
/// does everything; nobody else does anything. Where the roles meet, the request goes on,
/// and where they do not, it is refused as forbidden.
pub proof fn law_roles_open_what_they_say(a: AuthorizeView, r: ReplyView, needed: Role)
    requires
        a.stage is Grant,
        a.need == Need::Role(needed),
    ensures
        authorize_next(a, r) is Allowed <==> match (role_granted(r), needed) {
            (Some(Role::Read), Role::Read) => true,
            (Some(Role::Write), Role::Read) => true,
            (Some(Role::Write), Role::Write) => true,
            (Some(Role::Admin), _) => true,
            _ => false,
        },
        !(authorize_next(a, r) is Allowed) ==> (authorize_next(a, r) matches
            AuthorizeStageView::Refused(e) && e.code == ErrorCode::Forbidden),
{
}

/// Every role meets the need of itself, and of two different roles exactly one meets the
/// need of the other.
pub proof fn law_every_role_suffices_for_itself(role: Role, other: Role)
    ensures
        meets_need(Some(role), Need::Role(role)),
        role != other ==> (meets_need(Some(role), Need::Role(other)) <==> !meets_need(
            Some(other),
            Need::Role(role),
        )),
        !meets_need(None, Need::Role(role)),
{
}

/// What stands in the grant is what opens: the words `read`, `write`, and `admin`, and no
/// others, open what they name.
pub proof fn law_words_of_a_grant(word: Seq<char>, a: AuthorizeView, needed: Role)
    requires
        a.stage is Grant,
        a.need == Need::Role(needed),
    ensures
        ({
            let reply = ReplyView::Rows(seq![seq![ValueView::Text(word)]]);
            authorize_next(a, reply) is Allowed <==> match needed {
                Role::Read => word == "read"@ || word == "write"@ || word == "admin"@,
                Role::Write => word == "write"@ || word == "admin"@,
                Role::Admin => word == "admin"@,
            }
        }),
        authorize_next(a, ReplyView::Rows(Seq::empty())) is Refused,
{
    let reply = ReplyView::Rows(seq![seq![ValueView::Text(word)]]);
    assert(crate::sql::reply_rows(reply)[0] == seq![ValueView::Text(word)]);
    reveal_strlit("read");
    reveal_strlit("write");
    reveal_strlit("admin");
    assert("read"@[0] == 'r' && "write"@[0] == 'w' && "admin"@[0] == 'a');
}

/// On a database that exists, a request that needs a role is decided by the grant alone;
/// one that needs only the database is allowed; and a copy is allowed to a global
/// administrator, or else decided by the grant. On any other database every request is
/// told that there is none.
pub proof fn law_databases_come_first(a: AuthorizeView, n: i64)
    requires
        a.stage is Exists,
    ensures
        ({
            let next = authorize_next(a, ReplyView::Rows(seq![seq![ValueView::Integer(n)]]));
            if n == 0 {
                next matches AuthorizeStageView::Refused(e) && e.code == ErrorCode::NotFound
            } else if n > 0 {
                match a.need {
                    Need::Role(_) => next is Grant,
                    Need::Exists => next is Allowed,
                    Need::Snapshot => if a.is_admin {
                        next is Allowed
                    } else {
                        next is Grant
                    },
                }
            } else {
                true
            }
        }),
{
    let reply = ReplyView::Rows(seq![seq![ValueView::Integer(n)]]);
    assert(crate::sql::reply_rows(reply)[0] == seq![ValueView::Integer(n)]);
}

/// A copy of a database is allowed by a grant if and only if it is the `admin` role.
pub proof fn law_copies_need_the_greatest_role(a: AuthorizeView, r: ReplyView)
    requires
        a.stage is Grant,
        a.need == Need::Snapshot,
    ensures
        authorize_next(a, r) is Allowed <==> role_granted(r) == Some(Role::Admin),
        !(authorize_next(a, r) is Allowed) ==> (authorize_next(a, r) matches
            AuthorizeStageView::Refused(e) && e.code == ErrorCode::Forbidden),
{
}

/// The token of a request is what follows the word and the space, whatever it is, unless
/// it is nothing; and only such a header bears a token.
pub proof fn law_token_is_what_is_borne(token: Seq<char>, header: Seq<char>)
    ensures
        token.len() > 0 ==> borne_token(HeaderView::Text("Bearer "@ + token)) == Ok::<
            Seq<char>,
            Seq<char>,
        >(token),
        token.len() > 0 ==> borne_token(HeaderView::Text("bearer "@ + token)) == Ok::<
            Seq<char>,
            Seq<char>,
        >(token),
        borne_token(HeaderView::Text(header)) matches Ok(t) ==> t.len() > 0 && (header
            == "Bearer "@ + t || header == "bearer "@ + t),
        borne_token(HeaderView::Absent) is Err,
        borne_token(HeaderView::Unreadable) is Err,
{
    reveal_strlit("Bearer ");
    reveal_strlit("bearer ");
    assert(("Bearer "@ + token).take(7) =~= "Bearer "@);
    assert(("bearer "@ + token).take(7) =~= "bearer "@);
    assert(("Bearer "@ + token).skip(7) =~= token);
    assert(("bearer "@ + token).skip(7) =~= token);
    if header.len() >= 7 {
        assert(header =~= header.take(7) + header.skip(7));
    }
}

/// A principal is known by a row of the lookup if and only if the row is not that of a
/// disabled one, and then it is who the row says. Without a row, its token is looked for
/// among those of browsers, and after that the request is refused.
pub proof fn law_row_says_who_it_is(
    a: AuthView,
    id: Seq<char>,
    name: Seq<char>,
    admin: i64,
    disabled: i64,
)
    requires
        a.stage is ByToken || a.stage is ByAccess,
    ensures
        ({
            let row = seq![
                ValueView::Text(id),
                ValueView::Text(name),
                ValueView::Integer(admin),
                ValueView::Integer(disabled),
            ];
            let next = auth_next(a, ReplyView::Rows(seq![row]));
            let none = auth_next(a, ReplyView::Rows(Seq::empty()));
            &&& disabled == 0 ==> (next matches AuthStageView::Known(p) && p.id == id && p.name
                == name && p.is_admin == (admin != 0))
            &&& disabled != 0 ==> next == none
            &&& a.stage is ByToken ==> none is ByAccess
            &&& a.stage is ByAccess ==> (none matches AuthStageView::Refused(e) && e.code
                == ErrorCode::Unauthorized)
        }),
{
    let row = seq![
        ValueView::Text(id),
        ValueView::Text(name),
        ValueView::Integer(admin),
        ValueView::Integer(disabled),
    ];
    assert(crate::sql::reply_rows(ReplyView::Rows(seq![row]))[0] == row);
}

/// A principal that is known goes through where the rate limit lets it, and else is told
/// how long to wait.
pub proof fn law_known_principal_goes_through(p: PrincipalView, secs: u64)
    ensures
        auth_outcome(AuthStageView::Known(p), Ok(())) == Ok::<PrincipalView, ErrorView>(p),
        auth_outcome(AuthStageView::Known(p), Err(secs)) matches Err(e) && e.code
            == ErrorCode::RateLimited && e.retry_after_secs == Some(secs),
{
}

} // verus!
