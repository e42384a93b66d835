//! The command of an operator that gives a principal a role on a database.
//!
//! The principal is named by its identifier or by an exact name. The grant is stored
//! under the identifier that was found, and nothing is stored where nobody or more than
//! one is found.

use crate::cli::{granted_line, require_database};
use crate::sessions::{
    resolve_asks, resolve_message, resolve_next, resolve_principal, ResolveRun, ResolveStage,
    ResolveView,
};
use crate::sql::{failed, scalar_int, Reply, ReplyView, Statement, StatementView};
use crate::system::{database_exists_statement, role_name, upsert_grant_statement, Role, System};
use vstd::prelude::*;

verus! {

/// How far a grant has come.
#[derive(Debug)]
pub enum GrantStage {
    /// Whether the database exists.
    Database,
    /// Who is meant.
    Resolve(ResolveRun),
    /// The grant is stored for this principal.
    Store(String),
    /// The grant was stored for this principal.
    Granted(String),
    /// Nothing was granted, for this reason.
    Refused(String),
}

pub enum GrantStageView {
    Database,
    Resolve(ResolveView),
    Store(Seq<char>),
    Granted(Seq<char>),
    Refused(Seq<char>),
}

impl View for GrantStage {
    type V = GrantStageView;

    open spec fn view(&self) -> GrantStageView {
        match *self {
            GrantStage::Database => GrantStageView::Database,
            GrantStage::Resolve(r) => GrantStageView::Resolve(r.stage@),
            GrantStage::Store(id) => GrantStageView::Store(id@),
            GrantStage::Granted(id) => GrantStageView::Granted(id@),
            GrantStage::Refused(m) => GrantStageView::Refused(m@),
        }
    }
}

/// A grant in progress.
#[derive(Debug)]
pub struct GrantRun {
    user: String,
    db: String,
    role: Role,
    stage: GrantStage,
}

#[verifier::ext_equal]
pub struct GrantView {
    pub user: Seq<char>,
    pub db: Seq<char>,
    pub role: Role,
    pub stage: GrantStageView,
}

impl View for GrantRun {
    type V = GrantView;

    closed spec fn view(&self) -> GrantView {
        GrantView { user: self.user@, db: self.db@, role: self.role, stage: self.stage@ }
    }
}

/// What the grant asks of the engine next.
pub open spec fn grant_asks(g: GrantView) -> Option<StatementView> {
    match g.stage {
        GrantStageView::Database => Some(database_exists_statement(g.db)),
        GrantStageView::Resolve(s) => resolve_asks(g.user, s),
        GrantStageView::Store(id) => Some(upsert_grant_statement(id, g.db, g.role)),
        _ => None,
    }
}

/// What the search for the principal leads to: it goes on, or somebody was found, or
/// nothing is granted.
pub open spec fn after_search(user: Seq<char>, s: ResolveView) -> GrantStageView {
    match s {
        ResolveView::Resolved(id) => GrantStageView::Store(id),
        ResolveView::ById | ResolveView::ByName => GrantStageView::Resolve(s),
        _ => GrantStageView::Refused(resolve_message(user, s)->0),
    }
}

/// Where the grant goes on the reply to its statement.
pub open spec fn grant_next(g: GrantView, r: ReplyView) -> GrantStageView {
    match g.stage {
        GrantStageView::Database => match scalar_int(r) {
            None => GrantStageView::Refused("internal error"@),
            Some(n) => if n > 0 {
                GrantStageView::Resolve(ResolveView::ById)
            } else {
                GrantStageView::Refused("database '"@ + g.db + "' does not exist"@)
            },
        },
        GrantStageView::Resolve(s) => after_search(g.user, resolve_next(s, r)),
        GrantStageView::Store(id) => if failed(r) {
            GrantStageView::Refused("internal error"@)
        } else {
            GrantStageView::Granted(id)
        },
        over => over,
    }
}

/// Begins to give the principal that `user` names a role on a database.
pub fn grant(user: &str, db: &str, role: Role) -> (r: GrantRun)
    ensures
        r.well_formed(),
        r@ == (GrantView { user: user@, db: db@, role, stage: GrantStageView::Database }),
{
    GrantRun { user: user.to_string(), db: db.to_string(), role, stage: GrantStage::Database }
}

/// Where a search that has taken a reply leads to.
fn search_on(run: ResolveRun) -> (r: GrantStage)
    ensures
        r@ == after_search(run.wanted@, run.stage@),
        r matches GrantStage::Resolve(s) ==> s.wanted@ == run.wanted@,
{
    match &run.stage {
        ResolveStage::ById | ResolveStage::ByName => GrantStage::Resolve(run),
        _ => match run.result() {
            Ok(id) => GrantStage::Store(id),
            Err(m) => GrantStage::Refused(m),
        },
    }
}

impl GrantRun {
    /// The search is for the one whom the operator named.
    pub closed spec fn well_formed(self) -> bool {
        self.stage matches GrantStage::Resolve(s) ==> s.wanted@ == self.user@
    }

    /// The statement to run next; none when the grant is over.
    pub fn statement(&self) -> (r: Option<Statement>)
        requires
            self.well_formed(),
        ensures
            match r {
                Some(s) => grant_asks(self@) == Some(s@),
                None => grant_asks(self@) is None,
            },
    {
        match &self.stage {
            GrantStage::Database => Some(System::database_exists(self.db.as_str())),
            GrantStage::Resolve(s) => s.statement(),
            GrantStage::Store(id) => Some(
                System::upsert_grant(id.as_str(), self.db.as_str(), self.role),
            ),
            _ => None,
        }
    }

    /// Takes the reply to the statement.
    pub fn accept(self, reply: &Reply) -> (r: GrantRun)
        requires
            self.well_formed(),
        ensures
            r.well_formed(),
            r@ == (GrantView { stage: grant_next(self@, reply@), ..self@ }),
    {
        let stage = match self.stage {
            GrantStage::Database => match reply.scalar_int() {
                None => GrantStage::Refused("internal error".to_string()),
                Some(n) => match require_database(self.db.as_str(), n) {
                    Ok(_) => GrantStage::Resolve(resolve_principal(self.user.as_str())),
                    Err(m) => GrantStage::Refused(m),
                },
            },
            GrantStage::Resolve(s) => {
                let mut s = s;
                s.accept(reply);
                search_on(s)
            },
            GrantStage::Store(id) => if reply.is_failed() {
                GrantStage::Refused("internal error".to_string())
            } else {
                GrantStage::Granted(id)
            },
            over => over,
        };
        GrantRun { user: self.user, db: self.db, role: self.role, stage }
    }

    /// What the operator is told: that the role was granted, or why it was not.
    pub fn result(self) -> (r: Result<String, String>)
        ensures
            match self@.stage {
                GrantStageView::Granted(_) => r matches Ok(m) && m@ == "granted "@ + role_name(
                    self@.role,
                ) + " on "@ + self@.db + " to "@ + self@.user,
                GrantStageView::Refused(m) => r matches Err(x) && x@ == m,
                _ => r matches Err(x) && x@ == "internal error"@,
            },
    {
        match self.stage {
            GrantStage::Granted(_) => Ok(
                granted_line(self.role, self.db.as_str(), self.user.as_str()),
            ),
            GrantStage::Refused(m) => Err(m),
            _ => Err("internal error".to_string()),
        }
    }
}

// ---- What holds of every grant ---------------------------------------------

/// A grant is stored only for the principal that the search found, on a database that
/// exists: the statement that stores it comes after the one that found its identifier,
/// and bears that identifier, the database, and the role.
pub proof fn law_grant_bears_the_resolved_identifier(g: GrantView, r: ReplyView, id: Seq<char>)
    requires
        !(g.stage is Store),
        grant_next(g, r) == GrantStageView::Store(id),
    ensures
        g.stage matches GrantStageView::Resolve(s) && resolve_next(s, r) == ResolveView::Resolved(
            id,
        ) && grant_asks(GrantView { stage: grant_next(g, r), ..g }) == Some(
            upsert_grant_statement(id, g.db, g.role),
        ),
{
}

/// Nothing is stored for a text that names nobody or more than one: the grant is over,
/// and says so.
pub proof fn law_unclear_name_is_granted_nothing(g: GrantView, s: ResolveView, r: ReplyView)
    requires
        g.stage == GrantStageView::Resolve(s),
        resolve_next(s, r) is Unknown || resolve_next(s, r) is Ambiguous,
    ensures
        grant_next(g, r) == GrantStageView::Refused(
            resolve_message(g.user, resolve_next(s, r))->0,
        ),
        grant_asks(GrantView { stage: grant_next(g, r), ..g }) is None,
{
}

} // verus!
