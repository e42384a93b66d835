//! Operations of the control plane that take several statements: sessions of
//! browsers, passwords, the token of the administrator, names of principals, and
//! the tables themselves.

use crate::errors::{internal_error, ApiError, ApiResult};
use crate::ids::{new_ulid, now_ms, timestamp, ulid_text};
use crate::secret::{random_bytes, Secret, SecretBytes};
use crate::sequence::{
    law_sequence_completes, sequence_after, sequence_asks, sequence_complete, sequence_next,
    sequence_over, statement_views, SequenceRun, SequenceView,
};
use crate::sql::{
    batch, batch_view, cell_text, execute, execute_view, failed, get_text, no_params, params1,
    params2, params3, params5, query, query_view, reply_rows, rows_view, text_value, value_views,
    Reply, ReplyView, Statement, StatementView, Value, ValueView,
};
use crate::system::{first_text, insert_principal, leading_text, BrowserUser, System};
use crate::text::{concat3, decimal, decimal_text, same};
use crate::tokens::{base64url, hash_token, token_hash, token_of};
use vstd::prelude::*;

verus! {

// ---- Issuing tokens --------------------------------------------------------

/// The secrets of a session: the access token goes with every request, the refresh
/// token renews the session, and the third guards it against other sites.
#[derive(Debug)]
pub struct TokenSet {
    pub access: Secret,
    pub refresh: Secret,
    pub csrf: Secret,
}

#[verifier::ext_equal]
pub struct TokenSetView {
    pub access: Seq<char>,
    pub refresh: Seq<char>,
    pub csrf: Seq<char>,
}

impl View for TokenSet {
    type V = TokenSetView;

    open spec fn view(&self) -> TokenSetView {
        TokenSetView { access: self.access@, refresh: self.refresh@, csrf: self.csrf@ }
    }
}

/// When something ends that is valid for `ttl_secs` from `now` on.
pub open spec fn expiry(now: i64, ttl_secs: i64) -> int {
    now + ttl_secs * 1000
}

/// The time of the end can be written down.
pub open spec fn expiry_fits(now: i64, ttl_secs: i64) -> bool {
    i64::MIN <= ttl_secs * 1000 <= i64::MAX && i64::MIN <= expiry(now, ttl_secs) <= i64::MAX
}

/// When something ends that is valid for `ttl_secs` from `now` on, if that can be
/// written down.
pub fn expires_at(now: i64, ttl_secs: i64) -> (r: Option<i64>)
    ensures
        match r {
            Some(t) => expiry_fits(now, ttl_secs) && t == expiry(now, ttl_secs),
            None => !expiry_fits(now, ttl_secs),
        },
{
    match ttl_secs.checked_mul(1000) {
        Some(ms) => now.checked_add(ms),
        None => None,
    }
}

/// The statements that begin a session: what has run out is cleared away, and the
/// hashes of the new secrets are entered.
pub open spec fn issue_statements(
    principal_id: Seq<char>,
    tokens: TokenSetView,
    now: i64,
    access_ttl: i64,
    refresh_ttl: i64,
) -> Seq<StatementView> {
    seq![
        execute_view(
            "DELETE FROM browser_access_tokens WHERE expires_at <= ?1"@,
            seq![ValueView::Integer(now)],
        ),
        execute_view(
            "DELETE FROM browser_sessions WHERE expires_at <= ?1"@,
            seq![ValueView::Integer(now)],
        ),
        execute_view(
            "INSERT INTO browser_access_tokens (token_hash, principal_id, expires_at) VALUES (?1, ?2, ?3)"@,
            seq![
                ValueView::Text(token_hash(tokens.access)),
                ValueView::Text(principal_id),
                ValueView::Integer(expiry(now, access_ttl) as i64),
            ],
        ),
        execute_view(
            "INSERT INTO browser_sessions (token_hash, principal_id, csrf_hash, expires_at, created_at) VALUES (?1, ?2, ?3, ?4, ?5)"@,
            seq![
                ValueView::Text(token_hash(tokens.refresh)),
                ValueView::Text(principal_id),
                ValueView::Text(token_hash(tokens.csrf)),
                ValueView::Integer(expiry(now, refresh_ttl) as i64),
                ValueView::Integer(now),
            ],
        ),
    ]
}

/// What chance and the clock give a new session.
#[derive(Debug)]
pub struct SessionSeed {
    pub access: SecretBytes,
    pub refresh: SecretBytes,
    pub csrf: SecretBytes,
    pub now: i64,
}

#[verifier::ext_equal]
pub struct SeedView {
    pub access: Seq<u8>,
    pub refresh: Seq<u8>,
    pub csrf: Seq<u8>,
    pub now: i64,
}

impl View for SessionSeed {
    type V = SeedView;

    open spec fn view(&self) -> SeedView {
        SeedView {
            access: self.access@,
            refresh: self.refresh@,
            csrf: self.csrf@,
            now: self.now,
        }
    }
}

/// The secrets that are made of a seed.
pub open spec fn seeded_tokens(seed: SeedView) -> TokenSetView {
    TokenSetView {
        access: base64url(seed.access),
        refresh: base64url(seed.refresh),
        csrf: base64url(seed.csrf),
    }
}

/// Three times 32 fresh random bytes, and the time of the clock.
fn fresh_seed() -> (r: SessionSeed)
    ensures
        drawn(r@),
{
    SessionSeed {
        access: random_bytes(),
        refresh: random_bytes(),
        csrf: random_bytes(),
        now: now_ms(),
    }
}

/// The seed is one that chance and the clock can give: 32 bytes for each secret, and
/// a reading of the clock.
pub open spec fn drawn(seed: SeedView) -> bool {
    &&& seed.access.len() == 32
    &&& seed.refresh.len() == 32
    &&& seed.csrf.len() == 32
    &&& exists|millis: Option<u128>| seed.now == #[trigger] timestamp(millis)
}

/// The beginning of a session in progress.
#[derive(Debug)]
pub struct IssueRun {
    tokens: TokenSet,
    run: SequenceRun,
}

#[verifier::ext_equal]
pub struct IssueView {
    pub tokens: TokenSetView,
    pub run: SequenceView,
}

impl View for IssueRun {
    type V = IssueView;

    closed spec fn view(&self) -> IssueView {
        IssueView { tokens: self.tokens@, run: self.run@ }
    }
}

/// A session that is about to begin; none where its end cannot be written down.
pub open spec fn issue_start(
    principal_id: Seq<char>,
    seed: SeedView,
    access_ttl: i64,
    refresh_ttl: i64,
) -> Option<IssueView> {
    if expiry_fits(seed.now, access_ttl) && expiry_fits(seed.now, refresh_ttl) {
        Some(
            IssueView {
                tokens: seeded_tokens(seed),
                run: SequenceView {
                    todo: issue_statements(
                        principal_id,
                        seeded_tokens(seed),
                        seed.now,
                        access_ttl,
                        refresh_ttl,
                    ),
                    refused: false,
                },
            },
        )
    } else {
        None
    }
}

pub open spec fn issue_next(i: IssueView, r: ReplyView) -> IssueView {
    IssueView { run: sequence_next(i.run, r), ..i }
}

impl IssueRun {
    /// A session that is about to begin, with secrets made of `seed`.
    pub fn start(principal_id: &str, seed: &SessionSeed, access_ttl: i64, refresh_ttl: i64) -> (r:
        Option<IssueRun>)
        ensures
            match r {
                Some(i) => issue_start(principal_id@, seed@, access_ttl, refresh_ttl) == Some(i@),
                None => issue_start(principal_id@, seed@, access_ttl, refresh_ttl) is None,
            },
    {
        let now: i64 = seed.now;
        let access_end: i64 = match expires_at(now, access_ttl) {
            Some(t) => t,
            None => {
                return None;
            },
        };
        let refresh_end: i64 = match expires_at(now, refresh_ttl) {
            Some(t) => t,
            None => {
                return None;
            },
        };
        let (access, access_hash) = token_of(seed.access.as_array());
        let (refresh, refresh_hash) = token_of(seed.refresh.as_array());
        let (csrf, csrf_hash) = token_of(seed.csrf.as_array());
        let mut v: Vec<Statement> = Vec::new();
        v.push(
            execute(
                "DELETE FROM browser_access_tokens WHERE expires_at <= ?1",
                params1(Value::Integer(now)),
            ),
        );
        v.push(
            execute(
                "DELETE FROM browser_sessions WHERE expires_at <= ?1",
                params1(Value::Integer(now)),
            ),
        );
        v.push(
            execute(
                "INSERT INTO browser_access_tokens (token_hash, principal_id, expires_at) VALUES (?1, ?2, ?3)",
                params3(
                    Value::Text(access_hash),
                    text_value(principal_id),
                    Value::Integer(access_end),
                ),
            ),
        );
        v.push(
            execute(
                "INSERT INTO browser_sessions (token_hash, principal_id, csrf_hash, expires_at, created_at) VALUES (?1, ?2, ?3, ?4, ?5)",
                params5(
                    Value::Text(refresh_hash),
                    text_value(principal_id),
                    Value::Text(csrf_hash),
                    Value::Integer(refresh_end),
                    Value::Integer(now),
                ),
            ),
        );
        let tokens = TokenSet { access, refresh, csrf };
        assert(statement_views(v@) =~= issue_statements(
            principal_id@,
            tokens@,
            now,
            access_ttl,
            refresh_ttl,
        ));
        Some(IssueRun { tokens, run: SequenceRun::start(v) })
    }

    /// The statement to run next; none when nothing more is run.
    pub fn statement(&self) -> (r: Option<Statement>)
        ensures
            match r {
                Some(s) => sequence_asks(self@.run) == Some(s@),
                None => sequence_asks(self@.run) is None,
            },
    {
        self.run.statement()
    }

    /// Takes the reply to the statement.
    pub fn accept(&mut self, reply: &Reply)
        ensures
            final(self)@ == issue_next(old(self)@, reply@),
    {
        self.run.accept(reply);
    }

    /// Whether nothing more is run.
    pub fn is_over(&self) -> (r: bool)
        ensures
            r == sequence_over(self@.run),
    {
        self.run.is_over()
    }

    /// The secrets of the session, when all of it is entered.
    pub fn result(self) -> (r: ApiResult<TokenSet>)
        ensures
            match r {
                Ok(t) => sequence_complete(self@.run) && t@ == self@.tokens,
                Err(e) => !sequence_complete(self@.run) && e@ == internal_error(),
            },
    {
        if self.run.is_complete() {
            Ok(self.tokens)
        } else {
            Err(ApiError::internal())
        }
    }
}

/// Begins a session with fresh secrets, at the time of the clock.
pub fn issue_browser_tokens(principal_id: &str, access_ttl: i64, refresh_ttl: i64) -> (r: ApiResult<
    IssueRun,
>)
    ensures
        exists|seed: SeedView|
            drawn(seed) && match r {
                Ok(i) => #[trigger] issue_start(principal_id@, seed, access_ttl, refresh_ttl)
                    == Some(i@),
                Err(e) => issue_start(principal_id@, seed, access_ttl, refresh_ttl) is None && e@
                    == internal_error(),
            },
{
    let seed = fresh_seed();
    let ghost s = seed@;
    match IssueRun::start(principal_id, &seed, access_ttl, refresh_ttl) {
        Some(i) => {
            assert(issue_start(principal_id@, s, access_ttl, refresh_ttl) == Some(i@));
            Ok(i)
        },
        None => {
            assert(issue_start(principal_id@, s, access_ttl, refresh_ttl) is None);
            Err(ApiError::internal())
        },
    }
}

/// Only hashes of the secrets of a session are stored: none of the statements that
/// begin it depends on the secrets but through their hashes.
pub proof fn law_only_hashes_are_stored(
    principal_id: Seq<char>,
    a: TokenSetView,
    b: TokenSetView,
    now: i64,
    access_ttl: i64,
    refresh_ttl: i64,
)
    requires
        token_hash(a.access) == token_hash(b.access),
        token_hash(a.refresh) == token_hash(b.refresh),
        token_hash(a.csrf) == token_hash(b.csrf),
    ensures
        issue_statements(principal_id, a, now, access_ttl, refresh_ttl) == issue_statements(
            principal_id,
            b,
            now,
            access_ttl,
            refresh_ttl,
        ),
{
}

// ---- Renewing a session ----------------------------------------------------

/// How far the renewal of a session has come.
#[derive(Debug)]
pub enum RotateStage {
    /// Whose session it is.
    Find,
    /// The old session is ended.
    Drop(String),
    /// The new session of the same principal is begun.
    Issue { id: String, run: IssueRun },
    /// There is no such session.
    Unknown,
    Refused,
}

pub enum RotateStageView {
    Find,
    Drop(Seq<char>),
    Issue { id: Seq<char>, run: IssueView },
    Unknown,
    Refused,
}

impl View for RotateStage {
    type V = RotateStageView;

    open spec fn view(&self) -> RotateStageView {
        match *self {
            RotateStage::Find => RotateStageView::Find,
            RotateStage::Drop(id) => RotateStageView::Drop(id@),
            RotateStage::Issue { id, run } => RotateStageView::Issue { id: id@, run: run@ },
            RotateStage::Unknown => RotateStageView::Unknown,
            RotateStage::Refused => RotateStageView::Refused,
        }
    }
}

/// The renewal of a session in progress.
#[derive(Debug)]
pub struct RotateRun {
    refresh_hash: String,
    csrf_hash: String,
    now: i64,
    access_ttl: i64,
    refresh_ttl: i64,
    stage: RotateStage,
}

#[verifier::ext_equal]
pub struct RotateView {
    pub refresh_hash: Seq<char>,
    pub csrf_hash: Seq<char>,
    pub now: i64,
    pub access_ttl: i64,
    pub refresh_ttl: i64,
    pub stage: RotateStageView,
}

impl View for RotateRun {
    type V = RotateView;

    closed spec fn view(&self) -> RotateView {
        RotateView {
            refresh_hash: self.refresh_hash@,
            csrf_hash: self.csrf_hash@,
            now: self.now,
            access_ttl: self.access_ttl,
            refresh_ttl: self.refresh_ttl,
            stage: self.stage@,
        }
    }
}

pub open spec fn rotate_asks(s: RotateView) -> Option<StatementView> {
    match s.stage {
        RotateStageView::Find => Some(
            query_view(
                "SELECT principal_id FROM browser_sessions WHERE token_hash = ?1 AND csrf_hash = ?2 AND expires_at > ?3"@,
                seq![
                    ValueView::Text(s.refresh_hash),
                    ValueView::Text(s.csrf_hash),
                    ValueView::Integer(s.now),
                ],
            ),
        ),
        RotateStageView::Drop(_) => Some(
            execute_view(
                "DELETE FROM browser_sessions WHERE token_hash = ?1"@,
                seq![ValueView::Text(s.refresh_hash)],
            ),
        ),
        RotateStageView::Issue { run, .. } => sequence_asks(run.run),
        _ => None,
    }
}

/// Where the renewal goes on the reply to its statement. The new session is begun
/// with secrets made of `seed`.
pub open spec fn rotate_next(s: RotateView, r: ReplyView, seed: SeedView) -> RotateStageView {
    match s.stage {
        RotateStageView::Find => match first_text(r) {
            Some(id) => RotateStageView::Drop(id),
            None => RotateStageView::Unknown,
        },
        RotateStageView::Drop(id) => if failed(r) {
            RotateStageView::Refused
        } else {
            match issue_start(id, seed, s.access_ttl, s.refresh_ttl) {
                Some(run) => RotateStageView::Issue { id, run },
                None => RotateStageView::Refused,
            }
        },
        RotateStageView::Issue { id, run } => RotateStageView::Issue {
            id,
            run: issue_next(run, r),
        },
        over => over,
    }
}

impl RotateRun {
    /// A renewal that is about to begin, at the time `now`.
    pub fn start_at(
        refresh: &str,
        csrf: &str,
        access_ttl: i64,
        refresh_ttl: i64,
        now: i64,
    ) -> (r: RotateRun)
        ensures
            r@ == (RotateView {
                refresh_hash: token_hash(refresh@),
                csrf_hash: token_hash(csrf@),
                now,
                access_ttl,
                refresh_ttl,
                stage: RotateStageView::Find,
            }),
    {
        RotateRun {
            refresh_hash: hash_token(refresh),
            csrf_hash: hash_token(csrf),
            now,
            access_ttl,
            refresh_ttl,
            stage: RotateStage::Find,
        }
    }

    /// The statement to run next; none when the renewal is over.
    pub fn statement(&self) -> (r: Option<Statement>)
        ensures
            match r {
                Some(s) => rotate_asks(self@) == Some(s@),
                None => rotate_asks(self@) is None,
            },
    {
        match &self.stage {
            RotateStage::Find => Some(
                query(
                    "SELECT principal_id FROM browser_sessions WHERE token_hash = ?1 AND csrf_hash = ?2 AND expires_at > ?3",
                    params3(
                        text_value(self.refresh_hash.as_str()),
                        text_value(self.csrf_hash.as_str()),
                        Value::Integer(self.now),
                    ),
                ),
            ),
            RotateStage::Drop(_) => Some(
                execute(
                    "DELETE FROM browser_sessions WHERE token_hash = ?1",
                    params1(text_value(self.refresh_hash.as_str())),
                ),
            ),
            RotateStage::Issue { run, .. } => run.statement(),
            _ => None,
        }
    }

    /// Takes the reply to the statement.
    pub fn accept(self, reply: &Reply, seed: &SessionSeed) -> (r: RotateRun)
        ensures
            r@ == (RotateView { stage: rotate_next(self@, reply@, seed@), ..self@ }),
    {
        let stage = match self.stage {
            RotateStage::Find => match leading_text(reply) {
                Some(id) => RotateStage::Drop(id),
                None => RotateStage::Unknown,
            },
            RotateStage::Drop(id) => if reply.is_failed() {
                RotateStage::Refused
            } else {
                match IssueRun::start(id.as_str(), seed, self.access_ttl, self.refresh_ttl) {
                    Some(run) => RotateStage::Issue { id, run },
                    None => RotateStage::Refused,
                }
            },
            RotateStage::Issue { id, run } => {
                let mut run = run;
                run.accept(reply);
                RotateStage::Issue { id, run }
            },
            over => over,
        };
        RotateRun {
            refresh_hash: self.refresh_hash,
            csrf_hash: self.csrf_hash,
            now: self.now,
            access_ttl: self.access_ttl,
            refresh_ttl: self.refresh_ttl,
            stage,
        }
    }

    /// Takes the reply to the statement, with fresh secrets.
    pub fn resume(self, reply: &Reply) -> (r: RotateRun)
        ensures
            exists|seed: SeedView|
                drawn(seed) && r@ == (RotateView {
                    stage: #[trigger] rotate_next(self@, reply@, seed),
                    ..self@
                }),
    {
        let seed = fresh_seed();
        let ghost before = self@;
        let r = self.accept(reply, &seed);
        assert(r@ == (RotateView { stage: rotate_next(before, reply@, seed@), ..before }));
        r
    }

    /// Whose session it is and the secrets of the new one; none where there was no
    /// such session.
    pub fn result(self) -> (r: ApiResult<Option<(String, TokenSet)>>)
        ensures
            match self@.stage {
                RotateStageView::Unknown => r matches Ok(None),
                RotateStageView::Issue { id, run } => if sequence_complete(run.run) {
                    r matches Ok(Some((p, t))) && p@ == id && t@ == run.tokens
                } else {
                    r matches Err(e) && e@ == internal_error()
                },
                _ => r matches Err(e) && e@ == internal_error(),
            },
    {
        match self.stage {
            RotateStage::Unknown => Ok(None),
            RotateStage::Issue { id, run } => match run.result() {
                Ok(t) => Ok(Some((id, t))),
                Err(e) => Err(e),
            },
            _ => Err(ApiError::internal()),
        }
    }
}

/// Begins to renew a session, at the time of the clock.
pub fn rotate_browser_session(refresh: &str, csrf: &str, access_ttl: i64, refresh_ttl: i64) -> (r:
    RotateRun)
    ensures
        r@ == (RotateView {
            refresh_hash: token_hash(refresh@),
            csrf_hash: token_hash(csrf@),
            now: r@.now,
            access_ttl,
            refresh_ttl,
            stage: RotateStageView::Find,
        }),
{
    let now: i64 = now_ms();
    RotateRun::start_at(refresh, csrf, access_ttl, refresh_ttl, now)
}

/// A session is used once: a new one is begun only after the statement that ends
/// the old one has succeeded, and that statement names the old one.
pub proof fn law_old_session_ends_first(s: RotateView, r: ReplyView, seed: SeedView)
    requires
        !(s.stage is Issue),
        rotate_next(s, r, seed) is Issue,
    ensures
        s.stage is Drop,
        !failed(r),
        rotate_asks(s) == Some(
            execute_view(
                "DELETE FROM browser_sessions WHERE token_hash = ?1"@,
                seq![ValueView::Text(s.refresh_hash)],
            ),
        ),
{
}

// ---- Resetting a password --------------------------------------------------

/// The statements that give a user a new password and end all its sessions.
pub open spec fn reset_statements(id: Seq<char>, password_hash: Seq<char>) -> Seq<StatementView> {
    seq![
        execute_view(
            "UPDATE principals SET password_hash = ?1 WHERE id = ?2"@,
            seq![ValueView::Text(password_hash), ValueView::Text(id)],
        ),
        execute_view(
            "DELETE FROM browser_access_tokens WHERE principal_id = ?1"@,
            seq![ValueView::Text(id)],
        ),
        execute_view(
            "DELETE FROM browser_sessions WHERE principal_id = ?1"@,
            seq![ValueView::Text(id)],
        ),
    ]
}

/// How far the reset of a password has come.
#[derive(Debug)]
pub enum ResetStage {
    /// Who signs in under the name.
    Find,
    Steps { id: String, run: SequenceRun },
    /// There is no such user.
    Unknown,
}

pub enum ResetStageView {
    Find,
    Steps { id: Seq<char>, run: SequenceView },
    Unknown,
}

impl View for ResetStage {
    type V = ResetStageView;

    open spec fn view(&self) -> ResetStageView {
        match *self {
            ResetStage::Find => ResetStageView::Find,
            ResetStage::Steps { id, run } => ResetStageView::Steps { id: id@, run: run@ },
            ResetStage::Unknown => ResetStageView::Unknown,
        }
    }
}

/// The reset of a password in progress.
#[derive(Debug)]
pub struct ResetRun {
    username: String,
    password_hash: String,
    stage: ResetStage,
}

#[verifier::ext_equal]
pub struct ResetView {
    pub username: Seq<char>,
    pub password_hash: Seq<char>,
    pub stage: ResetStageView,
}

impl View for ResetRun {
    type V = ResetView;

    closed spec fn view(&self) -> ResetView {
        ResetView {
            username: self.username@,
            password_hash: self.password_hash@,
            stage: self.stage@,
        }
    }
}

pub open spec fn reset_asks(s: ResetView) -> Option<StatementView> {
    match s.stage {
        ResetStageView::Find => Some(
            query_view(
                "SELECT id FROM principals WHERE username = ?1 AND disabled = 0 AND is_admin = 0"@,
                seq![ValueView::Text(s.username)],
            ),
        ),
        ResetStageView::Steps { run, .. } => sequence_asks(run),
        ResetStageView::Unknown => None,
    }
}

pub open spec fn reset_next(s: ResetView, r: ReplyView) -> ResetStageView {
    match s.stage {
        ResetStageView::Find => match first_text(r) {
            Some(id) => ResetStageView::Steps {
                id,
                run: SequenceView {
                    todo: reset_statements(id, s.password_hash),
                    refused: false,
                },
            },
            None => ResetStageView::Unknown,
        },
        ResetStageView::Steps { id, run } => ResetStageView::Steps {
            id,
            run: sequence_next(run, r),
        },
        ResetStageView::Unknown => ResetStageView::Unknown,
    }
}

/// A reset is over only when the password is stored and every access token and every
/// session of the user is gone.
pub proof fn law_reset_ends_every_session(
    id: Seq<char>,
    password_hash: Seq<char>,
    replies: Seq<ReplyView>,
)
    requires
        replies.len() <= reset_statements(id, password_hash).len(),
        sequence_complete(
            sequence_after(
                SequenceView { todo: reset_statements(id, password_hash), refused: false },
                replies,
            ),
        ),
    ensures
        replies.len() == reset_statements(id, password_hash).len(),
        forall|i: int| 0 <= i < replies.len() ==> !failed(#[trigger] replies[i]),
        reset_statements(id, password_hash).contains(
            execute_view(
                "DELETE FROM browser_access_tokens WHERE principal_id = ?1"@,
                seq![ValueView::Text(id)],
            ),
        ),
        reset_statements(id, password_hash).contains(
            execute_view(
                "DELETE FROM browser_sessions WHERE principal_id = ?1"@,
                seq![ValueView::Text(id)],
            ),
        ),
{
    let todo = reset_statements(id, password_hash);
    law_sequence_completes(todo, replies);
    assert(todo.contains(todo[1]));
    assert(todo.contains(todo[2]));
}

/// Begins to give a browser user another password and to end all its sessions. The
/// tokens of operators are another matter and stay.
pub fn reset_browser_password(username: &str, password_hash: &str) -> (r: ResetRun)
    ensures
        r@ == (ResetView {
            username: username@,
            password_hash: password_hash@,
            stage: ResetStageView::Find,
        }),
{
    ResetRun {
        username: username.to_string(),
        password_hash: password_hash.to_string(),
        stage: ResetStage::Find,
    }
}

impl ResetRun {
    /// The statement to run next; none when the reset is over.
    pub fn statement(&self) -> (r: Option<Statement>)
        ensures
            match r {
                Some(s) => reset_asks(self@) == Some(s@),
                None => reset_asks(self@) is None,
            },
    {
        match &self.stage {
            ResetStage::Find => Some(
                query(
                    "SELECT id FROM principals WHERE username = ?1 AND disabled = 0 AND is_admin = 0",
                    params1(text_value(self.username.as_str())),
                ),
            ),
            ResetStage::Steps { run, .. } => run.statement(),
            ResetStage::Unknown => None,
        }
    }

    /// Takes the reply to the statement.
    pub fn accept(self, reply: &Reply) -> (r: ResetRun)
        ensures
            r@ == (ResetView { stage: reset_next(self@, reply@), ..self@ }),
    {
        let stage = match self.stage {
            ResetStage::Find => match leading_text(reply) {
                Some(id) => {
                    let mut v: Vec<Statement> = Vec::new();
                    v.push(
                        execute(
                            "UPDATE principals SET password_hash = ?1 WHERE id = ?2",
                            params2(
                                text_value(self.password_hash.as_str()),
                                text_value(id.as_str()),
                            ),
                        ),
                    );
                    v.push(
                        execute(
                            "DELETE FROM browser_access_tokens WHERE principal_id = ?1",
                            params1(text_value(id.as_str())),
                        ),
                    );
                    v.push(
                        execute(
                            "DELETE FROM browser_sessions WHERE principal_id = ?1",
                            params1(text_value(id.as_str())),
                        ),
                    );
                    assert(statement_views(v@) =~= reset_statements(id@, self.password_hash@));
                    ResetStage::Steps { id, run: SequenceRun::start(v) }
                },
                None => ResetStage::Unknown,
            },
            ResetStage::Steps { id, run } => {
                let mut run = run;
                run.accept(reply);
                ResetStage::Steps { id, run }
            },
            ResetStage::Unknown => ResetStage::Unknown,
        };
        ResetRun { username: self.username, password_hash: self.password_hash, stage }
    }

    /// The user, when the password is set and the sessions are ended; none where
    /// there is no such user.
    pub fn result(self) -> (r: ApiResult<Option<BrowserUser>>)
        ensures
            match self@.stage {
                ResetStageView::Unknown => r matches Ok(None),
                ResetStageView::Steps { id, run } => if sequence_complete(run) {
                    r matches Ok(Some(u)) && u.id@ == id
                } else {
                    r matches Err(e) && e@ == internal_error()
                },
                ResetStageView::Find => r matches Err(e) && e@ == internal_error(),
            },
    {
        match self.stage {
            ResetStage::Unknown => Ok(None),
            ResetStage::Steps { id, run } => if run.is_complete() {
                Ok(Some(BrowserUser { id }))
            } else {
                Err(ApiError::internal())
            },
            ResetStage::Find => Err(ApiError::internal()),
        }
    }
}

// ---- The token of the administrator ----------------------------------------

/// How far the renewal of the administrator's token has come.
#[derive(Debug)]
pub enum AdminTokenStage {
    /// Who the first administrator is.
    Find,
    /// The new token is entered.
    Store { token: Secret, statement: Statement },
    Stored(Secret),
    Refused,
}

pub enum AdminTokenView {
    Find,
    Store { token: Seq<char>, statement: StatementView },
    Stored(Seq<char>),
    Refused,
}

impl View for AdminTokenStage {
    type V = AdminTokenView;

    open spec fn view(&self) -> AdminTokenView {
        match *self {
            AdminTokenStage::Find => AdminTokenView::Find,
            AdminTokenStage::Store { token, statement } => AdminTokenView::Store {
                token: token@,
                statement: statement@,
            },
            AdminTokenStage::Stored(t) => AdminTokenView::Stored(t@),
            AdminTokenStage::Refused => AdminTokenView::Refused,
        }
    }
}

pub open spec fn admin_token_asks(s: AdminTokenView) -> Option<StatementView> {
    match s {
        AdminTokenView::Find => Some(
            query_view(
                "SELECT id FROM principals WHERE is_admin = 1 ORDER BY created_at LIMIT 1"@,
                Seq::empty(),
            ),
        ),
        AdminTokenView::Store { statement, .. } => Some(statement),
        _ => None,
    }
}

/// The administrator is given a new token and enabled; where there is none, one is
/// entered.
pub open spec fn admin_token_next(
    s: AdminTokenView,
    r: ReplyView,
    fresh: Seq<char>,
    bytes: Seq<u8>,
    now: i64,
) -> AdminTokenView {
    match s {
        AdminTokenView::Find => {
            let token = base64url(bytes);
            AdminTokenView::Store {
                token,
                statement: match first_text(r) {
                    Some(id) => execute_view(
                        "UPDATE principals SET token_hash = ?1, disabled = 0 WHERE id = ?2"@,
                        seq![ValueView::Text(token_hash(token)), ValueView::Text(id)],
                    ),
                    None => insert_principal(fresh, "admin"@, true, token, now),
                },
            }
        },
        AdminTokenView::Store { token, .. } => if failed(r) {
            AdminTokenView::Refused
        } else {
            AdminTokenView::Stored(token)
        },
        over => over,
    }
}

/// Begins to renew the token of the administrator.
pub fn reset_admin_token() -> (r: AdminTokenStage)
    ensures
        r@ is Find,
{
    AdminTokenStage::Find
}

impl AdminTokenStage {
    /// The statement to run next; none when the renewal is over.
    pub fn statement(&self) -> (r: Option<Statement>)
        ensures
            match r {
                Some(s) => admin_token_asks(self@) == Some(s@),
                None => admin_token_asks(self@) is None,
            },
    {
        match self {
            AdminTokenStage::Find => Some(
                no_params("SELECT id FROM principals WHERE is_admin = 1 ORDER BY created_at LIMIT 1"),
            ),
            AdminTokenStage::Store { statement, .. } => Some(statement.duplicate()),
            _ => None,
        }
    }

    /// Takes the reply to the statement. The token is made of `bytes`; an
    /// administrator that is entered has the identifier `fresh`.
    pub fn accept(self, reply: &Reply, fresh: String, bytes: &[u8; 32], now: i64) -> (r:
        AdminTokenStage)
        ensures
            r@ == admin_token_next(self@, reply@, fresh@, bytes@, now),
    {
        match self {
            AdminTokenStage::Find => match leading_text(reply) {
                Some(id) => {
                    let (token, hash) = token_of(bytes);
                    let statement = execute(
                        "UPDATE principals SET token_hash = ?1, disabled = 0 WHERE id = ?2",
                        params2(Value::Text(hash), Value::Text(id)),
                    );
                    AdminTokenStage::Store { token, statement }
                },
                None => {
                    let p = System::create_principal_with("admin", true, fresh, bytes, now);
                    AdminTokenStage::Store { token: p.token, statement: p.insert }
                },
            },
            AdminTokenStage::Store { token, .. } => if reply.is_failed() {
                AdminTokenStage::Refused
            } else {
                AdminTokenStage::Stored(token)
            },
            over => over,
        }
    }

    /// Takes the reply to the statement, with a fresh token.
    pub fn resume(self, reply: &Reply) -> (r: AdminTokenStage)
        ensures
            exists|fresh: Seq<char>, bytes: Seq<u8>, now: i64|
                ulid_text(fresh) && bytes.len() == 32 && r@ == #[trigger] admin_token_next(
                    self@,
                    reply@,
                    fresh,
                    bytes,
                    now,
                ),
    {
        let fresh = new_ulid();
        let ghost id = fresh@;
        let drawn = random_bytes();
        let bytes = drawn.as_array();
        let now: i64 = now_ms();
        let ghost before = self@;
        let r = self.accept(reply, fresh, bytes, now);
        assert(r@ == admin_token_next(before, reply@, id, bytes@, now));
        r
    }

    /// The new token, when it is entered.
    pub fn result(self) -> (r: ApiResult<Secret>)
        ensures
            match self@ {
                AdminTokenView::Stored(t) => r matches Ok(x) && x@ == t,
                _ => r matches Err(e) && e@ == internal_error(),
            },
    {
        match self {
            AdminTokenStage::Stored(t) => Ok(t),
            _ => Err(ApiError::internal()),
        }
    }
}

// ---- Finding a principal by name -------------------------------------------

/// How far the search for a principal has come.
#[derive(Debug)]
pub enum ResolveStage {
    ById,
    ByName,
    Resolved(String),
    Unknown,
    /// This many principals share the name.
    Ambiguous(u64),
    Refused,
}

pub enum ResolveView {
    ById,
    ByName,
    Resolved(Seq<char>),
    Unknown,
    Ambiguous(u64),
    Refused,
}

impl View for ResolveStage {
    type V = ResolveView;

    open spec fn view(&self) -> ResolveView {
        match *self {
            ResolveStage::ById => ResolveView::ById,
            ResolveStage::ByName => ResolveView::ByName,
            ResolveStage::Resolved(id) => ResolveView::Resolved(id@),
            ResolveStage::Unknown => ResolveView::Unknown,
            ResolveStage::Ambiguous(n) => ResolveView::Ambiguous(n),
            ResolveStage::Refused => ResolveView::Refused,
        }
    }
}

/// The search for a principal in progress.
#[derive(Debug)]
pub struct ResolveRun {
    pub wanted: String,
    pub stage: ResolveStage,
}

pub open spec fn resolve_asks(wanted: Seq<char>, s: ResolveView) -> Option<StatementView> {
    match s {
        ResolveView::ById => Some(
            query_view(
                "SELECT id FROM principals WHERE id = ?1"@,
                seq![ValueView::Text(wanted)],
            ),
        ),
        ResolveView::ByName => Some(
            query_view(
                "SELECT id FROM principals WHERE lower(name) = lower(?1) OR (username IS NOT NULL AND lower(username) = lower(?1))"@,
                seq![ValueView::Text(wanted)],
            ),
        ),
        _ => None,
    }
}

/// Every row begins with a text.
pub open spec fn texts_readable(rows: Seq<Seq<ValueView>>) -> bool {
    forall|i: int| 0 <= i < rows.len() ==> cell_text(#[trigger] rows[i], 0) is Some
}

/// An identifier is looked for first, as it names one principal only. A name has to
/// name exactly one.
pub open spec fn resolve_next(s: ResolveView, r: ReplyView) -> ResolveView {
    let rows = reply_rows(r);
    match s {
        ResolveView::ById => if failed(r) {
            ResolveView::Refused
        } else if rows.len() == 0 {
            ResolveView::ByName
        } else {
            match cell_text(rows[0], 0) {
                Some(id) => ResolveView::Resolved(id),
                None => ResolveView::Refused,
            }
        },
        ResolveView::ByName => if failed(r) || !texts_readable(rows) {
            ResolveView::Refused
        } else if rows.len() == 0 {
            ResolveView::Unknown
        } else if rows.len() == 1 {
            ResolveView::Resolved(cell_text(rows[0], 0)->0)
        } else {
            ResolveView::Ambiguous(rows.len() as u64)
        },
        over => over,
    }
}

/// Begins to look for the principal with an identifier or a name.
pub fn resolve_principal(id_or_name: &str) -> (r: ResolveRun)
    ensures
        r.wanted@ == id_or_name@,
        r.stage@ is ById,
{
    ResolveRun { wanted: id_or_name.to_string(), stage: ResolveStage::ById }
}

impl ResolveRun {
    /// The statement to run next; none when the search is over.
    pub fn statement(&self) -> (r: Option<Statement>)
        ensures
            match r {
                Some(s) => resolve_asks(self.wanted@, self.stage@) == Some(s@),
                None => resolve_asks(self.wanted@, self.stage@) is None,
            },
    {
        match &self.stage {
            ResolveStage::ById => Some(
                query(
                    "SELECT id FROM principals WHERE id = ?1",
                    params1(text_value(self.wanted.as_str())),
                ),
            ),
            ResolveStage::ByName => Some(
                query(
                    "SELECT id FROM principals WHERE lower(name) = lower(?1) OR (username IS NOT NULL AND lower(username) = lower(?1))",
                    params1(text_value(self.wanted.as_str())),
                ),
            ),
            _ => None,
        }
    }

    /// Takes the reply to the statement.
    pub fn accept(&mut self, reply: &Reply)
        ensures
            final(self).wanted@ == old(self).wanted@,
            final(self).stage@ == resolve_next(old(self).stage@, reply@),
    {
        let ghost all = reply_rows(reply@);
        let next = match &self.stage {
            ResolveStage::ById => {
                if reply.is_failed() {
                    ResolveStage::Refused
                } else {
                    match reply.rows() {
                        Some(rows) => {
                            if rows.len() == 0 {
                                ResolveStage::ByName
                            } else {
                                assert(rows_view(rows@)[0] == value_views(rows@[0]@));
                                match get_text(&rows[0], 0) {
                                    Some(id) => ResolveStage::Resolved(id),
                                    None => ResolveStage::Refused,
                                }
                            }
                        },
                        None => ResolveStage::ByName,
                    }
                }
            },
            ResolveStage::ByName => {
                if reply.is_failed() {
                    ResolveStage::Refused
                } else {
                    match reply.rows() {
                        Some(rows) => {
                            let mut readable = true;
                            let mut i: usize = 0;
                            while i < rows.len()
                                invariant
                                    i <= rows@.len(),
                                    all == rows_view(rows@),
                                    readable == (forall|k: int|
                                        0 <= k < i ==> cell_text(#[trigger] all[k], 0) is Some),
                                decreases rows@.len() - i,
                            {
                                assert(all[i as int] == value_views(rows@[i as int]@));
                                if get_text(&rows[i], 0).is_none() {
                                    readable = false;
                                }
                                i = i + 1;
                            }
                            if !readable {
                                ResolveStage::Refused
                            } else if rows.len() == 0 {
                                ResolveStage::Unknown
                            } else if rows.len() == 1 {
                                assert(all[0] == value_views(rows@[0]@));
                                match get_text(&rows[0], 0) {
                                    Some(id) => ResolveStage::Resolved(id),
                                    None => ResolveStage::Refused,
                                }
                            } else {
                                ResolveStage::Ambiguous(rows.len() as u64)
                            }
                        },
                        None => ResolveStage::Unknown,
                    }
                }
            },
            _ => {
                return ;
            },
        };
        self.stage = next;
    }

    /// The identifier that was found, or what is said of a name that names nobody
    /// or several.
    pub fn result(self) -> (r: Result<String, String>)
        ensures
            match r {
                Ok(id) => self.stage@ == ResolveView::Resolved(id@),
                Err(m) => resolve_message(self.wanted@, self.stage@) == Some(m@),
            },
    {
        match self.stage {
            ResolveStage::Resolved(id) => Ok(id),
            ResolveStage::Unknown => Err(
                concat3(
                    "no principal with id or name '",
                    self.wanted.as_str(),
                    "' (see `tinylord admin list-users`)",
                ),
            ),
            ResolveStage::Ambiguous(n) => {
                let count = decimal_text(n);
                let head = concat3("'", self.wanted.as_str(), "' is ambiguous: ");
                Err(
                    concat3(
                        head.as_str(),
                        count.as_str(),
                        " principals share that name — pass the exact id (see `tinylord admin list-users`)",
                    ),
                )
            },
            _ => Err("the control plane could not be read".to_string()),
        }
    }
}

/// What is said of a search that found nobody, or several.
pub open spec fn resolve_message(wanted: Seq<char>, s: ResolveView) -> Option<Seq<char>> {
    match s {
        ResolveView::Resolved(_) => None,
        ResolveView::Unknown => Some(
            "no principal with id or name '"@ + wanted + "' (see `tinylord admin list-users`)"@,
        ),
        ResolveView::Ambiguous(n) => Some(
            "'"@ + wanted + "' is ambiguous: "@ + decimal(n as nat)
                + " principals share that name — pass the exact id (see `tinylord admin list-users`)"@,
        ),
        _ => Some("the control plane could not be read"@),
    }
}

/// A name is resolved only where it is not ambiguous: by name, exactly one row has
/// come back.
pub proof fn law_resolved_name_is_unambiguous(r: ReplyView, id: Seq<char>)
    ensures
        resolve_next(ResolveView::ByName, r) == ResolveView::Resolved(id) ==> reply_rows(r).len()
            == 1 && cell_text(reply_rows(r)[0], 0) == Some(id),
{
}

// ---- The tables ------------------------------------------------------------

pub open spec fn base_tables() -> Seq<char> {
    "CREATE TABLE IF NOT EXISTS databases (name TEXT PRIMARY KEY, created_at INTEGER NOT NULL); CREATE TABLE IF NOT EXISTS principals (id TEXT PRIMARY KEY, name TEXT NOT NULL, is_admin INTEGER NOT NULL DEFAULT 0, token_hash TEXT NOT NULL, disabled INTEGER NOT NULL DEFAULT 0, created_at INTEGER NOT NULL); CREATE UNIQUE INDEX IF NOT EXISTS ux_principals_token ON principals(token_hash); CREATE TABLE IF NOT EXISTS grants (principal_id TEXT NOT NULL, database_name TEXT NOT NULL, role TEXT NOT NULL, PRIMARY KEY (principal_id, database_name));"@
}

pub open spec fn browser_tables() -> Seq<char> {
    "CREATE TABLE IF NOT EXISTS browser_access_tokens (token_hash TEXT PRIMARY KEY, principal_id TEXT NOT NULL, expires_at INTEGER NOT NULL); CREATE INDEX IF NOT EXISTS ix_browser_access_expiry ON browser_access_tokens(expires_at); CREATE TABLE IF NOT EXISTS browser_sessions (token_hash TEXT PRIMARY KEY, principal_id TEXT NOT NULL, csrf_hash TEXT NOT NULL, expires_at INTEGER NOT NULL, created_at INTEGER NOT NULL); CREATE INDEX IF NOT EXISTS ix_browser_sessions_expiry ON browser_sessions(expires_at); CREATE TABLE IF NOT EXISTS auth_settings (key TEXT PRIMARY KEY, value INTEGER NOT NULL);"@
}

/// How far the creation of the tables has come.
#[derive(Debug)]
pub enum SchemaStage {
    Base,
    /// Which columns principals have: an older instance has no user names.
    Columns,
    AddColumns,
    AddIndex,
    Browser,
    Ready,
    Refused,
}

/// What the creation asks of the engine next.
pub open spec fn schema_asks(s: SchemaStage) -> Option<StatementView> {
    match s {
        SchemaStage::Base => Some(batch_view(base_tables())),
        SchemaStage::Columns => Some(
            query_view("PRAGMA table_info(principals)"@, Seq::empty()),
        ),
        SchemaStage::AddColumns => Some(
            batch_view(
                "ALTER TABLE principals ADD COLUMN username TEXT; ALTER TABLE principals ADD COLUMN password_hash TEXT;"@,
            ),
        ),
        SchemaStage::AddIndex => Some(
            batch_view(
                "CREATE UNIQUE INDEX IF NOT EXISTS ux_principals_username ON principals(username) WHERE username IS NOT NULL;"@,
            ),
        ),
        SchemaStage::Browser => Some(batch_view(browser_tables())),
        _ => None,
    }
}

/// A row of the table's description names this column.
pub open spec fn has_column(rows: Seq<Seq<ValueView>>, name: Seq<char>) -> bool {
    exists|i: int| 0 <= i < rows.len() && cell_text(#[trigger] rows[i], 1) == Some(name)
}

/// Every row of the table's description names a column.
pub open spec fn columns_readable(rows: Seq<Seq<ValueView>>) -> bool {
    forall|i: int| 0 <= i < rows.len() ==> cell_text(#[trigger] rows[i], 1) is Some
}

pub open spec fn schema_next(s: SchemaStage, r: ReplyView) -> SchemaStage {
    if !(s is Ready) && (failed(r) || (s is Columns && !columns_readable(reply_rows(r)))) {
        SchemaStage::Refused
    } else {
        match s {
            SchemaStage::Base => SchemaStage::Columns,
            SchemaStage::Columns => if has_column(reply_rows(r), "username"@) {
                SchemaStage::Browser
            } else {
                SchemaStage::AddColumns
            },
            SchemaStage::AddColumns => SchemaStage::AddIndex,
            SchemaStage::AddIndex => SchemaStage::Browser,
            SchemaStage::Browser => SchemaStage::Ready,
            over => over,
        }
    }
}

/// Begins to create the tables of the control plane, where they are missing.
pub fn init_schema() -> (r: SchemaStage)
    ensures
        r is Base,
{
    SchemaStage::Base
}

impl SchemaStage {
    /// The statement to run next; none when the tables are there.
    pub fn statement(&self) -> (r: Option<Statement>)
        ensures
            match r {
                Some(s) => schema_asks(*self) == Some(s@),
                None => schema_asks(*self) is None,
            },
    {
        match self {
            SchemaStage::Base => Some(
                batch(
                    "CREATE TABLE IF NOT EXISTS databases (name TEXT PRIMARY KEY, created_at INTEGER NOT NULL); CREATE TABLE IF NOT EXISTS principals (id TEXT PRIMARY KEY, name TEXT NOT NULL, is_admin INTEGER NOT NULL DEFAULT 0, token_hash TEXT NOT NULL, disabled INTEGER NOT NULL DEFAULT 0, created_at INTEGER NOT NULL); CREATE UNIQUE INDEX IF NOT EXISTS ux_principals_token ON principals(token_hash); CREATE TABLE IF NOT EXISTS grants (principal_id TEXT NOT NULL, database_name TEXT NOT NULL, role TEXT NOT NULL, PRIMARY KEY (principal_id, database_name));",
                ),
            ),
            SchemaStage::Columns => Some(no_params("PRAGMA table_info(principals)")),
            SchemaStage::AddColumns => Some(
                batch(
                    "ALTER TABLE principals ADD COLUMN username TEXT; ALTER TABLE principals ADD COLUMN password_hash TEXT;",
                ),
            ),
            SchemaStage::AddIndex => Some(
                batch(
                    "CREATE UNIQUE INDEX IF NOT EXISTS ux_principals_username ON principals(username) WHERE username IS NOT NULL;",
                ),
            ),
            SchemaStage::Browser => Some(
                batch(
                    "CREATE TABLE IF NOT EXISTS browser_access_tokens (token_hash TEXT PRIMARY KEY, principal_id TEXT NOT NULL, expires_at INTEGER NOT NULL); CREATE INDEX IF NOT EXISTS ix_browser_access_expiry ON browser_access_tokens(expires_at); CREATE TABLE IF NOT EXISTS browser_sessions (token_hash TEXT PRIMARY KEY, principal_id TEXT NOT NULL, csrf_hash TEXT NOT NULL, expires_at INTEGER NOT NULL, created_at INTEGER NOT NULL); CREATE INDEX IF NOT EXISTS ix_browser_sessions_expiry ON browser_sessions(expires_at); CREATE TABLE IF NOT EXISTS auth_settings (key TEXT PRIMARY KEY, value INTEGER NOT NULL);",
                ),
            ),
            _ => None,
        }
    }

    /// Takes the reply to the statement.
    pub fn accept(self, reply: &Reply) -> (r: SchemaStage)
        ensures
            r == schema_next(self, reply@),
    {
        if matches!(self, SchemaStage::Ready) {
            return SchemaStage::Ready;
        }
        if reply.is_failed() {
            return SchemaStage::Refused;
        }
        match self {
            SchemaStage::Base => SchemaStage::Columns,
            SchemaStage::Columns => {
                let ghost all = reply_rows(reply@);
                let mut found = false;
                match reply.rows() {
                    Some(rows) => {
                        let mut i: usize = 0;
                        while i < rows.len()
                            invariant
                                i <= rows@.len(),
                                all == rows_view(rows@),
                                all == reply_rows(reply@),
                                self is Columns,
                                !failed(reply@),
                                forall|k: int|
                                    0 <= k < i ==> cell_text(#[trigger] all[k], 1) is Some,
                                found == (exists|k: int|
                                    0 <= k < i && cell_text(#[trigger] all[k], 1) == Some(
                                        "username"@,
                                    )),
                            decreases rows@.len() - i,
                        {
                            assert(all[i as int] == value_views(rows@[i as int]@));
                            match get_text(&rows[i], 1) {
                                Some(name) => {
                                    if same(name.as_str(), "username") {
                                        found = true;
                                    }
                                },
                                None => {
                                    assert(cell_text(all[i as int], 1) is None);
                                    return SchemaStage::Refused;
                                },
                            }
                            i = i + 1;
                        }
                    },
                    None => {},
                }
                if found {
                    SchemaStage::Browser
                } else {
                    SchemaStage::AddColumns
                }
            },
            SchemaStage::AddColumns => SchemaStage::AddIndex,
            SchemaStage::AddIndex => SchemaStage::Browser,
            SchemaStage::Browser => SchemaStage::Ready,
            over => over,
        }
    }

    /// Whether the tables are there.
    pub fn is_ready(&self) -> (r: bool)
        ensures
            r == (*self is Ready),
    {
        matches!(self, SchemaStage::Ready)
    }
}

} // verus!
