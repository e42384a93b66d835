//! Signing in from a browser: user names and passwords, the guard against guessing,
//! and the cookies of a session.
//!
//! Passwords and the secrets of sessions are hashed before they are stored; only
//! access tokens leave in a body.

use crate::errors::{
    forbidden_error, internal_error, plain_error, unauthorized_error, validation_error, ApiError,
    ApiResult, ErrorCode, ErrorView,
};
use crate::json::{int_view, json_int, json_text, put, Json, JsonView};
use crate::sessions::{TokenSet, TokenSetView};
use crate::system::BrowserUser;
use crate::text::{
    chars_of, concat3, is_word, parse_unsigned, parsed_unsigned, signed_decimal, signed_text, split, split_text, starts,
    strip_prefix, trim_end, trim_start, trim_text, trimmed, views, white, word,
};
use vstd::hash_map::StringHashMap;
use vstd::prelude::*;
use vstd::utf8::encode_utf8;

verus! {

// ---- Credentials -----------------------------------------------------------

/// What a user signs in with.
#[derive(Debug)]
pub struct Credentials {
    pub username: String,
    pub password: String,
}

/// Three to 64 letters, digits, underscores, and hyphens.
pub open spec fn username_ok(s: Seq<char>) -> bool {
    &&& 3 <= s.len() <= 64
    &&& forall|i: int| 0 <= i < s.len() ==> word(#[trigger] s[i]) || s[i] == '-'
}

pub fn valid_username(username: &str) -> (r: bool)
    ensures
        r == username_ok(username@),
{
    let v = chars_of(username);
    if v.len() < 3 || v.len() > 64 {
        return false;
    }
    let mut i: usize = 0;
    while i < v.len()
        invariant
            v@ == username@,
            i <= v@.len(),
            forall|k: int| 0 <= k < i ==> word(#[trigger] v@[k]) || v@[k] == '-',
        decreases v@.len() - i,
    {
        if !is_word(v[i]) && v[i] != '-' {
            return false;
        }
        i = i + 1;
    }
    true
}

/// Refuses a user name that is not valid.
pub fn require_username(username: &str) -> (r: ApiResult<()>)
    ensures
        match r {
            Ok(_) => username_ok(username@),
            Err(e) => !username_ok(username@) && e@ == validation_error(
                "username must be 3 to 64 letters, numbers, '_' or '-'"@,
            ),
        },
{
    if valid_username(username) {
        Ok(())
    } else {
        Err(ApiError::validation("username must be 3 to 64 letters, numbers, '_' or '-'"))
    }
}

// ---- Password hashes -------------------------------------------------------

/// A parameter of a hash that says how many lanes are computed says a number below
/// 2 to the 29th.
pub open spec fn lanes_countable(part: Seq<char>) -> bool {
    starts(part, "p="@) ==> parsed_unsigned(
        part.skip("p="@.len() as int),
        0x1fff_ffff,
    ) is Some
}

/// Every parameter of a field of a hash can be computed with.
pub open spec fn field_countable(field: Seq<char>) -> bool {
    let parts = split(field, ',');
    forall|i: int| 0 <= i < parts.len() ==> lanes_countable(#[trigger] parts[i])
}

/// Every field of a hash can be computed with. No hash with more lanes was ever made
/// or matches anything.
pub open spec fn hash_countable(hash: Seq<char>) -> bool {
    let fields = split(hash, '$');
    forall|i: int| 0 <= i < fields.len() ==> field_countable(#[trigger] fields[i])
}

fn is_field_countable(field: &str) -> (r: bool)
    ensures
        r == field_countable(field@),
{
    let parts = split_text(field, ',');
    let ghost all = split(field@, ',');
    assert(views(parts@).len() == parts@.len());
    let mut i: usize = 0;
    while i < parts.len()
        invariant
            i <= parts@.len(),
            all == views(parts@),
            all == split(field@, ','),
            forall|k: int| 0 <= k < i ==> lanes_countable(#[trigger] all[k]),
        decreases parts@.len() - i,
    {
        assert(all[i as int] == parts@[i as int]@);
        match strip_prefix(parts[i].as_str(), "p=") {
            Some(n) => {
                if parse_unsigned(n.as_str(), 0x1fff_ffff).is_none() {
                    assert(!lanes_countable(all[i as int]));
                    return false;
                }
            },
            None => {},
        }
        i = i + 1;
    }
    true
}

/// Whether a hash can be computed with.
pub fn is_hash_countable(hash: &str) -> (r: bool)
    ensures
        r == hash_countable(hash@),
{
    let fields = split_text(hash, '$');
    let ghost all = split(hash@, '$');
    assert(views(fields@).len() == fields@.len());
    let mut i: usize = 0;
    while i < fields.len()
        invariant
            i <= fields@.len(),
            all == views(fields@),
            all == split(hash@, '$'),
            forall|k: int| 0 <= k < i ==> field_countable(#[trigger] all[k]),
        decreases fields@.len() - i,
    {
        assert(all[i as int] == fields@[i as int]@);
        if !is_field_countable(fields[i].as_str()) {
            assert(!field_countable(all[i as int]));
            return false;
        }
        i = i + 1;
    }
    true
}

/// The password is the one that the hash was made of.
pub uninterp spec fn password_matches(password: Seq<u8>, hash: Seq<char>) -> bool;

/// Calls `argon2::PasswordHash::new` to read the hash and
/// `argon2::PasswordVerifier::verify_password` of `argon2::Argon2::default` on it. A
/// hash that cannot be read matches nothing. The verdict is a function of the
/// password and the hash alone. The crate multiplies the number of lanes by eight in
/// 32 bits before it bounds it.
#[verifier::external_body]
fn argon2_verify(password: &[u8], hash: &str) -> (r: bool)
    requires
        hash_countable(hash@),
    ensures
        r == password_matches(password@, hash@),
{
    argon2::PasswordHash::new(hash).is_ok_and(
        |h|
            argon2::PasswordVerifier::verify_password(
                &argon2::Argon2::default(),
                password,
                &h,
            ).is_ok(),
    )
}

/// Calls `argon2::PasswordHasher::hash_password` of `argon2::Argon2::default` with a
/// fresh salt of `SaltString::generate`. The salt is a matter of chance, so the hash
/// is no function of the password; whatever the salt, the password matches the hash
/// that is made of it, which has one lane. With the default parameters and a salt of
/// 16 bytes the crate fails only on a password that is longer than its limit.
#[verifier::external_body]
fn argon2_hash(password: &[u8]) -> (r: Option<String>)
    ensures
        password@.len() <= 0xffff_ffff ==> r is Some,
        r matches Some(h) ==> hash_countable(h@) && password_matches(password@, h@),
{
    argon2::PasswordHasher::hash_password(
        &argon2::Argon2::default(),
        password,
        &argon2::password_hash::SaltString::generate(&mut rand::rngs::OsRng),
    ).ok().map(|p| p.to_string())
}

/// The password has 12 to 1024 bytes.
pub open spec fn password_ok(password: Seq<char>) -> bool {
    12 <= encode_utf8(password).len() <= 1024
}

/// What becomes of a password that was hashed: its hash, a refusal of a password
/// that is too short or too long, or an internal error where hashing failed.
pub open spec fn password_outcome(password: Seq<char>, hashed: Option<Seq<char>>) -> Result<
    Seq<char>,
    ErrorView,
> {
    if !password_ok(password) {
        Err(validation_error("password must be 12 to 1024 characters"@))
    } else {
        match hashed {
            Some(h) => Ok(h),
            None => Err(internal_error()),
        }
    }
}

/// What becomes of a password, when it is known what hashing it gave.
pub fn accept_password(password: &str, hashed: Option<String>) -> (r: Result<String, ApiError>)
    ensures
        match r {
            Ok(h) => password_outcome(password@, crate::sql::text_view(hashed)) == Ok::<
                Seq<char>,
                ErrorView,
            >(h@),
            Err(e) => password_outcome(password@, crate::sql::text_view(hashed)) == Err::<
                Seq<char>,
                ErrorView,
            >(e@),
        },
{
    let n: usize = password.as_bytes().len();
    if n < 12 || n > 1024 {
        return Err(ApiError::validation("password must be 12 to 1024 characters"));
    }
    match hashed {
        Some(h) => Ok(h),
        None => Err(ApiError::internal()),
    }
}

/// The password opens what the hash guards.
pub open spec fn opens(password: Seq<char>, hash: Seq<char>) -> bool {
    hash_countable(hash) && password_matches(encode_utf8(password), hash)
}

/// The hash of a password, which the password opens. A password is hashed if and only
/// if it is neither too short nor too long.
pub fn hash_password(password: &str) -> (r: Result<String, ApiError>)
    ensures
        match r {
            Ok(h) => password_ok(password@) && opens(password@, h@),
            Err(e) => !password_ok(password@) && e@ == validation_error(
                "password must be 12 to 1024 characters"@,
            ),
        },
{
    let n: usize = password.as_bytes().len();
    let hashed = if n < 12 || n > 1024 {
        None
    } else {
        argon2_hash(password.as_bytes())
    };
    accept_password(password, hashed)
}

/// The user who signs in: the one of that name whose password matches.
pub open spec fn signed_in(
    user: Option<(Seq<char>, Seq<char>)>,
    password: Seq<char>,
) -> Option<Seq<char>> {
    match user {
        Some((id, hash)) => if opens(password, hash) {
            Some(id)
        } else {
            None
        },
        None => None,
    }
}

/// What a login comes to, when it is known whether the password matches.
pub open spec fn login_outcome(user: Option<Seq<char>>, matches: bool) -> Result<
    Seq<char>,
    ErrorView,
> {
    match user {
        Some(id) => if matches {
            Ok(id)
        } else {
            Err(unauthorized_error("invalid username or password"@))
        },
        None => Err(unauthorized_error("invalid username or password"@)),
    }
}

pub open spec fn user_view(u: Option<BrowserUser>) -> Option<Seq<char>> {
    match u {
        Some(x) => Some(x.id@),
        None => None,
    }
}

/// What a login comes to, when it is known whether the password matches. An unknown
/// name and a wrong password are told alike.
pub fn login_verdict(user: Option<BrowserUser>, matches: bool) -> (r: ApiResult<BrowserUser>)
    ensures
        match r {
            Ok(u) => login_outcome(user_view(user), matches) == Ok::<Seq<char>, ErrorView>(u.id@),
            Err(e) => login_outcome(user_view(user), matches) == Err::<Seq<char>, ErrorView>(e@),
        },
{
    match user {
        Some(u) => if matches {
            Ok(u)
        } else {
            Err(ApiError::unauthorized("invalid username or password"))
        },
        None => Err(ApiError::unauthorized("invalid username or password")),
    }
}

/// Holds a password against the user of that name.
pub fn verify_login(user: Option<(BrowserUser, String)>, password: &str) -> (r: ApiResult<
    BrowserUser,
>)
    ensures
        ({
            let known = match user {
                Some((u, h)) => Some((u.id@, h@)),
                None => None,
            };
            match r {
                Ok(u) => signed_in(known, password@) == Some(u.id@),
                Err(e) => signed_in(known, password@) is None && e@ == unauthorized_error(
                    "invalid username or password"@,
                ),
            }
        }),
{
    match user {
        Some((u, hash)) => {
            let matches = is_hash_countable(hash.as_str()) && argon2_verify(
                password.as_bytes(),
                hash.as_str(),
            );
            login_verdict(Some(u), matches)
        },
        None => login_verdict(None, false),
    }
}

/// A user signs in with a password if and only if it opens the hash that is stored for
/// the user; nobody signs in under a name that is not known.
pub proof fn law_hashed_password_signs_in(id: Seq<char>, password: Seq<char>, hash: Seq<char>)
    ensures
        opens(password, hash) <==> signed_in(Some((id, hash)), password) == Some(id),
        signed_in(None, password) is None,
{
}

// ---- The guard against guessing --------------------------------------------

/// How many failures in a row close a login.
pub const MAX_FAILURES: u32 = 5;

/// For how long failures count, in milliseconds.
pub const WINDOW_MS: u64 = 60_000;

/// Failures of one login, and since when they are counted.
#[derive(Debug, Clone, Copy)]
pub struct Attempts {
    pub failures: u32,
    pub since: u64,
}

/// Counts failed logins. Times are milliseconds of a clock that does not go back.
pub struct LoginGuard {
    attempts: StringHashMap<Attempts>,
}

impl View for LoginGuard {
    type V = Map<Seq<char>, Attempts>;

    closed spec fn view(&self) -> Map<Seq<char>, Attempts> {
        self.attempts@
    }
}

/// The failures that count at the time `now`: those of a window that has passed do
/// not.
pub open spec fn counting(m: Map<Seq<char>, Attempts>, key: Seq<char>, now: u64) -> Attempts {
    if m.contains_key(key) && now - m[key].since < WINDOW_MS {
        m[key]
    } else {
        Attempts { failures: 0, since: now }
    }
}

/// The guard after a login was asked about.
pub open spec fn after_check(m: Map<Seq<char>, Attempts>, key: Seq<char>, now: u64) -> Map<
    Seq<char>,
    Attempts,
> {
    m.insert(key, counting(m, key, now))
}

/// A login may be tried.
pub open spec fn may_try(m: Map<Seq<char>, Attempts>, key: Seq<char>, now: u64) -> bool {
    counting(m, key, now).failures < MAX_FAILURES
}

/// The guard after a failed login.
pub open spec fn after_failure(m: Map<Seq<char>, Attempts>, key: Seq<char>, now: u64) -> Map<
    Seq<char>,
    Attempts,
> {
    let before = if m.contains_key(key) {
        m[key]
    } else {
        Attempts { failures: 0, since: now }
    };
    m.insert(
        key,
        Attempts {
            failures: if before.failures < u32::MAX {
                (before.failures + 1) as u32
            } else {
                u32::MAX
            },
            since: before.since,
        },
    )
}

impl LoginGuard {
    pub fn new() -> (r: LoginGuard)
        ensures
            r@ == Map::<Seq<char>, Attempts>::empty(),
    {
        LoginGuard { attempts: StringHashMap::new() }
    }

    /// Whether a login may be tried at the time `now`.
    pub fn check(&mut self, key: &str, now: u64) -> (r: bool)
        ensures
            r == may_try(old(self)@, key@, now),
            final(self)@ == after_check(old(self)@, key@, now),
    {
        let current = match self.attempts.get(key) {
            Some(a) => if now < a.since || now - a.since < WINDOW_MS {
                *a
            } else {
                Attempts { failures: 0, since: now }
            },
            None => Attempts { failures: 0, since: now },
        };
        self.attempts.insert(key.to_string(), current);
        current.failures < MAX_FAILURES
    }

    /// Notes that a login failed at the time `now`.
    pub fn fail(&mut self, key: &str, now: u64)
        ensures
            final(self)@ == after_failure(old(self)@, key@, now),
    {
        let before = match self.attempts.get(key) {
            Some(a) => *a,
            None => Attempts { failures: 0, since: now },
        };
        let failures: u32 = if before.failures < u32::MAX {
            before.failures + 1
        } else {
            u32::MAX
        };
        self.attempts.insert(key.to_string(), Attempts { failures, since: before.since });
    }

    /// Notes that a login succeeded: its failures are forgotten.
    pub fn success(&mut self, key: &str)
        ensures
            final(self)@ == old(self)@.remove(key@),
    {
        self.attempts.remove(key);
    }
}

impl Default for LoginGuard {
    fn default() -> (r: LoginGuard)
        ensures
            r@ == Map::<Seq<char>, Attempts>::empty(),
    {
        LoginGuard::new()
    }
}

/// Notes in the guard what came of a login at the time `now`, and hands it on. The
/// guard is not needed while the password is held against the hash.
pub fn finish_login(
    guard: &mut LoginGuard,
    key: &str,
    now: u64,
    verdict: ApiResult<BrowserUser>,
) -> (r: ApiResult<BrowserUser>)
    ensures
        match (verdict, r) {
            (Ok(u), Ok(x)) => x.id@ == u.id@ && final(guard)@ == old(guard)@.remove(key@),
            (Err(e), Err(x)) => x@ == e@ && final(guard)@ == after_failure(
                old(guard)@,
                key@,
                now,
            ),
            _ => false,
        },
{
    match verdict {
        Ok(u) => {
            guard.success(key);
            Ok(u)
        },
        Err(e) => {
            guard.fail(key, now);
            Err(e)
        },
    }
}

/// By what the failures of a login are counted: where it comes from, and the name.
pub fn login_key(address: &str, username: &str) -> (r: String)
    ensures
        r@ == address@ + ":"@ + username@,
{
    concat3(address, ":", username)
}

/// Refuses a login that may not be tried.
pub fn require_try(allowed: bool) -> (r: ApiResult<()>)
    ensures
        match r {
            Ok(_) => allowed,
            Err(e) => !allowed && e@ == (ErrorView {
                retry_after_secs: Some(60),
                ..plain_error(ErrorCode::RateLimited, "too many login attempts"@)
            }),
        },
{
    if allowed {
        Ok(())
    } else {
        Err(ApiError::rate_limited("too many login attempts").with_retry_after(60))
    }
}

/// The guard after some failed logins at the given times.
pub open spec fn after_failures(m: Map<Seq<char>, Attempts>, key: Seq<char>, times: Seq<u64>) ->
    Map<Seq<char>, Attempts>
    decreases times.len(),
{
    if times.len() == 0 {
        m
    } else {
        after_failure(after_failures(m, key, times.drop_last()), key, times.last())
    }
}

proof fn lemma_failures_count(m: Map<Seq<char>, Attempts>, key: Seq<char>, times: Seq<u64>)
    requires
        !m.contains_key(key),
        0 < times.len() <= u32::MAX,
    ensures
        ({
            let after = after_failures(m, key, times);
            after.contains_key(key) && after[key].failures == times.len() && after[key].since
                == times[0]
        }),
    decreases times.len(),
{
    if times.len() > 1 {
        lemma_failures_count(m, key, times.drop_last());
        assert(times.drop_last()[0] == times[0]);
    } else {
        reveal_with_fuel(after_failures, 2);
        assert(times.last() == times[0]);
    }
}

/// After five failures in a row a login is closed until a minute has passed since
/// the first of them, and open again from then on.
pub proof fn law_five_failures_close_a_login(
    m: Map<Seq<char>, Attempts>,
    key: Seq<char>,
    times: Seq<u64>,
    now: u64,
)
    requires
        !m.contains_key(key),
        times.len() == 5,
    ensures
        may_try(after_failures(m, key, times), key, now) == (now - times[0] >= 60_000),
{
    lemma_failures_count(m, key, times);
}

/// Fewer than five failures leave a login open.
pub proof fn law_few_failures_leave_a_login_open(
    m: Map<Seq<char>, Attempts>,
    key: Seq<char>,
    times: Seq<u64>,
    now: u64,
)
    requires
        !m.contains_key(key),
        times.len() < 5,
    ensures
        may_try(after_failures(m, key, times), key, now),
{
    if times.len() > 0 {
        lemma_failures_count(m, key, times);
    }
}

/// A success forgets the failures of its own login, and no others.
pub proof fn law_success_reopens_a_login(
    m: Map<Seq<char>, Attempts>,
    key: Seq<char>,
    other: Seq<char>,
    now: u64,
)
    ensures
        may_try(m.remove(key), key, now),
        other != key ==> may_try(m.remove(key), other, now) == may_try(m, other, now),
{
}

// ---- Cookies ---------------------------------------------------------------

pub open spec fn secure_suffix(secure: bool) -> Seq<char> {
    if secure {
        "; Secure"@
    } else {
        ""@
    }
}

/// The cookie that holds the refresh token. Scripts cannot read it.
pub open spec fn refresh_cookie_text(value: Seq<char>, max_age: i64, secure: bool) -> Seq<char> {
    "tinylord_refresh="@ + value + "; Path=/v1/auth; HttpOnly; SameSite=Strict; Max-Age="@
        + signed_decimal(max_age as int) + secure_suffix(secure)
}

/// The cookie that holds the token against forged requests. The application reads
/// it after a reload.
pub open spec fn csrf_cookie_text(value: Seq<char>, max_age: i64, secure: bool) -> Seq<char> {
    "tinylord_csrf="@ + value + "; Path=/; SameSite=Strict; Max-Age="@ + signed_decimal(
        max_age as int,
    ) + secure_suffix(secure)
}

fn suffix(secure: bool) -> (r: &'static str)
    ensures
        r@ == secure_suffix(secure),
{
    if secure {
        "; Secure"
    } else {
        ""
    }
}

pub fn refresh_cookie(value: &str, max_age: i64, secure: bool) -> (r: String)
    ensures
        r@ == refresh_cookie_text(value@, max_age, secure),
{
    let head = concat3(
        "tinylord_refresh=",
        value,
        "; Path=/v1/auth; HttpOnly; SameSite=Strict; Max-Age=",
    );
    let age = signed_text(max_age);
    concat3(head.as_str(), age.as_str(), suffix(secure))
}

pub fn csrf_cookie(value: &str, max_age: i64, secure: bool) -> (r: String)
    ensures
        r@ == csrf_cookie_text(value@, max_age, secure),
{
    let head = concat3("tinylord_csrf=", value, "; Path=/; SameSite=Strict; Max-Age=");
    let age = signed_text(max_age);
    concat3(head.as_str(), age.as_str(), suffix(secure))
}

pub fn clear_refresh_cookie(secure: bool) -> (r: String)
    ensures
        r@ == refresh_cookie_text(""@, 0, secure),
{
    refresh_cookie("", 0, secure)
}

pub fn clear_csrf_cookie(secure: bool) -> (r: String)
    ensures
        r@ == csrf_cookie_text(""@, 0, secure),
{
    csrf_cookie("", 0, secure)
}

/// A part of a header of cookies holds the refresh token.
pub open spec fn holds_refresh(part: Seq<char>) -> bool {
    starts(trimmed(part), "tinylord_refresh="@)
}

/// The refresh token in the first part that holds one, from the part `i` on.
pub open spec fn refresh_in(parts: Seq<Seq<char>>, i: int) -> Option<Seq<char>>
    decreases parts.len() - i,
{
    if i < 0 || i >= parts.len() {
        None
    } else if holds_refresh(parts[i]) {
        Some(trimmed(parts[i]).skip("tinylord_refresh="@.len() as int))
    } else {
        refresh_in(parts, i + 1)
    }
}

/// The refresh token in a header of cookies.
pub open spec fn refresh_value(header: Seq<char>) -> Option<Seq<char>> {
    refresh_in(split(header, ';'), 0)
}

/// The refresh token in a header of cookies, if it holds one.
pub fn refresh_cookie_value(header: Option<&str>) -> (r: Option<String>)
    ensures
        crate::sql::text_view(r) == (match header {
            Some(h) => refresh_value(h@),
            None => None,
        }),
{
    let h = match header {
        Some(h) => h,
        None => {
            return None;
        },
    };
    let parts = split_text(h, ';');
    let ghost all = split(h@, ';');
    assert(views(parts@).len() == parts@.len());
    let mut i: usize = 0;
    while i < parts.len()
        invariant
            i <= parts@.len(),
            all == views(parts@),
            refresh_in(all, 0) == refresh_in(all, i as int),
            all == split(h@, ';'),
            header == Some(h),
        decreases parts@.len() - i,
    {
        assert(all[i as int] == parts@[i as int]@);
        let t = trim_text(parts[i].as_str());
        match strip_prefix(t.as_str(), "tinylord_refresh=") {
            Some(v) => {
                return Some(v);
            },
            None => {},
        }
        i = i + 1;
    }
    None
}

proof fn lemma_split_whole(s: Seq<char>, sep: char)
    requires
        forall|i: int| 0 <= i < s.len() ==> #[trigger] s[i] != sep,
    ensures
        split(s, sep) == seq![s],
    decreases s.len(),
{
    if s.len() == 0 {
        assert(s =~= Seq::empty());
    } else {
        let front = s.drop_last();
        assert forall|i: int| 0 <= i < front.len() implies #[trigger] front[i] != sep by {
            assert(front[i] == s[i]);
        }
        lemma_split_whole(front, sep);
        assert(s.last() == s[s.len() - 1]);
        assert(front.push(s.last()) =~= s);
        assert(seq![front].drop_last().push(s) =~= seq![s]);
    }
}

/// The refresh token that a browser was given is read back from the header in which
/// it sends the cookie, for every token that is not empty and holds neither a
/// semicolon nor white space.
pub proof fn law_refresh_cookie_is_read_back(value: Seq<char>)
    requires
        value.len() > 0,
        forall|i: int| 0 <= i < value.len() ==> #[trigger] value[i] != ';' && !white(value[i]),
    ensures
        refresh_value("tinylord_refresh="@ + value) == Some(value),
{
    reveal_strlit("tinylord_refresh=");
    let name = "tinylord_refresh="@;
    let s = name + value;
    assert(name.len() == 17);
    assert forall|i: int| 0 <= i < s.len() implies #[trigger] s[i] != ';' by {
        if i >= 17 {
            assert(s[i] == value[i - 17]);
        }
    }
    lemma_split_whole(s, ';');
    assert(s[0] == 't');
    assert(trim_start(s) == s);
    assert(s.last() == value[value.len() - 1]);
    assert(trim_end(s) == s);
    assert(s.take(17) =~= name);
    assert(s.skip(17) =~= value);
    assert(split(s, ';')[0] == s);
}

// ---- Answers ---------------------------------------------------------------

/// What a browser is answered that has signed in: a body and two cookies.
#[derive(Debug)]
pub struct SessionAnswer {
    pub body: Json,
    pub refresh_cookie: String,
    pub csrf_cookie: String,
}

pub open spec fn session_body(tokens: TokenSetView, access_ttl: i64) -> JsonView {
    JsonView::Object(
        map![
            "access_token"@ => JsonView::Text(tokens.access),
            "token_type"@ => JsonView::Text("Bearer"@),
            "expires_in"@ => int_view(access_ttl as int),
            "csrf_token"@ => JsonView::Text(tokens.csrf),
        ],
    )
}

/// What a browser is answered that has signed in. The refresh token goes into its
/// cookie and nowhere else.
pub fn session_answer(tokens: &TokenSet, access_ttl: i64, refresh_ttl: i64, secure: bool) -> (r:
    SessionAnswer)
    ensures
        r.body@ == session_body(tokens@, access_ttl),
        r.refresh_cookie@ == refresh_cookie_text(tokens.refresh@, refresh_ttl, secure),
        r.csrf_cookie@ == csrf_cookie_text(tokens.csrf@, refresh_ttl, secure),
{
    let mut e: Vec<(String, Json)> = Vec::new();
    put(&mut e, "access_token", json_text(tokens.access.as_str()));
    put(&mut e, "token_type", json_text("Bearer"));
    put(&mut e, "expires_in", json_int(access_ttl));
    put(&mut e, "csrf_token", json_text(tokens.csrf.as_str()));
    SessionAnswer {
        body: Json::Object(e),
        refresh_cookie: refresh_cookie(tokens.refresh.as_str(), refresh_ttl, secure),
        csrf_cookie: csrf_cookie(tokens.csrf.as_str(), refresh_ttl, secure),
    }
}

/// The secrets that a request to renew or to end a session has to bear.
pub fn session_secrets(cookies: Option<&str>, csrf: Option<&str>) -> (r: ApiResult<
    (String, String),
>)
    ensures
        ({
            let refresh = match cookies {
                Some(h) => refresh_value(h@),
                None => None,
            };
            match r {
                Ok((a, b)) => refresh == Some(a@) && (csrf matches Some(c) && c@ == b@),
                Err(e) => if refresh is None {
                    e@ == unauthorized_error("missing refresh session"@)
                } else {
                    csrf is None && e@ == forbidden_error("missing CSRF token"@)
                },
            }
        }),
{
    let refresh = match refresh_cookie_value(cookies) {
        Some(v) => v,
        None => {
            return Err(ApiError::unauthorized("missing refresh session"));
        },
    };
    match csrf {
        Some(c) => Ok((refresh, c.to_string())),
        None => Err(ApiError::forbidden("missing CSRF token")),
    }
}

/// The secrets of the session that was renewed, or the refusal of one that is not
/// known.
pub fn require_session(renewed: Option<(String, TokenSet)>) -> (r: ApiResult<TokenSet>)
    ensures
        match r {
            Ok(t) => renewed matches Some((_, x)) && t@ == x@,
            Err(e) => renewed is None && e@ == unauthorized_error(
                "invalid or expired refresh session"@,
            ),
        },
{
    match renewed {
        Some((_, t)) => Ok(t),
        None => Err(ApiError::unauthorized("invalid or expired refresh session")),
    }
}

/// Refuses to end a session that is not known.
pub fn require_ended(ended: bool) -> (r: ApiResult<()>)
    ensures
        match r {
            Ok(_) => ended,
            Err(e) => !ended && e@ == unauthorized_error("invalid or expired refresh session"@),
        },
{
    if ended {
        Ok(())
    } else {
        Err(ApiError::unauthorized("invalid or expired refresh session"))
    }
}

/// Refuses to register anyone where that is switched off.
pub fn require_registration(enabled: bool) -> (r: ApiResult<()>)
    ensures
        match r {
            Ok(_) => enabled,
            Err(e) => !enabled && e@ == forbidden_error("public registration is disabled"@),
        },
{
    if enabled {
        Ok(())
    } else {
        Err(ApiError::forbidden("public registration is disabled"))
    }
}

/// What a principal is told of itself.
pub fn me(id: &str, name: &str) -> (r: Json)
    ensures
        r@ == JsonView::Object(
            map!["id"@ => JsonView::Text(id@), "name"@ => JsonView::Text(name@)],
        ),
{
    let mut e: Vec<(String, Json)> = Vec::new();
    put(&mut e, "id", json_text(id));
    put(&mut e, "name", json_text(name));
    Json::Object(e)
}

} // verus!
