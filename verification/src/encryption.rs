//! Encryption at rest: the key of the instance, where it comes from, and the
//! statements that open a database with it.
//!
//! The key is applied to every connection before any other statement.

use crate::config::KeySource;
use crate::schema::{init_database, init_sql, DocStorage};
use crate::secret::{random_bytes, Secret};
use crate::sequence::statement_views;
use crate::sql::{batch, batch_view, no_params, query_view, Statement, StatementView};
use crate::text::{
    chars_of, concat2, concat3, decimal, decimal_text, digit_char, hex_digit, is_hex_digit, lower,
    same, to_lower, trim_text, trimmed,
};
use crate::tokens::{hex_encode, hex_of};
use vstd::prelude::*;

verus! {

// ---- Keys ------------------------------------------------------------------

/// 64 hexadecimal digits: a key of 32 bytes.
pub open spec fn key_ok(s: Seq<char>) -> bool {
    s.len() == 64 && forall|i: int| 0 <= i < s.len() ==> hex_digit(#[trigger] s[i])
}

/// Why there is no key.
#[derive(Debug)]
pub enum KeyError {
    /// What should be a key is none.
    Malformed,
    /// Encryption is switched off without the consent of the command line.
    NotAllowed,
    /// The key should be in the environment and is not.
    MissingInEnvironment,
    /// The entry of the keyring cannot be opened.
    ClosedKeyring,
    /// The key should be in a keyring and is not.
    MissingInKeyring,
    /// The key file holds no key.
    MalformedFile(String),
    /// Others than the owner can read the key file.
    LooseFile { path: String, mode: u32 },
}

/// `n` written in octal.
pub open spec fn octal(n: nat) -> Seq<char>
    decreases n,
{
    if n < 8 {
        seq![digit_char(n as int)]
    } else {
        octal(n / 8).push(digit_char((n % 8) as int))
    }
}

fn octal_text(n: u32) -> (r: String)
    ensures
        r@ == octal(n as nat),
    decreases n,
{
    if n < 8 {
        let mut s = String::new();
        s.push((48u8 + n as u8) as char);
        assert(s@ =~= octal(n as nat));
        s
    } else {
        let mut s = octal_text(n / 8);
        s.push((48u8 + (n % 8) as u8) as char);
        s
    }
}

/// What is said of a key that is not there.
pub open spec fn key_message(e: KeyError) -> Seq<char> {
    match e {
        KeyError::Malformed =>
            "encryption key must be exactly 64 hexadecimal characters (a 32-byte key)"@,
        KeyError::NotAllowed =>
            "encryption is disabled in config but --allow-unencrypted was not passed; refusing to store data in plaintext without an explicit opt-out"@,
        KeyError::MissingInEnvironment =>
            "key_source = \"env\" but TINYLORD_ENCRYPTION_KEY is not set (64 hex chars)"@,
        KeyError::ClosedKeyring => "opening OS keyring entry"@,
        KeyError::MissingInKeyring => "no key found in OS keyring; provision it first"@,
        KeyError::MalformedFile(path) => "key file "@ + path@ + " is malformed"@,
        KeyError::LooseFile { path, mode } => "key file "@ + path@ + " has permissions "@ + octal(
            (mode % 4096) as nat,
        ) + "; must be 0600 (owner-only). Fix with: chmod 600 "@ + path@,
    }
}

impl KeyError {
    /// What is said of a key that is not there. It never holds the key.
    pub fn message(&self) -> (r: String)
        ensures
            r@ == key_message(*self),
    {
        match self {
            KeyError::Malformed =>
                "encryption key must be exactly 64 hexadecimal characters (a 32-byte key)".to_string(),
            KeyError::NotAllowed =>
                "encryption is disabled in config but --allow-unencrypted was not passed; refusing to store data in plaintext without an explicit opt-out".to_string(),
            KeyError::MissingInEnvironment =>
                "key_source = \"env\" but TINYLORD_ENCRYPTION_KEY is not set (64 hex chars)".to_string(),
            KeyError::ClosedKeyring => "opening OS keyring entry".to_string(),
            KeyError::MissingInKeyring =>
                "no key found in OS keyring; provision it first".to_string(),
            KeyError::MalformedFile(path) => concat3("key file ", path.as_str(), " is malformed"),
            KeyError::LooseFile { path, mode } => {
                let bits = octal_text(*mode % 4096);
                let head = concat3("key file ", path.as_str(), " has permissions ");
                let tail = concat2(
                    "; must be 0600 (owner-only). Fix with: chmod 600 ",
                    path.as_str(),
                );
                let r = concat3(head.as_str(), bits.as_str(), tail.as_str());
                assert(r@ =~= key_message(*self));
                r
            },
        }
    }
}

/// The key that a text holds, in lower case and without the white space around it;
/// none where the text holds no key.
pub open spec fn normal_key(s: Seq<char>) -> Option<Seq<char>> {
    if key_ok(trimmed(s)) {
        Some(lower(trimmed(s)))
    } else {
        None
    }
}

/// The key that a text holds, in lower case.
pub fn validate_hex_key(s: &str) -> (r: Result<Secret, KeyError>)
    ensures
        match r {
            Ok(k) => normal_key(s@) == Some(k@) && key_ok(k@),
            Err(e) => normal_key(s@) is None && e is Malformed,
        },
{
    let t = Secret::new(trim_text(s));
    let v = chars_of(t.as_str());
    if v.len() != 64 {
        return Err(KeyError::Malformed);
    }
    let mut i: usize = 0;
    while i < v.len()
        invariant
            v@ == trimmed(s@),
            v@.len() == 64,
            i <= v@.len(),
            forall|k: int| 0 <= k < i ==> hex_digit(#[trigger] v@[k]),
        decreases v@.len() - i,
    {
        if !is_hex_digit(v[i]) {
            return Err(KeyError::Malformed);
        }
        i = i + 1;
    }
    let k = Secret::new(to_lower(t.as_str()));
    proof {
        lemma_lower_key(trimmed(s@));
    }
    Ok(k)
}

proof fn lemma_lower_key(s: Seq<char>)
    requires
        key_ok(s),
    ensures
        key_ok(lower(s)),
        lower(lower(s)) == lower(s),
{
    assert forall|i: int| 0 <= i < lower(s).len() implies hex_digit(#[trigger] lower(s)[i]) by {
        assert(hex_digit(s[i]));
    }
    assert forall|i: int| 0 <= i < lower(s).len() implies #[trigger] lower(lower(s))[i]
        == lower(s)[i] by {
        assert(hex_digit(s[i]));
    }
    assert(lower(lower(s)) =~= lower(s));
}

/// The key that is made of these bytes.
pub fn key_of(bytes: &[u8; 32]) -> (r: Secret)
    ensures
        r@ == hex_of(bytes@),
        key_ok(r@),
{
    proof {
        crate::tokens::law_hex_is_faithful(bytes@, bytes@);
    }
    Secret::new(hex_encode(bytes.as_slice()))
}

/// A fresh random key.
pub fn generate_hex_key() -> (r: Secret)
    ensures
        key_ok(r@),
        exists|bytes: Seq<u8>| bytes.len() == 32 && r@ == #[trigger] hex_of(bytes),
{
    let fresh = random_bytes();
    let bytes = fresh.as_array();
    let r = key_of(bytes);
    assert(r@ == hex_of(bytes@));
    r
}

/// A key that was made is taken as it is: reading it gives the same key.
pub proof fn law_made_keys_are_taken(bytes: Seq<u8>)
    requires
        bytes.len() == 32,
    ensures
        normal_key(hex_of(bytes)) == Some(hex_of(bytes)),
{
    let k = hex_of(bytes);
    crate::tokens::law_hex_is_faithful(bytes, bytes);
    assert(hex_digit(k[0]));
    assert(hex_digit(k[63]));
    assert(k.last() == k[63]);
    assert(trimmed(k) == k);
    assert forall|i: int| 0 <= i < k.len() implies #[trigger] lower(k)[i] == k[i] by {
        assert(0 <= i / 2 < bytes.len());
    }
    assert(lower(k) =~= k);
}

// ---- The state of encryption -----------------------------------------------

/// Whether data is encrypted, and under which key. The key is wiped from memory when
/// this is dropped.
pub struct Encryption {
    key: Option<Secret>,
}

impl Encryption {
    pub closed spec fn key(self) -> Option<Seq<char>> {
        match self.key {
            Some(k) => Some(k@),
            None => None,
        }
    }

    /// A key, where there is one, is 64 hexadecimal digits.
    pub open spec fn well_formed(self) -> bool {
        self.key() matches Some(k) ==> key_ok(k)
    }

    /// Data is stored in the clear.
    pub fn disabled() -> (r: Encryption)
        ensures
            r.well_formed(),
            r.key() is None,
    {
        Encryption { key: None }
    }

    /// Data is stored under a key that has been validated.
    pub fn from_hex(hex_key: Secret) -> (r: Encryption)
        requires
            key_ok(hex_key@),
        ensures
            r.well_formed(),
            r.key() == Some(hex_key@),
    {
        Encryption { key: Some(hex_key) }
    }

    pub fn is_enabled(&self) -> (r: bool)
        ensures
            r == (self.key() is Some),
    {
        self.key.is_some()
    }

    /// The same state once more.
    pub fn duplicate(&self) -> (r: Encryption)
        ensures
            r.key() == self.key(),
            self.well_formed() ==> r.well_formed(),
    {
        match &self.key {
            Some(k) => Encryption { key: Some(k.duplicate()) },
            None => Encryption { key: None },
        }
    }

    /// The statement that has to run first on a connection; none where data is in
    /// the clear.
    pub fn pragma_key_sql(&self) -> (r: Option<String>)
        requires
            self.well_formed(),
        ensures
            match self.key() {
                Some(k) => r matches Some(s) && s@ == key_sql(k),
                None => r is None,
            },
    {
        match &self.key {
            Some(k) => Some(concat3("PRAGMA key = \"x'", k.as_str(), "'\";")),
            None => None,
        }
    }

    /// The statements that apply the key to a fresh connection and show that it is
    /// the right one: none where data is in the clear. Nothing else may run before
    /// them.
    pub fn apply_to(&self) -> (r: Vec<Statement>)
        requires
            self.well_formed(),
        ensures
            statement_views(r@) == apply_statements(self.key()),
    {
        let mut v: Vec<Statement> = Vec::new();
        match self.pragma_key_sql() {
            Some(sql) => {
                v.push(batch(sql.as_str()));
                v.push(verify_open());
            },
            None => {},
        }
        assert(statement_views(v@) =~= apply_statements(self.key()));
        v
    }
}

pub open spec fn apply_statements(key: Option<Seq<char>>) -> Seq<StatementView> {
    match key {
        Some(k) => seq![batch_view(key_sql(k)), verify_statement()],
        None => Seq::empty(),
    }
}

pub open spec fn key_sql(key: Seq<char>) -> Seq<char> {
    "PRAGMA key = \"x'"@ + key + "'\";"@
}

/// The key cannot end the quoted text that it stands in.
pub proof fn law_key_is_quotable(key: Seq<char>)
    requires
        key_ok(key),
    ensures
        forall|i: int| 0 <= i < key.len() ==> #[trigger] key[i] != '\'' && key[i] != '"',
{
    assert forall|i: int| 0 <= i < key.len() implies #[trigger] key[i] != '\'' && key[i]
        != '"' by {
        assert(hex_digit(key[i]));
    }
}

// ---- Where the key comes from ----------------------------------------------

/// What to do to get the key.
#[derive(Debug, Clone, Copy, PartialEq, Eq, Structural)]
pub enum KeyPlan {
    /// Nothing: data is stored in the clear.
    Plaintext,
    ReadEnvironment,
    ReadKeyring,
    ReadFile,
}

/// What to do to get the key. Encryption is off only where both the configuration
/// and the command line say so.
pub open spec fn key_plan(enabled: bool, source: KeySource, allow_unencrypted: bool) -> Option<
    KeyPlan,
> {
    if !enabled {
        if allow_unencrypted {
            Some(KeyPlan::Plaintext)
        } else {
            None
        }
    } else {
        Some(
            match source {
                KeySource::Env => KeyPlan::ReadEnvironment,
                KeySource::Keyring => KeyPlan::ReadKeyring,
                KeySource::KeyFile => KeyPlan::ReadFile,
            },
        )
    }
}

/// What to do to get the key.
pub fn resolve(enabled: bool, source: KeySource, allow_unencrypted: bool) -> (r: Result<
    KeyPlan,
    KeyError,
>)
    ensures
        match r {
            Ok(p) => key_plan(enabled, source, allow_unencrypted) == Some(p),
            Err(e) => key_plan(enabled, source, allow_unencrypted) is None && e is NotAllowed,
        },
{
    if !enabled {
        if allow_unencrypted {
            Ok(KeyPlan::Plaintext)
        } else {
            Err(KeyError::NotAllowed)
        }
    } else {
        match source {
            KeySource::Env => Ok(KeyPlan::ReadEnvironment),
            KeySource::Keyring => Ok(KeyPlan::ReadKeyring),
            KeySource::KeyFile => Ok(KeyPlan::ReadFile),
        }
    }
}

/// Data is stored in the clear only where the configuration and the command line
/// both say so.
pub proof fn law_plaintext_needs_both(enabled: bool, source: KeySource, allow_unencrypted: bool)
    ensures
        key_plan(enabled, source, allow_unencrypted) == Some(KeyPlan::Plaintext) <==> !enabled
            && allow_unencrypted,
{
}

/// The state of encryption with a key out of the environment.
pub fn from_environment(value: Option<&str>) -> (r: Result<Encryption, KeyError>)
    ensures
        match r {
            Ok(e) => e.well_formed() && (value matches Some(v) && e.key() == normal_key(v@)
                && e.key() is Some),
            Err(e) => match value {
                Some(v) => normal_key(v@) is None && e is Malformed,
                None => e is MissingInEnvironment,
            },
        },
{
    match value {
        Some(v) => match validate_hex_key(v) {
            Ok(k) => Ok(Encryption::from_hex(k)),
            Err(e) => Err(e),
        },
        None => Err(KeyError::MissingInEnvironment),
    }
}

/// The state of encryption with the key that an entry of a keyring holds.
pub fn from_keyring(value: Option<&str>) -> (r: Result<Encryption, KeyError>)
    ensures
        match r {
            Ok(e) => e.well_formed() && (value matches Some(v) && e.key() == normal_key(v@)
                && e.key() is Some),
            Err(e) => match value {
                Some(v) => normal_key(v@) is None && e is Malformed,
                None => e is MissingInKeyring,
            },
        },
{
    match value {
        Some(v) => match validate_hex_key(v) {
            Ok(k) => Ok(Encryption::from_hex(k)),
            Err(e) => Err(e),
        },
        None => Err(KeyError::MissingInKeyring),
    }
}

/// Nobody but the owner of a file with this mode can do anything with it.
pub open spec fn owner_only(mode: u32) -> bool {
    mode % 64 == 0
}

/// Refuses a key file that others than its owner can use.
pub fn check_key_file_perms(path: &str, mode: u32) -> (r: Result<(), KeyError>)
    ensures
        match r {
            Ok(_) => owner_only(mode),
            Err(e) => !owner_only(mode) && (e matches KeyError::LooseFile { path: p, mode: m }
                && p@ == path@ && m == mode),
        },
{
    if mode % 64 != 0 {
        Err(KeyError::LooseFile { path: path.to_string(), mode })
    } else {
        Ok(())
    }
}

/// The state of encryption with the key that a key file holds.
pub fn from_key_file(path: &str, contents: &str) -> (r: Result<Encryption, KeyError>)
    ensures
        match r {
            Ok(e) => e.well_formed() && e.key() is Some && e.key() == normal_key(contents@),
            Err(e) => normal_key(contents@) is None && (e matches KeyError::MalformedFile(p) && p@
                == path@),
        },
{
    match validate_hex_key(contents) {
        Ok(k) => Ok(Encryption::from_hex(k)),
        Err(_) => Err(KeyError::MalformedFile(path.to_string())),
    }
}

// ---- Opening a database ----------------------------------------------------

/// What a connection is for.
#[derive(Debug, Clone, Copy, PartialEq, Eq, Structural)]
pub enum ConnectionRole {
    /// The one writer of a database.
    Writer,
    /// A reader, which must not write.
    Reader,
    /// The control plane.
    Control,
    /// A command of the operator.
    Offline,
}

/// The settings that every connection is given.
pub open spec fn pragma_statements(busy_timeout_ms: u32) -> Seq<StatementView> {
    seq![
        batch_view("PRAGMA journal_mode = WAL;"@),
        batch_view("PRAGMA synchronous = NORMAL;"@),
        batch_view("PRAGMA busy_timeout = "@ + decimal(busy_timeout_ms as nat) + ";"@),
        batch_view("PRAGMA foreign_keys = ON;"@),
        batch_view("PRAGMA temp_store = MEMORY;"@),
        batch_view("PRAGMA cache_size = -8000;"@),
        batch_view("PRAGMA mmap_size = 134217728;"@),
    ]
}

/// The settings that every connection is given. Losing power may lose the last
/// transactions, but never corrupts a database.
pub fn apply_pragmas(busy_timeout_ms: u32) -> (r: Vec<Statement>)
    ensures
        statement_views(r@) == pragma_statements(busy_timeout_ms),
{
    let ms = decimal_text(busy_timeout_ms as u64);
    let busy = concat3("PRAGMA busy_timeout = ", ms.as_str(), ";");
    let mut v: Vec<Statement> = Vec::new();
    v.push(batch("PRAGMA journal_mode = WAL;"));
    v.push(batch("PRAGMA synchronous = NORMAL;"));
    v.push(batch(busy.as_str()));
    v.push(batch("PRAGMA foreign_keys = ON;"));
    v.push(batch("PRAGMA temp_store = MEMORY;"));
    v.push(batch("PRAGMA cache_size = -8000;"));
    v.push(batch("PRAGMA mmap_size = 134217728;"));
    assert(statement_views(v@) =~= pragma_statements(busy_timeout_ms));
    v
}

/// The statement that shows whether the key is the right one.
pub open spec fn verify_statement() -> StatementView {
    query_view("SELECT count(*) FROM sqlite_master"@, Seq::empty())
}

/// Reads something, which succeeds only under the right key.
pub fn verify_open() -> (r: Statement)
    ensures
        r@ == verify_statement(),
{
    no_params("SELECT count(*) FROM sqlite_master")
}

/// The statements with which a connection begins: none where data is in the clear.
/// A pool, of readers or of the control plane, is built once the key has been
/// verified, and need not verify it again.
pub open spec fn key_statements(key: Option<Seq<char>>, role: ConnectionRole) -> Seq<
    StatementView,
> {
    if role == ConnectionRole::Reader || role == ConnectionRole::Control {
        match key {
            Some(k) => seq![batch_view(key_sql(k))],
            None => Seq::empty(),
        }
    } else {
        apply_statements(key)
    }
}

/// The statements that follow the settings.
pub open spec fn role_statements(role: ConnectionRole, storage: DocStorage) -> Seq<
    StatementView,
> {
    match role {
        ConnectionRole::Writer => seq![
            batch_view("PRAGMA wal_autocheckpoint = 1000;"@),
            batch_view(init_sql(storage)),
        ],
        ConnectionRole::Reader => seq![batch_view("PRAGMA query_only = ON;"@)],
        _ => Seq::empty(),
    }
}

/// All the statements that open a connection: the key, the settings, and what its
/// role asks for.
pub open spec fn open_statements(
    key: Option<Seq<char>>,
    role: ConnectionRole,
    busy_timeout_ms: u32,
    storage: DocStorage,
) -> Seq<StatementView> {
    key_statements(key, role) + pragma_statements(busy_timeout_ms) + role_statements(role, storage)
}

/// All the statements that open a connection.
pub fn open_connection(
    encryption: &Encryption,
    role: ConnectionRole,
    busy_timeout_ms: u32,
    storage: DocStorage,
) -> (r: Vec<Statement>)
    requires
        encryption.well_formed(),
    ensures
        statement_views(r@) == open_statements(
            encryption.key(),
            role,
            busy_timeout_ms,
            storage,
        ),
{
    let mut v: Vec<Statement> = match role {
        ConnectionRole::Reader | ConnectionRole::Control => {
            let mut first: Vec<Statement> = Vec::new();
            match encryption.pragma_key_sql() {
                Some(sql) => {
                    first.push(batch(sql.as_str()));
                },
                None => {},
            }
            assert(statement_views(first@) =~= key_statements(encryption.key(), role));
            first
        },
        _ => encryption.apply_to(),
    };
    let ghost keyed = v@;
    let mut settings = apply_pragmas(busy_timeout_ms);
    let ghost set = settings@;
    v.append(&mut settings);
    let mut last: Vec<Statement> = Vec::new();
    match role {
        ConnectionRole::Writer => {
            last.push(batch("PRAGMA wal_autocheckpoint = 1000;"));
            last.push(init_database(storage));
        },
        ConnectionRole::Reader => {
            last.push(batch("PRAGMA query_only = ON;"));
        },
        _ => {},
    }
    let ghost tail = last@;
    assert(statement_views(tail) =~= role_statements(role, storage));
    v.append(&mut last);
    assert(statement_views(v@) =~= statement_views(keyed) + statement_views(set) + statement_views(
        tail,
    ));
    v
}

/// Where data is encrypted, the first statement on every connection is the one that
/// applies the key.
pub proof fn law_key_comes_first(
    key: Seq<char>,
    role: ConnectionRole,
    busy_timeout_ms: u32,
    storage: DocStorage,
)
    ensures
        open_statements(Some(key), role, busy_timeout_ms, storage).len() > 0,
        open_statements(Some(key), role, busy_timeout_ms, storage)[0] == batch_view(key_sql(key)),
{
}

/// A reader cannot write: before it is used it is told to query only.
pub proof fn law_readers_only_query(
    key: Option<Seq<char>>,
    busy_timeout_ms: u32,
    storage: DocStorage,
)
    ensures
        open_statements(key, ConnectionRole::Reader, busy_timeout_ms, storage).last()
            == batch_view("PRAGMA query_only = ON;"@),
{
}

/// What is said of a connection that could not be opened, by the statement that was
/// refused. It never holds the key.
pub fn open_failure(refused: &Statement) -> (r: &'static str)
    ensures
        r@ == (if refused.sql@ == "SELECT count(*) FROM sqlite_master"@ {
            "database could not be opened with the configured key"@
        } else {
            "database could not be opened"@
        }),
{
    if same(refused.sql.as_str(), "SELECT count(*) FROM sqlite_master") {
        "database could not be opened with the configured key"
    } else {
        "database could not be opened"
    }
}

} // verus!
