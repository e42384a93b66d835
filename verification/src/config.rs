//! Configuration: the sections, their defaults, and what the environment puts in
//! place of them.
//!
//! Every section has defaults, so that a file that is missing or partial still gives
//! a configuration that works. The key itself is never part of it, only where it is
//! to be found.

use crate::ids::{name_ok, valid_name};
use crate::text::{
    all_digits, chars_of, concat3, digit, digits_value, is_digit, is_word, parse_signed,
    parse_unsigned, parsed_signed, parsed_unsigned, same, split, split_text, starts, strip_prefix,
    unsigned_part, views, word,
};
use vstd::prelude::*;

verus! {

#[derive(Debug)]
pub struct Config {
    pub server: ServerConfig,
    pub limits: LimitsConfig,
    pub writer: WriterConfig,
    pub realtime: RealtimeConfig,
    pub pubsub: PubSubConfig,
    pub auth: AuthConfig,
    pub admin_ui: AdminUiConfig,
    pub cors: CorsConfig,
    pub encryption: EncryptionConfig,
    pub static_apps: Vec<StaticApp>,
}

#[derive(Debug)]
pub struct ServerConfig {
    pub bind: String,
    pub data_dir: String,
    pub snapshot_dir: String,
}

#[derive(Debug, Clone, Copy)]
pub struct LimitsConfig {
    pub max_document_bytes: u64,
    pub max_database_bytes: u64,
    pub max_query_limit: u32,
    pub request_body_bytes: usize,
    pub rate_per_minute: u32,
}

#[derive(Debug, Clone, Copy)]
pub struct WriterConfig {
    pub busy_timeout_ms: u32,
    pub group_commit: bool,
    pub group_commit_max_batch: usize,
    pub wal_checkpoint_secs: u64,
}

#[derive(Debug, Clone, Copy)]
pub struct RealtimeConfig {
    pub changelog_retention: i64,
    pub sse_channel_capacity: usize,
}

/// Ephemeral channels.
#[derive(Debug, Clone, Copy)]
pub struct PubSubConfig {
    pub enabled: bool,
    pub max_event_bytes: usize,
    pub channel_capacity: usize,
}

/// Sessions of browsers.
#[derive(Debug, Clone, Copy)]
pub struct AuthConfig {
    pub public_registration: bool,
    pub access_token_ttl_secs: i64,
    pub refresh_token_ttl_secs: i64,
    pub secure_cookies: bool,
}

/// The built-in page for operators.
#[derive(Debug)]
pub struct AdminUiConfig {
    pub enabled: bool,
    pub path: String,
}

#[derive(Debug)]
pub struct CorsConfig {
    /// The origins that are allowed, each by name.
    pub allowed_origins: Vec<String>,
}

/// Where the encryption key comes from.
#[derive(Debug, Clone, Copy, PartialEq, Eq, Structural)]
pub enum KeySource {
    KeyFile,
    Env,
    Keyring,
}

#[derive(Debug)]
pub struct EncryptionConfig {
    /// Data is encrypted at rest unless this is off and the command line agrees.
    pub enabled: bool,
    pub key_source: KeySource,
    pub key_file: String,
    pub keyring_service: String,
    pub keyring_account: String,
}

/// A static application with a listener of its own.
#[derive(Debug)]
pub struct StaticApp {
    pub name: String,
    pub bind: String,
    pub directory: String,
    pub spa_fallback: bool,
}

// ---- Defaults --------------------------------------------------------------

impl Default for ServerConfig {
    fn default() -> (r: ServerConfig)
        ensures
            r.bind@ == "127.0.0.1:8090"@,
            r.data_dir@ == "./data"@,
            r.snapshot_dir@ == "./snapshots"@,
    {
        ServerConfig {
            bind: "127.0.0.1:8090".to_string(),
            data_dir: "./data".to_string(),
            snapshot_dir: "./snapshots".to_string(),
        }
    }
}

impl Default for LimitsConfig {
    fn default() -> (r: LimitsConfig)
        ensures
            r == (LimitsConfig {
                max_document_bytes: 1_048_576,
                max_database_bytes: 1_073_741_824,
                max_query_limit: 500,
                request_body_bytes: 2_097_152,
                rate_per_minute: 600,
            }),
    {
        LimitsConfig {
            max_document_bytes: 1_048_576,
            max_database_bytes: 1_073_741_824,
            max_query_limit: 500,
            request_body_bytes: 2_097_152,
            rate_per_minute: 600,
        }
    }
}

impl Default for WriterConfig {
    fn default() -> (r: WriterConfig)
        ensures
            r == (WriterConfig {
                busy_timeout_ms: 5000,
                group_commit: true,
                group_commit_max_batch: 64,
                wal_checkpoint_secs: 60,
            }),
    {
        WriterConfig {
            busy_timeout_ms: 5000,
            group_commit: true,
            group_commit_max_batch: 64,
            wal_checkpoint_secs: 60,
        }
    }
}

impl Default for RealtimeConfig {
    fn default() -> (r: RealtimeConfig)
        ensures
            r == (RealtimeConfig { changelog_retention: 10_000, sse_channel_capacity: 256 }),
    {
        RealtimeConfig { changelog_retention: 10_000, sse_channel_capacity: 256 }
    }
}

impl Default for PubSubConfig {
    fn default() -> (r: PubSubConfig)
        ensures
            r == (PubSubConfig { enabled: true, max_event_bytes: 65_536, channel_capacity: 256 }),
    {
        PubSubConfig { enabled: true, max_event_bytes: 65_536, channel_capacity: 256 }
    }
}

impl Default for AuthConfig {
    fn default() -> (r: AuthConfig)
        ensures
            r == (AuthConfig {
                public_registration: false,
                access_token_ttl_secs: 900,
                refresh_token_ttl_secs: 2_592_000,
                secure_cookies: true,
            }),
    {
        AuthConfig {
            public_registration: false,
            access_token_ttl_secs: 900,
            refresh_token_ttl_secs: 2_592_000,
            secure_cookies: true,
        }
    }
}

impl Default for AdminUiConfig {
    fn default() -> (r: AdminUiConfig)
        ensures
            !r.enabled,
            r.path@ == "/0/"@,
    {
        AdminUiConfig { enabled: false, path: "/0/".to_string() }
    }
}

impl Default for CorsConfig {
    fn default() -> (r: CorsConfig)
        ensures
            views(r.allowed_origins@) == seq!["http://localhost:5173"@],
    {
        let mut v: Vec<String> = Vec::new();
        v.push("http://localhost:5173".to_string());
        assert(views(v@) =~= seq!["http://localhost:5173"@]);
        CorsConfig { allowed_origins: v }
    }
}

impl Default for EncryptionConfig {
    fn default() -> (r: EncryptionConfig)
        ensures
            r.enabled,
            r.key_source == KeySource::KeyFile,
            r.key_file@ == "./secrets/tinylord.key"@,
            r.keyring_service@ == "tinylord"@,
            r.keyring_account@ == "instance-key"@,
    {
        EncryptionConfig {
            enabled: true,
            key_source: KeySource::KeyFile,
            key_file: "./secrets/tinylord.key".to_string(),
            keyring_service: "tinylord".to_string(),
            keyring_account: "instance-key".to_string(),
        }
    }
}

impl Default for Config {
    fn default() -> (r: Config)
        ensures
            call_ensures(ServerConfig::default, (), r.server),
            call_ensures(LimitsConfig::default, (), r.limits),
            call_ensures(WriterConfig::default, (), r.writer),
            call_ensures(RealtimeConfig::default, (), r.realtime),
            call_ensures(PubSubConfig::default, (), r.pubsub),
            call_ensures(AuthConfig::default, (), r.auth),
            call_ensures(AdminUiConfig::default, (), r.admin_ui),
            call_ensures(CorsConfig::default, (), r.cors),
            call_ensures(EncryptionConfig::default, (), r.encryption),
            r.static_apps@.len() == 0,
    {
        Config {
            server: ServerConfig::default(),
            limits: LimitsConfig::default(),
            writer: WriterConfig::default(),
            realtime: RealtimeConfig::default(),
            pubsub: PubSubConfig::default(),
            auth: AuthConfig::default(),
            admin_ui: AdminUiConfig::default(),
            cors: CorsConfig::default(),
            encryption: EncryptionConfig::default(),
            static_apps: Vec::new(),
        }
    }
}

// ---- The environment -------------------------------------------------------

/// The value of a variable, from the variable `i` on; the first counts.
pub open spec fn env_from(vars: Seq<(String, String)>, name: Seq<char>, i: int) -> Option<
    Seq<char>,
>
    decreases vars.len() - i,
{
    if i < 0 || i >= vars.len() {
        None
    } else if vars[i].0@ == name {
        Some(vars[i].1@)
    } else {
        env_from(vars, name, i + 1)
    }
}

/// The value of a variable.
pub open spec fn env_value(vars: Seq<(String, String)>, name: Seq<char>) -> Option<Seq<char>> {
    env_from(vars, name, 0)
}

fn env_get<'a>(vars: &'a Vec<(String, String)>, name: &str) -> (r: Option<&'a String>)
    ensures
        match r {
            Some(v) => env_value(vars@, name@) == Some(v@),
            None => env_value(vars@, name@) is None,
        },
{
    let mut i: usize = 0;
    while i < vars.len()
        invariant
            i <= vars@.len(),
            env_from(vars@, name@, 0) == env_from(vars@, name@, i as int),
        decreases vars@.len() - i,
    {
        if same(vars[i].0.as_str(), name) {
            return Some(&vars[i].1);
        }
        i = i + 1;
    }
    None
}

/// The value of a variable, or what was there.
pub open spec fn text_or(vars: Seq<(String, String)>, name: Seq<char>, old: Seq<char>) -> Seq<
    char,
> {
    match env_value(vars, name) {
        Some(v) => v,
        None => old,
    }
}

/// The number that a variable holds, or what was there. What is no number in range
/// is passed over.
pub open spec fn number_or(vars: Seq<(String, String)>, name: Seq<char>, max: nat, old: nat) ->
    nat {
    match env_value(vars, name) {
        Some(v) => match parsed_unsigned(v, max) {
            Some(n) => n,
            None => old,
        },
        None => old,
    }
}

/// The signed number that a variable holds, or what was there.
pub open spec fn signed_or(vars: Seq<(String, String)>, name: Seq<char>, old: int) -> int {
    match env_value(vars, name) {
        Some(v) => match parsed_signed(v) {
            Some(n) => n,
            None => old,
        },
        None => old,
    }
}

/// The truth value that a variable holds, or what was there.
pub open spec fn flag_or(vars: Seq<(String, String)>, name: Seq<char>, old: bool) -> bool {
    match env_value(vars, name) {
        Some(v) => if v == "true"@ {
            true
        } else if v == "false"@ {
            false
        } else {
            old
        },
        None => old,
    }
}

fn env_text(vars: &Vec<(String, String)>, name: &str, slot: &mut String)
    ensures
        final(slot)@ == text_or(vars@, name@, old(slot)@),
{
    match env_get(vars, name) {
        Some(v) => {
            *slot = v.clone();
        },
        None => {},
    }
}

fn env_u64(vars: &Vec<(String, String)>, name: &str, slot: &mut u64)
    ensures
        *final(slot) == number_or(vars@, name@, u64::MAX as nat, *old(slot) as nat),
{
    match env_get(vars, name) {
        Some(v) => match parse_unsigned(v.as_str(), u64::MAX) {
            Some(n) => {
                *slot = n;
            },
            None => {},
        },
        None => {},
    }
}

fn env_u32(vars: &Vec<(String, String)>, name: &str, slot: &mut u32)
    ensures
        *final(slot) == number_or(vars@, name@, u32::MAX as nat, *old(slot) as nat),
{
    match env_get(vars, name) {
        Some(v) => match parse_unsigned(v.as_str(), u32::MAX as u64) {
            Some(n) => {
                *slot = n as u32;
            },
            None => {},
        },
        None => {},
    }
}

fn env_usize(vars: &Vec<(String, String)>, name: &str, slot: &mut usize)
    ensures
        *final(slot) == number_or(vars@, name@, usize::MAX as nat, *old(slot) as nat),
{
    match env_get(vars, name) {
        Some(v) => match parse_unsigned(v.as_str(), usize::MAX as u64) {
            Some(n) => {
                *slot = n as usize;
            },
            None => {},
        },
        None => {},
    }
}

fn env_i64(vars: &Vec<(String, String)>, name: &str, slot: &mut i64)
    ensures
        *final(slot) == signed_or(vars@, name@, *old(slot) as int),
{
    match env_get(vars, name) {
        Some(v) => match parse_signed(v.as_str()) {
            Some(n) => {
                *slot = n;
            },
            None => {},
        },
        None => {},
    }
}

fn env_flag(vars: &Vec<(String, String)>, name: &str, slot: &mut bool)
    ensures
        *final(slot) == flag_or(vars@, name@, *old(slot)),
{
    match env_get(vars, name) {
        Some(v) => {
            if same(v.as_str(), "true") {
                *slot = true;
            } else if same(v.as_str(), "false") {
                *slot = false;
            }
        },
        None => {},
    }
}

impl ServerConfig {
    fn override_with(&mut self, vars: &Vec<(String, String)>)
        ensures
            final(self).overrides(*old(self), vars@),
    {
        env_text(vars, "TINYLORD_SERVER_BIND", &mut self.bind);
        env_text(vars, "TINYLORD_SERVER_DATA_DIR", &mut self.data_dir);
        env_text(vars, "TINYLORD_SERVER_SNAPSHOT_DIR", &mut self.snapshot_dir);
    }

    pub open spec fn overrides(self, old: ServerConfig, vars: Seq<(String, String)>) -> bool {
        &&& self.bind@ == text_or(vars, "TINYLORD_SERVER_BIND"@, old.bind@)
        &&& self.data_dir@ == text_or(vars, "TINYLORD_SERVER_DATA_DIR"@, old.data_dir@)
        &&& self.snapshot_dir@ == text_or(
            vars,
            "TINYLORD_SERVER_SNAPSHOT_DIR"@,
            old.snapshot_dir@,
        )
    }
}

impl LimitsConfig {
    fn override_with(&mut self, vars: &Vec<(String, String)>)
        ensures
            final(self).overrides(*old(self), vars@),
    {
        env_u64(vars, "TINYLORD_LIMITS_MAX_DOCUMENT_BYTES", &mut self.max_document_bytes);
        env_u64(vars, "TINYLORD_LIMITS_MAX_DATABASE_BYTES", &mut self.max_database_bytes);
        env_u32(vars, "TINYLORD_LIMITS_MAX_QUERY_LIMIT", &mut self.max_query_limit);
        env_usize(vars, "TINYLORD_LIMITS_REQUEST_BODY_BYTES", &mut self.request_body_bytes);
        env_u32(vars, "TINYLORD_LIMITS_RATE_PER_MINUTE", &mut self.rate_per_minute);
    }

    pub open spec fn overrides(self, old: LimitsConfig, vars: Seq<(String, String)>) -> bool {
        &&& self.max_document_bytes == number_or(
            vars,
            "TINYLORD_LIMITS_MAX_DOCUMENT_BYTES"@,
            u64::MAX as nat,
            old.max_document_bytes as nat,
        )
        &&& self.max_database_bytes == number_or(
            vars,
            "TINYLORD_LIMITS_MAX_DATABASE_BYTES"@,
            u64::MAX as nat,
            old.max_database_bytes as nat,
        )
        &&& self.max_query_limit == number_or(
            vars,
            "TINYLORD_LIMITS_MAX_QUERY_LIMIT"@,
            u32::MAX as nat,
            old.max_query_limit as nat,
        )
        &&& self.request_body_bytes == number_or(
            vars,
            "TINYLORD_LIMITS_REQUEST_BODY_BYTES"@,
            usize::MAX as nat,
            old.request_body_bytes as nat,
        )
        &&& self.rate_per_minute == number_or(
            vars,
            "TINYLORD_LIMITS_RATE_PER_MINUTE"@,
            u32::MAX as nat,
            old.rate_per_minute as nat,
        )
    }
}

impl WriterConfig {
    fn override_with(&mut self, vars: &Vec<(String, String)>)
        ensures
            final(self).overrides(*old(self), vars@),
    {
        env_u32(vars, "TINYLORD_WRITER_BUSY_TIMEOUT_MS", &mut self.busy_timeout_ms);
        env_flag(vars, "TINYLORD_WRITER_GROUP_COMMIT", &mut self.group_commit);
        env_usize(vars, "TINYLORD_WRITER_GROUP_COMMIT_MAX_BATCH", &mut self.group_commit_max_batch);
        env_u64(vars, "TINYLORD_WRITER_WAL_CHECKPOINT_SECS", &mut self.wal_checkpoint_secs);
    }

    pub open spec fn overrides(self, old: WriterConfig, vars: Seq<(String, String)>) -> bool {
        &&& self.busy_timeout_ms == number_or(
            vars,
            "TINYLORD_WRITER_BUSY_TIMEOUT_MS"@,
            u32::MAX as nat,
            old.busy_timeout_ms as nat,
        )
        &&& self.group_commit == flag_or(
            vars,
            "TINYLORD_WRITER_GROUP_COMMIT"@,
            old.group_commit,
        )
        &&& self.group_commit_max_batch == number_or(
            vars,
            "TINYLORD_WRITER_GROUP_COMMIT_MAX_BATCH"@,
            usize::MAX as nat,
            old.group_commit_max_batch as nat,
        )
        &&& self.wal_checkpoint_secs == number_or(
            vars,
            "TINYLORD_WRITER_WAL_CHECKPOINT_SECS"@,
            u64::MAX as nat,
            old.wal_checkpoint_secs as nat,
        )
    }
}

impl RealtimeConfig {
    fn override_with(&mut self, vars: &Vec<(String, String)>)
        ensures
            final(self).overrides(*old(self), vars@),
    {
        env_i64(vars, "TINYLORD_REALTIME_CHANGELOG_RETENTION", &mut self.changelog_retention);
        env_usize(vars, "TINYLORD_REALTIME_SSE_CHANNEL_CAPACITY", &mut self.sse_channel_capacity);
    }

    pub open spec fn overrides(self, old: RealtimeConfig, vars: Seq<(String, String)>) -> bool {
        &&& self.changelog_retention == signed_or(
            vars,
            "TINYLORD_REALTIME_CHANGELOG_RETENTION"@,
            old.changelog_retention as int,
        )
        &&& self.sse_channel_capacity == number_or(
            vars,
            "TINYLORD_REALTIME_SSE_CHANNEL_CAPACITY"@,
            usize::MAX as nat,
            old.sse_channel_capacity as nat,
        )
    }
}

impl PubSubConfig {
    fn override_with(&mut self, vars: &Vec<(String, String)>)
        ensures
            final(self).overrides(*old(self), vars@),
    {
        env_flag(vars, "TINYLORD_PUBSUB_ENABLED", &mut self.enabled);
        env_usize(vars, "TINYLORD_PUBSUB_MAX_EVENT_BYTES", &mut self.max_event_bytes);
        env_usize(vars, "TINYLORD_PUBSUB_CHANNEL_CAPACITY", &mut self.channel_capacity);
    }

    pub open spec fn overrides(self, old: PubSubConfig, vars: Seq<(String, String)>) -> bool {
        &&& self.enabled == flag_or(vars, "TINYLORD_PUBSUB_ENABLED"@, old.enabled)
        &&& self.max_event_bytes == number_or(
            vars,
            "TINYLORD_PUBSUB_MAX_EVENT_BYTES"@,
            usize::MAX as nat,
            old.max_event_bytes as nat,
        )
        &&& self.channel_capacity == number_or(
            vars,
            "TINYLORD_PUBSUB_CHANNEL_CAPACITY"@,
            usize::MAX as nat,
            old.channel_capacity as nat,
        )
    }
}

impl Config {
    /// Puts what the environment says in place of what the file or the defaults say.
    /// Lists, the source of the key, and the paths of pages are set in the file only.
    pub fn apply_env_overrides(&mut self, vars: &Vec<(String, String)>)
        ensures
            final(self).server.overrides(old(self).server, vars@),
            final(self).limits.overrides(old(self).limits, vars@),
            final(self).writer.overrides(old(self).writer, vars@),
            final(self).realtime.overrides(old(self).realtime, vars@),
            final(self).pubsub.overrides(old(self).pubsub, vars@),
            final(self).auth == old(self).auth,
            final(self).admin_ui.path@ == old(self).admin_ui.path@,
            final(self).admin_ui.enabled == flag_or(
                vars@,
                "TINYLORD_ADMIN_UI_ENABLED"@,
                old(self).admin_ui.enabled,
            ),
            final(self).cors == old(self).cors,
            final(self).encryption.enabled == flag_or(
                vars@,
                "TINYLORD_ENCRYPTION_ENABLED"@,
                old(self).encryption.enabled,
            ),
            final(self).encryption.key_file@ == text_or(
                vars@,
                "TINYLORD_ENCRYPTION_KEY_FILE"@,
                old(self).encryption.key_file@,
            ),
            final(self).encryption.key_source == old(self).encryption.key_source,
            final(self).encryption.keyring_service == old(self).encryption.keyring_service,
            final(self).encryption.keyring_account == old(self).encryption.keyring_account,
            final(self).static_apps == old(self).static_apps,
    {
        self.server.override_with(vars);
        self.limits.override_with(vars);
        self.writer.override_with(vars);
        self.realtime.override_with(vars);
        self.pubsub.override_with(vars);
        env_flag(vars, "TINYLORD_ADMIN_UI_ENABLED", &mut self.admin_ui.enabled);
        env_flag(vars, "TINYLORD_ENCRYPTION_ENABLED", &mut self.encryption.enabled);
        env_text(vars, "TINYLORD_ENCRYPTION_KEY_FILE", &mut self.encryption.key_file);
    }
}

// ---- Overrides that are passed over ----------------------------------------

/// What a variable of the environment is to hold.
#[derive(Debug, Clone, Copy, PartialEq, Eq, Structural)]
pub enum VarKind {
    U64,
    U32,
    Usize,
    I64,
    Flag,
}

/// The variables that hold a number or a truth value, in the order in which they are
/// applied.
pub open spec fn scalar_vars() -> Seq<(Seq<char>, VarKind)> {
    seq![
        ("TINYLORD_LIMITS_MAX_DOCUMENT_BYTES"@, VarKind::U64),
        ("TINYLORD_LIMITS_MAX_DATABASE_BYTES"@, VarKind::U64),
        ("TINYLORD_LIMITS_MAX_QUERY_LIMIT"@, VarKind::U32),
        ("TINYLORD_LIMITS_REQUEST_BODY_BYTES"@, VarKind::Usize),
        ("TINYLORD_LIMITS_RATE_PER_MINUTE"@, VarKind::U32),
        ("TINYLORD_WRITER_BUSY_TIMEOUT_MS"@, VarKind::U32),
        ("TINYLORD_WRITER_GROUP_COMMIT"@, VarKind::Flag),
        ("TINYLORD_WRITER_GROUP_COMMIT_MAX_BATCH"@, VarKind::Usize),
        ("TINYLORD_WRITER_WAL_CHECKPOINT_SECS"@, VarKind::U64),
        ("TINYLORD_REALTIME_CHANGELOG_RETENTION"@, VarKind::I64),
        ("TINYLORD_REALTIME_SSE_CHANNEL_CAPACITY"@, VarKind::Usize),
        ("TINYLORD_PUBSUB_ENABLED"@, VarKind::Flag),
        ("TINYLORD_PUBSUB_MAX_EVENT_BYTES"@, VarKind::Usize),
        ("TINYLORD_PUBSUB_CHANNEL_CAPACITY"@, VarKind::Usize),
        ("TINYLORD_ADMIN_UI_ENABLED"@, VarKind::Flag),
        ("TINYLORD_ENCRYPTION_ENABLED"@, VarKind::Flag),
    ]
}

/// The text is a value of the kind.
pub open spec fn parses(v: Seq<char>, kind: VarKind) -> bool {
    match kind {
        VarKind::U64 => parsed_unsigned(v, u64::MAX as nat) is Some,
        VarKind::U32 => parsed_unsigned(v, u32::MAX as nat) is Some,
        VarKind::Usize => parsed_unsigned(v, usize::MAX as nat) is Some,
        VarKind::I64 => parsed_signed(v) is Some,
        VarKind::Flag => v == "true"@ || v == "false"@,
    }
}

/// The variable is set, and to what is no value of its kind.
pub open spec fn mistyped(vars: Seq<(String, String)>, var: (Seq<char>, VarKind)) -> bool {
    env_value(vars, var.0) matches Some(v) && !parses(v, var.1)
}

/// The names of those of some variables that are mistyped, in order.
pub open spec fn mistyped_names(
    vars: Seq<(String, String)>,
    known: Seq<(Seq<char>, VarKind)>,
) -> Seq<Seq<char>>
    decreases known.len(),
{
    if known.len() == 0 {
        Seq::empty()
    } else {
        let before = mistyped_names(vars, known.drop_last());
        if mistyped(vars, known.last()) {
            before.push(known.last().0)
        } else {
            before
        }
    }
}

spec fn known_views(v: Seq<(&'static str, VarKind)>) -> Seq<(Seq<char>, VarKind)> {
    Seq::new(v.len(), |i: int| (v[i].0@, v[i].1))
}

fn known_vars() -> (r: Vec<(&'static str, VarKind)>)
    ensures
        known_views(r@) == scalar_vars(),
{
    let mut v: Vec<(&'static str, VarKind)> = Vec::new();
    v.push(("TINYLORD_LIMITS_MAX_DOCUMENT_BYTES", VarKind::U64));
    v.push(("TINYLORD_LIMITS_MAX_DATABASE_BYTES", VarKind::U64));
    v.push(("TINYLORD_LIMITS_MAX_QUERY_LIMIT", VarKind::U32));
    v.push(("TINYLORD_LIMITS_REQUEST_BODY_BYTES", VarKind::Usize));
    v.push(("TINYLORD_LIMITS_RATE_PER_MINUTE", VarKind::U32));
    v.push(("TINYLORD_WRITER_BUSY_TIMEOUT_MS", VarKind::U32));
    v.push(("TINYLORD_WRITER_GROUP_COMMIT", VarKind::Flag));
    v.push(("TINYLORD_WRITER_GROUP_COMMIT_MAX_BATCH", VarKind::Usize));
    v.push(("TINYLORD_WRITER_WAL_CHECKPOINT_SECS", VarKind::U64));
    v.push(("TINYLORD_REALTIME_CHANGELOG_RETENTION", VarKind::I64));
    v.push(("TINYLORD_REALTIME_SSE_CHANNEL_CAPACITY", VarKind::Usize));
    v.push(("TINYLORD_PUBSUB_ENABLED", VarKind::Flag));
    v.push(("TINYLORD_PUBSUB_MAX_EVENT_BYTES", VarKind::Usize));
    v.push(("TINYLORD_PUBSUB_CHANNEL_CAPACITY", VarKind::Usize));
    v.push(("TINYLORD_ADMIN_UI_ENABLED", VarKind::Flag));
    v.push(("TINYLORD_ENCRYPTION_ENABLED", VarKind::Flag));
    assert(known_views(v@) =~= scalar_vars());
    v
}

fn does_parse(v: &str, kind: VarKind) -> (r: bool)
    ensures
        r == parses(v@, kind),
{
    match kind {
        VarKind::U64 => parse_unsigned(v, u64::MAX).is_some(),
        VarKind::U32 => parse_unsigned(v, u32::MAX as u64).is_some(),
        VarKind::Usize => parse_unsigned(v, usize::MAX as u64).is_some(),
        VarKind::I64 => parse_signed(v).is_some(),
        VarKind::Flag => same(v, "true") || same(v, "false"),
    }
}

/// The variables that are passed over because they hold no value of their kind, so that
/// a typing error can be told: all of them, in order, and no others.
pub fn passed_over(vars: &Vec<(String, String)>) -> (r: Vec<String>)
    ensures
        views(r@) == mistyped_names(vars@, scalar_vars()),
{
    let known = known_vars();
    let ghost all = known_views(known@);
    let mut out: Vec<String> = Vec::new();
    let mut i: usize = 0;
    assert(all.take(0) =~= Seq::empty());
    assert(views(out@) =~= Seq::empty());
    while i < known.len()
        invariant
            i <= known@.len(),
            all == known_views(known@),
            views(out@) == mistyped_names(vars@, all.take(i as int)),
        decreases known@.len() - i,
    {
        let (name, kind) = known[i];
        let ghost before = out@;
        proof {
            assert(all.take(i + 1).drop_last() =~= all.take(i as int));
            assert(all.take(i + 1).last() == (name@, kind));
        }
        match env_get(vars, name) {
            Some(v) => {
                if !does_parse(v.as_str(), kind) {
                    out.push(name.to_string());
                    assert(views(out@) =~= views(before).push(name@));
                }
            },
            None => {},
        }
        i = i + 1;
    }
    assert(all.take(all.len() as int) =~= all);
    out
}

/// A variable that is passed over changes nothing: what was there stays.
pub proof fn law_mistyped_variable_changes_nothing(
    vars: Seq<(String, String)>,
    name: Seq<char>,
    number: nat,
    signed: int,
    flag: bool,
)
    ensures
        mistyped(vars, (name, VarKind::U64)) ==> number_or(vars, name, u64::MAX as nat, number)
            == number,
        mistyped(vars, (name, VarKind::U32)) ==> number_or(vars, name, u32::MAX as nat, number)
            == number,
        mistyped(vars, (name, VarKind::Usize)) ==> number_or(
            vars,
            name,
            usize::MAX as nat,
            number,
        ) == number,
        mistyped(vars, (name, VarKind::I64)) ==> signed_or(vars, name, signed) == signed,
        mistyped(vars, (name, VarKind::Flag)) ==> flag_or(vars, name, flag) == flag,
{
}

// ---- Origins ---------------------------------------------------------------

/// The origins that are named; a wildcard is not.
pub open spec fn named_origins(origins: Seq<Seq<char>>) -> Seq<Seq<char>> {
    origins.filter(|o: Seq<char>| o != "*"@)
}

impl CorsConfig {
    /// The origins that may send requests. A wildcard is dropped: it is never safe
    /// where requests bear tokens.
    pub fn explicit_origins(&self) -> (r: Vec<String>)
        ensures
            views(r@) == named_origins(views(self.allowed_origins@)),
    {
        let ghost all = views(self.allowed_origins@);
        let keep = Ghost(|o: Seq<char>| o != "*"@);
        let mut out: Vec<String> = Vec::new();
        let mut i: usize = 0;
        assert(all.take(0) =~= Seq::empty());
        assert(all.take(0).filter(keep@) =~= views(out@)) by {
            reveal(Seq::filter);
        }
        while i < self.allowed_origins.len()
            invariant
                i <= self.allowed_origins@.len(),
                all == views(self.allowed_origins@),
                keep@ == (|o: Seq<char>| o != "*"@),
                views(out@) == all.take(i as int).filter(keep@),
            decreases self.allowed_origins@.len() - i,
        {
            proof {
                assert(all.take(i + 1) =~= all.take(i as int).push(all[i as int]));
                assert(all.take(i + 1).drop_last() =~= all.take(i as int));
                reveal(Seq::filter);
            }
            let o = &self.allowed_origins[i];
            if !same(o.as_str(), "*") {
                let ghost before = out@;
                out.push(o.clone());
                assert(views(out@) =~= views(before).push(o@));
            }
            i = i + 1;
        }
        assert(all.take(all.len() as int) =~= all);
        out
    }
}

/// A wildcard never gets through.
pub proof fn law_no_wildcard_origin(origins: Seq<Seq<char>>)
    ensures
        forall|i: int|
            0 <= i < named_origins(origins).len() ==> (#[trigger] named_origins(origins)[i])
                != "*"@,
{
    broadcast use vstd::seq_lib::group_seq_properties;

    let keep = |o: Seq<char>| o != "*"@;
    assert forall|i: int| 0 <= i < named_origins(origins).len() implies (
    #[trigger] named_origins(origins)[i]) != "*"@ by {
        assert(keep(origins.filter(keep)[i]));
    }
}

// ---- The page for operators ------------------------------------------------

/// Segments of letters, digits, underscores, and hyphens, each between two slashes.
pub open spec fn slash_path(p: Seq<char>) -> bool {
    &&& p.len() >= 3
    &&& p[0] == '/'
    &&& p.last() == '/'
    &&& forall|i: int| 0 <= i < p.len() ==> word(#[trigger] p[i]) || p[i] == '-' || p[i] == '/'
    &&& forall|i: int| 0 <= i < p.len() - 1 && #[trigger] p[i] == '/' ==> p[i + 1] != '/'
}

/// The path lies under one that is taken.
pub open spec fn taken_path(p: Seq<char>) -> bool {
    starts(p, "/v1/"@) || starts(p, "/health/"@)
}

fn is_slash_path(path: &str) -> (r: bool)
    ensures
        r == slash_path(path@),
{
    let v = chars_of(path);
    if v.len() < 3 || v[0] != '/' || v[v.len() - 1] != '/' {
        return false;
    }
    let mut i: usize = 0;
    while i < v.len()
        invariant
            v@ == path@,
            v@.len() >= 3,
            i <= v@.len(),
            forall|k: int| 0 <= k < i ==> word(#[trigger] v@[k]) || v@[k] == '-' || v@[k] == '/',
            forall|k: int|
                0 <= k < i && k < v@.len() - 1 && #[trigger] v@[k] == '/' ==> v@[k + 1] != '/',
        decreases v@.len() - i,
    {
        if !is_word(v[i]) && v[i] != '-' && v[i] != '/' {
            return false;
        }
        if v[i] == '/' && i < v.len() - 1 && v[i + 1] == '/' {
            return false;
        }
        i = i + 1;
    }
    true
}

/// Holds the path of the page for operators to the rules: it is a safe path that
/// overlaps no other.
pub fn validate_admin_path(path: &str) -> (r: Result<(), String>)
    ensures
        match r {
            Ok(_) => slash_path(path@) && !taken_path(path@),
            Err(m) => if !slash_path(path@) {
                m@ == "admin_ui path '"@ + path@ + "' is not a safe path"@
            } else {
                taken_path(path@) && m@ == "admin_ui path '"@ + path@ + "' overlaps another route"@
            },
        },
{
    if !is_slash_path(path) {
        return Err(concat3("admin_ui path '", path, "' is not a safe path"));
    }
    if strip_prefix(path, "/v1/").is_some() || strip_prefix(path, "/health/").is_some() {
        return Err(concat3("admin_ui path '", path, "' overlaps another route"));
    }
    Ok(())
}

// ---- Static applications ---------------------------------------------------

/// A number of at most 255 in decimal, without a sign and without leading zeros.
pub open spec fn octet(s: Seq<char>) -> bool {
    all_digits(s) && digits_value(s) <= 255 && (s[0] == '0' ==> s.len() == 1)
}

/// An address of the network 127.0.0.0/8.
pub open spec fn loopback_host(host: Seq<char>) -> bool {
    let parts = split(host, '.');
    parts.len() == 4 && parts[0] == "127"@ && octet(parts[1]) && octet(parts[2]) && octet(parts[3])
}

/// The address is on the loopback interface.
pub open spec fn loopback(bind: Seq<char>) -> bool {
    let parts = split(bind, ':');
    starts(bind, "[::1]:"@) || (parts.len() == 2 && (parts[0] == "localhost"@ || loopback_host(
        parts[0],
    )))
}

/// What is wrong with an application among those before it, if anything.
pub open spec fn app_fault(apps: Seq<StaticApp>, i: int) -> Option<Seq<char>> {
    let app = apps[i];
    if !name_ok(app.name@) {
        Some("static app name '"@ + app.name@ + "' is not safe"@)
    } else if !loopback(app.bind@) {
        Some("static app '"@ + app.name@ + "' must bind a loopback address"@)
    } else if exists|k: int| 0 <= k < i && (#[trigger] apps[k]).name@ == app.name@ {
        Some("static app name '"@ + app.name@ + "' is not unique"@)
    } else if exists|k: int| 0 <= k < i && (#[trigger] apps[k]).bind@ == app.bind@ {
        Some("static app address '"@ + app.bind@ + "' is not unique"@)
    } else {
        None
    }
}

fn name_seen(apps: &Vec<StaticApp>, n: usize, name: &str) -> (r: bool)
    requires
        n <= apps@.len(),
    ensures
        r == (exists|k: int| 0 <= k < n && (#[trigger] apps@[k]).name@ == name@),
{
    let mut i: usize = 0;
    while i < n
        invariant
            i <= n <= apps@.len(),
            forall|k: int| 0 <= k < i ==> (#[trigger] apps@[k]).name@ != name@,
        decreases n - i,
    {
        if same(apps[i].name.as_str(), name) {
            assert(apps@[i as int].name@ == name@);
            return true;
        }
        i = i + 1;
    }
    false
}

fn bind_seen(apps: &Vec<StaticApp>, n: usize, bind: &str) -> (r: bool)
    requires
        n <= apps@.len(),
    ensures
        r == (exists|k: int| 0 <= k < n && (#[trigger] apps@[k]).bind@ == bind@),
{
    let mut i: usize = 0;
    while i < n
        invariant
            i <= n <= apps@.len(),
            forall|k: int| 0 <= k < i ==> (#[trigger] apps@[k]).bind@ != bind@,
        decreases n - i,
    {
        if same(apps[i].bind.as_str(), bind) {
            assert(apps@[i as int].bind@ == bind@);
            return true;
        }
        i = i + 1;
    }
    false
}

fn is_octet(s: &str) -> (r: bool)
    ensures
        r == octet(s@),
{
    let v = chars_of(s);
    if v.len() == 0 || !is_digit(v[0]) {
        assert(!all_digits(s@)) by {
            if s@.len() > 0 {
                assert(!digit(s@[0]));
            }
        }
        return false;
    }
    assert(unsigned_part(s@) == s@);
    if v[0] == '0' && v.len() != 1 {
        return false;
    }
    parse_unsigned(s, 255).is_some()
}

fn is_loopback_host(host: &str) -> (r: bool)
    ensures
        r == loopback_host(host@),
{
    let parts = split_text(host, '.');
    let ghost all = split(host@, '.');
    assert(views(parts@).len() == parts@.len());
    assert(forall|i: int| 0 <= i < parts@.len() ==> #[trigger] all[i] == parts@[i]@);
    parts.len() == 4 && same(parts[0].as_str(), "127") && is_octet(parts[1].as_str()) && is_octet(
        parts[2].as_str(),
    ) && is_octet(parts[3].as_str())
}

fn is_loopback(bind: &str) -> (r: bool)
    ensures
        r == loopback(bind@),
{
    if strip_prefix(bind, "[::1]:").is_some() {
        return true;
    }
    let parts = split_text(bind, ':');
    let ghost all = split(bind@, ':');
    assert(views(parts@).len() == parts@.len());
    assert(forall|i: int| 0 <= i < parts@.len() ==> #[trigger] all[i] == parts@[i]@);
    parts.len() == 2 && (same(parts[0].as_str(), "localhost") || is_loopback_host(
        parts[0].as_str(),
    ))
}

/// Holds the static applications to the rules: each has a safe name and a loopback
/// address of its own.
pub fn validate_static_apps(apps: &Vec<StaticApp>) -> (r: Result<(), String>)
    ensures
        match r {
            Ok(_) => forall|i: int| 0 <= i < apps@.len() ==> #[trigger] app_fault(apps@, i) is None,
            Err(m) => exists|i: int|
                0 <= i < apps@.len() && #[trigger] app_fault(apps@, i) == Some(m@) && forall|k: int|
                    0 <= k < i ==> #[trigger] app_fault(apps@, k) is None,
        },
{
    let mut i: usize = 0;
    while i < apps.len()
        invariant
            i <= apps@.len(),
            forall|k: int| 0 <= k < i ==> #[trigger] app_fault(apps@, k) is None,
        decreases apps@.len() - i,
    {
        let app = &apps[i];
        let fault = if !valid_name(app.name.as_str()) {
            Some(concat3("static app name '", app.name.as_str(), "' is not safe"))
        } else if !is_loopback(app.bind.as_str()) {
            Some(concat3("static app '", app.name.as_str(), "' must bind a loopback address"))
        } else if name_seen(apps, i, app.name.as_str()) {
            Some(concat3("static app name '", app.name.as_str(), "' is not unique"))
        } else if bind_seen(apps, i, app.bind.as_str()) {
            Some(concat3("static app address '", app.bind.as_str(), "' is not unique"))
        } else {
            None
        };
        match fault {
            Some(m) => {
                assert(app_fault(apps@, i as int) == Some(m@));
                return Err(m);
            },
            None => {
                assert(app_fault(apps@, i as int) is None);
            },
        }
        i = i + 1;
    }
    Ok(())
}

} // verus!
