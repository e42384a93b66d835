use tinylord::cli::{
    database_exists_message, database_line, granted_line, needs_bootstrap, parse_role,
    principal_line, require_database,
};
use tinylord::config::{
    passed_over, validate_admin_path, validate_static_apps, Config, CorsConfig, KeySource,
    StaticApp,
};
use tinylord::encryption::{
    check_key_file_perms, from_environment, from_key_file, from_keyring, generate_hex_key,
    key_of, open_connection,
    open_failure, resolve, validate_hex_key, verify_open, ConnectionRole, Encryption, KeyError,
    KeyPlan,
};
use tinylord::errors::{map_sqlite_err, ApiError, ErrorCode, SqlFailure};
use tinylord::files::{
    backup_dir_name, database_file_name, enumerate_db_files, files_of_database, is_database_file,
    snapshot_file_name,
};
use tinylord::ids::{
    field_to_json_path, is_reserved_collection, new_ulid, now_ms, require_valid_name, timestamp_of,
    valid_json_path, valid_name,
};
use tinylord::indexes::generate_index_name;
use tinylord::json::{duplicate, get, json_eq, json_int, json_text, lookup, Json, Number};
use tinylord::openapi::{openapi_doc, routes};
use tinylord::projection::apply_projection;
use tinylord::rekey::{RekeyAction, RekeyPhase, RekeyRun};
use tinylord::schema::{version_at_least, DocStorage};
use tinylord::sql::{pragma_i64, real_as_int, Reply, Value};
use tinylord::system::{DatabaseRecord, PrincipalRecord, Role};
use tinylord::text::{
    contains_text, parse_signed, parse_unsigned, signed_text, split_text, strip_prefix, trim_text,
};
use tinylord::secret::{Secret, SecretBytes};
use tinylord::tokens::{generate_token, hash_token, token_of};

fn object(entries: Vec<(&str, Json)>) -> Json {
    Json::Object(entries.into_iter().map(|(k, v)| (k.to_string(), v)).collect())
}

fn texts(list: &[&str]) -> Vec<String> {
    list.iter().map(|s| s.to_string()).collect()
}

// ---- Text ------------------------------------------------------------------

#[test]
fn text_helpers_agree_with_std() {
    for s in ["", "  a b\t", "\u{a0}x\u{2003}", "x", "\n\n"] {
        assert_eq!(trim_text(s), s.trim());
    }
    for s in ["", ".", "a.b", "a..b.", "no"] {
        assert_eq!(split_text(s, '.'), s.split('.').map(String::from).collect::<Vec<_>>());
    }
    for s in ["0", "-1", "+7", "", "-", "9223372036854775807", "9223372036854775808", "1x", " 1"] {
        assert_eq!(parse_signed(s), s.parse::<i64>().ok());
    }
    for s in ["0", "255", "256", "+3", "-1", "", "007"] {
        assert_eq!(parse_unsigned(s, 255), s.parse::<u8>().ok().map(u64::from));
    }
    for n in [0, 7, -7, 1234567, i64::MAX, i64::MIN] {
        assert_eq!(signed_text(n), n.to_string());
    }
    assert_eq!(strip_prefix("Bearer x", "Bearer "), Some("x".to_string()));
    assert_eq!(strip_prefix("Basic x", "Bearer "), None);
    assert!(contains_text("UNIQUE constraint failed: t.c", "UNIQUE constraint failed"));
    assert!(!contains_text("UNIQUE", "UNIQUE constraint failed"));
}

// ---- Identifiers -----------------------------------------------------------

#[test]
fn ulids_are_fresh_and_ordered_symbols() {
    let a = new_ulid();
    let b = new_ulid();
    assert_ne!(a, b);
    assert_eq!(a.len(), 26);
    assert!(a.chars().all(|c| "0123456789ABCDEFGHJKMNPQRSTVWXYZ".contains(c)));
    let stamp = ulid::Ulid::from_string(&a).unwrap().timestamp_ms();
    assert!((now_ms() as u64).abs_diff(stamp) < 60_000);
}

#[test]
fn clock_reads_milliseconds_since_the_epoch() {
    assert_eq!(timestamp_of(None), 0);
    assert_eq!(timestamp_of(Some(1_719_000_000_000)), 1_719_000_000_000);
    let now = now_ms();
    let std = std::time::SystemTime::now()
        .duration_since(std::time::UNIX_EPOCH)
        .unwrap()
        .as_millis() as i64;
    assert!((std - now).abs() < 60_000);
}

#[test]
fn names_begin_with_a_letter() {
    assert!(valid_name("a"));
    assert!(valid_name("Users_2"));
    assert!(valid_name(&"a".repeat(64)));
    assert!(!valid_name(&"a".repeat(65)));
    for bad in ["", "1a", "_a", "a-b", "a b", "\u{e4}"] {
        assert!(!valid_name(bad), "{bad}");
    }
    let e = require_valid_name("channel", "1bad").unwrap_err();
    assert_eq!(e.code.status(), 400);
    assert_eq!(e.message, "invalid channel name; must match ^[a-zA-Z][a-zA-Z0-9_]{0,63}$");
    assert!(is_reserved_collection("changelog"));
    assert!(is_reserved_collection("indexes"));
    assert!(!is_reserved_collection("users"));
}

#[test]
fn json_paths_are_dotted_names_and_indexes() {
    for good in ["$", "$.a", "$.a.b_c", "$.a[0]", "$[12].x", "$.1"] {
        assert!(valid_json_path(good), "{good}");
    }
    for bad in ["", "a", "$.", "$..a", "$[", "$[]", "$[a]", "$.a b", "$.a'", "$a", "$.a[0"] {
        assert!(!valid_json_path(bad), "{bad}");
    }
    assert_eq!(field_to_json_path("user.age").unwrap(), "$.user.age");
    assert!(valid_json_path(&field_to_json_path("user.age").unwrap()));
    assert!(field_to_json_path("a..b").is_err());
}

#[test]
fn index_names_are_valid_and_end_in_the_identifier() {
    let fresh = "01ARZ3NDEKTSV4RRFFQ69G5FAV";
    assert_eq!(generate_index_name("users", "$.email", fresh), "ix_users_email_9g5fav");
    assert_eq!(generate_index_name("u", "$.a.b[0]", fresh), "ix_u_a_b_0_9g5fav");
    assert_eq!(generate_index_name("u", "$", fresh), "ix_u__9g5fav");
    let long = generate_index_name(&"c".repeat(60), "$.email", fresh);
    assert_eq!(long.len(), 64);
    assert!(valid_name(&long));
}

// ---- JSON ------------------------------------------------------------------

#[test]
fn json_values_compare_by_meaning() {
    let a = object(vec![("x", json_int(1)), ("y", Json::Array(vec![Json::Null]))]);
    let b = object(vec![("y", Json::Array(vec![Json::Null])), ("x", json_int(1))]);
    assert!(json_eq(&a, &b));
    assert!(json_eq(&duplicate(&a), &a));
    assert!(!json_eq(&a, &object(vec![("x", json_int(1))])));
    assert!(!json_eq(&json_int(1), &Json::Number(Number::Float(1.0f64.to_bits()))));
    assert!(json_eq(
        &Json::Number(Number::Float(0.0f64.to_bits())),
        &Json::Number(Number::Float((-0.0f64).to_bits()))
    ));
    let last = object(vec![("x", json_int(1)), ("x", json_int(2))]);
    assert!(json_eq(get(&last, "x").unwrap(), &json_int(2)));
    assert!(lookup(&a, &texts(&["y"])).is_some());
    assert!(lookup(&a, &texts(&["y", "z"])).is_none());
}

#[test]
fn projection_keeps_nesting_and_skips_what_is_missing() {
    let doc = object(vec![
        ("name", json_text("Ada")),
        ("address", object(vec![("city", json_text("London")), ("zip", json_text("N1"))])),
        ("age", json_int(36)),
    ]);
    let out = apply_projection(&doc, &texts(&["name", "address.city", "missing", "a..b"]));
    let expected = object(vec![
        ("name", json_text("Ada")),
        ("address", object(vec![("city", json_text("London"))])),
    ]);
    assert!(json_eq(&out, &expected));
    assert!(json_eq(&apply_projection(&doc, &texts(&[])), &object(vec![])));
    for list in [["address", "address.city", "name"], ["name", "address.city", "address"]] {
        let once = apply_projection(&doc, &texts(&list));
        assert!(json_eq(&apply_projection(&once, &texts(&list)), &once));
        let other = apply_projection(&doc, &texts(&["name", "address", "name"]));
        assert!(json_eq(&once, &other));
    }
}

// ---- Errors ----------------------------------------------------------------

#[test]
fn each_error_has_its_code_and_status() {
    let table = [
        (ErrorCode::BadRequest, "bad_request", 400),
        (ErrorCode::Validation, "validation", 400),
        (ErrorCode::Unauthorized, "unauthorized", 401),
        (ErrorCode::Forbidden, "forbidden", 403),
        (ErrorCode::NotFound, "not_found", 404),
        (ErrorCode::Conflict, "conflict", 409),
        (ErrorCode::PayloadTooLarge, "payload_too_large", 413),
        (ErrorCode::RateLimited, "rate_limited", 429),
        (ErrorCode::Internal, "internal", 500),
    ];
    for (code, name, status) in table {
        assert_eq!(code.as_str(), name);
        assert_eq!(code.status(), status);
    }
}

#[test]
fn errors_are_answered_in_an_envelope() {
    let r = ApiError::not_found("document not found").into_response();
    assert_eq!(r.status, 404);
    assert_eq!(r.retry_after, None);
    let expected = object(vec![(
        "error",
        object(vec![
            ("code", json_text("not_found")),
            ("message", json_text("document not found")),
            ("detail", Json::Null),
        ]),
    )]);
    assert!(json_eq(&r.body, &expected));
    let r = ApiError::rate_limited("slow down")
        .with_retry_after(61)
        .with_detail(json_int(7))
        .into_response();
    assert_eq!(r.status, 429);
    assert_eq!(r.retry_after.as_deref(), Some("61"));
    let inner = get(&r.body, "error").unwrap();
    assert!(json_eq(get(inner, "detail").unwrap(), &json_int(7)));
}

#[test]
fn engine_errors_do_not_leak() {
    let conflict = map_sqlite_err(&SqlFailure {
        unique: true,
        message: "UNIQUE constraint failed: secret".into(),
    });
    assert_eq!(conflict.code, ErrorCode::Conflict);
    assert_eq!(conflict.message, "unique constraint violation");
    for message in ["near SELECT", "NOT NULL constraint failed: t.c", "CHECK constraint failed: c"] {
        let other = map_sqlite_err(&SqlFailure { unique: false, message: message.into() });
        assert_eq!(other.code, ErrorCode::Internal);
        assert_eq!(other.message, "internal error");
    }
}

// ---- Tokens and keys -------------------------------------------------------

#[test]
fn tokens_are_hashed_with_sha256() {
    assert_eq!(
        hash_token("abc"),
        "ba7816bf8f01cfea414140de5dae2223b00361a396177a9cb410ff61f20015ad"
    );
    assert_eq!(
        hash_token(""),
        "e3b0c44298fc1c149afbf4c8996fb92427ae41e4649b934ca495991b7852b855"
    );
}

#[test]
fn tokens_are_base64url_without_padding() {
    let mut bytes = [0u8; 32];
    for (i, b) in bytes.iter_mut().enumerate() {
        *b = (i * 8 + 3) as u8;
    }
    bytes[0] = 0xff;
    bytes[1] = 0xfe;
    let (token, hash) = token_of(&bytes);
    assert_eq!(token.as_str().len(), 43);
    assert!(token.as_str().starts_with("__4"));
    assert_eq!(hash, hash_token(token.as_str()));
    let (a, ha) = generate_token();
    let (b, hb) = generate_token();
    assert_ne!(a.as_str(), b.as_str());
    assert_ne!(ha, hb);
    assert_eq!(ha, hash_token(a.as_str()));
}

#[test]
fn keys_are_64_hexadecimal_digits() {
    let mut bytes = [0u8; 32];
    bytes[0] = 0xab;
    bytes[31] = 0x01;
    let key = key_of(&bytes);
    let text = format!("ab{}01", "00".repeat(30));
    assert_eq!(key.as_str(), text);
    assert_eq!(validate_hex_key(&format!(" {}\n", text.to_uppercase())).unwrap().as_str(), text);
    for bad in ["", "ab", &"g".repeat(64), &"a".repeat(63), &"a".repeat(65)] {
        assert_eq!(
            validate_hex_key(bad).unwrap_err().message(),
            "encryption key must be exactly 64 hexadecimal characters (a 32-byte key)"
        );
    }
    let a = generate_hex_key();
    assert_ne!(a.as_str(), generate_hex_key().as_str());
    assert_eq!(validate_hex_key(a.as_str()).unwrap().as_str(), a.as_str());
}

#[test]
fn plaintext_takes_two_consents() {
    assert!(matches!(resolve(false, KeySource::Env, true), Ok(KeyPlan::Plaintext)));
    let refused = resolve(false, KeySource::Env, false).unwrap_err();
    assert!(refused.message().contains("--allow-unencrypted was not passed"));
    assert!(matches!(resolve(true, KeySource::Env, true), Ok(KeyPlan::ReadEnvironment)));
    assert!(matches!(resolve(true, KeySource::KeyFile, false), Ok(KeyPlan::ReadFile)));
    assert!(matches!(resolve(true, KeySource::Keyring, false), Ok(KeyPlan::ReadKeyring)));
}

#[test]
fn key_sources_say_what_is_missing() {
    let key = "1".repeat(64);
    assert!(from_environment(Some(&key)).ok().unwrap().is_enabled());
    let e = from_environment(None).err().unwrap();
    assert_eq!(
        e.message(),
        "key_source = \"env\" but TINYLORD_ENCRYPTION_KEY is not set (64 hex chars)"
    );
    assert!(matches!(from_environment(Some("x")), Err(KeyError::Malformed)));
    assert!(from_key_file("k", &format!("{key}\n")).is_ok());
    let e = from_key_file("/etc/k", "x").err().unwrap();
    assert_eq!(e.message(), "key file /etc/k is malformed");
    assert!(from_keyring(Some(&key)).ok().unwrap().is_enabled());
    assert!(matches!(from_keyring(Some("x")), Err(KeyError::Malformed)));
    let e = from_keyring(None).err().unwrap();
    assert_eq!(e.message(), "no key found in OS keyring; provision it first");
    assert_eq!(KeyError::ClosedKeyring.message(), "opening OS keyring entry");
}

#[test]
fn key_files_belong_to_their_owner_alone() {
    assert!(check_key_file_perms("k", 0o100600).is_ok());
    assert!(check_key_file_perms("k", 0o100700).is_ok());
    let e = check_key_file_perms("k", 0o100644).unwrap_err();
    assert_eq!(
        e.message(),
        "key file k has permissions 644; must be 0600 (owner-only). Fix with: chmod 600 k"
    );
    for mode in [0o100601, 0o100610, 0o100604] {
        assert!(check_key_file_perms("k", mode).is_err());
    }
}

#[test]
fn the_key_is_the_first_statement() {
    let key = "a".repeat(64);
    let enc = Encryption::from_hex(Secret::new(key.clone()));
    let first = format!("PRAGMA key = \"x'{key}'\";");
    assert_eq!(enc.pragma_key_sql().as_deref(), Some(first.as_str()));
    for role in [
        ConnectionRole::Writer,
        ConnectionRole::Reader,
        ConnectionRole::Control,
        ConnectionRole::Offline,
    ] {
        let v = open_connection(&enc, role, 5000, DocStorage::Jsonb);
        assert_eq!(v[0].sql, first);
        assert!(v.iter().any(|s| s.sql == "PRAGMA busy_timeout = 5000;"));
        let clear = open_connection(&Encryption::disabled(), role, 5000, DocStorage::Jsonb);
        assert_eq!(clear[0].sql, "PRAGMA journal_mode = WAL;");
    }
    let reader = open_connection(&enc, ConnectionRole::Reader, 1, DocStorage::Jsonb);
    assert_eq!(reader.last().unwrap().sql, "PRAGMA query_only = ON;");
    assert_eq!(enc.apply_to().len(), 2);
    assert!(Encryption::disabled().apply_to().is_empty());
    assert!(enc.duplicate().is_enabled());
    assert_eq!(
        open_failure(&verify_open()),
        "database could not be opened with the configured key"
    );
    assert_eq!(open_failure(&clear_statement()), "database could not be opened");
}

fn clear_statement() -> tinylord::sql::Statement {
    tinylord::sql::batch("PRAGMA synchronous = NORMAL;")
}

// ---- Rekeying --------------------------------------------------------------

fn rekey_of(n: usize) -> RekeyRun {
    let files: Vec<String> = (0..n).map(|i| format!("data/{i}.db")).collect();
    let names: Vec<String> = (0..n).map(|i| format!("{i}.db")).collect();
    RekeyRun::start(true, "data", "snap/prerekey-X", files, &names).unwrap()
}

#[test]
fn rekey_backs_up_everything_first_and_stores_the_key_last() {
    let key = "b".repeat(64);
    let mut run = rekey_of(2);
    let mut seen = Vec::new();
    while let Some(a) = run.action(&key) {
        seen.push(match a {
            RekeyAction::Backup { file, statement } => format!("backup {file} {}", statement.sql),
            RekeyAction::Rekey { file, statements } => {
                format!("rekey {file} {} {}", statements[0].sql, statements[1].sql)
            }
            RekeyAction::Restore { file, .. } => format!("restore {file}"),
            RekeyAction::Persist => "persist".to_string(),
        });
        run.report(true);
    }
    let rekey = |f: &str| {
        format!("rekey {f} PRAGMA rekey = \"x'{key}'\"; SELECT count(*) FROM sqlite_master")
    };
    assert_eq!(
        seen,
        vec![
            "backup data/0.db VACUUM INTO 'snap/prerekey-X/0.db'".to_string(),
            "backup data/1.db VACUUM INTO 'snap/prerekey-X/1.db'".to_string(),
            rekey("data/0.db"),
            rekey("data/1.db"),
            "persist".to_string(),
        ]
    );
    assert_eq!(run.phase(), RekeyPhase::Complete);
}

#[test]
fn a_failed_rekey_restores_every_file() {
    let key = "b".repeat(64);
    let mut run = rekey_of(2);
    run.report(true);
    run.report(true);
    run.report(true);
    run.report(false);
    for i in 0..2 {
        match run.action(&key).unwrap() {
            RekeyAction::Restore { file, backup, stale } => {
                assert_eq!(file, format!("data/{i}.db"));
                assert_eq!(backup, format!("snap/prerekey-X/{i}.db"));
                assert_eq!(stale, vec![format!("data/{i}.db-wal"), format!("data/{i}.db-shm")]);
            }
            other => panic!("{other:?}"),
        }
        run.report(true);
    }
    assert_eq!(run.phase(), RekeyPhase::Restored);
    assert!(run.action(&key).is_none());
    let mut unstored = rekey_of(2);
    for _ in 0..4 {
        unstored.report(true);
    }
    assert_eq!(unstored.phase(), RekeyPhase::Persist);
    unstored.report(false);
    for i in 0..2 {
        assert_eq!(unstored.phase(), RekeyPhase::Restore(i));
        unstored.report(true);
    }
    assert_eq!(unstored.phase(), RekeyPhase::Restored);
    let mut broken = rekey_of(2);
    broken.report(false);
    assert_eq!(broken.phase(), RekeyPhase::BackupFailed(0));
}

#[test]
fn rekey_needs_encryption_and_files() {
    let e = RekeyRun::start(false, "d", "b", texts(&["x"]), &texts(&["x"])).unwrap_err();
    assert_eq!(e, "encryption is disabled; nothing to rekey");
    let e = RekeyRun::start(true, "./data", "b", vec![], &vec![]).unwrap_err();
    assert_eq!(e, "no database files found under ./data");
}

// ---- Files -----------------------------------------------------------------

#[test]
fn database_files_end_in_db() {
    assert!(is_database_file("app.db"));
    assert!(!is_database_file("app.db-wal"));
    assert!(!is_database_file("db"));
    let names = texts(&["_system.db", "app.db", "app.db-wal", "app.db-shm", "notes.txt"]);
    assert_eq!(enumerate_db_files(&names), texts(&["_system.db", "app.db"]));
    assert_eq!(database_file_name("app"), "app.db");
    assert_eq!(snapshot_file_name("app", "01J"), "app-01J.db");
    assert_eq!(backup_dir_name("01J"), "prerekey-01J");
    assert_eq!(files_of_database("d/a.db"), texts(&["d/a.db", "d/a.db-wal", "d/a.db-shm"]));
}

// ---- Schema and engine values ----------------------------------------------

#[test]
fn versions_compare_part_by_part() {
    assert!(version_at_least("3.45.0", 3, 45, 0));
    assert!(version_at_least("3.46.1", 3, 45, 0));
    assert!(version_at_least("4.0", 3, 45, 0));
    assert!(!version_at_least("3.44.9", 3, 45, 0));
    assert_eq!(DocStorage::for_version(Some("3.45.1")), DocStorage::Jsonb);
    assert_eq!(DocStorage::for_version(Some("3.40.0")), DocStorage::TextJson);
    assert_eq!(DocStorage::for_version(None), DocStorage::TextJson);
    let version = rusqlite::version();
    assert_eq!(DocStorage::detect(), DocStorage::for_version(Some(version)));
    assert_eq!(DocStorage::Jsonb.store_fn(), "jsonb");
    assert_eq!(DocStorage::TextJson.store_fn(), "json");
    assert_eq!(DocStorage::Jsonb.col_type(), "BLOB");
    assert_eq!(DocStorage::TextJson.col_type(), "TEXT");
}

#[test]
fn pragma_values_are_read_from_any_cell() {
    let of = |v: Value| pragma_i64(&Reply::Rows(vec![vec![v]]));
    assert_eq!(of(Value::Integer(42)), Some(42));
    assert_eq!(of(Value::Text(" 4096 ".into())), Some(4096));
    assert_eq!(of(Value::Text("x".into())), Some(0));
    assert_eq!(of(Value::Null), Some(0));
    for f in [0.0f64, 1.9, -1.9, 1e18, 1e300, -1e300, f64::NAN, 4503599627370497.5, 0.5, 1e15] {
        assert_eq!(real_as_int(f.to_bits()), f as i64, "{f}");
        assert_eq!(of(Value::Real(f.to_bits())), Some(f as i64));
    }
    assert_eq!(pragma_i64(&Reply::Rows(vec![])), None);
}

// ---- Configuration ---------------------------------------------------------

#[test]
fn defaults_are_those_of_the_manual() {
    let c = Config::default();
    assert_eq!(c.server.bind, "127.0.0.1:8090");
    assert_eq!(c.server.data_dir, "./data");
    assert_eq!(c.server.snapshot_dir, "./snapshots");
    assert_eq!(c.limits.max_document_bytes, 1_048_576);
    assert_eq!(c.limits.max_database_bytes, 1_073_741_824);
    assert_eq!(c.limits.max_query_limit, 500);
    assert_eq!(c.limits.request_body_bytes, 2_097_152);
    assert_eq!(c.limits.rate_per_minute, 600);
    assert_eq!(c.writer.busy_timeout_ms, 5000);
    assert_eq!(c.writer.group_commit_max_batch, 64);
    assert_eq!(c.writer.wal_checkpoint_secs, 60);
    assert_eq!(c.realtime.changelog_retention, 10_000);
    assert_eq!(c.realtime.sse_channel_capacity, 256);
    assert_eq!(c.cors.allowed_origins, texts(&["http://localhost:5173"]));
    assert_eq!(c.encryption.key_file, "./secrets/tinylord.key");
    assert!(c.writer.group_commit);
    assert!(c.pubsub.enabled);
    assert_eq!(c.pubsub.max_event_bytes, 65536);
    assert_eq!(c.auth.access_token_ttl_secs, 900);
    assert!(!c.auth.public_registration);
    assert!(c.auth.secure_cookies);
    assert!(c.encryption.enabled);
    assert_eq!(c.encryption.key_source, KeySource::KeyFile);
}

#[test]
fn environment_overrides_the_file() {
    let mut c = Config::default();
    let vars = vec![
        ("TINYLORD_SERVER_BIND".to_string(), "0.0.0.0:1".to_string()),
        ("TINYLORD_LIMITS_MAX_DOCUMENT_BYTES".to_string(), "10".to_string()),
        ("TINYLORD_LIMITS_RATE_PER_MINUTE".to_string(), "nonsense".to_string()),
        ("TINYLORD_WRITER_GROUP_COMMIT".to_string(), "false".to_string()),
        ("TINYLORD_REALTIME_CHANGELOG_RETENTION".to_string(), "-1".to_string()),
        ("TINYLORD_ENCRYPTION_KEY_FILE".to_string(), "/k".to_string()),
        ("UNRELATED".to_string(), "x".to_string()),
    ];
    let rate = c.limits.rate_per_minute;
    c.apply_env_overrides(&vars);
    assert_eq!(c.server.bind, "0.0.0.0:1");
    assert_eq!(c.limits.max_document_bytes, 10);
    assert_eq!(c.limits.rate_per_minute, rate);
    assert!(!c.writer.group_commit);
    assert_eq!(c.realtime.changelog_retention, -1);
    assert_eq!(c.encryption.key_file, "/k");
}

#[test]
fn mistyped_variables_are_told() {
    let set = |pairs: &[(&str, &str)]| -> Vec<(String, String)> {
        pairs.iter().map(|(k, v)| (k.to_string(), v.to_string())).collect()
    };
    assert!(passed_over(&set(&[])).is_empty());
    let good = set(&[
        ("TINYLORD_LIMITS_RATE_PER_MINUTE", "7"),
        ("TINYLORD_WRITER_GROUP_COMMIT", "false"),
        ("TINYLORD_REALTIME_CHANGELOG_RETENTION", "-1"),
        ("TINYLORD_SERVER_BIND", "nonsense"),
        ("UNRELATED", "x"),
    ]);
    assert!(passed_over(&good).is_empty());
    let bad = set(&[
        ("TINYLORD_REALTIME_CHANGELOG_RETENTION", "1.5"),
        ("TINYLORD_WRITER_GROUP_COMMIT", "yes"),
        ("TINYLORD_LIMITS_RATE_PER_MINUTE", "-1"),
        ("TINYLORD_LIMITS_MAX_DOCUMENT_BYTES", "10"),
    ]);
    assert_eq!(
        passed_over(&bad),
        texts(&[
            "TINYLORD_LIMITS_RATE_PER_MINUTE",
            "TINYLORD_WRITER_GROUP_COMMIT",
            "TINYLORD_REALTIME_CHANGELOG_RETENTION",
        ])
    );
    let mut c = Config::default();
    let rate = c.limits.rate_per_minute;
    c.apply_env_overrides(&bad);
    assert_eq!(c.limits.rate_per_minute, rate);
    assert_eq!(c.limits.max_document_bytes, 10);
}

#[test]
fn secrets_lend_what_they_hold() {
    let s = Secret::new("tk-\u{e9}".to_string());
    let copy = s.duplicate();
    assert_eq!(s.as_str(), "tk-\u{e9}");
    drop(s);
    assert_eq!(copy.as_str(), "tk-\u{e9}");
    assert_eq!(Secret::new(String::new()).as_str(), "");
    let mut bytes = [9u8; 32];
    bytes[31] = 1;
    let held = SecretBytes::new(bytes);
    bytes[0] = 0;
    assert_eq!(held.as_array()[0], 9);
    assert_eq!(held.as_array()[31], 1);
}

#[test]
fn wildcard_origins_are_dropped() {
    let c = CorsConfig { allowed_origins: texts(&["*", "https://a.example", "*"]) };
    assert_eq!(c.explicit_origins(), texts(&["https://a.example"]));
}

fn app(name: &str, bind: &str) -> StaticApp {
    StaticApp {
        name: name.to_string(),
        bind: bind.to_string(),
        directory: "./public".to_string(),
        spa_fallback: true,
    }
}

#[test]
fn static_apps_have_names_and_ports_of_their_own() {
    assert!(validate_static_apps(&vec![]).is_ok());
    assert!(validate_static_apps(&vec![app("a", "127.0.0.1:1"), app("b", "127.0.0.1:2")]).is_ok());
    assert!(validate_static_apps(&vec![app("a", "127.0.0.1:1"), app("a", "127.0.0.1:2")]).is_err());
    assert!(validate_static_apps(&vec![app("a", "127.0.0.1:1"), app("b", "127.0.0.1:1")]).is_err());
    for bind in ["127.0.0.2:9300", "127.255.0.9:1", "[::1]:80", "localhost:80"] {
        assert!(validate_static_apps(&vec![app("a", bind)]).is_ok(), "{bind}");
    }
    for bind in [
        "0.0.0.0:1", "128.0.0.1:1", "127.0.0.256:1", "127.0.1:1", "127.0.0.01:1", "127.0.0.1",
        "127.0.0.1.example.org:1", "example.org:1", "127.0.0.+1:1",
    ] {
        assert!(validate_static_apps(&vec![app("a", bind)]).is_err(), "{bind}");
    }
}

#[test]
fn the_page_for_operators_has_a_safe_path_of_its_own() {
    for path in ["/0/", "/operator/", "/a-b/c_d/", "/v10/", "/healthy/"] {
        assert!(validate_admin_path(path).is_ok(), "{path}");
    }
    for path in ["", "/", "//", "0", "/0", "0/", "/a//b/", "/../", "/a.b/", "/a%2f/", "/a b/"] {
        let e = validate_admin_path(path).unwrap_err();
        assert_eq!(e, format!("admin_ui path '{path}' is not a safe path"));
    }
    for path in ["/v1/", "/v1/auth/", "/health/", "/health/x/"] {
        let e = validate_admin_path(path).unwrap_err();
        assert_eq!(e, format!("admin_ui path '{path}' overlaps another route"));
    }
}

// ---- Operator commands -----------------------------------------------------

#[test]
fn operator_output() {
    assert!(needs_bootstrap(0));
    assert!(!needs_bootstrap(2));
    assert_eq!(parse_role("write"), Ok(Role::Write));
    assert_eq!(parse_role("owner"), Err("role must be read|write|admin"));
    assert!(require_database("app", 1).is_ok());
    assert_eq!(require_database("app", 0), Err("database 'app' does not exist".to_string()));
    assert_eq!(database_exists_message("app"), "database 'app' already exists");
    let d = DatabaseRecord { name: "app".into(), created_at: 17 };
    assert_eq!(database_line(&d), "app\t17");
    assert_eq!(granted_line(Role::Admin, "app", "ada"), "granted admin on app to ada");
    let p = PrincipalRecord {
        id: "01J".into(),
        name: "ada".into(),
        username: Some("ada".into()),
        is_admin: false,
        disabled: true,
        created_at: 1,
    };
    let grants = vec![("app".to_string(), "read".to_string()), ("b".to_string(), "admin".to_string())];
    assert_eq!(principal_line(&p, &grants), "01J\tada\tbrowser\tdisabled\tapp:read,b:admin");
}

// ---- The description of the interface --------------------------------------

/// The routes of the server, with the methods of each and whether they need a token.
const ROUTES: [(&str, &str, bool); 26] = [
    ("/health", "get", false),
    ("/openapi.json", "get", false),
    ("/tinylord.js", "get", false),
    ("/v1/auth/register", "post", false),
    ("/v1/auth/login", "post", false),
    ("/v1/auth/refresh", "post", false),
    ("/v1/auth/logout", "post", false),
    ("/v1/auth/me", "get", true),
    ("/v1/admin/databases", "get post", true),
    ("/v1/admin/databases/{db}", "delete", true),
    ("/v1/admin/databases/{db}/snapshot", "post", true),
    ("/v1/admin/principals", "get post", true),
    ("/v1/admin/principals/password", "post", true),
    ("/v1/admin/principals/{id}", "delete", true),
    ("/v1/admin/auth/registration", "get put", true),
    ("/v1/admin/grants", "delete post", true),
    ("/v1/db/{db}/collections/{coll}/documents", "post", true),
    ("/v1/db/{db}/collections/{coll}/documents/{id}", "delete get put", true),
    ("/v1/db/{db}/collections/{coll}/query", "post", true),
    ("/v1/db/{db}/collections/{coll}/count", "post", true),
    ("/v1/db/{db}/collections/{coll}/indexes", "get post", true),
    ("/v1/db/{db}/collections/{coll}/indexes/{name}", "delete", true),
    ("/v1/db/{db}/collections/{coll}/subscribe", "get", true),
    ("/v1/db/{db}/channels/{channel}/publish", "post", true),
    ("/v1/db/{db}/channels/{channel}/subscribe", "get", true),
    ("/v1/db/{db}/channels/{channel}/presence", "get", true),
];

fn entries(v: &Json) -> &Vec<(String, Json)> {
    match v {
        Json::Object(e) => e,
        other => panic!("{other:?}"),
    }
}

#[test]
fn openapi_describes_every_route() {
    let doc = openapi_doc();
    assert!(json_eq(get(&doc, "openapi").unwrap(), &json_text("3.1.0")));
    let paths = get(&doc, "paths").unwrap();
    assert_eq!(entries(paths).len(), ROUTES.len());
    assert_eq!(routes().len(), ROUTES.len());
    for (path, methods, secured) in ROUTES {
        let described = get(paths, path).expect(path);
        let mut found: Vec<&str> = entries(described).iter().map(|(m, _)| m.as_str()).collect();
        found.sort();
        assert_eq!(found.join(" "), methods, "{path}");
        for (method, op) in entries(described) {
            let needed = if secured { vec![object(vec![("BearerAuth", Json::Array(vec![]))])] } else { vec![] };
            assert!(
                json_eq(get(op, "security").unwrap(), &Json::Array(needed)),
                "{method} {path}"
            );
            assert!(get(op, "summary").is_some());
        }
    }
    let create = lookup(
        &doc,
        &texts(&["paths", "/v1/admin/databases", "post", "responses", "409", "content"]),
    );
    assert!(create.is_some());
    let deleted = lookup(
        &doc,
        &texts(&["paths", "/v1/admin/databases/{db}", "delete", "responses", "204"]),
    );
    assert!(json_eq(deleted.unwrap(), &object(vec![])));
}
