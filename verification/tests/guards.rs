use tinylord::browser_auth::{
    clear_csrf_cookie, clear_refresh_cookie, csrf_cookie, finish_login, hash_password,
    is_hash_countable, login_key, me,
    refresh_cookie, refresh_cookie_value, require_ended, require_registration, require_session,
    require_try, session_answer, session_secrets, valid_username, verify_login, LoginGuard,
};
use tinylord::errors::ErrorCode;
use tinylord::intake::{Intake, Job, Turn};
use tinylord::json::{get, json_eq, json_int, json_text, Json};
use tinylord::limits::{check_document_size, rate_answer, RateGuard};
use tinylord::pubsub::{
    admit_listener, channel_capacity, deliver, ensure_enabled, publish, publish_answer, publish_at,
    roster_json, valid_client_id, PresenceKind, PresenceMap, PublishBody, SubscribeQuery,
};
use tinylord::secret::Secret;
use tinylord::sessions::TokenSet;
use tinylord::system::BrowserUser;
use tinylord::writer::WriteCommand;

fn object(entries: Vec<(&str, Json)>) -> Json {
    Json::Object(entries.into_iter().map(|(k, v)| (k.to_string(), v)).collect())
}

// ---- Limits ----------------------------------------------------------------

#[test]
fn document_size_is_counted_in_bytes() {
    assert!(check_document_size("{\"a\":1}", 7).is_ok());
    let e = check_document_size("{\"a\":12}", 7).unwrap_err();
    assert_eq!(e.code, ErrorCode::PayloadTooLarge);
    assert_eq!(e.message, "document exceeds max_document_bytes");
    assert!(check_document_size("\u{e4}\u{e4}", 3).is_err());
    assert!(check_document_size("anything at all", 0).is_ok());
}

#[test]
fn rate_guard_lets_a_minutes_worth_pass() {
    let guard = RateGuard::new(3);
    for _ in 0..3 {
        assert_eq!(guard.check("p"), Ok(()));
    }
    let wait = guard.check("p").unwrap_err();
    assert!(1 <= wait && wait <= 61, "{wait}");
    assert_eq!(guard.check("q"), Ok(()));
    let open = RateGuard::new(0);
    for _ in 0..100 {
        assert_eq!(open.check("p"), Ok(()));
    }
    assert_eq!(rate_answer(None), Ok(()));
    assert_eq!(rate_answer(Some(0)), Err(1));
    assert_eq!(rate_answer(Some(59)), Err(60));
}

// ---- Passwords and logins --------------------------------------------------

#[test]
fn passwords_are_hashed_and_verified() {
    let hash = hash_password("long-enough-password").unwrap();
    assert!(hash.starts_with("$argon2id$"));
    assert_ne!(hash, hash_password("long-enough-password").unwrap());
    let user = || Some((BrowserUser { id: "u".into() }, hash.clone()));
    assert_eq!(verify_login(user(), "long-enough-password").unwrap().id, "u");
    let e = verify_login(user(), "wrong-password").unwrap_err();
    assert_eq!(e.code, ErrorCode::Unauthorized);
    assert_eq!(e.message, "invalid username or password");
    assert!(verify_login(None, "long-enough-password").is_err());
    assert!(verify_login(Some((BrowserUser { id: "u".into() }, "junk".into())), "junk").is_err());
    assert!(is_hash_countable(&hash));
    let lanes = |n: &str| hash.replace("p=1$", &format!("p={n}$"));
    assert!(is_hash_countable(&lanes("536870911")));
    for n in ["536870912", "4294967295", "99999999999", "x", ""] {
        assert!(!is_hash_countable(&lanes(n)), "{n}");
        let user = Some((BrowserUser { id: "u".into() }, lanes(n)));
        let e = verify_login(user, "long-enough-password").unwrap_err();
        assert_eq!(e.message, "invalid username or password");
    }
    assert_eq!(
        hash_password("short").unwrap_err().message,
        "password must be 12 to 1024 characters"
    );
    assert!(hash_password(&"x".repeat(1025)).is_err());
    assert!(valid_username("ada-l_1"));
    assert!(!valid_username("ad"));
    assert!(!valid_username("a b c"));
    assert!(!valid_username(&"a".repeat(65)));
}

#[test]
fn five_failures_close_a_login_for_a_minute() {
    let mut guard = LoginGuard::new();
    let key = login_key("127.0.0.1", "delegate");
    assert_eq!(key, "127.0.0.1:delegate");
    for _ in 0..5 {
        assert!(guard.check(&key, 1_000));
        let e = finish_login(&mut guard, &key, 1_000, verify_login(None, "x")).unwrap_err();
        assert_eq!(e.code, ErrorCode::Unauthorized);
    }
    assert!(!guard.check(&key, 1_500));
    assert!(guard.check(&login_key("127.0.0.1", "other"), 1_500));
    assert!(guard.check(&key, 61_000));
    let e = require_try(false).unwrap_err();
    assert_eq!(e.code, ErrorCode::RateLimited);
    assert_eq!(e.retry_after_secs, Some(60));
    assert!(require_try(true).is_ok());
}

#[test]
fn a_success_forgets_the_failures() {
    let hash = hash_password("a right password").unwrap();
    let mut guard = LoginGuard::new();
    for _ in 0..4 {
        guard.fail("k", 0);
    }
    assert!(guard.check("k", 1));
    let verdict = verify_login(Some((BrowserUser { id: "u-1".into() }, hash)), "a right password");
    assert_eq!(finish_login(&mut guard, "k", 1, verdict).unwrap().id, "u-1");
    for _ in 0..4 {
        guard.fail("k", 2);
    }
    assert!(guard.check("k", 3));
    guard.fail("k", 4);
    assert!(!guard.check("k", 5));
}

// ---- Cookies and sessions --------------------------------------------------

#[test]
fn cookies_are_strict() {
    assert_eq!(
        refresh_cookie("tok", 60, true),
        "tinylord_refresh=tok; Path=/v1/auth; HttpOnly; SameSite=Strict; Max-Age=60; Secure"
    );
    assert_eq!(
        csrf_cookie("tok", 60, false),
        "tinylord_csrf=tok; Path=/; SameSite=Strict; Max-Age=60"
    );
    assert_eq!(
        clear_refresh_cookie(false),
        "tinylord_refresh=; Path=/v1/auth; HttpOnly; SameSite=Strict; Max-Age=0"
    );
    assert_eq!(
        clear_csrf_cookie(true),
        "tinylord_csrf=; Path=/; SameSite=Strict; Max-Age=0; Secure"
    );
    assert_eq!(
        refresh_cookie_value(Some("a=b; tinylord_refresh=xyz; tinylord_csrf=c")).as_deref(),
        Some("xyz")
    );
    assert_eq!(refresh_cookie_value(Some("tinylord_csrf=c")), None);
    assert_eq!(refresh_cookie_value(None), None);
}

#[test]
fn sessions_are_answered_with_their_tokens() {
    let tokens = TokenSet {
        access: Secret::new("A".into()),
        refresh: Secret::new("R".into()),
        csrf: Secret::new("C".into()),
    };
    let s = session_answer(&tokens, 900, 3600, true);
    let expected = object(vec![
        ("access_token", json_text("A")),
        ("token_type", json_text("Bearer")),
        ("expires_in", json_int(900)),
        ("csrf_token", json_text("C")),
    ]);
    assert!(json_eq(&s.body, &expected));
    assert_eq!(s.refresh_cookie, refresh_cookie("R", 3600, true));
    assert_eq!(s.csrf_cookie, csrf_cookie("C", 3600, true));
}

#[test]
fn sessions_need_both_secrets() {
    let (refresh, csrf) = session_secrets(Some("tinylord_refresh=r"), Some("c")).unwrap();
    assert_eq!((refresh.as_str(), csrf.as_str()), ("r", "c"));
    let e = session_secrets(None, Some("c")).unwrap_err();
    assert_eq!((e.code.status(), e.message.as_str()), (401, "missing refresh session"));
    let e = session_secrets(Some("tinylord_refresh=r"), None).unwrap_err();
    assert_eq!((e.code.status(), e.message.as_str()), (403, "missing CSRF token"));
    assert_eq!(require_session(None).unwrap_err().message, "invalid or expired refresh session");
    assert_eq!(require_ended(false).unwrap_err().code.status(), 401);
    assert!(require_ended(true).is_ok());
    assert_eq!(
        require_registration(false).unwrap_err().message,
        "public registration is disabled"
    );
    assert!(json_eq(
        &me("i", "n"),
        &object(vec![("id", json_text("i")), ("name", json_text("n"))])
    ));
}

// ---- The order of work -----------------------------------------------------

fn write(n: u32) -> Job<u32> {
    let cmd = WriteCommand::Delete { collection: "c".into(), id: n.to_string() };
    Job { cmd, reply: n }
}

fn checkpoint(n: u32) -> Job<u32> {
    Job { cmd: WriteCommand::Checkpoint, reply: n }
}

fn numbers(turn: Turn<u32>) -> Vec<u32> {
    match turn {
        Turn::Batch(v) => v.into_iter().map(|j| j.reply).collect(),
        Turn::Single(j) => vec![j.reply + 100],
        Turn::Wait => vec![],
        Turn::Poll => vec![999],
    }
}

#[test]
fn writes_that_wait_share_a_batch() {
    let mut intake: Intake<u32> = Intake::new(true, 3);
    assert!(matches!(intake.begin(), Turn::Wait));
    assert!(matches!(intake.received(write(1)), Turn::Poll));
    assert!(matches!(intake.polled(Some(write(2))), Turn::Poll));
    assert_eq!(numbers(intake.polled(Some(write(3)))), vec![1, 2, 3]);
    assert!(matches!(intake.begin(), Turn::Wait));
    assert!(matches!(intake.received(write(4)), Turn::Poll));
    assert_eq!(numbers(intake.polled(None)), vec![4]);
}

#[test]
fn other_commands_end_a_batch_and_come_next() {
    let mut intake: Intake<u32> = Intake::new(true, 64);
    assert!(matches!(intake.begin(), Turn::Wait));
    assert!(matches!(intake.received(write(1)), Turn::Poll));
    assert_eq!(numbers(intake.polled(Some(checkpoint(2)))), vec![1]);
    assert_eq!(numbers(intake.begin()), vec![102]);
    assert!(matches!(intake.begin(), Turn::Wait));
    assert_eq!(numbers(intake.received(checkpoint(3))), vec![103]);
    let mut lone: Intake<u32> = Intake::new(false, 64);
    assert!(matches!(lone.begin(), Turn::Wait));
    assert_eq!(numbers(lone.received(write(5))), vec![5]);
}

// ---- Channels --------------------------------------------------------------

fn body(client: &str) -> PublishBody {
    PublishBody { client_id: client.into(), data: object(vec![("hello", json_text("world"))]) }
}

#[test]
fn publishers_do_not_hear_themselves() {
    let ev = publish_at("lobby".into(), body("pubclient"), "{\"hello\":\"world\"}", 65536, 7).unwrap();
    assert!(deliver(&ev, "lobby", "pubclient").is_none());
    assert!(deliver(&ev, "room", "otherclient").is_none());
    let sse = deliver(&ev, "lobby", "otherclient").unwrap();
    assert_eq!(sse.event, "message");
    assert_eq!(sse.id, None);
    let expected = object(vec![
        ("channel", json_text("lobby")),
        ("client_id", json_text("pubclient")),
        ("ts", json_int(7)),
        ("data", object(vec![("hello", json_text("world"))])),
    ]);
    assert!(json_eq(&sse.data, &expected));
    assert!(json_eq(&publish_answer(2), &object(vec![("delivered", json_int(2))])));
}

#[test]
fn channel_requests_are_checked() {
    let e = publish("1bad".into(), body("c"), "{}", 65536).unwrap_err();
    assert_eq!(e.code.status(), 400);
    let e = publish("lobby".into(), body("c d"), "{}", 65536).unwrap_err();
    assert_eq!(e.message, "invalid client_id; must be 1-128 chars of [A-Za-z0-9_-]");
    let e = publish("lobby".into(), body("c"), &"x".repeat(65537), 65536).unwrap_err();
    assert_eq!((e.code.status(), e.message.as_str()), (413, "event payload too large"));
    assert!(publish("lobby".into(), body("c"), &"x".repeat(65536), 65536).is_ok());
    assert_eq!(ensure_enabled(false).unwrap_err().code.status(), 404);
    assert!(ensure_enabled(true).is_ok());
    assert!(valid_client_id(&"a".repeat(128)));
    assert!(!valid_client_id(&"a".repeat(129)));
    assert!(!valid_client_id(""));
    assert!(admit_listener("lobby", &SubscribeQuery { client_id: "x".into() }).is_ok());
    assert!(admit_listener("1bad", &SubscribeQuery { client_id: "x".into() }).is_err());
    assert_eq!(channel_capacity(0), 1);
    assert_eq!(channel_capacity(256), 256);
}

#[test]
fn presence_counts_connections() {
    let mut map = PresenceMap::new();
    let join = map.register_at("room", "clientA", 1).unwrap();
    assert!(matches!(
        join.kind,
        tinylord::pubsub::EventKind::Presence(PresenceKind::Join)
    ));
    assert!(map.can_register("room", "clientA"));
    assert!(map.register_at("room", "clientA", 2).is_none());
    assert!(map.register_at("room", "clientB", 3).is_some());
    assert!(map.register("hall", "clientA").is_some());
    let roster = map.roster("room");
    assert_eq!(roster.len(), 2);
    assert_eq!(roster[0].client_id, "clientA");
    assert_eq!(roster[0].connected_at, 1);
    let json = roster_json(&roster);
    match get(&json, "clients").unwrap() {
        Json::Array(v) => assert_eq!(v.len(), 2),
        other => panic!("{other:?}"),
    }
    assert!(map.deregister_at("room", "clientA", 4).is_none());
    let leave = map.deregister_at("room", "clientA", 5).unwrap();
    let sse = deliver(&leave, "room", "clientB").unwrap();
    assert_eq!(sse.event, "presence");
    assert!(json_eq(
        &sse.data,
        &object(vec![
            ("type", json_text("leave")),
            ("client_id", json_text("clientA")),
            ("ts", json_int(5)),
        ])
    ));
    assert!(map.deregister("room", "clientA").is_none());
    assert_eq!(map.roster("room").len(), 1);
    assert_eq!(map.roster("hall").len(), 1);
    assert_eq!(map.roster("nowhere").len(), 0);
}
