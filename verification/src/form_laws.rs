//! The forms of what is written and read.
//!
//! Which names, paths, addresses, versions and keys are taken, how settings are read, and
//! which requests are refused before anything is done.

use crate::admin::{
    browser_user_refusal, grant_refusal, no_content, principal_refusal, reset_outcome,
    CreateGrantBody, CreatePrincipalBody, ResetBrowserPasswordBody,
};
use crate::batch::OpReplyView;
use crate::browser_auth::{
    password_ok, refresh_value, require_session, session_secrets, username_ok,
};
use crate::cli::{grant_texts, principal_text};
use crate::config::{
    app_fault, env_value, flag_or, loopback, loopback_host, mistyped, mistyped_names,
    named_origins, number_or, octet, scalar_vars, taken_path, text_or, AdminUiConfig, AuthConfig,
    EncryptionConfig, KeySource, LimitsConfig, PubSubConfig, RealtimeConfig, ServerConfig,
    StaticApp, VarKind, WriterConfig,
};
use crate::control_laws::change_word;
use crate::data_op::RecordView;
use crate::documents::{refusal, write_answer};
use crate::encryption::{
    key_plan, key_sql, key_statements, normal_key, octal, open_statements, owner_only,
    pragma_statements, ConnectionRole, KeyPlan,
};
use crate::engine::{lemma_join5, lemma_join6};
use crate::errors::{code_status, ApiError, ErrorView};
use crate::files::stale_files;
use crate::ids::{
    field_ok, field_path, ident, name_ok, path_ok, reserved, segment, segments, timestamp,
};
use crate::indexes::{
    bare_end, bare_start, drop_refusal, index_name, index_refusal, path_part, sanitized,
};
use crate::json::{Json, JsonView};
use crate::limits::{over_limit, rate_answer};
use crate::pubsub::{client_ok, listen_refusal, reaches, PubSubView};
use crate::realtime::{
    eq_filter, filter_entries, filter_entry, json_views, last_event_id, log_row, EqClause,
    LogRowView, MatchView, Op,
};
use crate::rekey::rekey_statements;
use crate::schema::{collection_sql, init_sql, storage_for, version_part, DocStorage};
use crate::sessions::{
    base_tables, browser_tables, columns_readable, has_column, schema_next, SchemaStage, TokenSet,
};
use crate::sql::{Mode, Reply, ReplyView, StatementView, ValueView};
use crate::system::{PrincipalRecordView, System};
use crate::text::{
    all_digits, decimal, digit, digits_value, join, letter, lower, lower_char, parsed_unsigned,
    signed_decimal, split, starts, trim_end, trim_start, trimmed, white, word,
};
use crate::writer::{batchable, CommandView};
use vstd::prelude::*;
use vstd::utf8::encode_utf8;

verus! {

// ---- Characters and texts --------------------------------------------------

/// Letters are those of ASCII, in either case; a word has digits and underscores as well.
pub proof fn law_letters_digits_words(c: char)
    ensures
        letter(c) <==> (97 <= c as int <= 122 || 65 <= c as int <= 90),
        digit(c) <==> 48 <= c as int <= 57,
        word(c) <==> (97 <= c as int <= 122 || 65 <= c as int <= 90 || 48 <= c as int <= 57
            || c as int == 95),
{
}

/// Folding the case changes the capital letters of ASCII to the small ones that stand 32
/// places behind them, and nothing else; what is folded stays so.
pub proof fn law_case_is_folded(c: char)
    ensures
        65 <= c as int <= 90 ==> lower_char(c) as int == c as int + 32,
        !(65 <= c as int <= 90) ==> lower_char(c) == c,
        lower_char(lower_char(c)) == lower_char(c),
{
}

proof fn lemma_trim_start(a: Seq<char>, t: Seq<char>)
    requires
        forall|i: int| 0 <= i < a.len() ==> white(#[trigger] a[i]),
        t.len() > 0,
        !white(t[0]),
    ensures
        trim_start(a + t) == t,
    decreases a.len(),
{
    if a.len() == 0 {
        assert(a + t =~= t);
    } else {
        assert((a + t)[0] == a[0]);
        assert((a + t).skip(1) =~= a.skip(1) + t);
        assert forall|i: int| 0 <= i < a.skip(1).len() implies white(#[trigger] a.skip(1)[i]) by {
            assert(a.skip(1)[i] == a[i + 1]);
        }
        lemma_trim_start(a.skip(1), t);
    }
}

proof fn lemma_trim_end(t: Seq<char>, b: Seq<char>)
    requires
        forall|i: int| 0 <= i < b.len() ==> white(#[trigger] b[i]),
        t.len() > 0,
        !white(t.last()),
    ensures
        trim_end(t + b) == t,
    decreases b.len(),
{
    if b.len() == 0 {
        assert(t + b =~= t);
    } else {
        assert((t + b).last() == b.last());
        assert((t + b).drop_last() =~= t + b.drop_last());
        assert forall|i: int| 0 <= i < b.drop_last().len() implies white(
            #[trigger] b.drop_last()[i],
        ) by {
            assert(b.drop_last()[i] == b[i]);
        }
        lemma_trim_end(t, b.drop_last());
    }
}

/// White space around a text is taken off, and none within it.
pub proof fn law_space_around_is_taken_off(a: Seq<char>, t: Seq<char>, b: Seq<char>)
    requires
        forall|i: int| 0 <= i < a.len() ==> white(#[trigger] a[i]),
        forall|i: int| 0 <= i < b.len() ==> white(#[trigger] b[i]),
        t.len() > 0,
        !white(t[0]),
        !white(t.last()),
    ensures
        trimmed(a + t + b) == t,
{
    assert(a + t + b =~= a + (t + b));
    assert((t + b)[0] == t[0]);
    lemma_trim_start(a, t + b);
    lemma_trim_end(t, b);
    lemma_trim_end(a + t, b);
    lemma_trim_start(a, t);
    assert((a + t).last() == t.last());
}

/// A text falls into the pieces of what stands before a separator and of what stands
/// behind it.
pub proof fn law_pieces_of_a_text(a: Seq<char>, sep: char, b: Seq<char>)
    ensures
        split(a + seq![sep] + b, sep) == split(a, sep) + split(b, sep),
        split(b, sep).len() >= 1,
    decreases b.len(),
{
    let s = a + seq![sep] + b;
    if b.len() == 0 {
        assert(s.drop_last() =~= a);
        assert(s.last() == sep);
        assert(split(a, sep).push(Seq::empty()) =~= split(a, sep) + split(b, sep));
    } else {
        law_pieces_of_a_text(a, sep, b.drop_last());
        assert(s.drop_last() =~= a + seq![sep] + b.drop_last());
        assert(s.last() == b.last());
        let before = split(b.drop_last(), sep);
        let all = split(a, sep) + before;
        assert(split(s.drop_last(), sep) == all);
        if b.last() == sep {
            assert(all.push(Seq::empty()) =~= split(a, sep) + before.push(Seq::empty()));
        } else {
            assert(all.last() == before.last());
            assert(all.drop_last().push(all.last().push(b.last())) =~= split(a, sep)
                + before.drop_last().push(before.last().push(b.last())));
        }
    }
}

/// A text without the separator is one piece.
pub proof fn law_text_without_separator_is_whole(s: Seq<char>, sep: char)
    requires
        forall|i: int| 0 <= i < s.len() ==> #[trigger] s[i] != sep,
    ensures
        split(s, sep) == seq![s],
    decreases s.len(),
{
    if s.len() > 0 {
        assert forall|i: int| 0 <= i < s.drop_last().len() implies #[trigger] s.drop_last()[i]
            != sep by {
            assert(s.drop_last()[i] == s[i]);
        }
        law_text_without_separator_is_whole(s.drop_last(), sep);
        assert(s.drop_last().push(s.last()) =~= s);
        assert(split(s, sep) =~= seq![s]);
    } else {
        assert(s =~= Seq::empty());
    }
}

// ---- Names and paths -------------------------------------------------------

/// A database, a collection or an index is named by a letter and up to 63 letters, digits
/// and underscores, and by nothing else.
pub proof fn law_names(s: Seq<char>)
    ensures
        s.len() == 0 ==> !name_ok(s),
        s.len() > 64 ==> !name_ok(s),
        s.len() > 0 && !letter(s[0]) ==> !name_ok(s),
        forall|i: int| 0 <= i < s.len() && !word(s[i]) ==> !name_ok(s),
        1 <= s.len() <= 64 && letter(s[0]) && (forall|i: int|
            0 <= i < s.len() ==> word(#[trigger] s[i])) ==> name_ok(s),
{
}

/// A name is reserved exactly when an underscore before it makes it the name of an internal
/// table.
pub proof fn law_reserved_names(name: Seq<char>)
    ensures
        reserved(name) <==> ("_"@ + name == "_changelog"@ || "_"@ + name == "_indexes"@),
{
    reveal_strlit("_");
    reveal_strlit("changelog");
    reveal_strlit("indexes");
    reveal_strlit("_changelog");
    reveal_strlit("_indexes");
    assert("_"@ + "changelog"@ =~= "_changelog"@);
    assert("_"@ + "indexes"@ =~= "_indexes"@);
    assert(("_"@ + name).skip(1) =~= name);
    assert("_changelog"@.skip(1) =~= "changelog"@);
    assert("_indexes"@.skip(1) =~= "indexes"@);
}

proof fn lemma_more_segments(s: Seq<char>, t: Seq<char>)
    requires
        segments(s),
        segment(t),
    ensures
        segments(s + t),
    decreases s.len(),
{
    if s.len() == 0 {
        assert(s + t =~= t);
        assert(t.take(t.len() as int) =~= t);
        assert(segments(t.skip(t.len() as int)));
        assert(segment(t.take(t.len() as int)));
    } else {
        let k = choose|k: int|
            0 < k <= s.len() && #[trigger] segment(s.take(k)) && segments(s.skip(k));
        lemma_more_segments(s.skip(k), t);
        assert((s + t).take(k) =~= s.take(k));
        assert((s + t).skip(k) =~= s.skip(k) + t);
        assert(segment((s + t).take(k)));
    }
}

/// A path begins at the whole document and goes on by members and by places in arrays, as
/// often as one likes.
pub proof fn law_paths(p: Seq<char>, name: Seq<char>, place: Seq<char>)
    requires
        path_ok(p),
        ident(name),
        all_digits(place),
    ensures
        path_ok(seq!['$']),
        p[0] == '$',
        path_ok(p + (seq!['.'] + name)),
        path_ok(p + (seq!['['] + place + seq![']'])),
{
    assert(seq!['$'].skip(1) =~= Seq::empty());
    let member = seq!['.'] + name;
    assert(member.skip(1) =~= name);
    assert(segment(member));
    lemma_more_segments(p.skip(1), member);
    assert((p + member).skip(1) =~= p.skip(1) + member);
    let element = seq!['['] + place + seq![']'];
    assert forall|i: int| 1 <= i < element.len() - 1 implies digit(#[trigger] element[i]) by {
        assert(element[i] == place[i - 1]);
    }
    assert(segment(element));
    lemma_more_segments(p.skip(1), element);
    assert((p + element).skip(1) =~= p.skip(1) + element);
}

/// A field that is taken stands for the path to the member of that name, and one that is
/// not taken is none.
pub proof fn law_fields(field: Seq<char>)
    ensures
        field.len() == 0 ==> field_path(field) is Err,
        field_path(field) matches Ok(p) ==> p == seq!['$', '.'] + field && field.len() > 0,
        ident(field) && split(field, '.') == seq![field] ==> field_path(field) is Ok,
        field.len() > 0 && (exists|i: int|
            0 <= i < split(field, '.').len() && !ident(#[trigger] split(field, '.')[i]))
            ==> field_path(field) is Err,
{
    reveal_strlit("$.");
    assert("$."@ =~= seq!['$', '.']);
}

// ---- Settings --------------------------------------------------------------

/// A variable that is set counts: its text, its number where it is one in range, its truth
/// where it says `true` or `false`. What is not set, or says something else, leaves what
/// there was.
pub proof fn law_variables_count(
    vars: Seq<(String, String)>,
    name: Seq<char>,
    max: nat,
    n: nat,
    text: Seq<char>,
    flag: bool,
)
    ensures
        env_value(vars, name) is None ==> text_or(vars, name, text) == text && number_or(
            vars,
            name,
            max,
            n,
        ) == n && flag_or(vars, name, flag) == flag,
        env_value(vars, name) == Some("true"@) ==> flag_or(vars, name, flag),
        env_value(vars, name) == Some("false"@) ==> !flag_or(vars, name, flag),
        env_value(vars, name) matches Some(v) ==> text_or(vars, name, text) == v,
        env_value(vars, name) matches Some(v) ==> number_or(vars, name, max, n) <= max || number_or(
            vars,
            name,
            max,
            n,
        ) == n,
{
    reveal_strlit("true");
    reveal_strlit("false");
    assert("true"@.len() == 4 && "false"@.len() == 5);
}

/// The first of several variables of one name counts.
pub proof fn law_first_variable_counts(
    vars: Seq<(String, String)>,
    name: Seq<char>,
    i: int,
)
    requires
        0 <= i < vars.len(),
        vars[i].0@ == name,
        forall|k: int| 0 <= k < i ==> (#[trigger] vars[k]).0@ != name,
    ensures
        env_value(vars, name) == Some(vars[i].1@),
{
    lemma_env_from(vars, name, 0, i);
}

proof fn lemma_env_from(vars: Seq<(String, String)>, name: Seq<char>, k: int, i: int)
    requires
        0 <= k <= i < vars.len(),
        vars[i].0@ == name,
        forall|j: int| k <= j < i ==> (#[trigger] vars[j]).0@ != name,
    ensures
        crate::config::env_from(vars, name, k) == Some(vars[i].1@),
    decreases i - k,
{
    if k < i {
        assert(vars[k].0@ != name);
        lemma_env_from(vars, name, k + 1, i);
    }
}

/// A number that is written is read back where it is in range, and is no number where it is
/// not.
pub proof fn law_numbers_in_range(n: nat, max: nat)
    ensures
        n <= max ==> parsed_unsigned(decimal(n), max) == Some(n),
        n > max ==> parsed_unsigned(decimal(n), max) is None,
{
    crate::text::lemma_decimal_is_read(n);
}

// ---- Addresses -------------------------------------------------------------

/// An application may be bound to the loopback interface: under its name or under any
/// address of its network, whatever the port.
pub proof fn law_loopback_addresses(host: Seq<char>, port: Seq<char>)
    requires
        forall|i: int| 0 <= i < port.len() ==> #[trigger] port[i] != ':',
        forall|i: int| 0 <= i < host.len() ==> #[trigger] host[i] != ':',
        host.len() == 0 || host[0] != '[',
    ensures
        loopback("localhost"@ + seq![':'] + port),
        loopback("[::1]:"@ + port),
        loopback(host + seq![':'] + port) <==> (host == "localhost"@ || loopback_host(host)),
{
    reveal_strlit("localhost");
    reveal_strlit("[::1]:");
    law_pieces_of_a_text("localhost"@, ':', port);
    law_pieces_of_a_text(host, ':', port);
    law_text_without_separator_is_whole("localhost"@, ':');
    law_text_without_separator_is_whole(host, ':');
    law_text_without_separator_is_whole(port, ':');
    let bind = host + seq![':'] + port;
    assert(split(bind, ':') =~= seq![host, port]);
    assert(split("localhost"@ + seq![':'] + port, ':') =~= seq!["localhost"@, port]);
    assert(("[::1]:"@ + port).take("[::1]:"@.len() as int) =~= "[::1]:"@);
    if starts(bind, "[::1]:"@) {
        assert(bind.take("[::1]:"@.len() as int)[0] == bind[0]);
        assert("[::1]:"@[0] == '[');
        assert("[::1]:"@[1] == ':');
        assert(bind.take("[::1]:"@.len() as int)[1] == bind[1]);
    }
}

/// The network of the loopback interface has the addresses that begin with 127 and go on
/// with three numbers of one byte.
pub proof fn law_loopback_network(n: Seq<char>, a: Seq<char>, b: Seq<char>, c: Seq<char>)
    requires
        all_digits(n),
        all_digits(a),
        all_digits(b),
        all_digits(c),
    ensures
        loopback_host(n + seq!['.'] + (a + seq!['.'] + (b + seq!['.'] + c))) <==> (n == "127"@
            && octet(a) && octet(b) && octet(c)),
{
    law_pieces_of_a_text(n, '.', a + seq!['.'] + (b + seq!['.'] + c));
    law_pieces_of_a_text(a, '.', b + seq!['.'] + c);
    law_pieces_of_a_text(b, '.', c);
    lemma_digits_whole(n);
    lemma_digits_whole(a);
    lemma_digits_whole(b);
    lemma_digits_whole(c);
    assert(split(n + seq!['.'] + (a + seq!['.'] + (b + seq!['.'] + c)), '.') =~= seq![n, a, b, c]);
}

proof fn lemma_digits_whole(s: Seq<char>)
    requires
        all_digits(s),
    ensures
        split(s, '.') == seq![s],
{
    assert forall|i: int| 0 <= i < s.len() implies #[trigger] s[i] != '.' by {
        assert(digit(s[i]));
    }
    law_text_without_separator_is_whole(s, '.');
}

/// A number of one byte is at most 255 and has no leading zero.
pub proof fn law_octets(s: Seq<char>)
    requires
        octet(s),
    ensures
        digits_value(s) < 256,
        s.len() > 1 ==> s[0] != '0',
{
}

// ---- Versions --------------------------------------------------------------

/// Documents are stored in binary from the version 3.45 of the engine on, and as text
/// before it or where the version is unknown.
pub proof fn law_storage_by_version(a: Seq<char>, b: Seq<char>, c: Seq<char>)
    requires
        all_digits(a),
        all_digits(b),
        all_digits(c),
        digits_value(a) <= u32::MAX,
        digits_value(b) <= u32::MAX,
        digits_value(c) <= u32::MAX,
    ensures
        storage_for(None) is TextJson,
        storage_for(Some(a + seq!['.'] + (b + seq!['.'] + c))) is Jsonb <==> (digits_value(a) > 3
            || (digits_value(a) == 3 && digits_value(b) >= 45)),
{
    let v = a + seq!['.'] + (b + seq!['.'] + c);
    law_pieces_of_a_text(a, '.', b + seq!['.'] + c);
    law_pieces_of_a_text(b, '.', c);
    lemma_digits_whole(a);
    lemma_digits_whole(b);
    lemma_digits_whole(c);
    assert(split(v, '.') =~= seq![a, b, c]);
    assert(digit(a[0]) && digit(b[0]) && digit(c[0]));
    assert(version_part(v, 0) == digits_value(a));
    assert(version_part(v, 1) == digits_value(b));
    assert(version_part(v, 2) == digits_value(c));
}

// ---- Keys ------------------------------------------------------------------

/// A key is 64 hexadecimal digits, in either case, with or without white space around it;
/// it is kept in lower case. Anything shorter or longer is none.
pub proof fn law_keys(a: Seq<char>, k: Seq<char>, b: Seq<char>)
    requires
        forall|i: int| 0 <= i < a.len() ==> white(#[trigger] a[i]),
        forall|i: int| 0 <= i < b.len() ==> white(#[trigger] b[i]),
        k.len() > 0,
        forall|i: int|
            0 <= i < k.len() ==> ('0' <= #[trigger] k[i] <= '9' || 'a' <= k[i] <= 'f' || 'A' <= k[i]
                <= 'F'),
    ensures
        k.len() == 64 ==> normal_key(a + k + b) == Some(lower(k)),
        k.len() != 64 ==> normal_key(a + k + b) is None,
{
    assert('0' <= k[0] <= '9' || 'a' <= k[0] <= 'f' || 'A' <= k[0] <= 'F');
    assert(k.last() == k[k.len() - 1]);
    law_space_around_is_taken_off(a, k, b);
}

/// A key file is taken only where neither the group nor anyone else has any right to it.
pub proof fn law_key_file_is_private(mode: u32)
    ensures
        owner_only(mode) <==> mode & 0o77 == 0,
{
    assert(mode % 64 == mode & 0o77) by (bit_vector);
}

// ---- Connections -----------------------------------------------------------

/// A setting of a connection.
pub open spec fn setting(name: Seq<char>, value: Seq<char>) -> StatementView {
    StatementView {
        sql: "PRAGMA "@ + name + " = "@ + value + ";"@,
        params: Seq::empty(),
        mode: Mode::Batch,
    }
}

/// Every connection writes ahead, waits for others as long as it is told, and holds to the
/// references between tables.
pub proof fn law_connections_are_set_up(ms: u32)
    ensures
        pragma_statements(ms) == seq![
            setting("journal_mode"@, "WAL"@),
            setting("synchronous"@, "NORMAL"@),
            setting("busy_timeout"@, decimal(ms as nat)),
            setting("foreign_keys"@, "ON"@),
            setting("temp_store"@, "MEMORY"@),
            setting("cache_size"@, "-8000"@),
            setting("mmap_size"@, "134217728"@),
        ],
{
    reveal_strlit("PRAGMA ");
    reveal_strlit(" = ");
    reveal_strlit(";");
    reveal_strlit("journal_mode");
    reveal_strlit("WAL");
    reveal_strlit("synchronous");
    reveal_strlit("NORMAL");
    reveal_strlit("busy_timeout");
    reveal_strlit("foreign_keys");
    reveal_strlit("ON");
    reveal_strlit("temp_store");
    reveal_strlit("MEMORY");
    reveal_strlit("cache_size");
    reveal_strlit("-8000");
    reveal_strlit("mmap_size");
    reveal_strlit("134217728");
    reveal_strlit("PRAGMA journal_mode = WAL;");
    reveal_strlit("PRAGMA synchronous = NORMAL;");
    reveal_strlit("PRAGMA busy_timeout = ");
    reveal_strlit("PRAGMA foreign_keys = ON;");
    reveal_strlit("PRAGMA temp_store = MEMORY;");
    reveal_strlit("PRAGMA cache_size = -8000;");
    reveal_strlit("PRAGMA mmap_size = 134217728;");
    assert(setting("journal_mode"@, "WAL"@).sql =~= "PRAGMA journal_mode = WAL;"@);
    assert(setting("synchronous"@, "NORMAL"@).sql =~= "PRAGMA synchronous = NORMAL;"@);
    assert("PRAGMA "@ + "busy_timeout"@ + " = "@ =~= "PRAGMA busy_timeout = "@);
    assert(setting("foreign_keys"@, "ON"@).sql =~= "PRAGMA foreign_keys = ON;"@);
    assert(setting("temp_store"@, "MEMORY"@).sql =~= "PRAGMA temp_store = MEMORY;"@);
    assert(setting("cache_size"@, "-8000"@).sql =~= "PRAGMA cache_size = -8000;"@);
    assert(setting("mmap_size"@, "134217728"@).sql =~= "PRAGMA mmap_size = 134217728;"@);
}

/// A key is handed to the engine as bytes in hexadecimal, for opening and for giving a file
/// a new one.
pub proof fn law_key_is_handed_over(key: Seq<char>)
    ensures
        key_sql(key) == setting("key"@, seq!['"', 'x', '\''] + key + seq!['\'', '"']).sql,
        rekey_statements(key)[0] == setting(
            "rekey"@,
            seq!['"', 'x', '\''] + key + seq!['\'', '"'],
        ),
        rekey_statements(key).len() == 2,
        rekey_statements(key)[1].mode == Mode::Query,
{
    reveal_strlit("PRAGMA ");
    reveal_strlit(" = ");
    reveal_strlit(";");
    reveal_strlit("key");
    reveal_strlit("rekey");
    reveal_strlit("PRAGMA key = \"x'");
    reveal_strlit("PRAGMA rekey = \"x'");
    reveal_strlit("'\";");
    let value = seq!['"', 'x', '\''] + key + seq!['\'', '"'];
    assert(key_sql(key) =~= setting("key"@, value).sql);
    assert("PRAGMA rekey = \"x'"@ + key + "'\";"@ =~= setting("rekey"@, value).sql);
}

// ---- Requests --------------------------------------------------------------

/// A document is taken exactly when its collection has a name that is not reserved and the
/// document is an object within the limit. What is too large is answered 413, anything else
/// that is not taken 400.
pub proof fn law_documents_that_are_taken(
    coll: Seq<char>,
    body: JsonView,
    text: Seq<char>,
    max: u64,
)
    ensures
        refusal(coll, body, text, max) is None <==> (name_ok(coll) && !reserved(coll)
            && body is Object && !over_limit(encode_utf8(text).len(), max)),
        refusal(coll, body, text, max) matches Some(e) ==> code_status(e.code) == (if name_ok(coll)
            && !reserved(coll) && body is Object {
            413u16
        } else {
            400u16
        }),
{
}

/// A write is answered 201 where a document is new, 200 where one was replaced, 204 where
/// one was deleted, and 404 where there was none to delete.
pub proof fn law_writes_are_answered(rec: RecordView, e: ErrorView)
    ensures
        write_answer(OpReplyView::Written { rec, created: true }) matches Ok(a) && a.status == 201
            && a.body is Some,
        write_answer(OpReplyView::Written { rec, created: false }) matches Ok(a) && a.status == 200
            && a.body is Some,
        write_answer(OpReplyView::Deleted(true)) matches Ok(a) && a.status == 204 && a.body is None,
        write_answer(OpReplyView::Deleted(false)) matches Err(e) && code_status(e.code) == 404,
        write_answer(OpReplyView::Failed(e)) matches Err(f) && f == e,
{
}

/// A grant is taken exactly when it names a database and one of the three roles.
pub proof fn law_grants_that_are_taken(body: CreateGrantBody)
    ensures
        grant_refusal(body) is None <==> (name_ok(body.database@) && (body.role@ == "read"@
            || body.role@ == "write"@ || body.role@ == "admin"@)),
        grant_refusal(body) matches Some(e) ==> code_status(e.code) == 400,
{
}

/// An index is made exactly for a path in a collection that has a name, and dropped by its
/// name.
pub proof fn law_index_requests_that_are_taken(coll: Seq<char>, path: Seq<char>, name: Seq<char>)
    ensures
        index_refusal(coll, path) is None <==> name_ok(coll) && path_ok(path),
        index_refusal(coll, path) matches Some(e) ==> code_status(e.code) == 400,
        drop_refusal(coll, name) is None <==> name_ok(coll) && name_ok(name),
        drop_refusal(coll, name) matches Some(e) ==> code_status(e.code) == 400,
{
}

/// A browser user has a user name and is no administrator.
pub proof fn law_browser_users_that_are_taken(name: Seq<char>, is_admin: bool)
    ensures
        browser_user_refusal(name, is_admin) is None <==> username_ok(name) && !is_admin,
        browser_user_refusal(name, is_admin) matches Some(e) ==> code_status(e.code) == 400,
{
}

// ---- Listings of the operator ----------------------------------------------

/// A principal is listed in five columns: its identifier, its name, what it is, whether it
/// is disabled, and its grants.
pub proof fn law_principals_are_listed_in_columns(
    p: PrincipalRecordView,
    grants: Seq<(Seq<char>, Seq<char>)>,
)
    ensures
        principal_text(p, grants) == join(
            seq![
                p.id,
                p.name,
                if p.username is None {
                    "token"@
                } else {
                    "browser"@
                },
                if p.disabled {
                    "disabled"@
                } else {
                    "active"@
                },
                join(grant_texts(grants), ","@),
            ],
            "\t"@,
        ),
        forall|i: int|
            0 <= i < grants.len() ==> #[trigger] grant_texts(grants)[i] == grants[i].0 + ":"@
                + grants[i].1,
{
    lemma_join5(
        p.id,
        p.name,
        if p.username is None {
            "token"@
        } else {
            "browser"@
        },
        if p.disabled {
            "disabled"@
        } else {
            "active"@
        },
        join(grant_texts(grants), ","@),
        "\t"@,
    );
}

// ---- Tables ----------------------------------------------------------------

proof fn lemma_collection_columns()
    ensures
        " (rowid INTEGER PRIMARY KEY, id TEXT NOT NULL UNIQUE, doc "@ == " ("@
            + "rowid INTEGER PRIMARY KEY"@ + ", "@ + "id TEXT NOT NULL UNIQUE"@ + ", "@ + "doc "@,
        " NOT NULL, created_at INTEGER NOT NULL, updated_at INTEGER NOT NULL, CHECK ("@
            == " NOT NULL"@ + ", "@ + "created_at INTEGER NOT NULL"@ + ", "@
            + "updated_at INTEGER NOT NULL"@ + ", "@ + "CHECK ("@,
        "));"@ == ")"@ + ");"@,
{
    reveal_strlit(" (rowid INTEGER PRIMARY KEY, id TEXT NOT NULL UNIQUE, doc ");
    reveal_strlit(" (");
    reveal_strlit("rowid INTEGER PRIMARY KEY");
    reveal_strlit(", ");
    reveal_strlit("id TEXT NOT NULL UNIQUE");
    reveal_strlit("doc ");
    reveal_strlit(" NOT NULL, created_at INTEGER NOT NULL, updated_at INTEGER NOT NULL, CHECK (");
    reveal_strlit(" NOT NULL");
    reveal_strlit("created_at INTEGER NOT NULL");
    reveal_strlit("updated_at INTEGER NOT NULL");
    reveal_strlit("CHECK (");
    reveal_strlit(")");
    reveal_strlit(");");
    reveal_strlit("));");
    assert(" (rowid INTEGER PRIMARY KEY, id TEXT NOT NULL UNIQUE, doc "@ =~= " ("@
        + "rowid INTEGER PRIMARY KEY"@ + ", "@ + "id TEXT NOT NULL UNIQUE"@ + ", "@ + "doc "@);
    assert(" NOT NULL, created_at INTEGER NOT NULL, updated_at INTEGER NOT NULL, CHECK ("@
        =~= " NOT NULL"@ + ", "@ + "created_at INTEGER NOT NULL"@ + ", "@
        + "updated_at INTEGER NOT NULL"@ + ", "@ + "CHECK ("@);
    assert("));"@ =~= ")"@ + ");"@);
}

/// The table of a collection has a key of its own, one row for each identifier, and two
/// times; its documents are JSON, in binary or as text.
pub proof fn law_table_of_a_collection(name: Seq<char>, storage: DocStorage)
    ensures
        collection_sql(name, storage) == "CREATE TABLE IF NOT EXISTS coll_"@ + name + " ("@ + join(
            seq![
                "rowid INTEGER PRIMARY KEY"@,
                "id TEXT NOT NULL UNIQUE"@,
                "doc "@ + (if storage is Jsonb {
                    "BLOB"@
                } else {
                    "TEXT"@
                }) + " NOT NULL"@,
                "created_at INTEGER NOT NULL"@,
                "updated_at INTEGER NOT NULL"@,
                "CHECK ("@ + (if storage is Jsonb {
                    "json_valid(doc, 8)"@
                } else {
                    "json_valid(doc)"@
                }) + ")"@,
            ],
            ", "@,
        ) + ");"@,
{
    lemma_collection_columns();
    let kind = if storage is Jsonb {
        "BLOB"@
    } else {
        "TEXT"@
    };
    let check = if storage is Jsonb {
        "json_valid(doc, 8)"@
    } else {
        "json_valid(doc)"@
    };
    lemma_join6(
        "rowid INTEGER PRIMARY KEY"@,
        "id TEXT NOT NULL UNIQUE"@,
        "doc "@ + kind + " NOT NULL"@,
        "created_at INTEGER NOT NULL"@,
        "updated_at INTEGER NOT NULL"@,
        "CHECK ("@ + check + ")"@,
        ", "@,
    );
    let a = "CREATE TABLE IF NOT EXISTS coll_"@ + name;
    let b = "rowid INTEGER PRIMARY KEY"@;
    let c = "id TEXT NOT NULL UNIQUE"@;
    let d = "created_at INTEGER NOT NULL"@;
    let e = "updated_at INTEGER NOT NULL"@;
    assert(a + (" ("@ + b + ", "@ + c + ", "@ + "doc "@) + kind + (" NOT NULL"@ + ", "@ + d + ", "@
        + e + ", "@ + "CHECK ("@) + check + (")"@ + ");"@) =~= a + " ("@ + (b + ", "@ + c + ", "@ + (
    "doc "@ + kind + " NOT NULL"@) + ", "@ + d + ", "@ + e + ", "@ + ("CHECK ("@ + check + ")"@))
        + ");"@);
}

/// The statement that creates a table, where it is missing.
pub open spec fn table_text(name: Seq<char>, columns: Seq<Seq<char>>) -> Seq<char> {
    "CREATE TABLE IF NOT EXISTS "@ + name + " ("@ + join(columns, ", "@) + ");"@
}

proof fn lemma_written_1()
    ensures
        "name TEXT PRIMARY KEY"@ + ", "@ + "created_at INTEGER NOT NULL"@ == "name TEXT PRIMARY KEY, created_at INTEGER NOT NULL"@,
{
    reveal_strlit("name TEXT PRIMARY KEY");
    reveal_strlit(", ");
    reveal_strlit("created_at INTEGER NOT NULL");
    reveal_strlit("name TEXT PRIMARY KEY, created_at INTEGER NOT NULL");
    assert("name TEXT PRIMARY KEY"@ + ", "@ + "created_at INTEGER NOT NULL"@ =~= "name TEXT PRIMARY KEY, created_at INTEGER NOT NULL"@);
}

proof fn lemma_written_2()
    ensures
        "CREATE TABLE IF NOT EXISTS "@ + "databases"@ + " ("@ + "name TEXT PRIMARY KEY, created_at INTEGER NOT NULL"@ + ");"@ == "CREATE TABLE IF NOT EXISTS databases (name TEXT PRIMARY KEY, created_at INTEGER NOT NULL);"@,
{
    reveal_strlit("CREATE TABLE IF NOT EXISTS ");
    reveal_strlit("databases");
    reveal_strlit(" (");
    reveal_strlit("name TEXT PRIMARY KEY, created_at INTEGER NOT NULL");
    reveal_strlit(");");
    reveal_strlit("CREATE TABLE IF NOT EXISTS databases (name TEXT PRIMARY KEY, created_at INTEGER NOT NULL);");
    assert("CREATE TABLE IF NOT EXISTS "@ + "databases"@ + " ("@ + "name TEXT PRIMARY KEY, created_at INTEGER NOT NULL"@ + ");"@ =~= "CREATE TABLE IF NOT EXISTS databases (name TEXT PRIMARY KEY, created_at INTEGER NOT NULL);"@);
}

proof fn lemma_written_3()
    ensures
        "id TEXT PRIMARY KEY"@ + ", "@ + "name TEXT NOT NULL"@ + ", "@ + "is_admin INTEGER NOT NULL DEFAULT 0"@ + ", "@ + "token_hash TEXT NOT NULL"@ + ", "@ + "disabled INTEGER NOT NULL DEFAULT 0"@ + ", "@ + "created_at INTEGER NOT NULL"@ == "id TEXT PRIMARY KEY, name TEXT NOT NULL, is_admin INTEGER NOT NULL DEFAULT 0, token_hash TEXT NOT NULL, disabled INTEGER NOT NULL DEFAULT 0, created_at INTEGER NOT NULL"@,
{
    reveal_strlit("id TEXT PRIMARY KEY");
    reveal_strlit(", ");
    reveal_strlit("name TEXT NOT NULL");
    reveal_strlit("is_admin INTEGER NOT NULL DEFAULT 0");
    reveal_strlit("token_hash TEXT NOT NULL");
    reveal_strlit("disabled INTEGER NOT NULL DEFAULT 0");
    reveal_strlit("created_at INTEGER NOT NULL");
    reveal_strlit("id TEXT PRIMARY KEY, name TEXT NOT NULL, is_admin INTEGER NOT NULL DEFAULT 0, token_hash TEXT NOT NULL, disabled INTEGER NOT NULL DEFAULT 0, created_at INTEGER NOT NULL");
    assert("id TEXT PRIMARY KEY"@ + ", "@ + "name TEXT NOT NULL"@ + ", "@ + "is_admin INTEGER NOT NULL DEFAULT 0"@ + ", "@ + "token_hash TEXT NOT NULL"@ + ", "@ + "disabled INTEGER NOT NULL DEFAULT 0"@ + ", "@ + "created_at INTEGER NOT NULL"@ =~= "id TEXT PRIMARY KEY, name TEXT NOT NULL, is_admin INTEGER NOT NULL DEFAULT 0, token_hash TEXT NOT NULL, disabled INTEGER NOT NULL DEFAULT 0, created_at INTEGER NOT NULL"@);
}

proof fn lemma_written_4()
    ensures
        "CREATE TABLE IF NOT EXISTS "@ + "principals"@ + " ("@ + "id TEXT PRIMARY KEY, name TEXT NOT NULL, is_admin INTEGER NOT NULL DEFAULT 0, token_hash TEXT NOT NULL, disabled INTEGER NOT NULL DEFAULT 0, created_at INTEGER NOT NULL"@ + ");"@ == "CREATE TABLE IF NOT EXISTS principals (id TEXT PRIMARY KEY, name TEXT NOT NULL, is_admin INTEGER NOT NULL DEFAULT 0, token_hash TEXT NOT NULL, disabled INTEGER NOT NULL DEFAULT 0, created_at INTEGER NOT NULL);"@,
{
    reveal_strlit("CREATE TABLE IF NOT EXISTS ");
    reveal_strlit("principals");
    reveal_strlit(" (");
    reveal_strlit("id TEXT PRIMARY KEY, name TEXT NOT NULL, is_admin INTEGER NOT NULL DEFAULT 0, token_hash TEXT NOT NULL, disabled INTEGER NOT NULL DEFAULT 0, created_at INTEGER NOT NULL");
    reveal_strlit(");");
    reveal_strlit("CREATE TABLE IF NOT EXISTS principals (id TEXT PRIMARY KEY, name TEXT NOT NULL, is_admin INTEGER NOT NULL DEFAULT 0, token_hash TEXT NOT NULL, disabled INTEGER NOT NULL DEFAULT 0, created_at INTEGER NOT NULL);");
    assert("CREATE TABLE IF NOT EXISTS "@ + "principals"@ + " ("@ + "id TEXT PRIMARY KEY, name TEXT NOT NULL, is_admin INTEGER NOT NULL DEFAULT 0, token_hash TEXT NOT NULL, disabled INTEGER NOT NULL DEFAULT 0, created_at INTEGER NOT NULL"@ + ");"@ =~= "CREATE TABLE IF NOT EXISTS principals (id TEXT PRIMARY KEY, name TEXT NOT NULL, is_admin INTEGER NOT NULL DEFAULT 0, token_hash TEXT NOT NULL, disabled INTEGER NOT NULL DEFAULT 0, created_at INTEGER NOT NULL);"@);
}

proof fn lemma_written_5()
    ensures
        "principal_id TEXT NOT NULL"@ + ", "@ + "database_name TEXT NOT NULL"@ + ", "@ + "role TEXT NOT NULL"@ + ", "@ + "PRIMARY KEY (principal_id, database_name)"@ == "principal_id TEXT NOT NULL, database_name TEXT NOT NULL, role TEXT NOT NULL, PRIMARY KEY (principal_id, database_name)"@,
{
    reveal_strlit("principal_id TEXT NOT NULL");
    reveal_strlit(", ");
    reveal_strlit("database_name TEXT NOT NULL");
    reveal_strlit("role TEXT NOT NULL");
    reveal_strlit("PRIMARY KEY (principal_id, database_name)");
    reveal_strlit("principal_id TEXT NOT NULL, database_name TEXT NOT NULL, role TEXT NOT NULL, PRIMARY KEY (principal_id, database_name)");
    assert("principal_id TEXT NOT NULL"@ + ", "@ + "database_name TEXT NOT NULL"@ + ", "@ + "role TEXT NOT NULL"@ + ", "@ + "PRIMARY KEY (principal_id, database_name)"@ =~= "principal_id TEXT NOT NULL, database_name TEXT NOT NULL, role TEXT NOT NULL, PRIMARY KEY (principal_id, database_name)"@);
}

proof fn lemma_written_6()
    ensures
        "CREATE TABLE IF NOT EXISTS "@ + "grants"@ + " ("@ + "principal_id TEXT NOT NULL, database_name TEXT NOT NULL, role TEXT NOT NULL, PRIMARY KEY (principal_id, database_name)"@ + ");"@ == "CREATE TABLE IF NOT EXISTS grants (principal_id TEXT NOT NULL, database_name TEXT NOT NULL, role TEXT NOT NULL, PRIMARY KEY (principal_id, database_name));"@,
{
    reveal_strlit("CREATE TABLE IF NOT EXISTS ");
    reveal_strlit("grants");
    reveal_strlit(" (");
    reveal_strlit("principal_id TEXT NOT NULL, database_name TEXT NOT NULL, role TEXT NOT NULL, PRIMARY KEY (principal_id, database_name)");
    reveal_strlit(");");
    reveal_strlit("CREATE TABLE IF NOT EXISTS grants (principal_id TEXT NOT NULL, database_name TEXT NOT NULL, role TEXT NOT NULL, PRIMARY KEY (principal_id, database_name));");
    assert("CREATE TABLE IF NOT EXISTS "@ + "grants"@ + " ("@ + "principal_id TEXT NOT NULL, database_name TEXT NOT NULL, role TEXT NOT NULL, PRIMARY KEY (principal_id, database_name)"@ + ");"@ =~= "CREATE TABLE IF NOT EXISTS grants (principal_id TEXT NOT NULL, database_name TEXT NOT NULL, role TEXT NOT NULL, PRIMARY KEY (principal_id, database_name));"@);
}

proof fn lemma_written_7()
    ensures
        "CREATE TABLE IF NOT EXISTS databases (name TEXT PRIMARY KEY, created_at INTEGER NOT NULL);"@ + " "@ + "CREATE TABLE IF NOT EXISTS principals (id TEXT PRIMARY KEY, name TEXT NOT NULL, is_admin INTEGER NOT NULL DEFAULT 0, token_hash TEXT NOT NULL, disabled INTEGER NOT NULL DEFAULT 0, created_at INTEGER NOT NULL);"@ == "CREATE TABLE IF NOT EXISTS databases (name TEXT PRIMARY KEY, created_at INTEGER NOT NULL); CREATE TABLE IF NOT EXISTS principals (id TEXT PRIMARY KEY, name TEXT NOT NULL, is_admin INTEGER NOT NULL DEFAULT 0, token_hash TEXT NOT NULL, disabled INTEGER NOT NULL DEFAULT 0, created_at INTEGER NOT NULL);"@,
{
    reveal_strlit("CREATE TABLE IF NOT EXISTS databases (name TEXT PRIMARY KEY, created_at INTEGER NOT NULL);");
    reveal_strlit(" ");
    reveal_strlit("CREATE TABLE IF NOT EXISTS principals (id TEXT PRIMARY KEY, name TEXT NOT NULL, is_admin INTEGER NOT NULL DEFAULT 0, token_hash TEXT NOT NULL, disabled INTEGER NOT NULL DEFAULT 0, created_at INTEGER NOT NULL);");
    reveal_strlit("CREATE TABLE IF NOT EXISTS databases (name TEXT PRIMARY KEY, created_at INTEGER NOT NULL); CREATE TABLE IF NOT EXISTS principals (id TEXT PRIMARY KEY, name TEXT NOT NULL, is_admin INTEGER NOT NULL DEFAULT 0, token_hash TEXT NOT NULL, disabled INTEGER NOT NULL DEFAULT 0, created_at INTEGER NOT NULL);");
    assert("CREATE TABLE IF NOT EXISTS databases (name TEXT PRIMARY KEY, created_at INTEGER NOT NULL);"@ + " "@ + "CREATE TABLE IF NOT EXISTS principals (id TEXT PRIMARY KEY, name TEXT NOT NULL, is_admin INTEGER NOT NULL DEFAULT 0, token_hash TEXT NOT NULL, disabled INTEGER NOT NULL DEFAULT 0, created_at INTEGER NOT NULL);"@ =~= "CREATE TABLE IF NOT EXISTS databases (name TEXT PRIMARY KEY, created_at INTEGER NOT NULL); CREATE TABLE IF NOT EXISTS principals (id TEXT PRIMARY KEY, name TEXT NOT NULL, is_admin INTEGER NOT NULL DEFAULT 0, token_hash TEXT NOT NULL, disabled INTEGER NOT NULL DEFAULT 0, created_at INTEGER NOT NULL);"@);
}

proof fn lemma_written_8()
    ensures
        "CREATE TABLE IF NOT EXISTS databases (name TEXT PRIMARY KEY, created_at INTEGER NOT NULL); CREATE TABLE IF NOT EXISTS principals (id TEXT PRIMARY KEY, name TEXT NOT NULL, is_admin INTEGER NOT NULL DEFAULT 0, token_hash TEXT NOT NULL, disabled INTEGER NOT NULL DEFAULT 0, created_at INTEGER NOT NULL);"@ + " "@ + "CREATE UNIQUE INDEX IF NOT EXISTS ux_principals_token ON principals(token_hash);"@ == "CREATE TABLE IF NOT EXISTS databases (name TEXT PRIMARY KEY, created_at INTEGER NOT NULL); CREATE TABLE IF NOT EXISTS principals (id TEXT PRIMARY KEY, name TEXT NOT NULL, is_admin INTEGER NOT NULL DEFAULT 0, token_hash TEXT NOT NULL, disabled INTEGER NOT NULL DEFAULT 0, created_at INTEGER NOT NULL); CREATE UNIQUE INDEX IF NOT EXISTS ux_principals_token ON principals(token_hash);"@,
{
    reveal_strlit("CREATE TABLE IF NOT EXISTS databases (name TEXT PRIMARY KEY, created_at INTEGER NOT NULL); CREATE TABLE IF NOT EXISTS principals (id TEXT PRIMARY KEY, name TEXT NOT NULL, is_admin INTEGER NOT NULL DEFAULT 0, token_hash TEXT NOT NULL, disabled INTEGER NOT NULL DEFAULT 0, created_at INTEGER NOT NULL);");
    reveal_strlit(" ");
    reveal_strlit("CREATE UNIQUE INDEX IF NOT EXISTS ux_principals_token ON principals(token_hash);");
    reveal_strlit("CREATE TABLE IF NOT EXISTS databases (name TEXT PRIMARY KEY, created_at INTEGER NOT NULL); CREATE TABLE IF NOT EXISTS principals (id TEXT PRIMARY KEY, name TEXT NOT NULL, is_admin INTEGER NOT NULL DEFAULT 0, token_hash TEXT NOT NULL, disabled INTEGER NOT NULL DEFAULT 0, created_at INTEGER NOT NULL); CREATE UNIQUE INDEX IF NOT EXISTS ux_principals_token ON principals(token_hash);");
    assert("CREATE TABLE IF NOT EXISTS databases (name TEXT PRIMARY KEY, created_at INTEGER NOT NULL); CREATE TABLE IF NOT EXISTS principals (id TEXT PRIMARY KEY, name TEXT NOT NULL, is_admin INTEGER NOT NULL DEFAULT 0, token_hash TEXT NOT NULL, disabled INTEGER NOT NULL DEFAULT 0, created_at INTEGER NOT NULL);"@ + " "@ + "CREATE UNIQUE INDEX IF NOT EXISTS ux_principals_token ON principals(token_hash);"@ =~= "CREATE TABLE IF NOT EXISTS databases (name TEXT PRIMARY KEY, created_at INTEGER NOT NULL); CREATE TABLE IF NOT EXISTS principals (id TEXT PRIMARY KEY, name TEXT NOT NULL, is_admin INTEGER NOT NULL DEFAULT 0, token_hash TEXT NOT NULL, disabled INTEGER NOT NULL DEFAULT 0, created_at INTEGER NOT NULL); CREATE UNIQUE INDEX IF NOT EXISTS ux_principals_token ON principals(token_hash);"@);
}

proof fn lemma_written_9()
    ensures
        "CREATE TABLE IF NOT EXISTS databases (name TEXT PRIMARY KEY, created_at INTEGER NOT NULL); CREATE TABLE IF NOT EXISTS principals (id TEXT PRIMARY KEY, name TEXT NOT NULL, is_admin INTEGER NOT NULL DEFAULT 0, token_hash TEXT NOT NULL, disabled INTEGER NOT NULL DEFAULT 0, created_at INTEGER NOT NULL); CREATE UNIQUE INDEX IF NOT EXISTS ux_principals_token ON principals(token_hash);"@ + " "@ + "CREATE TABLE IF NOT EXISTS grants (principal_id TEXT NOT NULL, database_name TEXT NOT NULL, role TEXT NOT NULL, PRIMARY KEY (principal_id, database_name));"@ == "CREATE TABLE IF NOT EXISTS databases (name TEXT PRIMARY KEY, created_at INTEGER NOT NULL); CREATE TABLE IF NOT EXISTS principals (id TEXT PRIMARY KEY, name TEXT NOT NULL, is_admin INTEGER NOT NULL DEFAULT 0, token_hash TEXT NOT NULL, disabled INTEGER NOT NULL DEFAULT 0, created_at INTEGER NOT NULL); CREATE UNIQUE INDEX IF NOT EXISTS ux_principals_token ON principals(token_hash); CREATE TABLE IF NOT EXISTS grants (principal_id TEXT NOT NULL, database_name TEXT NOT NULL, role TEXT NOT NULL, PRIMARY KEY (principal_id, database_name));"@,
{
    reveal_strlit("CREATE TABLE IF NOT EXISTS databases (name TEXT PRIMARY KEY, created_at INTEGER NOT NULL); CREATE TABLE IF NOT EXISTS principals (id TEXT PRIMARY KEY, name TEXT NOT NULL, is_admin INTEGER NOT NULL DEFAULT 0, token_hash TEXT NOT NULL, disabled INTEGER NOT NULL DEFAULT 0, created_at INTEGER NOT NULL); CREATE UNIQUE INDEX IF NOT EXISTS ux_principals_token ON principals(token_hash);");
    reveal_strlit(" ");
    reveal_strlit("CREATE TABLE IF NOT EXISTS grants (principal_id TEXT NOT NULL, database_name TEXT NOT NULL, role TEXT NOT NULL, PRIMARY KEY (principal_id, database_name));");
    reveal_strlit("CREATE TABLE IF NOT EXISTS databases (name TEXT PRIMARY KEY, created_at INTEGER NOT NULL); CREATE TABLE IF NOT EXISTS principals (id TEXT PRIMARY KEY, name TEXT NOT NULL, is_admin INTEGER NOT NULL DEFAULT 0, token_hash TEXT NOT NULL, disabled INTEGER NOT NULL DEFAULT 0, created_at INTEGER NOT NULL); CREATE UNIQUE INDEX IF NOT EXISTS ux_principals_token ON principals(token_hash); CREATE TABLE IF NOT EXISTS grants (principal_id TEXT NOT NULL, database_name TEXT NOT NULL, role TEXT NOT NULL, PRIMARY KEY (principal_id, database_name));");
    assert("CREATE TABLE IF NOT EXISTS databases (name TEXT PRIMARY KEY, created_at INTEGER NOT NULL); CREATE TABLE IF NOT EXISTS principals (id TEXT PRIMARY KEY, name TEXT NOT NULL, is_admin INTEGER NOT NULL DEFAULT 0, token_hash TEXT NOT NULL, disabled INTEGER NOT NULL DEFAULT 0, created_at INTEGER NOT NULL); CREATE UNIQUE INDEX IF NOT EXISTS ux_principals_token ON principals(token_hash);"@ + " "@ + "CREATE TABLE IF NOT EXISTS grants (principal_id TEXT NOT NULL, database_name TEXT NOT NULL, role TEXT NOT NULL, PRIMARY KEY (principal_id, database_name));"@ =~= "CREATE TABLE IF NOT EXISTS databases (name TEXT PRIMARY KEY, created_at INTEGER NOT NULL); CREATE TABLE IF NOT EXISTS principals (id TEXT PRIMARY KEY, name TEXT NOT NULL, is_admin INTEGER NOT NULL DEFAULT 0, token_hash TEXT NOT NULL, disabled INTEGER NOT NULL DEFAULT 0, created_at INTEGER NOT NULL); CREATE UNIQUE INDEX IF NOT EXISTS ux_principals_token ON principals(token_hash); CREATE TABLE IF NOT EXISTS grants (principal_id TEXT NOT NULL, database_name TEXT NOT NULL, role TEXT NOT NULL, PRIMARY KEY (principal_id, database_name));"@);
}

proof fn lemma_written_10()
    ensures
        "token_hash TEXT PRIMARY KEY"@ + ", "@ + "principal_id TEXT NOT NULL"@ + ", "@ + "expires_at INTEGER NOT NULL"@ == "token_hash TEXT PRIMARY KEY, principal_id TEXT NOT NULL, expires_at INTEGER NOT NULL"@,
{
    reveal_strlit("token_hash TEXT PRIMARY KEY");
    reveal_strlit(", ");
    reveal_strlit("principal_id TEXT NOT NULL");
    reveal_strlit("expires_at INTEGER NOT NULL");
    reveal_strlit("token_hash TEXT PRIMARY KEY, principal_id TEXT NOT NULL, expires_at INTEGER NOT NULL");
    assert("token_hash TEXT PRIMARY KEY"@ + ", "@ + "principal_id TEXT NOT NULL"@ + ", "@ + "expires_at INTEGER NOT NULL"@ =~= "token_hash TEXT PRIMARY KEY, principal_id TEXT NOT NULL, expires_at INTEGER NOT NULL"@);
}

proof fn lemma_written_11()
    ensures
        "CREATE TABLE IF NOT EXISTS "@ + "browser_access_tokens"@ + " ("@ + "token_hash TEXT PRIMARY KEY, principal_id TEXT NOT NULL, expires_at INTEGER NOT NULL"@ + ");"@ == "CREATE TABLE IF NOT EXISTS browser_access_tokens (token_hash TEXT PRIMARY KEY, principal_id TEXT NOT NULL, expires_at INTEGER NOT NULL);"@,
{
    reveal_strlit("CREATE TABLE IF NOT EXISTS ");
    reveal_strlit("browser_access_tokens");
    reveal_strlit(" (");
    reveal_strlit("token_hash TEXT PRIMARY KEY, principal_id TEXT NOT NULL, expires_at INTEGER NOT NULL");
    reveal_strlit(");");
    reveal_strlit("CREATE TABLE IF NOT EXISTS browser_access_tokens (token_hash TEXT PRIMARY KEY, principal_id TEXT NOT NULL, expires_at INTEGER NOT NULL);");
    assert("CREATE TABLE IF NOT EXISTS "@ + "browser_access_tokens"@ + " ("@ + "token_hash TEXT PRIMARY KEY, principal_id TEXT NOT NULL, expires_at INTEGER NOT NULL"@ + ");"@ =~= "CREATE TABLE IF NOT EXISTS browser_access_tokens (token_hash TEXT PRIMARY KEY, principal_id TEXT NOT NULL, expires_at INTEGER NOT NULL);"@);
}

proof fn lemma_written_12()
    ensures
        "token_hash TEXT PRIMARY KEY"@ + ", "@ + "principal_id TEXT NOT NULL"@ + ", "@ + "csrf_hash TEXT NOT NULL"@ + ", "@ + "expires_at INTEGER NOT NULL"@ + ", "@ + "created_at INTEGER NOT NULL"@ == "token_hash TEXT PRIMARY KEY, principal_id TEXT NOT NULL, csrf_hash TEXT NOT NULL, expires_at INTEGER NOT NULL, created_at INTEGER NOT NULL"@,
{
    reveal_strlit("token_hash TEXT PRIMARY KEY");
    reveal_strlit(", ");
    reveal_strlit("principal_id TEXT NOT NULL");
    reveal_strlit("csrf_hash TEXT NOT NULL");
    reveal_strlit("expires_at INTEGER NOT NULL");
    reveal_strlit("created_at INTEGER NOT NULL");
    reveal_strlit("token_hash TEXT PRIMARY KEY, principal_id TEXT NOT NULL, csrf_hash TEXT NOT NULL, expires_at INTEGER NOT NULL, created_at INTEGER NOT NULL");
    assert("token_hash TEXT PRIMARY KEY"@ + ", "@ + "principal_id TEXT NOT NULL"@ + ", "@ + "csrf_hash TEXT NOT NULL"@ + ", "@ + "expires_at INTEGER NOT NULL"@ + ", "@ + "created_at INTEGER NOT NULL"@ =~= "token_hash TEXT PRIMARY KEY, principal_id TEXT NOT NULL, csrf_hash TEXT NOT NULL, expires_at INTEGER NOT NULL, created_at INTEGER NOT NULL"@);
}

proof fn lemma_written_13()
    ensures
        "CREATE TABLE IF NOT EXISTS "@ + "browser_sessions"@ + " ("@ + "token_hash TEXT PRIMARY KEY, principal_id TEXT NOT NULL, csrf_hash TEXT NOT NULL, expires_at INTEGER NOT NULL, created_at INTEGER NOT NULL"@ + ");"@ == "CREATE TABLE IF NOT EXISTS browser_sessions (token_hash TEXT PRIMARY KEY, principal_id TEXT NOT NULL, csrf_hash TEXT NOT NULL, expires_at INTEGER NOT NULL, created_at INTEGER NOT NULL);"@,
{
    reveal_strlit("CREATE TABLE IF NOT EXISTS ");
    reveal_strlit("browser_sessions");
    reveal_strlit(" (");
    reveal_strlit("token_hash TEXT PRIMARY KEY, principal_id TEXT NOT NULL, csrf_hash TEXT NOT NULL, expires_at INTEGER NOT NULL, created_at INTEGER NOT NULL");
    reveal_strlit(");");
    reveal_strlit("CREATE TABLE IF NOT EXISTS browser_sessions (token_hash TEXT PRIMARY KEY, principal_id TEXT NOT NULL, csrf_hash TEXT NOT NULL, expires_at INTEGER NOT NULL, created_at INTEGER NOT NULL);");
    assert("CREATE TABLE IF NOT EXISTS "@ + "browser_sessions"@ + " ("@ + "token_hash TEXT PRIMARY KEY, principal_id TEXT NOT NULL, csrf_hash TEXT NOT NULL, expires_at INTEGER NOT NULL, created_at INTEGER NOT NULL"@ + ");"@ =~= "CREATE TABLE IF NOT EXISTS browser_sessions (token_hash TEXT PRIMARY KEY, principal_id TEXT NOT NULL, csrf_hash TEXT NOT NULL, expires_at INTEGER NOT NULL, created_at INTEGER NOT NULL);"@);
}

proof fn lemma_written_14()
    ensures
        "key TEXT PRIMARY KEY"@ + ", "@ + "value INTEGER NOT NULL"@ == "key TEXT PRIMARY KEY, value INTEGER NOT NULL"@,
{
    reveal_strlit("key TEXT PRIMARY KEY");
    reveal_strlit(", ");
    reveal_strlit("value INTEGER NOT NULL");
    reveal_strlit("key TEXT PRIMARY KEY, value INTEGER NOT NULL");
    assert("key TEXT PRIMARY KEY"@ + ", "@ + "value INTEGER NOT NULL"@ =~= "key TEXT PRIMARY KEY, value INTEGER NOT NULL"@);
}

proof fn lemma_written_15()
    ensures
        "CREATE TABLE IF NOT EXISTS "@ + "auth_settings"@ + " ("@ + "key TEXT PRIMARY KEY, value INTEGER NOT NULL"@ + ");"@ == "CREATE TABLE IF NOT EXISTS auth_settings (key TEXT PRIMARY KEY, value INTEGER NOT NULL);"@,
{
    reveal_strlit("CREATE TABLE IF NOT EXISTS ");
    reveal_strlit("auth_settings");
    reveal_strlit(" (");
    reveal_strlit("key TEXT PRIMARY KEY, value INTEGER NOT NULL");
    reveal_strlit(");");
    reveal_strlit("CREATE TABLE IF NOT EXISTS auth_settings (key TEXT PRIMARY KEY, value INTEGER NOT NULL);");
    assert("CREATE TABLE IF NOT EXISTS "@ + "auth_settings"@ + " ("@ + "key TEXT PRIMARY KEY, value INTEGER NOT NULL"@ + ");"@ =~= "CREATE TABLE IF NOT EXISTS auth_settings (key TEXT PRIMARY KEY, value INTEGER NOT NULL);"@);
}

proof fn lemma_written_16()
    ensures
        "CREATE TABLE IF NOT EXISTS browser_access_tokens (token_hash TEXT PRIMARY KEY, principal_id TEXT NOT NULL, expires_at INTEGER NOT NULL);"@ + " "@ + "CREATE INDEX IF NOT EXISTS ix_browser_access_expiry ON browser_access_tokens(expires_at);"@ == "CREATE TABLE IF NOT EXISTS browser_access_tokens (token_hash TEXT PRIMARY KEY, principal_id TEXT NOT NULL, expires_at INTEGER NOT NULL); CREATE INDEX IF NOT EXISTS ix_browser_access_expiry ON browser_access_tokens(expires_at);"@,
{
    reveal_strlit("CREATE TABLE IF NOT EXISTS browser_access_tokens (token_hash TEXT PRIMARY KEY, principal_id TEXT NOT NULL, expires_at INTEGER NOT NULL);");
    reveal_strlit(" ");
    reveal_strlit("CREATE INDEX IF NOT EXISTS ix_browser_access_expiry ON browser_access_tokens(expires_at);");
    reveal_strlit("CREATE TABLE IF NOT EXISTS browser_access_tokens (token_hash TEXT PRIMARY KEY, principal_id TEXT NOT NULL, expires_at INTEGER NOT NULL); CREATE INDEX IF NOT EXISTS ix_browser_access_expiry ON browser_access_tokens(expires_at);");
    assert("CREATE TABLE IF NOT EXISTS browser_access_tokens (token_hash TEXT PRIMARY KEY, principal_id TEXT NOT NULL, expires_at INTEGER NOT NULL);"@ + " "@ + "CREATE INDEX IF NOT EXISTS ix_browser_access_expiry ON browser_access_tokens(expires_at);"@ =~= "CREATE TABLE IF NOT EXISTS browser_access_tokens (token_hash TEXT PRIMARY KEY, principal_id TEXT NOT NULL, expires_at INTEGER NOT NULL); CREATE INDEX IF NOT EXISTS ix_browser_access_expiry ON browser_access_tokens(expires_at);"@);
}

proof fn lemma_written_17()
    ensures
        "CREATE TABLE IF NOT EXISTS browser_access_tokens (token_hash TEXT PRIMARY KEY, principal_id TEXT NOT NULL, expires_at INTEGER NOT NULL); CREATE INDEX IF NOT EXISTS ix_browser_access_expiry ON browser_access_tokens(expires_at);"@ + " "@ + "CREATE TABLE IF NOT EXISTS browser_sessions (token_hash TEXT PRIMARY KEY, principal_id TEXT NOT NULL, csrf_hash TEXT NOT NULL, expires_at INTEGER NOT NULL, created_at INTEGER NOT NULL);"@ == "CREATE TABLE IF NOT EXISTS browser_access_tokens (token_hash TEXT PRIMARY KEY, principal_id TEXT NOT NULL, expires_at INTEGER NOT NULL); CREATE INDEX IF NOT EXISTS ix_browser_access_expiry ON browser_access_tokens(expires_at); CREATE TABLE IF NOT EXISTS browser_sessions (token_hash TEXT PRIMARY KEY, principal_id TEXT NOT NULL, csrf_hash TEXT NOT NULL, expires_at INTEGER NOT NULL, created_at INTEGER NOT NULL);"@,
{
    reveal_strlit("CREATE TABLE IF NOT EXISTS browser_access_tokens (token_hash TEXT PRIMARY KEY, principal_id TEXT NOT NULL, expires_at INTEGER NOT NULL); CREATE INDEX IF NOT EXISTS ix_browser_access_expiry ON browser_access_tokens(expires_at);");
    reveal_strlit(" ");
    reveal_strlit("CREATE TABLE IF NOT EXISTS browser_sessions (token_hash TEXT PRIMARY KEY, principal_id TEXT NOT NULL, csrf_hash TEXT NOT NULL, expires_at INTEGER NOT NULL, created_at INTEGER NOT NULL);");
    reveal_strlit("CREATE TABLE IF NOT EXISTS browser_access_tokens (token_hash TEXT PRIMARY KEY, principal_id TEXT NOT NULL, expires_at INTEGER NOT NULL); CREATE INDEX IF NOT EXISTS ix_browser_access_expiry ON browser_access_tokens(expires_at); CREATE TABLE IF NOT EXISTS browser_sessions (token_hash TEXT PRIMARY KEY, principal_id TEXT NOT NULL, csrf_hash TEXT NOT NULL, expires_at INTEGER NOT NULL, created_at INTEGER NOT NULL);");
    assert("CREATE TABLE IF NOT EXISTS browser_access_tokens (token_hash TEXT PRIMARY KEY, principal_id TEXT NOT NULL, expires_at INTEGER NOT NULL); CREATE INDEX IF NOT EXISTS ix_browser_access_expiry ON browser_access_tokens(expires_at);"@ + " "@ + "CREATE TABLE IF NOT EXISTS browser_sessions (token_hash TEXT PRIMARY KEY, principal_id TEXT NOT NULL, csrf_hash TEXT NOT NULL, expires_at INTEGER NOT NULL, created_at INTEGER NOT NULL);"@ =~= "CREATE TABLE IF NOT EXISTS browser_access_tokens (token_hash TEXT PRIMARY KEY, principal_id TEXT NOT NULL, expires_at INTEGER NOT NULL); CREATE INDEX IF NOT EXISTS ix_browser_access_expiry ON browser_access_tokens(expires_at); CREATE TABLE IF NOT EXISTS browser_sessions (token_hash TEXT PRIMARY KEY, principal_id TEXT NOT NULL, csrf_hash TEXT NOT NULL, expires_at INTEGER NOT NULL, created_at INTEGER NOT NULL);"@);
}

proof fn lemma_written_18()
    ensures
        "CREATE TABLE IF NOT EXISTS browser_access_tokens (token_hash TEXT PRIMARY KEY, principal_id TEXT NOT NULL, expires_at INTEGER NOT NULL); CREATE INDEX IF NOT EXISTS ix_browser_access_expiry ON browser_access_tokens(expires_at); CREATE TABLE IF NOT EXISTS browser_sessions (token_hash TEXT PRIMARY KEY, principal_id TEXT NOT NULL, csrf_hash TEXT NOT NULL, expires_at INTEGER NOT NULL, created_at INTEGER NOT NULL);"@ + " "@ + "CREATE INDEX IF NOT EXISTS ix_browser_sessions_expiry ON browser_sessions(expires_at);"@ == "CREATE TABLE IF NOT EXISTS browser_access_tokens (token_hash TEXT PRIMARY KEY, principal_id TEXT NOT NULL, expires_at INTEGER NOT NULL); CREATE INDEX IF NOT EXISTS ix_browser_access_expiry ON browser_access_tokens(expires_at); CREATE TABLE IF NOT EXISTS browser_sessions (token_hash TEXT PRIMARY KEY, principal_id TEXT NOT NULL, csrf_hash TEXT NOT NULL, expires_at INTEGER NOT NULL, created_at INTEGER NOT NULL); CREATE INDEX IF NOT EXISTS ix_browser_sessions_expiry ON browser_sessions(expires_at);"@,
{
    reveal_strlit("CREATE TABLE IF NOT EXISTS browser_access_tokens (token_hash TEXT PRIMARY KEY, principal_id TEXT NOT NULL, expires_at INTEGER NOT NULL); CREATE INDEX IF NOT EXISTS ix_browser_access_expiry ON browser_access_tokens(expires_at); CREATE TABLE IF NOT EXISTS browser_sessions (token_hash TEXT PRIMARY KEY, principal_id TEXT NOT NULL, csrf_hash TEXT NOT NULL, expires_at INTEGER NOT NULL, created_at INTEGER NOT NULL);");
    reveal_strlit(" ");
    reveal_strlit("CREATE INDEX IF NOT EXISTS ix_browser_sessions_expiry ON browser_sessions(expires_at);");
    reveal_strlit("CREATE TABLE IF NOT EXISTS browser_access_tokens (token_hash TEXT PRIMARY KEY, principal_id TEXT NOT NULL, expires_at INTEGER NOT NULL); CREATE INDEX IF NOT EXISTS ix_browser_access_expiry ON browser_access_tokens(expires_at); CREATE TABLE IF NOT EXISTS browser_sessions (token_hash TEXT PRIMARY KEY, principal_id TEXT NOT NULL, csrf_hash TEXT NOT NULL, expires_at INTEGER NOT NULL, created_at INTEGER NOT NULL); CREATE INDEX IF NOT EXISTS ix_browser_sessions_expiry ON browser_sessions(expires_at);");
    assert("CREATE TABLE IF NOT EXISTS browser_access_tokens (token_hash TEXT PRIMARY KEY, principal_id TEXT NOT NULL, expires_at INTEGER NOT NULL); CREATE INDEX IF NOT EXISTS ix_browser_access_expiry ON browser_access_tokens(expires_at); CREATE TABLE IF NOT EXISTS browser_sessions (token_hash TEXT PRIMARY KEY, principal_id TEXT NOT NULL, csrf_hash TEXT NOT NULL, expires_at INTEGER NOT NULL, created_at INTEGER NOT NULL);"@ + " "@ + "CREATE INDEX IF NOT EXISTS ix_browser_sessions_expiry ON browser_sessions(expires_at);"@ =~= "CREATE TABLE IF NOT EXISTS browser_access_tokens (token_hash TEXT PRIMARY KEY, principal_id TEXT NOT NULL, expires_at INTEGER NOT NULL); CREATE INDEX IF NOT EXISTS ix_browser_access_expiry ON browser_access_tokens(expires_at); CREATE TABLE IF NOT EXISTS browser_sessions (token_hash TEXT PRIMARY KEY, principal_id TEXT NOT NULL, csrf_hash TEXT NOT NULL, expires_at INTEGER NOT NULL, created_at INTEGER NOT NULL); CREATE INDEX IF NOT EXISTS ix_browser_sessions_expiry ON browser_sessions(expires_at);"@);
}

proof fn lemma_written_19()
    ensures
        "CREATE TABLE IF NOT EXISTS browser_access_tokens (token_hash TEXT PRIMARY KEY, principal_id TEXT NOT NULL, expires_at INTEGER NOT NULL); CREATE INDEX IF NOT EXISTS ix_browser_access_expiry ON browser_access_tokens(expires_at); CREATE TABLE IF NOT EXISTS browser_sessions (token_hash TEXT PRIMARY KEY, principal_id TEXT NOT NULL, csrf_hash TEXT NOT NULL, expires_at INTEGER NOT NULL, created_at INTEGER NOT NULL); CREATE INDEX IF NOT EXISTS ix_browser_sessions_expiry ON browser_sessions(expires_at);"@ + " "@ + "CREATE TABLE IF NOT EXISTS auth_settings (key TEXT PRIMARY KEY, value INTEGER NOT NULL);"@ == "CREATE TABLE IF NOT EXISTS browser_access_tokens (token_hash TEXT PRIMARY KEY, principal_id TEXT NOT NULL, expires_at INTEGER NOT NULL); CREATE INDEX IF NOT EXISTS ix_browser_access_expiry ON browser_access_tokens(expires_at); CREATE TABLE IF NOT EXISTS browser_sessions (token_hash TEXT PRIMARY KEY, principal_id TEXT NOT NULL, csrf_hash TEXT NOT NULL, expires_at INTEGER NOT NULL, created_at INTEGER NOT NULL); CREATE INDEX IF NOT EXISTS ix_browser_sessions_expiry ON browser_sessions(expires_at); CREATE TABLE IF NOT EXISTS auth_settings (key TEXT PRIMARY KEY, value INTEGER NOT NULL);"@,
{
    reveal_strlit("CREATE TABLE IF NOT EXISTS browser_access_tokens (token_hash TEXT PRIMARY KEY, principal_id TEXT NOT NULL, expires_at INTEGER NOT NULL); CREATE INDEX IF NOT EXISTS ix_browser_access_expiry ON browser_access_tokens(expires_at); CREATE TABLE IF NOT EXISTS browser_sessions (token_hash TEXT PRIMARY KEY, principal_id TEXT NOT NULL, csrf_hash TEXT NOT NULL, expires_at INTEGER NOT NULL, created_at INTEGER NOT NULL); CREATE INDEX IF NOT EXISTS ix_browser_sessions_expiry ON browser_sessions(expires_at);");
    reveal_strlit(" ");
    reveal_strlit("CREATE TABLE IF NOT EXISTS auth_settings (key TEXT PRIMARY KEY, value INTEGER NOT NULL);");
    reveal_strlit("CREATE TABLE IF NOT EXISTS browser_access_tokens (token_hash TEXT PRIMARY KEY, principal_id TEXT NOT NULL, expires_at INTEGER NOT NULL); CREATE INDEX IF NOT EXISTS ix_browser_access_expiry ON browser_access_tokens(expires_at); CREATE TABLE IF NOT EXISTS browser_sessions (token_hash TEXT PRIMARY KEY, principal_id TEXT NOT NULL, csrf_hash TEXT NOT NULL, expires_at INTEGER NOT NULL, created_at INTEGER NOT NULL); CREATE INDEX IF NOT EXISTS ix_browser_sessions_expiry ON browser_sessions(expires_at); CREATE TABLE IF NOT EXISTS auth_settings (key TEXT PRIMARY KEY, value INTEGER NOT NULL);");
    assert("CREATE TABLE IF NOT EXISTS browser_access_tokens (token_hash TEXT PRIMARY KEY, principal_id TEXT NOT NULL, expires_at INTEGER NOT NULL); CREATE INDEX IF NOT EXISTS ix_browser_access_expiry ON browser_access_tokens(expires_at); CREATE TABLE IF NOT EXISTS browser_sessions (token_hash TEXT PRIMARY KEY, principal_id TEXT NOT NULL, csrf_hash TEXT NOT NULL, expires_at INTEGER NOT NULL, created_at INTEGER NOT NULL); CREATE INDEX IF NOT EXISTS ix_browser_sessions_expiry ON browser_sessions(expires_at);"@ + " "@ + "CREATE TABLE IF NOT EXISTS auth_settings (key TEXT PRIMARY KEY, value INTEGER NOT NULL);"@ =~= "CREATE TABLE IF NOT EXISTS browser_access_tokens (token_hash TEXT PRIMARY KEY, principal_id TEXT NOT NULL, expires_at INTEGER NOT NULL); CREATE INDEX IF NOT EXISTS ix_browser_access_expiry ON browser_access_tokens(expires_at); CREATE TABLE IF NOT EXISTS browser_sessions (token_hash TEXT PRIMARY KEY, principal_id TEXT NOT NULL, csrf_hash TEXT NOT NULL, expires_at INTEGER NOT NULL, created_at INTEGER NOT NULL); CREATE INDEX IF NOT EXISTS ix_browser_sessions_expiry ON browser_sessions(expires_at); CREATE TABLE IF NOT EXISTS auth_settings (key TEXT PRIMARY KEY, value INTEGER NOT NULL);"@);
}

/// The control plane has a table of databases, one of principals that no two have one token,
/// and one of grants, of which a principal has one for each database.
pub proof fn law_tables_of_the_control_plane()
    ensures
        base_tables() == table_text("databases"@, seq!["name TEXT PRIMARY KEY"@, "created_at INTEGER NOT NULL"@]) + " "@ + table_text("principals"@, seq!["id TEXT PRIMARY KEY"@, "name TEXT NOT NULL"@, "is_admin INTEGER NOT NULL DEFAULT 0"@, "token_hash TEXT NOT NULL"@, "disabled INTEGER NOT NULL DEFAULT 0"@, "created_at INTEGER NOT NULL"@]) + " "@ + "CREATE UNIQUE INDEX IF NOT EXISTS ux_principals_token ON principals(token_hash);"@ + " "@ + table_text("grants"@, seq!["principal_id TEXT NOT NULL"@, "database_name TEXT NOT NULL"@, "role TEXT NOT NULL"@, "PRIMARY KEY (principal_id, database_name)"@]),
{
    crate::engine::lemma_join2("name TEXT PRIMARY KEY"@, "created_at INTEGER NOT NULL"@, ", "@);
    lemma_written_1();
    assert(join(seq!["name TEXT PRIMARY KEY"@, "created_at INTEGER NOT NULL"@], ", "@) == "name TEXT PRIMARY KEY, created_at INTEGER NOT NULL"@);
    lemma_written_2();
    assert(table_text("databases"@, seq!["name TEXT PRIMARY KEY"@, "created_at INTEGER NOT NULL"@]) == "CREATE TABLE IF NOT EXISTS databases (name TEXT PRIMARY KEY, created_at INTEGER NOT NULL);"@);
    crate::engine::lemma_join6("id TEXT PRIMARY KEY"@, "name TEXT NOT NULL"@, "is_admin INTEGER NOT NULL DEFAULT 0"@, "token_hash TEXT NOT NULL"@, "disabled INTEGER NOT NULL DEFAULT 0"@, "created_at INTEGER NOT NULL"@, ", "@);
    lemma_written_3();
    assert(join(seq!["id TEXT PRIMARY KEY"@, "name TEXT NOT NULL"@, "is_admin INTEGER NOT NULL DEFAULT 0"@, "token_hash TEXT NOT NULL"@, "disabled INTEGER NOT NULL DEFAULT 0"@, "created_at INTEGER NOT NULL"@], ", "@) == "id TEXT PRIMARY KEY, name TEXT NOT NULL, is_admin INTEGER NOT NULL DEFAULT 0, token_hash TEXT NOT NULL, disabled INTEGER NOT NULL DEFAULT 0, created_at INTEGER NOT NULL"@);
    lemma_written_4();
    assert(table_text("principals"@, seq!["id TEXT PRIMARY KEY"@, "name TEXT NOT NULL"@, "is_admin INTEGER NOT NULL DEFAULT 0"@, "token_hash TEXT NOT NULL"@, "disabled INTEGER NOT NULL DEFAULT 0"@, "created_at INTEGER NOT NULL"@]) == "CREATE TABLE IF NOT EXISTS principals (id TEXT PRIMARY KEY, name TEXT NOT NULL, is_admin INTEGER NOT NULL DEFAULT 0, token_hash TEXT NOT NULL, disabled INTEGER NOT NULL DEFAULT 0, created_at INTEGER NOT NULL);"@);
    crate::engine::lemma_join4("principal_id TEXT NOT NULL"@, "database_name TEXT NOT NULL"@, "role TEXT NOT NULL"@, "PRIMARY KEY (principal_id, database_name)"@, ", "@);
    lemma_written_5();
    assert(join(seq!["principal_id TEXT NOT NULL"@, "database_name TEXT NOT NULL"@, "role TEXT NOT NULL"@, "PRIMARY KEY (principal_id, database_name)"@], ", "@) == "principal_id TEXT NOT NULL, database_name TEXT NOT NULL, role TEXT NOT NULL, PRIMARY KEY (principal_id, database_name)"@);
    lemma_written_6();
    assert(table_text("grants"@, seq!["principal_id TEXT NOT NULL"@, "database_name TEXT NOT NULL"@, "role TEXT NOT NULL"@, "PRIMARY KEY (principal_id, database_name)"@]) == "CREATE TABLE IF NOT EXISTS grants (principal_id TEXT NOT NULL, database_name TEXT NOT NULL, role TEXT NOT NULL, PRIMARY KEY (principal_id, database_name));"@);
    lemma_written_7();
    lemma_written_8();
    lemma_written_9();
}

/// What browsers need is a table of access tokens and one of sessions, both found by a hash
/// and cleared by their end, and a table of settings.
pub proof fn law_tables_of_the_browsers()
    ensures
        browser_tables() == table_text("browser_access_tokens"@, seq!["token_hash TEXT PRIMARY KEY"@, "principal_id TEXT NOT NULL"@, "expires_at INTEGER NOT NULL"@]) + " "@ + "CREATE INDEX IF NOT EXISTS ix_browser_access_expiry ON browser_access_tokens(expires_at);"@ + " "@ + table_text("browser_sessions"@, seq!["token_hash TEXT PRIMARY KEY"@, "principal_id TEXT NOT NULL"@, "csrf_hash TEXT NOT NULL"@, "expires_at INTEGER NOT NULL"@, "created_at INTEGER NOT NULL"@]) + " "@ + "CREATE INDEX IF NOT EXISTS ix_browser_sessions_expiry ON browser_sessions(expires_at);"@ + " "@ + table_text("auth_settings"@, seq!["key TEXT PRIMARY KEY"@, "value INTEGER NOT NULL"@]),
{
    crate::engine::lemma_join3("token_hash TEXT PRIMARY KEY"@, "principal_id TEXT NOT NULL"@, "expires_at INTEGER NOT NULL"@, ", "@);
    lemma_written_10();
    assert(join(seq!["token_hash TEXT PRIMARY KEY"@, "principal_id TEXT NOT NULL"@, "expires_at INTEGER NOT NULL"@], ", "@) == "token_hash TEXT PRIMARY KEY, principal_id TEXT NOT NULL, expires_at INTEGER NOT NULL"@);
    lemma_written_11();
    assert(table_text("browser_access_tokens"@, seq!["token_hash TEXT PRIMARY KEY"@, "principal_id TEXT NOT NULL"@, "expires_at INTEGER NOT NULL"@]) == "CREATE TABLE IF NOT EXISTS browser_access_tokens (token_hash TEXT PRIMARY KEY, principal_id TEXT NOT NULL, expires_at INTEGER NOT NULL);"@);
    crate::engine::lemma_join5("token_hash TEXT PRIMARY KEY"@, "principal_id TEXT NOT NULL"@, "csrf_hash TEXT NOT NULL"@, "expires_at INTEGER NOT NULL"@, "created_at INTEGER NOT NULL"@, ", "@);
    lemma_written_12();
    assert(join(seq!["token_hash TEXT PRIMARY KEY"@, "principal_id TEXT NOT NULL"@, "csrf_hash TEXT NOT NULL"@, "expires_at INTEGER NOT NULL"@, "created_at INTEGER NOT NULL"@], ", "@) == "token_hash TEXT PRIMARY KEY, principal_id TEXT NOT NULL, csrf_hash TEXT NOT NULL, expires_at INTEGER NOT NULL, created_at INTEGER NOT NULL"@);
    lemma_written_13();
    assert(table_text("browser_sessions"@, seq!["token_hash TEXT PRIMARY KEY"@, "principal_id TEXT NOT NULL"@, "csrf_hash TEXT NOT NULL"@, "expires_at INTEGER NOT NULL"@, "created_at INTEGER NOT NULL"@]) == "CREATE TABLE IF NOT EXISTS browser_sessions (token_hash TEXT PRIMARY KEY, principal_id TEXT NOT NULL, csrf_hash TEXT NOT NULL, expires_at INTEGER NOT NULL, created_at INTEGER NOT NULL);"@);
    crate::engine::lemma_join2("key TEXT PRIMARY KEY"@, "value INTEGER NOT NULL"@, ", "@);
    lemma_written_14();
    assert(join(seq!["key TEXT PRIMARY KEY"@, "value INTEGER NOT NULL"@], ", "@) == "key TEXT PRIMARY KEY, value INTEGER NOT NULL"@);
    lemma_written_15();
    assert(table_text("auth_settings"@, seq!["key TEXT PRIMARY KEY"@, "value INTEGER NOT NULL"@]) == "CREATE TABLE IF NOT EXISTS auth_settings (key TEXT PRIMARY KEY, value INTEGER NOT NULL);"@);
    lemma_written_16();
    lemma_written_17();
    lemma_written_18();
    lemma_written_19();
}

proof fn lemma_log_head()
    ensures
        "CREATE TABLE IF NOT EXISTS "@ + "_changelog"@ + " ("@ + "seq INTEGER PRIMARY KEY"@ + ", "@ + "collection TEXT NOT NULL"@ + ", "@ + "op TEXT NOT NULL"@ + ", "@ + "doc_id TEXT NOT NULL"@ + ", "@ + "doc "@ == "CREATE TABLE IF NOT EXISTS _changelog (seq INTEGER PRIMARY KEY, collection TEXT NOT NULL, op TEXT NOT NULL, doc_id TEXT NOT NULL, doc "@,
{
    reveal_strlit("CREATE TABLE IF NOT EXISTS ");
    reveal_strlit("_changelog");
    reveal_strlit(" (");
    reveal_strlit("seq INTEGER PRIMARY KEY");
    reveal_strlit(", ");
    reveal_strlit("collection TEXT NOT NULL");
    reveal_strlit("op TEXT NOT NULL");
    reveal_strlit("doc_id TEXT NOT NULL");
    reveal_strlit("doc ");
    reveal_strlit("CREATE TABLE IF NOT EXISTS _changelog (seq INTEGER PRIMARY KEY, collection TEXT NOT NULL, op TEXT NOT NULL, doc_id TEXT NOT NULL, doc ");
    assert("CREATE TABLE IF NOT EXISTS "@ + "_changelog"@ + " ("@ + "seq INTEGER PRIMARY KEY"@ + ", "@ + "collection TEXT NOT NULL"@ + ", "@ + "op TEXT NOT NULL"@ + ", "@ + "doc_id TEXT NOT NULL"@ + ", "@ + "doc "@ =~= "CREATE TABLE IF NOT EXISTS _changelog (seq INTEGER PRIMARY KEY, collection TEXT NOT NULL, op TEXT NOT NULL, doc_id TEXT NOT NULL, doc "@);
}

proof fn lemma_log_rest()
    ensures
        ", "@ + "ts INTEGER NOT NULL"@ + ");"@ + " "@ + "CREATE TABLE IF NOT EXISTS _indexes (name TEXT PRIMARY KEY, collection TEXT NOT NULL, path TEXT NOT NULL, is_unique INTEGER NOT NULL);"@ == ", ts INTEGER NOT NULL); CREATE TABLE IF NOT EXISTS _indexes (name TEXT PRIMARY KEY, collection TEXT NOT NULL, path TEXT NOT NULL, is_unique INTEGER NOT NULL);"@,
{
    reveal_strlit(", ");
    reveal_strlit("ts INTEGER NOT NULL");
    reveal_strlit(");");
    reveal_strlit(" ");
    reveal_strlit("CREATE TABLE IF NOT EXISTS _indexes (name TEXT PRIMARY KEY, collection TEXT NOT NULL, path TEXT NOT NULL, is_unique INTEGER NOT NULL);");
    reveal_strlit(", ts INTEGER NOT NULL); CREATE TABLE IF NOT EXISTS _indexes (name TEXT PRIMARY KEY, collection TEXT NOT NULL, path TEXT NOT NULL, is_unique INTEGER NOT NULL);");
    assert(", "@ + "ts INTEGER NOT NULL"@ + ");"@ + " "@ + "CREATE TABLE IF NOT EXISTS _indexes (name TEXT PRIMARY KEY, collection TEXT NOT NULL, path TEXT NOT NULL, is_unique INTEGER NOT NULL);"@ =~= ", ts INTEGER NOT NULL); CREATE TABLE IF NOT EXISTS _indexes (name TEXT PRIMARY KEY, collection TEXT NOT NULL, path TEXT NOT NULL, is_unique INTEGER NOT NULL);"@);
}

proof fn lemma_index_columns()
    ensures
        "name TEXT PRIMARY KEY"@ + ", "@ + "collection TEXT NOT NULL"@ + ", "@ + "path TEXT NOT NULL"@ + ", "@ + "is_unique INTEGER NOT NULL"@ == "name TEXT PRIMARY KEY, collection TEXT NOT NULL, path TEXT NOT NULL, is_unique INTEGER NOT NULL"@,
{
    reveal_strlit("name TEXT PRIMARY KEY");
    reveal_strlit(", ");
    reveal_strlit("collection TEXT NOT NULL");
    reveal_strlit("path TEXT NOT NULL");
    reveal_strlit("is_unique INTEGER NOT NULL");
    reveal_strlit("name TEXT PRIMARY KEY, collection TEXT NOT NULL, path TEXT NOT NULL, is_unique INTEGER NOT NULL");
    assert("name TEXT PRIMARY KEY"@ + ", "@ + "collection TEXT NOT NULL"@ + ", "@ + "path TEXT NOT NULL"@ + ", "@ + "is_unique INTEGER NOT NULL"@ =~= "name TEXT PRIMARY KEY, collection TEXT NOT NULL, path TEXT NOT NULL, is_unique INTEGER NOT NULL"@);
}

proof fn lemma_index_table()
    ensures
        "CREATE TABLE IF NOT EXISTS "@ + "_indexes"@ + " ("@ + "name TEXT PRIMARY KEY, collection TEXT NOT NULL, path TEXT NOT NULL, is_unique INTEGER NOT NULL"@ + ");"@ == "CREATE TABLE IF NOT EXISTS _indexes (name TEXT PRIMARY KEY, collection TEXT NOT NULL, path TEXT NOT NULL, is_unique INTEGER NOT NULL);"@,
{
    reveal_strlit("CREATE TABLE IF NOT EXISTS ");
    reveal_strlit("_indexes");
    reveal_strlit(" (");
    reveal_strlit("name TEXT PRIMARY KEY, collection TEXT NOT NULL, path TEXT NOT NULL, is_unique INTEGER NOT NULL");
    reveal_strlit(");");
    reveal_strlit("CREATE TABLE IF NOT EXISTS _indexes (name TEXT PRIMARY KEY, collection TEXT NOT NULL, path TEXT NOT NULL, is_unique INTEGER NOT NULL);");
    assert("CREATE TABLE IF NOT EXISTS "@ + "_indexes"@ + " ("@ + "name TEXT PRIMARY KEY, collection TEXT NOT NULL, path TEXT NOT NULL, is_unique INTEGER NOT NULL"@ + ");"@ =~= "CREATE TABLE IF NOT EXISTS _indexes (name TEXT PRIMARY KEY, collection TEXT NOT NULL, path TEXT NOT NULL, is_unique INTEGER NOT NULL);"@);
}

/// A database has a log of its changes, under numbers that the engine gives, and a table of
/// its indexes.
pub proof fn law_internal_tables(storage: DocStorage)
    ensures
        init_sql(storage) == table_text(
            "_changelog"@,
            seq![
                "seq INTEGER PRIMARY KEY"@,
                "collection TEXT NOT NULL"@,
                "op TEXT NOT NULL"@,
                "doc_id TEXT NOT NULL"@,
                "doc "@ + (if storage is Jsonb {
                    "BLOB"@
                } else {
                    "TEXT"@
                }),
                "ts INTEGER NOT NULL"@,
            ],
        ) + " "@ + table_text("_indexes"@, seq!["name TEXT PRIMARY KEY"@, "collection TEXT NOT NULL"@, "path TEXT NOT NULL"@, "is_unique INTEGER NOT NULL"@]),
{
    lemma_log_head();
    lemma_log_rest();
    lemma_index_columns();
    lemma_index_table();
    let kind = if storage is Jsonb {
        "BLOB"@
    } else {
        "TEXT"@
    };
    lemma_join6("seq INTEGER PRIMARY KEY"@, "collection TEXT NOT NULL"@, "op TEXT NOT NULL"@, "doc_id TEXT NOT NULL"@, "doc "@ + kind, "ts INTEGER NOT NULL"@, ", "@);
    crate::engine::lemma_join4("name TEXT PRIMARY KEY"@, "collection TEXT NOT NULL"@, "path TEXT NOT NULL"@, "is_unique INTEGER NOT NULL"@, ", "@);
    let (a, b, c, d) = ("seq INTEGER PRIMARY KEY"@, "collection TEXT NOT NULL"@, "op TEXT NOT NULL"@, "doc_id TEXT NOT NULL"@);
    let head = "CREATE TABLE IF NOT EXISTS "@ + "_changelog"@ + " ("@;
    let rest = "CREATE TABLE IF NOT EXISTS _indexes (name TEXT PRIMARY KEY, collection TEXT NOT NULL, path TEXT NOT NULL, is_unique INTEGER NOT NULL);"@;
    assert((head + a + ", "@ + b + ", "@ + c + ", "@ + d + ", "@ + "doc "@) + kind + (", "@
        + "ts INTEGER NOT NULL"@ + ");"@ + " "@ + rest) =~= head + (a + ", "@ + b + ", "@ + c + ", "@
        + d + ", "@ + ("doc "@ + kind) + ", "@ + "ts INTEGER NOT NULL"@) + ");"@ + " "@ + rest);
}

/// An older instance is given the columns that browser users need, and one that has them is
/// left as it is; then the tables are there.
pub proof fn law_course_of_the_tables(columns: ReplyView)
    requires
        columns is Rows,
        columns_readable(columns->Rows_0),
    ensures
        schema_next(SchemaStage::Base, ReplyView::Done) is Columns,
        has_column(columns->Rows_0, "username"@) ==> schema_next(SchemaStage::Columns, columns)
            is Browser,
        !has_column(columns->Rows_0, "username"@) ==> schema_next(SchemaStage::Columns, columns)
            is AddColumns,
        schema_next(SchemaStage::AddColumns, ReplyView::Done) is AddIndex,
        schema_next(SchemaStage::AddIndex, ReplyView::Done) is Browser,
        schema_next(SchemaStage::Browser, ReplyView::Done) is Ready,
        forall|stage: SchemaStage|
            !(stage is Ready) ==> #[trigger] schema_next(
                stage,
                ReplyView::Failed { unique: false },
            ) is Refused,
{
}

// ---- Files and connections -------------------------------------------------

/// Beside a database lie two files: what was written ahead, and what is shared.
pub proof fn law_files_beside_a_database(file: Seq<char>)
    ensures
        stale_files(file).len() == 2,
        stale_files(file).contains(file + seq!['-', 'w', 'a', 'l']),
        stale_files(file).contains(file + seq!['-', 's', 'h', 'm']),
{
    reveal_strlit("-wal");
    reveal_strlit("-shm");
    assert("-wal"@ =~= seq!['-', 'w', 'a', 'l']);
    assert("-shm"@ =~= seq!['-', 's', 'h', 'm']);
    assert(stale_files(file)[0] == file + "-wal"@);
    assert(stale_files(file)[1] == file + "-shm"@);
}

/// The key is applied on every connection where there is one; whoever opens a file by
/// itself, the writer and the operator, reads under the key before anything else.
pub proof fn law_key_is_tried(key: Seq<char>, role: ConnectionRole, ms: u32, storage: DocStorage)
    ensures
        ({
            let s = open_statements(Some(key), role, ms, storage);
            let pooled = role == ConnectionRole::Reader || role == ConnectionRole::Control;
            &&& s.len() > 2
            &&& s[0].sql == key_sql(key)
            &&& pooled ==> s[1] == pragma_statements(ms)[0]
            &&& !pooled ==> s[1].sql == "SELECT count(*) FROM sqlite_master"@ && s[1].mode
                == Mode::Query && s[2] == pragma_statements(ms)[0]
        }),
        open_statements(None, role, ms, storage)[0] == pragma_statements(ms)[0],
        open_statements(None, ConnectionRole::Writer, ms, storage).last().sql == init_sql(storage),
{
    let keyed = key_statements(Some(key), role);
    let settings = pragma_statements(ms);
    assert(settings.len() == 7);
    let s = open_statements(Some(key), role, ms, storage);
    if role == ConnectionRole::Reader || role == ConnectionRole::Control {
        assert(keyed.len() == 1);
        assert(s[0] == keyed[0]);
        assert(s[1] == settings[0]);
    } else {
        assert(keyed.len() == 2);
        assert(s[0] == keyed[0]);
        assert(s[1] == keyed[1]);
        assert(s[2] == settings[0]);
    }
    assert(key_statements(None, role).len() == 0);
    assert(open_statements(None, role, ms, storage)[0] == settings[0]);
}

/// The key is got from where the configuration says: out of the environment, out of the
/// keyring, or out of a file.
pub proof fn law_key_comes_from_its_source(allow: bool)
    ensures
        key_plan(true, KeySource::Env, allow) == Some(KeyPlan::ReadEnvironment),
        key_plan(true, KeySource::Keyring, allow) == Some(KeyPlan::ReadKeyring),
        key_plan(true, KeySource::KeyFile, allow) == Some(KeyPlan::ReadFile),
{
}

// ---- Subscriptions ---------------------------------------------------------

/// A filter of a subscription asks of each of its fields that it has a value, or one of
/// several; a bare value and `$eq` ask the same, and anything else is no filter.
pub proof fn law_subscription_filters(field: String, value: Json, list: Vec<Json>, op: String)
    requires
        field_ok(field@),
        field@.len() > 0,
        field@[0] != '$',
    ensures
        !(value is Object) && !(value is Array) ==> filter_entry((field, value)) == Ok::<
            EqClause,
            Seq<char>,
        >(EqClause { path: split(field@, '.'), value: MatchView::Eq(value@) }),
        forall|e: Vec<(String, Json)>|
            #![trigger filter_entry((field, Json::Object(e)))]
            e@ == seq![(op, value)] && op@ == "$eq"@ ==> filter_entry((field, Json::Object(e)))
                == Ok::<EqClause, Seq<char>>(
                EqClause { path: split(field@, '.'), value: MatchView::Eq(value@) },
            ),
        forall|e: Vec<(String, Json)>|
            #![trigger filter_entry((field, Json::Object(e)))]
            e@ == seq![(op, Json::Array(list))] && op@ == "$in"@ ==> filter_entry(
                (field, Json::Object(e)),
            ) == Ok::<EqClause, Seq<char>>(
                EqClause { path: split(field@, '.'), value: MatchView::In(json_views(list@)) },
            ),
        filter_entry((field, Json::Array(list))) is Err,
        forall|e: Vec<(String, Json)>|
            #![trigger filter_entry((field, Json::Object(e)))]
            e@.len() != 1 ==> filter_entry((field, Json::Object(e))) is Err,
        forall|e: Vec<(String, Json)>|
            #![trigger filter_entry((field, Json::Object(e)))]
            e@.len() == 1 && e@[0].0@ != "$eq"@ && e@[0].0@ != "$in"@ ==> filter_entry(
                (field, Json::Object(e)),
            ) is Err,
{
    reveal_strlit("$eq");
    reveal_strlit("$in");
    assert("$eq"@[1] == 'e' && "$in"@[1] == 'i');
}

/// The last number that a client has seen is read from its header, with or without white
/// space around it.
pub proof fn law_last_seen_number(n: i64, a: Seq<char>, b: Seq<char>)
    requires
        forall|i: int| 0 <= i < a.len() ==> white(#[trigger] a[i]),
        forall|i: int| 0 <= i < b.len() ==> white(#[trigger] b[i]),
    ensures
        last_event_id(None) is None,
        last_event_id(Some(a + signed_decimal(n as int) + b)) == Some(n as int),
{
    crate::text::law_written_numbers_are_read_back(n);
    let t = signed_decimal(n as int);
    crate::text::lemma_decimal_is_read(
        if n < 0 {
            (-n) as nat
        } else {
            n as nat
        },
    );
    let d = decimal(
        if n < 0 {
            (-n) as nat
        } else {
            n as nat
        },
    );
    assert(d.len() > 0);
    assert(digit(d[0]) && digit(d[d.len() - 1]));
    assert(t.len() > 0);
    assert(t.last() == d[d.len() - 1]);
    assert(!white(t[0]) && !white(t.last()));
    law_space_around_is_taken_off(a, t, b);
}

/// A row of the change log says the number of the change, its kind, the identifier, and the
/// text of the document where there is one.
pub proof fn law_row_of_the_log(
    row: Seq<ValueView>,
    seq: i64,
    op: Op,
    id: Seq<char>,
    text: Option<Seq<char>>,
)
    requires
        row == seq![
            ValueView::Integer(seq),
            ValueView::Text(change_word(op)),
            ValueView::Text(id),
            match text {
                Some(t) => ValueView::Text(t),
                None => ValueView::Null,
            },
        ],
    ensures
        log_row(row) == Some(LogRowView { seq, op, doc_id: id, doc_text: text }),
{
    crate::realtime::law_op_names_are_read_back(op);
    reveal_strlit("insert");
    reveal_strlit("update");
    reveal_strlit("delete");
    assert("insert"@[0] == 'i' && "update"@[0] == 'u' && "delete"@[0] == 'd');
}

/// A client is identified by one to 128 letters, digits, underscores and hyphens, and a
/// channel is named as a collection is.
pub proof fn law_clients_and_channels(channel: Seq<char>, id: Seq<char>)
    ensures
        client_ok(id) <==> (0 < id.len() < 129 && forall|i: int|
            0 <= i < id.len() ==> (word(#[trigger] id[i]) || id[i] == '-')),
        listen_refusal(channel, id) is None <==> name_ok(channel) && client_ok(id),
        listen_refusal(channel, id) matches Some(e) ==> code_status(e.code) == 400,
{
}

// ---- Origins and applications ----------------------------------------------

/// Every origin that is named may send requests, and a wildcard stands for none.
pub proof fn law_named_origins(origins: Seq<Seq<char>>, i: int)
    requires
        0 <= i < origins.len(),
    ensures
        origins[i] != seq!['*'] ==> named_origins(origins).contains(origins[i]),
        forall|k: int| 0 <= k < named_origins(origins).len() ==> #[trigger] named_origins(
            origins,
        )[k] != seq!['*'],
{
    reveal_strlit("*");
    assert("*"@ =~= seq!['*']);
    let keep = |o: Seq<char>| o != "*"@;
    broadcast use vstd::seq_lib::group_filter_ensures;

    assert(origins.filter(keep) == named_origins(origins));
    if origins[i] != "*"@ {
        assert(keep(origins[i]));
    }
    assert forall|k: int| 0 <= k < named_origins(origins).len() implies #[trigger] named_origins(
        origins,
    )[k] != seq!['*'] by {
        assert(keep(origins.filter(keep)[k]));
    }
}

/// The interface and the checks of health keep their paths.
pub proof fn law_taken_paths(rest: Seq<char>)
    ensures
        taken_path("/v1/"@ + rest),
        taken_path("/health/"@ + rest),
        rest.len() == 0 || (rest[0] != 'v' && rest[0] != 'h') ==> !taken_path(seq!['/'] + rest),
{
    reveal_strlit("/v1/");
    reveal_strlit("/health/");
    assert(("/v1/"@ + rest).take("/v1/"@.len() as int) =~= "/v1/"@);
    assert(("/health/"@ + rest).take("/health/"@.len() as int) =~= "/health/"@);
    let p = seq!['/'] + rest;
    if starts(p, "/v1/"@) {
        assert(p.take("/v1/"@.len() as int)[1] == p[1]);
        assert("/v1/"@[1] == 'v');
    }
    if starts(p, "/health/"@) {
        assert(p.take("/health/"@.len() as int)[1] == p[1]);
        assert("/health/"@[1] == 'h');
    }
}

/// The name of an index tells its collection and its path and ends in six symbols of its
/// own; only what is beyond 64 characters is cut off.
pub proof fn law_index_names(coll: Seq<char>, path: Seq<char>, fresh: Seq<char>)
    requires
        fresh.len() >= 6,
    ensures
        index_name(coll, path, fresh).len() <= 64,
        ({
            let full = seq!['i', 'x', '_'] + coll + seq!['_'] + path_part(path) + seq!['_'] + lower(
                fresh.skip(fresh.len() - 6),
            );
            index_name(coll, path, fresh) == (if full.len() > 64 {
                full.take(64)
            } else {
                full
            })
        }),
        path_part(path).len() > 0 ==> path_part(path)[0] != '_' && path_part(path).last() != '_',
{
    reveal_strlit("ix_");
    reveal_strlit("_");
    assert("ix_"@ =~= seq!['i', 'x', '_']);
    assert("_"@ =~= seq!['_']);
    lemma_bare_end(bare_start(sanitized(path)));
    lemma_bare_start(sanitized(path));
}

proof fn lemma_bare_start(s: Seq<char>)
    ensures
        bare_start(s).len() > 0 ==> bare_start(s)[0] != '_',
    decreases s.len(),
{
    if s.len() > 0 && s[0] == '_' {
        lemma_bare_start(s.skip(1));
    }
}

proof fn lemma_bare_end(s: Seq<char>)
    ensures
        bare_end(s).len() > 0 ==> bare_end(s).last() != '_' && bare_end(s)[0] == s[0],
        bare_end(s).len() <= s.len(),
    decreases s.len(),
{
    if s.len() > 0 && s.last() == '_' {
        lemma_bare_end(s.drop_last());
    }
}

/// A time is the number of milliseconds since the epoch; a clock that stands before it
/// reads zero.
pub proof fn law_times(millis: u128)
    requires
        millis <= i64::MAX,
    ensures
        timestamp(None) == 0,
        timestamp(Some(millis)) as int == millis as int,
        no_content().status == 204,
        no_content().body is None,
{
}

// ---- Defaults --------------------------------------------------------------

/// Unless it is configured otherwise, a document has at most a mebibyte, a request twice as
/// much, a database a gibibyte, a page 500 documents, and a principal ten requests in a
/// second.
pub proof fn law_limits_by_default(r: LimitsConfig)
    requires
        call_ensures(LimitsConfig::default, (), r),
    ensures
        r.max_document_bytes == 1024 * 1024,
        r.request_body_bytes == 2 * r.max_document_bytes,
        r.max_database_bytes == 1024 * r.max_document_bytes,
        r.max_query_limit == 500,
        r.rate_per_minute == 10 * 60,
{
}

/// Unless it is configured otherwise, nobody registers, an access token lasts a quarter of
/// an hour and a session thirty days, and cookies go over encrypted connections only.
pub proof fn law_sessions_by_default(r: AuthConfig)
    requires
        call_ensures(AuthConfig::default, (), r),
    ensures
        !r.public_registration,
        r.access_token_ttl_secs == 15 * 60,
        r.refresh_token_ttl_secs == 30 * 24 * 60 * 60,
        r.secure_cookies,
{
}

/// Unless it is configured otherwise, data is encrypted, under a key out of a file.
pub proof fn law_encryption_by_default(r: EncryptionConfig)
    requires
        call_ensures(EncryptionConfig::default, (), r),
    ensures
        key_plan(r.enabled, r.key_source, false) == Some(KeyPlan::ReadFile),
{
}

/// Unless it is configured otherwise, writes are grouped, at most 64 of them, a busy
/// database is waited for five seconds, and the last ten thousand changes are kept.
pub proof fn law_writes_by_default(w: WriterConfig, r: RealtimeConfig)
    requires
        call_ensures(WriterConfig::default, (), w),
        call_ensures(RealtimeConfig::default, (), r),
    ensures
        w.group_commit,
        w.group_commit_max_batch == 64,
        w.busy_timeout_ms == 5 * 1000,
        w.wal_checkpoint_secs == 60,
        r.changelog_retention == 10 * 1000,
        r.sse_channel_capacity == 256,
{
}

/// Unless it is configured otherwise, the page for operators is off, and events of up to 64
/// kibibytes are published.
pub proof fn law_events_by_default(p: PubSubConfig, a: AdminUiConfig)
    requires
        call_ensures(PubSubConfig::default, (), p),
        call_ensures(AdminUiConfig::default, (), a),
    ensures
        p.enabled,
        p.max_event_bytes == 64 * 1024,
        p.channel_capacity == 256,
        !a.enabled,
{
}

/// Unless it is configured otherwise, the server listens on the loopback interface only.
pub proof fn law_server_is_local_by_default(r: ServerConfig)
    requires
        call_ensures(ServerConfig::default, (), r),
    ensures
        loopback(r.bind@),
{
    reveal_strlit("127.0.0.1:8090");
    reveal_strlit("127");
    let n = "127"@;
    let zero = seq!['0'];
    let one = seq!['1'];
    let port = seq!['8', '0', '9', '0'];
    let host = n + seq!['.'] + (zero + seq!['.'] + (zero + seq!['.'] + one));
    assert(r.bind@ =~= host + seq![':'] + port);
    assert(all_digits(n) && all_digits(zero) && all_digits(one));
    law_loopback_network(n, zero, zero, one);
    reveal_with_fuel(digits_value, 2);
    assert(octet(zero) && octet(one));
    law_loopback_addresses(host, port);
}

// ---- Registration and sessions ---------------------------------------------

/// Anyone may register where the setting is any number but zero, and nobody where it is
/// zero; where nothing is set, what is configured holds.
pub proof fn law_who_may_register(reply: Reply, default: bool, r: bool)
    requires
        call_ensures(System::registration_policy, (&reply, default), r),
    ensures
        reply@ == ReplyView::Rows(seq![seq![ValueView::Integer(1)]]) ==> r,
        reply@ == ReplyView::Rows(seq![seq![ValueView::Integer(0)]]) ==> !r,
        reply@ == ReplyView::Rows(Seq::empty()) ==> r == default,
        reply@ is Failed ==> r == default,
{
}

/// A request to renew or to end a session is refused 401 without the cookie and 403 without
/// the token against forged requests.
pub proof fn law_session_requests_bear_both(
    cookies: Option<&str>,
    csrf: Option<&str>,
    r: Result<(String, String), ApiError>,
)
    requires
        call_ensures(session_secrets, (cookies, csrf), r),
    ensures
        cookies is None ==> (r matches Err(e) && code_status(e@.code) == 401),
        csrf is None ==> r is Err,
        csrf is None && cookies is Some && refresh_value(cookies->0@) is Some ==> (r matches Err(e)
            && code_status(e@.code) == 403),
        r matches Ok(pair) ==> cookies is Some && csrf is Some && refresh_value(cookies->0@)
            == Some(pair.0@) && csrf->0@ == pair.1@,
{
}

/// A session that was not renewed is refused 401.
pub proof fn law_unknown_session_is_refused(
    renewed: Option<(String, TokenSet)>,
    r: Result<TokenSet, ApiError>,
)
    requires
        call_ensures(require_session, (renewed,), r),
    ensures
        renewed is None ==> (r matches Err(e) && code_status(e@.code) == 401),
        match renewed {
            Some((_, tokens)) => r matches Ok(t) && t@ == tokens@,
            None => true,
        },
{
}

// ---- Variables -------------------------------------------------------------

/// Each setting of the server has its variable.
pub proof fn law_server_variables(
    r: ServerConfig,
    before: ServerConfig,
    vars: Seq<(String, String)>,
    v: Seq<char>,
)
    requires
        r.overrides(before, vars),
    ensures
        env_value(vars, "TINYLORD_SERVER_BIND"@) == Some(v) ==> r.bind@ == v,
        env_value(vars, "TINYLORD_SERVER_BIND"@) is None ==> r.bind@ == before.bind@,
        env_value(vars, "TINYLORD_SERVER_DATA_DIR"@) == Some(v) ==> r.data_dir@ == v,
        env_value(vars, "TINYLORD_SERVER_DATA_DIR"@) is None ==> r.data_dir@ == before.data_dir@,
        env_value(vars, "TINYLORD_SERVER_SNAPSHOT_DIR"@) == Some(v) ==> r.snapshot_dir@ == v,
        env_value(vars, "TINYLORD_SERVER_SNAPSHOT_DIR"@) is None ==> r.snapshot_dir@
            == before.snapshot_dir@,
{
}

/// Each limit has its variable, which holds a number.
pub proof fn law_limit_variables(
    r: LimitsConfig,
    before: LimitsConfig,
    vars: Seq<(String, String)>,
    n: u32,
)
    requires
        r.overrides(before, vars),
    ensures
        env_value(vars, "TINYLORD_LIMITS_MAX_DOCUMENT_BYTES"@) == Some(decimal(n as nat))
            ==> r.max_document_bytes == n,
        env_value(vars, "TINYLORD_LIMITS_MAX_DATABASE_BYTES"@) == Some(decimal(n as nat))
            ==> r.max_database_bytes == n,
        env_value(vars, "TINYLORD_LIMITS_MAX_QUERY_LIMIT"@) == Some(decimal(n as nat))
            ==> r.max_query_limit == n,
        env_value(vars, "TINYLORD_LIMITS_REQUEST_BODY_BYTES"@) == Some(decimal(n as nat))
            ==> r.request_body_bytes == n,
        env_value(vars, "TINYLORD_LIMITS_RATE_PER_MINUTE"@) == Some(decimal(n as nat))
            ==> r.rate_per_minute == n,
{
    lemma_read(n);
}

proof fn lemma_read(n: u32)
    ensures
        parsed_unsigned(decimal(n as nat), u64::MAX as nat) == Some(n as nat),
        parsed_unsigned(decimal(n as nat), u32::MAX as nat) == Some(n as nat),
        parsed_unsigned(decimal(n as nat), usize::MAX as nat) == Some(n as nat),
{
    law_numbers_in_range(n as nat, u64::MAX as nat);
    law_numbers_in_range(n as nat, u32::MAX as nat);
    law_numbers_in_range(n as nat, usize::MAX as nat);
}

/// Each setting of the writer and of the subscriptions has its variable.
pub proof fn law_writer_variables(
    w: WriterConfig,
    before: WriterConfig,
    r: RealtimeConfig,
    earlier: RealtimeConfig,
    vars: Seq<(String, String)>,
    n: u32,
)
    requires
        w.overrides(before, vars),
        r.overrides(earlier, vars),
    ensures
        env_value(vars, "TINYLORD_WRITER_BUSY_TIMEOUT_MS"@) == Some(decimal(n as nat))
            ==> w.busy_timeout_ms == n,
        env_value(vars, "TINYLORD_WRITER_GROUP_COMMIT"@) == Some("false"@) ==> !w.group_commit,
        env_value(vars, "TINYLORD_WRITER_GROUP_COMMIT"@) == Some("true"@) ==> w.group_commit,
        env_value(vars, "TINYLORD_WRITER_GROUP_COMMIT_MAX_BATCH"@) == Some(decimal(n as nat))
            ==> w.group_commit_max_batch == n,
        env_value(vars, "TINYLORD_WRITER_WAL_CHECKPOINT_SECS"@) == Some(decimal(n as nat))
            ==> w.wal_checkpoint_secs == n,
        env_value(vars, "TINYLORD_REALTIME_CHANGELOG_RETENTION"@) == Some(
            signed_decimal(n as int),
        ) ==> r.changelog_retention == n,
        env_value(vars, "TINYLORD_REALTIME_SSE_CHANNEL_CAPACITY"@) == Some(decimal(n as nat))
            ==> r.sse_channel_capacity == n,
{
    lemma_read(n);
    crate::text::law_written_numbers_are_read_back(n as i64);
    reveal_strlit("true");
    reveal_strlit("false");
    assert("true"@.len() == 4 && "false"@.len() == 5);
}

/// Each setting of the channels has its variable.
pub proof fn law_channel_variables(
    p: PubSubConfig,
    before: PubSubConfig,
    vars: Seq<(String, String)>,
    n: u32,
)
    requires
        p.overrides(before, vars),
    ensures
        env_value(vars, "TINYLORD_PUBSUB_ENABLED"@) == Some("false"@) ==> !p.enabled,
        env_value(vars, "TINYLORD_PUBSUB_ENABLED"@) == Some("true"@) ==> p.enabled,
        env_value(vars, "TINYLORD_PUBSUB_MAX_EVENT_BYTES"@) == Some(decimal(n as nat))
            ==> p.max_event_bytes == n,
        env_value(vars, "TINYLORD_PUBSUB_CHANNEL_CAPACITY"@) == Some(decimal(n as nat))
            ==> p.channel_capacity == n,
{
    lemma_read(n);
    reveal_strlit("true");
    reveal_strlit("false");
    assert("true"@.len() == 4 && "false"@.len() == 5);
}

// ---- Others ----------------------------------------------------------------

/// The value of a text of octal digits.
pub open spec fn octal_value(s: Seq<char>) -> int
    decreases s.len(),
{
    if s.len() == 0 {
        0
    } else {
        8 * octal_value(s.drop_last()) + (s.last() as int - '0' as int)
    }
}

/// A mode is written in octal digits.
pub proof fn law_modes_are_octal(n: nat)
    ensures
        octal_value(octal(n)) == n,
        forall|i: int| 0 <= i < octal(n).len() ==> '0' <= #[trigger] octal(n)[i] <= '7',
    decreases n,
{
    if n < 8 {
        assert(octal(n).drop_last() =~= Seq::empty());
        assert(octal_value(Seq::empty()) == 0);
    } else {
        law_modes_are_octal(n / 8);
        assert(octal(n).drop_last() =~= octal(n / 8));
        assert forall|i: int| 0 <= i < octal(n).len() implies '0' <= #[trigger] octal(n)[i]
            <= '7' by {
            if i < octal(n / 8).len() {
                assert(octal(n)[i] == octal(n / 8)[i]);
            }
        }
    }
}

/// What is published on one channel is heard on no other.
pub proof fn law_channels_are_apart(ev: PubSubView, channel: Seq<char>, client: Seq<char>)
    requires
        ev.channel != channel,
    ensures
        !reaches(ev, channel, client),
{
}

/// Writes of single documents share transactions; whatever else the writer does is done by
/// itself.
pub proof fn law_what_shares_a_transaction(c: CommandView)
    ensures
        batchable(c) <==> (match c {
            CommandView::Create { .. } => true,
            CommandView::Replace { .. } => true,
            CommandView::Delete { .. } => true,
            _ => false,
        }),
{
}

// ---- Accounts and applications ---------------------------------------------

/// A principal with a password is a browser user: it is taken with a user name, without
/// rights of an administrator, and with a password that is taken. One without a password is
/// always taken.
pub proof fn law_principals_that_are_taken(body: CreatePrincipalBody, hash: Seq<char>)
    ensures
        body.password is None ==> principal_refusal(body, None) is None,
        body.password matches Some(p) ==> (principal_refusal(body, Some(hash)) is None
            <==> username_ok(body.name@) && !body.is_admin && password_ok(p@)),
        principal_refusal(body, Some(hash)) matches Some(e) ==> code_status(e.code) == 400,
{
}

/// A password is set anew for a user name and with a password that is taken; its hash is
/// what is stored.
pub proof fn law_passwords_that_are_set(body: ResetBrowserPasswordBody, hash: Seq<char>)
    ensures
        reset_outcome(body, Some(hash)) is Ok <==> username_ok(body.name@) && password_ok(
            body.password@,
        ),
        reset_outcome(body, Some(hash)) matches Ok(h) ==> h == hash,
        reset_outcome(body, Some(hash)) matches Err(e) ==> code_status(e.code) == 400,
{
}

/// An application is served exactly when it has a name, stands on the loopback interface,
/// and shares neither its name nor its address with one before it.
pub proof fn law_applications_that_are_served(apps: Seq<StaticApp>, i: int)
    requires
        0 <= i < apps.len(),
    ensures
        app_fault(apps, i) is None <==> (name_ok(apps[i].name@) && loopback(apps[i].bind@)
            && forall|k: int|
            0 <= k < i ==> (#[trigger] apps[k]).name@ != apps[i].name@ && apps[k].bind@
                != apps[i].bind@),
{
}

proof fn lemma_filter_entries(entries: Seq<(String, Json)>)
    ensures
        filter_entries(entries) is Ok <==> forall|i: int|
            0 <= i < entries.len() ==> filter_entry(#[trigger] entries[i]) is Ok,
        filter_entries(entries) matches Ok(v) ==> v.len() == entries.len() && forall|i: int|
            0 <= i < entries.len() ==> filter_entry(#[trigger] entries[i]) == Ok::<
                EqClause,
                Seq<char>,
            >(v[i]),
    decreases entries.len(),
{
    if entries.len() > 0 {
        let front = entries.drop_last();
        lemma_filter_entries(front);
        assert(entries.last() == entries[entries.len() - 1]);
        assert(forall|i: int| 0 <= i < front.len() ==> #[trigger] front[i] == entries[i]);
        if filter_entries(front) is Ok {
            assert forall|i: int| 0 <= i < front.len() implies filter_entry(
                #[trigger] entries[i],
            ) is Ok by {
                assert(front[i] == entries[i]);
            }
            if filter_entry(entries.last()) is Ok {
                let v = filter_entries(entries)->Ok_0;
                assert forall|i: int| 0 <= i < entries.len() implies filter_entry(
                    #[trigger] entries[i],
                ) == Ok::<EqClause, Seq<char>>(v[i]) by {
                    if i < front.len() {
                        assert(front[i] == entries[i]);
                    }
                }
            }
        } else {
            let i = choose|i: int| 0 <= i < front.len() && !(filter_entry(#[trigger] front[i]) is Ok);
            assert(front[i] == entries[i]);
        }
    }
}

/// A filter of a subscription is an object, and says of a document what each of its entries
/// says; it is none where one of its entries is none.
pub proof fn law_filters_of_subscriptions(value: Json)
    ensures
        !(value is Object) ==> eq_filter(value) is Err,
        value matches Json::Object(e) ==> {
            &&& eq_filter(value) is Ok <==> forall|i: int|
                0 <= i < e@.len() ==> filter_entry(#[trigger] e@[i]) is Ok
            &&& eq_filter(value) matches Ok(v) ==> v.len() == e@.len() && forall|i: int|
                0 <= i < e@.len() ==> filter_entry(#[trigger] e@[i]) == Ok::<EqClause, Seq<char>>(
                    v[i],
                )
        },
{
    if let Json::Object(e) = value {
        lemma_filter_entries(e@);
    }
}

/// Whoever asks too often is told a wait that is enough, and whoever does not is let
/// through.
pub proof fn law_rate_answers(wait: Option<u64>, r: Result<(), u64>)
    requires
        call_ensures(rate_answer, (wait,), r),
    ensures
        r is Ok <==> wait is None,
        wait matches Some(secs) ==> (r matches Err(n) && n == secs + 1),
{
}

proof fn lemma_mistyped(vars: Seq<(String, String)>, known: Seq<(Seq<char>, VarKind)>, i: int)
    requires
        0 <= i < known.len(),
        mistyped(vars, known[i]),
    ensures
        mistyped_names(vars, known).contains(known[i].0),
    decreases known.len(),
{
    let front = known.drop_last();
    let names = mistyped_names(vars, known);
    if i == known.len() - 1 {
        assert(names.last() == known[i].0);
        assert(names[names.len() - 1] == known[i].0);
    } else {
        assert(front[i] == known[i]);
        lemma_mistyped(vars, front, i);
        let before = mistyped_names(vars, front);
        let j = choose|j: int| 0 <= j < before.len() && before[j] == known[i].0;
        assert(names[j] == before[j]);
    }
}

/// Every variable that is set to what it cannot hold is reported by its name.
pub proof fn law_mistyped_variables_are_reported(
    vars: Seq<(String, String)>,
    known: Seq<(Seq<char>, VarKind)>,
    i: int,
)
    requires
        0 <= i < known.len(),
        mistyped(vars, known[i]),
    ensures
        mistyped_names(vars, known).contains(known[i].0),
{
    lemma_mistyped(vars, known, i);
}

/// Every variable that holds a number or a truth value is held to its kind.
pub proof fn law_variables_are_held_to_their_kinds()
    ensures
        scalar_vars().contains(("TINYLORD_LIMITS_MAX_DOCUMENT_BYTES"@, VarKind::U64)),
        scalar_vars().contains(("TINYLORD_LIMITS_MAX_DATABASE_BYTES"@, VarKind::U64)),
        scalar_vars().contains(("TINYLORD_LIMITS_MAX_QUERY_LIMIT"@, VarKind::U32)),
        scalar_vars().contains(("TINYLORD_LIMITS_REQUEST_BODY_BYTES"@, VarKind::Usize)),
        scalar_vars().contains(("TINYLORD_LIMITS_RATE_PER_MINUTE"@, VarKind::U32)),
        scalar_vars().contains(("TINYLORD_WRITER_BUSY_TIMEOUT_MS"@, VarKind::U32)),
        scalar_vars().contains(("TINYLORD_WRITER_GROUP_COMMIT"@, VarKind::Flag)),
        scalar_vars().contains(("TINYLORD_WRITER_GROUP_COMMIT_MAX_BATCH"@, VarKind::Usize)),
        scalar_vars().contains(("TINYLORD_WRITER_WAL_CHECKPOINT_SECS"@, VarKind::U64)),
        scalar_vars().contains(("TINYLORD_REALTIME_CHANGELOG_RETENTION"@, VarKind::I64)),
        scalar_vars().contains(("TINYLORD_REALTIME_SSE_CHANNEL_CAPACITY"@, VarKind::Usize)),
        scalar_vars().contains(("TINYLORD_PUBSUB_ENABLED"@, VarKind::Flag)),
        scalar_vars().contains(("TINYLORD_PUBSUB_MAX_EVENT_BYTES"@, VarKind::Usize)),
        scalar_vars().contains(("TINYLORD_PUBSUB_CHANNEL_CAPACITY"@, VarKind::Usize)),
        scalar_vars().contains(("TINYLORD_ADMIN_UI_ENABLED"@, VarKind::Flag)),
        scalar_vars().contains(("TINYLORD_ENCRYPTION_ENABLED"@, VarKind::Flag)),
{
    assert(scalar_vars()[0] == ("TINYLORD_LIMITS_MAX_DOCUMENT_BYTES"@, VarKind::U64));
    assert(scalar_vars()[1] == ("TINYLORD_LIMITS_MAX_DATABASE_BYTES"@, VarKind::U64));
    assert(scalar_vars()[2] == ("TINYLORD_LIMITS_MAX_QUERY_LIMIT"@, VarKind::U32));
    assert(scalar_vars()[3] == ("TINYLORD_LIMITS_REQUEST_BODY_BYTES"@, VarKind::Usize));
    assert(scalar_vars()[4] == ("TINYLORD_LIMITS_RATE_PER_MINUTE"@, VarKind::U32));
    assert(scalar_vars()[5] == ("TINYLORD_WRITER_BUSY_TIMEOUT_MS"@, VarKind::U32));
    assert(scalar_vars()[6] == ("TINYLORD_WRITER_GROUP_COMMIT"@, VarKind::Flag));
    assert(scalar_vars()[7] == ("TINYLORD_WRITER_GROUP_COMMIT_MAX_BATCH"@, VarKind::Usize));
    assert(scalar_vars()[8] == ("TINYLORD_WRITER_WAL_CHECKPOINT_SECS"@, VarKind::U64));
    assert(scalar_vars()[9] == ("TINYLORD_REALTIME_CHANGELOG_RETENTION"@, VarKind::I64));
    assert(scalar_vars()[10] == ("TINYLORD_REALTIME_SSE_CHANNEL_CAPACITY"@, VarKind::Usize));
    assert(scalar_vars()[11] == ("TINYLORD_PUBSUB_ENABLED"@, VarKind::Flag));
    assert(scalar_vars()[12] == ("TINYLORD_PUBSUB_MAX_EVENT_BYTES"@, VarKind::Usize));
    assert(scalar_vars()[13] == ("TINYLORD_PUBSUB_CHANNEL_CAPACITY"@, VarKind::Usize));
    assert(scalar_vars()[14] == ("TINYLORD_ADMIN_UI_ENABLED"@, VarKind::Flag));
    assert(scalar_vars()[15] == ("TINYLORD_ENCRYPTION_ENABLED"@, VarKind::Flag));
}

} // verus!
