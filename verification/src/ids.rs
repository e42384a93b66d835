//! Identifiers, time stamps, and the names and paths that may enter a statement
//! as text.

use crate::errors::{validation_error, ApiError};
use crate::text::{
    chars_of, concat2, concat3, digit, is_digit, is_letter, is_word, join, letter, same,
    split, split_text, views, word,
};
use vstd::prelude::*;

verus! {

// ---- Identifiers -----------------------------------------------------------

/// A symbol of Crockford's base 32.
pub open spec fn ulid_char(c: char) -> bool {
    digit(c) || ('A' <= c && c <= 'Z' && c != 'I' && c != 'L' && c != 'O' && c != 'U')
}

/// A text in the shape of a ULID.
pub open spec fn ulid_text(s: Seq<char>) -> bool {
    s.len() == 26 && forall|i: int| 0 <= i < s.len() ==> ulid_char(#[trigger] s[i])
}

/// Calls `ulid::Ulid::new` and `ulid::Ulid::to_string`. The identifier depends on
/// the clock and on chance, so only its shape is claimed: 26 symbols out of the
/// crate's alphabet of 32.
#[verifier::external_body]
fn fresh_ulid() -> (r: String)
    ensures
        ulid_text(r@),
{
    ulid::Ulid::new().to_string()
}

/// A new identifier, made by the server: clients never choose the identifier of
/// a document that they create.
pub fn new_ulid() -> (r: String)
    ensures
        ulid_text(r@),
{
    fresh_ulid()
}

// ---- Time ------------------------------------------------------------------

/// Calls `SystemTime::elapsed` on the Unix epoch and takes the result in whole
/// milliseconds; `None` when the clock stands before the epoch. Nothing is
/// claimed of the time itself.
#[verifier::external_body]
fn millis_since_epoch() -> Option<u128> {
    std::time::UNIX_EPOCH.elapsed().ok().map(|d| d.as_millis())
}

/// The time stamp for a number of milliseconds since the epoch.
pub open spec fn timestamp(millis: Option<u128>) -> i64 {
    match millis {
        Some(m) => m as i64,
        None => 0,
    }
}

/// The time stamp for a reading of the clock. A clock before the epoch reads 0.
pub fn timestamp_of(millis: Option<u128>) -> (r: i64)
    ensures
        r == timestamp(millis),
        millis matches Some(m) ==> (m <= i64::MAX ==> r == m),
{
    match millis {
        Some(m) => {
            #[verifier::truncate]
            (m as i64)
        },
        None => 0,
    }
}

/// The time in milliseconds since the epoch.
pub fn now_ms() -> (r: i64)
    ensures
        exists|millis: Option<u128>| r == #[trigger] timestamp(millis),
{
    timestamp_of(millis_since_epoch())
}

// ---- Names -----------------------------------------------------------------

/// A letter, followed by at most 63 letters, digits, and underscores.
pub open spec fn name_ok(s: Seq<char>) -> bool {
    &&& 1 <= s.len() <= 64
    &&& letter(s[0])
    &&& forall|i: int| 0 <= i < s.len() ==> word(#[trigger] s[i])
}

/// Whether `name` may name a database, a collection, or an index. Such a name
/// can stand in a statement as part of an identifier.
pub fn valid_name(name: &str) -> (r: bool)
    ensures
        r == name_ok(name@),
{
    let v = chars_of(name);
    if v.len() == 0 || v.len() > 64 {
        return false;
    }
    if !is_letter(v[0]) {
        return false;
    }
    let mut i: usize = 1;
    while i < v.len()
        invariant
            v@ == name@,
            1 <= i <= v@.len(),
            letter(v@[0]),
            forall|k: int| 0 <= k < i ==> word(#[trigger] v@[k]),
        decreases v@.len() - i,
    {
        if !is_word(v[i]) {
            return false;
        }
        i = i + 1;
    }
    true
}

/// What is said of a name that is not valid.
pub open spec fn name_error(kind: Seq<char>) -> Seq<char> {
    "invalid "@ + kind + " name; must match ^[a-zA-Z][a-zA-Z0-9_]{0,63}$"@
}

/// Refuses a name that is not valid.
pub fn require_valid_name(kind: &str, name: &str) -> (r: Result<(), ApiError>)
    ensures
        match r {
            Ok(_) => name_ok(name@),
            Err(e) => !name_ok(name@) && e@ == validation_error(name_error(kind@)),
        },
{
    if valid_name(name) {
        Ok(())
    } else {
        let msg = concat3("invalid ", kind, " name; must match ^[a-zA-Z][a-zA-Z0-9_]{0,63}$");
        Err(ApiError::validation(msg.as_str()))
    }
}

/// The names of the internal tables of a database.
pub open spec fn reserved(name: Seq<char>) -> bool {
    name == "changelog"@ || name == "indexes"@
}

/// Whether `name` is kept for an internal table, so that no collection may bear
/// it.
pub fn is_reserved_collection(name: &str) -> (r: bool)
    ensures
        r == reserved(name@),
{
    same(name, "changelog") || same(name, "indexes")
}

// ---- JSON paths ------------------------------------------------------------

/// A run of letters, digits, and underscores that is not empty.
pub open spec fn ident(s: Seq<char>) -> bool {
    s.len() > 0 && forall|i: int| 0 <= i < s.len() ==> word(#[trigger] s[i])
}

/// `.name`, or `[index]`.
pub open spec fn segment(s: Seq<char>) -> bool {
    ||| s.len() >= 2 && s[0] == '.' && ident(s.skip(1))
    ||| {
        &&& s.len() >= 3
        &&& s[0] == '['
        &&& s.last() == ']'
        &&& forall|i: int| 1 <= i < s.len() - 1 ==> digit(#[trigger] s[i])
    }
}

/// Segments one after another, and nothing else.
pub open spec fn segments(s: Seq<char>) -> bool
    decreases s.len(),
{
    s.len() == 0 || exists|k: int|
        0 < k <= s.len() && #[trigger] segment(s.take(k)) && segments(s.skip(k))
}

/// `$`, followed by segments.
pub open spec fn path_ok(s: Seq<char>) -> bool {
    s.len() > 0 && s[0] == '$' && segments(s.skip(1))
}

/// Whether `path` is a JSON path of the form that statements may hold as text.
pub fn valid_json_path(path: &str) -> (r: bool)
    ensures
        r == path_ok(path@),
{
    let v = chars_of(path);
    if v.len() == 0 || v[0] != '$' {
        return false;
    }
    let mut i: usize = 1;
    while i < v.len()
        invariant
            v@ == path@,
            1 <= i <= v@.len(),
            v@[0] == '$',
            segments(v@.skip(1)) == segments(v@.skip(i as int)),
        decreases v@.len() - i,
    {
        let ghost from = i as int;
        if v[i] == '.' {
            let mut j: usize = i + 1;
            while j < v.len() && is_word(v[j])
                invariant
                    i < j <= v@.len(),
                    forall|k: int| i < k < j ==> word(#[trigger] v@[k]),
                decreases v@.len() - j,
            {
                j = j + 1;
            }
            proof {
                lemma_dot_step(v@.skip(from), j - from);
                assert(v@.skip(from).skip(j - from) =~= v@.skip(j as int));
            }
            if j == i + 1 {
                return false;
            }
            i = j;
        } else if v[i] == '[' {
            let mut j: usize = i + 1;
            while j < v.len() && is_digit(v[j])
                invariant
                    i < j <= v@.len(),
                    forall|k: int| i < k < j ==> digit(#[trigger] v@[k]),
                decreases v@.len() - j,
            {
                j = j + 1;
            }
            proof {
                lemma_bracket_step(v@.skip(from), j - from);
                if j < v@.len() {
                    assert(v@.skip(from).skip(j - from + 1) =~= v@.skip(j + 1));
                }
            }
            if j == v.len() || v[j] != ']' || j == i + 1 {
                return false;
            }
            i = j + 1;
        } else {
            proof {
                let s = v@.skip(from);
                if segments(s) {
                    let k = choose|k: int|
                        0 < k <= s.len() && #[trigger] segment(s.take(k)) && segments(s.skip(k));
                    assert(s.take(k)[0] == s[0]);
                }
            }
            return false;
        }
    }
    assert(v@.skip(i as int).len() == 0);
    true
}

/// A run of segments begins with a dot or a bracket.
proof fn lemma_segments_head(s: Seq<char>)
    requires
        segments(s),
        s.len() > 0,
    ensures
        s[0] == '.' || s[0] == '[',
{
    let k = choose|k: int|
        0 < k <= s.len() && #[trigger] segment(s.take(k)) && segments(s.skip(k));
    assert(s.take(k)[0] == s[0]);
}

/// After a dot, the segment is the longest run of word characters.
proof fn lemma_dot_step(s: Seq<char>, j: int)
    requires
        1 <= j <= s.len(),
        s[0] == '.',
        forall|k: int| 1 <= k < j ==> word(#[trigger] s[k]),
        j < s.len() ==> !word(s[j]),
    ensures
        segments(s) == (j > 1 && segments(s.skip(j))),
{
    if j > 1 && segments(s.skip(j)) {
        let t = s.take(j);
        assert forall|i: int| 0 <= i < t.skip(1).len() implies word(#[trigger] t.skip(1)[i]) by {
            assert(t.skip(1)[i] == s[i + 1]);
        }
        assert(ident(t.skip(1)));
        assert(segment(t));
    }
    if segments(s) {
        let k = choose|k: int|
            0 < k <= s.len() && #[trigger] segment(s.take(k)) && segments(s.skip(k));
        let t = s.take(k);
        assert(t[0] == s[0]);
        assert(ident(t.skip(1)));
        assert forall|i: int| 1 <= i < k implies word(#[trigger] s[i]) by {
            assert(t.skip(1)[i - 1] == s[i]);
        }
        if k > j {
            assert(word(s[j]));
        }
        if k < j {
            assert(s.skip(k)[0] == s[k]);
            lemma_segments_head(s.skip(k));
            assert(word(s[k]));
        }
    }
}

/// After an opening bracket, the segment is the longest run of digits and a
/// closing bracket.
proof fn lemma_bracket_step(s: Seq<char>, j: int)
    requires
        1 <= j <= s.len(),
        s[0] == '[',
        forall|k: int| 1 <= k < j ==> digit(#[trigger] s[k]),
        j < s.len() ==> !digit(s[j]),
    ensures
        segments(s) == (1 < j < s.len() && s[j] == ']' && segments(s.skip(j + 1))),
{
    if 1 < j < s.len() && s[j] == ']' && segments(s.skip(j + 1)) {
        assert(segment(s.take(j + 1)));
    }
    if segments(s) {
        let k = choose|k: int|
            0 < k <= s.len() && #[trigger] segment(s.take(k)) && segments(s.skip(k));
        let t = s.take(k);
        assert(t[0] == s[0]);
        assert(t.last() == s[k - 1]);
        assert forall|i: int| 1 <= i < k - 1 implies digit(#[trigger] s[i]) by {
            assert(t[i] == s[i]);
        }
        if k - 1 > j {
            assert(digit(s[j]));
        }
        if k - 1 < j {
            assert(digit(s[k - 1]));
        }
    }
}

// ---- Fields ----------------------------------------------------------------

/// Identifiers with dots between them.
pub open spec fn field_ok(s: Seq<char>) -> bool {
    forall|i: int| 0 <= i < split(s, '.').len() ==> ident(#[trigger] split(s, '.')[i])
}

/// The JSON path of a field, or what is said of a key that is no field.
pub open spec fn field_path(field: Seq<char>) -> Result<Seq<char>, Seq<char>> {
    if field.len() == 0 {
        Err("empty field name in filter"@)
    } else if field_ok(field) {
        Ok("$."@ + field)
    } else {
        Err("invalid field path: "@ + field)
    }
}

/// Whether `s` is an identifier.
pub fn is_ident(s: &str) -> (r: bool)
    ensures
        r == ident(s@),
{
    let v = chars_of(s);
    let mut i: usize = 0;
    while i < v.len()
        invariant
            v@ == s@,
            i <= v@.len(),
            forall|k: int| 0 <= k < i ==> word(#[trigger] v@[k]),
        decreases v@.len() - i,
    {
        if !is_word(v[i]) {
            return false;
        }
        i = i + 1;
    }
    v.len() > 0
}

/// Whether each of the pieces is an identifier.
pub fn all_idents(pieces: &Vec<String>) -> (r: bool)
    ensures
        r == (forall|i: int| 0 <= i < pieces@.len() ==> ident(#[trigger] views(pieces@)[i])),
{
    let mut i: usize = 0;
    while i < pieces.len()
        invariant
            i <= pieces@.len(),
            forall|k: int| 0 <= k < i ==> ident(#[trigger] views(pieces@)[k]),
        decreases pieces@.len() - i,
    {
        if !is_ident(pieces[i].as_str()) {
            assert(!ident(views(pieces@)[i as int]));
            return false;
        }
        i = i + 1;
    }
    true
}

/// The JSON path of a field in dot notation.
pub fn field_to_json_path(field: &str) -> (r: Result<String, ApiError>)
    ensures
        match r {
            Ok(p) => field_path(field@) == Ok::<Seq<char>, Seq<char>>(p@),
            Err(e) => field_path(field@) matches Err(m) && e@ == validation_error(m),
        },
{
    if chars_of(field).len() == 0 {
        return Err(ApiError::validation("empty field name in filter"));
    }
    let pieces = split_text(field, '.');
    if all_idents(&pieces) {
        Ok(concat2("$.", field))
    } else {
        let msg = concat2("invalid field path: ", field);
        Err(ApiError::validation(msg.as_str()))
    }
}

/// Joining the pieces of a text gives the text back.
pub proof fn lemma_join_split(s: Seq<char>, sep: char)
    ensures
        join(split(s, sep), seq![sep]) == s,
        split(s, sep).len() > 0,
    decreases s.len(),
{
    let parts = split(s, sep);
    if s.len() == 0 {
        assert(parts[0] =~= s);
    } else {
        let before = split(s.drop_last(), sep);
        lemma_join_split(s.drop_last(), sep);
        assert(s =~= s.drop_last().push(s.last()));
        if s.last() == sep {
            assert(parts.drop_last() =~= before);
            assert(join(parts, seq![sep]) =~= s);
        } else {
            assert(parts.drop_last() =~= before.drop_last());
            assert(join(parts, seq![sep]) =~= join(before, seq![sep]).push(s.last()));
        }
    }
}

/// A segment may follow a run of segments.
proof fn lemma_segments_push(a: Seq<char>, b: Seq<char>)
    requires
        segments(a),
        segment(b),
    ensures
        segments(a + b),
    decreases a.len(),
{
    let s = a + b;
    if a.len() == 0 {
        assert(s =~= b);
        assert(s.take(s.len() as int) =~= b);
        assert(segments(s.skip(s.len() as int)));
    } else {
        let k = choose|k: int|
            0 < k <= a.len() && #[trigger] segment(a.take(k)) && segments(a.skip(k));
        lemma_segments_push(a.skip(k), b);
        assert(s.skip(k) =~= a.skip(k) + b);
        assert(s.take(k) =~= a.take(k));
    }
}

/// Identifiers, each after a dot, are segments.
proof fn lemma_dotted_segments(parts: Seq<Seq<char>>)
    requires
        parts.len() > 0,
        forall|i: int| 0 <= i < parts.len() ==> ident(#[trigger] parts[i]),
    ensures
        segments(seq!['.'] + join(parts, seq!['.'])),
    decreases parts.len(),
{
    let last = seq!['.'] + parts.last();
    assert(last.skip(1) =~= parts.last());
    assert(ident(parts[parts.len() - 1]));
    assert(segment(last));
    if parts.len() == 1 {
        assert(seq!['.'] + join(parts, seq!['.']) =~= Seq::<char>::empty() + last);
        lemma_segments_push(Seq::empty(), last);
    } else {
        let front = parts.drop_last();
        assert forall|i: int| 0 <= i < front.len() implies ident(#[trigger] front[i]) by {
            assert(front[i] == parts[i]);
        }
        lemma_dotted_segments(front);
        lemma_segments_push(seq!['.'] + join(front, seq!['.']), last);
        assert(seq!['.'] + join(parts, seq!['.']) =~= seq!['.'] + join(front, seq!['.']) + last);
    }
}

/// The path that a field is turned into is always a valid JSON path.
pub proof fn law_field_path_is_valid(field: Seq<char>)
    ensures
        field_path(field) matches Ok(p) ==> path_ok(p),
{
    if let Ok(p) = field_path(field) {
        reveal_strlit("$.");
        lemma_join_split(field, '.');
        lemma_dotted_segments(split(field, '.'));
        assert(p.skip(1) =~= seq!['.'] + field);
    }
}

/// Text that may stand between single quotes in a statement.
pub open spec fn quotable(s: Seq<char>) -> bool {
    forall|i: int| 0 <= i < s.len() ==> #[trigger] s[i] != '\''
}

proof fn lemma_segments_quotable(s: Seq<char>)
    requires
        segments(s),
    ensures
        quotable(s),
    decreases s.len(),
{
    if s.len() > 0 {
        let k = choose|k: int|
            0 < k <= s.len() && #[trigger] segment(s.take(k)) && segments(s.skip(k));
        lemma_segments_quotable(s.skip(k));
        let t = s.take(k);
        assert forall|i: int| 0 <= i < s.len() implies #[trigger] s[i] != '\'' by {
            if i >= k {
                assert(s.skip(k)[i - k] == s[i]);
            } else if i > 0 {
                assert(t[i] == s[i]);
                if t[0] == '.' {
                    assert(t.skip(1)[i - 1] == t[i]);
                }
            } else {
                assert(t[0] == s[0]);
            }
        }
    }
}

/// A valid JSON path cannot end the quoted text that it stands in.
pub proof fn law_path_is_quotable(path: Seq<char>)
    requires
        path_ok(path),
    ensures
        quotable(path),
{
    lemma_segments_quotable(path.skip(1));
    assert forall|i: int| 0 <= i < path.len() implies #[trigger] path[i] != '\'' by {
        if i > 0 {
            assert(path.skip(1)[i - 1] == path[i]);
        }
    }
}

/// A valid name is made of characters that an identifier may hold, so it cannot
/// change the statement that it becomes part of.
pub proof fn law_name_is_identifier(name: Seq<char>)
    requires
        name_ok(name),
    ensures
        ident(name),
        ident("coll_"@ + name),
{
    reveal_strlit("coll_");
    let s = "coll_"@ + name;
    assert forall|i: int| 0 <= i < s.len() implies word(#[trigger] s[i]) by {
        if i >= 5 {
            assert(s[i] == name[i - 5]);
        }
    }
}

} // verus!
