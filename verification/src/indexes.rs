//! Indexes over collections: what a request asks of the writer, and what it is
//! answered.

use crate::documents::{answers, Answer, AnswerView};
use crate::errors::{
    not_found_error, validation_error, ApiError, ApiResult, ErrorView,
};
use crate::ids::{
    name_error, name_ok, new_ulid, path_ok, require_valid_name, ulid_char, ulid_text, valid_json_path,
};
use crate::json::{put, Json, JsonView};
use crate::sql::{
    cell_int, cell_text, failed, get_int, get_text, params1, query, query_view, reply_error,
    reply_rows, rows_view, text_value, value_views, Reply, ReplyView, Statement, StatementView,
    Value, ValueView,
};
use crate::text::{
    chars_of, concat2, concat3, digit, is_digit, is_letter, letter, lower, lower_char, slice_text, to_lower,
    word,
};
use crate::writer::{command_ok, CommandView, WriteCommand};
use vstd::prelude::*;

verus! {

// ---- Names -----------------------------------------------------------------

/// `s` with every character that is no letter and no digit replaced by an
/// underscore.
pub open spec fn sanitized(s: Seq<char>) -> Seq<char> {
    Seq::new(
        s.len(),
        |i: int|
            if letter(s[i]) || digit(s[i]) {
                s[i]
            } else {
                '_'
            },
    )
}

/// `s` without underscores at its start.
pub open spec fn bare_start(s: Seq<char>) -> Seq<char>
    decreases s.len(),
{
    if s.len() > 0 && s[0] == '_' {
        bare_start(s.skip(1))
    } else {
        s
    }
}

/// `s` without underscores at its end.
pub open spec fn bare_end(s: Seq<char>) -> Seq<char>
    decreases s.len(),
{
    if s.len() > 0 && s.last() == '_' {
        bare_end(s.drop_last())
    } else {
        s
    }
}

/// The path as it stands in the name of an index.
pub open spec fn path_part(path: Seq<char>) -> Seq<char> {
    bare_end(bare_start(sanitized(path)))
}

fn path_as_name(path: &str) -> (r: String)
    ensures
        r@ == path_part(path@),
{
    let p = chars_of(path);
    let mut v: Vec<char> = Vec::new();
    let mut i: usize = 0;
    while i < p.len()
        invariant
            p@ == path@,
            i <= p@.len(),
            v@ == sanitized(path@).take(i as int),
        decreases p@.len() - i,
    {
        let c = p[i];
        v.push(
            if is_letter(c) || is_digit(c) {
                c
            } else {
                '_'
            },
        );
        assert(v@ =~= sanitized(path@).take(i + 1));
        i = i + 1;
    }
    assert(v@ =~= sanitized(path@));
    let n: usize = v.len();
    let mut a: usize = 0;
    assert(v@.skip(0) =~= v@);
    while a < n && v[a] == '_'
        invariant
            n == v@.len(),
            a <= n,
            bare_start(v@.skip(a as int)) == bare_start(v@),
        decreases n - a,
    {
        assert(v@.skip(a as int).skip(1) =~= v@.skip(a + 1));
        a = a + 1;
    }
    let mut b: usize = n;
    assert(v@.subrange(a as int, n as int) =~= v@.skip(a as int));
    while a < b && v[b - 1] == '_'
        invariant
            n == v@.len(),
            a <= b <= n,
            bare_end(v@.subrange(a as int, b as int)) == bare_end(bare_start(v@)),
        decreases b - a,
    {
        assert(v@.subrange(a as int, b as int).drop_last() =~= v@.subrange(a as int, b - 1));
        b = b - 1;
    }
    slice_text(&v, a, b)
}

/// The name of an index over `path` in `coll`, made with a fresh identifier. It is
/// cut at 64 characters.
pub open spec fn index_name(coll: Seq<char>, path: Seq<char>, fresh: Seq<char>) -> Seq<char> {
    let full = "ix_"@ + coll + "_"@ + path_part(path) + "_"@ + lower(fresh.skip(fresh.len() - 6));
    if full.len() > 64 {
        full.take(64)
    } else {
        full
    }
}

proof fn lemma_bare_words(s: Seq<char>)
    requires
        forall|i: int| 0 <= i < s.len() ==> word(#[trigger] s[i]),
    ensures
        forall|i: int| 0 <= i < bare_start(s).len() ==> word(#[trigger] bare_start(s)[i]),
        forall|i: int| 0 <= i < bare_end(s).len() ==> word(#[trigger] bare_end(s)[i]),
    decreases s.len(),
{
    if s.len() > 0 {
        if s[0] == '_' {
            lemma_bare_words(s.skip(1));
            assert(bare_start(s) == bare_start(s.skip(1)));
        }
        if s.last() == '_' {
            lemma_bare_words(s.drop_last());
            assert(bare_end(s) == bare_end(s.drop_last()));
        }
    }
}

/// The name of an index is a valid name.
proof fn lemma_index_name(coll: Seq<char>, path: Seq<char>, fresh: Seq<char>)
    requires
        name_ok(coll),
        ulid_text(fresh),
    ensures
        name_ok(index_name(coll, path, fresh)),
{
    reveal_strlit("ix_");
    reveal_strlit("_");
    let part = path_part(path);
    let suffix = lower(fresh.skip(20));
    let full = "ix_"@ + coll + "_"@ + part + "_"@ + suffix;
    lemma_bare_words(sanitized(path));
    lemma_bare_words(bare_start(sanitized(path)));
    assert forall|i: int| 0 <= i < suffix.len() implies word(#[trigger] suffix[i]) by {
        assert(ulid_char(fresh[20 + i]));
        assert(suffix[i] == lower_char(fresh[20 + i]));
    }
    assert forall|i: int| 0 <= i < full.len() implies word(#[trigger] full[i]) by {
        let n = coll.len() as int;
        let m = part.len() as int;
        if i < 3 {
            assert(full[i] == "ix_"@[i]);
        } else if i < 3 + n {
            assert(full[i] == coll[i - 3]);
        } else if i == 3 + n {
            assert(full[i] == "_"@[0]);
        } else if i < 4 + n + m {
            assert(full[i] == part[i - 4 - n]);
        } else if i == 4 + n + m {
            assert(full[i] == "_"@[0]);
        } else {
            assert(full[i] == suffix[i - 5 - n - m]);
        }
    }
    assert(full[0] == "ix_"@[0]);
}

/// The name of an index, made with a fresh identifier.
pub fn generate_index_name(coll: &str, path: &str, fresh: &str) -> (r: String)
    requires
        name_ok(coll@),
        ulid_text(fresh@),
    ensures
        r@ == index_name(coll@, path@, fresh@),
        name_ok(r@),
{
    let part = path_as_name(path);
    let f = chars_of(fresh);
    let tail = slice_text(&f, f.len() - 6, f.len());
    assert(fresh@.subrange(20, 26) =~= fresh@.skip(20));
    let suffix = to_lower(tail.as_str());
    let head = concat3("ix_", coll, "_");
    let end = concat3(part.as_str(), "_", suffix.as_str());
    let full = concat2(head.as_str(), end.as_str());
    proof {
        assert(full@ =~= "ix_"@ + coll@ + "_"@ + path_part(path@) + "_"@ + lower(fresh@.skip(20)));
        lemma_index_name(coll@, path@, fresh@);
    }
    let v = chars_of(full.as_str());
    if v.len() > 64 {
        let cut = slice_text(&v, 0, 64);
        assert(cut@ =~= full@.take(64));
        cut
    } else {
        full
    }
}

// ---- Creating --------------------------------------------------------------

/// A request for an index.
#[derive(Debug)]
pub struct CreateIndexBody {
    /// A JSON path, such as `$.email`.
    pub path: String,
    pub unique: bool,
}

/// Why an index is not created, if it is not.
pub open spec fn index_refusal(coll: Seq<char>, path: Seq<char>) -> Option<ErrorView> {
    if !name_ok(coll) {
        Some(validation_error(name_error("collection"@)))
    } else if !path_ok(path) {
        Some(validation_error("path must be a JSON path like '$.email'"@))
    } else {
        None
    }
}

/// The command that a request for an index asks of the writer, with the name made
/// with the identifier `fresh`.
pub fn create_with(coll: String, body: CreateIndexBody, fresh: &str) -> (r: ApiResult<WriteCommand>)
    requires
        ulid_text(fresh@),
    ensures
        match r {
            Ok(c) => {
                &&& index_refusal(coll@, body.path@) is None
                &&& command_ok(c@)
                &&& c@ == (CommandView::CreateIndex {
                    collection: coll@,
                    name: index_name(coll@, body.path@, fresh@),
                    path: body.path@,
                    unique: body.unique,
                })
            },
            Err(e) => index_refusal(coll@, body.path@) == Some(e@),
        },
{
    match require_valid_name("collection", coll.as_str()) {
        Ok(_) => {},
        Err(e) => {
            return Err(e);
        },
    }
    if !valid_json_path(body.path.as_str()) {
        return Err(ApiError::validation("path must be a JSON path like '$.email'"));
    }
    let name = generate_index_name(coll.as_str(), body.path.as_str(), fresh);
    Ok(
        WriteCommand::CreateIndex {
            collection: coll,
            name,
            path: body.path,
            unique: body.unique,
        },
    )
}

/// The command that a request for an index asks of the writer, with a fresh name.
pub fn create(coll: String, body: CreateIndexBody) -> (r: ApiResult<WriteCommand>)
    ensures
        match r {
            Ok(c) => {
                &&& index_refusal(coll@, body.path@) is None
                &&& command_ok(c@)
                &&& exists|fresh: Seq<char>|
                    #![trigger index_name(coll@, body.path@, fresh)]
                    ulid_text(fresh) && c@ == (CommandView::CreateIndex {
                        collection: coll@,
                        name: index_name(coll@, body.path@, fresh),
                        path: body.path@,
                        unique: body.unique,
                    })
            },
            Err(e) => index_refusal(coll@, body.path@) == Some(e@),
        },
{
    let fresh = new_ulid();
    create_with(coll, body, fresh.as_str())
}

/// An index as it is answered when it was created.
pub open spec fn created_index_view(
    name: Seq<char>,
    coll: Seq<char>,
    path: Seq<char>,
    unique: bool,
) -> AnswerView {
    AnswerView {
        status: 201,
        body: Some(
            JsonView::Object(
                map![
                    "name"@ => JsonView::Text(name),
                    "collection"@ => JsonView::Text(coll),
                    "path"@ => JsonView::Text(path),
                    "unique"@ => JsonView::Bool(unique),
                ],
            ),
        ),
    }
}

/// What a request for an index is answered when the writer has created it.
pub fn created(name: &str, coll: &str, path: &str, unique: bool) -> (r: Answer)
    ensures
        r@ == created_index_view(name@, coll@, path@, unique),
{
    let mut e: Vec<(String, Json)> = Vec::new();
    put(&mut e, "name", crate::json::json_text(name));
    put(&mut e, "collection", crate::json::json_text(coll));
    put(&mut e, "path", crate::json::json_text(path));
    put(&mut e, "unique", Json::Bool(unique));
    Answer { status: 201, body: Some(Json::Object(e)) }
}

// ---- Listing ---------------------------------------------------------------

/// An index as it is listed.
#[derive(Debug)]
pub struct IndexRecord {
    pub name: String,
    pub collection: String,
    pub path: String,
    pub is_unique: bool,
}

#[verifier::ext_equal]
pub struct IndexRecordView {
    pub name: Seq<char>,
    pub collection: Seq<char>,
    pub path: Seq<char>,
    pub is_unique: bool,
}

impl View for IndexRecord {
    type V = IndexRecordView;

    open spec fn view(&self) -> IndexRecordView {
        IndexRecordView {
            name: self.name@,
            collection: self.collection@,
            path: self.path@,
            is_unique: self.is_unique,
        }
    }
}

/// An index as JSON.
pub open spec fn index_json(r: IndexRecordView) -> JsonView {
    JsonView::Object(
        map![
            "name"@ => JsonView::Text(r.name),
            "collection"@ => JsonView::Text(r.collection),
            "path"@ => JsonView::Text(r.path),
            "is_unique"@ => JsonView::Bool(r.is_unique),
        ],
    )
}

impl IndexRecord {
    pub fn into_json(self) -> (r: Json)
        ensures
            r@ == index_json(self@),
    {
        let mut e: Vec<(String, Json)> = Vec::new();
        put(&mut e, "name", Json::Text(self.name));
        put(&mut e, "collection", Json::Text(self.collection));
        put(&mut e, "path", Json::Text(self.path));
        put(&mut e, "is_unique", Json::Bool(self.is_unique));
        Json::Object(e)
    }
}

/// What a row of the list says.
pub open spec fn index_row(row: Seq<ValueView>) -> Option<IndexRecordView> {
    match (cell_text(row, 0), cell_text(row, 1), cell_text(row, 2), cell_int(row, 3)) {
        (Some(name), Some(collection), Some(path), Some(unique)) => Some(
            IndexRecordView { name, collection, path, is_unique: unique != 0 },
        ),
        _ => None,
    }
}

fn read_index(row: &Vec<Value>) -> (r: Option<IndexRecord>)
    ensures
        match r {
            Some(x) => index_row(value_views(row@)) == Some(x@),
            None => index_row(value_views(row@)) is None,
        },
{
    match (get_text(row, 0), get_text(row, 1), get_text(row, 2), get_int(row, 3)) {
        (Some(name), Some(collection), Some(path), Some(unique)) => Some(
            IndexRecord { name, collection, path, is_unique: unique != 0 },
        ),
        _ => None,
    }
}

pub open spec fn list_indexes_statement(coll: Seq<char>) -> StatementView {
    query_view(
        "SELECT name, collection, path, is_unique FROM _indexes WHERE collection = ?1 ORDER BY name"@,
        seq![ValueView::Text(coll)],
    )
}

/// The statement that lists the indexes of a collection.
pub fn list(coll: &str) -> (r: ApiResult<Statement>)
    ensures
        match r {
            Ok(s) => name_ok(coll@) && s@ == list_indexes_statement(coll@),
            Err(e) => !name_ok(coll@) && e@ == validation_error(name_error("collection"@)),
        },
{
    match require_valid_name("collection", coll) {
        Ok(_) => Ok(
            query(
                "SELECT name, collection, path, is_unique FROM _indexes WHERE collection = ?1 ORDER BY name",
                params1(text_value(coll)),
            ),
        ),
        Err(e) => Err(e),
    }
}

pub open spec fn indexes_readable(rows: Seq<Seq<ValueView>>) -> bool {
    forall|i: int| 0 <= i < rows.len() ==> index_row(#[trigger] rows[i]) is Some
}

/// What a request for the list is answered, by the reply of the engine.
pub open spec fn listed_indexes(r: ReplyView) -> Result<AnswerView, ErrorView> {
    if failed(r) {
        Err(reply_error(r))
    } else if !indexes_readable(reply_rows(r)) {
        Err(crate::errors::internal_error())
    } else {
        Ok(
            AnswerView {
                status: 200,
                body: Some(
                    JsonView::Object(
                        map![
                            "indexes"@ => JsonView::Array(
                                Seq::new(
                                    reply_rows(r).len(),
                                    |i: int| index_json(index_row(reply_rows(r)[i])->0),
                                ),
                            ),
                        ],
                    ),
                ),
            },
        )
    }
}

/// What a request for the list is answered.
pub fn listed(reply: &Reply) -> (r: ApiResult<Answer>)
    ensures
        answers(r, listed_indexes(reply@)),
{
    if reply.is_failed() {
        return Err(reply.error());
    }
    let mut out: Vec<Json> = Vec::new();
    let ghost all = reply_rows(reply@);
    match reply.rows() {
        Some(rows) => {
            let mut i: usize = 0;
            while i < rows.len()
                invariant
                    all == reply_rows(reply@),
                    all == rows_view(rows@),
                    !failed(reply@),
                    i <= rows@.len(),
                    out@.len() == i,
                    forall|k: int|
                        0 <= k < i ==> index_row(#[trigger] all[k]) is Some && out@[k]@
                            == index_json(index_row(all[k])->0),
                decreases rows@.len() - i,
            {
                assert(all[i as int] == value_views(rows@[i as int]@));
                match read_index(&rows[i]) {
                    Some(x) => {
                        out.push(x.into_json());
                    },
                    None => {
                        return Err(ApiError::internal());
                    },
                }
                i = i + 1;
            }
        },
        None => {},
    }
    let mut e: Vec<(String, Json)> = Vec::new();
    let list = Json::Array(out);
    assert(list@->Array_0 =~= Seq::new(all.len(), |i: int| index_json(index_row(all[i])->0)));
    put(&mut e, "indexes", list);
    Ok(Answer { status: 200, body: Some(Json::Object(e)) })
}

// ---- Dropping --------------------------------------------------------------

/// Why an index is not dropped, if the request is not taken.
pub open spec fn drop_refusal(coll: Seq<char>, name: Seq<char>) -> Option<ErrorView> {
    if !name_ok(coll) {
        Some(validation_error(name_error("collection"@)))
    } else if !name_ok(name) {
        Some(validation_error(name_error("index"@)))
    } else {
        None
    }
}

/// The command that a request to drop an index asks of the writer.
pub fn drop(coll: &str, name: String) -> (r: ApiResult<WriteCommand>)
    ensures
        match r {
            Ok(c) => drop_refusal(coll@, name@) is None && command_ok(c@) && c@
                == (CommandView::DropIndex { name: name@ }),
            Err(e) => drop_refusal(coll@, name@) == Some(e@),
        },
{
    match require_valid_name("collection", coll) {
        Ok(_) => {},
        Err(e) => {
            return Err(e);
        },
    }
    match require_valid_name("index", name.as_str()) {
        Ok(_) => Ok(WriteCommand::DropIndex { name }),
        Err(e) => Err(e),
    }
}

/// What a request to drop an index is answered, by whether there was one.
pub fn dropped(found: bool) -> (r: ApiResult<Answer>)
    ensures
        answers(
            r,
            if found {
                Ok(AnswerView { status: 204, body: None })
            } else {
                Err(not_found_error("index not found"@))
            },
        ),
{
    if found {
        Ok(Answer { status: 204, body: None })
    } else {
        Err(ApiError::not_found("index not found"))
    }
}

// ---- Laws ------------------------------------------------------------------

/// The name that the server makes for an index is one that a request to drop it may
/// give.
pub proof fn law_made_index_names_can_be_dropped(
    coll: Seq<char>,
    path: Seq<char>,
    fresh: Seq<char>,
)
    requires
        name_ok(coll),
        ulid_text(fresh),
    ensures
        drop_refusal(coll, index_name(coll, path, fresh)) is None,
{
    lemma_index_name(coll, path, fresh);
}

} // verus!
