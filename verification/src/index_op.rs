//! Writes that stand outside a batch: creating and dropping an index, and copying
//! a database.

use crate::errors::{conflict_error, ApiError, ApiResult, ErrorView};
use crate::ids::{name_ok, path_ok};
use crate::schema::{collection_sql, ensure_collection, is_present, presence, DocStorage};
use crate::sql::{
    batch, batch_view, execute, execute_view, failed, params1, params4, query, query_view,
    reply_error, text_value, Reply, ReplyView, Statement, StatementView, Value, ValueView,
};
use crate::text::{chars_of, concat2, concat3};
use vstd::prelude::*;

verus! {

// ---- Creating an index -----------------------------------------------------

/// How far the creation of an index has come.
#[derive(Debug)]
pub enum CreateStage {
    /// The table of the collection is created where it is missing.
    Ensure,
    Create,
    /// The index is entered in the list of indexes.
    Record,
    Created,
    Refused(ApiError),
}

pub enum CreateStageView {
    Ensure,
    Create,
    Record,
    Created,
    Refused(ErrorView),
}

impl View for CreateStage {
    type V = CreateStageView;

    open spec fn view(&self) -> CreateStageView {
        match *self {
            CreateStage::Ensure => CreateStageView::Ensure,
            CreateStage::Create => CreateStageView::Create,
            CreateStage::Record => CreateStageView::Record,
            CreateStage::Created => CreateStageView::Created,
            CreateStage::Refused(e) => CreateStageView::Refused(e@),
        }
    }
}

/// The creation of an index in progress.
#[derive(Debug)]
pub struct CreateIndex {
    collection: String,
    name: String,
    path: String,
    unique: bool,
    storage: DocStorage,
    stage: CreateStage,
}

#[verifier::ext_equal]
pub struct CreateIndexView {
    pub collection: Seq<char>,
    pub name: Seq<char>,
    pub path: Seq<char>,
    pub unique: bool,
    pub storage: DocStorage,
    pub stage: CreateStageView,
}

impl View for CreateIndex {
    type V = CreateIndexView;

    closed spec fn view(&self) -> CreateIndexView {
        CreateIndexView {
            collection: self.collection@,
            name: self.name@,
            path: self.path@,
            unique: self.unique,
            storage: self.storage,
            stage: self.stage@,
        }
    }
}

pub open spec fn create_index_sql(c: CreateIndexView) -> Seq<char> {
    "CREATE "@ + (if c.unique {
        "UNIQUE "@
    } else {
        ""@
    }) + "INDEX "@ + c.name + " ON coll_"@ + c.collection + " (json_extract(doc, '"@ + c.path
        + "'))"@
}

pub open spec fn create_index_statement(c: CreateIndexView) -> Option<StatementView> {
    match c.stage {
        CreateStageView::Ensure => Some(batch_view(collection_sql(c.collection, c.storage))),
        CreateStageView::Create => Some(batch_view(create_index_sql(c))),
        CreateStageView::Record => Some(
            execute_view(
                "INSERT INTO _indexes (name, collection, path, is_unique) VALUES (?1, ?2, ?3, ?4)"@,
                seq![
                    ValueView::Text(c.name),
                    ValueView::Text(c.collection),
                    ValueView::Text(c.path),
                    ValueView::Integer(
                        if c.unique {
                            1
                        } else {
                            0
                        },
                    ),
                ],
            ),
        ),
        _ => None,
    }
}

/// Where the creation goes on the reply to its statement. A unique index over
/// values that occur twice is a conflict.
pub open spec fn create_index_next(c: CreateIndexView, r: ReplyView) -> CreateStageView {
    match c.stage {
        CreateStageView::Ensure => if failed(r) {
            CreateStageView::Refused(reply_error(r))
        } else {
            CreateStageView::Create
        },
        CreateStageView::Create => match r {
            ReplyView::Failed { unique: true } => CreateStageView::Refused(
                conflict_error("index would violate uniqueness on existing data"@),
            ),
            ReplyView::Failed { unique: false } => CreateStageView::Refused(reply_error(r)),
            _ => CreateStageView::Record,
        },
        CreateStageView::Record => if failed(r) {
            CreateStageView::Refused(reply_error(r))
        } else {
            CreateStageView::Created
        },
        over => over,
    }
}

impl CreateIndex {
    /// The names and the path have been validated, so that they may stand in a
    /// statement.
    pub open spec fn well_formed(self) -> bool {
        name_ok(self@.collection) && name_ok(self@.name) && path_ok(self@.path)
    }

    pub fn start(
        collection: String,
        name: String,
        path: String,
        unique: bool,
        storage: DocStorage,
    ) -> (r: CreateIndex)
        requires
            name_ok(collection@),
            name_ok(name@),
            path_ok(path@),
        ensures
            r.well_formed(),
            r@ == (CreateIndexView {
                collection: collection@,
                name: name@,
                path: path@,
                unique,
                storage,
                stage: CreateStageView::Ensure,
            }),
    {
        CreateIndex { collection, name, path, unique, storage, stage: CreateStage::Ensure }
    }

    /// The statement to run next; none when the creation is over.
    pub fn statement(&self) -> (r: Option<Statement>)
        requires
            self.well_formed(),
        ensures
            match r {
                Some(s) => create_index_statement(self@) == Some(s@),
                None => create_index_statement(self@) is None,
            },
    {
        match &self.stage {
            CreateStage::Ensure => Some(ensure_collection(self.collection.as_str(), self.storage)),
            CreateStage::Create => {
                let unique = if self.unique {
                    "UNIQUE "
                } else {
                    ""
                };
                let a = concat3("CREATE ", unique, "INDEX ");
                let b = concat3(a.as_str(), self.name.as_str(), " ON coll_");
                let c = concat3(b.as_str(), self.collection.as_str(), " (json_extract(doc, '");
                let sql = concat3(c.as_str(), self.path.as_str(), "'))");
                Some(batch(sql.as_str()))
            },
            CreateStage::Record => Some(
                execute(
                    "INSERT INTO _indexes (name, collection, path, is_unique) VALUES (?1, ?2, ?3, ?4)",
                    params4(
                        text_value(self.name.as_str()),
                        text_value(self.collection.as_str()),
                        text_value(self.path.as_str()),
                        Value::Integer(
                            if self.unique {
                                1
                            } else {
                                0
                            },
                        ),
                    ),
                ),
            ),
            _ => None,
        }
    }

    /// Takes the reply to the statement.
    pub fn accept(&mut self, reply: &Reply)
        ensures
            final(self)@ == (CreateIndexView {
                stage: create_index_next(old(self)@, reply@),
                ..old(self)@
            }),
    {
        let next = match &self.stage {
            CreateStage::Ensure => if reply.is_failed() {
                CreateStage::Refused(reply.error())
            } else {
                CreateStage::Create
            },
            CreateStage::Create => match reply {
                Reply::Failed(f) => if f.unique {
                    CreateStage::Refused(
                        ApiError::conflict("index would violate uniqueness on existing data"),
                    )
                } else {
                    CreateStage::Refused(reply.error())
                },
                _ => CreateStage::Record,
            },
            CreateStage::Record => if reply.is_failed() {
                CreateStage::Refused(reply.error())
            } else {
                CreateStage::Created
            },
            _ => {
                return ;
            },
        };
        self.stage = next;
    }

    /// Whether the index was created, when that is known.
    pub fn result(self) -> (r: Option<ApiResult<()>>)
        ensures
            match self@.stage {
                CreateStageView::Created => r matches Some(Ok(_)),
                CreateStageView::Refused(e) => r matches Some(Err(x)) && x@ == e,
                _ => r is None,
            },
    {
        match self.stage {
            CreateStage::Created => Some(Ok(())),
            CreateStage::Refused(e) => Some(Err(e)),
            _ => None,
        }
    }
}

/// An index is entered in the list of indexes only after it was created.
pub proof fn law_only_created_indexes_are_listed(c: CreateIndexView, r: ReplyView)
    requires
        !(c.stage is Record),
    ensures
        create_index_next(c, r) is Record ==> c.stage is Create && !failed(r),
        create_index_next(c, r) is Created ==> c.stage is Created,
{
}

// ---- Dropping an index -----------------------------------------------------

/// How far the removal of an index has come.
#[derive(Debug)]
pub enum DropStage {
    /// Whether the index is in the list.
    Count,
    Drop,
    /// The index is taken out of the list.
    Forget,
    /// Whether there was something to drop.
    Dropped(bool),
    Refused(ApiError),
}

pub enum DropStageView {
    Count,
    Drop,
    Forget,
    Dropped(bool),
    Refused(ErrorView),
}

impl View for DropStage {
    type V = DropStageView;

    open spec fn view(&self) -> DropStageView {
        match *self {
            DropStage::Count => DropStageView::Count,
            DropStage::Drop => DropStageView::Drop,
            DropStage::Forget => DropStageView::Forget,
            DropStage::Dropped(b) => DropStageView::Dropped(b),
            DropStage::Refused(e) => DropStageView::Refused(e@),
        }
    }
}

/// The removal of an index in progress.
#[derive(Debug)]
pub struct DropIndex {
    name: String,
    stage: DropStage,
}

#[verifier::ext_equal]
pub struct DropIndexView {
    pub name: Seq<char>,
    pub stage: DropStageView,
}

impl View for DropIndex {
    type V = DropIndexView;

    closed spec fn view(&self) -> DropIndexView {
        DropIndexView { name: self.name@, stage: self.stage@ }
    }
}

pub open spec fn drop_index_statement(d: DropIndexView) -> Option<StatementView> {
    match d.stage {
        DropStageView::Count => Some(
            query_view(
                "SELECT count(*) FROM _indexes WHERE name = ?1"@,
                seq![ValueView::Text(d.name)],
            ),
        ),
        DropStageView::Drop => Some(batch_view("DROP INDEX IF EXISTS "@ + d.name)),
        DropStageView::Forget => Some(
            execute_view("DELETE FROM _indexes WHERE name = ?1"@, seq![ValueView::Text(d.name)]),
        ),
        _ => None,
    }
}

pub open spec fn drop_index_next(d: DropIndexView, r: ReplyView) -> DropStageView {
    match d.stage {
        DropStageView::Count => match presence(r) {
            Ok(true) => DropStageView::Drop,
            Ok(false) => DropStageView::Dropped(false),
            Err(e) => DropStageView::Refused(e),
        },
        DropStageView::Drop => if failed(r) {
            DropStageView::Refused(reply_error(r))
        } else {
            DropStageView::Forget
        },
        DropStageView::Forget => if failed(r) {
            DropStageView::Refused(reply_error(r))
        } else {
            DropStageView::Dropped(true)
        },
        over => over,
    }
}

impl DropIndex {
    pub open spec fn well_formed(self) -> bool {
        name_ok(self@.name)
    }

    pub fn start(name: String) -> (r: DropIndex)
        requires
            name_ok(name@),
        ensures
            r.well_formed(),
            r@ == (DropIndexView { name: name@, stage: DropStageView::Count }),
    {
        DropIndex { name, stage: DropStage::Count }
    }

    /// The statement to run next; none when the removal is over.
    pub fn statement(&self) -> (r: Option<Statement>)
        requires
            self.well_formed(),
        ensures
            match r {
                Some(s) => drop_index_statement(self@) == Some(s@),
                None => drop_index_statement(self@) is None,
            },
    {
        match &self.stage {
            DropStage::Count => Some(
                query(
                    "SELECT count(*) FROM _indexes WHERE name = ?1",
                    params1(text_value(self.name.as_str())),
                ),
            ),
            DropStage::Drop => {
                let sql = concat2("DROP INDEX IF EXISTS ", self.name.as_str());
                Some(batch(sql.as_str()))
            },
            DropStage::Forget => Some(
                execute(
                    "DELETE FROM _indexes WHERE name = ?1",
                    params1(text_value(self.name.as_str())),
                ),
            ),
            _ => None,
        }
    }

    /// Takes the reply to the statement.
    pub fn accept(&mut self, reply: &Reply)
        ensures
            final(self)@ == (DropIndexView {
                stage: drop_index_next(old(self)@, reply@),
                ..old(self)@
            }),
    {
        let next = match &self.stage {
            DropStage::Count => match is_present(reply) {
                Ok(b) => if b {
                    DropStage::Drop
                } else {
                    DropStage::Dropped(false)
                },
                Err(e) => DropStage::Refused(e),
            },
            DropStage::Drop => if reply.is_failed() {
                DropStage::Refused(reply.error())
            } else {
                DropStage::Forget
            },
            DropStage::Forget => if reply.is_failed() {
                DropStage::Refused(reply.error())
            } else {
                DropStage::Dropped(true)
            },
            _ => {
                return ;
            },
        };
        self.stage = next;
    }

    /// Whether there was something to drop, when that is known.
    pub fn result(self) -> (r: Option<ApiResult<bool>>)
        ensures
            match self@.stage {
                DropStageView::Dropped(b) => r matches Some(Ok(x)) && x == b,
                DropStageView::Refused(e) => r matches Some(Err(x)) && x@ == e,
                _ => r is None,
            },
    {
        match self.stage {
            DropStage::Dropped(b) => Some(Ok(b)),
            DropStage::Refused(e) => Some(Err(e)),
            _ => None,
        }
    }
}

// ---- Copying a database ----------------------------------------------------

/// `s` with every single quote written twice.
pub open spec fn doubled_quotes(s: Seq<char>) -> Seq<char>
    decreases s.len(),
{
    if s.len() == 0 {
        Seq::empty()
    } else if s.last() == '\'' {
        doubled_quotes(s.drop_last()) + seq!['\'', '\'']
    } else {
        doubled_quotes(s.drop_last()).push(s.last())
    }
}

/// What SQL reads between the quotes of a literal: two quotes stand for one, and
/// a lone one would end the literal.
pub open spec fn literal_content(s: Seq<char>) -> Option<Seq<char>>
    decreases s.len(),
{
    if s.len() == 0 {
        Some(Seq::empty())
    } else if s[0] != '\'' {
        match literal_content(s.skip(1)) {
            Some(t) => Some(seq![s[0]] + t),
            None => None,
        }
    } else if s.len() >= 2 && s[1] == '\'' {
        match literal_content(s.skip(2)) {
            Some(t) => Some(seq!['\''] + t),
            None => None,
        }
    } else {
        None
    }
}

fn double_quotes(s: &str) -> (r: String)
    ensures
        r@ == doubled_quotes(s@),
{
    let v = chars_of(s);
    let mut out = String::new();
    let mut i: usize = 0;
    assert(v@.take(0).len() == 0);
    while i < v.len()
        invariant
            v@ == s@,
            i <= v@.len(),
            out@ == doubled_quotes(v@.take(i as int)),
        decreases v@.len() - i,
    {
        assert(v@.take(i + 1).drop_last() =~= v@.take(i as int));
        assert(v@.take(i + 1).last() == v@[i as int]);
        let ghost before = out@;
        if v[i] == '\'' {
            out.push('\'');
            out.push('\'');
            assert(out@ =~= before + seq!['\'', '\'']);
        } else {
            out.push(v[i]);
        }
        i = i + 1;
    }
    assert(v@.take(v@.len() as int) =~= s@);
    out
}

/// Copies the database to the file `dest`. A keyed database is copied under its
/// own key.
pub fn snapshot_statement(dest: &str) -> (r: Statement)
    ensures
        r@ == batch_view("VACUUM INTO '"@ + doubled_quotes(dest@) + "'"@),
{
    let escaped = double_quotes(dest);
    let sql = concat3("VACUUM INTO '", escaped.as_str(), "'");
    batch(sql.as_str())
}

proof fn lemma_content_push(s: Seq<char>, t: Seq<char>, tail: Seq<char>, c: char)
    requires
        literal_content(s) == Some(t),
        (c != '\'' && tail == seq![c]) || (c == '\'' && tail == seq!['\'', '\'']),
    ensures
        literal_content(s + tail) == Some(t.push(c)),
    decreases s.len(),
{
    let all = s + tail;
    if s.len() == 0 {
        reveal_with_fuel(literal_content, 2);
        assert(all =~= tail);
        if c != '\'' {
            assert(tail.skip(1).len() == 0);
            assert(seq![c] + Seq::<char>::empty() =~= t.push(c));
        } else {
            assert(tail.skip(2).len() == 0);
            assert(seq!['\''] + Seq::<char>::empty() =~= t.push(c));
        }
    } else if s[0] != '\'' {
        assert(all.skip(1) =~= s.skip(1) + tail);
        if let Some(u) = literal_content(s.skip(1)) {
            lemma_content_push(s.skip(1), u, tail, c);
            assert(seq![s[0]] + u.push(c) =~= t.push(c));
        }
    } else {
        assert(all.skip(2) =~= s.skip(2) + tail);
        if let Some(u) = literal_content(s.skip(2)) {
            lemma_content_push(s.skip(2), u, tail, c);
            assert(seq!['\''] + u.push(c) =~= t.push(c));
        }
    }
}

/// The name of the file reaches the engine as it is: the literal in the statement
/// ends where it should, and reads as the name.
pub proof fn law_destination_is_quoted(dest: Seq<char>)
    ensures
        literal_content(doubled_quotes(dest)) == Some(dest),
    decreases dest.len(),
{
    if dest.len() > 0 {
        law_destination_is_quoted(dest.drop_last());
        let c = dest.last();
        let before = doubled_quotes(dest.drop_last());
        assert(dest =~= dest.drop_last().push(c));
        if c == '\'' {
            lemma_content_push(before, dest.drop_last(), seq!['\'', '\''], c);
        } else {
            lemma_content_push(before, dest.drop_last(), seq![c], c);
            assert(before + seq![c] =~= before.push(c));
        }
    }
}

/// Brings the write-ahead log back into the database, and empties it.
pub fn checkpoint_statement() -> (r: Statement)
    ensures
        r@ == batch_view("PRAGMA wal_checkpoint(TRUNCATE)"@),
{
    batch("PRAGMA wal_checkpoint(TRUNCATE)")
}

} // verus!
