//! The course that operations take.
//!
//! An operation is followed through the replies that the engine gives it, to what it comes
//! to: what it leaves in place, what is told of it, and where it ends early.

use crate::admin::{
    delete_next, grants_statement, list_asks, list_next, DeleteStageView, DeleteView,
    ListStageView, ListView,
};
use crate::auth::{authorize_next, AuthorizeStageView, AuthorizeView};
use crate::batch::{batch_next, batch_statement, reply_for, BatchStageView, BatchView, OpReplyView};
use crate::browser_auth::{after_check, may_try, Attempts};
use crate::data_op::{
    first_stage, op_next, op_outcome, op_over, DataOpView, OpKind, OutcomeView, RecordView,
};
use crate::documents::{fetch_answer, fetch_next, row_view, DocRowView, FetchStageView, FetchView};
use crate::errors::{code_status, ErrorView};
use crate::grants::{grant_next, GrantStageView, GrantView};
use crate::index_op::{
    create_index_next, create_index_statement, doubled_quotes, drop_index_next,
    drop_index_statement, CreateIndexView, CreateStageView, DropIndexView, DropStageView,
};
use crate::json::JsonView;
use crate::query_ep::{count_next, query_next, CountStageView, CountView, QueryView};
use crate::realtime::{EventView, Op};
use crate::rekey::{fits_phase, rekey_statements, RekeyAction, RekeyPhase, RekeyView};
use crate::sequence::{sequence_asks, sequence_next, statement_views, SequenceView};
use crate::sessions::{
    expiry_fits, reset_next, reset_statements, resolve_next, rotate_next, ResetStageView,
    ResetView, ResolveView, RotateStageView, RotateView, SeedView,
};
use crate::sql::{failed, Mode, ReplyView, StatementView, ValueView};
use crate::system::{
    found_user, principal_record, principals_readable, text_pair, PrincipalRecordView,
};
use crate::text::views;
use crate::tokens::{base64_char, base64url, byte_at, hex_char, hex_of, six_bits};
use crate::writer::{op_for, CommandView, WriterContext};
use vstd::prelude::*;

verus! {

// ---- Replies ---------------------------------------------------------------

/// The engine tells a number.
pub open spec fn number(n: i64) -> ReplyView {
    ReplyView::Rows(seq![seq![ValueView::Integer(n)]])
}

/// The engine tells a text.
pub open spec fn words(s: Seq<char>) -> ReplyView {
    ReplyView::Rows(seq![seq![ValueView::Text(s)]])
}

/// The engine finds nothing.
pub open spec fn nothing() -> ReplyView {
    ReplyView::Rows(Seq::empty())
}

/// The engine has changed so many rows, the last of them under this key.
pub open spec fn changes(rows: u64, key: i64) -> ReplyView {
    ReplyView::Changed { rows, last_rowid: key }
}

/// The engine refuses, over a value that is there already or for any other reason.
pub open spec fn refuses(unique: bool) -> ReplyView {
    ReplyView::Failed { unique }
}

// ---- Writes ----------------------------------------------------------------

/// A document that is created is in place under the fresh identifier, is announced as
/// created under the number of its change, and bears one time for both of its times.
pub proof fn law_course_of_a_creation(
    collection: Seq<char>,
    doc: JsonView,
    text: Seq<char>,
    fresh: Seq<char>,
    now: i64,
    ctx: WriterContext,
    inserted: i64,
    seq: i64,
)
    requires
        ctx.max_database_bytes == 0,
    ensures
        op_outcome(
            op_next(
                op_next(
                    op_next(
                        op_for(
                            CommandView::Create { collection, doc, doc_text: text },
                            fresh,
                            now,
                            ctx,
                        ),
                        ReplyView::Done,
                    ),
                    changes(1, inserted),
                ),
                changes(1, seq),
            ),
        ) == (OutcomeView::Written {
            rec: RecordView { id: fresh, created_at: now, updated_at: now, doc },
            created: true,
            event: EventView { seq, collection, op: Op::Insert, id: fresh, doc: Some(doc) },
        }),
{
}

/// A document that is replaced keeps its identifier and the time at which it was created,
/// and is announced as updated.
pub proof fn law_course_of_a_replacement(
    collection: Seq<char>,
    id: Seq<char>,
    doc: JsonView,
    text: Seq<char>,
    fresh: Seq<char>,
    now: i64,
    ctx: WriterContext,
    created: i64,
    key: i64,
    seq: i64,
)
    requires
        ctx.max_database_bytes == 0,
    ensures
        op_outcome(
            op_next(
                op_next(
                    op_next(
                        op_next(
                            op_for(
                                CommandView::Replace { collection, id, doc, doc_text: text },
                                fresh,
                                now,
                                ctx,
                            ),
                            ReplyView::Done,
                        ),
                        number(created),
                    ),
                    changes(1, key),
                ),
                changes(1, seq),
            ),
        ) == (OutcomeView::Written {
            rec: RecordView { id, created_at: created, updated_at: now, doc },
            created: false,
            event: EventView { seq, collection, op: Op::Update, id, doc: Some(doc) },
        }),
{
}

/// A document that is put where there was none is created under the given identifier.
pub proof fn law_course_of_a_first_put(
    collection: Seq<char>,
    id: Seq<char>,
    doc: JsonView,
    text: Seq<char>,
    fresh: Seq<char>,
    now: i64,
    ctx: WriterContext,
    key: i64,
    seq: i64,
)
    requires
        ctx.max_database_bytes == 0,
    ensures
        op_outcome(
            op_next(
                op_next(
                    op_next(
                        op_next(
                            op_for(
                                CommandView::Replace { collection, id, doc, doc_text: text },
                                fresh,
                                now,
                                ctx,
                            ),
                            ReplyView::Done,
                        ),
                        nothing(),
                    ),
                    changes(1, key),
                ),
                changes(1, seq),
            ),
        ) == (OutcomeView::Written {
            rec: RecordView { id, created_at: now, updated_at: now, doc },
            created: true,
            event: EventView { seq, collection, op: Op::Insert, id, doc: Some(doc) },
        }),
{
}

/// A document that is deleted is announced as deleted, without a document; where the
/// collection or the document is not there, nothing is announced.
pub proof fn law_course_of_a_deletion(
    collection: Seq<char>,
    id: Seq<char>,
    fresh: Seq<char>,
    now: i64,
    ctx: WriterContext,
    key: i64,
    seq: i64,
)
    ensures
        ({
            let o = op_for(CommandView::Delete { collection, id }, fresh, now, ctx);
            &&& op_outcome(
                op_next(op_next(op_next(o, number(1)), changes(1, key)), changes(1, seq)),
            ) == OutcomeView::Deleted(
                EventView { seq, collection, op: Op::Delete, id, doc: None },
            )
            &&& op_outcome(op_next(o, number(0))) is Missing
            &&& op_outcome(op_next(op_next(o, number(1)), changes(0, key))) is Missing
        }),
{
}

/// A write that the engine refuses ends with the error of the refusal. Only a lookup that
/// fails does not end it.
pub proof fn law_refusal_ends_a_write(o: DataOpView, unique: bool)
    requires
        !(o.stage is Lookup || o.stage is Finished || o.stage is Missing || o.stage is Refused),
    ensures
        op_outcome(op_next(o, refuses(unique))) matches OutcomeView::Refused(e) && code_status(
            e.code,
        ) == (if unique {
            409u16
        } else {
            500u16
        }),
{
}

/// Where there is a limit, a document enters only a database whose pages take fewer bytes;
/// one that is full refuses it as too large.
pub proof fn law_full_database_takes_no_document(o: DataOpView, pages: i64, size: i64)
    requires
        o.stage is PageCount,
        pages >= 0,
        size >= 0,
    ensures
        pages * size < o.max_bytes ==> op_next(op_next(o, number(pages)), number(size)).stage
            is Ensure,
        pages * size >= o.max_bytes ==> (op_outcome(
            op_next(op_next(o, number(pages)), number(size)),
        ) matches OutcomeView::Refused(e) && code_status(e.code) == 413),
{
}

/// The size of the database is asked for exactly when there is a limit and a document is to
/// be put; a deletion is never held up by it.
pub proof fn law_size_is_asked_for_where_it_matters(kind: OpKind, max: u64)
    ensures
        first_stage(kind, max) is PageCount <==> max != 0 && kind != OpKind::Delete,
        kind == OpKind::Delete ==> first_stage(kind, max) is Present,
        max == 0 && kind != OpKind::Delete ==> first_stage(kind, max) is Ensure,
{
}

/// A client is told what its write came to where the batch was committed, and otherwise
/// that it failed; that there was nothing to delete, and why a write was refused, is told
/// either way.
pub proof fn law_client_is_told_the_outcome(
    rec: RecordView,
    created: bool,
    event: EventView,
    e: ErrorView,
    committed: bool,
)
    ensures
        reply_for(OutcomeView::Written { rec, created, event }, true) == (OpReplyView::Written {
            rec,
            created,
        }),
        reply_for(OutcomeView::Deleted(event), true) == OpReplyView::Deleted(true),
        reply_for(OutcomeView::Missing, committed) == OpReplyView::Deleted(false),
        reply_for(OutcomeView::Refused(e), committed) == OpReplyView::Failed(e),
        reply_for(OutcomeView::Written { rec, created, event }, false) matches OpReplyView::Failed(
            f,
        ) && code_status(f.code) == 500,
        reply_for(OutcomeView::Deleted(event), false) matches OpReplyView::Failed(f)
            && code_status(f.code) == 500,
{
}

// ---- Transactions ----------------------------------------------------------

/// A step of a transaction.
pub enum Step {
    /// The transaction begins, and shuts out other writers.
    Begin,
    /// What there is now is kept under a name.
    Mark,
    /// What was marked last is brought back; the mark stays.
    Back,
    /// The last mark is taken away; what there is stays.
    Unmark,
    /// What there is becomes permanent.
    Keep,
    /// What there was at the beginning is brought back.
    Undo,
}

pub open spec fn step_text(s: Step) -> Seq<char> {
    match s {
        Step::Begin => "BEGIN IMMEDIATE"@,
        Step::Mark => "SAVEPOINT sp"@,
        Step::Back => "ROLLBACK TO sp"@,
        Step::Unmark => "RELEASE sp"@,
        Step::Keep => "COMMIT"@,
        Step::Undo => "ROLLBACK"@,
    }
}

/// What a database holds, and what it would go back to: the marks of the transaction, the
/// first of them its beginning.
pub struct Held<T> {
    pub now: T,
    pub marks: Seq<T>,
}

pub open spec fn stepped<T>(h: Held<T>, s: Step) -> Held<T> {
    match s {
        Step::Begin => Held { now: h.now, marks: seq![h.now] },
        Step::Mark => Held { now: h.now, marks: h.marks.push(h.now) },
        Step::Back => Held { now: h.marks.last(), marks: h.marks },
        Step::Unmark => Held { now: h.now, marks: h.marks.drop_last() },
        Step::Keep => Held { now: h.now, marks: Seq::empty() },
        Step::Undo => Held { now: h.marks[0], marks: Seq::empty() },
    }
}

/// The statement takes a database from the one state to the other, by one step or by two.
pub open spec fn takes<T>(s: StatementView, from: Held<T>, to: Held<T>) -> bool {
    &&& s.mode == Mode::Batch
    &&& {
        ||| exists|a: Step| s.sql == #[trigger] step_text(a) && stepped(from, a) == to
        ||| exists|a: Step, b: Step|
            s.sql == #[trigger] step_text(a) + "; "@ + #[trigger] step_text(b) && stepped(
                stepped(from, a),
                b,
            ) == to
    }
}

/// A write of a batch that is kept leaves what it made of the database; one that is taken
/// back leaves what there was before it. Either way the batch goes on as if no savepoint
/// had been set.
pub proof fn law_writes_are_kept_or_taken_back<T>(
    b: BatchView,
    start: T,
    before: T,
    after: T,
)
    ensures
        b.stage is Savepoint ==> takes(
            batch_statement(b)->0,
            Held { now: before, marks: seq![start] },
            Held { now: before, marks: seq![start, before] },
        ),
        b.stage == (BatchStageView::Release { keep: true }) ==> takes(
            batch_statement(b)->0,
            Held { now: after, marks: seq![start, before] },
            Held { now: after, marks: seq![start] },
        ),
        b.stage == (BatchStageView::Release { keep: false }) ==> takes(
            batch_statement(b)->0,
            Held { now: after, marks: seq![start, before] },
            Held { now: before, marks: seq![start] },
        ),
{
    let inner = Held { now: after, marks: seq![start, before] };
    let outer = Held { now: before, marks: seq![start] };
    assert(outer.marks.push(before) =~= seq![start, before]);
    assert(stepped(outer, Step::Mark) == Held { now: before, marks: seq![start, before] });
    assert(inner.marks.drop_last() =~= seq![start]);
    assert(stepped(inner, Step::Unmark) == Held { now: after, marks: seq![start] });
    assert(stepped(stepped(inner, Step::Back), Step::Unmark) == outer);
    reveal_strlit("ROLLBACK TO sp; RELEASE sp");
    reveal_strlit("ROLLBACK TO sp");
    reveal_strlit("RELEASE sp");
    reveal_strlit("; ");
    assert(step_text(Step::Back) + "; "@ + step_text(Step::Unmark)
        =~= "ROLLBACK TO sp; RELEASE sp"@);
    assert(step_text(Step::Mark) == "SAVEPOINT sp"@);
}

/// A batch begins by marking what there is. A commit leaves what the writes made of it, and
/// a rollback what there was at the beginning.
pub proof fn law_batch_is_one_transaction<T>(b: BatchView, start: T, now: T)
    ensures
        b.stage is Begin ==> takes(
            batch_statement(b)->0,
            Held { now: start, marks: Seq::empty() },
            Held { now: start, marks: seq![start] },
        ),
        b.stage is Commit ==> takes(
            batch_statement(b)->0,
            Held { now, marks: seq![start] },
            Held { now, marks: Seq::empty() },
        ),
        b.stage is Rollback ==> takes(
            batch_statement(b)->0,
            Held { now, marks: seq![start] },
            Held { now: start, marks: Seq::empty() },
        ),
{
    assert(step_text(Step::Begin) == "BEGIN IMMEDIATE"@);
    assert(step_text(Step::Keep) == "COMMIT"@);
    assert(step_text(Step::Undo) == "ROLLBACK"@);
    assert(stepped(Held { now: start, marks: Seq::empty() }, Step::Begin) == Held {
        now: start,
        marks: seq![start],
    });
}

// ---- Reading ---------------------------------------------------------------

/// A document is read from a collection that is there and answered with what the row says;
/// where the collection or the row is missing, the answer is 404.
pub proof fn law_course_of_a_read(f: FetchView, row: Seq<ValueView>, found: DocRowView, doc: JsonView)
    requires
        f.stage is Exists,
        row_view(row) == Some(found),
    ensures
        ({
            let there = FetchView { stage: fetch_next(f, number(1)), ..f };
            &&& there.stage is Select
            &&& fetch_next(there, ReplyView::Rows(seq![row])) == FetchStageView::Found(found)
            &&& fetch_answer(FetchStageView::Found(found), Some(doc)) matches Ok(a) && a.status
                == 200
            &&& fetch_answer(fetch_next(there, nothing()), None) matches Err(e) && code_status(
                e.code,
            ) == 404
            &&& fetch_answer(fetch_next(f, number(0)), None) matches Err(e) && code_status(e.code)
                == 404
        }),
{
    let there = FetchView { stage: fetch_next(f, number(1)), ..f };
    assert(seq![row][0] == row);
}

/// A row of a collection says its identifier, the text of its document, and its two times,
/// in this order.
pub proof fn law_row_of_a_collection(
    row: Seq<ValueView>,
    id: Seq<char>,
    text: Seq<char>,
    created: i64,
    updated: i64,
)
    requires
        row == seq![
            ValueView::Text(id),
            ValueView::Text(text),
            ValueView::Integer(created),
            ValueView::Integer(updated),
        ],
    ensures
        row_view(row) == Some(
            DocRowView { id, doc_text: text, created_at: created, updated_at: updated },
        ),
{
}

/// A collection that is not there holds nothing: a query finds an empty page, and the count
/// is zero. Of one that is there the engine is asked, and its number is the count.
pub proof fn law_missing_collection_is_empty(q: QueryView, c: CountView, n: i64)
    requires
        q.stage is Exists,
        c.stage is Exists,
    ensures
        query_next(q, number(0)) is Absent,
        query_next(q, number(1)) is Select,
        count_next(c, number(0)) == CountStageView::Counted(0),
        count_next(c, number(1)) is Select,
        count_next(CountView { stage: CountStageView::Select, ..c }, number(n))
            == CountStageView::Counted(n),
{
}

// ---- Indexes ---------------------------------------------------------------

/// An index is recorded once it is made. Where existing values are equal, a unique index is
/// a conflict, and nothing is recorded.
pub proof fn law_course_of_an_index(c: CreateIndexView, key: i64)
    requires
        c.stage is Create,
    ensures
        create_index_next(c, ReplyView::Done) is Record,
        create_index_next(c, refuses(true)) matches CreateStageView::Refused(e) && code_status(
            e.code,
        ) == 409,
        create_index_next(c, refuses(false)) matches CreateStageView::Refused(e) && code_status(
            e.code,
        ) == 500,
        create_index_next(
            CreateIndexView { stage: CreateStageView::Record, ..c },
            changes(1, key),
        ) is Created,
        create_index_statement(
            CreateIndexView { stage: create_index_next(c, refuses(true)), ..c },
        ) is None,
{
}

/// An index that is there is dropped and then forgotten; of one that is not, nothing is
/// asked further, and it is told that it was not there.
pub proof fn law_course_of_a_dropped_index(d: DropIndexView, key: i64)
    requires
        d.stage is Count,
    ensures
        drop_index_next(d, number(0)) == DropStageView::Dropped(false),
        ({
            let there = DropIndexView { stage: drop_index_next(d, number(1)), ..d };
            let gone = DropIndexView { stage: drop_index_next(there, ReplyView::Done), ..d };
            &&& drop_index_statement(there) matches Some(s) && s.mode == Mode::Batch && s.sql
                == "DROP INDEX IF EXISTS "@ + d.name
            &&& gone.stage is Forget
            &&& drop_index_next(gone, changes(1, key)) == DropStageView::Dropped(true)
        }),
{
}

// ---- Grants and databases --------------------------------------------------

/// An operator's grant is stored for the one principal that is meant, on a database that is
/// there, and then told; on a database that is not there nothing is granted.
pub proof fn law_course_of_a_grant(g: GrantView, id: Seq<char>, key: i64)
    requires
        g.stage is Database,
    ensures
        grant_next(g, number(0)) is Refused,
        ({
            let known = GrantView { stage: grant_next(g, number(1)), ..g };
            let found = GrantView { stage: grant_next(known, words(id)), ..g };
            &&& known.stage == GrantStageView::Resolve(ResolveView::ById)
            &&& found.stage == GrantStageView::Store(id)
            &&& grant_next(found, changes(1, key)) == GrantStageView::Granted(id)
            &&& grant_next(found, refuses(false)) is Refused
        }),
{
}

/// A principal is meant by its identifier, or else by a name that one principal has; a name
/// that nobody has, or that several have, means nobody.
pub proof fn law_who_is_meant(a: Seq<char>, b: Seq<char>)
    ensures
        resolve_next(ResolveView::ById, words(a)) == ResolveView::Resolved(a),
        resolve_next(ResolveView::ById, nothing()) is ByName,
        resolve_next(ResolveView::ByName, words(a)) == ResolveView::Resolved(a),
        resolve_next(ResolveView::ByName, nothing()) is Unknown,
        resolve_next(
            ResolveView::ByName,
            ReplyView::Rows(seq![seq![ValueView::Text(a)], seq![ValueView::Text(b)]]),
        ) == ResolveView::Ambiguous(2),
{
    let rows = seq![seq![ValueView::Text(a)], seq![ValueView::Text(b)]];
    assert(rows.len() == 2);
    assert(rows[0] == seq![ValueView::Text(a)] && rows[1] == seq![ValueView::Text(b)]);
}

/// A database that is not there is answered 404, and nothing is removed; the files of one
/// that is there go before its records.
pub proof fn law_course_of_a_removal(s: DeleteView)
    requires
        s.stage is Exists,
    ensures
        delete_next(s, number(0)) matches DeleteStageView::Refused(e) && code_status(e.code) == 404,
        delete_next(s, number(1)) is Files,
        delete_next(s, nothing()) matches DeleteStageView::Refused(e) && code_status(e.code) == 500,
{
}

// ---- Sessions --------------------------------------------------------------

/// A session is renewed for the principal that the old one was of, and only where the old
/// one was found and ended; the new secrets are made of the three seeds.
pub proof fn law_course_of_a_renewal(s: RotateView, id: Seq<char>, seed: SeedView)
    requires
        s.stage is Find,
        expiry_fits(seed.now, s.access_ttl),
        expiry_fits(seed.now, s.refresh_ttl),
    ensures
        rotate_next(s, nothing(), seed) is Unknown,
        ({
            let found = RotateView { stage: rotate_next(s, words(id), seed), ..s };
            &&& found.stage == RotateStageView::Drop(id)
            &&& rotate_next(found, refuses(false), seed) is Refused
            &&& rotate_next(found, ReplyView::Done, seed) matches RotateStageView::Issue {
                id: who,
                run,
            } && who == id && run.tokens.access == base64url(seed.access) && run.tokens.refresh
                == base64url(seed.refresh) && run.tokens.csrf == base64url(seed.csrf)
        }),
{
}

/// A list of statements is run in its order, one after the other, and no further than the
/// first that is refused.
pub proof fn law_statements_run_in_order(s: SequenceView, r: ReplyView)
    requires
        !s.refused,
        s.todo.len() > 0,
    ensures
        sequence_asks(s) == Some(s.todo[0]),
        !failed(r) && s.todo.len() > 1 ==> sequence_asks(sequence_next(s, r)) == Some(s.todo[1]),
        failed(r) ==> sequence_asks(sequence_next(s, r)) is None,
{
}

// ---- Secrets ---------------------------------------------------------------

/// The value of a symbol of the base 64 alphabet for URLs.
pub open spec fn symbol_value(c: char) -> int {
    if 'A' <= c <= 'Z' {
        c as int - 'A' as int
    } else if 'a' <= c <= 'z' {
        c as int - 'a' as int + 26
    } else if '0' <= c <= '9' {
        c as int - '0' as int + 52
    } else if c == '-' {
        62
    } else {
        63
    }
}

/// A character that may stand in a URL as it is.
pub open spec fn url_symbol(c: char) -> bool {
    'A' <= c <= 'Z' || 'a' <= c <= 'z' || '0' <= c <= '9' || c == '-' || c == '_'
}

proof fn lemma_symbol(n: int)
    requires
        0 <= n < 64,
    ensures
        symbol_value(base64_char(n)) == n,
        url_symbol(base64_char(n)),
{
}

proof fn lemma_three_bytes(a: int, b: int, c: int, d: int)
    requires
        0 <= a < 256,
        0 <= b < 256,
        0 <= c < 256,
        0 <= d < 256,
    ensures
        (((a * 256 + b) / 1024) % 64) * 262144 + (((a * 256 + b) / 16) % 64) * 4096 + (((b * 256
            + c) / 64) % 64) * 64 + (((c * 256 + d) / 256) % 64) == a * 65536 + b * 256 + c,
{
    assert((a * 256 + b) / 1024 == a / 4);
    assert((a / 4) % 64 == a / 4);
    assert((a * 256 + b) / 16 == a * 16 + b / 16);
    assert((a * 16 + b / 16) % 64 == (a % 4) * 16 + b / 16);
    assert((b * 256 + c) / 64 == b * 4 + c / 64);
    assert((b * 4 + c / 64) % 64 == (b % 16) * 4 + c / 64);
    assert((c * 256 + d) / 256 == c);
}

/// A token is written in the symbols that may stand in a URL, each for six bits: four of
/// them are the three bytes that they were made of.
pub proof fn law_tokens_are_base64(data: Seq<u8>, k: int)
    requires
        0 <= k,
        3 * k + 2 < data.len(),
    ensures
        base64url(data).len() * 6 >= data.len() * 8,
        base64url(data).len() * 6 < data.len() * 8 + 6,
        symbol_value(base64url(data)[4 * k]) * 262144 + symbol_value(base64url(data)[4 * k + 1])
            * 4096 + symbol_value(base64url(data)[4 * k + 2]) * 64 + symbol_value(
            base64url(data)[4 * k + 3],
        ) == data[3 * k] * 65536 + data[3 * k + 1] * 256 + data[3 * k + 2],
        forall|i: int|
            0 <= i < base64url(data).len() ==> url_symbol(#[trigger] base64url(data)[i]),
{
    let (a, b, c) = (data[3 * k] as int, data[3 * k + 1] as int, data[3 * k + 2] as int);
    let d = byte_at(data, 3 * k + 3);
    assert(0 <= d < 256);
    let text = base64url(data);
    assert(text[4 * k] == base64_char(six_bits(data, 4 * k)));
    assert(text[4 * k + 1] == base64_char(six_bits(data, 4 * k + 1)));
    assert(text[4 * k + 2] == base64_char(six_bits(data, 4 * k + 2)));
    assert(text[4 * k + 3] == base64_char(six_bits(data, 4 * k + 3)));
    assert(six_bits(data, 4 * k) == ((a * 256 + b) / 1024) % 64) by {
        assert((6 * (4 * k)) / 8 == 3 * k && (6 * (4 * k)) % 8 == 0);
    }
    assert(six_bits(data, 4 * k + 1) == ((a * 256 + b) / 16) % 64) by {
        assert((6 * (4 * k + 1)) / 8 == 3 * k && (6 * (4 * k + 1)) % 8 == 6);
    }
    assert(six_bits(data, 4 * k + 2) == ((b * 256 + c) / 64) % 64) by {
        assert((6 * (4 * k + 2)) / 8 == 3 * k + 1 && (6 * (4 * k + 2)) % 8 == 4);
    }
    assert(six_bits(data, 4 * k + 3) == ((c * 256 + d) / 256) % 64) by {
        assert((6 * (4 * k + 3)) / 8 == 3 * k + 2 && (6 * (4 * k + 3)) % 8 == 2);
    }
    lemma_three_bytes(a, b, c, d);
    lemma_symbol(((a * 256 + b) / 1024) % 64);
    lemma_symbol(((a * 256 + b) / 16) % 64);
    lemma_symbol(((b * 256 + c) / 64) % 64);
    lemma_symbol(((c * 256 + d) / 256) % 64);
    assert forall|i: int| 0 <= i < text.len() implies url_symbol(#[trigger] text[i]) by {
        assert(text[i] == base64_char(six_bits(data, i)));
        lemma_symbol(six_bits(data, i));
    }
}

/// The value of a hexadecimal digit.
pub open spec fn hex_value(c: char) -> int {
    if '0' <= c <= '9' {
        c as int - '0' as int
    } else {
        c as int - 'a' as int + 10
    }
}

/// A hash is written in hexadecimal digits, in lower case, two for each byte with the
/// greater first.
pub proof fn law_hashes_are_hexadecimal(data: Seq<u8>, k: int)
    requires
        0 <= k < data.len(),
    ensures
        hex_of(data).len() == 2 * data.len(),
        hex_value(hex_of(data)[2 * k]) * 16 + hex_value(hex_of(data)[2 * k + 1]) == data[k],
        forall|i: int|
            0 <= i < hex_of(data).len() ==> ('0' <= #[trigger] hex_of(data)[i] <= '9' || 'a'
                <= hex_of(data)[i] <= 'f'),
{
    assert forall|n: int| 0 <= n < 16 implies hex_value(#[trigger] hex_char(n)) == n && ('0'
        <= hex_char(n) <= '9' || 'a' <= hex_char(n) <= 'f') by {}
    assert((2 * k) % 2 == 0 && (2 * k) / 2 == k);
    assert((2 * k + 1) % 2 == 1 && (2 * k + 1) / 2 == k);
    assert forall|i: int| 0 <= i < hex_of(data).len() implies ('0' <= #[trigger] hex_of(data)[i]
        <= '9' || 'a' <= hex_of(data)[i] <= 'f') by {
        let n = if i % 2 == 0 {
            data[i / 2] as int / 16
        } else {
            data[i / 2] as int % 16
        };
        assert(0 <= n < 16);
        assert(hex_of(data)[i] == hex_char(n));
    }
}

// ---- Passwords and listings ------------------------------------------------

/// A password is set for the user that was found, and for nobody where none was.
pub proof fn law_course_of_a_reset(s: ResetView, id: Seq<char>)
    requires
        s.stage is Find,
    ensures
        reset_next(s, words(id)) matches ResetStageView::Steps { id: who, run } && who == id
            && !run.refused && run.todo == reset_statements(id, s.password_hash),
        reset_next(s, nothing()) is Unknown,
{
}

/// A listing reads the principals, one for each row, and then the grants of each of them in
/// turn; it is over when it has those of all.
pub proof fn law_course_of_a_listing(
    s: ListView,
    rows: Seq<Seq<ValueView>>,
    principals: Seq<PrincipalRecordView>,
    grants: Seq<Seq<(Seq<char>, Seq<char>)>>,
    id: Seq<char>,
    role: Seq<char>,
)
    ensures
        s.stage is Principals && principals_readable(rows) ==> (list_next(
            s,
            ReplyView::Rows(rows),
        ) matches ListStageView::Grants { principals: found, grants: none } && none.len() == 0
            && found.len() == rows.len() && forall|i: int|
            0 <= i < rows.len() ==> Some(#[trigger] found[i]) == principal_record(rows[i])),
        s.stage == (ListStageView::Grants { principals, grants }) && grants.len() < principals.len()
            ==> list_asks(s) == Some(grants_statement(principals[grants.len() as int].id)),
        s.stage == (ListStageView::Grants { principals, grants }) && grants.len() < principals.len()
            ==> list_next(
            s,
            ReplyView::Rows(seq![seq![ValueView::Text(id), ValueView::Text(role)]]),
        ) == (ListStageView::Grants { principals, grants: grants.push(seq![(id, role)]) }),
        s.stage == (ListStageView::Grants { principals, grants }) && grants.len()
            == principals.len() ==> list_asks(s) is None,
        s.stage is Principals ==> (list_next(s, refuses(false)) matches ListStageView::Refused(e)
            && code_status(e.code) == 500),
{
    let one = seq![seq![ValueView::Text(id), ValueView::Text(role)]];
    assert(one[0] == seq![ValueView::Text(id), ValueView::Text(role)]);
    assert(text_pair(one[0]) == Some((id, role)));
    assert(Seq::new(one.len(), |i: int| text_pair(one[i])->0) =~= seq![(id, role)]);
}

/// The user who signs in is read from the row that was found: the identifier, and the hash
/// of the password.
pub proof fn law_user_is_read(id: Seq<char>, hash: Seq<char>)
    ensures
        found_user(ReplyView::Rows(seq![seq![ValueView::Text(id), ValueView::Text(hash)]])) == Ok::<
            Option<(Seq<char>, Seq<char>)>,
            ErrorView,
        >(Some((id, hash))),
        found_user(nothing()) == Ok::<Option<(Seq<char>, Seq<char>)>, ErrorView>(None),
        found_user(refuses(false)) is Err,
{
    let rows = seq![seq![ValueView::Text(id), ValueView::Text(hash)]];
    assert(rows[0] == seq![ValueView::Text(id), ValueView::Text(hash)]);
}

/// Asking whether a login may be tried changes nothing of what may be.
pub proof fn law_asking_changes_nothing(
    m: Map<Seq<char>, Attempts>,
    key: Seq<char>,
    other: Seq<char>,
    now: u64,
    later: u64,
)
    requires
        now <= later,
    ensures
        may_try(after_check(m, key, now), key, now) == may_try(m, key, now),
        other != key ==> may_try(after_check(m, key, now), other, later) == may_try(m, other, later),
        may_try(m, key, now) ==> may_try(after_check(m, key, now), key, later),
{
}

// ---- New keys --------------------------------------------------------------

/// Each file is copied into its own backup, given the new key, and, where that fails,
/// restored from that very backup; the key is stored by itself.
pub proof fn law_each_file_has_its_backup(s: RekeyView, a: RekeyAction, key: Seq<char>)
    requires
        fits_phase(s, Some(a), key),
    ensures
        match (s.phase, a) {
            (RekeyPhase::Backup(i), RekeyAction::Backup { file, statement }) => file@
                == s.files[i as int] && statement@.mode == Mode::Batch && statement@.sql
                == "VACUUM INTO '"@ + doubled_quotes(s.backups[i as int]) + "'"@,
            (RekeyPhase::Rekey(i), RekeyAction::Rekey { file, statements }) => file@
                == s.files[i as int] && statement_views(statements@) == rekey_statements(key),
            (RekeyPhase::Restore(i), RekeyAction::Restore { file, backup, stale }) => file@
                == s.files[i as int] && backup@ == s.backups[i as int] && views(stale@).len() == 2,
            (RekeyPhase::Persist, RekeyAction::Persist) => true,
            _ => false,
        },
{
}

// ---- Batches ---------------------------------------------------------------

/// A batch is told as committed exactly where its commit succeeded; a commit that fails is
/// rolled back. One that cannot begin fails every one of its commands.
pub proof fn law_course_of_a_batch(b: BatchView, unique: bool, fresh: Seq<char>, now: i64)
    ensures
        b.stage is Commit ==> batch_next(b, ReplyView::Done, fresh, now).stage == (
        BatchStageView::Settled { committed: true }),
        b.stage is Commit ==> batch_next(b, refuses(unique), fresh, now).stage is Rollback,
        b.stage is Rollback ==> batch_next(b, ReplyView::Done, fresh, now).stage == (
        BatchStageView::Settled { committed: false }),
        b.stage is Rollback ==> batch_next(b, refuses(unique), fresh, now).stage == (
        BatchStageView::Settled { committed: false }),
        b.stage is Begin ==> ({
            let after = batch_next(b, refuses(unique), fresh, now);
            &&& after.stage == (BatchStageView::Settled { committed: false })
            &&& after.outcomes.len() == b.todo.len()
            &&& forall|i: int|
                0 <= i < b.todo.len() ==> ((#[trigger] after.outcomes[i]) matches OutcomeView::Refused(
                    e,
                ) && code_status(e.code) == 500)
        }),
        b.stage is Begin && b.todo.len() > 0 ==> batch_next(b, ReplyView::Done, fresh, now).stage
            is Savepoint,
        b.stage is Begin && b.todo.len() == 0 ==> batch_next(b, ReplyView::Done, fresh, now).stage
            is Commit,
        b.stage is Release && b.todo.len() > 0 ==> batch_next(b, ReplyView::Done, fresh, now).stage
            is Savepoint,
        b.stage is Release && b.todo.len() == 0 ==> batch_next(b, ReplyView::Done, fresh, now).stage
            is Commit,
{
}

/// A write that is over is kept exactly when it was not refused, and what it came to is
/// what is told of it.
pub proof fn law_course_of_a_write_in_a_batch(
    b: BatchView,
    op: DataOpView,
    r: ReplyView,
    fresh: Seq<char>,
    now: i64,
)
    requires
        b.stage == BatchStageView::Running(op),
    ensures
        op_over(op_next(op, r)) ==> ({
            let after = batch_next(b, r, fresh, now);
            &&& after.stage == (BatchStageView::Release {
                keep: !(op_outcome(op_next(op, r)) is Refused),
            })
            &&& after.outcomes == b.outcomes.push(op_outcome(op_next(op, r)))
        }),
        !op_over(op_next(op, r)) ==> batch_next(b, r, fresh, now).stage == BatchStageView::Running(
            op_next(op, r),
        ),
{
}

// ---- Access ----------------------------------------------------------------

/// Whoever lacks the role is answered 403, and a database that is not there is answered
/// 404, also to those who would have no right to it.
pub proof fn law_access_is_refused(a: AuthorizeView, word: Seq<char>)
    ensures
        a.stage is Exists ==> (authorize_next(a, number(0)) matches AuthorizeStageView::Refused(e)
            && code_status(e.code) == 404),
        a.stage is Grant && !(a.need is Exists) ==> (authorize_next(a, nothing())
            matches AuthorizeStageView::Refused(e) && code_status(e.code) == 403),
        a.stage is Grant && a.need is Snapshot ==> (authorize_next(a, words("admin"@)) is Allowed),
        a.stage is Grant && a.need is Snapshot && word != "admin"@ ==> (authorize_next(
            a,
            words(word),
        ) matches AuthorizeStageView::Refused(e) && code_status(e.code) == 403),
{
    reveal_strlit("read");
    reveal_strlit("write");
    reveal_strlit("admin");
    assert("read"@[0] == 'r' && "write"@[0] == 'w' && "admin"@[0] == 'a');
}

} // verus!
