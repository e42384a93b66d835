//! What a read gives back of a write.
//!
//! The engine keeps what a statement binds and hands it back; that is its part. Here
//! it is shown that the library closes the circle: of a row that holds what a write
//! bound, a later read makes the very record, event, or principal that the write was
//! answered with.

use crate::auth::{auth_asks, auth_next, AuthStageView, AuthView, PrincipalView};
use crate::batch::OpReplyView;
use crate::data_op::{op_next, op_outcome, op_statement, DataOpView, OutcomeView, StageView};
use crate::documents::{
    envelope_view, fetch_answer, fetch_next, write_answer, AnswerView, FetchStageView, FetchView,
};
use crate::errors::{not_found_error, ErrorView};
use crate::json::JsonView;
use crate::query_ep::{query_next, query_page, readable, PageView, QueryView};
use crate::realtime::{
    law_op_names_are_read_back, law_unfiltered_replay_is_complete, log_readable, log_row,
    resume_next, resume_plan, EventView, Op, PlanView, ResumeView,
};
use crate::sessions::{issue_statements, rotate_asks, RotateView, TokenSetView};
use crate::sql::{changed_rows, failed, last_rowid, reply_rows, ReplyView, ValueView};
use crate::system::{access_token_statement, insert_principal};
use vstd::prelude::*;

verus! {

// ---- Documents -------------------------------------------------------------

/// The row that a write puts in place: the cells are what its statement binds, and
/// one that is replaced keeps its time of creation. The engine may write the JSON of
/// the document in another way, so the text is what it makes of it.
pub open spec fn row_in_place(o: DataOpView, text: Seq<char>) -> Seq<ValueView> {
    let bound = op_statement(o)->0.params;
    match o.stage {
        StageView::Update(created_at) => seq![
            bound[2],
            ValueView::Text(text),
            ValueView::Integer(created_at),
            bound[1],
        ],
        _ => seq![bound[0], ValueView::Text(text), bound[2], bound[2]],
    }
}

/// The write puts a document in place.
pub open spec fn puts(o: DataOpView) -> bool {
    o.stage is Insert || o.stage is Update
}

/// A document that was written is read back as it was answered: with the same
/// identifier, the same times, and the same content.
pub proof fn law_written_document_is_read_back(
    o: DataOpView,
    put: ReplyView,
    logged: ReplyView,
    f: FetchView,
    found: ReplyView,
    text: Seq<char>,
)
    requires
        puts(o),
        !failed(put),
        !failed(logged),
        f.stage is Select,
        reply_rows(found) == seq![row_in_place(o, text)],
    ensures
        ({
            let end = op_next(op_next(o, put), logged);
            let after = fetch_next(f, found);
            op_outcome(end) matches OutcomeView::Written { rec, created, .. } && {
                &&& rec.id == o.id
                &&& rec.doc == o.doc
                &&& after matches FetchStageView::Found(row) && row.doc_text == text
                &&& fetch_answer(after, Some(o.doc)) == Ok::<AnswerView, ErrorView>(
                    AnswerView { status: 200, body: Some(envelope_view(rec)) },
                )
                &&& write_answer(OpReplyView::Written { rec, created }) matches Ok(a) && a.body
                    == Some(envelope_view(rec))
            }
        }),
{
    let row = row_in_place(o, text);
    assert(reply_rows(found)[0] == row);
}

/// A document that was written stands on a page, whole, where the query that it
/// answers shows whole documents.
pub proof fn law_written_document_is_listed(
    o: DataOpView,
    put: ReplyView,
    logged: ReplyView,
    q: QueryView,
    selected: ReplyView,
    docs: Seq<Option<JsonView>>,
    text: Seq<char>,
    i: int,
    page: PageView,
)
    requires
        puts(o),
        !failed(put),
        !failed(logged),
        q.stage is Select,
        q.projection is None,
        0 <= i < reply_rows(selected).len(),
        reply_rows(selected)[i] == row_in_place(o, text),
        query_page(QueryView { stage: query_next(q, selected), ..q }, docs) == Ok::<
            PageView,
            ErrorView,
        >(page),
        docs[i] == Some(o.doc),
    ensures
        page.items.len() == reply_rows(selected).len(),
        op_outcome(op_next(op_next(o, put), logged)) matches OutcomeView::Written { rec, .. }
            && page.items[i] == rec,
{
    assert(!failed(selected) && readable(reply_rows(selected)));
    assert(query_next(q, selected) is Rows);
}

/// A document that was deleted is gone: a delete that changed a row is answered as
/// done, and a read that finds no row is told that there is no such document.
pub proof fn law_deleted_document_is_gone(
    o: DataOpView,
    removed: ReplyView,
    logged: ReplyView,
    f: FetchView,
    found: ReplyView,
    doc: Option<JsonView>,
)
    requires
        o.stage is Remove,
        !failed(removed),
        changed_rows(removed) > 0,
        !failed(logged),
        f.stage is Select,
        !failed(found),
        reply_rows(found).len() == 0,
    ensures
        op_outcome(op_next(op_next(o, removed), logged)) is Deleted,
        write_answer(OpReplyView::Deleted(true)) == Ok::<AnswerView, ErrorView>(
            AnswerView { status: 204, body: None },
        ),
        fetch_answer(fetch_next(f, found), doc) == Err::<AnswerView, ErrorView>(
            not_found_error("document not found"@),
        ),
{
}

// ---- Changes ---------------------------------------------------------------

/// The row of the change log that a write enters under a number.
pub open spec fn row_in_log(o: DataOpView, seq: i64, text: Seq<char>) -> Seq<ValueView> {
    let bound = op_statement(o)->0.params;
    seq![
        ValueView::Integer(seq),
        bound[1],
        bound[2],
        if o.stage->Log_op == Op::Delete {
            ValueView::Null
        } else {
            ValueView::Text(text)
        },
    ]
}

/// The event that a write announces.
pub open spec fn announced(o: DataOpView) -> Option<EventView> {
    match op_outcome(o) {
        OutcomeView::Written { event, .. } => Some(event),
        OutcomeView::Deleted(event) => Some(event),
        _ => None,
    }
}

/// Whoever has missed a change is replayed the very event that was announced when it
/// was made: the same number, kind, identifier, and document.
pub proof fn law_missed_change_is_replayed(
    o: DataOpView,
    logged: ReplyView,
    s: ResumeView,
    missed: ReplyView,
    docs: Seq<Option<JsonView>>,
    text: Seq<char>,
    i: int,
    plan: PlanView,
)
    requires
        o.stage is Log,
        !failed(logged),
        s.stage is Missed,
        s.coll == o.collection,
        log_readable(reply_rows(missed)),
        0 <= i < reply_rows(missed).len() == docs.len(),
        reply_rows(missed)[i] == row_in_log(o, last_rowid(logged), text),
        docs[i] == (if o.stage->Log_op == Op::Delete {
            None
        } else {
            Some(o.doc)
        }),
        resume_plan(ResumeView { stage: resume_next(s, missed), ..s }, docs, None) == Ok::<
            PlanView,
            ErrorView,
        >(plan),
    ensures
        plan.replay.len() == reply_rows(missed).len(),
        announced(op_next(o, logged)) == Some(plan.replay[i]),
{
    let next = resume_next(s, missed);
    assert(!failed(missed));
    let rows = next->Replay_0;
    law_unfiltered_replay_is_complete(rows, docs, s.coll);
    law_op_names_are_read_back(o.stage->Log_op);
    assert(rows[i] == log_row(reply_rows(missed)[i])->0);
    assert(plan.replay[i].doc == docs[i]);
}

// ---- Tokens ----------------------------------------------------------------

/// The token that a principal was given authenticates it: the request is looked for
/// under the very hash that was entered, and of the row that was entered comes the
/// principal.
pub proof fn law_entered_token_authenticates(
    id: Seq<char>,
    name: Seq<char>,
    is_admin: bool,
    token: Seq<char>,
    entered: i64,
    now: i64,
    found: ReplyView,
)
    requires
        ({
            let bound = insert_principal(id, name, is_admin, token, entered).params;
            reply_rows(found) == seq![seq![bound[0], bound[1], bound[2], ValueView::Integer(0)]]
        }),
    ensures
        ({
            let a = AuthView { token, stage: AuthStageView::ByToken };
            &&& auth_asks(a, now) matches Some(lookup) && lookup.params[0] == insert_principal(
                id,
                name,
                is_admin,
                token,
                entered,
            ).params[3]
            &&& auth_next(a, found) == AuthStageView::Known(PrincipalView { id, name, is_admin })
        }),
{
    let bound = insert_principal(id, name, is_admin, token, entered).params;
    assert(reply_rows(found)[0] == seq![bound[0], bound[1], bound[2], ValueView::Integer(0)]);
}

/// The secrets that a browser was given are looked for under the very hashes that
/// were entered when the session began.
pub proof fn law_issued_secrets_are_looked_for(
    principal_id: Seq<char>,
    tokens: TokenSetView,
    began: i64,
    access_ttl: i64,
    refresh_ttl: i64,
    now: i64,
    renewal: RotateView,
)
    requires
        renewal.stage is Find,
        renewal.refresh_hash == crate::tokens::token_hash(tokens.refresh),
        renewal.csrf_hash == crate::tokens::token_hash(tokens.csrf),
    ensures
        ({
            let steps = issue_statements(principal_id, tokens, began, access_ttl, refresh_ttl);
            &&& access_token_statement(tokens.access, now).params[0] == steps[2].params[0]
            &&& rotate_asks(renewal) matches Some(find) && find.params[0] == steps[3].params[0]
                && find.params[1] == steps[3].params[2]
        }),
{
}

} // verus!
