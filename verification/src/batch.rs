//! A group of writes in one transaction.
//!
//! Each write runs in a savepoint of its own, so that one that fails takes only
//! itself back. Whether the writes succeeded is known when the transaction is
//! resolved: only then are the replies and the events made.

use crate::data_op::{
    op_next, op_outcome, op_over, op_sound, op_statement, DataOp, DataOpView, OpKind, OpOutcome,
    OutcomeView, RecordView, DocRecord,
};
use crate::errors::{internal_error, ApiError, ErrorView};
use crate::ids::{new_ulid, now_ms, ulid_text};
use crate::realtime::{event_views, ChangeEvent, EventView};
use crate::sql::{
    batch, batch_view, execute, execute_view, failed, params1, Reply, ReplyView, Statement,
    StatementView, Value, ValueView,
};
use crate::writer::{
    batchable, begin_op, command_ok, command_views, op_for, CommandView, WriteCommand,
    WriterContext,
};
use vstd::prelude::*;

verus! {

/// How far a batch has come: each stage waits for the reply to its statement.
#[derive(Debug)]
pub enum BatchStage {
    /// The transaction is opened.
    Begin,
    /// The savepoint of the next write is opened.
    Savepoint,
    /// A write is in progress.
    Running(DataOp),
    /// The savepoint is resolved: the write is kept, or taken back.
    Release { keep: bool },
    Commit,
    /// The transaction is given up.
    Rollback,
    Settled { committed: bool },
}

pub enum BatchStageView {
    Begin,
    Savepoint,
    Running(DataOpView),
    Release { keep: bool },
    Commit,
    Rollback,
    Settled { committed: bool },
}

impl View for BatchStage {
    type V = BatchStageView;

    open spec fn view(&self) -> BatchStageView {
        match *self {
            BatchStage::Begin => BatchStageView::Begin,
            BatchStage::Savepoint => BatchStageView::Savepoint,
            BatchStage::Running(op) => BatchStageView::Running(op@),
            BatchStage::Release { keep } => BatchStageView::Release { keep },
            BatchStage::Commit => BatchStageView::Commit,
            BatchStage::Rollback => BatchStageView::Rollback,
            BatchStage::Settled { committed } => BatchStageView::Settled { committed },
        }
    }
}

/// A group of writes in progress.
#[derive(Debug)]
pub struct BatchRun {
    /// The commands that have not begun.
    todo: Vec<WriteCommand>,
    /// What the writes came to that are over, in the order of their commands.
    outcomes: Vec<OpOutcome>,
    stage: BatchStage,
    ctx: WriterContext,
}

#[verifier::ext_equal]
pub struct BatchView {
    pub todo: Seq<CommandView>,
    pub outcomes: Seq<OutcomeView>,
    pub stage: BatchStageView,
    pub ctx: WriterContext,
}

pub open spec fn outcome_views(v: Seq<OpOutcome>) -> Seq<OutcomeView> {
    Seq::new(v.len(), |i: int| v[i]@)
}

impl View for BatchRun {
    type V = BatchView;

    closed spec fn view(&self) -> BatchView {
        BatchView {
            todo: command_views(self.todo@),
            outcomes: outcome_views(self.outcomes@),
            stage: self.stage@,
            ctx: self.ctx,
        }
    }
}

/// A batch that has not begun.
pub open spec fn new_batch(commands: Seq<CommandView>, ctx: WriterContext) -> BatchView {
    BatchView { todo: commands, outcomes: Seq::empty(), stage: BatchStageView::Begin, ctx }
}

pub open spec fn batch_settled(b: BatchView) -> bool {
    b.stage is Settled
}

/// What the batch asks of the engine next.
pub open spec fn batch_statement(b: BatchView) -> Option<StatementView> {
    match b.stage {
        BatchStageView::Begin => Some(batch_view("BEGIN IMMEDIATE"@)),
        BatchStageView::Savepoint => Some(batch_view("SAVEPOINT sp"@)),
        BatchStageView::Running(op) => op_statement(op),
        BatchStageView::Release { keep } => Some(
            batch_view(
                if keep {
                    "RELEASE sp"@
                } else {
                    "ROLLBACK TO sp; RELEASE sp"@
                },
            ),
        ),
        BatchStageView::Commit => Some(batch_view("COMMIT"@)),
        BatchStageView::Rollback => Some(batch_view("ROLLBACK"@)),
        BatchStageView::Settled { .. } => None,
    }
}

/// The stage at which the next write begins, or at which the batch is committed
/// when there is none.
pub open spec fn turn(todo: Seq<CommandView>) -> BatchStageView {
    if todo.len() == 0 {
        BatchStageView::Commit
    } else {
        BatchStageView::Savepoint
    }
}

/// The batch after the reply to its statement. A write that begins is given a
/// fresh identifier and the time.
pub open spec fn batch_next(b: BatchView, r: ReplyView, fresh: Seq<char>, now: i64) -> BatchView {
    match b.stage {
        BatchStageView::Begin => if failed(r) {
            BatchView {
                todo: Seq::empty(),
                outcomes: Seq::new(b.todo.len(), |i: int| OutcomeView::Refused(internal_error())),
                stage: BatchStageView::Settled { committed: false },
                ..b
            }
        } else {
            BatchView { stage: turn(b.todo), ..b }
        },
        BatchStageView::Savepoint => if failed(r) {
            BatchView {
                todo: b.todo.skip(1),
                outcomes: b.outcomes.push(OutcomeView::Refused(internal_error())),
                stage: turn(b.todo.skip(1)),
                ..b
            }
        } else {
            BatchView {
                todo: b.todo.skip(1),
                stage: BatchStageView::Running(op_for(b.todo[0], fresh, now, b.ctx)),
                ..b
            }
        },
        BatchStageView::Running(op) => {
            let next = op_next(op, r);
            if op_over(next) {
                BatchView {
                    outcomes: b.outcomes.push(op_outcome(next)),
                    stage: BatchStageView::Release { keep: !(next.stage is Refused) },
                    ..b
                }
            } else {
                BatchView { stage: BatchStageView::Running(next), ..b }
            }
        },
        BatchStageView::Release { .. } => BatchView { stage: turn(b.todo), ..b },
        BatchStageView::Commit => BatchView {
            stage: if failed(r) {
                BatchStageView::Rollback
            } else {
                BatchStageView::Settled { committed: true }
            },
            ..b
        },
        BatchStageView::Rollback => BatchView {
            stage: BatchStageView::Settled { committed: false },
            ..b
        },
        BatchStageView::Settled { .. } => b,
    }
}

/// What the client that sent a command is told.
#[derive(Debug)]
pub enum OpReply {
    /// The document is in place; `created` when it was not there before.
    Written { rec: DocRecord, created: bool },
    /// Whether there was something to delete.
    Deleted(bool),
    Failed(ApiError),
}

pub enum OpReplyView {
    Written { rec: RecordView, created: bool },
    Deleted(bool),
    Failed(ErrorView),
}

impl View for OpReply {
    type V = OpReplyView;

    open spec fn view(&self) -> OpReplyView {
        match *self {
            OpReply::Written { rec, created } => OpReplyView::Written { rec: rec@, created },
            OpReply::Deleted(b) => OpReplyView::Deleted(b),
            OpReply::Failed(e) => OpReplyView::Failed(e@),
        }
    }
}

pub open spec fn op_reply_views(v: Seq<OpReply>) -> Seq<OpReplyView> {
    Seq::new(v.len(), |i: int| v[i]@)
}

/// What a client is told, once it is known whether the batch was committed.
pub open spec fn reply_for(o: OutcomeView, committed: bool) -> OpReplyView {
    match o {
        OutcomeView::Written { rec, created, .. } => if committed {
            OpReplyView::Written { rec, created }
        } else {
            OpReplyView::Failed(internal_error())
        },
        OutcomeView::Deleted(_) => if committed {
            OpReplyView::Deleted(true)
        } else {
            OpReplyView::Failed(internal_error())
        },
        OutcomeView::Missing => OpReplyView::Deleted(false),
        OutcomeView::Refused(e) => OpReplyView::Failed(e),
    }
}

/// The event of a write that changed something.
pub open spec fn event_of(o: OutcomeView) -> Option<EventView> {
    match o {
        OutcomeView::Written { event, .. } => Some(event),
        OutcomeView::Deleted(event) => Some(event),
        _ => None,
    }
}

/// The events of several writes, in their order.
pub open spec fn events_of(outcomes: Seq<OutcomeView>) -> Seq<EventView>
    decreases outcomes.len(),
{
    if outcomes.len() == 0 {
        Seq::empty()
    } else {
        match event_of(outcomes.last()) {
            Some(e) => events_of(outcomes.drop_last()).push(e),
            None => events_of(outcomes.drop_last()),
        }
    }
}

/// The statement that cuts the change log to its last `retention` rows.
pub open spec fn trim_statement(retention: i64) -> Option<StatementView> {
    if retention <= 0 {
        None
    } else {
        Some(
            execute_view(
                "DELETE FROM _changelog WHERE seq <= (SELECT COALESCE(MAX(seq), 0) FROM _changelog) - ?1"@,
                seq![ValueView::Integer(retention)],
            ),
        )
    }
}

/// What a settled batch leaves to be done: send the replies, send the events, and
/// run the statement that cuts the change log.
#[derive(Debug)]
pub struct BatchOutput {
    /// One reply for each command, in the order of the commands.
    pub replies: Vec<OpReply>,
    pub events: Vec<ChangeEvent>,
    pub trim: Option<Statement>,
}

#[verifier::ext_equal]
pub struct BatchOutputView {
    pub replies: Seq<OpReplyView>,
    pub events: Seq<EventView>,
    pub trim: Option<StatementView>,
}

pub open spec fn statement_view(s: Option<Statement>) -> Option<StatementView> {
    match s {
        Some(t) => Some(t@),
        None => None,
    }
}

impl View for BatchOutput {
    type V = BatchOutputView;

    open spec fn view(&self) -> BatchOutputView {
        BatchOutputView {
            replies: op_reply_views(self.replies@),
            events: event_views(self.events@),
            trim: statement_view(self.trim),
        }
    }
}

/// What is left to be done of a settled batch.
pub open spec fn batch_output(
    outcomes: Seq<OutcomeView>,
    committed: bool,
    retention: i64,
) -> BatchOutputView {
    let events = if committed {
        events_of(outcomes)
    } else {
        Seq::empty()
    };
    BatchOutputView {
        replies: Seq::new(outcomes.len(), |i: int| reply_for(outcomes[i], committed)),
        events,
        trim: if events.len() > 0 {
            trim_statement(retention)
        } else {
            None
        },
    }
}

/// Cuts the change log to its last `retention` rows.
pub fn trim_changelog(retention: i64) -> (r: Option<Statement>)
    ensures
        statement_view(r) == trim_statement(retention),
{
    if retention <= 0 {
        None
    } else {
        Some(
            execute(
                "DELETE FROM _changelog WHERE seq <= (SELECT COALESCE(MAX(seq), 0) FROM _changelog) - ?1",
                params1(Value::Integer(retention)),
            ),
        )
    }
}

impl BatchRun {
    /// Every command that waits writes one document, and all that they put into
    /// statements has been validated.
    pub closed spec fn well_formed(self) -> bool {
        &&& forall|i: int|
            0 <= i < self.todo@.len() ==> batchable((#[trigger] self.todo@[i])@) && command_ok(
                self.todo@[i]@,
            )
        &&& self.stage matches BatchStage::Running(op) ==> op.well_formed()
        &&& self.stage is Savepoint ==> self.todo@.len() > 0
    }

    /// A batch that is about to begin.
    pub fn start(commands: Vec<WriteCommand>, ctx: WriterContext) -> (r: BatchRun)
        requires
            forall|i: int|
                0 <= i < commands@.len() ==> batchable((#[trigger] commands@[i])@) && command_ok(
                    commands@[i]@,
                ),
        ensures
            r.well_formed(),
            r@ == new_batch(command_views(commands@), ctx),
    {
        let r = BatchRun { todo: commands, outcomes: Vec::new(), stage: BatchStage::Begin, ctx };
        assert(r@.outcomes =~= Seq::empty());
        r
    }

    /// The statement to run next; none when the batch is settled.
    pub fn statement(&self) -> (r: Option<Statement>)
        requires
            self.well_formed(),
        ensures
            statement_view(r) == batch_statement(self@),
    {
        match &self.stage {
            BatchStage::Begin => Some(batch("BEGIN IMMEDIATE")),
            BatchStage::Savepoint => Some(batch("SAVEPOINT sp")),
            BatchStage::Running(op) => op.statement(),
            BatchStage::Release { keep } => Some(
                batch(
                    if *keep {
                        "RELEASE sp"
                    } else {
                        "ROLLBACK TO sp; RELEASE sp"
                    },
                ),
            ),
            BatchStage::Commit => Some(batch("COMMIT")),
            BatchStage::Rollback => Some(batch("ROLLBACK")),
            BatchStage::Settled { .. } => None,
        }
    }

    fn turn(todo: &Vec<WriteCommand>) -> (r: BatchStage)
        ensures
            r@ == turn(command_views(todo@)),
            r is Savepoint ==> todo@.len() > 0,
            !(r is Running),
    {
        if todo.len() == 0 {
            BatchStage::Commit
        } else {
            BatchStage::Savepoint
        }
    }

    /// Takes the reply to the statement. A write that begins is given the
    /// identifier `fresh` and the time `now`.
    pub fn accept(self, reply: &Reply, fresh: String, now: i64) -> (r: BatchRun)
        requires
            self.well_formed(),
        ensures
            r.well_formed(),
            r@ == batch_next(self@, reply@, fresh@, now),
    {
        let ghost before = self@;
        let mut todo = self.todo;
        let mut outcomes = self.outcomes;
        let ctx = self.ctx;
        let stage = match self.stage {
            BatchStage::Begin => {
                if reply.is_failed() {
                    let mut i: usize = 0;
                    let n: usize = todo.len();
                    outcomes = Vec::new();
                    while i < n
                        invariant
                            i <= n,
                            outcomes@.len() == i,
                            forall|k: int|
                                0 <= k < i ==> (#[trigger] outcomes@[k])@ == OutcomeView::Refused(
                                    internal_error(),
                                ),
                        decreases n - i,
                    {
                        outcomes.push(OpOutcome::Refused(ApiError::internal()));
                        i = i + 1;
                    }
                    todo = Vec::new();
                    BatchStage::Settled { committed: false }
                } else {
                    BatchRun::turn(&todo)
                }
            },
            BatchStage::Savepoint => {
                let ghost waiting = todo@;
                let cmd = todo.remove(0);
                assert(command_views(todo@) =~= before.todo.skip(1));
                assert forall|i: int| 0 <= i < todo@.len() implies batchable(
                    (#[trigger] todo@[i])@,
                ) && command_ok(todo@[i]@) by {
                    assert(todo@[i] == waiting[i + 1]);
                }
                if reply.is_failed() {
                    let ghost earlier = outcomes@;
                    outcomes.push(OpOutcome::Refused(ApiError::internal()));
                    assert(outcome_views(outcomes@) =~= outcome_views(earlier).push(
                        OutcomeView::Refused(internal_error()),
                    ));
                    BatchRun::turn(&todo)
                } else {
                    assert(cmd@ == before.todo[0]);
                    BatchStage::Running(begin_op(cmd, fresh, now, &ctx))
                }
            },
            BatchStage::Running(op) => {
                let mut op = op;
                op.accept(reply);
                if op.is_over() {
                    let keep = !matches!(op.stage, crate::data_op::OpStage::Refused(_));
                    let ghost earlier = outcomes@;
                    let outcome = op.into_outcome();
                    outcomes.push(outcome);
                    assert(outcome_views(outcomes@) =~= outcome_views(earlier).push(outcome@));
                    BatchStage::Release { keep }
                } else {
                    BatchStage::Running(op)
                }
            },
            BatchStage::Release { .. } => BatchRun::turn(&todo),
            BatchStage::Commit => if reply.is_failed() {
                BatchStage::Rollback
            } else {
                BatchStage::Settled { committed: true }
            },
            BatchStage::Rollback => BatchStage::Settled { committed: false },
            BatchStage::Settled { committed } => BatchStage::Settled { committed },
        };
        let r = BatchRun { todo, outcomes, stage, ctx };
        proof {
            let after = batch_next(before, reply@, fresh@, now);
            assert(r@.todo =~= after.todo);
            assert(r@.outcomes =~= after.outcomes);
        }
        r
    }

    /// Takes the reply to the statement, with a fresh identifier and the time of
    /// the clock for a write that begins.
    pub fn resume(self, reply: &Reply) -> (r: BatchRun)
        requires
            self.well_formed(),
        ensures
            r.well_formed(),
            exists|fresh: Seq<char>, now: i64|
                ulid_text(fresh) && r@ == #[trigger] batch_next(self@, reply@, fresh, now),
    {
        let fresh = new_ulid();
        let now: i64 = now_ms();
        let ghost id = fresh@;
        let ghost before = self@;
        let r = self.accept(reply, fresh, now);
        assert(r@ == batch_next(before, reply@, id, now));
        r
    }

    /// What is left to be done, when the batch is settled.
    pub fn into_output(self) -> (r: Option<BatchOutput>)
        ensures
            match self@.stage {
                BatchStageView::Settled { committed } => r matches Some(out) && out@
                    == batch_output(self@.outcomes, committed, self@.ctx.changelog_retention),
                _ => r is None,
            },
    {
        let committed = match self.stage {
            BatchStage::Settled { committed } => committed,
            _ => {
                return None;
            },
        };
        let ghost all = outcome_views(self.outcomes@);
        let retention: i64 = self.ctx.changelog_retention;
        let mut replies: Vec<OpReply> = Vec::new();
        let mut events: Vec<ChangeEvent> = Vec::new();
        let mut rest = self.outcomes;
        let ghost mut i: int = 0;
        assert(all.take(0).len() == 0);
        assert(event_views(events@) =~= Seq::empty());
        while rest.len() > 0
            invariant
                0 <= i <= all.len(),
                outcome_views(rest@) == all.skip(i),
                op_reply_views(replies@) == Seq::new(
                    i as nat,
                    |k: int| reply_for(all[k], committed),
                ),
                event_views(events@) == (if committed {
                    events_of(all.take(i))
                } else {
                    Seq::empty()
                }),
            decreases rest@.len(),
        {
            let ghost before = rest@;
            let ghost earlier = replies@;
            let ghost told = events@;
            assert(outcome_views(before).len() == before.len());
            assert(outcome_views(before)[0] == all[i]);
            let outcome = rest.remove(0);
            assert(outcome_views(rest@) =~= all.skip(i + 1)) by {
                assert forall|k: int| 0 <= k < rest@.len() implies outcome_views(rest@)[k]
                    == all.skip(i + 1)[k] by {
                    assert(outcome_views(before)[k + 1] == all.skip(i)[k + 1]);
                }
            }
            assert(all.take(i + 1).drop_last() =~= all.take(i));
            assert(all.take(i + 1).last() == all[i]);
            let reply = match outcome {
                OpOutcome::Written { rec, created, event } => if committed {
                    events.push(event);
                    assert(event_views(events@) =~= event_views(told).push(event@));
                    OpReply::Written { rec, created }
                } else {
                    OpReply::Failed(ApiError::internal())
                },
                OpOutcome::Deleted(event) => if committed {
                    events.push(event);
                    assert(event_views(events@) =~= event_views(told).push(event@));
                    OpReply::Deleted(true)
                } else {
                    OpReply::Failed(ApiError::internal())
                },
                OpOutcome::Missing => OpReply::Deleted(false),
                OpOutcome::Refused(e) => OpReply::Failed(e),
            };
            replies.push(reply);
            assert(op_reply_views(replies@) =~= op_reply_views(earlier).push(
                reply_for(all[i], committed),
            ));
            assert(op_reply_views(replies@) =~= Seq::new(
                (i + 1) as nat,
                |k: int| reply_for(all[k], committed),
            ));
            proof {
                i = i + 1;
            }
        }
        assert(outcome_views(rest@).len() == 0);
        assert(i == all.len());
        assert(all.take(i) =~= all);
        let trim = if events.len() > 0 {
            trim_changelog(retention)
        } else {
            None
        };
        let out = BatchOutput { replies, events, trim };
        proof {
            let expected = batch_output(all, committed, retention);
            assert(out@.replies =~= expected.replies);
            assert(out@.events =~= expected.events);
        }
        Some(out)
    }
}

// ---- What holds of every batch ---------------------------------------------

/// The outcome is one that the command can have.
pub open spec fn fits(o: OutcomeView, c: CommandView) -> bool {
    match o {
        OutcomeView::Written { rec, created, event } => match c {
            CommandView::Create { collection, doc, .. } => created && rec.doc == doc
                && event.collection == collection && rec.created_at == rec.updated_at,
            CommandView::Replace { collection, id, doc, .. } => rec.id == id && rec.doc == doc
                && event.collection == collection,
            _ => false,
        },
        OutcomeView::Deleted(event) => c matches CommandView::Delete { collection, id }
            && event.id == id && event.collection == collection,
        OutcomeView::Missing => c is Delete,
        OutcomeView::Refused(_) => true,
    }
}

/// The write carries out the command.
pub open spec fn carries_out(op: DataOpView, c: CommandView) -> bool {
    &&& op_sound(op)
    &&& !op_over(op)
    &&& match c {
        CommandView::Create { collection, doc, .. } => op.kind == OpKind::Create && op.collection
            == collection && op.doc == doc,
        CommandView::Replace { collection, id, doc, .. } => op.kind == OpKind::Replace
            && op.collection == collection && op.id == id && op.doc == doc,
        CommandView::Delete { collection, id } => op.kind == OpKind::Delete && op.collection
            == collection && op.id == id,
        _ => false,
    }
}

/// How many writes are in progress.
pub open spec fn in_progress(b: BatchView) -> int {
    if b.stage is Running {
        1
    } else {
        0
    }
}

/// The batch works through `commands` in their order: it has an outcome for each
/// of the first ones, may be at the next, and has the others before it.
pub open spec fn works_through(b: BatchView, commands: Seq<CommandView>) -> bool {
    let n = b.outcomes.len();
    &&& n + in_progress(b) + b.todo.len() == commands.len()
    &&& b.todo == commands.skip(n + in_progress(b))
    &&& forall|i: int| 0 <= i < n ==> fits(#[trigger] b.outcomes[i], commands[i])
    &&& b.stage matches BatchStageView::Running(op) ==> carries_out(op, commands[n as int])
    &&& b.stage is Begin ==> n == 0
    &&& b.stage is Savepoint ==> b.todo.len() > 0
    &&& (b.stage is Commit || b.stage is Rollback || b.stage is Settled) ==> b.todo.len() == 0
}

/// Every batch works through its commands in their order from the first on,
/// whatever the engine replies.
pub proof fn law_commands_in_order(
    b: BatchView,
    commands: Seq<CommandView>,
    r: ReplyView,
    fresh: Seq<char>,
    now: i64,
)
    requires
        forall|i: int| 0 <= i < commands.len() ==> batchable(#[trigger] commands[i]),
    ensures
        works_through(new_batch(commands, b.ctx), commands),
        works_through(b, commands) ==> works_through(batch_next(b, r, fresh, now), commands),
{
    assert(commands.skip(0) =~= commands);
    if works_through(b, commands) {
        let n = b.outcomes.len() as int;
        let after = batch_next(b, r, fresh, now);
        match b.stage {
            BatchStageView::Begin => {
                assert(commands.skip(commands.len() as int) =~= Seq::empty());
            },
            BatchStageView::Savepoint => {
                assert(b.todo.skip(1) =~= commands.skip(n + 1));
                assert(b.todo[0] == commands[n]);
                assert(batchable(commands[n]));
            },
            BatchStageView::Running(op) => {
                let next = op_next(op, r);
                crate::data_op::law_op_stays_sound(op, r);
                if op_over(next) {
                    assert(fits(op_outcome(next), commands[n]));
                }
            },
            _ => {},
        }
    }
}

/// A settled batch has exactly one reply for each command, and the reply in each
/// place is one that the command in that place can have.
pub proof fn law_one_reply_per_command(b: BatchView, commands: Seq<CommandView>, committed: bool)
    requires
        works_through(b, commands),
        b.stage == (BatchStageView::Settled { committed }),
    ensures
        ({
            let out = batch_output(b.outcomes, committed, b.ctx.changelog_retention);
            &&& out.replies.len() == commands.len()
            &&& forall|i: int|
                0 <= i < commands.len() ==> fits(b.outcomes[i], #[trigger] commands[i])
                    && out.replies[i] == reply_for(b.outcomes[i], committed)
        }),
{
}

/// A write that fails takes back itself alone: the savepoint is rolled back, the
/// outcomes before it stand, and the commands behind it are still to come.
pub proof fn law_failure_is_isolated(
    b: BatchView,
    op: DataOpView,
    r: ReplyView,
    fresh: Seq<char>,
    now: i64,
    e: ErrorView,
)
    requires
        b.stage == BatchStageView::Running(op),
        op_next(op, r).stage == crate::data_op::StageView::Refused(e),
    ensures
        ({
            let after = batch_next(b, r, fresh, now);
            &&& batch_statement(after) == Some(batch_view("ROLLBACK TO sp; RELEASE sp"@))
            &&& after.outcomes == b.outcomes.push(OutcomeView::Refused(e))
            &&& after.todo == b.todo
            &&& forall|r2: ReplyView, f2: Seq<char>, n2: i64|
                (#[trigger] batch_next(after, r2, f2, n2)).stage == turn(b.todo)
        }),
{
}

/// The reply says that a document was written or deleted.
pub open spec fn says_changed(r: OpReplyView) -> bool {
    r is Written || r == OpReplyView::Deleted(true)
}

proof fn lemma_events(outcomes: Seq<OutcomeView>)
    ensures
        events_of(outcomes) == outcomes.filter(|o: OutcomeView| event_of(o) is Some).map_values(
            |o: OutcomeView| event_of(o)->0,
        ),
    decreases outcomes.len(),
{
    reveal(Seq::filter);
    let changes = |o: OutcomeView| event_of(o) is Some;
    let event = |o: OutcomeView| event_of(o)->0;
    if outcomes.len() == 0 {
        assert(outcomes.filter(changes).map_values(event) =~= Seq::empty());
    } else {
        let front = outcomes.drop_last();
        lemma_events(front);
        if changes(outcomes.last()) {
            assert(outcomes.filter(changes) == front.filter(changes).push(outcomes.last()));
            assert(outcomes.filter(changes).map_values(event) =~= front.filter(changes).map_values(
                event,
            ).push(event(outcomes.last())));
        } else {
            assert(outcomes.filter(changes) == front.filter(changes));
        }
    }
}

/// Nothing is announced of a batch that was not committed: it has no events, and
/// no reply says that a document was written or deleted.
pub proof fn law_uncommitted_batch_is_silent(outcomes: Seq<OutcomeView>, retention: i64)
    ensures
        ({
            let out = batch_output(outcomes, false, retention);
            &&& out.events.len() == 0
            &&& out.trim is None
            &&& forall|i: int|
                0 <= i < out.replies.len() ==> !says_changed(#[trigger] out.replies[i])
        }),
{
}

/// A committed batch announces every change and nothing else, in the order of the
/// commands: its events are those of the writes whose reply says that a document was
/// written or deleted.
pub proof fn law_committed_changes_are_announced(outcomes: Seq<OutcomeView>, retention: i64)
    ensures
        ({
            let out = batch_output(outcomes, true, retention);
            &&& out.events == outcomes.filter(
                |o: OutcomeView| event_of(o) is Some,
            ).map_values(|o: OutcomeView| event_of(o)->0)
            &&& forall|i: int|
                0 <= i < outcomes.len() ==> (says_changed(#[trigger] out.replies[i]) <==> event_of(
                    outcomes[i],
                ) is Some)
        }),
{
    lemma_events(outcomes);
    let out = batch_output(outcomes, true, retention);
    assert forall|i: int| 0 <= i < outcomes.len() implies (says_changed(#[trigger] out.replies[i])
        <==> event_of(outcomes[i]) is Some) by {
        assert(out.replies[i] == reply_for(outcomes[i], true));
    }
}

/// How many replies a batch can still wait for, at most.
pub open spec fn batch_replies_left(b: BatchView) -> nat {
    let waiting = 9 * b.todo.len();
    match b.stage {
        BatchStageView::Begin => waiting + 4,
        BatchStageView::Savepoint => waiting + 3,
        BatchStageView::Running(op) => waiting + 4 + crate::data_op::replies_left(op),
        BatchStageView::Release { .. } => waiting + 4,
        BatchStageView::Commit => 2,
        BatchStageView::Rollback => 1,
        BatchStageView::Settled { .. } => 0,
    }
}

/// Every reply brings a batch closer to being settled, whatever it is.
pub proof fn law_batch_settles(
    b: BatchView,
    commands: Seq<CommandView>,
    r: ReplyView,
    fresh: Seq<char>,
    now: i64,
)
    requires
        works_through(b, commands),
        !batch_settled(b),
    ensures
        batch_statement(b) is Some,
        batch_replies_left(batch_next(b, r, fresh, now)) < batch_replies_left(b),
{
    if let BatchStageView::Running(op) = b.stage {
        crate::data_op::law_op_comes_to_an_end(op, r);
    }
}

} // verus!
