//! Statements that are run one after another, up to the first that is refused.

use crate::sql::{failed, Reply, ReplyView, Statement, StatementView};
use vstd::prelude::*;

verus! {

/// Statements in progress.
#[derive(Debug)]
pub struct SequenceRun {
    todo: Vec<Statement>,
    refused: bool,
}

#[verifier::ext_equal]
pub struct SequenceView {
    /// What is still to be run.
    pub todo: Seq<StatementView>,
    pub refused: bool,
}

pub open spec fn statement_views(v: Seq<Statement>) -> Seq<StatementView> {
    Seq::new(v.len(), |i: int| v[i]@)
}

impl View for SequenceRun {
    type V = SequenceView;

    closed spec fn view(&self) -> SequenceView {
        SequenceView { todo: statement_views(self.todo@), refused: self.refused }
    }
}

/// Nothing more is run: everything was, or a statement was refused.
pub open spec fn sequence_over(s: SequenceView) -> bool {
    s.refused || s.todo.len() == 0
}

/// Everything was run.
pub open spec fn sequence_complete(s: SequenceView) -> bool {
    !s.refused && s.todo.len() == 0
}

pub open spec fn sequence_asks(s: SequenceView) -> Option<StatementView> {
    if sequence_over(s) {
        None
    } else {
        Some(s.todo[0])
    }
}

pub open spec fn sequence_next(s: SequenceView, r: ReplyView) -> SequenceView {
    if sequence_over(s) {
        s
    } else if failed(r) {
        SequenceView { refused: true, ..s }
    } else {
        SequenceView { todo: s.todo.skip(1), ..s }
    }
}

impl SequenceRun {
    pub fn start(statements: Vec<Statement>) -> (r: SequenceRun)
        ensures
            r@ == (SequenceView { todo: statement_views(statements@), refused: false }),
    {
        SequenceRun { todo: statements, refused: false }
    }

    /// The statement to run next; none when nothing more is run.
    pub fn statement(&self) -> (r: Option<Statement>)
        ensures
            match r {
                Some(s) => sequence_asks(self@) == Some(s@),
                None => sequence_asks(self@) is None,
            },
    {
        if self.refused || self.todo.len() == 0 {
            None
        } else {
            Some(self.todo[0].duplicate())
        }
    }

    /// Takes the reply to the statement.
    pub fn accept(&mut self, reply: &Reply)
        ensures
            final(self)@ == sequence_next(old(self)@, reply@),
    {
        if self.refused || self.todo.len() == 0 {
            return ;
        }
        if reply.is_failed() {
            self.refused = true;
        } else {
            let ghost before = self.todo@;
            let _ = self.todo.remove(0);
            assert(statement_views(self.todo@) =~= statement_views(before).skip(1));
        }
    }

    /// Whether nothing more is run.
    pub fn is_over(&self) -> (r: bool)
        ensures
            r == sequence_over(self@),
    {
        self.refused || self.todo.len() == 0
    }

    /// Whether everything was run.
    pub fn is_complete(&self) -> (r: bool)
        ensures
            r == sequence_complete(self@),
    {
        !self.refused && self.todo.len() == 0
    }
}

/// What is left after some replies.
pub open spec fn sequence_after(s: SequenceView, replies: Seq<ReplyView>) -> SequenceView
    decreases replies.len(),
{
    if replies.len() == 0 {
        s
    } else {
        sequence_next(sequence_after(s, replies.drop_last()), replies.last())
    }
}

/// Everything is run if and only if no statement is refused.
pub proof fn law_sequence_completes(todo: Seq<StatementView>, replies: Seq<ReplyView>)
    requires
        replies.len() <= todo.len(),
    ensures
        ({
            let end = sequence_after(SequenceView { todo, refused: false }, replies);
            let clean = forall|i: int| 0 <= i < replies.len() ==> !failed(#[trigger] replies[i]);
            &&& clean ==> end == (SequenceView {
                todo: todo.skip(replies.len() as int),
                refused: false,
            })
            &&& !clean ==> end.refused
        }),
    decreases replies.len(),
{
    let start = SequenceView { todo, refused: false };
    if replies.len() == 0 {
        assert(todo.skip(0) =~= todo);
    } else {
        let front = replies.drop_last();
        law_sequence_completes(todo, front);
        let before = sequence_after(start, front);
        if forall|i: int| 0 <= i < front.len() ==> !failed(#[trigger] front[i]) {
            assert(todo.skip(front.len() as int).skip(1) =~= todo.skip(replies.len() as int));
            if failed(replies.last()) {
                assert(failed(replies[replies.len() - 1]));
            } else {
                assert forall|i: int| 0 <= i < replies.len() implies !failed(
                    #[trigger] replies[i],
                ) by {
                    if i < front.len() {
                        assert(front[i] == replies[i]);
                    }
                }
            }
        } else {
            let i = choose|i: int| 0 <= i < front.len() && failed(#[trigger] front[i]);
            assert(replies[i] == front[i]);
        }
    }
}

} // verus!
