//! In which order the writer of a database takes its commands.
//!
//! The writer waits for a command. A command that writes a document opens a
//! batch, and as long as more such commands are already waiting they join it, up
//! to a limit. A command of another kind closes the batch and is worked on next.

use crate::writer::{batchable, is_batchable, WriteCommand};
use vstd::prelude::*;

verus! {

/// A command, and where its reply goes.
pub struct Job<R> {
    pub cmd: WriteCommand,
    pub reply: R,
}

/// What the writer does next.
pub enum Turn<R> {
    /// Wait for a command, and hand it to [`Intake::received`].
    Wait,
    /// See whether a command is waiting, and hand what there is to
    /// [`Intake::polled`].
    Poll,
    /// Work on a command that stands alone.
    Single(Job<R>),
    /// Work on a batch.
    Batch(Vec<Job<R>>),
}

/// The commands that a turn hands over to be worked on.
pub open spec fn handed_over<R>(turn: Turn<R>) -> Seq<Job<R>> {
    match turn {
        Turn::Wait => Seq::empty(),
        Turn::Poll => Seq::empty(),
        Turn::Single(job) => seq![job],
        Turn::Batch(jobs) => jobs@,
    }
}

/// The commands that have come in and have not been handed over.
pub struct Intake<R> {
    batch: Vec<Job<R>>,
    pending: Option<Job<R>>,
    group_commit: bool,
    max_batch: usize,
}

impl<R> Intake<R> {
    /// The batch that is being collected.
    pub closed spec fn collecting(self) -> Seq<Job<R>> {
        self.batch@
    }

    /// The command that is worked on next.
    pub closed spec fn next_up(self) -> Option<Job<R>> {
        self.pending
    }

    pub closed spec fn groups(self) -> bool {
        self.group_commit
    }

    pub closed spec fn limit(self) -> nat {
        self.max_batch as nat
    }

    /// The commands that have come in and have not been handed over, in the order
    /// in which they came.
    pub open spec fn held(self) -> Seq<Job<R>> {
        match self.next_up() {
            Some(job) => self.collecting().push(job),
            None => self.collecting(),
        }
    }

    /// Only writes of documents are collected, no more than fit in a batch.
    pub open spec fn well_formed(self) -> bool {
        &&& forall|i: int|
            0 <= i < self.collecting().len() ==> batchable(
                (#[trigger] self.collecting()[i]).cmd@,
            )
        &&& self.collecting().len() > 0 ==> self.groups() && self.next_up() is None
            && self.collecting().len() < self.limit()
    }

    /// The settings stay as they are.
    pub open spec fn same_settings(self, other: Intake<R>) -> bool {
        self.groups() == other.groups() && self.limit() == other.limit()
    }

    /// An intake that holds nothing.
    pub fn new(group_commit: bool, max_batch: usize) -> (r: Intake<R>)
        ensures
            r.well_formed(),
            r.held() == Seq::<Job<R>>::empty(),
            r.collecting() == Seq::<Job<R>>::empty(),
            r.groups() == group_commit,
            r.limit() == max_batch,
    {
        Intake { batch: Vec::new(), pending: None, group_commit, max_batch }
    }

    /// The first turn after a command or a batch has been worked on.
    pub fn begin(&mut self) -> (r: Turn<R>)
        requires
            old(self).well_formed(),
            old(self).collecting().len() == 0,
        ensures
            final(self).well_formed(),
            final(self).same_settings(*old(self)),
            handed_over(r) + final(self).held() == old(self).held(),
            match old(self).next_up() {
                None => r is Wait,
                Some(job) => opens(r, *final(self), job),
            },
    {
        match self.pending.take() {
            Some(job) => {
                let r = self.received(job);
                assert(handed_over(r) + self.held() =~= old(self).held());
                r
            },
            None => {
                assert(handed_over(Turn::<R>::Wait) + self.held() =~= old(self).held());
                Turn::Wait
            },
        }
    }

    /// The turn on a command that was waited for.
    pub fn received(&mut self, job: Job<R>) -> (r: Turn<R>)
        requires
            old(self).well_formed(),
            old(self).held().len() == 0,
        ensures
            final(self).well_formed(),
            final(self).same_settings(*old(self)),
            handed_over(r) + final(self).held() == seq![job],
            opens(r, *final(self), job),
    {
        if !is_batchable(&job.cmd) {
            assert(handed_over(Turn::Single(job)) + self.held() =~= seq![job]);
            return Turn::Single(job);
        }
        if self.group_commit && 1 < self.max_batch {
            self.batch.push(job);
            assert(self.batch@ =~= seq![job]);
            assert(handed_over(Turn::<R>::Poll) + self.held() =~= seq![job]);
            Turn::Poll
        } else {
            let mut jobs: Vec<Job<R>> = Vec::new();
            jobs.push(job);
            assert(jobs@ =~= seq![job]);
            assert(handed_over(Turn::Batch(jobs)) + self.held() =~= seq![job]);
            Turn::Batch(jobs)
        }
    }

    /// The turn on what was waiting while a batch is collected.
    pub fn polled(&mut self, found: Option<Job<R>>) -> (r: Turn<R>)
        requires
            old(self).well_formed(),
            old(self).collecting().len() > 0,
        ensures
            final(self).well_formed(),
            final(self).same_settings(*old(self)),
            handed_over(r) + final(self).held() == (match found {
                Some(job) => old(self).held().push(job),
                None => old(self).held(),
            }),
            match found {
                Some(job) => if !batchable(job.cmd@) {
                    r matches Turn::Batch(jobs) && jobs@ == old(self).collecting()
                        && final(self).next_up() == Some(job)
                } else if old(self).collecting().len() + 1 < old(self).limit() {
                    r is Poll
                } else {
                    r matches Turn::Batch(jobs) && jobs@ == old(self).collecting().push(job)
                },
                None => r matches Turn::Batch(jobs) && jobs@ == old(self).collecting(),
            },
            r matches Turn::Batch(jobs) ==> 0 < jobs@.len() <= old(self).limit() && forall|i: int|
                0 <= i < jobs@.len() ==> batchable((#[trigger] jobs@[i]).cmd@),
    {
        let ghost before = self.batch@;
        match found {
            None => {
                let mut jobs: Vec<Job<R>> = Vec::new();
                std::mem::swap(&mut jobs, &mut self.batch);
                assert(handed_over(Turn::Batch(jobs)) + self.held() =~= before);
                Turn::Batch(jobs)
            },
            Some(job) => {
                if !is_batchable(&job.cmd) {
                    let mut jobs: Vec<Job<R>> = Vec::new();
                    std::mem::swap(&mut jobs, &mut self.batch);
                    self.pending = Some(job);
                    assert(handed_over(Turn::Batch(jobs)) + self.held() =~= before.push(job));
                    Turn::Batch(jobs)
                } else {
                    self.batch.push(job);
                    if self.batch.len() < self.max_batch {
                        assert(handed_over(Turn::<R>::Poll) + self.held() =~= before.push(job));
                        Turn::Poll
                    } else {
                        let mut jobs: Vec<Job<R>> = Vec::new();
                        std::mem::swap(&mut jobs, &mut self.batch);
                        assert(handed_over(Turn::Batch(jobs)) + self.held() =~= before.push(job));
                        Turn::Batch(jobs)
                    }
                }
            },
        }
    }
}

/// How a command is begun with: one that stands alone is worked on, and a write of
/// a document opens a batch, which more may join where writes are grouped.
pub open spec fn opens<R>(r: Turn<R>, after: Intake<R>, job: Job<R>) -> bool {
    &&& after.next_up() is None
    &&& if !batchable(job.cmd@) {
        r == Turn::Single(job) && after.collecting().len() == 0
    } else if after.groups() && 1 < after.limit() {
        r is Poll && after.collecting() == seq![job]
    } else {
        r matches Turn::Batch(jobs) && jobs@ == seq![job] && after.collecting().len() == 0
    }
}

} // verus!
