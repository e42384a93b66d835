//! Giving every file of an instance another key, offline.
//!
//! Every file is backed up before any is touched. Then each is given the new key and
//! read under it, and when every file has it the new key is stored. If any of this
//! fails, the storing of the key included, every file is restored from its backup and
//! the old key stays.

use crate::encryption::{key_ok, verify_open, verify_statement};
use crate::files::{sidecars, stale_files};
use crate::index_op::{doubled_quotes, snapshot_statement};
use crate::sequence::statement_views;
use crate::sql::{batch, batch_view, Statement, StatementView};
use crate::text::{concat2, concat3, views};
use vstd::prelude::*;

verus! {

/// Where the run stands.
#[derive(Debug, Clone, Copy, PartialEq, Eq, Structural)]
pub enum RekeyPhase {
    /// The file at this place is backed up.
    Backup(usize),
    /// The file at this place is given the new key.
    Rekey(usize),
    /// The file at this place is restored.
    Restore(usize),
    /// The new key is stored.
    Persist,
    /// Every file has the new key, and it is stored.
    Complete,
    /// A backup failed; nothing was touched.
    BackupFailed(usize),
    /// A file could not be given the key, or the key could not be stored; every file is
    /// as it was.
    Restored,
    /// A file could not be restored from its backup.
    RestoreFailed(usize),
}

/// What to do next.
#[derive(Debug)]
pub enum RekeyAction {
    /// Open the file with the old key and run the statement.
    Backup { file: String, statement: Statement },
    /// Open the file with the old key and run the statements.
    Rekey { file: String, statements: Vec<Statement> },
    /// Remove what stands beside the file, and copy the backup over it.
    Restore { file: String, backup: String, stale: Vec<String> },
    /// Store the new key.
    Persist,
}

/// A run in progress: the files, and their backups in the same order.
#[derive(Debug)]
pub struct RekeyRun {
    files: Vec<String>,
    backups: Vec<String>,
    phase: RekeyPhase,
}

#[verifier::ext_equal]
pub struct RekeyView {
    pub files: Seq<Seq<char>>,
    pub backups: Seq<Seq<char>>,
    pub phase: RekeyPhase,
}

impl View for RekeyRun {
    type V = RekeyView;

    closed spec fn view(&self) -> RekeyView {
        RekeyView {
            files: views(self.files@),
            backups: views(self.backups@),
            phase: self.phase,
        }
    }
}

/// The run is over.
pub open spec fn rekey_over(p: RekeyPhase) -> bool {
    p is Complete || p is BackupFailed || p is Restored || p is RestoreFailed
}

/// Where the run goes when what it asked for succeeded or failed, with `n` files.
pub open spec fn rekey_next(n: nat, p: RekeyPhase, ok: bool) -> RekeyPhase {
    match p {
        RekeyPhase::Backup(i) => if !ok {
            RekeyPhase::BackupFailed(i)
        } else if i + 1 < n {
            RekeyPhase::Backup((i + 1) as usize)
        } else {
            RekeyPhase::Rekey(0)
        },
        RekeyPhase::Rekey(i) => if !ok {
            RekeyPhase::Restore(0)
        } else if i + 1 < n {
            RekeyPhase::Rekey((i + 1) as usize)
        } else {
            RekeyPhase::Persist
        },
        RekeyPhase::Restore(i) => if !ok {
            RekeyPhase::RestoreFailed(i)
        } else if i + 1 < n {
            RekeyPhase::Restore((i + 1) as usize)
        } else {
            RekeyPhase::Restored
        },
        RekeyPhase::Persist => if ok {
            RekeyPhase::Complete
        } else {
            RekeyPhase::Restore(0)
        },
        over => over,
    }
}

/// The statements that give a file the new key and read it under that key.
pub open spec fn rekey_statements(key: Seq<char>) -> Seq<StatementView> {
    seq![batch_view("PRAGMA rekey = \"x'"@ + key + "'\";"@), verify_statement()]
}

/// The statements that give a file the new key and read it under that key.
pub fn rekey_script(key: &str) -> (r: Vec<Statement>)
    requires
        key_ok(key@),
    ensures
        statement_views(r@) == rekey_statements(key@),
{
    let sql = concat3("PRAGMA rekey = \"x'", key, "'\";");
    let mut v: Vec<Statement> = Vec::new();
    v.push(batch(sql.as_str()));
    v.push(verify_open());
    assert(statement_views(v@) =~= rekey_statements(key@));
    v
}

/// The action asks for what the phase needs.
pub open spec fn fits_phase(s: RekeyView, a: Option<RekeyAction>, key: Seq<char>) -> bool {
    match s.phase {
        RekeyPhase::Backup(i) => a matches Some(RekeyAction::Backup { file, statement }) && file@
            == s.files[i as int] && statement@ == batch_view(
            "VACUUM INTO '"@ + doubled_quotes(s.backups[i as int]) + "'"@,
        ),
        RekeyPhase::Rekey(i) => a matches Some(RekeyAction::Rekey { file, statements }) && file@
            == s.files[i as int] && statement_views(statements@) == rekey_statements(key),
        RekeyPhase::Restore(i) => a matches Some(RekeyAction::Restore { file, backup, stale })
            && file@ == s.files[i as int] && backup@ == s.backups[i as int] && views(stale@)
            == stale_files(s.files[i as int]),
        RekeyPhase::Persist => a matches Some(RekeyAction::Persist),
        _ => a is None,
    }
}

impl RekeyRun {
    /// There is a backup for each file, and the run stands at one of them.
    pub open spec fn well_formed(self) -> bool {
        &&& self@.files.len() > 0
        &&& self@.files.len() <= usize::MAX
        &&& self@.backups.len() == self@.files.len()
        &&& match self@.phase {
            RekeyPhase::Backup(i) => i < self@.files.len(),
            RekeyPhase::Rekey(i) => i < self@.files.len(),
            RekeyPhase::Restore(i) => i < self@.files.len(),
            _ => true,
        }
    }

    /// A run that is about to begin, or what is said where there is nothing to do.
    /// The backups are to stand in `backup_dir` under the names of the files.
    pub fn start(
        enabled: bool,
        data_dir: &str,
        backup_dir: &str,
        files: Vec<String>,
        names: &Vec<String>,
    ) -> (r: Result<RekeyRun, String>)
        requires
            names@.len() == files@.len(),
        ensures
            match r {
                Ok(run) => {
                    &&& enabled && files@.len() > 0
                    &&& run.well_formed()
                    &&& run@.files == views(files@)
                    &&& run@.backups == Seq::new(
                        names@.len(),
                        |i: int| backup_dir@ + "/"@ + names@[i]@,
                    )
                    &&& run@.phase == RekeyPhase::Backup(0)
                },
                Err(m) => if !enabled {
                    m@ == "encryption is disabled; nothing to rekey"@
                } else {
                    files@.len() == 0 && m@ == "no database files found under "@ + data_dir@
                },
            },
    {
        if !enabled {
            return Err("encryption is disabled; nothing to rekey".to_string());
        }
        if files.len() == 0 {
            return Err(concat2("no database files found under ", data_dir));
        }
        let mut backups: Vec<String> = Vec::new();
        let mut i: usize = 0;
        while i < names.len()
            invariant
                i <= names@.len(),
                backups@.len() == i,
                forall|k: int|
                    0 <= k < i ==> (#[trigger] backups@[k])@ == backup_dir@ + "/"@ + names@[k]@,
            decreases names@.len() - i,
        {
            backups.push(concat3(backup_dir, "/", names[i].as_str()));
            i = i + 1;
        }
        assert(views(backups@) =~= Seq::new(
            names@.len(),
            |i: int| backup_dir@ + "/"@ + names@[i]@,
        ));
        let n: usize = files.len();
        assert(views(files@).len() == n);
        Ok(RekeyRun { files, backups, phase: RekeyPhase::Backup(0) })
    }

    /// What to do next; none when the run is over.
    pub fn action(&self, new_key: &str) -> (r: Option<RekeyAction>)
        requires
            self.well_formed(),
            key_ok(new_key@),
        ensures
            fits_phase(self@, r, new_key@),
    {
        assert(views(self.files@).len() == self.files@.len());
        assert(views(self.backups@).len() == self.backups@.len());
        match self.phase {
            RekeyPhase::Backup(i) => Some(
                RekeyAction::Backup {
                    file: self.files[i].clone(),
                    statement: snapshot_statement(self.backups[i].as_str()),
                },
            ),
            RekeyPhase::Rekey(i) => Some(
                RekeyAction::Rekey {
                    file: self.files[i].clone(),
                    statements: rekey_script(new_key),
                },
            ),
            RekeyPhase::Restore(i) => Some(
                RekeyAction::Restore {
                    file: self.files[i].clone(),
                    backup: self.backups[i].clone(),
                    stale: sidecars(self.files[i].as_str()),
                },
            ),
            RekeyPhase::Persist => Some(RekeyAction::Persist),
            _ => None,
        }
    }

    /// Takes whether the action succeeded.
    pub fn report(&mut self, ok: bool)
        requires
            old(self).well_formed(),
        ensures
            final(self).well_formed(),
            final(self)@ == (RekeyView {
                phase: rekey_next(old(self)@.files.len(), old(self)@.phase, ok),
                ..old(self)@
            }),
    {
        let n: usize = self.files.len();
        assert(views(self.files@).len() == n);
        let next = match self.phase {
            RekeyPhase::Backup(i) => if !ok {
                RekeyPhase::BackupFailed(i)
            } else if i + 1 < n {
                RekeyPhase::Backup(i + 1)
            } else {
                RekeyPhase::Rekey(0)
            },
            RekeyPhase::Rekey(i) => if !ok {
                RekeyPhase::Restore(0)
            } else if i + 1 < n {
                RekeyPhase::Rekey(i + 1)
            } else {
                RekeyPhase::Persist
            },
            RekeyPhase::Restore(i) => if !ok {
                RekeyPhase::RestoreFailed(i)
            } else if i + 1 < n {
                RekeyPhase::Restore(i + 1)
            } else {
                RekeyPhase::Restored
            },
            RekeyPhase::Persist => if ok {
                RekeyPhase::Complete
            } else {
                RekeyPhase::Restore(0)
            },
            over => over,
        };
        self.phase = next;
    }

    /// Where the run stands.
    pub fn phase(&self) -> (r: RekeyPhase)
        ensures
            r == self@.phase,
    {
        self.phase
    }
}

// ---- What holds of every run -----------------------------------------------

/// The phase after what was reported so far.
pub open spec fn rekey_after(n: nat, reports: Seq<bool>) -> RekeyPhase
    decreases reports.len(),
{
    if reports.len() == 0 {
        RekeyPhase::Backup(0)
    } else {
        rekey_next(n, rekey_after(n, reports.drop_last()), reports.last())
    }
}

/// What has to have been reported for the run to stand where it does.
spec fn rekey_history(n: nat, reports: Seq<bool>) -> bool {
    let k = reports.len();
    match rekey_after(n, reports) {
        RekeyPhase::Backup(i) => k == i && i < n && all_ok(reports, 0, k as int),
        RekeyPhase::Rekey(i) => k == n + i && i < n && all_ok(reports, 0, k as int),
        RekeyPhase::Persist => k == 2 * n && all_ok(reports, 0, k as int),
        RekeyPhase::Complete => k >= 2 * n + 1 && all_ok(reports, 0, 2 * n as int + 1),
        RekeyPhase::Restore(i) => i < n && exists|f: int|
            n <= f <= 2 * n && #[trigger] failed_at(reports, f) && k == f + 1 + i && all_ok(
                reports,
                f + 1,
                k as int,
            ),
        RekeyPhase::Restored => exists|f: int|
            n <= f <= 2 * n && #[trigger] failed_at(reports, f) && k >= f + 1 + n && all_ok(
                reports,
                f + 1,
                f + 1 + n,
            ),
        _ => true,
    }
}

/// Every report from `a` to `b` was a success.
pub open spec fn all_ok(reports: Seq<bool>, a: int, b: int) -> bool {
    forall|j: int| a <= j < b ==> #[trigger] reports[j]
}

/// The report at `f` was the first failure.
pub open spec fn failed_at(reports: Seq<bool>, f: int) -> bool {
    0 <= f < reports.len() && !reports[f] && all_ok(reports, 0, f)
}

proof fn lemma_rekey_history(n: nat, reports: Seq<bool>)
    requires
        0 < n <= usize::MAX,
    ensures
        rekey_history(n, reports),
    decreases reports.len(),
{
    if reports.len() > 0 {
        let front = reports.drop_last();
        let k = front.len() as int;
        lemma_rekey_history(n, front);
        assert(forall|j: int| 0 <= j < k ==> reports[j] == front[j]);
        assert(reports.last() == reports[k]);
        let before = rekey_after(n, front);
        match before {
            RekeyPhase::Rekey(_) | RekeyPhase::Persist => {
                if !reports.last() {
                    assert(failed_at(reports, k));
                }
            },
            RekeyPhase::Restore(i) => {
                let f = choose|f: int|
                    n <= f <= 2 * n && #[trigger] failed_at(front, f) && k == f + 1 + i && all_ok(
                        front,
                        f + 1,
                        k,
                    );
                assert(failed_at(reports, f));
            },
            RekeyPhase::Restored => {
                let f = choose|f: int|
                    n <= f <= 2 * n && #[trigger] failed_at(front, f) && k >= f + 1 + n && all_ok(
                        front,
                        f + 1,
                        f + 1 + n,
                    );
                assert(failed_at(reports, f));
            },
            _ => {},
        }
    }
}

/// The new key is stored only after every file was backed up and every file was
/// given the key and read under it: each of those steps has succeeded.
pub proof fn law_key_is_stored_last(n: nat, reports: Seq<bool>)
    requires
        0 < n <= usize::MAX,
        rekey_after(n, reports) is Persist,
    ensures
        reports.len() == 2 * n,
        all_ok(reports, 0, 2 * n as int),
{
    lemma_rekey_history(n, reports);
}

proof fn lemma_rekey_forward(n: nat, reports: Seq<bool>, k: int)
    requires
        0 < n <= usize::MAX,
        0 <= k <= reports.len(),
        k <= 2 * n,
        all_ok(reports, 0, k),
    ensures
        rekey_after(n, reports.take(k)) == (if k < n {
            RekeyPhase::Backup(k as usize)
        } else if k < 2 * n {
            RekeyPhase::Rekey((k - n) as usize)
        } else {
            RekeyPhase::Persist
        }),
    decreases k,
{
    if k > 0 {
        lemma_rekey_forward(n, reports, k - 1);
        assert(reports.take(k).drop_last() =~= reports.take(k - 1));
        assert(reports.take(k).last() == reports[k - 1]);
    }
}

proof fn lemma_rekey_back(n: nat, reports: Seq<bool>, f: int, k: int)
    requires
        0 < n <= usize::MAX,
        n <= f <= 2 * n,
        failed_at(reports, f),
        f < k <= reports.len(),
        all_ok(reports, f + 1, f + 1 + n),
    ensures
        rekey_after(n, reports.take(k)) == (if k - f - 1 < n {
            RekeyPhase::Restore((k - f - 1) as usize)
        } else {
            RekeyPhase::Restored
        }),
    decreases k,
{
    assert(reports.take(k).drop_last() =~= reports.take(k - 1));
    assert(reports.take(k).last() == reports[k - 1]);
    if k == f + 1 {
        lemma_rekey_forward(n, reports, f);
    } else {
        lemma_rekey_back(n, reports, f, k - 1);
    }
}

/// Whatever fails once the backups are made, be it that a file is given the key or
/// read under it or that the key is stored: when the files are then restored with
/// success, the run ends with every file as it was.
pub proof fn law_any_failure_is_undone(n: nat, reports: Seq<bool>, f: int)
    requires
        0 < n <= usize::MAX,
        n <= f <= 2 * n,
        failed_at(reports, f),
        reports.len() >= f + 1 + n,
        all_ok(reports, f + 1, f + 1 + n),
    ensures
        rekey_after(n, reports) is Restored,
{
    lemma_rekey_back(n, reports, f, reports.len() as int);
    assert(reports.take(reports.len() as int) =~= reports);
}

/// A run that ends with every file as it was has met a failure while it gave out or
/// stored the key, and has since restored all the files with success.
pub proof fn law_failure_restores_every_file(n: nat, reports: Seq<bool>)
    requires
        0 < n <= usize::MAX,
        rekey_after(n, reports) is Restored,
    ensures
        exists|f: int|
            n <= f <= 2 * n && #[trigger] failed_at(reports, f) && reports.len() >= f + 1 + n
                && all_ok(reports, f + 1, f + 1 + n),
{
    lemma_rekey_history(n, reports);
}

/// A run comes to an end: no more than three steps for each file, and one for the key,
/// are asked for.
pub proof fn law_rekey_comes_to_an_end(n: nat, reports: Seq<bool>)
    requires
        0 < n <= usize::MAX,
        reports.len() >= 3 * n + 1,
    ensures
        rekey_over(rekey_after(n, reports)),
{
    lemma_rekey_history(n, reports);
}

/// After a failure the key is never stored.
pub proof fn law_no_key_after_a_failure(n: nat, p: RekeyPhase, ok: bool)
    requires
        p is Restore || p is Restored || p is RestoreFailed || p is BackupFailed,
    ensures
        !(rekey_next(n, p, ok) is Persist) && !(rekey_next(n, p, ok) is Complete) && !(rekey_next(
            n,
            p,
            ok,
        ) is Rekey),
{
}

} // verus!
