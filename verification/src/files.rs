//! The names of the files of an instance.

use crate::text::{chars_of, concat2, concat3, same, slice_text, views};
use vstd::prelude::*;

verus! {

/// The name of a database file: it ends in `.db`.
pub open spec fn database_file(name: Seq<char>) -> bool {
    name.len() >= 3 && name.skip(name.len() - 3) == ".db"@
}

/// Whether a file is a database, and not one of those that the engine keeps beside
/// it.
pub fn is_database_file(name: &str) -> (r: bool)
    ensures
        r == database_file(name@),
{
    let v = chars_of(name);
    if v.len() < 3 {
        return false;
    }
    let tail = slice_text(&v, v.len() - 3, v.len());
    assert(name@.subrange(name@.len() - 3, name@.len() as int) =~= name@.skip(name@.len() - 3));
    same(tail.as_str(), ".db")
}

/// The database files among the files of a directory, in the same order.
pub fn enumerate_db_files(names: &Vec<String>) -> (r: Vec<String>)
    ensures
        views(r@) == views(names@).filter(|n: Seq<char>| database_file(n)),
{
    let ghost keep = |n: Seq<char>| database_file(n);
    let mut out: Vec<String> = Vec::new();
    let mut i: usize = 0;
    while i < names.len()
        invariant
            i <= names@.len(),
            keep == (|n: Seq<char>| database_file(n)),
            views(out@) == views(names@).take(i as int).filter(keep),
        decreases names@.len() - i,
    {
        let ghost before = views(names@).take(i as int);
        let ghost kept = out@;
        if is_database_file(names[i].as_str()) {
            out.push(names[i].clone());
            assert(views(out@) =~= views(kept).push(names@[i as int]@));
        }
        proof {
            let next = views(names@).take(i + 1);
            assert(next =~= before.push(names@[i as int]@));
            assert(next.drop_last() =~= before);
            reveal(Seq::filter);
        }
        i = i + 1;
    }
    assert(views(names@).take(i as int) =~= views(names@));
    out
}

/// The file of a database.
pub fn database_file_name(name: &str) -> (r: String)
    ensures
        r@ == name@ + ".db"@,
        database_file(r@),
{
    proof {
        law_sidecars_are_no_databases(name@);
    }
    concat2(name, ".db")
}

/// The file that a copy of a database is put into.
pub fn snapshot_file_name(db: &str, fresh: &str) -> (r: String)
    ensures
        r@ == db@ + "-"@ + fresh@ + ".db"@,
{
    let head = concat3(db, "-", fresh);
    concat2(head.as_str(), ".db")
}

/// The directory that the files are copied into before they are given another key.
pub fn backup_dir_name(fresh: &str) -> (r: String)
    ensures
        r@ == "prerekey-"@ + fresh@,
{
    concat2("prerekey-", fresh)
}

/// What the engine may keep beside a file.
pub open spec fn stale_files(file: Seq<char>) -> Seq<Seq<char>> {
    seq![file + "-wal"@, file + "-shm"@]
}

/// What the engine may keep beside a file.
pub fn sidecars(file: &str) -> (r: Vec<String>)
    ensures
        views(r@) == stale_files(file@),
{
    let mut v: Vec<String> = Vec::new();
    v.push(concat2(file, "-wal"));
    v.push(concat2(file, "-shm"));
    assert(views(v@) =~= stale_files(file@));
    v
}

/// Everything that is removed with a database: the file, and what the engine may
/// keep beside it.
pub fn files_of_database(file: &str) -> (r: Vec<String>)
    ensures
        views(r@) == seq![file@] + stale_files(file@),
{
    let mut v: Vec<String> = Vec::new();
    v.push(file.to_string());
    let mut beside = sidecars(file);
    let ghost tail = beside@;
    v.append(&mut beside);
    assert(views(v@) =~= seq![file@] + views(tail));
    v
}

/// The files that the engine keeps beside a database are not taken for databases.
pub proof fn law_sidecars_are_no_databases(file: Seq<char>)
    ensures
        !database_file(file + "-wal"@),
        !database_file(file + "-shm"@),
        database_file(file + ".db"@),
{
    reveal_strlit("-wal");
    reveal_strlit("-shm");
    reveal_strlit(".db");
    let w = file + "-wal"@;
    let s = file + "-shm"@;
    let d = file + ".db"@;
    assert(w.skip(w.len() - 3)[0] == 'w');
    assert(s.skip(s.len() - 3)[0] == 's');
    assert(".db"@[0] == '.');
    assert(d.skip(d.len() - 3) =~= ".db"@);
}

} // verus!
