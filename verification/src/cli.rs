//! What the commands of an operator decide and print.

use crate::system::{
    named_role, pair_views, role_name, DatabaseRecord, PrincipalRecord, PrincipalRecordView, Role,
};
use crate::text::{concat2, concat3, join, join_texts, signed_decimal, signed_text, views};
use vstd::prelude::*;

verus! {

/// Whether the first administrator is still to be made: there is no principal yet.
pub fn needs_bootstrap(principals: i64) -> (r: bool)
    ensures
        r == (principals == 0),
{
    principals == 0
}

/// The role that an operator names.
pub fn parse_role(s: &str) -> (r: Result<Role, &'static str>)
    ensures
        match r {
            Ok(role) => named_role(s@) == Some(role),
            Err(m) => named_role(s@) is None && m@ == "role must be read|write|admin"@,
        },
{
    match Role::parse(s) {
        Some(role) => Ok(role),
        None => Err("role must be read|write|admin"),
    }
}

/// Refuses a database of which none was counted.
pub fn require_database(name: &str, count: i64) -> (r: Result<(), String>)
    ensures
        match r {
            Ok(_) => count > 0,
            Err(m) => count <= 0 && m@ == "database '"@ + name@ + "' does not exist"@,
        },
{
    if count > 0 {
        Ok(())
    } else {
        Err(concat3("database '", name, "' does not exist"))
    }
}

/// What is said of a database that is there already.
pub fn database_exists_message(name: &str) -> (r: String)
    ensures
        r@ == "database '"@ + name@ + "' already exists"@,
{
    concat3("database '", name, "' already exists")
}

/// A database, as it is listed.
pub fn database_line(d: &DatabaseRecord) -> (r: String)
    ensures
        r@ == d.name@ + "\t"@ + signed_decimal(d.created_at as int),
{
    let at = signed_text(d.created_at);
    concat3(d.name.as_str(), "\t", at.as_str())
}

/// What is said of a grant that was entered.
pub fn granted_line(role: Role, db: &str, user: &str) -> (r: String)
    ensures
        r@ == "granted "@ + role_name(role) + " on "@ + db@ + " to "@ + user@,
{
    let head = concat3("granted ", role.as_str(), " on ");
    let tail = concat3(db, " to ", user);
    let r = concat2(head.as_str(), tail.as_str());
    assert(r@ =~= "granted "@ + role_name(role) + " on "@ + db@ + " to "@ + user@);
    r
}

/// The grants of a principal, as they are listed.
pub open spec fn grant_texts(grants: Seq<(Seq<char>, Seq<char>)>) -> Seq<Seq<char>> {
    Seq::new(grants.len(), |i: int| grants[i].0 + ":"@ + grants[i].1)
}

/// A principal, as it is listed: its identifier, its name, what it is, whether it is
/// disabled, and its grants.
pub open spec fn principal_text(
    p: PrincipalRecordView,
    grants: Seq<(Seq<char>, Seq<char>)>,
) -> Seq<char> {
    p.id + "\t"@ + p.name + "\t"@ + (if p.username is Some {
        "browser"@
    } else {
        "token"@
    }) + "\t"@ + (if p.disabled {
        "disabled"@
    } else {
        "active"@
    }) + "\t"@ + join(grant_texts(grants), ","@)
}

/// A principal, as it is listed.
pub fn principal_line(p: &PrincipalRecord, grants: &Vec<(String, String)>) -> (r: String)
    ensures
        r@ == principal_text(p@, pair_views(grants@)),
{
    let kind = if p.username.is_some() {
        "browser"
    } else {
        "token"
    };
    let status = if p.disabled {
        "disabled"
    } else {
        "active"
    };
    let mut texts: Vec<String> = Vec::new();
    let mut i: usize = 0;
    while i < grants.len()
        invariant
            i <= grants@.len(),
            texts@.len() == i,
            forall|k: int|
                0 <= k < i ==> (#[trigger] texts@[k])@ == grant_texts(pair_views(grants@))[k],
        decreases grants@.len() - i,
    {
        texts.push(concat3(grants[i].0.as_str(), ":", grants[i].1.as_str()));
        i = i + 1;
    }
    assert(views(texts@) =~= grant_texts(pair_views(grants@)));
    let list = join_texts(&texts, ",");
    let a = concat3(p.id.as_str(), "\t", p.name.as_str());
    let b = concat3(a.as_str(), "\t", kind);
    let c = concat3(b.as_str(), "\t", status);
    let r = concat3(c.as_str(), "\t", list.as_str());
    assert(r@ =~= principal_text(p@, pair_views(grants@)));
    r
}

} // verus!
