//! What becomes of the control plane and of the records that a database keeps.
//!
//! For each statement it is said what it is for: which rows it takes out, changes, adds,
//! or asks for, whatever the engine.

use crate::admin::{forget_database, grant_asks, grants_statement, GrantView};
use crate::auth::{auth_asks, AuthView};
use crate::batch::trim_statement;
use crate::data_op::{op_statement, DataOpView, StageView};
use crate::engine::{
    asks, both, change_ok, change_text, chosen, column_name, cond_ok, cond_text, deletes, either,
    enters, expr_value, holds, lemma_both, lemma_params, lemma_row_of, lemma_three, less_value,
    new_row, question_ok, question_text, relation_text, row_of, same_value, seeks, set_row, three,
    updates, Change, Clash, Cond, Direction, Engine, Expr, Question, Relation, Row, Wanted,
};
use crate::index_op::{create_index_statement, drop_index_statement, CreateIndexView, DropIndexView};
use crate::indexes::list_indexes_statement;
use crate::readings::{
    access_clear_tree, access_enter_tree, access_of_end_tree, by_token_tree, by_username_tree,
    database_count_tree, database_delete_tree, database_insert_tree, database_list_tree,
    disable_tree, everyone_tree, first_admin_tree, grant_delete_tree, grant_role_tree,
    grant_upsert_tree, grants_end_tree, grants_of_tree, index_count_tree, index_delete_tree,
    index_insert_tree, index_list_tree, lemma_access_clear_reads, lemma_access_enter_reads,
    lemma_access_of_end_reads, lemma_by_token_reads, lemma_by_username_reads,
    lemma_database_count_reads, lemma_database_delete_reads, lemma_database_insert_reads,
    lemma_database_list_reads, lemma_disable_reads, lemma_everyone_reads, lemma_first_admin_reads,
    lemma_grant_delete_reads, lemma_grant_role_reads, lemma_grant_upsert_reads,
    lemma_grants_end_reads, lemma_grants_of_reads, lemma_index_count_reads,
    lemma_index_delete_reads, lemma_index_insert_reads, lemma_index_list_reads,
    lemma_log_binary_reads, lemma_log_delete_reads, lemma_log_text_reads, lemma_missed_reads,
    lemma_newest_reads, lemma_oldest_reads, lemma_policy_reads, lemma_policy_set_reads,
    lemma_principal_count_reads, lemma_principal_insert_reads, lemma_resettable_reads,
    lemma_same_id_reads, lemma_same_name_reads, lemma_session_end_reads,
    lemma_session_enter_reads, lemma_session_find_reads, lemma_session_revoke_reads,
    lemma_sessions_clear_reads, lemma_sessions_of_end_reads, lemma_set_password_reads,
    lemma_set_token_reads, lemma_some_people_reads, lemma_table_count_reads,
    lemma_user_insert_reads, log_binary_tree, log_delete_tree, log_text_tree, missed_tree,
    newest_tree, oldest_tree, policy_set_tree, policy_tree, principal_count_tree,
    principal_insert_tree, resettable_tree, same_id_tree, same_name_tree, session_end_tree,
    session_enter_tree, session_find_tree, session_revoke_tree, sessions_clear_tree,
    sessions_of_end_tree, set_password_tree, set_token_tree, some_people_tree, table_count_tree,
    user_insert_tree,
};
use crate::realtime::{resume_asks, Op, ResumeView};
use crate::schema::exists_statement;
use crate::sessions::{
    admin_token_asks, admin_token_next, issue_statements, reset_asks, reset_statements,
    resolve_asks, rotate_asks, AdminTokenView, ResetView, ResolveView, RotateView, TokenSetView,
};
use crate::sql::{Mode, ReplyView, StatementView, ValueView};
use crate::system::{
    access_token_statement, database_exists_statement, database_listing, disabling, first_text,
    forgetting, grant_listing, grant_role_statement, insert_browser_user,
    insert_database_statement, insert_principal, list_statement, policy_change, policy_lookup,
    principal_count, signing_out, token_lookup, ungranting, upsert_grant_statement, user_lookup,
    Role,
};
use crate::tokens::{base64url, token_hash};
use vstd::prelude::*;

verus! {

/// The word by which a change is recorded.
pub open spec fn change_word(op: Op) -> Seq<char> {
    match op {
        Op::Insert => "insert"@,
        Op::Update => "update"@,
        Op::Delete => "delete"@,
    }
}

/// The word by which a role is granted.
pub open spec fn role_word(role: Role) -> Seq<char> {
    match role {
        Role::Read => "read"@,
        Role::Write => "write"@,
        Role::Admin => "admin"@,
    }
}

/// A principal is entered as it was asked for: enabled, with the hash of its token in
/// place of the token.
pub proof fn law_principal_is_entered(id: Seq<char>, name: Seq<char>, is_admin: bool, token: Seq<char>, now: i64)
    ensures
        enters(
            insert_principal(id, name, is_admin, token, now),
            "principals"@,
            row_of(
                seq![
                    ("id"@, ValueView::Text(id)),
                    ("name"@, ValueView::Text(name)),
                    ("is_admin"@, ValueView::Integer(
            if is_admin {
                1
            } else {
                0
            },
        )),
                    ("token_hash"@, ValueView::Text(token_hash(token))),
                    ("disabled"@, ValueView::Integer(0)),
                    ("created_at"@, ValueView::Integer(now)),
                ],
            ),
            Clash::Refuse,
        ),
{
    lemma_principal_insert_reads();
    let s = insert_principal(id, name, is_admin, token, now);
    let cells = seq![
        ("id"@, ValueView::Text(id)),
        ("name"@, ValueView::Text(name)),
        ("is_admin"@, ValueView::Integer(
            if is_admin {
                1
            } else {
                0
            },
        )),
        ("token_hash"@, ValueView::Text(token_hash(token))),
        ("disabled"@, ValueView::Integer(0)),
        ("created_at"@, ValueView::Integer(now)),
    ];
    let columns = principal_insert_tree()->columns;
    let values = principal_insert_tree()->values;
    assert forall|e: Engine| #[trigger] new_row(e, columns, values, s.params) == row_of(cells) by {
        lemma_row_of(e, columns, values, s.params, cells);
    }
    assert(change_ok(
        Change::Insert { table: "principals"@, columns, values, clash: Clash::Refuse },
    ));
}

/// A browser user is entered enabled, as no administrator, and signs in under its name
/// with the password of that hash.
pub proof fn law_user_is_entered(id: Seq<char>, username: Seq<char>, token: Seq<char>, now: i64, hash: Seq<char>)
    ensures
        enters(
            insert_browser_user(id, username, token, now, hash),
            "principals"@,
            row_of(
                seq![
                    ("id"@, ValueView::Text(id)),
                    ("name"@, ValueView::Text(username)),
                    ("is_admin"@, ValueView::Integer(0)),
                    ("token_hash"@, ValueView::Text(token_hash(token))),
                    ("disabled"@, ValueView::Integer(0)),
                    ("created_at"@, ValueView::Integer(now)),
                    ("username"@, ValueView::Text(username)),
                    ("password_hash"@, ValueView::Text(hash)),
                ],
            ),
            Clash::Refuse,
        ),
{
    lemma_user_insert_reads();
    let s = insert_browser_user(id, username, token, now, hash);
    let cells = seq![
        ("id"@, ValueView::Text(id)),
        ("name"@, ValueView::Text(username)),
        ("is_admin"@, ValueView::Integer(0)),
        ("token_hash"@, ValueView::Text(token_hash(token))),
        ("disabled"@, ValueView::Integer(0)),
        ("created_at"@, ValueView::Integer(now)),
        ("username"@, ValueView::Text(username)),
        ("password_hash"@, ValueView::Text(hash)),
    ];
    let columns = user_insert_tree()->columns;
    let values = user_insert_tree()->values;
    assert forall|e: Engine| #[trigger] new_row(e, columns, values, s.params) == row_of(cells) by {
        lemma_row_of(e, columns, values, s.params, cells);
    }
    assert(change_ok(
        Change::Insert { table: "principals"@, columns, values, clash: Clash::Refuse },
    ));
}

/// A token is looked for among the principals by its hash, and by nothing else.
pub proof fn law_token_is_looked_up_by_its_hash(a: AuthView, now: i64)
    requires
        a.stage is ByToken,
    ensures
        seeks(
            auth_asks(a, now)->0,
            "principals"@,
            Wanted::Cells(seq![Expr::Column("id"@), Expr::Column("name"@), Expr::Column("is_admin"@), Expr::Column("disabled"@)]),
            |e: Engine, r: Row| r["token_hash"@] == ValueView::Text(token_hash(a.token)),
            Seq::empty(),
            None,
        ),
{
    lemma_by_token_reads();
    let s = auth_asks(a, now)->0;
    let q = by_token_tree();
    let p = |e: Engine, r: Row| r["token_hash"@] == ValueView::Text(token_hash(a.token));
    assert(asks(s, q));
    assert forall|e: Engine, r: Row| #[trigger] chosen(e, q, s.params, r) <==> p(e, r) by {}
}

/// Whoever signs in is looked for by the user name among those that are not disabled.
pub proof fn law_users_sign_in_by_name(username: Seq<char>)
    ensures
        seeks(
            user_lookup(username),
            "principals"@,
            Wanted::Cells(seq![Expr::Column("id"@), Expr::Column("password_hash"@)]),
            |e: Engine, r: Row| r["username"@] == ValueView::Text(username) && same_value(e, r["disabled"@], ValueView::Integer(0)),
            Seq::empty(),
            None,
        ),
{
    lemma_by_username_reads();
    let s = user_lookup(username);
    let q = by_username_tree();
    let p = |e: Engine, r: Row| r["username"@] == ValueView::Text(username) && same_value(e, r["disabled"@], ValueView::Integer(0));
    let cond = q.cond->0;
    if let Cond::All(cs) = cond {
        lemma_both(cs[0], cs[1]);
        assert(cond == both(cs[0], cs[1]));
    }
    assert(asks(s, q));
    assert forall|e: Engine, r: Row| #[trigger] chosen(e, q, s.params, r) <==> p(e, r) by {}
}

/// Disabling a principal disables exactly the one with the identifier, and changes nothing
/// else of it.
pub proof fn law_disabling_disables(id: Seq<char>)
    ensures
        updates(
            disabling(id),
            "principals"@,
            |e: Engine, r: Row| r["id"@] == ValueView::Text(id),
            |r: Row| r.insert("disabled"@, ValueView::Integer(1)),
        ),
{
    lemma_disable_reads();
    let s = disabling(id);
    let p = |e: Engine, r: Row| r["id"@] == ValueView::Text(id);
    let f = |r: Row| r.insert("disabled"@, ValueView::Integer(1));
    let cond = disable_tree()->Update_cond;
    let sets = disable_tree()->sets;
    assert forall|e: Engine, r: Row| #[trigger] holds(e, cond, s.params, r) <==> p(e, r) by {}
    assert forall|e: Engine, r: Row| #[trigger] set_row(e, sets, s.params, r) == f(r) by {
        reveal_with_fuel(set_row, 3);
        assert(sets.drop_last() =~= Seq::empty());
        
    }
    assert(change_ok(Change::Update { table: "principals"@, sets, cond }));
}

/// A new password is stored for exactly the user with the identifier.
pub proof fn law_new_password_is_stored(id: Seq<char>, hash: Seq<char>)
    ensures
        updates(
            reset_statements(id, hash)[0],
            "principals"@,
            |e: Engine, r: Row| r["id"@] == ValueView::Text(id),
            |r: Row| r.insert("password_hash"@, ValueView::Text(hash)),
        ),
{
    lemma_set_password_reads();
    let s = reset_statements(id, hash)[0];
    let p = |e: Engine, r: Row| r["id"@] == ValueView::Text(id);
    let f = |r: Row| r.insert("password_hash"@, ValueView::Text(hash));
    let cond = set_password_tree()->Update_cond;
    let sets = set_password_tree()->sets;
    assert forall|e: Engine, r: Row| #[trigger] holds(e, cond, s.params, r) <==> p(e, r) by {}
    assert forall|e: Engine, r: Row| #[trigger] set_row(e, sets, s.params, r) == f(r) by {
        reveal_with_fuel(set_row, 3);
        assert(sets.drop_last() =~= Seq::empty());
        
    }
    assert(change_ok(Change::Update { table: "principals"@, sets, cond }));
}

/// A new password ends every access token of the user, and of nobody else.
pub proof fn law_new_password_ends_access(id: Seq<char>, hash: Seq<char>)
    ensures
        deletes(
            reset_statements(id, hash)[1],
            "browser_access_tokens"@,
            |e: Engine, r: Row| r["principal_id"@] == ValueView::Text(id),
        ),
{
    lemma_access_of_end_reads();
    let s = reset_statements(id, hash)[1];
    let p = |e: Engine, r: Row| r["principal_id"@] == ValueView::Text(id);
    let cond = access_of_end_tree()->Delete_cond;
    assert forall|e: Engine, r: Row| #[trigger] holds(e, cond, s.params, r) <==> p(e, r) by {}
    assert(change_ok(Change::Delete { table: "browser_access_tokens"@, cond }));
}

/// A new password ends every session of the user, and of nobody else.
pub proof fn law_new_password_ends_sessions(id: Seq<char>, hash: Seq<char>)
    ensures
        deletes(
            reset_statements(id, hash)[2],
            "browser_sessions"@,
            |e: Engine, r: Row| r["principal_id"@] == ValueView::Text(id),
        ),
{
    lemma_sessions_of_end_reads();
    let s = reset_statements(id, hash)[2];
    let p = |e: Engine, r: Row| r["principal_id"@] == ValueView::Text(id);
    let cond = sessions_of_end_tree()->Delete_cond;
    assert forall|e: Engine, r: Row| #[trigger] holds(e, cond, s.params, r) <==> p(e, r) by {}
    assert(change_ok(Change::Delete { table: "browser_sessions"@, cond }));
}

/// A password is reset for a browser user that is neither disabled nor an administrator,
/// found by the user name.
pub proof fn law_passwords_are_reset_for_users(s0: ResetView)
    requires
        s0.stage is Find,
    ensures
        seeks(
            reset_asks(s0)->0,
            "principals"@,
            Wanted::Cells(seq![Expr::Column("id"@)]),
            |e: Engine, r: Row| r["username"@] == ValueView::Text(s0.username) && same_value(e, r["disabled"@], ValueView::Integer(0)) && same_value(e, r["is_admin"@], ValueView::Integer(0)),
            Seq::empty(),
            None,
        ),
{
    lemma_resettable_reads();
    let s = reset_asks(s0)->0;
    let q = resettable_tree();
    let p = |e: Engine, r: Row| r["username"@] == ValueView::Text(s0.username) && same_value(e, r["disabled"@], ValueView::Integer(0)) && same_value(e, r["is_admin"@], ValueView::Integer(0));
    let cond = q.cond->0;
    if let Cond::All(cs) = cond {
        lemma_three(cs[0], cs[1], cs[2]);
        assert(cond == three(cs[0], cs[1], cs[2]));
    }
    assert(asks(s, q));
    assert forall|e: Engine, r: Row| #[trigger] chosen(e, q, s.params, r) <==> p(e, r) by {}
}

/// The administrator whose token is renewed is the one that was entered first.
pub proof fn law_first_administrator_is_found()
    ensures
        seeks(
            admin_token_asks(AdminTokenView::Find)->0,
            "principals"@,
            Wanted::Cells(seq![Expr::Column("id"@)]),
            |e: Engine, r: Row| same_value(e, r["is_admin"@], ValueView::Integer(1)),
            seq![(Expr::Column("created_at"@), Direction::Unsaid)],
            Some(1),
        ),
{
    lemma_first_admin_reads();
    let s = admin_token_asks(AdminTokenView::Find)->0;
    let q = first_admin_tree();
    let p = |e: Engine, r: Row| same_value(e, r["is_admin"@], ValueView::Integer(1));
    assert(asks(s, q));
    assert forall|e: Engine, r: Row| #[trigger] chosen(e, q, s.params, r) <==> p(e, r) by {}
}

/// The administrator that was found is given the new token and enabled.
pub proof fn law_administrator_gets_the_new_token(r0: ReplyView, id: Seq<char>, fresh: Seq<char>, bytes: Seq<u8>, now: i64)
    requires
        first_text(r0) == Some(id),
    ensures
        updates(
            admin_token_asks(admin_token_next(AdminTokenView::Find, r0, fresh, bytes, now))->0,
            "principals"@,
            |e: Engine, r: Row| r["id"@] == ValueView::Text(id),
            |r: Row| r.insert("token_hash"@, ValueView::Text(token_hash(base64url(bytes)))).insert("disabled"@, ValueView::Integer(0)),
        ),
{
    lemma_set_token_reads();
    let s = admin_token_asks(admin_token_next(AdminTokenView::Find, r0, fresh, bytes, now))->0;
    let p = |e: Engine, r: Row| r["id"@] == ValueView::Text(id);
    let f = |r: Row| r.insert("token_hash"@, ValueView::Text(token_hash(base64url(bytes)))).insert("disabled"@, ValueView::Integer(0));
    let cond = set_token_tree()->Update_cond;
    let sets = set_token_tree()->sets;
    assert forall|e: Engine, r: Row| #[trigger] holds(e, cond, s.params, r) <==> p(e, r) by {}
    assert forall|e: Engine, r: Row| #[trigger] set_row(e, sets, s.params, r) == f(r) by {
        reveal_with_fuel(set_row, 3);
        assert(sets.drop_last() =~= seq![sets[0]]);
        assert(seq![sets[0]].drop_last() =~= Seq::empty());
    }
    assert(change_ok(Change::Update { table: "principals"@, sets, cond }));
}

/// Who is meant is looked for first by the identifier.
pub proof fn law_principals_are_resolved_by_identifier(wanted: Seq<char>)
    ensures
        seeks(
            resolve_asks(wanted, ResolveView::ById)->0,
            "principals"@,
            Wanted::Cells(seq![Expr::Column("id"@)]),
            |e: Engine, r: Row| r["id"@] == ValueView::Text(wanted),
            Seq::empty(),
            None,
        ),
{
    lemma_same_id_reads();
    let s = resolve_asks(wanted, ResolveView::ById)->0;
    let q = same_id_tree();
    let p = |e: Engine, r: Row| r["id"@] == ValueView::Text(wanted);
    assert(asks(s, q));
    assert forall|e: Engine, r: Row| #[trigger] chosen(e, q, s.params, r) <==> p(e, r) by {}
}

/// Who is meant is then looked for by name or user name, whatever the case.
pub proof fn law_principals_are_resolved_by_name(wanted: Seq<char>)
    ensures
        seeks(
            resolve_asks(wanted, ResolveView::ByName)->0,
            "principals"@,
            Wanted::Cells(seq![Expr::Column("id"@)]),
            |e: Engine, r: Row| same_value(e, (e.call)("lower"@, seq![r["name"@]]), (e.call)("lower"@, seq![ValueView::Text(wanted)])) || (!(r["username"@] is Null) && same_value(e, (e.call)("lower"@, seq![r["username"@]]), (e.call)("lower"@, seq![ValueView::Text(wanted)]))),
            Seq::empty(),
            None,
        ),
{
    lemma_same_name_reads();
    let s = resolve_asks(wanted, ResolveView::ByName)->0;
    let q = same_name_tree();
    let p = |e: Engine, r: Row| same_value(e, (e.call)("lower"@, seq![r["name"@]]), (e.call)("lower"@, seq![ValueView::Text(wanted)])) || (!(r["username"@] is Null) && same_value(e, (e.call)("lower"@, seq![r["username"@]]), (e.call)("lower"@, seq![ValueView::Text(wanted)])));
    let called = Expr::Call1("lower"@, Box::new(Expr::Param(1)));
    let name = Expr::Call1("lower"@, Box::new(Expr::Column("name"@)));
    let username = Expr::Call1("lower"@, Box::new(Expr::Column("username"@)));
    let first = Cond::Test(name, Relation::Equal, called);
    let known = Cond::NotNull(Expr::Column("username"@));
    let second = Cond::Test(username, Relation::Equal, called);
    let pair = both(known, second);
    lemma_both(known, second);
    lemma_both(first, Cond::Group(Box::new(pair)));
    assert(q.cond->0 == either(first, Cond::Group(Box::new(pair))));
    reveal_with_fuel(expr_value, 3);
    assert(asks(s, q));
    assert forall|e: Engine, r: Row| #[trigger] chosen(e, q, s.params, r) <==> p(e, r) by {
        assert(holds(e, Cond::Group(Box::new(pair)), s.params, r) == holds(e, pair, s.params, r));
    }
}

/// Without a search every principal is listed, by name.
pub proof fn law_everyone_is_listed()
    ensures
        seeks(
            list_statement(None),
            "principals"@,
            Wanted::Cells(seq![Expr::Column("id"@), Expr::Column("name"@), Expr::Column("username"@), Expr::Column("is_admin"@), Expr::Column("disabled"@), Expr::Column("created_at"@)]),
            |e: Engine, r: Row| true,
            seq![(Expr::Column("name"@), Direction::Unsaid)],
            None,
        ),
{
    lemma_everyone_reads();
    let s = list_statement(None);
    let q = everyone_tree();
    let p = |e: Engine, r: Row| true;
    assert(asks(s, q));
    assert forall|e: Engine, r: Row| #[trigger] chosen(e, q, s.params, r) <==> p(e, r) by {}
}

/// A search lists the principals in whose name or user name the text is found, whatever
/// the case.
pub proof fn law_search_finds_names_that_hold_the_text(text: Seq<char>)
    ensures
        seeks(
            list_statement(Some(text)),
            "principals"@,
            Wanted::Cells(seq![Expr::Column("id"@), Expr::Column("name"@), Expr::Column("username"@), Expr::Column("is_admin"@), Expr::Column("disabled"@), Expr::Column("created_at"@)]),
            |e: Engine, r: Row| less_value(e, ValueView::Integer(0), (e.call)("instr"@, seq![(e.call)("lower"@, seq![r["name"@]]), (e.call)("lower"@, seq![ValueView::Text(text)])])) || less_value(e, ValueView::Integer(0), (e.call)("instr"@, seq![(e.call)("lower"@, seq![r["username"@]]), (e.call)("lower"@, seq![ValueView::Text(text)])])),
            seq![(Expr::Column("name"@), Direction::Unsaid)],
            None,
        ),
{
    lemma_some_people_reads();
    let s = list_statement(Some(text));
    let q = some_people_tree();
    let p = |e: Engine, r: Row| less_value(e, ValueView::Integer(0), (e.call)("instr"@, seq![(e.call)("lower"@, seq![r["name"@]]), (e.call)("lower"@, seq![ValueView::Text(text)])])) || less_value(e, ValueView::Integer(0), (e.call)("instr"@, seq![(e.call)("lower"@, seq![r["username"@]]), (e.call)("lower"@, seq![ValueView::Text(text)])]));
    if let Cond::Any(cs) = q.cond->0 {
        lemma_both(cs[0], cs[1]);
        assert(q.cond->0 == either(cs[0], cs[1]));
    }
    reveal_with_fuel(expr_value, 4);
    assert(asks(s, q));
    assert forall|e: Engine, r: Row| #[trigger] chosen(e, q, s.params, r) <==> p(e, r) by {}
}

/// A grant is entered for the principal and the database, under the word of the role; a
/// grant that is there takes over the role.
pub proof fn law_grant_is_entered(principal_id: Seq<char>, database: Seq<char>, role: Role)
    ensures
        enters(
            upsert_grant_statement(principal_id, database, role),
            "grants"@,
            row_of(
                seq![
                    ("principal_id"@, ValueView::Text(principal_id)),
                    ("database_name"@, ValueView::Text(database)),
                    ("role"@, ValueView::Text(role_word(role))),
                ],
            ),
            Clash::TakeOver { key: seq!["principal_id"@, "database_name"@], column: "role"@ },
        ),
{
    lemma_grant_upsert_reads();
    let s = upsert_grant_statement(principal_id, database, role);
    let cells = seq![
        ("principal_id"@, ValueView::Text(principal_id)),
        ("database_name"@, ValueView::Text(database)),
        ("role"@, ValueView::Text(role_word(role))),
    ];
    let columns = grant_upsert_tree()->columns;
    let values = grant_upsert_tree()->values;
    assert forall|e: Engine| #[trigger] new_row(e, columns, values, s.params) == row_of(cells) by {
        lemma_row_of(e, columns, values, s.params, cells);
    }
    assert(change_ok(
        Change::Insert { table: "grants"@, columns, values, clash: Clash::TakeOver { key: seq!["principal_id"@, "database_name"@], column: "role"@ } },
    ));
}

/// Taking a grant back takes out exactly the one of the principal on the database.
pub proof fn law_grant_is_taken_back(principal_id: Seq<char>, database: Seq<char>)
    ensures
        deletes(
            ungranting(principal_id, database),
            "grants"@,
            |e: Engine, r: Row| r["principal_id"@] == ValueView::Text(principal_id) && r["database_name"@] == ValueView::Text(database),
        ),
{
    lemma_grant_delete_reads();
    let s = ungranting(principal_id, database);
    let p = |e: Engine, r: Row| r["principal_id"@] == ValueView::Text(principal_id) && r["database_name"@] == ValueView::Text(database);
    let cond = grant_delete_tree()->Delete_cond;
    if let Cond::All(cs) = cond {
        lemma_both(cs[0], cs[1]);
        assert(cond == both(cs[0], cs[1]));
    }
    assert forall|e: Engine, r: Row| #[trigger] holds(e, cond, s.params, r) <==> p(e, r) by {}
    assert(change_ok(Change::Delete { table: "grants"@, cond }));
}

/// The role of a principal on a database is that of its grant on that very database.
pub proof fn law_role_is_looked_up_by_both(principal_id: Seq<char>, database: Seq<char>)
    ensures
        seeks(
            grant_role_statement(principal_id, database),
            "grants"@,
            Wanted::Cells(seq![Expr::Column("role"@)]),
            |e: Engine, r: Row| r["principal_id"@] == ValueView::Text(principal_id) && r["database_name"@] == ValueView::Text(database),
            Seq::empty(),
            None,
        ),
{
    lemma_grant_role_reads();
    let s = grant_role_statement(principal_id, database);
    let q = grant_role_tree();
    let p = |e: Engine, r: Row| r["principal_id"@] == ValueView::Text(principal_id) && r["database_name"@] == ValueView::Text(database);
    let cond = q.cond->0;
    if let Cond::All(cs) = cond {
        lemma_both(cs[0], cs[1]);
        assert(cond == both(cs[0], cs[1]));
    }
    assert(asks(s, q));
    assert forall|e: Engine, r: Row| #[trigger] chosen(e, q, s.params, r) <==> p(e, r) by {}
}

/// The grants of a principal are listed, all of them, by database.
pub proof fn law_grants_are_listed_by_principal(principal_id: Seq<char>)
    ensures
        seeks(
            grants_statement(principal_id),
            "grants"@,
            Wanted::Cells(seq![Expr::Column("database_name"@), Expr::Column("role"@)]),
            |e: Engine, r: Row| r["principal_id"@] == ValueView::Text(principal_id),
            seq![(Expr::Column("database_name"@), Direction::Unsaid)],
            None,
        ),
{
    lemma_grants_of_reads();
    let s = grants_statement(principal_id);
    let q = grants_of_tree();
    let p = |e: Engine, r: Row| r["principal_id"@] == ValueView::Text(principal_id);
    assert(asks(s, q));
    assert forall|e: Engine, r: Row| #[trigger] chosen(e, q, s.params, r) <==> p(e, r) by {}
}

/// A database is entered with the time; one that is there stays as it is.
pub proof fn law_database_is_entered(name: Seq<char>, now: i64)
    ensures
        enters(
            insert_database_statement(name, now),
            "databases"@,
            row_of(
                seq![
                    ("name"@, ValueView::Text(name)),
                    ("created_at"@, ValueView::Integer(now)),
                ],
            ),
            Clash::Ignore,
        ),
{
    lemma_database_insert_reads();
    let s = insert_database_statement(name, now);
    let cells = seq![
        ("name"@, ValueView::Text(name)),
        ("created_at"@, ValueView::Integer(now)),
    ];
    let columns = database_insert_tree()->columns;
    let values = database_insert_tree()->values;
    assert forall|e: Engine| #[trigger] new_row(e, columns, values, s.params) == row_of(cells) by {
        lemma_row_of(e, columns, values, s.params, cells);
    }
    assert(change_ok(
        Change::Insert { table: "databases"@, columns, values, clash: Clash::Ignore },
    ));
}

/// Whether there is a database is asked by its name.
pub proof fn law_database_is_looked_up_by_name(name: Seq<char>)
    ensures
        seeks(
            database_exists_statement(name),
            "databases"@,
            Wanted::Count,
            |e: Engine, r: Row| r["name"@] == ValueView::Text(name),
            Seq::empty(),
            None,
        ),
{
    lemma_database_count_reads();
    let s = database_exists_statement(name);
    let q = database_count_tree();
    let p = |e: Engine, r: Row| r["name"@] == ValueView::Text(name);
    assert(asks(s, q));
    assert forall|e: Engine, r: Row| #[trigger] chosen(e, q, s.params, r) <==> p(e, r) by {}
}

/// Deleting a database takes out exactly the one with the name.
pub proof fn law_database_is_forgotten(name: Seq<char>)
    ensures
        deletes(
            forget_database(name)[0],
            "databases"@,
            |e: Engine, r: Row| r["name"@] == ValueView::Text(name),
        ),
{
    lemma_database_delete_reads();
    let s = forget_database(name)[0];
    let p = |e: Engine, r: Row| r["name"@] == ValueView::Text(name);
    let cond = database_delete_tree()->Delete_cond;
    assert forall|e: Engine, r: Row| #[trigger] holds(e, cond, s.params, r) <==> p(e, r) by {}
    assert(change_ok(Change::Delete { table: "databases"@, cond }));
}

/// With a database go exactly the grants on it.
pub proof fn law_grants_go_with_the_database(name: Seq<char>)
    ensures
        deletes(
            forget_database(name)[1],
            "grants"@,
            |e: Engine, r: Row| r["database_name"@] == ValueView::Text(name),
        ),
{
    lemma_grants_end_reads();
    let s = forget_database(name)[1];
    let p = |e: Engine, r: Row| r["database_name"@] == ValueView::Text(name);
    let cond = grants_end_tree()->Delete_cond;
    assert forall|e: Engine, r: Row| #[trigger] holds(e, cond, s.params, r) <==> p(e, r) by {}
    assert(change_ok(Change::Delete { table: "grants"@, cond }));
}

/// Every database is listed, by name.
pub proof fn law_databases_are_listed()
    ensures
        seeks(
            database_listing(),
            "databases"@,
            Wanted::Cells(seq![Expr::Column("name"@), Expr::Column("created_at"@)]),
            |e: Engine, r: Row| true,
            seq![(Expr::Column("name"@), Direction::Unsaid)],
            None,
        ),
{
    lemma_database_list_reads();
    let s = database_listing();
    let q = database_list_tree();
    let p = |e: Engine, r: Row| true;
    assert(asks(s, q));
    assert forall|e: Engine, r: Row| #[trigger] chosen(e, q, s.params, r) <==> p(e, r) by {}
}

/// The policy on registration is the one setting of that name.
pub proof fn law_policy_is_asked_for()
    ensures
        seeks(
            policy_lookup(),
            "auth_settings"@,
            Wanted::Cells(seq![Expr::Column("value"@)]),
            |e: Engine, r: Row| r["key"@] == ValueView::Text("public_registration"@),
            Seq::empty(),
            None,
        ),
{
    lemma_policy_reads();
    let s = policy_lookup();
    let q = policy_tree();
    let p = |e: Engine, r: Row| r["key"@] == ValueView::Text("public_registration"@);
    assert(asks(s, q));
    assert forall|e: Engine, r: Row| #[trigger] chosen(e, q, s.params, r) <==> p(e, r) by {}
}

/// Setting the policy on registration enters a one to open it and a zero to close it, in
/// place of what was set before.
pub proof fn law_policy_is_set(enabled: bool)
    ensures
        enters(
            policy_change(enabled),
            "auth_settings"@,
            row_of(
                seq![
                    ("key"@, ValueView::Text("public_registration"@)),
                    ("value"@, ValueView::Integer(
            if enabled {
                1
            } else {
                0
            },
        )),
                ],
            ),
            Clash::TakeOver { key: seq!["key"@], column: "value"@ },
        ),
{
    lemma_policy_set_reads();
    let s = policy_change(enabled);
    let cells = seq![
        ("key"@, ValueView::Text("public_registration"@)),
        ("value"@, ValueView::Integer(
            if enabled {
                1
            } else {
                0
            },
        )),
    ];
    let columns = policy_set_tree()->columns;
    let values = policy_set_tree()->values;
    assert forall|e: Engine| #[trigger] new_row(e, columns, values, s.params) == row_of(cells) by {
        lemma_row_of(e, columns, values, s.params, cells);
    }
    assert(change_ok(
        Change::Insert { table: "auth_settings"@, columns, values, clash: Clash::TakeOver { key: seq!["key"@], column: "value"@ } },
    ));
}

/// A session is found by the hashes of both secrets, and only while it has not run out.
pub proof fn law_session_needs_both_secrets(s0: RotateView)
    requires
        s0.stage is Find,
    ensures
        seeks(
            rotate_asks(s0)->0,
            "browser_sessions"@,
            Wanted::Cells(seq![Expr::Column("principal_id"@)]),
            |e: Engine, r: Row| r["token_hash"@] == ValueView::Text(s0.refresh_hash) && r["csrf_hash"@] == ValueView::Text(s0.csrf_hash) && less_value(e, ValueView::Integer(s0.now), r["expires_at"@]),
            Seq::empty(),
            None,
        ),
{
    lemma_session_find_reads();
    let s = rotate_asks(s0)->0;
    let q = session_find_tree();
    let p = |e: Engine, r: Row| r["token_hash"@] == ValueView::Text(s0.refresh_hash) && r["csrf_hash"@] == ValueView::Text(s0.csrf_hash) && less_value(e, ValueView::Integer(s0.now), r["expires_at"@]);
    let cond = q.cond->0;
    if let Cond::All(cs) = cond {
        lemma_three(cs[0], cs[1], cs[2]);
        assert(cond == three(cs[0], cs[1], cs[2]));
    }
    assert(asks(s, q));
    assert forall|e: Engine, r: Row| #[trigger] chosen(e, q, s.params, r) <==> p(e, r) by {}
}

/// A session that is renewed is ended, and no other.
pub proof fn law_session_is_ended(s0: RotateView)
    requires
        s0.stage is Drop,
    ensures
        deletes(
            rotate_asks(s0)->0,
            "browser_sessions"@,
            |e: Engine, r: Row| r["token_hash"@] == ValueView::Text(s0.refresh_hash),
        ),
{
    lemma_session_end_reads();
    let s = rotate_asks(s0)->0;
    let p = |e: Engine, r: Row| r["token_hash"@] == ValueView::Text(s0.refresh_hash);
    let cond = session_end_tree()->Delete_cond;
    assert forall|e: Engine, r: Row| #[trigger] holds(e, cond, s.params, r) <==> p(e, r) by {}
    assert(change_ok(Change::Delete { table: "browser_sessions"@, cond }));
}

/// Signing out ends exactly the session with both secrets.
pub proof fn law_signing_out_ends_the_session(refresh: Seq<char>, csrf: Seq<char>)
    ensures
        deletes(
            signing_out(refresh, csrf),
            "browser_sessions"@,
            |e: Engine, r: Row| r["token_hash"@] == ValueView::Text(token_hash(refresh)) && r["csrf_hash"@] == ValueView::Text(token_hash(csrf)),
        ),
{
    lemma_session_revoke_reads();
    let s = signing_out(refresh, csrf);
    let p = |e: Engine, r: Row| r["token_hash"@] == ValueView::Text(token_hash(refresh)) && r["csrf_hash"@] == ValueView::Text(token_hash(csrf));
    let cond = session_revoke_tree()->Delete_cond;
    if let Cond::All(cs) = cond {
        lemma_both(cs[0], cs[1]);
        assert(cond == both(cs[0], cs[1]));
    }
    assert forall|e: Engine, r: Row| #[trigger] holds(e, cond, s.params, r) <==> p(e, r) by {}
    assert(change_ok(Change::Delete { table: "browser_sessions"@, cond }));
}

/// What has run out is cleared away: access tokens.
pub proof fn law_stale_access_is_cleared(principal_id: Seq<char>, tokens: TokenSetView, now: i64, access_ttl: i64, refresh_ttl: i64)
    ensures
        deletes(
            issue_statements(principal_id, tokens, now, access_ttl, refresh_ttl)[0],
            "browser_access_tokens"@,
            |e: Engine, r: Row| less_value(e, r["expires_at"@], ValueView::Integer(now)) || same_value(e, r["expires_at"@], ValueView::Integer(now)),
        ),
{
    lemma_access_clear_reads();
    let s = issue_statements(principal_id, tokens, now, access_ttl, refresh_ttl)[0];
    let p = |e: Engine, r: Row| less_value(e, r["expires_at"@], ValueView::Integer(now)) || same_value(e, r["expires_at"@], ValueView::Integer(now));
    let cond = access_clear_tree()->Delete_cond;
    assert forall|e: Engine, r: Row| #[trigger] holds(e, cond, s.params, r) <==> p(e, r) by {}
    assert(change_ok(Change::Delete { table: "browser_access_tokens"@, cond }));
}

/// What has run out is cleared away: sessions.
pub proof fn law_stale_sessions_are_cleared(principal_id: Seq<char>, tokens: TokenSetView, now: i64, access_ttl: i64, refresh_ttl: i64)
    ensures
        deletes(
            issue_statements(principal_id, tokens, now, access_ttl, refresh_ttl)[1],
            "browser_sessions"@,
            |e: Engine, r: Row| less_value(e, r["expires_at"@], ValueView::Integer(now)) || same_value(e, r["expires_at"@], ValueView::Integer(now)),
        ),
{
    lemma_sessions_clear_reads();
    let s = issue_statements(principal_id, tokens, now, access_ttl, refresh_ttl)[1];
    let p = |e: Engine, r: Row| less_value(e, r["expires_at"@], ValueView::Integer(now)) || same_value(e, r["expires_at"@], ValueView::Integer(now));
    let cond = sessions_clear_tree()->Delete_cond;
    assert forall|e: Engine, r: Row| #[trigger] holds(e, cond, s.params, r) <==> p(e, r) by {}
    assert(change_ok(Change::Delete { table: "browser_sessions"@, cond }));
}

/// The access token of a new session is entered by its hash, for the principal, until it
/// runs out.
pub proof fn law_access_token_is_entered(principal_id: Seq<char>, tokens: TokenSetView, now: i64, access_ttl: i64, refresh_ttl: i64)
    ensures
        enters(
            issue_statements(principal_id, tokens, now, access_ttl, refresh_ttl)[2],
            "browser_access_tokens"@,
            row_of(
                seq![
                    ("token_hash"@, ValueView::Text(token_hash(tokens.access))),
                    ("principal_id"@, ValueView::Text(principal_id)),
                    ("expires_at"@, ValueView::Integer((now + 1000 * access_ttl) as i64)),
                ],
            ),
            Clash::Refuse,
        ),
{
    lemma_access_enter_reads();
    let s = issue_statements(principal_id, tokens, now, access_ttl, refresh_ttl)[2];
    let cells = seq![
        ("token_hash"@, ValueView::Text(token_hash(tokens.access))),
        ("principal_id"@, ValueView::Text(principal_id)),
        ("expires_at"@, ValueView::Integer((now + 1000 * access_ttl) as i64)),
    ];
    let columns = access_enter_tree()->columns;
    let values = access_enter_tree()->values;
    assert forall|e: Engine| #[trigger] new_row(e, columns, values, s.params) == row_of(cells) by {
        lemma_row_of(e, columns, values, s.params, cells);
    }
    assert(change_ok(
        Change::Insert { table: "browser_access_tokens"@, columns, values, clash: Clash::Refuse },
    ));
}

/// A new session is entered by the hashes of both secrets, for the principal, until it
/// runs out.
pub proof fn law_session_is_entered(principal_id: Seq<char>, tokens: TokenSetView, now: i64, access_ttl: i64, refresh_ttl: i64)
    ensures
        enters(
            issue_statements(principal_id, tokens, now, access_ttl, refresh_ttl)[3],
            "browser_sessions"@,
            row_of(
                seq![
                    ("token_hash"@, ValueView::Text(token_hash(tokens.refresh))),
                    ("principal_id"@, ValueView::Text(principal_id)),
                    ("csrf_hash"@, ValueView::Text(token_hash(tokens.csrf))),
                    ("expires_at"@, ValueView::Integer((now + 1000 * refresh_ttl) as i64)),
                    ("created_at"@, ValueView::Integer(now)),
                ],
            ),
            Clash::Refuse,
        ),
{
    lemma_session_enter_reads();
    let s = issue_statements(principal_id, tokens, now, access_ttl, refresh_ttl)[3];
    let cells = seq![
        ("token_hash"@, ValueView::Text(token_hash(tokens.refresh))),
        ("principal_id"@, ValueView::Text(principal_id)),
        ("csrf_hash"@, ValueView::Text(token_hash(tokens.csrf))),
        ("expires_at"@, ValueView::Integer((now + 1000 * refresh_ttl) as i64)),
        ("created_at"@, ValueView::Integer(now)),
    ];
    let columns = session_enter_tree()->columns;
    let values = session_enter_tree()->values;
    assert forall|e: Engine| #[trigger] new_row(e, columns, values, s.params) == row_of(cells) by {
        lemma_row_of(e, columns, values, s.params, cells);
    }
    assert(change_ok(
        Change::Insert { table: "browser_sessions"@, columns, values, clash: Clash::Refuse },
    ));
}

/// An index that was created is recorded as it was asked for.
pub proof fn law_index_is_recorded(c0: CreateIndexView)
    requires
        c0.stage is Record,
    ensures
        enters(
            create_index_statement(c0)->0,
            "_indexes"@,
            row_of(
                seq![
                    ("name"@, ValueView::Text(c0.name)),
                    ("collection"@, ValueView::Text(c0.collection)),
                    ("path"@, ValueView::Text(c0.path)),
                    ("is_unique"@, ValueView::Integer(
            if c0.unique {
                1
            } else {
                0
            },
        )),
                ],
            ),
            Clash::Refuse,
        ),
{
    lemma_index_insert_reads();
    let s = create_index_statement(c0)->0;
    let cells = seq![
        ("name"@, ValueView::Text(c0.name)),
        ("collection"@, ValueView::Text(c0.collection)),
        ("path"@, ValueView::Text(c0.path)),
        ("is_unique"@, ValueView::Integer(
            if c0.unique {
                1
            } else {
                0
            },
        )),
    ];
    let columns = index_insert_tree()->columns;
    let values = index_insert_tree()->values;
    assert forall|e: Engine| #[trigger] new_row(e, columns, values, s.params) == row_of(cells) by {
        lemma_row_of(e, columns, values, s.params, cells);
    }
    assert(change_ok(
        Change::Insert { table: "_indexes"@, columns, values, clash: Clash::Refuse },
    ));
}

/// Whether there is an index is asked by its name.
pub proof fn law_index_is_looked_up_by_name(d0: DropIndexView)
    requires
        d0.stage is Count,
    ensures
        seeks(
            drop_index_statement(d0)->0,
            "_indexes"@,
            Wanted::Count,
            |e: Engine, r: Row| r["name"@] == ValueView::Text(d0.name),
            Seq::empty(),
            None,
        ),
{
    lemma_index_count_reads();
    let s = drop_index_statement(d0)->0;
    let q = index_count_tree();
    let p = |e: Engine, r: Row| r["name"@] == ValueView::Text(d0.name);
    assert(asks(s, q));
    assert forall|e: Engine, r: Row| #[trigger] chosen(e, q, s.params, r) <==> p(e, r) by {}
}

/// An index that is dropped is forgotten, and no other.
pub proof fn law_index_is_forgotten(d0: DropIndexView)
    requires
        d0.stage is Forget,
    ensures
        deletes(
            drop_index_statement(d0)->0,
            "_indexes"@,
            |e: Engine, r: Row| r["name"@] == ValueView::Text(d0.name),
        ),
{
    lemma_index_delete_reads();
    let s = drop_index_statement(d0)->0;
    let p = |e: Engine, r: Row| r["name"@] == ValueView::Text(d0.name);
    let cond = index_delete_tree()->Delete_cond;
    assert forall|e: Engine, r: Row| #[trigger] holds(e, cond, s.params, r) <==> p(e, r) by {}
    assert(change_ok(Change::Delete { table: "_indexes"@, cond }));
}

/// The indexes of a collection are listed, all of them and no others, by name.
pub proof fn law_indexes_are_listed_by_collection(coll: Seq<char>)
    ensures
        seeks(
            list_indexes_statement(coll),
            "_indexes"@,
            Wanted::Cells(seq![Expr::Column("name"@), Expr::Column("collection"@), Expr::Column("path"@), Expr::Column("is_unique"@)]),
            |e: Engine, r: Row| r["collection"@] == ValueView::Text(coll),
            seq![(Expr::Column("name"@), Direction::Unsaid)],
            None,
        ),
{
    lemma_index_list_reads();
    let s = list_indexes_statement(coll);
    let q = index_list_tree();
    let p = |e: Engine, r: Row| r["collection"@] == ValueView::Text(coll);
    assert(asks(s, q));
    assert forall|e: Engine, r: Row| #[trigger] chosen(e, q, s.params, r) <==> p(e, r) by {}
}

/// Whether there is a collection is asked by the name of its table.
pub proof fn law_collection_is_looked_up_by_its_table(coll: Seq<char>)
    ensures
        seeks(
            exists_statement(coll),
            "sqlite_master"@,
            Wanted::Count,
            |e: Engine, r: Row| r["type"@] == ValueView::Text("table"@) && r["name"@] == ValueView::Text("coll_"@ + coll),
            Seq::empty(),
            None,
        ),
{
    lemma_table_count_reads();
    let s = exists_statement(coll);
    let q = table_count_tree();
    let p = |e: Engine, r: Row| r["type"@] == ValueView::Text("table"@) && r["name"@] == ValueView::Text("coll_"@ + coll);
    let cond = q.cond->0;
    if let Cond::All(cs) = cond {
        lemma_both(cs[0], cs[1]);
        assert(cond == both(cs[0], cs[1]));
    }
    assert(asks(s, q));
    assert forall|e: Engine, r: Row| #[trigger] chosen(e, q, s.params, r) <==> p(e, r) by {}
}

/// A delete is recorded with its collection, its kind, the identifier, no document, and
/// the time.
pub proof fn law_delete_is_logged(o: DataOpView)
    requires
        o.stage matches StageView::Log { op: Op::Delete, .. },
    ensures
        enters(
            op_statement(o)->0,
            "_changelog"@,
            row_of(
                seq![
                    ("collection"@, ValueView::Text(o.collection)),
                    ("op"@, ValueView::Text("delete"@)),
                    ("doc_id"@, ValueView::Text(o.id)),
                    ("doc"@, ValueView::Null),
                    ("ts"@, ValueView::Integer(o.now)),
                ],
            ),
            Clash::Refuse,
        ),
{
    lemma_log_delete_reads();
    let s = op_statement(o)->0;
    let cells = seq![
        ("collection"@, ValueView::Text(o.collection)),
        ("op"@, ValueView::Text("delete"@)),
        ("doc_id"@, ValueView::Text(o.id)),
        ("doc"@, ValueView::Null),
        ("ts"@, ValueView::Integer(o.now)),
    ];
    let columns = log_delete_tree()->columns;
    let values = log_delete_tree()->values;
    assert forall|e: Engine| #[trigger] new_row(e, columns, values, s.params) == row_of(cells) by {
        lemma_row_of(e, columns, values, s.params, cells);
    }
    assert(change_ok(
        Change::Insert { table: "_changelog"@, columns, values, clash: Clash::Refuse },
    ));
}

/// The changes that a subscriber has missed are those of its collection after the last
/// that it saw, in the order of their numbers, each with its document.
pub proof fn law_missed_changes_are_looked_up(s0: ResumeView, last: i64)
    requires
        s0.stage is Missed,
        s0.last == Some(last),
    ensures
        seeks(
            resume_asks(s0)->0,
            "_changelog"@,
            Wanted::Cells(seq![Expr::Column("seq"@), Expr::Column("op"@), Expr::Column("doc_id"@), Expr::Call1("json"@, Box::new(Expr::Column("doc"@)))]),
            |e: Engine, r: Row| less_value(e, ValueView::Integer(last), r["seq"@]) && r["collection"@] == ValueView::Text(s0.coll),
            seq![(Expr::Column("seq"@), Direction::Unsaid)],
            None,
        ),
{
    lemma_missed_reads();
    let s = resume_asks(s0)->0;
    let q = missed_tree();
    let p = |e: Engine, r: Row| less_value(e, ValueView::Integer(last), r["seq"@]) && r["collection"@] == ValueView::Text(s0.coll);
    let cond = q.cond->0;
    if let Cond::All(cs) = cond {
        lemma_both(cs[0], cs[1]);
        assert(cond == both(cs[0], cs[1]));
    }
    assert(asks(s, q));
    assert forall|e: Engine, r: Row| #[trigger] chosen(e, q, s.params, r) <==> p(e, r) by {}
}

/// A new subscriber begins behind the change with the greatest number.
pub proof fn law_newest_change_is_looked_up(s0: ResumeView)
    requires
        s0.stage is Newest,
    ensures
        seeks(
            resume_asks(s0)->0,
            "_changelog"@,
            Wanted::Greatest("seq"@),
            |e: Engine, r: Row| true,
            Seq::empty(),
            None,
        ),
{
    lemma_newest_reads();
    let s = resume_asks(s0)->0;
    let q = newest_tree();
    let p = |e: Engine, r: Row| true;
    assert(asks(s, q));
    assert forall|e: Engine, r: Row| #[trigger] chosen(e, q, s.params, r) <==> p(e, r) by {}
}

/// What is still kept begins at the change with the least number.
pub proof fn law_oldest_change_is_looked_up(s0: ResumeView)
    requires
        s0.stage is Oldest,
    ensures
        seeks(
            resume_asks(s0)->0,
            "_changelog"@,
            Wanted::Least("seq"@),
            |e: Engine, r: Row| true,
            Seq::empty(),
            None,
        ),
{
    lemma_oldest_reads();
    let s = resume_asks(s0)->0;
    let q = oldest_tree();
    let p = |e: Engine, r: Row| true;
    assert(asks(s, q));
    assert forall|e: Engine, r: Row| #[trigger] chosen(e, q, s.params, r) <==> p(e, r) by {}
}

/// Whoever bears a token is looked for by the hash of the token.
pub proof fn law_bearer_is_looked_up_by_hash(token: Seq<char>)
    ensures
        seeks(
            token_lookup(token),
            "principals"@,
            Wanted::Cells(seq![Expr::Column("id"@), Expr::Column("name"@), Expr::Column("is_admin"@), Expr::Column("disabled"@)]),
            |e: Engine, r: Row| r["token_hash"@] == ValueView::Text(token_hash(token)),
            Seq::empty(),
            None,
        ),
{
    lemma_by_token_reads();
    let s = token_lookup(token);
    let q = by_token_tree();
    let p = |e: Engine, r: Row| r["token_hash"@] == ValueView::Text(token_hash(token));
    assert(asks(s, q));
    assert forall|e: Engine, r: Row| #[trigger] chosen(e, q, s.params, r) <==> p(e, r) by {}
}

/// The registry forgets exactly the database with the name.
pub proof fn law_registry_forgets_the_database(name: Seq<char>)
    ensures
        deletes(
            forgetting(name)[0],
            "databases"@,
            |e: Engine, r: Row| r["name"@] == ValueView::Text(name),
        ),
{
    lemma_database_delete_reads();
    let s = forgetting(name)[0];
    let p = |e: Engine, r: Row| r["name"@] == ValueView::Text(name);
    let cond = database_delete_tree()->Delete_cond;
    assert forall|e: Engine, r: Row| #[trigger] holds(e, cond, s.params, r) <==> p(e, r) by {}
    assert(change_ok(Change::Delete { table: "databases"@, cond }));
}

/// The registry forgets exactly the grants on the database.
pub proof fn law_registry_forgets_the_grants(name: Seq<char>)
    ensures
        deletes(
            forgetting(name)[1],
            "grants"@,
            |e: Engine, r: Row| r["database_name"@] == ValueView::Text(name),
        ),
{
    lemma_grants_end_reads();
    let s = forgetting(name)[1];
    let p = |e: Engine, r: Row| r["database_name"@] == ValueView::Text(name);
    let cond = grants_end_tree()->Delete_cond;
    assert forall|e: Engine, r: Row| #[trigger] holds(e, cond, s.params, r) <==> p(e, r) by {}
    assert(change_ok(Change::Delete { table: "grants"@, cond }));
}

/// The registry lists the grants of a principal, all of them, by database.
pub proof fn law_registry_lists_the_grants(principal_id: Seq<char>)
    ensures
        seeks(
            grant_listing(principal_id),
            "grants"@,
            Wanted::Cells(seq![Expr::Column("database_name"@), Expr::Column("role"@)]),
            |e: Engine, r: Row| r["principal_id"@] == ValueView::Text(principal_id),
            seq![(Expr::Column("database_name"@), Direction::Unsaid)],
            None,
        ),
{
    lemma_grants_of_reads();
    let s = grant_listing(principal_id);
    let q = grants_of_tree();
    let p = |e: Engine, r: Row| r["principal_id"@] == ValueView::Text(principal_id);
    assert(asks(s, q));
    assert forall|e: Engine, r: Row| #[trigger] chosen(e, q, s.params, r) <==> p(e, r) by {}
}

/// What is granted is entered for the principal and the database, under the word of the
/// role.
pub proof fn law_granting_enters_the_grant(g: GrantView)
    requires
        g.stage is Enter,
    ensures
        enters(
            grant_asks(g)->0,
            "grants"@,
            row_of(
                seq![
                    ("principal_id"@, ValueView::Text(g.principal_id)),
                    ("database_name"@, ValueView::Text(g.database)),
                    ("role"@, ValueView::Text(role_word(g.role))),
                ],
            ),
            Clash::TakeOver { key: seq!["principal_id"@, "database_name"@], column: "role"@ },
        ),
{
    lemma_grant_upsert_reads();
    let s = grant_asks(g)->0;
    let cells = seq![
        ("principal_id"@, ValueView::Text(g.principal_id)),
        ("database_name"@, ValueView::Text(g.database)),
        ("role"@, ValueView::Text(role_word(g.role))),
    ];
    let columns = grant_upsert_tree()->columns;
    let values = grant_upsert_tree()->values;
    assert forall|e: Engine| #[trigger] new_row(e, columns, values, s.params) == row_of(cells) by {
        lemma_row_of(e, columns, values, s.params, cells);
    }
    assert(change_ok(
        Change::Insert { table: "grants"@, columns, values, clash: Clash::TakeOver { key: seq!["principal_id"@, "database_name"@], column: "role"@ } },
    ));
}

/// The principals are counted, all of them.
pub proof fn law_principals_are_counted()
    ensures
        seeks(
            principal_count(),
            "principals"@,
            Wanted::Count,
            |e: Engine, r: Row| true,
            Seq::empty(),
            None,
        ),
{
    lemma_principal_count_reads();
    let s = principal_count();
    let q = principal_count_tree();
    let p = |e: Engine, r: Row| true;
    assert(asks(s, q));
    assert forall|e: Engine, r: Row| #[trigger] chosen(e, q, s.params, r) <==> p(e, r) by {}
}

/// Where there is no administrator, one is entered under that name, with the new token.
pub proof fn law_first_administrator_is_entered(r0: ReplyView, fresh: Seq<char>, bytes: Seq<u8>, now: i64)
    requires
        first_text(r0) is None,
    ensures
        enters(
            admin_token_asks(admin_token_next(AdminTokenView::Find, r0, fresh, bytes, now))->0,
            "principals"@,
            row_of(
                seq![
                    ("id"@, ValueView::Text(fresh)),
                    ("name"@, ValueView::Text("admin"@)),
                    ("is_admin"@, ValueView::Integer(1)),
                    ("token_hash"@, ValueView::Text(token_hash(base64url(bytes)))),
                    ("disabled"@, ValueView::Integer(0)),
                    ("created_at"@, ValueView::Integer(now)),
                ],
            ),
            Clash::Refuse,
        ),
{
    lemma_principal_insert_reads();
    let s = admin_token_asks(admin_token_next(AdminTokenView::Find, r0, fresh, bytes, now))->0;
    let cells = seq![
        ("id"@, ValueView::Text(fresh)),
        ("name"@, ValueView::Text("admin"@)),
        ("is_admin"@, ValueView::Integer(1)),
        ("token_hash"@, ValueView::Text(token_hash(base64url(bytes)))),
        ("disabled"@, ValueView::Integer(0)),
        ("created_at"@, ValueView::Integer(now)),
    ];
    let columns = principal_insert_tree()->columns;
    let values = principal_insert_tree()->values;
    assert forall|e: Engine| #[trigger] new_row(e, columns, values, s.params) == row_of(cells) by {
        lemma_row_of(e, columns, values, s.params, cells);
    }
    assert(change_ok(
        Change::Insert { table: "principals"@, columns, values, clash: Clash::Refuse },
    ));
}

/// The statement looks for what stands in two tables at once: the rows of the one that
/// are linked to those of the other and for which `p` holds.
pub open spec fn seeks_linked(
    s: StatementView,
    cells: Seq<char>,
    tables: Seq<char>,
    link: spec_fn(Engine, Row) -> bool,
    p: spec_fn(Engine, Row) -> bool,
) -> bool {
    exists|l: Cond, c: Cond| #[trigger]
        cond_ok(l) && #[trigger] cond_ok(c) && s.mode == Mode::Query && s.sql == "SELECT "@ + cells
            + " FROM "@ + tables + " ON "@ + cond_text(l) + " WHERE "@ + cond_text(c) && (forall|
            e: Engine,
            r: Row,
        | #[trigger]
            holds(e, l, s.params, r) <==> link(e, r)) && (forall|e: Engine, r: Row| #[trigger]
            holds(e, c, s.params, r) <==> p(e, r))
}

proof fn lemma_dotted()
    ensures
        column_name("t.token_hash"@),
        column_name("t.expires_at"@),
        column_name("p.id"@),
        column_name("t.principal_id"@),
{
    reveal_strlit("t");
    reveal_strlit("p");
    reveal_strlit("id");
    reveal_strlit("token_hash");
    reveal_strlit("expires_at");
    reveal_strlit("principal_id");
    reveal_strlit("t.token_hash");
    reveal_strlit("t.expires_at");
    reveal_strlit("t.principal_id");
    reveal_strlit("p.id");
    assert("t.token_hash"@.take(1) =~= "t"@);
    assert("t.token_hash"@.skip(2) =~= "token_hash"@);
    assert("t.expires_at"@.take(1) =~= "t"@);
    assert("t.expires_at"@.skip(2) =~= "expires_at"@);
    assert("t.principal_id"@.take(1) =~= "t"@);
    assert("t.principal_id"@.skip(2) =~= "principal_id"@);
    assert("p.id"@.take(1) =~= "p"@);
    assert("p.id"@.skip(2) =~= "id"@);
}

proof fn lemma_linked_text()
    ensures
        "SELECT "@ + "p.id, p.name, p.is_admin, p.disabled"@ + " FROM "@
            + "browser_access_tokens t JOIN principals p"@ + " ON "@ + "p.id=t.principal_id"@
            + " WHERE "@ + "t.token_hash=?1 AND t.expires_at>?2"@
            == "SELECT p.id, p.name, p.is_admin, p.disabled FROM browser_access_tokens t JOIN principals p ON p.id=t.principal_id WHERE t.token_hash=?1 AND t.expires_at>?2"@,
{
    reveal_strlit("SELECT ");
    reveal_strlit("p.id, p.name, p.is_admin, p.disabled");
    reveal_strlit(" FROM ");
    reveal_strlit("browser_access_tokens t JOIN principals p");
    reveal_strlit(" ON ");
    reveal_strlit("p.id=t.principal_id");
    reveal_strlit(" WHERE ");
    reveal_strlit("t.token_hash=?1 AND t.expires_at>?2");
    reveal_strlit(
        "SELECT p.id, p.name, p.is_admin, p.disabled FROM browser_access_tokens t JOIN principals p ON p.id=t.principal_id WHERE t.token_hash=?1 AND t.expires_at>?2",
    );
    assert("SELECT "@ + "p.id, p.name, p.is_admin, p.disabled"@ + " FROM "@
        + "browser_access_tokens t JOIN principals p"@ + " ON "@ + "p.id=t.principal_id"@
        + " WHERE "@ + "t.token_hash=?1 AND t.expires_at>?2"@
        =~= "SELECT p.id, p.name, p.is_admin, p.disabled FROM browser_access_tokens t JOIN principals p ON p.id=t.principal_id WHERE t.token_hash=?1 AND t.expires_at>?2"@);
}

proof fn lemma_linked_conditions()
    ensures
        "p.id"@ + "="@ + "t.principal_id"@ == "p.id=t.principal_id"@,
        "t.token_hash"@ + "="@ + "?1"@ + " AND "@ + ("t.expires_at"@ + ">"@ + "?2"@)
            == "t.token_hash=?1 AND t.expires_at>?2"@,
{
    reveal_strlit("p.id");
    reveal_strlit("=");
    reveal_strlit(">");
    reveal_strlit("?1");
    reveal_strlit("?2");
    reveal_strlit(" AND ");
    reveal_strlit("t.principal_id");
    reveal_strlit("t.token_hash");
    reveal_strlit("t.expires_at");
    reveal_strlit("p.id=t.principal_id");
    reveal_strlit("t.token_hash=?1 AND t.expires_at>?2");
    assert("p.id"@ + "="@ + "t.principal_id"@ =~= "p.id=t.principal_id"@);
    assert("t.token_hash"@ + "="@ + "?1"@ + " AND "@ + ("t.expires_at"@ + ">"@ + "?2"@)
        =~= "t.token_hash=?1 AND t.expires_at>?2"@);
}

/// An access token leads to the principal that it was made for, found by the hash of the
/// token and only while the token has not run out.
pub proof fn law_access_token_leads_to_its_principal(token: Seq<char>, now: i64)
    ensures
        seeks_linked(
            access_token_statement(token, now),
            "p.id, p.name, p.is_admin, p.disabled"@,
            "browser_access_tokens t JOIN principals p"@,
            |e: Engine, r: Row| same_value(e, r["p.id"@], r["t.principal_id"@]),
            |e: Engine, r: Row|
                r["t.token_hash"@] == ValueView::Text(token_hash(token)) && less_value(
                    e,
                    ValueView::Integer(now),
                    r["t.expires_at"@],
                ),
        ),
{
    let s = access_token_statement(token, now);
    lemma_params();
    lemma_dotted();
    lemma_linked_text();
    lemma_linked_conditions();
    let l = Cond::Tight(
        Expr::Column("p.id"@),
        Relation::Equal,
        Expr::Column("t.principal_id"@),
    );
    let held = Cond::Tight(Expr::Column("t.token_hash"@), Relation::Equal, Expr::Param(1));
    let lasts = Cond::Tight(Expr::Column("t.expires_at"@), Relation::Greater, Expr::Param(2));
    lemma_both(held, lasts);
    let c = both(held, lasts);
    assert(cond_ok(l));
    assert(cond_ok(c));
    let link = |e: Engine, r: Row| same_value(e, r["p.id"@], r["t.principal_id"@]);
    let p = |e: Engine, r: Row|
        r["t.token_hash"@] == ValueView::Text(token_hash(token)) && less_value(
            e,
            ValueView::Integer(now),
            r["t.expires_at"@],
        );
    assert forall|e: Engine, r: Row| #[trigger] holds(e, l, s.params, r) <==> link(e, r) by {}
    assert forall|e: Engine, r: Row| #[trigger] holds(e, c, s.params, r) <==> p(e, r) by {}
}

/// The statement takes out of the change log what is as old as the newest change less
/// `keep`, or older.
pub open spec fn cuts_log(s: StatementView, keep: i64) -> bool {
    exists|q: Question| #[trigger]
        question_ok(q) && q.wanted == Wanted::Greatest("seq"@) && q.table == "_changelog"@
            && q.cond is None && q.limit is None && s.mode == Mode::Execute && s.params == seq![
            ValueView::Integer(keep),
        ] && s.sql == "DELETE FROM _changelog WHERE seq "@ + relation_text(Relation::AtMost)
            + " ("@ + question_text(q) + ") - ?1"@
}

/// Where a number of changes is to be kept, the log is cut down to the newest so many;
/// where none is given, it is left alone.
pub proof fn law_log_keeps_the_newest(keep: i64)
    ensures
        keep <= 0 ==> trim_statement(keep) is None,
        keep > 0 ==> (match trim_statement(keep) {
            Some(s) => cuts_log(s, keep),
            None => false,
        }),
{
    lemma_newest_reads();
    reveal_strlit("DELETE FROM _changelog WHERE seq ");
    reveal_strlit("<=");
    reveal_strlit(" (");
    reveal_strlit("SELECT COALESCE(MAX(seq), 0) FROM _changelog");
    reveal_strlit(") - ?1");
    reveal_strlit(
        "DELETE FROM _changelog WHERE seq <= (SELECT COALESCE(MAX(seq), 0) FROM _changelog) - ?1",
    );
    assert("DELETE FROM _changelog WHERE seq "@ + "<="@ + " ("@
        + "SELECT COALESCE(MAX(seq), 0) FROM _changelog"@ + ") - ?1"@
        =~= "DELETE FROM _changelog WHERE seq <= (SELECT COALESCE(MAX(seq), 0) FROM _changelog) - ?1"@);
    assert(question_ok(newest_tree()));
}

/// The statement adds to the change log the row that the engine makes of `cells`.
pub open spec fn logs(
    s: StatementView,
    cells: spec_fn(Engine) -> Seq<(Seq<char>, ValueView)>,
) -> bool {
    exists|columns: Seq<Seq<char>>, values: Seq<Expr>| #[trigger]
        change_ok(
            Change::Insert { table: "_changelog"@, columns, values, clash: Clash::Refuse },
        ) && s.mode == Mode::Execute && s.sql == change_text(
            Change::Insert { table: "_changelog"@, columns, values, clash: Clash::Refuse },
        ) && (forall|e: Engine| #[trigger]
            new_row(e, columns, values, s.params) == row_of(cells(e)))
}

proof fn lemma_log_texts()
    ensures
        "INSERT INTO _changelog (collection, op, doc_id, doc, ts) VALUES (?1, ?2, ?3, "@ + "json"@
            + "(?4), ?5)"@
            == "INSERT INTO _changelog (collection, op, doc_id, doc, ts) VALUES (?1, ?2, ?3, json(?4), ?5)"@,
        "INSERT INTO _changelog (collection, op, doc_id, doc, ts) VALUES (?1, ?2, ?3, "@ + "jsonb"@
            + "(?4), ?5)"@
            == "INSERT INTO _changelog (collection, op, doc_id, doc, ts) VALUES (?1, ?2, ?3, jsonb(?4), ?5)"@,
{
    reveal_strlit(
        "INSERT INTO _changelog (collection, op, doc_id, doc, ts) VALUES (?1, ?2, ?3, ",
    );
    reveal_strlit("json");
    reveal_strlit("jsonb");
    reveal_strlit("(?4), ?5)");
    reveal_strlit(
        "INSERT INTO _changelog (collection, op, doc_id, doc, ts) VALUES (?1, ?2, ?3, json(?4), ?5)",
    );
    reveal_strlit(
        "INSERT INTO _changelog (collection, op, doc_id, doc, ts) VALUES (?1, ?2, ?3, jsonb(?4), ?5)",
    );
    assert("INSERT INTO _changelog (collection, op, doc_id, doc, ts) VALUES (?1, ?2, ?3, "@
        + "json"@ + "(?4), ?5)"@
        =~= "INSERT INTO _changelog (collection, op, doc_id, doc, ts) VALUES (?1, ?2, ?3, json(?4), ?5)"@);
    assert("INSERT INTO _changelog (collection, op, doc_id, doc, ts) VALUES (?1, ?2, ?3, "@
        + "jsonb"@ + "(?4), ?5)"@
        =~= "INSERT INTO _changelog (collection, op, doc_id, doc, ts) VALUES (?1, ?2, ?3, jsonb(?4), ?5)"@);
}

/// A document that was created or replaced is recorded with its collection, the kind of
/// the change, the identifier, the document as it is stored, and the time.
pub proof fn law_write_is_logged(o: DataOpView, op: Op)
    requires
        o.stage matches StageView::Log { op: k, .. } && k == op && op != Op::Delete,
    ensures
        logs(
            op_statement(o)->0,
            |e: Engine|
                seq![
                    ("collection"@, ValueView::Text(o.collection)),
                    ("op"@, ValueView::Text(change_word(op))),
                    ("doc_id"@, ValueView::Text(o.id)),
                    (
                        "doc"@,
                        (e.call)(
                            if o.storage is Jsonb {
                                "jsonb"@
                            } else {
                                "json"@
                            },
                            seq![ValueView::Text(o.doc_text)],
                        ),
                    ),
                    ("ts"@, ValueView::Integer(o.now)),
                ],
        ),
{
    lemma_log_text_reads();
    lemma_log_binary_reads();
    lemma_log_texts();
    let s = op_statement(o)->0;
    let tree = if o.storage is Jsonb {
        log_binary_tree()
    } else {
        log_text_tree()
    };
    let columns = tree->columns;
    let values = tree->values;
    let cells = |e: Engine|
        seq![
            ("collection"@, ValueView::Text(o.collection)),
            ("op"@, ValueView::Text(change_word(op))),
            ("doc_id"@, ValueView::Text(o.id)),
            (
                "doc"@,
                (e.call)(
                    if o.storage is Jsonb {
                        "jsonb"@
                    } else {
                        "json"@
                    },
                    seq![ValueView::Text(o.doc_text)],
                ),
            ),
            ("ts"@, ValueView::Integer(o.now)),
        ];
    assert forall|e: Engine| #[trigger] new_row(e, columns, values, s.params) == row_of(cells(e)) by {
        reveal_with_fuel(expr_value, 3);
        lemma_row_of(e, columns, values, s.params, cells(e));
    }
    assert(change_ok(
        Change::Insert { table: "_changelog"@, columns, values, clash: Clash::Refuse },
    ));
}

/// Beginning a session takes four statements, setting a password three, and forgetting a
/// database two; the token of the administrator is told once it is stored.
pub proof fn law_nothing_else_is_run(
    id: Seq<char>,
    tokens: TokenSetView,
    now: i64,
    access_ttl: i64,
    refresh_ttl: i64,
    hash: Seq<char>,
    token: Seq<char>,
    s: StatementView,
    fresh: Seq<char>,
    bytes: Seq<u8>,
)
    ensures
        issue_statements(id, tokens, now, access_ttl, refresh_ttl).len() == 4,
        reset_statements(id, hash).len() == 3,
        forget_database(id).len() == 2,
        forgetting(id).len() == 2,
        admin_token_next(
            AdminTokenView::Store { token, statement: s },
            ReplyView::Done,
            fresh,
            bytes,
            now,
        ) == AdminTokenView::Stored(token),
        admin_token_next(
            AdminTokenView::Store { token, statement: s },
            ReplyView::Failed { unique: false },
            fresh,
            bytes,
            now,
        ) is Refused,
{
}

} // verus!
