//! The statements on tables, read as trees.
//!
//! For each statement that bears no name of a collection stands the tree that it writes
//! down, and the proof that it does.

use crate::engine::{
    both, change_ok, change_text, clash_tail, cond_binds, cond_ok, cond_text, either, expr_binds,
    expr_ok, expr_text, expr_texts, lemma_both, lemma_join1, lemma_join2, lemma_join3,
    lemma_join4, lemma_join5, lemma_join6, lemma_join8, lemma_numbers, lemma_params, lemma_three,
    order_texts, question_binds, question_ok, question_text, set_texts, three, wanted_text,
    Change, Clash, Cond, Direction, Expr, Question, Relation, Wanted,
};
use crate::ids::{ident, quotable};
use crate::text::join;
use vstd::prelude::*;

verus! {

/// The names of tables, columns, and functions are words.
proof fn lemma_idents()
    ensures
        ident("_changelog"@),
        ident("_indexes"@),
        ident("auth_settings"@),
        ident("browser_access_tokens"@),
        ident("browser_sessions"@),
        ident("collection"@),
        ident("created_at"@),
        ident("csrf_hash"@),
        ident("database_name"@),
        ident("databases"@),
        ident("disabled"@),
        ident("doc"@),
        ident("doc_id"@),
        ident("expires_at"@),
        ident("grants"@),
        ident("id"@),
        ident("instr"@),
        ident("is_admin"@),
        ident("is_unique"@),
        ident("json"@),
        ident("jsonb"@),
        ident("key"@),
        ident("lower"@),
        ident("name"@),
        ident("op"@),
        ident("password_hash"@),
        ident("path"@),
        ident("principal_id"@),
        ident("principals"@),
        ident("role"@),
        ident("seq"@),
        ident("sqlite_master"@),
        ident("token_hash"@),
        ident("ts"@),
        ident("type"@),
        ident("username"@),
        ident("value"@),
{
    assert(ident("_changelog"@)) by {
        reveal_strlit("_changelog");
    }
    assert(ident("_indexes"@)) by {
        reveal_strlit("_indexes");
    }
    assert(ident("auth_settings"@)) by {
        reveal_strlit("auth_settings");
    }
    assert(ident("browser_access_tokens"@)) by {
        reveal_strlit("browser_access_tokens");
    }
    assert(ident("browser_sessions"@)) by {
        reveal_strlit("browser_sessions");
    }
    assert(ident("collection"@)) by {
        reveal_strlit("collection");
    }
    assert(ident("created_at"@)) by {
        reveal_strlit("created_at");
    }
    assert(ident("csrf_hash"@)) by {
        reveal_strlit("csrf_hash");
    }
    assert(ident("database_name"@)) by {
        reveal_strlit("database_name");
    }
    assert(ident("databases"@)) by {
        reveal_strlit("databases");
    }
    assert(ident("disabled"@)) by {
        reveal_strlit("disabled");
    }
    assert(ident("doc"@)) by {
        reveal_strlit("doc");
    }
    assert(ident("doc_id"@)) by {
        reveal_strlit("doc_id");
    }
    assert(ident("expires_at"@)) by {
        reveal_strlit("expires_at");
    }
    assert(ident("grants"@)) by {
        reveal_strlit("grants");
    }
    assert(ident("id"@)) by {
        reveal_strlit("id");
    }
    assert(ident("instr"@)) by {
        reveal_strlit("instr");
    }
    assert(ident("is_admin"@)) by {
        reveal_strlit("is_admin");
    }
    assert(ident("is_unique"@)) by {
        reveal_strlit("is_unique");
    }
    assert(ident("json"@)) by {
        reveal_strlit("json");
    }
    assert(ident("jsonb"@)) by {
        reveal_strlit("jsonb");
    }
    assert(ident("key"@)) by {
        reveal_strlit("key");
    }
    assert(ident("lower"@)) by {
        reveal_strlit("lower");
    }
    assert(ident("name"@)) by {
        reveal_strlit("name");
    }
    assert(ident("op"@)) by {
        reveal_strlit("op");
    }
    assert(ident("password_hash"@)) by {
        reveal_strlit("password_hash");
    }
    assert(ident("path"@)) by {
        reveal_strlit("path");
    }
    assert(ident("principal_id"@)) by {
        reveal_strlit("principal_id");
    }
    assert(ident("principals"@)) by {
        reveal_strlit("principals");
    }
    assert(ident("role"@)) by {
        reveal_strlit("role");
    }
    assert(ident("seq"@)) by {
        reveal_strlit("seq");
    }
    assert(ident("sqlite_master"@)) by {
        reveal_strlit("sqlite_master");
    }
    assert(ident("token_hash"@)) by {
        reveal_strlit("token_hash");
    }
    assert(ident("ts"@)) by {
        reveal_strlit("ts");
    }
    assert(ident("type"@)) by {
        reveal_strlit("type");
    }
    assert(ident("username"@)) by {
        reveal_strlit("username");
    }
    assert(ident("value"@)) by {
        reveal_strlit("value");
    }
}

// ---- Texts in pieces -------------------------------------------------------

proof fn lemma_text_1()
    ensures
        "id"@ + ", "@ + "name"@ + ", "@ + "is_admin"@ + ", "@ + "token_hash"@ == "id, name, is_admin, token_hash"@,
{
    reveal_strlit(", ");
    reveal_strlit("id");
    reveal_strlit("id, name, is_admin, token_hash");
    reveal_strlit("is_admin");
    reveal_strlit("name");
    reveal_strlit("token_hash");
    assert("id"@ + ", "@ + "name"@ + ", "@ + "is_admin"@ + ", "@ + "token_hash"@ =~= "id, name, is_admin, token_hash"@);
}

proof fn lemma_text_2()
    ensures
        "id, name, is_admin, token_hash"@ + ", "@ + "disabled"@ + ", "@ + "created_at"@ == "id, name, is_admin, token_hash, disabled, created_at"@,
{
    reveal_strlit(", ");
    reveal_strlit("created_at");
    reveal_strlit("disabled");
    reveal_strlit("id, name, is_admin, token_hash");
    reveal_strlit("id, name, is_admin, token_hash, disabled, created_at");
    assert("id, name, is_admin, token_hash"@ + ", "@ + "disabled"@ + ", "@ + "created_at"@ =~= "id, name, is_admin, token_hash, disabled, created_at"@);
}

proof fn lemma_text_3()
    ensures
        "?1"@ + ", "@ + "?2"@ + ", "@ + "?3"@ + ", "@ + "?4"@ == "?1, ?2, ?3, ?4"@,
{
    reveal_strlit(", ");
    reveal_strlit("?1");
    reveal_strlit("?1, ?2, ?3, ?4");
    reveal_strlit("?2");
    reveal_strlit("?3");
    reveal_strlit("?4");
    assert("?1"@ + ", "@ + "?2"@ + ", "@ + "?3"@ + ", "@ + "?4"@ =~= "?1, ?2, ?3, ?4"@);
}

proof fn lemma_text_4()
    ensures
        "?1, ?2, ?3, ?4"@ + ", "@ + "0"@ + ", "@ + "?5"@ == "?1, ?2, ?3, ?4, 0, ?5"@,
{
    reveal_strlit(", ");
    reveal_strlit("0");
    reveal_strlit("?1, ?2, ?3, ?4");
    reveal_strlit("?1, ?2, ?3, ?4, 0, ?5");
    reveal_strlit("?5");
    assert("?1, ?2, ?3, ?4"@ + ", "@ + "0"@ + ", "@ + "?5"@ =~= "?1, ?2, ?3, ?4, 0, ?5"@);
}

proof fn lemma_text_5()
    ensures
        "INSERT INTO "@ + "principals"@ + " ("@ + "id, name, is_admin, token_hash, disabled, created_at"@ + ") VALUES ("@ == "INSERT INTO principals (id, name, is_admin, token_hash, disabled, created_at) VALUES ("@,
{
    reveal_strlit(" (");
    reveal_strlit(") VALUES (");
    reveal_strlit("INSERT INTO ");
    reveal_strlit("INSERT INTO principals (id, name, is_admin, token_hash, disabled, created_at) VALUES (");
    reveal_strlit("id, name, is_admin, token_hash, disabled, created_at");
    reveal_strlit("principals");
    assert("INSERT INTO "@ + "principals"@ + " ("@ + "id, name, is_admin, token_hash, disabled, created_at"@ + ") VALUES ("@ =~= "INSERT INTO principals (id, name, is_admin, token_hash, disabled, created_at) VALUES ("@);
}

proof fn lemma_text_6()
    ensures
        "INSERT INTO principals (id, name, is_admin, token_hash, disabled, created_at) VALUES ("@ + "?1, ?2, ?3, ?4, 0, ?5"@ + ")"@ == "INSERT INTO principals (id, name, is_admin, token_hash, disabled, created_at) VALUES (?1, ?2, ?3, ?4, 0, ?5)"@,
{
    reveal_strlit(")");
    reveal_strlit("?1, ?2, ?3, ?4, 0, ?5");
    reveal_strlit("INSERT INTO principals (id, name, is_admin, token_hash, disabled, created_at) VALUES (");
    reveal_strlit("INSERT INTO principals (id, name, is_admin, token_hash, disabled, created_at) VALUES (?1, ?2, ?3, ?4, 0, ?5)");
    assert("INSERT INTO principals (id, name, is_admin, token_hash, disabled, created_at) VALUES ("@ + "?1, ?2, ?3, ?4, 0, ?5"@ + ")"@ =~= "INSERT INTO principals (id, name, is_admin, token_hash, disabled, created_at) VALUES (?1, ?2, ?3, ?4, 0, ?5)"@);
}

proof fn lemma_text_7()
    ensures
        "id, name, is_admin, token_hash"@ + ", "@ + "disabled"@ + ", "@ + "created_at"@ + ", "@ + "username"@ + ", "@ + "password_hash"@ == "id, name, is_admin, token_hash, disabled, created_at, username, password_hash"@,
{
    reveal_strlit(", ");
    reveal_strlit("created_at");
    reveal_strlit("disabled");
    reveal_strlit("id, name, is_admin, token_hash");
    reveal_strlit("id, name, is_admin, token_hash, disabled, created_at, username, password_hash");
    reveal_strlit("password_hash");
    reveal_strlit("username");
    assert("id, name, is_admin, token_hash"@ + ", "@ + "disabled"@ + ", "@ + "created_at"@ + ", "@ + "username"@ + ", "@ + "password_hash"@ =~= "id, name, is_admin, token_hash, disabled, created_at, username, password_hash"@);
}

proof fn lemma_text_8()
    ensures
        "?1"@ + ", "@ + "?2"@ + ", "@ + "0"@ + ", "@ + "?3"@ == "?1, ?2, 0, ?3"@,
{
    reveal_strlit(", ");
    reveal_strlit("0");
    reveal_strlit("?1");
    reveal_strlit("?1, ?2, 0, ?3");
    reveal_strlit("?2");
    reveal_strlit("?3");
    assert("?1"@ + ", "@ + "?2"@ + ", "@ + "0"@ + ", "@ + "?3"@ =~= "?1, ?2, 0, ?3"@);
}

proof fn lemma_text_9()
    ensures
        "?1, ?2, 0, ?3"@ + ", "@ + "0"@ + ", "@ + "?4"@ + ", "@ + "?5"@ + ", "@ + "?6"@ == "?1, ?2, 0, ?3, 0, ?4, ?5, ?6"@,
{
    reveal_strlit(", ");
    reveal_strlit("0");
    reveal_strlit("?1, ?2, 0, ?3");
    reveal_strlit("?1, ?2, 0, ?3, 0, ?4, ?5, ?6");
    reveal_strlit("?4");
    reveal_strlit("?5");
    reveal_strlit("?6");
    assert("?1, ?2, 0, ?3"@ + ", "@ + "0"@ + ", "@ + "?4"@ + ", "@ + "?5"@ + ", "@ + "?6"@ =~= "?1, ?2, 0, ?3, 0, ?4, ?5, ?6"@);
}

proof fn lemma_text_10()
    ensures
        "INSERT INTO "@ + "principals"@ + " ("@ + "id, name, is_admin, token_hash, disabled, created_at, username, password_hash"@ + ") VALUES ("@ == "INSERT INTO principals (id, name, is_admin, token_hash, disabled, created_at, username, password_hash) VALUES ("@,
{
    reveal_strlit(" (");
    reveal_strlit(") VALUES (");
    reveal_strlit("INSERT INTO ");
    reveal_strlit("INSERT INTO principals (id, name, is_admin, token_hash, disabled, created_at, username, password_hash) VALUES (");
    reveal_strlit("id, name, is_admin, token_hash, disabled, created_at, username, password_hash");
    reveal_strlit("principals");
    assert("INSERT INTO "@ + "principals"@ + " ("@ + "id, name, is_admin, token_hash, disabled, created_at, username, password_hash"@ + ") VALUES ("@ =~= "INSERT INTO principals (id, name, is_admin, token_hash, disabled, created_at, username, password_hash) VALUES ("@);
}

proof fn lemma_text_11()
    ensures
        "INSERT INTO principals (id, name, is_admin, token_hash, disabled, created_at, username, password_hash) VALUES ("@ + "?1, ?2, 0, ?3, 0, ?4, ?5, ?6"@ + ")"@ == "INSERT INTO principals (id, name, is_admin, token_hash, disabled, created_at, username, password_hash) VALUES (?1, ?2, 0, ?3, 0, ?4, ?5, ?6)"@,
{
    reveal_strlit(")");
    reveal_strlit("?1, ?2, 0, ?3, 0, ?4, ?5, ?6");
    reveal_strlit("INSERT INTO principals (id, name, is_admin, token_hash, disabled, created_at, username, password_hash) VALUES (");
    reveal_strlit("INSERT INTO principals (id, name, is_admin, token_hash, disabled, created_at, username, password_hash) VALUES (?1, ?2, 0, ?3, 0, ?4, ?5, ?6)");
    assert("INSERT INTO principals (id, name, is_admin, token_hash, disabled, created_at, username, password_hash) VALUES ("@ + "?1, ?2, 0, ?3, 0, ?4, ?5, ?6"@ + ")"@ =~= "INSERT INTO principals (id, name, is_admin, token_hash, disabled, created_at, username, password_hash) VALUES (?1, ?2, 0, ?3, 0, ?4, ?5, ?6)"@);
}

proof fn lemma_text_12()
    ensures
        "id"@ + ", "@ + "name"@ + ", "@ + "is_admin"@ + ", "@ + "disabled"@ == "id, name, is_admin, disabled"@,
{
    reveal_strlit(", ");
    reveal_strlit("disabled");
    reveal_strlit("id");
    reveal_strlit("id, name, is_admin, disabled");
    reveal_strlit("is_admin");
    reveal_strlit("name");
    assert("id"@ + ", "@ + "name"@ + ", "@ + "is_admin"@ + ", "@ + "disabled"@ =~= "id, name, is_admin, disabled"@);
}

proof fn lemma_text_13()
    ensures
        "token_hash"@ + " "@ + "="@ + " "@ + "?1"@ == "token_hash = ?1"@,
{
    reveal_strlit(" ");
    reveal_strlit("=");
    reveal_strlit("?1");
    reveal_strlit("token_hash");
    reveal_strlit("token_hash = ?1");
    assert("token_hash"@ + " "@ + "="@ + " "@ + "?1"@ =~= "token_hash = ?1"@);
}

proof fn lemma_text_14()
    ensures
        "SELECT "@ + "id, name, is_admin, disabled"@ + " FROM "@ + "principals"@ == "SELECT id, name, is_admin, disabled FROM principals"@,
{
    reveal_strlit(" FROM ");
    reveal_strlit("SELECT ");
    reveal_strlit("SELECT id, name, is_admin, disabled FROM principals");
    reveal_strlit("id, name, is_admin, disabled");
    reveal_strlit("principals");
    assert("SELECT "@ + "id, name, is_admin, disabled"@ + " FROM "@ + "principals"@ =~= "SELECT id, name, is_admin, disabled FROM principals"@);
}

proof fn lemma_text_15()
    ensures
        " WHERE "@ + "token_hash = ?1"@ == " WHERE token_hash = ?1"@,
{
    reveal_strlit(" WHERE ");
    reveal_strlit(" WHERE token_hash = ?1");
    reveal_strlit("token_hash = ?1");
    assert(" WHERE "@ + "token_hash = ?1"@ =~= " WHERE token_hash = ?1"@);
}

proof fn lemma_text_16()
    ensures
        "SELECT id, name, is_admin, disabled FROM principals"@ + " WHERE token_hash = ?1"@ == "SELECT id, name, is_admin, disabled FROM principals WHERE token_hash = ?1"@,
{
    reveal_strlit(" WHERE token_hash = ?1");
    reveal_strlit("SELECT id, name, is_admin, disabled FROM principals");
    reveal_strlit("SELECT id, name, is_admin, disabled FROM principals WHERE token_hash = ?1");
    assert("SELECT id, name, is_admin, disabled FROM principals"@ + " WHERE token_hash = ?1"@ =~= "SELECT id, name, is_admin, disabled FROM principals WHERE token_hash = ?1"@);
}

proof fn lemma_text_17()
    ensures
        "id"@ + ", "@ + "password_hash"@ == "id, password_hash"@,
{
    reveal_strlit(", ");
    reveal_strlit("id");
    reveal_strlit("id, password_hash");
    reveal_strlit("password_hash");
    assert("id"@ + ", "@ + "password_hash"@ =~= "id, password_hash"@);
}

proof fn lemma_text_18()
    ensures
        "username"@ + " "@ + "="@ + " "@ + "?1"@ == "username = ?1"@,
{
    reveal_strlit(" ");
    reveal_strlit("=");
    reveal_strlit("?1");
    reveal_strlit("username");
    reveal_strlit("username = ?1");
    assert("username"@ + " "@ + "="@ + " "@ + "?1"@ =~= "username = ?1"@);
}

proof fn lemma_text_19()
    ensures
        "disabled"@ + " "@ + "="@ + " "@ + "0"@ == "disabled = 0"@,
{
    reveal_strlit(" ");
    reveal_strlit("0");
    reveal_strlit("=");
    reveal_strlit("disabled");
    reveal_strlit("disabled = 0");
    assert("disabled"@ + " "@ + "="@ + " "@ + "0"@ =~= "disabled = 0"@);
}

proof fn lemma_text_20()
    ensures
        "username = ?1"@ + " AND "@ + "disabled = 0"@ == "username = ?1 AND disabled = 0"@,
{
    reveal_strlit(" AND ");
    reveal_strlit("disabled = 0");
    reveal_strlit("username = ?1");
    reveal_strlit("username = ?1 AND disabled = 0");
    assert("username = ?1"@ + " AND "@ + "disabled = 0"@ =~= "username = ?1 AND disabled = 0"@);
}

proof fn lemma_text_21()
    ensures
        "SELECT "@ + "id, password_hash"@ + " FROM "@ + "principals"@ == "SELECT id, password_hash FROM principals"@,
{
    reveal_strlit(" FROM ");
    reveal_strlit("SELECT ");
    reveal_strlit("SELECT id, password_hash FROM principals");
    reveal_strlit("id, password_hash");
    reveal_strlit("principals");
    assert("SELECT "@ + "id, password_hash"@ + " FROM "@ + "principals"@ =~= "SELECT id, password_hash FROM principals"@);
}

proof fn lemma_text_22()
    ensures
        " WHERE "@ + "username = ?1 AND disabled = 0"@ == " WHERE username = ?1 AND disabled = 0"@,
{
    reveal_strlit(" WHERE ");
    reveal_strlit(" WHERE username = ?1 AND disabled = 0");
    reveal_strlit("username = ?1 AND disabled = 0");
    assert(" WHERE "@ + "username = ?1 AND disabled = 0"@ =~= " WHERE username = ?1 AND disabled = 0"@);
}

proof fn lemma_text_23()
    ensures
        "SELECT id, password_hash FROM principals"@ + " WHERE username = ?1 AND disabled = 0"@ == "SELECT id, password_hash FROM principals WHERE username = ?1 AND disabled = 0"@,
{
    reveal_strlit(" WHERE username = ?1 AND disabled = 0");
    reveal_strlit("SELECT id, password_hash FROM principals");
    reveal_strlit("SELECT id, password_hash FROM principals WHERE username = ?1 AND disabled = 0");
    assert("SELECT id, password_hash FROM principals"@ + " WHERE username = ?1 AND disabled = 0"@ =~= "SELECT id, password_hash FROM principals WHERE username = ?1 AND disabled = 0"@);
}

proof fn lemma_text_24()
    ensures
        "id"@ + " "@ + "="@ + " "@ + "?1"@ == "id = ?1"@,
{
    reveal_strlit(" ");
    reveal_strlit("=");
    reveal_strlit("?1");
    reveal_strlit("id");
    reveal_strlit("id = ?1");
    assert("id"@ + " "@ + "="@ + " "@ + "?1"@ =~= "id = ?1"@);
}

proof fn lemma_text_25()
    ensures
        "disabled"@ + " = "@ + "1"@ == "disabled = 1"@,
{
    reveal_strlit(" = ");
    reveal_strlit("1");
    reveal_strlit("disabled");
    reveal_strlit("disabled = 1");
    assert("disabled"@ + " = "@ + "1"@ =~= "disabled = 1"@);
}

proof fn lemma_text_26()
    ensures
        "UPDATE "@ + "principals"@ + " SET "@ + "disabled = 1"@ + " WHERE "@ + "id = ?1"@ == "UPDATE principals SET disabled = 1 WHERE id = ?1"@,
{
    reveal_strlit(" SET ");
    reveal_strlit(" WHERE ");
    reveal_strlit("UPDATE ");
    reveal_strlit("UPDATE principals SET disabled = 1 WHERE id = ?1");
    reveal_strlit("disabled = 1");
    reveal_strlit("id = ?1");
    reveal_strlit("principals");
    assert("UPDATE "@ + "principals"@ + " SET "@ + "disabled = 1"@ + " WHERE "@ + "id = ?1"@ =~= "UPDATE principals SET disabled = 1 WHERE id = ?1"@);
}

proof fn lemma_text_27()
    ensures
        "id"@ + " "@ + "="@ + " "@ + "?2"@ == "id = ?2"@,
{
    reveal_strlit(" ");
    reveal_strlit("=");
    reveal_strlit("?2");
    reveal_strlit("id");
    reveal_strlit("id = ?2");
    assert("id"@ + " "@ + "="@ + " "@ + "?2"@ =~= "id = ?2"@);
}

proof fn lemma_text_28()
    ensures
        "password_hash"@ + " = "@ + "?1"@ == "password_hash = ?1"@,
{
    reveal_strlit(" = ");
    reveal_strlit("?1");
    reveal_strlit("password_hash");
    reveal_strlit("password_hash = ?1");
    assert("password_hash"@ + " = "@ + "?1"@ =~= "password_hash = ?1"@);
}

proof fn lemma_text_29()
    ensures
        "UPDATE "@ + "principals"@ + " SET "@ + "password_hash = ?1"@ + " WHERE "@ + "id = ?2"@ == "UPDATE principals SET password_hash = ?1 WHERE id = ?2"@,
{
    reveal_strlit(" SET ");
    reveal_strlit(" WHERE ");
    reveal_strlit("UPDATE ");
    reveal_strlit("UPDATE principals SET password_hash = ?1 WHERE id = ?2");
    reveal_strlit("id = ?2");
    reveal_strlit("password_hash = ?1");
    reveal_strlit("principals");
    assert("UPDATE "@ + "principals"@ + " SET "@ + "password_hash = ?1"@ + " WHERE "@ + "id = ?2"@ =~= "UPDATE principals SET password_hash = ?1 WHERE id = ?2"@);
}

proof fn lemma_text_30()
    ensures
        "is_admin"@ + " "@ + "="@ + " "@ + "0"@ == "is_admin = 0"@,
{
    reveal_strlit(" ");
    reveal_strlit("0");
    reveal_strlit("=");
    reveal_strlit("is_admin");
    reveal_strlit("is_admin = 0");
    assert("is_admin"@ + " "@ + "="@ + " "@ + "0"@ =~= "is_admin = 0"@);
}

proof fn lemma_text_31()
    ensures
        "username = ?1"@ + " AND "@ + "disabled = 0"@ + " AND "@ + "is_admin = 0"@ == "username = ?1 AND disabled = 0 AND is_admin = 0"@,
{
    reveal_strlit(" AND ");
    reveal_strlit("disabled = 0");
    reveal_strlit("is_admin = 0");
    reveal_strlit("username = ?1");
    reveal_strlit("username = ?1 AND disabled = 0 AND is_admin = 0");
    assert("username = ?1"@ + " AND "@ + "disabled = 0"@ + " AND "@ + "is_admin = 0"@ =~= "username = ?1 AND disabled = 0 AND is_admin = 0"@);
}

proof fn lemma_text_32()
    ensures
        "SELECT "@ + "id"@ + " FROM "@ + "principals"@ == "SELECT id FROM principals"@,
{
    reveal_strlit(" FROM ");
    reveal_strlit("SELECT ");
    reveal_strlit("SELECT id FROM principals");
    reveal_strlit("id");
    reveal_strlit("principals");
    assert("SELECT "@ + "id"@ + " FROM "@ + "principals"@ =~= "SELECT id FROM principals"@);
}

proof fn lemma_text_33()
    ensures
        " WHERE "@ + "username = ?1 AND disabled = 0 AND is_admin = 0"@ == " WHERE username = ?1 AND disabled = 0 AND is_admin = 0"@,
{
    reveal_strlit(" WHERE ");
    reveal_strlit(" WHERE username = ?1 AND disabled = 0 AND is_admin = 0");
    reveal_strlit("username = ?1 AND disabled = 0 AND is_admin = 0");
    assert(" WHERE "@ + "username = ?1 AND disabled = 0 AND is_admin = 0"@ =~= " WHERE username = ?1 AND disabled = 0 AND is_admin = 0"@);
}

proof fn lemma_text_34()
    ensures
        "SELECT id FROM principals"@ + " WHERE username = ?1 AND disabled = 0 AND is_admin = 0"@ == "SELECT id FROM principals WHERE username = ?1 AND disabled = 0 AND is_admin = 0"@,
{
    reveal_strlit(" WHERE username = ?1 AND disabled = 0 AND is_admin = 0");
    reveal_strlit("SELECT id FROM principals");
    reveal_strlit("SELECT id FROM principals WHERE username = ?1 AND disabled = 0 AND is_admin = 0");
    assert("SELECT id FROM principals"@ + " WHERE username = ?1 AND disabled = 0 AND is_admin = 0"@ =~= "SELECT id FROM principals WHERE username = ?1 AND disabled = 0 AND is_admin = 0"@);
}

proof fn lemma_text_35()
    ensures
        "is_admin"@ + " "@ + "="@ + " "@ + "1"@ == "is_admin = 1"@,
{
    reveal_strlit(" ");
    reveal_strlit("1");
    reveal_strlit("=");
    reveal_strlit("is_admin");
    reveal_strlit("is_admin = 1");
    assert("is_admin"@ + " "@ + "="@ + " "@ + "1"@ =~= "is_admin = 1"@);
}

proof fn lemma_text_36()
    ensures
        " WHERE "@ + "is_admin = 1"@ == " WHERE is_admin = 1"@,
{
    reveal_strlit(" WHERE ");
    reveal_strlit(" WHERE is_admin = 1");
    reveal_strlit("is_admin = 1");
    assert(" WHERE "@ + "is_admin = 1"@ =~= " WHERE is_admin = 1"@);
}

proof fn lemma_text_37()
    ensures
        " ORDER BY "@ + "created_at"@ == " ORDER BY created_at"@,
{
    reveal_strlit(" ORDER BY ");
    reveal_strlit(" ORDER BY created_at");
    reveal_strlit("created_at");
    assert(" ORDER BY "@ + "created_at"@ =~= " ORDER BY created_at"@);
}

proof fn lemma_text_38()
    ensures
        " LIMIT "@ + "1"@ == " LIMIT 1"@,
{
    reveal_strlit(" LIMIT ");
    reveal_strlit(" LIMIT 1");
    reveal_strlit("1");
    assert(" LIMIT "@ + "1"@ =~= " LIMIT 1"@);
}

proof fn lemma_text_39()
    ensures
        "SELECT id FROM principals"@ + " WHERE is_admin = 1"@ + " ORDER BY created_at"@ + " LIMIT 1"@ == "SELECT id FROM principals WHERE is_admin = 1 ORDER BY created_at LIMIT 1"@,
{
    reveal_strlit(" LIMIT 1");
    reveal_strlit(" ORDER BY created_at");
    reveal_strlit(" WHERE is_admin = 1");
    reveal_strlit("SELECT id FROM principals");
    reveal_strlit("SELECT id FROM principals WHERE is_admin = 1 ORDER BY created_at LIMIT 1");
    assert("SELECT id FROM principals"@ + " WHERE is_admin = 1"@ + " ORDER BY created_at"@ + " LIMIT 1"@ =~= "SELECT id FROM principals WHERE is_admin = 1 ORDER BY created_at LIMIT 1"@);
}

proof fn lemma_text_40()
    ensures
        "token_hash"@ + " = "@ + "?1"@ == "token_hash = ?1"@,
{
    reveal_strlit(" = ");
    reveal_strlit("?1");
    reveal_strlit("token_hash");
    reveal_strlit("token_hash = ?1");
    assert("token_hash"@ + " = "@ + "?1"@ =~= "token_hash = ?1"@);
}

proof fn lemma_text_41()
    ensures
        "disabled"@ + " = "@ + "0"@ == "disabled = 0"@,
{
    reveal_strlit(" = ");
    reveal_strlit("0");
    reveal_strlit("disabled");
    reveal_strlit("disabled = 0");
    assert("disabled"@ + " = "@ + "0"@ =~= "disabled = 0"@);
}

proof fn lemma_text_42()
    ensures
        "token_hash = ?1"@ + ", "@ + "disabled = 0"@ == "token_hash = ?1, disabled = 0"@,
{
    reveal_strlit(", ");
    reveal_strlit("disabled = 0");
    reveal_strlit("token_hash = ?1");
    reveal_strlit("token_hash = ?1, disabled = 0");
    assert("token_hash = ?1"@ + ", "@ + "disabled = 0"@ =~= "token_hash = ?1, disabled = 0"@);
}

proof fn lemma_text_43()
    ensures
        "UPDATE "@ + "principals"@ + " SET "@ + "token_hash = ?1, disabled = 0"@ + " WHERE "@ + "id = ?2"@ == "UPDATE principals SET token_hash = ?1, disabled = 0 WHERE id = ?2"@,
{
    reveal_strlit(" SET ");
    reveal_strlit(" WHERE ");
    reveal_strlit("UPDATE ");
    reveal_strlit("UPDATE principals SET token_hash = ?1, disabled = 0 WHERE id = ?2");
    reveal_strlit("id = ?2");
    reveal_strlit("principals");
    reveal_strlit("token_hash = ?1, disabled = 0");
    assert("UPDATE "@ + "principals"@ + " SET "@ + "token_hash = ?1, disabled = 0"@ + " WHERE "@ + "id = ?2"@ =~= "UPDATE principals SET token_hash = ?1, disabled = 0 WHERE id = ?2"@);
}

proof fn lemma_text_44()
    ensures
        " WHERE "@ + "id = ?1"@ == " WHERE id = ?1"@,
{
    reveal_strlit(" WHERE ");
    reveal_strlit(" WHERE id = ?1");
    reveal_strlit("id = ?1");
    assert(" WHERE "@ + "id = ?1"@ =~= " WHERE id = ?1"@);
}

proof fn lemma_text_45()
    ensures
        "SELECT id FROM principals"@ + " WHERE id = ?1"@ == "SELECT id FROM principals WHERE id = ?1"@,
{
    reveal_strlit(" WHERE id = ?1");
    reveal_strlit("SELECT id FROM principals");
    reveal_strlit("SELECT id FROM principals WHERE id = ?1");
    assert("SELECT id FROM principals"@ + " WHERE id = ?1"@ =~= "SELECT id FROM principals WHERE id = ?1"@);
}

proof fn lemma_text_46()
    ensures
        "lower"@ + "("@ + "name"@ + ")"@ == "lower(name)"@,
{
    reveal_strlit("(");
    reveal_strlit(")");
    reveal_strlit("lower");
    reveal_strlit("lower(name)");
    reveal_strlit("name");
    assert("lower"@ + "("@ + "name"@ + ")"@ =~= "lower(name)"@);
}

proof fn lemma_text_47()
    ensures
        "lower"@ + "("@ + "?1"@ + ")"@ == "lower(?1)"@,
{
    reveal_strlit("(");
    reveal_strlit(")");
    reveal_strlit("?1");
    reveal_strlit("lower");
    reveal_strlit("lower(?1)");
    assert("lower"@ + "("@ + "?1"@ + ")"@ =~= "lower(?1)"@);
}

proof fn lemma_text_48()
    ensures
        "lower(name)"@ + " "@ + "="@ + " "@ + "lower(?1)"@ == "lower(name) = lower(?1)"@,
{
    reveal_strlit(" ");
    reveal_strlit("=");
    reveal_strlit("lower(?1)");
    reveal_strlit("lower(name)");
    reveal_strlit("lower(name) = lower(?1)");
    assert("lower(name)"@ + " "@ + "="@ + " "@ + "lower(?1)"@ =~= "lower(name) = lower(?1)"@);
}

proof fn lemma_text_49()
    ensures
        "username"@ + " IS NOT NULL"@ == "username IS NOT NULL"@,
{
    reveal_strlit(" IS NOT NULL");
    reveal_strlit("username");
    reveal_strlit("username IS NOT NULL");
    assert("username"@ + " IS NOT NULL"@ =~= "username IS NOT NULL"@);
}

proof fn lemma_text_50()
    ensures
        "lower"@ + "("@ + "username"@ + ")"@ == "lower(username)"@,
{
    reveal_strlit("(");
    reveal_strlit(")");
    reveal_strlit("lower");
    reveal_strlit("lower(username)");
    reveal_strlit("username");
    assert("lower"@ + "("@ + "username"@ + ")"@ =~= "lower(username)"@);
}

proof fn lemma_text_51()
    ensures
        "lower(username)"@ + " "@ + "="@ + " "@ + "lower(?1)"@ == "lower(username) = lower(?1)"@,
{
    reveal_strlit(" ");
    reveal_strlit("=");
    reveal_strlit("lower(?1)");
    reveal_strlit("lower(username)");
    reveal_strlit("lower(username) = lower(?1)");
    assert("lower(username)"@ + " "@ + "="@ + " "@ + "lower(?1)"@ =~= "lower(username) = lower(?1)"@);
}

proof fn lemma_text_52()
    ensures
        "username IS NOT NULL"@ + " AND "@ + "lower(username) = lower(?1)"@ == "username IS NOT NULL AND lower(username) = lower(?1)"@,
{
    reveal_strlit(" AND ");
    reveal_strlit("lower(username) = lower(?1)");
    reveal_strlit("username IS NOT NULL");
    reveal_strlit("username IS NOT NULL AND lower(username) = lower(?1)");
    assert("username IS NOT NULL"@ + " AND "@ + "lower(username) = lower(?1)"@ =~= "username IS NOT NULL AND lower(username) = lower(?1)"@);
}

proof fn lemma_text_53()
    ensures
        "("@ + "username IS NOT NULL AND lower(username) = lower(?1)"@ + ")"@ == "(username IS NOT NULL AND lower(username) = lower(?1))"@,
{
    reveal_strlit("(");
    reveal_strlit("(username IS NOT NULL AND lower(username) = lower(?1))");
    reveal_strlit(")");
    reveal_strlit("username IS NOT NULL AND lower(username) = lower(?1)");
    assert("("@ + "username IS NOT NULL AND lower(username) = lower(?1)"@ + ")"@ =~= "(username IS NOT NULL AND lower(username) = lower(?1))"@);
}

proof fn lemma_text_54()
    ensures
        "lower(name) = lower(?1)"@ + " OR "@ + "(username IS NOT NULL AND lower(username) = lower(?1))"@ == "lower(name) = lower(?1) OR (username IS NOT NULL AND lower(username) = lower(?1))"@,
{
    reveal_strlit(" OR ");
    reveal_strlit("(username IS NOT NULL AND lower(username) = lower(?1))");
    reveal_strlit("lower(name) = lower(?1)");
    reveal_strlit("lower(name) = lower(?1) OR (username IS NOT NULL AND lower(username) = lower(?1))");
    assert("lower(name) = lower(?1)"@ + " OR "@ + "(username IS NOT NULL AND lower(username) = lower(?1))"@ =~= "lower(name) = lower(?1) OR (username IS NOT NULL AND lower(username) = lower(?1))"@);
}

proof fn lemma_text_55()
    ensures
        " WHERE "@ + "lower(name) = lower(?1) OR (username IS NOT NULL AND lower(username) = lower(?1))"@ == " WHERE lower(name) = lower(?1) OR (username IS NOT NULL AND lower(username) = lower(?1))"@,
{
    reveal_strlit(" WHERE ");
    reveal_strlit(" WHERE lower(name) = lower(?1) OR (username IS NOT NULL AND lower(username) = lower(?1))");
    reveal_strlit("lower(name) = lower(?1) OR (username IS NOT NULL AND lower(username) = lower(?1))");
    assert(" WHERE "@ + "lower(name) = lower(?1) OR (username IS NOT NULL AND lower(username) = lower(?1))"@ =~= " WHERE lower(name) = lower(?1) OR (username IS NOT NULL AND lower(username) = lower(?1))"@);
}

proof fn lemma_text_56()
    ensures
        "SELECT id FROM principals"@ + " WHERE lower(name) = lower(?1) OR (username IS NOT NULL AND lower(username) = lower(?1))"@ == "SELECT id FROM principals WHERE lower(name) = lower(?1) OR (username IS NOT NULL AND lower(username) = lower(?1))"@,
{
    reveal_strlit(" WHERE lower(name) = lower(?1) OR (username IS NOT NULL AND lower(username) = lower(?1))");
    reveal_strlit("SELECT id FROM principals");
    reveal_strlit("SELECT id FROM principals WHERE lower(name) = lower(?1) OR (username IS NOT NULL AND lower(username) = lower(?1))");
    assert("SELECT id FROM principals"@ + " WHERE lower(name) = lower(?1) OR (username IS NOT NULL AND lower(username) = lower(?1))"@ =~= "SELECT id FROM principals WHERE lower(name) = lower(?1) OR (username IS NOT NULL AND lower(username) = lower(?1))"@);
}

proof fn lemma_text_57()
    ensures
        "id"@ + ", "@ + "name"@ + ", "@ + "username"@ + ", "@ + "is_admin"@ == "id, name, username, is_admin"@,
{
    reveal_strlit(", ");
    reveal_strlit("id");
    reveal_strlit("id, name, username, is_admin");
    reveal_strlit("is_admin");
    reveal_strlit("name");
    reveal_strlit("username");
    assert("id"@ + ", "@ + "name"@ + ", "@ + "username"@ + ", "@ + "is_admin"@ =~= "id, name, username, is_admin"@);
}

proof fn lemma_text_58()
    ensures
        "id, name, username, is_admin"@ + ", "@ + "disabled"@ + ", "@ + "created_at"@ == "id, name, username, is_admin, disabled, created_at"@,
{
    reveal_strlit(", ");
    reveal_strlit("created_at");
    reveal_strlit("disabled");
    reveal_strlit("id, name, username, is_admin");
    reveal_strlit("id, name, username, is_admin, disabled, created_at");
    assert("id, name, username, is_admin"@ + ", "@ + "disabled"@ + ", "@ + "created_at"@ =~= "id, name, username, is_admin, disabled, created_at"@);
}

proof fn lemma_text_59()
    ensures
        "SELECT "@ + "id, name, username, is_admin, disabled, created_at"@ + " FROM "@ + "principals"@ == "SELECT id, name, username, is_admin, disabled, created_at FROM principals"@,
{
    reveal_strlit(" FROM ");
    reveal_strlit("SELECT ");
    reveal_strlit("SELECT id, name, username, is_admin, disabled, created_at FROM principals");
    reveal_strlit("id, name, username, is_admin, disabled, created_at");
    reveal_strlit("principals");
    assert("SELECT "@ + "id, name, username, is_admin, disabled, created_at"@ + " FROM "@ + "principals"@ =~= "SELECT id, name, username, is_admin, disabled, created_at FROM principals"@);
}

proof fn lemma_text_60()
    ensures
        " ORDER BY "@ + "name"@ == " ORDER BY name"@,
{
    reveal_strlit(" ORDER BY ");
    reveal_strlit(" ORDER BY name");
    reveal_strlit("name");
    assert(" ORDER BY "@ + "name"@ =~= " ORDER BY name"@);
}

proof fn lemma_text_61()
    ensures
        "SELECT id, name, username, is_admin, disabled, created_at FROM principals"@ + " ORDER BY name"@ == "SELECT id, name, username, is_admin, disabled, created_at FROM principals ORDER BY name"@,
{
    reveal_strlit(" ORDER BY name");
    reveal_strlit("SELECT id, name, username, is_admin, disabled, created_at FROM principals");
    reveal_strlit("SELECT id, name, username, is_admin, disabled, created_at FROM principals ORDER BY name");
    assert("SELECT id, name, username, is_admin, disabled, created_at FROM principals"@ + " ORDER BY name"@ =~= "SELECT id, name, username, is_admin, disabled, created_at FROM principals ORDER BY name"@);
}

proof fn lemma_text_62()
    ensures
        "instr"@ + "("@ + "lower(name)"@ + ", "@ + "lower(?1)"@ + ")"@ == "instr(lower(name), lower(?1))"@,
{
    reveal_strlit("(");
    reveal_strlit(")");
    reveal_strlit(", ");
    reveal_strlit("instr");
    reveal_strlit("instr(lower(name), lower(?1))");
    reveal_strlit("lower(?1)");
    reveal_strlit("lower(name)");
    assert("instr"@ + "("@ + "lower(name)"@ + ", "@ + "lower(?1)"@ + ")"@ =~= "instr(lower(name), lower(?1))"@);
}

proof fn lemma_text_63()
    ensures
        "instr(lower(name), lower(?1))"@ + " "@ + ">"@ + " "@ + "0"@ == "instr(lower(name), lower(?1)) > 0"@,
{
    reveal_strlit(" ");
    reveal_strlit("0");
    reveal_strlit(">");
    reveal_strlit("instr(lower(name), lower(?1))");
    reveal_strlit("instr(lower(name), lower(?1)) > 0");
    assert("instr(lower(name), lower(?1))"@ + " "@ + ">"@ + " "@ + "0"@ =~= "instr(lower(name), lower(?1)) > 0"@);
}

proof fn lemma_text_64()
    ensures
        "instr"@ + "("@ + "lower(username)"@ + ", "@ + "lower(?1)"@ + ")"@ == "instr(lower(username), lower(?1))"@,
{
    reveal_strlit("(");
    reveal_strlit(")");
    reveal_strlit(", ");
    reveal_strlit("instr");
    reveal_strlit("instr(lower(username), lower(?1))");
    reveal_strlit("lower(?1)");
    reveal_strlit("lower(username)");
    assert("instr"@ + "("@ + "lower(username)"@ + ", "@ + "lower(?1)"@ + ")"@ =~= "instr(lower(username), lower(?1))"@);
}

proof fn lemma_text_65()
    ensures
        "instr(lower(username), lower(?1))"@ + " "@ + ">"@ + " "@ + "0"@ == "instr(lower(username), lower(?1)) > 0"@,
{
    reveal_strlit(" ");
    reveal_strlit("0");
    reveal_strlit(">");
    reveal_strlit("instr(lower(username), lower(?1))");
    reveal_strlit("instr(lower(username), lower(?1)) > 0");
    assert("instr(lower(username), lower(?1))"@ + " "@ + ">"@ + " "@ + "0"@ =~= "instr(lower(username), lower(?1)) > 0"@);
}

proof fn lemma_text_66()
    ensures
        "instr(lower(name), lower(?1)) > 0"@ + " OR "@ + "instr(lower(username), lower(?1)) > 0"@ == "instr(lower(name), lower(?1)) > 0 OR instr(lower(username), lower(?1)) > 0"@,
{
    reveal_strlit(" OR ");
    reveal_strlit("instr(lower(name), lower(?1)) > 0");
    reveal_strlit("instr(lower(name), lower(?1)) > 0 OR instr(lower(username), lower(?1)) > 0");
    reveal_strlit("instr(lower(username), lower(?1)) > 0");
    assert("instr(lower(name), lower(?1)) > 0"@ + " OR "@ + "instr(lower(username), lower(?1)) > 0"@ =~= "instr(lower(name), lower(?1)) > 0 OR instr(lower(username), lower(?1)) > 0"@);
}

proof fn lemma_text_67()
    ensures
        " WHERE "@ + "instr(lower(name), lower(?1)) > 0 OR instr(lower(username), lower(?1)) > 0"@ == " WHERE instr(lower(name), lower(?1)) > 0 OR instr(lower(username), lower(?1)) > 0"@,
{
    reveal_strlit(" WHERE ");
    reveal_strlit(" WHERE instr(lower(name), lower(?1)) > 0 OR instr(lower(username), lower(?1)) > 0");
    reveal_strlit("instr(lower(name), lower(?1)) > 0 OR instr(lower(username), lower(?1)) > 0");
    assert(" WHERE "@ + "instr(lower(name), lower(?1)) > 0 OR instr(lower(username), lower(?1)) > 0"@ =~= " WHERE instr(lower(name), lower(?1)) > 0 OR instr(lower(username), lower(?1)) > 0"@);
}

proof fn lemma_text_68()
    ensures
        "SELECT id, name, username, is_admin, disabled, created_at FROM principals"@ + " WHERE instr(lower(name), lower(?1)) > 0 OR instr(lower(username), lower(?1)) > 0"@ + " ORDER BY name"@ == "SELECT id, name, username, is_admin, disabled, created_at FROM principals WHERE instr(lower(name), lower(?1)) > 0 OR instr(lower(username), lower(?1)) > 0 ORDER BY name"@,
{
    reveal_strlit(" ORDER BY name");
    reveal_strlit(" WHERE instr(lower(name), lower(?1)) > 0 OR instr(lower(username), lower(?1)) > 0");
    reveal_strlit("SELECT id, name, username, is_admin, disabled, created_at FROM principals");
    reveal_strlit("SELECT id, name, username, is_admin, disabled, created_at FROM principals WHERE instr(lower(name), lower(?1)) > 0 OR instr(lower(username), lower(?1)) > 0 ORDER BY name");
    assert("SELECT id, name, username, is_admin, disabled, created_at FROM principals"@ + " WHERE instr(lower(name), lower(?1)) > 0 OR instr(lower(username), lower(?1)) > 0"@ + " ORDER BY name"@ =~= "SELECT id, name, username, is_admin, disabled, created_at FROM principals WHERE instr(lower(name), lower(?1)) > 0 OR instr(lower(username), lower(?1)) > 0 ORDER BY name"@);
}

proof fn lemma_text_69()
    ensures
        "principal_id"@ + ", "@ + "database_name"@ + ", "@ + "role"@ == "principal_id, database_name, role"@,
{
    reveal_strlit(", ");
    reveal_strlit("database_name");
    reveal_strlit("principal_id");
    reveal_strlit("principal_id, database_name, role");
    reveal_strlit("role");
    assert("principal_id"@ + ", "@ + "database_name"@ + ", "@ + "role"@ =~= "principal_id, database_name, role"@);
}

proof fn lemma_text_70()
    ensures
        "?1"@ + ", "@ + "?2"@ + ", "@ + "?3"@ == "?1, ?2, ?3"@,
{
    reveal_strlit(", ");
    reveal_strlit("?1");
    reveal_strlit("?1, ?2, ?3");
    reveal_strlit("?2");
    reveal_strlit("?3");
    assert("?1"@ + ", "@ + "?2"@ + ", "@ + "?3"@ =~= "?1, ?2, ?3"@);
}

proof fn lemma_text_71()
    ensures
        "principal_id"@ + ", "@ + "database_name"@ == "principal_id, database_name"@,
{
    reveal_strlit(", ");
    reveal_strlit("database_name");
    reveal_strlit("principal_id");
    reveal_strlit("principal_id, database_name");
    assert("principal_id"@ + ", "@ + "database_name"@ =~= "principal_id, database_name"@);
}

proof fn lemma_text_72()
    ensures
        " ON CONFLICT("@ + "principal_id, database_name"@ + ") DO UPDATE SET "@ + "role"@ + " = excluded."@ + "role"@ == " ON CONFLICT(principal_id, database_name) DO UPDATE SET role = excluded.role"@,
{
    reveal_strlit(" = excluded.");
    reveal_strlit(" ON CONFLICT(");
    reveal_strlit(" ON CONFLICT(principal_id, database_name) DO UPDATE SET role = excluded.role");
    reveal_strlit(") DO UPDATE SET ");
    reveal_strlit("principal_id, database_name");
    reveal_strlit("role");
    assert(" ON CONFLICT("@ + "principal_id, database_name"@ + ") DO UPDATE SET "@ + "role"@ + " = excluded."@ + "role"@ =~= " ON CONFLICT(principal_id, database_name) DO UPDATE SET role = excluded.role"@);
}

proof fn lemma_text_73()
    ensures
        "INSERT INTO "@ + "grants"@ + " ("@ + "principal_id, database_name, role"@ + ") VALUES ("@ == "INSERT INTO grants (principal_id, database_name, role) VALUES ("@,
{
    reveal_strlit(" (");
    reveal_strlit(") VALUES (");
    reveal_strlit("INSERT INTO ");
    reveal_strlit("INSERT INTO grants (principal_id, database_name, role) VALUES (");
    reveal_strlit("grants");
    reveal_strlit("principal_id, database_name, role");
    assert("INSERT INTO "@ + "grants"@ + " ("@ + "principal_id, database_name, role"@ + ") VALUES ("@ =~= "INSERT INTO grants (principal_id, database_name, role) VALUES ("@);
}

proof fn lemma_text_74()
    ensures
        "INSERT INTO grants (principal_id, database_name, role) VALUES ("@ + "?1, ?2, ?3"@ + ")"@ + " ON CONFLICT(principal_id, database_name) DO UPDATE SET role = excluded.role"@ == "INSERT INTO grants (principal_id, database_name, role) VALUES (?1, ?2, ?3) ON CONFLICT(principal_id, database_name) DO UPDATE SET role = excluded.role"@,
{
    reveal_strlit(" ON CONFLICT(principal_id, database_name) DO UPDATE SET role = excluded.role");
    reveal_strlit(")");
    reveal_strlit("?1, ?2, ?3");
    reveal_strlit("INSERT INTO grants (principal_id, database_name, role) VALUES (");
    reveal_strlit("INSERT INTO grants (principal_id, database_name, role) VALUES (?1, ?2, ?3) ON CONFLICT(principal_id, database_name) DO UPDATE SET role = excluded.role");
    assert("INSERT INTO grants (principal_id, database_name, role) VALUES ("@ + "?1, ?2, ?3"@ + ")"@ + " ON CONFLICT(principal_id, database_name) DO UPDATE SET role = excluded.role"@ =~= "INSERT INTO grants (principal_id, database_name, role) VALUES (?1, ?2, ?3) ON CONFLICT(principal_id, database_name) DO UPDATE SET role = excluded.role"@);
}

proof fn lemma_text_75()
    ensures
        "principal_id"@ + " "@ + "="@ + " "@ + "?1"@ == "principal_id = ?1"@,
{
    reveal_strlit(" ");
    reveal_strlit("=");
    reveal_strlit("?1");
    reveal_strlit("principal_id");
    reveal_strlit("principal_id = ?1");
    assert("principal_id"@ + " "@ + "="@ + " "@ + "?1"@ =~= "principal_id = ?1"@);
}

proof fn lemma_text_76()
    ensures
        "database_name"@ + " "@ + "="@ + " "@ + "?2"@ == "database_name = ?2"@,
{
    reveal_strlit(" ");
    reveal_strlit("=");
    reveal_strlit("?2");
    reveal_strlit("database_name");
    reveal_strlit("database_name = ?2");
    assert("database_name"@ + " "@ + "="@ + " "@ + "?2"@ =~= "database_name = ?2"@);
}

proof fn lemma_text_77()
    ensures
        "principal_id = ?1"@ + " AND "@ + "database_name = ?2"@ == "principal_id = ?1 AND database_name = ?2"@,
{
    reveal_strlit(" AND ");
    reveal_strlit("database_name = ?2");
    reveal_strlit("principal_id = ?1");
    reveal_strlit("principal_id = ?1 AND database_name = ?2");
    assert("principal_id = ?1"@ + " AND "@ + "database_name = ?2"@ =~= "principal_id = ?1 AND database_name = ?2"@);
}

proof fn lemma_text_78()
    ensures
        "DELETE FROM "@ + "grants"@ + " WHERE "@ + "principal_id = ?1 AND database_name = ?2"@ == "DELETE FROM grants WHERE principal_id = ?1 AND database_name = ?2"@,
{
    reveal_strlit(" WHERE ");
    reveal_strlit("DELETE FROM ");
    reveal_strlit("DELETE FROM grants WHERE principal_id = ?1 AND database_name = ?2");
    reveal_strlit("grants");
    reveal_strlit("principal_id = ?1 AND database_name = ?2");
    assert("DELETE FROM "@ + "grants"@ + " WHERE "@ + "principal_id = ?1 AND database_name = ?2"@ =~= "DELETE FROM grants WHERE principal_id = ?1 AND database_name = ?2"@);
}

proof fn lemma_text_79()
    ensures
        "SELECT "@ + "role"@ + " FROM "@ + "grants"@ == "SELECT role FROM grants"@,
{
    reveal_strlit(" FROM ");
    reveal_strlit("SELECT ");
    reveal_strlit("SELECT role FROM grants");
    reveal_strlit("grants");
    reveal_strlit("role");
    assert("SELECT "@ + "role"@ + " FROM "@ + "grants"@ =~= "SELECT role FROM grants"@);
}

proof fn lemma_text_80()
    ensures
        " WHERE "@ + "principal_id = ?1 AND database_name = ?2"@ == " WHERE principal_id = ?1 AND database_name = ?2"@,
{
    reveal_strlit(" WHERE ");
    reveal_strlit(" WHERE principal_id = ?1 AND database_name = ?2");
    reveal_strlit("principal_id = ?1 AND database_name = ?2");
    assert(" WHERE "@ + "principal_id = ?1 AND database_name = ?2"@ =~= " WHERE principal_id = ?1 AND database_name = ?2"@);
}

proof fn lemma_text_81()
    ensures
        "SELECT role FROM grants"@ + " WHERE principal_id = ?1 AND database_name = ?2"@ == "SELECT role FROM grants WHERE principal_id = ?1 AND database_name = ?2"@,
{
    reveal_strlit(" WHERE principal_id = ?1 AND database_name = ?2");
    reveal_strlit("SELECT role FROM grants");
    reveal_strlit("SELECT role FROM grants WHERE principal_id = ?1 AND database_name = ?2");
    assert("SELECT role FROM grants"@ + " WHERE principal_id = ?1 AND database_name = ?2"@ =~= "SELECT role FROM grants WHERE principal_id = ?1 AND database_name = ?2"@);
}

proof fn lemma_text_82()
    ensures
        "database_name"@ + ", "@ + "role"@ == "database_name, role"@,
{
    reveal_strlit(", ");
    reveal_strlit("database_name");
    reveal_strlit("database_name, role");
    reveal_strlit("role");
    assert("database_name"@ + ", "@ + "role"@ =~= "database_name, role"@);
}

proof fn lemma_text_83()
    ensures
        "SELECT "@ + "database_name, role"@ + " FROM "@ + "grants"@ == "SELECT database_name, role FROM grants"@,
{
    reveal_strlit(" FROM ");
    reveal_strlit("SELECT ");
    reveal_strlit("SELECT database_name, role FROM grants");
    reveal_strlit("database_name, role");
    reveal_strlit("grants");
    assert("SELECT "@ + "database_name, role"@ + " FROM "@ + "grants"@ =~= "SELECT database_name, role FROM grants"@);
}

proof fn lemma_text_84()
    ensures
        " WHERE "@ + "principal_id = ?1"@ == " WHERE principal_id = ?1"@,
{
    reveal_strlit(" WHERE ");
    reveal_strlit(" WHERE principal_id = ?1");
    reveal_strlit("principal_id = ?1");
    assert(" WHERE "@ + "principal_id = ?1"@ =~= " WHERE principal_id = ?1"@);
}

proof fn lemma_text_85()
    ensures
        " ORDER BY "@ + "database_name"@ == " ORDER BY database_name"@,
{
    reveal_strlit(" ORDER BY ");
    reveal_strlit(" ORDER BY database_name");
    reveal_strlit("database_name");
    assert(" ORDER BY "@ + "database_name"@ =~= " ORDER BY database_name"@);
}

proof fn lemma_text_86()
    ensures
        "SELECT database_name, role FROM grants"@ + " WHERE principal_id = ?1"@ + " ORDER BY database_name"@ == "SELECT database_name, role FROM grants WHERE principal_id = ?1 ORDER BY database_name"@,
{
    reveal_strlit(" ORDER BY database_name");
    reveal_strlit(" WHERE principal_id = ?1");
    reveal_strlit("SELECT database_name, role FROM grants");
    reveal_strlit("SELECT database_name, role FROM grants WHERE principal_id = ?1 ORDER BY database_name");
    assert("SELECT database_name, role FROM grants"@ + " WHERE principal_id = ?1"@ + " ORDER BY database_name"@ =~= "SELECT database_name, role FROM grants WHERE principal_id = ?1 ORDER BY database_name"@);
}

proof fn lemma_text_87()
    ensures
        "database_name"@ + " "@ + "="@ + " "@ + "?1"@ == "database_name = ?1"@,
{
    reveal_strlit(" ");
    reveal_strlit("=");
    reveal_strlit("?1");
    reveal_strlit("database_name");
    reveal_strlit("database_name = ?1");
    assert("database_name"@ + " "@ + "="@ + " "@ + "?1"@ =~= "database_name = ?1"@);
}

proof fn lemma_text_88()
    ensures
        "DELETE FROM "@ + "grants"@ + " WHERE "@ + "database_name = ?1"@ == "DELETE FROM grants WHERE database_name = ?1"@,
{
    reveal_strlit(" WHERE ");
    reveal_strlit("DELETE FROM ");
    reveal_strlit("DELETE FROM grants WHERE database_name = ?1");
    reveal_strlit("database_name = ?1");
    reveal_strlit("grants");
    assert("DELETE FROM "@ + "grants"@ + " WHERE "@ + "database_name = ?1"@ =~= "DELETE FROM grants WHERE database_name = ?1"@);
}

proof fn lemma_text_89()
    ensures
        "name"@ + ", "@ + "created_at"@ == "name, created_at"@,
{
    reveal_strlit(", ");
    reveal_strlit("created_at");
    reveal_strlit("name");
    reveal_strlit("name, created_at");
    assert("name"@ + ", "@ + "created_at"@ =~= "name, created_at"@);
}

proof fn lemma_text_90()
    ensures
        "?1"@ + ", "@ + "?2"@ == "?1, ?2"@,
{
    reveal_strlit(", ");
    reveal_strlit("?1");
    reveal_strlit("?1, ?2");
    reveal_strlit("?2");
    assert("?1"@ + ", "@ + "?2"@ =~= "?1, ?2"@);
}

proof fn lemma_text_91()
    ensures
        "INSERT OR IGNORE INTO "@ + "databases"@ + " ("@ + "name, created_at"@ + ") VALUES ("@ == "INSERT OR IGNORE INTO databases (name, created_at) VALUES ("@,
{
    reveal_strlit(" (");
    reveal_strlit(") VALUES (");
    reveal_strlit("INSERT OR IGNORE INTO ");
    reveal_strlit("INSERT OR IGNORE INTO databases (name, created_at) VALUES (");
    reveal_strlit("databases");
    reveal_strlit("name, created_at");
    assert("INSERT OR IGNORE INTO "@ + "databases"@ + " ("@ + "name, created_at"@ + ") VALUES ("@ =~= "INSERT OR IGNORE INTO databases (name, created_at) VALUES ("@);
}

proof fn lemma_text_92()
    ensures
        "INSERT OR IGNORE INTO databases (name, created_at) VALUES ("@ + "?1, ?2"@ + ")"@ == "INSERT OR IGNORE INTO databases (name, created_at) VALUES (?1, ?2)"@,
{
    reveal_strlit(")");
    reveal_strlit("?1, ?2");
    reveal_strlit("INSERT OR IGNORE INTO databases (name, created_at) VALUES (");
    reveal_strlit("INSERT OR IGNORE INTO databases (name, created_at) VALUES (?1, ?2)");
    assert("INSERT OR IGNORE INTO databases (name, created_at) VALUES ("@ + "?1, ?2"@ + ")"@ =~= "INSERT OR IGNORE INTO databases (name, created_at) VALUES (?1, ?2)"@);
}

proof fn lemma_text_93()
    ensures
        "SELECT "@ + "count(*)"@ + " FROM "@ + "principals"@ == "SELECT count(*) FROM principals"@,
{
    reveal_strlit(" FROM ");
    reveal_strlit("SELECT ");
    reveal_strlit("SELECT count(*) FROM principals");
    reveal_strlit("count(*)");
    reveal_strlit("principals");
    assert("SELECT "@ + "count(*)"@ + " FROM "@ + "principals"@ =~= "SELECT count(*) FROM principals"@);
}

proof fn lemma_text_94()
    ensures
        "name"@ + " "@ + "="@ + " "@ + "?1"@ == "name = ?1"@,
{
    reveal_strlit(" ");
    reveal_strlit("=");
    reveal_strlit("?1");
    reveal_strlit("name");
    reveal_strlit("name = ?1");
    assert("name"@ + " "@ + "="@ + " "@ + "?1"@ =~= "name = ?1"@);
}

proof fn lemma_text_95()
    ensures
        "SELECT "@ + "count(*)"@ + " FROM "@ + "databases"@ == "SELECT count(*) FROM databases"@,
{
    reveal_strlit(" FROM ");
    reveal_strlit("SELECT ");
    reveal_strlit("SELECT count(*) FROM databases");
    reveal_strlit("count(*)");
    reveal_strlit("databases");
    assert("SELECT "@ + "count(*)"@ + " FROM "@ + "databases"@ =~= "SELECT count(*) FROM databases"@);
}

proof fn lemma_text_96()
    ensures
        " WHERE "@ + "name = ?1"@ == " WHERE name = ?1"@,
{
    reveal_strlit(" WHERE ");
    reveal_strlit(" WHERE name = ?1");
    reveal_strlit("name = ?1");
    assert(" WHERE "@ + "name = ?1"@ =~= " WHERE name = ?1"@);
}

proof fn lemma_text_97()
    ensures
        "SELECT count(*) FROM databases"@ + " WHERE name = ?1"@ == "SELECT count(*) FROM databases WHERE name = ?1"@,
{
    reveal_strlit(" WHERE name = ?1");
    reveal_strlit("SELECT count(*) FROM databases");
    reveal_strlit("SELECT count(*) FROM databases WHERE name = ?1");
    assert("SELECT count(*) FROM databases"@ + " WHERE name = ?1"@ =~= "SELECT count(*) FROM databases WHERE name = ?1"@);
}

proof fn lemma_text_98()
    ensures
        "SELECT "@ + "name, created_at"@ + " FROM "@ + "databases"@ == "SELECT name, created_at FROM databases"@,
{
    reveal_strlit(" FROM ");
    reveal_strlit("SELECT ");
    reveal_strlit("SELECT name, created_at FROM databases");
    reveal_strlit("databases");
    reveal_strlit("name, created_at");
    assert("SELECT "@ + "name, created_at"@ + " FROM "@ + "databases"@ =~= "SELECT name, created_at FROM databases"@);
}

proof fn lemma_text_99()
    ensures
        "SELECT name, created_at FROM databases"@ + " ORDER BY name"@ == "SELECT name, created_at FROM databases ORDER BY name"@,
{
    reveal_strlit(" ORDER BY name");
    reveal_strlit("SELECT name, created_at FROM databases");
    reveal_strlit("SELECT name, created_at FROM databases ORDER BY name");
    assert("SELECT name, created_at FROM databases"@ + " ORDER BY name"@ =~= "SELECT name, created_at FROM databases ORDER BY name"@);
}

proof fn lemma_text_100()
    ensures
        "DELETE FROM "@ + "databases"@ + " WHERE "@ + "name = ?1"@ == "DELETE FROM databases WHERE name = ?1"@,
{
    reveal_strlit(" WHERE ");
    reveal_strlit("DELETE FROM ");
    reveal_strlit("DELETE FROM databases WHERE name = ?1");
    reveal_strlit("databases");
    reveal_strlit("name = ?1");
    assert("DELETE FROM "@ + "databases"@ + " WHERE "@ + "name = ?1"@ =~= "DELETE FROM databases WHERE name = ?1"@);
}

proof fn lemma_text_101()
    ensures
        "'"@ + "public_registration"@ + "'"@ == "'public_registration'"@,
{
    reveal_strlit("'");
    reveal_strlit("'public_registration'");
    reveal_strlit("public_registration");
    assert("'"@ + "public_registration"@ + "'"@ =~= "'public_registration'"@);
}

proof fn lemma_text_102()
    ensures
        "key"@ + " "@ + "="@ + " "@ + "'public_registration'"@ == "key = 'public_registration'"@,
{
    reveal_strlit(" ");
    reveal_strlit("'public_registration'");
    reveal_strlit("=");
    reveal_strlit("key");
    reveal_strlit("key = 'public_registration'");
    assert("key"@ + " "@ + "="@ + " "@ + "'public_registration'"@ =~= "key = 'public_registration'"@);
}

proof fn lemma_text_103()
    ensures
        "SELECT "@ + "value"@ + " FROM "@ + "auth_settings"@ == "SELECT value FROM auth_settings"@,
{
    reveal_strlit(" FROM ");
    reveal_strlit("SELECT ");
    reveal_strlit("SELECT value FROM auth_settings");
    reveal_strlit("auth_settings");
    reveal_strlit("value");
    assert("SELECT "@ + "value"@ + " FROM "@ + "auth_settings"@ =~= "SELECT value FROM auth_settings"@);
}

proof fn lemma_text_104()
    ensures
        " WHERE "@ + "key = 'public_registration'"@ == " WHERE key = 'public_registration'"@,
{
    reveal_strlit(" WHERE ");
    reveal_strlit(" WHERE key = 'public_registration'");
    reveal_strlit("key = 'public_registration'");
    assert(" WHERE "@ + "key = 'public_registration'"@ =~= " WHERE key = 'public_registration'"@);
}

proof fn lemma_text_105()
    ensures
        "SELECT value FROM auth_settings"@ + " WHERE key = 'public_registration'"@ == "SELECT value FROM auth_settings WHERE key = 'public_registration'"@,
{
    reveal_strlit(" WHERE key = 'public_registration'");
    reveal_strlit("SELECT value FROM auth_settings");
    reveal_strlit("SELECT value FROM auth_settings WHERE key = 'public_registration'");
    assert("SELECT value FROM auth_settings"@ + " WHERE key = 'public_registration'"@ =~= "SELECT value FROM auth_settings WHERE key = 'public_registration'"@);
}

proof fn lemma_text_106()
    ensures
        "key"@ + ", "@ + "value"@ == "key, value"@,
{
    reveal_strlit(", ");
    reveal_strlit("key");
    reveal_strlit("key, value");
    reveal_strlit("value");
    assert("key"@ + ", "@ + "value"@ =~= "key, value"@);
}

proof fn lemma_text_107()
    ensures
        "'public_registration'"@ + ", "@ + "?1"@ == "'public_registration', ?1"@,
{
    reveal_strlit("'public_registration'");
    reveal_strlit("'public_registration', ?1");
    reveal_strlit(", ");
    reveal_strlit("?1");
    assert("'public_registration'"@ + ", "@ + "?1"@ =~= "'public_registration', ?1"@);
}

proof fn lemma_text_108()
    ensures
        " ON CONFLICT("@ + "key"@ + ") DO UPDATE SET "@ + "value"@ + " = excluded."@ + "value"@ == " ON CONFLICT(key) DO UPDATE SET value = excluded.value"@,
{
    reveal_strlit(" = excluded.");
    reveal_strlit(" ON CONFLICT(");
    reveal_strlit(" ON CONFLICT(key) DO UPDATE SET value = excluded.value");
    reveal_strlit(") DO UPDATE SET ");
    reveal_strlit("key");
    reveal_strlit("value");
    assert(" ON CONFLICT("@ + "key"@ + ") DO UPDATE SET "@ + "value"@ + " = excluded."@ + "value"@ =~= " ON CONFLICT(key) DO UPDATE SET value = excluded.value"@);
}

proof fn lemma_text_109()
    ensures
        "INSERT INTO "@ + "auth_settings"@ + " ("@ + "key, value"@ + ") VALUES ("@ == "INSERT INTO auth_settings (key, value) VALUES ("@,
{
    reveal_strlit(" (");
    reveal_strlit(") VALUES (");
    reveal_strlit("INSERT INTO ");
    reveal_strlit("INSERT INTO auth_settings (key, value) VALUES (");
    reveal_strlit("auth_settings");
    reveal_strlit("key, value");
    assert("INSERT INTO "@ + "auth_settings"@ + " ("@ + "key, value"@ + ") VALUES ("@ =~= "INSERT INTO auth_settings (key, value) VALUES ("@);
}

proof fn lemma_text_110()
    ensures
        "INSERT INTO auth_settings (key, value) VALUES ("@ + "'public_registration', ?1"@ + ")"@ + " ON CONFLICT(key) DO UPDATE SET value = excluded.value"@ == "INSERT INTO auth_settings (key, value) VALUES ('public_registration', ?1) ON CONFLICT(key) DO UPDATE SET value = excluded.value"@,
{
    reveal_strlit(" ON CONFLICT(key) DO UPDATE SET value = excluded.value");
    reveal_strlit("'public_registration', ?1");
    reveal_strlit(")");
    reveal_strlit("INSERT INTO auth_settings (key, value) VALUES (");
    reveal_strlit("INSERT INTO auth_settings (key, value) VALUES ('public_registration', ?1) ON CONFLICT(key) DO UPDATE SET value = excluded.value");
    assert("INSERT INTO auth_settings (key, value) VALUES ("@ + "'public_registration', ?1"@ + ")"@ + " ON CONFLICT(key) DO UPDATE SET value = excluded.value"@ =~= "INSERT INTO auth_settings (key, value) VALUES ('public_registration', ?1) ON CONFLICT(key) DO UPDATE SET value = excluded.value"@);
}

proof fn lemma_text_111()
    ensures
        "csrf_hash"@ + " "@ + "="@ + " "@ + "?2"@ == "csrf_hash = ?2"@,
{
    reveal_strlit(" ");
    reveal_strlit("=");
    reveal_strlit("?2");
    reveal_strlit("csrf_hash");
    reveal_strlit("csrf_hash = ?2");
    assert("csrf_hash"@ + " "@ + "="@ + " "@ + "?2"@ =~= "csrf_hash = ?2"@);
}

proof fn lemma_text_112()
    ensures
        "expires_at"@ + " "@ + ">"@ + " "@ + "?3"@ == "expires_at > ?3"@,
{
    reveal_strlit(" ");
    reveal_strlit(">");
    reveal_strlit("?3");
    reveal_strlit("expires_at");
    reveal_strlit("expires_at > ?3");
    assert("expires_at"@ + " "@ + ">"@ + " "@ + "?3"@ =~= "expires_at > ?3"@);
}

proof fn lemma_text_113()
    ensures
        "token_hash = ?1"@ + " AND "@ + "csrf_hash = ?2"@ + " AND "@ + "expires_at > ?3"@ == "token_hash = ?1 AND csrf_hash = ?2 AND expires_at > ?3"@,
{
    reveal_strlit(" AND ");
    reveal_strlit("csrf_hash = ?2");
    reveal_strlit("expires_at > ?3");
    reveal_strlit("token_hash = ?1");
    reveal_strlit("token_hash = ?1 AND csrf_hash = ?2 AND expires_at > ?3");
    assert("token_hash = ?1"@ + " AND "@ + "csrf_hash = ?2"@ + " AND "@ + "expires_at > ?3"@ =~= "token_hash = ?1 AND csrf_hash = ?2 AND expires_at > ?3"@);
}

proof fn lemma_text_114()
    ensures
        "SELECT "@ + "principal_id"@ + " FROM "@ + "browser_sessions"@ == "SELECT principal_id FROM browser_sessions"@,
{
    reveal_strlit(" FROM ");
    reveal_strlit("SELECT ");
    reveal_strlit("SELECT principal_id FROM browser_sessions");
    reveal_strlit("browser_sessions");
    reveal_strlit("principal_id");
    assert("SELECT "@ + "principal_id"@ + " FROM "@ + "browser_sessions"@ =~= "SELECT principal_id FROM browser_sessions"@);
}

proof fn lemma_text_115()
    ensures
        " WHERE "@ + "token_hash = ?1 AND csrf_hash = ?2 AND expires_at > ?3"@ == " WHERE token_hash = ?1 AND csrf_hash = ?2 AND expires_at > ?3"@,
{
    reveal_strlit(" WHERE ");
    reveal_strlit(" WHERE token_hash = ?1 AND csrf_hash = ?2 AND expires_at > ?3");
    reveal_strlit("token_hash = ?1 AND csrf_hash = ?2 AND expires_at > ?3");
    assert(" WHERE "@ + "token_hash = ?1 AND csrf_hash = ?2 AND expires_at > ?3"@ =~= " WHERE token_hash = ?1 AND csrf_hash = ?2 AND expires_at > ?3"@);
}

proof fn lemma_text_116()
    ensures
        "SELECT principal_id FROM browser_sessions"@ + " WHERE token_hash = ?1 AND csrf_hash = ?2 AND expires_at > ?3"@ == "SELECT principal_id FROM browser_sessions WHERE token_hash = ?1 AND csrf_hash = ?2 AND expires_at > ?3"@,
{
    reveal_strlit(" WHERE token_hash = ?1 AND csrf_hash = ?2 AND expires_at > ?3");
    reveal_strlit("SELECT principal_id FROM browser_sessions");
    reveal_strlit("SELECT principal_id FROM browser_sessions WHERE token_hash = ?1 AND csrf_hash = ?2 AND expires_at > ?3");
    assert("SELECT principal_id FROM browser_sessions"@ + " WHERE token_hash = ?1 AND csrf_hash = ?2 AND expires_at > ?3"@ =~= "SELECT principal_id FROM browser_sessions WHERE token_hash = ?1 AND csrf_hash = ?2 AND expires_at > ?3"@);
}

proof fn lemma_text_117()
    ensures
        "DELETE FROM "@ + "browser_sessions"@ + " WHERE "@ + "token_hash = ?1"@ == "DELETE FROM browser_sessions WHERE token_hash = ?1"@,
{
    reveal_strlit(" WHERE ");
    reveal_strlit("DELETE FROM ");
    reveal_strlit("DELETE FROM browser_sessions WHERE token_hash = ?1");
    reveal_strlit("browser_sessions");
    reveal_strlit("token_hash = ?1");
    assert("DELETE FROM "@ + "browser_sessions"@ + " WHERE "@ + "token_hash = ?1"@ =~= "DELETE FROM browser_sessions WHERE token_hash = ?1"@);
}

proof fn lemma_text_118()
    ensures
        "expires_at"@ + " "@ + "<="@ + " "@ + "?1"@ == "expires_at <= ?1"@,
{
    reveal_strlit(" ");
    reveal_strlit("<=");
    reveal_strlit("?1");
    reveal_strlit("expires_at");
    reveal_strlit("expires_at <= ?1");
    assert("expires_at"@ + " "@ + "<="@ + " "@ + "?1"@ =~= "expires_at <= ?1"@);
}

proof fn lemma_text_119()
    ensures
        "DELETE FROM "@ + "browser_sessions"@ + " WHERE "@ + "expires_at <= ?1"@ == "DELETE FROM browser_sessions WHERE expires_at <= ?1"@,
{
    reveal_strlit(" WHERE ");
    reveal_strlit("DELETE FROM ");
    reveal_strlit("DELETE FROM browser_sessions WHERE expires_at <= ?1");
    reveal_strlit("browser_sessions");
    reveal_strlit("expires_at <= ?1");
    assert("DELETE FROM "@ + "browser_sessions"@ + " WHERE "@ + "expires_at <= ?1"@ =~= "DELETE FROM browser_sessions WHERE expires_at <= ?1"@);
}

proof fn lemma_text_120()
    ensures
        "token_hash"@ + ", "@ + "principal_id"@ + ", "@ + "csrf_hash"@ + ", "@ + "expires_at"@ + ", "@ + "created_at"@ == "token_hash, principal_id, csrf_hash, expires_at, created_at"@,
{
    reveal_strlit(", ");
    reveal_strlit("created_at");
    reveal_strlit("csrf_hash");
    reveal_strlit("expires_at");
    reveal_strlit("principal_id");
    reveal_strlit("token_hash");
    reveal_strlit("token_hash, principal_id, csrf_hash, expires_at, created_at");
    assert("token_hash"@ + ", "@ + "principal_id"@ + ", "@ + "csrf_hash"@ + ", "@ + "expires_at"@ + ", "@ + "created_at"@ =~= "token_hash, principal_id, csrf_hash, expires_at, created_at"@);
}

proof fn lemma_text_121()
    ensures
        "?1"@ + ", "@ + "?2"@ + ", "@ + "?3"@ + ", "@ + "?4"@ + ", "@ + "?5"@ == "?1, ?2, ?3, ?4, ?5"@,
{
    reveal_strlit(", ");
    reveal_strlit("?1");
    reveal_strlit("?1, ?2, ?3, ?4, ?5");
    reveal_strlit("?2");
    reveal_strlit("?3");
    reveal_strlit("?4");
    reveal_strlit("?5");
    assert("?1"@ + ", "@ + "?2"@ + ", "@ + "?3"@ + ", "@ + "?4"@ + ", "@ + "?5"@ =~= "?1, ?2, ?3, ?4, ?5"@);
}

proof fn lemma_text_122()
    ensures
        "INSERT INTO "@ + "browser_sessions"@ + " ("@ + "token_hash, principal_id, csrf_hash, expires_at, created_at"@ + ") VALUES ("@ == "INSERT INTO browser_sessions (token_hash, principal_id, csrf_hash, expires_at, created_at) VALUES ("@,
{
    reveal_strlit(" (");
    reveal_strlit(") VALUES (");
    reveal_strlit("INSERT INTO ");
    reveal_strlit("INSERT INTO browser_sessions (token_hash, principal_id, csrf_hash, expires_at, created_at) VALUES (");
    reveal_strlit("browser_sessions");
    reveal_strlit("token_hash, principal_id, csrf_hash, expires_at, created_at");
    assert("INSERT INTO "@ + "browser_sessions"@ + " ("@ + "token_hash, principal_id, csrf_hash, expires_at, created_at"@ + ") VALUES ("@ =~= "INSERT INTO browser_sessions (token_hash, principal_id, csrf_hash, expires_at, created_at) VALUES ("@);
}

proof fn lemma_text_123()
    ensures
        "INSERT INTO browser_sessions (token_hash, principal_id, csrf_hash, expires_at, created_at) VALUES ("@ + "?1, ?2, ?3, ?4, ?5"@ + ")"@ == "INSERT INTO browser_sessions (token_hash, principal_id, csrf_hash, expires_at, created_at) VALUES (?1, ?2, ?3, ?4, ?5)"@,
{
    reveal_strlit(")");
    reveal_strlit("?1, ?2, ?3, ?4, ?5");
    reveal_strlit("INSERT INTO browser_sessions (token_hash, principal_id, csrf_hash, expires_at, created_at) VALUES (");
    reveal_strlit("INSERT INTO browser_sessions (token_hash, principal_id, csrf_hash, expires_at, created_at) VALUES (?1, ?2, ?3, ?4, ?5)");
    assert("INSERT INTO browser_sessions (token_hash, principal_id, csrf_hash, expires_at, created_at) VALUES ("@ + "?1, ?2, ?3, ?4, ?5"@ + ")"@ =~= "INSERT INTO browser_sessions (token_hash, principal_id, csrf_hash, expires_at, created_at) VALUES (?1, ?2, ?3, ?4, ?5)"@);
}

proof fn lemma_text_124()
    ensures
        "token_hash = ?1"@ + " AND "@ + "csrf_hash = ?2"@ == "token_hash = ?1 AND csrf_hash = ?2"@,
{
    reveal_strlit(" AND ");
    reveal_strlit("csrf_hash = ?2");
    reveal_strlit("token_hash = ?1");
    reveal_strlit("token_hash = ?1 AND csrf_hash = ?2");
    assert("token_hash = ?1"@ + " AND "@ + "csrf_hash = ?2"@ =~= "token_hash = ?1 AND csrf_hash = ?2"@);
}

proof fn lemma_text_125()
    ensures
        "DELETE FROM "@ + "browser_sessions"@ + " WHERE "@ + "token_hash = ?1 AND csrf_hash = ?2"@ == "DELETE FROM browser_sessions WHERE token_hash = ?1 AND csrf_hash = ?2"@,
{
    reveal_strlit(" WHERE ");
    reveal_strlit("DELETE FROM ");
    reveal_strlit("DELETE FROM browser_sessions WHERE token_hash = ?1 AND csrf_hash = ?2");
    reveal_strlit("browser_sessions");
    reveal_strlit("token_hash = ?1 AND csrf_hash = ?2");
    assert("DELETE FROM "@ + "browser_sessions"@ + " WHERE "@ + "token_hash = ?1 AND csrf_hash = ?2"@ =~= "DELETE FROM browser_sessions WHERE token_hash = ?1 AND csrf_hash = ?2"@);
}

proof fn lemma_text_126()
    ensures
        "DELETE FROM "@ + "browser_sessions"@ + " WHERE "@ + "principal_id = ?1"@ == "DELETE FROM browser_sessions WHERE principal_id = ?1"@,
{
    reveal_strlit(" WHERE ");
    reveal_strlit("DELETE FROM ");
    reveal_strlit("DELETE FROM browser_sessions WHERE principal_id = ?1");
    reveal_strlit("browser_sessions");
    reveal_strlit("principal_id = ?1");
    assert("DELETE FROM "@ + "browser_sessions"@ + " WHERE "@ + "principal_id = ?1"@ =~= "DELETE FROM browser_sessions WHERE principal_id = ?1"@);
}

proof fn lemma_text_127()
    ensures
        "DELETE FROM "@ + "browser_access_tokens"@ + " WHERE "@ + "expires_at <= ?1"@ == "DELETE FROM browser_access_tokens WHERE expires_at <= ?1"@,
{
    reveal_strlit(" WHERE ");
    reveal_strlit("DELETE FROM ");
    reveal_strlit("DELETE FROM browser_access_tokens WHERE expires_at <= ?1");
    reveal_strlit("browser_access_tokens");
    reveal_strlit("expires_at <= ?1");
    assert("DELETE FROM "@ + "browser_access_tokens"@ + " WHERE "@ + "expires_at <= ?1"@ =~= "DELETE FROM browser_access_tokens WHERE expires_at <= ?1"@);
}

proof fn lemma_text_128()
    ensures
        "token_hash"@ + ", "@ + "principal_id"@ + ", "@ + "expires_at"@ == "token_hash, principal_id, expires_at"@,
{
    reveal_strlit(", ");
    reveal_strlit("expires_at");
    reveal_strlit("principal_id");
    reveal_strlit("token_hash");
    reveal_strlit("token_hash, principal_id, expires_at");
    assert("token_hash"@ + ", "@ + "principal_id"@ + ", "@ + "expires_at"@ =~= "token_hash, principal_id, expires_at"@);
}

proof fn lemma_text_129()
    ensures
        "INSERT INTO "@ + "browser_access_tokens"@ + " ("@ + "token_hash, principal_id, expires_at"@ + ") VALUES ("@ == "INSERT INTO browser_access_tokens (token_hash, principal_id, expires_at) VALUES ("@,
{
    reveal_strlit(" (");
    reveal_strlit(") VALUES (");
    reveal_strlit("INSERT INTO ");
    reveal_strlit("INSERT INTO browser_access_tokens (token_hash, principal_id, expires_at) VALUES (");
    reveal_strlit("browser_access_tokens");
    reveal_strlit("token_hash, principal_id, expires_at");
    assert("INSERT INTO "@ + "browser_access_tokens"@ + " ("@ + "token_hash, principal_id, expires_at"@ + ") VALUES ("@ =~= "INSERT INTO browser_access_tokens (token_hash, principal_id, expires_at) VALUES ("@);
}

proof fn lemma_text_130()
    ensures
        "INSERT INTO browser_access_tokens (token_hash, principal_id, expires_at) VALUES ("@ + "?1, ?2, ?3"@ + ")"@ == "INSERT INTO browser_access_tokens (token_hash, principal_id, expires_at) VALUES (?1, ?2, ?3)"@,
{
    reveal_strlit(")");
    reveal_strlit("?1, ?2, ?3");
    reveal_strlit("INSERT INTO browser_access_tokens (token_hash, principal_id, expires_at) VALUES (");
    reveal_strlit("INSERT INTO browser_access_tokens (token_hash, principal_id, expires_at) VALUES (?1, ?2, ?3)");
    assert("INSERT INTO browser_access_tokens (token_hash, principal_id, expires_at) VALUES ("@ + "?1, ?2, ?3"@ + ")"@ =~= "INSERT INTO browser_access_tokens (token_hash, principal_id, expires_at) VALUES (?1, ?2, ?3)"@);
}

proof fn lemma_text_131()
    ensures
        "DELETE FROM "@ + "browser_access_tokens"@ + " WHERE "@ + "principal_id = ?1"@ == "DELETE FROM browser_access_tokens WHERE principal_id = ?1"@,
{
    reveal_strlit(" WHERE ");
    reveal_strlit("DELETE FROM ");
    reveal_strlit("DELETE FROM browser_access_tokens WHERE principal_id = ?1");
    reveal_strlit("browser_access_tokens");
    reveal_strlit("principal_id = ?1");
    assert("DELETE FROM "@ + "browser_access_tokens"@ + " WHERE "@ + "principal_id = ?1"@ =~= "DELETE FROM browser_access_tokens WHERE principal_id = ?1"@);
}

proof fn lemma_text_132()
    ensures
        "name"@ + ", "@ + "collection"@ + ", "@ + "path"@ + ", "@ + "is_unique"@ == "name, collection, path, is_unique"@,
{
    reveal_strlit(", ");
    reveal_strlit("collection");
    reveal_strlit("is_unique");
    reveal_strlit("name");
    reveal_strlit("name, collection, path, is_unique");
    reveal_strlit("path");
    assert("name"@ + ", "@ + "collection"@ + ", "@ + "path"@ + ", "@ + "is_unique"@ =~= "name, collection, path, is_unique"@);
}

proof fn lemma_text_133()
    ensures
        "INSERT INTO "@ + "_indexes"@ + " ("@ + "name, collection, path, is_unique"@ + ") VALUES ("@ == "INSERT INTO _indexes (name, collection, path, is_unique) VALUES ("@,
{
    reveal_strlit(" (");
    reveal_strlit(") VALUES (");
    reveal_strlit("INSERT INTO ");
    reveal_strlit("INSERT INTO _indexes (name, collection, path, is_unique) VALUES (");
    reveal_strlit("_indexes");
    reveal_strlit("name, collection, path, is_unique");
    assert("INSERT INTO "@ + "_indexes"@ + " ("@ + "name, collection, path, is_unique"@ + ") VALUES ("@ =~= "INSERT INTO _indexes (name, collection, path, is_unique) VALUES ("@);
}

proof fn lemma_text_134()
    ensures
        "INSERT INTO _indexes (name, collection, path, is_unique) VALUES ("@ + "?1, ?2, ?3, ?4"@ + ")"@ == "INSERT INTO _indexes (name, collection, path, is_unique) VALUES (?1, ?2, ?3, ?4)"@,
{
    reveal_strlit(")");
    reveal_strlit("?1, ?2, ?3, ?4");
    reveal_strlit("INSERT INTO _indexes (name, collection, path, is_unique) VALUES (");
    reveal_strlit("INSERT INTO _indexes (name, collection, path, is_unique) VALUES (?1, ?2, ?3, ?4)");
    assert("INSERT INTO _indexes (name, collection, path, is_unique) VALUES ("@ + "?1, ?2, ?3, ?4"@ + ")"@ =~= "INSERT INTO _indexes (name, collection, path, is_unique) VALUES (?1, ?2, ?3, ?4)"@);
}

proof fn lemma_text_135()
    ensures
        "SELECT "@ + "count(*)"@ + " FROM "@ + "_indexes"@ == "SELECT count(*) FROM _indexes"@,
{
    reveal_strlit(" FROM ");
    reveal_strlit("SELECT ");
    reveal_strlit("SELECT count(*) FROM _indexes");
    reveal_strlit("_indexes");
    reveal_strlit("count(*)");
    assert("SELECT "@ + "count(*)"@ + " FROM "@ + "_indexes"@ =~= "SELECT count(*) FROM _indexes"@);
}

proof fn lemma_text_136()
    ensures
        "SELECT count(*) FROM _indexes"@ + " WHERE name = ?1"@ == "SELECT count(*) FROM _indexes WHERE name = ?1"@,
{
    reveal_strlit(" WHERE name = ?1");
    reveal_strlit("SELECT count(*) FROM _indexes");
    reveal_strlit("SELECT count(*) FROM _indexes WHERE name = ?1");
    assert("SELECT count(*) FROM _indexes"@ + " WHERE name = ?1"@ =~= "SELECT count(*) FROM _indexes WHERE name = ?1"@);
}

proof fn lemma_text_137()
    ensures
        "DELETE FROM "@ + "_indexes"@ + " WHERE "@ + "name = ?1"@ == "DELETE FROM _indexes WHERE name = ?1"@,
{
    reveal_strlit(" WHERE ");
    reveal_strlit("DELETE FROM ");
    reveal_strlit("DELETE FROM _indexes WHERE name = ?1");
    reveal_strlit("_indexes");
    reveal_strlit("name = ?1");
    assert("DELETE FROM "@ + "_indexes"@ + " WHERE "@ + "name = ?1"@ =~= "DELETE FROM _indexes WHERE name = ?1"@);
}

proof fn lemma_text_138()
    ensures
        "collection"@ + " "@ + "="@ + " "@ + "?1"@ == "collection = ?1"@,
{
    reveal_strlit(" ");
    reveal_strlit("=");
    reveal_strlit("?1");
    reveal_strlit("collection");
    reveal_strlit("collection = ?1");
    assert("collection"@ + " "@ + "="@ + " "@ + "?1"@ =~= "collection = ?1"@);
}

proof fn lemma_text_139()
    ensures
        "SELECT "@ + "name, collection, path, is_unique"@ + " FROM "@ + "_indexes"@ == "SELECT name, collection, path, is_unique FROM _indexes"@,
{
    reveal_strlit(" FROM ");
    reveal_strlit("SELECT ");
    reveal_strlit("SELECT name, collection, path, is_unique FROM _indexes");
    reveal_strlit("_indexes");
    reveal_strlit("name, collection, path, is_unique");
    assert("SELECT "@ + "name, collection, path, is_unique"@ + " FROM "@ + "_indexes"@ =~= "SELECT name, collection, path, is_unique FROM _indexes"@);
}

proof fn lemma_text_140()
    ensures
        " WHERE "@ + "collection = ?1"@ == " WHERE collection = ?1"@,
{
    reveal_strlit(" WHERE ");
    reveal_strlit(" WHERE collection = ?1");
    reveal_strlit("collection = ?1");
    assert(" WHERE "@ + "collection = ?1"@ =~= " WHERE collection = ?1"@);
}

proof fn lemma_text_141()
    ensures
        "SELECT name, collection, path, is_unique FROM _indexes"@ + " WHERE collection = ?1"@ + " ORDER BY name"@ == "SELECT name, collection, path, is_unique FROM _indexes WHERE collection = ?1 ORDER BY name"@,
{
    reveal_strlit(" ORDER BY name");
    reveal_strlit(" WHERE collection = ?1");
    reveal_strlit("SELECT name, collection, path, is_unique FROM _indexes");
    reveal_strlit("SELECT name, collection, path, is_unique FROM _indexes WHERE collection = ?1 ORDER BY name");
    assert("SELECT name, collection, path, is_unique FROM _indexes"@ + " WHERE collection = ?1"@ + " ORDER BY name"@ =~= "SELECT name, collection, path, is_unique FROM _indexes WHERE collection = ?1 ORDER BY name"@);
}

proof fn lemma_text_142()
    ensures
        "'"@ + "table"@ + "'"@ == "'table'"@,
{
    reveal_strlit("'");
    reveal_strlit("'table'");
    reveal_strlit("table");
    assert("'"@ + "table"@ + "'"@ =~= "'table'"@);
}

proof fn lemma_text_143()
    ensures
        "type"@ + "="@ + "'table'"@ == "type='table'"@,
{
    reveal_strlit("'table'");
    reveal_strlit("=");
    reveal_strlit("type");
    reveal_strlit("type='table'");
    assert("type"@ + "="@ + "'table'"@ =~= "type='table'"@);
}

proof fn lemma_text_144()
    ensures
        "name"@ + "="@ + "?1"@ == "name=?1"@,
{
    reveal_strlit("=");
    reveal_strlit("?1");
    reveal_strlit("name");
    reveal_strlit("name=?1");
    assert("name"@ + "="@ + "?1"@ =~= "name=?1"@);
}

proof fn lemma_text_145()
    ensures
        "type='table'"@ + " AND "@ + "name=?1"@ == "type='table' AND name=?1"@,
{
    reveal_strlit(" AND ");
    reveal_strlit("name=?1");
    reveal_strlit("type='table'");
    reveal_strlit("type='table' AND name=?1");
    assert("type='table'"@ + " AND "@ + "name=?1"@ =~= "type='table' AND name=?1"@);
}

proof fn lemma_text_146()
    ensures
        "SELECT "@ + "count(*)"@ + " FROM "@ + "sqlite_master"@ == "SELECT count(*) FROM sqlite_master"@,
{
    reveal_strlit(" FROM ");
    reveal_strlit("SELECT ");
    reveal_strlit("SELECT count(*) FROM sqlite_master");
    reveal_strlit("count(*)");
    reveal_strlit("sqlite_master");
    assert("SELECT "@ + "count(*)"@ + " FROM "@ + "sqlite_master"@ =~= "SELECT count(*) FROM sqlite_master"@);
}

proof fn lemma_text_147()
    ensures
        " WHERE "@ + "type='table' AND name=?1"@ == " WHERE type='table' AND name=?1"@,
{
    reveal_strlit(" WHERE ");
    reveal_strlit(" WHERE type='table' AND name=?1");
    reveal_strlit("type='table' AND name=?1");
    assert(" WHERE "@ + "type='table' AND name=?1"@ =~= " WHERE type='table' AND name=?1"@);
}

proof fn lemma_text_148()
    ensures
        "SELECT count(*) FROM sqlite_master"@ + " WHERE type='table' AND name=?1"@ == "SELECT count(*) FROM sqlite_master WHERE type='table' AND name=?1"@,
{
    reveal_strlit(" WHERE type='table' AND name=?1");
    reveal_strlit("SELECT count(*) FROM sqlite_master");
    reveal_strlit("SELECT count(*) FROM sqlite_master WHERE type='table' AND name=?1");
    assert("SELECT count(*) FROM sqlite_master"@ + " WHERE type='table' AND name=?1"@ =~= "SELECT count(*) FROM sqlite_master WHERE type='table' AND name=?1"@);
}

proof fn lemma_text_149()
    ensures
        "collection"@ + ", "@ + "op"@ + ", "@ + "doc_id"@ + ", "@ + "doc"@ + ", "@ + "ts"@ == "collection, op, doc_id, doc, ts"@,
{
    reveal_strlit(", ");
    reveal_strlit("collection");
    reveal_strlit("collection, op, doc_id, doc, ts");
    reveal_strlit("doc");
    reveal_strlit("doc_id");
    reveal_strlit("op");
    reveal_strlit("ts");
    assert("collection"@ + ", "@ + "op"@ + ", "@ + "doc_id"@ + ", "@ + "doc"@ + ", "@ + "ts"@ =~= "collection, op, doc_id, doc, ts"@);
}

proof fn lemma_text_150()
    ensures
        "?1"@ + ", "@ + "?2"@ + ", "@ + "?3"@ + ", "@ + "NULL"@ + ", "@ + "?4"@ == "?1, ?2, ?3, NULL, ?4"@,
{
    reveal_strlit(", ");
    reveal_strlit("?1");
    reveal_strlit("?1, ?2, ?3, NULL, ?4");
    reveal_strlit("?2");
    reveal_strlit("?3");
    reveal_strlit("?4");
    reveal_strlit("NULL");
    assert("?1"@ + ", "@ + "?2"@ + ", "@ + "?3"@ + ", "@ + "NULL"@ + ", "@ + "?4"@ =~= "?1, ?2, ?3, NULL, ?4"@);
}

proof fn lemma_text_151()
    ensures
        "INSERT INTO "@ + "_changelog"@ + " ("@ + "collection, op, doc_id, doc, ts"@ + ") VALUES ("@ == "INSERT INTO _changelog (collection, op, doc_id, doc, ts) VALUES ("@,
{
    reveal_strlit(" (");
    reveal_strlit(") VALUES (");
    reveal_strlit("INSERT INTO ");
    reveal_strlit("INSERT INTO _changelog (collection, op, doc_id, doc, ts) VALUES (");
    reveal_strlit("_changelog");
    reveal_strlit("collection, op, doc_id, doc, ts");
    assert("INSERT INTO "@ + "_changelog"@ + " ("@ + "collection, op, doc_id, doc, ts"@ + ") VALUES ("@ =~= "INSERT INTO _changelog (collection, op, doc_id, doc, ts) VALUES ("@);
}

proof fn lemma_text_152()
    ensures
        "INSERT INTO _changelog (collection, op, doc_id, doc, ts) VALUES ("@ + "?1, ?2, ?3, NULL, ?4"@ + ")"@ == "INSERT INTO _changelog (collection, op, doc_id, doc, ts) VALUES (?1, ?2, ?3, NULL, ?4)"@,
{
    reveal_strlit(")");
    reveal_strlit("?1, ?2, ?3, NULL, ?4");
    reveal_strlit("INSERT INTO _changelog (collection, op, doc_id, doc, ts) VALUES (");
    reveal_strlit("INSERT INTO _changelog (collection, op, doc_id, doc, ts) VALUES (?1, ?2, ?3, NULL, ?4)");
    assert("INSERT INTO _changelog (collection, op, doc_id, doc, ts) VALUES ("@ + "?1, ?2, ?3, NULL, ?4"@ + ")"@ =~= "INSERT INTO _changelog (collection, op, doc_id, doc, ts) VALUES (?1, ?2, ?3, NULL, ?4)"@);
}

proof fn lemma_text_153()
    ensures
        "json"@ + "("@ + "?4"@ + ")"@ == "json(?4)"@,
{
    reveal_strlit("(");
    reveal_strlit(")");
    reveal_strlit("?4");
    reveal_strlit("json");
    reveal_strlit("json(?4)");
    assert("json"@ + "("@ + "?4"@ + ")"@ =~= "json(?4)"@);
}

proof fn lemma_text_154()
    ensures
        "?1"@ + ", "@ + "?2"@ + ", "@ + "?3"@ + ", "@ + "json(?4)"@ + ", "@ + "?5"@ == "?1, ?2, ?3, json(?4), ?5"@,
{
    reveal_strlit(", ");
    reveal_strlit("?1");
    reveal_strlit("?1, ?2, ?3, json(?4), ?5");
    reveal_strlit("?2");
    reveal_strlit("?3");
    reveal_strlit("?5");
    reveal_strlit("json(?4)");
    assert("?1"@ + ", "@ + "?2"@ + ", "@ + "?3"@ + ", "@ + "json(?4)"@ + ", "@ + "?5"@ =~= "?1, ?2, ?3, json(?4), ?5"@);
}

proof fn lemma_text_155()
    ensures
        "INSERT INTO _changelog (collection, op, doc_id, doc, ts) VALUES ("@ + "?1, ?2, ?3, json(?4), ?5"@ + ")"@ == "INSERT INTO _changelog (collection, op, doc_id, doc, ts) VALUES (?1, ?2, ?3, json(?4), ?5)"@,
{
    reveal_strlit(")");
    reveal_strlit("?1, ?2, ?3, json(?4), ?5");
    reveal_strlit("INSERT INTO _changelog (collection, op, doc_id, doc, ts) VALUES (");
    reveal_strlit("INSERT INTO _changelog (collection, op, doc_id, doc, ts) VALUES (?1, ?2, ?3, json(?4), ?5)");
    assert("INSERT INTO _changelog (collection, op, doc_id, doc, ts) VALUES ("@ + "?1, ?2, ?3, json(?4), ?5"@ + ")"@ =~= "INSERT INTO _changelog (collection, op, doc_id, doc, ts) VALUES (?1, ?2, ?3, json(?4), ?5)"@);
}

proof fn lemma_text_156()
    ensures
        "jsonb"@ + "("@ + "?4"@ + ")"@ == "jsonb(?4)"@,
{
    reveal_strlit("(");
    reveal_strlit(")");
    reveal_strlit("?4");
    reveal_strlit("jsonb");
    reveal_strlit("jsonb(?4)");
    assert("jsonb"@ + "("@ + "?4"@ + ")"@ =~= "jsonb(?4)"@);
}

proof fn lemma_text_157()
    ensures
        "?1"@ + ", "@ + "?2"@ + ", "@ + "?3"@ + ", "@ + "jsonb(?4)"@ + ", "@ + "?5"@ == "?1, ?2, ?3, jsonb(?4), ?5"@,
{
    reveal_strlit(", ");
    reveal_strlit("?1");
    reveal_strlit("?1, ?2, ?3, jsonb(?4), ?5");
    reveal_strlit("?2");
    reveal_strlit("?3");
    reveal_strlit("?5");
    reveal_strlit("jsonb(?4)");
    assert("?1"@ + ", "@ + "?2"@ + ", "@ + "?3"@ + ", "@ + "jsonb(?4)"@ + ", "@ + "?5"@ =~= "?1, ?2, ?3, jsonb(?4), ?5"@);
}

proof fn lemma_text_158()
    ensures
        "INSERT INTO _changelog (collection, op, doc_id, doc, ts) VALUES ("@ + "?1, ?2, ?3, jsonb(?4), ?5"@ + ")"@ == "INSERT INTO _changelog (collection, op, doc_id, doc, ts) VALUES (?1, ?2, ?3, jsonb(?4), ?5)"@,
{
    reveal_strlit(")");
    reveal_strlit("?1, ?2, ?3, jsonb(?4), ?5");
    reveal_strlit("INSERT INTO _changelog (collection, op, doc_id, doc, ts) VALUES (");
    reveal_strlit("INSERT INTO _changelog (collection, op, doc_id, doc, ts) VALUES (?1, ?2, ?3, jsonb(?4), ?5)");
    assert("INSERT INTO _changelog (collection, op, doc_id, doc, ts) VALUES ("@ + "?1, ?2, ?3, jsonb(?4), ?5"@ + ")"@ =~= "INSERT INTO _changelog (collection, op, doc_id, doc, ts) VALUES (?1, ?2, ?3, jsonb(?4), ?5)"@);
}

proof fn lemma_text_159()
    ensures
        "json"@ + "("@ + "doc"@ + ")"@ == "json(doc)"@,
{
    reveal_strlit("(");
    reveal_strlit(")");
    reveal_strlit("doc");
    reveal_strlit("json");
    reveal_strlit("json(doc)");
    assert("json"@ + "("@ + "doc"@ + ")"@ =~= "json(doc)"@);
}

proof fn lemma_text_160()
    ensures
        "seq"@ + ", "@ + "op"@ + ", "@ + "doc_id"@ + ", "@ + "json(doc)"@ == "seq, op, doc_id, json(doc)"@,
{
    reveal_strlit(", ");
    reveal_strlit("doc_id");
    reveal_strlit("json(doc)");
    reveal_strlit("op");
    reveal_strlit("seq");
    reveal_strlit("seq, op, doc_id, json(doc)");
    assert("seq"@ + ", "@ + "op"@ + ", "@ + "doc_id"@ + ", "@ + "json(doc)"@ =~= "seq, op, doc_id, json(doc)"@);
}

proof fn lemma_text_161()
    ensures
        "seq"@ + " "@ + ">"@ + " "@ + "?1"@ == "seq > ?1"@,
{
    reveal_strlit(" ");
    reveal_strlit(">");
    reveal_strlit("?1");
    reveal_strlit("seq");
    reveal_strlit("seq > ?1");
    assert("seq"@ + " "@ + ">"@ + " "@ + "?1"@ =~= "seq > ?1"@);
}

proof fn lemma_text_162()
    ensures
        "collection"@ + " "@ + "="@ + " "@ + "?2"@ == "collection = ?2"@,
{
    reveal_strlit(" ");
    reveal_strlit("=");
    reveal_strlit("?2");
    reveal_strlit("collection");
    reveal_strlit("collection = ?2");
    assert("collection"@ + " "@ + "="@ + " "@ + "?2"@ =~= "collection = ?2"@);
}

proof fn lemma_text_163()
    ensures
        "seq > ?1"@ + " AND "@ + "collection = ?2"@ == "seq > ?1 AND collection = ?2"@,
{
    reveal_strlit(" AND ");
    reveal_strlit("collection = ?2");
    reveal_strlit("seq > ?1");
    reveal_strlit("seq > ?1 AND collection = ?2");
    assert("seq > ?1"@ + " AND "@ + "collection = ?2"@ =~= "seq > ?1 AND collection = ?2"@);
}

proof fn lemma_text_164()
    ensures
        "SELECT "@ + "seq, op, doc_id, json(doc)"@ + " FROM "@ + "_changelog"@ == "SELECT seq, op, doc_id, json(doc) FROM _changelog"@,
{
    reveal_strlit(" FROM ");
    reveal_strlit("SELECT ");
    reveal_strlit("SELECT seq, op, doc_id, json(doc) FROM _changelog");
    reveal_strlit("_changelog");
    reveal_strlit("seq, op, doc_id, json(doc)");
    assert("SELECT "@ + "seq, op, doc_id, json(doc)"@ + " FROM "@ + "_changelog"@ =~= "SELECT seq, op, doc_id, json(doc) FROM _changelog"@);
}

proof fn lemma_text_165()
    ensures
        " WHERE "@ + "seq > ?1 AND collection = ?2"@ == " WHERE seq > ?1 AND collection = ?2"@,
{
    reveal_strlit(" WHERE ");
    reveal_strlit(" WHERE seq > ?1 AND collection = ?2");
    reveal_strlit("seq > ?1 AND collection = ?2");
    assert(" WHERE "@ + "seq > ?1 AND collection = ?2"@ =~= " WHERE seq > ?1 AND collection = ?2"@);
}

proof fn lemma_text_166()
    ensures
        " ORDER BY "@ + "seq"@ == " ORDER BY seq"@,
{
    reveal_strlit(" ORDER BY ");
    reveal_strlit(" ORDER BY seq");
    reveal_strlit("seq");
    assert(" ORDER BY "@ + "seq"@ =~= " ORDER BY seq"@);
}

proof fn lemma_text_167()
    ensures
        "SELECT seq, op, doc_id, json(doc) FROM _changelog"@ + " WHERE seq > ?1 AND collection = ?2"@ + " ORDER BY seq"@ == "SELECT seq, op, doc_id, json(doc) FROM _changelog WHERE seq > ?1 AND collection = ?2 ORDER BY seq"@,
{
    reveal_strlit(" ORDER BY seq");
    reveal_strlit(" WHERE seq > ?1 AND collection = ?2");
    reveal_strlit("SELECT seq, op, doc_id, json(doc) FROM _changelog");
    reveal_strlit("SELECT seq, op, doc_id, json(doc) FROM _changelog WHERE seq > ?1 AND collection = ?2 ORDER BY seq");
    assert("SELECT seq, op, doc_id, json(doc) FROM _changelog"@ + " WHERE seq > ?1 AND collection = ?2"@ + " ORDER BY seq"@ =~= "SELECT seq, op, doc_id, json(doc) FROM _changelog WHERE seq > ?1 AND collection = ?2 ORDER BY seq"@);
}

proof fn lemma_text_168()
    ensures
        "COALESCE(MAX("@ + "seq"@ + "), 0)"@ == "COALESCE(MAX(seq), 0)"@,
{
    reveal_strlit("), 0)");
    reveal_strlit("COALESCE(MAX(");
    reveal_strlit("COALESCE(MAX(seq), 0)");
    reveal_strlit("seq");
    assert("COALESCE(MAX("@ + "seq"@ + "), 0)"@ =~= "COALESCE(MAX(seq), 0)"@);
}

proof fn lemma_text_169()
    ensures
        "SELECT "@ + "COALESCE(MAX(seq), 0)"@ + " FROM "@ + "_changelog"@ == "SELECT COALESCE(MAX(seq), 0) FROM _changelog"@,
{
    reveal_strlit(" FROM ");
    reveal_strlit("COALESCE(MAX(seq), 0)");
    reveal_strlit("SELECT ");
    reveal_strlit("SELECT COALESCE(MAX(seq), 0) FROM _changelog");
    reveal_strlit("_changelog");
    assert("SELECT "@ + "COALESCE(MAX(seq), 0)"@ + " FROM "@ + "_changelog"@ =~= "SELECT COALESCE(MAX(seq), 0) FROM _changelog"@);
}

proof fn lemma_text_170()
    ensures
        "MIN("@ + "seq"@ + ")"@ == "MIN(seq)"@,
{
    reveal_strlit(")");
    reveal_strlit("MIN(");
    reveal_strlit("MIN(seq)");
    reveal_strlit("seq");
    assert("MIN("@ + "seq"@ + ")"@ =~= "MIN(seq)"@);
}

proof fn lemma_text_171()
    ensures
        "SELECT "@ + "MIN(seq)"@ + " FROM "@ + "_changelog"@ == "SELECT MIN(seq) FROM _changelog"@,
{
    reveal_strlit(" FROM ");
    reveal_strlit("MIN(seq)");
    reveal_strlit("SELECT ");
    reveal_strlit("SELECT MIN(seq) FROM _changelog");
    reveal_strlit("_changelog");
    assert("SELECT "@ + "MIN(seq)"@ + " FROM "@ + "_changelog"@ =~= "SELECT MIN(seq) FROM _changelog"@);
}

// ---- Principals ------------------------------------------------------------

pub open spec fn principal_insert_tree() -> Change {
    Change::Insert {
        table: "principals"@,
        columns: seq!["id"@, "name"@, "is_admin"@, "token_hash"@, "disabled"@, "created_at"@],
        values: seq![Expr::Param(1), Expr::Param(2), Expr::Param(3), Expr::Param(4), Expr::Number(0), Expr::Param(5)],
        clash: Clash::Refuse,
    }
}

#[verifier::rlimit(30)]
pub proof fn lemma_principal_insert_reads()
    ensures
        change_ok(principal_insert_tree()),
        change_text(principal_insert_tree())
            == "INSERT INTO principals (id, name, is_admin, token_hash, disabled, created_at) VALUES (?1, ?2, ?3, ?4, 0, ?5)"@,
{
    lemma_params();
    lemma_numbers();
    let columns = seq!["id"@, "name"@, "is_admin"@, "token_hash"@, "disabled"@, "created_at"@];
    let values = seq![Expr::Param(1), Expr::Param(2), Expr::Param(3), Expr::Param(4), Expr::Number(0), Expr::Param(5)];
    lemma_join6("id"@, "name"@, "is_admin"@, "token_hash"@, "disabled"@, "created_at"@, ", "@);
    lemma_text_1();
    assert("id"@ + ", "@ + "name"@ + ", "@ + "is_admin"@ + ", "@ + "token_hash"@ == "id, name, is_admin, token_hash"@);
    lemma_text_2();
    assert(join(columns, ", "@) == "id, name, is_admin, token_hash, disabled, created_at"@);
    assert(expr_texts(values) =~= seq!["?1"@, "?2"@, "?3"@, "?4"@, "0"@, "?5"@]);
    lemma_join6("?1"@, "?2"@, "?3"@, "?4"@, "0"@, "?5"@, ", "@);
    lemma_text_3();
    assert("?1"@ + ", "@ + "?2"@ + ", "@ + "?3"@ + ", "@ + "?4"@ == "?1, ?2, ?3, ?4"@);
    lemma_text_4();
    assert(join(expr_texts(values), ", "@) == "?1, ?2, ?3, ?4, 0, ?5"@);
    lemma_text_5();
    assert("INSERT INTO "@ + "principals"@ + " ("@ + "id, name, is_admin, token_hash, disabled, created_at"@ + ") VALUES ("@ == "INSERT INTO principals (id, name, is_admin, token_hash, disabled, created_at) VALUES ("@);
    lemma_text_6();
    assert("INSERT INTO principals (id, name, is_admin, token_hash, disabled, created_at) VALUES ("@ + "?1, ?2, ?3, ?4, 0, ?5"@ + ")"@ == "INSERT INTO principals (id, name, is_admin, token_hash, disabled, created_at) VALUES (?1, ?2, ?3, ?4, 0, ?5)"@);
    assert("INSERT INTO principals (id, name, is_admin, token_hash, disabled, created_at) VALUES (?1, ?2, ?3, ?4, 0, ?5)"@ + Seq::<char>::empty() =~= "INSERT INTO principals (id, name, is_admin, token_hash, disabled, created_at) VALUES (?1, ?2, ?3, ?4, 0, ?5)"@);
    assert(change_text(principal_insert_tree()) == "INSERT INTO principals (id, name, is_admin, token_hash, disabled, created_at) VALUES (?1, ?2, ?3, ?4, 0, ?5)"@);
    assert(change_ok(principal_insert_tree())) by {
        lemma_idents();
        reveal_with_fuel(expr_ok, 4);
    }
}

pub open spec fn user_insert_tree() -> Change {
    Change::Insert {
        table: "principals"@,
        columns: seq!["id"@, "name"@, "is_admin"@, "token_hash"@, "disabled"@, "created_at"@, "username"@, "password_hash"@],
        values: seq![Expr::Param(1), Expr::Param(2), Expr::Number(0), Expr::Param(3), Expr::Number(0), Expr::Param(4), Expr::Param(5), Expr::Param(6)],
        clash: Clash::Refuse,
    }
}

#[verifier::rlimit(30)]
pub proof fn lemma_user_insert_reads()
    ensures
        change_ok(user_insert_tree()),
        change_text(user_insert_tree())
            == "INSERT INTO principals (id, name, is_admin, token_hash, disabled, created_at, username, password_hash) VALUES (?1, ?2, 0, ?3, 0, ?4, ?5, ?6)"@,
{
    lemma_params();
    lemma_numbers();
    let columns = seq!["id"@, "name"@, "is_admin"@, "token_hash"@, "disabled"@, "created_at"@, "username"@, "password_hash"@];
    let values = seq![Expr::Param(1), Expr::Param(2), Expr::Number(0), Expr::Param(3), Expr::Number(0), Expr::Param(4), Expr::Param(5), Expr::Param(6)];
    lemma_join8("id"@, "name"@, "is_admin"@, "token_hash"@, "disabled"@, "created_at"@, "username"@, "password_hash"@, ", "@);
    lemma_text_1();
    assert("id"@ + ", "@ + "name"@ + ", "@ + "is_admin"@ + ", "@ + "token_hash"@ == "id, name, is_admin, token_hash"@);
    lemma_text_7();
    assert(join(columns, ", "@) == "id, name, is_admin, token_hash, disabled, created_at, username, password_hash"@);
    assert(expr_texts(values) =~= seq!["?1"@, "?2"@, "0"@, "?3"@, "0"@, "?4"@, "?5"@, "?6"@]);
    lemma_join8("?1"@, "?2"@, "0"@, "?3"@, "0"@, "?4"@, "?5"@, "?6"@, ", "@);
    lemma_text_8();
    assert("?1"@ + ", "@ + "?2"@ + ", "@ + "0"@ + ", "@ + "?3"@ == "?1, ?2, 0, ?3"@);
    lemma_text_9();
    assert(join(expr_texts(values), ", "@) == "?1, ?2, 0, ?3, 0, ?4, ?5, ?6"@);
    lemma_text_10();
    assert("INSERT INTO "@ + "principals"@ + " ("@ + "id, name, is_admin, token_hash, disabled, created_at, username, password_hash"@ + ") VALUES ("@ == "INSERT INTO principals (id, name, is_admin, token_hash, disabled, created_at, username, password_hash) VALUES ("@);
    lemma_text_11();
    assert("INSERT INTO principals (id, name, is_admin, token_hash, disabled, created_at, username, password_hash) VALUES ("@ + "?1, ?2, 0, ?3, 0, ?4, ?5, ?6"@ + ")"@ == "INSERT INTO principals (id, name, is_admin, token_hash, disabled, created_at, username, password_hash) VALUES (?1, ?2, 0, ?3, 0, ?4, ?5, ?6)"@);
    assert("INSERT INTO principals (id, name, is_admin, token_hash, disabled, created_at, username, password_hash) VALUES (?1, ?2, 0, ?3, 0, ?4, ?5, ?6)"@ + Seq::<char>::empty() =~= "INSERT INTO principals (id, name, is_admin, token_hash, disabled, created_at, username, password_hash) VALUES (?1, ?2, 0, ?3, 0, ?4, ?5, ?6)"@);
    assert(change_text(user_insert_tree()) == "INSERT INTO principals (id, name, is_admin, token_hash, disabled, created_at, username, password_hash) VALUES (?1, ?2, 0, ?3, 0, ?4, ?5, ?6)"@);
    assert(change_ok(user_insert_tree())) by {
        lemma_idents();
        reveal_with_fuel(expr_ok, 4);
    }
}

pub open spec fn by_token_tree() -> Question {
    Question {
        wanted: Wanted::Cells(seq![Expr::Column("id"@), Expr::Column("name"@), Expr::Column("is_admin"@), Expr::Column("disabled"@)]),
        table: "principals"@,
        cond: Some(Cond::Test(Expr::Column("token_hash"@), Relation::Equal, Expr::Param(1))),
        order: Seq::empty(),
        limit: None,
        offset: None,
    }
}

#[verifier::rlimit(30)]
pub proof fn lemma_by_token_reads()
    ensures
        question_ok(by_token_tree()),
        question_binds(by_token_tree()).len() == 0,
        question_text(by_token_tree())
            == "SELECT id, name, is_admin, disabled FROM principals WHERE token_hash = ?1"@,
{
    lemma_params();
    lemma_numbers();
    let cells = seq![Expr::Column("id"@), Expr::Column("name"@), Expr::Column("is_admin"@), Expr::Column("disabled"@)];
    assert(expr_texts(cells) =~= seq!["id"@, "name"@, "is_admin"@, "disabled"@]);
    lemma_join4("id"@, "name"@, "is_admin"@, "disabled"@, ", "@);
    lemma_text_12();
    assert(join(expr_texts(cells), ", "@) == "id, name, is_admin, disabled"@);
    lemma_text_13();
    assert(cond_text(Cond::Test(Expr::Column("token_hash"@), Relation::Equal, Expr::Param(1))) == "token_hash = ?1"@);
    assert(cond_ok(Cond::Test(Expr::Column("token_hash"@), Relation::Equal, Expr::Param(1)))) by {
        lemma_idents();
        reveal_with_fuel(expr_ok, 4);
    }
    lemma_text_14();
    assert("SELECT "@ + "id, name, is_admin, disabled"@ + " FROM "@ + "principals"@ == "SELECT id, name, is_admin, disabled FROM principals"@);
    lemma_text_15();
    assert(" WHERE "@ + "token_hash = ?1"@ == " WHERE token_hash = ?1"@);
    assert(question_text(by_token_tree()) == "SELECT id, name, is_admin, disabled FROM principals"@ + " WHERE token_hash = ?1"@ + Seq::<char>::empty() + Seq::<char>::empty() + Seq::<char>::empty());
    assert("SELECT id, name, is_admin, disabled FROM principals"@ + " WHERE token_hash = ?1"@ + Seq::<char>::empty() + Seq::<char>::empty() + Seq::<char>::empty() =~= "SELECT id, name, is_admin, disabled FROM principals"@ + " WHERE token_hash = ?1"@);
    lemma_text_16();
    assert("SELECT id, name, is_admin, disabled FROM principals"@ + " WHERE token_hash = ?1"@ == "SELECT id, name, is_admin, disabled FROM principals WHERE token_hash = ?1"@);
    assert(cond_binds(Cond::Test(Expr::Column("token_hash"@), Relation::Equal, Expr::Param(1))) =~= Seq::empty());
    assert(question_binds(by_token_tree()) =~= Seq::empty());
    assert(question_ok(by_token_tree())) by {
        lemma_idents();
        reveal_with_fuel(expr_ok, 4);
    }
}

pub open spec fn by_username_tree() -> Question {
    Question {
        wanted: Wanted::Cells(seq![Expr::Column("id"@), Expr::Column("password_hash"@)]),
        table: "principals"@,
        cond: Some(both(Cond::Test(Expr::Column("username"@), Relation::Equal, Expr::Param(1)), Cond::Test(Expr::Column("disabled"@), Relation::Equal, Expr::Number(0)))),
        order: Seq::empty(),
        limit: None,
        offset: None,
    }
}

#[verifier::rlimit(30)]
pub proof fn lemma_by_username_reads()
    ensures
        question_ok(by_username_tree()),
        question_binds(by_username_tree()).len() == 0,
        question_text(by_username_tree())
            == "SELECT id, password_hash FROM principals WHERE username = ?1 AND disabled = 0"@,
{
    lemma_params();
    lemma_numbers();
    let cells = seq![Expr::Column("id"@), Expr::Column("password_hash"@)];
    assert(expr_texts(cells) =~= seq!["id"@, "password_hash"@]);
    lemma_join2("id"@, "password_hash"@, ", "@);
    lemma_text_17();
    assert(join(expr_texts(cells), ", "@) == "id, password_hash"@);
    lemma_text_18();
    assert(cond_text(Cond::Test(Expr::Column("username"@), Relation::Equal, Expr::Param(1))) == "username = ?1"@);
    assert(cond_ok(Cond::Test(Expr::Column("username"@), Relation::Equal, Expr::Param(1)))) by {
        lemma_idents();
        reveal_with_fuel(expr_ok, 4);
    }
    lemma_text_19();
    assert(cond_text(Cond::Test(Expr::Column("disabled"@), Relation::Equal, Expr::Number(0))) == "disabled = 0"@);
    assert(cond_ok(Cond::Test(Expr::Column("disabled"@), Relation::Equal, Expr::Number(0)))) by {
        lemma_idents();
        reveal_with_fuel(expr_ok, 4);
    }
    lemma_both(Cond::Test(Expr::Column("username"@), Relation::Equal, Expr::Param(1)), Cond::Test(Expr::Column("disabled"@), Relation::Equal, Expr::Number(0)));
    lemma_text_20();
    assert(cond_text(both(Cond::Test(Expr::Column("username"@), Relation::Equal, Expr::Param(1)), Cond::Test(Expr::Column("disabled"@), Relation::Equal, Expr::Number(0)))) == "username = ?1 AND disabled = 0"@);
    assert(cond_ok(both(Cond::Test(Expr::Column("username"@), Relation::Equal, Expr::Param(1)), Cond::Test(Expr::Column("disabled"@), Relation::Equal, Expr::Number(0))))) by {
        lemma_idents();
        reveal_with_fuel(expr_ok, 4);
    }
    lemma_text_21();
    assert("SELECT "@ + "id, password_hash"@ + " FROM "@ + "principals"@ == "SELECT id, password_hash FROM principals"@);
    lemma_text_22();
    assert(" WHERE "@ + "username = ?1 AND disabled = 0"@ == " WHERE username = ?1 AND disabled = 0"@);
    assert(question_text(by_username_tree()) == "SELECT id, password_hash FROM principals"@ + " WHERE username = ?1 AND disabled = 0"@ + Seq::<char>::empty() + Seq::<char>::empty() + Seq::<char>::empty());
    assert("SELECT id, password_hash FROM principals"@ + " WHERE username = ?1 AND disabled = 0"@ + Seq::<char>::empty() + Seq::<char>::empty() + Seq::<char>::empty() =~= "SELECT id, password_hash FROM principals"@ + " WHERE username = ?1 AND disabled = 0"@);
    lemma_text_23();
    assert("SELECT id, password_hash FROM principals"@ + " WHERE username = ?1 AND disabled = 0"@ == "SELECT id, password_hash FROM principals WHERE username = ?1 AND disabled = 0"@);
    assert(cond_binds(both(Cond::Test(Expr::Column("username"@), Relation::Equal, Expr::Param(1)), Cond::Test(Expr::Column("disabled"@), Relation::Equal, Expr::Number(0)))) =~= Seq::empty());
    assert(question_binds(by_username_tree()) =~= Seq::empty());
    assert(question_ok(by_username_tree())) by {
        lemma_idents();
        reveal_with_fuel(expr_ok, 4);
    }
}

pub open spec fn disable_tree() -> Change {
    Change::Update {
        table: "principals"@,
        sets: seq![("disabled"@, Expr::Number(1))],
        cond: Cond::Test(Expr::Column("id"@), Relation::Equal, Expr::Param(1)),
    }
}

#[verifier::rlimit(30)]
pub proof fn lemma_disable_reads()
    ensures
        change_ok(disable_tree()),
        change_text(disable_tree())
            == "UPDATE principals SET disabled = 1 WHERE id = ?1"@,
{
    lemma_params();
    lemma_numbers();
    lemma_text_24();
    assert(cond_text(Cond::Test(Expr::Column("id"@), Relation::Equal, Expr::Param(1))) == "id = ?1"@);
    assert(cond_ok(Cond::Test(Expr::Column("id"@), Relation::Equal, Expr::Param(1)))) by {
        lemma_idents();
        reveal_with_fuel(expr_ok, 4);
    }
    let sets = seq![("disabled"@, Expr::Number(1))];
    lemma_text_25();
    assert("disabled"@ + " = "@ + expr_text(Expr::Number(1)) == "disabled = 1"@);
    assert(set_texts(sets) =~= seq!["disabled = 1"@]);
    lemma_join1("disabled = 1"@, ", "@);
    lemma_text_26();
    assert(change_text(disable_tree()) == "UPDATE principals SET disabled = 1 WHERE id = ?1"@);
    assert(change_ok(disable_tree())) by {
        lemma_idents();
        reveal_with_fuel(expr_ok, 4);
    }
}

pub open spec fn set_password_tree() -> Change {
    Change::Update {
        table: "principals"@,
        sets: seq![("password_hash"@, Expr::Param(1))],
        cond: Cond::Test(Expr::Column("id"@), Relation::Equal, Expr::Param(2)),
    }
}

#[verifier::rlimit(30)]
pub proof fn lemma_set_password_reads()
    ensures
        change_ok(set_password_tree()),
        change_text(set_password_tree())
            == "UPDATE principals SET password_hash = ?1 WHERE id = ?2"@,
{
    lemma_params();
    lemma_numbers();
    lemma_text_27();
    assert(cond_text(Cond::Test(Expr::Column("id"@), Relation::Equal, Expr::Param(2))) == "id = ?2"@);
    assert(cond_ok(Cond::Test(Expr::Column("id"@), Relation::Equal, Expr::Param(2)))) by {
        lemma_idents();
        reveal_with_fuel(expr_ok, 4);
    }
    let sets = seq![("password_hash"@, Expr::Param(1))];
    lemma_text_28();
    assert("password_hash"@ + " = "@ + expr_text(Expr::Param(1)) == "password_hash = ?1"@);
    assert(set_texts(sets) =~= seq!["password_hash = ?1"@]);
    lemma_join1("password_hash = ?1"@, ", "@);
    lemma_text_29();
    assert(change_text(set_password_tree()) == "UPDATE principals SET password_hash = ?1 WHERE id = ?2"@);
    assert(change_ok(set_password_tree())) by {
        lemma_idents();
        reveal_with_fuel(expr_ok, 4);
    }
}

pub open spec fn resettable_tree() -> Question {
    Question {
        wanted: Wanted::Cells(seq![Expr::Column("id"@)]),
        table: "principals"@,
        cond: Some(three(Cond::Test(Expr::Column("username"@), Relation::Equal, Expr::Param(1)), Cond::Test(Expr::Column("disabled"@), Relation::Equal, Expr::Number(0)), Cond::Test(Expr::Column("is_admin"@), Relation::Equal, Expr::Number(0)))),
        order: Seq::empty(),
        limit: None,
        offset: None,
    }
}

#[verifier::rlimit(30)]
pub proof fn lemma_resettable_reads()
    ensures
        question_ok(resettable_tree()),
        question_binds(resettable_tree()).len() == 0,
        question_text(resettable_tree())
            == "SELECT id FROM principals WHERE username = ?1 AND disabled = 0 AND is_admin = 0"@,
{
    lemma_params();
    lemma_numbers();
    let cells = seq![Expr::Column("id"@)];
    assert(expr_texts(cells) =~= seq!["id"@]);
    lemma_join1("id"@, ", "@);
    lemma_text_18();
    assert(cond_text(Cond::Test(Expr::Column("username"@), Relation::Equal, Expr::Param(1))) == "username = ?1"@);
    assert(cond_ok(Cond::Test(Expr::Column("username"@), Relation::Equal, Expr::Param(1)))) by {
        lemma_idents();
        reveal_with_fuel(expr_ok, 4);
    }
    lemma_text_19();
    assert(cond_text(Cond::Test(Expr::Column("disabled"@), Relation::Equal, Expr::Number(0))) == "disabled = 0"@);
    assert(cond_ok(Cond::Test(Expr::Column("disabled"@), Relation::Equal, Expr::Number(0)))) by {
        lemma_idents();
        reveal_with_fuel(expr_ok, 4);
    }
    lemma_text_30();
    assert(cond_text(Cond::Test(Expr::Column("is_admin"@), Relation::Equal, Expr::Number(0))) == "is_admin = 0"@);
    assert(cond_ok(Cond::Test(Expr::Column("is_admin"@), Relation::Equal, Expr::Number(0)))) by {
        lemma_idents();
        reveal_with_fuel(expr_ok, 4);
    }
    lemma_three(Cond::Test(Expr::Column("username"@), Relation::Equal, Expr::Param(1)), Cond::Test(Expr::Column("disabled"@), Relation::Equal, Expr::Number(0)), Cond::Test(Expr::Column("is_admin"@), Relation::Equal, Expr::Number(0)));
    lemma_text_31();
    assert(cond_text(three(Cond::Test(Expr::Column("username"@), Relation::Equal, Expr::Param(1)), Cond::Test(Expr::Column("disabled"@), Relation::Equal, Expr::Number(0)), Cond::Test(Expr::Column("is_admin"@), Relation::Equal, Expr::Number(0)))) == "username = ?1 AND disabled = 0 AND is_admin = 0"@);
    assert(cond_ok(three(Cond::Test(Expr::Column("username"@), Relation::Equal, Expr::Param(1)), Cond::Test(Expr::Column("disabled"@), Relation::Equal, Expr::Number(0)), Cond::Test(Expr::Column("is_admin"@), Relation::Equal, Expr::Number(0))))) by {
        lemma_idents();
        reveal_with_fuel(expr_ok, 4);
    }
    lemma_text_32();
    assert("SELECT "@ + "id"@ + " FROM "@ + "principals"@ == "SELECT id FROM principals"@);
    lemma_text_33();
    assert(" WHERE "@ + "username = ?1 AND disabled = 0 AND is_admin = 0"@ == " WHERE username = ?1 AND disabled = 0 AND is_admin = 0"@);
    assert(question_text(resettable_tree()) == "SELECT id FROM principals"@ + " WHERE username = ?1 AND disabled = 0 AND is_admin = 0"@ + Seq::<char>::empty() + Seq::<char>::empty() + Seq::<char>::empty());
    assert("SELECT id FROM principals"@ + " WHERE username = ?1 AND disabled = 0 AND is_admin = 0"@ + Seq::<char>::empty() + Seq::<char>::empty() + Seq::<char>::empty() =~= "SELECT id FROM principals"@ + " WHERE username = ?1 AND disabled = 0 AND is_admin = 0"@);
    lemma_text_34();
    assert("SELECT id FROM principals"@ + " WHERE username = ?1 AND disabled = 0 AND is_admin = 0"@ == "SELECT id FROM principals WHERE username = ?1 AND disabled = 0 AND is_admin = 0"@);
    assert(cond_binds(three(Cond::Test(Expr::Column("username"@), Relation::Equal, Expr::Param(1)), Cond::Test(Expr::Column("disabled"@), Relation::Equal, Expr::Number(0)), Cond::Test(Expr::Column("is_admin"@), Relation::Equal, Expr::Number(0)))) =~= Seq::empty());
    assert(question_binds(resettable_tree()) =~= Seq::empty());
    assert(question_ok(resettable_tree())) by {
        lemma_idents();
        reveal_with_fuel(expr_ok, 4);
    }
}

pub open spec fn first_admin_tree() -> Question {
    Question {
        wanted: Wanted::Cells(seq![Expr::Column("id"@)]),
        table: "principals"@,
        cond: Some(Cond::Test(Expr::Column("is_admin"@), Relation::Equal, Expr::Number(1))),
        order: seq![(Expr::Column("created_at"@), Direction::Unsaid)],
        limit: Some(1),
        offset: None,
    }
}

#[verifier::rlimit(30)]
pub proof fn lemma_first_admin_reads()
    ensures
        question_ok(first_admin_tree()),
        question_binds(first_admin_tree()).len() == 0,
        question_text(first_admin_tree())
            == "SELECT id FROM principals WHERE is_admin = 1 ORDER BY created_at LIMIT 1"@,
{
    lemma_params();
    lemma_numbers();
    let cells = seq![Expr::Column("id"@)];
    assert(expr_texts(cells) =~= seq!["id"@]);
    lemma_join1("id"@, ", "@);
    lemma_text_35();
    assert(cond_text(Cond::Test(Expr::Column("is_admin"@), Relation::Equal, Expr::Number(1))) == "is_admin = 1"@);
    assert(cond_ok(Cond::Test(Expr::Column("is_admin"@), Relation::Equal, Expr::Number(1)))) by {
        lemma_idents();
        reveal_with_fuel(expr_ok, 4);
    }
    let order = seq![(Expr::Column("created_at"@), Direction::Unsaid)];
    assert("created_at"@ + Seq::<char>::empty() =~= "created_at"@);
    assert(order_texts(order) =~= seq!["created_at"@]);
    lemma_join1("created_at"@, ", "@);
    lemma_text_32();
    assert("SELECT "@ + "id"@ + " FROM "@ + "principals"@ == "SELECT id FROM principals"@);
    lemma_text_36();
    assert(" WHERE "@ + "is_admin = 1"@ == " WHERE is_admin = 1"@);
    lemma_text_37();
    assert(" ORDER BY "@ + "created_at"@ == " ORDER BY created_at"@);
    lemma_text_38();
    assert(" LIMIT "@ + "1"@ == " LIMIT 1"@);
    assert(join(order_texts(order), ", "@) == "created_at"@);
    assert(question_text(first_admin_tree()) == "SELECT id FROM principals"@ + " WHERE is_admin = 1"@ + " ORDER BY created_at"@ + " LIMIT 1"@ + Seq::<char>::empty());
    assert("SELECT id FROM principals"@ + " WHERE is_admin = 1"@ + " ORDER BY created_at"@ + " LIMIT 1"@ + Seq::<char>::empty() =~= "SELECT id FROM principals"@ + " WHERE is_admin = 1"@ + " ORDER BY created_at"@ + " LIMIT 1"@);
    lemma_text_39();
    assert("SELECT id FROM principals"@ + " WHERE is_admin = 1"@ + " ORDER BY created_at"@ + " LIMIT 1"@ == "SELECT id FROM principals WHERE is_admin = 1 ORDER BY created_at LIMIT 1"@);
    assert(cond_binds(Cond::Test(Expr::Column("is_admin"@), Relation::Equal, Expr::Number(1))) =~= Seq::empty());
    assert(question_binds(first_admin_tree()) =~= Seq::empty());
    assert(question_ok(first_admin_tree())) by {
        lemma_idents();
        reveal_with_fuel(expr_ok, 4);
    }
}

pub open spec fn set_token_tree() -> Change {
    Change::Update {
        table: "principals"@,
        sets: seq![("token_hash"@, Expr::Param(1)), ("disabled"@, Expr::Number(0))],
        cond: Cond::Test(Expr::Column("id"@), Relation::Equal, Expr::Param(2)),
    }
}

#[verifier::rlimit(30)]
pub proof fn lemma_set_token_reads()
    ensures
        change_ok(set_token_tree()),
        change_text(set_token_tree())
            == "UPDATE principals SET token_hash = ?1, disabled = 0 WHERE id = ?2"@,
{
    lemma_params();
    lemma_numbers();
    lemma_text_27();
    assert(cond_text(Cond::Test(Expr::Column("id"@), Relation::Equal, Expr::Param(2))) == "id = ?2"@);
    assert(cond_ok(Cond::Test(Expr::Column("id"@), Relation::Equal, Expr::Param(2)))) by {
        lemma_idents();
        reveal_with_fuel(expr_ok, 4);
    }
    let sets = seq![("token_hash"@, Expr::Param(1)), ("disabled"@, Expr::Number(0))];
    lemma_text_40();
    assert("token_hash"@ + " = "@ + expr_text(Expr::Param(1)) == "token_hash = ?1"@);
    lemma_text_41();
    assert("disabled"@ + " = "@ + expr_text(Expr::Number(0)) == "disabled = 0"@);
    assert(set_texts(sets) =~= seq!["token_hash = ?1"@, "disabled = 0"@]);
    lemma_join2("token_hash = ?1"@, "disabled = 0"@, ", "@);
    lemma_text_42();
    assert(join(set_texts(sets), ", "@) == "token_hash = ?1, disabled = 0"@);
    lemma_text_43();
    assert(change_text(set_token_tree()) == "UPDATE principals SET token_hash = ?1, disabled = 0 WHERE id = ?2"@);
    assert(change_ok(set_token_tree())) by {
        lemma_idents();
        reveal_with_fuel(expr_ok, 4);
    }
}

pub open spec fn same_id_tree() -> Question {
    Question {
        wanted: Wanted::Cells(seq![Expr::Column("id"@)]),
        table: "principals"@,
        cond: Some(Cond::Test(Expr::Column("id"@), Relation::Equal, Expr::Param(1))),
        order: Seq::empty(),
        limit: None,
        offset: None,
    }
}

#[verifier::rlimit(30)]
pub proof fn lemma_same_id_reads()
    ensures
        question_ok(same_id_tree()),
        question_binds(same_id_tree()).len() == 0,
        question_text(same_id_tree())
            == "SELECT id FROM principals WHERE id = ?1"@,
{
    lemma_params();
    lemma_numbers();
    let cells = seq![Expr::Column("id"@)];
    assert(expr_texts(cells) =~= seq!["id"@]);
    lemma_join1("id"@, ", "@);
    lemma_text_24();
    assert(cond_text(Cond::Test(Expr::Column("id"@), Relation::Equal, Expr::Param(1))) == "id = ?1"@);
    assert(cond_ok(Cond::Test(Expr::Column("id"@), Relation::Equal, Expr::Param(1)))) by {
        lemma_idents();
        reveal_with_fuel(expr_ok, 4);
    }
    lemma_text_32();
    assert("SELECT "@ + "id"@ + " FROM "@ + "principals"@ == "SELECT id FROM principals"@);
    lemma_text_44();
    assert(" WHERE "@ + "id = ?1"@ == " WHERE id = ?1"@);
    assert(question_text(same_id_tree()) == "SELECT id FROM principals"@ + " WHERE id = ?1"@ + Seq::<char>::empty() + Seq::<char>::empty() + Seq::<char>::empty());
    assert("SELECT id FROM principals"@ + " WHERE id = ?1"@ + Seq::<char>::empty() + Seq::<char>::empty() + Seq::<char>::empty() =~= "SELECT id FROM principals"@ + " WHERE id = ?1"@);
    lemma_text_45();
    assert("SELECT id FROM principals"@ + " WHERE id = ?1"@ == "SELECT id FROM principals WHERE id = ?1"@);
    assert(cond_binds(Cond::Test(Expr::Column("id"@), Relation::Equal, Expr::Param(1))) =~= Seq::empty());
    assert(question_binds(same_id_tree()) =~= Seq::empty());
    assert(question_ok(same_id_tree())) by {
        lemma_idents();
        reveal_with_fuel(expr_ok, 4);
    }
}

/// The condition of the question.
#[verifier::rlimit(30)]
proof fn lemma_same_name_cond()
    ensures
        cond_ok(either(Cond::Test(Expr::Call1("lower"@, Box::new(Expr::Column("name"@))), Relation::Equal, Expr::Call1("lower"@, Box::new(Expr::Param(1)))), Cond::Group(Box::new(both(Cond::NotNull(Expr::Column("username"@)), Cond::Test(Expr::Call1("lower"@, Box::new(Expr::Column("username"@))), Relation::Equal, Expr::Call1("lower"@, Box::new(Expr::Param(1))))))))),
        cond_text(either(Cond::Test(Expr::Call1("lower"@, Box::new(Expr::Column("name"@))), Relation::Equal, Expr::Call1("lower"@, Box::new(Expr::Param(1)))), Cond::Group(Box::new(both(Cond::NotNull(Expr::Column("username"@)), Cond::Test(Expr::Call1("lower"@, Box::new(Expr::Column("username"@))), Relation::Equal, Expr::Call1("lower"@, Box::new(Expr::Param(1)))))))))
            == "lower(name) = lower(?1) OR (username IS NOT NULL AND lower(username) = lower(?1))"@,
        cond_binds(either(Cond::Test(Expr::Call1("lower"@, Box::new(Expr::Column("name"@))), Relation::Equal, Expr::Call1("lower"@, Box::new(Expr::Param(1)))), Cond::Group(Box::new(both(Cond::NotNull(Expr::Column("username"@)), Cond::Test(Expr::Call1("lower"@, Box::new(Expr::Column("username"@))), Relation::Equal, Expr::Call1("lower"@, Box::new(Expr::Param(1))))))))).len() == 0,
{
    lemma_params();
    lemma_numbers();
    assert(expr_text(Expr::Column("name"@)) == "name"@);
    lemma_text_46();
    assert(expr_text(Expr::Call1("lower"@, Box::new(Expr::Column("name"@)))) == "lower(name)"@);
    assert(expr_binds(Expr::Call1("lower"@, Box::new(Expr::Column("name"@)))) =~= Seq::empty()) by {
        reveal_with_fuel(expr_binds, 5);
    }
    assert(expr_text(Expr::Param(1)) == "?1"@);
    lemma_text_47();
    assert(expr_text(Expr::Call1("lower"@, Box::new(Expr::Param(1)))) == "lower(?1)"@);
    assert(expr_binds(Expr::Call1("lower"@, Box::new(Expr::Param(1)))) =~= Seq::empty()) by {
        reveal_with_fuel(expr_binds, 5);
    }
    lemma_text_48();
    assert(cond_text(Cond::Test(Expr::Call1("lower"@, Box::new(Expr::Column("name"@))), Relation::Equal, Expr::Call1("lower"@, Box::new(Expr::Param(1))))) == "lower(name) = lower(?1)"@);
    assert(cond_ok(Cond::Test(Expr::Call1("lower"@, Box::new(Expr::Column("name"@))), Relation::Equal, Expr::Call1("lower"@, Box::new(Expr::Param(1)))))) by {
        lemma_idents();
        reveal_with_fuel(expr_ok, 4);
    }
    lemma_text_49();
    assert(cond_text(Cond::NotNull(Expr::Column("username"@))) == "username IS NOT NULL"@);
    assert(cond_ok(Cond::NotNull(Expr::Column("username"@)))) by {
        lemma_idents();
        reveal_with_fuel(expr_ok, 4);
    }
    assert(expr_text(Expr::Column("username"@)) == "username"@);
    lemma_text_50();
    assert(expr_text(Expr::Call1("lower"@, Box::new(Expr::Column("username"@)))) == "lower(username)"@);
    assert(expr_binds(Expr::Call1("lower"@, Box::new(Expr::Column("username"@)))) =~= Seq::empty()) by {
        reveal_with_fuel(expr_binds, 5);
    }
    lemma_text_51();
    assert(cond_text(Cond::Test(Expr::Call1("lower"@, Box::new(Expr::Column("username"@))), Relation::Equal, Expr::Call1("lower"@, Box::new(Expr::Param(1))))) == "lower(username) = lower(?1)"@);
    assert(cond_ok(Cond::Test(Expr::Call1("lower"@, Box::new(Expr::Column("username"@))), Relation::Equal, Expr::Call1("lower"@, Box::new(Expr::Param(1)))))) by {
        lemma_idents();
        reveal_with_fuel(expr_ok, 4);
    }
    lemma_both(Cond::NotNull(Expr::Column("username"@)), Cond::Test(Expr::Call1("lower"@, Box::new(Expr::Column("username"@))), Relation::Equal, Expr::Call1("lower"@, Box::new(Expr::Param(1)))));
    lemma_text_52();
    assert(cond_text(both(Cond::NotNull(Expr::Column("username"@)), Cond::Test(Expr::Call1("lower"@, Box::new(Expr::Column("username"@))), Relation::Equal, Expr::Call1("lower"@, Box::new(Expr::Param(1)))))) == "username IS NOT NULL AND lower(username) = lower(?1)"@);
    assert(cond_ok(both(Cond::NotNull(Expr::Column("username"@)), Cond::Test(Expr::Call1("lower"@, Box::new(Expr::Column("username"@))), Relation::Equal, Expr::Call1("lower"@, Box::new(Expr::Param(1))))))) by {
        lemma_idents();
        reveal_with_fuel(expr_ok, 4);
    }
    lemma_text_53();
    assert(cond_text(Cond::Group(Box::new(both(Cond::NotNull(Expr::Column("username"@)), Cond::Test(Expr::Call1("lower"@, Box::new(Expr::Column("username"@))), Relation::Equal, Expr::Call1("lower"@, Box::new(Expr::Param(1)))))))) == "(username IS NOT NULL AND lower(username) = lower(?1))"@);
    assert(cond_binds(both(Cond::NotNull(Expr::Column("username"@)), Cond::Test(Expr::Call1("lower"@, Box::new(Expr::Column("username"@))), Relation::Equal, Expr::Call1("lower"@, Box::new(Expr::Param(1)))))) =~= Seq::empty());
    assert(cond_ok(Cond::Group(Box::new(both(Cond::NotNull(Expr::Column("username"@)), Cond::Test(Expr::Call1("lower"@, Box::new(Expr::Column("username"@))), Relation::Equal, Expr::Call1("lower"@, Box::new(Expr::Param(1))))))))) by {
        lemma_idents();
        reveal_with_fuel(expr_ok, 4);
    }
    lemma_both(Cond::Test(Expr::Call1("lower"@, Box::new(Expr::Column("name"@))), Relation::Equal, Expr::Call1("lower"@, Box::new(Expr::Param(1)))), Cond::Group(Box::new(both(Cond::NotNull(Expr::Column("username"@)), Cond::Test(Expr::Call1("lower"@, Box::new(Expr::Column("username"@))), Relation::Equal, Expr::Call1("lower"@, Box::new(Expr::Param(1))))))));
    lemma_text_54();
    assert(cond_text(either(Cond::Test(Expr::Call1("lower"@, Box::new(Expr::Column("name"@))), Relation::Equal, Expr::Call1("lower"@, Box::new(Expr::Param(1)))), Cond::Group(Box::new(both(Cond::NotNull(Expr::Column("username"@)), Cond::Test(Expr::Call1("lower"@, Box::new(Expr::Column("username"@))), Relation::Equal, Expr::Call1("lower"@, Box::new(Expr::Param(1))))))))) == "lower(name) = lower(?1) OR (username IS NOT NULL AND lower(username) = lower(?1))"@);
    assert(cond_ok(either(Cond::Test(Expr::Call1("lower"@, Box::new(Expr::Column("name"@))), Relation::Equal, Expr::Call1("lower"@, Box::new(Expr::Param(1)))), Cond::Group(Box::new(both(Cond::NotNull(Expr::Column("username"@)), Cond::Test(Expr::Call1("lower"@, Box::new(Expr::Column("username"@))), Relation::Equal, Expr::Call1("lower"@, Box::new(Expr::Param(1)))))))))) by {
        lemma_idents();
        reveal_with_fuel(expr_ok, 4);
    }
    assert(cond_binds(either(Cond::Test(Expr::Call1("lower"@, Box::new(Expr::Column("name"@))), Relation::Equal, Expr::Call1("lower"@, Box::new(Expr::Param(1)))), Cond::Group(Box::new(both(Cond::NotNull(Expr::Column("username"@)), Cond::Test(Expr::Call1("lower"@, Box::new(Expr::Column("username"@))), Relation::Equal, Expr::Call1("lower"@, Box::new(Expr::Param(1))))))))) =~= Seq::empty());
}

pub open spec fn same_name_tree() -> Question {
    Question {
        wanted: Wanted::Cells(seq![Expr::Column("id"@)]),
        table: "principals"@,
        cond: Some(either(Cond::Test(Expr::Call1("lower"@, Box::new(Expr::Column("name"@))), Relation::Equal, Expr::Call1("lower"@, Box::new(Expr::Param(1)))), Cond::Group(Box::new(both(Cond::NotNull(Expr::Column("username"@)), Cond::Test(Expr::Call1("lower"@, Box::new(Expr::Column("username"@))), Relation::Equal, Expr::Call1("lower"@, Box::new(Expr::Param(1))))))))),
        order: Seq::empty(),
        limit: None,
        offset: None,
    }
}

#[verifier::rlimit(30)]
pub proof fn lemma_same_name_reads()
    ensures
        question_ok(same_name_tree()),
        question_binds(same_name_tree()).len() == 0,
        question_text(same_name_tree())
            == "SELECT id FROM principals WHERE lower(name) = lower(?1) OR (username IS NOT NULL AND lower(username) = lower(?1))"@,
{
    lemma_params();
    lemma_numbers();
    let cells = seq![Expr::Column("id"@)];
    assert(expr_texts(cells) =~= seq!["id"@]);
    lemma_join1("id"@, ", "@);
    lemma_same_name_cond();
    lemma_text_32();
    assert("SELECT "@ + "id"@ + " FROM "@ + "principals"@ == "SELECT id FROM principals"@);
    lemma_text_55();
    assert(" WHERE "@ + "lower(name) = lower(?1) OR (username IS NOT NULL AND lower(username) = lower(?1))"@ == " WHERE lower(name) = lower(?1) OR (username IS NOT NULL AND lower(username) = lower(?1))"@);
    assert(question_text(same_name_tree()) == "SELECT id FROM principals"@ + " WHERE lower(name) = lower(?1) OR (username IS NOT NULL AND lower(username) = lower(?1))"@ + Seq::<char>::empty() + Seq::<char>::empty() + Seq::<char>::empty());
    assert("SELECT id FROM principals"@ + " WHERE lower(name) = lower(?1) OR (username IS NOT NULL AND lower(username) = lower(?1))"@ + Seq::<char>::empty() + Seq::<char>::empty() + Seq::<char>::empty() =~= "SELECT id FROM principals"@ + " WHERE lower(name) = lower(?1) OR (username IS NOT NULL AND lower(username) = lower(?1))"@);
    lemma_text_56();
    assert("SELECT id FROM principals"@ + " WHERE lower(name) = lower(?1) OR (username IS NOT NULL AND lower(username) = lower(?1))"@ == "SELECT id FROM principals WHERE lower(name) = lower(?1) OR (username IS NOT NULL AND lower(username) = lower(?1))"@);
    assert(cond_binds(either(Cond::Test(Expr::Call1("lower"@, Box::new(Expr::Column("name"@))), Relation::Equal, Expr::Call1("lower"@, Box::new(Expr::Param(1)))), Cond::Group(Box::new(both(Cond::NotNull(Expr::Column("username"@)), Cond::Test(Expr::Call1("lower"@, Box::new(Expr::Column("username"@))), Relation::Equal, Expr::Call1("lower"@, Box::new(Expr::Param(1))))))))) =~= Seq::empty());
    assert(question_binds(same_name_tree()) =~= Seq::empty());
    assert(question_ok(same_name_tree())) by {
        lemma_idents();
        reveal_with_fuel(expr_ok, 4);
    }
}

pub open spec fn everyone_tree() -> Question {
    Question {
        wanted: Wanted::Cells(seq![Expr::Column("id"@), Expr::Column("name"@), Expr::Column("username"@), Expr::Column("is_admin"@), Expr::Column("disabled"@), Expr::Column("created_at"@)]),
        table: "principals"@,
        cond: None,
        order: seq![(Expr::Column("name"@), Direction::Unsaid)],
        limit: None,
        offset: None,
    }
}

#[verifier::rlimit(30)]
pub proof fn lemma_everyone_reads()
    ensures
        question_ok(everyone_tree()),
        question_binds(everyone_tree()).len() == 0,
        question_text(everyone_tree())
            == "SELECT id, name, username, is_admin, disabled, created_at FROM principals ORDER BY name"@,
{
    lemma_params();
    lemma_numbers();
    let cells = seq![Expr::Column("id"@), Expr::Column("name"@), Expr::Column("username"@), Expr::Column("is_admin"@), Expr::Column("disabled"@), Expr::Column("created_at"@)];
    assert(expr_texts(cells) =~= seq!["id"@, "name"@, "username"@, "is_admin"@, "disabled"@, "created_at"@]);
    lemma_join6("id"@, "name"@, "username"@, "is_admin"@, "disabled"@, "created_at"@, ", "@);
    lemma_text_57();
    assert("id"@ + ", "@ + "name"@ + ", "@ + "username"@ + ", "@ + "is_admin"@ == "id, name, username, is_admin"@);
    lemma_text_58();
    assert(join(expr_texts(cells), ", "@) == "id, name, username, is_admin, disabled, created_at"@);
    let order = seq![(Expr::Column("name"@), Direction::Unsaid)];
    assert("name"@ + Seq::<char>::empty() =~= "name"@);
    assert(order_texts(order) =~= seq!["name"@]);
    lemma_join1("name"@, ", "@);
    lemma_text_59();
    assert("SELECT "@ + "id, name, username, is_admin, disabled, created_at"@ + " FROM "@ + "principals"@ == "SELECT id, name, username, is_admin, disabled, created_at FROM principals"@);
    lemma_text_60();
    assert(" ORDER BY "@ + "name"@ == " ORDER BY name"@);
    assert(join(order_texts(order), ", "@) == "name"@);
    assert(question_text(everyone_tree()) == "SELECT id, name, username, is_admin, disabled, created_at FROM principals"@ + Seq::<char>::empty() + " ORDER BY name"@ + Seq::<char>::empty() + Seq::<char>::empty());
    assert("SELECT id, name, username, is_admin, disabled, created_at FROM principals"@ + Seq::<char>::empty() + " ORDER BY name"@ + Seq::<char>::empty() + Seq::<char>::empty() =~= "SELECT id, name, username, is_admin, disabled, created_at FROM principals"@ + " ORDER BY name"@);
    lemma_text_61();
    assert("SELECT id, name, username, is_admin, disabled, created_at FROM principals"@ + " ORDER BY name"@ == "SELECT id, name, username, is_admin, disabled, created_at FROM principals ORDER BY name"@);
    assert(question_binds(everyone_tree()) =~= Seq::empty());
    assert(question_ok(everyone_tree())) by {
        lemma_idents();
        reveal_with_fuel(expr_ok, 4);
    }
}

/// The condition of the question.
#[verifier::rlimit(30)]
proof fn lemma_some_people_cond()
    ensures
        cond_ok(either(Cond::Test(Expr::Call2("instr"@, Box::new(Expr::Call1("lower"@, Box::new(Expr::Column("name"@)))), Box::new(Expr::Call1("lower"@, Box::new(Expr::Param(1))))), Relation::Greater, Expr::Number(0)), Cond::Test(Expr::Call2("instr"@, Box::new(Expr::Call1("lower"@, Box::new(Expr::Column("username"@)))), Box::new(Expr::Call1("lower"@, Box::new(Expr::Param(1))))), Relation::Greater, Expr::Number(0)))),
        cond_text(either(Cond::Test(Expr::Call2("instr"@, Box::new(Expr::Call1("lower"@, Box::new(Expr::Column("name"@)))), Box::new(Expr::Call1("lower"@, Box::new(Expr::Param(1))))), Relation::Greater, Expr::Number(0)), Cond::Test(Expr::Call2("instr"@, Box::new(Expr::Call1("lower"@, Box::new(Expr::Column("username"@)))), Box::new(Expr::Call1("lower"@, Box::new(Expr::Param(1))))), Relation::Greater, Expr::Number(0))))
            == "instr(lower(name), lower(?1)) > 0 OR instr(lower(username), lower(?1)) > 0"@,
        cond_binds(either(Cond::Test(Expr::Call2("instr"@, Box::new(Expr::Call1("lower"@, Box::new(Expr::Column("name"@)))), Box::new(Expr::Call1("lower"@, Box::new(Expr::Param(1))))), Relation::Greater, Expr::Number(0)), Cond::Test(Expr::Call2("instr"@, Box::new(Expr::Call1("lower"@, Box::new(Expr::Column("username"@)))), Box::new(Expr::Call1("lower"@, Box::new(Expr::Param(1))))), Relation::Greater, Expr::Number(0)))).len() == 0,
{
    lemma_params();
    lemma_numbers();
    assert(expr_text(Expr::Column("name"@)) == "name"@);
    lemma_text_46();
    assert(expr_text(Expr::Call1("lower"@, Box::new(Expr::Column("name"@)))) == "lower(name)"@);
    assert(expr_binds(Expr::Call1("lower"@, Box::new(Expr::Column("name"@)))) =~= Seq::empty()) by {
        reveal_with_fuel(expr_binds, 5);
    }
    assert(expr_text(Expr::Param(1)) == "?1"@);
    lemma_text_47();
    assert(expr_text(Expr::Call1("lower"@, Box::new(Expr::Param(1)))) == "lower(?1)"@);
    assert(expr_binds(Expr::Call1("lower"@, Box::new(Expr::Param(1)))) =~= Seq::empty()) by {
        reveal_with_fuel(expr_binds, 5);
    }
    lemma_text_62();
    assert(expr_text(Expr::Call2("instr"@, Box::new(Expr::Call1("lower"@, Box::new(Expr::Column("name"@)))), Box::new(Expr::Call1("lower"@, Box::new(Expr::Param(1)))))) == "instr(lower(name), lower(?1))"@);
    assert(expr_binds(Expr::Call2("instr"@, Box::new(Expr::Call1("lower"@, Box::new(Expr::Column("name"@)))), Box::new(Expr::Call1("lower"@, Box::new(Expr::Param(1)))))) =~= Seq::empty()) by {
        reveal_with_fuel(expr_binds, 5);
    }
    lemma_text_63();
    assert(cond_text(Cond::Test(Expr::Call2("instr"@, Box::new(Expr::Call1("lower"@, Box::new(Expr::Column("name"@)))), Box::new(Expr::Call1("lower"@, Box::new(Expr::Param(1))))), Relation::Greater, Expr::Number(0))) == "instr(lower(name), lower(?1)) > 0"@);
    assert(cond_ok(Cond::Test(Expr::Call2("instr"@, Box::new(Expr::Call1("lower"@, Box::new(Expr::Column("name"@)))), Box::new(Expr::Call1("lower"@, Box::new(Expr::Param(1))))), Relation::Greater, Expr::Number(0)))) by {
        lemma_idents();
        reveal_with_fuel(expr_ok, 4);
    }
    assert(expr_text(Expr::Column("username"@)) == "username"@);
    lemma_text_50();
    assert(expr_text(Expr::Call1("lower"@, Box::new(Expr::Column("username"@)))) == "lower(username)"@);
    assert(expr_binds(Expr::Call1("lower"@, Box::new(Expr::Column("username"@)))) =~= Seq::empty()) by {
        reveal_with_fuel(expr_binds, 5);
    }
    lemma_text_64();
    assert(expr_text(Expr::Call2("instr"@, Box::new(Expr::Call1("lower"@, Box::new(Expr::Column("username"@)))), Box::new(Expr::Call1("lower"@, Box::new(Expr::Param(1)))))) == "instr(lower(username), lower(?1))"@);
    assert(expr_binds(Expr::Call2("instr"@, Box::new(Expr::Call1("lower"@, Box::new(Expr::Column("username"@)))), Box::new(Expr::Call1("lower"@, Box::new(Expr::Param(1)))))) =~= Seq::empty()) by {
        reveal_with_fuel(expr_binds, 5);
    }
    lemma_text_65();
    assert(cond_text(Cond::Test(Expr::Call2("instr"@, Box::new(Expr::Call1("lower"@, Box::new(Expr::Column("username"@)))), Box::new(Expr::Call1("lower"@, Box::new(Expr::Param(1))))), Relation::Greater, Expr::Number(0))) == "instr(lower(username), lower(?1)) > 0"@);
    assert(cond_ok(Cond::Test(Expr::Call2("instr"@, Box::new(Expr::Call1("lower"@, Box::new(Expr::Column("username"@)))), Box::new(Expr::Call1("lower"@, Box::new(Expr::Param(1))))), Relation::Greater, Expr::Number(0)))) by {
        lemma_idents();
        reveal_with_fuel(expr_ok, 4);
    }
    lemma_both(Cond::Test(Expr::Call2("instr"@, Box::new(Expr::Call1("lower"@, Box::new(Expr::Column("name"@)))), Box::new(Expr::Call1("lower"@, Box::new(Expr::Param(1))))), Relation::Greater, Expr::Number(0)), Cond::Test(Expr::Call2("instr"@, Box::new(Expr::Call1("lower"@, Box::new(Expr::Column("username"@)))), Box::new(Expr::Call1("lower"@, Box::new(Expr::Param(1))))), Relation::Greater, Expr::Number(0)));
    lemma_text_66();
    assert(cond_text(either(Cond::Test(Expr::Call2("instr"@, Box::new(Expr::Call1("lower"@, Box::new(Expr::Column("name"@)))), Box::new(Expr::Call1("lower"@, Box::new(Expr::Param(1))))), Relation::Greater, Expr::Number(0)), Cond::Test(Expr::Call2("instr"@, Box::new(Expr::Call1("lower"@, Box::new(Expr::Column("username"@)))), Box::new(Expr::Call1("lower"@, Box::new(Expr::Param(1))))), Relation::Greater, Expr::Number(0)))) == "instr(lower(name), lower(?1)) > 0 OR instr(lower(username), lower(?1)) > 0"@);
    assert(cond_ok(either(Cond::Test(Expr::Call2("instr"@, Box::new(Expr::Call1("lower"@, Box::new(Expr::Column("name"@)))), Box::new(Expr::Call1("lower"@, Box::new(Expr::Param(1))))), Relation::Greater, Expr::Number(0)), Cond::Test(Expr::Call2("instr"@, Box::new(Expr::Call1("lower"@, Box::new(Expr::Column("username"@)))), Box::new(Expr::Call1("lower"@, Box::new(Expr::Param(1))))), Relation::Greater, Expr::Number(0))))) by {
        lemma_idents();
        reveal_with_fuel(expr_ok, 4);
    }
    assert(cond_binds(either(Cond::Test(Expr::Call2("instr"@, Box::new(Expr::Call1("lower"@, Box::new(Expr::Column("name"@)))), Box::new(Expr::Call1("lower"@, Box::new(Expr::Param(1))))), Relation::Greater, Expr::Number(0)), Cond::Test(Expr::Call2("instr"@, Box::new(Expr::Call1("lower"@, Box::new(Expr::Column("username"@)))), Box::new(Expr::Call1("lower"@, Box::new(Expr::Param(1))))), Relation::Greater, Expr::Number(0)))) =~= Seq::empty());
}

pub open spec fn some_people_tree() -> Question {
    Question {
        wanted: Wanted::Cells(seq![Expr::Column("id"@), Expr::Column("name"@), Expr::Column("username"@), Expr::Column("is_admin"@), Expr::Column("disabled"@), Expr::Column("created_at"@)]),
        table: "principals"@,
        cond: Some(either(Cond::Test(Expr::Call2("instr"@, Box::new(Expr::Call1("lower"@, Box::new(Expr::Column("name"@)))), Box::new(Expr::Call1("lower"@, Box::new(Expr::Param(1))))), Relation::Greater, Expr::Number(0)), Cond::Test(Expr::Call2("instr"@, Box::new(Expr::Call1("lower"@, Box::new(Expr::Column("username"@)))), Box::new(Expr::Call1("lower"@, Box::new(Expr::Param(1))))), Relation::Greater, Expr::Number(0)))),
        order: seq![(Expr::Column("name"@), Direction::Unsaid)],
        limit: None,
        offset: None,
    }
}

#[verifier::rlimit(30)]
pub proof fn lemma_some_people_reads()
    ensures
        question_ok(some_people_tree()),
        question_binds(some_people_tree()).len() == 0,
        question_text(some_people_tree())
            == "SELECT id, name, username, is_admin, disabled, created_at FROM principals WHERE instr(lower(name), lower(?1)) > 0 OR instr(lower(username), lower(?1)) > 0 ORDER BY name"@,
{
    lemma_params();
    lemma_numbers();
    let cells = seq![Expr::Column("id"@), Expr::Column("name"@), Expr::Column("username"@), Expr::Column("is_admin"@), Expr::Column("disabled"@), Expr::Column("created_at"@)];
    assert(expr_texts(cells) =~= seq!["id"@, "name"@, "username"@, "is_admin"@, "disabled"@, "created_at"@]);
    lemma_join6("id"@, "name"@, "username"@, "is_admin"@, "disabled"@, "created_at"@, ", "@);
    lemma_text_57();
    assert("id"@ + ", "@ + "name"@ + ", "@ + "username"@ + ", "@ + "is_admin"@ == "id, name, username, is_admin"@);
    lemma_text_58();
    assert(join(expr_texts(cells), ", "@) == "id, name, username, is_admin, disabled, created_at"@);
    lemma_some_people_cond();
    let order = seq![(Expr::Column("name"@), Direction::Unsaid)];
    assert("name"@ + Seq::<char>::empty() =~= "name"@);
    assert(order_texts(order) =~= seq!["name"@]);
    lemma_join1("name"@, ", "@);
    lemma_text_59();
    assert("SELECT "@ + "id, name, username, is_admin, disabled, created_at"@ + " FROM "@ + "principals"@ == "SELECT id, name, username, is_admin, disabled, created_at FROM principals"@);
    lemma_text_67();
    assert(" WHERE "@ + "instr(lower(name), lower(?1)) > 0 OR instr(lower(username), lower(?1)) > 0"@ == " WHERE instr(lower(name), lower(?1)) > 0 OR instr(lower(username), lower(?1)) > 0"@);
    lemma_text_60();
    assert(" ORDER BY "@ + "name"@ == " ORDER BY name"@);
    assert(join(order_texts(order), ", "@) == "name"@);
    assert(question_text(some_people_tree()) == "SELECT id, name, username, is_admin, disabled, created_at FROM principals"@ + " WHERE instr(lower(name), lower(?1)) > 0 OR instr(lower(username), lower(?1)) > 0"@ + " ORDER BY name"@ + Seq::<char>::empty() + Seq::<char>::empty());
    assert("SELECT id, name, username, is_admin, disabled, created_at FROM principals"@ + " WHERE instr(lower(name), lower(?1)) > 0 OR instr(lower(username), lower(?1)) > 0"@ + " ORDER BY name"@ + Seq::<char>::empty() + Seq::<char>::empty() =~= "SELECT id, name, username, is_admin, disabled, created_at FROM principals"@ + " WHERE instr(lower(name), lower(?1)) > 0 OR instr(lower(username), lower(?1)) > 0"@ + " ORDER BY name"@);
    lemma_text_68();
    assert("SELECT id, name, username, is_admin, disabled, created_at FROM principals"@ + " WHERE instr(lower(name), lower(?1)) > 0 OR instr(lower(username), lower(?1)) > 0"@ + " ORDER BY name"@ == "SELECT id, name, username, is_admin, disabled, created_at FROM principals WHERE instr(lower(name), lower(?1)) > 0 OR instr(lower(username), lower(?1)) > 0 ORDER BY name"@);
    assert(cond_binds(either(Cond::Test(Expr::Call2("instr"@, Box::new(Expr::Call1("lower"@, Box::new(Expr::Column("name"@)))), Box::new(Expr::Call1("lower"@, Box::new(Expr::Param(1))))), Relation::Greater, Expr::Number(0)), Cond::Test(Expr::Call2("instr"@, Box::new(Expr::Call1("lower"@, Box::new(Expr::Column("username"@)))), Box::new(Expr::Call1("lower"@, Box::new(Expr::Param(1))))), Relation::Greater, Expr::Number(0)))) =~= Seq::empty());
    assert(question_binds(some_people_tree()) =~= Seq::empty());
    assert(question_ok(some_people_tree())) by {
        lemma_idents();
        reveal_with_fuel(expr_ok, 4);
    }
}

// ---- Grants ----------------------------------------------------------------

pub open spec fn grant_upsert_tree() -> Change {
    Change::Insert {
        table: "grants"@,
        columns: seq!["principal_id"@, "database_name"@, "role"@],
        values: seq![Expr::Param(1), Expr::Param(2), Expr::Param(3)],
        clash: Clash::TakeOver { key: seq!["principal_id"@, "database_name"@], column: "role"@ },
    }
}

#[verifier::rlimit(30)]
pub proof fn lemma_grant_upsert_reads()
    ensures
        change_ok(grant_upsert_tree()),
        change_text(grant_upsert_tree())
            == "INSERT INTO grants (principal_id, database_name, role) VALUES (?1, ?2, ?3) ON CONFLICT(principal_id, database_name) DO UPDATE SET role = excluded.role"@,
{
    lemma_params();
    lemma_numbers();
    let columns = seq!["principal_id"@, "database_name"@, "role"@];
    let values = seq![Expr::Param(1), Expr::Param(2), Expr::Param(3)];
    lemma_join3("principal_id"@, "database_name"@, "role"@, ", "@);
    lemma_text_69();
    assert(join(columns, ", "@) == "principal_id, database_name, role"@);
    assert(expr_texts(values) =~= seq!["?1"@, "?2"@, "?3"@]);
    lemma_join3("?1"@, "?2"@, "?3"@, ", "@);
    lemma_text_70();
    assert(join(expr_texts(values), ", "@) == "?1, ?2, ?3"@);
    let clash = Clash::TakeOver { key: seq!["principal_id"@, "database_name"@], column: "role"@ };
    lemma_join2("principal_id"@, "database_name"@, ", "@);
    lemma_text_71();
    assert(join(seq!["principal_id"@, "database_name"@], ", "@) == "principal_id, database_name"@);
    lemma_text_72();
    assert(clash_tail(clash) == " ON CONFLICT(principal_id, database_name) DO UPDATE SET role = excluded.role"@);
    lemma_text_73();
    assert("INSERT INTO "@ + "grants"@ + " ("@ + "principal_id, database_name, role"@ + ") VALUES ("@ == "INSERT INTO grants (principal_id, database_name, role) VALUES ("@);
    lemma_text_74();
    assert(change_text(grant_upsert_tree()) == "INSERT INTO grants (principal_id, database_name, role) VALUES (?1, ?2, ?3) ON CONFLICT(principal_id, database_name) DO UPDATE SET role = excluded.role"@);
    assert(change_ok(grant_upsert_tree())) by {
        lemma_idents();
        reveal_with_fuel(expr_ok, 4);
    }
}

pub open spec fn grant_delete_tree() -> Change {
    Change::Delete { table: "grants"@, cond: both(Cond::Test(Expr::Column("principal_id"@), Relation::Equal, Expr::Param(1)), Cond::Test(Expr::Column("database_name"@), Relation::Equal, Expr::Param(2))) }
}

#[verifier::rlimit(30)]
pub proof fn lemma_grant_delete_reads()
    ensures
        change_ok(grant_delete_tree()),
        change_text(grant_delete_tree())
            == "DELETE FROM grants WHERE principal_id = ?1 AND database_name = ?2"@,
{
    lemma_params();
    lemma_numbers();
    lemma_text_75();
    assert(cond_text(Cond::Test(Expr::Column("principal_id"@), Relation::Equal, Expr::Param(1))) == "principal_id = ?1"@);
    assert(cond_ok(Cond::Test(Expr::Column("principal_id"@), Relation::Equal, Expr::Param(1)))) by {
        lemma_idents();
        reveal_with_fuel(expr_ok, 4);
    }
    lemma_text_76();
    assert(cond_text(Cond::Test(Expr::Column("database_name"@), Relation::Equal, Expr::Param(2))) == "database_name = ?2"@);
    assert(cond_ok(Cond::Test(Expr::Column("database_name"@), Relation::Equal, Expr::Param(2)))) by {
        lemma_idents();
        reveal_with_fuel(expr_ok, 4);
    }
    lemma_both(Cond::Test(Expr::Column("principal_id"@), Relation::Equal, Expr::Param(1)), Cond::Test(Expr::Column("database_name"@), Relation::Equal, Expr::Param(2)));
    lemma_text_77();
    assert(cond_text(both(Cond::Test(Expr::Column("principal_id"@), Relation::Equal, Expr::Param(1)), Cond::Test(Expr::Column("database_name"@), Relation::Equal, Expr::Param(2)))) == "principal_id = ?1 AND database_name = ?2"@);
    assert(cond_ok(both(Cond::Test(Expr::Column("principal_id"@), Relation::Equal, Expr::Param(1)), Cond::Test(Expr::Column("database_name"@), Relation::Equal, Expr::Param(2))))) by {
        lemma_idents();
        reveal_with_fuel(expr_ok, 4);
    }
    lemma_text_78();
    assert(change_text(grant_delete_tree()) == "DELETE FROM grants WHERE principal_id = ?1 AND database_name = ?2"@);
    assert(change_ok(grant_delete_tree())) by {
        lemma_idents();
        reveal_with_fuel(expr_ok, 4);
    }
}

pub open spec fn grant_role_tree() -> Question {
    Question {
        wanted: Wanted::Cells(seq![Expr::Column("role"@)]),
        table: "grants"@,
        cond: Some(both(Cond::Test(Expr::Column("principal_id"@), Relation::Equal, Expr::Param(1)), Cond::Test(Expr::Column("database_name"@), Relation::Equal, Expr::Param(2)))),
        order: Seq::empty(),
        limit: None,
        offset: None,
    }
}

#[verifier::rlimit(30)]
pub proof fn lemma_grant_role_reads()
    ensures
        question_ok(grant_role_tree()),
        question_binds(grant_role_tree()).len() == 0,
        question_text(grant_role_tree())
            == "SELECT role FROM grants WHERE principal_id = ?1 AND database_name = ?2"@,
{
    lemma_params();
    lemma_numbers();
    let cells = seq![Expr::Column("role"@)];
    assert(expr_texts(cells) =~= seq!["role"@]);
    lemma_join1("role"@, ", "@);
    lemma_text_75();
    assert(cond_text(Cond::Test(Expr::Column("principal_id"@), Relation::Equal, Expr::Param(1))) == "principal_id = ?1"@);
    assert(cond_ok(Cond::Test(Expr::Column("principal_id"@), Relation::Equal, Expr::Param(1)))) by {
        lemma_idents();
        reveal_with_fuel(expr_ok, 4);
    }
    lemma_text_76();
    assert(cond_text(Cond::Test(Expr::Column("database_name"@), Relation::Equal, Expr::Param(2))) == "database_name = ?2"@);
    assert(cond_ok(Cond::Test(Expr::Column("database_name"@), Relation::Equal, Expr::Param(2)))) by {
        lemma_idents();
        reveal_with_fuel(expr_ok, 4);
    }
    lemma_both(Cond::Test(Expr::Column("principal_id"@), Relation::Equal, Expr::Param(1)), Cond::Test(Expr::Column("database_name"@), Relation::Equal, Expr::Param(2)));
    lemma_text_77();
    assert(cond_text(both(Cond::Test(Expr::Column("principal_id"@), Relation::Equal, Expr::Param(1)), Cond::Test(Expr::Column("database_name"@), Relation::Equal, Expr::Param(2)))) == "principal_id = ?1 AND database_name = ?2"@);
    assert(cond_ok(both(Cond::Test(Expr::Column("principal_id"@), Relation::Equal, Expr::Param(1)), Cond::Test(Expr::Column("database_name"@), Relation::Equal, Expr::Param(2))))) by {
        lemma_idents();
        reveal_with_fuel(expr_ok, 4);
    }
    lemma_text_79();
    assert("SELECT "@ + "role"@ + " FROM "@ + "grants"@ == "SELECT role FROM grants"@);
    lemma_text_80();
    assert(" WHERE "@ + "principal_id = ?1 AND database_name = ?2"@ == " WHERE principal_id = ?1 AND database_name = ?2"@);
    assert(question_text(grant_role_tree()) == "SELECT role FROM grants"@ + " WHERE principal_id = ?1 AND database_name = ?2"@ + Seq::<char>::empty() + Seq::<char>::empty() + Seq::<char>::empty());
    assert("SELECT role FROM grants"@ + " WHERE principal_id = ?1 AND database_name = ?2"@ + Seq::<char>::empty() + Seq::<char>::empty() + Seq::<char>::empty() =~= "SELECT role FROM grants"@ + " WHERE principal_id = ?1 AND database_name = ?2"@);
    lemma_text_81();
    assert("SELECT role FROM grants"@ + " WHERE principal_id = ?1 AND database_name = ?2"@ == "SELECT role FROM grants WHERE principal_id = ?1 AND database_name = ?2"@);
    assert(cond_binds(both(Cond::Test(Expr::Column("principal_id"@), Relation::Equal, Expr::Param(1)), Cond::Test(Expr::Column("database_name"@), Relation::Equal, Expr::Param(2)))) =~= Seq::empty());
    assert(question_binds(grant_role_tree()) =~= Seq::empty());
    assert(question_ok(grant_role_tree())) by {
        lemma_idents();
        reveal_with_fuel(expr_ok, 4);
    }
}

pub open spec fn grants_of_tree() -> Question {
    Question {
        wanted: Wanted::Cells(seq![Expr::Column("database_name"@), Expr::Column("role"@)]),
        table: "grants"@,
        cond: Some(Cond::Test(Expr::Column("principal_id"@), Relation::Equal, Expr::Param(1))),
        order: seq![(Expr::Column("database_name"@), Direction::Unsaid)],
        limit: None,
        offset: None,
    }
}

#[verifier::rlimit(30)]
pub proof fn lemma_grants_of_reads()
    ensures
        question_ok(grants_of_tree()),
        question_binds(grants_of_tree()).len() == 0,
        question_text(grants_of_tree())
            == "SELECT database_name, role FROM grants WHERE principal_id = ?1 ORDER BY database_name"@,
{
    lemma_params();
    lemma_numbers();
    let cells = seq![Expr::Column("database_name"@), Expr::Column("role"@)];
    assert(expr_texts(cells) =~= seq!["database_name"@, "role"@]);
    lemma_join2("database_name"@, "role"@, ", "@);
    lemma_text_82();
    assert(join(expr_texts(cells), ", "@) == "database_name, role"@);
    lemma_text_75();
    assert(cond_text(Cond::Test(Expr::Column("principal_id"@), Relation::Equal, Expr::Param(1))) == "principal_id = ?1"@);
    assert(cond_ok(Cond::Test(Expr::Column("principal_id"@), Relation::Equal, Expr::Param(1)))) by {
        lemma_idents();
        reveal_with_fuel(expr_ok, 4);
    }
    let order = seq![(Expr::Column("database_name"@), Direction::Unsaid)];
    assert("database_name"@ + Seq::<char>::empty() =~= "database_name"@);
    assert(order_texts(order) =~= seq!["database_name"@]);
    lemma_join1("database_name"@, ", "@);
    lemma_text_83();
    assert("SELECT "@ + "database_name, role"@ + " FROM "@ + "grants"@ == "SELECT database_name, role FROM grants"@);
    lemma_text_84();
    assert(" WHERE "@ + "principal_id = ?1"@ == " WHERE principal_id = ?1"@);
    lemma_text_85();
    assert(" ORDER BY "@ + "database_name"@ == " ORDER BY database_name"@);
    assert(join(order_texts(order), ", "@) == "database_name"@);
    assert(question_text(grants_of_tree()) == "SELECT database_name, role FROM grants"@ + " WHERE principal_id = ?1"@ + " ORDER BY database_name"@ + Seq::<char>::empty() + Seq::<char>::empty());
    assert("SELECT database_name, role FROM grants"@ + " WHERE principal_id = ?1"@ + " ORDER BY database_name"@ + Seq::<char>::empty() + Seq::<char>::empty() =~= "SELECT database_name, role FROM grants"@ + " WHERE principal_id = ?1"@ + " ORDER BY database_name"@);
    lemma_text_86();
    assert("SELECT database_name, role FROM grants"@ + " WHERE principal_id = ?1"@ + " ORDER BY database_name"@ == "SELECT database_name, role FROM grants WHERE principal_id = ?1 ORDER BY database_name"@);
    assert(cond_binds(Cond::Test(Expr::Column("principal_id"@), Relation::Equal, Expr::Param(1))) =~= Seq::empty());
    assert(question_binds(grants_of_tree()) =~= Seq::empty());
    assert(question_ok(grants_of_tree())) by {
        lemma_idents();
        reveal_with_fuel(expr_ok, 4);
    }
}

pub open spec fn grants_end_tree() -> Change {
    Change::Delete { table: "grants"@, cond: Cond::Test(Expr::Column("database_name"@), Relation::Equal, Expr::Param(1)) }
}

#[verifier::rlimit(30)]
pub proof fn lemma_grants_end_reads()
    ensures
        change_ok(grants_end_tree()),
        change_text(grants_end_tree())
            == "DELETE FROM grants WHERE database_name = ?1"@,
{
    lemma_params();
    lemma_numbers();
    lemma_text_87();
    assert(cond_text(Cond::Test(Expr::Column("database_name"@), Relation::Equal, Expr::Param(1))) == "database_name = ?1"@);
    assert(cond_ok(Cond::Test(Expr::Column("database_name"@), Relation::Equal, Expr::Param(1)))) by {
        lemma_idents();
        reveal_with_fuel(expr_ok, 4);
    }
    lemma_text_88();
    assert(change_text(grants_end_tree()) == "DELETE FROM grants WHERE database_name = ?1"@);
    assert(change_ok(grants_end_tree())) by {
        lemma_idents();
        reveal_with_fuel(expr_ok, 4);
    }
}

// ---- Databases -------------------------------------------------------------

pub open spec fn database_insert_tree() -> Change {
    Change::Insert {
        table: "databases"@,
        columns: seq!["name"@, "created_at"@],
        values: seq![Expr::Param(1), Expr::Param(2)],
        clash: Clash::Ignore,
    }
}

#[verifier::rlimit(30)]
pub proof fn lemma_database_insert_reads()
    ensures
        change_ok(database_insert_tree()),
        change_text(database_insert_tree())
            == "INSERT OR IGNORE INTO databases (name, created_at) VALUES (?1, ?2)"@,
{
    lemma_params();
    lemma_numbers();
    let columns = seq!["name"@, "created_at"@];
    let values = seq![Expr::Param(1), Expr::Param(2)];
    lemma_join2("name"@, "created_at"@, ", "@);
    lemma_text_89();
    assert(join(columns, ", "@) == "name, created_at"@);
    assert(expr_texts(values) =~= seq!["?1"@, "?2"@]);
    lemma_join2("?1"@, "?2"@, ", "@);
    lemma_text_90();
    assert(join(expr_texts(values), ", "@) == "?1, ?2"@);
    lemma_text_91();
    assert("INSERT OR IGNORE INTO "@ + "databases"@ + " ("@ + "name, created_at"@ + ") VALUES ("@ == "INSERT OR IGNORE INTO databases (name, created_at) VALUES ("@);
    lemma_text_92();
    assert("INSERT OR IGNORE INTO databases (name, created_at) VALUES ("@ + "?1, ?2"@ + ")"@ == "INSERT OR IGNORE INTO databases (name, created_at) VALUES (?1, ?2)"@);
    assert("INSERT OR IGNORE INTO databases (name, created_at) VALUES (?1, ?2)"@ + Seq::<char>::empty() =~= "INSERT OR IGNORE INTO databases (name, created_at) VALUES (?1, ?2)"@);
    assert(change_text(database_insert_tree()) == "INSERT OR IGNORE INTO databases (name, created_at) VALUES (?1, ?2)"@);
    assert(change_ok(database_insert_tree())) by {
        lemma_idents();
        reveal_with_fuel(expr_ok, 4);
    }
}

pub open spec fn principal_count_tree() -> Question {
    Question {
        wanted: Wanted::Count,
        table: "principals"@,
        cond: None,
        order: Seq::empty(),
        limit: None,
        offset: None,
    }
}

#[verifier::rlimit(30)]
pub proof fn lemma_principal_count_reads()
    ensures
        question_ok(principal_count_tree()),
        question_binds(principal_count_tree()).len() == 0,
        question_text(principal_count_tree())
            == "SELECT count(*) FROM principals"@,
{
    lemma_params();
    lemma_numbers();
    lemma_text_93();
    assert("SELECT "@ + "count(*)"@ + " FROM "@ + "principals"@ == "SELECT count(*) FROM principals"@);
    assert(question_text(principal_count_tree()) == "SELECT count(*) FROM principals"@ + Seq::<char>::empty() + Seq::<char>::empty() + Seq::<char>::empty() + Seq::<char>::empty());
    assert("SELECT count(*) FROM principals"@ + Seq::<char>::empty() + Seq::<char>::empty() + Seq::<char>::empty() + Seq::<char>::empty() =~= "SELECT count(*) FROM principals"@);
    assert(question_binds(principal_count_tree()) =~= Seq::empty());
    assert(question_ok(principal_count_tree())) by {
        lemma_idents();
        reveal_with_fuel(expr_ok, 4);
    }
}

pub open spec fn database_count_tree() -> Question {
    Question {
        wanted: Wanted::Count,
        table: "databases"@,
        cond: Some(Cond::Test(Expr::Column("name"@), Relation::Equal, Expr::Param(1))),
        order: Seq::empty(),
        limit: None,
        offset: None,
    }
}

#[verifier::rlimit(30)]
pub proof fn lemma_database_count_reads()
    ensures
        question_ok(database_count_tree()),
        question_binds(database_count_tree()).len() == 0,
        question_text(database_count_tree())
            == "SELECT count(*) FROM databases WHERE name = ?1"@,
{
    lemma_params();
    lemma_numbers();
    lemma_text_94();
    assert(cond_text(Cond::Test(Expr::Column("name"@), Relation::Equal, Expr::Param(1))) == "name = ?1"@);
    assert(cond_ok(Cond::Test(Expr::Column("name"@), Relation::Equal, Expr::Param(1)))) by {
        lemma_idents();
        reveal_with_fuel(expr_ok, 4);
    }
    lemma_text_95();
    assert("SELECT "@ + "count(*)"@ + " FROM "@ + "databases"@ == "SELECT count(*) FROM databases"@);
    lemma_text_96();
    assert(" WHERE "@ + "name = ?1"@ == " WHERE name = ?1"@);
    assert(question_text(database_count_tree()) == "SELECT count(*) FROM databases"@ + " WHERE name = ?1"@ + Seq::<char>::empty() + Seq::<char>::empty() + Seq::<char>::empty());
    assert("SELECT count(*) FROM databases"@ + " WHERE name = ?1"@ + Seq::<char>::empty() + Seq::<char>::empty() + Seq::<char>::empty() =~= "SELECT count(*) FROM databases"@ + " WHERE name = ?1"@);
    lemma_text_97();
    assert("SELECT count(*) FROM databases"@ + " WHERE name = ?1"@ == "SELECT count(*) FROM databases WHERE name = ?1"@);
    assert(cond_binds(Cond::Test(Expr::Column("name"@), Relation::Equal, Expr::Param(1))) =~= Seq::empty());
    assert(question_binds(database_count_tree()) =~= Seq::empty());
    assert(question_ok(database_count_tree())) by {
        lemma_idents();
        reveal_with_fuel(expr_ok, 4);
    }
}

pub open spec fn database_list_tree() -> Question {
    Question {
        wanted: Wanted::Cells(seq![Expr::Column("name"@), Expr::Column("created_at"@)]),
        table: "databases"@,
        cond: None,
        order: seq![(Expr::Column("name"@), Direction::Unsaid)],
        limit: None,
        offset: None,
    }
}

#[verifier::rlimit(30)]
pub proof fn lemma_database_list_reads()
    ensures
        question_ok(database_list_tree()),
        question_binds(database_list_tree()).len() == 0,
        question_text(database_list_tree())
            == "SELECT name, created_at FROM databases ORDER BY name"@,
{
    lemma_params();
    lemma_numbers();
    let cells = seq![Expr::Column("name"@), Expr::Column("created_at"@)];
    assert(expr_texts(cells) =~= seq!["name"@, "created_at"@]);
    lemma_join2("name"@, "created_at"@, ", "@);
    lemma_text_89();
    assert(join(expr_texts(cells), ", "@) == "name, created_at"@);
    let order = seq![(Expr::Column("name"@), Direction::Unsaid)];
    assert("name"@ + Seq::<char>::empty() =~= "name"@);
    assert(order_texts(order) =~= seq!["name"@]);
    lemma_join1("name"@, ", "@);
    lemma_text_98();
    assert("SELECT "@ + "name, created_at"@ + " FROM "@ + "databases"@ == "SELECT name, created_at FROM databases"@);
    lemma_text_60();
    assert(" ORDER BY "@ + "name"@ == " ORDER BY name"@);
    assert(join(order_texts(order), ", "@) == "name"@);
    assert(question_text(database_list_tree()) == "SELECT name, created_at FROM databases"@ + Seq::<char>::empty() + " ORDER BY name"@ + Seq::<char>::empty() + Seq::<char>::empty());
    assert("SELECT name, created_at FROM databases"@ + Seq::<char>::empty() + " ORDER BY name"@ + Seq::<char>::empty() + Seq::<char>::empty() =~= "SELECT name, created_at FROM databases"@ + " ORDER BY name"@);
    lemma_text_99();
    assert("SELECT name, created_at FROM databases"@ + " ORDER BY name"@ == "SELECT name, created_at FROM databases ORDER BY name"@);
    assert(question_binds(database_list_tree()) =~= Seq::empty());
    assert(question_ok(database_list_tree())) by {
        lemma_idents();
        reveal_with_fuel(expr_ok, 4);
    }
}

pub open spec fn database_delete_tree() -> Change {
    Change::Delete { table: "databases"@, cond: Cond::Test(Expr::Column("name"@), Relation::Equal, Expr::Param(1)) }
}

#[verifier::rlimit(30)]
pub proof fn lemma_database_delete_reads()
    ensures
        change_ok(database_delete_tree()),
        change_text(database_delete_tree())
            == "DELETE FROM databases WHERE name = ?1"@,
{
    lemma_params();
    lemma_numbers();
    lemma_text_94();
    assert(cond_text(Cond::Test(Expr::Column("name"@), Relation::Equal, Expr::Param(1))) == "name = ?1"@);
    assert(cond_ok(Cond::Test(Expr::Column("name"@), Relation::Equal, Expr::Param(1)))) by {
        lemma_idents();
        reveal_with_fuel(expr_ok, 4);
    }
    lemma_text_100();
    assert(change_text(database_delete_tree()) == "DELETE FROM databases WHERE name = ?1"@);
    assert(change_ok(database_delete_tree())) by {
        lemma_idents();
        reveal_with_fuel(expr_ok, 4);
    }
}

// ---- Settings --------------------------------------------------------------

pub open spec fn policy_tree() -> Question {
    Question {
        wanted: Wanted::Cells(seq![Expr::Column("value"@)]),
        table: "auth_settings"@,
        cond: Some(Cond::Test(Expr::Column("key"@), Relation::Equal, Expr::Quoted("public_registration"@))),
        order: Seq::empty(),
        limit: None,
        offset: None,
    }
}

#[verifier::rlimit(30)]
pub proof fn lemma_policy_reads()
    ensures
        question_ok(policy_tree()),
        question_binds(policy_tree()).len() == 0,
        question_text(policy_tree())
            == "SELECT value FROM auth_settings WHERE key = 'public_registration'"@,
{
    lemma_params();
    lemma_numbers();
    let cells = seq![Expr::Column("value"@)];
    assert(expr_texts(cells) =~= seq!["value"@]);
    lemma_join1("value"@, ", "@);
    lemma_text_101();
    assert(expr_text(Expr::Quoted("public_registration"@)) == "'public_registration'"@);
    assert(quotable("public_registration"@)) by {
        reveal_strlit("public_registration");
    }
    lemma_text_102();
    assert(cond_text(Cond::Test(Expr::Column("key"@), Relation::Equal, Expr::Quoted("public_registration"@))) == "key = 'public_registration'"@);
    assert(cond_ok(Cond::Test(Expr::Column("key"@), Relation::Equal, Expr::Quoted("public_registration"@)))) by {
        lemma_idents();
        reveal_with_fuel(expr_ok, 4);
    }
    lemma_text_103();
    assert("SELECT "@ + "value"@ + " FROM "@ + "auth_settings"@ == "SELECT value FROM auth_settings"@);
    lemma_text_104();
    assert(" WHERE "@ + "key = 'public_registration'"@ == " WHERE key = 'public_registration'"@);
    assert(question_text(policy_tree()) == "SELECT value FROM auth_settings"@ + " WHERE key = 'public_registration'"@ + Seq::<char>::empty() + Seq::<char>::empty() + Seq::<char>::empty());
    assert("SELECT value FROM auth_settings"@ + " WHERE key = 'public_registration'"@ + Seq::<char>::empty() + Seq::<char>::empty() + Seq::<char>::empty() =~= "SELECT value FROM auth_settings"@ + " WHERE key = 'public_registration'"@);
    lemma_text_105();
    assert("SELECT value FROM auth_settings"@ + " WHERE key = 'public_registration'"@ == "SELECT value FROM auth_settings WHERE key = 'public_registration'"@);
    assert(cond_binds(Cond::Test(Expr::Column("key"@), Relation::Equal, Expr::Quoted("public_registration"@))) =~= Seq::empty());
    assert(question_binds(policy_tree()) =~= Seq::empty());
    assert(question_ok(policy_tree())) by {
        lemma_idents();
        reveal_with_fuel(expr_ok, 4);
    }
}

pub open spec fn policy_set_tree() -> Change {
    Change::Insert {
        table: "auth_settings"@,
        columns: seq!["key"@, "value"@],
        values: seq![Expr::Quoted("public_registration"@), Expr::Param(1)],
        clash: Clash::TakeOver { key: seq!["key"@], column: "value"@ },
    }
}

#[verifier::rlimit(30)]
pub proof fn lemma_policy_set_reads()
    ensures
        change_ok(policy_set_tree()),
        change_text(policy_set_tree())
            == "INSERT INTO auth_settings (key, value) VALUES ('public_registration', ?1) ON CONFLICT(key) DO UPDATE SET value = excluded.value"@,
{
    lemma_params();
    lemma_numbers();
    lemma_text_101();
    assert(expr_text(Expr::Quoted("public_registration"@)) == "'public_registration'"@);
    assert(quotable("public_registration"@)) by {
        reveal_strlit("public_registration");
    }
    let columns = seq!["key"@, "value"@];
    let values = seq![Expr::Quoted("public_registration"@), Expr::Param(1)];
    lemma_join2("key"@, "value"@, ", "@);
    lemma_text_106();
    assert(join(columns, ", "@) == "key, value"@);
    assert(expr_texts(values) =~= seq!["'public_registration'"@, "?1"@]);
    lemma_join2("'public_registration'"@, "?1"@, ", "@);
    lemma_text_107();
    assert(join(expr_texts(values), ", "@) == "'public_registration', ?1"@);
    let clash = Clash::TakeOver { key: seq!["key"@], column: "value"@ };
    lemma_join1("key"@, ", "@);
    lemma_text_108();
    assert(clash_tail(clash) == " ON CONFLICT(key) DO UPDATE SET value = excluded.value"@);
    lemma_text_109();
    assert("INSERT INTO "@ + "auth_settings"@ + " ("@ + "key, value"@ + ") VALUES ("@ == "INSERT INTO auth_settings (key, value) VALUES ("@);
    lemma_text_110();
    assert(change_text(policy_set_tree()) == "INSERT INTO auth_settings (key, value) VALUES ('public_registration', ?1) ON CONFLICT(key) DO UPDATE SET value = excluded.value"@);
    assert(change_ok(policy_set_tree())) by {
        lemma_idents();
        reveal_with_fuel(expr_ok, 4);
    }
}

// ---- Sessions --------------------------------------------------------------

pub open spec fn session_find_tree() -> Question {
    Question {
        wanted: Wanted::Cells(seq![Expr::Column("principal_id"@)]),
        table: "browser_sessions"@,
        cond: Some(three(Cond::Test(Expr::Column("token_hash"@), Relation::Equal, Expr::Param(1)), Cond::Test(Expr::Column("csrf_hash"@), Relation::Equal, Expr::Param(2)), Cond::Test(Expr::Column("expires_at"@), Relation::Greater, Expr::Param(3)))),
        order: Seq::empty(),
        limit: None,
        offset: None,
    }
}

#[verifier::rlimit(30)]
pub proof fn lemma_session_find_reads()
    ensures
        question_ok(session_find_tree()),
        question_binds(session_find_tree()).len() == 0,
        question_text(session_find_tree())
            == "SELECT principal_id FROM browser_sessions WHERE token_hash = ?1 AND csrf_hash = ?2 AND expires_at > ?3"@,
{
    lemma_params();
    lemma_numbers();
    let cells = seq![Expr::Column("principal_id"@)];
    assert(expr_texts(cells) =~= seq!["principal_id"@]);
    lemma_join1("principal_id"@, ", "@);
    lemma_text_13();
    assert(cond_text(Cond::Test(Expr::Column("token_hash"@), Relation::Equal, Expr::Param(1))) == "token_hash = ?1"@);
    assert(cond_ok(Cond::Test(Expr::Column("token_hash"@), Relation::Equal, Expr::Param(1)))) by {
        lemma_idents();
        reveal_with_fuel(expr_ok, 4);
    }
    lemma_text_111();
    assert(cond_text(Cond::Test(Expr::Column("csrf_hash"@), Relation::Equal, Expr::Param(2))) == "csrf_hash = ?2"@);
    assert(cond_ok(Cond::Test(Expr::Column("csrf_hash"@), Relation::Equal, Expr::Param(2)))) by {
        lemma_idents();
        reveal_with_fuel(expr_ok, 4);
    }
    lemma_text_112();
    assert(cond_text(Cond::Test(Expr::Column("expires_at"@), Relation::Greater, Expr::Param(3))) == "expires_at > ?3"@);
    assert(cond_ok(Cond::Test(Expr::Column("expires_at"@), Relation::Greater, Expr::Param(3)))) by {
        lemma_idents();
        reveal_with_fuel(expr_ok, 4);
    }
    lemma_three(Cond::Test(Expr::Column("token_hash"@), Relation::Equal, Expr::Param(1)), Cond::Test(Expr::Column("csrf_hash"@), Relation::Equal, Expr::Param(2)), Cond::Test(Expr::Column("expires_at"@), Relation::Greater, Expr::Param(3)));
    lemma_text_113();
    assert(cond_text(three(Cond::Test(Expr::Column("token_hash"@), Relation::Equal, Expr::Param(1)), Cond::Test(Expr::Column("csrf_hash"@), Relation::Equal, Expr::Param(2)), Cond::Test(Expr::Column("expires_at"@), Relation::Greater, Expr::Param(3)))) == "token_hash = ?1 AND csrf_hash = ?2 AND expires_at > ?3"@);
    assert(cond_ok(three(Cond::Test(Expr::Column("token_hash"@), Relation::Equal, Expr::Param(1)), Cond::Test(Expr::Column("csrf_hash"@), Relation::Equal, Expr::Param(2)), Cond::Test(Expr::Column("expires_at"@), Relation::Greater, Expr::Param(3))))) by {
        lemma_idents();
        reveal_with_fuel(expr_ok, 4);
    }
    lemma_text_114();
    assert("SELECT "@ + "principal_id"@ + " FROM "@ + "browser_sessions"@ == "SELECT principal_id FROM browser_sessions"@);
    lemma_text_115();
    assert(" WHERE "@ + "token_hash = ?1 AND csrf_hash = ?2 AND expires_at > ?3"@ == " WHERE token_hash = ?1 AND csrf_hash = ?2 AND expires_at > ?3"@);
    assert(question_text(session_find_tree()) == "SELECT principal_id FROM browser_sessions"@ + " WHERE token_hash = ?1 AND csrf_hash = ?2 AND expires_at > ?3"@ + Seq::<char>::empty() + Seq::<char>::empty() + Seq::<char>::empty());
    assert("SELECT principal_id FROM browser_sessions"@ + " WHERE token_hash = ?1 AND csrf_hash = ?2 AND expires_at > ?3"@ + Seq::<char>::empty() + Seq::<char>::empty() + Seq::<char>::empty() =~= "SELECT principal_id FROM browser_sessions"@ + " WHERE token_hash = ?1 AND csrf_hash = ?2 AND expires_at > ?3"@);
    lemma_text_116();
    assert("SELECT principal_id FROM browser_sessions"@ + " WHERE token_hash = ?1 AND csrf_hash = ?2 AND expires_at > ?3"@ == "SELECT principal_id FROM browser_sessions WHERE token_hash = ?1 AND csrf_hash = ?2 AND expires_at > ?3"@);
    assert(cond_binds(three(Cond::Test(Expr::Column("token_hash"@), Relation::Equal, Expr::Param(1)), Cond::Test(Expr::Column("csrf_hash"@), Relation::Equal, Expr::Param(2)), Cond::Test(Expr::Column("expires_at"@), Relation::Greater, Expr::Param(3)))) =~= Seq::empty());
    assert(question_binds(session_find_tree()) =~= Seq::empty());
    assert(question_ok(session_find_tree())) by {
        lemma_idents();
        reveal_with_fuel(expr_ok, 4);
    }
}

pub open spec fn session_end_tree() -> Change {
    Change::Delete { table: "browser_sessions"@, cond: Cond::Test(Expr::Column("token_hash"@), Relation::Equal, Expr::Param(1)) }
}

#[verifier::rlimit(30)]
pub proof fn lemma_session_end_reads()
    ensures
        change_ok(session_end_tree()),
        change_text(session_end_tree())
            == "DELETE FROM browser_sessions WHERE token_hash = ?1"@,
{
    lemma_params();
    lemma_numbers();
    lemma_text_13();
    assert(cond_text(Cond::Test(Expr::Column("token_hash"@), Relation::Equal, Expr::Param(1))) == "token_hash = ?1"@);
    assert(cond_ok(Cond::Test(Expr::Column("token_hash"@), Relation::Equal, Expr::Param(1)))) by {
        lemma_idents();
        reveal_with_fuel(expr_ok, 4);
    }
    lemma_text_117();
    assert(change_text(session_end_tree()) == "DELETE FROM browser_sessions WHERE token_hash = ?1"@);
    assert(change_ok(session_end_tree())) by {
        lemma_idents();
        reveal_with_fuel(expr_ok, 4);
    }
}

pub open spec fn sessions_clear_tree() -> Change {
    Change::Delete { table: "browser_sessions"@, cond: Cond::Test(Expr::Column("expires_at"@), Relation::AtMost, Expr::Param(1)) }
}

#[verifier::rlimit(30)]
pub proof fn lemma_sessions_clear_reads()
    ensures
        change_ok(sessions_clear_tree()),
        change_text(sessions_clear_tree())
            == "DELETE FROM browser_sessions WHERE expires_at <= ?1"@,
{
    lemma_params();
    lemma_numbers();
    lemma_text_118();
    assert(cond_text(Cond::Test(Expr::Column("expires_at"@), Relation::AtMost, Expr::Param(1))) == "expires_at <= ?1"@);
    assert(cond_ok(Cond::Test(Expr::Column("expires_at"@), Relation::AtMost, Expr::Param(1)))) by {
        lemma_idents();
        reveal_with_fuel(expr_ok, 4);
    }
    lemma_text_119();
    assert(change_text(sessions_clear_tree()) == "DELETE FROM browser_sessions WHERE expires_at <= ?1"@);
    assert(change_ok(sessions_clear_tree())) by {
        lemma_idents();
        reveal_with_fuel(expr_ok, 4);
    }
}

pub open spec fn session_enter_tree() -> Change {
    Change::Insert {
        table: "browser_sessions"@,
        columns: seq!["token_hash"@, "principal_id"@, "csrf_hash"@, "expires_at"@, "created_at"@],
        values: seq![Expr::Param(1), Expr::Param(2), Expr::Param(3), Expr::Param(4), Expr::Param(5)],
        clash: Clash::Refuse,
    }
}

#[verifier::rlimit(30)]
pub proof fn lemma_session_enter_reads()
    ensures
        change_ok(session_enter_tree()),
        change_text(session_enter_tree())
            == "INSERT INTO browser_sessions (token_hash, principal_id, csrf_hash, expires_at, created_at) VALUES (?1, ?2, ?3, ?4, ?5)"@,
{
    lemma_params();
    lemma_numbers();
    let columns = seq!["token_hash"@, "principal_id"@, "csrf_hash"@, "expires_at"@, "created_at"@];
    let values = seq![Expr::Param(1), Expr::Param(2), Expr::Param(3), Expr::Param(4), Expr::Param(5)];
    lemma_join5("token_hash"@, "principal_id"@, "csrf_hash"@, "expires_at"@, "created_at"@, ", "@);
    lemma_text_120();
    assert(join(columns, ", "@) == "token_hash, principal_id, csrf_hash, expires_at, created_at"@);
    assert(expr_texts(values) =~= seq!["?1"@, "?2"@, "?3"@, "?4"@, "?5"@]);
    lemma_join5("?1"@, "?2"@, "?3"@, "?4"@, "?5"@, ", "@);
    lemma_text_121();
    assert(join(expr_texts(values), ", "@) == "?1, ?2, ?3, ?4, ?5"@);
    lemma_text_122();
    assert("INSERT INTO "@ + "browser_sessions"@ + " ("@ + "token_hash, principal_id, csrf_hash, expires_at, created_at"@ + ") VALUES ("@ == "INSERT INTO browser_sessions (token_hash, principal_id, csrf_hash, expires_at, created_at) VALUES ("@);
    lemma_text_123();
    assert("INSERT INTO browser_sessions (token_hash, principal_id, csrf_hash, expires_at, created_at) VALUES ("@ + "?1, ?2, ?3, ?4, ?5"@ + ")"@ == "INSERT INTO browser_sessions (token_hash, principal_id, csrf_hash, expires_at, created_at) VALUES (?1, ?2, ?3, ?4, ?5)"@);
    assert("INSERT INTO browser_sessions (token_hash, principal_id, csrf_hash, expires_at, created_at) VALUES (?1, ?2, ?3, ?4, ?5)"@ + Seq::<char>::empty() =~= "INSERT INTO browser_sessions (token_hash, principal_id, csrf_hash, expires_at, created_at) VALUES (?1, ?2, ?3, ?4, ?5)"@);
    assert(change_text(session_enter_tree()) == "INSERT INTO browser_sessions (token_hash, principal_id, csrf_hash, expires_at, created_at) VALUES (?1, ?2, ?3, ?4, ?5)"@);
    assert(change_ok(session_enter_tree())) by {
        lemma_idents();
        reveal_with_fuel(expr_ok, 4);
    }
}

pub open spec fn session_revoke_tree() -> Change {
    Change::Delete { table: "browser_sessions"@, cond: both(Cond::Test(Expr::Column("token_hash"@), Relation::Equal, Expr::Param(1)), Cond::Test(Expr::Column("csrf_hash"@), Relation::Equal, Expr::Param(2))) }
}

#[verifier::rlimit(30)]
pub proof fn lemma_session_revoke_reads()
    ensures
        change_ok(session_revoke_tree()),
        change_text(session_revoke_tree())
            == "DELETE FROM browser_sessions WHERE token_hash = ?1 AND csrf_hash = ?2"@,
{
    lemma_params();
    lemma_numbers();
    lemma_text_13();
    assert(cond_text(Cond::Test(Expr::Column("token_hash"@), Relation::Equal, Expr::Param(1))) == "token_hash = ?1"@);
    assert(cond_ok(Cond::Test(Expr::Column("token_hash"@), Relation::Equal, Expr::Param(1)))) by {
        lemma_idents();
        reveal_with_fuel(expr_ok, 4);
    }
    lemma_text_111();
    assert(cond_text(Cond::Test(Expr::Column("csrf_hash"@), Relation::Equal, Expr::Param(2))) == "csrf_hash = ?2"@);
    assert(cond_ok(Cond::Test(Expr::Column("csrf_hash"@), Relation::Equal, Expr::Param(2)))) by {
        lemma_idents();
        reveal_with_fuel(expr_ok, 4);
    }
    lemma_both(Cond::Test(Expr::Column("token_hash"@), Relation::Equal, Expr::Param(1)), Cond::Test(Expr::Column("csrf_hash"@), Relation::Equal, Expr::Param(2)));
    lemma_text_124();
    assert(cond_text(both(Cond::Test(Expr::Column("token_hash"@), Relation::Equal, Expr::Param(1)), Cond::Test(Expr::Column("csrf_hash"@), Relation::Equal, Expr::Param(2)))) == "token_hash = ?1 AND csrf_hash = ?2"@);
    assert(cond_ok(both(Cond::Test(Expr::Column("token_hash"@), Relation::Equal, Expr::Param(1)), Cond::Test(Expr::Column("csrf_hash"@), Relation::Equal, Expr::Param(2))))) by {
        lemma_idents();
        reveal_with_fuel(expr_ok, 4);
    }
    lemma_text_125();
    assert(change_text(session_revoke_tree()) == "DELETE FROM browser_sessions WHERE token_hash = ?1 AND csrf_hash = ?2"@);
    assert(change_ok(session_revoke_tree())) by {
        lemma_idents();
        reveal_with_fuel(expr_ok, 4);
    }
}

pub open spec fn sessions_of_end_tree() -> Change {
    Change::Delete { table: "browser_sessions"@, cond: Cond::Test(Expr::Column("principal_id"@), Relation::Equal, Expr::Param(1)) }
}

#[verifier::rlimit(30)]
pub proof fn lemma_sessions_of_end_reads()
    ensures
        change_ok(sessions_of_end_tree()),
        change_text(sessions_of_end_tree())
            == "DELETE FROM browser_sessions WHERE principal_id = ?1"@,
{
    lemma_params();
    lemma_numbers();
    lemma_text_75();
    assert(cond_text(Cond::Test(Expr::Column("principal_id"@), Relation::Equal, Expr::Param(1))) == "principal_id = ?1"@);
    assert(cond_ok(Cond::Test(Expr::Column("principal_id"@), Relation::Equal, Expr::Param(1)))) by {
        lemma_idents();
        reveal_with_fuel(expr_ok, 4);
    }
    lemma_text_126();
    assert(change_text(sessions_of_end_tree()) == "DELETE FROM browser_sessions WHERE principal_id = ?1"@);
    assert(change_ok(sessions_of_end_tree())) by {
        lemma_idents();
        reveal_with_fuel(expr_ok, 4);
    }
}

pub open spec fn access_clear_tree() -> Change {
    Change::Delete { table: "browser_access_tokens"@, cond: Cond::Test(Expr::Column("expires_at"@), Relation::AtMost, Expr::Param(1)) }
}

#[verifier::rlimit(30)]
pub proof fn lemma_access_clear_reads()
    ensures
        change_ok(access_clear_tree()),
        change_text(access_clear_tree())
            == "DELETE FROM browser_access_tokens WHERE expires_at <= ?1"@,
{
    lemma_params();
    lemma_numbers();
    lemma_text_118();
    assert(cond_text(Cond::Test(Expr::Column("expires_at"@), Relation::AtMost, Expr::Param(1))) == "expires_at <= ?1"@);
    assert(cond_ok(Cond::Test(Expr::Column("expires_at"@), Relation::AtMost, Expr::Param(1)))) by {
        lemma_idents();
        reveal_with_fuel(expr_ok, 4);
    }
    lemma_text_127();
    assert(change_text(access_clear_tree()) == "DELETE FROM browser_access_tokens WHERE expires_at <= ?1"@);
    assert(change_ok(access_clear_tree())) by {
        lemma_idents();
        reveal_with_fuel(expr_ok, 4);
    }
}

pub open spec fn access_enter_tree() -> Change {
    Change::Insert {
        table: "browser_access_tokens"@,
        columns: seq!["token_hash"@, "principal_id"@, "expires_at"@],
        values: seq![Expr::Param(1), Expr::Param(2), Expr::Param(3)],
        clash: Clash::Refuse,
    }
}

#[verifier::rlimit(30)]
pub proof fn lemma_access_enter_reads()
    ensures
        change_ok(access_enter_tree()),
        change_text(access_enter_tree())
            == "INSERT INTO browser_access_tokens (token_hash, principal_id, expires_at) VALUES (?1, ?2, ?3)"@,
{
    lemma_params();
    lemma_numbers();
    let columns = seq!["token_hash"@, "principal_id"@, "expires_at"@];
    let values = seq![Expr::Param(1), Expr::Param(2), Expr::Param(3)];
    lemma_join3("token_hash"@, "principal_id"@, "expires_at"@, ", "@);
    lemma_text_128();
    assert(join(columns, ", "@) == "token_hash, principal_id, expires_at"@);
    assert(expr_texts(values) =~= seq!["?1"@, "?2"@, "?3"@]);
    lemma_join3("?1"@, "?2"@, "?3"@, ", "@);
    lemma_text_70();
    assert(join(expr_texts(values), ", "@) == "?1, ?2, ?3"@);
    lemma_text_129();
    assert("INSERT INTO "@ + "browser_access_tokens"@ + " ("@ + "token_hash, principal_id, expires_at"@ + ") VALUES ("@ == "INSERT INTO browser_access_tokens (token_hash, principal_id, expires_at) VALUES ("@);
    lemma_text_130();
    assert("INSERT INTO browser_access_tokens (token_hash, principal_id, expires_at) VALUES ("@ + "?1, ?2, ?3"@ + ")"@ == "INSERT INTO browser_access_tokens (token_hash, principal_id, expires_at) VALUES (?1, ?2, ?3)"@);
    assert("INSERT INTO browser_access_tokens (token_hash, principal_id, expires_at) VALUES (?1, ?2, ?3)"@ + Seq::<char>::empty() =~= "INSERT INTO browser_access_tokens (token_hash, principal_id, expires_at) VALUES (?1, ?2, ?3)"@);
    assert(change_text(access_enter_tree()) == "INSERT INTO browser_access_tokens (token_hash, principal_id, expires_at) VALUES (?1, ?2, ?3)"@);
    assert(change_ok(access_enter_tree())) by {
        lemma_idents();
        reveal_with_fuel(expr_ok, 4);
    }
}

pub open spec fn access_of_end_tree() -> Change {
    Change::Delete { table: "browser_access_tokens"@, cond: Cond::Test(Expr::Column("principal_id"@), Relation::Equal, Expr::Param(1)) }
}

#[verifier::rlimit(30)]
pub proof fn lemma_access_of_end_reads()
    ensures
        change_ok(access_of_end_tree()),
        change_text(access_of_end_tree())
            == "DELETE FROM browser_access_tokens WHERE principal_id = ?1"@,
{
    lemma_params();
    lemma_numbers();
    lemma_text_75();
    assert(cond_text(Cond::Test(Expr::Column("principal_id"@), Relation::Equal, Expr::Param(1))) == "principal_id = ?1"@);
    assert(cond_ok(Cond::Test(Expr::Column("principal_id"@), Relation::Equal, Expr::Param(1)))) by {
        lemma_idents();
        reveal_with_fuel(expr_ok, 4);
    }
    lemma_text_131();
    assert(change_text(access_of_end_tree()) == "DELETE FROM browser_access_tokens WHERE principal_id = ?1"@);
    assert(change_ok(access_of_end_tree())) by {
        lemma_idents();
        reveal_with_fuel(expr_ok, 4);
    }
}

// ---- Indexes and tables ----------------------------------------------------

pub open spec fn index_insert_tree() -> Change {
    Change::Insert {
        table: "_indexes"@,
        columns: seq!["name"@, "collection"@, "path"@, "is_unique"@],
        values: seq![Expr::Param(1), Expr::Param(2), Expr::Param(3), Expr::Param(4)],
        clash: Clash::Refuse,
    }
}

#[verifier::rlimit(30)]
pub proof fn lemma_index_insert_reads()
    ensures
        change_ok(index_insert_tree()),
        change_text(index_insert_tree())
            == "INSERT INTO _indexes (name, collection, path, is_unique) VALUES (?1, ?2, ?3, ?4)"@,
{
    lemma_params();
    lemma_numbers();
    let columns = seq!["name"@, "collection"@, "path"@, "is_unique"@];
    let values = seq![Expr::Param(1), Expr::Param(2), Expr::Param(3), Expr::Param(4)];
    lemma_join4("name"@, "collection"@, "path"@, "is_unique"@, ", "@);
    lemma_text_132();
    assert(join(columns, ", "@) == "name, collection, path, is_unique"@);
    assert(expr_texts(values) =~= seq!["?1"@, "?2"@, "?3"@, "?4"@]);
    lemma_join4("?1"@, "?2"@, "?3"@, "?4"@, ", "@);
    lemma_text_3();
    assert(join(expr_texts(values), ", "@) == "?1, ?2, ?3, ?4"@);
    lemma_text_133();
    assert("INSERT INTO "@ + "_indexes"@ + " ("@ + "name, collection, path, is_unique"@ + ") VALUES ("@ == "INSERT INTO _indexes (name, collection, path, is_unique) VALUES ("@);
    lemma_text_134();
    assert("INSERT INTO _indexes (name, collection, path, is_unique) VALUES ("@ + "?1, ?2, ?3, ?4"@ + ")"@ == "INSERT INTO _indexes (name, collection, path, is_unique) VALUES (?1, ?2, ?3, ?4)"@);
    assert("INSERT INTO _indexes (name, collection, path, is_unique) VALUES (?1, ?2, ?3, ?4)"@ + Seq::<char>::empty() =~= "INSERT INTO _indexes (name, collection, path, is_unique) VALUES (?1, ?2, ?3, ?4)"@);
    assert(change_text(index_insert_tree()) == "INSERT INTO _indexes (name, collection, path, is_unique) VALUES (?1, ?2, ?3, ?4)"@);
    assert(change_ok(index_insert_tree())) by {
        lemma_idents();
        reveal_with_fuel(expr_ok, 4);
    }
}

pub open spec fn index_count_tree() -> Question {
    Question {
        wanted: Wanted::Count,
        table: "_indexes"@,
        cond: Some(Cond::Test(Expr::Column("name"@), Relation::Equal, Expr::Param(1))),
        order: Seq::empty(),
        limit: None,
        offset: None,
    }
}

#[verifier::rlimit(30)]
pub proof fn lemma_index_count_reads()
    ensures
        question_ok(index_count_tree()),
        question_binds(index_count_tree()).len() == 0,
        question_text(index_count_tree())
            == "SELECT count(*) FROM _indexes WHERE name = ?1"@,
{
    lemma_params();
    lemma_numbers();
    lemma_text_94();
    assert(cond_text(Cond::Test(Expr::Column("name"@), Relation::Equal, Expr::Param(1))) == "name = ?1"@);
    assert(cond_ok(Cond::Test(Expr::Column("name"@), Relation::Equal, Expr::Param(1)))) by {
        lemma_idents();
        reveal_with_fuel(expr_ok, 4);
    }
    lemma_text_135();
    assert("SELECT "@ + "count(*)"@ + " FROM "@ + "_indexes"@ == "SELECT count(*) FROM _indexes"@);
    lemma_text_96();
    assert(" WHERE "@ + "name = ?1"@ == " WHERE name = ?1"@);
    assert(question_text(index_count_tree()) == "SELECT count(*) FROM _indexes"@ + " WHERE name = ?1"@ + Seq::<char>::empty() + Seq::<char>::empty() + Seq::<char>::empty());
    assert("SELECT count(*) FROM _indexes"@ + " WHERE name = ?1"@ + Seq::<char>::empty() + Seq::<char>::empty() + Seq::<char>::empty() =~= "SELECT count(*) FROM _indexes"@ + " WHERE name = ?1"@);
    lemma_text_136();
    assert("SELECT count(*) FROM _indexes"@ + " WHERE name = ?1"@ == "SELECT count(*) FROM _indexes WHERE name = ?1"@);
    assert(cond_binds(Cond::Test(Expr::Column("name"@), Relation::Equal, Expr::Param(1))) =~= Seq::empty());
    assert(question_binds(index_count_tree()) =~= Seq::empty());
    assert(question_ok(index_count_tree())) by {
        lemma_idents();
        reveal_with_fuel(expr_ok, 4);
    }
}

pub open spec fn index_delete_tree() -> Change {
    Change::Delete { table: "_indexes"@, cond: Cond::Test(Expr::Column("name"@), Relation::Equal, Expr::Param(1)) }
}

#[verifier::rlimit(30)]
pub proof fn lemma_index_delete_reads()
    ensures
        change_ok(index_delete_tree()),
        change_text(index_delete_tree())
            == "DELETE FROM _indexes WHERE name = ?1"@,
{
    lemma_params();
    lemma_numbers();
    lemma_text_94();
    assert(cond_text(Cond::Test(Expr::Column("name"@), Relation::Equal, Expr::Param(1))) == "name = ?1"@);
    assert(cond_ok(Cond::Test(Expr::Column("name"@), Relation::Equal, Expr::Param(1)))) by {
        lemma_idents();
        reveal_with_fuel(expr_ok, 4);
    }
    lemma_text_137();
    assert(change_text(index_delete_tree()) == "DELETE FROM _indexes WHERE name = ?1"@);
    assert(change_ok(index_delete_tree())) by {
        lemma_idents();
        reveal_with_fuel(expr_ok, 4);
    }
}

pub open spec fn index_list_tree() -> Question {
    Question {
        wanted: Wanted::Cells(seq![Expr::Column("name"@), Expr::Column("collection"@), Expr::Column("path"@), Expr::Column("is_unique"@)]),
        table: "_indexes"@,
        cond: Some(Cond::Test(Expr::Column("collection"@), Relation::Equal, Expr::Param(1))),
        order: seq![(Expr::Column("name"@), Direction::Unsaid)],
        limit: None,
        offset: None,
    }
}

#[verifier::rlimit(30)]
pub proof fn lemma_index_list_reads()
    ensures
        question_ok(index_list_tree()),
        question_binds(index_list_tree()).len() == 0,
        question_text(index_list_tree())
            == "SELECT name, collection, path, is_unique FROM _indexes WHERE collection = ?1 ORDER BY name"@,
{
    lemma_params();
    lemma_numbers();
    let cells = seq![Expr::Column("name"@), Expr::Column("collection"@), Expr::Column("path"@), Expr::Column("is_unique"@)];
    assert(expr_texts(cells) =~= seq!["name"@, "collection"@, "path"@, "is_unique"@]);
    lemma_join4("name"@, "collection"@, "path"@, "is_unique"@, ", "@);
    lemma_text_132();
    assert(join(expr_texts(cells), ", "@) == "name, collection, path, is_unique"@);
    lemma_text_138();
    assert(cond_text(Cond::Test(Expr::Column("collection"@), Relation::Equal, Expr::Param(1))) == "collection = ?1"@);
    assert(cond_ok(Cond::Test(Expr::Column("collection"@), Relation::Equal, Expr::Param(1)))) by {
        lemma_idents();
        reveal_with_fuel(expr_ok, 4);
    }
    let order = seq![(Expr::Column("name"@), Direction::Unsaid)];
    assert("name"@ + Seq::<char>::empty() =~= "name"@);
    assert(order_texts(order) =~= seq!["name"@]);
    lemma_join1("name"@, ", "@);
    lemma_text_139();
    assert("SELECT "@ + "name, collection, path, is_unique"@ + " FROM "@ + "_indexes"@ == "SELECT name, collection, path, is_unique FROM _indexes"@);
    lemma_text_140();
    assert(" WHERE "@ + "collection = ?1"@ == " WHERE collection = ?1"@);
    lemma_text_60();
    assert(" ORDER BY "@ + "name"@ == " ORDER BY name"@);
    assert(join(order_texts(order), ", "@) == "name"@);
    assert(question_text(index_list_tree()) == "SELECT name, collection, path, is_unique FROM _indexes"@ + " WHERE collection = ?1"@ + " ORDER BY name"@ + Seq::<char>::empty() + Seq::<char>::empty());
    assert("SELECT name, collection, path, is_unique FROM _indexes"@ + " WHERE collection = ?1"@ + " ORDER BY name"@ + Seq::<char>::empty() + Seq::<char>::empty() =~= "SELECT name, collection, path, is_unique FROM _indexes"@ + " WHERE collection = ?1"@ + " ORDER BY name"@);
    lemma_text_141();
    assert("SELECT name, collection, path, is_unique FROM _indexes"@ + " WHERE collection = ?1"@ + " ORDER BY name"@ == "SELECT name, collection, path, is_unique FROM _indexes WHERE collection = ?1 ORDER BY name"@);
    assert(cond_binds(Cond::Test(Expr::Column("collection"@), Relation::Equal, Expr::Param(1))) =~= Seq::empty());
    assert(question_binds(index_list_tree()) =~= Seq::empty());
    assert(question_ok(index_list_tree())) by {
        lemma_idents();
        reveal_with_fuel(expr_ok, 4);
    }
}

pub open spec fn table_count_tree() -> Question {
    Question {
        wanted: Wanted::Count,
        table: "sqlite_master"@,
        cond: Some(both(Cond::Tight(Expr::Column("type"@), Relation::Equal, Expr::Quoted("table"@)), Cond::Tight(Expr::Column("name"@), Relation::Equal, Expr::Param(1)))),
        order: Seq::empty(),
        limit: None,
        offset: None,
    }
}

#[verifier::rlimit(30)]
pub proof fn lemma_table_count_reads()
    ensures
        question_ok(table_count_tree()),
        question_binds(table_count_tree()).len() == 0,
        question_text(table_count_tree())
            == "SELECT count(*) FROM sqlite_master WHERE type='table' AND name=?1"@,
{
    lemma_params();
    lemma_numbers();
    lemma_text_142();
    assert(expr_text(Expr::Quoted("table"@)) == "'table'"@);
    assert(quotable("table"@)) by {
        reveal_strlit("table");
    }
    lemma_text_143();
    assert(cond_text(Cond::Tight(Expr::Column("type"@), Relation::Equal, Expr::Quoted("table"@))) == "type='table'"@);
    assert(cond_ok(Cond::Tight(Expr::Column("type"@), Relation::Equal, Expr::Quoted("table"@)))) by {
        lemma_idents();
        reveal_with_fuel(expr_ok, 4);
    }
    lemma_text_144();
    assert(cond_text(Cond::Tight(Expr::Column("name"@), Relation::Equal, Expr::Param(1))) == "name=?1"@);
    assert(cond_ok(Cond::Tight(Expr::Column("name"@), Relation::Equal, Expr::Param(1)))) by {
        lemma_idents();
        reveal_with_fuel(expr_ok, 4);
    }
    lemma_both(Cond::Tight(Expr::Column("type"@), Relation::Equal, Expr::Quoted("table"@)), Cond::Tight(Expr::Column("name"@), Relation::Equal, Expr::Param(1)));
    lemma_text_145();
    assert(cond_text(both(Cond::Tight(Expr::Column("type"@), Relation::Equal, Expr::Quoted("table"@)), Cond::Tight(Expr::Column("name"@), Relation::Equal, Expr::Param(1)))) == "type='table' AND name=?1"@);
    assert(cond_ok(both(Cond::Tight(Expr::Column("type"@), Relation::Equal, Expr::Quoted("table"@)), Cond::Tight(Expr::Column("name"@), Relation::Equal, Expr::Param(1))))) by {
        lemma_idents();
        reveal_with_fuel(expr_ok, 4);
    }
    lemma_text_146();
    assert("SELECT "@ + "count(*)"@ + " FROM "@ + "sqlite_master"@ == "SELECT count(*) FROM sqlite_master"@);
    lemma_text_147();
    assert(" WHERE "@ + "type='table' AND name=?1"@ == " WHERE type='table' AND name=?1"@);
    assert(question_text(table_count_tree()) == "SELECT count(*) FROM sqlite_master"@ + " WHERE type='table' AND name=?1"@ + Seq::<char>::empty() + Seq::<char>::empty() + Seq::<char>::empty());
    assert("SELECT count(*) FROM sqlite_master"@ + " WHERE type='table' AND name=?1"@ + Seq::<char>::empty() + Seq::<char>::empty() + Seq::<char>::empty() =~= "SELECT count(*) FROM sqlite_master"@ + " WHERE type='table' AND name=?1"@);
    lemma_text_148();
    assert("SELECT count(*) FROM sqlite_master"@ + " WHERE type='table' AND name=?1"@ == "SELECT count(*) FROM sqlite_master WHERE type='table' AND name=?1"@);
    assert(cond_binds(both(Cond::Tight(Expr::Column("type"@), Relation::Equal, Expr::Quoted("table"@)), Cond::Tight(Expr::Column("name"@), Relation::Equal, Expr::Param(1)))) =~= Seq::empty());
    assert(question_binds(table_count_tree()) =~= Seq::empty());
    assert(question_ok(table_count_tree())) by {
        lemma_idents();
        reveal_with_fuel(expr_ok, 4);
    }
}

// ---- The change log --------------------------------------------------------

pub open spec fn log_delete_tree() -> Change {
    Change::Insert {
        table: "_changelog"@,
        columns: seq!["collection"@, "op"@, "doc_id"@, "doc"@, "ts"@],
        values: seq![Expr::Param(1), Expr::Param(2), Expr::Param(3), Expr::Null, Expr::Param(4)],
        clash: Clash::Refuse,
    }
}

#[verifier::rlimit(30)]
pub proof fn lemma_log_delete_reads()
    ensures
        change_ok(log_delete_tree()),
        change_text(log_delete_tree())
            == "INSERT INTO _changelog (collection, op, doc_id, doc, ts) VALUES (?1, ?2, ?3, NULL, ?4)"@,
{
    lemma_params();
    lemma_numbers();
    assert(expr_text(Expr::Null) == "NULL"@);
    let columns = seq!["collection"@, "op"@, "doc_id"@, "doc"@, "ts"@];
    let values = seq![Expr::Param(1), Expr::Param(2), Expr::Param(3), Expr::Null, Expr::Param(4)];
    lemma_join5("collection"@, "op"@, "doc_id"@, "doc"@, "ts"@, ", "@);
    lemma_text_149();
    assert(join(columns, ", "@) == "collection, op, doc_id, doc, ts"@);
    assert(expr_texts(values) =~= seq!["?1"@, "?2"@, "?3"@, "NULL"@, "?4"@]);
    lemma_join5("?1"@, "?2"@, "?3"@, "NULL"@, "?4"@, ", "@);
    lemma_text_150();
    assert(join(expr_texts(values), ", "@) == "?1, ?2, ?3, NULL, ?4"@);
    lemma_text_151();
    assert("INSERT INTO "@ + "_changelog"@ + " ("@ + "collection, op, doc_id, doc, ts"@ + ") VALUES ("@ == "INSERT INTO _changelog (collection, op, doc_id, doc, ts) VALUES ("@);
    lemma_text_152();
    assert("INSERT INTO _changelog (collection, op, doc_id, doc, ts) VALUES ("@ + "?1, ?2, ?3, NULL, ?4"@ + ")"@ == "INSERT INTO _changelog (collection, op, doc_id, doc, ts) VALUES (?1, ?2, ?3, NULL, ?4)"@);
    assert("INSERT INTO _changelog (collection, op, doc_id, doc, ts) VALUES (?1, ?2, ?3, NULL, ?4)"@ + Seq::<char>::empty() =~= "INSERT INTO _changelog (collection, op, doc_id, doc, ts) VALUES (?1, ?2, ?3, NULL, ?4)"@);
    assert(change_text(log_delete_tree()) == "INSERT INTO _changelog (collection, op, doc_id, doc, ts) VALUES (?1, ?2, ?3, NULL, ?4)"@);
    assert(change_ok(log_delete_tree())) by {
        lemma_idents();
        reveal_with_fuel(expr_ok, 4);
    }
}

pub open spec fn log_text_tree() -> Change {
    Change::Insert {
        table: "_changelog"@,
        columns: seq!["collection"@, "op"@, "doc_id"@, "doc"@, "ts"@],
        values: seq![Expr::Param(1), Expr::Param(2), Expr::Param(3), Expr::Call1("json"@, Box::new(Expr::Param(4))), Expr::Param(5)],
        clash: Clash::Refuse,
    }
}

#[verifier::rlimit(30)]
pub proof fn lemma_log_text_reads()
    ensures
        change_ok(log_text_tree()),
        change_text(log_text_tree())
            == "INSERT INTO _changelog (collection, op, doc_id, doc, ts) VALUES (?1, ?2, ?3, json(?4), ?5)"@,
{
    lemma_params();
    lemma_numbers();
    assert(expr_text(Expr::Param(4)) == "?4"@);
    lemma_text_153();
    assert(expr_text(Expr::Call1("json"@, Box::new(Expr::Param(4)))) == "json(?4)"@);
    assert(expr_binds(Expr::Call1("json"@, Box::new(Expr::Param(4)))) =~= Seq::empty()) by {
        reveal_with_fuel(expr_binds, 5);
    }
    let columns = seq!["collection"@, "op"@, "doc_id"@, "doc"@, "ts"@];
    let values = seq![Expr::Param(1), Expr::Param(2), Expr::Param(3), Expr::Call1("json"@, Box::new(Expr::Param(4))), Expr::Param(5)];
    lemma_join5("collection"@, "op"@, "doc_id"@, "doc"@, "ts"@, ", "@);
    lemma_text_149();
    assert(join(columns, ", "@) == "collection, op, doc_id, doc, ts"@);
    assert(expr_texts(values) =~= seq!["?1"@, "?2"@, "?3"@, "json(?4)"@, "?5"@]);
    lemma_join5("?1"@, "?2"@, "?3"@, "json(?4)"@, "?5"@, ", "@);
    lemma_text_154();
    assert(join(expr_texts(values), ", "@) == "?1, ?2, ?3, json(?4), ?5"@);
    lemma_text_151();
    assert("INSERT INTO "@ + "_changelog"@ + " ("@ + "collection, op, doc_id, doc, ts"@ + ") VALUES ("@ == "INSERT INTO _changelog (collection, op, doc_id, doc, ts) VALUES ("@);
    lemma_text_155();
    assert("INSERT INTO _changelog (collection, op, doc_id, doc, ts) VALUES ("@ + "?1, ?2, ?3, json(?4), ?5"@ + ")"@ == "INSERT INTO _changelog (collection, op, doc_id, doc, ts) VALUES (?1, ?2, ?3, json(?4), ?5)"@);
    assert("INSERT INTO _changelog (collection, op, doc_id, doc, ts) VALUES (?1, ?2, ?3, json(?4), ?5)"@ + Seq::<char>::empty() =~= "INSERT INTO _changelog (collection, op, doc_id, doc, ts) VALUES (?1, ?2, ?3, json(?4), ?5)"@);
    assert(change_text(log_text_tree()) == "INSERT INTO _changelog (collection, op, doc_id, doc, ts) VALUES (?1, ?2, ?3, json(?4), ?5)"@);
    assert(change_ok(log_text_tree())) by {
        lemma_idents();
        reveal_with_fuel(expr_ok, 4);
    }
}

pub open spec fn log_binary_tree() -> Change {
    Change::Insert {
        table: "_changelog"@,
        columns: seq!["collection"@, "op"@, "doc_id"@, "doc"@, "ts"@],
        values: seq![Expr::Param(1), Expr::Param(2), Expr::Param(3), Expr::Call1("jsonb"@, Box::new(Expr::Param(4))), Expr::Param(5)],
        clash: Clash::Refuse,
    }
}

#[verifier::rlimit(30)]
pub proof fn lemma_log_binary_reads()
    ensures
        change_ok(log_binary_tree()),
        change_text(log_binary_tree())
            == "INSERT INTO _changelog (collection, op, doc_id, doc, ts) VALUES (?1, ?2, ?3, jsonb(?4), ?5)"@,
{
    lemma_params();
    lemma_numbers();
    assert(expr_text(Expr::Param(4)) == "?4"@);
    lemma_text_156();
    assert(expr_text(Expr::Call1("jsonb"@, Box::new(Expr::Param(4)))) == "jsonb(?4)"@);
    assert(expr_binds(Expr::Call1("jsonb"@, Box::new(Expr::Param(4)))) =~= Seq::empty()) by {
        reveal_with_fuel(expr_binds, 5);
    }
    let columns = seq!["collection"@, "op"@, "doc_id"@, "doc"@, "ts"@];
    let values = seq![Expr::Param(1), Expr::Param(2), Expr::Param(3), Expr::Call1("jsonb"@, Box::new(Expr::Param(4))), Expr::Param(5)];
    lemma_join5("collection"@, "op"@, "doc_id"@, "doc"@, "ts"@, ", "@);
    lemma_text_149();
    assert(join(columns, ", "@) == "collection, op, doc_id, doc, ts"@);
    assert(expr_texts(values) =~= seq!["?1"@, "?2"@, "?3"@, "jsonb(?4)"@, "?5"@]);
    lemma_join5("?1"@, "?2"@, "?3"@, "jsonb(?4)"@, "?5"@, ", "@);
    lemma_text_157();
    assert(join(expr_texts(values), ", "@) == "?1, ?2, ?3, jsonb(?4), ?5"@);
    lemma_text_151();
    assert("INSERT INTO "@ + "_changelog"@ + " ("@ + "collection, op, doc_id, doc, ts"@ + ") VALUES ("@ == "INSERT INTO _changelog (collection, op, doc_id, doc, ts) VALUES ("@);
    lemma_text_158();
    assert("INSERT INTO _changelog (collection, op, doc_id, doc, ts) VALUES ("@ + "?1, ?2, ?3, jsonb(?4), ?5"@ + ")"@ == "INSERT INTO _changelog (collection, op, doc_id, doc, ts) VALUES (?1, ?2, ?3, jsonb(?4), ?5)"@);
    assert("INSERT INTO _changelog (collection, op, doc_id, doc, ts) VALUES (?1, ?2, ?3, jsonb(?4), ?5)"@ + Seq::<char>::empty() =~= "INSERT INTO _changelog (collection, op, doc_id, doc, ts) VALUES (?1, ?2, ?3, jsonb(?4), ?5)"@);
    assert(change_text(log_binary_tree()) == "INSERT INTO _changelog (collection, op, doc_id, doc, ts) VALUES (?1, ?2, ?3, jsonb(?4), ?5)"@);
    assert(change_ok(log_binary_tree())) by {
        lemma_idents();
        reveal_with_fuel(expr_ok, 4);
    }
}

pub open spec fn missed_tree() -> Question {
    Question {
        wanted: Wanted::Cells(seq![Expr::Column("seq"@), Expr::Column("op"@), Expr::Column("doc_id"@), Expr::Call1("json"@, Box::new(Expr::Column("doc"@)))]),
        table: "_changelog"@,
        cond: Some(both(Cond::Test(Expr::Column("seq"@), Relation::Greater, Expr::Param(1)), Cond::Test(Expr::Column("collection"@), Relation::Equal, Expr::Param(2)))),
        order: seq![(Expr::Column("seq"@), Direction::Unsaid)],
        limit: None,
        offset: None,
    }
}

#[verifier::rlimit(30)]
pub proof fn lemma_missed_reads()
    ensures
        question_ok(missed_tree()),
        question_binds(missed_tree()).len() == 0,
        question_text(missed_tree())
            == "SELECT seq, op, doc_id, json(doc) FROM _changelog WHERE seq > ?1 AND collection = ?2 ORDER BY seq"@,
{
    lemma_params();
    lemma_numbers();
    assert(expr_text(Expr::Column("doc"@)) == "doc"@);
    lemma_text_159();
    assert(expr_text(Expr::Call1("json"@, Box::new(Expr::Column("doc"@)))) == "json(doc)"@);
    assert(expr_binds(Expr::Call1("json"@, Box::new(Expr::Column("doc"@)))) =~= Seq::empty()) by {
        reveal_with_fuel(expr_binds, 5);
    }
    let cells = seq![Expr::Column("seq"@), Expr::Column("op"@), Expr::Column("doc_id"@), Expr::Call1("json"@, Box::new(Expr::Column("doc"@)))];
    assert(expr_texts(cells) =~= seq!["seq"@, "op"@, "doc_id"@, "json(doc)"@]);
    lemma_join4("seq"@, "op"@, "doc_id"@, "json(doc)"@, ", "@);
    lemma_text_160();
    assert(join(expr_texts(cells), ", "@) == "seq, op, doc_id, json(doc)"@);
    lemma_text_161();
    assert(cond_text(Cond::Test(Expr::Column("seq"@), Relation::Greater, Expr::Param(1))) == "seq > ?1"@);
    assert(cond_ok(Cond::Test(Expr::Column("seq"@), Relation::Greater, Expr::Param(1)))) by {
        lemma_idents();
        reveal_with_fuel(expr_ok, 4);
    }
    lemma_text_162();
    assert(cond_text(Cond::Test(Expr::Column("collection"@), Relation::Equal, Expr::Param(2))) == "collection = ?2"@);
    assert(cond_ok(Cond::Test(Expr::Column("collection"@), Relation::Equal, Expr::Param(2)))) by {
        lemma_idents();
        reveal_with_fuel(expr_ok, 4);
    }
    lemma_both(Cond::Test(Expr::Column("seq"@), Relation::Greater, Expr::Param(1)), Cond::Test(Expr::Column("collection"@), Relation::Equal, Expr::Param(2)));
    lemma_text_163();
    assert(cond_text(both(Cond::Test(Expr::Column("seq"@), Relation::Greater, Expr::Param(1)), Cond::Test(Expr::Column("collection"@), Relation::Equal, Expr::Param(2)))) == "seq > ?1 AND collection = ?2"@);
    assert(cond_ok(both(Cond::Test(Expr::Column("seq"@), Relation::Greater, Expr::Param(1)), Cond::Test(Expr::Column("collection"@), Relation::Equal, Expr::Param(2))))) by {
        lemma_idents();
        reveal_with_fuel(expr_ok, 4);
    }
    let order = seq![(Expr::Column("seq"@), Direction::Unsaid)];
    assert("seq"@ + Seq::<char>::empty() =~= "seq"@);
    assert(order_texts(order) =~= seq!["seq"@]);
    lemma_join1("seq"@, ", "@);
    lemma_text_164();
    assert("SELECT "@ + "seq, op, doc_id, json(doc)"@ + " FROM "@ + "_changelog"@ == "SELECT seq, op, doc_id, json(doc) FROM _changelog"@);
    lemma_text_165();
    assert(" WHERE "@ + "seq > ?1 AND collection = ?2"@ == " WHERE seq > ?1 AND collection = ?2"@);
    lemma_text_166();
    assert(" ORDER BY "@ + "seq"@ == " ORDER BY seq"@);
    assert(join(order_texts(order), ", "@) == "seq"@);
    assert(question_text(missed_tree()) == "SELECT seq, op, doc_id, json(doc) FROM _changelog"@ + " WHERE seq > ?1 AND collection = ?2"@ + " ORDER BY seq"@ + Seq::<char>::empty() + Seq::<char>::empty());
    assert("SELECT seq, op, doc_id, json(doc) FROM _changelog"@ + " WHERE seq > ?1 AND collection = ?2"@ + " ORDER BY seq"@ + Seq::<char>::empty() + Seq::<char>::empty() =~= "SELECT seq, op, doc_id, json(doc) FROM _changelog"@ + " WHERE seq > ?1 AND collection = ?2"@ + " ORDER BY seq"@);
    lemma_text_167();
    assert("SELECT seq, op, doc_id, json(doc) FROM _changelog"@ + " WHERE seq > ?1 AND collection = ?2"@ + " ORDER BY seq"@ == "SELECT seq, op, doc_id, json(doc) FROM _changelog WHERE seq > ?1 AND collection = ?2 ORDER BY seq"@);
    assert(cond_binds(both(Cond::Test(Expr::Column("seq"@), Relation::Greater, Expr::Param(1)), Cond::Test(Expr::Column("collection"@), Relation::Equal, Expr::Param(2)))) =~= Seq::empty());
    assert(question_binds(missed_tree()) =~= Seq::empty());
    assert(question_ok(missed_tree())) by {
        lemma_idents();
        reveal_with_fuel(expr_ok, 4);
    }
}

pub open spec fn newest_tree() -> Question {
    Question {
        wanted: Wanted::Greatest("seq"@),
        table: "_changelog"@,
        cond: None,
        order: Seq::empty(),
        limit: None,
        offset: None,
    }
}

#[verifier::rlimit(30)]
pub proof fn lemma_newest_reads()
    ensures
        question_ok(newest_tree()),
        question_binds(newest_tree()).len() == 0,
        question_text(newest_tree())
            == "SELECT COALESCE(MAX(seq), 0) FROM _changelog"@,
{
    lemma_params();
    lemma_numbers();
    lemma_text_168();
    assert(wanted_text(Wanted::Greatest("seq"@)) == "COALESCE(MAX(seq), 0)"@);
    lemma_text_169();
    assert("SELECT "@ + "COALESCE(MAX(seq), 0)"@ + " FROM "@ + "_changelog"@ == "SELECT COALESCE(MAX(seq), 0) FROM _changelog"@);
    assert(question_text(newest_tree()) == "SELECT COALESCE(MAX(seq), 0) FROM _changelog"@ + Seq::<char>::empty() + Seq::<char>::empty() + Seq::<char>::empty() + Seq::<char>::empty());
    assert("SELECT COALESCE(MAX(seq), 0) FROM _changelog"@ + Seq::<char>::empty() + Seq::<char>::empty() + Seq::<char>::empty() + Seq::<char>::empty() =~= "SELECT COALESCE(MAX(seq), 0) FROM _changelog"@);
    assert(question_binds(newest_tree()) =~= Seq::empty());
    assert(question_ok(newest_tree())) by {
        lemma_idents();
        reveal_with_fuel(expr_ok, 4);
    }
}

pub open spec fn oldest_tree() -> Question {
    Question {
        wanted: Wanted::Least("seq"@),
        table: "_changelog"@,
        cond: None,
        order: Seq::empty(),
        limit: None,
        offset: None,
    }
}

#[verifier::rlimit(30)]
pub proof fn lemma_oldest_reads()
    ensures
        question_ok(oldest_tree()),
        question_binds(oldest_tree()).len() == 0,
        question_text(oldest_tree())
            == "SELECT MIN(seq) FROM _changelog"@,
{
    lemma_params();
    lemma_numbers();
    lemma_text_170();
    assert(wanted_text(Wanted::Least("seq"@)) == "MIN(seq)"@);
    lemma_text_171();
    assert("SELECT "@ + "MIN(seq)"@ + " FROM "@ + "_changelog"@ == "SELECT MIN(seq) FROM _changelog"@);
    assert(question_text(oldest_tree()) == "SELECT MIN(seq) FROM _changelog"@ + Seq::<char>::empty() + Seq::<char>::empty() + Seq::<char>::empty() + Seq::<char>::empty());
    assert("SELECT MIN(seq) FROM _changelog"@ + Seq::<char>::empty() + Seq::<char>::empty() + Seq::<char>::empty() + Seq::<char>::empty() =~= "SELECT MIN(seq) FROM _changelog"@);
    assert(question_binds(oldest_tree()) =~= Seq::empty());
    assert(question_ok(oldest_tree())) by {
        lemma_idents();
        reveal_with_fuel(expr_ok, 4);
    }
}

} // verus!
