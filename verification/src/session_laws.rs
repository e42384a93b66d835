//! What holds of the sessions of browsers over several runs.
//!
//! The table of sessions is taken as its statements describe it: a row for each hash of
//! a refresh token, which a statement enters, ends, or finds. Over such a table it is
//! shown what a renewal leaves to those that come after it.

use crate::sessions::{
    expiry, expiry_fits, issue_next, issue_start, issue_statements, rotate_asks, rotate_next,
    seeded_tokens, RotateStageView, RotateView, SeedView,
};
use crate::sequence::sequence_complete;
use crate::sql::{ReplyView, StatementView, ValueView};
use crate::tokens::token_hash;
use vstd::prelude::*;

verus! {

/// A session as it is stored.
#[verifier::ext_equal]
pub struct SessionRow {
    pub principal_id: Seq<char>,
    pub csrf_hash: Seq<char>,
    pub expires_at: i64,
}

/// The stored sessions, by the hashes of their refresh tokens.
pub type Sessions = Map<Seq<char>, SessionRow>;

pub open spec fn finds(s: StatementView) -> bool {
    s.sql
        == "SELECT principal_id FROM browser_sessions WHERE token_hash = ?1 AND csrf_hash = ?2 AND expires_at > ?3"@
}

pub open spec fn ends_one(s: StatementView) -> bool {
    s.sql == "DELETE FROM browser_sessions WHERE token_hash = ?1"@
}

pub open spec fn clears_expired(s: StatementView) -> bool {
    s.sql == "DELETE FROM browser_sessions WHERE expires_at <= ?1"@
}

pub open spec fn enters(s: StatementView) -> bool {
    s.sql
        == "INSERT INTO browser_sessions (token_hash, principal_id, csrf_hash, expires_at, created_at) VALUES (?1, ?2, ?3, ?4, ?5)"@
}

/// The session that a statement which finds one is answered with.
pub open spec fn found(t: Sessions, s: StatementView) -> Option<Seq<char>> {
    let key = s.params[0]->Text_0;
    if t.contains_key(key) && t[key].csrf_hash == s.params[1]->Text_0 && t[key].expires_at
        > s.params[2]->Integer_0 {
        Some(t[key].principal_id)
    } else {
        None
    }
}

/// What the table answers to a statement.
pub open spec fn table_reply(t: Sessions, s: StatementView) -> ReplyView {
    if finds(s) {
        ReplyView::Rows(
            match found(t, s) {
                Some(id) => seq![seq![ValueView::Text(id)]],
                None => Seq::empty(),
            },
        )
    } else if enters(s) && t.contains_key(s.params[0]->Text_0) {
        ReplyView::Failed { unique: true }
    } else {
        ReplyView::Changed { rows: 1, last_rowid: 1 }
    }
}

/// The table after a statement. Statements on other tables leave it as it is.
pub open spec fn table_after(t: Sessions, s: StatementView) -> Sessions {
    if ends_one(s) {
        t.remove(s.params[0]->Text_0)
    } else if clears_expired(s) {
        t.restrict(
            Set::new(|k: Seq<char>| t.contains_key(k) && t[k].expires_at > s.params[0]->Integer_0),
        )
    } else if enters(s) && !t.contains_key(s.params[0]->Text_0) {
        t.insert(
            s.params[0]->Text_0,
            SessionRow {
                principal_id: s.params[1]->Text_0,
                csrf_hash: s.params[2]->Text_0,
                expires_at: s.params[3]->Integer_0,
            },
        )
    } else {
        t
    }
}

/// A renewal and the table, after at most `steps` statements.
pub open spec fn driven(s: RotateView, t: Sessions, seed: SeedView, steps: nat) -> (
    RotateView,
    Sessions,
)
    decreases steps,
{
    if steps == 0 {
        (s, t)
    } else {
        match rotate_asks(s) {
            None => (s, t),
            Some(asked) => driven(
                RotateView { stage: rotate_next(s, table_reply(t, asked), seed), ..s },
                table_after(t, asked),
                seed,
                (steps - 1) as nat,
            ),
        }
    }
}

/// How many statements a renewal takes at most.
pub open spec fn renewal_steps() -> nat {
    6
}

/// A renewal with the given secrets, begun at the time `now`.
pub open spec fn renewal(
    refresh: Seq<char>,
    csrf: Seq<char>,
    now: i64,
    access_ttl: i64,
    refresh_ttl: i64,
) -> RotateView {
    RotateView {
        refresh_hash: token_hash(refresh),
        csrf_hash: token_hash(csrf),
        now,
        access_ttl,
        refresh_ttl,
        stage: RotateStageView::Find,
    }
}

/// There is a session that the secrets renew at the time `now`.
pub open spec fn usable(t: Sessions, refresh: Seq<char>, csrf: Seq<char>, now: i64) -> bool {
    let key = token_hash(refresh);
    t.contains_key(key) && t[key].csrf_hash == token_hash(csrf) && t[key].expires_at > now
}

/// The texts of the statements differ from one another.
proof fn lemma_texts_differ()
    ensures
        ({
            let find = "SELECT principal_id FROM browser_sessions WHERE token_hash = ?1 AND csrf_hash = ?2 AND expires_at > ?3"@;
            let end = "DELETE FROM browser_sessions WHERE token_hash = ?1"@;
            let clear = "DELETE FROM browser_sessions WHERE expires_at <= ?1"@;
            let enter = "INSERT INTO browser_sessions (token_hash, principal_id, csrf_hash, expires_at, created_at) VALUES (?1, ?2, ?3, ?4, ?5)"@;
            let clear_access = "DELETE FROM browser_access_tokens WHERE expires_at <= ?1"@;
            let enter_access = "INSERT INTO browser_access_tokens (token_hash, principal_id, expires_at) VALUES (?1, ?2, ?3)"@;
            &&& find != end && find != clear && find != enter && end != clear && end != enter
                && clear != enter
            &&& clear_access != find && clear_access != end && clear_access != clear
                && clear_access != enter
            &&& enter_access != find && enter_access != end && enter_access != clear
                && enter_access != enter
        }),
{
    reveal_strlit(
        "SELECT principal_id FROM browser_sessions WHERE token_hash = ?1 AND csrf_hash = ?2 AND expires_at > ?3",
    );
    reveal_strlit("DELETE FROM browser_sessions WHERE token_hash = ?1");
    reveal_strlit("DELETE FROM browser_sessions WHERE expires_at <= ?1");
    reveal_strlit(
        "INSERT INTO browser_sessions (token_hash, principal_id, csrf_hash, expires_at, created_at) VALUES (?1, ?2, ?3, ?4, ?5)",
    );
    reveal_strlit("DELETE FROM browser_access_tokens WHERE expires_at <= ?1");
    reveal_strlit(
        "INSERT INTO browser_access_tokens (token_hash, principal_id, expires_at) VALUES (?1, ?2, ?3)",
    );
    assert("SELECT principal_id FROM browser_sessions WHERE token_hash = ?1 AND csrf_hash = ?2 AND expires_at > ?3"@.len() == 102);
    assert("DELETE FROM browser_sessions WHERE token_hash = ?1"@.len() == 50);
    assert("DELETE FROM browser_sessions WHERE expires_at <= ?1"@.len() == 51);
    assert("INSERT INTO browser_sessions (token_hash, principal_id, csrf_hash, expires_at, created_at) VALUES (?1, ?2, ?3, ?4, ?5)"@.len() == 118);
    assert("DELETE FROM browser_access_tokens WHERE expires_at <= ?1"@.len() == 56);
    assert("INSERT INTO browser_access_tokens (token_hash, principal_id, expires_at) VALUES (?1, ?2, ?3)"@.len() == 92);
}

/// The sessions that have not run out at the time `now`.
pub open spec fn unexpired(t: Sessions, now: i64) -> Sessions {
    t.restrict(Set::new(|k: Seq<char>| t.contains_key(k) && t[k].expires_at > now))
}

/// The renewal has succeeded.
pub open spec fn renewed(s: RotateView) -> bool {
    s.stage matches RotateStageView::Issue { run, .. } && sequence_complete(run.run)
}

/// The session that a renewal of one of `principal_id` begins.
pub open spec fn fresh_row(
    principal_id: Seq<char>,
    seed: SeedView,
    refresh_ttl: i64,
) -> SessionRow {
    SessionRow {
        principal_id,
        csrf_hash: token_hash(seeded_tokens(seed).csrf),
        expires_at: expiry(seed.now, refresh_ttl) as i64,
    }
}

/// What the beginning of a session comes to: the session is entered unless another with
/// the same hash is stored.
proof fn lemma_session_is_entered(s: RotateView, id: Seq<char>, t: Sessions, seed: SeedView)
    requires
        issue_start(id, seed, s.access_ttl, s.refresh_ttl) matches Some(run) && s.stage
            == (RotateStageView::Issue { id, run }),
    ensures
        ({
            let (end, after) = driven(s, t, seed, 4);
            let key = token_hash(seeded_tokens(seed).refresh);
            let kept = unexpired(t, seed.now);
            &&& end.stage matches RotateStageView::Issue { id: whose, run } && whose == id
                && run.tokens == seeded_tokens(seed)
            &&& renewed(end) <==> !kept.contains_key(key)
            &&& renewed(end) ==> after == kept.insert(key, fresh_row(id, seed, s.refresh_ttl))
        }),
{
    lemma_texts_differ();
    let tokens = seeded_tokens(seed);
    let todo = issue_statements(id, tokens, seed.now, s.access_ttl, s.refresh_ttl);
    let run0 = issue_start(id, seed, s.access_ttl, s.refresh_ttl)->0;
    let ok = ReplyView::Changed { rows: 1, last_rowid: 1 };
    let run1 = issue_next(run0, ok);
    let run2 = issue_next(run1, ok);
    let run3 = issue_next(run2, ok);
    assert(run0.run.todo == todo);
    assert(run1.run.todo =~= todo.skip(1));
    assert(run2.run.todo =~= todo.skip(2));
    assert(run3.run.todo =~= todo.skip(3));
    let s1 = RotateView { stage: RotateStageView::Issue { id, run: run1 }, ..s };
    let s2 = RotateView { stage: RotateStageView::Issue { id, run: run2 }, ..s };
    let s3 = RotateView { stage: RotateStageView::Issue { id, run: run3 }, ..s };
    let kept = table_after(t, todo[1]);
    assert(kept =~= unexpired(t, seed.now));
    assert(driven(s, t, seed, 4) == driven(s1, t, seed, 3));
    assert(driven(s1, t, seed, 3) == driven(s2, kept, seed, 2));
    assert(driven(s2, kept, seed, 2) == driven(s3, kept, seed, 1));
    let last = table_reply(kept, todo[3]);
    let run4 = issue_next(run3, last);
    let s4 = RotateView { stage: RotateStageView::Issue { id, run: run4 }, ..s };
    let after = table_after(kept, todo[3]);
    assert(driven(s3, kept, seed, 1) == driven(s4, after, seed, 0));
    assert(driven(s4, after, seed, 0) == (s4, after));
    if !kept.contains_key(token_hash(tokens.refresh)) {
        assert(run4.run.todo =~= todo.skip(4));
    }
}

/// What a renewal with the secrets of a usable session comes to: a new session of the
/// same principal, with new secrets, in place of the old one. It fails only where the
/// end of the session cannot be written down, or where another session is stored under
/// the hash of the new refresh token.
proof fn lemma_renewal(
    t: Sessions,
    refresh: Seq<char>,
    csrf: Seq<char>,
    now: i64,
    access_ttl: i64,
    refresh_ttl: i64,
    seed: SeedView,
)
    requires
        usable(t, refresh, csrf, now),
    ensures
        ({
            let (end, after) = driven(
                renewal(refresh, csrf, now, access_ttl, refresh_ttl),
                t,
                seed,
                renewal_steps(),
            );
            let id = t[token_hash(refresh)].principal_id;
            let key = token_hash(seeded_tokens(seed).refresh);
            let kept = unexpired(t.remove(token_hash(refresh)), seed.now);
            &&& !(end.stage is Unknown)
            &&& renewed(end) <==> expiry_fits(seed.now, access_ttl) && expiry_fits(
                seed.now,
                refresh_ttl,
            ) && !kept.contains_key(key)
            &&& renewed(end) ==> {
                &&& end.stage matches RotateStageView::Issue { id: whose, run } && whose == id
                    && run.tokens == seeded_tokens(seed)
                &&& after == kept.insert(key, fresh_row(id, seed, refresh_ttl))
            }
        }),
{
    lemma_texts_differ();
    let s = renewal(refresh, csrf, now, access_ttl, refresh_ttl);
    let id = t[token_hash(refresh)].principal_id;
    let find = rotate_asks(s)->0;
    assert(found(t, find) == Some(id));
    let first = table_reply(t, find);
    assert(first == ReplyView::Rows(seq![seq![ValueView::Text(id)]]));
    let s1 = RotateView { stage: RotateStageView::Drop(id), ..s };
    assert(rotate_next(s, first, seed) == s1.stage);
    assert(driven(s, t, seed, 6) == driven(s1, t, seed, 5));
    let rest = t.remove(token_hash(refresh));
    match issue_start(id, seed, access_ttl, refresh_ttl) {
        Some(run) => {
            let s2 = RotateView { stage: RotateStageView::Issue { id, run }, ..s };
            assert(driven(s1, t, seed, 5) == driven(s2, rest, seed, 4));
            lemma_session_is_entered(s2, id, rest, seed);
        },
        None => {
            let s2 = RotateView { stage: RotateStageView::Refused, ..s };
            assert(driven(s1, t, seed, 5) == driven(s2, rest, seed, 4));
            assert(rotate_asks(s2) is None);
            assert(driven(s2, rest, seed, 4) == (s2, rest));
        },
    }
}

/// A session is renewed once. After a renewal that has succeeded, the old refresh token
/// finds nothing, at any time and whatever CSRF token goes with it, and changes nothing,
/// unless chance gave both secrets once more. The new secrets, as long as they have not
/// run out, find the session of the same principal, and renew it; that fails only where
/// the end of the session cannot be written down, or where chance gave the refresh token
/// of another session.
pub proof fn law_session_is_renewed_once(
    t: Sessions,
    refresh: Seq<char>,
    csrf: Seq<char>,
    now: i64,
    access_ttl: i64,
    refresh_ttl: i64,
    seed: SeedView,
    other_csrf: Seq<char>,
    later: i64,
    next_seed: SeedView,
)
    requires
        renewed(
            driven(
                renewal(refresh, csrf, now, access_ttl, refresh_ttl),
                t,
                seed,
                renewal_steps(),
            ).0,
        ),
    ensures
        ({
            let (end, after) = driven(
                renewal(refresh, csrf, now, access_ttl, refresh_ttl),
                t,
                seed,
                renewal_steps(),
            );
            let fresh = seeded_tokens(seed);
            let id = t[token_hash(refresh)].principal_id;
            let (again, left) = driven(
                renewal(refresh, other_csrf, later, access_ttl, refresh_ttl),
                after,
                next_seed,
                renewal_steps(),
            );
            let (third, _) = driven(
                renewal(fresh.refresh, fresh.csrf, later, access_ttl, refresh_ttl),
                after,
                next_seed,
                renewal_steps(),
            );
            let others = unexpired(after.remove(token_hash(fresh.refresh)), next_seed.now);
            &&& usable(t, refresh, csrf, now)
            &&& end.stage matches RotateStageView::Issue { id: whose, run } && whose == id
                && run.tokens == fresh
            &&& !(token_hash(fresh.refresh) == token_hash(refresh) && token_hash(fresh.csrf)
                == token_hash(other_csrf)) ==> again.stage is Unknown && left == after
            &&& later < expiry(seed.now, refresh_ttl) ==> {
                &&& usable(after, fresh.refresh, fresh.csrf, later)
                &&& !(third.stage is Unknown)
                &&& renewed(third) ==> (third.stage matches RotateStageView::Issue {
                    id: whose,
                    run,
                } && whose == id && run.tokens == seeded_tokens(next_seed))
                &&& renewed(third) <==> expiry_fits(next_seed.now, access_ttl) && expiry_fits(
                    next_seed.now,
                    refresh_ttl,
                ) && !others.contains_key(token_hash(seeded_tokens(next_seed).refresh))
            }
        }),
{
    if !usable(t, refresh, csrf, now) {
        lemma_refused(t, refresh, csrf, now, access_ttl, refresh_ttl, seed);
    }
    lemma_renewal(t, refresh, csrf, now, access_ttl, refresh_ttl, seed);
    let (end, after) = driven(
        renewal(refresh, csrf, now, access_ttl, refresh_ttl),
        t,
        seed,
        renewal_steps(),
    );
    let fresh = seeded_tokens(seed);
    if !(token_hash(fresh.refresh) == token_hash(refresh) && token_hash(fresh.csrf) == token_hash(
        other_csrf,
    )) {
        assert(!usable(after, refresh, other_csrf, later));
        lemma_refused(after, refresh, other_csrf, later, access_ttl, refresh_ttl, next_seed);
    }
    if later < expiry(seed.now, refresh_ttl) {
        assert(usable(after, fresh.refresh, fresh.csrf, later));
        lemma_renewal(
            after,
            fresh.refresh,
            fresh.csrf,
            later,
            access_ttl,
            refresh_ttl,
            next_seed,
        );
    }
}

/// A renewal that finds no session changes nothing.
proof fn lemma_refused(
    t: Sessions,
    refresh: Seq<char>,
    csrf: Seq<char>,
    now: i64,
    access_ttl: i64,
    refresh_ttl: i64,
    seed: SeedView,
)
    requires
        !usable(t, refresh, csrf, now),
    ensures
        ({
            let (end, after) = driven(
                renewal(refresh, csrf, now, access_ttl, refresh_ttl),
                t,
                seed,
                renewal_steps(),
            );
            end.stage is Unknown && after == t
        }),
{
    lemma_texts_differ();
    let s = renewal(refresh, csrf, now, access_ttl, refresh_ttl);
    let find = rotate_asks(s)->0;
    assert(found(t, find) is None);
    assert(table_reply(t, find) == ReplyView::Rows(Seq::empty()));
    let s1 = RotateView { stage: RotateStageView::Unknown, ..s };
    assert(driven(s, t, seed, 6) == driven(s1, t, seed, 5));
    assert(rotate_asks(s1) is None);
}

/// A wrong CSRF token renews nothing and leaves the session usable with the right one.
pub proof fn law_wrong_csrf_token_leaves_the_session(
    t: Sessions,
    refresh: Seq<char>,
    csrf: Seq<char>,
    wrong: Seq<char>,
    now: i64,
    access_ttl: i64,
    refresh_ttl: i64,
    seed: SeedView,
)
    requires
        usable(t, refresh, csrf, now),
        token_hash(wrong) != token_hash(csrf),
    ensures
        ({
            let (end, after) = driven(
                renewal(refresh, wrong, now, access_ttl, refresh_ttl),
                t,
                seed,
                renewal_steps(),
            );
            end.stage is Unknown && after == t && usable(after, refresh, csrf, now)
        }),
{
    lemma_refused(t, refresh, wrong, now, access_ttl, refresh_ttl, seed);
}

} // verus!
