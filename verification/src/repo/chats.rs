//! Statements of the chat session repository.
use vstd::prelude::*;
use vstd::string::*;

use crate::clock::{is_ulid_text, new_ulid, utc_now};
use crate::model::{ChatSessionInput, ChatSessionUpdate, Pagination, Timestamp};
use crate::binding::{bare_pieces, binds_numbered, insert_layout, insert_sql, inserts, lemma_inserts_numbered, lemma_numbered_join_binds, lemma_update_binds_member, numbered_join, plain_items};
use crate::sql::{comma_list, 
    opt_set, opt_text, opt_text_value, statement, text, text_or_null, text_view,
    update_statement, values_view, Binding, SqlValue, SqlValueView, Statement, StatementView,
    UpdateBuilder,
};
use crate::text::{decimal, owned};

verus! {

/// The insert made by `create_chat_session` for a given identifier and time.
pub open spec fn create_chat_session_statement(id: Seq<char>, now: Timestamp, uid: &str, input: ChatSessionInput) -> StatementView {
    StatementView {
        sql: "INSERT INTO chat_sessions (id, uid, title, model_id, created_at, updated_at) VALUES (?1, ?2, ?3, ?4, ?5, ?6)"@,
        params: seq![SqlValueView::Text(id), SqlValueView::Text(uid@), SqlValueView::Text(input.title@), opt_text(input.model_id), SqlValueView::DateTime(now), SqlValueView::DateTime(now)],
    }
}

/// Builds the insert of a new chat session.
#[verifier::rlimit(100)]
proof fn lemma_create_chat_session_at_columns(st: StatementView)
    requires
        st.sql == "INSERT INTO chat_sessions (id, uid, title, model_id, created_at, updated_at) VALUES (?1, ?2, ?3, ?4, ?5, ?6)"@,
        st.params.len() >= 6,
    ensures
        inserts(st, "id"@, st.params[0]),
        inserts(st, "uid"@, st.params[1]),
        inserts(st, "title"@, st.params[2]),
        inserts(st, "model_id"@, st.params[3]),
        inserts(st, "created_at"@, st.params[4]),
        inserts(st, "updated_at"@, st.params[5]),
{
    reveal_strlit("INSERT INTO chat_sessions (id, uid, title, model_id, created_at, updated_at) VALUES (?1, ?2, ?3, ?4, ?5, ?6)");
    reveal_strlit("INSERT INTO ");
    reveal_strlit("chat_sessions");
    reveal_strlit(" (");
    reveal_strlit(") VALUES (");
    reveal_strlit(")");
    reveal_strlit(", ");
    reveal_strlit("id");
    reveal_strlit("uid");
    reveal_strlit("title");
    reveal_strlit("model_id");
    reveal_strlit("created_at");
    reveal_strlit("updated_at");
    reveal_strlit("?1");
    reveal_strlit("?2");
    reveal_strlit("?3");
    reveal_strlit("?4");
    reveal_strlit("?5");
    reveal_strlit("?6");
    let cols = seq!["id"@, "uid"@, "title"@, "model_id"@, "created_at"@, "updated_at"@];
    let vals = seq!["?1"@, "?2"@, "?3"@, "?4"@, "?5"@, "?6"@];
    reveal_with_fuel(comma_list, 7);
    reveal_with_fuel(decimal, 3);
    assert("INSERT INTO chat_sessions (id, uid, title, model_id, created_at, updated_at) VALUES (?1, ?2, ?3, ?4, ?5, ?6)"@ =~= insert_sql("INSERT INTO "@, "chat_sessions"@, cols, vals, Seq::<char>::empty()));
    assert(plain_items(cols));
    assert(plain_items(vals));
    assert(insert_layout(st, "INSERT INTO "@, "chat_sessions"@, cols, vals, Seq::<char>::empty()));
    assert(vals[0] == seq!['?'] + decimal(1));
    lemma_inserts_numbered(st, "INSERT INTO "@, "chat_sessions"@, cols, vals, Seq::<char>::empty(), 0, 1);
    assert(vals[1] == seq!['?'] + decimal(2));
    lemma_inserts_numbered(st, "INSERT INTO "@, "chat_sessions"@, cols, vals, Seq::<char>::empty(), 1, 2);
    assert(vals[2] == seq!['?'] + decimal(3));
    lemma_inserts_numbered(st, "INSERT INTO "@, "chat_sessions"@, cols, vals, Seq::<char>::empty(), 2, 3);
    assert(vals[3] == seq!['?'] + decimal(4));
    lemma_inserts_numbered(st, "INSERT INTO "@, "chat_sessions"@, cols, vals, Seq::<char>::empty(), 3, 4);
    assert(vals[4] == seq!['?'] + decimal(5));
    lemma_inserts_numbered(st, "INSERT INTO "@, "chat_sessions"@, cols, vals, Seq::<char>::empty(), 4, 5);
    assert(vals[5] == seq!['?'] + decimal(6));
    lemma_inserts_numbered(st, "INSERT INTO "@, "chat_sessions"@, cols, vals, Seq::<char>::empty(), 5, 6);
}

pub fn create_chat_session_at(id: String, now: Timestamp, uid: &str, input: ChatSessionInput) -> (st: Statement)
    ensures
        st@ == create_chat_session_statement(id@, now, uid, input),
        inserts(st@, "id"@, SqlValueView::Text(id@)),
        inserts(st@, "uid"@, SqlValueView::Text(uid@)),
        inserts(st@, "title"@, SqlValueView::Text(input.title@)),
        inserts(st@, "model_id"@, opt_text(input.model_id)),
        inserts(st@, "created_at"@, SqlValueView::DateTime(now)),
        inserts(st@, "updated_at"@, SqlValueView::DateTime(now)),
{
    let ghost id_view = id@;
    let ghost input0 = input;
    let p = vec![SqlValue::Text(id), text(uid), SqlValue::Text(input.title), text_or_null(input.model_id), SqlValue::DateTime(now), SqlValue::DateTime(now)];
    assert(values_view(p@) =~= create_chat_session_statement(id_view, now, uid, input0).params);
    let st = statement("INSERT INTO chat_sessions (id, uid, title, model_id, created_at, updated_at) VALUES (?1, ?2, ?3, ?4, ?5, ?6)", p);
    proof {
        lemma_create_chat_session_at_columns(st@);
    }
    st
}

/// Builds the insert of a new chat session. Uses a fresh identifier and the current time; returns the identifier
/// with the statement.
pub fn create_chat_session(uid: &str, input: ChatSessionInput) -> (r: (String, Statement))
    ensures
        is_ulid_text(r.0@),
        exists|t: Timestamp| r.1@ == create_chat_session_statement(r.0@, t, uid, input),
{
    let id = new_ulid();
    let keep = owned(id.as_str());
    let st = create_chat_session_at(id, utc_now(), uid, input);
    (keep, st)
}

/// Selects one chat session of a user.
pub fn get_chat_session(uid: &str, session_id: &str) -> (st: Statement)
    ensures
        st@.sql == "SELECT id, uid, title, model_id, created_at, updated_at FROM chat_sessions WHERE id = ?1 AND uid = ?2"@,
        st@.params == seq![SqlValueView::Text(session_id@), SqlValueView::Text(uid@)],
        binds_numbered(st@, "id = "@, SqlValueView::Text(session_id@)),
        binds_numbered(st@, "uid = "@, SqlValueView::Text(uid@)),
{
    let p = vec![text(session_id), text(uid)];
    assert(values_view(p@) =~= seq![SqlValueView::Text(session_id@), SqlValueView::Text(uid@)]);
    let st = statement("SELECT id, uid, title, model_id, created_at, updated_at FROM chat_sessions WHERE id = ?1 AND uid = ?2", p);
    proof {
        reveal_strlit("SELECT id, uid, title, model_id, created_at, updated_at FROM chat_sessions WHERE id = ?1 AND uid = ?2");
        reveal_strlit("SELECT id, uid, title, model_id, created_at, updated_at FROM chat_sessions WHERE id = ");
        reveal_strlit(" AND uid = ");
        reveal_strlit("id = ");
        reveal_strlit("uid = ");
        let pieces = seq!["SELECT id, uid, title, model_id, created_at, updated_at FROM chat_sessions WHERE id = "@, " AND uid = "@, Seq::<char>::empty()];
        reveal_with_fuel(numbered_join, 4);
        assert(decimal(1) =~= seq!['1']);
        assert(decimal(2) =~= seq!['2']);
        assert("SELECT id, uid, title, model_id, created_at, updated_at FROM chat_sessions WHERE id = ?1 AND uid = ?2"@ =~= numbered_join(pieces, 1));
        assert(bare_pieces(pieces));
        assert(st@ == StatementView { sql: numbered_join(pieces, 1), params: st@.params });
        lemma_numbered_join_binds(pieces, st@.params, 0, "id = "@);
        lemma_numbered_join_binds(pieces, st@.params, 1, "uid = "@);
    }
    st
}

/// Lists a user's chat sessions, most recently updated first; one page.
pub fn list_chat_sessions(uid: &str, page: Pagination) -> (st: Statement)
    ensures
        st@.sql == "SELECT id, uid, title, model_id, created_at, updated_at FROM chat_sessions WHERE uid = ?1 ORDER BY updated_at DESC LIMIT ?2 OFFSET ?3"@,
        st@.params == seq![SqlValueView::Text(uid@), SqlValueView::Size(page.limit), SqlValueView::Size(page.offset)],
        binds_numbered(st@, "uid = "@, SqlValueView::Text(uid@)),
        binds_numbered(st@, "LIMIT "@, SqlValueView::Size(page.limit)),
        binds_numbered(st@, "OFFSET "@, SqlValueView::Size(page.offset)),
{
    let p = vec![text(uid), SqlValue::Size(page.limit), SqlValue::Size(page.offset)];
    assert(values_view(p@) =~= seq![SqlValueView::Text(uid@), SqlValueView::Size(page.limit), SqlValueView::Size(page.offset)]);
    let st = statement("SELECT id, uid, title, model_id, created_at, updated_at FROM chat_sessions WHERE uid = ?1 ORDER BY updated_at DESC LIMIT ?2 OFFSET ?3", p);
    proof {
        reveal_strlit("SELECT id, uid, title, model_id, created_at, updated_at FROM chat_sessions WHERE uid = ?1 ORDER BY updated_at DESC LIMIT ?2 OFFSET ?3");
        reveal_strlit("SELECT id, uid, title, model_id, created_at, updated_at FROM chat_sessions WHERE uid = ");
        reveal_strlit(" ORDER BY updated_at DESC LIMIT ");
        reveal_strlit(" OFFSET ");
        reveal_strlit("uid = ");
        reveal_strlit("LIMIT ");
        reveal_strlit("OFFSET ");
        let pieces = seq!["SELECT id, uid, title, model_id, created_at, updated_at FROM chat_sessions WHERE uid = "@, " ORDER BY updated_at DESC LIMIT "@, " OFFSET "@, Seq::<char>::empty()];
        reveal_with_fuel(numbered_join, 5);
        assert(decimal(1) =~= seq!['1']);
        assert(decimal(2) =~= seq!['2']);
        assert(decimal(3) =~= seq!['3']);
        assert("SELECT id, uid, title, model_id, created_at, updated_at FROM chat_sessions WHERE uid = ?1 ORDER BY updated_at DESC LIMIT ?2 OFFSET ?3"@ =~= numbered_join(pieces, 1));
        assert(bare_pieces(pieces));
        assert(st@ == StatementView { sql: numbered_join(pieces, 1), params: st@.params });
        lemma_numbered_join_binds(pieces, st@.params, 0, "uid = "@);
        lemma_numbered_join_binds(pieces, st@.params, 1, "LIMIT "@);
        lemma_numbered_join_binds(pieces, st@.params, 2, "OFFSET "@);
    }
    st
}

/// The assignments of `update_chat_session`: the update time first, then each field that is
/// present.
pub open spec fn chat_session_update_sets(now: Timestamp, u: ChatSessionUpdate) -> Seq<Binding> {
    seq![("updated_at"@, SqlValueView::DateTime(now))] + opt_set("title"@, text_view(u.title)) + opt_set("model_id"@, text_view(u.model_id))
}

/// What the update binds: the update time to `updated_at`, each field that
/// is given to its column, and the row and its user to the `id` and `uid`
/// conditions.
pub open spec fn chat_session_update_binds(st: StatementView, uid: Seq<char>, session_id: Seq<char>, u: ChatSessionUpdate, now: Timestamp) -> bool {
    &&& binds_numbered(st, "updated_at = "@, SqlValueView::DateTime(now))
    &&& (u.title matches Some(c) ==> binds_numbered(st, "title = "@, SqlValueView::Text(c@)))
    &&& (u.model_id matches Some(c) ==> binds_numbered(st, "model_id = "@, SqlValueView::Text(c@)))
    &&& binds_numbered(st, "id = "@, SqlValueView::Text(session_id))
    &&& binds_numbered(st, "uid = "@, SqlValueView::Text(uid))
}

/// Law: the update binds every given field to its column, the update time
/// to `updated_at`, and the row and its user to the conditions.
pub proof fn lemma_chat_session_update_binds(uid: Seq<char>, session_id: Seq<char>, u: ChatSessionUpdate, now: Timestamp)
    ensures
        chat_session_update_binds(update_statement("chat_sessions"@, chat_session_update_sets(now, u), seq![("id"@, SqlValueView::Text(session_id)), ("uid"@, SqlValueView::Text(uid))]), uid, session_id, u, now),
{
    broadcast use vstd::seq_lib::lemma_seq_concat_contains_all_elements, vstd::seq_lib::lemma_seq_contains_after_push;
    let t = "chat_sessions"@;
    let sets = chat_session_update_sets(now, u);
    let wheres = seq![("id"@, SqlValueView::Text(session_id)), ("uid"@, SqlValueView::Text(uid))];
    {
        reveal_strlit("updated_at");
        reveal_strlit("updated_at = ");
        assert("updated_at = "@ =~= "updated_at"@ + seq![' ', '=', ' ']);
        assert(sets.contains(("updated_at"@, SqlValueView::DateTime(now))) || wheres.contains(("updated_at"@, SqlValueView::DateTime(now))));
        lemma_update_binds_member(t, sets, wheres, "updated_at"@, "updated_at = "@, SqlValueView::DateTime(now));
    }
    if let Some(c) = u.title {
        reveal_strlit("title");
        reveal_strlit("title = ");
        assert("title = "@ =~= "title"@ + seq![' ', '=', ' ']);
        assert(sets.contains(("title"@, SqlValueView::Text(c@))) || wheres.contains(("title"@, SqlValueView::Text(c@))));
        lemma_update_binds_member(t, sets, wheres, "title"@, "title = "@, SqlValueView::Text(c@));
    }
    if let Some(c) = u.model_id {
        reveal_strlit("model_id");
        reveal_strlit("model_id = ");
        assert("model_id = "@ =~= "model_id"@ + seq![' ', '=', ' ']);
        assert(sets.contains(("model_id"@, SqlValueView::Text(c@))) || wheres.contains(("model_id"@, SqlValueView::Text(c@))));
        lemma_update_binds_member(t, sets, wheres, "model_id"@, "model_id = "@, SqlValueView::Text(c@));
    }
    {
        reveal_strlit("id");
        reveal_strlit("id = ");
        assert("id = "@ =~= "id"@ + seq![' ', '=', ' ']);
        assert(sets.contains(("id"@, SqlValueView::Text(session_id))) || wheres.contains(("id"@, SqlValueView::Text(session_id))));
        lemma_update_binds_member(t, sets, wheres, "id"@, "id = "@, SqlValueView::Text(session_id));
    }
    {
        reveal_strlit("uid");
        reveal_strlit("uid = ");
        assert("uid = "@ =~= "uid"@ + seq![' ', '=', ' ']);
        assert(sets.contains(("uid"@, SqlValueView::Text(uid))) || wheres.contains(("uid"@, SqlValueView::Text(uid))));
        lemma_update_binds_member(t, sets, wheres, "uid"@, "uid = "@, SqlValueView::Text(uid));
    }
}

/// Builds the update of a chat session.
pub fn update_chat_session_at(uid: &str, session_id: &str, u: ChatSessionUpdate, now: Timestamp) -> (st: Statement)
    ensures
        st@ == update_statement("chat_sessions"@, chat_session_update_sets(now, u), seq![("id"@, SqlValueView::Text(session_id@)), ("uid"@, SqlValueView::Text(uid@))]),
        chat_session_update_binds(st@, uid@, session_id@, u, now),
{
    let ghost u0 = u;
    let mut b = UpdateBuilder::new("chat_sessions");
    b.set("updated_at", SqlValue::DateTime(now));
    assert(b.sets() =~= seq![("updated_at"@, SqlValueView::DateTime(now))]);
    b.set_opt("title", opt_text_value(u.title));
    b.set_opt("model_id", opt_text_value(u.model_id));
    b.where_eq("id", text(session_id));
    b.where_eq("uid", text(uid));
    assert(b.sets() =~= chat_session_update_sets(now, u0));
    assert(b.wheres() =~= seq![("id"@, SqlValueView::Text(session_id@)), ("uid"@, SqlValueView::Text(uid@))]);
    let st = b.finish();
    proof {
        lemma_chat_session_update_binds(uid@, session_id@, u0, now);
    }
    st
}

/// Builds the update of a chat session. Stamped with the current time.
pub fn update_chat_session(uid: &str, session_id: &str, u: ChatSessionUpdate) -> (st: Statement)
    ensures
        exists|t: Timestamp|
            st@ == update_statement("chat_sessions"@, chat_session_update_sets(t, u), seq![("id"@, SqlValueView::Text(session_id@)), ("uid"@, SqlValueView::Text(uid@))]),
        exists|t: Timestamp| chat_session_update_binds(st@, uid@, session_id@, u, t),
{
    update_chat_session_at(uid, session_id, u, utc_now())
}

/// Deletes one chat session of a user.
pub fn delete_chat_session(uid: &str, session_id: &str) -> (st: Statement)
    ensures
        st@.sql == "DELETE FROM chat_sessions WHERE id = ?1 AND uid = ?2"@,
        st@.params == seq![SqlValueView::Text(session_id@), SqlValueView::Text(uid@)],
        binds_numbered(st@, "id = "@, SqlValueView::Text(session_id@)),
        binds_numbered(st@, "uid = "@, SqlValueView::Text(uid@)),
{
    let p = vec![text(session_id), text(uid)];
    assert(values_view(p@) =~= seq![SqlValueView::Text(session_id@), SqlValueView::Text(uid@)]);
    let st = statement("DELETE FROM chat_sessions WHERE id = ?1 AND uid = ?2", p);
    proof {
        reveal_strlit("DELETE FROM chat_sessions WHERE id = ?1 AND uid = ?2");
        reveal_strlit("DELETE FROM chat_sessions WHERE id = ");
        reveal_strlit(" AND uid = ");
        reveal_strlit("id = ");
        reveal_strlit("uid = ");
        let pieces = seq!["DELETE FROM chat_sessions WHERE id = "@, " AND uid = "@, Seq::<char>::empty()];
        reveal_with_fuel(numbered_join, 4);
        assert(decimal(1) =~= seq!['1']);
        assert(decimal(2) =~= seq!['2']);
        assert("DELETE FROM chat_sessions WHERE id = ?1 AND uid = ?2"@ =~= numbered_join(pieces, 1));
        assert(bare_pieces(pieces));
        assert(st@ == StatementView { sql: numbered_join(pieces, 1), params: st@.params });
        lemma_numbered_join_binds(pieces, st@.params, 0, "id = "@);
        lemma_numbered_join_binds(pieces, st@.params, 1, "uid = "@);
    }
    st
}

} // verus!
