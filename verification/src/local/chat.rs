//! Statements of the local database: messages, chat sessions, focus sessions and the user profile.
use vstd::prelude::*;
use vstd::string::*;

use crate::clock::{is_ulid_text, new_ulid, now_rfc3339};
use crate::binding::{bare_join, bare_pieces, binds_bare, insert_layout, insert_sql, inserts, lemma_bare_join_binds, lemma_inserts_bare, plain_items};
use crate::sql::{comma_list, 
    statement, str_or_null, text, values_view, SqlValue, SqlValueView, Statement,
    StatementView,
};
use crate::text::{decimal, owned};

verus! {

/// Lists the messages of a conversation, oldest first; `limit` rows after skipping `offset`.
pub fn get_messages(conversation_id: &str, limit: i32, offset: i32) -> (st: Statement)
    ensures
        st@.sql == "SELECT id, conversation_id, role, content, created_at, updated_at, metadata FROM messages WHERE conversation_id = ? ORDER BY created_at ASC LIMIT ? OFFSET ?"@,
        st@.params == seq![SqlValueView::Text(conversation_id@), SqlValueView::Integer(limit as i64), SqlValueView::Integer(offset as i64)],
        binds_bare(st@, "conversation_id = "@, SqlValueView::Text(conversation_id@)),
        binds_bare(st@, "LIMIT "@, SqlValueView::Integer(limit as i64)),
        binds_bare(st@, "OFFSET "@, SqlValueView::Integer(offset as i64)),
{
    let p = vec![text(conversation_id), SqlValue::Integer(limit as i64), SqlValue::Integer(offset as i64)];
    assert(values_view(p@) =~= seq![SqlValueView::Text(conversation_id@), SqlValueView::Integer(limit as i64), SqlValueView::Integer(offset as i64)]);
    let st = statement("SELECT id, conversation_id, role, content, created_at, updated_at, metadata FROM messages WHERE conversation_id = ? ORDER BY created_at ASC LIMIT ? OFFSET ?", p);
    proof {
        reveal_strlit("SELECT id, conversation_id, role, content, created_at, updated_at, metadata FROM messages WHERE conversation_id = ? ORDER BY created_at ASC LIMIT ? OFFSET ?");
        reveal_strlit("SELECT id, conversation_id, role, content, created_at, updated_at, metadata FROM messages WHERE conversation_id = ");
        reveal_strlit(" ORDER BY created_at ASC LIMIT ");
        reveal_strlit(" OFFSET ");
        reveal_strlit("conversation_id = ");
        reveal_strlit("LIMIT ");
        reveal_strlit("OFFSET ");
        let pieces = seq!["SELECT id, conversation_id, role, content, created_at, updated_at, metadata FROM messages WHERE conversation_id = "@, " ORDER BY created_at ASC LIMIT "@, " OFFSET "@, Seq::<char>::empty()];
        reveal_with_fuel(bare_join, 5);
        assert("SELECT id, conversation_id, role, content, created_at, updated_at, metadata FROM messages WHERE conversation_id = ? ORDER BY created_at ASC LIMIT ? OFFSET ?"@ =~= bare_join(pieces));
        assert(bare_pieces(pieces));
        assert(st@ == StatementView { sql: bare_join(pieces), params: st@.params });
        lemma_bare_join_binds(pieces, st@.params, 0, "conversation_id = "@);
        lemma_bare_join_binds(pieces, st@.params, 1, "LIMIT "@);
        lemma_bare_join_binds(pieces, st@.params, 2, "OFFSET "@);
    }
    st
}

/// The insert made by `save_message` for a given identifier and time text.
pub open spec fn save_message_statement(id: Seq<char>, now: Seq<char>, conversation_id: &str, role: &str, content: &str) -> StatementView {
    StatementView {
        sql: "INSERT INTO messages (id, conversation_id, role, content, created_at, updated_at, metadata) VALUES (?, ?, ?, ?, ?, ?, ?)"@,
        params: seq![SqlValueView::Text(id), SqlValueView::Text(conversation_id@), SqlValueView::Text(role@), SqlValueView::Text(content@), SqlValueView::Text(now), SqlValueView::Text(now), SqlValueView::Text(""@)],
    }
}

/// Builds the insert of a new message, with empty metadata.
#[verifier::rlimit(100)]
proof fn lemma_save_message_at_columns(st: StatementView)
    requires
        st.sql == "INSERT INTO messages (id, conversation_id, role, content, created_at, updated_at, metadata) VALUES (?, ?, ?, ?, ?, ?, ?)"@,
        st.params.len() >= 7,
    ensures
        inserts(st, "id"@, st.params[0]),
        inserts(st, "conversation_id"@, st.params[1]),
        inserts(st, "role"@, st.params[2]),
        inserts(st, "content"@, st.params[3]),
        inserts(st, "created_at"@, st.params[4]),
        inserts(st, "updated_at"@, st.params[5]),
        inserts(st, "metadata"@, st.params[6]),
{
    reveal_strlit("INSERT INTO messages (id, conversation_id, role, content, created_at, updated_at, metadata) VALUES (?, ?, ?, ?, ?, ?, ?)");
    reveal_strlit("INSERT INTO ");
    reveal_strlit("messages");
    reveal_strlit(" (");
    reveal_strlit(") VALUES (");
    reveal_strlit(")");
    reveal_strlit(", ");
    reveal_strlit("id");
    reveal_strlit("conversation_id");
    reveal_strlit("role");
    reveal_strlit("content");
    reveal_strlit("created_at");
    reveal_strlit("updated_at");
    reveal_strlit("metadata");
    reveal_strlit("?");
    let cols = seq!["id"@, "conversation_id"@, "role"@, "content"@, "created_at"@, "updated_at"@, "metadata"@];
    let vals = seq!["?"@, "?"@, "?"@, "?"@, "?"@, "?"@, "?"@];
    assert("?"@ =~= seq!['?']);
    reveal_with_fuel(comma_list, 8);
    reveal_with_fuel(decimal, 3);
    assert("INSERT INTO messages (id, conversation_id, role, content, created_at, updated_at, metadata) VALUES (?, ?, ?, ?, ?, ?, ?)"@ =~= insert_sql("INSERT INTO "@, "messages"@, cols, vals, Seq::<char>::empty()));
    assert(plain_items(cols));
    assert(plain_items(vals));
    assert(insert_layout(st, "INSERT INTO "@, "messages"@, cols, vals, Seq::<char>::empty()));
    assert(forall|m: int| 0 <= m < vals.len() ==> #[trigger] vals[m] == seq!['?']);
    lemma_inserts_bare(st, "INSERT INTO "@, "messages"@, cols, vals, Seq::<char>::empty(), 0);
    lemma_inserts_bare(st, "INSERT INTO "@, "messages"@, cols, vals, Seq::<char>::empty(), 1);
    lemma_inserts_bare(st, "INSERT INTO "@, "messages"@, cols, vals, Seq::<char>::empty(), 2);
    lemma_inserts_bare(st, "INSERT INTO "@, "messages"@, cols, vals, Seq::<char>::empty(), 3);
    lemma_inserts_bare(st, "INSERT INTO "@, "messages"@, cols, vals, Seq::<char>::empty(), 4);
    lemma_inserts_bare(st, "INSERT INTO "@, "messages"@, cols, vals, Seq::<char>::empty(), 5);
    lemma_inserts_bare(st, "INSERT INTO "@, "messages"@, cols, vals, Seq::<char>::empty(), 6);
}

pub fn save_message_at(id: String, now: &str, conversation_id: &str, role: &str, content: &str) -> (st: Statement)
    ensures
        st@ == save_message_statement(id@, now@, conversation_id, role, content),
        inserts(st@, "id"@, SqlValueView::Text(id@)),
        inserts(st@, "conversation_id"@, SqlValueView::Text(conversation_id@)),
        inserts(st@, "role"@, SqlValueView::Text(role@)),
        inserts(st@, "content"@, SqlValueView::Text(content@)),
        inserts(st@, "created_at"@, SqlValueView::Text(now@)),
        inserts(st@, "updated_at"@, SqlValueView::Text(now@)),
        inserts(st@, "metadata"@, SqlValueView::Text(""@)),
{
    let ghost id_view = id@;
    let p = vec![SqlValue::Text(id), text(conversation_id), text(role), text(content), text(now), text(now), text("")];
    assert(values_view(p@) =~= save_message_statement(id_view, now@, conversation_id, role, content).params);
    let st = statement("INSERT INTO messages (id, conversation_id, role, content, created_at, updated_at, metadata) VALUES (?, ?, ?, ?, ?, ?, ?)", p);
    proof {
        lemma_save_message_at_columns(st@);
    }
    st
}

/// Builds the insert of a new message, with empty metadata. Uses a fresh identifier and the current time rendered as RFC 3339;
/// returns the identifier with the statement.
pub fn save_message(conversation_id: &str, role: &str, content: &str) -> (r: (String, Statement))
    ensures
        is_ulid_text(r.0@),
        exists|t: Seq<char>| #[trigger] save_message_statement(r.0@, t, conversation_id, role, content) == r.1@,
{
    let id = new_ulid();
    let keep = owned(id.as_str());
    let now = now_rfc3339();
    let st = save_message_at(id, now.as_str(), conversation_id, role, content);
    (keep, st)
}

/// Selects one message by identifier.
pub fn get_message(id: &str) -> (st: Statement)
    ensures
        st@.sql == "SELECT id, conversation_id, role, content, created_at, updated_at, metadata FROM messages WHERE id = ?"@,
        st@.params == seq![SqlValueView::Text(id@)],
        binds_bare(st@, "id = "@, SqlValueView::Text(id@)),
{
    let p = vec![text(id)];
    assert(values_view(p@) =~= seq![SqlValueView::Text(id@)]);
    let st = statement("SELECT id, conversation_id, role, content, created_at, updated_at, metadata FROM messages WHERE id = ?", p);
    proof {
        reveal_strlit("SELECT id, conversation_id, role, content, created_at, updated_at, metadata FROM messages WHERE id = ?");
        reveal_strlit("SELECT id, conversation_id, role, content, created_at, updated_at, metadata FROM messages WHERE id = ");
        reveal_strlit("id = ");
        let pieces = seq!["SELECT id, conversation_id, role, content, created_at, updated_at, metadata FROM messages WHERE id = "@, Seq::<char>::empty()];
        reveal_with_fuel(bare_join, 3);
        assert("SELECT id, conversation_id, role, content, created_at, updated_at, metadata FROM messages WHERE id = ?"@ =~= bare_join(pieces));
        assert(bare_pieces(pieces));
        assert(st@ == StatementView { sql: bare_join(pieces), params: st@.params });
        lemma_bare_join_binds(pieces, st@.params, 0, "id = "@);
    }
    st
}

/// Lists a user's chat sessions, most recently updated first.
pub fn get_chat_sessions(user_id: &str) -> (st: Statement)
    ensures
        st@.sql == "SELECT id, user_id, title, created_at, updated_at, app_id FROM chat_sessions WHERE user_id = ? ORDER BY updated_at DESC"@,
        st@.params == seq![SqlValueView::Text(user_id@)],
        binds_bare(st@, "user_id = "@, SqlValueView::Text(user_id@)),
{
    let p = vec![text(user_id)];
    assert(values_view(p@) =~= seq![SqlValueView::Text(user_id@)]);
    let st = statement("SELECT id, user_id, title, created_at, updated_at, app_id FROM chat_sessions WHERE user_id = ? ORDER BY updated_at DESC", p);
    proof {
        reveal_strlit("SELECT id, user_id, title, created_at, updated_at, app_id FROM chat_sessions WHERE user_id = ? ORDER BY updated_at DESC");
        reveal_strlit("SELECT id, user_id, title, created_at, updated_at, app_id FROM chat_sessions WHERE user_id = ");
        reveal_strlit(" ORDER BY updated_at DESC");
        reveal_strlit("user_id = ");
        let pieces = seq!["SELECT id, user_id, title, created_at, updated_at, app_id FROM chat_sessions WHERE user_id = "@, " ORDER BY updated_at DESC"@];
        reveal_with_fuel(bare_join, 3);
        assert("SELECT id, user_id, title, created_at, updated_at, app_id FROM chat_sessions WHERE user_id = ? ORDER BY updated_at DESC"@ =~= bare_join(pieces));
        assert(bare_pieces(pieces));
        assert(st@ == StatementView { sql: bare_join(pieces), params: st@.params });
        lemma_bare_join_binds(pieces, st@.params, 0, "user_id = "@);
    }
    st
}

/// The insert made by `create_chat_session` for a given identifier and time text.
pub open spec fn create_chat_session_statement(id: Seq<char>, now: Seq<char>, user_id: &str, title: &str, app_id: Option<&str>) -> StatementView {
    StatementView {
        sql: "INSERT INTO chat_sessions (id, user_id, title, created_at, updated_at, app_id) VALUES (?, ?, ?, ?, ?, ?)"@,
        params: seq![SqlValueView::Text(id), SqlValueView::Text(user_id@), SqlValueView::Text(title@), SqlValueView::Text(now), SqlValueView::Text(now), (match app_id { Some(a) => SqlValueView::Text(a@), None => SqlValueView::Null })],
    }
}

/// Builds the insert of a new chat session.
#[verifier::rlimit(100)]
proof fn lemma_create_chat_session_at_columns(st: StatementView)
    requires
        st.sql == "INSERT INTO chat_sessions (id, user_id, title, created_at, updated_at, app_id) VALUES (?, ?, ?, ?, ?, ?)"@,
        st.params.len() >= 6,
    ensures
        inserts(st, "id"@, st.params[0]),
        inserts(st, "user_id"@, st.params[1]),
        inserts(st, "title"@, st.params[2]),
        inserts(st, "created_at"@, st.params[3]),
        inserts(st, "updated_at"@, st.params[4]),
        inserts(st, "app_id"@, st.params[5]),
{
    reveal_strlit("INSERT INTO chat_sessions (id, user_id, title, created_at, updated_at, app_id) VALUES (?, ?, ?, ?, ?, ?)");
    reveal_strlit("INSERT INTO ");
    reveal_strlit("chat_sessions");
    reveal_strlit(" (");
    reveal_strlit(") VALUES (");
    reveal_strlit(")");
    reveal_strlit(", ");
    reveal_strlit("id");
    reveal_strlit("user_id");
    reveal_strlit("title");
    reveal_strlit("created_at");
    reveal_strlit("updated_at");
    reveal_strlit("app_id");
    reveal_strlit("?");
    let cols = seq!["id"@, "user_id"@, "title"@, "created_at"@, "updated_at"@, "app_id"@];
    let vals = seq!["?"@, "?"@, "?"@, "?"@, "?"@, "?"@];
    assert("?"@ =~= seq!['?']);
    reveal_with_fuel(comma_list, 7);
    reveal_with_fuel(decimal, 3);
    assert("INSERT INTO chat_sessions (id, user_id, title, created_at, updated_at, app_id) VALUES (?, ?, ?, ?, ?, ?)"@ =~= insert_sql("INSERT INTO "@, "chat_sessions"@, cols, vals, Seq::<char>::empty()));
    assert(plain_items(cols));
    assert(plain_items(vals));
    assert(insert_layout(st, "INSERT INTO "@, "chat_sessions"@, cols, vals, Seq::<char>::empty()));
    assert(forall|m: int| 0 <= m < vals.len() ==> #[trigger] vals[m] == seq!['?']);
    lemma_inserts_bare(st, "INSERT INTO "@, "chat_sessions"@, cols, vals, Seq::<char>::empty(), 0);
    lemma_inserts_bare(st, "INSERT INTO "@, "chat_sessions"@, cols, vals, Seq::<char>::empty(), 1);
    lemma_inserts_bare(st, "INSERT INTO "@, "chat_sessions"@, cols, vals, Seq::<char>::empty(), 2);
    lemma_inserts_bare(st, "INSERT INTO "@, "chat_sessions"@, cols, vals, Seq::<char>::empty(), 3);
    lemma_inserts_bare(st, "INSERT INTO "@, "chat_sessions"@, cols, vals, Seq::<char>::empty(), 4);
    lemma_inserts_bare(st, "INSERT INTO "@, "chat_sessions"@, cols, vals, Seq::<char>::empty(), 5);
}

pub fn create_chat_session_at(id: String, now: &str, user_id: &str, title: &str, app_id: Option<&str>) -> (st: Statement)
    ensures
        st@ == create_chat_session_statement(id@, now@, user_id, title, app_id),
        inserts(st@, "id"@, SqlValueView::Text(id@)),
        inserts(st@, "user_id"@, SqlValueView::Text(user_id@)),
        inserts(st@, "title"@, SqlValueView::Text(title@)),
        inserts(st@, "created_at"@, SqlValueView::Text(now@)),
        inserts(st@, "updated_at"@, SqlValueView::Text(now@)),
        inserts(st@, "app_id"@, (match app_id { Some(a) => SqlValueView::Text(a@), None => SqlValueView::Null })),
{
    let ghost id_view = id@;
    let p = vec![SqlValue::Text(id), text(user_id), text(title), text(now), text(now), str_or_null(app_id)];
    assert(values_view(p@) =~= create_chat_session_statement(id_view, now@, user_id, title, app_id).params);
    let st = statement("INSERT INTO chat_sessions (id, user_id, title, created_at, updated_at, app_id) VALUES (?, ?, ?, ?, ?, ?)", p);
    proof {
        lemma_create_chat_session_at_columns(st@);
    }
    st
}

/// Builds the insert of a new chat session. Uses a fresh identifier and the current time rendered as RFC 3339;
/// returns the identifier with the statement.
pub fn create_chat_session(user_id: &str, title: &str, app_id: Option<&str>) -> (r: (String, Statement))
    ensures
        is_ulid_text(r.0@),
        exists|t: Seq<char>| #[trigger] create_chat_session_statement(r.0@, t, user_id, title, app_id) == r.1@,
{
    let id = new_ulid();
    let keep = owned(id.as_str());
    let now = now_rfc3339();
    let st = create_chat_session_at(id, now.as_str(), user_id, title, app_id);
    (keep, st)
}

/// Selects one chat session by identifier.
pub fn get_chat_session(id: &str) -> (st: Statement)
    ensures
        st@.sql == "SELECT id, user_id, title, created_at, updated_at, app_id FROM chat_sessions WHERE id = ?"@,
        st@.params == seq![SqlValueView::Text(id@)],
        binds_bare(st@, "id = "@, SqlValueView::Text(id@)),
{
    let p = vec![text(id)];
    assert(values_view(p@) =~= seq![SqlValueView::Text(id@)]);
    let st = statement("SELECT id, user_id, title, created_at, updated_at, app_id FROM chat_sessions WHERE id = ?", p);
    proof {
        reveal_strlit("SELECT id, user_id, title, created_at, updated_at, app_id FROM chat_sessions WHERE id = ?");
        reveal_strlit("SELECT id, user_id, title, created_at, updated_at, app_id FROM chat_sessions WHERE id = ");
        reveal_strlit("id = ");
        let pieces = seq!["SELECT id, user_id, title, created_at, updated_at, app_id FROM chat_sessions WHERE id = "@, Seq::<char>::empty()];
        reveal_with_fuel(bare_join, 3);
        assert("SELECT id, user_id, title, created_at, updated_at, app_id FROM chat_sessions WHERE id = ?"@ =~= bare_join(pieces));
        assert(bare_pieces(pieces));
        assert(st@ == StatementView { sql: bare_join(pieces), params: st@.params });
        lemma_bare_join_binds(pieces, st@.params, 0, "id = "@);
    }
    st
}

/// Deletes one chat session of a user.
pub fn delete_chat_session(user_id: &str, id: &str) -> (st: Statement)
    ensures
        st@.sql == "DELETE FROM chat_sessions WHERE id = ? AND user_id = ?"@,
        st@.params == seq![SqlValueView::Text(id@), SqlValueView::Text(user_id@)],
        binds_bare(st@, "id = "@, SqlValueView::Text(id@)),
        binds_bare(st@, "user_id = "@, SqlValueView::Text(user_id@)),
{
    let p = vec![text(id), text(user_id)];
    assert(values_view(p@) =~= seq![SqlValueView::Text(id@), SqlValueView::Text(user_id@)]);
    let st = statement("DELETE FROM chat_sessions WHERE id = ? AND user_id = ?", p);
    proof {
        reveal_strlit("DELETE FROM chat_sessions WHERE id = ? AND user_id = ?");
        reveal_strlit("DELETE FROM chat_sessions WHERE id = ");
        reveal_strlit(" AND user_id = ");
        reveal_strlit("id = ");
        reveal_strlit("user_id = ");
        let pieces = seq!["DELETE FROM chat_sessions WHERE id = "@, " AND user_id = "@, Seq::<char>::empty()];
        reveal_with_fuel(bare_join, 4);
        assert("DELETE FROM chat_sessions WHERE id = ? AND user_id = ?"@ =~= bare_join(pieces));
        assert(bare_pieces(pieces));
        assert(st@ == StatementView { sql: bare_join(pieces), params: st@.params });
        lemma_bare_join_binds(pieces, st@.params, 0, "id = "@);
        lemma_bare_join_binds(pieces, st@.params, 1, "user_id = "@);
    }
    st
}

/// Lists a user's focus sessions, latest start first.
pub fn get_focus_sessions(user_id: &str) -> (st: Statement)
    ensures
        st@.sql == "SELECT id, user_id, start_time, end_time, duration_secs, distraction_count, metadata FROM focus_sessions WHERE user_id = ? ORDER BY start_time DESC"@,
        st@.params == seq![SqlValueView::Text(user_id@)],
        binds_bare(st@, "user_id = "@, SqlValueView::Text(user_id@)),
{
    let p = vec![text(user_id)];
    assert(values_view(p@) =~= seq![SqlValueView::Text(user_id@)]);
    let st = statement("SELECT id, user_id, start_time, end_time, duration_secs, distraction_count, metadata FROM focus_sessions WHERE user_id = ? ORDER BY start_time DESC", p);
    proof {
        reveal_strlit("SELECT id, user_id, start_time, end_time, duration_secs, distraction_count, metadata FROM focus_sessions WHERE user_id = ? ORDER BY start_time DESC");
        reveal_strlit("SELECT id, user_id, start_time, end_time, duration_secs, distraction_count, metadata FROM focus_sessions WHERE user_id = ");
        reveal_strlit(" ORDER BY start_time DESC");
        reveal_strlit("user_id = ");
        let pieces = seq!["SELECT id, user_id, start_time, end_time, duration_secs, distraction_count, metadata FROM focus_sessions WHERE user_id = "@, " ORDER BY start_time DESC"@];
        reveal_with_fuel(bare_join, 3);
        assert("SELECT id, user_id, start_time, end_time, duration_secs, distraction_count, metadata FROM focus_sessions WHERE user_id = ? ORDER BY start_time DESC"@ =~= bare_join(pieces));
        assert(bare_pieces(pieces));
        assert(st@ == StatementView { sql: bare_join(pieces), params: st@.params });
        lemma_bare_join_binds(pieces, st@.params, 0, "user_id = "@);
    }
    st
}

/// The settings key under which a user's profile is stored: `profile_` and
/// the user identifier.
pub open spec fn profile_key_spec(user_id: Seq<char>) -> Seq<char> {
    "profile_"@ + user_id
}

/// The settings key of a user's profile.
pub fn profile_key(user_id: &str) -> (k: String)
    ensures
        k@ == profile_key_spec(user_id@),
        k@ == "profile_"@ + user_id@,
{
    let mut k = owned("profile_");
    k.append(user_id);
    k
}

/// Selects the stored profile of a user.
pub fn get_user_profile(user_id: &str) -> (st: Statement)
    ensures
        st@.sql == "SELECT value FROM user_settings WHERE key = ?"@,
        st@.params == seq![SqlValueView::Text(profile_key_spec(user_id@))],
        st@.params == seq![SqlValueView::Text("profile_"@ + user_id@)],
{
    let p = vec![SqlValue::Text(profile_key(user_id))];
    assert(values_view(p@) =~= seq![SqlValueView::Text(profile_key_spec(user_id@))]);
    statement("SELECT value FROM user_settings WHERE key = ?", p)
}

/// Stores a user's profile, given as JSON text, replacing any previous one.
pub fn save_user_profile(user_id: &str, profile_json: String) -> (st: Statement)
    ensures
        st@.sql == "INSERT OR REPLACE INTO user_settings (key, value) VALUES (?, ?)"@,
        st@.params == seq![SqlValueView::Text(profile_key_spec(user_id@)), SqlValueView::Text(profile_json@)],
        st@.params == seq![SqlValueView::Text("profile_"@ + user_id@), SqlValueView::Text(profile_json@)],
{
    let ghost j = profile_json@;
    let p = vec![SqlValue::Text(profile_key(user_id)), SqlValue::Text(profile_json)];
    assert(values_view(p@) =~= seq![SqlValueView::Text(profile_key_spec(user_id@)), SqlValueView::Text(j)]);
    statement("INSERT OR REPLACE INTO user_settings (key, value) VALUES (?, ?)", p)
}

} // verus!
