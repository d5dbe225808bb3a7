//! Statements of the local database: memories, action items and staged tasks.
use vstd::prelude::*;
use vstd::string::*;

use crate::clock::{is_ulid_text, new_ulid, now_rfc3339};
use crate::local::conversations::{string_or, text_or};
use crate::binding::{bare_join, bare_pieces, binds_bare, insert_layout, insert_sql, inserts, lemma_bare_join_binds, lemma_inserts_bare, plain_items};
use crate::sql::{comma_list, 
    opt_text, statement, text, text_or_null, values_view, SqlValue, SqlValueView, Statement,
    StatementView,
};
use crate::text::{decimal, owned};

verus! {

/// Request to create a memory.
#[derive(Debug)]
pub struct CreateMemoryRequest {
    pub content: String,
    pub category: Option<String>,
    pub visibility: Option<String>,
}

/// Request to create an action item; the due date is RFC 3339 text.
#[derive(Debug)]
pub struct CreateActionItemRequest {
    pub title: String,
    pub description: Option<String>,
    pub due_date: Option<String>,
    pub relevance_score: Option<i32>,
    pub source: Option<String>,
}

/// The given score, else 0.
pub open spec fn score_or_zero(o: Option<i32>) -> i32 {
    match o {
        Some(s) => s,
        None => 0,
    }
}

/// The given score, else 0.
pub fn relevance_or_zero(o: Option<i32>) -> (r: i32)
    ensures
        r == score_or_zero(o),
{
    match o {
        Some(s) => s,
        None => 0,
    }
}

/// Lists a user's memories, newest first; `limit` rows after skipping `offset`.
pub fn get_memories(user_id: &str, limit: i32, offset: i32) -> (st: Statement)
    ensures
        st@.sql == "SELECT id, user_id, content, category, created_at, updated_at, is_read, is_dismissed, visibility, relevance_score FROM memories WHERE user_id = ? ORDER BY created_at DESC LIMIT ? OFFSET ?"@,
        st@.params == seq![SqlValueView::Text(user_id@), SqlValueView::Integer(limit as i64), SqlValueView::Integer(offset as i64)],
        binds_bare(st@, "user_id = "@, SqlValueView::Text(user_id@)),
        binds_bare(st@, "LIMIT "@, SqlValueView::Integer(limit as i64)),
        binds_bare(st@, "OFFSET "@, SqlValueView::Integer(offset as i64)),
{
    let p = vec![text(user_id), SqlValue::Integer(limit as i64), SqlValue::Integer(offset as i64)];
    assert(values_view(p@) =~= seq![SqlValueView::Text(user_id@), SqlValueView::Integer(limit as i64), SqlValueView::Integer(offset as i64)]);
    let st = statement("SELECT id, user_id, content, category, created_at, updated_at, is_read, is_dismissed, visibility, relevance_score FROM memories WHERE user_id = ? ORDER BY created_at DESC LIMIT ? OFFSET ?", p);
    proof {
        reveal_strlit("SELECT id, user_id, content, category, created_at, updated_at, is_read, is_dismissed, visibility, relevance_score FROM memories WHERE user_id = ? ORDER BY created_at DESC LIMIT ? OFFSET ?");
        reveal_strlit("SELECT id, user_id, content, category, created_at, updated_at, is_read, is_dismissed, visibility, relevance_score FROM memories WHERE user_id = ");
        reveal_strlit(" ORDER BY created_at DESC LIMIT ");
        reveal_strlit(" OFFSET ");
        reveal_strlit("user_id = ");
        reveal_strlit("LIMIT ");
        reveal_strlit("OFFSET ");
        let pieces = seq!["SELECT id, user_id, content, category, created_at, updated_at, is_read, is_dismissed, visibility, relevance_score FROM memories WHERE user_id = "@, " ORDER BY created_at DESC LIMIT "@, " OFFSET "@, Seq::<char>::empty()];
        reveal_with_fuel(bare_join, 5);
        assert("SELECT id, user_id, content, category, created_at, updated_at, is_read, is_dismissed, visibility, relevance_score FROM memories WHERE user_id = ? ORDER BY created_at DESC LIMIT ? OFFSET ?"@ =~= bare_join(pieces));
        assert(bare_pieces(pieces));
        assert(st@ == StatementView { sql: bare_join(pieces), params: st@.params });
        lemma_bare_join_binds(pieces, st@.params, 0, "user_id = "@);
        lemma_bare_join_binds(pieces, st@.params, 1, "LIMIT "@);
        lemma_bare_join_binds(pieces, st@.params, 2, "OFFSET "@);
    }
    st
}

/// The insert made by `create_memory` for a given identifier and time text.
pub open spec fn create_memory_statement(id: Seq<char>, now: Seq<char>, user_id: &str, input: CreateMemoryRequest) -> StatementView {
    StatementView {
        sql: "INSERT INTO memories (id, user_id, content, category, created_at, updated_at, visibility, relevance_score) VALUES (?, ?, ?, ?, ?, ?, ?, ?)"@,
        params: seq![SqlValueView::Text(id), SqlValueView::Text(user_id@), SqlValueView::Text(input.content@), SqlValueView::Text(text_or(input.category, "general"@)), SqlValueView::Text(now), SqlValueView::Text(now), SqlValueView::Text(text_or(input.visibility, "private"@)), SqlValueView::Integer(0)],
    }
}

/// Builds the insert of a new memory: category `general` and visibility `private` unless given, relevance 0.
#[verifier::rlimit(100)]
proof fn lemma_create_memory_at_columns(st: StatementView)
    requires
        st.sql == "INSERT INTO memories (id, user_id, content, category, created_at, updated_at, visibility, relevance_score) VALUES (?, ?, ?, ?, ?, ?, ?, ?)"@,
        st.params.len() >= 8,
    ensures
        inserts(st, "id"@, st.params[0]),
        inserts(st, "user_id"@, st.params[1]),
        inserts(st, "content"@, st.params[2]),
        inserts(st, "category"@, st.params[3]),
        inserts(st, "created_at"@, st.params[4]),
        inserts(st, "updated_at"@, st.params[5]),
        inserts(st, "visibility"@, st.params[6]),
        inserts(st, "relevance_score"@, st.params[7]),
{
    reveal_strlit("INSERT INTO memories (id, user_id, content, category, created_at, updated_at, visibility, relevance_score) VALUES (?, ?, ?, ?, ?, ?, ?, ?)");
    reveal_strlit("INSERT INTO ");
    reveal_strlit("memories");
    reveal_strlit(" (");
    reveal_strlit(") VALUES (");
    reveal_strlit(")");
    reveal_strlit(", ");
    reveal_strlit("id");
    reveal_strlit("user_id");
    reveal_strlit("content");
    reveal_strlit("category");
    reveal_strlit("created_at");
    reveal_strlit("updated_at");
    reveal_strlit("visibility");
    reveal_strlit("relevance_score");
    reveal_strlit("?");
    let cols = seq!["id"@, "user_id"@, "content"@, "category"@, "created_at"@, "updated_at"@, "visibility"@, "relevance_score"@];
    let vals = seq!["?"@, "?"@, "?"@, "?"@, "?"@, "?"@, "?"@, "?"@];
    assert("?"@ =~= seq!['?']);
    reveal_with_fuel(comma_list, 9);
    reveal_with_fuel(decimal, 3);
    assert("INSERT INTO memories (id, user_id, content, category, created_at, updated_at, visibility, relevance_score) VALUES (?, ?, ?, ?, ?, ?, ?, ?)"@ =~= insert_sql("INSERT INTO "@, "memories"@, cols, vals, Seq::<char>::empty()));
    assert(plain_items(cols));
    assert(plain_items(vals));
    assert(insert_layout(st, "INSERT INTO "@, "memories"@, cols, vals, Seq::<char>::empty()));
    assert(forall|m: int| 0 <= m < vals.len() ==> #[trigger] vals[m] == seq!['?']);
    lemma_inserts_bare(st, "INSERT INTO "@, "memories"@, cols, vals, Seq::<char>::empty(), 0);
    lemma_inserts_bare(st, "INSERT INTO "@, "memories"@, cols, vals, Seq::<char>::empty(), 1);
    lemma_inserts_bare(st, "INSERT INTO "@, "memories"@, cols, vals, Seq::<char>::empty(), 2);
    lemma_inserts_bare(st, "INSERT INTO "@, "memories"@, cols, vals, Seq::<char>::empty(), 3);
    lemma_inserts_bare(st, "INSERT INTO "@, "memories"@, cols, vals, Seq::<char>::empty(), 4);
    lemma_inserts_bare(st, "INSERT INTO "@, "memories"@, cols, vals, Seq::<char>::empty(), 5);
    lemma_inserts_bare(st, "INSERT INTO "@, "memories"@, cols, vals, Seq::<char>::empty(), 6);
    lemma_inserts_bare(st, "INSERT INTO "@, "memories"@, cols, vals, Seq::<char>::empty(), 7);
}

pub fn create_memory_at(id: String, now: &str, user_id: &str, input: CreateMemoryRequest) -> (st: Statement)
    ensures
        st@ == create_memory_statement(id@, now@, user_id, input),
        inserts(st@, "id"@, SqlValueView::Text(id@)),
        inserts(st@, "user_id"@, SqlValueView::Text(user_id@)),
        inserts(st@, "content"@, SqlValueView::Text(input.content@)),
        inserts(st@, "category"@, SqlValueView::Text(text_or(input.category, "general"@))),
        inserts(st@, "created_at"@, SqlValueView::Text(now@)),
        inserts(st@, "updated_at"@, SqlValueView::Text(now@)),
        inserts(st@, "visibility"@, SqlValueView::Text(text_or(input.visibility, "private"@))),
        inserts(st@, "relevance_score"@, SqlValueView::Integer(0)),
{
    let ghost id_view = id@;
    let ghost input0 = input;
    let p = vec![SqlValue::Text(id), text(user_id), SqlValue::Text(input.content), SqlValue::Text(string_or(input.category, "general")), text(now), text(now), SqlValue::Text(string_or(input.visibility, "private")), SqlValue::Integer(0)];
    assert(values_view(p@) =~= create_memory_statement(id_view, now@, user_id, input0).params);
    let st = statement("INSERT INTO memories (id, user_id, content, category, created_at, updated_at, visibility, relevance_score) VALUES (?, ?, ?, ?, ?, ?, ?, ?)", p);
    proof {
        lemma_create_memory_at_columns(st@);
    }
    st
}

/// Builds the insert of a new memory: category `general` and visibility `private` unless given, relevance 0. Uses a fresh identifier and the current time rendered as RFC 3339;
/// returns the identifier with the statement.
pub fn create_memory(user_id: &str, input: CreateMemoryRequest) -> (r: (String, Statement))
    ensures
        is_ulid_text(r.0@),
        exists|t: Seq<char>| #[trigger] create_memory_statement(r.0@, t, user_id, input) == r.1@,
{
    let id = new_ulid();
    let keep = owned(id.as_str());
    let now = now_rfc3339();
    let ghost input0 = input;
    let st = create_memory_at(id, now.as_str(), user_id, input);
    assert(create_memory_statement(keep@, now@, user_id, input0) == st@);
    (keep, st)
}

/// Deletes one memory of a user.
pub fn delete_memory(user_id: &str, id: &str) -> (st: Statement)
    ensures
        st@.sql == "DELETE FROM memories WHERE id = ? AND user_id = ?"@,
        st@.params == seq![SqlValueView::Text(id@), SqlValueView::Text(user_id@)],
        binds_bare(st@, "id = "@, SqlValueView::Text(id@)),
        binds_bare(st@, "user_id = "@, SqlValueView::Text(user_id@)),
{
    let p = vec![text(id), text(user_id)];
    assert(values_view(p@) =~= seq![SqlValueView::Text(id@), SqlValueView::Text(user_id@)]);
    let st = statement("DELETE FROM memories WHERE id = ? AND user_id = ?", p);
    proof {
        reveal_strlit("DELETE FROM memories WHERE id = ? AND user_id = ?");
        reveal_strlit("DELETE FROM memories WHERE id = ");
        reveal_strlit(" AND user_id = ");
        reveal_strlit("id = ");
        reveal_strlit("user_id = ");
        let pieces = seq!["DELETE FROM memories WHERE id = "@, " AND user_id = "@, Seq::<char>::empty()];
        reveal_with_fuel(bare_join, 4);
        assert("DELETE FROM memories WHERE id = ? AND user_id = ?"@ =~= bare_join(pieces));
        assert(bare_pieces(pieces));
        assert(st@ == StatementView { sql: bare_join(pieces), params: st@.params });
        lemma_bare_join_binds(pieces, st@.params, 0, "id = "@);
        lemma_bare_join_binds(pieces, st@.params, 1, "user_id = "@);
    }
    st
}

/// Sets a memory's read and dismissed flags (stored as 1 or 0).
pub fn update_memory_read_status(user_id: &str, id: &str, is_read: bool, is_dismissed: bool) -> (st: Statement)
    ensures
        st@.sql == "UPDATE memories SET is_read = ?, is_dismissed = ? WHERE id = ? AND user_id = ?"@,
        st@.params == seq![SqlValueView::Integer(if is_read { 1 } else { 0 }), SqlValueView::Integer(if is_dismissed { 1 } else { 0 }), SqlValueView::Text(id@), SqlValueView::Text(user_id@)],
        binds_bare(st@, "is_read = "@, SqlValueView::Integer(if is_read { 1 } else { 0 })),
        binds_bare(st@, "is_dismissed = "@, SqlValueView::Integer(if is_dismissed { 1 } else { 0 })),
        binds_bare(st@, "id = "@, SqlValueView::Text(id@)),
        binds_bare(st@, "user_id = "@, SqlValueView::Text(user_id@)),
{
    let p = vec![SqlValue::Integer(if is_read { 1 } else { 0 }), SqlValue::Integer(if is_dismissed { 1 } else { 0 }), text(id), text(user_id)];
    assert(values_view(p@) =~= seq![SqlValueView::Integer(if is_read { 1 } else { 0 }), SqlValueView::Integer(if is_dismissed { 1 } else { 0 }), SqlValueView::Text(id@), SqlValueView::Text(user_id@)]);
    let st = statement("UPDATE memories SET is_read = ?, is_dismissed = ? WHERE id = ? AND user_id = ?", p);
    proof {
        reveal_strlit("UPDATE memories SET is_read = ?, is_dismissed = ? WHERE id = ? AND user_id = ?");
        reveal_strlit("UPDATE memories SET is_read = ");
        reveal_strlit(", is_dismissed = ");
        reveal_strlit(" WHERE id = ");
        reveal_strlit(" AND user_id = ");
        reveal_strlit("is_read = ");
        reveal_strlit("is_dismissed = ");
        reveal_strlit("id = ");
        reveal_strlit("user_id = ");
        let pieces = seq!["UPDATE memories SET is_read = "@, ", is_dismissed = "@, " WHERE id = "@, " AND user_id = "@, Seq::<char>::empty()];
        reveal_with_fuel(bare_join, 6);
        assert("UPDATE memories SET is_read = ?, is_dismissed = ? WHERE id = ? AND user_id = ?"@ =~= bare_join(pieces));
        assert(bare_pieces(pieces));
        assert(st@ == StatementView { sql: bare_join(pieces), params: st@.params });
        lemma_bare_join_binds(pieces, st@.params, 0, "is_read = "@);
        lemma_bare_join_binds(pieces, st@.params, 1, "is_dismissed = "@);
        lemma_bare_join_binds(pieces, st@.params, 2, "id = "@);
        lemma_bare_join_binds(pieces, st@.params, 3, "user_id = "@);
    }
    st
}

/// Marks every memory of a user as read.
pub fn mark_all_memories_read(user_id: &str) -> (st: Statement)
    ensures
        st@.sql == "UPDATE memories SET is_read = 1 WHERE user_id = ?"@,
        st@.params == seq![SqlValueView::Text(user_id@)],
        binds_bare(st@, "user_id = "@, SqlValueView::Text(user_id@)),
{
    let p = vec![text(user_id)];
    assert(values_view(p@) =~= seq![SqlValueView::Text(user_id@)]);
    let st = statement("UPDATE memories SET is_read = 1 WHERE user_id = ?", p);
    proof {
        reveal_strlit("UPDATE memories SET is_read = 1 WHERE user_id = ?");
        reveal_strlit("UPDATE memories SET is_read = 1 WHERE user_id = ");
        reveal_strlit("user_id = ");
        let pieces = seq!["UPDATE memories SET is_read = 1 WHERE user_id = "@, Seq::<char>::empty()];
        reveal_with_fuel(bare_join, 3);
        assert("UPDATE memories SET is_read = 1 WHERE user_id = ?"@ =~= bare_join(pieces));
        assert(bare_pieces(pieces));
        assert(st@ == StatementView { sql: bare_join(pieces), params: st@.params });
        lemma_bare_join_binds(pieces, st@.params, 0, "user_id = "@);
    }
    st
}

/// Deletes every memory of a user.
pub fn delete_all_memories(user_id: &str) -> (st: Statement)
    ensures
        st@.sql == "DELETE FROM memories WHERE user_id = ?"@,
        st@.params == seq![SqlValueView::Text(user_id@)],
        binds_bare(st@, "user_id = "@, SqlValueView::Text(user_id@)),
{
    let p = vec![text(user_id)];
    assert(values_view(p@) =~= seq![SqlValueView::Text(user_id@)]);
    let st = statement("DELETE FROM memories WHERE user_id = ?", p);
    proof {
        reveal_strlit("DELETE FROM memories WHERE user_id = ?");
        reveal_strlit("DELETE FROM memories WHERE user_id = ");
        reveal_strlit("user_id = ");
        let pieces = seq!["DELETE FROM memories WHERE user_id = "@, Seq::<char>::empty()];
        reveal_with_fuel(bare_join, 3);
        assert("DELETE FROM memories WHERE user_id = ?"@ =~= bare_join(pieces));
        assert(bare_pieces(pieces));
        assert(st@ == StatementView { sql: bare_join(pieces), params: st@.params });
        lemma_bare_join_binds(pieces, st@.params, 0, "user_id = "@);
    }
    st
}

/// Lists a user's action items, newest first; `limit` rows after skipping `offset`.
pub fn get_action_items(user_id: &str, limit: i32, offset: i32) -> (st: Statement)
    ensures
        st@.sql == "SELECT id, user_id, title, description, due_date, completed_at, created_at, updated_at, status, relevance_score, source, metadata FROM action_items WHERE user_id = ? ORDER BY created_at DESC LIMIT ? OFFSET ?"@,
        st@.params == seq![SqlValueView::Text(user_id@), SqlValueView::Integer(limit as i64), SqlValueView::Integer(offset as i64)],
        binds_bare(st@, "user_id = "@, SqlValueView::Text(user_id@)),
        binds_bare(st@, "LIMIT "@, SqlValueView::Integer(limit as i64)),
        binds_bare(st@, "OFFSET "@, SqlValueView::Integer(offset as i64)),
{
    let p = vec![text(user_id), SqlValue::Integer(limit as i64), SqlValue::Integer(offset as i64)];
    assert(values_view(p@) =~= seq![SqlValueView::Text(user_id@), SqlValueView::Integer(limit as i64), SqlValueView::Integer(offset as i64)]);
    let st = statement("SELECT id, user_id, title, description, due_date, completed_at, created_at, updated_at, status, relevance_score, source, metadata FROM action_items WHERE user_id = ? ORDER BY created_at DESC LIMIT ? OFFSET ?", p);
    proof {
        reveal_strlit("SELECT id, user_id, title, description, due_date, completed_at, created_at, updated_at, status, relevance_score, source, metadata FROM action_items WHERE user_id = ? ORDER BY created_at DESC LIMIT ? OFFSET ?");
        reveal_strlit("SELECT id, user_id, title, description, due_date, completed_at, created_at, updated_at, status, relevance_score, source, metadata FROM action_items WHERE user_id = ");
        reveal_strlit(" ORDER BY created_at DESC LIMIT ");
        reveal_strlit(" OFFSET ");
        reveal_strlit("user_id = ");
        reveal_strlit("LIMIT ");
        reveal_strlit("OFFSET ");
        let pieces = seq!["SELECT id, user_id, title, description, due_date, completed_at, created_at, updated_at, status, relevance_score, source, metadata FROM action_items WHERE user_id = "@, " ORDER BY created_at DESC LIMIT "@, " OFFSET "@, Seq::<char>::empty()];
        reveal_with_fuel(bare_join, 5);
        assert("SELECT id, user_id, title, description, due_date, completed_at, created_at, updated_at, status, relevance_score, source, metadata FROM action_items WHERE user_id = ? ORDER BY created_at DESC LIMIT ? OFFSET ?"@ =~= bare_join(pieces));
        assert(bare_pieces(pieces));
        assert(st@ == StatementView { sql: bare_join(pieces), params: st@.params });
        lemma_bare_join_binds(pieces, st@.params, 0, "user_id = "@);
        lemma_bare_join_binds(pieces, st@.params, 1, "LIMIT "@);
        lemma_bare_join_binds(pieces, st@.params, 2, "OFFSET "@);
    }
    st
}

/// Selects one action item of a user.
pub fn get_action_item_by_id(user_id: &str, id: &str) -> (st: Statement)
    ensures
        st@.sql == "SELECT id, user_id, title, description, due_date, completed_at, created_at, updated_at, status, relevance_score, source, metadata FROM action_items WHERE id = ? AND user_id = ?"@,
        st@.params == seq![SqlValueView::Text(id@), SqlValueView::Text(user_id@)],
        binds_bare(st@, "id = "@, SqlValueView::Text(id@)),
        binds_bare(st@, "user_id = "@, SqlValueView::Text(user_id@)),
{
    let p = vec![text(id), text(user_id)];
    assert(values_view(p@) =~= seq![SqlValueView::Text(id@), SqlValueView::Text(user_id@)]);
    let st = statement("SELECT id, user_id, title, description, due_date, completed_at, created_at, updated_at, status, relevance_score, source, metadata FROM action_items WHERE id = ? AND user_id = ?", p);
    proof {
        reveal_strlit("SELECT id, user_id, title, description, due_date, completed_at, created_at, updated_at, status, relevance_score, source, metadata FROM action_items WHERE id = ? AND user_id = ?");
        reveal_strlit("SELECT id, user_id, title, description, due_date, completed_at, created_at, updated_at, status, relevance_score, source, metadata FROM action_items WHERE id = ");
        reveal_strlit(" AND user_id = ");
        reveal_strlit("id = ");
        reveal_strlit("user_id = ");
        let pieces = seq!["SELECT id, user_id, title, description, due_date, completed_at, created_at, updated_at, status, relevance_score, source, metadata FROM action_items WHERE id = "@, " AND user_id = "@, Seq::<char>::empty()];
        reveal_with_fuel(bare_join, 4);
        assert("SELECT id, user_id, title, description, due_date, completed_at, created_at, updated_at, status, relevance_score, source, metadata FROM action_items WHERE id = ? AND user_id = ?"@ =~= bare_join(pieces));
        assert(bare_pieces(pieces));
        assert(st@ == StatementView { sql: bare_join(pieces), params: st@.params });
        lemma_bare_join_binds(pieces, st@.params, 0, "id = "@);
        lemma_bare_join_binds(pieces, st@.params, 1, "user_id = "@);
    }
    st
}

/// The insert made by `create_action_item` for a given identifier and time text.
pub open spec fn create_action_item_statement(id: Seq<char>, now: Seq<char>, user_id: &str, input: CreateActionItemRequest) -> StatementView {
    StatementView {
        sql: "INSERT INTO action_items (id, user_id, title, description, due_date, created_at, updated_at, status, relevance_score, source, metadata) VALUES (?, ?, ?, ?, ?, ?, ?, ?, ?, ?, ?)"@,
        params: seq![SqlValueView::Text(id), SqlValueView::Text(user_id@), SqlValueView::Text(input.title@), SqlValueView::Text(text_or(input.description, ""@)), opt_text(input.due_date), SqlValueView::Text(now), SqlValueView::Text(now), SqlValueView::Text("pending"@), SqlValueView::Integer(score_or_zero(input.relevance_score) as i64), SqlValueView::Text(text_or(input.source, "manual"@)), SqlValueView::Text(""@)],
    }
}

/// Builds the insert of a new action item: pending, empty description, relevance 0 and source `manual` unless given, empty metadata.
#[verifier::rlimit(100)]
proof fn lemma_create_action_item_at_columns(st: StatementView)
    requires
        st.sql == "INSERT INTO action_items (id, user_id, title, description, due_date, created_at, updated_at, status, relevance_score, source, metadata) VALUES (?, ?, ?, ?, ?, ?, ?, ?, ?, ?, ?)"@,
        st.params.len() >= 11,
    ensures
        inserts(st, "id"@, st.params[0]),
        inserts(st, "user_id"@, st.params[1]),
        inserts(st, "title"@, st.params[2]),
        inserts(st, "description"@, st.params[3]),
        inserts(st, "due_date"@, st.params[4]),
        inserts(st, "created_at"@, st.params[5]),
        inserts(st, "updated_at"@, st.params[6]),
        inserts(st, "status"@, st.params[7]),
        inserts(st, "relevance_score"@, st.params[8]),
        inserts(st, "source"@, st.params[9]),
        inserts(st, "metadata"@, st.params[10]),
{
    reveal_strlit("INSERT INTO action_items (id, user_id, title, description, due_date, created_at, updated_at, status, relevance_score, source, metadata) VALUES (?, ?, ?, ?, ?, ?, ?, ?, ?, ?, ?)");
    reveal_strlit("INSERT INTO ");
    reveal_strlit("action_items");
    reveal_strlit(" (");
    reveal_strlit(") VALUES (");
    reveal_strlit(")");
    reveal_strlit(", ");
    reveal_strlit("id");
    reveal_strlit("user_id");
    reveal_strlit("title");
    reveal_strlit("description");
    reveal_strlit("due_date");
    reveal_strlit("created_at");
    reveal_strlit("updated_at");
    reveal_strlit("status");
    reveal_strlit("relevance_score");
    reveal_strlit("source");
    reveal_strlit("metadata");
    reveal_strlit("?");
    let cols = seq!["id"@, "user_id"@, "title"@, "description"@, "due_date"@, "created_at"@, "updated_at"@, "status"@, "relevance_score"@, "source"@, "metadata"@];
    let vals = seq!["?"@, "?"@, "?"@, "?"@, "?"@, "?"@, "?"@, "?"@, "?"@, "?"@, "?"@];
    assert("?"@ =~= seq!['?']);
    reveal_with_fuel(comma_list, 12);
    reveal_with_fuel(decimal, 3);
    assert("INSERT INTO action_items (id, user_id, title, description, due_date, created_at, updated_at, status, relevance_score, source, metadata) VALUES (?, ?, ?, ?, ?, ?, ?, ?, ?, ?, ?)"@ =~= insert_sql("INSERT INTO "@, "action_items"@, cols, vals, Seq::<char>::empty()));
    assert(plain_items(cols));
    assert(plain_items(vals));
    assert(insert_layout(st, "INSERT INTO "@, "action_items"@, cols, vals, Seq::<char>::empty()));
    assert(forall|m: int| 0 <= m < vals.len() ==> #[trigger] vals[m] == seq!['?']);
    lemma_inserts_bare(st, "INSERT INTO "@, "action_items"@, cols, vals, Seq::<char>::empty(), 0);
    lemma_inserts_bare(st, "INSERT INTO "@, "action_items"@, cols, vals, Seq::<char>::empty(), 1);
    lemma_inserts_bare(st, "INSERT INTO "@, "action_items"@, cols, vals, Seq::<char>::empty(), 2);
    lemma_inserts_bare(st, "INSERT INTO "@, "action_items"@, cols, vals, Seq::<char>::empty(), 3);
    lemma_inserts_bare(st, "INSERT INTO "@, "action_items"@, cols, vals, Seq::<char>::empty(), 4);
    lemma_inserts_bare(st, "INSERT INTO "@, "action_items"@, cols, vals, Seq::<char>::empty(), 5);
    lemma_inserts_bare(st, "INSERT INTO "@, "action_items"@, cols, vals, Seq::<char>::empty(), 6);
    lemma_inserts_bare(st, "INSERT INTO "@, "action_items"@, cols, vals, Seq::<char>::empty(), 7);
    lemma_inserts_bare(st, "INSERT INTO "@, "action_items"@, cols, vals, Seq::<char>::empty(), 8);
    lemma_inserts_bare(st, "INSERT INTO "@, "action_items"@, cols, vals, Seq::<char>::empty(), 9);
    lemma_inserts_bare(st, "INSERT INTO "@, "action_items"@, cols, vals, Seq::<char>::empty(), 10);
}

pub fn create_action_item_at(id: String, now: &str, user_id: &str, input: CreateActionItemRequest) -> (st: Statement)
    ensures
        st@ == create_action_item_statement(id@, now@, user_id, input),
        inserts(st@, "id"@, SqlValueView::Text(id@)),
        inserts(st@, "user_id"@, SqlValueView::Text(user_id@)),
        inserts(st@, "title"@, SqlValueView::Text(input.title@)),
        inserts(st@, "description"@, SqlValueView::Text(text_or(input.description, ""@))),
        inserts(st@, "due_date"@, opt_text(input.due_date)),
        inserts(st@, "created_at"@, SqlValueView::Text(now@)),
        inserts(st@, "updated_at"@, SqlValueView::Text(now@)),
        inserts(st@, "status"@, SqlValueView::Text("pending"@)),
        inserts(st@, "relevance_score"@, SqlValueView::Integer(score_or_zero(input.relevance_score) as i64)),
        inserts(st@, "source"@, SqlValueView::Text(text_or(input.source, "manual"@))),
        inserts(st@, "metadata"@, SqlValueView::Text(""@)),
{
    let ghost id_view = id@;
    let ghost input0 = input;
    let p = vec![SqlValue::Text(id), text(user_id), SqlValue::Text(input.title), SqlValue::Text(string_or(input.description, "")), text_or_null(input.due_date), text(now), text(now), text("pending"), SqlValue::Integer(relevance_or_zero(input.relevance_score) as i64), SqlValue::Text(string_or(input.source, "manual")), text("")];
    assert(values_view(p@) =~= create_action_item_statement(id_view, now@, user_id, input0).params);
    let st = statement("INSERT INTO action_items (id, user_id, title, description, due_date, created_at, updated_at, status, relevance_score, source, metadata) VALUES (?, ?, ?, ?, ?, ?, ?, ?, ?, ?, ?)", p);
    proof {
        lemma_create_action_item_at_columns(st@);
    }
    st
}

/// Builds the insert of a new action item: pending, empty description, relevance 0 and source `manual` unless given, empty metadata. Uses a fresh identifier and the current time rendered as RFC 3339;
/// returns the identifier with the statement.
pub fn create_action_item(user_id: &str, input: CreateActionItemRequest) -> (r: (String, Statement))
    ensures
        is_ulid_text(r.0@),
        exists|t: Seq<char>| #[trigger] create_action_item_statement(r.0@, t, user_id, input) == r.1@,
{
    let id = new_ulid();
    let keep = owned(id.as_str());
    let now = now_rfc3339();
    let ghost input0 = input;
    let st = create_action_item_at(id, now.as_str(), user_id, input);
    assert(create_action_item_statement(keep@, now@, user_id, input0) == st@);
    (keep, st)
}

/// The statements of an action item update at time `now`, in order: one per
/// given field (title, description, due date, status); a status update also
/// sets the completion time, to `now` when the status is `completed` and to
/// NULL otherwise.
pub open spec fn action_item_update_statements(
    user_id: Seq<char>,
    id: Seq<char>,
    title: Option<Seq<char>>,
    description: Option<Seq<char>>,
    due_date: Option<Seq<char>>,
    status: Option<Seq<char>>,
    now: Seq<char>,
) -> Seq<StatementView> {
    let tail = seq![SqlValueView::Text(now), SqlValueView::Text(id), SqlValueView::Text(user_id)];
    (match title {
        Some(t) => seq![StatementView {
            sql: "UPDATE action_items SET title = ?, updated_at = ? WHERE id = ? AND user_id = ?"@,
            params: seq![SqlValueView::Text(t)] + tail,
        }],
        None => seq![],
    }) + (match description {
        Some(t) => seq![StatementView {
            sql: "UPDATE action_items SET description = ?, updated_at = ? WHERE id = ? AND user_id = ?"@,
            params: seq![SqlValueView::Text(t)] + tail,
        }],
        None => seq![],
    }) + (match due_date {
        Some(t) => seq![StatementView {
            sql: "UPDATE action_items SET due_date = ?, updated_at = ? WHERE id = ? AND user_id = ?"@,
            params: seq![SqlValueView::Text(t)] + tail,
        }],
        None => seq![],
    }) + (match status {
        Some(s) => seq![StatementView {
            sql: "UPDATE action_items SET status = ?, completed_at = ?, updated_at = ? WHERE id = ? AND user_id = ?"@,
            params: seq![
                SqlValueView::Text(s),
                if s == "completed"@ { SqlValueView::Text(now) } else { SqlValueView::Null },
            ] + tail,
        }],
        None => seq![],
    })
}

proof fn lemma_title_update_text_binds(params: Seq<SqlValueView>)
    requires
        params.len() >= 4,
    ensures
        binds_bare(StatementView { sql: "UPDATE action_items SET title = ?, updated_at = ? WHERE id = ? AND user_id = ?"@, params }, "title = "@, params[0]),
        binds_bare(StatementView { sql: "UPDATE action_items SET title = ?, updated_at = ? WHERE id = ? AND user_id = ?"@, params }, "updated_at = "@, params[1]),
        binds_bare(StatementView { sql: "UPDATE action_items SET title = ?, updated_at = ? WHERE id = ? AND user_id = ?"@, params }, "id = "@, params[2]),
        binds_bare(StatementView { sql: "UPDATE action_items SET title = ?, updated_at = ? WHERE id = ? AND user_id = ?"@, params }, "user_id = "@, params[3]),
{
    reveal_strlit("UPDATE action_items SET title = ?, updated_at = ? WHERE id = ? AND user_id = ?");
    reveal_strlit("UPDATE action_items SET title = ");
    reveal_strlit(", updated_at = ");
    reveal_strlit(" WHERE id = ");
    reveal_strlit(" AND user_id = ");
    reveal_strlit("title = ");
    reveal_strlit("updated_at = ");
    reveal_strlit("id = ");
    reveal_strlit("user_id = ");
    let pieces = seq!["UPDATE action_items SET title = "@, ", updated_at = "@, " WHERE id = "@, " AND user_id = "@, Seq::<char>::empty()];
    reveal_with_fuel(bare_join, 6);
    assert("UPDATE action_items SET title = ?, updated_at = ? WHERE id = ? AND user_id = ?"@ =~= bare_join(pieces));
    assert(bare_pieces(pieces));
    lemma_bare_join_binds(pieces, params, 0, "title = "@);
    lemma_bare_join_binds(pieces, params, 1, "updated_at = "@);
    lemma_bare_join_binds(pieces, params, 2, "id = "@);
    lemma_bare_join_binds(pieces, params, 3, "user_id = "@);
}

proof fn lemma_description_update_text_binds(params: Seq<SqlValueView>)
    requires
        params.len() >= 4,
    ensures
        binds_bare(StatementView { sql: "UPDATE action_items SET description = ?, updated_at = ? WHERE id = ? AND user_id = ?"@, params }, "description = "@, params[0]),
        binds_bare(StatementView { sql: "UPDATE action_items SET description = ?, updated_at = ? WHERE id = ? AND user_id = ?"@, params }, "updated_at = "@, params[1]),
        binds_bare(StatementView { sql: "UPDATE action_items SET description = ?, updated_at = ? WHERE id = ? AND user_id = ?"@, params }, "id = "@, params[2]),
        binds_bare(StatementView { sql: "UPDATE action_items SET description = ?, updated_at = ? WHERE id = ? AND user_id = ?"@, params }, "user_id = "@, params[3]),
{
    reveal_strlit("UPDATE action_items SET description = ?, updated_at = ? WHERE id = ? AND user_id = ?");
    reveal_strlit("UPDATE action_items SET description = ");
    reveal_strlit(", updated_at = ");
    reveal_strlit(" WHERE id = ");
    reveal_strlit(" AND user_id = ");
    reveal_strlit("description = ");
    reveal_strlit("updated_at = ");
    reveal_strlit("id = ");
    reveal_strlit("user_id = ");
    let pieces = seq!["UPDATE action_items SET description = "@, ", updated_at = "@, " WHERE id = "@, " AND user_id = "@, Seq::<char>::empty()];
    reveal_with_fuel(bare_join, 6);
    assert("UPDATE action_items SET description = ?, updated_at = ? WHERE id = ? AND user_id = ?"@ =~= bare_join(pieces));
    assert(bare_pieces(pieces));
    lemma_bare_join_binds(pieces, params, 0, "description = "@);
    lemma_bare_join_binds(pieces, params, 1, "updated_at = "@);
    lemma_bare_join_binds(pieces, params, 2, "id = "@);
    lemma_bare_join_binds(pieces, params, 3, "user_id = "@);
}

proof fn lemma_due_date_update_text_binds(params: Seq<SqlValueView>)
    requires
        params.len() >= 4,
    ensures
        binds_bare(StatementView { sql: "UPDATE action_items SET due_date = ?, updated_at = ? WHERE id = ? AND user_id = ?"@, params }, "due_date = "@, params[0]),
        binds_bare(StatementView { sql: "UPDATE action_items SET due_date = ?, updated_at = ? WHERE id = ? AND user_id = ?"@, params }, "updated_at = "@, params[1]),
        binds_bare(StatementView { sql: "UPDATE action_items SET due_date = ?, updated_at = ? WHERE id = ? AND user_id = ?"@, params }, "id = "@, params[2]),
        binds_bare(StatementView { sql: "UPDATE action_items SET due_date = ?, updated_at = ? WHERE id = ? AND user_id = ?"@, params }, "user_id = "@, params[3]),
{
    reveal_strlit("UPDATE action_items SET due_date = ?, updated_at = ? WHERE id = ? AND user_id = ?");
    reveal_strlit("UPDATE action_items SET due_date = ");
    reveal_strlit(", updated_at = ");
    reveal_strlit(" WHERE id = ");
    reveal_strlit(" AND user_id = ");
    reveal_strlit("due_date = ");
    reveal_strlit("updated_at = ");
    reveal_strlit("id = ");
    reveal_strlit("user_id = ");
    let pieces = seq!["UPDATE action_items SET due_date = "@, ", updated_at = "@, " WHERE id = "@, " AND user_id = "@, Seq::<char>::empty()];
    reveal_with_fuel(bare_join, 6);
    assert("UPDATE action_items SET due_date = ?, updated_at = ? WHERE id = ? AND user_id = ?"@ =~= bare_join(pieces));
    assert(bare_pieces(pieces));
    lemma_bare_join_binds(pieces, params, 0, "due_date = "@);
    lemma_bare_join_binds(pieces, params, 1, "updated_at = "@);
    lemma_bare_join_binds(pieces, params, 2, "id = "@);
    lemma_bare_join_binds(pieces, params, 3, "user_id = "@);
}

proof fn lemma_status_update_text_binds(params: Seq<SqlValueView>)
    requires
        params.len() >= 5,
    ensures
        binds_bare(StatementView { sql: "UPDATE action_items SET status = ?, completed_at = ?, updated_at = ? WHERE id = ? AND user_id = ?"@, params }, "status = "@, params[0]),
        binds_bare(StatementView { sql: "UPDATE action_items SET status = ?, completed_at = ?, updated_at = ? WHERE id = ? AND user_id = ?"@, params }, "completed_at = "@, params[1]),
        binds_bare(StatementView { sql: "UPDATE action_items SET status = ?, completed_at = ?, updated_at = ? WHERE id = ? AND user_id = ?"@, params }, "updated_at = "@, params[2]),
        binds_bare(StatementView { sql: "UPDATE action_items SET status = ?, completed_at = ?, updated_at = ? WHERE id = ? AND user_id = ?"@, params }, "id = "@, params[3]),
        binds_bare(StatementView { sql: "UPDATE action_items SET status = ?, completed_at = ?, updated_at = ? WHERE id = ? AND user_id = ?"@, params }, "user_id = "@, params[4]),
{
    reveal_strlit("UPDATE action_items SET status = ?, completed_at = ?, updated_at = ? WHERE id = ? AND user_id = ?");
    reveal_strlit("UPDATE action_items SET status = ");
    reveal_strlit(", completed_at = ");
    reveal_strlit(", updated_at = ");
    reveal_strlit(" WHERE id = ");
    reveal_strlit(" AND user_id = ");
    reveal_strlit("status = ");
    reveal_strlit("completed_at = ");
    reveal_strlit("updated_at = ");
    reveal_strlit("id = ");
    reveal_strlit("user_id = ");
    let pieces = seq!["UPDATE action_items SET status = "@, ", completed_at = "@, ", updated_at = "@, " WHERE id = "@, " AND user_id = "@, Seq::<char>::empty()];
    reveal_with_fuel(bare_join, 7);
    assert("UPDATE action_items SET status = ?, completed_at = ?, updated_at = ? WHERE id = ? AND user_id = ?"@ =~= bare_join(pieces));
    assert(bare_pieces(pieces));
    lemma_bare_join_binds(pieces, params, 0, "status = "@);
    lemma_bare_join_binds(pieces, params, 1, "completed_at = "@);
    lemma_bare_join_binds(pieces, params, 2, "updated_at = "@);
    lemma_bare_join_binds(pieces, params, 3, "id = "@);
    lemma_bare_join_binds(pieces, params, 4, "user_id = "@);
}

/// A statement of an action item update: `key` is bound to `v`, the update
/// time to `updated_at`, and the item and its user to the conditions.
pub open spec fn field_update_binds(st: StatementView, key: Seq<char>, v: SqlValueView, now: Seq<char>, id: Seq<char>, user_id: Seq<char>) -> bool {
    &&& binds_bare(st, key, v)
    &&& binds_bare(st, "updated_at = "@, SqlValueView::Text(now))
    &&& binds_bare(st, "id = "@, SqlValueView::Text(id))
    &&& binds_bare(st, "user_id = "@, SqlValueView::Text(user_id))
}

/// What an action item update does: for each given field, one of its
/// statements binds the field's value to its column, with the update time and
/// the item and its user; a status update binds `completed_at` to the update
/// time when the status is `completed` and to NULL otherwise.
pub open spec fn action_item_update_binds(
    r: Seq<StatementView>,
    user_id: Seq<char>,
    id: Seq<char>,
    title: Option<Seq<char>>,
    description: Option<Seq<char>>,
    due_date: Option<Seq<char>>,
    status: Option<Seq<char>>,
    now: Seq<char>,
) -> bool {
    &&& (title matches Some(t) ==> exists|k: int| 0 <= k < r.len() && #[trigger] field_update_binds(r[k], "title = "@, SqlValueView::Text(t), now, id, user_id))
    &&& (description matches Some(t) ==> exists|k: int| 0 <= k < r.len() && #[trigger] field_update_binds(r[k], "description = "@, SqlValueView::Text(t), now, id, user_id))
    &&& (due_date matches Some(t) ==> exists|k: int| 0 <= k < r.len() && #[trigger] field_update_binds(r[k], "due_date = "@, SqlValueView::Text(t), now, id, user_id))
    &&& (status matches Some(s) ==> exists|k: int| 0 <= k < r.len() && #[trigger] field_update_binds(r[k], "status = "@, SqlValueView::Text(s), now, id, user_id)
        && binds_bare(r[k], "completed_at = "@, if s == "completed"@ { SqlValueView::Text(now) } else { SqlValueView::Null }))
}

/// Law: the statements of an action item update bind each given field, the
/// completion time, the update time, the item and the user as
/// `action_item_update_binds` says.
pub proof fn lemma_action_item_update_binds(
    user_id: Seq<char>,
    id: Seq<char>,
    title: Option<Seq<char>>,
    description: Option<Seq<char>>,
    due_date: Option<Seq<char>>,
    status: Option<Seq<char>>,
    now: Seq<char>,
)
    ensures
        action_item_update_binds(
            action_item_update_statements(user_id, id, title, description, due_date, status, now),
            user_id,
            id,
            title,
            description,
            due_date,
            status,
            now,
        ),
{
    let r = action_item_update_statements(user_id, id, title, description, due_date, status, now);
    let n1: int = if title is Some { 1 } else { 0 };
    let n2: int = if description is Some { 1 } else { 0 };
    let n3: int = if due_date is Some { 1 } else { 0 };
    if let Some(t) = title {
        lemma_title_update_text_binds(r[0].params);
        assert(field_update_binds(r[0], "title = "@, SqlValueView::Text(t), now, id, user_id));
    }
    if let Some(t) = description {
        lemma_description_update_text_binds(r[n1].params);
        assert(field_update_binds(r[n1], "description = "@, SqlValueView::Text(t), now, id, user_id));
    }
    if let Some(t) = due_date {
        lemma_due_date_update_text_binds(r[n1 + n2].params);
        assert(field_update_binds(r[n1 + n2], "due_date = "@, SqlValueView::Text(t), now, id, user_id));
    }
    if let Some(s) = status {
        lemma_status_update_text_binds(r[n1 + n2 + n3].params);
        assert(field_update_binds(r[n1 + n2 + n3], "status = "@, SqlValueView::Text(s), now, id, user_id));
    }
}

/// The text of an optional borrowed string.
pub open spec fn opt_str(o: Option<&str>) -> Option<Seq<char>> {
    match o {
        Some(t) => Some(t@),
        None => None,
    }
}

/// The views of a list of statements.
pub open spec fn statements_view(v: Seq<Statement>) -> Seq<StatementView> {
    v.map_values(|s: Statement| s@)
}

fn field_update(sql: &str, value: &str, now: &str, id: &str, user_id: &str) -> (st: Statement)
    ensures
        st@ == (StatementView {
            sql: sql@,
            params: seq![SqlValueView::Text(value@)] + seq![SqlValueView::Text(now@), SqlValueView::Text(id@), SqlValueView::Text(user_id@)],
        }),
{
    let p = vec![text(value), text(now), text(id), text(user_id)];
    assert(values_view(p@) =~= seq![SqlValueView::Text(value@)] + seq![SqlValueView::Text(now@), SqlValueView::Text(id@), SqlValueView::Text(user_id@)]);
    statement(sql, p)
}

/// Whether two texts are equal.
fn same_text(a: &str, b: &str) -> (r: bool)
    ensures
        r == (a@ == b@),
{
    let x = owned(a);
    let y = owned(b);
    x == y
}

proof fn lemma_push_view(v: Seq<Statement>, s: Statement)
    ensures
        statements_view(v.push(s)) == statements_view(v) + seq![s@],
{
    assert(statements_view(v.push(s)) =~= statements_view(v) + seq![s@]);
}

/// Builds the statements of an action item update at time `now`.
pub fn update_action_item_at(
    user_id: &str,
    id: &str,
    title: Option<&str>,
    description: Option<&str>,
    due_date: Option<&str>,
    status: Option<&str>,
    now: &str,
) -> (r: Vec<Statement>)
    ensures
        statements_view(r@) == action_item_update_statements(
            user_id@,
            id@,
            opt_str(title),
            opt_str(description),
            opt_str(due_date),
            opt_str(status),
            now@,
        ),
        action_item_update_binds(
            statements_view(r@),
            user_id@,
            id@,
            opt_str(title),
            opt_str(description),
            opt_str(due_date),
            opt_str(status),
            now@,
        ),
{
    let mut r: Vec<Statement> = Vec::new();
    let ghost tail = seq![SqlValueView::Text(now@), SqlValueView::Text(id@), SqlValueView::Text(user_id@)];
    let ghost mut acc: Seq<StatementView> = seq![];
    assert(statements_view(r@) =~= acc);
    if let Some(t) = title {
        let st = field_update("UPDATE action_items SET title = ?, updated_at = ? WHERE id = ? AND user_id = ?", t, now, id, user_id);
        proof { lemma_push_view(r@, st); }
        r.push(st);
    }
    let ghost a1 = statements_view(r@);
    assert(a1 =~~= match title { Some(t) => seq![StatementView {
            sql: "UPDATE action_items SET title = ?, updated_at = ? WHERE id = ? AND user_id = ?"@,
            params: seq![SqlValueView::Text(t@)] + tail,
        }], None => seq![] });
    if let Some(t) = description {
        let st = field_update("UPDATE action_items SET description = ?, updated_at = ? WHERE id = ? AND user_id = ?", t, now, id, user_id);
        proof { lemma_push_view(r@, st); }
        r.push(st);
    }
    let ghost a2 = statements_view(r@);
    assert(a2 =~~= a1 + match description { Some(t) => seq![StatementView {
            sql: "UPDATE action_items SET description = ?, updated_at = ? WHERE id = ? AND user_id = ?"@,
            params: seq![SqlValueView::Text(t@)] + tail,
        }], None => seq![] });
    if let Some(t) = due_date {
        let st = field_update("UPDATE action_items SET due_date = ?, updated_at = ? WHERE id = ? AND user_id = ?", t, now, id, user_id);
        proof { lemma_push_view(r@, st); }
        r.push(st);
    }
    let ghost a3 = statements_view(r@);
    assert(a3 =~~= a2 + match due_date { Some(t) => seq![StatementView {
            sql: "UPDATE action_items SET due_date = ?, updated_at = ? WHERE id = ? AND user_id = ?"@,
            params: seq![SqlValueView::Text(t@)] + tail,
        }], None => seq![] });
    if let Some(s) = status {
        let completed_at = if same_text(s, "completed") { text(now) } else { SqlValue::Null };
        let p = vec![text(s), completed_at, text(now), text(id), text(user_id)];
        let ghost cv = if s@ == "completed"@ { SqlValueView::Text(now@) } else { SqlValueView::Null };
        assert(values_view(p@) =~= seq![SqlValueView::Text(s@), cv] + tail);
        let st = statement("UPDATE action_items SET status = ?, completed_at = ?, updated_at = ? WHERE id = ? AND user_id = ?", p);
        proof { lemma_push_view(r@, st); }
        r.push(st);
    }
    proof {
        lemma_action_item_update_binds(user_id@, id@, opt_str(title), opt_str(description), opt_str(due_date), opt_str(status), now@);
    }
    r
}

/// Builds the statements of an action item update, stamped with the current
/// time rendered as RFC 3339.
pub fn update_action_item(
    user_id: &str,
    id: &str,
    title: Option<&str>,
    description: Option<&str>,
    due_date: Option<&str>,
    status: Option<&str>,
) -> (r: Vec<Statement>)
    ensures
        exists|t: Seq<char>| #[trigger] action_item_update_statements(
            user_id@,
            id@,
            opt_str(title),
            opt_str(description),
            opt_str(due_date),
            opt_str(status),
            t,
        ) == statements_view(r@),
        exists|t: Seq<char>| #[trigger] action_item_update_binds(
            statements_view(r@),
            user_id@,
            id@,
            opt_str(title),
            opt_str(description),
            opt_str(due_date),
            opt_str(status),
            t,
        ),
{
    let now = now_rfc3339();
    update_action_item_at(user_id, id, title, description, due_date, status, now.as_str())
}

/// Deletes one action item of a user.
pub fn delete_action_item(user_id: &str, id: &str) -> (st: Statement)
    ensures
        st@.sql == "DELETE FROM action_items WHERE id = ? AND user_id = ?"@,
        st@.params == seq![SqlValueView::Text(id@), SqlValueView::Text(user_id@)],
        binds_bare(st@, "id = "@, SqlValueView::Text(id@)),
        binds_bare(st@, "user_id = "@, SqlValueView::Text(user_id@)),
{
    let p = vec![text(id), text(user_id)];
    assert(values_view(p@) =~= seq![SqlValueView::Text(id@), SqlValueView::Text(user_id@)]);
    let st = statement("DELETE FROM action_items WHERE id = ? AND user_id = ?", p);
    proof {
        reveal_strlit("DELETE FROM action_items WHERE id = ? AND user_id = ?");
        reveal_strlit("DELETE FROM action_items WHERE id = ");
        reveal_strlit(" AND user_id = ");
        reveal_strlit("id = ");
        reveal_strlit("user_id = ");
        let pieces = seq!["DELETE FROM action_items WHERE id = "@, " AND user_id = "@, Seq::<char>::empty()];
        reveal_with_fuel(bare_join, 4);
        assert("DELETE FROM action_items WHERE id = ? AND user_id = ?"@ =~= bare_join(pieces));
        assert(bare_pieces(pieces));
        assert(st@ == StatementView { sql: bare_join(pieces), params: st@.params });
        lemma_bare_join_binds(pieces, st@.params, 0, "id = "@);
        lemma_bare_join_binds(pieces, st@.params, 1, "user_id = "@);
    }
    st
}

/// The statement that stores one relevance score in `table`.
pub open spec fn relevance_statement(sql: Seq<char>, user_id: &str, entry: (String, i32)) -> StatementView {
    StatementView {
        sql: sql,
        params: seq![SqlValueView::Integer(entry.1 as i64), SqlValueView::Text(entry.0@), SqlValueView::Text(user_id@)],
    }
}

fn relevance_updates(sql: &str, user_id: &str, scores: &Vec<(String, i32)>) -> (r: Vec<Statement>)
    ensures
        r.len() == scores.len(),
        forall|k: int| 0 <= k < r.len() ==> (#[trigger] r@[k])@ == relevance_statement(sql@, user_id, scores@[k]),
{
    let mut out: Vec<Statement> = Vec::new();
    let mut i: usize = 0;
    while i < scores.len()
        invariant
            i <= scores.len(),
            out.len() == i,
            forall|k: int| 0 <= k < i ==> (#[trigger] out@[k])@ == relevance_statement(sql@, user_id, scores@[k]),
        decreases scores.len() - i,
    {
        let entry = &scores[i];
        let p = vec![SqlValue::Integer(entry.1 as i64), text(entry.0.as_str()), text(user_id)];
        assert(values_view(p@) =~= relevance_statement(sql@, user_id, *entry).params);
        out.push(statement(sql, p));
        i = i + 1;
    }
    out
}

/// The relevance update binds the score, the item and the user to their own placeholders.
proof fn lemma_relevance_text_binds(params: Seq<SqlValueView>)
    requires
        params.len() >= 3,
    ensures
        binds_bare(StatementView { sql: "UPDATE action_items SET relevance_score = ? WHERE id = ? AND user_id = ?"@, params }, "relevance_score = "@, params[0]),
        binds_bare(StatementView { sql: "UPDATE action_items SET relevance_score = ? WHERE id = ? AND user_id = ?"@, params }, "id = "@, params[1]),
        binds_bare(StatementView { sql: "UPDATE action_items SET relevance_score = ? WHERE id = ? AND user_id = ?"@, params }, "user_id = "@, params[2]),
{
    reveal_strlit("UPDATE action_items SET relevance_score = ? WHERE id = ? AND user_id = ?");
    reveal_strlit("UPDATE action_items SET relevance_score = ");
    reveal_strlit(" WHERE id = ");
    reveal_strlit(" AND user_id = ");
    reveal_strlit("relevance_score = ");
    reveal_strlit("id = ");
    reveal_strlit("user_id = ");
    let pieces = seq!["UPDATE action_items SET relevance_score = "@, " WHERE id = "@, " AND user_id = "@, Seq::<char>::empty()];
    reveal_with_fuel(bare_join, 5);
    assert("UPDATE action_items SET relevance_score = ? WHERE id = ? AND user_id = ?"@ =~= bare_join(pieces));
    assert(bare_pieces(pieces));
    lemma_bare_join_binds(pieces, params, 0, "relevance_score = "@);
    lemma_bare_join_binds(pieces, params, 1, "id = "@);
    lemma_bare_join_binds(pieces, params, 2, "user_id = "@);
}

/// Builds one relevance update per `(action item, score)` pair, in the order given.
pub fn batch_update_scores(user_id: &str, scores: &Vec<(String, i32)>) -> (r: Vec<Statement>)
    ensures
        r.len() == scores.len(),
        forall|k: int| 0 <= k < r.len() ==> (#[trigger] r@[k])@ == relevance_statement(
            "UPDATE action_items SET relevance_score = ? WHERE id = ? AND user_id = ?"@,
            user_id,
            scores@[k],
        ),
        forall|k: int| 0 <= k < r.len() ==> binds_bare((#[trigger] r@[k])@, "relevance_score = "@, SqlValueView::Integer(scores@[k].1 as i64)) && binds_bare(r@[k]@, "id = "@, SqlValueView::Text(scores@[k].0@)) && binds_bare(r@[k]@, "user_id = "@, SqlValueView::Text(user_id@)),
{
    let r = relevance_updates("UPDATE action_items SET relevance_score = ? WHERE id = ? AND user_id = ?", user_id, scores);
    proof {
        assert forall|k: int| 0 <= k < r.len() implies binds_bare((#[trigger] r@[k])@, "relevance_score = "@, SqlValueView::Integer(scores@[k].1 as i64)) && binds_bare(r@[k]@, "id = "@, SqlValueView::Text(scores@[k].0@)) && binds_bare(r@[k]@, "user_id = "@, SqlValueView::Text(user_id@)) by {
            lemma_relevance_text_binds(r@[k]@.params);
        }
    }
    r
}

/// The staged relevance update binds the score, the task and the user to their own placeholders.
proof fn lemma_staged_relevance_text_binds(params: Seq<SqlValueView>)
    requires
        params.len() >= 3,
    ensures
        binds_bare(StatementView { sql: "UPDATE staged_tasks SET relevance_score = ? WHERE id = ? AND user_id = ?"@, params }, "relevance_score = "@, params[0]),
        binds_bare(StatementView { sql: "UPDATE staged_tasks SET relevance_score = ? WHERE id = ? AND user_id = ?"@, params }, "id = "@, params[1]),
        binds_bare(StatementView { sql: "UPDATE staged_tasks SET relevance_score = ? WHERE id = ? AND user_id = ?"@, params }, "user_id = "@, params[2]),
{
    reveal_strlit("UPDATE staged_tasks SET relevance_score = ? WHERE id = ? AND user_id = ?");
    reveal_strlit("UPDATE staged_tasks SET relevance_score = ");
    reveal_strlit(" WHERE id = ");
    reveal_strlit(" AND user_id = ");
    reveal_strlit("relevance_score = ");
    reveal_strlit("id = ");
    reveal_strlit("user_id = ");
    let pieces = seq!["UPDATE staged_tasks SET relevance_score = "@, " WHERE id = "@, " AND user_id = "@, Seq::<char>::empty()];
    reveal_with_fuel(bare_join, 5);
    assert("UPDATE staged_tasks SET relevance_score = ? WHERE id = ? AND user_id = ?"@ =~= bare_join(pieces));
    assert(bare_pieces(pieces));
    lemma_bare_join_binds(pieces, params, 0, "relevance_score = "@);
    lemma_bare_join_binds(pieces, params, 1, "id = "@);
    lemma_bare_join_binds(pieces, params, 2, "user_id = "@);
}

/// Builds one relevance update per `(staged task, score)` pair, in the order given.
pub fn batch_update_staged_scores(user_id: &str, scores: &Vec<(String, i32)>) -> (r: Vec<Statement>)
    ensures
        r.len() == scores.len(),
        forall|k: int| 0 <= k < r.len() ==> (#[trigger] r@[k])@ == relevance_statement(
            "UPDATE staged_tasks SET relevance_score = ? WHERE id = ? AND user_id = ?"@,
            user_id,
            scores@[k],
        ),
        forall|k: int| 0 <= k < r.len() ==> binds_bare((#[trigger] r@[k])@, "relevance_score = "@, SqlValueView::Integer(scores@[k].1 as i64)) && binds_bare(r@[k]@, "id = "@, SqlValueView::Text(scores@[k].0@)) && binds_bare(r@[k]@, "user_id = "@, SqlValueView::Text(user_id@)),
{
    let r = relevance_updates("UPDATE staged_tasks SET relevance_score = ? WHERE id = ? AND user_id = ?", user_id, scores);
    proof {
        assert forall|k: int| 0 <= k < r.len() implies binds_bare((#[trigger] r@[k])@, "relevance_score = "@, SqlValueView::Integer(scores@[k].1 as i64)) && binds_bare(r@[k]@, "id = "@, SqlValueView::Text(scores@[k].0@)) && binds_bare(r@[k]@, "user_id = "@, SqlValueView::Text(user_id@)) by {
            lemma_staged_relevance_text_binds(r@[k]@.params);
        }
    }
    r
}

/// Lists a user's staged tasks, most relevant first; `limit` rows after skipping `offset`.
pub fn get_staged_tasks(user_id: &str, limit: i32, offset: i32) -> (st: Statement)
    ensures
        st@.sql == "SELECT id, user_id, title, description, relevance_score, created_at, metadata FROM staged_tasks WHERE user_id = ? ORDER BY relevance_score DESC LIMIT ? OFFSET ?"@,
        st@.params == seq![SqlValueView::Text(user_id@), SqlValueView::Integer(limit as i64), SqlValueView::Integer(offset as i64)],
        binds_bare(st@, "user_id = "@, SqlValueView::Text(user_id@)),
        binds_bare(st@, "LIMIT "@, SqlValueView::Integer(limit as i64)),
        binds_bare(st@, "OFFSET "@, SqlValueView::Integer(offset as i64)),
{
    let p = vec![text(user_id), SqlValue::Integer(limit as i64), SqlValue::Integer(offset as i64)];
    assert(values_view(p@) =~= seq![SqlValueView::Text(user_id@), SqlValueView::Integer(limit as i64), SqlValueView::Integer(offset as i64)]);
    let st = statement("SELECT id, user_id, title, description, relevance_score, created_at, metadata FROM staged_tasks WHERE user_id = ? ORDER BY relevance_score DESC LIMIT ? OFFSET ?", p);
    proof {
        reveal_strlit("SELECT id, user_id, title, description, relevance_score, created_at, metadata FROM staged_tasks WHERE user_id = ? ORDER BY relevance_score DESC LIMIT ? OFFSET ?");
        reveal_strlit("SELECT id, user_id, title, description, relevance_score, created_at, metadata FROM staged_tasks WHERE user_id = ");
        reveal_strlit(" ORDER BY relevance_score DESC LIMIT ");
        reveal_strlit(" OFFSET ");
        reveal_strlit("user_id = ");
        reveal_strlit("LIMIT ");
        reveal_strlit("OFFSET ");
        let pieces = seq!["SELECT id, user_id, title, description, relevance_score, created_at, metadata FROM staged_tasks WHERE user_id = "@, " ORDER BY relevance_score DESC LIMIT "@, " OFFSET "@, Seq::<char>::empty()];
        reveal_with_fuel(bare_join, 5);
        assert("SELECT id, user_id, title, description, relevance_score, created_at, metadata FROM staged_tasks WHERE user_id = ? ORDER BY relevance_score DESC LIMIT ? OFFSET ?"@ =~= bare_join(pieces));
        assert(bare_pieces(pieces));
        assert(st@ == StatementView { sql: bare_join(pieces), params: st@.params });
        lemma_bare_join_binds(pieces, st@.params, 0, "user_id = "@);
        lemma_bare_join_binds(pieces, st@.params, 1, "LIMIT "@);
        lemma_bare_join_binds(pieces, st@.params, 2, "OFFSET "@);
    }
    st
}

/// The insert made by `create_staged_task` for a given identifier and time text.
pub open spec fn create_staged_task_statement(id: Seq<char>, now: Seq<char>, user_id: &str, title: &str, description: &str, relevance_score: i32) -> StatementView {
    StatementView {
        sql: "INSERT INTO staged_tasks (id, user_id, title, description, relevance_score, created_at, metadata) VALUES (?, ?, ?, ?, ?, ?, ?)"@,
        params: seq![SqlValueView::Text(id), SqlValueView::Text(user_id@), SqlValueView::Text(title@), SqlValueView::Text(description@), SqlValueView::Integer(relevance_score as i64), SqlValueView::Text(now), SqlValueView::Text(""@)],
    }
}

/// Builds the insert of a new staged task, with empty metadata.
#[verifier::rlimit(100)]
proof fn lemma_create_staged_task_at_columns(st: StatementView)
    requires
        st.sql == "INSERT INTO staged_tasks (id, user_id, title, description, relevance_score, created_at, metadata) VALUES (?, ?, ?, ?, ?, ?, ?)"@,
        st.params.len() >= 7,
    ensures
        inserts(st, "id"@, st.params[0]),
        inserts(st, "user_id"@, st.params[1]),
        inserts(st, "title"@, st.params[2]),
        inserts(st, "description"@, st.params[3]),
        inserts(st, "relevance_score"@, st.params[4]),
        inserts(st, "created_at"@, st.params[5]),
        inserts(st, "metadata"@, st.params[6]),
{
    reveal_strlit("INSERT INTO staged_tasks (id, user_id, title, description, relevance_score, created_at, metadata) VALUES (?, ?, ?, ?, ?, ?, ?)");
    reveal_strlit("INSERT INTO ");
    reveal_strlit("staged_tasks");
    reveal_strlit(" (");
    reveal_strlit(") VALUES (");
    reveal_strlit(")");
    reveal_strlit(", ");
    reveal_strlit("id");
    reveal_strlit("user_id");
    reveal_strlit("title");
    reveal_strlit("description");
    reveal_strlit("relevance_score");
    reveal_strlit("created_at");
    reveal_strlit("metadata");
    reveal_strlit("?");
    let cols = seq!["id"@, "user_id"@, "title"@, "description"@, "relevance_score"@, "created_at"@, "metadata"@];
    let vals = seq!["?"@, "?"@, "?"@, "?"@, "?"@, "?"@, "?"@];
    assert("?"@ =~= seq!['?']);
    reveal_with_fuel(comma_list, 8);
    reveal_with_fuel(decimal, 3);
    assert("INSERT INTO staged_tasks (id, user_id, title, description, relevance_score, created_at, metadata) VALUES (?, ?, ?, ?, ?, ?, ?)"@ =~= insert_sql("INSERT INTO "@, "staged_tasks"@, cols, vals, Seq::<char>::empty()));
    assert(plain_items(cols));
    assert(plain_items(vals));
    assert(insert_layout(st, "INSERT INTO "@, "staged_tasks"@, cols, vals, Seq::<char>::empty()));
    assert(forall|m: int| 0 <= m < vals.len() ==> #[trigger] vals[m] == seq!['?']);
    lemma_inserts_bare(st, "INSERT INTO "@, "staged_tasks"@, cols, vals, Seq::<char>::empty(), 0);
    lemma_inserts_bare(st, "INSERT INTO "@, "staged_tasks"@, cols, vals, Seq::<char>::empty(), 1);
    lemma_inserts_bare(st, "INSERT INTO "@, "staged_tasks"@, cols, vals, Seq::<char>::empty(), 2);
    lemma_inserts_bare(st, "INSERT INTO "@, "staged_tasks"@, cols, vals, Seq::<char>::empty(), 3);
    lemma_inserts_bare(st, "INSERT INTO "@, "staged_tasks"@, cols, vals, Seq::<char>::empty(), 4);
    lemma_inserts_bare(st, "INSERT INTO "@, "staged_tasks"@, cols, vals, Seq::<char>::empty(), 5);
    lemma_inserts_bare(st, "INSERT INTO "@, "staged_tasks"@, cols, vals, Seq::<char>::empty(), 6);
}

pub fn create_staged_task_at(id: String, now: &str, user_id: &str, title: &str, description: &str, relevance_score: i32) -> (st: Statement)
    ensures
        st@ == create_staged_task_statement(id@, now@, user_id, title, description, relevance_score),
        inserts(st@, "id"@, SqlValueView::Text(id@)),
        inserts(st@, "user_id"@, SqlValueView::Text(user_id@)),
        inserts(st@, "title"@, SqlValueView::Text(title@)),
        inserts(st@, "description"@, SqlValueView::Text(description@)),
        inserts(st@, "relevance_score"@, SqlValueView::Integer(relevance_score as i64)),
        inserts(st@, "created_at"@, SqlValueView::Text(now@)),
        inserts(st@, "metadata"@, SqlValueView::Text(""@)),
{
    let ghost id_view = id@;
    let p = vec![SqlValue::Text(id), text(user_id), text(title), text(description), SqlValue::Integer(relevance_score as i64), text(now), text("")];
    assert(values_view(p@) =~= create_staged_task_statement(id_view, now@, user_id, title, description, relevance_score).params);
    let st = statement("INSERT INTO staged_tasks (id, user_id, title, description, relevance_score, created_at, metadata) VALUES (?, ?, ?, ?, ?, ?, ?)", p);
    proof {
        lemma_create_staged_task_at_columns(st@);
    }
    st
}

/// Builds the insert of a new staged task, with empty metadata. Uses a fresh identifier and the current time rendered as RFC 3339;
/// returns the identifier with the statement.
pub fn create_staged_task(user_id: &str, title: &str, description: &str, relevance_score: i32) -> (r: (String, Statement))
    ensures
        is_ulid_text(r.0@),
        exists|t: Seq<char>| #[trigger] create_staged_task_statement(r.0@, t, user_id, title, description, relevance_score) == r.1@,
{
    let id = new_ulid();
    let keep = owned(id.as_str());
    let now = now_rfc3339();
    let st = create_staged_task_at(id, now.as_str(), user_id, title, description, relevance_score);
    assert(create_staged_task_statement(keep@, now@, user_id, title, description, relevance_score) == st@);
    (keep, st)
}

/// Selects one staged task by identifier.
pub fn get_staged_task(id: &str) -> (st: Statement)
    ensures
        st@.sql == "SELECT id, user_id, title, description, relevance_score, created_at, metadata FROM staged_tasks WHERE id = ?"@,
        st@.params == seq![SqlValueView::Text(id@)],
        binds_bare(st@, "id = "@, SqlValueView::Text(id@)),
{
    let p = vec![text(id)];
    assert(values_view(p@) =~= seq![SqlValueView::Text(id@)]);
    let st = statement("SELECT id, user_id, title, description, relevance_score, created_at, metadata FROM staged_tasks WHERE id = ?", p);
    proof {
        reveal_strlit("SELECT id, user_id, title, description, relevance_score, created_at, metadata FROM staged_tasks WHERE id = ?");
        reveal_strlit("SELECT id, user_id, title, description, relevance_score, created_at, metadata FROM staged_tasks WHERE id = ");
        reveal_strlit("id = ");
        let pieces = seq!["SELECT id, user_id, title, description, relevance_score, created_at, metadata FROM staged_tasks WHERE id = "@, Seq::<char>::empty()];
        reveal_with_fuel(bare_join, 3);
        assert("SELECT id, user_id, title, description, relevance_score, created_at, metadata FROM staged_tasks WHERE id = ?"@ =~= bare_join(pieces));
        assert(bare_pieces(pieces));
        assert(st@ == StatementView { sql: bare_join(pieces), params: st@.params });
        lemma_bare_join_binds(pieces, st@.params, 0, "id = "@);
    }
    st
}

/// Deletes one staged task of a user.
pub fn delete_staged_task(user_id: &str, id: &str) -> (st: Statement)
    ensures
        st@.sql == "DELETE FROM staged_tasks WHERE id = ? AND user_id = ?"@,
        st@.params == seq![SqlValueView::Text(id@), SqlValueView::Text(user_id@)],
        binds_bare(st@, "id = "@, SqlValueView::Text(id@)),
        binds_bare(st@, "user_id = "@, SqlValueView::Text(user_id@)),
{
    let p = vec![text(id), text(user_id)];
    assert(values_view(p@) =~= seq![SqlValueView::Text(id@), SqlValueView::Text(user_id@)]);
    let st = statement("DELETE FROM staged_tasks WHERE id = ? AND user_id = ?", p);
    proof {
        reveal_strlit("DELETE FROM staged_tasks WHERE id = ? AND user_id = ?");
        reveal_strlit("DELETE FROM staged_tasks WHERE id = ");
        reveal_strlit(" AND user_id = ");
        reveal_strlit("id = ");
        reveal_strlit("user_id = ");
        let pieces = seq!["DELETE FROM staged_tasks WHERE id = "@, " AND user_id = "@, Seq::<char>::empty()];
        reveal_with_fuel(bare_join, 4);
        assert("DELETE FROM staged_tasks WHERE id = ? AND user_id = ?"@ =~= bare_join(pieces));
        assert(bare_pieces(pieces));
        assert(st@ == StatementView { sql: bare_join(pieces), params: st@.params });
        lemma_bare_join_binds(pieces, st@.params, 0, "id = "@);
        lemma_bare_join_binds(pieces, st@.params, 1, "user_id = "@);
    }
    st
}

} // verus!
