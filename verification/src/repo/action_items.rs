//! Statements of the action item repository.
use vstd::prelude::*;
use vstd::string::*;

use crate::clock::{is_ulid_text, new_ulid, utc_now};
use crate::model::{ActionItemInput, ActionItemUpdate, Pagination, ScoreUpdate, Timestamp};
use crate::binding::{bare_pieces, binds_numbered, insert_layout, insert_sql, inserts, lemma_inserts_null, lemma_inserts_numbered, lemma_numbered_join_binds, lemma_update_binds_member, numbered_join, plain_items};
use crate::sql::{comma_list, 
    bool_view, int_view, opt_bool_value, opt_int_value, opt_set, opt_text, opt_text_value,
    opt_time, opt_time_value, statement, text, text_or_null, text_view, time_or_null,
    time_view, update_statement, values_view, Binding, SqlValue, SqlValueView, Statement,
    StatementView, UpdateBuilder,
};
use crate::text::{decimal, owned};

verus! {

/// The priority an action item is created with: the given one, else 0.
pub open spec fn initial_priority(p: Option<i32>) -> i32 {
    match p {
        Some(x) => x,
        None => 0,
    }
}

/// The given priority, else 0.
pub fn priority_or_default(p: Option<i32>) -> (r: i32)
    ensures
        r == initial_priority(p),
{
    match p {
        Some(x) => x,
        None => 0,
    }
}

/// The insert made by `create_action_item` for a given identifier and time.
pub open spec fn create_action_item_statement(id: Seq<char>, now: Timestamp, uid: &str, input: ActionItemInput) -> StatementView {
    StatementView {
        sql: "INSERT INTO action_items (id, uid, content, completed, due_date, priority, conversation_id, created_at, updated_at, score) VALUES (?1, ?2, ?3, ?4, ?5, ?6, ?7, ?8, ?9, NULL)"@,
        params: seq![SqlValueView::Text(id), SqlValueView::Text(uid@), SqlValueView::Text(input.content@), SqlValueView::Bool(input.completed), opt_time(input.due_date), SqlValueView::Integer(initial_priority(input.priority) as i64), opt_text(input.conversation_id), SqlValueView::DateTime(now), SqlValueView::DateTime(now)],
    }
}

/// Builds the insert of a new action item, with no score yet and priority 0 unless one is given.
#[verifier::rlimit(100)]
proof fn lemma_create_action_item_at_columns(st: StatementView)
    requires
        st.sql == "INSERT INTO action_items (id, uid, content, completed, due_date, priority, conversation_id, created_at, updated_at, score) VALUES (?1, ?2, ?3, ?4, ?5, ?6, ?7, ?8, ?9, NULL)"@,
        st.params.len() >= 9,
    ensures
        inserts(st, "id"@, st.params[0]),
        inserts(st, "uid"@, st.params[1]),
        inserts(st, "content"@, st.params[2]),
        inserts(st, "completed"@, st.params[3]),
        inserts(st, "due_date"@, st.params[4]),
        inserts(st, "priority"@, st.params[5]),
        inserts(st, "conversation_id"@, st.params[6]),
        inserts(st, "created_at"@, st.params[7]),
        inserts(st, "updated_at"@, st.params[8]),
        inserts(st, "score"@, SqlValueView::Null),
{
    reveal_strlit("INSERT INTO action_items (id, uid, content, completed, due_date, priority, conversation_id, created_at, updated_at, score) VALUES (?1, ?2, ?3, ?4, ?5, ?6, ?7, ?8, ?9, NULL)");
    reveal_strlit("INSERT INTO ");
    reveal_strlit("action_items");
    reveal_strlit(" (");
    reveal_strlit(") VALUES (");
    reveal_strlit(")");
    reveal_strlit(", ");
    reveal_strlit("id");
    reveal_strlit("uid");
    reveal_strlit("content");
    reveal_strlit("completed");
    reveal_strlit("due_date");
    reveal_strlit("priority");
    reveal_strlit("conversation_id");
    reveal_strlit("created_at");
    reveal_strlit("updated_at");
    reveal_strlit("score");
    reveal_strlit("?1");
    reveal_strlit("?2");
    reveal_strlit("?3");
    reveal_strlit("?4");
    reveal_strlit("?5");
    reveal_strlit("?6");
    reveal_strlit("?7");
    reveal_strlit("?8");
    reveal_strlit("?9");
    reveal_strlit("NULL");
    let cols = seq!["id"@, "uid"@, "content"@, "completed"@, "due_date"@, "priority"@, "conversation_id"@, "created_at"@, "updated_at"@, "score"@];
    let vals = seq!["?1"@, "?2"@, "?3"@, "?4"@, "?5"@, "?6"@, "?7"@, "?8"@, "?9"@, "NULL"@];
    reveal_with_fuel(comma_list, 11);
    reveal_with_fuel(decimal, 3);
    assert("INSERT INTO action_items (id, uid, content, completed, due_date, priority, conversation_id, created_at, updated_at, score) VALUES (?1, ?2, ?3, ?4, ?5, ?6, ?7, ?8, ?9, NULL)"@ =~= insert_sql("INSERT INTO "@, "action_items"@, cols, vals, Seq::<char>::empty()));
    assert(plain_items(cols));
    assert(plain_items(vals));
    assert(insert_layout(st, "INSERT INTO "@, "action_items"@, cols, vals, Seq::<char>::empty()));
    assert(vals[0] == seq!['?'] + decimal(1));
    lemma_inserts_numbered(st, "INSERT INTO "@, "action_items"@, cols, vals, Seq::<char>::empty(), 0, 1);
    assert(vals[1] == seq!['?'] + decimal(2));
    lemma_inserts_numbered(st, "INSERT INTO "@, "action_items"@, cols, vals, Seq::<char>::empty(), 1, 2);
    assert(vals[2] == seq!['?'] + decimal(3));
    lemma_inserts_numbered(st, "INSERT INTO "@, "action_items"@, cols, vals, Seq::<char>::empty(), 2, 3);
    assert(vals[3] == seq!['?'] + decimal(4));
    lemma_inserts_numbered(st, "INSERT INTO "@, "action_items"@, cols, vals, Seq::<char>::empty(), 3, 4);
    assert(vals[4] == seq!['?'] + decimal(5));
    lemma_inserts_numbered(st, "INSERT INTO "@, "action_items"@, cols, vals, Seq::<char>::empty(), 4, 5);
    assert(vals[5] == seq!['?'] + decimal(6));
    lemma_inserts_numbered(st, "INSERT INTO "@, "action_items"@, cols, vals, Seq::<char>::empty(), 5, 6);
    assert(vals[6] == seq!['?'] + decimal(7));
    lemma_inserts_numbered(st, "INSERT INTO "@, "action_items"@, cols, vals, Seq::<char>::empty(), 6, 7);
    assert(vals[7] == seq!['?'] + decimal(8));
    lemma_inserts_numbered(st, "INSERT INTO "@, "action_items"@, cols, vals, Seq::<char>::empty(), 7, 8);
    assert(vals[8] == seq!['?'] + decimal(9));
    lemma_inserts_numbered(st, "INSERT INTO "@, "action_items"@, cols, vals, Seq::<char>::empty(), 8, 9);
    lemma_inserts_null(st, "INSERT INTO "@, "action_items"@, cols, vals, Seq::<char>::empty(), 9);
}

pub fn create_action_item_at(id: String, now: Timestamp, uid: &str, input: ActionItemInput) -> (st: Statement)
    ensures
        st@ == create_action_item_statement(id@, now, uid, input),
        inserts(st@, "id"@, SqlValueView::Text(id@)),
        inserts(st@, "uid"@, SqlValueView::Text(uid@)),
        inserts(st@, "content"@, SqlValueView::Text(input.content@)),
        inserts(st@, "completed"@, SqlValueView::Bool(input.completed)),
        inserts(st@, "due_date"@, opt_time(input.due_date)),
        inserts(st@, "priority"@, SqlValueView::Integer(initial_priority(input.priority) as i64)),
        inserts(st@, "conversation_id"@, opt_text(input.conversation_id)),
        inserts(st@, "created_at"@, SqlValueView::DateTime(now)),
        inserts(st@, "updated_at"@, SqlValueView::DateTime(now)),
        inserts(st@, "score"@, SqlValueView::Null),
{
    let ghost id_view = id@;
    let ghost input0 = input;
    let p = vec![SqlValue::Text(id), text(uid), SqlValue::Text(input.content), SqlValue::Bool(input.completed), time_or_null(input.due_date), SqlValue::Integer(priority_or_default(input.priority) as i64), text_or_null(input.conversation_id), SqlValue::DateTime(now), SqlValue::DateTime(now)];
    assert(values_view(p@) =~= create_action_item_statement(id_view, now, uid, input0).params);
    let st = statement("INSERT INTO action_items (id, uid, content, completed, due_date, priority, conversation_id, created_at, updated_at, score) VALUES (?1, ?2, ?3, ?4, ?5, ?6, ?7, ?8, ?9, NULL)", p);
    proof {
        lemma_create_action_item_at_columns(st@);
    }
    st
}

/// Builds the insert of a new action item, with no score yet and priority 0 unless one is given. Uses a fresh identifier and the current time; returns the identifier
/// with the statement.
pub fn create_action_item(uid: &str, input: ActionItemInput) -> (r: (String, Statement))
    ensures
        is_ulid_text(r.0@),
        exists|t: Timestamp| r.1@ == create_action_item_statement(r.0@, t, uid, input),
{
    let id = new_ulid();
    let keep = owned(id.as_str());
    let st = create_action_item_at(id, utc_now(), uid, input);
    (keep, st)
}

/// Selects one action item of a user.
pub fn get_action_item(uid: &str, action_item_id: &str) -> (st: Statement)
    ensures
        st@.sql == "SELECT id, uid, content, completed, due_date, priority, conversation_id, created_at, updated_at, score FROM action_items WHERE id = ?1 AND uid = ?2"@,
        st@.params == seq![SqlValueView::Text(action_item_id@), SqlValueView::Text(uid@)],
        binds_numbered(st@, "id = "@, SqlValueView::Text(action_item_id@)),
        binds_numbered(st@, "uid = "@, SqlValueView::Text(uid@)),
{
    let p = vec![text(action_item_id), text(uid)];
    assert(values_view(p@) =~= seq![SqlValueView::Text(action_item_id@), SqlValueView::Text(uid@)]);
    let st = statement("SELECT id, uid, content, completed, due_date, priority, conversation_id, created_at, updated_at, score FROM action_items WHERE id = ?1 AND uid = ?2", p);
    proof {
        reveal_strlit("SELECT id, uid, content, completed, due_date, priority, conversation_id, created_at, updated_at, score FROM action_items WHERE id = ?1 AND uid = ?2");
        reveal_strlit("SELECT id, uid, content, completed, due_date, priority, conversation_id, created_at, updated_at, score FROM action_items WHERE id = ");
        reveal_strlit(" AND uid = ");
        reveal_strlit("id = ");
        reveal_strlit("uid = ");
        let pieces = seq!["SELECT id, uid, content, completed, due_date, priority, conversation_id, created_at, updated_at, score FROM action_items WHERE id = "@, " AND uid = "@, Seq::<char>::empty()];
        reveal_with_fuel(numbered_join, 4);
        assert(decimal(1) =~= seq!['1']);
        assert(decimal(2) =~= seq!['2']);
        assert("SELECT id, uid, content, completed, due_date, priority, conversation_id, created_at, updated_at, score FROM action_items WHERE id = ?1 AND uid = ?2"@ =~= numbered_join(pieces, 1));
        assert(bare_pieces(pieces));
        assert(st@ == StatementView { sql: numbered_join(pieces, 1), params: st@.params });
        lemma_numbered_join_binds(pieces, st@.params, 0, "id = "@);
        lemma_numbered_join_binds(pieces, st@.params, 1, "uid = "@);
    }
    st
}

/// Lists a user's action items, newest first; one page.
pub fn list_action_items(uid: &str, page: Pagination) -> (st: Statement)
    ensures
        st@.sql == "SELECT id, uid, content, completed, due_date, priority, conversation_id, created_at, updated_at, score FROM action_items WHERE uid = ?1 ORDER BY created_at DESC LIMIT ?2 OFFSET ?3"@,
        st@.params == seq![SqlValueView::Text(uid@), SqlValueView::Size(page.limit), SqlValueView::Size(page.offset)],
        binds_numbered(st@, "uid = "@, SqlValueView::Text(uid@)),
        binds_numbered(st@, "LIMIT "@, SqlValueView::Size(page.limit)),
        binds_numbered(st@, "OFFSET "@, SqlValueView::Size(page.offset)),
{
    let p = vec![text(uid), SqlValue::Size(page.limit), SqlValue::Size(page.offset)];
    assert(values_view(p@) =~= seq![SqlValueView::Text(uid@), SqlValueView::Size(page.limit), SqlValueView::Size(page.offset)]);
    let st = statement("SELECT id, uid, content, completed, due_date, priority, conversation_id, created_at, updated_at, score FROM action_items WHERE uid = ?1 ORDER BY created_at DESC LIMIT ?2 OFFSET ?3", p);
    proof {
        reveal_strlit("SELECT id, uid, content, completed, due_date, priority, conversation_id, created_at, updated_at, score FROM action_items WHERE uid = ?1 ORDER BY created_at DESC LIMIT ?2 OFFSET ?3");
        reveal_strlit("SELECT id, uid, content, completed, due_date, priority, conversation_id, created_at, updated_at, score FROM action_items WHERE uid = ");
        reveal_strlit(" ORDER BY created_at DESC LIMIT ");
        reveal_strlit(" OFFSET ");
        reveal_strlit("uid = ");
        reveal_strlit("LIMIT ");
        reveal_strlit("OFFSET ");
        let pieces = seq!["SELECT id, uid, content, completed, due_date, priority, conversation_id, created_at, updated_at, score FROM action_items WHERE uid = "@, " ORDER BY created_at DESC LIMIT "@, " OFFSET "@, Seq::<char>::empty()];
        reveal_with_fuel(numbered_join, 5);
        assert(decimal(1) =~= seq!['1']);
        assert(decimal(2) =~= seq!['2']);
        assert(decimal(3) =~= seq!['3']);
        assert("SELECT id, uid, content, completed, due_date, priority, conversation_id, created_at, updated_at, score FROM action_items WHERE uid = ?1 ORDER BY created_at DESC LIMIT ?2 OFFSET ?3"@ =~= numbered_join(pieces, 1));
        assert(bare_pieces(pieces));
        assert(st@ == StatementView { sql: numbered_join(pieces, 1), params: st@.params });
        lemma_numbered_join_binds(pieces, st@.params, 0, "uid = "@);
        lemma_numbered_join_binds(pieces, st@.params, 1, "LIMIT "@);
        lemma_numbered_join_binds(pieces, st@.params, 2, "OFFSET "@);
    }
    st
}

/// The assignments of `update_action_item`: the update time first, then each field that is
/// present.
pub open spec fn action_item_update_sets(now: Timestamp, u: ActionItemUpdate) -> Seq<Binding> {
    seq![("updated_at"@, SqlValueView::DateTime(now))] + opt_set("content"@, text_view(u.content)) + opt_set("completed"@, bool_view(u.completed)) + opt_set("due_date"@, time_view(u.due_date)) + opt_set("priority"@, int_view(u.priority))
}

/// What the update binds: the update time to `updated_at`, each field that
/// is given to its column, and the row and its user to the `id` and `uid`
/// conditions.
pub open spec fn action_item_update_binds(st: StatementView, uid: Seq<char>, action_item_id: Seq<char>, u: ActionItemUpdate, now: Timestamp) -> bool {
    &&& binds_numbered(st, "updated_at = "@, SqlValueView::DateTime(now))
    &&& (u.content matches Some(c) ==> binds_numbered(st, "content = "@, SqlValueView::Text(c@)))
    &&& (u.completed matches Some(c) ==> binds_numbered(st, "completed = "@, SqlValueView::Bool(c)))
    &&& (u.due_date matches Some(c) ==> binds_numbered(st, "due_date = "@, SqlValueView::DateTime(c)))
    &&& (u.priority matches Some(c) ==> binds_numbered(st, "priority = "@, SqlValueView::Integer(c as i64)))
    &&& binds_numbered(st, "id = "@, SqlValueView::Text(action_item_id))
    &&& binds_numbered(st, "uid = "@, SqlValueView::Text(uid))
}

/// Law: the update binds every given field to its column, the update time
/// to `updated_at`, and the row and its user to the conditions.
pub proof fn lemma_action_item_update_binds(uid: Seq<char>, action_item_id: Seq<char>, u: ActionItemUpdate, now: Timestamp)
    ensures
        action_item_update_binds(update_statement("action_items"@, action_item_update_sets(now, u), seq![("id"@, SqlValueView::Text(action_item_id)), ("uid"@, SqlValueView::Text(uid))]), uid, action_item_id, u, now),
{
    broadcast use vstd::seq_lib::lemma_seq_concat_contains_all_elements, vstd::seq_lib::lemma_seq_contains_after_push;
    let t = "action_items"@;
    let sets = action_item_update_sets(now, u);
    let wheres = seq![("id"@, SqlValueView::Text(action_item_id)), ("uid"@, SqlValueView::Text(uid))];
    {
        reveal_strlit("updated_at");
        reveal_strlit("updated_at = ");
        assert("updated_at = "@ =~= "updated_at"@ + seq![' ', '=', ' ']);
        assert(sets.contains(("updated_at"@, SqlValueView::DateTime(now))) || wheres.contains(("updated_at"@, SqlValueView::DateTime(now))));
        lemma_update_binds_member(t, sets, wheres, "updated_at"@, "updated_at = "@, SqlValueView::DateTime(now));
    }
    if let Some(c) = u.content {
        reveal_strlit("content");
        reveal_strlit("content = ");
        assert("content = "@ =~= "content"@ + seq![' ', '=', ' ']);
        assert(sets.contains(("content"@, SqlValueView::Text(c@))) || wheres.contains(("content"@, SqlValueView::Text(c@))));
        lemma_update_binds_member(t, sets, wheres, "content"@, "content = "@, SqlValueView::Text(c@));
    }
    if let Some(c) = u.completed {
        reveal_strlit("completed");
        reveal_strlit("completed = ");
        assert("completed = "@ =~= "completed"@ + seq![' ', '=', ' ']);
        assert(sets.contains(("completed"@, SqlValueView::Bool(c))) || wheres.contains(("completed"@, SqlValueView::Bool(c))));
        lemma_update_binds_member(t, sets, wheres, "completed"@, "completed = "@, SqlValueView::Bool(c));
    }
    if let Some(c) = u.due_date {
        reveal_strlit("due_date");
        reveal_strlit("due_date = ");
        assert("due_date = "@ =~= "due_date"@ + seq![' ', '=', ' ']);
        assert(sets.contains(("due_date"@, SqlValueView::DateTime(c))) || wheres.contains(("due_date"@, SqlValueView::DateTime(c))));
        lemma_update_binds_member(t, sets, wheres, "due_date"@, "due_date = "@, SqlValueView::DateTime(c));
    }
    if let Some(c) = u.priority {
        reveal_strlit("priority");
        reveal_strlit("priority = ");
        assert("priority = "@ =~= "priority"@ + seq![' ', '=', ' ']);
        assert(sets.contains(("priority"@, SqlValueView::Integer(c as i64))) || wheres.contains(("priority"@, SqlValueView::Integer(c as i64))));
        lemma_update_binds_member(t, sets, wheres, "priority"@, "priority = "@, SqlValueView::Integer(c as i64));
    }
    {
        reveal_strlit("id");
        reveal_strlit("id = ");
        assert("id = "@ =~= "id"@ + seq![' ', '=', ' ']);
        assert(sets.contains(("id"@, SqlValueView::Text(action_item_id))) || wheres.contains(("id"@, SqlValueView::Text(action_item_id))));
        lemma_update_binds_member(t, sets, wheres, "id"@, "id = "@, SqlValueView::Text(action_item_id));
    }
    {
        reveal_strlit("uid");
        reveal_strlit("uid = ");
        assert("uid = "@ =~= "uid"@ + seq![' ', '=', ' ']);
        assert(sets.contains(("uid"@, SqlValueView::Text(uid))) || wheres.contains(("uid"@, SqlValueView::Text(uid))));
        lemma_update_binds_member(t, sets, wheres, "uid"@, "uid = "@, SqlValueView::Text(uid));
    }
}

/// Builds the update of an action item.
pub fn update_action_item_at(uid: &str, action_item_id: &str, u: ActionItemUpdate, now: Timestamp) -> (st: Statement)
    ensures
        st@ == update_statement("action_items"@, action_item_update_sets(now, u), seq![("id"@, SqlValueView::Text(action_item_id@)), ("uid"@, SqlValueView::Text(uid@))]),
        action_item_update_binds(st@, uid@, action_item_id@, u, now),
{
    let ghost u0 = u;
    let mut b = UpdateBuilder::new("action_items");
    b.set("updated_at", SqlValue::DateTime(now));
    assert(b.sets() =~= seq![("updated_at"@, SqlValueView::DateTime(now))]);
    b.set_opt("content", opt_text_value(u.content));
    b.set_opt("completed", opt_bool_value(u.completed));
    b.set_opt("due_date", opt_time_value(u.due_date));
    b.set_opt("priority", opt_int_value(u.priority));
    b.where_eq("id", text(action_item_id));
    b.where_eq("uid", text(uid));
    assert(b.sets() =~= action_item_update_sets(now, u0));
    assert(b.wheres() =~= seq![("id"@, SqlValueView::Text(action_item_id@)), ("uid"@, SqlValueView::Text(uid@))]);
    let st = b.finish();
    proof {
        lemma_action_item_update_binds(uid@, action_item_id@, u0, now);
    }
    st
}

/// Builds the update of an action item. Stamped with the current time.
pub fn update_action_item(uid: &str, action_item_id: &str, u: ActionItemUpdate) -> (st: Statement)
    ensures
        exists|t: Timestamp|
            st@ == update_statement("action_items"@, action_item_update_sets(t, u), seq![("id"@, SqlValueView::Text(action_item_id@)), ("uid"@, SqlValueView::Text(uid@))]),
        exists|t: Timestamp| action_item_update_binds(st@, uid@, action_item_id@, u, t),
{
    update_action_item_at(uid, action_item_id, u, utc_now())
}

/// Deletes one action item of a user.
pub fn delete_action_item(uid: &str, action_item_id: &str) -> (st: Statement)
    ensures
        st@.sql == "DELETE FROM action_items WHERE id = ?1 AND uid = ?2"@,
        st@.params == seq![SqlValueView::Text(action_item_id@), SqlValueView::Text(uid@)],
        binds_numbered(st@, "id = "@, SqlValueView::Text(action_item_id@)),
        binds_numbered(st@, "uid = "@, SqlValueView::Text(uid@)),
{
    let p = vec![text(action_item_id), text(uid)];
    assert(values_view(p@) =~= seq![SqlValueView::Text(action_item_id@), SqlValueView::Text(uid@)]);
    let st = statement("DELETE FROM action_items WHERE id = ?1 AND uid = ?2", p);
    proof {
        reveal_strlit("DELETE FROM action_items WHERE id = ?1 AND uid = ?2");
        reveal_strlit("DELETE FROM action_items WHERE id = ");
        reveal_strlit(" AND uid = ");
        reveal_strlit("id = ");
        reveal_strlit("uid = ");
        let pieces = seq!["DELETE FROM action_items WHERE id = "@, " AND uid = "@, Seq::<char>::empty()];
        reveal_with_fuel(numbered_join, 4);
        assert(decimal(1) =~= seq!['1']);
        assert(decimal(2) =~= seq!['2']);
        assert("DELETE FROM action_items WHERE id = ?1 AND uid = ?2"@ =~= numbered_join(pieces, 1));
        assert(bare_pieces(pieces));
        assert(st@ == StatementView { sql: numbered_join(pieces, 1), params: st@.params });
        lemma_numbered_join_binds(pieces, st@.params, 0, "id = "@);
        lemma_numbered_join_binds(pieces, st@.params, 1, "uid = "@);
    }
    st
}

/// The statement that stores the score of one action item.
pub open spec fn score_statement(uid: &str, s: ScoreUpdate) -> StatementView {
    StatementView {
        sql: "UPDATE action_items SET score = ?1 WHERE id = ?2 AND uid = ?3"@,
        params: seq![SqlValueView::Real(s.score), SqlValueView::Text(s.id@), SqlValueView::Text(uid@)],
    }
}

/// The score update binds the score, the item and the user to their own placeholders.
proof fn lemma_score_text_binds(params: Seq<SqlValueView>)
    requires
        params.len() >= 3,
    ensures
        binds_numbered(StatementView { sql: "UPDATE action_items SET score = ?1 WHERE id = ?2 AND uid = ?3"@, params }, "score = "@, params[0]),
        binds_numbered(StatementView { sql: "UPDATE action_items SET score = ?1 WHERE id = ?2 AND uid = ?3"@, params }, "id = "@, params[1]),
        binds_numbered(StatementView { sql: "UPDATE action_items SET score = ?1 WHERE id = ?2 AND uid = ?3"@, params }, "uid = "@, params[2]),
{
    reveal_strlit("UPDATE action_items SET score = ?1 WHERE id = ?2 AND uid = ?3");
    reveal_strlit("UPDATE action_items SET score = ");
    reveal_strlit(" WHERE id = ");
    reveal_strlit(" AND uid = ");
    reveal_strlit("score = ");
    reveal_strlit("id = ");
    reveal_strlit("uid = ");
    let pieces = seq!["UPDATE action_items SET score = "@, " WHERE id = "@, " AND uid = "@, Seq::<char>::empty()];
    reveal_with_fuel(numbered_join, 5);
    assert(decimal(1) =~= seq!['1']);
    assert(decimal(2) =~= seq!['2']);
    assert(decimal(3) =~= seq!['3']);
    assert("UPDATE action_items SET score = ?1 WHERE id = ?2 AND uid = ?3"@ =~= numbered_join(pieces, 1));
    assert(bare_pieces(pieces));
    lemma_numbered_join_binds(pieces, params, 0, "score = "@);
    lemma_numbered_join_binds(pieces, params, 1, "id = "@);
    lemma_numbered_join_binds(pieces, params, 2, "uid = "@);
}

/// Builds one score update per entry, in the order given.
pub fn batch_update_scores(uid: &str, updates: Vec<ScoreUpdate>) -> (r: Vec<Statement>)
    ensures
        r.len() == updates.len(),
        forall|k: int| 0 <= k < r.len() ==> (#[trigger] r@[k])@ == score_statement(uid, updates@[k]),
        forall|k: int| 0 <= k < r.len() ==> binds_numbered((#[trigger] r@[k])@, "score = "@, SqlValueView::Real(updates@[k].score)) && binds_numbered(r@[k]@, "id = "@, SqlValueView::Text(updates@[k].id@)) && binds_numbered(r@[k]@, "uid = "@, SqlValueView::Text(uid@)),
{
    let mut out: Vec<Statement> = Vec::new();
    let mut rest = updates;
    let ghost all = rest@;
    let mut remaining: Vec<ScoreUpdate> = Vec::new();
    // Take the entries from the back, then emit them front to back.
    while rest.len() > 0
        invariant
            rest@ + remaining@.reverse() == all,
        decreases rest.len(),
    {
        let s = rest.pop().unwrap();
        let ghost before = remaining@;
        remaining.push(s);
        assert(remaining@.reverse() =~= seq![s] + before.reverse());
        assert(rest@ + remaining@.reverse() =~= all);
    }
    assert(remaining@.reverse() =~= all);
    let n = remaining.len();
    while remaining.len() > 0
        invariant
            out.len() + remaining.len() == n,
            n == all.len(),
            remaining@.reverse() == all.skip(out.len() as int),
            forall|k: int| 0 <= k < out.len() ==> (#[trigger] out@[k])@ == score_statement(uid, all[k]),
        decreases remaining.len(),
    {
        let s = remaining.pop().unwrap();
        let ghost k = out.len() as int;
        assert(all.skip(k)[0] == s) by {
            assert(remaining@.push(s).reverse()[0] == s);
        }
        let ghost sv = s;
        let p = vec![SqlValue::Real(s.score), SqlValue::Text(s.id), text(uid)];
        assert(values_view(p@) =~= score_statement(uid, sv).params);
        let st = statement("UPDATE action_items SET score = ?1 WHERE id = ?2 AND uid = ?3", p);
        out.push(st);
        assert(remaining@.reverse() =~= all.skip(out.len() as int)) by {
            assert(all.skip(k).drop_first() =~= all.skip(k + 1));
            assert(remaining@.push(sv).reverse() =~= seq![sv] + remaining@.reverse());
        }
    }
    let r = out;
    proof {
        assert forall|k: int| 0 <= k < r.len() implies binds_numbered((#[trigger] r@[k])@, "score = "@, SqlValueView::Real(updates@[k].score)) && binds_numbered(r@[k]@, "id = "@, SqlValueView::Text(updates@[k].id@)) && binds_numbered(r@[k]@, "uid = "@, SqlValueView::Text(uid@)) by {
            lemma_score_text_binds(r@[k]@.params);
        }
    }
    r
}

} // verus!
