//! Statements of the conversation repository.
use vstd::prelude::*;
use vstd::string::*;

use crate::clock::{is_ulid_text, new_ulid, utc_now};
use crate::model::{ConversationInput, ConversationUpdate, Pagination, Timestamp};
use crate::binding::{bare_pieces, binds_numbered, insert_layout, insert_sql, inserts, lemma_inserts_numbered, lemma_numbered_join_binds, lemma_update_binds_member, numbered_join, plain_items};
use crate::sql::{comma_list, 
    opt_set, opt_text, opt_text_value, opt_time_value, statement, text, text_or_null,
    text_view, time_view, update_statement, values_view, Binding, SqlValue, SqlValueView,
    Statement, StatementView, UpdateBuilder,
};
use crate::text::{decimal, owned};

verus! {

/// The insert made by `create_conversation` for a given identifier and time.
pub open spec fn create_conversation_statement(id: Seq<char>, now: Timestamp, uid: &str, input: ConversationInput, geolocation_json: Option<String>) -> StatementView {
    StatementView {
        sql: "INSERT INTO conversations (id, uid, title, status, created_at, updated_at, source, geolocation, last_message_at) VALUES (?1, ?2, ?3, ?4, ?5, ?6, ?7, ?8, ?9)"@,
        params: seq![SqlValueView::Text(id), SqlValueView::Text(uid@), SqlValueView::Text(input.title@), SqlValueView::Text("active"@), SqlValueView::DateTime(now), SqlValueView::DateTime(now), opt_text(input.source), opt_text(geolocation_json), SqlValueView::DateTime(now)],
    }
}

/// Builds the insert of a new conversation: status `active`, and its last message time set to its creation time; the geolocation is given as JSON text.
#[verifier::rlimit(100)]
proof fn lemma_create_conversation_at_columns(st: StatementView)
    requires
        st.sql == "INSERT INTO conversations (id, uid, title, status, created_at, updated_at, source, geolocation, last_message_at) VALUES (?1, ?2, ?3, ?4, ?5, ?6, ?7, ?8, ?9)"@,
        st.params.len() >= 9,
    ensures
        inserts(st, "id"@, st.params[0]),
        inserts(st, "uid"@, st.params[1]),
        inserts(st, "title"@, st.params[2]),
        inserts(st, "status"@, st.params[3]),
        inserts(st, "created_at"@, st.params[4]),
        inserts(st, "updated_at"@, st.params[5]),
        inserts(st, "source"@, st.params[6]),
        inserts(st, "geolocation"@, st.params[7]),
        inserts(st, "last_message_at"@, st.params[8]),
{
    reveal_strlit("INSERT INTO conversations (id, uid, title, status, created_at, updated_at, source, geolocation, last_message_at) VALUES (?1, ?2, ?3, ?4, ?5, ?6, ?7, ?8, ?9)");
    reveal_strlit("INSERT INTO ");
    reveal_strlit("conversations");
    reveal_strlit(" (");
    reveal_strlit(") VALUES (");
    reveal_strlit(")");
    reveal_strlit(", ");
    reveal_strlit("id");
    reveal_strlit("uid");
    reveal_strlit("title");
    reveal_strlit("status");
    reveal_strlit("created_at");
    reveal_strlit("updated_at");
    reveal_strlit("source");
    reveal_strlit("geolocation");
    reveal_strlit("last_message_at");
    reveal_strlit("?1");
    reveal_strlit("?2");
    reveal_strlit("?3");
    reveal_strlit("?4");
    reveal_strlit("?5");
    reveal_strlit("?6");
    reveal_strlit("?7");
    reveal_strlit("?8");
    reveal_strlit("?9");
    let cols = seq!["id"@, "uid"@, "title"@, "status"@, "created_at"@, "updated_at"@, "source"@, "geolocation"@, "last_message_at"@];
    let vals = seq!["?1"@, "?2"@, "?3"@, "?4"@, "?5"@, "?6"@, "?7"@, "?8"@, "?9"@];
    reveal_with_fuel(comma_list, 10);
    reveal_with_fuel(decimal, 3);
    assert("INSERT INTO conversations (id, uid, title, status, created_at, updated_at, source, geolocation, last_message_at) VALUES (?1, ?2, ?3, ?4, ?5, ?6, ?7, ?8, ?9)"@ =~= insert_sql("INSERT INTO "@, "conversations"@, cols, vals, Seq::<char>::empty()));
    assert(plain_items(cols));
    assert(plain_items(vals));
    assert(insert_layout(st, "INSERT INTO "@, "conversations"@, cols, vals, Seq::<char>::empty()));
    assert(vals[0] == seq!['?'] + decimal(1));
    lemma_inserts_numbered(st, "INSERT INTO "@, "conversations"@, cols, vals, Seq::<char>::empty(), 0, 1);
    assert(vals[1] == seq!['?'] + decimal(2));
    lemma_inserts_numbered(st, "INSERT INTO "@, "conversations"@, cols, vals, Seq::<char>::empty(), 1, 2);
    assert(vals[2] == seq!['?'] + decimal(3));
    lemma_inserts_numbered(st, "INSERT INTO "@, "conversations"@, cols, vals, Seq::<char>::empty(), 2, 3);
    assert(vals[3] == seq!['?'] + decimal(4));
    lemma_inserts_numbered(st, "INSERT INTO "@, "conversations"@, cols, vals, Seq::<char>::empty(), 3, 4);
    assert(vals[4] == seq!['?'] + decimal(5));
    lemma_inserts_numbered(st, "INSERT INTO "@, "conversations"@, cols, vals, Seq::<char>::empty(), 4, 5);
    assert(vals[5] == seq!['?'] + decimal(6));
    lemma_inserts_numbered(st, "INSERT INTO "@, "conversations"@, cols, vals, Seq::<char>::empty(), 5, 6);
    assert(vals[6] == seq!['?'] + decimal(7));
    lemma_inserts_numbered(st, "INSERT INTO "@, "conversations"@, cols, vals, Seq::<char>::empty(), 6, 7);
    assert(vals[7] == seq!['?'] + decimal(8));
    lemma_inserts_numbered(st, "INSERT INTO "@, "conversations"@, cols, vals, Seq::<char>::empty(), 7, 8);
    assert(vals[8] == seq!['?'] + decimal(9));
    lemma_inserts_numbered(st, "INSERT INTO "@, "conversations"@, cols, vals, Seq::<char>::empty(), 8, 9);
}

pub fn create_conversation_at(id: String, now: Timestamp, uid: &str, input: ConversationInput, geolocation_json: Option<String>) -> (st: Statement)
    ensures
        st@ == create_conversation_statement(id@, now, uid, input, geolocation_json),
        inserts(st@, "id"@, SqlValueView::Text(id@)),
        inserts(st@, "uid"@, SqlValueView::Text(uid@)),
        inserts(st@, "title"@, SqlValueView::Text(input.title@)),
        inserts(st@, "status"@, SqlValueView::Text("active"@)),
        inserts(st@, "created_at"@, SqlValueView::DateTime(now)),
        inserts(st@, "updated_at"@, SqlValueView::DateTime(now)),
        inserts(st@, "source"@, opt_text(input.source)),
        inserts(st@, "geolocation"@, opt_text(geolocation_json)),
        inserts(st@, "last_message_at"@, SqlValueView::DateTime(now)),
{
    let ghost id_view = id@;
    let ghost input0 = input;
    let p = vec![SqlValue::Text(id), text(uid), SqlValue::Text(input.title), text("active"), SqlValue::DateTime(now), SqlValue::DateTime(now), text_or_null(input.source), text_or_null(geolocation_json), SqlValue::DateTime(now)];
    assert(values_view(p@) =~= create_conversation_statement(id_view, now, uid, input0, geolocation_json).params);
    let st = statement("INSERT INTO conversations (id, uid, title, status, created_at, updated_at, source, geolocation, last_message_at) VALUES (?1, ?2, ?3, ?4, ?5, ?6, ?7, ?8, ?9)", p);
    proof {
        lemma_create_conversation_at_columns(st@);
    }
    st
}

/// Builds the insert of a new conversation: status `active`, and its last message time set to its creation time; the geolocation is given as JSON text. Uses a fresh identifier and the current time; returns the identifier
/// with the statement.
pub fn create_conversation(uid: &str, input: ConversationInput, geolocation_json: Option<String>) -> (r: (String, Statement))
    ensures
        is_ulid_text(r.0@),
        exists|t: Timestamp| r.1@ == create_conversation_statement(r.0@, t, uid, input, geolocation_json),
{
    let id = new_ulid();
    let keep = owned(id.as_str());
    let st = create_conversation_at(id, utc_now(), uid, input, geolocation_json);
    (keep, st)
}

/// Selects one conversation of a user.
pub fn get_conversation(uid: &str, conversation_id: &str) -> (st: Statement)
    ensures
        st@.sql == "SELECT id, uid, title, status, created_at, updated_at, source, geolocation, last_message_at FROM conversations WHERE id = ?1 AND uid = ?2"@,
        st@.params == seq![SqlValueView::Text(conversation_id@), SqlValueView::Text(uid@)],
        binds_numbered(st@, "id = "@, SqlValueView::Text(conversation_id@)),
        binds_numbered(st@, "uid = "@, SqlValueView::Text(uid@)),
{
    let p = vec![text(conversation_id), text(uid)];
    assert(values_view(p@) =~= seq![SqlValueView::Text(conversation_id@), SqlValueView::Text(uid@)]);
    let st = statement("SELECT id, uid, title, status, created_at, updated_at, source, geolocation, last_message_at FROM conversations WHERE id = ?1 AND uid = ?2", p);
    proof {
        reveal_strlit("SELECT id, uid, title, status, created_at, updated_at, source, geolocation, last_message_at FROM conversations WHERE id = ?1 AND uid = ?2");
        reveal_strlit("SELECT id, uid, title, status, created_at, updated_at, source, geolocation, last_message_at FROM conversations WHERE id = ");
        reveal_strlit(" AND uid = ");
        reveal_strlit("id = ");
        reveal_strlit("uid = ");
        let pieces = seq!["SELECT id, uid, title, status, created_at, updated_at, source, geolocation, last_message_at FROM conversations WHERE id = "@, " AND uid = "@, Seq::<char>::empty()];
        reveal_with_fuel(numbered_join, 4);
        assert(decimal(1) =~= seq!['1']);
        assert(decimal(2) =~= seq!['2']);
        assert("SELECT id, uid, title, status, created_at, updated_at, source, geolocation, last_message_at FROM conversations WHERE id = ?1 AND uid = ?2"@ =~= numbered_join(pieces, 1));
        assert(bare_pieces(pieces));
        assert(st@ == StatementView { sql: numbered_join(pieces, 1), params: st@.params });
        lemma_numbered_join_binds(pieces, st@.params, 0, "id = "@);
        lemma_numbered_join_binds(pieces, st@.params, 1, "uid = "@);
    }
    st
}

/// Lists a user's conversations, most recent message first (conversations without messages last), then by update time; one page.
pub fn list_conversations(uid: &str, page: Pagination) -> (st: Statement)
    ensures
        st@.sql == "SELECT id, uid, title, status, created_at, updated_at, source, geolocation, last_message_at FROM conversations WHERE uid = ?1 ORDER BY last_message_at DESC NULLS LAST, updated_at DESC LIMIT ?2 OFFSET ?3"@,
        st@.params == seq![SqlValueView::Text(uid@), SqlValueView::Size(page.limit), SqlValueView::Size(page.offset)],
        binds_numbered(st@, "uid = "@, SqlValueView::Text(uid@)),
        binds_numbered(st@, "LIMIT "@, SqlValueView::Size(page.limit)),
        binds_numbered(st@, "OFFSET "@, SqlValueView::Size(page.offset)),
{
    let p = vec![text(uid), SqlValue::Size(page.limit), SqlValue::Size(page.offset)];
    assert(values_view(p@) =~= seq![SqlValueView::Text(uid@), SqlValueView::Size(page.limit), SqlValueView::Size(page.offset)]);
    let st = statement("SELECT id, uid, title, status, created_at, updated_at, source, geolocation, last_message_at FROM conversations WHERE uid = ?1 ORDER BY last_message_at DESC NULLS LAST, updated_at DESC LIMIT ?2 OFFSET ?3", p);
    proof {
        reveal_strlit("SELECT id, uid, title, status, created_at, updated_at, source, geolocation, last_message_at FROM conversations WHERE uid = ?1 ORDER BY last_message_at DESC NULLS LAST, updated_at DESC LIMIT ?2 OFFSET ?3");
        reveal_strlit("SELECT id, uid, title, status, created_at, updated_at, source, geolocation, last_message_at FROM conversations WHERE uid = ");
        reveal_strlit(" ORDER BY last_message_at DESC NULLS LAST, updated_at DESC LIMIT ");
        reveal_strlit(" OFFSET ");
        reveal_strlit("uid = ");
        reveal_strlit("LIMIT ");
        reveal_strlit("OFFSET ");
        let pieces = seq!["SELECT id, uid, title, status, created_at, updated_at, source, geolocation, last_message_at FROM conversations WHERE uid = "@, " ORDER BY last_message_at DESC NULLS LAST, updated_at DESC LIMIT "@, " OFFSET "@, Seq::<char>::empty()];
        reveal_with_fuel(numbered_join, 5);
        assert(decimal(1) =~= seq!['1']);
        assert(decimal(2) =~= seq!['2']);
        assert(decimal(3) =~= seq!['3']);
        assert("SELECT id, uid, title, status, created_at, updated_at, source, geolocation, last_message_at FROM conversations WHERE uid = ?1 ORDER BY last_message_at DESC NULLS LAST, updated_at DESC LIMIT ?2 OFFSET ?3"@ =~= numbered_join(pieces, 1));
        assert(bare_pieces(pieces));
        assert(st@ == StatementView { sql: numbered_join(pieces, 1), params: st@.params });
        lemma_numbered_join_binds(pieces, st@.params, 0, "uid = "@);
        lemma_numbered_join_binds(pieces, st@.params, 1, "LIMIT "@);
        lemma_numbered_join_binds(pieces, st@.params, 2, "OFFSET "@);
    }
    st
}

/// The assignments of `update_conversation`: the update time first, then each field that is
/// present.
pub open spec fn conversation_update_sets(now: Timestamp, u: ConversationUpdate) -> Seq<Binding> {
    seq![("updated_at"@, SqlValueView::DateTime(now))] + opt_set("title"@, text_view(u.title)) + opt_set("status"@, text_view(u.status)) + opt_set("last_message_at"@, time_view(u.last_message_at))
}

/// What the update binds: the update time to `updated_at`, each field that
/// is given to its column, and the row and its user to the `id` and `uid`
/// conditions.
pub open spec fn conversation_update_binds(st: StatementView, uid: Seq<char>, conversation_id: Seq<char>, u: ConversationUpdate, now: Timestamp) -> bool {
    &&& binds_numbered(st, "updated_at = "@, SqlValueView::DateTime(now))
    &&& (u.title matches Some(c) ==> binds_numbered(st, "title = "@, SqlValueView::Text(c@)))
    &&& (u.status matches Some(c) ==> binds_numbered(st, "status = "@, SqlValueView::Text(c@)))
    &&& (u.last_message_at matches Some(c) ==> binds_numbered(st, "last_message_at = "@, SqlValueView::DateTime(c)))
    &&& binds_numbered(st, "id = "@, SqlValueView::Text(conversation_id))
    &&& binds_numbered(st, "uid = "@, SqlValueView::Text(uid))
}

/// Law: the update binds every given field to its column, the update time
/// to `updated_at`, and the row and its user to the conditions.
pub proof fn lemma_conversation_update_binds(uid: Seq<char>, conversation_id: Seq<char>, u: ConversationUpdate, now: Timestamp)
    ensures
        conversation_update_binds(update_statement("conversations"@, conversation_update_sets(now, u), seq![("id"@, SqlValueView::Text(conversation_id)), ("uid"@, SqlValueView::Text(uid))]), uid, conversation_id, u, now),
{
    broadcast use vstd::seq_lib::lemma_seq_concat_contains_all_elements, vstd::seq_lib::lemma_seq_contains_after_push;
    let t = "conversations"@;
    let sets = conversation_update_sets(now, u);
    let wheres = seq![("id"@, SqlValueView::Text(conversation_id)), ("uid"@, SqlValueView::Text(uid))];
    {
        reveal_strlit("updated_at");
        reveal_strlit("updated_at = ");
        assert("updated_at = "@ =~= "updated_at"@ + seq![' ', '=', ' ']);
        assert(sets.contains(("updated_at"@, SqlValueView::DateTime(now))) || wheres.contains(("updated_at"@, SqlValueView::DateTime(now))));
        lemma_update_binds_member(t, sets, wheres, "updated_at"@, "updated_at = "@, SqlValueView::DateTime(now));
    }
    if let Some(c) = u.title {
        reveal_strlit("title");
        reveal_strlit("title = ");
        assert("title = "@ =~= "title"@ + seq![' ', '=', ' ']);
        assert(sets.contains(("title"@, SqlValueView::Text(c@))) || wheres.contains(("title"@, SqlValueView::Text(c@))));
        lemma_update_binds_member(t, sets, wheres, "title"@, "title = "@, SqlValueView::Text(c@));
    }
    if let Some(c) = u.status {
        reveal_strlit("status");
        reveal_strlit("status = ");
        assert("status = "@ =~= "status"@ + seq![' ', '=', ' ']);
        assert(sets.contains(("status"@, SqlValueView::Text(c@))) || wheres.contains(("status"@, SqlValueView::Text(c@))));
        lemma_update_binds_member(t, sets, wheres, "status"@, "status = "@, SqlValueView::Text(c@));
    }
    if let Some(c) = u.last_message_at {
        reveal_strlit("last_message_at");
        reveal_strlit("last_message_at = ");
        assert("last_message_at = "@ =~= "last_message_at"@ + seq![' ', '=', ' ']);
        assert(sets.contains(("last_message_at"@, SqlValueView::DateTime(c))) || wheres.contains(("last_message_at"@, SqlValueView::DateTime(c))));
        lemma_update_binds_member(t, sets, wheres, "last_message_at"@, "last_message_at = "@, SqlValueView::DateTime(c));
    }
    {
        reveal_strlit("id");
        reveal_strlit("id = ");
        assert("id = "@ =~= "id"@ + seq![' ', '=', ' ']);
        assert(sets.contains(("id"@, SqlValueView::Text(conversation_id))) || wheres.contains(("id"@, SqlValueView::Text(conversation_id))));
        lemma_update_binds_member(t, sets, wheres, "id"@, "id = "@, SqlValueView::Text(conversation_id));
    }
    {
        reveal_strlit("uid");
        reveal_strlit("uid = ");
        assert("uid = "@ =~= "uid"@ + seq![' ', '=', ' ']);
        assert(sets.contains(("uid"@, SqlValueView::Text(uid))) || wheres.contains(("uid"@, SqlValueView::Text(uid))));
        lemma_update_binds_member(t, sets, wheres, "uid"@, "uid = "@, SqlValueView::Text(uid));
    }
}

/// Builds the update of a conversation.
pub fn update_conversation_at(uid: &str, conversation_id: &str, u: ConversationUpdate, now: Timestamp) -> (st: Statement)
    ensures
        st@ == update_statement("conversations"@, conversation_update_sets(now, u), seq![("id"@, SqlValueView::Text(conversation_id@)), ("uid"@, SqlValueView::Text(uid@))]),
        conversation_update_binds(st@, uid@, conversation_id@, u, now),
{
    let ghost u0 = u;
    let mut b = UpdateBuilder::new("conversations");
    b.set("updated_at", SqlValue::DateTime(now));
    assert(b.sets() =~= seq![("updated_at"@, SqlValueView::DateTime(now))]);
    b.set_opt("title", opt_text_value(u.title));
    b.set_opt("status", opt_text_value(u.status));
    b.set_opt("last_message_at", opt_time_value(u.last_message_at));
    b.where_eq("id", text(conversation_id));
    b.where_eq("uid", text(uid));
    assert(b.sets() =~= conversation_update_sets(now, u0));
    assert(b.wheres() =~= seq![("id"@, SqlValueView::Text(conversation_id@)), ("uid"@, SqlValueView::Text(uid@))]);
    let st = b.finish();
    proof {
        lemma_conversation_update_binds(uid@, conversation_id@, u0, now);
    }
    st
}

/// Builds the update of a conversation. Stamped with the current time.
pub fn update_conversation(uid: &str, conversation_id: &str, u: ConversationUpdate) -> (st: Statement)
    ensures
        exists|t: Timestamp|
            st@ == update_statement("conversations"@, conversation_update_sets(t, u), seq![("id"@, SqlValueView::Text(conversation_id@)), ("uid"@, SqlValueView::Text(uid@))]),
        exists|t: Timestamp| conversation_update_binds(st@, uid@, conversation_id@, u, t),
{
    update_conversation_at(uid, conversation_id, u, utc_now())
}

/// Deletes one conversation of a user.
pub fn delete_conversation(uid: &str, conversation_id: &str) -> (st: Statement)
    ensures
        st@.sql == "DELETE FROM conversations WHERE id = ?1 AND uid = ?2"@,
        st@.params == seq![SqlValueView::Text(conversation_id@), SqlValueView::Text(uid@)],
        binds_numbered(st@, "id = "@, SqlValueView::Text(conversation_id@)),
        binds_numbered(st@, "uid = "@, SqlValueView::Text(uid@)),
{
    let p = vec![text(conversation_id), text(uid)];
    assert(values_view(p@) =~= seq![SqlValueView::Text(conversation_id@), SqlValueView::Text(uid@)]);
    let st = statement("DELETE FROM conversations WHERE id = ?1 AND uid = ?2", p);
    proof {
        reveal_strlit("DELETE FROM conversations WHERE id = ?1 AND uid = ?2");
        reveal_strlit("DELETE FROM conversations WHERE id = ");
        reveal_strlit(" AND uid = ");
        reveal_strlit("id = ");
        reveal_strlit("uid = ");
        let pieces = seq!["DELETE FROM conversations WHERE id = "@, " AND uid = "@, Seq::<char>::empty()];
        reveal_with_fuel(numbered_join, 4);
        assert(decimal(1) =~= seq!['1']);
        assert(decimal(2) =~= seq!['2']);
        assert("DELETE FROM conversations WHERE id = ?1 AND uid = ?2"@ =~= numbered_join(pieces, 1));
        assert(bare_pieces(pieces));
        assert(st@ == StatementView { sql: numbered_join(pieces, 1), params: st@.params });
        lemma_numbered_join_binds(pieces, st@.params, 0, "id = "@);
        lemma_numbered_join_binds(pieces, st@.params, 1, "uid = "@);
    }
    st
}

} // verus!
