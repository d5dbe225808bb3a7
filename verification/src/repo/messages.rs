//! Statements of the message repository.
use vstd::prelude::*;
use vstd::string::*;

use crate::clock::{is_ulid_text, new_ulid, utc_now};
use crate::model::{MessageInput, MessageUpdate, Pagination, Timestamp};
use crate::binding::{bare_pieces, binds_numbered, insert_layout, insert_sql, inserts, lemma_inserts_null, lemma_inserts_numbered, lemma_numbered_join_binds, lemma_update_binds_member, numbered_join, plain_items};
use crate::sql::{comma_list, 
    opt_set, opt_text, opt_text_value, statement, text, text_or_null, text_view,
    update_statement, values_view, Binding, SqlValue, SqlValueView, Statement, StatementView,
    UpdateBuilder,
};
use crate::text::{decimal, owned};

verus! {

/// The insert made by `create_message` for a given identifier and time.
pub open spec fn create_message_statement(id: Seq<char>, now: Timestamp, uid: &str, conversation_id: &str, input: MessageInput) -> StatementView {
    StatementView {
        sql: "INSERT INTO messages (id, uid, conversation_id, role, content, audio_url, transcript, created_at, rating) VALUES (?1, ?2, ?3, ?4, ?5, ?6, ?7, ?8, NULL)"@,
        params: seq![SqlValueView::Text(id), SqlValueView::Text(uid@), SqlValueView::Text(conversation_id@), SqlValueView::Text(input.role@), SqlValueView::Text(input.content@), opt_text(input.audio_url), opt_text(input.transcript), SqlValueView::DateTime(now)],
    }
}

/// Builds the insert of a new message of a conversation, with no rating yet.
#[verifier::rlimit(100)]
proof fn lemma_create_message_at_columns(st: StatementView)
    requires
        st.sql == "INSERT INTO messages (id, uid, conversation_id, role, content, audio_url, transcript, created_at, rating) VALUES (?1, ?2, ?3, ?4, ?5, ?6, ?7, ?8, NULL)"@,
        st.params.len() >= 8,
    ensures
        inserts(st, "id"@, st.params[0]),
        inserts(st, "uid"@, st.params[1]),
        inserts(st, "conversation_id"@, st.params[2]),
        inserts(st, "role"@, st.params[3]),
        inserts(st, "content"@, st.params[4]),
        inserts(st, "audio_url"@, st.params[5]),
        inserts(st, "transcript"@, st.params[6]),
        inserts(st, "created_at"@, st.params[7]),
        inserts(st, "rating"@, SqlValueView::Null),
{
    reveal_strlit("INSERT INTO messages (id, uid, conversation_id, role, content, audio_url, transcript, created_at, rating) VALUES (?1, ?2, ?3, ?4, ?5, ?6, ?7, ?8, NULL)");
    reveal_strlit("INSERT INTO ");
    reveal_strlit("messages");
    reveal_strlit(" (");
    reveal_strlit(") VALUES (");
    reveal_strlit(")");
    reveal_strlit(", ");
    reveal_strlit("id");
    reveal_strlit("uid");
    reveal_strlit("conversation_id");
    reveal_strlit("role");
    reveal_strlit("content");
    reveal_strlit("audio_url");
    reveal_strlit("transcript");
    reveal_strlit("created_at");
    reveal_strlit("rating");
    reveal_strlit("?1");
    reveal_strlit("?2");
    reveal_strlit("?3");
    reveal_strlit("?4");
    reveal_strlit("?5");
    reveal_strlit("?6");
    reveal_strlit("?7");
    reveal_strlit("?8");
    reveal_strlit("NULL");
    let cols = seq!["id"@, "uid"@, "conversation_id"@, "role"@, "content"@, "audio_url"@, "transcript"@, "created_at"@, "rating"@];
    let vals = seq!["?1"@, "?2"@, "?3"@, "?4"@, "?5"@, "?6"@, "?7"@, "?8"@, "NULL"@];
    reveal_with_fuel(comma_list, 10);
    reveal_with_fuel(decimal, 3);
    assert("INSERT INTO messages (id, uid, conversation_id, role, content, audio_url, transcript, created_at, rating) VALUES (?1, ?2, ?3, ?4, ?5, ?6, ?7, ?8, NULL)"@ =~= insert_sql("INSERT INTO "@, "messages"@, cols, vals, Seq::<char>::empty()));
    assert(plain_items(cols));
    assert(plain_items(vals));
    assert(insert_layout(st, "INSERT INTO "@, "messages"@, cols, vals, Seq::<char>::empty()));
    assert(vals[0] == seq!['?'] + decimal(1));
    lemma_inserts_numbered(st, "INSERT INTO "@, "messages"@, cols, vals, Seq::<char>::empty(), 0, 1);
    assert(vals[1] == seq!['?'] + decimal(2));
    lemma_inserts_numbered(st, "INSERT INTO "@, "messages"@, cols, vals, Seq::<char>::empty(), 1, 2);
    assert(vals[2] == seq!['?'] + decimal(3));
    lemma_inserts_numbered(st, "INSERT INTO "@, "messages"@, cols, vals, Seq::<char>::empty(), 2, 3);
    assert(vals[3] == seq!['?'] + decimal(4));
    lemma_inserts_numbered(st, "INSERT INTO "@, "messages"@, cols, vals, Seq::<char>::empty(), 3, 4);
    assert(vals[4] == seq!['?'] + decimal(5));
    lemma_inserts_numbered(st, "INSERT INTO "@, "messages"@, cols, vals, Seq::<char>::empty(), 4, 5);
    assert(vals[5] == seq!['?'] + decimal(6));
    lemma_inserts_numbered(st, "INSERT INTO "@, "messages"@, cols, vals, Seq::<char>::empty(), 5, 6);
    assert(vals[6] == seq!['?'] + decimal(7));
    lemma_inserts_numbered(st, "INSERT INTO "@, "messages"@, cols, vals, Seq::<char>::empty(), 6, 7);
    assert(vals[7] == seq!['?'] + decimal(8));
    lemma_inserts_numbered(st, "INSERT INTO "@, "messages"@, cols, vals, Seq::<char>::empty(), 7, 8);
    lemma_inserts_null(st, "INSERT INTO "@, "messages"@, cols, vals, Seq::<char>::empty(), 8);
}

pub fn create_message_at(id: String, now: Timestamp, uid: &str, conversation_id: &str, input: MessageInput) -> (st: Statement)
    ensures
        st@ == create_message_statement(id@, now, uid, conversation_id, input),
        inserts(st@, "id"@, SqlValueView::Text(id@)),
        inserts(st@, "uid"@, SqlValueView::Text(uid@)),
        inserts(st@, "conversation_id"@, SqlValueView::Text(conversation_id@)),
        inserts(st@, "role"@, SqlValueView::Text(input.role@)),
        inserts(st@, "content"@, SqlValueView::Text(input.content@)),
        inserts(st@, "audio_url"@, opt_text(input.audio_url)),
        inserts(st@, "transcript"@, opt_text(input.transcript)),
        inserts(st@, "created_at"@, SqlValueView::DateTime(now)),
        inserts(st@, "rating"@, SqlValueView::Null),
{
    let ghost id_view = id@;
    let ghost input0 = input;
    let p = vec![SqlValue::Text(id), text(uid), text(conversation_id), SqlValue::Text(input.role), SqlValue::Text(input.content), text_or_null(input.audio_url), text_or_null(input.transcript), SqlValue::DateTime(now)];
    assert(values_view(p@) =~= create_message_statement(id_view, now, uid, conversation_id, input0).params);
    let st = statement("INSERT INTO messages (id, uid, conversation_id, role, content, audio_url, transcript, created_at, rating) VALUES (?1, ?2, ?3, ?4, ?5, ?6, ?7, ?8, NULL)", p);
    proof {
        lemma_create_message_at_columns(st@);
    }
    st
}

/// Builds the insert of a new message of a conversation, with no rating yet. Uses a fresh identifier and the current time; returns the identifier
/// with the statement.
pub fn create_message(uid: &str, conversation_id: &str, input: MessageInput) -> (r: (String, Statement))
    ensures
        is_ulid_text(r.0@),
        exists|t: Timestamp| r.1@ == create_message_statement(r.0@, t, uid, conversation_id, input),
{
    let id = new_ulid();
    let keep = owned(id.as_str());
    let st = create_message_at(id, utc_now(), uid, conversation_id, input);
    (keep, st)
}

/// Sets a conversation's last message time and update time, after a message was added to it.
pub fn touch_conversation_at(uid: &str, conversation_id: &str, now: Timestamp) -> (st: Statement)
    ensures
        st@.sql == "UPDATE conversations SET last_message_at = ?1, updated_at = ?1 WHERE id = ?2 AND uid = ?3"@,
        st@.params == seq![SqlValueView::DateTime(now), SqlValueView::Text(conversation_id@), SqlValueView::Text(uid@)],
{
    let p = vec![SqlValue::DateTime(now), text(conversation_id), text(uid)];
    assert(values_view(p@) =~= seq![SqlValueView::DateTime(now), SqlValueView::Text(conversation_id@), SqlValueView::Text(uid@)]);
    statement("UPDATE conversations SET last_message_at = ?1, updated_at = ?1 WHERE id = ?2 AND uid = ?3", p)
}

/// Selects one message of a user's conversation.
pub fn get_message(uid: &str, conversation_id: &str, message_id: &str) -> (st: Statement)
    ensures
        st@.sql == "SELECT id, uid, conversation_id, role, content, audio_url, transcript, created_at, rating FROM messages WHERE id = ?1 AND uid = ?2 AND conversation_id = ?3"@,
        st@.params == seq![SqlValueView::Text(message_id@), SqlValueView::Text(uid@), SqlValueView::Text(conversation_id@)],
        binds_numbered(st@, "id = "@, SqlValueView::Text(message_id@)),
        binds_numbered(st@, "uid = "@, SqlValueView::Text(uid@)),
        binds_numbered(st@, "conversation_id = "@, SqlValueView::Text(conversation_id@)),
{
    let p = vec![text(message_id), text(uid), text(conversation_id)];
    assert(values_view(p@) =~= seq![SqlValueView::Text(message_id@), SqlValueView::Text(uid@), SqlValueView::Text(conversation_id@)]);
    let st = statement("SELECT id, uid, conversation_id, role, content, audio_url, transcript, created_at, rating FROM messages WHERE id = ?1 AND uid = ?2 AND conversation_id = ?3", p);
    proof {
        reveal_strlit("SELECT id, uid, conversation_id, role, content, audio_url, transcript, created_at, rating FROM messages WHERE id = ?1 AND uid = ?2 AND conversation_id = ?3");
        reveal_strlit("SELECT id, uid, conversation_id, role, content, audio_url, transcript, created_at, rating FROM messages WHERE id = ");
        reveal_strlit(" AND uid = ");
        reveal_strlit(" AND conversation_id = ");
        reveal_strlit("id = ");
        reveal_strlit("uid = ");
        reveal_strlit("conversation_id = ");
        let pieces = seq!["SELECT id, uid, conversation_id, role, content, audio_url, transcript, created_at, rating FROM messages WHERE id = "@, " AND uid = "@, " AND conversation_id = "@, Seq::<char>::empty()];
        reveal_with_fuel(numbered_join, 5);
        assert(decimal(1) =~= seq!['1']);
        assert(decimal(2) =~= seq!['2']);
        assert(decimal(3) =~= seq!['3']);
        assert("SELECT id, uid, conversation_id, role, content, audio_url, transcript, created_at, rating FROM messages WHERE id = ?1 AND uid = ?2 AND conversation_id = ?3"@ =~= numbered_join(pieces, 1));
        assert(bare_pieces(pieces));
        assert(st@ == StatementView { sql: numbered_join(pieces, 1), params: st@.params });
        lemma_numbered_join_binds(pieces, st@.params, 0, "id = "@);
        lemma_numbered_join_binds(pieces, st@.params, 1, "uid = "@);
        lemma_numbered_join_binds(pieces, st@.params, 2, "conversation_id = "@);
    }
    st
}

/// Lists the messages of a user's conversation, oldest first; one page.
pub fn list_messages(uid: &str, conversation_id: &str, page: Pagination) -> (st: Statement)
    ensures
        st@.sql == "SELECT id, uid, conversation_id, role, content, audio_url, transcript, created_at, rating FROM messages WHERE uid = ?1 AND conversation_id = ?2 ORDER BY created_at ASC LIMIT ?3 OFFSET ?4"@,
        st@.params == seq![SqlValueView::Text(uid@), SqlValueView::Text(conversation_id@), SqlValueView::Size(page.limit), SqlValueView::Size(page.offset)],
        binds_numbered(st@, "uid = "@, SqlValueView::Text(uid@)),
        binds_numbered(st@, "conversation_id = "@, SqlValueView::Text(conversation_id@)),
        binds_numbered(st@, "LIMIT "@, SqlValueView::Size(page.limit)),
        binds_numbered(st@, "OFFSET "@, SqlValueView::Size(page.offset)),
{
    let p = vec![text(uid), text(conversation_id), SqlValue::Size(page.limit), SqlValue::Size(page.offset)];
    assert(values_view(p@) =~= seq![SqlValueView::Text(uid@), SqlValueView::Text(conversation_id@), SqlValueView::Size(page.limit), SqlValueView::Size(page.offset)]);
    let st = statement("SELECT id, uid, conversation_id, role, content, audio_url, transcript, created_at, rating FROM messages WHERE uid = ?1 AND conversation_id = ?2 ORDER BY created_at ASC LIMIT ?3 OFFSET ?4", p);
    proof {
        reveal_strlit("SELECT id, uid, conversation_id, role, content, audio_url, transcript, created_at, rating FROM messages WHERE uid = ?1 AND conversation_id = ?2 ORDER BY created_at ASC LIMIT ?3 OFFSET ?4");
        reveal_strlit("SELECT id, uid, conversation_id, role, content, audio_url, transcript, created_at, rating FROM messages WHERE uid = ");
        reveal_strlit(" AND conversation_id = ");
        reveal_strlit(" ORDER BY created_at ASC LIMIT ");
        reveal_strlit(" OFFSET ");
        reveal_strlit("uid = ");
        reveal_strlit("conversation_id = ");
        reveal_strlit("LIMIT ");
        reveal_strlit("OFFSET ");
        let pieces = seq!["SELECT id, uid, conversation_id, role, content, audio_url, transcript, created_at, rating FROM messages WHERE uid = "@, " AND conversation_id = "@, " ORDER BY created_at ASC LIMIT "@, " OFFSET "@, Seq::<char>::empty()];
        reveal_with_fuel(numbered_join, 6);
        assert(decimal(1) =~= seq!['1']);
        assert(decimal(2) =~= seq!['2']);
        assert(decimal(3) =~= seq!['3']);
        assert(decimal(4) =~= seq!['4']);
        assert("SELECT id, uid, conversation_id, role, content, audio_url, transcript, created_at, rating FROM messages WHERE uid = ?1 AND conversation_id = ?2 ORDER BY created_at ASC LIMIT ?3 OFFSET ?4"@ =~= numbered_join(pieces, 1));
        assert(bare_pieces(pieces));
        assert(st@ == StatementView { sql: numbered_join(pieces, 1), params: st@.params });
        lemma_numbered_join_binds(pieces, st@.params, 0, "uid = "@);
        lemma_numbered_join_binds(pieces, st@.params, 1, "conversation_id = "@);
        lemma_numbered_join_binds(pieces, st@.params, 2, "LIMIT "@);
        lemma_numbered_join_binds(pieces, st@.params, 3, "OFFSET "@);
    }
    st
}

/// The assignments of `update_message`: each field that is present.
pub open spec fn message_update_sets(u: MessageUpdate) -> Seq<Binding> {
    opt_set("content"@, text_view(u.content)) + opt_set("transcript"@, text_view(u.transcript))
}

/// What a message update binds: each given field to its column, and the message, its user and its conversation to the conditions.
pub open spec fn message_update_binds(st: StatementView, uid: Seq<char>, conversation_id: Seq<char>, message_id: Seq<char>, u: MessageUpdate) -> bool {
    &&& (u.content matches Some(c) ==> binds_numbered(st, "content = "@, SqlValueView::Text(c@)))
    &&& (u.transcript matches Some(c) ==> binds_numbered(st, "transcript = "@, SqlValueView::Text(c@)))
    &&& binds_numbered(st, "id = "@, SqlValueView::Text(message_id))
    &&& binds_numbered(st, "uid = "@, SqlValueView::Text(uid))
    &&& binds_numbered(st, "conversation_id = "@, SqlValueView::Text(conversation_id))
}

/// Law: the update binds every given field to its column and the row to its
/// conditions.
pub proof fn lemma_message_update_binds(uid: Seq<char>, conversation_id: Seq<char>, message_id: Seq<char>, u: MessageUpdate)
    ensures
        message_update_binds(update_statement("messages"@, message_update_sets(u), seq![("id"@, SqlValueView::Text(message_id)), ("uid"@, SqlValueView::Text(uid)), ("conversation_id"@, SqlValueView::Text(conversation_id))]), uid, conversation_id, message_id, u),
        (u.content is Some || u.transcript is Some) ==> message_update_sets(u).len() > 0,
{
    broadcast use vstd::seq_lib::lemma_seq_concat_contains_all_elements, vstd::seq_lib::lemma_seq_contains_after_push;
    let t = "messages"@;
    let sets = message_update_sets(u);
    let wheres = seq![("id"@, SqlValueView::Text(message_id)), ("uid"@, SqlValueView::Text(uid)), ("conversation_id"@, SqlValueView::Text(conversation_id))];
    if let Some(c) = u.content {
        reveal_strlit("content");
        reveal_strlit("content = ");
        assert("content = "@ =~= "content"@ + seq![' ', '=', ' ']);
        assert(sets.contains(("content"@, SqlValueView::Text(c@))) || wheres.contains(("content"@, SqlValueView::Text(c@))));
        lemma_update_binds_member(t, sets, wheres, "content"@, "content = "@, SqlValueView::Text(c@));
    }
    if let Some(c) = u.transcript {
        reveal_strlit("transcript");
        reveal_strlit("transcript = ");
        assert("transcript = "@ =~= "transcript"@ + seq![' ', '=', ' ']);
        assert(sets.contains(("transcript"@, SqlValueView::Text(c@))) || wheres.contains(("transcript"@, SqlValueView::Text(c@))));
        lemma_update_binds_member(t, sets, wheres, "transcript"@, "transcript = "@, SqlValueView::Text(c@));
    }
    {
        reveal_strlit("id");
        reveal_strlit("id = ");
        assert("id = "@ =~= "id"@ + seq![' ', '=', ' ']);
        assert(sets.contains(("id"@, SqlValueView::Text(message_id))) || wheres.contains(("id"@, SqlValueView::Text(message_id))));
        lemma_update_binds_member(t, sets, wheres, "id"@, "id = "@, SqlValueView::Text(message_id));
    }
    {
        reveal_strlit("uid");
        reveal_strlit("uid = ");
        assert("uid = "@ =~= "uid"@ + seq![' ', '=', ' ']);
        assert(sets.contains(("uid"@, SqlValueView::Text(uid))) || wheres.contains(("uid"@, SqlValueView::Text(uid))));
        lemma_update_binds_member(t, sets, wheres, "uid"@, "uid = "@, SqlValueView::Text(uid));
    }
    {
        reveal_strlit("conversation_id");
        reveal_strlit("conversation_id = ");
        assert("conversation_id = "@ =~= "conversation_id"@ + seq![' ', '=', ' ']);
        assert(sets.contains(("conversation_id"@, SqlValueView::Text(conversation_id))) || wheres.contains(("conversation_id"@, SqlValueView::Text(conversation_id))));
        lemma_update_binds_member(t, sets, wheres, "conversation_id"@, "conversation_id = "@, SqlValueView::Text(conversation_id));
    }
}

/// Builds the update of a message. Nothing is to be done, and no statement is built, when no field is
/// present.
pub fn update_message(uid: &str, conversation_id: &str, message_id: &str, u: MessageUpdate) -> (r: Option<Statement>)
    ensures
        message_update_sets(u).len() == 0 ==> r is None,
        message_update_sets(u).len() > 0 ==> (r matches Some(st) && st@ == update_statement("messages"@, message_update_sets(u), seq![("id"@, SqlValueView::Text(message_id@)), ("uid"@, SqlValueView::Text(uid@)), ("conversation_id"@, SqlValueView::Text(conversation_id@))])),
        r matches Some(st) ==> message_update_binds(st@, uid@, conversation_id@, message_id@, u),
        (u.content is Some || u.transcript is Some) ==> r is Some,
{
    let ghost u0 = u;
    let mut b = UpdateBuilder::new("messages");
    b.set_opt("content", opt_text_value(u.content));
    b.set_opt("transcript", opt_text_value(u.transcript));
    assert(b.sets() =~= message_update_sets(u0));
    if b.len() == 0 {
        return None;
    }
    b.where_eq("id", text(message_id));
    b.where_eq("uid", text(uid));
    b.where_eq("conversation_id", text(conversation_id));
    assert(b.wheres() =~= seq![("id"@, SqlValueView::Text(message_id@)), ("uid"@, SqlValueView::Text(uid@)), ("conversation_id"@, SqlValueView::Text(conversation_id@))]);
    proof {
        lemma_message_update_binds(uid@, conversation_id@, message_id@, u0);
    }
    Some(b.finish())
}

/// Deletes one message of a user's conversation.
pub fn delete_message(uid: &str, conversation_id: &str, message_id: &str) -> (st: Statement)
    ensures
        st@.sql == "DELETE FROM messages WHERE id = ?1 AND uid = ?2 AND conversation_id = ?3"@,
        st@.params == seq![SqlValueView::Text(message_id@), SqlValueView::Text(uid@), SqlValueView::Text(conversation_id@)],
        binds_numbered(st@, "id = "@, SqlValueView::Text(message_id@)),
        binds_numbered(st@, "uid = "@, SqlValueView::Text(uid@)),
        binds_numbered(st@, "conversation_id = "@, SqlValueView::Text(conversation_id@)),
{
    let p = vec![text(message_id), text(uid), text(conversation_id)];
    assert(values_view(p@) =~= seq![SqlValueView::Text(message_id@), SqlValueView::Text(uid@), SqlValueView::Text(conversation_id@)]);
    let st = statement("DELETE FROM messages WHERE id = ?1 AND uid = ?2 AND conversation_id = ?3", p);
    proof {
        reveal_strlit("DELETE FROM messages WHERE id = ?1 AND uid = ?2 AND conversation_id = ?3");
        reveal_strlit("DELETE FROM messages WHERE id = ");
        reveal_strlit(" AND uid = ");
        reveal_strlit(" AND conversation_id = ");
        reveal_strlit("id = ");
        reveal_strlit("uid = ");
        reveal_strlit("conversation_id = ");
        let pieces = seq!["DELETE FROM messages WHERE id = "@, " AND uid = "@, " AND conversation_id = "@, Seq::<char>::empty()];
        reveal_with_fuel(numbered_join, 5);
        assert(decimal(1) =~= seq!['1']);
        assert(decimal(2) =~= seq!['2']);
        assert(decimal(3) =~= seq!['3']);
        assert("DELETE FROM messages WHERE id = ?1 AND uid = ?2 AND conversation_id = ?3"@ =~= numbered_join(pieces, 1));
        assert(bare_pieces(pieces));
        assert(st@ == StatementView { sql: numbered_join(pieces, 1), params: st@.params });
        lemma_numbered_join_binds(pieces, st@.params, 0, "id = "@);
        lemma_numbered_join_binds(pieces, st@.params, 1, "uid = "@);
        lemma_numbered_join_binds(pieces, st@.params, 2, "conversation_id = "@);
    }
    st
}

/// Stores the rating of a message.
pub fn rate_message(uid: &str, conversation_id: &str, message_id: &str, rating: i32) -> (st: Statement)
    ensures
        st@.sql == "UPDATE messages SET rating = ?1 WHERE id = ?2 AND uid = ?3 AND conversation_id = ?4"@,
        st@.params == seq![SqlValueView::Integer(rating as i64), SqlValueView::Text(message_id@), SqlValueView::Text(uid@), SqlValueView::Text(conversation_id@)],
        binds_numbered(st@, "rating = "@, SqlValueView::Integer(rating as i64)),
        binds_numbered(st@, "id = "@, SqlValueView::Text(message_id@)),
        binds_numbered(st@, "uid = "@, SqlValueView::Text(uid@)),
        binds_numbered(st@, "conversation_id = "@, SqlValueView::Text(conversation_id@)),
{
    let p = vec![SqlValue::Integer(rating as i64), text(message_id), text(uid), text(conversation_id)];
    assert(values_view(p@) =~= seq![SqlValueView::Integer(rating as i64), SqlValueView::Text(message_id@), SqlValueView::Text(uid@), SqlValueView::Text(conversation_id@)]);
    let st = statement("UPDATE messages SET rating = ?1 WHERE id = ?2 AND uid = ?3 AND conversation_id = ?4", p);
    proof {
        reveal_strlit("UPDATE messages SET rating = ?1 WHERE id = ?2 AND uid = ?3 AND conversation_id = ?4");
        reveal_strlit("UPDATE messages SET rating = ");
        reveal_strlit(" WHERE id = ");
        reveal_strlit(" AND uid = ");
        reveal_strlit(" AND conversation_id = ");
        reveal_strlit("rating = ");
        reveal_strlit("id = ");
        reveal_strlit("uid = ");
        reveal_strlit("conversation_id = ");
        let pieces = seq!["UPDATE messages SET rating = "@, " WHERE id = "@, " AND uid = "@, " AND conversation_id = "@, Seq::<char>::empty()];
        reveal_with_fuel(numbered_join, 6);
        assert(decimal(1) =~= seq!['1']);
        assert(decimal(2) =~= seq!['2']);
        assert(decimal(3) =~= seq!['3']);
        assert(decimal(4) =~= seq!['4']);
        assert("UPDATE messages SET rating = ?1 WHERE id = ?2 AND uid = ?3 AND conversation_id = ?4"@ =~= numbered_join(pieces, 1));
        assert(bare_pieces(pieces));
        assert(st@ == StatementView { sql: numbered_join(pieces, 1), params: st@.params });
        lemma_numbered_join_binds(pieces, st@.params, 0, "rating = "@);
        lemma_numbered_join_binds(pieces, st@.params, 1, "id = "@);
        lemma_numbered_join_binds(pieces, st@.params, 2, "uid = "@);
        lemma_numbered_join_binds(pieces, st@.params, 3, "conversation_id = "@);
    }
    st
}

/// Builds the statements that add a message to a conversation: the insert of
/// the message under a fresh identifier, then the update of the
/// conversation's last message time, both stamped with the same current time.
/// Returns the identifier with the two statements.
pub fn post_message(uid: &str, conversation_id: &str, input: MessageInput) -> (r: (String, Statement, Statement))
    ensures
        is_ulid_text(r.0@),
        exists|t: Timestamp|
            #![trigger create_message_statement(r.0@, t, uid, conversation_id, input)]
            (create_message_statement(r.0@, t, uid, conversation_id, input) == r.1@
            && r.2@.params == seq![SqlValueView::DateTime(t), SqlValueView::Text(conversation_id@), SqlValueView::Text(uid@)]),
        r.2@.sql == "UPDATE conversations SET last_message_at = ?1, updated_at = ?1 WHERE id = ?2 AND uid = ?3"@,
{
    let ghost input0 = input;
    let id = new_ulid();
    let keep = owned(id.as_str());
    let now = utc_now();
    let insert = create_message_at(id, now, uid, conversation_id, input);
    let touch = touch_conversation_at(uid, conversation_id, now);
    assert(create_message_statement(keep@, now, uid, conversation_id, input0) == insert@);
    assert(touch@.params == seq![SqlValueView::DateTime(now), SqlValueView::Text(conversation_id@), SqlValueView::Text(uid@)]);
    let r = (keep, insert, touch);
    assert(create_message_statement(r.0@, now, uid, conversation_id, input0) == r.1@);
    assert(r.2@.params == seq![SqlValueView::DateTime(now), SqlValueView::Text(conversation_id@), SqlValueView::Text(uid@)]);
    r
}

} // verus!
