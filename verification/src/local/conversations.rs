//! Statements of the local database: conversations and folders.
use vstd::prelude::*;
use vstd::string::*;

use crate::clock::{is_ulid_text, new_ulid, now_rfc3339};
use crate::binding::{bare_join, bare_pieces, binds_bare, insert_layout, insert_sql, inserts, lemma_bare_join_binds, lemma_inserts_bare, plain_items};
use crate::sql::{comma_list, 
    opt_text, statement, str_or_null, text, text_or_null, values_view, SqlValue, SqlValueView,
    Statement, StatementView,
};
use crate::text::{decimal, owned};

verus! {

/// Request to create a conversation.
#[derive(Debug)]
pub struct CreateConversationRequest {
    pub title: String,
    pub folder_id: Option<String>,
    pub conversation_type: Option<String>,
}

/// Request to create a folder.
#[derive(Debug)]
pub struct CreateFolderRequest {
    pub name: String,
    pub color: Option<String>,
    pub icon: Option<String>,
}

/// The given text, else a default.
pub open spec fn text_or(o: Option<String>, default: Seq<char>) -> Seq<char> {
    match o {
        Some(s) => s@,
        None => default,
    }
}

/// The given text, else the default `d`.
pub fn string_or(o: Option<String>, d: &str) -> (r: String)
    ensures
        r@ == text_or(o, d@),
{
    match o {
        Some(s) => s,
        None => owned(d),
    }
}

/// Lists every stored conversation, latest message first.
pub fn get_conversations() -> (st: Statement)
    ensures
        st@.sql == "SELECT id, title, folder_id, created_at, updated_at, last_message_time, conversation_type, metadata, is_starred, visibility, share_link, transcript FROM conversations WHERE 1=1 ORDER BY last_message_time DESC"@,
        st@.params == Seq::<SqlValueView>::empty(),
{
    let p: Vec<SqlValue> = Vec::new();
    assert(values_view(p@) =~= Seq::<SqlValueView>::empty());
    statement("SELECT id, title, folder_id, created_at, updated_at, last_message_time, conversation_type, metadata, is_starred, visibility, share_link, transcript FROM conversations WHERE 1=1 ORDER BY last_message_time DESC", p)
}

/// Selects one conversation by identifier.
pub fn get_conversation(id: &str) -> (st: Statement)
    ensures
        st@.sql == "SELECT id, title, folder_id, created_at, updated_at, last_message_time, conversation_type, metadata, is_starred, visibility, share_link, transcript FROM conversations WHERE id = ?"@,
        st@.params == seq![SqlValueView::Text(id@)],
        binds_bare(st@, "id = "@, SqlValueView::Text(id@)),
{
    let p = vec![text(id)];
    assert(values_view(p@) =~= seq![SqlValueView::Text(id@)]);
    let st = statement("SELECT id, title, folder_id, created_at, updated_at, last_message_time, conversation_type, metadata, is_starred, visibility, share_link, transcript FROM conversations WHERE id = ?", p);
    proof {
        reveal_strlit("SELECT id, title, folder_id, created_at, updated_at, last_message_time, conversation_type, metadata, is_starred, visibility, share_link, transcript FROM conversations WHERE id = ?");
        reveal_strlit("SELECT id, title, folder_id, created_at, updated_at, last_message_time, conversation_type, metadata, is_starred, visibility, share_link, transcript FROM conversations WHERE id = ");
        reveal_strlit("id = ");
        let pieces = seq!["SELECT id, title, folder_id, created_at, updated_at, last_message_time, conversation_type, metadata, is_starred, visibility, share_link, transcript FROM conversations WHERE id = "@, Seq::<char>::empty()];
        reveal_with_fuel(bare_join, 3);
        assert("SELECT id, title, folder_id, created_at, updated_at, last_message_time, conversation_type, metadata, is_starred, visibility, share_link, transcript FROM conversations WHERE id = ?"@ =~= bare_join(pieces));
        assert(bare_pieces(pieces));
        assert(st@ == StatementView { sql: bare_join(pieces), params: st@.params });
        lemma_bare_join_binds(pieces, st@.params, 0, "id = "@);
    }
    st
}

/// The insert made by `create_conversation` for a given identifier and time text.
pub open spec fn create_conversation_statement(id: Seq<char>, now: Seq<char>, input: CreateConversationRequest) -> StatementView {
    StatementView {
        sql: "INSERT INTO conversations (id, title, folder_id, created_at, updated_at, last_message_time, conversation_type, metadata, is_starred, visibility) VALUES (?, ?, ?, ?, ?, ?, ?, ?, ?, ?)"@,
        params: seq![SqlValueView::Text(id), SqlValueView::Text(input.title@), opt_text(input.folder_id), SqlValueView::Text(now), SqlValueView::Text(now), SqlValueView::Text(now), SqlValueView::Text(text_or(input.conversation_type, "personal"@)), SqlValueView::Text(""@), SqlValueView::Integer(0), SqlValueView::Text("private"@)],
    }
}

/// Builds the insert of a new conversation: type `personal` unless given, private, not starred, empty metadata, and its last message time set to its creation time.
#[verifier::rlimit(100)]
proof fn lemma_create_conversation_at_columns(st: StatementView)
    requires
        st.sql == "INSERT INTO conversations (id, title, folder_id, created_at, updated_at, last_message_time, conversation_type, metadata, is_starred, visibility) VALUES (?, ?, ?, ?, ?, ?, ?, ?, ?, ?)"@,
        st.params.len() >= 10,
    ensures
        inserts(st, "id"@, st.params[0]),
        inserts(st, "title"@, st.params[1]),
        inserts(st, "folder_id"@, st.params[2]),
        inserts(st, "created_at"@, st.params[3]),
        inserts(st, "updated_at"@, st.params[4]),
        inserts(st, "last_message_time"@, st.params[5]),
        inserts(st, "conversation_type"@, st.params[6]),
        inserts(st, "metadata"@, st.params[7]),
        inserts(st, "is_starred"@, st.params[8]),
        inserts(st, "visibility"@, st.params[9]),
{
    reveal_strlit("INSERT INTO conversations (id, title, folder_id, created_at, updated_at, last_message_time, conversation_type, metadata, is_starred, visibility) VALUES (?, ?, ?, ?, ?, ?, ?, ?, ?, ?)");
    reveal_strlit("INSERT INTO ");
    reveal_strlit("conversations");
    reveal_strlit(" (");
    reveal_strlit(") VALUES (");
    reveal_strlit(")");
    reveal_strlit(", ");
    reveal_strlit("id");
    reveal_strlit("title");
    reveal_strlit("folder_id");
    reveal_strlit("created_at");
    reveal_strlit("updated_at");
    reveal_strlit("last_message_time");
    reveal_strlit("conversation_type");
    reveal_strlit("metadata");
    reveal_strlit("is_starred");
    reveal_strlit("visibility");
    reveal_strlit("?");
    let cols = seq!["id"@, "title"@, "folder_id"@, "created_at"@, "updated_at"@, "last_message_time"@, "conversation_type"@, "metadata"@, "is_starred"@, "visibility"@];
    let vals = seq!["?"@, "?"@, "?"@, "?"@, "?"@, "?"@, "?"@, "?"@, "?"@, "?"@];
    assert("?"@ =~= seq!['?']);
    reveal_with_fuel(comma_list, 11);
    reveal_with_fuel(decimal, 3);
    assert("INSERT INTO conversations (id, title, folder_id, created_at, updated_at, last_message_time, conversation_type, metadata, is_starred, visibility) VALUES (?, ?, ?, ?, ?, ?, ?, ?, ?, ?)"@ =~= insert_sql("INSERT INTO "@, "conversations"@, cols, vals, Seq::<char>::empty()));
    assert(plain_items(cols));
    assert(plain_items(vals));
    assert(insert_layout(st, "INSERT INTO "@, "conversations"@, cols, vals, Seq::<char>::empty()));
    assert(forall|m: int| 0 <= m < vals.len() ==> #[trigger] vals[m] == seq!['?']);
    lemma_inserts_bare(st, "INSERT INTO "@, "conversations"@, cols, vals, Seq::<char>::empty(), 0);
    lemma_inserts_bare(st, "INSERT INTO "@, "conversations"@, cols, vals, Seq::<char>::empty(), 1);
    lemma_inserts_bare(st, "INSERT INTO "@, "conversations"@, cols, vals, Seq::<char>::empty(), 2);
    lemma_inserts_bare(st, "INSERT INTO "@, "conversations"@, cols, vals, Seq::<char>::empty(), 3);
    lemma_inserts_bare(st, "INSERT INTO "@, "conversations"@, cols, vals, Seq::<char>::empty(), 4);
    lemma_inserts_bare(st, "INSERT INTO "@, "conversations"@, cols, vals, Seq::<char>::empty(), 5);
    lemma_inserts_bare(st, "INSERT INTO "@, "conversations"@, cols, vals, Seq::<char>::empty(), 6);
    lemma_inserts_bare(st, "INSERT INTO "@, "conversations"@, cols, vals, Seq::<char>::empty(), 7);
    lemma_inserts_bare(st, "INSERT INTO "@, "conversations"@, cols, vals, Seq::<char>::empty(), 8);
    lemma_inserts_bare(st, "INSERT INTO "@, "conversations"@, cols, vals, Seq::<char>::empty(), 9);
}

pub fn create_conversation_at(id: String, now: &str, input: CreateConversationRequest) -> (st: Statement)
    ensures
        st@ == create_conversation_statement(id@, now@, input),
        inserts(st@, "id"@, SqlValueView::Text(id@)),
        inserts(st@, "title"@, SqlValueView::Text(input.title@)),
        inserts(st@, "folder_id"@, opt_text(input.folder_id)),
        inserts(st@, "created_at"@, SqlValueView::Text(now@)),
        inserts(st@, "updated_at"@, SqlValueView::Text(now@)),
        inserts(st@, "last_message_time"@, SqlValueView::Text(now@)),
        inserts(st@, "conversation_type"@, SqlValueView::Text(text_or(input.conversation_type, "personal"@))),
        inserts(st@, "metadata"@, SqlValueView::Text(""@)),
        inserts(st@, "is_starred"@, SqlValueView::Integer(0)),
        inserts(st@, "visibility"@, SqlValueView::Text("private"@)),
{
    let ghost id_view = id@;
    let ghost input0 = input;
    let p = vec![SqlValue::Text(id), SqlValue::Text(input.title), text_or_null(input.folder_id), text(now), text(now), text(now), SqlValue::Text(string_or(input.conversation_type, "personal")), text(""), SqlValue::Integer(0), text("private")];
    assert(values_view(p@) =~= create_conversation_statement(id_view, now@, input0).params);
    let st = statement("INSERT INTO conversations (id, title, folder_id, created_at, updated_at, last_message_time, conversation_type, metadata, is_starred, visibility) VALUES (?, ?, ?, ?, ?, ?, ?, ?, ?, ?)", p);
    proof {
        lemma_create_conversation_at_columns(st@);
    }
    st
}

/// Builds the insert of a new conversation: type `personal` unless given, private, not starred, empty metadata, and its last message time set to its creation time. Uses a fresh identifier and the current time rendered as RFC 3339;
/// returns the identifier with the statement.
pub fn create_conversation(input: CreateConversationRequest) -> (r: (String, Statement))
    ensures
        is_ulid_text(r.0@),
        exists|t: Seq<char>| #[trigger] create_conversation_statement(r.0@, t, input) == r.1@,
{
    let id = new_ulid();
    let keep = owned(id.as_str());
    let now = now_rfc3339();
    let st = create_conversation_at(id, now.as_str(), input);
    (keep, st)
}

/// The parameters of `update_conversation_title` for a given time text.
pub open spec fn update_conversation_title_params(now: Seq<char>, id: &str, title: &str) -> Seq<SqlValueView> {
    seq![SqlValueView::Text(title@), SqlValueView::Text(now), SqlValueView::Text(id@)]
}

/// Renames a conversation.
pub fn update_conversation_title_at(id: &str, title: &str, now: &str) -> (st: Statement)
    ensures
        st@.sql == "UPDATE conversations SET title = ?, updated_at = ? WHERE id = ?"@,
        st@.params == update_conversation_title_params(now@, id, title),
        binds_bare(st@, "title = "@, SqlValueView::Text(title@)),
        binds_bare(st@, "updated_at = "@, SqlValueView::Text(now@)),
        binds_bare(st@, "id = "@, SqlValueView::Text(id@)),
{
    let p = vec![text(title), text(now), text(id)];
    assert(values_view(p@) =~= update_conversation_title_params(now@, id, title));
    let st = statement("UPDATE conversations SET title = ?, updated_at = ? WHERE id = ?", p);
    proof {
        reveal_strlit("UPDATE conversations SET title = ?, updated_at = ? WHERE id = ?");
        reveal_strlit("UPDATE conversations SET title = ");
        reveal_strlit(", updated_at = ");
        reveal_strlit(" WHERE id = ");
        reveal_strlit("title = ");
        reveal_strlit("updated_at = ");
        reveal_strlit("id = ");
        let pieces = seq!["UPDATE conversations SET title = "@, ", updated_at = "@, " WHERE id = "@, Seq::<char>::empty()];
        reveal_with_fuel(bare_join, 5);
        assert("UPDATE conversations SET title = ?, updated_at = ? WHERE id = ?"@ =~= bare_join(pieces));
        assert(bare_pieces(pieces));
        assert(st@ == StatementView { sql: bare_join(pieces), params: st@.params });
        lemma_bare_join_binds(pieces, st@.params, 0, "title = "@);
        lemma_bare_join_binds(pieces, st@.params, 1, "updated_at = "@);
        lemma_bare_join_binds(pieces, st@.params, 2, "id = "@);
    }
    st
}

/// Renames a conversation. Stamped with the current time rendered as RFC 3339.
pub fn update_conversation_title(id: &str, title: &str) -> (st: Statement)
    ensures
        st@.sql == "UPDATE conversations SET title = ?, updated_at = ? WHERE id = ?"@,
        exists|t: Seq<char>| #[trigger] update_conversation_title_params(t, id, title) == st@.params,
{
    let now = now_rfc3339();
    update_conversation_title_at(id, title, now.as_str())
}

/// Stars or unstars a conversation (stored as 1 or 0).
pub fn set_conversation_starred(id: &str, starred: bool) -> (st: Statement)
    ensures
        st@.sql == "UPDATE conversations SET is_starred = ? WHERE id = ?"@,
        st@.params == seq![SqlValueView::Integer(if starred { 1 } else { 0 }), SqlValueView::Text(id@)],
        binds_bare(st@, "is_starred = "@, SqlValueView::Integer(if starred { 1 } else { 0 })),
        binds_bare(st@, "id = "@, SqlValueView::Text(id@)),
{
    let p = vec![SqlValue::Integer(if starred { 1 } else { 0 }), text(id)];
    assert(values_view(p@) =~= seq![SqlValueView::Integer(if starred { 1 } else { 0 }), SqlValueView::Text(id@)]);
    let st = statement("UPDATE conversations SET is_starred = ? WHERE id = ?", p);
    proof {
        reveal_strlit("UPDATE conversations SET is_starred = ? WHERE id = ?");
        reveal_strlit("UPDATE conversations SET is_starred = ");
        reveal_strlit(" WHERE id = ");
        reveal_strlit("is_starred = ");
        reveal_strlit("id = ");
        let pieces = seq!["UPDATE conversations SET is_starred = "@, " WHERE id = "@, Seq::<char>::empty()];
        reveal_with_fuel(bare_join, 4);
        assert("UPDATE conversations SET is_starred = ? WHERE id = ?"@ =~= bare_join(pieces));
        assert(bare_pieces(pieces));
        assert(st@ == StatementView { sql: bare_join(pieces), params: st@.params });
        lemma_bare_join_binds(pieces, st@.params, 0, "is_starred = "@);
        lemma_bare_join_binds(pieces, st@.params, 1, "id = "@);
    }
    st
}

/// Sets a conversation's visibility.
pub fn set_conversation_visibility(id: &str, visibility: &str) -> (st: Statement)
    ensures
        st@.sql == "UPDATE conversations SET visibility = ? WHERE id = ?"@,
        st@.params == seq![SqlValueView::Text(visibility@), SqlValueView::Text(id@)],
        binds_bare(st@, "visibility = "@, SqlValueView::Text(visibility@)),
        binds_bare(st@, "id = "@, SqlValueView::Text(id@)),
{
    let p = vec![text(visibility), text(id)];
    assert(values_view(p@) =~= seq![SqlValueView::Text(visibility@), SqlValueView::Text(id@)]);
    let st = statement("UPDATE conversations SET visibility = ? WHERE id = ?", p);
    proof {
        reveal_strlit("UPDATE conversations SET visibility = ? WHERE id = ?");
        reveal_strlit("UPDATE conversations SET visibility = ");
        reveal_strlit(" WHERE id = ");
        reveal_strlit("visibility = ");
        reveal_strlit("id = ");
        let pieces = seq!["UPDATE conversations SET visibility = "@, " WHERE id = "@, Seq::<char>::empty()];
        reveal_with_fuel(bare_join, 4);
        assert("UPDATE conversations SET visibility = ? WHERE id = ?"@ =~= bare_join(pieces));
        assert(bare_pieces(pieces));
        assert(st@ == StatementView { sql: bare_join(pieces), params: st@.params });
        lemma_bare_join_binds(pieces, st@.params, 0, "visibility = "@);
        lemma_bare_join_binds(pieces, st@.params, 1, "id = "@);
    }
    st
}

/// Deletes a conversation.
pub fn delete_conversation(id: &str) -> (st: Statement)
    ensures
        st@.sql == "DELETE FROM conversations WHERE id = ?"@,
        st@.params == seq![SqlValueView::Text(id@)],
        binds_bare(st@, "id = "@, SqlValueView::Text(id@)),
{
    let p = vec![text(id)];
    assert(values_view(p@) =~= seq![SqlValueView::Text(id@)]);
    let st = statement("DELETE FROM conversations WHERE id = ?", p);
    proof {
        reveal_strlit("DELETE FROM conversations WHERE id = ?");
        reveal_strlit("DELETE FROM conversations WHERE id = ");
        reveal_strlit("id = ");
        let pieces = seq!["DELETE FROM conversations WHERE id = "@, Seq::<char>::empty()];
        reveal_with_fuel(bare_join, 3);
        assert("DELETE FROM conversations WHERE id = ?"@ =~= bare_join(pieces));
        assert(bare_pieces(pieces));
        assert(st@ == StatementView { sql: bare_join(pieces), params: st@.params });
        lemma_bare_join_binds(pieces, st@.params, 0, "id = "@);
    }
    st
}

/// Lists a user's folders in sort order.
pub fn get_folders(user_id: &str) -> (st: Statement)
    ensures
        st@.sql == "SELECT id, name, color, icon, created_at, sort_order FROM folders WHERE user_id = ? ORDER BY sort_order"@,
        st@.params == seq![SqlValueView::Text(user_id@)],
        binds_bare(st@, "user_id = "@, SqlValueView::Text(user_id@)),
{
    let p = vec![text(user_id)];
    assert(values_view(p@) =~= seq![SqlValueView::Text(user_id@)]);
    let st = statement("SELECT id, name, color, icon, created_at, sort_order FROM folders WHERE user_id = ? ORDER BY sort_order", p);
    proof {
        reveal_strlit("SELECT id, name, color, icon, created_at, sort_order FROM folders WHERE user_id = ? ORDER BY sort_order");
        reveal_strlit("SELECT id, name, color, icon, created_at, sort_order FROM folders WHERE user_id = ");
        reveal_strlit(" ORDER BY sort_order");
        reveal_strlit("user_id = ");
        let pieces = seq!["SELECT id, name, color, icon, created_at, sort_order FROM folders WHERE user_id = "@, " ORDER BY sort_order"@];
        reveal_with_fuel(bare_join, 3);
        assert("SELECT id, name, color, icon, created_at, sort_order FROM folders WHERE user_id = ? ORDER BY sort_order"@ =~= bare_join(pieces));
        assert(bare_pieces(pieces));
        assert(st@ == StatementView { sql: bare_join(pieces), params: st@.params });
        lemma_bare_join_binds(pieces, st@.params, 0, "user_id = "@);
    }
    st
}

/// The insert made by `create_folder` for a given identifier and time text.
pub open spec fn create_folder_statement(id: Seq<char>, now: Seq<char>, user_id: &str, input: CreateFolderRequest) -> StatementView {
    StatementView {
        sql: "INSERT INTO folders (id, name, color, icon, created_at, sort_order, user_id) VALUES (?, ?, ?, ?, ?, ?, ?)"@,
        params: seq![SqlValueView::Text(id), SqlValueView::Text(input.name@), SqlValueView::Text(text_or(input.color, "9b9b9b"@)), SqlValueView::Text(text_or(input.icon, "folder"@)), SqlValueView::Text(now), SqlValueView::Integer(0), SqlValueView::Text(user_id@)],
    }
}

/// Builds the insert of a new folder: color `9b9b9b` and icon `folder` unless given, sort order 0.
#[verifier::rlimit(100)]
proof fn lemma_create_folder_at_columns(st: StatementView)
    requires
        st.sql == "INSERT INTO folders (id, name, color, icon, created_at, sort_order, user_id) VALUES (?, ?, ?, ?, ?, ?, ?)"@,
        st.params.len() >= 7,
    ensures
        inserts(st, "id"@, st.params[0]),
        inserts(st, "name"@, st.params[1]),
        inserts(st, "color"@, st.params[2]),
        inserts(st, "icon"@, st.params[3]),
        inserts(st, "created_at"@, st.params[4]),
        inserts(st, "sort_order"@, st.params[5]),
        inserts(st, "user_id"@, st.params[6]),
{
    reveal_strlit("INSERT INTO folders (id, name, color, icon, created_at, sort_order, user_id) VALUES (?, ?, ?, ?, ?, ?, ?)");
    reveal_strlit("INSERT INTO ");
    reveal_strlit("folders");
    reveal_strlit(" (");
    reveal_strlit(") VALUES (");
    reveal_strlit(")");
    reveal_strlit(", ");
    reveal_strlit("id");
    reveal_strlit("name");
    reveal_strlit("color");
    reveal_strlit("icon");
    reveal_strlit("created_at");
    reveal_strlit("sort_order");
    reveal_strlit("user_id");
    reveal_strlit("?");
    let cols = seq!["id"@, "name"@, "color"@, "icon"@, "created_at"@, "sort_order"@, "user_id"@];
    let vals = seq!["?"@, "?"@, "?"@, "?"@, "?"@, "?"@, "?"@];
    assert("?"@ =~= seq!['?']);
    reveal_with_fuel(comma_list, 8);
    reveal_with_fuel(decimal, 3);
    assert("INSERT INTO folders (id, name, color, icon, created_at, sort_order, user_id) VALUES (?, ?, ?, ?, ?, ?, ?)"@ =~= insert_sql("INSERT INTO "@, "folders"@, cols, vals, Seq::<char>::empty()));
    assert(plain_items(cols));
    assert(plain_items(vals));
    assert(insert_layout(st, "INSERT INTO "@, "folders"@, cols, vals, Seq::<char>::empty()));
    assert(forall|m: int| 0 <= m < vals.len() ==> #[trigger] vals[m] == seq!['?']);
    lemma_inserts_bare(st, "INSERT INTO "@, "folders"@, cols, vals, Seq::<char>::empty(), 0);
    lemma_inserts_bare(st, "INSERT INTO "@, "folders"@, cols, vals, Seq::<char>::empty(), 1);
    lemma_inserts_bare(st, "INSERT INTO "@, "folders"@, cols, vals, Seq::<char>::empty(), 2);
    lemma_inserts_bare(st, "INSERT INTO "@, "folders"@, cols, vals, Seq::<char>::empty(), 3);
    lemma_inserts_bare(st, "INSERT INTO "@, "folders"@, cols, vals, Seq::<char>::empty(), 4);
    lemma_inserts_bare(st, "INSERT INTO "@, "folders"@, cols, vals, Seq::<char>::empty(), 5);
    lemma_inserts_bare(st, "INSERT INTO "@, "folders"@, cols, vals, Seq::<char>::empty(), 6);
}

pub fn create_folder_at(id: String, now: &str, user_id: &str, input: CreateFolderRequest) -> (st: Statement)
    ensures
        st@ == create_folder_statement(id@, now@, user_id, input),
        inserts(st@, "id"@, SqlValueView::Text(id@)),
        inserts(st@, "name"@, SqlValueView::Text(input.name@)),
        inserts(st@, "color"@, SqlValueView::Text(text_or(input.color, "9b9b9b"@))),
        inserts(st@, "icon"@, SqlValueView::Text(text_or(input.icon, "folder"@))),
        inserts(st@, "created_at"@, SqlValueView::Text(now@)),
        inserts(st@, "sort_order"@, SqlValueView::Integer(0)),
        inserts(st@, "user_id"@, SqlValueView::Text(user_id@)),
{
    let ghost id_view = id@;
    let ghost input0 = input;
    let p = vec![SqlValue::Text(id), SqlValue::Text(input.name), SqlValue::Text(string_or(input.color, "9b9b9b")), SqlValue::Text(string_or(input.icon, "folder")), text(now), SqlValue::Integer(0), text(user_id)];
    assert(values_view(p@) =~= create_folder_statement(id_view, now@, user_id, input0).params);
    let st = statement("INSERT INTO folders (id, name, color, icon, created_at, sort_order, user_id) VALUES (?, ?, ?, ?, ?, ?, ?)", p);
    proof {
        lemma_create_folder_at_columns(st@);
    }
    st
}

/// Builds the insert of a new folder: color `9b9b9b` and icon `folder` unless given, sort order 0. Uses a fresh identifier and the current time rendered as RFC 3339;
/// returns the identifier with the statement.
pub fn create_folder(user_id: &str, input: CreateFolderRequest) -> (r: (String, Statement))
    ensures
        is_ulid_text(r.0@),
        exists|t: Seq<char>| #[trigger] create_folder_statement(r.0@, t, user_id, input) == r.1@,
{
    let id = new_ulid();
    let keep = owned(id.as_str());
    let now = now_rfc3339();
    let st = create_folder_at(id, now.as_str(), user_id, input);
    (keep, st)
}

/// Selects one folder by identifier.
pub fn get_folder(id: &str) -> (st: Statement)
    ensures
        st@.sql == "SELECT id, name, color, icon, created_at, sort_order FROM folders WHERE id = ?"@,
        st@.params == seq![SqlValueView::Text(id@)],
        binds_bare(st@, "id = "@, SqlValueView::Text(id@)),
{
    let p = vec![text(id)];
    assert(values_view(p@) =~= seq![SqlValueView::Text(id@)]);
    let st = statement("SELECT id, name, color, icon, created_at, sort_order FROM folders WHERE id = ?", p);
    proof {
        reveal_strlit("SELECT id, name, color, icon, created_at, sort_order FROM folders WHERE id = ?");
        reveal_strlit("SELECT id, name, color, icon, created_at, sort_order FROM folders WHERE id = ");
        reveal_strlit("id = ");
        let pieces = seq!["SELECT id, name, color, icon, created_at, sort_order FROM folders WHERE id = "@, Seq::<char>::empty()];
        reveal_with_fuel(bare_join, 3);
        assert("SELECT id, name, color, icon, created_at, sort_order FROM folders WHERE id = ?"@ =~= bare_join(pieces));
        assert(bare_pieces(pieces));
        assert(st@ == StatementView { sql: bare_join(pieces), params: st@.params });
        lemma_bare_join_binds(pieces, st@.params, 0, "id = "@);
    }
    st
}

/// Deletes one folder of a user.
pub fn delete_folder(user_id: &str, id: &str) -> (st: Statement)
    ensures
        st@.sql == "DELETE FROM folders WHERE id = ? AND user_id = ?"@,
        st@.params == seq![SqlValueView::Text(id@), SqlValueView::Text(user_id@)],
        binds_bare(st@, "id = "@, SqlValueView::Text(id@)),
        binds_bare(st@, "user_id = "@, SqlValueView::Text(user_id@)),
{
    let p = vec![text(id), text(user_id)];
    assert(values_view(p@) =~= seq![SqlValueView::Text(id@), SqlValueView::Text(user_id@)]);
    let st = statement("DELETE FROM folders WHERE id = ? AND user_id = ?", p);
    proof {
        reveal_strlit("DELETE FROM folders WHERE id = ? AND user_id = ?");
        reveal_strlit("DELETE FROM folders WHERE id = ");
        reveal_strlit(" AND user_id = ");
        reveal_strlit("id = ");
        reveal_strlit("user_id = ");
        let pieces = seq!["DELETE FROM folders WHERE id = "@, " AND user_id = "@, Seq::<char>::empty()];
        reveal_with_fuel(bare_join, 4);
        assert("DELETE FROM folders WHERE id = ? AND user_id = ?"@ =~= bare_join(pieces));
        assert(bare_pieces(pieces));
        assert(st@ == StatementView { sql: bare_join(pieces), params: st@.params });
        lemma_bare_join_binds(pieces, st@.params, 0, "id = "@);
        lemma_bare_join_binds(pieces, st@.params, 1, "user_id = "@);
    }
    st
}

/// Moves a conversation into a folder, or out of any folder.
pub fn move_conversation_to_folder(conversation_id: &str, folder_id: Option<&str>) -> (st: Statement)
    ensures
        st@.sql == "UPDATE conversations SET folder_id = ? WHERE id = ?"@,
        st@.params == seq![(match folder_id { Some(f) => SqlValueView::Text(f@), None => SqlValueView::Null }), SqlValueView::Text(conversation_id@)],
{
    let p = vec![str_or_null(folder_id), text(conversation_id)];
    assert(values_view(p@) =~= seq![(match folder_id { Some(f) => SqlValueView::Text(f@), None => SqlValueView::Null }), SqlValueView::Text(conversation_id@)]);
    statement("UPDATE conversations SET folder_id = ? WHERE id = ?", p)
}

} // verus!
