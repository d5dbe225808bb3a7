//! Statements of the folder repository.
use vstd::prelude::*;
use vstd::string::*;

use crate::clock::{is_ulid_text, new_ulid, utc_now};
use crate::model::{FolderInput, FolderUpdate, Timestamp};
use crate::binding::{bare_pieces, binds_numbered, insert_layout, insert_sql, inserts, lemma_inserts_numbered, lemma_numbered_join_binds, lemma_update_binds_member, numbered_join, plain_items};
use crate::sql::{comma_list, 
    int_view, opt_int_value, opt_set, opt_text, opt_text_value, statement, text, text_or_null,
    text_view, update_statement, values_view, Binding, SqlValue, SqlValueView, Statement,
    StatementView, UpdateBuilder,
};
use crate::text::{decimal, owned};

verus! {

/// Selects the highest sort order among a user's folders.
pub fn max_sort_order(uid: &str) -> (st: Statement)
    ensures
        st@.sql == "SELECT MAX(sort_order) FROM folders WHERE uid = ?1"@,
        st@.params == seq![SqlValueView::Text(uid@)],
        binds_numbered(st@, "uid = "@, SqlValueView::Text(uid@)),
{
    let p = vec![text(uid)];
    assert(values_view(p@) =~= seq![SqlValueView::Text(uid@)]);
    let st = statement("SELECT MAX(sort_order) FROM folders WHERE uid = ?1", p);
    proof {
        reveal_strlit("SELECT MAX(sort_order) FROM folders WHERE uid = ?1");
        reveal_strlit("SELECT MAX(sort_order) FROM folders WHERE uid = ");
        reveal_strlit("uid = ");
        let pieces = seq!["SELECT MAX(sort_order) FROM folders WHERE uid = "@, Seq::<char>::empty()];
        reveal_with_fuel(numbered_join, 3);
        assert(decimal(1) =~= seq!['1']);
        assert("SELECT MAX(sort_order) FROM folders WHERE uid = ?1"@ =~= numbered_join(pieces, 1));
        assert(bare_pieces(pieces));
        assert(st@ == StatementView { sql: numbered_join(pieces, 1), params: st@.params });
        lemma_numbered_join_binds(pieces, st@.params, 0, "uid = "@);
    }
    st
}

/// The sort order of a new folder: one past the highest existing one, or 1
/// when the user has no folder.
pub open spec fn next_sort_order_spec(max: Option<i32>) -> int {
    match max {
        Some(m) => m + 1,
        None => 1,
    }
}

/// The sort order of a new folder. A new folder sorts after every existing
/// one (law: the result exceeds the highest existing order).
pub fn next_sort_order(max: Option<i32>) -> (r: i32)
    requires
        max != Some(i32::MAX),
    ensures
        r == next_sort_order_spec(max),
        max matches Some(m) ==> r > m,
        r >= 1 || max is Some,
{
    match max {
        Some(m) => m + 1,
        None => 1,
    }
}

/// The insert made by `create_folder` for a given identifier and time.
pub open spec fn create_folder_statement(id: Seq<char>, now: Timestamp, uid: &str, input: FolderInput, sort_order: i32) -> StatementView {
    StatementView {
        sql: "INSERT INTO folders (id, uid, name, icon, color, sort_order, created_at, updated_at) VALUES (?1, ?2, ?3, ?4, ?5, ?6, ?7, ?8)"@,
        params: seq![SqlValueView::Text(id), SqlValueView::Text(uid@), SqlValueView::Text(input.name@), opt_text(input.icon), opt_text(input.color), SqlValueView::Integer(sort_order as i64), SqlValueView::DateTime(now), SqlValueView::DateTime(now)],
    }
}

/// Builds the insert of a new folder with the given sort order.
#[verifier::rlimit(100)]
proof fn lemma_create_folder_at_columns(st: StatementView)
    requires
        st.sql == "INSERT INTO folders (id, uid, name, icon, color, sort_order, created_at, updated_at) VALUES (?1, ?2, ?3, ?4, ?5, ?6, ?7, ?8)"@,
        st.params.len() >= 8,
    ensures
        inserts(st, "id"@, st.params[0]),
        inserts(st, "uid"@, st.params[1]),
        inserts(st, "name"@, st.params[2]),
        inserts(st, "icon"@, st.params[3]),
        inserts(st, "color"@, st.params[4]),
        inserts(st, "sort_order"@, st.params[5]),
        inserts(st, "created_at"@, st.params[6]),
        inserts(st, "updated_at"@, st.params[7]),
{
    reveal_strlit("INSERT INTO folders (id, uid, name, icon, color, sort_order, created_at, updated_at) VALUES (?1, ?2, ?3, ?4, ?5, ?6, ?7, ?8)");
    reveal_strlit("INSERT INTO ");
    reveal_strlit("folders");
    reveal_strlit(" (");
    reveal_strlit(") VALUES (");
    reveal_strlit(")");
    reveal_strlit(", ");
    reveal_strlit("id");
    reveal_strlit("uid");
    reveal_strlit("name");
    reveal_strlit("icon");
    reveal_strlit("color");
    reveal_strlit("sort_order");
    reveal_strlit("created_at");
    reveal_strlit("updated_at");
    reveal_strlit("?1");
    reveal_strlit("?2");
    reveal_strlit("?3");
    reveal_strlit("?4");
    reveal_strlit("?5");
    reveal_strlit("?6");
    reveal_strlit("?7");
    reveal_strlit("?8");
    let cols = seq!["id"@, "uid"@, "name"@, "icon"@, "color"@, "sort_order"@, "created_at"@, "updated_at"@];
    let vals = seq!["?1"@, "?2"@, "?3"@, "?4"@, "?5"@, "?6"@, "?7"@, "?8"@];
    reveal_with_fuel(comma_list, 9);
    reveal_with_fuel(decimal, 3);
    assert("INSERT INTO folders (id, uid, name, icon, color, sort_order, created_at, updated_at) VALUES (?1, ?2, ?3, ?4, ?5, ?6, ?7, ?8)"@ =~= insert_sql("INSERT INTO "@, "folders"@, cols, vals, Seq::<char>::empty()));
    assert(plain_items(cols));
    assert(plain_items(vals));
    assert(insert_layout(st, "INSERT INTO "@, "folders"@, cols, vals, Seq::<char>::empty()));
    assert(vals[0] == seq!['?'] + decimal(1));
    lemma_inserts_numbered(st, "INSERT INTO "@, "folders"@, cols, vals, Seq::<char>::empty(), 0, 1);
    assert(vals[1] == seq!['?'] + decimal(2));
    lemma_inserts_numbered(st, "INSERT INTO "@, "folders"@, cols, vals, Seq::<char>::empty(), 1, 2);
    assert(vals[2] == seq!['?'] + decimal(3));
    lemma_inserts_numbered(st, "INSERT INTO "@, "folders"@, cols, vals, Seq::<char>::empty(), 2, 3);
    assert(vals[3] == seq!['?'] + decimal(4));
    lemma_inserts_numbered(st, "INSERT INTO "@, "folders"@, cols, vals, Seq::<char>::empty(), 3, 4);
    assert(vals[4] == seq!['?'] + decimal(5));
    lemma_inserts_numbered(st, "INSERT INTO "@, "folders"@, cols, vals, Seq::<char>::empty(), 4, 5);
    assert(vals[5] == seq!['?'] + decimal(6));
    lemma_inserts_numbered(st, "INSERT INTO "@, "folders"@, cols, vals, Seq::<char>::empty(), 5, 6);
    assert(vals[6] == seq!['?'] + decimal(7));
    lemma_inserts_numbered(st, "INSERT INTO "@, "folders"@, cols, vals, Seq::<char>::empty(), 6, 7);
    assert(vals[7] == seq!['?'] + decimal(8));
    lemma_inserts_numbered(st, "INSERT INTO "@, "folders"@, cols, vals, Seq::<char>::empty(), 7, 8);
}

pub fn create_folder_at(id: String, now: Timestamp, uid: &str, input: FolderInput, sort_order: i32) -> (st: Statement)
    ensures
        st@ == create_folder_statement(id@, now, uid, input, sort_order),
        inserts(st@, "id"@, SqlValueView::Text(id@)),
        inserts(st@, "uid"@, SqlValueView::Text(uid@)),
        inserts(st@, "name"@, SqlValueView::Text(input.name@)),
        inserts(st@, "icon"@, opt_text(input.icon)),
        inserts(st@, "color"@, opt_text(input.color)),
        inserts(st@, "sort_order"@, SqlValueView::Integer(sort_order as i64)),
        inserts(st@, "created_at"@, SqlValueView::DateTime(now)),
        inserts(st@, "updated_at"@, SqlValueView::DateTime(now)),
{
    let ghost id_view = id@;
    let ghost input0 = input;
    let p = vec![SqlValue::Text(id), text(uid), SqlValue::Text(input.name), text_or_null(input.icon), text_or_null(input.color), SqlValue::Integer(sort_order as i64), SqlValue::DateTime(now), SqlValue::DateTime(now)];
    assert(values_view(p@) =~= create_folder_statement(id_view, now, uid, input0, sort_order).params);
    let st = statement("INSERT INTO folders (id, uid, name, icon, color, sort_order, created_at, updated_at) VALUES (?1, ?2, ?3, ?4, ?5, ?6, ?7, ?8)", p);
    proof {
        lemma_create_folder_at_columns(st@);
    }
    st
}

/// Builds the insert of a new folder with the given sort order. Uses a fresh identifier and the current time; returns the identifier
/// with the statement.
pub fn create_folder(uid: &str, input: FolderInput, sort_order: i32) -> (r: (String, Statement))
    ensures
        is_ulid_text(r.0@),
        exists|t: Timestamp| r.1@ == create_folder_statement(r.0@, t, uid, input, sort_order),
{
    let id = new_ulid();
    let keep = owned(id.as_str());
    let st = create_folder_at(id, utc_now(), uid, input, sort_order);
    (keep, st)
}

/// Builds the insert of a new folder that sorts after the user's existing
/// folders, `max` being their highest sort order.
pub fn create_folder_after(uid: &str, input: FolderInput, max: Option<i32>) -> (r: (String, Statement))
    requires
        max != Some(i32::MAX),
    ensures
        is_ulid_text(r.0@),
        exists|t: Timestamp| #[trigger] create_folder_statement(r.0@, t, uid, input, next_sort_order_spec(max) as i32) == r.1@,
{
    let ghost input0 = input;
    let order = next_sort_order(max);
    let r = create_folder(uid, input, order);
    proof {
        let t = choose|t: Timestamp| r.1@ == create_folder_statement(r.0@, t, uid, input0, order);
        assert(order == next_sort_order_spec(max) as i32);
        assert(create_folder_statement(r.0@, t, uid, input0, next_sort_order_spec(max) as i32) == r.1@);
    }
    r
}

/// Selects one folder of a user.
pub fn get_folder(uid: &str, folder_id: &str) -> (st: Statement)
    ensures
        st@.sql == "SELECT id, uid, name, icon, color, sort_order, created_at, updated_at FROM folders WHERE id = ?1 AND uid = ?2"@,
        st@.params == seq![SqlValueView::Text(folder_id@), SqlValueView::Text(uid@)],
        binds_numbered(st@, "id = "@, SqlValueView::Text(folder_id@)),
        binds_numbered(st@, "uid = "@, SqlValueView::Text(uid@)),
{
    let p = vec![text(folder_id), text(uid)];
    assert(values_view(p@) =~= seq![SqlValueView::Text(folder_id@), SqlValueView::Text(uid@)]);
    let st = statement("SELECT id, uid, name, icon, color, sort_order, created_at, updated_at FROM folders WHERE id = ?1 AND uid = ?2", p);
    proof {
        reveal_strlit("SELECT id, uid, name, icon, color, sort_order, created_at, updated_at FROM folders WHERE id = ?1 AND uid = ?2");
        reveal_strlit("SELECT id, uid, name, icon, color, sort_order, created_at, updated_at FROM folders WHERE id = ");
        reveal_strlit(" AND uid = ");
        reveal_strlit("id = ");
        reveal_strlit("uid = ");
        let pieces = seq!["SELECT id, uid, name, icon, color, sort_order, created_at, updated_at FROM folders WHERE id = "@, " AND uid = "@, Seq::<char>::empty()];
        reveal_with_fuel(numbered_join, 4);
        assert(decimal(1) =~= seq!['1']);
        assert(decimal(2) =~= seq!['2']);
        assert("SELECT id, uid, name, icon, color, sort_order, created_at, updated_at FROM folders WHERE id = ?1 AND uid = ?2"@ =~= numbered_join(pieces, 1));
        assert(bare_pieces(pieces));
        assert(st@ == StatementView { sql: numbered_join(pieces, 1), params: st@.params });
        lemma_numbered_join_binds(pieces, st@.params, 0, "id = "@);
        lemma_numbered_join_binds(pieces, st@.params, 1, "uid = "@);
    }
    st
}

/// Lists a user's folders in sort order.
pub fn list_folders(uid: &str) -> (st: Statement)
    ensures
        st@.sql == "SELECT id, uid, name, icon, color, sort_order, created_at, updated_at FROM folders WHERE uid = ?1 ORDER BY sort_order ASC"@,
        st@.params == seq![SqlValueView::Text(uid@)],
        binds_numbered(st@, "uid = "@, SqlValueView::Text(uid@)),
{
    let p = vec![text(uid)];
    assert(values_view(p@) =~= seq![SqlValueView::Text(uid@)]);
    let st = statement("SELECT id, uid, name, icon, color, sort_order, created_at, updated_at FROM folders WHERE uid = ?1 ORDER BY sort_order ASC", p);
    proof {
        reveal_strlit("SELECT id, uid, name, icon, color, sort_order, created_at, updated_at FROM folders WHERE uid = ?1 ORDER BY sort_order ASC");
        reveal_strlit("SELECT id, uid, name, icon, color, sort_order, created_at, updated_at FROM folders WHERE uid = ");
        reveal_strlit(" ORDER BY sort_order ASC");
        reveal_strlit("uid = ");
        let pieces = seq!["SELECT id, uid, name, icon, color, sort_order, created_at, updated_at FROM folders WHERE uid = "@, " ORDER BY sort_order ASC"@];
        reveal_with_fuel(numbered_join, 3);
        assert(decimal(1) =~= seq!['1']);
        assert("SELECT id, uid, name, icon, color, sort_order, created_at, updated_at FROM folders WHERE uid = ?1 ORDER BY sort_order ASC"@ =~= numbered_join(pieces, 1));
        assert(bare_pieces(pieces));
        assert(st@ == StatementView { sql: numbered_join(pieces, 1), params: st@.params });
        lemma_numbered_join_binds(pieces, st@.params, 0, "uid = "@);
    }
    st
}

/// The assignments of `update_folder`: the update time first, then each field that is
/// present.
pub open spec fn folder_update_sets(now: Timestamp, u: FolderUpdate) -> Seq<Binding> {
    seq![("updated_at"@, SqlValueView::DateTime(now))] + opt_set("name"@, text_view(u.name)) + opt_set("icon"@, text_view(u.icon)) + opt_set("color"@, text_view(u.color)) + opt_set("sort_order"@, int_view(u.sort_order))
}

/// What the update binds: the update time to `updated_at`, each field that
/// is given to its column, and the row and its user to the `id` and `uid`
/// conditions.
pub open spec fn folder_update_binds(st: StatementView, uid: Seq<char>, folder_id: Seq<char>, u: FolderUpdate, now: Timestamp) -> bool {
    &&& binds_numbered(st, "updated_at = "@, SqlValueView::DateTime(now))
    &&& (u.name matches Some(c) ==> binds_numbered(st, "name = "@, SqlValueView::Text(c@)))
    &&& (u.icon matches Some(c) ==> binds_numbered(st, "icon = "@, SqlValueView::Text(c@)))
    &&& (u.color matches Some(c) ==> binds_numbered(st, "color = "@, SqlValueView::Text(c@)))
    &&& (u.sort_order matches Some(c) ==> binds_numbered(st, "sort_order = "@, SqlValueView::Integer(c as i64)))
    &&& binds_numbered(st, "id = "@, SqlValueView::Text(folder_id))
    &&& binds_numbered(st, "uid = "@, SqlValueView::Text(uid))
}

/// Law: the update binds every given field to its column, the update time
/// to `updated_at`, and the row and its user to the conditions.
pub proof fn lemma_folder_update_binds(uid: Seq<char>, folder_id: Seq<char>, u: FolderUpdate, now: Timestamp)
    ensures
        folder_update_binds(update_statement("folders"@, folder_update_sets(now, u), seq![("id"@, SqlValueView::Text(folder_id)), ("uid"@, SqlValueView::Text(uid))]), uid, folder_id, u, now),
{
    broadcast use vstd::seq_lib::lemma_seq_concat_contains_all_elements, vstd::seq_lib::lemma_seq_contains_after_push;
    let t = "folders"@;
    let sets = folder_update_sets(now, u);
    let wheres = seq![("id"@, SqlValueView::Text(folder_id)), ("uid"@, SqlValueView::Text(uid))];
    {
        reveal_strlit("updated_at");
        reveal_strlit("updated_at = ");
        assert("updated_at = "@ =~= "updated_at"@ + seq![' ', '=', ' ']);
        assert(sets.contains(("updated_at"@, SqlValueView::DateTime(now))) || wheres.contains(("updated_at"@, SqlValueView::DateTime(now))));
        lemma_update_binds_member(t, sets, wheres, "updated_at"@, "updated_at = "@, SqlValueView::DateTime(now));
    }
    if let Some(c) = u.name {
        reveal_strlit("name");
        reveal_strlit("name = ");
        assert("name = "@ =~= "name"@ + seq![' ', '=', ' ']);
        assert(sets.contains(("name"@, SqlValueView::Text(c@))) || wheres.contains(("name"@, SqlValueView::Text(c@))));
        lemma_update_binds_member(t, sets, wheres, "name"@, "name = "@, SqlValueView::Text(c@));
    }
    if let Some(c) = u.icon {
        reveal_strlit("icon");
        reveal_strlit("icon = ");
        assert("icon = "@ =~= "icon"@ + seq![' ', '=', ' ']);
        assert(sets.contains(("icon"@, SqlValueView::Text(c@))) || wheres.contains(("icon"@, SqlValueView::Text(c@))));
        lemma_update_binds_member(t, sets, wheres, "icon"@, "icon = "@, SqlValueView::Text(c@));
    }
    if let Some(c) = u.color {
        reveal_strlit("color");
        reveal_strlit("color = ");
        assert("color = "@ =~= "color"@ + seq![' ', '=', ' ']);
        assert(sets.contains(("color"@, SqlValueView::Text(c@))) || wheres.contains(("color"@, SqlValueView::Text(c@))));
        lemma_update_binds_member(t, sets, wheres, "color"@, "color = "@, SqlValueView::Text(c@));
    }
    if let Some(c) = u.sort_order {
        reveal_strlit("sort_order");
        reveal_strlit("sort_order = ");
        assert("sort_order = "@ =~= "sort_order"@ + seq![' ', '=', ' ']);
        assert(sets.contains(("sort_order"@, SqlValueView::Integer(c as i64))) || wheres.contains(("sort_order"@, SqlValueView::Integer(c as i64))));
        lemma_update_binds_member(t, sets, wheres, "sort_order"@, "sort_order = "@, SqlValueView::Integer(c as i64));
    }
    {
        reveal_strlit("id");
        reveal_strlit("id = ");
        assert("id = "@ =~= "id"@ + seq![' ', '=', ' ']);
        assert(sets.contains(("id"@, SqlValueView::Text(folder_id))) || wheres.contains(("id"@, SqlValueView::Text(folder_id))));
        lemma_update_binds_member(t, sets, wheres, "id"@, "id = "@, SqlValueView::Text(folder_id));
    }
    {
        reveal_strlit("uid");
        reveal_strlit("uid = ");
        assert("uid = "@ =~= "uid"@ + seq![' ', '=', ' ']);
        assert(sets.contains(("uid"@, SqlValueView::Text(uid))) || wheres.contains(("uid"@, SqlValueView::Text(uid))));
        lemma_update_binds_member(t, sets, wheres, "uid"@, "uid = "@, SqlValueView::Text(uid));
    }
}

/// Builds the update of a folder.
pub fn update_folder_at(uid: &str, folder_id: &str, u: FolderUpdate, now: Timestamp) -> (st: Statement)
    ensures
        st@ == update_statement("folders"@, folder_update_sets(now, u), seq![("id"@, SqlValueView::Text(folder_id@)), ("uid"@, SqlValueView::Text(uid@))]),
        folder_update_binds(st@, uid@, folder_id@, u, now),
{
    let ghost u0 = u;
    let mut b = UpdateBuilder::new("folders");
    b.set("updated_at", SqlValue::DateTime(now));
    assert(b.sets() =~= seq![("updated_at"@, SqlValueView::DateTime(now))]);
    b.set_opt("name", opt_text_value(u.name));
    b.set_opt("icon", opt_text_value(u.icon));
    b.set_opt("color", opt_text_value(u.color));
    b.set_opt("sort_order", opt_int_value(u.sort_order));
    b.where_eq("id", text(folder_id));
    b.where_eq("uid", text(uid));
    assert(b.sets() =~= folder_update_sets(now, u0));
    assert(b.wheres() =~= seq![("id"@, SqlValueView::Text(folder_id@)), ("uid"@, SqlValueView::Text(uid@))]);
    let st = b.finish();
    proof {
        lemma_folder_update_binds(uid@, folder_id@, u0, now);
    }
    st
}

/// Builds the update of a folder. Stamped with the current time.
pub fn update_folder(uid: &str, folder_id: &str, u: FolderUpdate) -> (st: Statement)
    ensures
        exists|t: Timestamp|
            st@ == update_statement("folders"@, folder_update_sets(t, u), seq![("id"@, SqlValueView::Text(folder_id@)), ("uid"@, SqlValueView::Text(uid@))]),
        exists|t: Timestamp| folder_update_binds(st@, uid@, folder_id@, u, t),
{
    update_folder_at(uid, folder_id, u, utc_now())
}

/// Deletes one folder of a user.
pub fn delete_folder(uid: &str, folder_id: &str) -> (st: Statement)
    ensures
        st@.sql == "DELETE FROM folders WHERE id = ?1 AND uid = ?2"@,
        st@.params == seq![SqlValueView::Text(folder_id@), SqlValueView::Text(uid@)],
        binds_numbered(st@, "id = "@, SqlValueView::Text(folder_id@)),
        binds_numbered(st@, "uid = "@, SqlValueView::Text(uid@)),
{
    let p = vec![text(folder_id), text(uid)];
    assert(values_view(p@) =~= seq![SqlValueView::Text(folder_id@), SqlValueView::Text(uid@)]);
    let st = statement("DELETE FROM folders WHERE id = ?1 AND uid = ?2", p);
    proof {
        reveal_strlit("DELETE FROM folders WHERE id = ?1 AND uid = ?2");
        reveal_strlit("DELETE FROM folders WHERE id = ");
        reveal_strlit(" AND uid = ");
        reveal_strlit("id = ");
        reveal_strlit("uid = ");
        let pieces = seq!["DELETE FROM folders WHERE id = "@, " AND uid = "@, Seq::<char>::empty()];
        reveal_with_fuel(numbered_join, 4);
        assert(decimal(1) =~= seq!['1']);
        assert(decimal(2) =~= seq!['2']);
        assert("DELETE FROM folders WHERE id = ?1 AND uid = ?2"@ =~= numbered_join(pieces, 1));
        assert(bare_pieces(pieces));
        assert(st@ == StatementView { sql: numbered_join(pieces, 1), params: st@.params });
        lemma_numbered_join_binds(pieces, st@.params, 0, "id = "@);
        lemma_numbered_join_binds(pieces, st@.params, 1, "uid = "@);
    }
    st
}

/// The statement that gives a folder its position in the user's order.
pub open spec fn position_statement(uid: &str, folder_id: Seq<char>, position: int) -> StatementView {
    StatementView {
        sql: "UPDATE folders SET sort_order = ?1 WHERE id = ?2 AND uid = ?3"@,
        params: seq![
            SqlValueView::Integer(position as i32 as i64),
            SqlValueView::Text(folder_id),
            SqlValueView::Text(uid@),
        ],
    }
}

/// The position update binds the position, the folder and the user to their own placeholders.
proof fn lemma_position_text_binds(params: Seq<SqlValueView>)
    requires
        params.len() >= 3,
    ensures
        binds_numbered(StatementView { sql: "UPDATE folders SET sort_order = ?1 WHERE id = ?2 AND uid = ?3"@, params }, "sort_order = "@, params[0]),
        binds_numbered(StatementView { sql: "UPDATE folders SET sort_order = ?1 WHERE id = ?2 AND uid = ?3"@, params }, "id = "@, params[1]),
        binds_numbered(StatementView { sql: "UPDATE folders SET sort_order = ?1 WHERE id = ?2 AND uid = ?3"@, params }, "uid = "@, params[2]),
{
    reveal_strlit("UPDATE folders SET sort_order = ?1 WHERE id = ?2 AND uid = ?3");
    reveal_strlit("UPDATE folders SET sort_order = ");
    reveal_strlit(" WHERE id = ");
    reveal_strlit(" AND uid = ");
    reveal_strlit("sort_order = ");
    reveal_strlit("id = ");
    reveal_strlit("uid = ");
    let pieces = seq!["UPDATE folders SET sort_order = "@, " WHERE id = "@, " AND uid = "@, Seq::<char>::empty()];
    reveal_with_fuel(numbered_join, 5);
    assert(decimal(1) =~= seq!['1']);
    assert(decimal(2) =~= seq!['2']);
    assert(decimal(3) =~= seq!['3']);
    assert("UPDATE folders SET sort_order = ?1 WHERE id = ?2 AND uid = ?3"@ =~= numbered_join(pieces, 1));
    assert(bare_pieces(pieces));
    lemma_numbered_join_binds(pieces, params, 0, "sort_order = "@);
    lemma_numbered_join_binds(pieces, params, 1, "id = "@);
    lemma_numbered_join_binds(pieces, params, 2, "uid = "@);
}

/// Builds one statement per folder, giving the k-th listed folder the sort
/// order k (law: the listed order becomes the folders' order).
pub fn reorder_folders(uid: &str, folder_ids: &Vec<String>) -> (r: Vec<Statement>)
    ensures
        r.len() == folder_ids.len(),
        forall|k: int| 0 <= k < r.len() ==> (#[trigger] r@[k])@ == position_statement(uid, folder_ids@[k]@, k),
        forall|k: int| 0 <= k < r.len() ==> binds_numbered((#[trigger] r@[k])@, "sort_order = "@, SqlValueView::Integer(k as i32 as i64)) && binds_numbered(r@[k]@, "id = "@, SqlValueView::Text(folder_ids@[k]@)) && binds_numbered(r@[k]@, "uid = "@, SqlValueView::Text(uid@)),
{
    let mut out: Vec<Statement> = Vec::new();
    let mut i: usize = 0;
    while i < folder_ids.len()
        invariant
            i <= folder_ids.len(),
            out.len() == i,
            forall|k: int| 0 <= k < i ==> (#[trigger] out@[k])@ == position_statement(uid, folder_ids@[k]@, k),
        decreases folder_ids.len() - i,
    {
        let p = vec![SqlValue::Integer(i as i32 as i64), text(folder_ids[i].as_str()), text(uid)];
        assert(values_view(p@) =~= position_statement(uid, folder_ids@[i as int]@, i as int).params);
        out.push(statement("UPDATE folders SET sort_order = ?1 WHERE id = ?2 AND uid = ?3", p));
        i = i + 1;
    }
    let r = out;
    proof {
        assert forall|k: int| 0 <= k < r.len() implies binds_numbered((#[trigger] r@[k])@, "sort_order = "@, SqlValueView::Integer(k as i32 as i64)) && binds_numbered(r@[k]@, "id = "@, SqlValueView::Text(folder_ids@[k]@)) && binds_numbered(r@[k]@, "uid = "@, SqlValueView::Text(uid@)) by {
            lemma_position_text_binds(r@[k]@.params);
        }
    }
    r
}

} // verus!
