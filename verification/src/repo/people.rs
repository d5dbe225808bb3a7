//! Statements of the person repository.
use vstd::prelude::*;
use vstd::string::*;

use crate::clock::{is_ulid_text, new_ulid, utc_now};
use crate::model::{PersonInput, PersonUpdate, SegmentAssignment, Timestamp};
use crate::binding::{bare_pieces, binds_numbered, insert_layout, insert_sql, inserts, lemma_inserts_numbered, lemma_numbered_join_binds, lemma_update_binds_member, numbered_join, plain_items};
use crate::sql::{comma_list, 
    opt_set, opt_text, opt_text_value, statement, text, text_or_null, text_view,
    update_statement, values_view, Binding, SqlValue, SqlValueView, Statement, StatementView,
    UpdateBuilder,
};
use crate::text::{decimal, owned};

verus! {

/// The insert made by `create_person` for a given identifier and time.
pub open spec fn create_person_statement(id: Seq<char>, now: Timestamp, uid: &str, input: PersonInput) -> StatementView {
    StatementView {
        sql: "INSERT INTO people (id, uid, name, email, phone, avatar_url, notes, created_at, updated_at) VALUES (?1, ?2, ?3, ?4, ?5, ?6, ?7, ?8, ?9)"@,
        params: seq![SqlValueView::Text(id), SqlValueView::Text(uid@), SqlValueView::Text(input.name@), opt_text(input.email), opt_text(input.phone), opt_text(input.avatar_url), opt_text(input.notes), SqlValueView::DateTime(now), SqlValueView::DateTime(now)],
    }
}

/// Builds the insert of a new person.
#[verifier::rlimit(100)]
proof fn lemma_create_person_at_columns(st: StatementView)
    requires
        st.sql == "INSERT INTO people (id, uid, name, email, phone, avatar_url, notes, created_at, updated_at) VALUES (?1, ?2, ?3, ?4, ?5, ?6, ?7, ?8, ?9)"@,
        st.params.len() >= 9,
    ensures
        inserts(st, "id"@, st.params[0]),
        inserts(st, "uid"@, st.params[1]),
        inserts(st, "name"@, st.params[2]),
        inserts(st, "email"@, st.params[3]),
        inserts(st, "phone"@, st.params[4]),
        inserts(st, "avatar_url"@, st.params[5]),
        inserts(st, "notes"@, st.params[6]),
        inserts(st, "created_at"@, st.params[7]),
        inserts(st, "updated_at"@, st.params[8]),
{
    reveal_strlit("INSERT INTO people (id, uid, name, email, phone, avatar_url, notes, created_at, updated_at) VALUES (?1, ?2, ?3, ?4, ?5, ?6, ?7, ?8, ?9)");
    reveal_strlit("INSERT INTO ");
    reveal_strlit("people");
    reveal_strlit(" (");
    reveal_strlit(") VALUES (");
    reveal_strlit(")");
    reveal_strlit(", ");
    reveal_strlit("id");
    reveal_strlit("uid");
    reveal_strlit("name");
    reveal_strlit("email");
    reveal_strlit("phone");
    reveal_strlit("avatar_url");
    reveal_strlit("notes");
    reveal_strlit("created_at");
    reveal_strlit("updated_at");
    reveal_strlit("?1");
    reveal_strlit("?2");
    reveal_strlit("?3");
    reveal_strlit("?4");
    reveal_strlit("?5");
    reveal_strlit("?6");
    reveal_strlit("?7");
    reveal_strlit("?8");
    reveal_strlit("?9");
    let cols = seq!["id"@, "uid"@, "name"@, "email"@, "phone"@, "avatar_url"@, "notes"@, "created_at"@, "updated_at"@];
    let vals = seq!["?1"@, "?2"@, "?3"@, "?4"@, "?5"@, "?6"@, "?7"@, "?8"@, "?9"@];
    reveal_with_fuel(comma_list, 10);
    reveal_with_fuel(decimal, 3);
    assert("INSERT INTO people (id, uid, name, email, phone, avatar_url, notes, created_at, updated_at) VALUES (?1, ?2, ?3, ?4, ?5, ?6, ?7, ?8, ?9)"@ =~= insert_sql("INSERT INTO "@, "people"@, cols, vals, Seq::<char>::empty()));
    assert(plain_items(cols));
    assert(plain_items(vals));
    assert(insert_layout(st, "INSERT INTO "@, "people"@, cols, vals, Seq::<char>::empty()));
    assert(vals[0] == seq!['?'] + decimal(1));
    lemma_inserts_numbered(st, "INSERT INTO "@, "people"@, cols, vals, Seq::<char>::empty(), 0, 1);
    assert(vals[1] == seq!['?'] + decimal(2));
    lemma_inserts_numbered(st, "INSERT INTO "@, "people"@, cols, vals, Seq::<char>::empty(), 1, 2);
    assert(vals[2] == seq!['?'] + decimal(3));
    lemma_inserts_numbered(st, "INSERT INTO "@, "people"@, cols, vals, Seq::<char>::empty(), 2, 3);
    assert(vals[3] == seq!['?'] + decimal(4));
    lemma_inserts_numbered(st, "INSERT INTO "@, "people"@, cols, vals, Seq::<char>::empty(), 3, 4);
    assert(vals[4] == seq!['?'] + decimal(5));
    lemma_inserts_numbered(st, "INSERT INTO "@, "people"@, cols, vals, Seq::<char>::empty(), 4, 5);
    assert(vals[5] == seq!['?'] + decimal(6));
    lemma_inserts_numbered(st, "INSERT INTO "@, "people"@, cols, vals, Seq::<char>::empty(), 5, 6);
    assert(vals[6] == seq!['?'] + decimal(7));
    lemma_inserts_numbered(st, "INSERT INTO "@, "people"@, cols, vals, Seq::<char>::empty(), 6, 7);
    assert(vals[7] == seq!['?'] + decimal(8));
    lemma_inserts_numbered(st, "INSERT INTO "@, "people"@, cols, vals, Seq::<char>::empty(), 7, 8);
    assert(vals[8] == seq!['?'] + decimal(9));
    lemma_inserts_numbered(st, "INSERT INTO "@, "people"@, cols, vals, Seq::<char>::empty(), 8, 9);
}

pub fn create_person_at(id: String, now: Timestamp, uid: &str, input: PersonInput) -> (st: Statement)
    ensures
        st@ == create_person_statement(id@, now, uid, input),
        inserts(st@, "id"@, SqlValueView::Text(id@)),
        inserts(st@, "uid"@, SqlValueView::Text(uid@)),
        inserts(st@, "name"@, SqlValueView::Text(input.name@)),
        inserts(st@, "email"@, opt_text(input.email)),
        inserts(st@, "phone"@, opt_text(input.phone)),
        inserts(st@, "avatar_url"@, opt_text(input.avatar_url)),
        inserts(st@, "notes"@, opt_text(input.notes)),
        inserts(st@, "created_at"@, SqlValueView::DateTime(now)),
        inserts(st@, "updated_at"@, SqlValueView::DateTime(now)),
{
    let ghost id_view = id@;
    let ghost input0 = input;
    let p = vec![SqlValue::Text(id), text(uid), SqlValue::Text(input.name), text_or_null(input.email), text_or_null(input.phone), text_or_null(input.avatar_url), text_or_null(input.notes), SqlValue::DateTime(now), SqlValue::DateTime(now)];
    assert(values_view(p@) =~= create_person_statement(id_view, now, uid, input0).params);
    let st = statement("INSERT INTO people (id, uid, name, email, phone, avatar_url, notes, created_at, updated_at) VALUES (?1, ?2, ?3, ?4, ?5, ?6, ?7, ?8, ?9)", p);
    proof {
        lemma_create_person_at_columns(st@);
    }
    st
}

/// Builds the insert of a new person. Uses a fresh identifier and the current time; returns the identifier
/// with the statement.
pub fn create_person(uid: &str, input: PersonInput) -> (r: (String, Statement))
    ensures
        is_ulid_text(r.0@),
        exists|t: Timestamp| r.1@ == create_person_statement(r.0@, t, uid, input),
{
    let id = new_ulid();
    let keep = owned(id.as_str());
    let st = create_person_at(id, utc_now(), uid, input);
    (keep, st)
}

/// Selects one person of a user.
pub fn get_person(uid: &str, person_id: &str) -> (st: Statement)
    ensures
        st@.sql == "SELECT id, uid, name, email, phone, avatar_url, notes, created_at, updated_at FROM people WHERE id = ?1 AND uid = ?2"@,
        st@.params == seq![SqlValueView::Text(person_id@), SqlValueView::Text(uid@)],
        binds_numbered(st@, "id = "@, SqlValueView::Text(person_id@)),
        binds_numbered(st@, "uid = "@, SqlValueView::Text(uid@)),
{
    let p = vec![text(person_id), text(uid)];
    assert(values_view(p@) =~= seq![SqlValueView::Text(person_id@), SqlValueView::Text(uid@)]);
    let st = statement("SELECT id, uid, name, email, phone, avatar_url, notes, created_at, updated_at FROM people WHERE id = ?1 AND uid = ?2", p);
    proof {
        reveal_strlit("SELECT id, uid, name, email, phone, avatar_url, notes, created_at, updated_at FROM people WHERE id = ?1 AND uid = ?2");
        reveal_strlit("SELECT id, uid, name, email, phone, avatar_url, notes, created_at, updated_at FROM people WHERE id = ");
        reveal_strlit(" AND uid = ");
        reveal_strlit("id = ");
        reveal_strlit("uid = ");
        let pieces = seq!["SELECT id, uid, name, email, phone, avatar_url, notes, created_at, updated_at FROM people WHERE id = "@, " AND uid = "@, Seq::<char>::empty()];
        reveal_with_fuel(numbered_join, 4);
        assert(decimal(1) =~= seq!['1']);
        assert(decimal(2) =~= seq!['2']);
        assert("SELECT id, uid, name, email, phone, avatar_url, notes, created_at, updated_at FROM people WHERE id = ?1 AND uid = ?2"@ =~= numbered_join(pieces, 1));
        assert(bare_pieces(pieces));
        assert(st@ == StatementView { sql: numbered_join(pieces, 1), params: st@.params });
        lemma_numbered_join_binds(pieces, st@.params, 0, "id = "@);
        lemma_numbered_join_binds(pieces, st@.params, 1, "uid = "@);
    }
    st
}

/// Lists a user's people by name.
pub fn list_people(uid: &str) -> (st: Statement)
    ensures
        st@.sql == "SELECT id, uid, name, email, phone, avatar_url, notes, created_at, updated_at FROM people WHERE uid = ?1 ORDER BY name ASC"@,
        st@.params == seq![SqlValueView::Text(uid@)],
        binds_numbered(st@, "uid = "@, SqlValueView::Text(uid@)),
{
    let p = vec![text(uid)];
    assert(values_view(p@) =~= seq![SqlValueView::Text(uid@)]);
    let st = statement("SELECT id, uid, name, email, phone, avatar_url, notes, created_at, updated_at FROM people WHERE uid = ?1 ORDER BY name ASC", p);
    proof {
        reveal_strlit("SELECT id, uid, name, email, phone, avatar_url, notes, created_at, updated_at FROM people WHERE uid = ?1 ORDER BY name ASC");
        reveal_strlit("SELECT id, uid, name, email, phone, avatar_url, notes, created_at, updated_at FROM people WHERE uid = ");
        reveal_strlit(" ORDER BY name ASC");
        reveal_strlit("uid = ");
        let pieces = seq!["SELECT id, uid, name, email, phone, avatar_url, notes, created_at, updated_at FROM people WHERE uid = "@, " ORDER BY name ASC"@];
        reveal_with_fuel(numbered_join, 3);
        assert(decimal(1) =~= seq!['1']);
        assert("SELECT id, uid, name, email, phone, avatar_url, notes, created_at, updated_at FROM people WHERE uid = ?1 ORDER BY name ASC"@ =~= numbered_join(pieces, 1));
        assert(bare_pieces(pieces));
        assert(st@ == StatementView { sql: numbered_join(pieces, 1), params: st@.params });
        lemma_numbered_join_binds(pieces, st@.params, 0, "uid = "@);
    }
    st
}

/// The assignments of `update_person`: the update time first, then each field that is
/// present.
pub open spec fn person_update_sets(now: Timestamp, u: PersonUpdate) -> Seq<Binding> {
    seq![("updated_at"@, SqlValueView::DateTime(now))] + opt_set("name"@, text_view(u.name)) + opt_set("email"@, text_view(u.email)) + opt_set("phone"@, text_view(u.phone)) + opt_set("avatar_url"@, text_view(u.avatar_url)) + opt_set("notes"@, text_view(u.notes))
}

/// What the update binds: the update time to `updated_at`, each field that
/// is given to its column, and the row and its user to the `id` and `uid`
/// conditions.
pub open spec fn person_update_binds(st: StatementView, uid: Seq<char>, person_id: Seq<char>, u: PersonUpdate, now: Timestamp) -> bool {
    &&& binds_numbered(st, "updated_at = "@, SqlValueView::DateTime(now))
    &&& (u.name matches Some(c) ==> binds_numbered(st, "name = "@, SqlValueView::Text(c@)))
    &&& (u.email matches Some(c) ==> binds_numbered(st, "email = "@, SqlValueView::Text(c@)))
    &&& (u.phone matches Some(c) ==> binds_numbered(st, "phone = "@, SqlValueView::Text(c@)))
    &&& (u.avatar_url matches Some(c) ==> binds_numbered(st, "avatar_url = "@, SqlValueView::Text(c@)))
    &&& (u.notes matches Some(c) ==> binds_numbered(st, "notes = "@, SqlValueView::Text(c@)))
    &&& binds_numbered(st, "id = "@, SqlValueView::Text(person_id))
    &&& binds_numbered(st, "uid = "@, SqlValueView::Text(uid))
}

/// Law: the update binds every given field to its column, the update time
/// to `updated_at`, and the row and its user to the conditions.
pub proof fn lemma_person_update_binds(uid: Seq<char>, person_id: Seq<char>, u: PersonUpdate, now: Timestamp)
    ensures
        person_update_binds(update_statement("people"@, person_update_sets(now, u), seq![("id"@, SqlValueView::Text(person_id)), ("uid"@, SqlValueView::Text(uid))]), uid, person_id, u, now),
{
    broadcast use vstd::seq_lib::lemma_seq_concat_contains_all_elements, vstd::seq_lib::lemma_seq_contains_after_push;
    let t = "people"@;
    let sets = person_update_sets(now, u);
    let wheres = seq![("id"@, SqlValueView::Text(person_id)), ("uid"@, SqlValueView::Text(uid))];
    {
        reveal_strlit("updated_at");
        reveal_strlit("updated_at = ");
        assert("updated_at = "@ =~= "updated_at"@ + seq![' ', '=', ' ']);
        assert(sets.contains(("updated_at"@, SqlValueView::DateTime(now))) || wheres.contains(("updated_at"@, SqlValueView::DateTime(now))));
        lemma_update_binds_member(t, sets, wheres, "updated_at"@, "updated_at = "@, SqlValueView::DateTime(now));
    }
    if let Some(c) = u.name {
        reveal_strlit("name");
        reveal_strlit("name = ");
        assert("name = "@ =~= "name"@ + seq![' ', '=', ' ']);
        assert(sets.contains(("name"@, SqlValueView::Text(c@))) || wheres.contains(("name"@, SqlValueView::Text(c@))));
        lemma_update_binds_member(t, sets, wheres, "name"@, "name = "@, SqlValueView::Text(c@));
    }
    if let Some(c) = u.email {
        reveal_strlit("email");
        reveal_strlit("email = ");
        assert("email = "@ =~= "email"@ + seq![' ', '=', ' ']);
        assert(sets.contains(("email"@, SqlValueView::Text(c@))) || wheres.contains(("email"@, SqlValueView::Text(c@))));
        lemma_update_binds_member(t, sets, wheres, "email"@, "email = "@, SqlValueView::Text(c@));
    }
    if let Some(c) = u.phone {
        reveal_strlit("phone");
        reveal_strlit("phone = ");
        assert("phone = "@ =~= "phone"@ + seq![' ', '=', ' ']);
        assert(sets.contains(("phone"@, SqlValueView::Text(c@))) || wheres.contains(("phone"@, SqlValueView::Text(c@))));
        lemma_update_binds_member(t, sets, wheres, "phone"@, "phone = "@, SqlValueView::Text(c@));
    }
    if let Some(c) = u.avatar_url {
        reveal_strlit("avatar_url");
        reveal_strlit("avatar_url = ");
        assert("avatar_url = "@ =~= "avatar_url"@ + seq![' ', '=', ' ']);
        assert(sets.contains(("avatar_url"@, SqlValueView::Text(c@))) || wheres.contains(("avatar_url"@, SqlValueView::Text(c@))));
        lemma_update_binds_member(t, sets, wheres, "avatar_url"@, "avatar_url = "@, SqlValueView::Text(c@));
    }
    if let Some(c) = u.notes {
        reveal_strlit("notes");
        reveal_strlit("notes = ");
        assert("notes = "@ =~= "notes"@ + seq![' ', '=', ' ']);
        assert(sets.contains(("notes"@, SqlValueView::Text(c@))) || wheres.contains(("notes"@, SqlValueView::Text(c@))));
        lemma_update_binds_member(t, sets, wheres, "notes"@, "notes = "@, SqlValueView::Text(c@));
    }
    {
        reveal_strlit("id");
        reveal_strlit("id = ");
        assert("id = "@ =~= "id"@ + seq![' ', '=', ' ']);
        assert(sets.contains(("id"@, SqlValueView::Text(person_id))) || wheres.contains(("id"@, SqlValueView::Text(person_id))));
        lemma_update_binds_member(t, sets, wheres, "id"@, "id = "@, SqlValueView::Text(person_id));
    }
    {
        reveal_strlit("uid");
        reveal_strlit("uid = ");
        assert("uid = "@ =~= "uid"@ + seq![' ', '=', ' ']);
        assert(sets.contains(("uid"@, SqlValueView::Text(uid))) || wheres.contains(("uid"@, SqlValueView::Text(uid))));
        lemma_update_binds_member(t, sets, wheres, "uid"@, "uid = "@, SqlValueView::Text(uid));
    }
}

/// Builds the update of a person.
pub fn update_person_at(uid: &str, person_id: &str, u: PersonUpdate, now: Timestamp) -> (st: Statement)
    ensures
        st@ == update_statement("people"@, person_update_sets(now, u), seq![("id"@, SqlValueView::Text(person_id@)), ("uid"@, SqlValueView::Text(uid@))]),
        person_update_binds(st@, uid@, person_id@, u, now),
{
    let ghost u0 = u;
    let mut b = UpdateBuilder::new("people");
    b.set("updated_at", SqlValue::DateTime(now));
    assert(b.sets() =~= seq![("updated_at"@, SqlValueView::DateTime(now))]);
    b.set_opt("name", opt_text_value(u.name));
    b.set_opt("email", opt_text_value(u.email));
    b.set_opt("phone", opt_text_value(u.phone));
    b.set_opt("avatar_url", opt_text_value(u.avatar_url));
    b.set_opt("notes", opt_text_value(u.notes));
    b.where_eq("id", text(person_id));
    b.where_eq("uid", text(uid));
    assert(b.sets() =~= person_update_sets(now, u0));
    assert(b.wheres() =~= seq![("id"@, SqlValueView::Text(person_id@)), ("uid"@, SqlValueView::Text(uid@))]);
    let st = b.finish();
    proof {
        lemma_person_update_binds(uid@, person_id@, u0, now);
    }
    st
}

/// Builds the update of a person. Stamped with the current time.
pub fn update_person(uid: &str, person_id: &str, u: PersonUpdate) -> (st: Statement)
    ensures
        exists|t: Timestamp|
            st@ == update_statement("people"@, person_update_sets(t, u), seq![("id"@, SqlValueView::Text(person_id@)), ("uid"@, SqlValueView::Text(uid@))]),
        exists|t: Timestamp| person_update_binds(st@, uid@, person_id@, u, t),
{
    update_person_at(uid, person_id, u, utc_now())
}

/// Deletes one person of a user.
pub fn delete_person(uid: &str, person_id: &str) -> (st: Statement)
    ensures
        st@.sql == "DELETE FROM people WHERE id = ?1 AND uid = ?2"@,
        st@.params == seq![SqlValueView::Text(person_id@), SqlValueView::Text(uid@)],
        binds_numbered(st@, "id = "@, SqlValueView::Text(person_id@)),
        binds_numbered(st@, "uid = "@, SqlValueView::Text(uid@)),
{
    let p = vec![text(person_id), text(uid)];
    assert(values_view(p@) =~= seq![SqlValueView::Text(person_id@), SqlValueView::Text(uid@)]);
    let st = statement("DELETE FROM people WHERE id = ?1 AND uid = ?2", p);
    proof {
        reveal_strlit("DELETE FROM people WHERE id = ?1 AND uid = ?2");
        reveal_strlit("DELETE FROM people WHERE id = ");
        reveal_strlit(" AND uid = ");
        reveal_strlit("id = ");
        reveal_strlit("uid = ");
        let pieces = seq!["DELETE FROM people WHERE id = "@, " AND uid = "@, Seq::<char>::empty()];
        reveal_with_fuel(numbered_join, 4);
        assert(decimal(1) =~= seq!['1']);
        assert(decimal(2) =~= seq!['2']);
        assert("DELETE FROM people WHERE id = ?1 AND uid = ?2"@ =~= numbered_join(pieces, 1));
        assert(bare_pieces(pieces));
        assert(st@ == StatementView { sql: numbered_join(pieces, 1), params: st@.params });
        lemma_numbered_join_binds(pieces, st@.params, 0, "id = "@);
        lemma_numbered_join_binds(pieces, st@.params, 1, "uid = "@);
    }
    st
}

/// The statement that attributes one message of a conversation to a person.
pub open spec fn segment_statement(uid: &str, person_id: &str, s: SegmentAssignment) -> StatementView {
    StatementView {
        sql: "UPDATE messages SET person_id = ?1 WHERE uid = ?2 AND conversation_id = ?3 AND rowid = ?4"@,
        params: seq![
            SqlValueView::Text(person_id@),
            SqlValueView::Text(uid@),
            SqlValueView::Text(s.conversation_id@),
            SqlValueView::Integer(s.segment_index as i64),
        ],
    }
}

/// The segment assignment binds the person, the user, the conversation and the row to their own placeholders.
proof fn lemma_segment_text_binds(params: Seq<SqlValueView>)
    requires
        params.len() >= 4,
    ensures
        binds_numbered(StatementView { sql: "UPDATE messages SET person_id = ?1 WHERE uid = ?2 AND conversation_id = ?3 AND rowid = ?4"@, params }, "person_id = "@, params[0]),
        binds_numbered(StatementView { sql: "UPDATE messages SET person_id = ?1 WHERE uid = ?2 AND conversation_id = ?3 AND rowid = ?4"@, params }, "uid = "@, params[1]),
        binds_numbered(StatementView { sql: "UPDATE messages SET person_id = ?1 WHERE uid = ?2 AND conversation_id = ?3 AND rowid = ?4"@, params }, "conversation_id = "@, params[2]),
        binds_numbered(StatementView { sql: "UPDATE messages SET person_id = ?1 WHERE uid = ?2 AND conversation_id = ?3 AND rowid = ?4"@, params }, "rowid = "@, params[3]),
{
    reveal_strlit("UPDATE messages SET person_id = ?1 WHERE uid = ?2 AND conversation_id = ?3 AND rowid = ?4");
    reveal_strlit("UPDATE messages SET person_id = ");
    reveal_strlit(" WHERE uid = ");
    reveal_strlit(" AND conversation_id = ");
    reveal_strlit(" AND rowid = ");
    reveal_strlit("person_id = ");
    reveal_strlit("uid = ");
    reveal_strlit("conversation_id = ");
    reveal_strlit("rowid = ");
    let pieces = seq!["UPDATE messages SET person_id = "@, " WHERE uid = "@, " AND conversation_id = "@, " AND rowid = "@, Seq::<char>::empty()];
    reveal_with_fuel(numbered_join, 6);
    assert(decimal(1) =~= seq!['1']);
    assert(decimal(2) =~= seq!['2']);
    assert(decimal(3) =~= seq!['3']);
    assert(decimal(4) =~= seq!['4']);
    assert("UPDATE messages SET person_id = ?1 WHERE uid = ?2 AND conversation_id = ?3 AND rowid = ?4"@ =~= numbered_join(pieces, 1));
    assert(bare_pieces(pieces));
    lemma_numbered_join_binds(pieces, params, 0, "person_id = "@);
    lemma_numbered_join_binds(pieces, params, 1, "uid = "@);
    lemma_numbered_join_binds(pieces, params, 2, "conversation_id = "@);
    lemma_numbered_join_binds(pieces, params, 3, "rowid = "@);
}

/// Builds one statement per segment, in the order given, attributing the
/// message at the segment's row to the person.
pub fn assign_conversation_segments(uid: &str, person_id: &str, segments: &Vec<SegmentAssignment>) -> (r: Vec<Statement>)
    ensures
        r.len() == segments.len(),
        forall|k: int| 0 <= k < r.len() ==> (#[trigger] r@[k])@ == segment_statement(uid, person_id, segments@[k]),
        forall|k: int| 0 <= k < r.len() ==> binds_numbered((#[trigger] r@[k])@, "person_id = "@, SqlValueView::Text(person_id@)) && binds_numbered(r@[k]@, "uid = "@, SqlValueView::Text(uid@)) && binds_numbered(r@[k]@, "conversation_id = "@, SqlValueView::Text(segments@[k].conversation_id@)) && binds_numbered(r@[k]@, "rowid = "@, SqlValueView::Integer(segments@[k].segment_index as i64)),
{
    let mut out: Vec<Statement> = Vec::new();
    let mut i: usize = 0;
    while i < segments.len()
        invariant
            i <= segments.len(),
            out.len() == i,
            forall|k: int| 0 <= k < i ==> (#[trigger] out@[k])@ == segment_statement(uid, person_id, segments@[k]),
        decreases segments.len() - i,
    {
        let s = &segments[i];
        let p = vec![text(person_id), text(uid), text(s.conversation_id.as_str()), SqlValue::Integer(s.segment_index as i64)];
        assert(values_view(p@) =~= segment_statement(uid, person_id, *s).params);
        out.push(statement("UPDATE messages SET person_id = ?1 WHERE uid = ?2 AND conversation_id = ?3 AND rowid = ?4", p));
        i = i + 1;
    }
    let r = out;
    proof {
        assert forall|k: int| 0 <= k < r.len() implies binds_numbered((#[trigger] r@[k])@, "person_id = "@, SqlValueView::Text(person_id@)) && binds_numbered(r@[k]@, "uid = "@, SqlValueView::Text(uid@)) && binds_numbered(r@[k]@, "conversation_id = "@, SqlValueView::Text(segments@[k].conversation_id@)) && binds_numbered(r@[k]@, "rowid = "@, SqlValueView::Integer(segments@[k].segment_index as i64)) by {
            lemma_segment_text_binds(r@[k]@.params);
        }
    }
    r
}

} // verus!
