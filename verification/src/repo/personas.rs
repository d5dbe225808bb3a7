//! Statements of the persona repository.
use vstd::prelude::*;
use vstd::string::*;

use crate::clock::{is_ulid_text, new_ulid, utc_now};
use crate::model::{PersonaInput, PersonaUpdate, Timestamp};
use crate::binding::{bare_pieces, binds_numbered, insert_layout, insert_sql, inserts, lemma_inserts_numbered, lemma_numbered_join_binds, lemma_update_binds_member, numbered_join, plain_items};
use crate::sql::{comma_list, 
    opt_set, opt_text, opt_text_value, statement, text, text_or_null, text_view,
    update_statement, values_view, Binding, SqlValue, SqlValueView, Statement, StatementView,
    UpdateBuilder,
};
use crate::text::{decimal, owned};

verus! {

/// The insert made by `create_persona` for a given identifier and time.
pub open spec fn create_persona_statement(id: Seq<char>, now: Timestamp, uid: &str, input: PersonaInput) -> StatementView {
    StatementView {
        sql: "INSERT INTO personas (id, uid, name, description, prompt, avatar_url, personality_type, created_at, updated_at) VALUES (?1, ?2, ?3, ?4, ?5, ?6, ?7, ?8, ?9)"@,
        params: seq![SqlValueView::Text(id), SqlValueView::Text(uid@), SqlValueView::Text(input.name@), opt_text(input.description), opt_text(input.prompt), opt_text(input.avatar_url), opt_text(input.personality_type), SqlValueView::DateTime(now), SqlValueView::DateTime(now)],
    }
}

/// Builds the insert of a new persona.
#[verifier::rlimit(100)]
proof fn lemma_create_persona_at_columns(st: StatementView)
    requires
        st.sql == "INSERT INTO personas (id, uid, name, description, prompt, avatar_url, personality_type, created_at, updated_at) VALUES (?1, ?2, ?3, ?4, ?5, ?6, ?7, ?8, ?9)"@,
        st.params.len() >= 9,
    ensures
        inserts(st, "id"@, st.params[0]),
        inserts(st, "uid"@, st.params[1]),
        inserts(st, "name"@, st.params[2]),
        inserts(st, "description"@, st.params[3]),
        inserts(st, "prompt"@, st.params[4]),
        inserts(st, "avatar_url"@, st.params[5]),
        inserts(st, "personality_type"@, st.params[6]),
        inserts(st, "created_at"@, st.params[7]),
        inserts(st, "updated_at"@, st.params[8]),
{
    reveal_strlit("INSERT INTO personas (id, uid, name, description, prompt, avatar_url, personality_type, created_at, updated_at) VALUES (?1, ?2, ?3, ?4, ?5, ?6, ?7, ?8, ?9)");
    reveal_strlit("INSERT INTO ");
    reveal_strlit("personas");
    reveal_strlit(" (");
    reveal_strlit(") VALUES (");
    reveal_strlit(")");
    reveal_strlit(", ");
    reveal_strlit("id");
    reveal_strlit("uid");
    reveal_strlit("name");
    reveal_strlit("description");
    reveal_strlit("prompt");
    reveal_strlit("avatar_url");
    reveal_strlit("personality_type");
    reveal_strlit("created_at");
    reveal_strlit("updated_at");
    reveal_strlit("?1");
    reveal_strlit("?2");
    reveal_strlit("?3");
    reveal_strlit("?4");
    reveal_strlit("?5");
    reveal_strlit("?6");
    reveal_strlit("?7");
    reveal_strlit("?8");
    reveal_strlit("?9");
    let cols = seq!["id"@, "uid"@, "name"@, "description"@, "prompt"@, "avatar_url"@, "personality_type"@, "created_at"@, "updated_at"@];
    let vals = seq!["?1"@, "?2"@, "?3"@, "?4"@, "?5"@, "?6"@, "?7"@, "?8"@, "?9"@];
    reveal_with_fuel(comma_list, 10);
    reveal_with_fuel(decimal, 3);
    assert("INSERT INTO personas (id, uid, name, description, prompt, avatar_url, personality_type, created_at, updated_at) VALUES (?1, ?2, ?3, ?4, ?5, ?6, ?7, ?8, ?9)"@ =~= insert_sql("INSERT INTO "@, "personas"@, cols, vals, Seq::<char>::empty()));
    assert(plain_items(cols));
    assert(plain_items(vals));
    assert(insert_layout(st, "INSERT INTO "@, "personas"@, cols, vals, Seq::<char>::empty()));
    assert(vals[0] == seq!['?'] + decimal(1));
    lemma_inserts_numbered(st, "INSERT INTO "@, "personas"@, cols, vals, Seq::<char>::empty(), 0, 1);
    assert(vals[1] == seq!['?'] + decimal(2));
    lemma_inserts_numbered(st, "INSERT INTO "@, "personas"@, cols, vals, Seq::<char>::empty(), 1, 2);
    assert(vals[2] == seq!['?'] + decimal(3));
    lemma_inserts_numbered(st, "INSERT INTO "@, "personas"@, cols, vals, Seq::<char>::empty(), 2, 3);
    assert(vals[3] == seq!['?'] + decimal(4));
    lemma_inserts_numbered(st, "INSERT INTO "@, "personas"@, cols, vals, Seq::<char>::empty(), 3, 4);
    assert(vals[4] == seq!['?'] + decimal(5));
    lemma_inserts_numbered(st, "INSERT INTO "@, "personas"@, cols, vals, Seq::<char>::empty(), 4, 5);
    assert(vals[5] == seq!['?'] + decimal(6));
    lemma_inserts_numbered(st, "INSERT INTO "@, "personas"@, cols, vals, Seq::<char>::empty(), 5, 6);
    assert(vals[6] == seq!['?'] + decimal(7));
    lemma_inserts_numbered(st, "INSERT INTO "@, "personas"@, cols, vals, Seq::<char>::empty(), 6, 7);
    assert(vals[7] == seq!['?'] + decimal(8));
    lemma_inserts_numbered(st, "INSERT INTO "@, "personas"@, cols, vals, Seq::<char>::empty(), 7, 8);
    assert(vals[8] == seq!['?'] + decimal(9));
    lemma_inserts_numbered(st, "INSERT INTO "@, "personas"@, cols, vals, Seq::<char>::empty(), 8, 9);
}

pub fn create_persona_at(id: String, now: Timestamp, uid: &str, input: PersonaInput) -> (st: Statement)
    ensures
        st@ == create_persona_statement(id@, now, uid, input),
        inserts(st@, "id"@, SqlValueView::Text(id@)),
        inserts(st@, "uid"@, SqlValueView::Text(uid@)),
        inserts(st@, "name"@, SqlValueView::Text(input.name@)),
        inserts(st@, "description"@, opt_text(input.description)),
        inserts(st@, "prompt"@, opt_text(input.prompt)),
        inserts(st@, "avatar_url"@, opt_text(input.avatar_url)),
        inserts(st@, "personality_type"@, opt_text(input.personality_type)),
        inserts(st@, "created_at"@, SqlValueView::DateTime(now)),
        inserts(st@, "updated_at"@, SqlValueView::DateTime(now)),
{
    let ghost id_view = id@;
    let ghost input0 = input;
    let p = vec![SqlValue::Text(id), text(uid), SqlValue::Text(input.name), text_or_null(input.description), text_or_null(input.prompt), text_or_null(input.avatar_url), text_or_null(input.personality_type), SqlValue::DateTime(now), SqlValue::DateTime(now)];
    assert(values_view(p@) =~= create_persona_statement(id_view, now, uid, input0).params);
    let st = statement("INSERT INTO personas (id, uid, name, description, prompt, avatar_url, personality_type, created_at, updated_at) VALUES (?1, ?2, ?3, ?4, ?5, ?6, ?7, ?8, ?9)", p);
    proof {
        lemma_create_persona_at_columns(st@);
    }
    st
}

/// Builds the insert of a new persona. Uses a fresh identifier and the current time; returns the identifier
/// with the statement.
pub fn create_persona(uid: &str, input: PersonaInput) -> (r: (String, Statement))
    ensures
        is_ulid_text(r.0@),
        exists|t: Timestamp| r.1@ == create_persona_statement(r.0@, t, uid, input),
{
    let id = new_ulid();
    let keep = owned(id.as_str());
    let st = create_persona_at(id, utc_now(), uid, input);
    (keep, st)
}

/// Selects one persona of a user.
pub fn get_persona(uid: &str, persona_id: &str) -> (st: Statement)
    ensures
        st@.sql == "SELECT id, uid, name, description, prompt, avatar_url, personality_type, created_at, updated_at FROM personas WHERE id = ?1 AND uid = ?2"@,
        st@.params == seq![SqlValueView::Text(persona_id@), SqlValueView::Text(uid@)],
        binds_numbered(st@, "id = "@, SqlValueView::Text(persona_id@)),
        binds_numbered(st@, "uid = "@, SqlValueView::Text(uid@)),
{
    let p = vec![text(persona_id), text(uid)];
    assert(values_view(p@) =~= seq![SqlValueView::Text(persona_id@), SqlValueView::Text(uid@)]);
    let st = statement("SELECT id, uid, name, description, prompt, avatar_url, personality_type, created_at, updated_at FROM personas WHERE id = ?1 AND uid = ?2", p);
    proof {
        reveal_strlit("SELECT id, uid, name, description, prompt, avatar_url, personality_type, created_at, updated_at FROM personas WHERE id = ?1 AND uid = ?2");
        reveal_strlit("SELECT id, uid, name, description, prompt, avatar_url, personality_type, created_at, updated_at FROM personas WHERE id = ");
        reveal_strlit(" AND uid = ");
        reveal_strlit("id = ");
        reveal_strlit("uid = ");
        let pieces = seq!["SELECT id, uid, name, description, prompt, avatar_url, personality_type, created_at, updated_at FROM personas WHERE id = "@, " AND uid = "@, Seq::<char>::empty()];
        reveal_with_fuel(numbered_join, 4);
        assert(decimal(1) =~= seq!['1']);
        assert(decimal(2) =~= seq!['2']);
        assert("SELECT id, uid, name, description, prompt, avatar_url, personality_type, created_at, updated_at FROM personas WHERE id = ?1 AND uid = ?2"@ =~= numbered_join(pieces, 1));
        assert(bare_pieces(pieces));
        assert(st@ == StatementView { sql: numbered_join(pieces, 1), params: st@.params });
        lemma_numbered_join_binds(pieces, st@.params, 0, "id = "@);
        lemma_numbered_join_binds(pieces, st@.params, 1, "uid = "@);
    }
    st
}

/// Lists a user's personas, newest first.
pub fn list_personas(uid: &str) -> (st: Statement)
    ensures
        st@.sql == "SELECT id, uid, name, description, prompt, avatar_url, personality_type, created_at, updated_at FROM personas WHERE uid = ?1 ORDER BY created_at DESC"@,
        st@.params == seq![SqlValueView::Text(uid@)],
        binds_numbered(st@, "uid = "@, SqlValueView::Text(uid@)),
{
    let p = vec![text(uid)];
    assert(values_view(p@) =~= seq![SqlValueView::Text(uid@)]);
    let st = statement("SELECT id, uid, name, description, prompt, avatar_url, personality_type, created_at, updated_at FROM personas WHERE uid = ?1 ORDER BY created_at DESC", p);
    proof {
        reveal_strlit("SELECT id, uid, name, description, prompt, avatar_url, personality_type, created_at, updated_at FROM personas WHERE uid = ?1 ORDER BY created_at DESC");
        reveal_strlit("SELECT id, uid, name, description, prompt, avatar_url, personality_type, created_at, updated_at FROM personas WHERE uid = ");
        reveal_strlit(" ORDER BY created_at DESC");
        reveal_strlit("uid = ");
        let pieces = seq!["SELECT id, uid, name, description, prompt, avatar_url, personality_type, created_at, updated_at FROM personas WHERE uid = "@, " ORDER BY created_at DESC"@];
        reveal_with_fuel(numbered_join, 3);
        assert(decimal(1) =~= seq!['1']);
        assert("SELECT id, uid, name, description, prompt, avatar_url, personality_type, created_at, updated_at FROM personas WHERE uid = ?1 ORDER BY created_at DESC"@ =~= numbered_join(pieces, 1));
        assert(bare_pieces(pieces));
        assert(st@ == StatementView { sql: numbered_join(pieces, 1), params: st@.params });
        lemma_numbered_join_binds(pieces, st@.params, 0, "uid = "@);
    }
    st
}

/// The assignments of `update_persona`: the update time first, then each field that is
/// present.
pub open spec fn persona_update_sets(now: Timestamp, u: PersonaUpdate) -> Seq<Binding> {
    seq![("updated_at"@, SqlValueView::DateTime(now))] + opt_set("name"@, text_view(u.name)) + opt_set("description"@, text_view(u.description)) + opt_set("prompt"@, text_view(u.prompt)) + opt_set("avatar_url"@, text_view(u.avatar_url)) + opt_set("personality_type"@, text_view(u.personality_type))
}

/// What the update binds: the update time to `updated_at`, each field that
/// is given to its column, and the row and its user to the `id` and `uid`
/// conditions.
pub open spec fn persona_update_binds(st: StatementView, uid: Seq<char>, persona_id: Seq<char>, u: PersonaUpdate, now: Timestamp) -> bool {
    &&& binds_numbered(st, "updated_at = "@, SqlValueView::DateTime(now))
    &&& (u.name matches Some(c) ==> binds_numbered(st, "name = "@, SqlValueView::Text(c@)))
    &&& (u.description matches Some(c) ==> binds_numbered(st, "description = "@, SqlValueView::Text(c@)))
    &&& (u.prompt matches Some(c) ==> binds_numbered(st, "prompt = "@, SqlValueView::Text(c@)))
    &&& (u.avatar_url matches Some(c) ==> binds_numbered(st, "avatar_url = "@, SqlValueView::Text(c@)))
    &&& (u.personality_type matches Some(c) ==> binds_numbered(st, "personality_type = "@, SqlValueView::Text(c@)))
    &&& binds_numbered(st, "id = "@, SqlValueView::Text(persona_id))
    &&& binds_numbered(st, "uid = "@, SqlValueView::Text(uid))
}

/// Law: the update binds every given field to its column, the update time
/// to `updated_at`, and the row and its user to the conditions.
pub proof fn lemma_persona_update_binds(uid: Seq<char>, persona_id: Seq<char>, u: PersonaUpdate, now: Timestamp)
    ensures
        persona_update_binds(update_statement("personas"@, persona_update_sets(now, u), seq![("id"@, SqlValueView::Text(persona_id)), ("uid"@, SqlValueView::Text(uid))]), uid, persona_id, u, now),
{
    broadcast use vstd::seq_lib::lemma_seq_concat_contains_all_elements, vstd::seq_lib::lemma_seq_contains_after_push;
    let t = "personas"@;
    let sets = persona_update_sets(now, u);
    let wheres = seq![("id"@, SqlValueView::Text(persona_id)), ("uid"@, SqlValueView::Text(uid))];
    {
        reveal_strlit("updated_at");
        reveal_strlit("updated_at = ");
        assert("updated_at = "@ =~= "updated_at"@ + seq![' ', '=', ' ']);
        assert(sets.contains(("updated_at"@, SqlValueView::DateTime(now))) || wheres.contains(("updated_at"@, SqlValueView::DateTime(now))));
        lemma_update_binds_member(t, sets, wheres, "updated_at"@, "updated_at = "@, SqlValueView::DateTime(now));
    }
    if let Some(c) = u.name {
        reveal_strlit("name");
        reveal_strlit("name = ");
        assert("name = "@ =~= "name"@ + seq![' ', '=', ' ']);
        assert(sets.contains(("name"@, SqlValueView::Text(c@))) || wheres.contains(("name"@, SqlValueView::Text(c@))));
        lemma_update_binds_member(t, sets, wheres, "name"@, "name = "@, SqlValueView::Text(c@));
    }
    if let Some(c) = u.description {
        reveal_strlit("description");
        reveal_strlit("description = ");
        assert("description = "@ =~= "description"@ + seq![' ', '=', ' ']);
        assert(sets.contains(("description"@, SqlValueView::Text(c@))) || wheres.contains(("description"@, SqlValueView::Text(c@))));
        lemma_update_binds_member(t, sets, wheres, "description"@, "description = "@, SqlValueView::Text(c@));
    }
    if let Some(c) = u.prompt {
        reveal_strlit("prompt");
        reveal_strlit("prompt = ");
        assert("prompt = "@ =~= "prompt"@ + seq![' ', '=', ' ']);
        assert(sets.contains(("prompt"@, SqlValueView::Text(c@))) || wheres.contains(("prompt"@, SqlValueView::Text(c@))));
        lemma_update_binds_member(t, sets, wheres, "prompt"@, "prompt = "@, SqlValueView::Text(c@));
    }
    if let Some(c) = u.avatar_url {
        reveal_strlit("avatar_url");
        reveal_strlit("avatar_url = ");
        assert("avatar_url = "@ =~= "avatar_url"@ + seq![' ', '=', ' ']);
        assert(sets.contains(("avatar_url"@, SqlValueView::Text(c@))) || wheres.contains(("avatar_url"@, SqlValueView::Text(c@))));
        lemma_update_binds_member(t, sets, wheres, "avatar_url"@, "avatar_url = "@, SqlValueView::Text(c@));
    }
    if let Some(c) = u.personality_type {
        reveal_strlit("personality_type");
        reveal_strlit("personality_type = ");
        assert("personality_type = "@ =~= "personality_type"@ + seq![' ', '=', ' ']);
        assert(sets.contains(("personality_type"@, SqlValueView::Text(c@))) || wheres.contains(("personality_type"@, SqlValueView::Text(c@))));
        lemma_update_binds_member(t, sets, wheres, "personality_type"@, "personality_type = "@, SqlValueView::Text(c@));
    }
    {
        reveal_strlit("id");
        reveal_strlit("id = ");
        assert("id = "@ =~= "id"@ + seq![' ', '=', ' ']);
        assert(sets.contains(("id"@, SqlValueView::Text(persona_id))) || wheres.contains(("id"@, SqlValueView::Text(persona_id))));
        lemma_update_binds_member(t, sets, wheres, "id"@, "id = "@, SqlValueView::Text(persona_id));
    }
    {
        reveal_strlit("uid");
        reveal_strlit("uid = ");
        assert("uid = "@ =~= "uid"@ + seq![' ', '=', ' ']);
        assert(sets.contains(("uid"@, SqlValueView::Text(uid))) || wheres.contains(("uid"@, SqlValueView::Text(uid))));
        lemma_update_binds_member(t, sets, wheres, "uid"@, "uid = "@, SqlValueView::Text(uid));
    }
}

/// Builds the update of a persona.
pub fn update_persona_at(uid: &str, persona_id: &str, u: PersonaUpdate, now: Timestamp) -> (st: Statement)
    ensures
        st@ == update_statement("personas"@, persona_update_sets(now, u), seq![("id"@, SqlValueView::Text(persona_id@)), ("uid"@, SqlValueView::Text(uid@))]),
        persona_update_binds(st@, uid@, persona_id@, u, now),
{
    let ghost u0 = u;
    let mut b = UpdateBuilder::new("personas");
    b.set("updated_at", SqlValue::DateTime(now));
    assert(b.sets() =~= seq![("updated_at"@, SqlValueView::DateTime(now))]);
    b.set_opt("name", opt_text_value(u.name));
    b.set_opt("description", opt_text_value(u.description));
    b.set_opt("prompt", opt_text_value(u.prompt));
    b.set_opt("avatar_url", opt_text_value(u.avatar_url));
    b.set_opt("personality_type", opt_text_value(u.personality_type));
    b.where_eq("id", text(persona_id));
    b.where_eq("uid", text(uid));
    assert(b.sets() =~= persona_update_sets(now, u0));
    assert(b.wheres() =~= seq![("id"@, SqlValueView::Text(persona_id@)), ("uid"@, SqlValueView::Text(uid@))]);
    let st = b.finish();
    proof {
        lemma_persona_update_binds(uid@, persona_id@, u0, now);
    }
    st
}

/// Builds the update of a persona. Stamped with the current time.
pub fn update_persona(uid: &str, persona_id: &str, u: PersonaUpdate) -> (st: Statement)
    ensures
        exists|t: Timestamp|
            st@ == update_statement("personas"@, persona_update_sets(t, u), seq![("id"@, SqlValueView::Text(persona_id@)), ("uid"@, SqlValueView::Text(uid@))]),
        exists|t: Timestamp| persona_update_binds(st@, uid@, persona_id@, u, t),
{
    update_persona_at(uid, persona_id, u, utc_now())
}

/// Deletes one persona of a user.
pub fn delete_persona(uid: &str, persona_id: &str) -> (st: Statement)
    ensures
        st@.sql == "DELETE FROM personas WHERE id = ?1 AND uid = ?2"@,
        st@.params == seq![SqlValueView::Text(persona_id@), SqlValueView::Text(uid@)],
        binds_numbered(st@, "id = "@, SqlValueView::Text(persona_id@)),
        binds_numbered(st@, "uid = "@, SqlValueView::Text(uid@)),
{
    let p = vec![text(persona_id), text(uid)];
    assert(values_view(p@) =~= seq![SqlValueView::Text(persona_id@), SqlValueView::Text(uid@)]);
    let st = statement("DELETE FROM personas WHERE id = ?1 AND uid = ?2", p);
    proof {
        reveal_strlit("DELETE FROM personas WHERE id = ?1 AND uid = ?2");
        reveal_strlit("DELETE FROM personas WHERE id = ");
        reveal_strlit(" AND uid = ");
        reveal_strlit("id = ");
        reveal_strlit("uid = ");
        let pieces = seq!["DELETE FROM personas WHERE id = "@, " AND uid = "@, Seq::<char>::empty()];
        reveal_with_fuel(numbered_join, 4);
        assert(decimal(1) =~= seq!['1']);
        assert(decimal(2) =~= seq!['2']);
        assert("DELETE FROM personas WHERE id = ?1 AND uid = ?2"@ =~= numbered_join(pieces, 1));
        assert(bare_pieces(pieces));
        assert(st@ == StatementView { sql: numbered_join(pieces, 1), params: st@.params });
        lemma_numbered_join_binds(pieces, st@.params, 0, "id = "@);
        lemma_numbered_join_binds(pieces, st@.params, 1, "uid = "@);
    }
    st
}

} // verus!
