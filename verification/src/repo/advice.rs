//! Statements of the advice repository.
use vstd::prelude::*;
use vstd::string::*;

use crate::clock::{is_ulid_text, new_ulid, utc_now};
use crate::model::{AdviceInput, AdviceUpdate, Timestamp};
use crate::binding::{bare_pieces, binds_numbered, insert_layout, insert_sql, inserts, lemma_inserts_numbered, lemma_numbered_join_binds, lemma_update_binds_member, numbered_join, plain_items};
use crate::sql::{comma_list, 
    bool_view, opt_bool_value, opt_set, opt_text, opt_text_value, statement, text,
    text_or_null, text_view, update_statement, values_view, Binding, SqlValue, SqlValueView,
    Statement, StatementView, UpdateBuilder,
};
use crate::text::{decimal, owned};

verus! {

/// The insert made by `create_advice` for a given identifier and time.
pub open spec fn create_advice_statement(id: Seq<char>, now: Timestamp, uid: &str, input: AdviceInput) -> StatementView {
    StatementView {
        sql: "INSERT INTO advice (id, uid, title, content, category, reasoning, source, is_enabled, created_at, updated_at) VALUES (?1, ?2, ?3, ?4, ?5, ?6, ?7, ?8, ?9, ?10)"@,
        params: seq![SqlValueView::Text(id), SqlValueView::Text(uid@), SqlValueView::Text(input.title@), SqlValueView::Text(input.content@), SqlValueView::Text(input.category@), opt_text(input.reasoning), opt_text(input.source), SqlValueView::Bool(true), SqlValueView::DateTime(now), SqlValueView::DateTime(now)],
    }
}

/// Builds the insert of a new piece of advice, enabled.
#[verifier::rlimit(100)]
proof fn lemma_create_advice_at_columns(st: StatementView)
    requires
        st.sql == "INSERT INTO advice (id, uid, title, content, category, reasoning, source, is_enabled, created_at, updated_at) VALUES (?1, ?2, ?3, ?4, ?5, ?6, ?7, ?8, ?9, ?10)"@,
        st.params.len() >= 10,
    ensures
        inserts(st, "id"@, st.params[0]),
        inserts(st, "uid"@, st.params[1]),
        inserts(st, "title"@, st.params[2]),
        inserts(st, "content"@, st.params[3]),
        inserts(st, "category"@, st.params[4]),
        inserts(st, "reasoning"@, st.params[5]),
        inserts(st, "source"@, st.params[6]),
        inserts(st, "is_enabled"@, st.params[7]),
        inserts(st, "created_at"@, st.params[8]),
        inserts(st, "updated_at"@, st.params[9]),
{
    reveal_strlit("INSERT INTO advice (id, uid, title, content, category, reasoning, source, is_enabled, created_at, updated_at) VALUES (?1, ?2, ?3, ?4, ?5, ?6, ?7, ?8, ?9, ?10)");
    reveal_strlit("INSERT INTO ");
    reveal_strlit("advice");
    reveal_strlit(" (");
    reveal_strlit(") VALUES (");
    reveal_strlit(")");
    reveal_strlit(", ");
    reveal_strlit("id");
    reveal_strlit("uid");
    reveal_strlit("title");
    reveal_strlit("content");
    reveal_strlit("category");
    reveal_strlit("reasoning");
    reveal_strlit("source");
    reveal_strlit("is_enabled");
    reveal_strlit("created_at");
    reveal_strlit("updated_at");
    reveal_strlit("?1");
    reveal_strlit("?2");
    reveal_strlit("?3");
    reveal_strlit("?4");
    reveal_strlit("?5");
    reveal_strlit("?6");
    reveal_strlit("?7");
    reveal_strlit("?8");
    reveal_strlit("?9");
    reveal_strlit("?10");
    let cols = seq!["id"@, "uid"@, "title"@, "content"@, "category"@, "reasoning"@, "source"@, "is_enabled"@, "created_at"@, "updated_at"@];
    let vals = seq!["?1"@, "?2"@, "?3"@, "?4"@, "?5"@, "?6"@, "?7"@, "?8"@, "?9"@, "?10"@];
    reveal_with_fuel(comma_list, 11);
    reveal_with_fuel(decimal, 3);
    assert("INSERT INTO advice (id, uid, title, content, category, reasoning, source, is_enabled, created_at, updated_at) VALUES (?1, ?2, ?3, ?4, ?5, ?6, ?7, ?8, ?9, ?10)"@ =~= insert_sql("INSERT INTO "@, "advice"@, cols, vals, Seq::<char>::empty()));
    assert(plain_items(cols));
    assert(plain_items(vals));
    assert(insert_layout(st, "INSERT INTO "@, "advice"@, cols, vals, Seq::<char>::empty()));
    assert(vals[0] == seq!['?'] + decimal(1));
    lemma_inserts_numbered(st, "INSERT INTO "@, "advice"@, cols, vals, Seq::<char>::empty(), 0, 1);
    assert(vals[1] == seq!['?'] + decimal(2));
    lemma_inserts_numbered(st, "INSERT INTO "@, "advice"@, cols, vals, Seq::<char>::empty(), 1, 2);
    assert(vals[2] == seq!['?'] + decimal(3));
    lemma_inserts_numbered(st, "INSERT INTO "@, "advice"@, cols, vals, Seq::<char>::empty(), 2, 3);
    assert(vals[3] == seq!['?'] + decimal(4));
    lemma_inserts_numbered(st, "INSERT INTO "@, "advice"@, cols, vals, Seq::<char>::empty(), 3, 4);
    assert(vals[4] == seq!['?'] + decimal(5));
    lemma_inserts_numbered(st, "INSERT INTO "@, "advice"@, cols, vals, Seq::<char>::empty(), 4, 5);
    assert(vals[5] == seq!['?'] + decimal(6));
    lemma_inserts_numbered(st, "INSERT INTO "@, "advice"@, cols, vals, Seq::<char>::empty(), 5, 6);
    assert(vals[6] == seq!['?'] + decimal(7));
    lemma_inserts_numbered(st, "INSERT INTO "@, "advice"@, cols, vals, Seq::<char>::empty(), 6, 7);
    assert(vals[7] == seq!['?'] + decimal(8));
    lemma_inserts_numbered(st, "INSERT INTO "@, "advice"@, cols, vals, Seq::<char>::empty(), 7, 8);
    assert(vals[8] == seq!['?'] + decimal(9));
    lemma_inserts_numbered(st, "INSERT INTO "@, "advice"@, cols, vals, Seq::<char>::empty(), 8, 9);
    assert(vals[9] == seq!['?'] + decimal(10));
    lemma_inserts_numbered(st, "INSERT INTO "@, "advice"@, cols, vals, Seq::<char>::empty(), 9, 10);
}

pub fn create_advice_at(id: String, now: Timestamp, uid: &str, input: AdviceInput) -> (st: Statement)
    ensures
        st@ == create_advice_statement(id@, now, uid, input),
        inserts(st@, "id"@, SqlValueView::Text(id@)),
        inserts(st@, "uid"@, SqlValueView::Text(uid@)),
        inserts(st@, "title"@, SqlValueView::Text(input.title@)),
        inserts(st@, "content"@, SqlValueView::Text(input.content@)),
        inserts(st@, "category"@, SqlValueView::Text(input.category@)),
        inserts(st@, "reasoning"@, opt_text(input.reasoning)),
        inserts(st@, "source"@, opt_text(input.source)),
        inserts(st@, "is_enabled"@, SqlValueView::Bool(true)),
        inserts(st@, "created_at"@, SqlValueView::DateTime(now)),
        inserts(st@, "updated_at"@, SqlValueView::DateTime(now)),
{
    let ghost id_view = id@;
    let ghost input0 = input;
    let p = vec![SqlValue::Text(id), text(uid), SqlValue::Text(input.title), SqlValue::Text(input.content), SqlValue::Text(input.category), text_or_null(input.reasoning), text_or_null(input.source), SqlValue::Bool(true), SqlValue::DateTime(now), SqlValue::DateTime(now)];
    assert(values_view(p@) =~= create_advice_statement(id_view, now, uid, input0).params);
    let st = statement("INSERT INTO advice (id, uid, title, content, category, reasoning, source, is_enabled, created_at, updated_at) VALUES (?1, ?2, ?3, ?4, ?5, ?6, ?7, ?8, ?9, ?10)", p);
    proof {
        lemma_create_advice_at_columns(st@);
    }
    st
}

/// Builds the insert of a new piece of advice, enabled. Uses a fresh identifier and the current time; returns the identifier
/// with the statement.
pub fn create_advice(uid: &str, input: AdviceInput) -> (r: (String, Statement))
    ensures
        is_ulid_text(r.0@),
        exists|t: Timestamp| r.1@ == create_advice_statement(r.0@, t, uid, input),
{
    let id = new_ulid();
    let keep = owned(id.as_str());
    let st = create_advice_at(id, utc_now(), uid, input);
    (keep, st)
}

/// Selects one piece of advice of a user.
pub fn get_advice(uid: &str, advice_id: &str) -> (st: Statement)
    ensures
        st@.sql == "SELECT id, uid, title, content, category, reasoning, source, is_enabled, created_at, updated_at FROM advice WHERE id = ?1 AND uid = ?2"@,
        st@.params == seq![SqlValueView::Text(advice_id@), SqlValueView::Text(uid@)],
        binds_numbered(st@, "id = "@, SqlValueView::Text(advice_id@)),
        binds_numbered(st@, "uid = "@, SqlValueView::Text(uid@)),
{
    let p = vec![text(advice_id), text(uid)];
    assert(values_view(p@) =~= seq![SqlValueView::Text(advice_id@), SqlValueView::Text(uid@)]);
    let st = statement("SELECT id, uid, title, content, category, reasoning, source, is_enabled, created_at, updated_at FROM advice WHERE id = ?1 AND uid = ?2", p);
    proof {
        reveal_strlit("SELECT id, uid, title, content, category, reasoning, source, is_enabled, created_at, updated_at FROM advice WHERE id = ?1 AND uid = ?2");
        reveal_strlit("SELECT id, uid, title, content, category, reasoning, source, is_enabled, created_at, updated_at FROM advice WHERE id = ");
        reveal_strlit(" AND uid = ");
        reveal_strlit("id = ");
        reveal_strlit("uid = ");
        let pieces = seq!["SELECT id, uid, title, content, category, reasoning, source, is_enabled, created_at, updated_at FROM advice WHERE id = "@, " AND uid = "@, Seq::<char>::empty()];
        reveal_with_fuel(numbered_join, 4);
        assert(decimal(1) =~= seq!['1']);
        assert(decimal(2) =~= seq!['2']);
        assert("SELECT id, uid, title, content, category, reasoning, source, is_enabled, created_at, updated_at FROM advice WHERE id = ?1 AND uid = ?2"@ =~= numbered_join(pieces, 1));
        assert(bare_pieces(pieces));
        assert(st@ == StatementView { sql: numbered_join(pieces, 1), params: st@.params });
        lemma_numbered_join_binds(pieces, st@.params, 0, "id = "@);
        lemma_numbered_join_binds(pieces, st@.params, 1, "uid = "@);
    }
    st
}

/// Lists a user's enabled advice, newest first, restricted to one category
/// when one is given.
pub fn list_advice(uid: &str, category: Option<String>) -> (st: Statement)
    ensures
        category is None ==> st@.sql == "SELECT id, uid, title, content, category, reasoning, source, is_enabled, created_at, updated_at FROM advice WHERE uid = ?1 AND is_enabled = 1 ORDER BY created_at DESC"@,
        category is None ==> st@.params == seq![SqlValueView::Text(uid@)],
        category matches Some(c) ==> st@.sql == "SELECT id, uid, title, content, category, reasoning, source, is_enabled, created_at, updated_at FROM advice WHERE uid = ?1 AND category = ?2 AND is_enabled = 1 ORDER BY created_at DESC"@,
        category matches Some(c) ==> st@.params == seq![SqlValueView::Text(uid@), SqlValueView::Text(c@)],
{
    match category {
        Some(c) => {
            let ghost cv = c@;
            let p = vec![text(uid), SqlValue::Text(c)];
            assert(values_view(p@) =~= seq![SqlValueView::Text(uid@), SqlValueView::Text(cv)]);
            statement("SELECT id, uid, title, content, category, reasoning, source, is_enabled, created_at, updated_at FROM advice WHERE uid = ?1 AND category = ?2 AND is_enabled = 1 ORDER BY created_at DESC", p)
        },
        None => {
            let p = vec![text(uid)];
            assert(values_view(p@) =~= seq![SqlValueView::Text(uid@)]);
            statement("SELECT id, uid, title, content, category, reasoning, source, is_enabled, created_at, updated_at FROM advice WHERE uid = ?1 AND is_enabled = 1 ORDER BY created_at DESC", p)
        },
    }
}

/// The assignments of `update_advice`: the update time first, then each field that is
/// present.
pub open spec fn advice_update_sets(now: Timestamp, u: AdviceUpdate) -> Seq<Binding> {
    seq![("updated_at"@, SqlValueView::DateTime(now))] + opt_set("title"@, text_view(u.title)) + opt_set("content"@, text_view(u.content)) + opt_set("category"@, text_view(u.category)) + opt_set("is_enabled"@, bool_view(u.is_enabled))
}

/// What the update binds: the update time to `updated_at`, each field that
/// is given to its column, and the row and its user to the `id` and `uid`
/// conditions.
pub open spec fn advice_update_binds(st: StatementView, uid: Seq<char>, advice_id: Seq<char>, u: AdviceUpdate, now: Timestamp) -> bool {
    &&& binds_numbered(st, "updated_at = "@, SqlValueView::DateTime(now))
    &&& (u.title matches Some(c) ==> binds_numbered(st, "title = "@, SqlValueView::Text(c@)))
    &&& (u.content matches Some(c) ==> binds_numbered(st, "content = "@, SqlValueView::Text(c@)))
    &&& (u.category matches Some(c) ==> binds_numbered(st, "category = "@, SqlValueView::Text(c@)))
    &&& (u.is_enabled matches Some(c) ==> binds_numbered(st, "is_enabled = "@, SqlValueView::Bool(c)))
    &&& binds_numbered(st, "id = "@, SqlValueView::Text(advice_id))
    &&& binds_numbered(st, "uid = "@, SqlValueView::Text(uid))
}

/// Law: the update binds every given field to its column, the update time
/// to `updated_at`, and the row and its user to the conditions.
pub proof fn lemma_advice_update_binds(uid: Seq<char>, advice_id: Seq<char>, u: AdviceUpdate, now: Timestamp)
    ensures
        advice_update_binds(update_statement("advice"@, advice_update_sets(now, u), seq![("id"@, SqlValueView::Text(advice_id)), ("uid"@, SqlValueView::Text(uid))]), uid, advice_id, u, now),
{
    broadcast use vstd::seq_lib::lemma_seq_concat_contains_all_elements, vstd::seq_lib::lemma_seq_contains_after_push;
    let t = "advice"@;
    let sets = advice_update_sets(now, u);
    let wheres = seq![("id"@, SqlValueView::Text(advice_id)), ("uid"@, SqlValueView::Text(uid))];
    {
        reveal_strlit("updated_at");
        reveal_strlit("updated_at = ");
        assert("updated_at = "@ =~= "updated_at"@ + seq![' ', '=', ' ']);
        assert(sets.contains(("updated_at"@, SqlValueView::DateTime(now))) || wheres.contains(("updated_at"@, SqlValueView::DateTime(now))));
        lemma_update_binds_member(t, sets, wheres, "updated_at"@, "updated_at = "@, SqlValueView::DateTime(now));
    }
    if let Some(c) = u.title {
        reveal_strlit("title");
        reveal_strlit("title = ");
        assert("title = "@ =~= "title"@ + seq![' ', '=', ' ']);
        assert(sets.contains(("title"@, SqlValueView::Text(c@))) || wheres.contains(("title"@, SqlValueView::Text(c@))));
        lemma_update_binds_member(t, sets, wheres, "title"@, "title = "@, SqlValueView::Text(c@));
    }
    if let Some(c) = u.content {
        reveal_strlit("content");
        reveal_strlit("content = ");
        assert("content = "@ =~= "content"@ + seq![' ', '=', ' ']);
        assert(sets.contains(("content"@, SqlValueView::Text(c@))) || wheres.contains(("content"@, SqlValueView::Text(c@))));
        lemma_update_binds_member(t, sets, wheres, "content"@, "content = "@, SqlValueView::Text(c@));
    }
    if let Some(c) = u.category {
        reveal_strlit("category");
        reveal_strlit("category = ");
        assert("category = "@ =~= "category"@ + seq![' ', '=', ' ']);
        assert(sets.contains(("category"@, SqlValueView::Text(c@))) || wheres.contains(("category"@, SqlValueView::Text(c@))));
        lemma_update_binds_member(t, sets, wheres, "category"@, "category = "@, SqlValueView::Text(c@));
    }
    if let Some(c) = u.is_enabled {
        reveal_strlit("is_enabled");
        reveal_strlit("is_enabled = ");
        assert("is_enabled = "@ =~= "is_enabled"@ + seq![' ', '=', ' ']);
        assert(sets.contains(("is_enabled"@, SqlValueView::Bool(c))) || wheres.contains(("is_enabled"@, SqlValueView::Bool(c))));
        lemma_update_binds_member(t, sets, wheres, "is_enabled"@, "is_enabled = "@, SqlValueView::Bool(c));
    }
    {
        reveal_strlit("id");
        reveal_strlit("id = ");
        assert("id = "@ =~= "id"@ + seq![' ', '=', ' ']);
        assert(sets.contains(("id"@, SqlValueView::Text(advice_id))) || wheres.contains(("id"@, SqlValueView::Text(advice_id))));
        lemma_update_binds_member(t, sets, wheres, "id"@, "id = "@, SqlValueView::Text(advice_id));
    }
    {
        reveal_strlit("uid");
        reveal_strlit("uid = ");
        assert("uid = "@ =~= "uid"@ + seq![' ', '=', ' ']);
        assert(sets.contains(("uid"@, SqlValueView::Text(uid))) || wheres.contains(("uid"@, SqlValueView::Text(uid))));
        lemma_update_binds_member(t, sets, wheres, "uid"@, "uid = "@, SqlValueView::Text(uid));
    }
}

/// Builds the update of a piece of advice.
pub fn update_advice_at(uid: &str, advice_id: &str, u: AdviceUpdate, now: Timestamp) -> (st: Statement)
    ensures
        st@ == update_statement("advice"@, advice_update_sets(now, u), seq![("id"@, SqlValueView::Text(advice_id@)), ("uid"@, SqlValueView::Text(uid@))]),
        advice_update_binds(st@, uid@, advice_id@, u, now),
{
    let ghost u0 = u;
    let mut b = UpdateBuilder::new("advice");
    b.set("updated_at", SqlValue::DateTime(now));
    assert(b.sets() =~= seq![("updated_at"@, SqlValueView::DateTime(now))]);
    b.set_opt("title", opt_text_value(u.title));
    b.set_opt("content", opt_text_value(u.content));
    b.set_opt("category", opt_text_value(u.category));
    b.set_opt("is_enabled", opt_bool_value(u.is_enabled));
    b.where_eq("id", text(advice_id));
    b.where_eq("uid", text(uid));
    assert(b.sets() =~= advice_update_sets(now, u0));
    assert(b.wheres() =~= seq![("id"@, SqlValueView::Text(advice_id@)), ("uid"@, SqlValueView::Text(uid@))]);
    let st = b.finish();
    proof {
        lemma_advice_update_binds(uid@, advice_id@, u0, now);
    }
    st
}

/// Builds the update of a piece of advice. Stamped with the current time.
pub fn update_advice(uid: &str, advice_id: &str, u: AdviceUpdate) -> (st: Statement)
    ensures
        exists|t: Timestamp|
            st@ == update_statement("advice"@, advice_update_sets(t, u), seq![("id"@, SqlValueView::Text(advice_id@)), ("uid"@, SqlValueView::Text(uid@))]),
        exists|t: Timestamp| advice_update_binds(st@, uid@, advice_id@, u, t),
{
    update_advice_at(uid, advice_id, u, utc_now())
}

/// Deletes one piece of advice of a user.
pub fn delete_advice(uid: &str, advice_id: &str) -> (st: Statement)
    ensures
        st@.sql == "DELETE FROM advice WHERE id = ?1 AND uid = ?2"@,
        st@.params == seq![SqlValueView::Text(advice_id@), SqlValueView::Text(uid@)],
        binds_numbered(st@, "id = "@, SqlValueView::Text(advice_id@)),
        binds_numbered(st@, "uid = "@, SqlValueView::Text(uid@)),
{
    let p = vec![text(advice_id), text(uid)];
    assert(values_view(p@) =~= seq![SqlValueView::Text(advice_id@), SqlValueView::Text(uid@)]);
    let st = statement("DELETE FROM advice WHERE id = ?1 AND uid = ?2", p);
    proof {
        reveal_strlit("DELETE FROM advice WHERE id = ?1 AND uid = ?2");
        reveal_strlit("DELETE FROM advice WHERE id = ");
        reveal_strlit(" AND uid = ");
        reveal_strlit("id = ");
        reveal_strlit("uid = ");
        let pieces = seq!["DELETE FROM advice WHERE id = "@, " AND uid = "@, Seq::<char>::empty()];
        reveal_with_fuel(numbered_join, 4);
        assert(decimal(1) =~= seq!['1']);
        assert(decimal(2) =~= seq!['2']);
        assert("DELETE FROM advice WHERE id = ?1 AND uid = ?2"@ =~= numbered_join(pieces, 1));
        assert(bare_pieces(pieces));
        assert(st@ == StatementView { sql: numbered_join(pieces, 1), params: st@.params });
        lemma_numbered_join_binds(pieces, st@.params, 0, "id = "@);
        lemma_numbered_join_binds(pieces, st@.params, 1, "uid = "@);
    }
    st
}

} // verus!
