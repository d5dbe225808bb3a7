//! Statements of the goal repository.
use vstd::prelude::*;
use vstd::string::*;

use crate::clock::{is_ulid_text, new_ulid, utc_now};
use crate::model::{GoalInput, GoalUpdate, Pagination, Real, Timestamp};
use crate::binding::{bare_pieces, binds_numbered, insert_layout, insert_sql, inserts, lemma_inserts_numbered, lemma_numbered_join_binds, lemma_update_binds_member, numbered_join, plain_items};
use crate::sql::{comma_list, 
    opt_real_value, opt_set, opt_text_value, opt_time, opt_time_value, real_view, statement,
    text, text_view, time_or_null, time_view, update_statement, values_view, Binding, SqlValue,
    SqlValueView, Statement, StatementView, UpdateBuilder,
};
use crate::text::{decimal, owned};

verus! {

/// The insert made by `create_goal` for a given identifier and time.
pub open spec fn create_goal_statement(id: Seq<char>, now: Timestamp, uid: &str, input: GoalInput) -> StatementView {
    StatementView {
        sql: "INSERT INTO goals (id, uid, title, goal_type, target_date, progress, created_at, updated_at) VALUES (?1, ?2, ?3, ?4, ?5, ?6, ?7, ?8)"@,
        params: seq![SqlValueView::Text(id), SqlValueView::Text(uid@), SqlValueView::Text(input.title@), SqlValueView::Text(input.goal_type@), opt_time(input.target_date), SqlValueView::Real(input.progress), SqlValueView::DateTime(now), SqlValueView::DateTime(now)],
    }
}

/// Builds the insert of a new goal.
#[verifier::rlimit(100)]
proof fn lemma_create_goal_at_columns(st: StatementView)
    requires
        st.sql == "INSERT INTO goals (id, uid, title, goal_type, target_date, progress, created_at, updated_at) VALUES (?1, ?2, ?3, ?4, ?5, ?6, ?7, ?8)"@,
        st.params.len() >= 8,
    ensures
        inserts(st, "id"@, st.params[0]),
        inserts(st, "uid"@, st.params[1]),
        inserts(st, "title"@, st.params[2]),
        inserts(st, "goal_type"@, st.params[3]),
        inserts(st, "target_date"@, st.params[4]),
        inserts(st, "progress"@, st.params[5]),
        inserts(st, "created_at"@, st.params[6]),
        inserts(st, "updated_at"@, st.params[7]),
{
    reveal_strlit("INSERT INTO goals (id, uid, title, goal_type, target_date, progress, created_at, updated_at) VALUES (?1, ?2, ?3, ?4, ?5, ?6, ?7, ?8)");
    reveal_strlit("INSERT INTO ");
    reveal_strlit("goals");
    reveal_strlit(" (");
    reveal_strlit(") VALUES (");
    reveal_strlit(")");
    reveal_strlit(", ");
    reveal_strlit("id");
    reveal_strlit("uid");
    reveal_strlit("title");
    reveal_strlit("goal_type");
    reveal_strlit("target_date");
    reveal_strlit("progress");
    reveal_strlit("created_at");
    reveal_strlit("updated_at");
    reveal_strlit("?1");
    reveal_strlit("?2");
    reveal_strlit("?3");
    reveal_strlit("?4");
    reveal_strlit("?5");
    reveal_strlit("?6");
    reveal_strlit("?7");
    reveal_strlit("?8");
    let cols = seq!["id"@, "uid"@, "title"@, "goal_type"@, "target_date"@, "progress"@, "created_at"@, "updated_at"@];
    let vals = seq!["?1"@, "?2"@, "?3"@, "?4"@, "?5"@, "?6"@, "?7"@, "?8"@];
    reveal_with_fuel(comma_list, 9);
    reveal_with_fuel(decimal, 3);
    assert("INSERT INTO goals (id, uid, title, goal_type, target_date, progress, created_at, updated_at) VALUES (?1, ?2, ?3, ?4, ?5, ?6, ?7, ?8)"@ =~= insert_sql("INSERT INTO "@, "goals"@, cols, vals, Seq::<char>::empty()));
    assert(plain_items(cols));
    assert(plain_items(vals));
    assert(insert_layout(st, "INSERT INTO "@, "goals"@, cols, vals, Seq::<char>::empty()));
    assert(vals[0] == seq!['?'] + decimal(1));
    lemma_inserts_numbered(st, "INSERT INTO "@, "goals"@, cols, vals, Seq::<char>::empty(), 0, 1);
    assert(vals[1] == seq!['?'] + decimal(2));
    lemma_inserts_numbered(st, "INSERT INTO "@, "goals"@, cols, vals, Seq::<char>::empty(), 1, 2);
    assert(vals[2] == seq!['?'] + decimal(3));
    lemma_inserts_numbered(st, "INSERT INTO "@, "goals"@, cols, vals, Seq::<char>::empty(), 2, 3);
    assert(vals[3] == seq!['?'] + decimal(4));
    lemma_inserts_numbered(st, "INSERT INTO "@, "goals"@, cols, vals, Seq::<char>::empty(), 3, 4);
    assert(vals[4] == seq!['?'] + decimal(5));
    lemma_inserts_numbered(st, "INSERT INTO "@, "goals"@, cols, vals, Seq::<char>::empty(), 4, 5);
    assert(vals[5] == seq!['?'] + decimal(6));
    lemma_inserts_numbered(st, "INSERT INTO "@, "goals"@, cols, vals, Seq::<char>::empty(), 5, 6);
    assert(vals[6] == seq!['?'] + decimal(7));
    lemma_inserts_numbered(st, "INSERT INTO "@, "goals"@, cols, vals, Seq::<char>::empty(), 6, 7);
    assert(vals[7] == seq!['?'] + decimal(8));
    lemma_inserts_numbered(st, "INSERT INTO "@, "goals"@, cols, vals, Seq::<char>::empty(), 7, 8);
}

pub fn create_goal_at(id: String, now: Timestamp, uid: &str, input: GoalInput) -> (st: Statement)
    ensures
        st@ == create_goal_statement(id@, now, uid, input),
        inserts(st@, "id"@, SqlValueView::Text(id@)),
        inserts(st@, "uid"@, SqlValueView::Text(uid@)),
        inserts(st@, "title"@, SqlValueView::Text(input.title@)),
        inserts(st@, "goal_type"@, SqlValueView::Text(input.goal_type@)),
        inserts(st@, "target_date"@, opt_time(input.target_date)),
        inserts(st@, "progress"@, SqlValueView::Real(input.progress)),
        inserts(st@, "created_at"@, SqlValueView::DateTime(now)),
        inserts(st@, "updated_at"@, SqlValueView::DateTime(now)),
{
    let ghost id_view = id@;
    let ghost input0 = input;
    let p = vec![SqlValue::Text(id), text(uid), SqlValue::Text(input.title), SqlValue::Text(input.goal_type), time_or_null(input.target_date), SqlValue::Real(input.progress), SqlValue::DateTime(now), SqlValue::DateTime(now)];
    assert(values_view(p@) =~= create_goal_statement(id_view, now, uid, input0).params);
    let st = statement("INSERT INTO goals (id, uid, title, goal_type, target_date, progress, created_at, updated_at) VALUES (?1, ?2, ?3, ?4, ?5, ?6, ?7, ?8)", p);
    proof {
        lemma_create_goal_at_columns(st@);
    }
    st
}

/// Builds the insert of a new goal. Uses a fresh identifier and the current time; returns the identifier
/// with the statement.
pub fn create_goal(uid: &str, input: GoalInput) -> (r: (String, Statement))
    ensures
        is_ulid_text(r.0@),
        exists|t: Timestamp| r.1@ == create_goal_statement(r.0@, t, uid, input),
{
    let id = new_ulid();
    let keep = owned(id.as_str());
    let st = create_goal_at(id, utc_now(), uid, input);
    (keep, st)
}

/// Selects one goal of a user.
pub fn get_goal(uid: &str, goal_id: &str) -> (st: Statement)
    ensures
        st@.sql == "SELECT id, uid, title, goal_type, target_date, progress, created_at, updated_at FROM goals WHERE id = ?1 AND uid = ?2"@,
        st@.params == seq![SqlValueView::Text(goal_id@), SqlValueView::Text(uid@)],
        binds_numbered(st@, "id = "@, SqlValueView::Text(goal_id@)),
        binds_numbered(st@, "uid = "@, SqlValueView::Text(uid@)),
{
    let p = vec![text(goal_id), text(uid)];
    assert(values_view(p@) =~= seq![SqlValueView::Text(goal_id@), SqlValueView::Text(uid@)]);
    let st = statement("SELECT id, uid, title, goal_type, target_date, progress, created_at, updated_at FROM goals WHERE id = ?1 AND uid = ?2", p);
    proof {
        reveal_strlit("SELECT id, uid, title, goal_type, target_date, progress, created_at, updated_at FROM goals WHERE id = ?1 AND uid = ?2");
        reveal_strlit("SELECT id, uid, title, goal_type, target_date, progress, created_at, updated_at FROM goals WHERE id = ");
        reveal_strlit(" AND uid = ");
        reveal_strlit("id = ");
        reveal_strlit("uid = ");
        let pieces = seq!["SELECT id, uid, title, goal_type, target_date, progress, created_at, updated_at FROM goals WHERE id = "@, " AND uid = "@, Seq::<char>::empty()];
        reveal_with_fuel(numbered_join, 4);
        assert(decimal(1) =~= seq!['1']);
        assert(decimal(2) =~= seq!['2']);
        assert("SELECT id, uid, title, goal_type, target_date, progress, created_at, updated_at FROM goals WHERE id = ?1 AND uid = ?2"@ =~= numbered_join(pieces, 1));
        assert(bare_pieces(pieces));
        assert(st@ == StatementView { sql: numbered_join(pieces, 1), params: st@.params });
        lemma_numbered_join_binds(pieces, st@.params, 0, "id = "@);
        lemma_numbered_join_binds(pieces, st@.params, 1, "uid = "@);
    }
    st
}

/// Lists a user's goals, newest first; one page.
pub fn list_goals(uid: &str, page: Pagination) -> (st: Statement)
    ensures
        st@.sql == "SELECT id, uid, title, goal_type, target_date, progress, created_at, updated_at FROM goals WHERE uid = ?1 ORDER BY created_at DESC LIMIT ?2 OFFSET ?3"@,
        st@.params == seq![SqlValueView::Text(uid@), SqlValueView::Size(page.limit), SqlValueView::Size(page.offset)],
        binds_numbered(st@, "uid = "@, SqlValueView::Text(uid@)),
        binds_numbered(st@, "LIMIT "@, SqlValueView::Size(page.limit)),
        binds_numbered(st@, "OFFSET "@, SqlValueView::Size(page.offset)),
{
    let p = vec![text(uid), SqlValue::Size(page.limit), SqlValue::Size(page.offset)];
    assert(values_view(p@) =~= seq![SqlValueView::Text(uid@), SqlValueView::Size(page.limit), SqlValueView::Size(page.offset)]);
    let st = statement("SELECT id, uid, title, goal_type, target_date, progress, created_at, updated_at FROM goals WHERE uid = ?1 ORDER BY created_at DESC LIMIT ?2 OFFSET ?3", p);
    proof {
        reveal_strlit("SELECT id, uid, title, goal_type, target_date, progress, created_at, updated_at FROM goals WHERE uid = ?1 ORDER BY created_at DESC LIMIT ?2 OFFSET ?3");
        reveal_strlit("SELECT id, uid, title, goal_type, target_date, progress, created_at, updated_at FROM goals WHERE uid = ");
        reveal_strlit(" ORDER BY created_at DESC LIMIT ");
        reveal_strlit(" OFFSET ");
        reveal_strlit("uid = ");
        reveal_strlit("LIMIT ");
        reveal_strlit("OFFSET ");
        let pieces = seq!["SELECT id, uid, title, goal_type, target_date, progress, created_at, updated_at FROM goals WHERE uid = "@, " ORDER BY created_at DESC LIMIT "@, " OFFSET "@, Seq::<char>::empty()];
        reveal_with_fuel(numbered_join, 5);
        assert(decimal(1) =~= seq!['1']);
        assert(decimal(2) =~= seq!['2']);
        assert(decimal(3) =~= seq!['3']);
        assert("SELECT id, uid, title, goal_type, target_date, progress, created_at, updated_at FROM goals WHERE uid = ?1 ORDER BY created_at DESC LIMIT ?2 OFFSET ?3"@ =~= numbered_join(pieces, 1));
        assert(bare_pieces(pieces));
        assert(st@ == StatementView { sql: numbered_join(pieces, 1), params: st@.params });
        lemma_numbered_join_binds(pieces, st@.params, 0, "uid = "@);
        lemma_numbered_join_binds(pieces, st@.params, 1, "LIMIT "@);
        lemma_numbered_join_binds(pieces, st@.params, 2, "OFFSET "@);
    }
    st
}

/// The assignments of `update_goal`: the update time first, then each field that is
/// present.
pub open spec fn goal_update_sets(now: Timestamp, u: GoalUpdate) -> Seq<Binding> {
    seq![("updated_at"@, SqlValueView::DateTime(now))] + opt_set("title"@, text_view(u.title)) + opt_set("goal_type"@, text_view(u.goal_type)) + opt_set("target_date"@, time_view(u.target_date)) + opt_set("progress"@, real_view(u.progress))
}

/// What the update binds: the update time to `updated_at`, each field that
/// is given to its column, and the row and its user to the `id` and `uid`
/// conditions.
pub open spec fn goal_update_binds(st: StatementView, uid: Seq<char>, goal_id: Seq<char>, u: GoalUpdate, now: Timestamp) -> bool {
    &&& binds_numbered(st, "updated_at = "@, SqlValueView::DateTime(now))
    &&& (u.title matches Some(c) ==> binds_numbered(st, "title = "@, SqlValueView::Text(c@)))
    &&& (u.goal_type matches Some(c) ==> binds_numbered(st, "goal_type = "@, SqlValueView::Text(c@)))
    &&& (u.target_date matches Some(c) ==> binds_numbered(st, "target_date = "@, SqlValueView::DateTime(c)))
    &&& (u.progress matches Some(c) ==> binds_numbered(st, "progress = "@, SqlValueView::Real(c)))
    &&& binds_numbered(st, "id = "@, SqlValueView::Text(goal_id))
    &&& binds_numbered(st, "uid = "@, SqlValueView::Text(uid))
}

/// Law: the update binds every given field to its column, the update time
/// to `updated_at`, and the row and its user to the conditions.
pub proof fn lemma_goal_update_binds(uid: Seq<char>, goal_id: Seq<char>, u: GoalUpdate, now: Timestamp)
    ensures
        goal_update_binds(update_statement("goals"@, goal_update_sets(now, u), seq![("id"@, SqlValueView::Text(goal_id)), ("uid"@, SqlValueView::Text(uid))]), uid, goal_id, u, now),
{
    broadcast use vstd::seq_lib::lemma_seq_concat_contains_all_elements, vstd::seq_lib::lemma_seq_contains_after_push;
    let t = "goals"@;
    let sets = goal_update_sets(now, u);
    let wheres = seq![("id"@, SqlValueView::Text(goal_id)), ("uid"@, SqlValueView::Text(uid))];
    {
        reveal_strlit("updated_at");
        reveal_strlit("updated_at = ");
        assert("updated_at = "@ =~= "updated_at"@ + seq![' ', '=', ' ']);
        assert(sets.contains(("updated_at"@, SqlValueView::DateTime(now))) || wheres.contains(("updated_at"@, SqlValueView::DateTime(now))));
        lemma_update_binds_member(t, sets, wheres, "updated_at"@, "updated_at = "@, SqlValueView::DateTime(now));
    }
    if let Some(c) = u.title {
        reveal_strlit("title");
        reveal_strlit("title = ");
        assert("title = "@ =~= "title"@ + seq![' ', '=', ' ']);
        assert(sets.contains(("title"@, SqlValueView::Text(c@))) || wheres.contains(("title"@, SqlValueView::Text(c@))));
        lemma_update_binds_member(t, sets, wheres, "title"@, "title = "@, SqlValueView::Text(c@));
    }
    if let Some(c) = u.goal_type {
        reveal_strlit("goal_type");
        reveal_strlit("goal_type = ");
        assert("goal_type = "@ =~= "goal_type"@ + seq![' ', '=', ' ']);
        assert(sets.contains(("goal_type"@, SqlValueView::Text(c@))) || wheres.contains(("goal_type"@, SqlValueView::Text(c@))));
        lemma_update_binds_member(t, sets, wheres, "goal_type"@, "goal_type = "@, SqlValueView::Text(c@));
    }
    if let Some(c) = u.target_date {
        reveal_strlit("target_date");
        reveal_strlit("target_date = ");
        assert("target_date = "@ =~= "target_date"@ + seq![' ', '=', ' ']);
        assert(sets.contains(("target_date"@, SqlValueView::DateTime(c))) || wheres.contains(("target_date"@, SqlValueView::DateTime(c))));
        lemma_update_binds_member(t, sets, wheres, "target_date"@, "target_date = "@, SqlValueView::DateTime(c));
    }
    if let Some(c) = u.progress {
        reveal_strlit("progress");
        reveal_strlit("progress = ");
        assert("progress = "@ =~= "progress"@ + seq![' ', '=', ' ']);
        assert(sets.contains(("progress"@, SqlValueView::Real(c))) || wheres.contains(("progress"@, SqlValueView::Real(c))));
        lemma_update_binds_member(t, sets, wheres, "progress"@, "progress = "@, SqlValueView::Real(c));
    }
    {
        reveal_strlit("id");
        reveal_strlit("id = ");
        assert("id = "@ =~= "id"@ + seq![' ', '=', ' ']);
        assert(sets.contains(("id"@, SqlValueView::Text(goal_id))) || wheres.contains(("id"@, SqlValueView::Text(goal_id))));
        lemma_update_binds_member(t, sets, wheres, "id"@, "id = "@, SqlValueView::Text(goal_id));
    }
    {
        reveal_strlit("uid");
        reveal_strlit("uid = ");
        assert("uid = "@ =~= "uid"@ + seq![' ', '=', ' ']);
        assert(sets.contains(("uid"@, SqlValueView::Text(uid))) || wheres.contains(("uid"@, SqlValueView::Text(uid))));
        lemma_update_binds_member(t, sets, wheres, "uid"@, "uid = "@, SqlValueView::Text(uid));
    }
}

/// Builds the update of a goal.
pub fn update_goal_at(uid: &str, goal_id: &str, u: GoalUpdate, now: Timestamp) -> (st: Statement)
    ensures
        st@ == update_statement("goals"@, goal_update_sets(now, u), seq![("id"@, SqlValueView::Text(goal_id@)), ("uid"@, SqlValueView::Text(uid@))]),
        goal_update_binds(st@, uid@, goal_id@, u, now),
{
    let ghost u0 = u;
    let mut b = UpdateBuilder::new("goals");
    b.set("updated_at", SqlValue::DateTime(now));
    assert(b.sets() =~= seq![("updated_at"@, SqlValueView::DateTime(now))]);
    b.set_opt("title", opt_text_value(u.title));
    b.set_opt("goal_type", opt_text_value(u.goal_type));
    b.set_opt("target_date", opt_time_value(u.target_date));
    b.set_opt("progress", opt_real_value(u.progress));
    b.where_eq("id", text(goal_id));
    b.where_eq("uid", text(uid));
    assert(b.sets() =~= goal_update_sets(now, u0));
    assert(b.wheres() =~= seq![("id"@, SqlValueView::Text(goal_id@)), ("uid"@, SqlValueView::Text(uid@))]);
    let st = b.finish();
    proof {
        lemma_goal_update_binds(uid@, goal_id@, u0, now);
    }
    st
}

/// Builds the update of a goal. Stamped with the current time.
pub fn update_goal(uid: &str, goal_id: &str, u: GoalUpdate) -> (st: Statement)
    ensures
        exists|t: Timestamp|
            st@ == update_statement("goals"@, goal_update_sets(t, u), seq![("id"@, SqlValueView::Text(goal_id@)), ("uid"@, SqlValueView::Text(uid@))]),
        exists|t: Timestamp| goal_update_binds(st@, uid@, goal_id@, u, t),
{
    update_goal_at(uid, goal_id, u, utc_now())
}

/// Deletes one goal of a user.
pub fn delete_goal(uid: &str, goal_id: &str) -> (st: Statement)
    ensures
        st@.sql == "DELETE FROM goals WHERE id = ?1 AND uid = ?2"@,
        st@.params == seq![SqlValueView::Text(goal_id@), SqlValueView::Text(uid@)],
        binds_numbered(st@, "id = "@, SqlValueView::Text(goal_id@)),
        binds_numbered(st@, "uid = "@, SqlValueView::Text(uid@)),
{
    let p = vec![text(goal_id), text(uid)];
    assert(values_view(p@) =~= seq![SqlValueView::Text(goal_id@), SqlValueView::Text(uid@)]);
    let st = statement("DELETE FROM goals WHERE id = ?1 AND uid = ?2", p);
    proof {
        reveal_strlit("DELETE FROM goals WHERE id = ?1 AND uid = ?2");
        reveal_strlit("DELETE FROM goals WHERE id = ");
        reveal_strlit(" AND uid = ");
        reveal_strlit("id = ");
        reveal_strlit("uid = ");
        let pieces = seq!["DELETE FROM goals WHERE id = "@, " AND uid = "@, Seq::<char>::empty()];
        reveal_with_fuel(numbered_join, 4);
        assert(decimal(1) =~= seq!['1']);
        assert(decimal(2) =~= seq!['2']);
        assert("DELETE FROM goals WHERE id = ?1 AND uid = ?2"@ =~= numbered_join(pieces, 1));
        assert(bare_pieces(pieces));
        assert(st@ == StatementView { sql: numbered_join(pieces, 1), params: st@.params });
        lemma_numbered_join_binds(pieces, st@.params, 0, "id = "@);
        lemma_numbered_join_binds(pieces, st@.params, 1, "uid = "@);
    }
    st
}

/// Stores a goal's progress.
pub fn update_progress_at(uid: &str, goal_id: &str, progress: Real, now: Timestamp) -> (st: Statement)
    ensures
        st@.sql == "UPDATE goals SET progress = ?1, updated_at = ?2 WHERE id = ?3 AND uid = ?4"@,
        st@.params == seq![SqlValueView::Real(progress), SqlValueView::DateTime(now), SqlValueView::Text(goal_id@), SqlValueView::Text(uid@)],
        binds_numbered(st@, "progress = "@, SqlValueView::Real(progress)),
        binds_numbered(st@, "updated_at = "@, SqlValueView::DateTime(now)),
        binds_numbered(st@, "id = "@, SqlValueView::Text(goal_id@)),
        binds_numbered(st@, "uid = "@, SqlValueView::Text(uid@)),
{
    let p = vec![SqlValue::Real(progress), SqlValue::DateTime(now), text(goal_id), text(uid)];
    assert(values_view(p@) =~= seq![SqlValueView::Real(progress), SqlValueView::DateTime(now), SqlValueView::Text(goal_id@), SqlValueView::Text(uid@)]);
    let st = statement("UPDATE goals SET progress = ?1, updated_at = ?2 WHERE id = ?3 AND uid = ?4", p);
    proof {
        reveal_strlit("UPDATE goals SET progress = ?1, updated_at = ?2 WHERE id = ?3 AND uid = ?4");
        reveal_strlit("UPDATE goals SET progress = ");
        reveal_strlit(", updated_at = ");
        reveal_strlit(" WHERE id = ");
        reveal_strlit(" AND uid = ");
        reveal_strlit("progress = ");
        reveal_strlit("updated_at = ");
        reveal_strlit("id = ");
        reveal_strlit("uid = ");
        let pieces = seq!["UPDATE goals SET progress = "@, ", updated_at = "@, " WHERE id = "@, " AND uid = "@, Seq::<char>::empty()];
        reveal_with_fuel(numbered_join, 6);
        assert(decimal(1) =~= seq!['1']);
        assert(decimal(2) =~= seq!['2']);
        assert(decimal(3) =~= seq!['3']);
        assert(decimal(4) =~= seq!['4']);
        assert("UPDATE goals SET progress = ?1, updated_at = ?2 WHERE id = ?3 AND uid = ?4"@ =~= numbered_join(pieces, 1));
        assert(bare_pieces(pieces));
        assert(st@ == StatementView { sql: numbered_join(pieces, 1), params: st@.params });
        lemma_numbered_join_binds(pieces, st@.params, 0, "progress = "@);
        lemma_numbered_join_binds(pieces, st@.params, 1, "updated_at = "@);
        lemma_numbered_join_binds(pieces, st@.params, 2, "id = "@);
        lemma_numbered_join_binds(pieces, st@.params, 3, "uid = "@);
    }
    st
}

/// Stores a goal's progress. Stamped with the current time.
pub fn update_progress(uid: &str, goal_id: &str, progress: Real) -> (st: Statement)
    ensures
        st@.sql == "UPDATE goals SET progress = ?1, updated_at = ?2 WHERE id = ?3 AND uid = ?4"@,
        exists|t: Timestamp| st@.params == seq![SqlValueView::Real(progress), SqlValueView::DateTime(t), SqlValueView::Text(goal_id@), SqlValueView::Text(uid@)],
{
    update_progress_at(uid, goal_id, progress, utc_now())
}

/// Lists the recorded progress of a goal, latest first.
pub fn get_goal_history(uid: &str, goal_id: &str) -> (st: Statement)
    ensures
        st@.sql == "SELECT date, progress FROM goal_history WHERE uid = ?1 AND goal_id = ?2 ORDER BY date DESC"@,
        st@.params == seq![SqlValueView::Text(uid@), SqlValueView::Text(goal_id@)],
        binds_numbered(st@, "uid = "@, SqlValueView::Text(uid@)),
        binds_numbered(st@, "goal_id = "@, SqlValueView::Text(goal_id@)),
{
    let p = vec![text(uid), text(goal_id)];
    assert(values_view(p@) =~= seq![SqlValueView::Text(uid@), SqlValueView::Text(goal_id@)]);
    let st = statement("SELECT date, progress FROM goal_history WHERE uid = ?1 AND goal_id = ?2 ORDER BY date DESC", p);
    proof {
        reveal_strlit("SELECT date, progress FROM goal_history WHERE uid = ?1 AND goal_id = ?2 ORDER BY date DESC");
        reveal_strlit("SELECT date, progress FROM goal_history WHERE uid = ");
        reveal_strlit(" AND goal_id = ");
        reveal_strlit(" ORDER BY date DESC");
        reveal_strlit("uid = ");
        reveal_strlit("goal_id = ");
        let pieces = seq!["SELECT date, progress FROM goal_history WHERE uid = "@, " AND goal_id = "@, " ORDER BY date DESC"@];
        reveal_with_fuel(numbered_join, 4);
        assert(decimal(1) =~= seq!['1']);
        assert(decimal(2) =~= seq!['2']);
        assert("SELECT date, progress FROM goal_history WHERE uid = ?1 AND goal_id = ?2 ORDER BY date DESC"@ =~= numbered_join(pieces, 1));
        assert(bare_pieces(pieces));
        assert(st@ == StatementView { sql: numbered_join(pieces, 1), params: st@.params });
        lemma_numbered_join_binds(pieces, st@.params, 0, "uid = "@);
        lemma_numbered_join_binds(pieces, st@.params, 1, "goal_id = "@);
    }
    st
}

} // verus!
