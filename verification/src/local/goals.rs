//! Statements of the local database: goals.
use vstd::prelude::*;
use vstd::string::*;

use crate::clock::{is_ulid_text, new_ulid, now_rfc3339};
use crate::local::conversations::{string_or, text_or};
use crate::model::Real;
use crate::binding::{bare_join, bare_pieces, binds_bare, insert_layout, insert_sql, inserts, lemma_bare_join_binds, lemma_inserts_bare, plain_items};
use crate::sql::{comma_list, 
    opt_text, statement, text, text_or_null, values_view, SqlValue, SqlValueView, Statement,
    StatementView,
};
use crate::text::{decimal, owned};

verus! {

/// Request to create a goal; the target date is text.
#[derive(Debug)]
pub struct CreateGoalRequest {
    pub title: String,
    pub goal_type: Option<String>,
    pub target_date: Option<String>,
    pub target_value: Option<Real>,
}

/// The floating-point number 0.0.
pub open spec fn real_zero() -> Real {
    Real { bits: 0 }
}

/// The floating-point number 1.0.
pub open spec fn real_one() -> Real {
    Real { bits: 0x3FF0_0000_0000_0000 }
}

/// The target a goal is created with: the given one, else 1.0.
pub open spec fn target_or_one(t: Option<Real>) -> Real {
    match t {
        Some(v) => v,
        None => real_one(),
    }
}

/// The given target, else 1.0.
pub fn target_value_or_one(t: Option<Real>) -> (r: Real)
    ensures
        r == target_or_one(t),
{
    match t {
        Some(v) => v,
        None => Real { bits: 0x3FF0_0000_0000_0000 },
    }
}

/// Lists a user's active goals, newest first.
pub fn get_goals(user_id: &str) -> (st: Statement)
    ensures
        st@.sql == "SELECT id, user_id, title, goal_type, target_date, current_value, target_value, status, created_at, updated_at, metadata FROM goals WHERE user_id = ? AND status = 'active' ORDER BY created_at DESC"@,
        st@.params == seq![SqlValueView::Text(user_id@)],
        binds_bare(st@, "user_id = "@, SqlValueView::Text(user_id@)),
{
    let p = vec![text(user_id)];
    assert(values_view(p@) =~= seq![SqlValueView::Text(user_id@)]);
    let st = statement("SELECT id, user_id, title, goal_type, target_date, current_value, target_value, status, created_at, updated_at, metadata FROM goals WHERE user_id = ? AND status = 'active' ORDER BY created_at DESC", p);
    proof {
        reveal_strlit("SELECT id, user_id, title, goal_type, target_date, current_value, target_value, status, created_at, updated_at, metadata FROM goals WHERE user_id = ? AND status = 'active' ORDER BY created_at DESC");
        reveal_strlit("SELECT id, user_id, title, goal_type, target_date, current_value, target_value, status, created_at, updated_at, metadata FROM goals WHERE user_id = ");
        reveal_strlit(" AND status = 'active' ORDER BY created_at DESC");
        reveal_strlit("user_id = ");
        let pieces = seq!["SELECT id, user_id, title, goal_type, target_date, current_value, target_value, status, created_at, updated_at, metadata FROM goals WHERE user_id = "@, " AND status = 'active' ORDER BY created_at DESC"@];
        reveal_with_fuel(bare_join, 3);
        assert("SELECT id, user_id, title, goal_type, target_date, current_value, target_value, status, created_at, updated_at, metadata FROM goals WHERE user_id = ? AND status = 'active' ORDER BY created_at DESC"@ =~= bare_join(pieces));
        assert(bare_pieces(pieces));
        assert(st@ == StatementView { sql: bare_join(pieces), params: st@.params });
        lemma_bare_join_binds(pieces, st@.params, 0, "user_id = "@);
    }
    st
}

/// The insert made by `create_goal` for a given identifier and time text.
pub open spec fn create_goal_statement(id: Seq<char>, now: Seq<char>, user_id: &str, input: CreateGoalRequest) -> StatementView {
    StatementView {
        sql: "INSERT INTO goals (id, user_id, title, goal_type, target_date, current_value, target_value, status, created_at, updated_at, metadata) VALUES (?, ?, ?, ?, ?, ?, ?, ?, ?, ?, ?)"@,
        params: seq![SqlValueView::Text(id), SqlValueView::Text(user_id@), SqlValueView::Text(input.title@), SqlValueView::Text(text_or(input.goal_type, "binary"@)), opt_text(input.target_date), SqlValueView::Real(real_zero()), SqlValueView::Real(target_or_one(input.target_value)), SqlValueView::Text("active"@), SqlValueView::Text(now), SqlValueView::Text(now), SqlValueView::Text(""@)],
    }
}

/// Builds the insert of a new goal: type `binary` unless given, progress 0.0, target 1.0 unless given, active, empty metadata.
#[verifier::rlimit(100)]
proof fn lemma_create_goal_at_columns(st: StatementView)
    requires
        st.sql == "INSERT INTO goals (id, user_id, title, goal_type, target_date, current_value, target_value, status, created_at, updated_at, metadata) VALUES (?, ?, ?, ?, ?, ?, ?, ?, ?, ?, ?)"@,
        st.params.len() >= 11,
    ensures
        inserts(st, "id"@, st.params[0]),
        inserts(st, "user_id"@, st.params[1]),
        inserts(st, "title"@, st.params[2]),
        inserts(st, "goal_type"@, st.params[3]),
        inserts(st, "target_date"@, st.params[4]),
        inserts(st, "current_value"@, st.params[5]),
        inserts(st, "target_value"@, st.params[6]),
        inserts(st, "status"@, st.params[7]),
        inserts(st, "created_at"@, st.params[8]),
        inserts(st, "updated_at"@, st.params[9]),
        inserts(st, "metadata"@, st.params[10]),
{
    reveal_strlit("INSERT INTO goals (id, user_id, title, goal_type, target_date, current_value, target_value, status, created_at, updated_at, metadata) VALUES (?, ?, ?, ?, ?, ?, ?, ?, ?, ?, ?)");
    reveal_strlit("INSERT INTO ");
    reveal_strlit("goals");
    reveal_strlit(" (");
    reveal_strlit(") VALUES (");
    reveal_strlit(")");
    reveal_strlit(", ");
    reveal_strlit("id");
    reveal_strlit("user_id");
    reveal_strlit("title");
    reveal_strlit("goal_type");
    reveal_strlit("target_date");
    reveal_strlit("current_value");
    reveal_strlit("target_value");
    reveal_strlit("status");
    reveal_strlit("created_at");
    reveal_strlit("updated_at");
    reveal_strlit("metadata");
    reveal_strlit("?");
    let cols = seq!["id"@, "user_id"@, "title"@, "goal_type"@, "target_date"@, "current_value"@, "target_value"@, "status"@, "created_at"@, "updated_at"@, "metadata"@];
    let vals = seq!["?"@, "?"@, "?"@, "?"@, "?"@, "?"@, "?"@, "?"@, "?"@, "?"@, "?"@];
    assert("?"@ =~= seq!['?']);
    reveal_with_fuel(comma_list, 12);
    reveal_with_fuel(decimal, 3);
    assert("INSERT INTO goals (id, user_id, title, goal_type, target_date, current_value, target_value, status, created_at, updated_at, metadata) VALUES (?, ?, ?, ?, ?, ?, ?, ?, ?, ?, ?)"@ =~= insert_sql("INSERT INTO "@, "goals"@, cols, vals, Seq::<char>::empty()));
    assert(plain_items(cols));
    assert(plain_items(vals));
    assert(insert_layout(st, "INSERT INTO "@, "goals"@, cols, vals, Seq::<char>::empty()));
    assert(forall|m: int| 0 <= m < vals.len() ==> #[trigger] vals[m] == seq!['?']);
    lemma_inserts_bare(st, "INSERT INTO "@, "goals"@, cols, vals, Seq::<char>::empty(), 0);
    lemma_inserts_bare(st, "INSERT INTO "@, "goals"@, cols, vals, Seq::<char>::empty(), 1);
    lemma_inserts_bare(st, "INSERT INTO "@, "goals"@, cols, vals, Seq::<char>::empty(), 2);
    lemma_inserts_bare(st, "INSERT INTO "@, "goals"@, cols, vals, Seq::<char>::empty(), 3);
    lemma_inserts_bare(st, "INSERT INTO "@, "goals"@, cols, vals, Seq::<char>::empty(), 4);
    lemma_inserts_bare(st, "INSERT INTO "@, "goals"@, cols, vals, Seq::<char>::empty(), 5);
    lemma_inserts_bare(st, "INSERT INTO "@, "goals"@, cols, vals, Seq::<char>::empty(), 6);
    lemma_inserts_bare(st, "INSERT INTO "@, "goals"@, cols, vals, Seq::<char>::empty(), 7);
    lemma_inserts_bare(st, "INSERT INTO "@, "goals"@, cols, vals, Seq::<char>::empty(), 8);
    lemma_inserts_bare(st, "INSERT INTO "@, "goals"@, cols, vals, Seq::<char>::empty(), 9);
    lemma_inserts_bare(st, "INSERT INTO "@, "goals"@, cols, vals, Seq::<char>::empty(), 10);
}

pub fn create_goal_at(id: String, now: &str, user_id: &str, input: CreateGoalRequest) -> (st: Statement)
    ensures
        st@ == create_goal_statement(id@, now@, user_id, input),
        inserts(st@, "id"@, SqlValueView::Text(id@)),
        inserts(st@, "user_id"@, SqlValueView::Text(user_id@)),
        inserts(st@, "title"@, SqlValueView::Text(input.title@)),
        inserts(st@, "goal_type"@, SqlValueView::Text(text_or(input.goal_type, "binary"@))),
        inserts(st@, "target_date"@, opt_text(input.target_date)),
        inserts(st@, "current_value"@, SqlValueView::Real(real_zero())),
        inserts(st@, "target_value"@, SqlValueView::Real(target_or_one(input.target_value))),
        inserts(st@, "status"@, SqlValueView::Text("active"@)),
        inserts(st@, "created_at"@, SqlValueView::Text(now@)),
        inserts(st@, "updated_at"@, SqlValueView::Text(now@)),
        inserts(st@, "metadata"@, SqlValueView::Text(""@)),
{
    let ghost id_view = id@;
    let ghost input0 = input;
    let p = vec![SqlValue::Text(id), text(user_id), SqlValue::Text(input.title), SqlValue::Text(string_or(input.goal_type, "binary")), text_or_null(input.target_date), SqlValue::Real(Real { bits: 0 }), SqlValue::Real(target_value_or_one(input.target_value)), text("active"), text(now), text(now), text("")];
    assert(values_view(p@) =~= create_goal_statement(id_view, now@, user_id, input0).params);
    let st = statement("INSERT INTO goals (id, user_id, title, goal_type, target_date, current_value, target_value, status, created_at, updated_at, metadata) VALUES (?, ?, ?, ?, ?, ?, ?, ?, ?, ?, ?)", p);
    proof {
        lemma_create_goal_at_columns(st@);
    }
    st
}

/// Builds the insert of a new goal: type `binary` unless given, progress 0.0, target 1.0 unless given, active, empty metadata. Uses a fresh identifier and the current time rendered as RFC 3339;
/// returns the identifier with the statement.
pub fn create_goal(user_id: &str, input: CreateGoalRequest) -> (r: (String, Statement))
    ensures
        is_ulid_text(r.0@),
        exists|t: Seq<char>| #[trigger] create_goal_statement(r.0@, t, user_id, input) == r.1@,
{
    let id = new_ulid();
    let keep = owned(id.as_str());
    let now = now_rfc3339();
    let st = create_goal_at(id, now.as_str(), user_id, input);
    (keep, st)
}

/// Selects one goal by identifier.
pub fn get_goal(id: &str) -> (st: Statement)
    ensures
        st@.sql == "SELECT id, user_id, title, goal_type, target_date, current_value, target_value, status, created_at, updated_at, metadata FROM goals WHERE id = ?"@,
        st@.params == seq![SqlValueView::Text(id@)],
        binds_bare(st@, "id = "@, SqlValueView::Text(id@)),
{
    let p = vec![text(id)];
    assert(values_view(p@) =~= seq![SqlValueView::Text(id@)]);
    let st = statement("SELECT id, user_id, title, goal_type, target_date, current_value, target_value, status, created_at, updated_at, metadata FROM goals WHERE id = ?", p);
    proof {
        reveal_strlit("SELECT id, user_id, title, goal_type, target_date, current_value, target_value, status, created_at, updated_at, metadata FROM goals WHERE id = ?");
        reveal_strlit("SELECT id, user_id, title, goal_type, target_date, current_value, target_value, status, created_at, updated_at, metadata FROM goals WHERE id = ");
        reveal_strlit("id = ");
        let pieces = seq!["SELECT id, user_id, title, goal_type, target_date, current_value, target_value, status, created_at, updated_at, metadata FROM goals WHERE id = "@, Seq::<char>::empty()];
        reveal_with_fuel(bare_join, 3);
        assert("SELECT id, user_id, title, goal_type, target_date, current_value, target_value, status, created_at, updated_at, metadata FROM goals WHERE id = ?"@ =~= bare_join(pieces));
        assert(bare_pieces(pieces));
        assert(st@ == StatementView { sql: bare_join(pieces), params: st@.params });
        lemma_bare_join_binds(pieces, st@.params, 0, "id = "@);
    }
    st
}

/// The parameters of `update_goal_progress` for a given time text.
pub open spec fn update_goal_progress_params(now: Seq<char>, user_id: &str, id: &str, current_value: Real) -> Seq<SqlValueView> {
    seq![SqlValueView::Real(current_value), SqlValueView::Text(now), SqlValueView::Text(id@), SqlValueView::Text(user_id@)]
}

/// Stores a goal's current value.
pub fn update_goal_progress_at(user_id: &str, id: &str, current_value: Real, now: &str) -> (st: Statement)
    ensures
        st@.sql == "UPDATE goals SET current_value = ?, updated_at = ? WHERE id = ? AND user_id = ?"@,
        st@.params == update_goal_progress_params(now@, user_id, id, current_value),
        binds_bare(st@, "current_value = "@, SqlValueView::Real(current_value)),
        binds_bare(st@, "updated_at = "@, SqlValueView::Text(now@)),
        binds_bare(st@, "id = "@, SqlValueView::Text(id@)),
        binds_bare(st@, "user_id = "@, SqlValueView::Text(user_id@)),
{
    let p = vec![SqlValue::Real(current_value), text(now), text(id), text(user_id)];
    assert(values_view(p@) =~= update_goal_progress_params(now@, user_id, id, current_value));
    let st = statement("UPDATE goals SET current_value = ?, updated_at = ? WHERE id = ? AND user_id = ?", p);
    proof {
        reveal_strlit("UPDATE goals SET current_value = ?, updated_at = ? WHERE id = ? AND user_id = ?");
        reveal_strlit("UPDATE goals SET current_value = ");
        reveal_strlit(", updated_at = ");
        reveal_strlit(" WHERE id = ");
        reveal_strlit(" AND user_id = ");
        reveal_strlit("current_value = ");
        reveal_strlit("updated_at = ");
        reveal_strlit("id = ");
        reveal_strlit("user_id = ");
        let pieces = seq!["UPDATE goals SET current_value = "@, ", updated_at = "@, " WHERE id = "@, " AND user_id = "@, Seq::<char>::empty()];
        reveal_with_fuel(bare_join, 6);
        assert("UPDATE goals SET current_value = ?, updated_at = ? WHERE id = ? AND user_id = ?"@ =~= bare_join(pieces));
        assert(bare_pieces(pieces));
        assert(st@ == StatementView { sql: bare_join(pieces), params: st@.params });
        lemma_bare_join_binds(pieces, st@.params, 0, "current_value = "@);
        lemma_bare_join_binds(pieces, st@.params, 1, "updated_at = "@);
        lemma_bare_join_binds(pieces, st@.params, 2, "id = "@);
        lemma_bare_join_binds(pieces, st@.params, 3, "user_id = "@);
    }
    st
}

/// Stores a goal's current value. Stamped with the current time rendered as RFC 3339.
pub fn update_goal_progress(user_id: &str, id: &str, current_value: Real) -> (st: Statement)
    ensures
        st@.sql == "UPDATE goals SET current_value = ?, updated_at = ? WHERE id = ? AND user_id = ?"@,
        exists|t: Seq<char>| #[trigger] update_goal_progress_params(t, user_id, id, current_value) == st@.params,
{
    let now = now_rfc3339();
    update_goal_progress_at(user_id, id, current_value, now.as_str())
}

/// The parameters of `complete_goal` for a given time text.
pub open spec fn complete_goal_params(now: Seq<char>, user_id: &str, id: &str) -> Seq<SqlValueView> {
    seq![SqlValueView::Text(now), SqlValueView::Text(id@), SqlValueView::Text(user_id@)]
}

/// Marks a goal completed, its current value reaching its target.
pub fn complete_goal_at(user_id: &str, id: &str, now: &str) -> (st: Statement)
    ensures
        st@.sql == "UPDATE goals SET status = 'completed', current_value = target_value, updated_at = ? WHERE id = ? AND user_id = ?"@,
        st@.params == complete_goal_params(now@, user_id, id),
        binds_bare(st@, "updated_at = "@, SqlValueView::Text(now@)),
        binds_bare(st@, "id = "@, SqlValueView::Text(id@)),
        binds_bare(st@, "user_id = "@, SqlValueView::Text(user_id@)),
{
    let p = vec![text(now), text(id), text(user_id)];
    assert(values_view(p@) =~= complete_goal_params(now@, user_id, id));
    let st = statement("UPDATE goals SET status = 'completed', current_value = target_value, updated_at = ? WHERE id = ? AND user_id = ?", p);
    proof {
        reveal_strlit("UPDATE goals SET status = 'completed', current_value = target_value, updated_at = ? WHERE id = ? AND user_id = ?");
        reveal_strlit("UPDATE goals SET status = 'completed', current_value = target_value, updated_at = ");
        reveal_strlit(" WHERE id = ");
        reveal_strlit(" AND user_id = ");
        reveal_strlit("updated_at = ");
        reveal_strlit("id = ");
        reveal_strlit("user_id = ");
        let pieces = seq!["UPDATE goals SET status = 'completed', current_value = target_value, updated_at = "@, " WHERE id = "@, " AND user_id = "@, Seq::<char>::empty()];
        reveal_with_fuel(bare_join, 5);
        assert("UPDATE goals SET status = 'completed', current_value = target_value, updated_at = ? WHERE id = ? AND user_id = ?"@ =~= bare_join(pieces));
        assert(bare_pieces(pieces));
        assert(st@ == StatementView { sql: bare_join(pieces), params: st@.params });
        lemma_bare_join_binds(pieces, st@.params, 0, "updated_at = "@);
        lemma_bare_join_binds(pieces, st@.params, 1, "id = "@);
        lemma_bare_join_binds(pieces, st@.params, 2, "user_id = "@);
    }
    st
}

/// Marks a goal completed, its current value reaching its target. Stamped with the current time rendered as RFC 3339.
pub fn complete_goal(user_id: &str, id: &str) -> (st: Statement)
    ensures
        st@.sql == "UPDATE goals SET status = 'completed', current_value = target_value, updated_at = ? WHERE id = ? AND user_id = ?"@,
        exists|t: Seq<char>| #[trigger] complete_goal_params(t, user_id, id) == st@.params,
{
    let now = now_rfc3339();
    complete_goal_at(user_id, id, now.as_str())
}

/// Deletes one goal of a user.
pub fn delete_goal(user_id: &str, id: &str) -> (st: Statement)
    ensures
        st@.sql == "DELETE FROM goals WHERE id = ? AND user_id = ?"@,
        st@.params == seq![SqlValueView::Text(id@), SqlValueView::Text(user_id@)],
        binds_bare(st@, "id = "@, SqlValueView::Text(id@)),
        binds_bare(st@, "user_id = "@, SqlValueView::Text(user_id@)),
{
    let p = vec![text(id), text(user_id)];
    assert(values_view(p@) =~= seq![SqlValueView::Text(id@), SqlValueView::Text(user_id@)]);
    let st = statement("DELETE FROM goals WHERE id = ? AND user_id = ?", p);
    proof {
        reveal_strlit("DELETE FROM goals WHERE id = ? AND user_id = ?");
        reveal_strlit("DELETE FROM goals WHERE id = ");
        reveal_strlit(" AND user_id = ");
        reveal_strlit("id = ");
        reveal_strlit("user_id = ");
        let pieces = seq!["DELETE FROM goals WHERE id = "@, " AND user_id = "@, Seq::<char>::empty()];
        reveal_with_fuel(bare_join, 4);
        assert("DELETE FROM goals WHERE id = ? AND user_id = ?"@ =~= bare_join(pieces));
        assert(bare_pieces(pieces));
        assert(st@ == StatementView { sql: bare_join(pieces), params: st@.params });
        lemma_bare_join_binds(pieces, st@.params, 0, "id = "@);
        lemma_bare_join_binds(pieces, st@.params, 1, "user_id = "@);
    }
    st
}

/// Lists a user's completed goals, most recently updated first.
pub fn get_completed_goals(user_id: &str) -> (st: Statement)
    ensures
        st@.sql == "SELECT id, user_id, title, goal_type, target_date, current_value, target_value, status, created_at, updated_at, metadata FROM goals WHERE user_id = ? AND status = 'completed' ORDER BY updated_at DESC"@,
        st@.params == seq![SqlValueView::Text(user_id@)],
        binds_bare(st@, "user_id = "@, SqlValueView::Text(user_id@)),
{
    let p = vec![text(user_id)];
    assert(values_view(p@) =~= seq![SqlValueView::Text(user_id@)]);
    let st = statement("SELECT id, user_id, title, goal_type, target_date, current_value, target_value, status, created_at, updated_at, metadata FROM goals WHERE user_id = ? AND status = 'completed' ORDER BY updated_at DESC", p);
    proof {
        reveal_strlit("SELECT id, user_id, title, goal_type, target_date, current_value, target_value, status, created_at, updated_at, metadata FROM goals WHERE user_id = ? AND status = 'completed' ORDER BY updated_at DESC");
        reveal_strlit("SELECT id, user_id, title, goal_type, target_date, current_value, target_value, status, created_at, updated_at, metadata FROM goals WHERE user_id = ");
        reveal_strlit(" AND status = 'completed' ORDER BY updated_at DESC");
        reveal_strlit("user_id = ");
        let pieces = seq!["SELECT id, user_id, title, goal_type, target_date, current_value, target_value, status, created_at, updated_at, metadata FROM goals WHERE user_id = "@, " AND status = 'completed' ORDER BY updated_at DESC"@];
        reveal_with_fuel(bare_join, 3);
        assert("SELECT id, user_id, title, goal_type, target_date, current_value, target_value, status, created_at, updated_at, metadata FROM goals WHERE user_id = ? AND status = 'completed' ORDER BY updated_at DESC"@ =~= bare_join(pieces));
        assert(bare_pieces(pieces));
        assert(st@ == StatementView { sql: bare_join(pieces), params: st@.params });
        lemma_bare_join_binds(pieces, st@.params, 0, "user_id = "@);
    }
    st
}

} // verus!
