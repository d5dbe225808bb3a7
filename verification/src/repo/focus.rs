//! Statements of the focus session repository.
use vstd::prelude::*;
use vstd::string::*;

use crate::clock::{is_ulid_text, new_ulid, utc_now};
use crate::model::{FocusSessionInput, FocusSessionUpdate, Pagination, Timestamp};
use crate::binding::{bare_pieces, binds_numbered, insert_layout, insert_sql, inserts, lemma_inserts_numbered, lemma_numbered_join_binds, lemma_update_binds_member, numbered_join, plain_items};
use crate::sql::{comma_list, 
    id_and_uid, opt_set, opt_text, opt_text_value, opt_time, opt_time_value, statement, text,
    text_or_null, text_view, time_or_null, time_view, update_statement, values_view, Binding,
    SqlValue, SqlValueView, Statement, StatementView, UpdateBuilder,
};
use crate::json::{encode_strings, json_of_strings};
use crate::text::{decimal, owned};

verus! {

/// The insert made by `create_focus_session` for a given identifier and time;
/// the distraction events are stored as JSON.
pub open spec fn create_focus_session_statement(id: Seq<char>, now: Timestamp, uid: &str, input: FocusSessionInput) -> StatementView {
    StatementView {
        sql: "INSERT INTO focus_sessions (id, uid, start_time, end_time, focus_type, distraction_events, created_at) VALUES (?1, ?2, ?3, ?4, ?5, ?6, ?7)"@,
        params: seq![SqlValueView::Text(id), SqlValueView::Text(uid@), SqlValueView::DateTime(input.start_time), opt_time(input.end_time), opt_text(input.focus_type), SqlValueView::Text(json_of_strings(input.distraction_events.deep_view())), SqlValueView::DateTime(now)],
    }
}

/// Builds the insert of a new focus session.
#[verifier::rlimit(100)]
proof fn lemma_create_focus_session_at_columns(st: StatementView)
    requires
        st.sql == "INSERT INTO focus_sessions (id, uid, start_time, end_time, focus_type, distraction_events, created_at) VALUES (?1, ?2, ?3, ?4, ?5, ?6, ?7)"@,
        st.params.len() >= 7,
    ensures
        inserts(st, "id"@, st.params[0]),
        inserts(st, "uid"@, st.params[1]),
        inserts(st, "start_time"@, st.params[2]),
        inserts(st, "end_time"@, st.params[3]),
        inserts(st, "focus_type"@, st.params[4]),
        inserts(st, "distraction_events"@, st.params[5]),
        inserts(st, "created_at"@, st.params[6]),
{
    reveal_strlit("INSERT INTO focus_sessions (id, uid, start_time, end_time, focus_type, distraction_events, created_at) VALUES (?1, ?2, ?3, ?4, ?5, ?6, ?7)");
    reveal_strlit("INSERT INTO ");
    reveal_strlit("focus_sessions");
    reveal_strlit(" (");
    reveal_strlit(") VALUES (");
    reveal_strlit(")");
    reveal_strlit(", ");
    reveal_strlit("id");
    reveal_strlit("uid");
    reveal_strlit("start_time");
    reveal_strlit("end_time");
    reveal_strlit("focus_type");
    reveal_strlit("distraction_events");
    reveal_strlit("created_at");
    reveal_strlit("?1");
    reveal_strlit("?2");
    reveal_strlit("?3");
    reveal_strlit("?4");
    reveal_strlit("?5");
    reveal_strlit("?6");
    reveal_strlit("?7");
    let cols = seq!["id"@, "uid"@, "start_time"@, "end_time"@, "focus_type"@, "distraction_events"@, "created_at"@];
    let vals = seq!["?1"@, "?2"@, "?3"@, "?4"@, "?5"@, "?6"@, "?7"@];
    reveal_with_fuel(comma_list, 8);
    reveal_with_fuel(decimal, 3);
    assert("INSERT INTO focus_sessions (id, uid, start_time, end_time, focus_type, distraction_events, created_at) VALUES (?1, ?2, ?3, ?4, ?5, ?6, ?7)"@ =~= insert_sql("INSERT INTO "@, "focus_sessions"@, cols, vals, Seq::<char>::empty()));
    assert(plain_items(cols));
    assert(plain_items(vals));
    assert(insert_layout(st, "INSERT INTO "@, "focus_sessions"@, cols, vals, Seq::<char>::empty()));
    assert(vals[0] == seq!['?'] + decimal(1));
    lemma_inserts_numbered(st, "INSERT INTO "@, "focus_sessions"@, cols, vals, Seq::<char>::empty(), 0, 1);
    assert(vals[1] == seq!['?'] + decimal(2));
    lemma_inserts_numbered(st, "INSERT INTO "@, "focus_sessions"@, cols, vals, Seq::<char>::empty(), 1, 2);
    assert(vals[2] == seq!['?'] + decimal(3));
    lemma_inserts_numbered(st, "INSERT INTO "@, "focus_sessions"@, cols, vals, Seq::<char>::empty(), 2, 3);
    assert(vals[3] == seq!['?'] + decimal(4));
    lemma_inserts_numbered(st, "INSERT INTO "@, "focus_sessions"@, cols, vals, Seq::<char>::empty(), 3, 4);
    assert(vals[4] == seq!['?'] + decimal(5));
    lemma_inserts_numbered(st, "INSERT INTO "@, "focus_sessions"@, cols, vals, Seq::<char>::empty(), 4, 5);
    assert(vals[5] == seq!['?'] + decimal(6));
    lemma_inserts_numbered(st, "INSERT INTO "@, "focus_sessions"@, cols, vals, Seq::<char>::empty(), 5, 6);
    assert(vals[6] == seq!['?'] + decimal(7));
    lemma_inserts_numbered(st, "INSERT INTO "@, "focus_sessions"@, cols, vals, Seq::<char>::empty(), 6, 7);
}

pub fn create_focus_session_at(id: String, now: Timestamp, uid: &str, input: FocusSessionInput) -> (st: Statement)
    ensures
        st@ == create_focus_session_statement(id@, now, uid, input),
        inserts(st@, "id"@, SqlValueView::Text(id@)),
        inserts(st@, "uid"@, SqlValueView::Text(uid@)),
        inserts(st@, "start_time"@, SqlValueView::DateTime(input.start_time)),
        inserts(st@, "end_time"@, opt_time(input.end_time)),
        inserts(st@, "focus_type"@, opt_text(input.focus_type)),
        inserts(st@, "distraction_events"@, SqlValueView::Text(json_of_strings(input.distraction_events.deep_view()))),
        inserts(st@, "created_at"@, SqlValueView::DateTime(now)),
{
    let ghost id_view = id@;
    let ghost input0 = input;
    let events = encode_strings(&input.distraction_events);
    let p = vec![SqlValue::Text(id), text(uid), SqlValue::DateTime(input.start_time), time_or_null(input.end_time), text_or_null(input.focus_type), SqlValue::Text(events), SqlValue::DateTime(now)];
    assert(values_view(p@) =~= create_focus_session_statement(id_view, now, uid, input0).params);
    let st = statement("INSERT INTO focus_sessions (id, uid, start_time, end_time, focus_type, distraction_events, created_at) VALUES (?1, ?2, ?3, ?4, ?5, ?6, ?7)", p);
    proof {
        lemma_create_focus_session_at_columns(st@);
    }
    st
}

/// Builds the insert of a new focus session under a fresh identifier, stamped
/// with the current time; returns the identifier with the statement.
pub fn create_focus_session(uid: &str, input: FocusSessionInput) -> (r: (String, Statement))
    ensures
        is_ulid_text(r.0@),
        exists|t: Timestamp| r.1@ == create_focus_session_statement(r.0@, t, uid, input),
{
    let id = new_ulid();
    let keep = owned(id.as_str());
    let st = create_focus_session_at(id, utc_now(), uid, input);
    (keep, st)
}

/// Selects one focus session of a user.
pub fn get_focus_session(uid: &str, session_id: &str) -> (st: Statement)
    ensures
        st@.sql == "SELECT id, uid, start_time, end_time, focus_type, distraction_events, created_at FROM focus_sessions WHERE id = ?1 AND uid = ?2"@,
        st@.params == seq![SqlValueView::Text(session_id@), SqlValueView::Text(uid@)],
        binds_numbered(st@, "id = "@, SqlValueView::Text(session_id@)),
        binds_numbered(st@, "uid = "@, SqlValueView::Text(uid@)),
{
    let p = vec![text(session_id), text(uid)];
    assert(values_view(p@) =~= seq![SqlValueView::Text(session_id@), SqlValueView::Text(uid@)]);
    let st = statement("SELECT id, uid, start_time, end_time, focus_type, distraction_events, created_at FROM focus_sessions WHERE id = ?1 AND uid = ?2", p);
    proof {
        reveal_strlit("SELECT id, uid, start_time, end_time, focus_type, distraction_events, created_at FROM focus_sessions WHERE id = ?1 AND uid = ?2");
        reveal_strlit("SELECT id, uid, start_time, end_time, focus_type, distraction_events, created_at FROM focus_sessions WHERE id = ");
        reveal_strlit(" AND uid = ");
        reveal_strlit("id = ");
        reveal_strlit("uid = ");
        let pieces = seq!["SELECT id, uid, start_time, end_time, focus_type, distraction_events, created_at FROM focus_sessions WHERE id = "@, " AND uid = "@, Seq::<char>::empty()];
        reveal_with_fuel(numbered_join, 4);
        assert(decimal(1) =~= seq!['1']);
        assert(decimal(2) =~= seq!['2']);
        assert("SELECT id, uid, start_time, end_time, focus_type, distraction_events, created_at FROM focus_sessions WHERE id = ?1 AND uid = ?2"@ =~= numbered_join(pieces, 1));
        assert(bare_pieces(pieces));
        assert(st@ == StatementView { sql: numbered_join(pieces, 1), params: st@.params });
        lemma_numbered_join_binds(pieces, st@.params, 0, "id = "@);
        lemma_numbered_join_binds(pieces, st@.params, 1, "uid = "@);
    }
    st
}

/// Lists a user's focus sessions, latest start first; one page.
pub fn list_focus_sessions(uid: &str, page: Pagination) -> (st: Statement)
    ensures
        st@.sql == "SELECT id, uid, start_time, end_time, focus_type, distraction_events, created_at FROM focus_sessions WHERE uid = ?1 ORDER BY start_time DESC LIMIT ?2 OFFSET ?3"@,
        st@.params == seq![SqlValueView::Text(uid@), SqlValueView::Size(page.limit), SqlValueView::Size(page.offset)],
        binds_numbered(st@, "uid = "@, SqlValueView::Text(uid@)),
        binds_numbered(st@, "LIMIT "@, SqlValueView::Size(page.limit)),
        binds_numbered(st@, "OFFSET "@, SqlValueView::Size(page.offset)),
{
    let p = vec![text(uid), SqlValue::Size(page.limit), SqlValue::Size(page.offset)];
    assert(values_view(p@) =~= seq![SqlValueView::Text(uid@), SqlValueView::Size(page.limit), SqlValueView::Size(page.offset)]);
    let st = statement("SELECT id, uid, start_time, end_time, focus_type, distraction_events, created_at FROM focus_sessions WHERE uid = ?1 ORDER BY start_time DESC LIMIT ?2 OFFSET ?3", p);
    proof {
        reveal_strlit("SELECT id, uid, start_time, end_time, focus_type, distraction_events, created_at FROM focus_sessions WHERE uid = ?1 ORDER BY start_time DESC LIMIT ?2 OFFSET ?3");
        reveal_strlit("SELECT id, uid, start_time, end_time, focus_type, distraction_events, created_at FROM focus_sessions WHERE uid = ");
        reveal_strlit(" ORDER BY start_time DESC LIMIT ");
        reveal_strlit(" OFFSET ");
        reveal_strlit("uid = ");
        reveal_strlit("LIMIT ");
        reveal_strlit("OFFSET ");
        let pieces = seq!["SELECT id, uid, start_time, end_time, focus_type, distraction_events, created_at FROM focus_sessions WHERE uid = "@, " ORDER BY start_time DESC LIMIT "@, " OFFSET "@, Seq::<char>::empty()];
        reveal_with_fuel(numbered_join, 5);
        assert(decimal(1) =~= seq!['1']);
        assert(decimal(2) =~= seq!['2']);
        assert(decimal(3) =~= seq!['3']);
        assert("SELECT id, uid, start_time, end_time, focus_type, distraction_events, created_at FROM focus_sessions WHERE uid = ?1 ORDER BY start_time DESC LIMIT ?2 OFFSET ?3"@ =~= numbered_join(pieces, 1));
        assert(bare_pieces(pieces));
        assert(st@ == StatementView { sql: numbered_join(pieces, 1), params: st@.params });
        lemma_numbered_join_binds(pieces, st@.params, 0, "uid = "@);
        lemma_numbered_join_binds(pieces, st@.params, 1, "LIMIT "@);
        lemma_numbered_join_binds(pieces, st@.params, 2, "OFFSET "@);
    }
    st
}

/// The assignments of `update_focus_session`: each field that is present; the
/// distraction events are stored as JSON.
pub open spec fn focus_session_update_sets(u: FocusSessionUpdate) -> Seq<Binding> {
    opt_set("end_time"@, time_view(u.end_time)) + opt_set("focus_type"@, text_view(u.focus_type))
        + opt_set("distraction_events"@, match u.distraction_events {
        Some(e) => Some(SqlValueView::Text(json_of_strings(e.deep_view()))),
        None => None,
    })
}

/// What a focus-session update binds: each given field to its column (the distraction events as their JSON text), and the session and its user to the `id` and `uid` conditions.
pub open spec fn focus_session_update_binds(st: StatementView, uid: Seq<char>, session_id: Seq<char>, u: FocusSessionUpdate) -> bool {
    &&& (u.end_time matches Some(c) ==> binds_numbered(st, "end_time = "@, SqlValueView::DateTime(c)))
    &&& (u.focus_type matches Some(c) ==> binds_numbered(st, "focus_type = "@, SqlValueView::Text(c@)))
    &&& (u.distraction_events matches Some(c) ==> binds_numbered(st, "distraction_events = "@, SqlValueView::Text(json_of_strings(c.deep_view()))))
    &&& binds_numbered(st, "id = "@, SqlValueView::Text(session_id))
    &&& binds_numbered(st, "uid = "@, SqlValueView::Text(uid))
}

/// Law: the update binds every given field to its column and the row to its
/// conditions.
pub proof fn lemma_focus_session_update_binds(uid: Seq<char>, session_id: Seq<char>, u: FocusSessionUpdate)
    ensures
        focus_session_update_binds(update_statement("focus_sessions"@, focus_session_update_sets(u), id_and_uid(session_id, uid)), uid, session_id, u),
        (u.end_time is Some || u.focus_type is Some || u.distraction_events is Some) ==> focus_session_update_sets(u).len() > 0,
{
    broadcast use vstd::seq_lib::lemma_seq_concat_contains_all_elements, vstd::seq_lib::lemma_seq_contains_after_push;
    let t = "focus_sessions"@;
    let sets = focus_session_update_sets(u);
    let wheres = id_and_uid(session_id, uid);
    if let Some(c) = u.end_time {
        reveal_strlit("end_time");
        reveal_strlit("end_time = ");
        assert("end_time = "@ =~= "end_time"@ + seq![' ', '=', ' ']);
        assert(sets.contains(("end_time"@, SqlValueView::DateTime(c))) || wheres.contains(("end_time"@, SqlValueView::DateTime(c))));
        lemma_update_binds_member(t, sets, wheres, "end_time"@, "end_time = "@, SqlValueView::DateTime(c));
    }
    if let Some(c) = u.focus_type {
        reveal_strlit("focus_type");
        reveal_strlit("focus_type = ");
        assert("focus_type = "@ =~= "focus_type"@ + seq![' ', '=', ' ']);
        assert(sets.contains(("focus_type"@, SqlValueView::Text(c@))) || wheres.contains(("focus_type"@, SqlValueView::Text(c@))));
        lemma_update_binds_member(t, sets, wheres, "focus_type"@, "focus_type = "@, SqlValueView::Text(c@));
    }
    if let Some(c) = u.distraction_events {
        reveal_strlit("distraction_events");
        reveal_strlit("distraction_events = ");
        assert("distraction_events = "@ =~= "distraction_events"@ + seq![' ', '=', ' ']);
        assert(sets.contains(("distraction_events"@, SqlValueView::Text(json_of_strings(c.deep_view())))) || wheres.contains(("distraction_events"@, SqlValueView::Text(json_of_strings(c.deep_view())))));
        lemma_update_binds_member(t, sets, wheres, "distraction_events"@, "distraction_events = "@, SqlValueView::Text(json_of_strings(c.deep_view())));
    }
    {
        reveal_strlit("id");
        reveal_strlit("id = ");
        assert("id = "@ =~= "id"@ + seq![' ', '=', ' ']);
        assert(sets.contains(("id"@, SqlValueView::Text(session_id))) || wheres.contains(("id"@, SqlValueView::Text(session_id))));
        lemma_update_binds_member(t, sets, wheres, "id"@, "id = "@, SqlValueView::Text(session_id));
    }
    {
        reveal_strlit("uid");
        reveal_strlit("uid = ");
        assert("uid = "@ =~= "uid"@ + seq![' ', '=', ' ']);
        assert(sets.contains(("uid"@, SqlValueView::Text(uid))) || wheres.contains(("uid"@, SqlValueView::Text(uid))));
        lemma_update_binds_member(t, sets, wheres, "uid"@, "uid = "@, SqlValueView::Text(uid));
    }
}

/// Builds the update of a focus session. No statement is built when no field
/// is present.
pub fn update_focus_session(uid: &str, session_id: &str, u: FocusSessionUpdate) -> (r: Option<Statement>)
    ensures
        focus_session_update_sets(u).len() == 0 ==> r is None,
        focus_session_update_sets(u).len() > 0 ==> (r matches Some(st) && st@ == update_statement("focus_sessions"@, focus_session_update_sets(u), id_and_uid(session_id@, uid@))),
        r matches Some(st) ==> focus_session_update_binds(st@, uid@, session_id@, u),
        (u.end_time is Some || u.focus_type is Some || u.distraction_events is Some) ==> r is Some,
{
    let ghost u0 = u;
    let events = match u.distraction_events {
        Some(e) => Some(SqlValue::Text(encode_strings(&e))),
        None => None,
    };
    let mut b = UpdateBuilder::new("focus_sessions");
    b.set_opt("end_time", opt_time_value(u.end_time));
    b.set_opt("focus_type", opt_text_value(u.focus_type));
    b.set_opt("distraction_events", events);
    assert(b.sets() =~= focus_session_update_sets(u0));
    if b.len() == 0 {
        return None;
    }
    b.where_id_uid(session_id, uid);
    proof {
        lemma_focus_session_update_binds(uid@, session_id@, u0);
    }
    Some(b.finish())
}

/// Deletes one focus session of a user.
pub fn delete_focus_session(uid: &str, session_id: &str) -> (st: Statement)
    ensures
        st@.sql == "DELETE FROM focus_sessions WHERE id = ?1 AND uid = ?2"@,
        st@.params == seq![SqlValueView::Text(session_id@), SqlValueView::Text(uid@)],
        binds_numbered(st@, "id = "@, SqlValueView::Text(session_id@)),
        binds_numbered(st@, "uid = "@, SqlValueView::Text(uid@)),
{
    let p = vec![text(session_id), text(uid)];
    assert(values_view(p@) =~= seq![SqlValueView::Text(session_id@), SqlValueView::Text(uid@)]);
    let st = statement("DELETE FROM focus_sessions WHERE id = ?1 AND uid = ?2", p);
    proof {
        reveal_strlit("DELETE FROM focus_sessions WHERE id = ?1 AND uid = ?2");
        reveal_strlit("DELETE FROM focus_sessions WHERE id = ");
        reveal_strlit(" AND uid = ");
        reveal_strlit("id = ");
        reveal_strlit("uid = ");
        let pieces = seq!["DELETE FROM focus_sessions WHERE id = "@, " AND uid = "@, Seq::<char>::empty()];
        reveal_with_fuel(numbered_join, 4);
        assert(decimal(1) =~= seq!['1']);
        assert(decimal(2) =~= seq!['2']);
        assert("DELETE FROM focus_sessions WHERE id = ?1 AND uid = ?2"@ =~= numbered_join(pieces, 1));
        assert(bare_pieces(pieces));
        assert(st@ == StatementView { sql: numbered_join(pieces, 1), params: st@.params });
        lemma_numbered_join_binds(pieces, st@.params, 0, "id = "@);
        lemma_numbered_join_binds(pieces, st@.params, 1, "uid = "@);
    }
    st
}

/// Counts a user's finished focus sessions and sums their whole minutes.
pub fn get_focus_stats(uid: &str) -> (st: Statement)
    ensures
        st@.sql == "SELECT COUNT(*), COALESCE(SUM(CAST((julianday(end_time) - julianday(start_time)) * 24 * 60 AS INTEGER)), 0) FROM focus_sessions WHERE uid = ?1 AND end_time IS NOT NULL"@,
        st@.params == seq![SqlValueView::Text(uid@)],
        binds_numbered(st@, "uid = "@, SqlValueView::Text(uid@)),
{
    let p = vec![text(uid)];
    assert(values_view(p@) =~= seq![SqlValueView::Text(uid@)]);
    let st = statement("SELECT COUNT(*), COALESCE(SUM(CAST((julianday(end_time) - julianday(start_time)) * 24 * 60 AS INTEGER)), 0) FROM focus_sessions WHERE uid = ?1 AND end_time IS NOT NULL", p);
    proof {
        reveal_strlit("SELECT COUNT(*), COALESCE(SUM(CAST((julianday(end_time) - julianday(start_time)) * 24 * 60 AS INTEGER)), 0) FROM focus_sessions WHERE uid = ?1 AND end_time IS NOT NULL");
        reveal_strlit("SELECT COUNT(*), COALESCE(SUM(CAST((julianday(end_time) - julianday(start_time)) * 24 * 60 AS INTEGER)), 0) FROM focus_sessions WHERE uid = ");
        reveal_strlit(" AND end_time IS NOT NULL");
        reveal_strlit("uid = ");
        let pieces = seq!["SELECT COUNT(*), COALESCE(SUM(CAST((julianday(end_time) - julianday(start_time)) * 24 * 60 AS INTEGER)), 0) FROM focus_sessions WHERE uid = "@, " AND end_time IS NOT NULL"@];
        reveal_with_fuel(numbered_join, 3);
        assert(decimal(1) =~= seq!['1']);
        assert("SELECT COUNT(*), COALESCE(SUM(CAST((julianday(end_time) - julianday(start_time)) * 24 * 60 AS INTEGER)), 0) FROM focus_sessions WHERE uid = ?1 AND end_time IS NOT NULL"@ =~= numbered_join(pieces, 1));
        assert(bare_pieces(pieces));
        assert(st@ == StatementView { sql: numbered_join(pieces, 1), params: st@.params });
        lemma_numbered_join_binds(pieces, st@.params, 0, "uid = "@);
    }
    st
}

} // verus!
