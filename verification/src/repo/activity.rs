//! Statements of the screen activity repository.
use vstd::prelude::*;
use vstd::string::*;

use crate::clock::{is_ulid_text, new_ulid};
use crate::model::{ScreenActivityInput, Timestamp};
use crate::binding::{bare_pieces, binds_numbered, insert_layout, insert_sql, inserts, lemma_inserts_numbered, lemma_numbered_join_binds, numbered_join, plain_items};
use crate::sql::{comma_list, statement, text, values_view, SqlValue, SqlValueView, Statement, StatementView};
use crate::text::{decimal, owned};

verus! {

/// The insert made by `record_activity` for a given identifier.
pub open spec fn record_activity_statement(id: Seq<char>, uid: &str, input: ScreenActivityInput) -> StatementView {
    StatementView {
        sql: "INSERT INTO screen_activity (id, uid, window_title, app_name, duration_seconds, timestamp) VALUES (?1, ?2, ?3, ?4, ?5, ?6)"@,
        params: seq![SqlValueView::Text(id), SqlValueView::Text(uid@), SqlValueView::Text(input.window_title@), SqlValueView::Text(input.app_name@), SqlValueView::Integer(input.duration_seconds as i64), SqlValueView::DateTime(input.timestamp)],
    }
}

/// Builds the insert of one screen activity record.
#[verifier::rlimit(100)]
proof fn lemma_record_activity_at_columns(st: StatementView)
    requires
        st.sql == "INSERT INTO screen_activity (id, uid, window_title, app_name, duration_seconds, timestamp) VALUES (?1, ?2, ?3, ?4, ?5, ?6)"@,
        st.params.len() >= 6,
    ensures
        inserts(st, "id"@, st.params[0]),
        inserts(st, "uid"@, st.params[1]),
        inserts(st, "window_title"@, st.params[2]),
        inserts(st, "app_name"@, st.params[3]),
        inserts(st, "duration_seconds"@, st.params[4]),
        inserts(st, "timestamp"@, st.params[5]),
{
    reveal_strlit("INSERT INTO screen_activity (id, uid, window_title, app_name, duration_seconds, timestamp) VALUES (?1, ?2, ?3, ?4, ?5, ?6)");
    reveal_strlit("INSERT INTO ");
    reveal_strlit("screen_activity");
    reveal_strlit(" (");
    reveal_strlit(") VALUES (");
    reveal_strlit(")");
    reveal_strlit(", ");
    reveal_strlit("id");
    reveal_strlit("uid");
    reveal_strlit("window_title");
    reveal_strlit("app_name");
    reveal_strlit("duration_seconds");
    reveal_strlit("timestamp");
    reveal_strlit("?1");
    reveal_strlit("?2");
    reveal_strlit("?3");
    reveal_strlit("?4");
    reveal_strlit("?5");
    reveal_strlit("?6");
    let cols = seq!["id"@, "uid"@, "window_title"@, "app_name"@, "duration_seconds"@, "timestamp"@];
    let vals = seq!["?1"@, "?2"@, "?3"@, "?4"@, "?5"@, "?6"@];
    reveal_with_fuel(comma_list, 7);
    reveal_with_fuel(decimal, 3);
    assert("INSERT INTO screen_activity (id, uid, window_title, app_name, duration_seconds, timestamp) VALUES (?1, ?2, ?3, ?4, ?5, ?6)"@ =~= insert_sql("INSERT INTO "@, "screen_activity"@, cols, vals, Seq::<char>::empty()));
    assert(plain_items(cols));
    assert(plain_items(vals));
    assert(insert_layout(st, "INSERT INTO "@, "screen_activity"@, cols, vals, Seq::<char>::empty()));
    assert(vals[0] == seq!['?'] + decimal(1));
    lemma_inserts_numbered(st, "INSERT INTO "@, "screen_activity"@, cols, vals, Seq::<char>::empty(), 0, 1);
    assert(vals[1] == seq!['?'] + decimal(2));
    lemma_inserts_numbered(st, "INSERT INTO "@, "screen_activity"@, cols, vals, Seq::<char>::empty(), 1, 2);
    assert(vals[2] == seq!['?'] + decimal(3));
    lemma_inserts_numbered(st, "INSERT INTO "@, "screen_activity"@, cols, vals, Seq::<char>::empty(), 2, 3);
    assert(vals[3] == seq!['?'] + decimal(4));
    lemma_inserts_numbered(st, "INSERT INTO "@, "screen_activity"@, cols, vals, Seq::<char>::empty(), 3, 4);
    assert(vals[4] == seq!['?'] + decimal(5));
    lemma_inserts_numbered(st, "INSERT INTO "@, "screen_activity"@, cols, vals, Seq::<char>::empty(), 4, 5);
    assert(vals[5] == seq!['?'] + decimal(6));
    lemma_inserts_numbered(st, "INSERT INTO "@, "screen_activity"@, cols, vals, Seq::<char>::empty(), 5, 6);
}

pub fn record_activity_at(id: String, uid: &str, input: ScreenActivityInput) -> (st: Statement)
    ensures
        st@ == record_activity_statement(id@, uid, input),
        inserts(st@, "id"@, SqlValueView::Text(id@)),
        inserts(st@, "uid"@, SqlValueView::Text(uid@)),
        inserts(st@, "window_title"@, SqlValueView::Text(input.window_title@)),
        inserts(st@, "app_name"@, SqlValueView::Text(input.app_name@)),
        inserts(st@, "duration_seconds"@, SqlValueView::Integer(input.duration_seconds as i64)),
        inserts(st@, "timestamp"@, SqlValueView::DateTime(input.timestamp)),
{
    let ghost id_view = id@;
    let ghost input0 = input;
    let p = vec![SqlValue::Text(id), text(uid), SqlValue::Text(input.window_title), SqlValue::Text(input.app_name), SqlValue::Integer(input.duration_seconds as i64), SqlValue::DateTime(input.timestamp)];
    assert(values_view(p@) =~= record_activity_statement(id_view, uid, input0).params);
    let st = statement("INSERT INTO screen_activity (id, uid, window_title, app_name, duration_seconds, timestamp) VALUES (?1, ?2, ?3, ?4, ?5, ?6)", p);
    proof {
        lemma_record_activity_at_columns(st@);
    }
    st
}

/// Builds the insert of one screen activity record. Uses a fresh identifier; returns it with the statement.
pub fn record_activity(uid: &str, input: ScreenActivityInput) -> (r: (String, Statement))
    ensures
        is_ulid_text(r.0@),
        r.1@ == record_activity_statement(r.0@, uid, input),
{
    let id = new_ulid();
    let keep = owned(id.as_str());
    let st = record_activity_at(id, uid, input);
    (keep, st)
}

/// Lists a user's latest screen activity records, at most `limit` of them.
pub fn get_recent_activity(uid: &str, limit: usize) -> (st: Statement)
    ensures
        st@.sql == "SELECT id, uid, window_title, app_name, duration_seconds, timestamp FROM screen_activity WHERE uid = ?1 ORDER BY timestamp DESC LIMIT ?2"@,
        st@.params == seq![SqlValueView::Text(uid@), SqlValueView::Size(limit)],
        binds_numbered(st@, "uid = "@, SqlValueView::Text(uid@)),
        binds_numbered(st@, "LIMIT "@, SqlValueView::Size(limit)),
{
    let p = vec![text(uid), SqlValue::Size(limit)];
    assert(values_view(p@) =~= seq![SqlValueView::Text(uid@), SqlValueView::Size(limit)]);
    let st = statement("SELECT id, uid, window_title, app_name, duration_seconds, timestamp FROM screen_activity WHERE uid = ?1 ORDER BY timestamp DESC LIMIT ?2", p);
    proof {
        reveal_strlit("SELECT id, uid, window_title, app_name, duration_seconds, timestamp FROM screen_activity WHERE uid = ?1 ORDER BY timestamp DESC LIMIT ?2");
        reveal_strlit("SELECT id, uid, window_title, app_name, duration_seconds, timestamp FROM screen_activity WHERE uid = ");
        reveal_strlit(" ORDER BY timestamp DESC LIMIT ");
        reveal_strlit("uid = ");
        reveal_strlit("LIMIT ");
        let pieces = seq!["SELECT id, uid, window_title, app_name, duration_seconds, timestamp FROM screen_activity WHERE uid = "@, " ORDER BY timestamp DESC LIMIT "@, Seq::<char>::empty()];
        reveal_with_fuel(numbered_join, 4);
        assert(decimal(1) =~= seq!['1']);
        assert(decimal(2) =~= seq!['2']);
        assert("SELECT id, uid, window_title, app_name, duration_seconds, timestamp FROM screen_activity WHERE uid = ?1 ORDER BY timestamp DESC LIMIT ?2"@ =~= numbered_join(pieces, 1));
        assert(bare_pieces(pieces));
        assert(st@ == StatementView { sql: numbered_join(pieces, 1), params: st@.params });
        lemma_numbered_join_binds(pieces, st@.params, 0, "uid = "@);
        lemma_numbered_join_binds(pieces, st@.params, 1, "LIMIT "@);
    }
    st
}

/// Deletes a user's screen activity recorded before an instant.
pub fn delete_old_activity(uid: &str, before: Timestamp) -> (st: Statement)
    ensures
        st@.sql == "DELETE FROM screen_activity WHERE uid = ?1 AND timestamp < ?2"@,
        st@.params == seq![SqlValueView::Text(uid@), SqlValueView::DateTime(before)],
        binds_numbered(st@, "uid = "@, SqlValueView::Text(uid@)),
        binds_numbered(st@, "timestamp < "@, SqlValueView::DateTime(before)),
{
    let p = vec![text(uid), SqlValue::DateTime(before)];
    assert(values_view(p@) =~= seq![SqlValueView::Text(uid@), SqlValueView::DateTime(before)]);
    let st = statement("DELETE FROM screen_activity WHERE uid = ?1 AND timestamp < ?2", p);
    proof {
        reveal_strlit("DELETE FROM screen_activity WHERE uid = ?1 AND timestamp < ?2");
        reveal_strlit("DELETE FROM screen_activity WHERE uid = ");
        reveal_strlit(" AND timestamp < ");
        reveal_strlit("uid = ");
        reveal_strlit("timestamp < ");
        let pieces = seq!["DELETE FROM screen_activity WHERE uid = "@, " AND timestamp < "@, Seq::<char>::empty()];
        reveal_with_fuel(numbered_join, 4);
        assert(decimal(1) =~= seq!['1']);
        assert(decimal(2) =~= seq!['2']);
        assert("DELETE FROM screen_activity WHERE uid = ?1 AND timestamp < ?2"@ =~= numbered_join(pieces, 1));
        assert(bare_pieces(pieces));
        assert(st@ == StatementView { sql: numbered_join(pieces, 1), params: st@.params });
        lemma_numbered_join_binds(pieces, st@.params, 0, "uid = "@);
        lemma_numbered_join_binds(pieces, st@.params, 1, "timestamp < "@);
    }
    st
}

} // verus!
