//! Statements of the LLM usage repository.
use vstd::prelude::*;
use vstd::string::*;

use crate::clock::{is_ulid_text, new_ulid, utc_now};
use crate::model::{LlmUsageInput, Timestamp};
use crate::binding::{bare_pieces, binds_numbered, insert_layout, insert_sql, inserts, lemma_inserts_numbered, lemma_numbered_join_binds, numbered_join, plain_items};
use crate::sql::{comma_list, 
    opt_real, real_or_null, statement, text, values_view, SqlValue, SqlValueView, Statement,
    StatementView,
};
use crate::text::{decimal, owned};

verus! {

/// The insert made by `record_usage` for a given identifier and time.
pub open spec fn record_usage_statement(id: Seq<char>, now: Timestamp, uid: &str, input: LlmUsageInput) -> StatementView {
    StatementView {
        sql: "INSERT INTO llm_usage (id, uid, model_id, input_tokens, output_tokens, total_tokens, cost_usd, created_at) VALUES (?1, ?2, ?3, ?4, ?5, ?6, ?7, ?8)"@,
        params: seq![SqlValueView::Text(id), SqlValueView::Text(uid@), SqlValueView::Text(input.model_id@), SqlValueView::Integer(input.input_tokens as i64), SqlValueView::Integer(input.output_tokens as i64), SqlValueView::Integer(input.total_tokens as i64), opt_real(input.cost_usd), SqlValueView::DateTime(now)],
    }
}

/// Builds the insert of one usage record.
#[verifier::rlimit(100)]
proof fn lemma_record_usage_at_columns(st: StatementView)
    requires
        st.sql == "INSERT INTO llm_usage (id, uid, model_id, input_tokens, output_tokens, total_tokens, cost_usd, created_at) VALUES (?1, ?2, ?3, ?4, ?5, ?6, ?7, ?8)"@,
        st.params.len() >= 8,
    ensures
        inserts(st, "id"@, st.params[0]),
        inserts(st, "uid"@, st.params[1]),
        inserts(st, "model_id"@, st.params[2]),
        inserts(st, "input_tokens"@, st.params[3]),
        inserts(st, "output_tokens"@, st.params[4]),
        inserts(st, "total_tokens"@, st.params[5]),
        inserts(st, "cost_usd"@, st.params[6]),
        inserts(st, "created_at"@, st.params[7]),
{
    reveal_strlit("INSERT INTO llm_usage (id, uid, model_id, input_tokens, output_tokens, total_tokens, cost_usd, created_at) VALUES (?1, ?2, ?3, ?4, ?5, ?6, ?7, ?8)");
    reveal_strlit("INSERT INTO ");
    reveal_strlit("llm_usage");
    reveal_strlit(" (");
    reveal_strlit(") VALUES (");
    reveal_strlit(")");
    reveal_strlit(", ");
    reveal_strlit("id");
    reveal_strlit("uid");
    reveal_strlit("model_id");
    reveal_strlit("input_tokens");
    reveal_strlit("output_tokens");
    reveal_strlit("total_tokens");
    reveal_strlit("cost_usd");
    reveal_strlit("created_at");
    reveal_strlit("?1");
    reveal_strlit("?2");
    reveal_strlit("?3");
    reveal_strlit("?4");
    reveal_strlit("?5");
    reveal_strlit("?6");
    reveal_strlit("?7");
    reveal_strlit("?8");
    let cols = seq!["id"@, "uid"@, "model_id"@, "input_tokens"@, "output_tokens"@, "total_tokens"@, "cost_usd"@, "created_at"@];
    let vals = seq!["?1"@, "?2"@, "?3"@, "?4"@, "?5"@, "?6"@, "?7"@, "?8"@];
    reveal_with_fuel(comma_list, 9);
    reveal_with_fuel(decimal, 3);
    assert("INSERT INTO llm_usage (id, uid, model_id, input_tokens, output_tokens, total_tokens, cost_usd, created_at) VALUES (?1, ?2, ?3, ?4, ?5, ?6, ?7, ?8)"@ =~= insert_sql("INSERT INTO "@, "llm_usage"@, cols, vals, Seq::<char>::empty()));
    assert(plain_items(cols));
    assert(plain_items(vals));
    assert(insert_layout(st, "INSERT INTO "@, "llm_usage"@, cols, vals, Seq::<char>::empty()));
    assert(vals[0] == seq!['?'] + decimal(1));
    lemma_inserts_numbered(st, "INSERT INTO "@, "llm_usage"@, cols, vals, Seq::<char>::empty(), 0, 1);
    assert(vals[1] == seq!['?'] + decimal(2));
    lemma_inserts_numbered(st, "INSERT INTO "@, "llm_usage"@, cols, vals, Seq::<char>::empty(), 1, 2);
    assert(vals[2] == seq!['?'] + decimal(3));
    lemma_inserts_numbered(st, "INSERT INTO "@, "llm_usage"@, cols, vals, Seq::<char>::empty(), 2, 3);
    assert(vals[3] == seq!['?'] + decimal(4));
    lemma_inserts_numbered(st, "INSERT INTO "@, "llm_usage"@, cols, vals, Seq::<char>::empty(), 3, 4);
    assert(vals[4] == seq!['?'] + decimal(5));
    lemma_inserts_numbered(st, "INSERT INTO "@, "llm_usage"@, cols, vals, Seq::<char>::empty(), 4, 5);
    assert(vals[5] == seq!['?'] + decimal(6));
    lemma_inserts_numbered(st, "INSERT INTO "@, "llm_usage"@, cols, vals, Seq::<char>::empty(), 5, 6);
    assert(vals[6] == seq!['?'] + decimal(7));
    lemma_inserts_numbered(st, "INSERT INTO "@, "llm_usage"@, cols, vals, Seq::<char>::empty(), 6, 7);
    assert(vals[7] == seq!['?'] + decimal(8));
    lemma_inserts_numbered(st, "INSERT INTO "@, "llm_usage"@, cols, vals, Seq::<char>::empty(), 7, 8);
}

pub fn record_usage_at(id: String, now: Timestamp, uid: &str, input: LlmUsageInput) -> (st: Statement)
    ensures
        st@ == record_usage_statement(id@, now, uid, input),
        inserts(st@, "id"@, SqlValueView::Text(id@)),
        inserts(st@, "uid"@, SqlValueView::Text(uid@)),
        inserts(st@, "model_id"@, SqlValueView::Text(input.model_id@)),
        inserts(st@, "input_tokens"@, SqlValueView::Integer(input.input_tokens as i64)),
        inserts(st@, "output_tokens"@, SqlValueView::Integer(input.output_tokens as i64)),
        inserts(st@, "total_tokens"@, SqlValueView::Integer(input.total_tokens as i64)),
        inserts(st@, "cost_usd"@, opt_real(input.cost_usd)),
        inserts(st@, "created_at"@, SqlValueView::DateTime(now)),
{
    let ghost id_view = id@;
    let ghost input0 = input;
    let p = vec![SqlValue::Text(id), text(uid), SqlValue::Text(input.model_id), SqlValue::Integer(input.input_tokens as i64), SqlValue::Integer(input.output_tokens as i64), SqlValue::Integer(input.total_tokens as i64), real_or_null(input.cost_usd), SqlValue::DateTime(now)];
    assert(values_view(p@) =~= record_usage_statement(id_view, now, uid, input0).params);
    let st = statement("INSERT INTO llm_usage (id, uid, model_id, input_tokens, output_tokens, total_tokens, cost_usd, created_at) VALUES (?1, ?2, ?3, ?4, ?5, ?6, ?7, ?8)", p);
    proof {
        lemma_record_usage_at_columns(st@);
    }
    st
}

/// Builds the insert of one usage record. Uses a fresh identifier and the current time; returns the identifier
/// with the statement.
pub fn record_usage(uid: &str, input: LlmUsageInput) -> (r: (String, Statement))
    ensures
        is_ulid_text(r.0@),
        exists|t: Timestamp| r.1@ == record_usage_statement(r.0@, t, uid, input),
{
    let id = new_ulid();
    let keep = owned(id.as_str());
    let st = record_usage_at(id, utc_now(), uid, input);
    (keep, st)
}

/// Counts a user's usage records between two instants (both included) and sums their tokens and costs.
pub fn get_usage_stats(uid: &str, start_date: Timestamp, end_date: Timestamp) -> (st: Statement)
    ensures
        st@.sql == "SELECT COUNT(*), COALESCE(SUM(input_tokens), 0), COALESCE(SUM(output_tokens), 0), COALESCE(SUM(total_tokens), 0), COALESCE(SUM(cost_usd), 0) FROM llm_usage WHERE uid = ?1 AND created_at >= ?2 AND created_at <= ?3"@,
        st@.params == seq![SqlValueView::Text(uid@), SqlValueView::DateTime(start_date), SqlValueView::DateTime(end_date)],
        binds_numbered(st@, "uid = "@, SqlValueView::Text(uid@)),
        binds_numbered(st@, "created_at >= "@, SqlValueView::DateTime(start_date)),
        binds_numbered(st@, "created_at <= "@, SqlValueView::DateTime(end_date)),
{
    let p = vec![text(uid), SqlValue::DateTime(start_date), SqlValue::DateTime(end_date)];
    assert(values_view(p@) =~= seq![SqlValueView::Text(uid@), SqlValueView::DateTime(start_date), SqlValueView::DateTime(end_date)]);
    let st = statement("SELECT COUNT(*), COALESCE(SUM(input_tokens), 0), COALESCE(SUM(output_tokens), 0), COALESCE(SUM(total_tokens), 0), COALESCE(SUM(cost_usd), 0) FROM llm_usage WHERE uid = ?1 AND created_at >= ?2 AND created_at <= ?3", p);
    proof {
        reveal_strlit("SELECT COUNT(*), COALESCE(SUM(input_tokens), 0), COALESCE(SUM(output_tokens), 0), COALESCE(SUM(total_tokens), 0), COALESCE(SUM(cost_usd), 0) FROM llm_usage WHERE uid = ?1 AND created_at >= ?2 AND created_at <= ?3");
        reveal_strlit("SELECT COUNT(*), COALESCE(SUM(input_tokens), 0), COALESCE(SUM(output_tokens), 0), COALESCE(SUM(total_tokens), 0), COALESCE(SUM(cost_usd), 0) FROM llm_usage WHERE uid = ");
        reveal_strlit(" AND created_at >= ");
        reveal_strlit(" AND created_at <= ");
        reveal_strlit("uid = ");
        reveal_strlit("created_at >= ");
        reveal_strlit("created_at <= ");
        let pieces = seq!["SELECT COUNT(*), COALESCE(SUM(input_tokens), 0), COALESCE(SUM(output_tokens), 0), COALESCE(SUM(total_tokens), 0), COALESCE(SUM(cost_usd), 0) FROM llm_usage WHERE uid = "@, " AND created_at >= "@, " AND created_at <= "@, Seq::<char>::empty()];
        reveal_with_fuel(numbered_join, 5);
        assert(decimal(1) =~= seq!['1']);
        assert(decimal(2) =~= seq!['2']);
        assert(decimal(3) =~= seq!['3']);
        assert("SELECT COUNT(*), COALESCE(SUM(input_tokens), 0), COALESCE(SUM(output_tokens), 0), COALESCE(SUM(total_tokens), 0), COALESCE(SUM(cost_usd), 0) FROM llm_usage WHERE uid = ?1 AND created_at >= ?2 AND created_at <= ?3"@ =~= numbered_join(pieces, 1));
        assert(bare_pieces(pieces));
        assert(st@ == StatementView { sql: numbered_join(pieces, 1), params: st@.params });
        lemma_numbered_join_binds(pieces, st@.params, 0, "uid = "@);
        lemma_numbered_join_binds(pieces, st@.params, 1, "created_at >= "@);
        lemma_numbered_join_binds(pieces, st@.params, 2, "created_at <= "@);
    }
    st
}

} // verus!
