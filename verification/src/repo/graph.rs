//! Statements of the knowledge graph repository.
use vstd::prelude::*;
use vstd::string::*;

use crate::clock::{is_ulid_text, new_ulid, utc_now};
use crate::model::{KgEdgeInput, KgNodeInput, KgNodeUpdate, RebuildGraphOutput, Timestamp};
use crate::binding::{bare_pieces, binds_numbered, insert_layout, insert_sql, inserts, lemma_inserts_numbered, lemma_numbered_join_binds, lemma_update_binds_member, numbered_join, plain_items};
use crate::sql::{comma_list, 
    opt_real_value, opt_set, opt_text, opt_text_value, real_view, statement, text,
    text_or_null, text_view, update_statement, values_view, Binding, SqlValue, SqlValueView,
    Statement, StatementView, UpdateBuilder,
};
use crate::text::{decimal, owned};

verus! {

/// The insert made by `create_node` for a given identifier and time.
pub open spec fn create_node_statement(id: Seq<char>, now: Timestamp, uid: &str, input: KgNodeInput) -> StatementView {
    StatementView {
        sql: "INSERT INTO kg_nodes (id, uid, entity_type, entity_id, content, confidence, source, created_at) VALUES (?1, ?2, ?3, ?4, ?5, ?6, ?7, ?8)"@,
        params: seq![SqlValueView::Text(id), SqlValueView::Text(uid@), SqlValueView::Text(input.entity_type@), SqlValueView::Text(input.entity_id@), SqlValueView::Text(input.content@), SqlValueView::Real(input.confidence), opt_text(input.source), SqlValueView::DateTime(now)],
    }
}

/// Builds the insert of a new graph node.
#[verifier::rlimit(100)]
proof fn lemma_create_node_at_columns(st: StatementView)
    requires
        st.sql == "INSERT INTO kg_nodes (id, uid, entity_type, entity_id, content, confidence, source, created_at) VALUES (?1, ?2, ?3, ?4, ?5, ?6, ?7, ?8)"@,
        st.params.len() >= 8,
    ensures
        inserts(st, "id"@, st.params[0]),
        inserts(st, "uid"@, st.params[1]),
        inserts(st, "entity_type"@, st.params[2]),
        inserts(st, "entity_id"@, st.params[3]),
        inserts(st, "content"@, st.params[4]),
        inserts(st, "confidence"@, st.params[5]),
        inserts(st, "source"@, st.params[6]),
        inserts(st, "created_at"@, st.params[7]),
{
    reveal_strlit("INSERT INTO kg_nodes (id, uid, entity_type, entity_id, content, confidence, source, created_at) VALUES (?1, ?2, ?3, ?4, ?5, ?6, ?7, ?8)");
    reveal_strlit("INSERT INTO ");
    reveal_strlit("kg_nodes");
    reveal_strlit(" (");
    reveal_strlit(") VALUES (");
    reveal_strlit(")");
    reveal_strlit(", ");
    reveal_strlit("id");
    reveal_strlit("uid");
    reveal_strlit("entity_type");
    reveal_strlit("entity_id");
    reveal_strlit("content");
    reveal_strlit("confidence");
    reveal_strlit("source");
    reveal_strlit("created_at");
    reveal_strlit("?1");
    reveal_strlit("?2");
    reveal_strlit("?3");
    reveal_strlit("?4");
    reveal_strlit("?5");
    reveal_strlit("?6");
    reveal_strlit("?7");
    reveal_strlit("?8");
    let cols = seq!["id"@, "uid"@, "entity_type"@, "entity_id"@, "content"@, "confidence"@, "source"@, "created_at"@];
    let vals = seq!["?1"@, "?2"@, "?3"@, "?4"@, "?5"@, "?6"@, "?7"@, "?8"@];
    reveal_with_fuel(comma_list, 9);
    reveal_with_fuel(decimal, 3);
    assert("INSERT INTO kg_nodes (id, uid, entity_type, entity_id, content, confidence, source, created_at) VALUES (?1, ?2, ?3, ?4, ?5, ?6, ?7, ?8)"@ =~= insert_sql("INSERT INTO "@, "kg_nodes"@, cols, vals, Seq::<char>::empty()));
    assert(plain_items(cols));
    assert(plain_items(vals));
    assert(insert_layout(st, "INSERT INTO "@, "kg_nodes"@, cols, vals, Seq::<char>::empty()));
    assert(vals[0] == seq!['?'] + decimal(1));
    lemma_inserts_numbered(st, "INSERT INTO "@, "kg_nodes"@, cols, vals, Seq::<char>::empty(), 0, 1);
    assert(vals[1] == seq!['?'] + decimal(2));
    lemma_inserts_numbered(st, "INSERT INTO "@, "kg_nodes"@, cols, vals, Seq::<char>::empty(), 1, 2);
    assert(vals[2] == seq!['?'] + decimal(3));
    lemma_inserts_numbered(st, "INSERT INTO "@, "kg_nodes"@, cols, vals, Seq::<char>::empty(), 2, 3);
    assert(vals[3] == seq!['?'] + decimal(4));
    lemma_inserts_numbered(st, "INSERT INTO "@, "kg_nodes"@, cols, vals, Seq::<char>::empty(), 3, 4);
    assert(vals[4] == seq!['?'] + decimal(5));
    lemma_inserts_numbered(st, "INSERT INTO "@, "kg_nodes"@, cols, vals, Seq::<char>::empty(), 4, 5);
    assert(vals[5] == seq!['?'] + decimal(6));
    lemma_inserts_numbered(st, "INSERT INTO "@, "kg_nodes"@, cols, vals, Seq::<char>::empty(), 5, 6);
    assert(vals[6] == seq!['?'] + decimal(7));
    lemma_inserts_numbered(st, "INSERT INTO "@, "kg_nodes"@, cols, vals, Seq::<char>::empty(), 6, 7);
    assert(vals[7] == seq!['?'] + decimal(8));
    lemma_inserts_numbered(st, "INSERT INTO "@, "kg_nodes"@, cols, vals, Seq::<char>::empty(), 7, 8);
}

pub fn create_node_at(id: String, now: Timestamp, uid: &str, input: KgNodeInput) -> (st: Statement)
    ensures
        st@ == create_node_statement(id@, now, uid, input),
        inserts(st@, "id"@, SqlValueView::Text(id@)),
        inserts(st@, "uid"@, SqlValueView::Text(uid@)),
        inserts(st@, "entity_type"@, SqlValueView::Text(input.entity_type@)),
        inserts(st@, "entity_id"@, SqlValueView::Text(input.entity_id@)),
        inserts(st@, "content"@, SqlValueView::Text(input.content@)),
        inserts(st@, "confidence"@, SqlValueView::Real(input.confidence)),
        inserts(st@, "source"@, opt_text(input.source)),
        inserts(st@, "created_at"@, SqlValueView::DateTime(now)),
{
    let ghost id_view = id@;
    let ghost input0 = input;
    let p = vec![SqlValue::Text(id), text(uid), SqlValue::Text(input.entity_type), SqlValue::Text(input.entity_id), SqlValue::Text(input.content), SqlValue::Real(input.confidence), text_or_null(input.source), SqlValue::DateTime(now)];
    assert(values_view(p@) =~= create_node_statement(id_view, now, uid, input0).params);
    let st = statement("INSERT INTO kg_nodes (id, uid, entity_type, entity_id, content, confidence, source, created_at) VALUES (?1, ?2, ?3, ?4, ?5, ?6, ?7, ?8)", p);
    proof {
        lemma_create_node_at_columns(st@);
    }
    st
}

/// Builds the insert of a new graph node. Uses a fresh identifier and the current time; returns the identifier
/// with the statement.
pub fn create_node(uid: &str, input: KgNodeInput) -> (r: (String, Statement))
    ensures
        is_ulid_text(r.0@),
        exists|t: Timestamp| r.1@ == create_node_statement(r.0@, t, uid, input),
{
    let id = new_ulid();
    let keep = owned(id.as_str());
    let st = create_node_at(id, utc_now(), uid, input);
    (keep, st)
}

/// Selects one graph node of a user.
pub fn get_node(uid: &str, node_id: &str) -> (st: Statement)
    ensures
        st@.sql == "SELECT id, uid, entity_type, entity_id, content, confidence, source, created_at FROM kg_nodes WHERE id = ?1 AND uid = ?2"@,
        st@.params == seq![SqlValueView::Text(node_id@), SqlValueView::Text(uid@)],
        binds_numbered(st@, "id = "@, SqlValueView::Text(node_id@)),
        binds_numbered(st@, "uid = "@, SqlValueView::Text(uid@)),
{
    let p = vec![text(node_id), text(uid)];
    assert(values_view(p@) =~= seq![SqlValueView::Text(node_id@), SqlValueView::Text(uid@)]);
    let st = statement("SELECT id, uid, entity_type, entity_id, content, confidence, source, created_at FROM kg_nodes WHERE id = ?1 AND uid = ?2", p);
    proof {
        reveal_strlit("SELECT id, uid, entity_type, entity_id, content, confidence, source, created_at FROM kg_nodes WHERE id = ?1 AND uid = ?2");
        reveal_strlit("SELECT id, uid, entity_type, entity_id, content, confidence, source, created_at FROM kg_nodes WHERE id = ");
        reveal_strlit(" AND uid = ");
        reveal_strlit("id = ");
        reveal_strlit("uid = ");
        let pieces = seq!["SELECT id, uid, entity_type, entity_id, content, confidence, source, created_at FROM kg_nodes WHERE id = "@, " AND uid = "@, Seq::<char>::empty()];
        reveal_with_fuel(numbered_join, 4);
        assert(decimal(1) =~= seq!['1']);
        assert(decimal(2) =~= seq!['2']);
        assert("SELECT id, uid, entity_type, entity_id, content, confidence, source, created_at FROM kg_nodes WHERE id = ?1 AND uid = ?2"@ =~= numbered_join(pieces, 1));
        assert(bare_pieces(pieces));
        assert(st@ == StatementView { sql: numbered_join(pieces, 1), params: st@.params });
        lemma_numbered_join_binds(pieces, st@.params, 0, "id = "@);
        lemma_numbered_join_binds(pieces, st@.params, 1, "uid = "@);
    }
    st
}

/// Lists a user's graph nodes, newest first, restricted to one entity type
/// when one is given.
pub fn list_nodes(uid: &str, node_type: Option<String>) -> (st: Statement)
    ensures
        node_type is None ==> st@.sql == "SELECT id, uid, entity_type, entity_id, content, confidence, source, created_at FROM kg_nodes WHERE uid = ?1 ORDER BY created_at DESC"@,
        node_type is None ==> st@.params == seq![SqlValueView::Text(uid@)],
        node_type matches Some(t) ==> st@.sql == "SELECT id, uid, entity_type, entity_id, content, confidence, source, created_at FROM kg_nodes WHERE uid = ?1 AND entity_type = ?2 ORDER BY created_at DESC"@,
        node_type matches Some(t) ==> st@.params == seq![SqlValueView::Text(uid@), SqlValueView::Text(t@)],
{
    match node_type {
        Some(t) => {
            let ghost tv = t@;
            let p = vec![text(uid), SqlValue::Text(t)];
            assert(values_view(p@) =~= seq![SqlValueView::Text(uid@), SqlValueView::Text(tv)]);
            statement("SELECT id, uid, entity_type, entity_id, content, confidence, source, created_at FROM kg_nodes WHERE uid = ?1 AND entity_type = ?2 ORDER BY created_at DESC", p)
        },
        None => {
            let p = vec![text(uid)];
            assert(values_view(p@) =~= seq![SqlValueView::Text(uid@)]);
            statement("SELECT id, uid, entity_type, entity_id, content, confidence, source, created_at FROM kg_nodes WHERE uid = ?1 ORDER BY created_at DESC", p)
        },
    }
}

/// The assignments of `update_node`: each field that is present.
pub open spec fn node_update_sets(u: KgNodeUpdate) -> Seq<Binding> {
    opt_set("content"@, text_view(u.content)) + opt_set("confidence"@, real_view(u.confidence))
}

/// What a graph-node update binds: each given field to its column, and the node and its user to the `id` and `uid` conditions.
pub open spec fn node_update_binds(st: StatementView, uid: Seq<char>, node_id: Seq<char>, u: KgNodeUpdate) -> bool {
    &&& (u.content matches Some(c) ==> binds_numbered(st, "content = "@, SqlValueView::Text(c@)))
    &&& (u.confidence matches Some(c) ==> binds_numbered(st, "confidence = "@, SqlValueView::Real(c)))
    &&& binds_numbered(st, "id = "@, SqlValueView::Text(node_id))
    &&& binds_numbered(st, "uid = "@, SqlValueView::Text(uid))
}

/// Law: the update binds every given field to its column and the row to its
/// conditions.
pub proof fn lemma_node_update_binds(uid: Seq<char>, node_id: Seq<char>, u: KgNodeUpdate)
    ensures
        node_update_binds(update_statement("kg_nodes"@, node_update_sets(u), seq![("id"@, SqlValueView::Text(node_id)), ("uid"@, SqlValueView::Text(uid))]), uid, node_id, u),
        (u.content is Some || u.confidence is Some) ==> node_update_sets(u).len() > 0,
{
    broadcast use vstd::seq_lib::lemma_seq_concat_contains_all_elements, vstd::seq_lib::lemma_seq_contains_after_push;
    let t = "kg_nodes"@;
    let sets = node_update_sets(u);
    let wheres = seq![("id"@, SqlValueView::Text(node_id)), ("uid"@, SqlValueView::Text(uid))];
    if let Some(c) = u.content {
        reveal_strlit("content");
        reveal_strlit("content = ");
        assert("content = "@ =~= "content"@ + seq![' ', '=', ' ']);
        assert(sets.contains(("content"@, SqlValueView::Text(c@))) || wheres.contains(("content"@, SqlValueView::Text(c@))));
        lemma_update_binds_member(t, sets, wheres, "content"@, "content = "@, SqlValueView::Text(c@));
    }
    if let Some(c) = u.confidence {
        reveal_strlit("confidence");
        reveal_strlit("confidence = ");
        assert("confidence = "@ =~= "confidence"@ + seq![' ', '=', ' ']);
        assert(sets.contains(("confidence"@, SqlValueView::Real(c))) || wheres.contains(("confidence"@, SqlValueView::Real(c))));
        lemma_update_binds_member(t, sets, wheres, "confidence"@, "confidence = "@, SqlValueView::Real(c));
    }
    {
        reveal_strlit("id");
        reveal_strlit("id = ");
        assert("id = "@ =~= "id"@ + seq![' ', '=', ' ']);
        assert(sets.contains(("id"@, SqlValueView::Text(node_id))) || wheres.contains(("id"@, SqlValueView::Text(node_id))));
        lemma_update_binds_member(t, sets, wheres, "id"@, "id = "@, SqlValueView::Text(node_id));
    }
    {
        reveal_strlit("uid");
        reveal_strlit("uid = ");
        assert("uid = "@ =~= "uid"@ + seq![' ', '=', ' ']);
        assert(sets.contains(("uid"@, SqlValueView::Text(uid))) || wheres.contains(("uid"@, SqlValueView::Text(uid))));
        lemma_update_binds_member(t, sets, wheres, "uid"@, "uid = "@, SqlValueView::Text(uid));
    }
}

/// Builds the update of a graph node. Nothing is to be done, and no statement is built, when no field is
/// present.
pub fn update_node(uid: &str, node_id: &str, u: KgNodeUpdate) -> (r: Option<Statement>)
    ensures
        node_update_sets(u).len() == 0 ==> r is None,
        node_update_sets(u).len() > 0 ==> (r matches Some(st) && st@ == update_statement("kg_nodes"@, node_update_sets(u), seq![("id"@, SqlValueView::Text(node_id@)), ("uid"@, SqlValueView::Text(uid@))])),
        r matches Some(st) ==> node_update_binds(st@, uid@, node_id@, u),
        (u.content is Some || u.confidence is Some) ==> r is Some,
{
    let ghost u0 = u;
    let mut b = UpdateBuilder::new("kg_nodes");
    b.set_opt("content", opt_text_value(u.content));
    b.set_opt("confidence", opt_real_value(u.confidence));
    assert(b.sets() =~= node_update_sets(u0));
    if b.len() == 0 {
        return None;
    }
    b.where_eq("id", text(node_id));
    b.where_eq("uid", text(uid));
    assert(b.wheres() =~= seq![("id"@, SqlValueView::Text(node_id@)), ("uid"@, SqlValueView::Text(uid@))]);
    proof {
        lemma_node_update_binds(uid@, node_id@, u0);
    }
    Some(b.finish())
}

/// Deletes every edge that starts or ends at a node; run before the node itself is deleted.
pub fn delete_node_edges(node_id: &str) -> (st: Statement)
    ensures
        st@.sql == "DELETE FROM kg_edges WHERE source_node_id = ?1 OR target_node_id = ?1"@,
        st@.params == seq![SqlValueView::Text(node_id@)],
{
    let p = vec![text(node_id)];
    assert(values_view(p@) =~= seq![SqlValueView::Text(node_id@)]);
    statement("DELETE FROM kg_edges WHERE source_node_id = ?1 OR target_node_id = ?1", p)
}

/// Removes the node row itself, once its edges are gone.
fn delete_node_row(uid: &str, node_id: &str) -> (st: Statement)
    ensures
        st@.sql == "DELETE FROM kg_nodes WHERE id = ?1 AND uid = ?2"@,
        st@.params == seq![SqlValueView::Text(node_id@), SqlValueView::Text(uid@)],
{
    let p = vec![text(node_id), text(uid)];
    assert(values_view(p@) =~= seq![SqlValueView::Text(node_id@), SqlValueView::Text(uid@)]);
    statement("DELETE FROM kg_nodes WHERE id = ?1 AND uid = ?2", p)
}

/// Deletes one graph node of a user: the statements to run in order, the
/// edges that touch the node first, then the node.
pub fn delete_node(uid: &str, node_id: &str) -> (sts: Vec<Statement>)
    ensures
        sts@.len() == 2,
        sts@[0]@.sql == "DELETE FROM kg_edges WHERE source_node_id = ?1 OR target_node_id = ?1"@,
        sts@[0]@.params == seq![SqlValueView::Text(node_id@)],
        sts@[1]@.sql == "DELETE FROM kg_nodes WHERE id = ?1 AND uid = ?2"@,
        sts@[1]@.params == seq![SqlValueView::Text(node_id@), SqlValueView::Text(uid@)],
{
    let edges = delete_node_edges(node_id);
    let node = delete_node_row(uid, node_id);
    vec![edges, node]
}

/// The insert made by `create_edge` for a given identifier and time.
pub open spec fn create_edge_statement(id: Seq<char>, now: Timestamp, uid: &str, input: KgEdgeInput) -> StatementView {
    StatementView {
        sql: "INSERT INTO kg_edges (id, uid, source_node_id, target_node_id, relationship, confidence, created_at) VALUES (?1, ?2, ?3, ?4, ?5, ?6, ?7)"@,
        params: seq![SqlValueView::Text(id), SqlValueView::Text(uid@), SqlValueView::Text(input.source_node_id@), SqlValueView::Text(input.target_node_id@), SqlValueView::Text(input.relationship@), SqlValueView::Real(input.confidence), SqlValueView::DateTime(now)],
    }
}

/// Builds the insert of a new graph edge.
#[verifier::rlimit(100)]
proof fn lemma_create_edge_at_columns(st: StatementView)
    requires
        st.sql == "INSERT INTO kg_edges (id, uid, source_node_id, target_node_id, relationship, confidence, created_at) VALUES (?1, ?2, ?3, ?4, ?5, ?6, ?7)"@,
        st.params.len() >= 7,
    ensures
        inserts(st, "id"@, st.params[0]),
        inserts(st, "uid"@, st.params[1]),
        inserts(st, "source_node_id"@, st.params[2]),
        inserts(st, "target_node_id"@, st.params[3]),
        inserts(st, "relationship"@, st.params[4]),
        inserts(st, "confidence"@, st.params[5]),
        inserts(st, "created_at"@, st.params[6]),
{
    reveal_strlit("INSERT INTO kg_edges (id, uid, source_node_id, target_node_id, relationship, confidence, created_at) VALUES (?1, ?2, ?3, ?4, ?5, ?6, ?7)");
    reveal_strlit("INSERT INTO ");
    reveal_strlit("kg_edges");
    reveal_strlit(" (");
    reveal_strlit(") VALUES (");
    reveal_strlit(")");
    reveal_strlit(", ");
    reveal_strlit("id");
    reveal_strlit("uid");
    reveal_strlit("source_node_id");
    reveal_strlit("target_node_id");
    reveal_strlit("relationship");
    reveal_strlit("confidence");
    reveal_strlit("created_at");
    reveal_strlit("?1");
    reveal_strlit("?2");
    reveal_strlit("?3");
    reveal_strlit("?4");
    reveal_strlit("?5");
    reveal_strlit("?6");
    reveal_strlit("?7");
    let cols = seq!["id"@, "uid"@, "source_node_id"@, "target_node_id"@, "relationship"@, "confidence"@, "created_at"@];
    let vals = seq!["?1"@, "?2"@, "?3"@, "?4"@, "?5"@, "?6"@, "?7"@];
    reveal_with_fuel(comma_list, 8);
    reveal_with_fuel(decimal, 3);
    assert("INSERT INTO kg_edges (id, uid, source_node_id, target_node_id, relationship, confidence, created_at) VALUES (?1, ?2, ?3, ?4, ?5, ?6, ?7)"@ =~= insert_sql("INSERT INTO "@, "kg_edges"@, cols, vals, Seq::<char>::empty()));
    assert(plain_items(cols));
    assert(plain_items(vals));
    assert(insert_layout(st, "INSERT INTO "@, "kg_edges"@, cols, vals, Seq::<char>::empty()));
    assert(vals[0] == seq!['?'] + decimal(1));
    lemma_inserts_numbered(st, "INSERT INTO "@, "kg_edges"@, cols, vals, Seq::<char>::empty(), 0, 1);
    assert(vals[1] == seq!['?'] + decimal(2));
    lemma_inserts_numbered(st, "INSERT INTO "@, "kg_edges"@, cols, vals, Seq::<char>::empty(), 1, 2);
    assert(vals[2] == seq!['?'] + decimal(3));
    lemma_inserts_numbered(st, "INSERT INTO "@, "kg_edges"@, cols, vals, Seq::<char>::empty(), 2, 3);
    assert(vals[3] == seq!['?'] + decimal(4));
    lemma_inserts_numbered(st, "INSERT INTO "@, "kg_edges"@, cols, vals, Seq::<char>::empty(), 3, 4);
    assert(vals[4] == seq!['?'] + decimal(5));
    lemma_inserts_numbered(st, "INSERT INTO "@, "kg_edges"@, cols, vals, Seq::<char>::empty(), 4, 5);
    assert(vals[5] == seq!['?'] + decimal(6));
    lemma_inserts_numbered(st, "INSERT INTO "@, "kg_edges"@, cols, vals, Seq::<char>::empty(), 5, 6);
    assert(vals[6] == seq!['?'] + decimal(7));
    lemma_inserts_numbered(st, "INSERT INTO "@, "kg_edges"@, cols, vals, Seq::<char>::empty(), 6, 7);
}

pub fn create_edge_at(id: String, now: Timestamp, uid: &str, input: KgEdgeInput) -> (st: Statement)
    ensures
        st@ == create_edge_statement(id@, now, uid, input),
        inserts(st@, "id"@, SqlValueView::Text(id@)),
        inserts(st@, "uid"@, SqlValueView::Text(uid@)),
        inserts(st@, "source_node_id"@, SqlValueView::Text(input.source_node_id@)),
        inserts(st@, "target_node_id"@, SqlValueView::Text(input.target_node_id@)),
        inserts(st@, "relationship"@, SqlValueView::Text(input.relationship@)),
        inserts(st@, "confidence"@, SqlValueView::Real(input.confidence)),
        inserts(st@, "created_at"@, SqlValueView::DateTime(now)),
{
    let ghost id_view = id@;
    let ghost input0 = input;
    let p = vec![SqlValue::Text(id), text(uid), SqlValue::Text(input.source_node_id), SqlValue::Text(input.target_node_id), SqlValue::Text(input.relationship), SqlValue::Real(input.confidence), SqlValue::DateTime(now)];
    assert(values_view(p@) =~= create_edge_statement(id_view, now, uid, input0).params);
    let st = statement("INSERT INTO kg_edges (id, uid, source_node_id, target_node_id, relationship, confidence, created_at) VALUES (?1, ?2, ?3, ?4, ?5, ?6, ?7)", p);
    proof {
        lemma_create_edge_at_columns(st@);
    }
    st
}

/// Builds the insert of a new graph edge. Uses a fresh identifier and the current time; returns the identifier
/// with the statement.
pub fn create_edge(uid: &str, input: KgEdgeInput) -> (r: (String, Statement))
    ensures
        is_ulid_text(r.0@),
        exists|t: Timestamp| r.1@ == create_edge_statement(r.0@, t, uid, input),
{
    let id = new_ulid();
    let keep = owned(id.as_str());
    let st = create_edge_at(id, utc_now(), uid, input);
    (keep, st)
}

/// Lists a user's graph edges, newest first, restricted to the edges touching
/// one node when one is given.
pub fn list_edges(uid: &str, node_id: Option<String>) -> (st: Statement)
    ensures
        node_id is None ==> st@.sql == "SELECT id, uid, source_node_id, target_node_id, relationship, confidence, created_at FROM kg_edges WHERE uid = ?1 ORDER BY created_at DESC"@,
        node_id is None ==> st@.params == seq![SqlValueView::Text(uid@)],
        node_id matches Some(n) ==> st@.sql == "SELECT id, uid, source_node_id, target_node_id, relationship, confidence, created_at FROM kg_edges WHERE uid = ?1 AND (source_node_id = ?2 OR target_node_id = ?2) ORDER BY created_at DESC"@,
        node_id matches Some(n) ==> st@.params == seq![SqlValueView::Text(uid@), SqlValueView::Text(n@)],
{
    match node_id {
        Some(n) => {
            let ghost nv = n@;
            let p = vec![text(uid), SqlValue::Text(n)];
            assert(values_view(p@) =~= seq![SqlValueView::Text(uid@), SqlValueView::Text(nv)]);
            statement("SELECT id, uid, source_node_id, target_node_id, relationship, confidence, created_at FROM kg_edges WHERE uid = ?1 AND (source_node_id = ?2 OR target_node_id = ?2) ORDER BY created_at DESC", p)
        },
        None => {
            let p = vec![text(uid)];
            assert(values_view(p@) =~= seq![SqlValueView::Text(uid@)]);
            statement("SELECT id, uid, source_node_id, target_node_id, relationship, confidence, created_at FROM kg_edges WHERE uid = ?1 ORDER BY created_at DESC", p)
        },
    }
}

/// Deletes one graph edge of a user.
pub fn delete_edge(uid: &str, edge_id: &str) -> (st: Statement)
    ensures
        st@.sql == "DELETE FROM kg_edges WHERE id = ?1 AND uid = ?2"@,
        st@.params == seq![SqlValueView::Text(edge_id@), SqlValueView::Text(uid@)],
        binds_numbered(st@, "id = "@, SqlValueView::Text(edge_id@)),
        binds_numbered(st@, "uid = "@, SqlValueView::Text(uid@)),
{
    let p = vec![text(edge_id), text(uid)];
    assert(values_view(p@) =~= seq![SqlValueView::Text(edge_id@), SqlValueView::Text(uid@)]);
    let st = statement("DELETE FROM kg_edges WHERE id = ?1 AND uid = ?2", p);
    proof {
        reveal_strlit("DELETE FROM kg_edges WHERE id = ?1 AND uid = ?2");
        reveal_strlit("DELETE FROM kg_edges WHERE id = ");
        reveal_strlit(" AND uid = ");
        reveal_strlit("id = ");
        reveal_strlit("uid = ");
        let pieces = seq!["DELETE FROM kg_edges WHERE id = "@, " AND uid = "@, Seq::<char>::empty()];
        reveal_with_fuel(numbered_join, 4);
        assert(decimal(1) =~= seq!['1']);
        assert(decimal(2) =~= seq!['2']);
        assert("DELETE FROM kg_edges WHERE id = ?1 AND uid = ?2"@ =~= numbered_join(pieces, 1));
        assert(bare_pieces(pieces));
        assert(st@ == StatementView { sql: numbered_join(pieces, 1), params: st@.params });
        lemma_numbered_join_binds(pieces, st@.params, 0, "id = "@);
        lemma_numbered_join_binds(pieces, st@.params, 1, "uid = "@);
    }
    st
}

/// The outcome of rebuilding a user's graph: rebuilding extracts nothing yet,
/// so no node and no edge is created.
pub fn rebuild_graph(uid: &str) -> (r: RebuildGraphOutput)
    ensures
        r.nodes_created == 0,
        r.edges_created == 0,
{
    RebuildGraphOutput { nodes_created: 0, edges_created: 0 }
}

} // verus!
