//! Statements of the memory repository.
use vstd::prelude::*;
use vstd::string::*;

use crate::clock::{is_ulid_text, new_ulid, utc_now};
use crate::json::{encode_strings, json_of_strings};
use crate::migrations::{create_table_sql, migration_v1_sql, v1_tables};
use crate::model::{MemoryInput, MemoryUpdate, Pagination, QueryFilter, Timestamp};
use crate::binding::{bare_pieces, binds_numbered, insert_layout, insert_sql, inserts, lemma_inserts_numbered, lemma_numbered_binds_at, lemma_numbered_join_binds, lemma_update_binds_member, numbered_join, plain_items};
use crate::sql::{
    comma_list, declares_column, lemma_declares_column_at, numbered,
    bool_view, id_and_uid, opt_bool_value, opt_real, opt_set, opt_text, opt_text_value,
    real_or_null, statement, text, text_or_null, text_view, update_statement, values_view,
    Binding, SqlValue, SqlValueView, Statement, StatementView, UpdateBuilder,
};
use crate::text::{
    decimal, lemma_decimal_no_question, lemma_placeholder_after, lemma_placeholders_concat,
    lemma_placeholders_none, owned, placeholders, push_decimal,
};

verus! {

/// The category a memory is created with: the given one, else `manual`.
pub open spec fn memory_category(category: Option<String>) -> Seq<char> {
    match category {
        Some(c) => c@,
        None => "manual"@,
    }
}

/// The columns a new memory is inserted with, in the order of the insert's
/// parameters.
pub open spec fn memory_insert_columns() -> Seq<Seq<char>> {
    seq![
        "id"@, "uid"@, "content"@, "category"@, "created_at"@, "updated_at"@, "visibility"@,
        "manually_added"@, "tags"@, "reasoning"@, "current_activity"@, "window_title"@,
        "source_app"@, "context_summary"@, "confidence"@,
    ]
}

/// The text of the memory insert: the columns of `memory_insert_columns`,
/// bound to `?1` .. `?15`.
pub open spec fn memory_insert_sql() -> Seq<char> {
    "INSERT INTO memories ("@ + comma_list(memory_insert_columns())
        + ") VALUES (?1, ?2, ?3, ?4, ?5, ?6, ?7, ?8, ?9, ?10, ?11, ?12, ?13, ?14, ?15)"@
}

proof fn lemma_memory_insert_text()
    ensures
        "INSERT INTO memories (id, uid, content, category, created_at, updated_at, visibility, manually_added, tags, reasoning, current_activity, window_title, source_app, context_summary, confidence) VALUES (?1, ?2, ?3, ?4, ?5, ?6, ?7, ?8, ?9, ?10, ?11, ?12, ?13, ?14, ?15)"@ == memory_insert_sql(),
{
    reveal_strlit("INSERT INTO memories (id, uid, content, category, created_at, updated_at, visibility, manually_added, tags, reasoning, current_activity, window_title, source_app, context_summary, confidence) VALUES (?1, ?2, ?3, ?4, ?5, ?6, ?7, ?8, ?9, ?10, ?11, ?12, ?13, ?14, ?15)");
    reveal_strlit("INSERT INTO memories (");
    reveal_strlit(") VALUES (?1, ?2, ?3, ?4, ?5, ?6, ?7, ?8, ?9, ?10, ?11, ?12, ?13, ?14, ?15)");
    reveal_strlit(", ");
    reveal_strlit("id");
    reveal_strlit("uid");
    reveal_strlit("content");
    reveal_strlit("category");
    reveal_strlit("created_at");
    reveal_strlit("updated_at");
    reveal_strlit("visibility");
    reveal_strlit("manually_added");
    reveal_strlit("tags");
    reveal_strlit("reasoning");
    reveal_strlit("current_activity");
    reveal_strlit("window_title");
    reveal_strlit("source_app");
    reveal_strlit("context_summary");
    reveal_strlit("confidence");
    reveal_with_fuel(comma_list, 16);
    assert("INSERT INTO memories (id, uid, content, category, created_at, updated_at, visibility, manually_added, tags, reasoning, current_activity, window_title, source_app, context_summary, confidence) VALUES (?1, ?2, ?3, ?4, ?5, ?6, ?7, ?8, ?9, ?10, ?11, ?12, ?13, ?14, ?15)"@ =~= memory_insert_sql());
}

/// Law: every column the memory insert names is declared by the memories
/// table that the schema migration creates, so the insert names no column
/// the table lacks.
pub proof fn lemma_memory_insert_columns_declared()
    ensures
        migration_v1_sql()[1].subrange(0, 37) == "CREATE TABLE IF NOT EXISTS memories ("@,
        memory_insert_sql().subrange(0, 22) == "INSERT INTO memories ("@,
        forall|k: int|
            0 <= k < memory_insert_columns().len() ==> declares_column(
                migration_v1_sql()[1],
                #[trigger] memory_insert_columns()[k],
            ),
{
    let t = migration_v1_sql()[1];
    reveal_strlit("CREATE TABLE IF NOT EXISTS ");
    reveal_strlit("memories (id TEXT PRIMARY KEY, uid TEXT NOT NULL, content TEXT NOT NULL, category TEXT NOT NULL DEFAULT 'manual', created_at TEXT NOT NULL, updated_at TEXT NOT NULL, conversation_id TEXT, reviewed INTEGER NOT NULL DEFAULT 0, user_review INTEGER, visibility TEXT NOT NULL DEFAULT 'private', manually_added INTEGER NOT NULL DEFAULT 1, scoring TEXT, confidence REAL, source_app TEXT, context_summary TEXT, is_read INTEGER NOT NULL DEFAULT 0, is_dismissed INTEGER NOT NULL DEFAULT 0, tags TEXT NOT NULL DEFAULT '[]', reasoning TEXT, current_activity TEXT, window_title TEXT, FOREIGN KEY (uid) REFERENCES users(id))");
    reveal_strlit("CREATE TABLE IF NOT EXISTS memories (");
    reveal_strlit("INSERT INTO memories (");
    reveal_strlit(") VALUES (?1, ?2, ?3, ?4, ?5, ?6, ?7, ?8, ?9, ?10, ?11, ?12, ?13, ?14, ?15)");
    reveal_strlit("id");
    reveal_strlit("uid");
    reveal_strlit("content");
    reveal_strlit("category");
    reveal_strlit("created_at");
    reveal_strlit("updated_at");
    reveal_strlit("visibility");
    reveal_strlit("manually_added");
    reveal_strlit("tags");
    reveal_strlit("reasoning");
    reveal_strlit("current_activity");
    reveal_strlit("window_title");
    reveal_strlit("source_app");
    reveal_strlit("context_summary");
    reveal_strlit("confidence");
    assert(t == create_table_sql(v1_tables()[1]));
    assert(t.len() == 637);
    assert(t.subrange(0, 37) =~= "CREATE TABLE IF NOT EXISTS memories ("@);
    assert(memory_insert_sql().subrange(0, 22) =~= "INSERT INTO memories ("@);
    assert forall|k: int| 0 <= k < memory_insert_columns().len() implies declares_column(
        t,
        #[trigger] memory_insert_columns()[k],
    ) by {
        if k == 0 {
            lemma_declares_column_at(t, memory_insert_columns()[k], 37);
        }
        if k == 1 {
            lemma_declares_column_at(t, memory_insert_columns()[k], 58);
        }
        if k == 2 {
            lemma_declares_column_at(t, memory_insert_columns()[k], 77);
        }
        if k == 3 {
            lemma_declares_column_at(t, memory_insert_columns()[k], 100);
        }
        if k == 4 {
            lemma_declares_column_at(t, memory_insert_columns()[k], 141);
        }
        if k == 5 {
            lemma_declares_column_at(t, memory_insert_columns()[k], 167);
        }
        if k == 6 {
            lemma_declares_column_at(t, memory_insert_columns()[k], 273);
        }
        if k == 7 {
            lemma_declares_column_at(t, memory_insert_columns()[k], 317);
        }
        if k == 8 {
            lemma_declares_column_at(t, memory_insert_columns()[k], 507);
        }
        if k == 9 {
            lemma_declares_column_at(t, memory_insert_columns()[k], 540);
        }
        if k == 10 {
            lemma_declares_column_at(t, memory_insert_columns()[k], 556);
        }
        if k == 11 {
            lemma_declares_column_at(t, memory_insert_columns()[k], 579);
        }
        if k == 12 {
            lemma_declares_column_at(t, memory_insert_columns()[k], 391);
        }
        if k == 13 {
            lemma_declares_column_at(t, memory_insert_columns()[k], 408);
        }
        if k == 14 {
            lemma_declares_column_at(t, memory_insert_columns()[k], 374);
        }
    }
}

/// The insert of a new memory with the given identifier and time. The
/// memories table has no `source` column, so the input's `source` is not
/// stored.
pub open spec fn create_memory_statement(
    id: Seq<char>,
    now: Timestamp,
    uid: Seq<char>,
    m: MemoryInput,
) -> StatementView {
    StatementView {
        sql: memory_insert_sql(),
        params: seq![
            SqlValueView::Text(id),
            SqlValueView::Text(uid),
            SqlValueView::Text(m.content@),
            SqlValueView::Text(memory_category(m.category)),
            SqlValueView::DateTime(now),
            SqlValueView::DateTime(now),
            SqlValueView::Text(m.visibility@),
            SqlValueView::Bool(true),
            SqlValueView::Text(json_of_strings(m.tags.deep_view())),
            opt_text(m.reasoning),
            opt_text(m.current_activity),
            opt_text(m.window_title),
            opt_text(m.source_app),
            opt_text(m.context_summary),
            opt_real(m.confidence),
        ],
    }
}

/// Builds the insert of a new memory; it is marked as manually added and
/// its tags are stored as JSON.
#[verifier::rlimit(100)]
proof fn lemma_create_memory_at_columns(st: StatementView)
    requires
        st.sql == "INSERT INTO memories (id, uid, content, category, created_at, updated_at, visibility, manually_added, tags, reasoning, current_activity, window_title, source_app, context_summary, confidence) VALUES (?1, ?2, ?3, ?4, ?5, ?6, ?7, ?8, ?9, ?10, ?11, ?12, ?13, ?14, ?15)"@,
        st.params.len() >= 15,
    ensures
        inserts(st, "id"@, st.params[0]),
        inserts(st, "uid"@, st.params[1]),
        inserts(st, "content"@, st.params[2]),
        inserts(st, "category"@, st.params[3]),
        inserts(st, "created_at"@, st.params[4]),
        inserts(st, "updated_at"@, st.params[5]),
        inserts(st, "visibility"@, st.params[6]),
        inserts(st, "manually_added"@, st.params[7]),
        inserts(st, "tags"@, st.params[8]),
        inserts(st, "reasoning"@, st.params[9]),
        inserts(st, "current_activity"@, st.params[10]),
        inserts(st, "window_title"@, st.params[11]),
        inserts(st, "source_app"@, st.params[12]),
        inserts(st, "context_summary"@, st.params[13]),
        inserts(st, "confidence"@, st.params[14]),
{
    reveal_strlit("INSERT INTO memories (id, uid, content, category, created_at, updated_at, visibility, manually_added, tags, reasoning, current_activity, window_title, source_app, context_summary, confidence) VALUES (?1, ?2, ?3, ?4, ?5, ?6, ?7, ?8, ?9, ?10, ?11, ?12, ?13, ?14, ?15)");
    reveal_strlit("INSERT INTO ");
    reveal_strlit("memories");
    reveal_strlit(" (");
    reveal_strlit(") VALUES (");
    reveal_strlit(")");
    reveal_strlit(", ");
    reveal_strlit("id");
    reveal_strlit("uid");
    reveal_strlit("content");
    reveal_strlit("category");
    reveal_strlit("created_at");
    reveal_strlit("updated_at");
    reveal_strlit("visibility");
    reveal_strlit("manually_added");
    reveal_strlit("tags");
    reveal_strlit("reasoning");
    reveal_strlit("current_activity");
    reveal_strlit("window_title");
    reveal_strlit("source_app");
    reveal_strlit("context_summary");
    reveal_strlit("confidence");
    reveal_strlit("?1");
    reveal_strlit("?2");
    reveal_strlit("?3");
    reveal_strlit("?4");
    reveal_strlit("?5");
    reveal_strlit("?6");
    reveal_strlit("?7");
    reveal_strlit("?8");
    reveal_strlit("?9");
    reveal_strlit("?10");
    reveal_strlit("?11");
    reveal_strlit("?12");
    reveal_strlit("?13");
    reveal_strlit("?14");
    reveal_strlit("?15");
    let cols = seq!["id"@, "uid"@, "content"@, "category"@, "created_at"@, "updated_at"@, "visibility"@, "manually_added"@, "tags"@, "reasoning"@, "current_activity"@, "window_title"@, "source_app"@, "context_summary"@, "confidence"@];
    let vals = seq!["?1"@, "?2"@, "?3"@, "?4"@, "?5"@, "?6"@, "?7"@, "?8"@, "?9"@, "?10"@, "?11"@, "?12"@, "?13"@, "?14"@, "?15"@];
    reveal_with_fuel(comma_list, 16);
    reveal_with_fuel(decimal, 3);
    assert("INSERT INTO memories (id, uid, content, category, created_at, updated_at, visibility, manually_added, tags, reasoning, current_activity, window_title, source_app, context_summary, confidence) VALUES (?1, ?2, ?3, ?4, ?5, ?6, ?7, ?8, ?9, ?10, ?11, ?12, ?13, ?14, ?15)"@ =~= insert_sql("INSERT INTO "@, "memories"@, cols, vals, Seq::<char>::empty()));
    assert(plain_items(cols));
    assert(plain_items(vals));
    assert(insert_layout(st, "INSERT INTO "@, "memories"@, cols, vals, Seq::<char>::empty()));
    assert(vals[0] == seq!['?'] + decimal(1));
    lemma_inserts_numbered(st, "INSERT INTO "@, "memories"@, cols, vals, Seq::<char>::empty(), 0, 1);
    assert(vals[1] == seq!['?'] + decimal(2));
    lemma_inserts_numbered(st, "INSERT INTO "@, "memories"@, cols, vals, Seq::<char>::empty(), 1, 2);
    assert(vals[2] == seq!['?'] + decimal(3));
    lemma_inserts_numbered(st, "INSERT INTO "@, "memories"@, cols, vals, Seq::<char>::empty(), 2, 3);
    assert(vals[3] == seq!['?'] + decimal(4));
    lemma_inserts_numbered(st, "INSERT INTO "@, "memories"@, cols, vals, Seq::<char>::empty(), 3, 4);
    assert(vals[4] == seq!['?'] + decimal(5));
    lemma_inserts_numbered(st, "INSERT INTO "@, "memories"@, cols, vals, Seq::<char>::empty(), 4, 5);
    assert(vals[5] == seq!['?'] + decimal(6));
    lemma_inserts_numbered(st, "INSERT INTO "@, "memories"@, cols, vals, Seq::<char>::empty(), 5, 6);
    assert(vals[6] == seq!['?'] + decimal(7));
    lemma_inserts_numbered(st, "INSERT INTO "@, "memories"@, cols, vals, Seq::<char>::empty(), 6, 7);
    assert(vals[7] == seq!['?'] + decimal(8));
    lemma_inserts_numbered(st, "INSERT INTO "@, "memories"@, cols, vals, Seq::<char>::empty(), 7, 8);
    assert(vals[8] == seq!['?'] + decimal(9));
    lemma_inserts_numbered(st, "INSERT INTO "@, "memories"@, cols, vals, Seq::<char>::empty(), 8, 9);
    assert(vals[9] == seq!['?'] + decimal(10));
    lemma_inserts_numbered(st, "INSERT INTO "@, "memories"@, cols, vals, Seq::<char>::empty(), 9, 10);
    assert(vals[10] == seq!['?'] + decimal(11));
    lemma_inserts_numbered(st, "INSERT INTO "@, "memories"@, cols, vals, Seq::<char>::empty(), 10, 11);
    assert(vals[11] == seq!['?'] + decimal(12));
    lemma_inserts_numbered(st, "INSERT INTO "@, "memories"@, cols, vals, Seq::<char>::empty(), 11, 12);
    assert(vals[12] == seq!['?'] + decimal(13));
    lemma_inserts_numbered(st, "INSERT INTO "@, "memories"@, cols, vals, Seq::<char>::empty(), 12, 13);
    assert(vals[13] == seq!['?'] + decimal(14));
    lemma_inserts_numbered(st, "INSERT INTO "@, "memories"@, cols, vals, Seq::<char>::empty(), 13, 14);
    assert(vals[14] == seq!['?'] + decimal(15));
    lemma_inserts_numbered(st, "INSERT INTO "@, "memories"@, cols, vals, Seq::<char>::empty(), 14, 15);
}

pub fn create_memory_at(id: String, now: Timestamp, uid: &str, m: MemoryInput) -> (st: Statement)
    ensures
        st@ == create_memory_statement(id@, now, uid@, m),
        inserts(st@, "id"@, SqlValueView::Text(id@)),
        inserts(st@, "uid"@, SqlValueView::Text(uid@)),
        inserts(st@, "content"@, SqlValueView::Text(m.content@)),
        inserts(st@, "category"@, SqlValueView::Text(memory_category(m.category))),
        inserts(st@, "created_at"@, SqlValueView::DateTime(now)),
        inserts(st@, "updated_at"@, SqlValueView::DateTime(now)),
        inserts(st@, "visibility"@, SqlValueView::Text(m.visibility@)),
        inserts(st@, "manually_added"@, SqlValueView::Bool(true)),
        inserts(st@, "tags"@, SqlValueView::Text(json_of_strings(m.tags.deep_view()))),
        inserts(st@, "reasoning"@, opt_text(m.reasoning)),
        inserts(st@, "current_activity"@, opt_text(m.current_activity)),
        inserts(st@, "window_title"@, opt_text(m.window_title)),
        inserts(st@, "source_app"@, opt_text(m.source_app)),
        inserts(st@, "context_summary"@, opt_text(m.context_summary)),
        inserts(st@, "confidence"@, opt_real(m.confidence)),
{
    let ghost m0 = m;
    let tags = encode_strings(&m.tags);
    let category = match m.category {
        Some(c) => c,
        None => owned("manual"),
    };
    let params = vec![
        SqlValue::Text(id),
        text(uid),
        SqlValue::Text(m.content),
        SqlValue::Text(category),
        SqlValue::DateTime(now),
        SqlValue::DateTime(now),
        SqlValue::Text(m.visibility),
        SqlValue::Bool(true),
        SqlValue::Text(tags),
        text_or_null(m.reasoning),
        text_or_null(m.current_activity),
        text_or_null(m.window_title),
        text_or_null(m.source_app),
        text_or_null(m.context_summary),
        real_or_null(m.confidence),
    ];
    proof {
        lemma_memory_insert_text();
    }
    let st = statement(
        "INSERT INTO memories (id, uid, content, category, created_at, updated_at, visibility, manually_added, tags, reasoning, current_activity, window_title, source_app, context_summary, confidence) VALUES (?1, ?2, ?3, ?4, ?5, ?6, ?7, ?8, ?9, ?10, ?11, ?12, ?13, ?14, ?15)",
        params,
    );
    assert(st@.params =~= create_memory_statement(id@, now, uid@, m0).params);
    proof {
        lemma_create_memory_at_columns(st@);
    }
    st
}

/// Builds the insert of a new memory under a fresh identifier, stamped with
/// the current time; returns the identifier with the statement.
pub fn create_memory(uid: &str, m: MemoryInput) -> (r: (String, Statement))
    ensures
        is_ulid_text(r.0@),
        exists|t: Timestamp| r.1@ == create_memory_statement(r.0@, t, uid@, m),
{
    let id = new_ulid();
    let keep = owned(id.as_str());
    let now = utc_now();
    let st = create_memory_at(id, now, uid, m);
    (keep, st)
}

/// The columns read for a memory, in the order the rows are mapped.
pub open spec fn memory_select_head() -> Seq<char> {
    "SELECT id, uid, content, category, created_at, updated_at, conversation_id, reviewed, user_review, visibility, manually_added, scoring, confidence, source_app, context_summary, is_read, is_dismissed, tags, reasoning, current_activity, window_title FROM memories"@
}

/// Selects one memory of a user by its identifier.
pub fn get_memory(uid: &str, memory_id: &str) -> (st: Statement)
    ensures
        st@.sql == "SELECT id, uid, content, category, created_at, updated_at, conversation_id, reviewed, user_review, visibility, manually_added, scoring, confidence, source_app, context_summary, is_read, is_dismissed, tags, reasoning, current_activity, window_title FROM memories WHERE id = ?1 AND uid = ?2"@,
        st@.params == seq![SqlValueView::Text(memory_id@), SqlValueView::Text(uid@)],
{
    let p = vec![text(memory_id), text(uid)];
    assert(values_view(p@) =~= seq![SqlValueView::Text(memory_id@), SqlValueView::Text(uid@)]);
    statement(
        "SELECT id, uid, content, category, created_at, updated_at, conversation_id, reviewed, user_review, visibility, manually_added, scoring, confidence, source_app, context_summary, is_read, is_dismissed, tags, reasoning, current_activity, window_title FROM memories WHERE id = ?1 AND uid = ?2",
        p,
    )
}

/// The text of the memory listing: the user's memories, without dismissed
/// ones unless asked for, optionally of one category and with tags matching a
/// pattern, newest first, one page.
pub open spec fn list_memories_sql(filter: QueryFilter, page: Pagination) -> Seq<char> {
    let n_cat: nat = if filter.category is Some { 1 } else { 0 };
    memory_select_head() + " WHERE uid = ?1"@ + (if !filter.include_dismissed {
        " AND is_dismissed = 0"@
    } else {
        seq![]
    }) + (if filter.category is Some {
        " AND category = ?"@ + decimal(2)
    } else {
        seq![]
    }) + (if filter.tags is Some {
        " AND tags LIKE ?"@ + decimal(2 + n_cat)
    } else {
        seq![]
    }) + " ORDER BY created_at DESC"@ + " LIMIT "@ + decimal(page.limit as nat) + " OFFSET "@
        + decimal(page.offset as nat)
}

/// The parameters of the memory listing: the user, then the category and the
/// tag pattern `%tags%` when they are given.
pub open spec fn list_memories_params(uid: Seq<char>, filter: QueryFilter) -> Seq<SqlValueView> {
    seq![SqlValueView::Text(uid)] + (match filter.category {
        Some(c) => seq![SqlValueView::Text(c@)],
        None => seq![],
    }) + (match filter.tags {
        Some(t) => seq![SqlValueView::Text("%"@ + t@ + "%"@)],
        None => seq![],
    })
}

/// Builds the memory listing query.
pub fn list_memories(uid: &str, filter: QueryFilter, page: Pagination) -> (st: Statement)
    ensures
        st@.sql == list_memories_sql(filter, page),
        st@.params == list_memories_params(uid@, filter),
        list_memories_binds(st@, uid@, filter),
{
    let ghost f0 = filter;
    let mut sql = owned(
        "SELECT id, uid, content, category, created_at, updated_at, conversation_id, reviewed, user_review, visibility, manually_added, scoring, confidence, source_app, context_summary, is_read, is_dismissed, tags, reasoning, current_activity, window_title FROM memories",
    );
    sql.append(" WHERE uid = ?1");
    let mut params: Vec<SqlValue> = Vec::new();
    params.push(text(uid));
    let mut idx: u64 = 2;
    if !filter.include_dismissed {
        sql.append(" AND is_dismissed = 0");
    }
    let ghost after_dismissed = sql@;
    match filter.category {
        Some(c) => {
            sql.append(" AND category = ?");
            push_decimal(&mut sql, idx);
            params.push(SqlValue::Text(c));
            idx = idx + 1;
        },
        None => {},
    }
    let ghost after_category = sql@;
    let ghost params_after_category = values_view(params@);
    match filter.tags {
        Some(t) => {
            sql.append(" AND tags LIKE ?");
            push_decimal(&mut sql, idx);
            let mut pattern = owned("%");
            pattern.append(t.as_str());
            pattern.append("%");
            params.push(SqlValue::Text(pattern));
        },
        None => {},
    }
    sql.append(" ORDER BY created_at DESC");
    sql.append(" LIMIT ");
    push_decimal(&mut sql, page.limit as u64);
    sql.append(" OFFSET ");
    push_decimal(&mut sql, page.offset as u64);
    proof {
        let n_cat: nat = if f0.category is Some { 1 } else { 0 };
        assert(after_dismissed =~= memory_select_head() + " WHERE uid = ?1"@ + (if !f0.include_dismissed {
            " AND is_dismissed = 0"@
        } else {
            seq![]
        }));
        assert(after_category =~= after_dismissed + (if f0.category is Some {
            " AND category = ?"@ + decimal(2)
        } else {
            seq![]
        }));
        assert(params_after_category =~= seq![SqlValueView::Text(uid@)] + (match f0.category {
            Some(c) => seq![SqlValueView::Text(c@)],
            None => seq![],
        }));
        assert(sql@ =~= list_memories_sql(f0, page));
        assert(values_view(params@) =~= list_memories_params(uid@, f0));
        lemma_list_memories_binds(uid@, f0, page);
    }
    Statement { sql, params }
}

/// What the memory listing binds: the user to `uid = `, the category to
/// `category = ` and the pattern `%tags%` to `tags LIKE ` (each when given).
pub open spec fn list_memories_binds(st: StatementView, uid: Seq<char>, filter: QueryFilter) -> bool {
    &&& binds_numbered(st, "uid = "@, SqlValueView::Text(uid))
    &&& (filter.category matches Some(c) ==> binds_numbered(st, "category = "@, SqlValueView::Text(c@)))
    &&& (filter.tags matches Some(t) ==> binds_numbered(
        st,
        "tags LIKE "@,
        SqlValueView::Text("%"@ + t@ + "%"@),
    ))
}

/// The pieces of the memory listing's text, in order.
spec fn memory_listing_parts(filter: QueryFilter, page: Pagination) -> (Seq<char>, Seq<char>, Seq<char>, Seq<char>) {
    let n_cat: nat = if filter.category is Some { 1 } else { 0 };
    (
        if !filter.include_dismissed { " AND is_dismissed = 0"@ } else { seq![] },
        if filter.category is Some { " AND category = ?"@ + decimal(2) } else { seq![] },
        if filter.tags is Some { " AND tags LIKE ?"@ + decimal(2 + n_cat) } else { seq![] },
        " ORDER BY created_at DESC"@ + " LIMIT "@ + decimal(page.limit as nat) + " OFFSET "@ + decimal(page.offset as nat),
    )
}

proof fn lemma_memory_listing_parts(filter: QueryFilter, page: Pagination)
    ensures
        ({
            let (d, c, t, o) = memory_listing_parts(filter, page);
            &&& list_memories_sql(filter, page) == memory_select_head() + " WHERE uid = ?1"@ + d + c + t + o
            &&& o.len() > 0 && o[0] == ' '
            &&& (d.len() > 0 ==> d[0] == ' ')
            &&& (c.len() > 0 ==> c[0] == ' ')
            &&& (t.len() > 0 ==> t[0] == ' ')
        }),
{
    reveal_strlit(" WHERE uid = ?1");
    reveal_strlit(" AND is_dismissed = 0");
    reveal_strlit(" AND category = ?");
    reveal_strlit(" AND tags LIKE ?");
    reveal_strlit(" ORDER BY created_at DESC");
    let (d, c, t, o) = memory_listing_parts(filter, page);
    assert(list_memories_sql(filter, page) =~= memory_select_head() + " WHERE uid = ?1"@ + d + c + t + o);
}

proof fn lemma_list_memories_binds_uid(uid: Seq<char>, filter: QueryFilter, page: Pagination)
    ensures
        binds_numbered(
            StatementView { sql: list_memories_sql(filter, page), params: list_memories_params(uid, filter) },
            "uid = "@,
            SqlValueView::Text(uid),
        ),
{
    reveal_strlit(" WHERE uid = ?1");
    reveal_strlit(" WHERE ");
    reveal_strlit("uid = ");
    lemma_memory_listing_parts(filter, page);
    let (d, c, t, o) = memory_listing_parts(filter, page);
    let sql = list_memories_sql(filter, page);
    let h = memory_select_head();
    let post = d + c + t + o;
    assert(post[0] == ' ') by {
        if d.len() > 0 {
            assert(post[0] == d[0]);
        } else if c.len() > 0 {
            assert(post[0] == c[0]);
        } else if t.len() > 0 {
            assert(post[0] == t[0]);
        } else {
            assert(post[0] == o[0]);
        }
    }
    assert(decimal(1) =~= seq!['1']);
    assert(" WHERE uid = ?1"@ =~= " WHERE "@ + "uid = "@ + (seq!['?'] + decimal(1)));
    assert(sql =~= (h + " WHERE "@) + "uid = "@ + (seq!['?'] + decimal(1)) + post);
    lemma_numbered_binds_at(sql, list_memories_params(uid, filter), h + " WHERE "@, "uid = "@, 1, post);
}

proof fn lemma_list_memories_binds_category(uid: Seq<char>, filter: QueryFilter, page: Pagination)
    requires
        filter.category is Some,
    ensures
        binds_numbered(
            StatementView { sql: list_memories_sql(filter, page), params: list_memories_params(uid, filter) },
            "category = "@,
            SqlValueView::Text(filter.category->0@),
        ),
{
    reveal_strlit(" AND category = ?");
    reveal_strlit(" AND ");
    reveal_strlit("category = ");
    lemma_memory_listing_parts(filter, page);
    let (d, c, t, o) = memory_listing_parts(filter, page);
    let sql = list_memories_sql(filter, page);
    let pre = memory_select_head() + " WHERE uid = ?1"@ + d + " AND "@;
    let post = t + o;
    assert(post[0] == ' ') by {
        if t.len() > 0 {
            assert(post[0] == t[0]);
        } else {
            assert(post[0] == o[0]);
        }
    }
    assert(" AND category = ?"@ =~= " AND "@ + "category = "@ + seq!['?']);
    assert(sql =~= pre + "category = "@ + (seq!['?'] + decimal(2)) + post);
    lemma_numbered_binds_at(sql, list_memories_params(uid, filter), pre, "category = "@, 2, post);
}

proof fn lemma_list_memories_binds_tags(uid: Seq<char>, filter: QueryFilter, page: Pagination)
    requires
        filter.tags is Some,
    ensures
        binds_numbered(
            StatementView { sql: list_memories_sql(filter, page), params: list_memories_params(uid, filter) },
            "tags LIKE "@,
            SqlValueView::Text("%"@ + filter.tags->0@ + "%"@),
        ),
{
    reveal_strlit(" AND tags LIKE ?");
    reveal_strlit(" AND ");
    reveal_strlit("tags LIKE ");
    lemma_memory_listing_parts(filter, page);
    let (d, c, t, o) = memory_listing_parts(filter, page);
    let n_cat: nat = if filter.category is Some { 1 } else { 0 };
    let sql = list_memories_sql(filter, page);
    let pre = memory_select_head() + " WHERE uid = ?1"@ + d + c + " AND "@;
    assert(" AND tags LIKE ?"@ =~= " AND "@ + "tags LIKE "@ + seq!['?']);
    assert(sql =~= pre + "tags LIKE "@ + (seq!['?'] + decimal(2 + n_cat)) + o);
    lemma_numbered_binds_at(sql, list_memories_params(uid, filter), pre, "tags LIKE "@, 2 + n_cat, o);
}

/// Law: the memory listing binds the user, the category and the tag pattern
/// to their own conditions, whichever filters are given.
pub proof fn lemma_list_memories_binds(uid: Seq<char>, filter: QueryFilter, page: Pagination)
    ensures
        list_memories_binds(
            StatementView { sql: list_memories_sql(filter, page), params: list_memories_params(uid, filter) },
            uid,
            filter,
        ),
{
    lemma_list_memories_binds_uid(uid, filter, page);
    if filter.category is Some {
        lemma_list_memories_binds_category(uid, filter, page);
    }
    if filter.tags is Some {
        lemma_list_memories_binds_tags(uid, filter, page);
    }
}

/// Law: the placeholders of the memory listing, read in order, are exactly
/// `?1, ?2, ..., ?n` for its `n` parameters, whichever filters are given, so
/// each placeholder is bound to the parameter at its position.
pub proof fn lemma_list_memories_placeholders(uid: Seq<char>, filter: QueryFilter, page: Pagination)
    ensures
        placeholders(list_memories_sql(filter, page)) == numbered(list_memories_params(uid, filter).len(), 1),
{
    let n_cat: nat = if filter.category is Some { 1 } else { 0 };
    let n_tag: nat = if filter.tags is Some { 1 } else { 0 };
    reveal_strlit("SELECT id, uid, content, category, created_at, updated_at, conversation_id, reviewed, user_review, visibility, manually_added, scoring, confidence, source_app, context_summary, is_read, is_dismissed, tags, reasoning, current_activity, window_title FROM memories");
    reveal_strlit(" WHERE uid = ?1");
    reveal_strlit(" WHERE uid = ");
    reveal_strlit(" AND is_dismissed = 0");
    reveal_strlit(" AND category = ?");
    reveal_strlit(" AND category = ");
    reveal_strlit(" AND tags LIKE ?");
    reveal_strlit(" AND tags LIKE ");
    reveal_strlit(" ORDER BY created_at DESC");
    reveal_strlit(" LIMIT ");
    reveal_strlit(" OFFSET ");
    let h = memory_select_head();
    assert forall|i: int| 0 <= i < h.len() implies #[trigger] h[i] != '?' by {}
    lemma_placeholders_none(h);
    // the user: `?1`
    let w = " WHERE uid = ?1"@;
    let wp = " WHERE uid = "@;
    assert(decimal(1) =~= seq!['1']);
    assert(w =~= wp + seq!['?'] + decimal(1));
    assert forall|i: int| 0 <= i < wp.len() implies #[trigger] wp[i] != '?' by {}
    lemma_placeholder_after(wp, 1);
    // dismissed rows: no placeholder
    let d = if !filter.include_dismissed { " AND is_dismissed = 0"@ } else { seq![] };
    assert forall|i: int| 0 <= i < d.len() implies #[trigger] d[i] != '?' by {}
    lemma_placeholders_none(d);
    // the category: `?2`
    let c = if filter.category is Some { " AND category = ?"@ + decimal(2) } else { seq![] };
    let cp = " AND category = "@;
    assert forall|i: int| 0 <= i < cp.len() implies #[trigger] cp[i] != '?' by {}
    lemma_placeholder_after(cp, 2);
    assert(" AND category = ?"@ =~= cp + seq!['?']);
    assert(filter.category is Some ==> c =~= cp + seq!['?'] + decimal(2));
    lemma_placeholders_none(seq![]);
    assert(placeholders(c) == if filter.category is Some { seq![2nat] } else { Seq::<nat>::empty() });
    // the tag pattern: the next number
    let t = if filter.tags is Some { " AND tags LIKE ?"@ + decimal(2 + n_cat) } else { seq![] };
    let tp = " AND tags LIKE "@;
    assert forall|i: int| 0 <= i < tp.len() implies #[trigger] tp[i] != '?' by {}
    lemma_placeholder_after(tp, 2 + n_cat);
    assert(" AND tags LIKE ?"@ =~= tp + seq!['?']);
    assert(filter.tags is Some ==> t =~= tp + seq!['?'] + decimal(2 + n_cat));
    assert(placeholders(t) == if filter.tags is Some { seq![2 + n_cat] } else { Seq::<nat>::empty() });
    // ordering and paging: no placeholder
    let o = " ORDER BY created_at DESC"@ + " LIMIT "@ + decimal(page.limit as nat) + " OFFSET "@ + decimal(page.offset as nat);
    lemma_decimal_no_question(page.limit as nat);
    lemma_decimal_no_question(page.offset as nat);
    let o1 = " ORDER BY created_at DESC"@;
    let o2 = " LIMIT "@;
    let o3 = decimal(page.limit as nat);
    let o4 = " OFFSET "@;
    let o5 = decimal(page.offset as nat);
    assert forall|i: int| 0 <= i < o.len() implies #[trigger] o[i] != '?' by {
        if i < o1.len() {
            assert(o[i] == o1[i]);
        } else if i < o1.len() + o2.len() {
            assert(o[i] == o2[i - o1.len()]);
        } else if i < o1.len() + o2.len() + o3.len() {
            assert(o[i] == o3[i - o1.len() - o2.len()]);
        } else if i < o1.len() + o2.len() + o3.len() + o4.len() {
            assert(o[i] == o4[i - o1.len() - o2.len() - o3.len()]);
        } else {
            assert(o[i] == o5[i - o1.len() - o2.len() - o3.len() - o4.len()]);
        }
    }
    lemma_placeholders_none(o);
    // the whole text
    assert(list_memories_sql(filter, page) =~= h + w + d + c + t + o);
    lemma_placeholders_concat(h, w);
    lemma_placeholders_concat(h + w, d);
    lemma_placeholders_concat(h + w + d, c);
    lemma_placeholders_concat(h + w + d + c, t);
    lemma_placeholders_concat(h + w + d + c + t, o);
    assert(list_memories_params(uid, filter).len() == 1 + n_cat + n_tag);
    assert(placeholders(list_memories_sql(filter, page)) =~= numbered(1 + n_cat + n_tag, 1));
}

/// The assignments of a memory update: the update time first, then each field
/// that is present; tags are stored as JSON.
pub open spec fn memory_update_sets(u: MemoryUpdate, now: Timestamp) -> Seq<Binding> {
    seq![("updated_at"@, SqlValueView::DateTime(now))] + opt_set("content"@, text_view(u.content))
        + opt_set("visibility"@, text_view(u.visibility)) + opt_set(
        "is_read"@,
        bool_view(u.is_read),
    ) + opt_set("is_dismissed"@, bool_view(u.is_dismissed)) + opt_set(
        "tags"@,
        match u.tags {
            Some(t) => Some(SqlValueView::Text(json_of_strings(t.deep_view()))),
            None => None,
        },
    )
}

/// What a memory update binds: the update time to `updated_at`, each field
/// that is given to its column (tags as their JSON text), and the memory and
/// its user to the `id` and `uid` conditions.
pub open spec fn memory_update_binds(st: StatementView, uid: Seq<char>, memory_id: Seq<char>, u: MemoryUpdate, now: Timestamp) -> bool {
    &&& binds_numbered(st, "updated_at = "@, SqlValueView::DateTime(now))
    &&& (u.content matches Some(c) ==> binds_numbered(st, "content = "@, SqlValueView::Text(c@)))
    &&& (u.visibility matches Some(v) ==> binds_numbered(st, "visibility = "@, SqlValueView::Text(v@)))
    &&& (u.is_read matches Some(r) ==> binds_numbered(st, "is_read = "@, SqlValueView::Bool(r)))
    &&& (u.is_dismissed matches Some(d) ==> binds_numbered(st, "is_dismissed = "@, SqlValueView::Bool(d)))
    &&& (u.tags matches Some(t) ==> binds_numbered(st, "tags = "@, SqlValueView::Text(json_of_strings(t.deep_view()))))
    &&& binds_numbered(st, "id = "@, SqlValueView::Text(memory_id))
    &&& binds_numbered(st, "uid = "@, SqlValueView::Text(uid))
}

/// Law: a memory update binds every given field to its column, the update
/// time to `updated_at`, and the memory and its user to the conditions.
pub proof fn lemma_memory_update_binds(uid: Seq<char>, memory_id: Seq<char>, u: MemoryUpdate, now: Timestamp)
    ensures
        memory_update_binds(
            update_statement("memories"@, memory_update_sets(u, now), id_and_uid(memory_id, uid)),
            uid,
            memory_id,
            u,
            now,
        ),
{
    broadcast use vstd::seq_lib::lemma_seq_concat_contains_all_elements, vstd::seq_lib::lemma_seq_contains_after_push;
    let t = "memories"@;
    let sets = memory_update_sets(u, now);
    let wheres = id_and_uid(memory_id, uid);
    {
        reveal_strlit("updated_at");
        reveal_strlit("updated_at = ");
        assert("updated_at = "@ =~= "updated_at"@ + seq![' ', '=', ' ']);
        assert(sets.contains(("updated_at"@, SqlValueView::DateTime(now))) || wheres.contains(("updated_at"@, SqlValueView::DateTime(now))));
        lemma_update_binds_member(t, sets, wheres, "updated_at"@, "updated_at = "@, SqlValueView::DateTime(now));
    }
    if let Some(c) = u.content {
        reveal_strlit("content");
        reveal_strlit("content = ");
        assert("content = "@ =~= "content"@ + seq![' ', '=', ' ']);
        assert(sets.contains(("content"@, SqlValueView::Text(c@))) || wheres.contains(("content"@, SqlValueView::Text(c@))));
        lemma_update_binds_member(t, sets, wheres, "content"@, "content = "@, SqlValueView::Text(c@));
    }
    if let Some(c) = u.visibility {
        reveal_strlit("visibility");
        reveal_strlit("visibility = ");
        assert("visibility = "@ =~= "visibility"@ + seq![' ', '=', ' ']);
        assert(sets.contains(("visibility"@, SqlValueView::Text(c@))) || wheres.contains(("visibility"@, SqlValueView::Text(c@))));
        lemma_update_binds_member(t, sets, wheres, "visibility"@, "visibility = "@, SqlValueView::Text(c@));
    }
    if let Some(c) = u.is_read {
        reveal_strlit("is_read");
        reveal_strlit("is_read = ");
        assert("is_read = "@ =~= "is_read"@ + seq![' ', '=', ' ']);
        assert(sets.contains(("is_read"@, SqlValueView::Bool(c))) || wheres.contains(("is_read"@, SqlValueView::Bool(c))));
        lemma_update_binds_member(t, sets, wheres, "is_read"@, "is_read = "@, SqlValueView::Bool(c));
    }
    if let Some(c) = u.is_dismissed {
        reveal_strlit("is_dismissed");
        reveal_strlit("is_dismissed = ");
        assert("is_dismissed = "@ =~= "is_dismissed"@ + seq![' ', '=', ' ']);
        assert(sets.contains(("is_dismissed"@, SqlValueView::Bool(c))) || wheres.contains(("is_dismissed"@, SqlValueView::Bool(c))));
        lemma_update_binds_member(t, sets, wheres, "is_dismissed"@, "is_dismissed = "@, SqlValueView::Bool(c));
    }
    if let Some(c) = u.tags {
        reveal_strlit("tags");
        reveal_strlit("tags = ");
        assert("tags = "@ =~= "tags"@ + seq![' ', '=', ' ']);
        assert(sets.contains(("tags"@, SqlValueView::Text(json_of_strings(c.deep_view())))) || wheres.contains(("tags"@, SqlValueView::Text(json_of_strings(c.deep_view())))));
        lemma_update_binds_member(t, sets, wheres, "tags"@, "tags = "@, SqlValueView::Text(json_of_strings(c.deep_view())));
    }
    {
        reveal_strlit("id");
        reveal_strlit("id = ");
        assert("id = "@ =~= "id"@ + seq![' ', '=', ' ']);
        assert(sets.contains(("id"@, SqlValueView::Text(memory_id))) || wheres.contains(("id"@, SqlValueView::Text(memory_id))));
        lemma_update_binds_member(t, sets, wheres, "id"@, "id = "@, SqlValueView::Text(memory_id));
    }
    {
        reveal_strlit("uid");
        reveal_strlit("uid = ");
        assert("uid = "@ =~= "uid"@ + seq![' ', '=', ' ']);
        assert(sets.contains(("uid"@, SqlValueView::Text(uid))) || wheres.contains(("uid"@, SqlValueView::Text(uid))));
        lemma_update_binds_member(t, sets, wheres, "uid"@, "uid = "@, SqlValueView::Text(uid));
    }
}

/// Builds the update of a memory at the given time.
pub fn update_memory_at(uid: &str, memory_id: &str, u: MemoryUpdate, now: Timestamp) -> (st: Statement)
    ensures
        st@ == update_statement(
            "memories"@,
            memory_update_sets(u, now),
            id_and_uid(memory_id@, uid@),
        ),
        memory_update_binds(st@, uid@, memory_id@, u, now),
{
    let ghost u0 = u;
    let tags = match u.tags {
        Some(t) => Some(SqlValue::Text(encode_strings(&t))),
        None => None,
    };
    let mut b = UpdateBuilder::new("memories");
    b.set("updated_at", SqlValue::DateTime(now));
    assert(b.sets() =~= seq![("updated_at"@, SqlValueView::DateTime(now))]);
    b.set_opt("content", opt_text_value(u.content));
    b.set_opt("visibility", opt_text_value(u.visibility));
    b.set_opt("is_read", opt_bool_value(u.is_read));
    b.set_opt("is_dismissed", opt_bool_value(u.is_dismissed));
    b.set_opt("tags", tags);
    b.where_id_uid(memory_id, uid);
    assert(b.sets() =~= memory_update_sets(u0, now));
    let st = b.finish();
    proof {
        lemma_memory_update_binds(uid@, memory_id@, u0, now);
    }
    st
}

/// Builds the update of a memory stamped with the current time.
pub fn update_memory(uid: &str, memory_id: &str, u: MemoryUpdate) -> (st: Statement)
    ensures
        exists|t: Timestamp|
            st@ == update_statement(
                "memories"@,
                memory_update_sets(u, t),
                id_and_uid(memory_id@, uid@),
            ),
        exists|t: Timestamp| memory_update_binds(st@, uid@, memory_id@, u, t),
{
    update_memory_at(uid, memory_id, u, utc_now())
}

/// Deletes one memory of a user.
pub fn delete_memory(uid: &str, memory_id: &str) -> (st: Statement)
    ensures
        st@.sql == "DELETE FROM memories WHERE id = ?1 AND uid = ?2"@,
        st@.params == seq![SqlValueView::Text(memory_id@), SqlValueView::Text(uid@)],
        binds_numbered(st@, "id = "@, SqlValueView::Text(memory_id@)),
        binds_numbered(st@, "uid = "@, SqlValueView::Text(uid@)),
{
    let p = vec![text(memory_id), text(uid)];
    assert(values_view(p@) =~= seq![SqlValueView::Text(memory_id@), SqlValueView::Text(uid@)]);
    let st = statement("DELETE FROM memories WHERE id = ?1 AND uid = ?2", p);
    proof {
        reveal_strlit("DELETE FROM memories WHERE id = ?1 AND uid = ?2");
        reveal_strlit("DELETE FROM memories WHERE id = ");
        reveal_strlit(" AND uid = ");
        reveal_strlit("id = ");
        reveal_strlit("uid = ");
        let pieces = seq!["DELETE FROM memories WHERE id = "@, " AND uid = "@, Seq::<char>::empty()];
        reveal_with_fuel(numbered_join, 4);
        assert(decimal(1) =~= seq!['1']);
        assert(decimal(2) =~= seq!['2']);
        assert("DELETE FROM memories WHERE id = ?1 AND uid = ?2"@ =~= numbered_join(pieces, 1));
        assert(bare_pieces(pieces));
        assert(st@ == StatementView { sql: numbered_join(pieces, 1), params: st@.params });
        lemma_numbered_join_binds(pieces, st@.params, 0, "id = "@);
        lemma_numbered_join_binds(pieces, st@.params, 1, "uid = "@);
    }
    st
}

/// Records the user's review of a memory at the given time: marks it
/// reviewed and stores the verdict.
pub fn review_memory_at(uid: &str, memory_id: &str, approved: bool, now: Timestamp) -> (st: Statement)
    ensures
        st@.sql == "UPDATE memories SET reviewed = 1, user_review = ?1, updated_at = ?2 WHERE id = ?3 AND uid = ?4"@,
        st@.params == seq![
            SqlValueView::Bool(approved),
            SqlValueView::DateTime(now),
            SqlValueView::Text(memory_id@),
            SqlValueView::Text(uid@),
        ],
{
    let p = vec![SqlValue::Bool(approved), SqlValue::DateTime(now), text(memory_id), text(uid)];
    assert(values_view(p@) =~= seq![
        SqlValueView::Bool(approved),
        SqlValueView::DateTime(now),
        SqlValueView::Text(memory_id@),
        SqlValueView::Text(uid@),
    ]);
    statement(
        "UPDATE memories SET reviewed = 1, user_review = ?1, updated_at = ?2 WHERE id = ?3 AND uid = ?4",
        p,
    )
}

/// Records the user's review of a memory, stamped with the current time.
pub fn review_memory(uid: &str, memory_id: &str, approved: bool) -> (st: Statement)
    ensures
        st@.sql == "UPDATE memories SET reviewed = 1, user_review = ?1, updated_at = ?2 WHERE id = ?3 AND uid = ?4"@,
        exists|t: Timestamp|
            st@.params == seq![
                SqlValueView::Bool(approved),
                SqlValueView::DateTime(t),
                SqlValueView::Text(memory_id@),
                SqlValueView::Text(uid@),
            ],
{
    review_memory_at(uid, memory_id, approved, utc_now())
}

} // verus!
