//! Schema setup and versioned migrations of the SQLite store.
use vstd::prelude::*;
use vstd::string::*;

use crate::text::owned;

verus! {

/// Current schema version; bumped on every schema change.
pub const CURRENT_SCHEMA_VERSION: i32 = 1;

/// Connection settings applied when the store is opened: foreign keys on,
/// write-ahead journal, and a 5 s wait on a busy database.
pub fn connection_pragmas() -> (s: String)
    ensures
        s@ == "PRAGMA foreign_keys = ON; PRAGMA journal_mode = WAL; PRAGMA busy_timeout = 5000;"@,
{
    owned("PRAGMA foreign_keys = ON; PRAGMA journal_mode = WAL; PRAGMA busy_timeout = 5000;")
}

/// Creates the table that records applied schema versions, if missing.
pub fn create_migrations_table() -> (s: String)
    ensures
        s@ == "CREATE TABLE IF NOT EXISTS schema_migrations (version INTEGER PRIMARY KEY, applied_at TEXT DEFAULT CURRENT_TIMESTAMP)"@,
{
    owned("CREATE TABLE IF NOT EXISTS schema_migrations (version INTEGER PRIMARY KEY, applied_at TEXT DEFAULT CURRENT_TIMESTAMP)")
}

/// Reads the latest applied schema version (no row means version 0).
pub fn schema_version_query() -> (s: String)
    ensures
        s@ == "SELECT version FROM schema_migrations ORDER BY version DESC LIMIT 1"@,
{
    owned("SELECT version FROM schema_migrations ORDER BY version DESC LIMIT 1")
}

/// The migrations still to apply to a database at schema version `current`:
/// every version above it up to the current one, in increasing order.
pub open spec fn pending_migrations_spec(current: int) -> Seq<i32> {
    if current < 1 {
        seq![1i32]
    } else {
        seq![]
    }
}

/// The versions to migrate to, in order, from schema version `current`.
pub fn pending_migrations(current: i32) -> (r: Vec<i32>)
    ensures
        r@ == pending_migrations_spec(current as int),
{
    let mut r: Vec<i32> = Vec::new();
    if current < CURRENT_SCHEMA_VERSION {
        if current < 1 {
            r.push(1);
        }
    }
    assert(r@ =~= pending_migrations_spec(current as int));
    r
}

/// Law: applying the pending migrations brings any database at or below the
/// current version to the current version, in increasing order, and a
/// database at the current version has nothing left to apply.
pub proof fn lemma_migrations_reach_current(current: int)
    requires
        current <= CURRENT_SCHEMA_VERSION,
    ensures
        current == CURRENT_SCHEMA_VERSION ==> pending_migrations_spec(current).len() == 0,
        current < CURRENT_SCHEMA_VERSION ==> pending_migrations_spec(current).len() > 0
            && pending_migrations_spec(current).last() == CURRENT_SCHEMA_VERSION,
        forall|i: int| 0 <= i < pending_migrations_spec(current).len() ==> current < #[trigger] pending_migrations_spec(current)[i] <= CURRENT_SCHEMA_VERSION,
        forall|i: int, j: int| 0 <= i < j < pending_migrations_spec(current).len() ==> pending_migrations_spec(current)[i] < pending_migrations_spec(current)[j],
{
}

/// A statement that creates a table from its name and definition (`body`)
/// when the table is missing.
pub open spec fn create_table_sql(body: Seq<char>) -> Seq<char> {
    "CREATE TABLE IF NOT EXISTS "@ + body
}

/// A statement that creates an index from its name and definition (`body`)
/// when the index is missing.
pub open spec fn create_index_sql(body: Seq<char>) -> Seq<char> {
    "CREATE INDEX IF NOT EXISTS "@ + body
}

/// The tables of schema version 1: name and column definitions.
pub open spec fn v1_tables() -> Seq<Seq<char>> {
    seq![
        "users (id TEXT PRIMARY KEY, email TEXT, display_name TEXT, created_at TEXT NOT NULL, updated_at TEXT NOT NULL)"@,
        "memories (id TEXT PRIMARY KEY, uid TEXT NOT NULL, content TEXT NOT NULL, category TEXT NOT NULL DEFAULT 'manual', created_at TEXT NOT NULL, updated_at TEXT NOT NULL, conversation_id TEXT, reviewed INTEGER NOT NULL DEFAULT 0, user_review INTEGER, visibility TEXT NOT NULL DEFAULT 'private', manually_added INTEGER NOT NULL DEFAULT 1, scoring TEXT, confidence REAL, source_app TEXT, context_summary TEXT, is_read INTEGER NOT NULL DEFAULT 0, is_dismissed INTEGER NOT NULL DEFAULT 0, tags TEXT NOT NULL DEFAULT '[]', reasoning TEXT, current_activity TEXT, window_title TEXT, FOREIGN KEY (uid) REFERENCES users(id))"@,
        "conversations (id TEXT PRIMARY KEY, uid TEXT NOT NULL, title TEXT NOT NULL, status TEXT NOT NULL DEFAULT 'active', created_at TEXT NOT NULL, updated_at TEXT NOT NULL, source TEXT, geolocation TEXT, last_message_at TEXT, FOREIGN KEY (uid) REFERENCES users(id))"@,
        "messages (id TEXT PRIMARY KEY, uid TEXT NOT NULL, conversation_id TEXT NOT NULL, role TEXT NOT NULL, content TEXT NOT NULL, audio_url TEXT, transcript TEXT, created_at TEXT NOT NULL, rating INTEGER, person_id TEXT, FOREIGN KEY (uid) REFERENCES users(id), FOREIGN KEY (conversation_id) REFERENCES conversations(id))"@,
        "action_items (id TEXT PRIMARY KEY, uid TEXT NOT NULL, content TEXT NOT NULL, completed INTEGER NOT NULL DEFAULT 0, due_date TEXT, priority INTEGER NOT NULL DEFAULT 0, conversation_id TEXT, created_at TEXT NOT NULL, updated_at TEXT NOT NULL, score REAL, FOREIGN KEY (uid) REFERENCES users(id), FOREIGN KEY (conversation_id) REFERENCES conversations(id))"@,
        "focus_sessions (id TEXT PRIMARY KEY, uid TEXT NOT NULL, start_time TEXT NOT NULL, end_time TEXT, focus_type TEXT, distraction_events TEXT NOT NULL DEFAULT '[]', created_at TEXT NOT NULL, FOREIGN KEY (uid) REFERENCES users(id))"@,
        "goals (id TEXT PRIMARY KEY, uid TEXT NOT NULL, title TEXT NOT NULL, goal_type TEXT NOT NULL, target_date TEXT, progress REAL NOT NULL DEFAULT 0, created_at TEXT NOT NULL, updated_at TEXT NOT NULL, FOREIGN KEY (uid) REFERENCES users(id))"@,
        "goal_history (id TEXT PRIMARY KEY, uid TEXT NOT NULL, goal_id TEXT NOT NULL, date TEXT NOT NULL, progress REAL NOT NULL, FOREIGN KEY (uid) REFERENCES users(id), FOREIGN KEY (goal_id) REFERENCES goals(id))"@,
        "user_settings (uid TEXT PRIMARY KEY, daily_summary_enabled INTEGER NOT NULL DEFAULT 1, notification_settings TEXT NOT NULL DEFAULT '{}', transcription_preferences TEXT NOT NULL DEFAULT '{}', ai_user_profile TEXT, FOREIGN KEY (uid) REFERENCES users(id))"@,
        "folders (id TEXT PRIMARY KEY, uid TEXT NOT NULL, name TEXT NOT NULL, icon TEXT, color TEXT, sort_order INTEGER NOT NULL DEFAULT 0, created_at TEXT NOT NULL, updated_at TEXT NOT NULL, FOREIGN KEY (uid) REFERENCES users(id))"@,
        "chat_sessions (id TEXT PRIMARY KEY, uid TEXT NOT NULL, title TEXT NOT NULL, model_id TEXT, created_at TEXT NOT NULL, updated_at TEXT NOT NULL, FOREIGN KEY (uid) REFERENCES users(id))"@,
        "personas (id TEXT PRIMARY KEY, uid TEXT NOT NULL, name TEXT NOT NULL, description TEXT, prompt TEXT, avatar_url TEXT, personality_type TEXT, created_at TEXT NOT NULL, updated_at TEXT NOT NULL, FOREIGN KEY (uid) REFERENCES users(id))"@,
        "advice (id TEXT PRIMARY KEY, uid TEXT NOT NULL, title TEXT NOT NULL, content TEXT NOT NULL, category TEXT NOT NULL, reasoning TEXT, source TEXT, is_enabled INTEGER NOT NULL DEFAULT 1, created_at TEXT NOT NULL, updated_at TEXT NOT NULL, FOREIGN KEY (uid) REFERENCES users(id))"@,
        "kg_nodes (id TEXT PRIMARY KEY, uid TEXT NOT NULL, entity_type TEXT NOT NULL, entity_id TEXT NOT NULL, content TEXT NOT NULL, confidence REAL NOT NULL DEFAULT 1.0, source TEXT, created_at TEXT NOT NULL, FOREIGN KEY (uid) REFERENCES users(id))"@,
        "kg_edges (id TEXT PRIMARY KEY, uid TEXT NOT NULL, source_node_id TEXT NOT NULL, target_node_id TEXT NOT NULL, relationship TEXT NOT NULL, confidence REAL NOT NULL DEFAULT 1.0, created_at TEXT NOT NULL, FOREIGN KEY (uid) REFERENCES users(id), FOREIGN KEY (source_node_id) REFERENCES kg_nodes(id), FOREIGN KEY (target_node_id) REFERENCES kg_nodes(id))"@,
        "people (id TEXT PRIMARY KEY, uid TEXT NOT NULL, name TEXT NOT NULL, email TEXT, phone TEXT, avatar_url TEXT, notes TEXT, created_at TEXT NOT NULL, updated_at TEXT NOT NULL, FOREIGN KEY (uid) REFERENCES users(id))"@,
        "llm_usage (id TEXT PRIMARY KEY, uid TEXT NOT NULL, model_id TEXT NOT NULL, input_tokens INTEGER NOT NULL, output_tokens INTEGER NOT NULL, total_tokens INTEGER NOT NULL, cost_usd REAL, created_at TEXT NOT NULL, FOREIGN KEY (uid) REFERENCES users(id))"@,
        "screen_activity (id TEXT PRIMARY KEY, uid TEXT NOT NULL, window_title TEXT NOT NULL, app_name TEXT NOT NULL, duration_seconds INTEGER NOT NULL, timestamp TEXT NOT NULL, FOREIGN KEY (uid) REFERENCES users(id))"@
    ]
}

/// The indexes of schema version 1: name, table and columns.
pub open spec fn v1_indexes() -> Seq<Seq<char>> {
    seq![
        "idx_memories_uid ON memories(uid)"@,
        "idx_memories_uid_category ON memories(uid, category)"@,
        "idx_memories_uid_created ON memories(uid, created_at DESC)"@,
        "idx_conversations_uid ON conversations(uid)"@,
        "idx_conversations_uid_last_message ON conversations(uid, last_message_at DESC)"@,
        "idx_messages_uid_conv ON messages(uid, conversation_id)"@,
        "idx_messages_uid_created ON messages(uid, created_at)"@,
        "idx_action_items_uid ON action_items(uid)"@,
        "idx_action_items_uid_completed ON action_items(uid, completed)"@,
        "idx_focus_sessions_uid ON focus_sessions(uid)"@,
        "idx_focus_sessions_uid_start ON focus_sessions(uid, start_time DESC)"@,
        "idx_goals_uid ON goals(uid)"@,
        "idx_folders_uid ON folders(uid)"@,
        "idx_folders_uid_sort ON folders(uid, sort_order)"@,
        "idx_chat_sessions_uid ON chat_sessions(uid)"@,
        "idx_personas_uid ON personas(uid)"@,
        "idx_advice_uid ON advice(uid)"@,
        "idx_kg_nodes_uid ON kg_nodes(uid)"@,
        "idx_kg_edges_uid ON kg_edges(uid)"@,
        "idx_people_uid ON people(uid)"@,
        "idx_llm_usage_uid ON llm_usage(uid)"@,
        "idx_screen_activity_uid ON screen_activity(uid)"@,
        "idx_screen_activity_uid_timestamp ON screen_activity(uid, timestamp DESC)"@
    ]
}

/// The statement that records schema version 1 as applied.
pub open spec fn record_v1_sql() -> Seq<char> {
    "INSERT INTO schema_migrations (version) VALUES (1)"@
}

/// The statements of the migration to schema version 1, in order: the
/// tables, their indexes, and the record of the migration.
pub open spec fn migration_v1_sql() -> Seq<Seq<char>> {
    v1_tables().map_values(|b: Seq<char>| create_table_sql(b)) + v1_indexes().map_values(
        |b: Seq<char>| create_index_sql(b),
    ) + seq![record_v1_sql()]
}

/// A statement that only creates a table or an index when it is missing.
pub open spec fn creates_if_missing(s: Seq<char>) -> bool {
    s.len() >= 27 && (s.subrange(0, 27) == "CREATE TABLE IF NOT EXISTS "@ || s.subrange(0, 27) == "CREATE INDEX IF NOT EXISTS "@)
}

/// Law: running the migration to version 1 again changes no data. Every
/// statement but the last only creates a table or an index when it is
/// missing (none drops or rewrites one), and the last records version 1 in
/// `schema_migrations`, whose `version` column is its primary key, so a second
/// run fails on that key and leaves the recorded versions as they were.
pub proof fn lemma_migration_v1_rerun_keeps_data()
    ensures
        forall|i: int| 0 <= i < migration_v1_sql().len() - 1 ==> creates_if_missing(#[trigger] migration_v1_sql()[i]),
        migration_v1_sql().last() == "INSERT INTO schema_migrations (version) VALUES (1)"@,
        "CREATE TABLE IF NOT EXISTS schema_migrations (version INTEGER PRIMARY KEY, applied_at TEXT DEFAULT CURRENT_TIMESTAMP)"@.subrange(46, 73) == "version INTEGER PRIMARY KEY"@,
{
    reveal_strlit("CREATE TABLE IF NOT EXISTS ");
    reveal_strlit("CREATE INDEX IF NOT EXISTS ");
    reveal_strlit("CREATE TABLE IF NOT EXISTS schema_migrations (version INTEGER PRIMARY KEY, applied_at TEXT DEFAULT CURRENT_TIMESTAMP)");
    reveal_strlit("version INTEGER PRIMARY KEY");
    assert("CREATE TABLE IF NOT EXISTS schema_migrations (version INTEGER PRIMARY KEY, applied_at TEXT DEFAULT CURRENT_TIMESTAMP)"@.subrange(46, 73) =~= "version INTEGER PRIMARY KEY"@);
    let m = migration_v1_sql();
    let nt = v1_tables().len() as int;
    assert forall|i: int| 0 <= i < m.len() - 1 implies creates_if_missing(#[trigger] m[i]) by {
        if i < nt {
            assert(m[i] == create_table_sql(v1_tables()[i]));
            assert(m[i].subrange(0, 27) =~= "CREATE TABLE IF NOT EXISTS "@);
        } else {
            assert(m[i] == create_index_sql(v1_indexes()[i - nt]));
            assert(m[i].subrange(0, 27) =~= "CREATE INDEX IF NOT EXISTS "@);
        }
    }
}

fn create_table(body: &str) -> (s: String)
    ensures
        s@ == create_table_sql(body@),
{
    let mut s = owned("CREATE TABLE IF NOT EXISTS ");
    s.append(body);
    s
}

fn create_index(body: &str) -> (s: String)
    ensures
        s@ == create_index_sql(body@),
{
    let mut s = owned("CREATE INDEX IF NOT EXISTS ");
    s.append(body);
    s
}

/// The statements of the migration to schema version 1.
pub fn migration_v1() -> (r: Vec<String>)
    ensures
        r.deep_view() == migration_v1_sql(),
{
    let r = vec![
        create_table("users (id TEXT PRIMARY KEY, email TEXT, display_name TEXT, created_at TEXT NOT NULL, updated_at TEXT NOT NULL)"),
        create_table("memories (id TEXT PRIMARY KEY, uid TEXT NOT NULL, content TEXT NOT NULL, category TEXT NOT NULL DEFAULT 'manual', created_at TEXT NOT NULL, updated_at TEXT NOT NULL, conversation_id TEXT, reviewed INTEGER NOT NULL DEFAULT 0, user_review INTEGER, visibility TEXT NOT NULL DEFAULT 'private', manually_added INTEGER NOT NULL DEFAULT 1, scoring TEXT, confidence REAL, source_app TEXT, context_summary TEXT, is_read INTEGER NOT NULL DEFAULT 0, is_dismissed INTEGER NOT NULL DEFAULT 0, tags TEXT NOT NULL DEFAULT '[]', reasoning TEXT, current_activity TEXT, window_title TEXT, FOREIGN KEY (uid) REFERENCES users(id))"),
        create_table("conversations (id TEXT PRIMARY KEY, uid TEXT NOT NULL, title TEXT NOT NULL, status TEXT NOT NULL DEFAULT 'active', created_at TEXT NOT NULL, updated_at TEXT NOT NULL, source TEXT, geolocation TEXT, last_message_at TEXT, FOREIGN KEY (uid) REFERENCES users(id))"),
        create_table("messages (id TEXT PRIMARY KEY, uid TEXT NOT NULL, conversation_id TEXT NOT NULL, role TEXT NOT NULL, content TEXT NOT NULL, audio_url TEXT, transcript TEXT, created_at TEXT NOT NULL, rating INTEGER, person_id TEXT, FOREIGN KEY (uid) REFERENCES users(id), FOREIGN KEY (conversation_id) REFERENCES conversations(id))"),
        create_table("action_items (id TEXT PRIMARY KEY, uid TEXT NOT NULL, content TEXT NOT NULL, completed INTEGER NOT NULL DEFAULT 0, due_date TEXT, priority INTEGER NOT NULL DEFAULT 0, conversation_id TEXT, created_at TEXT NOT NULL, updated_at TEXT NOT NULL, score REAL, FOREIGN KEY (uid) REFERENCES users(id), FOREIGN KEY (conversation_id) REFERENCES conversations(id))"),
        create_table("focus_sessions (id TEXT PRIMARY KEY, uid TEXT NOT NULL, start_time TEXT NOT NULL, end_time TEXT, focus_type TEXT, distraction_events TEXT NOT NULL DEFAULT '[]', created_at TEXT NOT NULL, FOREIGN KEY (uid) REFERENCES users(id))"),
        create_table("goals (id TEXT PRIMARY KEY, uid TEXT NOT NULL, title TEXT NOT NULL, goal_type TEXT NOT NULL, target_date TEXT, progress REAL NOT NULL DEFAULT 0, created_at TEXT NOT NULL, updated_at TEXT NOT NULL, FOREIGN KEY (uid) REFERENCES users(id))"),
        create_table("goal_history (id TEXT PRIMARY KEY, uid TEXT NOT NULL, goal_id TEXT NOT NULL, date TEXT NOT NULL, progress REAL NOT NULL, FOREIGN KEY (uid) REFERENCES users(id), FOREIGN KEY (goal_id) REFERENCES goals(id))"),
        create_table("user_settings (uid TEXT PRIMARY KEY, daily_summary_enabled INTEGER NOT NULL DEFAULT 1, notification_settings TEXT NOT NULL DEFAULT '{}', transcription_preferences TEXT NOT NULL DEFAULT '{}', ai_user_profile TEXT, FOREIGN KEY (uid) REFERENCES users(id))"),
        create_table("folders (id TEXT PRIMARY KEY, uid TEXT NOT NULL, name TEXT NOT NULL, icon TEXT, color TEXT, sort_order INTEGER NOT NULL DEFAULT 0, created_at TEXT NOT NULL, updated_at TEXT NOT NULL, FOREIGN KEY (uid) REFERENCES users(id))"),
        create_table("chat_sessions (id TEXT PRIMARY KEY, uid TEXT NOT NULL, title TEXT NOT NULL, model_id TEXT, created_at TEXT NOT NULL, updated_at TEXT NOT NULL, FOREIGN KEY (uid) REFERENCES users(id))"),
        create_table("personas (id TEXT PRIMARY KEY, uid TEXT NOT NULL, name TEXT NOT NULL, description TEXT, prompt TEXT, avatar_url TEXT, personality_type TEXT, created_at TEXT NOT NULL, updated_at TEXT NOT NULL, FOREIGN KEY (uid) REFERENCES users(id))"),
        create_table("advice (id TEXT PRIMARY KEY, uid TEXT NOT NULL, title TEXT NOT NULL, content TEXT NOT NULL, category TEXT NOT NULL, reasoning TEXT, source TEXT, is_enabled INTEGER NOT NULL DEFAULT 1, created_at TEXT NOT NULL, updated_at TEXT NOT NULL, FOREIGN KEY (uid) REFERENCES users(id))"),
        create_table("kg_nodes (id TEXT PRIMARY KEY, uid TEXT NOT NULL, entity_type TEXT NOT NULL, entity_id TEXT NOT NULL, content TEXT NOT NULL, confidence REAL NOT NULL DEFAULT 1.0, source TEXT, created_at TEXT NOT NULL, FOREIGN KEY (uid) REFERENCES users(id))"),
        create_table("kg_edges (id TEXT PRIMARY KEY, uid TEXT NOT NULL, source_node_id TEXT NOT NULL, target_node_id TEXT NOT NULL, relationship TEXT NOT NULL, confidence REAL NOT NULL DEFAULT 1.0, created_at TEXT NOT NULL, FOREIGN KEY (uid) REFERENCES users(id), FOREIGN KEY (source_node_id) REFERENCES kg_nodes(id), FOREIGN KEY (target_node_id) REFERENCES kg_nodes(id))"),
        create_table("people (id TEXT PRIMARY KEY, uid TEXT NOT NULL, name TEXT NOT NULL, email TEXT, phone TEXT, avatar_url TEXT, notes TEXT, created_at TEXT NOT NULL, updated_at TEXT NOT NULL, FOREIGN KEY (uid) REFERENCES users(id))"),
        create_table("llm_usage (id TEXT PRIMARY KEY, uid TEXT NOT NULL, model_id TEXT NOT NULL, input_tokens INTEGER NOT NULL, output_tokens INTEGER NOT NULL, total_tokens INTEGER NOT NULL, cost_usd REAL, created_at TEXT NOT NULL, FOREIGN KEY (uid) REFERENCES users(id))"),
        create_table("screen_activity (id TEXT PRIMARY KEY, uid TEXT NOT NULL, window_title TEXT NOT NULL, app_name TEXT NOT NULL, duration_seconds INTEGER NOT NULL, timestamp TEXT NOT NULL, FOREIGN KEY (uid) REFERENCES users(id))"),
        create_index("idx_memories_uid ON memories(uid)"),
        create_index("idx_memories_uid_category ON memories(uid, category)"),
        create_index("idx_memories_uid_created ON memories(uid, created_at DESC)"),
        create_index("idx_conversations_uid ON conversations(uid)"),
        create_index("idx_conversations_uid_last_message ON conversations(uid, last_message_at DESC)"),
        create_index("idx_messages_uid_conv ON messages(uid, conversation_id)"),
        create_index("idx_messages_uid_created ON messages(uid, created_at)"),
        create_index("idx_action_items_uid ON action_items(uid)"),
        create_index("idx_action_items_uid_completed ON action_items(uid, completed)"),
        create_index("idx_focus_sessions_uid ON focus_sessions(uid)"),
        create_index("idx_focus_sessions_uid_start ON focus_sessions(uid, start_time DESC)"),
        create_index("idx_goals_uid ON goals(uid)"),
        create_index("idx_folders_uid ON folders(uid)"),
        create_index("idx_folders_uid_sort ON folders(uid, sort_order)"),
        create_index("idx_chat_sessions_uid ON chat_sessions(uid)"),
        create_index("idx_personas_uid ON personas(uid)"),
        create_index("idx_advice_uid ON advice(uid)"),
        create_index("idx_kg_nodes_uid ON kg_nodes(uid)"),
        create_index("idx_kg_edges_uid ON kg_edges(uid)"),
        create_index("idx_people_uid ON people(uid)"),
        create_index("idx_llm_usage_uid ON llm_usage(uid)"),
        create_index("idx_screen_activity_uid ON screen_activity(uid)"),
        create_index("idx_screen_activity_uid_timestamp ON screen_activity(uid, timestamp DESC)"),
        owned("INSERT INTO schema_migrations (version) VALUES (1)")
    ];
    assert(r.deep_view() =~= migration_v1_sql());
    r
}

/// The statements that migrate the schema to `version`; only version 1
/// exists.
pub fn migration_statements(version: i32) -> (r: Vec<String>)
    ensures
        version == 1 ==> r.deep_view() == migration_v1_sql(),
        version != 1 ==> r.len() == 0,
{
    if version == 1 {
        migration_v1()
    } else {
        Vec::new()
    }
}

} // verus!
