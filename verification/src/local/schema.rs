//! The schema of the local database.
use vstd::prelude::*;
use vstd::string::*;

use crate::text::owned;

verus! {

/// The statements that create the local database's tables and indexes when
/// they are missing, in order.
pub open spec fn local_schema_sql() -> Seq<Seq<char>> {
    seq![
        "CREATE TABLE IF NOT EXISTS conversations (id TEXT PRIMARY KEY, title TEXT NOT NULL DEFAULT '', folder_id TEXT, created_at TEXT NOT NULL, updated_at TEXT NOT NULL, last_message_time TEXT, conversation_type TEXT NOT NULL DEFAULT 'personal', metadata TEXT, is_starred INTEGER NOT NULL DEFAULT 0, visibility TEXT NOT NULL DEFAULT 'private', share_link TEXT, transcript TEXT);"@,
        "CREATE TABLE IF NOT EXISTS folders (id TEXT PRIMARY KEY, name TEXT NOT NULL, color TEXT NOT NULL DEFAULT '9b9b9b', icon TEXT NOT NULL DEFAULT 'folder', created_at TEXT NOT NULL, sort_order INTEGER NOT NULL DEFAULT 0, user_id TEXT NOT NULL);"@,
        "CREATE TABLE IF NOT EXISTS memories (id TEXT PRIMARY KEY, user_id TEXT NOT NULL, content TEXT NOT NULL, category TEXT NOT NULL DEFAULT 'general', created_at TEXT NOT NULL, updated_at TEXT NOT NULL, is_read INTEGER NOT NULL DEFAULT 0, is_dismissed INTEGER NOT NULL DEFAULT 0, visibility TEXT NOT NULL DEFAULT 'private', relevance_score INTEGER NOT NULL DEFAULT 0);"@,
        "CREATE TABLE IF NOT EXISTS action_items (id TEXT PRIMARY KEY, user_id TEXT NOT NULL, title TEXT NOT NULL, description TEXT NOT NULL DEFAULT '', due_date TEXT, completed_at TEXT, created_at TEXT NOT NULL, updated_at TEXT NOT NULL, status TEXT NOT NULL DEFAULT 'pending', relevance_score INTEGER NOT NULL DEFAULT 0, source TEXT NOT NULL DEFAULT 'manual', metadata TEXT);"@,
        "CREATE TABLE IF NOT EXISTS staged_tasks (id TEXT PRIMARY KEY, user_id TEXT NOT NULL, title TEXT NOT NULL, description TEXT NOT NULL DEFAULT '', relevance_score INTEGER NOT NULL DEFAULT 0, created_at TEXT NOT NULL, metadata TEXT);"@,
        "CREATE TABLE IF NOT EXISTS goals (id TEXT PRIMARY KEY, user_id TEXT NOT NULL, title TEXT NOT NULL, goal_type TEXT NOT NULL DEFAULT 'binary', target_date TEXT, current_value REAL NOT NULL DEFAULT 0, target_value REAL NOT NULL DEFAULT 1, status TEXT NOT NULL DEFAULT 'active', created_at TEXT NOT NULL, updated_at TEXT NOT NULL, metadata TEXT);"@,
        "CREATE TABLE IF NOT EXISTS messages (id TEXT PRIMARY KEY, conversation_id TEXT NOT NULL, role TEXT NOT NULL, content TEXT NOT NULL, created_at TEXT NOT NULL, updated_at TEXT NOT NULL, metadata TEXT);"@,
        "CREATE TABLE IF NOT EXISTS chat_sessions (id TEXT PRIMARY KEY, user_id TEXT NOT NULL, title TEXT NOT NULL, created_at TEXT NOT NULL, updated_at TEXT NOT NULL, app_id TEXT);"@,
        "CREATE TABLE IF NOT EXISTS user_settings (key TEXT PRIMARY KEY, value TEXT NOT NULL);"@,
        "CREATE TABLE IF NOT EXISTS focus_sessions (id TEXT PRIMARY KEY, user_id TEXT NOT NULL, start_time TEXT NOT NULL, end_time TEXT, duration_secs INTEGER NOT NULL DEFAULT 0, distraction_count INTEGER NOT NULL DEFAULT 0, metadata TEXT);"@,
        "CREATE INDEX IF NOT EXISTS idx_conversations_folder ON conversations(folder_id);"@,
        "CREATE INDEX IF NOT EXISTS idx_conversations_starred ON conversations(is_starred);"@,
        "CREATE INDEX IF NOT EXISTS idx_memories_user ON memories(user_id);"@,
        "CREATE INDEX IF NOT EXISTS idx_action_items_user ON action_items(user_id);"@,
        "CREATE INDEX IF NOT EXISTS idx_action_items_status ON action_items(status);"@,
        "CREATE INDEX IF NOT EXISTS idx_staged_tasks_user ON staged_tasks(user_id);"@,
        "CREATE INDEX IF NOT EXISTS idx_goals_user ON goals(user_id);"@,
        "CREATE INDEX IF NOT EXISTS idx_messages_conversation ON messages(conversation_id);"@,
        "CREATE INDEX IF NOT EXISTS idx_chat_sessions_user ON chat_sessions(user_id);"@,
        "CREATE TABLE IF NOT EXISTS screen_activity (id INTEGER PRIMARY KEY, user_id TEXT NOT NULL, timestamp TEXT NOT NULL, app_name TEXT NOT NULL DEFAULT '', window_title TEXT NOT NULL DEFAULT '', ocr_text TEXT NOT NULL DEFAULT '', embedding BLOB);"@,
        "CREATE INDEX IF NOT EXISTS idx_screen_activity_user ON screen_activity(user_id);"@
    ]
}

/// The statements that create the local database's tables and indexes.
pub fn init_schema() -> (r: Vec<String>)
    ensures
        r.deep_view() == local_schema_sql(),
{
    let r = vec![
        owned("CREATE TABLE IF NOT EXISTS conversations (id TEXT PRIMARY KEY, title TEXT NOT NULL DEFAULT '', folder_id TEXT, created_at TEXT NOT NULL, updated_at TEXT NOT NULL, last_message_time TEXT, conversation_type TEXT NOT NULL DEFAULT 'personal', metadata TEXT, is_starred INTEGER NOT NULL DEFAULT 0, visibility TEXT NOT NULL DEFAULT 'private', share_link TEXT, transcript TEXT);"),
        owned("CREATE TABLE IF NOT EXISTS folders (id TEXT PRIMARY KEY, name TEXT NOT NULL, color TEXT NOT NULL DEFAULT '9b9b9b', icon TEXT NOT NULL DEFAULT 'folder', created_at TEXT NOT NULL, sort_order INTEGER NOT NULL DEFAULT 0, user_id TEXT NOT NULL);"),
        owned("CREATE TABLE IF NOT EXISTS memories (id TEXT PRIMARY KEY, user_id TEXT NOT NULL, content TEXT NOT NULL, category TEXT NOT NULL DEFAULT 'general', created_at TEXT NOT NULL, updated_at TEXT NOT NULL, is_read INTEGER NOT NULL DEFAULT 0, is_dismissed INTEGER NOT NULL DEFAULT 0, visibility TEXT NOT NULL DEFAULT 'private', relevance_score INTEGER NOT NULL DEFAULT 0);"),
        owned("CREATE TABLE IF NOT EXISTS action_items (id TEXT PRIMARY KEY, user_id TEXT NOT NULL, title TEXT NOT NULL, description TEXT NOT NULL DEFAULT '', due_date TEXT, completed_at TEXT, created_at TEXT NOT NULL, updated_at TEXT NOT NULL, status TEXT NOT NULL DEFAULT 'pending', relevance_score INTEGER NOT NULL DEFAULT 0, source TEXT NOT NULL DEFAULT 'manual', metadata TEXT);"),
        owned("CREATE TABLE IF NOT EXISTS staged_tasks (id TEXT PRIMARY KEY, user_id TEXT NOT NULL, title TEXT NOT NULL, description TEXT NOT NULL DEFAULT '', relevance_score INTEGER NOT NULL DEFAULT 0, created_at TEXT NOT NULL, metadata TEXT);"),
        owned("CREATE TABLE IF NOT EXISTS goals (id TEXT PRIMARY KEY, user_id TEXT NOT NULL, title TEXT NOT NULL, goal_type TEXT NOT NULL DEFAULT 'binary', target_date TEXT, current_value REAL NOT NULL DEFAULT 0, target_value REAL NOT NULL DEFAULT 1, status TEXT NOT NULL DEFAULT 'active', created_at TEXT NOT NULL, updated_at TEXT NOT NULL, metadata TEXT);"),
        owned("CREATE TABLE IF NOT EXISTS messages (id TEXT PRIMARY KEY, conversation_id TEXT NOT NULL, role TEXT NOT NULL, content TEXT NOT NULL, created_at TEXT NOT NULL, updated_at TEXT NOT NULL, metadata TEXT);"),
        owned("CREATE TABLE IF NOT EXISTS chat_sessions (id TEXT PRIMARY KEY, user_id TEXT NOT NULL, title TEXT NOT NULL, created_at TEXT NOT NULL, updated_at TEXT NOT NULL, app_id TEXT);"),
        owned("CREATE TABLE IF NOT EXISTS user_settings (key TEXT PRIMARY KEY, value TEXT NOT NULL);"),
        owned("CREATE TABLE IF NOT EXISTS focus_sessions (id TEXT PRIMARY KEY, user_id TEXT NOT NULL, start_time TEXT NOT NULL, end_time TEXT, duration_secs INTEGER NOT NULL DEFAULT 0, distraction_count INTEGER NOT NULL DEFAULT 0, metadata TEXT);"),
        owned("CREATE INDEX IF NOT EXISTS idx_conversations_folder ON conversations(folder_id);"),
        owned("CREATE INDEX IF NOT EXISTS idx_conversations_starred ON conversations(is_starred);"),
        owned("CREATE INDEX IF NOT EXISTS idx_memories_user ON memories(user_id);"),
        owned("CREATE INDEX IF NOT EXISTS idx_action_items_user ON action_items(user_id);"),
        owned("CREATE INDEX IF NOT EXISTS idx_action_items_status ON action_items(status);"),
        owned("CREATE INDEX IF NOT EXISTS idx_staged_tasks_user ON staged_tasks(user_id);"),
        owned("CREATE INDEX IF NOT EXISTS idx_goals_user ON goals(user_id);"),
        owned("CREATE INDEX IF NOT EXISTS idx_messages_conversation ON messages(conversation_id);"),
        owned("CREATE INDEX IF NOT EXISTS idx_chat_sessions_user ON chat_sessions(user_id);"),
        owned("CREATE TABLE IF NOT EXISTS screen_activity (id INTEGER PRIMARY KEY, user_id TEXT NOT NULL, timestamp TEXT NOT NULL, app_name TEXT NOT NULL DEFAULT '', window_title TEXT NOT NULL DEFAULT '', ocr_text TEXT NOT NULL DEFAULT '', embedding BLOB);"),
        owned("CREATE INDEX IF NOT EXISTS idx_screen_activity_user ON screen_activity(user_id);")
    ];
    assert(r.deep_view() =~= local_schema_sql());
    r
}

} // verus!
