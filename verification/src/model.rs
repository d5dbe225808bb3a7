//! The records read and written by the repositories.
use vstd::prelude::*;

verus! {

/// A 64-bit floating-point number carried by its IEEE-754 bit pattern; the
/// library stores and passes it on without computing with it.
#[derive(Clone, Copy, PartialEq, Eq, Structural, Debug)]
pub struct Real {
    pub bits: u64,
}

/// A UTC instant: whole seconds since the Unix epoch and the nanoseconds
/// within that second.
#[derive(Clone, Copy, PartialEq, Eq, Structural, Debug)]
pub struct Timestamp {
    pub secs: i64,
    pub nanos: u32,
}

/// Storage backend type.
#[derive(Clone, Copy, PartialEq, Eq, Structural, Debug)]
pub enum StorageBackend {
    /// SQLite local storage.
    Sqlite,
    /// Firestore.
    Firestore,
    /// SQLite for local data, Firestore for sync.
    Hybrid,
}

/// Storage configuration.
#[derive(Debug)]
pub struct StorageConfig {
    /// Backend type to use.
    pub backend: StorageBackend,
    /// SQLite database path, when SQLite is used.
    pub sqlite_path: Option<String>,
    /// Whether offline-first mode is enabled.
    pub offline_first: bool,
}

impl Default for StorageConfig {
    /// SQLite, no explicit path, offline-first.
    fn default() -> (c: Self)
        ensures
            c.backend == StorageBackend::Sqlite,
            c.sqlite_path.is_none(),
            c.offline_first,
    {
        StorageConfig { backend: StorageBackend::Sqlite, sqlite_path: None, offline_first: true }
    }
}

/// Pagination parameters.
#[derive(Clone, Copy, Debug)]
pub struct Pagination {
    pub limit: usize,
    pub offset: usize,
}

/// Filter criteria for memory queries.
#[derive(Debug)]
pub struct QueryFilter {
    pub category: Option<String>,
    pub tags: Option<String>,
    pub include_dismissed: bool,
}

/// Memory input for creation.
#[derive(Debug)]
pub struct MemoryInput {
    pub content: String,
    pub visibility: String,
    pub category: Option<String>,
    pub confidence: Option<Real>,
    pub source_app: Option<String>,
    pub context_summary: Option<String>,
    pub tags: Vec<String>,
    pub reasoning: Option<String>,
    pub current_activity: Option<String>,
    pub source: Option<String>,
    pub window_title: Option<String>,
}

/// Memory update fields.
#[derive(Debug)]
pub struct MemoryUpdate {
    pub content: Option<String>,
    pub visibility: Option<String>,
    pub is_read: Option<bool>,
    pub is_dismissed: Option<bool>,
    pub tags: Option<Vec<String>>,
}

/// Conversation input; the geolocation is passed to the statement already
/// encoded as JSON.
#[derive(Debug)]
pub struct ConversationInput {
    pub title: String,
    pub source: Option<String>,
}

/// Conversation update fields.
#[derive(Debug)]
pub struct ConversationUpdate {
    pub title: Option<String>,
    pub status: Option<String>,
    pub last_message_at: Option<Timestamp>,
}

/// Message input.
#[derive(Debug)]
pub struct MessageInput {
    pub role: String,
    pub content: String,
    pub audio_url: Option<String>,
    pub transcript: Option<String>,
}

/// Message update fields.
#[derive(Debug)]
pub struct MessageUpdate {
    pub content: Option<String>,
    pub transcript: Option<String>,
}

/// Action item input.
#[derive(Debug)]
pub struct ActionItemInput {
    pub content: String,
    pub completed: bool,
    pub due_date: Option<Timestamp>,
    pub priority: Option<i32>,
    pub conversation_id: Option<String>,
}

/// Action item update fields.
#[derive(Debug)]
pub struct ActionItemUpdate {
    pub content: Option<String>,
    pub completed: Option<bool>,
    pub due_date: Option<Timestamp>,
    pub priority: Option<i32>,
}

/// Score update for batch operations.
#[derive(Debug)]
pub struct ScoreUpdate {
    pub id: String,
    pub score: Real,
}

/// Focus session input.
#[derive(Debug)]
pub struct FocusSessionInput {
    pub start_time: Timestamp,
    pub end_time: Option<Timestamp>,
    pub focus_type: Option<String>,
    pub distraction_events: Vec<String>,
}

/// Focus session update fields.
#[derive(Debug)]
pub struct FocusSessionUpdate {
    pub end_time: Option<Timestamp>,
    pub focus_type: Option<String>,
    pub distraction_events: Option<Vec<String>>,
}

/// Goal input.
#[derive(Debug)]
pub struct GoalInput {
    pub title: String,
    pub goal_type: String,
    pub target_date: Option<Timestamp>,
    pub progress: Real,
}

/// Goal update fields.
#[derive(Debug)]
pub struct GoalUpdate {
    pub title: Option<String>,
    pub goal_type: Option<String>,
    pub target_date: Option<Timestamp>,
    pub progress: Option<Real>,
}

/// User settings output.
#[derive(Debug)]
pub struct UserSettingsOutput {
    pub uid: String,
    pub daily_summary_enabled: bool,
    pub notification_settings: NotificationSettingsOutput,
    pub transcription_preferences: TranscriptionPreferencesOutput,
    pub ai_user_profile: Option<AiUserProfileOutput>,
}

/// Notification settings output.
#[derive(Debug)]
pub struct NotificationSettingsOutput {
    pub push_enabled: bool,
    pub email_enabled: bool,
    pub quiet_hours_start: Option<String>,
    pub quiet_hours_end: Option<String>,
}

/// Transcription preferences output.
#[derive(Debug)]
pub struct TranscriptionPreferencesOutput {
    pub auto_transcribe: bool,
    pub language: Option<String>,
}

/// AI user profile output.
#[derive(Debug)]
pub struct AiUserProfileOutput {
    pub name: Option<String>,
    pub bio: Option<String>,
}

/// User settings update.
#[derive(Debug)]
pub struct UserSettingsUpdate {
    pub daily_summary_enabled: Option<bool>,
    pub notification_settings: Option<NotificationSettingsOutput>,
    pub transcription_preferences: Option<TranscriptionPreferencesOutput>,
    pub ai_user_profile: Option<AiUserProfileOutput>,
}

/// Folder input.
#[derive(Debug)]
pub struct FolderInput {
    pub name: String,
    pub icon: Option<String>,
    pub color: Option<String>,
}

/// Folder update fields.
#[derive(Debug)]
pub struct FolderUpdate {
    pub name: Option<String>,
    pub icon: Option<String>,
    pub color: Option<String>,
    pub sort_order: Option<i32>,
}

/// Chat session input.
#[derive(Debug)]
pub struct ChatSessionInput {
    pub title: String,
    pub model_id: Option<String>,
}

/// Chat session update fields.
#[derive(Debug)]
pub struct ChatSessionUpdate {
    pub title: Option<String>,
    pub model_id: Option<String>,
}

/// Persona input.
#[derive(Debug)]
pub struct PersonaInput {
    pub name: String,
    pub description: Option<String>,
    pub prompt: Option<String>,
    pub avatar_url: Option<String>,
    pub personality_type: Option<String>,
}

/// Persona update fields.
#[derive(Debug)]
pub struct PersonaUpdate {
    pub name: Option<String>,
    pub description: Option<String>,
    pub prompt: Option<String>,
    pub avatar_url: Option<String>,
    pub personality_type: Option<String>,
}

/// Advice input.
#[derive(Debug)]
pub struct AdviceInput {
    pub title: String,
    pub content: String,
    pub category: String,
    pub reasoning: Option<String>,
    pub source: Option<String>,
}

/// Advice update fields.
#[derive(Debug)]
pub struct AdviceUpdate {
    pub title: Option<String>,
    pub content: Option<String>,
    pub category: Option<String>,
    pub is_enabled: Option<bool>,
}

/// Knowledge graph node input.
#[derive(Debug)]
pub struct KgNodeInput {
    pub entity_type: String,
    pub entity_id: String,
    pub content: String,
    pub confidence: Real,
    pub source: Option<String>,
}

/// Knowledge graph node update.
#[derive(Debug)]
pub struct KgNodeUpdate {
    pub content: Option<String>,
    pub confidence: Option<Real>,
}

/// Knowledge graph edge input.
#[derive(Debug)]
pub struct KgEdgeInput {
    pub source_node_id: String,
    pub target_node_id: String,
    pub relationship: String,
    pub confidence: Real,
}

/// Rebuild graph output.
#[derive(Clone, Copy, Debug)]
pub struct RebuildGraphOutput {
    pub nodes_created: i32,
    pub edges_created: i32,
}

/// Person input.
#[derive(Debug)]
pub struct PersonInput {
    pub name: String,
    pub email: Option<String>,
    pub phone: Option<String>,
    pub avatar_url: Option<String>,
    pub notes: Option<String>,
}

/// Person update fields.
#[derive(Debug)]
pub struct PersonUpdate {
    pub name: Option<String>,
    pub email: Option<String>,
    pub phone: Option<String>,
    pub avatar_url: Option<String>,
    pub notes: Option<String>,
}

/// Segment assignment for a conversation.
#[derive(Debug)]
pub struct SegmentAssignment {
    pub conversation_id: String,
    pub segment_index: i32,
    pub speaker_label: Option<String>,
}

/// LLM usage input.
#[derive(Debug)]
pub struct LlmUsageInput {
    pub model_id: String,
    pub input_tokens: i32,
    pub output_tokens: i32,
    pub total_tokens: i32,
    pub cost_usd: Option<Real>,
}

/// Screen activity input.
#[derive(Debug)]
pub struct ScreenActivityInput {
    pub window_title: String,
    pub app_name: String,
    pub duration_seconds: i32,
    pub timestamp: Timestamp,
}

/// Staged task row (matches the staged_tasks table schema).
#[derive(Debug)]
pub struct StagedTaskDB {
    pub id: String,
    pub user_id: String,
    pub title: String,
    pub description: String,
    pub relevance_score: i32,
    pub created_at: String,
    pub metadata: Option<String>,
}

} // verus!
