use omi_store::clock::Ymd;
use omi_store::migrations::migration_v1;
use omi_store::json::{decode_strings, encode_strings};
use omi_store::model::{
    FolderInput, MemoryInput, MemoryUpdate, MessageUpdate, Pagination, QueryFilter, Real,
    ScoreUpdate, SegmentAssignment, StorageBackend, StorageConfig, Timestamp,
};
use omi_store::repo::{action_items, folders, graph, memories, messages, people, settings};
use omi_store::sql::{SqlValue, Statement};
use omi_store::text::decimal_string;

fn t(s: &str) -> SqlValue {
    SqlValue::Text(s.to_string())
}

const NOW: Timestamp = Timestamp { secs: 1_700_000_000, nanos: 5 };

#[test]
fn decimal_rendering() {
    assert_eq!(decimal_string(0), "0");
    assert_eq!(decimal_string(7), "7");
    assert_eq!(decimal_string(10), "10");
    assert_eq!(decimal_string(12345), "12345");
    assert_eq!(decimal_string(u64::MAX), "18446744073709551615");
}

#[test]
fn memory_update_numbers_placeholders_in_order() {
    let u = MemoryUpdate {
        content: Some("new text".to_string()),
        visibility: None,
        is_read: Some(true),
        is_dismissed: None,
        tags: Some(vec!["a".to_string(), "b".to_string()]),
    };
    let st = memories::update_memory_at("u1", "m1", u, NOW);
    assert_eq!(
        st.sql,
        "UPDATE memories SET updated_at = ?1, content = ?2, is_read = ?3, tags = ?4 WHERE id = ?5 AND uid = ?6"
    );
    assert_eq!(
        st.params,
        vec![
            SqlValue::DateTime(NOW),
            t("new text"),
            SqlValue::Bool(true),
            t("[\"a\",\"b\"]"),
            t("m1"),
            t("u1"),
        ]
    );
}

#[test]
fn memory_update_with_no_field_still_touches_update_time() {
    let u = MemoryUpdate { content: None, visibility: None, is_read: None, is_dismissed: None, tags: None };
    let st = memories::update_memory_at("u1", "m1", u, NOW);
    assert_eq!(st.sql, "UPDATE memories SET updated_at = ?1 WHERE id = ?2 AND uid = ?3");
    assert_eq!(st.params, vec![SqlValue::DateTime(NOW), t("m1"), t("u1")]);
}

#[test]
fn message_update_without_fields_builds_nothing() {
    let none = MessageUpdate { content: None, transcript: None };
    assert!(messages::update_message("u", "c", "m", none).is_none());
    let some = MessageUpdate { content: None, transcript: Some("hello".to_string()) };
    let st = messages::update_message("u", "c", "m", some).unwrap();
    assert_eq!(
        st.sql,
        "UPDATE messages SET transcript = ?1 WHERE id = ?2 AND uid = ?3 AND conversation_id = ?4"
    );
    assert_eq!(st.params, vec![t("hello"), t("m"), t("u"), t("c")]);
}

#[test]
fn settings_update_binds_uid_last() {
    let c = settings::SettingsChanges {
        daily_summary_enabled: Some(false),
        notification_settings_json: None,
        transcription_preferences_json: Some("{}".to_string()),
        ai_user_profile_json: None,
    };
    let st = settings::update_settings("u9", c).unwrap();
    assert_eq!(
        st.sql,
        "UPDATE user_settings SET daily_summary_enabled = ?1, transcription_preferences = ?2 WHERE uid = ?3"
    );
    assert_eq!(st.params, vec![SqlValue::Bool(false), t("{}"), t("u9")]);
}

#[test]
fn memory_listing_with_all_filters() {
    let f = QueryFilter { category: Some("work".to_string()), tags: Some("x".to_string()), include_dismissed: false };
    let st = memories::list_memories("u1", f, Pagination { limit: 20, offset: 5 });
    assert!(st.sql.starts_with("SELECT id, uid, content, category"));
    assert!(st.sql.ends_with(
        "FROM memories WHERE uid = ?1 AND is_dismissed = 0 AND category = ?2 AND tags LIKE ?3 ORDER BY created_at DESC LIMIT 20 OFFSET 5"
    ));
    assert_eq!(st.params, vec![t("u1"), t("work"), t("%x%")]);
}

#[test]
fn memory_listing_tags_only_takes_second_placeholder() {
    let f = QueryFilter { category: None, tags: Some("y".to_string()), include_dismissed: true };
    let st = memories::list_memories("u1", f, Pagination { limit: 0, offset: 0 });
    assert!(st.sql.ends_with(
        "FROM memories WHERE uid = ?1 AND tags LIKE ?2 ORDER BY created_at DESC LIMIT 0 OFFSET 0"
    ));
    assert_eq!(st.params, vec![t("u1"), t("%y%")]);
}

fn memory_input(category: Option<&str>) -> MemoryInput {
    MemoryInput {
        content: "c".to_string(),
        visibility: "private".to_string(),
        category: category.map(|c| c.to_string()),
        confidence: Some(Real { bits: 0.5f64.to_bits() }),
        source_app: None,
        context_summary: None,
        tags: vec![],
        reasoning: None,
        current_activity: None,
        source: None,
        window_title: None,
    }
}

#[test]
fn created_memory_defaults_to_manual_category() {
    let st = memories::create_memory_at("ID".to_string(), NOW, "u", memory_input(None));
    assert_eq!(st.params[3], t("manual"));
    assert_eq!(st.params[7], SqlValue::Bool(true));
    assert_eq!(st.params[8], t("[]"));
    assert_eq!(st.params.len(), 15);
    assert_eq!(st.params[14], SqlValue::Real(Real { bits: 0.5f64.to_bits() }));
    assert_eq!(
        st.sql,
        "INSERT INTO memories (id, uid, content, category, created_at, updated_at, visibility, manually_added, tags, reasoning, current_activity, window_title, source_app, context_summary, confidence) VALUES (?1, ?2, ?3, ?4, ?5, ?6, ?7, ?8, ?9, ?10, ?11, ?12, ?13, ?14, ?15)"
    );
    let st = memories::create_memory_at("ID".to_string(), NOW, "u", memory_input(Some("idea")));
    assert_eq!(st.params[3], t("idea"));
}

#[test]
fn fresh_identifiers_are_ulids() {
    let (id, st) = memories::create_memory("u", memory_input(None));
    assert_eq!(id.len(), 26);
    assert!(id.chars().all(|c| "0123456789ABCDEFGHJKMNPQRSTVWXYZ".contains(c)));
    assert_eq!(st.params[0], t(&id));
    let (id2, _) = memories::create_memory("u", memory_input(None));
    assert_ne!(id, id2);
}

#[test]
fn folder_sort_order_follows_the_highest() {
    assert_eq!(folders::next_sort_order(None), 1);
    assert_eq!(folders::next_sort_order(Some(4)), 5);
    assert_eq!(folders::next_sort_order(Some(-3)), -2);
    let (_, st) = folders::create_folder_after(
        "u",
        FolderInput { name: "n".to_string(), icon: None, color: Some("red".to_string()) },
        Some(9),
    );
    assert_eq!(st.params[5], SqlValue::Integer(10));
    assert_eq!(st.params[3], SqlValue::Null);
    assert_eq!(st.params[4], t("red"));
}

#[test]
fn reordering_gives_listed_positions() {
    let ids = vec!["f3".to_string(), "f1".to_string(), "f2".to_string()];
    let sts = folders::reorder_folders("u", &ids);
    assert_eq!(sts.len(), 3);
    for (k, st) in sts.iter().enumerate() {
        assert_eq!(st.sql, "UPDATE folders SET sort_order = ?1 WHERE id = ?2 AND uid = ?3");
        assert_eq!(st.params, vec![SqlValue::Integer(k as i64), t(&ids[k]), t("u")]);
    }
}

#[test]
fn batch_scores_keep_order() {
    let ups = vec![
        ScoreUpdate { id: "a".to_string(), score: Real { bits: 1.5f64.to_bits() } },
        ScoreUpdate { id: "b".to_string(), score: Real { bits: 2.5f64.to_bits() } },
    ];
    let sts: Vec<Statement> = action_items::batch_update_scores("u", ups);
    assert_eq!(sts.len(), 2);
    assert_eq!(sts[0].params, vec![SqlValue::Real(Real { bits: 1.5f64.to_bits() }), t("a"), t("u")]);
    assert_eq!(sts[1].params, vec![SqlValue::Real(Real { bits: 2.5f64.to_bits() }), t("b"), t("u")]);
}

#[test]
fn segments_bind_row_indexes() {
    let segs = vec![SegmentAssignment { conversation_id: "c".to_string(), segment_index: 7, speaker_label: None }];
    let sts = people::assign_conversation_segments("u", "p", &segs);
    assert_eq!(
        sts[0].sql,
        "UPDATE messages SET person_id = ?1 WHERE uid = ?2 AND conversation_id = ?3 AND rowid = ?4"
    );
    assert_eq!(sts[0].params, vec![t("p"), t("u"), t("c"), SqlValue::Integer(7)]);
}

#[test]
fn graph_node_deletion_and_rebuild() {
    let e = graph::delete_node_edges("n1");
    assert_eq!(e.sql, "DELETE FROM kg_edges WHERE source_node_id = ?1 OR target_node_id = ?1");
    assert_eq!(e.params, vec![t("n1")]);
    let both = graph::delete_node("u", "n1");
    assert_eq!(both.len(), 2);
    assert_eq!(both[0], e);
    assert_eq!(both[1].sql, "DELETE FROM kg_nodes WHERE id = ?1 AND uid = ?2");
    assert_eq!(both[1].params, vec![t("n1"), t("u")]);
    let r = graph::rebuild_graph("u");
    assert_eq!((r.nodes_created, r.edges_created), (0, 0));
    let with = graph::list_edges("u", Some("n1".to_string()));
    assert!(with.sql.contains("(source_node_id = ?2 OR target_node_id = ?2)"));
    assert_eq!(with.params, vec![t("u"), t("n1")]);
}

#[test]
fn string_lists_as_json() {
    assert_eq!(encode_strings(&vec!["x".to_string(), "y\"z".to_string()]), "[\"x\",\"y\\\"z\"]");
    assert_eq!(decode_strings("[\"p\",\"q\"]"), vec!["p".to_string(), "q".to_string()]);
    assert_eq!(decode_strings("not json"), Vec::<String>::new());
    assert_eq!(decode_strings("{\"a\":1}"), Vec::<String>::new());
}

#[test]
fn settings_defaults() {
    let s = settings::settings_from_row("u".to_string(), true, None, None, None);
    assert!(s.notification_settings.push_enabled);
    assert!(!s.notification_settings.email_enabled);
    assert!(s.transcription_preferences.auto_transcribe);
    assert!(s.transcription_preferences.language.is_none());
    assert!(s.ai_user_profile.is_none());
}

#[test]
fn storage_defaults() {
    let c = StorageConfig::default();
    assert_eq!(c.backend, StorageBackend::Sqlite);
    assert!(c.sqlite_path.is_none());
    assert!(c.offline_first);
}

#[test]
fn ymd_is_plain_data() {
    let d = Ymd { year: 2024, month: 2, day: 29 };
    assert_eq!(d, Ymd { year: 2024, month: 2, day: 29 });
}

#[test]
fn memory_listing_placeholders_are_numbered_in_order() {
    for mask in 0..8u8 {
        let f = QueryFilter {
            category: if mask & 1 != 0 { Some("work".to_string()) } else { None },
            tags: if mask & 2 != 0 { Some("x".to_string()) } else { None },
            include_dismissed: mask & 4 != 0,
        };
        let st = memories::list_memories("u", f, Pagination { limit: 3, offset: 1 });
        let numbers: Vec<usize> = st
            .sql
            .split('?')
            .skip(1)
            .map(|rest| rest.chars().take_while(|c| c.is_ascii_digit()).collect::<String>().parse().unwrap())
            .collect();
        let expected: Vec<usize> = (1..=st.params.len()).collect();
        assert_eq!(numbers, expected);
    }
}

#[test]
fn memory_insert_names_only_table_columns() {
    let st = memories::create_memory_at("ID".to_string(), NOW, "u", memory_input(None));
    let table = &migration_v1()[1];
    let cols = st.sql["INSERT INTO memories (".len()..st.sql.find(") VALUES").unwrap()].to_string();
    for c in cols.split(", ") {
        assert!(table.contains(&format!("({} ", c)) || table.contains(&format!(", {} ", c)), "{}", c);
    }
}

#[test]
fn string_lists_escape_as_serde_json_does() {
    let items = vec![
        "tab\there".to_string(),
        "\u{1}\u{1f}\u{8}\u{c}\r\n".to_string(),
        "back\\slash".to_string(),
        "é/ü\u{7f}".to_string(),
    ];
    assert_eq!(
        encode_strings(&items),
        "[\"tab\\there\",\"\\u0001\\u001f\\b\\f\\r\\n\",\"back\\\\slash\",\"é/ü\u{7f}\"]"
    );
    assert_eq!(encode_strings(&Vec::new()), "[]");
}
