use omi_store::clock::Ymd;
use omi_store::local::scores::{default_tab, score_date, score_window, DailyScoreQuery, ScoreTab};
use omi_store::local::screen::{decode, encode, get_screen_activity, upsert_screen_activity, ScreenActivityRow};
use omi_store::local::{conversations, goals, schema, tasks};
use omi_store::migrations::{migration_statements, pending_migrations, CURRENT_SCHEMA_VERSION};
use omi_store::model::Real;
use omi_store::sql::SqlValue;

fn t(s: &str) -> SqlValue {
    SqlValue::Text(s.to_string())
}

fn reals(v: &[f64]) -> Vec<Real> {
    v.iter().map(|f| Real { bits: f.to_bits() }).collect()
}

#[test]
fn embedding_bytes_round_trip() {
    let v = reals(&[1.0, -2.5, 0.0, f64::MAX]);
    let b = encode(&v);
    assert_eq!(b.len(), 32);
    assert_eq!(&b[0..8], &1.0f64.to_le_bytes());
    assert_eq!(&b[8..16], &(-2.5f64).to_le_bytes());
    assert_eq!(decode(&b), v);
}

#[test]
fn embedding_trailing_bytes_are_ignored() {
    let mut b = 3.25f64.to_le_bytes().to_vec();
    b.extend_from_slice(&[1, 2, 3]);
    assert_eq!(decode(&b), reals(&[3.25]));
    assert_eq!(decode(&vec![9, 9]), Vec::<Real>::new());
}

#[test]
fn upsert_carries_blob_or_null() {
    let rows = vec![
        ScreenActivityRow {
            id: 4,
            timestamp: "2024-01-01T00:00:00Z".to_string(),
            app_name: "Mail".to_string(),
            window_title: "Inbox".to_string(),
            ocr_text: "hi".to_string(),
            embedding: Some(reals(&[1.0])),
        },
        ScreenActivityRow {
            id: 5,
            timestamp: "t".to_string(),
            app_name: "a".to_string(),
            window_title: "w".to_string(),
            ocr_text: "o".to_string(),
            embedding: None,
        },
    ];
    let sts = upsert_screen_activity("u", &rows);
    assert_eq!(sts.len(), 2);
    assert_eq!(sts[0].params[0], SqlValue::Integer(4));
    assert_eq!(sts[0].params[6], SqlValue::Blob(1.0f64.to_le_bytes().to_vec()));
    assert_eq!(sts[1].params[6], SqlValue::Null);
    assert!(sts[0].sql.contains("ON CONFLICT(id) DO UPDATE SET"));
}

#[test]
fn screen_activity_query_filters() {
    let st = get_screen_activity("u", Some("s"), None, Some("Mail"), 50);
    assert_eq!(
        st.sql,
        "SELECT id, timestamp, app_name, window_title, ocr_text, embedding FROM screen_activity WHERE user_id = ? AND timestamp >= ? AND app_name = ? ORDER BY timestamp ASC LIMIT ?"
    );
    assert_eq!(st.params, vec![t("u"), t("s"), t("Mail"), SqlValue::Integer(50)]);
}

fn pct(completed: i32, total: i32) -> Real {
    let score = if total > 0 { (completed as f64 / total as f64) * 100.0 } else { 0.0 };
    Real { bits: score.to_bits() }
}

#[test]
fn default_tab_choice() {
    assert_eq!(default_tab(2, pct(2, 2), pct(1, 4), pct(3, 10)), ScoreTab::Daily);
    assert_eq!(default_tab(0, pct(0, 0), pct(1, 4), pct(3, 10)), ScoreTab::Overall);
    assert_eq!(default_tab(0, pct(0, 0), pct(1, 2), pct(3, 10)), ScoreTab::Weekly);
    assert_eq!(default_tab(4, pct(1, 4), pct(1, 4), pct(1, 4)), ScoreTab::Daily);
    assert_eq!(default_tab(2, pct(0, 2), pct(1, 10), pct(1, 2)), ScoreTab::Overall);
    assert_eq!(default_tab(0, pct(0, 0), pct(0, 0), pct(0, 0)), ScoreTab::Weekly);
    assert_eq!(ScoreTab::Overall.name(), "overall");
}

#[test]
fn default_tab_compares_the_percentages_as_doubles() {
    // The two percentages are distinct ratios that round to the same double.
    let daily = pct(1073741823, 1073741824);
    let weekly = pct(1073741824, 1073741825);
    assert_eq!(f64::from_bits(daily.bits), f64::from_bits(weekly.bits));
    assert_eq!(default_tab(1073741824, daily, weekly, weekly), ScoreTab::Daily);
}

#[test]
fn score_bits_order_as_the_doubles() {
    let values = [0.0f64, 1e-300, 0.5, 33.333333333333336, 99.99999990686774, 100.0];
    for a in values {
        for b in values {
            let (x, y) = (Real { bits: a.to_bits() }, Real { bits: b.to_bits() });
            assert_eq!(x.bits >= y.bits, a >= b);
        }
    }
}

#[test]
fn score_windows_cross_months() {
    let w = score_window(Ymd { year: 2024, month: 3, day: 1 }).unwrap();
    assert_eq!(w.date, "2024-03-01");
    assert_eq!(w.today_start, "2024-03-01T00:00:00Z");
    assert_eq!(w.today_end, "2024-03-01T23:59:59.999Z");
    assert_eq!(w.week_start, "2024-02-23T00:00:00Z");
}

#[test]
fn score_date_parses_or_falls_back() {
    let d = score_date(&DailyScoreQuery { date: Some("2023-12-31".to_string()) });
    assert_eq!(d, Ymd { year: 2023, month: 12, day: 31 });
    let today = score_date(&DailyScoreQuery { date: Some("31/12/2023".to_string()) });
    assert!(today.year >= 2024);
}

#[test]
fn action_item_status_sets_completion_time() {
    let sts = tasks::update_action_item_at("u", "a", Some("T"), None, None, Some("completed"), "NOW");
    assert_eq!(sts.len(), 2);
    assert_eq!(sts[0].params, vec![t("T"), t("NOW"), t("a"), t("u")]);
    assert_eq!(sts[1].params, vec![t("completed"), t("NOW"), t("NOW"), t("a"), t("u")]);
    let sts = tasks::update_action_item_at("u", "a", None, None, None, Some("pending"), "NOW");
    assert_eq!(sts[0].params[1], SqlValue::Null);
    assert!(tasks::update_action_item_at("u", "a", None, None, None, None, "NOW").is_empty());
}

#[test]
fn local_defaults() {
    let (_, st) = conversations::create_conversation(conversations::CreateConversationRequest {
        title: "T".to_string(),
        folder_id: None,
        conversation_type: None,
    });
    assert_eq!(st.params[6], t("personal"));
    assert_eq!(st.params[9], t("private"));
    let st = goals::create_goal_at("G".to_string(), "N", "u", goals::CreateGoalRequest {
        title: "g".to_string(),
        goal_type: None,
        target_date: None,
        target_value: None,
    });
    assert_eq!(st.params[3], t("binary"));
    assert_eq!(st.params[5], SqlValue::Real(Real { bits: 0.0f64.to_bits() }));
    assert_eq!(st.params[6], SqlValue::Real(Real { bits: 1.0f64.to_bits() }));
    let star = conversations::set_conversation_starred("c", true);
    assert_eq!(star.params, vec![SqlValue::Integer(1), t("c")]);
}

#[test]
fn migrations_plan() {
    assert_eq!(pending_migrations(0), vec![1]);
    assert_eq!(pending_migrations(-5), vec![1]);
    assert_eq!(pending_migrations(CURRENT_SCHEMA_VERSION), Vec::<i32>::new());
    let v1 = migration_statements(1);
    assert_eq!(v1.len(), 42);
    assert!(v1[0].starts_with("CREATE TABLE IF NOT EXISTS users"));
    assert_eq!(v1[41], "INSERT INTO schema_migrations (version) VALUES (1)");
    assert!(migration_statements(2).is_empty());
    assert_eq!(schema::init_schema().len(), 21);
}

#[test]
fn screen_query_binds_every_placeholder() {
    for mask in 0..8u8 {
        let start = if mask & 1 != 0 { Some("2024-01-01") } else { None };
        let end = if mask & 2 != 0 { Some("2024-02-01") } else { None };
        let app = if mask & 4 != 0 { Some("Mail") } else { None };
        let st = get_screen_activity("u", start, end, app, 10);
        assert_eq!(st.sql.matches('?').count(), st.params.len());
    }
}

#[test]
fn rerunning_migration_only_creates_missing_objects() {
    let sts = migration_statements(1);
    let (last, rest) = sts.split_last().unwrap();
    for st in rest {
        assert!(st.starts_with("CREATE TABLE IF NOT EXISTS ") || st.starts_with("CREATE INDEX IF NOT EXISTS "));
    }
    assert_eq!(last, "INSERT INTO schema_migrations (version) VALUES (1)");
}

#[test]
fn backend_is_sqlite_and_available() {
    assert_eq!(omi_store::backend::backend_type(), omi_store::model::StorageBackend::Sqlite);
    assert!(omi_store::backend::is_available());
}

#[test]
fn score_window_renders_years_as_chrono_does() {
    let w = score_window(Ymd { year: 42, month: 1, day: 9 }).unwrap();
    assert_eq!(w.date, "0042-01-09");
    assert_eq!(w.week_start, "0042-01-02T00:00:00Z");
    let w = score_window(Ymd { year: 10000, month: 12, day: 31 }).unwrap();
    assert_eq!(w.date, "+10000-12-31");
    let w = score_window(Ymd { year: -1, month: 1, day: 3 }).unwrap();
    assert_eq!(w.date, "-0001-01-03");
    assert_eq!(w.week_start, "-0002-12-27T00:00:00Z");
    assert!(score_window(Ymd { year: 2023, month: 2, day: 29 }).is_none());
    assert!(score_window(Ymd { year: 2024, month: 2, day: 29 }).is_some());
    assert!(score_window(Ymd { year: 262143, month: 1, day: 1 }).is_none());
}
