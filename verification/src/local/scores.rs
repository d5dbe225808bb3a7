//! Completion scores of action items: the date windows they cover, the
//! counting queries, and which score is shown first.
use vstd::prelude::*;
use vstd::string::*;

use crate::clock::{
    date_text, days_before, is_calendar_date, parse_date, spec_days_before, spec_parse_date, today_utc,
    ymd_format, ymd_text, Ymd,
};
use crate::model::Real;
use crate::binding::{bare_join, bare_pieces, binds_bare, lemma_bare_join_binds};
use crate::sql::{StatementView, statement, text, values_view, SqlValueView, Statement};
use crate::text::owned;

verus! {

/// Query for the scores of one day; the date is `%Y-%m-%d` text.
#[derive(Debug)]
pub struct DailyScoreQuery {
    pub date: Option<String>,
}

/// The length of the weekly window, in days before the scored day.
pub const WEEK_DAYS: i64 = 7;

/// The date a score query is about: the requested date when it parses as
/// `%Y-%m-%d`, otherwise today's date in UTC.
pub fn score_date(query: &DailyScoreQuery) -> (d: Ymd)
    ensures
        is_calendar_date(d),
        query.date matches Some(s) ==> (spec_parse_date(s@, ymd_format()) is Some
            ==> Some(d) == spec_parse_date(s@, ymd_format())),
{
    match &query.date {
        Some(s) => match parse_date(s.as_str(), "%Y-%m-%d") {
            Some(p) => p,
            None => today_utc(),
        },
        None => today_utc(),
    }
}

/// The bounds of the daily and weekly windows, as text comparable with the
/// stored due dates.
pub struct ScoreWindow {
    /// The day, `%Y-%m-%d`.
    pub date: String,
    /// Start of the day: `<date>T00:00:00Z`.
    pub today_start: String,
    /// End of the day: `<date>T23:59:59.999Z`.
    pub today_end: String,
    /// Start of the day `WEEK_DAYS` days earlier: `<date - 7 days>T00:00:00Z`.
    pub week_start: String,
}

/// Whether `w` holds the windows of the day `day` and of the day `week`
/// `WEEK_DAYS` days earlier (both as `%Y-%m-%d` text).
pub open spec fn is_window(w: ScoreWindow, day: Seq<char>, week: Seq<char>) -> bool {
    &&& w.date@ == day
    &&& w.today_start@ == day + "T00:00:00Z"@
    &&& w.today_end@ == day + "T23:59:59.999Z"@
    &&& w.week_start@ == week + "T00:00:00Z"@
}

fn with_suffix(s: &String, suffix: &str) -> (r: String)
    ensures
        r@ == s@ + suffix@,
{
    let mut r = owned(s.as_str());
    r.append(suffix);
    r
}

/// The windows of a day. `None` when the triple is not a date chrono can
/// render, or when the day `WEEK_DAYS` days earlier lies outside chrono's
/// range of dates.
pub fn score_window(d: Ymd) -> (r: Option<ScoreWindow>)
    ensures
        r is Some <==> is_calendar_date(d) && spec_days_before(d, WEEK_DAYS) is Some,
        r matches Some(w) ==> is_window(
            w,
            ymd_text(d),
            ymd_text(spec_days_before(d, WEEK_DAYS)->0),
        ),
{
    let day = match date_text(d, "%Y-%m-%d") {
        Some(s) => s,
        None => return None,
    };
    let week = match days_before(d, WEEK_DAYS) {
        Some(w) => w,
        None => return None,
    };
    let week_text = match date_text(week, "%Y-%m-%d") {
        Some(s) => s,
        None => return None,
    };
    let today_start = with_suffix(&day, "T00:00:00Z");
    let today_end = with_suffix(&day, "T23:59:59.999Z");
    let week_start = with_suffix(&week_text, "T00:00:00Z");
    Some(ScoreWindow { date: day, today_start, today_end, week_start })
}

/// Counts a user's completed action items due within a window.
pub fn completed_between(user_id: &str, start: &str, end: &str) -> (st: Statement)
    ensures
        st@.sql == "SELECT COUNT(*) FROM action_items WHERE user_id = ? AND status = 'completed' AND due_date >= ? AND due_date <= ?"@,
        st@.params == seq![SqlValueView::Text(user_id@), SqlValueView::Text(start@), SqlValueView::Text(end@)],
        binds_bare(st@, "user_id = "@, SqlValueView::Text(user_id@)),
        binds_bare(st@, "due_date >= "@, SqlValueView::Text(start@)),
        binds_bare(st@, "due_date <= "@, SqlValueView::Text(end@)),
{
    let p = vec![text(user_id), text(start), text(end)];
    assert(values_view(p@) =~= seq![SqlValueView::Text(user_id@), SqlValueView::Text(start@), SqlValueView::Text(end@)]);
    let st = statement("SELECT COUNT(*) FROM action_items WHERE user_id = ? AND status = 'completed' AND due_date >= ? AND due_date <= ?", p);
    proof {
        reveal_strlit("SELECT COUNT(*) FROM action_items WHERE user_id = ? AND status = 'completed' AND due_date >= ? AND due_date <= ?");
        reveal_strlit("SELECT COUNT(*) FROM action_items WHERE user_id = ");
        reveal_strlit(" AND status = 'completed' AND due_date >= ");
        reveal_strlit(" AND due_date <= ");
        reveal_strlit("user_id = ");
        reveal_strlit("due_date >= ");
        reveal_strlit("due_date <= ");
        let pieces = seq!["SELECT COUNT(*) FROM action_items WHERE user_id = "@, " AND status = 'completed' AND due_date >= "@, " AND due_date <= "@, Seq::<char>::empty()];
        reveal_with_fuel(bare_join, 5);
        assert("SELECT COUNT(*) FROM action_items WHERE user_id = ? AND status = 'completed' AND due_date >= ? AND due_date <= ?"@ =~= bare_join(pieces));
        assert(bare_pieces(pieces));
        assert(st@ == StatementView { sql: bare_join(pieces), params: st@.params });
        lemma_bare_join_binds(pieces, st@.params, 0, "user_id = "@);
        lemma_bare_join_binds(pieces, st@.params, 1, "due_date >= "@);
        lemma_bare_join_binds(pieces, st@.params, 2, "due_date <= "@);
    }
    st
}

/// Counts a user's action items due within a window.
pub fn total_between(user_id: &str, start: &str, end: &str) -> (st: Statement)
    ensures
        st@.sql == "SELECT COUNT(*) FROM action_items WHERE user_id = ? AND due_date >= ? AND due_date <= ?"@,
        st@.params == seq![SqlValueView::Text(user_id@), SqlValueView::Text(start@), SqlValueView::Text(end@)],
        binds_bare(st@, "user_id = "@, SqlValueView::Text(user_id@)),
        binds_bare(st@, "due_date >= "@, SqlValueView::Text(start@)),
        binds_bare(st@, "due_date <= "@, SqlValueView::Text(end@)),
{
    let p = vec![text(user_id), text(start), text(end)];
    assert(values_view(p@) =~= seq![SqlValueView::Text(user_id@), SqlValueView::Text(start@), SqlValueView::Text(end@)]);
    let st = statement("SELECT COUNT(*) FROM action_items WHERE user_id = ? AND due_date >= ? AND due_date <= ?", p);
    proof {
        reveal_strlit("SELECT COUNT(*) FROM action_items WHERE user_id = ? AND due_date >= ? AND due_date <= ?");
        reveal_strlit("SELECT COUNT(*) FROM action_items WHERE user_id = ");
        reveal_strlit(" AND due_date >= ");
        reveal_strlit(" AND due_date <= ");
        reveal_strlit("user_id = ");
        reveal_strlit("due_date >= ");
        reveal_strlit("due_date <= ");
        let pieces = seq!["SELECT COUNT(*) FROM action_items WHERE user_id = "@, " AND due_date >= "@, " AND due_date <= "@, Seq::<char>::empty()];
        reveal_with_fuel(bare_join, 5);
        assert("SELECT COUNT(*) FROM action_items WHERE user_id = ? AND due_date >= ? AND due_date <= ?"@ =~= bare_join(pieces));
        assert(bare_pieces(pieces));
        assert(st@ == StatementView { sql: bare_join(pieces), params: st@.params });
        lemma_bare_join_binds(pieces, st@.params, 0, "user_id = "@);
        lemma_bare_join_binds(pieces, st@.params, 1, "due_date >= "@);
        lemma_bare_join_binds(pieces, st@.params, 2, "due_date <= "@);
    }
    st
}

/// Counts all of a user's completed action items.
pub fn completed_overall(user_id: &str) -> (st: Statement)
    ensures
        st@.sql == "SELECT COUNT(*) FROM action_items WHERE user_id = ? AND status = 'completed'"@,
        st@.params == seq![SqlValueView::Text(user_id@)],
        binds_bare(st@, "user_id = "@, SqlValueView::Text(user_id@)),
{
    let p = vec![text(user_id)];
    assert(values_view(p@) =~= seq![SqlValueView::Text(user_id@)]);
    let st = statement("SELECT COUNT(*) FROM action_items WHERE user_id = ? AND status = 'completed'", p);
    proof {
        reveal_strlit("SELECT COUNT(*) FROM action_items WHERE user_id = ? AND status = 'completed'");
        reveal_strlit("SELECT COUNT(*) FROM action_items WHERE user_id = ");
        reveal_strlit(" AND status = 'completed'");
        reveal_strlit("user_id = ");
        let pieces = seq!["SELECT COUNT(*) FROM action_items WHERE user_id = "@, " AND status = 'completed'"@];
        reveal_with_fuel(bare_join, 3);
        assert("SELECT COUNT(*) FROM action_items WHERE user_id = ? AND status = 'completed'"@ =~= bare_join(pieces));
        assert(bare_pieces(pieces));
        assert(st@ == StatementView { sql: bare_join(pieces), params: st@.params });
        lemma_bare_join_binds(pieces, st@.params, 0, "user_id = "@);
    }
    st
}

/// Counts all of a user's action items.
pub fn total_overall(user_id: &str) -> (st: Statement)
    ensures
        st@.sql == "SELECT COUNT(*) FROM action_items WHERE user_id = ?"@,
        st@.params == seq![SqlValueView::Text(user_id@)],
        binds_bare(st@, "user_id = "@, SqlValueView::Text(user_id@)),
{
    let p = vec![text(user_id)];
    assert(values_view(p@) =~= seq![SqlValueView::Text(user_id@)]);
    let st = statement("SELECT COUNT(*) FROM action_items WHERE user_id = ?", p);
    proof {
        reveal_strlit("SELECT COUNT(*) FROM action_items WHERE user_id = ?");
        reveal_strlit("SELECT COUNT(*) FROM action_items WHERE user_id = ");
        reveal_strlit("user_id = ");
        let pieces = seq!["SELECT COUNT(*) FROM action_items WHERE user_id = "@, Seq::<char>::empty()];
        reveal_with_fuel(bare_join, 3);
        assert("SELECT COUNT(*) FROM action_items WHERE user_id = ?"@ =~= bare_join(pieces));
        assert(bare_pieces(pieces));
        assert(st@ == StatementView { sql: bare_join(pieces), params: st@.params });
        lemma_bare_join_binds(pieces, st@.params, 0, "user_id = "@);
    }
    st
}

/// Completed and total action items of one window.
#[derive(Clone, Copy, PartialEq, Eq, Structural, Debug)]
pub struct TaskCounts {
    pub completed: i32,
    pub total: i32,
}

/// A score as shown: the bit pattern of an `f64` percentage
/// (`completed / total * 100`, or 0 when the window has no task). Such a
/// percentage is never negative and never NaN, so its bits are at most those
/// of positive infinity.
pub open spec fn is_score(s: Real) -> bool {
    s.bits <= 0x7FF0_0000_0000_0000
}

/// `a >= b` for two scores. IEEE 754 encodes the non-negative, non-NaN
/// doubles so that their bit patterns, read as unsigned integers, are ordered
/// as the values are; on scores, comparing the bits is comparing the doubles.
pub open spec fn score_at_least(a: Real, b: Real) -> bool {
    a.bits >= b.bits
}

/// Which score is shown first.
#[derive(Clone, Copy, PartialEq, Eq, Structural, Debug)]
pub enum ScoreTab {
    Daily,
    Weekly,
    Overall,
}

impl ScoreTab {
    /// The tab's name: `daily`, `weekly` or `overall`.
    pub fn name(&self) -> (s: &'static str)
        ensures
            *self == ScoreTab::Daily ==> s@ == "daily"@,
            *self == ScoreTab::Weekly ==> s@ == "weekly"@,
            *self == ScoreTab::Overall ==> s@ == "overall"@,
    {
        match self {
            ScoreTab::Daily => "daily",
            ScoreTab::Weekly => "weekly",
            ScoreTab::Overall => "overall",
        }
    }
}

/// The daily score is shown first when the day has tasks and its score is at
/// least the weekly and the overall ones.
pub open spec fn daily_first(daily_total: i32, daily: Real, weekly: Real, overall: Real) -> bool {
    daily_total > 0 && score_at_least(daily, weekly) && score_at_least(daily, overall)
}

/// The score shown first: the daily one when `daily_first`; otherwise the
/// weekly one when its score is at least the overall one; otherwise the
/// overall one.
pub open spec fn chosen_tab(daily_total: i32, daily: Real, weekly: Real, overall: Real) -> ScoreTab {
    if daily_first(daily_total, daily, weekly, overall) {
        ScoreTab::Daily
    } else if score_at_least(weekly, overall) {
        ScoreTab::Weekly
    } else {
        ScoreTab::Overall
    }
}

/// Chooses the score shown first from the day's task count and the three
/// percentages (see `chosen_tab`).
pub fn default_tab(daily_total: i32, daily: Real, weekly: Real, overall: Real) -> (r: ScoreTab)
    requires
        is_score(daily),
        is_score(weekly),
        is_score(overall),
    ensures
        r == chosen_tab(daily_total, daily, weekly, overall),
{
    if daily_total > 0 && daily.bits >= weekly.bits && daily.bits >= overall.bits {
        ScoreTab::Daily
    } else if weekly.bits >= overall.bits {
        ScoreTab::Weekly
    } else {
        ScoreTab::Overall
    }
}

/// The score behind a tab.
pub open spec fn tab_score(tab: ScoreTab, daily: Real, weekly: Real, overall: Real) -> Real {
    match tab {
        ScoreTab::Daily => daily,
        ScoreTab::Weekly => weekly,
        ScoreTab::Overall => overall,
    }
}

/// A tab that may be shown first: the daily one only when the day has tasks.
pub open spec fn is_candidate(tab: ScoreTab, daily_total: i32) -> bool {
    tab == ScoreTab::Daily ==> daily_total > 0
}

/// Law: the score shown first is a candidate, and its score is at least that
/// of every candidate.
pub proof fn lemma_default_tab_is_highest(
    daily_total: i32,
    daily: Real,
    weekly: Real,
    overall: Real,
    other: ScoreTab,
)
    requires
        is_score(daily),
        is_score(weekly),
        is_score(overall),
        is_candidate(other, daily_total),
    ensures
        is_candidate(chosen_tab(daily_total, daily, weekly, overall), daily_total),
        score_at_least(
            tab_score(chosen_tab(daily_total, daily, weekly, overall), daily, weekly, overall),
            tab_score(other, daily, weekly, overall),
        ),
{
}

} // verus!
