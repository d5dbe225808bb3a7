//! Statements of the user settings repository.
use vstd::prelude::*;
use vstd::string::*;

use crate::model::{AiUserProfileOutput, NotificationSettingsOutput, TranscriptionPreferencesOutput, UserSettingsOutput};
use crate::binding::{bare_pieces, binds_numbered, lemma_numbered_join_binds, lemma_update_binds_member, numbered_join};
use crate::text::decimal;
use crate::sql::{StatementView, 
    bool_view, opt_bool_value, opt_set, opt_text_value, statement, text, text_view,
    update_statement, values_view, Binding, SqlValueView, Statement, UpdateBuilder,
};

verus! {

/// Selects a user's settings row.
pub fn get_settings(uid: &str) -> (st: Statement)
    ensures
        st@.sql == "SELECT uid, daily_summary_enabled, notification_settings, transcription_preferences, ai_user_profile FROM user_settings WHERE uid = ?1"@,
        st@.params == seq![SqlValueView::Text(uid@)],
        binds_numbered(st@, "uid = "@, SqlValueView::Text(uid@)),
{
    let p = vec![text(uid)];
    assert(values_view(p@) =~= seq![SqlValueView::Text(uid@)]);
    let st = statement("SELECT uid, daily_summary_enabled, notification_settings, transcription_preferences, ai_user_profile FROM user_settings WHERE uid = ?1", p);
    proof {
        reveal_strlit("SELECT uid, daily_summary_enabled, notification_settings, transcription_preferences, ai_user_profile FROM user_settings WHERE uid = ?1");
        reveal_strlit("SELECT uid, daily_summary_enabled, notification_settings, transcription_preferences, ai_user_profile FROM user_settings WHERE uid = ");
        reveal_strlit("uid = ");
        let pieces = seq!["SELECT uid, daily_summary_enabled, notification_settings, transcription_preferences, ai_user_profile FROM user_settings WHERE uid = "@, Seq::<char>::empty()];
        reveal_with_fuel(numbered_join, 3);
        assert(decimal(1) =~= seq!['1']);
        assert("SELECT uid, daily_summary_enabled, notification_settings, transcription_preferences, ai_user_profile FROM user_settings WHERE uid = ?1"@ =~= numbered_join(pieces, 1));
        assert(bare_pieces(pieces));
        assert(st@ == StatementView { sql: numbered_join(pieces, 1), params: st@.params });
        lemma_numbered_join_binds(pieces, st@.params, 0, "uid = "@);
    }
    st
}

/// The notification settings read from storage, or the defaults (push on,
/// e-mail off, no quiet hours) when the stored text could not be read.
pub fn notification_settings_or_default(parsed: Option<NotificationSettingsOutput>) -> (r: NotificationSettingsOutput)
    ensures
        parsed matches Some(p) ==> r == p,
        parsed is None ==> r.push_enabled && !r.email_enabled && r.quiet_hours_start is None && r.quiet_hours_end is None,
{
    match parsed {
        Some(p) => p,
        None => NotificationSettingsOutput { push_enabled: true, email_enabled: false, quiet_hours_start: None, quiet_hours_end: None },
    }
}

/// The transcription preferences read from storage, or the defaults
/// (automatic transcription, no language) when the stored text could not be read.
pub fn transcription_preferences_or_default(parsed: Option<TranscriptionPreferencesOutput>) -> (r: TranscriptionPreferencesOutput)
    ensures
        parsed matches Some(p) ==> r == p,
        parsed is None ==> r.auto_transcribe && r.language is None,
{
    match parsed {
        Some(p) => p,
        None => TranscriptionPreferencesOutput { auto_transcribe: true, language: None },
    }
}

/// Assembles a user's settings from a stored row, applying the defaults to the
/// parts whose stored text could not be read; an unreadable AI profile is absent.
pub fn settings_from_row(
    uid: String,
    daily_summary_enabled: bool,
    notification_settings: Option<NotificationSettingsOutput>,
    transcription_preferences: Option<TranscriptionPreferencesOutput>,
    ai_user_profile: Option<AiUserProfileOutput>,
) -> (r: UserSettingsOutput)
    ensures
        r.uid == uid,
        r.daily_summary_enabled == daily_summary_enabled,
        notification_settings matches Some(p) ==> r.notification_settings == p,
        notification_settings is None ==> r.notification_settings.push_enabled && !r.notification_settings.email_enabled
            && r.notification_settings.quiet_hours_start is None && r.notification_settings.quiet_hours_end is None,
        transcription_preferences matches Some(p) ==> r.transcription_preferences == p,
        transcription_preferences is None ==> r.transcription_preferences.auto_transcribe && r.transcription_preferences.language is None,
        r.ai_user_profile == ai_user_profile,
{
    UserSettingsOutput {
        uid,
        daily_summary_enabled,
        notification_settings: notification_settings_or_default(notification_settings),
        transcription_preferences: transcription_preferences_or_default(transcription_preferences),
        ai_user_profile,
    }
}

/// The values a settings update writes; the structured parts come already
/// rendered as JSON text.
pub struct SettingsChanges {
    pub daily_summary_enabled: Option<bool>,
    pub notification_settings_json: Option<String>,
    pub transcription_preferences_json: Option<String>,
    pub ai_user_profile_json: Option<String>,
}

/// The assignments of `update_settings`: each part that is present.
pub open spec fn settings_update_sets(c: SettingsChanges) -> Seq<Binding> {
    opt_set("daily_summary_enabled"@, bool_view(c.daily_summary_enabled))
        + opt_set("notification_settings"@, text_view(c.notification_settings_json))
        + opt_set("transcription_preferences"@, text_view(c.transcription_preferences_json))
        + opt_set("ai_user_profile"@, text_view(c.ai_user_profile_json))
}

/// What a settings update binds: each given part to its column, and the user to the `uid` condition.
pub open spec fn settings_update_binds(st: StatementView, uid: Seq<char>, c: SettingsChanges) -> bool {
    &&& (c.daily_summary_enabled matches Some(v) ==> binds_numbered(st, "daily_summary_enabled = "@, SqlValueView::Bool(v)))
    &&& (c.notification_settings_json matches Some(v) ==> binds_numbered(st, "notification_settings = "@, SqlValueView::Text(v@)))
    &&& (c.transcription_preferences_json matches Some(v) ==> binds_numbered(st, "transcription_preferences = "@, SqlValueView::Text(v@)))
    &&& (c.ai_user_profile_json matches Some(v) ==> binds_numbered(st, "ai_user_profile = "@, SqlValueView::Text(v@)))
    &&& binds_numbered(st, "uid = "@, SqlValueView::Text(uid))
}

/// Law: the update binds every given field to its column and the row to its
/// conditions.
pub proof fn lemma_settings_update_binds(uid: Seq<char>, c: SettingsChanges)
    ensures
        settings_update_binds(update_statement("user_settings"@, settings_update_sets(c), seq![("uid"@, SqlValueView::Text(uid))]), uid, c),
        (c.daily_summary_enabled is Some || c.notification_settings_json is Some || c.transcription_preferences_json is Some || c.ai_user_profile_json is Some) ==> settings_update_sets(c).len() > 0,
{
    broadcast use vstd::seq_lib::lemma_seq_concat_contains_all_elements, vstd::seq_lib::lemma_seq_contains_after_push;
    let t = "user_settings"@;
    let sets = settings_update_sets(c);
    let wheres = seq![("uid"@, SqlValueView::Text(uid))];
    if let Some(v) = c.daily_summary_enabled {
        reveal_strlit("daily_summary_enabled");
        reveal_strlit("daily_summary_enabled = ");
        assert("daily_summary_enabled = "@ =~= "daily_summary_enabled"@ + seq![' ', '=', ' ']);
        assert(sets.contains(("daily_summary_enabled"@, SqlValueView::Bool(v))) || wheres.contains(("daily_summary_enabled"@, SqlValueView::Bool(v))));
        lemma_update_binds_member(t, sets, wheres, "daily_summary_enabled"@, "daily_summary_enabled = "@, SqlValueView::Bool(v));
    }
    if let Some(v) = c.notification_settings_json {
        reveal_strlit("notification_settings");
        reveal_strlit("notification_settings = ");
        assert("notification_settings = "@ =~= "notification_settings"@ + seq![' ', '=', ' ']);
        assert(sets.contains(("notification_settings"@, SqlValueView::Text(v@))) || wheres.contains(("notification_settings"@, SqlValueView::Text(v@))));
        lemma_update_binds_member(t, sets, wheres, "notification_settings"@, "notification_settings = "@, SqlValueView::Text(v@));
    }
    if let Some(v) = c.transcription_preferences_json {
        reveal_strlit("transcription_preferences");
        reveal_strlit("transcription_preferences = ");
        assert("transcription_preferences = "@ =~= "transcription_preferences"@ + seq![' ', '=', ' ']);
        assert(sets.contains(("transcription_preferences"@, SqlValueView::Text(v@))) || wheres.contains(("transcription_preferences"@, SqlValueView::Text(v@))));
        lemma_update_binds_member(t, sets, wheres, "transcription_preferences"@, "transcription_preferences = "@, SqlValueView::Text(v@));
    }
    if let Some(v) = c.ai_user_profile_json {
        reveal_strlit("ai_user_profile");
        reveal_strlit("ai_user_profile = ");
        assert("ai_user_profile = "@ =~= "ai_user_profile"@ + seq![' ', '=', ' ']);
        assert(sets.contains(("ai_user_profile"@, SqlValueView::Text(v@))) || wheres.contains(("ai_user_profile"@, SqlValueView::Text(v@))));
        lemma_update_binds_member(t, sets, wheres, "ai_user_profile"@, "ai_user_profile = "@, SqlValueView::Text(v@));
    }
    {
        reveal_strlit("uid");
        reveal_strlit("uid = ");
        assert("uid = "@ =~= "uid"@ + seq![' ', '=', ' ']);
        assert(sets.contains(("uid"@, SqlValueView::Text(uid))) || wheres.contains(("uid"@, SqlValueView::Text(uid))));
        lemma_update_binds_member(t, sets, wheres, "uid"@, "uid = "@, SqlValueView::Text(uid));
    }
}

/// Builds the update of a user's settings row. No statement is built when no
/// part is present.
pub fn update_settings(uid: &str, c: SettingsChanges) -> (r: Option<Statement>)
    ensures
        settings_update_sets(c).len() == 0 ==> r is None,
        settings_update_sets(c).len() > 0 ==> (r matches Some(st) && st@ == update_statement(
            "user_settings"@,
            settings_update_sets(c),
            seq![("uid"@, SqlValueView::Text(uid@))],
        )),
        r matches Some(st) ==> settings_update_binds(st@, uid@, c),
        (c.daily_summary_enabled is Some || c.notification_settings_json is Some || c.transcription_preferences_json is Some || c.ai_user_profile_json is Some) ==> r is Some,
{
    let ghost c0 = c;
    let mut b = UpdateBuilder::new("user_settings");
    b.set_opt("daily_summary_enabled", opt_bool_value(c.daily_summary_enabled));
    b.set_opt("notification_settings", opt_text_value(c.notification_settings_json));
    b.set_opt("transcription_preferences", opt_text_value(c.transcription_preferences_json));
    b.set_opt("ai_user_profile", opt_text_value(c.ai_user_profile_json));
    assert(b.sets() =~= settings_update_sets(c0));
    if b.len() == 0 {
        return None;
    }
    b.where_eq("uid", text(uid));
    assert(b.wheres() =~= seq![("uid"@, SqlValueView::Text(uid@))]);
    proof {
        lemma_settings_update_binds(uid@, c0);
    }
    Some(b.finish())
}

} // verus!
