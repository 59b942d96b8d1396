use grindstone::app_core::{
    format_duration_value, AppCore, ModalState, NotificationLevel, SessionPhase, SettingsField,
};
use grindstone::timer::TimerPhase;

fn core_with_session(name: &str, category_index: usize) -> AppCore {
    let mut app = AppCore::new();
    for c in name.chars() {
        app.input.name.push(c);
    }
    app.input.selected_category = category_index;
    app.create_session();
    app
}

#[test]
fn test_save_config_with_mock_database() {
    let mut app = AppCore::new();

    // Modify config through settings flow
    app.settings.editing_config = app.config;
    app.settings.editing_config.work_duration_secs = 30 * 60;
    app.settings.field = SettingsField::WorkDuration;
    app.settings.editing_value = "30".to_string();
    let saved = app.save_settings();

    assert_eq!(app.config.work_duration_secs, 30 * 60);
    assert!(saved.is_some());
}

#[test]
fn test_settings_editing_buffer_isolation() {
    let mut app = AppCore::new();
    app.config.work_duration_secs = 25 * 60;

    // Simulate opening settings modal
    app.settings.editing_config = app.config;
    app.settings.field = SettingsField::WorkDuration;
    app.settings.editing_value = "30".to_string();

    // Apply the editing value (simulates navigation)
    app.apply_editing_value();

    // editing_config should be updated, config should not
    assert_eq!(app.settings.editing_config.work_duration_secs, 30 * 60);
    assert_eq!(app.config.work_duration_secs, 25 * 60);
}

#[test]
fn test_settings_save_commits_all_changes() {
    let mut app = AppCore::new();
    app.config.work_duration_secs = 25 * 60;
    app.config.short_break_secs = 5 * 60;

    // Simulate editing multiple fields
    app.settings.editing_config = app.config;

    // Edit work duration
    app.settings.field = SettingsField::WorkDuration;
    app.settings.editing_value = "30".to_string();
    app.apply_editing_value();

    // Navigate to short break and edit it
    app.settings.field = SettingsField::ShortBreak;
    app.settings.editing_value = "10".to_string();
    app.apply_editing_value();

    // Save should commit both changes
    app.settings.field = SettingsField::ShortBreak;
    app.settings.editing_value = "10".to_string();
    app.save_settings();

    assert_eq!(app.config.work_duration_secs, 30 * 60);
    assert_eq!(app.config.short_break_secs, 10 * 60);
}

#[test]
fn test_settings_cancel_discards_changes() {
    let mut app = AppCore::new();
    app.config.work_duration_secs = 25 * 60;

    // Simulate editing
    app.settings.editing_config = app.config;
    app.settings.field = SettingsField::WorkDuration;
    app.settings.editing_value = "30".to_string();
    app.apply_editing_value();

    // Cancel (just close modal without saving)
    app.modal = ModalState::Closed;

    // Config should be unchanged
    assert_eq!(app.config.work_duration_secs, 25 * 60);
}

#[test]
fn test_notification_set_and_clear() {
    let mut app = AppCore::new();

    // Initially no notification
    assert!(app.notification.is_none());

    // Set a warning notification
    app.notify(NotificationLevel::Warning, "Test warning".to_string());
    assert!(app.notification.is_some());
    let n = app.notification.as_ref().unwrap();
    assert_eq!(n.message, "Test warning");
    assert_eq!(n.level, NotificationLevel::Warning);

    // Set an error notification (replaces previous)
    app.notify(NotificationLevel::Error, "Test error".to_string());
    let n = app.notification.as_ref().unwrap();
    assert_eq!(n.message, "Test error");
    assert_eq!(n.level, NotificationLevel::Error);

    // Clear notification (simulates key press)
    app.notification = None;
    assert!(app.notification.is_none());
}

#[test]
fn test_invalid_settings_rejected_with_notification() {
    let mut app = AppCore::new();
    app.settings.editing_config = app.config;
    app.settings.editing_config.short_break_secs = 0;
    app.settings.field = SettingsField::WorkDuration;
    app.settings.editing_value = "abc".to_string();

    let saved = app.save_settings();

    assert!(saved.is_none());
    // The live configuration and the timer keep their old values
    assert_eq!(app.config.work_duration_secs, 25 * 60);
    assert_eq!(app.timer.short_break, 300);
    let n = app.notification.as_ref().unwrap();
    assert_eq!(n.message, "Invalid settings: all values must be positive");
    assert_eq!(n.level, NotificationLevel::Warning);
}

#[test]
fn test_get_editing_field_value_shows_minutes() {
    let mut app = AppCore::new();
    app.settings.editing_config = app.config;
    app.settings.field = SettingsField::WorkDuration;
    assert_eq!(app.get_editing_field_value(), "25");
    app.settings.field = SettingsField::SessionsUntilLong;
    assert_eq!(app.get_editing_field_value(), "4");
}

#[test]
fn test_format_duration_value_field_units() {
    assert_eq!(format_duration_value(SettingsField::WorkDuration, 1500), "25");
    assert_eq!(format_duration_value(SettingsField::ShortBreak, 300), "5");
    assert_eq!(format_duration_value(SettingsField::LongBreak, 900), "15");
    assert_eq!(format_duration_value(SettingsField::SessionsUntilLong, 4), "4");
}

#[test]
fn test_create_session_builds_ready_draft() {
    let app = core_with_session("Deep work", 0);
    match &app.session_phase {
        SessionPhase::Ready(s) => {
            assert_eq!(s.name, "Deep work");
            assert_eq!(s.category, "work");
            assert!(s.description.is_none());
            assert_eq!(s.started_at.seconds(), 0);
            assert_eq!(s.duration_secs.as_secs(), 0);
        }
        other => panic!("expected a ready draft, got {:?}", other),
    }
}

#[test]
fn test_session_completion_records_configured_duration() {
    // Complete a session whose measured time differs from the configured
    // 1500 s work duration: the record still says 1500.
    let mut app = core_with_session("Write report", 0);
    app.start_timer(0, 5_000);
    let record = app.complete_session(5_042).expect("active session completes");
    assert_eq!(record.duration_secs.as_secs(), 1500);
    assert_eq!(record.started_at.seconds(), 5_000);
    assert_eq!(record.ended_at.seconds(), 5_042);
    // The draft is retained for the next start
    assert!(matches!(app.session_phase, SessionPhase::Ready(_)));
}

#[test]
fn test_stop_session_early_records_measured_duration() {
    let mut app = core_with_session("Write report", 0);
    app.start_timer(100, 5_000);
    // 42 seconds of measured time
    let record = app.stop_session(142, 5_042).expect("active session stops");
    assert_eq!(record.duration_secs.as_secs(), 42);
    assert_eq!(record.started_at.seconds(), 5_000);
    assert_eq!(record.ended_at.seconds(), 5_042);
    // Early stop discards the working context and resets the timer
    assert!(matches!(app.session_phase, SessionPhase::Inactive));
    assert!(app.timer.is_idle());
}

#[test]
fn test_stop_session_with_zero_elapsed_is_noop() {
    let mut app = core_with_session("Quick note", 0);
    app.start_timer(100, 5_000);
    let record = app.stop_session(100, 5_000);
    assert!(record.is_none());
    // The session stays active and the timer keeps running
    assert!(matches!(app.session_phase, SessionPhase::Active { .. }));
    assert!(app.timer.is_running());
}

#[test]
fn test_end_to_end_tick_completes_and_advances() {
    // Create "Write spec" under "coding", start, let the clock pass the
    // configured work duration, and process one tick.
    let mut app = core_with_session("Write spec", 2);
    app.start_timer(0, 10_000);
    assert!(app.timer.is_running());

    let outcome = app.handle_tick(1_501, 11_501);

    assert!(outcome.phase_finished);
    let record = outcome.record.expect("the finished work phase is persisted");
    assert_eq!(record.name, "Write spec");
    assert_eq!(record.category, "coding");
    assert_eq!(record.duration_secs.as_secs(), 1500);
    assert_eq!(record.started_at.seconds(), 10_000);

    // The timer advanced into the short break and auto-started
    assert_eq!(app.timer.phase, TimerPhase::ShortBreak);
    assert!(app.timer.is_running());
    assert_eq!(app.timer.sessions_completed, 1);
}

#[test]
fn test_tick_without_finished_phase_changes_nothing() {
    let mut app = core_with_session("Write spec", 2);
    app.start_timer(0, 10_000);
    let outcome = app.handle_tick(10, 10_010);
    assert!(!outcome.phase_finished);
    assert!(outcome.record.is_none());
    assert!(app.timer.is_running());
    assert_eq!(app.timer.phase, TimerPhase::Work);
}

#[test]
fn test_tick_on_finished_break_saves_nothing() {
    let mut app = AppCore::new();
    app.timer.advance_phase(); // Work -> ShortBreak
    app.timer.start(0);
    let outcome = app.handle_tick(300, 20_000);
    assert!(outcome.phase_finished);
    assert!(outcome.record.is_none());
    assert_eq!(app.timer.phase, TimerPhase::Work);
    assert!(app.timer.is_running());
}

#[test]
fn test_current_session_and_quit() {
    let mut app = AppCore::new();
    assert!(app.current_session().is_none());
    assert!(!app.has_session());
    let mut app = core_with_session("Focus", 1);
    assert!(app.has_session());
    assert_eq!(app.current_session().unwrap().name, "Focus");
    app.running = true;
    app.quit();
    assert!(!app.running);
}
