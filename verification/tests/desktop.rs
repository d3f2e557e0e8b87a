use vault_nova::desktop::{
    autostart_action, check_preferences_change, hide_grace_seconds, preferences_path,
    schedule_hide_grace_from_prefs, AutostartAction, DesktopPreferencesPayload, DesktopShellState,
    PreferencesError, SetDesktopPreferencesPayload, ShortcutStep,
};
use vault_nova::desktop_prefs::DesktopPreferences;

fn no_change() -> SetDesktopPreferencesPayload {
    SetDesktopPreferencesPayload {
        always_on_top: None,
        auto_lock_minutes: None,
        hide_grace_minutes: None,
        global_toggle_shortcut: None,
        launch_at_startup: None,
    }
}

#[test]
fn defaults() {
    let prefs = DesktopPreferences::default();
    assert!(prefs.always_on_top);
    assert_eq!(prefs.auto_lock_minutes, 5);
    assert_eq!(prefs.hide_grace_minutes, 1);
    assert_eq!(prefs.global_toggle_shortcut, "Ctrl+Shift+Q");
    assert!(!prefs.launch_at_startup);
}

#[test]
fn preferences_live_beside_the_vault() {
    assert_eq!(preferences_path("vault.json"), "setting.json");
    assert_eq!(preferences_path("/data/nova/vault.json"), "/data/nova/setting.json");
    assert_eq!(preferences_path("/"), "setting.json");
}

#[test]
fn new_state_uses_loaded_or_default_preferences() {
    let state = DesktopShellState::new("/d/vault.json", None);
    assert_eq!(state.snapshot(), DesktopPreferences::default());
    assert_eq!(state.prefs_path(), "/d/setting.json");
    let loaded = DesktopPreferences {
        always_on_top: false,
        auto_lock_minutes: 15,
        hide_grace_minutes: 0,
        global_toggle_shortcut: "Ctrl+Alt+V".to_string(),
        launch_at_startup: true,
    };
    let state = DesktopShellState::new("/d/vault.json", Some(loaded.duplicate()));
    assert_eq!(state.snapshot(), loaded);
    assert_eq!(state.shortcut_feedback(), (false, None));
}

#[test]
fn preference_changes_are_checked() {
    let current = DesktopPreferences::default();
    assert_eq!(check_preferences_change(&current, &no_change()), Ok(()));
    let mut p = no_change();
    p.auto_lock_minutes = Some(0);
    assert_eq!(check_preferences_change(&current, &p), Err(PreferencesError::AutoLockOutOfRange));
    p.auto_lock_minutes = Some(121);
    assert_eq!(check_preferences_change(&current, &p), Err(PreferencesError::AutoLockOutOfRange));
    let mut p = no_change();
    p.hide_grace_minutes = Some(121);
    assert_eq!(check_preferences_change(&current, &p), Err(PreferencesError::HideGraceOutOfRange));
    p.hide_grace_minutes = Some(6);
    assert_eq!(check_preferences_change(&current, &p), Err(PreferencesError::HideGraceExceedsAutoLock));
    p.auto_lock_minutes = Some(6);
    assert_eq!(check_preferences_change(&current, &p), Ok(()));
}

#[test]
fn update_applies_the_given_fields() {
    let mut state = DesktopShellState::new("vault.json", None);
    let mut p = no_change();
    p.auto_lock_minutes = Some(15);
    p.global_toggle_shortcut = Some("  Ctrl+Alt+V ".to_string());
    p.launch_at_startup = Some(true);
    let prefs = state.update(&p);
    assert!(prefs.always_on_top);
    assert_eq!(prefs.auto_lock_minutes, 15);
    assert_eq!(prefs.hide_grace_minutes, 1);
    assert_eq!(prefs.global_toggle_shortcut, "Ctrl+Alt+V");
    assert!(prefs.launch_at_startup);
    assert_eq!(state.snapshot(), prefs);
}

#[test]
fn grace_period_locks_once_after_it_ends() {
    let mut state = DesktopShellState::new("vault.json", None);
    assert!(!state.should_lock_after_hide_grace_at(100));
    state.schedule_hide_grace_lock_at(100, 60).unwrap();
    assert!(!state.should_lock_after_hide_grace_at(159));
    assert!(state.should_lock_after_hide_grace_at(160));
    assert!(!state.should_lock_after_hide_grace_at(1_000));
    state.schedule_hide_grace_lock_at(0, 0).unwrap();
    state.clear_hide_grace_lock();
    assert!(!state.should_lock_after_hide_grace_at(5));
    schedule_hide_grace_from_prefs(&mut state).expect("clock should work");
    assert_eq!(state.should_lock_after_hide_grace().expect("clock should work"), false);
}

#[test]
fn grace_seconds_are_capped() {
    let mut prefs = DesktopPreferences::default();
    assert_eq!(hide_grace_seconds(&prefs), 60);
    prefs.hide_grace_minutes = 30;
    assert_eq!(hide_grace_seconds(&prefs), 300);
    prefs.auto_lock_minutes = 500;
    prefs.hide_grace_minutes = 400;
    assert_eq!(hide_grace_seconds(&prefs), 7200);
}

#[test]
fn shortcut_registration_steps() {
    let mut state = DesktopShellState::new("vault.json", None);
    assert!(matches!(state.begin_shortcut_update("   "), ShortcutStep::Rejected));
    assert_eq!(state.shortcut_feedback(), (false, Some("global shortcut cannot be empty".to_string())));
    match state.begin_shortcut_update(" Ctrl+Shift+Q ") {
        ShortcutStep::Register { previous, shortcut } => {
            assert_eq!(previous, None);
            assert_eq!(shortcut, "Ctrl+Shift+Q");
            state.finish_shortcut_update(shortcut, true);
        }
        other => panic!("unexpected {other:?}"),
    }
    assert_eq!(state.shortcut_feedback(), (true, None));
    assert!(matches!(state.begin_shortcut_update("Ctrl+Shift+Q"), ShortcutStep::Unchanged));
    match state.begin_shortcut_update("Alt+X") {
        ShortcutStep::Register { previous, shortcut } => {
            assert_eq!(previous.as_deref(), Some("Ctrl+Shift+Q"));
            state.finish_shortcut_update(shortcut, false);
        }
        other => panic!("unexpected {other:?}"),
    }
    assert_eq!(
        state.shortcut_feedback(),
        (false, Some("快捷键 'Alt+X' 注册失败，可能与系统或其他软件冲突".to_string()))
    );
}

#[test]
fn autostart_follows_the_wish() {
    assert_eq!(autostart_action(true, false), AutostartAction::Enable);
    assert_eq!(autostart_action(false, true), AutostartAction::Disable);
    assert_eq!(autostart_action(true, true), AutostartAction::Keep);
    assert_eq!(autostart_action(false, false), AutostartAction::Keep);
}

#[test]
fn payload_reflects_preferences() {
    let prefs = DesktopPreferences::default();
    let payload = DesktopPreferencesPayload::from_prefs(&prefs, true, Some("e".to_string()));
    assert!(payload.always_on_top);
    assert_eq!(payload.auto_lock_minutes, 5);
    assert_eq!(payload.hide_grace_minutes, 1);
    assert_eq!(payload.global_toggle_shortcut, "Ctrl+Shift+Q");
    assert!(payload.global_shortcut_registered);
    assert_eq!(payload.global_shortcut_error.as_deref(), Some("e"));
    assert!(!payload.launch_at_startup);
}

#[test]
fn grace_period_end_that_overflows_is_refused() {
    let mut state = DesktopShellState::new("vault.json", None);
    assert_eq!(
        state.schedule_hide_grace_lock_at(u64::MAX, 60),
        Err(vault_nova::clock::ClockError::TooLate)
    );
    assert!(!state.should_lock_after_hide_grace_at(u64::MAX));
}
