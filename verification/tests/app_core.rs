use vault_nova::clock::ClockError;
use vault_nova::app_core::{delete_matching, AppCore, AppError};
use vault_nova::entries::sort_entries;
use vault_nova::vault::{fresh_salt, seal, unseal, Entry, VaultData, VaultFile};

/// The vault as the application keeps it on disk, held in memory: the
/// sealed file, with its contents encoded as the entries themselves.
struct Store {
    file: Option<VaultFile>,
    data: VaultData,
}

impl Store {
    fn new() -> Self {
        Store { file: None, data: VaultData::default() }
    }

    fn has_vault(&self) -> bool {
        self.file.is_some()
    }
}

fn setup(app: &mut AppCore, store: &mut Store, master: &str, confirm: &str) -> Result<(), AppError> {
    AppCore::check_setup(store.has_vault(), &master.to_string(), &confirm.to_string())?;
    let salt = fresh_salt();
    store.file = Some(seal(master, &salt, b"{\"entries\":[]}").expect("vault should seal"));
    app.set_session(master.to_string())
}

fn unlock(app: &mut AppCore, store: &Store, master: &str) -> Result<(), String> {
    AppCore::check_unlock(store.has_vault(), &master.to_string()).map_err(|e| format!("{e:?}"))?;
    unseal(store.file.as_ref().unwrap(), master)
        .map_err(|_| "wrong master password or corrupted vault".to_string())?;
    app.set_session(master.to_string()).map_err(|e| format!("{e:?}"))
}

fn list(app: &mut AppCore, store: &Store) -> Result<Vec<Entry>, AppError> {
    app.session_password()?;
    Ok(sort_entries(store.data.entries.iter().map(|e| e.duplicate()).collect()))
}

#[test]
fn setup_unlock_and_status_flow() {
    let mut store = Store::new();
    let mut app = AppCore::new("vault.json".to_string());

    let initial = app.status(store.has_vault()).expect("status should load");
    assert!(!initial.initialized);
    assert!(!initial.unlocked);

    setup(&mut app, &mut store, "master-pass", "master-pass").expect("setup should work");

    let after_setup = app.status(store.has_vault()).expect("status should load");
    assert!(after_setup.initialized);
    assert!(after_setup.unlocked);

    app.lock();
    let locked = app.status(store.has_vault()).expect("status should load");
    assert!(!locked.unlocked);

    unlock(&mut app, &store, "master-pass").expect("unlock should work");
    let unlocked = app.status(store.has_vault()).expect("status should load");
    assert!(unlocked.unlocked);
}

#[test]
fn entry_crud_requires_unlock() {
    let mut store = Store::new();
    let mut app = AppCore::new("vault.json".to_string());
    setup(&mut app, &mut store, "master-pass", "master-pass").expect("setup should work");

    let (service, username) =
        AppCore::check_upsert("github", "alice", &"secret".to_string()).expect("upsert should work");
    app.session_password().expect("upsert should work");
    store.data.upsert_entry(service, username, "secret".to_string(), Some("with otp".to_string()), 1);

    let entries = list(&mut app, &store).expect("list should work");
    assert_eq!(entries.len(), 1);
    assert_eq!(entries[0].service, "github");

    app.lock();
    assert!(list(&mut app, &store).is_err());

    unlock(&mut app, &store, "master-pass").expect("unlock should work");
    let service = AppCore::check_delete("github").expect("delete should work");
    app.session_password().expect("delete should work");
    let removed = delete_matching(&mut store.data, &service, Some(&"alice".to_string()))
        .expect("delete should work");
    assert_eq!(removed, 1);
}

#[test]
fn unlock_fails_for_wrong_password() {
    let mut store = Store::new();
    let mut app = AppCore::new("vault.json".to_string());
    setup(&mut app, &mut store, "master-pass", "master-pass").expect("setup should work");
    app.lock();

    let result = unlock(&mut app, &store, "wrong-pass");
    assert!(result.is_err());
}

#[test]
fn setup_checks_in_order() {
    let pw = "pw".to_string();
    assert_eq!(AppCore::check_setup(true, &pw, &pw), Err(AppError::VaultExists));
    assert_eq!(AppCore::check_setup(false, &" \t".to_string(), &" \t".to_string()), Err(AppError::EmptyMasterPassword));
    assert_eq!(AppCore::check_setup(false, &pw, &"other".to_string()), Err(AppError::PasswordMismatch));
    assert_eq!(AppCore::check_setup(false, &pw, &pw), Ok(()));
    assert_eq!(AppCore::check_unlock(false, &pw), Err(AppError::VaultMissing));
    assert_eq!(AppCore::check_unlock(true, &String::new()), Err(AppError::EmptyMasterPassword));
    assert_eq!(AppCore::check_unlock(true, &" ".to_string()), Ok(()));
}

#[test]
fn session_lapses_after_its_lifetime_and_is_extended_by_use() {
    let mut app = AppCore::new("vault.json".to_string());
    assert_eq!(app.session_ttl_seconds(), 300);
    assert_eq!(app.session_password_at(1_000), Err(AppError::Locked));
    app.set_session_at("pw".to_string(), 1_000).unwrap();
    let st = app.status_at(true, 1_100);
    assert!(st.unlocked);
    assert_eq!(st.expires_in_seconds, Some(200));
    assert_eq!(app.session_password_at(1_299), Ok("pw".to_string()));
    assert_eq!(app.status_at(true, 1_300).expires_in_seconds, Some(299));
    assert_eq!(app.session_password_at(1_599), Err(AppError::SessionExpired));
    assert_eq!(app.session_password_at(1_600), Err(AppError::Locked));
    assert!(!app.status_at(true, 1_600).unlocked);
}

#[test]
fn status_closes_a_lapsed_session() {
    let mut app = AppCore::new("v".to_string());
    app.set_session_at("pw".to_string(), 0).unwrap();
    let st = app.status_at(false, 300);
    assert!(!st.unlocked);
    assert_eq!(st.expires_in_seconds, None);
    assert_eq!(app.session_password_at(0), Err(AppError::Locked));
}

#[test]
fn timeout_is_bounded_and_moves_the_session_end() {
    let mut app = AppCore::new("v".to_string());
    assert_eq!(app.set_session_timeout_minutes_at(0, 10), Err(AppError::InvalidTimeout));
    assert_eq!(app.set_session_timeout_minutes_at(121, 10), Err(AppError::InvalidTimeout));
    assert_eq!(app.session_ttl_seconds(), 300);
    app.set_session_at("pw".to_string(), 0).unwrap();
    assert_eq!(app.set_session_timeout_minutes_at(2, 50), Ok(2));
    assert_eq!(app.session_ttl_seconds(), 120);
    assert_eq!(app.status_at(true, 60).expires_in_seconds, Some(110));
    assert_eq!(app.set_session_timeout_minutes(120), Ok(120));
    assert_eq!(app.session_ttl_seconds(), 7200);
}

#[test]
fn generating_needs_an_unlocked_vault() {
    let mut app = AppCore::new("v".to_string());
    assert_eq!(app.generate_password(20, true, true), Err(AppError::Locked));
    app.set_session("pw".to_string()).unwrap();
    assert_eq!(app.generate_password(20, true, true).unwrap().len(), 20);
    assert!(matches!(app.generate_password(1, true, true), Err(AppError::Password(_))));
}

#[test]
fn entry_fields_are_trimmed_and_required() {
    assert_eq!(
        AppCore::check_upsert("  github ", " alice", &"pw".to_string()),
        Ok(("github".to_string(), "alice".to_string()))
    );
    assert_eq!(AppCore::check_upsert(" ", "alice", &"pw".to_string()), Err(AppError::MissingFields));
    assert_eq!(AppCore::check_upsert("github", "alice", &String::new()), Err(AppError::MissingFields));
    assert_eq!(AppCore::check_delete("  "), Err(AppError::MissingService));
    assert_eq!(AppCore::check_delete(" aws "), Ok("aws".to_string()));
}

#[test]
fn deleting_nothing_is_refused() {
    let mut data = VaultData::default();
    assert_eq!(delete_matching(&mut data, &"x".to_string(), None), Err(AppError::NoMatchingEntry));
}

#[test]
fn a_clock_too_late_for_the_session_end_is_refused() {
    let mut app = AppCore::new("v".to_string());
    assert_eq!(app.set_session_at("pw".to_string(), u64::MAX), Err(AppError::Clock(ClockError::TooLate)));
    assert!(!app.status_at(true, 0).unlocked);
    app.set_session_at("pw".to_string(), 1_000).unwrap();
    assert_eq!(
        app.set_session_timeout_minutes_at(1, u64::MAX - 10),
        Err(AppError::Clock(ClockError::TooLate))
    );
    assert_eq!(app.session_ttl_seconds(), 60);
    assert_eq!(app.status_at(true, 1_000).expires_in_seconds, Some(300));
    let mut app = AppCore::new("v".to_string());
    app.set_session_at("pw".to_string(), u64::MAX - 300).unwrap();
    assert_eq!(app.session_password_at(u64::MAX - 10), Err(AppError::Clock(ClockError::TooLate)));
    assert_eq!(app.status_at(true, u64::MAX - 10).expires_in_seconds, Some(10));
}
