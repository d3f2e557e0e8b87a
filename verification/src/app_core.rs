//! The application core: the unlock session with its timeout, and the
//! checks that guard every request to the vault.
//!
//! The core holds no files. Where a request needs the vault on disk, the
//! caller reads or writes it and hands the core what it found; every
//! decision about the session is taken here.
use vstd::prelude::*;
use vstd::string::*;

use zeroize::Zeroize;

use crate::clock::{current_timestamp, ClockError};
use crate::entries::{is_selected, opt_view};
use crate::password::{character_groups, generate_password, is_password_from, PasswordError};
use crate::text::{all_white_space, is_blank, trim, trimmed};
use crate::vault::{Entry, VaultData};

verus! {

/// Session lifetime, in seconds, until another is configured.
pub const DEFAULT_SESSION_TTL_SECONDS: u64 = 300;

/// Shortest and longest session timeout, in minutes.
pub const MIN_TIMEOUT_MINUTES: u64 = 1;

pub const MAX_TIMEOUT_MINUTES: u64 = 120;

/// An unlocked session: the master password and when it lapses.
struct Session {
    master_password: String,
    expires_at: u64,
}

/// The state of the application: where the vault lives, the current
/// session if the vault is unlocked, and how long a session lasts.
pub struct AppCore {
    vault_path: String,
    session: Option<Session>,
    session_ttl_seconds: u64,
}

/// What the status request reports.
#[derive(Debug, Clone, Copy, PartialEq, Eq)]
pub struct AppStatus {
    pub initialized: bool,
    pub unlocked: bool,
    pub expires_in_seconds: Option<u64>,
}

/// Why a request was refused.
#[derive(Debug, PartialEq, Eq)]
pub enum AppError {
    /// The timeout is outside 1 to 120 minutes.
    InvalidTimeout,
    /// The clock cannot be read, or reads a time so late that the session's
    /// end cannot be represented.
    Clock(ClockError),
    /// Setup was asked for while a vault exists.
    VaultExists,
    /// Unlock was asked for while no vault exists.
    VaultMissing,
    /// The master password is empty.
    EmptyMasterPassword,
    /// The master password and its confirmation differ.
    PasswordMismatch,
    /// There is no session.
    Locked,
    /// The session has lapsed; it is now closed.
    SessionExpired,
    /// Service, username or password is missing.
    MissingFields,
    /// The service is missing.
    MissingService,
    /// No entry matches what was asked to be deleted.
    NoMatchingEntry,
    /// The password generator refused the request.
    Password(PasswordError),
}

/// A session, as plain values.
pub struct SessionView {
    pub master_password: Seq<char>,
    pub expires_at: u64,
}

/// The application state, as plain values.
pub struct AppCoreView {
    pub vault_path: Seq<char>,
    pub session: Option<SessionView>,
    pub session_ttl_seconds: u64,
}

impl View for AppCore {
    type V = AppCoreView;

    closed spec fn view(&self) -> AppCoreView {
        AppCoreView {
            vault_path: self.vault_path@,
            session: match self.session {
                Some(s) => Some(SessionView { master_password: s.master_password@, expires_at: s.expires_at }),
                None => None,
            },
            session_ttl_seconds: self.session_ttl_seconds,
        }
    }
}

/// The session is open and has not lapsed at `now`.
pub open spec fn is_active(v: AppCoreView, now: u64) -> bool {
    v.session matches Some(s) && s.expires_at > now
}

/// The state with the session closed.
pub open spec fn locked(v: AppCoreView) -> AppCoreView {
    AppCoreView { session: None, ..v }
}

/// The state with a session for `master_password` opened at `now`.
pub open spec fn with_session(v: AppCoreView, master_password: Seq<char>, now: u64) -> AppCoreView {
    AppCoreView {
        session: Some(
            SessionView {
                master_password,
                expires_at: (now + v.session_ttl_seconds) as u64,
            },
        ),
        ..v
    }
}

/// The state after a status request at `now`: a lapsed session is closed.
pub open spec fn after_status(v: AppCoreView, now: u64) -> AppCoreView {
    if is_active(v, now) {
        v
    } else {
        locked(v)
    }
}

/// What a status request at `now` reports.
pub open spec fn status_report(v: AppCoreView, initialized: bool, now: u64) -> AppStatus {
    if is_active(v, now) {
        AppStatus {
            initialized,
            unlocked: true,
            expires_in_seconds: Some((v.session->0.expires_at - now) as u64),
        }
    } else {
        AppStatus { initialized, unlocked: false, expires_in_seconds: None }
    }
}

/// A session lifetime of `ttl` seconds from `now` ends at a time that `u64`
/// holds.
pub open spec fn fits_after(now: u64, ttl: u64) -> bool {
    now + ttl <= u64::MAX
}

/// The state after a request that needs the master password at `now`: an
/// active session is extended by the session lifetime, a lapsed one closed.
/// An active session whose extension would end past the last time `u64`
/// holds is left as it is.
pub open spec fn after_access(v: AppCoreView, now: u64) -> AppCoreView {
    if is_active(v, now) {
        if fits_after(now, v.session_ttl_seconds) {
            with_session(v, v.session->0.master_password, now)
        } else {
            v
        }
    } else {
        locked(v)
    }
}

/// What a request that needs the master password at `now` gets: the
/// password while the session is active, unless the clock reads so late
/// that the extended session's end cannot be represented.
pub open spec fn access_result(v: AppCoreView, now: u64) -> Result<Seq<char>, AppError> {
    match v.session {
        None => Err(AppError::Locked),
        Some(s) => if s.expires_at <= now {
            Err(AppError::SessionExpired)
        } else if !fits_after(now, v.session_ttl_seconds) {
            Err(AppError::Clock(ClockError::TooLate))
        } else {
            Ok(s.master_password)
        },
    }
}

/// `r` is the password result that `a` describes.
pub open spec fn password_matches(r: Result<String, AppError>, a: Result<Seq<char>, AppError>) -> bool {
    match r {
        Ok(p) => a == Ok::<Seq<char>, AppError>(p@),
        Err(e) => a == Err::<Seq<char>, AppError>(e),
    }
}

/// What opening a session at `now` gives: success, unless its end cannot be
/// represented.
pub open spec fn session_start_result(v: AppCoreView, now: u64) -> Result<(), AppError> {
    if fits_after(now, v.session_ttl_seconds) {
        Ok(())
    } else {
        Err(AppError::Clock(ClockError::TooLate))
    }
}

/// The state after a session for `master_password` is opened at `now`;
/// unchanged when its end cannot be represented.
pub open spec fn after_session_start(v: AppCoreView, master_password: Seq<char>, now: u64) -> AppCoreView {
    if fits_after(now, v.session_ttl_seconds) {
        with_session(v, master_password, now)
    } else {
        v
    }
}

/// A timeout of `minutes` is accepted.
pub open spec fn valid_timeout(minutes: u64) -> bool {
    MIN_TIMEOUT_MINUTES <= minutes <= MAX_TIMEOUT_MINUTES
}

/// The state after the timeout is set to `minutes` at `now`: the new
/// lifetime, and an open session that ends one lifetime after `now`.
pub open spec fn with_timeout(v: AppCoreView, minutes: u64, now: u64) -> AppCoreView {
    let ttl = (minutes * 60) as u64;
    AppCoreView {
        session_ttl_seconds: ttl,
        session: match v.session {
            Some(s) => Some(SessionView { master_password: s.master_password, expires_at: (now + ttl) as u64 }),
            None => None,
        },
        ..v
    }
}

/// The state with the session lifetime set to `minutes` and nothing else
/// changed.
pub open spec fn with_lifetime(v: AppCoreView, minutes: u64) -> AppCoreView {
    AppCoreView { session_ttl_seconds: (minutes * 60) as u64, ..v }
}

/// What setting the timeout to `minutes` at `now` gives: the minutes, a
/// refusal of a timeout outside 1 to 120 minutes, or, with an open session
/// whose new end cannot be represented, a clock error.
pub open spec fn timeout_result(v: AppCoreView, minutes: u64, now: u64) -> Result<u64, AppError> {
    if !valid_timeout(minutes) {
        Err(AppError::InvalidTimeout)
    } else if v.session is Some && !fits_after(now, (minutes * 60) as u64) {
        Err(AppError::Clock(ClockError::TooLate))
    } else {
        Ok(minutes)
    }
}

/// The state after the timeout is set to `minutes` at `now`: unchanged when
/// refused; only the new lifetime when the session's new end cannot be
/// represented; otherwise `with_timeout`.
pub open spec fn after_timeout(v: AppCoreView, minutes: u64, now: u64) -> AppCoreView {
    if !valid_timeout(minutes) {
        v
    } else if v.session is Some && !fits_after(now, (minutes * 60) as u64) {
        with_lifetime(v, minutes)
    } else {
        with_timeout(v, minutes, now)
    }
}

/// `zeroize::Zeroize::zeroize` on a `String`: the crate's source overwrites
/// the bytes with zeros and leaves the string empty.
#[verifier::external_body]
fn wipe(secret: &mut String)
    ensures
        final(secret)@ == Seq::<char>::empty(),
{
    secret.zeroize();
}

impl AppCore {
    /// A locked core for the vault at `vault_path`, with the default
    /// session lifetime.
    pub fn new(vault_path: String) -> (r: AppCore)
        ensures
            r@.vault_path == vault_path@,
            r@.session is None,
            r@.session_ttl_seconds == DEFAULT_SESSION_TTL_SECONDS,
    {
        AppCore { vault_path, session: None, session_ttl_seconds: DEFAULT_SESSION_TTL_SECONDS }
    }

    /// Where the vault lives.
    pub fn vault_path(&self) -> (r: &String)
        ensures
            r@ == self@.vault_path,
    {
        &self.vault_path
    }

    /// How long, in seconds, a session lasts.
    pub fn session_ttl_seconds(&self) -> (r: u64)
        ensures
            r == self@.session_ttl_seconds,
    {
        self.session_ttl_seconds
    }

    /// Closes the session, wiping the master password it held.
    fn close_session(&mut self)
        ensures
            final(self)@ == locked(old(self)@),
    {
        match self.session.take() {
            Some(mut session) => {
                wipe(&mut session.master_password);
            },
            None => {},
        }
    }

    /// Sets the session lifetime to `minutes`, at time `now`: an open
    /// session then ends one lifetime after `now`. Refuses a timeout outside
    /// 1 to 120 minutes and leaves everything as it was.
    pub fn set_session_timeout_minutes_at(&mut self, minutes: u64, now: u64) -> (r: Result<u64, AppError>)
        ensures
            r == timeout_result(old(self)@, minutes, now),
            final(self)@ == after_timeout(old(self)@, minutes, now),
    {
        if minutes < MIN_TIMEOUT_MINUTES || minutes > MAX_TIMEOUT_MINUTES {
            return Err(AppError::InvalidTimeout);
        }
        let ttl = minutes * 60;
        self.session_ttl_seconds = ttl;
        match self.session.as_mut() {
            Some(session) => {
                if now > u64::MAX - ttl {
                    return Err(AppError::Clock(ClockError::TooLate));
                }
                session.expires_at = now + ttl;
            },
            None => {},
        }
        Ok(minutes)
    }

    /// Sets the session lifetime to `minutes`, reading the clock: an open
    /// session then ends one lifetime after now. A timeout outside 1 to 120
    /// minutes is refused and changes nothing; when the clock cannot be read
    /// the new lifetime is kept and the open session is left as it was.
    pub fn set_session_timeout_minutes(&mut self, minutes: u64) -> (r: Result<u64, AppError>)
        ensures
            !valid_timeout(minutes) ==> r == Err::<u64, AppError>(AppError::InvalidTimeout) && final(self)@ == old(self)@,
            valid_timeout(minutes) ==> (r == Err::<u64, AppError>(AppError::Clock(ClockError::BeforeEpoch))
                && final(self)@ == with_lifetime(old(self)@, minutes)) || (exists|now: u64|
                r == timeout_result(old(self)@, minutes, now) && final(self)@ == after_timeout(old(self)@, minutes, now)),
    {
        if minutes < MIN_TIMEOUT_MINUTES || minutes > MAX_TIMEOUT_MINUTES {
            return Err(AppError::InvalidTimeout);
        }
        let ttl = minutes * 60;
        self.session_ttl_seconds = ttl;
        let now = match current_timestamp() {
            Ok(now) => now,
            Err(e) => {
                return Err(AppError::Clock(e));
            },
        };
        let ghost mid = self@;
        let r = self.set_session_timeout_minutes_at(minutes, now);
        assert(after_timeout(mid, minutes, now) == after_timeout(old(self)@, minutes, now));
        r
    }

    /// Reports whether a vault exists (as `initialized` says) and whether
    /// the session is active at `now`, with the seconds it has left. A
    /// lapsed session is closed.
    pub fn status_at(&mut self, initialized: bool, now: u64) -> (r: AppStatus)
        ensures
            r == status_report(old(self)@, initialized, now),
            final(self)@ == after_status(old(self)@, now),
    {
        let mut unlocked = false;
        let mut expires_in_seconds: Option<u64> = None;
        match &self.session {
            Some(session) => {
                if session.expires_at > now {
                    unlocked = true;
                    expires_in_seconds = Some(session.expires_at - now);
                }
            },
            None => {},
        }
        if !unlocked {
            self.close_session();
        }
        AppStatus { initialized, unlocked, expires_in_seconds }
    }

    /// Reports the status, reading the clock.
    pub fn status(&mut self, initialized: bool) -> (r: Result<AppStatus, AppError>)
        ensures
            r is Err ==> r == Err::<AppStatus, AppError>(AppError::Clock(ClockError::BeforeEpoch))
                && final(self)@ == old(self)@,
            r matches Ok(st) ==> exists|now: u64|
                st == status_report(old(self)@, initialized, now) && final(self)@ == after_status(
                    old(self)@,
                    now,
                ),
    {
        let now = match current_timestamp() {
            Ok(now) => now,
            Err(e) => {
                return Err(AppError::Clock(e));
            },
        };
        Ok(self.status_at(initialized, now))
    }

    /// Closes the session, wiping the master password it held.
    pub fn lock(&mut self)
        ensures
            final(self)@ == locked(old(self)@),
    {
        self.close_session();
    }

    /// The checks before a new vault is set up: none may exist yet, and the
    /// master password must not be blank and must match its confirmation.
    pub fn check_setup(vault_exists: bool, master_password: &String, confirm_password: &String) -> (r:
        Result<(), AppError>)
        ensures
            vault_exists ==> r == Err::<(), AppError>(AppError::VaultExists),
            !vault_exists && all_white_space(master_password@) ==> r == Err::<(), AppError>(
                AppError::EmptyMasterPassword,
            ),
            !vault_exists && !all_white_space(master_password@) && master_password@
                != confirm_password@ ==> r == Err::<(), AppError>(AppError::PasswordMismatch),
            (r is Ok) == (!vault_exists && !all_white_space(master_password@) && master_password@
                == confirm_password@),
    {
        if vault_exists {
            return Err(AppError::VaultExists);
        }
        if is_blank(master_password.as_str()) {
            return Err(AppError::EmptyMasterPassword);
        }
        if *master_password != *confirm_password {
            return Err(AppError::PasswordMismatch);
        }
        Ok(())
    }

    /// The checks before the vault is unlocked: it must exist and the master
    /// password must not be empty.
    pub fn check_unlock(vault_exists: bool, master_password: &String) -> (r: Result<(), AppError>)
        ensures
            !vault_exists ==> r == Err::<(), AppError>(AppError::VaultMissing),
            vault_exists && master_password@.len() == 0 ==> r == Err::<(), AppError>(
                AppError::EmptyMasterPassword,
            ),
            (r is Ok) == (vault_exists && master_password@.len() > 0),
    {
        if !vault_exists {
            return Err(AppError::VaultMissing);
        }
        if master_password.as_str().is_empty() {
            return Err(AppError::EmptyMasterPassword);
        }
        Ok(())
    }

    /// Opens a session for `master_password` at `now`, lasting one session
    /// lifetime; an earlier session is closed and its password wiped. When
    /// the session's end cannot be represented, nothing changes and the
    /// clock is reported as reading too late.
    pub fn set_session_at(&mut self, master_password: String, now: u64) -> (r: Result<(), AppError>)
        ensures
            r == session_start_result(old(self)@, now),
            final(self)@ == after_session_start(old(self)@, master_password@, now),
    {
        if now > u64::MAX - self.session_ttl_seconds {
            return Err(AppError::Clock(ClockError::TooLate));
        }
        let expires_at = now + self.session_ttl_seconds;
        self.close_session();
        self.session = Some(Session { master_password, expires_at });
        Ok(())
    }

    /// Opens a session for `master_password`, reading the clock.
    pub fn set_session(&mut self, master_password: String) -> (r: Result<(), AppError>)
        ensures
            (r == Err::<(), AppError>(AppError::Clock(ClockError::BeforeEpoch)) && final(self)@ == old(self)@)
                || (exists|now: u64|
                r == session_start_result(old(self)@, now) && final(self)@ == after_session_start(
                    old(self)@,
                    master_password@,
                    now,
                )),
    {
        let now = match current_timestamp() {
            Ok(now) => now,
            Err(e) => {
                return Err(AppError::Clock(e));
            },
        };
        self.set_session_at(master_password, now)
    }

    /// The master password for a request at `now`: while the session is
    /// active it is extended by one lifetime from `now`; a lapsed session is
    /// closed and the request refused.
    pub fn session_password_at(&mut self, now: u64) -> (r: Result<String, AppError>)
        ensures
            password_matches(r, access_result(old(self)@, now)),
            final(self)@ == after_access(old(self)@, now),
    {
        let ttl = self.session_ttl_seconds;
        match self.session.as_mut() {
            None => Err(AppError::Locked),
            Some(session) => {
                if session.expires_at <= now {
                    self.close_session();
                    Err(AppError::SessionExpired)
                } else if now > u64::MAX - ttl {
                    Err(AppError::Clock(ClockError::TooLate))
                } else {
                    session.expires_at = now + ttl;
                    Ok(session.master_password.clone())
                }
            },
        }
    }

    /// The master password for a request, reading the clock.
    pub fn session_password(&mut self) -> (r: Result<String, AppError>)
        ensures
            (r == Err::<String, AppError>(AppError::Clock(ClockError::BeforeEpoch)) && final(self)@ == old(self)@)
                || (exists|now: u64|
                final(self)@ == after_access(old(self)@, now) && password_matches(r, access_result(old(self)@, now))),
    {
        let now = match current_timestamp() {
            Ok(now) => now,
            Err(e) => {
                return Err(AppError::Clock(e));
            },
        };
        self.session_password_at(now)
    }

    /// Succeeds when the session is active (and extends it), reading the
    /// clock.
    pub fn ensure_unlocked(&mut self) -> (r: Result<(), AppError>)
        ensures
            (r == Err::<(), AppError>(AppError::Clock(ClockError::BeforeEpoch)) && final(self)@ == old(self)@)
                || (exists|now: u64|
                final(self)@ == after_access(old(self)@, now) && match r {
                    Ok(_) => access_result(old(self)@, now) is Ok,
                    Err(e) => access_result(old(self)@, now) == Err::<Seq<char>, AppError>(e),
                }),
    {
        match self.session_password() {
            Ok(mut password) => {
                wipe(&mut password);
                Ok(())
            },
            Err(e) => Err(e),
        }
    }

    /// A random password, for an unlocked vault only.
    pub fn generate_password(
        &mut self,
        length: usize,
        include_numbers: bool,
        include_symbols: bool,
    ) -> (r: Result<String, AppError>)
        ensures
            (r == Err::<String, AppError>(AppError::Clock(ClockError::BeforeEpoch)) && final(self)@ == old(self)@)
                || (exists|now: u64|
                final(self)@ == after_access(old(self)@, now) && match access_result(
                    old(self)@,
                    now,
                ) {
                    Err(e) => r == Err::<String, AppError>(e),
                    Ok(_) => {
                        &&& (r is Err) == (length < character_groups(
                            include_numbers,
                            include_symbols,
                        ).len())
                        &&& (r matches Err(e) ==> e == AppError::Password(
                            PasswordError::TooShort(
                                character_groups(include_numbers, include_symbols).len() as usize,
                            ),
                        ))
                        &&& (r matches Ok(p) ==> is_password_from(
                            p@,
                            length as nat,
                            character_groups(include_numbers, include_symbols),
                        ))
                    },
                }),
    {
        match self.ensure_unlocked() {
            Ok(()) => {},
            Err(e) => {
                return Err(e);
            },
        }
        match generate_password(length, include_numbers, include_symbols) {
            Ok(p) => Ok(p),
            Err(e) => Err(AppError::Password(e)),
        }
    }

    /// The checks before an entry is saved: service and username are
    /// trimmed, and none of them, nor the password, may be empty. Gives the
    /// trimmed service and username.
    pub fn check_upsert(service: &str, username: &str, password: &String) -> (r: Result<
        (String, String),
        AppError,
    >)
        ensures
            (r is Ok) == (trimmed(service@).len() > 0 && trimmed(username@).len() > 0
                && password@.len() > 0),
            r is Err ==> r == Err::<(String, String), AppError>(AppError::MissingFields),
            r matches Ok((s, u)) ==> s@ == trimmed(service@) && u@ == trimmed(username@),
    {
        let service = trim(service);
        let username = trim(username);
        if service.as_str().is_empty() || username.as_str().is_empty() || password.as_str().is_empty() {
            return Err(AppError::MissingFields);
        }
        Ok((service, username))
    }

    /// The check before entries are deleted: the trimmed service must not be
    /// empty. Gives the trimmed service.
    pub fn check_delete(service: &str) -> (r: Result<String, AppError>)
        ensures
            (r is Ok) == (trimmed(service@).len() > 0),
            r is Err ==> r == Err::<String, AppError>(AppError::MissingService),
            r matches Ok(s) ==> s@ == trimmed(service@),
    {
        let service = trim(service);
        if service.as_str().is_empty() {
            return Err(AppError::MissingService);
        }
        Ok(service)
    }
}

/// Deletes the entries of `service` (of one account where a username is
/// given), refusing when none matches; then nothing is removed.
pub fn delete_matching(data: &mut VaultData, service: &String, username: Option<&String>) -> (r:
    Result<usize, AppError>)
    ensures
        final(data).entries@ == old(data).entries@.filter(
            |e: Entry| !is_selected(e, service@, opt_view(username)),
        ),
        (r is Err) == (final(data).entries@.len() == old(data).entries@.len()),
        r is Err ==> r == Err::<usize, AppError>(AppError::NoMatchingEntry),
        r matches Ok(n) ==> n == old(data).entries@.len() - final(data).entries@.len() && n > 0,
{
    let removed = data.remove_entries(service, username);
    if removed == 0 {
        return Err(AppError::NoMatchingEntry);
    }
    Ok(removed)
}

/// Once the session is closed, every request that needs the master
/// password is refused as locked, and the status reports a locked vault.
pub proof fn lemma_lock_denies_access(v: AppCoreView, initialized: bool, now: u64)
    ensures
        access_result(locked(v), now) == Err::<Seq<char>, AppError>(AppError::Locked),
        !status_report(locked(v), initialized, now).unlocked,
        status_report(locked(v), initialized, now).expires_in_seconds is None,
{
}

/// A session opened at `opened` with a password gives that password to
/// every request strictly before one session lifetime has passed (while a
/// further lifetime still fits in `u64`), and refuses any later request as
/// expired.
pub proof fn lemma_session_lifetime(v: AppCoreView, master_password: Seq<char>, opened: u64, now: u64)
    requires
        fits_after(opened, v.session_ttl_seconds),
    ensures
        now < opened + v.session_ttl_seconds && fits_after(now, v.session_ttl_seconds) ==> access_result(
            after_session_start(v, master_password, opened),
            now,
        ) == Ok::<Seq<char>, AppError>(master_password),
        now >= opened + v.session_ttl_seconds ==> access_result(
            after_session_start(v, master_password, opened),
            now,
        ) == Err::<Seq<char>, AppError>(AppError::SessionExpired),
{
}

/// A granted request extends the session to one lifetime after it, with the
/// same password; a request refused as locked or expired leaves no session,
/// so that the next request is refused as locked until the vault is
/// unlocked again; a request refused for the clock changes nothing.
pub proof fn lemma_access_extends_or_closes(v: AppCoreView, now: u64, later: u64)
    ensures
        access_result(v, now) is Ok ==> after_access(v, now).session == Some(
            SessionView {
                master_password: v.session->0.master_password,
                expires_at: (now + v.session_ttl_seconds) as u64,
            },
        ),
        access_result(v, now) == Err::<Seq<char>, AppError>(AppError::Locked) || access_result(v, now)
            == Err::<Seq<char>, AppError>(AppError::SessionExpired) ==> access_result(
            after_access(v, now),
            later,
        ) == Err::<Seq<char>, AppError>(AppError::Locked),
        access_result(v, now) == Err::<Seq<char>, AppError>(AppError::Clock(ClockError::TooLate))
            ==> after_access(v, now) == v,
{
}

/// The status and the requests agree: the status reports the vault
/// unlocked exactly when the session is active, and a request at the same
/// time is then granted unless the clock reads too late.
pub proof fn lemma_status_agrees_with_access(v: AppCoreView, initialized: bool, now: u64)
    ensures
        status_report(v, initialized, now).unlocked == is_active(v, now),
        access_result(v, now) is Ok ==> status_report(v, initialized, now).unlocked,
        status_report(v, initialized, now).unlocked && fits_after(now, v.session_ttl_seconds)
            ==> access_result(v, now) is Ok,
        status_report(v, initialized, now).initialized == initialized,
        is_active(v, now) ==> status_report(v, initialized, now).expires_in_seconds == Some(
            (v.session->0.expires_at - now) as u64,
        ),
        after_status(v, now).session is Some == is_active(v, now),
{
}

/// The session lifetime stays between 1 and 120 minutes: it starts at five
/// minutes, an accepted timeout sets it within the bounds, and nothing else
/// changes it.
pub proof fn lemma_lifetime_bounds(v: AppCoreView, minutes: u64, master_password: Seq<char>, now: u64)
    requires
        60 <= v.session_ttl_seconds <= 7200,
    ensures
        60 <= DEFAULT_SESSION_TTL_SECONDS <= 7200,
        60 <= after_timeout(v, minutes, now).session_ttl_seconds <= 7200,
        locked(v).session_ttl_seconds == v.session_ttl_seconds,
        after_session_start(v, master_password, now).session_ttl_seconds == v.session_ttl_seconds,
        after_access(v, now).session_ttl_seconds == v.session_ttl_seconds,
        after_status(v, now).session_ttl_seconds == v.session_ttl_seconds,
{
}

/// An open session ends no later than one lifetime after time `t`.
pub open spec fn ends_within(v: AppCoreView, t: u64) -> bool {
    v.session matches Some(s) ==> s.expires_at <= t + v.session_ttl_seconds
}

/// With a clock that never goes back, every operation at time `now` leaves
/// an open session ending at most one (current) lifetime after `now`: a
/// new core has no session, and opening, extending, closing, reporting and
/// changing the timeout all keep the bound.
pub proof fn lemma_session_end_bounded(
    v: AppCoreView,
    t: u64,
    now: u64,
    minutes: u64,
    master_password: Seq<char>,
)
    requires
        ends_within(v, t),
        t <= now,
    ensures
        ends_within(after_session_start(v, master_password, now), now),
        ends_within(after_access(v, now), now),
        ends_within(after_status(v, now), now),
        ends_within(locked(v), now),
        ends_within(after_timeout(v, minutes, now), now),
{
}

/// While the status reports the vault unlocked, the seconds left are at
/// least one and at most the current session lifetime.
pub proof fn lemma_status_seconds_left(v: AppCoreView, initialized: bool, t: u64, now: u64)
    requires
        ends_within(v, t),
        t <= now,
    ensures
        status_report(v, initialized, now).unlocked ==> (status_report(
            v,
            initialized,
            now,
        ).expires_in_seconds matches Some(left) && 1 <= left <= v.session_ttl_seconds),
{
}

/// An accepted timeout of `minutes` set at `now` makes the lifetime
/// `60 * minutes` seconds and moves an open session's end to exactly
/// `now + 60 * minutes`, earlier or later than before, keeping its password;
/// without a session, none is opened.
pub proof fn lemma_timeout_moves_session_end(v: AppCoreView, minutes: u64, now: u64)
    requires
        1 <= minutes <= 120,
        now + 60 * minutes <= u64::MAX,
    ensures
        timeout_result(v, minutes, now) == Ok::<u64, AppError>(minutes),
        after_timeout(v, minutes, now).session_ttl_seconds == 60 * minutes,
        after_timeout(v, minutes, now).vault_path == v.vault_path,
        v.session is None ==> after_timeout(v, minutes, now).session is None,
        v.session matches Some(s) ==> after_timeout(v, minutes, now).session matches Some(t)
            && t.expires_at == now + 60 * minutes && t.master_password == s.master_password,
{
}

} // verus!
