//! The desktop shell's state and decisions: its preferences, the global
//! shortcut's registration, the grace period after the window is hidden,
//! and the checks on a change of preferences. The window, tray and
//! operating-system calls that carry these decisions out live outside.
use vstd::prelude::*;
use vstd::string::*;

use std::path::Path;

use crate::clock::{current_timestamp, ClockError};
use crate::desktop_prefs::{default_preferences, DesktopPreferences, PreferencesView};
use crate::text::{lemma_trim_idempotent, trim, trimmed};

verus! {

/// The file name of the preferences, kept beside the vault.
pub const PREFERENCES_FILE_NAME: &'static str = "setting.json";

/// The directory part of a path (`Path::parent`), if it has one.
pub uninterp spec fn path_parent(path: Seq<char>) -> Option<Seq<char>>;

/// A path extended by a file name (`Path::join`).
pub uninterp spec fn path_join(base: Seq<char>, name: Seq<char>) -> Seq<char>;

/// `Path::parent` of a UTF-8 path, as text. The result depends on the path
/// alone and is named; it is not spelled out.
#[verifier::external_body]
fn parent_dir(path: &str) -> (r: Option<String>)
    ensures
        match r {
            Some(p) => path_parent(path@) == Some(p@),
            None => path_parent(path@) is None,
        },
{
    match Path::new(path).parent() {
        Some(parent) => Some(parent.to_string_lossy().into_owned()),
        None => None,
    }
}

/// `Path::join` of a UTF-8 path and a file name, as text. The result
/// depends on its arguments alone and is named; it is not spelled out.
#[verifier::external_body]
fn join_path(base: &str, name: &str) -> (r: String)
    ensures
        r@ == path_join(base@, name@),
{
    Path::new(base).join(name).to_string_lossy().into_owned()
}

/// Where the preferences of the vault at `vault_path` are kept.
pub open spec fn spec_preferences_path(vault_path: Seq<char>) -> Seq<char> {
    match path_parent(vault_path) {
        Some(parent) => path_join(parent, PREFERENCES_FILE_NAME@),
        None => PREFERENCES_FILE_NAME@,
    }
}

/// The preferences file beside the vault at `vault_path`: `setting.json`
/// in the vault's directory, or on its own where the path has none.
pub fn preferences_path(vault_path: &str) -> (r: String)
    ensures
        r@ == spec_preferences_path(vault_path@),
{
    match parent_dir(vault_path) {
        Some(parent) => join_path(parent.as_str(), PREFERENCES_FILE_NAME),
        None => String::from_str(PREFERENCES_FILE_NAME),
    }
}

/// A change of preferences: each field that is given replaces the current
/// one.
#[derive(Debug)]
pub struct SetDesktopPreferencesPayload {
    pub always_on_top: Option<bool>,
    pub auto_lock_minutes: Option<u64>,
    pub hide_grace_minutes: Option<u64>,
    pub global_toggle_shortcut: Option<String>,
    pub launch_at_startup: Option<bool>,
}

/// The preferences as the settings dialog shows them, with the state of
/// the global shortcut.
#[derive(Debug)]
pub struct DesktopPreferencesPayload {
    pub always_on_top: bool,
    pub auto_lock_minutes: u64,
    pub hide_grace_minutes: u64,
    pub global_toggle_shortcut: String,
    pub global_shortcut_registered: bool,
    pub global_shortcut_error: Option<String>,
    pub launch_at_startup: bool,
}

impl DesktopPreferencesPayload {
    /// The dialog's view of `value` and of the shortcut's registration.
    pub fn from_prefs(
        value: &DesktopPreferences,
        global_shortcut_registered: bool,
        global_shortcut_error: Option<String>,
    ) -> (r: DesktopPreferencesPayload)
        ensures
            r.always_on_top == value.always_on_top,
            r.auto_lock_minutes == value.auto_lock_minutes,
            r.hide_grace_minutes == value.hide_grace_minutes,
            r.global_toggle_shortcut@ == value.global_toggle_shortcut@,
            r.global_shortcut_registered == global_shortcut_registered,
            r.global_shortcut_error == global_shortcut_error,
            r.launch_at_startup == value.launch_at_startup,
    {
        DesktopPreferencesPayload {
            always_on_top: value.always_on_top,
            auto_lock_minutes: value.auto_lock_minutes,
            hide_grace_minutes: value.hide_grace_minutes,
            global_toggle_shortcut: value.global_toggle_shortcut.clone(),
            global_shortcut_registered,
            global_shortcut_error,
            launch_at_startup: value.launch_at_startup,
        }
    }
}

/// Why a change of preferences was refused.
#[derive(Debug, PartialEq, Eq, Clone, Copy)]
pub enum PreferencesError {
    /// The auto-lock time would be outside 1 to 120 minutes.
    AutoLockOutOfRange,
    /// The grace period would be above 120 minutes.
    HideGraceOutOfRange,
    /// The grace period would be longer than the auto-lock time.
    HideGraceExceedsAutoLock,
}

/// The value an optional change gives a setting.
pub open spec fn changed<T>(change: Option<T>, current: T) -> T {
    match change {
        Some(v) => v,
        None => current,
    }
}

/// The outcome of checking a change of preferences against the current
/// ones.
pub open spec fn preferences_check(
    current: PreferencesView,
    auto_lock: Option<u64>,
    hide_grace: Option<u64>,
) -> Result<(), PreferencesError> {
    let auto = changed(auto_lock, current.auto_lock_minutes);
    let hide = changed(hide_grace, current.hide_grace_minutes);
    if !(1 <= auto <= 120) {
        Err(PreferencesError::AutoLockOutOfRange)
    } else if hide > 120 {
        Err(PreferencesError::HideGraceOutOfRange)
    } else if hide > auto {
        Err(PreferencesError::HideGraceExceedsAutoLock)
    } else {
        Ok(())
    }
}

/// Checks a change of preferences: the resulting auto-lock time must be 1
/// to 120 minutes, and the grace period at most 120 minutes and no longer
/// than the auto-lock time.
pub fn check_preferences_change(
    current: &DesktopPreferences,
    payload: &SetDesktopPreferencesPayload,
) -> (r: Result<(), PreferencesError>)
    ensures
        r == preferences_check(current@, payload.auto_lock_minutes, payload.hide_grace_minutes),
{
    let auto = match payload.auto_lock_minutes {
        Some(v) => v,
        None => current.auto_lock_minutes,
    };
    let hide = match payload.hide_grace_minutes {
        Some(v) => v,
        None => current.hide_grace_minutes,
    };
    if auto < 1 || auto > 120 {
        Err(PreferencesError::AutoLockOutOfRange)
    } else if hide > 120 {
        Err(PreferencesError::HideGraceOutOfRange)
    } else if hide > auto {
        Err(PreferencesError::HideGraceExceedsAutoLock)
    } else {
        Ok(())
    }
}

/// What to do about starting at login.
#[derive(Debug, PartialEq, Eq, Clone, Copy)]
pub enum AutostartAction {
    Enable,
    Disable,
    Keep,
}

/// Enable starting at login when it is wanted and off, disable it when it
/// is unwanted and on, and otherwise leave it.
pub fn autostart_action(wanted: bool, enabled: bool) -> (r: AutostartAction)
    ensures
        r == (if wanted && !enabled {
            AutostartAction::Enable
        } else if !wanted && enabled {
            AutostartAction::Disable
        } else {
            AutostartAction::Keep
        }),
{
    if wanted && !enabled {
        AutostartAction::Enable
    } else if !wanted && enabled {
        AutostartAction::Disable
    } else {
        AutostartAction::Keep
    }
}

/// Seconds of grace after the window is hidden: the grace period, capped by
/// the auto-lock time and by 120 minutes.
pub open spec fn spec_hide_grace_seconds(prefs: PreferencesView) -> u64 {
    let a = if prefs.hide_grace_minutes < prefs.auto_lock_minutes {
        prefs.hide_grace_minutes
    } else {
        prefs.auto_lock_minutes
    };
    let m = if a < 120 {
        a
    } else {
        120
    };
    (m * 60) as u64
}

/// The grace period, in seconds, that hiding the window starts.
pub fn hide_grace_seconds(prefs: &DesktopPreferences) -> (r: u64)
    ensures
        r == spec_hide_grace_seconds(prefs@),
        r <= 7200,
{
    let minutes = if prefs.hide_grace_minutes < prefs.auto_lock_minutes {
        prefs.hide_grace_minutes
    } else {
        prefs.auto_lock_minutes
    };
    let minutes = if minutes < 120 {
        minutes
    } else {
        120
    };
    minutes * 60
}

/// The step that a request to use a new global shortcut calls for.
#[derive(Debug)]
pub enum ShortcutStep {
    /// The shortcut is blank; the error is recorded.
    Rejected,
    /// The shortcut is the one registered already; nothing more to do.
    Unchanged,
    /// Unregister `previous` where there is one, then register `shortcut`
    /// and report the outcome with `finish_shortcut_update`.
    Register { previous: Option<String>, shortcut: String },
}

/// The error recorded for a blank shortcut.
pub open spec fn empty_shortcut_message() -> Seq<char> {
    "global shortcut cannot be empty"@
}

/// The error recorded when the system refuses a shortcut.
pub open spec fn refused_shortcut_message(shortcut: Seq<char>) -> Seq<char> {
    "快捷键 '"@ + shortcut + "' 注册失败，可能与系统或其他软件冲突"@
}

/// The desktop shell: its preferences and where they are kept, the global
/// shortcut that is registered or the error of the last attempt, and the
/// time until which a hidden window reopens without a password.
pub struct DesktopShellState {
    prefs_path: String,
    prefs: DesktopPreferences,
    registered_shortcut: Option<String>,
    shortcut_error: Option<String>,
    hide_grace_deadline: Option<u64>,
}

/// The shell state as plain values.
pub struct ShellView {
    pub prefs_path: Seq<char>,
    pub prefs: PreferencesView,
    pub registered_shortcut: Option<Seq<char>>,
    pub shortcut_error: Option<Seq<char>>,
    pub hide_grace_deadline: Option<u64>,
}

/// The view of an optional owned string.
pub open spec fn opt_string_view(s: Option<String>) -> Option<Seq<char>> {
    match s {
        Some(x) => Some(x@),
        None => None,
    }
}

impl View for DesktopShellState {
    type V = ShellView;

    closed spec fn view(&self) -> ShellView {
        ShellView {
            prefs_path: self.prefs_path@,
            prefs: self.prefs@,
            registered_shortcut: opt_string_view(self.registered_shortcut),
            shortcut_error: opt_string_view(self.shortcut_error),
            hide_grace_deadline: self.hide_grace_deadline,
        }
    }
}

/// The preferences after a change: each given field replaces the current
/// one, a shortcut trimmed of surrounding whitespace.
pub open spec fn patched(prefs: PreferencesView, payload: SetDesktopPreferencesPayload) -> PreferencesView {
    PreferencesView {
        always_on_top: changed(payload.always_on_top, prefs.always_on_top),
        auto_lock_minutes: changed(payload.auto_lock_minutes, prefs.auto_lock_minutes),
        hide_grace_minutes: changed(payload.hide_grace_minutes, prefs.hide_grace_minutes),
        global_toggle_shortcut: match payload.global_toggle_shortcut {
            Some(s) => trimmed(s@),
            None => prefs.global_toggle_shortcut,
        },
        launch_at_startup: changed(payload.launch_at_startup, prefs.launch_at_startup),
    }
}

/// What starting a grace period of `seconds` at `now` gives: success,
/// unless its end cannot be represented.
pub open spec fn grace_start_result(now: u64, seconds: u64) -> Result<(), ClockError> {
    if now + seconds <= u64::MAX {
        Ok(())
    } else {
        Err(ClockError::TooLate)
    }
}

/// The shell after a grace period of `seconds` is started at `now`: it ends
/// at `now + seconds`; unchanged when that end cannot be represented.
pub open spec fn after_grace_start(v: ShellView, now: u64, seconds: u64) -> ShellView {
    if now + seconds <= u64::MAX {
        ShellView { hide_grace_deadline: Some((now + seconds) as u64), ..v }
    } else {
        v
    }
}

/// Whether a hidden window must lock when summoned at `now`: the grace
/// period has ended.
pub open spec fn grace_over(deadline: Option<u64>, now: u64) -> bool {
    deadline matches Some(d) && now >= d
}

impl DesktopShellState {
    /// The shell for the vault at `vault_path`, with the preferences read
    /// from its preferences file, or the defaults where there were none to
    /// read. No shortcut is registered yet and no grace period runs.
    pub fn new(vault_path: &str, loaded: Option<DesktopPreferences>) -> (r: DesktopShellState)
        ensures
            r@.prefs_path == spec_preferences_path(vault_path@),
            r@.prefs == match loaded {
                Some(p) => p@,
                None => default_preferences(),
            },
            r@.registered_shortcut is None,
            r@.shortcut_error is None,
            r@.hide_grace_deadline is None,
    {
        let prefs = match loaded {
            Some(p) => p,
            None => DesktopPreferences::default(),
        };
        DesktopShellState {
            prefs_path: preferences_path(vault_path),
            prefs,
            registered_shortcut: None,
            shortcut_error: None,
            hide_grace_deadline: None,
        }
    }

    /// Where the preferences are kept.
    pub fn prefs_path(&self) -> (r: &String)
        ensures
            r@ == self@.prefs_path,
    {
        &self.prefs_path
    }

    /// A copy of the current preferences.
    pub fn snapshot(&self) -> (r: DesktopPreferences)
        ensures
            r@ == self@.prefs,
    {
        self.prefs.duplicate()
    }

    /// Applies a change of preferences and gives the result, which the
    /// caller then saves.
    pub fn update(&mut self, payload: &SetDesktopPreferencesPayload) -> (r: DesktopPreferences)
        ensures
            final(self)@ == (ShellView { prefs: patched(old(self)@.prefs, *payload), ..old(self)@ }),
            r@ == final(self)@.prefs,
    {
        match payload.always_on_top {
            Some(v) => {
                self.prefs.always_on_top = v;
            },
            None => {},
        }
        match payload.auto_lock_minutes {
            Some(v) => {
                self.prefs.auto_lock_minutes = v;
            },
            None => {},
        }
        match payload.hide_grace_minutes {
            Some(v) => {
                self.prefs.hide_grace_minutes = v;
            },
            None => {},
        }
        match &payload.global_toggle_shortcut {
            Some(s) => {
                self.prefs.global_toggle_shortcut = trim(s.as_str());
            },
            None => {},
        }
        match payload.launch_at_startup {
            Some(v) => {
                self.prefs.launch_at_startup = v;
            },
            None => {},
        }
        self.prefs.duplicate()
    }

    /// Records the registered shortcut and the error of the last attempt.
    pub fn set_shortcut_state(
        &mut self,
        registered_shortcut: Option<String>,
        shortcut_error: Option<String>,
    )
        ensures
            final(self)@ == (ShellView {
                registered_shortcut: opt_string_view(registered_shortcut),
                shortcut_error: opt_string_view(shortcut_error),
                ..old(self)@
            }),
    {
        self.registered_shortcut = registered_shortcut;
        self.shortcut_error = shortcut_error;
    }

    /// Whether a shortcut is registered, and the error of the last attempt.
    pub fn shortcut_feedback(&self) -> (r: (bool, Option<String>))
        ensures
            r.0 == (self@.registered_shortcut is Some),
            opt_string_view(r.1) == self@.shortcut_error,
    {
        let error = match &self.shortcut_error {
            Some(e) => Some(e.clone()),
            None => None,
        };
        (self.registered_shortcut.is_some(), error)
    }

    /// Starts a grace period of `seconds` from `now`; it ends at `now +
    /// seconds`. When that end cannot be represented, nothing changes and
    /// the clock is reported as reading too late.
    pub fn schedule_hide_grace_lock_at(&mut self, now: u64, seconds: u64) -> (r: Result<(), ClockError>)
        ensures
            r == grace_start_result(now, seconds),
            final(self)@ == after_grace_start(old(self)@, now, seconds),
    {
        if now > u64::MAX - seconds {
            return Err(ClockError::TooLate);
        }
        self.hide_grace_deadline = Some(now + seconds);
        Ok(())
    }

    /// Starts a grace period of `seconds`, reading the clock: it ends
    /// `seconds` after the time read.
    pub fn schedule_hide_grace_lock(&mut self, seconds: u64) -> (r: Result<(), ClockError>)
        ensures
            (r == Err::<(), ClockError>(ClockError::BeforeEpoch) && final(self)@ == old(self)@) || (
            exists|now: u64|
                r == grace_start_result(now, seconds) && final(self)@ == after_grace_start(
                    old(self)@,
                    now,
                    seconds,
                )),
    {
        let now = current_timestamp()?;
        self.schedule_hide_grace_lock_at(now, seconds)
    }

    /// Ends any grace period.
    pub fn clear_hide_grace_lock(&mut self)
        ensures
            final(self)@ == (ShellView { hide_grace_deadline: None, ..old(self)@ }),
    {
        self.hide_grace_deadline = None;
    }

    /// Whether the window, summoned at `now`, must ask for the password
    /// again: a grace period ran and has ended. That period is then over.
    pub fn should_lock_after_hide_grace_at(&mut self, now: u64) -> (r: bool)
        ensures
            r == grace_over(old(self)@.hide_grace_deadline, now),
            r ==> final(self)@ == (ShellView { hide_grace_deadline: None, ..old(self)@ }),
            !r ==> final(self)@ == old(self)@,
    {
        match self.hide_grace_deadline {
            Some(deadline) => {
                if now >= deadline {
                    self.hide_grace_deadline = None;
                    true
                } else {
                    false
                }
            },
            None => false,
        }
    }

    /// Whether the window must ask for the password again, reading the
    /// clock.
    pub fn should_lock_after_hide_grace(&mut self) -> (r: Result<bool, ClockError>)
        ensures
            r is Err ==> final(self)@ == old(self)@,
            r is Err ==> r == Err::<bool, ClockError>(ClockError::BeforeEpoch),
            r matches Ok(b) ==> exists|now: u64|
                b == grace_over(old(self)@.hide_grace_deadline, now) && (b ==> final(self)@ == (
                ShellView { hide_grace_deadline: None, ..old(self)@ })) && (!b ==> final(self)@
                    == old(self)@),
    {
        let now = current_timestamp()?;
        Ok(self.should_lock_after_hide_grace_at(now))
    }

    /// The first step of switching to the global shortcut `shortcut`
    /// (trimmed): a blank one is refused and the error recorded; the one
    /// already registered is kept and the error cleared; otherwise the
    /// caller is to unregister the current one and register the new one.
    pub fn begin_shortcut_update(&mut self, shortcut: &str) -> (r: ShortcutStep)
        ensures
            trimmed(shortcut@).len() == 0 ==> r is Rejected && final(self)@ == (ShellView {
                registered_shortcut: None,
                shortcut_error: Some(empty_shortcut_message()),
                ..old(self)@
            }),
            trimmed(shortcut@).len() > 0 && old(self)@.registered_shortcut == Some(trimmed(shortcut@))
                ==> r is Unchanged && final(self)@ == (ShellView { shortcut_error: None, ..old(self)@ }),
            trimmed(shortcut@).len() > 0 && old(self)@.registered_shortcut != Some(trimmed(shortcut@))
                ==> final(self)@ == old(self)@ && (r matches ShortcutStep::Register { previous, shortcut: s }
                && s@ == trimmed(shortcut@) && opt_string_view(previous) == old(self)@.registered_shortcut),
    {
        let normalized = trim(shortcut);
        if normalized.as_str().is_empty() {
            let message = String::from_str("global shortcut cannot be empty");
            self.set_shortcut_state(None, Some(message));
            return ShortcutStep::Rejected;
        }
        let current = match &self.registered_shortcut {
            Some(existing) => Some(existing.clone()),
            None => None,
        };
        match current {
            Some(existing) => {
                if existing == normalized {
                    self.set_shortcut_state(Some(existing), None);
                    ShortcutStep::Unchanged
                } else {
                    ShortcutStep::Register { previous: Some(existing), shortcut: normalized }
                }
            },
            None => ShortcutStep::Register { previous: None, shortcut: normalized },
        }
    }

    /// The last step of switching shortcuts: records `shortcut` as
    /// registered, or, when the system refused it, records no shortcut and
    /// the refusal.
    pub fn finish_shortcut_update(&mut self, shortcut: String, registered: bool)
        ensures
            registered ==> final(self)@ == (ShellView {
                registered_shortcut: Some(shortcut@),
                shortcut_error: None,
                ..old(self)@
            }),
            !registered ==> final(self)@ == (ShellView {
                registered_shortcut: None,
                shortcut_error: Some(refused_shortcut_message(shortcut@)),
                ..old(self)@
            }),
    {
        if registered {
            self.set_shortcut_state(Some(shortcut), None);
        } else {
            let mut message = String::from_str("快捷键 '");
            message.append(shortcut.as_str());
            message.append("' 注册失败，可能与系统或其他软件冲突");
            self.set_shortcut_state(None, Some(message));
        }
    }
}

/// Starts the grace period that hiding the window gives, as the
/// preferences set it, reading the clock.
pub fn schedule_hide_grace_from_prefs(state: &mut DesktopShellState) -> (r: Result<(), ClockError>)
    ensures
        (r == Err::<(), ClockError>(ClockError::BeforeEpoch) && final(state)@ == old(state)@) || (
        exists|now: u64|
            r == grace_start_result(now, spec_hide_grace_seconds(old(state)@.prefs)) && final(state)@
                == after_grace_start(old(state)@, now, spec_hide_grace_seconds(old(state)@.prefs))),
{
    let prefs = state.snapshot();
    let seconds = hide_grace_seconds(&prefs);
    state.schedule_hide_grace_lock(seconds)
}

/// A change that the check accepts leaves preferences within bounds: an
/// auto-lock time of 1 to 120 minutes and a grace period no longer than
/// it.
pub proof fn lemma_accepted_change_within_bounds(current: PreferencesView, payload: SetDesktopPreferencesPayload)
    requires
        preferences_check(current, payload.auto_lock_minutes, payload.hide_grace_minutes) is Ok,
    ensures
        ({
            let p = patched(current, payload);
            &&& 1 <= p.auto_lock_minutes <= 120
            &&& p.hide_grace_minutes <= p.auto_lock_minutes
        }),
{
}

/// The grace period never outlasts the auto-lock time nor two hours, and
/// for preferences within bounds it is the chosen number of minutes.
pub proof fn lemma_grace_within_auto_lock(p: PreferencesView)
    ensures
        spec_hide_grace_seconds(p) <= 60 * p.auto_lock_minutes,
        spec_hide_grace_seconds(p) <= 7200,
        p.hide_grace_minutes <= p.auto_lock_minutes <= 120 ==> spec_hide_grace_seconds(p) == 60
            * p.hide_grace_minutes,
{
}

/// A grace period started at `start` for `seconds` ends at `start +
/// seconds`: summoning the window before then keeps the session, at or
/// after then locks it, and once it has locked a later summons does not
/// lock again.
pub proof fn lemma_grace_locks_once(v: ShellView, start: u64, seconds: u64, now: u64, later: u64)
    requires
        start + seconds <= u64::MAX,
    ensures
        after_grace_start(v, start, seconds).hide_grace_deadline == Some((start + seconds) as u64),
        grace_over(Some((start + seconds) as u64), now) == (now >= start + seconds),
        !grace_over(None, later),
{
}

/// A shortcut stored in the preferences is stored trimmed, so asking for it
/// again finds it already registered.
pub proof fn lemma_stored_shortcut_is_stable(shortcut: Seq<char>)
    ensures
        trimmed(trimmed(shortcut)) == trimmed(shortcut),
{
    lemma_trim_idempotent(shortcut);
}

/// A change of preferences sets each setting it gives to the given value
/// (a shortcut trimmed of surrounding whitespace) and leaves each setting
/// it omits as it was.
pub proof fn lemma_patch_sets_given_fields(prefs: PreferencesView, payload: SetDesktopPreferencesPayload)
    ensures
        ({
            let p = patched(prefs, payload);
            &&& match payload.always_on_top {
                Some(b) => p.always_on_top == b,
                None => p.always_on_top == prefs.always_on_top,
            }
            &&& match payload.auto_lock_minutes {
                Some(m) => p.auto_lock_minutes == m,
                None => p.auto_lock_minutes == prefs.auto_lock_minutes,
            }
            &&& match payload.hide_grace_minutes {
                Some(m) => p.hide_grace_minutes == m,
                None => p.hide_grace_minutes == prefs.hide_grace_minutes,
            }
            &&& match payload.global_toggle_shortcut {
                Some(sc) => p.global_toggle_shortcut == trimmed(sc@),
                None => p.global_toggle_shortcut == prefs.global_toggle_shortcut,
            }
            &&& match payload.launch_at_startup {
                Some(b) => p.launch_at_startup == b,
                None => p.launch_at_startup == prefs.launch_at_startup,
            }
        }),
{
}

} // verus!
