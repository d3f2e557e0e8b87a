//! The preferences of the desktop shell.
use vstd::prelude::*;
use vstd::string::*;

verus! {

/// Settings of the desktop window and its session handling.
#[derive(Debug, PartialEq, Eq)]
pub struct DesktopPreferences {
    /// Keep the window above other windows.
    pub always_on_top: bool,
    /// Minutes of inactivity after which the vault locks.
    pub auto_lock_minutes: u64,
    /// Minutes after the window is hidden within which it reopens without
    /// asking for the master password again.
    pub hide_grace_minutes: u64,
    /// Global shortcut that hides or summons the window.
    pub global_toggle_shortcut: String,
    /// Start the application when the user logs in.
    pub launch_at_startup: bool,
}

/// The preferences as plain values.
pub struct PreferencesView {
    pub always_on_top: bool,
    pub auto_lock_minutes: u64,
    pub hide_grace_minutes: u64,
    pub global_toggle_shortcut: Seq<char>,
    pub launch_at_startup: bool,
}

impl View for DesktopPreferences {
    type V = PreferencesView;

    open spec fn view(&self) -> PreferencesView {
        PreferencesView {
            always_on_top: self.always_on_top,
            auto_lock_minutes: self.auto_lock_minutes,
            hide_grace_minutes: self.hide_grace_minutes,
            global_toggle_shortcut: self.global_toggle_shortcut@,
            launch_at_startup: self.launch_at_startup,
        }
    }
}

/// The shortcut that toggles the window unless another is chosen.
pub open spec fn default_shortcut() -> Seq<char> {
    seq!['C', 't', 'r', 'l', '+', 'S', 'h', 'i', 'f', 't', '+', 'Q']
}

/// The preferences before any are chosen.
pub open spec fn default_preferences() -> PreferencesView {
    PreferencesView {
        always_on_top: true,
        auto_lock_minutes: 5,
        hide_grace_minutes: 1,
        global_toggle_shortcut: default_shortcut(),
        launch_at_startup: false,
    }
}

impl Default for DesktopPreferences {
    /// Always on top, locking after five minutes, reopening without a
    /// password within one minute, toggled with Ctrl+Shift+Q, not started
    /// at login.
    fn default() -> (r: DesktopPreferences)
        ensures
            r@ == default_preferences(),
    {
        let shortcut = String::from_str("Ctrl+Shift+Q");
        proof {
            reveal_strlit("Ctrl+Shift+Q");
        }
        assert(shortcut@ =~= default_shortcut());
        DesktopPreferences {
            always_on_top: true,
            auto_lock_minutes: 5,
            hide_grace_minutes: 1,
            global_toggle_shortcut: shortcut,
            launch_at_startup: false,
        }
    }
}

impl DesktopPreferences {
    /// A copy of these preferences.
    pub fn duplicate(&self) -> (r: DesktopPreferences)
        ensures
            r@ == self@,
    {
        DesktopPreferences {
            always_on_top: self.always_on_top,
            auto_lock_minutes: self.auto_lock_minutes,
            hide_grace_minutes: self.hide_grace_minutes,
            global_toggle_shortcut: self.global_toggle_shortcut.clone(),
            launch_at_startup: self.launch_at_startup,
        }
    }
}

} // verus!
