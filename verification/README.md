# Vault Nova

A local-first password manager. The library under `src/` is written in
Verus and verified; `app/` holds the command line, the desktop shell and the
file and JSON handling around it.

- `vault`: the vault file format, sealed with Argon2id and AES-256-GCM and
  stored as Base64 text; opening what was sealed with the same password gives
  back the salt and contents.
- `entries`: saving, removing, looking up and listing entries (sorted by
  service, then username, stably).
- `app_core`: the unlock session, its timeout and the checks on requests.
- `password`: the random password generator.
- `desktop_prefs`, `desktop`: desktop preferences, the global shortcut's
  registration steps and the grace period after the window is hidden.
- `crypto`, `clock`, `text`: the primitives the rest stands on.
