//! Where the desktop app finds its vault when given a relative path.
use vstd::prelude::*;

verus! {

/// A candidate path and whether a file exists there, as plain values.
pub open spec fn candidate_view(c: Option<(String, bool)>) -> Option<(Seq<char>, bool)> {
    match c {
        Some((p, e)) => Some((p@, e)),
        None => None,
    }
}

/// The vault path chosen: an absolute default as it is; otherwise the first
/// of the working-directory and executable-directory candidates where the
/// file exists, then the per-user data directory, then the executable's or
/// the working directory's candidate, and last the default itself.
pub open spec fn resolved_path(
    default_path: Seq<char>,
    default_is_absolute: bool,
    cwd: Option<(Seq<char>, bool)>,
    exe: Option<(Seq<char>, bool)>,
    app_data: Option<Seq<char>>,
) -> Seq<char> {
    if default_is_absolute {
        default_path
    } else {
        match cwd {
            Some((p, true)) => p,
            _ => match exe {
                Some((p, true)) => p,
                _ => match app_data {
                    Some(p) => p,
                    None => match exe {
                        Some((p, _)) => p,
                        None => match cwd {
                            Some((p, _)) => p,
                            None => default_path,
                        },
                    },
                },
            },
        }
    }
}

/// Chooses the vault path from the default path and the candidates beside
/// the working directory, beside the executable (each with whether the file
/// exists there) and in the per-user data directory.
pub fn resolve_vault_path(
    default_path: String,
    default_is_absolute: bool,
    cwd_candidate: Option<(String, bool)>,
    exe_candidate: Option<(String, bool)>,
    app_data_candidate: Option<String>,
) -> (r: String)
    ensures
        r@ == resolved_path(
            default_path@,
            default_is_absolute,
            candidate_view(cwd_candidate),
            candidate_view(exe_candidate),
            match app_data_candidate {
                Some(p) => Some(p@),
                None => None,
            },
        ),
{
    if default_is_absolute {
        return default_path;
    }
    let cwd_exists = match &cwd_candidate {
        Some((_, e)) => *e,
        None => false,
    };
    if cwd_exists {
        match cwd_candidate {
            Some((p, _)) => {
                return p;
            },
            None => {},
        }
    }
    let exe_exists = match &exe_candidate {
        Some((_, e)) => *e,
        None => false,
    };
    if exe_exists {
        match exe_candidate {
            Some((p, _)) => {
                return p;
            },
            None => {},
        }
    }
    match app_data_candidate {
        Some(p) => p,
        None => match exe_candidate {
            Some((p, _)) => p,
            None => match cwd_candidate {
                Some((p, _)) => p,
                None => default_path,
            },
        },
    }
}

} // verus!
