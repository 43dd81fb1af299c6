//! Resolving the worker's log folder: the fixed path under the user's home
//! directory. Opening that folder in a file browser is host work; this module
//! only computes where it is.

use vstd::prelude::*;

verus! {

/// The logs folder as a path string: the home directory with the fixed
/// suffix under it.
pub open spec fn spec_logs_path(home: Seq<char>) -> Seq<char> {
    home + "/.oriphim/logs"@
}

/// Relies on dirs::home_dir: the user's home directory as the platform
/// reports it, or `None` where it reports none. The value depends on the
/// environment, so nothing is assumed of it.
#[verifier::external_body]
fn home_dir_string() -> (r: Option<String>) {
    dirs::home_dir().map(|p| p.to_string_lossy().into_owned())
}

/// Where the logs folder is, given the home directory the platform reported:
/// the fixed path under home, or the error when there is no home.
pub fn logs_folder_target(home: Option<String>) -> (r: Result<String, String>)
    ensures
        ({
            match home {
                Some(h) => r is Ok && r->Ok_0@ == spec_logs_path(h@),
                None => r is Err && r->Err_0@ == "Could not find home directory"@,
            }
        }),
{
    match home {
        Some(h) => Ok(h.concat("/.oriphim/logs")),
        None => Err("Could not find home directory".to_owned()),
    }
}

/// Resolve the logs folder for the current user: ask the platform for the
/// home directory and place the fixed suffix under it. Fails exactly when
/// the platform reports no home directory.
pub fn resolve_logs_folder() -> (r: Result<String, String>)
    ensures
        r is Err ==> r->Err_0@ == "Could not find home directory"@,
        r is Ok ==> exists|home: Seq<char>| r->Ok_0@ == #[trigger] spec_logs_path(home),
{
    let home = home_dir_string();
    let r = logs_folder_target(home);
    proof {
        if r is Ok {
            assert(r->Ok_0@ == spec_logs_path(home->0@));
        }
    }
    r
}

} // verus!
