//! Log file locations, relative to the application's base directory.
//!
//! The base directory itself (next to the executable, or the working
//! directory as a fallback) is resolved by the host shell; these
//! functions fix where under it the log files live.

use vstd::prelude::*;

verus! {

/// Directory that holds all log files, relative to the base directory.
pub fn log_dir() -> (r: String)
    ensures
        r@ == "projects/logs"@,
{
    "projects/logs".to_owned()
}

/// The desktop application's own log file, relative to the base
/// directory.
pub fn desktop_log_path() -> (r: String)
    ensures
        r@ == "projects/logs/desktop.log"@,
        r@ == "projects/logs"@ + "/desktop.log"@,
{
    proof {
        reveal_strlit("projects/logs/desktop.log");
        reveal_strlit("projects/logs");
        reveal_strlit("/desktop.log");
        assert("projects/logs/desktop.log"@ =~= "projects/logs"@ + "/desktop.log"@);
    }
    "projects/logs/desktop.log".to_owned()
}

/// The backend service's log file, relative to the base directory.
pub fn sidecar_log_path() -> (r: String)
    ensures
        r@ == "projects/logs/api.log"@,
        r@ == "projects/logs"@ + "/api.log"@,
{
    proof {
        reveal_strlit("projects/logs/api.log");
        reveal_strlit("projects/logs");
        reveal_strlit("/api.log");
        assert("projects/logs/api.log"@ =~= "projects/logs"@ + "/api.log"@);
    }
    "projects/logs/api.log".to_owned()
}

} // verus!
