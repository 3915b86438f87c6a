//! The plain data records that cross the call boundary: options for the
//! exit operation, one result record per operation, and the foreground
//! snapshot.

use vstd::prelude::*;

verus! {

/// Options controlling how the application exits.
#[derive(Debug, Clone, Copy, PartialEq, Eq, Structural)]
pub struct ExitOptions {
    /// Remove the application from the recent-apps list on exit.
    pub remove_from_recents: bool,
    /// Forcefully kill the process instead of a graceful exit.
    pub kill_process: bool,
}

/// The default for `remove_from_recents` when the caller omits the field.
pub fn default_true() -> (r: bool)
    ensures
        r,
{
    true
}

impl Default for ExitOptions {
    /// The options assumed when the caller supplies none: remove from
    /// recents, do not kill the process.
    fn default() -> (r: Self)
        ensures
            r.remove_from_recents,
            !r.kill_process,
    {
        ExitOptions { remove_from_recents: true, kill_process: false }
    }
}

/// Result of asking every open window to minimize.
#[derive(Debug, Clone)]
pub struct MinimizeResult {
    /// Whether at least one window was minimized.
    pub success: bool,
    /// Human-readable message describing the result.
    pub message: String,
}

/// Result of asking every open window to close.
#[derive(Debug, Clone)]
pub struct CloseResult {
    /// Whether at least one window was closed.
    pub success: bool,
    /// Human-readable message describing the result.
    pub message: String,
}

/// Result of a request to exit the application.
#[derive(Debug, Clone)]
pub struct ExitResult {
    /// Whether the exit request was accepted.
    pub success: bool,
    /// Human-readable message describing the result.
    pub message: String,
}

/// A snapshot of the application's lifecycle state. The optional fields
/// apply only on platforms where the concept exists; elsewhere they are
/// absent, and the wire codec omits them entirely.
#[derive(Debug, Clone)]
pub struct AppState {
    /// Whether the application has any presence on screen.
    pub in_foreground: bool,
    /// Whether the application is in the process of finishing.
    pub is_finishing: bool,
    /// Whether the application has been destroyed, where the platform
    /// tracks it.
    pub is_destroyed: Option<bool>,
    /// The application's package name, where the platform has one.
    pub package_name: Option<String>,
}

} // verus!
