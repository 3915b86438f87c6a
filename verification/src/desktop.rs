//! The desktop implementation of the four operations. The window-manager
//! handle stays with the host shell: each operation takes the per-window
//! snapshot it needs as plain values and computes the typed result, so
//! enumerating windows and driving them is the shell's part, deciding and
//! reporting is this module's.

use vstd::prelude::*;

verus! {

use crate::decimal::{dec_seq, dec_string};
use crate::error::AppResult;
use crate::models::{AppState, CloseResult, ExitOptions, ExitResult, MinimizeResult};
use vstd::string::{StrSliceExecFns, StringExecFns};

/// Per-window visibility and focus flags, as read from the window manager.
#[derive(Debug, Clone, Copy, PartialEq, Eq, Structural)]
pub struct WindowFlags {
    /// Whether the window has any presence on screen.
    pub visible: bool,
    /// Whether the window holds input focus.
    pub focused: bool,
}

/// How many entries of a per-window outcome list are true.
pub open spec fn count_true(s: Seq<bool>) -> nat
    decreases s.len(),
{
    if s.len() == 0 {
        0
    } else {
        count_true(s.drop_last()) + (if s.last() {
            1nat
        } else {
            0nat
        })
    }
}

/// Whether any window of the snapshot is visible.
pub open spec fn any_visible(s: Seq<WindowFlags>) -> bool {
    exists|i: int| 0 <= i < s.len() && s[i].visible
}

/// The message reported after asking every window to minimize.
pub open spec fn minimize_message_of(affected: nat, total: nat) -> Seq<char> {
    "Minimized "@ + dec_seq(affected) + "/"@ + dec_seq(total) + " windows"@
}

/// The message reported after asking every window to close.
pub open spec fn close_message_of(affected: nat, total: nat) -> Seq<char> {
    "Closed "@ + dec_seq(affected) + "/"@ + dec_seq(total) + " windows"@
}

/// The message reported when an exit request is accepted.
pub open spec fn exit_message_of() -> Seq<char> {
    "Exiting application"@
}

fn count_successes(outcomes: &Vec<bool>) -> (c: usize)
    ensures
        c as nat == count_true(outcomes@),
        c <= outcomes@.len(),
{
    let mut c: usize = 0;
    let mut i: usize = 0;
    while i < outcomes.len()
        invariant
            i <= outcomes@.len(),
            c <= i,
            c as nat == count_true(outcomes@.take(i as int)),
        decreases outcomes@.len() - i,
    {
        proof {
            assert(outcomes@.take(i as int + 1).drop_last() =~= outcomes@.take(i as int));
            assert(outcomes@.take(i as int + 1).last() == outcomes@[i as int]);
        }
        if outcomes[i] {
            c = c + 1;
        }
        i = i + 1;
    }
    proof {
        assert(outcomes@.take(outcomes@.len() as int) =~= outcomes@);
    }
    c
}

fn count_message(prefix: &'static str, affected: usize, total: usize) -> (r: String)
    ensures
        r@ == prefix@ + dec_seq(affected as nat) + "/"@ + dec_seq(total as nat) + " windows"@,
{
    prefix
        .to_owned()
        .concat(dec_string(affected as u64).as_str())
        .concat("/")
        .concat(dec_string(total as u64).as_str())
        .concat(" windows")
}

/// The desktop dispatch target: operates on snapshots of the host
/// shell's windows, handed in as plain values.
pub struct AppControl {}

impl AppControl {
    /// Report the outcome of asking every open window to minimize:
    /// `outcomes[i]` says whether window `i` was minimized. Per-window
    /// failures are absorbed, never escalated: the call is a success
    /// exactly when at least one window was affected, and the message
    /// reports the counts as "affected/total".
    pub fn minimize_app(&self, outcomes: &Vec<bool>) -> (r: AppResult<MinimizeResult>)
        ensures
            r matches Ok(m) && m.success == (count_true(outcomes@) > 0) && m.message@
                == minimize_message_of(count_true(outcomes@), outcomes@.len()),
    {
        let total = outcomes.len();
        let affected = count_successes(outcomes);
        Ok(
            MinimizeResult {
                success: affected > 0,
                message: count_message("Minimized ", affected, total),
            },
        )
    }

    /// Report the outcome of asking every open window to close, under
    /// the same policy as minimizing.
    pub fn close_app(&self, outcomes: &Vec<bool>) -> (r: AppResult<CloseResult>)
        ensures
            r matches Ok(m) && m.success == (count_true(outcomes@) > 0) && m.message@
                == close_message_of(count_true(outcomes@), outcomes@.len()),
    {
        let total = outcomes.len();
        let affected = count_successes(outcomes);
        Ok(
            CloseResult {
                success: affected > 0,
                message: count_message("Closed ", affected, total),
            },
        )
    }

    /// Accept a request to exit. Desktop process termination is
    /// unconditional, so the options have no effect here and the result
    /// never depends on them: it always reports success. The host shell
    /// terminates the process after this result is produced.
    pub fn exit_app(&self, options: ExitOptions) -> (r: AppResult<ExitResult>)
        ensures
            r matches Ok(e) && e.success && e.message@ == exit_message_of(),
    {
        let _ = options;
        Ok(ExitResult { success: true, message: "Exiting application".to_owned() })
    }

    /// Reconcile the foreground state from a snapshot of per-window
    /// flags: a visible and focused window decides at once, and any
    /// visible window counts as presence on screen, so the application
    /// is in the foreground exactly when some window is visible. The
    /// finishing and destroyed concepts do not apply on desktop.
    pub fn is_app_in_foreground(&self, windows: &Vec<WindowFlags>) -> (r: AppResult<AppState>)
        ensures
            r matches Ok(st) && st.in_foreground == any_visible(windows@) && !st.is_finishing
                && st.is_destroyed is None && st.package_name is None,
    {
        let mut saw_visible = false;
        let mut i: usize = 0;
        while i < windows.len()
            invariant
                i <= windows@.len(),
                saw_visible == any_visible(windows@.take(i as int)),
            decreases windows@.len() - i,
        {
            let w = windows[i];
            if w.visible && w.focused {
                proof {
                    assert(windows@[i as int].visible);
                }
                return Ok(
                    AppState {
                        in_foreground: true,
                        is_finishing: false,
                        is_destroyed: None,
                        package_name: None,
                    },
                );
            }
            proof {
                let t0 = windows@.take(i as int);
                let t1 = windows@.take(i as int + 1);
                assert(t1.drop_last() =~= t0);
                assert(t1[i as int] == windows@[i as int]);
                if w.visible {
                    assert(any_visible(t1));
                } else {
                    if any_visible(t1) {
                        let j = choose|j: int| 0 <= j < t1.len() && t1[j].visible;
                        assert(j < i);
                        assert(t0[j].visible);
                    }
                    if any_visible(t0) {
                        let j = choose|j: int| 0 <= j < t0.len() && t0[j].visible;
                        assert(t1[j].visible);
                    }
                }
            }
            if w.visible {
                saw_visible = true;
            }
            i = i + 1;
        }
        proof {
            assert(windows@.take(windows@.len() as int) =~= windows@);
        }
        Ok(
            AppState {
                in_foreground: saw_visible,
                is_finishing: false,
                is_destroyed: None,
                package_name: None,
            },
        )
    }
}

} // verus!
