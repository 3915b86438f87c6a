//! Platform dispatch: the four operations by name, the name each one
//! carries across the bridge to the native plugin, and the error a build
//! lacking an implementation reports.

use vstd::prelude::*;

verus! {

use crate::error::Error;
use vstd::string::StringExecFns;

/// The four operations the dispatch facade exposes.
#[derive(Debug, Clone, Copy, PartialEq, Eq, Structural)]
pub enum Operation {
    Minimize,
    Close,
    Exit,
    Foreground,
}

/// The name under which each operation crosses the bridge to the native
/// plugin.
pub open spec fn call_name_of(op: Operation) -> Seq<char> {
    match op {
        Operation::Minimize => "minimizeApp"@,
        Operation::Close => "closeApp"@,
        Operation::Exit => "exitApp"@,
        Operation::Foreground => "isAppInForeground"@,
    }
}

/// The local name of each operation, as it appears in messages.
pub open spec fn op_name_of(op: Operation) -> Seq<char> {
    match op {
        Operation::Minimize => "minimize_app"@,
        Operation::Close => "close_app"@,
        Operation::Exit => "exit_app"@,
        Operation::Foreground => "is_app_in_foreground"@,
    }
}

/// The message explaining that an operation has no implementation on the
/// running platform.
pub open spec fn unsupported_message_of(op: Operation) -> Seq<char> {
    op_name_of(op) + " is only available on mobile"@
}

/// The bridge call name of an operation.
pub fn call_name(op: Operation) -> (r: &'static str)
    ensures
        r@ == call_name_of(op),
{
    match op {
        Operation::Minimize => "minimizeApp",
        Operation::Close => "closeApp",
        Operation::Exit => "exitApp",
        Operation::Foreground => "isAppInForeground",
    }
}

fn op_name(op: Operation) -> (r: &'static str)
    ensures
        r@ == op_name_of(op),
{
    match op {
        Operation::Minimize => "minimize_app",
        Operation::Close => "close_app",
        Operation::Exit => "exit_app",
        Operation::Foreground => "is_app_in_foreground",
    }
}

/// The answer of a build that lacks a platform implementation of `op`:
/// always an `UnsupportedPlatform` error naming the operation, for every
/// operation, never a crash.
pub fn unsupported(op: Operation) -> (r: Error)
    ensures
        r matches Error::UnsupportedPlatform(m) && m@ == unsupported_message_of(op),
{
    Error::UnsupportedPlatform(op_name(op).to_owned().concat(" is only available on mobile"))
}

} // verus!
