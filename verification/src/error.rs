//! The error envelope: a closed set of error kinds, each mapped to a
//! stable short code and to a human-readable message. The message, not
//! the code, is what crosses the boundary to the host shell.

use vstd::prelude::*;

verus! {

use vstd::string::StringExecFns;

/// The closed set of failures an operation can report. The transparent
/// kinds carry the underlying failure's message as plain text.
#[derive(Debug, Clone)]
pub enum Error {
    /// An underlying I/O failure, carrying its message.
    Io(String),
    /// A host-shell plugin-system failure, carrying its message.
    PluginApi(String),
    /// A native-bridge call failure, carrying its message.
    PluginInvoke(String),
    /// The minimize operation failed outright. Reserved for a stricter
    /// policy; the current logic folds per-window failures into the
    /// result's `success` flag instead.
    MinimizeFailed,
    /// The close operation failed outright. Reserved, as above.
    CloseFailed,
    /// The exit operation failed outright. Reserved, as above.
    ExitFailed,
    /// An operation was invoked without its required host context.
    InvalidContext,
    /// The operation has no implementation on this platform.
    UnsupportedPlatform(String),
    /// An unclassified failure, carrying free-text detail.
    Unknown(String),
}

/// The result type of every operation.
pub type AppResult<T> = core::result::Result<T, Error>;

/// A number identifying an error's kind alone, ignoring any carried text.
pub open spec fn kind_index(e: Error) -> int {
    match e {
        Error::Io(_) => 0,
        Error::PluginApi(_) => 1,
        Error::PluginInvoke(_) => 2,
        Error::MinimizeFailed => 3,
        Error::CloseFailed => 4,
        Error::ExitFailed => 5,
        Error::InvalidContext => 6,
        Error::UnsupportedPlatform(_) => 7,
        Error::Unknown(_) => 8,
    }
}

/// The stable short code of each error kind.
pub open spec fn code_of(e: Error) -> Seq<char> {
    match e {
        Error::Io(_) => "ioError"@,
        Error::PluginApi(_) => "pluginError"@,
        Error::PluginInvoke(_) => "pluginInvokeError"@,
        Error::MinimizeFailed => "minimizeFailed"@,
        Error::CloseFailed => "closeFailed"@,
        Error::ExitFailed => "exitFailed"@,
        Error::InvalidContext => "invalidContext"@,
        Error::UnsupportedPlatform(_) => "unsupportedPlatform"@,
        Error::Unknown(_) => "unknownError"@,
    }
}

/// The human-readable message of each error. Transparent kinds show the
/// carried text as it is; the parameterized kinds prefix it.
pub open spec fn message_of(e: Error) -> Seq<char> {
    match e {
        Error::Io(m) => m@,
        Error::PluginApi(m) => m@,
        Error::PluginInvoke(m) => m@,
        Error::MinimizeFailed => "Failed to minimize app"@,
        Error::CloseFailed => "Failed to close app"@,
        Error::ExitFailed => "Failed to exit app"@,
        Error::InvalidContext => "Invalid context"@,
        Error::UnsupportedPlatform(m) => "Unsupported platform: "@ + m@,
        Error::Unknown(m) => "Unknown error: "@ + m@,
    }
}

impl Error {
    /// The stable short code for this error, for cross-boundary use.
    pub fn error_code(&self) -> (r: &'static str)
        ensures
            r@ == code_of(*self),
    {
        match self {
            Error::Io(_) => "ioError",
            Error::PluginApi(_) => "pluginError",
            Error::PluginInvoke(_) => "pluginInvokeError",
            Error::MinimizeFailed => "minimizeFailed",
            Error::CloseFailed => "closeFailed",
            Error::ExitFailed => "exitFailed",
            Error::InvalidContext => "invalidContext",
            Error::UnsupportedPlatform(_) => "unsupportedPlatform",
            Error::Unknown(_) => "unknownError",
        }
    }

    /// The human-readable message for this error; this text, not the
    /// short code, is what is serialized to the host shell.
    pub fn message(&self) -> (r: String)
        ensures
            r@ == message_of(*self),
    {
        match self {
            Error::Io(m) => m.clone(),
            Error::PluginApi(m) => m.clone(),
            Error::PluginInvoke(m) => m.clone(),
            Error::MinimizeFailed => "Failed to minimize app".to_owned(),
            Error::CloseFailed => "Failed to close app".to_owned(),
            Error::ExitFailed => "Failed to exit app".to_owned(),
            Error::InvalidContext => "Invalid context".to_owned(),
            Error::UnsupportedPlatform(m) => {
                "Unsupported platform: ".to_owned().concat(m.as_str())
            },
            Error::Unknown(m) => "Unknown error: ".to_owned().concat(m.as_str()),
        }
    }
}

/// Law: the code mapping is total and depends on the error's kind alone,
/// and no two kinds share a code: two errors carry the same code exactly
/// when they are of the same kind.
pub proof fn lemma_error_code_injective(a: Error, b: Error)
    ensures
        code_of(a) == code_of(b) <==> kind_index(a) == kind_index(b),
{
    reveal_strlit("ioError");
    reveal_strlit("pluginError");
    reveal_strlit("pluginInvokeError");
    reveal_strlit("minimizeFailed");
    reveal_strlit("closeFailed");
    reveal_strlit("exitFailed");
    reveal_strlit("invalidContext");
    reveal_strlit("unsupportedPlatform");
    reveal_strlit("unknownError");
    assert("ioError"@.len() == 7);
    assert("pluginError"@.len() == 11);
    assert("pluginInvokeError"@.len() == 17);
    assert("minimizeFailed"@.len() == 14);
    assert("closeFailed"@.len() == 11);
    assert("exitFailed"@.len() == 10);
    assert("invalidContext"@.len() == 14);
    assert("unsupportedPlatform"@.len() == 19);
    assert("unknownError"@.len() == 12);
    assert("pluginError"@[0] == 'p');
    assert("closeFailed"@[0] == 'c');
    assert("minimizeFailed"@[0] == 'm');
    assert("invalidContext"@[0] == 'i');
    assert("unsupportedPlatform"@[0] == 'u');
    assert("unknownError"@[0] == 'u');
    assert("unsupportedPlatform"@[1] == 'n');
    assert("unknownError"@[1] == 'n');
}

} // verus!
