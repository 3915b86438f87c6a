//! The mobile bridge's two decision halves. Outbound, an operation
//! becomes a call name and a payload for the native plugin; inbound, the
//! plugin's raw reply either decodes to the typed result or is reported
//! as a bridge failure. The invocation itself crosses to the native side
//! and stays with the host shell.

use vstd::prelude::*;

verus! {

use crate::error::{AppResult, Error};
use crate::models::{AppState, CloseResult, ExitOptions, ExitResult, MinimizeResult};
use crate::platform::{call_name, call_name_of, Operation};
use crate::wire::{
    decode_app_state, decode_close_result, decode_exit_options, decode_exit_result,
    decode_minimize_result, enc_exit_options, encode_exit_options, opt_str_view, parse_app_state,
    parse_exit_options, parse_outcome,
};

/// The text of the error reported when a native reply cannot be decoded.
pub open spec fn malformed_reply_message() -> Seq<char> {
    "malformed reply from native plugin"@
}

fn malformed_reply() -> (r: Error)
    ensures
        r matches Error::PluginInvoke(m) && m@ == malformed_reply_message(),
{
    Error::PluginInvoke("malformed reply from native plugin".to_owned())
}

/// The outbound half of an exit request: the call name and the payload
/// that cross the bridge together.
pub fn exit_request(options: &ExitOptions) -> (r: (&'static str, String))
    ensures
        r.0@ == call_name_of(Operation::Exit),
        r.1@ == enc_exit_options(options.remove_from_recents, options.kill_process),
{
    (call_name(Operation::Exit), encode_exit_options(options))
}

/// The inbound half of a minimize call: a reply decodes to the typed
/// result exactly when it is a well-formed record; anything else is a
/// bridge failure.
pub fn minimize_reply(raw: &str) -> (r: AppResult<MinimizeResult>)
    ensures
        match r {
            Ok(m) => parse_outcome(raw@) == Some((m.success, m.message@)),
            Err(e) => parse_outcome(raw@) is None && (e matches Error::PluginInvoke(m) && m@
                == malformed_reply_message()),
        },
{
    match decode_minimize_result(raw) {
        Some(m) => Ok(m),
        None => Err(malformed_reply()),
    }
}

/// The inbound half of a close call, under the same policy.
pub fn close_reply(raw: &str) -> (r: AppResult<CloseResult>)
    ensures
        match r {
            Ok(m) => parse_outcome(raw@) == Some((m.success, m.message@)),
            Err(e) => parse_outcome(raw@) is None && (e matches Error::PluginInvoke(m) && m@
                == malformed_reply_message()),
        },
{
    match decode_close_result(raw) {
        Some(m) => Ok(m),
        None => Err(malformed_reply()),
    }
}

/// The inbound half of an exit call, under the same policy.
pub fn exit_reply(raw: &str) -> (r: AppResult<ExitResult>)
    ensures
        match r {
            Ok(m) => parse_outcome(raw@) == Some((m.success, m.message@)),
            Err(e) => parse_outcome(raw@) is None && (e matches Error::PluginInvoke(m) && m@
                == malformed_reply_message()),
        },
{
    match decode_exit_result(raw) {
        Some(m) => Ok(m),
        None => Err(malformed_reply()),
    }
}

/// The inbound half of a foreground query, under the same policy.
pub fn foreground_reply(raw: &str) -> (r: AppResult<AppState>)
    ensures
        match r {
            Ok(st) => parse_app_state(raw@) == Some(
                (st.in_foreground, st.is_finishing, st.is_destroyed, opt_str_view(st.package_name)),
            ),
            Err(e) => parse_app_state(raw@) is None && (e matches Error::PluginInvoke(m) && m@
                == malformed_reply_message()),
        },
{
    match decode_app_state(raw) {
        Some(st) => Ok(st),
        None => Err(malformed_reply()),
    }
}

/// The inbound half of the host shell handing options in: an absent or
/// partial options object falls back to the defaults field by field, and
/// a malformed one is an invalid context.
pub fn exit_options_from(raw: &str) -> (r: AppResult<ExitOptions>)
    ensures
        match r {
            Ok(o) => parse_exit_options(raw@) == Some((o.remove_from_recents, o.kill_process)),
            Err(e) => parse_exit_options(raw@) is None && (e matches Error::InvalidContext),
        },
{
    match decode_exit_options(raw) {
        Some(o) => Ok(o),
        None => Err(Error::InvalidContext),
    }
}

} // verus!
