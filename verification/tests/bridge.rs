use app_control::mobile::{
    close_reply, exit_options_from, exit_reply, exit_request, foreground_reply, minimize_reply,
};
use app_control::models::ExitOptions;
use app_control::Error;

#[test]
fn exit_request_carries_name_and_payload() {
    let (name, payload) =
        exit_request(&ExitOptions { remove_from_recents: false, kill_process: true });
    assert_eq!(name, "exitApp");
    assert_eq!(payload, "{\"removeFromRecents\":false,\"killProcess\":true}");
}

#[test]
fn well_formed_replies_decode() {
    let r = minimize_reply("{\"success\":true,\"message\":\"Minimized 1/1 windows\"}").unwrap();
    assert!(r.success);
    assert_eq!(r.message, "Minimized 1/1 windows");

    let r = close_reply("{\"success\":false,\"message\":\"Closed 0/2 windows\"}").unwrap();
    assert!(!r.success);

    let r = exit_reply("{\"success\":true,\"message\":\"bye\"}").unwrap();
    assert!(r.success);

    let st = foreground_reply(
        "{\"inForeground\":true,\"isFinishing\":false,\"isDestroyed\":false,\"packageName\":\"app.example\"}",
    )
    .unwrap();
    assert!(st.in_foreground);
    assert_eq!(st.is_destroyed, Some(false));
    assert_eq!(st.package_name.as_deref(), Some("app.example"));
}

#[test]
fn malformed_replies_become_bridge_failures() {
    let e = minimize_reply("not a record").unwrap_err();
    assert_eq!(e.error_code(), "pluginInvokeError");
    assert_eq!(e.message(), "malformed reply from native plugin");

    let e = foreground_reply("{\"inForeground\":true}").unwrap_err();
    assert_eq!(e.error_code(), "pluginInvokeError");
}

#[test]
fn options_from_host_fall_back_to_defaults() {
    let o = exit_options_from("{}").unwrap();
    assert_eq!(o, ExitOptions { remove_from_recents: true, kill_process: false });

    let o = exit_options_from("{\"killProcess\":true}").unwrap();
    assert_eq!(o, ExitOptions { remove_from_recents: true, kill_process: true });

    let e = exit_options_from("nonsense").unwrap_err();
    assert!(matches!(e, Error::InvalidContext));
    assert_eq!(e.error_code(), "invalidContext");
}
