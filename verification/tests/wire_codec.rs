use app_control::models::{AppState, CloseResult, ExitOptions, ExitResult, MinimizeResult};
use app_control::wire::{
    decode_app_state, decode_close_result, decode_exit_options, decode_exit_result,
    decode_minimize_result, encode_app_state, encode_close_result, encode_exit_options,
    encode_exit_result, encode_minimize_result,
};

#[test]
fn minimize_result_round_trip() {
    let m = MinimizeResult { success: true, message: String::from("Minimized 2/3 windows") };
    let wire = encode_minimize_result(&m);
    assert_eq!(wire, "{\"success\":true,\"message\":\"Minimized 2/3 windows\"}");
    let back = decode_minimize_result(&wire).unwrap();
    assert_eq!(back.success, m.success);
    assert_eq!(back.message, m.message);
}

#[test]
fn close_result_round_trip() {
    let m = CloseResult { success: false, message: String::from("Closed 0/1 windows") };
    let wire = encode_close_result(&m);
    assert_eq!(wire, "{\"success\":false,\"message\":\"Closed 0/1 windows\"}");
    let back = decode_close_result(&wire).unwrap();
    assert_eq!(back.success, m.success);
    assert_eq!(back.message, m.message);
}

#[test]
fn exit_result_round_trip() {
    let m = ExitResult { success: true, message: String::from("Exiting application") };
    let wire = encode_exit_result(&m);
    let back = decode_exit_result(&wire).unwrap();
    assert_eq!(back.success, m.success);
    assert_eq!(back.message, m.message);
}

#[test]
fn message_with_quotes_and_backslashes_round_trips() {
    let m = ExitResult { success: false, message: String::from("say \"no\" to C:\\tmp") };
    let wire = encode_exit_result(&m);
    assert_eq!(wire, "{\"success\":false,\"message\":\"say \\\"no\\\" to C:\\\\tmp\"}");
    let back = decode_exit_result(&wire).unwrap();
    assert_eq!(back.message, m.message);
}

#[test]
fn empty_message_round_trips() {
    let m = ExitResult { success: true, message: String::new() };
    let wire = encode_exit_result(&m);
    assert_eq!(wire, "{\"success\":true,\"message\":\"\"}");
    let back = decode_exit_result(&wire).unwrap();
    assert_eq!(back.message, "");
}

#[test]
fn exit_options_round_trip() {
    for remove in [false, true] {
        for kill in [false, true] {
            let o = ExitOptions { remove_from_recents: remove, kill_process: kill };
            let wire = encode_exit_options(&o);
            let back = decode_exit_options(&wire).unwrap();
            assert_eq!(back, o);
        }
    }
    let wire = encode_exit_options(&ExitOptions { remove_from_recents: true, kill_process: false });
    assert_eq!(wire, "{\"removeFromRecents\":true,\"killProcess\":false}");
}

#[test]
fn exit_options_missing_fields_take_defaults() {
    let o = decode_exit_options("{}").unwrap();
    assert_eq!(o, ExitOptions { remove_from_recents: true, kill_process: false });

    let o = decode_exit_options("{\"removeFromRecents\":false}").unwrap();
    assert_eq!(o, ExitOptions { remove_from_recents: false, kill_process: false });

    let o = decode_exit_options("{\"killProcess\":true}").unwrap();
    assert_eq!(o, ExitOptions { remove_from_recents: true, kill_process: true });
}

#[test]
fn app_state_round_trip_with_optional_fields_absent() {
    let st = AppState {
        in_foreground: true,
        is_finishing: false,
        is_destroyed: None,
        package_name: None,
    };
    let wire = encode_app_state(&st);
    assert_eq!(wire, "{\"inForeground\":true,\"isFinishing\":false}");
    let back = decode_app_state(&wire).unwrap();
    assert_eq!(back.in_foreground, st.in_foreground);
    assert_eq!(back.is_finishing, st.is_finishing);
    assert_eq!(back.is_destroyed, None);
    assert_eq!(back.package_name, None);
}

#[test]
fn app_state_round_trip_with_all_fields_present() {
    let st = AppState {
        in_foreground: false,
        is_finishing: true,
        is_destroyed: Some(false),
        package_name: Some(String::from("app.example.shell")),
    };
    let wire = encode_app_state(&st);
    assert_eq!(
        wire,
        "{\"inForeground\":false,\"isFinishing\":true,\"isDestroyed\":false,\"packageName\":\"app.example.shell\"}"
    );
    let back = decode_app_state(&wire).unwrap();
    assert_eq!(back.in_foreground, st.in_foreground);
    assert_eq!(back.is_finishing, st.is_finishing);
    assert_eq!(back.is_destroyed, Some(false));
    assert_eq!(back.package_name.as_deref(), Some("app.example.shell"));
}

#[test]
fn app_state_round_trip_destroyed_only() {
    let st = AppState {
        in_foreground: true,
        is_finishing: false,
        is_destroyed: Some(true),
        package_name: None,
    };
    let wire = encode_app_state(&st);
    let back = decode_app_state(&wire).unwrap();
    assert_eq!(back.is_destroyed, Some(true));
    assert_eq!(back.package_name, None);
}

#[test]
fn app_state_round_trip_package_only() {
    let st = AppState {
        in_foreground: true,
        is_finishing: false,
        is_destroyed: None,
        package_name: Some(String::from("a\"b\\c")),
    };
    let wire = encode_app_state(&st);
    let back = decode_app_state(&wire).unwrap();
    assert_eq!(back.is_destroyed, None);
    assert_eq!(back.package_name.as_deref(), Some("a\"b\\c"));
}

#[test]
fn malformed_input_is_rejected() {
    assert!(decode_minimize_result("").is_none());
    assert!(decode_minimize_result("{\"success\":yes,\"message\":\"m\"}").is_none());
    assert!(decode_minimize_result("{\"success\":true,\"message\":\"m\"").is_none());
    assert!(decode_minimize_result("{\"success\":true,\"message\":\"m\"}x").is_none());
    assert!(decode_exit_options("{\"removeFromRecents\":true").is_none());
    assert!(decode_app_state("{\"inForeground\":true}").is_none());
    assert!(decode_exit_result("{\"success\":true,\"message\":\"\\m\"}").is_none());
}
