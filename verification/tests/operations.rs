use app_control::desktop::{AppControl, WindowFlags};
use app_control::models::{default_true, ExitOptions};
use app_control::platform::{call_name, unsupported, Operation};

#[test]
fn minimize_counts_and_success() {
    let ctl = AppControl {};
    let r = ctl.minimize_app(&vec![true, false, true]).unwrap();
    assert!(r.success);
    assert_eq!(r.message, "Minimized 2/3 windows");
}

#[test]
fn minimize_no_window_affected() {
    let ctl = AppControl {};
    let r = ctl.minimize_app(&vec![false, false]).unwrap();
    assert!(!r.success);
    assert_eq!(r.message, "Minimized 0/2 windows");
}

#[test]
fn minimize_no_windows_at_all() {
    let ctl = AppControl {};
    let r = ctl.minimize_app(&vec![]).unwrap();
    assert!(!r.success);
    assert_eq!(r.message, "Minimized 0/0 windows");
}

#[test]
fn close_counts_and_success() {
    let ctl = AppControl {};
    let r = ctl.close_app(&vec![true]).unwrap();
    assert!(r.success);
    assert_eq!(r.message, "Closed 1/1 windows");

    let r = ctl.close_app(&vec![false]).unwrap();
    assert!(!r.success);
    assert_eq!(r.message, "Closed 0/1 windows");
}

#[test]
fn counts_print_in_decimal_beyond_one_digit() {
    let ctl = AppControl {};
    let outcomes: Vec<bool> = (0..12).map(|i| i < 10).collect();
    let r = ctl.minimize_app(&outcomes).unwrap();
    assert!(r.success);
    assert_eq!(r.message, "Minimized 10/12 windows");
}

#[test]
fn exit_ignores_options_and_succeeds() {
    let ctl = AppControl {};
    let with_default = ctl.exit_app(ExitOptions::default()).unwrap();
    let explicit = ctl
        .exit_app(ExitOptions { remove_from_recents: true, kill_process: false })
        .unwrap();
    assert!(with_default.success);
    assert_eq!(with_default.success, explicit.success);
    assert_eq!(with_default.message, explicit.message);

    let other = ctl
        .exit_app(ExitOptions { remove_from_recents: false, kill_process: true })
        .unwrap();
    assert_eq!(with_default.message, other.message);
    assert!(other.success);
}

#[test]
fn exit_options_defaults() {
    let d = ExitOptions::default();
    assert!(d.remove_from_recents);
    assert!(!d.kill_process);
    assert!(default_true());
}

#[test]
fn foreground_visible_and_focused() {
    let ctl = AppControl {};
    let st = ctl
        .is_app_in_foreground(&vec![WindowFlags { visible: true, focused: true }])
        .unwrap();
    assert!(st.in_foreground);
    assert!(!st.is_finishing);
    assert!(st.is_destroyed.is_none());
    assert!(st.package_name.is_none());
}

#[test]
fn foreground_visible_unfocused_still_counts() {
    let ctl = AppControl {};
    let st = ctl
        .is_app_in_foreground(&vec![WindowFlags { visible: true, focused: false }])
        .unwrap();
    assert!(st.in_foreground);
}

#[test]
fn foreground_invisible_window_does_not_count() {
    let ctl = AppControl {};
    let st = ctl
        .is_app_in_foreground(&vec![WindowFlags { visible: false, focused: false }])
        .unwrap();
    assert!(!st.in_foreground);
}

#[test]
fn foreground_no_windows() {
    let ctl = AppControl {};
    let st = ctl.is_app_in_foreground(&vec![]).unwrap();
    assert!(!st.in_foreground);
}

#[test]
fn foreground_mixed_windows() {
    let ctl = AppControl {};
    let st = ctl
        .is_app_in_foreground(&vec![
            WindowFlags { visible: false, focused: false },
            WindowFlags { visible: true, focused: false },
        ])
        .unwrap();
    assert!(st.in_foreground);
}

#[test]
fn unsupported_operation_reports_platform_error() {
    for op in [Operation::Minimize, Operation::Close, Operation::Exit, Operation::Foreground] {
        let e = unsupported(op);
        assert_eq!(e.error_code(), "unsupportedPlatform");
    }
    let e = unsupported(Operation::Minimize);
    assert_eq!(e.message(), "Unsupported platform: minimize_app is only available on mobile");
    let e = unsupported(Operation::Foreground);
    assert_eq!(
        e.message(),
        "Unsupported platform: is_app_in_foreground is only available on mobile"
    );
}

#[test]
fn bridge_call_names() {
    assert_eq!(call_name(Operation::Minimize), "minimizeApp");
    assert_eq!(call_name(Operation::Close), "closeApp");
    assert_eq!(call_name(Operation::Exit), "exitApp");
    assert_eq!(call_name(Operation::Foreground), "isAppInForeground");
}
