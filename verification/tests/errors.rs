use app_control::Error;

#[test]
fn every_kind_has_its_fixed_code() {
    assert_eq!(Error::Io(String::from("x")).error_code(), "ioError");
    assert_eq!(Error::PluginApi(String::from("x")).error_code(), "pluginError");
    assert_eq!(Error::PluginInvoke(String::from("x")).error_code(), "pluginInvokeError");
    assert_eq!(Error::MinimizeFailed.error_code(), "minimizeFailed");
    assert_eq!(Error::CloseFailed.error_code(), "closeFailed");
    assert_eq!(Error::ExitFailed.error_code(), "exitFailed");
    assert_eq!(Error::InvalidContext.error_code(), "invalidContext");
    assert_eq!(Error::UnsupportedPlatform(String::from("x")).error_code(), "unsupportedPlatform");
    assert_eq!(Error::Unknown(String::from("x")).error_code(), "unknownError");
}

#[test]
fn code_does_not_depend_on_carried_text() {
    assert_eq!(
        Error::Unknown(String::from("a")).error_code(),
        Error::Unknown(String::from("b")).error_code()
    );
    assert_eq!(
        Error::UnsupportedPlatform(String::new()).error_code(),
        Error::UnsupportedPlatform(String::from("why")).error_code()
    );
}

#[test]
fn no_two_kinds_share_a_code() {
    let codes = [
        Error::Io(String::new()).error_code(),
        Error::PluginApi(String::new()).error_code(),
        Error::PluginInvoke(String::new()).error_code(),
        Error::MinimizeFailed.error_code(),
        Error::CloseFailed.error_code(),
        Error::ExitFailed.error_code(),
        Error::InvalidContext.error_code(),
        Error::UnsupportedPlatform(String::new()).error_code(),
        Error::Unknown(String::new()).error_code(),
    ];
    for i in 0..codes.len() {
        for j in 0..codes.len() {
            if i != j {
                assert_ne!(codes[i], codes[j]);
            }
        }
    }
}

#[test]
fn messages_cross_the_boundary_not_codes() {
    assert_eq!(Error::Io(String::from("disk gone")).message(), "disk gone");
    assert_eq!(Error::PluginApi(String::from("no webview")).message(), "no webview");
    assert_eq!(Error::PluginInvoke(String::from("bridge down")).message(), "bridge down");
    assert_eq!(Error::MinimizeFailed.message(), "Failed to minimize app");
    assert_eq!(Error::CloseFailed.message(), "Failed to close app");
    assert_eq!(Error::ExitFailed.message(), "Failed to exit app");
    assert_eq!(Error::InvalidContext.message(), "Invalid context");
    assert_eq!(
        Error::UnsupportedPlatform(String::from("wrong build")).message(),
        "Unsupported platform: wrong build"
    );
    assert_eq!(Error::Unknown(String::from("odd")).message(), "Unknown error: odd");
}
