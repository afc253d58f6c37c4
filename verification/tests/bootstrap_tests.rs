use shell_core::bootstrap::{bootstrap, required_plugins, Plugin, StartupError};
use shell_core::bridge::BridgeError;
use shell_core::mode::BuildMode;
use shell_core::window::WindowHandle;

#[test]
fn required_plugins_in_registration_order() {
    assert_eq!(
        required_plugins(),
        vec![Plugin::Opener, Plugin::DeepLink, Plugin::Store]
    );
}

#[test]
fn plugin_failure_is_fatal_and_reported_first() {
    let r = bootstrap(BuildMode::Debug, false, None);
    assert_eq!(r.err(), Some(StartupError::PluginRegistrationFailed));
    let r = bootstrap(
        BuildMode::Release,
        false,
        Some(WindowHandle::new("main".to_string())),
    );
    assert_eq!(r.err(), Some(StartupError::PluginRegistrationFailed));
}

#[test]
fn missing_main_window_is_fatal() {
    let r = bootstrap(BuildMode::Debug, true, None);
    assert_eq!(r.err(), Some(StartupError::MainWindowMissing));
    let r = bootstrap(
        BuildMode::Debug,
        true,
        Some(WindowHandle::new("other".to_string())),
    );
    assert_eq!(r.err(), Some(StartupError::MainWindowMissing));
}

#[test]
fn debug_bootstrap_opens_tooling_and_emits_all_lines() {
    let out = bootstrap(
        BuildMode::Debug,
        true,
        Some(WindowHandle::new("main".to_string())),
    )
    .ok()
    .unwrap();
    assert_eq!(
        out.diagnostics,
        vec![
            "\u{1F6E0}\u{FE0F} DevTools auto-opened (debug mode)".to_string(),
            "\u{1F680} Application startup complete".to_string(),
            "\u{1F4CB} Debug info available in terminal/console logs".to_string(),
            "\u{1F4A1} JavaScript console logs transferred via window.logToRust()".to_string(),
        ]
    );
    let w = out.core.windows.main.as_ref().unwrap();
    assert!(w.devtools_open);
    assert_eq!(w.label, "main");
    assert_eq!(out.core.mode, BuildMode::Debug);
}

#[test]
fn release_bootstrap_leaves_tooling_closed() {
    let out = bootstrap(
        BuildMode::Release,
        true,
        Some(WindowHandle::new("main".to_string())),
    )
    .ok()
    .unwrap();
    assert_eq!(
        out.diagnostics,
        vec![
            "\u{1F680} Application startup complete".to_string(),
            "\u{1F4CB} Debug info available in terminal/console logs".to_string(),
            "\u{1F4A1} JavaScript console logs transferred via window.logToRust()".to_string(),
        ]
    );
    assert!(!out.core.windows.main.as_ref().unwrap().devtools_open);
}

#[test]
fn dispatch_open_devtools_in_debug() {
    let out = bootstrap(
        BuildMode::Debug,
        true,
        Some(WindowHandle::new("main".to_string())),
    )
    .ok()
    .unwrap();
    let mut core = out.core;
    let reply = core.dispatch("open_devtools", "").ok().unwrap();
    assert_eq!(reply.value, Some("DevTools opened successfully".to_string()));
    assert_eq!(
        reply.diagnostics,
        vec!["\u{2705} DevTools opened successfully".to_string()]
    );
    assert!(core.windows.main.as_ref().unwrap().devtools_open);
}

#[test]
fn dispatch_open_devtools_in_release() {
    let out = bootstrap(
        BuildMode::Release,
        true,
        Some(WindowHandle::new("main".to_string())),
    )
    .ok()
    .unwrap();
    let mut core = out.core;
    let before = {
        let w = core.windows.main.as_ref().unwrap();
        (w.label.clone(), w.visible, w.focused, w.devtools_open)
    };
    let reply = core.dispatch("open_devtools", "").ok().unwrap();
    assert_eq!(
        reply.value,
        Some("Use console logs for debugging in production".to_string())
    );
    let after = {
        let w = core.windows.main.as_ref().unwrap();
        (w.label.clone(), w.visible, w.focused, w.devtools_open)
    };
    assert_eq!(before, after);
}

#[test]
fn dispatch_log_to_console_has_no_value() {
    let out = bootstrap(
        BuildMode::Release,
        true,
        Some(WindowHandle::new("main".to_string())),
    )
    .ok()
    .unwrap();
    let mut core = out.core;
    let reply = core.dispatch("log_to_console", "hello").ok().unwrap();
    assert_eq!(reply.value, None);
    assert_eq!(
        reply.diagnostics,
        vec!["\u{1F4CB} Frontend Log: hello".to_string()]
    );
}

#[test]
fn dispatch_unknown_operation_is_a_named_error_and_the_bridge_keeps_running() {
    let out = bootstrap(
        BuildMode::Release,
        true,
        Some(WindowHandle::new("main".to_string())),
    )
    .ok()
    .unwrap();
    let mut core = out.core;
    let r = core.dispatch("no_such_operation", "");
    match r {
        Err(BridgeError::UnknownOperation { name }) => {
            assert_eq!(name, "no_such_operation");
        }
        _ => panic!("expected an unknown-operation error"),
    }
    let reply = core.dispatch("log_to_console", "still running").ok().unwrap();
    assert_eq!(
        reply.diagnostics,
        vec!["\u{1F4CB} Frontend Log: still running".to_string()]
    );
}

#[test]
fn bootstrapped_core_answers_on_an_existing_registry() {
    let out = bootstrap(
        BuildMode::Release,
        true,
        Some(WindowHandle::new("main".to_string())),
    )
    .ok()
    .unwrap();
    let core = out.core;
    assert!(core.windows.get_window("main").is_some());
    assert!(core.windows.get_window("other").is_none());
}
