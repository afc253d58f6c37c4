use shell_core::instance::{
    activation_line, arbitrate_launches, handle_activation, secondary_launch, InstanceLock,
    LaunchRole,
};
use shell_core::window::{WindowHandle, WindowRegistry};

#[test]
fn first_launch_is_primary_all_later_are_secondary() {
    let roles = arbitrate_launches(&vec![11u64, 22, 33, 44]);
    assert_eq!(
        roles,
        vec![
            LaunchRole::Primary,
            LaunchRole::Secondary,
            LaunchRole::Secondary,
            LaunchRole::Secondary,
        ]
    );
    let primaries = roles.iter().filter(|r| **r == LaunchRole::Primary).count();
    assert_eq!(primaries, 1);
}

#[test]
fn lock_stays_with_the_first_holder() {
    let mut lock = InstanceLock::new();
    assert_eq!(lock.try_acquire(7), LaunchRole::Primary);
    assert_eq!(lock.try_acquire(8), LaunchRole::Secondary);
    assert_eq!(lock.try_acquire(9), LaunchRole::Secondary);
    assert_eq!(lock.holder, Some(7));
}

#[test]
fn single_launch_is_primary() {
    let roles = arbitrate_launches(&vec![5u64]);
    assert_eq!(roles, vec![LaunchRole::Primary]);
}

#[test]
fn forwarded_payload_is_verbatim() {
    let p = secondary_launch(
        vec!["--foo".to_string(), "bar".to_string()],
        "/tmp/x".to_string(),
    );
    assert_eq!(p.arguments, vec!["--foo".to_string(), "bar".to_string()]);
    assert_eq!(p.working_directory, "/tmp/x");
}

#[test]
fn activation_shows_and_focuses_the_main_window() {
    let p = secondary_launch(
        vec!["--foo".to_string(), "bar".to_string()],
        "/tmp/x".to_string(),
    );
    let mut reg = WindowRegistry::with_window(WindowHandle::new("main".to_string()));
    let line = handle_activation(&mut reg, &p);
    assert_eq!(line, "Single instance detected: [\"--foo\", \"bar\"], \"/tmp/x\"");
    let w = reg.main.as_ref().unwrap();
    assert!(w.visible);
    assert!(w.focused);
    assert_eq!(w.label, "main");
    assert!(!w.devtools_open);
}

#[test]
fn activation_without_a_main_window_is_a_no_op() {
    let p = secondary_launch(Vec::new(), "/".to_string());
    let mut reg = WindowRegistry::new();
    let line = handle_activation(&mut reg, &p);
    assert_eq!(line, "Single instance detected: [], \"/\"");
    assert!(reg.main.is_none());
}

#[test]
fn activation_twice_equals_activation_once() {
    let p = secondary_launch(vec!["a".to_string()], "/home".to_string());
    let mut reg = WindowRegistry::with_window(WindowHandle::new("main".to_string()));
    handle_activation(&mut reg, &p);
    let w = reg.main.as_ref().unwrap();
    let once = (w.label.clone(), w.visible, w.focused, w.devtools_open);
    handle_activation(&mut reg, &p);
    let w = reg.main.as_ref().unwrap();
    let twice = (w.label.clone(), w.visible, w.focused, w.devtools_open);
    assert_eq!(once, twice);
}

#[test]
fn activation_line_with_no_arguments() {
    let p = secondary_launch(Vec::new(), "/tmp/x".to_string());
    assert_eq!(activation_line(&p), "Single instance detected: [], \"/tmp/x\"");
}

#[test]
fn activation_line_with_one_argument() {
    let p = secondary_launch(vec!["--flag".to_string()], "/tmp/x".to_string());
    assert_eq!(
        activation_line(&p),
        "Single instance detected: [\"--flag\"], \"/tmp/x\""
    );
}
