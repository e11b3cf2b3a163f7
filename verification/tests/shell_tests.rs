use voltron_shell::deep_link::{app_identifier, event_name, scheme};
use voltron_shell::greeting::greet;
use voltron_shell::shell::{
    startup_outcome, PlatformFamily, Shell, ShellEvent, StartupError, WindowAction,
    WindowVisibility,
};

#[test]
fn greet_world() {
    assert_eq!(greet("World"), "Hello, World! You've been greeted from Rust!");
}

#[test]
fn greet_empty_name() {
    assert_eq!(greet(""), "Hello, ! You've been greeted from Rust!");
}

#[test]
fn greet_keeps_name_verbatim() {
    assert_eq!(
        greet("voltron://foo"),
        "Hello, voltron://foo! You've been greeted from Rust!"
    );
}

#[test]
fn scheme_constants() {
    assert_eq!(scheme(), "voltron");
    assert_eq!(app_identifier(), "com.voltron.dev");
    assert_eq!(event_name(), "scheme-request-received");
}

#[test]
fn scheme_invocation_emits_single_event() {
    let mut shell = Shell::new(PlatformFamily::Other);
    let response = shell.handle_event(ShellEvent::SchemeInvocation {
        url: String::from("voltron://foo/bar"),
    });
    assert_eq!(response.emits.len(), 1);
    assert_eq!(response.emits[0].name, "scheme-request-received");
    assert_eq!(response.emits[0].payload, "voltron://foo/bar");
    assert!(!response.prevent_close);
    assert_eq!(response.window_action, None);
    assert_eq!(shell.window, WindowVisibility::Visible);
}

#[test]
fn close_request_keeps_window_alive() {
    let mut shell = Shell::new(PlatformFamily::Other);
    let response = shell.handle_event(ShellEvent::CloseRequested);
    assert!(response.prevent_close);
    assert_eq!(response.window_action, Some(WindowAction::Hide));
    assert_eq!(response.emits.len(), 0);
    assert_eq!(shell.window, WindowVisibility::Hidden);
}

#[test]
fn close_request_minimizes_on_macos() {
    let mut shell = Shell::new(PlatformFamily::MacOs);
    let response = shell.handle_event(ShellEvent::CloseRequested);
    assert!(response.prevent_close);
    assert_eq!(response.window_action, Some(WindowAction::Minimize));
    assert_eq!(response.emits.len(), 0);
    assert_eq!(shell.window, WindowVisibility::Hidden);
}

#[test]
fn repeated_close_requests_idempotent() {
    let mut shell = Shell::new(PlatformFamily::Other);
    let first = shell.handle_event(ShellEvent::CloseRequested);
    assert_eq!(shell.window, WindowVisibility::Hidden);
    let second = shell.handle_event(ShellEvent::CloseRequested);
    assert_eq!(shell.window, WindowVisibility::Hidden);
    assert_eq!(first.prevent_close, second.prevent_close);
    assert_eq!(first.window_action, second.window_action);
    assert_eq!(second.emits.len(), 0);
}

#[test]
fn scheme_invocation_leaves_hidden_window_hidden() {
    let mut shell = Shell::new(PlatformFamily::MacOs);
    shell.handle_event(ShellEvent::CloseRequested);
    let response = shell.handle_event(ShellEvent::SchemeInvocation {
        url: String::from("voltron://again"),
    });
    assert_eq!(shell.window, WindowVisibility::Hidden);
    assert_eq!(response.emits.len(), 1);
    assert_eq!(response.emits[0].payload, "voltron://again");
}

#[test]
fn startup_succeeds_when_both_steps_succeed() {
    assert_eq!(startup_outcome(true, true), Ok(()));
}

#[test]
fn startup_fails_on_sql_plugin() {
    let outcome = startup_outcome(false, true);
    assert_eq!(outcome, Err(StartupError::SqlPlugin));
    assert_eq!(
        outcome.unwrap_err().message(),
        "failed to register the sql plugin"
    );
}

#[test]
fn startup_fails_on_deep_link_registration() {
    let outcome = startup_outcome(true, false);
    assert_eq!(outcome, Err(StartupError::DeepLinkRegistration));
    assert_eq!(
        outcome.unwrap_err().message(),
        "failed to register the url scheme handler"
    );
}

#[test]
fn startup_reports_first_failed_step() {
    assert_eq!(startup_outcome(false, false), Err(StartupError::SqlPlugin));
}
