//! The shell's event dispatcher: window lifecycle guard, scheme forwarding,
//! and the startup outcome.
//!
//! The host framework runs a blocking event loop and delivers OS and frontend
//! events to this dispatcher. The dispatcher decides; the host carries the
//! returned `Response` out (emitting events, minimizing or hiding the window,
//! cancelling the default close).

use vstd::prelude::*;
use crate::deep_link::scheme_event_name;

verus! {

/// The two platform families the close-request policy distinguishes.
#[derive(Clone, Copy, PartialEq, Eq, Structural, Debug)]
pub enum PlatformFamily {
    MacOs,
    Other,
}

/// A window is either visible or hidden-but-alive. True termination is never
/// reached through the dispatcher; only the OS can end the process.
#[derive(Clone, Copy, PartialEq, Eq, Structural, Debug)]
pub enum WindowVisibility {
    Visible,
    Hidden,
}

/// What the host must do to the window after a close request.
#[derive(Clone, Copy, PartialEq, Eq, Structural, Debug)]
pub enum WindowAction {
    Minimize,
    Hide,
}

/// An event the run loop dispatches to the shell: the user or OS asked to
/// close the main window, or the registered URL scheme was invoked.
pub enum ShellEvent {
    CloseRequested,
    SchemeInvocation { url: String },
}

/// One event to be emitted to all frontend listeners.
pub struct EmittedEvent {
    pub name: String,
    pub payload: String,
}

/// Everything the host must carry out in response to one dispatched event.
pub struct Response {
    pub emits: Vec<EmittedEvent>,
    pub window_action: Option<WindowAction>,
    pub prevent_close: bool,
}

/// The platform policy on a close request: minimize on the macOS family,
/// hide the window everywhere else.
pub open spec fn close_action_of(platform: PlatformFamily) -> WindowAction {
    match platform {
        PlatformFamily::MacOs => WindowAction::Minimize,
        PlatformFamily::Other => WindowAction::Hide,
    }
}

/// The window state after an event: a close request hides the window,
/// whatever state it was in; a scheme invocation leaves it untouched.
pub open spec fn next_window(window: WindowVisibility, event: ShellEvent) -> WindowVisibility {
    match event {
        ShellEvent::CloseRequested => WindowVisibility::Hidden,
        ShellEvent::SchemeInvocation { .. } => window,
    }
}

/// The shell's whole mutable state: the platform it runs on, fixed at
/// startup, and the main window's visibility.
pub struct Shell {
    pub platform: PlatformFamily,
    pub window: WindowVisibility,
}

impl Shell {
    /// A freshly started shell shows its window.
    pub fn new(platform: PlatformFamily) -> (s: Shell)
        ensures
            s.platform == platform,
            s.window == WindowVisibility::Visible,
    {
        Shell { platform, window: WindowVisibility::Visible }
    }

    /// Dispatch one event.
    ///
    /// A close request never terminates: the default close is cancelled, no
    /// event is emitted, and the window is hidden (by minimizing on the macOS
    /// family, by hiding elsewhere). A scheme invocation emits exactly one
    /// event, named `scheme_event_name()`, carrying the URL verbatim, and
    /// leaves the window alone.
    pub fn handle_event(&mut self, event: ShellEvent) -> (r: Response)
        ensures
            final(self).platform == old(self).platform,
            final(self).window == next_window(old(self).window, event),
            match event {
                ShellEvent::CloseRequested => {
                    &&& r.prevent_close
                    &&& r.emits@.len() == 0
                    &&& r.window_action == Some(close_action_of(old(self).platform))
                },
                ShellEvent::SchemeInvocation { url } => {
                    &&& !r.prevent_close
                    &&& r.window_action is None
                    &&& r.emits@.len() == 1
                    &&& r.emits@[0].name@ == scheme_event_name()
                    &&& r.emits@[0].payload@ == url@
                },
            },
    {
        match event {
            ShellEvent::CloseRequested => {
                self.window = WindowVisibility::Hidden;
                let action = match self.platform {
                    PlatformFamily::MacOs => WindowAction::Minimize,
                    PlatformFamily::Other => WindowAction::Hide,
                };
                Response { emits: Vec::new(), window_action: Some(action), prevent_close: true }
            },
            ShellEvent::SchemeInvocation { url } => {
                let mut emits: Vec<EmittedEvent> = Vec::new();
                emits.push(EmittedEvent {
                    name: String::from_str("scheme-request-received"),
                    payload: url,
                });
                Response { emits, window_action: None, prevent_close: false }
            },
        }
    }
}

/// Close requests are idempotent on the window state: one request hides the
/// window, and a second request on the already-hidden window leaves it in the
/// very state the first one produced.
pub proof fn lemma_close_request_idempotent(window: WindowVisibility)
    ensures
        next_window(window, ShellEvent::CloseRequested) == WindowVisibility::Hidden,
        next_window(
            next_window(window, ShellEvent::CloseRequested),
            ShellEvent::CloseRequested,
        ) == next_window(window, ShellEvent::CloseRequested),
{
}

/// The startup step whose failure aborted the shell.
#[derive(Clone, Copy, PartialEq, Eq, Structural, Debug)]
pub enum StartupError {
    SqlPlugin,
    DeepLinkRegistration,
}

impl StartupError {
    /// The diagnostic the process aborts with.
    pub fn message(&self) -> (s: &'static str)
        ensures
            *self == StartupError::SqlPlugin ==> s@ == "failed to register the sql plugin"@,
            *self == StartupError::DeepLinkRegistration ==> s@
                == "failed to register the url scheme handler"@,
    {
        match self {
            StartupError::SqlPlugin => "failed to register the sql plugin",
            StartupError::DeepLinkRegistration => "failed to register the url scheme handler",
        }
    }
}

/// Decides the outcome of startup from the outcomes of its two fallible
/// steps, in the order they run: storage-plugin registration, then scheme
/// registration. Any failure is fatal — the first failed step is reported and
/// nothing runs in a degraded mode; startup succeeds exactly when both steps
/// did.
pub fn startup_outcome(sql_plugin_ok: bool, deep_link_ok: bool) -> (r: Result<(), StartupError>)
    ensures
        r is Ok <==> sql_plugin_ok && deep_link_ok,
        !sql_plugin_ok ==> r == Err::<(), StartupError>(StartupError::SqlPlugin),
        sql_plugin_ok && !deep_link_ok ==> r == Err::<(), StartupError>(
            StartupError::DeepLinkRegistration,
        ),
{
    if !sql_plugin_ok {
        Err(StartupError::SqlPlugin)
    } else if !deep_link_ok {
        Err(StartupError::DeepLinkRegistration)
    } else {
        Ok(())
    }
}

} // verus!
