//! Verified core of a minimal desktop-application shell.
//!
//! The shell answers one frontend command (`greet`), registers a custom URL
//! scheme and forwards every invocation of it to the frontend as a named
//! event, and intercepts window-close requests so that the window is hidden
//! or minimized instead of the process terminating. The host framework's
//! event loop, window handles and plugin machinery live outside this crate;
//! this crate holds the decisions: what string a greeting is, which events an
//! incoming scheme request produces, how the window state changes on a close
//! request, and when startup must abort.

pub mod deep_link;
pub mod greeting;
pub mod shell;
