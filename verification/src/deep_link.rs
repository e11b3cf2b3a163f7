//! Fixed identifiers for the custom URL scheme registration.
//!
//! The host process registers itself with the operating system as the handler
//! for one URL scheme; every invocation of that scheme is forwarded to the
//! frontend under one fixed event name. The registration call itself is the
//! host's work; the identifiers it is made with are pinned here.

use vstd::prelude::*;

verus! {

/// The name under which every scheme invocation is emitted to the frontend.
pub open spec fn scheme_event_name() -> Seq<char> {
    "scheme-request-received"@
}

/// The URL scheme this application registers as OS handler for.
pub fn scheme() -> (s: &'static str)
    ensures
        s@ == "voltron"@,
{
    "voltron"
}

/// The identifier under which the process presents itself to the OS when
/// preparing the scheme registration.
pub fn app_identifier() -> (s: &'static str)
    ensures
        s@ == "com.voltron.dev"@,
{
    "com.voltron.dev"
}

/// The event name as an exec value; its view is `scheme_event_name()`.
pub fn event_name() -> (s: &'static str)
    ensures
        s@ == scheme_event_name(),
{
    "scheme-request-received"
}

} // verus!
