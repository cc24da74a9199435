//! Validated configuration for an HTTP middleware stack.
//!
//! Each feature (body limits, compression, CORS, request timeouts, static
//! serving, Socket.IO) is configured from a generic key-value document.
//! Human-readable size strings ("10MB") and duration strings ("30s") are
//! parsed exactly once, at decode time, and kept alongside the original
//! string so that diagnostics always show the user-supplied form while
//! consumers get an already-validated numeric value.

pub mod errors;
pub mod parse;
pub mod strutil;
pub mod values;
pub mod document;
pub mod body_limit;
pub mod req_timeout;
pub mod limits;
pub mod compression;
pub mod cors;
pub mod servedir;
pub mod socketio;
pub mod content_type;

use vstd::prelude::*;

verus! {

/// A configuration section that can render itself as human-readable
/// diagnostic lines. Rendering is pure: the caller decides where the
/// lines go.
pub trait DisplayConfig {
    /// The lines the section renders, as character sequences.
    spec fn display_spec(&self) -> Seq<Seq<char>>;

    /// Render the section's diagnostic lines.
    fn display(&self) -> (r: Vec<String>)
        ensures
            crate::strutil::str_views(r@) == self.display_spec(),
    ;
}

/// The declared default for every `display` flag: diagnostics are off
/// unless asked for.
pub fn default_display() -> (b: bool)
    ensures
        b == false,
{
    false
}

} // verus!
