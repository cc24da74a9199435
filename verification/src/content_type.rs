//! The content-type guard: which requests may proceed by their
//! `Content-Type` header.

use vstd::prelude::*;

use crate::strutil::has_sub;

verus! {

/// What the guard decides for one request.
#[derive(Clone, Copy, Debug, PartialEq, Eq, Structural)]
pub enum ContentTypeDecision {
    /// The request may proceed to the handler.
    Proceed,
    /// The request carries no `Content-Type` header at all.
    MissingHeader,
    /// The request carries a type that is neither JSON nor multipart.
    Unsupported,
}

/// The decision for a header value and a body-emptiness flag: no header
/// is always rejected; an empty body passes with any header; otherwise
/// only `application/json` exactly, or any type containing
/// `multipart/form-data`, passes.
pub open spec fn content_type_decision(ct: Option<Seq<char>>, body_empty: bool) -> ContentTypeDecision {
    match ct {
        None => ContentTypeDecision::MissingHeader,
        Some(s) => if body_empty {
            ContentTypeDecision::Proceed
        } else if s == "application/json"@ || has_sub(s, "multipart/form-data"@) {
            ContentTypeDecision::Proceed
        } else {
            ContentTypeDecision::Unsupported
        },
    }
}

/// The decision half of the content-type middleware; the request
/// plumbing around it only carries the answer out.
pub struct ContentTypeCheck;

impl ContentTypeCheck {
    /// Decide whether a request may proceed.
    pub fn evaluate(content_type: Option<&str>, body_empty: bool) -> (r: ContentTypeDecision)
        ensures
            r == content_type_decision(
                match content_type {
                    Some(s) => Some(s@),
                    None => None,
                },
                body_empty,
            ),
    {
        match content_type {
            None => ContentTypeDecision::MissingHeader,
            Some(ct) => {
                if body_empty {
                    ContentTypeDecision::Proceed
                } else if crate::strutil::str_eq(ct, "application/json") || crate::strutil::contains_sub(
                    ct,
                    "multipart/form-data",
                ) {
                    ContentTypeDecision::Proceed
                } else {
                    ContentTypeDecision::Unsupported
                }
            },
        }
    }
}

} // verus!
