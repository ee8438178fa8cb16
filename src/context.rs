use vstd::prelude::*;

use crate::error::{Error, ErrorModel};

verus! {

/// The non-body parts of a response that the diagnostic context is made of.
pub struct ResponseParts {
    /// The numeric status code.
    pub status: u16,
    /// The request URI, when the transport recorded one.
    pub uri: Option<String>,
    /// A one-record rendering of the status line and headers, without the URI.
    pub description: String,
}

/// The pairs that [`with_error_response_context`] appends for `parts`.
pub open spec fn response_context(parts: ResponseParts) -> Seq<(Seq<char>, Seq<char>)> {
    let head = match parts.uri {
        Some(u) => seq![("uri"@, u@)],
        None => Seq::empty(),
    };
    head.push(("response"@, parts.description@))
}

/// Attaches the response's diagnostic context to `err`: the URI under `uri`
/// when known, then the rest of the response under `response`. The kind,
/// message and retry flag are left as they were.
pub fn with_error_response_context(err: Error, parts: ResponseParts) -> (r: Error)
    ensures
        r@ == (ErrorModel {
            kind: err@.kind,
            message: err@.message,
            temporary: err@.temporary,
            context: err@.context + response_context(parts),
        }),
{
    let ghost p = parts;
    let ghost start = err@.context;
    let mut r = err;
    match parts.uri {
        Some(u) => {
            r = r.with_context("uri".to_owned(), u);
        },
        None => {},
    }
    r = r.with_context("response".to_owned(), parts.description);
    assert(r@.context =~= start + response_context(p));
    r
}

} // verus!
