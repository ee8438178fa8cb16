use vstd::prelude::*;

use crate::context::{response_context, with_error_response_context, ResponseParts};
use crate::error::{Error, ErrorModel};
use crate::payload::{
    all_ascii, ascii_chars, debug_quoted, lossy_text, message_from, message_from_payload,
    newlines_to_spaces, payload_error_field, payload_field, HuggingfaceError,
};
use crate::status::{classify_status, status_kind, status_retryable};

verus! {

/// The error for a response with the given parts and body, once the body's
/// payload field (if any) is known to be `field`.
pub open spec fn normalized_from(
    parts: ResponseParts,
    field: Option<Seq<char>>,
    body: Seq<u8>,
) -> ErrorModel {
    ErrorModel {
        kind: status_kind(parts.status),
        message: message_from(field, body),
        temporary: status_retryable(parts.status),
        context: response_context(parts),
    }
}

/// The error for a failed response with the given parts and body.
pub open spec fn normalized(parts: ResponseParts, body: Seq<u8>) -> ErrorModel {
    normalized_from(parts, payload_error_field(body), body)
}

/// Builds the error for a failed response whose body's payload, as read by
/// [`HuggingfaceError::parse`], is `payload`.
pub fn classify_payload(
    parts: ResponseParts,
    payload: Option<HuggingfaceError>,
    body: &[u8],
) -> (r: Error)
    ensures
        r@ == normalized_from(parts, payload_field(payload), body@),
        payload is None && all_ascii(body@) ==> r@.message == ascii_chars(body@),
{
    let (kind, retryable) = classify_status(parts.status);
    let message = message_from_payload(payload, body);
    let mut err = Error::new(kind, message);
    err = with_error_response_context(err, parts);
    if retryable {
        err = err.set_temporary();
    }
    err
}

/// Turns a failed response into a normalized error. The kind and retry flag
/// come from the status alone; the message is the quoted `error` field of
/// the body's JSON payload, or else the body decoded as text; the response's
/// parts become diagnostic context. It never fails.
pub fn parse_error(parts: ResponseParts, body: &[u8]) -> (r: Error)
    ensures
        r@ == normalized(parts, body@),
        payload_error_field(body@) is None && all_ascii(body@) ==> r@.message == ascii_chars(
            body@,
        ),
        body@.len() == 0 ==> r@.message == Seq::<char>::empty(),
{
    let payload = HuggingfaceError::parse(body);
    assert(body@.len() == 0 ==> ascii_chars(body@) =~= Seq::<char>::empty());
    classify_payload(parts, payload, body)
}

/// A body that carries a payload `{ "error": s }` gives the message rendered
/// from `s` exactly, whatever the status.
pub proof fn payload_message_comes_from_field(parts: ResponseParts, body: Seq<u8>, s: Seq<char>)
    requires
        payload_error_field(body) == Some(s),
    ensures
        normalized(parts, body).message == debug_quoted(s),
{
}

/// The one-line rendering of a payload message holds no newline, and keeps
/// every other character in place.
pub proof fn single_line_rendering_has_no_newline(s: Seq<char>)
    ensures
        newlines_to_spaces(s).len() == s.len(),
        !newlines_to_spaces(s).contains('\n'),
        forall|i: int|
            0 <= i < s.len() ==> #[trigger] newlines_to_spaces(s)[i] == if s[i] == '\n' {
                ' '
            } else {
                s[i]
            },
{
}

/// A body that is not JSON, or not an object with a string `error` member,
/// gives the body's text as the message.
pub proof fn fallback_message_is_body_text(parts: ResponseParts, body: Seq<u8>)
    requires
        payload_error_field(body) is None,
    ensures
        normalized(parts, body).message == lossy_text(body),
{
}

/// Kind and retry flag depend on the status alone: two responses with the
/// same status and any bodies agree on both.
pub proof fn kind_depends_on_status_only(
    first: ResponseParts,
    second: ResponseParts,
    first_body: Seq<u8>,
    second_body: Seq<u8>,
)
    requires
        first.status == second.status,
    ensures
        normalized(first, first_body).kind == normalized(second, second_body).kind,
        normalized(first, first_body).temporary == normalized(second, second_body).temporary,
{
}

/// Classifying the same response twice gives errors equal in kind, message
/// and retry flag.
pub proof fn classification_is_deterministic(
    parts: ResponseParts,
    body: Seq<u8>,
    e1: ErrorModel,
    e2: ErrorModel,
)
    requires
        e1 == normalized(parts, body),
        e2 == normalized(parts, body),
    ensures
        e1.kind == e2.kind,
        e1.message == e2.message,
        e1.temporary == e2.temporary,
{
}

} // verus!
