use vstd::prelude::*;

verus! {

/// The text of the `error` member of `body`, when `body` is a JSON object
/// whose `error` member is a string; `None` for any other JSON shape and for
/// a body that is not JSON at all.
pub uninterp spec fn payload_error_field(body: Seq<u8>) -> Option<Seq<char>>;

/// `s` rendered as a quoted literal with its control characters escaped.
pub uninterp spec fn debug_quoted(s: Seq<char>) -> Seq<char>;

/// `body` decoded as UTF-8, with each invalid sequence replaced by U+FFFD.
pub uninterp spec fn lossy_text(body: Seq<u8>) -> Seq<char>;

pub open spec fn all_ascii(body: Seq<u8>) -> bool {
    forall|i: int| 0 <= i < body.len() ==> #[trigger] body[i] < 128
}

/// The characters of a body that holds only ASCII bytes.
pub open spec fn ascii_chars(body: Seq<u8>) -> Seq<char> {
    body.map_values(|b: u8| b as char)
}

/// `s` with every newline turned into a space.
pub open spec fn newlines_to_spaces(s: Seq<char>) -> Seq<char> {
    s.map_values(|c: char| if c == '\n' { ' ' } else { c })
}

pub open spec fn opt_text(r: Option<String>) -> Option<Seq<char>> {
    match r {
        Some(s) => Some(s@),
        None => None,
    }
}

/// Relies on `serde_json::from_slice` into a `serde_json::Value`, and on
/// `serde_json::Map::remove` to take the `error` member of the top-level
/// object; the outcome depends on the bytes alone. An empty body is no JSON
/// and fails to parse.
#[verifier::external_body]
fn decode_error_field(body: &[u8]) -> (r: Option<String>)
    ensures
        opt_text(r) == payload_error_field(body@),
        body@.len() == 0 ==> r is None,
{
    match serde_json::from_slice::<serde_json::Value>(body) {
        Ok(serde_json::Value::Object(mut members)) => match members.remove("error") {
            Some(serde_json::Value::String(s)) => Some(s),
            _ => None,
        },
        _ => None,
    }
}

/// Relies on the `Debug` rendering of `str` (through `format!("{:?}")`):
/// the text quoted, with control characters such as newlines escaped.
#[verifier::external_body]
fn quote_debug(s: &str) -> (r: String)
    ensures
        r@ == debug_quoted(s@),
{
    format!("{:?}", s)
}

/// Relies on `String::from_utf8_lossy`: valid UTF-8 is decoded as it is, so
/// ASCII bytes become the same characters.
#[verifier::external_body]
fn decode_lossy(body: &[u8]) -> (r: String)
    ensures
        r@ == lossy_text(body@),
        all_ascii(body@) ==> r@ == ascii_chars(body@),
{
    String::from_utf8_lossy(body).into_owned()
}

/// Relies on `str::replace` with a `char` pattern: each match is replaced.
#[verifier::external_body]
fn replace_newlines(s: &str) -> (r: String)
    ensures
        r@ == newlines_to_spaces(s@),
{
    s.replace('\n', " ")
}

/// The error payload of the Hugging Face API: `{ "error": <string> }`.
pub struct HuggingfaceError {
    pub error: String,
}

impl HuggingfaceError {
    /// Reads the payload from a response body; `None` when the body is not a
    /// JSON object with a string member `error`.
    pub fn parse(body: &[u8]) -> (r: Option<HuggingfaceError>)
        ensures
            match r {
                Some(e) => payload_error_field(body@) == Some(e.error@),
                None => payload_error_field(body@) is None,
            },
            body@.len() == 0 ==> r is None,
    {
        match decode_error_field(body) {
            Some(error) => Some(HuggingfaceError { error }),
            None => None,
        }
    }

    /// The payload's message on one line: each newline becomes a space.
    pub fn single_line_message(&self) -> (r: String)
        ensures
            r@ == newlines_to_spaces(self.error@),
    {
        replace_newlines(self.error.as_str())
    }
}

/// The message of an error whose response body is `body` and whose payload
/// field, if the body held one, is `field`.
pub open spec fn message_from(field: Option<Seq<char>>, body: Seq<u8>) -> Seq<char> {
    match field {
        Some(s) => debug_quoted(s),
        None => lossy_text(body),
    }
}

/// The message of an error whose response body is `body`.
pub open spec fn body_message(body: Seq<u8>) -> Seq<char> {
    message_from(payload_error_field(body), body)
}

pub open spec fn payload_field(payload: Option<HuggingfaceError>) -> Option<Seq<char>> {
    match payload {
        Some(e) => Some(e.error@),
        None => None,
    }
}

/// The message for a body whose payload, as read by
/// [`HuggingfaceError::parse`], is `payload`: the quoted payload field, or
/// else the body decoded as text.
pub fn message_from_payload(payload: Option<HuggingfaceError>, body: &[u8]) -> (r: String)
    ensures
        r@ == message_from(payload_field(payload), body@),
        payload is None && all_ascii(body@) ==> r@ == ascii_chars(body@),
{
    match payload {
        Some(e) => quote_debug(e.error.as_str()),
        None => decode_lossy(body),
    }
}

/// The message for a response body: the quoted `error` field of its JSON
/// payload, or else the body decoded as text.
pub fn message_of(body: &[u8]) -> (r: String)
    ensures
        r@ == body_message(body@),
{
    let payload = HuggingfaceError::parse(body);
    message_from_payload(payload, body)
}

} // verus!
