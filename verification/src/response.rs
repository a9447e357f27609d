//! HTTP responses of the service API and the error bodies they carry.

use vstd::prelude::*;
use crate::json::{
    error_body, error_body_json, json_escape, json_escape_char, json_literal_value,
    lemma_json_unescape_escape, typed_error_body, typed_error_body_json,
};

verus! {

/// The content type of every JSON response.
pub const JSON_CONTENT_TYPE: &'static str = "application/json; charset=utf-8";

/// The content type of the empty pre-flight response.
pub const TEXT_CONTENT_TYPE: &'static str = "text/plain; charset=utf-8";

/// A response of the service API.
#[derive(Debug, Clone, PartialEq, Eq)]
pub struct ApiResponse {
    pub status_code: u16,
    pub content_type: &'static str,
    pub body: String,
}

/// The body of an error response.
#[derive(Debug, Clone, PartialEq, Eq)]
pub struct ApiErrorBody {
    pub error: String,
}

/// The body of a response that returns one stored secret of an account.
#[derive(Debug, Clone, PartialEq, Eq)]
pub struct AccountSecretBody {
    pub alias: String,
    /// The serialized name of the secret field.
    pub field: String,
    pub value: String,
}

/// The reason phrase that the service writes for a status code; codes it
/// does not name read `OK`.
pub open spec fn status_reason(code: u16) -> Seq<char> {
    if code == 200 {
        "OK"@
    } else if code == 202 {
        "Accepted"@
    } else if code == 204 {
        "No Content"@
    } else if code == 400 {
        "Bad Request"@
    } else if code == 404 {
        "Not Found"@
    } else if code == 405 {
        "Method Not Allowed"@
    } else if code == 409 {
        "Conflict"@
    } else if code == 500 {
        "Internal Server Error"@
    } else if code == 503 {
        "Service Unavailable"@
    } else {
        "OK"@
    }
}

/// A JSON error response: `status` with `{"error":<message>}`.
pub open spec fn is_error_response(r: ApiResponse, status: u16, message: Seq<char>) -> bool {
    &&& r.status_code == status
    &&& r.content_type@ == JSON_CONTENT_TYPE@
    &&& r.body@ == error_body_json(message)
}

/// A typed JSON error response: `status` with `{"error":..,"kind":..}`.
pub open spec fn is_typed_error_response(
    r: ApiResponse,
    status: u16,
    message: Seq<char>,
    kind: Seq<char>,
) -> bool {
    &&& r.status_code == status
    &&& r.content_type@ == JSON_CONTENT_TYPE@
    &&& r.body@ == typed_error_body_json(message, kind)
}

impl ApiResponse {
    /// The reason phrase for this response's status code.
    pub fn status_text(&self) -> (r: &'static str)
        ensures
            r@ == status_reason(self.status_code),
    {
        match self.status_code {
            200 => "OK",
            202 => "Accepted",
            204 => "No Content",
            400 => "Bad Request",
            404 => "Not Found",
            405 => "Method Not Allowed",
            409 => "Conflict",
            500 => "Internal Server Error",
            503 => "Service Unavailable",
            _ => "OK",
        }
    }
}

/// A JSON response with `status` and an already serialized `body`.
pub fn json_text_response(status: u16, body: String) -> (r: ApiResponse)
    ensures
        r.status_code == status,
        r.content_type@ == JSON_CONTENT_TYPE@,
        r.body == body,
{
    ApiResponse { status_code: status, content_type: JSON_CONTENT_TYPE, body }
}

/// The error response `status` with `{"error":<message>}`.
pub fn error_response(status: u16, message: &str) -> (r: ApiResponse)
    ensures
        is_error_response(r, status, message@),
{
    ApiResponse { status_code: status, content_type: JSON_CONTENT_TYPE, body: error_body(message) }
}

/// The typed error response `status` with `{"error":<message>,"kind":<kind>}`.
pub fn typed_error_response(status: u16, message: &str, kind: &str) -> (r: ApiResponse)
    ensures
        is_typed_error_response(r, status, message@, kind@),
{
    ApiResponse {
        status_code: status,
        content_type: JSON_CONTENT_TYPE,
        body: typed_error_body(message, kind),
    }
}

/// The 405 response for a method that a route does not take.
pub fn method_not_allowed_response() -> (r: ApiResponse)
    ensures
        is_error_response(r, 405, "method not allowed"@),
{
    error_response(405, "method not allowed")
}

/// The 500 response for a failed file operation, carrying its message.
pub fn io_error_response(message: &str) -> (r: ApiResponse)
    ensures
        is_error_response(r, 500, message@),
{
    error_response(500, message)
}

/// How `escape_json_string` writes one character: backslash and double
/// quote preceded by a backslash, every other character kept.
pub open spec fn backslash_escape_char(c: char) -> Seq<char> {
    if c == '\\' {
        seq!['\\', '\\']
    } else if c == '"' {
        seq!['\\', '"']
    } else {
        seq![c]
    }
}

/// Backslash and double quote escaped throughout `s`.
pub open spec fn backslash_escaped(s: Seq<char>) -> Seq<char>
    decreases s.len(),
{
    if s.len() == 0 {
        Seq::empty()
    } else {
        backslash_escaped(s.drop_last()) + backslash_escape_char(s.last())
    }
}

/// `value` with every backslash doubled and every double quote escaped.
pub fn escape_json_string(value: &str) -> (r: String)
    ensures
        r@ == backslash_escaped(value@),
{
    let v = crate::text::chars_of(value);
    let mut r = String::new();
    let mut i: usize = 0;
    while i < v.len()
        invariant
            v@ == value@,
            i <= v@.len(),
            r@ == backslash_escaped(value@.subrange(0, i as int)),
        decreases v.len() - i,
    {
        let c = v[i];
        if c == '\\' {
            crate::text::push_char(&mut r, '\\');
            crate::text::push_char(&mut r, '\\');
        } else if c == '"' {
            crate::text::push_char(&mut r, '\\');
            crate::text::push_char(&mut r, '"');
        } else {
            crate::text::push_char(&mut r, c);
        }
        assert(value@.subrange(0, i + 1).drop_last() =~= value@.subrange(0, i as int));
        assert(r@ =~= backslash_escaped(value@.subrange(0, i as int)) + backslash_escape_char(c));
        i = i + 1;
    }
    assert(value@.subrange(0, v@.len() as int) =~= value@);
    r
}

/// No character of `s` is a control character (below U+0020).
pub open spec fn free_of_control_chars(s: Seq<char>) -> bool {
    forall|i: int| 0 <= i < s.len() ==> (#[trigger] s[i] as u32) >= 0x20
}

proof fn lemma_backslash_escaped_is_json_escape(s: Seq<char>)
    requires
        free_of_control_chars(s),
    ensures
        backslash_escaped(s) == json_escape(s),
    decreases s.len(),
{
    if s.len() > 0 {
        let p = s.drop_last();
        assert(free_of_control_chars(p)) by {
            assert forall|i: int| 0 <= i < p.len() implies (#[trigger] p[i] as u32) >= 0x20 by {
                assert(p[i] == s[i]);
            }
        }
        lemma_backslash_escaped_is_json_escape(p);
        let c = s.last();
        assert(c == s[s.len() - 1]);
        assert((c as u32) >= 0x20);
        assert(backslash_escape_char(c) == json_escape_char(c));
    }
}

/// Quoting with `escape_json_string` round-trips: for a text without
/// control characters, the escaped text between double quotes is a JSON
/// string literal that stands for the text (backslashes and double quotes
/// are escaped, nothing else changes).
pub proof fn escape_json_string_round_trips(s: Seq<char>)
    requires
        free_of_control_chars(s),
    ensures
        json_literal_value(seq!['"'] + backslash_escaped(s) + seq!['"']) == Some(s),
{
    lemma_backslash_escaped_is_json_escape(s);
    let t = seq!['"'] + backslash_escaped(s) + seq!['"'];
    assert(t.subrange(1, t.len() - 1) =~= json_escape(s));
    lemma_json_unescape_escape(s);
}

} // verus!
