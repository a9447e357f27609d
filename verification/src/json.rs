//! JSON string literals, as `serde_json` writes them, and the small JSON
//! documents that the service builds around them.

use vstd::prelude::*;

verus! {

/// `serde_json::Error`, carried through without looking inside.
#[verifier::external_type_specification]
#[verifier::external_body]
pub struct ExSerdeJsonError(serde_json::Error);

/// The lower-case hexadecimal digit for `d < 16`.
pub open spec fn hex_digit_lower(d: nat) -> char {
    if d < 10 {
        (48 + d) as char
    } else {
        (87 + d) as char
    }
}

/// How one character is written inside a JSON string literal: quote and
/// backslash escaped, the short escapes for backspace, tab, line feed, form
/// feed and carriage return, `\u00XX` for other control characters below
/// 0x20, every other character as it is.
pub open spec fn json_escape_char(c: char) -> Seq<char> {
    let n = c as u32;
    if c == '"' {
        seq!['\\', '"']
    } else if c == '\\' {
        seq!['\\', '\\']
    } else if n == 0x08 {
        seq!['\\', 'b']
    } else if n == 0x09 {
        seq!['\\', 't']
    } else if n == 0x0A {
        seq!['\\', 'n']
    } else if n == 0x0C {
        seq!['\\', 'f']
    } else if n == 0x0D {
        seq!['\\', 'r']
    } else if n < 0x20 {
        seq!['\\', 'u', '0', '0', hex_digit_lower((n / 16) as nat), hex_digit_lower((n % 16) as nat)]
    } else {
        seq![c]
    }
}

/// The escaped contents of a JSON string literal.
pub open spec fn json_escape(s: Seq<char>) -> Seq<char>
    decreases s.len(),
{
    if s.len() == 0 {
        Seq::empty()
    } else {
        json_escape(s.drop_last()) + json_escape_char(s.last())
    }
}

/// The JSON string literal for `s`: escaped contents between double quotes.
pub open spec fn json_quoted(s: Seq<char>) -> Seq<char> {
    seq!['"'] + json_escape(s) + seq!['"']
}

/// `serde_json::to_string` on a `str`. Its source writes a double quote, then
/// each byte run of the text with the escapes of `json_escape_char`, then a
/// double quote, into a `Vec<u8>`; writing into a vector never fails, so the
/// result is always `Ok`.
#[verifier::external_body]
fn serde_json_string(s: &str) -> (r: Result<String, serde_json::Error>)
    ensures
        r is Ok,
        r matches Ok(t) ==> t@ == json_quoted(s@),
{
    serde_json::to_string(s)
}

/// The JSON string literal for `s`.
pub fn json_string(s: &str) -> (r: String)
    ensures
        r@ == json_quoted(s@),
{
    match serde_json_string(s) {
        Ok(t) => t,
        Err(_) => String::new(),
    }
}

/// `{"error":<message>}`, the compact JSON of an error body.
pub open spec fn error_body_json(message: Seq<char>) -> Seq<char> {
    "{\"error\":"@ + json_quoted(message) + "}"@
}

/// `{"error":<message>,"kind":<kind>}`, the compact JSON of a typed error body.
pub open spec fn typed_error_body_json(message: Seq<char>, kind: Seq<char>) -> Seq<char> {
    "{\"error\":"@ + json_quoted(message) + ",\"kind\":"@ + json_quoted(kind) + "}"@
}

/// The JSON text of an error body carrying `message`.
pub fn error_body(message: &str) -> (r: String)
    ensures
        r@ == error_body_json(message@),
{
    let q = json_string(message);
    crate::text::concat3("{\"error\":", q.as_str(), "}")
}

/// The JSON text of an error body carrying `message` and `kind`.
pub fn typed_error_body(message: &str, kind: &str) -> (r: String)
    ensures
        r@ == typed_error_body_json(message@, kind@),
{
    let q = json_string(message);
    let k = json_string(kind);
    crate::text::concat5("{\"error\":", q.as_str(), ",\"kind\":", k.as_str(), "}")
}

// ---------------------------------------------------------------------------
// Reading a JSON string literal back

/// The value of a hexadecimal digit, in either case.
pub open spec fn hex_digit_value_of(c: char) -> Option<nat> {
    if '0' <= c && c <= '9' {
        Some((c as u32 - 48) as nat)
    } else if 'a' <= c && c <= 'f' {
        Some((c as u32 - 87) as nat)
    } else if 'A' <= c && c <= 'F' {
        Some((c as u32 - 55) as nat)
    } else {
        None
    }
}

/// The four hexadecimal digits at `t[i..i + 4]`, as a number.
pub open spec fn hex4_at(t: Seq<char>, i: int) -> Option<nat> {
    if 0 <= i && i + 4 <= t.len() && hex_digit_value_of(t[i]) is Some && hex_digit_value_of(
        t[i + 1],
    ) is Some && hex_digit_value_of(t[i + 2]) is Some && hex_digit_value_of(t[i + 3]) is Some {
        Some(
            hex_digit_value_of(t[i])->0 * 4096 + hex_digit_value_of(t[i + 1])->0 * 256
                + hex_digit_value_of(t[i + 2])->0 * 16 + hex_digit_value_of(t[i + 3])->0,
        )
    } else {
        None
    }
}

/// The character a two-character escape `\e` stands for.
pub open spec fn json_short_escape(e: char) -> Option<char> {
    if e == '"' || e == '\\' || e == '/' {
        Some(e)
    } else if e == 'b' {
        Some('\x08')
    } else if e == 'f' {
        Some('\x0C')
    } else if e == 'n' {
        Some('\n')
    } else if e == 'r' {
        Some('\r')
    } else if e == 't' {
        Some('\t')
    } else {
        None
    }
}

pub open spec fn prepend_char(c: char, rest: Option<Seq<char>>) -> Option<Seq<char>> {
    match rest {
        Some(r) => Some(seq![c] + r),
        None => None,
    }
}

/// The text that the contents of a JSON string literal stand for, as the
/// JSON grammar (RFC 8259) reads them: a character other than a double
/// quote, a backslash or a control character stands for itself; a
/// backslash starts a two-character escape or a `\uXXXX` escape (a high
/// surrogate followed by a low one making one character). `None` when the
/// contents are not valid.
pub open spec fn json_unescape(t: Seq<char>) -> Option<Seq<char>>
    decreases t.len(),
{
    if t.len() == 0 {
        Some(Seq::empty())
    } else if t[0] == '"' || (t[0] as u32) < 0x20 {
        None
    } else if t[0] != '\\' {
        prepend_char(t[0], json_unescape(t.drop_first()))
    } else if t.len() < 2 {
        None
    } else if json_short_escape(t[1]) is Some {
        prepend_char(json_short_escape(t[1])->0, json_unescape(t.skip(2)))
    } else if t[1] == 'u' && hex4_at(t, 2) is Some {
        let u = hex4_at(t, 2)->0;
        if u < 0xD800 || u > 0xDFFF {
            prepend_char(u as char, json_unescape(t.skip(6)))
        } else if u <= 0xDBFF && t.len() >= 12 && t[6] == '\\' && t[7] == 'u' && hex4_at(t, 8) is Some
            && 0xDC00 <= hex4_at(t, 8)->0 && hex4_at(t, 8)->0 <= 0xDFFF {
            prepend_char(
                (0x10000 + (u - 0xD800) * 0x400 + (hex4_at(t, 8)->0 - 0xDC00)) as char,
                json_unescape(t.skip(12)),
            )
        } else {
            None
        }
    } else {
        None
    }
}

/// The escapes of a concatenation are the concatenated escapes.
pub proof fn lemma_json_escape_append(a: Seq<char>, b: Seq<char>)
    ensures
        json_escape(a + b) == json_escape(a) + json_escape(b),
    decreases b.len(),
{
    if b.len() == 0 {
        assert(a + b =~= a);
        assert(json_escape(a) + json_escape(b) =~= json_escape(a));
    } else {
        lemma_json_escape_append(a, b.drop_last());
        assert((a + b).drop_last() =~= a + b.drop_last());
        assert((a + b).last() == b.last());
    }
}

proof fn lemma_hex_digit_round_trip(d: nat)
    requires
        d < 16,
    ensures
        hex_digit_value_of(hex_digit_lower(d)) == Some(d),
{
}

proof fn lemma_unescape_escaped_char(c: char, rest: Seq<char>)
    ensures
        json_unescape(json_escape_char(c) + rest) == prepend_char(c, json_unescape(rest)),
{
    let t = json_escape_char(c) + rest;
    let n = c as u32;
    if c == '"' || c == '\\' || n == 0x08 || n == 0x09 || n == 0x0A || n == 0x0C || n == 0x0D {
        assert(t[0] == '\\');
        assert(t.skip(2) =~= rest);
        assert(json_short_escape(t[1]) == Some(c));
    } else if n < 0x20 {
        let hi = (n / 16) as nat;
        let lo = (n % 16) as nat;
        lemma_hex_digit_round_trip(hi);
        lemma_hex_digit_round_trip(lo);
        assert(t[0] == '\\' && t[1] == 'u' && t[2] == '0' && t[3] == '0');
        assert(t[4] == hex_digit_lower(hi) && t[5] == hex_digit_lower(lo));
        assert(json_short_escape(t[1]) is None);
        assert(hex4_at(t, 2) == Some(hi * 16 + lo));
        assert(hi * 16 + lo == n);
        assert(t.skip(6) =~= rest);
        assert((n as nat) as char == c);
    } else {
        assert(t[0] == c);
        assert(t.drop_first() =~= rest);
    }
}

/// Reading the escaped contents back gives the text: the contents written
/// by `json_escape` stand for exactly the text they were made from.
pub proof fn lemma_json_unescape_escape(s: Seq<char>)
    ensures
        json_unescape(json_escape(s)) == Some(s),
    decreases s.len(),
{
    if s.len() > 0 {
        let rest = s.drop_first();
        lemma_json_escape_append(seq![s[0]], rest);
        assert(seq![s[0]] + rest =~= s);
        assert(seq![s[0]].drop_last() =~= Seq::<char>::empty());
        assert(json_escape(Seq::<char>::empty()) =~= Seq::<char>::empty());
        assert(seq![s[0]].last() == s[0]);
        assert(json_escape(seq![s[0]]) =~= json_escape_char(s[0]));
        lemma_unescape_escaped_char(s[0], json_escape(rest));
        lemma_json_unescape_escape(rest);
        assert(seq![s[0]] + rest =~= s);
    }
}

/// The text a JSON string literal stands for: its contents, between the
/// double quotes that open and close it, read back.
pub open spec fn json_literal_value(t: Seq<char>) -> Option<Seq<char>> {
    if t.len() >= 2 && t[0] == '"' && t.last() == '"' {
        json_unescape(t.subrange(1, t.len() - 1))
    } else {
        None
    }
}

/// A quoted text reads back as the text: `json_string` (and so every
/// `"error"` of an error body) writes a literal that stands for exactly the
/// text given.
pub proof fn json_quoting_round_trips(s: Seq<char>)
    ensures
        json_literal_value(json_quoted(s)) == Some(s),
{
    let t = json_quoted(s);
    assert(t.subrange(1, t.len() - 1) =~= json_escape(s));
    lemma_json_unescape_escape(s);
}

} // verus!
