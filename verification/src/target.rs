//! Request targets: the path before the query, query parameters and their
//! percent decoding.

use vstd::prelude::*;
use vstd::utf8::{
    decode_utf8, encode_scalar, encode_utf8, encode_utf8_decode_utf8, encode_utf8_valid_utf8,
    has_width_1_encoding, has_width_2_encoding, has_width_3_encoding, valid_utf8,
};
use crate::text::{chars_of, push_char, string_of_range, text_eq};

verus! {

// ---------------------------------------------------------------------------
// Splitting at the first occurrence of a character

/// The characters of `s` before the first `c` (all of `s` when there is none).
pub open spec fn before_char(s: Seq<char>, c: char) -> Seq<char>
    decreases s.len(),
{
    if s.len() == 0 {
        Seq::empty()
    } else if s[0] == c {
        Seq::empty()
    } else {
        seq![s[0]] + before_char(s.drop_first(), c)
    }
}

/// The characters of `s` after the first `c`, when there is one.
pub open spec fn after_char(s: Seq<char>, c: char) -> Option<Seq<char>>
    decreases s.len(),
{
    if s.len() == 0 {
        None
    } else if s[0] == c {
        Some(s.drop_first())
    } else {
        after_char(s.drop_first(), c)
    }
}

proof fn lemma_after_char_shorter(s: Seq<char>, c: char)
    ensures
        after_char(s, c) matches Some(rest) ==> rest.len() < s.len(),
    decreases s.len(),
{
    if s.len() > 0 && s[0] != c {
        lemma_after_char_shorter(s.drop_first(), c);
    }
}

/// `s` split at its first `c`: the part before it and, when `c` occurs, the
/// part after it (`str::split_once`, with the whole text when `c` is absent).
pub fn split_at_char(s: &str, c: char) -> (r: (String, Option<String>))
    ensures
        r.0@ == before_char(s@, c),
        r.1 matches Some(t) ==> after_char(s@, c) == Some(t@),
        r.1 is None ==> after_char(s@, c) is None,
{
    let v = chars_of(s);
    let n = v.len();
    let mut i: usize = 0;
    assert(s@.subrange(0, n as int) =~= s@);
    assert(s@.subrange(0, 0) =~= Seq::<char>::empty());
    while i < n && v[i] != c
        invariant
            v@ == s@,
            n == v@.len(),
            i <= n,
            before_char(s@, c) == s@.subrange(0, i as int) + before_char(s@.subrange(i as int, n as int), c),
            after_char(s@, c) == after_char(s@.subrange(i as int, n as int), c),
        decreases n - i,
    {
        let ghost rest = s@.subrange(i as int, n as int);
        assert(rest.drop_first() =~= s@.subrange(i + 1, n as int));
        assert(s@.subrange(0, i + 1) =~= s@.subrange(0, i as int) + seq![rest[0]]);
        i = i + 1;
    }
    let before = string_of_range(&v, 0, i);
    if i == n {
        assert(s@.subrange(i as int, n as int) =~= Seq::<char>::empty());
        (before, None)
    } else {
        let after = string_of_range(&v, i + 1, n);
        assert(s@.subrange(i as int, n as int).drop_first() =~= s@.subrange(i + 1, n as int));
        (before, Some(after))
    }
}

// ---------------------------------------------------------------------------
// Percent decoding

/// The value of an ASCII hexadecimal digit.
pub open spec fn hex_digit_value(b: u8) -> Option<u8> {
    if 48 <= b && b <= 57 {
        Some((b - 48) as u8)
    } else if 97 <= b && b <= 102 {
        Some((b - 87) as u8)
    } else if 65 <= b && b <= 70 {
        Some((b - 55) as u8)
    } else {
        None
    }
}

pub fn hex_value(byte: u8) -> (r: Option<u8>)
    ensures
        r == hex_digit_value(byte),
{
    if 48u8 <= byte && byte <= 57u8 {
        Some(byte - 48u8)
    } else if 97u8 <= byte && byte <= 102u8 {
        Some(byte - 97u8 + 10)
    } else if 65u8 <= byte && byte <= 70u8 {
        Some(byte - 65u8 + 10)
    } else {
        None
    }
}

/// Percent decoding of a byte string: `+` becomes a space; `%` followed by
/// two hexadecimal digits becomes the byte they spell; every other byte,
/// including a `%` without two digits after it, is kept.
pub open spec fn percent_decoded_bytes(b: Seq<u8>) -> Seq<u8>
    decreases b.len(),
{
    if b.len() == 0 {
        Seq::empty()
    } else if b[0] == 43u8 {
        seq![32u8] + percent_decoded_bytes(b.drop_first())
    } else if b[0] == 37u8 && b.len() > 2 && hex_digit_value(b[1]) is Some && hex_digit_value(
        b[2],
    ) is Some {
        seq![(hex_digit_value(b[1])->0 * 16 + hex_digit_value(b[2])->0) as u8]
            + percent_decoded_bytes(b.subrange(3, b.len() as int))
    } else {
        seq![b[0]] + percent_decoded_bytes(b.drop_first())
    }
}

/// What `String::from_utf8_lossy` makes of a byte string.
pub uninterp spec fn lossy_utf8_text(bytes: Seq<u8>) -> Seq<char>;

/// `String::from_utf8_lossy(..).into_owned()`: the text the bytes encode,
/// with replacement characters for invalid sequences. Valid UTF-8 decodes
/// as it is.
#[verifier::external_body]
fn from_utf8_lossy(bytes: &Vec<u8>) -> (r: String)
    ensures
        r@ == lossy_utf8_text(bytes@),
        valid_utf8(bytes@) ==> r@ == decode_utf8(bytes@),
{
    String::from_utf8_lossy(bytes.as_slice()).into_owned()
}

/// The text of a byte string read as UTF-8: the characters it encodes when
/// it is valid UTF-8, and otherwise what `String::from_utf8_lossy` makes of it.
pub open spec fn utf8_lossy_of(bytes: Seq<u8>) -> Seq<char> {
    if valid_utf8(bytes) {
        decode_utf8(bytes)
    } else {
        lossy_utf8_text(bytes)
    }
}

/// The percent-decoded text of `s`.
pub open spec fn percent_decoded(s: Seq<char>) -> Seq<char> {
    utf8_lossy_of(percent_decoded_bytes(encode_utf8(s)))
}

/// `value` percent decoded. A text without `%` and `+` is returned as it is;
/// decoded bytes that are valid UTF-8 give the characters they encode.
pub fn percent_decode(value: &str) -> (r: String)
    ensures
        r@ == percent_decoded(value@),
        valid_utf8(percent_decoded_bytes(encode_utf8(value@))) ==> r@ == decode_utf8(
            percent_decoded_bytes(encode_utf8(value@)),
        ),
        !value@.contains('%') && !value@.contains('+') ==> r@ == value@,
{
    let bytes = value.as_bytes();
    let n = bytes.len();
    let mut output: Vec<u8> = Vec::new();
    let mut index: usize = 0;
    assert(bytes@.subrange(0, n as int) =~= bytes@);
    assert(output@ =~= Seq::<u8>::empty());
    while index < n
        invariant
            bytes@ == encode_utf8(value@),
            n == bytes@.len(),
            index <= n,
            output@ + percent_decoded_bytes(bytes@.subrange(index as int, n as int))
                == percent_decoded_bytes(bytes@),
        decreases n - index,
    {
        let ghost rest = bytes@.subrange(index as int, n as int);
        let b = bytes[index];
        if b == 43u8 {
            assert(rest.drop_first() =~= bytes@.subrange(index + 1, n as int));
            output.push(32u8);
            index = index + 1;
            assert(output@ + percent_decoded_bytes(bytes@.subrange(index as int, n as int))
                =~= percent_decoded_bytes(bytes@));
        } else if b == 37u8 && n - index > 2 && hex_value(bytes[index + 1]).is_some() && hex_value(
            bytes[index + 2],
        ).is_some() {
            let first = hex_value(bytes[index + 1]).unwrap();
            let second = hex_value(bytes[index + 2]).unwrap();
            assert(rest[1] == bytes@[index + 1] && rest[2] == bytes@[index + 2]);
            assert(rest.subrange(3, rest.len() as int) =~= bytes@.subrange(index + 3, n as int));
            output.push(first * 16 + second);
            index = index + 3;
            assert(output@ + percent_decoded_bytes(bytes@.subrange(index as int, n as int))
                =~= percent_decoded_bytes(bytes@));
        } else {
            assert(rest.drop_first() =~= bytes@.subrange(index + 1, n as int));
            output.push(b);
            index = index + 1;
            assert(output@ + percent_decoded_bytes(bytes@.subrange(index as int, n as int))
                =~= percent_decoded_bytes(bytes@));
        }
    }
    assert(output@ =~= percent_decoded_bytes(bytes@));
    proof {
        if !value@.contains('%') && !value@.contains('+') {
            lemma_plain_text_bytes(value@);
            lemma_plain_bytes_decode_to_themselves(bytes@);
            encode_utf8_valid_utf8(value@);
            encode_utf8_decode_utf8(value@);
        }
    }
    from_utf8_lossy(&output)
}

// ---------------------------------------------------------------------------
// Paths and query parameters

/// The path of a request target: the part before `?`, `/` when that part is
/// blank, and with a leading `/` added when it lacks one.
pub open spec fn normalized_path(target: Seq<char>) -> Seq<char> {
    let p = before_char(target, '?');
    if crate::text::trimmed(p).len() == 0 {
        seq!['/']
    } else if p[0] == '/' {
        p
    } else {
        seq!['/'] + p
    }
}

pub fn normalize_path(target: &str) -> (r: String)
    ensures
        r@ == normalized_path(target@),
{
    let (without_query, _) = split_at_char(target, '?');
    let trimmed = crate::text::trim(without_query.as_str());
    if crate::text::is_empty_text(trimmed.as_str()) {
        proof {
            reveal_strlit("/");
        }
        crate::text::owned("/")
    } else if crate::text::starts_with(without_query.as_str(), "/") {
        proof {
            reveal_strlit("/");
            assert(without_query@.subrange(0, 1)[0] == without_query@[0]);
        }
        without_query
    } else {
        proof {
            reveal_strlit("/");
            if without_query@.len() > 0 && without_query@[0] == '/' {
                assert(without_query@.subrange(0, 1) =~= "/"@);
            }
            assert(without_query@.len() > 0) by {
                if without_query@.len() == 0 {
                    assert(crate::text::trimmed(without_query@) =~= Seq::<char>::empty());
                }
            }
        }
        crate::text::concat2("/", without_query.as_str())
    }
}

/// The value of one `key=value` part of a query when its decoded key is
/// `name` (a part without `=` has an empty value).
pub open spec fn part_value(part: Seq<char>, name: Seq<char>) -> Option<Seq<char>> {
    if percent_decoded(before_char(part, '=')) == name {
        Some(
            percent_decoded(
                match after_char(part, '=') {
                    Some(v) => v,
                    None => Seq::empty(),
                },
            ),
        )
    } else {
        None
    }
}

/// The decoded value of the first `&`-separated part of `query` whose
/// decoded key is `name`.
pub open spec fn query_value(query: Seq<char>, name: Seq<char>) -> Option<Seq<char>>
    decreases query.len(),
{
    match part_value(before_char(query, '&'), name) {
        Some(v) => Some(v),
        None => match after_char(query, '&') {
            Some(rest) => if rest.len() < query.len() {
                query_value(rest, name)
            } else {
                None
            },
            None => None,
        },
    }
}

/// The value of query parameter `name` in a request target.
pub open spec fn target_query_param(target: Seq<char>, name: Seq<char>) -> Option<Seq<char>> {
    match after_char(target, '?') {
        Some(query) => query_value(query, name),
        None => None,
    }
}

fn param_in_part(part: &str, name: &str) -> (r: Option<String>)
    ensures
        r matches Some(v) ==> part_value(part@, name@) == Some(v@),
        r is None ==> part_value(part@, name@) is None,
{
    let (key, value) = split_at_char(part, '=');
    let decoded_key = percent_decode(key.as_str());
    if text_eq(decoded_key.as_str(), name) {
        match value {
            Some(v) => Some(percent_decode(v.as_str())),
            None => {
                let empty = String::new();
                let d = percent_decode(empty.as_str());
                assert(empty@ =~= Seq::<char>::empty());
                Some(d)
            },
        }
    } else {
        None
    }
}

/// The decoded value of query parameter `name` in `target`.
pub fn query_param(target: &str, name: &str) -> (r: Option<String>)
    ensures
        r matches Some(v) ==> target_query_param(target@, name@) == Some(v@),
        r is None ==> target_query_param(target@, name@) is None,
{
    let (_, query) = split_at_char(target, '?');
    let mut rest = match query {
        Some(q) => q,
        None => return None,
    };
    let ghost goal = target_query_param(target@, name@);
    loop
        invariant
            goal == target_query_param(target@, name@),
            goal == query_value(rest@, name@),
        decreases rest@.len(),
    {
        let (part, next) = split_at_char(rest.as_str(), '&');
        match param_in_part(part.as_str(), name) {
            Some(v) => return Some(v),
            None => {},
        }
        match next {
            Some(n) => {
                proof {
                    lemma_after_char_shorter(rest@, '&');
                }
                rest = n;
            },
            None => return None,
        }
    }
}

/// No byte of `b` is `%` or `+`.
pub open spec fn free_of_escapes(b: Seq<u8>) -> bool {
    forall|i: int| 0 <= i < b.len() ==> b[i] != 37u8 && b[i] != 43u8
}

proof fn lemma_plain_bytes_decode_to_themselves(b: Seq<u8>)
    requires
        free_of_escapes(b),
    ensures
        percent_decoded_bytes(b) == b,
    decreases b.len(),
{
    if b.len() > 0 {
        assert(free_of_escapes(b.drop_first()));
        lemma_plain_bytes_decode_to_themselves(b.drop_first());
        assert(b =~= seq![b[0]] + b.drop_first());
    }
}

proof fn lemma_scalar_bytes_plain(c: char)
    requires
        c != '%',
        c != '+',
    ensures
        free_of_escapes(encode_scalar(c as u32)),
{
    let v = c as u32;
    if has_width_1_encoding(v) {
        assert((v & 0x7F) as u8 == v) by (bit_vector)
            requires
                v <= 0x7F,
        ;
    } else if has_width_2_encoding(v) {
        assert((0xC0 | ((v >> 6) & 0x1F) as u8) >= 0x80) by (bit_vector);
        assert((0x80 | (v & 0x3F) as u8) >= 0x80) by (bit_vector);
    } else if has_width_3_encoding(v) {
        assert((0xE0 | ((v >> 12) & 0x0F) as u8) >= 0x80) by (bit_vector);
        assert((0x80 | ((v >> 6) & 0x3F) as u8) >= 0x80) by (bit_vector);
        assert((0x80 | (v & 0x3F) as u8) >= 0x80) by (bit_vector);
    } else {
        assert((0xF0 | ((v >> 18) & 0x7) as u8) >= 0x80) by (bit_vector);
        assert((0x80 | ((v >> 12) & 0x3F) as u8) >= 0x80) by (bit_vector);
        assert((0x80 | ((v >> 6) & 0x3F) as u8) >= 0x80) by (bit_vector);
        assert((0x80 | (v & 0x3F) as u8) >= 0x80) by (bit_vector);
    }
}

proof fn lemma_plain_text_bytes(s: Seq<char>)
    requires
        !s.contains('%'),
        !s.contains('+'),
    ensures
        free_of_escapes(encode_utf8(s)),
    decreases s.len(),
{
    if s.len() > 0 {
        assert(s[0] != '%' && s[0] != '+') by {
            if s[0] == '%' {
                assert(s.contains('%'));
            }
            if s[0] == '+' {
                assert(s.contains('+'));
            }
        }
        let rest = s.drop_first();
        assert(!rest.contains('%')) by {
            if rest.contains('%') {
                let i = choose|i: int| 0 <= i < rest.len() && rest[i] == '%';
                assert(s[i + 1] == '%');
            }
        }
        assert(!rest.contains('+')) by {
            if rest.contains('+') {
                let i = choose|i: int| 0 <= i < rest.len() && rest[i] == '+';
                assert(s[i + 1] == '+');
            }
        }
        lemma_scalar_bytes_plain(s[0]);
        lemma_plain_text_bytes(rest);
        let a = encode_scalar(s[0] as u32);
        let b = encode_utf8(rest);
        assert forall|i: int| 0 <= i < (a + b).len() implies (a + b)[i] != 37u8 && (a
            + b)[i] != 43u8 by {
            if i < a.len() {
                assert((a + b)[i] == a[i]);
            } else {
                assert((a + b)[i] == b[i - a.len()]);
            }
        }
    }
}

// ---------------------------------------------------------------------------
// Percent encoding, and decoding it back

/// The upper-case hexadecimal digit byte for `d < 16`.
pub open spec fn hex_upper_byte(d: nat) -> u8 {
    if d < 10 {
        (48 + d) as u8
    } else {
        (55 + d) as u8
    }
}

/// Every byte written as `%` and two upper-case hexadecimal digits.
pub open spec fn percent_encoded_bytes(b: Seq<u8>) -> Seq<u8>
    decreases b.len(),
{
    if b.len() == 0 {
        Seq::empty()
    } else {
        seq![37u8, hex_upper_byte((b[0] / 16) as nat), hex_upper_byte((b[0] % 16) as nat)]
            + percent_encoded_bytes(b.drop_first())
    }
}

/// The text of ASCII bytes.
pub open spec fn ascii_text(b: Seq<u8>) -> Seq<char> {
    b.map_values(|x: u8| x as char)
}

/// `s` with every byte of its UTF-8 encoding percent-encoded.
pub open spec fn percent_encoded(s: Seq<char>) -> Seq<char> {
    ascii_text(percent_encoded_bytes(encode_utf8(s)))
}

proof fn lemma_percent_encoded_bytes_len(b: Seq<u8>)
    ensures
        percent_encoded_bytes(b).len() == 3 * b.len(),
        forall|i: int| 0 <= i < percent_encoded_bytes(b).len() ==> #[trigger] percent_encoded_bytes(b)[i] < 128,
    decreases b.len(),
{
    if b.len() > 0 {
        lemma_percent_encoded_bytes_len(b.drop_first());
        let head = seq![37u8, hex_upper_byte((b[0] / 16) as nat), hex_upper_byte((b[0] % 16) as nat)];
        let tail = percent_encoded_bytes(b.drop_first());
        assert forall|i: int| 0 <= i < (head + tail).len() implies #[trigger] (head + tail)[i] < 128 by {
            if i >= 3 {
                assert((head + tail)[i] == tail[i - 3]);
            }
        }
    }
}

proof fn lemma_decode_percent_encoded_bytes(b: Seq<u8>)
    ensures
        percent_decoded_bytes(percent_encoded_bytes(b)) == b,
    decreases b.len(),
{
    if b.len() > 0 {
        let e = percent_encoded_bytes(b);
        let hi = (b[0] / 16) as nat;
        let lo = (b[0] % 16) as nat;
        lemma_percent_encoded_bytes_len(b.drop_first());
        assert(e[0] == 37u8 && e[1] == hex_upper_byte(hi) && e[2] == hex_upper_byte(lo));
        assert(hex_digit_value(hex_upper_byte(hi)) == Some(hi as u8));
        assert(hex_digit_value(hex_upper_byte(lo)) == Some(lo as u8));
        assert(e.subrange(3, e.len() as int) =~= percent_encoded_bytes(b.drop_first()));
        lemma_decode_percent_encoded_bytes(b.drop_first());
        assert((hi * 16 + lo) as u8 == b[0]);
        assert(b =~= seq![b[0]] + b.drop_first());
    }
}

proof fn lemma_encode_ascii_text(b: Seq<u8>)
    requires
        forall|i: int| 0 <= i < b.len() ==> #[trigger] b[i] < 128,
    ensures
        encode_utf8(ascii_text(b)) == b,
    decreases b.len(),
{
    if b.len() > 0 {
        let t = ascii_text(b);
        let x = b[0];
        assert(t.drop_first() =~= ascii_text(b.drop_first()));
        lemma_encode_ascii_text(b.drop_first());
        let v = (x as char) as u32;
        assert(v == x);
        assert(has_width_1_encoding(v));
        assert((v & 0x7F) as u8 == v) by (bit_vector)
            requires
                v <= 0x7F,
        ;
        assert(encode_scalar(t[0] as u32) =~= seq![x]);
        assert(b =~= seq![x] + b.drop_first());
    }
}

/// Percent decoding reverses percent encoding: encoding every byte of a
/// text's UTF-8 form as `%XX` and decoding the result gives the text back.
pub proof fn lemma_percent_decode_reverses_encoding(s: Seq<char>)
    ensures
        percent_decoded(percent_encoded(s)) == s,
{
    let b = encode_utf8(s);
    lemma_percent_encoded_bytes_len(b);
    lemma_encode_ascii_text(percent_encoded_bytes(b));
    lemma_decode_percent_encoded_bytes(b);
    encode_utf8_valid_utf8(s);
    encode_utf8_decode_utf8(s);
}

} // verus!
