//! The text encodings that the dashboard relies on, stated as mathematical
//! functions: Base64 with the standard alphabet (RFC 4648) and the
//! `application/x-www-form-urlencoded` serialisation of the URL standard.
use vstd::prelude::*;

verus! {

/// The digit of the standard Base64 alphabet for a value below 64.
pub open spec fn base64_digit(v: int) -> char {
    if v < 26 {
        (65 + v) as char
    } else if v < 52 {
        (97 + v - 26) as char
    } else if v < 62 {
        (48 + v - 52) as char
    } else if v == 62 {
        '+'
    } else {
        '/'
    }
}

/// Base64 of `b` with the standard alphabet and `=` padding: each group of
/// three bytes gives four digits, and a last group of one or two bytes is
/// padded.
pub open spec fn base64_standard(b: Seq<u8>) -> Seq<char>
    decreases b.len(),
{
    if b.len() == 0 {
        seq![]
    } else if b.len() == 1 {
        let b0 = b[0] as int;
        seq![base64_digit(b0 / 4), base64_digit((b0 % 4) * 16), '=', '=']
    } else if b.len() == 2 {
        let b0 = b[0] as int;
        let b1 = b[1] as int;
        seq![
            base64_digit(b0 / 4),
            base64_digit((b0 % 4) * 16 + b1 / 16),
            base64_digit((b1 % 16) * 4),
            '=',
        ]
    } else {
        let b0 = b[0] as int;
        let b1 = b[1] as int;
        let b2 = b[2] as int;
        seq![
            base64_digit(b0 / 4),
            base64_digit((b0 % 4) * 16 + b1 / 16),
            base64_digit((b1 % 16) * 4 + b2 / 64),
            base64_digit(b2 % 64),
        ] + base64_standard(b.skip(3))
    }
}

/// The upper-case hexadecimal digit for a value below 16.
pub open spec fn hex_digit_upper(v: int) -> char {
    if v < 10 {
        (48 + v) as char
    } else {
        (55 + v) as char
    }
}

/// Bytes that form-urlencoding leaves as they are: ASCII letters and digits,
/// `*`, `-`, `.` and `_`.
pub open spec fn form_unreserved(b: u8) -> bool {
    ||| b == 42
    ||| b == 45
    ||| b == 46
    ||| 48 <= b <= 57
    ||| 65 <= b <= 90
    ||| b == 95
    ||| 97 <= b <= 122
}

/// The form-urlencoding of one byte: itself, `+` for a space, or `%` and two
/// upper-case hexadecimal digits.
pub open spec fn form_encode_byte(b: u8) -> Seq<char> {
    if form_unreserved(b) {
        seq![b as char]
    } else if b == 32 {
        seq!['+']
    } else {
        seq!['%', hex_digit_upper(b as int / 16), hex_digit_upper(b as int % 16)]
    }
}

/// The form-urlencoding of a byte string, byte by byte.
pub open spec fn form_encode_bytes(b: Seq<u8>) -> Seq<char>
    decreases b.len(),
{
    if b.len() == 0 {
        seq![]
    } else {
        form_encode_bytes(b.drop_last()) + form_encode_byte(b.last())
    }
}

/// The form-urlencoding of a string: of the bytes of its UTF-8 encoding.
pub open spec fn form_encode(s: Seq<char>) -> Seq<char> {
    form_encode_bytes(vstd::utf8::encode_utf8(s))
}

/// One `name=value` pair of a form-urlencoded query.
pub open spec fn form_pair(name: Seq<char>, value: Seq<char>) -> Seq<char> {
    form_encode(name) + seq!['='] + form_encode(value)
}

/// A form-urlencoded query: the pairs in order, separated by `&`.
pub open spec fn form_query(pairs: Seq<(Seq<char>, Seq<char>)>) -> Seq<char>
    decreases pairs.len(),
{
    if pairs.len() == 0 {
        seq![]
    } else if pairs.len() == 1 {
        form_pair(pairs[0].0, pairs[0].1)
    } else {
        form_query(pairs.drop_last()) + seq!['&'] + form_pair(pairs.last().0, pairs.last().1)
    }
}

/// The views of a list of string pairs.
pub open spec fn pair_views(pairs: Seq<(String, String)>) -> Seq<(Seq<char>, Seq<char>)> {
    pairs.map_values(|p: (String, String)| (p.0@, p.1@))
}

/// Whether `c` is a lower-case hexadecimal digit.
pub open spec fn lower_hex_digit(c: char) -> bool {
    ('0' <= c && c <= '9') || ('a' <= c && c <= 'f')
}

/// Whether `c` is a visible ASCII character or a space (what an HTTP header
/// value may hold without escaping).
pub open spec fn visible_ascii(c: char) -> bool {
    ' ' <= c && c <= '~'
}

proof fn lemma_base64_digit_visible(v: int)
    requires
        0 <= v < 64,
    ensures
        visible_ascii(base64_digit(v)),
{
}

/// Every character of a Base64 text is visible ASCII.
pub proof fn lemma_base64_visible(b: Seq<u8>)
    ensures
        forall|i: int| 0 <= i < base64_standard(b).len() ==> visible_ascii(#[trigger] base64_standard(b)[i]),
    decreases b.len(),
{
    if b.len() == 0 {
    } else if b.len() == 1 {
        let b0 = b[0] as int;
        lemma_base64_digit_visible(b0 / 4);
        lemma_base64_digit_visible((b0 % 4) * 16);
    } else if b.len() == 2 {
        let b0 = b[0] as int;
        let b1 = b[1] as int;
        lemma_base64_digit_visible(b0 / 4);
        lemma_base64_digit_visible((b0 % 4) * 16 + b1 / 16);
        lemma_base64_digit_visible((b1 % 16) * 4);
    } else {
        let b0 = b[0] as int;
        let b1 = b[1] as int;
        let b2 = b[2] as int;
        lemma_base64_digit_visible(b0 / 4);
        lemma_base64_digit_visible((b0 % 4) * 16 + b1 / 16);
        lemma_base64_digit_visible((b1 % 16) * 4 + b2 / 64);
        lemma_base64_digit_visible(b2 % 64);
        lemma_base64_visible(b.skip(3));
        let head = seq![
            base64_digit(b0 / 4),
            base64_digit((b0 % 4) * 16 + b1 / 16),
            base64_digit((b1 % 16) * 4 + b2 / 64),
            base64_digit(b2 % 64),
        ];
        assert(base64_standard(b) == head + base64_standard(b.skip(3)));
        assert forall|i: int| 0 <= i < base64_standard(b).len() implies visible_ascii(
            #[trigger] base64_standard(b)[i],
        ) by {
            if i >= 4 {
                assert(base64_standard(b)[i] == base64_standard(b.skip(3))[i - 4]);
            }
        }
    }
}

} // verus!
