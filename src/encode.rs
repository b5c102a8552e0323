//! Percent-encoding of query values.
use vstd::prelude::*;
use vstd::utf8::*;

verus! {

/// An ASCII letter or digit: the bytes that stay as they are.
pub open spec fn is_alnum_byte(b: u8) -> bool {
    (48 <= b <= 57) || (65 <= b <= 90) || (97 <= b <= 122)
}

/// The upper-case hexadecimal digit for `n` (below sixteen).
pub open spec fn hex_digit(n: u8) -> char {
    if n < 10 {
        ((n + 48) as u8) as char
    } else {
        ((n + 55) as u8) as char
    }
}

/// One byte: itself when alphanumeric, else `%` and two hex digits.
pub open spec fn encoded_byte(b: u8) -> Seq<char> {
    if is_alnum_byte(b) {
        seq![b as char]
    } else {
        seq!['%', hex_digit(b / 16), hex_digit(b % 16)]
    }
}

/// Each byte of `bytes` encoded in turn.
pub open spec fn percent_encoded(bytes: Seq<u8>) -> Seq<char>
    decreases bytes.len(),
{
    if bytes.len() == 0 {
        Seq::empty()
    } else {
        encoded_byte(bytes[0]) + percent_encoded(bytes.drop_first())
    }
}

/// The text `s` as the value of a URL query parameter.
pub open spec fn query_value(s: Seq<char>) -> Seq<char> {
    percent_encoded(encode_utf8(s))
}

/// Relies on `percent_encoding::utf8_percent_encode` with `NON_ALPHANUMERIC`:
/// every byte of the UTF-8 encoding that is not an ASCII letter or digit
/// becomes `%` followed by two upper-case hex digits.
#[verifier::external_body]
pub(crate) fn encode_query(s: &str) -> (r: String)
    ensures
        r@ == query_value(s@),
{
    percent_encoding::utf8_percent_encode(s, percent_encoding::NON_ALPHANUMERIC).to_string()
}

} // verus!
