//! Hexadecimal text as the ledger uses it: lower-case on output,
//! either case accepted on input.
use vstd::prelude::*;

verus! {

/// The lower-case digit for a value below 16.
pub open spec fn digit_char(n: u8) -> char {
    if n < 10 {
        (n + 48) as char
    } else {
        (n + 87) as char
    }
}

pub open spec fn is_hex_digit(c: char) -> bool {
    ('0' <= c && c <= '9') || ('a' <= c && c <= 'f') || ('A' <= c && c <= 'F')
}

/// The value of a hexadecimal digit.
pub open spec fn digit_value(c: char) -> int {
    if '0' <= c && c <= '9' {
        c as int - 48
    } else if 'a' <= c && c <= 'f' {
        c as int - 87
    } else {
        c as int - 55
    }
}

/// Two lower-case digits per byte, high nibble first.
pub open spec fn hex_chars(b: Seq<u8>) -> Seq<char> {
    Seq::new(
        2 * b.len(),
        |i: int|
            if i % 2 == 0 {
                digit_char(b[i / 2] / 16)
            } else {
                digit_char(b[i / 2] % 16)
            },
    )
}

/// Whether text decodes as hexadecimal: an even number of digits.
pub open spec fn hex_decodes(s: Seq<char>) -> bool {
    &&& s.len() % 2 == 0
    &&& forall|i: int| 0 <= i < s.len() ==> #[trigger] is_hex_digit(s[i])
}

/// The bytes that hexadecimal text stands for.
pub open spec fn hex_bytes(s: Seq<char>) -> Seq<u8> {
    Seq::new(
        s.len() / 2,
        |i: int| (digit_value(s[2 * i]) * 16 + digit_value(s[2 * i + 1])) as u8,
    )
}

/// Relies on hex::encode: each byte becomes two lower-case digits,
/// high nibble first.
#[verifier::external_body]
pub(crate) fn encode_hex(b: &[u8]) -> (r: String)
    ensures
        r@ == hex_chars(b@),
{
    hex::encode(b)
}

/// Relies on hex::decode: text of an even number of digits (either case)
/// decodes to one byte per pair; anything else is an error.
#[verifier::external_body]
pub(crate) fn decode_hex(s: &str) -> (r: Result<Vec<u8>, hex::FromHexError>)
    ensures
        r.is_ok() == hex_decodes(s@),
        r matches Ok(v) ==> v@ == hex_bytes(s@),
{
    hex::decode(s)
}

#[verifier::external_type_specification]
#[verifier::external_body]
pub struct ExFromHexError(hex::FromHexError);

/// Decoding undoes encoding.
pub proof fn lemma_decode_encode(b: Seq<u8>)
    ensures
        hex_decodes(hex_chars(b)),
        hex_bytes(hex_chars(b)) == b,
{
    let s = hex_chars(b);
    assert forall|i: int| 0 <= i < s.len() implies #[trigger] is_hex_digit(s[i]) by {
        let x = b[i / 2];
        assert(x / 16 < 16 && x % 16 < 16) by (bit_vector);
    }
    assert forall|i: int| 0 <= i < b.len() implies #[trigger] hex_bytes(s)[i] == b[i] by {
        let x = b[i];
        assert(s[2 * i] == digit_char(x / 16));
        assert(s[2 * i + 1] == digit_char(x % 16));
        assert((x / 16) * 16 + x % 16 == x) by (bit_vector);
        assert(x / 16 < 16 && x % 16 < 16) by (bit_vector);
    }
    assert(hex_bytes(s) =~= b);
}

} // verus!
