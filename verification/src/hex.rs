//! Hexadecimal import and export of fixed-width byte values.
//!
//! Callers supply keys and addresses as hex strings; malformed hex is a
//! caller error and is rejected, never a panic.

use vstd::prelude::*;

verus! {

use vstd::string::StringSliceAdditionalSpecFns;

/// True for the ASCII code of a hexadecimal digit, either case.
pub open spec fn is_hex_digit(b: u8) -> bool {
    (48 <= b && b <= 57) || (97 <= b && b <= 102) || (65 <= b && b <= 70)
}

/// The numeric value of a hexadecimal digit's ASCII code.
pub open spec fn hex_val(b: u8) -> u8 {
    if 48 <= b && b <= 57 {
        (b - 48) as u8
    } else if 97 <= b && b <= 102 {
        (b - 87) as u8
    } else {
        (b - 55) as u8
    }
}

/// True when the bytes form a well-formed hex string: even length, digits only.
pub open spec fn is_hex_bytes(s: Seq<u8>) -> bool {
    s.len() % 2 == 0 && (forall|i: int| 0 <= i < s.len() ==> is_hex_digit(#[trigger] s[i]))
}

/// The bytes denoted by a well-formed hex string.
pub open spec fn hex_decode_spec(s: Seq<u8>) -> Seq<u8> {
    Seq::new((s.len() / 2) as nat, |i: int| (hex_val(s[2 * i]) * 16 + hex_val(s[2 * i + 1])) as u8)
}

/// The lowercase ASCII code of a nibble value below 16.
pub open spec fn hex_char_of(v: u8) -> u8 {
    if v < 10 {
        (48 + v) as u8
    } else {
        (87 + v) as u8
    }
}

/// The lowercase hex encoding of a byte sequence.
pub open spec fn hex_encode_spec(b: Seq<u8>) -> Seq<u8> {
    Seq::new(
        (2 * b.len()) as nat,
        |i: int| if i % 2 == 0 {
            hex_char_of(b[i / 2] / 16)
        } else {
            hex_char_of(b[i / 2] % 16)
        },
    )
}

/// ASCII bytes read as characters, one for one.
pub open spec fn ascii_chars_of(s: Seq<u8>) -> Seq<char> {
    Seq::new(s.len(), |i: int| s[i] as char)
}

fn hex_val_exec(b: u8) -> (r: Option<u8>)
    ensures
        r is Some <==> is_hex_digit(b),
        r matches Some(v) ==> v == hex_val(b),
{
    if 48 <= b && b <= 57 {
        Some(b - 48)
    } else if 97 <= b && b <= 102 {
        Some(b - 87)
    } else if 65 <= b && b <= 70 {
        Some(b - 55)
    } else {
        None
    }
}

/// Decodes a hex string into bytes. Rejects odd lengths and non-digits.
pub fn hex_decode(s: &str) -> (r: Option<Vec<u8>>)
    ensures
        r is Some <==> is_hex_bytes(s.spec_bytes()),
        r matches Some(v) ==> v@ == hex_decode_spec(s.spec_bytes()),
{
    hex_decode_bytes(s.as_bytes())
}

/// Decodes the ASCII bytes of a hex string. Rejects odd lengths and
/// non-digits.
pub fn hex_decode_bytes(bytes: &[u8]) -> (r: Option<Vec<u8>>)
    ensures
        r is Some <==> is_hex_bytes(bytes@),
        r matches Some(v) ==> v@ == hex_decode_spec(bytes@),
{
    if bytes.len() % 2 != 0 {
        return None;
    }
    let pairs = bytes.len() / 2;
    let mut out: Vec<u8> = Vec::new();
    let mut i: usize = 0;
    while i < pairs
        invariant
            bytes@.len() <= usize::MAX,
            bytes@.len() % 2 == 0,
            pairs == bytes@.len() / 2,
            i <= pairs,
            out@.len() == i,
            forall|j: int| 0 <= j < 2 * i ==> is_hex_digit(#[trigger] bytes@[j]),
            forall|k: int| 0 <= k < i
                ==> #[trigger] out@[k] == (hex_val(bytes@[2 * k]) * 16 + hex_val(
                    bytes@[2 * k + 1],
                )) as u8,
        decreases pairs - i,
    {
        proof {
            assert(2 * i + 1 < bytes@.len());
        }
        let hi = match hex_val_exec(bytes[2 * i]) {
            Some(v) => v,
            None => { return None; },
        };
        let lo = match hex_val_exec(bytes[2 * i + 1]) {
            Some(v) => v,
            None => { return None; },
        };
        out.push(hi * 16 + lo);
        i = i + 1;
    }
    proof {
        assert(out@ =~= hex_decode_spec(bytes@));
    }
    Some(out)
}

/// Relies on std's String::from_utf8: bytes below 128 are ASCII, a subset of
/// UTF-8, and decode to the characters with the same code points.
#[verifier::external_body]
fn ascii_to_string(b: Vec<u8>) -> (r: String)
    requires
        forall|i: int| 0 <= i < b@.len() ==> b@[i] < 128,
    ensures
        r@ == ascii_chars_of(b@),
{
    String::from_utf8(b).unwrap_or_default()
}

/// Encodes bytes as a lowercase hex string.
pub fn hex_encode(b: &[u8]) -> (r: String)
    ensures
        r@ == ascii_chars_of(hex_encode_spec(b@)),
{
    let mut out: Vec<u8> = Vec::new();
    let mut i: usize = 0;
    while i < b.len()
        invariant
            i <= b@.len(),
            out@.len() == 2 * i,
            forall|j: int| 0 <= j < out@.len() ==> #[trigger] out@[j] == hex_encode_spec(b@)[j],
        decreases b@.len() - i,
    {
        let v = b[i];
        let hi = v / 16;
        let lo = v % 16;
        out.push(if hi < 10 { 48 + hi } else { 87 + hi });
        out.push(if lo < 10 { 48 + lo } else { 87 + lo });
        i = i + 1;
    }
    proof {
        assert(out@ =~= hex_encode_spec(b@));
        assert(forall|j: int| 0 <= j < out@.len() ==> #[trigger] out@[j] < 128);
    }
    ascii_to_string(out)
}

} // verus!
