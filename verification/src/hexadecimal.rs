//! Byte strings written as hexadecimal digits.

use crate::text::{digit, hex_digits};
use vstd::prelude::*;
use vstd::utf8::*;

verus! {

/// The bytes written with two lower-case digits each.
pub open spec fn hex_text(data: Seq<u8>) -> Seq<char>
    decreases data.len(),
{
    if data.len() == 0 {
        Seq::empty()
    } else {
        hex_text(data.drop_last()) + hex_digits(data.last() as nat, 2)
    }
}

/// Trusted: `hex::encode` writes every byte with two lower-case hexadecimal digits, the more
/// significant digit first.
#[verifier::external_body]
pub(crate) fn encode_hex(data: &[u8]) -> (s: String)
    ensures
        s@ == hex_text(data@),
{
    hex::encode(data)
}

/// Why a text does not stand for bytes.
#[derive(Clone, Copy, Debug, PartialEq, Eq, Structural)]
pub enum HexError {
    /// A character is not a hexadecimal digit
    InvalidHexCharacter {
        /// The byte at that position
        c: char,
        /// The position in bytes
        index: usize,
    },
    /// The text has an odd length
    OddLength,
    /// The text does not have the expected length
    InvalidStringLength,
}

/// The value of an upper- or lower-case hexadecimal digit.
pub open spec fn digit_value(c: u8) -> Option<nat> {
    if 0x30 <= c <= 0x39 {
        Some((c - 0x30) as nat)
    } else if 0x41 <= c <= 0x46 {
        Some((c - 0x41 + 10) as nat)
    } else if 0x61 <= c <= 0x66 {
        Some((c - 0x61 + 10) as nat)
    } else {
        None
    }
}

/// The first byte that is no hexadecimal digit stands at `index`.
pub open spec fn first_invalid_at(text: Seq<u8>, index: int) -> bool {
    &&& 0 <= index < text.len()
    &&& digit_value(text[index]) is None
    &&& forall|i: int| 0 <= i < index ==> digit_value(#[trigger] text[i]) is Some
}

/// The 32 bytes that a text stands for, or the first reason why it does not stand for any.
pub open spec fn parsed_sha256(text: Seq<char>) -> Result<Seq<u8>, HexError> {
    let bytes = encode_utf8(text);
    if bytes.len() % 2 != 0 {
        Err(HexError::OddLength)
    } else if bytes.len() != 64 {
        Err(HexError::InvalidStringLength)
    } else if exists|i: int| first_invalid_at(bytes, i) {
        let i = choose|i: int| first_invalid_at(bytes, i);
        Err(HexError::InvalidHexCharacter { c: bytes[i] as char, index: i as usize })
    } else {
        Ok(
            Seq::new(
                32,
                |i: int|
                    (digit_value(bytes[2 * i])->0 * 16 + digit_value(bytes[2 * i + 1])->0) as u8,
            ),
        )
    }
}

/// Trusted: `hex::decode_to_slice` decodes the UTF-8 bytes of a text of exactly twice as many
/// digits as `out` is long. It reports an odd length before any other wrong length, and a wrong
/// length before the first byte that is no digit, which it reports with that byte read as a
/// character and with its position. What `out` holds after a failure is left open.
#[verifier::external_body]
fn decode_hex(text: &str, out: &mut [u8; 32]) -> (r: Result<(), HexError>)
    ensures
        match r {
            Ok(()) => parsed_sha256(text@) == Ok::<Seq<u8>, HexError>(final(out)@),
            Err(e) => parsed_sha256(text@) == Err::<Seq<u8>, HexError>(e),
        },
{
    hex::decode_to_slice(text, out).map_err(
        |e|
            match e {
                hex::FromHexError::InvalidHexCharacter { c, index } => {
                    HexError::InvalidHexCharacter { c, index }
                },
                hex::FromHexError::OddLength => HexError::OddLength,
                hex::FromHexError::InvalidStringLength => HexError::InvalidStringLength,
            },
    )
}

/// Reads a SHA-256 checksum from hexadecimal digits.
pub fn parse_sha256(s: &str) -> (r: Result<[u8; 32], HexError>)
    ensures
        match r {
            Ok(data) => parsed_sha256(s@) == Ok::<Seq<u8>, HexError>(data@),
            Err(e) => parsed_sha256(s@) == Err::<Seq<u8>, HexError>(e),
        },
{
    let mut data = [0u8; 32];
    match decode_hex(s, &mut data) {
        Ok(()) => Ok(data),
        Err(e) => Err(e),
    }
}

/// Writes an optional hash as hexadecimal digits.
pub fn option_hex(data: &Option<[u8; 32]>) -> (r: Option<String>)
    ensures
        match *data {
            Some(data) => r matches Some(s) && s@ == hex_text(data@),
            None => r is None,
        },
{
    match data {
        Some(data) => Some(encode_hex(data)),
        None => None,
    }
}

proof fn lemma_digit_value(d: nat)
    requires
        d < 16,
    ensures
        '\0' <= digit(d) <= '\u{7f}',
        digit_value(digit(d) as u8) == Some(d),
{
}

/// Every byte is written as its two digits, one byte after the other.
pub proof fn lemma_hex_text(data: Seq<u8>)
    ensures
        hex_text(data).len() == 2 * data.len(),
        forall|i: int|
            0 <= i < data.len() ==> hex_text(data)[2 * i] == digit(#[trigger] data[i] as nat / 16)
                && hex_text(data)[2 * i + 1] == digit(data[i] as nat % 16),
    decreases data.len(),
{
    if data.len() > 0 {
        lemma_hex_text(data.drop_last());
        let last = data.last() as nat;
        assert(hex_digits(last, 2) =~= seq![digit(last / 16), digit(last % 16)]) by {
            reveal_with_fuel(hex_digits, 3);
        }
        assert forall|i: int| 0 <= i < data.len() implies hex_text(data)[2 * i] == digit(
            #[trigger] data[i] as nat / 16,
        ) && hex_text(data)[2 * i + 1] == digit(data[i] as nat % 16) by {
            if i < data.len() - 1 {
                assert(data.drop_last()[i] == data[i]);
            }
        }
    }
}

/// A checksum that was written as hexadecimal digits is read back unchanged.
pub proof fn law_sha256_round_trip(data: Seq<u8>)
    requires
        data.len() == 32,
    ensures
        parsed_sha256(hex_text(data)) == Ok::<Seq<u8>, HexError>(data),
{
    let text = hex_text(data);
    let bytes = encode_utf8(text);
    lemma_hex_text(data);
    assert forall|j: int| 0 <= j < 64 implies {
        &&& '\0' <= #[trigger] text[j] <= '\u{7f}'
        &&& digit_value(text[j] as u8) == Some(
            if j % 2 == 0 {
                data[j / 2] as nat / 16
            } else {
                data[j / 2] as nat % 16
            },
        )
    } by {
        let i = j / 2;
        assert(data[i] as nat / 16 < 16);
        lemma_digit_value(data[i] as nat / 16);
        lemma_digit_value(data[i] as nat % 16);
        assert(j == 2 * i || j == 2 * i + 1);
    }
    is_ascii_chars_encode_utf8(text);
    assert forall|i: int| !first_invalid_at(bytes, i) by {
        if 0 <= i < 64 {
            assert(text[i] as u8 == bytes[i]);
        }
    }
    let result = parsed_sha256(text)->Ok_0;
    assert forall|i: int| 0 <= i < 32 implies result[i] == data[i] by {
        assert(text[2 * i] as u8 == bytes[2 * i]);
        assert(text[2 * i + 1] as u8 == bytes[2 * i + 1]);
        assert((2 * i) / 2 == i && (2 * i + 1) / 2 == i);
    }
    assert(result =~= data);
}

/// The byte is one of the ASCII characters `0` to `9`, `A` to `F` and `a` to `f`.
pub open spec fn is_hex_character(c: u8) -> bool {
    '0' as int <= c <= '9' as int || 'A' as int <= c <= 'F' as int || 'a' as int <= c <= 'f' as int
}

/// The value of one of these characters.
pub open spec fn nibble(c: u8) -> int {
    if c <= '9' as int {
        c - '0' as int
    } else if c <= 'F' as int {
        c - 'A' as int + 10
    } else {
        c - 'a' as int + 10
    }
}

/// Exactly the texts of 64 hexadecimal digits stand for a checksum, in upper or lower case. Every
/// byte takes two of them, the more significant digit first. Otherwise the error says what is
/// wrong: an odd length, another wrong length, or the first character that is no digit.
pub proof fn law_checksum_is_parsed(s: &str, r: Result<[u8; 32], HexError>)
    requires
        call_ensures(parse_sha256, (s,), r),
    ensures
        ({
            let bytes = encode_utf8(s@);
            &&& r is Ok <==> bytes.len() == 64 && forall|i: int|
                0 <= i < 64 ==> is_hex_character(#[trigger] bytes[i])
            &&& r matches Ok(data) ==> forall|i: int|
                0 <= i < 32 ==> #[trigger] data@[i] == 16 * nibble(bytes[2 * i]) + nibble(
                    bytes[2 * i + 1],
                )
            &&& r == Err::<[u8; 32], HexError>(HexError::OddLength) <==> bytes.len() % 2 == 1
            &&& r == Err::<[u8; 32], HexError>(HexError::InvalidStringLength) <==> bytes.len() % 2
                == 0 && bytes.len() != 64
            &&& r matches Err(HexError::InvalidHexCharacter { c, index }) ==> {
                &&& index < 64
                &&& c as int == bytes[index as int]
                &&& !is_hex_character(bytes[index as int])
                &&& forall|i: int| 0 <= i < index ==> is_hex_character(#[trigger] bytes[i])
            }
        }),
{
    let bytes = encode_utf8(s@);
    assert forall|i: int| 0 <= i < bytes.len() implies (digit_value(#[trigger] bytes[i]) is Some
        <==> is_hex_character(bytes[i])) by {}
    if bytes.len() == 64 {
        if exists|i: int| first_invalid_at(bytes, i) {
            let i = choose|i: int| first_invalid_at(bytes, i);
            assert(!is_hex_character(bytes[i]));
        } else {
            assert forall|i: int| 0 <= i < 64 implies is_hex_character(#[trigger] bytes[i]) by {
                lemma_no_invalid(bytes, i + 1);
            }
        }
    }
}

proof fn lemma_no_invalid(text: Seq<u8>, n: int)
    requires
        forall|i: int| !first_invalid_at(text, i),
        0 <= n <= text.len(),
    ensures
        forall|i: int| 0 <= i < n ==> digit_value(#[trigger] text[i]) is Some,
    decreases n,
{
    if n > 0 {
        lemma_no_invalid(text, n - 1);
        assert(!first_invalid_at(text, n - 1));
    }
}

/// A hash that is written as digits is read back unchanged, and nothing is written if there is
/// none.
pub proof fn law_written_hash_is_read_back(
    hash: Option<[u8; 32]>,
    written: Option<String>,
    text: &str,
    r: Result<[u8; 32], HexError>,
)
    requires
        call_ensures(option_hex, (&hash,), written),
        written matches Some(s) ==> s@ == text@,
        call_ensures(parse_sha256, (text,), r),
    ensures
        hash is None <==> written is None,
        hash is Some ==> r is Ok && r->Ok_0@ == hash->0@,
{
    if hash is Some {
        law_sha256_round_trip(hash->0@);
    }
}

} // verus!
