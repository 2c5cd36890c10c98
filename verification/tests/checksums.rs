//! Checksums that users give, and how they are shown.

use mcumgr_toolkit::checksum::{ChecksumInput, Sha256, Sha256Error};
use mcumgr_toolkit::hexadecimal::{option_hex, parse_sha256, HexError};

const TEXT: &str = "ba7816bf8f01cfea414140de5dae2223b00361a396177a9cb410ff61f20015ad";

fn bytes() -> [u8; 32] {
    let mut out = [0; 32];
    hex::decode_to_slice(TEXT, &mut out).unwrap();
    out
}

#[test]
fn checksums_are_read_from_digits() {
    assert_eq!(parse_sha256(TEXT), Ok(bytes()));
    assert_eq!(parse_sha256(&TEXT.to_uppercase()), Ok(bytes()));
}

#[test]
fn written_checksums_are_read_back() {
    let data: [u8; 32] = std::array::from_fn(|i| (i * 37 + 5) as u8);
    let text = option_hex(&Some(data)).unwrap();
    assert_eq!(text, hex::encode(data));
    assert_eq!(parse_sha256(&text), Ok(data));
    assert_eq!(option_hex(&None), None);
}

#[test]
fn texts_that_are_no_checksums_are_rejected() {
    assert_eq!(parse_sha256(""), Err(HexError::InvalidStringLength));
    assert_eq!(parse_sha256("abc"), Err(HexError::OddLength));
    assert_eq!(
        parse_sha256(&TEXT[..62]),
        Err(HexError::InvalidStringLength)
    );
    let mut text = TEXT.to_string();
    text.replace_range(7..8, "g");
    assert_eq!(
        parse_sha256(&text),
        Err(HexError::InvalidHexCharacter { c: 'g', index: 7 })
    );
    text.replace_range(2..3, "x");
    assert_eq!(
        parse_sha256(&text),
        Err(HexError::InvalidHexCharacter { c: 'x', index: 2 })
    );
}

#[test]
fn checksums_are_extracted_from_bytes_and_texts() {
    assert_eq!(
        Sha256::extract(ChecksumInput::Bytes(&bytes())),
        Ok(Sha256(bytes()))
    );
    assert_eq!(
        Sha256::extract(ChecksumInput::Text(TEXT)),
        Ok(Sha256(bytes()))
    );
    assert_eq!(
        Sha256::extract(ChecksumInput::Bytes(&[0; 64])),
        Err(Sha256Error::WrongLength(64))
    );
    assert_eq!(
        Sha256::extract(ChecksumInput::Text("0")),
        Err(Sha256Error::InvalidHex(HexError::OddLength))
    );
    assert_eq!(
        Sha256::extract(ChecksumInput::Other),
        Err(Sha256Error::WrongType)
    );
}

#[test]
fn checksum_errors_are_described() {
    assert_eq!(
        Sha256Error::WrongLength(31).to_string(),
        "sha256 bytes must be length 32, got 31"
    );
    assert_eq!(
        Sha256Error::WrongType.to_string(),
        "sha256 must be a 64-char hex string or a 32-byte bytes object"
    );
    assert_eq!(
        Sha256Error::InvalidHex(HexError::OddLength).to_string(),
        "invalid sha256 hex string: Odd number of digits"
    );
    assert_eq!(
        Sha256Error::InvalidHex(HexError::InvalidStringLength).to_string(),
        "invalid sha256 hex string: Invalid string length"
    );
    assert_eq!(
        Sha256Error::InvalidHex(HexError::InvalidHexCharacter { c: '\'', index: 10 }).to_string(),
        "invalid sha256 hex string: Invalid character '\\'' at position 10"
    );
}
