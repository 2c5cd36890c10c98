//! SHA-256 checksums.

use crate::hexadecimal::{parse_sha256, parsed_sha256, HexError};
use crate::text::{decimal, push_decimal};
use vstd::prelude::*;
use vstd::string::*;

verus! {

/// The SHA-256 checksum of some data.
pub uninterp spec fn sha256_digest(data: Seq<u8>) -> Seq<u8>;

/// Trusted: `sha2::Sha256::digest` computes a checksum that depends on nothing but the data,
/// here named [`sha256_digest`].
#[verifier::external_body]
pub(crate) fn sha256(data: &[u8]) -> (checksum: [u8; 32])
    ensures
        checksum@ == sha256_digest(data@),
{
    <sha2::Sha256 as sha2::Digest>::digest(data).into()
}

/// A checksum given by a user.
#[derive(Clone, Copy, Debug, PartialEq, Eq)]
pub struct Sha256(pub [u8; 32]);

/// What a user can give as a checksum.
#[derive(Clone, Copy, Debug)]
pub enum ChecksumInput<'a> {
    /// The raw bytes
    Bytes(&'a [u8]),
    /// The hexadecimal digits
    Text(&'a str),
    /// Anything else
    Other,
}

/// Why something is not a checksum.
#[derive(Clone, Copy, Debug, PartialEq, Eq, Structural)]
pub enum Sha256Error {
    /// The number of bytes is wrong
    WrongLength(usize),
    /// The text does not consist of the right number of hexadecimal digits
    InvalidHex(HexError),
    /// It is neither bytes nor a text
    WrongType,
}

impl Sha256 {
    /// Reads a checksum from what a user gave.
    pub fn extract(input: ChecksumInput<'_>) -> (r: Result<Sha256, Sha256Error>)
        ensures
            match input {
                ChecksumInput::Bytes(bytes) => if bytes@.len() == 32 {
                    r matches Ok(sha) && sha.0@ == bytes@
                } else {
                    r == Err::<Sha256, Sha256Error>(
                        Sha256Error::WrongLength(bytes@.len() as usize),
                    )
                },
                ChecksumInput::Text(text) => match parsed_sha256(text@) {
                    Ok(bytes) => r matches Ok(sha) && sha.0@ == bytes,
                    Err(err) => r == Err::<Sha256, Sha256Error>(Sha256Error::InvalidHex(err)),
                },
                ChecksumInput::Other => r == Err::<Sha256, Sha256Error>(Sha256Error::WrongType),
            },
    {
        match input {
            ChecksumInput::Bytes(bytes) => {
                if bytes.len() != 32 {
                    return Err(Sha256Error::WrongLength(bytes.len()));
                }
                let mut out = [0u8; 32];
                let mut i: usize = 0;
                while i < 32
                    invariant
                        i <= 32,
                        bytes@.len() == 32,
                        out@.len() == 32,
                        forall|j: int| 0 <= j < i ==> out@[j] == bytes@[j],
                    decreases 32 - i,
                {
                    out[i] = bytes[i];
                    i += 1;
                }
                assert(out@ =~= bytes@);
                Ok(Sha256(out))
            },
            ChecksumInput::Text(text) => match parse_sha256(text) {
                Ok(out) => Ok(Sha256(out)),
                Err(err) => Err(Sha256Error::InvalidHex(err)),
            },
            ChecksumInput::Other => Err(Sha256Error::WrongType),
        }
    }
}

/// A character between quotes, with escapes where they are needed.
pub uninterp spec fn char_debug(c: char) -> Seq<char>;

/// Trusted: the `Display` implementation of `hex::FromHexError` describes each error with a
/// fixed text. It writes an invalid character as its `Debug` implementation does, here named
/// [`char_debug`], and its position in decimal.
#[verifier::external_body]
fn hex_error_text(err: HexError) -> (s: String)
    ensures
        s@ == match err {
            HexError::InvalidHexCharacter { c, index } => "Invalid character "@ + char_debug(c)
                + " at position "@ + decimal(index as nat),
            HexError::OddLength => "Odd number of digits"@,
            HexError::InvalidStringLength => "Invalid string length"@,
        },
{
    match err {
        HexError::InvalidHexCharacter { c, index } => {
            hex::FromHexError::InvalidHexCharacter { c, index }.to_string()
        },
        HexError::OddLength => hex::FromHexError::OddLength.to_string(),
        HexError::InvalidStringLength => hex::FromHexError::InvalidStringLength.to_string(),
    }
}

impl Sha256Error {
    /// Describes the error.
    pub fn to_string(&self) -> (s: String)
        ensures
            s@ == match *self {
                Sha256Error::WrongLength(n) => "sha256 bytes must be length 32, got "@ + decimal(
                    n as nat,
                ),
                Sha256Error::InvalidHex(err) => "invalid sha256 hex string: "@ + match err {
                    HexError::InvalidHexCharacter { c, index } => "Invalid character "@
                        + char_debug(c) + " at position "@ + decimal(index as nat),
                    HexError::OddLength => "Odd number of digits"@,
                    HexError::InvalidStringLength => "Invalid string length"@,
                },
                Sha256Error::WrongType => {
                    "sha256 must be a 64-char hex string or a 32-byte bytes object"@
                },
            },
    {
        let mut s = String::new();
        match self {
            Sha256Error::WrongLength(n) => {
                s.append("sha256 bytes must be length 32, got ");
                push_decimal(&mut s, *n as u64);
                assert(s@ =~= "sha256 bytes must be length 32, got "@ + decimal(*n as nat));
            },
            Sha256Error::InvalidHex(err) => {
                let text = hex_error_text(*err);
                s.append("invalid sha256 hex string: ");
                s.append(text.as_str());
                assert(s@ =~= "invalid sha256 hex string: "@ + text@);
            },
            Sha256Error::WrongType => {
                s.append("sha256 must be a 64-char hex string or a 32-byte bytes object");
                assert(s@ =~= "sha256 must be a 64-char hex string or a 32-byte bytes object"@);
            },
        }
        s
    }
}

/// A checksum is taken from exactly 32 bytes, which are kept as they are, or from a text that can
/// be parsed as one.
pub proof fn law_checksum_is_extracted(
    input: ChecksumInput<'_>,
    r: Result<Sha256, Sha256Error>,
    parsed: Result<[u8; 32], HexError>,
)
    requires
        call_ensures(Sha256::extract, (input,), r),
        input matches ChecksumInput::Text(text) ==> call_ensures(parse_sha256, (text,), parsed),
    ensures
        input matches ChecksumInput::Bytes(bytes) ==> {
            &&& r is Ok <==> bytes@.len() == 32
            &&& r matches Ok(sha) ==> sha.0@ == bytes@
            &&& r matches Err(err) ==> err == Sha256Error::WrongLength(bytes@.len() as usize)
        },
        input is Text ==> {
            &&& r is Ok <==> parsed is Ok
            &&& r matches Ok(sha) ==> sha.0@ == parsed->Ok_0@
            &&& r matches Err(err) ==> err == Sha256Error::InvalidHex(parsed->Err_0)
        },
        input is Other ==> r == Err::<Sha256, Sha256Error>(Sha256Error::WrongType),
{
}

/// Every error says what is wrong with a checksum.
pub proof fn law_checksum_error_is_described(err: Sha256Error, s: String)
    requires
        call_ensures(Sha256Error::to_string, (&err,), s),
    ensures
        err matches Sha256Error::WrongLength(n) ==> s@ == "sha256 bytes must be length 32, got "@
            + decimal(n as nat),
        err == Sha256Error::InvalidHex(HexError::OddLength) ==> s@
            == "invalid sha256 hex string: Odd number of digits"@,
        err == Sha256Error::InvalidHex(HexError::InvalidStringLength) ==> s@
            == "invalid sha256 hex string: Invalid string length"@,
        err matches Sha256Error::InvalidHex(HexError::InvalidHexCharacter { c, index }) ==> s@
            == "invalid sha256 hex string: Invalid character "@ + char_debug(c) + " at position "@
            + decimal(index as nat),
        err == Sha256Error::WrongType ==> s@
            == "sha256 must be a 64-char hex string or a 32-byte bytes object"@,
{
    reveal_strlit("invalid sha256 hex string: ");
    reveal_strlit("Odd number of digits");
    reveal_strlit("invalid sha256 hex string: Odd number of digits");
    reveal_strlit("Invalid string length");
    reveal_strlit("invalid sha256 hex string: Invalid string length");
    reveal_strlit("Invalid character ");
    reveal_strlit("invalid sha256 hex string: Invalid character ");
    assert("invalid sha256 hex string: "@ + "Odd number of digits"@
        =~= "invalid sha256 hex string: Odd number of digits"@);
    assert("invalid sha256 hex string: "@ + "Invalid string length"@
        =~= "invalid sha256 hex string: Invalid string length"@);
    assert("invalid sha256 hex string: "@ + "Invalid character "@
        =~= "invalid sha256 hex string: Invalid character "@);
    if let Sha256Error::InvalidHex(HexError::InvalidHexCharacter { c, index }) = err {
        assert(s@ =~= "invalid sha256 hex string: Invalid character "@ + char_debug(c)
            + " at position "@ + decimal(index as nat));
    }
}

} // verus!
