//! Service identifiers written as hyphenated hexadecimal text.

use vstd::prelude::*;
use vstd::string::StringSliceAdditionalSpecFns;
use crate::bytes::{be16, be32, u16_from_be, u32_from_be};

verus! {

/// A 128-bit identifier in the four fields of a GUID.
#[derive(Debug, Clone, Copy, PartialEq, Eq)]
pub struct Guid {
    pub data1: u32,
    pub data2: u16,
    pub data3: u16,
    pub data4: [u8; 8],
}

/// A GUID as a mathematical value.
pub struct GuidView {
    pub data1: u32,
    pub data2: u16,
    pub data3: u16,
    pub data4: Seq<u8>,
}

impl View for Guid {
    type V = GuidView;

    open spec fn view(&self) -> GuidView {
        GuidView { data1: self.data1, data2: self.data2, data3: self.data3, data4: self.data4@ }
    }
}

/// Why a text is not an identifier.
#[derive(Debug, Clone, Copy, PartialEq, Eq, Structural)]
pub enum GuidParseError {
    /// A character is neither a hexadecimal digit nor a hyphen.
    InvalidHex,
    /// A group between hyphens has an odd number of digits.
    OddGroup,
    /// The text holds more than sixteen bytes.
    TooLong,
}

/// The byte of the hyphen that separates groups of digits.
pub const HYPHEN: u8 = 0x2d;

/// Number of bytes of an identifier.
pub const GUID_LEN: usize = 16;

/// The value of a hexadecimal digit given as its ASCII byte.
pub open spec fn hex_value(digit: u8) -> Option<u8> {
    if 0x30 <= digit <= 0x39 {
        Some((digit - 0x30) as u8)
    } else if 0x61 <= digit <= 0x66 {
        Some((digit - 0x61 + 10) as u8)
    } else if 0x41 <= digit <= 0x46 {
        Some((digit - 0x41 + 10) as u8)
    } else {
        None
    }
}

/// What has been read of an identifier: the bytes that are complete, and
/// the first digit of a byte whose second digit is still to come.
pub struct GuidScan {
    pub bytes: Seq<u8>,
    pub high: Option<u8>,
}

/// Reading one more character: a hyphen may only follow a complete byte, a
/// digit opens or completes a byte, and a seventeenth byte is too many.
pub open spec fn guid_step(scan: GuidScan, character: u8) -> Result<GuidScan, GuidParseError> {
    if character == HYPHEN {
        if scan.high is Some {
            Err(GuidParseError::OddGroup)
        } else {
            Ok(scan)
        }
    } else {
        match hex_value(character) {
            None => Err(GuidParseError::InvalidHex),
            Some(value) => match scan.high {
                None => Ok(GuidScan { bytes: scan.bytes, high: Some(value) }),
                Some(high) => if scan.bytes.len() >= GUID_LEN {
                    Err(GuidParseError::TooLong)
                } else {
                    Ok(GuidScan { bytes: scan.bytes.push((high * 16 + value) as u8), high: None })
                },
            },
        }
    }
}

/// Reading a text from its first character; the first character that cannot
/// be read decides the error.
pub open spec fn guid_scan(text: Seq<u8>) -> Result<GuidScan, GuidParseError>
    decreases text.len(),
{
    if text.len() == 0 {
        Ok(GuidScan { bytes: Seq::empty(), high: None })
    } else {
        match guid_scan(text.drop_last()) {
            Err(e) => Err(e),
            Ok(scan) => guid_step(scan, text.last()),
        }
    }
}

/// The byte at `index`, or zero behind the end.
pub open spec fn byte_or_zero(bytes: Seq<u8>, index: int) -> u8 {
    if 0 <= index < bytes.len() {
        bytes[index]
    } else {
        0
    }
}

/// The identifier made of up to sixteen bytes, the missing ones taken as
/// zero: the first three fields are big-endian numbers, the fourth is the
/// last eight bytes.
pub open spec fn guid_of_bytes(bytes: Seq<u8>) -> GuidView {
    GuidView {
        data1: be32(
            byte_or_zero(bytes, 0),
            byte_or_zero(bytes, 1),
            byte_or_zero(bytes, 2),
            byte_or_zero(bytes, 3),
        ) as u32,
        data2: be16(byte_or_zero(bytes, 4), byte_or_zero(bytes, 5)) as u16,
        data3: be16(byte_or_zero(bytes, 6), byte_or_zero(bytes, 7)) as u16,
        data4: Seq::new(8, |i: int| byte_or_zero(bytes, 8 + i)),
    }
}

/// The identifier that a text holds, given as the bytes of the text: pairs
/// of hexadecimal digits in groups separated by hyphens, sixteen bytes at
/// most.
pub open spec fn parse_guid(text: Seq<u8>) -> Result<GuidView, GuidParseError> {
    match guid_scan(text) {
        Err(e) => Err(e),
        Ok(scan) => if scan.high is Some {
            Err(GuidParseError::OddGroup)
        } else {
            Ok(guid_of_bytes(scan.bytes))
        },
    }
}

/// The view of a parsed identifier.
pub open spec fn guid_result_view(result: Result<Guid, GuidParseError>) -> Result<
    GuidView,
    GuidParseError,
> {
    match result {
        Ok(guid) => Ok(guid@),
        Err(e) => Err(e),
    }
}

/// A character that cannot be read makes every longer text fail with the
/// same error.
proof fn lemma_guid_scan_error(text: Seq<u8>, failed: int, end: int)
    requires
        0 <= failed <= end <= text.len(),
        guid_scan(text.take(failed)) is Err,
    ensures
        guid_scan(text.take(end)) == guid_scan(text.take(failed)),
    decreases end - failed,
{
    if failed < end {
        lemma_guid_scan_error(text, failed, end - 1);
        assert(text.take(end).drop_last() =~= text.take(end - 1));
    }
}

/// The value of a hexadecimal digit.
fn hex_digit_value(digit: u8) -> (value: Option<u8>)
    ensures
        value == hex_value(digit),
        value matches Some(v) ==> v < 16,
{
    if 0x30 <= digit && digit <= 0x39 {
        Some(digit - 0x30)
    } else if 0x61 <= digit && digit <= 0x66 {
        Some(digit - 0x61 + 10)
    } else if 0x41 <= digit && digit <= 0x46 {
        Some(digit - 0x41 + 10)
    } else {
        None
    }
}

/// The byte at `index`, or zero behind the end.
fn get_or_zero(bytes: &Vec<u8>, index: usize) -> (byte: u8)
    ensures
        byte == byte_or_zero(bytes@, index as int),
{
    if index < bytes.len() {
        bytes[index]
    } else {
        0
    }
}

/// Parsing identifiers from text.
pub trait GuidExtension: Sized {
    /// The value that a parse result stands for.
    spec fn parsed(result: Result<Self, GuidParseError>) -> Result<GuidView, GuidParseError>;

    /// Reads an identifier from hyphenated hexadecimal text.
    fn parse(s: &str) -> (result: Result<Self, GuidParseError>)
        ensures
            Self::parsed(result) == parse_guid(s.spec_bytes()),
    ;
}

impl GuidExtension for Guid {
    open spec fn parsed(result: Result<Guid, GuidParseError>) -> Result<GuidView, GuidParseError> {
        guid_result_view(result)
    }

    fn parse(s: &str) -> (result: Result<Guid, GuidParseError>) {
        let text = s.as_bytes();
        let mut bytes: Vec<u8> = Vec::new();
        let mut high: Option<u8> = None;
        let mut i: usize = 0;
        assert(text@.take(0) =~= Seq::<u8>::empty());
        while i < text.len()
            invariant
                i <= text.len(),
                text@ == s.spec_bytes(),
                bytes@.len() <= GUID_LEN,
                high matches Some(h) ==> h < 16,
                guid_scan(text@.take(i as int)) == Ok::<GuidScan, GuidParseError>(
                    GuidScan { bytes: bytes@, high },
                ),
            decreases text.len() - i,
        {
            let character = text[i];
            proof {
                assert(text@.take(i + 1).drop_last() =~= text@.take(i as int));
                assert(text@.take(i + 1).last() == character);
                assert(text@.take(text@.len() as int) =~= text@);
            }
            if character == HYPHEN {
                if high.is_some() {
                    proof {
                        lemma_guid_scan_error(text@, i + 1, text@.len() as int);
                    }
                    return Err(GuidParseError::OddGroup);
                }
            } else {
                match hex_digit_value(character) {
                    None => {
                        proof {
                            lemma_guid_scan_error(text@, i + 1, text@.len() as int);
                        }
                        return Err(GuidParseError::InvalidHex);
                    },
                    Some(value) => match high {
                        None => {
                            high = Some(value);
                        },
                        Some(first) => {
                            if bytes.len() >= GUID_LEN {
                                proof {
                                    lemma_guid_scan_error(text@, i + 1, text@.len() as int);
                                }
                                return Err(GuidParseError::TooLong);
                            }
                            bytes.push(first * 16 + value);
                            high = None;
                        },
                    },
                }
            }
            i += 1;
        }
        assert(text@.take(i as int) =~= text@);
        if high.is_some() {
            return Err(GuidParseError::OddGroup);
        }
        let guid = Guid {
            data1: u32_from_be(
                get_or_zero(&bytes, 0),
                get_or_zero(&bytes, 1),
                get_or_zero(&bytes, 2),
                get_or_zero(&bytes, 3),
            ),
            data2: u16_from_be(get_or_zero(&bytes, 4), get_or_zero(&bytes, 5)),
            data3: u16_from_be(get_or_zero(&bytes, 6), get_or_zero(&bytes, 7)),
            data4: [
                get_or_zero(&bytes, 8),
                get_or_zero(&bytes, 9),
                get_or_zero(&bytes, 10),
                get_or_zero(&bytes, 11),
                get_or_zero(&bytes, 12),
                get_or_zero(&bytes, 13),
                get_or_zero(&bytes, 14),
                get_or_zero(&bytes, 15),
            ],
        };
        assert(guid@.data4 =~= guid_of_bytes(bytes@).data4);
        Ok(guid)
    }
}

} // verus!
