//! Content addresses: 32 bytes, written as 64 hexadecimal digits.

use vstd::prelude::*;
use vstd::string::StringSliceAdditionalSpecFns;
use vstd::utf8::encode_utf8;
use vstd::utf8::encode_utf8_valid_utf8;
use vstd::utf8::is_char_boundary;
use crate::reassembly::bytes_view;

verus! {

/// The number of bytes of a content address.
pub const XORNAME_LEN: usize = 32;

/// The byte is an ASCII hexadecimal digit, in either case.
pub open spec fn is_hex_byte(b: u8) -> bool {
    (0x30 <= b <= 0x39) || (0x41 <= b <= 0x46) || (0x61 <= b <= 0x66)
}

/// The value of a hexadecimal digit.
pub open spec fn hex_value(b: u8) -> int {
    if 0x30 <= b <= 0x39 {
        b - 0x30
    } else if 0x41 <= b <= 0x46 {
        b - 0x41 + 10
    } else {
        b - 0x61 + 10
    }
}

/// Every byte is a hexadecimal digit.
pub open spec fn all_hex(text: Seq<u8>) -> bool {
    forall|i: int| 0 <= i < text.len() ==> is_hex_byte(#[trigger] text[i])
}

/// The bytes that a hexadecimal text stands for: two digits for each byte,
/// the high one first. `None` where the text has an odd length or holds
/// anything but hexadecimal digits.
pub open spec fn hex_decoded(text: Seq<u8>) -> Option<Seq<u8>> {
    if text.len() % 2 == 0 && all_hex(text) {
        Some(
            Seq::new(
                text.len() / 2,
                |i: int| (hex_value(text[2 * i]) * 16 + hex_value(text[2 * i + 1])) as u8,
            ),
        )
    } else {
        None
    }
}

/// The text is the hexadecimal form of a content address.
pub open spec fn is_xorname_text(text: Seq<u8>) -> bool {
    text.len() == 2 * XORNAME_LEN && all_hex(text)
}

/// Calls `hex::decode`. The contract states what that function does with
/// the text's bytes: it fails on an odd length and on any byte that is not a
/// hexadecimal digit, and otherwise turns each pair of digits into one byte.
#[verifier::external_body]
fn decode_hex(text: &str) -> (r: Option<Vec<u8>>)
    ensures
        bytes_view(r) == hex_decoded(text.spec_bytes()),
{
    match hex::decode(text) {
        Ok(bytes) => Some(bytes),
        Err(_) => None,
    }
}

/// Whether `input` is the hexadecimal form of a content address: exactly 64
/// hexadecimal digits.
pub fn is_valid_xorname(input: &str) -> (r: bool)
    ensures
        r == is_xorname_text(input.spec_bytes()),
{
    match decode_hex(input) {
        Some(decoded) => decoded.len() == XORNAME_LEN,
        None => false,
    }
}

/// Why a path does not name a file by its address.
#[derive(Clone, Copy, Debug, PartialEq, Eq, Structural)]
pub enum AddressError {
    /// The path is too short, or cannot be cut after the address.
    Malformed,
    /// The first 64 bytes are not the hexadecimal form of an address.
    InvalidXorname,
}

/// The path can be cut after its 64th and after its 66th byte.
pub open spec fn has_address_layout(path: Seq<u8>) -> bool {
    66 <= path.len() && is_char_boundary(path, 66) && is_char_boundary(path, 64)
}

/// Takes a path of the form `<64 hexadecimal digits>__<filename>` apart:
/// the address that the digits stand for, and the filename, which is
/// everything from the 66th byte on. The two bytes between them are not
/// looked at.
pub fn autonomi(path: &str) -> (r: Result<(Vec<u8>, String), AddressError>)
    ensures
        !has_address_layout(path.spec_bytes()) ==> r == Err::<(Vec<u8>, String), AddressError>(
            AddressError::Malformed,
        ),
        has_address_layout(path.spec_bytes()) && !all_hex(path.spec_bytes().subrange(0, 64)) ==> r
            == Err::<(Vec<u8>, String), AddressError>(AddressError::InvalidXorname),
        has_address_layout(path.spec_bytes()) && all_hex(path.spec_bytes().subrange(0, 64)) ==> (r
            matches Ok(pair) && Some(pair.0@) == hex_decoded(path.spec_bytes().subrange(0, 64))
            && pair.0@.len() == XORNAME_LEN && encode_utf8(pair.1@) == path.spec_bytes().subrange(
            66,
            path.spec_bytes().len() as int,
        )),
{
    proof {
        encode_utf8_valid_utf8(path@);
    }
    if !path.is_char_boundary(66) || !path.is_char_boundary(64) {
        return Err(AddressError::Malformed);
    }
    let filename = path.split_at(66).1;
    let address = path.split_at(64).0;
    assert(address.spec_bytes().len() == 64);
    match decode_hex(address) {
        Some(bytes) => Ok((bytes, filename.to_owned())),
        None => Err(AddressError::InvalidXorname),
    }
}

/// The pairs that a form-encoded text holds, as `serde_urlencoded` reads
/// them; `None` where it refuses the text.
pub uninterp spec fn form_pairs(text: Seq<char>) -> Option<Seq<(Seq<char>, Seq<char>)>>;

/// The texts of a list of pairs of strings.
pub open spec fn pairs_view(pairs: Option<Vec<(String, String)>>) -> Option<
    Seq<(Seq<char>, Seq<char>)>,
> {
    match pairs {
        Some(v) => Some(Seq::new(v@.len(), |i: int| (v@[i].0@, v@[i].1@))),
        None => None,
    }
}

/// Calls `serde_urlencoded::from_str` for a list of pairs of strings. The
/// contract claims only that the outcome is a function of the text.
#[verifier::external_body]
fn decode_form(text: &str) -> (r: Option<Vec<(String, String)>>)
    ensures
        pairs_view(r) == form_pairs(text@),
{
    match serde_urlencoded::from_str::<Vec<(String, String)>>(text) {
        Ok(pairs) => Some(pairs),
        Err(_) => None,
    }
}

/// Why a request path names no file.
#[derive(Clone, Copy, Debug, PartialEq, Eq, Structural)]
pub enum DataPathError {
    /// The path is not form-encoded.
    NotUrlencoded,
    /// The path holds no pair.
    Empty,
}

/// The file that the decoded pairs of a request path name: the key of the
/// first pair.
pub fn first_key(pairs: Option<Vec<(String, String)>>) -> (r: Result<String, DataPathError>)
    ensures
        match pairs_view(pairs) {
            None => r == Err::<String, DataPathError>(DataPathError::NotUrlencoded),
            Some(p) => if p.len() == 0 {
                r == Err::<String, DataPathError>(DataPathError::Empty)
            } else {
                r matches Ok(key) && key@ == p[0].0
            },
        },
{
    match pairs {
        None => Err(DataPathError::NotUrlencoded),
        Some(v) => {
            if v.len() == 0 {
                Err(DataPathError::Empty)
            } else {
                Ok(v[0].0.clone())
            }
        },
    }
}

/// The file that a form-encoded request path names: the key of its first
/// pair.
pub fn data_path(path: &str) -> (r: Result<String, DataPathError>)
    ensures
        match form_pairs(path@) {
            None => r == Err::<String, DataPathError>(DataPathError::NotUrlencoded),
            Some(p) => if p.len() == 0 {
                r == Err::<String, DataPathError>(DataPathError::Empty)
            } else {
                r matches Ok(key) && key@ == p[0].0
            },
        },
{
    first_key(decode_form(path))
}

} // verus!
