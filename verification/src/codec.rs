//! The wire format of a program: hexadecimal memory entries decoded to
//! bytes, and bytes paired into 16-bit instruction words, high byte first.
//! An entry that is not valid hex, or is empty, stands for the byte 0xFF;
//! a trailing unpaired byte is dropped.

use vstd::prelude::*;

use crate::semantics::word_of;

verus! {

/// The characters `from_hex` skips between digits.
pub open spec fn is_hex_blank(c: char) -> bool {
    c == ' ' || c == '\r' || c == '\n' || c == '\t'
}

/// A hexadecimal digit, upper or lower case.
pub open spec fn is_hex_digit(c: char) -> bool {
    ('0' <= c && c <= '9') || ('a' <= c && c <= 'f') || ('A' <= c && c <= 'F')
}

/// The value of one hexadecimal digit.
pub open spec fn hex_digit_val(c: char) -> u8
    recommends
        is_hex_digit(c),
{
    if '0' <= c && c <= '9' {
        (c as u8 - '0' as u8) as u8
    } else if 'a' <= c && c <= 'f' {
        (c as u8 - 'a' as u8 + 10) as u8
    } else if 'A' <= c && c <= 'F' {
        (c as u8 - 'A' as u8 + 10) as u8
    } else {
        0
    }
}

/// What decoding a hexadecimal string yields: with blanks set aside, the
/// digits are taken in pairs, most significant first.  A character that is
/// neither a digit nor a blank, or an odd number of digits, makes the
/// string invalid.
pub open spec fn hex_decoded(s: Seq<char>) -> Option<Seq<u8>> {
    let ds = s.filter(|c: char| !is_hex_blank(c));
    if ds.len() % 2 == 0 && (forall|i: int| 0 <= i < ds.len() ==> is_hex_digit(#[trigger] ds[i])) {
        Some(
            Seq::new(
                ds.len() / 2,
                |k: int| (hex_digit_val(ds[2 * k]) * 16 + hex_digit_val(ds[2 * k + 1])) as u8,
            ),
        )
    } else {
        None
    }
}

/// The byte one memory entry stands for: the first decoded byte of the
/// entry, or 0xFF when the entry is empty or not valid hex.
pub open spec fn spec_byte_from_hex(s: Seq<char>) -> u8 {
    match hex_decoded(s) {
        Some(bs) => if bs.len() > 0 {
            bs[0]
        } else {
            0xFF
        },
        None => 0xFF,
    }
}

/// Relies on `rustc_serialize::hex::FromHex` for `str`: hexadecimal digits
/// (either case) are taken in pairs, most significant first, into one byte
/// each; spaces, tabs, carriage returns and newlines anywhere between
/// digits are skipped; any other character, or an odd number of digits,
/// is an error.
#[verifier::external_body]
fn decode_hex(s: &str) -> (r: Option<Vec<u8>>)
    ensures
        r is Some <==> hex_decoded(s@) is Some,
        r is Some ==> r->Some_0@ == hex_decoded(s@)->Some_0,
{
    match rustc_serialize::hex::FromHex::from_hex(s) {
        Ok(v) => Some(v),
        Err(_) => None,
    }
}

/// Decode one memory entry: its first byte, or 0xFF when the entry is
/// empty or not valid hex.
pub fn byte_from_hex(s: &str) -> (r: u8)
    ensures
        r == spec_byte_from_hex(s@),
{
    match decode_hex(s) {
        Some(v) => {
            if v.len() > 0 {
                v[0]
            } else {
                0xFF
            }
        },
        None => 0xFF,
    }
}

/// Consecutive byte pairs combined into instruction words, high byte
/// first; a trailing unpaired byte is dropped.
pub open spec fn words_of_bytes(bs: Seq<u8>) -> Seq<u16> {
    Seq::new(bs.len() / 2, |k: int| word_of(bs[2 * k], bs[2 * k + 1]))
}

/// The byte each memory entry of a request stands for, in order.
pub open spec fn entry_bytes(entries: Seq<String>) -> Seq<u8> {
    Seq::new(entries.len(), |i: int| spec_byte_from_hex(entries[i]@))
}

/// Pair consecutive bytes into instruction words, high byte first,
/// dropping a trailing unpaired byte.
pub fn words_from_bytes(bytes: &[u8]) -> (r: Vec<u16>)
    ensures
        r@ == words_of_bytes(bytes@),
{
    let n = bytes.len() / 2;
    let mut r: Vec<u16> = Vec::new();
    let mut k: usize = 0;
    while k < n
        invariant
            n == bytes@.len() / 2,
            2 * n <= bytes@.len(),
            bytes@.len() <= usize::MAX,
            k <= n,
            r@.len() == k,
            forall|j: int| 0 <= j < k ==> r@[j] == word_of(bytes@[2 * j], bytes@[2 * j + 1]),
        decreases n - k,
    {
        let hi = bytes[2 * k];
        let lo = bytes[2 * k + 1];
        r.push(((hi as u16) << 8) | (lo as u16));
        k += 1;
    }
    proof {
        assert(r@ =~= words_of_bytes(bytes@));
    }
    r
}

/// Decode a whole program request: each entry gives one byte, and the
/// bytes are paired into instruction words, high byte first.
pub fn program_from_hex(entries: &Vec<String>) -> (r: Vec<u16>)
    ensures
        r@ == words_of_bytes(entry_bytes(entries@)),
{
    let mut bytes: Vec<u8> = Vec::new();
    let mut i: usize = 0;
    while i < entries.len()
        invariant
            i <= entries@.len(),
            bytes@.len() == i,
            forall|j: int| 0 <= j < i ==> bytes@[j] == spec_byte_from_hex(entries@[j]@),
        decreases entries@.len() - i,
    {
        let entry = &entries[i];
        bytes.push(byte_from_hex(entry.as_str()));
        i += 1;
    }
    proof {
        assert(bytes@ =~= entry_bytes(entries@));
    }
    words_from_bytes(bytes.as_slice())
}

} // verus!
