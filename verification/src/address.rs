//! Account addresses and their textual form.

use vstd::prelude::*;

verus! {

/// Number of bytes in an account address.
pub const ADDRESS_BYTES: usize = 20;

/// Number of hexadecimal digits in the textual form of an address.
pub const ADDRESS_DIGITS: usize = 40;

/// A 20-byte account address, most significant byte first.
#[derive(Clone, Copy, Debug, PartialEq, Eq)]
pub struct Address {
    pub bytes: [u8; 20],
}

impl View for Address {
    type V = Seq<u8>;

    open spec fn view(&self) -> Seq<u8> {
        self.bytes@
    }
}

/// Characters that the textual form tolerates anywhere between digits.
pub open spec fn is_blank(c: char) -> bool {
    c == ' ' || c == '\t' || c == '\n' || c == '\r'
}

/// The value of a hexadecimal digit, in either case.
pub open spec fn hex_value(c: char) -> Option<int> {
    let code = c as int;
    if 48 <= code <= 57 {
        Some(code - 48)
    } else if 65 <= code <= 70 {
        Some(code - 55)
    } else if 97 <= code <= 102 {
        Some(code - 87)
    } else {
        None
    }
}

/// The text without one leading `0x`, if it has one.
pub open spec fn without_prefix(text: Seq<char>) -> Seq<char> {
    if text.len() >= 2 && text[0] == '0' && text[1] == 'x' {
        text.skip(2)
    } else {
        text
    }
}

/// What is left of the text for its digits: the prefix and all blanks removed.
pub open spec fn address_digits(text: Seq<char>) -> Seq<char> {
    without_prefix(text).filter(|c: char| !is_blank(c))
}

/// A text is a syntactically valid address when, after an optional `0x` and
/// ignoring blanks, it consists of exactly 40 hexadecimal digits.
pub open spec fn is_address_text(text: Seq<char>) -> bool {
    let digits = address_digits(text);
    &&& digits.len() == ADDRESS_DIGITS
    &&& forall|i: int| 0 <= i < digits.len() ==> hex_value(#[trigger] digits[i]) is Some
}

/// The bytes that a valid address text denotes: each pair of digits is one
/// byte, the first pair the most significant.
pub open spec fn address_bytes(text: Seq<char>) -> Seq<u8> {
    let digits = address_digits(text);
    Seq::new(
        ADDRESS_BYTES as nat,
        |i: int| (16 * hex_value(digits[2 * i])->0 + hex_value(digits[2 * i + 1])->0) as u8,
    )
}

/// Calls `str::parse` for `ethers::types::Address`, the `FromStr` of `H160`.
///
/// Trusted: that parser strips one leading `0x`, then reads hexadecimal
/// digits pairwise into 20 bytes while skipping space, tab, line feed and
/// carriage return; it fails on any other character, on fewer than 40
/// digits, and on anything but blanks after the 40th digit.
#[verifier::external_body]
fn parse_h160(text: &str) -> (r: Option<[u8; 20]>)
    ensures
        r is Some <==> is_address_text(text@),
        r matches Some(bytes) ==> bytes@ == address_bytes(text@),
{
    match text.parse::<ethers::types::Address>() {
        Ok(parsed) => Some(parsed.0),
        Err(_) => None,
    }
}

impl Address {
    /// Reads an address from its textual form.
    pub fn parse(text: &str) -> (r: Option<Address>)
        ensures
            r is Some <==> is_address_text(text@),
            r matches Some(address) ==> address@ == address_bytes(text@),
    {
        match parse_h160(text) {
            Some(bytes) => Some(Address { bytes }),
            None => None,
        }
    }

    /// The address made of the given bytes.
    pub fn from_bytes(bytes: [u8; 20]) -> (r: Address)
        ensures
            r@ == bytes@,
    {
        Address { bytes }
    }

    /// The bytes of the address.
    pub fn to_bytes(&self) -> (r: [u8; 20])
        ensures
            r@ == self@,
    {
        self.bytes
    }
}

} // verus!
