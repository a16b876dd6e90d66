//! Token quantities in the network's base denomination.

use vstd::prelude::*;
use vstd::utf8::is_ascii_chars;

verus! {

/// Longest amount text that is handed to the parser. A text this short
/// holds at most 59 digits, or 58 after a sign, so scaling it by up to
/// eighteen decimal places stays below 10^77, which is less than 2^256, and
/// below 10^76, which is less than 2^255, where it is signed.
pub const MAX_AMOUNT_TEXT: usize = 59;

/// The number that four 64-bit limbs denote, least significant limb first.
pub open spec fn limbs_value(limbs: Seq<u64>) -> nat
    recommends
        limbs.len() == 4,
{
    (limbs[0] + 0x1_0000_0000_0000_0000 * limbs[1]
        + 0x1_0000_0000_0000_0000_0000_0000_0000_0000 * limbs[2]
        + 0x1_0000_0000_0000_0000_0000_0000_0000_0000_0000_0000_0000_0000 * limbs[3]) as nat
}

/// What the decimal parser hands back: a quantity of base units, read either
/// as an unsigned 256-bit number or, where the text began with a minus sign,
/// as a two's-complement one.
#[derive(Clone, Copy, Debug, PartialEq, Eq)]
pub enum ParsedUnits {
    Unsigned { limbs: [u64; 4] },
    Signed { raw: [u64; 4] },
}

impl ParsedUnits {
    /// The integer that the parsed quantity stands for.
    pub open spec fn value(self) -> int {
        match self {
            ParsedUnits::Unsigned { limbs } => limbs_value(limbs@) as int,
            ParsedUnits::Signed { raw } => if raw[3] >= 0x8000_0000_0000_0000u64 {
                limbs_value(raw@)
                    - 0x1_0000_0000_0000_0000_0000_0000_0000_0000_0000_0000_0000_0000_0000_0000_0000_0000
            } else {
                limbs_value(raw@) as int
            },
        }
    }
}

/// A non-negative quantity of base units, below 2^256.
#[derive(Clone, Copy, Debug, PartialEq, Eq)]
pub struct TokenAmount {
    pub limbs: [u64; 4],
}

impl TokenAmount {
    /// The quantity as a number.
    pub open spec fn value(self) -> nat {
        limbs_value(self.limbs@)
    }

    /// The quantity zero.
    pub fn zero() -> (r: TokenAmount)
        ensures
            r.value() == 0,
    {
        TokenAmount { limbs: [0, 0, 0, 0] }
    }

    /// The quantity with the given limbs, least significant first.
    pub fn from_limbs(limbs: [u64; 4]) -> (r: TokenAmount)
        ensures
            r.limbs == limbs,
            r.value() == limbs_value(limbs@),
    {
        TokenAmount { limbs }
    }

    /// The limbs of the quantity, least significant first.
    pub fn to_limbs(&self) -> (r: [u64; 4])
        ensures
            r == self.limbs,
    {
        self.limbs
    }

    /// Whether the quantity is zero.
    pub fn is_zero(&self) -> (r: bool)
        ensures
            r == (self.value() == 0),
    {
        self.limbs[0] == 0 && self.limbs[1] == 0 && self.limbs[2] == 0 && self.limbs[3] == 0
    }

    /// Accepts a parsed quantity as an amount exactly when it is not negative.
    pub fn from_parsed(units: ParsedUnits) -> (r: Option<TokenAmount>)
        ensures
            r is Some <==> units.value() >= 0,
            r matches Some(amount) ==> amount.value() == units.value(),
    {
        match units {
            ParsedUnits::Unsigned { limbs } => Some(TokenAmount { limbs }),
            ParsedUnits::Signed { raw } => {
                if raw[3] >= 0x8000_0000_0000_0000u64 {
                    None
                } else {
                    Some(TokenAmount { limbs: raw })
                }
            },
        }
    }
}

/// The result of `ethers::utils::parse_units` for the unit `"ether"`, as a
/// function of the text: nothing where the parser reports an error.
pub uninterp spec fn ether_units_of(text: Seq<char>) -> Option<ParsedUnits>;

/// Calls `ethers::utils::parse_units(text, "ether")`.
///
/// Trusted: the result depends on the text alone. The call is kept to ASCII
/// texts of at most `MAX_AMOUNT_TEXT` characters: the parser cuts the text at
/// byte offsets and multiplies the digits by a power of ten with operators
/// that panic on overflow, and on such texts it does neither inside a
/// character nor beyond 256 bits.
#[verifier::external_body]
fn parse_ether_units(text: &str) -> (r: Option<ParsedUnits>)
    requires
        is_ascii_chars(text@),
        text@.len() <= MAX_AMOUNT_TEXT,
    ensures
        r == ether_units_of(text@),
{
    match ethers::utils::parse_units(text, "ether") {
        Ok(ethers::utils::ParseUnits::U256(n)) => Some(ParsedUnits::Unsigned { limbs: n.0 }),
        Ok(ethers::utils::ParseUnits::I256(n)) => Some(ParsedUnits::Signed { raw: n.into_raw().0 }),
        Err(_) => None,
    }
}

/// The amount that a text denotes: the text is ASCII, at most
/// `MAX_AMOUNT_TEXT` characters long, and parses to a quantity that is not
/// negative. Every other text denotes no amount.
pub open spec fn amount_of(text: Seq<char>) -> Option<nat> {
    if is_ascii_chars(text) && text.len() <= MAX_AMOUNT_TEXT {
        match ether_units_of(text) {
            Some(units) => if units.value() >= 0 {
                Some(units.value() as nat)
            } else {
                None
            },
            None => None,
        }
    } else {
        None
    }
}

/// Reads an amount given in the display denomination (whole tokens with up
/// to eighteen decimal places) as a quantity of base units.
pub fn parse_amount(text: &str) -> (r: Option<TokenAmount>)
    ensures
        r is Some <==> amount_of(text@) is Some,
        r matches Some(amount) ==> amount.value() == amount_of(text@)->0,
{
    if !text.is_ascii() {
        return None;
    }
    if text.unicode_len() > MAX_AMOUNT_TEXT {
        return None;
    }
    match parse_ether_units(text) {
        Some(units) => TokenAmount::from_parsed(units),
        None => None,
    }
}

} // verus!
