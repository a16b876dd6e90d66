//! Call data of the two escrow functions: a four-byte selector followed by
//! one 32-byte word per argument.

use crate::address::Address;
use vstd::arithmetic::div_mod::{lemma_mod_breakdown, lemma_small_mod};
use vstd::prelude::*;

verus! {

/// Number of bytes in an argument word.
pub const WORD_BYTES: usize = 32;

/// Selector of `fundEscrow(uint256,address)`.
pub const FUND_ESCROW_SELECTOR: [u8; 4] = [0x14, 0xe8, 0x82, 0x0f];

/// Selector of `releaseFundsToOperator(uint256)`.
pub const RELEASE_FUNDS_SELECTOR: [u8; 4] = [0xdb, 0xf4, 0x62, 0xa5];

/// The last `width` bytes of a number written in base 256, most significant
/// byte first.
pub open spec fn big_endian(value: nat, width: nat) -> Seq<u8>
    decreases width,
{
    if width == 0 {
        Seq::empty()
    } else {
        big_endian(value / 256, (width - 1) as nat).push((value % 256) as u8)
    }
}

/// The number that a sequence of bytes denotes in base 256, most significant
/// byte first.
pub open spec fn big_endian_value(bytes: Seq<u8>) -> nat
    decreases bytes.len(),
{
    if bytes.len() == 0 {
        0
    } else {
        256 * big_endian_value(bytes.drop_last()) + bytes.last() as nat
    }
}

/// The number of values that `width` bytes can tell apart.
pub open spec fn byte_range(width: nat) -> nat
    decreases width,
{
    if width == 0 {
        1
    } else {
        256 * byte_range((width - 1) as nat)
    }
}

/// The word that carries an unsigned integer argument.
pub open spec fn uint_word(value: nat) -> Seq<u8> {
    big_endian(value, WORD_BYTES as nat)
}

/// The word that carries an address argument: twelve zero bytes, then the
/// address.
pub open spec fn address_word(address: Seq<u8>) -> Seq<u8> {
    Seq::new(12, |i: int| 0u8) + address
}

/// Arguments of a call that funds the escrow of a job for a provider.
pub open spec fn fund_arguments(job_id: u64, provider: Seq<u8>) -> Seq<u8> {
    uint_word(job_id as nat) + address_word(provider)
}

/// Arguments of a call that releases the escrow of a job.
pub open spec fn release_arguments(job_id: u64) -> Seq<u8> {
    uint_word(job_id as nat)
}

/// Writing a number in `width` bytes and reading the bytes back gives the
/// number up to what `width` bytes can hold.
pub proof fn big_endian_round_trip(value: nat, width: nat)
    ensures
        big_endian(value, width).len() == width,
        byte_range(width) > 0,
        big_endian_value(big_endian(value, width)) == value % byte_range(width),
    decreases width,
{
    if width > 0 {
        let rest = big_endian(value / 256, (width - 1) as nat);
        big_endian_round_trip(value / 256, (width - 1) as nat);
        assert(big_endian(value, width).drop_last() == rest);
        lemma_mod_breakdown(value as int, 256, byte_range((width - 1) as nat) as int);
    }
}

/// An argument word has 32 bytes and denotes the integer that it carries.
pub proof fn uint_word_denotes_its_value(value: u64)
    ensures
        uint_word(value as nat).len() == WORD_BYTES,
        big_endian_value(uint_word(value as nat)) == value,
{
    big_endian_round_trip(value as nat, 32);
    assert(byte_range(32) >= 0x1_0000_0000_0000_0000) by {
        reveal_with_fuel(byte_range, 33);
    }
    lemma_small_mod(value as nat, byte_range(32));
}

/// Writes an unsigned integer as an argument word.
pub fn encode_uint(value: u64) -> (word: [u8; 32])
    ensures
        word@ == uint_word(value as nat),
{
    let mut word: [u8; 32] = [0u8; 32];
    let mut rest: u64 = value;
    let mut k: usize = 32;
    while k > 0
        invariant
            k <= 32,
            uint_word(value as nat) =~= big_endian(rest as nat, k as nat) + word@.subrange(
                k as int,
                32,
            ),
        decreases k,
    {
        k = k - 1;
        word[k] = (rest % 256) as u8;
        rest = rest / 256;
    }
    word
}

/// Writes an address as an argument word.
pub fn encode_address(address: &Address) -> (word: [u8; 32])
    ensures
        word@ == address_word(address@),
{
    let mut word: [u8; 32] = [0u8; 32];
    let mut k: usize = 0;
    while k < 20
        invariant
            k <= 20,
            forall|i: int| 0 <= i < 12 ==> word@[i] == 0u8,
            forall|i: int| 0 <= i < k ==> word@[12 + i] == address@[i],
        decreases 20 - k,
    {
        word[12 + k] = address.bytes[k];
        k = k + 1;
    }
    word
}

/// Appends a word to a byte vector.
fn push_word(bytes: &mut Vec<u8>, word: &[u8; 32])
    ensures
        final(bytes)@ == old(bytes)@ + word@,
{
    let mut k: usize = 0;
    while k < 32
        invariant
            k <= 32,
            bytes@ == old(bytes)@ + word@.subrange(0, k as int),
        decreases 32 - k,
    {
        bytes.push(word[k]);
        k = k + 1;
    }
}

/// Encodes the arguments of `fundEscrow`.
pub fn encode_fund_arguments(job_id: u64, provider: &Address) -> (arguments: Vec<u8>)
    ensures
        arguments@ == fund_arguments(job_id, provider@),
{
    let mut arguments: Vec<u8> = Vec::new();
    let job = encode_uint(job_id);
    let account = encode_address(provider);
    push_word(&mut arguments, &job);
    push_word(&mut arguments, &account);
    arguments
}

/// Encodes the arguments of `releaseFundsToOperator`.
pub fn encode_release_arguments(job_id: u64) -> (arguments: Vec<u8>)
    ensures
        arguments@ == release_arguments(job_id),
{
    let mut arguments: Vec<u8> = Vec::new();
    let job = encode_uint(job_id);
    push_word(&mut arguments, &job);
    arguments
}

} // verus!
