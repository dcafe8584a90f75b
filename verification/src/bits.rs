//! Bit fields of a single byte, stated as quotients and remainders.
//!
//! The wire format packs several small fields into a byte. Contracts in this
//! library speak of them arithmetically (`b % 16`, `b / 64 % 2`); the functions
//! here compute them with masks and shifts and are proved to agree.
use vstd::prelude::*;

verus! {

/// Whether the top bit of `b` is set: another byte of the same block follows.
pub open spec fn has_extension(b: u8) -> bool {
    b >= 0x80
}

/// `b` without its top bit.
pub open spec fn low7(b: u8) -> u8 {
    (b % 128) as u8
}

/// Masks and shifts of a byte are remainders and quotients by powers of two.
pub proof fn lemma_masks_are_remainders(b: u8)
    by (bit_vector)
    ensures
        (b & 0x80 != 0) == (b >= 0x80),
        b & 0x7F == b % 128,
        b & 0x3F == b % 64,
        b & 0x0F == b % 16,
        b & 0b111 == b % 8,
        b & 0b11 == b % 4,
        b & 0b1 == b % 2,
        b >> 4 == b / 16,
        (b >> 4) & 0b11 == (b / 16) % 4,
        (b >> 6) & 0b1 == (b / 64) % 2,
        (b >> 5) & 0b1 == (b / 32) % 2,
        (b >> 2) & 0b1 == (b / 4) % 2,
        (b >> 3) & 0b1 == (b / 8) % 2,
        (b >> 4) & 0b1 == (b / 16) % 2,
        b >> 5 == b / 32,
{
}

/// The extension flag of `b`.
pub fn extension_flag(b: u8) -> (r: bool)
    ensures
        r == has_extension(b),
{
    proof {
        lemma_masks_are_remainders(b);
    }
    b & 0x80 != 0
}

/// The low seven bits of `b`.
pub fn without_extension(b: u8) -> (r: u8)
    ensures
        r == low7(b),
        r < 128,
{
    proof {
        lemma_masks_are_remainders(b);
    }
    b & 0x7F
}

} // verus!
