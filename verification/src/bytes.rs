//! Little-endian byte strings and two's complement.

use vstd::prelude::*;
#[allow(unused_imports)]
use vstd::arithmetic::div_mod::lemma_div_denominator;
use vstd::arithmetic::power::{lemma_pow0, lemma_pow_positive, pow};

verus! {

/// The `width` low bytes of `value`, least significant first.
pub open spec fn le_bytes(value: nat, width: nat) -> Seq<u8>
    decreases width,
{
    if width == 0 {
        Seq::empty()
    } else {
        seq![(value % 256) as u8] + le_bytes(value / 256, (width - 1) as nat)
    }
}

/// The number that `bytes` spell, least significant first.
pub open spec fn le_value(bytes: Seq<u8>) -> nat
    decreases bytes.len(),
{
    if bytes.len() == 0 {
        0
    } else {
        bytes[0] as nat + 256 * le_value(bytes.skip(1))
    }
}

/// The 32-bit two's complement pattern of `value`, as a number.
pub open spec fn twos_complement(value: i32) -> nat {
    ((value as int) % 0x1_0000_0000) as nat
}

/// The signed number whose 32-bit two's complement pattern is `pattern`.
pub open spec fn from_twos_complement(pattern: nat) -> int {
    if pattern < 0x8000_0000 {
        pattern as int
    } else {
        pattern - 0x1_0000_0000
    }
}

/// A little-endian string has the width it was asked for.
pub proof fn law_le_width(value: nat, width: nat)
    ensures
        le_bytes(value, width).len() == width,
    decreases width,
{
    if width > 0 {
        law_le_width(value / 256, (width - 1) as nat);
    }
}

/// Reading a little-endian string gives back the number that was written, as long
/// as it fits the width.
pub proof fn law_le_reads_back(value: nat, width: nat)
    requires
        value < pow(256, width),
    ensures
        le_value(le_bytes(value, width)) == value,
    decreases width,
{
    if width == 0 {
        lemma_pow0(256);
    } else {
        let rest: nat = (width - 1) as nat;
        lemma_pow_positive(256, rest);
        assert(pow(256, width) == 256 * pow(256, rest)) by {
            reveal(pow);
        }
        assert(value / 256 < pow(256, rest)) by (nonlinear_arith)
            requires
                value < 256 * pow(256, rest),
        ;
        law_le_reads_back(value / 256, rest);
        let written = le_bytes(value, width);
        assert(written.skip(1) =~= le_bytes(value / 256, rest));
    }
}

/// Two's complement loses nothing of a 32-bit integer.
pub proof fn law_twos_complement_reads_back(value: i32)
    ensures
        twos_complement(value) < 0x1_0000_0000,
        from_twos_complement(twos_complement(value)) == value,
{
}

/// The low 16 bits of a number, least significant byte first.
pub fn le16(value: u16) -> (bytes: [u8; 2])
    ensures
        bytes@ == le_bytes(value as nat, 2),
        bytes@[0] + 256 * bytes@[1] == value,
{
    let low: u8 = value as u8;
    let high: u8 = (value >> 8) as u8;
    assert(low == value % 256 && high == value / 256) by (bit_vector)
        requires
            low == value as u8,
            high == (value >> 8) as u8,
    ;
    let bytes: [u8; 2] = [low, high];
    proof {
        reveal_with_fuel(le_bytes, 3);
        assert(bytes@ =~= le_bytes(value as nat, 2));
    }
    bytes
}

/// A signed number in two's complement, least significant byte first.
pub fn le32(value: i32) -> (bytes: [u8; 4])
    ensures
        bytes@ == le_bytes(twos_complement(value), 4),
        bytes@[0] + 0x100 * bytes@[1] + 0x1_0000 * bytes@[2] + 0x100_0000 * bytes@[3] == (if value
            >= 0 {
            value as int
        } else {
            value + 0x1_0000_0000
        }),
{
    let b0: u8 = value as u8;
    let b1: u8 = (value >> 8) as u8;
    let b2: u8 = (value >> 16) as u8;
    let b3: u8 = (value >> 24) as u8;
    let bytes: [u8; 4] = [b0, b1, b2, b3];
    proof {
        let pattern: u32 = value as u32;
        assert(pattern == if value >= 0 { value as int } else { value + 0x1_0000_0000 }) by (bit_vector)
            requires
                pattern == value as u32,
        ;
        assert(b0 == pattern % 256 && b1 == pattern / 256 % 256 && b2 == pattern / 256 / 256 % 256
            && b3 == pattern / 256 / 256 / 256 % 256) by (bit_vector)
            requires
                pattern == value as u32,
                b0 == value as u8,
                b1 == (value >> 8) as u8,
                b2 == (value >> 16) as u8,
                b3 == (value >> 24) as u8,
        ;
        assert(twos_complement(value) == pattern);
        reveal_with_fuel(le_bytes, 5);
        assert(bytes@ =~= le_bytes(twos_complement(value), 4));
    }
    bytes
}

/// Byte `k` of a little-endian string is the digit of the number at place `k`, to the base 256.
pub proof fn law_le_digits(value: nat, width: nat, k: nat)
    requires
        k < width,
    ensures
        le_bytes(value, width).len() == width,
        le_bytes(value, width)[k as int] == (value as int / pow(256, k)) % 256,
    decreases width,
{
    law_le_width(value, width);
    let rest: nat = (width - 1) as nat;
    law_le_width(value / 256, rest);
    if k == 0 {
        lemma_pow0(256);
        assert(value as int / 1 == value);
    } else {
        let before: nat = (k - 1) as nat;
        law_le_digits(value / 256, rest, before);
        lemma_pow_positive(256, before);
        assert(pow(256, k) == 256 * pow(256, before)) by {
            reveal(pow);
        }
        lemma_div_denominator(value as int, 256, pow(256, before));
        assert(le_bytes(value, width)[k as int] == le_bytes(value / 256, rest)[k - 1]);
    }
}

/// A byte put behind a little-endian string counts 256 times as much as one at the place before.
pub proof fn law_le_value_grows(bytes: Seq<u8>, byte: u8)
    ensures
        le_value(Seq::empty()) == 0,
        le_value(bytes.push(byte)) == le_value(bytes) + byte * pow(256, bytes.len()),
    decreases bytes.len(),
{
    let longer = bytes.push(byte);
    if bytes.len() == 0 {
        lemma_pow0(256);
        assert(longer.skip(1) =~= Seq::empty());
        assert(le_value(longer.skip(1)) == 0);
        assert(byte * 1 == byte);
    } else {
        let rest = bytes.skip(1);
        law_le_value_grows(rest, byte);
        assert(longer.skip(1) =~= rest.push(byte));
        let place = pow(256, rest.len());
        assert(pow(256, bytes.len()) == 256 * place) by {
            reveal(pow);
        }
        assert(256 * (byte * place) == byte * (256 * place)) by (nonlinear_arith);
    }
}

/// The two's complement pattern of a number is the number itself, or the number and 2 to the
/// power of 32, whichever is not negative.
pub proof fn law_twos_complement_shifts(value: i32)
    ensures
        value >= 0 ==> twos_complement(value) == value,
        value < 0 ==> twos_complement(value) == value + 0x1_0000_0000,
{
}

} // verus!
