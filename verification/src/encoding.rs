//! Fixed-width big-endian encodings of unsigned integers.

use vstd::arithmetic::div_mod::lemma_mod_breakdown;
use vstd::arithmetic::div_mod::lemma_small_mod;
use vstd::arithmetic::power::lemma_pow_positive;
use vstd::arithmetic::power::pow;
use vstd::prelude::*;

verus! {

/// The `width` low-order base-256 digits of `x`, most significant first.
pub open spec fn be_bytes(x: nat, width: nat) -> Seq<u8>
    decreases width,
{
    if width == 0 {
        Seq::empty()
    } else {
        be_bytes(x / 256, (width - 1) as nat).push((x % 256) as u8)
    }
}

/// The number whose base-256 digits, most significant first, are `bytes`.
pub open spec fn be_value(bytes: Seq<u8>) -> nat
    decreases bytes.len(),
{
    if bytes.len() == 0 {
        0
    } else {
        be_value(bytes.drop_last()) * 256 + bytes.last() as nat
    }
}

/// An encoding has exactly as many bytes as its width.
pub proof fn lemma_be_bytes_len(x: nat, width: nat)
    ensures
        be_bytes(x, width).len() == width,
    decreases width,
{
    if width > 0 {
        lemma_be_bytes_len(x / 256, (width - 1) as nat);
    }
}

/// Decoding an encoding gives the number back, reduced to the width.
pub proof fn lemma_be_value_of_be_bytes(x: nat, width: nat)
    ensures
        be_value(be_bytes(x, width)) == x as int % pow(256, width),
    decreases width,
{
    reveal(pow);
    if width > 0 {
        let rest = (width - 1) as nat;
        let head = be_bytes(x / 256, rest);
        lemma_be_value_of_be_bytes(x / 256, rest);
        assert(be_bytes(x, width).drop_last() =~= head);
        lemma_pow_positive(256, rest);
        lemma_mod_breakdown(x as int, 256, pow(256, rest));
        assert(pow(256, width) == 256 * pow(256, rest));
    }
}

/// Numbers below `256^width` with the same encoding are the same number.
pub proof fn lemma_be_bytes_injective(x: nat, y: nat, width: nat)
    requires
        x < pow(256, width),
        y < pow(256, width),
        be_bytes(x, width) == be_bytes(y, width),
    ensures
        x == y,
{
    lemma_be_value_of_be_bytes(x, width);
    lemma_be_value_of_be_bytes(y, width);
    lemma_small_mod(x, pow(256, width) as nat);
    lemma_small_mod(y, pow(256, width) as nat);
}

/// Two 64-bit numbers with the same eight-byte encoding are the same number.
pub proof fn lemma_u64_be_bytes_injective(x: u64, y: u64)
    requires
        be_bytes(x as nat, 8) == be_bytes(y as nat, 8),
    ensures
        x == y,
{
    assert(pow(256, 8) == 0x1_0000_0000_0000_0000) by {
        reveal_with_fuel(pow, 9);
    }
    lemma_be_bytes_injective(x as nat, y as nat, 8);
}

/// Two 32-bit numbers with the same four-byte encoding are the same number.
pub proof fn lemma_u32_be_bytes_injective(x: u32, y: u32)
    requires
        be_bytes(x as nat, 4) == be_bytes(y as nat, 4),
    ensures
        x == y,
{
    assert(pow(256, 4) == 0x1_0000_0000) by {
        reveal_with_fuel(pow, 5);
    }
    lemma_be_bytes_injective(x as nat, y as nat, 4);
}

/// The eight bytes of `x`, most significant first.
pub fn u64_to_be_bytes(x: u64) -> (r: [u8; 8])
    ensures
        r@ == be_bytes(x as nat, 8),
{
    let x1: u64 = x / 256;
    let x2: u64 = x1 / 256;
    let x3: u64 = x2 / 256;
    let x4: u64 = x3 / 256;
    let x5: u64 = x4 / 256;
    let x6: u64 = x5 / 256;
    let x7: u64 = x6 / 256;
    let r: [u8; 8] = [
        (x7 % 256) as u8,
        (x6 % 256) as u8,
        (x5 % 256) as u8,
        (x4 % 256) as u8,
        (x3 % 256) as u8,
        (x2 % 256) as u8,
        (x1 % 256) as u8,
        (x % 256) as u8,
    ];
    proof {
        reveal_with_fuel(be_bytes, 9);
        assert(r@ =~= be_bytes(x as nat, 8));
    }
    r
}

/// The four bytes of `x`, most significant first.
pub fn u32_to_be_bytes(x: u32) -> (r: [u8; 4])
    ensures
        r@ == be_bytes(x as nat, 4),
{
    let x1: u32 = x / 256;
    let x2: u32 = x1 / 256;
    let x3: u32 = x2 / 256;
    let r: [u8; 4] = [(x3 % 256) as u8, (x2 % 256) as u8, (x1 % 256) as u8, (x % 256) as u8];
    proof {
        reveal_with_fuel(be_bytes, 5);
        assert(r@ =~= be_bytes(x as nat, 4));
    }
    r
}

} // verus!
