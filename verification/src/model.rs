//! The mathematical model of the Koopman checksum family.
//!
//! A checksum is a Horner-style evaluation of the byte sequence as a base-256
//! polynomial modulo a chosen modulus: the first byte (XORed with the seed)
//! starts the running sum, every further byte is folded in with
//! `sum = (sum * 256 + byte) % m`, and finalization appends one implicit zero
//! byte per output byte. The parity variants additionally XOR every byte
//! (the first one after seeding) into a parity accumulator whose bit parity
//! occupies the least significant bit of the packed result.

use vstd::prelude::*;

verus! {

/// Recommended modulus for the 8-bit checksum.
pub const MODULUS_8: u32 = 253;

/// Recommended modulus for the 16-bit checksum.
pub const MODULUS_16: u32 = 65519;

/// Recommended modulus for the 32-bit checksum.
pub const MODULUS_32: u64 = 4294967291;

/// Modulus for the 7-bit checksum portion of the 8-bit parity variant.
pub const MODULUS_7P: u32 = 125;

/// Modulus for the 15-bit checksum portion of the 16-bit parity variant.
pub const MODULUS_15P: u32 = 32749;

/// Modulus for the 31-bit checksum portion of the 32-bit parity variant.
pub const MODULUS_31P: u64 = 2147483629;

/// Folds `bytes` into the running sum `s`, one base-256 digit at a time,
/// reducing modulo `m` after every byte.
pub open spec fn fold_bytes(s: int, bytes: Seq<u8>, m: int) -> int
    recommends
        m >= 1,
    decreases bytes.len(),
{
    if bytes.len() == 0 {
        s
    } else {
        fold_bytes((s * 256 + bytes[0]) % m, bytes.skip(1), m)
    }
}

/// Appends `n` implicit zero bytes to the running sum `s`, reducing modulo
/// `m` after each: the finalization step of every checksum variant.
pub open spec fn shift_zeros(s: int, m: int, n: nat) -> int
    recommends
        m >= 1,
    decreases n,
{
    if n == 0 {
        s
    } else {
        shift_zeros((s * 256) % m, m, (n - 1) as nat)
    }
}

/// The running sum over a non-empty byte sequence before finalization:
/// the first byte is XORed with the seed, the rest are folded in.
pub open spec fn checksum_core(data: Seq<u8>, seed: u8, m: int) -> int
    recommends
        data.len() >= 1,
        m >= 1,
{
    fold_bytes((data[0] ^ seed) as int, data.skip(1), m)
}

/// The full one-shot checksum of `data` under `seed`, modulus `m`, and
/// `zeros` finalization shifts. Empty input yields 0 for every seed.
pub open spec fn checksum(data: Seq<u8>, seed: u8, m: int, zeros: nat) -> int
    recommends
        m >= 1,
{
    if data.len() == 0 {
        0
    } else {
        shift_zeros(checksum_core(data, seed, m), m, zeros)
    }
}

/// Folds `bytes` into the running XOR accumulator `p`.
pub open spec fn fold_xor(p: u8, bytes: Seq<u8>) -> u8
    decreases bytes.len(),
{
    if bytes.len() == 0 {
        p
    } else {
        fold_xor(p ^ bytes[0], bytes.skip(1))
    }
}

/// The parity accumulator over a non-empty byte sequence: the seed is XORed
/// into the first byte, exactly as for the checksum core.
pub open spec fn xor_core(data: Seq<u8>, seed: u8) -> u8
    recommends
        data.len() >= 1,
{
    fold_xor(data[0] ^ seed, data.skip(1))
}

/// The parity (number of set bits modulo 2) of a byte, as the XOR of its
/// eight bits.
pub open spec fn parity_bit(x: u8) -> u8 {
    (x ^ (x >> 1u8) ^ (x >> 2u8) ^ (x >> 3u8) ^ (x >> 4u8) ^ (x >> 5u8) ^ (x >> 6u8)
        ^ (x >> 7u8)) & 1u8
}

/// The full parity-augmented checksum: the reduced sum occupies the upper
/// bits, the parity of all data bytes (first byte seeded) the lowest bit.
/// Empty input yields 0 for every seed.
pub open spec fn checksum_parity(data: Seq<u8>, seed: u8, m: int, zeros: nat) -> int
    recommends
        m >= 1,
{
    if data.len() == 0 {
        0
    } else {
        2 * shift_zeros(checksum_core(data, seed, m), m, zeros)
            + parity_bit(xor_core(data, seed))
    }
}

/// The 8-bit checksum: modulus 253, one implicit zero byte.
pub open spec fn koopman8_spec(data: Seq<u8>, seed: u8) -> int {
    checksum(data, seed, MODULUS_8 as int, 1)
}

/// The 16-bit checksum: modulus 65519, two implicit zero bytes.
pub open spec fn koopman16_spec(data: Seq<u8>, seed: u8) -> int {
    checksum(data, seed, MODULUS_16 as int, 2)
}

/// The 32-bit checksum: modulus 4294967291, four implicit zero bytes.
pub open spec fn koopman32_spec(data: Seq<u8>, seed: u8) -> int {
    checksum(data, seed, MODULUS_32 as int, 4)
}

/// The 8-bit parity variant: 7-bit checksum with modulus 125, plus parity.
pub open spec fn koopman8p_spec(data: Seq<u8>, seed: u8) -> int {
    checksum_parity(data, seed, MODULUS_7P as int, 1)
}

/// The 16-bit parity variant: 15-bit checksum with modulus 32749, plus parity.
pub open spec fn koopman16p_spec(data: Seq<u8>, seed: u8) -> int {
    checksum_parity(data, seed, MODULUS_15P as int, 2)
}

/// The 32-bit parity variant: 31-bit checksum with modulus 2147483629, plus
/// parity.
pub open spec fn koopman32p_spec(data: Seq<u8>, seed: u8) -> int {
    checksum_parity(data, seed, MODULUS_31P as int, 4)
}

/// Folding a concatenation equals folding the first part and then folding
/// the second part into the intermediate sum. This is what makes the
/// streaming interface agree with the one-shot computation at every split
/// point.
pub proof fn lemma_fold_bytes_concat(s: int, a: Seq<u8>, b: Seq<u8>, m: int)
    ensures
        fold_bytes(s, a + b, m) == fold_bytes(fold_bytes(s, a, m), b, m),
    decreases a.len(),
{
    if a.len() == 0 {
        assert(a + b =~= b);
    } else {
        assert((a + b)[0] == a[0]);
        assert((a + b).skip(1) =~= a.skip(1) + b);
        lemma_fold_bytes_concat((s * 256 + a[0]) % m, a.skip(1), b, m);
    }
}

/// The XOR accumulator over a concatenation equals accumulating the first
/// part and then the second: the parity analogue of the fold split law.
pub proof fn lemma_fold_xor_concat(p: u8, a: Seq<u8>, b: Seq<u8>)
    ensures
        fold_xor(p, a + b) == fold_xor(fold_xor(p, a), b),
    decreases a.len(),
{
    if a.len() == 0 {
        assert(a + b =~= b);
    } else {
        assert((a + b)[0] == a[0]);
        assert((a + b).skip(1) =~= a.skip(1) + b);
        lemma_fold_xor_concat(p ^ a[0], a.skip(1), b);
    }
}

} // verus!
