//! Parity-augmented checksum functions: the same per-byte recurrence over a
//! smaller companion modulus, packed with the XOR parity of all data bytes
//! in the least significant bit. The parity covers the data bytes only (the
//! first one XORed with the seed), never the checksum's own bytes.

use vstd::prelude::*;
use crate::model::{checksum_parity, koopman8p_spec, koopman16p_spec, koopman32p_spec, parity_bit,
    MODULUS_7P, MODULUS_15P, MODULUS_31P};
use crate::fold::{fold_parity_u32, fold_parity_u64, finish_u32, finish_u64};

verus! {

/// Computes the parity of a byte (number of set bits modulo 2) as the XOR
/// of its eight bits.
pub fn parity8(x: u8) -> (r: u8)
    ensures
        r == parity_bit(x),
        r <= 1,
{
    proof {
        assert(parity_bit(x) <= 1) by (bit_vector);
    }
    (x ^ (x >> 1u8) ^ (x >> 2u8) ^ (x >> 3u8) ^ (x >> 4u8) ^ (x >> 5u8) ^ (x >> 6u8)
        ^ (x >> 7u8)) & 1u8
}

/// Computes the 8-bit parity-augmented checksum of `data` under
/// `initial_seed` with the recommended companion modulus 125: a 7-bit
/// checksum in the upper bits, the parity in the lowest. Empty data yields 0.
pub fn koopman8p(data: &[u8], initial_seed: u8) -> (r: u8)
    ensures
        r == koopman8p_spec(data@, initial_seed),
{
    koopman8p_with_modulus(data, initial_seed, MODULUS_7P)
}

/// Computes the 8-bit parity-augmented checksum with a custom modulus, which
/// must be non-zero and at most 128 so that checksum and parity bit together
/// fit the output width. Empty data yields 0.
pub fn koopman8p_with_modulus(data: &[u8], initial_seed: u8, modulus: u32) -> (r: u8)
    requires
        1 <= modulus <= 0x80,
    ensures
        r == checksum_parity(data@, initial_seed, modulus as int, 1),
{
    if data.len() == 0 {
        return 0;
    }
    let first = data[0] ^ initial_seed;
    let (sum, psum) = fold_parity_u32(first as u32, first, data, 1, modulus);
    let fin = finish_u32(sum, modulus, 1);
    (fin as u8) * 2 + parity8(psum)
}

/// Computes the 16-bit parity-augmented checksum of `data` under
/// `initial_seed` with the recommended companion modulus 32749: a 15-bit
/// checksum in the upper bits, the parity in the lowest. Empty data yields 0.
pub fn koopman16p(data: &[u8], initial_seed: u8) -> (r: u16)
    ensures
        r == koopman16p_spec(data@, initial_seed),
{
    koopman16p_with_modulus(data, initial_seed, MODULUS_15P)
}

/// Computes the 16-bit parity-augmented checksum with a custom modulus,
/// which must be non-zero and at most 32768 so that checksum and parity bit
/// together fit the output width. Empty data yields 0.
pub fn koopman16p_with_modulus(data: &[u8], initial_seed: u8, modulus: u32) -> (r: u16)
    requires
        1 <= modulus <= 0x8000,
    ensures
        r == checksum_parity(data@, initial_seed, modulus as int, 2),
{
    if data.len() == 0 {
        return 0;
    }
    let first = data[0] ^ initial_seed;
    let (sum, psum) = fold_parity_u32(first as u32, first, data, 1, modulus);
    let fin = finish_u32(sum, modulus, 2);
    (fin as u16) * 2 + parity8(psum) as u16
}

/// Computes the 32-bit parity-augmented checksum of `data` under
/// `initial_seed` with the recommended companion modulus 2147483629: a
/// 31-bit checksum in the upper bits, the parity in the lowest. Empty data
/// yields 0.
pub fn koopman32p(data: &[u8], initial_seed: u8) -> (r: u32)
    ensures
        r == koopman32p_spec(data@, initial_seed),
{
    koopman32p_with_modulus(data, initial_seed, MODULUS_31P)
}

/// Computes the 32-bit parity-augmented checksum with a custom modulus,
/// which must be non-zero and at most 2^31 so that checksum and parity bit
/// together fit the output width. Empty data yields 0.
pub fn koopman32p_with_modulus(data: &[u8], initial_seed: u8, modulus: u64) -> (r: u32)
    requires
        1 <= modulus <= 0x8000_0000,
    ensures
        r == checksum_parity(data@, initial_seed, modulus as int, 4),
{
    if data.len() == 0 {
        return 0;
    }
    let first = data[0] ^ initial_seed;
    let (sum, psum) = fold_parity_u64(first as u64, first, data, 1, modulus);
    let fin = finish_u64(sum, modulus, 4);
    (fin as u32) * 2 + parity8(psum) as u32
}

/// Recomputes the 8-bit parity-augmented checksum of `data` under
/// `initial_seed` and compares it with `expected`.
pub fn verify8p(data: &[u8], expected: u8, initial_seed: u8) -> (r: bool)
    ensures
        r <==> koopman8p_spec(data@, initial_seed) == expected,
{
    koopman8p(data, initial_seed) == expected
}

/// Recomputes the 16-bit parity-augmented checksum of `data` under
/// `initial_seed` and compares it with `expected`.
pub fn verify16p(data: &[u8], expected: u16, initial_seed: u8) -> (r: bool)
    ensures
        r <==> koopman16p_spec(data@, initial_seed) == expected,
{
    koopman16p(data, initial_seed) == expected
}

/// Recomputes the 32-bit parity-augmented checksum of `data` under
/// `initial_seed` and compares it with `expected`.
pub fn verify32p(data: &[u8], expected: u32, initial_seed: u8) -> (r: bool)
    ensures
        r <==> koopman32p_spec(data@, initial_seed) == expected,
{
    koopman32p(data, initial_seed) == expected
}

} // verus!
