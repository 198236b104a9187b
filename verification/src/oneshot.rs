//! One-shot checksum functions over a complete buffer, in 8-, 16- and
//! 32-bit widths, with the recommended modulus or a caller-chosen one, and
//! the matching verification helpers.
//!
//! The modulus must be non-zero and fit the output width; both bounds are
//! preconditions, so a violation is a caller error caught at verification
//! time rather than a silently truncated result.

use vstd::prelude::*;
use crate::model::{checksum, koopman8_spec, koopman16_spec, koopman32_spec, MODULUS_8, MODULUS_16,
    MODULUS_32};
use crate::fold::{fold_generic_u32, fold_generic_u64, fold_fast16, fold_fast32, finish_u32,
    finish_u64, finish_fast16, finish_fast32};

verus! {

/// Computes the 8-bit checksum of `data` under `initial_seed` with the
/// recommended modulus 253. Empty data yields 0.
pub fn koopman8(data: &[u8], initial_seed: u8) -> (r: u8)
    ensures
        r == koopman8_spec(data@, initial_seed),
{
    koopman8_with_modulus(data, initial_seed, MODULUS_8)
}

/// Computes the 8-bit checksum of `data` under `initial_seed` with a custom
/// modulus, which must be non-zero and at most 256. Empty data yields 0.
pub fn koopman8_with_modulus(data: &[u8], initial_seed: u8, modulus: u32) -> (r: u8)
    requires
        1 <= modulus <= 0x100,
    ensures
        r == checksum(data@, initial_seed, modulus as int, 1),
{
    if data.len() == 0 {
        return 0;
    }
    let first = data[0] ^ initial_seed;
    let sum = fold_generic_u32(first as u32, data, 1, modulus);
    let fin = finish_u32(sum, modulus, 1);
    fin as u8
}

/// Computes the 16-bit checksum of `data` under `initial_seed` with the
/// recommended modulus 65519, using the fast reduction. Empty data yields 0.
pub fn koopman16(data: &[u8], initial_seed: u8) -> (r: u16)
    ensures
        r == koopman16_spec(data@, initial_seed),
{
    if data.len() == 0 {
        return 0;
    }
    let first = data[0] ^ initial_seed;
    let sum = fold_fast16(first as u32, data, 1);
    let fin = finish_fast16(sum);
    fin as u16
}

/// Computes the 16-bit checksum of `data` under `initial_seed` with a custom
/// modulus, which must be non-zero and at most 65536. Empty data yields 0.
pub fn koopman16_with_modulus(data: &[u8], initial_seed: u8, modulus: u32) -> (r: u16)
    requires
        1 <= modulus <= 0x10000,
    ensures
        r == checksum(data@, initial_seed, modulus as int, 2),
{
    if data.len() == 0 {
        return 0;
    }
    let first = data[0] ^ initial_seed;
    let sum = fold_generic_u32(first as u32, data, 1, modulus);
    let fin = finish_u32(sum, modulus, 2);
    fin as u16
}

/// Computes the 32-bit checksum of `data` under `initial_seed` with the
/// recommended modulus 4294967291, using the fast reduction. Empty data
/// yields 0.
pub fn koopman32(data: &[u8], initial_seed: u8) -> (r: u32)
    ensures
        r == koopman32_spec(data@, initial_seed),
{
    if data.len() == 0 {
        return 0;
    }
    let first = data[0] ^ initial_seed;
    let sum = fold_fast32(first as u64, data, 1);
    let fin = finish_fast32(sum);
    fin as u32
}

/// Computes the 32-bit checksum of `data` under `initial_seed` with a custom
/// modulus, which must be non-zero and at most 2^32. Empty data yields 0.
pub fn koopman32_with_modulus(data: &[u8], initial_seed: u8, modulus: u64) -> (r: u32)
    requires
        1 <= modulus <= 0x1_0000_0000,
    ensures
        r == checksum(data@, initial_seed, modulus as int, 4),
{
    if data.len() == 0 {
        return 0;
    }
    let first = data[0] ^ initial_seed;
    let sum = fold_generic_u64(first as u64, data, 1, modulus);
    let fin = finish_u64(sum, modulus, 4);
    fin as u32
}

/// Recomputes the 8-bit checksum of `data` under `initial_seed` and compares
/// it with `expected`.
pub fn verify8(data: &[u8], expected: u8, initial_seed: u8) -> (r: bool)
    ensures
        r <==> koopman8_spec(data@, initial_seed) == expected,
{
    koopman8(data, initial_seed) == expected
}

/// Recomputes the 16-bit checksum of `data` under `initial_seed` and
/// compares it with `expected`.
pub fn verify16(data: &[u8], expected: u16, initial_seed: u8) -> (r: bool)
    ensures
        r <==> koopman16_spec(data@, initial_seed) == expected,
{
    koopman16(data, initial_seed) == expected
}

/// Recomputes the 32-bit checksum of `data` under `initial_seed` and
/// compares it with `expected`.
pub fn verify32(data: &[u8], expected: u32, initial_seed: u8) -> (r: bool)
    ensures
        r <==> koopman32_spec(data@, initial_seed) == expected,
{
    koopman32(data, initial_seed) == expected
}

} // verus!
