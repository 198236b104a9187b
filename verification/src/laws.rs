//! The general laws of the checksum family, stated over the model and
//! proved once for all inputs: empty input always yields 0, the default
//! functions agree with the custom-modulus functions at the recommended
//! moduli, and a message split at any point folds to the same running sum
//! as the whole message, which is why the streaming hashers agree with the
//! one-shot functions for every chunking.

use vstd::prelude::*;
use crate::model::{checksum, checksum_core, checksum_parity, fold_bytes, fold_xor,
    koopman8_spec, koopman16_spec, koopman32_spec, koopman8p_spec, koopman16p_spec,
    koopman32p_spec, lemma_fold_bytes_concat, lemma_fold_xor_concat, xor_core, MODULUS_8,
    MODULUS_16, MODULUS_32, MODULUS_7P, MODULUS_15P, MODULUS_31P};

verus! {

/// The checksum of an empty sequence is 0 for every variant, every seed,
/// every modulus and every number of finalization shifts.
pub proof fn lemma_empty_checksum_is_zero(seed: u8, m: int, zeros: nat)
    ensures
        checksum(Seq::<u8>::empty(), seed, m, zeros) == 0,
        checksum_parity(Seq::<u8>::empty(), seed, m, zeros) == 0,
        koopman8_spec(Seq::<u8>::empty(), seed) == 0,
        koopman16_spec(Seq::<u8>::empty(), seed) == 0,
        koopman32_spec(Seq::<u8>::empty(), seed) == 0,
        koopman8p_spec(Seq::<u8>::empty(), seed) == 0,
        koopman16p_spec(Seq::<u8>::empty(), seed) == 0,
        koopman32p_spec(Seq::<u8>::empty(), seed) == 0,
{
}

/// Each default function computes exactly what the matching custom-modulus
/// function computes at the variant's recommended modulus, for all data and
/// seeds.
pub proof fn lemma_default_modulus_agreement(data: Seq<u8>, seed: u8)
    ensures
        koopman8_spec(data, seed) == checksum(data, seed, MODULUS_8 as int, 1),
        koopman16_spec(data, seed) == checksum(data, seed, MODULUS_16 as int, 2),
        koopman32_spec(data, seed) == checksum(data, seed, MODULUS_32 as int, 4),
        koopman8p_spec(data, seed) == checksum_parity(data, seed, MODULUS_7P as int, 1),
        koopman16p_spec(data, seed) == checksum_parity(data, seed, MODULUS_15P as int, 2),
        koopman32p_spec(data, seed) == checksum_parity(data, seed, MODULUS_31P as int, 4),
{
}

/// Splitting a non-empty message at any point and folding the remainder
/// into the running sum of the prefix gives the running sum of the whole
/// message: a hasher that has consumed `data.take(i)` and is then fed
/// `data.skip(i)` ends in the same state as one fed `data` at once.
pub proof fn lemma_core_split(data: Seq<u8>, i: int, seed: u8, m: int)
    requires
        1 <= i <= data.len(),
    ensures
        checksum_core(data, seed, m) == fold_bytes(
            checksum_core(data.take(i), seed, m),
            data.skip(i),
            m,
        ),
{
    assert(data.take(i)[0] == data[0]);
    assert(data.skip(1) =~= data.take(i).skip(1) + data.skip(i));
    lemma_fold_bytes_concat((data[0] ^ seed) as int, data.take(i).skip(1), data.skip(i), m);
}

/// The parity analogue of the split law: the running XOR over a message
/// split at any point equals the running XOR over the whole message.
pub proof fn lemma_xor_split(data: Seq<u8>, i: int, seed: u8)
    requires
        1 <= i <= data.len(),
    ensures
        xor_core(data, seed) == fold_xor(xor_core(data.take(i), seed), data.skip(i)),
{
    assert(data.take(i)[0] == data[0]);
    assert(data.skip(1) =~= data.take(i).skip(1) + data.skip(i));
    lemma_fold_xor_concat(data[0] ^ seed, data.take(i).skip(1), data.skip(i));
}

} // verus!
