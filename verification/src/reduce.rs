//! Fast modular reduction for the two default moduli of the form `2^k - c`
//! with small `c`: 65519 = 2^16 - 17 and 4294967291 = 2^32 - 5.
//!
//! Since `2^k` is congruent to `c` modulo `2^k - c`, splitting the input into
//! `hi = x >> k` and `lo = x & (2^k - 1)` and recombining as `hi * c + lo`
//! preserves the residue while shrinking the value, so a division per byte
//! becomes a couple of multiplications and one conditional subtraction. Both
//! functions are proved to return exactly `x % modulus`.

use vstd::prelude::*;
use vstd::arithmetic::div_mod::{
    lemma_mod_multiples_vanish, lemma_mod_sub_multiples_vanish, lemma_small_mod,
};

verus! {

/// Reduces `x` modulo 65519 = 2^16 - 17 without a division. Two
/// fold-and-recombine passes bring the value below twice the modulus, after
/// which at most one subtraction is needed.
pub fn fast_mod_65519(x: u32) -> (r: u32)
    ensures
        r == x as int % 65519,
{
    let hi: u32 = x >> 16;
    let lo: u32 = x & 0xFFFF;
    assert(x == hi * 0x10000 + lo && hi < 0x10000 && lo < 0x10000) by (bit_vector)
        requires
            hi == x >> 16,
            lo == x & 0xFFFF,
    ;
    let r1: u32 = hi * 17 + lo;
    let hi2: u32 = r1 >> 16;
    let lo2: u32 = r1 & 0xFFFF;
    assert(r1 == hi2 * 0x10000 + lo2 && hi2 <= 17 && lo2 < 0x10000) by (bit_vector)
        requires
            hi2 == r1 >> 16,
            lo2 == r1 & 0xFFFF,
            r1 <= 1179630,
    ;
    let r2: u32 = hi2 * 17 + lo2;
    proof {
        lemma_mod_multiples_vanish(hi as int, r1 as int, 65519);
        assert(65519 * hi + r1 == x as int);
        lemma_mod_multiples_vanish(hi2 as int, r2 as int, 65519);
        assert(65519 * hi2 + r2 == r1 as int);
    }
    if r2 >= 65519 {
        proof {
            lemma_mod_sub_multiples_vanish(r2 as int, 65519);
            lemma_small_mod((r2 - 65519) as nat, 65519);
            assert(-65519 + r2 == r2 - 65519);
        }
        r2 - 65519
    } else {
        proof {
            lemma_small_mod(r2 as nat, 65519);
        }
        r2
    }
}

/// Reduces `x` modulo 4294967291 = 2^32 - 5 without a division, for inputs
/// below 2^40 (the largest value the per-byte recurrence can produce). One
/// fold-and-recombine pass brings the value below twice the modulus, after
/// which at most one subtraction is needed.
pub fn fast_mod_4294967291(x: u64) -> (r: u64)
    requires
        x < 0x100_0000_0000,
    ensures
        r == x as int % 4294967291,
{
    let hi: u64 = x >> 32;
    let lo: u64 = x & 0xFFFF_FFFF;
    assert(x == hi * 0x1_0000_0000 + lo && hi < 0x100 && lo < 0x1_0000_0000) by (bit_vector)
        requires
            hi == x >> 32,
            lo == x & 0xFFFF_FFFF,
            x < 0x100_0000_0000,
    ;
    let r1: u64 = hi * 5 + lo;
    proof {
        lemma_mod_multiples_vanish(hi as int, r1 as int, 4294967291);
        assert(4294967291 * hi + r1 == x as int);
    }
    if r1 >= 4294967291 {
        proof {
            lemma_mod_sub_multiples_vanish(r1 as int, 4294967291);
            lemma_small_mod((r1 - 4294967291) as nat, 4294967291);
            assert(-4294967291 + r1 == r1 - 4294967291);
        }
        r1 - 4294967291
    } else {
        proof {
            lemma_small_mod(r1 as nat, 4294967291);
        }
        r1
    }
}

} // verus!
