//! Shared verified loops for the per-byte recurrence and the finalization
//! shifts, in a generic-modulus form and in fast-path forms for the two
//! default moduli. Every one-shot function and every streaming hasher is a
//! thin wrapper around these.

use vstd::prelude::*;
use vstd::arithmetic::div_mod::lemma_mod_bound;
use crate::model::{fold_bytes, fold_xor, shift_zeros};
use crate::reduce::{fast_mod_65519, fast_mod_4294967291};

verus! {

/// Folds `data[start..]` into `sum0` with the generic per-byte reduction,
/// for any 16-bit-range modulus.
pub(crate) fn fold_generic_u32(sum0: u32, data: &[u8], start: usize, m: u32) -> (r: u32)
    requires
        1 <= m <= 0x10000,
        start <= data@.len(),
        sum0 < 0x10000,
    ensures
        r == fold_bytes(sum0 as int, data@.skip(start as int), m as int),
        r < 0x10000,
        start < data@.len() ==> r < m,
{
    let ghost target = fold_bytes(sum0 as int, data@.skip(start as int), m as int);
    let mut sum: u32 = sum0;
    let mut i: usize = start;
    while i < data.len()
        invariant
            start <= i <= data@.len(),
            1 <= m <= 0x10000,
            sum < 0x10000,
            i > start ==> sum < m,
            fold_bytes(sum as int, data@.skip(i as int), m as int) == target,
        decreases data@.len() - i,
    {
        let b = data[i];
        proof {
            assert(data@.skip(i as int)[0] == data@[i as int]);
            assert(data@.skip(i as int).skip(1) =~= data@.skip(i as int + 1));
            assert(fold_bytes(sum as int, data@.skip(i as int), m as int) == fold_bytes(
                (sum as int * 256 + b) % (m as int),
                data@.skip(i as int + 1),
                m as int,
            ));
            lemma_mod_bound(sum as int * 256 + b, m as int);
        }
        sum = (sum * 256 + b as u32) % m;
        i = i + 1;
    }
    proof {
        assert(data@.skip(i as int) =~= Seq::<u8>::empty());
    }
    sum
}

/// Folds `data[start..]` into `sum0` with the fast reduction for the default
/// 16-bit modulus 65519.
pub(crate) fn fold_fast16(sum0: u32, data: &[u8], start: usize) -> (r: u32)
    requires
        start <= data@.len(),
        sum0 < 0x10000,
    ensures
        r == fold_bytes(sum0 as int, data@.skip(start as int), 65519),
        r < 0x10000,
        start < data@.len() ==> r < 65519,
{
    let ghost target = fold_bytes(sum0 as int, data@.skip(start as int), 65519);
    let mut sum: u32 = sum0;
    let mut i: usize = start;
    while i < data.len()
        invariant
            start <= i <= data@.len(),
            sum < 0x10000,
            i > start ==> sum < 65519,
            fold_bytes(sum as int, data@.skip(i as int), 65519) == target,
        decreases data@.len() - i,
    {
        let b = data[i];
        proof {
            assert(data@.skip(i as int)[0] == data@[i as int]);
            assert(data@.skip(i as int).skip(1) =~= data@.skip(i as int + 1));
            assert(fold_bytes(sum as int, data@.skip(i as int), 65519) == fold_bytes(
                (sum as int * 256 + b) % 65519,
                data@.skip(i as int + 1),
                65519,
            ));
            lemma_mod_bound(sum as int * 256 + b, 65519);
        }
        sum = fast_mod_65519(sum * 256 + b as u32);
        i = i + 1;
    }
    proof {
        assert(data@.skip(i as int) =~= Seq::<u8>::empty());
    }
    sum
}

/// Folds `data[start..]` into `sum0` with the generic per-byte reduction,
/// for any 32-bit-range modulus.
pub(crate) fn fold_generic_u64(sum0: u64, data: &[u8], start: usize, m: u64) -> (r: u64)
    requires
        1 <= m <= 0x1_0000_0000,
        start <= data@.len(),
        sum0 < 0x1_0000_0000,
    ensures
        r == fold_bytes(sum0 as int, data@.skip(start as int), m as int),
        r < 0x1_0000_0000,
        start < data@.len() ==> r < m,
{
    let ghost target = fold_bytes(sum0 as int, data@.skip(start as int), m as int);
    let mut sum: u64 = sum0;
    let mut i: usize = start;
    while i < data.len()
        invariant
            start <= i <= data@.len(),
            1 <= m <= 0x1_0000_0000,
            sum < 0x1_0000_0000,
            i > start ==> sum < m,
            fold_bytes(sum as int, data@.skip(i as int), m as int) == target,
        decreases data@.len() - i,
    {
        let b = data[i];
        proof {
            assert(data@.skip(i as int)[0] == data@[i as int]);
            assert(data@.skip(i as int).skip(1) =~= data@.skip(i as int + 1));
            assert(fold_bytes(sum as int, data@.skip(i as int), m as int) == fold_bytes(
                (sum as int * 256 + b) % (m as int),
                data@.skip(i as int + 1),
                m as int,
            ));
            lemma_mod_bound(sum as int * 256 + b, m as int);
        }
        sum = (sum * 256 + b as u64) % m;
        i = i + 1;
    }
    proof {
        assert(data@.skip(i as int) =~= Seq::<u8>::empty());
    }
    sum
}

/// Folds `data[start..]` into `sum0` with the fast reduction for the default
/// 32-bit modulus 4294967291.
pub(crate) fn fold_fast32(sum0: u64, data: &[u8], start: usize) -> (r: u64)
    requires
        start <= data@.len(),
        sum0 < 0x1_0000_0000,
    ensures
        r == fold_bytes(sum0 as int, data@.skip(start as int), 4294967291),
        r < 0x1_0000_0000,
        start < data@.len() ==> r < 4294967291,
{
    let ghost target = fold_bytes(sum0 as int, data@.skip(start as int), 4294967291);
    let mut sum: u64 = sum0;
    let mut i: usize = start;
    while i < data.len()
        invariant
            start <= i <= data@.len(),
            sum < 0x1_0000_0000,
            i > start ==> sum < 4294967291,
            fold_bytes(sum as int, data@.skip(i as int), 4294967291) == target,
        decreases data@.len() - i,
    {
        let b = data[i];
        proof {
            assert(data@.skip(i as int)[0] == data@[i as int]);
            assert(data@.skip(i as int).skip(1) =~= data@.skip(i as int + 1));
            assert(fold_bytes(sum as int, data@.skip(i as int), 4294967291) == fold_bytes(
                (sum as int * 256 + b) % 4294967291,
                data@.skip(i as int + 1),
                4294967291,
            ));
            lemma_mod_bound(sum as int * 256 + b, 4294967291);
        }
        sum = fast_mod_4294967291(sum * 256 + b as u64);
        i = i + 1;
    }
    proof {
        assert(data@.skip(i as int) =~= Seq::<u8>::empty());
    }
    sum
}

/// Folds `data[start..]` into the checksum sum `sum0` and the parity
/// accumulator `p0` in one pass, for any 16-bit-range modulus.
pub(crate) fn fold_parity_u32(sum0: u32, p0: u8, data: &[u8], start: usize, m: u32) -> (r: (
    u32,
    u8,
))
    requires
        1 <= m <= 0x10000,
        start <= data@.len(),
        sum0 < 0x10000,
    ensures
        r.0 == fold_bytes(sum0 as int, data@.skip(start as int), m as int),
        r.1 == fold_xor(p0, data@.skip(start as int)),
        r.0 < 0x10000,
        start < data@.len() ==> r.0 < m,
{
    let ghost target = fold_bytes(sum0 as int, data@.skip(start as int), m as int);
    let ghost ptarget = fold_xor(p0, data@.skip(start as int));
    let mut sum: u32 = sum0;
    let mut psum: u8 = p0;
    let mut i: usize = start;
    while i < data.len()
        invariant
            start <= i <= data@.len(),
            1 <= m <= 0x10000,
            sum < 0x10000,
            i > start ==> sum < m,
            fold_bytes(sum as int, data@.skip(i as int), m as int) == target,
            fold_xor(psum, data@.skip(i as int)) == ptarget,
        decreases data@.len() - i,
    {
        let b = data[i];
        proof {
            assert(data@.skip(i as int)[0] == data@[i as int]);
            assert(data@.skip(i as int).skip(1) =~= data@.skip(i as int + 1));
            assert(fold_bytes(sum as int, data@.skip(i as int), m as int) == fold_bytes(
                (sum as int * 256 + b) % (m as int),
                data@.skip(i as int + 1),
                m as int,
            ));
            assert(fold_xor(psum, data@.skip(i as int)) == fold_xor(
                psum ^ b,
                data@.skip(i as int + 1),
            ));
            lemma_mod_bound(sum as int * 256 + b, m as int);
        }
        sum = (sum * 256 + b as u32) % m;
        psum = psum ^ b;
        i = i + 1;
    }
    proof {
        assert(data@.skip(i as int) =~= Seq::<u8>::empty());
    }
    (sum, psum)
}

/// Folds `data[start..]` into the checksum sum `sum0` and the parity
/// accumulator `p0` in one pass, for any 32-bit-range modulus.
pub(crate) fn fold_parity_u64(sum0: u64, p0: u8, data: &[u8], start: usize, m: u64) -> (r: (
    u64,
    u8,
))
    requires
        1 <= m <= 0x1_0000_0000,
        start <= data@.len(),
        sum0 < 0x1_0000_0000,
    ensures
        r.0 == fold_bytes(sum0 as int, data@.skip(start as int), m as int),
        r.1 == fold_xor(p0, data@.skip(start as int)),
        r.0 < 0x1_0000_0000,
        start < data@.len() ==> r.0 < m,
{
    let ghost target = fold_bytes(sum0 as int, data@.skip(start as int), m as int);
    let ghost ptarget = fold_xor(p0, data@.skip(start as int));
    let mut sum: u64 = sum0;
    let mut psum: u8 = p0;
    let mut i: usize = start;
    while i < data.len()
        invariant
            start <= i <= data@.len(),
            1 <= m <= 0x1_0000_0000,
            sum < 0x1_0000_0000,
            i > start ==> sum < m,
            fold_bytes(sum as int, data@.skip(i as int), m as int) == target,
            fold_xor(psum, data@.skip(i as int)) == ptarget,
        decreases data@.len() - i,
    {
        let b = data[i];
        proof {
            assert(data@.skip(i as int)[0] == data@[i as int]);
            assert(data@.skip(i as int).skip(1) =~= data@.skip(i as int + 1));
            assert(fold_bytes(sum as int, data@.skip(i as int), m as int) == fold_bytes(
                (sum as int * 256 + b) % (m as int),
                data@.skip(i as int + 1),
                m as int,
            ));
            assert(fold_xor(psum, data@.skip(i as int)) == fold_xor(
                psum ^ b,
                data@.skip(i as int + 1),
            ));
            lemma_mod_bound(sum as int * 256 + b, m as int);
        }
        sum = (sum * 256 + b as u64) % m;
        psum = psum ^ b;
        i = i + 1;
    }
    proof {
        assert(data@.skip(i as int) =~= Seq::<u8>::empty());
    }
    (sum, psum)
}

/// Applies `zeros` implicit-zero-byte shifts to `sum0` with the generic
/// reduction, for any 16-bit-range modulus.
pub(crate) fn finish_u32(sum0: u32, m: u32, zeros: usize) -> (r: u32)
    requires
        1 <= m <= 0x10000,
        sum0 < 0x10000,
    ensures
        r == shift_zeros(sum0 as int, m as int, zeros as nat),
        r < 0x10000,
        zeros > 0 ==> r < m,
{
    let mut sum: u32 = sum0;
    let mut i: usize = 0;
    while i < zeros
        invariant
            i <= zeros,
            1 <= m <= 0x10000,
            sum < 0x10000,
            i > 0 ==> sum < m,
            shift_zeros(sum as int, m as int, (zeros - i) as nat) == shift_zeros(
                sum0 as int,
                m as int,
                zeros as nat,
            ),
        decreases zeros - i,
    {
        proof {
            assert(shift_zeros(sum as int, m as int, (zeros - i) as nat) == shift_zeros(
                (sum as int * 256) % (m as int),
                m as int,
                (zeros - i - 1) as nat,
            ));
            lemma_mod_bound(sum as int * 256, m as int);
        }
        sum = (sum * 256) % m;
        i = i + 1;
    }
    sum
}

/// Applies `zeros` implicit-zero-byte shifts to `sum0` with the generic
/// reduction, for any 32-bit-range modulus.
pub(crate) fn finish_u64(sum0: u64, m: u64, zeros: usize) -> (r: u64)
    requires
        1 <= m <= 0x1_0000_0000,
        sum0 < 0x1_0000_0000,
    ensures
        r == shift_zeros(sum0 as int, m as int, zeros as nat),
        r < 0x1_0000_0000,
        zeros > 0 ==> r < m,
{
    let mut sum: u64 = sum0;
    let mut i: usize = 0;
    while i < zeros
        invariant
            i <= zeros,
            1 <= m <= 0x1_0000_0000,
            sum < 0x1_0000_0000,
            i > 0 ==> sum < m,
            shift_zeros(sum as int, m as int, (zeros - i) as nat) == shift_zeros(
                sum0 as int,
                m as int,
                zeros as nat,
            ),
        decreases zeros - i,
    {
        proof {
            assert(shift_zeros(sum as int, m as int, (zeros - i) as nat) == shift_zeros(
                (sum as int * 256) % (m as int),
                m as int,
                (zeros - i - 1) as nat,
            ));
            lemma_mod_bound(sum as int * 256, m as int);
        }
        sum = (sum * 256) % m;
        i = i + 1;
    }
    sum
}

/// The two finalization shifts of the default 16-bit modulus, through the
/// fast reduction.
pub(crate) fn finish_fast16(sum0: u32) -> (r: u32)
    requires
        sum0 < 0x10000,
    ensures
        r == shift_zeros(sum0 as int, 65519, 2),
        r < 65519,
{
    let s1 = fast_mod_65519(sum0 * 256);
    proof {
        lemma_mod_bound(sum0 as int * 256, 65519);
        assert(shift_zeros(sum0 as int, 65519, 2) == shift_zeros(
            (sum0 as int * 256) % 65519,
            65519,
            1,
        ));
    }
    let s2 = fast_mod_65519(s1 * 256);
    proof {
        lemma_mod_bound(s1 as int * 256, 65519);
        assert(shift_zeros(s1 as int, 65519, 1) == shift_zeros((s1 as int * 256) % 65519, 65519, 0));
        assert(shift_zeros(s2 as int, 65519, 0) == s2);
    }
    s2
}

/// The four finalization shifts of the default 32-bit modulus, through the
/// fast reduction.
pub(crate) fn finish_fast32(sum0: u64) -> (r: u64)
    requires
        sum0 < 0x1_0000_0000,
    ensures
        r == shift_zeros(sum0 as int, 4294967291, 4),
        r < 4294967291,
{
    let s1 = fast_mod_4294967291(sum0 * 256);
    proof {
        lemma_mod_bound(sum0 as int * 256, 4294967291);
        assert(shift_zeros(sum0 as int, 4294967291, 4) == shift_zeros(
            (sum0 as int * 256) % 4294967291,
            4294967291,
            3,
        ));
    }
    let s2 = fast_mod_4294967291(s1 * 256);
    proof {
        lemma_mod_bound(s1 as int * 256, 4294967291);
        assert(shift_zeros(s1 as int, 4294967291, 3) == shift_zeros(
            (s1 as int * 256) % 4294967291,
            4294967291,
            2,
        ));
    }
    let s3 = fast_mod_4294967291(s2 * 256);
    proof {
        lemma_mod_bound(s2 as int * 256, 4294967291);
        assert(shift_zeros(s2 as int, 4294967291, 2) == shift_zeros(
            (s2 as int * 256) % 4294967291,
            4294967291,
            1,
        ));
    }
    let s4 = fast_mod_4294967291(s3 * 256);
    proof {
        lemma_mod_bound(s3 as int * 256, 4294967291);
        assert(shift_zeros(s3 as int, 4294967291, 1) == shift_zeros(
            (s3 as int * 256) % 4294967291,
            4294967291,
            0,
        ));
        assert(shift_zeros(s4 as int, 4294967291, 0) == s4);
    }
    s4
}

} // verus!
