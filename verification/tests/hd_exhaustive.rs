//! Exhaustive error-detection tests for the 8-bit variants, and a quick
//! sanity check across all variants.
//!
//! HD=3 means all 1-bit and 2-bit errors are detected; HD=4 adds all 3-bit
//! errors. The 8-bit variants are small enough to check every error pattern
//! at every length up to the documented bound, for every seed. The 16-bit
//! variants at their full documented lengths need hours to days of compute
//! and belong to a separately invoked validation run, not here.

use koopman_checksum::{koopman8, koopman8p, koopman16, koopman16p};

/// Maximum data length for koopman8 to detect all 1-2 bit errors
const MAX_LEN_8: usize = 13;

/// Maximum data length for koopman8p to detect all 1-3 bit errors
const MAX_LEN_8P: usize = 5;

/// Generate all-zero test data of given length.
fn generate_zeros(len: usize) -> Vec<u8> {
    vec![0; len]
}

/// Generate pattern test data of given length.
fn generate_pattern(len: usize) -> Vec<u8> {
    (0..len).map(|i| (i.wrapping_mul(7).wrapping_add(13)) as u8).collect()
}

/// Flip a single bit in the data at the given bit position.
fn flip_bit(data: &mut [u8], bit_pos: usize) {
    let byte_idx = bit_pos / 8;
    let bit_idx = bit_pos % 8;
    data[byte_idx] ^= 1 << bit_idx;
}

/// Verify all 1-bit errors in data are detected.
fn verify_1bit<F, C>(name: &str, seed: u8, data: &[u8], checksum_fn: &F)
where
    F: Fn(&[u8], u8) -> C,
    C: Eq + std::fmt::Debug,
{
    let original = checksum_fn(data, seed);
    let total_bits = data.len() * 8;

    for bit in 0..total_bits {
        let mut corrupted = data.to_vec();
        flip_bit(&mut corrupted, bit);
        assert!(
            checksum_fn(&corrupted, seed) != original,
            "{} FAILED: seed={:#04x}, 1-bit error at bit {} not detected",
            name,
            seed,
            bit
        );
    }
}

/// Verify all 2-bit errors in data are detected.
fn verify_2bit<F, C>(name: &str, seed: u8, data: &[u8], checksum_fn: &F)
where
    F: Fn(&[u8], u8) -> C,
    C: Eq + std::fmt::Debug,
{
    let original = checksum_fn(data, seed);
    let total_bits = data.len() * 8;

    for bit1 in 0..total_bits {
        for bit2 in (bit1 + 1)..total_bits {
            let mut corrupted = data.to_vec();
            flip_bit(&mut corrupted, bit1);
            flip_bit(&mut corrupted, bit2);
            assert!(
                checksum_fn(&corrupted, seed) != original,
                "{} FAILED: seed={:#04x}, 2-bit error at bits {},{} not detected",
                name,
                seed,
                bit1,
                bit2
            );
        }
    }
}

/// Verify all 3-bit errors in data are detected.
fn verify_3bit<F, C>(name: &str, seed: u8, data: &[u8], checksum_fn: &F)
where
    F: Fn(&[u8], u8) -> C,
    C: Eq + std::fmt::Debug,
{
    let original = checksum_fn(data, seed);
    let total_bits = data.len() * 8;

    for bit1 in 0..total_bits {
        for bit2 in (bit1 + 1)..total_bits {
            for bit3 in (bit2 + 1)..total_bits {
                let mut corrupted = data.to_vec();
                flip_bit(&mut corrupted, bit1);
                flip_bit(&mut corrupted, bit2);
                flip_bit(&mut corrupted, bit3);
                assert!(
                    checksum_fn(&corrupted, seed) != original,
                    "{} FAILED: seed={:#04x}, 3-bit error at bits {},{},{} not detected",
                    name,
                    seed,
                    bit1,
                    bit2,
                    bit3
                );
            }
        }
    }
}

/// Run HD tests with both data patterns at a single length, for every seed.
fn run_hd_test<F, C>(name: &str, data_len: usize, max_errors: usize, checksum_fn: F)
where
    F: Fn(&[u8], u8) -> C + Copy,
    C: Eq + std::fmt::Debug,
{
    for data in [generate_zeros(data_len), generate_pattern(data_len)] {
        for seed in 0u8..=255 {
            verify_1bit(name, seed, &data, &checksum_fn);
            if max_errors >= 2 {
                verify_2bit(name, seed, &data, &checksum_fn);
            }
            if max_errors >= 3 {
                verify_3bit(name, seed, &data, &checksum_fn);
            }
        }
    }
}

/// Run HD tests for ALL lengths from 1 to max_len (inclusive).
fn run_hd_tests_all_lengths<F, C>(name: &str, max_len: usize, max_errors: usize, checksum_fn: F)
where
    F: Fn(&[u8], u8) -> C + Copy,
    C: Eq + std::fmt::Debug,
{
    for data_len in 1..=max_len {
        run_hd_test(name, data_len, max_errors, checksum_fn);
    }
}

// koopman8 HD=3 exhaustive test (all lengths 1-13 bytes)
#[test]
fn koopman8_hd3_exhaustive() {
    run_hd_tests_all_lengths("koopman8", MAX_LEN_8, 2, koopman8);
}

// koopman8p HD=4 exhaustive test (all lengths 1-5 bytes)
#[test]
fn koopman8p_hd4_exhaustive() {
    run_hd_tests_all_lengths("koopman8p", MAX_LEN_8P, 3, koopman8p);
}

#[test]
fn hd_quick_sanity() {
    println!("\n=== Quick HD Sanity Check ===");

    for seed in [0u8, 1, 127, 128, 255] {
        // Test with zeros and pattern data
        for data8 in [generate_zeros(MAX_LEN_8), generate_pattern(MAX_LEN_8)] {
            let orig8 = koopman8(&data8, seed);

            // 1-bit error
            let mut corrupted = data8.clone();
            corrupted[0] ^= 1;
            assert_ne!(koopman8(&corrupted, seed), orig8, "koopman8 1-bit failed");

            // 2-bit error
            let mut corrupted = data8.clone();
            corrupted[0] ^= 1;
            corrupted[1] ^= 2;
            assert_ne!(koopman8(&corrupted, seed), orig8, "koopman8 2-bit failed");
        }

        for data8p in [generate_zeros(MAX_LEN_8P), generate_pattern(MAX_LEN_8P)] {
            let orig8p = koopman8p(&data8p, seed);

            // 3-bit error
            let mut corrupted = data8p.clone();
            corrupted[0] ^= 1;
            corrupted[1] ^= 2;
            corrupted[2] ^= 4;
            assert_ne!(koopman8p(&corrupted, seed), orig8p, "koopman8p 3-bit failed");
        }

        for data16 in [generate_zeros(64), generate_pattern(64)] {
            let orig16 = koopman16(&data16, seed);

            // 2-bit error
            let mut corrupted = data16.clone();
            corrupted[0] ^= 1;
            corrupted[32] ^= 0x80;
            assert_ne!(koopman16(&corrupted, seed), orig16, "koopman16 2-bit failed");
        }

        for data16p in [generate_zeros(32), generate_pattern(32)] {
            let orig16p = koopman16p(&data16p, seed);

            // 3-bit error
            let mut corrupted = data16p.clone();
            corrupted[0] ^= 1;
            corrupted[8] ^= 2;
            corrupted[16] ^= 4;
            assert_ne!(koopman16p(&corrupted, seed), orig16p, "koopman16p 3-bit failed");
        }
    }

    println!("Quick sanity check: PASSED");
}
