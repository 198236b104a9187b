//! Behavioural tests of the one-shot functions, the streaming hashers and
//! the verification helpers.

use koopman_checksum::{
    koopman8, koopman8_with_modulus, koopman16, koopman16_with_modulus, koopman32,
    koopman32_with_modulus, koopman8p, koopman8p_with_modulus, koopman16p,
    koopman16p_with_modulus, koopman32p, koopman32p_with_modulus, verify8p, verify16p, verify32p,
    Koopman8, Koopman16, Koopman32, Koopman8P, Koopman16P, Koopman32P, MODULUS_8, MODULUS_16,
    MODULUS_32, MODULUS_7P, MODULUS_15P, MODULUS_31P,
};

const TEST_DATA: &[u8] = b"123456789";

#[test]
fn test_koopman8_empty() {
    assert_eq!(koopman8(&[], 0), 0);
    assert_eq!(koopman8(&[], 42), 0); // Empty data returns 0 regardless of initial seed
}

#[test]
fn test_koopman8_single_byte() {
    // For single byte 0x12: sum = 0x12, then append zero: (0x12 << 8) % 253 = 4608 % 253 = 54
    assert_eq!(koopman8(&[0x12], 0), ((0x12u32 << 8) % MODULUS_8) as u8);
}

#[test]
fn test_koopman16_empty() {
    assert_eq!(koopman16(&[], 0), 0);
    assert_eq!(koopman16(&[], 42), 0); // Empty data returns 0 regardless of initial seed
}

#[test]
fn test_koopman32_empty() {
    assert_eq!(koopman32(&[], 0), 0);
    assert_eq!(koopman32(&[], 42), 0); // Empty data returns 0 regardless of initial seed
}

#[test]
fn test_streaming_koopman8() {
    let full = koopman8(TEST_DATA, 0);

    let mut hasher = Koopman8::new();
    hasher.update(&TEST_DATA[..4]);
    hasher.update(&TEST_DATA[4..]);
    let streaming = hasher.finalize();

    assert_eq!(full, streaming);
}

#[test]
fn test_streaming_koopman16() {
    let full = koopman16(TEST_DATA, 0);

    let mut hasher = Koopman16::new();
    hasher.update(&TEST_DATA[..4]);
    hasher.update(&TEST_DATA[4..]);
    let streaming = hasher.finalize();

    assert_eq!(full, streaming);
}

#[test]
fn test_streaming_koopman32() {
    let full = koopman32(TEST_DATA, 0);

    let mut hasher = Koopman32::new();
    hasher.update(&TEST_DATA[..4]);
    hasher.update(&TEST_DATA[4..]);
    let streaming = hasher.finalize();

    assert_eq!(full, streaming);
}

#[test]
fn test_seed_affects_result() {
    let result0 = koopman16(TEST_DATA, 0);
    let result1 = koopman16(TEST_DATA, 1);
    assert_ne!(result0, result1);
}

#[test]
fn test_single_bit_detection() {
    // Koopman checksums should detect all single-bit errors
    let original = koopman16(TEST_DATA, 0);

    for i in 0..TEST_DATA.len() {
        for bit in 0..8 {
            let mut corrupted = TEST_DATA.to_vec();
            corrupted[i] ^= 1 << bit;
            let corrupted_checksum = koopman16(&corrupted, 0);
            assert_ne!(
                original, corrupted_checksum,
                "Failed to detect single bit flip at byte {} bit {}",
                i, bit
            );
        }
    }
}

#[test]
fn test_reference_calculation() {
    // Manual calculation for simple input to verify algorithm
    // Input: [0x12, 0x34, 0x56] with initial seed 0, modulus 253
    // Step 1: sum = 0x12 = 18
    // Step 2: sum = ((18 << 8) + 0x34) % 253 = 4660 % 253 = 106
    // Step 3: sum = ((106 << 8) + 0x56) % 253 = 27222 % 253 = 151
    // Final:  sum = (151 << 8) % 253 = 38656 % 253 = 200

    let data = [0x12u8, 0x34, 0x56];
    let result = koopman8(&data, 0);
    assert_eq!(result, 200);
}

#[test]
fn test_koopman8p_parity_correctness() {
    // Verify that the parity bit correctly reflects the parity of data bytes only
    // (the checksum's own bytes are NOT included in the parity)
    let data = b"Test";
    let result = koopman8p(data, 0);

    // The checksum is in upper 7 bits
    let _checksum = result >> 1;
    let parity_bit = result & 1;

    // Compute expected parity: XOR all data bytes (NOT including checksum)
    let mut expected_parity: u8 = 0;
    for &byte in data {
        expected_parity ^= byte;
    }
    let expected_parity_bit = expected_parity.count_ones() & 1;

    assert_eq!(parity_bit as u32, expected_parity_bit);
}

#[test]
fn test_parity_variants_detect_single_bit_errors() {
    // Parity variants should detect all single-bit errors (HD=4)
    let data = b"Test";
    let original = koopman16p(data, 0);

    for i in 0..data.len() {
        for bit in 0..8 {
            let mut corrupted = data.to_vec();
            corrupted[i] ^= 1 << bit;
            let corrupted_checksum = koopman16p(&corrupted, 0);
            assert_ne!(
                original, corrupted_checksum,
                "Failed to detect single bit flip at byte {} bit {}",
                i, bit
            );
        }
    }
}

#[test]
fn test_custom_modulus_8() {
    let modulus_8_alt: u32 = 239;
    let data = b"test";
    let result1 = koopman8_with_modulus(data, 0, MODULUS_8);
    let result2 = koopman8_with_modulus(data, 0, modulus_8_alt);

    // Different moduli should (usually) produce different results
    // Note: They could theoretically be equal, but very unlikely
    assert_ne!(result1, result2);
}

#[test]
fn test_custom_modulus_matches_default() {
    let data = b"test data";

    assert_eq!(koopman8(data, 0), koopman8_with_modulus(data, 0, MODULUS_8));
    assert_eq!(koopman16(data, 0), koopman16_with_modulus(data, 0, MODULUS_16));
    assert_eq!(koopman32(data, 0), koopman32_with_modulus(data, 0, MODULUS_32));
}

#[test]
fn test_parity_custom_modulus_matches_default() {
    let data = b"test data";

    assert_eq!(koopman8p(data, 0), koopman8p_with_modulus(data, 0, MODULUS_7P));
    assert_eq!(koopman16p(data, 0), koopman16p_with_modulus(data, 0, MODULUS_15P));
    assert_eq!(koopman32p(data, 0), koopman32p_with_modulus(data, 0, MODULUS_31P));
}

#[test]
fn test_streaming_with_seed() {
    let data = b"test data";
    let seed = 42u8;

    // One-shot with seed
    let expected = koopman16(data, seed);

    // Streaming with seed
    let mut hasher = Koopman16::with_seed(seed);
    hasher.update(data);
    let streaming = hasher.finalize();

    assert_eq!(expected, streaming);
}

#[test]
fn test_streaming_with_seed_chunked() {
    let data = b"test data for chunked processing";
    let seed = 123u8;

    let expected = koopman16(data, seed);

    let mut hasher = Koopman16::with_seed(seed);
    hasher.update(&data[..10]);
    hasher.update(&data[10..20]);
    hasher.update(&data[20..]);
    let streaming = hasher.finalize();

    assert_eq!(expected, streaming);
}

#[test]
fn test_reset_without_seed() {
    let data = b"test";

    let mut hasher = Koopman16::new();
    hasher.update(data);
    let first = hasher.finalize();

    let mut hasher = Koopman16::new();
    hasher.update(b"other data");
    hasher.reset();
    hasher.update(data);
    let after_reset = hasher.finalize();

    assert_eq!(first, after_reset);
}

#[test]
fn test_reset_preserves_seed() {
    let data = b"test";
    let seed = 42u8;

    // First computation with seed
    let mut hasher = Koopman16::with_seed(seed);
    hasher.update(data);
    let first = hasher.finalize();

    // Computation after reset should produce same result
    let mut hasher = Koopman16::with_seed(seed);
    hasher.update(b"garbage data");
    hasher.reset();
    hasher.update(data);
    let after_reset = hasher.finalize();

    assert_eq!(first, after_reset);
}

#[test]
fn test_reset_all_variants() {
    let data = b"test";

    // Koopman8
    let mut h8 = Koopman8::with_seed(10);
    h8.update(b"junk");
    h8.reset();
    h8.update(data);
    assert_eq!(h8.finalize(), koopman8(data, 10));

    // Koopman16
    let mut h16 = Koopman16::with_seed(20);
    h16.update(b"junk");
    h16.reset();
    h16.update(data);
    assert_eq!(h16.finalize(), koopman16(data, 20));

    // Koopman32
    let mut h32 = Koopman32::with_seed(30);
    h32.update(b"junk");
    h32.reset();
    h32.update(data);
    assert_eq!(h32.finalize(), koopman32(data, 30));
}

#[test]
fn test_two_bit_error_detection() {
    // Test that most two-bit errors are detected
    // Note: HD=3 means we detect ALL 1-bit and 2-bit errors
    let data = b"Test";
    let original = koopman16(data, 0);
    let mut detected: u32 = 0;
    let mut total: u32 = 0;

    for i in 0..data.len() {
        for j in i..data.len() {
            for bit_i in 0..8 {
                for bit_j in 0..8 {
                    if i == j && bit_i == bit_j {
                        continue; // Skip single-bit errors
                    }
                    total += 1;
                    let mut corrupted = data.to_vec();
                    corrupted[i] ^= 1 << bit_i;
                    corrupted[j] ^= 1 << bit_j;
                    if koopman16(&corrupted, 0) != original {
                        detected += 1;
                    }
                }
            }
        }
    }

    // Should detect all two-bit errors for data within HD=3 length
    assert_eq!(detected, total, "Should detect all two-bit errors");
}

#[test]
fn test_streaming_empty_updates() {
    let data = b"test";

    let mut hasher = Koopman16::new();
    hasher.update(&[]); // Empty update
    hasher.update(data);
    hasher.update(&[]); // Another empty update

    assert_eq!(hasher.finalize(), koopman16(data, 0));
}

#[test]
fn test_streaming_byte_by_byte() {
    let data = b"test data";

    let mut hasher = Koopman16::new();
    for &byte in data {
        hasher.update(&[byte]);
    }

    assert_eq!(hasher.finalize(), koopman16(data, 0));
}

#[test]
fn test_finalize_without_data() {
    let hasher = Koopman16::new();
    assert_eq!(hasher.finalize(), 0);

    let hasher_with_seed = Koopman16::with_seed(42);
    assert_eq!(hasher_with_seed.finalize(), 0);
}

#[test]
fn test_streaming_parity_koopman8p() {
    let data = b"test";
    let expected = koopman8p(data, 0);

    let mut hasher = Koopman8P::new();
    hasher.update(&data[..2]);
    hasher.update(&data[2..]);
    let streaming = hasher.finalize();

    assert_eq!(expected, streaming);
}

#[test]
fn test_streaming_parity_koopman16p() {
    let data = b"test data";
    let expected = koopman16p(data, 0);

    let mut hasher = Koopman16P::new();
    hasher.update(&data[..4]);
    hasher.update(&data[4..]);
    let streaming = hasher.finalize();

    assert_eq!(expected, streaming);
}

#[test]
fn test_streaming_parity_koopman32p() {
    let data = b"test data for streaming";
    let expected = koopman32p(data, 0);

    let mut hasher = Koopman32P::new();
    hasher.update(&data[..10]);
    hasher.update(&data[10..]);
    let streaming = hasher.finalize();

    assert_eq!(expected, streaming);
}

#[test]
fn test_streaming_parity_with_seed() {
    let data = b"test";
    let seed = 42u8;

    let expected = koopman16p(data, seed);

    let mut hasher = Koopman16P::with_seed(seed);
    hasher.update(data);
    let streaming = hasher.finalize();

    assert_eq!(expected, streaming);
}

#[test]
fn test_verify_parity() {
    let data = b"test data";

    let cs8p = koopman8p(data, 0);
    assert!(verify8p(data, cs8p, 0));
    assert!(!verify8p(data, cs8p.wrapping_add(1), 0));

    let cs16p = koopman16p(data, 0);
    assert!(verify16p(data, cs16p, 0));
    assert!(!verify16p(data, cs16p.wrapping_add(1), 0));

    let cs32p = koopman32p(data, 0);
    assert!(verify32p(data, cs32p, 0));
    assert!(!verify32p(data, cs32p.wrapping_add(1), 0));
}

#[test]
fn test_streaming_with_custom_modulus() {
    let data = b"test data";

    // Test that streaming with default modulus matches one-shot
    let mut hasher = Koopman16::with_modulus(MODULUS_16);
    hasher.update(data);
    assert_eq!(hasher.finalize(), koopman16(data, 0));

    // Test with a different modulus
    let alt_modulus = 32749u32;
    let mut hasher = Koopman16::with_modulus(alt_modulus);
    hasher.update(data);
    let streaming = hasher.finalize();

    // Should produce a valid result (just verify it's deterministic)
    let mut hasher2 = Koopman16::with_modulus(alt_modulus);
    hasher2.update(data);
    assert_eq!(streaming, hasher2.finalize());
}
