use std::collections::hash_map::DefaultHasher;
use std::hash::{Hash, Hasher};
use vclip_media::scene_hash::{compute_scene_hash_from_bytes, hash_bit_difference};

#[test]
fn test_scene_hash_from_bytes() {
    let pixels = vec![128u8; 100 * 100 * 3];
    let hash = compute_scene_hash_from_bytes(&pixels, 100, 100);
    assert!(hash != 0);

    // Same pixels should give same hash
    let hash2 = compute_scene_hash_from_bytes(&pixels, 100, 100);
    assert_eq!(hash, hash2);
}

#[test]
fn empty_input_hashes_to_zero() {
    assert_eq!(compute_scene_hash_from_bytes(&[], 10, 10), 0);
    assert_eq!(compute_scene_hash_from_bytes(&[1, 2, 3], 0, 10), 0);
    assert_eq!(compute_scene_hash_from_bytes(&[1, 2, 3], 10, 0), 0);
}

#[test]
fn hash_is_default_hasher_over_sampled_bytes() {
    let pixels: Vec<u8> = (0..300u32).map(|i| (i * 7 % 251) as u8).collect();
    // 10x10 RGB: 300 bytes, stride 300 / 64 = 4.
    let mut h = DefaultHasher::new();
    for i in (0..pixels.len()).step_by(4) {
        pixels[i].hash(&mut h);
    }
    assert_eq!(compute_scene_hash_from_bytes(&pixels, 10, 10), h.finish());
    // Tiny frame: stride 1, every byte sampled.
    let small = [9u8, 8, 7];
    let mut h = DefaultHasher::new();
    for b in small.iter() {
        b.hash(&mut h);
    }
    assert_eq!(compute_scene_hash_from_bytes(&small, 1, 1), h.finish());
}

#[test]
fn hash_bit_difference_counts_differing_bits() {
    assert_eq!(hash_bit_difference(12345, 12345), 0);
    assert_eq!(hash_bit_difference(0, u64::MAX), 64);
    assert_eq!(hash_bit_difference(0b1010, 0b0110), 2);
    assert_eq!(hash_bit_difference(1 << 63, 0), 1);
}
