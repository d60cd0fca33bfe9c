//! The binary buffer contract: exact byte images, padding, and the
//! correspondence between coordinate words and single-precision values.

use voronoi_sites::site::{encode_sites, Site, SITE_BYTES, UNIT_ONE_BITS};

fn site(x: f32, y: f32) -> Site {
    Site { x_bits: x.to_bits(), y_bits: y.to_bits() }
}

#[test]
fn unit_one_bits_is_the_pattern_of_one() {
    assert_eq!(UNIT_ONE_BITS, 1.0f32.to_bits());
}

#[test]
fn unit_interval_matches_word_order() {
    // Values in [0, 1] sit at or below the pattern of one ...
    assert!(0.0f32.to_bits() <= UNIT_ONE_BITS);
    assert!(0.25f32.to_bits() <= UNIT_ONE_BITS);
    assert!(0.9999999f32.to_bits() <= UNIT_ONE_BITS);
    assert!(1.0f32.to_bits() <= UNIT_ONE_BITS);
    // ... and everything outside it sits above: larger magnitudes, the
    // negative range including the negative zero, and not-a-number.
    assert!(1.0000001f32.to_bits() > UNIT_ONE_BITS);
    assert!(2.0f32.to_bits() > UNIT_ONE_BITS);
    assert!((-0.0f32).to_bits() > UNIT_ONE_BITS);
    assert!((-0.1f32).to_bits() > UNIT_ONE_BITS);
    assert!(f32::NAN.to_bits() > UNIT_ONE_BITS);
    assert!(f32::INFINITY.to_bits() > UNIT_ONE_BITS);
}

#[test]
fn one_record_is_sixteen_bytes() {
    let bytes = encode_sites(&vec![site(0.25, 1.0)]);
    assert_eq!(bytes.len(), SITE_BYTES);
    assert_eq!(bytes.len(), 16);
}

#[test]
fn record_bytes_match_the_little_endian_values() {
    let bytes = encode_sites(&vec![site(0.25, 1.0)]);
    assert_eq!(&bytes[0..4], &0.25f32.to_le_bytes());
    assert_eq!(&bytes[4..8], &1.0f32.to_le_bytes());
}

#[test]
fn padding_words_are_zero() {
    let bytes = encode_sites(&vec![site(0.75, 0.5), site(1.0, 0.0)]);
    for rec in 0..2 {
        for k in 8..16 {
            assert_eq!(bytes[16 * rec + k], 0);
        }
    }
}

#[test]
fn records_are_tightly_packed_in_site_order() {
    let sites = vec![site(0.0, 0.1), site(0.5, 0.25), site(1.0, 0.75)];
    let bytes = encode_sites(&sites);
    assert_eq!(bytes.len(), 48);
    for (i, s) in sites.iter().enumerate() {
        let at = 16 * i;
        assert_eq!(&bytes[at..at + 4], &s.x_bits.to_le_bytes());
        assert_eq!(&bytes[at + 4..at + 8], &s.y_bits.to_le_bytes());
    }
}

#[test]
fn empty_snapshot_encodes_to_no_bytes() {
    let bytes = encode_sites(&Vec::new());
    assert_eq!(bytes.len(), 0);
}

#[test]
fn equal_snapshots_give_byte_identical_images() {
    let a = vec![site(0.1, 0.9), site(0.3, 0.7)];
    let b = vec![site(0.1, 0.9), site(0.3, 0.7)];
    assert_eq!(encode_sites(&a), encode_sites(&b));
}

#[test]
fn different_snapshots_give_different_images() {
    let a = vec![site(0.1, 0.9)];
    let b = vec![site(0.1, 0.8)];
    assert_ne!(encode_sites(&a), encode_sites(&b));
}
