use std::collections::hash_map::DefaultHasher;
use std::hash::{Hash, Hasher};
use uid_encoder::hash::SEED;
use uid_encoder::{gx_hash_uid128, gx_hash_uid64, hash_identifier, hash_uid, HashWidth, Identifier};
use uuid::Uuid;

fn sample_bytes() -> [u8; 16] {
    [
        0xc4, 0xd3, 0x3c, 0x4e, 0x74, 0xac, 0x49, 0x52, 0xba, 0x43, 0xd4, 0x54, 0xbe, 0x17, 0x6b,
        0xd6,
    ]
}

#[test]
fn the_default_seed() {
    assert_eq!(SEED, 1234);
}

#[test]
fn identifier_keeps_its_bytes() {
    let id = Identifier::from_bytes(sample_bytes());
    assert_eq!(*id.as_bytes(), sample_bytes());
    assert_eq!(id, Identifier::from_bytes(sample_bytes()));
    assert_ne!(id, Identifier::from_bytes([0; 16]));
}

#[test]
fn identifier_of_a_uuid() {
    let uid = Uuid::parse_str("c4d33c4e-74ac-4952-ba43-d454be176bd6").unwrap();
    let id = Identifier::from_bytes(*uid.as_bytes());
    assert_eq!(*id.as_bytes(), sample_bytes());
}

#[test]
fn hash_64_is_the_seeded_hash_of_the_bytes() {
    let id = Identifier::from_bytes(sample_bytes());
    for seed in [0i64, 1, 1234, -1, i64::MAX, i64::MIN] {
        assert_eq!(
            hash_identifier(&id, HashWidth::Bits64, seed),
            gxhash::gxhash64(&sample_bytes(), seed) as u128
        );
    }
}

#[test]
fn hash_128_is_the_seeded_hash_of_the_bytes() {
    let id = Identifier::from_bytes(sample_bytes());
    for seed in [0i64, 1, 1234, -1, i64::MAX, i64::MIN] {
        assert_eq!(
            hash_identifier(&id, HashWidth::Bits128, seed),
            gxhash::gxhash128(&sample_bytes(), seed)
        );
    }
}

#[test]
fn hash_64_fits_in_64_bits() {
    for first in 0..=255u8 {
        let mut bytes = sample_bytes();
        bytes[0] = first;
        let id = Identifier::from_bytes(bytes);
        assert!(hash_identifier(&id, HashWidth::Bits64, SEED) <= u64::MAX as u128);
    }
}

#[test]
fn hash_depends_on_the_seed() {
    let id = Identifier::from_bytes(sample_bytes());
    assert_ne!(
        hash_identifier(&id, HashWidth::Bits64, 1),
        hash_identifier(&id, HashWidth::Bits64, 2)
    );
    assert_ne!(
        hash_identifier(&id, HashWidth::Bits128, 1),
        hash_identifier(&id, HashWidth::Bits128, 2)
    );
}

#[test]
fn hash_is_not_the_identifier_itself() {
    let id = Identifier::from_bytes(sample_bytes());
    assert_ne!(hash_identifier(&id, HashWidth::Bits64, SEED), SEED as u128);
    assert_ne!(
        hash_identifier(&id, HashWidth::Bits64, SEED),
        u64::from_le_bytes([0xc4, 0xd3, 0x3c, 0x4e, 0x74, 0xac, 0x49, 0x52]) as u128
    );
    assert_ne!(
        hash_identifier(&id, HashWidth::Bits128, SEED),
        u128::from_le_bytes(sample_bytes())
    );
    assert_ne!(
        hash_identifier(&id, HashWidth::Bits128, SEED),
        u128::from_be_bytes(sample_bytes())
    );
}

#[test]
fn gx_hash_uid64_is_the_decimal_hash() {
    let id = Identifier::from_bytes(sample_bytes());
    assert_eq!(
        gx_hash_uid64(id),
        gxhash::gxhash64(&sample_bytes(), 1234).to_string()
    );
}

#[test]
fn gx_hash_uid128_is_the_decimal_hash() {
    let id = Identifier::from_bytes(sample_bytes());
    assert_eq!(
        gx_hash_uid128(id),
        gxhash::gxhash128(&sample_bytes(), 1234).to_string()
    );
}

#[test]
fn hash_uid_is_the_decimal_default_hash_of_the_uuid() {
    let uid = Uuid::from_bytes(sample_bytes());
    let mut hasher = DefaultHasher::new();
    uid.hash(&mut hasher);
    let expected = hasher.finish().to_string();
    assert_eq!(hash_uid(Identifier::from_bytes(sample_bytes())), expected);
}

#[test]
fn hash_uid_hashes_the_sixteen_bytes_in_one_write() {
    let mut hasher = DefaultHasher::new();
    hasher.write(&sample_bytes());
    let expected = hasher.finish().to_string();
    assert_eq!(hash_uid(Identifier::from_bytes(sample_bytes())), expected);
}

#[test]
fn hash_uid_depends_on_the_identifier() {
    let a = Identifier::from_bytes([0; 16]);
    let b = Identifier::from_bytes(sample_bytes());
    assert_ne!(hash_uid(a), hash_uid(b));
    assert_ne!(hash_uid(a), DefaultHasher::new().finish().to_string());
}

#[test]
fn natural_lengths() {
    for first in 0..=255u8 {
        let mut bytes = sample_bytes();
        bytes[0] = first;
        let id = Identifier::from_bytes(bytes);
        let short = gx_hash_uid64(id).len();
        let long = gx_hash_uid128(id).len();
        let plain = hash_uid(id).len();
        assert!(1 <= short && short <= 20);
        assert!(1 <= long && long <= 39);
        assert!(1 <= plain && plain <= 20);
    }
}

#[test]
fn hashes_are_repeatable() {
    let id = Identifier::from_bytes(sample_bytes());
    assert_eq!(gx_hash_uid64(id), gx_hash_uid64(id));
    assert_eq!(gx_hash_uid128(id), gx_hash_uid128(id));
    assert_eq!(hash_uid(id), hash_uid(id));
}
