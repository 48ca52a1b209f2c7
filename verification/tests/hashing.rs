use substrate_airgapped_types::hashing::{blake2_256, blake2_256_into, DIGEST_LEN};

const EMPTY_DIGEST: [u8; 32] = [
    0x0e, 0x57, 0x51, 0xc0, 0x26, 0xe5, 0x43, 0xb2, 0xe8, 0xab, 0x2e, 0xb0, 0x60, 0x99, 0xda, 0xa1,
    0xd1, 0xe5, 0xdf, 0x47, 0x77, 0x8f, 0x77, 0x87, 0xfa, 0xab, 0x45, 0xcd, 0xf1, 0x2f, 0xe3, 0xa8,
];

const ABC_DIGEST: [u8; 32] = [
    0xbd, 0xdd, 0x81, 0x3c, 0x63, 0x42, 0x39, 0x72, 0x31, 0x71, 0xef, 0x3f, 0xee, 0x98, 0x57, 0x9b,
    0x94, 0x96, 0x4e, 0x3b, 0xb1, 0xcb, 0x3e, 0x42, 0x72, 0x62, 0xc8, 0xc0, 0x68, 0xd5, 0x23, 0x19,
];

#[test]
fn digest_of_empty_input_is_the_known_value() {
    assert_eq!(blake2_256(&[]), EMPTY_DIGEST);
}

#[test]
fn digest_of_abc_is_the_known_value() {
    assert_eq!(blake2_256(b"abc"), ABC_DIGEST);
}

#[test]
fn digest_has_thirty_two_bytes() {
    assert_eq!(DIGEST_LEN, 32);
    assert_eq!(blake2_256(b"abc").len(), DIGEST_LEN);
}

#[test]
fn digest_is_deterministic() {
    let data: Vec<u8> = (0..1000u32).map(|i| (i % 251) as u8).collect();
    let first = blake2_256(&data);
    let second = blake2_256(&data);
    assert_eq!(first, second);
}

#[test]
fn digest_tells_inputs_apart() {
    assert_ne!(blake2_256(b"abc"), blake2_256(b"abd"));
    assert_ne!(blake2_256(&[]), blake2_256(&[0]));
}

#[test]
fn digest_into_matches_digest() {
    let data = b"The quick brown fox jumps over the lazy dog";
    let mut dest = [0u8; 32];
    blake2_256_into(data, &mut dest);
    assert_eq!(dest, blake2_256(data));
}

#[test]
fn digest_into_overwrites_what_was_there() {
    let mut dest = [0xffu8; 32];
    blake2_256_into(&[], &mut dest);
    assert_eq!(dest, EMPTY_DIGEST);
}

#[test]
fn digest_into_of_a_long_input_matches_digest() {
    let data = vec![7u8; 4096];
    let mut dest = [0u8; 32];
    blake2_256_into(&data, &mut dest);
    assert_eq!(dest, blake2_256(&data));
    assert_ne!(dest, [0u8; 32]);
}
