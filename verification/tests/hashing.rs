use charity_ledger::keccak_256;

/// The well-known Keccak-256 digest of the empty byte string.
const EMPTY_DIGEST: [u8; 32] = [
    0xc5, 0xd2, 0x46, 0x01, 0x86, 0xf7, 0x23, 0x3c, 0x92, 0x7e, 0x7d, 0xb2, 0xdc, 0xc7, 0x03,
    0xc0, 0xe5, 0x00, 0xb6, 0x53, 0xca, 0x82, 0x27, 0x3b, 0x7b, 0xfa, 0xd8, 0x04, 0x5d, 0x85,
    0xa4, 0x70,
];

/// The well-known Keccak-256 digest of the bytes `abc`.
const ABC_DIGEST: [u8; 32] = [
    0x4e, 0x03, 0x65, 0x7a, 0xea, 0x45, 0xa9, 0x4f, 0xc7, 0xd4, 0x7b, 0xa8, 0x26, 0xc8, 0xd6,
    0x67, 0xc0, 0xd1, 0xe6, 0xe3, 0x3a, 0x64, 0xa0, 0x36, 0xec, 0x44, 0xf5, 0x8f, 0xa1, 0x2d,
    0x6c, 0x45,
];

#[test]
fn test_keccak_256_of_empty_input() {
    let digest = keccak_256(&[]);
    assert_eq!(digest.as_slice(), EMPTY_DIGEST.as_slice());
}

#[test]
fn test_keccak_256_of_abc() {
    let digest = keccak_256(b"abc");
    assert_eq!(digest.as_slice(), ABC_DIGEST.as_slice());
}

#[test]
fn test_keccak_256_distinguishes_inputs() {
    let a = keccak_256(b"product");
    let b = keccak_256(b"products");
    assert_eq!(a.len(), 32);
    assert_eq!(b.len(), 32);
    assert_ne!(a, b);
}
