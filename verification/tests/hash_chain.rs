use allowlist_mint::hash_chain::{combine, hash, hash_eq, hash_le, leaf, leaf_with_position};

const X: [u8; 32] = [7u8; 32];
const Y: [u8; 32] = [9u8; 32];

const LEAF_X: [u8; 32] = [
    0x4b, 0xb0, 0x6f, 0x8e, 0x4e, 0x3a, 0x77, 0x15, 0xd2, 0x01, 0xd5, 0x73, 0xd0, 0xaa, 0x42, 0x37,
    0x62, 0xe5, 0x5d, 0xab, 0xd6, 0x1a, 0x2c, 0x02, 0x27, 0x8f, 0xa5, 0x6c, 0xc6, 0xd2, 0x94, 0xe0,
];

#[test]
fn leaf_is_sha256_of_identity() {
    // SHA-256 of 32 zero bytes.
    let expected: [u8; 32] = [
        0x66, 0x68, 0x7a, 0xad, 0xf8, 0x62, 0xbd, 0x77, 0x6c, 0x8f, 0xc1, 0x8b, 0x8e, 0x9f, 0x8e,
        0x20, 0x08, 0x97, 0x14, 0x85, 0x6e, 0xe2, 0x33, 0xb3, 0x90, 0x2a, 0x59, 0x1d, 0x0d, 0x5f,
        0x29, 0x25,
    ];
    assert_eq!(leaf(&[0u8; 32]), expected);
    assert_eq!(hash(&[0u8; 32]), expected);
    assert_eq!(leaf(&X), LEAF_X);
    assert_ne!(leaf(&X), X);
}

#[test]
fn leaf_with_position_appends_the_position_low_byte_first() {
    let expected: [u8; 32] = [
        0x41, 0xa3, 0xfd, 0x74, 0x7f, 0x2c, 0x9d, 0x05, 0xe4, 0xfd, 0x4e, 0x19, 0xc5, 0x0c, 0xc8,
        0x77, 0xac, 0x23, 0x81, 0xe8, 0xfc, 0xb2, 0xae, 0x9d, 0x9b, 0xbc, 0x0f, 0x64, 0xef, 0x5b,
        0xd4, 0x2a,
    ];
    assert_eq!(leaf_with_position(&X, 0x0102), expected);
    let mut joined = X.to_vec();
    joined.extend_from_slice(&[0x02, 0x01]);
    assert_eq!(leaf_with_position(&X, 0x0102), hash(&joined));
    assert_ne!(leaf_with_position(&X, 0), leaf(&X));
}

#[test]
fn combine_hashes_the_smaller_node_first() {
    let expected: [u8; 32] = [
        0x83, 0x68, 0xf2, 0xcf, 0x96, 0x4e, 0xdd, 0x5b, 0x16, 0x84, 0xa1, 0xe7, 0x81, 0x60, 0x0f,
        0xe2, 0xfe, 0x83, 0xf7, 0x37, 0x5c, 0xd3, 0x11, 0xc1, 0x4e, 0x61, 0xab, 0xd5, 0x3b, 0xa9,
        0x29, 0xc4,
    ];
    let lx = leaf(&X);
    let ly = leaf(&Y);
    assert_eq!(combine(&lx, &ly), expected);
    let mut joined = lx.to_vec();
    joined.extend_from_slice(&ly);
    assert!(lx <= ly);
    assert_eq!(combine(&lx, &ly), hash(&joined));
}

#[test]
fn combine_is_commutative_on_samples() {
    let mut samples: Vec<[u8; 32]> = vec![[0u8; 32], [255u8; 32], X, Y, leaf(&X), leaf(&Y)];
    let mut odd = [1u8; 32];
    odd[31] = 2;
    samples.push(odd);
    for a in samples.iter() {
        for b in samples.iter() {
            assert_eq!(combine(a, b), combine(b, a));
        }
    }
}

#[test]
fn combine_of_a_node_with_itself() {
    let mut joined = X.to_vec();
    joined.extend_from_slice(&X);
    assert_eq!(combine(&X, &X), hash(&joined));
}

#[test]
fn hash_le_is_dictionary_order() {
    let a = [1u8; 32];
    let mut b = [1u8; 32];
    b[31] = 2;
    let mut c = [1u8; 32];
    c[0] = 0;
    c[31] = 255;
    assert!(hash_le(&a, &b));
    assert!(!hash_le(&b, &a));
    assert!(hash_le(&a, &a));
    assert!(hash_le(&c, &a));
    assert!(!hash_le(&a, &c));
    for p in [a, b, c].iter() {
        for q in [a, b, c].iter() {
            assert_eq!(hash_le(p, q), p <= q);
        }
    }
}

#[test]
fn hash_eq_compares_every_byte() {
    let a = [1u8; 32];
    let mut b = [1u8; 32];
    assert!(hash_eq(&a, &b));
    b[31] = 2;
    assert!(!hash_eq(&a, &b));
    b[31] = 1;
    b[0] = 0;
    assert!(!hash_eq(&a, &b));
}
