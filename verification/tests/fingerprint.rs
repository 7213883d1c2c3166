use picture_upload::hasher::{fingerprint, hash};

#[test]
fn fingerprint_keeps_the_low_31_bits() {
    assert_eq!(fingerprint(0), 0);
    assert_eq!(fingerprint(0x7fff_ffff), 0x7fff_ffff);
    assert_eq!(fingerprint(0x8000_0000), 0);
    assert_eq!(fingerprint(0xffff_ffff_ffff_ffff), 0x7fff_ffff);
    assert_eq!(fingerprint(0x1234_5678_9abc_def0), 0x1abc_def0);
}

#[test]
fn hash_of_known_text() {
    let bytes = b"to be or not to be".to_vec();
    assert_eq!(hash(&bytes), 1867179381);
}

#[test]
fn hash_is_the_masked_seahash_digest() {
    let inputs: Vec<Vec<u8>> = vec![
        vec![],
        vec![0],
        vec![1, 2, 3],
        (0..=255u8).collect(),
        vec![0xff; 1000],
    ];
    for bytes in inputs {
        assert_eq!(hash(&bytes), (seahash::hash(&bytes) & 0x7fff_ffff) as i32);
    }
}

#[test]
fn hash_never_negative() {
    for seed in 0..500u32 {
        let bytes: Vec<u8> = (0..64u32).map(|i| (i.wrapping_mul(seed + 1) >> 3) as u8).collect();
        assert!(hash(&bytes) >= 0);
    }
}

#[test]
fn equal_bytes_have_equal_hashes() {
    let one = vec![9u8, 8, 7, 6, 5];
    let other = one.clone();
    assert_eq!(hash(&one), hash(&other));
    assert_eq!(hash(&one), hash(&one));
}

#[test]
fn hash_depends_on_the_order_of_bytes() {
    assert_ne!(hash(&vec![1u8, 2, 3, 4]), hash(&vec![4u8, 3, 2, 1]));
}
