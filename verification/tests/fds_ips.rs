use nes::fds::ips::{IpsError, MAX_RECORD_LEN, apply, encode};

const MAGIC: &[u8; 5] = b"PATCH";
const EOF_MARKER: &[u8; 3] = b"EOF";

#[test]
fn empty_diff_produces_magic_plus_eof_only() {
    let base = vec![1u8, 2, 3, 4, 5];
    let patch = encode(&base, &base).unwrap();
    assert_eq!(&patch[0..5], MAGIC);
    assert_eq!(&patch[5..8], EOF_MARKER);
    assert_eq!(patch.len(), 8);
}

#[test]
fn single_byte_diff_roundtrips() {
    let base = vec![0u8; 32];
    let mut new = base.clone();
    new[7] = 0xAB;
    let patch = encode(&base, &new).unwrap();
    let applied = apply(&base, &patch).unwrap();
    assert_eq!(applied, new);
}

#[test]
fn multiple_scattered_diffs_roundtrip() {
    let base = vec![0u8; 1024];
    let mut new = base.clone();
    new[0] = 1;
    new[500] = 2;
    new[1023] = 3;
    let patch = encode(&base, &new).unwrap();
    let applied = apply(&base, &patch).unwrap();
    assert_eq!(applied, new);
}

#[test]
fn contiguous_diffs_merge_into_one_record() {
    let base = vec![0u8; 16];
    let mut new = base.clone();
    for i in 4..10 {
        new[i] = i as u8;
    }
    let patch = encode(&base, &new).unwrap();
    assert_eq!(patch.len(), 19);
    let applied = apply(&base, &patch).unwrap();
    assert_eq!(applied, new);
}

#[test]
fn run_longer_than_max_record_splits() {
    let len = MAX_RECORD_LEN + 2;
    let base = vec![0u8; len];
    let new = vec![0xFFu8; len];
    let patch = encode(&base, &new).unwrap();
    let applied = apply(&base, &patch).unwrap();
    assert_eq!(applied, new);
}

#[test]
fn apply_rejects_missing_magic() {
    let err = apply(&[0u8; 4], b"NOPE\x00EOF").unwrap_err();
    assert!(matches!(err, IpsError::BadMagic));
}

#[test]
fn apply_handles_rle_record() {
    let mut patch = Vec::new();
    patch.extend_from_slice(MAGIC);
    patch.extend_from_slice(&[0x00, 0x00, 0x08]);
    patch.extend_from_slice(&[0x00, 0x00]);
    patch.extend_from_slice(&[0x00, 0x08, 0xAA]);
    patch.extend_from_slice(EOF_MARKER);

    let base = vec![0u8; 32];
    let out = apply(&base, &patch).unwrap();
    for i in 0..32 {
        let expected = if (8..16).contains(&i) { 0xAA } else { 0 };
        assert_eq!(out[i], expected, "byte {i}");
    }
}

#[test]
fn apply_rejects_truncated_record() {
    let mut patch = Vec::new();
    patch.extend_from_slice(MAGIC);
    patch.extend_from_slice(&[0x00, 0x00, 0x00]);
    patch.extend_from_slice(&[0x00, 0x05]);
    let base = vec![0u8; 16];
    assert!(matches!(apply(&base, &patch), Err(IpsError::Truncated)));
}

#[test]
fn apply_rejects_oob_record() {
    let mut patch = Vec::new();
    patch.extend_from_slice(MAGIC);
    patch.extend_from_slice(&[0x00, 0x00, 0x0C]);
    patch.extend_from_slice(&[0x00, 0x10]);
    patch.extend_from_slice(&[0u8; 16]);
    patch.extend_from_slice(EOF_MARKER);
    let base = vec![0u8; 16];
    assert!(matches!(apply(&base, &patch), Err(IpsError::OffsetTooLarge(_))));
}

#[test]
fn random_mutation_fuzz_roundtrip() {
    let mut seed: u32 = 0xDEAD_BEEF;
    let mut rand = || -> u8 {
        seed = seed.wrapping_mul(1_664_525).wrapping_add(1_013_904_223);
        (seed >> 24) as u8
    };

    for _ in 0..50 {
        let size = 1024 + (rand() as usize) * 8;
        let base: Vec<u8> = (0..size).map(|_| rand()).collect();
        let mut new = base.clone();
        for _ in 0..20 {
            let i = (rand() as usize) % size;
            new[i] = rand();
        }
        let patch = encode(&base, &new).unwrap();
        let applied = apply(&base, &patch).unwrap();
        assert_eq!(applied, new);
    }
}

#[test]
fn trailing_bytes_after_eof_are_ignored() {
    let base = vec![0u8; 4];
    let mut patch = encode(&base, &[1u8, 2, 3, 4]).unwrap();
    patch.extend_from_slice(b"trailing garbage here");
    let out = apply(&base, &patch).unwrap();
    assert_eq!(out, vec![1, 2, 3, 4]);
}
