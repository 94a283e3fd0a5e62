use nes::fds::ips::{apply, encode, IpsError, EOF_OFFSET, MAX_OFFSET};
use nes::mem::{bank_offset, count_banks, poke_ram, reload, set_high_byte, set_low_byte};
use nes::text::push_decimal;

#[test]
fn patch_bytes_are_as_the_format_has_them() {
    let base = vec![0u8; 0x300];
    let mut new = base.clone();
    new[0x102] = 7;
    new[0x103] = 8;
    let patch = encode(&base, &new).unwrap();
    assert_eq!(
        patch,
        vec![
            0x50, 0x41, 0x54, 0x43, 0x48, 0x00, 0x01, 0x02, 0x00, 0x02, 7, 8, 0x45, 0x4F, 0x46
        ]
    );
    assert_eq!(apply(&base, &patch), Ok(new));
}

#[test]
fn an_empty_patch_changes_nothing() {
    let base = vec![9u8; 10];
    let patch = encode(&base, &base).unwrap();
    assert_eq!(patch.len(), 8);
    assert_eq!(apply(&base, &patch), Ok(base));
}

#[test]
fn too_large_a_file_is_refused() {
    let size = MAX_OFFSET as usize + 2;
    let base = vec![0u8; size];
    let error = encode(&base, &base).unwrap_err();
    assert_eq!(error, IpsError::FileTooLarge(size));
    assert_eq!(
        error.message(),
        "target file is 16777217 bytes; IPS supports at most 16777216 bytes"
    );
}

#[test]
fn a_record_at_the_terminators_offset_is_refused() {
    let base = vec![0u8; EOF_OFFSET as usize + 2];
    let mut new = base.clone();
    new[EOF_OFFSET as usize] = 1;
    let error = encode(&base, &new).unwrap_err();
    assert_eq!(error, IpsError::OffsetTooLarge(4_542_790));
    assert_eq!(error.message(), "IPS patch offset 4542790 exceeds 24-bit maximum");
    new[EOF_OFFSET as usize - 1] = 1;
    let patch = encode(&base, &new).unwrap();
    assert_eq!(apply(&base, &patch), Ok(new));
}

#[test]
fn damaged_patches_are_refused() {
    let base = vec![0u8; 16];
    assert_eq!(apply(&base, b"PATCHEO"), Err(IpsError::BadMagic));
    assert_eq!(apply(&base, b"PATCX\x45\x4F\x46"), Err(IpsError::BadMagic));
    assert_eq!(apply(&base, b"PATCH\x00\x00\x00"), Err(IpsError::Truncated));
    assert_eq!(apply(&base, b"PATCH\x00\x00\x00\x00\x01\x07"), Err(IpsError::Truncated));
    assert_eq!(apply(&base, b"PATCH\x00\x00\x00\x00\x00\x00\x01"), Err(IpsError::Truncated));
    assert_eq!(IpsError::BadMagic.message(), "IPS patch missing 'PATCH' magic");
    assert_eq!(IpsError::Truncated.message(), "IPS patch truncated mid-record");
}

#[test]
fn a_run_record_past_the_end_is_refused() {
    let base = vec![0u8; 16];
    let good = b"PATCH\x00\x00\x0E\x00\x00\x00\x02\x33EOF";
    let mut expected = base.clone();
    expected[14] = 0x33;
    expected[15] = 0x33;
    assert_eq!(apply(&base, good), Ok(expected));
    let bad = b"PATCH\x00\x00\x0E\x00\x00\x00\x03\x33EOF";
    assert!(matches!(apply(&base, bad), Err(IpsError::OffsetTooLarge(_))));
}

#[test]
fn decimal_text() {
    let mut text = String::from("n = ");
    push_decimal(&mut text, 0);
    push_decimal(&mut text, 907);
    assert_eq!(text, "n = 0907");
    let mut large = String::new();
    push_decimal(&mut large, usize::MAX);
    assert_eq!(large, usize::MAX.to_string());
}

#[test]
fn bank_arithmetic() {
    let mem = vec![0u8; 0xA000];
    assert_eq!(count_banks(&mem, 0x4000), 2);
    assert_eq!(count_banks(&Vec::new(), 0x4000), 1);
    assert_eq!(bank_offset(&mem, 2, 1, 0x4000, 0xC123), 0x4123);
    assert_eq!(set_low_byte(0x1234, 0x56), 0x1256);
    assert_eq!(set_high_byte(0x1234, 0x56), 0x5634);
}

#[test]
fn battery_ram_is_dirty_once_a_byte_changes() {
    let mut ram = vec![0u8; 4];
    let mut dirty = false;
    poke_ram(&mut ram, &mut dirty, true, 1, 0);
    assert!(!dirty);
    poke_ram(&mut ram, &mut dirty, false, 1, 5);
    assert!(!dirty);
    poke_ram(&mut ram, &mut dirty, true, 9, 5);
    assert!(!dirty);
    poke_ram(&mut ram, &mut dirty, true, 1, 6);
    assert!(dirty);
    assert_eq!(ram, vec![0, 6, 0, 0]);
    reload(&mut ram, &[1, 2, 3]);
    assert_eq!(ram, vec![0, 6, 0, 0]);
    reload(&mut ram, &[1, 2, 3, 4]);
    assert_eq!(ram, vec![1, 2, 3, 4]);
}
