use nes::mapper::mmc1::{decode_mirroring, Mmc1};
use nes::mapper::mmc3::Mmc3;
use nes::mapper::nrom::Nrom;
use nes::mapper::{
    build, Board, BuildError, Built, Mapper, NametableSource, NametableWriteTarget, OtherBoard, PpuFetchKind,
};
use nes::rom::{Cartridge, Mirroring, TvSystem};
use nes::save_state::mapper::NromSnap;
use nes::save_state::{MapperState, MirroringSnap, SaveStateError};

const BUILT: [u16; 31] = [
    0, 1, 4, 9, 16, 18, 32, 34, 37, 65, 67, 68, 70, 71, 72, 78, 86, 87, 88, 89, 92, 95, 97, 140,
    152, 154, 159, 184, 185, 206, 232,
];

/// PRG-ROM whose 8 KiB banks hold their number, CHR-ROM whose 1 KiB banks do.
fn cart(mapper_id: u16) -> Cartridge {
    cart_of(mapper_id, 0x40000)
}

fn cart_of(mapper_id: u16, prg_len: usize) -> Cartridge {
    let prg_rom = (0..prg_len).map(|i| (i / 0x2000) as u8).collect();
    let chr_rom = (0..0x20000usize).map(|i| (i / 0x400) as u8).collect();
    Cartridge {
        prg_rom,
        chr_rom,
        chr_ram: false,
        mapper_id,
        submapper: 0,
        mirroring: Mirroring::Vertical,
        battery_backed: true,
        prg_ram_size: 0,
        prg_nvram_size: 0x2000,
        tv_system: TvSystem::Ntsc,
        is_nes2: false,
        prg_chr_crc32: 0,
        db_matched: false,
        fds_data: None,
    }
}

fn board(mapper_id: u16) -> Board {
    match build(cart(mapper_id), None) {
        Ok(Built::Here(board)) => board,
        _ => panic!("no board {}", mapper_id),
    }
}

#[test]
fn known_boards_are_built() {
    for id in BUILT {
        assert!(matches!(build(cart(id), None), Ok(Built::Here(_))), "board {}", id);
    }
}

#[test]
fn boards_made_elsewhere_are_named() {
    let named = [
        (2u16, OtherBoard::Uxrom),
        (3, OtherBoard::Cnrom),
        (5, OtherBoard::Mmc5),
        (7, OtherBoard::Axrom),
        (10, OtherBoard::Mmc4),
        (19, OtherBoard::Namco163),
        (20, OtherBoard::Fds),
        (21, OtherBoard::Vrc2_4),
        (22, OtherBoard::Vrc2_4),
        (23, OtherBoard::Vrc2_4),
        (24, OtherBoard::Vrc6A),
        (25, OtherBoard::Vrc2_4),
        (26, OtherBoard::Vrc6B),
        (33, OtherBoard::TaitoTc0190),
        (48, OtherBoard::Tc0690),
        (64, OtherBoard::Rambo1),
        (66, OtherBoard::Gxrom),
        (69, OtherBoard::Fme7),
        (73, OtherBoard::Vrc3),
        (75, OtherBoard::Vrc1),
        (80, OtherBoard::TaitoX1005),
        (82, OtherBoard::TaitoX1017),
        (85, OtherBoard::Vrc7),
        (94, OtherBoard::Un1rom),
        (118, OtherBoard::Txsrom),
        (119, OtherBoard::Tqrom),
        (180, OtherBoard::Un1rom180),
        (189, OtherBoard::TaitoTc110),
        (207, OtherBoard::TaitoX1005Mapper207),
        (210, OtherBoard::Namco163),
    ];
    for (id, expected) in named {
        match build(cart(id), None) {
            Ok(Built::Elsewhere(other, c)) => {
                assert_eq!(other, expected);
                assert_eq!(c.mapper_id, id);
                assert_eq!(c.prg_rom, cart(id).prg_rom, "the cart comes back whole");
            }
            _ => panic!("board {}", id),
        }
    }
    let refused = (0..=4095u16).filter(|id| build(cart_of(*id, 0x2000), None).is_err()).count();
    assert_eq!(refused, 4096 - BUILT.len() - named.len());
}

#[test]
fn a_game_database_names_the_fcg_board() {
    let saves = |name: Option<&str>| match build(cart(16), name) {
        Ok(Built::Here(board)) => board.save_data().map(|bytes| bytes.len()),
        _ => panic!("no board"),
    };
    assert_eq!(saves(None), Some(256));
    assert_eq!(saves(Some("BANDAI-FCG-1")), None);
    assert_eq!(saves(Some("BANDAI-LZ93D50")), None);
    assert_eq!(saves(Some("BANDAI-LZ93D50+24C01")), Some(128));
    assert_eq!(saves(Some("BANDAI-LZ93D50+24C02")), Some(256));
    assert_eq!(saves(Some("BANDAI")), Some(256), "a name that tells nothing");
}

#[test]
fn unknown_boards_are_named_in_the_error() {
    for id in [6u16, 99, 255, 4095] {
        let error = match build(cart(id), None) {
            Ok(_) => panic!("board {}", id),
            Err(error) => error,
        };
        assert_eq!(error, BuildError::UnsupportedMapper(id));
        assert_eq!(error.message(), format!("unsupported mapper {}", id));
    }
}

#[test]
fn built_boards_come_up_with_their_own_banks() {
    assert_eq!(board(1).cpu_read(0xC000), 30, "last 16 KiB");
    assert_eq!(board(4).cpu_read(0xE000), 31, "last 8 KiB");
    assert_eq!(board(9).cpu_read(0xA000), 29, "last three banks");
    assert_eq!(board(71).cpu_read(0xC000), 30);
    assert_eq!(board(206).cpu_read(0xC000), 30);
    assert_eq!(board(87).cpu_read(0xA000), 1);
    assert_eq!(board(97).cpu_read(0x8000), 30, "fixed low half");
}

#[test]
fn snapshots_of_built_boards_apply_to_themselves() {
    for id in BUILT {
        let mut a = board(id);
        a.cpu_write(0x6000, 0x12);
        a.cpu_write(0x8000, 0x01);
        a.cpu_write(0xA001, 0x02);
        if let Some(state) = a.save_state_capture() {
            let mut b = board(id);
            assert_eq!(b.save_state_apply(&state), Ok(()), "board {}", id);
            for addr in (0x6000..=0xFFFFu32).step_by(0x800) {
                assert_eq!(a.cpu_peek(addr as u16), b.cpu_peek(addr as u16), "board {} at {:04X}", id, addr);
            }
            for addr in (0..0x2000u16).step_by(0x400) {
                assert_eq!(a.ppu_read(addr), b.ppu_read(addr), "board {} at {:04X}", id, addr);
            }
            assert_eq!(a.mirroring(), b.mirroring());
        }
    }
}

#[test]
fn snapshots_of_other_boards_are_refused() {
    let foreign = MapperState::Nrom(NromSnap::default());
    for id in BUILT {
        let mut b = board(id);
        let result = b.save_state_apply(&foreign);
        if id == 0 {
            assert_eq!(result, Ok(()));
        } else {
            assert!(matches!(result, Err(SaveStateError::UnsupportedMapper(_))), "board {}", id);
        }
    }
}

#[test]
fn built_boards_are_no_disk_drives() {
    let mut b = board(0);
    assert!(b.disk_save_data().is_none());
    assert!(!b.disk_save_dirty());
    b.load_disk_save(&[1, 2, 3]);
    b.mark_disk_saved();
    assert!(b.as_fds().is_none());
    assert!(b.as_fds_mut().is_none());
}

#[test]
fn built_boards_leave_nametables_to_the_console() {
    let mut b = board(0);
    assert_eq!(b.ppu_nametable_read(1, 0x20), NametableSource::Default);
    assert_eq!(b.ppu_nametable_write(1, 0x20, 5), NametableWriteTarget::Default);
    assert_eq!(b.cpu_read_ex(0x5000), None);
}

#[test]
fn battery_ram_round_trips_through_save_data() {
    let mut a = Nrom::new(cart(0));
    assert!(!a.save_dirty());
    a.cpu_write(0x6001, 0x5A);
    assert!(a.save_dirty());
    let saved = a.save_data().unwrap().to_vec();
    assert_eq!(saved.len(), 0x2000);
    a.mark_saved();
    assert!(!a.save_dirty());
    let mut b = Nrom::new(cart(0));
    b.load_save_data(&saved[1..]);
    assert_eq!(b.cpu_read(0x6001), 0);
    b.load_save_data(&saved);
    assert_eq!(b.cpu_read(0x6001), 0x5A);
}

fn serial(m: &mut Mmc1, addr: u16, value: u8) {
    for bit in 0..5 {
        m.on_cpu_cycle();
        m.on_cpu_cycle();
        m.cpu_write(addr, value >> bit);
    }
}

#[test]
fn mmc1_five_writes_load_a_register() {
    let mut m = Mmc1::new(cart(1));
    assert_eq!(m.cpu_read(0x8000), 0);
    serial(&mut m, 0xE000, 5);
    assert_eq!(m.cpu_read(0x8000), 10);
    assert_eq!(m.cpu_read(0xC000), 30);
    serial(&mut m, 0x8000, 0x08);
    assert_eq!(m.cpu_read(0x8000), 0, "first bank fixed");
    assert_eq!(m.cpu_read(0xC000), 10);
    serial(&mut m, 0x8000, 0x00);
    assert_eq!(m.cpu_read(0x8000), 8, "32 KiB pairs");
    assert_eq!(m.cpu_read(0xC000), 10);
}

#[test]
fn mmc1_control_sets_the_mirroring() {
    let mut m = Mmc1::new(cart(1));
    let expected = [
        Mirroring::SingleScreenLower,
        Mirroring::SingleScreenUpper,
        Mirroring::Vertical,
        Mirroring::Horizontal,
    ];
    for (value, mode) in expected.iter().enumerate() {
        serial(&mut m, 0x8000, value as u8);
        assert_eq!(m.mirroring(), *mode);
        assert_eq!(decode_mirroring(value as u8), *mode);
    }
}

#[test]
fn mmc1_pattern_banks() {
    let mut m = Mmc1::new(cart(1));
    serial(&mut m, 0xA000, 3);
    assert_eq!(m.ppu_read(0x0000), 8, "8 KiB: the low bit is dropped");
    assert_eq!(m.ppu_read(0x1000), 12);
    serial(&mut m, 0x8000, 0x10);
    serial(&mut m, 0xC000, 7);
    assert_eq!(m.ppu_read(0x0000), 12);
    assert_eq!(m.ppu_read(0x1C00), 31);
}

#[test]
fn mmc1_reset_write_and_back_to_back_write() {
    let mut m = Mmc1::new(cart(1));
    m.on_cpu_cycle();
    m.cpu_write(0xE000, 1);
    m.on_cpu_cycle();
    m.cpu_write(0xE000, 1);
    assert_eq!(m.shift_count, 1, "a write in the next cycle is dropped");
    m.on_cpu_cycle();
    m.on_cpu_cycle();
    m.cpu_write(0x8000, 0x80);
    assert_eq!((m.shift, m.shift_count), (0x10, 0));
    assert_eq!(m.control & 0x0C, 0x0C);
}

#[test]
fn mmc1_snapshot_keeps_a_half_done_load() {
    let mut a = Mmc1::new(cart(1));
    a.on_cpu_cycle();
    a.cpu_write(0xE000, 1);
    let state = a.save_state_capture().unwrap();
    let mut b = Mmc1::new(cart(1));
    assert_eq!(b.save_state_apply(&state), Ok(()));
    assert_eq!((b.shift, b.shift_count), (a.shift, 1));
    assert_eq!(b.last_write_cycle, Some(1));
}

#[test]
fn mmc3_banks_follow_the_select_register() {
    let mut m = Mmc3::new(cart(4));
    m.cpu_write(0x8000, 6);
    m.cpu_write(0x8001, 9);
    m.cpu_write(0x8000, 7);
    m.cpu_write(0x8001, 11);
    assert_eq!([m.cpu_read(0x8000), m.cpu_read(0xA000), m.cpu_read(0xC000), m.cpu_read(0xE000)], [9, 11, 30, 31]);
    m.cpu_write(0x8000, 0x40);
    assert_eq!([m.cpu_read(0x8000), m.cpu_read(0xA000), m.cpu_read(0xC000), m.cpu_read(0xE000)], [30, 11, 9, 31]);
    m.cpu_write(0x8001, 21);
    m.cpu_write(0x8000, 2);
    m.cpu_write(0x8001, 33);
    assert_eq!([m.ppu_read(0x0000), m.ppu_read(0x0400), m.ppu_read(0x1000)], [20, 21, 33]);
    m.cpu_write(0x8000, 0x80);
    assert_eq!([m.ppu_read(0x1000), m.ppu_read(0x1400), m.ppu_read(0x0000)], [20, 21, 33]);
}

fn scanline(m: &mut Mmc3, dot: u64) {
    m.on_ppu_addr(0x0000, dot, PpuFetchKind::BgPattern);
    m.on_ppu_addr(0x1000, dot + 100, PpuFetchKind::SpritePattern);
}

#[test]
fn mmc3_interrupt_comes_after_the_latch_runs_out() {
    let mut m = Mmc3::new(cart(4));
    m.cpu_write(0xC000, 3);
    m.cpu_write(0xC001, 0);
    m.cpu_write(0xE001, 0);
    for line in 0..3 {
        scanline(&mut m, 1000 + 341 * line);
        assert!(!m.irq_line());
    }
    scanline(&mut m, 3000);
    assert!(m.irq_line());
    m.cpu_write(0xE000, 0);
    assert!(!m.irq_line());
}

#[test]
fn mmc3_ignores_short_lows() {
    let mut m = Mmc3::new(cart(4));
    m.cpu_write(0xC001, 0);
    m.cpu_write(0xE001, 0);
    m.on_ppu_addr(0x1000, 5, PpuFetchKind::SpritePattern);
    assert!(!m.irq_line());
    m.on_ppu_addr(0x0000, 20, PpuFetchKind::BgPattern);
    m.on_ppu_addr(0x1000, 29, PpuFetchKind::SpritePattern);
    assert!(!m.irq_line());
    m.on_ppu_addr(0x0000, 40, PpuFetchKind::BgPattern);
    m.on_ppu_addr(0x1000, 50, PpuFetchKind::SpritePattern);
    assert!(m.irq_line());
}

#[test]
fn mmc3_ram_protection() {
    let mut m = Mmc3::new(cart(4));
    m.cpu_write(0x6000, 1);
    m.cpu_write(0xA001, 0xC0);
    m.cpu_write(0x6000, 2);
    assert_eq!(m.cpu_read(0x6000), 1);
    m.cpu_write(0xA001, 0x00);
    assert_eq!(m.cpu_read(0x6000), 0);
    m.cpu_write(0xA001, 0x80);
    assert_eq!(m.cpu_read(0x6000), 1);
    m.cpu_write(0xA000, 1);
    assert_eq!(m.mirroring(), Mirroring::Horizontal);
}

#[test]
fn recorded_mirroring_is_the_live_one() {
    for mode in [
        Mirroring::Horizontal,
        Mirroring::Vertical,
        Mirroring::SingleScreenLower,
        Mirroring::SingleScreenUpper,
        Mirroring::FourScreen,
    ] {
        assert_eq!(MirroringSnap::from_live(mode).to_live(), mode);
    }
}
