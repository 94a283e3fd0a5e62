use nes::mapper::n163_audio::N163Audio;

#[test]
fn power_on_state_is_silent() {
    let audio = N163Audio::new();
    assert_eq!(audio.mix_level(), 0);
    assert_eq!(audio.peek_4800(), 0);
}

#[test]
fn write_4800_with_auto_inc_walks_address() {
    let mut a = N163Audio::new();
    a.set_address_latch(0x80 | 0x10);
    a.write_4800(0xAA);
    a.write_4800(0xBB);
    a.write_4800(0xCC);
    a.set_address_latch(0x10);
    assert_eq!(a.peek_4800(), 0xAA);
    assert_eq!(a.ram_byte(0x11), 0xBB);
    assert_eq!(a.ram_byte(0x12), 0xCC);
}

#[test]
fn auto_increment_wraps_at_7f() {
    let mut a = N163Audio::new();
    a.set_address_latch(0x80 | 0x7E);
    a.write_4800(0x11);
    a.write_4800(0x22);
    a.write_4800(0x33);
    assert_eq!(a.ram_byte(0x7E), 0x11);
    assert_eq!(a.ram_byte(0x7F), 0x22);
    assert_eq!(a.ram_byte(0x00), 0x33);
    assert_eq!(a.current_address(), 0x01);
}

#[test]
fn disable_freezes_output() {
    let mut a = N163Audio::new();
    a.set_disable(true);
    for _ in 0..1000 {
        a.clock();
    }
    assert_eq!(a.last_output, 0);
    assert_eq!(a.mix_level(), 0);
}

#[test]
fn enabled_engine_produces_signal() {
    let mut a = N163Audio::new();
    let base = 0x40 + 7 * 8;
    a.set_address_latch(0x80 | base as u8);
    a.write_4800(0x10);
    a.write_4800(0x00);
    a.write_4800(0x00);
    a.write_4800(0x00);
    a.write_4800(0x00);
    a.write_4800(0x00);
    a.write_4800(0x00);
    a.write_4800(0x0F);

    a.set_address_latch(0x00);
    a.write_4800(0x0F);

    let mut peak = 0_i16;
    for _ in 0..(15 * 64) {
        a.clock();
        peak = peak.max(a.last_output.abs());
    }
    assert!(
        peak > 0,
        "expected audible signal from non-silent channel 7"
    );
}

#[test]
fn round_robin_walks_active_channels_only() {
    let mut a = N163Audio::new();
    a.set_address_latch(0x7F);
    a.write_4800(0x30);

    let mut visited = Vec::new();
    for _ in 0..(15 * 5) {
        a.clock();
        visited.push(a.current_channel);
    }
    let unique: std::collections::BTreeSet<i8> =
        visited.iter().copied().collect();
    for ch in 4..=7 {
        assert!(
            unique.contains(&ch),
            "channel {ch} not visited; got {unique:?}"
        );
    }
    for ch in 0..=3 {
        assert!(
            !unique.contains(&ch),
            "channel {ch} should be inactive; got {unique:?}"
        );
    }
}

#[test]
fn average_of_active_channels_matches_sum_div_count() {
    let mut a = N163Audio::new();
    a.channel_output = [0, 0, 0, 0, 100, 100, 100, 100];
    a.set_address_latch(0x7F);
    a.write_4800(0x30);
    a.refresh_output();
    assert_eq!(a.last_output, 100);
}
