use emunes::apu::{duty, length_table, APU, AUDIO_BUFFER_SIZE, Pulse};
use emunes::bus::Bus;
use emunes::cartridge::Cartridge;
use emunes::ppu::{palette_color, PPU};

fn make_bus() -> Bus {
    let cart = Cartridge {
        prg: vec![0u8; 16384],
        chr: vec![0u8; 8192],
        sram: vec![0u8; 8192],
        mapper_type: 0,
        mirror_mode: 0,
        battery_present: false,
    };
    Bus::new(cart, vec![0u8; 2048])
}

fn make_pulse() -> Pulse {
    Pulse {
        enabled: false,
        channel: 0,
        length_enabled: false,
        length_value: 0,
        timer_period: 0,
        timer_value: 0,
        duty_mode: 0,
        duty_value: 0,
        sweep_reload: false,
        sweep_enabled: false,
        sweep_negate: false,
        sweep_shift: 0,
        sweep_period: 0,
        sweep_value: 0,
        envelope_enabled: false,
        envelope_loop: false,
        envelope_start: false,
        envelope_period: 0,
        envelope_value: 0,
        envelope_volume: 0,
        constant_volume: 0,
    }
}

#[test]
fn apu_steps_at_the_core_clock() {
    let mut apu = APU::new(44100);
    let mut bus = make_bus();
    assert_eq!(apu.cycle, 0);
    assert_eq!(apu.sample_rate, 44100);
    apu.step(&mut bus);
    apu.step(&mut bus);
    apu.tick();
    assert_eq!(apu.cycle, 3);
}

#[test]
fn square_wave_fills_the_audio_buffer() {
    let mut apu = APU::new(44100);
    let mut bus = make_bus();
    apu.square_wave(&mut bus, 4410);
    assert_eq!(bus.apu_buffer.len(), AUDIO_BUFFER_SIZE as usize);
    // period = 10: ten high samples, then ten low
    assert_eq!(bus.apu_buffer[0], 1000);
    assert_eq!(bus.apu_buffer[9], 1000);
    assert_eq!(bus.apu_buffer[10], -1000);
    assert_eq!(bus.apu_buffer[19], -1000);
    assert_eq!(bus.apu_buffer[20], 1000);
}

#[test]
fn pulse_control_register_decodes() {
    let mut p = make_pulse();
    p.write_control(0b1011_0101);
    assert_eq!(p.duty_mode, 0b10);
    assert!(!p.length_enabled);
    assert!(p.envelope_loop);
    assert!(!p.envelope_enabled);
    assert_eq!(p.envelope_period, 0b0101);
    assert_eq!(p.constant_volume, 0b0101);
    assert!(p.envelope_start);
}

#[test]
fn pulse_sweep_register_decodes() {
    let mut p = make_pulse();
    p.write_sweep(0b1000_1101);
    assert!(p.sweep_enabled);
    // the period field keeps only its top bit, one past the shifted nibble
    assert_eq!(p.sweep_period, 0b1000 & 8);
    assert!(p.sweep_negate);
    assert_eq!(p.sweep_shift, 0b101);
    assert!(p.sweep_reload);
}

#[test]
fn pulse_timer_registers_combine() {
    let mut p = make_pulse();
    p.write_timer_low(0xCD);
    assert_eq!(p.timer_period, 0x00CD);
    p.write_timer_high(0b0000_1010);
    assert_eq!(p.timer_period, 0x02CD);
    assert_eq!(p.length_value, length_table(0b00001));
    assert_eq!(p.length_value, 254);
    assert!(p.envelope_start);
    assert_eq!(p.duty_value, 0);
}

#[test]
fn pulse_timer_counts_down_and_wraps_the_duty_step() {
    let mut p = make_pulse();
    p.timer_period = 2;
    p.timer_value = 1;
    p.duty_value = 7;
    p.step_timer();
    assert_eq!(p.timer_value, 0);
    assert_eq!(p.duty_value, 7);
    p.step_timer();
    assert_eq!(p.timer_value, 2);
    assert_eq!(p.duty_value, 0);
}

#[test]
fn pulse_envelope_sequence() {
    let mut p = make_pulse();
    p.envelope_start = true;
    p.envelope_period = 2;
    p.step_envelope();
    assert_eq!(p.envelope_volume, 15);
    assert_eq!(p.envelope_value, 2);
    assert!(!p.envelope_start);
    p.step_envelope();
    assert_eq!(p.envelope_value, 1);
    p.step_envelope();
    assert_eq!(p.envelope_value, 0);
    p.step_envelope();
    assert_eq!(p.envelope_volume, 14);
    assert_eq!(p.envelope_value, 2);
    // at volume zero without looping the volume stays
    p.envelope_volume = 0;
    p.envelope_value = 0;
    p.step_envelope();
    assert_eq!(p.envelope_volume, 0);
    // with looping it reloads to 15
    p.envelope_loop = true;
    p.envelope_value = 0;
    p.step_envelope();
    assert_eq!(p.envelope_volume, 15);
}

#[test]
fn pulse_sweep_adjusts_the_period() {
    let mut p = make_pulse();
    p.timer_period = 0x100;
    p.sweep_shift = 2;
    p.sweep_enabled = true;
    p.sweep_value = 0;
    p.step_sweep();
    // upward sweep: period plus period >> shift
    assert_eq!(p.timer_period, 0x140);
    assert_eq!(p.sweep_value, p.sweep_period);

    // downward sweep on the first channel takes one extra off
    let mut q = make_pulse();
    q.channel = 1;
    q.timer_period = 0x100;
    q.sweep_shift = 2;
    q.sweep_negate = true;
    q.sweep_enabled = true;
    q.sweep_value = 0;
    q.step_sweep();
    assert_eq!(q.timer_period, 0x100 - 0x40 - 1);

    // a positive sweep counter only counts down
    let mut r = make_pulse();
    r.timer_period = 0x100;
    r.sweep_value = 3;
    r.step_sweep();
    assert_eq!(r.timer_period, 0x100);
    assert_eq!(r.sweep_value, 2);
}

#[test]
fn pulse_length_counts_down_only_while_enabled() {
    let mut p = make_pulse();
    p.length_value = 2;
    p.step_length();
    assert_eq!(p.length_value, 2);
    p.length_enabled = true;
    p.step_length();
    assert_eq!(p.length_value, 1);
    p.step_length();
    p.step_length();
    assert_eq!(p.length_value, 0);
}

#[test]
fn pulse_output_gates_then_selects_a_volume() {
    let mut p = make_pulse();
    assert_eq!(p.output(), 0);
    p.enabled = true;
    assert_eq!(p.output(), 0);
    p.length_value = 1;
    p.duty_mode = 0;
    p.duty_value = 1;
    p.timer_period = 7;
    assert_eq!(p.output(), 0);
    p.timer_period = 0x100;
    p.constant_volume = 9;
    assert_eq!(p.output(), 9);
    p.envelope_enabled = true;
    p.envelope_volume = 4;
    assert_eq!(p.output(), 4);
    p.duty_value = 0;
    assert_eq!(p.output(), 0);
}

#[test]
fn duty_shapes_match_the_table() {
    let rows: [[u8; 8]; 4] = [
        [0, 1, 0, 0, 0, 0, 0, 0],
        [0, 1, 1, 0, 0, 0, 0, 0],
        [0, 1, 1, 1, 1, 0, 0, 0],
        [1, 0, 0, 1, 1, 1, 1, 1],
    ];
    for mode in 0u8..4 {
        for value in 0u8..8 {
            assert_eq!(duty(mode, value), rows[mode as usize][value as usize]);
        }
    }
}

#[test]
fn length_table_spot_values() {
    assert_eq!(length_table(0), 10);
    assert_eq!(length_table(1), 254);
    assert_eq!(length_table(24), 192);
    assert_eq!(length_table(31), 30);
}

#[test]
fn ppu_tick_wraps_scanlines_and_frames() {
    let mut ppu = PPU::new();
    for _ in 0..341 {
        ppu.tick();
    }
    assert_eq!(ppu.cycle, 0);
    assert_eq!(ppu.scan_line, 1);
    // a full frame of 262 scanlines flips the parity
    let mut ppu2 = PPU::new();
    for _ in 0..(341 * 262) {
        ppu2.tick();
    }
    assert_eq!(ppu2.cycle, 0);
    assert_eq!(ppu2.scan_line, 0);
    assert_eq!(ppu2.frame, 1);
    assert!(ppu2.even_odd);
}

#[test]
fn ppu_palette_reads_mirror_every_fourth_sprite_entry() {
    let mut ppu = PPU::new();
    ppu.palette_data[0] = 0x11;
    ppu.palette_data[4] = 0x44;
    ppu.palette_data[5] = 0x22;
    ppu.palette_data[21] = 0x33;
    assert_eq!(ppu.read_palette(16), 0x11);
    assert_eq!(ppu.read_palette(20), 0x44);
    assert_eq!(ppu.read_palette(21), 0x33);
    assert_eq!(ppu.read_palette(5), 0x22);
}

#[test]
fn ppu_renders_a_background_pixel() {
    let mut ppu = PPU::new();
    let mut bus = make_bus();
    // tile data whose high word's low bits pick palette code 1
    ppu.tile_data = 0x1u64 << 32;
    ppu.palette_data[1] = 0x06;
    // the first dot of the third scanline renders column 0
    ppu.cycle = 0;
    ppu.scan_line = 2;
    ppu.step(&mut bus);
    assert_eq!(bus.ppu_pixels[2 * 256], palette_color(0x06));
    assert_eq!(palette_color(0x06), 0x6C0600);
    // with background rendering off the pixel uses palette entry 0
    let mut ppu2 = PPU::new();
    ppu2.show_background = false;
    ppu2.palette_data[0] = 0x01;
    ppu2.cycle = 0;
    ppu2.scan_line = 0;
    ppu2.step(&mut bus);
    assert_eq!(bus.ppu_pixels[0], palette_color(0x01));
}

#[test]
fn ppu_step_does_not_render_in_blanking() {
    let mut ppu = PPU::new();
    let mut bus = make_bus();
    ppu.cycle = 300;
    ppu.scan_line = 0;
    ppu.step(&mut bus);
    assert_eq!(ppu.cycle, 301);
    assert!(bus.ppu_pixels.iter().all(|p| *p == 0));
    // vertical blanking renders nothing either
    ppu.cycle = 10;
    ppu.scan_line = 250;
    ppu.step(&mut bus);
    assert!(bus.ppu_pixels.iter().all(|p| *p == 0));
}
