use smartclock::chip8::Chip8;

fn machine_with(rom: &[u8]) -> Chip8 {
    let mut c = Chip8::new();
    c.reset();
    c.load_rom(rom);
    c
}

#[test]
fn power_on_is_blank_and_reset_parks_at_the_rom_start() {
    let mut c = Chip8::new();
    assert_eq!(c.get_register_pc(), 0);
    assert!(c.get_memory().iter().all(|&b| b == 0));
    assert!(c.get_display().iter().all(|&b| b == 0));
    c.reset();
    assert_eq!(c.get_register_pc(), 0x200);
}

#[test]
fn load_rom_lays_the_image_at_the_offset() {
    let c = machine_with(&[0xaa, 0xbb, 0xcc]);
    let m = c.get_memory();
    assert_eq!(&m[0x200..0x203], &[0xaa, 0xbb, 0xcc]);
    assert!(m[..0x200].iter().all(|&b| b == 0));
}

#[test]
fn load_and_add_registers() {
    // 6005: V0 = 5;  7003: V0 += 3
    let mut c = machine_with(&[0x60, 0x05, 0x70, 0x03]);
    c.execute_cycle();
    assert_eq!(c.get_register_v()[0], 5);
    assert_eq!(c.get_register_pc(), 0x202);
    c.execute_cycle();
    assert_eq!(c.get_register_v()[0], 8);
}

#[test]
fn add_immediate_wraps_without_touching_the_flag() {
    // 60C8: V0 = 200;  7078: V0 += 120 -> 64 (mod 256)
    let mut c = machine_with(&[0x60, 0xc8, 0x70, 0x78]);
    c.execute_cycle();
    c.execute_cycle();
    assert_eq!(c.get_register_v()[0], 64);
}

#[test]
fn register_add_sets_the_carry_flag() {
    // 60C8: V0 = 200; 6164: V1 = 100; 8014: V0 += V1
    let mut c = machine_with(&[0x60, 0xc8, 0x61, 0x64, 0x80, 0x14]);
    c.execute_cycle();
    c.execute_cycle();
    c.execute_cycle();
    assert_eq!(c.get_register_v()[0], 44);
    assert_eq!(c.get_register_v()[15], 1);
}

#[test]
fn subtract_sets_the_no_borrow_flag() {
    // 600A: V0 = 10; 6103: V1 = 3; 8015: V0 -= V1
    let mut c = machine_with(&[0x60, 0x0a, 0x61, 0x03, 0x80, 0x15]);
    c.execute_cycle();
    c.execute_cycle();
    c.execute_cycle();
    assert_eq!(c.get_register_v()[0], 7);
    assert_eq!(c.get_register_v()[15], 1);
}

#[test]
fn jump_and_skip_move_the_program_counter() {
    // 1208: jump to 0x208
    let mut c = machine_with(&[0x12, 0x08]);
    c.execute_cycle();
    assert_eq!(c.get_register_pc(), 0x208);
    // 6007: V0 = 7; 3007: skip next (equal); would-be-skipped 6099
    let mut c2 = machine_with(&[0x60, 0x07, 0x30, 0x07, 0x60, 0x99, 0x61, 0x01]);
    c2.execute_cycle();
    c2.execute_cycle();
    assert_eq!(c2.get_register_pc(), 0x206, "the equal compare skips one opcode");
}

#[test]
fn call_and_return_use_the_stack() {
    // 2204: call 0x204; 0000 (skipped); 00EE: return
    let mut c = machine_with(&[0x22, 0x04, 0x00, 0x00, 0x00, 0xee]);
    c.execute_cycle();
    assert_eq!(c.get_register_pc(), 0x204);
    c.execute_cycle();
    assert_eq!(c.get_register_pc(), 0x202, "return lands after the call");
}

#[test]
fn load_address_register() {
    // A123: I = 0x123
    let mut c = machine_with(&[0xa1, 0x23]);
    c.execute_cycle();
    assert_eq!(c.get_register_i(), 0x123);
}

#[test]
fn draw_xors_pixels_and_reports_collisions() {
    // A20A: I = 0x20A (sprite); 6000: V0 = 0; D001: draw 1 row at (0,0); D001 again
    let mut c = machine_with(&[
        0xa2, 0x0a, 0x60, 0x00, 0xd0, 0x01, 0xd0, 0x01, 0x00, 0x00, 0b1010_0000,
    ]);
    c.execute_cycle();
    c.execute_cycle();
    c.execute_cycle();
    {
        let d = c.get_display();
        assert_eq!(d[0], 1);
        assert_eq!(d[1], 0);
        assert_eq!(d[2], 1);
    }
    assert_eq!(c.get_register_v()[15], 0, "nothing was lit before");
    c.execute_cycle();
    assert_eq!(c.get_register_v()[15], 1, "drawing again collides");
    assert!(c.get_display().iter().all(|&p| p == 0), "the XOR cleared it");
}

#[test]
fn bcd_spills_the_digits() {
    // 60EA: V0 = 234; A300: I = 0x300; F033: BCD
    let mut c = machine_with(&[0x60, 0xea, 0xa3, 0x00, 0xf0, 0x33]);
    c.execute_cycle();
    c.execute_cycle();
    c.execute_cycle();
    let m = c.get_memory();
    assert_eq!(&m[0x300..0x303], &[2, 3, 4]);
}

#[test]
fn store_and_load_registers_through_memory() {
    // 6011 6222: V0=0x11, V2=0x22; A300: I; F255: store V0..=V2
    let mut c = machine_with(&[0x60, 0x11, 0x62, 0x22, 0xa3, 0x00, 0xf2, 0x55]);
    for _ in 0..4 {
        c.execute_cycle();
    }
    assert_eq!(&c.get_memory()[0x300..0x303], &[0x11, 0x00, 0x22]);
    // now wipe V0..V2 and load them back: 6000 6200 F265
    let mut c2 = machine_with(&[0x60, 0x11, 0x62, 0x22, 0xa3, 0x00, 0xf2, 0x55, 0x60, 0x00,
        0x62, 0x00, 0xf2, 0x65]);
    for _ in 0..7 {
        c2.execute_cycle();
    }
    assert_eq!(c2.get_register_v()[0], 0x11);
    assert_eq!(c2.get_register_v()[2], 0x22);
}

#[test]
fn key_state_drives_the_skip_opcodes() {
    // 6004: V0 = 4; E09E: skip if key 4 down
    let mut c = machine_with(&[0x60, 0x04, 0xe0, 0x9e]);
    c.key_down(4);
    c.execute_cycle();
    c.execute_cycle();
    assert_eq!(c.get_register_pc(), 0x206, "pressed key skips");
    let mut c2 = machine_with(&[0x60, 0x04, 0xe0, 0x9e]);
    c2.key_down(4);
    c2.key_up(4);
    c2.execute_cycle();
    c2.execute_cycle();
    assert_eq!(c2.get_register_pc(), 0x204, "released key does not");
}

#[test]
fn delay_timer_loads_reads_and_ticks() {
    // 6005: V0 = 5; F015: DT = V0; F107: V1 = DT
    let mut c = machine_with(&[0x60, 0x05, 0xf0, 0x15, 0xf1, 0x07]);
    c.execute_cycle();
    c.execute_cycle();
    c.decrement_timers();
    c.execute_cycle();
    assert_eq!(c.get_register_v()[1], 4);
    for _ in 0..10 {
        c.decrement_timers();
    }
    let mut c2 = machine_with(&[0xf1, 0x07]);
    c2.execute_cycle();
    assert_eq!(c2.get_register_v()[1], 0, "the timer never goes below zero");
}

#[test]
fn run_steps_thirty_cycles_and_one_timer_tick() {
    // a two-opcode loop: 7001 (V0 += 1); 1200 (jump back)
    let mut c = machine_with(&[0x70, 0x01, 0x12, 0x00]);
    c.run();
    assert_eq!(c.get_register_v()[0], 15, "half of thirty cycles are the add");
    assert_eq!(c.get_register_pc(), 0x200);
}
