use chip8::cpu::{add_carry, shl, sub_borrow, DrawInstruction, CPU, START_ADDRESS};
use chip8::math::{point, Point};

fn machine(program: &[u8]) -> CPU {
    let mut cpu = CPU::new();
    cpu.load_rom(program);
    cpu
}

fn run(cpu: &mut CPU, steps: usize) {
    for _ in 0..steps {
        cpu.step(0, 0);
    }
}

fn sprite_of(d: DrawInstruction) -> Vec<Point> {
    match d {
        DrawInstruction::Sprite(ps) => ps,
        _ => panic!("expected a sprite"),
    }
}

#[test]
fn new_machine_starts_at_start_address() {
    let cpu = CPU::new();
    assert_eq!(cpu.pc(), 0x200);
    assert_eq!(cpu.stack_depth(), 0);
    assert_eq!(cpu.sound_counter(), 0);
    assert_eq!(cpu.delay_counter(), 0);
}

#[test]
fn load_rom_copies_bytes_verbatim() {
    let cpu = machine(&[0x12, 0x34, 0xAB]);
    assert_eq!(cpu.memory_at(START_ADDRESS), 0x12);
    assert_eq!(cpu.memory_at(START_ADDRESS + 1), 0x34);
    assert_eq!(cpu.memory_at(START_ADDRESS + 2), 0xAB);
    assert_eq!(cpu.memory_at(START_ADDRESS + 3), 0);
    assert_eq!(cpu.memory_at(START_ADDRESS - 1), 0);
    assert_eq!(cpu.pc(), START_ADDRESS);
}

#[test]
fn draw_scenario_lights_one_pixel() {
    // I = 0x200, then draw one row at (V0, V0) = (0, 0) from I.
    let mut cpu = machine(&[0xA2, 0x00, 0xD0, 0x01]);
    let first = cpu.step(0, 0);
    assert!(matches!(first, DrawInstruction::Unchanged));
    assert_eq!(cpu.address_register(), 0x200);
    let points = sprite_of(cpu.step(0, 0));
    // 0xA2 has bits 0, 2 and 6 set, counted from the most significant one.
    assert_eq!(points, vec![point(0, 0), point(2, 0), point(6, 0)]);
    assert_eq!(cpu.pc(), 0x204);
}

#[test]
fn draw_single_high_bit_gives_origin_only() {
    // V0 = 0x80, I = 0x300, store V0 at I, draw one row at (V1, V1) = (0, 0).
    let mut cpu = machine(&[0x60, 0x80, 0xA3, 0x00, 0xF0, 0x55, 0xD1, 0x11]);
    run(&mut cpu, 3);
    assert_eq!(cpu.memory_at(0x300), 0b1000_0000);
    let points = sprite_of(cpu.step(0, 0));
    assert_eq!(points, vec![point(0, 0)]);
}

#[test]
fn draw_offsets_by_registers_and_rows() {
    // Store V0..V3 = [0, 0, 0x01, 0x81] at 0x300, then V0 = 5, V1 = 7, I = 0x302
    // and draw two rows at (V0, V1).
    let mut cpu = machine(&[
        0x62, 0x01, 0x63, 0x81, 0xA3, 0x00, 0xF3, 0x55, 0x60, 0x05, 0x61, 0x07, 0xA3, 0x02,
        0xD0, 0x12,
    ]);
    run(&mut cpu, 7);
    let points = sprite_of(cpu.step(0, 0));
    assert_eq!(points, vec![point(12, 7), point(5, 8), point(12, 8)]);
}

#[test]
fn clear_instruction_reports_clear() {
    let mut cpu = machine(&[0x00, 0xE0]);
    assert!(matches!(cpu.step(0, 0), DrawInstruction::Clear));
    assert_eq!(cpu.pc(), 0x202);
}

#[test]
fn add_with_carry_cases() {
    assert_eq!(add_carry(100, 155), (255, 0));
    assert_eq!(add_carry(200, 100), (255, 1));
    assert_eq!(add_carry(3, 4), (7, 0));
    // V0 = 200, V1 = 100, V0 += V1.
    let mut cpu = machine(&[0x60, 200, 0x61, 100, 0x80, 0x14]);
    run(&mut cpu, 3);
    assert_eq!(cpu.register(0), 255);
    assert_eq!(cpu.register(0xF), 1);
    let mut cpu = machine(&[0x60, 20, 0x61, 30, 0x80, 0x14]);
    run(&mut cpu, 3);
    assert_eq!(cpu.register(0), 50);
    assert_eq!(cpu.register(0xF), 0);
}

#[test]
fn subtract_with_borrow_cases() {
    assert_eq!(sub_borrow(10, 3), (7, 0));
    assert_eq!(sub_borrow(3, 10), (0, 1));
    assert_eq!(sub_borrow(5, 5), (0, 0));
    let mut cpu = machine(&[0x60, 50, 0x61, 20, 0x80, 0x15]);
    run(&mut cpu, 3);
    assert_eq!(cpu.register(0), 30);
    assert_eq!(cpu.register(0xF), 0);
    let mut cpu = machine(&[0x60, 20, 0x61, 50, 0x80, 0x15]);
    run(&mut cpu, 3);
    assert_eq!(cpu.register(0), 0);
    assert_eq!(cpu.register(0xF), 1);
}

#[test]
fn flag_register_is_written_last() {
    // VF = 200, V1 = 100, VF += V1: the flag overwrites the sum.
    let mut cpu = machine(&[0x6F, 200, 0x61, 100, 0x8F, 0x14]);
    run(&mut cpu, 3);
    assert_eq!(cpu.register(0xF), 1);
}

#[test]
fn shift_cases() {
    assert_eq!(shl(0b1000_0001), (0b0000_0010, 1));
    assert_eq!(shl(0b0100_0000), (0b1000_0000, 0));
    let mut cpu = machine(&[0x63, 0xC3, 0x83, 0x06]);
    run(&mut cpu, 2);
    assert_eq!(cpu.register(3), 0x86);
    assert_eq!(cpu.register(0xF), 1);
}

#[test]
fn add_immediate_saturates() {
    let mut cpu = machine(&[0x60, 250, 0x70, 10, 0x71, 10]);
    run(&mut cpu, 3);
    assert_eq!(cpu.register(0), 255);
    assert_eq!(cpu.register(1), 10);
}

#[test]
fn bitwise_and_copy() {
    let mut cpu = machine(&[
        0x60, 0b1100, 0x61, 0b1010, 0x82, 0x00, 0x82, 0x11, 0x83, 0x00, 0x83, 0x12, 0x84, 0x00,
        0x84, 0x13,
    ]);
    run(&mut cpu, 8);
    assert_eq!(cpu.register(2), 0b1110);
    assert_eq!(cpu.register(3), 0b1000);
    assert_eq!(cpu.register(4), 0b0110);
    assert_eq!(cpu.register(0xF), 0);
}

#[test]
fn call_return_round_trip() {
    // 0x200: call 0x206; 0x202: V0 = 1; 0x206: return.
    let mut cpu = machine(&[0x22, 0x06, 0x60, 0x01, 0x00, 0x00, 0x00, 0xEE]);
    cpu.step(0, 0);
    assert_eq!(cpu.pc(), 0x206);
    assert_eq!(cpu.stack_depth(), 1);
    cpu.step(0, 0);
    assert_eq!(cpu.pc(), 0x202);
    assert_eq!(cpu.stack_depth(), 0);
    cpu.step(0, 0);
    assert_eq!(cpu.register(0), 1);
}

#[test]
fn seventeenth_call_is_dropped() {
    // Sixteen calls that each go to the next word, then a call to 0x300.
    let mut program = Vec::new();
    for k in 0..16u16 {
        let target = 0x202 + 2 * k;
        program.push(0x20 | (target >> 8) as u8);
        program.push((target & 0xFF) as u8);
    }
    program.push(0x23);
    program.push(0x00);
    let mut cpu = machine(&program);
    run(&mut cpu, 16);
    assert_eq!(cpu.stack_depth(), 16);
    assert_eq!(cpu.pc(), 0x220);
    cpu.step(0, 0);
    assert_eq!(cpu.stack_depth(), 16);
    assert_eq!(cpu.pc(), 0x222);
}

#[test]
fn return_on_empty_stack_leaves_pc() {
    let mut cpu = machine(&[0x00, 0xEE]);
    cpu.step(0, 0);
    assert_eq!(cpu.pc(), 0x200);
    assert_eq!(cpu.stack_depth(), 0);
}

#[test]
fn jumps_set_pc() {
    let mut cpu = machine(&[0x13, 0x45]);
    cpu.step(0, 0);
    assert_eq!(cpu.pc(), 0x345);
    let mut cpu = machine(&[0x60, 0x10, 0xB3, 0x00]);
    run(&mut cpu, 2);
    assert_eq!(cpu.pc(), 0x310);
}

#[test]
fn skips_move_by_four_or_two() {
    // V0 = 7; skip if V0 == 7 (taken).
    let mut cpu = machine(&[0x60, 0x07, 0x30, 0x07]);
    run(&mut cpu, 2);
    assert_eq!(cpu.pc(), 0x206);
    // skip if V0 == 8 (not taken).
    let mut cpu = machine(&[0x60, 0x07, 0x30, 0x08]);
    run(&mut cpu, 2);
    assert_eq!(cpu.pc(), 0x204);
    // skip if V0 != 8 (taken), skip if V0 != 7 (not taken).
    let mut cpu = machine(&[0x60, 0x07, 0x40, 0x08]);
    run(&mut cpu, 2);
    assert_eq!(cpu.pc(), 0x206);
    let mut cpu = machine(&[0x60, 0x07, 0x40, 0x07]);
    run(&mut cpu, 2);
    assert_eq!(cpu.pc(), 0x204);
    // registers equal (taken) and not equal (not taken).
    let mut cpu = machine(&[0x50, 0x10]);
    run(&mut cpu, 1);
    assert_eq!(cpu.pc(), 0x204);
    let mut cpu = machine(&[0x90, 0x10]);
    run(&mut cpu, 1);
    assert_eq!(cpu.pc(), 0x202);
    let mut cpu = machine(&[0x61, 0x01, 0x90, 0x10]);
    run(&mut cpu, 2);
    assert_eq!(cpu.pc(), 0x206);
}

#[test]
fn key_skips_consult_keys() {
    // V0 = 3; skip if key V0 is down.
    let mut cpu = machine(&[0x60, 0x03, 0xE0, 0x9E]);
    cpu.step(0, 0);
    cpu.step(0, 1 << 3);
    assert_eq!(cpu.pc(), 0x206);
    let mut cpu = machine(&[0x60, 0x03, 0xE0, 0x9E]);
    cpu.step(0, 0);
    cpu.step(0, 1 << 4);
    assert_eq!(cpu.pc(), 0x204);
    let mut cpu = machine(&[0x60, 0x03, 0xE0, 0xA1]);
    cpu.step(0, 0);
    cpu.step(0, 0);
    assert_eq!(cpu.pc(), 0x206);
}

#[test]
fn wait_for_key_holds_until_a_key() {
    let mut cpu = machine(&[0xF5, 0x0A]);
    cpu.step(0, 0);
    assert_eq!(cpu.pc(), 0x200);
    cpu.step(0, 0b1010_0000_0000);
    assert_eq!(cpu.pc(), 0x202);
    assert_eq!(cpu.register(5), 9);
}

#[test]
fn random_is_masked() {
    let mut cpu = machine(&[0xC2, 0x0F]);
    cpu.step(0xAB, 0);
    assert_eq!(cpu.register(2), 0x0B);
    let mut cpu = machine(&[0xC2, 0x00]);
    cpu.next(0);
    assert_eq!(cpu.register(2), 0);
}

#[test]
fn store_bcd_of_123() {
    let mut cpu = machine(&[0x64, 123, 0xA3, 0x00, 0xF4, 0x33]);
    run(&mut cpu, 3);
    assert_eq!(cpu.memory_at(0x300), 3);
    assert_eq!(cpu.memory_at(0x301), 2);
    assert_eq!(cpu.memory_at(0x302), 1);
}

#[test]
fn store_bcd_of_zero() {
    let mut cpu = machine(&[0xA3, 0x00, 0xF4, 0x33]);
    cpu.step(0, 0);
    cpu.step(0, 0);
    assert_eq!(cpu.memory_at(0x300), 0);
    assert_eq!(cpu.memory_at(0x301), 0);
    assert_eq!(cpu.memory_at(0x302), 0);
}

#[test]
fn store_and_load_registers() {
    let mut cpu = machine(&[
        0x60, 1, 0x61, 2, 0x62, 3, 0xA3, 0x00, 0xF1, 0x55, 0xA3, 0x01, 0xF1, 0x65,
    ]);
    run(&mut cpu, 5);
    assert_eq!(cpu.memory_at(0x300), 1);
    assert_eq!(cpu.memory_at(0x301), 2);
    assert_eq!(cpu.memory_at(0x302), 0);
    run(&mut cpu, 2);
    assert_eq!(cpu.register(0), 2);
    assert_eq!(cpu.register(1), 0);
    assert_eq!(cpu.register(2), 3);
}

#[test]
fn add_to_address_register_saturates() {
    // I = 0xFFE, V0 = 5, I += V0.
    let mut cpu = machine(&[0xAF, 0xFE, 0x60, 0x05, 0xF0, 0x1E]);
    run(&mut cpu, 3);
    assert_eq!(cpu.address_register(), 0xFFF);
    assert_eq!(cpu.register(0xF), 1);
    let mut cpu = machine(&[0xA1, 0x00, 0x60, 0x05, 0xF0, 0x1E]);
    run(&mut cpu, 3);
    assert_eq!(cpu.address_register(), 0x105);
    assert_eq!(cpu.register(0xF), 0);
}

#[test]
fn glyph_address_is_five_per_digit() {
    let mut cpu = machine(&[0x67, 0x0A, 0xF7, 0x29]);
    run(&mut cpu, 2);
    assert_eq!(cpu.address_register(), 50);
}

#[test]
fn sound_counter_reaches_zero_and_stays() {
    // V0 = 6; sound = V0, which the same step counts down to 5.
    let mut cpu = machine(&[0x60, 0x06, 0xF0, 0x18]);
    run(&mut cpu, 2);
    assert_eq!(cpu.sound_counter(), 5);
    run(&mut cpu, 5);
    assert_eq!(cpu.sound_counter(), 0);
    run(&mut cpu, 1);
    assert_eq!(cpu.sound_counter(), 0);
}

#[test]
fn delay_counter_round_trip() {
    // V0 = 9; delay = V0; V1 = delay.
    let mut cpu = machine(&[0x60, 0x09, 0xF0, 0x15, 0xF1, 0x07]);
    run(&mut cpu, 3);
    assert_eq!(cpu.register(1), 8);
    assert_eq!(cpu.delay_counter(), 7);
}

#[test]
fn unrecognized_word_only_advances() {
    let mut cpu = machine(&[0x80, 0x1F, 0xE0, 0x00, 0xF0, 0xFF]);
    for k in 1..=3usize {
        assert!(matches!(cpu.step(0, 0), DrawInstruction::Unchanged));
        assert_eq!(cpu.pc(), 0x200 + 2 * k);
    }
}

#[test]
fn pc_wraps_at_end_of_memory() {
    let mut cpu = machine(&[0x1F, 0xFE]);
    run(&mut cpu, 2);
    assert_eq!(cpu.pc(), 0);
}
