use pacman_rs::cpu::{DecodeError, InterruptMode, Z80};
use pacman_rs::memory::MemoryBus;
use pacman_rs::PacmanEmulator;

fn machine(program: &[u8]) -> (Z80, MemoryBus) {
    let mut bus = MemoryBus::new();
    bus.load_image(program).unwrap();
    (Z80::new(), bus)
}

fn run(cpu: &mut Z80, bus: &mut MemoryBus, n: usize) -> Vec<u32> {
    (0..n).map(|_| cpu.step(bus).unwrap()).collect()
}

#[test]
fn nop_costs_four_cycles() {
    let (mut cpu, mut bus) = machine(&[0x00]);
    assert_eq!(cpu.step(&mut bus), Ok(4));
    assert_eq!(cpu.pc, 1);
    assert_eq!(cpu.cycles, 4);
}

#[test]
fn increment_of_255_wraps_to_zero() {
    // LD A,0xFF ; INC A
    let (mut cpu, mut bus) = machine(&[0x3E, 0xFF, 0x3C]);
    assert_eq!(run(&mut cpu, &mut bus, 2), vec![7, 4]);
    assert_eq!(cpu.a, 0);
    assert_eq!(cpu.f, 0x50);
}

#[test]
fn increment_keeps_carry() {
    // SCF ; LD B,0xFF ; INC B
    let (mut cpu, mut bus) = machine(&[0x37, 0x06, 0xFF, 0x04]);
    run(&mut cpu, &mut bus, 3);
    assert_eq!(cpu.b, 0);
    assert_eq!(cpu.f, 0x51);
}

#[test]
fn increment_of_pair_65535_wraps_to_zero() {
    // LD HL,0xFFFF ; INC HL
    let (mut cpu, mut bus) = machine(&[0x21, 0xFF, 0xFF, 0x23]);
    assert_eq!(run(&mut cpu, &mut bus, 2), vec![10, 6]);
    assert_eq!(cpu.hl(), 0);
}

#[test]
fn conditional_jump_taken_and_not_taken() {
    // LD A,1 ; OR A ; JR NZ,+2 ; NOP ; NOP ; JR Z,+5
    let (mut cpu, mut bus) = machine(&[0x3E, 0x01, 0xB7, 0x20, 0x02, 0x00, 0x00, 0x28, 0x05]);
    assert_eq!(run(&mut cpu, &mut bus, 3), vec![7, 4, 12]);
    assert_eq!(cpu.pc, 7);
    assert_eq!(cpu.step(&mut bus), Ok(7));
    assert_eq!(cpu.pc, 9);
}

#[test]
fn backward_relative_jump() {
    // NOP ; JR -3
    let (mut cpu, mut bus) = machine(&[0x00, 0x18, 0xFD]);
    run(&mut cpu, &mut bus, 2);
    assert_eq!(cpu.pc, 0);
}

#[test]
fn add_sets_overflow_sign_and_half_carry() {
    // LD A,0x7F ; ADD A,1
    let (mut cpu, mut bus) = machine(&[0x3E, 0x7F, 0xC6, 0x01]);
    run(&mut cpu, &mut bus, 2);
    assert_eq!(cpu.a, 0x80);
    assert_eq!(cpu.f, 0x94);
}

#[test]
fn compare_equal_sets_zero_and_subtract() {
    // LD A,5 ; CP 5
    let (mut cpu, mut bus) = machine(&[0x3E, 0x05, 0xFE, 0x05]);
    run(&mut cpu, &mut bus, 2);
    assert_eq!(cpu.a, 5);
    assert_eq!(cpu.f, 0x42);
}

#[test]
fn subtract_borrows() {
    // LD A,0 ; SUB 1
    let (mut cpu, mut bus) = machine(&[0x3E, 0x00, 0xD6, 0x01]);
    run(&mut cpu, &mut bus, 2);
    assert_eq!(cpu.a, 0xFF);
    assert_eq!(cpu.f, 0xBB);
}

#[test]
fn xor_a_clears_and_sets_parity() {
    let (mut cpu, mut bus) = machine(&[0x3E, 0x35, 0xAF]);
    run(&mut cpu, &mut bus, 2);
    assert_eq!(cpu.a, 0);
    assert_eq!(cpu.f, 0x44);
}

#[test]
fn decimal_adjust_after_addition() {
    // LD A,0x15 ; ADD A,0x27 ; DAA
    let (mut cpu, mut bus) = machine(&[0x3E, 0x15, 0xC6, 0x27, 0x27]);
    run(&mut cpu, &mut bus, 3);
    assert_eq!(cpu.a, 0x42);
}

#[test]
fn push_and_pop_go_through_the_bus() {
    // LD SP,0x4FF0 ; LD BC,0x1234 ; PUSH BC ; POP DE
    let (mut cpu, mut bus) = machine(&[0x31, 0xF0, 0x4F, 0x01, 0x34, 0x12, 0xC5, 0xD1]);
    assert_eq!(run(&mut cpu, &mut bus, 4), vec![10, 10, 11, 10]);
    assert_eq!(cpu.de(), 0x1234);
    assert_eq!(cpu.sp, 0x4FF0);
    assert_eq!(bus.read(0x4FEF), 0x12);
    assert_eq!(bus.read(0x4FEE), 0x34);
}

#[test]
fn call_and_return() {
    // LD SP,0x4F00 ; CALL 0x0010 ; ... 0x0010: RET
    let mut program = vec![0x31, 0x00, 0x4F, 0xCD, 0x10, 0x00];
    program.resize(0x10, 0);
    program.push(0xC9);
    let (mut cpu, mut bus) = machine(&program);
    assert_eq!(run(&mut cpu, &mut bus, 2), vec![10, 17]);
    assert_eq!(cpu.pc, 0x10);
    assert_eq!(cpu.sp, 0x4EFE);
    assert_eq!(cpu.step(&mut bus), Ok(10));
    assert_eq!(cpu.pc, 6);
    assert_eq!(cpu.sp, 0x4F00);
}

#[test]
fn restart_pushes_and_jumps() {
    let (mut cpu, mut bus) = machine(&[0x31, 0x00, 0x4F, 0xEF]);
    assert_eq!(run(&mut cpu, &mut bus, 2), vec![10, 11]);
    assert_eq!(cpu.pc, 0x28);
    assert_eq!(bus.read(0x4EFE), 4);
}

#[test]
fn rotate_and_bit_operations() {
    // LD B,0x81 ; RLC B ; BIT 7,B ; SET 7,B ; RES 0,B
    let (mut cpu, mut bus) = machine(&[0x06, 0x81, 0xCB, 0x00, 0xCB, 0x78, 0xCB, 0xF8, 0xCB, 0x80]);
    assert_eq!(run(&mut cpu, &mut bus, 2), vec![7, 8]);
    assert_eq!(cpu.b, 0x03);
    assert_eq!(cpu.f & 0x01, 1);
    cpu.step(&mut bus).unwrap();
    assert_eq!(cpu.f & 0x40, 0x40);
    run(&mut cpu, &mut bus, 2);
    assert_eq!(cpu.b, 0x82);
}

#[test]
fn block_copy_repeats_until_counter_is_zero() {
    // LD HL,0x4800 ; LD DE,0x4900 ; LD BC,3 ; LDIR
    let (mut cpu, mut bus) = machine(&[0x21, 0x00, 0x48, 0x11, 0x00, 0x49, 0x01, 0x03, 0x00, 0xED, 0xB0]);
    bus.write(0x4800, 7);
    bus.write(0x4801, 8);
    bus.write(0x4802, 9);
    run(&mut cpu, &mut bus, 3);
    assert_eq!(run(&mut cpu, &mut bus, 3), vec![21, 21, 16]);
    assert_eq!(cpu.pc, 11);
    assert_eq!(cpu.bc(), 0);
    assert_eq!((bus.read(0x4900), bus.read(0x4901), bus.read(0x4902)), (7, 8, 9));
}

#[test]
fn exchanges_swap_registers() {
    // LD HL,0x1111 ; LD DE,0x2222 ; EX DE,HL ; EXX ; LD HL,5 ; EXX
    let (mut cpu, mut bus) = machine(&[0x21, 0x11, 0x11, 0x11, 0x22, 0x22, 0xEB, 0xD9, 0x21, 0x05, 0x00, 0xD9]);
    run(&mut cpu, &mut bus, 3);
    assert_eq!((cpu.hl(), cpu.de()), (0x2222, 0x1111));
    run(&mut cpu, &mut bus, 3);
    assert_eq!(cpu.hl(), 0x2222);
    assert_eq!(cpu.h_alt, 0);
    assert_eq!(cpu.l_alt, 5);
}

#[test]
fn djnz_counts_down() {
    // LD B,2 ; DJNZ -2
    let (mut cpu, mut bus) = machine(&[0x06, 0x02, 0x10, 0xFE]);
    assert_eq!(run(&mut cpu, &mut bus, 3), vec![7, 13, 8]);
    assert_eq!(cpu.b, 0);
    assert_eq!(cpu.pc, 4);
}

#[test]
fn sixteen_bit_add_and_subtract() {
    // LD HL,0xFFFF ; LD BC,1 ; ADD HL,BC ; SCF ; SBC HL,BC
    let (mut cpu, mut bus) = machine(&[0x21, 0xFF, 0xFF, 0x01, 0x01, 0x00, 0x09, 0x37, 0xED, 0x42]);
    assert_eq!(run(&mut cpu, &mut bus, 3), vec![10, 10, 11]);
    assert_eq!(cpu.hl(), 0);
    assert_eq!(cpu.f & 0x11, 0x11);
    run(&mut cpu, &mut bus, 2);
    assert_eq!(cpu.hl(), 0xFFFE);
}

#[test]
fn undefined_index_prefix_is_a_decode_error() {
    let (mut cpu, mut bus) = machine(&[0xDD, 0x00, 0x00, 0x00]);
    let before = cpu;
    assert_eq!(cpu.step(&mut bus), Err(DecodeError { address: 0, prefix: 0xDD, opcode: 0x00 }));
    assert_eq!(cpu, before);
}

#[test]
fn undefined_extended_opcode_is_a_decode_error() {
    let (mut cpu, mut bus) = machine(&[0x00, 0xED, 0x00]);
    cpu.step(&mut bus).unwrap();
    assert_eq!(cpu.step(&mut bus), Err(DecodeError { address: 1, prefix: 0xED, opcode: 0x00 }));
    assert_eq!(cpu.pc, 1);
}

#[test]
fn interrupt_stays_pending_while_disabled() {
    let (mut cpu, mut bus) = machine(&[0xF3, 0x00, 0x00]);
    cpu.interrupt();
    run(&mut cpu, &mut bus, 3);
    assert!(cpu.int_pending);
    assert_eq!(cpu.pc, 3);
}

#[test]
fn enabling_services_exactly_one_interrupt() {
    // LD SP,0x4F00 ; IM 1 ; EI ; NOP
    let (mut cpu, mut bus) = machine(&[0x31, 0x00, 0x4F, 0xED, 0x56, 0xFB, 0x00]);
    cpu.interrupt();
    assert_eq!(run(&mut cpu, &mut bus, 3), vec![10, 8, 4]);
    assert_eq!(cpu.im, InterruptMode::Mode1);
    assert!(cpu.int_pending && cpu.iff1);
    let pc = cpu.pc;
    assert_eq!(cpu.step(&mut bus), Ok(13));
    assert_eq!(cpu.pc, 0x38);
    assert_eq!(cpu.sp, 0x4EFE);
    assert_eq!(bus.read(0x4EFE), (pc & 0xFF) as u8);
    assert_eq!(bus.read(0x4EFF), (pc >> 8) as u8);
    assert!(!cpu.int_pending && !cpu.iff1);
    // the handler at 0x38 is a NOP; no second acknowledge follows
    assert_eq!(cpu.step(&mut bus), Ok(4));
    assert_eq!(cpu.pc, 0x39);
}

#[test]
fn mode_two_reads_the_vector_table() {
    // LD SP,0x4F00 ; LD A,0x48 ; LD I,A ; LD A,0x10 ; OUT (0),A ; IM 2 ; EI ; HALT
    let (mut cpu, mut bus) = machine(&[
        0x31, 0x00, 0x4F, 0x3E, 0x48, 0xED, 0x47, 0x3E, 0x10, 0xD3, 0x00, 0xED, 0x5E, 0xFB, 0x76,
    ]);
    bus.write(0x4810, 0x34);
    bus.write(0x4811, 0x12);
    run(&mut cpu, &mut bus, 8);
    assert!(cpu.halted);
    assert_eq!(cpu.step(&mut bus), Ok(4));
    assert_eq!(cpu.pc, 15);
    cpu.interrupt();
    assert_eq!(cpu.step(&mut bus), Ok(19));
    assert_eq!(cpu.pc, 0x1234);
    assert!(!cpu.halted);
    assert_eq!(bus.read(0x4EFE), 15);
}

#[test]
fn mode_zero_restarts_at_0x38_with_floating_bus() {
    let (mut cpu, mut bus) = machine(&[0x31, 0x00, 0x4F, 0xFB, 0x00]);
    run(&mut cpu, &mut bus, 2);
    cpu.interrupt();
    assert_eq!(cpu.step(&mut bus), Ok(13));
    assert_eq!(cpu.pc, 0x38);
}

#[test]
fn slice_runs_load_and_store_exactly() {
    // LD A,0x42 ; LD (0x4C00),A ; JR -2
    let (mut cpu, mut bus) = machine(&[0x3E, 0x42, 0x32, 0x00, 0x4C, 0x18, 0xFE]);
    assert_eq!(cpu.run_cycles(&mut bus, 20), Ok(20));
    assert_eq!(bus.read(0x4C00), 0x42);
    assert_eq!(cpu.cycles, 20);
    assert_eq!(cpu.pc, 5);
    assert_eq!(cpu.overshoot, 0);
    assert!(cpu.int_pending);
}

#[test]
fn slice_overshoot_carries_into_next_slice() {
    let (mut cpu, mut bus) = machine(&[0x3E, 0x42, 0x32, 0x00, 0x4C, 0x18, 0xFE]);
    assert_eq!(cpu.run_cycles(&mut bus, 15), Ok(20));
    assert_eq!(cpu.overshoot, 5);
    assert_eq!(cpu.run_cycles(&mut bus, 15), Ok(12));
    assert_eq!(cpu.overshoot, 2);
    assert_eq!(cpu.cycles, 32);
}

#[test]
fn slice_stops_at_decode_error() {
    let (mut cpu, mut bus) = machine(&[0x00, 0xFD, 0x00]);
    assert_eq!(cpu.run_cycles(&mut bus, 100), Err(DecodeError { address: 1, prefix: 0xFD, opcode: 0 }));
    assert_eq!(cpu.cycles, 4);
    assert!(!cpu.int_pending);
}

#[test]
fn reset_twice_equals_reset_once() {
    let mut emu = PacmanEmulator::new();
    emu.memory.load_image(&[0x3E, 0x42, 0x32, 0x00, 0x4C, 0x18, 0xFE]).unwrap();
    emu.run_frame().unwrap();
    emu.memory.write(0x4000, 9);
    emu.reset();
    let cpu_once = emu.cpu;
    let ram_once: Vec<u8> = (0x4000u32..0x5100).map(|a| emu.memory.read(a as u16)).collect();
    emu.reset();
    assert_eq!(emu.cpu, cpu_once);
    assert_eq!(emu.cpu, Z80::new());
    assert_eq!(emu.cpu.cycles, 0);
    let ram_twice: Vec<u8> = (0x4000u32..0x5100).map(|a| emu.memory.read(a as u16)).collect();
    assert_eq!(ram_once, ram_twice);
    assert!(ram_twice[..0x1000].iter().all(|&b| b == 0));
    assert_eq!(emu.memory.io_latch().iter().filter(|&&b| b != 0).count(), 0);
    assert_eq!(emu.memory.read(0), 0x3E);
}

#[test]
fn frame_runs_budget_and_asserts_interrupt() {
    let mut emu = PacmanEmulator::new();
    emu.memory.load_image(&[0x18, 0xFE]).unwrap();
    let spent = emu.run_frame().unwrap();
    assert!(spent >= 51200 && spent < 51200 + 12);
    assert_eq!(emu.cpu.cycles, spent);
    assert!(emu.cpu.int_pending);
}

#[test]
fn indexed_loads_and_stores() {
    // LD IX,0x4800 ; LD (IX+5),0x77 ; LD A,(IX+5) ; INC (IX-1) ; LD IY,0x4900 ; LD (IY+0),A
    let (mut cpu, mut bus) = machine(&[
        0xDD, 0x21, 0x00, 0x48, 0xDD, 0x36, 0x05, 0x77, 0xDD, 0x7E, 0x05, 0xDD, 0x34, 0xFF, 0xFD,
        0x21, 0x00, 0x49, 0xFD, 0x77, 0x00,
    ]);
    assert_eq!(run(&mut cpu, &mut bus, 6), vec![14, 19, 19, 23, 14, 19]);
    assert_eq!(cpu.ix, 0x4800);
    assert_eq!(cpu.a, 0x77);
    assert_eq!(bus.read(0x4805), 0x77);
    assert_eq!(bus.read(0x47FF), 1);
    assert_eq!(bus.read(0x4900), 0x77);
}

#[test]
fn indexed_bit_operations() {
    // LD IX,0x4800 ; SET 3,(IX+1) ; BIT 3,(IX+1) ; RLC (IX+1)
    let (mut cpu, mut bus) = machine(&[
        0xDD, 0x21, 0x00, 0x48, 0xDD, 0xCB, 0x01, 0xDE, 0xDD, 0xCB, 0x01, 0x5E, 0xDD, 0xCB, 0x01,
        0x06,
    ]);
    assert_eq!(run(&mut cpu, &mut bus, 4), vec![14, 23, 20, 23]);
    assert_eq!(bus.read(0x4801), 0x10);
    assert_eq!(cpu.pc, 16);
}

#[test]
fn index_register_on_the_stack() {
    // LD SP,0x4F00 ; LD IX,0xBEEF ; PUSH IX ; POP IY ; JP (IY)
    let (mut cpu, mut bus) = machine(&[
        0x31, 0x00, 0x4F, 0xDD, 0x21, 0xEF, 0xBE, 0xDD, 0xE5, 0xFD, 0xE1, 0xFD, 0xE9,
    ]);
    assert_eq!(run(&mut cpu, &mut bus, 5), vec![10, 14, 15, 14, 8]);
    assert_eq!(cpu.iy, 0xBEEF);
    assert_eq!(cpu.pc, 0xBEEF);
    assert_eq!(cpu.sp, 0x4F00);
}

#[test]
fn compare_block_stops_at_match() {
    // LD HL,0x4800 ; LD BC,5 ; LD A,0x33 ; CPIR
    let (mut cpu, mut bus) = machine(&[0x21, 0x00, 0x48, 0x01, 0x05, 0x00, 0x3E, 0x33, 0xED, 0xB1]);
    bus.write(0x4800, 0x11);
    bus.write(0x4801, 0x22);
    bus.write(0x4802, 0x33);
    run(&mut cpu, &mut bus, 3);
    assert_eq!(run(&mut cpu, &mut bus, 3), vec![21, 21, 16]);
    assert_eq!(cpu.hl(), 0x4803);
    assert_eq!(cpu.bc(), 2);
    assert_eq!(cpu.f & 0x46, 0x46);
    assert_eq!(cpu.pc, 10);
}

#[test]
fn digit_rotation_left() {
    // LD HL,0x4800 ; LD A,0x12 ; RLD
    let (mut cpu, mut bus) = machine(&[0x21, 0x00, 0x48, 0x3E, 0x12, 0xED, 0x6F]);
    bus.write(0x4800, 0x34);
    assert_eq!(run(&mut cpu, &mut bus, 3), vec![10, 7, 18]);
    assert_eq!(cpu.a, 0x13);
    assert_eq!(bus.read(0x4800), 0x42);
}

#[test]
fn digit_rotation_right() {
    // LD HL,0x4800 ; LD A,0x12 ; RRD
    let (mut cpu, mut bus) = machine(&[0x21, 0x00, 0x48, 0x3E, 0x12, 0xED, 0x67]);
    bus.write(0x4800, 0x34);
    run(&mut cpu, &mut bus, 3);
    assert_eq!(cpu.a, 0x14);
    assert_eq!(bus.read(0x4800), 0x23);
}

#[test]
fn port_input_reads_zero() {
    // LD B,9 ; IN B,(C)
    let (mut cpu, mut bus) = machine(&[0x06, 0x09, 0xED, 0x40]);
    assert_eq!(run(&mut cpu, &mut bus, 2), vec![7, 12]);
    assert_eq!(cpu.b, 0);
    assert_eq!(cpu.f, 0x44);
}

#[test]
fn port_zero_output_latches_vector() {
    // LD C,0 ; LD A,0x20 ; OUT (C),A
    let (mut cpu, mut bus) = machine(&[0x0E, 0x00, 0x3E, 0x20, 0xED, 0x79]);
    run(&mut cpu, &mut bus, 3);
    assert_eq!(cpu.data_bus, 0x20);
}

#[test]
fn refresh_register_load_is_a_decode_error() {
    let (mut cpu, mut bus) = machine(&[0xED, 0x5F]);
    assert_eq!(cpu.step(&mut bus), Err(DecodeError { address: 0, prefix: 0xED, opcode: 0x5F }));
}
