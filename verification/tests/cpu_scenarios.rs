use nes_core::asc::MemoryMapped;
use nes_core::cpu::{Cpu, UnimplementedOpcode};
use nes_core::ram::Ram;

fn machine_with(program: Vec<u8>, origin: u16) -> (Cpu, Ram) {
    let mut ram = Ram::new();
    ram.load_vec_at(program, origin);
    ram.load_vec_at(vec![(origin & 0xff) as u8, (origin >> 8) as u8], 0xfffc);
    let mut cpu = Cpu::new();
    cpu.reset(&mut ram);
    (cpu, ram)
}

#[test]
fn load_store_transfer_sequence() {
    let (mut cpu, mut ram) = machine_with(vec![0xA9, 0x05, 0x85, 0x10, 0xA6, 0x10, 0xE8], 0x8000);
    assert_eq!(cpu.pc, 0x8000);
    for _ in 0..4 {
        assert!(cpu.read_instruction(&mut ram).is_ok());
    }
    assert_eq!(cpu.a, 5);
    assert_eq!(ram.read(0x10), 5);
    assert_eq!(cpu.x, 6);
    assert!(!cpu.zero_flag);
    assert!(!cpu.negative_flag);
    assert_eq!(cpu.pc, 0x8007);
    assert_eq!(cpu.cycles, 2 + 3 + 3 + 2);
}

#[test]
fn bne_with_displacement_minus_two_lands_on_itself() {
    let (mut cpu, mut ram) = machine_with(vec![0xD0, 0xFE], 0x8000);
    cpu.zero_flag = false;
    assert_eq!(cpu.read_instruction(&mut ram), Ok(()));
    assert_eq!(cpu.pc, 0x8000);
    assert_eq!(cpu.cycles, 2);
}

#[test]
fn bne_not_taken_goes_to_next_instruction() {
    let (mut cpu, mut ram) = machine_with(vec![0xD0, 0xFE], 0x8000);
    cpu.zero_flag = true;
    assert_eq!(cpu.read_instruction(&mut ram), Ok(()));
    assert_eq!(cpu.pc, 0x8002);
}

#[test]
fn branches_follow_their_flags() {
    // opcode, flag setter, taken
    let cases: Vec<(u8, fn(&mut Cpu), bool)> = vec![
        (0xF0, |c| c.zero_flag = true, true),
        (0xF0, |c| c.zero_flag = false, false),
        (0x10, |c| c.negative_flag = false, true),
        (0x10, |c| c.negative_flag = true, false),
        (0x30, |c| c.negative_flag = true, true),
        (0x90, |c| c.carry_flag = false, true),
        (0x90, |c| c.carry_flag = true, false),
        (0xB0, |c| c.carry_flag = true, true),
        (0x50, |c| c.overflow_flag = false, true),
        (0x70, |c| c.overflow_flag = true, true),
        (0x70, |c| c.overflow_flag = false, false),
    ];
    for (opcode, set, taken) in cases {
        let (mut cpu, mut ram) = machine_with(vec![opcode, 0x10], 0x8000);
        set(&mut cpu);
        assert_eq!(cpu.read_instruction(&mut ram), Ok(()));
        assert_eq!(cpu.pc, if taken { 0x8012 } else { 0x8002 }, "opcode {:#04x}", opcode);
    }
}

#[test]
fn branch_backwards_across_page() {
    let (mut cpu, mut ram) = machine_with(vec![0xD0, 0x80], 0x8000);
    assert_eq!(cpu.read_instruction(&mut ram), Ok(()));
    assert_eq!(cpu.pc, 0x8002 - 128);
}

#[test]
fn slo_shifts_memory_and_ors_accumulator() {
    let (mut cpu, mut ram) = machine_with(vec![0x07, 0x40], 0x8000);
    ram.write(0x40, 0b1000_0001);
    cpu.a = 0;
    assert_eq!(cpu.read_instruction(&mut ram), Ok(()));
    assert!(cpu.carry_flag);
    assert_eq!(ram.read(0x40), 0b0000_0010);
    assert_eq!(cpu.a, 0b0000_0010);
    assert_eq!(cpu.pc, 0x8002);
    assert_eq!(cpu.cycles, 5);
    assert!(!cpu.zero_flag);
    assert!(!cpu.negative_flag);
}

#[test]
fn unimplemented_opcode_is_reported_and_changes_nothing() {
    let (mut cpu, mut ram) = machine_with(vec![0x02], 0x8000);
    let before = cpu;
    assert_eq!(cpu.read_instruction(&mut ram), Err(UnimplementedOpcode { opcode: 0x02 }));
    assert_eq!(cpu, before);
    assert_eq!(cpu.run_instruction(0xFF - 0xFD, &mut ram), Err(UnimplementedOpcode { opcode: 0x02 }));
    assert_eq!(cpu, before);
}

#[test]
fn new_cpu_has_stack_pointer_at_top() {
    let cpu = Cpu::new();
    assert_eq!(cpu.sp, 0xff);
    assert_eq!(cpu.pc, 0);
    assert_eq!((cpu.a, cpu.x, cpu.y), (0, 0, 0));
    assert_eq!(cpu.status_to_word(), 0);
    assert_eq!(cpu.cycles, 0);
}

#[test]
fn reset_loads_program_counter_from_vector() {
    let mut ram = Ram::new();
    ram.write(0xfffc, 0x34);
    ram.write(0xfffd, 0x12);
    let mut cpu = Cpu::new();
    cpu.a = 7;
    cpu.reset(&mut ram);
    assert_eq!(cpu.pc, 0x1234);
    assert_eq!(cpu.a, 7);
    assert_eq!(cpu.sp, 0xff);
}

#[test]
fn nmi_pushes_pc_and_status_then_jumps() {
    let mut ram = Ram::new();
    ram.write(0xfffa, 0x00);
    ram.write(0xfffb, 0x90);
    let mut cpu = Cpu::new();
    cpu.pc = 0x8123;
    cpu.carry_flag = true;
    cpu.negative_flag = true;
    cpu.nmi(&mut ram);
    assert_eq!(cpu.pc, 0x9000);
    assert_eq!(cpu.sp, 0xfc);
    assert_eq!(ram.read(0x01ff), 0x81);
    assert_eq!(ram.read(0x01fe), 0x23);
    assert_eq!(ram.read(0x01fd), 0b1000_0001);
}

#[test]
fn brk_pushes_return_address_and_status_with_break_set() {
    let (mut cpu, mut ram) = machine_with(vec![0x00], 0x8000);
    ram.write(0xfffe, 0x00);
    ram.write(0xffff, 0xA0);
    cpu.carry_flag = true;
    assert_eq!(cpu.read_instruction(&mut ram), Ok(()));
    assert_eq!(cpu.pc, 0xA000);
    assert!(cpu.interrupt_flag);
    assert!(cpu.break_cmd_flag);
    assert!(cpu.reserved_flag);
    assert_eq!(cpu.sp, 0xfc);
    assert_eq!(ram.read(0x01ff), 0x80);
    assert_eq!(ram.read(0x01fe), 0x02);
    assert_eq!(ram.read(0x01fd), 0b0011_0001);
    assert_eq!(cpu.cycles, 7);
}

#[test]
fn rti_restores_status_and_program_counter() {
    let (mut cpu, mut ram) = machine_with(vec![0x40], 0x8000);
    cpu.push_long(0x1234, &mut ram);
    cpu.push(0b1100_0011, &mut ram);
    assert_eq!(cpu.read_instruction(&mut ram), Ok(()));
    assert_eq!(cpu.pc, 0x1234);
    assert_eq!(cpu.sp, 0xff);
    assert!(cpu.carry_flag && cpu.zero_flag && cpu.overflow_flag && cpu.negative_flag);
    assert!(!cpu.interrupt_flag && !cpu.decimal_flag && !cpu.break_cmd_flag && !cpu.reserved_flag);
    assert_eq!(cpu.cycles, 6);
}

#[test]
fn jsr_pushes_last_byte_of_instruction_and_rts_adds_one() {
    let (mut cpu, mut ram) = machine_with(vec![0x20, 0x00, 0x90], 0x8000);
    ram.write(0x9000, 0x60);
    assert_eq!(cpu.read_instruction(&mut ram), Ok(()));
    assert_eq!(cpu.pc, 0x9000);
    assert_eq!(cpu.sp, 0xfd);
    assert_eq!(ram.read(0x01ff), 0x80);
    assert_eq!(ram.read(0x01fe), 0x02);
    assert_eq!(cpu.read_instruction(&mut ram), Ok(()));
    assert_eq!(cpu.pc, 0x8003);
    assert_eq!(cpu.sp, 0xff);
    assert_eq!(cpu.cycles, 12);
}

#[test]
fn jmp_absolute_and_indirect() {
    let (mut cpu, mut ram) = machine_with(vec![0x4C, 0x34, 0x12], 0x8000);
    assert_eq!(cpu.read_instruction(&mut ram), Ok(()));
    assert_eq!(cpu.pc, 0x1234);
    assert_eq!(cpu.cycles, 3);

    let (mut cpu, mut ram) = machine_with(vec![0x6C, 0x00, 0x30], 0x8000);
    ram.write(0x3000, 0x78);
    ram.write(0x3001, 0x56);
    assert_eq!(cpu.read_instruction(&mut ram), Ok(()));
    assert_eq!(cpu.pc, 0x5678);
    assert_eq!(cpu.cycles, 5);
}

#[test]
fn jmp_indirect_reads_high_byte_across_page_boundary() {
    let (mut cpu, mut ram) = machine_with(vec![0x6C, 0xFF, 0x30], 0x8000);
    ram.write(0x30FF, 0x78);
    ram.write(0x3100, 0x56);
    ram.write(0x3000, 0x99);
    assert_eq!(cpu.read_instruction(&mut ram), Ok(()));
    assert_eq!(cpu.pc, 0x5678);
}

#[test]
fn program_counter_wraps_at_top_of_memory() {
    let mut ram = Ram::new();
    ram.write(0xffff, 0xEA);
    let mut cpu = Cpu::new();
    cpu.pc = 0xffff;
    assert_eq!(cpu.read_instruction(&mut ram), Ok(()));
    assert_eq!(cpu.pc, 0x0000);
}

#[test]
fn cycle_counter_wraps() {
    let (mut cpu, mut ram) = machine_with(vec![0xEA], 0x8000);
    cpu.cycles = usize::MAX;
    assert_eq!(cpu.read_instruction(&mut ram), Ok(()));
    assert_eq!(cpu.cycles, 1);
}

#[test]
fn zero_page_indexed_wraps_within_page_zero() {
    let (mut cpu, mut ram) = machine_with(vec![0xB5, 0xF0], 0x8000);
    cpu.x = 0x20;
    ram.write(0x0010, 0x77);
    ram.write(0x0110, 0x11);
    assert_eq!(cpu.read_instruction(&mut ram), Ok(()));
    assert_eq!(cpu.a, 0x77);
    assert_eq!(cpu.cycles, 4);

    let (mut cpu, mut ram) = machine_with(vec![0xB6, 0xFF], 0x8000);
    cpu.y = 0x02;
    ram.write(0x0001, 0x55);
    assert_eq!(cpu.read_instruction(&mut ram), Ok(()));
    assert_eq!(cpu.x, 0x55);
}

#[test]
fn absolute_indexed_wraps_at_sixteen_bits() {
    let (mut cpu, mut ram) = machine_with(vec![0xBD, 0xFF, 0xFF], 0x8000);
    cpu.x = 0x02;
    ram.write(0x0001, 0x42);
    assert_eq!(cpu.read_instruction(&mut ram), Ok(()));
    assert_eq!(cpu.a, 0x42);
    assert_eq!(cpu.pc, 0x8003);

    let (mut cpu, mut ram) = machine_with(vec![0xB9, 0x00, 0x20], 0x8000);
    cpu.y = 0x10;
    ram.write(0x2010, 0x80);
    assert_eq!(cpu.read_instruction(&mut ram), Ok(()));
    assert_eq!(cpu.a, 0x80);
    assert!(cpu.negative_flag);
}

#[test]
fn indexed_indirect_and_indirect_indexed() {
    // LDA ($20,X) with X = 4: pointer at $24/$25
    let (mut cpu, mut ram) = machine_with(vec![0xA1, 0x20], 0x8000);
    cpu.x = 4;
    ram.write(0x24, 0x00);
    ram.write(0x25, 0x30);
    ram.write(0x3000, 0x5A);
    assert_eq!(cpu.read_instruction(&mut ram), Ok(()));
    assert_eq!(cpu.a, 0x5A);
    assert_eq!(cpu.cycles, 6);
    assert_eq!(cpu.pc, 0x8002);

    // LDA ($20),Y with Y = 4: pointer at $20/$21, then plus Y
    let (mut cpu, mut ram) = machine_with(vec![0xB1, 0x20], 0x8000);
    cpu.y = 4;
    ram.write(0x20, 0xFE);
    ram.write(0x21, 0x30);
    ram.write(0x3102, 0xA5);
    assert_eq!(cpu.read_instruction(&mut ram), Ok(()));
    assert_eq!(cpu.a, 0xA5);
    assert_eq!(cpu.cycles, 5);
}

#[test]
fn page_zero_pointer_at_ff_wraps_within_page_zero() {
    // LDA ($FF),Y: low byte at $00FF, high byte at $0000
    let (mut cpu, mut ram) = machine_with(vec![0xB1, 0xFF], 0x8000);
    cpu.y = 0;
    ram.write(0x00FF, 0x34);
    ram.write(0x0100, 0x12);
    ram.write(0x0000, 0x99);
    ram.write(0x1234, 0x6B);
    ram.write(0x9934, 0x7C);
    assert_eq!(cpu.read_instruction(&mut ram), Ok(()));
    assert_eq!(cpu.a, 0x7C);

    // LDA ($F0,X) with X = $0F: the pointer lies at $FF and $00
    let (mut cpu, mut ram) = machine_with(vec![0xA1, 0xF0], 0x8000);
    cpu.x = 0x0F;
    ram.write(0x00FF, 0x34);
    ram.write(0x0100, 0x12);
    ram.write(0x0000, 0x99);
    ram.write(0x1234, 0x6B);
    ram.write(0x9934, 0x7C);
    assert_eq!(cpu.read_instruction(&mut ram), Ok(()));
    assert_eq!(cpu.a, 0x7C);
    assert_eq!(cpu.pc, 0x8002);
}

#[test]
fn page_zero_pointer_functions_wrap_within_page_zero() {
    let mut ram = Ram::new();
    ram.load_vec_at(vec![0x00, 0xFF], 0x8000);
    ram.write(0x00FF, 0x34);
    ram.write(0x0100, 0x12);
    ram.write(0x0000, 0x99);
    let mut cpu = Cpu::new();
    cpu.pc = 0x8000;
    cpu.x = 0;
    assert_eq!(cpu.inx(&mut ram), 0x9934);
    cpu.pc = 0x8000;
    cpu.y = 3;
    assert_eq!(cpu.iny(&mut ram), 0x9937);
    // the pointer of an indirect jump does cross the page
    ram.load_vec_at(vec![0x00, 0xFF, 0x00], 0x9000);
    cpu.pc = 0x9000;
    assert_eq!(cpu.ind(&mut ram), 0x1234);
}

#[test]
fn immediate_mode_names_the_operand_byte() {
    let mut ram = Ram::new();
    let mut cpu = Cpu::new();
    cpu.pc = 0x8000;
    assert_eq!(cpu.imm(&mut ram), 0x8001);
    assert_eq!(cpu.pc, 0x8001);
}

#[test]
fn addressing_functions_advance_pc_over_operands() {
    let mut ram = Ram::new();
    ram.load_vec_at(vec![0x00, 0x34, 0x12], 0x8000);
    let mut cpu = Cpu::new();
    cpu.pc = 0x8000;
    assert_eq!(cpu.zp(&mut ram), 0x34);
    assert_eq!(cpu.pc, 0x8001);
    cpu.pc = 0x8000;
    assert_eq!(cpu.abs(&mut ram), 0x1234);
    assert_eq!(cpu.pc, 0x8002);
    cpu.pc = 0x8000;
    cpu.x = 1;
    cpu.y = 2;
    assert_eq!(cpu.abx(&mut ram), 0x1235);
    cpu.pc = 0x8000;
    assert_eq!(cpu.aby(&mut ram), 0x1236);
    cpu.pc = 0x8000;
    assert_eq!(cpu.zpx(&mut ram), 0x35);
    cpu.pc = 0x8000;
    assert_eq!(cpu.zpy(&mut ram), 0x36);
    ram.write(0x1234, 0xCD);
    ram.write(0x1235, 0xAB);
    cpu.pc = 0x8000;
    assert_eq!(cpu.ind(&mut ram), 0xABCD);
    ram.write(0x35, 0x11);
    ram.write(0x36, 0x22);
    cpu.pc = 0x8000;
    assert_eq!(cpu.inx(&mut ram), 0x2211);
    ram.write(0x34, 0xFF);
    ram.write(0x35, 0x00);
    cpu.pc = 0x8000;
    assert_eq!(cpu.iny(&mut ram), 0x0101);
}

#[test]
fn stores_write_registers() {
    let (mut cpu, mut ram) = machine_with(vec![0x85, 0x10, 0x86, 0x11, 0x84, 0x12, 0x87, 0x13], 0x8000);
    cpu.a = 0b1100;
    cpu.x = 0b1010;
    cpu.y = 3;
    for _ in 0..4 {
        assert_eq!(cpu.read_instruction(&mut ram), Ok(()));
    }
    assert_eq!(ram.read(0x10), 0b1100);
    assert_eq!(ram.read(0x11), 0b1010);
    assert_eq!(ram.read(0x12), 3);
    assert_eq!(ram.read(0x13), 0b1000);
    assert_eq!(cpu.cycles, 12);
}

#[test]
fn lax_loads_accumulator_and_x() {
    let (mut cpu, mut ram) = machine_with(vec![0xA7, 0x10], 0x8000);
    ram.write(0x10, 0x80);
    assert_eq!(cpu.read_instruction(&mut ram), Ok(()));
    assert_eq!((cpu.a, cpu.x), (0x80, 0x80));
    assert!(cpu.negative_flag);
    assert!(!cpu.zero_flag);
}

#[test]
fn transfers_set_zero_and_negative() {
    let (mut cpu, mut ram) = machine_with(vec![0xAA, 0xA8, 0xBA, 0x8A, 0x98, 0x9A], 0x8000);
    cpu.a = 0;
    assert_eq!(cpu.read_instruction(&mut ram), Ok(()));
    assert_eq!(cpu.x, 0);
    assert!(cpu.zero_flag);
    assert_eq!(cpu.read_instruction(&mut ram), Ok(()));
    assert_eq!(cpu.y, 0);
    assert_eq!(cpu.read_instruction(&mut ram), Ok(()));
    assert_eq!(cpu.x, 0xff);
    assert!(cpu.negative_flag && !cpu.zero_flag);
    assert_eq!(cpu.read_instruction(&mut ram), Ok(()));
    assert_eq!(cpu.a, 0xff);
    assert_eq!(cpu.read_instruction(&mut ram), Ok(()));
    assert_eq!(cpu.a, 0);
    assert!(cpu.zero_flag);
    cpu.x = 0x42;
    cpu.zero_flag = true;
    assert_eq!(cpu.read_instruction(&mut ram), Ok(()));
    assert_eq!(cpu.sp, 0x42);
    assert!(cpu.zero_flag);
    assert_eq!(cpu.pc, 0x8006);
}

#[test]
fn php_sets_break_and_reserved_and_plp_restores() {
    let (mut cpu, mut ram) = machine_with(vec![0x08, 0x28], 0x8000);
    cpu.carry_flag = true;
    assert_eq!(cpu.read_instruction(&mut ram), Ok(()));
    assert_eq!(ram.read(0x01ff), 0b0011_0001);
    assert!(cpu.break_cmd_flag && cpu.reserved_flag);
    assert_eq!(cpu.cycles, 3);
    cpu.carry_flag = false;
    cpu.break_cmd_flag = false;
    assert_eq!(cpu.read_instruction(&mut ram), Ok(()));
    assert!(cpu.carry_flag && cpu.break_cmd_flag && cpu.reserved_flag);
    assert_eq!(cpu.sp, 0xff);
    assert_eq!(cpu.cycles, 7);
}

#[test]
fn pha_pla_round_trip() {
    let (mut cpu, mut ram) = machine_with(vec![0x48, 0xA9, 0x00, 0x68], 0x8000);
    cpu.a = 0x99;
    for _ in 0..3 {
        assert_eq!(cpu.read_instruction(&mut ram), Ok(()));
    }
    assert_eq!(cpu.a, 0x99);
    assert!(cpu.negative_flag);
    assert_eq!(cpu.sp, 0xff);
}

#[test]
fn logic_operations() {
    let (mut cpu, mut ram) = machine_with(vec![0x29, 0x0F, 0x49, 0xFF, 0x09, 0x01], 0x8000);
    cpu.a = 0x3C;
    assert_eq!(cpu.read_instruction(&mut ram), Ok(()));
    assert_eq!(cpu.a, 0x0C);
    assert_eq!(cpu.read_instruction(&mut ram), Ok(()));
    assert_eq!(cpu.a, 0xF3);
    assert!(cpu.negative_flag);
    assert_eq!(cpu.read_instruction(&mut ram), Ok(()));
    assert_eq!(cpu.a, 0xF3);
    assert_eq!(cpu.pc, 0x8006);
}

#[test]
fn bit_tests_memory_against_accumulator() {
    let (mut cpu, mut ram) = machine_with(vec![0x24, 0x10], 0x8000);
    ram.write(0x10, 0b1100_0000);
    cpu.a = 0b0011_1111;
    assert_eq!(cpu.read_instruction(&mut ram), Ok(()));
    assert!(cpu.zero_flag && cpu.overflow_flag && cpu.negative_flag);
    assert_eq!(cpu.a, 0b0011_1111);

    let (mut cpu, mut ram) = machine_with(vec![0x2C, 0x00, 0x20], 0x8000);
    ram.write(0x2000, 0b0000_0001);
    cpu.a = 1;
    cpu.overflow_flag = true;
    assert_eq!(cpu.read_instruction(&mut ram), Ok(()));
    assert!(!cpu.zero_flag && !cpu.overflow_flag && !cpu.negative_flag);
    assert_eq!(cpu.cycles, 4);
}

#[test]
fn compare_sets_carry_zero_negative() {
    let (mut cpu, mut ram) = machine_with(vec![0xC9, 0x10, 0xE0, 0x10, 0xC0, 0x10], 0x8000);
    cpu.a = 0x10;
    cpu.x = 0x0F;
    cpu.y = 0x90;
    assert_eq!(cpu.read_instruction(&mut ram), Ok(()));
    assert!(cpu.carry_flag && cpu.zero_flag && !cpu.negative_flag);
    assert_eq!(cpu.read_instruction(&mut ram), Ok(()));
    assert!(!cpu.carry_flag && !cpu.zero_flag && cpu.negative_flag);
    assert_eq!(cpu.read_instruction(&mut ram), Ok(()));
    assert!(cpu.carry_flag && !cpu.zero_flag && cpu.negative_flag);
    assert_eq!((cpu.a, cpu.x, cpu.y), (0x10, 0x0F, 0x90));
}

#[test]
fn increments_and_decrements() {
    let (mut cpu, mut ram) = machine_with(vec![0xE8, 0xC8, 0xCA, 0x88, 0xE6, 0x10, 0xC6, 0x11], 0x8000);
    cpu.x = 0xff;
    cpu.y = 0x7f;
    assert_eq!(cpu.read_instruction(&mut ram), Ok(()));
    assert_eq!(cpu.x, 0);
    assert!(cpu.zero_flag);
    assert_eq!(cpu.read_instruction(&mut ram), Ok(()));
    assert_eq!(cpu.y, 0x80);
    assert!(cpu.negative_flag);
    assert_eq!(cpu.read_instruction(&mut ram), Ok(()));
    assert_eq!(cpu.x, 0xff);
    assert_eq!(cpu.read_instruction(&mut ram), Ok(()));
    assert_eq!(cpu.y, 0x7f);
    ram.write(0x10, 0xff);
    assert_eq!(cpu.read_instruction(&mut ram), Ok(()));
    assert_eq!(ram.read(0x10), 0);
    assert!(cpu.zero_flag);
    assert_eq!(cpu.read_instruction(&mut ram), Ok(()));
    assert_eq!(ram.read(0x11), 0xff);
    assert!(cpu.negative_flag);
    assert_eq!(cpu.cycles, 2 + 2 + 2 + 2 + 5 + 5);
}

#[test]
fn flag_instructions() {
    let (mut cpu, mut ram) = machine_with(vec![0x38, 0xF8, 0x78, 0x18, 0xD8, 0x58, 0xB8], 0x8000);
    cpu.overflow_flag = true;
    for _ in 0..3 {
        assert_eq!(cpu.read_instruction(&mut ram), Ok(()));
    }
    assert!(cpu.carry_flag && cpu.decimal_flag && cpu.interrupt_flag);
    for _ in 0..4 {
        assert_eq!(cpu.read_instruction(&mut ram), Ok(()));
    }
    assert!(!cpu.carry_flag && !cpu.decimal_flag && !cpu.interrupt_flag && !cpu.overflow_flag);
    assert_eq!(cpu.cycles, 14);
}

#[test]
fn accumulator_shifts_update_carry_before_zero_and_negative() {
    let (mut cpu, mut ram) = machine_with(vec![0x0A, 0x4A, 0x2A, 0x6A], 0x8000);
    cpu.a = 0x80;
    assert_eq!(cpu.read_instruction(&mut ram), Ok(()));
    assert_eq!(cpu.a, 0);
    assert!(cpu.carry_flag && cpu.zero_flag && !cpu.negative_flag);
    cpu.a = 0x01;
    assert_eq!(cpu.read_instruction(&mut ram), Ok(()));
    assert_eq!(cpu.a, 0);
    assert!(cpu.carry_flag && cpu.zero_flag);
    cpu.a = 0x40;
    assert_eq!(cpu.read_instruction(&mut ram), Ok(()));
    assert_eq!(cpu.a, 0x81);
    assert!(!cpu.carry_flag && cpu.negative_flag);
    cpu.carry_flag = true;
    cpu.a = 0x02;
    assert_eq!(cpu.read_instruction(&mut ram), Ok(()));
    assert_eq!(cpu.a, 0x81);
    assert!(!cpu.carry_flag && cpu.negative_flag);
    assert_eq!(cpu.pc, 0x8004);
    assert_eq!(cpu.cycles, 8);
}

#[test]
fn memory_shifts() {
    let (mut cpu, mut ram) = machine_with(vec![0x06, 0x10, 0x46, 0x10, 0x26, 0x10, 0x66, 0x10], 0x8000);
    ram.write(0x10, 0xC1);
    assert_eq!(cpu.read_instruction(&mut ram), Ok(()));
    assert_eq!(ram.read(0x10), 0x82);
    assert!(cpu.carry_flag);
    assert_eq!(cpu.read_instruction(&mut ram), Ok(()));
    assert_eq!(ram.read(0x10), 0x41);
    assert!(!cpu.carry_flag);
    cpu.carry_flag = true;
    assert_eq!(cpu.read_instruction(&mut ram), Ok(()));
    assert_eq!(ram.read(0x10), 0x83);
    assert!(!cpu.carry_flag);
    assert_eq!(cpu.read_instruction(&mut ram), Ok(()));
    assert_eq!(ram.read(0x10), 0x41);
    assert!(cpu.carry_flag);
    assert_eq!(cpu.pc, 0x8008);
    assert_eq!(cpu.cycles, 20);
}

#[test]
fn shift_helpers_step_the_program_counter() {
    let mut cpu = Cpu::new();
    cpu.pc = 0x10;
    assert_eq!(cpu.shift_left(0x81), 0x02);
    assert!(cpu.carry_flag);
    assert_eq!(cpu.pc, 0x11);
    assert_eq!(cpu.shift_right(0x81), 0x40);
    assert!(cpu.carry_flag);
    assert_eq!(cpu.rotate_left(0x00), 0x01);
    assert!(!cpu.carry_flag);
    cpu.carry_flag = true;
    assert_eq!(cpu.rotate_right(0x00), 0x80);
    assert!(!cpu.carry_flag && cpu.negative_flag);
    assert_eq!(cpu.pc, 0x14);
}

#[test]
fn undocumented_fusions() {
    // SRE: LSR memory then EOR
    let (mut cpu, mut ram) = machine_with(vec![0x47, 0x10], 0x8000);
    ram.write(0x10, 0x03);
    cpu.a = 0xFF;
    assert_eq!(cpu.read_instruction(&mut ram), Ok(()));
    assert_eq!(ram.read(0x10), 0x01);
    assert_eq!(cpu.a, 0xFE);
    assert!(cpu.carry_flag);
    assert_eq!(cpu.pc, 0x8002);

    // RLA: ROL memory then AND
    let (mut cpu, mut ram) = machine_with(vec![0x27, 0x10], 0x8000);
    ram.write(0x10, 0x81);
    cpu.a = 0x0F;
    cpu.carry_flag = true;
    assert_eq!(cpu.read_instruction(&mut ram), Ok(()));
    assert_eq!(ram.read(0x10), 0x03);
    assert_eq!(cpu.a, 0x03);
    assert!(cpu.carry_flag);
    assert_eq!(cpu.pc, 0x8002);

    // RRA: ROR memory then ADC
    let (mut cpu, mut ram) = machine_with(vec![0x67, 0x10], 0x8000);
    ram.write(0x10, 0x03);
    cpu.a = 0x10;
    assert_eq!(cpu.read_instruction(&mut ram), Ok(()));
    assert_eq!(ram.read(0x10), 0x01);
    assert_eq!(cpu.a, 0x12);
    assert!(!cpu.carry_flag);
    assert_eq!(cpu.pc, 0x8002);

    // DCP: DEC memory then CMP
    let (mut cpu, mut ram) = machine_with(vec![0xC7, 0x10], 0x8000);
    ram.write(0x10, 0x11);
    cpu.a = 0x10;
    assert_eq!(cpu.read_instruction(&mut ram), Ok(()));
    assert_eq!(ram.read(0x10), 0x10);
    assert!(cpu.zero_flag && cpu.carry_flag);
    assert_eq!(cpu.pc, 0x8002);

    // ISC: INC memory then SBC
    let (mut cpu, mut ram) = machine_with(vec![0xE7, 0x10], 0x8000);
    ram.write(0x10, 0x04);
    cpu.a = 0x10;
    cpu.carry_flag = true;
    assert_eq!(cpu.read_instruction(&mut ram), Ok(()));
    assert_eq!(ram.read(0x10), 0x05);
    assert_eq!(cpu.a, 0x0B);
    assert!(cpu.carry_flag);
    assert_eq!(cpu.pc, 0x8002);
    assert_eq!(cpu.cycles, 5);
}

#[test]
fn nop_variants_consume_their_operands() {
    let (mut cpu, mut ram) = machine_with(vec![0xEA, 0x80, 0x00, 0x04, 0x00, 0x0C, 0x00, 0x00, 0x1C, 0x00, 0x00], 0x8000);
    for _ in 0..5 {
        assert_eq!(cpu.read_instruction(&mut ram), Ok(()));
    }
    assert_eq!(cpu.pc, 0x800B);
    assert_eq!(cpu.cycles, 2 + 2 + 3 + 4 + 4);
}
