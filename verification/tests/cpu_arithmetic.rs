use nes_core::asc::MemoryMapped;
use nes_core::cpu::Cpu;
use nes_core::ram::Ram;

#[test]
fn adc_matches_truth_table_for_all_inputs() {
    for a in 0..=255u16 {
        for b in 0..=255u16 {
            for c in 0..=1u16 {
                let mut cpu = Cpu::new();
                cpu.a = a as u8;
                cpu.carry_flag = c == 1;
                cpu.add_with_carry(b as u8);
                let total = a + b + c;
                let result = (total & 0xff) as u8;
                let signed = (a as u8 as i8) as i16 + (b as u8 as i8) as i16 + c as i16;
                assert_eq!(cpu.a, result);
                assert_eq!(cpu.carry_flag, total > 0xff);
                assert_eq!(cpu.overflow_flag, signed < -128 || signed > 127);
                assert_eq!(
                    cpu.overflow_flag,
                    (!(a as u8 ^ b as u8) & (a as u8 ^ result)) & 0x80 != 0
                );
                assert_eq!(cpu.zero_flag, result == 0);
                assert_eq!(cpu.negative_flag, result & 0x80 != 0);
            }
        }
    }
}

#[test]
fn adc_examples() {
    let mut cpu = Cpu::new();
    cpu.a = 0x50;
    cpu.add_with_carry(0x50);
    assert_eq!(cpu.a, 0xA0);
    assert!(cpu.overflow_flag && !cpu.carry_flag && cpu.negative_flag);

    let mut cpu = Cpu::new();
    cpu.a = 0xFF;
    cpu.carry_flag = true;
    cpu.add_with_carry(0x00);
    assert_eq!(cpu.a, 0x00);
    assert!(cpu.carry_flag && cpu.zero_flag && !cpu.overflow_flag);

    let mut cpu = Cpu::new();
    cpu.a = 0x80;
    cpu.add_with_carry(0xFF);
    assert_eq!(cpu.a, 0x7F);
    assert!(cpu.carry_flag && cpu.overflow_flag);
}

#[test]
fn sbc_is_adc_of_complement_for_all_inputs() {
    for a in 0..=255u16 {
        for b in 0..=255u16 {
            for c in 0..=1u16 {
                let mut ram = Ram::new();
                ram.write(0x8000, 0xE9);
                ram.write(0x8001, b as u8);
                let mut cpu = Cpu::new();
                cpu.pc = 0x8000;
                cpu.a = a as u8;
                cpu.carry_flag = c == 1;
                assert!(cpu.read_instruction(&mut ram).is_ok());
                let expected = (a as i32 - b as i32 - (1 - c as i32)).rem_euclid(256) as u8;
                assert_eq!(cpu.a, expected);
                assert_eq!(cpu.carry_flag, a as i32 - b as i32 - (1 - c as i32) >= 0);
            }
        }
    }
}

#[test]
fn adc_instruction_reads_operand() {
    let mut ram = Ram::new();
    ram.load_vec_at(vec![0x69, 0x01, 0x65, 0x10, 0xEB, 0x01], 0x8000);
    ram.write(0x10, 0x7F);
    let mut cpu = Cpu::new();
    cpu.pc = 0x8000;
    cpu.a = 1;
    assert!(cpu.read_instruction(&mut ram).is_ok());
    assert_eq!(cpu.a, 2);
    assert!(cpu.read_instruction(&mut ram).is_ok());
    assert_eq!(cpu.a, 0x81);
    assert!(cpu.overflow_flag);
    cpu.carry_flag = true;
    assert!(cpu.read_instruction(&mut ram).is_ok());
    assert_eq!(cpu.a, 0x80);
    assert_eq!(cpu.cycles, 2 + 3 + 2);
}

#[test]
fn status_word_packs_flags_in_order() {
    let mut cpu = Cpu::new();
    cpu.carry_flag = true;
    assert_eq!(cpu.status_to_word(), 0x01);
    cpu.zero_flag = true;
    assert_eq!(cpu.status_to_word(), 0x03);
    cpu.interrupt_flag = true;
    assert_eq!(cpu.status_to_word(), 0x07);
    cpu.decimal_flag = true;
    assert_eq!(cpu.status_to_word(), 0x0F);
    cpu.break_cmd_flag = true;
    assert_eq!(cpu.status_to_word(), 0x1F);
    cpu.reserved_flag = true;
    assert_eq!(cpu.status_to_word(), 0x3F);
    cpu.overflow_flag = true;
    assert_eq!(cpu.status_to_word(), 0x7F);
    cpu.negative_flag = true;
    assert_eq!(cpu.status_to_word(), 0xFF);
}

#[test]
fn status_word_round_trips_for_all_bytes() {
    for w in 0..=255u8 {
        let mut cpu = Cpu::new();
        cpu.word_to_status(w);
        assert_eq!(cpu.status_to_word(), w);
        assert_eq!(cpu.carry_flag, w & 1 != 0);
        assert_eq!(cpu.overflow_flag, w & 0x40 != 0);
        assert_eq!(cpu.negative_flag, w & 0x80 != 0);
    }
}

#[test]
fn push_long_pop_long_round_trip_for_all_words() {
    let mut ram = Ram::new();
    let mut cpu = Cpu::new();
    for sp in [0xffu8, 0x00, 0x01, 0x80] {
        for v in 0..=0xffffu16 {
            cpu.sp = sp;
            cpu.push_long(v, &mut ram);
            assert_eq!(cpu.sp, sp.wrapping_sub(2));
            assert_eq!(cpu.pop_long(&mut ram), v);
            assert_eq!(cpu.sp, sp);
        }
    }
}

#[test]
fn push_stores_at_stack_page_then_decrements() {
    let mut ram = Ram::new();
    let mut cpu = Cpu::new();
    cpu.sp = 0x80;
    cpu.push(0xAB, &mut ram);
    assert_eq!(ram.read(0x0180), 0xAB);
    assert_eq!(cpu.sp, 0x7F);
    assert_eq!(cpu.pop(&mut ram), 0xAB);
    assert_eq!(cpu.sp, 0x80);
    cpu.push_long(0x1234, &mut ram);
    assert_eq!(ram.read(0x0180), 0x12);
    assert_eq!(ram.read(0x017F), 0x34);
}

#[test]
fn stack_pointer_wraps_over_256_pushes_and_pops() {
    for start in [0xffu8, 0x00, 0x37] {
        let mut ram = Ram::new();
        let mut cpu = Cpu::new();
        cpu.sp = start;
        for i in 0..256u16 {
            cpu.push(i as u8, &mut ram);
        }
        assert_eq!(cpu.sp, start);
        for i in (0..256u16).rev() {
            assert_eq!(cpu.pop(&mut ram), i as u8);
        }
        assert_eq!(cpu.sp, start);
    }
}

#[test]
fn stack_pointer_wraps_from_zero() {
    let mut ram = Ram::new();
    let mut cpu = Cpu::new();
    cpu.sp = 0x00;
    cpu.push(0x11, &mut ram);
    assert_eq!(cpu.sp, 0xff);
    assert_eq!(ram.read(0x0100), 0x11);
    assert_eq!(cpu.pop(&mut ram), 0x11);
    assert_eq!(cpu.sp, 0x00);
}
