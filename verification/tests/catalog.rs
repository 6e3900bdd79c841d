use nes_core::instruction::{decode, AddressingMode, Instruction, InstructionKind};

#[test]
fn catalog_holds_231_opcodes() {
    let known = (0..=255u8).filter(|op| decode(*op).is_some()).count();
    assert_eq!(known, 231);
}

#[test]
fn catalog_lacks_the_halting_opcodes() {
    for op in [0x02u8, 0x12, 0x22, 0x32, 0x42, 0x52, 0x62, 0x72, 0x92, 0xB2, 0xD2, 0xF2] {
        assert_eq!(decode(op), None);
    }
}

#[test]
fn catalog_entries() {
    let entry = |kind, addr_mode, cycles| Some(Instruction { kind, addr_mode, cycles });
    assert_eq!(decode(0xEA), entry(InstructionKind::Nop, AddressingMode::Implicit, 2));
    assert_eq!(decode(0xA9), entry(InstructionKind::Lda, AddressingMode::Immediate, 2));
    assert_eq!(decode(0xA1), entry(InstructionKind::Lda, AddressingMode::IndexedIndirect, 6));
    assert_eq!(decode(0xB1), entry(InstructionKind::Lda, AddressingMode::IndirectIndexed, 5));
    assert_eq!(decode(0x9D), entry(InstructionKind::Sta, AddressingMode::AbsoluteX, 5));
    assert_eq!(decode(0x6C), entry(InstructionKind::Jmp, AddressingMode::Indirect, 5));
    assert_eq!(decode(0x20), entry(InstructionKind::Jsr, AddressingMode::Absolute, 6));
    assert_eq!(decode(0xD0), entry(InstructionKind::Bne, AddressingMode::Relative, 2));
    assert_eq!(decode(0x0A), entry(InstructionKind::Asl, AddressingMode::Accumulator, 2));
    assert_eq!(decode(0x1E), entry(InstructionKind::AslAddr, AddressingMode::AbsoluteX, 7));
    assert_eq!(decode(0x07), entry(InstructionKind::Slo, AddressingMode::ZeroPage, 5));
    assert_eq!(decode(0x03), entry(InstructionKind::Slo, AddressingMode::IndexedIndirect, 8));
    assert_eq!(decode(0x00), entry(InstructionKind::Brk, AddressingMode::Implicit, 7));
    assert_eq!(decode(0xEB), entry(InstructionKind::Sbc, AddressingMode::Immediate, 2));
    assert_eq!(decode(0xE8), entry(InstructionKind::Incx, AddressingMode::Implicit, 2));
    assert_eq!(decode(0x83), entry(InstructionKind::Sax, AddressingMode::IndexedIndirect, 6));
    assert_eq!(decode(0xC1), entry(InstructionKind::Cmp, AddressingMode::IndexedIndirect, 5));
    assert_eq!(decode(0xD1), entry(InstructionKind::Cmp, AddressingMode::IndirectIndexed, 6));
    assert_eq!(decode(0xFF), entry(InstructionKind::Isc, AddressingMode::AbsoluteX, 7));
}
