//! The instruction catalog: which operation, addressing mode and base cycle
//! cost each opcode byte stands for.

use vstd::prelude::*;

verus! {

/// How an instruction finds its operand.
#[derive(Clone, Copy, Debug, PartialEq, Eq, Structural)]
pub enum AddressingMode {
    /// No operand.
    Implicit,
    /// The accumulator is the operand.
    Accumulator,
    /// The operand is the byte after the opcode.
    Immediate,
    /// The byte after the opcode is an address in page zero.
    ZeroPage,
    /// Page-zero address plus X, wrapping within page zero.
    ZeroPageX,
    /// Page-zero address plus Y, wrapping within page zero.
    ZeroPageY,
    /// The byte after the opcode is a signed branch displacement.
    Relative,
    /// The two bytes after the opcode are an address, low byte first.
    Absolute,
    /// Absolute address plus X, wrapping at 16 bits.
    AbsoluteX,
    /// Absolute address plus Y, wrapping at 16 bits.
    AbsoluteY,
    /// The two bytes after the opcode point at the address.
    Indirect,
    /// `(zp,X)`: the page-zero operand plus X points at the address.
    IndexedIndirect,
    /// `(zp),Y`: the page-zero operand points at an address, to which Y is added.
    IndirectIndexed,
}

/// The operations of the catalog, official and undocumented.
#[derive(Clone, Copy, Debug, PartialEq, Eq, Structural)]
pub enum InstructionKind {
    /// Does nothing but consume its operand.
    Nop,
    /// Loads the accumulator.
    Lda,
    /// Loads X.
    Ldx,
    /// Loads Y.
    Ldy,
    /// Loads the accumulator and X with one byte (undocumented).
    Lax,
    /// Stores the accumulator.
    Sta,
    /// Stores X.
    Stx,
    /// Stores Y.
    Sty,
    /// Stores `A & X` (undocumented).
    Sax,
    /// Copies the accumulator to X.
    Tax,
    /// Copies the accumulator to Y.
    Tay,
    /// Copies X to the accumulator.
    Txa,
    /// Copies Y to the accumulator.
    Tya,
    /// Copies the stack pointer to X.
    Tsx,
    /// Copies X to the stack pointer.
    Txs,
    /// Pushes the accumulator.
    Pha,
    /// Pushes the status byte.
    Php,
    /// Pops the accumulator.
    Pla,
    /// Pops the status byte.
    Plp,
    /// ANDs memory into the accumulator.
    And,
    /// Exclusive-ORs memory into the accumulator.
    Eor,
    /// ORs memory into the accumulator.
    Ora,
    /// Tests memory bits against the accumulator.
    Bit,
    /// Jumps.
    Jmp,
    /// Jumps to a subroutine.
    Jsr,
    /// Returns from a subroutine.
    Rts,
    /// Branches if zero is clear.
    Bne,
    /// Branches if zero is set.
    Beq,
    /// Branches if negative is clear.
    Bpl,
    /// Branches if carry is clear.
    Bcc,
    /// Branches if carry is set.
    Bcs,
    /// Branches if negative is set.
    Bmi,
    /// Branches if overflow is clear.
    Bvc,
    /// Branches if overflow is set.
    Bvs,
    /// Decrements X.
    Dex,
    /// Decrements Y.
    Dey,
    /// Increments memory.
    Inc,
    /// Increments X.
    Incx,
    /// Increments Y.
    Incy,
    /// Shifts the accumulator left.
    Asl,
    /// Shifts memory left.
    AslAddr,
    /// Shifts memory left, then ORs it into the accumulator (undocumented).
    Slo,
    /// Shifts the accumulator right.
    Lsr,
    /// Shifts memory right.
    LsrAddr,
    /// Shifts memory right, then exclusive-ORs it into the accumulator (undocumented).
    Sre,
    /// Rotates the accumulator left through carry.
    Rol,
    /// Rotates memory left through carry.
    RolAddr,
    /// Rotates memory left, then ANDs it into the accumulator (undocumented).
    Rla,
    /// Rotates the accumulator right through carry.
    Ror,
    /// Rotates memory right through carry.
    RorAddr,
    /// Rotates memory right, then adds it to the accumulator (undocumented).
    Rra,
    /// Clears carry.
    Clc,
    /// Sets carry.
    Sec,
    /// Clears decimal.
    Cld,
    /// Sets decimal.
    Sed,
    /// Clears interrupt-disable.
    Cli,
    /// Sets interrupt-disable.
    Sei,
    /// Clears overflow.
    Clv,
    /// Compares memory with the accumulator.
    Cmp,
    /// Compares memory with X.
    Cpx,
    /// Compares memory with Y.
    Cpy,
    /// Adds memory and carry to the accumulator.
    Adc,
    /// Subtracts memory and borrow from the accumulator.
    Sbc,
    /// Software interrupt.
    Brk,
    /// Returns from an interrupt.
    Rti,
    /// Increments memory, then subtracts it from the accumulator (undocumented).
    Isc,
    /// Decrements memory.
    Dec,
    /// Decrements memory, then compares it with the accumulator (undocumented).
    Dcp,
}

/// One entry of the catalog.
#[derive(Clone, Copy, Debug, PartialEq, Eq, Structural)]
pub struct Instruction {
    pub kind: InstructionKind,
    pub addr_mode: AddressingMode,
    /// The base cost in CPU cycles.
    pub cycles: u32,
}

/// The operation and addressing mode that an opcode byte selects, if the
/// catalog has the opcode.
pub open spec fn operation_of(opcode: u8) -> Option<(InstructionKind, AddressingMode)> {
    match opcode {
        0xEA | 0x1A | 0x3A | 0x5A | 0x7A | 0xDA | 0xFA => Some(
            (InstructionKind::Nop, AddressingMode::Implicit),
        ),
        0x80 | 0x82 | 0x89 | 0xC2 | 0xE2 => Some((InstructionKind::Nop, AddressingMode::Immediate)),
        0x04 | 0x44 | 0x64 => Some((InstructionKind::Nop, AddressingMode::ZeroPage)),
        0x14 | 0x34 | 0x54 | 0x74 | 0xD4 | 0xF4 => Some(
            (InstructionKind::Nop, AddressingMode::ZeroPageX),
        ),
        0x0C => Some((InstructionKind::Nop, AddressingMode::Absolute)),
        0x1C | 0x3C | 0x5C | 0x7C | 0xDC | 0xFC => Some(
            (InstructionKind::Nop, AddressingMode::AbsoluteX),
        ),
        0xA9 => Some((InstructionKind::Lda, AddressingMode::Immediate)),
        0xA5 => Some((InstructionKind::Lda, AddressingMode::ZeroPage)),
        0xB5 => Some((InstructionKind::Lda, AddressingMode::ZeroPageX)),
        0xAD => Some((InstructionKind::Lda, AddressingMode::Absolute)),
        0xBD => Some((InstructionKind::Lda, AddressingMode::AbsoluteX)),
        0xB9 => Some((InstructionKind::Lda, AddressingMode::AbsoluteY)),
        0xA1 => Some((InstructionKind::Lda, AddressingMode::IndexedIndirect)),
        0xB1 => Some((InstructionKind::Lda, AddressingMode::IndirectIndexed)),
        0xA2 => Some((InstructionKind::Ldx, AddressingMode::Immediate)),
        0xA6 => Some((InstructionKind::Ldx, AddressingMode::ZeroPage)),
        0xB6 => Some((InstructionKind::Ldx, AddressingMode::ZeroPageY)),
        0xAE => Some((InstructionKind::Ldx, AddressingMode::Absolute)),
        0xBE => Some((InstructionKind::Ldx, AddressingMode::AbsoluteY)),
        0xA0 => Some((InstructionKind::Ldy, AddressingMode::Immediate)),
        0xA4 => Some((InstructionKind::Ldy, AddressingMode::ZeroPage)),
        0xB4 => Some((InstructionKind::Ldy, AddressingMode::ZeroPageX)),
        0xAC => Some((InstructionKind::Ldy, AddressingMode::Absolute)),
        0xBC => Some((InstructionKind::Ldy, AddressingMode::AbsoluteX)),
        0xA7 => Some((InstructionKind::Lax, AddressingMode::ZeroPage)),
        0xB7 => Some((InstructionKind::Lax, AddressingMode::ZeroPageY)),
        0xAF => Some((InstructionKind::Lax, AddressingMode::Absolute)),
        0xBF => Some((InstructionKind::Lax, AddressingMode::AbsoluteY)),
        0xA3 => Some((InstructionKind::Lax, AddressingMode::IndexedIndirect)),
        0xB3 => Some((InstructionKind::Lax, AddressingMode::IndirectIndexed)),
        0x85 => Some((InstructionKind::Sta, AddressingMode::ZeroPage)),
        0x95 => Some((InstructionKind::Sta, AddressingMode::ZeroPageX)),
        0x8D => Some((InstructionKind::Sta, AddressingMode::Absolute)),
        0x9D => Some((InstructionKind::Sta, AddressingMode::AbsoluteX)),
        0x99 => Some((InstructionKind::Sta, AddressingMode::AbsoluteY)),
        0x81 => Some((InstructionKind::Sta, AddressingMode::IndexedIndirect)),
        0x91 => Some((InstructionKind::Sta, AddressingMode::IndirectIndexed)),
        0x86 => Some((InstructionKind::Stx, AddressingMode::ZeroPage)),
        0x96 => Some((InstructionKind::Stx, AddressingMode::ZeroPageY)),
        0x8E => Some((InstructionKind::Stx, AddressingMode::Absolute)),
        0x84 => Some((InstructionKind::Sty, AddressingMode::ZeroPage)),
        0x94 => Some((InstructionKind::Sty, AddressingMode::ZeroPageX)),
        0x8C => Some((InstructionKind::Sty, AddressingMode::Absolute)),
        0x87 => Some((InstructionKind::Sax, AddressingMode::ZeroPage)),
        0x97 => Some((InstructionKind::Sax, AddressingMode::ZeroPageY)),
        0x8F => Some((InstructionKind::Sax, AddressingMode::Absolute)),
        0x83 => Some((InstructionKind::Sax, AddressingMode::IndexedIndirect)),
        0xAA => Some((InstructionKind::Tax, AddressingMode::Implicit)),
        0xA8 => Some((InstructionKind::Tay, AddressingMode::Implicit)),
        0x8A => Some((InstructionKind::Txa, AddressingMode::Implicit)),
        0x98 => Some((InstructionKind::Tya, AddressingMode::Implicit)),
        0xBA => Some((InstructionKind::Tsx, AddressingMode::Implicit)),
        0x9A => Some((InstructionKind::Txs, AddressingMode::Implicit)),
        0x48 => Some((InstructionKind::Pha, AddressingMode::Implicit)),
        0x08 => Some((InstructionKind::Php, AddressingMode::Implicit)),
        0x68 => Some((InstructionKind::Pla, AddressingMode::Implicit)),
        0x28 => Some((InstructionKind::Plp, AddressingMode::Implicit)),
        0x29 => Some((InstructionKind::And, AddressingMode::Immediate)),
        0x25 => Some((InstructionKind::And, AddressingMode::ZeroPage)),
        0x35 => Some((InstructionKind::And, AddressingMode::ZeroPageX)),
        0x2D => Some((InstructionKind::And, AddressingMode::Absolute)),
        0x3D => Some((InstructionKind::And, AddressingMode::AbsoluteX)),
        0x39 => Some((InstructionKind::And, AddressingMode::AbsoluteY)),
        0x21 => Some((InstructionKind::And, AddressingMode::IndexedIndirect)),
        0x31 => Some((InstructionKind::And, AddressingMode::IndirectIndexed)),
        0x49 => Some((InstructionKind::Eor, AddressingMode::Immediate)),
        0x45 => Some((InstructionKind::Eor, AddressingMode::ZeroPage)),
        0x55 => Some((InstructionKind::Eor, AddressingMode::ZeroPageX)),
        0x4D => Some((InstructionKind::Eor, AddressingMode::Absolute)),
        0x5D => Some((InstructionKind::Eor, AddressingMode::AbsoluteX)),
        0x59 => Some((InstructionKind::Eor, AddressingMode::AbsoluteY)),
        0x41 => Some((InstructionKind::Eor, AddressingMode::IndexedIndirect)),
        0x51 => Some((InstructionKind::Eor, AddressingMode::IndirectIndexed)),
        0x09 => Some((InstructionKind::Ora, AddressingMode::Immediate)),
        0x05 => Some((InstructionKind::Ora, AddressingMode::ZeroPage)),
        0x15 => Some((InstructionKind::Ora, AddressingMode::ZeroPageX)),
        0x0D => Some((InstructionKind::Ora, AddressingMode::Absolute)),
        0x1D => Some((InstructionKind::Ora, AddressingMode::AbsoluteX)),
        0x19 => Some((InstructionKind::Ora, AddressingMode::AbsoluteY)),
        0x01 => Some((InstructionKind::Ora, AddressingMode::IndexedIndirect)),
        0x11 => Some((InstructionKind::Ora, AddressingMode::IndirectIndexed)),
        0x24 => Some((InstructionKind::Bit, AddressingMode::ZeroPage)),
        0x2C => Some((InstructionKind::Bit, AddressingMode::Absolute)),
        0x4C => Some((InstructionKind::Jmp, AddressingMode::Absolute)),
        0x6C => Some((InstructionKind::Jmp, AddressingMode::Indirect)),
        0x20 => Some((InstructionKind::Jsr, AddressingMode::Absolute)),
        0x60 => Some((InstructionKind::Rts, AddressingMode::Implicit)),
        0xD0 => Some((InstructionKind::Bne, AddressingMode::Relative)),
        0xF0 => Some((InstructionKind::Beq, AddressingMode::Relative)),
        0x10 => Some((InstructionKind::Bpl, AddressingMode::Relative)),
        0x90 => Some((InstructionKind::Bcc, AddressingMode::Relative)),
        0xB0 => Some((InstructionKind::Bcs, AddressingMode::Relative)),
        0x30 => Some((InstructionKind::Bmi, AddressingMode::Relative)),
        0x50 => Some((InstructionKind::Bvc, AddressingMode::Relative)),
        0x70 => Some((InstructionKind::Bvs, AddressingMode::Relative)),
        0xCA => Some((InstructionKind::Dex, AddressingMode::Implicit)),
        0x88 => Some((InstructionKind::Dey, AddressingMode::Implicit)),
        0xE8 => Some((InstructionKind::Incx, AddressingMode::Implicit)),
        0xC8 => Some((InstructionKind::Incy, AddressingMode::Implicit)),
        0x0A => Some((InstructionKind::Asl, AddressingMode::Accumulator)),
        0x06 => Some((InstructionKind::AslAddr, AddressingMode::ZeroPage)),
        0x16 => Some((InstructionKind::AslAddr, AddressingMode::ZeroPageX)),
        0x0E => Some((InstructionKind::AslAddr, AddressingMode::Absolute)),
        0x1E => Some((InstructionKind::AslAddr, AddressingMode::AbsoluteX)),
        0x07 => Some((InstructionKind::Slo, AddressingMode::ZeroPage)),
        0x17 => Some((InstructionKind::Slo, AddressingMode::ZeroPageX)),
        0x0F => Some((InstructionKind::Slo, AddressingMode::Absolute)),
        0x1F => Some((InstructionKind::Slo, AddressingMode::AbsoluteX)),
        0x1B => Some((InstructionKind::Slo, AddressingMode::AbsoluteY)),
        0x03 => Some((InstructionKind::Slo, AddressingMode::IndexedIndirect)),
        0x13 => Some((InstructionKind::Slo, AddressingMode::IndirectIndexed)),
        0x4A => Some((InstructionKind::Lsr, AddressingMode::Accumulator)),
        0x46 => Some((InstructionKind::LsrAddr, AddressingMode::ZeroPage)),
        0x56 => Some((InstructionKind::LsrAddr, AddressingMode::ZeroPageX)),
        0x4E => Some((InstructionKind::LsrAddr, AddressingMode::Absolute)),
        0x5E => Some((InstructionKind::LsrAddr, AddressingMode::AbsoluteX)),
        0x47 => Some((InstructionKind::Sre, AddressingMode::ZeroPage)),
        0x57 => Some((InstructionKind::Sre, AddressingMode::ZeroPageX)),
        0x4F => Some((InstructionKind::Sre, AddressingMode::Absolute)),
        0x5F => Some((InstructionKind::Sre, AddressingMode::AbsoluteX)),
        0x5B => Some((InstructionKind::Sre, AddressingMode::AbsoluteY)),
        0x43 => Some((InstructionKind::Sre, AddressingMode::IndexedIndirect)),
        0x53 => Some((InstructionKind::Sre, AddressingMode::IndirectIndexed)),
        0x2A => Some((InstructionKind::Rol, AddressingMode::Accumulator)),
        0x26 => Some((InstructionKind::RolAddr, AddressingMode::ZeroPage)),
        0x36 => Some((InstructionKind::RolAddr, AddressingMode::ZeroPageX)),
        0x2E => Some((InstructionKind::RolAddr, AddressingMode::Absolute)),
        0x3E => Some((InstructionKind::RolAddr, AddressingMode::AbsoluteX)),
        0x27 => Some((InstructionKind::Rla, AddressingMode::ZeroPage)),
        0x37 => Some((InstructionKind::Rla, AddressingMode::ZeroPageX)),
        0x2F => Some((InstructionKind::Rla, AddressingMode::Absolute)),
        0x3F => Some((InstructionKind::Rla, AddressingMode::AbsoluteX)),
        0x3B => Some((InstructionKind::Rla, AddressingMode::AbsoluteY)),
        0x23 => Some((InstructionKind::Rla, AddressingMode::IndexedIndirect)),
        0x33 => Some((InstructionKind::Rla, AddressingMode::IndirectIndexed)),
        0x6A => Some((InstructionKind::Ror, AddressingMode::Accumulator)),
        0x66 => Some((InstructionKind::RorAddr, AddressingMode::ZeroPage)),
        0x76 => Some((InstructionKind::RorAddr, AddressingMode::ZeroPageX)),
        0x6E => Some((InstructionKind::RorAddr, AddressingMode::Absolute)),
        0x7E => Some((InstructionKind::RorAddr, AddressingMode::AbsoluteX)),
        0x67 => Some((InstructionKind::Rra, AddressingMode::ZeroPage)),
        0x77 => Some((InstructionKind::Rra, AddressingMode::ZeroPageX)),
        0x6F => Some((InstructionKind::Rra, AddressingMode::Absolute)),
        0x7F => Some((InstructionKind::Rra, AddressingMode::AbsoluteX)),
        0x7B => Some((InstructionKind::Rra, AddressingMode::AbsoluteY)),
        0x63 => Some((InstructionKind::Rra, AddressingMode::IndexedIndirect)),
        0x73 => Some((InstructionKind::Rra, AddressingMode::IndirectIndexed)),
        0x18 => Some((InstructionKind::Clc, AddressingMode::Implicit)),
        0x38 => Some((InstructionKind::Sec, AddressingMode::Implicit)),
        0xD8 => Some((InstructionKind::Cld, AddressingMode::Implicit)),
        0xF8 => Some((InstructionKind::Sed, AddressingMode::Implicit)),
        0x58 => Some((InstructionKind::Cli, AddressingMode::Implicit)),
        0x78 => Some((InstructionKind::Sei, AddressingMode::Implicit)),
        0xB8 => Some((InstructionKind::Clv, AddressingMode::Implicit)),
        0xC9 => Some((InstructionKind::Cmp, AddressingMode::Immediate)),
        0xC5 => Some((InstructionKind::Cmp, AddressingMode::ZeroPage)),
        0xD5 => Some((InstructionKind::Cmp, AddressingMode::ZeroPageX)),
        0xCD => Some((InstructionKind::Cmp, AddressingMode::Absolute)),
        0xDD => Some((InstructionKind::Cmp, AddressingMode::AbsoluteX)),
        0xD9 => Some((InstructionKind::Cmp, AddressingMode::AbsoluteY)),
        0xC1 => Some((InstructionKind::Cmp, AddressingMode::IndexedIndirect)),
        0xD1 => Some((InstructionKind::Cmp, AddressingMode::IndirectIndexed)),
        0xE0 => Some((InstructionKind::Cpx, AddressingMode::Immediate)),
        0xE4 => Some((InstructionKind::Cpx, AddressingMode::ZeroPage)),
        0xEC => Some((InstructionKind::Cpx, AddressingMode::Absolute)),
        0xC0 => Some((InstructionKind::Cpy, AddressingMode::Immediate)),
        0xC4 => Some((InstructionKind::Cpy, AddressingMode::ZeroPage)),
        0xCC => Some((InstructionKind::Cpy, AddressingMode::Absolute)),
        0x69 => Some((InstructionKind::Adc, AddressingMode::Immediate)),
        0x65 => Some((InstructionKind::Adc, AddressingMode::ZeroPage)),
        0x75 => Some((InstructionKind::Adc, AddressingMode::ZeroPageX)),
        0x6D => Some((InstructionKind::Adc, AddressingMode::Absolute)),
        0x7D => Some((InstructionKind::Adc, AddressingMode::AbsoluteX)),
        0x79 => Some((InstructionKind::Adc, AddressingMode::AbsoluteY)),
        0x61 => Some((InstructionKind::Adc, AddressingMode::IndexedIndirect)),
        0x71 => Some((InstructionKind::Adc, AddressingMode::IndirectIndexed)),
        0xE9 | 0xEB => Some((InstructionKind::Sbc, AddressingMode::Immediate)),
        0xE5 => Some((InstructionKind::Sbc, AddressingMode::ZeroPage)),
        0xF5 => Some((InstructionKind::Sbc, AddressingMode::ZeroPageX)),
        0xED => Some((InstructionKind::Sbc, AddressingMode::Absolute)),
        0xFD => Some((InstructionKind::Sbc, AddressingMode::AbsoluteX)),
        0xF9 => Some((InstructionKind::Sbc, AddressingMode::AbsoluteY)),
        0xE1 => Some((InstructionKind::Sbc, AddressingMode::IndexedIndirect)),
        0xF1 => Some((InstructionKind::Sbc, AddressingMode::IndirectIndexed)),
        0x00 => Some((InstructionKind::Brk, AddressingMode::Implicit)),
        0x40 => Some((InstructionKind::Rti, AddressingMode::Implicit)),
        0xE6 => Some((InstructionKind::Inc, AddressingMode::ZeroPage)),
        0xF6 => Some((InstructionKind::Inc, AddressingMode::ZeroPageX)),
        0xEE => Some((InstructionKind::Inc, AddressingMode::Absolute)),
        0xFE => Some((InstructionKind::Inc, AddressingMode::AbsoluteX)),
        0xE7 => Some((InstructionKind::Isc, AddressingMode::ZeroPage)),
        0xF7 => Some((InstructionKind::Isc, AddressingMode::ZeroPageX)),
        0xEF => Some((InstructionKind::Isc, AddressingMode::Absolute)),
        0xFF => Some((InstructionKind::Isc, AddressingMode::AbsoluteX)),
        0xFB => Some((InstructionKind::Isc, AddressingMode::AbsoluteY)),
        0xE3 => Some((InstructionKind::Isc, AddressingMode::IndexedIndirect)),
        0xF3 => Some((InstructionKind::Isc, AddressingMode::IndirectIndexed)),
        0xC6 => Some((InstructionKind::Dec, AddressingMode::ZeroPage)),
        0xD6 => Some((InstructionKind::Dec, AddressingMode::ZeroPageX)),
        0xCE => Some((InstructionKind::Dec, AddressingMode::Absolute)),
        0xDE => Some((InstructionKind::Dec, AddressingMode::AbsoluteX)),
        0xC7 => Some((InstructionKind::Dcp, AddressingMode::ZeroPage)),
        0xD7 => Some((InstructionKind::Dcp, AddressingMode::ZeroPageX)),
        0xCF => Some((InstructionKind::Dcp, AddressingMode::Absolute)),
        0xDF => Some((InstructionKind::Dcp, AddressingMode::AbsoluteX)),
        0xDB => Some((InstructionKind::Dcp, AddressingMode::AbsoluteY)),
        0xC3 => Some((InstructionKind::Dcp, AddressingMode::IndexedIndirect)),
        0xD3 => Some((InstructionKind::Dcp, AddressingMode::IndirectIndexed)),
        _ => None,
    }
}

/// The base cycle cost of an operation in an addressing mode, where the
/// operation has that mode.
pub open spec fn base_cycles(kind: InstructionKind, addr_mode: AddressingMode) -> Option<u32> {
    match (kind, addr_mode) {
        (InstructionKind::Nop, AddressingMode::Implicit) => Some(2u32),
        (InstructionKind::Nop, AddressingMode::Immediate) => Some(2u32),
        (InstructionKind::Nop, AddressingMode::ZeroPage) => Some(3u32),
        (InstructionKind::Nop, AddressingMode::ZeroPageX) => Some(4u32),
        (InstructionKind::Nop, AddressingMode::Absolute) => Some(4u32),
        (InstructionKind::Nop, AddressingMode::AbsoluteX) => Some(4u32),
        (InstructionKind::Lda, AddressingMode::Immediate) => Some(2u32),
        (InstructionKind::Lda, AddressingMode::ZeroPage) => Some(3u32),
        (InstructionKind::Lda, AddressingMode::ZeroPageX) => Some(4u32),
        (InstructionKind::Lda, AddressingMode::Absolute) => Some(4u32),
        (InstructionKind::Lda, AddressingMode::AbsoluteX) => Some(4u32),
        (InstructionKind::Lda, AddressingMode::AbsoluteY) => Some(4u32),
        (InstructionKind::Lda, AddressingMode::IndexedIndirect) => Some(6u32),
        (InstructionKind::Lda, AddressingMode::IndirectIndexed) => Some(5u32),
        (InstructionKind::Ldx, AddressingMode::Immediate) => Some(2u32),
        (InstructionKind::Ldx, AddressingMode::ZeroPage) => Some(3u32),
        (InstructionKind::Ldx, AddressingMode::ZeroPageY) => Some(4u32),
        (InstructionKind::Ldx, AddressingMode::Absolute) => Some(4u32),
        (InstructionKind::Ldx, AddressingMode::AbsoluteY) => Some(4u32),
        (InstructionKind::Ldy, AddressingMode::Immediate) => Some(2u32),
        (InstructionKind::Ldy, AddressingMode::ZeroPage) => Some(3u32),
        (InstructionKind::Ldy, AddressingMode::ZeroPageX) => Some(4u32),
        (InstructionKind::Ldy, AddressingMode::Absolute) => Some(4u32),
        (InstructionKind::Ldy, AddressingMode::AbsoluteX) => Some(4u32),
        (InstructionKind::Lax, AddressingMode::ZeroPage) => Some(3u32),
        (InstructionKind::Lax, AddressingMode::ZeroPageY) => Some(4u32),
        (InstructionKind::Lax, AddressingMode::Absolute) => Some(4u32),
        (InstructionKind::Lax, AddressingMode::AbsoluteY) => Some(4u32),
        (InstructionKind::Lax, AddressingMode::IndexedIndirect) => Some(5u32),
        (InstructionKind::Lax, AddressingMode::IndirectIndexed) => Some(6u32),
        (InstructionKind::Sta, AddressingMode::ZeroPage) => Some(3u32),
        (InstructionKind::Sta, AddressingMode::ZeroPageX) => Some(4u32),
        (InstructionKind::Sta, AddressingMode::Absolute) => Some(4u32),
        (InstructionKind::Sta, AddressingMode::AbsoluteX) => Some(5u32),
        (InstructionKind::Sta, AddressingMode::AbsoluteY) => Some(5u32),
        (InstructionKind::Sta, AddressingMode::IndexedIndirect) => Some(6u32),
        (InstructionKind::Sta, AddressingMode::IndirectIndexed) => Some(6u32),
        (InstructionKind::Stx, AddressingMode::ZeroPage) => Some(3u32),
        (InstructionKind::Stx, AddressingMode::ZeroPageY) => Some(4u32),
        (InstructionKind::Stx, AddressingMode::Absolute) => Some(4u32),
        (InstructionKind::Sty, AddressingMode::ZeroPage) => Some(3u32),
        (InstructionKind::Sty, AddressingMode::ZeroPageX) => Some(4u32),
        (InstructionKind::Sty, AddressingMode::Absolute) => Some(4u32),
        (InstructionKind::Sax, AddressingMode::ZeroPage) => Some(3u32),
        (InstructionKind::Sax, AddressingMode::ZeroPageY) => Some(4u32),
        (InstructionKind::Sax, AddressingMode::Absolute) => Some(4u32),
        (InstructionKind::Sax, AddressingMode::IndexedIndirect) => Some(6u32),
        (InstructionKind::Tax, AddressingMode::Implicit) => Some(2u32),
        (InstructionKind::Tay, AddressingMode::Implicit) => Some(2u32),
        (InstructionKind::Txa, AddressingMode::Implicit) => Some(2u32),
        (InstructionKind::Tya, AddressingMode::Implicit) => Some(2u32),
        (InstructionKind::Tsx, AddressingMode::Implicit) => Some(2u32),
        (InstructionKind::Txs, AddressingMode::Implicit) => Some(2u32),
        (InstructionKind::Pha, AddressingMode::Implicit) => Some(3u32),
        (InstructionKind::Php, AddressingMode::Implicit) => Some(3u32),
        (InstructionKind::Pla, AddressingMode::Implicit) => Some(4u32),
        (InstructionKind::Plp, AddressingMode::Implicit) => Some(4u32),
        (InstructionKind::And, AddressingMode::Immediate) => Some(2u32),
        (InstructionKind::And, AddressingMode::ZeroPage) => Some(3u32),
        (InstructionKind::And, AddressingMode::ZeroPageX) => Some(4u32),
        (InstructionKind::And, AddressingMode::ZeroPageY) => Some(4u32),
        (InstructionKind::And, AddressingMode::Absolute) => Some(4u32),
        (InstructionKind::And, AddressingMode::AbsoluteX) => Some(4u32),
        (InstructionKind::And, AddressingMode::AbsoluteY) => Some(4u32),
        (InstructionKind::And, AddressingMode::IndexedIndirect) => Some(6u32),
        (InstructionKind::And, AddressingMode::IndirectIndexed) => Some(5u32),
        (InstructionKind::Eor, AddressingMode::Immediate) => Some(2u32),
        (InstructionKind::Eor, AddressingMode::ZeroPage) => Some(3u32),
        (InstructionKind::Eor, AddressingMode::ZeroPageX) => Some(4u32),
        (InstructionKind::Eor, AddressingMode::ZeroPageY) => Some(4u32),
        (InstructionKind::Eor, AddressingMode::Absolute) => Some(4u32),
        (InstructionKind::Eor, AddressingMode::AbsoluteX) => Some(4u32),
        (InstructionKind::Eor, AddressingMode::AbsoluteY) => Some(4u32),
        (InstructionKind::Eor, AddressingMode::IndexedIndirect) => Some(5u32),
        (InstructionKind::Eor, AddressingMode::IndirectIndexed) => Some(6u32),
        (InstructionKind::Ora, AddressingMode::Immediate) => Some(2u32),
        (InstructionKind::Ora, AddressingMode::ZeroPage) => Some(3u32),
        (InstructionKind::Ora, AddressingMode::ZeroPageX) => Some(4u32),
        (InstructionKind::Ora, AddressingMode::ZeroPageY) => Some(4u32),
        (InstructionKind::Ora, AddressingMode::Absolute) => Some(4u32),
        (InstructionKind::Ora, AddressingMode::AbsoluteX) => Some(4u32),
        (InstructionKind::Ora, AddressingMode::AbsoluteY) => Some(4u32),
        (InstructionKind::Ora, AddressingMode::IndexedIndirect) => Some(5u32),
        (InstructionKind::Ora, AddressingMode::IndirectIndexed) => Some(6u32),
        (InstructionKind::Bit, AddressingMode::ZeroPage) => Some(3u32),
        (InstructionKind::Bit, AddressingMode::Absolute) => Some(4u32),
        (InstructionKind::Jmp, AddressingMode::Absolute) => Some(3u32),
        (InstructionKind::Jmp, AddressingMode::Indirect) => Some(5u32),
        (InstructionKind::Jsr, AddressingMode::Absolute) => Some(6u32),
        (InstructionKind::Rts, AddressingMode::Implicit) => Some(6u32),
        (InstructionKind::Bne, AddressingMode::Relative) => Some(2u32),
        (InstructionKind::Beq, AddressingMode::Relative) => Some(2u32),
        (InstructionKind::Bpl, AddressingMode::Relative) => Some(2u32),
        (InstructionKind::Bcc, AddressingMode::Relative) => Some(2u32),
        (InstructionKind::Bcs, AddressingMode::Relative) => Some(2u32),
        (InstructionKind::Bmi, AddressingMode::Relative) => Some(2u32),
        (InstructionKind::Bvc, AddressingMode::Relative) => Some(2u32),
        (InstructionKind::Bvs, AddressingMode::Relative) => Some(2u32),
        (InstructionKind::Dex, AddressingMode::Implicit) => Some(2u32),
        (InstructionKind::Dey, AddressingMode::Implicit) => Some(2u32),
        (InstructionKind::Inc, AddressingMode::ZeroPage) => Some(5u32),
        (InstructionKind::Inc, AddressingMode::ZeroPageX) => Some(6u32),
        (InstructionKind::Inc, AddressingMode::Absolute) => Some(6u32),
        (InstructionKind::Inc, AddressingMode::AbsoluteX) => Some(7u32),
        (InstructionKind::Incx, AddressingMode::Implicit) => Some(2u32),
        (InstructionKind::Incy, AddressingMode::Implicit) => Some(2u32),
        (InstructionKind::Asl, AddressingMode::Accumulator) => Some(2u32),
        (InstructionKind::AslAddr, AddressingMode::ZeroPage) => Some(5u32),
        (InstructionKind::AslAddr, AddressingMode::ZeroPageX) => Some(6u32),
        (InstructionKind::AslAddr, AddressingMode::Absolute) => Some(6u32),
        (InstructionKind::AslAddr, AddressingMode::AbsoluteX) => Some(7u32),
        (InstructionKind::Slo, AddressingMode::ZeroPage) => Some(5u32),
        (InstructionKind::Slo, AddressingMode::ZeroPageX) => Some(6u32),
        (InstructionKind::Slo, AddressingMode::Absolute) => Some(6u32),
        (InstructionKind::Slo, AddressingMode::AbsoluteX) => Some(7u32),
        (InstructionKind::Slo, AddressingMode::AbsoluteY) => Some(7u32),
        (InstructionKind::Slo, AddressingMode::IndexedIndirect) => Some(8u32),
        (InstructionKind::Slo, AddressingMode::IndirectIndexed) => Some(8u32),
        (InstructionKind::Lsr, AddressingMode::Accumulator) => Some(2u32),
        (InstructionKind::LsrAddr, AddressingMode::ZeroPage) => Some(5u32),
        (InstructionKind::LsrAddr, AddressingMode::ZeroPageX) => Some(6u32),
        (InstructionKind::LsrAddr, AddressingMode::Absolute) => Some(6u32),
        (InstructionKind::LsrAddr, AddressingMode::AbsoluteX) => Some(7u32),
        (InstructionKind::Sre, AddressingMode::ZeroPage) => Some(5u32),
        (InstructionKind::Sre, AddressingMode::ZeroPageX) => Some(6u32),
        (InstructionKind::Sre, AddressingMode::Absolute) => Some(6u32),
        (InstructionKind::Sre, AddressingMode::AbsoluteX) => Some(7u32),
        (InstructionKind::Sre, AddressingMode::AbsoluteY) => Some(7u32),
        (InstructionKind::Sre, AddressingMode::IndexedIndirect) => Some(8u32),
        (InstructionKind::Sre, AddressingMode::IndirectIndexed) => Some(8u32),
        (InstructionKind::Rol, AddressingMode::Accumulator) => Some(2u32),
        (InstructionKind::RolAddr, AddressingMode::ZeroPage) => Some(5u32),
        (InstructionKind::RolAddr, AddressingMode::ZeroPageX) => Some(6u32),
        (InstructionKind::RolAddr, AddressingMode::Absolute) => Some(6u32),
        (InstructionKind::RolAddr, AddressingMode::AbsoluteX) => Some(7u32),
        (InstructionKind::Rla, AddressingMode::ZeroPage) => Some(5u32),
        (InstructionKind::Rla, AddressingMode::ZeroPageX) => Some(6u32),
        (InstructionKind::Rla, AddressingMode::Absolute) => Some(6u32),
        (InstructionKind::Rla, AddressingMode::AbsoluteX) => Some(7u32),
        (InstructionKind::Rla, AddressingMode::AbsoluteY) => Some(7u32),
        (InstructionKind::Rla, AddressingMode::IndexedIndirect) => Some(8u32),
        (InstructionKind::Rla, AddressingMode::IndirectIndexed) => Some(8u32),
        (InstructionKind::Ror, AddressingMode::Accumulator) => Some(2u32),
        (InstructionKind::RorAddr, AddressingMode::ZeroPage) => Some(5u32),
        (InstructionKind::RorAddr, AddressingMode::ZeroPageX) => Some(6u32),
        (InstructionKind::RorAddr, AddressingMode::Absolute) => Some(6u32),
        (InstructionKind::RorAddr, AddressingMode::AbsoluteX) => Some(7u32),
        (InstructionKind::Rra, AddressingMode::ZeroPage) => Some(5u32),
        (InstructionKind::Rra, AddressingMode::ZeroPageX) => Some(6u32),
        (InstructionKind::Rra, AddressingMode::Absolute) => Some(6u32),
        (InstructionKind::Rra, AddressingMode::AbsoluteX) => Some(7u32),
        (InstructionKind::Rra, AddressingMode::AbsoluteY) => Some(7u32),
        (InstructionKind::Rra, AddressingMode::IndexedIndirect) => Some(8u32),
        (InstructionKind::Rra, AddressingMode::IndirectIndexed) => Some(8u32),
        (InstructionKind::Clc, AddressingMode::Implicit) => Some(2u32),
        (InstructionKind::Sec, AddressingMode::Implicit) => Some(2u32),
        (InstructionKind::Cld, AddressingMode::Implicit) => Some(2u32),
        (InstructionKind::Sed, AddressingMode::Implicit) => Some(2u32),
        (InstructionKind::Cli, AddressingMode::Implicit) => Some(2u32),
        (InstructionKind::Sei, AddressingMode::Implicit) => Some(2u32),
        (InstructionKind::Clv, AddressingMode::Implicit) => Some(2u32),
        (InstructionKind::Cmp, AddressingMode::Immediate) => Some(2u32),
        (InstructionKind::Cmp, AddressingMode::ZeroPage) => Some(3u32),
        (InstructionKind::Cmp, AddressingMode::ZeroPageX) => Some(4u32),
        (InstructionKind::Cmp, AddressingMode::Absolute) => Some(4u32),
        (InstructionKind::Cmp, AddressingMode::AbsoluteX) => Some(4u32),
        (InstructionKind::Cmp, AddressingMode::AbsoluteY) => Some(4u32),
        (InstructionKind::Cmp, AddressingMode::IndexedIndirect) => Some(5u32),
        (InstructionKind::Cmp, AddressingMode::IndirectIndexed) => Some(6u32),
        (InstructionKind::Cpx, AddressingMode::Immediate) => Some(2u32),
        (InstructionKind::Cpx, AddressingMode::ZeroPage) => Some(3u32),
        (InstructionKind::Cpx, AddressingMode::Absolute) => Some(4u32),
        (InstructionKind::Cpy, AddressingMode::Immediate) => Some(2u32),
        (InstructionKind::Cpy, AddressingMode::ZeroPage) => Some(3u32),
        (InstructionKind::Cpy, AddressingMode::Absolute) => Some(4u32),
        (InstructionKind::Adc, AddressingMode::Immediate) => Some(2u32),
        (InstructionKind::Adc, AddressingMode::ZeroPage) => Some(3u32),
        (InstructionKind::Adc, AddressingMode::ZeroPageX) => Some(4u32),
        (InstructionKind::Adc, AddressingMode::Absolute) => Some(4u32),
        (InstructionKind::Adc, AddressingMode::AbsoluteX) => Some(4u32),
        (InstructionKind::Adc, AddressingMode::AbsoluteY) => Some(4u32),
        (InstructionKind::Adc, AddressingMode::IndexedIndirect) => Some(5u32),
        (InstructionKind::Adc, AddressingMode::IndirectIndexed) => Some(6u32),
        (InstructionKind::Sbc, AddressingMode::Immediate) => Some(2u32),
        (InstructionKind::Sbc, AddressingMode::ZeroPage) => Some(3u32),
        (InstructionKind::Sbc, AddressingMode::ZeroPageX) => Some(4u32),
        (InstructionKind::Sbc, AddressingMode::Absolute) => Some(4u32),
        (InstructionKind::Sbc, AddressingMode::AbsoluteX) => Some(4u32),
        (InstructionKind::Sbc, AddressingMode::AbsoluteY) => Some(4u32),
        (InstructionKind::Sbc, AddressingMode::IndexedIndirect) => Some(5u32),
        (InstructionKind::Sbc, AddressingMode::IndirectIndexed) => Some(6u32),
        (InstructionKind::Brk, AddressingMode::Implicit) => Some(7u32),
        (InstructionKind::Rti, AddressingMode::Implicit) => Some(6u32),
        (InstructionKind::Isc, AddressingMode::ZeroPage) => Some(5u32),
        (InstructionKind::Isc, AddressingMode::ZeroPageX) => Some(6u32),
        (InstructionKind::Isc, AddressingMode::Absolute) => Some(6u32),
        (InstructionKind::Isc, AddressingMode::AbsoluteX) => Some(7u32),
        (InstructionKind::Isc, AddressingMode::AbsoluteY) => Some(7u32),
        (InstructionKind::Isc, AddressingMode::IndexedIndirect) => Some(8u32),
        (InstructionKind::Isc, AddressingMode::IndirectIndexed) => Some(8u32),
        (InstructionKind::Dec, AddressingMode::ZeroPage) => Some(5u32),
        (InstructionKind::Dec, AddressingMode::ZeroPageX) => Some(6u32),
        (InstructionKind::Dec, AddressingMode::Absolute) => Some(6u32),
        (InstructionKind::Dec, AddressingMode::AbsoluteX) => Some(7u32),
        (InstructionKind::Dcp, AddressingMode::ZeroPage) => Some(5u32),
        (InstructionKind::Dcp, AddressingMode::ZeroPageX) => Some(6u32),
        (InstructionKind::Dcp, AddressingMode::Absolute) => Some(6u32),
        (InstructionKind::Dcp, AddressingMode::AbsoluteX) => Some(7u32),
        (InstructionKind::Dcp, AddressingMode::AbsoluteY) => Some(7u32),
        (InstructionKind::Dcp, AddressingMode::IndexedIndirect) => Some(8u32),
        (InstructionKind::Dcp, AddressingMode::IndirectIndexed) => Some(8u32),
        _ => None,
    }
}

/// The catalog: the entry of an opcode byte, or `None` for a byte that
/// stands for no instruction.
pub open spec fn catalog(opcode: u8) -> Option<Instruction> {
    match operation_of(opcode) {
        Some((kind, addr_mode)) => match base_cycles(kind, addr_mode) {
            Some(cycles) => Some(Instruction { kind, addr_mode, cycles }),
            None => None,
        },
        None => None,
    }
}

/// An entry of the catalog.
fn entry(kind: InstructionKind, addr_mode: AddressingMode, cycles: u32) -> (e: Option<Instruction>)
    ensures
        e == Some(Instruction { kind, addr_mode, cycles }),
{
    Some(Instruction { kind, addr_mode, cycles })
}

/// The entries of the opcodes from `0x00` to `0x3F`.
fn decode_00_3f(opcode: u8) -> (instr: Option<Instruction>)
    requires
        0x00 <= opcode <= 0x3F,
    ensures
        instr == catalog(opcode),
{
    match opcode {
        0x00 => entry(InstructionKind::Brk, AddressingMode::Implicit, 7),
        0x01 => entry(InstructionKind::Ora, AddressingMode::IndexedIndirect, 5),
        0x03 => entry(InstructionKind::Slo, AddressingMode::IndexedIndirect, 8),
        0x04 => entry(InstructionKind::Nop, AddressingMode::ZeroPage, 3),
        0x05 => entry(InstructionKind::Ora, AddressingMode::ZeroPage, 3),
        0x06 => entry(InstructionKind::AslAddr, AddressingMode::ZeroPage, 5),
        0x07 => entry(InstructionKind::Slo, AddressingMode::ZeroPage, 5),
        0x08 => entry(InstructionKind::Php, AddressingMode::Implicit, 3),
        0x09 => entry(InstructionKind::Ora, AddressingMode::Immediate, 2),
        0x0A => entry(InstructionKind::Asl, AddressingMode::Accumulator, 2),
        0x0C => entry(InstructionKind::Nop, AddressingMode::Absolute, 4),
        0x0D => entry(InstructionKind::Ora, AddressingMode::Absolute, 4),
        0x0E => entry(InstructionKind::AslAddr, AddressingMode::Absolute, 6),
        0x0F => entry(InstructionKind::Slo, AddressingMode::Absolute, 6),
        0x10 => entry(InstructionKind::Bpl, AddressingMode::Relative, 2),
        0x11 => entry(InstructionKind::Ora, AddressingMode::IndirectIndexed, 6),
        0x13 => entry(InstructionKind::Slo, AddressingMode::IndirectIndexed, 8),
        0x14 => entry(InstructionKind::Nop, AddressingMode::ZeroPageX, 4),
        0x15 => entry(InstructionKind::Ora, AddressingMode::ZeroPageX, 4),
        0x16 => entry(InstructionKind::AslAddr, AddressingMode::ZeroPageX, 6),
        0x17 => entry(InstructionKind::Slo, AddressingMode::ZeroPageX, 6),
        0x18 => entry(InstructionKind::Clc, AddressingMode::Implicit, 2),
        0x19 => entry(InstructionKind::Ora, AddressingMode::AbsoluteY, 4),
        0x1A => entry(InstructionKind::Nop, AddressingMode::Implicit, 2),
        0x1B => entry(InstructionKind::Slo, AddressingMode::AbsoluteY, 7),
        0x1C => entry(InstructionKind::Nop, AddressingMode::AbsoluteX, 4),
        0x1D => entry(InstructionKind::Ora, AddressingMode::AbsoluteX, 4),
        0x1E => entry(InstructionKind::AslAddr, AddressingMode::AbsoluteX, 7),
        0x1F => entry(InstructionKind::Slo, AddressingMode::AbsoluteX, 7),
        0x20 => entry(InstructionKind::Jsr, AddressingMode::Absolute, 6),
        0x21 => entry(InstructionKind::And, AddressingMode::IndexedIndirect, 6),
        0x23 => entry(InstructionKind::Rla, AddressingMode::IndexedIndirect, 8),
        0x24 => entry(InstructionKind::Bit, AddressingMode::ZeroPage, 3),
        0x25 => entry(InstructionKind::And, AddressingMode::ZeroPage, 3),
        0x26 => entry(InstructionKind::RolAddr, AddressingMode::ZeroPage, 5),
        0x27 => entry(InstructionKind::Rla, AddressingMode::ZeroPage, 5),
        0x28 => entry(InstructionKind::Plp, AddressingMode::Implicit, 4),
        0x29 => entry(InstructionKind::And, AddressingMode::Immediate, 2),
        0x2A => entry(InstructionKind::Rol, AddressingMode::Accumulator, 2),
        0x2C => entry(InstructionKind::Bit, AddressingMode::Absolute, 4),
        0x2D => entry(InstructionKind::And, AddressingMode::Absolute, 4),
        0x2E => entry(InstructionKind::RolAddr, AddressingMode::Absolute, 6),
        0x2F => entry(InstructionKind::Rla, AddressingMode::Absolute, 6),
        0x30 => entry(InstructionKind::Bmi, AddressingMode::Relative, 2),
        0x31 => entry(InstructionKind::And, AddressingMode::IndirectIndexed, 5),
        0x33 => entry(InstructionKind::Rla, AddressingMode::IndirectIndexed, 8),
        0x34 => entry(InstructionKind::Nop, AddressingMode::ZeroPageX, 4),
        0x35 => entry(InstructionKind::And, AddressingMode::ZeroPageX, 4),
        0x36 => entry(InstructionKind::RolAddr, AddressingMode::ZeroPageX, 6),
        0x37 => entry(InstructionKind::Rla, AddressingMode::ZeroPageX, 6),
        0x38 => entry(InstructionKind::Sec, AddressingMode::Implicit, 2),
        0x39 => entry(InstructionKind::And, AddressingMode::AbsoluteY, 4),
        0x3A => entry(InstructionKind::Nop, AddressingMode::Implicit, 2),
        0x3B => entry(InstructionKind::Rla, AddressingMode::AbsoluteY, 7),
        0x3C => entry(InstructionKind::Nop, AddressingMode::AbsoluteX, 4),
        0x3D => entry(InstructionKind::And, AddressingMode::AbsoluteX, 4),
        0x3E => entry(InstructionKind::RolAddr, AddressingMode::AbsoluteX, 7),
        0x3F => entry(InstructionKind::Rla, AddressingMode::AbsoluteX, 7),
        _ => None,
    }
}

/// The entries of the opcodes from `0x40` to `0x7F`.
fn decode_40_7f(opcode: u8) -> (instr: Option<Instruction>)
    requires
        0x40 <= opcode <= 0x7F,
    ensures
        instr == catalog(opcode),
{
    match opcode {
        0x40 => entry(InstructionKind::Rti, AddressingMode::Implicit, 6),
        0x41 => entry(InstructionKind::Eor, AddressingMode::IndexedIndirect, 5),
        0x43 => entry(InstructionKind::Sre, AddressingMode::IndexedIndirect, 8),
        0x44 => entry(InstructionKind::Nop, AddressingMode::ZeroPage, 3),
        0x45 => entry(InstructionKind::Eor, AddressingMode::ZeroPage, 3),
        0x46 => entry(InstructionKind::LsrAddr, AddressingMode::ZeroPage, 5),
        0x47 => entry(InstructionKind::Sre, AddressingMode::ZeroPage, 5),
        0x48 => entry(InstructionKind::Pha, AddressingMode::Implicit, 3),
        0x49 => entry(InstructionKind::Eor, AddressingMode::Immediate, 2),
        0x4A => entry(InstructionKind::Lsr, AddressingMode::Accumulator, 2),
        0x4C => entry(InstructionKind::Jmp, AddressingMode::Absolute, 3),
        0x4D => entry(InstructionKind::Eor, AddressingMode::Absolute, 4),
        0x4E => entry(InstructionKind::LsrAddr, AddressingMode::Absolute, 6),
        0x4F => entry(InstructionKind::Sre, AddressingMode::Absolute, 6),
        0x50 => entry(InstructionKind::Bvc, AddressingMode::Relative, 2),
        0x51 => entry(InstructionKind::Eor, AddressingMode::IndirectIndexed, 6),
        0x53 => entry(InstructionKind::Sre, AddressingMode::IndirectIndexed, 8),
        0x54 => entry(InstructionKind::Nop, AddressingMode::ZeroPageX, 4),
        0x55 => entry(InstructionKind::Eor, AddressingMode::ZeroPageX, 4),
        0x56 => entry(InstructionKind::LsrAddr, AddressingMode::ZeroPageX, 6),
        0x57 => entry(InstructionKind::Sre, AddressingMode::ZeroPageX, 6),
        0x58 => entry(InstructionKind::Cli, AddressingMode::Implicit, 2),
        0x59 => entry(InstructionKind::Eor, AddressingMode::AbsoluteY, 4),
        0x5A => entry(InstructionKind::Nop, AddressingMode::Implicit, 2),
        0x5B => entry(InstructionKind::Sre, AddressingMode::AbsoluteY, 7),
        0x5C => entry(InstructionKind::Nop, AddressingMode::AbsoluteX, 4),
        0x5D => entry(InstructionKind::Eor, AddressingMode::AbsoluteX, 4),
        0x5E => entry(InstructionKind::LsrAddr, AddressingMode::AbsoluteX, 7),
        0x5F => entry(InstructionKind::Sre, AddressingMode::AbsoluteX, 7),
        0x60 => entry(InstructionKind::Rts, AddressingMode::Implicit, 6),
        0x61 => entry(InstructionKind::Adc, AddressingMode::IndexedIndirect, 5),
        0x63 => entry(InstructionKind::Rra, AddressingMode::IndexedIndirect, 8),
        0x64 => entry(InstructionKind::Nop, AddressingMode::ZeroPage, 3),
        0x65 => entry(InstructionKind::Adc, AddressingMode::ZeroPage, 3),
        0x66 => entry(InstructionKind::RorAddr, AddressingMode::ZeroPage, 5),
        0x67 => entry(InstructionKind::Rra, AddressingMode::ZeroPage, 5),
        0x68 => entry(InstructionKind::Pla, AddressingMode::Implicit, 4),
        0x69 => entry(InstructionKind::Adc, AddressingMode::Immediate, 2),
        0x6A => entry(InstructionKind::Ror, AddressingMode::Accumulator, 2),
        0x6C => entry(InstructionKind::Jmp, AddressingMode::Indirect, 5),
        0x6D => entry(InstructionKind::Adc, AddressingMode::Absolute, 4),
        0x6E => entry(InstructionKind::RorAddr, AddressingMode::Absolute, 6),
        0x6F => entry(InstructionKind::Rra, AddressingMode::Absolute, 6),
        0x70 => entry(InstructionKind::Bvs, AddressingMode::Relative, 2),
        0x71 => entry(InstructionKind::Adc, AddressingMode::IndirectIndexed, 6),
        0x73 => entry(InstructionKind::Rra, AddressingMode::IndirectIndexed, 8),
        0x74 => entry(InstructionKind::Nop, AddressingMode::ZeroPageX, 4),
        0x75 => entry(InstructionKind::Adc, AddressingMode::ZeroPageX, 4),
        0x76 => entry(InstructionKind::RorAddr, AddressingMode::ZeroPageX, 6),
        0x77 => entry(InstructionKind::Rra, AddressingMode::ZeroPageX, 6),
        0x78 => entry(InstructionKind::Sei, AddressingMode::Implicit, 2),
        0x79 => entry(InstructionKind::Adc, AddressingMode::AbsoluteY, 4),
        0x7A => entry(InstructionKind::Nop, AddressingMode::Implicit, 2),
        0x7B => entry(InstructionKind::Rra, AddressingMode::AbsoluteY, 7),
        0x7C => entry(InstructionKind::Nop, AddressingMode::AbsoluteX, 4),
        0x7D => entry(InstructionKind::Adc, AddressingMode::AbsoluteX, 4),
        0x7E => entry(InstructionKind::RorAddr, AddressingMode::AbsoluteX, 7),
        0x7F => entry(InstructionKind::Rra, AddressingMode::AbsoluteX, 7),
        _ => None,
    }
}

/// The entries of the opcodes from `0x80` to `0xBF`.
fn decode_80_bf(opcode: u8) -> (instr: Option<Instruction>)
    requires
        0x80 <= opcode <= 0xBF,
    ensures
        instr == catalog(opcode),
{
    match opcode {
        0x80 => entry(InstructionKind::Nop, AddressingMode::Immediate, 2),
        0x81 => entry(InstructionKind::Sta, AddressingMode::IndexedIndirect, 6),
        0x82 => entry(InstructionKind::Nop, AddressingMode::Immediate, 2),
        0x83 => entry(InstructionKind::Sax, AddressingMode::IndexedIndirect, 6),
        0x84 => entry(InstructionKind::Sty, AddressingMode::ZeroPage, 3),
        0x85 => entry(InstructionKind::Sta, AddressingMode::ZeroPage, 3),
        0x86 => entry(InstructionKind::Stx, AddressingMode::ZeroPage, 3),
        0x87 => entry(InstructionKind::Sax, AddressingMode::ZeroPage, 3),
        0x88 => entry(InstructionKind::Dey, AddressingMode::Implicit, 2),
        0x89 => entry(InstructionKind::Nop, AddressingMode::Immediate, 2),
        0x8A => entry(InstructionKind::Txa, AddressingMode::Implicit, 2),
        0x8C => entry(InstructionKind::Sty, AddressingMode::Absolute, 4),
        0x8D => entry(InstructionKind::Sta, AddressingMode::Absolute, 4),
        0x8E => entry(InstructionKind::Stx, AddressingMode::Absolute, 4),
        0x8F => entry(InstructionKind::Sax, AddressingMode::Absolute, 4),
        0x90 => entry(InstructionKind::Bcc, AddressingMode::Relative, 2),
        0x91 => entry(InstructionKind::Sta, AddressingMode::IndirectIndexed, 6),
        0x94 => entry(InstructionKind::Sty, AddressingMode::ZeroPageX, 4),
        0x95 => entry(InstructionKind::Sta, AddressingMode::ZeroPageX, 4),
        0x96 => entry(InstructionKind::Stx, AddressingMode::ZeroPageY, 4),
        0x97 => entry(InstructionKind::Sax, AddressingMode::ZeroPageY, 4),
        0x98 => entry(InstructionKind::Tya, AddressingMode::Implicit, 2),
        0x99 => entry(InstructionKind::Sta, AddressingMode::AbsoluteY, 5),
        0x9A => entry(InstructionKind::Txs, AddressingMode::Implicit, 2),
        0x9D => entry(InstructionKind::Sta, AddressingMode::AbsoluteX, 5),
        0xA0 => entry(InstructionKind::Ldy, AddressingMode::Immediate, 2),
        0xA1 => entry(InstructionKind::Lda, AddressingMode::IndexedIndirect, 6),
        0xA2 => entry(InstructionKind::Ldx, AddressingMode::Immediate, 2),
        0xA3 => entry(InstructionKind::Lax, AddressingMode::IndexedIndirect, 5),
        0xA4 => entry(InstructionKind::Ldy, AddressingMode::ZeroPage, 3),
        0xA5 => entry(InstructionKind::Lda, AddressingMode::ZeroPage, 3),
        0xA6 => entry(InstructionKind::Ldx, AddressingMode::ZeroPage, 3),
        0xA7 => entry(InstructionKind::Lax, AddressingMode::ZeroPage, 3),
        0xA8 => entry(InstructionKind::Tay, AddressingMode::Implicit, 2),
        0xA9 => entry(InstructionKind::Lda, AddressingMode::Immediate, 2),
        0xAA => entry(InstructionKind::Tax, AddressingMode::Implicit, 2),
        0xAC => entry(InstructionKind::Ldy, AddressingMode::Absolute, 4),
        0xAD => entry(InstructionKind::Lda, AddressingMode::Absolute, 4),
        0xAE => entry(InstructionKind::Ldx, AddressingMode::Absolute, 4),
        0xAF => entry(InstructionKind::Lax, AddressingMode::Absolute, 4),
        0xB0 => entry(InstructionKind::Bcs, AddressingMode::Relative, 2),
        0xB1 => entry(InstructionKind::Lda, AddressingMode::IndirectIndexed, 5),
        0xB3 => entry(InstructionKind::Lax, AddressingMode::IndirectIndexed, 6),
        0xB4 => entry(InstructionKind::Ldy, AddressingMode::ZeroPageX, 4),
        0xB5 => entry(InstructionKind::Lda, AddressingMode::ZeroPageX, 4),
        0xB6 => entry(InstructionKind::Ldx, AddressingMode::ZeroPageY, 4),
        0xB7 => entry(InstructionKind::Lax, AddressingMode::ZeroPageY, 4),
        0xB8 => entry(InstructionKind::Clv, AddressingMode::Implicit, 2),
        0xB9 => entry(InstructionKind::Lda, AddressingMode::AbsoluteY, 4),
        0xBA => entry(InstructionKind::Tsx, AddressingMode::Implicit, 2),
        0xBC => entry(InstructionKind::Ldy, AddressingMode::AbsoluteX, 4),
        0xBD => entry(InstructionKind::Lda, AddressingMode::AbsoluteX, 4),
        0xBE => entry(InstructionKind::Ldx, AddressingMode::AbsoluteY, 4),
        0xBF => entry(InstructionKind::Lax, AddressingMode::AbsoluteY, 4),
        _ => None,
    }
}

/// The entries of the opcodes from `0xC0` to `0xFF`.
fn decode_c0_ff(opcode: u8) -> (instr: Option<Instruction>)
    requires
        0xC0 <= opcode <= 0xFF,
    ensures
        instr == catalog(opcode),
{
    match opcode {
        0xC0 => entry(InstructionKind::Cpy, AddressingMode::Immediate, 2),
        0xC1 => entry(InstructionKind::Cmp, AddressingMode::IndexedIndirect, 5),
        0xC2 => entry(InstructionKind::Nop, AddressingMode::Immediate, 2),
        0xC3 => entry(InstructionKind::Dcp, AddressingMode::IndexedIndirect, 8),
        0xC4 => entry(InstructionKind::Cpy, AddressingMode::ZeroPage, 3),
        0xC5 => entry(InstructionKind::Cmp, AddressingMode::ZeroPage, 3),
        0xC6 => entry(InstructionKind::Dec, AddressingMode::ZeroPage, 5),
        0xC7 => entry(InstructionKind::Dcp, AddressingMode::ZeroPage, 5),
        0xC8 => entry(InstructionKind::Incy, AddressingMode::Implicit, 2),
        0xC9 => entry(InstructionKind::Cmp, AddressingMode::Immediate, 2),
        0xCA => entry(InstructionKind::Dex, AddressingMode::Implicit, 2),
        0xCC => entry(InstructionKind::Cpy, AddressingMode::Absolute, 4),
        0xCD => entry(InstructionKind::Cmp, AddressingMode::Absolute, 4),
        0xCE => entry(InstructionKind::Dec, AddressingMode::Absolute, 6),
        0xCF => entry(InstructionKind::Dcp, AddressingMode::Absolute, 6),
        0xD0 => entry(InstructionKind::Bne, AddressingMode::Relative, 2),
        0xD1 => entry(InstructionKind::Cmp, AddressingMode::IndirectIndexed, 6),
        0xD3 => entry(InstructionKind::Dcp, AddressingMode::IndirectIndexed, 8),
        0xD4 => entry(InstructionKind::Nop, AddressingMode::ZeroPageX, 4),
        0xD5 => entry(InstructionKind::Cmp, AddressingMode::ZeroPageX, 4),
        0xD6 => entry(InstructionKind::Dec, AddressingMode::ZeroPageX, 6),
        0xD7 => entry(InstructionKind::Dcp, AddressingMode::ZeroPageX, 6),
        0xD8 => entry(InstructionKind::Cld, AddressingMode::Implicit, 2),
        0xD9 => entry(InstructionKind::Cmp, AddressingMode::AbsoluteY, 4),
        0xDA => entry(InstructionKind::Nop, AddressingMode::Implicit, 2),
        0xDB => entry(InstructionKind::Dcp, AddressingMode::AbsoluteY, 7),
        0xDC => entry(InstructionKind::Nop, AddressingMode::AbsoluteX, 4),
        0xDD => entry(InstructionKind::Cmp, AddressingMode::AbsoluteX, 4),
        0xDE => entry(InstructionKind::Dec, AddressingMode::AbsoluteX, 7),
        0xDF => entry(InstructionKind::Dcp, AddressingMode::AbsoluteX, 7),
        0xE0 => entry(InstructionKind::Cpx, AddressingMode::Immediate, 2),
        0xE1 => entry(InstructionKind::Sbc, AddressingMode::IndexedIndirect, 5),
        0xE2 => entry(InstructionKind::Nop, AddressingMode::Immediate, 2),
        0xE3 => entry(InstructionKind::Isc, AddressingMode::IndexedIndirect, 8),
        0xE4 => entry(InstructionKind::Cpx, AddressingMode::ZeroPage, 3),
        0xE5 => entry(InstructionKind::Sbc, AddressingMode::ZeroPage, 3),
        0xE6 => entry(InstructionKind::Inc, AddressingMode::ZeroPage, 5),
        0xE7 => entry(InstructionKind::Isc, AddressingMode::ZeroPage, 5),
        0xE8 => entry(InstructionKind::Incx, AddressingMode::Implicit, 2),
        0xE9 => entry(InstructionKind::Sbc, AddressingMode::Immediate, 2),
        0xEA => entry(InstructionKind::Nop, AddressingMode::Implicit, 2),
        0xEB => entry(InstructionKind::Sbc, AddressingMode::Immediate, 2),
        0xEC => entry(InstructionKind::Cpx, AddressingMode::Absolute, 4),
        0xED => entry(InstructionKind::Sbc, AddressingMode::Absolute, 4),
        0xEE => entry(InstructionKind::Inc, AddressingMode::Absolute, 6),
        0xEF => entry(InstructionKind::Isc, AddressingMode::Absolute, 6),
        0xF0 => entry(InstructionKind::Beq, AddressingMode::Relative, 2),
        0xF1 => entry(InstructionKind::Sbc, AddressingMode::IndirectIndexed, 6),
        0xF3 => entry(InstructionKind::Isc, AddressingMode::IndirectIndexed, 8),
        0xF4 => entry(InstructionKind::Nop, AddressingMode::ZeroPageX, 4),
        0xF5 => entry(InstructionKind::Sbc, AddressingMode::ZeroPageX, 4),
        0xF6 => entry(InstructionKind::Inc, AddressingMode::ZeroPageX, 6),
        0xF7 => entry(InstructionKind::Isc, AddressingMode::ZeroPageX, 6),
        0xF8 => entry(InstructionKind::Sed, AddressingMode::Implicit, 2),
        0xF9 => entry(InstructionKind::Sbc, AddressingMode::AbsoluteY, 4),
        0xFA => entry(InstructionKind::Nop, AddressingMode::Implicit, 2),
        0xFB => entry(InstructionKind::Isc, AddressingMode::AbsoluteY, 7),
        0xFC => entry(InstructionKind::Nop, AddressingMode::AbsoluteX, 4),
        0xFD => entry(InstructionKind::Sbc, AddressingMode::AbsoluteX, 4),
        0xFE => entry(InstructionKind::Inc, AddressingMode::AbsoluteX, 7),
        0xFF => entry(InstructionKind::Isc, AddressingMode::AbsoluteX, 7),
        _ => None,
    }
}

/// Looks an opcode byte up in the catalog.
pub fn decode(opcode: u8) -> (instr: Option<Instruction>)
    ensures
        instr == catalog(opcode),
{
    if opcode < 0x40 {
        decode_00_3f(opcode)
    } else if opcode < 0x80 {
        decode_40_7f(opcode)
    } else if opcode < 0xC0 {
        decode_80_bf(opcode)
    } else {
        decode_c0_ff(opcode)
    }
}

} // verus!
