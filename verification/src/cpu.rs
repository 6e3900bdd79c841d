//! The CPU: registers and flags, the arithmetic that sets the flags, the
//! stack, the addressing modes, and the fetch-decode-execute step.
//!
//! The CPU reaches memory only through a [`MemoryMapped`] value. Its
//! operations are stated as functions from the CPU and the model of that
//! memory to the CPU and the model afterwards.

use crate::asc::MemoryMapped;
use crate::bits::{
    lemma_bit0, lemma_bit6, lemma_bit7, lemma_bytes_of_word, lemma_complement, lemma_rotate,
    lemma_shift, lemma_signed_byte, lemma_stack_page, lemma_word,
};
use crate::instruction::{catalog, decode, AddressingMode, Instruction, InstructionKind};
use vstd::prelude::*;

verus! {

const NEGATIVE_MASK: u8 = 0x80;

/// Where the CPU finds the address of its non-maskable interrupt routine.
pub const NMI_VECTOR: u16 = 0xfffa;

/// Where the CPU finds the address at which it starts after a reset.
pub const RESET_VECTOR: u16 = 0xfffc;

/// Where the CPU finds the address of its software interrupt routine.
pub const BREAK_VECTOR: u16 = 0xfffe;

/// The registers, the flags and the cycle counter of the CPU.
#[derive(Clone, Copy, Debug, Default, PartialEq, Eq)]
pub struct Cpu {
    /// Stack pointer: the low byte of the next free cell of the stack page.
    pub sp: u8,
    /// Program counter.
    pub pc: u16,
    /// Accumulator.
    pub a: u8,
    /// Index register X.
    pub x: u8,
    /// Index register Y.
    pub y: u8,
    pub carry_flag: bool,
    pub zero_flag: bool,
    pub interrupt_flag: bool,
    pub decimal_flag: bool,
    pub break_cmd_flag: bool,
    pub reserved_flag: bool,
    pub overflow_flag: bool,
    pub negative_flag: bool,
    /// Cycles spent so far, counted modulo the range of `usize`.
    pub cycles: usize,
}

/// The report of an opcode byte that stands for no instruction of the
/// catalog.
#[derive(Clone, Copy, Debug, PartialEq, Eq)]
pub struct UnimplementedOpcode {
    pub opcode: u8,
}

/// Whether a byte, read as a two's complement number, is negative.
pub open spec fn is_negative(value: u8) -> bool {
    value >= 0x80
}

/// The 16-bit word with the given low and high bytes.
pub open spec fn word(lo: u8, hi: u8) -> u16 {
    (hi * 256 + lo) as u16
}

/// The address of the stack cell that the stack pointer `sp` names.
pub open spec fn stack_address(sp: u8) -> u16 {
    (0x100 + sp) as u16
}

/// The low byte of `operand` read as a signed displacement, from -128 to 127.
pub open spec fn displacement(operand: u16) -> int {
    if operand % 256 >= 128 {
        operand % 256 - 256
    } else {
        (operand % 256) as int
    }
}

/// The 16-bit address that an integer stands for, modulo 65536.
pub open spec fn wrap16(i: int) -> u16 {
    (i % 0x10000) as u16
}

/// One if the flag is set, zero if it is clear.
pub open spec fn bit(flag: bool) -> int {
    if flag {
        1
    } else {
        0
    }
}

/// Whether bit 7 of `value` is set.
fn negative(value: u8) -> (n: bool)
    ensures
        n == is_negative(value),
{
    proof {
        lemma_bit7(value);
    }
    value & NEGATIVE_MASK != 0
}

/// The flag as a bit.
fn flag_bit(flag: bool) -> (b: u8)
    ensures
        b == bit(flag),
{
    if flag {
        1
    } else {
        0
    }
}

/// Puts two bytes together into a word.
fn make_word(lo: u8, hi: u8) -> (w: u16)
    ensures
        w == word(lo, hi),
{
    proof {
        lemma_word(lo, hi);
    }
    (hi as u16) << 8 | lo as u16
}

impl Cpu {
    /// The CPU with the flags `zero` and `negative` set from `value`.
    pub open spec fn with_zn(self, value: u8) -> Cpu {
        Cpu { zero_flag: value == 0, negative_flag: is_negative(value), ..self }
    }

    /// The CPU with the program counter one further, wrapping at 16 bits.
    pub open spec fn advance(self) -> Cpu {
        Cpu { pc: self.pc.wrapping_add(1), ..self }
    }

    /// The CPU with the program counter one back, wrapping at 16 bits.
    pub open spec fn rewind(self) -> Cpu {
        Cpu { pc: self.pc.wrapping_sub(1), ..self }
    }

    /// The status byte: carry in bit 0, then zero, interrupt-disable,
    /// decimal, break, reserved, overflow, and negative in bit 7.
    pub open spec fn status_word(self) -> u8 {
        (bit(self.carry_flag) + 2 * bit(self.zero_flag) + 4 * bit(self.interrupt_flag) + 8 * bit(
            self.decimal_flag,
        ) + 16 * bit(self.break_cmd_flag) + 32 * bit(self.reserved_flag) + 64 * bit(
            self.overflow_flag,
        ) + 128 * bit(self.negative_flag)) as u8
    }

    /// The CPU with all eight flags taken from the status byte `word`.
    pub open spec fn with_status(self, word: u8) -> Cpu {
        Cpu {
            carry_flag: word % 2 == 1,
            zero_flag: (word / 2) % 2 == 1,
            interrupt_flag: (word / 4) % 2 == 1,
            decimal_flag: (word / 8) % 2 == 1,
            break_cmd_flag: (word / 16) % 2 == 1,
            reserved_flag: (word / 32) % 2 == 1,
            overflow_flag: (word / 64) % 2 == 1,
            negative_flag: (word / 128) % 2 == 1,
            ..self
        }
    }

    /// A shift to the left: bit 7 goes to carry, zero comes in at bit 0.
    /// Gives the CPU afterwards and the shifted byte.
    pub open spec fn shifted_left(self, value: u8) -> (Cpu, u8) {
        let result = ((value * 2) % 256) as u8;
        (Cpu { carry_flag: value >= 0x80, ..self }.with_zn(result).advance(), result)
    }

    /// A shift to the right: bit 0 goes to carry, zero comes in at bit 7.
    pub open spec fn shifted_right(self, value: u8) -> (Cpu, u8) {
        let result = value / 2;
        (Cpu { carry_flag: value % 2 == 1, ..self }.with_zn(result).advance(), result)
    }

    /// A rotation to the left: bit 7 goes to carry, the old carry comes in
    /// at bit 0.
    pub open spec fn rotated_left(self, value: u8) -> (Cpu, u8) {
        let result = ((value * 2) % 256 + bit(self.carry_flag)) as u8;
        (Cpu { carry_flag: value >= 0x80, ..self }.with_zn(result).advance(), result)
    }

    /// A rotation to the right: bit 0 goes to carry, the old carry comes in
    /// at bit 7.
    pub open spec fn rotated_right(self, value: u8) -> (Cpu, u8) {
        let result = (value / 2 + 128 * bit(self.carry_flag)) as u8;
        (Cpu { carry_flag: value % 2 == 1, ..self }.with_zn(result).advance(), result)
    }

    /// The sum that an addition with carry leaves in the accumulator.
    pub open spec fn sum(self, operand: u8) -> u8 {
        ((self.a + operand + bit(self.carry_flag)) % 256) as u8
    }

    /// Addition with carry. The accumulator takes the sum modulo 256; carry
    /// says that the unsigned sum passed 255; overflow says that accumulator
    /// and operand had one sign and the sum has the other.
    pub open spec fn added(self, operand: u8) -> Cpu {
        let sum = self.sum(operand);
        Cpu {
            a: sum,
            carry_flag: self.a + operand + bit(self.carry_flag) > 255,
            overflow_flag: is_negative(self.a) == is_negative(operand) && is_negative(sum)
                != is_negative(self.a),
            ..self
        }.with_zn(sum)
    }

    /// The comparison of a register with an operand: carry says that the
    /// register is at least the operand, zero that they are equal, negative
    /// is bit 7 of their difference modulo 256. No register changes.
    pub open spec fn compared(self, register: u8, operand: u8) -> Cpu {
        Cpu {
            carry_flag: register >= operand,
            zero_flag: register == operand,
            negative_flag: is_negative(register.wrapping_sub(operand)),
            ..self
        }
    }

    /// The CPU as it is when power comes on: the stack pointer at the top of
    /// the stack page, everything else zero.
    pub open spec fn new_spec() -> Cpu {
        Cpu {
            sp: 0xff,
            pc: 0,
            a: 0,
            x: 0,
            y: 0,
            carry_flag: false,
            zero_flag: false,
            interrupt_flag: false,
            decimal_flag: false,
            break_cmd_flag: false,
            reserved_flag: false,
            overflow_flag: false,
            negative_flag: false,
            cycles: 0,
        }
    }

    /// The CPU as it is when power comes on.
    pub fn new() -> (cpu: Cpu)
        ensures
            cpu == Self::new_spec(),
    {
        Cpu {
            sp: 0xff,
            pc: 0,
            a: 0,
            x: 0,
            y: 0,
            carry_flag: false,
            zero_flag: false,
            interrupt_flag: false,
            decimal_flag: false,
            break_cmd_flag: false,
            reserved_flag: false,
            overflow_flag: false,
            negative_flag: false,
            cycles: 0,
        }
    }

    /// Packs the eight flags into the status byte.
    pub fn status_to_word(&self) -> (status: u8)
        ensures
            status == self.status_word(),
    {
        let c = flag_bit(self.carry_flag);
        let z = flag_bit(self.zero_flag);
        let i = flag_bit(self.interrupt_flag);
        let d = flag_bit(self.decimal_flag);
        let b = flag_bit(self.break_cmd_flag);
        let r = flag_bit(self.reserved_flag);
        let v = flag_bit(self.overflow_flag);
        let n = flag_bit(self.negative_flag);
        assert(c | z << 1 | i << 2 | d << 3 | b << 4 | r << 5 | v << 6 | n << 7 == c + 2 * z + 4
            * i + 8 * d + 16 * b + 32 * r + 64 * v + 128 * n) by (bit_vector)
            requires
                c <= 1,
                z <= 1,
                i <= 1,
                d <= 1,
                b <= 1,
                r <= 1,
                v <= 1,
                n <= 1,
        ;
        c | z << 1 | i << 2 | d << 3 | b << 4 | r << 5 | v << 6 | n << 7
    }

    /// Sets the eight flags from a status byte.
    pub fn word_to_status(&mut self, word: u8)
        ensures
            *final(self) == old(self).with_status(word),
    {
        assert({
            &&& ((word >> 0) & 1 != 0) == (word % 2 == 1)
            &&& ((word >> 1) & 1 != 0) == ((word / 2) % 2 == 1)
            &&& ((word >> 2) & 1 != 0) == ((word / 4) % 2 == 1)
            &&& ((word >> 3) & 1 != 0) == ((word / 8) % 2 == 1)
            &&& ((word >> 4) & 1 != 0) == ((word / 16) % 2 == 1)
            &&& ((word >> 5) & 1 != 0) == ((word / 32) % 2 == 1)
            &&& ((word >> 6) & 1 != 0) == ((word / 64) % 2 == 1)
            &&& ((word >> 7) & 1 != 0) == ((word / 128) % 2 == 1)
        }) by (bit_vector);
        self.carry_flag = ((word >> 0) & 1) != 0;
        self.zero_flag = ((word >> 1) & 1) != 0;
        self.interrupt_flag = ((word >> 2) & 1) != 0;
        self.decimal_flag = ((word >> 3) & 1) != 0;
        self.break_cmd_flag = ((word >> 4) & 1) != 0;
        self.reserved_flag = ((word >> 5) & 1) != 0;
        self.overflow_flag = ((word >> 6) & 1) != 0;
        self.negative_flag = ((word >> 7) & 1) != 0;
    }

    /// Shifts `value` one place to the left, sets carry, zero and negative,
    /// and steps the program counter.
    pub fn shift_left(&mut self, value: u8) -> (result: u8)
        ensures
            (*final(self), result) == old(self).shifted_left(value),
    {
        proof {
            lemma_bit7(value);
            lemma_shift(value);
        }
        self.carry_flag = value & NEGATIVE_MASK != 0;
        let result = value << 1;
        self.negative_flag = negative(result);
        self.zero_flag = result == 0;
        self.pc = self.pc.wrapping_add(1);
        result
    }

    /// Shifts `value` one place to the right, sets carry, zero and negative,
    /// and steps the program counter.
    pub fn shift_right(&mut self, value: u8) -> (result: u8)
        ensures
            (*final(self), result) == old(self).shifted_right(value),
    {
        proof {
            lemma_bit0(value);
            lemma_shift(value);
        }
        self.carry_flag = value & 1 != 0;
        let result = value >> 1;
        self.negative_flag = negative(result);
        self.zero_flag = result == 0;
        self.pc = self.pc.wrapping_add(1);
        result
    }

    /// Rotates `value` one place to the left through carry, sets carry, zero
    /// and negative, and steps the program counter.
    pub fn rotate_left(&mut self, value: u8) -> (result: u8)
        ensures
            (*final(self), result) == old(self).rotated_left(value),
    {
        let carry_in = flag_bit(self.carry_flag);
        proof {
            lemma_bit7(value);
            lemma_rotate(value, carry_in);
        }
        let result = (value << 1) | carry_in;
        self.carry_flag = value & NEGATIVE_MASK != 0;
        self.negative_flag = negative(result);
        self.zero_flag = result == 0;
        self.pc = self.pc.wrapping_add(1);
        result
    }

    /// Rotates `value` one place to the right through carry, sets carry,
    /// zero and negative, and steps the program counter.
    pub fn rotate_right(&mut self, value: u8) -> (result: u8)
        ensures
            (*final(self), result) == old(self).rotated_right(value),
    {
        let carry_in = flag_bit(self.carry_flag);
        proof {
            lemma_bit0(value);
            lemma_rotate(value, carry_in);
        }
        let result = (value >> 1) | (carry_in << 7);
        self.carry_flag = value & 1 != 0;
        self.negative_flag = negative(result);
        self.zero_flag = result == 0;
        self.pc = self.pc.wrapping_add(1);
        result
    }

    /// Adds `value` and the carry to the accumulator and sets carry,
    /// overflow, zero and negative.
    pub fn add_with_carry(&mut self, value: u8)
        ensures
            *final(self) == old(self).added(value),
    {
        let a = self.a;
        let t1 = a.wrapping_add(value);
        let c = t1 < a;
        let t2 = t1.wrapping_add(flag_bit(self.carry_flag));
        proof {
            lemma_bit7(a);
            lemma_bit7(value);
            lemma_bit7(t2);
            assert(((!(a ^ value) & (a ^ t2)) >> 7 != 0) == ((a & 0x80 != 0) == (value & 0x80 != 0)
                && (t2 & 0x80 != 0) != (a & 0x80 != 0))) by (bit_vector);
        }
        self.carry_flag = c || t2 < t1;
        self.overflow_flag = (!(a ^ value) & (a ^ t2)) >> 7 != 0;
        self.a = t2;
        self.zero_flag = self.a == 0;
        self.negative_flag = negative(self.a);
    }
    // ------------------------------------------------------------------
    // The stack
    // ------------------------------------------------------------------

    /// A push: the byte goes to the stack cell that the stack pointer names,
    /// and the stack pointer moves one down, wrapping from 0 to 255.
    pub open spec fn push_spec<M: MemoryMapped>(self, mem: M::V, value: u8) -> (Cpu, M::V) {
        (
            Cpu { sp: self.sp.wrapping_sub(1), ..self },
            M::write_spec(mem, stack_address(self.sp), value),
        )
    }

    /// A pop: the stack pointer moves one up, wrapping from 255 to 0, and
    /// the byte is read from the stack cell that it then names.
    pub open spec fn pop_spec<M: MemoryMapped>(self, mem: M::V) -> (Cpu, M::V, u8) {
        let sp = self.sp.wrapping_add(1);
        let (mem, value) = M::read_spec(mem, stack_address(sp));
        (Cpu { sp, ..self }, mem, value)
    }

    /// A push of a 16-bit word: the high byte first, then the low byte.
    pub open spec fn push_long_spec<M: MemoryMapped>(self, mem: M::V, value: u16) -> (Cpu, M::V) {
        let (cpu, mem) = self.push_spec::<M>(mem, (value / 256) as u8);
        cpu.push_spec::<M>(mem, (value % 256) as u8)
    }

    /// A pop of a 16-bit word: the low byte first, then the high byte.
    pub open spec fn pop_long_spec<M: MemoryMapped>(self, mem: M::V) -> (Cpu, M::V, u16) {
        let (cpu, mem, lo) = self.pop_spec::<M>(mem);
        let (cpu, mem, hi) = cpu.pop_spec::<M>(mem);
        (cpu, mem, word(lo, hi))
    }

    /// Pushes one byte on the stack.
    pub fn push<M: MemoryMapped>(&mut self, value: u8, ram: &mut M)
        requires
            old(ram).inv(),
        ensures
            final(ram).inv(),
            (*final(self), final(ram)@) == old(self).push_spec::<M>(old(ram)@, value),
    {
        proof {
            lemma_stack_page(self.sp);
        }
        ram.write(0x0100 | self.sp as u16, value);
        self.sp = self.sp.wrapping_sub(1);
    }

    /// Pops one byte off the stack.
    pub fn pop<M: MemoryMapped>(&mut self, ram: &mut M) -> (value: u8)
        requires
            old(ram).inv(),
        ensures
            final(ram).inv(),
            (*final(self), final(ram)@, value) == old(self).pop_spec::<M>(old(ram)@),
    {
        self.sp = self.sp.wrapping_add(1);
        proof {
            lemma_stack_page(self.sp);
        }
        ram.read(0x0100 | self.sp as u16)
    }

    /// Pushes a 16-bit word on the stack, high byte first.
    pub fn push_long<M: MemoryMapped>(&mut self, value: u16, ram: &mut M)
        requires
            old(ram).inv(),
        ensures
            final(ram).inv(),
            (*final(self), final(ram)@) == old(self).push_long_spec::<M>(old(ram)@, value),
    {
        proof {
            lemma_bytes_of_word(value);
        }
        self.push(((value >> 8) & 0xff) as u8, ram);
        self.push((value & 0xff) as u8, ram);
    }

    /// Pops a 16-bit word off the stack, low byte first.
    pub fn pop_long<M: MemoryMapped>(&mut self, ram: &mut M) -> (value: u16)
        requires
            old(ram).inv(),
        ensures
            final(ram).inv(),
            (*final(self), final(ram)@, value) == old(self).pop_long_spec::<M>(old(ram)@),
    {
        let lo = self.pop(ram);
        let hi = self.pop(ram);
        make_word(lo, hi)
    }
    // ------------------------------------------------------------------
    // Addressing modes
    // ------------------------------------------------------------------

    /// Steps the program counter and reads the operand byte it then names.
    pub open spec fn fetch_operand<M: MemoryMapped>(self, mem: M::V) -> (Cpu, M::V, u8) {
        let cpu = self.advance();
        let (mem, value) = M::read_spec(mem, cpu.pc);
        (cpu, mem, value)
    }

    /// Reads a 16-bit operand after the program counter, low byte first.
    pub open spec fn fetch_operand_word<M: MemoryMapped>(self, mem: M::V) -> (Cpu, M::V, u16) {
        let (cpu, mem, lo) = self.fetch_operand::<M>(mem);
        let (cpu, mem, hi) = cpu.fetch_operand::<M>(mem);
        (cpu, mem, word(lo, hi))
    }

    /// Reads the 16-bit word that `pointer` points at: the high byte from the
    /// address after `pointer` (wrapping at 16 bits), then the low byte from
    /// `pointer` itself.
    pub open spec fn read_pointer<M: MemoryMapped>(mem: M::V, pointer: u16) -> (M::V, u16) {
        let (mem, hi) = M::read_spec(mem, pointer.wrapping_add(1));
        let (mem, lo) = M::read_spec(mem, pointer);
        (mem, word(lo, hi))
    }

    /// Reads the 16-bit word that the page-zero pointer `pointer` points at.
    /// Both bytes come from page zero: the high byte from the cell after
    /// `pointer`, which for a pointer at `0xFF` is the cell `0x00`, then the
    /// low byte from `pointer` itself.
    pub open spec fn read_zero_page_pointer<M: MemoryMapped>(mem: M::V, pointer: u8) -> (
        M::V,
        u16,
    ) {
        let (mem, hi) = M::read_spec(mem, pointer.wrapping_add(1) as u16);
        let (mem, lo) = M::read_spec(mem, pointer as u16);
        (mem, word(lo, hi))
    }

    /// The effective address of an instruction in the addressing mode
    /// `mode`, with the CPU and the memory as the operand fetch leaves them.
    /// The program counter, which names the opcode before, names the last
    /// operand byte afterwards.
    ///
    /// The pointer of an indirect jump may cross a page: where its low byte
    /// is `0xFF`, the high byte of the target is read from the first cell of
    /// the next page. The pointers of the two indexed indirect modes lie in
    /// page zero with both their bytes: the cell after `0xFF` is `0x00`.
    pub open spec fn effective_address<M: MemoryMapped>(
        self,
        mode: AddressingMode,
        mem: M::V,
    ) -> (Cpu, M::V, u16) {
        match mode {
            AddressingMode::Implicit | AddressingMode::Accumulator => (self, mem, 0u16),
            AddressingMode::Immediate => (self.advance(), mem, self.advance().pc),
            AddressingMode::ZeroPage | AddressingMode::Relative => {
                let (cpu, mem, operand) = self.fetch_operand::<M>(mem);
                (cpu, mem, operand as u16)
            },
            AddressingMode::ZeroPageX => {
                let (cpu, mem, operand) = self.fetch_operand::<M>(mem);
                (cpu, mem, ((operand + self.x) % 256) as u16)
            },
            AddressingMode::ZeroPageY => {
                let (cpu, mem, operand) = self.fetch_operand::<M>(mem);
                (cpu, mem, ((operand + self.y) % 256) as u16)
            },
            AddressingMode::Absolute => self.fetch_operand_word::<M>(mem),
            AddressingMode::AbsoluteX => {
                let (cpu, mem, base) = self.fetch_operand_word::<M>(mem);
                (cpu, mem, base.wrapping_add(self.x as u16))
            },
            AddressingMode::AbsoluteY => {
                let (cpu, mem, base) = self.fetch_operand_word::<M>(mem);
                (cpu, mem, base.wrapping_add(self.y as u16))
            },
            AddressingMode::Indirect => {
                let (cpu, mem, pointer) = self.fetch_operand_word::<M>(mem);
                let (mem, target) = Self::read_pointer::<M>(mem, pointer);
                (cpu, mem, target)
            },
            AddressingMode::IndexedIndirect => {
                let (cpu, mem, operand) = self.fetch_operand::<M>(mem);
                let (mem, target) = Self::read_zero_page_pointer::<M>(
                    mem,
                    ((operand + self.x) % 256) as u8,
                );
                (cpu, mem, target)
            },
            AddressingMode::IndirectIndexed => {
                let (cpu, mem, operand) = self.fetch_operand::<M>(mem);
                let (mem, base) = Self::read_zero_page_pointer::<M>(mem, operand);
                (cpu, mem, base.wrapping_add(self.y as u16))
            },
        }
    }

    /// Steps the program counter and reads the byte it then names.
    fn fetch<M: MemoryMapped>(&mut self, ram: &mut M) -> (value: u8)
        requires
            old(ram).inv(),
        ensures
            final(ram).inv(),
            (*final(self), final(ram)@, value) == old(self).fetch_operand::<M>(old(ram)@),
    {
        self.pc = self.pc.wrapping_add(1);
        ram.read(self.pc)
    }

    /// Reads the word that `pointer` points at.
    fn deref<M: MemoryMapped>(ram: &mut M, pointer: u16) -> (target: u16)
        requires
            old(ram).inv(),
        ensures
            final(ram).inv(),
            (final(ram)@, target) == Self::read_pointer::<M>(old(ram)@, pointer),
    {
        let hi = ram.read(pointer.wrapping_add(1));
        let lo = ram.read(pointer);
        make_word(lo, hi)
    }

    /// Reads the word that the page-zero pointer `pointer` points at.
    fn deref_zero_page<M: MemoryMapped>(ram: &mut M, pointer: u8) -> (target: u16)
        requires
            old(ram).inv(),
        ensures
            final(ram).inv(),
            (final(ram)@, target) == Self::read_zero_page_pointer::<M>(old(ram)@, pointer),
    {
        let hi = ram.read(pointer.wrapping_add(1) as u16);
        let lo = ram.read(pointer as u16);
        make_word(lo, hi)
    }

    /// The page-zero address `operand` plus `index`, wrapping within the page.
    fn zero_page_index(operand: u8, index: u8) -> (addr: u16)
        ensures
            addr == (operand + index) % 256,
    {
        let sum = (operand as u16).wrapping_add(index as u16);
        proof {
            lemma_bytes_of_word(sum);
        }
        sum & 0xff
    }

    /// Immediate: the operand is the byte after the opcode.
    pub fn imm<M: MemoryMapped>(&mut self, ram: &mut M) -> (addr: u16)
        requires
            old(ram).inv(),
        ensures
            final(ram).inv(),
            (*final(self), final(ram)@, addr) == old(self).effective_address::<M>(
                AddressingMode::Immediate,
                old(ram)@,
            ),
    {
        self.pc = self.pc.wrapping_add(1);
        self.pc
    }

    /// Zero page: the byte after the opcode is the address.
    pub fn zp<M: MemoryMapped>(&mut self, ram: &mut M) -> (addr: u16)
        requires
            old(ram).inv(),
        ensures
            final(ram).inv(),
            (*final(self), final(ram)@, addr) == old(self).effective_address::<M>(
                AddressingMode::ZeroPage,
                old(ram)@,
            ),
    {
        self.fetch(ram) as u16
    }

    /// Zero page indexed by X, wrapping within page zero.
    pub fn zpx<M: MemoryMapped>(&mut self, ram: &mut M) -> (addr: u16)
        requires
            old(ram).inv(),
        ensures
            final(ram).inv(),
            (*final(self), final(ram)@, addr) == old(self).effective_address::<M>(
                AddressingMode::ZeroPageX,
                old(ram)@,
            ),
    {
        let operand = self.fetch(ram);
        Self::zero_page_index(operand, self.x)
    }

    /// Zero page indexed by Y, wrapping within page zero.
    pub fn zpy<M: MemoryMapped>(&mut self, ram: &mut M) -> (addr: u16)
        requires
            old(ram).inv(),
        ensures
            final(ram).inv(),
            (*final(self), final(ram)@, addr) == old(self).effective_address::<M>(
                AddressingMode::ZeroPageY,
                old(ram)@,
            ),
    {
        let operand = self.fetch(ram);
        Self::zero_page_index(operand, self.y)
    }

    /// Absolute: the two bytes after the opcode are the address.
    pub fn abs<M: MemoryMapped>(&mut self, ram: &mut M) -> (addr: u16)
        requires
            old(ram).inv(),
        ensures
            final(ram).inv(),
            (*final(self), final(ram)@, addr) == old(self).effective_address::<M>(
                AddressingMode::Absolute,
                old(ram)@,
            ),
    {
        let lo = self.fetch(ram);
        let hi = self.fetch(ram);
        make_word(lo, hi)
    }

    /// Absolute indexed by X, wrapping at 16 bits.
    pub fn abx<M: MemoryMapped>(&mut self, ram: &mut M) -> (addr: u16)
        requires
            old(ram).inv(),
        ensures
            final(ram).inv(),
            (*final(self), final(ram)@, addr) == old(self).effective_address::<M>(
                AddressingMode::AbsoluteX,
                old(ram)@,
            ),
    {
        let base = self.abs(ram);
        base.wrapping_add(self.x as u16)
    }

    /// Absolute indexed by Y, wrapping at 16 bits.
    pub fn aby<M: MemoryMapped>(&mut self, ram: &mut M) -> (addr: u16)
        requires
            old(ram).inv(),
        ensures
            final(ram).inv(),
            (*final(self), final(ram)@, addr) == old(self).effective_address::<M>(
                AddressingMode::AbsoluteY,
                old(ram)@,
            ),
    {
        let base = self.abs(ram);
        base.wrapping_add(self.y as u16)
    }

    /// Indexed indirect, `(zp,X)`: the operand plus X, within page zero,
    /// points at the address, whose two bytes both lie in page zero.
    pub fn inx<M: MemoryMapped>(&mut self, ram: &mut M) -> (addr: u16)
        requires
            old(ram).inv(),
        ensures
            final(ram).inv(),
            (*final(self), final(ram)@, addr) == old(self).effective_address::<M>(
                AddressingMode::IndexedIndirect,
                old(ram)@,
            ),
    {
        let operand = self.fetch(ram);
        let pointer = operand.wrapping_add(self.x);
        Self::deref_zero_page(ram, pointer)
    }

    /// Indirect indexed, `(zp),Y`: the operand points at an address, whose
    /// two bytes both lie in page zero and to which Y is added, wrapping at
    /// 16 bits.
    pub fn iny<M: MemoryMapped>(&mut self, ram: &mut M) -> (addr: u16)
        requires
            old(ram).inv(),
        ensures
            final(ram).inv(),
            (*final(self), final(ram)@, addr) == old(self).effective_address::<M>(
                AddressingMode::IndirectIndexed,
                old(ram)@,
            ),
    {
        let operand = self.fetch(ram);
        let base = Self::deref_zero_page(ram, operand);
        base.wrapping_add(self.y as u16)
    }

    /// Indirect: the two bytes after the opcode point at the address. The
    /// high byte of the address is read from the pointer plus one, across a
    /// page boundary too.
    pub fn ind<M: MemoryMapped>(&mut self, ram: &mut M) -> (addr: u16)
        requires
            old(ram).inv(),
        ensures
            final(ram).inv(),
            (*final(self), final(ram)@, addr) == old(self).effective_address::<M>(
                AddressingMode::Indirect,
                old(ram)@,
            ),
    {
        let pointer = self.abs(ram);
        Self::deref(ram, pointer)
    }

    /// Resolves the addressing mode `mode`: fetches the operand bytes and
    /// gives the effective address.
    pub fn resolve<M: MemoryMapped>(&mut self, mode: AddressingMode, ram: &mut M) -> (addr: u16)
        requires
            old(ram).inv(),
        ensures
            final(ram).inv(),
            (*final(self), final(ram)@, addr) == old(self).effective_address::<M>(mode, old(ram)@),
    {
        match mode {
            AddressingMode::Implicit | AddressingMode::Accumulator => 0,
            AddressingMode::Immediate => self.imm(ram),
            AddressingMode::ZeroPage | AddressingMode::Relative => self.zp(ram),
            AddressingMode::ZeroPageX => self.zpx(ram),
            AddressingMode::ZeroPageY => self.zpy(ram),
            AddressingMode::Absolute => self.abs(ram),
            AddressingMode::AbsoluteX => self.abx(ram),
            AddressingMode::AbsoluteY => self.aby(ram),
            AddressingMode::Indirect => self.ind(ram),
            AddressingMode::IndexedIndirect => self.inx(ram),
            AddressingMode::IndirectIndexed => self.iny(ram),
        }
    }
    // ------------------------------------------------------------------
    // Operations
    // ------------------------------------------------------------------

    /// A conditional branch, seen from the operand byte that the program
    /// counter names: a branch that is taken goes to the address after the
    /// instruction plus the signed displacement in the low byte of
    /// `operand`; one that is not taken goes to the address after the
    /// instruction.
    pub open spec fn branched(self, taken: bool, operand: u16) -> Cpu {
        if taken {
            Cpu { pc: wrap16(self.pc + 1 + displacement(operand)), ..self }
        } else {
            self.advance()
        }
    }

    /// The 16-bit word held at `vector` and the address after it, low byte
    /// first.
    pub open spec fn read_vector<M: MemoryMapped>(mem: M::V, vector: u16) -> (M::V, u16) {
        let (mem, lo) = M::read_spec(mem, vector);
        let (mem, hi) = M::read_spec(mem, vector.wrapping_add(1));
        (mem, word(lo, hi))
    }

    /// ORs the byte at `addr` into the accumulator, sets zero and negative from the result, and steps
    /// the program counter.
    pub open spec fn ora_spec<M: MemoryMapped>(self, addr: u16, mem: M::V) -> (Cpu, M::V) {
        let (mem, value) = M::read_spec(mem, addr);
        let result = self.a | value;
        (Cpu { a: result, ..self }.with_zn(result).advance(), mem)
    }

    /// ANDs the byte at `addr` into the accumulator, sets zero and negative from the result, and steps
    /// the program counter.
    pub open spec fn and_spec<M: MemoryMapped>(self, addr: u16, mem: M::V) -> (Cpu, M::V) {
        let (mem, value) = M::read_spec(mem, addr);
        let result = self.a & value;
        (Cpu { a: result, ..self }.with_zn(result).advance(), mem)
    }

    /// Exclusive-ORs the byte at `addr` into the accumulator, sets zero and negative from the result, and steps
    /// the program counter.
    pub open spec fn eor_spec<M: MemoryMapped>(self, addr: u16, mem: M::V) -> (Cpu, M::V) {
        let (mem, value) = M::read_spec(mem, addr);
        let result = self.a ^ value;
        (Cpu { a: result, ..self }.with_zn(result).advance(), mem)
    }

    /// Shifts the byte at `addr` one place to the left: reads it, writes the result back.
    pub open spec fn asl_addr_spec<M: MemoryMapped>(self, addr: u16, mem: M::V) -> (Cpu, M::V) {
        let (mem, value) = M::read_spec(mem, addr);
        let (cpu, result) = self.shifted_left(value);
        (cpu, M::write_spec(mem, addr, result))
    }

    /// Shifts the byte at `addr` one place to the right: reads it, writes the result back.
    pub open spec fn lsr_addr_spec<M: MemoryMapped>(self, addr: u16, mem: M::V) -> (Cpu, M::V) {
        let (mem, value) = M::read_spec(mem, addr);
        let (cpu, result) = self.shifted_right(value);
        (cpu, M::write_spec(mem, addr, result))
    }

    /// Rotates the byte at `addr` one place to the left through carry: reads it, writes the result back.
    pub open spec fn rol_addr_spec<M: MemoryMapped>(self, addr: u16, mem: M::V) -> (Cpu, M::V) {
        let (mem, value) = M::read_spec(mem, addr);
        let (cpu, result) = self.rotated_left(value);
        (cpu, M::write_spec(mem, addr, result))
    }

    /// Rotates the byte at `addr` one place to the right through carry: reads it, writes the result back.
    pub open spec fn ror_addr_spec<M: MemoryMapped>(self, addr: u16, mem: M::V) -> (Cpu, M::V) {
        let (mem, value) = M::read_spec(mem, addr);
        let (cpu, result) = self.rotated_right(value);
        (cpu, M::write_spec(mem, addr, result))
    }

    /// Adds one to the byte at `addr`, wrapping at 256, and sets zero and negative from
    /// the result.
    pub open spec fn inc_spec<M: MemoryMapped>(self, addr: u16, mem: M::V) -> (Cpu, M::V) {
        let (mem, value) = M::read_spec(mem, addr);
        let result = value.wrapping_add(1);
        (self.with_zn(result).advance(), M::write_spec(mem, addr, result))
    }

    /// Takes one from the byte at `addr`, wrapping at zero, and sets zero and negative from
    /// the result.
    pub open spec fn dec_spec<M: MemoryMapped>(self, addr: u16, mem: M::V) -> (Cpu, M::V) {
        let (mem, value) = M::read_spec(mem, addr);
        let result = value.wrapping_sub(1);
        (self.with_zn(result).advance(), M::write_spec(mem, addr, result))
    }

    /// Adds the byte at `addr` and the carry to the accumulator.
    pub open spec fn adc_spec<M: MemoryMapped>(self, addr: u16, mem: M::V) -> (Cpu, M::V) {
        let (mem, value) = M::read_spec(mem, addr);
        (self.added(value).advance(), mem)
    }

    /// Subtracts the byte at `addr` from the accumulator, as the addition of
    /// its one's complement: a set carry means that nothing is borrowed.
    pub open spec fn sbc_spec<M: MemoryMapped>(self, addr: u16, mem: M::V) -> (Cpu, M::V) {
        let (mem, value) = M::read_spec(mem, addr);
        (self.added((255 - value) as u8).advance(), mem)
    }

    /// Compares `register` with the byte at `addr`.
    pub open spec fn compare_spec<M: MemoryMapped>(self, register: u8, addr: u16, mem: M::V) -> (
        Cpu,
        M::V,
    ) {
        let (mem, value) = M::read_spec(mem, addr);
        (self.compared(register, value).advance(), mem)
    }

    /// The software interrupt: pushes the address two after the opcode, sets
    /// break and reserved, pushes the status byte, then takes the program
    /// counter from the break vector and sets interrupt-disable.
    pub open spec fn brk_spec<M: MemoryMapped>(self, mem: M::V) -> (Cpu, M::V) {
        let (cpu, mem) = self.push_long_spec::<M>(mem, self.pc.wrapping_add(2));
        let cpu = Cpu { break_cmd_flag: true, reserved_flag: true, ..cpu };
        let (cpu, mem) = cpu.push_spec::<M>(mem, cpu.status_word());
        let (mem, target) = Self::read_vector::<M>(mem, BREAK_VECTOR);
        (Cpu { pc: target, interrupt_flag: true, ..cpu }, mem)
    }

    /// Sets zero and negative from `value`.
    fn set_zn(&mut self, value: u8)
        ensures
            *final(self) == old(self).with_zn(value),
    {
        self.zero_flag = value == 0;
        self.negative_flag = negative(value);
    }

    /// Reads the word at `vector`, low byte first.
    fn load_vector<M: MemoryMapped>(ram: &mut M, vector: u16) -> (target: u16)
        requires
            old(ram).inv(),
        ensures
            final(ram).inv(),
            (final(ram)@, target) == Self::read_vector::<M>(old(ram)@, vector),
    {
        let lo = ram.read(vector);
        let hi = ram.read(vector.wrapping_add(1));
        make_word(lo, hi)
    }

    /// Takes or skips a branch. `operand` holds the displacement byte, and
    /// the program counter names that byte.
    pub fn branch(&mut self, taken: bool, operand: u16)
        ensures
            *final(self) == old(self).branched(taken, operand),
    {
        if taken {
            proof {
                lemma_signed_byte(operand);
            }
            self.pc = self.pc.wrapping_add_signed((operand as i8) as i16);
        }
        self.pc = self.pc.wrapping_add(1);
    }

    /// ORs the byte at `addr` into the accumulator.
    pub fn ora<M: MemoryMapped>(&mut self, addr: u16, mem: &mut M)
        requires
            old(mem).inv(),
        ensures
            final(mem).inv(),
            (*final(self), final(mem)@) == old(self).ora_spec::<M>(addr, old(mem)@),
    {
        self.a = self.a | mem.read(addr);
        self.set_zn(self.a);
        self.pc = self.pc.wrapping_add(1);
    }

    /// ANDs the byte at `addr` into the accumulator.
    pub fn and<M: MemoryMapped>(&mut self, addr: u16, mem: &mut M)
        requires
            old(mem).inv(),
        ensures
            final(mem).inv(),
            (*final(self), final(mem)@) == old(self).and_spec::<M>(addr, old(mem)@),
    {
        self.a = self.a & mem.read(addr);
        self.set_zn(self.a);
        self.pc = self.pc.wrapping_add(1);
    }

    /// Exclusive-ORs the byte at `addr` into the accumulator.
    pub fn eor<M: MemoryMapped>(&mut self, addr: u16, mem: &mut M)
        requires
            old(mem).inv(),
        ensures
            final(mem).inv(),
            (*final(self), final(mem)@) == old(self).eor_spec::<M>(addr, old(mem)@),
    {
        self.a = self.a ^ mem.read(addr);
        self.set_zn(self.a);
        self.pc = self.pc.wrapping_add(1);
    }

    /// Shifts the byte at `addr` one place to the left.
    pub fn asl_addr<M: MemoryMapped>(&mut self, addr: u16, mem: &mut M)
        requires
            old(mem).inv(),
        ensures
            final(mem).inv(),
            (*final(self), final(mem)@) == old(self).asl_addr_spec::<M>(addr, old(mem)@),
    {
        let value = mem.read(addr);
        let result = self.shift_left(value);
        mem.write(addr, result);
    }

    /// Shifts the byte at `addr` one place to the right.
    pub fn lsr_addr<M: MemoryMapped>(&mut self, addr: u16, mem: &mut M)
        requires
            old(mem).inv(),
        ensures
            final(mem).inv(),
            (*final(self), final(mem)@) == old(self).lsr_addr_spec::<M>(addr, old(mem)@),
    {
        let value = mem.read(addr);
        let result = self.shift_right(value);
        mem.write(addr, result);
    }

    /// Rotates the byte at `addr` one place to the left through carry.
    pub fn rol_addr<M: MemoryMapped>(&mut self, addr: u16, mem: &mut M)
        requires
            old(mem).inv(),
        ensures
            final(mem).inv(),
            (*final(self), final(mem)@) == old(self).rol_addr_spec::<M>(addr, old(mem)@),
    {
        let value = mem.read(addr);
        let result = self.rotate_left(value);
        mem.write(addr, result);
    }

    /// Rotates the byte at `addr` one place to the right through carry.
    pub fn ror_addr<M: MemoryMapped>(&mut self, addr: u16, mem: &mut M)
        requires
            old(mem).inv(),
        ensures
            final(mem).inv(),
            (*final(self), final(mem)@) == old(self).ror_addr_spec::<M>(addr, old(mem)@),
    {
        let value = mem.read(addr);
        let result = self.rotate_right(value);
        mem.write(addr, result);
    }

    /// Adds one to the byte at `addr`, wrapping at 256.
    pub fn inc<M: MemoryMapped>(&mut self, addr: u16, mem: &mut M)
        requires
            old(mem).inv(),
        ensures
            final(mem).inv(),
            (*final(self), final(mem)@) == old(self).inc_spec::<M>(addr, old(mem)@),
    {
        let value = mem.read(addr).wrapping_add(1);
        mem.write(addr, value);
        self.set_zn(value);
        self.pc = self.pc.wrapping_add(1);
    }

    /// Takes one from the byte at `addr`, wrapping at zero.
    pub fn dec<M: MemoryMapped>(&mut self, addr: u16, mem: &mut M)
        requires
            old(mem).inv(),
        ensures
            final(mem).inv(),
            (*final(self), final(mem)@) == old(self).dec_spec::<M>(addr, old(mem)@),
    {
        let value = mem.read(addr).wrapping_sub(1);
        mem.write(addr, value);
        self.set_zn(value);
        self.pc = self.pc.wrapping_add(1);
    }

    /// Adds the byte at `addr` and the carry to the accumulator.
    pub fn adc<M: MemoryMapped>(&mut self, addr: u16, mem: &mut M)
        requires
            old(mem).inv(),
        ensures
            final(mem).inv(),
            (*final(self), final(mem)@) == old(self).adc_spec::<M>(addr, old(mem)@),
    {
        let value = mem.read(addr);
        self.add_with_carry(value);
        self.pc = self.pc.wrapping_add(1);
    }

    /// Subtracts the byte at `addr` and the borrow from the accumulator.
    pub fn sbc<M: MemoryMapped>(&mut self, addr: u16, mem: &mut M)
        requires
            old(mem).inv(),
        ensures
            final(mem).inv(),
            (*final(self), final(mem)@) == old(self).sbc_spec::<M>(addr, old(mem)@),
    {
        let value = mem.read(addr);
        proof {
            lemma_complement(value);
        }
        self.add_with_carry(!value);
        self.pc = self.pc.wrapping_add(1);
    }

    /// Compares `register` with the byte at `addr` and sets carry, zero and
    /// negative.
    pub fn compare<M: MemoryMapped>(&mut self, register: u8, addr: u16, mem: &mut M)
        requires
            old(mem).inv(),
        ensures
            final(mem).inv(),
            (*final(self), final(mem)@) == old(self).compare_spec::<M>(register, addr, old(mem)@),
    {
        let value = mem.read(addr);
        let res = register.wrapping_sub(value);
        self.carry_flag = register >= value;
        self.zero_flag = register == value;
        self.negative_flag = negative(res);
        self.pc = self.pc.wrapping_add(1);
    }

    /// The software interrupt.
    pub fn brk<M: MemoryMapped>(&mut self, mem: &mut M)
        requires
            old(mem).inv(),
        ensures
            final(mem).inv(),
            (*final(self), final(mem)@) == old(self).brk_spec::<M>(old(mem)@),
    {
        self.push_long(self.pc.wrapping_add(2), mem);
        self.break_cmd_flag = true;
        self.reserved_flag = true;
        self.push(self.status_to_word(), mem);
        self.pc = Self::load_vector(mem, BREAK_VECTOR);
        self.interrupt_flag = true;
    }
    /// What the operation `kind` does to the CPU and the memory, given the
    /// effective address `addr` of its operand and the program counter on
    /// the last byte of the instruction.
    ///
    /// An operation that touches neither the program counter nor memory
    /// still steps the program counter, so that it names the next opcode
    /// afterwards. An undocumented operation is two operations on the one
    /// address, with the program counter set back by one between them so
    /// that it is stepped once in all.
    pub open spec fn execute_spec<M: MemoryMapped>(
        self,
        kind: InstructionKind,
        addr: u16,
        mem: M::V,
    ) -> (Cpu, M::V) {
        match kind {
            InstructionKind::Nop => (self.advance(), mem),
            InstructionKind::Lda => {
                let (mem, value) = M::read_spec(mem, addr);
                (Cpu { a: value, ..self }.with_zn(value).advance(), mem)
            },
            InstructionKind::Ldx => {
                let (mem, value) = M::read_spec(mem, addr);
                (Cpu { x: value, ..self }.with_zn(value).advance(), mem)
            },
            InstructionKind::Ldy => {
                let (mem, value) = M::read_spec(mem, addr);
                (Cpu { y: value, ..self }.with_zn(value).advance(), mem)
            },
            InstructionKind::Lax => {
                let (mem, value) = M::read_spec(mem, addr);
                (Cpu { a: value, x: value, ..self }.with_zn(value).advance(), mem)
            },
            InstructionKind::Sta => (self.advance(), M::write_spec(mem, addr, self.a)),
            InstructionKind::Stx => (self.advance(), M::write_spec(mem, addr, self.x)),
            InstructionKind::Sty => (self.advance(), M::write_spec(mem, addr, self.y)),
            InstructionKind::Sax => (self.advance(), M::write_spec(mem, addr, self.a & self.x)),
            InstructionKind::Tax => (Cpu { x: self.a, ..self }.with_zn(self.a).advance(), mem),
            InstructionKind::Tay => (Cpu { y: self.a, ..self }.with_zn(self.a).advance(), mem),
            InstructionKind::Txa => (Cpu { a: self.x, ..self }.with_zn(self.x).advance(), mem),
            InstructionKind::Tya => (Cpu { a: self.y, ..self }.with_zn(self.y).advance(), mem),
            InstructionKind::Tsx => (Cpu { x: self.sp, ..self }.with_zn(self.sp).advance(), mem),
            InstructionKind::Txs => (Cpu { sp: self.x, ..self }.advance(), mem),
            InstructionKind::Pha => {
                let (cpu, mem) = self.push_spec::<M>(mem, self.a);
                (cpu.advance(), mem)
            },
            InstructionKind::Php => {
                let cpu = Cpu { reserved_flag: true, break_cmd_flag: true, ..self };
                let (cpu, mem) = cpu.push_spec::<M>(mem, cpu.status_word());
                (cpu.advance(), mem)
            },
            InstructionKind::Pla => {
                let (cpu, mem, value) = self.pop_spec::<M>(mem);
                (Cpu { a: value, ..cpu }.with_zn(value).advance(), mem)
            },
            InstructionKind::Plp => {
                let (cpu, mem, status) = self.pop_spec::<M>(mem);
                (cpu.with_status(status).advance(), mem)
            },
            InstructionKind::And => self.and_spec::<M>(addr, mem),
            InstructionKind::Eor => self.eor_spec::<M>(addr, mem),
            InstructionKind::Ora => self.ora_spec::<M>(addr, mem),
            InstructionKind::Bit => {
                let (mem, value) = M::read_spec(mem, addr);
                (
                    Cpu {
                        zero_flag: self.a & value == 0,
                        overflow_flag: value % 128 >= 64,
                        negative_flag: is_negative(value),
                        ..self
                    }.advance(),
                    mem,
                )
            },
            InstructionKind::Jmp => (Cpu { pc: addr, ..self }, mem),
            InstructionKind::Jsr => {
                let (cpu, mem) = self.push_long_spec::<M>(mem, self.pc);
                (Cpu { pc: addr, ..cpu }, mem)
            },
            InstructionKind::Rts => {
                let (cpu, mem, target) = self.pop_long_spec::<M>(mem);
                (Cpu { pc: target.wrapping_add(1), ..cpu }, mem)
            },
            InstructionKind::Bne => (self.branched(!self.zero_flag, addr), mem),
            InstructionKind::Beq => (self.branched(self.zero_flag, addr), mem),
            InstructionKind::Bpl => (self.branched(!self.negative_flag, addr), mem),
            InstructionKind::Bcc => (self.branched(!self.carry_flag, addr), mem),
            InstructionKind::Bcs => (self.branched(self.carry_flag, addr), mem),
            InstructionKind::Bmi => (self.branched(self.negative_flag, addr), mem),
            InstructionKind::Bvc => (self.branched(!self.overflow_flag, addr), mem),
            InstructionKind::Bvs => (self.branched(self.overflow_flag, addr), mem),
            InstructionKind::Dex => {
                let result = self.x.wrapping_sub(1);
                (Cpu { x: result, ..self }.with_zn(result).advance(), mem)
            },
            InstructionKind::Dey => {
                let result = self.y.wrapping_sub(1);
                (Cpu { y: result, ..self }.with_zn(result).advance(), mem)
            },
            InstructionKind::Inc => self.inc_spec::<M>(addr, mem),
            InstructionKind::Incx => {
                let result = self.x.wrapping_add(1);
                (Cpu { x: result, ..self }.with_zn(result).advance(), mem)
            },
            InstructionKind::Incy => {
                let result = self.y.wrapping_add(1);
                (Cpu { y: result, ..self }.with_zn(result).advance(), mem)
            },
            InstructionKind::Asl => {
                let (cpu, result) = self.shifted_left(self.a);
                (Cpu { a: result, ..cpu }, mem)
            },
            InstructionKind::AslAddr => self.asl_addr_spec::<M>(addr, mem),
            InstructionKind::Slo => {
                let (cpu, mem) = self.asl_addr_spec::<M>(addr, mem);
                cpu.rewind().ora_spec::<M>(addr, mem)
            },
            InstructionKind::Lsr => {
                let (cpu, result) = self.shifted_right(self.a);
                (Cpu { a: result, ..cpu }, mem)
            },
            InstructionKind::LsrAddr => self.lsr_addr_spec::<M>(addr, mem),
            InstructionKind::Sre => {
                let (cpu, mem) = self.lsr_addr_spec::<M>(addr, mem);
                cpu.rewind().eor_spec::<M>(addr, mem)
            },
            InstructionKind::Rol => {
                let (cpu, result) = self.rotated_left(self.a);
                (Cpu { a: result, ..cpu }, mem)
            },
            InstructionKind::RolAddr => self.rol_addr_spec::<M>(addr, mem),
            InstructionKind::Rla => {
                let (cpu, mem) = self.rol_addr_spec::<M>(addr, mem);
                cpu.rewind().and_spec::<M>(addr, mem)
            },
            InstructionKind::Ror => {
                let (cpu, result) = self.rotated_right(self.a);
                (Cpu { a: result, ..cpu }, mem)
            },
            InstructionKind::RorAddr => self.ror_addr_spec::<M>(addr, mem),
            InstructionKind::Rra => {
                let (cpu, mem) = self.ror_addr_spec::<M>(addr, mem);
                cpu.rewind().adc_spec::<M>(addr, mem)
            },
            InstructionKind::Clc => (Cpu { carry_flag: false, ..self }.advance(), mem),
            InstructionKind::Sec => (Cpu { carry_flag: true, ..self }.advance(), mem),
            InstructionKind::Cld => (Cpu { decimal_flag: false, ..self }.advance(), mem),
            InstructionKind::Sed => (Cpu { decimal_flag: true, ..self }.advance(), mem),
            InstructionKind::Cli => (Cpu { interrupt_flag: false, ..self }.advance(), mem),
            InstructionKind::Sei => (Cpu { interrupt_flag: true, ..self }.advance(), mem),
            InstructionKind::Clv => (Cpu { overflow_flag: false, ..self }.advance(), mem),
            InstructionKind::Cmp => self.compare_spec::<M>(self.a, addr, mem),
            InstructionKind::Cpx => self.compare_spec::<M>(self.x, addr, mem),
            InstructionKind::Cpy => self.compare_spec::<M>(self.y, addr, mem),
            InstructionKind::Adc => self.adc_spec::<M>(addr, mem),
            InstructionKind::Sbc => self.sbc_spec::<M>(addr, mem),
            InstructionKind::Brk => self.brk_spec::<M>(mem),
            InstructionKind::Rti => {
                let (cpu, mem, status) = self.pop_spec::<M>(mem);
                let (cpu, mem, target) = cpu.with_status(status).pop_long_spec::<M>(mem);
                (Cpu { pc: target, ..cpu }, mem)
            },
            InstructionKind::Isc => {
                let (cpu, mem) = self.inc_spec::<M>(addr, mem);
                cpu.rewind().sbc_spec::<M>(addr, mem)
            },
            InstructionKind::Dec => self.dec_spec::<M>(addr, mem),
            InstructionKind::Dcp => {
                let (cpu, mem) = self.dec_spec::<M>(addr, mem);
                cpu.rewind().compare_spec::<M>(cpu.a, addr, mem)
            },
        }
    }

    /// What a whole instruction does once its opcode has been read: the
    /// operand fetch of its addressing mode, the operation, and its cycle
    /// cost added to the counter.
    pub open spec fn run_spec<M: MemoryMapped>(self, instr: Instruction, mem: M::V) -> (Cpu, M::V) {
        let (cpu, mem, addr) = self.effective_address::<M>(instr.addr_mode, mem);
        let (cpu, mem) = cpu.execute_spec::<M>(instr.kind, addr, mem);
        (Cpu { cycles: cpu.cycles.wrapping_add(instr.cycles as usize), ..cpu }, mem)
    }

    /// What one step of the CPU does: the opcode that the program counter
    /// names is read and, where the catalog has it, its instruction runs.
    /// Where the catalog lacks it, the CPU stays as it was and the opcode is
    /// reported; the memory is then as the read of the opcode left it.
    pub open spec fn step_spec<M: MemoryMapped>(self, mem: M::V) -> (
        Cpu,
        M::V,
        Result<(), UnimplementedOpcode>,
    ) {
        let (mem, opcode) = M::read_spec(mem, self.pc);
        match catalog(opcode) {
            Some(instr) => {
                let (cpu, mem) = self.run_spec::<M>(instr, mem);
                (cpu, mem, Ok(()))
            },
            None => (self, mem, Err(UnimplementedOpcode { opcode })),
        }
    }

    /// What a reset does: the program counter is taken from the reset
    /// vector, and nothing else changes.
    pub open spec fn reset_spec<M: MemoryMapped>(self, mem: M::V) -> (Cpu, M::V) {
        let (mem, target) = Self::read_vector::<M>(mem, RESET_VECTOR);
        (Cpu { pc: target, ..self }, mem)
    }

    /// What a non-maskable interrupt does: the program counter and then the
    /// status byte are pushed, and the program counter is taken from the
    /// interrupt's vector.
    pub open spec fn nmi_spec<M: MemoryMapped>(self, mem: M::V) -> (Cpu, M::V) {
        let (cpu, mem) = self.push_long_spec::<M>(mem, self.pc);
        let (cpu, mem) = cpu.push_spec::<M>(mem, cpu.status_word());
        let (mem, target) = Self::read_vector::<M>(mem, NMI_VECTOR);
        (Cpu { pc: target, ..cpu }, mem)
    }

    /// A load, a store, or no operation.
    fn execute_load_store<M: MemoryMapped>(&mut self, kind: InstructionKind, addr: u16, mem: &mut M)
        requires
            old(mem).inv(),
            kind is Nop || kind is Lda || kind is Ldx || kind is Ldy || kind is Lax || kind is Sta || kind is Stx || kind is Sty || kind is Sax,
        ensures
            final(mem).inv(),
            (*final(self), final(mem)@) == old(self).execute_spec::<M>(kind, addr, old(mem)@),
    {
        match kind {
            InstructionKind::Nop => {
                self.pc = self.pc.wrapping_add(1);
            },
            InstructionKind::Lda => {
                let value = mem.read(addr);
                self.a = value;
                self.set_zn(value);
                self.pc = self.pc.wrapping_add(1);
            },
            InstructionKind::Ldx => {
                let value = mem.read(addr);
                self.x = value;
                self.set_zn(value);
                self.pc = self.pc.wrapping_add(1);
            },
            InstructionKind::Ldy => {
                let value = mem.read(addr);
                self.y = value;
                self.set_zn(value);
                self.pc = self.pc.wrapping_add(1);
            },
            InstructionKind::Lax => {
                let value = mem.read(addr);
                self.x = value;
                self.a = value;
                self.set_zn(value);
                self.pc = self.pc.wrapping_add(1);
            },
            InstructionKind::Sta => {
                mem.write(addr, self.a);
                self.pc = self.pc.wrapping_add(1);
            },
            InstructionKind::Stx => {
                mem.write(addr, self.x);
                self.pc = self.pc.wrapping_add(1);
            },
            InstructionKind::Sty => {
                mem.write(addr, self.y);
                self.pc = self.pc.wrapping_add(1);
            },
            InstructionKind::Sax => {
                mem.write(addr, self.a & self.x);
                self.pc = self.pc.wrapping_add(1);
            },
            _ => {},
        }
    }

    /// A transfer between registers, or a push or a pop of one.
    fn execute_transfer<M: MemoryMapped>(&mut self, kind: InstructionKind, addr: u16, mem: &mut M)
        requires
            old(mem).inv(),
            kind is Tax || kind is Tay || kind is Txa || kind is Tya || kind is Tsx || kind is Txs || kind is Pha || kind is Php || kind is Pla || kind is Plp,
        ensures
            final(mem).inv(),
            (*final(self), final(mem)@) == old(self).execute_spec::<M>(kind, addr, old(mem)@),
    {
        match kind {
            InstructionKind::Tax => {
                self.x = self.a;
                self.set_zn(self.x);
                self.pc = self.pc.wrapping_add(1);
            },
            InstructionKind::Tay => {
                self.y = self.a;
                self.set_zn(self.y);
                self.pc = self.pc.wrapping_add(1);
            },
            InstructionKind::Txa => {
                self.a = self.x;
                self.set_zn(self.a);
                self.pc = self.pc.wrapping_add(1);
            },
            InstructionKind::Tya => {
                self.a = self.y;
                self.set_zn(self.a);
                self.pc = self.pc.wrapping_add(1);
            },
            InstructionKind::Tsx => {
                self.x = self.sp;
                self.set_zn(self.x);
                self.pc = self.pc.wrapping_add(1);
            },
            InstructionKind::Txs => {
                self.sp = self.x;
                self.pc = self.pc.wrapping_add(1);
            },
            InstructionKind::Pha => {
                self.push(self.a, mem);
                self.pc = self.pc.wrapping_add(1);
            },
            InstructionKind::Php => {
                self.reserved_flag = true;
                self.break_cmd_flag = true;
                self.push(self.status_to_word(), mem);
                self.pc = self.pc.wrapping_add(1);
            },
            InstructionKind::Pla => {
                self.a = self.pop(mem);
                self.set_zn(self.a);
                self.pc = self.pc.wrapping_add(1);
            },
            InstructionKind::Plp => {
                let status = self.pop(mem);
                self.word_to_status(status);
                self.pc = self.pc.wrapping_add(1);
            },
            _ => {},
        }
    }

    /// A logic operation, a jump, or the entry to or the return from an interrupt.
    fn execute_logic_jump<M: MemoryMapped>(&mut self, kind: InstructionKind, addr: u16, mem: &mut M)
        requires
            old(mem).inv(),
            kind is And || kind is Eor || kind is Ora || kind is Bit || kind is Jmp || kind is Jsr || kind is Rts || kind is Brk || kind is Rti,
        ensures
            final(mem).inv(),
            (*final(self), final(mem)@) == old(self).execute_spec::<M>(kind, addr, old(mem)@),
    {
        match kind {
            InstructionKind::And => {
                self.and(addr, mem);
            },
            InstructionKind::Eor => {
                self.eor(addr, mem);
            },
            InstructionKind::Ora => {
                self.ora(addr, mem);
            },
            InstructionKind::Bit => {
                let value = mem.read(addr);
                proof {
                    lemma_bit6(value);
                }
                self.zero_flag = self.a & value == 0;
                self.overflow_flag = value & (1u8 << 6) != 0;
                self.negative_flag = negative(value);
                self.pc = self.pc.wrapping_add(1);
            },
            InstructionKind::Jmp => {
                self.pc = addr;
            },
            InstructionKind::Jsr => {
                self.push_long(self.pc, mem);
                self.pc = addr;
            },
            InstructionKind::Rts => {
                let target = self.pop_long(mem);
                self.pc = target.wrapping_add(1);
            },
            InstructionKind::Brk => {
                self.brk(mem);
            },
            InstructionKind::Rti => {
                let status = self.pop(mem);
                self.word_to_status(status);
                self.pc = self.pop_long(mem);
            },
            _ => {},
        }
    }

    /// A conditional branch.
    fn execute_branch<M: MemoryMapped>(&mut self, kind: InstructionKind, addr: u16, mem: &mut M)
        requires
            old(mem).inv(),
            kind is Bne || kind is Beq || kind is Bpl || kind is Bcc || kind is Bcs || kind is Bmi || kind is Bvc || kind is Bvs,
        ensures
            final(mem).inv(),
            (*final(self), final(mem)@) == old(self).execute_spec::<M>(kind, addr, old(mem)@),
    {
        match kind {
            InstructionKind::Bne => {
                self.branch(!self.zero_flag, addr);
            },
            InstructionKind::Beq => {
                self.branch(self.zero_flag, addr);
            },
            InstructionKind::Bpl => {
                self.branch(!self.negative_flag, addr);
            },
            InstructionKind::Bcc => {
                self.branch(!self.carry_flag, addr);
            },
            InstructionKind::Bcs => {
                self.branch(self.carry_flag, addr);
            },
            InstructionKind::Bmi => {
                self.branch(self.negative_flag, addr);
            },
            InstructionKind::Bvc => {
                self.branch(!self.overflow_flag, addr);
            },
            InstructionKind::Bvs => {
                self.branch(self.overflow_flag, addr);
            },
            _ => {},
        }
    }

    /// An increment, a decrement, or the setting or clearing of one flag.
    fn execute_step_flag<M: MemoryMapped>(&mut self, kind: InstructionKind, addr: u16, mem: &mut M)
        requires
            old(mem).inv(),
            kind is Dex || kind is Dey || kind is Incx || kind is Incy || kind is Inc || kind is Dec || kind is Clc || kind is Sec || kind is Cld || kind is Sed || kind is Cli || kind is Sei || kind is Clv,
        ensures
            final(mem).inv(),
            (*final(self), final(mem)@) == old(self).execute_spec::<M>(kind, addr, old(mem)@),
    {
        match kind {
            InstructionKind::Dex => {
                self.x = self.x.wrapping_sub(1);
                self.set_zn(self.x);
                self.pc = self.pc.wrapping_add(1);
            },
            InstructionKind::Dey => {
                self.y = self.y.wrapping_sub(1);
                self.set_zn(self.y);
                self.pc = self.pc.wrapping_add(1);
            },
            InstructionKind::Incx => {
                self.x = self.x.wrapping_add(1);
                self.set_zn(self.x);
                self.pc = self.pc.wrapping_add(1);
            },
            InstructionKind::Incy => {
                self.y = self.y.wrapping_add(1);
                self.set_zn(self.y);
                self.pc = self.pc.wrapping_add(1);
            },
            InstructionKind::Inc => {
                self.inc(addr, mem);
            },
            InstructionKind::Dec => {
                self.dec(addr, mem);
            },
            InstructionKind::Clc => {
                self.carry_flag = false;
                self.pc = self.pc.wrapping_add(1);
            },
            InstructionKind::Sec => {
                self.carry_flag = true;
                self.pc = self.pc.wrapping_add(1);
            },
            InstructionKind::Cld => {
                self.decimal_flag = false;
                self.pc = self.pc.wrapping_add(1);
            },
            InstructionKind::Sed => {
                self.decimal_flag = true;
                self.pc = self.pc.wrapping_add(1);
            },
            InstructionKind::Cli => {
                self.interrupt_flag = false;
                self.pc = self.pc.wrapping_add(1);
            },
            InstructionKind::Sei => {
                self.interrupt_flag = true;
                self.pc = self.pc.wrapping_add(1);
            },
            InstructionKind::Clv => {
                self.overflow_flag = false;
                self.pc = self.pc.wrapping_add(1);
            },
            _ => {},
        }
    }

    /// A shift or a rotation.
    fn execute_shift<M: MemoryMapped>(&mut self, kind: InstructionKind, addr: u16, mem: &mut M)
        requires
            old(mem).inv(),
            kind is Asl || kind is AslAddr || kind is Lsr || kind is LsrAddr || kind is Rol || kind is RolAddr || kind is Ror || kind is RorAddr,
        ensures
            final(mem).inv(),
            (*final(self), final(mem)@) == old(self).execute_spec::<M>(kind, addr, old(mem)@),
    {
        match kind {
            InstructionKind::Asl => {
                self.a = self.shift_left(self.a);
            },
            InstructionKind::AslAddr => {
                self.asl_addr(addr, mem);
            },
            InstructionKind::Lsr => {
                self.a = self.shift_right(self.a);
            },
            InstructionKind::LsrAddr => {
                self.lsr_addr(addr, mem);
            },
            InstructionKind::Rol => {
                self.a = self.rotate_left(self.a);
            },
            InstructionKind::RolAddr => {
                self.rol_addr(addr, mem);
            },
            InstructionKind::Ror => {
                self.a = self.rotate_right(self.a);
            },
            InstructionKind::RorAddr => {
                self.ror_addr(addr, mem);
            },
            _ => {},
        }
    }

    /// A comparison, an addition or a subtraction.
    fn execute_arithmetic<M: MemoryMapped>(&mut self, kind: InstructionKind, addr: u16, mem: &mut M)
        requires
            old(mem).inv(),
            kind is Cmp || kind is Cpx || kind is Cpy || kind is Adc || kind is Sbc,
        ensures
            final(mem).inv(),
            (*final(self), final(mem)@) == old(self).execute_spec::<M>(kind, addr, old(mem)@),
    {
        match kind {
            InstructionKind::Cmp => {
                self.compare(self.a, addr, mem);
            },
            InstructionKind::Cpx => {
                self.compare(self.x, addr, mem);
            },
            InstructionKind::Cpy => {
                self.compare(self.y, addr, mem);
            },
            InstructionKind::Adc => {
                self.adc(addr, mem);
            },
            InstructionKind::Sbc => {
                self.sbc(addr, mem);
            },
            _ => {},
        }
    }

    /// An undocumented operation: two operations on the one address, with the
    /// program counter set back between them.
    fn execute_fused<M: MemoryMapped>(&mut self, kind: InstructionKind, addr: u16, mem: &mut M)
        requires
            old(mem).inv(),
            kind is Slo || kind is Sre || kind is Rla || kind is Rra || kind is Isc || kind is Dcp,
        ensures
            final(mem).inv(),
            (*final(self), final(mem)@) == old(self).execute_spec::<M>(kind, addr, old(mem)@),
    {
        match kind {
            InstructionKind::Slo => {
                self.asl_addr(addr, mem);
                self.pc = self.pc.wrapping_sub(1);
                self.ora(addr, mem);
            },
            InstructionKind::Sre => {
                self.lsr_addr(addr, mem);
                self.pc = self.pc.wrapping_sub(1);
                self.eor(addr, mem);
            },
            InstructionKind::Rla => {
                self.rol_addr(addr, mem);
                self.pc = self.pc.wrapping_sub(1);
                self.and(addr, mem);
            },
            InstructionKind::Rra => {
                self.ror_addr(addr, mem);
                self.pc = self.pc.wrapping_sub(1);
                self.adc(addr, mem);
            },
            InstructionKind::Isc => {
                self.inc(addr, mem);
                self.pc = self.pc.wrapping_sub(1);
                self.sbc(addr, mem);
            },
            InstructionKind::Dcp => {
                self.dec(addr, mem);
                self.pc = self.pc.wrapping_sub(1);
                self.compare(self.a, addr, mem);
            },
            _ => {},
        }
    }

    /// Carries out the operation `kind` on the operand at `addr`.
    pub fn execute<M: MemoryMapped>(&mut self, kind: InstructionKind, addr: u16, mem: &mut M)
        requires
            old(mem).inv(),
        ensures
            final(mem).inv(),
            (*final(self), final(mem)@) == old(self).execute_spec::<M>(kind, addr, old(mem)@),
    {
        match kind {
            InstructionKind::Nop | InstructionKind::Lda | InstructionKind::Ldx | InstructionKind::Ldy | InstructionKind::Lax | InstructionKind::Sta | InstructionKind::Stx | InstructionKind::Sty | InstructionKind::Sax => {
                self.execute_load_store(kind, addr, mem);
            },
            InstructionKind::Tax | InstructionKind::Tay | InstructionKind::Txa | InstructionKind::Tya | InstructionKind::Tsx | InstructionKind::Txs | InstructionKind::Pha | InstructionKind::Php | InstructionKind::Pla | InstructionKind::Plp => {
                self.execute_transfer(kind, addr, mem);
            },
            InstructionKind::And | InstructionKind::Eor | InstructionKind::Ora | InstructionKind::Bit | InstructionKind::Jmp | InstructionKind::Jsr | InstructionKind::Rts | InstructionKind::Brk | InstructionKind::Rti => {
                self.execute_logic_jump(kind, addr, mem);
            },
            InstructionKind::Bne | InstructionKind::Beq | InstructionKind::Bpl | InstructionKind::Bcc | InstructionKind::Bcs | InstructionKind::Bmi | InstructionKind::Bvc | InstructionKind::Bvs => {
                self.execute_branch(kind, addr, mem);
            },
            InstructionKind::Dex | InstructionKind::Dey | InstructionKind::Incx | InstructionKind::Incy | InstructionKind::Inc | InstructionKind::Dec | InstructionKind::Clc | InstructionKind::Sec | InstructionKind::Cld | InstructionKind::Sed | InstructionKind::Cli | InstructionKind::Sei | InstructionKind::Clv => {
                self.execute_step_flag(kind, addr, mem);
            },
            InstructionKind::Asl | InstructionKind::AslAddr | InstructionKind::Lsr | InstructionKind::LsrAddr | InstructionKind::Rol | InstructionKind::RolAddr | InstructionKind::Ror | InstructionKind::RorAddr => {
                self.execute_shift(kind, addr, mem);
            },
            InstructionKind::Cmp | InstructionKind::Cpx | InstructionKind::Cpy | InstructionKind::Adc | InstructionKind::Sbc => {
                self.execute_arithmetic(kind, addr, mem);
            },
            InstructionKind::Slo | InstructionKind::Sre | InstructionKind::Rla | InstructionKind::Rra | InstructionKind::Isc | InstructionKind::Dcp => {
                self.execute_fused(kind, addr, mem);
            },
        }
    }

    /// Runs the instruction that `opcode` stands for: resolves its
    /// addressing mode, carries out its operation and counts its cycles.
    /// An opcode that the catalog lacks is refused, and nothing changes.
    pub fn run_instruction<M: MemoryMapped>(&mut self, opcode: u8, mem: &mut M) -> (res: Result<
        Instruction,
        UnimplementedOpcode,
    >)
        requires
            old(mem).inv(),
        ensures
            final(mem).inv(),
            match catalog(opcode) {
                Some(instr) => res == Ok::<Instruction, UnimplementedOpcode>(instr) && (
                    *final(self),
                    final(mem)@,
                ) == old(self).run_spec::<M>(instr, old(mem)@),
                None => res == Err::<Instruction, UnimplementedOpcode>(
                    UnimplementedOpcode { opcode },
                ) && *final(self) == *old(self) && final(mem)@ == old(mem)@,
            },
    {
        match decode(opcode) {
            Some(instr) => {
                let addr = self.resolve(instr.addr_mode, mem);
                self.execute(instr.kind, addr, mem);
                self.cycles = self.cycles.wrapping_add(instr.cycles as usize);
                Ok(instr)
            },
            None => Err(UnimplementedOpcode { opcode }),
        }
    }

    /// Advances the CPU by one instruction: reads the opcode that the
    /// program counter names and runs it. Where the catalog lacks the
    /// opcode, the CPU is left as it was and the opcode is reported.
    pub fn read_instruction<M: MemoryMapped>(&mut self, ram: &mut M) -> (res: Result<
        (),
        UnimplementedOpcode,
    >)
        requires
            old(ram).inv(),
        ensures
            final(ram).inv(),
            (*final(self), final(ram)@, res) == old(self).step_spec::<M>(old(ram)@),
    {
        let opcode = ram.read(self.pc);
        match self.run_instruction(opcode, ram) {
            Ok(_) => Ok(()),
            Err(e) => Err(e),
        }
    }

    /// Resets the CPU: loads the program counter from the reset vector.
    pub fn reset<M: MemoryMapped>(&mut self, ram: &mut M)
        requires
            old(ram).inv(),
        ensures
            final(ram).inv(),
            (*final(self), final(ram)@) == old(self).reset_spec::<M>(old(ram)@),
    {
        self.pc = Self::load_vector(ram, RESET_VECTOR);
    }

    /// Enters the non-maskable interrupt routine: pushes the program counter
    /// and the status byte, then loads the program counter from the
    /// interrupt's vector.
    pub fn nmi<M: MemoryMapped>(&mut self, ram: &mut M)
        requires
            old(ram).inv(),
        ensures
            final(ram).inv(),
            (*final(self), final(ram)@) == old(self).nmi_spec::<M>(old(ram)@),
    {
        self.push_long(self.pc, ram);
        self.push(self.status_to_word(), ram);
        self.pc = Self::load_vector(ram, NMI_VECTOR);
    }
}

} // verus!
