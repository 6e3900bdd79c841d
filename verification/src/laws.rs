//! Laws that hold of the operations of the library whatever their inputs.

use crate::asc::{Asc, AscView, BusMiss, MemoryMapped};
use crate::cpu::{bit, stack_address, word, wrap16, Cpu};
use crate::instruction::{AddressingMode, Instruction, InstructionKind};
use crate::machine::{is_board, Board, DeviceView, MEMORY};
use crate::ppu::{Ppu, PpuView, PORT_ADDR, PORT_CONTROL, PORT_DATA, PORT_STATUS};
use crate::ram::{Ram, RAM_SIZE};
use vstd::prelude::*;

verus! {

// ----------------------------------------------------------------------
// Addition with carry
// ----------------------------------------------------------------------

/// A byte read as a two's complement number.
pub open spec fn signed(value: u8) -> int {
    if value >= 0x80 {
        value - 256
    } else {
        value as int
    }
}

/// Addition with carry is the addition in two stages: first the operand is
/// added to the accumulator, then the carry to that sum, each modulo 256.
/// Carry is set when either stage passes 255, overflow is the sign bit of
/// `!(A ^ operand) & (A ^ result)`, zero says that the result is zero, and
/// negative is bit 7 of the result.
pub proof fn law_adc_two_stages(cpu: Cpu, operand: u8)
    ensures
        ({
            let first = ((cpu.a + operand) % 256) as u8;
            let second = ((first + bit(cpu.carry_flag)) % 256) as u8;
            let after = cpu.added(operand);
            &&& after.a == second
            &&& after.carry_flag == (cpu.a + operand > 255 || first + bit(cpu.carry_flag) > 255)
            &&& after.overflow_flag == ((!(cpu.a ^ operand) & (cpu.a ^ second)) >= 0x80)
            &&& after.zero_flag == (second == 0)
            &&& after.negative_flag == (second >= 0x80)
        }),
{
    let a = cpu.a;
    let first = ((a + operand) % 256) as u8;
    let second = ((first + bit(cpu.carry_flag)) % 256) as u8;
    assert(((!(a ^ operand) & (a ^ second)) >= 0x80) == ((a >= 0x80) == (operand >= 0x80) && (second
        >= 0x80) != (a >= 0x80))) by (bit_vector);
}

/// The overflow flag of an addition with carry says that the sum of the
/// accumulator, the operand and the carry, all read as signed numbers, does
/// not fit a signed byte; the carry flag, that the unsigned sum does not fit
/// a byte; and the accumulator holds the sum modulo 256.
pub proof fn law_adc_arithmetic(cpu: Cpu, operand: u8)
    ensures
        ({
            let after = cpu.added(operand);
            let total = signed(cpu.a) + signed(operand) + bit(cpu.carry_flag);
            &&& after.overflow_flag == (total < -128 || total > 127)
            &&& after.carry_flag == (cpu.a + operand + bit(cpu.carry_flag) >= 256)
            &&& after.a as int + 256 * bit(after.carry_flag) == cpu.a + operand + bit(
                cpu.carry_flag,
            )
            &&& !after.overflow_flag ==> signed(after.a) == total
        }),
{
}

/// A subtraction is the addition of the one's complement: with carry set
/// going in, nothing is borrowed, the accumulator holds the difference
/// modulo 256, and carry stays set exactly when the operand is not larger
/// than the accumulator.
pub proof fn law_sbc_without_borrow(cpu: Cpu, operand: u8)
    requires
        cpu.carry_flag,
    ensures
        ({
            let after = cpu.added((255 - operand) as u8);
            &&& after.a == cpu.a.wrapping_sub(operand)
            &&& after.carry_flag == (cpu.a >= operand)
        }),
{
}

/// Packing the flags into a status byte and setting them from it again
/// changes nothing.
pub proof fn law_status_round_trip(cpu: Cpu)
    ensures
        cpu.with_status(cpu.status_word()) == cpu,
{
    let c = bit(cpu.carry_flag) as u8;
    let z = bit(cpu.zero_flag) as u8;
    let i = bit(cpu.interrupt_flag) as u8;
    let d = bit(cpu.decimal_flag) as u8;
    let b = bit(cpu.break_cmd_flag) as u8;
    let r = bit(cpu.reserved_flag) as u8;
    let v = bit(cpu.overflow_flag) as u8;
    let n = bit(cpu.negative_flag) as u8;
    let w = (c + 2 * z + 4 * i + 8 * d + 16 * b + 32 * r + 64 * v + 128 * n) as u8;
    assert({
        &&& w % 2 == c
        &&& (w / 2) % 2 == z
        &&& (w / 4) % 2 == i
        &&& (w / 8) % 2 == d
        &&& (w / 16) % 2 == b
        &&& (w / 32) % 2 == r
        &&& (w / 64) % 2 == v
        &&& (w / 128) % 2 == n
    }) by (bit_vector)
        requires
            c <= 1,
            z <= 1,
            i <= 1,
            d <= 1,
            b <= 1,
            r <= 1,
            v <= 1,
            n <= 1,
            w == c + 2 * z + 4 * i + 8 * d + 16 * b + 32 * r + 64 * v + 128 * n,
    ;
}

/// Each status byte is the packing of the flags that it sets.
pub proof fn law_status_word_of_status(cpu: Cpu, status: u8)
    ensures
        cpu.with_status(status).status_word() == status,
{
    assert(status % 2 + 2 * ((status / 2) % 2) + 4 * ((status / 4) % 2) + 8 * ((status / 8) % 2)
        + 16 * ((status / 16) % 2) + 32 * ((status / 32) % 2) + 64 * ((status / 64) % 2) + 128 * ((
    status / 128) % 2) == status) by (bit_vector);
}

// ----------------------------------------------------------------------
// The stack
// ----------------------------------------------------------------------

/// Whether the memory holds `value` at `addr`: a read there gives `value`
/// and leaves the memory as it is.
pub open spec fn holds<M: MemoryMapped>(mem: M::V, addr: u16, value: u8) -> bool {
    M::read_spec(mem, addr) == (mem, value)
}

/// A word pushed and popped again comes back, and the CPU is as before the
/// push, stack pointer included, on every memory that after the two writes
/// holds the two bytes in the two stack cells.
pub proof fn law_push_pop_long<M: MemoryMapped>(cpu: Cpu, mem: M::V, value: u16)
    requires
        ({
            let (pushed, written) = cpu.push_long_spec::<M>(mem, value);
            &&& holds::<M>(written, stack_address(cpu.sp), (value / 256) as u8)
            &&& holds::<M>(written, stack_address(cpu.sp.wrapping_sub(1)), (value % 256) as u8)
        }),
    ensures
        ({
            let (pushed, written) = cpu.push_long_spec::<M>(mem, value);
            pushed.pop_long_spec::<M>(written) == (cpu, written, value)
        }),
{
}

/// On byte storage a word pushed and popped again always comes back, and
/// the CPU is as before the push, stack pointer included.
pub proof fn law_push_pop_long_on_storage(cpu: Cpu, mem: Seq<u8>, value: u16)
    requires
        mem.len() == RAM_SIZE,
    ensures
        ({
            let (pushed, written) = cpu.push_long_spec::<Ram>(mem, value);
            pushed.pop_long_spec::<Ram>(written) == (cpu, written, value)
        }),
{
    law_push_pop_long::<Ram>(cpu, mem, value);
}

/// On the main bus of the console, where the stack page lies in byte
/// storage, a word pushed and popped again always comes back, and the CPU is
/// as before the push.
pub proof fn law_push_pop_long_on_board(cpu: Cpu, bus: AscView<DeviceView>, value: u16)
    requires
        is_board(bus),
    ensures
        ({
            let (pushed, written) = cpu.push_long_spec::<Board>(bus, value);
            pushed.pop_long_spec::<Board>(written) == (cpu, written, value)
        }),
{
    let high = stack_address(cpu.sp);
    let low = stack_address(cpu.sp.wrapping_sub(1));
    assert(high & 0xffff == high && low & 0xffff == low) by (bit_vector);
    assert(bus.is_mapped(high) && bus.is_mapped(low));
    let (pushed, written) = cpu.push_long_spec::<Board>(bus, value);
    let storage = written.devices[MEMORY as int];
    assert(written.devices.update(MEMORY as int, storage) =~= written.devices);
    law_push_pop_long::<Board>(cpu, bus, value);
}

/// A byte pushed and popped again comes back on byte storage, and the CPU
/// is as before the push.
pub proof fn law_push_pop_on_storage(cpu: Cpu, mem: Seq<u8>, value: u8)
    requires
        mem.len() == RAM_SIZE,
    ensures
        ({
            let (pushed, written) = cpu.push_spec::<Ram>(mem, value);
            pushed.pop_spec::<Ram>(written) == (cpu, written, value)
        }),
{
}

/// The CPU and the memory after the bytes of `values` have been pushed, the
/// first of them first.
pub open spec fn push_all<M: MemoryMapped>(cpu: Cpu, mem: M::V, values: Seq<u8>) -> (Cpu, M::V)
    decreases values.len(),
{
    if values.len() == 0 {
        (cpu, mem)
    } else {
        let (cpu, mem) = push_all::<M>(cpu, mem, values.drop_last());
        cpu.push_spec::<M>(mem, values.last())
    }
}

/// The CPU and the memory after `count` bytes have been popped.
pub open spec fn pop_times<M: MemoryMapped>(cpu: Cpu, mem: M::V, count: nat) -> (Cpu, M::V)
    decreases count,
{
    if count == 0 {
        (cpu, mem)
    } else {
        let (cpu, mem) = pop_times::<M>(cpu, mem, (count - 1) as nat);
        let (cpu, mem, value) = cpu.pop_spec::<M>(mem);
        (cpu, mem)
    }
}

/// Pushes move the stack pointer down by their number modulo 256 and leave
/// the rest of the CPU alone.
pub proof fn law_pushes_move_stack_pointer<M: MemoryMapped>(cpu: Cpu, mem: M::V, values: Seq<u8>)
    ensures
        push_all::<M>(cpu, mem, values).0 == (Cpu {
            sp: ((cpu.sp - values.len()) % 256) as u8,
            ..cpu
        }),
    decreases values.len(),
{
    if values.len() > 0 {
        law_pushes_move_stack_pointer::<M>(cpu, mem, values.drop_last());
    }
}

/// Pops move the stack pointer up by their number modulo 256 and leave the
/// rest of the CPU alone.
pub proof fn law_pops_move_stack_pointer<M: MemoryMapped>(cpu: Cpu, mem: M::V, count: nat)
    ensures
        pop_times::<M>(cpu, mem, count).0 == (Cpu { sp: ((cpu.sp + count) % 256) as u8, ..cpu }),
    decreases count,
{
    if count > 0 {
        law_pops_move_stack_pointer::<M>(cpu, mem, (count - 1) as nat);
    }
}

/// The stack pointer wraps: 256 pushes followed by 256 pops leave the CPU
/// as it was, whatever the stack pointer was and whatever the memory is.
pub proof fn law_stack_pointer_wraps<M: MemoryMapped>(cpu: Cpu, mem: M::V, values: Seq<u8>)
    requires
        values.len() == 256,
    ensures
        ({
            let (pushed, written) = push_all::<M>(cpu, mem, values);
            pop_times::<M>(pushed, written, 256).0 == cpu
        }),
{
    let (pushed, written) = push_all::<M>(cpu, mem, values);
    law_pushes_move_stack_pointer::<M>(cpu, mem, values);
    law_pops_move_stack_pointer::<M>(pushed, written, 256);
}

// ----------------------------------------------------------------------
// Pointers
// ----------------------------------------------------------------------

/// A page-zero pointer never leaves page zero: on byte storage its low byte
/// is the cell it names and its high byte the next cell of page zero, which
/// for the pointer `0xFF` is the cell `0x00`.
pub proof fn law_zero_page_pointer_wraps(mem: Seq<u8>, pointer: u8)
    requires
        mem.len() == RAM_SIZE,
    ensures
        Cpu::read_zero_page_pointer::<Ram>(mem, pointer) == (
            mem,
            word(mem[pointer as int], mem[(pointer + 1) % 256]),
        ),
        Cpu::read_zero_page_pointer::<Ram>(mem, 0xFF).1 == word(mem[0xFF], mem[0]),
{
}

/// The two indexed indirect modes on byte storage. `(zp,X)` adds X to the
/// operand within page zero and takes the address from the pointer found
/// there; `(zp),Y` takes the pointer at the operand and adds Y to the
/// address, wrapping at 16 bits. Each steps the program counter onto the
/// operand and leaves the storage as it is.
pub proof fn law_indexed_indirect_on_storage(cpu: Cpu, mem: Seq<u8>)
    requires
        mem.len() == RAM_SIZE,
    ensures
        ({
            let operand = mem[cpu.pc.wrapping_add(1) as int];
            let before = ((operand + cpu.x) % 256) as u8;
            &&& cpu.effective_address::<Ram>(AddressingMode::IndexedIndirect, mem) == (
                cpu.advance(),
                mem,
                word(mem[before as int], mem[(before + 1) % 256]),
            )
            &&& cpu.effective_address::<Ram>(AddressingMode::IndirectIndexed, mem) == (
                cpu.advance(),
                mem,
                word(mem[operand as int], mem[(operand + 1) % 256]).wrapping_add(cpu.y as u16),
            )
        }),
{
}

// ----------------------------------------------------------------------
// Branches and undocumented operations
// ----------------------------------------------------------------------

/// Whether the CPU takes the conditional branch `kind`.
pub open spec fn branch_taken(cpu: Cpu, kind: InstructionKind) -> bool {
    match kind {
        InstructionKind::Bne => !cpu.zero_flag,
        InstructionKind::Beq => cpu.zero_flag,
        InstructionKind::Bpl => !cpu.negative_flag,
        InstructionKind::Bmi => cpu.negative_flag,
        InstructionKind::Bcc => !cpu.carry_flag,
        InstructionKind::Bcs => cpu.carry_flag,
        InstructionKind::Bvc => !cpu.overflow_flag,
        InstructionKind::Bvs => cpu.overflow_flag,
        _ => false,
    }
}

/// A branch instruction whose opcode lies at the program counter reads its
/// displacement from the next byte and goes on two bytes further, where the
/// next instruction starts; where the branch is taken, the displacement,
/// read as a signed byte, is added to that address. Nothing else changes
/// but the cycle counter.
pub proof fn law_branch_displacement<M: MemoryMapped>(
    cpu: Cpu,
    mem: M::V,
    kind: InstructionKind,
    cycles: u32,
)
    requires
        kind is Bne || kind is Beq || kind is Bpl || kind is Bmi || kind is Bcc || kind is Bcs
            || kind is Bvc || kind is Bvs,
    ensures
        ({
            let instr = Instruction { kind, addr_mode: AddressingMode::Relative, cycles };
            let (fetched, operand) = M::read_spec(mem, cpu.pc.wrapping_add(1));
            let (after, left) = cpu.run_spec::<M>(instr, mem);
            let target = if branch_taken(cpu, kind) {
                wrap16(cpu.pc + 2 + signed(operand))
            } else {
                wrap16(cpu.pc + 2)
            };
            &&& left == fetched
            &&& after == (Cpu {
                pc: target,
                cycles: cpu.cycles.wrapping_add(cycles as usize),
                ..cpu
            })
        }),
{
    let (fetched, operand) = M::read_spec(mem, cpu.pc.wrapping_add(1));
    let at_operand = cpu.advance();
    assert(cpu.effective_address::<M>(AddressingMode::Relative, mem) == (
        at_operand,
        fetched,
        operand as u16,
    ));
    lemma_branch_target(cpu.pc, operand, true);
    lemma_branch_target(cpu.pc, operand, false);
    let taken = branch_taken(cpu, kind);
    assert(at_operand.execute_spec::<M>(kind, operand as u16, fetched) == (
        at_operand.branched(taken, operand as u16),
        fetched,
    ));
}

proof fn lemma_branch_target(pc: u16, operand: u8, taken: bool)
    ensures
        (Cpu { pc: pc.wrapping_add(1), ..Cpu::new_spec() }).branched(taken, operand as u16).pc
            == if taken {
            wrap16(pc + 2 + signed(operand))
        } else {
            wrap16(pc + 2)
        },
{
    let at_operand = pc.wrapping_add(1);
    assert((operand as u16) % 256 == operand);
    if taken {
        let total = at_operand + 1 + signed(operand);
        assert(total == pc + 2 + signed(operand) || total == pc + 2 + signed(operand) - 0x10000);
        assert(wrap16(total) == wrap16(pc + 2 + signed(operand)));
    }
}

/// An undocumented operation steps the program counter once, though each of
/// the two operations that it is made of steps it.
pub proof fn law_fused_operation_steps_once<M: MemoryMapped>(
    cpu: Cpu,
    mem: M::V,
    kind: InstructionKind,
    addr: u16,
)
    requires
        kind is Slo || kind is Sre || kind is Rla || kind is Rra || kind is Isc || kind is Dcp,
    ensures
        cpu.execute_spec::<M>(kind, addr, mem).0.pc == cpu.pc.wrapping_add(1),
{
}

/// The undocumented shift-and-OR on byte storage: the cell is shifted one
/// place to the left, its old bit 7 goes to carry, and the shifted byte is
/// ORed into the accumulator.
pub proof fn law_slo_on_storage(cpu: Cpu, mem: Seq<u8>, addr: u16)
    requires
        mem.len() == RAM_SIZE,
    ensures
        ({
            let (after, left) = cpu.execute_spec::<Ram>(InstructionKind::Slo, addr, mem);
            let shifted = ((mem[addr as int] * 2) % 256) as u8;
            &&& left == mem.update(addr as int, shifted)
            &&& after.a == cpu.a | shifted
            &&& after.carry_flag == (mem[addr as int] >= 0x80)
            &&& after.zero_flag == (after.a == 0)
            &&& after.negative_flag == (after.a >= 0x80)
        }),
{
}

// ----------------------------------------------------------------------
// Mirroring
// ----------------------------------------------------------------------

/// Two raw addresses that lead to the same device and, after masking, to
/// the same address of it are one: an access through either does the same
/// to the bus and gives the same byte.
pub proof fn law_mirrors_alias<D: MemoryMapped>(bus: AscView<D::V>, x: u16, y: u16, value: u8)
    requires
        bus.is_mapped(x),
        bus.is_mapped(y),
        bus.mappings[x].device == bus.mappings[y].device,
        bus.device_addr(x) == bus.device_addr(y),
    ensures
        Asc::<D>::write_spec(bus, x, value) == Asc::<D>::write_spec(bus, y, value),
        Asc::<D>::read_spec(bus, x) == Asc::<D>::read_spec(bus, y),
{
}

/// An access at a raw address `x` that is mapped with the mirror mask `m`
/// is the same as an access at `x & m`, where that address is mapped to the
/// same device with the same mask.
pub proof fn law_mirror_mask<D: MemoryMapped>(bus: AscView<D::V>, x: u16, value: u8)
    requires
        bus.is_mapped(x),
        bus.is_mapped(bus.device_addr(x)),
        bus.mappings[bus.device_addr(x)] == bus.mappings[x],
    ensures
        Asc::<D>::write_spec(bus, x, value) == Asc::<D>::write_spec(
            bus,
            bus.device_addr(x),
            value,
        ),
        Asc::<D>::read_spec(bus, x) == Asc::<D>::read_spec(bus, bus.device_addr(x)),
{
    let m = bus.mappings[x].mirror_mask;
    assert((x & m) & m == x & m) by (bit_vector);
    law_mirrors_alias::<D>(bus, x, bus.device_addr(x), value);
}

/// What a mapped access does to the bus: the device of the entry is
/// accessed at the raw address ANDed with the mask, and no other device and
/// no entry changes.
pub proof fn law_access_reaches_one_device<D: MemoryMapped>(
    bus: AscView<D::V>,
    x: u16,
    value: u8,
)
    requires
        bus.wf(),
        bus.is_mapped(x),
    ensures
        ({
            let handle = bus.mappings[x].device as int;
            let masked = x & bus.mappings[x].mirror_mask;
            let written = Asc::<D>::write_spec(bus, x, value);
            let (read, byte) = Asc::<D>::read_spec(bus, x);
            &&& written.mappings == bus.mappings
            &&& written.misses == bus.misses
            &&& read.mappings == bus.mappings
            &&& read.misses == bus.misses
            &&& written.devices.len() == bus.devices.len()
            &&& written.devices[handle] == D::write_spec(bus.devices[handle], masked, value)
            &&& forall|other: int|
                0 <= other < bus.devices.len() && other != handle
                    ==> #[trigger] written.devices[other] == bus.devices[other]
            &&& (read.devices[handle], byte) == D::read_spec(bus.devices[handle], masked)
            &&& forall|other: int|
                0 <= other < bus.devices.len() && other != handle ==> #[trigger] read.devices[other]
                    == bus.devices[other]
        }),
{
}

/// An access at an address that no device answers changes no device and no
/// entry: a read gives zero, a write is dropped, and the bus records the
/// miss behind those it holds.
pub proof fn law_miss_is_recorded<D: MemoryMapped>(bus: AscView<D::V>, addr: u16, value: u8)
    requires
        !bus.is_mapped(addr),
    ensures
        Asc::<D>::read_spec(bus, addr) == (
            AscView { misses: bus.misses.push(BusMiss::Read { addr }), ..bus },
            0u8,
        ),
        Asc::<D>::write_spec(bus, addr, value) == (AscView {
            misses: bus.misses.push(BusMiss::Write { addr, value }),
            ..bus
        }),
{
}

// ----------------------------------------------------------------------
// The PPU register file
// ----------------------------------------------------------------------

/// After a read of the status port, two writes to the address latch set the
/// high and then the low byte of the VRAM address, and leave the toggle
/// clear for the next pair.
pub proof fn law_latch_takes_high_then_low(ppu: PpuView, high: u8, low: u8)
    ensures
        ({
            let (ready, status) = Ppu::read_spec(ppu, PORT_STATUS);
            let first = Ppu::write_spec(ready, PORT_ADDR, high);
            let second = Ppu::write_spec(first, PORT_ADDR, low);
            &&& !ready.first_byte
            &&& first.first_byte
            &&& first.addr == high * 256
            &&& !second.first_byte
            &&& second.addr == high * 256 + low
        }),
{
    let shifted = (high * 256) as u16;
    assert(shifted | (low as u16) == high * 256 + low) by (bit_vector)
        requires
            shifted == high * 256,
    ;
}

/// A read of the status port gives the status register and clears its bit
/// 7, so that a second read gives the same byte without that bit; the
/// vblank state itself stays.
pub proof fn law_status_read_clears_bit_7(ppu: PpuView)
    ensures
        ({
            let (once, first) = Ppu::read_spec(ppu, PORT_STATUS);
            let (twice, second) = Ppu::read_spec(once, PORT_STATUS);
            &&& first == ppu.status
            &&& second == ppu.status % 128
            &&& once.vblank == ppu.vblank
            &&& twice == once
        }),
{
}

/// A write to the control register touches neither the VRAM address nor the
/// toggle of its latch, nor the status, the vblank state or the PPU's
/// memory.
pub proof fn law_control_write_keeps_addressing(ppu: PpuView, value: u8)
    ensures
        ({
            let after = Ppu::write_spec(ppu, PORT_CONTROL, value);
            &&& after.addr == ppu.addr
            &&& after.first_byte == ppu.first_byte
            &&& after.status == ppu.status
            &&& after.vblank == ppu.vblank
            &&& after.memory == ppu.memory
            &&& 0x2000 <= after.nametable_base <= 0x2c00
        }),
{
}

/// The non-maskable interrupt is due exactly while the PPU is in vblank and
/// bit 7 of the last byte written to the control register is set.
pub proof fn law_nmi_needs_vblank_and_enable(ppu: PpuView, value: u8)
    ensures
        ({
            let after = Ppu::write_spec(ppu, PORT_CONTROL, value);
            &&& after.should_nmi() == (ppu.vblank && value >= 0x80)
            &&& after.vblank_set().should_nmi() == (value >= 0x80)
            &&& !after.vblank_reset().should_nmi()
        }),
{
}

/// A byte written through the data port goes to the VRAM address, which
/// then moves on by the step that the control register selects.
pub proof fn law_data_port_steps(ppu: PpuView, value: u8)
    ensures
        ({
            let after = Ppu::write_spec(ppu, PORT_DATA, value);
            let (read, byte) = Ppu::read_spec(ppu, PORT_DATA);
            &&& after.memory == Asc::<Ram>::write_spec(ppu.memory, ppu.addr, value)
            &&& after.addr == ppu.addr.wrapping_add(ppu.vram_increment.step())
            &&& byte == Ppu::vram_byte(ppu.memory, ppu.addr)
            &&& read.addr == ppu.addr.wrapping_add(ppu.vram_increment.step())
        }),
{
}

/// A byte written to the PPU's memory of a new register file is found there
/// again, at every address below `0x4000`.
pub proof fn law_vram_reads_back(pattern_tables: Seq<u8>, addr: u16, value: u8)
    requires
        pattern_tables.len() == RAM_SIZE,
        addr < 0x4000,
    ensures
        ({
            let memory = Ppu::new_spec(pattern_tables).memory;
            Ppu::vram_byte(Asc::<Ram>::write_spec(memory, addr, value), addr) == value
        }),
{
    let memory = Ppu::new_spec(pattern_tables).memory;
    assert(memory.is_mapped(addr));
}

} // verus!
