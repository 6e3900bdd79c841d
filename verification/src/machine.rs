//! The console: the devices on the main bus, the layout of that bus, and the
//! cadence in which CPU and PPU advance through a frame.

use crate::asc::{Asc, AscView, BusMiss, Mapping, MemoryMapped};
use crate::cpu::{Cpu, UnimplementedOpcode};
use crate::ines::INes;
use crate::ppu::{Ppu, PpuView};
use crate::ram::{blank, loaded, Ram, RAM_SIZE};
use vstd::prelude::*;

verus! {

/// The number of scanlines of a frame.
pub const SCANLINES_PER_FRAME: u32 = 262;

/// The number of PPU ticks of a scanline.
pub const PPU_CYCLES_PER_SCANLINE: u32 = 341;

/// The scanline at whose end vblank begins.
pub const VBLANK_SCANLINE: u32 = 241;

/// The CPU cycles that fit in a scanline: a third of its PPU ticks.
pub const CPU_CYCLES_PER_SCANLINE: usize = 113;

/// The handle of the byte storage on the main bus.
pub const MEMORY: usize = 0;

/// The handle of the PPU register file on the main bus.
pub const PPU: usize = 1;

/// A device of the main bus.
#[derive(Debug)]
pub enum Device {
    Ram(Ram),
    Ppu(Ppu),
}

/// The model of a device of the main bus.
pub enum DeviceView {
    Ram(Seq<u8>),
    Ppu(PpuView),
}

impl View for Device {
    type V = DeviceView;

    /// The model of the storage or of the PPU.
    open spec fn view(&self) -> DeviceView {
        match self {
            Device::Ram(ram) => DeviceView::Ram(ram@),
            Device::Ppu(ppu) => DeviceView::Ppu(ppu@),
        }
    }
}

impl MemoryMapped for Device {
    /// A device is well formed as its kind is.
    open spec fn inv(&self) -> bool {
        match self {
            Device::Ram(ram) => ram.inv(),
            Device::Ppu(ppu) => ppu.inv(),
        }
    }

    /// A write to a device is the write of its kind.
    open spec fn write_spec(state: DeviceView, addr: u16, value: u8) -> DeviceView {
        match state {
            DeviceView::Ram(ram) => DeviceView::Ram(Ram::write_spec(ram, addr, value)),
            DeviceView::Ppu(ppu) => DeviceView::Ppu(Ppu::write_spec(ppu, addr, value)),
        }
    }

    /// A read of a device is the read of its kind.
    open spec fn read_spec(state: DeviceView, addr: u16) -> (DeviceView, u8) {
        match state {
            DeviceView::Ram(ram) => {
                let (ram, value) = Ram::read_spec(ram, addr);
                (DeviceView::Ram(ram), value)
            },
            DeviceView::Ppu(ppu) => {
                let (ppu, value) = Ppu::read_spec(ppu, addr);
                (DeviceView::Ppu(ppu), value)
            },
        }
    }

    fn write(&mut self, addr: u16, value: u8) {
        match self {
            Device::Ram(ram) => ram.write(addr, value),
            Device::Ppu(ppu) => ppu.write(addr, value),
        }
    }

    fn read(&mut self, addr: u16) -> (value: u8) {
        match self {
            Device::Ram(ram) => ram.read(addr),
            Device::Ppu(ppu) => ppu.read(addr),
        }
    }
}

/// The entries of the main bus: the storage from `0x0000` to `0x07FF` and
/// from `0x4020` to `0xFFFF` under its own addresses, the eight ports of the
/// PPU from `0x2000` to `0x2007`, and the PPU's DMA port at `0x4014`.
pub open spec fn board_mappings() -> Map<u16, Mapping> {
    Map::new(
        |addr: u16| addr <= 0x07ff || 0x2000 <= addr <= 0x2007 || addr == 0x4014 || addr >= 0x4020,
        |addr: u16|
            if 0x2000 <= addr <= 0x2007 {
                Mapping { device: PPU, mirror_mask: 0x0007 }
            } else if addr == 0x4014 {
                Mapping { device: PPU, mirror_mask: 0xffff }
            } else {
                Mapping { device: MEMORY, mirror_mask: 0xffff }
            },
    )
}

/// Whether a bus is laid out as the main bus of the console is: the storage
/// with its 65536 cells and the PPU, under the entries of `board_mappings`.
pub open spec fn is_board(bus: AscView<DeviceView>) -> bool {
    &&& bus.devices.len() == 2
    &&& bus.devices[MEMORY as int] matches DeviceView::Ram(storage) && storage.len() == RAM_SIZE
    &&& bus.devices[PPU as int] is Ppu
    &&& bus.mappings == board_mappings()
}

/// The main bus over the given storage and a new PPU over the given pattern
/// tables, with no miss recorded.
pub open spec fn new_board(memory: Seq<u8>, pattern_tables: Seq<u8>) -> AscView<DeviceView> {
    AscView {
        devices: seq![DeviceView::Ram(memory), DeviceView::Ppu(Ppu::new_spec(pattern_tables))],
        mappings: board_mappings(),
        misses: Seq::<BusMiss>::empty(),
    }
}

/// The model of the PPU on a main bus.
pub open spec fn ppu_of(bus: AscView<DeviceView>) -> PpuView {
    bus.devices[PPU as int]->Ppu_0
}

/// The bus with the model of its PPU replaced.
pub open spec fn with_ppu(bus: AscView<DeviceView>, ppu: PpuView) -> AscView<DeviceView> {
    AscView { devices: bus.devices.update(PPU as int, DeviceView::Ppu(ppu)), ..bus }
}

/// The main bus of the console with its two devices.
#[derive(Debug)]
pub struct Board {
    asc: Asc<Device>,
}

impl View for Board {
    type V = AscView<DeviceView>;

    closed spec fn view(&self) -> AscView<DeviceView> {
        self.asc@
    }
}

impl MemoryMapped for Board {
    /// The bus is well formed and laid out as the main bus is.
    closed spec fn inv(&self) -> bool {
        self.asc.inv() && is_board(self.asc@)
    }

    /// A write to the board is a write to its bus.
    open spec fn write_spec(state: AscView<DeviceView>, addr: u16, value: u8) -> AscView<
        DeviceView,
    > {
        Asc::<Device>::write_spec(state, addr, value)
    }

    /// A read of the board is a read of its bus.
    open spec fn read_spec(state: AscView<DeviceView>, addr: u16) -> (AscView<DeviceView>, u8) {
        Asc::<Device>::read_spec(state, addr)
    }

    fn write(&mut self, addr: u16, value: u8) {
        self.asc.write(addr, value);
    }

    fn read(&mut self, addr: u16) -> (value: u8) {
        self.asc.read(addr)
    }
}

impl Board {
    /// The layout of a well-formed board.
    pub proof fn lemma_is_board(&self)
        requires
            self.inv(),
        ensures
            is_board(self@),
            self@.wf(),
    {
        self.asc.lemma_view_wf();
    }

    /// The main bus over the given storage, with a PPU over the given
    /// pattern tables.
    pub fn new(memory: Ram, ppu_memory: Ram) -> (board: Board)
        ensures
            board.inv(),
            board@ == new_board(memory@, ppu_memory@),
    {
        proof {
            memory.lemma_len();
        }
        let mut asc: Asc<Device> = Asc::new();
        let memory_handle = asc.add_device(Device::Ram(memory));
        let ppu_handle = asc.add_device(Device::Ppu(Ppu::new(ppu_memory)));
        asc.register_device_range(0x0000, 0x07ff, memory_handle, 0xffff);
        asc.register_device_range(0x2000, 0x2007, ppu_handle, 0x0007);
        asc.register_device(0x4014, ppu_handle, 0xffff);
        asc.register_device_range(0x4020, 0xffff, memory_handle, 0xffff);
        assert(asc@.mappings =~= board_mappings());
        assert(asc@.devices =~= new_board(memory@, ppu_memory@).devices);
        Board { asc }
    }

    /// Hands out the misses that the main bus has recorded, the oldest
    /// first, and forgets them.
    pub fn take_misses(&mut self) -> (misses: Vec<BusMiss>)
        requires
            old(self).inv(),
        ensures
            final(self).inv(),
            misses@ == old(self)@.misses,
            final(self)@ == (AscView { misses: Seq::<BusMiss>::empty(), ..old(self)@ }),
    {
        self.asc.take_misses()
    }

    /// The PPU of the board.
    pub fn ppu(&self) -> (ppu: &Ppu)
        requires
            self.inv(),
        ensures
            ppu.inv(),
            ppu@ == ppu_of(self@),
    {
        match self.asc.device(PPU) {
            Device::Ppu(ppu) => ppu,
            Device::Ram(_) => vstd::pervasive::unreached(),
        }
    }

    /// The PPU of the board, to be worked on in place. The board is well
    /// formed again once the PPU is.
    pub fn ppu_mut(&mut self) -> (ppu: &mut Ppu)
        requires
            old(self).inv(),
        ensures
            ppu.inv(),
            ppu@ == ppu_of(old(self)@),
            final(self)@ == with_ppu(old(self)@, final(ppu)@),
            final(ppu).inv() ==> final(self).inv(),
    {
        match self.asc.device_mut(PPU) {
            Device::Ppu(ppu) => ppu,
            Device::Ram(_) => vstd::pervasive::unreached(),
        }
    }

    /// Ends vblank on the PPU of the board.
    pub fn reset_vblank(&mut self)
        requires
            old(self).inv(),
        ensures
            final(self).inv(),
            final(self)@ == with_ppu(old(self)@, ppu_of(old(self)@).vblank_reset()),
    {
        match self.asc.device_mut(PPU) {
            Device::Ppu(ppu) => ppu.reset_vblank(),
            Device::Ram(_) => {},
        }
    }

    /// Begins vblank on the PPU of the board.
    pub fn set_vblank(&mut self)
        requires
            old(self).inv(),
        ensures
            final(self).inv(),
            final(self)@ == with_ppu(old(self)@, ppu_of(old(self)@).vblank_set()),
    {
        match self.asc.device_mut(PPU) {
            Device::Ppu(ppu) => ppu.set_vblank(),
            Device::Ram(_) => {},
        }
    }

    /// Whether the PPU of the board asks for the non-maskable interrupt.
    pub fn should_nmi(&self) -> (due: bool)
        requires
            self.inv(),
        ensures
            due == ppu_of(self@).should_nmi(),
    {
        self.ppu().should_nmi()
    }
}

/// How far two readings of the cycle counter lie apart.
pub open spec fn cycle_distance(a: usize, b: usize) -> int {
    if a >= b {
        a - b
    } else {
        b - a
    }
}

/// The ticks of a scanline from the tick `tick` on. The CPU runs one
/// instruction on every third tick, the first included. The scanline's
/// ticks end early once the cycle counter lies more than a scanline's worth
/// of CPU cycles from `start`, its reading when the scanline began, and at
/// once when the CPU meets an opcode that the catalog lacks.
pub open spec fn ticks_spec(cpu: Cpu, bus: AscView<DeviceView>, start: usize, tick: nat) -> (
    Cpu,
    AscView<DeviceView>,
    Result<(), UnimplementedOpcode>,
)
    decreases PPU_CYCLES_PER_SCANLINE - tick,
{
    if tick >= PPU_CYCLES_PER_SCANLINE {
        (cpu, bus, Ok(()))
    } else {
        let (cpu, bus, res) = if tick % 3 == 0 {
            cpu.step_spec::<Board>(bus)
        } else {
            (cpu, bus, Ok(()))
        };
        if res is Err || cycle_distance(start, cpu.cycles) > CPU_CYCLES_PER_SCANLINE {
            (cpu, bus, res)
        } else {
            ticks_spec(cpu, bus, start, tick + 1)
        }
    }
}

/// What happens at the end of the scanline `scanline`: vblank ends after
/// scanline 0 and begins after scanline 241, and after scanline 241 the CPU
/// enters its non-maskable interrupt where the PPU asks for it.
pub open spec fn scanline_events(cpu: Cpu, bus: AscView<DeviceView>, scanline: nat) -> (
    Cpu,
    AscView<DeviceView>,
) {
    let bus = if scanline == 0 {
        with_ppu(bus, ppu_of(bus).vblank_reset())
    } else {
        bus
    };
    let bus = if scanline == VBLANK_SCANLINE {
        with_ppu(bus, ppu_of(bus).vblank_set())
    } else {
        bus
    };
    if scanline == VBLANK_SCANLINE && ppu_of(bus).should_nmi() {
        cpu.nmi_spec::<Board>(bus)
    } else {
        (cpu, bus)
    }
}

/// One scanline: its ticks, then the events at its end. A scanline on which
/// the CPU meets an opcode that the catalog lacks ends there, without the
/// events.
pub open spec fn scanline_spec(cpu: Cpu, bus: AscView<DeviceView>, scanline: nat) -> (
    Cpu,
    AscView<DeviceView>,
    Result<(), UnimplementedOpcode>,
) {
    let (cpu, bus, res) = ticks_spec(cpu, bus, cpu.cycles, 0);
    if res is Err {
        (cpu, bus, res)
    } else {
        let (cpu, bus) = scanline_events(cpu, bus, scanline);
        (cpu, bus, Ok(()))
    }
}

/// The scanlines of a frame from `scanline` on, up to the first on which
/// the CPU meets an opcode that the catalog lacks.
pub open spec fn frame_spec(cpu: Cpu, bus: AscView<DeviceView>, scanline: nat) -> (
    Cpu,
    AscView<DeviceView>,
    Result<(), UnimplementedOpcode>,
)
    decreases SCANLINES_PER_FRAME - scanline,
{
    if scanline >= SCANLINES_PER_FRAME {
        (cpu, bus, Ok(()))
    } else {
        let (cpu, bus, res) = scanline_spec(cpu, bus, scanline);
        if res is Err {
            (cpu, bus, res)
        } else {
            frame_spec(cpu, bus, scanline + 1)
        }
    }
}

/// Whether the data of a cartridge fit the console: there is program data,
/// and neither it nor the character data is larger than an address space.
pub open spec fn cartridge_fits(program: Seq<u8>, chr_rom: Option<Seq<u8>>) -> bool {
    &&& 0 < program.len() <= RAM_SIZE
    &&& chr_rom matches Some(chr) ==> chr.len() <= RAM_SIZE
}

/// The storage of the main bus with a cartridge in: the program data fills
/// the top of the address space, so that it ends with the last cell.
pub open spec fn program_storage(program: Seq<u8>) -> Seq<u8> {
    loaded(blank(), program, (RAM_SIZE - program.len()) as u16)
}

/// The pattern tables with a cartridge in: the character data, where the
/// cartridge has any, from address zero on.
pub open spec fn character_storage(chr_rom: Option<Seq<u8>>) -> Seq<u8> {
    match chr_rom {
        Some(chr) => loaded(blank(), chr, 0),
        None => blank(),
    }
}

/// The console: the CPU and the main bus with storage and PPU.
#[derive(Debug)]
pub struct Machine {
    pub cpu: Cpu,
    pub board: Board,
}

impl Machine {
    /// A console over the given storage, with a PPU over the given pattern
    /// tables, and the CPU as it is when power comes on.
    pub fn new(memory: Ram, ppu_memory: Ram) -> (machine: Machine)
        ensures
            machine.board.inv(),
            machine.cpu == Cpu::new_spec(),
            machine.board@ == new_board(memory@, ppu_memory@),
    {
        Machine { cpu: Cpu::new(), board: Board::new(memory, ppu_memory) }
    }

    /// A console with the cartridge `rom` in: its program data at the top of
    /// the storage of the main bus, its character data at the bottom of the
    /// pattern tables. A cartridge whose data do not fit is refused.
    pub fn with_cartridge(rom: INes) -> (res: Option<Machine>)
        ensures
            match res {
                Some(machine) => {
                    &&& cartridge_fits(rom.program@, Self::chr_view(rom.chr_rom))
                    &&& machine.board.inv()
                    &&& machine.cpu == Cpu::new_spec()
                    &&& machine.board@ == new_board(
                        program_storage(rom.program@),
                        character_storage(Self::chr_view(rom.chr_rom)),
                    )
                },
                None => !cartridge_fits(rom.program@, Self::chr_view(rom.chr_rom)),
            },
    {
        let INes { program, chr_rom } = rom;
        let size = program.len();
        if size == 0 || size > RAM_SIZE {
            return None;
        }
        let mut memory = Ram::new();
        memory.load_vec_at(program, (RAM_SIZE - size) as u16);
        let mut ppu_memory = Ram::new();
        match chr_rom {
            Some(chr) => {
                if chr.len() > RAM_SIZE {
                    return None;
                }
                ppu_memory.load_vec_at(chr, 0);
            },
            None => {},
        }
        Some(Machine::new(memory, ppu_memory))
    }

    /// The character data of a cartridge as a sequence of bytes.
    pub open spec fn chr_view(chr_rom: Option<Vec<u8>>) -> Option<Seq<u8>> {
        match chr_rom {
            Some(chr) => Some(chr@),
            None => None,
        }
    }

    /// Brings the console up: resets the CPU, which takes its program
    /// counter from the reset vector.
    pub fn power_on(&mut self)
        requires
            old(self).board.inv(),
        ensures
            final(self).board.inv(),
            (final(self).cpu, final(self).board@) == old(self).cpu.reset_spec::<Board>(
                old(self).board@,
            ),
    {
        self.cpu.reset(&mut self.board);
    }

    fn cycles_since(&self, start: usize) -> (distance: usize)
        ensures
            distance == cycle_distance(start, self.cpu.cycles),
    {
        if start >= self.cpu.cycles {
            start - self.cpu.cycles
        } else {
            self.cpu.cycles - start
        }
    }

    /// Runs the ticks of one scanline.
    pub fn run_ticks(&mut self) -> (res: Result<(), UnimplementedOpcode>)
        requires
            old(self).board.inv(),
        ensures
            final(self).board.inv(),
            (final(self).cpu, final(self).board@, res) == ticks_spec(
                old(self).cpu,
                old(self).board@,
                old(self).cpu.cycles,
                0,
            ),
    {
        let start = self.cpu.cycles;
        let mut tick: u32 = 0;
        while tick < PPU_CYCLES_PER_SCANLINE
            invariant
                self.board.inv(),
                tick <= PPU_CYCLES_PER_SCANLINE,
                start == old(self).cpu.cycles,
                ticks_spec(self.cpu, self.board@, start, tick as nat) == ticks_spec(
                    old(self).cpu,
                    old(self).board@,
                    start,
                    0,
                ),
            decreases PPU_CYCLES_PER_SCANLINE - tick,
        {
            if tick % 3 == 0 {
                match self.cpu.read_instruction(&mut self.board) {
                    Ok(()) => {},
                    Err(e) => {
                        return Err(e);
                    },
                }
            }
            if self.cycles_since(start) > CPU_CYCLES_PER_SCANLINE {
                return Ok(());
            }
            tick += 1;
        }
        Ok(())
    }

    /// Runs the scanline `scanline` of a frame: its ticks, then the events
    /// at its end.
    pub fn run_scanline(&mut self, scanline: u32) -> (res: Result<(), UnimplementedOpcode>)
        requires
            old(self).board.inv(),
        ensures
            final(self).board.inv(),
            (final(self).cpu, final(self).board@, res) == scanline_spec(
                old(self).cpu,
                old(self).board@,
                scanline as nat,
            ),
    {
        match self.run_ticks() {
            Ok(()) => {},
            Err(e) => {
                return Err(e);
            },
        }
        if scanline == 0 {
            self.board.reset_vblank();
        }
        if scanline == VBLANK_SCANLINE {
            self.board.set_vblank();
        }
        if scanline == VBLANK_SCANLINE && self.board.should_nmi() {
            self.cpu.nmi(&mut self.board);
        }
        Ok(())
    }

    /// Runs one frame: its 262 scanlines in turn. The frame ends early, with
    /// the opcode, where the CPU meets one that the catalog lacks.
    pub fn run_frame(&mut self) -> (res: Result<(), UnimplementedOpcode>)
        requires
            old(self).board.inv(),
        ensures
            final(self).board.inv(),
            (final(self).cpu, final(self).board@, res) == frame_spec(
                old(self).cpu,
                old(self).board@,
                0,
            ),
    {
        let mut scanline: u32 = 0;
        while scanline < SCANLINES_PER_FRAME
            invariant
                self.board.inv(),
                scanline <= SCANLINES_PER_FRAME,
                frame_spec(self.cpu, self.board@, scanline as nat) == frame_spec(
                    old(self).cpu,
                    old(self).board@,
                    0,
                ),
            decreases SCANLINES_PER_FRAME - scanline,
        {
            match self.run_scanline(scanline) {
                Ok(()) => {},
                Err(e) => {
                    return Err(e);
                },
            }
            scanline += 1;
        }
        Ok(())
    }
}

} // verus!
