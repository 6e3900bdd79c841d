//! The register file of the picture processing unit, as the CPU sees it:
//! eight ports and a DMA port, the fields derived from the control register,
//! the two-write VRAM address latch, and the vblank state that gates the
//! non-maskable interrupt.

use crate::asc::{Asc, AscView, BusMiss, Mapping, MemoryMapped};
use crate::ram::{blank, Ram, RAM_SIZE};
use vstd::prelude::*;

verus! {

/// The port of the control register.
pub const PORT_CONTROL: u16 = 0x0;

/// The port of the mask register.
pub const PORT_MASK: u16 = 0x1;

/// The port of the status register.
pub const PORT_STATUS: u16 = 0x2;

/// The port of the sprite memory address.
pub const PORT_OAM_ADDR: u16 = 0x3;

/// The port of the sprite memory data.
pub const PORT_OAM_DATA: u16 = 0x4;

/// The port of the scroll register.
pub const PORT_SCROLL: u16 = 0x5;

/// The port of the VRAM address latch.
pub const PORT_ADDR: u16 = 0x6;

/// The port through which VRAM is read and written.
pub const PORT_DATA: u16 = 0x7;

/// The port that triggers a sprite DMA.
pub const PORT_OAM_DMA: u16 = 0x4014;

const NAMETABLE_MASK: u8 = 0b11;

const VRAM_MASK: u8 = 0x04;

const SPRITE_MASK: u8 = 0x08;

const BACKGROUND_MASK: u8 = 0x10;

const SPRITE_SIZE_MASK: u8 = 0x20;

const MASTER_SLAVE_MASK: u8 = 0x40;

const NMI_MASK: u8 = 0x80;

const VBLANK_MASK: u8 = 0x80;

/// The handle of the pattern-table storage in the PPU's own bus.
pub const PATTERN_TABLES: usize = 0;

/// The handle of the nametable storage in the PPU's own bus.
pub const NAMETABLES: usize = 1;

/// The handle of the palette storage in the PPU's own bus.
pub const PALETTES: usize = 2;

/// How far the VRAM address moves after an access through the data port.
#[derive(Clone, Copy, Debug, PartialEq, Eq)]
pub enum VramIncrement {
    /// By 32: one row down.
    Down,
    /// By 1: one cell across.
    Across,
}

/// The size of sprites.
#[derive(Clone, Copy, Debug, PartialEq, Eq)]
pub enum SpriteSize {
    Size8x8,
    Size8x16,
}

/// What the PPU does with its external pins.
#[derive(Clone, Copy, Debug, PartialEq, Eq)]
pub enum JobType {
    Read,
    Output,
}

impl VramIncrement {
    /// The step in addresses.
    pub open spec fn step(self) -> u16 {
        match self {
            VramIncrement::Across => 1,
            VramIncrement::Down => 32,
        }
    }
}

/// The model of the register file.
pub struct PpuView {
    pub control: u8,
    pub mask: u8,
    pub status: u8,
    pub oam_addr: u8,
    pub oam_data: u8,
    pub scroll: u8,
    /// The latched VRAM address.
    pub addr: u16,
    pub oam_dma: u8,
    pub nametable_base: u16,
    pub vram_increment: VramIncrement,
    pub sprite_table_addr: u16,
    pub background_table_addr: u16,
    pub sprite_size: SpriteSize,
    pub job: JobType,
    /// Whether the control register enables the non-maskable interrupt.
    pub nmi: bool,
    pub vblank: bool,
    /// The write toggle of the address latch: set when the next write to the
    /// latch is the second of a pair.
    pub first_byte: bool,
    /// The PPU's own address space.
    pub memory: AscView<Seq<u8>>,
}

/// The entries of the PPU's own bus: pattern tables below `0x2000`,
/// nametables up to `0x3EFF` mirrored every `0x1000`, palettes up to
/// `0x3FFF` mirrored every 32 bytes, with the first entry of each sprite
/// palette mirrored onto the background palettes.
pub open spec fn ppu_mappings() -> Map<u16, Mapping> {
    Map::new(
        |addr: u16| addr <= 0x3fff,
        |addr: u16|
            if addr <= 0x1fff {
                Mapping { device: PATTERN_TABLES, mirror_mask: 0xffff }
            } else if addr <= 0x3eff {
                Mapping { device: NAMETABLES, mirror_mask: 0xfff }
            } else if addr == 0x3f10 || addr == 0x3f14 || addr == 0x3f18 || addr == 0x3f1c {
                Mapping { device: PALETTES, mirror_mask: 0xf }
            } else {
                Mapping { device: PALETTES, mirror_mask: 0x1f }
            },
    )
}

/// Whether a bus is laid out as the PPU's own address space is: three byte
/// storages under the entries of `ppu_mappings`.
pub open spec fn is_vram(memory: AscView<Seq<u8>>) -> bool {
    &&& memory.mappings == ppu_mappings()
    &&& memory.devices.len() == 3
    &&& memory.devices[PATTERN_TABLES as int].len() == RAM_SIZE
    &&& memory.devices[NAMETABLES as int].len() == RAM_SIZE
    &&& memory.devices[PALETTES as int].len() == RAM_SIZE
}

impl PpuView {
    /// The model after a write to the control register: the register takes
    /// the value, and the derived fields are computed from it. The nametable
    /// base is `0x2000` plus `0x400` times bits 0 and 1; bit 2 selects a
    /// VRAM step of 32 over 1; bits 3 and 4 put the sprite and the
    /// background pattern table at `0x1000`; bit 5 selects tall sprites; bit
    /// 6 the output job; bit 7 enables the non-maskable interrupt.
    pub open spec fn with_control(self, value: u8) -> PpuView {
        PpuView {
            control: value,
            nametable_base: (0x2000 + 0x400 * (value % 4)) as u16,
            vram_increment: if (value / 4) % 2 == 1 {
                VramIncrement::Down
            } else {
                VramIncrement::Across
            },
            sprite_table_addr: if (value / 8) % 2 == 1 {
                0x1000
            } else {
                0
            },
            background_table_addr: if (value / 16) % 2 == 1 {
                0x1000
            } else {
                0
            },
            sprite_size: if (value / 32) % 2 == 1 {
                SpriteSize::Size8x16
            } else {
                SpriteSize::Size8x8
            },
            job: if (value / 64) % 2 == 1 {
                JobType::Output
            } else {
                JobType::Read
            },
            nmi: value >= 0x80,
            ..self
        }
    }

    /// The model after a write to the address latch. The first write of a
    /// pair sets the high byte of the address and clears the low byte; the
    /// second ORs `value` into the address, which after a first write sets
    /// the low byte. Each write flips the toggle.
    pub open spec fn with_latched(self, value: u8) -> PpuView {
        PpuView {
            addr: if !self.first_byte {
                (value * 256) as u16
            } else {
                self.addr | value as u16
            },
            first_byte: !self.first_byte,
            ..self
        }
    }

    /// The VRAM address after an access through the data port, wrapping at
    /// 16 bits.
    pub open spec fn next_addr(self) -> u16 {
        self.addr.wrapping_add(self.vram_increment.step())
    }

    /// The model after vblank has begun: the vblank state and bit 7 of the
    /// status register are set.
    pub open spec fn vblank_set(self) -> PpuView {
        PpuView { vblank: true, status: (self.status % 128 + 128) as u8, ..self }
    }

    /// The model after vblank has ended: the vblank state and bit 7 of the
    /// status register are clear.
    pub open spec fn vblank_reset(self) -> PpuView {
        PpuView { vblank: false, status: (self.status % 128) as u8, ..self }
    }

    /// Whether the non-maskable interrupt is due: the PPU is in vblank and
    /// the control register enables the interrupt.
    pub open spec fn should_nmi(self) -> bool {
        self.vblank && self.nmi
    }
}

/// The register file of the PPU, with the PPU's own address space behind the
/// data port.
#[derive(Debug)]
pub struct Ppu {
    control: u8,
    mask: u8,
    status: u8,
    oam_addr: u8,
    oam_data: u8,
    scroll: u8,
    addr: u16,
    oam_dma: u8,
    nametable_base: u16,
    vram_increment: VramIncrement,
    sprite_table_addr: u16,
    background_table_addr: u16,
    sprite_size: SpriteSize,
    job: JobType,
    nmi: bool,
    vblank: bool,
    memory: Asc<Ram>,
    first_byte: bool,
}

impl View for Ppu {
    type V = PpuView;

    closed spec fn view(&self) -> PpuView {
        PpuView {
            control: self.control,
            mask: self.mask,
            status: self.status,
            oam_addr: self.oam_addr,
            oam_data: self.oam_data,
            scroll: self.scroll,
            addr: self.addr,
            oam_dma: self.oam_dma,
            nametable_base: self.nametable_base,
            vram_increment: self.vram_increment,
            sprite_table_addr: self.sprite_table_addr,
            background_table_addr: self.background_table_addr,
            sprite_size: self.sprite_size,
            job: self.job,
            nmi: self.nmi,
            vblank: self.vblank,
            first_byte: self.first_byte,
            memory: self.memory@,
        }
    }
}

impl Ppu {
    /// The model of a new register file over the given pattern tables.
    pub open spec fn new_spec(pattern_tables: Seq<u8>) -> PpuView {
        PpuView {
            control: 0,
            mask: 0,
            status: 0,
            oam_addr: 0,
            oam_data: 0,
            scroll: 0,
            addr: 0,
            oam_dma: 0,
            nametable_base: 0,
            vram_increment: VramIncrement::Down,
            sprite_table_addr: 0,
            background_table_addr: 0,
            sprite_size: SpriteSize::Size8x8,
            job: JobType::Read,
            nmi: false,
            vblank: false,
            first_byte: false,
            memory: AscView {
                devices: seq![pattern_tables, blank(), blank()],
                mappings: ppu_mappings(),
                misses: Seq::<BusMiss>::empty(),
            },
        }
    }

    /// A register file with every register zero, the toggle clear, and the
    /// PPU's own address space laid out over the given pattern tables and
    /// empty nametable and palette storage. Until the control register is
    /// first written the nametable base is zero and the VRAM step is 32.
    pub fn new(pattern_tables: Ram) -> (ppu: Ppu)
        ensures
            ppu.inv(),
            ppu@ == Self::new_spec(pattern_tables@),
    {
        proof {
            pattern_tables.lemma_len();
        }
        let mut memory: Asc<Ram> = Asc::new();
        let patterns = memory.add_device(pattern_tables);
        memory.register_device_range(0x0000, 0x1fff, patterns, 0xffff);
        let nametables = memory.add_device(Ram::new());
        memory.register_device_range(0x2000, 0x3eff, nametables, 0xfff);
        let palettes = memory.add_device(Ram::new());
        memory.register_device_range(0x3f00, 0x3fff, palettes, 0x1f);
        memory.register_device(0x3f10, palettes, 0xf);
        memory.register_device(0x3f14, palettes, 0xf);
        memory.register_device(0x3f18, palettes, 0xf);
        memory.register_device(0x3f1c, palettes, 0xf);
        assert(memory@.mappings =~= ppu_mappings());
        assert(memory@.devices =~= seq![pattern_tables@, blank(), blank()]);
        Ppu {
            control: 0,
            mask: 0,
            status: 0,
            oam_addr: 0,
            oam_data: 0,
            scroll: 0,
            addr: 0,
            oam_dma: 0,
            nametable_base: 0,
            vram_increment: VramIncrement::Down,
            sprite_table_addr: 0,
            background_table_addr: 0,
            sprite_size: SpriteSize::Size8x8,
            job: JobType::Read,
            nmi: false,
            vblank: false,
            memory,
            first_byte: false,
        }
    }

    /// Leaves vblank: clears the vblank state and bit 7 of the status
    /// register.
    pub fn reset_vblank(&mut self)
        requires
            old(self).inv(),
        ensures
            final(self).inv(),
            final(self)@ == old(self)@.vblank_reset(),
    {
        proof {
            let status = self.status;
            assert(status & !0x80u8 == status % 128) by (bit_vector);
        }
        self.vblank = false;
        self.status = self.status & !VBLANK_MASK;
    }

    /// Enters vblank: sets the vblank state and bit 7 of the status
    /// register.
    pub fn set_vblank(&mut self)
        requires
            old(self).inv(),
        ensures
            final(self).inv(),
            final(self)@ == old(self)@.vblank_set(),
    {
        proof {
            let status = self.status;
            assert(status | 0x80u8 == status % 128 + 128) by (bit_vector);
        }
        self.vblank = true;
        self.status = self.status | VBLANK_MASK;
    }

    /// The address of the nametable that the control register selects.
    pub fn nametable_base(&self) -> (base: u16)
        ensures
            base == self@.nametable_base,
    {
        self.nametable_base
    }

    /// How the VRAM address moves after an access through the data port.
    pub fn vram_increment(&self) -> (increment: VramIncrement)
        ensures
            increment == self@.vram_increment,
    {
        self.vram_increment
    }

    /// The address of the pattern table of the sprites.
    pub fn sprite_table_addr(&self) -> (addr: u16)
        ensures
            addr == self@.sprite_table_addr,
    {
        self.sprite_table_addr
    }

    /// The address of the pattern table of the background.
    pub fn background_table_addr(&self) -> (addr: u16)
        ensures
            addr == self@.background_table_addr,
    {
        self.background_table_addr
    }

    /// The size of sprites that the control register selects.
    pub fn sprite_size(&self) -> (size: SpriteSize)
        ensures
            size == self@.sprite_size,
    {
        self.sprite_size
    }

    /// The job that the control register selects.
    pub fn job(&self) -> (job: JobType)
        ensures
            job == self@.job,
    {
        self.job
    }

    /// Whether the control register enables the non-maskable interrupt.
    pub fn nmi_enabled(&self) -> (enabled: bool)
        ensures
            enabled == self@.nmi,
    {
        self.nmi
    }

    /// Whether the PPU is in vblank.
    pub fn in_vblank(&self) -> (vblank: bool)
        ensures
            vblank == self@.vblank,
    {
        self.vblank
    }

    /// The latched VRAM address.
    pub fn vram_addr(&self) -> (addr: u16)
        ensures
            addr == self@.addr,
    {
        self.addr
    }

    /// The nametable base never lies beyond the last nametable.
    pub proof fn lemma_nametable_base(&self)
        requires
            self.inv(),
        ensures
            self@.nametable_base <= 0x2c00,
    {
    }

    /// The byte that the PPU's own address space holds at `addr`, where
    /// every access goes to byte storage.
    pub open spec fn vram_byte(memory: AscView<Seq<u8>>, addr: u16) -> u8 {
        Asc::<Ram>::read_spec(memory, addr).1
    }

    /// The layout of the PPU's own address space.
    pub proof fn lemma_vram_layout(&self)
        requires
            self.inv(),
        ensures
            is_vram(self@.memory),
            self@.memory.wf(),
    {
        self.memory.lemma_view_wf();
    }

    /// A read of the PPU's own address space at a mapped address changes
    /// nothing: all its devices are byte storage.
    pub proof fn lemma_vram_read_only(memory: AscView<Seq<u8>>, addr: u16)
        requires
            memory.wf(),
            memory.is_mapped(addr),
        ensures
            Asc::<Ram>::read_spec(memory, addr).0 == memory,
    {
        let handle = memory.mappings[addr].device as int;
        assert(memory.devices.update(handle, memory.devices[handle]) =~= memory.devices);
    }

    /// Reads the PPU's own address space at `addr`, past the data port: the
    /// latched address and the registers stay as they are. Below `0x4000`,
    /// where every address is mapped, nothing at all changes; from there on
    /// the read is a miss.
    pub fn vram_read(&mut self, addr: u16) -> (value: u8)
        requires
            old(self).inv(),
        ensures
            final(self).inv(),
            final(self)@ == (PpuView {
                memory: Asc::<Ram>::read_spec(old(self)@.memory, addr).0,
                ..old(self)@
            }),
            addr < 0x4000 ==> final(self)@ == old(self)@,
            value == Self::vram_byte(old(self)@.memory, addr),
    {
        proof {
            self.memory.lemma_view_wf();
            if addr < 0x4000 {
                Self::lemma_vram_read_only(self.memory@, addr);
            }
        }
        self.memory.read(addr)
    }

    /// Hands out the misses that the PPU's own bus has recorded, the oldest
    /// first, and forgets them.
    pub fn take_misses(&mut self) -> (misses: Vec<BusMiss>)
        requires
            old(self).inv(),
        ensures
            final(self).inv(),
            misses@ == old(self)@.memory.misses,
            final(self)@ == (PpuView {
                memory: AscView { misses: Seq::<BusMiss>::empty(), ..old(self)@.memory },
                ..old(self)@
            }),
    {
        self.memory.take_misses()
    }

    /// Whether the driver is to raise the non-maskable interrupt.
    pub fn should_nmi(&self) -> (due: bool)
        ensures
            due == self@.should_nmi(),
    {
        self.vblank && self.nmi
    }

    fn write_control(&mut self, value: u8)
        requires
            old(self).inv(),
        ensures
            final(self).inv(),
            final(self)@ == old(self)@.with_control(value),
    {
        assert({
            &&& value & 0b11 == value % 4
            &&& (value & 0x04 == 0) == ((value / 4) % 2 != 1)
            &&& (value & 0x08 == 0) == ((value / 8) % 2 != 1)
            &&& (value & 0x10 == 0) == ((value / 16) % 2 != 1)
            &&& (value & 0x20 == 0) == ((value / 32) % 2 != 1)
            &&& (value & 0x40 == 0) == ((value / 64) % 2 != 1)
            &&& (value & 0x80 != 0) == (value >= 0x80)
        }) by (bit_vector);
        self.control = value;
        self.nametable_base = 0x2000 + 0x0400 * ((self.control & NAMETABLE_MASK) as u16);
        self.vram_increment = if self.control & VRAM_MASK == 0 {
            VramIncrement::Across
        } else {
            VramIncrement::Down
        };
        self.sprite_table_addr = if self.control & SPRITE_MASK == 0 {
            0
        } else {
            0x1000
        };
        self.background_table_addr = if self.control & BACKGROUND_MASK == 0 {
            0
        } else {
            0x1000
        };
        self.sprite_size = if self.control & SPRITE_SIZE_MASK == 0 {
            SpriteSize::Size8x8
        } else {
            SpriteSize::Size8x16
        };
        self.job = if self.control & MASTER_SLAVE_MASK == 0 {
            JobType::Read
        } else {
            JobType::Output
        };
        self.nmi = self.control & NMI_MASK != 0;
    }

    fn step_addr(&mut self)
        requires
            old(self).inv(),
        ensures
            final(self).inv(),
            final(self)@ == (PpuView { addr: old(self)@.next_addr(), ..old(self)@ }),
    {
        let step: u16 = match self.vram_increment {
            VramIncrement::Across => 1,
            VramIncrement::Down => 32,
        };
        self.addr = self.addr.wrapping_add(step);
    }
}

impl MemoryMapped for Ppu {
    /// The PPU's own bus is well formed and laid out as `is_vram` says, and
    /// the nametable base is zero or the address of one of the four
    /// nametables.
    closed spec fn inv(&self) -> bool {
        self.memory.inv() && is_vram(self.memory@) && self.nametable_base <= 0x2c00
    }

    /// What a write to a port does. A write to the status port or to an
    /// address that is no port changes nothing.
    open spec fn write_spec(state: PpuView, addr: u16, value: u8) -> PpuView {
        if addr == PORT_CONTROL {
            state.with_control(value)
        } else if addr == PORT_MASK {
            PpuView { mask: value, ..state }
        } else if addr == PORT_OAM_ADDR {
            PpuView { oam_addr: value, ..state }
        } else if addr == PORT_OAM_DATA {
            PpuView { oam_data: value, ..state }
        } else if addr == PORT_SCROLL {
            PpuView { scroll: value, ..state }
        } else if addr == PORT_ADDR {
            state.with_latched(value)
        } else if addr == PORT_DATA {
            PpuView {
                memory: Asc::<Ram>::write_spec(state.memory, state.addr, value),
                addr: state.next_addr(),
                ..state
            }
        } else if addr == PORT_OAM_DMA {
            PpuView { oam_dma: value, ..state }
        } else {
            state
        }
    }

    /// What a read of a port does and gives. A read of the status port gives
    /// the status register, then clears its bit 7 and the toggle of the
    /// address latch. A read of the data port gives the byte at the VRAM
    /// address, then steps that address. A read of the address latch gives
    /// the low byte of the VRAM address. A read at an address that is no
    /// port gives zero.
    open spec fn read_spec(state: PpuView, addr: u16) -> (PpuView, u8) {
        if addr == PORT_CONTROL {
            (state, state.control)
        } else if addr == PORT_MASK {
            (state, state.mask)
        } else if addr == PORT_STATUS {
            (
                PpuView { status: (state.status % 128) as u8, first_byte: false, ..state },
                state.status,
            )
        } else if addr == PORT_OAM_ADDR {
            (state, state.oam_addr)
        } else if addr == PORT_OAM_DATA {
            (state, state.oam_data)
        } else if addr == PORT_SCROLL {
            (state, state.scroll)
        } else if addr == PORT_ADDR {
            (state, (state.addr % 256) as u8)
        } else if addr == PORT_DATA {
            let (memory, value) = Asc::<Ram>::read_spec(state.memory, state.addr);
            (PpuView { memory, addr: state.next_addr(), ..state }, value)
        } else if addr == PORT_OAM_DMA {
            (state, state.oam_dma)
        } else {
            (state, 0u8)
        }
    }

    fn write(&mut self, addr: u16, value: u8) {
        match addr {
            0x0 => self.write_control(value),
            0x1 => self.mask = value,
            0x2 => (),
            0x3 => self.oam_addr = value,
            0x4 => self.oam_data = value,
            0x5 => self.scroll = value,
            0x6 => {
                if !self.first_byte {
                    proof {
                        assert((value as u16) << 8 == value * 256) by (bit_vector);
                    }
                    self.addr = (value as u16) << 8;
                } else {
                    self.addr = self.addr | value as u16;
                }
                self.first_byte = !self.first_byte;
            },
            0x7 => {
                self.memory.write(self.addr, value);
                self.step_addr();
            },
            0x4014 => self.oam_dma = value,
            _ => (),
        }
    }

    fn read(&mut self, addr: u16) -> (value: u8) {
        match addr {
            0x0 => self.control,
            0x1 => self.mask,
            0x2 => {
                let st = self.status;
                proof {
                    assert(st & !0x80u8 == st % 128) by (bit_vector);
                }
                self.status = self.status & !VBLANK_MASK;
                self.first_byte = false;
                st
            },
            0x3 => self.oam_addr,
            0x4 => self.oam_data,
            0x5 => self.scroll,
            0x6 => {
                let a = self.addr;
                proof {
                    assert(a as u8 == a % 256) by (bit_vector);
                }
                self.addr as u8
            },
            0x7 => {
                let value = self.memory.read(self.addr);
                self.step_addr();
                value
            },
            0x4014 => self.oam_dma,
            _ => 0,
        }
    }
}

} // verus!
