//! The processing core of an 8-bit game console: a 6502-family CPU, the
//! address-space controller its accesses go through, byte storage, and the
//! CPU-visible register file of the picture processing unit.
//!
//! Every operation is stated over a mathematical model of the state it acts
//! on and proved against that statement.
//!
//! - [`ram`]: byte storage.
//! - [`asc`]: the device capability and the address-space controller.
//! - [`instruction`]: the instruction catalog.
//! - [`cpu`]: the CPU.
//! - [`ppu`]: the register file of the PPU.
//! - [`machine`]: the main bus and the cadence of a frame.
//! - [`ines`]: cartridge images.
//! - [`tiles`]: the bytes that a picture is drawn from.
//! - [`laws`]: what holds of these whatever the inputs.
//! - [`bits`]: bit operations as arithmetic.

pub mod asc;
pub mod bits;
pub mod cpu;
pub mod ines;
pub mod instruction;
pub mod laws;
pub mod machine;
pub mod ppu;
pub mod ram;
pub mod tiles;
