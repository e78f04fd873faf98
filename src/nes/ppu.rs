use vstd::prelude::*;

pub mod registers;

use crate::nes::bus::memory_mapped::{zeros, MemoryMappedRam};
use crate::nes::bus::{Device, DeviceModel};
use crate::nes::cartridge::Cartridge;
use registers::Registers;

verus! {

/// The size of the name-table memory: four 1 KiB tables.
pub const NAMETABLES_SIZE: usize = 0x400 * 4;

/// The picture unit.
pub struct Ppu;

impl Ppu {
    pub fn new() -> Self {
        Ppu
    }

    /// The devices the picture unit puts on the bus: its registers at power-on,
    /// and its name tables, all four of them, zeroed, whatever the mirroring.
    pub fn alloc_mem_devices(_cartridge: &Cartridge) -> (r: (Device, Device))
        ensures
            r.0@ == DeviceModel::PpuRegisters(Registers::power_on()),
            r.1@ == DeviceModel::Ram(zeros(NAMETABLES_SIZE as nat)),
    {
        let nametables = Device::Ram(MemoryMappedRam::new(NAMETABLES_SIZE));
        let reg = Device::PpuRegisters(Registers::new());
        (reg, nametables)
    }
}

} // verus!
