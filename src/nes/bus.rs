use vstd::prelude::*;

pub mod memory_mapped;

use crate::error::{agrees, Fault, IronNesError, IronNesResult};
use crate::nes::ppu::registers::Registers;
use memory_mapped::{zeros, ram_load, ram_store, ram_store_result, MemoryMapped, MemoryMappedRam};

verus! {

/// A device that the bus can hold.
pub enum Device {
    Ram(MemoryMappedRam),
    PpuRegisters(Registers),
}

/// What a device holds.
pub ghost enum DeviceModel {
    Ram(Seq<u8>),
    PpuRegisters(Registers),
}

impl View for Device {
    type V = DeviceModel;

    open spec fn view(&self) -> DeviceModel {
        match self {
            Device::Ram(m) => DeviceModel::Ram(m@),
            Device::PpuRegisters(r) => DeviceModel::PpuRegisters(*r),
        }
    }
}

impl DeviceModel {
    pub open spec fn load_result(self, addr: usize) -> Result<u8, Fault> {
        match self {
            DeviceModel::Ram(s) => ram_load(s, addr),
            DeviceModel::PpuRegisters(r) => r.load_result(addr),
        }
    }

    pub open spec fn after_load(self, addr: usize) -> DeviceModel {
        match self {
            DeviceModel::Ram(s) => self,
            DeviceModel::PpuRegisters(r) => DeviceModel::PpuRegisters(r.after_load(addr)),
        }
    }

    pub open spec fn store_result(self, addr: usize) -> Result<(), Fault> {
        match self {
            DeviceModel::Ram(s) => ram_store_result(s, addr),
            DeviceModel::PpuRegisters(r) => r.store_result(addr),
        }
    }

    pub open spec fn after_store(self, addr: usize, data: u8) -> DeviceModel {
        match self {
            DeviceModel::Ram(s) => DeviceModel::Ram(ram_store(s, addr, data)),
            DeviceModel::PpuRegisters(r) => DeviceModel::PpuRegisters(r.after_store(addr, data)),
        }
    }
}

impl Device {
    /// What a load of `addr` would return, without its side effects.
    pub fn peek(&self, addr: usize) -> (r: IronNesResult<u8>)
        ensures
            agrees(r, self@.load_result(addr)),
    {
        match self {
            Device::Ram(m) => m.peek(addr),
            Device::PpuRegisters(p) => p.peek(addr),
        }
    }
}

impl MemoryMapped for Device {
    fn load(&mut self, addr: usize) -> (r: IronNesResult<u8>)
        ensures
            agrees(r, old(self)@.load_result(addr)),
            final(self)@ == old(self)@.after_load(addr),
    {
        match self {
            Device::Ram(m) => m.load(addr),
            Device::PpuRegisters(p) => p.load(addr),
        }
    }

    fn store(&mut self, addr: usize, data: u8) -> (r: IronNesResult<()>)
        ensures
            agrees(r, old(self)@.store_result(addr)),
            final(self)@ == old(self)@.after_store(addr, data),
    {
        match self {
            Device::Ram(m) => m.store(addr, data),
            Device::PpuRegisters(p) => p.store(addr, data),
        }
    }
}

/// Where the bus sends an address.
#[derive(Clone, Copy, PartialEq, Eq, Structural, Debug)]
pub enum Route {
    /// The 2 KiB of work RAM.
    CpuRam,
    /// The eight picture-unit registers.
    PpuRegisters,
    /// The other I/O registers (sound, DMA, joysticks).
    Io,
    /// The program ROM of the cartridge.
    CartridgeRom,
    /// A mapper chip on the cartridge.
    Mapper,
}

pub open spec fn device_opt_view(d: Option<Device>) -> Option<DeviceModel> {
    match d {
        Some(m) => Some(m@),
        None => None,
    }
}

/// What the bus holds.
pub ghost struct BusModel {
    pub ram: Seq<u8>,
    pub io: Seq<u8>,
    pub ppu_reg: DeviceModel,
    pub nametables: DeviceModel,
    pub palette: Seq<u8>,
    pub oam: Seq<u8>,
    pub rom: Seq<u8>,
    pub rom_offset: usize,
    pub vram: Seq<u8>,
    pub mapper: Option<DeviceModel>,
}

pub const CPU_ZEROPAGE_SIZE: usize = 0x800;
pub const IO_SIZE: usize = 0x18;
pub const OAM_SIZE: usize = 256;
pub const PPU_PALETTE_RAM_SIZE: usize = 0x20;
pub const PAGE_SIZE: usize = 0x4000;

impl BusModel {
    pub open spec fn wf(self) -> bool {
        &&& self.ram.len() == CPU_ZEROPAGE_SIZE
        &&& self.io.len() == IO_SIZE
        &&& (self.rom_offset == 0x8000 || self.rom_offset == 0xc000)
    }

    /// The device and offset that answer `addr`, or `None` where no device does.
    pub open spec fn route(self, addr: usize) -> Option<(Route, usize)> {
        if addr <= 0x1fff {
            Some((Route::CpuRam, addr % CPU_ZEROPAGE_SIZE))
        } else if addr <= 0x3fff {
            Some((Route::PpuRegisters, addr % 8))
        } else if addr <= 0x4017 {
            Some((Route::Io, (addr - 0x4000) as usize))
        } else if 0x8000 <= addr <= 0xffff {
            if addr >= self.rom_offset {
                Some((Route::CartridgeRom, (addr - self.rom_offset) as usize))
            } else if self.mapper is Some {
                Some((Route::Mapper, (addr - 0x8000) as usize))
            } else {
                None
            }
        } else {
            None
        }
    }

    /// `addr` lies in the mapper's window and no mapper is inserted.
    pub open spec fn mapper_missing(self, addr: usize) -> bool {
        0x8000 <= addr <= 0xffff && addr < self.rom_offset && self.mapper is None
    }

    #[verifier::opaque]
    pub open spec fn load_result(self, addr: usize) -> Result<u8, Fault> {
        match self.route(addr) {
            None => Err(Fault::Memory),
            Some((rt, o)) => match rt {
                Route::CpuRam => ram_load(self.ram, o),
                Route::PpuRegisters => self.ppu_reg.load_result(o),
                Route::Io => ram_load(self.io, o),
                Route::CartridgeRom => ram_load(self.rom, o),
                Route::Mapper => match self.mapper {
                    Some(d) => d.load_result(o),
                    None => Err(Fault::Memory),
                },
            },
        }
    }

    #[verifier::opaque]
    pub open spec fn after_load(self, addr: usize) -> BusModel {
        match self.route(addr) {
            Some((Route::PpuRegisters, o)) => BusModel { ppu_reg: self.ppu_reg.after_load(o), ..self },
            Some((Route::Mapper, o)) => match self.mapper {
                Some(d) => BusModel { mapper: Some(d.after_load(o)), ..self },
                None => self,
            },
            _ => self,
        }
    }

    #[verifier::opaque]
    pub open spec fn store_result(self, addr: usize) -> Result<(), Fault> {
        match self.route(addr) {
            None => Err(Fault::Memory),
            Some((rt, o)) => match rt {
                Route::CpuRam => ram_store_result(self.ram, o),
                Route::PpuRegisters => self.ppu_reg.store_result(o),
                Route::Io => ram_store_result(self.io, o),
                Route::CartridgeRom => ram_store_result(self.rom, o),
                Route::Mapper => match self.mapper {
                    Some(d) => d.store_result(o),
                    None => Err(Fault::Memory),
                },
            },
        }
    }

    #[verifier::opaque]
    pub open spec fn after_store(self, addr: usize, data: u8) -> BusModel {
        match self.route(addr) {
            None => self,
            Some((rt, o)) => match rt {
                Route::CpuRam => BusModel { ram: ram_store(self.ram, o, data), ..self },
                Route::PpuRegisters => BusModel {
                    ppu_reg: self.ppu_reg.after_store(o, data),
                    ..self
                },
                Route::Io => BusModel { io: ram_store(self.io, o, data), ..self },
                Route::CartridgeRom => BusModel { rom: ram_store(self.rom, o, data), ..self },
                Route::Mapper => match self.mapper {
                    Some(d) => BusModel { mapper: Some(d.after_store(o, data)), ..self },
                    None => self,
                },
            },
        }
    }
}

/// The address space of the CPU and the devices behind it.
pub struct Bus {
    cpu_zeropage: MemoryMappedRam,
    io_registers: MemoryMappedRam,
    ppu_reg: Device,
    ppu_nametables: Device,
    ppu_palette_ram: MemoryMappedRam,
    oam: MemoryMappedRam,
    cartridge_rom: MemoryMappedRam,
    cartridge_rom_offset: usize,
    cartridge_vram: MemoryMappedRam,
    cartridge_mapper: Option<Device>,
}

impl View for Bus {
    type V = BusModel;

    closed spec fn view(&self) -> BusModel {
        BusModel {
            ram: self.cpu_zeropage@,
            io: self.io_registers@,
            ppu_reg: self.ppu_reg@,
            nametables: self.ppu_nametables@,
            palette: self.ppu_palette_ram@,
            oam: self.oam@,
            rom: self.cartridge_rom@,
            rom_offset: self.cartridge_rom_offset,
            vram: self.cartridge_vram@,
            mapper: device_opt_view(self.cartridge_mapper),
        }
    }
}

impl Bus {
    /// A bus for a cartridge of one 16 KiB program bank (mapped at 0xc000,
    /// with the window below it left to a mapper) or two (mapped at 0x8000).
    pub fn new(
        ppu_nametables: Device,
        ppu_reg: Device,
        cartridge_rom: Vec<u8>,
        cartridge_vram: Vec<u8>,
    ) -> (r: Self)
        requires
            cartridge_rom.len() / PAGE_SIZE == 1 || cartridge_rom.len() / PAGE_SIZE == 2,
        ensures
            r@.wf(),
            r@.ram == zeros(CPU_ZEROPAGE_SIZE as nat),
            r@.io == zeros(IO_SIZE as nat),
            r@.ppu_reg == ppu_reg@,
            r@.nametables == ppu_nametables@,
            r@.palette == zeros(PPU_PALETTE_RAM_SIZE as nat),
            r@.oam == zeros(OAM_SIZE as nat),
            r@.rom == cartridge_rom@,
            r@.rom_offset == (if cartridge_rom.len() / PAGE_SIZE == 1 {
                0xc000usize
            } else {
                0x8000usize
            }),
            r@.vram == cartridge_vram@,
            r@.mapper is None,
    {
        let num_pages = cartridge_rom.len() / PAGE_SIZE;
        let cartridge_rom_offset: usize = if num_pages == 1 {
            0xc000
        } else {
            0x8000
        };
        Bus {
            cpu_zeropage: MemoryMappedRam::new(CPU_ZEROPAGE_SIZE),
            io_registers: MemoryMappedRam::new(IO_SIZE),
            ppu_reg,
            ppu_nametables,
            ppu_palette_ram: MemoryMappedRam::new(PPU_PALETTE_RAM_SIZE),
            oam: MemoryMappedRam::new(OAM_SIZE),
            cartridge_rom: MemoryMappedRam::from_vec(cartridge_rom),
            cartridge_rom_offset,
            cartridge_vram: MemoryMappedRam::from_vec(cartridge_vram),
            cartridge_mapper: None,
        }
    }

    /// Translates `addr` into the device that answers it and the offset that
    /// device understands.
    pub fn cpu_map(&self, addr: usize) -> (r: IronNesResult<(usize, Route)>)
        ensures
            agrees(
                r,
                match self@.route(addr) {
                    Some((rt, o)) => Ok((o, rt)),
                    None => Err(Fault::Memory),
                },
            ),
            self@.mapper_missing(addr) ==> (r matches Err(IronNesError::MemoryError(m)) && m@
                == "No mapper inserted"@),
    {
        if addr <= 0x1fff {
            Ok((addr % CPU_ZEROPAGE_SIZE, Route::CpuRam))
        } else if addr <= 0x3fff {
            Ok((addr % 8, Route::PpuRegisters))
        } else if addr <= 0x4017 {
            Ok((addr - 0x4000, Route::Io))
        } else if 0x8000 <= addr && addr <= 0xffff {
            if addr >= self.cartridge_rom_offset {
                Ok((addr - self.cartridge_rom_offset, Route::CartridgeRom))
            } else if self.cartridge_mapper.is_some() {
                Ok((addr - 0x8000, Route::Mapper))
            } else {
                Err(IronNesError::memory("No mapper inserted"))
            }
        } else {
            Err(IronNesError::memory("Memory access to unmapped address"))
        }
    }

    pub fn cpu_load(&mut self, addr: usize) -> (r: IronNesResult<u8>)
        ensures
            agrees(r, old(self)@.load_result(addr)),
            final(self)@ == old(self)@.after_load(addr),
    {
        proof {
            reveal(BusModel::load_result);
            reveal(BusModel::after_load);
            reveal(BusModel::store_result);
            reveal(BusModel::after_store);
        }
        let (a, rt) = match self.cpu_map(addr) {
            Ok(p) => p,
            Err(e) => return Err(e),
        };
        match rt {
            Route::CpuRam => self.cpu_zeropage.load(a),
            Route::PpuRegisters => self.ppu_reg.load(a),
            Route::Io => self.io_registers.load(a),
            Route::CartridgeRom => self.cartridge_rom.load(a),
            Route::Mapper => match &mut self.cartridge_mapper {
                Some(m) => m.load(a),
                None => Err(IronNesError::memory("No mapper inserted")),
            },
        }
    }

    /// What `cpu_load(addr)` would return, with the bus left as it is.
    pub fn cpu_peek(&self, addr: usize) -> (r: IronNesResult<u8>)
        ensures
            agrees(r, self@.load_result(addr)),
    {
        proof {
            reveal(BusModel::load_result);
        }
        let (a, rt) = match self.cpu_map(addr) {
            Ok(p) => p,
            Err(e) => return Err(e),
        };
        match rt {
            Route::CpuRam => self.cpu_zeropage.peek(a),
            Route::PpuRegisters => self.ppu_reg.peek(a),
            Route::Io => self.io_registers.peek(a),
            Route::CartridgeRom => self.cartridge_rom.peek(a),
            Route::Mapper => match &self.cartridge_mapper {
                Some(m) => m.peek(a),
                None => Err(IronNesError::memory("No mapper inserted")),
            },
        }
    }

    pub fn cpu_store(&mut self, addr: usize, v: u8) -> (r: IronNesResult<()>)
        ensures
            agrees(r, old(self)@.store_result(addr)),
            final(self)@ == old(self)@.after_store(addr, v),
    {
        proof {
            reveal(BusModel::load_result);
            reveal(BusModel::after_load);
            reveal(BusModel::store_result);
            reveal(BusModel::after_store);
        }
        let (a, rt) = match self.cpu_map(addr) {
            Ok(p) => p,
            Err(e) => return Err(e),
        };
        match rt {
            Route::CpuRam => self.cpu_zeropage.store(a, v),
            Route::PpuRegisters => self.ppu_reg.store(a, v),
            Route::Io => self.io_registers.store(a, v),
            Route::CartridgeRom => self.cartridge_rom.store(a, v),
            Route::Mapper => match &mut self.cartridge_mapper {
                Some(m) => m.store(a, v),
                None => Err(IronNesError::memory("No mapper inserted")),
            },
        }
    }

    pub fn set_mapper(&mut self, mapper: Option<Device>)
        ensures
            final(self)@ == (BusModel { mapper: device_opt_view(mapper), ..old(self)@ }),
    {
        self.cartridge_mapper = mapper
    }
}

} // verus!
