use vstd::prelude::*;

pub mod bus;
pub mod cartridge;
pub mod cpu;
pub mod memory;
pub mod ppu;

use crate::error::{outcome, Fault, IronNesError, IronNesResult};
use bus::{Bus, BusModel, PAGE_SIZE};
use bus::memory_mapped::zeros;
use bus::{DeviceModel, CPU_ZEROPAGE_SIZE, IO_SIZE, OAM_SIZE, PPU_PALETTE_RAM_SIZE};
use cartridge::{header_cartridge, header_ok, image_complete, prog_start, Cartridge};
use cpu::semantics::steps;
use ppu::registers::Registers as PpuRegisters;
use ppu::NAMETABLES_SIZE;
use cpu::{Cpu, Registers, CYCLE_LIMIT};
use memory::{load16, Addr};

verus! {

/// The console: its CPU and the bus with everything on it.
pub struct IronNes {
    bus: Bus,
    cpu: cpu::Cpu,
}

impl IronNes {
    /// The stack pointer is in the stack page.
    pub closed spec fn wf(self) -> bool {
        self.cpu.wf()
    }

    pub closed spec fn cpu_state(self) -> Cpu {
        self.cpu
    }

    pub closed spec fn bus_state(self) -> BusModel {
        self.bus@
    }

    /// The bus of a console just built around the program ROM `prog` and
    /// the character ROM `chr`: zeroed memories, the picture-unit registers
    /// at power-on, and no mapper.
    pub open spec fn fresh_bus(prog: Seq<u8>, chr: Seq<u8>) -> BusModel {
        BusModel {
            ram: zeros(CPU_ZEROPAGE_SIZE as nat),
            io: zeros(IO_SIZE as nat),
            ppu_reg: DeviceModel::PpuRegisters(PpuRegisters::power_on()),
            nametables: DeviceModel::Ram(zeros(NAMETABLES_SIZE as nat)),
            palette: zeros(PPU_PALETTE_RAM_SIZE as nat),
            oam: zeros(OAM_SIZE as nat),
            rom: prog,
            rom_offset: if prog.len() / (PAGE_SIZE as nat) == 1 {
                0xc000usize
            } else {
                0x8000usize
            },
            vram: chr,
            mapper: None,
        }
    }

    /// A console with the given cartridge inserted, at power-on.
    pub fn new(cartridge: &Cartridge, prog_rom: Vec<u8>, ppu_rom: Vec<u8>) -> (r: Self)
        requires
            prog_rom.len() / PAGE_SIZE == 1 || prog_rom.len() / PAGE_SIZE == 2,
        ensures
            r.cpu_state() == (Cpu { cycle: 0, registers: Registers::power_on() }),
            r.wf(),
            r.bus_state().wf(),
            r.bus_state() == Self::fresh_bus(prog_rom@, ppu_rom@),
    {
        let (ppu_reg, ppu_nametables) = ppu::Ppu::alloc_mem_devices(cartridge);
        IronNes {
            bus: Bus::new(ppu_nametables, ppu_reg, prog_rom, ppu_rom),
            cpu: Cpu::new(),
        }
    }

    /// A console with the cartridge image `image` inserted; an image whose
    /// header is bad, that is truncated, or whose program ROM is not one or
    /// two banks is a cartridge error.
    pub fn load(image: &[u8]) -> (r: IronNesResult<Self>)
        ensures
            (r is Ok) <==> (header_ok(image@) && image_complete(image@) && (header_cartridge(
                image@,
            ).num_prog_rom == 1 || header_cartridge(image@).num_prog_rom == 2)),
            r is Err ==> (r matches Err(IronNesError::CartridgeError)),
            r matches Ok(n) ==> n.wf(),
            r matches Ok(n) ==> n.cpu_state() == (Cpu { cycle: 0, registers: Registers::power_on() }),
            r matches Ok(n) ==> ({
                let c = header_cartridge(image@);
                n.bus_state() == Self::fresh_bus(
                    image@.subrange(prog_start(c), prog_start(c) + c.prog_size()),
                    image@.subrange(
                        prog_start(c) + c.prog_size(),
                        prog_start(c) + c.prog_size() + c.ppu_size(),
                    ),
                )
            }),
    {
        let (cartridge, prog_rom, ppu_rom) = Cartridge::parse(image)?;
        if cartridge.num_prog_rom != 1 && cartridge.num_prog_rom != 2 {
            return Err(IronNesError::CartridgeError);
        }
        assert(prog_rom.len() / PAGE_SIZE == cartridge.num_prog_rom);
        Ok(Self::new(&cartridge, prog_rom, ppu_rom))
    }

    /// Power-on registers, no cycles spent, PC from the reset vector.
    pub fn reset(&mut self) -> (r: IronNesResult<()>)
        requires
            old(self).wf(),
        ensures
            final(self).wf(),
            final(self).bus_state() == load16(old(self).bus_state(), Cpu::ADDR_RESET).0,
            final(self).cpu_state().cycle == 0,
            match load16(old(self).bus_state(), Cpu::ADDR_RESET).1 {
                Ok(a) => r is Ok && final(self).cpu_state().registers == (Registers {
                    pc: a,
                    ..Registers::power_on()
                }),
                Err(f) => r matches Err(e) && e.fault() == f,
            },
    {
        self.cpu.reset(&mut self.bus)
    }

    /// Steps until an instruction fails, or until the cycle counter comes
    /// near the largest value it can hold.
    pub fn run(&mut self) -> (r: IronNesResult<()>)
        requires
            old(self).wf(),
        ensures
            final(self).wf(),
            exists|n: nat|
                #[trigger] steps(old(self).cpu_state(), old(self).bus_state(), n) == (
                    final(self).cpu_state(),
                    final(self).bus_state(),
                    outcome(r),
                ),
            r is Ok ==> final(self).cpu_state().cycle > CYCLE_LIMIT - 16,
    {
        let ghost c0 = self.cpu_state();
        let ghost b0 = self.bus_state();
        let ghost mut n: nat = 0;
        loop
            invariant
                self.wf(),
                c0 == old(self).cpu_state(),
                b0 == old(self).bus_state(),
                steps(c0, b0, n) == (self.cpu_state(), self.bus_state(), Ok::<(), Fault>(())),
            decreases usize::MAX - self.cpu.cycle,
        {
            if self.cpu.cycle > CYCLE_LIMIT - 16 {
                assert(steps(c0, b0, n) == (self.cpu_state(), self.bus_state(), outcome(Ok::<(), IronNesError>(()))));
                return Ok(());
            }
            let r = self.step();
            proof {
                n = n + 1;
            }
            match r {
                Ok(_) => {},
                Err(e) => {
                    assert(steps(c0, b0, n) == (self.cpu_state(), self.bus_state(), outcome(Err::<(), IronNesError>(e))));
                    return Err(e);
                },
            }
        }
    }

    /// Executes one instruction.
    pub fn step(&mut self) -> (r: IronNesResult<()>)
        requires
            old(self).wf(),
            old(self).cpu_state().cycle <= CYCLE_LIMIT - 16,
        ensures
            final(self).wf(),
            final(self).cpu_state() == cpu::semantics::step(old(self).cpu_state(), old(self).bus_state()).0,
            final(self).bus_state() == cpu::semantics::step(old(self).cpu_state(), old(self).bus_state()).1,
            outcome(r) == match cpu::semantics::step(old(self).cpu_state(), old(self).bus_state()).2 {
                Ok(_) => Ok::<(), Fault>(()),
                Err(f) => Err(f),
            },
            r is Ok ==> final(self).cpu_state().cycle > old(self).cpu_state().cycle,
    {
        self.cpu.step(&mut self.bus)?;
        Ok(())
    }

    pub fn get_cycles(&self) -> (r: usize)
        ensures
            r == self.cpu_state().cycle,
    {
        self.cpu.cycle
    }

    /// The byte the CPU would read at `addr`; the console is left as it is,
    /// without the side effects a read of a device register has.
    pub fn peek(&self, addr: Addr) -> (r: IronNesResult<u8>)
        ensures
            outcome(r) == self.bus_state().load_result(addr as usize),
    {
        self.bus.cpu_peek(addr as usize)
    }

    /// Moves PC to `addr`, charging the cycles of a JSR; for test harnesses.
    pub fn jsr(&mut self, addr: Addr) -> (r: IronNesResult<()>)
        requires
            old(self).wf(),
            old(self).cpu_state().cycle <= CYCLE_LIMIT,
        ensures
            final(self).wf(),
            r is Ok,
            final(self).cpu_state().registers == (Registers { pc: addr, ..old(self).cpu_state().registers }),
            final(self).cpu_state().cycle == old(self).cpu_state().cycle + 6,
            final(self).bus_state() == old(self).bus_state(),
    {
        self.cpu.jsr(addr)?;
        Ok(())
    }

    /// The trace line of the next instruction; see `Cpu::log_state`.
    pub fn log_state(&mut self) -> (r: IronNesResult<String>)
        requires
            old(self).wf(),
        ensures
            final(self).wf(),
            final(self).cpu_state() == old(self).cpu_state(),
            final(self).bus_state() == cpu::trace(old(self).cpu_state(), old(self).bus_state()).0,
            match cpu::trace(old(self).cpu_state(), old(self).bus_state()).1 {
                Ok(t) => r matches Ok(s) && s@ == t,
                Err(f) => r matches Err(e) && e.fault() == f,
            },
    {
        self.cpu.log_state(&mut self.bus)
    }

    pub fn get_cpu_registers(&self) -> (r: &Registers)
        ensures
            *r == self.cpu_state().registers,
    {
        self.cpu.get_registers()
    }
}

} // verus!
