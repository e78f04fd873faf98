use vstd::prelude::*;

use crate::bitset::BiasedBitSet;
use crate::error::{agrees, Fault, IronNesError, IronNesResult};
use crate::nes::bus::memory_mapped::MemoryMapped;

verus! {

/// The scroll register: written twice, first x then y.
#[derive(Clone, Copy, PartialEq, Eq, Structural, Default)]
pub struct PPUScroll {
    pub x: u8,
    pub y: u8,
}

impl PPUScroll {
    /// Each write shifts the previous one into `x` and lands in `y`.
    pub fn push(&mut self, v: u8)
        ensures
            final(self).x == old(self).y,
            final(self).y == v,
    {
        self.x = self.y;
        self.y = v;
    }
}

/// The eight picture-unit registers as the CPU sees them.
#[derive(Clone, Copy, PartialEq, Eq, Structural)]
pub struct Registers {
    pub ppuctrl: BiasedBitSet,
    pub ppumask: BiasedBitSet,
    pub ppustatus: BiasedBitSet,
    pub oamaddr: u8,
    pub ppuscroll: PPUScroll,
    pub ppuaddr: usize,
    /// The last value driven on the data bus, read or written; it shows on
    /// the undefined bits of the status register.
    pub latch: u8,
}

/// The register selected by an address: the low three bits.
pub open spec fn reg_index(addr: usize) -> usize {
    addr % 8
}

impl Registers {
    pub const PPUCTRL_ADDR: usize = 0x2000;
    pub const PPUMASK_ADDR: usize = 0x2001;
    pub const PPUSTATUS_ADDR: usize = 0x2002;
    pub const OAMADDR_ADDR: usize = 0x2003;
    pub const OAMDATA_ADDR: usize = 0x2004;
    pub const PPUSCROLL_ADDR: usize = 0x2005;
    pub const PPUADDR_ADDR: usize = 0x2006;
    pub const PPUDATA_ADDR: usize = 0x2007;

    /// How far an access to the data register moves the address register.
    pub open spec fn vram_inc(self) -> usize {
        if crate::bitset::bit_is_set(self.ppuctrl@, 2) {
            32
        } else {
            1
        }
    }

    /// What a load of `addr` returns: control, mask, status, OAM address and
    /// data are readable, the others are not.
    pub open spec fn load_result(self, addr: usize) -> Result<u8, Fault> {
        match reg_index(addr) {
            0 => Ok(self.ppuctrl@),
            1 => Ok(self.ppumask@),
            2 => Ok(self.ppustatus@ | (self.latch & 0x1f)),
            3 => Ok(self.oamaddr),
            7 => Ok(0),
            _ => Err(Fault::Memory),
        }
    }

    /// The registers after a load of `addr`: the value read is latched, a
    /// status read clears bit 7 of the status, a data read moves the address.
    pub open spec fn after_load(self, addr: usize) -> Self {
        match self.load_result(addr) {
            Err(_) => self,
            Ok(v) => {
                let s = Registers { latch: v, ..self };
                match reg_index(addr) {
                    2 => Registers { ppustatus: s.ppustatus.with(7, 0), ..s },
                    7 => Registers { ppuaddr: s.ppuaddr.wrapping_add(s.vram_inc()), ..s },
                    _ => s,
                }
            },
        }
    }

    /// Only the status register refuses a store.
    pub open spec fn store_result(self, addr: usize) -> Result<(), Fault> {
        if reg_index(addr) == 2 {
            Err(Fault::Memory)
        } else {
            Ok(())
        }
    }

    /// The registers after storing `data` at `addr`; the value is latched
    /// even where the store is refused.
    pub open spec fn after_store(self, addr: usize, data: u8) -> Self {
        let s = Registers { latch: data, ..self };
        match reg_index(addr) {
            0 => Registers { ppuctrl: s.ppuctrl.stored(data), ..s },
            1 => Registers { ppumask: s.ppumask.stored(data), ..s },
            3 => Registers { oamaddr: data, ..s },
            4 => Registers { oamaddr: s.oamaddr.wrapping_add(1), ..s },
            5 => Registers { ppuscroll: PPUScroll { x: s.ppuscroll.y, y: data }, ..s },
            6 => Registers { ppuaddr: ((s.ppuaddr % 256) * 256 + data as usize) as usize, ..s },
            7 => Registers { ppuaddr: s.ppuaddr.wrapping_add(s.vram_inc()), ..s },
            _ => s,
        }
    }

    /// Power-on state: bit 6 of control is grounded, the five low bits of
    /// status read 0.
    pub open spec fn power_on() -> Self {
        Registers {
            ppuctrl: BiasedBitSet { v: 0, set0: 0xbf, set1: 0 },
            ppumask: BiasedBitSet { v: 0, set0: 0xff, set1: 0 },
            ppustatus: BiasedBitSet { v: 0, set0: 0xe0, set1: 0 },
            oamaddr: 0,
            ppuscroll: PPUScroll { x: 0, y: 0 },
            ppuaddr: 0,
            latch: 0,
        }
    }

    pub fn new() -> (r: Self)
        ensures
            r == Registers::power_on(),
    {
        assert(0u8 & 1u8 == 0u8) by (bit_vector);
        let mut ppuctrl = BiasedBitSet::default();
        ppuctrl.bias(6, 0);
        assert((0xffu8 & !(1u8 << 6u8)) == 0xbfu8 && (0u8 & 0xbfu8) | 0u8 == 0u8) by (bit_vector);
        let ppumask = BiasedBitSet::default();
        assert((0u8 & 0xffu8) | 0u8 == 0u8) by (bit_vector);
        let mut ppustatus = BiasedBitSet::default();
        let mut i: u8 = 0;
        while i < 5
            invariant
                i <= 5,
                ppustatus == (BiasedBitSet { v: 0, set0: low_cleared(i), set1: 0 }),
            decreases 5 - i,
        {
            ppustatus.bias(i, 0);
            assert(low_cleared(i) & !(1u8 << i) == low_cleared((i + 1) as u8) && (0u8
                & low_cleared((i + 1) as u8)) | 0u8 == 0u8 && 0u8 & 1u8 == 0u8) by (bit_vector)
                requires
                    i < 5,
            ;
            i = i + 1;
        }
        Self {
            ppuctrl,
            ppumask,
            ppustatus,
            oamaddr: 0,
            ppuscroll: PPUScroll { x: 0, y: 0 },
            ppuaddr: 0,
            latch: 0,
        }
    }

    pub fn reset(&mut self)
        ensures
            *final(self) == (Registers {
                ppuctrl: old(self).ppuctrl.stored(0),
                ppumask: old(self).ppumask.stored(0),
                ..*old(self)
            }),
    {
        self.ppuctrl.store(0);
        self.ppumask.store(0);
    }

    pub fn set_vblank(&mut self, is_enabled: bool)
        ensures
            *final(self) == (Registers {
                ppuctrl: old(self).ppuctrl.with(7, if is_enabled { 1 } else { 0 }),
                ..*old(self)
            }),
    {
        self.ppuctrl.set(7, if is_enabled { 1 } else { 0 })
    }

    fn get_vram_inc(&self) -> (r: usize)
        ensures
            r == self.vram_inc(),
    {
        if self.ppuctrl.get(2) {
            32
        } else {
            1
        }
    }

    /// What a load of `addr` would return, without its side effects.
    pub fn peek(&self, addr: usize) -> (r: IronNesResult<u8>)
        ensures
            agrees(r, self.load_result(addr)),
    {
        match addr % 8 {
            0 => Ok(self.ppuctrl.cast()),
            1 => Ok(self.ppumask.cast()),
            2 => Ok(self.ppustatus.cast() | (self.latch & 0x1f)),
            3 => Ok(self.oamaddr),
            7 => Ok(0),
            _ => Err(IronNesError::memory("Address not readable")),
        }
    }

    pub fn get_ppuscroll(&self) -> (r: PPUScroll)
        ensures
            r == self.ppuscroll,
    {
        self.ppuscroll
    }
}

/// `0xff` with its `i` lowest bits cleared.
pub open spec fn low_cleared(i: u8) -> u8 {
    match i {
        0 => 0xff,
        1 => 0xfe,
        2 => 0xfc,
        3 => 0xf8,
        4 => 0xf0,
        _ => 0xe0,
    }
}

impl MemoryMapped for Registers {
    fn load(&mut self, addr: usize) -> (r: IronNesResult<u8>)
        ensures
            agrees(r, old(self).load_result(addr)),
            *final(self) == old(self).after_load(addr),
    {
        let v = match addr % 8 {
            0 => self.ppuctrl.cast(),
            1 => self.ppumask.cast(),
            2 => {
                let v = self.ppustatus.cast() | (self.latch & 0x1f);
                // a read of the status clears its bit 7
                self.ppustatus.set(7, 0);
                v
            },
            3 => self.oamaddr,
            7 => {
                self.ppuaddr = self.ppuaddr.wrapping_add(self.get_vram_inc());
                0
            },
            _ => {
                return Err(IronNesError::memory("Address not readable"));
            },
        };
        self.latch = v;
        Ok(v)
    }

    fn store(&mut self, addr: usize, data: u8) -> (r: IronNesResult<()>)
        ensures
            agrees(r, old(self).store_result(addr)),
            *final(self) == old(self).after_store(addr, data),
    {
        self.latch = data;
        match addr % 8 {
            0 => self.ppuctrl.store(data),
            1 => self.ppumask.store(data),
            3 => self.oamaddr = data,
            4 => self.oamaddr = self.oamaddr.wrapping_add(1),
            5 => self.ppuscroll.push(data),
            6 => self.ppuaddr = (self.ppuaddr % 256) * 256 + data as usize,
            7 => self.ppuaddr = self.ppuaddr.wrapping_add(self.get_vram_inc()),
            _ => {
                return Err(IronNesError::memory("Address not writable"));
            },
        }
        Ok(())
    }
}

} // verus!
