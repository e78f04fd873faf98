use vstd::prelude::*;

use crate::error::{IronNesError, IronNesResult};
use crate::text::{hex_digits, pad_zeros, push_hex_min4};

verus! {

/// How the picture unit's name tables are mirrored.
#[derive(Clone, Copy, PartialEq, Eq, Structural, Debug)]
pub enum MirrorDirection {
    Vertical,
    Horizontal,
    FourScreen,
}

impl Default for MirrorDirection {
    fn default() -> (r: Self)
        ensures
            r == MirrorDirection::Horizontal,
    {
        MirrorDirection::Horizontal
    }
}

/// The television standard of the cartridge.
#[derive(Clone, Copy, PartialEq, Eq, Structural, Debug)]
pub enum CartridgeRegion {
    PAL,
    NTSC,
}

impl Default for CartridgeRegion {
    fn default() -> (r: Self)
        ensures
            r == CartridgeRegion::PAL,
    {
        CartridgeRegion::PAL
    }
}

/// What the 16-byte header of a cartridge image says.
///
/// | Byte  | Contents
/// |-------|-------------------------------------------------------------
/// | 0-3   | "NES" and 0x1a
/// | 4     | number of 16 KiB program ROM banks
/// | 5     | number of 8 KiB character ROM banks
/// | 6     | bit 0 vertical mirroring, bit 1 battery-backed RAM, bit 2
/// |       | 512-byte trainer, bit 3 four-screen VRAM, bits 4-7 low mapper bits
/// | 7     | bits 1-3 reserved (zero), bits 4-7 high mapper bits
/// | 8     | number of 8 KiB RAM banks
/// | 9     | bit 0 PAL, bits 1-7 reserved (zero)
/// | 10-15 | reserved
#[derive(Clone, Copy, PartialEq, Eq, Structural, Debug)]
pub struct Cartridge {
    pub num_prog_rom: usize,
    pub num_ppu_vrom: usize,
    pub num_ram: usize,
    pub mirror: MirrorDirection,
    pub has_battery: bool,
    pub has_trainer: bool,
    pub mapper: u8,
    pub region: CartridgeRegion,
}

pub const CARTRIDGE_HEADER: [u8; 4] = [0x4e, 0x45, 0x53, 0x1a];
pub const NES_FILE_HEADER_SIZE: usize = 16;
pub const CHIP_SIZE_PROG: usize = 0x4000;
pub const CHIP_SIZE_PPU: usize = 0x2000;
pub const CHIP_SIZE_RAM: usize = 0x2000;
pub const TRAINER_SIZE: usize = 512;

/// The header starts with the magic bytes.
pub open spec fn has_magic(h: Seq<u8>) -> bool {
    h.len() >= 4 && h[0] == 0x4e && h[1] == 0x45 && h[2] == 0x53 && h[3] == 0x1a
}

/// The mapper number: high nibble from byte 7, low nibble from byte 6.
pub open spec fn mapper_of(h: Seq<u8>) -> u8 {
    ((h[7] & 0xf0) | (h[6] >> 4)) as u8
}

/// The header is one this emulator accepts: long enough, with the magic
/// bytes, zero reserved bits, and no mapper.
pub open spec fn header_ok(h: Seq<u8>) -> bool {
    &&& h.len() >= NES_FILE_HEADER_SIZE
    &&& has_magic(h)
    &&& h[7] & 0b1110 == 0
    &&& h[9] & 0b11111110 == 0
    &&& mapper_of(h) == 0
}

/// The cartridge that an accepted header describes.
pub open spec fn header_cartridge(h: Seq<u8>) -> Cartridge {
    Cartridge {
        num_prog_rom: h[4] as usize,
        num_ppu_vrom: h[5] as usize,
        num_ram: h[8] as usize,
        mirror: if h[6] & 0b1000 != 0 {
            MirrorDirection::FourScreen
        } else if h[6] & 1 != 0 {
            MirrorDirection::Vertical
        } else {
            MirrorDirection::Horizontal
        },
        has_battery: h[6] & 0b10 != 0,
        has_trainer: h[6] & 0b100 != 0,
        mapper: mapper_of(h),
        region: if h[9] & 1 == 1 {
            CartridgeRegion::PAL
        } else {
            CartridgeRegion::NTSC
        },
    }
}

/// The name of a mapper number.
pub open spec fn mapper_name(mapper: u8) -> Seq<char> {
    match mapper {
        0 => "No mapper"@,
        1 => "Nintendo MMC1"@,
        2 => "CNROM switch"@,
        3 => "UNROM switch"@,
        4 => "Nintendo MMC3"@,
        5 => "Nintendo MMC5"@,
        6 => "FFE F4xxx"@,
        7 => "AOROM switch"@,
        8 => "FFE F3xxx"@,
        9 => "Nintendo MMC2"@,
        10 => "Nintendo MMC4"@,
        11 => "ColorDreams chip"@,
        12 => "FFE F6xxx"@,
        13 => "CPROM switch"@,
        15 => "100-in-1 switch"@,
        16 => "Bandai chip"@,
        17 => "FFE F8xxx"@,
        18 => "Jaleco SS8806 chip"@,
        19 => "Namcot 106 chip"@,
        20 => "Nintendo DiskSystem"@,
        21 => "Konami VRC4a"@,
        22 => "Konami VRC2a"@,
        23 => "Konami VRC2a"@,
        24 => "Konami VRC6"@,
        25 => "Konami VRC4b"@,
        32 => "Irem G-101 chip"@,
        33 => "Taito TC0190/TC0350"@,
        34 => "Nina-1 board"@,
        64 => "Tengen RAMBO-1 chip"@,
        65 => "Irem H-3001 chip"@,
        66 => "GNROM switch"@,
        67 => "SunSoft3 chip"@,
        68 => "SunSoft4 chip"@,
        69 => "SunSoft5 FME-7 chip"@,
        71 => "Camerica chip"@,
        78 => "Irem 74HC161/32-based"@,
        79 => "AVE Nina-3 board"@,
        81 => "AVE Nina-6 board"@,
        91 => "Pirate HK-SF3 chip"@,
        _ => "UNKNOWN"@,
    }
}

pub fn which_mapper(mapper: u8) -> (r: &'static str)
    ensures
        r@ == mapper_name(mapper),
{
    match mapper {
        0 => "No mapper",
        1 => "Nintendo MMC1",
        2 => "CNROM switch",
        3 => "UNROM switch",
        4 => "Nintendo MMC3",
        5 => "Nintendo MMC5",
        6 => "FFE F4xxx",
        7 => "AOROM switch",
        8 => "FFE F3xxx",
        9 => "Nintendo MMC2",
        10 => "Nintendo MMC4",
        11 => "ColorDreams chip",
        12 => "FFE F6xxx",
        13 => "CPROM switch",
        15 => "100-in-1 switch",
        16 => "Bandai chip",
        17 => "FFE F8xxx",
        18 => "Jaleco SS8806 chip",
        19 => "Namcot 106 chip",
        20 => "Nintendo DiskSystem",
        21 => "Konami VRC4a",
        22 => "Konami VRC2a",
        23 => "Konami VRC2a",
        24 => "Konami VRC6",
        25 => "Konami VRC4b",
        32 => "Irem G-101 chip",
        33 => "Taito TC0190/TC0350",
        34 => "Nina-1 board",
        64 => "Tengen RAMBO-1 chip",
        65 => "Irem H-3001 chip",
        66 => "GNROM switch",
        67 => "SunSoft3 chip",
        68 => "SunSoft4 chip",
        69 => "SunSoft5 FME-7 chip",
        71 => "Camerica chip",
        78 => "Irem 74HC161/32-based",
        79 => "AVE Nina-3 board",
        81 => "AVE Nina-6 board",
        91 => "Pirate HK-SF3 chip",
        _ => "UNKNOWN",
    }
}

/// Where the program ROM starts in an image: after the header and the
/// trainer, if any.
pub open spec fn prog_start(c: Cartridge) -> int {
    NES_FILE_HEADER_SIZE + if c.has_trainer { TRAINER_SIZE as int } else { 0 }
}

/// The image holds all the banks its header announces.
pub open spec fn image_complete(image: Seq<u8>) -> bool {
    let c = header_cartridge(image);
    image.len() >= prog_start(c) + c.prog_size() + c.ppu_size()
}

/// A size in hexadecimal, at least four digits.
pub open spec fn size_text(n: int) -> Seq<char> {
    pad_zeros(hex_digits(n as nat), 4)
}

impl Cartridge {
    /// The one-line description of the cartridge.
    pub open spec fn text(self) -> Seq<char> {
        "Cartridge "@ + size_text(self.prog_size()) + " kB ROM "@ + size_text(self.ppu_size())
            + " kB VROM "@ + size_text(CHIP_SIZE_RAM * self.num_ram) + " kB RAM"@ + match self.mirror {
            MirrorDirection::Horizontal => " MIRROR_HORIZONTAL"@,
            MirrorDirection::Vertical => " MIRROR_VERTICAL"@,
            MirrorDirection::FourScreen => " FOUR_SCREEN"@,
        } + (if self.has_battery { " BATTERY"@ } else { ""@ }) + (if self.has_trainer {
            " TRAINER"@
        } else {
            ""@
        }) + match self.region {
            CartridgeRegion::PAL => " PAL"@,
            CartridgeRegion::NTSC => " NTSC"@,
        } + " MAPPER: "@ + mapper_name(self.mapper)
    }

    pub fn to_string(&self) -> (r: String)
        requires
            self.num_prog_rom <= 0xff,
            self.num_ppu_vrom <= 0xff,
            self.num_ram <= 0xff,
        ensures
            r@ == self.text(),
    {
        let mut s = String::from_str("Cartridge ");
        push_hex_min4(&mut s, self.get_prog_size());
        s.append(" kB ROM ");
        push_hex_min4(&mut s, self.get_ppu_size());
        s.append(" kB VROM ");
        push_hex_min4(&mut s, self.get_ram_size());
        s.append(" kB RAM");
        match self.mirror {
            MirrorDirection::Horizontal => s.append(" MIRROR_HORIZONTAL"),
            MirrorDirection::Vertical => s.append(" MIRROR_VERTICAL"),
            MirrorDirection::FourScreen => s.append(" FOUR_SCREEN"),
        }
        if self.has_battery {
            s.append(" BATTERY");
        }
        if self.has_trainer {
            s.append(" TRAINER");
        }
        match self.region {
            CartridgeRegion::PAL => s.append(" PAL"),
            CartridgeRegion::NTSC => s.append(" NTSC"),
        }
        s.append(" MAPPER: ");
        s.append(which_mapper(self.mapper));
        proof {
            reveal_strlit("");
        }
        assert(s@ =~= self.text());
        s
    }

    pub open spec fn prog_size(self) -> int {
        CHIP_SIZE_PROG * self.num_prog_rom
    }

    pub open spec fn ppu_size(self) -> int {
        CHIP_SIZE_PPU * self.num_ppu_vrom
    }

    /// Reads the header at the start of `cartridge`; a short, foreign or
    /// unsupported header is a cartridge error.
    pub fn from_header(cartridge: &[u8]) -> (r: IronNesResult<Self>)
        ensures
            header_ok(cartridge@) ==> r == Ok::<Cartridge, IronNesError>(header_cartridge(cartridge@)),
            !header_ok(cartridge@) ==> r matches Err(IronNesError::CartridgeError),
    {
        if cartridge.len() < NES_FILE_HEADER_SIZE {
            return Err(IronNesError::CartridgeError);
        }
        Self::cartridge_header_check(cartridge)?;
        if (cartridge[7] & 0b1110u8) != 0 || (cartridge[9] & 0b11111110u8) != 0 {
            return Err(IronNesError::CartridgeError);
        }
        let h6 = cartridge[6];
        let mirror = if h6 & 0b1000 != 0 {
            MirrorDirection::FourScreen
        } else if h6 & 1 != 0 {
            MirrorDirection::Vertical
        } else {
            MirrorDirection::Horizontal
        };
        let mapper: u8 = (cartridge[7] & 0xf0) | (h6 >> 4);
        if mapper != 0 {
            return Err(IronNesError::CartridgeError);
        }
        let region = if cartridge[9] & 1 == 1 {
            CartridgeRegion::PAL
        } else {
            CartridgeRegion::NTSC
        };
        Ok(Cartridge {
            num_prog_rom: cartridge[4] as usize,
            num_ppu_vrom: cartridge[5] as usize,
            num_ram: cartridge[8] as usize,
            mirror,
            has_battery: h6 & 0b10 != 0,
            has_trainer: h6 & 0b100 != 0,
            mapper,
            region,
        })
    }

    fn cartridge_header_check(cartridge: &[u8]) -> (r: IronNesResult<()>)
        requires
            cartridge@.len() >= 4,
        ensures
            has_magic(cartridge@) ==> r is Ok,
            !has_magic(cartridge@) ==> r matches Err(IronNesError::CartridgeError),
    {
        if cartridge[0] != CARTRIDGE_HEADER[0] || cartridge[1] != CARTRIDGE_HEADER[1]
            || cartridge[2] != CARTRIDGE_HEADER[2] || cartridge[3] != CARTRIDGE_HEADER[3] {
            return Err(IronNesError::CartridgeError);
        }
        Ok(())
    }

    /// Splits a whole cartridge image into its description, its program ROM
    /// and its character ROM. A bad header or an image shorter than the
    /// header announces is a cartridge error.
    pub fn parse(image: &[u8]) -> (r: IronNesResult<(Self, Vec<u8>, Vec<u8>)>)
        ensures
            header_ok(image@) && image_complete(image@) ==> (r matches Ok((c, prog, ppu)) && c
                == header_cartridge(image@) && prog@ == image@.subrange(
                prog_start(c),
                prog_start(c) + c.prog_size(),
            ) && ppu@ == image@.subrange(
                prog_start(c) + c.prog_size(),
                prog_start(c) + c.prog_size() + c.ppu_size(),
            )),
            !(header_ok(image@) && image_complete(image@)) ==> r matches Err(
                IronNesError::CartridgeError,
            ),
    {
        let c = Self::from_header(image)?;
        let start = if c.has_trainer {
            NES_FILE_HEADER_SIZE + TRAINER_SIZE
        } else {
            NES_FILE_HEADER_SIZE
        };
        let prog_size = c.get_prog_size();
        let ppu_size = c.get_ppu_size();
        if image.len() < start || image.len() - start < prog_size || image.len() - start - prog_size < ppu_size {
            return Err(IronNesError::CartridgeError);
        }
        let prog = copy_range(image, start, start + prog_size);
        let ppu = copy_range(image, start + prog_size, start + prog_size + ppu_size);
        Ok((c, prog, ppu))
    }

    pub fn get_prog_size(&self) -> (r: usize)
        requires
            self.num_prog_rom <= 0xff,
        ensures
            r == self.prog_size(),
    {
        CHIP_SIZE_PROG * self.num_prog_rom
    }

    pub fn get_ppu_size(&self) -> (r: usize)
        requires
            self.num_ppu_vrom <= 0xff,
        ensures
            r == self.ppu_size(),
    {
        CHIP_SIZE_PPU * self.num_ppu_vrom
    }

    pub fn get_ram_size(&self) -> (r: usize)
        requires
            self.num_ram <= 0xff,
        ensures
            r == CHIP_SIZE_RAM * self.num_ram,
    {
        CHIP_SIZE_RAM * self.num_ram
    }
}

/// The bytes of `s` from `lo` up to `hi`.
fn copy_range(s: &[u8], lo: usize, hi: usize) -> (r: Vec<u8>)
    requires
        lo <= hi <= s@.len(),
    ensures
        r@ == s@.subrange(lo as int, hi as int),
{
    let mut v: Vec<u8> = Vec::new();
    let mut i = lo;
    while i < hi
        invariant
            lo <= i <= hi,
            hi <= s@.len(),
            v@ == s@.subrange(lo as int, i as int),
        decreases hi - i,
    {
        v.push(s[i]);
        i = i + 1;
        assert(v@ =~= s@.subrange(lo as int, i as int));
    }
    v
}

} // verus!
