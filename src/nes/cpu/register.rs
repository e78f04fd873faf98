use vstd::prelude::*;

use crate::bitset::{bit_is_set, with_bit, BitSet};
use crate::nes::memory::Addr;
use crate::text::{hex_byte, hex_word, push_hex_byte, push_hex_word};

verus! {

/// The flags of the status register.
#[derive(Clone, Copy, PartialEq, Eq, Structural, Debug)]
pub enum Flags {
    /// Carry
    C,
    /// Zero
    Z,
    /// Interrupts disabled
    I,
    /// Decimal
    D,
    /// BRK (executing an interrupt)
    B,
    /// oVerflow
    V,
    /// Negative
    N,
}

impl Flags {
    /// The bit of the status byte that holds the flag.
    pub open spec fn bit(self) -> u8 {
        match self {
            Flags::C => 0,
            Flags::Z => 1,
            Flags::I => 2,
            Flags::D => 3,
            Flags::B => 4,
            Flags::V => 6,
            Flags::N => 7,
        }
    }

    pub fn index(&self) -> (r: u8)
        ensures
            r == self.bit(),
            r < 8,
    {
        match self {
            Flags::C => 0,
            Flags::Z => 1,
            Flags::I => 2,
            Flags::D => 3,
            Flags::B => 4,
            Flags::V => 6,
            Flags::N => 7,
        }
    }
}

/// The status byte at power-on: interrupts disabled, and the unused bit 5 set.
pub const P_DEFAULT: u8 = 0b00100100;

/// The CPU registers.
#[derive(Clone, Copy, PartialEq, Eq, Structural)]
pub struct Registers {
    pub pc: Addr,
    /// Offset of the top of the stack in the stack page; only the low byte is used.
    pub sp: Addr,
    pub a: u8,
    pub x: u8,
    pub y: u8,
    pub flags: BitSet,
}

impl Registers {
    pub open spec fn status(self) -> u8 {
        self.flags@
    }

    pub open spec fn flag(self, f: Flags) -> bool {
        bit_is_set(self.flags@, f.bit())
    }

    /// The registers with flag `f` set to `s`.
    pub open spec fn with_flag(self, f: Flags, s: bool) -> Registers {
        Registers { flags: BitSet(with_bit(self.flags@, f.bit(), s)), ..self }
    }

    /// The registers with N and Z describing the byte `v`.
    pub open spec fn with_nz(self, v: u8) -> Registers {
        self.with_flag(Flags::N, v >= 0x80).with_flag(Flags::Z, v == 0)
    }

    /// The power-on registers.
    pub open spec fn power_on() -> Registers {
        Registers { pc: 0xc000, sp: 0xfd, a: 0, x: 0, y: 0, flags: BitSet(P_DEFAULT) }
    }

    pub fn new() -> (r: Self)
        ensures
            r == Registers::power_on(),
    {
        Self { pc: 0xc000, sp: 0xfd, a: 0, x: 0, y: 0, flags: BitSet::new(P_DEFAULT) }
    }

    pub fn get_status(&self) -> (r: u8)
        ensures
            r == self.status(),
    {
        self.flags.cast()
    }

    pub fn set_status(&mut self, s: u8)
        ensures
            *final(self) == (Registers { flags: BitSet(s), ..*old(self) }),
    {
        self.flags = BitSet::new(s)
    }

    /// N takes bit 7 of `x`.
    pub fn set_n(&mut self, x: u16)
        ensures
            *final(self) == old(self).with_flag(Flags::N, x % 256 >= 0x80),
    {
        self.set_flag(Flags::N, x % 256 >= 0x80);
    }

    /// Z tells whether `x` is zero.
    pub fn set_z(&mut self, x: u16)
        ensures
            *final(self) == old(self).with_flag(Flags::Z, x == 0),
    {
        self.set_flag(Flags::Z, x == 0);
    }

    pub fn get_flag(&self, f: Flags) -> (r: bool)
        ensures
            r == self.flag(f),
    {
        self.flags.get(f.index())
    }

    pub fn set_flag(&mut self, f: Flags, s: bool)
        ensures
            *final(self) == old(self).with_flag(f, s),
    {
        self.flags.set(f.index(), if s { 1 } else { 0 });
        assert((1u8 & 1u8) == 1u8 && (0u8 & 1u8) == 0u8) by (bit_vector);
    }

    pub fn clear_status(&mut self)
        ensures
            *final(self) == (Registers { flags: BitSet(P_DEFAULT), ..*old(self) }),
    {
        self.flags = BitSet::new(P_DEFAULT);
    }

    /// The registers as `PC pppp SP ss A aa X xx Y yy P pp`, in hexadecimal;
    /// the stack pointer shows its low byte.
    pub open spec fn text(self) -> Seq<char> {
        "PC "@ + hex_word(self.pc) + " SP "@ + hex_byte((self.sp % 256) as u8) + " A "@
            + hex_byte(self.a) + " X "@ + hex_byte(self.x) + " Y "@ + hex_byte(self.y)
            + " P "@ + hex_byte(self.status())
    }

    pub fn to_string(&self) -> (r: String)
        ensures
            r@ == self.text(),
    {
        let mut s = String::from_str("PC ");
        push_hex_word(&mut s, self.pc);
        s.append(" SP ");
        push_hex_byte(&mut s, (self.sp % 256) as u8);
        s.append(" A ");
        push_hex_byte(&mut s, self.a);
        s.append(" X ");
        push_hex_byte(&mut s, self.x);
        s.append(" Y ");
        push_hex_byte(&mut s, self.y);
        s.append(" P ");
        push_hex_byte(&mut s, self.get_status());
        assert(s@ =~= self.text());
        s
    }
}

} // verus!
