use vstd::prelude::*;

use super::register::Registers;
use crate::error::{outcome, Fault, IronNesError, IronNesResult};
use crate::nes::bus::{Bus, BusModel};
use crate::nes::memory::{cpu_load, cpu_load16, load16, Addr};

verus! {

/// How an instruction finds its operand.
#[derive(Clone, Copy, PartialEq, Eq, Structural, Debug)]
pub enum AddressingMode {
    Implied,
    Accumulator,
    Immediate,
    Absolute,
    AbsoluteX,
    AbsoluteY,
    Indirect,
    IndirectX,
    IndirectY,
    ZeroPage,
    ZeroPageX,
    ZeroPageY,
    Relative,
    Illegal,
    Unknown,
}

/// `x` reduced to 16 bits.
pub open spec fn wrap16(x: int) -> Addr {
    (x % 0x10000) as Addr
}

/// The byte `v` read as a signed displacement, extended to 16 bits.
pub open spec fn sign_extend(v: u8) -> u16 {
    if v < 0x80 {
        v as u16
    } else {
        (v + 0xff00) as u16
    }
}

/// A one-byte load through the bus: the bus after it and the byte or the failure.
pub open spec fn load8(b: BusModel, addr: Addr) -> (BusModel, Result<u8, Fault>) {
    (b.after_load(addr as usize), b.load_result(addr as usize))
}

/// The operand of an instruction in `mode` with the registers `r`, with PC
/// already past the instruction: the bus after the reads and the operand
/// (an address, or the value itself for Accumulator and Immediate).
pub open spec fn operand(mode: AddressingMode, r: Registers, b: BusModel) -> (BusModel, Result<u16, Fault>) {
    let one = wrap16(r.pc - 1);
    let two = wrap16(r.pc - 2);
    match mode {
        AddressingMode::Accumulator => (b, Ok(r.a as u16)),
        AddressingMode::Immediate | AddressingMode::ZeroPage => {
            let (b1, v) = load8(b, one);
            (b1, match v { Ok(v) => Ok(v as u16), Err(f) => Err(f) })
        },
        AddressingMode::Absolute => load16(b, two),
        AddressingMode::AbsoluteX | AddressingMode::AbsoluteY => {
            let i = if mode == AddressingMode::AbsoluteX { r.x } else { r.y };
            let (b1, v) = load16(b, two);
            (b1, match v { Ok(v) => Ok(wrap16(v + i)), Err(f) => Err(f) })
        },
        AddressingMode::ZeroPageX | AddressingMode::ZeroPageY => {
            let i = if mode == AddressingMode::ZeroPageX { r.x } else { r.y };
            let (b1, v) = load8(b, one);
            (b1, match v { Ok(v) => Ok(((v + i) % 256) as u16), Err(f) => Err(f) })
        },
        AddressingMode::Indirect => {
            let (b1, v) = load16(b, two);
            match v {
                Ok(p) => load16(b1, p),
                Err(f) => (b1, Err(f)),
            }
        },
        AddressingMode::IndirectX => {
            let (b1, v) = load8(b, one);
            match v {
                Ok(p) => load16(b1, ((p + r.x) % 256) as Addr),
                Err(f) => (b1, Err(f)),
            }
        },
        AddressingMode::IndirectY => {
            let (b1, v) = load8(b, one);
            match v {
                Ok(p) => {
                    let (b2, w) = load16(b1, p as Addr);
                    (b2, match w { Ok(w) => Ok(wrap16(w + r.y)), Err(f) => Err(f) })
                },
                Err(f) => (b1, Err(f)),
            }
        },
        AddressingMode::Relative => {
            let (b1, v) = load8(b, one);
            (b1, match v { Ok(d) => Ok(wrap16(r.pc + sign_extend(d))), Err(f) => Err(f) })
        },
        _ => (b, Err(Fault::Illegal)),
    }
}

/// The mode that a table code names; an unknown code gives `Unknown`.
pub open spec fn mode_of_code(s: Seq<char>) -> AddressingMode {
    if s == "IMP"@ {
        AddressingMode::Implied
    } else if s == "ACC"@ {
        AddressingMode::Accumulator
    } else if s == "IMM"@ {
        AddressingMode::Immediate
    } else if s == "ABS"@ {
        AddressingMode::Absolute
    } else if s == "ABSX"@ {
        AddressingMode::AbsoluteX
    } else if s == "ABSY"@ {
        AddressingMode::AbsoluteY
    } else if s == "IND"@ {
        AddressingMode::Indirect
    } else if s == "INDX"@ {
        AddressingMode::IndirectX
    } else if s == "INDY"@ {
        AddressingMode::IndirectY
    } else if s == "ZP"@ {
        AddressingMode::ZeroPage
    } else if s == "ZPX"@ {
        AddressingMode::ZeroPageX
    } else if s == "ZPY"@ {
        AddressingMode::ZeroPageY
    } else if s == "REL"@ {
        AddressingMode::Relative
    } else if s == "ILL"@ {
        AddressingMode::Illegal
    } else {
        AddressingMode::Unknown
    }
}

fn str_eq(a: &str, b: &str) -> (r: bool)
    ensures
        r == (a@ == b@),
{
    let n = a.unicode_len();
    if n != b.unicode_len() {
        return false;
    }
    let mut i: usize = 0;
    while i < n
        invariant
            n == a@.len(),
            n == b@.len(),
            i <= n,
            forall|j: int| 0 <= j < i ==> a@[j] == b@[j],
        decreases n - i,
    {
        if a.get_char(i) != b.get_char(i) {
            return false;
        }
        i = i + 1;
    }
    assert(a@ =~= b@);
    true
}

impl AddressingMode {
    /// Reads a mode from its table code (`IMP`, `ACC`, `IMM`, `ABS`, `ABSX`,
    /// `ABSY`, `IND`, `INDX`, `INDY`, `ZP`, `ZPX`, `ZPY`, `REL`, `ILL`).
    pub fn from_code(input: &str) -> (r: AddressingMode)
        ensures
            r == mode_of_code(input@),
    {
        if str_eq(input, "IMP") {
            AddressingMode::Implied
        } else if str_eq(input, "ACC") {
            AddressingMode::Accumulator
        } else if str_eq(input, "IMM") {
            AddressingMode::Immediate
        } else if str_eq(input, "ABS") {
            AddressingMode::Absolute
        } else if str_eq(input, "ABSX") {
            AddressingMode::AbsoluteX
        } else if str_eq(input, "ABSY") {
            AddressingMode::AbsoluteY
        } else if str_eq(input, "IND") {
            AddressingMode::Indirect
        } else if str_eq(input, "INDX") {
            AddressingMode::IndirectX
        } else if str_eq(input, "INDY") {
            AddressingMode::IndirectY
        } else if str_eq(input, "ZP") {
            AddressingMode::ZeroPage
        } else if str_eq(input, "ZPX") {
            AddressingMode::ZeroPageX
        } else if str_eq(input, "ZPY") {
            AddressingMode::ZeroPageY
        } else if str_eq(input, "REL") {
            AddressingMode::Relative
        } else if str_eq(input, "ILL") {
            AddressingMode::Illegal
        } else {
            AddressingMode::Unknown
        }
    }

    /// Resolves the operand of an instruction in this mode; see `operand`.
    pub fn load_operand(&self, reg: &Registers, bus: &mut Bus) -> (r: IronNesResult<u16>)
        ensures
            (final(bus)@, outcome(r)) == operand(*self, *reg, old(bus)@),
    {
        let one = reg.pc.wrapping_sub(1);
        let two = reg.pc.wrapping_sub(2);
        match self {
            AddressingMode::Accumulator => Ok(reg.a as u16),
            AddressingMode::Immediate | AddressingMode::ZeroPage => Ok(cpu_load(bus, one)? as u16),
            AddressingMode::Absolute => cpu_load16(bus, two),
            AddressingMode::AbsoluteX => Ok(cpu_load16(bus, two)?.wrapping_add(reg.x as u16)),
            AddressingMode::AbsoluteY => Ok(cpu_load16(bus, two)?.wrapping_add(reg.y as u16)),
            AddressingMode::ZeroPageX => Ok(cpu_load(bus, one)?.wrapping_add(reg.x) as u16),
            AddressingMode::ZeroPageY => Ok(cpu_load(bus, one)?.wrapping_add(reg.y) as u16),
            AddressingMode::Indirect => {
                let imm: Addr = cpu_load16(bus, two)?;
                cpu_load16(bus, imm)
            },
            AddressingMode::IndirectX => {
                let p = cpu_load(bus, one)?.wrapping_add(reg.x);
                cpu_load16(bus, p as Addr)
            },
            AddressingMode::IndirectY => {
                let p = cpu_load(bus, one)?;
                Ok(cpu_load16(bus, p as Addr)?.wrapping_add(reg.y as Addr))
            },
            AddressingMode::Relative => {
                let d = cpu_load(bus, one)?;
                // the displacement is a signed byte
                let x: u16 = if d < 0x80 {
                    d as u16
                } else {
                    d as u16 + 0xff00
                };
                Ok(reg.pc.wrapping_add(x))
            },
            _ => Err(IronNesError::IllegalInstruction),
        }
    }
}

impl core::str::FromStr for AddressingMode {
    type Err = ();

    fn from_str(input: &str) -> (r: Result<Self, Self::Err>)
        ensures
            r == Ok::<AddressingMode, ()>(mode_of_code(input@)),
    {
        Ok(AddressingMode::from_code(input))
    }
}

} // verus!
