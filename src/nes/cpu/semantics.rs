use vstd::prelude::*;

use super::addressing::{load8, operand, wrap16, AddressingMode};
use super::instruction::{decode_spec, mode_len, Op};
use super::register::{Flags, Registers};
use crate::error::Fault;
use crate::nes::bus::BusModel;
use crate::nes::memory::{load16, pop, pop_addr, push, push_addr, Addr, STACK_TOP};

verus! {

/// The CPU state: its registers and the cycles spent so far.
#[derive(Clone, Copy, PartialEq, Eq, Structural)]
pub struct Cpu {
    pub cycle: usize,
    pub registers: Registers,
}

/// The counter stays this far from the largest `usize`.
pub const CYCLE_LIMIT: usize = usize::MAX - 0x100;

/// The kinds of interrupt.
#[derive(Clone, Copy, PartialEq, Eq, Structural, Debug)]
pub enum InterruptType {
    BRK,
    NMI,
    IRQ,
}

pub const ADDR_IRQ: Addr = 0xFFFE;
pub const ADDR_NMI: Addr = 0xFFFA;
pub const ADDR_RESET: Addr = 0xFFFC;

/// The state after some work: the CPU, the bus, and a value or a failure.
pub type Run<T> = (Cpu, BusModel, Result<T, Fault>);

impl Cpu {
    /// The stack pointer stays in the stack page.
    pub open spec fn wf(self) -> bool {
        self.registers.sp <= STACK_TOP
    }

    pub open spec fn with_regs(self, r: Registers) -> Cpu {
        Cpu { registers: r, ..self }
    }

    pub open spec fn plus(self, n: int) -> Cpu {
        Cpu { cycle: (self.cycle + n) as usize, ..self }
    }
}

/// A one-byte store through the bus.
pub open spec fn store8(b: BusModel, addr: Addr, v: u8) -> (BusModel, Result<(), Fault>) {
    (b.after_store(addr as usize, v), b.store_result(addr as usize))
}

/// The extra cycle that an instruction which may cross a page pays when the
/// operand address `addr` is on another page than its base: the PC for a
/// branch, the address before indexing for the indexed modes.
pub open spec fn penalty(r: Registers, mode: AddressingMode, cross: bool, addr: Addr) -> int {
    if !cross {
        0
    } else {
        let src = match mode {
            AddressingMode::Relative => r.pc,
            AddressingMode::AbsoluteX => wrap16(addr - r.x),
            AddressingMode::AbsoluteY | AddressingMode::IndirectY => wrap16(addr - r.y),
            _ => addr,
        };
        if src / 256 != addr / 256 {
            1
        } else {
            0
        }
    }
}

pub open spec fn pay(c: Cpu, mode: AddressingMode, cross: bool, addr: Addr) -> Cpu {
    c.plus(penalty(c.registers, mode, cross, addr))
}

/// Whether the operand of `mode` lies in memory rather than in the instruction.
pub open spec fn in_memory(mode: AddressingMode) -> bool {
    match mode {
        AddressingMode::Absolute | AddressingMode::AbsoluteX | AddressingMode::AbsoluteY
        | AddressingMode::ZeroPage | AddressingMode::ZeroPageX | AddressingMode::ZeroPageY
        | AddressingMode::Indirect | AddressingMode::IndirectX | AddressingMode::IndirectY => true,
        _ => false,
    }
}

/// The value of the operand resolved to `addr`, after paying any page cross.
pub open spec fn fetch(c: Cpu, mode: AddressingMode, cross: bool, b: BusModel, addr: Addr) -> Run<u8> {
    let c1 = pay(c, mode, cross, addr);
    if in_memory(mode) {
        let (b1, v) = load8(b, addr);
        (c1, b1, v)
    } else {
        (c1, b, Ok((addr % 256) as u8))
    }
}

/// The address and the value of the operand.
pub open spec fn read(c: Cpu, mode: AddressingMode, cross: bool, b: BusModel) -> Run<(Addr, u8)> {
    let (b1, ra) = operand(mode, c.registers, b);
    match ra {
        Err(f) => (c, b1, Err(f)),
        Ok(a) => {
            let (c2, b2, rv) = fetch(c, mode, cross, b1, a);
            match rv {
                Err(f) => (c2, b2, Err(f)),
                Ok(v) => (c2, b2, Ok((a, v))),
            }
        },
    }
}

/// Loads the operand and sets N and Z from it.
pub open spec fn ld(c: Cpu, mode: AddressingMode, cross: bool, b: BusModel) -> Run<u8> {
    let (c1, b1, r) = read(c, mode, cross, b);
    match r {
        Err(f) => (c1, b1, Err(f)),
        Ok((_, v)) => (c1.with_regs(c1.registers.with_nz(v)), b1, Ok(v)),
    }
}

/// The registers after a load into the register(s) of `op`.
pub open spec fn load_into(op: Op, r: Registers, v: u8) -> Registers {
    match op {
        Op::Lda => Registers { a: v, ..r },
        Op::Ldx => Registers { x: v, ..r },
        Op::Ldy => Registers { y: v, ..r },
        _ => Registers { a: v, x: v, ..r },
    }
}

pub open spec fn load_op(op: Op, c: Cpu, mode: AddressingMode, cross: bool, b: BusModel) -> Run<()> {
    let (c1, b1, r) = ld(c, mode, cross, b);
    match r {
        Err(f) => (c1, b1, Err(f)),
        Ok(v) => (c1.with_regs(load_into(op, c1.registers, v)), b1, Ok(())),
    }
}

/// Stores `v` at the operand address.
pub open spec fn store_op(c: Cpu, mode: AddressingMode, b: BusModel, v: u8) -> Run<()> {
    let (b1, ra) = operand(mode, c.registers, b);
    match ra {
        Err(f) => (c, b1, Err(f)),
        Ok(a) => {
            let (b2, r) = store8(b1, a, v);
            (c, b2, r)
        },
    }
}

/// The bitwise operations of AND, ORA and EOR.
pub open spec fn logic(op: Op, a: u8, v: u8) -> u8 {
    match op {
        Op::And => a & v,
        Op::Ora => a | v,
        _ => a ^ v,
    }
}

/// AND, ORA, EOR: the accumulator combined with the operand.
pub open spec fn logic_op(op: Op, c: Cpu, mode: AddressingMode, cross: bool, b: BusModel) -> Run<()> {
    let (c1, b1, r) = read(c, mode, cross, b);
    match r {
        Err(f) => (c1, b1, Err(f)),
        Ok((_, v)) => {
            let res = logic(op, c1.registers.a, v);
            (c1.with_regs(Registers { a: res, ..c1.registers }.with_nz(res)), b1, Ok(()))
        },
    }
}

/// The flags of a comparison of `src` with `v`: C when `src >= v`, N from
/// bit 7 of the difference, Z when equal.
pub open spec fn compared(r: Registers, src: u8, v: u8) -> Registers {
    r.with_flag(Flags::C, src >= v).with_flag(Flags::N, (src - v) % 256 >= 0x80).with_flag(
        Flags::Z,
        src == v,
    )
}

pub open spec fn compare(c: Cpu, mode: AddressingMode, cross: bool, b: BusModel, src: u8) -> Run<()> {
    let (c1, b1, r) = read(c, mode, cross, b);
    match r {
        Err(f) => (c1, b1, Err(f)),
        Ok((_, v)) => (c1.with_regs(compared(c1.registers, src, v)), b1, Ok(())),
    }
}

/// Binary addition of the operand and the carry to the accumulator; the
/// decimal flag changes nothing.
pub open spec fn added(r: Registers, v: u8) -> Registers {
    let a = r.a;
    let sum = a + v + (if r.flag(Flags::C) { 1int } else { 0 });
    let res = (sum % 256) as u8;
    let overflow = (a < 0x80) == (v < 0x80) && (a < 0x80) != (res < 0x80);
    Registers { a: res, ..r }.with_flag(Flags::Z, res == 0).with_flag(Flags::C, sum > 0xff).with_flag(
        Flags::V,
        overflow,
    ).with_flag(Flags::N, res >= 0x80)
}

/// Binary subtraction of the operand and the borrow (the clear carry) from
/// the accumulator.
pub open spec fn subtracted(r: Registers, v: u8) -> Registers {
    let a = r.a;
    let diff = a - v - (if r.flag(Flags::C) { 0int } else { 1 });
    let res = (if diff >= 0 { diff } else { diff + 256 }) as u8;
    let overflow = (a < 0x80) != (v < 0x80) && (a < 0x80) != (res < 0x80);
    Registers { a: res, ..r }.with_flag(Flags::Z, res == 0).with_flag(Flags::C, diff >= 0).with_flag(
        Flags::V,
        overflow,
    ).with_flag(Flags::N, res >= 0x80)
}

pub open spec fn adc(c: Cpu, mode: AddressingMode, cross: bool, b: BusModel) -> Run<()> {
    let (c1, b1, r) = read(c, mode, cross, b);
    match r {
        Err(f) => (c1, b1, Err(f)),
        Ok((_, v)) => (c1.with_regs(added(c1.registers, v)), b1, Ok(())),
    }
}

pub open spec fn sbc(c: Cpu, mode: AddressingMode, cross: bool, b: BusModel) -> Run<()> {
    let (c1, b1, r) = read(c, mode, cross, b);
    match r {
        Err(f) => (c1, b1, Err(f)),
        Ok((_, v)) => (c1.with_regs(subtracted(c1.registers, v)), b1, Ok(())),
    }
}

/// INC and DEC on memory: the operand plus `amt` (1 or -1), modulo 256,
/// with N and Z, stored back.
pub open spec fn step_mem(c: Cpu, mode: AddressingMode, cross: bool, b: BusModel, amt: int) -> Run<()> {
    let (c1, b1, r) = read(c, mode, cross, b);
    match r {
        Err(f) => (c1, b1, Err(f)),
        Ok((a, v)) => {
            let res = ((v + amt) % 256) as u8;
            let (b2, rs) = store8(b1, a, res);
            (c1.with_regs(c1.registers.with_nz(res)), b2, rs)
        },
    }
}

/// The kinds of shift and rotate.
pub open spec fn shifted(op: Op, v: u8, carry: bool) -> (u8, bool) {
    match op {
        Op::Asl => (((v * 2) % 256) as u8, v >= 0x80),
        Op::Lsr => ((v / 2) as u8, v % 2 == 1),
        Op::Rol => (((v * 2 + (if carry { 1int } else { 0 })) % 256) as u8, v >= 0x80),
        _ => ((v / 2 + (if carry { 0x80int } else { 0 })) as u8, v % 2 == 1),
    }
}

/// ASL, LSR, ROL, ROR: on the accumulator or on memory.
pub open spec fn shift_op(op: Op, c: Cpu, mode: AddressingMode, cross: bool, b: BusModel) -> Run<()> {
    let (c1, b1, r) = read(c, mode, cross, b);
    match r {
        Err(f) => (c1, b1, Err(f)),
        Ok((a, v)) => {
            let (res, carry) = shifted(op, v, c1.registers.flag(Flags::C));
            let regs = c1.registers.with_flag(Flags::C, carry).with_nz(res);
            if mode == AddressingMode::Accumulator {
                (c1.with_regs(Registers { a: res, ..regs }), b1, Ok(()))
            } else {
                let (b2, rs) = store8(b1, a, res);
                (c1.with_regs(regs), b2, rs)
            }
        },
    }
}

/// Two operations in a row on the same operand; the second runs only if
/// the first succeeded.
pub open spec fn chain(first: Run<()>, second: Run<()>) -> Run<()> {
    match first.2 {
        Err(_) => first,
        Ok(_) => second,
    }
}

/// A conditional branch: taken when `flag` equals `state`, at the cost of a
/// cycle and of one more when the target is on another page.
pub open spec fn branch(c: Cpu, mode: AddressingMode, cross: bool, b: BusModel, flag: Flags, state: bool) -> Run<()> {
    if c.registers.flag(flag) != state {
        (c, b, Ok(()))
    } else {
        let (b1, ra) = operand(mode, c.registers, b);
        match ra {
            Err(f) => (c, b1, Err(f)),
            Ok(dest) => {
                let c2 = pay(c.plus(1), mode, cross, dest);
                (c2.with_regs(Registers { pc: dest, ..c2.registers }), b1, Ok(()))
            },
        }
    }
}

/// The vector that an interrupt loads its PC from.
pub open spec fn vector(t: InterruptType) -> Addr {
    match t {
        InterruptType::NMI => ADDR_NMI,
        _ => ADDR_IRQ,
    }
}

/// BRK, NMI and IRQ: an IRQ with interrupts disabled does nothing; else the
/// return address (past the padding byte for BRK) and the status (with B
/// set for BRK only) are pushed, interrupts are disabled, and PC is loaded
/// from the vector.
pub open spec fn interrupt(c: Cpu, b: BusModel, t: InterruptType) -> Run<()> {
    if c.registers.flag(Flags::I) && t == InterruptType::IRQ {
        (c, b, Ok(()))
    } else {
        let pc = if t == InterruptType::BRK {
            wrap16(c.registers.pc + 1)
        } else {
            c.registers.pc
        };
        let (b1, sp1, r1) = push_addr(b, c.registers.sp, pc);
        let c1 = c.with_regs(Registers { sp: sp1, ..c.registers });
        match r1 {
            Err(f) => (c1, b1, Err(f)),
            Ok(_) => {
                let regs2 = c1.registers.with_flag(Flags::B, t == InterruptType::BRK);
                let (b2, sp2, r2) = push(b1, sp1, regs2.status());
                let regs3 = Registers { sp: sp2, ..regs2 };
                match r2 {
                    Err(f) => (c1.with_regs(regs3), b2, Err(f)),
                    Ok(_) => {
                        let regs4 = regs3.with_flag(Flags::I, true);
                        let (b3, rv) = load16(b2, vector(t));
                        match rv {
                            Err(f) => (c1.with_regs(regs4), b3, Err(f)),
                            Ok(a) => (c1.with_regs(Registers { pc: a, ..regs4 }), b3, Ok(())),
                        }
                    },
                }
            },
        }
    }
}

/// The status after a pull: bits 4 and 5 keep their value, the others come
/// from the stack.
pub open spec fn pulled_status(old: u8, v: u8) -> u8 {
    (v & 0b11001111) | (old & 0b00110000)
}

pub open spec fn pull_status(c: Cpu, b: BusModel) -> Run<()> {
    let (b1, sp1, r) = pop(b, c.registers.sp);
    let regs = Registers { sp: sp1, ..c.registers };
    match r {
        Err(f) => (c.with_regs(regs), b1, Err(f)),
        Ok(v) => (
            c.with_regs(Registers { flags: crate::bitset::BitSet(pulled_status(regs.status(), v)), ..regs }),
            b1,
            Ok(()),
        ),
    }
}

pub open spec fn rti(c: Cpu, b: BusModel) -> Run<()> {
    let (c1, b1, r) = pull_status(c, b);
    match r {
        Err(f) => (c1, b1, Err(f)),
        Ok(_) => {
            let (b2, sp2, ra) = pop_addr(b1, c1.registers.sp);
            let regs = Registers { sp: sp2, ..c1.registers };
            match ra {
                Err(f) => (c1.with_regs(regs), b2, Err(f)),
                Ok(a) => (c1.with_regs(Registers { pc: a, ..regs }), b2, Ok(())),
            }
        },
    }
}

pub open spec fn rts(c: Cpu, b: BusModel) -> Run<()> {
    let (b1, sp1, ra) = pop_addr(b, c.registers.sp);
    let regs = Registers { sp: sp1, ..c.registers };
    match ra {
        Err(f) => (c.with_regs(regs), b1, Err(f)),
        Ok(a) => (c.with_regs(Registers { pc: wrap16(a + 1), ..regs }), b1, Ok(())),
    }
}

pub open spec fn push_byte(c: Cpu, b: BusModel, v: u8) -> Run<()> {
    let (b1, sp1, r) = push(b, c.registers.sp, v);
    (c.with_regs(Registers { sp: sp1, ..c.registers }), b1, r)
}

pub open spec fn pla(c: Cpu, b: BusModel) -> Run<()> {
    let (b1, sp1, r) = pop(b, c.registers.sp);
    let regs = Registers { sp: sp1, ..c.registers };
    match r {
        Err(f) => (c.with_regs(regs), b1, Err(f)),
        Ok(v) => (c.with_regs(Registers { a: v, ..regs }.with_nz(v)), b1, Ok(())),
    }
}

/// JSR: the address of its last byte is pushed, then PC jumps.
pub open spec fn jsr(c: Cpu, mode: AddressingMode, b: BusModel) -> Run<()> {
    let (b1, sp1, r1) = push_addr(b, c.registers.sp, wrap16(c.registers.pc - 1));
    let c1 = c.with_regs(Registers { sp: sp1, ..c.registers });
    match r1 {
        Err(f) => (c1, b1, Err(f)),
        Ok(_) => jmp(c1, mode, b1),
    }
}

pub open spec fn jmp(c: Cpu, mode: AddressingMode, b: BusModel) -> Run<()> {
    let (b1, ra) = operand(mode, c.registers, b);
    match ra {
        Err(f) => (c, b1, Err(f)),
        Ok(a) => (c.with_regs(Registers { pc: a, ..c.registers }), b1, Ok(())),
    }
}

/// A register-only instruction.
pub open spec fn regs_only(c: Cpu, b: BusModel, r: Registers) -> Run<()> {
    (c.with_regs(r), b, Ok(()))
}

/// The register-only instructions: transfers, increments and flag changes.
pub open spec fn implied(op: Op, r: Registers) -> Registers {
    match op {
        Op::Tax => Registers { x: r.a, ..r.with_nz(r.a) },
        Op::Tay => Registers { y: r.a, ..r.with_nz(r.a) },
        Op::Tsx => Registers { x: (r.sp % 256) as u8, ..r.with_nz((r.sp % 256) as u8) },
        Op::Txa => Registers { a: r.x, ..r.with_nz(r.x) },
        Op::Tya => Registers { a: r.y, ..r.with_nz(r.y) },
        Op::Txs => Registers { sp: r.x as u16, ..r },
        Op::Inx => Registers { x: ((r.x + 1) % 256) as u8, ..r.with_nz(((r.x + 1) % 256) as u8) },
        Op::Iny => Registers { y: ((r.y + 1) % 256) as u8, ..r.with_nz(((r.y + 1) % 256) as u8) },
        Op::Dex => Registers { x: ((r.x + 255) % 256) as u8, ..r.with_nz(((r.x + 255) % 256) as u8) },
        Op::Dey => Registers { y: ((r.y + 255) % 256) as u8, ..r.with_nz(((r.y + 255) % 256) as u8) },
        Op::Sec => r.with_flag(Flags::C, true),
        Op::Sed => r.with_flag(Flags::D, true),
        Op::Sei => r.with_flag(Flags::I, true),
        Op::Clc => r.with_flag(Flags::C, false),
        Op::Cld => r.with_flag(Flags::D, false),
        Op::Cli => r.with_flag(Flags::I, false),
        _ => r.with_flag(Flags::V, false),
    }
}

pub open spec fn bit(c: Cpu, mode: AddressingMode, b: BusModel) -> Run<()> {
    let (b1, ra) = operand(mode, c.registers, b);
    match ra {
        Err(f) => (c, b1, Err(f)),
        Ok(a) => {
            let (b2, rv) = load8(b1, a);
            match rv {
                Err(f) => (c, b2, Err(f)),
                Ok(v) => (
                    c.with_regs(
                        c.registers.with_flag(Flags::Z, c.registers.a & v == 0).with_flag(
                            Flags::V,
                            v & 0x40 != 0,
                        ).with_flag(Flags::N, v & 0x80 != 0),
                    ),
                    b2,
                    Ok(()),
                ),
            }
        },
    }
}

pub open spec fn nop(c: Cpu, mode: AddressingMode, cross: bool, b: BusModel) -> Run<()> {
    if mode != AddressingMode::AbsoluteX {
        (c, b, Ok(()))
    } else {
        let (b1, ra) = operand(mode, c.registers, b);
        match ra {
            Err(f) => (c, b1, Err(f)),
            Ok(a) => (pay(c, mode, cross, a), b1, Ok(())),
        }
    }
}

/// What the instruction `op` does, its operand found in `mode`.
#[verifier::opaque]
pub open spec fn execute(op: Op, c: Cpu, mode: AddressingMode, cross: bool, b: BusModel) -> Run<()> {
    let r = c.registers;
    match op {
        Op::Nop => nop(c, mode, cross, b),
        Op::Brk => interrupt(c, b, InterruptType::BRK),
        Op::Cmp => compare(c, mode, cross, b, r.a),
        Op::Cpx => compare(c, mode, cross, b, r.x),
        Op::Cpy => compare(c, mode, cross, b, r.y),
        Op::Bcc => branch(c, mode, cross, b, Flags::C, false),
        Op::Bcs => branch(c, mode, cross, b, Flags::C, true),
        Op::Beq => branch(c, mode, cross, b, Flags::Z, true),
        Op::Bmi => branch(c, mode, cross, b, Flags::N, true),
        Op::Bne => branch(c, mode, cross, b, Flags::Z, false),
        Op::Bpl => branch(c, mode, cross, b, Flags::N, false),
        Op::Bvc => branch(c, mode, cross, b, Flags::V, false),
        Op::Bvs => branch(c, mode, cross, b, Flags::V, true),
        Op::Rti => rti(c, b),
        Op::Adc => adc(c, mode, cross, b),
        Op::Sbc => sbc(c, mode, cross, b),
        Op::Inc => step_mem(c, mode, cross, b, 1),
        Op::Dec => step_mem(c, mode, cross, b, -1),
        Op::Dcp => {
            let first = step_mem(c, mode, cross, b, -1);
            chain(first, compare(first.0, mode, cross, first.1, first.0.registers.a))
        },
        Op::Isc => {
            let first = step_mem(c, mode, cross, b, 1);
            chain(first, sbc(first.0, mode, cross, first.1))
        },
        Op::And | Op::Ora | Op::Eor => logic_op(op, c, mode, cross, b),
        Op::Bit => bit(c, mode, b),
        Op::Jsr => jsr(c, mode, b),
        Op::Jmp => jmp(c, mode, b),
        Op::Lda | Op::Ldx | Op::Ldy | Op::Lax => load_op(op, c, mode, cross, b),
        Op::Asl | Op::Lsr | Op::Rol | Op::Ror => shift_op(op, c, mode, cross, b),
        Op::Pha => push_byte(c, b, r.a),
        Op::Php => push_byte(c, b, r.status() | 0b00110000),
        Op::Pla => pla(c, b),
        Op::Plp => pull_status(c, b),
        Op::Rts => rts(c, b),
        Op::Sax => store_op(c, mode, b, r.a & r.x),
        Op::Sta => store_op(c, mode, b, r.a),
        Op::Stx => store_op(c, mode, b, r.x),
        Op::Sty => store_op(c, mode, b, r.y),
        Op::Slo => {
            let first = shift_op(Op::Asl, c, mode, cross, b);
            chain(first, logic_op(Op::Ora, first.0, mode, cross, first.1))
        },
        Op::Rla => {
            let first = shift_op(Op::Rol, c, mode, cross, b);
            chain(first, logic_op(Op::And, first.0, mode, cross, first.1))
        },
        Op::Sre => {
            let first = shift_op(Op::Lsr, c, mode, cross, b);
            chain(first, logic_op(Op::Eor, first.0, mode, cross, first.1))
        },
        Op::Rra => {
            let first = shift_op(Op::Ror, c, mode, cross, b);
            chain(first, adc(first.0, mode, cross, first.1))
        },
        Op::Illegal => (c, b, Err(Fault::Illegal)),
        _ => regs_only(c, b, implied(op, r)),
    }
}

/// One instruction: fetch the opcode at PC, look it up, charge its cycles,
/// move PC past it, and execute it. The result is the opcode.
pub open spec fn step(c: Cpu, b: BusModel) -> Run<u8> {
    let (b1, ro) = load8(b, c.registers.pc);
    match ro {
        Err(f) => (c, b1, Err(f)),
        Ok(opcode) => {
            let info = decode_spec(opcode);
            let c1 = c.plus(info.cycles as int).with_regs(
                Registers { pc: wrap16(c.registers.pc + mode_len(info.mode)), ..c.registers },
            );
            let (c2, b2, r) = execute(info.op, c1, info.mode, info.cross, b1);
            (c2, b2, match r {
                Ok(_) => Ok(opcode),
                Err(f) => Err(f),
            })
        },
    }
}

/// `n` instructions in a row, stopping at the first that fails.
pub open spec fn steps(c: Cpu, b: BusModel, n: nat) -> Run<()>
    decreases n,
{
    if n == 0 {
        (c, b, Ok(()))
    } else {
        let (c1, b1, r1) = steps(c, b, (n - 1) as nat);
        match r1 {
            Err(f) => (c1, b1, Err(f)),
            Ok(_) => {
                let (c2, b2, r2) = step(c1, b1);
                (c2, b2, match r2 {
                    Ok(_) => Ok(()),
                    Err(f) => Err(f),
                })
            },
        }
    }
}

} // verus!
