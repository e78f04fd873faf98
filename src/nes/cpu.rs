use vstd::prelude::*;

pub mod addressing;
pub mod instruction;
pub mod register;
pub mod semantics;

use crate::error::{outcome, Fault, IronNesError, IronNesResult};
use crate::nes::bus::{Bus, BusModel};
use crate::nes::memory::{
    cpu_load, cpu_load16, cpu_store, load16, stack_pop, stack_pop_addr, stack_push,
    stack_push_addr, Addr,
};
use addressing::{load8, AddressingMode};
use instruction::{
    decode, decode_spec, disasm, display_name, lemma_decode_total, operand_bytes, Instruction, Op,
};
use crate::text::{decimal, hex_word, pad_right, pad_to, push_decimal, push_hex_word};
pub use register::{Flags, Registers};
pub use semantics::{Cpu, InterruptType, CYCLE_LIMIT};
use semantics::{
    adc, bit, branch, compare, execute, fetch, implied, interrupt, jmp, jsr, ld, load_op,
    logic_op, nop, pay, pla, pull_status, push_byte, read, rti, rts, shift_op,
    sbc, step_mem, store_op, chain, regs_only, Run,
};

verus! {

/// A handler ended in the state `s` describes, keeping the stack pointer in
/// its page and spending at most `n` cycles beyond those of the opcode.
pub open spec fn handled(c0: Cpu, c: Cpu, b: BusModel, r: IronNesResult<()>, s: Run<()>, n: int) -> bool {
    &&& (c, b, outcome(r)) == s
    &&& c.wf()
    &&& c0.cycle <= c.cycle <= c0.cycle + n
}

/// A trace line: PC, the disassembly `dis` padded to 28 columns, the
/// registers, and the cycles spent.
pub open spec fn state_line(c: Cpu, dis: Seq<char>) -> Seq<char> {
    hex_word(c.registers.pc) + " "@ + pad_right(dis, 28) + " "@ + c.registers.text() + " CYC "@
        + decimal(c.cycle as nat)
}

/// The trace line of `c` before it executes the instruction at PC, read
/// through the bus: the bus after the reads and the line or the failure.
pub open spec fn trace(c: Cpu, b: BusModel) -> (BusModel, Result<Seq<char>, Fault>) {
    let (b1, ro) = load8(b, c.registers.pc);
    match ro {
        Err(f) => (b1, Err(f)),
        Ok(op) => {
            let info = decode_spec(op);
            let (b2, rb) = operand_bytes(b1, c.registers.pc);
            (b2, match rb {
                Ok((p1, p2)) => Ok(state_line(c, disasm(op, display_name(info), info.mode, p1, p2))),
                Err(f) => Err(f),
            })
        },
    }
}

impl Cpu {
    pub const ADDR_IRQ: Addr = 0xFFFE;
    pub const ADDR_NMI: Addr = 0xFFFA;
    pub const ADDR_RESET: Addr = 0xFFFC;

    pub fn new() -> (r: Self)
        ensures
            r.cycle == 0,
            r.registers == Registers::power_on(),
            r.wf(),
    {
        Self { cycle: 0, registers: Registers::new() }
    }

    pub fn get_registers(&self) -> (r: &Registers)
        ensures
            *r == self.registers,
    {
        &self.registers
    }

    /// Back to the power-on registers with no cycles spent, and PC loaded
    /// from the reset vector.
    pub fn reset(&mut self, bus: &mut Bus) -> (r: IronNesResult<()>)
        ensures
            final(bus)@ == load16(old(bus)@, Self::ADDR_RESET).0,
            final(self).cycle == 0,
            final(self).wf(),
            match load16(old(bus)@, Self::ADDR_RESET).1 {
                Ok(a) => r is Ok && final(self).registers == (Registers { pc: a, ..Registers::power_on() }),
                Err(f) => r matches Err(e) && e.fault() == f && final(self).registers == Registers::power_on(),
            },
    {
        self.cycle = 0;
        self.registers = Registers::new();
        self.registers.pc = cpu_load16(bus, Self::ADDR_RESET)?;
        Ok(())
    }

    /// Executes one whole instruction; see `semantics::step`. On success the
    /// instruction executed is returned.
    pub fn step(&mut self, bus: &mut Bus) -> (r: IronNesResult<Instruction>)
        requires
            old(self).wf(),
            old(self).cycle <= CYCLE_LIMIT - 16,
        ensures
            *final(self) == semantics::step(*old(self), old(bus)@).0,
            final(bus)@ == semantics::step(*old(self), old(bus)@).1,
            final(self).wf(),
            old(self).cycle <= final(self).cycle <= old(self).cycle + 12,
            r is Ok ==> final(self).cycle > old(self).cycle,
            match semantics::step(*old(self), old(bus)@).2 {
                Ok(op) => r matches Ok(i) && i.is_row_of(op),
                Err(f) => r matches Err(e) && e.fault() == f,
            },
    {
        let opcode = cpu_load(bus, self.registers.pc)?;
        let instr = Instruction::lookup(opcode);
        proof {
            lemma_decode_total(opcode);
        }
        self.cycle = self.cycle + instr.cycles;
        self.registers.pc = self.registers.pc.wrapping_add(instr.bytes as u16);
        let op = decode(opcode).op;
        dispatch(self, op, &instr, bus)?;
        Ok(instr)
    }

    /// 1 when `addr1` and `addr2` are on different pages, else 0.
    pub fn calc_page_cross_penalty(addr1: Addr, addr2: Addr) -> (r: usize)
        ensures
            r == (if addr1 / 256 != addr2 / 256 { 1usize } else { 0 }),
    {
        if addr1 / 256 != addr2 / 256 {
            1
        } else {
            0
        }
    }

    /// Moves PC to `addr`, charging the cycles of a JSR; for test harnesses.
    pub fn jsr(&mut self, addr: Addr) -> (r: IronNesResult<Instruction>)
        requires
            old(self).cycle <= CYCLE_LIMIT,
        ensures
            r matches Ok(i) && i.is_row_of(0x20),
            final(self).cycle == old(self).cycle + decode_spec(0x20).cycles,
            final(self).registers == (Registers { pc: addr, ..old(self).registers }),
    {
        let instr = Instruction::lookup(0x20);
        self.cycle = self.cycle + instr.cycles;
        self.registers.pc = addr;
        Ok(instr)
    }

    /// The trace line of the CPU before it executes the instruction at PC:
    /// PC, the disassembly padded to 28 columns, the registers, and the
    /// cycles spent.
    pub fn log_state(&self, bus: &mut Bus) -> (r: IronNesResult<String>)
        ensures
            final(bus)@ == trace(*self, old(bus)@).0,
            match trace(*self, old(bus)@).1 {
                Ok(t) => r matches Ok(s) && s@ == t,
                Err(f) => r matches Err(e) && e.fault() == f,
            },
    {
        let pc = self.registers.pc;
        let opcode = cpu_load(bus, pc)?;
        let instr = Instruction::lookup(opcode);
        let mut dis = instr.print(pc, bus)?;
        pad_to(&mut dis, 28);
        let mut s = String::new();
        push_hex_word(&mut s, pc);
        s.append(" ");
        s.append(dis.as_str());
        s.append(" ");
        let regs = self.registers.to_string();
        s.append(regs.as_str());
        s.append(" CYC ");
        push_decimal(&mut s, self.cycle);
        let ghost info = decode_spec(opcode);
        let ghost bytes = operand_bytes(load8(old(bus)@, pc).0, pc).1->Ok_0;
        assert(s@ =~= state_line(*self, disasm(opcode, display_name(info), info.mode, bytes.0, bytes.1)));
        Ok(s)
    }

    /// Takes an interrupt; see `semantics::interrupt`.
    pub fn interrupt(&mut self, mem: &mut Bus, t: InterruptType) -> (r: IronNesResult<()>)
        requires
            old(self).wf(),
        ensures
            (*final(self), final(mem)@, outcome(r)) == interrupt(*old(self), old(mem)@, t),
            final(self).wf(),
            final(self).cycle == old(self).cycle,
    {
        if self.registers.get_flag(Flags::I) && t == InterruptType::IRQ {
            return Ok(());
        }
        let pc = if t == InterruptType::BRK {
            self.registers.pc.wrapping_add(1)
        } else {
            self.registers.pc
        };
        stack_push_addr(mem, &mut self.registers.sp, pc)?;
        self.registers.set_flag(Flags::B, t == InterruptType::BRK);
        let status = self.registers.get_status();
        stack_push(mem, &mut self.registers.sp, status)?;
        self.registers.set_flag(Flags::I, true);
        let addr: Addr = match t {
            InterruptType::NMI => Self::ADDR_NMI,
            _ => Self::ADDR_IRQ,
        };
        self.registers.pc = cpu_load16(mem, addr)?;
        Ok(())
    }
}

fn pay_for_page_cross(cpu: &mut Cpu, instr: &Instruction, addr: Addr) -> (r: IronNesResult<()>)
    requires
        old(cpu).cycle <= CYCLE_LIMIT + 16,
    ensures
        *final(cpu) == pay(*old(cpu), instr.addr_mode, instr.can_cross_page, addr),
        r is Ok,
{
    if instr.can_cross_page {
        let src_addr = match instr.addr_mode {
            AddressingMode::Relative => cpu.registers.pc,
            AddressingMode::AbsoluteX => addr.wrapping_sub(cpu.registers.x as Addr),
            AddressingMode::AbsoluteY | AddressingMode::IndirectY => addr.wrapping_sub(
                cpu.registers.y as Addr,
            ),
            _ => addr,
        };
        cpu.cycle = cpu.cycle + Cpu::calc_page_cross_penalty(src_addr, addr);
    }
    Ok(())
}

/// Reads the operand at `addr` where the mode puts it in memory.
fn fetch_operand(
    cpu: &mut Cpu,
    instr: &Instruction,
    mem: &mut Bus,
    addr: Addr,
) -> (r: IronNesResult<u8>)
    requires
        old(cpu).cycle <= CYCLE_LIMIT + 16,
    ensures
        (*final(cpu), final(mem)@, outcome(r)) == fetch(*old(cpu), instr.addr_mode, instr.can_cross_page, old(mem)@, addr),
{
    pay_for_page_cross(cpu, instr, addr)?;
    match instr.addr_mode {
        AddressingMode::Absolute | AddressingMode::AbsoluteX | AddressingMode::AbsoluteY
        | AddressingMode::ZeroPage | AddressingMode::ZeroPageX | AddressingMode::ZeroPageY
        | AddressingMode::Indirect | AddressingMode::IndirectX | AddressingMode::IndirectY => cpu_load(mem, addr),
        _ => Ok((addr % 256) as u8),
    }
}

/// The address and the value of the operand.
fn read_operand(cpu: &mut Cpu, instr: &Instruction, mem: &mut Bus) -> (r: IronNesResult<(Addr, u8)>)
    requires
        old(cpu).cycle <= CYCLE_LIMIT + 16,
    ensures
        (*final(cpu), final(mem)@, outcome(r)) == read(*old(cpu), instr.addr_mode, instr.can_cross_page, old(mem)@),
        old(cpu).cycle <= final(cpu).cycle <= old(cpu).cycle + 1,
        final(cpu).registers == old(cpu).registers,
{
    let addr = instr.addr_mode.load_operand(&cpu.registers, mem)?;
    let v = fetch_operand(cpu, instr, mem, addr)?;
    Ok((addr, v))
}

fn do_cmp(cpu: &mut Cpu, instr: &Instruction, mem: &mut Bus, src: u8) -> (r: IronNesResult<()>)
    requires
        old(cpu).wf(),
        old(cpu).cycle <= CYCLE_LIMIT + 8,
    ensures
        handled(
            *old(cpu),
            *final(cpu),
            final(mem)@,
            r,
            compare(*old(cpu), instr.addr_mode, instr.can_cross_page, old(mem)@, src),
            1,
        ),
{
    let (_, s) = read_operand(cpu, instr, mem)?;
    cpu.registers.set_flag(Flags::C, src >= s);
    cpu.registers.set_flag(Flags::N, src.wrapping_sub(s) >= 0x80);
    cpu.registers.set_flag(Flags::Z, src == s);
    Ok(())
}

fn br_execute(cpu: &mut Cpu, instr: &Instruction, mem: &mut Bus, flag: Flags, state: bool) -> (r: IronNesResult<()>)
    requires
        old(cpu).wf(),
        old(cpu).cycle <= CYCLE_LIMIT + 8,
    ensures
        handled(
            *old(cpu),
            *final(cpu),
            final(mem)@,
            r,
            branch(*old(cpu), instr.addr_mode, instr.can_cross_page, old(mem)@, flag, state),
            2,
        ),
{
    if state == cpu.registers.get_flag(flag) {
        let dest = instr.addr_mode.load_operand(&cpu.registers, mem)?;
        // a taken branch costs a cycle, and one more across a page
        cpu.cycle = cpu.cycle + 1;
        pay_for_page_cross(cpu, instr, dest)?;
        cpu.registers.pc = dest;
    }
    Ok(())
}

/// `src` plus `amt` modulo 256, with N and Z set from the result.
fn increment_helper(src: u8, amt: i16, reg: &mut Registers) -> (r: IronNesResult<u8>)
    requires
        amt == 1 || amt == -1,
    ensures
        r matches Ok(v) && v == ((src + amt) % 256) as u8,
        *final(reg) == old(reg).with_nz(((src + amt) % 256) as u8),
{
    let val = ((src as i16 + amt + 256) % 256) as u8;
    reg.set_n(val as u16);
    reg.set_z(val as u16);
    Ok(val)
}

fn setp_execute(reg: &mut Registers, flag: Flags, state: bool) -> (r: IronNesResult<()>)
    ensures
        *final(reg) == old(reg).with_flag(flag, state),
        r is Ok,
{
    reg.set_flag(flag, state);
    Ok(())
}

/// Loads the operand and sets N and Z from it.
fn ld_execute(cpu: &mut Cpu, instr: &Instruction, mem: &mut Bus) -> (r: IronNesResult<u8>)
    requires
        old(cpu).wf(),
        old(cpu).cycle <= CYCLE_LIMIT + 8,
    ensures
        (*final(cpu), final(mem)@, outcome(r)) == ld(*old(cpu), instr.addr_mode, instr.can_cross_page, old(mem)@),
        final(cpu).wf(),
        old(cpu).cycle <= final(cpu).cycle <= old(cpu).cycle + 1,
{
    let (_, v) = read_operand(cpu, instr, mem)?;
    cpu.registers.set_n(v as u16);
    cpu.registers.set_z(v as u16);
    Ok(v)
}

/// The result and the carry out of a shift or rotate of `v`.
fn shift_value(op: Op, v: u8, carry: bool) -> (r: (u8, bool))
    ensures
        r == semantics::shifted(op, v, carry),
{
    match op {
        Op::Asl => ((v as u16 * 2 % 256) as u8, v >= 0x80),
        Op::Lsr => (v / 2, v % 2 == 1),
        Op::Rol => (((v as u16 * 2 + if carry { 1 } else { 0 }) % 256) as u8, v >= 0x80),
        _ => (v / 2 + if carry { 0x80 } else { 0 }, v % 2 == 1),
    }
}

/// ASL, LSR, ROL and ROR, on the accumulator or on memory.
fn shift_execute(cpu: &mut Cpu, instr: &Instruction, mem: &mut Bus, op: Op) -> (r: IronNesResult<()>)
    requires
        old(cpu).wf(),
        old(cpu).cycle <= CYCLE_LIMIT + 8,
    ensures
        handled(
            *old(cpu),
            *final(cpu),
            final(mem)@,
            r,
            shift_op(op, *old(cpu), instr.addr_mode, instr.can_cross_page, old(mem)@),
            1,
        ),
{
    let (addr, v) = read_operand(cpu, instr, mem)?;
    let carry = cpu.registers.get_flag(Flags::C);
    let (res, carry_out) = shift_value(op, v, carry);
    cpu.registers.set_flag(Flags::C, carry_out);
    cpu.registers.set_n(res as u16);
    cpu.registers.set_z(res as u16);
    if instr.addr_mode == AddressingMode::Accumulator {
        cpu.registers.a = res;
        Ok(())
    } else {
        cpu_store(mem, addr, res)
    }
}

/// Stores `v` at the operand address.
fn store_execute(cpu: &mut Cpu, instr: &Instruction, mem: &mut Bus, v: u8) -> (r: IronNesResult<()>)
    requires
        old(cpu).wf(),
    ensures
        handled(
            *old(cpu),
            *final(cpu),
            final(mem)@,
            r,
            store_op(*old(cpu), instr.addr_mode, old(mem)@, v),
            0,
        ),
{
    let addr = instr.addr_mode.load_operand(&cpu.registers, mem)?;
    cpu_store(mem, addr, v)
}

fn nop_execute(cpu: &mut Cpu, instr: &Instruction, mem: &mut Bus) -> (r: IronNesResult<()>)
    requires
        old(cpu).wf(),
        old(cpu).cycle <= CYCLE_LIMIT + 8,
    ensures
        handled(
            *old(cpu),
            *final(cpu),
            final(mem)@,
            r,
            nop(*old(cpu), instr.addr_mode, instr.can_cross_page, old(mem)@),
            2,
        ),
{
    if instr.addr_mode == AddressingMode::AbsoluteX {
        let addr = instr.addr_mode.load_operand(&cpu.registers, mem)?;
        pay_for_page_cross(cpu, instr, addr)?;
    }
    Ok(())
}

fn brk_execute(cpu: &mut Cpu, instr: &Instruction, mem: &mut Bus) -> (r: IronNesResult<()>)
    requires
        old(cpu).wf(),
        old(cpu).cycle <= CYCLE_LIMIT + 8,
    ensures
        handled(
            *old(cpu),
            *final(cpu),
            final(mem)@,
            r,
            interrupt(*old(cpu), old(mem)@, InterruptType::BRK),
            2,
        ),
{
    cpu.interrupt(mem, InterruptType::BRK)
}

fn cmp_execute(cpu: &mut Cpu, instr: &Instruction, mem: &mut Bus) -> (r: IronNesResult<()>)
    requires
        old(cpu).wf(),
        old(cpu).cycle <= CYCLE_LIMIT + 8,
    ensures
        handled(
            *old(cpu),
            *final(cpu),
            final(mem)@,
            r,
            compare(*old(cpu), instr.addr_mode, instr.can_cross_page, old(mem)@, old(cpu).registers.a),
            2,
        ),
{
    let src = cpu.registers.a;
    do_cmp(cpu, instr, mem, src)
}

fn cpx_execute(cpu: &mut Cpu, instr: &Instruction, mem: &mut Bus) -> (r: IronNesResult<()>)
    requires
        old(cpu).wf(),
        old(cpu).cycle <= CYCLE_LIMIT + 8,
    ensures
        handled(
            *old(cpu),
            *final(cpu),
            final(mem)@,
            r,
            compare(*old(cpu), instr.addr_mode, instr.can_cross_page, old(mem)@, old(cpu).registers.x),
            2,
        ),
{
    let src = cpu.registers.x;
    do_cmp(cpu, instr, mem, src)
}

fn cpy_execute(cpu: &mut Cpu, instr: &Instruction, mem: &mut Bus) -> (r: IronNesResult<()>)
    requires
        old(cpu).wf(),
        old(cpu).cycle <= CYCLE_LIMIT + 8,
    ensures
        handled(
            *old(cpu),
            *final(cpu),
            final(mem)@,
            r,
            compare(*old(cpu), instr.addr_mode, instr.can_cross_page, old(mem)@, old(cpu).registers.y),
            2,
        ),
{
    let src = cpu.registers.y;
    do_cmp(cpu, instr, mem, src)
}

fn bcc_execute(cpu: &mut Cpu, instr: &Instruction, mem: &mut Bus) -> (r: IronNesResult<()>)
    requires
        old(cpu).wf(),
        old(cpu).cycle <= CYCLE_LIMIT + 8,
    ensures
        handled(
            *old(cpu),
            *final(cpu),
            final(mem)@,
            r,
            branch(*old(cpu), instr.addr_mode, instr.can_cross_page, old(mem)@, Flags::C, false),
            2,
        ),
{
    br_execute(cpu, instr, mem, Flags::C, false)
}

fn bcs_execute(cpu: &mut Cpu, instr: &Instruction, mem: &mut Bus) -> (r: IronNesResult<()>)
    requires
        old(cpu).wf(),
        old(cpu).cycle <= CYCLE_LIMIT + 8,
    ensures
        handled(
            *old(cpu),
            *final(cpu),
            final(mem)@,
            r,
            branch(*old(cpu), instr.addr_mode, instr.can_cross_page, old(mem)@, Flags::C, true),
            2,
        ),
{
    br_execute(cpu, instr, mem, Flags::C, true)
}

fn beq_execute(cpu: &mut Cpu, instr: &Instruction, mem: &mut Bus) -> (r: IronNesResult<()>)
    requires
        old(cpu).wf(),
        old(cpu).cycle <= CYCLE_LIMIT + 8,
    ensures
        handled(
            *old(cpu),
            *final(cpu),
            final(mem)@,
            r,
            branch(*old(cpu), instr.addr_mode, instr.can_cross_page, old(mem)@, Flags::Z, true),
            2,
        ),
{
    br_execute(cpu, instr, mem, Flags::Z, true)
}

fn bmi_execute(cpu: &mut Cpu, instr: &Instruction, mem: &mut Bus) -> (r: IronNesResult<()>)
    requires
        old(cpu).wf(),
        old(cpu).cycle <= CYCLE_LIMIT + 8,
    ensures
        handled(
            *old(cpu),
            *final(cpu),
            final(mem)@,
            r,
            branch(*old(cpu), instr.addr_mode, instr.can_cross_page, old(mem)@, Flags::N, true),
            2,
        ),
{
    br_execute(cpu, instr, mem, Flags::N, true)
}

fn bne_execute(cpu: &mut Cpu, instr: &Instruction, mem: &mut Bus) -> (r: IronNesResult<()>)
    requires
        old(cpu).wf(),
        old(cpu).cycle <= CYCLE_LIMIT + 8,
    ensures
        handled(
            *old(cpu),
            *final(cpu),
            final(mem)@,
            r,
            branch(*old(cpu), instr.addr_mode, instr.can_cross_page, old(mem)@, Flags::Z, false),
            2,
        ),
{
    br_execute(cpu, instr, mem, Flags::Z, false)
}

fn bpl_execute(cpu: &mut Cpu, instr: &Instruction, mem: &mut Bus) -> (r: IronNesResult<()>)
    requires
        old(cpu).wf(),
        old(cpu).cycle <= CYCLE_LIMIT + 8,
    ensures
        handled(
            *old(cpu),
            *final(cpu),
            final(mem)@,
            r,
            branch(*old(cpu), instr.addr_mode, instr.can_cross_page, old(mem)@, Flags::N, false),
            2,
        ),
{
    br_execute(cpu, instr, mem, Flags::N, false)
}

fn bvc_execute(cpu: &mut Cpu, instr: &Instruction, mem: &mut Bus) -> (r: IronNesResult<()>)
    requires
        old(cpu).wf(),
        old(cpu).cycle <= CYCLE_LIMIT + 8,
    ensures
        handled(
            *old(cpu),
            *final(cpu),
            final(mem)@,
            r,
            branch(*old(cpu), instr.addr_mode, instr.can_cross_page, old(mem)@, Flags::V, false),
            2,
        ),
{
    br_execute(cpu, instr, mem, Flags::V, false)
}

fn bvs_execute(cpu: &mut Cpu, instr: &Instruction, mem: &mut Bus) -> (r: IronNesResult<()>)
    requires
        old(cpu).wf(),
        old(cpu).cycle <= CYCLE_LIMIT + 8,
    ensures
        handled(
            *old(cpu),
            *final(cpu),
            final(mem)@,
            r,
            branch(*old(cpu), instr.addr_mode, instr.can_cross_page, old(mem)@, Flags::V, true),
            2,
        ),
{
    br_execute(cpu, instr, mem, Flags::V, true)
}

fn rti_execute(cpu: &mut Cpu, instr: &Instruction, mem: &mut Bus) -> (r: IronNesResult<()>)
    requires
        old(cpu).wf(),
        old(cpu).cycle <= CYCLE_LIMIT + 8,
    ensures
        handled(*old(cpu), *final(cpu), final(mem)@, r, rti(*old(cpu), old(mem)@), 2),
{
    plp_execute(cpu, instr, mem)?;
    cpu.registers.pc = stack_pop_addr(mem, &mut cpu.registers.sp)?;
    Ok(())
}

fn adc_execute(cpu: &mut Cpu, instr: &Instruction, mem: &mut Bus) -> (r: IronNesResult<()>)
    requires
        old(cpu).wf(),
        old(cpu).cycle <= CYCLE_LIMIT + 8,
    ensures
        handled(
            *old(cpu),
            *final(cpu),
            final(mem)@,
            r,
            adc(*old(cpu), instr.addr_mode, instr.can_cross_page, old(mem)@),
            2,
        ),
{
    let (_, s) = read_operand(cpu, instr, mem)?;
    let a = cpu.registers.a;
    let c: u16 = if cpu.registers.get_flag(Flags::C) {
        1
    } else {
        0
    };
    // the decimal flag is ignored: the console's CPU has no decimal mode
    let sum: u16 = a as u16 + s as u16 + c;
    let res = (sum % 256) as u8;
    let v = (a < 0x80) == (s < 0x80) && (a < 0x80) != (res < 0x80);
    cpu.registers.a = res;
    cpu.registers.set_z(res as u16);
    cpu.registers.set_flag(Flags::C, sum > 0xff);
    cpu.registers.set_flag(Flags::V, v);
    cpu.registers.set_n(res as u16);
    Ok(())
}

fn sbc_execute(cpu: &mut Cpu, instr: &Instruction, mem: &mut Bus) -> (r: IronNesResult<()>)
    requires
        old(cpu).wf(),
        old(cpu).cycle <= CYCLE_LIMIT + 8,
    ensures
        handled(
            *old(cpu),
            *final(cpu),
            final(mem)@,
            r,
            sbc(*old(cpu), instr.addr_mode, instr.can_cross_page, old(mem)@),
            2,
        ),
{
    let (_, s) = read_operand(cpu, instr, mem)?;
    let a = cpu.registers.a;
    let borrow: u16 = if cpu.registers.get_flag(Flags::C) {
        0
    } else {
        1
    };
    let sub: u16 = s as u16 + borrow;
    let no_borrow = a as u16 >= sub;
    let res: u8 = if no_borrow {
        (a as u16 - sub) as u8
    } else {
        (a as u16 + 256 - sub) as u8
    };
    let v = (a < 0x80) != (s < 0x80) && (a < 0x80) != (res < 0x80);
    cpu.registers.a = res;
    cpu.registers.set_z(res as u16);
    cpu.registers.set_flag(Flags::C, no_borrow);
    cpu.registers.set_flag(Flags::V, v);
    cpu.registers.set_n(res as u16);
    Ok(())
}

fn inc_execute(cpu: &mut Cpu, instr: &Instruction, mem: &mut Bus) -> (r: IronNesResult<()>)
    requires
        old(cpu).wf(),
        old(cpu).cycle <= CYCLE_LIMIT + 8,
    ensures
        handled(
            *old(cpu),
            *final(cpu),
            final(mem)@,
            r,
            step_mem(*old(cpu), instr.addr_mode, instr.can_cross_page, old(mem)@, 1),
            2,
        ),
{
    let (addr, s) = read_operand(cpu, instr, mem)?;
    let s = increment_helper(s, 1, &mut cpu.registers)?;
    cpu_store(mem, addr, s)
}

fn dec_execute(cpu: &mut Cpu, instr: &Instruction, mem: &mut Bus) -> (r: IronNesResult<()>)
    requires
        old(cpu).wf(),
        old(cpu).cycle <= CYCLE_LIMIT + 8,
    ensures
        handled(
            *old(cpu),
            *final(cpu),
            final(mem)@,
            r,
            step_mem(*old(cpu), instr.addr_mode, instr.can_cross_page, old(mem)@, -1),
            2,
        ),
{
    let (addr, s) = read_operand(cpu, instr, mem)?;
    let s = increment_helper(s, -1, &mut cpu.registers)?;
    cpu_store(mem, addr, s)
}

fn inx_execute(cpu: &mut Cpu, instr: &Instruction, mem: &mut Bus) -> (r: IronNesResult<()>)
    requires
        old(cpu).wf(),
        old(cpu).cycle <= CYCLE_LIMIT + 8,
    ensures
        handled(
            *old(cpu),
            *final(cpu),
            final(mem)@,
            r,
            regs_only(*old(cpu), old(mem)@, implied(Op::Inx, old(cpu).registers)),
            2,
        ),
{
    let src = cpu.registers.x;
    cpu.registers.x = increment_helper(src, 1, &mut cpu.registers)?;
    Ok(())
}

fn iny_execute(cpu: &mut Cpu, instr: &Instruction, mem: &mut Bus) -> (r: IronNesResult<()>)
    requires
        old(cpu).wf(),
        old(cpu).cycle <= CYCLE_LIMIT + 8,
    ensures
        handled(
            *old(cpu),
            *final(cpu),
            final(mem)@,
            r,
            regs_only(*old(cpu), old(mem)@, implied(Op::Iny, old(cpu).registers)),
            2,
        ),
{
    let src = cpu.registers.y;
    cpu.registers.y = increment_helper(src, 1, &mut cpu.registers)?;
    Ok(())
}

fn dex_execute(cpu: &mut Cpu, instr: &Instruction, mem: &mut Bus) -> (r: IronNesResult<()>)
    requires
        old(cpu).wf(),
        old(cpu).cycle <= CYCLE_LIMIT + 8,
    ensures
        handled(
            *old(cpu),
            *final(cpu),
            final(mem)@,
            r,
            regs_only(*old(cpu), old(mem)@, implied(Op::Dex, old(cpu).registers)),
            2,
        ),
{
    let src = cpu.registers.x;
    cpu.registers.x = increment_helper(src, -1, &mut cpu.registers)?;
    Ok(())
}

fn dey_execute(cpu: &mut Cpu, instr: &Instruction, mem: &mut Bus) -> (r: IronNesResult<()>)
    requires
        old(cpu).wf(),
        old(cpu).cycle <= CYCLE_LIMIT + 8,
    ensures
        handled(
            *old(cpu),
            *final(cpu),
            final(mem)@,
            r,
            regs_only(*old(cpu), old(mem)@, implied(Op::Dey, old(cpu).registers)),
            2,
        ),
{
    let src = cpu.registers.y;
    cpu.registers.y = increment_helper(src, -1, &mut cpu.registers)?;
    Ok(())
}

fn dcp_execute(cpu: &mut Cpu, instr: &Instruction, mem: &mut Bus) -> (r: IronNesResult<()>)
    requires
        old(cpu).wf(),
        old(cpu).cycle <= CYCLE_LIMIT + 4,
    ensures
        ({
            let first = step_mem(*old(cpu), instr.addr_mode, instr.can_cross_page, old(mem)@, -1);
            handled(
                *old(cpu),
                *final(cpu),
                final(mem)@,
                r,
                chain(first, compare(first.0, instr.addr_mode, instr.can_cross_page, first.1, first.0.registers.a)),
                4,
            )
        }),
{
    dec_execute(cpu, instr, mem)?;
    let a = cpu.registers.a;
    do_cmp(cpu, instr, mem, a)
}

fn isc_execute(cpu: &mut Cpu, instr: &Instruction, mem: &mut Bus) -> (r: IronNesResult<()>)
    requires
        old(cpu).wf(),
        old(cpu).cycle <= CYCLE_LIMIT + 4,
    ensures
        ({
            let first = step_mem(*old(cpu), instr.addr_mode, instr.can_cross_page, old(mem)@, 1);
            handled(
                *old(cpu),
                *final(cpu),
                final(mem)@,
                r,
                chain(first, sbc(first.0, instr.addr_mode, instr.can_cross_page, first.1)),
                4,
            )
        }),
{
    inc_execute(cpu, instr, mem)?;
    sbc_execute(cpu, instr, mem)
}

fn and_execute(cpu: &mut Cpu, instr: &Instruction, mem: &mut Bus) -> (r: IronNesResult<()>)
    requires
        old(cpu).wf(),
        old(cpu).cycle <= CYCLE_LIMIT + 8,
    ensures
        handled(
            *old(cpu),
            *final(cpu),
            final(mem)@,
            r,
            logic_op(Op::And, *old(cpu), instr.addr_mode, instr.can_cross_page, old(mem)@),
            2,
        ),
{
    let (_, s) = read_operand(cpu, instr, mem)?;
    let res = cpu.registers.a & s;
    cpu.registers.a = res;
    cpu.registers.set_n(res as u16);
    cpu.registers.set_z(res as u16);
    Ok(())
}

fn ora_execute(cpu: &mut Cpu, instr: &Instruction, mem: &mut Bus) -> (r: IronNesResult<()>)
    requires
        old(cpu).wf(),
        old(cpu).cycle <= CYCLE_LIMIT + 8,
    ensures
        handled(
            *old(cpu),
            *final(cpu),
            final(mem)@,
            r,
            logic_op(Op::Ora, *old(cpu), instr.addr_mode, instr.can_cross_page, old(mem)@),
            2,
        ),
{
    let (_, s) = read_operand(cpu, instr, mem)?;
    let res = cpu.registers.a | s;
    cpu.registers.a = res;
    cpu.registers.set_n(res as u16);
    cpu.registers.set_z(res as u16);
    Ok(())
}

fn eor_execute(cpu: &mut Cpu, instr: &Instruction, mem: &mut Bus) -> (r: IronNesResult<()>)
    requires
        old(cpu).wf(),
        old(cpu).cycle <= CYCLE_LIMIT + 8,
    ensures
        handled(
            *old(cpu),
            *final(cpu),
            final(mem)@,
            r,
            logic_op(Op::Eor, *old(cpu), instr.addr_mode, instr.can_cross_page, old(mem)@),
            2,
        ),
{
    let (_, s) = read_operand(cpu, instr, mem)?;
    let res = cpu.registers.a ^ s;
    cpu.registers.a = res;
    cpu.registers.set_n(res as u16);
    cpu.registers.set_z(res as u16);
    Ok(())
}

fn bit_execute(cpu: &mut Cpu, instr: &Instruction, mem: &mut Bus) -> (r: IronNesResult<()>)
    requires
        old(cpu).wf(),
        old(cpu).cycle <= CYCLE_LIMIT + 8,
    ensures
        handled(
            *old(cpu),
            *final(cpu),
            final(mem)@,
            r,
            bit(*old(cpu), instr.addr_mode, old(mem)@),
            2,
        ),
{
    let addr = instr.addr_mode.load_operand(&cpu.registers, mem)?;
    let s = cpu_load(mem, addr)?;
    let a = cpu.registers.a;
    cpu.registers.set_flag(Flags::Z, a & s == 0);
    cpu.registers.set_flag(Flags::V, s & 0x40 != 0);
    cpu.registers.set_flag(Flags::N, s & 0x80 != 0);
    Ok(())
}

fn sec_execute(cpu: &mut Cpu, instr: &Instruction, mem: &mut Bus) -> (r: IronNesResult<()>)
    requires
        old(cpu).wf(),
        old(cpu).cycle <= CYCLE_LIMIT + 8,
    ensures
        handled(
            *old(cpu),
            *final(cpu),
            final(mem)@,
            r,
            regs_only(*old(cpu), old(mem)@, implied(Op::Sec, old(cpu).registers)),
            2,
        ),
{
    setp_execute(&mut cpu.registers, Flags::C, true)
}

fn sed_execute(cpu: &mut Cpu, instr: &Instruction, mem: &mut Bus) -> (r: IronNesResult<()>)
    requires
        old(cpu).wf(),
        old(cpu).cycle <= CYCLE_LIMIT + 8,
    ensures
        handled(
            *old(cpu),
            *final(cpu),
            final(mem)@,
            r,
            regs_only(*old(cpu), old(mem)@, implied(Op::Sed, old(cpu).registers)),
            2,
        ),
{
    setp_execute(&mut cpu.registers, Flags::D, true)
}

fn sei_execute(cpu: &mut Cpu, instr: &Instruction, mem: &mut Bus) -> (r: IronNesResult<()>)
    requires
        old(cpu).wf(),
        old(cpu).cycle <= CYCLE_LIMIT + 8,
    ensures
        handled(
            *old(cpu),
            *final(cpu),
            final(mem)@,
            r,
            regs_only(*old(cpu), old(mem)@, implied(Op::Sei, old(cpu).registers)),
            2,
        ),
{
    setp_execute(&mut cpu.registers, Flags::I, true)
}

fn clc_execute(cpu: &mut Cpu, instr: &Instruction, mem: &mut Bus) -> (r: IronNesResult<()>)
    requires
        old(cpu).wf(),
        old(cpu).cycle <= CYCLE_LIMIT + 8,
    ensures
        handled(
            *old(cpu),
            *final(cpu),
            final(mem)@,
            r,
            regs_only(*old(cpu), old(mem)@, implied(Op::Clc, old(cpu).registers)),
            2,
        ),
{
    setp_execute(&mut cpu.registers, Flags::C, false)
}

fn cld_execute(cpu: &mut Cpu, instr: &Instruction, mem: &mut Bus) -> (r: IronNesResult<()>)
    requires
        old(cpu).wf(),
        old(cpu).cycle <= CYCLE_LIMIT + 8,
    ensures
        handled(
            *old(cpu),
            *final(cpu),
            final(mem)@,
            r,
            regs_only(*old(cpu), old(mem)@, implied(Op::Cld, old(cpu).registers)),
            2,
        ),
{
    setp_execute(&mut cpu.registers, Flags::D, false)
}

fn cli_execute(cpu: &mut Cpu, instr: &Instruction, mem: &mut Bus) -> (r: IronNesResult<()>)
    requires
        old(cpu).wf(),
        old(cpu).cycle <= CYCLE_LIMIT + 8,
    ensures
        handled(
            *old(cpu),
            *final(cpu),
            final(mem)@,
            r,
            regs_only(*old(cpu), old(mem)@, implied(Op::Cli, old(cpu).registers)),
            2,
        ),
{
    setp_execute(&mut cpu.registers, Flags::I, false)
}

fn clv_execute(cpu: &mut Cpu, instr: &Instruction, mem: &mut Bus) -> (r: IronNesResult<()>)
    requires
        old(cpu).wf(),
        old(cpu).cycle <= CYCLE_LIMIT + 8,
    ensures
        handled(
            *old(cpu),
            *final(cpu),
            final(mem)@,
            r,
            regs_only(*old(cpu), old(mem)@, implied(Op::Clv, old(cpu).registers)),
            2,
        ),
{
    setp_execute(&mut cpu.registers, Flags::V, false)
}

fn jsr_execute(cpu: &mut Cpu, instr: &Instruction, mem: &mut Bus) -> (r: IronNesResult<()>)
    requires
        old(cpu).wf(),
        old(cpu).cycle <= CYCLE_LIMIT + 8,
    ensures
        handled(
            *old(cpu),
            *final(cpu),
            final(mem)@,
            r,
            jsr(*old(cpu), instr.addr_mode, old(mem)@),
            2,
        ),
{
    let ret = cpu.registers.pc.wrapping_sub(1);
    stack_push_addr(mem, &mut cpu.registers.sp, ret)?;
    cpu.registers.pc = instr.addr_mode.load_operand(&cpu.registers, mem)?;
    Ok(())
}

fn jmp_execute(cpu: &mut Cpu, instr: &Instruction, mem: &mut Bus) -> (r: IronNesResult<()>)
    requires
        old(cpu).wf(),
        old(cpu).cycle <= CYCLE_LIMIT + 8,
    ensures
        handled(
            *old(cpu),
            *final(cpu),
            final(mem)@,
            r,
            jmp(*old(cpu), instr.addr_mode, old(mem)@),
            2,
        ),
{
    cpu.registers.pc = instr.addr_mode.load_operand(&cpu.registers, mem)?;
    Ok(())
}

fn lax_execute(cpu: &mut Cpu, instr: &Instruction, mem: &mut Bus) -> (r: IronNesResult<()>)
    requires
        old(cpu).wf(),
        old(cpu).cycle <= CYCLE_LIMIT + 8,
    ensures
        handled(
            *old(cpu),
            *final(cpu),
            final(mem)@,
            r,
            load_op(Op::Lax, *old(cpu), instr.addr_mode, instr.can_cross_page, old(mem)@),
            2,
        ),
{
    let v = ld_execute(cpu, instr, mem)?;
    cpu.registers.a = v;
    cpu.registers.x = v;
    Ok(())
}

fn lda_execute(cpu: &mut Cpu, instr: &Instruction, mem: &mut Bus) -> (r: IronNesResult<()>)
    requires
        old(cpu).wf(),
        old(cpu).cycle <= CYCLE_LIMIT + 8,
    ensures
        handled(
            *old(cpu),
            *final(cpu),
            final(mem)@,
            r,
            load_op(Op::Lda, *old(cpu), instr.addr_mode, instr.can_cross_page, old(mem)@),
            2,
        ),
{
    cpu.registers.a = ld_execute(cpu, instr, mem)?;
    Ok(())
}

fn ldx_execute(cpu: &mut Cpu, instr: &Instruction, mem: &mut Bus) -> (r: IronNesResult<()>)
    requires
        old(cpu).wf(),
        old(cpu).cycle <= CYCLE_LIMIT + 8,
    ensures
        handled(
            *old(cpu),
            *final(cpu),
            final(mem)@,
            r,
            load_op(Op::Ldx, *old(cpu), instr.addr_mode, instr.can_cross_page, old(mem)@),
            2,
        ),
{
    cpu.registers.x = ld_execute(cpu, instr, mem)?;
    Ok(())
}

fn ldy_execute(cpu: &mut Cpu, instr: &Instruction, mem: &mut Bus) -> (r: IronNesResult<()>)
    requires
        old(cpu).wf(),
        old(cpu).cycle <= CYCLE_LIMIT + 8,
    ensures
        handled(
            *old(cpu),
            *final(cpu),
            final(mem)@,
            r,
            load_op(Op::Ldy, *old(cpu), instr.addr_mode, instr.can_cross_page, old(mem)@),
            2,
        ),
{
    cpu.registers.y = ld_execute(cpu, instr, mem)?;
    Ok(())
}

fn asl_execute(cpu: &mut Cpu, instr: &Instruction, mem: &mut Bus) -> (r: IronNesResult<()>)
    requires
        old(cpu).wf(),
        old(cpu).cycle <= CYCLE_LIMIT + 8,
    ensures
        handled(
            *old(cpu),
            *final(cpu),
            final(mem)@,
            r,
            shift_op(Op::Asl, *old(cpu), instr.addr_mode, instr.can_cross_page, old(mem)@),
            2,
        ),
{
    shift_execute(cpu, instr, mem, Op::Asl)
}

fn lsr_execute(cpu: &mut Cpu, instr: &Instruction, mem: &mut Bus) -> (r: IronNesResult<()>)
    requires
        old(cpu).wf(),
        old(cpu).cycle <= CYCLE_LIMIT + 8,
    ensures
        handled(
            *old(cpu),
            *final(cpu),
            final(mem)@,
            r,
            shift_op(Op::Lsr, *old(cpu), instr.addr_mode, instr.can_cross_page, old(mem)@),
            2,
        ),
{
    shift_execute(cpu, instr, mem, Op::Lsr)
}

fn rol_execute(cpu: &mut Cpu, instr: &Instruction, mem: &mut Bus) -> (r: IronNesResult<()>)
    requires
        old(cpu).wf(),
        old(cpu).cycle <= CYCLE_LIMIT + 8,
    ensures
        handled(
            *old(cpu),
            *final(cpu),
            final(mem)@,
            r,
            shift_op(Op::Rol, *old(cpu), instr.addr_mode, instr.can_cross_page, old(mem)@),
            2,
        ),
{
    shift_execute(cpu, instr, mem, Op::Rol)
}

fn ror_execute(cpu: &mut Cpu, instr: &Instruction, mem: &mut Bus) -> (r: IronNesResult<()>)
    requires
        old(cpu).wf(),
        old(cpu).cycle <= CYCLE_LIMIT + 8,
    ensures
        handled(
            *old(cpu),
            *final(cpu),
            final(mem)@,
            r,
            shift_op(Op::Ror, *old(cpu), instr.addr_mode, instr.can_cross_page, old(mem)@),
            2,
        ),
{
    shift_execute(cpu, instr, mem, Op::Ror)
}

fn pha_execute(cpu: &mut Cpu, instr: &Instruction, mem: &mut Bus) -> (r: IronNesResult<()>)
    requires
        old(cpu).wf(),
        old(cpu).cycle <= CYCLE_LIMIT + 8,
    ensures
        handled(
            *old(cpu),
            *final(cpu),
            final(mem)@,
            r,
            push_byte(*old(cpu), old(mem)@, old(cpu).registers.a),
            2,
        ),
{
    let a = cpu.registers.a;
    stack_push(mem, &mut cpu.registers.sp, a)
}

fn php_execute(cpu: &mut Cpu, instr: &Instruction, mem: &mut Bus) -> (r: IronNesResult<()>)
    requires
        old(cpu).wf(),
        old(cpu).cycle <= CYCLE_LIMIT + 8,
    ensures
        handled(
            *old(cpu),
            *final(cpu),
            final(mem)@,
            r,
            push_byte(*old(cpu), old(mem)@, old(cpu).registers.status() | 0b00110000),
            2,
        ),
{
    let v = cpu.registers.get_status() | 0b00110000;
    stack_push(mem, &mut cpu.registers.sp, v)
}

fn pla_execute(cpu: &mut Cpu, instr: &Instruction, mem: &mut Bus) -> (r: IronNesResult<()>)
    requires
        old(cpu).wf(),
        old(cpu).cycle <= CYCLE_LIMIT + 8,
    ensures
        handled(*old(cpu), *final(cpu), final(mem)@, r, pla(*old(cpu), old(mem)@), 2),
{
    let v = stack_pop(mem, &mut cpu.registers.sp)?;
    cpu.registers.a = v;
    cpu.registers.set_n(v as u16);
    cpu.registers.set_z(v as u16);
    Ok(())
}

fn plp_execute(cpu: &mut Cpu, instr: &Instruction, mem: &mut Bus) -> (r: IronNesResult<()>)
    requires
        old(cpu).wf(),
        old(cpu).cycle <= CYCLE_LIMIT + 8,
    ensures
        handled(*old(cpu), *final(cpu), final(mem)@, r, pull_status(*old(cpu), old(mem)@), 2),
{
    let orig = cpu.registers.get_status() & 0b00110000;
    let v = stack_pop(mem, &mut cpu.registers.sp)? & 0b11001111;
    cpu.registers.set_status(v | orig);
    Ok(())
}

fn rts_execute(cpu: &mut Cpu, instr: &Instruction, mem: &mut Bus) -> (r: IronNesResult<()>)
    requires
        old(cpu).wf(),
        old(cpu).cycle <= CYCLE_LIMIT + 8,
    ensures
        handled(*old(cpu), *final(cpu), final(mem)@, r, rts(*old(cpu), old(mem)@), 2),
{
    let a = stack_pop_addr(mem, &mut cpu.registers.sp)?;
    cpu.registers.pc = a.wrapping_add(1);
    Ok(())
}

fn sax_execute(cpu: &mut Cpu, instr: &Instruction, mem: &mut Bus) -> (r: IronNesResult<()>)
    requires
        old(cpu).wf(),
        old(cpu).cycle <= CYCLE_LIMIT + 8,
    ensures
        handled(
            *old(cpu),
            *final(cpu),
            final(mem)@,
            r,
            store_op(*old(cpu), instr.addr_mode, old(mem)@, old(cpu).registers.a & old(cpu).registers.x),
            2,
        ),
{
    let v = cpu.registers.a & cpu.registers.x;
    store_execute(cpu, instr, mem, v)
}

fn sta_execute(cpu: &mut Cpu, instr: &Instruction, mem: &mut Bus) -> (r: IronNesResult<()>)
    requires
        old(cpu).wf(),
        old(cpu).cycle <= CYCLE_LIMIT + 8,
    ensures
        handled(
            *old(cpu),
            *final(cpu),
            final(mem)@,
            r,
            store_op(*old(cpu), instr.addr_mode, old(mem)@, old(cpu).registers.a),
            2,
        ),
{
    let v = cpu.registers.a;
    store_execute(cpu, instr, mem, v)
}

fn stx_execute(cpu: &mut Cpu, instr: &Instruction, mem: &mut Bus) -> (r: IronNesResult<()>)
    requires
        old(cpu).wf(),
        old(cpu).cycle <= CYCLE_LIMIT + 8,
    ensures
        handled(
            *old(cpu),
            *final(cpu),
            final(mem)@,
            r,
            store_op(*old(cpu), instr.addr_mode, old(mem)@, old(cpu).registers.x),
            2,
        ),
{
    let v = cpu.registers.x;
    store_execute(cpu, instr, mem, v)
}

fn sty_execute(cpu: &mut Cpu, instr: &Instruction, mem: &mut Bus) -> (r: IronNesResult<()>)
    requires
        old(cpu).wf(),
        old(cpu).cycle <= CYCLE_LIMIT + 8,
    ensures
        handled(
            *old(cpu),
            *final(cpu),
            final(mem)@,
            r,
            store_op(*old(cpu), instr.addr_mode, old(mem)@, old(cpu).registers.y),
            2,
        ),
{
    let v = cpu.registers.y;
    store_execute(cpu, instr, mem, v)
}

fn tax_execute(cpu: &mut Cpu, instr: &Instruction, mem: &mut Bus) -> (r: IronNesResult<()>)
    requires
        old(cpu).wf(),
        old(cpu).cycle <= CYCLE_LIMIT + 8,
    ensures
        handled(
            *old(cpu),
            *final(cpu),
            final(mem)@,
            r,
            regs_only(*old(cpu), old(mem)@, implied(Op::Tax, old(cpu).registers)),
            2,
        ),
{
    let src = cpu.registers.a;
    cpu.registers.set_n(src as u16);
    cpu.registers.set_z(src as u16);
    cpu.registers.x = src;
    Ok(())
}

fn tay_execute(cpu: &mut Cpu, instr: &Instruction, mem: &mut Bus) -> (r: IronNesResult<()>)
    requires
        old(cpu).wf(),
        old(cpu).cycle <= CYCLE_LIMIT + 8,
    ensures
        handled(
            *old(cpu),
            *final(cpu),
            final(mem)@,
            r,
            regs_only(*old(cpu), old(mem)@, implied(Op::Tay, old(cpu).registers)),
            2,
        ),
{
    let src = cpu.registers.a;
    cpu.registers.set_n(src as u16);
    cpu.registers.set_z(src as u16);
    cpu.registers.y = src;
    Ok(())
}

fn tsx_execute(cpu: &mut Cpu, instr: &Instruction, mem: &mut Bus) -> (r: IronNesResult<()>)
    requires
        old(cpu).wf(),
        old(cpu).cycle <= CYCLE_LIMIT + 8,
    ensures
        handled(
            *old(cpu),
            *final(cpu),
            final(mem)@,
            r,
            regs_only(*old(cpu), old(mem)@, implied(Op::Tsx, old(cpu).registers)),
            2,
        ),
{
    let src = (cpu.registers.sp % 256) as u8;
    cpu.registers.set_n(src as u16);
    cpu.registers.set_z(src as u16);
    cpu.registers.x = src;
    Ok(())
}

fn txa_execute(cpu: &mut Cpu, instr: &Instruction, mem: &mut Bus) -> (r: IronNesResult<()>)
    requires
        old(cpu).wf(),
        old(cpu).cycle <= CYCLE_LIMIT + 8,
    ensures
        handled(
            *old(cpu),
            *final(cpu),
            final(mem)@,
            r,
            regs_only(*old(cpu), old(mem)@, implied(Op::Txa, old(cpu).registers)),
            2,
        ),
{
    let src = cpu.registers.x;
    cpu.registers.set_n(src as u16);
    cpu.registers.set_z(src as u16);
    cpu.registers.a = src;
    Ok(())
}

fn tya_execute(cpu: &mut Cpu, instr: &Instruction, mem: &mut Bus) -> (r: IronNesResult<()>)
    requires
        old(cpu).wf(),
        old(cpu).cycle <= CYCLE_LIMIT + 8,
    ensures
        handled(
            *old(cpu),
            *final(cpu),
            final(mem)@,
            r,
            regs_only(*old(cpu), old(mem)@, implied(Op::Tya, old(cpu).registers)),
            2,
        ),
{
    let src = cpu.registers.y;
    cpu.registers.set_n(src as u16);
    cpu.registers.set_z(src as u16);
    cpu.registers.a = src;
    Ok(())
}

fn txs_execute(cpu: &mut Cpu, instr: &Instruction, mem: &mut Bus) -> (r: IronNesResult<()>)
    requires
        old(cpu).wf(),
        old(cpu).cycle <= CYCLE_LIMIT + 8,
    ensures
        handled(
            *old(cpu),
            *final(cpu),
            final(mem)@,
            r,
            regs_only(*old(cpu), old(mem)@, implied(Op::Txs, old(cpu).registers)),
            2,
        ),
{
    cpu.registers.sp = cpu.registers.x as u16;
    Ok(())
}

fn slo_execute(cpu: &mut Cpu, instr: &Instruction, mem: &mut Bus) -> (r: IronNesResult<()>)
    requires
        old(cpu).wf(),
        old(cpu).cycle <= CYCLE_LIMIT + 4,
    ensures
        ({
            let first = shift_op(Op::Asl, *old(cpu), instr.addr_mode, instr.can_cross_page, old(mem)@);
            handled(
                *old(cpu),
                *final(cpu),
                final(mem)@,
                r,
                chain(first, logic_op(Op::Ora, first.0, instr.addr_mode, instr.can_cross_page, first.1)),
                4,
            )
        }),
{
    asl_execute(cpu, instr, mem)?;
    ora_execute(cpu, instr, mem)
}

fn rla_execute(cpu: &mut Cpu, instr: &Instruction, mem: &mut Bus) -> (r: IronNesResult<()>)
    requires
        old(cpu).wf(),
        old(cpu).cycle <= CYCLE_LIMIT + 4,
    ensures
        ({
            let first = shift_op(Op::Rol, *old(cpu), instr.addr_mode, instr.can_cross_page, old(mem)@);
            handled(
                *old(cpu),
                *final(cpu),
                final(mem)@,
                r,
                chain(first, logic_op(Op::And, first.0, instr.addr_mode, instr.can_cross_page, first.1)),
                4,
            )
        }),
{
    rol_execute(cpu, instr, mem)?;
    and_execute(cpu, instr, mem)
}

fn sre_execute(cpu: &mut Cpu, instr: &Instruction, mem: &mut Bus) -> (r: IronNesResult<()>)
    requires
        old(cpu).wf(),
        old(cpu).cycle <= CYCLE_LIMIT + 4,
    ensures
        ({
            let first = shift_op(Op::Lsr, *old(cpu), instr.addr_mode, instr.can_cross_page, old(mem)@);
            handled(
                *old(cpu),
                *final(cpu),
                final(mem)@,
                r,
                chain(first, logic_op(Op::Eor, first.0, instr.addr_mode, instr.can_cross_page, first.1)),
                4,
            )
        }),
{
    lsr_execute(cpu, instr, mem)?;
    eor_execute(cpu, instr, mem)
}

fn rra_execute(cpu: &mut Cpu, instr: &Instruction, mem: &mut Bus) -> (r: IronNesResult<()>)
    requires
        old(cpu).wf(),
        old(cpu).cycle <= CYCLE_LIMIT + 4,
    ensures
        ({
            let first = shift_op(Op::Ror, *old(cpu), instr.addr_mode, instr.can_cross_page, old(mem)@);
            handled(
                *old(cpu),
                *final(cpu),
                final(mem)@,
                r,
                chain(first, adc(first.0, instr.addr_mode, instr.can_cross_page, first.1)),
                4,
            )
        }),
{
    ror_execute(cpu, instr, mem)?;
    adc_execute(cpu, instr, mem)
}

/// Runs the handler of `op`; an opcode without one is an illegal instruction.
fn dispatch(cpu: &mut Cpu, op: Op, instr: &Instruction, mem: &mut Bus) -> (r: IronNesResult<()>)
    requires
        old(cpu).wf(),
        old(cpu).cycle <= CYCLE_LIMIT + 4,
    ensures
        handled(
            *old(cpu),
            *final(cpu),
            final(mem)@,
            r,
            execute(op, *old(cpu), instr.addr_mode, instr.can_cross_page, old(mem)@),
            4,
        ),
        op == Op::Illegal ==> r is Err,
{
    proof {
        reveal(execute);
    }
    match op {
        Op::Nop => nop_execute(cpu, instr, mem),
        Op::Brk => brk_execute(cpu, instr, mem),
        Op::Cmp => cmp_execute(cpu, instr, mem),
        Op::Cpx => cpx_execute(cpu, instr, mem),
        Op::Cpy => cpy_execute(cpu, instr, mem),
        Op::Bcc => bcc_execute(cpu, instr, mem),
        Op::Bcs => bcs_execute(cpu, instr, mem),
        Op::Beq => beq_execute(cpu, instr, mem),
        Op::Bmi => bmi_execute(cpu, instr, mem),
        Op::Bne => bne_execute(cpu, instr, mem),
        Op::Bpl => bpl_execute(cpu, instr, mem),
        Op::Bvc => bvc_execute(cpu, instr, mem),
        Op::Bvs => bvs_execute(cpu, instr, mem),
        Op::Rti => rti_execute(cpu, instr, mem),
        Op::Adc => adc_execute(cpu, instr, mem),
        Op::Sbc => sbc_execute(cpu, instr, mem),
        Op::Inc => inc_execute(cpu, instr, mem),
        Op::Dec => dec_execute(cpu, instr, mem),
        Op::Inx => inx_execute(cpu, instr, mem),
        Op::Iny => iny_execute(cpu, instr, mem),
        Op::Dex => dex_execute(cpu, instr, mem),
        Op::Dey => dey_execute(cpu, instr, mem),
        Op::Dcp => dcp_execute(cpu, instr, mem),
        Op::Isc => isc_execute(cpu, instr, mem),
        Op::And => and_execute(cpu, instr, mem),
        Op::Ora => ora_execute(cpu, instr, mem),
        Op::Eor => eor_execute(cpu, instr, mem),
        Op::Bit => bit_execute(cpu, instr, mem),
        Op::Sec => sec_execute(cpu, instr, mem),
        Op::Sed => sed_execute(cpu, instr, mem),
        Op::Sei => sei_execute(cpu, instr, mem),
        Op::Clc => clc_execute(cpu, instr, mem),
        Op::Cld => cld_execute(cpu, instr, mem),
        Op::Cli => cli_execute(cpu, instr, mem),
        Op::Clv => clv_execute(cpu, instr, mem),
        Op::Jsr => jsr_execute(cpu, instr, mem),
        Op::Jmp => jmp_execute(cpu, instr, mem),
        Op::Lax => lax_execute(cpu, instr, mem),
        Op::Lda => lda_execute(cpu, instr, mem),
        Op::Ldx => ldx_execute(cpu, instr, mem),
        Op::Ldy => ldy_execute(cpu, instr, mem),
        Op::Asl => asl_execute(cpu, instr, mem),
        Op::Lsr => lsr_execute(cpu, instr, mem),
        Op::Rol => rol_execute(cpu, instr, mem),
        Op::Ror => ror_execute(cpu, instr, mem),
        Op::Pha => pha_execute(cpu, instr, mem),
        Op::Php => php_execute(cpu, instr, mem),
        Op::Pla => pla_execute(cpu, instr, mem),
        Op::Plp => plp_execute(cpu, instr, mem),
        Op::Rts => rts_execute(cpu, instr, mem),
        Op::Sax => sax_execute(cpu, instr, mem),
        Op::Sta => sta_execute(cpu, instr, mem),
        Op::Stx => stx_execute(cpu, instr, mem),
        Op::Sty => sty_execute(cpu, instr, mem),
        Op::Tax => tax_execute(cpu, instr, mem),
        Op::Tay => tay_execute(cpu, instr, mem),
        Op::Tsx => tsx_execute(cpu, instr, mem),
        Op::Txa => txa_execute(cpu, instr, mem),
        Op::Tya => tya_execute(cpu, instr, mem),
        Op::Txs => txs_execute(cpu, instr, mem),
        Op::Slo => slo_execute(cpu, instr, mem),
        Op::Rla => rla_execute(cpu, instr, mem),
        Op::Sre => sre_execute(cpu, instr, mem),
        Op::Rra => rra_execute(cpu, instr, mem),
        Op::Illegal => Err(IronNesError::IllegalInstruction),
    }
}

} // verus!
