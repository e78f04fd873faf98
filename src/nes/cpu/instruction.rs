use vstd::prelude::*;

use super::addressing::AddressingMode;
use crate::error::{Fault, IronNesResult};
use crate::nes::bus::{Bus, BusModel};
use crate::nes::memory::Addr;
use crate::text::{hex_byte, push_hex_byte};

verus! {

/// The operation of an opcode, shared by all its addressing modes.
#[derive(Clone, Copy, PartialEq, Eq, Structural, Debug)]
pub enum Op {
    Adc,
    And,
    Asl,
    Bcc,
    Bcs,
    Beq,
    Bmi,
    Bne,
    Bpl,
    Bvc,
    Bvs,
    Bit,
    Brk,
    Clc,
    Cld,
    Cli,
    Clv,
    Cmp,
    Cpx,
    Cpy,
    Dec,
    Dex,
    Dey,
    Eor,
    Inc,
    Inx,
    Iny,
    Jmp,
    Jsr,
    Lda,
    Ldx,
    Ldy,
    Lsr,
    Nop,
    Ora,
    Pha,
    Php,
    Pla,
    Plp,
    Rol,
    Ror,
    Rti,
    Rts,
    Sbc,
    Sec,
    Sed,
    Sei,
    Sta,
    Stx,
    Sty,
    Tax,
    Tay,
    Tsx,
    Txa,
    Txs,
    Tya,
    Lax,
    Sax,
    Dcp,
    Isc,
    Slo,
    Rla,
    Sre,
    Rra,
    /// No instruction: the opcode is not in the table.
    Illegal,
}

impl Op {
    pub open spec fn name_spec(self) -> Seq<char> {
        match self {
            Op::Adc => "ADC"@,
            Op::And => "AND"@,
            Op::Asl => "ASL"@,
            Op::Bcc => "BCC"@,
            Op::Bcs => "BCS"@,
            Op::Beq => "BEQ"@,
            Op::Bmi => "BMI"@,
            Op::Bne => "BNE"@,
            Op::Bpl => "BPL"@,
            Op::Bvc => "BVC"@,
            Op::Bvs => "BVS"@,
            Op::Bit => "BIT"@,
            Op::Brk => "BRK"@,
            Op::Clc => "CLC"@,
            Op::Cld => "CLD"@,
            Op::Cli => "CLI"@,
            Op::Clv => "CLV"@,
            Op::Cmp => "CMP"@,
            Op::Cpx => "CPX"@,
            Op::Cpy => "CPY"@,
            Op::Dec => "DEC"@,
            Op::Dex => "DEX"@,
            Op::Dey => "DEY"@,
            Op::Eor => "EOR"@,
            Op::Inc => "INC"@,
            Op::Inx => "INX"@,
            Op::Iny => "INY"@,
            Op::Jmp => "JMP"@,
            Op::Jsr => "JSR"@,
            Op::Lda => "LDA"@,
            Op::Ldx => "LDX"@,
            Op::Ldy => "LDY"@,
            Op::Lsr => "LSR"@,
            Op::Nop => "NOP"@,
            Op::Ora => "ORA"@,
            Op::Pha => "PHA"@,
            Op::Php => "PHP"@,
            Op::Pla => "PLA"@,
            Op::Plp => "PLP"@,
            Op::Rol => "ROL"@,
            Op::Ror => "ROR"@,
            Op::Rti => "RTI"@,
            Op::Rts => "RTS"@,
            Op::Sbc => "SBC"@,
            Op::Sec => "SEC"@,
            Op::Sed => "SED"@,
            Op::Sei => "SEI"@,
            Op::Sta => "STA"@,
            Op::Stx => "STX"@,
            Op::Sty => "STY"@,
            Op::Tax => "TAX"@,
            Op::Tay => "TAY"@,
            Op::Tsx => "TSX"@,
            Op::Txa => "TXA"@,
            Op::Txs => "TXS"@,
            Op::Tya => "TYA"@,
            Op::Lax => "LAX"@,
            Op::Sax => "SAX"@,
            Op::Dcp => "DCP"@,
            Op::Isc => "ISC"@,
            Op::Slo => "SLO"@,
            Op::Rla => "RLA"@,
            Op::Sre => "SRE"@,
            Op::Rra => "RRA"@,
            Op::Illegal => "ILLEGAL"@,
        }
    }

    /// The mnemonic.
    pub fn name(&self) -> (r: &'static str)
        ensures
            r@ == self.name_spec(),
    {
        match self {
            Op::Adc => "ADC",
            Op::And => "AND",
            Op::Asl => "ASL",
            Op::Bcc => "BCC",
            Op::Bcs => "BCS",
            Op::Beq => "BEQ",
            Op::Bmi => "BMI",
            Op::Bne => "BNE",
            Op::Bpl => "BPL",
            Op::Bvc => "BVC",
            Op::Bvs => "BVS",
            Op::Bit => "BIT",
            Op::Brk => "BRK",
            Op::Clc => "CLC",
            Op::Cld => "CLD",
            Op::Cli => "CLI",
            Op::Clv => "CLV",
            Op::Cmp => "CMP",
            Op::Cpx => "CPX",
            Op::Cpy => "CPY",
            Op::Dec => "DEC",
            Op::Dex => "DEX",
            Op::Dey => "DEY",
            Op::Eor => "EOR",
            Op::Inc => "INC",
            Op::Inx => "INX",
            Op::Iny => "INY",
            Op::Jmp => "JMP",
            Op::Jsr => "JSR",
            Op::Lda => "LDA",
            Op::Ldx => "LDX",
            Op::Ldy => "LDY",
            Op::Lsr => "LSR",
            Op::Nop => "NOP",
            Op::Ora => "ORA",
            Op::Pha => "PHA",
            Op::Php => "PHP",
            Op::Pla => "PLA",
            Op::Plp => "PLP",
            Op::Rol => "ROL",
            Op::Ror => "ROR",
            Op::Rti => "RTI",
            Op::Rts => "RTS",
            Op::Sbc => "SBC",
            Op::Sec => "SEC",
            Op::Sed => "SED",
            Op::Sei => "SEI",
            Op::Sta => "STA",
            Op::Stx => "STX",
            Op::Sty => "STY",
            Op::Tax => "TAX",
            Op::Tay => "TAY",
            Op::Tsx => "TSX",
            Op::Txa => "TXA",
            Op::Txs => "TXS",
            Op::Tya => "TYA",
            Op::Lax => "LAX",
            Op::Sax => "SAX",
            Op::Dcp => "DCP",
            Op::Isc => "ISC",
            Op::Slo => "SLO",
            Op::Rla => "RLA",
            Op::Sre => "SRE",
            Op::Rra => "RRA",
            Op::Illegal => "ILLEGAL",
        }
    }
}

/// One row of the opcode table.
#[derive(Clone, Copy, PartialEq, Eq, Structural, Debug)]
pub struct OpInfo {
    pub op: Op,
    pub mode: AddressingMode,
    /// The cycles the instruction always costs.
    pub cycles: u8,
    /// Whether an operand on another page than its base costs a cycle more.
    pub cross: bool,
    /// Whether the opcode is documented.
    pub official: bool,
}

/// A documented opcode.
#[verifier::allow_in_spec]
pub fn legal(op: Op, mode: AddressingMode, cycles: u8, cross: bool) -> OpInfo
    returns
        (OpInfo { op, mode, cycles, cross, official: true }),
{
    OpInfo { op, mode, cycles, cross, official: true }
}

/// An undocumented opcode.
#[verifier::allow_in_spec]
pub fn unofficial(op: Op, mode: AddressingMode, cycles: u8, cross: bool) -> OpInfo
    returns
        (OpInfo { op, mode, cycles, cross, official: false }),
{
    OpInfo { op, mode, cycles, cross, official: false }
}

/// The rows for opcodes 0x00 to 0x0f, by low nibble.
pub open spec fn row_0(lo: u8) -> OpInfo {
    match lo {
        0x0 => legal(Op::Brk, AddressingMode::Implied, 7, false),
        0x1 => legal(Op::Ora, AddressingMode::IndirectX, 6, false),
        0x3 => unofficial(Op::Slo, AddressingMode::IndirectX, 8, false),
        0x4 => unofficial(Op::Nop, AddressingMode::ZeroPage, 3, false),
        0x5 => legal(Op::Ora, AddressingMode::ZeroPage, 3, false),
        0x6 => legal(Op::Asl, AddressingMode::ZeroPage, 5, false),
        0x7 => unofficial(Op::Slo, AddressingMode::ZeroPage, 5, false),
        0x8 => legal(Op::Php, AddressingMode::Implied, 3, false),
        0x9 => legal(Op::Ora, AddressingMode::Immediate, 2, false),
        0xa => legal(Op::Asl, AddressingMode::Accumulator, 2, false),
        0xc => unofficial(Op::Nop, AddressingMode::Absolute, 4, false),
        0xd => legal(Op::Ora, AddressingMode::Absolute, 4, false),
        0xe => legal(Op::Asl, AddressingMode::Absolute, 6, false),
        0xf => unofficial(Op::Slo, AddressingMode::Absolute, 6, false),
        _ => legal(Op::Illegal, AddressingMode::Illegal, 0, false),
    }
}

fn decode_row_0(lo: u8) -> (r: OpInfo)
    ensures
        r == row_0(lo),
{
    match lo {
        0x0 => legal(Op::Brk, AddressingMode::Implied, 7, false),
        0x1 => legal(Op::Ora, AddressingMode::IndirectX, 6, false),
        0x3 => unofficial(Op::Slo, AddressingMode::IndirectX, 8, false),
        0x4 => unofficial(Op::Nop, AddressingMode::ZeroPage, 3, false),
        0x5 => legal(Op::Ora, AddressingMode::ZeroPage, 3, false),
        0x6 => legal(Op::Asl, AddressingMode::ZeroPage, 5, false),
        0x7 => unofficial(Op::Slo, AddressingMode::ZeroPage, 5, false),
        0x8 => legal(Op::Php, AddressingMode::Implied, 3, false),
        0x9 => legal(Op::Ora, AddressingMode::Immediate, 2, false),
        0xa => legal(Op::Asl, AddressingMode::Accumulator, 2, false),
        0xc => unofficial(Op::Nop, AddressingMode::Absolute, 4, false),
        0xd => legal(Op::Ora, AddressingMode::Absolute, 4, false),
        0xe => legal(Op::Asl, AddressingMode::Absolute, 6, false),
        0xf => unofficial(Op::Slo, AddressingMode::Absolute, 6, false),
        _ => legal(Op::Illegal, AddressingMode::Illegal, 0, false),
    }
}

/// The rows for opcodes 0x10 to 0x1f, by low nibble.
pub open spec fn row_1(lo: u8) -> OpInfo {
    match lo {
        0x0 => legal(Op::Bpl, AddressingMode::Relative, 2, true),
        0x1 => legal(Op::Ora, AddressingMode::IndirectY, 5, true),
        0x3 => unofficial(Op::Slo, AddressingMode::IndirectY, 8, false),
        0x4 => unofficial(Op::Nop, AddressingMode::ZeroPageX, 4, false),
        0x5 => legal(Op::Ora, AddressingMode::ZeroPageX, 4, false),
        0x6 => legal(Op::Asl, AddressingMode::ZeroPageX, 6, false),
        0x7 => unofficial(Op::Slo, AddressingMode::ZeroPageX, 6, false),
        0x8 => legal(Op::Clc, AddressingMode::Implied, 2, false),
        0x9 => legal(Op::Ora, AddressingMode::AbsoluteY, 4, true),
        0xa => unofficial(Op::Nop, AddressingMode::Implied, 2, false),
        0xb => unofficial(Op::Slo, AddressingMode::AbsoluteY, 7, false),
        0xc => unofficial(Op::Nop, AddressingMode::AbsoluteX, 4, true),
        0xd => legal(Op::Ora, AddressingMode::AbsoluteX, 4, true),
        0xe => legal(Op::Asl, AddressingMode::AbsoluteX, 7, false),
        0xf => unofficial(Op::Slo, AddressingMode::AbsoluteX, 7, false),
        _ => legal(Op::Illegal, AddressingMode::Illegal, 0, false),
    }
}

fn decode_row_1(lo: u8) -> (r: OpInfo)
    ensures
        r == row_1(lo),
{
    match lo {
        0x0 => legal(Op::Bpl, AddressingMode::Relative, 2, true),
        0x1 => legal(Op::Ora, AddressingMode::IndirectY, 5, true),
        0x3 => unofficial(Op::Slo, AddressingMode::IndirectY, 8, false),
        0x4 => unofficial(Op::Nop, AddressingMode::ZeroPageX, 4, false),
        0x5 => legal(Op::Ora, AddressingMode::ZeroPageX, 4, false),
        0x6 => legal(Op::Asl, AddressingMode::ZeroPageX, 6, false),
        0x7 => unofficial(Op::Slo, AddressingMode::ZeroPageX, 6, false),
        0x8 => legal(Op::Clc, AddressingMode::Implied, 2, false),
        0x9 => legal(Op::Ora, AddressingMode::AbsoluteY, 4, true),
        0xa => unofficial(Op::Nop, AddressingMode::Implied, 2, false),
        0xb => unofficial(Op::Slo, AddressingMode::AbsoluteY, 7, false),
        0xc => unofficial(Op::Nop, AddressingMode::AbsoluteX, 4, true),
        0xd => legal(Op::Ora, AddressingMode::AbsoluteX, 4, true),
        0xe => legal(Op::Asl, AddressingMode::AbsoluteX, 7, false),
        0xf => unofficial(Op::Slo, AddressingMode::AbsoluteX, 7, false),
        _ => legal(Op::Illegal, AddressingMode::Illegal, 0, false),
    }
}

/// The rows for opcodes 0x20 to 0x2f, by low nibble.
pub open spec fn row_2(lo: u8) -> OpInfo {
    match lo {
        0x0 => legal(Op::Jsr, AddressingMode::Absolute, 6, false),
        0x1 => legal(Op::And, AddressingMode::IndirectX, 6, false),
        0x3 => unofficial(Op::Rla, AddressingMode::IndirectX, 8, false),
        0x4 => legal(Op::Bit, AddressingMode::ZeroPage, 3, false),
        0x5 => legal(Op::And, AddressingMode::ZeroPage, 3, false),
        0x6 => legal(Op::Rol, AddressingMode::ZeroPage, 5, false),
        0x7 => unofficial(Op::Rla, AddressingMode::ZeroPage, 5, false),
        0x8 => legal(Op::Plp, AddressingMode::Implied, 4, false),
        0x9 => legal(Op::And, AddressingMode::Immediate, 2, false),
        0xa => legal(Op::Rol, AddressingMode::Accumulator, 2, false),
        0xc => legal(Op::Bit, AddressingMode::Absolute, 4, false),
        0xd => legal(Op::And, AddressingMode::Absolute, 4, false),
        0xe => legal(Op::Rol, AddressingMode::Absolute, 6, false),
        0xf => unofficial(Op::Rla, AddressingMode::Absolute, 6, false),
        _ => legal(Op::Illegal, AddressingMode::Illegal, 0, false),
    }
}

fn decode_row_2(lo: u8) -> (r: OpInfo)
    ensures
        r == row_2(lo),
{
    match lo {
        0x0 => legal(Op::Jsr, AddressingMode::Absolute, 6, false),
        0x1 => legal(Op::And, AddressingMode::IndirectX, 6, false),
        0x3 => unofficial(Op::Rla, AddressingMode::IndirectX, 8, false),
        0x4 => legal(Op::Bit, AddressingMode::ZeroPage, 3, false),
        0x5 => legal(Op::And, AddressingMode::ZeroPage, 3, false),
        0x6 => legal(Op::Rol, AddressingMode::ZeroPage, 5, false),
        0x7 => unofficial(Op::Rla, AddressingMode::ZeroPage, 5, false),
        0x8 => legal(Op::Plp, AddressingMode::Implied, 4, false),
        0x9 => legal(Op::And, AddressingMode::Immediate, 2, false),
        0xa => legal(Op::Rol, AddressingMode::Accumulator, 2, false),
        0xc => legal(Op::Bit, AddressingMode::Absolute, 4, false),
        0xd => legal(Op::And, AddressingMode::Absolute, 4, false),
        0xe => legal(Op::Rol, AddressingMode::Absolute, 6, false),
        0xf => unofficial(Op::Rla, AddressingMode::Absolute, 6, false),
        _ => legal(Op::Illegal, AddressingMode::Illegal, 0, false),
    }
}

/// The rows for opcodes 0x30 to 0x3f, by low nibble.
pub open spec fn row_3(lo: u8) -> OpInfo {
    match lo {
        0x0 => legal(Op::Bmi, AddressingMode::Relative, 2, true),
        0x1 => legal(Op::And, AddressingMode::IndirectY, 5, true),
        0x3 => unofficial(Op::Rla, AddressingMode::IndirectY, 8, false),
        0x4 => unofficial(Op::Nop, AddressingMode::ZeroPageX, 4, false),
        0x5 => legal(Op::And, AddressingMode::ZeroPageX, 4, false),
        0x6 => legal(Op::Rol, AddressingMode::ZeroPageX, 6, false),
        0x7 => unofficial(Op::Rla, AddressingMode::ZeroPageX, 6, false),
        0x8 => legal(Op::Sec, AddressingMode::Implied, 2, false),
        0x9 => legal(Op::And, AddressingMode::AbsoluteY, 4, true),
        0xa => unofficial(Op::Nop, AddressingMode::Implied, 2, false),
        0xb => unofficial(Op::Rla, AddressingMode::AbsoluteY, 7, false),
        0xc => unofficial(Op::Nop, AddressingMode::AbsoluteX, 4, true),
        0xd => legal(Op::And, AddressingMode::AbsoluteX, 4, true),
        0xe => legal(Op::Rol, AddressingMode::AbsoluteX, 7, false),
        0xf => unofficial(Op::Rla, AddressingMode::AbsoluteX, 7, false),
        _ => legal(Op::Illegal, AddressingMode::Illegal, 0, false),
    }
}

fn decode_row_3(lo: u8) -> (r: OpInfo)
    ensures
        r == row_3(lo),
{
    match lo {
        0x0 => legal(Op::Bmi, AddressingMode::Relative, 2, true),
        0x1 => legal(Op::And, AddressingMode::IndirectY, 5, true),
        0x3 => unofficial(Op::Rla, AddressingMode::IndirectY, 8, false),
        0x4 => unofficial(Op::Nop, AddressingMode::ZeroPageX, 4, false),
        0x5 => legal(Op::And, AddressingMode::ZeroPageX, 4, false),
        0x6 => legal(Op::Rol, AddressingMode::ZeroPageX, 6, false),
        0x7 => unofficial(Op::Rla, AddressingMode::ZeroPageX, 6, false),
        0x8 => legal(Op::Sec, AddressingMode::Implied, 2, false),
        0x9 => legal(Op::And, AddressingMode::AbsoluteY, 4, true),
        0xa => unofficial(Op::Nop, AddressingMode::Implied, 2, false),
        0xb => unofficial(Op::Rla, AddressingMode::AbsoluteY, 7, false),
        0xc => unofficial(Op::Nop, AddressingMode::AbsoluteX, 4, true),
        0xd => legal(Op::And, AddressingMode::AbsoluteX, 4, true),
        0xe => legal(Op::Rol, AddressingMode::AbsoluteX, 7, false),
        0xf => unofficial(Op::Rla, AddressingMode::AbsoluteX, 7, false),
        _ => legal(Op::Illegal, AddressingMode::Illegal, 0, false),
    }
}

/// The rows for opcodes 0x40 to 0x4f, by low nibble.
pub open spec fn row_4(lo: u8) -> OpInfo {
    match lo {
        0x0 => legal(Op::Rti, AddressingMode::Implied, 6, false),
        0x1 => legal(Op::Eor, AddressingMode::IndirectX, 6, false),
        0x3 => unofficial(Op::Sre, AddressingMode::IndirectX, 8, false),
        0x4 => unofficial(Op::Nop, AddressingMode::ZeroPage, 3, false),
        0x5 => legal(Op::Eor, AddressingMode::ZeroPage, 3, false),
        0x6 => legal(Op::Lsr, AddressingMode::ZeroPage, 5, false),
        0x7 => unofficial(Op::Sre, AddressingMode::ZeroPage, 5, false),
        0x8 => legal(Op::Pha, AddressingMode::Implied, 3, false),
        0x9 => legal(Op::Eor, AddressingMode::Immediate, 2, false),
        0xa => legal(Op::Lsr, AddressingMode::Accumulator, 2, false),
        0xc => legal(Op::Jmp, AddressingMode::Absolute, 3, false),
        0xd => legal(Op::Eor, AddressingMode::Absolute, 4, false),
        0xe => legal(Op::Lsr, AddressingMode::Absolute, 6, false),
        0xf => unofficial(Op::Sre, AddressingMode::Absolute, 6, false),
        _ => legal(Op::Illegal, AddressingMode::Illegal, 0, false),
    }
}

fn decode_row_4(lo: u8) -> (r: OpInfo)
    ensures
        r == row_4(lo),
{
    match lo {
        0x0 => legal(Op::Rti, AddressingMode::Implied, 6, false),
        0x1 => legal(Op::Eor, AddressingMode::IndirectX, 6, false),
        0x3 => unofficial(Op::Sre, AddressingMode::IndirectX, 8, false),
        0x4 => unofficial(Op::Nop, AddressingMode::ZeroPage, 3, false),
        0x5 => legal(Op::Eor, AddressingMode::ZeroPage, 3, false),
        0x6 => legal(Op::Lsr, AddressingMode::ZeroPage, 5, false),
        0x7 => unofficial(Op::Sre, AddressingMode::ZeroPage, 5, false),
        0x8 => legal(Op::Pha, AddressingMode::Implied, 3, false),
        0x9 => legal(Op::Eor, AddressingMode::Immediate, 2, false),
        0xa => legal(Op::Lsr, AddressingMode::Accumulator, 2, false),
        0xc => legal(Op::Jmp, AddressingMode::Absolute, 3, false),
        0xd => legal(Op::Eor, AddressingMode::Absolute, 4, false),
        0xe => legal(Op::Lsr, AddressingMode::Absolute, 6, false),
        0xf => unofficial(Op::Sre, AddressingMode::Absolute, 6, false),
        _ => legal(Op::Illegal, AddressingMode::Illegal, 0, false),
    }
}

/// The rows for opcodes 0x50 to 0x5f, by low nibble.
pub open spec fn row_5(lo: u8) -> OpInfo {
    match lo {
        0x0 => legal(Op::Bvc, AddressingMode::Relative, 2, true),
        0x1 => legal(Op::Eor, AddressingMode::IndirectY, 5, true),
        0x3 => unofficial(Op::Sre, AddressingMode::IndirectY, 8, false),
        0x4 => unofficial(Op::Nop, AddressingMode::ZeroPageX, 4, false),
        0x5 => legal(Op::Eor, AddressingMode::ZeroPageX, 4, false),
        0x6 => legal(Op::Lsr, AddressingMode::ZeroPageX, 6, false),
        0x7 => unofficial(Op::Sre, AddressingMode::ZeroPageX, 6, false),
        0x8 => legal(Op::Cli, AddressingMode::Implied, 2, false),
        0x9 => legal(Op::Eor, AddressingMode::AbsoluteY, 4, true),
        0xa => unofficial(Op::Nop, AddressingMode::Implied, 2, false),
        0xb => unofficial(Op::Sre, AddressingMode::AbsoluteY, 7, false),
        0xc => unofficial(Op::Nop, AddressingMode::AbsoluteX, 4, true),
        0xd => legal(Op::Eor, AddressingMode::AbsoluteX, 4, true),
        0xe => legal(Op::Lsr, AddressingMode::AbsoluteX, 7, false),
        0xf => unofficial(Op::Sre, AddressingMode::AbsoluteX, 7, false),
        _ => legal(Op::Illegal, AddressingMode::Illegal, 0, false),
    }
}

fn decode_row_5(lo: u8) -> (r: OpInfo)
    ensures
        r == row_5(lo),
{
    match lo {
        0x0 => legal(Op::Bvc, AddressingMode::Relative, 2, true),
        0x1 => legal(Op::Eor, AddressingMode::IndirectY, 5, true),
        0x3 => unofficial(Op::Sre, AddressingMode::IndirectY, 8, false),
        0x4 => unofficial(Op::Nop, AddressingMode::ZeroPageX, 4, false),
        0x5 => legal(Op::Eor, AddressingMode::ZeroPageX, 4, false),
        0x6 => legal(Op::Lsr, AddressingMode::ZeroPageX, 6, false),
        0x7 => unofficial(Op::Sre, AddressingMode::ZeroPageX, 6, false),
        0x8 => legal(Op::Cli, AddressingMode::Implied, 2, false),
        0x9 => legal(Op::Eor, AddressingMode::AbsoluteY, 4, true),
        0xa => unofficial(Op::Nop, AddressingMode::Implied, 2, false),
        0xb => unofficial(Op::Sre, AddressingMode::AbsoluteY, 7, false),
        0xc => unofficial(Op::Nop, AddressingMode::AbsoluteX, 4, true),
        0xd => legal(Op::Eor, AddressingMode::AbsoluteX, 4, true),
        0xe => legal(Op::Lsr, AddressingMode::AbsoluteX, 7, false),
        0xf => unofficial(Op::Sre, AddressingMode::AbsoluteX, 7, false),
        _ => legal(Op::Illegal, AddressingMode::Illegal, 0, false),
    }
}

/// The rows for opcodes 0x60 to 0x6f, by low nibble.
pub open spec fn row_6(lo: u8) -> OpInfo {
    match lo {
        0x0 => legal(Op::Rts, AddressingMode::Implied, 6, false),
        0x1 => legal(Op::Adc, AddressingMode::IndirectX, 6, false),
        0x3 => unofficial(Op::Rra, AddressingMode::IndirectX, 8, false),
        0x4 => unofficial(Op::Nop, AddressingMode::ZeroPage, 3, false),
        0x5 => legal(Op::Adc, AddressingMode::ZeroPage, 3, false),
        0x6 => legal(Op::Ror, AddressingMode::ZeroPage, 5, false),
        0x7 => unofficial(Op::Rra, AddressingMode::ZeroPage, 5, false),
        0x8 => legal(Op::Pla, AddressingMode::Implied, 4, false),
        0x9 => legal(Op::Adc, AddressingMode::Immediate, 2, false),
        0xa => legal(Op::Ror, AddressingMode::Accumulator, 2, false),
        0xc => legal(Op::Jmp, AddressingMode::Indirect, 5, false),
        0xd => legal(Op::Adc, AddressingMode::Absolute, 4, false),
        0xe => legal(Op::Ror, AddressingMode::Absolute, 6, false),
        0xf => unofficial(Op::Rra, AddressingMode::Absolute, 6, false),
        _ => legal(Op::Illegal, AddressingMode::Illegal, 0, false),
    }
}

fn decode_row_6(lo: u8) -> (r: OpInfo)
    ensures
        r == row_6(lo),
{
    match lo {
        0x0 => legal(Op::Rts, AddressingMode::Implied, 6, false),
        0x1 => legal(Op::Adc, AddressingMode::IndirectX, 6, false),
        0x3 => unofficial(Op::Rra, AddressingMode::IndirectX, 8, false),
        0x4 => unofficial(Op::Nop, AddressingMode::ZeroPage, 3, false),
        0x5 => legal(Op::Adc, AddressingMode::ZeroPage, 3, false),
        0x6 => legal(Op::Ror, AddressingMode::ZeroPage, 5, false),
        0x7 => unofficial(Op::Rra, AddressingMode::ZeroPage, 5, false),
        0x8 => legal(Op::Pla, AddressingMode::Implied, 4, false),
        0x9 => legal(Op::Adc, AddressingMode::Immediate, 2, false),
        0xa => legal(Op::Ror, AddressingMode::Accumulator, 2, false),
        0xc => legal(Op::Jmp, AddressingMode::Indirect, 5, false),
        0xd => legal(Op::Adc, AddressingMode::Absolute, 4, false),
        0xe => legal(Op::Ror, AddressingMode::Absolute, 6, false),
        0xf => unofficial(Op::Rra, AddressingMode::Absolute, 6, false),
        _ => legal(Op::Illegal, AddressingMode::Illegal, 0, false),
    }
}

/// The rows for opcodes 0x70 to 0x7f, by low nibble.
pub open spec fn row_7(lo: u8) -> OpInfo {
    match lo {
        0x0 => legal(Op::Bvs, AddressingMode::Relative, 2, true),
        0x1 => legal(Op::Adc, AddressingMode::IndirectY, 5, true),
        0x3 => unofficial(Op::Rra, AddressingMode::IndirectY, 8, false),
        0x4 => unofficial(Op::Nop, AddressingMode::ZeroPageX, 4, false),
        0x5 => legal(Op::Adc, AddressingMode::ZeroPageX, 4, false),
        0x6 => legal(Op::Ror, AddressingMode::ZeroPageX, 6, false),
        0x7 => unofficial(Op::Rra, AddressingMode::ZeroPageX, 6, false),
        0x8 => legal(Op::Sei, AddressingMode::Implied, 2, false),
        0x9 => legal(Op::Adc, AddressingMode::AbsoluteY, 4, true),
        0xa => unofficial(Op::Nop, AddressingMode::Implied, 2, false),
        0xb => unofficial(Op::Rra, AddressingMode::AbsoluteY, 7, false),
        0xc => unofficial(Op::Nop, AddressingMode::AbsoluteX, 4, true),
        0xd => legal(Op::Adc, AddressingMode::AbsoluteX, 4, true),
        0xe => legal(Op::Ror, AddressingMode::AbsoluteX, 7, false),
        0xf => unofficial(Op::Rra, AddressingMode::AbsoluteX, 7, false),
        _ => legal(Op::Illegal, AddressingMode::Illegal, 0, false),
    }
}

fn decode_row_7(lo: u8) -> (r: OpInfo)
    ensures
        r == row_7(lo),
{
    match lo {
        0x0 => legal(Op::Bvs, AddressingMode::Relative, 2, true),
        0x1 => legal(Op::Adc, AddressingMode::IndirectY, 5, true),
        0x3 => unofficial(Op::Rra, AddressingMode::IndirectY, 8, false),
        0x4 => unofficial(Op::Nop, AddressingMode::ZeroPageX, 4, false),
        0x5 => legal(Op::Adc, AddressingMode::ZeroPageX, 4, false),
        0x6 => legal(Op::Ror, AddressingMode::ZeroPageX, 6, false),
        0x7 => unofficial(Op::Rra, AddressingMode::ZeroPageX, 6, false),
        0x8 => legal(Op::Sei, AddressingMode::Implied, 2, false),
        0x9 => legal(Op::Adc, AddressingMode::AbsoluteY, 4, true),
        0xa => unofficial(Op::Nop, AddressingMode::Implied, 2, false),
        0xb => unofficial(Op::Rra, AddressingMode::AbsoluteY, 7, false),
        0xc => unofficial(Op::Nop, AddressingMode::AbsoluteX, 4, true),
        0xd => legal(Op::Adc, AddressingMode::AbsoluteX, 4, true),
        0xe => legal(Op::Ror, AddressingMode::AbsoluteX, 7, false),
        0xf => unofficial(Op::Rra, AddressingMode::AbsoluteX, 7, false),
        _ => legal(Op::Illegal, AddressingMode::Illegal, 0, false),
    }
}

/// The rows for opcodes 0x80 to 0x8f, by low nibble.
pub open spec fn row_8(lo: u8) -> OpInfo {
    match lo {
        0x0 => unofficial(Op::Nop, AddressingMode::Immediate, 2, false),
        0x1 => legal(Op::Sta, AddressingMode::IndirectX, 6, false),
        0x2 => unofficial(Op::Nop, AddressingMode::Immediate, 2, false),
        0x3 => unofficial(Op::Sax, AddressingMode::IndirectX, 6, false),
        0x4 => legal(Op::Sty, AddressingMode::ZeroPage, 3, false),
        0x5 => legal(Op::Sta, AddressingMode::ZeroPage, 3, false),
        0x6 => legal(Op::Stx, AddressingMode::ZeroPage, 3, false),
        0x7 => unofficial(Op::Sax, AddressingMode::ZeroPage, 3, false),
        0x8 => legal(Op::Dey, AddressingMode::Implied, 2, false),
        0x9 => unofficial(Op::Nop, AddressingMode::Immediate, 2, false),
        0xa => legal(Op::Txa, AddressingMode::Implied, 2, false),
        0xc => legal(Op::Sty, AddressingMode::Absolute, 4, false),
        0xd => legal(Op::Sta, AddressingMode::Absolute, 4, false),
        0xe => legal(Op::Stx, AddressingMode::Absolute, 4, false),
        0xf => unofficial(Op::Sax, AddressingMode::Absolute, 4, false),
        _ => legal(Op::Illegal, AddressingMode::Illegal, 0, false),
    }
}

fn decode_row_8(lo: u8) -> (r: OpInfo)
    ensures
        r == row_8(lo),
{
    match lo {
        0x0 => unofficial(Op::Nop, AddressingMode::Immediate, 2, false),
        0x1 => legal(Op::Sta, AddressingMode::IndirectX, 6, false),
        0x2 => unofficial(Op::Nop, AddressingMode::Immediate, 2, false),
        0x3 => unofficial(Op::Sax, AddressingMode::IndirectX, 6, false),
        0x4 => legal(Op::Sty, AddressingMode::ZeroPage, 3, false),
        0x5 => legal(Op::Sta, AddressingMode::ZeroPage, 3, false),
        0x6 => legal(Op::Stx, AddressingMode::ZeroPage, 3, false),
        0x7 => unofficial(Op::Sax, AddressingMode::ZeroPage, 3, false),
        0x8 => legal(Op::Dey, AddressingMode::Implied, 2, false),
        0x9 => unofficial(Op::Nop, AddressingMode::Immediate, 2, false),
        0xa => legal(Op::Txa, AddressingMode::Implied, 2, false),
        0xc => legal(Op::Sty, AddressingMode::Absolute, 4, false),
        0xd => legal(Op::Sta, AddressingMode::Absolute, 4, false),
        0xe => legal(Op::Stx, AddressingMode::Absolute, 4, false),
        0xf => unofficial(Op::Sax, AddressingMode::Absolute, 4, false),
        _ => legal(Op::Illegal, AddressingMode::Illegal, 0, false),
    }
}

/// The rows for opcodes 0x90 to 0x9f, by low nibble.
pub open spec fn row_9(lo: u8) -> OpInfo {
    match lo {
        0x0 => legal(Op::Bcc, AddressingMode::Relative, 2, true),
        0x1 => legal(Op::Sta, AddressingMode::IndirectY, 6, false),
        0x4 => legal(Op::Sty, AddressingMode::ZeroPageX, 4, false),
        0x5 => legal(Op::Sta, AddressingMode::ZeroPageX, 4, false),
        0x6 => legal(Op::Stx, AddressingMode::ZeroPageY, 4, false),
        0x7 => unofficial(Op::Sax, AddressingMode::ZeroPageY, 4, false),
        0x8 => legal(Op::Tya, AddressingMode::Implied, 2, false),
        0x9 => legal(Op::Sta, AddressingMode::AbsoluteY, 5, false),
        0xa => legal(Op::Txs, AddressingMode::Implied, 2, false),
        0xd => legal(Op::Sta, AddressingMode::AbsoluteX, 5, false),
        _ => legal(Op::Illegal, AddressingMode::Illegal, 0, false),
    }
}

fn decode_row_9(lo: u8) -> (r: OpInfo)
    ensures
        r == row_9(lo),
{
    match lo {
        0x0 => legal(Op::Bcc, AddressingMode::Relative, 2, true),
        0x1 => legal(Op::Sta, AddressingMode::IndirectY, 6, false),
        0x4 => legal(Op::Sty, AddressingMode::ZeroPageX, 4, false),
        0x5 => legal(Op::Sta, AddressingMode::ZeroPageX, 4, false),
        0x6 => legal(Op::Stx, AddressingMode::ZeroPageY, 4, false),
        0x7 => unofficial(Op::Sax, AddressingMode::ZeroPageY, 4, false),
        0x8 => legal(Op::Tya, AddressingMode::Implied, 2, false),
        0x9 => legal(Op::Sta, AddressingMode::AbsoluteY, 5, false),
        0xa => legal(Op::Txs, AddressingMode::Implied, 2, false),
        0xd => legal(Op::Sta, AddressingMode::AbsoluteX, 5, false),
        _ => legal(Op::Illegal, AddressingMode::Illegal, 0, false),
    }
}

/// The rows for opcodes 0xa0 to 0xaf, by low nibble.
pub open spec fn row_a(lo: u8) -> OpInfo {
    match lo {
        0x0 => legal(Op::Ldy, AddressingMode::Immediate, 2, false),
        0x1 => legal(Op::Lda, AddressingMode::IndirectX, 6, false),
        0x2 => legal(Op::Ldx, AddressingMode::Immediate, 2, false),
        0x3 => unofficial(Op::Lax, AddressingMode::IndirectX, 6, false),
        0x4 => legal(Op::Ldy, AddressingMode::ZeroPage, 3, false),
        0x5 => legal(Op::Lda, AddressingMode::ZeroPage, 3, false),
        0x6 => legal(Op::Ldx, AddressingMode::ZeroPage, 3, false),
        0x7 => unofficial(Op::Lax, AddressingMode::ZeroPage, 3, false),
        0x8 => legal(Op::Tay, AddressingMode::Implied, 2, false),
        0x9 => legal(Op::Lda, AddressingMode::Immediate, 2, false),
        0xa => legal(Op::Tax, AddressingMode::Implied, 2, false),
        0xc => legal(Op::Ldy, AddressingMode::Absolute, 4, false),
        0xd => legal(Op::Lda, AddressingMode::Absolute, 4, false),
        0xe => legal(Op::Ldx, AddressingMode::Absolute, 4, false),
        0xf => unofficial(Op::Lax, AddressingMode::Absolute, 4, false),
        _ => legal(Op::Illegal, AddressingMode::Illegal, 0, false),
    }
}

fn decode_row_a(lo: u8) -> (r: OpInfo)
    ensures
        r == row_a(lo),
{
    match lo {
        0x0 => legal(Op::Ldy, AddressingMode::Immediate, 2, false),
        0x1 => legal(Op::Lda, AddressingMode::IndirectX, 6, false),
        0x2 => legal(Op::Ldx, AddressingMode::Immediate, 2, false),
        0x3 => unofficial(Op::Lax, AddressingMode::IndirectX, 6, false),
        0x4 => legal(Op::Ldy, AddressingMode::ZeroPage, 3, false),
        0x5 => legal(Op::Lda, AddressingMode::ZeroPage, 3, false),
        0x6 => legal(Op::Ldx, AddressingMode::ZeroPage, 3, false),
        0x7 => unofficial(Op::Lax, AddressingMode::ZeroPage, 3, false),
        0x8 => legal(Op::Tay, AddressingMode::Implied, 2, false),
        0x9 => legal(Op::Lda, AddressingMode::Immediate, 2, false),
        0xa => legal(Op::Tax, AddressingMode::Implied, 2, false),
        0xc => legal(Op::Ldy, AddressingMode::Absolute, 4, false),
        0xd => legal(Op::Lda, AddressingMode::Absolute, 4, false),
        0xe => legal(Op::Ldx, AddressingMode::Absolute, 4, false),
        0xf => unofficial(Op::Lax, AddressingMode::Absolute, 4, false),
        _ => legal(Op::Illegal, AddressingMode::Illegal, 0, false),
    }
}

/// The rows for opcodes 0xb0 to 0xbf, by low nibble.
pub open spec fn row_b(lo: u8) -> OpInfo {
    match lo {
        0x0 => legal(Op::Bcs, AddressingMode::Relative, 2, true),
        0x1 => legal(Op::Lda, AddressingMode::IndirectY, 5, true),
        0x3 => unofficial(Op::Lax, AddressingMode::IndirectY, 5, true),
        0x4 => legal(Op::Ldy, AddressingMode::ZeroPageX, 4, false),
        0x5 => legal(Op::Lda, AddressingMode::ZeroPageX, 4, false),
        0x6 => legal(Op::Ldx, AddressingMode::ZeroPageY, 4, false),
        0x7 => unofficial(Op::Lax, AddressingMode::ZeroPageY, 4, false),
        0x8 => legal(Op::Clv, AddressingMode::Implied, 2, false),
        0x9 => legal(Op::Lda, AddressingMode::AbsoluteY, 4, true),
        0xa => legal(Op::Tsx, AddressingMode::Implied, 2, false),
        0xc => legal(Op::Ldy, AddressingMode::AbsoluteX, 4, true),
        0xd => legal(Op::Lda, AddressingMode::AbsoluteX, 4, true),
        0xe => legal(Op::Ldx, AddressingMode::AbsoluteY, 4, true),
        0xf => unofficial(Op::Lax, AddressingMode::AbsoluteY, 4, true),
        _ => legal(Op::Illegal, AddressingMode::Illegal, 0, false),
    }
}

fn decode_row_b(lo: u8) -> (r: OpInfo)
    ensures
        r == row_b(lo),
{
    match lo {
        0x0 => legal(Op::Bcs, AddressingMode::Relative, 2, true),
        0x1 => legal(Op::Lda, AddressingMode::IndirectY, 5, true),
        0x3 => unofficial(Op::Lax, AddressingMode::IndirectY, 5, true),
        0x4 => legal(Op::Ldy, AddressingMode::ZeroPageX, 4, false),
        0x5 => legal(Op::Lda, AddressingMode::ZeroPageX, 4, false),
        0x6 => legal(Op::Ldx, AddressingMode::ZeroPageY, 4, false),
        0x7 => unofficial(Op::Lax, AddressingMode::ZeroPageY, 4, false),
        0x8 => legal(Op::Clv, AddressingMode::Implied, 2, false),
        0x9 => legal(Op::Lda, AddressingMode::AbsoluteY, 4, true),
        0xa => legal(Op::Tsx, AddressingMode::Implied, 2, false),
        0xc => legal(Op::Ldy, AddressingMode::AbsoluteX, 4, true),
        0xd => legal(Op::Lda, AddressingMode::AbsoluteX, 4, true),
        0xe => legal(Op::Ldx, AddressingMode::AbsoluteY, 4, true),
        0xf => unofficial(Op::Lax, AddressingMode::AbsoluteY, 4, true),
        _ => legal(Op::Illegal, AddressingMode::Illegal, 0, false),
    }
}

/// The rows for opcodes 0xc0 to 0xcf, by low nibble.
pub open spec fn row_c(lo: u8) -> OpInfo {
    match lo {
        0x0 => legal(Op::Cpy, AddressingMode::Immediate, 2, false),
        0x1 => legal(Op::Cmp, AddressingMode::IndirectX, 6, false),
        0x2 => unofficial(Op::Nop, AddressingMode::Immediate, 2, false),
        0x3 => unofficial(Op::Dcp, AddressingMode::IndirectX, 8, false),
        0x4 => legal(Op::Cpy, AddressingMode::ZeroPage, 3, false),
        0x5 => legal(Op::Cmp, AddressingMode::ZeroPage, 3, false),
        0x6 => legal(Op::Dec, AddressingMode::ZeroPage, 5, false),
        0x7 => unofficial(Op::Dcp, AddressingMode::ZeroPage, 5, false),
        0x8 => legal(Op::Iny, AddressingMode::Implied, 2, false),
        0x9 => legal(Op::Cmp, AddressingMode::Immediate, 2, false),
        0xa => legal(Op::Dex, AddressingMode::Implied, 2, false),
        0xc => legal(Op::Cpy, AddressingMode::Absolute, 4, false),
        0xd => legal(Op::Cmp, AddressingMode::Absolute, 4, false),
        0xe => legal(Op::Dec, AddressingMode::Absolute, 6, false),
        0xf => unofficial(Op::Dcp, AddressingMode::Absolute, 6, false),
        _ => legal(Op::Illegal, AddressingMode::Illegal, 0, false),
    }
}

fn decode_row_c(lo: u8) -> (r: OpInfo)
    ensures
        r == row_c(lo),
{
    match lo {
        0x0 => legal(Op::Cpy, AddressingMode::Immediate, 2, false),
        0x1 => legal(Op::Cmp, AddressingMode::IndirectX, 6, false),
        0x2 => unofficial(Op::Nop, AddressingMode::Immediate, 2, false),
        0x3 => unofficial(Op::Dcp, AddressingMode::IndirectX, 8, false),
        0x4 => legal(Op::Cpy, AddressingMode::ZeroPage, 3, false),
        0x5 => legal(Op::Cmp, AddressingMode::ZeroPage, 3, false),
        0x6 => legal(Op::Dec, AddressingMode::ZeroPage, 5, false),
        0x7 => unofficial(Op::Dcp, AddressingMode::ZeroPage, 5, false),
        0x8 => legal(Op::Iny, AddressingMode::Implied, 2, false),
        0x9 => legal(Op::Cmp, AddressingMode::Immediate, 2, false),
        0xa => legal(Op::Dex, AddressingMode::Implied, 2, false),
        0xc => legal(Op::Cpy, AddressingMode::Absolute, 4, false),
        0xd => legal(Op::Cmp, AddressingMode::Absolute, 4, false),
        0xe => legal(Op::Dec, AddressingMode::Absolute, 6, false),
        0xf => unofficial(Op::Dcp, AddressingMode::Absolute, 6, false),
        _ => legal(Op::Illegal, AddressingMode::Illegal, 0, false),
    }
}

/// The rows for opcodes 0xd0 to 0xdf, by low nibble.
pub open spec fn row_d(lo: u8) -> OpInfo {
    match lo {
        0x0 => legal(Op::Bne, AddressingMode::Relative, 2, true),
        0x1 => legal(Op::Cmp, AddressingMode::IndirectY, 5, true),
        0x3 => unofficial(Op::Dcp, AddressingMode::IndirectY, 8, false),
        0x4 => unofficial(Op::Nop, AddressingMode::ZeroPageX, 4, false),
        0x5 => legal(Op::Cmp, AddressingMode::ZeroPageX, 4, false),
        0x6 => legal(Op::Dec, AddressingMode::ZeroPageX, 6, false),
        0x7 => unofficial(Op::Dcp, AddressingMode::ZeroPageX, 6, false),
        0x8 => legal(Op::Cld, AddressingMode::Implied, 2, false),
        0x9 => legal(Op::Cmp, AddressingMode::AbsoluteY, 4, true),
        0xa => unofficial(Op::Nop, AddressingMode::Implied, 2, false),
        0xb => unofficial(Op::Dcp, AddressingMode::AbsoluteY, 7, false),
        0xc => unofficial(Op::Nop, AddressingMode::AbsoluteX, 4, true),
        0xd => legal(Op::Cmp, AddressingMode::AbsoluteX, 4, true),
        0xe => legal(Op::Dec, AddressingMode::AbsoluteX, 7, false),
        0xf => unofficial(Op::Dcp, AddressingMode::AbsoluteX, 7, false),
        _ => legal(Op::Illegal, AddressingMode::Illegal, 0, false),
    }
}

fn decode_row_d(lo: u8) -> (r: OpInfo)
    ensures
        r == row_d(lo),
{
    match lo {
        0x0 => legal(Op::Bne, AddressingMode::Relative, 2, true),
        0x1 => legal(Op::Cmp, AddressingMode::IndirectY, 5, true),
        0x3 => unofficial(Op::Dcp, AddressingMode::IndirectY, 8, false),
        0x4 => unofficial(Op::Nop, AddressingMode::ZeroPageX, 4, false),
        0x5 => legal(Op::Cmp, AddressingMode::ZeroPageX, 4, false),
        0x6 => legal(Op::Dec, AddressingMode::ZeroPageX, 6, false),
        0x7 => unofficial(Op::Dcp, AddressingMode::ZeroPageX, 6, false),
        0x8 => legal(Op::Cld, AddressingMode::Implied, 2, false),
        0x9 => legal(Op::Cmp, AddressingMode::AbsoluteY, 4, true),
        0xa => unofficial(Op::Nop, AddressingMode::Implied, 2, false),
        0xb => unofficial(Op::Dcp, AddressingMode::AbsoluteY, 7, false),
        0xc => unofficial(Op::Nop, AddressingMode::AbsoluteX, 4, true),
        0xd => legal(Op::Cmp, AddressingMode::AbsoluteX, 4, true),
        0xe => legal(Op::Dec, AddressingMode::AbsoluteX, 7, false),
        0xf => unofficial(Op::Dcp, AddressingMode::AbsoluteX, 7, false),
        _ => legal(Op::Illegal, AddressingMode::Illegal, 0, false),
    }
}

/// The rows for opcodes 0xe0 to 0xef, by low nibble.
pub open spec fn row_e(lo: u8) -> OpInfo {
    match lo {
        0x0 => legal(Op::Cpx, AddressingMode::Immediate, 2, false),
        0x1 => legal(Op::Sbc, AddressingMode::IndirectX, 6, false),
        0x2 => unofficial(Op::Nop, AddressingMode::Immediate, 2, false),
        0x3 => unofficial(Op::Isc, AddressingMode::IndirectX, 8, false),
        0x4 => legal(Op::Cpx, AddressingMode::ZeroPage, 3, false),
        0x5 => legal(Op::Sbc, AddressingMode::ZeroPage, 3, false),
        0x6 => legal(Op::Inc, AddressingMode::ZeroPage, 5, false),
        0x7 => unofficial(Op::Isc, AddressingMode::ZeroPage, 5, false),
        0x8 => legal(Op::Inx, AddressingMode::Implied, 2, false),
        0x9 => legal(Op::Sbc, AddressingMode::Immediate, 2, false),
        0xa => legal(Op::Nop, AddressingMode::Implied, 2, false),
        0xb => unofficial(Op::Sbc, AddressingMode::Immediate, 2, false),
        0xc => legal(Op::Cpx, AddressingMode::Absolute, 4, false),
        0xd => legal(Op::Sbc, AddressingMode::Absolute, 4, false),
        0xe => legal(Op::Inc, AddressingMode::Absolute, 6, false),
        0xf => unofficial(Op::Isc, AddressingMode::Absolute, 6, false),
        _ => legal(Op::Illegal, AddressingMode::Illegal, 0, false),
    }
}

fn decode_row_e(lo: u8) -> (r: OpInfo)
    ensures
        r == row_e(lo),
{
    match lo {
        0x0 => legal(Op::Cpx, AddressingMode::Immediate, 2, false),
        0x1 => legal(Op::Sbc, AddressingMode::IndirectX, 6, false),
        0x2 => unofficial(Op::Nop, AddressingMode::Immediate, 2, false),
        0x3 => unofficial(Op::Isc, AddressingMode::IndirectX, 8, false),
        0x4 => legal(Op::Cpx, AddressingMode::ZeroPage, 3, false),
        0x5 => legal(Op::Sbc, AddressingMode::ZeroPage, 3, false),
        0x6 => legal(Op::Inc, AddressingMode::ZeroPage, 5, false),
        0x7 => unofficial(Op::Isc, AddressingMode::ZeroPage, 5, false),
        0x8 => legal(Op::Inx, AddressingMode::Implied, 2, false),
        0x9 => legal(Op::Sbc, AddressingMode::Immediate, 2, false),
        0xa => legal(Op::Nop, AddressingMode::Implied, 2, false),
        0xb => unofficial(Op::Sbc, AddressingMode::Immediate, 2, false),
        0xc => legal(Op::Cpx, AddressingMode::Absolute, 4, false),
        0xd => legal(Op::Sbc, AddressingMode::Absolute, 4, false),
        0xe => legal(Op::Inc, AddressingMode::Absolute, 6, false),
        0xf => unofficial(Op::Isc, AddressingMode::Absolute, 6, false),
        _ => legal(Op::Illegal, AddressingMode::Illegal, 0, false),
    }
}

/// The rows for opcodes 0xf0 to 0xff, by low nibble.
pub open spec fn row_f(lo: u8) -> OpInfo {
    match lo {
        0x0 => legal(Op::Beq, AddressingMode::Relative, 2, true),
        0x1 => legal(Op::Sbc, AddressingMode::IndirectY, 5, true),
        0x3 => unofficial(Op::Isc, AddressingMode::IndirectY, 8, false),
        0x4 => unofficial(Op::Nop, AddressingMode::ZeroPageX, 4, false),
        0x5 => legal(Op::Sbc, AddressingMode::ZeroPageX, 4, false),
        0x6 => legal(Op::Inc, AddressingMode::ZeroPageX, 6, false),
        0x7 => unofficial(Op::Isc, AddressingMode::ZeroPageX, 6, false),
        0x8 => legal(Op::Sed, AddressingMode::Implied, 2, false),
        0x9 => legal(Op::Sbc, AddressingMode::AbsoluteY, 4, true),
        0xa => unofficial(Op::Nop, AddressingMode::Implied, 2, false),
        0xb => unofficial(Op::Isc, AddressingMode::AbsoluteY, 7, false),
        0xc => unofficial(Op::Nop, AddressingMode::AbsoluteX, 4, true),
        0xd => legal(Op::Sbc, AddressingMode::AbsoluteX, 4, true),
        0xe => legal(Op::Inc, AddressingMode::AbsoluteX, 7, false),
        0xf => unofficial(Op::Isc, AddressingMode::AbsoluteX, 7, false),
        _ => legal(Op::Illegal, AddressingMode::Illegal, 0, false),
    }
}

fn decode_row_f(lo: u8) -> (r: OpInfo)
    ensures
        r == row_f(lo),
{
    match lo {
        0x0 => legal(Op::Beq, AddressingMode::Relative, 2, true),
        0x1 => legal(Op::Sbc, AddressingMode::IndirectY, 5, true),
        0x3 => unofficial(Op::Isc, AddressingMode::IndirectY, 8, false),
        0x4 => unofficial(Op::Nop, AddressingMode::ZeroPageX, 4, false),
        0x5 => legal(Op::Sbc, AddressingMode::ZeroPageX, 4, false),
        0x6 => legal(Op::Inc, AddressingMode::ZeroPageX, 6, false),
        0x7 => unofficial(Op::Isc, AddressingMode::ZeroPageX, 6, false),
        0x8 => legal(Op::Sed, AddressingMode::Implied, 2, false),
        0x9 => legal(Op::Sbc, AddressingMode::AbsoluteY, 4, true),
        0xa => unofficial(Op::Nop, AddressingMode::Implied, 2, false),
        0xb => unofficial(Op::Isc, AddressingMode::AbsoluteY, 7, false),
        0xc => unofficial(Op::Nop, AddressingMode::AbsoluteX, 4, true),
        0xd => legal(Op::Sbc, AddressingMode::AbsoluteX, 4, true),
        0xe => legal(Op::Inc, AddressingMode::AbsoluteX, 7, false),
        0xf => unofficial(Op::Isc, AddressingMode::AbsoluteX, 7, false),
        _ => legal(Op::Illegal, AddressingMode::Illegal, 0, false),
    }
}

/// The opcode table: documented opcodes and the undocumented ones in use
/// (LAX, SAX, DCP, ISC, SLO, RLA, SRE, RRA and the extra NOPs and SBC).
pub open spec fn decode_spec(opcode: u8) -> OpInfo {
    let lo = opcode % 16;
    match opcode / 16 {
        0 => row_0(lo),
        1 => row_1(lo),
        2 => row_2(lo),
        3 => row_3(lo),
        4 => row_4(lo),
        5 => row_5(lo),
        6 => row_6(lo),
        7 => row_7(lo),
        8 => row_8(lo),
        9 => row_9(lo),
        10 => row_a(lo),
        11 => row_b(lo),
        12 => row_c(lo),
        13 => row_d(lo),
        14 => row_e(lo),
        _ => row_f(lo),
    }
}

pub fn decode(opcode: u8) -> (r: OpInfo)
    ensures
        r == decode_spec(opcode),
{
    let lo = opcode % 16;
    match opcode / 16 {
        0 => decode_row_0(lo),
        1 => decode_row_1(lo),
        2 => decode_row_2(lo),
        3 => decode_row_3(lo),
        4 => decode_row_4(lo),
        5 => decode_row_5(lo),
        6 => decode_row_6(lo),
        7 => decode_row_7(lo),
        8 => decode_row_8(lo),
        9 => decode_row_9(lo),
        10 => decode_row_a(lo),
        11 => decode_row_b(lo),
        12 => decode_row_c(lo),
        13 => decode_row_d(lo),
        14 => decode_row_e(lo),
        _ => decode_row_f(lo),
    }
}

/// The length in bytes of an instruction in `mode`, opcode included.
pub open spec fn mode_len(mode: AddressingMode) -> u8 {
    match mode {
        AddressingMode::Absolute | AddressingMode::AbsoluteX | AddressingMode::AbsoluteY
        | AddressingMode::Indirect => 3,
        AddressingMode::Immediate | AddressingMode::IndirectX | AddressingMode::IndirectY
        | AddressingMode::ZeroPage | AddressingMode::ZeroPageX | AddressingMode::ZeroPageY
        | AddressingMode::Relative => 2,
        _ => 1,
    }
}

pub fn mode_bytes(mode: AddressingMode) -> (r: u8)
    ensures
        r == mode_len(mode),
{
    match mode {
        AddressingMode::Absolute | AddressingMode::AbsoluteX | AddressingMode::AbsoluteY
        | AddressingMode::Indirect => 3,
        AddressingMode::Immediate | AddressingMode::IndirectX | AddressingMode::IndirectY
        | AddressingMode::ZeroPage | AddressingMode::ZeroPageX | AddressingMode::ZeroPageY
        | AddressingMode::Relative => 2,
        _ => 1,
    }
}

/// Every opcode has a row: one that no table defines is the illegal
/// instruction, one byte long and free of cycles; every row is one to three
/// bytes long and costs at most eight cycles.
pub proof fn lemma_decode_total(opcode: u8)
    ensures
        1 <= mode_len(decode_spec(opcode).mode) <= 3,
        decode_spec(opcode).cycles <= 8,
        decode_spec(opcode).op == Op::Illegal <==> decode_spec(opcode).mode == AddressingMode::Illegal,
        decode_spec(opcode).op == Op::Illegal ==> decode_spec(opcode).cycles == 0
            && !decode_spec(opcode).cross && mode_len(decode_spec(opcode).mode) == 1,
        decode_spec(opcode).op != Op::Illegal ==> decode_spec(opcode).cycles >= 2,
{
}

/// The mnemonic shown for a row: undocumented opcodes carry a `*`.
pub open spec fn display_name(info: OpInfo) -> Seq<char> {
    if info.official {
        info.op.name_spec()
    } else {
        "*"@ + info.op.name_spec()
    }
}

/// The disassembly of an instruction with opcode `op`, mnemonic `mn` and
/// mode `mode`, whose next two bytes are `p1` and `p2`.
pub open spec fn disasm(op: u8, mn: Seq<char>, mode: AddressingMode, p1: u8, p2: u8) -> Seq<char> {
    let o = hex_byte(op);
    let short = o + " "@ + hex_byte(p1) + "    "@ + mn;
    let long = o + " "@ + hex_byte(p1) + " "@ + hex_byte(p2) + " "@ + mn + " $"@ + hex_byte(p2)
        + hex_byte(p1);
    match mode {
        AddressingMode::Accumulator => o + "       "@ + mn + " A"@,
        AddressingMode::Immediate => short + " #$"@ + hex_byte(p1),
        AddressingMode::Absolute | AddressingMode::Indirect => long,
        AddressingMode::AbsoluteX => long + ",X"@,
        AddressingMode::AbsoluteY => long + ",Y"@,
        AddressingMode::IndirectX => short + " ($"@ + hex_byte(p1) + ",X)"@,
        AddressingMode::IndirectY => short + " ($"@ + hex_byte(p1) + ",Y)"@,
        AddressingMode::ZeroPage | AddressingMode::Relative => short + " $"@ + hex_byte(p1),
        AddressingMode::ZeroPageX => short + " $"@ + hex_byte(p1) + ",X"@,
        AddressingMode::ZeroPageY => short + " $"@ + hex_byte(p1) + ",Y"@,
        AddressingMode::Illegal => o + "      "@ + mn + " $"@ + o,
        _ => o + "       "@ + mn + " "@,
    }
}

/// The two bytes after `pc`, read through the bus.
pub open spec fn operand_bytes(b: BusModel, pc: Addr) -> (BusModel, Result<(u8, u8), Fault>) {
    let a1 = pc + 1;
    let a2 = pc + 2;
    let b1 = b.after_load(a1 as usize);
    match b.load_result(a1 as usize) {
        Err(f) => (b1, Err(f)),
        Ok(p1) => (b1.after_load(a2 as usize), match b1.load_result(a2 as usize) {
            Err(f) => Err(f),
            Ok(p2) => Ok((p1, p2)),
        }),
    }
}

/// A decoded instruction.
pub struct Instruction {
    pub opcode: u8,
    pub mnemonic: String,
    pub bytes: u8,
    pub cycles: usize,
    pub can_cross_page: bool,
    pub addr_mode: AddressingMode,
}

impl Instruction {
    pub open spec fn mnemonic_view(&self) -> Seq<char> {
        self.mnemonic@
    }

    /// The instruction is the table's row for `opcode`.
    pub open spec fn is_row_of(&self, opcode: u8) -> bool {
        let info = decode_spec(opcode);
        &&& self.opcode == opcode
        &&& self.bytes == mode_len(info.mode)
        &&& self.cycles == info.cycles as usize
        &&& self.can_cross_page == info.cross
        &&& self.addr_mode == info.mode
        &&& self.mnemonic_view() == display_name(info)
    }

    /// The table's row for `opcode`; every opcode has one.
    pub fn lookup(opcode: u8) -> (r: Self)
        ensures
            r.is_row_of(opcode),
    {
        let info = decode(opcode);
        if info.op == Op::Illegal {
            return Self::illegal(opcode);
        }
        let mnemonic = if info.official {
            String::from_str(info.op.name())
        } else {
            let mut s = String::from_str("*");
            s.append(info.op.name());
            s
        };
        Self {
            opcode,
            mnemonic,
            bytes: mode_bytes(info.mode),
            cycles: info.cycles as usize,
            can_cross_page: info.cross,
            addr_mode: info.mode,
        }
    }

    pub fn new(
        opcode: u8,
        mnemonic: &str,
        bytes: u8,
        cycles: usize,
        can_cross_page: bool,
        addr_mode: AddressingMode,
    ) -> (r: Self)
        ensures
            r.opcode == opcode,
            r.mnemonic_view() == mnemonic@,
            r.bytes == bytes,
            r.cycles == cycles,
            r.can_cross_page == can_cross_page,
            r.addr_mode == addr_mode,
    {
        Self {
            opcode,
            mnemonic: String::from_str(mnemonic),
            bytes,
            cycles,
            can_cross_page,
            addr_mode,
        }
    }

    fn illegal(opcode: u8) -> (r: Self)
        requires
            decode_spec(opcode).op == Op::Illegal,
        ensures
            r.is_row_of(opcode),
            r.bytes == 1,
            r.cycles == 0,
            r.addr_mode == AddressingMode::Illegal,
    {
        proof {
            lemma_decode_total(opcode);
        }
        Self {
            opcode,
            mnemonic: String::from_str("ILLEGAL"),
            bytes: 1,
            cycles: 0,
            can_cross_page: false,
            addr_mode: AddressingMode::Illegal,
        }
    }

    /// The disassembly of the instruction, given the two bytes that follow
    /// its opcode.
    pub fn text(&self, p1: u8, p2: u8) -> (r: String)
        ensures
            r@ == disasm(self.opcode, self.mnemonic_view(), self.addr_mode, p1, p2),
    {
        let mut s = String::new();
        push_hex_byte(&mut s, self.opcode);
        let mn = self.mnemonic.as_str();
        match self.addr_mode {
            AddressingMode::Accumulator => {
                s.append("       ");
                s.append(mn);
                s.append(" A");
            },
            AddressingMode::Absolute | AddressingMode::Indirect | AddressingMode::AbsoluteX
            | AddressingMode::AbsoluteY => {
                s.append(" ");
                push_hex_byte(&mut s, p1);
                s.append(" ");
                push_hex_byte(&mut s, p2);
                s.append(" ");
                s.append(mn);
                s.append(" $");
                push_hex_byte(&mut s, p2);
                push_hex_byte(&mut s, p1);
                if self.addr_mode == AddressingMode::AbsoluteX {
                    s.append(",X");
                } else if self.addr_mode == AddressingMode::AbsoluteY {
                    s.append(",Y");
                }
            },
            AddressingMode::Immediate | AddressingMode::IndirectX | AddressingMode::IndirectY
            | AddressingMode::ZeroPage | AddressingMode::Relative | AddressingMode::ZeroPageX
            | AddressingMode::ZeroPageY => {
                s.append(" ");
                push_hex_byte(&mut s, p1);
                s.append("    ");
                s.append(mn);
                match self.addr_mode {
                    AddressingMode::Immediate => s.append(" #$"),
                    AddressingMode::IndirectX | AddressingMode::IndirectY => s.append(" ($"),
                    _ => s.append(" $"),
                }
                push_hex_byte(&mut s, p1);
                match self.addr_mode {
                    AddressingMode::IndirectX => s.append(",X)"),
                    AddressingMode::IndirectY => s.append(",Y)"),
                    AddressingMode::ZeroPageX => s.append(",X"),
                    AddressingMode::ZeroPageY => s.append(",Y"),
                    _ => {},
                }
            },
            AddressingMode::Illegal => {
                s.append("      ");
                s.append(mn);
                s.append(" $");
                push_hex_byte(&mut s, self.opcode);
            },
            _ => {
                s.append("       ");
                s.append(mn);
                s.append(" ");
            },
        }
        proof {
            reveal_strlit("");
        }
        assert(s@ =~= disasm(self.opcode, self.mnemonic_view(), self.addr_mode, p1, p2));
        s
    }

    /// The disassembly of the instruction at `pc`, reading its two operand
    /// bytes through the bus.
    pub fn print(&self, pc: Addr, bus: &mut Bus) -> (r: IronNesResult<String>)
        ensures
            final(bus)@ == operand_bytes(old(bus)@, pc).0,
            match operand_bytes(old(bus)@, pc).1 {
                Ok((p1, p2)) => r matches Ok(s) && s@ == disasm(
                    self.opcode,
                    self.mnemonic_view(),
                    self.addr_mode,
                    p1,
                    p2,
                ),
                Err(f) => r matches Err(e) && e.fault() == f,
            },
    {
        let p1 = bus.cpu_load((pc as usize) + 1)?;
        let p2 = bus.cpu_load((pc as usize) + 2)?;
        Ok(self.text(p1, p2))
    }
}

} // verus!
