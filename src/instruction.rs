//! The instruction set: mnemonics, addressing modes and the opcode table.
use vstd::prelude::*;

verus! {

/// A mnemonic of the processor's instruction set.
#[allow(non_camel_case_types)]
#[derive(Debug, Clone, Copy, PartialEq, Eq, Structural)]
pub enum Opcode {
    ADC,
    AND,
    ASL,
    BCC,
    BCS,
    BEQ,
    BIT,
    BMI,
    BNE,
    BPL,
    BRK,
    BVC,
    BVS,
    CLC,
    CLD,
    CLI,
    CLV,
    CMP,
    CPX,
    CPY,
    DEC,
    DEX,
    DEY,
    EOR,
    INC,
    INX,
    INY,
    JMP,
    JSR,
    LDA,
    LDX,
    LDY,
    LSR,
    NOP,
    ORA,
    PHA,
    PHP,
    PLA,
    PLP,
    ROL,
    ROR,
    RTI,
    RTS,
    SBC,
    SEC,
    SED,
    SEI,
    STA,
    STX,
    STY,
    TAX,
    TAY,
    TSX,
    TXA,
    TXS,
    TYA,
    // Undocumented instructions
    ISC,
    KIL,
    SLO,
    /// A byte that the table does not map, carried as it was read.
    UNKNOWN(u8),
}

/// How the operand of an instruction is located.
#[allow(non_camel_case_types)]
#[derive(Debug, Clone, Copy, PartialEq, Eq, Structural)]
pub enum Addressing {
    Accumulator,
    Absolute,
    AbsoluteX,
    AbsoluteY,
    Immediate,
    Implied,
    /// `(zp, X)`: the pointer sits in the zero page at the operand plus X.
    IndexedIndirect,
    Indirect,
    /// `(zp), Y`: the pointer sits in the zero page at the operand; Y is added to it.
    IndirectIndexed,
    Relative,
    ZeroPage,
    ZeroPageX,
    ZeroPageY,
    UNKNOWN,
}

/// A decoded opcode byte: mnemonic, addressing mode and base cycle count.
#[derive(Debug, Clone, Copy, PartialEq, Eq, Structural)]
pub struct Instruction(pub Opcode, pub Addressing, pub usize);

/// The opcode table. Every byte maps to an instruction; a byte outside the
/// table maps to `UNKNOWN` carrying the byte, with no mode and no cycles.
pub open spec fn decode(opcode: u8) -> Instruction {
    match opcode {
        0x0A => Instruction(Opcode::ASL, Addressing::Accumulator, 2),
        0x06 => Instruction(Opcode::ASL, Addressing::ZeroPage, 5),
        0x16 => Instruction(Opcode::ASL, Addressing::ZeroPageX, 6),
        0x0E => Instruction(Opcode::ASL, Addressing::Absolute, 6),
        0x1E => Instruction(Opcode::ASL, Addressing::AbsoluteX, 7),
        0x30 => Instruction(Opcode::BMI, Addressing::Relative, 2),
        0xD0 => Instruction(Opcode::BNE, Addressing::Relative, 2),
        0x10 => Instruction(Opcode::BPL, Addressing::Relative, 2),
        0x00 => Instruction(Opcode::BRK, Addressing::Implied, 7),
        0x50 => Instruction(Opcode::BVC, Addressing::Relative, 2),
        0x18 => Instruction(Opcode::CLC, Addressing::Implied, 2),
        0xD8 => Instruction(Opcode::CLD, Addressing::Implied, 2),
        0x58 => Instruction(Opcode::CLI, Addressing::Implied, 2),
        0xB8 => Instruction(Opcode::CLV, Addressing::Implied, 2),
        0xC9 => Instruction(Opcode::CMP, Addressing::Immediate, 2),
        0xC5 => Instruction(Opcode::CMP, Addressing::ZeroPage, 3),
        0xD1 => Instruction(Opcode::CMP, Addressing::IndirectIndexed, 5),
        0xC6 => Instruction(Opcode::DEC, Addressing::ZeroPage, 5),
        0xD6 => Instruction(Opcode::DEC, Addressing::ZeroPageX, 6),
        0x88 => Instruction(Opcode::DEY, Addressing::Implied, 2),
        0xE8 => Instruction(Opcode::INX, Addressing::Implied, 2),
        0x4C => Instruction(Opcode::JMP, Addressing::Absolute, 3),
        0x20 => Instruction(Opcode::JSR, Addressing::Absolute, 6),
        0xA9 => Instruction(Opcode::LDA, Addressing::Immediate, 2),
        0xA5 => Instruction(Opcode::LDA, Addressing::ZeroPage, 3),
        0xB5 => Instruction(Opcode::LDA, Addressing::ZeroPageX, 4),
        0xAD => Instruction(Opcode::LDA, Addressing::Absolute, 4),
        0xBD => Instruction(Opcode::LDA, Addressing::AbsoluteX, 4),
        0xB9 => Instruction(Opcode::LDA, Addressing::AbsoluteY, 4),
        0xA1 => Instruction(Opcode::LDA, Addressing::IndexedIndirect, 6),
        0xB1 => Instruction(Opcode::LDA, Addressing::IndirectIndexed, 5),
        0xA2 => Instruction(Opcode::LDX, Addressing::Immediate, 2),
        0xA0 => Instruction(Opcode::LDY, Addressing::Immediate, 2),
        0x78 => Instruction(Opcode::SEI, Addressing::Implied, 2),
        0x8D => Instruction(Opcode::STA, Addressing::Absolute, 4),
        0x9A => Instruction(Opcode::TXS, Addressing::Implied, 2),
        0xFF => Instruction(Opcode::ISC, Addressing::AbsoluteX, 7),
        0x02 => Instruction(Opcode::KIL, Addressing::Implied, 2),
        0x12 => Instruction(Opcode::KIL, Addressing::Implied, 2),
        0x22 => Instruction(Opcode::KIL, Addressing::Implied, 2),
        0x32 => Instruction(Opcode::KIL, Addressing::Implied, 2),
        0x42 => Instruction(Opcode::KIL, Addressing::Implied, 2),
        0x52 => Instruction(Opcode::KIL, Addressing::Implied, 2),
        0x62 => Instruction(Opcode::KIL, Addressing::Implied, 2),
        0x72 => Instruction(Opcode::KIL, Addressing::Implied, 2),
        0x92 => Instruction(Opcode::KIL, Addressing::Implied, 2),
        0xB2 => Instruction(Opcode::KIL, Addressing::Implied, 2),
        0xD2 => Instruction(Opcode::KIL, Addressing::Implied, 2),
        0xF2 => Instruction(Opcode::KIL, Addressing::Implied, 2),
        0x03 => Instruction(Opcode::SLO, Addressing::IndexedIndirect, 8),
        0x04 => Instruction(Opcode::NOP, Addressing::ZeroPage, 3),
        0x0C => Instruction(Opcode::NOP, Addressing::Absolute, 4),
        0x14 => Instruction(Opcode::NOP, Addressing::ZeroPageX, 4),
        0x1A => Instruction(Opcode::NOP, Addressing::Implied, 2),
        0x1C => Instruction(Opcode::NOP, Addressing::AbsoluteX, 4),
        0x34 => Instruction(Opcode::NOP, Addressing::ZeroPageX, 4),
        0x3A => Instruction(Opcode::NOP, Addressing::Implied, 2),
        0x3C => Instruction(Opcode::NOP, Addressing::AbsoluteX, 4),
        0x44 => Instruction(Opcode::NOP, Addressing::ZeroPage, 3),
        0x54 => Instruction(Opcode::NOP, Addressing::ZeroPageX, 4),
        0x5A => Instruction(Opcode::NOP, Addressing::Implied, 2),
        0x5C => Instruction(Opcode::NOP, Addressing::AbsoluteX, 4),
        0x64 => Instruction(Opcode::NOP, Addressing::ZeroPage, 3),
        0x74 => Instruction(Opcode::NOP, Addressing::ZeroPageX, 4),
        0x7A => Instruction(Opcode::NOP, Addressing::Implied, 2),
        0x7C => Instruction(Opcode::NOP, Addressing::AbsoluteX, 4),
        0x80 => Instruction(Opcode::NOP, Addressing::Immediate, 2),
        0x82 => Instruction(Opcode::NOP, Addressing::Immediate, 2),
        0x89 => Instruction(Opcode::NOP, Addressing::Immediate, 2),
        0xC2 => Instruction(Opcode::NOP, Addressing::Immediate, 2),
        0xD4 => Instruction(Opcode::NOP, Addressing::ZeroPageX, 4),
        0xDA => Instruction(Opcode::NOP, Addressing::Implied, 2),
        0xDC => Instruction(Opcode::NOP, Addressing::AbsoluteX, 4),
        0xE2 => Instruction(Opcode::NOP, Addressing::Immediate, 2),
        0xF4 => Instruction(Opcode::NOP, Addressing::ZeroPageX, 4),
        0xFA => Instruction(Opcode::NOP, Addressing::Implied, 2),
        0xFC => Instruction(Opcode::NOP, Addressing::AbsoluteX, 4),
        _ => Instruction(Opcode::UNKNOWN(opcode), Addressing::UNKNOWN, 0),
    }
}

/// The number of operand bytes that follow the opcode in each mode.
pub open spec fn operand_len(mode: Addressing) -> nat {
    match mode {
        Addressing::Implied | Addressing::Accumulator | Addressing::UNKNOWN => 0,
        Addressing::Absolute | Addressing::AbsoluteX | Addressing::AbsoluteY
        | Addressing::Indirect => 2,
        _ => 1,
    }
}

impl Instruction {
    /// Looks an opcode byte up in the table.
    pub fn decode(opcode: u8) -> (r: Instruction)
        ensures
            r == decode(opcode),
            r.2 <= 8,
    {
        match opcode {
            0x0A => Instruction(Opcode::ASL, Addressing::Accumulator, 2),
            0x06 => Instruction(Opcode::ASL, Addressing::ZeroPage, 5),
            0x16 => Instruction(Opcode::ASL, Addressing::ZeroPageX, 6),
            0x0E => Instruction(Opcode::ASL, Addressing::Absolute, 6),
            0x1E => Instruction(Opcode::ASL, Addressing::AbsoluteX, 7),
            0x30 => Instruction(Opcode::BMI, Addressing::Relative, 2),
            0xD0 => Instruction(Opcode::BNE, Addressing::Relative, 2),
            0x10 => Instruction(Opcode::BPL, Addressing::Relative, 2),
            0x00 => Instruction(Opcode::BRK, Addressing::Implied, 7),
            0x50 => Instruction(Opcode::BVC, Addressing::Relative, 2),
            0x18 => Instruction(Opcode::CLC, Addressing::Implied, 2),
            0xD8 => Instruction(Opcode::CLD, Addressing::Implied, 2),
            0x58 => Instruction(Opcode::CLI, Addressing::Implied, 2),
            0xB8 => Instruction(Opcode::CLV, Addressing::Implied, 2),
            0xC9 => Instruction(Opcode::CMP, Addressing::Immediate, 2),
            0xC5 => Instruction(Opcode::CMP, Addressing::ZeroPage, 3),
            0xD1 => Instruction(Opcode::CMP, Addressing::IndirectIndexed, 5),
            0xC6 => Instruction(Opcode::DEC, Addressing::ZeroPage, 5),
            0xD6 => Instruction(Opcode::DEC, Addressing::ZeroPageX, 6),
            0x88 => Instruction(Opcode::DEY, Addressing::Implied, 2),
            0xE8 => Instruction(Opcode::INX, Addressing::Implied, 2),
            0x4C => Instruction(Opcode::JMP, Addressing::Absolute, 3),
            0x20 => Instruction(Opcode::JSR, Addressing::Absolute, 6),
            0xA9 => Instruction(Opcode::LDA, Addressing::Immediate, 2),
            0xA5 => Instruction(Opcode::LDA, Addressing::ZeroPage, 3),
            0xB5 => Instruction(Opcode::LDA, Addressing::ZeroPageX, 4),
            0xAD => Instruction(Opcode::LDA, Addressing::Absolute, 4),
            0xBD => Instruction(Opcode::LDA, Addressing::AbsoluteX, 4),
            0xB9 => Instruction(Opcode::LDA, Addressing::AbsoluteY, 4),
            0xA1 => Instruction(Opcode::LDA, Addressing::IndexedIndirect, 6),
            0xB1 => Instruction(Opcode::LDA, Addressing::IndirectIndexed, 5),
            0xA2 => Instruction(Opcode::LDX, Addressing::Immediate, 2),
            0xA0 => Instruction(Opcode::LDY, Addressing::Immediate, 2),
            0x78 => Instruction(Opcode::SEI, Addressing::Implied, 2),
            0x8D => Instruction(Opcode::STA, Addressing::Absolute, 4),
            0x9A => Instruction(Opcode::TXS, Addressing::Implied, 2),
            0xFF => Instruction(Opcode::ISC, Addressing::AbsoluteX, 7),
            0x02 => Instruction(Opcode::KIL, Addressing::Implied, 2),
            0x12 => Instruction(Opcode::KIL, Addressing::Implied, 2),
            0x22 => Instruction(Opcode::KIL, Addressing::Implied, 2),
            0x32 => Instruction(Opcode::KIL, Addressing::Implied, 2),
            0x42 => Instruction(Opcode::KIL, Addressing::Implied, 2),
            0x52 => Instruction(Opcode::KIL, Addressing::Implied, 2),
            0x62 => Instruction(Opcode::KIL, Addressing::Implied, 2),
            0x72 => Instruction(Opcode::KIL, Addressing::Implied, 2),
            0x92 => Instruction(Opcode::KIL, Addressing::Implied, 2),
            0xB2 => Instruction(Opcode::KIL, Addressing::Implied, 2),
            0xD2 => Instruction(Opcode::KIL, Addressing::Implied, 2),
            0xF2 => Instruction(Opcode::KIL, Addressing::Implied, 2),
            0x03 => Instruction(Opcode::SLO, Addressing::IndexedIndirect, 8),
            0x04 => Instruction(Opcode::NOP, Addressing::ZeroPage, 3),
            0x0C => Instruction(Opcode::NOP, Addressing::Absolute, 4),
            0x14 => Instruction(Opcode::NOP, Addressing::ZeroPageX, 4),
            0x1A => Instruction(Opcode::NOP, Addressing::Implied, 2),
            0x1C => Instruction(Opcode::NOP, Addressing::AbsoluteX, 4),
            0x34 => Instruction(Opcode::NOP, Addressing::ZeroPageX, 4),
            0x3A => Instruction(Opcode::NOP, Addressing::Implied, 2),
            0x3C => Instruction(Opcode::NOP, Addressing::AbsoluteX, 4),
            0x44 => Instruction(Opcode::NOP, Addressing::ZeroPage, 3),
            0x54 => Instruction(Opcode::NOP, Addressing::ZeroPageX, 4),
            0x5A => Instruction(Opcode::NOP, Addressing::Implied, 2),
            0x5C => Instruction(Opcode::NOP, Addressing::AbsoluteX, 4),
            0x64 => Instruction(Opcode::NOP, Addressing::ZeroPage, 3),
            0x74 => Instruction(Opcode::NOP, Addressing::ZeroPageX, 4),
            0x7A => Instruction(Opcode::NOP, Addressing::Implied, 2),
            0x7C => Instruction(Opcode::NOP, Addressing::AbsoluteX, 4),
            0x80 => Instruction(Opcode::NOP, Addressing::Immediate, 2),
            0x82 => Instruction(Opcode::NOP, Addressing::Immediate, 2),
            0x89 => Instruction(Opcode::NOP, Addressing::Immediate, 2),
            0xC2 => Instruction(Opcode::NOP, Addressing::Immediate, 2),
            0xD4 => Instruction(Opcode::NOP, Addressing::ZeroPageX, 4),
            0xDA => Instruction(Opcode::NOP, Addressing::Implied, 2),
            0xDC => Instruction(Opcode::NOP, Addressing::AbsoluteX, 4),
            0xE2 => Instruction(Opcode::NOP, Addressing::Immediate, 2),
            0xF4 => Instruction(Opcode::NOP, Addressing::ZeroPageX, 4),
            0xFA => Instruction(Opcode::NOP, Addressing::Implied, 2),
            0xFC => Instruction(Opcode::NOP, Addressing::AbsoluteX, 4),
            _ => Instruction(Opcode::UNKNOWN(opcode), Addressing::UNKNOWN, 0),
        }
    }
}

impl From<u8> for Instruction {
    fn from(opcode: u8) -> Instruction {
        Instruction::decode(opcode)
    }
}

impl vstd::std_specs::convert::FromSpecImpl<u8> for Instruction {
    open spec fn obeys_from_spec() -> bool {
        true
    }

    open spec fn from_spec(opcode: u8) -> Instruction {
        decode(opcode)
    }
}

/// Decoding is total: every byte decodes either to an instruction of the
/// table, with a mode and a cost of 2 to 8 cycles, or to `UNKNOWN` carrying
/// that byte, with no mode and no cycles. It is deterministic because
/// `decode` is a spec function, which `Instruction::decode` is proved equal
/// to.
pub proof fn lemma_decode_total(opcode: u8)
    ensures
        decode(opcode).0 == Opcode::UNKNOWN(opcode) <==> decode(opcode).1 == Addressing::UNKNOWN,
        decode(opcode).1 == Addressing::UNKNOWN ==> decode(opcode).2 == 0,
        decode(opcode).1 != Addressing::UNKNOWN ==> 2 <= decode(opcode).2 <= 8,
{
}

} // verus!
