//! The instruction handlers and the fetch/decode/execute cycle.
use vstd::prelude::*;
use crate::cpu::{
    Cpu, CpuFault, registers_of, machine, add8, sub8, signed_of, is_negative_byte, make_word,
    CpuView, FaultKind, Flag, Interruption, Machine, address_spec, branch_spec, fetch_byte_spec,
    fetch_word_spec, flag_of, is_negative, operand_spec, push_spec, push_word_spec, read_spec,
    set_nz, signed8, with_cpu, with_flag, word, wrap8, write_spec,
};
use crate::instruction::{Addressing, Instruction, Opcode, decode};
use crate::nes::Nes;

verus! {

/// How a handler's result and the machine after it match what its spec
/// function gives: the extra cycles and the new machine, or the fault.
pub open spec fn completes(
    r: Result<usize, FaultKind>,
    after: Machine,
    expect: Result<(Machine, usize), FaultKind>,
) -> bool {
    match expect {
        Ok((m, extra)) => r == Ok::<usize, FaultKind>(extra) && after == m,
        Err(k) => r == Err::<usize, FaultKind>(k),
    }
}

pub open spec fn set_status(m: Machine, status: u8) -> Machine {
    with_cpu(m, CpuView { status, ..m.cpu })
}

pub open spec fn unsupported(op: Opcode, mode: Addressing) -> FaultKind {
    FaultKind::UnsupportedAddressing(op, mode)
}

/// One extra cycle when indexing crossed a page.
pub open spec fn penalty(crossed: bool) -> usize {
    if crossed { 1 } else { 0 }
}

/// The value operand of a load or compare, the extra cycles its indexing
/// costs, and the machine after it was read. Implied and accumulator modes
/// give no value operand.
pub open spec fn load_spec(m: Machine, op: Opcode, mode: Addressing) -> Result<(u8, usize, Machine), FaultKind> {
    if mode is Implied || mode is Accumulator {
        Err(unsupported(op, mode))
    } else {
        match operand_spec(m, mode) {
            Some((_, v, crossed, m1)) => Ok((v, penalty(crossed), m1)),
            None => Err(unsupported(op, mode)),
        }
    }
}

/// The memory target of a store or a read-modify-write.
pub open spec fn target_spec(m: Machine, op: Opcode, mode: Addressing) -> Result<(u16, Machine), FaultKind> {
    match address_spec(m, mode) {
        Some((a, _, m1)) => Ok((a, m1)),
        None => Err(unsupported(op, mode)),
    }
}

pub open spec fn clear_flag_spec(m: Machine, f: Flag) -> Result<(Machine, usize), FaultKind> {
    Ok((set_status(m, with_flag(m.cpu.status, f, false)), 0))
}

pub open spec fn sei_spec(m: Machine) -> Result<(Machine, usize), FaultKind> {
    Ok((set_status(m, with_flag(m.cpu.status, Flag::InterruptDisable, true)), 0))
}

/// Shift left: the bit shifted out goes to Carry; the result goes back where
/// the operand came from.
#[verifier::opaque]
pub open spec fn asl_spec(m: Machine, mode: Addressing) -> Result<(Machine, usize), FaultKind> {
    if mode is Accumulator {
        let v = m.cpu.a;
        let next = wrap8(v * 2);
        let st = set_nz(with_flag(m.cpu.status, Flag::Carry, is_negative(v)), next);
        Ok((with_cpu(m, CpuView { a: next, status: st, ..m.cpu }), 0))
    } else if mode is ZeroPage || mode is ZeroPageX || mode is Absolute || mode is AbsoluteX {
        match target_spec(m, Opcode::ASL, mode) {
            Ok((addr, m1)) => {
                let (v, m2) = read_spec(m1, addr);
                let next = wrap8(v * 2);
                let m3 = set_status(
                    m2,
                    set_nz(with_flag(m2.cpu.status, Flag::Carry, is_negative(v)), next),
                );
                match write_spec(m3, addr, next) {
                    Ok(m4) => Ok((m4, 0)),
                    Err(k) => Err(k),
                }
            },
            Err(k) => Err(k),
        }
    } else {
        Err(unsupported(Opcode::ASL, mode))
    }
}

/// The condition on which each branch is taken.
pub open spec fn branch_condition(op: Opcode, status: u8) -> bool {
    match op {
        Opcode::BMI => flag_of(status, Flag::Negative),
        Opcode::BNE => !flag_of(status, Flag::Zero),
        Opcode::BPL => !flag_of(status, Flag::Negative),
        _ => !flag_of(status, Flag::Overflow),
    }
}

#[verifier::opaque]
pub open spec fn conditional_branch_spec(m: Machine, op: Opcode, mode: Addressing) -> Result<(Machine, usize), FaultKind> {
    if mode is Relative {
        let (extra, m1) = branch_spec(m, branch_condition(op, m.cpu.status));
        Ok((m1, extra))
    } else {
        Err(unsupported(op, mode))
    }
}

/// A software interrupt: sets Break and raises the interruption that is
/// serviced at the end of the instruction.
#[verifier::opaque]
pub open spec fn brk_spec(m: Machine, mode: Addressing) -> Result<(Machine, usize), FaultKind> {
    if mode is Implied {
        let m1 = Machine { nes: Nes { cpu_interruption: Interruption::BRK, ..m.nes }, ..m };
        Ok((set_status(m1, with_flag(m.cpu.status, Flag::Break, true)), 0))
    } else {
        Err(unsupported(Opcode::BRK, mode))
    }
}

#[verifier::opaque]
pub open spec fn dec_spec(m: Machine, mode: Addressing) -> Result<(Machine, usize), FaultKind> {
    match target_spec(m, Opcode::DEC, mode) {
        Ok((a, m1)) => {
            let (v, m2) = read_spec(m1, a);
            let d = wrap8(v - 1);
            match write_spec(m2, a, d) {
                Ok(m3) => Ok((set_status(m3, set_nz(m3.cpu.status, d)), 0)),
                Err(k) => Err(k),
            }
        },
        Err(k) => Err(k),
    }
}

pub open spec fn dey_spec(m: Machine) -> Result<(Machine, usize), FaultKind> {
    let y = wrap8(m.cpu.y - 1);
    Ok((with_cpu(m, CpuView { y, status: set_nz(m.cpu.status, y), ..m.cpu }), 0))
}

pub open spec fn inx_spec(m: Machine) -> Result<(Machine, usize), FaultKind> {
    let x = wrap8(m.cpu.x + 1);
    Ok((with_cpu(m, CpuView { x, status: set_nz(m.cpu.status, x), ..m.cpu }), 0))
}

/// Subtract with borrow, as two chained 8-bit subtractions: Carry is clear
/// when either borrowed; Overflow is set when the signed difference leaves
/// the signed byte range.
pub open spec fn sbc_spec(a: u8, v: u8, status: u8) -> (u8, u8) {
    let c: int = if flag_of(status, Flag::Carry) { 0 } else { 1 };
    let r1 = wrap8(a - v);
    let r = wrap8(r1 - c);
    let borrowed = a < v || r1 < c;
    let sr = signed8(a) - signed8(v) - c;
    let st1 = with_flag(status, Flag::Carry, !borrowed);
    let st2 = with_flag(st1, Flag::Overflow, sr < -128 || sr > 127);
    (r, set_nz(st2, r))
}

/// Increment memory, then subtract it from the accumulator with borrow.
#[verifier::opaque]
pub open spec fn isc_spec(m: Machine, mode: Addressing) -> Result<(Machine, usize), FaultKind> {
    match target_spec(m, Opcode::ISC, mode) {
        Ok((addr, m1)) => {
            let (v, m2) = read_spec(m1, addr);
            let inc = wrap8(v + 1);
            match write_spec(m2, addr, inc) {
                Ok(m3) => {
                    let (r, st) = sbc_spec(m3.cpu.a, inc, m3.cpu.status);
                    Ok((with_cpu(m3, CpuView { a: r, status: st, ..m3.cpu }), 0))
                },
                Err(k) => Err(k),
            }
        },
        Err(k) => Err(k),
    }
}

#[verifier::opaque]
pub open spec fn jmp_spec(m: Machine, mode: Addressing) -> Result<(Machine, usize), FaultKind> {
    if mode is Absolute || mode is Indirect {
        match address_spec(m, mode) {
            Some((a, _, m1)) => Ok((with_cpu(m1, CpuView { pc: a, ..m1.cpu }), 0)),
            None => Err(unsupported(Opcode::JMP, mode)),
        }
    } else {
        Err(unsupported(Opcode::JMP, mode))
    }
}

/// Jump to subroutine: pushes the address after the operand, high byte
/// first, and jumps.
#[verifier::opaque]
pub open spec fn jsr_spec(m: Machine, mode: Addressing) -> Result<(Machine, usize), FaultKind> {
    if mode is Absolute {
        let (w, m1) = fetch_word_spec(m);
        let c = push_word_spec(m1.cpu, m1.cpu.pc);
        Ok((with_cpu(m1, CpuView { pc: w, ..c }), 0))
    } else {
        Err(unsupported(Opcode::JSR, mode))
    }
}

pub open spec fn kil_spec(m: Machine, mode: Addressing) -> Result<(Machine, usize), FaultKind> {
    if mode is Implied {
        Ok((m, 0))
    } else {
        Err(unsupported(Opcode::KIL, mode))
    }
}

#[verifier::opaque]
pub open spec fn lda_spec(m: Machine, mode: Addressing) -> Result<(Machine, usize), FaultKind> {
    match load_spec(m, Opcode::LDA, mode) {
        Ok((v, extra, m1)) => Ok(
            (with_cpu(m1, CpuView { a: v, status: set_nz(m1.cpu.status, v), ..m1.cpu }), extra),
        ),
        Err(k) => Err(k),
    }
}

#[verifier::opaque]
pub open spec fn ldx_spec(m: Machine, mode: Addressing) -> Result<(Machine, usize), FaultKind> {
    match load_spec(m, Opcode::LDX, mode) {
        Ok((v, extra, m1)) => Ok(
            (with_cpu(m1, CpuView { x: v, status: set_nz(m1.cpu.status, v), ..m1.cpu }), extra),
        ),
        Err(k) => Err(k),
    }
}

#[verifier::opaque]
pub open spec fn ldy_spec(m: Machine, mode: Addressing) -> Result<(Machine, usize), FaultKind> {
    match load_spec(m, Opcode::LDY, mode) {
        Ok((v, extra, m1)) => Ok(
            (with_cpu(m1, CpuView { y: v, status: set_nz(m1.cpu.status, v), ..m1.cpu }), extra),
        ),
        Err(k) => Err(k),
    }
}

/// Compare: Carry when the accumulator is at least the operand, Zero and
/// Negative from the difference.
#[verifier::opaque]
pub open spec fn cmp_spec(m: Machine, mode: Addressing) -> Result<(Machine, usize), FaultKind> {
    match load_spec(m, Opcode::CMP, mode) {
        Ok((v, extra, m1)) => {
            let st = set_nz(with_flag(m1.cpu.status, Flag::Carry, m1.cpu.a >= v), wrap8(m1.cpu.a - v));
            Ok((set_status(m1, st), extra))
        },
        Err(k) => Err(k),
    }
}

/// No operation, though the operand is fetched and read.
#[verifier::opaque]
pub open spec fn nop_spec(m: Machine, mode: Addressing) -> Result<(Machine, usize), FaultKind> {
    match operand_spec(m, mode) {
        Some((_, _, crossed, m1)) => Ok((m1, penalty(crossed))),
        None => Err(unsupported(Opcode::NOP, mode)),
    }
}

/// Shift memory left, then OR it into the accumulator.
#[verifier::opaque]
pub open spec fn slo_spec(m: Machine, mode: Addressing) -> Result<(Machine, usize), FaultKind> {
    match target_spec(m, Opcode::SLO, mode) {
        Ok((addr, m1)) => {
            let (v, m2) = read_spec(m1, addr);
            let shifted = wrap8(v * 2);
            match write_spec(m2, addr, shifted) {
                Ok(m3) => {
                    let a = m3.cpu.a | shifted;
                    let st = set_nz(with_flag(m3.cpu.status, Flag::Carry, is_negative(v)), a);
                    Ok((with_cpu(m3, CpuView { a, status: st, ..m3.cpu }), 0))
                },
                Err(k) => Err(k),
            }
        },
        Err(k) => Err(k),
    }
}

#[verifier::opaque]
pub open spec fn sta_spec(m: Machine, mode: Addressing) -> Result<(Machine, usize), FaultKind> {
    match target_spec(m, Opcode::STA, mode) {
        Ok((addr, m1)) => match write_spec(m1, addr, m1.cpu.a) {
            Ok(m2) => Ok((m2, 0)),
            Err(k) => Err(k),
        },
        Err(k) => Err(k),
    }
}

pub open spec fn txs_spec(m: Machine) -> Result<(Machine, usize), FaultKind> {
    Ok((with_cpu(m, CpuView { s: m.cpu.x as u16, ..m.cpu }), 0))
}

/// What the handler of `op` does with the machine after the opcode byte
/// was fetched: the new machine and the extra cycles, or the fault.
pub open spec fn handler_spec(m: Machine, opcode_byte: u8, op: Opcode, mode: Addressing) -> Result<(Machine, usize), FaultKind> {
    match op {
        Opcode::ASL => asl_spec(m, mode),
        Opcode::BMI | Opcode::BNE | Opcode::BPL | Opcode::BVC => conditional_branch_spec(m, op, mode),
        Opcode::BRK => brk_spec(m, mode),
        Opcode::CLC => clear_flag_spec(m, Flag::Carry),
        Opcode::CLD => clear_flag_spec(m, Flag::Decimal),
        Opcode::CLI => clear_flag_spec(m, Flag::InterruptDisable),
        Opcode::CLV => clear_flag_spec(m, Flag::Overflow),
        Opcode::CMP => cmp_spec(m, mode),
        Opcode::DEC => dec_spec(m, mode),
        Opcode::DEY => dey_spec(m),
        Opcode::INX => inx_spec(m),
        Opcode::ISC => isc_spec(m, mode),
        Opcode::JMP => jmp_spec(m, mode),
        Opcode::JSR => jsr_spec(m, mode),
        Opcode::KIL => kil_spec(m, mode),
        Opcode::LDA => lda_spec(m, mode),
        Opcode::LDX => ldx_spec(m, mode),
        Opcode::LDY => ldy_spec(m, mode),
        Opcode::NOP => nop_spec(m, mode),
        Opcode::SEI => sei_spec(m),
        Opcode::SLO => slo_spec(m, mode),
        Opcode::STA => sta_spec(m, mode),
        Opcode::TXS => txs_spec(m),
        _ => Err(FaultKind::UnknownOpcode(opcode_byte)),
    }
}

/// One instruction: fetch the opcode byte, decode it, run its handler. The
/// cycle count is the table's base count plus the handler's extra cycles.
pub open spec fn execute_spec(m: Machine) -> Result<(Machine, usize), FaultKind> {
    let (byte, m1) = fetch_byte_spec(m);
    let ins = decode(byte);
    match handler_spec(m1, byte, ins.0, ins.1) {
        Ok((m2, extra)) => Ok((m2, (ins.2 + extra) as usize)),
        Err(k) => Err(k),
    }
}

/// Servicing the pending interruption. A software interrupt, unless
/// interrupts are disabled, pushes the program counter (high byte first)
/// and the status, disables interrupts and jumps through the vector at
/// 0xFFFE. The other kinds are not modelled. Either way the interruption is
/// consumed.
pub open spec fn interrupt_spec(m: Machine) -> Machine {
    let idle = Machine { nes: Nes { cpu_interruption: Interruption::Idle, ..m.nes }, ..m };
    if m.nes.cpu_interruption is BRK && !flag_of(m.cpu.status, Flag::InterruptDisable) {
        let c1 = push_spec(push_word_spec(m.cpu, m.cpu.pc), m.cpu.status);
        let m2 = with_cpu(
            idle,
            CpuView { status: with_flag(c1.status, Flag::InterruptDisable, true), ..c1 },
        );
        let (hi, m3) = read_spec(m2, 0xFFFF);
        let (lo, m4) = read_spec(m3, 0xFFFE);
        with_cpu(m4, CpuView { pc: word(lo, hi), ..m4.cpu })
    } else {
        idle
    }
}

/// A whole step: one instruction, then the interruption check.
pub open spec fn tick_spec(m: Machine) -> Result<(Machine, usize), FaultKind> {
    match execute_spec(m) {
        Ok((m1, cycles)) => Ok((interrupt_spec(m1), cycles)),
        Err(k) => Err(k),
    }
}

/// The extra cycles of a page crossing.
fn penalty_of(crossed: bool) -> (r: usize)
    ensures
        r == penalty(crossed),
{
    if crossed {
        1
    } else {
        0
    }
}

impl Cpu {
    fn load_operand(&mut self, nes: &mut Nes, op: Opcode, mode: Addressing) -> (r: Result<(u8, usize), FaultKind>)
        requires
            old(self).wf(),
        ensures
            final(self).wf(),
            r matches Ok((_, extra)) ==> extra <= 1,
            match load_spec(machine(*old(self), *old(nes)), op, mode) {
                Ok((v, extra, m)) => r == Ok::<(u8, usize), FaultKind>((v, extra))
                    && machine(*final(self), *final(nes)) == m,
                Err(k) => r == Err::<(u8, usize), FaultKind>(k),
            },
    {
        match mode {
            Addressing::Implied | Addressing::Accumulator => Err(FaultKind::UnsupportedAddressing(op, mode)),
            _ => match self.fetch_addressed_data(nes, mode) {
                Some((_, v, crossed)) => Ok((v, penalty_of(crossed))),
                None => Err(FaultKind::UnsupportedAddressing(op, mode)),
            },
        }
    }

    fn memory_target(&mut self, nes: &mut Nes, op: Opcode, mode: Addressing) -> (r: Result<u16, FaultKind>)
        requires
            old(self).wf(),
        ensures
            final(self).wf(),
            match target_spec(machine(*old(self), *old(nes)), op, mode) {
                Ok((a, m)) => r == Ok::<u16, FaultKind>(a) && machine(*final(self), *final(nes)) == m,
                Err(k) => r == Err::<u16, FaultKind>(k),
            },
    {
        match self.resolve_address(nes, mode) {
            Some((a, _)) => Ok(a),
            None => Err(FaultKind::UnsupportedAddressing(op, mode)),
        }
    }

    fn instruction_clear_flag(&mut self, flag: Flag) -> (r: usize)
        requires
            old(self).wf(),
        ensures
            final(self).wf(),
            final(self)@ == (CpuView { status: with_flag(old(self).status, flag, false), ..old(self)@ }),
            r == 0,
    {
        self.write_flag(flag, false);
        0
    }

    fn instruction_sei(&mut self) -> (r: usize)
        requires
            old(self).wf(),
        ensures
            final(self).wf(),
            final(self)@ == (CpuView {
                status: with_flag(old(self).status, Flag::InterruptDisable, true),
                ..old(self)@
            }),
            r == 0,
    {
        self.write_flag(Flag::InterruptDisable, true);
        0
    }

    fn instruction_asl(&mut self, nes: &mut Nes, mode: Addressing) -> (r: Result<usize, FaultKind>)
        requires
            old(self).wf(),
        ensures
            final(self).wf(),
            r matches Ok(extra) ==> extra <= 2,
            completes(r, machine(*final(self), *final(nes)), asl_spec(machine(*old(self), *old(nes)), mode)),
    {
        proof {
            reveal(asl_spec);
        }
        match mode {
            Addressing::Accumulator => {
                let v = self.a;
                let next = add8(v, v);
                self.write_flag(Flag::Carry, is_negative_byte(v));
                self.set_nz_flags(next);
                self.a = next;
                return Ok(0);
            },
            Addressing::ZeroPage | Addressing::ZeroPageX | Addressing::Absolute
            | Addressing::AbsoluteX => {},
            _ => return Err(FaultKind::UnsupportedAddressing(Opcode::ASL, mode)),
        }
        let addr = match self.memory_target(nes, Opcode::ASL, mode) {
            Ok(a) => a,
            Err(k) => return Err(k),
        };
        let v = self.read(nes, addr);
        let next = add8(v, v);
        self.write_flag(Flag::Carry, is_negative_byte(v));
        self.set_nz_flags(next);
        match self.write(nes, addr, next) {
            Ok(()) => Ok(0),
            Err(k) => Err(k),
        }
    }

    fn branch_if(&mut self, nes: &mut Nes, op: Opcode, mode: Addressing, condition: bool) -> (r: Result<usize, FaultKind>)
        requires
            old(self).wf(),
            condition == branch_condition(op, old(self).status),
        ensures
            final(self).wf(),
            r matches Ok(extra) ==> extra <= 2,
            completes(
                r,
                machine(*final(self), *final(nes)),
                conditional_branch_spec(machine(*old(self), *old(nes)), op, mode),
            ),
    {
        proof {
            reveal(conditional_branch_spec);
        }
        match mode {
            Addressing::Relative => Ok(self.branch_relative(nes, condition)),
            _ => Err(FaultKind::UnsupportedAddressing(op, mode)),
        }
    }

    /// Branch if minus.
    fn instruction_bmi(&mut self, nes: &mut Nes, mode: Addressing) -> (r: Result<usize, FaultKind>)
        requires
            old(self).wf(),
        ensures
            final(self).wf(),
            r matches Ok(extra) ==> extra <= 2,
            completes(
                r,
                machine(*final(self), *final(nes)),
                conditional_branch_spec(machine(*old(self), *old(nes)), Opcode::BMI, mode),
            ),
    {
        let c = self.read_flag(Flag::Negative);
        self.branch_if(nes, Opcode::BMI, mode, c)
    }

    /// Branch if not equal.
    fn instruction_bne(&mut self, nes: &mut Nes, mode: Addressing) -> (r: Result<usize, FaultKind>)
        requires
            old(self).wf(),
        ensures
            final(self).wf(),
            r matches Ok(extra) ==> extra <= 2,
            completes(
                r,
                machine(*final(self), *final(nes)),
                conditional_branch_spec(machine(*old(self), *old(nes)), Opcode::BNE, mode),
            ),
    {
        let c = !self.read_flag(Flag::Zero);
        self.branch_if(nes, Opcode::BNE, mode, c)
    }

    /// Branch if plus.
    fn instruction_bpl(&mut self, nes: &mut Nes, mode: Addressing) -> (r: Result<usize, FaultKind>)
        requires
            old(self).wf(),
        ensures
            final(self).wf(),
            r matches Ok(extra) ==> extra <= 2,
            completes(
                r,
                machine(*final(self), *final(nes)),
                conditional_branch_spec(machine(*old(self), *old(nes)), Opcode::BPL, mode),
            ),
    {
        let c = !self.read_flag(Flag::Negative);
        self.branch_if(nes, Opcode::BPL, mode, c)
    }

    /// Branch if overflow clear.
    fn instruction_bvc(&mut self, nes: &mut Nes, mode: Addressing) -> (r: Result<usize, FaultKind>)
        requires
            old(self).wf(),
        ensures
            final(self).wf(),
            r matches Ok(extra) ==> extra <= 2,
            completes(
                r,
                machine(*final(self), *final(nes)),
                conditional_branch_spec(machine(*old(self), *old(nes)), Opcode::BVC, mode),
            ),
    {
        let c = !self.read_flag(Flag::Overflow);
        self.branch_if(nes, Opcode::BVC, mode, c)
    }

    fn instruction_brk(&mut self, nes: &mut Nes, mode: Addressing) -> (r: Result<usize, FaultKind>)
        requires
            old(self).wf(),
        ensures
            final(self).wf(),
            r matches Ok(extra) ==> extra <= 2,
            completes(r, machine(*final(self), *final(nes)), brk_spec(machine(*old(self), *old(nes)), mode)),
    {
        proof {
            reveal(brk_spec);
        }
        match mode {
            Addressing::Implied => {
                nes.cpu_interruption = Interruption::BRK;
                self.write_flag(Flag::Break, true);
                Ok(0)
            },
            _ => Err(FaultKind::UnsupportedAddressing(Opcode::BRK, mode)),
        }
    }

    fn instruction_dec(&mut self, nes: &mut Nes, mode: Addressing) -> (r: Result<usize, FaultKind>)
        requires
            old(self).wf(),
        ensures
            final(self).wf(),
            r matches Ok(extra) ==> extra <= 2,
            completes(r, machine(*final(self), *final(nes)), dec_spec(machine(*old(self), *old(nes)), mode)),
    {
        proof {
            reveal(dec_spec);
        }
        let addr = match self.memory_target(nes, Opcode::DEC, mode) {
            Ok(a) => a,
            Err(k) => return Err(k),
        };
        let v = self.read(nes, addr);
        let d = sub8(v, 1);
        match self.write(nes, addr, d) {
            Ok(()) => {},
            Err(k) => return Err(k),
        }
        self.set_nz_flags(d);
        Ok(0)
    }

    fn instruction_dey(&mut self) -> (r: usize)
        requires
            old(self).wf(),
        ensures
            final(self).wf(),
            final(self)@ == (CpuView {
                y: wrap8(old(self).y - 1),
                status: set_nz(old(self).status, wrap8(old(self).y - 1)),
                ..old(self)@
            }),
            r == 0,
    {
        self.y = sub8(self.y, 1);
        let y = self.y;
        self.set_nz_flags(y);
        0
    }

    fn instruction_inx(&mut self) -> (r: usize)
        requires
            old(self).wf(),
        ensures
            final(self).wf(),
            final(self)@ == (CpuView {
                x: wrap8(old(self).x + 1),
                status: set_nz(old(self).status, wrap8(old(self).x + 1)),
                ..old(self)@
            }),
            r == 0,
    {
        self.x = add8(self.x, 1);
        let x = self.x;
        self.set_nz_flags(x);
        0
    }

    fn instruction_txs(&mut self) -> (r: usize)
        requires
            old(self).wf(),
        ensures
            final(self).wf(),
            final(self)@ == (CpuView { s: old(self).x as u16, ..old(self)@ }),
            r == 0,
    {
        self.s = self.x as u16;
        0
    }

    /// Subtracts `v` from the accumulator with borrow.
    fn subtract_with_borrow(&mut self, v: u8)
        requires
            old(self).wf(),
        ensures
            final(self).wf(),
            ({
                let (r, st) = sbc_spec(old(self).a, v, old(self).status);
                final(self)@ == (CpuView { a: r, status: st, ..old(self)@ })
            }),
    {
        let c: u8 = if self.read_flag(Flag::Carry) {
            0
        } else {
            1
        };
        let a = self.a;
        let r1 = sub8(a, v);
        let r = sub8(r1, c);
        let borrowed = a < v || r1 < c;
        let sr: i16 = signed_of(a) - signed_of(v) - c as i16;
        self.write_flag(Flag::Carry, !borrowed);
        self.write_flag(Flag::Overflow, sr < -128 || sr > 127);
        self.set_nz_flags(r);
        self.a = r;
    }

    fn instruction_isc(&mut self, nes: &mut Nes, mode: Addressing) -> (r: Result<usize, FaultKind>)
        requires
            old(self).wf(),
        ensures
            final(self).wf(),
            r matches Ok(extra) ==> extra <= 2,
            completes(r, machine(*final(self), *final(nes)), isc_spec(machine(*old(self), *old(nes)), mode)),
    {
        proof {
            reveal(isc_spec);
        }
        let addr = match self.memory_target(nes, Opcode::ISC, mode) {
            Ok(a) => a,
            Err(k) => return Err(k),
        };
        let v = self.read(nes, addr);
        let inc = add8(v, 1);
        match self.write(nes, addr, inc) {
            Ok(()) => {},
            Err(k) => return Err(k),
        }
        self.subtract_with_borrow(inc);
        Ok(0)
    }

    fn instruction_jmp(&mut self, nes: &mut Nes, mode: Addressing) -> (r: Result<usize, FaultKind>)
        requires
            old(self).wf(),
        ensures
            final(self).wf(),
            r matches Ok(extra) ==> extra <= 2,
            completes(r, machine(*final(self), *final(nes)), jmp_spec(machine(*old(self), *old(nes)), mode)),
    {
        proof {
            reveal(jmp_spec);
        }
        match mode {
            Addressing::Absolute | Addressing::Indirect => match self.resolve_address(nes, mode) {
                Some((a, _)) => {
                    self.pc = a;
                    Ok(0)
                },
                None => Err(FaultKind::UnsupportedAddressing(Opcode::JMP, mode)),
            },
            _ => Err(FaultKind::UnsupportedAddressing(Opcode::JMP, mode)),
        }
    }

    fn instruction_jsr(&mut self, nes: &mut Nes, mode: Addressing) -> (r: Result<usize, FaultKind>)
        requires
            old(self).wf(),
        ensures
            final(self).wf(),
            r matches Ok(extra) ==> extra <= 2,
            completes(r, machine(*final(self), *final(nes)), jsr_spec(machine(*old(self), *old(nes)), mode)),
    {
        proof {
            reveal(jsr_spec);
        }
        match mode {
            Addressing::Absolute => {
                let w = self.fetch_word(nes);
                let pc = self.pc;
                self.push_word(pc);
                self.pc = w;
                Ok(0)
            },
            _ => Err(FaultKind::UnsupportedAddressing(Opcode::JSR, mode)),
        }
    }

    /// The undocumented halt, taken as doing nothing.
    fn instruction_kil(&mut self, mode: Addressing) -> (r: Result<usize, FaultKind>)
        ensures
            *final(self) == *old(self),
            r == (match mode {
                Addressing::Implied => Ok::<usize, FaultKind>(0),
                _ => Err(FaultKind::UnsupportedAddressing(Opcode::KIL, mode)),
            }),
    {
        match mode {
            Addressing::Implied => Ok(0),
            _ => Err(FaultKind::UnsupportedAddressing(Opcode::KIL, mode)),
        }
    }

    fn instruction_lda(&mut self, nes: &mut Nes, mode: Addressing) -> (r: Result<usize, FaultKind>)
        requires
            old(self).wf(),
        ensures
            final(self).wf(),
            r matches Ok(extra) ==> extra <= 2,
            completes(r, machine(*final(self), *final(nes)), lda_spec(machine(*old(self), *old(nes)), mode)),
    {
        proof {
            reveal(lda_spec);
        }
        match self.load_operand(nes, Opcode::LDA, mode) {
            Ok((v, extra)) => {
                self.a = v;
                self.set_nz_flags(v);
                Ok(extra)
            },
            Err(k) => Err(k),
        }
    }

    fn instruction_ldx(&mut self, nes: &mut Nes, mode: Addressing) -> (r: Result<usize, FaultKind>)
        requires
            old(self).wf(),
        ensures
            final(self).wf(),
            r matches Ok(extra) ==> extra <= 2,
            completes(r, machine(*final(self), *final(nes)), ldx_spec(machine(*old(self), *old(nes)), mode)),
    {
        proof {
            reveal(ldx_spec);
        }
        match self.load_operand(nes, Opcode::LDX, mode) {
            Ok((v, extra)) => {
                self.x = v;
                self.set_nz_flags(v);
                Ok(extra)
            },
            Err(k) => Err(k),
        }
    }

    fn instruction_ldy(&mut self, nes: &mut Nes, mode: Addressing) -> (r: Result<usize, FaultKind>)
        requires
            old(self).wf(),
        ensures
            final(self).wf(),
            r matches Ok(extra) ==> extra <= 2,
            completes(r, machine(*final(self), *final(nes)), ldy_spec(machine(*old(self), *old(nes)), mode)),
    {
        proof {
            reveal(ldy_spec);
        }
        match self.load_operand(nes, Opcode::LDY, mode) {
            Ok((v, extra)) => {
                self.y = v;
                self.set_nz_flags(v);
                Ok(extra)
            },
            Err(k) => Err(k),
        }
    }

    fn instruction_cmp(&mut self, nes: &mut Nes, mode: Addressing) -> (r: Result<usize, FaultKind>)
        requires
            old(self).wf(),
        ensures
            final(self).wf(),
            r matches Ok(extra) ==> extra <= 2,
            completes(r, machine(*final(self), *final(nes)), cmp_spec(machine(*old(self), *old(nes)), mode)),
    {
        proof {
            reveal(cmp_spec);
        }
        match self.load_operand(nes, Opcode::CMP, mode) {
            Ok((v, extra)) => {
                let a = self.a;
                self.write_flag(Flag::Carry, a >= v);
                self.set_nz_flags(sub8(a, v));
                Ok(extra)
            },
            Err(k) => Err(k),
        }
    }

    fn instruction_nop(&mut self, nes: &mut Nes, mode: Addressing) -> (r: Result<usize, FaultKind>)
        requires
            old(self).wf(),
        ensures
            final(self).wf(),
            r matches Ok(extra) ==> extra <= 2,
            completes(r, machine(*final(self), *final(nes)), nop_spec(machine(*old(self), *old(nes)), mode)),
    {
        proof {
            reveal(nop_spec);
        }
        match self.fetch_addressed_data(nes, mode) {
            Some((_, _, crossed)) => Ok(penalty_of(crossed)),
            None => Err(FaultKind::UnsupportedAddressing(Opcode::NOP, mode)),
        }
    }

    #[verifier::rlimit(40)]
    fn instruction_slo(&mut self, nes: &mut Nes, mode: Addressing) -> (r: Result<usize, FaultKind>)
        requires
            old(self).wf(),
        ensures
            final(self).wf(),
            r matches Ok(extra) ==> extra <= 2,
            completes(r, machine(*final(self), *final(nes)), slo_spec(machine(*old(self), *old(nes)), mode)),
    {
        proof {
            reveal(slo_spec);
        }
        let addr = match self.memory_target(nes, Opcode::SLO, mode) {
            Ok(a) => a,
            Err(k) => return Err(k),
        };
        let v = self.read(nes, addr);
        let shifted = add8(v, v);
        match self.write(nes, addr, shifted) {
            Ok(()) => {},
            Err(k) => return Err(k),
        }
        let a = self.a | shifted;
        self.write_flag(Flag::Carry, is_negative_byte(v));
        self.set_nz_flags(a);
        self.a = a;
        Ok(0)
    }

    fn instruction_sta(&mut self, nes: &mut Nes, mode: Addressing) -> (r: Result<usize, FaultKind>)
        requires
            old(self).wf(),
        ensures
            final(self).wf(),
            r matches Ok(extra) ==> extra <= 2,
            completes(r, machine(*final(self), *final(nes)), sta_spec(machine(*old(self), *old(nes)), mode)),
    {
        proof {
            reveal(sta_spec);
        }
        let addr = match self.memory_target(nes, Opcode::STA, mode) {
            Ok(a) => a,
            Err(k) => return Err(k),
        };
        let a = self.a;
        match self.write(nes, addr, a) {
            Ok(()) => Ok(0),
            Err(k) => Err(k),
        }
    }


    /// Runs the handler of a decoded instruction; the opcode byte is fetched.
    fn run_handler(&mut self, nes: &mut Nes, byte: u8, op: Opcode, mode: Addressing) -> (r: Result<usize, FaultKind>)
        requires
            old(self).wf(),
        ensures
            final(self).wf(),
            completes(r, machine(*final(self), *final(nes)), handler_spec(machine(*old(self), *old(nes)), byte, op, mode)),
            r matches Ok(extra) ==> extra <= 2,
    {
        match op {
            Opcode::ASL | Opcode::BMI | Opcode::BNE | Opcode::BPL | Opcode::BRK | Opcode::BVC | Opcode::CMP | Opcode::DEC | Opcode::ISC => self.run_group_a(nes, byte, op, mode),
            Opcode::JMP | Opcode::JSR | Opcode::LDA | Opcode::LDX | Opcode::LDY | Opcode::NOP | Opcode::SLO | Opcode::STA => self.run_group_b(nes, byte, op, mode),
            Opcode::CLC | Opcode::CLD | Opcode::CLI | Opcode::CLV | Opcode::DEY | Opcode::INX | Opcode::KIL | Opcode::SEI | Opcode::TXS => self.run_register_group(nes, byte, op, mode),
            _ => Err(FaultKind::UnknownOpcode(byte)),
        }
    }

    /// Handlers from ASL to ISC that reach memory.
    fn run_group_a(&mut self, nes: &mut Nes, byte: u8, op: Opcode, mode: Addressing) -> (r: Result<usize, FaultKind>)
        requires
            old(self).wf(),
            op is ASL || op is BMI || op is BNE || op is BPL || op is BRK || op is BVC || op is CMP || op is DEC || op is ISC,
        ensures
            final(self).wf(),
            completes(r, machine(*final(self), *final(nes)), handler_spec(machine(*old(self), *old(nes)), byte, op, mode)),
            r matches Ok(extra) ==> extra <= 2,
    {
        match op {
            Opcode::ASL => self.instruction_asl(nes, mode),
            Opcode::BMI => self.instruction_bmi(nes, mode),
            Opcode::BNE => self.instruction_bne(nes, mode),
            Opcode::BPL => self.instruction_bpl(nes, mode),
            Opcode::BRK => self.instruction_brk(nes, mode),
            Opcode::BVC => self.instruction_bvc(nes, mode),
            Opcode::CMP => self.instruction_cmp(nes, mode),
            Opcode::DEC => self.instruction_dec(nes, mode),
            Opcode::ISC => self.instruction_isc(nes, mode),
            _ => vstd::pervasive::unreached(),
        }
    }

    /// Handlers from JMP to STA that reach memory.
    fn run_group_b(&mut self, nes: &mut Nes, byte: u8, op: Opcode, mode: Addressing) -> (r: Result<usize, FaultKind>)
        requires
            old(self).wf(),
            op is JMP || op is JSR || op is LDA || op is LDX || op is LDY || op is NOP || op is SLO || op is STA,
        ensures
            final(self).wf(),
            completes(r, machine(*final(self), *final(nes)), handler_spec(machine(*old(self), *old(nes)), byte, op, mode)),
            r matches Ok(extra) ==> extra <= 2,
    {
        match op {
            Opcode::JMP => self.instruction_jmp(nes, mode),
            Opcode::JSR => self.instruction_jsr(nes, mode),
            Opcode::LDA => self.instruction_lda(nes, mode),
            Opcode::LDX => self.instruction_ldx(nes, mode),
            Opcode::LDY => self.instruction_ldy(nes, mode),
            Opcode::NOP => self.instruction_nop(nes, mode),
            Opcode::SLO => self.instruction_slo(nes, mode),
            Opcode::STA => self.instruction_sta(nes, mode),
            _ => vstd::pervasive::unreached(),
        }
    }

    /// Handlers that touch registers only.
    fn run_register_group(&mut self, nes: &mut Nes, byte: u8, op: Opcode, mode: Addressing) -> (r: Result<usize, FaultKind>)
        requires
            old(self).wf(),
            op is CLC || op is CLD || op is CLI || op is CLV || op is DEY || op is INX || op is KIL || op is SEI || op is TXS,
        ensures
            final(self).wf(),
            completes(r, machine(*final(self), *final(nes)), handler_spec(machine(*old(self), *old(nes)), byte, op, mode)),
            r matches Ok(extra) ==> extra <= 2,
    {
        match op {
            Opcode::CLC => Ok(self.instruction_clear_flag(Flag::Carry)),
            Opcode::CLD => Ok(self.instruction_clear_flag(Flag::Decimal)),
            Opcode::CLI => Ok(self.instruction_clear_flag(Flag::InterruptDisable)),
            Opcode::CLV => Ok(self.instruction_clear_flag(Flag::Overflow)),
            Opcode::DEY => Ok(self.instruction_dey()),
            Opcode::INX => Ok(self.instruction_inx()),
            Opcode::KIL => self.instruction_kil(mode),
            Opcode::SEI => Ok(self.instruction_sei()),
            Opcode::TXS => Ok(self.instruction_txs()),
            _ => vstd::pervasive::unreached(),
        }
    }

    /// Fetches, decodes and executes one instruction and returns the cycles
    /// it took; a fault carries the registers as they were before it.
    pub fn execute_instruction(&mut self, nes: &mut Nes) -> (r: Result<usize, CpuFault>)
        requires
            old(self).wf(),
        ensures
            final(self).wf(),
            match execute_spec(machine(*old(self), *old(nes))) {
                Ok((m, cycles)) => r == Ok::<usize, CpuFault>(cycles)
                    && machine(*final(self), *final(nes)) == m,
                Err(k) => r == Err::<usize, CpuFault>(
                    CpuFault { kind: k, registers: registers_of(old(self)@) },
                ),
            },
    {
        let registers = self.registers();
        let byte = self.fetch_byte(nes);
        let Instruction(op, mode, cycles) = Instruction::decode(byte);
        match self.run_handler(nes, byte, op, mode) {
            Ok(extra) => Ok(cycles + extra),
            Err(kind) => Err(CpuFault { kind, registers }),
        }
    }

    /// Services the pending interruption, once, after an instruction.
    pub fn interrupt(&mut self, nes: &mut Nes)
        requires
            old(self).wf(),
        ensures
            final(self).wf(),
            machine(*final(self), *final(nes)) == interrupt_spec(machine(*old(self), *old(nes))),
    {
        let pending = nes.cpu_interruption;
        nes.cpu_interruption = Interruption::Idle;
        if let Interruption::BRK = pending {
            if !self.read_flag(Flag::InterruptDisable) {
                let pc = self.pc;
                self.push_word(pc);
                let status = self.status;
                self.push_byte(status);
                self.write_flag(Flag::InterruptDisable, true);
                let hi = self.read(nes, 0xFFFF);
                let lo = self.read(nes, 0xFFFE);
                self.pc = make_word(lo, hi);
            }
        }
    }

    /// One step of the processor: an instruction, then the interruption
    /// check. Returns the cycles the instruction took.
    pub fn tick(&mut self, nes: &mut Nes) -> (r: Result<usize, CpuFault>)
        requires
            old(self).wf(),
        ensures
            final(self).wf(),
            match tick_spec(machine(*old(self), *old(nes))) {
                Ok((m, cycles)) => r == Ok::<usize, CpuFault>(cycles)
                    && machine(*final(self), *final(nes)) == m,
                Err(k) => r == Err::<usize, CpuFault>(
                    CpuFault { kind: k, registers: registers_of(old(self)@) },
                ),
            },
    {
        match self.execute_instruction(nes) {
            Ok(cycles) => {
                self.interrupt(nes);
                Ok(cycles)
            },
            Err(f) => Err(f),
        }
    }

}

} // verus!
