//! Laws of the emulator that relate several operations, stated over the
//! spec functions that the operations' contracts use, and proved.
use vstd::prelude::*;
use crate::cpu::{
    CpuView, Flag, Machine, RAM_SIZE, address_spec, branch_target, fetch_byte_spec, flag_mask,
    flag_of, is_negative, page, ram_index, pop_spec, push_word_spec, read_spec, set_nz, signed8, with_flag,
    word, wrap8, write_spec,
};
use crate::execute::{
    asl_spec, branch_condition, cmp_spec, conditional_branch_spec, dec_spec, execute_spec,
    handler_spec, isc_spec, lda_spec, ldx_spec, ldy_spec, load_spec, nop_spec, penalty, sbc_spec,
    slo_spec, sta_spec, target_spec,
};
use crate::instruction::{Addressing, Opcode, decode};
use crate::ppu::{PpuView, handle_io_spec, ppu_read_byte, ppu_write_byte};
use crate::ppu_register_bus::{PpuDataStatus, PpuRegisterBus, cpu_read_spec, cpu_write_spec};

verus! {

pub open spec fn is_flag_mask(m: u8) -> bool {
    m == 1 || m == 2 || m == 4 || m == 8 || m == 16 || m == 64 || m == 128
}

proof fn lemma_set_bit(s: u8, m: u8, n: u8)
    requires
        is_flag_mask(m),
        is_flag_mask(n),
    ensures
        ((s | m) & n == n) == (m == n || s & n == n),
{
    assert(((s | m) & n == n) == (m == n || s & n == n)) by (bit_vector)
        requires
            m == 1u8 || m == 2u8 || m == 4u8 || m == 8u8 || m == 16u8 || m == 64u8 || m == 128u8,
            n == 1u8 || n == 2u8 || n == 4u8 || n == 8u8 || n == 16u8 || n == 64u8 || n == 128u8,
    ;
}

proof fn lemma_clear_bit(s: u8, m: u8, n: u8)
    requires
        is_flag_mask(m),
        is_flag_mask(n),
    ensures
        ((s & !m) & n == n) == (m != n && s & n == n),
{
    assert(((s & !m) & n == n) == (m != n && s & n == n)) by (bit_vector)
        requires
            m == 1u8 || m == 2u8 || m == 4u8 || m == 8u8 || m == 16u8 || m == 64u8 || m == 128u8,
            n == 1u8 || n == 2u8 || n == 4u8 || n == 8u8 || n == 16u8 || n == 64u8 || n == 128u8,
    ;
}

/// Writing a flag sets that flag to the value written and keeps the others.
pub proof fn lemma_with_flag(status: u8, f: Flag, v: bool, g: Flag)
    ensures
        flag_of(with_flag(status, f, v), g) == if f == g {
            v
        } else {
            flag_of(status, g)
        },
{
    assert(flag_mask(f) == flag_mask(g) <==> f == g);
    if v {
        lemma_set_bit(status, flag_mask(f), flag_mask(g));
    } else {
        lemma_clear_bit(status, flag_mask(f), flag_mask(g));
    }
}

/// Recomputing Zero and Negative from a result `v`: Zero is set exactly
/// when `v` is 0, Negative exactly when bit 7 of `v` is set, and the other
/// flags are kept.
pub proof fn lemma_nz_flags(status: u8, v: u8)
    ensures
        flag_of(set_nz(status, v), Flag::Zero) == (v == 0),
        flag_of(set_nz(status, v), Flag::Negative) == (v >= 0x80),
        forall|g: Flag|
            g != Flag::Zero && g != Flag::Negative ==> #[trigger] flag_of(set_nz(status, v), g)
                == flag_of(status, g),
{
    let s1 = with_flag(status, Flag::Zero, v == 0);
    lemma_with_flag(s1, Flag::Negative, v >= 0x80, Flag::Zero);
    lemma_with_flag(status, Flag::Zero, v == 0, Flag::Zero);
    lemma_with_flag(s1, Flag::Negative, v >= 0x80, Flag::Negative);
    assert forall|g: Flag| g != Flag::Zero && g != Flag::Negative implies #[trigger] flag_of(
        set_nz(status, v),
        g,
    ) == flag_of(status, g) by {
        lemma_with_flag(s1, Flag::Negative, v >= 0x80, g);
        lemma_with_flag(status, Flag::Zero, v == 0, g);
    }
}

/// After each load, after the register increments and decrements, after a
/// shift of the accumulator, and after the arithmetic and logic
/// instructions that leave their result in the accumulator, Zero is set
/// exactly when the result is 0 and Negative exactly when its bit 7 is set.
pub proof fn lemma_results_set_zero_and_negative(m: Machine, mode: Addressing)
    ensures
        lda_spec(m, mode) matches Ok((m1, _)) ==> flag_of(m1.cpu.status, Flag::Zero) == (m1.cpu.a == 0)
            && flag_of(m1.cpu.status, Flag::Negative) == (m1.cpu.a >= 0x80),
        ldx_spec(m, mode) matches Ok((m1, _)) ==> flag_of(m1.cpu.status, Flag::Zero) == (m1.cpu.x == 0)
            && flag_of(m1.cpu.status, Flag::Negative) == (m1.cpu.x >= 0x80),
        ldy_spec(m, mode) matches Ok((m1, _)) ==> flag_of(m1.cpu.status, Flag::Zero) == (m1.cpu.y == 0)
            && flag_of(m1.cpu.status, Flag::Negative) == (m1.cpu.y >= 0x80),
        isc_spec(m, mode) matches Ok((m1, _)) ==> flag_of(m1.cpu.status, Flag::Zero) == (m1.cpu.a == 0)
            && flag_of(m1.cpu.status, Flag::Negative) == (m1.cpu.a >= 0x80),
        slo_spec(m, mode) matches Ok((m1, _)) ==> flag_of(m1.cpu.status, Flag::Zero) == (m1.cpu.a == 0)
            && flag_of(m1.cpu.status, Flag::Negative) == (m1.cpu.a >= 0x80),
        mode is Accumulator ==> (asl_spec(m, mode) matches Ok((m1, _)) ==> flag_of(m1.cpu.status, Flag::Zero)
            == (m1.cpu.a == 0) && flag_of(m1.cpu.status, Flag::Negative) == (m1.cpu.a >= 0x80)),
        handler_spec(m, 0x88, Opcode::DEY, mode) matches Ok((m1, _)) ==> flag_of(m1.cpu.status, Flag::Zero)
            == (m1.cpu.y == 0) && flag_of(m1.cpu.status, Flag::Negative) == (m1.cpu.y >= 0x80),
        handler_spec(m, 0xE8, Opcode::INX, mode) matches Ok((m1, _)) ==> flag_of(m1.cpu.status, Flag::Zero)
            == (m1.cpu.x == 0) && flag_of(m1.cpu.status, Flag::Negative) == (m1.cpu.x >= 0x80),
{
    reveal(lda_spec);
    reveal(ldx_spec);
    reveal(ldy_spec);
    reveal(isc_spec);
    reveal(slo_spec);
    reveal(asl_spec);
    if let Ok((v, _, m1)) = load_spec(m, Opcode::LDA, mode) {
        lemma_nz_flags(m1.cpu.status, v);
    }
    if let Ok((v, _, m1)) = load_spec(m, Opcode::LDX, mode) {
        lemma_nz_flags(m1.cpu.status, v);
    }
    if let Ok((v, _, m1)) = load_spec(m, Opcode::LDY, mode) {
        lemma_nz_flags(m1.cpu.status, v);
    }
    if isc_spec(m, mode) is Ok {
        let (addr, ma) = target_spec(m, Opcode::ISC, mode)->Ok_0;
        let (v, mb) = read_spec(ma, addr);
        let inc = wrap8(v + 1);
        let mc = write_spec(mb, addr, inc)->Ok_0;
        let (r, st) = sbc_spec(mc.cpu.a, inc, mc.cpu.status);
        let c: int = if flag_of(mc.cpu.status, Flag::Carry) { 0 } else { 1 };
        let st1 = with_flag(mc.cpu.status, Flag::Carry, !(mc.cpu.a < inc || wrap8(mc.cpu.a - inc) < c));
        let sr = signed8(mc.cpu.a) - signed8(inc) - c;
        lemma_nz_flags(with_flag(st1, Flag::Overflow, sr < -128 || sr > 127), r);
    }
    if slo_spec(m, mode) is Ok {
        let (addr, ma) = target_spec(m, Opcode::SLO, mode)->Ok_0;
        let (v, mb) = read_spec(ma, addr);
        let shifted = wrap8(v * 2);
        let mc = write_spec(mb, addr, shifted)->Ok_0;
        let a = mc.cpu.a | shifted;
        lemma_nz_flags(with_flag(mc.cpu.status, Flag::Carry, is_negative(v)), a);
    }
    lemma_nz_flags(
        with_flag(m.cpu.status, Flag::Carry, is_negative(m.cpu.a)),
        wrap8(m.cpu.a * 2),
    );
    lemma_nz_flags(m.cpu.status, wrap8(m.cpu.y - 1));
    lemma_nz_flags(m.cpu.status, wrap8(m.cpu.x + 1));
}

/// The same law for the instructions that leave their result in memory: a
/// decrement of memory and a shift of memory set Zero exactly when the value
/// written is 0 and Negative exactly when its bit 7 is set; when the target
/// lies in RAM, the RAM cell holds that value.
pub proof fn lemma_memory_results_set_zero_and_negative(m: Machine, mode: Addressing)
    requires
        m.cpu.ram.len() == RAM_SIZE,
    ensures
        dec_spec(m, mode) matches Ok((m1, _)) ==> ({
            let (a, ma) = target_spec(m, Opcode::DEC, mode)->Ok_0;
            let d = wrap8(read_spec(ma, a).0 - 1);
            &&& flag_of(m1.cpu.status, Flag::Zero) == (d == 0)
            &&& flag_of(m1.cpu.status, Flag::Negative) == (d >= 0x80)
            &&& a < 0x2000 ==> m1.cpu.ram[ram_index(a)] == d
        }),
        !(mode is Accumulator) ==> (asl_spec(m, mode) matches Ok((m1, _)) ==> ({
            let (a, ma) = target_spec(m, Opcode::ASL, mode)->Ok_0;
            let v = read_spec(ma, a).0;
            let r = wrap8(v * 2);
            &&& flag_of(m1.cpu.status, Flag::Carry) == (v >= 0x80)
            &&& flag_of(m1.cpu.status, Flag::Zero) == (r == 0)
            &&& flag_of(m1.cpu.status, Flag::Negative) == (r >= 0x80)
            &&& a < 0x2000 ==> m1.cpu.ram[ram_index(a)] == r
        })),
{
    reveal(dec_spec);
    reveal(asl_spec);
    if let Ok((a, ma)) = target_spec(m, Opcode::DEC, mode) {
        let (v, mb) = read_spec(ma, a);
        let d = wrap8(v - 1);
        if let Ok(mc) = write_spec(mb, a, d) {
            lemma_nz_flags(mc.cpu.status, d);
        }
    }
    if !(mode is Accumulator) {
        if let Ok((a, ma)) = target_spec(m, Opcode::ASL, mode) {
            let (v, mb) = read_spec(ma, a);
            let r = wrap8(v * 2);
            let st = with_flag(mb.cpu.status, Flag::Carry, is_negative(v));
            lemma_nz_flags(st, r);
            lemma_with_flag(mb.cpu.status, Flag::Carry, is_negative(v), Flag::Carry);
        }
    }
}

/// The page-crossing penalty: a load, compare or no-op whose operand is
/// reached through an address costs the table's base cycles, plus exactly
/// one when indexing moved the address into another page than the
/// un-indexed base.
pub proof fn lemma_page_cross_cycles(m: Machine)
    requires
        ({
            let ins = decode(fetch_byte_spec(m).0);
            ins.0 is LDA || ins.0 is LDX || ins.0 is LDY || ins.0 is CMP || ins.0 is NOP
        }),
    ensures
        ({
            let (byte, m1) = fetch_byte_spec(m);
            let ins = decode(byte);
            address_spec(m1, ins.1) matches Some((_, crossed, _)) ==> execute_spec(m) matches Ok((_, cycles))
                && cycles == ins.2 + penalty(crossed)
        }),
{
    reveal(lda_spec);
    reveal(ldx_spec);
    reveal(ldy_spec);
    reveal(cmp_spec);
    reveal(nop_spec);
}

/// Stores and read-modify-write instructions pay no page-crossing penalty:
/// when they complete, they cost exactly the table's base cycles, whatever
/// their indexing did.
pub proof fn lemma_fixed_cycles(m: Machine)
    requires
        ({
            let ins = decode(fetch_byte_spec(m).0);
            ins.0 is ASL || ins.0 is DEC || ins.0 is ISC || ins.0 is SLO || ins.0 is STA
        }),
    ensures
        execute_spec(m) matches Ok((_, cycles)) ==> cycles == decode(fetch_byte_spec(m).0).2,
{
    reveal(asl_spec);
    reveal(dec_spec);
    reveal(isc_spec);
    reveal(slo_spec);
    reveal(sta_spec);
}

/// The branch cycles: a branch not taken costs its base cycles and goes on
/// after its operand; a branch taken costs one more when its target lies in
/// the page of the next instruction, and two more when it does not.
pub proof fn lemma_branch_cycles(m: Machine)
    requires
        ({
            let ins = decode(fetch_byte_spec(m).0);
            ins.0 is BMI || ins.0 is BNE || ins.0 is BPL || ins.0 is BVC
        }),
    ensures
        ({
            let (byte, m1) = fetch_byte_spec(m);
            let ins = decode(byte);
            let (offset, m2) = fetch_byte_spec(m1);
            let next = m2.cpu.pc;
            let target = branch_target(next, offset);
            execute_spec(m) matches Ok((m3, cycles)) && if !branch_condition(ins.0, m.cpu.status) {
                cycles == ins.2 && m3.cpu.pc == next
            } else if page(target) == page(next) {
                cycles == ins.2 + 1 && m3.cpu.pc == target
            } else {
                cycles == ins.2 + 2 && m3.cpu.pc == target
            }
        }),
{
    reveal(conditional_branch_spec);
}

/// The stack: a word pushed (high byte first) and then popped twice gives
/// back its low byte and then its high byte, and the stack pointer returns
/// to where it was.
pub proof fn lemma_push_pop_word(c: CpuView, w: u16)
    requires
        c.ram.len() == RAM_SIZE,
    ensures
        ({
            let (lo, c1) = pop_spec(push_word_spec(c, w));
            let (hi, c2) = pop_spec(c1);
            &&& lo == w % 0x100
            &&& hi == w / 0x100
            &&& word(lo, hi) == w
            &&& c2.s == c.s
        }),
{
}

/// RAM mirroring: below 0x2000 the 2 KiB of RAM repeat four times, so an
/// address and the same address 0x800, 0x1000 or 0x1800 higher read the
/// same cell, and a write through either changes the same cell.
pub proof fn lemma_ram_mirror(m: Machine, a: u16, k: u16, v: u8)
    requires
        a < 0x800,
        1 <= k <= 3,
        m.cpu.ram.len() == RAM_SIZE,
    ensures
        read_spec(m, (a + 0x800 * k) as u16) == read_spec(m, a),
        write_spec(m, (a + 0x800 * k) as u16, v) == write_spec(m, a, v),
{
}

/// The address latch seen end to end: after two writes to the address
/// register (high byte, then low byte), a write to the data register is
/// stored by the picture unit's next step at `high * 256 + low`, and a read
/// of the data register has the buffer refilled from that address; either
/// way the transfer is drained once.
pub proof fn lemma_latched_transfer(p: PpuView, bus: PpuRegisterBus, chr: Seq<u8>, high: u8, low: u8, data: u8)
    requires
        bus.ppu_addr_higher is None,
    ensures
        ({
            let target = (high as int * 256 + low as int) as u16;
            let b2 = cpu_write_spec(cpu_write_spec(bus, 0x2006, high), 0x2006, low);
            let (pw, bw) = handle_io_spec(p, cpu_write_spec(b2, 0x2007, data), chr);
            let (pr, br) = handle_io_spec(p, cpu_read_spec(b2, 0x2007).1, chr);
            &&& pw.vram == ppu_write_byte(p.vram, target, data)
            &&& bw.ppu_data_status == PpuDataStatus::Idle
            &&& br.ppu_data == ppu_read_byte(p.vram, chr, target)
            &&& br.ppu_data_status == PpuDataStatus::Idle
        }),
{
}

} // verus!
