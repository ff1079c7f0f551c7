//! The processor: its registers, the address-space dispatch, the stack, the
//! addressing modes and the fetch/decode/execute cycle.
//!
//! Each step is stated as a spec function over a [`Machine`], the processor's
//! registers and RAM together with the shared hardware, and each executable
//! function is proved to move the machine as its spec function says.
use vstd::prelude::*;
use crate::instruction::{Addressing, Opcode};
use crate::nes::{Nes, prg_byte};
use crate::ppu_register_bus::{cpu_read_spec, cpu_write_spec};

verus! {

pub const RAM_SIZE: usize = 0x0800;
pub const PRG_ROM_BASE: u16 = 0x8000;

/// A bit of the status register.
#[derive(Debug, Clone, Copy, PartialEq, Eq, Structural)]
pub enum Flag {
    Carry,
    Zero,
    InterruptDisable,
    Decimal,
    Overflow,
    Negative,
    Break,
}

pub open spec fn flag_mask(f: Flag) -> u8 {
    match f {
        Flag::Carry => 0b00000001,
        Flag::Zero => 0b00000010,
        Flag::InterruptDisable => 0b00000100,
        Flag::Decimal => 0b00001000,
        Flag::Break => 0b00010000,
        Flag::Overflow => 0b01000000,
        Flag::Negative => 0b10000000,
    }
}

impl From<Flag> for u8 {
    fn from(f: Flag) -> u8 {
        match f {
            Flag::Carry => 0b00000001,
            Flag::Zero => 0b00000010,
            Flag::InterruptDisable => 0b00000100,
            Flag::Decimal => 0b00001000,
            Flag::Break => 0b00010000,
            Flag::Overflow => 0b01000000,
            Flag::Negative => 0b10000000,
        }
    }
}

impl vstd::std_specs::convert::FromSpecImpl<Flag> for u8 {
    open spec fn obeys_from_spec() -> bool {
        true
    }

    open spec fn from_spec(f: Flag) -> u8 {
        flag_mask(f)
    }
}

/// Whether flag `f` is set in a status byte.
pub open spec fn flag_of(status: u8, f: Flag) -> bool {
    status & flag_mask(f) == flag_mask(f)
}

/// A status byte with flag `f` set to `v` and the other bits kept.
pub open spec fn with_flag(status: u8, f: Flag, v: bool) -> u8 {
    if v {
        status | flag_mask(f)
    } else {
        status & !flag_mask(f)
    }
}

pub open spec fn is_negative(v: u8) -> bool {
    v >= 0x80
}

/// Zero and Negative recomputed from a result.
pub open spec fn set_nz(status: u8, v: u8) -> u8 {
    with_flag(with_flag(status, Flag::Zero, v == 0), Flag::Negative, is_negative(v))
}

/// A pending interruption, serviced once at the end of an instruction.
#[derive(Debug, Clone, Copy, PartialEq, Eq, Structural)]
pub enum Interruption {
    RESET,
    IRQ,
    BRK,
    NMI,
    Idle,
}

/// Why execution stopped.
#[derive(Debug, Clone, Copy, PartialEq, Eq, Structural)]
pub enum FaultKind {
    /// The byte at the program counter has no handler.
    UnknownOpcode(u8),
    /// The table gave an instruction a mode that its handler does not take.
    UnsupportedAddressing(Opcode, Addressing),
    /// A write into the cartridge's space, which is read only.
    ReadOnlyWrite(u16),
}

/// The register file, as a diagnostic.
#[derive(Debug, Clone, Copy, PartialEq, Eq, Structural)]
pub struct Registers {
    pub a: u8,
    pub x: u8,
    pub y: u8,
    pub pc: u16,
    pub s: u16,
    pub status: u8,
}

/// A fault with the registers as they stood when the faulting instruction
/// began.
#[derive(Debug, Clone, Copy, PartialEq, Eq, Structural)]
pub struct CpuFault {
    pub kind: FaultKind,
    pub registers: Registers,
}

pub struct Cpu {
    pub a: u8,
    pub x: u8,
    pub y: u8,
    pub pc: u16,
    /// The stack pointer: the stack cell it names is RAM at `s` modulo the
    /// RAM size, and a push moves it down.
    pub s: u16,
    pub status: u8,
    pub ram: Vec<u8>,
}

pub struct CpuView {
    pub a: u8,
    pub x: u8,
    pub y: u8,
    pub pc: u16,
    pub s: u16,
    pub status: u8,
    pub ram: Seq<u8>,
}

impl View for Cpu {
    type V = CpuView;

    open spec fn view(&self) -> CpuView {
        CpuView {
            a: self.a,
            x: self.x,
            y: self.y,
            pc: self.pc,
            s: self.s,
            status: self.status,
            ram: self.ram@,
        }
    }
}

/// The processor with the hardware it shares.
pub struct Machine {
    pub cpu: CpuView,
    pub nes: Nes,
}

pub open spec fn machine(cpu: Cpu, nes: Nes) -> Machine {
    Machine { cpu: cpu@, nes }
}

pub open spec fn with_cpu(m: Machine, c: CpuView) -> Machine {
    Machine { cpu: c, ..m }
}

pub open spec fn wrap8(i: int) -> u8 {
    (i % 0x100) as u8
}

pub open spec fn wrap16(i: int) -> u16 {
    (i % 0x10000) as u16
}

/// A byte read as a two's-complement number.
pub open spec fn signed8(b: u8) -> int {
    if b < 0x80 {
        b as int
    } else {
        b as int - 0x100
    }
}

pub open spec fn word(lo: u8, hi: u8) -> u16 {
    (lo as int + hi as int * 0x100) as u16
}

pub open spec fn page(addr: u16) -> int {
    addr as int / 0x100
}

// ----- address space -----

/// The RAM cell behind an address of the low 8 KiB, where 2 KiB repeat.
pub open spec fn ram_index(addr: u16) -> int {
    addr as int % RAM_SIZE as int
}

/// The register behind an address of the picture unit's window, where eight
/// registers repeat.
pub open spec fn ppu_register_of(addr: u16) -> u16 {
    (0x2000 + addr as int % 8) as u16
}

/// A read at `addr`: the byte, and the machine after it (only a read of the
/// picture unit's data register changes anything).
pub open spec fn read_spec(m: Machine, addr: u16) -> (u8, Machine) {
    if addr < 0x2000 {
        (m.cpu.ram[ram_index(addr)], m)
    } else if addr < 0x4000 {
        let (v, b) = cpu_read_spec(m.nes.ppu_register_bus, ppu_register_of(addr));
        (v, Machine { nes: Nes { ppu_register_bus: b, ..m.nes }, ..m })
    } else if addr < 0x8000 {
        (0, m)
    } else {
        (prg_byte(m.nes.cassette.prg_rom@, addr - 0x8000), m)
    }
}

/// A write at `addr`. The region from 0x4020 up belongs to the cartridge and
/// refuses writes; the I/O registers between the picture unit's window and
/// it are not modelled and ignore them.
pub open spec fn write_spec(m: Machine, addr: u16, data: u8) -> Result<Machine, FaultKind> {
    if addr < 0x2000 {
        Ok(with_cpu(m, CpuView { ram: m.cpu.ram.update(ram_index(addr), data), ..m.cpu }))
    } else if addr < 0x4000 {
        Ok(
            Machine {
                nes: Nes {
                    ppu_register_bus: cpu_write_spec(
                        m.nes.ppu_register_bus,
                        ppu_register_of(addr),
                        data,
                    ),
                    ..m.nes
                },
                ..m
            },
        )
    } else if addr < 0x4020 {
        Ok(m)
    } else {
        Err(FaultKind::ReadOnlyWrite(addr))
    }
}

// ----- stack -----

pub open spec fn stack_index(s: u16) -> int {
    s as int % RAM_SIZE as int
}

pub open spec fn push_spec(c: CpuView, b: u8) -> CpuView {
    CpuView { ram: c.ram.update(stack_index(c.s), b), s: wrap16(c.s - 1), ..c }
}

/// A word is pushed high byte first.
pub open spec fn push_word_spec(c: CpuView, w: u16) -> CpuView {
    push_spec(push_spec(c, (w / 0x100) as u8), (w % 0x100) as u8)
}

pub open spec fn pop_spec(c: CpuView) -> (u8, CpuView) {
    let s = wrap16(c.s + 1);
    (c.ram[stack_index(s)], CpuView { s, ..c })
}

// ----- instruction stream -----

pub open spec fn fetch_byte_spec(m: Machine) -> (u8, Machine) {
    let (v, m1) = read_spec(m, m.cpu.pc);
    (v, with_cpu(m1, CpuView { pc: wrap16(m1.cpu.pc + 1), ..m1.cpu }))
}

/// A word is stored low byte first.
pub open spec fn fetch_word_spec(m: Machine) -> (u16, Machine) {
    let (lo, m1) = fetch_byte_spec(m);
    let (hi, m2) = fetch_byte_spec(m1);
    (word(lo, hi), m2)
}

/// Reads a pointer from the zero page; its high byte comes from the next
/// cell, wrapping within the page.
pub open spec fn zero_page_pointer_spec(m: Machine, p: u8) -> (u16, Machine) {
    let (lo, m1) = read_spec(m, p as u16);
    let (hi, m2) = read_spec(m1, wrap8(p + 1) as u16);
    (word(lo, hi), m2)
}

/// The effective address of a memory operand, whether indexing crossed a
/// page relative to the un-indexed base, and the machine after the operand
/// bytes (and any pointer) were read. `None` for the modes without one.
pub open spec fn address_spec(m: Machine, mode: Addressing) -> Option<(u16, bool, Machine)> {
    match mode {
        Addressing::ZeroPage => {
            let (b, m1) = fetch_byte_spec(m);
            Some((b as u16, false, m1))
        },
        Addressing::ZeroPageX => {
            let (b, m1) = fetch_byte_spec(m);
            Some((wrap8(b + m.cpu.x) as u16, false, m1))
        },
        Addressing::ZeroPageY => {
            let (b, m1) = fetch_byte_spec(m);
            Some((wrap8(b + m.cpu.y) as u16, false, m1))
        },
        Addressing::Absolute => {
            let (w, m1) = fetch_word_spec(m);
            Some((w, false, m1))
        },
        Addressing::AbsoluteX => {
            let (w, m1) = fetch_word_spec(m);
            let a = wrap16(w + m.cpu.x);
            Some((a, page(w) != page(a), m1))
        },
        Addressing::AbsoluteY => {
            let (w, m1) = fetch_word_spec(m);
            let a = wrap16(w + m.cpu.y);
            Some((a, page(w) != page(a), m1))
        },
        Addressing::Indirect => {
            // The pointer's high byte is read from the same page.
            let (w, m1) = fetch_word_spec(m);
            let (lo, m2) = read_spec(m1, w);
            let (hi, m3) = read_spec(m2, pointer_high(w));
            Some((word(lo, hi), false, m3))
        },
        Addressing::IndexedIndirect => {
            let (b, m1) = fetch_byte_spec(m);
            let (a, m2) = zero_page_pointer_spec(m1, wrap8(b + m.cpu.x));
            Some((a, false, m2))
        },
        Addressing::IndirectIndexed => {
            let (b, m1) = fetch_byte_spec(m);
            let (base, m2) = zero_page_pointer_spec(m1, b);
            let a = wrap16(base + m.cpu.y);
            Some((a, page(base) != page(a), m2))
        },
        _ => None,
    }
}

/// The operand of a reading instruction: its address if it has one, its
/// value, whether indexing crossed a page, and the machine after it was
/// read. `None` for the modes that give no operand.
pub open spec fn operand_spec(m: Machine, mode: Addressing) -> Option<(Option<u16>, u8, bool, Machine)> {
    match mode {
        Addressing::Implied => Some((None, 0, false, m)),
        Addressing::Accumulator => Some((None, m.cpu.a, false, m)),
        Addressing::Immediate => {
            let (v, m1) = fetch_byte_spec(m);
            Some((None, v, false, m1))
        },
        _ => match address_spec(m, mode) {
            Some((a, crossed, m1)) => {
                let (v, m2) = read_spec(m1, a);
                Some((Some(a), v, crossed, m2))
            },
            None => None,
        },
    }
}

/// The target of a relative branch from `pc`, the address after the operand.
pub open spec fn branch_target(pc: u16, offset: u8) -> u16 {
    wrap16(pc + signed8(offset))
}

/// A relative branch: the extra cycles are 0 when it is not taken, 1 when it
/// lands in the page of the following instruction, and 2 when it leaves it.
pub open spec fn branch_spec(m: Machine, condition: bool) -> (usize, Machine) {
    let (b, m1) = fetch_byte_spec(m);
    if condition {
        let target = branch_target(m1.cpu.pc, b);
        (
            if page(target) == page(m1.cpu.pc) { 1 } else { 2 },
            with_cpu(m1, CpuView { pc: target, ..m1.cpu }),
        )
    } else {
        (0, m1)
    }
}

pub(crate) fn page_of(addr: u16) -> (r: u16)
    ensures
        r == page(addr),
{
    addr / 0x100
}

pub(crate) fn add8(b: u8, i: u8) -> (r: u8)
    ensures
        r == wrap8(b + i),
{
    b.wrapping_add(i)
}

pub(crate) fn sub8(b: u8, i: u8) -> (r: u8)
    ensures
        r == wrap8(b - i),
{
    b.wrapping_sub(i)
}

pub(crate) fn signed_of(b: u8) -> (r: i16)
    ensures
        r == signed8(b),
{
    if b < 0x80 {
        b as i16
    } else {
        b as i16 - 0x100
    }
}

pub(crate) fn add16(w: u16, i: u8) -> (r: u16)
    ensures
        r == wrap16(w + i),
{
    w.wrapping_add(i as u16)
}

pub(crate) fn make_word(lo: u8, hi: u8) -> (r: u16)
    ensures
        r == word(lo, hi),
{
    lo as u16 + (hi as u16) * 0x100
}

/// The address of an indirect pointer's high byte: the next cell, within
/// the same page.
pub open spec fn pointer_high(w: u16) -> u16 {
    (w - w % 0x100 + (w % 0x100 + 1) % 0x100) as u16
}

fn pointer_high_of(w: u16) -> (r: u16)
    ensures
        r == pointer_high(w),
{
    w - w % 0x100 + (w % 0x100 + 1) % 0x100
}

pub(crate) fn is_negative_byte(v: u8) -> (r: bool)
    ensures
        r == is_negative(v),
{
    v >= 0x80
}

impl Cpu {
    pub open spec fn wf(&self) -> bool {
        self.ram@.len() == RAM_SIZE
    }

    pub fn new() -> (r: Self)
        ensures
            r.wf(),
            r@ == (CpuView {
                a: 0,
                x: 0,
                y: 0,
                pc: PRG_ROM_BASE,
                s: 0x00fd,
                status: 0x34,
                ram: Seq::new(RAM_SIZE as nat, |i: int| 0u8),
            }),
    {
        let ram = vec![0u8; RAM_SIZE];
        let r = Self { a: 0, x: 0, y: 0, pc: PRG_ROM_BASE, s: 0x00fd, status: 0x34, ram };
        assert(r@.ram =~= Seq::new(RAM_SIZE as nat, |i: int| 0u8));
        r
    }

    pub fn registers(&self) -> (r: Registers)
        ensures
            r == registers_of(self@),
    {
        Registers { a: self.a, x: self.x, y: self.y, pc: self.pc, s: self.s, status: self.status }
    }

    pub fn read_ram(&self, addr: u16) -> (r: u8)
        requires
            self.wf(),
        ensures
            r == self.ram@[ram_index(addr)],
    {
        self.ram[(addr as usize) % RAM_SIZE]
    }

    pub fn write_ram(&mut self, addr: u16, data: u8)
        requires
            old(self).wf(),
        ensures
            final(self)@ == (CpuView {
                ram: old(self)@.ram.update(ram_index(addr), data),
                ..old(self)@
            }),
            final(self).wf(),
    {
        self.ram.set((addr as usize) % RAM_SIZE, data);
    }

    /// Reads a byte of the address space.
    pub fn read(&mut self, nes: &mut Nes, addr: u16) -> (r: u8)
        requires
            old(self).wf(),
        ensures
            (r, machine(*final(self), *final(nes))) == read_spec(machine(*old(self), *old(nes)), addr),
            final(self).wf(),
    {
        if addr < 0x2000 {
            self.read_ram(addr)
        } else if addr < 0x4000 {
            nes.ppu_register_bus.cpu_read(0x2000 + addr % 8)
        } else if addr < 0x8000 {
            0
        } else {
            nes.read_program(addr - PRG_ROM_BASE)
        }
    }

    /// Writes a byte of the address space; a write into the cartridge's
    /// space is refused.
    pub fn write(&mut self, nes: &mut Nes, addr: u16, data: u8) -> (r: Result<(), FaultKind>)
        requires
            old(self).wf(),
        ensures
            final(self).wf(),
            match write_spec(machine(*old(self), *old(nes)), addr, data) {
                Ok(m) => r is Ok && machine(*final(self), *final(nes)) == m,
                Err(k) => r == Err::<(), FaultKind>(k) && *final(self) == *old(self)
                    && *final(nes) == *old(nes),
            },
    {
        if addr < 0x2000 {
            self.write_ram(addr, data);
            Ok(())
        } else if addr < 0x4000 {
            nes.ppu_register_bus.cpu_write(0x2000 + addr % 8, data);
            Ok(())
        } else if addr < 0x4020 {
            Ok(())
        } else {
            Err(FaultKind::ReadOnlyWrite(addr))
        }
    }

    pub fn read_flag(&self, f: Flag) -> (r: bool)
        ensures
            r == flag_of(self.status, f),
    {
        let bit: u8 = u8::from(f);
        self.status & bit == bit
    }

    pub fn write_flag(&mut self, f: Flag, v: bool)
        ensures
            final(self)@ == (CpuView { status: with_flag(old(self).status, f, v), ..old(self)@ }),
            final(self).wf() == old(self).wf(),
    {
        let bit: u8 = u8::from(f);
        if v {
            self.status = self.status | bit;
        } else {
            self.status = self.status & !bit;
        }
    }

    pub(crate) fn set_nz_flags(&mut self, v: u8)
        ensures
            final(self)@ == (CpuView { status: set_nz(old(self).status, v), ..old(self)@ }),
            final(self).wf() == old(self).wf(),
    {
        self.write_flag(Flag::Zero, v == 0);
        self.write_flag(Flag::Negative, is_negative_byte(v));
    }

    pub fn push_byte(&mut self, data: u8)
        requires
            old(self).wf(),
        ensures
            final(self)@ == push_spec(old(self)@, data),
            final(self).wf(),
    {
        self.ram.set((self.s as usize) % RAM_SIZE, data);
        self.s = self.s.wrapping_sub(1);
    }

    pub fn push_word(&mut self, data: u16)
        requires
            old(self).wf(),
        ensures
            final(self)@ == push_word_spec(old(self)@, data),
            final(self).wf(),
    {
        self.push_byte((data / 0x100) as u8);
        self.push_byte((data % 0x100) as u8);
    }

    pub fn pop(&mut self) -> (r: u8)
        requires
            old(self).wf(),
        ensures
            (r, final(self)@) == pop_spec(old(self)@),
            final(self).wf(),
    {
        self.s = self.s.wrapping_add(1);
        self.ram[(self.s as usize) % RAM_SIZE]
    }

    pub fn fetch_byte(&mut self, nes: &mut Nes) -> (r: u8)
        requires
            old(self).wf(),
        ensures
            (r, machine(*final(self), *final(nes))) == fetch_byte_spec(machine(*old(self), *old(nes))),
            final(self).wf(),
    {
        let v = self.read(nes, self.pc);
        self.pc = self.pc.wrapping_add(1);
        v
    }

    pub fn fetch_word(&mut self, nes: &mut Nes) -> (r: u16)
        requires
            old(self).wf(),
        ensures
            (r, machine(*final(self), *final(nes))) == fetch_word_spec(machine(*old(self), *old(nes))),
            final(self).wf(),
    {
        let lo = self.fetch_byte(nes);
        let hi = self.fetch_byte(nes);
        make_word(lo, hi)
    }

    fn zero_page_pointer(&mut self, nes: &mut Nes, p: u8) -> (r: u16)
        requires
            old(self).wf(),
        ensures
            (r, machine(*final(self), *final(nes))) == zero_page_pointer_spec(
                machine(*old(self), *old(nes)),
                p,
            ),
            final(self).wf(),
    {
        let lo = self.read(nes, p as u16);
        let hi = self.read(nes, add8(p, 1) as u16);
        make_word(lo, hi)
    }

    /// Resolves the effective address of a memory operand.
    pub fn resolve_address(&mut self, nes: &mut Nes, mode: Addressing) -> (r: Option<(u16, bool)>)
        requires
            old(self).wf(),
        ensures
            final(self).wf(),
            match address_spec(machine(*old(self), *old(nes)), mode) {
                Some((a, crossed, m)) => r == Some((a, crossed)) && machine(*final(self), *final(nes)) == m,
                None => r is None && *final(self) == *old(self) && *final(nes) == *old(nes),
            },
    {
        match mode {
            Addressing::ZeroPage | Addressing::ZeroPageX | Addressing::ZeroPageY
            | Addressing::Absolute | Addressing::AbsoluteX | Addressing::AbsoluteY => {
                Some(self.resolve_direct(nes, mode))
            },
            Addressing::Indirect | Addressing::IndexedIndirect | Addressing::IndirectIndexed => {
                Some(self.resolve_indirect(nes, mode))
            },
            _ => None,
        }
    }

    /// Zero-page and absolute modes, indexed or not.
    fn resolve_direct(&mut self, nes: &mut Nes, mode: Addressing) -> (r: (u16, bool))
        requires
            old(self).wf(),
            mode is ZeroPage || mode is ZeroPageX || mode is ZeroPageY || mode is Absolute
                || mode is AbsoluteX || mode is AbsoluteY,
        ensures
            final(self).wf(),
            match address_spec(machine(*old(self), *old(nes)), mode) {
                Some((a, crossed, m)) => r == (a, crossed) && machine(*final(self), *final(nes)) == m,
                None => false,
            },
    {
        match mode {
            Addressing::ZeroPage => {
                let b = self.fetch_byte(nes);
                ((b as u16, false))
            },
            Addressing::ZeroPageX => {
                let x = self.x;
                let b = self.fetch_byte(nes);
                ((add8(b, x) as u16, false))
            },
            Addressing::ZeroPageY => {
                let y = self.y;
                let b = self.fetch_byte(nes);
                ((add8(b, y) as u16, false))
            },
            Addressing::Absolute => {
                let w = self.fetch_word(nes);
                ((w, false))
            },
            Addressing::AbsoluteX => {
                let x = self.x;
                let w = self.fetch_word(nes);
                let a = add16(w, x);
                ((a, page_of(w) != page_of(a)))
            },
            Addressing::AbsoluteY => {
                let y = self.y;
                let w = self.fetch_word(nes);
                let a = add16(w, y);
                ((a, page_of(w) != page_of(a)))
            },
            _ => vstd::pervasive::unreached(),
        }
    }

    /// The modes that go through a pointer in memory.
    fn resolve_indirect(&mut self, nes: &mut Nes, mode: Addressing) -> (r: (u16, bool))
        requires
            old(self).wf(),
            mode is Indirect || mode is IndexedIndirect || mode is IndirectIndexed,
        ensures
            final(self).wf(),
            match address_spec(machine(*old(self), *old(nes)), mode) {
                Some((a, crossed, m)) => r == (a, crossed) && machine(*final(self), *final(nes)) == m,
                None => false,
            },
    {
        match mode {
            Addressing::Indirect => {
                let w = self.fetch_word(nes);
                let lo = self.read(nes, w);
                let hi = self.read(nes, pointer_high_of(w));
                ((make_word(lo, hi), false))
            },
            Addressing::IndexedIndirect => {
                let x = self.x;
                let b = self.fetch_byte(nes);
                let a = self.zero_page_pointer(nes, add8(b, x));
                ((a, false))
            },
            Addressing::IndirectIndexed => {
                let y = self.y;
                let b = self.fetch_byte(nes);
                let base = self.zero_page_pointer(nes, b);
                let a = add16(base, y);
                ((a, page_of(base) != page_of(a)))
            },
            _ => vstd::pervasive::unreached(),
        }
    }

    /// Fetches the operand of a reading instruction.
    pub fn fetch_addressed_data(&mut self, nes: &mut Nes, mode: Addressing) -> (r: Option<(Option<u16>, u8, bool)>)
        requires
            old(self).wf(),
        ensures
            final(self).wf(),
            match operand_spec(machine(*old(self), *old(nes)), mode) {
                Some((a, v, crossed, m)) => r == Some((a, v, crossed)) && machine(*final(self), *final(nes)) == m,
                None => r is None,
            },
    {
        match mode {
            Addressing::Implied => Some((None, 0, false)),
            Addressing::Accumulator => Some((None, self.a, false)),
            Addressing::Immediate => {
                let v = self.fetch_byte(nes);
                Some((None, v, false))
            },
            _ => match self.resolve_address(nes, mode) {
                Some((a, crossed)) => {
                    let v = self.read(nes, a);
                    Some((Some(a), v, crossed))
                },
                None => None,
            },
        }
    }

    /// Takes a relative branch when `condition` holds; returns the extra
    /// cycles.
    pub fn branch_relative(&mut self, nes: &mut Nes, condition: bool) -> (r: usize)
        requires
            old(self).wf(),
        ensures
            r <= 2,
            (r, machine(*final(self), *final(nes))) == branch_spec(machine(*old(self), *old(nes)), condition),
            final(self).wf(),
    {
        let b = self.fetch_byte(nes);
        if condition {
            let prev = self.pc;
            let target = if b < 0x80 {
                prev.wrapping_add(b as u16)
            } else {
                prev.wrapping_sub(0x100 - b as u16)
            };
            self.pc = target;
            if page_of(target) == page_of(prev) {
                1
            } else {
                2
            }
        } else {
            0
        }
    }
}

pub open spec fn registers_of(c: CpuView) -> Registers {
    Registers { a: c.a, x: c.x, y: c.y, pc: c.pc, s: c.s, status: c.status }
}

} // verus!
