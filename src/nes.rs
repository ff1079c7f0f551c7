//! The shared hardware that the processor and the picture unit both reach:
//! the cartridge, the register mailbox and the pending interruption.
use vstd::prelude::*;
use crate::cassette::{Cassette, Sprite, image_error, prg_end};
use crate::cpu::Interruption;
use crate::ppu_register_bus::{PpuRegisterBus, idle_bus};

verus! {

pub struct Nes {
    pub cassette: Cassette,
    pub ppu_register_bus: PpuRegisterBus,
    pub cpu_interruption: Interruption,
}

/// Program memory seen through the window at 0x8000: an image smaller than
/// the window repeats; an empty one reads as zero.
pub open spec fn prg_byte(prg: Seq<u8>, offset: int) -> u8 {
    if prg.len() == 0 {
        0
    } else {
        prg[offset % prg.len() as int]
    }
}

/// Character memory; beyond its end it reads as zero.
pub open spec fn chr_byte(chr: Seq<u8>, addr: int) -> u8 {
    if 0 <= addr < chr.len() {
        chr[addr]
    } else {
        0
    }
}

/// The image that `Nes::new_for_test` builds around a program: a header
/// with one program unit and no character memory, the program, and zeros
/// up to the unit's size.
pub open spec fn test_image(prg: Seq<u8>) -> Seq<u8> {
    seq![0u8, 0u8, 0u8, 0u8, 1u8, 0u8, 0u8, 0u8, 0u8, 0u8, 0u8, 0u8, 0u8, 0u8, 0u8, 0u8] + prg
        + Seq::new((0x4000 - prg.len()) as nat, |i: int| 0u8)
}

impl Nes {
    pub open spec fn wf(&self) -> bool {
        self.cassette.wf()
    }

    pub fn new(cassette: Cassette) -> (r: Self)
        ensures
            r.cassette == cassette,
            r.ppu_register_bus == idle_bus(),
            r.cpu_interruption == Interruption::Idle,
    {
        Self {
            cassette,
            ppu_register_bus: PpuRegisterBus::new(),
            cpu_interruption: Interruption::Idle,
        }
    }

    /// A console whose cartridge holds `prg_rom` at the start of a 16 KiB
    /// program unit, zero-filled, and no character memory.
    pub fn new_for_test(prg_rom: Vec<u8>) -> (r: Self)
        requires
            prg_rom@.len() <= 0x4000,
        ensures
            r.wf(),
            r.cassette.prg_rom@ == prg_rom@ + Seq::new((0x4000 - prg_rom@.len()) as nat, |i: int| 0u8),
            r.cassette.chr_rom@.len() == 0,
            r.ppu_register_bus == idle_bus(),
            r.cpu_interruption == Interruption::Idle,
    {
        let len = prg_rom.len();
        let mut data: Vec<u8> = vec![0u8, 0, 0, 0, 1, 0, 0, 0, 0, 0, 0, 0, 0, 0, 0, 0];
        let ghost header = data@;
        let mut i: usize = 0;
        while i < len
            invariant
                len == prg_rom@.len() <= 0x4000,
                i <= len,
                data@ == header + prg_rom@.subrange(0, i as int),
            decreases len - i,
        {
            data.push(prg_rom[i]);
            i = i + 1;
            assert(data@ =~= header + prg_rom@.subrange(0, i as int));
        }
        let mut k: usize = 0;
        while k < 0x4000 - len
            invariant
                len == prg_rom@.len() <= 0x4000,
                k <= 0x4000 - len,
                data@ == header + prg_rom@ + Seq::new(k as nat, |j: int| 0u8),
            decreases 0x4000 - len - k,
        {
            data.push(0);
            k = k + 1;
            assert(data@ =~= header + prg_rom@ + Seq::new(k as nat, |j: int| 0u8));
        }
        assert(data@ =~= test_image(prg_rom@));
        assert(0u8 & 0b100u8 == 0u8) by (bit_vector);
        assert(data@.subrange(16, prg_end(data@)) =~= prg_rom@ + Seq::new(
            (0x4000 - prg_rom@.len()) as nat,
            |j: int| 0u8,
        ));
        assert(image_error(data@) is None);
        match Cassette::new(data) {
            Ok(cassette) => Self::new(cassette),
            Err(_) => vstd::pervasive::unreached(),
        }
    }

    /// The byte of program memory at `addr`, counted from the window's start.
    pub fn read_program(&self, addr: u16) -> (r: u8)
        ensures
            r == prg_byte(self.cassette.prg_rom@, addr as int),
    {
        let len = self.cassette.prg_rom.len();
        if len == 0 {
            0
        } else {
            self.cassette.prg_rom[(addr as usize) % len]
        }
    }

    pub fn read_chr_rom(&self, addr: u16) -> (r: u8)
        ensures
            r == chr_byte(self.cassette.chr_rom@, addr as int),
    {
        if (addr as usize) < self.cassette.chr_rom.len() {
            self.cassette.chr_rom[addr as usize]
        } else {
            0
        }
    }

    pub fn sprite_count(&self) -> (r: usize)
        ensures
            r == self.cassette.sprites@.len(),
    {
        self.cassette.sprites.len()
    }

    pub fn get_sprite(&self, id: u8) -> (r: &Sprite)
        requires
            (id as int) < self.cassette.sprites@.len(),
        ensures
            *r == self.cassette.sprites@[id as int],
    {
        &self.cassette.sprites[id as usize]
    }
}

} // verus!
