//! A raw cartridge image, read in place: the header's magic, and the
//! program and character memory it declares.
use vstd::prelude::*;
use crate::cassette::{INES_HEADER_SIZE, PRG_ROM_UNIT_SIZE, CHR_ROM_UNIT_SIZE, copy_range, has_trainer};

verus! {

pub const TRAINER_SIZE: usize = 0x0200;

/// Where program memory starts: after the header and the trainer, if any.
pub open spec fn rom_prg_start(d: Seq<u8>) -> int {
    if has_trainer(d) {
        INES_HEADER_SIZE + TRAINER_SIZE
    } else {
        INES_HEADER_SIZE as int
    }
}

pub open spec fn rom_prg_end(d: Seq<u8>) -> int {
    rom_prg_start(d) + PRG_ROM_UNIT_SIZE * d[4]
}

pub open spec fn rom_chr_end(d: Seq<u8>) -> int {
    rom_prg_end(d) + CHR_ROM_UNIT_SIZE * d[5]
}

/// The image holds its header and the program memory that the header
/// declares.
pub open spec fn rom_program_complete(d: Seq<u8>) -> bool {
    d.len() >= INES_HEADER_SIZE && rom_prg_end(d) <= d.len()
}

/// The image holds its header and all the memory that the header declares.
pub open spec fn rom_complete(d: Seq<u8>) -> bool {
    d.len() >= INES_HEADER_SIZE && rom_chr_end(d) <= d.len()
}

#[derive(Debug)]
pub struct ROM {
    pub data: Vec<u8>,
}

impl ROM {
    pub fn new(data: Vec<u8>) -> (r: Self)
        ensures
            r.data == data,
    {
        Self { data }
    }

    /// Whether the image starts with the format's magic bytes.
    pub fn is_ines(&self) -> (r: bool)
        ensures
            r == (self.data@.len() >= 4 && self.data@[0] == 0x4e && self.data@[1] == 0x45
                && self.data@[2] == 0x53 && self.data@[3] == 0x1a),
    {
        self.data.len() >= 4 && self.data[0] == 0x4e && self.data[1] == 0x45 && self.data[2] == 0x53
            && self.data[3] == 0x1a
    }

    pub fn program_data(&self) -> (r: Vec<u8>)
        requires
            rom_program_complete(self.data@),
        ensures
            r@ == self.data@.subrange(rom_prg_start(self.data@), rom_prg_end(self.data@)),
    {
        let start: usize = if self.has_trainer() {
            INES_HEADER_SIZE + TRAINER_SIZE
        } else {
            INES_HEADER_SIZE
        };
        let end: usize = start + PRG_ROM_UNIT_SIZE * (self.data[4] as usize);
        copy_range(&self.data, start, end)
    }

    pub fn character_rom(&self) -> (r: Vec<u8>)
        requires
            rom_complete(self.data@),
        ensures
            r@ == self.data@.subrange(rom_prg_end(self.data@), rom_chr_end(self.data@)),
    {
        let mut start: usize = INES_HEADER_SIZE + PRG_ROM_UNIT_SIZE * (self.data[4] as usize);
        if self.has_trainer() {
            start = start + TRAINER_SIZE;
        }
        let end: usize = start + CHR_ROM_UNIT_SIZE * (self.data[5] as usize);
        copy_range(&self.data, start, end)
    }

    fn has_trainer(&self) -> (r: bool)
        requires
            self.data@.len() >= INES_HEADER_SIZE,
        ensures
            r == has_trainer(self.data@),
    {
        self.data[6] & 0b100u8 == 0b100u8
    }
}

} // verus!
