//! A flat 64 KiB memory that notes accesses to the picture unit's address
//! and data registers.
use vstd::prelude::*;
use crate::ppu::{Register, register_address};

verus! {

pub const MEMORY_SIZE: usize = 0x10000;

/// Which byte of the address register the last write to it carried.
#[derive(Debug, Clone, Copy, PartialEq, Eq, Structural)]
pub enum PpuAddrState {
    /// The first write of a pair: the high byte.
    Higher,
    /// The second write of a pair: the low byte.
    Lower,
    Idle,
}

/// The last access to the data register.
#[derive(Debug, Clone, Copy, PartialEq, Eq, Structural)]
pub enum PpuDataState {
    Read,
    Written,
    Idle,
}

/// The byte that a write to the address register carries, given the
/// previous one: the writes alternate high, low, high, ...
pub open spec fn next_addr_state(s: PpuAddrState) -> PpuAddrState {
    match s {
        PpuAddrState::Higher => PpuAddrState::Lower,
        _ => PpuAddrState::Higher,
    }
}

pub struct Memory {
    pub data: Vec<u8>,
    pub ppu_addr_state: PpuAddrState,
    pub ppu_data_state: PpuDataState,
}

impl Memory {
    pub open spec fn wf(&self) -> bool {
        self.data@.len() == MEMORY_SIZE
    }

    pub fn new() -> (r: Self)
        ensures
            r.wf(),
            r.data@ == Seq::new(MEMORY_SIZE as nat, |i: int| 0u8),
            r.ppu_addr_state == PpuAddrState::Idle,
            r.ppu_data_state == PpuDataState::Idle,
    {
        let r = Self {
            data: vec![0u8; MEMORY_SIZE],
            ppu_addr_state: PpuAddrState::Idle,
            ppu_data_state: PpuDataState::Idle,
        };
        assert(r.data@ =~= Seq::new(MEMORY_SIZE as nat, |i: int| 0u8));
        r
    }

    pub fn write(&mut self, addr: usize, data: u8)
        requires
            old(self).wf(),
            addr < MEMORY_SIZE,
        ensures
            final(self).wf(),
            final(self).data@ == old(self).data@.update(addr as int, data),
            final(self).ppu_addr_state == if addr == register_address(Register::PPUADDR) {
                next_addr_state(old(self).ppu_addr_state)
            } else {
                old(self).ppu_addr_state
            },
            final(self).ppu_data_state == if addr == register_address(Register::PPUDATA) {
                PpuDataState::Written
            } else {
                old(self).ppu_data_state
            },
    {
        self.data.set(addr, data);
        if addr == Register::PPUADDR.address() as usize {
            self.ppu_addr_state = match self.ppu_addr_state {
                PpuAddrState::Higher => PpuAddrState::Lower,
                PpuAddrState::Idle | PpuAddrState::Lower => PpuAddrState::Higher,
            };
        }
        if addr == Register::PPUDATA.address() as usize {
            self.ppu_data_state = PpuDataState::Written;
        }
    }

    pub fn read(&mut self, addr: usize) -> (r: u8)
        requires
            old(self).wf(),
            addr < MEMORY_SIZE,
        ensures
            final(self).wf(),
            r == old(self).data@[addr as int],
            final(self).data == old(self).data,
            final(self).ppu_addr_state == old(self).ppu_addr_state,
            final(self).ppu_data_state == if addr == register_address(Register::PPUDATA) {
                PpuDataState::Read
            } else {
                old(self).ppu_data_state
            },
    {
        if addr == Register::PPUDATA.address() as usize {
            self.ppu_data_state = PpuDataState::Read;
        }
        self.data[addr]
    }

    pub fn ppu_addr_state(&self) -> (r: PpuAddrState)
        ensures
            r == self.ppu_addr_state,
    {
        self.ppu_addr_state
    }

    pub fn ppu_data_state(&self) -> (r: PpuDataState)
        ensures
            r == self.ppu_data_state,
    {
        self.ppu_data_state
    }
}

} // verus!
