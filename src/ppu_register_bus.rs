//! The mailbox between the processor and the picture unit: a two-write
//! address latch and a one-byte data register with a pending-transfer status.
use vstd::prelude::*;
use crate::ppu::{Register, register_at};

verus! {

/// Whether the data register holds a transfer that the picture unit has yet
/// to service.
#[derive(Debug, Clone, Copy, PartialEq, Eq, Structural)]
pub enum PpuDataStatus {
    Idle,
    /// The processor read the data register: the buffer must be refilled.
    Read,
    /// The processor wrote the data register: the byte must reach video memory.
    Written,
}

#[derive(Debug, Clone, Copy, PartialEq, Eq, Structural)]
pub struct PpuRegisterBus {
    /// The high byte of an address whose low byte has not been written yet.
    pub ppu_addr_higher: Option<u8>,
    /// A complete address that the picture unit has not taken yet.
    pub ppu_addr: Option<u16>,
    pub ppu_data: u8,
    pub ppu_data_status: PpuDataStatus,
}

pub open spec fn idle_bus() -> PpuRegisterBus {
    PpuRegisterBus {
        ppu_addr_higher: None,
        ppu_addr: None,
        ppu_data: 0,
        ppu_data_status: PpuDataStatus::Idle,
    }
}

/// A processor read at `addr`: the value read and the mailbox after it.
/// Reading the data register hands out the buffered byte and asks for a
/// refill; the other registers are not modelled and read as zero.
pub open spec fn cpu_read_spec(b: PpuRegisterBus, addr: u16) -> (u8, PpuRegisterBus) {
    if register_at(addr) == Some(Register::PPUDATA) {
        (b.ppu_data, PpuRegisterBus { ppu_data_status: PpuDataStatus::Read, ..b })
    } else {
        (0, b)
    }
}

/// A processor write at `addr`. The address register takes the high byte
/// first and the low byte second; the data register takes a byte to be
/// stored. The other registers are not modelled and ignore writes.
pub open spec fn cpu_write_spec(b: PpuRegisterBus, addr: u16, data: u8) -> PpuRegisterBus {
    match register_at(addr) {
        Some(Register::PPUADDR) => match b.ppu_addr_higher {
            None => PpuRegisterBus { ppu_addr_higher: Some(data), ..b },
            Some(h) => PpuRegisterBus {
                ppu_addr: Some((h as int * 256 + data as int) as u16),
                ppu_addr_higher: None,
                ..b
            },
        },
        Some(Register::PPUDATA) => PpuRegisterBus {
            ppu_data: data,
            ppu_data_status: PpuDataStatus::Written,
            ..b
        },
        _ => b,
    }
}

/// The picture unit taking a register: the complete address (consumed), or
/// the data byte (which clears the pending status).
pub open spec fn ppu_read_spec(b: PpuRegisterBus, r: Register) -> (Option<u16>, PpuRegisterBus) {
    match r {
        Register::PPUADDR => (b.ppu_addr, PpuRegisterBus { ppu_addr: None, ..b }),
        Register::PPUDATA => (
            Some(b.ppu_data as u16),
            PpuRegisterBus { ppu_data_status: PpuDataStatus::Idle, ..b },
        ),
        _ => (None, b),
    }
}

impl PpuRegisterBus {
    pub fn new() -> (r: Self)
        ensures
            r == idle_bus(),
    {
        Self {
            ppu_addr_higher: None,
            ppu_addr: None,
            ppu_data: 0,
            ppu_data_status: PpuDataStatus::Idle,
        }
    }

    pub fn cpu_read(&mut self, addr: u16) -> (r: u8)
        ensures
            (r, *final(self)) == cpu_read_spec(*old(self), addr),
    {
        match Register::from_address(addr) {
            Some(Register::PPUDATA) => {
                self.ppu_data_status = PpuDataStatus::Read;
                self.ppu_data
            },
            _ => 0,
        }
    }

    pub fn cpu_write(&mut self, addr: u16, data: u8)
        ensures
            *final(self) == cpu_write_spec(*old(self), addr, data),
    {
        match Register::from_address(addr) {
            Some(Register::PPUADDR) => {
                match self.ppu_addr_higher {
                    None => self.ppu_addr_higher = Some(data),
                    Some(higher) => {
                        self.ppu_addr = Some(higher as u16 * 256 + data as u16);
                        self.ppu_addr_higher = None;
                    },
                }
            },
            Some(Register::PPUDATA) => {
                self.ppu_data = data;
                self.ppu_data_status = PpuDataStatus::Written;
            },
            _ => {},
        }
    }

    pub fn ppu_read(&mut self, r: Register) -> (v: Option<u16>)
        ensures
            (v, *final(self)) == ppu_read_spec(*old(self), r),
    {
        match r {
            Register::PPUADDR => {
                let addr = self.ppu_addr;
                self.ppu_addr = None;
                addr
            },
            Register::PPUDATA => {
                self.ppu_data_status = PpuDataStatus::Idle;
                Some(self.ppu_data as u16)
            },
            _ => None,
        }
    }

    /// The picture unit refilling the data buffer after a processor read.
    pub fn ppu_write(&mut self, r: Register, data: u8)
        requires
            r == Register::PPUDATA,
        ensures
            *final(self) == (PpuRegisterBus {
                ppu_data: data,
                ppu_data_status: PpuDataStatus::Idle,
                ..*old(self)
            }),
    {
        self.ppu_data = data;
        self.ppu_data_status = PpuDataStatus::Idle;
    }

    pub fn ppu_data_status(&self) -> (r: PpuDataStatus)
        ensures
            r == self.ppu_data_status,
    {
        self.ppu_data_status
    }
}

/// The address latch: starting from a latch that expects the high byte, two
/// writes to the address register complete the address `high * 256 + low`,
/// a following data write stores its byte for that address, and a third
/// write to the address register starts a new pair with the high byte.
pub proof fn lemma_address_latch(b: PpuRegisterBus, high: u8, low: u8, data: u8, next: u8)
    requires
        b.ppu_addr_higher is None,
    ensures
        ({
            let b1 = cpu_write_spec(b, 0x2006, high);
            let b2 = cpu_write_spec(b1, 0x2006, low);
            let b3 = cpu_write_spec(b2, 0x2007, data);
            let b4 = cpu_write_spec(b2, 0x2006, next);
            &&& b2.ppu_addr == Some((high as int * 256 + low as int) as u16)
            &&& b2.ppu_addr_higher is None
            &&& b3.ppu_addr == b2.ppu_addr
            &&& b3.ppu_data == data
            &&& b3.ppu_data_status == PpuDataStatus::Written
            &&& b4.ppu_addr_higher == Some(next)
            &&& b4.ppu_addr == b2.ppu_addr
        }),
{
}

} // verus!
