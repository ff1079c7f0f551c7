//! The picture unit: its memory-mapped registers, video memory and the
//! incremental renderer.
use vstd::prelude::*;
use crate::cassette::Sprite;
use crate::nes::{Nes, chr_byte};
use crate::ppu_register_bus::{PpuDataStatus, PpuRegisterBus, ppu_read_spec};

verus! {

/// The picture unit's registers as the processor sees them.
#[derive(Debug, Clone, Copy, PartialEq, Eq, Structural)]
pub enum Register {
    PPUCTRL,
    PPUMASK,
    PPUSTATUS,
    OAMADDR,
    OAMDATA,
    PPUSCROLL,
    PPUADDR,
    PPUDATA,
    OAMDMA,
}

/// The processor address of each register.
pub open spec fn register_address(r: Register) -> u16 {
    match r {
        Register::PPUCTRL => 0x2000,
        Register::PPUMASK => 0x2001,
        Register::PPUSTATUS => 0x2002,
        Register::OAMADDR => 0x2003,
        Register::OAMDATA => 0x2004,
        Register::PPUSCROLL => 0x2005,
        Register::PPUADDR => 0x2006,
        Register::PPUDATA => 0x2007,
        Register::OAMDMA => 0x4014,
    }
}

/// The register at a processor address, if one sits there.
pub open spec fn register_at(addr: u16) -> Option<Register> {
    match addr {
        0x2000 => Some(Register::PPUCTRL),
        0x2001 => Some(Register::PPUMASK),
        0x2002 => Some(Register::PPUSTATUS),
        0x2003 => Some(Register::OAMADDR),
        0x2004 => Some(Register::OAMDATA),
        0x2005 => Some(Register::PPUSCROLL),
        0x2006 => Some(Register::PPUADDR),
        0x2007 => Some(Register::PPUDATA),
        0x4014 => Some(Register::OAMDMA),
        _ => None,
    }
}

impl Register {
    pub fn address(self) -> (r: u16)
        ensures
            r == register_address(self),
            register_at(r) == Some(self),
    {
        match self {
            Register::PPUCTRL => 0x2000,
            Register::PPUMASK => 0x2001,
            Register::PPUSTATUS => 0x2002,
            Register::OAMADDR => 0x2003,
            Register::OAMDATA => 0x2004,
            Register::PPUSCROLL => 0x2005,
            Register::PPUADDR => 0x2006,
            Register::PPUDATA => 0x2007,
            Register::OAMDMA => 0x4014,
        }
    }

    /// The register at `addr`; `None` where no register sits.
    pub fn from_address(addr: u16) -> (r: Option<Register>)
        ensures
            r == register_at(addr),
    {
        match addr {
            0x2000 => Some(Register::PPUCTRL),
            0x2001 => Some(Register::PPUMASK),
            0x2002 => Some(Register::PPUSTATUS),
            0x2003 => Some(Register::OAMADDR),
            0x2004 => Some(Register::OAMDATA),
            0x2005 => Some(Register::PPUSCROLL),
            0x2006 => Some(Register::PPUADDR),
            0x2007 => Some(Register::PPUDATA),
            0x4014 => Some(Register::OAMDMA),
            _ => None,
        }
    }
}

impl From<Register> for usize {
    fn from(r: Register) -> usize {
        r.address() as usize
    }
}

impl vstd::std_specs::convert::FromSpecImpl<Register> for usize {
    open spec fn obeys_from_spec() -> bool {
        true
    }

    open spec fn from_spec(r: Register) -> usize {
        register_address(r) as usize
    }
}

pub const VRAM_SIZE: usize = 0x0800;
pub const OAM_SIZE: usize = 0x0100;
pub const VISIBLE_SCREEN_WIDTH: usize = 256;
pub const VISIBLE_SCREEN_HEIGHT: usize = 240;
pub const SCREEN_BYTES: usize = 184320;
pub const CYCLES_PER_SCANLINE: usize = 341;
pub const SCANLINES_PER_FRAME: usize = 262;
pub const CYCLES_PER_FRAME: usize = 89342;
/// Tiles per band: two rows of 32.
pub const RENDERING_BATCH_SPRITES: usize = 64;
/// Scanlines per band.
pub const RENDERING_BATCH_LINES: usize = 16;
/// Bands per frame.
pub const RENDERING_BATCH_NUM: usize = 15;
/// The pixels of one band.
pub const BATCH_PIXELS: usize = 4096;

/// The largest count of processor cycles that one `step` takes: at most a
/// frame's worth, so that subtracting one frame wraps the counter.
pub const MAX_STEP_CYCLES: usize = CYCLES_PER_FRAME / 3;

/// The picture unit's state that its spec functions speak of.
pub struct PpuView {
    pub vram: Seq<u8>,
    pub ppu_addr: u16,
    pub cycle_counter: int,
    pub batch_counter: int,
    pub screen: Seq<u8>,
}

/// The picture unit's address space is 14 bits wide; higher addresses
/// repeat it.
pub open spec fn ppu_space(addr: u16) -> int {
    addr as int % 0x4000
}

/// The video memory cell behind a nametable address (0x2000 to 0x3EFF):
/// 2 KiB that repeat.
pub open spec fn vram_index(a: int) -> int {
    (a - 0x2000) % VRAM_SIZE as int
}

/// A read of the picture unit's address space: character memory below
/// 0x2000, video memory up to 0x3EFF; the palette is not modelled and reads
/// as zero.
pub open spec fn ppu_read_byte(vram: Seq<u8>, chr: Seq<u8>, addr: u16) -> u8 {
    let a = ppu_space(addr);
    if a < 0x2000 {
        chr_byte(chr, a)
    } else if a < 0x3F00 {
        vram[vram_index(a)]
    } else {
        0
    }
}

/// A write: only video memory takes it; character memory is read only and
/// the palette is not modelled.
pub open spec fn ppu_write_byte(vram: Seq<u8>, addr: u16, data: u8) -> Seq<u8> {
    let a = ppu_space(addr);
    if 0x2000 <= a < 0x3F00 {
        vram.update(vram_index(a), data)
    } else {
        vram
    }
}

pub open spec fn next_addr(a: u16) -> u16 {
    ((a as int + 1) % 0x10000) as u16
}

/// Servicing the mailbox: take a completed address, then carry out the
/// pending transfer, once, and move the address on.
pub open spec fn handle_io_spec(p: PpuView, bus: PpuRegisterBus, chr: Seq<u8>) -> (PpuView, PpuRegisterBus) {
    let (taken, b1) = ppu_read_spec(bus, Register::PPUADDR);
    let addr = match taken {
        Some(a) => a,
        None => p.ppu_addr,
    };
    match b1.ppu_data_status {
        PpuDataStatus::Read => {
            let d = ppu_read_byte(p.vram, chr, addr);
            (
                PpuView { ppu_addr: next_addr(addr), ..p },
                PpuRegisterBus { ppu_data: d, ppu_data_status: PpuDataStatus::Idle, ..b1 },
            )
        },
        PpuDataStatus::Written => {
            let (v, b2) = ppu_read_spec(b1, Register::PPUDATA);
            (
                PpuView {
                    vram: ppu_write_byte(p.vram, addr, b1.ppu_data),
                    ppu_addr: next_addr(addr),
                    ..p
                },
                b2,
            )
        },
        PpuDataStatus::Idle => (PpuView { ppu_addr: addr, ..p }, b1),
    }
}

/// The grey level of each colour index.
pub open spec fn gray(ci: u8) -> u8 {
    if ci == 0 {
        0
    } else if ci == 1 {
        63
    } else if ci == 2 {
        127
    } else {
        255
    }
}

/// The colour index at pixel `p` of the screen (row-major, 256 wide): the
/// nametable at 0x2000 gives the tile of each 8x8 cell; a tile number past
/// the cartridge's tiles draws colour 0.
pub open spec fn pixel_index(vram: Seq<u8>, sprites: Seq<Sprite>, p: int) -> u8 {
    let x = p % 256;
    let y = p / 256;
    let t = vram[(y / 8) * 32 + x / 8];
    if (t as int) < sprites.len() {
        sprites[t as int]@[(y % 8) * 8 + x % 8]
    } else {
        0
    }
}

/// The screen after band `b` was drawn: three equal channel bytes per
/// pixel inside the band, the rest as it was.
pub open spec fn band_rendered(screen: Seq<u8>, vram: Seq<u8>, sprites: Seq<Sprite>, b: int) -> Seq<u8> {
    Seq::new(
        screen.len(),
        |j: int|
            if 3 * BATCH_PIXELS * b <= j < 3 * BATCH_PIXELS * (b + 1) {
                gray(pixel_index(vram, sprites, j / 3))
            } else {
                screen[j]
            },
    )
}

/// Whether the next band is due: bands remain in this frame and the cycles
/// of its last scanline have passed.
pub open spec fn render_due(p: PpuView) -> bool {
    p.batch_counter < RENDERING_BATCH_NUM
        && p.cycle_counter >= CYCLES_PER_SCANLINE * RENDERING_BATCH_LINES * (p.batch_counter + 1)
}

pub open spec fn render_spec(p: PpuView, sprites: Seq<Sprite>) -> (bool, PpuView) {
    if render_due(p) {
        (
            true,
            PpuView {
                screen: band_rendered(p.screen, p.vram, sprites, p.batch_counter),
                batch_counter: p.batch_counter + 1,
                ..p
            },
        )
    } else {
        (false, p)
    }
}

/// One step: the cycles advance three times the processor's, the mailbox is
/// serviced, a band is drawn if due, and at a frame's end the counter wraps
/// (the frame total is subtracted) and the bands start again.
pub open spec fn step_spec(p: PpuView, nes: Nes, cpu_cycle: int) -> (bool, PpuView, PpuRegisterBus) {
    let p1 = PpuView { cycle_counter: p.cycle_counter + 3 * cpu_cycle, ..p };
    let (p2, bus) = handle_io_spec(p1, nes.ppu_register_bus, nes.cassette.chr_rom@);
    let (rendered, p3) = render_spec(p2, nes.cassette.sprites@);
    let p4 = if p3.cycle_counter >= CYCLES_PER_FRAME {
        PpuView { cycle_counter: p3.cycle_counter - CYCLES_PER_FRAME, batch_counter: 0, ..p3 }
    } else {
        p3
    };
    (rendered, p4, bus)
}

fn gray_of(ci: u8) -> (r: u8)
    ensures
        r == gray(ci),
{
    if ci == 0 {
        0
    } else if ci == 1 {
        63
    } else if ci == 2 {
        127
    } else {
        255
    }
}

pub struct Ppu {
    pub vram: Vec<u8>,
    pub oam: Vec<u8>,
    pub ppu_addr: u16,
    pub cycle_counter: usize,
    pub batch_counter: usize,
    /// The picture, row-major, three bytes (red, green, blue) per pixel.
    pub screen: Vec<u8>,
}

impl View for Ppu {
    type V = PpuView;

    open spec fn view(&self) -> PpuView {
        PpuView {
            vram: self.vram@,
            ppu_addr: self.ppu_addr,
            cycle_counter: self.cycle_counter as int,
            batch_counter: self.batch_counter as int,
            screen: self.screen@,
        }
    }
}

impl Ppu {
    /// The buffers have their sizes and the band counter its range.
    pub open spec fn storage_wf(&self) -> bool {
        &&& self.vram@.len() == VRAM_SIZE
        &&& self.oam@.len() == OAM_SIZE
        &&& self.screen@.len() == SCREEN_BYTES
        &&& self.batch_counter <= RENDERING_BATCH_NUM
    }

    /// Between steps, the cycle counter also stays within one frame.
    pub open spec fn wf(&self) -> bool {
        &&& self.storage_wf()
        &&& self.cycle_counter < CYCLES_PER_FRAME
    }

    pub fn new() -> (r: Self)
        ensures
            r.wf(),
            r@ == (PpuView {
                vram: Seq::new(VRAM_SIZE as nat, |i: int| 0u8),
                ppu_addr: 0,
                cycle_counter: 0,
                batch_counter: 0,
                screen: Seq::new(SCREEN_BYTES as nat, |i: int| 0u8),
            }),
    {
        let r = Self {
            vram: vec![0u8; VRAM_SIZE],
            oam: vec![0u8; OAM_SIZE],
            ppu_addr: 0,
            cycle_counter: 0,
            batch_counter: 0,
            screen: vec![0u8; SCREEN_BYTES],
        };
        assert(r@.vram =~= Seq::new(VRAM_SIZE as nat, |i: int| 0u8));
        assert(r@.screen =~= Seq::new(SCREEN_BYTES as nat, |i: int| 0u8));
        r
    }

    pub fn read(&self, nes: &Nes, addr: u16) -> (r: u8)
        requires
            self.storage_wf(),
        ensures
            r == ppu_read_byte(self.vram@, nes.cassette.chr_rom@, addr),
    {
        let a = addr % 0x4000;
        if a < 0x2000 {
            nes.read_chr_rom(a)
        } else if a < 0x3F00 {
            self.vram[((a - 0x2000) as usize) % VRAM_SIZE]
        } else {
            0
        }
    }

    pub fn write(&mut self, addr: u16, data: u8)
        requires
            old(self).storage_wf(),
        ensures
            final(self).storage_wf(),
            final(self)@ == (PpuView { vram: ppu_write_byte(old(self).vram@, addr, data), ..old(self)@ }),
    {
        let a = addr % 0x4000;
        if 0x2000 <= a && a < 0x3F00 {
            self.vram.set(((a - 0x2000) as usize) % VRAM_SIZE, data);
        }
    }

    fn increment_ppu_addr(&mut self)
        ensures
            final(self)@ == (PpuView { ppu_addr: next_addr(old(self).ppu_addr), ..old(self)@ }),
            final(self).storage_wf() == old(self).storage_wf(),
    {
        self.ppu_addr = self.ppu_addr.wrapping_add(1);
    }

    fn handle_io(&mut self, nes: &mut Nes)
        requires
            old(self).storage_wf(),
        ensures
            final(self).storage_wf(),
            final(nes).cassette == old(nes).cassette,
            final(nes).cpu_interruption == old(nes).cpu_interruption,
            (final(self)@, final(nes).ppu_register_bus) == handle_io_spec(
                old(self)@,
                old(nes).ppu_register_bus,
                old(nes).cassette.chr_rom@,
            ),
    {
        if let Some(addr) = nes.ppu_register_bus.ppu_read(Register::PPUADDR) {
            self.ppu_addr = addr;
        }
        match nes.ppu_register_bus.ppu_data_status() {
            PpuDataStatus::Read => {
                let data = self.read(nes, self.ppu_addr);
                nes.ppu_register_bus.ppu_write(Register::PPUDATA, data);
                self.increment_ppu_addr();
            },
            PpuDataStatus::Written => {
                let pending = nes.ppu_register_bus.ppu_data;
                let _ = nes.ppu_register_bus.ppu_read(Register::PPUDATA);
                let addr = self.ppu_addr;
                self.write(addr, pending);
                self.increment_ppu_addr();
            },
            PpuDataStatus::Idle => {},
        }
    }

    /// Draws band `batch_counter`: each of its pixels gets the grey of its
    /// colour index.
    fn render_batch_lines(&mut self, nes: &Nes)
        requires
            old(self).storage_wf(),
            nes.wf(),
            old(self).batch_counter < RENDERING_BATCH_NUM,
        ensures
            final(self).storage_wf(),
            final(self)@ == (PpuView {
                screen: band_rendered(
                    old(self).screen@,
                    old(self).vram@,
                    nes.cassette.sprites@,
                    old(self).batch_counter as int,
                ),
                ..old(self)@
            }),
    {
        let ghost old_screen = self.screen@;
        let ghost sprites = nes.cassette.sprites@;
        let b = self.batch_counter;
        let start: usize = b * BATCH_PIXELS;
        let mut k: usize = 0;
        while k < BATCH_PIXELS
            invariant
                self.storage_wf(),
                self.vram@ == old(self).vram@,
                self.ppu_addr == old(self).ppu_addr,
                self.cycle_counter == old(self).cycle_counter,
                self.batch_counter == b == old(self).batch_counter,
                b < RENDERING_BATCH_NUM,
                start == b * BATCH_PIXELS,
                nes.wf(),
                sprites == nes.cassette.sprites@,
                old_screen == old(self).screen@,
                k <= BATCH_PIXELS,
                self.screen@ == Seq::new(
                    old_screen.len(),
                    |j: int|
                        if 3 * start <= j < 3 * (start + k) {
                            gray(pixel_index(self.vram@, sprites, j / 3))
                        } else {
                            old_screen[j]
                        },
                ),
            decreases BATCH_PIXELS - k,
        {
            let p = start + k;
            let x = p % 256;
            let y = p / 256;
            let t = self.vram[(y / 8) * 32 + x / 8];
            let ci = if (t as usize) < nes.sprite_count() {
                let sprite = nes.get_sprite(t);
                assert(sprite.wf());
                sprite.get(x % 8, y % 8)
            } else {
                0
            };
            let g = gray_of(ci);
            assert(g == gray(pixel_index(self.vram@, sprites, p as int)));
            self.screen.set(3 * p, g);
            self.screen.set(3 * p + 1, g);
            self.screen.set(3 * p + 2, g);
            k = k + 1;
            assert(self.screen@ =~= Seq::new(
                old_screen.len(),
                |j: int|
                    if 3 * start <= j < 3 * (start + k) {
                        gray(pixel_index(self.vram@, sprites, j / 3))
                    } else {
                        old_screen[j]
                    },
            ));
        }
        assert(3 * start == 3 * BATCH_PIXELS * b && 3 * (start + BATCH_PIXELS) == 3 * BATCH_PIXELS * (b + 1))
            by (nonlinear_arith)
            requires
                start == b * 4096,
                BATCH_PIXELS == 4096,
        ;
        assert(self.screen@ =~= band_rendered(old_screen, self.vram@, sprites, b as int));
    }

    fn render(&mut self, nes: &Nes) -> (r: bool)
        requires
            old(self).storage_wf(),
            nes.wf(),
        ensures
            final(self).storage_wf(),
            (r, final(self)@) == render_spec(old(self)@, nes.cassette.sprites@),
    {
        if self.batch_counter >= RENDERING_BATCH_NUM {
            return false;
        }
        if self.cycle_counter < CYCLES_PER_SCANLINE * RENDERING_BATCH_LINES * (self.batch_counter + 1) {
            return false;
        }
        self.render_batch_lines(nes);
        self.batch_counter = self.batch_counter + 1;
        true
    }

    /// Advances the picture unit by the cycles of one processor step and
    /// returns whether a band was drawn.
    pub fn step(&mut self, nes: &mut Nes, cpu_cycle: usize) -> (r: bool)
        requires
            old(self).wf(),
            old(nes).wf(),
            cpu_cycle <= MAX_STEP_CYCLES,
        ensures
            final(self).wf(),
            final(nes).wf(),
            final(nes).cassette == old(nes).cassette,
            final(nes).cpu_interruption == old(nes).cpu_interruption,
            (r, final(self)@, final(nes).ppu_register_bus) == step_spec(old(self)@, *old(nes), cpu_cycle as int),
    {
        self.cycle_counter = self.cycle_counter + cpu_cycle * 3;
        self.handle_io(nes);
        let rendered = self.render(nes);
        if self.cycle_counter >= CYCLES_PER_FRAME {
            self.cycle_counter = self.cycle_counter - CYCLES_PER_FRAME;
            self.batch_counter = 0;
        }
        rendered
    }

}

} // verus!
