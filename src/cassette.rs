//! The cartridge image: its header, program memory, character memory and
//! the 8x8 tiles decoded from the latter.
use vstd::prelude::*;

verus! {

pub const INES_HEADER_SIZE: usize = 16;
pub const PRG_ROM_UNIT_SIZE: usize = 0x4000;
pub const CHR_ROM_UNIT_SIZE: usize = 0x2000;
pub const TILE_BYTES: usize = 16;
pub const SPRITE_WIDTH: usize = 8;
pub const SPRITE_HEIGHT: usize = 8;

/// Bit `7 - x` of a bit-plane row: the leftmost pixel is the high bit.
pub open spec fn plane_bit(row: u8, x: int) -> u8 {
    (row >> ((7 - x) as u8)) & 1u8
}

/// The two-bit colour index of pixel (x, y) of a tile stored as 16 bytes:
/// eight rows of the low plane, then eight rows of the high plane.
pub open spec fn tile_pixel(bytes: Seq<u8>, x: int, y: int) -> u8 {
    (plane_bit(bytes[y], x) + 2 * plane_bit(bytes[y + 8], x)) as u8
}

/// The 64 pixels of a tile, row by row.
pub open spec fn tile_of(bytes: Seq<u8>) -> Seq<u8> {
    Seq::new(64, |i: int| tile_pixel(bytes, i % 8, i / 8))
}

/// The 16 bytes of tile `i` of character memory.
pub open spec fn tile_bytes(chr: Seq<u8>, i: int) -> Seq<u8> {
    chr.subrange(16 * i, 16 * i + 16)
}

proof fn lemma_plane_bit_small(row: u8, s: u8)
    requires
        s < 8,
    ensures
        (row >> s) & 1u8 <= 1,
{
    assert((row >> s) & 1u8 <= 1) by (bit_vector);
}

/// A decoded 8x8 tile: a colour index from 0 to 3 for each pixel.
#[derive(Debug)]
pub struct Sprite {
    data: Vec<u8>,
}

impl View for Sprite {
    type V = Seq<u8>;

    closed spec fn view(&self) -> Seq<u8> {
        self.data@
    }
}

impl Sprite {
    pub open spec fn wf(&self) -> bool {
        self@.len() == 64
    }

    /// Decodes the tile stored in the first 16 bytes of `data`.
    pub fn new(data: &[u8]) -> (r: Self)
        requires
            data@.len() >= 16,
        ensures
            r@ == tile_of(data@),
            r.wf(),
    {
        Self::decode_at(data, 0)
    }

    /// Decodes the tile stored in `data[offset..offset + 16]`.
    fn decode_at(data: &[u8], offset: usize) -> (r: Self)
        requires
            offset + 16 <= data@.len(),
        ensures
            r@ == tile_of(data@.subrange(offset as int, offset + 16)),
            r.wf(),
    {
        let len = data.len();
        let ghost bytes = data@.subrange(offset as int, offset + 16);
        let mut pixels: Vec<u8> = Vec::new();
        let mut i: usize = 0;
        while i < 64
            invariant
                i <= 64,
                offset + 16 <= data@.len(),
                data@.len() == len,
                bytes == data@.subrange(offset as int, offset + 16),
                pixels@ == Seq::new(i as nat, |k: int| tile_pixel(bytes, k % 8, k / 8)),
            decreases 64 - i,
        {
            let x: usize = i % 8;
            let y: usize = i / 8;
            assert(y < 8) by (nonlinear_arith)
                requires
                    y == i / 8,
                    i < 64,
            ;
            let shift: u8 = (7 - x) as u8;
            let low = (data[offset + y] >> shift) & 1u8;
            let high = (data[offset + y + 8] >> shift) & 1u8;
            proof {
                lemma_plane_bit_small(data@[offset + y], shift);
                lemma_plane_bit_small(data@[offset + y + 8], shift);
            }
            pixels.push(low + 2 * high);
            i = i + 1;
            assert(pixels@ =~= Seq::new(i as nat, |k: int| tile_pixel(bytes, k % 8, k / 8)));
        }
        assert(pixels@ =~= tile_of(bytes));
        Sprite { data: pixels }
    }

    /// The colour index of pixel (x, y).
    pub fn get(&self, x: usize, y: usize) -> (r: u8)
        requires
            self.wf(),
            x < 8,
            y < 8,
        ensures
            r == self@[y * 8 + x],
    {
        self.data[y * 8 + x]
    }
}

/// Why a cartridge image was refused.
#[derive(Debug, Clone, Copy, PartialEq, Eq, Structural)]
pub enum CassetteError {
    /// The image is shorter than its header, or than the memory the header
    /// declares.
    TooShort,
    /// The header declares a trainer, which is not supported.
    TrainerUnsupported,
}

pub open spec fn has_trainer(header: Seq<u8>) -> bool {
    header[6] & 0b100u8 == 0b100u8
}

/// Where program memory ends in an image without trainer.
pub open spec fn prg_end(data: Seq<u8>) -> int {
    INES_HEADER_SIZE + PRG_ROM_UNIT_SIZE * data[4]
}

/// Where character memory ends in an image without trainer.
pub open spec fn chr_end(data: Seq<u8>) -> int {
    prg_end(data) + CHR_ROM_UNIT_SIZE * data[5]
}

/// What is wrong with an image, if anything.
pub open spec fn image_error(data: Seq<u8>) -> Option<CassetteError> {
    if data.len() < INES_HEADER_SIZE {
        Some(CassetteError::TooShort)
    } else if has_trainer(data) {
        Some(CassetteError::TrainerUnsupported)
    } else if data.len() < chr_end(data) {
        Some(CassetteError::TooShort)
    } else {
        None
    }
}

/// The tiles of character memory, one for each whole 16 bytes.
pub open spec fn tiles_match(sprites: Seq<Sprite>, chr: Seq<u8>) -> bool {
    &&& sprites.len() == chr.len() / 16
    &&& forall|i: int|
        0 <= i < sprites.len() ==> #[trigger] sprites[i]@ == tile_of(tile_bytes(chr, i))
}

/// The bytes `data[start..end]`, copied.
pub(crate) fn copy_range(data: &Vec<u8>, start: usize, end: usize) -> (r: Vec<u8>)
    requires
        start <= end <= data@.len(),
    ensures
        r@ == data@.subrange(start as int, end as int),
{
    let mut r: Vec<u8> = Vec::new();
    let mut i: usize = start;
    while i < end
        invariant
            start <= i <= end <= data@.len(),
            r@ == data@.subrange(start as int, i as int),
        decreases end - i,
    {
        r.push(data[i]);
        i = i + 1;
        assert(r@ =~= data@.subrange(start as int, i as int));
    }
    r
}

pub struct Cassette {
    pub header: Vec<u8>,
    pub prg_rom: Vec<u8>,
    pub chr_rom: Vec<u8>,
    pub sprites: Vec<Sprite>,
}

impl Cassette {
    pub open spec fn wf(&self) -> bool {
        &&& self.header@.len() == INES_HEADER_SIZE
        &&& tiles_match(self.sprites@, self.chr_rom@)
    }

    /// Splits an image into header, program memory and character memory,
    /// and decodes the tiles of the latter.
    pub fn new(data: Vec<u8>) -> (r: Result<Self, CassetteError>)
        ensures
            match image_error(data@) {
                Some(e) => r == Err::<Self, CassetteError>(e),
                None => r matches Ok(c) && c.wf() && c.header@ == data@.subrange(0, 16)
                    && c.prg_rom@ == data@.subrange(16, prg_end(data@))
                    && c.chr_rom@ == data@.subrange(prg_end(data@), chr_end(data@)),
            },
    {
        if data.len() < INES_HEADER_SIZE {
            return Err(CassetteError::TooShort);
        }
        if data[6] & 0b100u8 == 0b100u8 {
            return Err(CassetteError::TrainerUnsupported);
        }
        let prg_start: usize = INES_HEADER_SIZE;
        let prg_end: usize = prg_start + PRG_ROM_UNIT_SIZE * (data[4] as usize);
        let chr_end: usize = prg_end + CHR_ROM_UNIT_SIZE * (data[5] as usize);
        if data.len() < chr_end {
            return Err(CassetteError::TooShort);
        }
        let header = copy_range(&data, 0, INES_HEADER_SIZE);
        let prg_rom = copy_range(&data, prg_start, prg_end);
        let chr_rom = copy_range(&data, prg_end, chr_end);
        let sprites = Self::parse_sprites(&chr_rom);
        Ok(Self { header, prg_rom, chr_rom, sprites })
    }

    fn parse_sprites(chr_rom: &Vec<u8>) -> (r: Vec<Sprite>)
        ensures
            tiles_match(r@, chr_rom@),
    {
        let mut sprites: Vec<Sprite> = Vec::new();
        let n: usize = chr_rom.len() / 16;
        let mut i: usize = 0;
        while i < n
            invariant
                n == chr_rom@.len() / 16,
                chr_rom@.len() <= usize::MAX,
                i <= n,
                sprites@.len() == i,
                forall|k: int|
                    0 <= k < i ==> #[trigger] sprites@[k]@ == tile_of(tile_bytes(chr_rom@, k)),
            decreases n - i,
        {
            assert(i * 16 + 16 <= chr_rom@.len()) by (nonlinear_arith)
                requires
                    i < n,
                    n == chr_rom@.len() / 16,
            ;
            let s = Sprite::decode_at(chr_rom.as_slice(), i * 16);
            assert(chr_rom@.subrange(i * 16, i * 16 + 16) == tile_bytes(chr_rom@, i as int));
            sprites.push(s);
            i = i + 1;
        }
        sprites
    }

    /// Whether the header starts with the format's magic bytes.
    pub fn is_ines(&self) -> (r: bool)
        requires
            self.wf(),
        ensures
            r == (self.header@[0] == 0x4e && self.header@[1] == 0x45 && self.header@[2] == 0x53
                && self.header@[3] == 0x1a),
    {
        self.header[0] == 0x4e && self.header[1] == 0x45 && self.header[2] == 0x53
            && self.header[3] == 0x1a
    }
}

} // verus!
