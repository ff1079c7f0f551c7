use rust_nes::cassette::{Cassette, CassetteError, Sprite};
use rust_nes::cpu::Cpu;
use rust_nes::instruction::{Addressing, Instruction, Opcode};
use rust_nes::memory::{Memory, PpuAddrState, PpuDataState};
use rust_nes::nes::Nes;
use rust_nes::ppu::{Ppu, Register, CYCLES_PER_FRAME};
use rust_nes::ppu_register_bus::{PpuDataStatus, PpuRegisterBus};
use rust_nes::rom::ROM;

fn image(prg_units: u8, chr_units: u8, flags6: u8) -> Vec<u8> {
    let mut data = vec![0x4e, 0x45, 0x53, 0x1a, prg_units, chr_units, flags6, 0, 0, 0, 0, 0, 0, 0, 0, 0];
    data.resize(16 + 0x4000 * prg_units as usize + 0x2000 * chr_units as usize, 0);
    data
}

#[test]
fn decode_is_total_and_repeatable() {
    for b in 0..=255u8 {
        let first = Instruction::decode(b);
        assert_eq!(first, Instruction::decode(b));
        match first {
            Instruction(Opcode::UNKNOWN(x), mode, cycles) => {
                assert_eq!(x, b);
                assert_eq!(mode, Addressing::UNKNOWN);
                assert_eq!(cycles, 0);
            }
            Instruction(_, mode, cycles) => {
                assert_ne!(mode, Addressing::UNKNOWN);
                assert!((2..=8).contains(&cycles));
            }
        }
    }
    assert_eq!(Instruction::from(0xA9u8), Instruction(Opcode::LDA, Addressing::Immediate, 2));
    assert_eq!(Instruction::decode(0x03), Instruction(Opcode::SLO, Addressing::IndexedIndirect, 8));
    assert_eq!(Instruction::decode(0x69), Instruction(Opcode::UNKNOWN(0x69), Addressing::UNKNOWN, 0));
}

#[test]
fn register_addresses() {
    assert_eq!(Register::PPUADDR.address(), 0x2006);
    assert_eq!(usize::from(Register::OAMDMA), 0x4014);
    assert_eq!(Register::from_address(0x2007), Some(Register::PPUDATA));
    assert_eq!(Register::from_address(0x2008), None);
}

#[test]
fn register_bus_latch_alternates() {
    let mut bus = PpuRegisterBus::new();
    bus.cpu_write(0x2006, 0x23);
    assert_eq!(bus.ppu_addr_higher, Some(0x23));
    assert_eq!(bus.ppu_addr, None);
    bus.cpu_write(0x2006, 0x45);
    assert_eq!(bus.ppu_addr, Some(0x2345));
    assert_eq!(bus.ppu_addr_higher, None);
    // A third write starts a new pair with the high byte.
    bus.cpu_write(0x2006, 0x3F);
    assert_eq!(bus.ppu_addr_higher, Some(0x3F));
    assert_eq!(bus.ppu_addr, Some(0x2345));
    // The picture unit takes the address once.
    assert_eq!(bus.ppu_read(Register::PPUADDR), Some(0x2345));
    assert_eq!(bus.ppu_read(Register::PPUADDR), None);
}

#[test]
fn register_bus_data_status() {
    let mut bus = PpuRegisterBus::new();
    bus.cpu_write(0x2007, 0x11);
    assert_eq!(bus.ppu_data_status(), PpuDataStatus::Written);
    assert_eq!(bus.ppu_read(Register::PPUDATA), Some(0x11));
    assert_eq!(bus.ppu_data_status(), PpuDataStatus::Idle);
    assert_eq!(bus.cpu_read(0x2007), 0x11);
    assert_eq!(bus.ppu_data_status(), PpuDataStatus::Read);
    bus.ppu_write(Register::PPUDATA, 0x22);
    assert_eq!(bus.ppu_data_status(), PpuDataStatus::Idle);
    assert_eq!(bus.cpu_read(0x2007), 0x22);
    // Registers that are not modelled read as zero and ignore writes.
    assert_eq!(bus.cpu_read(0x2002), 0);
    bus.cpu_write(0x2000, 0xFF);
    assert_eq!(bus.ppu_addr_higher, None);
    assert_eq!(bus.ppu_read(Register::PPUCTRL), None);
}

#[test]
fn ppu_step_stores_latched_write_and_refills_reads() {
    let mut cpu = Cpu::new();
    let mut nes = Nes::new_for_test(vec![0xEA]);
    let mut ppu = Ppu::new();
    cpu.write(&mut nes, 0x2006, 0x23).unwrap();
    cpu.write(&mut nes, 0x2006, 0x45).unwrap();
    cpu.write(&mut nes, 0x2007, 0x99).unwrap();
    assert!(!ppu.step(&mut nes, 2));
    assert_eq!(ppu.vram[0x345], 0x99);
    assert_eq!(ppu.ppu_addr, 0x2346);
    assert_eq!(nes.ppu_register_bus.ppu_data_status(), PpuDataStatus::Idle);
    // The same cell seen through the 0x3000 mirror.
    assert_eq!(ppu.read(&nes, 0x3345), 0x99);

    cpu.write(&mut nes, 0x2006, 0x23).unwrap();
    cpu.write(&mut nes, 0x2006, 0x45).unwrap();
    let _stale = cpu.read(&mut nes, 0x2007);
    ppu.step(&mut nes, 2);
    assert_eq!(cpu.read(&mut nes, 0x2007), 0x99);
    assert_eq!(ppu.ppu_addr, 0x2346);
}

#[test]
fn ppu_memory_map() {
    let mut data = image(1, 1, 0);
    data[16 + 0x4000 + 5] = 0xAB;
    let nes = Nes::new(Cassette::new(data).unwrap());
    let mut ppu = Ppu::new();
    assert_eq!(ppu.read(&nes, 0x0005), 0xAB);
    ppu.write(0x0005, 0x01);
    assert_eq!(ppu.read(&nes, 0x0005), 0xAB);
    ppu.write(0x2801, 0x44);
    assert_eq!(ppu.vram[0x001], 0x44);
    ppu.write(0x3F00, 0x12);
    assert_eq!(ppu.read(&nes, 0x3F00), 0);
    assert_eq!(ppu.read(&nes, 0x6001), 0x44);
}

#[test]
fn ppu_renders_bands_as_cycles_accumulate() {
    let mut data = image(1, 1, 0);
    // Tile 0: low plane all ones, high plane zero: colour index 1.
    for row in 0..8 {
        data[16 + 0x4000 + row] = 0xFF;
    }
    // Tile 1: high plane all ones: colour index 2.
    for row in 0..8 {
        data[16 + 0x4000 + 16 + 8 + row] = 0xFF;
    }
    let mut nes = Nes::new(Cassette::new(data).unwrap());
    let mut ppu = Ppu::new();
    ppu.vram[1] = 1;
    assert!(!ppu.step(&mut nes, 1818));
    assert!(ppu.step(&mut nes, 1));
    assert_eq!(&ppu.screen[0..3], &[63, 63, 63]);
    assert_eq!(&ppu.screen[8 * 3..8 * 3 + 3], &[127, 127, 127]);
    let row16 = 16 * 256 * 3;
    assert_eq!(&ppu.screen[row16 - 3..row16 + 3], &[63, 63, 63, 0, 0, 0]);
    assert!(!ppu.step(&mut nes, 0));
    assert_eq!(ppu.batch_counter, 1);
}

#[test]
fn ppu_wraps_at_frame_end() {
    let mut nes = Nes::new_for_test(vec![0xEA]);
    let mut ppu = Ppu::new();
    let frame_cpu_cycles = CYCLES_PER_FRAME / 3;
    ppu.step(&mut nes, frame_cpu_cycles);
    assert_eq!(ppu.cycle_counter, CYCLES_PER_FRAME - 2);
    assert!(ppu.step(&mut nes, 1));
    assert_eq!(ppu.cycle_counter, 1);
    assert_eq!(ppu.batch_counter, 0);
}

#[test]
fn cassette_splits_image() {
    let mut data = image(1, 1, 0);
    data[16] = 0x78;
    data[16 + 0x4000] = 0x80;
    data[16 + 0x4000 + 8] = 0x80;
    let c = Cassette::new(data).unwrap();
    assert!(c.is_ines());
    assert_eq!(c.prg_rom.len(), 0x4000);
    assert_eq!(c.prg_rom[0], 0x78);
    assert_eq!(c.chr_rom.len(), 0x2000);
    assert_eq!(c.sprites.len(), 0x2000 / 16);
    assert_eq!(c.sprites[0].get(0, 0), 3);
    assert_eq!(c.sprites[0].get(1, 0), 0);
    let nes = Nes::new(c);
    assert_eq!(nes.read_chr_rom(0), 0x80);
    assert_eq!(nes.read_chr_rom(0x2000), 0);
    assert_eq!(nes.read_program(0), 0x78);
    assert_eq!(nes.get_sprite(0).get(0, 0), 3);
}

#[test]
fn cassette_rejects_bad_images() {
    assert_eq!(Cassette::new(vec![0x4e, 0x45]).err(), Some(CassetteError::TooShort));
    assert_eq!(Cassette::new(image(1, 0, 0b100)).err(), Some(CassetteError::TrainerUnsupported));
    let mut short = image(1, 1, 0);
    short.pop();
    assert_eq!(Cassette::new(short).err(), Some(CassetteError::TooShort));
    let mut not_ines = image(1, 0, 0);
    not_ines[0] = 0;
    assert!(!Cassette::new(not_ines).unwrap().is_ines());
}

#[test]
fn sprite_decodes_two_planes() {
    let mut bytes = [0u8; 16];
    bytes[0] = 0b1010_0000;
    bytes[8] = 0b1100_0000;
    bytes[15] = 0b0000_0001;
    let s = Sprite::new(&bytes);
    assert_eq!(s.get(0, 0), 3);
    assert_eq!(s.get(1, 0), 2);
    assert_eq!(s.get(2, 0), 1);
    assert_eq!(s.get(3, 0), 0);
    assert_eq!(s.get(7, 7), 2);
}

#[test]
fn rom_reads_declared_memory() {
    let mut data = image(1, 1, 0);
    data[16] = 0x11;
    data[16 + 0x4000] = 0x22;
    let rom = ROM::new(data);
    assert!(rom.is_ines());
    assert_eq!(rom.program_data().len(), 0x4000);
    assert_eq!(rom.program_data()[0], 0x11);
    assert_eq!(rom.character_rom()[0], 0x22);
    let mut trained = image(1, 1, 0b100);
    trained.resize(trained.len() + 512, 0);
    trained[16 + 512] = 0x33;
    let rom = ROM::new(trained);
    assert_eq!(rom.program_data()[0], 0x33);
    assert_eq!(rom.character_rom().len(), 0x2000);
    assert!(!ROM::new(vec![0x4e]).is_ines());
}

#[test]
fn memory_notes_register_accesses() {
    let mut m = Memory::new();
    assert_eq!(m.ppu_addr_state(), PpuAddrState::Idle);
    m.write(0x2006, 0x21);
    assert_eq!(m.ppu_addr_state(), PpuAddrState::Higher);
    m.write(0x2006, 0x00);
    assert_eq!(m.ppu_addr_state(), PpuAddrState::Lower);
    m.write(0x2006, 0x22);
    assert_eq!(m.ppu_addr_state(), PpuAddrState::Higher);
    m.write(0x2007, 0x05);
    assert_eq!(m.ppu_data_state(), PpuDataState::Written);
    assert_eq!(m.read(0x2007), 0x05);
    assert_eq!(m.ppu_data_state(), PpuDataState::Read);
    m.write(0xFFFF, 9);
    assert_eq!(m.read(0xFFFF), 9);
}

#[test]
fn rom_program_data_without_full_character_memory() {
    let mut data = image(1, 1, 0);
    data[16 + 0x3FFF] = 0x44;
    data.truncate(16 + 0x4000 + 10);
    let rom = ROM::new(data);
    let prg = rom.program_data();
    assert_eq!(prg.len(), 0x4000);
    assert_eq!(prg[0x3FFF], 0x44);
}

#[test]
fn lda_indirect_indexed_costs_five() {
    assert_eq!(Instruction::from(0xB1u8), Instruction(Opcode::LDA, Addressing::IndirectIndexed, 5));
}
