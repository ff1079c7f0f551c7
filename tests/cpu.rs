use rust_nes::cpu::{Cpu, CpuFault, FaultKind, Flag, Interruption, Registers, PRG_ROM_BASE, RAM_SIZE};
use rust_nes::nes::Nes;

fn new_test_cpu(prg_rom: Vec<u8>) -> (Cpu, Nes) {
    let mut cpu = Cpu::new();
    cpu.status = 0;
    assert_eq!(cpu.ram.len(), RAM_SIZE);
    (cpu, Nes::new_for_test(prg_rom))
}

#[test]
fn instruction_clear_flag() {
    // CLC, CLD, CLI, CLV
    for case in vec![
        (Flag::Carry, 0x18),
        (Flag::Decimal, 0xD8),
        (Flag::InterruptDisable, 0x58),
        (Flag::Overflow, 0xB8),
    ] {
        let (mut cpu, mut nes) = new_test_cpu(vec![case.1]);
        cpu.write_flag(case.0, true);
        assert_eq!(cpu.execute_instruction(&mut nes), Ok(2));
        assert_eq!(cpu.read_flag(case.0), false);
    }
}

#[test]
fn instruction_asl() {
    // Accumulator
    let (mut cpu, mut nes) = new_test_cpu(vec![0x0A]);
    cpu.a = 3;
    assert_eq!(cpu.execute_instruction(&mut nes), Ok(2));
    assert_eq!(cpu.a, 6);

    // ZeroPage; flags follow the shifted result
    let (mut cpu, mut nes) = new_test_cpu(vec![0x06, 0x10]);
    cpu.write(&mut nes, 0x10, 2).unwrap();
    assert_eq!(cpu.execute_instruction(&mut nes), Ok(5));
    assert_eq!(cpu.read(&mut nes, 0x10), 4);
    assert_eq!(cpu.read_flag(Flag::Carry), false);
    assert_eq!(cpu.read_flag(Flag::Zero), false);
    assert_eq!(cpu.read_flag(Flag::Negative), false);

    let (mut cpu, mut nes) = new_test_cpu(vec![0x06, 0x10]);
    cpu.write(&mut nes, 0x10, 0b10000000).unwrap();
    assert_eq!(cpu.execute_instruction(&mut nes), Ok(5));
    assert_eq!(cpu.read(&mut nes, 0x10), 0);
    assert_eq!(cpu.read_flag(Flag::Carry), true);
    assert_eq!(cpu.read_flag(Flag::Zero), true);
    assert_eq!(cpu.read_flag(Flag::Negative), false);

    let (mut cpu, mut nes) = new_test_cpu(vec![0x06, 0x10]);
    cpu.write(&mut nes, 0x10, 0b01000000).unwrap();
    assert_eq!(cpu.execute_instruction(&mut nes), Ok(5));
    assert_eq!(cpu.read(&mut nes, 0x10), 0b10000000);
    assert_eq!(cpu.read_flag(Flag::Carry), false);
    assert_eq!(cpu.read_flag(Flag::Zero), false);
    assert_eq!(cpu.read_flag(Flag::Negative), true);

    // ZeroPageX
    let (mut cpu, mut nes) = new_test_cpu(vec![0x16, 0x10]);
    cpu.x = 2;
    cpu.write(&mut nes, 0x0012, 3).unwrap();
    assert_eq!(cpu.execute_instruction(&mut nes), Ok(6));
    assert_eq!(cpu.read(&mut nes, 0x0012), 6);

    // Absolute
    let (mut cpu, mut nes) = new_test_cpu(vec![0x0E, 0x10, 0x01]);
    cpu.write(&mut nes, 0x0110, 3).unwrap();
    assert_eq!(cpu.execute_instruction(&mut nes), Ok(6));
    assert_eq!(cpu.read(&mut nes, 0x0110), 6);

    // AbsoluteX
    let (mut cpu, mut nes) = new_test_cpu(vec![0x1E, 0x10, 0x01]);
    cpu.x = 2;
    cpu.write(&mut nes, 0x0112, 3).unwrap();
    assert_eq!(cpu.execute_instruction(&mut nes), Ok(7));
    assert_eq!(cpu.read(&mut nes, 0x0112), 6);
}

#[test]
fn instruction_bmi() {
    // Branch if Minus
    let (mut cpu, mut nes) = new_test_cpu(vec![0x30, 0x03]);
    cpu.write_flag(Flag::Negative, true);
    assert_eq!(cpu.execute_instruction(&mut nes), Ok(3));
    assert_eq!(cpu.pc, PRG_ROM_BASE + 2 + 0x03);

    let (mut cpu, mut nes) = new_test_cpu(vec![0x30, 0x03]);
    cpu.write_flag(Flag::Negative, false);
    assert_eq!(cpu.execute_instruction(&mut nes), Ok(2));
    assert_eq!(cpu.pc, PRG_ROM_BASE + 2);

    let (mut cpu, mut nes) = new_test_cpu(vec![0x30, !0x03 + 1]);
    cpu.write_flag(Flag::Negative, true);
    assert_eq!(cpu.execute_instruction(&mut nes), Ok(4));
    assert_eq!(cpu.pc, PRG_ROM_BASE + 2 - 0x03);
}

#[test]
fn instruction_bne() {
    let (mut cpu, mut nes) = new_test_cpu(vec![0xD0, 0x03]);
    cpu.write_flag(Flag::Zero, false);
    assert_eq!(cpu.execute_instruction(&mut nes), Ok(3));
    assert_eq!(cpu.pc, PRG_ROM_BASE + 2 + 0x03);

    let (mut cpu, mut nes) = new_test_cpu(vec![0xD0, 0x03]);
    cpu.write_flag(Flag::Zero, true);
    assert_eq!(cpu.execute_instruction(&mut nes), Ok(2));
    assert_eq!(cpu.pc, PRG_ROM_BASE + 2);

    let (mut cpu, mut nes) = new_test_cpu(vec![0xD0, !0x03 + 1]);
    cpu.write_flag(Flag::Zero, false);
    assert_eq!(cpu.execute_instruction(&mut nes), Ok(4));
    assert_eq!(cpu.pc, PRG_ROM_BASE + 2 - 0x03);
}

#[test]
fn instruction_bpl() {
    let (mut cpu, mut nes) = new_test_cpu(vec![0x10, 0x03]);
    cpu.write_flag(Flag::Negative, false);
    assert_eq!(cpu.execute_instruction(&mut nes), Ok(3));
    assert_eq!(cpu.pc, PRG_ROM_BASE + 2 + 0x03);

    let (mut cpu, mut nes) = new_test_cpu(vec![0x10, 0x03]);
    cpu.write_flag(Flag::Negative, true);
    assert_eq!(cpu.execute_instruction(&mut nes), Ok(2));
    assert_eq!(cpu.pc, PRG_ROM_BASE + 2);

    let (mut cpu, mut nes) = new_test_cpu(vec![0x10, !0x03 + 1]);
    cpu.write_flag(Flag::Negative, false);
    assert_eq!(cpu.execute_instruction(&mut nes), Ok(4));
    assert_eq!(cpu.pc, PRG_ROM_BASE + 2 - 0x03);
}

#[test]
fn instruction_brk() {
    let (mut cpu, mut nes) = new_test_cpu(vec![0x00]);
    assert_eq!(cpu.execute_instruction(&mut nes), Ok(7));
    assert_eq!(nes.cpu_interruption, Interruption::BRK);
    assert_eq!(cpu.read_flag(Flag::Break), true);
}

#[test]
fn instruction_bvc() {
    let (mut cpu, mut nes) = new_test_cpu(vec![0x50, 0x03]);
    cpu.write_flag(Flag::Overflow, false);
    assert_eq!(cpu.execute_instruction(&mut nes), Ok(3));
    assert_eq!(cpu.pc, PRG_ROM_BASE + 2 + 0x03);

    let (mut cpu, mut nes) = new_test_cpu(vec![0x50, 0x03]);
    cpu.write_flag(Flag::Overflow, true);
    assert_eq!(cpu.execute_instruction(&mut nes), Ok(2));
    assert_eq!(cpu.pc, PRG_ROM_BASE + 2);

    let (mut cpu, mut nes) = new_test_cpu(vec![0x50, !0x03 + 1]);
    cpu.write_flag(Flag::Overflow, false);
    assert_eq!(cpu.execute_instruction(&mut nes), Ok(4));
    assert_eq!(cpu.pc, PRG_ROM_BASE + 2 - 0x03);
}

#[test]
fn instruction_dec() {
    // ZeroPage; Flag behavior
    let (mut cpu, mut nes) = new_test_cpu(vec![0xC6, 0x10]);
    cpu.write(&mut nes, 0x0010, 0x03).unwrap();
    assert_eq!(cpu.execute_instruction(&mut nes), Ok(5));
    assert_eq!(cpu.read(&mut nes, 0x0010), 0x02);
    assert_eq!(cpu.read_flag(Flag::Zero), false);
    assert_eq!(cpu.read_flag(Flag::Negative), false);

    let (mut cpu, mut nes) = new_test_cpu(vec![0xC6, 0x10]);
    cpu.write(&mut nes, 0x0010, 0x01).unwrap();
    assert_eq!(cpu.execute_instruction(&mut nes), Ok(5));
    assert_eq!(cpu.read(&mut nes, 0x0010), 0x00);
    assert_eq!(cpu.read_flag(Flag::Zero), true);
    assert_eq!(cpu.read_flag(Flag::Negative), false);

    let (mut cpu, mut nes) = new_test_cpu(vec![0xC6, 0x10]);
    cpu.write(&mut nes, 0x0010, 0x00).unwrap();
    assert_eq!(cpu.execute_instruction(&mut nes), Ok(5));
    assert_eq!(cpu.read(&mut nes, 0x0010), !0x01 + 1);
    assert_eq!(cpu.read_flag(Flag::Zero), false);
    assert_eq!(cpu.read_flag(Flag::Negative), true);

    // ZeroPage, X
    let (mut cpu, mut nes) = new_test_cpu(vec![0xD6, 0x10]);
    cpu.write(&mut nes, 0x0011, 0x03).unwrap();
    cpu.x = 0x01;
    assert_eq!(cpu.execute_instruction(&mut nes), Ok(6));
    assert_eq!(cpu.read(&mut nes, 0x0011), 0x02);
    assert_eq!(cpu.read_flag(Flag::Zero), false);
    assert_eq!(cpu.read_flag(Flag::Negative), false);
}

#[test]
fn instruction_dey() {
    let (mut cpu, mut nes) = new_test_cpu(vec![0x88]);
    cpu.y = 0x03;
    assert_eq!(cpu.execute_instruction(&mut nes), Ok(2));
    assert_eq!(cpu.y, 0x02);
    assert_eq!(cpu.read_flag(Flag::Zero), false);
    assert_eq!(cpu.read_flag(Flag::Negative), false);

    let (mut cpu, mut nes) = new_test_cpu(vec![0x88]);
    cpu.y = 0x01;
    assert_eq!(cpu.execute_instruction(&mut nes), Ok(2));
    assert_eq!(cpu.y, 0x00);
    assert_eq!(cpu.read_flag(Flag::Zero), true);
    assert_eq!(cpu.read_flag(Flag::Negative), false);

    let (mut cpu, mut nes) = new_test_cpu(vec![0x88]);
    cpu.y = 0x00;
    assert_eq!(cpu.execute_instruction(&mut nes), Ok(2));
    assert_eq!(cpu.y, !1 + 1);
    assert_eq!(cpu.read_flag(Flag::Zero), false);
    assert_eq!(cpu.read_flag(Flag::Negative), true);
}

#[test]
fn instruction_inx() {
    let (mut cpu, mut nes) = new_test_cpu(vec![0xE8]);
    cpu.x = 0x03;
    assert_eq!(cpu.execute_instruction(&mut nes), Ok(2));
    assert_eq!(cpu.x, 0x04);
    assert_eq!(cpu.read_flag(Flag::Zero), false);
    assert_eq!(cpu.read_flag(Flag::Negative), false);

    let (mut cpu, mut nes) = new_test_cpu(vec![0xE8]);
    cpu.x = !1 + 1;
    assert_eq!(cpu.execute_instruction(&mut nes), Ok(2));
    assert_eq!(cpu.x, 0x00);
    assert_eq!(cpu.read_flag(Flag::Zero), true);
    assert_eq!(cpu.read_flag(Flag::Negative), false);

    let (mut cpu, mut nes) = new_test_cpu(vec![0xE8]);
    cpu.x = !3 + 1;
    assert_eq!(cpu.execute_instruction(&mut nes), Ok(2));
    assert_eq!(cpu.x, !2 + 1);
    assert_eq!(cpu.read_flag(Flag::Zero), false);
    assert_eq!(cpu.read_flag(Flag::Negative), true);
}

#[test]
fn instruction_jmp() {
    // Absolute
    let (mut cpu, mut nes) = new_test_cpu(vec![0x4C, 0x03, 0x01]);
    assert_eq!(cpu.execute_instruction(&mut nes), Ok(3));
    assert_eq!(cpu.pc, 0x0103);
}

#[test]
fn instruction_jsr() {
    let (mut cpu, mut nes) = new_test_cpu(vec![0x20, 0x09, 0x90]);
    assert_eq!(cpu.execute_instruction(&mut nes), Ok(6));
    assert_eq!(cpu.pc, 0x9009);
    assert_eq!(cpu.read(&mut nes, cpu.s + 2), (PRG_ROM_BASE >> 8) as u8);
    assert_eq!(cpu.read(&mut nes, cpu.s + 1), (PRG_ROM_BASE & 0x00ff) as u8 + 3);
}

#[test]
fn instruction_lda() {
    // Test flag behavior
    let (mut cpu, mut nes) = new_test_cpu(vec![0xA9, 3]);
    assert_eq!(cpu.execute_instruction(&mut nes), Ok(2));
    assert_eq!(cpu.a, 3);
    assert_eq!(cpu.read_flag(Flag::Zero), false);
    assert_eq!(cpu.read_flag(Flag::Negative), false);

    let (mut cpu, mut nes) = new_test_cpu(vec![0xA9, 0]);
    assert_eq!(cpu.execute_instruction(&mut nes), Ok(2));
    assert_eq!(cpu.a, 0);
    assert_eq!(cpu.read_flag(Flag::Zero), true);
    assert_eq!(cpu.read_flag(Flag::Negative), false);

    let (mut cpu, mut nes) = new_test_cpu(vec![0xA9, !3 + 1]);
    assert_eq!(cpu.execute_instruction(&mut nes), Ok(2));
    assert_eq!(cpu.a, !3 + 1);
    assert_eq!(cpu.read_flag(Flag::Zero), false);
    assert_eq!(cpu.read_flag(Flag::Negative), true);

    // Absolute
    let (mut cpu, mut nes) = new_test_cpu(vec![0xAD, 0x01, 0x10]);
    cpu.write(&mut nes, 0x1001, 3).unwrap();
    assert_eq!(cpu.execute_instruction(&mut nes), Ok(4));
    assert_eq!(cpu.a, 3);

    // Absolute X
    let (mut cpu, mut nes) = new_test_cpu(vec![0xBD, 0x10, 0x10]);
    cpu.write(&mut nes, 0x1011, 3).unwrap();
    cpu.x = 0x01;
    assert_eq!(cpu.execute_instruction(&mut nes), Ok(4));
    assert_eq!(cpu.a, 3);

    let (mut cpu, mut nes) = new_test_cpu(vec![0xBD, 0xFF, 0x10]);
    cpu.write(&mut nes, 0x1100, 3).unwrap();
    cpu.x = 0x01;
    assert_eq!(cpu.execute_instruction(&mut nes), Ok(5));
    assert_eq!(cpu.a, 3);
}

#[test]
fn instruction_ldx_immediate() {
    let opcode = 0xa2;

    let (mut cpu, mut nes) = new_test_cpu(vec![opcode, 3]);
    assert_eq!(cpu.execute_instruction(&mut nes), Ok(2));
    assert_eq!(cpu.x, 3);
    assert_eq!(cpu.read_flag(Flag::Zero), false);
    assert_eq!(cpu.read_flag(Flag::Negative), false);

    let (mut cpu, mut nes) = new_test_cpu(vec![opcode, 0]);
    assert_eq!(cpu.execute_instruction(&mut nes), Ok(2));
    assert_eq!(cpu.x, 0);
    assert_eq!(cpu.read_flag(Flag::Zero), true);
    assert_eq!(cpu.read_flag(Flag::Negative), false);

    let (mut cpu, mut nes) = new_test_cpu(vec![opcode, !3 + 1]);
    assert_eq!(cpu.execute_instruction(&mut nes), Ok(2));
    assert_eq!(cpu.x, !3 + 1);
    assert_eq!(cpu.read_flag(Flag::Zero), false);
    assert_eq!(cpu.read_flag(Flag::Negative), true);
}

#[test]
fn instruction_ldy_immediate() {
    let opcode = 0xa0;

    let (mut cpu, mut nes) = new_test_cpu(vec![opcode, 3]);
    assert_eq!(cpu.execute_instruction(&mut nes), Ok(2));
    assert_eq!(cpu.y, 3);
    assert_eq!(cpu.read_flag(Flag::Zero), false);
    assert_eq!(cpu.read_flag(Flag::Negative), false);

    let (mut cpu, mut nes) = new_test_cpu(vec![opcode, 0]);
    assert_eq!(cpu.execute_instruction(&mut nes), Ok(2));
    assert_eq!(cpu.y, 0);
    assert_eq!(cpu.read_flag(Flag::Zero), true);
    assert_eq!(cpu.read_flag(Flag::Negative), false);

    let (mut cpu, mut nes) = new_test_cpu(vec![opcode, !3 + 1]);
    assert_eq!(cpu.execute_instruction(&mut nes), Ok(2));
    assert_eq!(cpu.y, !3 + 1);
    assert_eq!(cpu.read_flag(Flag::Zero), false);
    assert_eq!(cpu.read_flag(Flag::Negative), true);
}

#[test]
fn instruction_sei_implied() {
    let (mut cpu, mut nes) = new_test_cpu(vec![0x78]);
    assert_eq!(cpu.execute_instruction(&mut nes), Ok(2));
    assert_eq!(cpu.read_flag(Flag::InterruptDisable), true);
}

#[test]
fn instruction_slo() {
    // (zp, X): the pointer at 0x12 names 0x0345, which holds 0b1100_0001.
    let (mut cpu, mut nes) = new_test_cpu(vec![0x03, 0x10]);
    cpu.x = 2;
    cpu.a = 0b0000_0100;
    cpu.write(&mut nes, 0x12, 0x45).unwrap();
    cpu.write(&mut nes, 0x13, 0x03).unwrap();
    cpu.write(&mut nes, 0x0345, 0b1100_0001).unwrap();
    assert_eq!(cpu.execute_instruction(&mut nes), Ok(8));
    assert_eq!(cpu.read(&mut nes, 0x0345), 0b1000_0010);
    assert_eq!(cpu.a, 0b1000_0110);
    assert_eq!(cpu.read_flag(Flag::Carry), true);
    assert_eq!(cpu.read_flag(Flag::Zero), false);
    assert_eq!(cpu.read_flag(Flag::Negative), true);
}

#[test]
fn instruction_sta_absolute() {
    let opcode = 0x8d;

    let (mut cpu, mut nes) = new_test_cpu(vec![opcode, 0x11, 0x01]);
    cpu.a = 3;
    assert_eq!(cpu.execute_instruction(&mut nes), Ok(4));
    assert_eq!(cpu.read(&mut nes, 0x0111), 3);
}

#[test]
fn instruction_txs_implied() {
    let (mut cpu, mut nes) = new_test_cpu(vec![0x9a]);
    cpu.x = 3;
    assert_eq!(cpu.execute_instruction(&mut nes), Ok(2));
    assert_eq!(cpu.s, 3);
}

// ----- scenarios through `tick` -----

#[test]
fn tick_sei_sets_interrupt_disable() {
    let (mut cpu, mut nes) = new_test_cpu(vec![0x78]);
    assert_eq!(cpu.tick(&mut nes), Ok(2));
    assert!(cpu.read_flag(Flag::InterruptDisable));
    assert_eq!(cpu.pc, 0x8001);
}

#[test]
fn tick_lda_zero() {
    let (mut cpu, mut nes) = new_test_cpu(vec![0xA9, 0x00]);
    cpu.a = 0x55;
    assert_eq!(cpu.tick(&mut nes), Ok(2));
    assert_eq!(cpu.a, 0);
    assert!(cpu.read_flag(Flag::Zero));
    assert!(!cpu.read_flag(Flag::Negative));
}

#[test]
fn tick_dec_zero_page_wraps() {
    let (mut cpu, mut nes) = new_test_cpu(vec![0xC6, 0x10]);
    cpu.write(&mut nes, 0x10, 0x00).unwrap();
    assert_eq!(cpu.tick(&mut nes), Ok(5));
    assert_eq!(cpu.read(&mut nes, 0x10), 0xFF);
    assert!(!cpu.read_flag(Flag::Zero));
    assert!(cpu.read_flag(Flag::Negative));
}

#[test]
fn tick_jsr_pushes_return_address() {
    let (mut cpu, mut nes) = new_test_cpu(vec![0x20, 0x09, 0x90]);
    let s = cpu.s;
    assert_eq!(cpu.tick(&mut nes), Ok(6));
    assert_eq!(cpu.pc, 0x9009);
    assert_eq!(cpu.read_ram(s), 0x80);
    assert_eq!(cpu.read_ram(s - 1), 0x03);
    assert_eq!(cpu.s, s - 2);
    assert_eq!(cpu.pop(), 0x03);
    assert_eq!(cpu.pop(), 0x80);
    assert_eq!(cpu.s, s);
}

#[test]
fn tick_brk_jumps_through_vector() {
    let mut prg = vec![0x00];
    prg.resize(0x3FFE, 0);
    prg.push(0x34);
    prg.push(0x92);
    let (mut cpu, mut nes) = new_test_cpu(prg);
    let s = cpu.s;
    assert_eq!(cpu.tick(&mut nes), Ok(7));
    assert_eq!(cpu.pc, 0x9234);
    assert!(cpu.read_flag(Flag::InterruptDisable));
    assert_eq!(nes.cpu_interruption, Interruption::Idle);
    assert_eq!(cpu.read_ram(s), 0x80);
    assert_eq!(cpu.read_ram(s - 1), 0x01);
    assert_eq!(cpu.read_ram(s - 2), 0b0001_0000);
    assert_eq!(cpu.s, s - 3);
}

#[test]
fn tick_brk_with_interrupts_disabled_is_consumed() {
    let (mut cpu, mut nes) = new_test_cpu(vec![0x00]);
    cpu.write_flag(Flag::InterruptDisable, true);
    assert_eq!(cpu.tick(&mut nes), Ok(7));
    assert_eq!(cpu.pc, 0x8001);
    assert_eq!(nes.cpu_interruption, Interruption::Idle);
}

#[test]
fn unknown_opcode_faults_with_registers() {
    let (mut cpu, mut nes) = new_test_cpu(vec![0x69, 0x01]);
    cpu.a = 7;
    let r = cpu.tick(&mut nes);
    assert_eq!(
        r,
        Err(CpuFault {
            kind: FaultKind::UnknownOpcode(0x69),
            registers: Registers { a: 7, x: 0, y: 0, pc: 0x8000, s: 0xfd, status: 0 },
        })
    );
}

#[test]
fn write_to_cartridge_space_faults() {
    let (mut cpu, mut nes) = new_test_cpu(vec![0x8D, 0x00, 0x80]);
    assert_eq!(cpu.write(&mut nes, 0x4020, 1), Err(FaultKind::ReadOnlyWrite(0x4020)));
    let r = cpu.execute_instruction(&mut nes);
    assert_eq!(r.map_err(|f| f.kind), Err(FaultKind::ReadOnlyWrite(0x8000)));
    // The I/O registers above the picture unit's window take writes and ignore them.
    assert_eq!(cpu.write(&mut nes, 0x401F, 1), Ok(()));
    assert_eq!(cpu.read(&mut nes, 0x4000), 0);
}

#[test]
fn ram_mirrors_repeat_every_2k() {
    let (mut cpu, mut nes) = new_test_cpu(vec![0xEA]);
    for k in 1..4u16 {
        let a = 0x0123u16;
        cpu.write(&mut nes, a + 0x0800 * k, k as u8 + 10).unwrap();
        assert_eq!(cpu.read(&mut nes, a), k as u8 + 10);
        cpu.write(&mut nes, 0x07FF, k as u8).unwrap();
        assert_eq!(cpu.read(&mut nes, 0x07FF + 0x0800 * k), k as u8);
    }
    // 0x1FFF is the last mirrored cell; 0x2000 is the picture unit's window.
    cpu.write(&mut nes, 0x1FFF, 0x42).unwrap();
    assert_eq!(cpu.read(&mut nes, 0x07FF), 0x42);
    assert_eq!(cpu.read(&mut nes, 0x2000), 0);
}

#[test]
fn program_memory_repeats_in_the_window() {
    let (mut cpu, mut nes) = new_test_cpu(vec![0xAB, 0xCD]);
    assert_eq!(cpu.read(&mut nes, 0x8000), 0xAB);
    assert_eq!(cpu.read(&mut nes, 0xC001), 0xCD);
}

#[test]
fn stack_push_then_pop_word() {
    let mut cpu = Cpu::new();
    let s = cpu.s;
    cpu.push_word(0xBEEF);
    assert_eq!(cpu.pop(), 0xEF);
    assert_eq!(cpu.pop(), 0xBE);
    assert_eq!(cpu.s, s);
}

#[test]
fn nop_absolute_x_page_penalty() {
    let (mut cpu, mut nes) = new_test_cpu(vec![0x1C, 0xF0, 0x00]);
    cpu.x = 0x0F;
    assert_eq!(cpu.execute_instruction(&mut nes), Ok(4));
    let (mut cpu, mut nes) = new_test_cpu(vec![0x1C, 0xF0, 0x00]);
    cpu.x = 0x10;
    assert_eq!(cpu.execute_instruction(&mut nes), Ok(5));
}

#[test]
fn lda_indexed_modes() {
    // (zp, X)
    let (mut cpu, mut nes) = new_test_cpu(vec![0xA1, 0x20]);
    cpu.x = 4;
    cpu.write(&mut nes, 0x24, 0x00).unwrap();
    cpu.write(&mut nes, 0x25, 0x03).unwrap();
    cpu.write(&mut nes, 0x0300, 0x99).unwrap();
    assert_eq!(cpu.execute_instruction(&mut nes), Ok(6));
    assert_eq!(cpu.a, 0x99);
    // (zp), Y without and with a page crossing
    let (mut cpu, mut nes) = new_test_cpu(vec![0xB1, 0x20]);
    cpu.y = 0x01;
    cpu.write(&mut nes, 0x20, 0x10).unwrap();
    cpu.write(&mut nes, 0x21, 0x03).unwrap();
    cpu.write(&mut nes, 0x0311, 0x5A).unwrap();
    assert_eq!(cpu.execute_instruction(&mut nes), Ok(5));
    assert_eq!(cpu.a, 0x5A);
    let (mut cpu, mut nes) = new_test_cpu(vec![0xB1, 0x20]);
    cpu.y = 0xF0;
    cpu.write(&mut nes, 0x20, 0x20).unwrap();
    cpu.write(&mut nes, 0x21, 0x03).unwrap();
    cpu.write(&mut nes, 0x0410, 0x01).unwrap();
    assert_eq!(cpu.execute_instruction(&mut nes), Ok(6));
    assert_eq!(cpu.a, 0x01);
    // Absolute, Y; zero page, X wraps within the zero page
    let (mut cpu, mut nes) = new_test_cpu(vec![0xB9, 0x00, 0x02]);
    cpu.y = 3;
    cpu.write(&mut nes, 0x0203, 0x77).unwrap();
    assert_eq!(cpu.execute_instruction(&mut nes), Ok(4));
    assert_eq!(cpu.a, 0x77);
    let (mut cpu, mut nes) = new_test_cpu(vec![0xB5, 0xFF]);
    cpu.x = 2;
    cpu.write(&mut nes, 0x01, 0x66).unwrap();
    assert_eq!(cpu.execute_instruction(&mut nes), Ok(4));
    assert_eq!(cpu.a, 0x66);
}

#[test]
fn cmp_sets_carry_zero_negative() {
    let (mut cpu, mut nes) = new_test_cpu(vec![0xC9, 0x05]);
    cpu.a = 5;
    assert_eq!(cpu.execute_instruction(&mut nes), Ok(2));
    assert!(cpu.read_flag(Flag::Carry));
    assert!(cpu.read_flag(Flag::Zero));
    assert!(!cpu.read_flag(Flag::Negative));
    let (mut cpu, mut nes) = new_test_cpu(vec![0xC9, 0x06]);
    cpu.a = 5;
    assert_eq!(cpu.execute_instruction(&mut nes), Ok(2));
    assert!(!cpu.read_flag(Flag::Carry));
    assert!(!cpu.read_flag(Flag::Zero));
    assert!(cpu.read_flag(Flag::Negative));
}

#[test]
fn isc_increments_then_subtracts_with_borrow() {
    // memory 0x0205 holds 4 -> 5; A = 10, Carry set: 10 - 5 = 5.
    let (mut cpu, mut nes) = new_test_cpu(vec![0xFF, 0x00, 0x02]);
    cpu.x = 5;
    cpu.a = 10;
    cpu.write_flag(Flag::Carry, true);
    cpu.write(&mut nes, 0x0205, 4).unwrap();
    assert_eq!(cpu.execute_instruction(&mut nes), Ok(7));
    assert_eq!(cpu.read(&mut nes, 0x0205), 5);
    assert_eq!(cpu.a, 5);
    assert!(cpu.read_flag(Flag::Carry));
    assert!(!cpu.read_flag(Flag::Overflow));
    // A = 0x80, Carry clear: 0x80 - 0 - 1 = 0x7F borrows nothing but overflows.
    let (mut cpu, mut nes) = new_test_cpu(vec![0xFF, 0x00, 0x02]);
    cpu.a = 0x80;
    cpu.write(&mut nes, 0x0200, 0xFF).unwrap();
    assert_eq!(cpu.execute_instruction(&mut nes), Ok(7));
    assert_eq!(cpu.a, 0x7F);
    assert!(cpu.read_flag(Flag::Carry));
    assert!(cpu.read_flag(Flag::Overflow));
    assert!(!cpu.read_flag(Flag::Negative));
}

#[test]
fn ppu_address_latch_through_the_bus() {
    let (mut cpu, mut nes) = new_test_cpu(vec![0xEA]);
    cpu.write(&mut nes, 0x2006, 0x21).unwrap();
    cpu.write(&mut nes, 0x200E, 0x08).unwrap(); // a mirror of 0x2006
    cpu.write(&mut nes, 0x2007, 0x5C).unwrap();
    assert_eq!(nes.ppu_register_bus.ppu_addr, Some(0x2108));
    assert_eq!(nes.ppu_register_bus.ppu_data, 0x5C);
}

#[test]
fn new_cpu_registers() {
    let cpu = Cpu::new();
    assert_eq!(
        cpu.registers(),
        Registers { a: 0, x: 0, y: 0, pc: 0x8000, s: 0xfd, status: 0x34 }
    );
    assert_eq!(u8::from(Flag::Negative), 0x80);
    assert_eq!(u8::from(Flag::Break), 0x10);
}
