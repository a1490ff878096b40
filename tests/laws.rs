use dam4nes::emulator::{
    power_up, ppu_bus, render_tile, run_instruction, tick, Halt, FRAME_HEIGHT, FRAME_WIDTH,
};
use dam4nes::error::{ExecutionError, InvalidOpCode};
use dam4nes::hardware::cpu::{AddressingMode, Flags, Registers, CPU, MMU};
use dam4nes::hardware::memory::{Memory, MemoryMapper, Stack};
use dam4nes::hardware::ppu::{
    Clock, NameTable, PatternTables, State, StatusFlags, Tile, PPU,
};
use dam4nes::instruction::{Instruction, InstructionExecutor, InstructionType};
use dam4nes::rom::{PRG_PAGE_SIZE, ROM};

const TILE_FIXTURE: [u8; 16] = [
    0x41, 0xC2, 0x44, 0x48, 0x10, 0x20, 0x40, 0x80, 0x01, 0x02, 0x04, 0x08, 0x16, 0x21, 0x42, 0x87,
];

const TILE_GRID: [[u8; 8]; 8] = [
    [0, 1, 0, 0, 0, 0, 0, 3],
    [1, 1, 0, 0, 0, 0, 3, 0],
    [0, 1, 0, 0, 0, 3, 0, 0],
    [0, 1, 0, 0, 3, 0, 0, 0],
    [0, 0, 0, 3, 0, 2, 2, 0],
    [0, 0, 3, 0, 0, 0, 0, 2],
    [0, 3, 0, 0, 0, 0, 2, 0],
    [3, 0, 0, 0, 0, 2, 2, 2],
];

fn run(cpu: &mut CPU, ppu: &mut PPU, instruction: Instruction) -> Result<(), ExecutionError> {
    InstructionExecutor::new(&mut MMU::new(cpu, ppu, None)).execute(instruction)
}

#[test]
fn flags_round_trip_every_byte() {
    for b in 0..=255u8 {
        let back: u8 = Flags::from(b).into();
        if b & 0x20 == 0 {
            assert_eq!(back, b);
        } else {
            assert_eq!(back, b & 0xDF);
        }
    }
}

#[test]
fn flags_bits_in_place() {
    let flags = Flags::from(0b1100_0011);
    assert!(flags.carry && flags.zero && flags.overflow && flags.negative);
    assert!(!flags.interrupt_disable && !flags.decimal && !flags.break_command);
    let byte: u8 = Flags { decimal: true, break_command: true, ..Default::default() }.into();
    assert_eq!(byte, 0x18);
}

#[test]
fn registers_default_and_power_up() {
    let registers = Registers::default();
    assert_eq!(registers, Registers { a: 0, x: 0, y: 0, p: 0, s: 0xFF, pc: 0 });
    let cpu = CPU::with_power_up_state();
    assert_eq!(cpu.registers, Registers { a: 0, x: 0, y: 0, p: 0x34, s: 0xFD, pc: 0 });
    assert!(cpu.internal_memory.iter().all(|b| *b == 0));
}

#[test]
fn ram_mirrors_every_two_kilobytes() {
    for address in [0x0000u16, 0x0001, 0x07FF, 0x0800, 0x0C34, 0x1234, 0x1FFF] {
        let mut cpu = CPU::new();
        let mut ppu = PPU::new();
        let mut mmu = MMU::new(&mut cpu, &mut ppu, None);
        mmu.write(address, 0xA5);
        assert_eq!(mmu.read(address ^ 0x0800), Some(0xA5));
        assert_eq!(mmu.read(address % 0x0800), Some(0xA5));
    }
}

#[test]
fn ppu_registers_mirror_every_eight_bytes() {
    let mut cpu = CPU::new();
    let mut ppu = PPU::new();
    let mut mmu = MMU::new(&mut cpu, &mut ppu, None);
    mmu.write(0x2000, 0x11);
    mmu.write(0x3FFF, 0x77);
    mmu.write(0x200E, 0x66);
    assert_eq!(mmu.read(0x2008), Some(0x11));
    assert_eq!(mmu.read(0x2007), Some(0x77));
    assert_eq!(mmu.read(0x2006), Some(0x66));
    assert_eq!(ppu.registers.ppuctrl, 0x11);
    assert_eq!(ppu.registers.oamdma, 0x77);
    assert_eq!(ppu.registers.ppudata, 0x66);
}

#[test]
fn bus_io_range_and_cartridge() {
    let bank = vec![0x42u8; PRG_PAGE_SIZE];
    let mapper = MemoryMapper::NROM(&bank, &bank);
    let mut cpu = CPU::new();
    let mut ppu = PPU::new();
    let mut mmu = MMU::new(&mut cpu, &mut ppu, Some(&mapper));
    assert_eq!(mmu.read(0x4000), None);
    assert_eq!(mmu.read(0x401F), None);
    assert_eq!(mmu.read(0x4020), None);
    assert_eq!(mmu.read(0x8000), Some(0x42));
    assert_eq!(mmu.read(0xFFFF), Some(0x42));
    mmu.write(0x8000, 0x00);
    assert_eq!(mmu.read(0x8000), Some(0x42));
    assert_eq!(mmu.read_16_bit_value(0xFFFF), None);
}

#[test]
fn stack_returns_a_full_page_reversed() {
    let mut cpu = CPU::new();
    cpu.registers.s = 0x37;
    let values: Vec<u8> = (0..=255u8).collect();
    {
        let mut stack = Stack::new(&mut cpu);
        for v in &values {
            stack.push(*v);
        }
        let mut popped = Vec::new();
        for _ in 0..values.len() {
            popped.push(stack.pop());
        }
        let reversed: Vec<u8> = values.iter().rev().copied().collect();
        assert_eq!(popped, reversed);
    }
    assert_eq!(cpu.registers.s, 0x37);
}

#[test]
fn decoder_covers_the_official_opcodes() {
    let mut official = 0;
    for b in 0..=255u8 {
        match Instruction::from_machine_code(&[b, 0, 0]) {
            Ok(Some(instruction)) => {
                official += 1;
                let length = instruction.addressing_mode.byte_length();
                assert!((1..=3).contains(&length));
                let short = &[b, 0, 0][..length as usize - 1];
                if length > 1 {
                    assert_eq!(Instruction::from_machine_code(short), Err(InvalidOpCode::new(b)));
                }
                let exact = &[b, 0, 0][..length as usize];
                assert_eq!(Instruction::from_machine_code(exact), Ok(Some(instruction)));
            }
            Ok(None) => panic!("no instruction for a non-empty slice"),
            Err(e) => assert_eq!(e, InvalidOpCode::new(b)),
        }
    }
    assert_eq!(official, 151);
}

#[test]
fn decoder_reads_operands() {
    assert_eq!(
        Instruction::from_machine_code(&[0x6C, 0x34, 0x12]),
        Ok(Some(Instruction::new(InstructionType::JMP, AddressingMode::Indirect(0x1234))))
    );
    assert_eq!(
        Instruction::from_machine_code(&[0xD0, 0xFE]),
        Ok(Some(Instruction::new(InstructionType::BNE, AddressingMode::Relative(-2))))
    );
    assert_eq!(
        Instruction::from_machine_code(&[0x96, 0x10, 0xFF]),
        Ok(Some(Instruction::new(InstructionType::STX, AddressingMode::ZeroPageY(0x10))))
    );
    assert_eq!(Instruction::from_machine_code(&[0xAD, 0x10]), Err(InvalidOpCode::new(0xAD)));
}

#[test]
fn clock_returns_after_one_frame() {
    let mut ppu = PPU::new();
    let mut vblank_starts = Vec::new();
    for n in 1..=89_342u32 {
        ppu.clock.step();
        if ppu.state() == Some(State::VBlankToggle(true)) {
            vblank_starts.push((n, ppu.clock));
        }
        if n < 89_342 {
            assert_ne!(ppu.clock, Clock { cycle: 0, scanline: 0 });
        }
    }
    assert_eq!(ppu.clock, Clock { cycle: 0, scanline: 0 });
    assert_eq!(vblank_starts, vec![(241 * 341 + 1, Clock { cycle: 1, scanline: 241 })]);
}

#[test]
fn clock_wraps_cycle_and_scanline() {
    let mut clock = Clock { cycle: 340, scanline: 10 };
    clock.step();
    assert_eq!(clock, Clock { cycle: 0, scanline: 11 });
    let mut clock = Clock { cycle: 340, scanline: 261 };
    clock.step();
    assert_eq!(clock, Clock { cycle: 0, scanline: 0 });
}

#[test]
fn state_events() {
    let mut ppu = PPU::new();
    ppu.clock = Clock { cycle: 9, scanline: 16 };
    assert_eq!(ppu.state(), Some(State::RenderTile { x: 8, y: 16 }));
    ppu.clock = Clock { cycle: 10, scanline: 16 };
    assert_eq!(ppu.state(), None);
    ppu.clock = Clock { cycle: 1, scanline: 241 };
    assert_eq!(ppu.state(), Some(State::VBlankToggle(true)));
    ppu.clock = Clock { cycle: 1, scanline: 261 };
    assert_eq!(ppu.state(), Some(State::VBlankToggle(false)));
    ppu.clock = Clock { cycle: 257, scanline: 0 };
    assert_eq!(ppu.state(), None);
}

#[test]
fn tile_decodes_the_fixture() {
    let tile = Tile::from_pattern_table_slice(&TILE_FIXTURE).unwrap();
    assert_eq!(tile.0, TILE_GRID);
}

#[test]
fn tile_rejects_wrong_length() {
    assert_eq!(
        Tile::from_pattern_table_slice(&[0u8; 15]),
        Err(String::from("Invalid tile slice size. A tile needs to be 16 bytes but got 15"))
    );
}

#[test]
fn pattern_and_name_tables_check_sizes() {
    let table = vec![0u8; 4096];
    assert!(PatternTables::new(&table, &table).is_ok());
    assert_eq!(
        PatternTables::new(&table[..10], &table),
        Err(String::from(
            "Invalid pattern table slice size. Meeds to be 4096 bytes, got: (left: 10, right: 4096)"
        ))
    );
    let mut names = vec![0u8; 1024];
    names[1023] = 9;
    let name_table = NameTable::with_slice(&names).unwrap();
    assert_eq!(name_table.attribute_table().len(), 64);
    assert_eq!(name_table.attribute_table()[63], 9);
    assert_eq!(
        NameTable::with_slice(&names[..3]),
        Err(String::from("Invalid name table size. Needs to be 1024 bytes, got: 3"))
    );
}

#[test]
fn status_flags_round_trip() {
    for b in 0..=255u8 {
        let back: u8 = StatusFlags::from(b).into();
        assert_eq!(back, b);
    }
    let mut ppu = PPU::new();
    ppu.registers.set_status_flags(StatusFlags { vblank: true, least_significant_bits: 3, ..Default::default() });
    assert_eq!(ppu.registers.ppustatus, 0x83);
    assert!(ppu.registers.status_flags().vblank);
}

#[test]
fn adc_simple() {
    let mut cpu = CPU::new();
    let mut ppu = PPU::new();
    cpu.registers.a = 0x01;
    run(&mut cpu, &mut ppu, Instruction::new(InstructionType::ADC, AddressingMode::Immediate(0x01))).unwrap();
    let flags = cpu.registers.flags();
    assert_eq!(cpu.registers.a, 0x02);
    assert!(!flags.carry && !flags.overflow && !flags.negative && !flags.zero);
}

#[test]
fn adc_with_carry_in_and_sbc_borrow() {
    let mut cpu = CPU::new();
    let mut ppu = PPU::new();
    cpu.registers.a = 0x10;
    cpu.registers.set_flags(Flags { carry: true, ..Default::default() });
    run(&mut cpu, &mut ppu, Instruction::new(InstructionType::ADC, AddressingMode::Immediate(0x01))).unwrap();
    assert_eq!(cpu.registers.a, 0x12);
    assert!(!cpu.registers.flags().carry);
    cpu.registers.set_flags(Flags { carry: true, ..Default::default() });
    run(&mut cpu, &mut ppu, Instruction::new(InstructionType::SBC, AddressingMode::Immediate(0x02))).unwrap();
    assert_eq!(cpu.registers.a, 0x0F);
}

#[test]
fn jsr_then_rts_returns_past_the_call() {
    let mut cpu = CPU::new();
    let mut ppu = PPU::new();
    cpu.registers.pc = 0x0601;
    cpu.registers.s = 0xFF;
    run(&mut cpu, &mut ppu, Instruction::new(InstructionType::JSR, AddressingMode::Absolute(0x1000))).unwrap();
    assert_eq!(cpu.registers.pc, 0x1000);
    run(&mut cpu, &mut ppu, Instruction::new(InstructionType::RTS, AddressingMode::Implied)).unwrap();
    assert_eq!(cpu.registers.pc, 0x0601 + 3);
    assert_eq!(cpu.registers.s, 0xFF);
}

#[test]
fn bit_sets_negative_and_overflow_from_operand() {
    let mut cpu = CPU::new();
    let mut ppu = PPU::new();
    cpu.registers.a = 0xFF;
    cpu.internal_memory[0] = 0xC0;
    run(&mut cpu, &mut ppu, Instruction::new(InstructionType::BIT, AddressingMode::ZeroPage(0x00))).unwrap();
    let flags = cpu.registers.flags();
    assert!(flags.negative && flags.overflow && !flags.zero);
}

#[test]
fn branch_backwards_wraps() {
    let mut cpu = CPU::new();
    let mut ppu = PPU::new();
    cpu.registers.pc = 0x0001;
    run(&mut cpu, &mut ppu, Instruction::new(InstructionType::BNE, AddressingMode::Relative(-128))).unwrap();
    assert_eq!(cpu.registers.pc, 0xFF81);
    cpu.registers.set_flags(Flags { zero: true, ..Default::default() });
    run(&mut cpu, &mut ppu, Instruction::new(InstructionType::BNE, AddressingMode::Relative(5))).unwrap();
    assert_eq!(cpu.registers.pc, 0xFF81);
}

#[test]
fn indexed_modes_resolve_addresses() {
    let mut cpu = CPU::new();
    let mut ppu = PPU::new();
    cpu.registers.x = 0x04;
    cpu.registers.y = 0x10;
    cpu.internal_memory[0x24] = 0x00;
    cpu.internal_memory[0x25] = 0x03;
    cpu.internal_memory[0x0300] = 0x99;
    cpu.internal_memory[0x0310] = 0x55;
    cpu.internal_memory[0x03] = 0x77;
    run(&mut cpu, &mut ppu, Instruction::new(InstructionType::LDA, AddressingMode::IndexedIndirect(0x20))).unwrap();
    assert_eq!(cpu.registers.a, 0x99);
    run(&mut cpu, &mut ppu, Instruction::new(InstructionType::LDA, AddressingMode::IndirectIndexed(0x24))).unwrap();
    assert_eq!(cpu.registers.a, 0x55);
    run(&mut cpu, &mut ppu, Instruction::new(InstructionType::LDA, AddressingMode::ZeroPageX(0xFF))).unwrap();
    assert_eq!(cpu.registers.a, 0x77);
}

#[test]
fn jmp_indirect_reads_the_pointer() {
    let mut cpu = CPU::new();
    let mut ppu = PPU::new();
    cpu.internal_memory[0x0120] = 0x34;
    cpu.internal_memory[0x0121] = 0x12;
    run(&mut cpu, &mut ppu, Instruction::new(InstructionType::JMP, AddressingMode::Indirect(0x0120))).unwrap();
    assert_eq!(cpu.registers.pc, 0x1234);
    assert_eq!(
        run(&mut cpu, &mut ppu, Instruction::new(InstructionType::JMP, AddressingMode::Indirect(0x4000))),
        Err(ExecutionError::UnmappedRead(0x4000))
    );
    assert_eq!(cpu.registers.pc, 0x1234);
}

#[test]
fn execution_errors_change_nothing() {
    let mut cpu = CPU::new();
    let mut ppu = PPU::new();
    cpu.registers.a = 0x12;
    let before = cpu.registers;
    assert_eq!(
        run(&mut cpu, &mut ppu, Instruction::new(InstructionType::STA, AddressingMode::Immediate(0x01))),
        Err(ExecutionError::InvalidAddressingMode)
    );
    assert_eq!(
        run(&mut cpu, &mut ppu, Instruction::new(InstructionType::LDA, AddressingMode::Absolute(0x4016))),
        Err(ExecutionError::UnmappedRead(0x4016))
    );
    assert_eq!(
        run(&mut cpu, &mut ppu, Instruction::new(InstructionType::JSR, AddressingMode::Implied)),
        Err(ExecutionError::InvalidAddressingMode)
    );
    assert_eq!(cpu.registers, before);
}

#[test]
fn brk_pushes_pc_and_flags() {
    let mut cpu = CPU::new();
    let mut ppu = PPU::new();
    cpu.registers.pc = 0x1234;
    cpu.registers.s = 0xFF;
    cpu.registers.set_flags(Flags { carry: true, ..Default::default() });
    run(&mut cpu, &mut ppu, Instruction::new(InstructionType::BRK, AddressingMode::Implied)).unwrap();
    assert_eq!(cpu.internal_memory[0x01FF], 0x12);
    assert_eq!(cpu.internal_memory[0x01FE], 0x34);
    assert_eq!(cpu.internal_memory[0x01FD], 0x01);
    assert!(cpu.registers.flags().break_command);
    assert_eq!(cpu.registers.pc, 0x1234);
    assert!(!InstructionType::BRK.increments_pc());
    assert!(InstructionType::BNE.increments_pc());
}

#[test]
fn rom_reads_header_and_banks() {
    let mut content = vec![0x4E, 0x45, 0x53, 0x1A, 1, 1, 0, 0, 0, 0, 0, 0, 0, 0, 0, 0];
    content.extend(std::iter::repeat(0xAA).take(16 * 1024));
    content.extend(std::iter::repeat(0xBB).take(8 * 1024));
    let rom = ROM::with_content(content).unwrap();
    assert_eq!(rom.prg_rom().len(), 16 * 1024);
    assert!(rom.prg_rom().iter().all(|b| *b == 0xAA));
    assert_eq!(rom.chr_rom().len(), 8 * 1024);
    assert!(rom.chr_rom().iter().all(|b| *b == 0xBB));
}

#[test]
fn rom_refuses_bad_images() {
    let bad_magic = vec![0x4E, 0x45, 0x53, 0x00, 0, 0, 0, 0, 0, 0, 0, 0, 0, 0, 0, 0];
    assert_eq!(ROM::with_content(bad_magic).err(), Some("Input is not a valid iNES file format"));
    let short = vec![0x4E, 0x45, 0x53, 0x1A, 1, 0, 0, 0, 0, 0, 0, 0, 0, 0, 0, 0];
    assert!(ROM::with_content(short).is_err());
    assert!(ROM::with_content(vec![0x4E]).is_err());
}

#[test]
fn run_instruction_advances_pc() {
    let mut bank = vec![0xEAu8; PRG_PAGE_SIZE];
    bank[0] = 0xA9;
    bank[1] = 0x05;
    bank[2] = 0x4C;
    bank[3] = 0x00;
    bank[4] = 0x80;
    bank[5] = 0x02;
    let mapper = MemoryMapper::NROM(&bank, &bank);
    let mut cpu = CPU::with_power_up_state();
    let mut ppu = PPU::new();
    cpu.registers.pc = 0x8000;
    assert_eq!(
        run_instruction(&mut cpu, &mut ppu, &mapper),
        Ok(Instruction::new(InstructionType::LDA, AddressingMode::Immediate(0x05)))
    );
    assert_eq!(cpu.registers.a, 0x05);
    assert_eq!(cpu.registers.pc, 0x8002);
    run_instruction(&mut cpu, &mut ppu, &mapper).unwrap();
    assert_eq!(cpu.registers.pc, 0x8000);
    cpu.registers.pc = 0x8005;
    assert_eq!(
        run_instruction(&mut cpu, &mut ppu, &mapper),
        Err(Halt::InvalidOpCode(InvalidOpCode::new(0x02)))
    );
    assert_eq!(cpu.registers.pc, 0x8005);
    cpu.registers.pc = 0x0000;
    assert_eq!(run_instruction(&mut cpu, &mut ppu, &mapper), Err(Halt::OutOfCode));
}

#[test]
fn tick_toggles_vblank() {
    let mut ppu = PPU::new();
    ppu.clock = Clock { cycle: 0, scanline: 241 };
    assert_eq!(tick(&mut ppu), Some(State::VBlankToggle(true)));
    assert!(ppu.registers.status_flags().vblank);
    ppu.clock = Clock { cycle: 0, scanline: 261 };
    assert_eq!(tick(&mut ppu), Some(State::VBlankToggle(false)));
    assert!(!ppu.registers.status_flags().vblank);
    assert_eq!(tick(&mut ppu), None);
}

#[test]
fn render_tile_draws_the_fixture() {
    let mut chr_rom = vec![0u8; 8192];
    let index = (8 / 8) * 32 + 16 / 8;
    chr_rom[index * 16..index * 16 + 16].copy_from_slice(&TILE_FIXTURE);
    let ppu = PPU::new();
    let bus = ppu_bus(&chr_rom, &ppu.internal_memory).unwrap();
    let mut frame = [[7u8; FRAME_WIDTH]; FRAME_HEIGHT];
    assert!(render_tile(&bus, 16, 8, &mut frame));
    for row in 0..8 {
        assert_eq!(frame[8 + row][16..24], TILE_GRID[row]);
        assert_eq!(frame[8 + row][15], 7);
        assert_eq!(frame[8 + row][24], 7);
    }
    assert_eq!(frame[7][16], 7);
    assert!(ppu_bus(&chr_rom[..100], &ppu.internal_memory).is_none());
}

#[test]
fn nrom_mirrors_a_single_bank() {
    let mut one = vec![0u8; PRG_PAGE_SIZE];
    one[0] = 0x11;
    let mapper = MemoryMapper::nrom(&one);
    assert_eq!(mapper.read(0x8000), Some(0x11));
    assert_eq!(mapper.read(0xC000), Some(0x11));
    let mut two = vec![0u8; 2 * PRG_PAGE_SIZE];
    two[PRG_PAGE_SIZE] = 0x22;
    let mapper = MemoryMapper::nrom(&two);
    assert_eq!(mapper.read(0x8000), Some(0x00));
    assert_eq!(mapper.read(0xC000), Some(0x22));
    assert_eq!(mapper.slice_from(0xFFFE).map(|s| s.len()), Some(2));
    assert_eq!(mapper.read(0x7FFF), None);
}

#[test]
fn power_up_loads_the_reset_vector() {
    let mut bank = vec![0u8; PRG_PAGE_SIZE];
    bank[0x3FFC] = 0x00;
    bank[0x3FFD] = 0xC0;
    let mapper = MemoryMapper::nrom(&bank);
    let cpu = power_up(&mapper).unwrap();
    assert_eq!(cpu.registers, Registers { a: 0, x: 0, y: 0, p: 0x34, s: 0xFD, pc: 0xC000 });
    let empty: [u8; 0] = [];
    assert!(power_up(&MemoryMapper::NROM(&empty, &empty)).is_none());
}
