use dam4nes::error::InvalidOpCode;
use dam4nes::hardware::cpu::{AddressingMode, Flags, CPU, MMU};
use dam4nes::hardware::memory::{Memory, Stack};
use dam4nes::hardware::ppu::PPU;
use dam4nes::instruction::{Instruction, InstructionExecutor, InstructionType};
fn execute_with_cpu(cpu: &mut CPU, instruction: Instruction) {
    InstructionExecutor::new(&mut MMU::new(cpu, &mut PPU::new(), None))
        .execute(instruction)
        .unwrap();
}

#[test]
fn test_adc() {
    let mut cpu = CPU::new();
    cpu.registers.a = 0x01;

    execute_with_cpu(
        &mut cpu,
        Instruction::new(InstructionType::ADC, AddressingMode::Immediate(0x01)),
    );

    let flags = cpu.registers.flags();
    assert_eq!(cpu.registers.a, 0x02);
    assert!(!flags.carry);
    assert!(!flags.overflow);
    assert!(!flags.negative);
    assert!(!flags.zero);
}

#[test]
fn test_adc_carry() {
    let mut cpu = CPU::new();
    cpu.registers.a = 0x01;

    execute_with_cpu(
        &mut cpu,
        Instruction::new(InstructionType::ADC, AddressingMode::Immediate(0xFF)),
    );

    let flags = cpu.registers.flags();
    assert_eq!(cpu.registers.a, 0x00);
    assert!(flags.carry);
    assert!(!flags.overflow);
    assert!(!flags.negative);
    assert!(flags.zero);
}

#[test]
fn test_adc_overflow() {
    let mut cpu = CPU::new();
    cpu.registers.a = 0x7F;

    execute_with_cpu(
        &mut cpu,
        Instruction::new(InstructionType::ADC, AddressingMode::Immediate(0x01)),
    );

    let flags = cpu.registers.flags();
    assert_eq!(cpu.registers.a, 0x80);
    assert!(!flags.carry);
    assert!(flags.overflow);
    assert!(flags.negative);
    assert!(!flags.zero);
}

#[test]
fn test_adc_carry_overflow() {
    let mut cpu = CPU::new();
    cpu.registers.a = 0x80;

    execute_with_cpu(
        &mut cpu,
        Instruction::new(InstructionType::ADC, AddressingMode::Immediate(0xFF)),
    );

    let flags = cpu.registers.flags();
    assert_eq!(cpu.registers.a, 0x7F);
    assert!(flags.carry);
    assert!(flags.overflow);
    assert!(!flags.negative);
    assert!(!flags.zero);
}

#[test]
fn test_sbc() {
    let mut cpu = CPU::new();
    cpu.registers.a = 0x01;

    execute_with_cpu(
        &mut cpu,
        Instruction::new(InstructionType::SBC, AddressingMode::Immediate(0x01)),
    );

    let flags = cpu.registers.flags();
    assert_eq!(cpu.registers.a, 0x00);
    assert!(!flags.carry);
    assert!(!flags.overflow);
    assert!(!flags.negative);
    assert!(flags.zero);
}

#[test]
fn test_sbc_carry() {
    let mut cpu = CPU::new();
    cpu.registers.a = 0x01;

    execute_with_cpu(
        &mut cpu,
        Instruction::new(InstructionType::SBC, AddressingMode::Immediate(0xFF)),
    );

    let flags = cpu.registers.flags();
    assert_eq!(cpu.registers.a, 0x02);
    assert!(flags.carry);
    assert!(!flags.overflow);
    assert!(!flags.negative);
    assert!(!flags.zero);
}

#[test]
fn test_sbc_overflow() {
    let mut cpu = CPU::new();
    cpu.registers.a = 0xFF;

    execute_with_cpu(
        &mut cpu,
        Instruction::new(InstructionType::SBC, AddressingMode::Immediate(0xFF)),
    );

    let flags = cpu.registers.flags();
    assert_eq!(cpu.registers.a, 0x00);
    assert!(!flags.carry);
    assert!(flags.overflow);
    assert!(!flags.negative);
    assert!(flags.zero);
}

#[test]
fn test_sbc_carry_overflow() {
    let mut cpu = CPU::new();
    cpu.registers.a = 0x00;

    execute_with_cpu(
        &mut cpu,
        Instruction::new(InstructionType::SBC, AddressingMode::Immediate(0x01)),
    );

    let flags = cpu.registers.flags();
    assert_eq!(cpu.registers.a, 0xFF);
    assert!(flags.carry);
    assert!(flags.overflow);
    assert!(flags.negative);
    assert!(!flags.zero);
}

#[test]
fn test_lda() {
    let mut cpu = CPU::new();

    execute_with_cpu(
        &mut cpu,
        Instruction::new(InstructionType::LDA, AddressingMode::Immediate(0x01)),
    );

    let flags = cpu.registers.flags();
    assert_eq!(cpu.registers.a, 0x01);
    assert!(!flags.negative);
    assert!(!flags.zero);
}

#[test]
fn test_ldx() {
    let mut cpu = CPU::new();

    execute_with_cpu(
        &mut cpu,
        Instruction::new(InstructionType::LDX, AddressingMode::Immediate(0x01)),
    );

    let flags = cpu.registers.flags();
    assert_eq!(cpu.registers.x, 0x01);
    assert!(!flags.negative);
    assert!(!flags.zero);
}

#[test]
fn test_ldy() {
    let mut cpu = CPU::new();

    execute_with_cpu(
        &mut cpu,
        Instruction::new(InstructionType::LDY, AddressingMode::Immediate(0x01)),
    );

    let flags = cpu.registers.flags();
    assert_eq!(cpu.registers.y, 0x01);
    assert!(!flags.negative);
    assert!(!flags.zero);
}

#[test]
fn test_sta() {
    let mut cpu = CPU::new();
    cpu.registers.a = 0x01;
    let mut ppu = PPU::new();

    let mut mmu = MMU::new(&mut cpu, &mut ppu, None);
    InstructionExecutor::new(&mut mmu)
        .execute(Instruction::new(InstructionType::STA, AddressingMode::Absolute(0x0200)));
    assert_eq!(mmu.read(0x0200), Some(0x01));
}

#[test]
fn test_stx() {
    let mut cpu = CPU::new();
    cpu.registers.x = 0x01;
    let mut ppu = PPU::new();

    let mut mmu = MMU::new(&mut cpu, &mut ppu, None);
    InstructionExecutor::new(&mut mmu)
        .execute(Instruction::new(InstructionType::STX, AddressingMode::Absolute(0x0200)));
    assert_eq!(mmu.read(0x0200), Some(0x01));
}

#[test]
fn test_sty() {
    let mut cpu = CPU::new();
    cpu.registers.y = 0x01;
    let mut ppu = PPU::new();

    let mut mmu = MMU::new(&mut cpu, &mut ppu, None);
    InstructionExecutor::new(&mut mmu)
        .execute(Instruction::new(InstructionType::STY, AddressingMode::Absolute(0x0200)));
    assert_eq!(mmu.read(0x0200), Some(0x01));
}

#[test]
fn test_inc() {
    let mut cpu = CPU::new();

    execute_with_cpu(
        &mut cpu,
        Instruction::new(InstructionType::INC, AddressingMode::Absolute(0x0200)),
    );

    let flags = cpu.registers.flags();
    assert_eq!(MMU::new(&mut cpu, &mut PPU::new(), None).read(0x0200), Some(0x01));
    assert!(!flags.negative);
    assert!(!flags.zero);
}

#[test]
fn test_inx() {
    let mut cpu = CPU::new();

    execute_with_cpu(
        &mut cpu,
        Instruction::new(InstructionType::INX, AddressingMode::Implied),
    );

    let flags = cpu.registers.flags();
    assert_eq!(cpu.registers.x, 0x01);
    assert!(!flags.negative);
    assert!(!flags.zero);
}

#[test]
fn test_iny() {
    let mut cpu = CPU::new();

    execute_with_cpu(
        &mut cpu,
        Instruction::new(InstructionType::INY, AddressingMode::Implied),
    );

    let flags = cpu.registers.flags();
    assert_eq!(cpu.registers.y, 0x01);
    assert!(!flags.negative);
    assert!(!flags.zero);
}

#[test]
fn test_dec() {
    let mut cpu = CPU::new();

    execute_with_cpu(
        &mut cpu,
        Instruction::new(InstructionType::DEC, AddressingMode::Absolute(0x0200)),
    );

    let flags = cpu.registers.flags();
    assert_eq!(MMU::new(&mut cpu, &mut PPU::new(), None).read(0x0200), Some(0xFF));
    assert!(flags.negative);
    assert!(!flags.zero);
}

#[test]
fn test_dex() {
    let mut cpu = CPU::new();

    execute_with_cpu(
        &mut cpu,
        Instruction::new(InstructionType::DEX, AddressingMode::Implied),
    );

    let flags = cpu.registers.flags();
    assert_eq!(cpu.registers.x, 0xFF);
    assert!(flags.negative);
    assert!(!flags.zero);
}

#[test]
fn test_dey() {
    let mut cpu = CPU::new();

    execute_with_cpu(
        &mut cpu,
        Instruction::new(InstructionType::DEY, AddressingMode::Implied),
    );

    let flags = cpu.registers.flags();
    assert_eq!(cpu.registers.y, 0xFF);
    assert!(flags.negative);
    assert!(!flags.zero);
}

#[test]
fn test_asl() {
    let mut cpu = CPU::new();
    cpu.registers.a = 0b01;

    execute_with_cpu(
        &mut cpu,
        Instruction::new(InstructionType::ASL, AddressingMode::Accumulator),
    );

    let flags = cpu.registers.flags();
    assert_eq!(cpu.registers.a, 0b10);
    assert!(!flags.negative);
    assert!(!flags.zero);
    assert!(!flags.carry);
}

#[test]
fn test_asl_saturating() {
    let mut cpu = CPU::new();
    cpu.registers.a = 0b11111111;

    execute_with_cpu(
        &mut cpu,
        Instruction::new(InstructionType::ASL, AddressingMode::Accumulator),
    );

    let flags = cpu.registers.flags();
    assert_eq!(cpu.registers.a, 0b11111110);
    assert!(flags.negative);
    assert!(!flags.zero);
    assert!(flags.carry);
}

#[test]
fn test_asl_carry() {
    let mut cpu = CPU::new();
    cpu.registers.a = 0b10000000;

    execute_with_cpu(
        &mut cpu,
        Instruction::new(InstructionType::ASL, AddressingMode::Accumulator),
    );

    let flags = cpu.registers.flags();
    assert_eq!(cpu.registers.a, 0b0);
    assert!(!flags.negative);
    assert!(flags.zero);
    assert!(flags.carry);
}

#[test]
fn test_lsr() {
    let mut cpu = CPU::new();
    cpu.registers.a = 0b10;

    execute_with_cpu(
        &mut cpu,
        Instruction::new(InstructionType::LSR, AddressingMode::Accumulator),
    );

    let flags = cpu.registers.flags();
    assert_eq!(cpu.registers.a, 0b01);
    assert!(!flags.negative);
    assert!(!flags.zero);
    assert!(!flags.carry);
}

#[test]
fn test_lsr_saturating() {
    let mut cpu = CPU::new();
    cpu.registers.a = 0b11111111;

    execute_with_cpu(
        &mut cpu,
        Instruction::new(InstructionType::LSR, AddressingMode::Accumulator),
    );

    let flags = cpu.registers.flags();
    assert_eq!(cpu.registers.a, 0b01111111);
    assert!(!flags.negative);
    assert!(!flags.zero);
    assert!(flags.carry);
}

#[test]
fn test_lsr_carry() {
    let mut cpu = CPU::new();
    cpu.registers.a = 0b00000001;

    execute_with_cpu(
        &mut cpu,
        Instruction::new(InstructionType::LSR, AddressingMode::Accumulator),
    );

    let flags = cpu.registers.flags();
    assert_eq!(cpu.registers.a, 0b00);
    assert!(!flags.negative);
    assert!(flags.zero);
    assert!(flags.carry);
}

#[test]
fn test_rol() {
    let mut cpu = CPU::new();
    cpu.registers.a = 0b01;

    execute_with_cpu(
        &mut cpu,
        Instruction::new(InstructionType::ROL, AddressingMode::Accumulator),
    );

    let flags = cpu.registers.flags();
    assert_eq!(cpu.registers.a, 0b10);
    assert!(!flags.negative);
    assert!(!flags.zero);
    assert!(!flags.carry);
}

#[test]
fn test_rol_carry() {
    let mut cpu = CPU::new();
    cpu.registers.a = 0b11111111;

    execute_with_cpu(
        &mut cpu,
        Instruction::new(InstructionType::ROL, AddressingMode::Accumulator),
    );

    let flags = cpu.registers.flags();
    assert_eq!(cpu.registers.a, 0b11111110);
    assert!(flags.negative);
    assert!(!flags.zero);
    assert!(flags.carry);
}

#[test]
fn test_rol_carry_over() {
    let mut cpu = CPU::new();
    cpu.registers.a = 0b00;
    cpu.registers.set_flags(Flags {
        carry: true,
        ..Default::default()
    });

    execute_with_cpu(
        &mut cpu,
        Instruction::new(InstructionType::ROL, AddressingMode::Accumulator),
    );

    let flags = cpu.registers.flags();
    assert_eq!(cpu.registers.a, 0b01);
    assert!(!flags.negative);
    assert!(!flags.zero);
    assert!(!flags.carry);
}

#[test]
fn test_ror() {
    let mut cpu = CPU::new();
    cpu.registers.a = 0b10;

    execute_with_cpu(
        &mut cpu,
        Instruction::new(InstructionType::ROR, AddressingMode::Accumulator),
    );

    let flags = cpu.registers.flags();
    assert_eq!(cpu.registers.a, 0b01);
    assert!(!flags.negative);
    assert!(!flags.zero);
    assert!(!flags.carry);
}

#[test]
fn test_ror_carry() {
    let mut cpu = CPU::new();
    cpu.registers.a = 0b11111111;

    execute_with_cpu(
        &mut cpu,
        Instruction::new(InstructionType::ROR, AddressingMode::Accumulator),
    );

    let flags = cpu.registers.flags();
    assert_eq!(cpu.registers.a, 0b01111111);
    assert!(!flags.negative);
    assert!(!flags.zero);
    assert!(flags.carry);
}

#[test]
fn test_ror_carry_over() {
    let mut cpu = CPU::new();
    cpu.registers.a = 0b00;
    cpu.registers.set_flags(Flags {
        carry: true,
        ..Default::default()
    });

    execute_with_cpu(
        &mut cpu,
        Instruction::new(InstructionType::ROR, AddressingMode::Accumulator),
    );

    let flags = cpu.registers.flags();
    assert_eq!(cpu.registers.a, 0b10000000);
    assert!(flags.negative);
    assert!(!flags.zero);
    assert!(!flags.carry);
}

#[test]
fn test_and() {
    let mut cpu = CPU::new();
    cpu.registers.a = 0b11111111;

    execute_with_cpu(
        &mut cpu,
        Instruction::new(InstructionType::AND, AddressingMode::Immediate(0b10101010)),
    );

    let flags = cpu.registers.flags();
    assert_eq!(cpu.registers.a, 0b10101010);
    assert!(flags.negative);
    assert!(!flags.zero);
}

#[test]
fn test_ora() {
    let mut cpu = CPU::new();
    cpu.registers.a = 0b00000000;

    execute_with_cpu(
        &mut cpu,
        Instruction::new(InstructionType::ORA, AddressingMode::Immediate(0b10101010)),
    );

    let flags = cpu.registers.flags();
    assert_eq!(cpu.registers.a, 0b10101010);
    assert!(flags.negative);
    assert!(!flags.zero);
}

#[test]
fn test_eor() {
    let mut cpu = CPU::new();
    cpu.registers.a = 0b11111111;

    execute_with_cpu(
        &mut cpu,
        Instruction::new(InstructionType::EOR, AddressingMode::Immediate(0b01010101)),
    );

    let flags = cpu.registers.flags();
    assert_eq!(cpu.registers.a, 0b10101010);
    assert!(flags.negative);
    assert!(!flags.zero);
}

#[test]
fn test_cmp_equals() {
    let mut cpu = CPU::new();
    cpu.registers.a = 0x01;

    execute_with_cpu(
        &mut cpu,
        Instruction::new(InstructionType::CMP, AddressingMode::Immediate(0x01)),
    );

    let flags = cpu.registers.flags();
    assert!(!flags.negative);
    assert!(flags.zero);
    assert!(flags.carry);
}

#[test]
fn test_cmp_greater() {
    let mut cpu = CPU::new();
    cpu.registers.a = 0x01;

    execute_with_cpu(
        &mut cpu,
        Instruction::new(InstructionType::CMP, AddressingMode::Immediate(0x00)),
    );

    let flags = cpu.registers.flags();
    assert!(!flags.negative);
    assert!(!flags.zero);
    assert!(flags.carry);
}

#[test]
fn test_cmp_less() {
    let mut cpu = CPU::new();
    cpu.registers.a = 0x01;

    execute_with_cpu(
        &mut cpu,
        Instruction::new(InstructionType::CMP, AddressingMode::Immediate(0x02)),
    );

    let flags = cpu.registers.flags();
    assert!(flags.negative);
    assert!(!flags.zero);
    assert!(!flags.carry);
}

#[test]
fn test_cpx_equals() {
    let mut cpu = CPU::new();
    cpu.registers.x = 0x01;

    execute_with_cpu(
        &mut cpu,
        Instruction::new(InstructionType::CPX, AddressingMode::Immediate(0x01)),
    );

    let flags = cpu.registers.flags();
    assert!(!flags.negative);
    assert!(flags.zero);
    assert!(flags.carry);
}

#[test]
fn test_cpx_greater() {
    let mut cpu = CPU::new();
    cpu.registers.x = 0x01;

    execute_with_cpu(
        &mut cpu,
        Instruction::new(InstructionType::CPX, AddressingMode::Immediate(0x00)),
    );

    let flags = cpu.registers.flags();
    assert!(!flags.negative);
    assert!(!flags.zero);
    assert!(flags.carry);
}

#[test]
fn test_cpx_less() {
    let mut cpu = CPU::new();
    cpu.registers.x = 0x01;

    execute_with_cpu(
        &mut cpu,
        Instruction::new(InstructionType::CPX, AddressingMode::Immediate(0x02)),
    );

    let flags = cpu.registers.flags();
    assert!(flags.negative);
    assert!(!flags.zero);
    assert!(!flags.carry);
}

#[test]
fn test_cpy_equals() {
    let mut cpu = CPU::new();
    cpu.registers.y = 0x01;

    execute_with_cpu(
        &mut cpu,
        Instruction::new(InstructionType::CPY, AddressingMode::Immediate(0x01)),
    );

    let flags = cpu.registers.flags();
    assert!(!flags.negative);
    assert!(flags.zero);
    assert!(flags.carry);
}

#[test]
fn test_cpy_greater() {
    let mut cpu = CPU::new();
    cpu.registers.y = 0x01;

    execute_with_cpu(
        &mut cpu,
        Instruction::new(InstructionType::CPY, AddressingMode::Immediate(0x00)),
    );

    let flags = cpu.registers.flags();
    assert!(!flags.negative);
    assert!(!flags.zero);
    assert!(flags.carry);
}

#[test]
fn test_cpy_less() {
    let mut cpu = CPU::new();
    cpu.registers.y = 0x01;

    execute_with_cpu(
        &mut cpu,
        Instruction::new(InstructionType::CPY, AddressingMode::Immediate(0x02)),
    );

    let flags = cpu.registers.flags();
    assert!(flags.negative);
    assert!(!flags.zero);
    assert!(!flags.carry);
}

#[test]
fn test_bit_zero() {
    let mut cpu = CPU::new();
    cpu.registers.a = 0b11111111;
    let mut ppu = PPU::new();

    let mut mmu = MMU::new(&mut cpu, &mut ppu, None);
    mmu.write(0x0000, 0b00000000);
    InstructionExecutor::new(&mut mmu)
        .execute(Instruction::new(InstructionType::BIT, AddressingMode::ZeroPage(0x00)));

    let flags = cpu.registers.flags();
    assert!(!flags.negative);
    assert!(flags.zero);
    assert!(!flags.overflow);
}

#[test]
fn test_bit_negative_and_carry() {
    let mut cpu = CPU::new();
    cpu.registers.a = 0b11111111;
    let mut ppu = PPU::new();

    let mut mmu = MMU::new(&mut cpu, &mut ppu, None);
    mmu.write(0x0000, 0b11000000);
    InstructionExecutor::new(&mut mmu)
        .execute(Instruction::new(InstructionType::BIT, AddressingMode::ZeroPage(0x00)));

    let flags = cpu.registers.flags();
    assert!(flags.negative);
    assert!(!flags.zero);
    assert!(flags.overflow);
}

#[test]
fn test_bcc() {
    let mut cpu = CPU::new();

    execute_with_cpu(
        &mut cpu,
        Instruction::new(InstructionType::BCC, AddressingMode::Relative(2)),
    );

    assert_eq!(cpu.registers.pc, 0x02);
}

#[test]
fn test_bcs() {
    let mut cpu = CPU::new();
    cpu.registers.set_flags(Flags {
        carry: true,
        ..Default::default()
    });

    execute_with_cpu(
        &mut cpu,
        Instruction::new(InstructionType::BCS, AddressingMode::Relative(2)),
    );

    assert_eq!(cpu.registers.pc, 0x02);
}

#[test]
fn test_bne() {
    let mut cpu = CPU::new();

    execute_with_cpu(
        &mut cpu,
        Instruction::new(InstructionType::BNE, AddressingMode::Relative(2)),
    );

    assert_eq!(cpu.registers.pc, 0x02);
}

#[test]
fn test_beq() {
    let mut cpu = CPU::new();
    cpu.registers.set_flags(Flags {
        zero: true,
        ..Default::default()
    });

    execute_with_cpu(
        &mut cpu,
        Instruction::new(InstructionType::BEQ, AddressingMode::Relative(2)),
    );

    assert_eq!(cpu.registers.pc, 0x02);
}

#[test]
fn test_bpl() {
    let mut cpu = CPU::new();

    execute_with_cpu(
        &mut cpu,
        Instruction::new(InstructionType::BPL, AddressingMode::Relative(2)),
    );

    assert_eq!(cpu.registers.pc, 0x02);
}

#[test]
fn test_bmi() {
    let mut cpu = CPU::new();
    cpu.registers.set_flags(Flags {
        negative: true,
        ..Default::default()
    });

    execute_with_cpu(
        &mut cpu,
        Instruction::new(InstructionType::BMI, AddressingMode::Relative(2)),
    );

    assert_eq!(cpu.registers.pc, 0x02);
}

#[test]
fn test_bvc() {
    let mut cpu = CPU::new();

    execute_with_cpu(
        &mut cpu,
        Instruction::new(InstructionType::BVC, AddressingMode::Relative(2)),
    );

    assert_eq!(cpu.registers.pc, 0x02);
}

#[test]
fn test_bvs() {
    let mut cpu = CPU::new();
    cpu.registers.set_flags(Flags {
        overflow: true,
        ..Default::default()
    });

    execute_with_cpu(
        &mut cpu,
        Instruction::new(InstructionType::BVS, AddressingMode::Relative(2)),
    );

    assert_eq!(cpu.registers.pc, 0x02);
}

#[test]
fn test_tax() {
    let mut cpu = CPU::new();
    cpu.registers.a = 0x01;

    execute_with_cpu(
        &mut cpu,
        Instruction::new(InstructionType::TAX, AddressingMode::Implied),
    );

    let flags = cpu.registers.flags();
    assert_eq!(cpu.registers.x, cpu.registers.a);
    assert!(!flags.negative);
    assert!(!flags.zero);
}

#[test]
fn test_txa() {
    let mut cpu = CPU::new();
    cpu.registers.x = 0x01;

    execute_with_cpu(
        &mut cpu,
        Instruction::new(InstructionType::TXA, AddressingMode::Implied),
    );

    let flags = cpu.registers.flags();
    assert_eq!(cpu.registers.x, cpu.registers.a);
    assert!(!flags.negative);
    assert!(!flags.zero);
}

#[test]
fn test_tay() {
    let mut cpu = CPU::new();
    cpu.registers.a = 0x01;

    execute_with_cpu(
        &mut cpu,
        Instruction::new(InstructionType::TAY, AddressingMode::Implied),
    );

    let flags = cpu.registers.flags();
    assert_eq!(cpu.registers.y, cpu.registers.a);
    assert!(!flags.negative);
    assert!(!flags.zero);
}

#[test]
fn test_tya() {
    let mut cpu = CPU::new();
    cpu.registers.y = 0x01;

    execute_with_cpu(
        &mut cpu,
        Instruction::new(InstructionType::TYA, AddressingMode::Implied),
    );

    let flags = cpu.registers.flags();
    assert_eq!(cpu.registers.y, cpu.registers.a);
    assert!(!flags.negative);
    assert!(!flags.zero);
}

#[test]
fn test_tsx() {
    let mut cpu = CPU::new();
    cpu.registers.s = 0x01;

    execute_with_cpu(
        &mut cpu,
        Instruction::new(InstructionType::TSX, AddressingMode::Implied),
    );

    let flags = cpu.registers.flags();
    assert_eq!(cpu.registers.x, cpu.registers.s);
    assert!(!flags.negative);
    assert!(!flags.zero);
}

#[test]
fn test_txs() {
    let mut cpu = CPU::new();
    cpu.registers.x = 0x01;

    execute_with_cpu(
        &mut cpu,
        Instruction::new(InstructionType::TXS, AddressingMode::Implied),
    );

    let flags = cpu.registers.flags();
    assert_eq!(cpu.registers.x, cpu.registers.s);
    assert!(!flags.negative);
    assert!(!flags.zero);
}

#[test]
fn test_pha() {
    let mut cpu = CPU::new();
    cpu.registers.a = 0x01;
    cpu.registers.s = 0xFF;
    let mut ppu = PPU::new();

    let mut mmu = MMU::new(&mut cpu, &mut ppu, None);
    InstructionExecutor::new(&mut mmu).execute(Instruction::new(InstructionType::PHA, AddressingMode::Implied));

    assert_eq!(mmu.cpu().registers.s, 0xFE);
    assert_eq!(mmu.read(0x01FF), Some(cpu.registers.a));
}

#[test]
fn test_pla() {
    let mut cpu = CPU::new();
    cpu.registers.s = 0xFF;
    let mut ppu = PPU::new();

    Stack::new(&mut cpu).push(0x01);
    let mut mmu = MMU::new(&mut cpu, &mut ppu, None);
    InstructionExecutor::new(&mut mmu).execute(Instruction::new(InstructionType::PLA, AddressingMode::Implied));

    let flags = mmu.cpu().registers.flags();
    assert_eq!(mmu.cpu().registers.s, 0xFF);
    assert_eq!(mmu.read(0x01FF), Some(cpu.registers.a));
    assert!(!flags.zero);
    assert!(!flags.negative);
}

#[test]
fn test_php() {
    let mut cpu = CPU::new();
    cpu.registers.s = 0xFF;
    cpu.registers.p = 0x01;
    let mut ppu = PPU::new();

    let mut mmu = MMU::new(&mut cpu, &mut ppu, None);
    InstructionExecutor::new(&mut mmu).execute(Instruction::new(InstructionType::PHP, AddressingMode::Implied));

    assert_eq!(mmu.cpu().registers.s, 0xFE);
    assert_eq!(mmu.read(0x01FF), Some(cpu.registers.p));
}

#[test]
fn test_plp() {
    let mut cpu = CPU::new();
    cpu.registers.s = 0xFF;
    let mut ppu = PPU::new();

    Stack::new(&mut cpu).push(0x01);
    let mut mmu = MMU::new(&mut cpu, &mut ppu, None);
    InstructionExecutor::new(&mut mmu).execute(Instruction::new(InstructionType::PLP, AddressingMode::Implied));

    let flags = mmu.cpu().registers.flags();
    assert_eq!(mmu.cpu().registers.s, 0xFF);
    assert_eq!(mmu.read(0x01FF), Some(cpu.registers.p));
    assert!(!flags.zero);
    assert!(!flags.negative);
}

#[test]
fn test_jmp() {
    let mut cpu = CPU::new();

    execute_with_cpu(
        &mut cpu,
        Instruction::new(InstructionType::JMP, AddressingMode::Absolute(0x0600)),
    );

    assert_eq!(cpu.registers.pc, 0x0600);
}

#[test]
fn test_jsr() {
    let mut cpu = CPU::new();
    cpu.registers.pc = 0x0601;

    execute_with_cpu(
        &mut cpu,
        Instruction::new(InstructionType::JSR, AddressingMode::Absolute(0x1000)),
    );

    let mut stack = Stack::new(&mut cpu);
    assert_eq!(stack.pop(), 0x03);
    assert_eq!(stack.pop(), 0x06);
    assert_eq!(cpu.registers.pc, 0x1000);
}

#[test]
fn test_rts() {
    let mut cpu = CPU::new();

    let mut stack = Stack::new(&mut cpu);
    stack.push(0x06);
    stack.push(0x00);

    execute_with_cpu(
        &mut cpu,
        Instruction::new(InstructionType::RTS, AddressingMode::Implied),
    );

    assert_eq!(cpu.registers.pc, 0x0601);
}

#[test]
fn test_rti() {
    let mut cpu = CPU::new();

    let mut stack = Stack::new(&mut cpu);
    stack.push(0x06);
    stack.push(0x00);
    stack.push(0b00000011);
    execute_with_cpu(
        &mut cpu,
        Instruction::new(InstructionType::RTI, AddressingMode::Implied),
    );

    let flags = cpu.registers.flags();
    assert_eq!(cpu.registers.pc, 0x0600);
    assert!(flags.carry);
    assert!(flags.zero);
    assert!(!flags.interrupt_disable);
    assert!(!flags.decimal);
    assert!(!flags.overflow);
    assert!(!flags.negative);
}

#[test]
fn test_clc() {
    let mut cpu = CPU::new();

    cpu.registers.set_flags(Flags {
        carry: true,
        ..Default::default()
    });

    execute_with_cpu(
        &mut cpu,
        Instruction::new(InstructionType::CLC, AddressingMode::Implied),
    );

    assert!(!cpu.registers.flags().carry);
}

#[test]
fn test_sec() {
    let mut cpu = CPU::new();

    execute_with_cpu(
        &mut cpu,
        Instruction::new(InstructionType::SEC, AddressingMode::Implied),
    );

    assert!(cpu.registers.flags().carry);
}

#[test]
fn test_cld() {
    let mut cpu = CPU::new();

    cpu.registers.set_flags(Flags {
        decimal: true,
        ..Default::default()
    });

    execute_with_cpu(
        &mut cpu,
        Instruction::new(InstructionType::CLD, AddressingMode::Implied),
    );

    assert!(!cpu.registers.flags().decimal);
}

#[test]
fn test_sed() {
    let mut cpu = CPU::new();

    execute_with_cpu(
        &mut cpu,
        Instruction::new(InstructionType::SED, AddressingMode::Implied),
    );

    assert!(cpu.registers.flags().decimal);
}

#[test]
fn test_cli() {
    let mut cpu = CPU::new();
    cpu.registers.set_flags(Flags {
        interrupt_disable: true,
        ..Default::default()
    });

    execute_with_cpu(
        &mut cpu,
        Instruction::new(InstructionType::CLI, AddressingMode::Implied),
    );

    assert!(!cpu.registers.flags().interrupt_disable);
}

#[test]
fn test_sei() {
    let mut cpu = CPU::new();

    execute_with_cpu(
        &mut cpu,
        Instruction::new(InstructionType::SEI, AddressingMode::Implied),
    );

    assert!(cpu.registers.flags().interrupt_disable);
}

#[test]
fn test_clv() {
    let mut cpu = CPU::new();
    cpu.registers.set_flags(Flags {
        overflow: true,
        ..Default::default()
    });

    execute_with_cpu(
        &mut cpu,
        Instruction::new(InstructionType::CLV, AddressingMode::Implied),
    );

    assert!(!cpu.registers.flags().overflow);
}

#[test]
fn test_brk() {
    let mut cpu = CPU::new();
    cpu.registers.pc = 0x0600;
    cpu.registers.set_flags(Flags {
        carry: true,
        ..Default::default()
    });

    execute_with_cpu(
        &mut cpu,
        Instruction::new(InstructionType::BRK, AddressingMode::Implied),
    );

    let mut stack = Stack::new(&mut cpu);
    assert_eq!(
        stack.pop(),
        Flags {
            carry: true,
            ..Default::default()
        }
        .into()
    );
    assert_eq!(stack.pop(), 0x00);
    assert_eq!(stack.pop(), 0x06);
    let flags = cpu.registers.flags();
    assert!(flags.break_command);
}

#[test]
fn test_lda_absolute_from_machine_node() {
    let lda = Instruction::from_machine_code(&[0xAD, 0x10, 0xD0]).unwrap();
    assert_eq!(
        lda,
        Some(Instruction::new(InstructionType::LDA, AddressingMode::Absolute(0xD010)))
    );
}

#[test]
fn test_lda_absolute_x_from_machine_node() {
    let lda = Instruction::from_machine_code(&[0xBD, 0x10, 0xD0]).unwrap();
    assert_eq!(
        lda,
        Some(Instruction::new(
            InstructionType::LDA,
            AddressingMode::AbsoluteX(0xD010)
        ))
    );
}

#[test]
fn test_lda_absolute_y_from_machine_node() {
    let lda = Instruction::from_machine_code(&[0xB9, 0x10, 0xD0]).unwrap();
    assert_eq!(
        lda,
        Some(Instruction::new(
            InstructionType::LDA,
            AddressingMode::AbsoluteY(0xD010)
        ))
    );
}

#[test]
fn test_lda_immediate_from_machine_node() {
    let lda = Instruction::from_machine_code(&[0xA9, 0xD0]).unwrap();
    assert_eq!(
        lda,
        Some(Instruction::new(InstructionType::LDA, AddressingMode::Immediate(0xD0)))
    );
}

#[test]
fn test_lda_zero_page_from_machine_node() {
    let lda = Instruction::from_machine_code(&[0xA5, 0xD0]).unwrap();
    assert_eq!(
        lda,
        Some(Instruction::new(InstructionType::LDA, AddressingMode::ZeroPage(0xD0)))
    );
}

#[test]
fn test_lda_indexed_indirect_from_machine_node() {
    let lda = Instruction::from_machine_code(&[0xA1, 0xD0]).unwrap();
    assert_eq!(
        lda,
        Some(Instruction::new(
            InstructionType::LDA,
            AddressingMode::IndexedIndirect(0xD0)
        ))
    );
}

#[test]
fn test_lda_zero_page_x_from_machine_node() {
    let lda = Instruction::from_machine_code(&[0xB5, 0xD0]).unwrap();
    assert_eq!(
        lda,
        Some(Instruction::new(InstructionType::LDA, AddressingMode::ZeroPageX(0xD0)))
    );
}

#[test]
fn test_lda_indirect_indexed_from_machine_node() {
    let lda = Instruction::from_machine_code(&[0xB1, 0xD0]).unwrap();
    assert_eq!(
        lda,
        Some(Instruction::new(
            InstructionType::LDA,
            AddressingMode::IndirectIndexed(0xD0)
        ))
    );
}

#[test]
fn test_invalid_machine_code() {
    let error = Instruction::from_machine_code(&[0xFF]).unwrap_err();
    assert_eq!(error, InvalidOpCode::new(0xFF));
}

#[test]
fn test_empty_machine_code() {
    let empty = Instruction::from_machine_code(&[]).unwrap();
    assert_eq!(empty, None);
}

