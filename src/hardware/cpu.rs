use vstd::prelude::*;

use super::memory::{le_u16, Memory, MemoryMapper};
use super::ppu::{Registers as PpuRegisters, PPU};
use crate::error::ExecutionError;

verus! {

pub const INTERNAL_MEMORY_SIZE: usize = 2048;

/// The packed status byte: carry, zero, interrupt disable, decimal and break
/// in bits 0 to 4, overflow and negative in bits 6 and 7.
#[derive(Debug, Copy, Clone, Default, PartialEq, Eq, Structural)]
pub struct Flags {
    pub carry: bool,
    pub zero: bool,
    pub interrupt_disable: bool,
    pub decimal: bool,
    pub break_command: bool,
    pub overflow: bool,
    pub negative: bool,
}

pub open spec fn bit_if(set: bool, mask: u8) -> u8 {
    if set {
        mask
    } else {
        0
    }
}

/// The flags that a status byte holds.
#[verifier::opaque]
pub open spec fn flags_of(value: u8) -> Flags {
    Flags {
        carry: value & 0x01 != 0,
        zero: value & 0x02 != 0,
        interrupt_disable: value & 0x04 != 0,
        decimal: value & 0x08 != 0,
        break_command: value & 0x10 != 0,
        overflow: value & 0x40 != 0,
        negative: value & 0x80 != 0,
    }
}

/// The status byte of a set of flags; bit 5 is clear.
#[verifier::opaque]
pub open spec fn byte_of(flags: Flags) -> u8 {
    bit_if(flags.carry, 0x01) | bit_if(flags.zero, 0x02) | bit_if(flags.interrupt_disable, 0x04)
        | bit_if(flags.decimal, 0x08) | bit_if(flags.break_command, 0x10) | bit_if(
        flags.overflow,
        0x40,
    ) | bit_if(flags.negative, 0x80)
}

impl From<u8> for Flags {
    fn from(value: u8) -> (r: Self)
        ensures
            r == flags_of(value),
    {
        reveal(flags_of);
        Self {
            carry: (value & 0x01) != 0,
            zero: (value & 0x02) != 0,
            interrupt_disable: (value & 0x04) != 0,
            decimal: (value & 0x08) != 0,
            break_command: (value & 0x10) != 0,
            overflow: (value & 0x40) != 0,
            negative: (value & 0x80) != 0,
        }
    }
}

impl vstd::std_specs::convert::FromSpecImpl<u8> for Flags {
    open spec fn obeys_from_spec() -> bool {
        true
    }

    open spec fn from_spec(value: u8) -> Flags {
        flags_of(value)
    }
}

impl From<Flags> for u8 {
    fn from(flags: Flags) -> (r: u8)
        ensures
            r == byte_of(flags),
    {
        reveal(byte_of);
        (if flags.carry { 0x01u8 } else { 0 }) | (if flags.zero { 0x02u8 } else { 0 }) | (
        if flags.interrupt_disable {
            0x04u8
        } else {
            0
        }) | (if flags.decimal { 0x08u8 } else { 0 }) | (if flags.break_command {
            0x10u8
        } else {
            0
        }) | (if flags.overflow { 0x40u8 } else { 0 }) | (if flags.negative { 0x80u8 } else { 0 })
    }
}

impl vstd::std_specs::convert::FromSpecImpl<Flags> for u8 {
    open spec fn obeys_from_spec() -> bool {
        true
    }

    open spec fn from_spec(flags: Flags) -> u8 {
        byte_of(flags)
    }
}

/// Reading a status byte into flags and packing them again keeps every bit
/// but the unused bit 5, which comes back clear.
pub proof fn lemma_flags_byte_round_trip(value: u8)
    ensures
        byte_of(flags_of(value)) == value & 0xDF,
{
    reveal(flags_of);
    reveal(byte_of);
    let f = flags_of(value);
    assert(bit_if(value & 0x01 != 0, 0x01) | bit_if(value & 0x02 != 0, 0x02) | bit_if(
        value & 0x04 != 0,
        0x04,
    ) | bit_if(value & 0x08 != 0, 0x08) | bit_if(value & 0x10 != 0, 0x10) | bit_if(
        value & 0x40 != 0,
        0x40,
    ) | bit_if(value & 0x80 != 0, 0x80) == value & 0xDF) by (bit_vector);
}

/// A status byte with the unused bit 5 clear survives the trip through
/// flags unchanged.
pub proof fn lemma_flags_round_trip(value: u8)
    requires
        value & 0x20 == 0,
    ensures
        byte_of(flags_of(value)) == value,
{
    lemma_flags_byte_round_trip(value);
    assert(value & 0x20 == 0 ==> value & 0xDF == value) by (bit_vector);
}

/// Packing flags into a byte and reading them back gives the same flags.
pub proof fn lemma_byte_flags_round_trip(flags: Flags)
    ensures
        flags_of(byte_of(flags)) == flags,
{
    reveal(flags_of);
    reveal(byte_of);
    let (c, z, i, d, b, v, n) = (
        flags.carry,
        flags.zero,
        flags.interrupt_disable,
        flags.decimal,
        flags.break_command,
        flags.overflow,
        flags.negative,
    );
    let x = byte_of(flags);
    assert((x & 0x01 != 0) == c && (x & 0x02 != 0) == z && (x & 0x04 != 0) == i && (x & 0x08 != 0)
        == d && (x & 0x10 != 0) == b && (x & 0x40 != 0) == v && (x & 0x80 != 0) == n)
        by (bit_vector)
        requires
            x == bit_if(c, 0x01) | bit_if(z, 0x02) | bit_if(i, 0x04) | bit_if(d, 0x08) | bit_if(
                b,
                0x10,
            ) | bit_if(v, 0x40) | bit_if(n, 0x80),
    ;
}


/// The register file.
#[derive(Debug, Copy, Clone, PartialEq, Eq, Structural)]
pub struct Registers {
    pub a: u8,
    pub x: u8,
    pub y: u8,
    pub p: u8,
    pub s: u8,
    pub pc: u16,
}

impl Default for Registers {
    /// All registers zero but the stack pointer, which starts at the top of
    /// the stack page.
    fn default() -> (r: Self)
        ensures
            r == (Registers { a: 0, x: 0, y: 0, p: 0, s: 0xFF, pc: 0 }),
    {
        Registers { a: 0, x: 0, y: 0, p: 0, s: 0xFF, pc: 0 }
    }
}

impl Registers {
    pub fn flags(&self) -> (r: Flags)
        ensures
            r == flags_of(self.p),
    {
        Flags::from(self.p)
    }

    pub fn set_flags(&mut self, flags: Flags)
        ensures
            *final(self) == (Registers { p: byte_of(flags), ..*old(self) }),
    {
        self.p = u8::from(flags);
    }
}

/// The registers with the status byte replaced by one packed from `flags`.
pub open spec fn with_flags(registers: Registers, flags: Flags) -> Registers {
    Registers { p: byte_of(flags), ..registers }
}

/// What the processor holds: its registers and its internal RAM.
pub struct CpuState {
    pub registers: Registers,
    pub ram: Seq<u8>,
}

#[derive(Copy, Clone)]
pub struct CPU {
    pub registers: Registers,
    pub internal_memory: [u8; INTERNAL_MEMORY_SIZE],
}

impl View for CPU {
    type V = CpuState;

    open spec fn view(&self) -> CpuState {
        CpuState { registers: self.registers, ram: self.internal_memory@ }
    }
}

impl CPU {
    /// Registers at their defaults and RAM cleared.
    pub fn new() -> (r: Self)
        ensures
            r.registers == (Registers { a: 0, x: 0, y: 0, p: 0, s: 0xFF, pc: 0 }),
            r@.ram == Seq::new(INTERNAL_MEMORY_SIZE as nat, |i: int| 0u8),
    {
        let r = Self {
            registers: Registers::default(),
            internal_memory: [0; INTERNAL_MEMORY_SIZE],
        };
        assert(r@.ram =~= Seq::new(INTERNAL_MEMORY_SIZE as nat, |i: int| 0u8));
        r
    }

    /// The state after power-up; the program counter is loaded afterwards
    /// from the reset vector.
    pub fn with_power_up_state() -> (r: Self)
        ensures
            r.registers == (Registers { a: 0, x: 0, y: 0, p: 0x34, s: 0xFD, pc: 0 }),
            r@.ram == Seq::new(INTERNAL_MEMORY_SIZE as nat, |i: int| 0u8),
    {
        let r = Self {
            registers: Registers { a: 0x00, x: 0x00, y: 0x00, p: 0x34, s: 0xFD, pc: 0x0000 },
            internal_memory: [0; INTERNAL_MEMORY_SIZE],
        };
        assert(r@.ram =~= Seq::new(INTERNAL_MEMORY_SIZE as nat, |i: int| 0u8));
        r
    }
}

/// How an instruction finds its operand.
#[derive(Debug, Clone, Copy, PartialEq, Eq, Structural)]
pub enum AddressingMode {
    Implied,
    Accumulator,
    Immediate(u8),
    ZeroPage(u8),
    ZeroPageX(u8),
    ZeroPageY(u8),
    Relative(i8),
    Absolute(u16),
    AbsoluteX(u16),
    AbsoluteY(u16),
    Indirect(u16),
    IndexedIndirect(u8),
    IndirectIndexed(u8),
}

impl AddressingMode {
    /// The operand bytes that follow the opcode in machine code.
    pub open spec fn operand_bytes(self) -> Seq<u8> {
        match self {
            AddressingMode::Implied | AddressingMode::Accumulator => seq![],
            AddressingMode::Immediate(v)
            | AddressingMode::ZeroPage(v)
            | AddressingMode::ZeroPageX(v)
            | AddressingMode::ZeroPageY(v)
            | AddressingMode::IndexedIndirect(v)
            | AddressingMode::IndirectIndexed(v) => seq![v],
            AddressingMode::Relative(o) => seq![o as u8],
            AddressingMode::Absolute(a)
            | AddressingMode::AbsoluteX(a)
            | AddressingMode::AbsoluteY(a)
            | AddressingMode::Indirect(a) => seq![(a % 256) as u8, (a / 256) as u8],
        }
    }

    /// The length of an instruction in this mode: the opcode and its operand
    /// bytes.
    pub fn byte_length(&self) -> (r: u32)
        ensures
            r == 1 + self.operand_bytes().len(),
    {
        match self {
            AddressingMode::Implied => 1,
            AddressingMode::Accumulator => 1,
            AddressingMode::Immediate(_) => 2,
            AddressingMode::ZeroPage(_) => 2,
            AddressingMode::ZeroPageX(_) => 2,
            AddressingMode::ZeroPageY(_) => 2,
            AddressingMode::Relative(_) => 2,
            AddressingMode::Absolute(_) => 3,
            AddressingMode::AbsoluteX(_) => 3,
            AddressingMode::AbsoluteY(_) => 3,
            AddressingMode::Indirect(_) => 3,
            AddressingMode::IndexedIndirect(_) => 2,
            AddressingMode::IndirectIndexed(_) => 2,
        }
    }
}

#[derive(Debug, Copy, Clone, Eq, PartialEq, Structural)]
pub enum Sign {
    Positive,
    Negative,
}

pub open spec fn is_negative(value: u8) -> bool {
    value >= 0x80
}

impl From<u8> for Sign {
    fn from(value: u8) -> (r: Self)
        ensures
            r == (if is_negative(value) { Sign::Negative } else { Sign::Positive }),
    {
        assert((value & 0x80) == 0 <==> value < 0x80) by (bit_vector);
        if (value & 0x80) == 0 {
            Sign::Positive
        } else {
            Sign::Negative
        }
    }
}

impl vstd::std_specs::convert::FromSpecImpl<u8> for Sign {
    open spec fn obeys_from_spec() -> bool {
        true
    }

    open spec fn from_spec(value: u8) -> Sign {
        if is_negative(value) {
            Sign::Negative
        } else {
            Sign::Positive
        }
    }
}

/// The PPU register that slot `slot` (the address modulo 8) of
/// `0x2000..=0x3FFF` shows.
pub open spec fn ppu_register(registers: PpuRegisters, slot: int) -> u8 {
    if slot == 0 {
        registers.ppuctrl
    } else if slot == 1 {
        registers.ppumask
    } else if slot == 2 {
        registers.ppustatus
    } else if slot == 3 {
        registers.oamaddr
    } else if slot == 4 {
        registers.oamdata
    } else if slot == 5 {
        registers.ppuscroll
    } else if slot == 6 {
        registers.ppudata
    } else {
        registers.oamdma
    }
}

/// The PPU registers after a write to slot `slot`.
pub open spec fn with_ppu_register(registers: PpuRegisters, slot: int, value: u8) -> PpuRegisters {
    if slot == 0 {
        PpuRegisters { ppuctrl: value, ..registers }
    } else if slot == 1 {
        PpuRegisters { ppumask: value, ..registers }
    } else if slot == 2 {
        PpuRegisters { ppustatus: value, ..registers }
    } else if slot == 3 {
        PpuRegisters { oamaddr: value, ..registers }
    } else if slot == 4 {
        PpuRegisters { oamdata: value, ..registers }
    } else if slot == 5 {
        PpuRegisters { ppuscroll: value, ..registers }
    } else if slot == 6 {
        PpuRegisters { ppudata: value, ..registers }
    } else {
        PpuRegisters { oamdma: value, ..registers }
    }
}

/// What the processor reads at `address`: RAM mirrored every 2 KiB below
/// `0x2000`, the PPU registers mirrored every 8 bytes below `0x4000`,
/// nothing for the APU and I/O registers, and the cartridge above.
pub open spec fn bus_read<'b>(
    cpu: CpuState,
    ppu: PpuRegisters,
    mapper: Option<&MemoryMapper<'b>>,
    address: u16,
) -> Option<u8> {
    if address <= 0x1FFF {
        Some(cpu.ram[address as int % 2048])
    } else if address <= 0x3FFF {
        Some(ppu_register(ppu, address as int % 8))
    } else if address <= 0x401F {
        None
    } else {
        match mapper {
            Some(m) => m.spec_read(address),
            None => None,
        }
    }
}

/// The state after the processor writes `value` at `address`; writes above
/// the PPU registers change nothing.
pub open spec fn bus_write(cpu: CpuState, ppu: PpuRegisters, address: u16, value: u8) -> (
    CpuState,
    PpuRegisters,
) {
    if address <= 0x1FFF {
        (CpuState { ram: cpu.ram.update(address as int % 2048, value), ..cpu }, ppu)
    } else if address <= 0x3FFF {
        (cpu, with_ppu_register(ppu, address as int % 8, value))
    } else {
        (cpu, ppu)
    }
}

/// The effective address of a mode, where it has one. The indirect modes
/// read their pointer from the zero page.
pub open spec fn effective_address(cpu: CpuState, mode: AddressingMode) -> Option<u16> {
    let x = cpu.registers.x;
    let y = cpu.registers.y;
    match mode {
        AddressingMode::ZeroPage(a) => Some(a as u16),
        AddressingMode::ZeroPageX(a) => Some(((a + x) % 256) as u16),
        AddressingMode::ZeroPageY(a) => Some(((a + y) % 256) as u16),
        AddressingMode::Absolute(a) => Some(a),
        AddressingMode::AbsoluteX(a) => Some(((a + x) % 65536) as u16),
        AddressingMode::AbsoluteY(a) => Some(((a + y) % 65536) as u16),
        AddressingMode::IndexedIndirect(a) => {
            let p = (a + x) % 256;
            Some(le_u16(cpu.ram[p], cpu.ram[p + 1]))
        },
        AddressingMode::IndirectIndexed(a) => Some(
            ((le_u16(cpu.ram[a as int], cpu.ram[a + 1]) + y) % 65536) as u16,
        ),
        _ => None,
    }
}

/// The operand byte of a mode: the accumulator, the immediate byte, or
/// what the bus holds at the effective address.
#[verifier::opaque]
pub open spec fn operand<'b>(
    cpu: CpuState,
    ppu: PpuRegisters,
    mapper: Option<&MemoryMapper<'b>>,
    mode: AddressingMode,
) -> Result<u8, ExecutionError> {
    match mode {
        AddressingMode::Accumulator => Ok(cpu.registers.a),
        AddressingMode::Immediate(v) => Ok(v),
        _ => match effective_address(cpu, mode) {
            Some(address) => match bus_read(cpu, ppu, mapper, address) {
                Some(v) => Ok(v),
                None => Err(ExecutionError::UnmappedRead(address)),
            },
            None => Err(ExecutionError::InvalidAddressingMode),
        },
    }
}

/// The state after storing `value` where a mode points: the accumulator or
/// the effective address.
pub open spec fn store_operand(
    cpu: CpuState,
    ppu: PpuRegisters,
    mode: AddressingMode,
    value: u8,
) -> Result<(CpuState, PpuRegisters), ExecutionError> {
    match mode {
        AddressingMode::Accumulator => Ok(
            (CpuState { registers: Registers { a: value, ..cpu.registers }, ..cpu }, ppu),
        ),
        _ => match effective_address(cpu, mode) {
            Some(address) => Ok(bus_write(cpu, ppu, address, value)),
            None => Err(ExecutionError::InvalidAddressingMode),
        },
    }
}

/// A byte written anywhere in `0x0000..=0x1FFF` reads back at the mirror
/// 2 KiB away.
pub proof fn lemma_ram_mirroring<'b>(
    cpu: CpuState,
    ppu: PpuRegisters,
    mapper: Option<&MemoryMapper<'b>>,
    address: u16,
    value: u8,
)
    requires
        cpu.ram.len() == INTERNAL_MEMORY_SIZE,
        address <= 0x1FFF,
    ensures
        ({
            let (c, p) = bus_write(cpu, ppu, address, value);
            bus_read(c, p, mapper, address ^ 0x0800) == Some(value)
        }),
{
    assert((address ^ 0x0800) <= 0x1FFF && (address ^ 0x0800) % 2048 == address % 2048)
        by (bit_vector)
        requires
            address <= 0x1FFF,
    ;
}

/// The processor's bus: a short-lived view of the processor, the PPU and
/// the cartridge mapper.
pub struct MMU<'a, 'b> {
    pub cpu: &'a mut CPU,
    pub ppu: &'a mut PPU,
    pub mapper: Option<&'a MemoryMapper<'b>>,
}

impl<'a, 'b> MMU<'a, 'b> {
    /// The processor state that the bus currently shows.
    pub open spec fn cpu_state(&self) -> CpuState {
        (*self.cpu)@
    }

    /// The PPU registers that the bus currently shows.
    pub open spec fn ppu_registers(&self) -> PpuRegisters {
        self.ppu.registers
    }

    pub fn new(
        cpu: &'a mut CPU,
        ppu: &'a mut PPU,
        mapper: Option<&'a MemoryMapper<'b>>,
    ) -> (r: Self)
        ensures
            *r.cpu == *old(cpu),
            *r.ppu == *old(ppu),
            r.mapper == mapper,
            *final(cpu) == *final(r.cpu),
            *final(ppu) == *final(r.ppu),
    {
        Self { cpu, ppu, mapper }
    }

    pub fn cpu(&self) -> (r: &CPU)
        ensures
            r@ == self.cpu_state(),
    {
        self.cpu
    }

    pub fn cpu_mut(&mut self) -> (r: &mut CPU)
        ensures
            *r == *old(self).cpu,
            *final(self).cpu == *final(r),
            *final(final(self).cpu) == *final(old(self).cpu),
            *final(self).ppu == *old(self).ppu,
            *final(final(self).ppu) == *final(old(self).ppu),
            final(self).mapper == old(self).mapper,
    {
        self.cpu
    }

    pub fn read_by_mode(&self, addressing_mode: AddressingMode) -> (r: Option<u8>)
        ensures
            r == operand(self.cpu_state(), self.ppu_registers(), self.mapper, addressing_mode).ok(),
    {
        reveal(operand);
        match addressing_mode {
            AddressingMode::Accumulator => Some(self.cpu.registers.a),
            AddressingMode::Immediate(value) => Some(value),
            mode => match self.address_by_mode(mode) {
                Some(address) => self.read(address),
                None => None,
            },
        }
    }

    /// Stores `value` in the accumulator or at the effective address; a
    /// mode with neither is refused and nothing changes.
    pub fn write_8_bit_value_by_mode(&mut self, addressing_mode: AddressingMode, value: u8) -> (r:
        Result<(), ExecutionError>)
        ensures
            match store_operand(
                (*old(self).cpu)@,
                old(self).ppu.registers,
                addressing_mode,
                value,
            ) {
                Ok((cpu, ppu)) => {
                    &&& r is Ok
                    &&& (*final(self).cpu)@ == cpu
                    &&& *final(self).ppu == (PPU { registers: ppu, ..*old(self).ppu })
                },
                Err(e) => {
                    &&& r == Err::<(), ExecutionError>(e)
                    &&& *final(self).cpu == *old(self).cpu
                    &&& *final(self).ppu == *old(self).ppu
                },
            },
            *final(final(self).cpu) == *final(old(self).cpu),
            *final(final(self).ppu) == *final(old(self).ppu),
            final(self).mapper == old(self).mapper,
    {
        match addressing_mode {
            AddressingMode::Accumulator => {
                self.cpu.registers.a = value;
                Ok(())
            },
            mode => match self.address_by_mode(mode) {
                Some(address) => {
                    self.write(address, value);
                    Ok(())
                },
                None => Err(ExecutionError::InvalidAddressingMode),
            },
        }
    }

    pub fn address_by_mode(&self, addressing_mode: AddressingMode) -> (r: Option<u16>)
        ensures
            r == effective_address(self.cpu_state(), addressing_mode),
    {
        let x = self.cpu.registers.x;
        let y = self.cpu.registers.y;
        match addressing_mode {
            AddressingMode::ZeroPage(address) => Some(address as u16),
            AddressingMode::ZeroPageX(address) => Some(address.wrapping_add(x) as u16),
            AddressingMode::ZeroPageY(address) => Some(address.wrapping_add(y) as u16),
            AddressingMode::Absolute(address) => Some(address),
            AddressingMode::AbsoluteX(address) => Some(address.wrapping_add(x as u16)),
            AddressingMode::AbsoluteY(address) => Some(address.wrapping_add(y as u16)),
            AddressingMode::IndexedIndirect(address) => self.read_16_bit_value(
                address.wrapping_add(x) as u16,
            ),
            AddressingMode::IndirectIndexed(address) => match self.read_16_bit_value(
                address as u16,
            ) {
                Some(value) => Some(value.wrapping_add(y as u16)),
                None => None,
            },
            _ => None,
        }
    }

    pub fn write(&mut self, address: u16, value: u8)
        ensures
            ((*final(self).cpu)@, final(self).ppu.registers) == bus_write(
                (*old(self).cpu)@,
                old(self).ppu.registers,
                address,
                value,
            ),
            *final(self).ppu == (PPU { registers: final(self).ppu.registers, ..*old(self).ppu }),
            *final(final(self).cpu) == *final(old(self).cpu),
            *final(final(self).ppu) == *final(old(self).ppu),
            final(self).mapper == old(self).mapper,
    {
        if address <= 0x1FFF {
            let index = address as usize % INTERNAL_MEMORY_SIZE;
            self.cpu.internal_memory[index] = value;
            assert((*self.cpu)@.ram =~= (*old(self).cpu)@.ram.update(address as int % 2048, value));
        } else if address <= 0x3FFF {
            let registers = &mut self.ppu.registers;
            match address % 8 {
                0 => registers.ppuctrl = value,
                1 => registers.ppumask = value,
                2 => registers.ppustatus = value,
                3 => registers.oamaddr = value,
                4 => registers.oamdata = value,
                5 => registers.ppuscroll = value,
                6 => registers.ppudata = value,
                _ => registers.oamdma = value,
            }
        }
    }
}

impl<'a, 'b> Memory for MMU<'a, 'b> {
    open spec fn spec_read(&self, address: u16) -> Option<u8> {
        bus_read((*self.cpu)@, self.ppu.registers, self.mapper, address)
    }

    fn read(&self, address: u16) -> (r: Option<u8>) {
        if address <= 0x1FFF {
            Some(self.cpu.internal_memory[address as usize % INTERNAL_MEMORY_SIZE])
        } else if address <= 0x3FFF {
            let registers = &self.ppu.registers;
            Some(
                match address % 8 {
                    0 => registers.ppuctrl,
                    1 => registers.ppumask,
                    2 => registers.ppustatus,
                    3 => registers.oamaddr,
                    4 => registers.oamdata,
                    5 => registers.ppuscroll,
                    6 => registers.ppudata,
                    _ => registers.oamdma,
                },
            )
        } else if address <= 0x401F {
            None
        } else {
            match self.mapper {
                Some(mapper) => mapper.read(address),
                None => None,
            }
        }
    }
}

} // verus!
