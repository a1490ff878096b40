use vstd::prelude::*;

use crate::error::{ExecutionError, InvalidOpCode};
use crate::hardware::cpu::{CpuState, CPU, MMU as CpuBus};
use crate::hardware::memory::{le_u16, Memory, MemoryMapper};
use crate::hardware::ppu::{
    next_clock, state_at, status_byte_of, status_flags_of, tile_pixel, NameTable, NameTables,
    PatternTables, State, StatusFlags, Tile, INTERNAL_MEMORY_SIZE, MMU as PpuBus, NAME_TABLE_SIZE,
    PATTERN_TABLE_SECTION_SIZE, PPU,
};
use crate::instruction::{
    decode, execute_spec, with_registers, wrap16, Instruction, InstructionExecutor,
};

verus! {

/// Why the processor stopped.
#[derive(Debug, Copy, Clone, PartialEq, Eq, Structural)]
pub enum Halt {
    /// The program counter points outside the cartridge, or at its end.
    OutOfCode,
    /// The bytes at the program counter start no instruction.
    InvalidOpCode(InvalidOpCode),
    /// The instruction could not be carried out.
    Execution(ExecutionError),
}

/// The processor state after an instruction ran: operations other than
/// jumps, calls, returns and breaks move the program counter past it.
pub open spec fn advance(cpu: CpuState, instruction: Instruction) -> CpuState {
    if instruction.instruction_type.is_control_flow() {
        cpu
    } else {
        with_registers(
            cpu,
            crate::hardware::cpu::Registers {
                pc: wrap16(
                    cpu.registers.pc + 1 + instruction.addressing_mode.operand_bytes().len(),
                ),
                ..cpu.registers
            },
        )
    }
}

/// What one instruction step does to the processor and the PPU, or why it
/// stops.
pub open spec fn step_spec<'m>(cpu: CpuState, ppu: PPU, mapper: &MemoryMapper<'m>) -> Result<
    (CpuState, PPU, Instruction),
    Halt,
> {
    match mapper.spec_slice_from(cpu.registers.pc) {
        None => Err(Halt::OutOfCode),
        Some(code) => match decode(code) {
            Ok(None) => Err(Halt::OutOfCode),
            Err(e) => Err(Halt::InvalidOpCode(e)),
            Ok(Some(instruction)) => match execute_spec(
                cpu,
                ppu.registers,
                Some(mapper),
                instruction,
            ) {
                Ok((after, registers)) => Ok(
                    (advance(after, instruction), PPU { registers, ..ppu }, instruction),
                ),
                Err(e) => Err(Halt::Execution(e)),
            },
        },
    }
}

/// The processor at power-up, its program counter loaded from the reset
/// vector at `0xFFFC`; `None` when the cartridge does not map the vector.
pub fn power_up(mapper: &MemoryMapper) -> (r: Option<CPU>)
    ensures
        match (mapper.spec_read(0xFFFC), mapper.spec_read(0xFFFD)) {
            (Some(low), Some(high)) => r matches Some(cpu) && cpu.registers == (
            crate::hardware::cpu::Registers {
                a: 0,
                x: 0,
                y: 0,
                p: 0x34,
                s: 0xFD,
                pc: le_u16(low, high),
            }) && cpu.internal_memory@ == Seq::new(2048, |i: int| 0u8),
            _ => r is None,
        },
{
    let low = match mapper.read(0xFFFC) {
        Some(low) => low,
        None => return None,
    };
    let high = match mapper.read(0xFFFD) {
        Some(high) => high,
        None => return None,
    };
    let mut cpu = CPU::with_power_up_state();
    cpu.registers.pc = low as u16 + 256 * high as u16;
    Some(cpu)
}

/// Fetches the instruction at the program counter from the cartridge,
/// decodes it, runs it and moves the program counter past it unless the
/// instruction set it. When it stops, nothing changed.
pub fn run_instruction(cpu: &mut CPU, ppu: &mut PPU, mapper: &MemoryMapper) -> (r: Result<
    Instruction,
    Halt,
>)
    ensures
        match step_spec(old(cpu)@, *old(ppu), mapper) {
            Ok((c, p, instruction)) => r == Ok::<Instruction, Halt>(instruction) && final(cpu)@ == c
                && *final(ppu) == p,
            Err(e) => r == Err::<Instruction, Halt>(e) && final(cpu)@ == old(cpu)@ && *final(ppu)
                == *old(ppu),
        },
{
    let code = match mapper.slice_from(cpu.registers.pc) {
        Some(code) => code,
        None => return Err(Halt::OutOfCode),
    };
    let instruction = match Instruction::from_machine_code(code) {
        Ok(Some(instruction)) => instruction,
        Ok(None) => return Err(Halt::OutOfCode),
        Err(e) => return Err(Halt::InvalidOpCode(e)),
    };
    let result = {
        let mut bus = CpuBus::new(cpu, ppu, Some(mapper));
        let mut executor = InstructionExecutor::new(&mut bus);
        executor.execute(instruction)
    };
    match result {
        Ok(()) => {},
        Err(e) => return Err(Halt::Execution(e)),
    }
    if instruction.instruction_type.increments_pc() {
        cpu.registers.pc = cpu.registers.pc.wrapping_add(
            instruction.addressing_mode.byte_length() as u16,
        );
    }
    Ok(instruction)
}

/// The PPU after one clock step: the clock moves on, and the vertical
/// blank flag follows the event of the new position.
pub open spec fn tick_spec(ppu: PPU) -> PPU {
    let clock = next_clock(ppu.clock);
    let registers = match state_at(clock) {
        Some(State::VBlankToggle(on)) => crate::hardware::ppu::Registers {
            ppustatus: status_byte_of(
                StatusFlags { vblank: on, ..status_flags_of(ppu.registers.ppustatus) },
            ),
            ..ppu.registers
        },
        _ => ppu.registers,
    };
    PPU { clock, registers, ..ppu }
}

/// Steps the PPU clock, sets or clears the vertical blank flag when the new
/// position calls for it, and returns the event of the new position.
pub fn tick(ppu: &mut PPU) -> (r: Option<State>)
    ensures
        *final(ppu) == tick_spec(*old(ppu)),
        r == state_at(final(ppu).clock),
{
    ppu.clock.step();
    let state = ppu.state();
    match state {
        Some(State::VBlankToggle(on)) => {
            let status_flags = ppu.registers.status_flags();
            ppu.registers.set_status_flags(StatusFlags { vblank: on, ..status_flags });
        },
        _ => {},
    }
    state
}

pub const FRAME_WIDTH: usize = 256;

pub const FRAME_HEIGHT: usize = 240;

/// The PPU's bus over the cartridge's first two pattern tables and the
/// PPU's two name tables, each shown twice; `None` when the character ROM
/// is shorter than two pattern tables.
pub fn ppu_bus<'a>(chr_rom: &'a [u8], memory: &'a [u8; INTERNAL_MEMORY_SIZE]) -> (r: Option<
    PpuBus<'a, 'a>,
>)
    ensures
        chr_rom@.len() >= 2 * PATTERN_TABLE_SECTION_SIZE <==> r is Some,
        r matches Some(bus) ==> {
            &&& bus.pattern_tables.left@ == chr_rom@.subrange(0, PATTERN_TABLE_SECTION_SIZE as int)
            &&& bus.pattern_tables.right@ == chr_rom@.subrange(
                PATTERN_TABLE_SECTION_SIZE as int,
                2 * PATTERN_TABLE_SECTION_SIZE,
            )
            &&& bus.name_tables.top_left.0@ == memory@.subrange(0, NAME_TABLE_SIZE as int)
            &&& bus.name_tables.top_right.0@ == memory@.subrange(
                NAME_TABLE_SIZE as int,
                2 * NAME_TABLE_SIZE,
            )
            &&& bus.name_tables.bottom_left == bus.name_tables.top_left
            &&& bus.name_tables.bottom_right == bus.name_tables.top_right
        },
{
    if chr_rom.len() < 2 * PATTERN_TABLE_SECTION_SIZE {
        return None;
    }
    let pattern_tables = match PatternTables::new(
        &chr_rom[0..PATTERN_TABLE_SECTION_SIZE],
        &chr_rom[PATTERN_TABLE_SECTION_SIZE..2 * PATTERN_TABLE_SECTION_SIZE],
    ) {
        Ok(tables) => tables,
        Err(_) => return None,
    };
    let all = memory.as_slice();
    let top_left = match NameTable::with_slice(&all[0..NAME_TABLE_SIZE]) {
        Ok(table) => table,
        Err(_) => return None,
    };
    let top_right = match NameTable::with_slice(&all[NAME_TABLE_SIZE..2 * NAME_TABLE_SIZE]) {
        Ok(table) => table,
        Err(_) => return None,
    };
    Some(
        PpuBus {
            pattern_tables,
            name_tables: NameTables::new(top_left, top_right, top_left, top_right),
        },
    )
}

/// The first of the 16 bytes of the tile drawn at (`x`, `y`): the tile's
/// index in a 32-wide grid of 8x8 cells, times 16.
pub open spec fn tile_address(x: u32, y: u32) -> int {
    ((y / 8) * 32 + x / 8) * 16
}

/// The 16 bytes that the bus holds from `start` on, when it holds them all.
pub open spec fn tile_bytes(bus: PpuBus, start: int) -> Option<Seq<u8>> {
    if forall|i: int| 0 <= i < 16 ==> #[trigger] bus.spec_read((start + i) as u16) is Some {
        Some(Seq::new(16, |i: int| bus.spec_read((start + i) as u16)->Some_0))
    } else {
        None
    }
}

/// Draws the tile at (`x`, `y`): reads its 16 bytes through the PPU bus,
/// decodes them and writes the 8x8 block into `frame` with its top left
/// corner at (`x`, `y`). When a byte cannot be read nothing is drawn.
pub fn render_tile(
    bus: &PpuBus,
    x: u32,
    y: u32,
    frame: &mut [[u8; FRAME_WIDTH]; FRAME_HEIGHT],
) -> (r: bool)
    requires
        x <= 248,
        y <= 232,
    ensures
        r == tile_bytes(*bus, tile_address(x, y)) is Some,
        r ==> forall|row: int, column: int|
            0 <= row < FRAME_HEIGHT && 0 <= column < FRAME_WIDTH
                ==> #[trigger] final(frame)[row][column] == if y <= row < y + 8 && x <= column < x + 8 {
                tile_pixel(tile_bytes(*bus, tile_address(x, y))->Some_0, row - y, column - x)
            } else {
                old(frame)[row][column]
            },
        !r ==> *final(frame) == *old(frame),
{
    let start = (((y / 8) * 32 + (x / 8)) * 16) as u16;
    let mut bytes: Vec<u8> = Vec::new();
    let mut i: u16 = 0;
    while i < 16
        invariant
            0 <= i <= 16,
            start == tile_address(x, y),
            start + 16 <= 0x10000,
            bytes@.len() == i,
            forall|k: int|
                0 <= k < i ==> Some(#[trigger] bytes@[k]) == bus.spec_read((start + k) as u16),
        decreases 16 - i,
    {
        match bus.read(start + i) {
            Some(value) => bytes.push(value),
            None => {
                assert(tile_bytes(*bus, tile_address(x, y)) is None) by {
                    assert(!(bus.spec_read((start + i) as u16) is Some));
                }
                return false;
            },
        }
        i += 1;
    }
    let ghost all = Seq::new(16, |k: int| bus.spec_read((start + k) as u16)->Some_0);
    assert forall|k: int| 0 <= k < 16 implies #[trigger] bus.spec_read(
        (tile_address(x, y) + k) as u16,
    ) is Some by {
        assert(Some(bytes@[k]) == bus.spec_read((start + k) as u16));
    }
    assert(bytes@ =~= all);
    assert(tile_bytes(*bus, tile_address(x, y)) == Some(all));
    let tile = match Tile::from_pattern_table_slice(bytes.as_slice()) {
        Ok(tile) => tile,
        Err(_) => return false,
    };
    let ghost before = *frame;
    let mut row: usize = 0;
    while row < 8
        invariant
            row <= 8,
            x <= 248,
            y <= 232,
            bytes@ == all,
            forall|r: int, c: int|
                0 <= r < 8 && 0 <= c < 8 ==> #[trigger] tile.0[r][c] == tile_pixel(all, r, c),
            forall|r: int, c: int|
                0 <= r < FRAME_HEIGHT && 0 <= c < FRAME_WIDTH ==> #[trigger] frame[r][c]
                    == if y <= r < y + row && x <= c < x + 8 {
                    tile_pixel(all, r - y, c - x)
                } else {
                    before[r][c]
                },
        decreases 8 - row,
    {
        let target = y as usize + row;
        let mut line = frame[target];
        let source = tile.0[row];
        let mut column: usize = 0;
        while column < 8
            invariant
                column <= 8,
                x <= 248,
                row < 8,
                target < FRAME_HEIGHT,
                source == tile.0[row as int],
                forall|c: int|
                    0 <= c < FRAME_WIDTH ==> #[trigger] line[c] == if x <= c < x + column {
                        source[c - x]
                    } else {
                        frame[target as int][c]
                    },
            decreases 8 - column,
        {
            line[x as usize + column] = source[column];
            column += 1;
        }
        frame[target] = line;
        row += 1;
    }
    true
}

} // verus!
