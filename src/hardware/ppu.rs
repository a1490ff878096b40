use vstd::prelude::*;

use super::memory::Memory;

verus! {

pub const INTERNAL_MEMORY_SIZE: usize = 2048;

pub const OAM_SIZE: usize = 256;

pub const PATTERN_TABLE_SECTION_SIZE: usize = 4096;

pub const NAME_TABLE_SIZE: usize = 1024;

pub const TILE_SIZE: u32 = 8;

pub const PATTERN_TILE_SIZE: usize = 16;

/// Cycles in one scanline and scanlines in one frame.
pub const CYCLES_PER_SCANLINE: u32 = 341;

pub const SCANLINES_PER_FRAME: u32 = 262;

#[derive(Copy, Clone)]
pub struct PPU {
    pub registers: Registers,
    pub clock: Clock,
    pub internal_memory: [u8; INTERNAL_MEMORY_SIZE],
    pub oam: OAM,
}

/// The event that a clock position calls for, if any.
pub open spec fn state_at(clock: Clock) -> Option<State> {
    let (scanline, cycle) = (clock.scanline, clock.cycle);
    if scanline <= 239 && 1 <= cycle <= 256 && scanline % 8 == 0 && cycle % 8 == 1 {
        Some(State::RenderTile { x: (cycle - 1) as u32, y: scanline })
    } else if scanline == 241 && cycle == 1 {
        Some(State::VBlankToggle(true))
    } else if scanline == 261 && cycle == 1 {
        Some(State::VBlankToggle(false))
    } else {
        None
    }
}

impl PPU {
    pub fn new() -> (r: Self)
        ensures
            r.registers == Registers::zeroed(),
            r.clock == (Clock { cycle: 0, scanline: 0 }),
            r.internal_memory@ == Seq::new(INTERNAL_MEMORY_SIZE as nat, |i: int| 0u8),
            r.oam.0@ == Seq::new(OAM_SIZE as nat, |i: int| 0u8),
    {
        let r = Self {
            registers: Registers::default(),
            clock: Clock::default(),
            internal_memory: [0u8; INTERNAL_MEMORY_SIZE],
            oam: OAM::new(),
        };
        assert(r.internal_memory@ =~= Seq::new(INTERNAL_MEMORY_SIZE as nat, |i: int| 0u8));
        r
    }

    pub fn state(&self) -> (r: Option<State>)
        ensures
            r == state_at(self.clock),
    {
        let scanline = self.clock.scanline;
        let cycle = self.clock.cycle;
        if scanline <= 239 && 1 <= cycle && cycle <= 256 && scanline % TILE_SIZE == 0 && cycle
            % TILE_SIZE == 1 {
            Some(State::RenderTile { x: cycle - 1, y: scanline })
        } else if scanline == 241 && cycle == 1 {
            Some(State::VBlankToggle(true))
        } else if scanline == 261 && cycle == 1 {
            Some(State::VBlankToggle(false))
        } else {
            None
        }
    }
}

#[derive(Debug, Copy, Clone, Eq, PartialEq, Structural)]
pub enum State {
    RenderTile { x: u32, y: u32 },
    VBlankToggle(bool),
}

#[derive(Debug, Copy, Clone, Eq, PartialEq, Structural)]
pub struct Registers {
    pub ppuctrl: u8,
    pub ppumask: u8,
    pub ppustatus: u8,
    pub oamaddr: u8,
    pub oamdata: u8,
    pub ppuscroll: u8,
    pub ppuaddr: u8,
    pub ppudata: u8,
    pub oamdma: u8,
}

impl Default for Registers {
    fn default() -> (r: Self)
        ensures
            r == Registers::zeroed(),
    {
        Registers {
            ppuctrl: 0,
            ppumask: 0,
            ppustatus: 0,
            oamaddr: 0,
            oamdata: 0,
            ppuscroll: 0,
            ppuaddr: 0,
            ppudata: 0,
            oamdma: 0,
        }
    }
}

impl Registers {
    pub open spec fn zeroed() -> Registers {
        Registers {
            ppuctrl: 0,
            ppumask: 0,
            ppustatus: 0,
            oamaddr: 0,
            oamdata: 0,
            ppuscroll: 0,
            ppuaddr: 0,
            ppudata: 0,
            oamdma: 0,
        }
    }

    pub fn status_flags(&self) -> (r: StatusFlags)
        ensures
            r == status_flags_of(self.ppustatus),
    {
        StatusFlags::from(self.ppustatus)
    }

    pub fn set_status_flags(&mut self, status_flags: StatusFlags)
        ensures
            *final(self) == (Registers { ppustatus: status_byte_of(status_flags), ..*old(self) }),
    {
        self.ppustatus = u8::from(status_flags);
    }
}

#[derive(Copy, Clone)]
pub struct OAM(pub [u8; OAM_SIZE]);

impl OAM {
    pub fn new() -> (r: Self)
        ensures
            r.0@ == Seq::new(OAM_SIZE as nat, |i: int| 0u8),
    {
        let r = Self([0u8; OAM_SIZE]);
        assert(r.0@ =~= Seq::new(OAM_SIZE as nat, |i: int| 0u8));
        r
    }
}

/// The status register: five low bits, then sprite overflow, sprite zero hit
/// and vertical blank in bits 5, 6 and 7.
#[derive(Debug, Copy, Clone, Eq, PartialEq, Default, Structural)]
pub struct StatusFlags {
    pub least_significant_bits: u8,
    pub sprite_overflow: bool,
    pub sprite_0_hit: bool,
    pub vblank: bool,
}

pub const SPRITE_OVERFLOW_VALUE: u8 = 0x20;

pub const SPRITE_0_HIT_VALUE: u8 = 0x40;

pub const VBLANK_VALUE: u8 = 0x80;

pub open spec fn status_flags_of(value: u8) -> StatusFlags {
    StatusFlags {
        least_significant_bits: value & 0x1F,
        sprite_overflow: value & SPRITE_OVERFLOW_VALUE != 0,
        sprite_0_hit: value & SPRITE_0_HIT_VALUE != 0,
        vblank: value & VBLANK_VALUE != 0,
    }
}

/// The packed status byte; the low bits are taken as they are.
pub open spec fn status_byte_of(flags: StatusFlags) -> u8 {
    flags.least_significant_bits | (if flags.sprite_overflow {
        SPRITE_OVERFLOW_VALUE
    } else {
        0
    }) | (if flags.sprite_0_hit {
        SPRITE_0_HIT_VALUE
    } else {
        0
    }) | (if flags.vblank {
        VBLANK_VALUE
    } else {
        0
    })
}

impl From<u8> for StatusFlags {
    fn from(value: u8) -> (r: Self)
        ensures
            r == status_flags_of(value),
    {
        Self {
            least_significant_bits: value & 0x1F,
            sprite_overflow: (value & SPRITE_OVERFLOW_VALUE) != 0,
            sprite_0_hit: (value & SPRITE_0_HIT_VALUE) != 0,
            vblank: (value & VBLANK_VALUE) != 0,
        }
    }
}

impl vstd::std_specs::convert::FromSpecImpl<u8> for StatusFlags {
    open spec fn obeys_from_spec() -> bool {
        true
    }

    open spec fn from_spec(value: u8) -> StatusFlags {
        status_flags_of(value)
    }
}

impl From<StatusFlags> for u8 {
    fn from(flags: StatusFlags) -> (r: u8)
        ensures
            r == status_byte_of(flags),
    {
        flags.least_significant_bits | (if flags.sprite_overflow {
            SPRITE_OVERFLOW_VALUE
        } else {
            0
        }) | (if flags.sprite_0_hit {
            SPRITE_0_HIT_VALUE
        } else {
            0
        }) | (if flags.vblank {
            VBLANK_VALUE
        } else {
            0
        })
    }
}

impl vstd::std_specs::convert::FromSpecImpl<StatusFlags> for u8 {
    open spec fn obeys_from_spec() -> bool {
        true
    }

    open spec fn from_spec(flags: StatusFlags) -> u8 {
        status_byte_of(flags)
    }
}

/// Unpacking a status byte and packing it again gives the same byte.
pub proof fn lemma_status_round_trip(value: u8)
    ensures
        status_byte_of(status_flags_of(value)) == value,
{
    assert((value & 0x1F) | (if value & 0x20 != 0 { 0x20u8 } else { 0 }) | (if value & 0x40 != 0 {
        0x40u8
    } else {
        0
    }) | (if value & 0x80 != 0 { 0x80u8 } else { 0 }) == value) by (bit_vector);
}

/// The position of the beam: a cycle within a scanline.
#[derive(Debug, Copy, Clone, Eq, PartialEq, Structural)]
pub struct Clock {
    pub cycle: u32,
    pub scanline: u32,
}

impl Default for Clock {
    fn default() -> (r: Self)
        ensures
            r == (Clock { cycle: 0, scanline: 0 }),
    {
        Clock { cycle: 0, scanline: 0 }
    }
}

/// The clock one step later.
pub open spec fn next_clock(clock: Clock) -> Clock {
    if clock.cycle < 340 {
        Clock { cycle: (clock.cycle + 1) as u32, ..clock }
    } else if clock.scanline < 261 {
        Clock { cycle: 0, scanline: (clock.scanline + 1) as u32 }
    } else {
        Clock { cycle: 0, scanline: 0 }
    }
}

impl Clock {
    pub open spec fn wf(self) -> bool {
        self.cycle <= 340 && self.scanline <= 261
    }

    pub fn step(&mut self)
        ensures
            *final(self) == next_clock(*old(self)),
    {
        if self.cycle < 340 {
            self.cycle = self.cycle + 1;
        } else {
            self.scanline = if self.scanline < 261 {
                self.scanline + 1
            } else {
                0
            };
            self.cycle = 0;
        }
    }
}

pub uninterp spec fn pattern_tables_size_message(expected: nat, left: nat, right: nat) -> Seq<char>;

/// Relies on `format!`: the message depends on the three numbers alone.
#[verifier::external_body]
fn pattern_tables_size_error(expected: usize, left: usize, right: usize) -> (r: String)
    ensures
        r@ == pattern_tables_size_message(expected as nat, left as nat, right as nat),
{
    format!(
        "Invalid pattern table slice size. Meeds to be {} bytes, got: (left: {}, right: {})",
        expected,
        left,
        right,
    )
}

pub uninterp spec fn name_table_size_message(expected: nat, got: nat) -> Seq<char>;

/// Relies on `format!`: the message depends on the two numbers alone.
#[verifier::external_body]
fn name_table_size_error(expected: usize, got: usize) -> (r: String)
    ensures
        r@ == name_table_size_message(expected as nat, got as nat),
{
    format!("Invalid name table size. Needs to be {} bytes, got: {}", expected, got)
}

pub uninterp spec fn tile_size_message(expected: nat, got: nat) -> Seq<char>;

/// Relies on `format!`: the message depends on the two numbers alone.
#[verifier::external_body]
fn tile_size_error(expected: usize, got: usize) -> (r: String)
    ensures
        r@ == tile_size_message(expected as nat, got as nat),
{
    format!("Invalid tile slice size. A tile needs to be {} bytes but got {}", expected, got)
}

/// The clock after `n` steps.
pub open spec fn clock_after(clock: Clock, n: nat) -> Clock
    decreases n,
{
    if n == 0 {
        clock
    } else {
        clock_after(next_clock(clock), (n - 1) as nat)
    }
}

/// Cycles in one frame.
pub open spec fn frame_length() -> int {
    CYCLES_PER_SCANLINE * SCANLINES_PER_FRAME
}

/// How many steps into the frame a clock stands.
pub open spec fn position(clock: Clock) -> int {
    clock.scanline * CYCLES_PER_SCANLINE + clock.cycle
}

proof fn lemma_position_step(clock: Clock)
    requires
        clock.wf(),
    ensures
        next_clock(clock).wf(),
        position(next_clock(clock)) == (position(clock) + 1) % frame_length(),
{
    assert(0 <= position(clock) < frame_length()) by (nonlinear_arith)
        requires
            clock.wf(),
    ;
    assert(clock.cycle == 340 && clock.scanline < 261 ==> position(clock) + 1 == (clock.scanline
        + 1) * 341) by (nonlinear_arith);
}

proof fn lemma_position_after(clock: Clock, n: nat)
    requires
        clock.wf(),
    ensures
        clock_after(clock, n).wf(),
        position(clock_after(clock, n)) == (position(clock) + n) % frame_length(),
    decreases n,
{
    assert(0 <= position(clock) < frame_length()) by (nonlinear_arith)
        requires
            clock.wf(),
    ;
    if n > 0 {
        lemma_position_step(clock);
        lemma_position_after(next_clock(clock), (n - 1) as nat);
        let p = position(clock);
        vstd::arithmetic::div_mod::lemma_add_mod_noop(p + 1, n - 1, frame_length());
        vstd::arithmetic::div_mod::lemma_mod_twice(n - 1, frame_length());
    }
}

/// A clock in range is fixed by its position in the frame.
proof fn lemma_position_unique(a: Clock, b: Clock)
    requires
        a.wf(),
        b.wf(),
        position(a) == position(b),
    ensures
        a == b,
{
    assert(a.scanline == b.scanline) by (nonlinear_arith)
        requires
            a.scanline * 341 + a.cycle == b.scanline * 341 + b.cycle,
            a.cycle <= 340,
            b.cycle <= 340,
    ;
}

/// From the start of a frame, the clock is back at its start exactly after
/// a whole number of frames: 341 cycles of 262 scanlines.
pub proof fn lemma_clock_period(n: nat)
    ensures
        clock_after(Clock { cycle: 0, scanline: 0 }, n) == (Clock { cycle: 0, scanline: 0 }) <==> (n as int)
            % frame_length() == 0,
{
    let origin = Clock { cycle: 0, scanline: 0 };
    lemma_position_after(origin, n);
    if (n as int) % frame_length() == 0 {
        lemma_position_unique(clock_after(origin, n), origin);
    }
}

/// The vertical blank starts at scanline 241, cycle 1, and nowhere else: once
/// in each frame, that many steps after the frame's start.
pub proof fn lemma_vblank_once_per_frame(n: nat)
    ensures
        state_at(clock_after(Clock { cycle: 0, scanline: 0 }, n)) == Some(State::VBlankToggle(true))
            <==> (n as int) % frame_length() == 241 * 341 + 1,
        state_at(clock_after(Clock { cycle: 0, scanline: 0 }, n)) == Some(State::VBlankToggle(true))
            <==> clock_after(Clock { cycle: 0, scanline: 0 }, n) == (Clock { cycle: 1, scanline: 241 }),
{
    let origin = Clock { cycle: 0, scanline: 0 };
    let vblank = Clock { cycle: 1, scanline: 241 };
    lemma_position_after(origin, n);
    let c = clock_after(origin, n);
    if (n as int) % frame_length() == 241 * 341 + 1 {
        lemma_position_unique(c, vblank);
    }
}

/// The two 4 KiB pattern tables of the cartridge's character ROM.
#[derive(Debug, Copy, Clone, Eq, PartialEq)]
pub struct PatternTables<'a> {
    pub left: &'a [u8],
    pub right: &'a [u8],
}

impl<'a> PatternTables<'a> {
    pub fn new(left: &'a [u8], right: &'a [u8]) -> (r: Result<Self, String>)
        ensures
            left@.len() == PATTERN_TABLE_SECTION_SIZE && right@.len() == PATTERN_TABLE_SECTION_SIZE
                ==> (r matches Ok(t) && t.left@ == left@ && t.right@ == right@),
            !(left@.len() == PATTERN_TABLE_SECTION_SIZE && right@.len() == PATTERN_TABLE_SECTION_SIZE)
                ==> (r matches Err(m) && m@ == pattern_tables_size_message(
                PATTERN_TABLE_SECTION_SIZE as nat,
                left@.len(),
                right@.len(),
            )),
    {
        if left.len() == PATTERN_TABLE_SECTION_SIZE && right.len() == PATTERN_TABLE_SECTION_SIZE {
            Ok(Self { left, right })
        } else {
            Err(pattern_tables_size_error(PATTERN_TABLE_SECTION_SIZE, left.len(), right.len()))
        }
    }
}

/// One 1 KiB name table; its last 64 bytes are the attribute table.
#[derive(Debug, Copy, Clone, Eq, PartialEq)]
pub struct NameTable<'a>(pub &'a [u8]);

impl<'a> NameTable<'a> {
    pub fn with_slice(slice: &'a [u8]) -> (r: Result<Self, String>)
        ensures
            slice@.len() == NAME_TABLE_SIZE ==> (r matches Ok(t) && t.0@ == slice@),
            slice@.len() != NAME_TABLE_SIZE ==> (r matches Err(m) && m@ == name_table_size_message(
                NAME_TABLE_SIZE as nat,
                slice@.len(),
            )),
    {
        if slice.len() == NAME_TABLE_SIZE {
            Ok(Self(slice))
        } else {
            Err(name_table_size_error(NAME_TABLE_SIZE, slice.len()))
        }
    }

    pub fn attribute_table(&self) -> (r: &[u8])
        requires
            self.0@.len() >= 64,
        ensures
            r@ == self.0@.subrange(self.0@.len() - 64, self.0@.len() as int),
    {
        &self.0[self.0.len() - 64..self.0.len()]
    }
}

/// The four name tables as the PPU bus lays them out.
#[derive(Debug, Copy, Clone, Eq, PartialEq)]
pub struct NameTables<'a> {
    pub top_left: NameTable<'a>,
    pub top_right: NameTable<'a>,
    pub bottom_left: NameTable<'a>,
    pub bottom_right: NameTable<'a>,
}

impl<'a> NameTables<'a> {
    pub fn new(
        top_left: NameTable<'a>,
        top_right: NameTable<'a>,
        bottom_left: NameTable<'a>,
        bottom_right: NameTable<'a>,
    ) -> (r: Self)
        ensures
            r == (NameTables { top_left, top_right, bottom_left, bottom_right }),
    {
        Self { top_left, top_right, bottom_left, bottom_right }
    }
}

/// Bit `index` of `value`.
pub open spec fn bit(value: u8, index: u8) -> u8 {
    (value >> index) & 1
}

/// The colour of pixel `column` in row `row` of the tile whose 16 bytes are
/// `bytes`: bit 7 - `column` of byte `row` is its low bit and of byte
/// `row + 8` its high bit.
pub open spec fn tile_pixel(bytes: Seq<u8>, row: int, column: int) -> u8 {
    (bit(bytes[row], (7 - column) as u8) + 2 * bit(bytes[row + 8], (7 - column) as u8)) as u8
}

/// An 8x8 block of colours 0 to 3.
#[derive(Debug, Copy, Clone, Eq, PartialEq, Default)]
pub struct Tile(pub [[u8; 8]; 8]);

impl Tile {
    pub fn from_pattern_table_slice(slice: &[u8]) -> (r: Result<Self, String>)
        ensures
            slice@.len() == PATTERN_TILE_SIZE ==> (r matches Ok(t) && forall|row: int, column: int|
                0 <= row < 8 && 0 <= column < 8 ==> #[trigger] t.0[row][column] == tile_pixel(
                    slice@,
                    row,
                    column,
                )),
            slice@.len() != PATTERN_TILE_SIZE ==> (r matches Err(m) && m@ == tile_size_message(
                PATTERN_TILE_SIZE as nat,
                slice@.len(),
            )),
    {
        if slice.len() != PATTERN_TILE_SIZE {
            return Err(tile_size_error(PATTERN_TILE_SIZE, slice.len()));
        }
        let mut tile = [[0u8; 8]; 8];
        let mut row: usize = 0;
        while row < 8
            invariant
                slice@.len() == PATTERN_TILE_SIZE,
                row <= 8,
                forall|r: int, c: int|
                    0 <= r < row && 0 <= c < 8 ==> #[trigger] tile[r][c] == tile_pixel(
                        slice@,
                        r,
                        c,
                    ),
            decreases 8 - row,
        {
            let low = slice[row];
            let high = slice[row + 8];
            let mut line = [0u8; 8];
            let mut column: usize = 0;
            while column < 8
                invariant
                    column <= 8,
                    low == slice@[row as int],
                    high == slice@[row + 8],
                    row < 8,
                    slice@.len() == PATTERN_TILE_SIZE,
                    forall|c: int|
                        0 <= c < column ==> #[trigger] line[c] == tile_pixel(slice@, row as int, c),
                decreases 8 - column,
            {
                let shift = (7 - column) as u8;
                let color_0 = (low >> shift) & 0x01;
                let color_1 = ((high >> shift) & 0x01) << 1;
                assert(((high >> shift) & 0x01) << 1 == 2 * ((high >> shift) & 0x01) && color_0 | (((high >> shift) & 0x01) << 1) == color_0 + 2 * ((high >> shift) & 0x01)) by (bit_vector)
                    requires
                        color_0 == (low >> shift) & 0x01,
                ;
                line[column] = color_0 | color_1;
                column += 1;
            }
            tile[row] = line;
            row += 1;
        }
        Ok(Self(tile))
    }
}

#[derive(Debug, Copy, Clone, Eq, PartialEq, Default)]
pub struct Color {
    pub r: u8,
    pub g: u8,
    pub b: u8,
}

impl From<(u8, u8, u8)> for Color {
    fn from(value: (u8, u8, u8)) -> (r: Self)
        ensures
            r == (Color { r: value.0, g: value.1, b: value.2 }),
    {
        Self { r: value.0, g: value.1, b: value.2 }
    }
}

impl vstd::std_specs::convert::FromSpecImpl<(u8, u8, u8)> for Color {
    open spec fn obeys_from_spec() -> bool {
        true
    }

    open spec fn from_spec(value: (u8, u8, u8)) -> Color {
        Color { r: value.0, g: value.1, b: value.2 }
    }
}

#[derive(Debug, Copy, Clone, Eq, PartialEq, Default)]
pub struct Palette;

/// The byte at `index` of `bytes`, if there is one.
pub open spec fn byte_at(bytes: Seq<u8>, index: int) -> Option<u8> {
    if 0 <= index < bytes.len() {
        Some(bytes[index])
    } else {
        None
    }
}

fn get_byte(bytes: &[u8], index: usize) -> (r: Option<u8>)
    ensures
        r == byte_at(bytes@, index as int),
{
    if index < bytes.len() {
        Some(bytes[index])
    } else {
        None
    }
}

/// The PPU's bus: pattern tables, then name tables mirrored once more at
/// `0x3000..=0x3EFF`; the palette and everything above read as nothing.
pub struct MMU<'a, 'b> {
    pub pattern_tables: PatternTables<'a>,
    pub name_tables: NameTables<'b>,
}

impl<'a, 'b> MMU<'a, 'b> {
    /// What the name tables show at `address` in `0x2000..=0x2FFF`.
    pub open spec fn name_table_read(&self, address: int) -> Option<u8> {
        if 0x2000 <= address <= 0x23FF {
            byte_at(self.name_tables.top_left.0@, address - 0x2000)
        } else if 0x2400 <= address <= 0x27FF {
            byte_at(self.name_tables.top_right.0@, address - 0x2400)
        } else if 0x2800 <= address <= 0x2BFF {
            byte_at(self.name_tables.bottom_left.0@, address - 0x2800)
        } else {
            byte_at(self.name_tables.bottom_right.0@, address - 0x2C00)
        }
    }

    fn read_name_tables(&self, address: u16) -> (r: Option<u8>)
        requires
            0x2000 <= address <= 0x2FFF,
        ensures
            r == self.name_table_read(address as int),
    {
        if address <= 0x23FF {
            get_byte(self.name_tables.top_left.0, (address - 0x2000) as usize)
        } else if address <= 0x27FF {
            get_byte(self.name_tables.top_right.0, (address - 0x2400) as usize)
        } else if address <= 0x2BFF {
            get_byte(self.name_tables.bottom_left.0, (address - 0x2800) as usize)
        } else {
            get_byte(self.name_tables.bottom_right.0, (address - 0x2C00) as usize)
        }
    }
}

impl<'a, 'b> Memory for MMU<'a, 'b> {
    open spec fn spec_read(&self, address: u16) -> Option<u8> {
        if address <= 0x0FFF {
            byte_at(self.pattern_tables.left@, address as int)
        } else if address <= 0x1FFF {
            byte_at(self.pattern_tables.right@, address - 0x1000)
        } else if address <= 0x2FFF {
            self.name_table_read(address as int)
        } else if address <= 0x3EFF {
            self.name_table_read(address - 0x1000)
        } else {
            None
        }
    }

    fn read(&self, address: u16) -> (r: Option<u8>) {
        if address <= 0x0FFF {
            get_byte(self.pattern_tables.left, address as usize)
        } else if address <= 0x1FFF {
            get_byte(self.pattern_tables.right, (address - 0x1000) as usize)
        } else if address <= 0x2FFF {
            self.read_name_tables(address)
        } else if address <= 0x3EFF {
            self.read_name_tables(address - 0x1000)
        } else {
            None
        }
    }
}

} // verus!
