use vstd::prelude::*;

use super::cpu::{CPU, CpuState, Registers};
use crate::rom::PRG_PAGE_SIZE;

verus! {

/// The little-endian 16-bit value of two bytes.
pub open spec fn le_u16(low: u8, high: u8) -> u16 {
    (low as int + 256 * high as int) as u16
}

pub trait Memory {
    /// The byte that the memory gives at `address`, if anything is mapped
    /// there.
    spec fn spec_read(&self, address: u16) -> Option<u8>;

    fn read(&self, address: u16) -> (r: Option<u8>)
        ensures
            r == self.spec_read(address),
    ;

    /// The little-endian value of the bytes at `address` and `address + 1`;
    /// `None` when either is unmapped or `address` is the last one.
    fn read_16_bit_value(&self, address: u16) -> (r: Option<u16>)
        ensures
            r == read_16_of(self.spec_read(address), if address < 0xFFFF {
                self.spec_read((address + 1) as u16)
            } else {
                None
            }),
    {
        if address == 0xFFFF {
            return None;
        }
        let low = self.read(address);
        let high = self.read(address + 1);
        match (low, high) {
            (Some(low), Some(high)) => Some(low as u16 + 256 * high as u16),
            _ => None,
        }
    }
}

/// Two reads joined into a little-endian value when both succeeded.
pub open spec fn read_16_of(low: Option<u8>, high: Option<u8>) -> Option<u16> {
    match (low, high) {
        (Some(low), Some(high)) => Some(le_u16(low, high)),
        _ => None,
    }
}

/// The address in RAM that the stack pointer designates.
pub open spec fn stack_slot(s: u8) -> int {
    0x0100 + s as int
}

/// The processor state after pushing `value`.
pub open spec fn push_state(cpu: CpuState, value: u8) -> CpuState {
    CpuState {
        registers: Registers { s: ((cpu.registers.s + 255) % 256) as u8, ..cpu.registers },
        ram: cpu.ram.update(stack_slot(cpu.registers.s), value),
    }
}

/// The processor state after a pop, and the byte popped.
pub open spec fn pop_state(cpu: CpuState) -> (CpuState, u8) {
    let s = ((cpu.registers.s + 1) % 256) as u8;
    (CpuState { registers: Registers { s, ..cpu.registers }, ram: cpu.ram }, cpu.ram[stack_slot(s)])
}

/// The hardware stack over page one of internal RAM.
pub struct Stack<'a> {
    pub cpu: &'a mut CPU,
}

impl<'a> Stack<'a> {
    pub fn new(cpu: &'a mut CPU) -> (r: Self)
        ensures
            *r.cpu == *old(cpu),
            *final(cpu) == *final(r.cpu),
    {
        Self { cpu }
    }

    pub fn push(&mut self, value: u8)
        ensures
            (*final(self).cpu)@ == push_state((*old(self).cpu)@, value),
            *final(final(self).cpu) == *final(old(self).cpu),
    {
        let s = self.cpu.registers.s;
        self.cpu.internal_memory[s as usize + 0x0100] = value;
        self.cpu.registers.s = s.wrapping_sub(0x01);
        assert((*self.cpu)@.ram =~= (*old(self).cpu)@.ram.update(stack_slot(s), value));
    }

    pub fn pop(&mut self) -> (r: u8)
        ensures
            ((*final(self).cpu)@, r) == pop_state((*old(self).cpu)@),
            *final(final(self).cpu) == *final(old(self).cpu),
    {
        let s = self.cpu.registers.s.wrapping_add(0x01);
        self.cpu.registers.s = s;
        self.cpu.internal_memory[s as usize + 0x0100]
    }
}

/// The state after pushing `values`, first to last.
pub open spec fn push_all(cpu: CpuState, values: Seq<u8>) -> CpuState
    decreases values.len(),
{
    if values.len() == 0 {
        cpu
    } else {
        push_all(push_state(cpu, values[0]), values.subrange(1, values.len() as int))
    }
}

/// The state after `n` pops, and the bytes popped in order.
pub open spec fn pop_n(cpu: CpuState, n: nat) -> (CpuState, Seq<u8>)
    decreases n,
{
    if n == 0 {
        (cpu, seq![])
    } else {
        let (next, value) = pop_state(cpu);
        let (last, rest) = pop_n(next, (n - 1) as nat);
        (last, seq![value] + rest)
    }
}

pub open spec fn wrap_byte(value: int) -> int {
    value % 256
}

/// After `values` are pushed, the stack page holds `values[d]` at the slot
/// `d` below the old stack pointer, for each `d` under their count; nothing
/// else in RAM changed.
proof fn lemma_push_all(cpu: CpuState, values: Seq<u8>)
    requires
        cpu.ram.len() == 2048,
        values.len() <= 256,
    ensures
        push_all(cpu, values).registers == (Registers {
            s: wrap_byte(cpu.registers.s - values.len()) as u8,
            ..cpu.registers
        }),
        push_all(cpu, values).ram.len() == 2048,
        forall|t: int|
            0 <= t < 256 ==> #[trigger] push_all(cpu, values).ram[0x100 + t] == if wrap_byte(
                cpu.registers.s - t,
            ) < values.len() {
                values[wrap_byte(cpu.registers.s - t)]
            } else {
                cpu.ram[0x100 + t]
            },
        forall|k: int|
            0 <= k < 2048 && !(0x100 <= k < 0x200) ==> #[trigger] push_all(cpu, values).ram[k]
                == cpu.ram[k],
    decreases values.len(),
{
    if values.len() > 0 {
        let next = push_state(cpu, values[0]);
        let rest = values.subrange(1, values.len() as int);
        lemma_push_all(next, rest);
        let after = push_all(cpu, values);
        assert(after == push_all(next, rest));
        let s = cpu.registers.s as int;
        assert(next.registers.s as int == wrap_byte(s - 1));
        assert forall|t: int| 0 <= t < 256 implies #[trigger] after.ram[0x100 + t] == if wrap_byte(
            s - t,
        ) < values.len() {
            values[wrap_byte(s - t)]
        } else {
            cpu.ram[0x100 + t]
        } by {
            let d = wrap_byte(s - t);
            let d1 = wrap_byte(next.registers.s - t);
            assert(d1 == wrap_byte(d - 1));
            if d == 0 {
                assert(t == s);
            } else {
                assert(d1 == d - 1);
                if d1 < rest.len() {
                    assert(rest[d1] == values[d]);
                }
            }
        }
    }
}

/// `n` pops read the `n` slots above the stack pointer, lowest first, and
/// move the pointer up by `n`; RAM stays as it was.
proof fn lemma_pop_n(cpu: CpuState, n: nat)
    requires
        cpu.ram.len() == 2048,
    ensures
        pop_n(cpu, n).0.ram == cpu.ram,
        pop_n(cpu, n).0.registers == (Registers {
            s: wrap_byte(cpu.registers.s + n) as u8,
            ..cpu.registers
        }),
        pop_n(cpu, n).1.len() == n,
        forall|j: int|
            0 <= j < n ==> #[trigger] pop_n(cpu, n).1[j] == cpu.ram[0x100 + wrap_byte(
                cpu.registers.s + 1 + j,
            )],
    decreases n,
{
    if n > 0 {
        let (next, value) = pop_state(cpu);
        lemma_pop_n(next, (n - 1) as nat);
        let s = cpu.registers.s as int;
        assert(next.registers.s as int == wrap_byte(s + 1));
        let out = pop_n(cpu, n).1;
        let rest = pop_n(next, (n - 1) as nat).1;
        assert(out == seq![value] + rest);
        assert forall|j: int| 0 <= j < n implies #[trigger] out[j] == cpu.ram[0x100 + wrap_byte(
            s + 1 + j,
        )] by {
            if j > 0 {
                assert(out[j] == rest[j - 1]);
                assert(wrap_byte(wrap_byte(s + 1) + 1 + (j - 1)) == wrap_byte(s + 1 + j));
            }
        }
    }
}

proof fn lemma_wrap_byte(x: int)
    requires
        -256 <= x < 512,
    ensures
        wrap_byte(x) == if x < 0 {
            x + 256
        } else if x < 256 {
            x
        } else {
            x - 256
        },
{
}

/// Pushing up to a page of bytes and popping as many gives them back in
/// reverse order, and leaves every register as it was.
pub proof fn lemma_stack_lifo(cpu: CpuState, values: Seq<u8>)
    requires
        cpu.ram.len() == 2048,
        values.len() <= 256,
    ensures
        pop_n(push_all(cpu, values), values.len()).1 == values.reverse(),
        pop_n(push_all(cpu, values), values.len()).0.registers == cpu.registers,
{
    let n = values.len();
    let pushed = push_all(cpu, values);
    lemma_push_all(cpu, values);
    lemma_pop_n(pushed, n);
    let s = cpu.registers.s as int;
    let out = pop_n(pushed, n).1;
    let sp = wrap_byte(s - n);
    lemma_wrap_byte(s - n);
    assert(pushed.registers.s as int == sp);
    assert forall|j: int| 0 <= j < n implies #[trigger] out[j] == values.reverse()[j] by {
        let t = wrap_byte(sp + 1 + j);
        lemma_wrap_byte(sp + 1 + j);
        assert(out[j] == pushed.ram[0x100 + t]);
        lemma_wrap_byte(s - t);
        assert(wrap_byte(s - t) == n - 1 - j);
        assert(pushed.ram[0x100 + t] == values[n - 1 - j]);
    }
    assert(out =~= values.reverse());
    lemma_wrap_byte(sp + n);
}

/// Cartridge mapping of the upper half of the address space. NROM holds
/// one bank at `0x8000..=0xBFFF` and one at `0xC000..=0xFFFF`; a cartridge
/// with a single bank passes it twice.
#[derive(Debug, Copy, Clone, Eq, PartialEq)]
pub enum MemoryMapper<'a> {
    NROM(&'a [u8], &'a [u8]),
}

impl<'a> MemoryMapper<'a> {
    /// NROM over a program ROM of one or two 16 KiB banks; a single bank
    /// shows at both `0x8000` and `0xC000`.
    pub fn nrom(prg_rom: &'a [u8]) -> (r: Self)
        ensures
            prg_rom@.len() > PRG_PAGE_SIZE ==> (r matches MemoryMapper::NROM(first, second) && first@
                == prg_rom@.subrange(0, PRG_PAGE_SIZE as int) && second@ == prg_rom@.subrange(
                PRG_PAGE_SIZE as int,
                prg_rom@.len() as int,
            )),
            prg_rom@.len() <= PRG_PAGE_SIZE ==> (r matches MemoryMapper::NROM(first, second) && first@
                == prg_rom@ && second@ == prg_rom@),
    {
        if prg_rom.len() > PRG_PAGE_SIZE {
            MemoryMapper::NROM(&prg_rom[0..PRG_PAGE_SIZE], &prg_rom[PRG_PAGE_SIZE..prg_rom.len()])
        } else {
            MemoryMapper::NROM(prg_rom, prg_rom)
        }
    }

    /// The bank that `address` falls in and the offset into it.
    pub open spec fn bank_of(&self, address: u16) -> Option<(Seq<u8>, int)> {
        match self {
            MemoryMapper::NROM(first, second) => {
                if 0x8000 <= address <= 0xBFFF {
                    Some((first@, address - 0x8000))
                } else if 0xC000 <= address {
                    Some((second@, address - 0xC000))
                } else {
                    None
                }
            },
        }
    }

    pub open spec fn spec_slice_from(&self, address: u16) -> Option<Seq<u8>> {
        match self.bank_of(address) {
            Some((bank, offset)) => if offset <= bank.len() {
                Some(bank.subrange(offset, bank.len() as int))
            } else {
                None
            },
            None => None,
        }
    }

    pub open spec fn spec_read(&self, address: u16) -> Option<u8> {
        match self.bank_of(address) {
            Some((bank, offset)) => if offset < bank.len() {
                Some(bank[offset])
            } else {
                None
            },
            None => None,
        }
    }

    pub fn read(&self, address: u16) -> (r: Option<u8>)
        ensures
            r == self.spec_read(address),
    {
        match self.slice_from(address) {
            Some(slice) => if slice.len() > 0 {
                Some(slice[0])
            } else {
                None
            },
            None => None,
        }
    }

    /// The bytes from `address` to the end of its bank.
    pub fn slice_from(&self, address: u16) -> (r: Option<&[u8]>)
        ensures
            r matches Some(s) ==> self.spec_slice_from(address) == Some(s@),
            r is None ==> self.spec_slice_from(address) is None,
    {
        match self {
            MemoryMapper::NROM(first, second) => {
                if 0x8000 <= address && address <= 0xBFFF {
                    let offset = address as usize - 0x8000;
                    if offset <= first.len() {
                        Some(&first[offset..first.len()])
                    } else {
                        None
                    }
                } else if 0xC000 <= address {
                    let offset = address as usize - 0xC000;
                    if offset <= second.len() {
                        Some(&second[offset..second.len()])
                    } else {
                        None
                    }
                } else {
                    None
                }
            },
        }
    }
}

} // verus!
