pub mod cpu;
pub mod memory;
pub mod ppu;
