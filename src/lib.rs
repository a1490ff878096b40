pub mod error;
pub mod hardware;
pub mod instruction;
pub mod rom;
pub mod emulator;
