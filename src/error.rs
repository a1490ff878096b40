use vstd::prelude::*;

verus! {

/// The decoder met a byte that starts no official instruction (or whose
/// operand bytes are missing).
#[derive(Debug, Copy, Clone, PartialEq, Eq, Structural)]
pub struct InvalidOpCode(pub u8);

impl InvalidOpCode {
    pub fn new(op_code: u8) -> (r: Self)
        ensures
            r.0 == op_code,
    {
        Self(op_code)
    }
}

/// Why an instruction could not be carried out.
#[derive(Debug, Copy, Clone, PartialEq, Eq, Structural)]
pub enum ExecutionError {
    /// The operation was paired with an addressing mode it cannot use.
    InvalidAddressingMode,
    /// The bus had nothing mapped at this address.
    UnmappedRead(u16),
}

} // verus!
