use vstd::prelude::*;

verus! {

/// Every way in which decoding, validating or running a program can fail.
/// Each error stops the whole run.
#[derive(Clone, Copy, Debug, PartialEq, Eq, Structural)]
pub enum InterpError {
    /// The codon at this position has no entry in the opcode table.
    UnrecognizedSymbol { position: usize },
    /// The digit run starting at this codon position is worth more than `u32::MAX`.
    Overflow { position: usize },
    /// The program has fewer than two instructions.
    TooFewInstructions { count: usize },
    /// The first instruction is not `Start`.
    MissingStart,
    /// The last instruction is not `Stop`.
    MissingStop,
    /// The instruction at this index names a register above 8 or a jump
    /// address past the end of the program.
    InvalidOperand { pointer: usize },
    /// The instruction pointer left the program; this only happens to a
    /// program that was not validated.
    PointerOutOfRange { pointer: usize },
}

} // verus!
