//! Decoding and running programs written as sequences of three-letter codons
//! over the alphabet `A`, `C`, `G`, `U`.
//!
//! The pipeline is: [`codon::tokenize`] splits the source into codons,
//! [`decode::decode_program`] turns the codons into instructions (reading
//! numeric operands with [`number::codons_to_number`]),
//! [`validate::validate_program`] checks the program's shape, and
//! [`machine::Machine`] runs it on nine 32-bit registers.
use vstd::prelude::*;

pub mod error;
pub mod codon;
pub mod number;
pub mod decode;
pub mod validate;
pub mod machine;

use crate::codon::{tokenize, tokens_of};
use crate::decode::{decode_program, decoded};
use crate::error::InterpError;
use crate::machine::{Execution, MachineView, execute, initial_machine, run_from};
use crate::validate::{program_fault, validate_program};

verus! {

/// The whole pipeline on a source text: its codons decoded, the program
/// validated, and at most `max_steps` instructions run.
pub open spec fn interpretation(source: Seq<char>, max_steps: nat) -> Result<
    (MachineView, Seq<i32>, bool),
    InterpError,
> {
    match decoded(tokens_of(source)) {
        Err(e) => Err(e),
        Ok(program) => match program_fault(program) {
            Some(e) => Err(e),
            None => run_from(program, initial_machine(), seq![], max_steps),
        },
    }
}

/// Tokenizes, decodes, validates and runs a source text (with its separators
/// already removed), running at most `max_steps` instructions.
pub fn interpret(source: &str, max_steps: usize) -> (r: Result<Execution, InterpError>)
    ensures
        match r {
            Ok(ex) => interpretation(source@, max_steps as nat) == Ok::<
                (MachineView, Seq<i32>, bool),
                InterpError,
            >((ex.machine@, ex.outputs@, ex.halted)),
            Err(e) => interpretation(source@, max_steps as nat) == Err::<
                (MachineView, Seq<i32>, bool),
                InterpError,
            >(e),
        },
{
    let codons = tokenize(source);
    let instructions = decode_program(&codons)?;
    let program = validate_program(instructions)?;
    execute(&program, max_steps)
}

} // verus!
