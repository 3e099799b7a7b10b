//! Checking the shape of a decoded program before it runs.
use vstd::prelude::*;
use crate::decode::Instruction;
use crate::error::InterpError;

verus! {

/// Why a program is not well formed, checked in this order, or `None` when it
/// has at least two instructions, starts with `Start` and ends with `Stop`.
pub open spec fn program_fault(p: Seq<Instruction>) -> Option<InterpError> {
    if p.len() < 2 {
        Some(InterpError::TooFewInstructions { count: p.len() as usize })
    } else if p[0] != Instruction::Start {
        Some(InterpError::MissingStart)
    } else if p[p.len() - 1] != Instruction::Stop {
        Some(InterpError::MissingStop)
    } else {
        None
    }
}

/// Hands the instructions back unchanged when they form a well-formed
/// program, else the first fault found.
pub fn validate_program(instructions: Vec<Instruction>) -> (r: Result<Vec<Instruction>, InterpError>)
    ensures
        match r {
            Ok(p) => program_fault(instructions@) is None && p@ == instructions@,
            Err(e) => program_fault(instructions@) == Some(e),
        },
{
    let n = instructions.len();
    if n < 2 {
        return Err(InterpError::TooFewInstructions { count: n });
    }
    if instructions[0] != Instruction::Start {
        return Err(InterpError::MissingStart);
    }
    if instructions[n - 1] != Instruction::Stop {
        return Err(InterpError::MissingStop);
    }
    Ok(instructions)
}

/// The validator turns away every program that is empty or has a single
/// instruction, that does not start with `Start`, or that does not end with
/// `Stop`, and accepts every other.
pub proof fn lemma_validation_rejects(p: Seq<Instruction>)
    ensures
        p.len() < 2 ==> program_fault(p) is Some,
        p.len() >= 1 && p[0] != Instruction::Start ==> program_fault(p) is Some,
        p.len() >= 1 && p[p.len() - 1] != Instruction::Stop ==> program_fault(p) is Some,
        program_fault(p) is None <==> (p.len() >= 2 && p[0] == Instruction::Start && p[p.len()
            - 1] == Instruction::Stop),
{
}

} // verus!
