//! Turning a codon sequence into a list of instructions.
use vstd::prelude::*;
use crate::codon::{Opcode, codon_opcode, opcode_of};
use crate::error::InterpError;
use crate::number::{codons_to_number, lemma_run_len_bound, number_at, widen};

verus! {

/// One decoded instruction with its operands. Register operands name one of
/// the nine registers, jump operands an index into the program, and the
/// second operand of `Move` is a literal value.
#[derive(Clone, Copy, Debug, PartialEq, Eq, Structural)]
pub enum Instruction {
    Start,
    Stop,
    Break,
    Output(u32),
    Increment(u32),
    Decrement(u32),
    JumpIfZero(u32),
    JumpNotZero(u32),
    Addition(u32, u32),
    Subtraction(u32, u32),
    Move(u32, u32),
}

/// The instruction of kind `op` with operands `a` and `b`; operands beyond
/// the kind's arity are ignored.
pub open spec fn instruction_of(op: Opcode, a: u32, b: u32) -> Instruction {
    match op {
        Opcode::Start => Instruction::Start,
        Opcode::Stop => Instruction::Stop,
        Opcode::Break => Instruction::Break,
        Opcode::Output => Instruction::Output(a),
        Opcode::Increment => Instruction::Increment(a),
        Opcode::Decrement => Instruction::Decrement(a),
        Opcode::JumpIfZero => Instruction::JumpIfZero(a),
        Opcode::JumpNotZero => Instruction::JumpNotZero(a),
        Opcode::Addition => Instruction::Addition(a, b),
        Opcode::Subtraction => Instruction::Subtraction(a, b),
        Opcode::Move => Instruction::Move(a, b),
    }
}

impl Opcode {
    /// Builds the instruction of this kind with operands `a` and `b`.
    pub fn with_operands(self, a: u32, b: u32) -> (r: Instruction)
        ensures
            r == instruction_of(self, a, b),
    {
        match self {
            Opcode::Start => Instruction::Start,
            Opcode::Stop => Instruction::Stop,
            Opcode::Break => Instruction::Break,
            Opcode::Output => Instruction::Output(a),
            Opcode::Increment => Instruction::Increment(a),
            Opcode::Decrement => Instruction::Decrement(a),
            Opcode::JumpIfZero => Instruction::JumpIfZero(a),
            Opcode::JumpNotZero => Instruction::JumpNotZero(a),
            Opcode::Addition => Instruction::Addition(a, b),
            Opcode::Subtraction => Instruction::Subtraction(a, b),
            Opcode::Move => Instruction::Move(a, b),
        }
    }
}

/// Where the second operand of a two-operand instruction starts: the codon
/// that ended the first operand's digit run separates the two operands and is
/// skipped, unless the first run reached the end of the sequence.
pub open spec fn second_operand_start(cs: Seq<Seq<char>>, first_end: int) -> int {
    if first_end < cs.len() {
        first_end + 1
    } else {
        first_end
    }
}

/// Decodes the instruction whose opcode codon stands at `pos`: the decoded
/// instruction and the position of the next opcode codon.
pub open spec fn decode_at(cs: Seq<Seq<char>>, pos: int) -> Result<(Instruction, int), InterpError>
    recommends
        0 <= pos < cs.len(),
{
    match codon_opcode(cs[pos]) {
        None => Err(InterpError::UnrecognizedSymbol { position: pos as usize }),
        Some(op) => if op.arity() == 0 {
            Ok((instruction_of(op, 0, 0), pos + 1))
        } else {
            match number_at(cs, pos + 1) {
                Err(e) => Err(e),
                Ok((a, first_end)) => if op.arity() == 1 {
                    Ok((instruction_of(op, a, 0), first_end))
                } else {
                    match number_at(cs, second_operand_start(cs, first_end)) {
                        Err(e) => Err(e),
                        Ok((b, second_end)) => Ok((instruction_of(op, a, b), second_end)),
                    }
                },
            }
        },
    }
}

/// Puts `done` in front of the instructions of `rest`, if there are any.
pub open spec fn prepend(done: Seq<Instruction>, rest: Result<Seq<Instruction>, InterpError>) -> Result<Seq<Instruction>, InterpError> {
    match rest {
        Ok(later) => Ok(done + later),
        Err(e) => Err(e),
    }
}

/// Decodes every instruction from position `pos` to the end of the sequence;
/// the first error ends decoding. Every position that decoding reaches is
/// dispatched as an opcode, the last position of the sequence included.
pub open spec fn decode_from(cs: Seq<Seq<char>>, pos: int) -> Result<Seq<Instruction>, InterpError>
    decreases cs.len() - pos,
    via decode_from_decreases
{
    if pos < 0 || pos >= cs.len() {
        Ok(seq![])
    } else {
        match decode_at(cs, pos) {
            Err(e) => Err(e),
            Ok((ins, next)) => prepend(seq![ins], decode_from(cs, next)),
        }
    }
}

#[via_fn]
proof fn decode_from_decreases(cs: Seq<Seq<char>>, pos: int) {
    if 0 <= pos < cs.len() {
        lemma_decode_at_advances(cs, pos);
    }
}

/// The whole codon sequence decoded from its first codon on.
pub open spec fn decoded(cs: Seq<Seq<char>>) -> Result<Seq<Instruction>, InterpError> {
    decode_from(cs, 0)
}

/// Decoding an instruction moves forward and never past the end of the sequence.
pub proof fn lemma_decode_at_advances(cs: Seq<Seq<char>>, pos: int)
    requires
        0 <= pos < cs.len(),
    ensures
        decode_at(cs, pos) matches Ok((_, next)) ==> pos < next <= cs.len(),
{
    lemma_run_len_bound(cs, pos + 1);
    if let Ok((_, first_end)) = number_at(cs, pos + 1) {
        lemma_run_len_bound(cs, second_operand_start(cs, first_end));
    }
}

/// Decodes the instruction whose opcode codon stands at `pos`, and returns it
/// with the position of the next opcode codon.
pub fn decode_instruction(codons: &Vec<String>, pos: usize) -> (r: Result<(Instruction, usize), InterpError>)
    requires
        pos < codons.len(),
    ensures
        widen(r) == decode_at(codons.deep_view(), pos as int),
{
    let ghost cs = codons.deep_view();
    assert(cs[pos as int] == codons@[pos as int]@);
    let op = match opcode_of(codons[pos].as_str()) {
        None => {
            return Err(InterpError::UnrecognizedSymbol { position: pos });
        },
        Some(op) => op,
    };
    let arity = op.operand_count();
    if arity == 0 {
        return Ok((op.with_operands(0, 0), pos + 1));
    }
    let (a, first_end) = match codons_to_number(codons, pos + 1) {
        Err(e) => {
            return Err(e);
        },
        Ok(v) => v,
    };
    if arity == 1 {
        return Ok((op.with_operands(a, 0), first_end));
    }
    proof {
        lemma_run_len_bound(cs, (pos + 1) as int);
    }
    let second = if first_end < codons.len() {
        first_end + 1
    } else {
        first_end
    };
    match codons_to_number(codons, second) {
        Err(e) => Err(e),
        Ok((b, second_end)) => Ok((op.with_operands(a, b), second_end)),
    }
}

/// Decodes a whole codon sequence into instructions, left to right. Each
/// opcode codon is followed by the digit runs of its operands; a codon that
/// is not an opcode where one is expected stops decoding with
/// `UnrecognizedSymbol`, and no partial program is returned.
pub fn decode_program(codons: &Vec<String>) -> (r: Result<Vec<Instruction>, InterpError>)
    ensures
        match r {
            Ok(p) => decoded(codons.deep_view()) == Ok::<Seq<Instruction>, InterpError>(p@),
            Err(e) => decoded(codons.deep_view()) == Err::<Seq<Instruction>, InterpError>(e),
        },
{
    let ghost cs = codons.deep_view();
    let mut program: Vec<Instruction> = Vec::new();
    let mut cursor: usize = 0;
    assert(prepend(program@, decode_from(cs, 0)) == decode_from(cs, 0)) by {
        assert(program@ =~= seq![]);
        if let Ok(later) = decode_from(cs, 0) {
            assert(program@ + later =~= later);
        }
    }
    while cursor < codons.len()
        invariant
            cs == codons.deep_view(),
            cursor <= codons.len(),
            decoded(cs) == prepend(program@, decode_from(cs, cursor as int)),
        decreases codons.len() - cursor,
    {
        proof {
            lemma_decode_at_advances(cs, cursor as int);
        }
        let (ins, next) = match decode_instruction(codons, cursor) {
            Err(e) => {
                return Err(e);
            },
            Ok(v) => v,
        };
        proof {
            if let Ok(later) = decode_from(cs, next as int) {
                assert(program@ + (seq![ins] + later) =~= program@.push(ins) + later);
            }
        }
        program.push(ins);
        cursor = next;
    }
    assert(program@ + seq![] =~= program@);
    Ok(program)
}

/// Decoding depends on the codons alone: the same codon sequence always
/// gives the same instructions, or the same error.
pub proof fn lemma_decode_deterministic(cs1: Seq<Seq<char>>, cs2: Seq<Seq<char>>)
    requires
        cs1 == cs2,
    ensures
        decoded(cs1) == decoded(cs2),
{
}

/// A group of fewer than three symbols where an opcode is expected is never
/// skipped: decoding fails there with `UnrecognizedSymbol`.
pub proof fn lemma_short_group_unrecognized(cs: Seq<Seq<char>>, pos: int)
    requires
        0 <= pos < cs.len(),
        cs[pos].len() < 3,
    ensures
        decode_at(cs, pos) == Err::<(Instruction, int), InterpError>(
            InterpError::UnrecognizedSymbol { position: pos as usize },
        ),
{
}

} // verus!
